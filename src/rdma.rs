use vstd::prelude::*;

verus! {

/// An epoll event as the kernel lays it out.
#[derive(Clone, Copy, Debug, Default, PartialEq, Eq, Structural)]
pub struct EpollEvent {
    pub Events: u32,
    pub U64: u64,
}

/// What a descriptor registered with the RDMA service's epoll set is.
#[derive(Clone, Copy, Debug, PartialEq, Eq, Structural)]
pub enum FdType {
    UnixDomainSocketServer,
    UnixDomainSocketConnect,
    TCPSocketServer,
    TCPSocketConnect(u32),
    RDMACompletionChannel,
}

} // verus!
