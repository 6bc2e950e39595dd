use vstd::prelude::*;

verus! {

/// Where the node agent listens for pods.
pub const TSOT_SOCKET_PATH: &'static str = "/var/run/quark/tsot-socket";

/// The status codes of the pod/node-agent protocol.
#[derive(Clone, Copy, Debug, PartialEq, Eq, Structural)]
pub enum ErrCode {
    NoError,
    PodUidDonotExisit,
    ECONNREFUSED,
}

impl ErrCode {
    pub open spec fn code_spec(self) -> i32 {
        match self {
            ErrCode::NoError => 0,
            ErrCode::PodUidDonotExisit => 1,
            ErrCode::ECONNREFUSED => 111,
        }
    }

    /// The code's number on the wire.
    pub fn code(&self) -> (r: i32)
        ensures
            r == self.code_spec(),
    {
        match self {
            ErrCode::NoError => 0,
            ErrCode::PodUidDonotExisit => 1,
            ErrCode::ECONNREFUSED => 111,
        }
    }
}

#[derive(Clone, Copy, Debug, Default)]
pub struct PodRegisterReq {
    pub podUid: [u8; 16],
}

#[derive(Clone, Copy, Debug, Default, PartialEq, Eq, Structural)]
pub struct CreateSocketReq {}

#[derive(Clone, Copy, Debug, PartialEq, Eq, Structural)]
pub struct ListenReq {
    pub port: u16,
    pub backlog: u32,
}

#[derive(Clone, Copy, Debug, PartialEq, Eq, Structural)]
pub struct AcceptReq {
    pub port: u16,
}

#[derive(Clone, Copy, Debug, PartialEq, Eq, Structural)]
pub struct StopListenReq {
    pub port: u16,
}

#[derive(Clone, Copy, Debug, PartialEq, Eq, Structural)]
pub struct ConnectReq {
    pub reqId: u32,
    pub dstIp: u32,
    pub dstPort: u16,
    pub srcPort: u16,
}

#[derive(Clone, Copy, Debug)]
pub struct DnsReq {
    pub reqId: u16,
    pub nameslen: u16,
    pub names: [u8; 256],
}

#[derive(Clone, Copy, Debug, PartialEq, Eq, Structural)]
pub struct PodRegisterResp {
    /// The pod's container IP address.
    pub containerIp: u32,
    pub errorCode: u32,
}

#[derive(Clone, Copy, Debug, Default, PartialEq, Eq, Structural)]
pub struct CreateSocketResp {}

#[derive(Clone, Copy, Debug, PartialEq, Eq, Structural)]
pub struct PeerConnectNotify {
    pub peerIp: u32,
    pub peerPort: u16,
    pub localPort: u16,
}

impl PeerConnectNotify {
    /// The peer address as it lies in memory: least significant byte first.
    pub fn PeerAddrBytes(&self) -> (r: [u8; 4])
        ensures
            r@ == seq![
                (self.peerIp & 0xff) as u8,
                ((self.peerIp >> 8u32) & 0xff) as u8,
                ((self.peerIp >> 16u32) & 0xff) as u8,
                ((self.peerIp >> 24u32) & 0xff) as u8,
            ],
    {
        let ip = self.peerIp;
        let r = [
            (ip & 0xff) as u8,
            ((ip >> 8) & 0xff) as u8,
            ((ip >> 16) & 0xff) as u8,
            ((ip >> 24) & 0xff) as u8,
        ];
        assert(r@ =~= seq![
            (ip & 0xff) as u8,
            ((ip >> 8u32) & 0xff) as u8,
            ((ip >> 16u32) & 0xff) as u8,
            ((ip >> 24u32) & 0xff) as u8,
        ]);
        r
    }
}

#[derive(Clone, Copy, Debug, PartialEq, Eq, Structural)]
pub struct ConnectResp {
    pub reqId: u32,
    pub errorCode: i32,
}

#[derive(Clone, Copy, Debug, Default)]
pub struct DnsResp {
    pub reqId: u16,
    /// The answers: at most four.
    pub ips: [u32; 4],
    pub count: usize,
}

/// A message between a pod and the node agent.
#[derive(Clone, Copy, Debug)]
pub enum TsotMsg {
    /// No message.
    Empty,
    PodRegisterReq(PodRegisterReq),
    CreateSocketReq(CreateSocketReq),
    ListenReq(ListenReq),
    AcceptReq(AcceptReq),
    StopListenReq(StopListenReq),
    ConnectReq(ConnectReq),
    DnsReq(DnsReq),
    // From the node agent to a pod.
    PodRegisterResp(PodRegisterResp),
    CreateSocketResp(CreateSocketResp),
    PeerConnectNotify(PeerConnectNotify),
    ConnectResp(ConnectResp),
    DnsResp(DnsResp),
}

/// A message with the socket it concerns.
#[derive(Clone, Copy, Debug)]
pub struct TsotMessage {
    pub socket: i32,
    pub msg: TsotMsg,
}

impl TsotMessage {
    /// A message concerning no socket yet.
    pub fn from_msg(msg: TsotMsg) -> (r: TsotMessage)
        ensures
            r == (TsotMessage { socket: -1i32, msg }),
    {
        TsotMessage { socket: -1, msg }
    }
}

impl Default for TsotMessage {
    fn default() -> (r: TsotMessage)
        ensures
            r == (TsotMessage { socket: 0, msg: TsotMsg::Empty }),
    {
        TsotMessage { socket: 0, msg: TsotMsg::Empty }
    }
}

} // verus!
