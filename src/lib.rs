use vstd::prelude::*;

pub mod common;
pub mod cpu_local;
pub mod fd_table;
pub mod gap_mgr;
pub mod host_bridge;
pub mod hypercall;
pub mod long_mode;
pub mod mount;
pub mod node_status;
pub mod qlet_config;
pub mod range;
pub mod rdma;
pub mod scheduler;
pub mod tsot_msg;
pub mod uid;
pub mod vcpu_wait;
pub mod vm_type;
