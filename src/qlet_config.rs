use vstd::prelude::*;

verus! {

/// The configuration of a node agent.
#[derive(Clone, Debug)]
pub struct QletConfig {
    pub nodeName: String,
    pub etcdAddresses: Vec<String>,
    pub nodeIp: String,
    pub podMgrPort: u16,
    pub tsotCniPort: u16,
    pub tsotSvcPort: u16,
    pub stateSvcPort: u16,
    pub cidr: String,
    pub stateSvcAddr: Vec<String>,
    pub singleNodeModel: bool,
}

} // verus!
