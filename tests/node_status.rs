use quark::node_status::{
    get_resource, IsNodeCondtionReady, IsNodeRunning, IsNodeStatusReady, MachineInfo,
    MergeNodeConditions, Node, NodeAddress, NodeCAdvisorInfo, NodeCondition, NodeConfiguration,
    NodeStatus, NodeStatusError, NodeSystemInfo, PodSummary, ResourceEntry,
    ResourceListFromMachineInfo, RuntimeCondition, UpdateNodeAddress, UpdateNodeCapacity,
    UpdateNodeReadyStatus, VersionInfo,
};

fn empty_info() -> NodeSystemInfo {
    NodeSystemInfo {
        operating_system: String::new(),
        architecture: String::new(),
        kernel_version: String::new(),
        os_image: String::new(),
        machine_id: String::new(),
        system_uuid: String::new(),
        boot_id: String::new(),
    }
}

fn node() -> Node {
    Node {
        status: NodeStatus {
            addresses: vec![],
            conditions: vec![],
            node_info: empty_info(),
            capacity: vec![],
            allocatable: vec![],
            phase: "Pending".to_string(),
        },
    }
}

fn cond(t: &str, s: &str, hb: u64) -> NodeCondition {
    NodeCondition {
        type_: t.to_string(),
        status: s.to_string(),
        reason: None,
        message: None,
        last_heartbeat_time: Some(hb),
        last_transition_time: Some(hb),
    }
}

fn advisor(cores: i32, mem: i64) -> NodeCAdvisorInfo {
    NodeCAdvisorInfo {
        machineInfo: MachineInfo {
            NumCores: cores,
            MemoryCapacity: mem,
            MachineID: "m".to_string(),
            SystemUUID: "u".to_string(),
            BootID: "b".to_string(),
        },
        versionInfo: VersionInfo { KernelVersion: "5.15".to_string(), ContainerOsVersion: "ubuntu".to_string() },
    }
}

#[test]
fn address_update() {
    let mut n = node();
    assert_eq!(UpdateNodeAddress(&mut n, vec![], 5).err(), Some(NodeStatusError::NoAddress));
    let addr = NodeAddress { type_: "InternalIP".to_string(), address: "10.0.0.2".to_string() };
    let c = UpdateNodeAddress(&mut n, vec![addr], 5).unwrap();
    assert_eq!(n.status.addresses.len(), 1);
    assert_eq!(n.status.addresses[0].address, "10.0.0.2");
    assert_eq!(c.type_, "NetworkUnavailable");
    assert_eq!(c.status, "False");
    assert_eq!(c.reason.as_deref(), Some("Node network initialized"));
    assert_eq!(c.last_heartbeat_time, Some(5));
}

#[test]
fn machine_resources() {
    let list = ResourceListFromMachineInfo(&advisor(8, 1 << 30));
    assert_eq!(list.len(), 2);
    assert_eq!((list[0].name.as_str(), list[0].quantity), ("cpu", 8000));
    assert_eq!((list[1].name.as_str(), list[1].quantity), ("memory", 1 << 30));
}

#[test]
fn capacity_with_pods_per_core() {
    let mut n = node();
    n.status.capacity.push(ResourceEntry { name: "cpu".to_string(), quantity: 1 });
    n.status.capacity.push(ResourceEntry { name: "gpu".to_string(), quantity: 2 });
    UpdateNodeCapacity(&NodeConfiguration { PodsPerCore: 10, MaxPods: 110 }, &mut n, &advisor(4, 4096));
    assert_eq!(get_resource(&n.status.capacity, &"pods".to_string()), Some(40));
    assert_eq!(get_resource(&n.status.capacity, &"cpu".to_string()), Some(4000));
    assert_eq!(get_resource(&n.status.capacity, &"gpu".to_string()), Some(2));
    assert_eq!(get_resource(&n.status.allocatable, &"memory".to_string()), Some(4096));
    assert_eq!(get_resource(&n.status.allocatable, &"pods".to_string()), None);
    assert_eq!(n.status.node_info.operating_system, "linux");
    assert_eq!(n.status.node_info.architecture, "amd64");
    assert_eq!(n.status.node_info.kernel_version, "5.15");
    assert_eq!(n.status.node_info.boot_id, "b");
}

#[test]
fn capacity_pods_capped_or_max() {
    let mut n = node();
    UpdateNodeCapacity(&NodeConfiguration { PodsPerCore: 100, MaxPods: 110 }, &mut n, &advisor(4, 1));
    assert_eq!(get_resource(&n.status.capacity, &"pods".to_string()), Some(110));
    UpdateNodeCapacity(&NodeConfiguration { PodsPerCore: 0, MaxPods: 50 }, &mut n, &advisor(4, 1));
    assert_eq!(get_resource(&n.status.capacity, &"pods".to_string()), Some(50));
}

#[test]
fn merge_conditions() {
    let mut n = node();
    n.status.conditions = vec![cond("Ready", "False", 1), cond("DiskPressure", "False", 1)];
    let mut updates = vec![cond("Ready", "True", 9), cond("DiskPressure", "False", 9), cond("PIDPressure", "False", 9)];
    MergeNodeConditions(&mut n, &mut updates);
    let c = &n.status.conditions;
    assert_eq!(c.len(), 3);
    assert_eq!((c[0].type_.as_str(), c[0].status.as_str(), c[0].last_transition_time), ("Ready", "True", Some(9)));
    assert_eq!((c[1].type_.as_str(), c[1].last_heartbeat_time, c[1].last_transition_time), ("DiskPressure", Some(9), Some(1)));
    assert_eq!(c[2].type_, "PIDPressure");
    assert_eq!(updates.len(), 1);
    assert!(IsNodeCondtionReady(&n));
}

#[test]
fn readiness() {
    let mut n = node();
    assert!(!IsNodeCondtionReady(&n));
    assert!(!IsNodeRunning(&n));
    n.status.phase = "Running".to_string();
    assert!(IsNodeRunning(&n));
    n.status.conditions.push(cond("Ready", "True", 1));
    UpdateNodeCapacity(&NodeConfiguration { PodsPerCore: 0, MaxPods: 10 }, &mut n, &advisor(2, 100));
    let pods = vec![PodSummary { is_daemon: true, running: true }, PodSummary { is_daemon: false, running: false }];
    assert!(IsNodeStatusReady(&n, &pods));
    let stuck = vec![PodSummary { is_daemon: true, running: false }];
    assert!(!IsNodeStatusReady(&n, &stuck));
    let mut bare = node();
    bare.status.conditions.push(cond("Ready", "True", 1));
    assert!(!IsNodeStatusReady(&bare, &pods));
}

#[test]
fn ready_status_from_runtime() {
    let rc = |t: &str, s: bool| RuntimeCondition { type_: t.to_string(), status: s };
    let c = UpdateNodeReadyStatus(&vec![rc("RuntimeReady", true), rc("NetworkReady", true)], 4);
    assert_eq!((c.type_.as_str(), c.status.as_str()), ("Ready", "True"));
    assert_eq!(c.reason.as_deref(), Some("Node runtime ready"));
    assert_eq!(c.last_heartbeat_time, Some(4));
    let c = UpdateNodeReadyStatus(&vec![rc("RuntimeReady", true), rc("NetworkReady", false)], 4);
    assert_eq!(c.message.as_deref(), Some("Node runtime not ready"));
    assert_eq!(c.status, "True");
}
