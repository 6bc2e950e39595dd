use vstd::prelude::*;

verus! {

/// One named resource amount of a node.
#[derive(Clone, Debug)]
pub struct ResourceEntry {
    pub name: String,
    pub quantity: i64,
}

/// The amount of resource `k` in a list: the last entry of that name counts.
pub open spec fn lookup(s: Seq<ResourceEntry>, k: Seq<char>) -> Option<i64>
    decreases s.len(),
{
    if s.len() == 0 {
        None
    } else if s.last().name@ == k {
        Some(s.last().quantity)
    } else {
        lookup(s.drop_last(), k)
    }
}

pub open spec fn named_other(k: Seq<char>) -> spec_fn(ResourceEntry) -> bool {
    |e: ResourceEntry| e.name@ != k
}

proof fn lemma_lookup_filter(s: Seq<ResourceEntry>, k: Seq<char>, j: Seq<char>)
    ensures
        lookup(s.filter(named_other(k)), j) == (if j == k { None } else { lookup(s, j) }),
    decreases s.len(),
{
    reveal(Seq::filter);
    if s.len() > 0 {
        lemma_lookup_filter(s.drop_last(), k, j);
        let f = s.drop_last().filter(named_other(k));
        if s.last().name@ != k {
            assert(s.filter(named_other(k)) == f.push(s.last()));
            assert(f.push(s.last()).drop_last() == f);
        }
    }
}

/// A condition of a node, as the cluster reports it.
#[derive(Clone, Debug)]
pub struct NodeCondition {
    pub type_: String,
    pub status: String,
    pub reason: Option<String>,
    pub message: Option<String>,
    pub last_heartbeat_time: Option<u64>,
    pub last_transition_time: Option<u64>,
}

#[derive(Clone, Debug)]
pub struct NodeAddress {
    pub type_: String,
    pub address: String,
}

#[derive(Clone, Debug)]
pub struct NodeSystemInfo {
    pub operating_system: String,
    pub architecture: String,
    pub kernel_version: String,
    pub os_image: String,
    pub machine_id: String,
    pub system_uuid: String,
    pub boot_id: String,
}

pub struct NodeStatus {
    pub addresses: Vec<NodeAddress>,
    pub conditions: Vec<NodeCondition>,
    pub node_info: NodeSystemInfo,
    pub capacity: Vec<ResourceEntry>,
    pub allocatable: Vec<ResourceEntry>,
    pub phase: String,
}

pub struct Node {
    pub status: NodeStatus,
}

/// The limits of pods per node.
#[derive(Clone, Copy, Debug)]
pub struct NodeConfiguration {
    pub PodsPerCore: i32,
    pub MaxPods: i32,
}

#[derive(Clone, Debug)]
pub struct MachineInfo {
    pub NumCores: i32,
    pub MemoryCapacity: i64,
    pub MachineID: String,
    pub SystemUUID: String,
    pub BootID: String,
}

#[derive(Clone, Debug)]
pub struct VersionInfo {
    pub KernelVersion: String,
    pub ContainerOsVersion: String,
}

/// What the node's monitoring agent reports about the machine.
#[derive(Clone, Debug)]
pub struct NodeCAdvisorInfo {
    pub machineInfo: MachineInfo,
    pub versionInfo: VersionInfo,
}

/// The state of one pod on the node, as readiness needs it.
#[derive(Clone, Copy, Debug)]
pub struct PodSummary {
    pub is_daemon: bool,
    pub running: bool,
}

/// No network address could be found for the node.
#[derive(Clone, Copy, Debug, PartialEq, Eq, Structural)]
pub enum NodeStatusError {
    NoAddress,
}

/// Adds or replaces resource `name` in a list.
pub fn set_resource(list: &mut Vec<ResourceEntry>, name: &String, quantity: i64)
    ensures
        final(list)@ == old(list)@.filter(named_other(name@)).push(
            ResourceEntry { name: final(list)@.last().name, quantity },
        ),
        final(list)@.last().name@ == name@,
        forall|k: Seq<char>| lookup(final(list)@, k) == (if k == name@ { Some(quantity) } else { lookup(old(list)@, k) }),
{
    let mut kept: Vec<ResourceEntry> = Vec::new();
    let mut i: usize = 0;
    while i < list.len()
        invariant
            i <= list.len(),
            list@ == old(list)@,
            kept@ == old(list)@.take(i as int).filter(named_other(name@)),
        decreases list.len() - i,
    {
        let e = &list[i];
        proof {
            reveal(Seq::filter);
            assert(old(list)@.take(i + 1).drop_last() == old(list)@.take(i as int));
        }
        if !(e.name == *name) {
            kept.push(ResourceEntry { name: e.name.clone(), quantity: e.quantity });
            proof {
                assert(kept@.last() == old(list)@[i as int]) by {
                    assert(kept@.last().name == old(list)@[i as int].name);
                }
            }
        }
        i = i + 1;
    }
    assert(old(list)@.take(old(list)@.len() as int) == old(list)@);
    kept.push(ResourceEntry { name: name.clone(), quantity });
    *list = kept;
    proof {
        assert forall|k: Seq<char>| lookup(list@, k) == (if k == name@ { Some(quantity) } else { lookup(old(list)@, k) }) by {
            assert(list@.drop_last() == old(list)@.filter(named_other(name@)));
            lemma_lookup_filter(old(list)@, name@, k);
        }
    }
}

/// A number of cores in thousandths of a core.
pub open spec fn cpu_quantity(cores: i32) -> i64 {
    (cores as int * 1000) as i64
}

/// The cpu (in thousandths of a core) and memory of the machine.
pub fn ResourceListFromMachineInfo(info: &NodeCAdvisorInfo) -> (r: Vec<ResourceEntry>)
    ensures
        r@.len() == 2,
        r@[0].name@ == "cpu"@ && r@[0].quantity == cpu_quantity(info.machineInfo.NumCores),
        r@[1].name@ == "memory"@ && r@[1].quantity == info.machineInfo.MemoryCapacity,
{
    let mut r: Vec<ResourceEntry> = Vec::new();
    r.push(ResourceEntry { name: "cpu".to_owned(), quantity: info.machineInfo.NumCores as i64 * 1000 });
    r.push(ResourceEntry { name: "memory".to_owned(), quantity: info.machineInfo.MemoryCapacity });
    r
}

/// The pods the node can hold: cores times pods per core, capped at the
/// maximum, when a per-core number is set; else the maximum.
pub open spec fn pod_capacity(config: NodeConfiguration, cores: i32) -> i64 {
    if config.PodsPerCore > 0 {
        let p = cores as int * config.PodsPerCore as int;
        (if p < config.MaxPods as int { p } else { config.MaxPods as int }) as i64
    } else {
        config.MaxPods as i64
    }
}

/// Records the machine's identity and resources in the node's status: the
/// cpu and memory become allocatable and part of the capacity, and the
/// capacity also gets the number of pods.
pub fn UpdateNodeCapacity(nodeConfig: &NodeConfiguration, node: &mut Node, info: &NodeCAdvisorInfo)
    ensures
        final(node).status.node_info.operating_system@ == "linux"@,
        final(node).status.node_info.architecture@ == "amd64"@,
        final(node).status.node_info.kernel_version@ == info.versionInfo.KernelVersion@,
        final(node).status.node_info.os_image@ == info.versionInfo.ContainerOsVersion@,
        final(node).status.node_info.machine_id@ == info.machineInfo.MachineID@,
        final(node).status.node_info.system_uuid@ == info.machineInfo.SystemUUID@,
        final(node).status.node_info.boot_id@ == info.machineInfo.BootID@,
        forall|k: Seq<char>| #[trigger] lookup(final(node).status.allocatable@, k) == (if k == "cpu"@ {
            Some(cpu_quantity(info.machineInfo.NumCores))
        } else if k == "memory"@ {
            Some(info.machineInfo.MemoryCapacity)
        } else {
            lookup(old(node).status.allocatable@, k)
        }),
        forall|k: Seq<char>| #[trigger] lookup(final(node).status.capacity@, k) == (if k == "pods"@ {
            Some(pod_capacity(*nodeConfig, info.machineInfo.NumCores))
        } else if k == "cpu"@ {
            Some(cpu_quantity(info.machineInfo.NumCores))
        } else if k == "memory"@ {
            Some(info.machineInfo.MemoryCapacity)
        } else {
            lookup(old(node).status.capacity@, k)
        }),
        final(node).status.conditions@ == old(node).status.conditions@,
        final(node).status.addresses@ == old(node).status.addresses@,
        final(node).status.phase == old(node).status.phase,
{
    node.status.node_info.operating_system = "linux".to_owned();
    node.status.node_info.architecture = "amd64".to_owned();
    node.status.node_info.kernel_version = info.versionInfo.KernelVersion.clone();
    node.status.node_info.os_image = info.versionInfo.ContainerOsVersion.clone();
    node.status.node_info.machine_id = info.machineInfo.MachineID.clone();
    node.status.node_info.system_uuid = info.machineInfo.SystemUUID.clone();
    node.status.node_info.boot_id = info.machineInfo.BootID.clone();

    let map = ResourceListFromMachineInfo(info);
    proof {
        reveal_strlit("cpu");
        reveal_strlit("memory");
        reveal_strlit("pods");
    }
    let ghost a0 = node.status.allocatable@;
    let ghost c0 = node.status.capacity@;
    set_resource(&mut node.status.allocatable, &map[0].name, map[0].quantity);
    let ghost a1 = node.status.allocatable@;
    set_resource(&mut node.status.allocatable, &map[1].name, map[1].quantity);
    set_resource(&mut node.status.capacity, &map[0].name, map[0].quantity);
    let ghost c1 = node.status.capacity@;
    set_resource(&mut node.status.capacity, &map[1].name, map[1].quantity);
    let ghost c2 = node.status.capacity@;

    let cores = info.machineInfo.NumCores as i64;
    let per_core = nodeConfig.PodsPerCore as i64;
    let pods: i64 = if nodeConfig.PodsPerCore > 0 {
        assert(-0x8000_0000_0000_0000 <= cores * per_core <= 0x7fff_ffff_ffff_ffff) by (nonlinear_arith)
            requires
                -0x8000_0000 <= cores <= 0x7fff_ffff,
                0 < per_core <= 0x7fff_ffff,
        ;
        let p = cores * per_core;
        if p < nodeConfig.MaxPods as i64 { p } else { nodeConfig.MaxPods as i64 }
    } else {
        nodeConfig.MaxPods as i64
    };
    let pods_name = "pods".to_owned();
    set_resource(&mut node.status.capacity, &pods_name, pods);
    proof {
        reveal_strlit("cpu");
        reveal_strlit("memory");
        reveal_strlit("pods");
        assert("cpu"@.len() == 3 && "memory"@.len() == 6 && "pods"@.len() == 4);
        assert("cpu"@ != "memory"@ && "pods"@ != "cpu"@ && "pods"@ != "memory"@);
        assert(pods_name@ == "pods"@);
        assert(pods == pod_capacity(*nodeConfig, info.machineInfo.NumCores));
        assert forall|k: Seq<char>| #[trigger] lookup(node.status.allocatable@, k) == (if k == "cpu"@ {
            Some(cpu_quantity(info.machineInfo.NumCores))
        } else if k == "memory"@ {
            Some(info.machineInfo.MemoryCapacity)
        } else {
            lookup(a0, k)
        }) by {
            assert(lookup(a1, k) == lookup(a1, k));
        }
        assert forall|k: Seq<char>| #[trigger] lookup(node.status.capacity@, k) == (if k == "pods"@ {
            Some(pod_capacity(*nodeConfig, info.machineInfo.NumCores))
        } else if k == "cpu"@ {
            Some(cpu_quantity(info.machineInfo.NumCores))
        } else if k == "memory"@ {
            Some(info.machineInfo.MemoryCapacity)
        } else {
            lookup(c0, k)
        }) by {
            assert(lookup(c1, k) == lookup(c1, k));
            assert(lookup(c2, k) == lookup(c2, k));
        }
    }
}

/// Records the node's network addresses and returns the condition saying
/// its network is initialized; no address is an error.
pub fn UpdateNodeAddress(node: &mut Node, addresses: Vec<NodeAddress>, now: u64) -> (r: Result<NodeCondition, NodeStatusError>)
    ensures
        r is Err <==> addresses@.len() == 0,
        r is Err ==> r == Err::<NodeCondition, NodeStatusError>(NodeStatusError::NoAddress)
            && final(node).status.addresses@ == old(node).status.addresses@,
        r matches Ok(c) ==> {
            &&& final(node).status.addresses@ == addresses@
            &&& c.type_@ == "NetworkUnavailable"@
            &&& c.status@ == "False"@
            &&& c.reason matches Some(s) && s@ == "Node network initialized"@
            &&& c.message matches Some(s) && s@ == "Node network initialized"@
            &&& c.last_heartbeat_time == Some(now)
            &&& c.last_transition_time == Some(now)
        },
        final(node).status.conditions@ == old(node).status.conditions@,
        final(node).status.capacity@ == old(node).status.capacity@,
        final(node).status.allocatable@ == old(node).status.allocatable@,
{
    if addresses.len() == 0 {
        return Err(NodeStatusError::NoAddress);
    }
    node.status.addresses = addresses;
    Ok(NodeCondition {
        type_: "NetworkUnavailable".to_owned(),
        status: "False".to_owned(),
        reason: Some("Node network initialized".to_owned()),
        message: Some("Node network initialized".to_owned()),
        last_heartbeat_time: Some(now),
        last_transition_time: Some(now),
    })
}

/// One condition the container runtime reports about itself.
#[derive(Clone, Debug)]
pub struct RuntimeCondition {
    pub type_: String,
    pub status: bool,
}

/// Whether the runtime reports condition `t` as true.
pub open spec fn runtime_reports(conds: Seq<RuntimeCondition>, t: Seq<char>) -> bool {
    exists|i: int| 0 <= i < conds.len() && conds[i].type_@ == t && conds[i].status
}

/// The node's Ready condition from the runtime's own conditions: its reason
/// and message say whether both "RuntimeReady" and "NetworkReady" hold. The
/// status is "True" either way.
pub fn UpdateNodeReadyStatus(conditions: &Vec<RuntimeCondition>, now: u64) -> (c: NodeCondition)
    ensures
        c.type_@ == "Ready"@,
        c.status@ == "True"@,
        ({
            let ready = runtime_reports(conditions@, "RuntimeReady"@) && runtime_reports(
                conditions@,
                "NetworkReady"@,
            );
            let text = if ready { "Node runtime ready"@ } else { "Node runtime not ready"@ };
            &&& c.reason matches Some(s) && s@ == text
            &&& c.message matches Some(s) && s@ == text
        }),
        c.last_heartbeat_time == Some(now),
        c.last_transition_time == Some(now),
{
    let runtime = "RuntimeReady".to_owned();
    let network = "NetworkReady".to_owned();
    let mut network_ready = false;
    let mut runtime_ready = false;
    let mut i: usize = 0;
    while i < conditions.len()
        invariant
            i <= conditions.len(),
            runtime@ == "RuntimeReady"@,
            network@ == "NetworkReady"@,
            runtime_ready == exists|k: int| 0 <= k < i && conditions@[k].type_@ == "RuntimeReady"@ && conditions@[k].status,
            network_ready == exists|k: int| 0 <= k < i && conditions@[k].type_@ == "NetworkReady"@ && conditions@[k].status,
        decreases conditions.len() - i,
    {
        let v = &conditions[i];
        if v.type_ == runtime && v.status {
            runtime_ready = true;
        }
        if v.type_ == network && v.status {
            network_ready = true;
        }
        proof {
            if runtime_ready && !(v.type_@ == "RuntimeReady"@ && v.status) {
                let k = choose|k: int| 0 <= k < i && conditions@[k].type_@ == "RuntimeReady"@ && conditions@[k].status;
            }
            if network_ready && !(v.type_@ == "NetworkReady"@ && v.status) {
                let k = choose|k: int| 0 <= k < i && conditions@[k].type_@ == "NetworkReady"@ && conditions@[k].status;
            }
        }
        i = i + 1;
    }
    let text = if runtime_ready && network_ready {
        "Node runtime ready"
    } else {
        "Node runtime not ready"
    };
    NodeCondition {
        type_: "Ready".to_owned(),
        status: "True".to_owned(),
        reason: Some(text.to_owned()),
        message: Some(text.to_owned()),
        last_heartbeat_time: Some(now),
        last_transition_time: Some(now),
    }
}

/// An existing condition after an update of the same type arrives: the
/// heartbeat always moves; a changed status replaces the whole condition.
pub open spec fn merged(old: NodeCondition, upd: NodeCondition) -> NodeCondition {
    if old.status@ != upd.status@ {
        upd
    } else {
        NodeCondition { last_heartbeat_time: upd.last_heartbeat_time, ..old }
    }
}

/// The index of the first update of type `t`, if any.
pub open spec fn first_of_type(ups: Seq<NodeCondition>, t: Seq<char>) -> Option<int> {
    if exists|i: int| 0 <= i < ups.len() && ups[i].type_@ == t {
        Some(choose|i: int| 0 <= i < ups.len() && ups[i].type_@ == t && forall|j: int| 0 <= j < i ==> ups[j].type_@ != t)
    } else {
        None
    }
}

/// Whether `r` is an update of the conditions `olds` by `ups`: each existing
/// condition is merged with the first remaining update of its type, which is
/// used up; the updates left are appended in order.
pub open spec fn merge_conditions(olds: Seq<NodeCondition>, ups: Seq<NodeCondition>) -> (Seq<NodeCondition>, Seq<NodeCondition>)
    decreases olds.len(),
{
    if olds.len() == 0 {
        (Seq::empty(), ups)
    } else {
        let o = olds[0];
        let (head, rest_ups) = match first_of_type(ups, o.type_@) {
            Some(i) => (merged(o, ups[i]), ups.remove(i)),
            None => (o, ups),
        };
        let (tail, left) = merge_conditions(olds.drop_first(), rest_ups);
        (seq![head].add(tail), left)
    }
}

/// The index of the first update of type `t`.
fn find_type(ups: &Vec<NodeCondition>, t: &String) -> (r: Option<usize>)
    ensures
        r matches Some(i) ==> i < ups@.len() && first_of_type(ups@, t@) == Some(i as int),
        r is None ==> first_of_type(ups@, t@) is None,
{
    let mut i: usize = 0;
    while i < ups.len()
        invariant
            i <= ups.len(),
            forall|j: int| 0 <= j < i ==> ups@[j].type_@ != t@,
        decreases ups.len() - i,
    {
        if ups[i].type_ == *t {
            proof {
                let c = choose|c: int| 0 <= c < ups@.len() && ups@[c].type_@ == t@ && forall|j: int| 0 <= j < c ==> ups@[j].type_@ != t@;
                assert(0 <= i < ups@.len() && ups@[i as int].type_@ == t@);
                if c < i {
                } else if c > i {
                    assert(ups@[i as int].type_@ != t@);
                }
            }
            return Some(i);
        }
        i = i + 1;
    }
    None
}

impl NodeCondition {
    /// A field-by-field copy.
    pub fn duplicate(&self) -> (r: NodeCondition)
        ensures
            r == *self,
    {
        NodeCondition {
            type_: self.type_.clone(),
            status: self.status.clone(),
            reason: match &self.reason {
                Some(s) => Some(s.clone()),
                None => None,
            },
            message: match &self.message {
                Some(s) => Some(s.clone()),
                None => None,
            },
            last_heartbeat_time: self.last_heartbeat_time,
            last_transition_time: self.last_transition_time,
        }
    }
}

/// Merges the updates `condition` (by type) into the node's conditions: each
/// existing condition takes the heartbeat of the first update of its type,
/// and all of that update when its status differs; that update is used up.
/// The updates left over are appended in order and stay in `condition`.
pub fn MergeNodeConditions(node: &mut Node, condition: &mut Vec<NodeCondition>)
    ensures
        ({
            let (merged_olds, left) = merge_conditions(old(node).status.conditions@, old(condition)@);
            &&& final(node).status.conditions@ == merged_olds + left
            &&& final(condition)@ == left
        }),
        final(node).status.addresses@ == old(node).status.addresses@,
        final(node).status.capacity@ == old(node).status.capacity@,
        final(node).status.allocatable@ == old(node).status.allocatable@,
{
    let ghost olds = node.status.conditions@;
    let mut out: Vec<NodeCondition> = Vec::new();
    let n = node.status.conditions.len();
    let mut k: usize = 0;
    assert(olds.skip(0) == olds);
    while k < n
        invariant
            k <= n,
            n == olds.len(),
            node.status.conditions@ == olds,
            merge_conditions(olds, old(condition)@) == ({
                let (tail, left) = merge_conditions(olds.skip(k as int), condition@);
                (out@ + tail, left)
            }),
            node.status.addresses@ == old(node).status.addresses@,
            node.status.capacity@ == old(node).status.capacity@,
            node.status.allocatable@ == old(node).status.allocatable@,
        decreases n - k,
    {
        let ghost ups = condition@;
        let ghost out0 = out@;
        let mut o = node.status.conditions[k].duplicate();
        proof {
            assert(olds.skip(k as int)[0] == olds[k as int]);
            assert(olds.skip(k as int).drop_first() =~= olds.skip(k + 1));
        }
        match find_type(condition, &o.type_) {
            Some(i) => {
                let u = condition.remove(i);
                if !(o.status == u.status) {
                    o = u;
                } else {
                    o.last_heartbeat_time = u.last_heartbeat_time;
                }
                proof {
                    assert(o == merged(olds[k as int], ups[i as int]));
                }
            },
            None => {},
        }
        out.push(o);
        proof {
            let (tail, left) = merge_conditions(olds.skip(k + 1), condition@);
            assert(seq![o].add(tail) == merge_conditions(olds.skip(k as int), ups).0);
            assert(out@ + tail =~= out0 + seq![o].add(tail));
        }
        k = k + 1;
    }
    proof {
        assert(olds.skip(n as int) =~= Seq::<NodeCondition>::empty());
    }
    let ghost base = out@;
    let mut i: usize = 0;
    while i < condition.len()
        invariant
            i <= condition.len(),
            condition@ == merge_conditions(olds, old(condition)@).1,
            out@ == base + condition@.take(i as int),
            node.status.addresses@ == old(node).status.addresses@,
            node.status.capacity@ == old(node).status.capacity@,
            node.status.allocatable@ == old(node).status.allocatable@,
        decreases condition.len() - i,
    {
        out.push(condition[i].duplicate());
        proof {
            assert(condition@.take(i + 1) == condition@.take(i as int).push(condition@[i as int]));
        }
        i = i + 1;
    }
    assert(condition@.take(condition.len() as int) == condition@);
    node.status.conditions = out;
}

/// Whether a node has a condition of type "Ready" with status "True".
pub open spec fn condition_ready(conds: Seq<NodeCondition>) -> bool {
    exists|i: int| 0 <= i < conds.len() && conds[i].type_@ == "Ready"@ && conds[i].status@ == "True"@
}

pub fn IsNodeCondtionReady(node: &Node) -> (r: bool)
    ensures
        r == condition_ready(node.status.conditions@),
{
    let ready = "Ready".to_owned();
    let t = "True".to_owned();
    let mut i: usize = 0;
    while i < node.status.conditions.len()
        invariant
            i <= node.status.conditions.len(),
            ready@ == "Ready"@,
            t@ == "True"@,
            forall|k: int| 0 <= k < i ==> !(node.status.conditions@[k].type_@ == "Ready"@ && node.status.conditions@[k].status@ == "True"@),
        decreases node.status.conditions.len() - i,
    {
        let c = &node.status.conditions[i];
        if c.type_ == ready && c.status == t {
            return true;
        }
        i = i + 1;
    }
    false
}

pub fn IsNodeRunning(node: &Node) -> (r: bool)
    ensures
        r == (node.status.phase@ == "Running"@),
{
    node.status.phase == "Running".to_owned()
}

/// A node is ready when its allocatable cpu and memory are positive, its
/// Ready condition is true, and every daemon pod on it runs.
pub fn IsNodeStatusReady(node: &Node, pods: &Vec<PodSummary>) -> (r: bool)
    ensures
        r == ((lookup(node.status.allocatable@, "cpu"@) matches Some(c) && c > 0)
            && (lookup(node.status.allocatable@, "memory"@) matches Some(m) && m > 0)
            && (forall|i: int| 0 <= i < pods@.len() && pods@[i].is_daemon ==> pods@[i].running)
            && condition_ready(node.status.conditions@)),
{
    let cpu = get_resource(&node.status.allocatable, &"cpu".to_owned());
    let mem = get_resource(&node.status.allocatable, &"memory".to_owned());
    let cpu_ready = match cpu { Some(c) => c > 0, None => false };
    let mem_ready = match mem { Some(m) => m > 0, None => false };
    let cond_ready = IsNodeCondtionReady(node);
    let mut daemon_ready = true;
    let mut i: usize = 0;
    while i < pods.len()
        invariant
            i <= pods.len(),
            daemon_ready == (forall|k: int| 0 <= k < i && pods@[k].is_daemon ==> pods@[k].running),
        decreases pods.len() - i,
    {
        if pods[i].is_daemon {
            daemon_ready = daemon_ready && pods[i].running;
        }
        i = i + 1;
    }
    cpu_ready && mem_ready && daemon_ready && cond_ready
}

/// The amount of resource `name` in a list.
pub fn get_resource(list: &Vec<ResourceEntry>, name: &String) -> (r: Option<i64>)
    ensures
        r == lookup(list@, name@),
{
    let mut i: usize = list.len();
    assert(list@.take(list.len() as int) == list@);
    while i > 0
        invariant
            i <= list.len(),
            lookup(list@, name@) == lookup(list@.take(i as int), name@),
        decreases i,
    {
        let e = &list[i - 1];
        assert(list@.take(i as int).drop_last() == list@.take(i - 1));
        if e.name == *name {
            return Some(e.quantity);
        }
        i = i - 1;
    }
    None
}

} // verus!
