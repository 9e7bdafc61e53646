//! The topology of the system: its nodes, the links between them, and what
//! the kernel driver writes of them.

use vstd::prelude::*;
use crate::globals::{check_kfd_open_and_panic, HsaKmtGlobal};
use crate::hsakmttypes::{
    get_hsa_gfxip_table, gfx_version_full, gfxip_lookup_table, hsa_gfxip_table, node_props_t,
    HsaCacheProperties, HsaCacheType, HsaEngineId, HsaIoLinkProperties, HsaMemoryProperties,
    HsaNodeProperties, HsaSystemProperties, HsakmtStatus, HSA_CAPABILITY,
    HSA_CAPABILITY_SVM_API_SUPPORTED, HSA_DEBUG_PROPERTIES, HSA_ENGINE_VERSION,
    HSA_GET_GFX_VERSION_FULL, HSA_HEAPTYPE, HSA_IOLINKTYPE, HSA_LINKPROPERTY,
    HSA_MEMORYPROPERTY, HSA_MEMORY_PROP, SGPR_SIZE_PER_CU,
};
use crate::properties::{
    decimal, find_byte, find_property, find_property_text, first_byte, parse_decimal, property_of,
    text_of,
};
use crate::queues::{hsakmt_get_vgpr_size_per_cu, vgpr_size_per_cu};

verus! {

/// The vendors of processors that are told apart.
#[allow(non_camel_case_types)]
#[derive(Debug, Copy, Clone, PartialEq, Eq, Structural)]
pub enum SUPPORTED_PROCESSOR_VENDORS {
    GENUINE_INTEL,
    AUTHENTIC_AMD,
    IBM_POWER,
}

/// The greatest weight of a link that is direct: a heavier one leads through
/// another processor.
pub const DIRECT_LINK_MAX_WEIGHT: u32 = 20;

/// The major engine version out of a version in decimal, two digits for each
/// part.
#[allow(non_snake_case)]
pub fn HSA_GET_GFX_VERSION_MAJOR(gfxv: u16) -> (major: u8)
    ensures
        major == (gfxv / 10000) % 100,
{
    ((gfxv / 10000) % 100) as u8
}

/// The minor engine version out of a version in decimal.
#[allow(non_snake_case)]
pub fn HSA_GET_GFX_VERSION_MINOR(gfxv: u16) -> (minor: u8)
    ensures
        minor == (gfxv / 100) % 100,
{
    ((gfxv / 100) % 100) as u8
}

/// The stepping out of a version in decimal. It is read from the same two
/// digits as the minor version.
#[allow(non_snake_case)]
pub fn HSA_GET_GFX_VERSION_STEP(gfxv: u16) -> (step: u8)
    ensures
        step == (gfxv / 100) % 100,
{
    ((gfxv / 100) % 100) as u8
}

/// The position of the first line of `table` that is of device `device_id`,
/// or the number of lines where none is.
pub open spec fn first_line_of(table: Seq<hsa_gfxip_table>, device_id: u16) -> int
    decreases table.len(),
{
    if table.len() == 0 {
        0
    } else if first_line_of(table.drop_last(), device_id) < table.len() - 1 {
        first_line_of(table.drop_last(), device_id)
    } else if table.last().device_id == device_id {
        table.len() - 1
    } else {
        table.len() as int
    }
}

/// The first line of a device in a prefix of the table is the first in all of
/// it.
pub proof fn lemma_first_line_of_prefix(table: Seq<hsa_gfxip_table>, device_id: u16, n: int)
    requires
        0 <= n <= table.len(),
        first_line_of(table.take(n), device_id) < n,
    ensures
        first_line_of(table, device_id) == first_line_of(table.take(n), device_id),
    decreases table.len() - n,
{
    if n < table.len() {
        assert(table.take(n + 1).drop_last() =~= table.take(n));
        lemma_first_line_of_prefix(table, device_id, n + 1);
    } else {
        assert(table.take(n) =~= table);
    }
}

/// The line of the table of GPUs that is of device `device_id`, for a GPU
/// whose major engine version is 10 at most. Later GPUs are not in the table.
pub open spec fn gfxip_device(device_id: u16, gfxv_major: u8) -> Option<hsa_gfxip_table> {
    if gfxv_major > 10 || first_line_of(gfxip_lookup_table(), device_id)
        >= gfxip_lookup_table().len() {
        None
    } else {
        Some(gfxip_lookup_table()[first_line_of(gfxip_lookup_table(), device_id)])
    }
}

/// Looks device `device_id` up in the table of GPUs.
pub fn find_hsa_gfxip_device(device_id: u16, gfxv_major: u8) -> (r: Option<hsa_gfxip_table>)
    ensures
        r == gfxip_device(device_id, gfxv_major),
{
    if gfxv_major > 10 {
        return None;
    }
    let table = get_hsa_gfxip_table();
    let n: usize = table.len();
    let mut i: usize = 0;
    assert(table@.take(0) =~= Seq::<hsa_gfxip_table>::empty());
    while i < n
        invariant
            n == table@.len(),
            table@ == gfxip_lookup_table(),
            gfxv_major <= 10,
            0 <= i <= n,
            first_line_of(table@.take(i as int), device_id) == i,
        decreases n - i,
    {
        assert(table@.take(i + 1).drop_last() =~= table@.take(i as int));
        if table[i].device_id == device_id {
            proof {
                lemma_first_line_of_prefix(table@, device_id, i + 1);
            }
            return Some(table[i]);
        }
        i = i + 1;
    }
    assert(table@.take(n as int) =~= table@);
    None
}

/// What is known of the topology of the system.
#[derive(Debug)]
pub struct HsaKmtTopologyGlobal {
    pub g_system: HsaSystemProperties,
    pub g_props: Vec<node_props_t>,
    /// For each node that can be used, its number in the kernel driver's
    /// count of nodes.
    pub map_user_to_sysfs_node_id: Vec<usize>,
    pub map_user_to_sysfs_node_id_size: usize,
    /// The number of nodes that the kernel driver counts.
    pub num_sysfs_nodes: usize,
}

impl HsaKmtTopologyGlobal {
    /// A topology of which nothing is known.
    pub fn new() -> (topology: Self)
        ensures
            topology.g_system == (HsaSystemProperties {
                NumNodes: 0,
                PlatformOem: 0,
                PlatformId: 0,
                PlatformRev: 0,
            }),
            topology.g_props@.len() == 0,
            topology.map_user_to_sysfs_node_id@.len() == 0,
            topology.map_user_to_sysfs_node_id_size == 0,
            topology.num_sysfs_nodes == 0,
    {
        HsaKmtTopologyGlobal {
            g_system: HsaSystemProperties {
                NumNodes: 0,
                PlatformOem: 0,
                PlatformId: 0,
                PlatformRev: 0,
            },
            g_props: Vec::new(),
            map_user_to_sysfs_node_id: Vec::new(),
            map_user_to_sysfs_node_id_size: 0,
            num_sysfs_nodes: 0,
        }
    }

    /// The properties of node `node_id`.
    pub fn hsakmt_topology_get_node_props(&self, node_id: u32) -> (props: &HsaNodeProperties)
        requires
            node_id < self.g_props@.len(),
        ensures
            *props == self.g_props@[node_id as int].node,
    {
        &self.g_props[node_id as usize].node
    }

    /// The links of node `node_id`.
    pub fn hsakmt_topology_get_iolink_props(&self, node_id: u32) -> (links: &Vec<
        HsaIoLinkProperties,
    >)
        requires
            node_id < self.g_props@.len(),
        ensures
            *links == self.g_props@[node_id as int].link,
    {
        &self.g_props[node_id as usize].link
    }
}

/// A copy of what is known of the topology as a whole, without the nodes.
pub fn hsakmt_topology_global_get(topology: &HsaKmtTopologyGlobal) -> (copy: HsaKmtTopologyGlobal)
    ensures
        copy.g_system == topology.g_system,
        copy.g_props@.len() == 0,
        copy.map_user_to_sysfs_node_id@ == topology.map_user_to_sysfs_node_id@,
        copy.map_user_to_sysfs_node_id_size == topology.map_user_to_sysfs_node_id_size,
        copy.num_sysfs_nodes == topology.num_sysfs_nodes,
{
    let mut ids: Vec<usize> = Vec::new();
    let mut i: usize = 0;
    while i < topology.map_user_to_sysfs_node_id.len()
        invariant
            0 <= i <= topology.map_user_to_sysfs_node_id@.len(),
            ids@ == topology.map_user_to_sysfs_node_id@.take(i as int),
        decreases topology.map_user_to_sysfs_node_id@.len() - i,
    {
        ids.push(topology.map_user_to_sysfs_node_id[i]);
        assert(ids@ =~= topology.map_user_to_sysfs_node_id@.take(i + 1));
        i = i + 1;
    }
    assert(ids@ =~= topology.map_user_to_sysfs_node_id@);
    HsaKmtTopologyGlobal {
        g_system: topology.g_system,
        g_props: Vec::new(),
        map_user_to_sysfs_node_id: ids,
        map_user_to_sysfs_node_id_size: topology.map_user_to_sysfs_node_id_size,
        num_sysfs_nodes: topology.num_sysfs_nodes,
    }
}

/// Takes `ids` as the numbers of the nodes that can be used.
pub fn hsakmt_topology_global_map_user_to_sysfs_node_id_set(
    topology: &mut HsaKmtTopologyGlobal,
    ids: Vec<usize>,
)
    ensures
        final(topology).map_user_to_sysfs_node_id == ids,
        final(topology).map_user_to_sysfs_node_id_size == ids@.len(),
        final(topology).g_system == old(topology).g_system,
        final(topology).g_props == old(topology).g_props,
        final(topology).num_sysfs_nodes == old(topology).num_sysfs_nodes,
{
    topology.map_user_to_sysfs_node_id_size = ids.len();
    topology.map_user_to_sysfs_node_id = ids;
}

/// Keeps the number of nodes that the kernel driver counts.
pub fn hsakmt_topology_global_num_sysfs_nodes_set(
    topology: &mut HsaKmtTopologyGlobal,
    num_sysfs_nodes: usize,
)
    ensures
        final(topology).num_sysfs_nodes == num_sysfs_nodes,
        final(topology).g_system == old(topology).g_system,
        final(topology).g_props == old(topology).g_props,
        final(topology).map_user_to_sysfs_node_id == old(topology).map_user_to_sysfs_node_id,
        final(topology).map_user_to_sysfs_node_id_size == old(topology).map_user_to_sysfs_node_id_size,
{
    topology.num_sysfs_nodes = num_sysfs_nodes;
}

/// Keeps what is known of the system as a whole.
pub fn hsakmt_topology_global_g_system_set(
    topology: &mut HsaKmtTopologyGlobal,
    g_system: HsaSystemProperties,
)
    ensures
        final(topology).g_system == g_system,
        final(topology).g_props == old(topology).g_props,
        final(topology).num_sysfs_nodes == old(topology).num_sysfs_nodes,
        final(topology).map_user_to_sysfs_node_id == old(topology).map_user_to_sysfs_node_id,
        final(topology).map_user_to_sysfs_node_id_size == old(topology).map_user_to_sysfs_node_id_size,
{
    topology.g_system = g_system;
}

/// Keeps what is known of the nodes.
pub fn hsakmt_topology_global_g_props_set(topology: &mut HsaKmtTopologyGlobal, g_props: Vec<
    node_props_t,
>)
    ensures
        final(topology).g_props == g_props,
        final(topology).g_system == old(topology).g_system,
        final(topology).num_sysfs_nodes == old(topology).num_sysfs_nodes,
        final(topology).map_user_to_sysfs_node_id == old(topology).map_user_to_sysfs_node_id,
        final(topology).map_user_to_sysfs_node_id_size == old(topology).map_user_to_sysfs_node_id_size,
{
    topology.g_props = g_props;
}

/// The number of nodes that are known.
pub fn hsakmt_topology_global_g_props_get_ref(topology: &HsaKmtTopologyGlobal) -> (count: usize)
    ensures
        count == topology.g_props@.len(),
{
    topology.g_props.len()
}

/// What the links of the topology are decided on: a node with its memory
/// banks and links.
pub struct NodeModel {
    pub node: HsaNodeProperties,
    pub mem: Seq<HsaMemoryProperties>,
    pub link: Seq<HsaIoLinkProperties>,
}

impl View for node_props_t {
    type V = NodeModel;

    open spec fn view(&self) -> NodeModel {
        NodeModel { node: self.node, mem: self.mem@, link: self.link@ }
    }
}

/// The models of the nodes, in their order.
pub open spec fn models_of(node_props: Seq<node_props_t>) -> Seq<NodeModel> {
    Seq::new(node_props.len(), |i: int| node_props[i]@)
}

/// The position of the first link among `links` that is a direct PCI Express
/// link, or the number of links where there is none.
pub open spec fn first_direct_pcie(links: Seq<HsaIoLinkProperties>) -> int
    decreases links.len(),
{
    if links.len() == 0 {
        0
    } else if first_direct_pcie(links.drop_last()) < links.len() - 1 {
        first_direct_pcie(links.drop_last())
    } else if links.last().IoLinkType == HSA_IOLINKTYPE::HSA_IOLINKTYPE_PCIEXPRESS
        && links.last().Weight <= DIRECT_LINK_MAX_WEIGHT {
        links.len() - 1
    } else {
        links.len() as int
    }
}

/// The node of the CPU that GPU node `gpu_node` is linked to directly, or -1
/// where it is no GPU, has no links, or has no direct PCI Express link.
pub open spec fn direct_link_cpu(nodes: Seq<NodeModel>, gpu_node: int) -> int {
    let n = nodes[gpu_node];
    if n.node.KFDGpuID == 0 || n.link.len() == 0 || n.node.NumIOLinks == 0 || first_direct_pcie(
        n.link,
    ) >= n.link.len() {
        -1
    } else {
        n.link[first_direct_pcie(n.link)].NodeTo as i32 as int
    }
}

/// The position of the first link among `links` that is a direct PCI Express
/// link, or the number of links.
pub fn find_first_direct_pcie(links: &Vec<HsaIoLinkProperties>) -> (r: usize)
    ensures
        r == first_direct_pcie(links@),
        r <= links@.len(),
{
    let n: usize = links.len();
    let mut i: usize = 0;
    assert(links@.take(0) =~= Seq::<HsaIoLinkProperties>::empty());
    while i < n
        invariant
            n == links@.len(),
            0 <= i <= n,
            first_direct_pcie(links@.take(i as int)) == i,
        decreases n - i,
    {
        assert(links@.take(i + 1).drop_last() =~= links@.take(i as int));
        if links[i].IoLinkType == HSA_IOLINKTYPE::HSA_IOLINKTYPE_PCIEXPRESS && links[i].Weight
            <= DIRECT_LINK_MAX_WEIGHT {
            proof {
                lemma_first_direct_pcie_prefix(links@, i + 1);
            }
            return i;
        }
        i = i + 1;
    }
    assert(links@.take(n as int) =~= links@);
    n
}

/// A direct PCI Express link that is the first in a prefix of the links is
/// the first in all of them.
pub proof fn lemma_first_direct_pcie_prefix(links: Seq<HsaIoLinkProperties>, n: int)
    requires
        0 <= n <= links.len(),
        first_direct_pcie(links.take(n)) < n,
    ensures
        first_direct_pcie(links) == first_direct_pcie(links.take(n)),
    decreases links.len() - n,
{
    if n < links.len() {
        assert(links.take(n + 1).drop_last() =~= links.take(n));
        lemma_first_direct_pcie_prefix(links, n + 1);
    } else {
        assert(links.take(n) =~= links);
    }
}

/// Finds the CPU that GPU node `gpu_node` is linked to directly.
pub fn gpu_get_direct_link_cpu(gpu_node: u32, node_props: &Vec<node_props_t>) -> (r: i32)
    requires
        gpu_node < node_props@.len(),
    ensures
        r == direct_link_cpu(models_of(node_props@), gpu_node as int),
{
    let props = &node_props[gpu_node as usize];
    if props.node.KFDGpuID == 0 || props.link.len() == 0 || props.node.NumIOLinks == 0 {
        return -1;
    }
    let at: usize = find_first_direct_pcie(&props.link);
    if at < props.link.len() {
        props.link[at].NodeTo as i32
    } else {
        -1
    }
}

/// The position of the first link among `links` that leads to `node_to`, or
/// the number of links where none does.
pub open spec fn first_link_to(links: Seq<HsaIoLinkProperties>, node_to: u32) -> int
    decreases links.len(),
{
    if links.len() == 0 {
        0
    } else if first_link_to(links.drop_last(), node_to) < links.len() - 1 {
        first_link_to(links.drop_last(), node_to)
    } else if links.last().NodeTo == node_to {
        links.len() - 1
    } else {
        links.len() as int
    }
}

/// The first link to `node_to` in a prefix of the links is the first in all
/// of them.
pub proof fn lemma_first_link_to_prefix(links: Seq<HsaIoLinkProperties>, node_to: u32, n: int)
    requires
        0 <= n <= links.len(),
        first_link_to(links.take(n), node_to) < n,
    ensures
        first_link_to(links, node_to) == first_link_to(links.take(n), node_to),
    decreases links.len() - n,
{
    if n < links.len() {
        assert(links.take(n + 1).drop_last() =~= links.take(n));
        lemma_first_link_to_prefix(links, node_to, n + 1);
    } else {
        assert(links.take(n) =~= links);
    }
}

/// The position of the first link among `links` that leads to `node_to`, or
/// the number of links.
pub fn find_first_link_to(links: &Vec<HsaIoLinkProperties>, node_to: u32) -> (r: usize)
    ensures
        r == first_link_to(links@, node_to),
        r <= links@.len(),
        r < links@.len() ==> links@[r as int].NodeTo == node_to,
{
    let n: usize = links.len();
    let mut i: usize = 0;
    assert(links@.take(0) =~= Seq::<HsaIoLinkProperties>::empty());
    while i < n
        invariant
            n == links@.len(),
            0 <= i <= n,
            first_link_to(links@.take(i as int), node_to) == i,
        decreases n - i,
    {
        assert(links@.take(i + 1).drop_last() =~= links@.take(i as int));
        if links[i].NodeTo == node_to {
            proof {
                lemma_first_link_to_prefix(links@, node_to, i + 1);
            }
            return i;
        }
        i = i + 1;
    }
    assert(links@.take(n as int) =~= links@);
    n
}

/// What is known of a way from one node to another: whether there is one,
/// what it weighs, and of what kind it is.
#[derive(Debug, Copy, Clone, PartialEq, Eq, Structural)]
pub struct LinkInfo {
    pub status: HsakmtStatus,
    pub weight: u32,
    pub hsa_type: HSA_IOLINKTYPE,
}

/// The direct link from `node1` to `node2`: the first link of `node1` that
/// leads there. A node without links is no valid node to ask for; a node
/// without such a link is asked a wrong question.
pub open spec fn direct_iolink(nodes: Seq<NodeModel>, node1: int, node2: u32) -> LinkInfo {
    let links = nodes[node1].link;
    if links.len() == 0 {
        LinkInfo {
            status: HsakmtStatus::HSAKMT_STATUS_INVALID_NODE_UNIT,
            weight: 0,
            hsa_type: HSA_IOLINKTYPE::HSA_IOLINKTYPE_UNDEFINED,
        }
    } else if first_link_to(links, node2) >= links.len() {
        LinkInfo {
            status: HsakmtStatus::HSAKMT_STATUS_INVALID_PARAMETER,
            weight: 0,
            hsa_type: HSA_IOLINKTYPE::HSA_IOLINKTYPE_UNDEFINED,
        }
    } else {
        LinkInfo {
            status: HsakmtStatus::HSAKMT_STATUS_SUCCESS,
            weight: links[first_link_to(links, node2)].Weight,
            hsa_type: links[first_link_to(links, node2)].IoLinkType,
        }
    }
}

/// The direct link from `node1` to `node2`, as a value.
pub fn direct_iolink_info(node1: u32, node2: u32, node_props: &Vec<node_props_t>) -> (info: LinkInfo)
    requires
        node1 < node_props@.len(),
    ensures
        info == direct_iolink(models_of(node_props@), node1 as int, node2),
{
    let links = &node_props[node1 as usize].link;
    if links.len() == 0 {
        return LinkInfo {
            status: HsakmtStatus::HSAKMT_STATUS_INVALID_NODE_UNIT,
            weight: 0,
            hsa_type: HSA_IOLINKTYPE::HSA_IOLINKTYPE_UNDEFINED,
        };
    }
    let at: usize = find_first_link_to(links, node2);
    if at < links.len() {
        LinkInfo {
            status: HsakmtStatus::HSAKMT_STATUS_SUCCESS,
            weight: links[at].Weight,
            hsa_type: links[at].IoLinkType,
        }
    } else {
        LinkInfo {
            status: HsakmtStatus::HSAKMT_STATUS_INVALID_PARAMETER,
            weight: 0,
            hsa_type: HSA_IOLINKTYPE::HSA_IOLINKTYPE_UNDEFINED,
        }
    }
}

/// Looks the direct link from `node1` to `node2` up, and hands its weight and
/// its kind over where there is one. Where there is none, `weight` and
/// `hsa_type` stay as they are.
pub fn get_direct_iolink_info(
    node1: u32,
    node2: u32,
    node_props: &Vec<node_props_t>,
    weight: &mut u32,
    hsa_type: &mut HSA_IOLINKTYPE,
) -> (status: HsakmtStatus)
    requires
        node1 < node_props@.len(),
    ensures
        status == direct_iolink(models_of(node_props@), node1 as int, node2).status,
        status == HsakmtStatus::HSAKMT_STATUS_SUCCESS ==> *final(weight) == direct_iolink(
            models_of(node_props@),
            node1 as int,
            node2,
        ).weight && *final(hsa_type) == direct_iolink(
            models_of(node_props@),
            node1 as int,
            node2,
        ).hsa_type,
        status != HsakmtStatus::HSAKMT_STATUS_SUCCESS
            ==> *final(weight) == *old(weight) && *final(hsa_type) == *old(hsa_type),
{
    let info = direct_iolink_info(node1, node2, node_props);
    if info.status == HsakmtStatus::HSAKMT_STATUS_SUCCESS {
        *weight = info.weight;
        *hsa_type = info.hsa_type;
    }
    info.status
}

/// The position of the first bank among `mem` that is the part of a GPU's
/// memory that the CPU can read and write, or the number of banks.
pub open spec fn first_public_bank(mem: Seq<HsaMemoryProperties>) -> int
    decreases mem.len(),
{
    if mem.len() == 0 {
        0
    } else if first_public_bank(mem.drop_last()) < mem.len() - 1 {
        first_public_bank(mem.drop_last())
    } else if mem.last().HeapType == HSA_HEAPTYPE::HSA_HEAPTYPE_FRAME_BUFFER_PUBLIC {
        mem.len() - 1
    } else {
        mem.len() as int
    }
}

/// The first public bank in a prefix of the banks is the first in all of
/// them.
pub proof fn lemma_first_public_bank_prefix(mem: Seq<HsaMemoryProperties>, n: int)
    requires
        0 <= n <= mem.len(),
        first_public_bank(mem.take(n)) < n,
    ensures
        first_public_bank(mem) == first_public_bank(mem.take(n)),
    decreases mem.len() - n,
{
    if n < mem.len() {
        assert(mem.take(n + 1).drop_last() =~= mem.take(n));
        lemma_first_public_bank_prefix(mem, n + 1);
    } else {
        assert(mem.take(n) =~= mem);
    }
}

/// The position of the first public bank among `mem`, or the number of
/// banks.
pub fn find_first_public_bank(mem: &Vec<HsaMemoryProperties>) -> (r: usize)
    ensures
        r == first_public_bank(mem@),
        r <= mem@.len(),
{
    let n: usize = mem.len();
    let mut i: usize = 0;
    assert(mem@.take(0) =~= Seq::<HsaMemoryProperties>::empty());
    while i < n
        invariant
            n == mem@.len(),
            0 <= i <= n,
            first_public_bank(mem@.take(i as int)) == i,
        decreases n - i,
    {
        assert(mem@.take(i + 1).drop_last() =~= mem@.take(i as int));
        if mem[i].HeapType == HSA_HEAPTYPE::HSA_HEAPTYPE_FRAME_BUFFER_PUBLIC {
            proof {
                lemma_first_public_bank_prefix(mem@, i + 1);
            }
            return i;
        }
        i = i + 1;
    }
    assert(mem@.take(n as int) =~= mem@);
    n
}

/// A way that was not found, with the status that says why.
pub open spec fn no_link(status: HsakmtStatus) -> LinkInfo {
    LinkInfo { status, weight: 0, hsa_type: HSA_IOLINKTYPE::HSA_IOLINKTYPE_UNDEFINED }
}

/// Whether a node number that `direct_link_cpu` gave names a node.
pub open spec fn is_node(nodes: Seq<NodeModel>, node: int) -> bool {
    0 <= node < nodes.len()
}

/// The sum of three weights, as far as 32 bits hold it.
pub open spec fn weight_sum(w1: u32, w2: u32, w3: u32) -> u32 {
    ((w1 + w2 + w3) % 0x1_0000_0000) as u32
}

/// The way from `node1` to `node2` that leads through the CPUs that they are
/// linked to directly.
///
/// There is none from a node to itself, between two CPUs, between two GPUs of
/// one hive, where neither node is a GPU with a direct link to a CPU, and to
/// a GPU without memory that the CPU can read and write. Otherwise the way
/// leads from a GPU to its CPU, from there to the other node's CPU where that
/// is another one, and on to the other node. Its weight is the sum of the
/// weights of its links, and its kind that of the link between the CPUs, or
/// of the link that leaves the one CPU. Two GPUs at CPUs in different sockets
/// of a QPI system cannot reach each other.
pub open spec fn indirect_iolink(nodes: Seq<NodeModel>, node1: int, node2: int) -> LinkInfo {
    let n1 = nodes[node1].node;
    let n2 = nodes[node2].node;
    let cpu1 = if n1.KFDGpuID > 0 {
        direct_link_cpu(nodes, node1)
    } else {
        -1
    };
    let cpu2 = if n2.KFDGpuID > 0 {
        direct_link_cpu(nodes, node2)
    } else {
        -1
    };
    if node1 == node2 {
        no_link(HsakmtStatus::HSAKMT_STATUS_INVALID_PARAMETER)
    } else if n1.KFDGpuID == 0 && n2.KFDGpuID == 0 {
        no_link(HsakmtStatus::HSAKMT_STATUS_INVALID_NODE_UNIT)
    } else if n1.HiveID > 0 && n2.HiveID > 0 && n1.HiveID == n2.HiveID {
        no_link(HsakmtStatus::HSAKMT_STATUS_INVALID_PARAMETER)
    } else if cpu1 < 0 && cpu2 < 0 {
        no_link(HsakmtStatus::HSAKMT_STATUS_ERROR)
    } else if n2.KFDGpuID > 0 && first_public_bank(nodes[node2].mem) >= n2.NumMemoryBanks {
        no_link(HsakmtStatus::HSAKMT_STATUS_ERROR)
    } else if (cpu1 >= 0 && !is_node(nodes, cpu1)) || (cpu2 >= 0 && !is_node(nodes, cpu2)) {
        no_link(HsakmtStatus::HSAKMT_STATUS_INVALID_NODE_UNIT)
    } else if cpu1 >= 0 {
        let first = direct_iolink(nodes, node1, cpu1 as u32);
        if first.status != HsakmtStatus::HSAKMT_STATUS_SUCCESS {
            no_link(first.status)
        } else if cpu2 >= 0 && cpu1 != cpu2 {
            let second = direct_iolink(nodes, cpu1, cpu2 as u32);
            let third = direct_iolink(nodes, cpu2, node2 as u32);
            if second.status != HsakmtStatus::HSAKMT_STATUS_SUCCESS {
                no_link(second.status)
            } else if second.hsa_type == HSA_IOLINKTYPE::HSA_IOLINK_TYPE_QPI_1_1 && second.weight
                > DIRECT_LINK_MAX_WEIGHT {
                no_link(HsakmtStatus::HSAKMT_STATUS_NOT_SUPPORTED)
            } else if third.status != HsakmtStatus::HSAKMT_STATUS_SUCCESS {
                no_link(third.status)
            } else {
                LinkInfo {
                    status: HsakmtStatus::HSAKMT_STATUS_SUCCESS,
                    weight: weight_sum(first.weight, second.weight, third.weight),
                    hsa_type: second.hsa_type,
                }
            }
        } else {
            let second = direct_iolink(nodes, cpu1, node2 as u32);
            if second.status != HsakmtStatus::HSAKMT_STATUS_SUCCESS {
                no_link(second.status)
            } else {
                LinkInfo {
                    status: HsakmtStatus::HSAKMT_STATUS_SUCCESS,
                    weight: weight_sum(first.weight, second.weight, 0),
                    hsa_type: second.hsa_type,
                }
            }
        }
    } else {
        let second = direct_iolink(nodes, node1, cpu2 as u32);
        let third = direct_iolink(nodes, cpu2, node2 as u32);
        if second.status != HsakmtStatus::HSAKMT_STATUS_SUCCESS {
            no_link(second.status)
        } else if third.status != HsakmtStatus::HSAKMT_STATUS_SUCCESS {
            no_link(third.status)
        } else {
            LinkInfo {
                status: HsakmtStatus::HSAKMT_STATUS_SUCCESS,
                weight: weight_sum(0, second.weight, third.weight),
                hsa_type: second.hsa_type,
            }
        }
    }
}

/// The sum of three weights, as far as 32 bits hold it.
pub fn add_weights(w1: u32, w2: u32, w3: u32) -> (sum: u32)
    ensures
        sum == weight_sum(w1, w2, w3),
{
    let total: u64 = w1 as u64 + w2 as u64 + w3 as u64;
    (total % 0x1_0000_0000) as u32
}

/// The way from `node1` to `node2` through the CPUs, as a value.
pub fn indirect_iolink_info(node1: u32, node2: u32, node_props: &Vec<node_props_t>) -> (info:
    LinkInfo)
    requires
        node1 < node_props@.len(),
        node2 < node_props@.len(),
    ensures
        info == indirect_iolink(models_of(node_props@), node1 as int, node2 as int),
{
    let undefined = HSA_IOLINKTYPE::HSA_IOLINKTYPE_UNDEFINED;
    if node1 == node2 {
        return LinkInfo {
            status: HsakmtStatus::HSAKMT_STATUS_INVALID_PARAMETER,
            weight: 0,
            hsa_type: undefined,
        };
    }
    let gpu1: u32 = node_props[node1 as usize].node.KFDGpuID;
    let gpu2: u32 = node_props[node2 as usize].node.KFDGpuID;
    if gpu1 == 0 && gpu2 == 0 {
        return LinkInfo {
            status: HsakmtStatus::HSAKMT_STATUS_INVALID_NODE_UNIT,
            weight: 0,
            hsa_type: undefined,
        };
    }
    let hive1: u64 = node_props[node1 as usize].node.HiveID;
    let hive2: u64 = node_props[node2 as usize].node.HiveID;
    if hive1 > 0 && hive2 > 0 && hive1 == hive2 {
        return LinkInfo {
            status: HsakmtStatus::HSAKMT_STATUS_INVALID_PARAMETER,
            weight: 0,
            hsa_type: undefined,
        };
    }
    let cpu1: i32 = if gpu1 > 0 {
        gpu_get_direct_link_cpu(node1, node_props)
    } else {
        -1
    };
    let cpu2: i32 = if gpu2 > 0 {
        gpu_get_direct_link_cpu(node2, node_props)
    } else {
        -1
    };
    if cpu1 < 0 && cpu2 < 0 {
        return LinkInfo { status: HsakmtStatus::HSAKMT_STATUS_ERROR, weight: 0, hsa_type: undefined };
    }
    if gpu2 > 0 {
        let bank: usize = find_first_public_bank(&node_props[node2 as usize].mem);
        if bank >= node_props[node2 as usize].node.NumMemoryBanks as usize {
            return LinkInfo {
                status: HsakmtStatus::HSAKMT_STATUS_ERROR,
                weight: 0,
                hsa_type: undefined,
            };
        }
    }
    let n: usize = node_props.len();
    if (cpu1 >= 0 && cpu1 as usize >= n) || (cpu2 >= 0 && cpu2 as usize >= n) {
        return LinkInfo {
            status: HsakmtStatus::HSAKMT_STATUS_INVALID_NODE_UNIT,
            weight: 0,
            hsa_type: undefined,
        };
    }
    if cpu1 >= 0 {
        let first = direct_iolink_info(node1, cpu1 as u32, node_props);
        if first.status != HsakmtStatus::HSAKMT_STATUS_SUCCESS {
            return LinkInfo { status: first.status, weight: 0, hsa_type: undefined };
        }
        if cpu2 >= 0 && cpu1 != cpu2 {
            let second = direct_iolink_info(cpu1 as u32, cpu2 as u32, node_props);
            if second.status != HsakmtStatus::HSAKMT_STATUS_SUCCESS {
                return LinkInfo { status: second.status, weight: 0, hsa_type: undefined };
            }
            if second.hsa_type == HSA_IOLINKTYPE::HSA_IOLINK_TYPE_QPI_1_1 && second.weight
                > DIRECT_LINK_MAX_WEIGHT {
                return LinkInfo {
                    status: HsakmtStatus::HSAKMT_STATUS_NOT_SUPPORTED,
                    weight: 0,
                    hsa_type: undefined,
                };
            }
            let third = direct_iolink_info(cpu2 as u32, node2, node_props);
            if third.status != HsakmtStatus::HSAKMT_STATUS_SUCCESS {
                return LinkInfo { status: third.status, weight: 0, hsa_type: undefined };
            }
            LinkInfo {
                status: HsakmtStatus::HSAKMT_STATUS_SUCCESS,
                weight: add_weights(first.weight, second.weight, third.weight),
                hsa_type: second.hsa_type,
            }
        } else {
            let second = direct_iolink_info(cpu1 as u32, node2, node_props);
            if second.status != HsakmtStatus::HSAKMT_STATUS_SUCCESS {
                return LinkInfo { status: second.status, weight: 0, hsa_type: undefined };
            }
            LinkInfo {
                status: HsakmtStatus::HSAKMT_STATUS_SUCCESS,
                weight: add_weights(first.weight, second.weight, 0),
                hsa_type: second.hsa_type,
            }
        }
    } else {
        let second = direct_iolink_info(node1, cpu2 as u32, node_props);
        if second.status != HsakmtStatus::HSAKMT_STATUS_SUCCESS {
            return LinkInfo { status: second.status, weight: 0, hsa_type: undefined };
        }
        let third = direct_iolink_info(cpu2 as u32, node2, node_props);
        if third.status != HsakmtStatus::HSAKMT_STATUS_SUCCESS {
            return LinkInfo { status: third.status, weight: 0, hsa_type: undefined };
        }
        LinkInfo {
            status: HsakmtStatus::HSAKMT_STATUS_SUCCESS,
            weight: add_weights(0, second.weight, third.weight),
            hsa_type: second.hsa_type,
        }
    }
}

/// Looks the way from `node1` to `node2` through the CPUs up, and hands its
/// weight and its kind over: 0 and undefined where there is none.
pub fn get_indirect_iolink_info(
    node1: u32,
    node2: u32,
    node_props: &Vec<node_props_t>,
    weight: &mut u32,
    hsa_type: &mut HSA_IOLINKTYPE,
) -> (status: HsakmtStatus)
    requires
        node1 < node_props@.len(),
        node2 < node_props@.len(),
    ensures
        (LinkInfo { status, weight: *final(weight), hsa_type: *final(hsa_type) }) == indirect_iolink(
            models_of(node_props@),
            node1 as int,
            node2 as int,
        ),
{
    let info = indirect_iolink_info(node1, node2, node_props);
    *weight = info.weight;
    *hsa_type = info.hsa_type;
    info.status
}

/// The position at which node `node_id` can take one more link, if it can:
/// the node has to be one of the system's, has to have links already, and
/// may not have as many as there are other nodes.
pub open spec fn free_io_link_slot(nodes: Seq<NodeModel>, sys_props: HsaSystemProperties, node_id: u32)
    -> Option<int> {
    if node_id >= sys_props.NumNodes || node_id >= nodes.len() || nodes[node_id as int].link.len()
        == 0 || nodes[node_id as int].node.NumIOLinks >= sys_props.NumNodes - 1
        || nodes[node_id as int].node.NumIOLinks > nodes[node_id as int].link.len() {
        None
    } else {
        Some(nodes[node_id as int].node.NumIOLinks as int)
    }
}

/// Finds the position at which node `node_id` can take one more link.
pub fn topology_get_free_io_link_slot_for_node(
    node_id: u32,
    sys_props: &HsaSystemProperties,
    node_props: &Vec<node_props_t>,
) -> (r: Option<usize>)
    ensures
        r is Some <==> free_io_link_slot(models_of(node_props@), *sys_props, node_id) is Some,
        r is Some ==> r->Some_0 == free_io_link_slot(
            models_of(node_props@),
            *sys_props,
            node_id,
        )->Some_0,
{
    if node_id >= sys_props.NumNodes || node_id as usize >= node_props.len() {
        return None;
    }
    let props = &node_props[node_id as usize];
    if props.link.len() == 0 {
        return None;
    }
    if props.node.NumIOLinks >= sys_props.NumNodes - 1 {
        return None;
    }
    if props.node.NumIOLinks as usize > props.link.len() {
        return None;
    }
    Some(props.node.NumIOLinks as usize)
}

/// The link that `topology_add_io_link_for_node` records.
pub open spec fn added_link(node_from: u32, kind: HSA_IOLINKTYPE, node_to: u32, weight: u32)
    -> HsaIoLinkProperties {
    HsaIoLinkProperties {
        IoLinkType: kind,
        NodeFrom: node_from,
        NodeTo: node_to,
        Weight: weight,
        ..HsaIoLinkProperties::blank()
    }
}

/// The nodes once node `node_from` has taken the link to `node_to`, where it
/// has a free position for it. The link takes the position: it is put behind
/// the links of the node where the position is their number, and it changes
/// kind, ends and weight of the link that holds the position otherwise.
pub open spec fn with_io_link(
    nodes: Seq<NodeModel>,
    sys_props: HsaSystemProperties,
    node_from: u32,
    kind: HSA_IOLINKTYPE,
    node_to: u32,
    weight: u32,
) -> Seq<NodeModel> {
    match free_io_link_slot(nodes, sys_props, node_from) {
        None => nodes,
        Some(slot) => {
            let before = nodes[node_from as int];
            let links = if slot == before.link.len() {
                before.link.push(added_link(node_from, kind, node_to, weight))
            } else {
                before.link.update(
                    slot,
                    HsaIoLinkProperties {
                        IoLinkType: kind,
                        NodeFrom: node_from,
                        NodeTo: node_to,
                        Weight: weight,
                        ..before.link[slot]
                    },
                )
            };
            nodes.update(
                node_from as int,
                NodeModel {
                    node: HsaNodeProperties {
                        NumIOLinks: (before.node.NumIOLinks + 1) as u32,
                        ..before.node
                    },
                    link: links,
                    ..before
                },
            )
        },
    }
}

/// Gives node `node_from` a link to `node_to`, where it has a free position
/// for one.
#[allow(non_snake_case)]
pub fn topology_add_io_link_for_node(
    node_from: u32,
    sys_props: &HsaSystemProperties,
    node_props: &mut Vec<node_props_t>,
    IoLinkType: HSA_IOLINKTYPE,
    node_to: u32,
    Weight: u32,
) -> (status: HsakmtStatus)
    ensures
        final(node_props)@.len() == old(node_props)@.len(),
        status == (if free_io_link_slot(models_of(old(node_props)@), *sys_props, node_from) is Some {
            HsakmtStatus::HSAKMT_STATUS_SUCCESS
        } else {
            HsakmtStatus::HSAKMT_STATUS_NO_MEMORY
        }),
        models_of(final(node_props)@) == with_io_link(
            models_of(old(node_props)@),
            *sys_props,
            node_from,
            IoLinkType,
            node_to,
            Weight,
        ),
        forall|i: int|
            0 <= i < old(node_props)@.len()
                ==> (#[trigger] final(node_props)@[i]).cache == old(node_props)@[i].cache,
{
    let ghost before = node_props@;
    let slot: usize = match topology_get_free_io_link_slot_for_node(node_from, sys_props, node_props) {
        Some(s) => s,
        None => {
            assert(models_of(node_props@) =~= with_io_link(
                models_of(before),
                *sys_props,
                node_from,
                IoLinkType,
                node_to,
                Weight,
            ));
            return HsakmtStatus::HSAKMT_STATUS_NO_MEMORY;
        },
    };
    let from: usize = node_from as usize;
    if slot == node_props[from].link.len() {
        let mut link = HsaIoLinkProperties::new();
        link.IoLinkType = IoLinkType;
        link.NodeFrom = node_from;
        link.NodeTo = node_to;
        link.Weight = Weight;
        node_props[from].link.push(link);
    } else {
        node_props[from].link[slot].IoLinkType = IoLinkType;
        node_props[from].link[slot].NodeFrom = node_from;
        node_props[from].link[slot].NodeTo = node_to;
        node_props[from].link[slot].Weight = Weight;
    }
    node_props[from].node.NumIOLinks = node_props[from].node.NumIOLinks + 1;
    proof {
        let expected = with_io_link(
            models_of(before),
            *sys_props,
            node_from,
            IoLinkType,
            node_to,
            Weight,
        );
        assert(models_of(node_props@).len() == expected.len());
        assert forall|i: int| 0 <= i < expected.len() implies models_of(node_props@)[i]
            == expected[i] by {
            if i == from {
                assert(node_props@[i]@.link =~= expected[i].link);
            } else {
                assert(node_props@[i] == before[i]);
            }
        }
        assert(models_of(node_props@) =~= expected);
    }
    HsakmtStatus::HSAKMT_STATUS_SUCCESS
}

/// The nodes once the way from `from` to `to` through the CPUs is recorded as
/// a link of `from`, where there is such a way with a weight.
pub open spec fn with_indirect_link(
    nodes: Seq<NodeModel>,
    sys_props: HsaSystemProperties,
    from: int,
    to: int,
) -> Seq<NodeModel> {
    let info = indirect_iolink(nodes, from, to);
    if info.weight == 0 {
        nodes
    } else {
        with_io_link(nodes, sys_props, from as u32, info.hsa_type, to as u32, info.weight)
    }
}

/// The nodes once the ways between `i` and `j` are recorded, first the one
/// from `i` and then the one back.
pub open spec fn with_pair_linked(
    nodes: Seq<NodeModel>,
    sys_props: HsaSystemProperties,
    i: int,
    j: int,
) -> Seq<NodeModel> {
    with_indirect_link(with_indirect_link(nodes, sys_props, i, j), sys_props, j, i)
}

/// The nodes once node `i` is paired with each of the first `j` nodes.
pub open spec fn with_row_linked(
    nodes: Seq<NodeModel>,
    sys_props: HsaSystemProperties,
    i: int,
    j: nat,
) -> Seq<NodeModel>
    decreases j,
{
    if j == 0 {
        nodes
    } else {
        with_pair_linked(with_row_linked(nodes, sys_props, i, (j - 1) as nat), sys_props, i, j - 1)
    }
}

/// The nodes once each of the first `i` nodes is paired with every node of
/// the system.
pub open spec fn with_rows_linked(nodes: Seq<NodeModel>, sys_props: HsaSystemProperties, i: nat)
    -> Seq<NodeModel>
    decreases i,
{
    if i == 0 {
        nodes
    } else {
        with_row_linked(
            with_rows_linked(nodes, sys_props, (i - 1) as nat),
            sys_props,
            i - 1,
            sys_props.NumNodes as nat,
        )
    }
}

/// Records the way from `from` to `to` through the CPUs as a link of `from`,
/// where there is such a way with a weight.
pub fn topology_add_indirect_link(
    sys_props: &HsaSystemProperties,
    node_props: &mut Vec<node_props_t>,
    from: u32,
    to: u32,
) -> (added: bool)
    requires
        from < old(node_props)@.len(),
        to < old(node_props)@.len(),
    ensures
        final(node_props)@.len() == old(node_props)@.len(),
        models_of(final(node_props)@) == with_indirect_link(
            models_of(old(node_props)@),
            *sys_props,
            from as int,
            to as int,
        ),
        added == (indirect_iolink(models_of(old(node_props)@), from as int, to as int).weight != 0
            && free_io_link_slot(models_of(old(node_props)@), *sys_props, from) is Some),
{
    let info = indirect_iolink_info(from, to, node_props);
    if info.weight == 0 {
        return false;
    }
    let status = topology_add_io_link_for_node(
        from,
        sys_props,
        node_props,
        info.hsa_type,
        to,
        info.weight,
    );
    status == HsakmtStatus::HSAKMT_STATUS_SUCCESS
}

/// Records, for every pair of nodes, the ways between them that lead through
/// the CPUs. The kernel driver knows the direct links only.
///
/// Every pair is come by twice, once from each of its nodes, and a way is
/// recorded each time that its first node has room for a link.
pub fn topology_create_indirect_gpu_links(
    sys_props: &HsaSystemProperties,
    node_props: &mut Vec<node_props_t>,
)
    requires
        sys_props.NumNodes <= old(node_props)@.len(),
    ensures
        final(node_props)@.len() == old(node_props)@.len(),
        models_of(final(node_props)@) == with_rows_linked(
            models_of(old(node_props)@),
            *sys_props,
            sys_props.NumNodes as nat,
        ),
{
    let ghost before = models_of(node_props@);
    let ghost count = node_props@.len();
    let n: u32 = sys_props.NumNodes;
    let mut i: u32 = 0;
    while i < n
        invariant
            n == sys_props.NumNodes,
            0 <= i <= n,
            node_props@.len() == count,
            n <= node_props@.len(),
            models_of(node_props@) == with_rows_linked(before, *sys_props, i as nat),
        decreases n - i,
    {
        let ghost row_start = models_of(node_props@);
        let mut j: u32 = 0;
        while j < n
            invariant
                n == sys_props.NumNodes,
                0 <= i < n,
                0 <= j <= n,
                node_props@.len() == count,
                n <= node_props@.len(),
                models_of(node_props@) == with_row_linked(row_start, *sys_props, i as int, j as nat),
            decreases n - j,
        {
            let forth = topology_add_indirect_link(sys_props, node_props, i, j);
            let back = topology_add_indirect_link(sys_props, node_props, j, i);
            j = j + 1;
        }
        i = i + 1;
    }
}

/// Drops what was found out of the topology. Nothing is kept here, so there
/// is nothing to drop.
pub fn topology_drop_snapshot() {
}

/// The properties of a node as the kernel driver writes them: each one with
/// its value, or without one where the driver does not write it.
#[derive(Debug, Copy, Clone, PartialEq, Eq, Structural)]
pub struct KfdTopologyNodeProperties {
    pub cpu_cores_count: Option<u64>,
    pub simd_count: Option<u64>,
    pub mem_banks_count: Option<u64>,
    pub caches_count: Option<u64>,
    pub io_links_count: Option<u64>,
    pub p2p_links_count: Option<u64>,
    pub cpu_core_id_base: Option<u64>,
    pub simd_id_base: Option<u64>,
    pub capability: Option<u64>,
    pub debug_prop: Option<u64>,
    pub max_waves_per_simd: Option<u64>,
    pub lds_size_in_kb: Option<u64>,
    pub gds_size_in_kb: Option<u64>,
    pub wave_front_size: Option<u64>,
    pub array_count: Option<u64>,
    pub simd_arrays_per_engine: Option<u64>,
    pub cu_per_simd_array: Option<u64>,
    pub simd_per_cu: Option<u64>,
    pub max_slots_scratch_cu: Option<u64>,
    pub fw_version: Option<u64>,
    pub vendor_id: Option<u64>,
    pub device_id: Option<u64>,
    pub location_id: Option<u64>,
    pub domain: Option<u64>,
    pub max_engine_clk_fcompute: Option<u64>,
    pub max_engine_clk_ccompute: Option<u64>,
    pub local_mem_size: Option<u64>,
    pub drm_render_minor: Option<u64>,
    pub sdma_fw_version: Option<u64>,
    pub hive_id: Option<u64>,
    pub unique_id: Option<u64>,
    pub num_sdma_engines: Option<u64>,
    pub num_sdma_xgmi_engines: Option<u64>,
    pub num_gws: Option<u64>,
    pub num_sdma_queues_per_engine: Option<u64>,
    pub num_cp_queues: Option<u64>,
    pub num_xcc: Option<u64>,
    pub gfx_target_version: Option<u64>,
}

impl KfdTopologyNodeProperties {
    /// The properties that the text `content` gives: for each property, the
    /// value of the last line that names it.
    pub open spec fn parsed(content: Seq<u8>) -> Self {
        KfdTopologyNodeProperties {
            cpu_cores_count: property_of(content, "cpu_cores_count"@),
            simd_count: property_of(content, "simd_count"@),
            mem_banks_count: property_of(content, "mem_banks_count"@),
            caches_count: property_of(content, "caches_count"@),
            io_links_count: property_of(content, "io_links_count"@),
            p2p_links_count: property_of(content, "p2p_links_count"@),
            cpu_core_id_base: property_of(content, "cpu_core_id_base"@),
            simd_id_base: property_of(content, "simd_id_base"@),
            capability: property_of(content, "capability"@),
            debug_prop: property_of(content, "debug_prop"@),
            max_waves_per_simd: property_of(content, "max_waves_per_simd"@),
            lds_size_in_kb: property_of(content, "lds_size_in_kb"@),
            gds_size_in_kb: property_of(content, "gds_size_in_kb"@),
            wave_front_size: property_of(content, "wave_front_size"@),
            array_count: property_of(content, "array_count"@),
            simd_arrays_per_engine: property_of(content, "simd_arrays_per_engine"@),
            cu_per_simd_array: property_of(content, "cu_per_simd_array"@),
            simd_per_cu: property_of(content, "simd_per_cu"@),
            max_slots_scratch_cu: property_of(content, "max_slots_scratch_cu"@),
            fw_version: property_of(content, "fw_version"@),
            vendor_id: property_of(content, "vendor_id"@),
            device_id: property_of(content, "device_id"@),
            location_id: property_of(content, "location_id"@),
            domain: property_of(content, "domain"@),
            max_engine_clk_fcompute: property_of(content, "max_engine_clk_fcompute"@),
            max_engine_clk_ccompute: property_of(content, "max_engine_clk_ccompute"@),
            local_mem_size: property_of(content, "local_mem_size"@),
            drm_render_minor: property_of(content, "drm_render_minor"@),
            sdma_fw_version: property_of(content, "sdma_fw_version"@),
            hive_id: property_of(content, "hive_id"@),
            unique_id: property_of(content, "unique_id"@),
            num_sdma_engines: property_of(content, "num_sdma_engines"@),
            num_sdma_xgmi_engines: property_of(content, "num_sdma_xgmi_engines"@),
            num_gws: property_of(content, "num_gws"@),
            num_sdma_queues_per_engine: property_of(content, "num_sdma_queues_per_engine"@),
            num_cp_queues: property_of(content, "num_cp_queues"@),
            num_xcc: property_of(content, "num_xcc"@),
            gfx_target_version: property_of(content, "gfx_target_version"@),
        }
    }

    /// Reads the properties of a node from the text in which the kernel
    /// driver describes it.
    pub fn parse(content: &[u8]) -> (properties: Self)
        ensures
            properties == Self::parsed(content@),
    {
        KfdTopologyNodeProperties {
            cpu_cores_count: find_property(content, "cpu_cores_count"),
            simd_count: find_property(content, "simd_count"),
            mem_banks_count: find_property(content, "mem_banks_count"),
            caches_count: find_property(content, "caches_count"),
            io_links_count: find_property(content, "io_links_count"),
            p2p_links_count: find_property(content, "p2p_links_count"),
            cpu_core_id_base: find_property(content, "cpu_core_id_base"),
            simd_id_base: find_property(content, "simd_id_base"),
            capability: find_property(content, "capability"),
            debug_prop: find_property(content, "debug_prop"),
            max_waves_per_simd: find_property(content, "max_waves_per_simd"),
            lds_size_in_kb: find_property(content, "lds_size_in_kb"),
            gds_size_in_kb: find_property(content, "gds_size_in_kb"),
            wave_front_size: find_property(content, "wave_front_size"),
            array_count: find_property(content, "array_count"),
            simd_arrays_per_engine: find_property(content, "simd_arrays_per_engine"),
            cu_per_simd_array: find_property(content, "cu_per_simd_array"),
            simd_per_cu: find_property(content, "simd_per_cu"),
            max_slots_scratch_cu: find_property(content, "max_slots_scratch_cu"),
            fw_version: find_property(content, "fw_version"),
            vendor_id: find_property(content, "vendor_id"),
            device_id: find_property(content, "device_id"),
            location_id: find_property(content, "location_id"),
            domain: find_property(content, "domain"),
            max_engine_clk_fcompute: find_property(content, "max_engine_clk_fcompute"),
            max_engine_clk_ccompute: find_property(content, "max_engine_clk_ccompute"),
            local_mem_size: find_property(content, "local_mem_size"),
            drm_render_minor: find_property(content, "drm_render_minor"),
            sdma_fw_version: find_property(content, "sdma_fw_version"),
            hive_id: find_property(content, "hive_id"),
            unique_id: find_property(content, "unique_id"),
            num_sdma_engines: find_property(content, "num_sdma_engines"),
            num_sdma_xgmi_engines: find_property(content, "num_sdma_xgmi_engines"),
            num_gws: find_property(content, "num_gws"),
            num_sdma_queues_per_engine: find_property(content, "num_sdma_queues_per_engine"),
            num_cp_queues: find_property(content, "num_cp_queues"),
            num_xcc: find_property(content, "num_xcc"),
            gfx_target_version: find_property(content, "gfx_target_version"),
        }
    }

    /// No property with a value.
    pub fn new() -> (properties: Self)
        ensures
            properties.cpu_cores_count is None,
            properties.simd_count is None,
            properties.mem_banks_count is None,
            properties.caches_count is None,
            properties.io_links_count is None,
            properties.p2p_links_count is None,
            properties.cpu_core_id_base is None,
            properties.simd_id_base is None,
            properties.capability is None,
            properties.debug_prop is None,
            properties.max_waves_per_simd is None,
            properties.lds_size_in_kb is None,
            properties.gds_size_in_kb is None,
            properties.wave_front_size is None,
            properties.array_count is None,
            properties.simd_arrays_per_engine is None,
            properties.cu_per_simd_array is None,
            properties.simd_per_cu is None,
            properties.max_slots_scratch_cu is None,
            properties.fw_version is None,
            properties.vendor_id is None,
            properties.device_id is None,
            properties.location_id is None,
            properties.domain is None,
            properties.max_engine_clk_fcompute is None,
            properties.max_engine_clk_ccompute is None,
            properties.local_mem_size is None,
            properties.drm_render_minor is None,
            properties.sdma_fw_version is None,
            properties.hive_id is None,
            properties.unique_id is None,
            properties.num_sdma_engines is None,
            properties.num_sdma_xgmi_engines is None,
            properties.num_gws is None,
            properties.num_sdma_queues_per_engine is None,
            properties.num_cp_queues is None,
            properties.num_xcc is None,
            properties.gfx_target_version is None,
    {
        KfdTopologyNodeProperties {
            cpu_cores_count: None,
            simd_count: None,
            mem_banks_count: None,
            caches_count: None,
            io_links_count: None,
            p2p_links_count: None,
            cpu_core_id_base: None,
            simd_id_base: None,
            capability: None,
            debug_prop: None,
            max_waves_per_simd: None,
            lds_size_in_kb: None,
            gds_size_in_kb: None,
            wave_front_size: None,
            array_count: None,
            simd_arrays_per_engine: None,
            cu_per_simd_array: None,
            simd_per_cu: None,
            max_slots_scratch_cu: None,
            fw_version: None,
            vendor_id: None,
            device_id: None,
            location_id: None,
            domain: None,
            max_engine_clk_fcompute: None,
            max_engine_clk_ccompute: None,
            local_mem_size: None,
            drm_render_minor: None,
            sdma_fw_version: None,
            hive_id: None,
            unique_id: None,
            num_sdma_engines: None,
            num_sdma_xgmi_engines: None,
            num_gws: None,
            num_sdma_queues_per_engine: None,
            num_cp_queues: None,
            num_xcc: None,
            gfx_target_version: None,
        }
    }
}

/// A node as the kernel driver describes it: its number, the id of its GPU
/// (0 where it has none), and its properties.
#[derive(Debug, Copy, Clone, PartialEq, Eq, Structural)]
pub struct KfdTopologyNode {
    pub node_id: usize,
    pub gpu_id: usize,
    pub properties: KfdTopologyNodeProperties,
}

/// What the kernel driver describes of the system: what names the platform,
/// and the nodes.
#[derive(Debug)]
pub struct SysDevicesVirtualKfd {
    pub platform_oem: u64,
    pub platform_id: u64,
    pub platform_rev: u64,
    pub nodes: Vec<KfdTopologyNode>,
}

/// The value of a property, or 0 where it has none.
pub open spec fn value_or_zero(value: Option<u64>) -> u64 {
    match value {
        Some(v) => v,
        None => 0,
    }
}

/// The position of the first node among `nodes` with number `node_id`, or
/// the number of nodes where none has it.
pub open spec fn first_node_with(nodes: Seq<KfdTopologyNode>, node_id: usize) -> int
    decreases nodes.len(),
{
    if nodes.len() == 0 {
        0
    } else if first_node_with(nodes.drop_last(), node_id) < nodes.len() - 1 {
        first_node_with(nodes.drop_last(), node_id)
    } else if nodes.last().node_id == node_id {
        nodes.len() - 1
    } else {
        nodes.len() as int
    }
}

/// The first node with a number in a prefix of the nodes is the first in all
/// of them.
pub proof fn lemma_first_node_with_prefix(nodes: Seq<KfdTopologyNode>, node_id: usize, n: int)
    requires
        0 <= n <= nodes.len(),
        first_node_with(nodes.take(n), node_id) < n,
    ensures
        first_node_with(nodes, node_id) == first_node_with(nodes.take(n), node_id),
    decreases nodes.len() - n,
{
    if n < nodes.len() {
        assert(nodes.take(n + 1).drop_last() =~= nodes.take(n));
        lemma_first_node_with_prefix(nodes, node_id, n + 1);
    } else {
        assert(nodes.take(n) =~= nodes);
    }
}

impl SysDevicesVirtualKfd {
    /// What the text `content` says of the platform, and no nodes. A
    /// property that the text does not give is 0.
    pub fn new(content: &[u8]) -> (kfd: Self)
        ensures
            kfd.platform_oem == value_or_zero(property_of(content@, "platform_oem"@)),
            kfd.platform_id == value_or_zero(property_of(content@, "platform_id"@)),
            kfd.platform_rev == value_or_zero(property_of(content@, "platform_rev"@)),
            kfd.nodes@.len() == 0,
    {
        let oem = find_property(content, "platform_oem");
        let id = find_property(content, "platform_id");
        let rev = find_property(content, "platform_rev");
        SysDevicesVirtualKfd {
            platform_oem: match oem {
                Some(v) => v,
                None => 0,
            },
            platform_id: match id {
                Some(v) => v,
                None => 0,
            },
            platform_rev: match rev {
                Some(v) => v,
                None => 0,
            },
            nodes: Vec::new(),
        }
    }

    /// The nodes.
    pub fn get_nodes(&self) -> (nodes: &Vec<KfdTopologyNode>)
        ensures
            *nodes == self.nodes,
    {
        &self.nodes
    }

    /// Takes in the node with number `node_id`, whose GPU has id `gpu_id` and
    /// whose properties the text `properties` gives.
    pub fn load_node(&mut self, node_id: usize, gpu_id: usize, properties: &[u8])
        ensures
            final(self).nodes@ == old(self).nodes@.push(
                KfdTopologyNode {
                    node_id,
                    gpu_id,
                    properties: KfdTopologyNodeProperties::parsed(properties@),
                },
            ),
            final(self).platform_oem == old(self).platform_oem,
            final(self).platform_id == old(self).platform_id,
            final(self).platform_rev == old(self).platform_rev,
    {
        let node = KfdTopologyNode {
            node_id,
            gpu_id,
            properties: KfdTopologyNodeProperties::parse(properties),
        };
        self.nodes.push(node);
    }

    /// The position of the first node with number `node_id`, or the number of
    /// nodes.
    pub fn find_node(&self, node_id: usize) -> (r: usize)
        ensures
            r == first_node_with(self.nodes@, node_id),
            r <= self.nodes@.len(),
            r < self.nodes@.len() ==> self.nodes@[r as int].node_id == node_id,
    {
        let n: usize = self.nodes.len();
        let mut i: usize = 0;
        assert(self.nodes@.take(0) =~= Seq::<KfdTopologyNode>::empty());
        while i < n
            invariant
                n == self.nodes@.len(),
                0 <= i <= n,
                first_node_with(self.nodes@.take(i as int), node_id) == i,
            decreases n - i,
        {
            assert(self.nodes@.take(i + 1).drop_last() =~= self.nodes@.take(i as int));
            if self.nodes[i].node_id == node_id {
                proof {
                    lemma_first_node_with_prefix(self.nodes@, node_id, i + 1);
                }
                return i;
            }
            i = i + 1;
        }
        assert(self.nodes@.take(n as int) =~= self.nodes@);
        n
    }
}

/// What is known of the system as a whole, by what the kernel driver
/// describes and by which of its nodes can be used: `supported` holds the
/// numbers of those.
pub fn hsakmt_topology_sysfs_get_system_props(
    kfd: &SysDevicesVirtualKfd,
    supported: &Vec<usize>,
    props: &mut HsaSystemProperties,
)
    ensures
        *final(props) == (HsaSystemProperties {
            NumNodes: supported@.len() as u32,
            PlatformOem: kfd.platform_oem as u32,
            PlatformId: kfd.platform_id as u32,
            PlatformRev: kfd.platform_rev as u32,
        }),
{
    props.PlatformOem = #[verifier::truncate] (kfd.platform_oem as u32);
    props.PlatformId = #[verifier::truncate] (kfd.platform_id as u32);
    props.PlatformRev = #[verifier::truncate] (kfd.platform_rev as u32);
    props.NumNodes = #[verifier::truncate] (supported.len() as u32);
}

/// The value of a property as a `u8`, or `otherwise` where it has none.
pub open spec fn value_or_u8(value: Option<u64>, otherwise: u8) -> u8 {
    match value {
        Some(v) => v as u8,
        None => otherwise,
    }
}

/// The value of a property as a `u8`, or `otherwise` where it has none.
pub fn pick_u8(value: Option<u64>, otherwise: u8) -> (r: u8)
    ensures
        r == value_or_u8(value, otherwise),
{
    match value {
        Some(v) => #[verifier::truncate] (v as u8),
        None => otherwise,
    }
}

/// The value of a property as a `u16`, or `otherwise` where it has none.
pub open spec fn value_or_u16(value: Option<u64>, otherwise: u16) -> u16 {
    match value {
        Some(v) => v as u16,
        None => otherwise,
    }
}

/// The value of a property as a `u16`, or `otherwise` where it has none.
pub fn pick_u16(value: Option<u64>, otherwise: u16) -> (r: u16)
    ensures
        r == value_or_u16(value, otherwise),
{
    match value {
        Some(v) => #[verifier::truncate] (v as u16),
        None => otherwise,
    }
}

/// The value of a property as a `u32`, or `otherwise` where it has none.
pub open spec fn value_or_u32(value: Option<u64>, otherwise: u32) -> u32 {
    match value {
        Some(v) => v as u32,
        None => otherwise,
    }
}

/// The value of a property as a `u32`, or `otherwise` where it has none.
pub fn pick_u32(value: Option<u64>, otherwise: u32) -> (r: u32)
    ensures
        r == value_or_u32(value, otherwise),
{
    match value {
        Some(v) => #[verifier::truncate] (v as u32),
        None => otherwise,
    }
}

/// The value of a property as a `i32`, or `otherwise` where it has none.
pub open spec fn value_or_i32(value: Option<u64>, otherwise: i32) -> i32 {
    match value {
        Some(v) => v as i32,
        None => otherwise,
    }
}

/// The value of a property as a `i32`, or `otherwise` where it has none.
pub fn pick_i32(value: Option<u64>, otherwise: i32) -> (r: i32)
    ensures
        r == value_or_i32(value, otherwise),
{
    match value {
        Some(v) => #[verifier::truncate] (v as i32),
        None => otherwise,
    }
}

/// The value of a property as a `u64`, or `otherwise` where it has none.
pub open spec fn value_or_u64(value: Option<u64>, otherwise: u64) -> u64 {
    match value {
        Some(v) => v,
        None => otherwise,
    }
}

/// The value of a property as a `u64`, or `otherwise` where it has none.
pub fn pick_u64(value: Option<u64>, otherwise: u64) -> (r: u64)
    ensures
        r == value_or_u64(value, otherwise),
{
    match value {
        Some(v) => v,
        None => otherwise,
    }
}

/// The properties of a node with what the kernel driver writes of it taken
/// in, before anything is derived from it. A property that the driver does
/// not write stays as it is; a value that is too wide loses its upper bits.
pub open spec fn with_sysfs_properties(
    props: HsaNodeProperties,
    node: KfdTopologyNode,
) -> HsaNodeProperties {
    let p = node.properties;
    HsaNodeProperties {
        KFDGpuID: node.gpu_id as u32,
        NumCPUCores: value_or_u32(p.cpu_cores_count, props.NumCPUCores),
        NumFComputeCores: value_or_u32(p.simd_count, props.NumFComputeCores),
        NumMemoryBanks: value_or_u32(p.mem_banks_count, props.NumMemoryBanks),
        NumCaches: value_or_u32(p.caches_count, props.NumCaches),
        CComputeIdLo: value_or_u32(p.cpu_core_id_base, props.CComputeIdLo),
        FComputeIdLo: value_or_u32(p.simd_id_base, props.FComputeIdLo),
        MaxWavesPerSIMD: value_or_u32(p.max_waves_per_simd, props.MaxWavesPerSIMD),
        LDSSizeInKB: value_or_u32(p.lds_size_in_kb, props.LDSSizeInKB),
        GDSSizeInKB: value_or_u32(p.gds_size_in_kb, props.GDSSizeInKB),
        WaveFrontSize: value_or_u32(p.wave_front_size, props.WaveFrontSize),
        NumArrays: value_or_u32(p.simd_arrays_per_engine, props.NumArrays),
        NumCUPerArray: value_or_u32(p.cu_per_simd_array, props.NumCUPerArray),
        NumSIMDPerCU: value_or_u32(p.simd_per_cu, props.NumSIMDPerCU),
        MaxSlotsScratchCU: value_or_u32(p.max_slots_scratch_cu, props.MaxSlotsScratchCU),
        VendorId: value_or_u16(p.vendor_id, props.VendorId),
        DeviceId: value_or_u16(p.device_id, props.DeviceId),
        LocationId: value_or_u32(p.location_id, props.LocationId),
        Domain: value_or_u32(p.domain, props.Domain),
        MaxEngineClockMhzFCompute: value_or_u32(p.max_engine_clk_fcompute, props.MaxEngineClockMhzFCompute),
        MaxEngineClockMhzCCompute: value_or_u32(p.max_engine_clk_ccompute, props.MaxEngineClockMhzCCompute),
        LocalMemSize: value_or_u64(p.local_mem_size, props.LocalMemSize),
        DrmRenderMinor: value_or_i32(p.drm_render_minor, props.DrmRenderMinor),
        HiveID: value_or_u64(p.hive_id, props.HiveID),
        UniqueID: value_or_u64(p.unique_id, props.UniqueID),
        NumSdmaEngines: value_or_u32(p.num_sdma_engines, props.NumSdmaEngines),
        NumSdmaXgmiEngines: value_or_u32(p.num_sdma_xgmi_engines, props.NumSdmaXgmiEngines),
        NumGws: value_or_u8(p.num_gws, props.NumGws),
        NumSdmaQueuesPerEngine: value_or_u8(p.num_sdma_queues_per_engine, props.NumSdmaQueuesPerEngine),
        NumCpQueues: value_or_u8(p.num_cp_queues, props.NumCpQueues),
        NumXcc: value_or_u32(p.num_xcc, props.NumXcc),
        NumIOLinks: ((value_or_u32(p.p2p_links_count, 0) + value_or_u32(
            p.io_links_count,
            props.NumIOLinks,
        )) % 0x1_0000_0000) as u32,
        Capability: HSA_CAPABILITY { Value: value_or_u32(p.capability, props.Capability.Value) },
        DebugProperties: HSA_DEBUG_PROPERTIES {
            Value: value_or_u64(p.debug_prop, props.DebugProperties.Value),
        },
        EngineId: if p.fw_version is Some {
            HsaEngineId {
                uCode: (p.fw_version->Some_0 as u32) & 0x3ff,
                Major: 0,
                Minor: 0,
                Stepping: 0,
            }
        } else {
            props.EngineId
        },
        uCodeEngineVersions: HSA_ENGINE_VERSION {
            Value: value_or_u32(p.sdma_fw_version, props.uCodeEngineVersions.Value),
        },
        ..props
    }
}

/// Takes what the kernel driver writes of a node into its properties.
pub fn take_sysfs_properties(props: &mut HsaNodeProperties, node: &KfdTopologyNode)
    ensures
        *final(props) == with_sysfs_properties(*old(props), *node),
{
    let p = &node.properties;
    let engine: HsaEngineId = match p.fw_version {
        Some(v) => HsaEngineId {
            uCode: (#[verifier::truncate] (v as u32)) & 0x3ff,
            Major: 0,
            Minor: 0,
            Stepping: 0,
        },
        None => props.EngineId,
    };
    let links: u32 = ((pick_u32(p.p2p_links_count, 0) as u64 + pick_u32(
        p.io_links_count,
        props.NumIOLinks,
    ) as u64) % 0x1_0000_0000) as u32;
    *props = HsaNodeProperties {
        KFDGpuID: #[verifier::truncate] (node.gpu_id as u32),
        NumCPUCores: pick_u32(p.cpu_cores_count, props.NumCPUCores),
        NumFComputeCores: pick_u32(p.simd_count, props.NumFComputeCores),
        NumMemoryBanks: pick_u32(p.mem_banks_count, props.NumMemoryBanks),
        NumCaches: pick_u32(p.caches_count, props.NumCaches),
        CComputeIdLo: pick_u32(p.cpu_core_id_base, props.CComputeIdLo),
        FComputeIdLo: pick_u32(p.simd_id_base, props.FComputeIdLo),
        MaxWavesPerSIMD: pick_u32(p.max_waves_per_simd, props.MaxWavesPerSIMD),
        LDSSizeInKB: pick_u32(p.lds_size_in_kb, props.LDSSizeInKB),
        GDSSizeInKB: pick_u32(p.gds_size_in_kb, props.GDSSizeInKB),
        WaveFrontSize: pick_u32(p.wave_front_size, props.WaveFrontSize),
        NumArrays: pick_u32(p.simd_arrays_per_engine, props.NumArrays),
        NumCUPerArray: pick_u32(p.cu_per_simd_array, props.NumCUPerArray),
        NumSIMDPerCU: pick_u32(p.simd_per_cu, props.NumSIMDPerCU),
        MaxSlotsScratchCU: pick_u32(p.max_slots_scratch_cu, props.MaxSlotsScratchCU),
        VendorId: pick_u16(p.vendor_id, props.VendorId),
        DeviceId: pick_u16(p.device_id, props.DeviceId),
        LocationId: pick_u32(p.location_id, props.LocationId),
        Domain: pick_u32(p.domain, props.Domain),
        MaxEngineClockMhzFCompute: pick_u32(p.max_engine_clk_fcompute, props.MaxEngineClockMhzFCompute),
        MaxEngineClockMhzCCompute: pick_u32(p.max_engine_clk_ccompute, props.MaxEngineClockMhzCCompute),
        LocalMemSize: pick_u64(p.local_mem_size, props.LocalMemSize),
        DrmRenderMinor: pick_i32(p.drm_render_minor, props.DrmRenderMinor),
        HiveID: pick_u64(p.hive_id, props.HiveID),
        UniqueID: pick_u64(p.unique_id, props.UniqueID),
        NumSdmaEngines: pick_u32(p.num_sdma_engines, props.NumSdmaEngines),
        NumSdmaXgmiEngines: pick_u32(p.num_sdma_xgmi_engines, props.NumSdmaXgmiEngines),
        NumGws: pick_u8(p.num_gws, props.NumGws),
        NumSdmaQueuesPerEngine: pick_u8(p.num_sdma_queues_per_engine, props.NumSdmaQueuesPerEngine),
        NumCpQueues: pick_u8(p.num_cp_queues, props.NumCpQueues),
        NumXcc: pick_u32(p.num_xcc, props.NumXcc),
        NumIOLinks: links,
        Capability: HSA_CAPABILITY { Value: pick_u32(p.capability, props.Capability.Value) },
        DebugProperties: HSA_DEBUG_PROPERTIES {
            Value: pick_u64(p.debug_prop, props.DebugProperties.Value),
        },
        EngineId: engine,
        uCodeEngineVersions: HSA_ENGINE_VERSION {
            Value: pick_u32(p.sdma_fw_version, props.uCodeEngineVersions.Value),
        },
        ..*props
    };
}

/// The version of the engine of a GPU: the one that the table of GPUs has
/// for its device, or else the one that its target version `gfxv` spells.
pub open spec fn engine_id_of(props: HsaNodeProperties, gfxv: u32) -> HsaEngineId {
    let major = ((gfxv as u16) / 10000) % 100;
    let minor = ((gfxv as u16) / 100) % 100;
    match gfxip_device(props.DeviceId, major as u8) {
        Some(line) => HsaEngineId {
            Major: (line.major & 0x3f) as u32,
            Minor: line.minor as u32,
            Stepping: line.stepping as u32,
            ..props.EngineId
        },
        None => HsaEngineId {
            Major: ((major as u8) & 0x3f) as u32,
            Minor: minor as u32,
            Stepping: minor as u32,
            ..props.EngineId
        },
    }
}

/// Whether the version of the engine of a GPU can be told: its device is in
/// the table of GPUs, or the kernel driver writes its target version.
pub open spec fn engine_is_known(props: HsaNodeProperties, gfxv: u32) -> bool {
    gfxv > 0 || gfxip_device(props.DeviceId, ((((gfxv as u16) / 10000) % 100) as u8)) is Some
}

/// The properties of a node with everything derived that follows from what
/// the kernel driver writes of it: `props` holds what the driver writes,
/// `array_count` the number of its SIMD arrays and `gfxv` its target version.
///
/// Without support for the SVM interface in the system, the node has none. A
/// node without a GPU is done with that. A GPU has as many shader banks as
/// its arrays make engines; its engine's version and the sizes of its
/// register files where the version can be told; and one XCC at least.
pub open spec fn with_derived_properties(
    props: HsaNodeProperties,
    array_count: u32,
    gfxv: u32,
    is_svm_api_supported: bool,
) -> HsaNodeProperties {
    let capability = if is_svm_api_supported {
        props.Capability
    } else {
        HSA_CAPABILITY { Value: props.Capability.Value & !HSA_CAPABILITY_SVM_API_SUPPORTED }
    };
    if props.NumFComputeCores == 0 {
        HsaNodeProperties { Capability: capability, ..props }
    } else {
        let banks = if props.NumArrays != 0 {
            array_count / props.NumArrays
        } else {
            props.NumShaderBanks
        };
        let xcc = if props.NumXcc == 0 {
            1
        } else {
            props.NumXcc
        };
        if engine_is_known(props, gfxv) {
            HsaNodeProperties {
                Capability: capability,
                NumShaderBanks: banks,
                EngineId: engine_id_of(props, gfxv),
                SGPRSizePerCU: SGPR_SIZE_PER_CU,
                VGPRSizePerCU: vgpr_size_per_cu(gfx_version_full(engine_id_of(props, gfxv))),
                NumXcc: xcc,
                ..props
            }
        } else {
            HsaNodeProperties { Capability: capability, NumShaderBanks: banks, NumXcc: xcc, ..props }
        }
    }
}

/// What reading the properties of a node came to, besides the properties.
#[derive(Debug, Copy, Clone, PartialEq, Eq, Structural)]
pub struct NodePropsOutcome {
    pub status: HsakmtStatus,
    /// Whether the kernel driver writes links between devices.
    pub p2p_links: bool,
    /// How many of them.
    pub num_p2p_links: u32,
    /// Whether the node's GPU is to be asked for its family and kind.
    pub query_drm: bool,
}

/// Reads the properties of a node from what the kernel driver writes of it.
pub fn topology_sysfs_get_node_props(
    node: &KfdTopologyNode,
    props: &mut HsaNodeProperties,
    is_svm_api_supported: bool,
) -> (outcome: NodePropsOutcome)
    ensures
        *final(props) == with_derived_properties(
            with_sysfs_properties(*old(props), *node),
            value_or_zero(node.properties.array_count) as u32,
            value_or_zero(node.properties.gfx_target_version) as u32,
            is_svm_api_supported,
        ),
        outcome.status == HsakmtStatus::HSAKMT_STATUS_SUCCESS,
        outcome.p2p_links == (node.properties.p2p_links_count is Some),
        outcome.num_p2p_links == value_or_zero(node.properties.p2p_links_count) as u32,
        outcome.query_drm == (with_sysfs_properties(*old(props), *node).NumFComputeCores != 0
            && engine_is_known(
            with_sysfs_properties(*old(props), *node),
            value_or_zero(node.properties.gfx_target_version) as u32,
        )),
{
    take_sysfs_properties(props, node);
    let array_count: u32 = match node.properties.array_count {
        Some(v) => #[verifier::truncate] (v as u32),
        None => 0,
    };
    let gfxv: u32 = match node.properties.gfx_target_version {
        Some(v) => #[verifier::truncate] (v as u32),
        None => 0,
    };
    let num_p2p_links: u32 = match node.properties.p2p_links_count {
        Some(v) => #[verifier::truncate] (v as u32),
        None => 0,
    };
    let p2p_links: bool = node.properties.p2p_links_count.is_some();
    if !is_svm_api_supported {
        props.Capability = props.Capability.without_svm_api();
    }
    if props.NumFComputeCores == 0 {
        return NodePropsOutcome {
            status: HsakmtStatus::HSAKMT_STATUS_SUCCESS,
            p2p_links,
            num_p2p_links,
            query_drm: false,
        };
    }
    let ghost taken = *props;
    if props.NumArrays != 0 {
        props.NumShaderBanks = array_count / props.NumArrays;
    }
    let short: u16 = #[verifier::truncate] (gfxv as u16);
    let major: u8 = HSA_GET_GFX_VERSION_MAJOR(short);
    let minor: u8 = HSA_GET_GFX_VERSION_MINOR(short);
    let stepping: u8 = HSA_GET_GFX_VERSION_STEP(short);
    let line = find_hsa_gfxip_device(props.DeviceId, major);
    let known: bool = line.is_some() || gfxv > 0;
    if known {
        match line {
            Some(l) => {
                props.EngineId.Major = (l.major & 0x3f) as u32;
                props.EngineId.Minor = l.minor as u32;
                props.EngineId.Stepping = l.stepping as u32;
            },
            None => {
                props.EngineId.Major = (major & 0x3f) as u32;
                props.EngineId.Minor = minor as u32;
                props.EngineId.Stepping = stepping as u32;
            },
        }
        props.SGPRSizePerCU = SGPR_SIZE_PER_CU;
        props.VGPRSizePerCU = hsakmt_get_vgpr_size_per_cu(HSA_GET_GFX_VERSION_FULL(&props.EngineId));
    }
    if props.NumXcc == 0 {
        props.NumXcc = 1;
    }
    NodePropsOutcome {
        status: HsakmtStatus::HSAKMT_STATUS_SUCCESS,
        p2p_links,
        num_p2p_links,
        query_drm: known,
    }
}

/// The flag that marks an integrated GPU among the flags of its ids.
pub const AMDGPU_IDS_FLAGS_FUSION: u64 = 0x1;

/// Takes what the GPU itself says of its family and its kind into the
/// properties of its node: it is an integrated GPU where the flags of its
/// ids say so.
pub fn topology_get_node_props_from_drm(props: &mut HsaNodeProperties, family_id: u32, ids_flags: u64)
    ensures
        *final(props) == (HsaNodeProperties {
            FamilyID: family_id,
            Integrated: if ids_flags & AMDGPU_IDS_FLAGS_FUSION != 0 {
                1u8
            } else {
                0u8
            },
            ..*old(props)
        }),
{
    props.FamilyID = family_id;
    props.Integrated = if ids_flags & AMDGPU_IDS_FLAGS_FUSION != 0 {
        1
    } else {
        0
    };
}

/// Reads the properties of a memory bank from the text in which the kernel
/// driver describes it. A property that the text does not give stays as it
/// is. A kind of memory that is not known is an error, and nothing is taken.
pub fn topology_sysfs_get_mem_props(content: &[u8], props: &mut HsaMemoryProperties) -> (status:
    HsakmtStatus)
    ensures
        memory_kind_is_known(content@)
            ==> status == HsakmtStatus::HSAKMT_STATUS_SUCCESS
                && *final(props) == with_memory_properties(*old(props), content@),
        !memory_kind_is_known(content@)
            ==> status == HsakmtStatus::HSAKMT_STATUS_ERROR && *final(props) == *old(props),
{
    let heap = find_property(content, "heap_type");
    let kind: Option<HSA_HEAPTYPE> = match heap {
        Some(v) => {
            if v > 0xFFFF_FFFF {
                return HsakmtStatus::HSAKMT_STATUS_ERROR;
            }
            match HSA_HEAPTYPE::try_from(v as usize) {
                Ok(k) => Some(k),
                Err(_) => {
                    return HsakmtStatus::HSAKMT_STATUS_ERROR;
                },
            }
        },
        None => None,
    };
    match kind {
        Some(k) => {
            props.HeapType = k;
        },
        None => {},
    }
    match find_property(content, "size_in_bytes") {
        Some(v) => {
            props.prop = HSA_MEMORY_PROP { SizeInBytes: v };
        },
        None => {},
    }
    match find_property(content, "flags") {
        Some(v) => {
            props.Flags = HSA_MEMORYPROPERTY { MemoryProperty: #[verifier::truncate] (v as u32) };
        },
        None => {},
    }
    match find_property(content, "width") {
        Some(v) => {
            props.Width = #[verifier::truncate] (v as u32);
        },
        None => {},
    }
    match find_property(content, "mem_clk_max") {
        Some(v) => {
            props.MemoryClockMax = #[verifier::truncate] (v as u32);
        },
        None => {},
    }
    HsakmtStatus::HSAKMT_STATUS_SUCCESS
}

/// Whether the text names no kind of memory, or one that is known.
pub open spec fn memory_kind_is_known(content: Seq<u8>) -> bool {
    property_of(content, "heap_type"@) is None || exists|k: HSA_HEAPTYPE| #[trigger]
        k.code_spec() == property_of(content, "heap_type"@)->Some_0
}

/// The properties of a memory bank with what the text gives taken in.
pub open spec fn with_memory_properties(props: HsaMemoryProperties, content: Seq<u8>)
    -> HsaMemoryProperties {
    HsaMemoryProperties {
        HeapType: if property_of(content, "heap_type"@) is Some {
            choose|k: HSA_HEAPTYPE| #[trigger]
                k.code_spec() == property_of(content, "heap_type"@)->Some_0
        } else {
            props.HeapType
        },
        prop: if property_of(content, "size_in_bytes"@) is Some {
            HSA_MEMORY_PROP { SizeInBytes: property_of(content, "size_in_bytes"@)->Some_0 }
        } else {
            props.prop
        },
        Flags: if property_of(content, "flags"@) is Some {
            HSA_MEMORYPROPERTY { MemoryProperty: property_of(content, "flags"@)->Some_0 as u32 }
        } else {
            props.Flags
        },
        Width: if property_of(content, "width"@) is Some {
            property_of(content, "width"@)->Some_0 as u32
        } else {
            props.Width
        },
        MemoryClockMax: if property_of(content, "mem_clk_max"@) is Some {
            property_of(content, "mem_clk_max"@)->Some_0 as u32
        } else {
            props.MemoryClockMax
        },
        ..props
    }
}

/// The number, in the kernel driver's count, of the node that a link leads
/// to, where the text that describes the link gives one.
pub fn topology_sysfs_iolink_node_to(content: &[u8]) -> (node_to: Option<u64>)
    ensures
        node_to == property_of(content@, "node_to"@),
{
    find_property(content, "node_to")
}

/// Why the text that describes a link of node `sys_node_id` cannot be taken,
/// if it cannot: the link starts at another node, it leads to a node that
/// cannot be used, or it is of a kind that is not known.
pub open spec fn iolink_error(content: Seq<u8>, sys_node_id: u64, node_to: Option<u32>) -> Option<
    HsakmtStatus,
> {
    if property_of(content, "node_from"@) is Some && property_of(content, "node_from"@)->Some_0
        != sys_node_id {
        Some(HsakmtStatus::HSAKMT_STATUS_INVALID_NODE_UNIT)
    } else if property_of(content, "node_to"@) is Some && node_to is None {
        Some(HsakmtStatus::HSAKMT_STATUS_NOT_SUPPORTED)
    } else if property_of(content, "type"@) is Some && !(exists|k: HSA_IOLINKTYPE| #[trigger]
        k.code_spec() == property_of(content, "type"@)->Some_0) {
        Some(HsakmtStatus::HSAKMT_STATUS_ERROR)
    } else {
        None
    }
}

/// The properties of a link of node `node_id` with what the text gives taken
/// in. The link starts at `node_id`, and leads to `node_to`.
pub open spec fn with_iolink_properties(
    props: HsaIoLinkProperties,
    content: Seq<u8>,
    node_id: u32,
    node_to: Option<u32>,
) -> HsaIoLinkProperties {
    HsaIoLinkProperties {
        IoLinkType: if property_of(content, "type"@) is Some {
            choose|k: HSA_IOLINKTYPE| #[trigger]
                k.code_spec() == property_of(content, "type"@)->Some_0
        } else {
            props.IoLinkType
        },
        VersionMajor: value_or_u32(property_of(content, "version_major"@), props.VersionMajor),
        VersionMinor: value_or_u32(property_of(content, "version_minor"@), props.VersionMinor),
        NodeFrom: if property_of(content, "node_from"@) is Some {
            node_id
        } else {
            props.NodeFrom
        },
        NodeTo: if property_of(content, "node_to"@) is Some && node_to is Some {
            node_to->Some_0
        } else {
            props.NodeTo
        },
        Weight: value_or_u32(property_of(content, "weight"@), props.Weight),
        MinimumLatency: value_or_u32(property_of(content, "min_latency"@), props.MinimumLatency),
        MaximumLatency: value_or_u32(property_of(content, "max_latency"@), props.MaximumLatency),
        MinimumBandwidth: value_or_u32(
            property_of(content, "min_bandwidth"@),
            props.MinimumBandwidth,
        ),
        MaximumBandwidth: value_or_u32(
            property_of(content, "max_bandwidth"@),
            props.MaximumBandwidth,
        ),
        RecTransferSize: value_or_u32(
            property_of(content, "recommended_transfer_size"@),
            props.RecTransferSize,
        ),
        RecSdmaEngIdMask: value_or_u32(
            property_of(content, "recommended_sdma_engine_id_mask"@),
            props.RecSdmaEngIdMask,
        ),
        Flags: HSA_LINKPROPERTY {
            LinkProperty: value_or_u32(property_of(content, "flags"@), props.Flags.LinkProperty),
        },
    }
}

/// Reads the properties of a link of node `node_id`, which the kernel driver
/// counts as `sys_node_id`, from the text in which the driver describes the
/// link. `node_to` is the number of the node that the link leads to, or
/// nothing where that node cannot be used.
pub fn topology_sysfs_get_iolink_props(
    content: &[u8],
    node_id: u32,
    sys_node_id: u64,
    node_to: Option<u32>,
    props: &mut HsaIoLinkProperties,
) -> (status: HsakmtStatus)
    ensures
        iolink_error(content@, sys_node_id, node_to) is Some ==> Some(status) == iolink_error(
            content@,
            sys_node_id,
            node_to,
        ) && *final(props) == *old(props),
        iolink_error(content@, sys_node_id, node_to) is None ==> status
            == HsakmtStatus::HSAKMT_STATUS_SUCCESS && *final(props) == with_iolink_properties(
            *old(props),
            content@,
            node_id,
            node_to,
        ),
{
    let from = find_property(content, "node_from");
    match from {
        Some(v) => {
            if v != sys_node_id {
                return HsakmtStatus::HSAKMT_STATUS_INVALID_NODE_UNIT;
            }
        },
        None => {},
    }
    let to = find_property(content, "node_to");
    if to.is_some() && node_to.is_none() {
        return HsakmtStatus::HSAKMT_STATUS_NOT_SUPPORTED;
    }
    let kind: HSA_IOLINKTYPE = match find_property(content, "type") {
        Some(v) => {
            if v > 0xFFFF_FFFF {
                return HsakmtStatus::HSAKMT_STATUS_ERROR;
            }
            match HSA_IOLINKTYPE::try_from(v as usize) {
                Ok(k) => k,
                Err(_) => {
                    return HsakmtStatus::HSAKMT_STATUS_ERROR;
                },
            }
        },
        None => props.IoLinkType,
    };
    let node_from: u32 = if from.is_some() {
        node_id
    } else {
        props.NodeFrom
    };
    let leads_to: u32 = match (to, node_to) {
        (Some(_), Some(n)) => n,
        _ => props.NodeTo,
    };
    *props = HsaIoLinkProperties {
        IoLinkType: kind,
        VersionMajor: pick_u32(find_property(content, "version_major"), props.VersionMajor),
        VersionMinor: pick_u32(find_property(content, "version_minor"), props.VersionMinor),
        NodeFrom: node_from,
        NodeTo: leads_to,
        Weight: pick_u32(find_property(content, "weight"), props.Weight),
        MinimumLatency: pick_u32(find_property(content, "min_latency"), props.MinimumLatency),
        MaximumLatency: pick_u32(find_property(content, "max_latency"), props.MaximumLatency),
        MinimumBandwidth: pick_u32(find_property(content, "min_bandwidth"), props.MinimumBandwidth),
        MaximumBandwidth: pick_u32(find_property(content, "max_bandwidth"), props.MaximumBandwidth),
        RecTransferSize: pick_u32(
            find_property(content, "recommended_transfer_size"),
            props.RecTransferSize,
        ),
        RecSdmaEngIdMask: pick_u32(
            find_property(content, "recommended_sdma_engine_id_mask"),
            props.RecSdmaEngIdMask,
        ),
        Flags: HSA_LINKPROPERTY {
            LinkProperty: pick_u32(find_property(content, "flags"), props.Flags.LinkProperty),
        },
    };
    HsakmtStatus::HSAKMT_STATUS_SUCCESS
}

/// Test fixture: what a test of the library knows of the system.
#[allow(non_snake_case)]
#[derive(Debug)]
pub struct KFDBaseComponentTest {
    pub m_SystemProperties: HsaSystemProperties,
}

impl KFDBaseComponentTest {
    /// A fixture that knows nothing of the system yet.
    pub fn new() -> (fixture: Self)
        ensures
            fixture.m_SystemProperties == (HsaSystemProperties {
                NumNodes: 0,
                PlatformOem: 0,
                PlatformId: 0,
                PlatformRev: 0,
            }),
    {
        KFDBaseComponentTest {
            m_SystemProperties: HsaSystemProperties {
                NumNodes: 0,
                PlatformOem: 0,
                PlatformId: 0,
                PlatformRev: 0,
            },
        }
    }
}

/// The map of siblings `map` with the numbers taken in that the bytes from
/// `from` to `to` list with commas between them, the one at position `index`
/// first. A number that 32 bits do not hold, anything that is no number, and
/// whatever is listed behind the 256th position, is left out.
pub open spec fn siblings_from(s: Seq<u8>, from: int, to: int, index: int, map: Seq<u32>) -> Seq<u32>
    decreases to - from,
{
    let end = first_byte(s, 44, from, to);
    let value = decimal(s.subrange(from, end));
    let taken = if 0 <= index < map.len() && value is Some && value->Some_0 <= u32::MAX {
        map.update(index, value->Some_0 as u32)
    } else {
        map
    };
    if end >= to || end < from {
        taken
    } else {
        siblings_from(s, end + 1, to, index + 1, taken)
    }
}

/// Takes the numbers that the bytes from `from` to `to` list into the map of
/// siblings of a cache.
pub fn read_sibling_map(s: &[u8], from: usize, to: usize, props: &mut HsaCacheProperties)
    requires
        from <= to <= s@.len(),
    ensures
        final(props).SiblingMap@ == siblings_from(
            s@,
            from as int,
            to as int,
            0,
            old(props).SiblingMap@,
        ),
        final(props).ProcessorIdLow == old(props).ProcessorIdLow,
        final(props).CacheLevel == old(props).CacheLevel,
        final(props).CacheSize == old(props).CacheSize,
        final(props).CacheLineSize == old(props).CacheLineSize,
        final(props).CacheLinesPerTag == old(props).CacheLinesPerTag,
        final(props).CacheAssociativity == old(props).CacheAssociativity,
        final(props).CacheLatency == old(props).CacheLatency,
        final(props).CacheType == old(props).CacheType,
{
    let mut at: usize = from;
    let mut index: usize = 0;
    loop
        invariant_except_break
            from <= at <= to <= s@.len(),
            index <= at - from,
            siblings_from(s@, at as int, to as int, index as int, props.SiblingMap@) == siblings_from(
                s@,
                from as int,
                to as int,
                0,
                old(props).SiblingMap@,
            ),
            props.ProcessorIdLow == old(props).ProcessorIdLow,
            props.CacheLevel == old(props).CacheLevel,
            props.CacheSize == old(props).CacheSize,
            props.CacheLineSize == old(props).CacheLineSize,
            props.CacheLinesPerTag == old(props).CacheLinesPerTag,
            props.CacheAssociativity == old(props).CacheAssociativity,
            props.CacheLatency == old(props).CacheLatency,
            props.CacheType == old(props).CacheType,
        ensures
            props.SiblingMap@ == siblings_from(
                s@,
                from as int,
                to as int,
                0,
                old(props).SiblingMap@,
            ),
            props.ProcessorIdLow == old(props).ProcessorIdLow,
            props.CacheLevel == old(props).CacheLevel,
            props.CacheSize == old(props).CacheSize,
            props.CacheLineSize == old(props).CacheLineSize,
            props.CacheLinesPerTag == old(props).CacheLinesPerTag,
            props.CacheAssociativity == old(props).CacheAssociativity,
            props.CacheLatency == old(props).CacheLatency,
            props.CacheType == old(props).CacheType,
        decreases to - at,
    {
        let end: usize = find_byte(s, 44, at, to);
        match parse_decimal(s, at, end) {
            Some(v) => {
                if index < 256 && v <= 0xFFFF_FFFF {
                    props.SiblingMap[index] = v as u32;
                }
            },
            None => {},
        }
        if end >= to {
            break ;
        }
        at = end + 1;
        index = index + 1;
    }
}

/// The properties of a cache with what the text gives taken in, but for its
/// map of siblings.
pub open spec fn with_cache_properties(props: HsaCacheProperties, content: Seq<u8>)
    -> HsaCacheProperties {
    HsaCacheProperties {
        ProcessorIdLow: value_or_u32(property_of(content, "processor_id_low"@), props.ProcessorIdLow),
        CacheLevel: value_or_u32(property_of(content, "level"@), props.CacheLevel),
        CacheSize: value_or_u32(property_of(content, "size"@), props.CacheSize),
        CacheLineSize: value_or_u32(property_of(content, "cache_line_size"@), props.CacheLineSize),
        CacheLinesPerTag: value_or_u32(
            property_of(content, "cache_lines_per_tag"@),
            props.CacheLinesPerTag,
        ),
        CacheAssociativity: value_or_u32(
            property_of(content, "association"@),
            props.CacheAssociativity,
        ),
        CacheLatency: value_or_u32(property_of(content, "latency"@), props.CacheLatency),
        CacheType: HsaCacheType {
            Value: value_or_u32(property_of(content, "type"@), props.CacheType.Value),
        },
        ..props
    }
}

/// Reads the properties of a cache from the text in which the kernel driver
/// describes it. A property that the text does not give stays as it is.
pub fn topology_sysfs_get_cache_props(content: &[u8], props: &mut HsaCacheProperties) -> (status:
    HsakmtStatus)
    ensures
        status == HsakmtStatus::HSAKMT_STATUS_SUCCESS,
        final(props).ProcessorIdLow == with_cache_properties(*old(props), content@).ProcessorIdLow,
        final(props).CacheLevel == with_cache_properties(*old(props), content@).CacheLevel,
        final(props).CacheSize == with_cache_properties(*old(props), content@).CacheSize,
        final(props).CacheLineSize == with_cache_properties(*old(props), content@).CacheLineSize,
        final(props).CacheLinesPerTag == with_cache_properties(
            *old(props),
            content@,
        ).CacheLinesPerTag,
        final(props).CacheAssociativity == with_cache_properties(
            *old(props),
            content@,
        ).CacheAssociativity,
        final(props).CacheLatency == with_cache_properties(*old(props), content@).CacheLatency,
        final(props).CacheType == with_cache_properties(*old(props), content@).CacheType,
        final(props).SiblingMap@ == (match text_of(content@, "sibling_map"@) {
            Some(range) => siblings_from(content@, range.0, range.1, 0, old(props).SiblingMap@),
            None => old(props).SiblingMap@,
        }),
{
    props.ProcessorIdLow = pick_u32(find_property(content, "processor_id_low"), props.ProcessorIdLow);
    props.CacheLevel = pick_u32(find_property(content, "level"), props.CacheLevel);
    props.CacheSize = pick_u32(find_property(content, "size"), props.CacheSize);
    props.CacheLineSize = pick_u32(find_property(content, "cache_line_size"), props.CacheLineSize);
    props.CacheLinesPerTag = pick_u32(
        find_property(content, "cache_lines_per_tag"),
        props.CacheLinesPerTag,
    );
    props.CacheAssociativity = pick_u32(
        find_property(content, "association"),
        props.CacheAssociativity,
    );
    props.CacheLatency = pick_u32(find_property(content, "latency"), props.CacheLatency);
    props.CacheType = HsaCacheType {
        Value: pick_u32(find_property(content, "type"), props.CacheType.Value),
    };
    match find_property_text(content, "sibling_map") {
        Some((from, to)) => {
            read_sibling_map(content, from, to, props);
        },
        None => {},
    }
    HsakmtStatus::HSAKMT_STATUS_SUCCESS
}

/// How many links of a node the kernel driver describes as links of its own
/// kind, when `num_io_links` counts them together with the `num_p2p_links`
/// links between devices; and how many links a node of a system of
/// `num_nodes` nodes can have at most: one to every other node.
pub fn topology_iolink_counts(num_io_links: u32, num_p2p_links: u32, num_nodes: u32) -> (r: (
    u32,
    u32,
))
    ensures
        r.0 == (if num_io_links >= num_p2p_links {
            (num_io_links - num_p2p_links) as u32
        } else {
            0u32
        }),
        r.1 == (if num_nodes >= 1 {
            (num_nodes - 1) as u32
        } else {
            0u32
        }),
{
    (
        if num_io_links >= num_p2p_links {
            num_io_links - num_p2p_links
        } else {
            0
        },
        if num_nodes >= 1 {
            num_nodes - 1
        } else {
            0
        },
    )
}

/// Whether another link of a node is to be read: the driver describes
/// `count` of them, `sys_link_id` were read, and the node has taken
/// `link_id` of the `limit` that it can have.
pub fn topology_iolink_wanted(sys_link_id: u32, count: u32, link_id: u32, limit: u32) -> (wanted:
    bool)
    ensures
        wanted == (sys_link_id < count && link_id < limit),
{
    sys_link_id < count && link_id < limit
}

/// What becomes of a link that was read.
#[derive(Debug, Copy, Clone, PartialEq, Eq, Structural)]
pub enum LinkRead {
    /// The node takes it.
    Take,
    /// It leads to a node that cannot be used, and is left out.
    Skip,
    /// It could not be read; reading the topology ends with the status.
    Fail(HsakmtStatus),
}

/// What becomes of a link that was read with `status`.
pub fn topology_iolink_read(status: HsakmtStatus) -> (read: LinkRead)
    ensures
        read == (if status == HsakmtStatus::HSAKMT_STATUS_SUCCESS {
            LinkRead::Take
        } else if status == HsakmtStatus::HSAKMT_STATUS_NOT_SUPPORTED {
            LinkRead::Skip
        } else {
            LinkRead::Fail(status)
        }),
{
    match status {
        HsakmtStatus::HSAKMT_STATUS_SUCCESS => LinkRead::Take,
        HsakmtStatus::HSAKMT_STATUS_NOT_SUPPORTED => LinkRead::Skip,
        _ => LinkRead::Fail(status),
    }
}

/// Whether the topology that was read can be kept: it can where the kernel
/// driver's count of its changes is what it was before the reading.
pub fn topology_snapshot_is_stable(gen_start: u32, gen_end: u32) -> (stable: bool)
    ensures
        stable == (gen_start == gen_end),
{
    gen_start == gen_end
}

/// What is to be done to answer a request for the properties of the system.
#[derive(Debug, Copy, Clone, PartialEq, Eq, Structural)]
pub enum AcquireStep {
    /// Nothing: the properties are known, and were handed over.
    Known,
    /// The topology has to be read, and the apertures of the process set up.
    TakeSnapshot,
}

/// Answers a request for the properties of the system from what is known of
/// the topology, or says that the topology has to be read first. The kernel
/// driver's device has to be open.
#[allow(non_snake_case)]
pub fn hsaKmtAcquireSystemProperties(
    global: &HsaKmtGlobal,
    topology: &HsaKmtTopologyGlobal,
    system_properties: &mut HsaSystemProperties,
) -> (step: AcquireStep)
    requires
        global.hsakmt_kfd_open_count > 0,
    ensures
        step == (if topology.g_system == (HsaSystemProperties {
            NumNodes: 0,
            PlatformOem: 0,
            PlatformId: 0,
            PlatformRev: 0,
        }) {
            AcquireStep::TakeSnapshot
        } else {
            AcquireStep::Known
        }),
        step == AcquireStep::Known ==> *final(system_properties) == topology.g_system,
        step == AcquireStep::TakeSnapshot ==> *final(system_properties) == *old(system_properties),
{
    check_kfd_open_and_panic(global);
    let blank = HsaSystemProperties { NumNodes: 0, PlatformOem: 0, PlatformId: 0, PlatformRev: 0 };
    if topology.g_system == blank {
        AcquireStep::TakeSnapshot
    } else {
        *system_properties = topology.g_system;
        AcquireStep::Known
    }
}

/// Whether `text` stands somewhere in `name`.
pub open spec fn occurs_in(name: Seq<u8>, text: Seq<u8>) -> bool {
    exists|at: int|
        0 <= at && at + text.len() <= name.len() && #[trigger] name.subrange(
            at,
            at + text.len(),
        ) == text
}

/// Whether `text` stands in `name` at position `at`.
pub fn stands_at(name: &[u8], text: &[u8], at: usize) -> (r: bool)
    requires
        at + text@.len() <= name@.len(),
    ensures
        r == (name@.subrange(at as int, at + text@.len()) == text@),
{
    let n: usize = text.len();
    let len: usize = name.len();
    let mut j: usize = 0;
    while j < n
        invariant
            n == text@.len(),
            len == name@.len(),
            at + n <= len,
            0 <= j <= n,
            forall|k: int| 0 <= k < j ==> name@[at + k] == text@[k],
        decreases n - j,
    {
        if name[at + j] != text[j] {
            assert(name@.subrange(at as int, at + n)[j as int] != text@[j as int]);
            return false;
        }
        j = j + 1;
    }
    assert(name@.subrange(at as int, at + n) =~= text@);
    true
}

/// Whether `text` stands somewhere in `name`. The entries of a directory are
/// counted by it: those of the processors and those of the caches hold a
/// word that tells them apart.
pub fn name_contains(name: &[u8], text: &[u8]) -> (counts: bool)
    ensures
        counts == occurs_in(name@, text@),
{
    let n: usize = name.len();
    let m: usize = text.len();
    if m > n {
        return false;
    }
    let last: usize = n - m;
    let mut at: usize = 0;
    loop
        invariant
            n == name@.len(),
            m == text@.len(),
            m <= n,
            last == n - m,
            0 <= at <= last,
            forall|k: int| 0 <= k < at ==> #[trigger] name@.subrange(k, k + m) != text@,
        decreases last - at,
    {
        if stands_at(name, text, at) {
            return true;
        }
        if at == last {
            return false;
        }
        at = at + 1;
    }
}

/// Where the caches of a node are read from.
#[derive(Debug, Copy, Clone, PartialEq, Eq, Structural)]
pub enum CacheSource {
    /// The kernel driver describes this many of them.
    Driver(u32),
    /// The node holds CPUs only, and the system describes their caches.
    System,
    /// The node has none that anything describes.
    Nowhere,
}

/// Where the caches of a node with properties `props` are read from: from the
/// kernel driver where it describes any, and from the system for a node
/// without a GPU.
pub fn topology_cache_source(props: &HsaNodeProperties) -> (source: CacheSource)
    ensures
        source == (if props.NumCaches > 0 {
            CacheSource::Driver(props.NumCaches)
        } else if props.KFDGpuID == 0 {
            CacheSource::System
        } else {
            CacheSource::Nowhere
        }),
{
    if props.NumCaches > 0 {
        CacheSource::Driver(props.NumCaches)
    } else if props.KFDGpuID == 0 {
        CacheSource::System
    } else {
        CacheSource::Nowhere
    }
}

/// Whether the ways between the nodes that lead through the CPUs are to be
/// worked out here: they are where the kernel driver describes no links
/// between devices, and every node of the system was read.
pub fn topology_needs_indirect_links(p2p_links: bool, num_nodes: u32, nodes_read: usize) -> (needed:
    bool)
    ensures
        needed == (!p2p_links && num_nodes <= nodes_read),
{
    !p2p_links && num_nodes as usize <= nodes_read
}

} // verus!
