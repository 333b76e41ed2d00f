//! The frame graph and its installation.
//!
//! The plugin takes over drawing completely: it removes the host's
//! default driver node, adds one execute node at the top level, and
//! registers one subgraph holding the single surface-draw node.  A host
//! without the default driver node violates the contract assumed at
//! initialization, and installation fails fast without touching the
//! graph.

use vstd::prelude::*;

use crate::error::HostContractError;

verus! {

/// The host's default driver node, which hands drawing to its cameras.
pub const CAMERA_DRIVER_NODE: u64 = 0;

/// The top-level node that invokes the plugin's subgraph.
pub const EXECUTE_NODE: u64 = 1;

/// The subgraph node that records the surface pass.
pub const SURFACE_NODE: u64 = 2;

/// The plugin's one subgraph.
pub const APPLIER_SUBGRAPH: u64 = 1;

/// The mathematical state of a render graph: its top-level nodes and its
/// subgraphs, each with the nodes run inside it, all in insertion order.
#[verifier::ext_equal]
pub ghost struct FrameGraphModel {
    pub nodes: Seq<u64>,
    pub subgraphs: Seq<(u64, Seq<u64>)>,
}

/// A render graph: top-level nodes and subgraphs, in insertion order.
pub struct FrameGraph {
    pub nodes: Vec<u64>,
    pub subgraphs: Vec<(u64, Vec<u64>)>,
}

impl View for FrameGraph {
    type V = FrameGraphModel;

    open spec fn view(&self) -> FrameGraphModel {
        FrameGraphModel {
            nodes: self.nodes@,
            subgraphs: Seq::new(
                self.subgraphs@.len(),
                |i: int| (self.subgraphs@[i].0, self.subgraphs@[i].1@),
            ),
        }
    }
}

/// A sequence with the first occurrence of `x` removed; the sequence
/// itself when `x` does not occur.
pub open spec fn spec_remove_first(s: Seq<u64>, x: u64) -> Seq<u64>
    decreases s.len(),
{
    if s.len() == 0 {
        s
    } else if s[0] == x {
        s.drop_first()
    } else {
        seq![s[0]] + spec_remove_first(s.drop_first(), x)
    }
}

/// Removing the first occurrence at its index.
proof fn lemma_remove_first_at(s: Seq<u64>, x: u64, j: int)
    requires
        0 <= j < s.len(),
        s[j] == x,
        forall|t: int| 0 <= t < j ==> s[t] != x,
    ensures
        spec_remove_first(s, x) == s.remove(j),
    decreases j,
{
    if j == 0 {
        assert(s.drop_first() =~= s.remove(0));
    } else {
        lemma_remove_first_at(s.drop_first(), x, j - 1);
        assert(seq![s[0]] + s.drop_first().remove(j - 1) =~= s.remove(j));
    }
}

/// Whether `x` occurs in `v`.
fn contains_node(v: &Vec<u64>, x: u64) -> (r: bool)
    ensures
        r == v@.contains(x),
{
    let mut i: usize = 0;
    while i < v.len()
        invariant
            i <= v.len(),
            forall|t: int| 0 <= t < i ==> v@[t] != x,
        decreases v.len() - i,
    {
        if v[i] == x {
            return true;
        }
        i = i + 1;
    }
    false
}

impl FrameGraph {
    /// An empty graph.
    pub fn new() -> (g: Self)
        ensures
            g@.nodes =~= Seq::<u64>::empty(),
            g@.subgraphs =~= Seq::<(u64, Seq<u64>)>::empty(),
    {
        FrameGraph { nodes: Vec::new(), subgraphs: Vec::new() }
    }

    /// Add a top-level node.
    pub fn add_node(&mut self, label: u64)
        ensures
            final(self)@.nodes == old(self)@.nodes.push(label),
            final(self)@.subgraphs == old(self)@.subgraphs,
    {
        self.nodes.push(label);
        proof {
            assert(self@.subgraphs =~= old(self)@.subgraphs);
        }
    }

    /// Remove a top-level node: its first occurrence goes; a label not in
    /// the graph is a host-contract violation and changes nothing.
    pub fn remove_node(&mut self, label: u64) -> (r: Result<(), HostContractError>)
        ensures
            r is Ok <==> old(self)@.nodes.contains(label),
            r is Ok ==> final(self)@.nodes == spec_remove_first(old(self)@.nodes, label),
            r is Err ==> final(self)@.nodes == old(self)@.nodes,
            final(self)@.subgraphs == old(self)@.subgraphs,
            r is Err ==> r->Err_0 == HostContractError::MissingDefaultDriver,
    {
        let ghost nodes0 = self.nodes@;
        let mut i: usize = 0;
        while i < self.nodes.len()
            invariant
                i <= self.nodes.len(),
                nodes0 == old(self)@.nodes,
                self.nodes@ == nodes0,
                self.subgraphs@ == old(self).subgraphs@,
                forall|t: int| 0 <= t < i ==> nodes0[t] != label,
            decreases self.nodes.len() - i,
        {
            if self.nodes[i] == label {
                proof {
                    lemma_remove_first_at(nodes0, label, i as int);
                }
                self.nodes.remove(i);
                return Ok(());
            }
            i = i + 1;
        }
        proof {
            assert(!old(self)@.nodes.contains(label));
        }
        Err(HostContractError::MissingDefaultDriver)
    }

    /// Register a subgraph with the nodes run inside it, in order.
    pub fn add_sub_graph(&mut self, id: u64, sub_nodes: Vec<u64>)
        ensures
            final(self)@.nodes == old(self)@.nodes,
            final(self)@.subgraphs == old(self)@.subgraphs.push((id, sub_nodes@)),
    {
        let ghost sn = sub_nodes@;
        self.subgraphs.push((id, sub_nodes));
        proof {
            assert(self@.subgraphs =~= old(self)@.subgraphs.push((id, sn)));
        }
    }
}

/// Take over drawing: with the host's default driver present, remove it,
/// add the execute node, and register the subgraph holding the surface
/// node.  Without it, fail fast with the host-contract violation and
/// leave the graph untouched.
pub fn install_applier_graph(g: &mut FrameGraph) -> (r: Result<(), HostContractError>)
    ensures
        r is Ok <==> old(g)@.nodes.contains(CAMERA_DRIVER_NODE),
        r is Ok ==> final(g)@.nodes == spec_remove_first(old(g)@.nodes, CAMERA_DRIVER_NODE).push(
            EXECUTE_NODE,
        ),
        r is Ok ==> final(g)@.subgraphs == old(g)@.subgraphs.push(
            (APPLIER_SUBGRAPH, seq![SURFACE_NODE]),
        ),
        r is Err ==> *final(g) == *old(g),
        r is Err ==> r->Err_0 == HostContractError::MissingDefaultDriver,
{
    if !contains_node(&g.nodes, CAMERA_DRIVER_NODE) {
        return Err(HostContractError::MissingDefaultDriver);
    }
    let removed = g.remove_node(CAMERA_DRIVER_NODE);
    proof {
        assert(removed is Ok);
    }
    g.add_node(EXECUTE_NODE);
    let mut sub_nodes: Vec<u64> = Vec::new();
    sub_nodes.push(SURFACE_NODE);
    proof {
        assert(sub_nodes@ =~= seq![SURFACE_NODE]);
    }
    g.add_sub_graph(APPLIER_SUBGRAPH, sub_nodes);
    Ok(())
}

} // verus!
