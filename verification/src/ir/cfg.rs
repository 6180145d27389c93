use petgraph::graphmap::GraphMap;
use petgraph::Directed;
use std::collections::BTreeMap;
use crate::utils::btree_keys;
use std::hash::BuildHasher;
use vstd::prelude::*;

verus! {

#[verifier::external_type_specification]
#[verifier::external_body]
pub struct ExDirected(Directed);

#[verifier::external_type_specification]
#[verifier::external_body]
#[verifier::reject_recursive_types(N)]
#[verifier::reject_recursive_types(E)]
#[verifier::reject_recursive_types(Ty)]
#[verifier::reject_recursive_types(S)]
pub struct ExGraphMap<N, E, Ty, S: BuildHasher>(GraphMap<N, E, Ty, S>);

/// The directed graph of a function's blocks, with the successors of each
/// node in the order in which their edges were added.
pub uninterp spec fn graph_succs(g: GraphMap<u64, (), Directed>) -> Map<u64, Seq<u64>>;

/// `m` with node `n` added, with no successors, if it was absent.
pub open spec fn with_node(m: Map<u64, Seq<u64>>, n: u64) -> Map<u64, Seq<u64>> {
    if m.contains_key(n) {
        m
    } else {
        m.insert(n, Seq::empty())
    }
}

/// `m` with the edge `a -> b` added (and its ends added as nodes): a new edge
/// is appended to `a`'s successors, an existing one changes nothing.
pub open spec fn with_edge(m: Map<u64, Seq<u64>>, a: u64, b: u64) -> Map<u64, Seq<u64>> {
    let m1 = with_node(with_node(m, a), b);
    if m1[a].contains(b) {
        m1
    } else {
        m1.insert(a, m1[a].push(b))
    }
}

/// `GraphMap::new`: a graph with no node.
#[verifier::external_body]
fn new_graph() -> (graph: GraphMap<u64, (), Directed>)
    ensures
        graph_succs(graph) =~= Map::empty(),
{
    GraphMap::new()
}

/// `GraphMap::add_node`: adds `n` with no edges if it is not a node yet.
#[verifier::external_body]
fn graph_add_node(g: &mut GraphMap<u64, (), Directed>, n: u64)
    ensures
        graph_succs(*final(g)) == with_node(graph_succs(*old(g)), n),
{
    g.add_node(n);
}

/// `GraphMap::add_edge` on a directed graph: adds both ends as nodes, and a new
/// edge at the end of `a`'s outgoing list; an existing edge only gets the new
/// weight.
#[verifier::external_body]
fn graph_add_edge(g: &mut GraphMap<u64, (), Directed>, a: u64, b: u64)
    ensures
        graph_succs(*final(g)) == with_edge(graph_succs(*old(g)), a, b),
{
    g.add_edge(a, b, ());
}

/// `GraphMap::neighbors` on a directed graph, collected: the targets of the
/// outgoing edges of `a` in insertion order, none if `a` is not a node.
#[verifier::external_body]
fn graph_neighbors(g: &GraphMap<u64, (), Directed>, a: u64) -> (r: Vec<u64>)
    ensures
        r@ == succs_of(graph_succs(*g), a),
{
    g.neighbors(a).collect()
}

/// `GraphMap::nodes`, collected: every node once.
#[verifier::external_body]
fn graph_nodes(g: &GraphMap<u64, (), Directed>) -> (r: Vec<u64>)
    ensures
        r@.to_set() == graph_succs(*g).dom(),
        r@.no_duplicates(),
{
    g.nodes().collect()
}

/// The successors of `a` in `m`, none if `a` is not a node.
pub open spec fn succs_of(m: Map<u64, Seq<u64>>, a: u64) -> Seq<u64> {
    if m.contains_key(a) {
        m[a]
    } else {
        Seq::empty()
    }
}

/// A basic block: the addresses of its first and last byte.
#[derive(Clone, Copy, Debug, PartialEq, Eq, Structural)]
pub struct VwBlock {
    pub start: u64,
    pub end: u64,
}

/// The control-flow graph of a function: its entry address, its blocks by
/// start address, and the edges between blocks.
pub struct VwCfg {
    pub entrypoint: u64,
    pub blocks: BTreeMap<u64, VwBlock>,
    pub graph: GraphMap<u64, (), Directed>,
}

impl VwCfg {
    /// The successors of each block.
    pub open spec fn succs(&self) -> Map<u64, Seq<u64>> {
        graph_succs(self.graph)
    }

    /// A graph with entry point `entrypoint` and no block.
    pub fn new(entrypoint: u64) -> (r: VwCfg)
        ensures
            r.entrypoint == entrypoint,
            r.blocks@ == Map::<u64, VwBlock>::empty(),
            r.succs() == Map::<u64, Seq<u64>>::empty(),
    {
        VwCfg { entrypoint, blocks: BTreeMap::new(), graph: new_graph() }
    }

    /// Adds a block, as a node without edges.
    pub fn add_block(&mut self, block: VwBlock)
        ensures
            final(self).entrypoint == old(self).entrypoint,
            final(self).blocks@ == old(self).blocks@.insert(block.start, block),
            final(self).succs() == with_node(old(self).succs(), block.start),
    {
        self.blocks.insert(block.start, block);
        graph_add_node(&mut self.graph, block.start);
    }

    /// Adds the edge `from -> to`.
    pub fn add_edge(&mut self, from: u64, to: u64)
        ensures
            final(self).entrypoint == old(self).entrypoint,
            final(self).blocks@ == old(self).blocks@,
            final(self).succs() == with_edge(old(self).succs(), from, to),
    {
        graph_add_edge(&mut self.graph, from, to);
    }

    /// The start of every block of the graph.
    pub fn nodes(&self) -> (r: Vec<u64>)
        ensures
            r@.to_set() == self.succs().dom(),
            r@.no_duplicates(),
    {
        graph_nodes(&self.graph)
    }

    /// Whether `start` is the last block start below `addr`.
    pub open spec fn is_prev_start(&self, addr: u64, start: u64) -> bool {
        &&& self.blocks@.contains_key(start)
        &&& start < addr
        &&& forall|k: u64| #[trigger] self.blocks@.contains_key(k) && k < addr ==> k <= start
    }

    /// The key of the block that starts last below `addr`.
    pub open spec fn spec_prev_block(&self, addr: u64) -> Option<VwBlock> {
        if exists|k: u64| #[trigger] self.blocks@.contains_key(k) && k < addr {
            Some(self.blocks@[choose|k: u64| self.is_prev_start(addr, k)])
        } else {
            None
        }
    }

    /// The block that starts last below `addr` (the block holding `addr`
    /// when `addr` lies inside a block but does not start one); `None` if
    /// no block starts below `addr`.
    pub fn prev_block(&self, addr: u64) -> (r: Option<VwBlock>)
        ensures
            r == self.spec_prev_block(addr),
    {
        let keys = btree_keys(&self.blocks);
        let mut best: Option<u64> = None;
        let mut i: usize = 0;
        while i < keys.len()
            invariant
                i <= keys@.len(),
                keys@.to_set() == self.blocks@.dom(),
                best matches Some(b) ==> self.blocks@.contains_key(b) && b < addr && forall|j: int|
                    0 <= j < i && #[trigger] keys@[j] < addr ==> keys@[j] <= b,
                best is None ==> forall|j: int| 0 <= j < i ==> #[trigger] keys@[j] >= addr,
            decreases keys@.len() - i,
        {
            let k = keys[i];
            assert(keys@.to_set().contains(k));
            if k < addr {
                match best {
                    Some(b) => {
                        if k > b {
                            best = Some(k);
                        }
                    },
                    None => {
                        best = Some(k);
                    },
                }
            }
            i = i + 1;
        }
        match best {
            Some(b) => {
                assert forall|k: u64| #[trigger] self.blocks@.contains_key(k) && k < addr implies k <= b by {
                    assert(keys@.to_set().contains(k));
                    let j = choose|j: int| 0 <= j < keys@.len() && keys@[j] == k;
                }
                assert(self.is_prev_start(addr, b));
                let ghost c = choose|k: u64| self.is_prev_start(addr, k);
                assert(self.is_prev_start(addr, c));
                assert(c <= b && b <= c);
                let blk = *self.blocks.get(&b).unwrap();
                Some(blk)
            },
            None => {
                assert forall|k: u64| #[trigger] self.blocks@.contains_key(k) implies !(k < addr) by {
                    assert(keys@.to_set().contains(k));
                    let j = choose|j: int| 0 <= j < keys@.len() && keys@[j] == k;
                }
                None
            },
        }
    }

    /// The successors of block `addr`, in the order their edges were added.
    pub fn successors(&self, addr: u64) -> (r: Vec<u64>)
        ensures
            r@ == succs_of(self.succs(), addr),
    {
        graph_neighbors(&self.graph, addr)
    }
}

} // verus!
