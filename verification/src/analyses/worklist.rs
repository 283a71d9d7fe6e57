//! The worklist engine: it solves the dataflow equations of an analysis
//! over a control flow graph, and checks the solution before it hands it
//! out.

use crate::analyses::{analyze_block, analyze_block_spec, states_view, AbstractAnalyzer};
use crate::ir::types::{block_view, LocIdx};
use crate::ir::x64::{irmap_view, IRMap, SpecBlock};
use crate::lattices::Semilattice;
use crate::lattices::state_lattice::StateError;
use std::collections::HashMap;
use vstd::prelude::*;

verus! {

broadcast use vstd::std_specs::hash::group_hash_axioms;

/// A basic block: the addresses `[start, end)` of its instructions.
#[derive(Clone, Copy, Debug, PartialEq, Eq, Structural)]
pub struct BasicBlock {
    pub start: u64,
    pub end: u64,
}

/// The control flow graph of one function.
pub struct Cfg {
    /// The address of the entry block.
    pub entrypoint: u64,
    /// The blocks, in the order in which results are reported.
    pub blocks: Vec<BasicBlock>,
    /// The successors of each block, by the address of the block.
    pub edges: HashMap<u64, Vec<u64>>,
}

/// The content of a [`Cfg`].
pub struct CfgView {
    pub entrypoint: u64,
    pub blocks: Seq<BasicBlock>,
    pub edges: Map<u64, Seq<u64>>,
}

impl View for Cfg {
    type V = CfgView;

    open spec fn view(&self) -> CfgView {
        CfgView {
            entrypoint: self.entrypoint,
            blocks: self.blocks@,
            edges: self.edges@.map_values(|succs: Vec<u64>| succs@),
        }
    }
}

impl CfgView {
    /// The successors of a block; none for a block without edges.
    pub open spec fn successors(self, addr: u64) -> Seq<u64> {
        if self.edges.contains_key(addr) {
            self.edges[addr]
        } else {
            Seq::empty()
        }
    }
}

/// Of a list of addresses, those that are the given one (`wanted`), or
/// those that are not, in the order of the list.
pub open spec fn matching(addrs: Seq<u64>, addr: u64, wanted: bool) -> Seq<u64>
    decreases addrs.len(),
{
    if addrs.len() == 0 {
        Seq::empty()
    } else {
        let before = matching(addrs.drop_last(), addr, wanted);
        if (addrs.last() == addr) == wanted {
            before.push(addrs.last())
        } else {
            before
        }
    }
}

/// The successors of a block in the order that the analyses expect: the
/// address behind the block, at which the block falls through, comes
/// first; the others follow in the order in which they were given.
pub open spec fn fall_through_first(succs: Seq<u64>, next: u64) -> Seq<u64> {
    matching(succs, next, true) + matching(succs, next, false)
}

fn select(addrs: &Vec<u64>, addr: u64, wanted: bool, out: &mut Vec<u64>)
    ensures
        final(out)@ == old(out)@ + matching(addrs@, addr, wanted),
{
    let ghost start = out@;
    let mut i: usize = 0;
    assert(addrs@.take(0) =~= Seq::<u64>::empty());
    assert(start + Seq::<u64>::empty() =~= start);
    while i < addrs.len()
        invariant
            i <= addrs.len(),
            out@ == start + matching(addrs@.take(i as int), addr, wanted),
        decreases addrs.len() - i,
    {
        proof {
            assert(addrs@.take(i + 1).drop_last() =~= addrs@.take(i as int));
            assert(addrs@.take(i + 1).last() == addrs@[i as int]);
        }
        let ghost before = matching(addrs@.take(i as int), addr, wanted);
        if (addrs[i] == addr) == wanted {
            out.push(addrs[i]);
            assert(out@ =~= start + before.push(addrs@[i as int]));
        }
        i = i + 1;
    }
    assert(addrs@.take(addrs.len() as int) =~= addrs@);
}

/// Puts the successors of a block in the order that the analyses expect.
pub fn order_successors(succs: &Vec<u64>, next: u64) -> (r: Vec<u64>)
    ensures
        r@ == fall_through_first(succs@, next),
{
    let mut out: Vec<u64> = Vec::new();
    select(succs, next, true, &mut out);
    select(succs, next, false, &mut out);
    assert(out@ =~= fall_through_first(succs@, next));
    out
}

impl Cfg {
    /// A graph with an entry block and nothing else.
    pub fn new(entrypoint: u64) -> (r: Cfg)
        ensures
            r@ == (CfgView { entrypoint, blocks: Seq::empty(), edges: Map::empty() }),
    {
        let cfg = Cfg { entrypoint, blocks: Vec::new(), edges: HashMap::new() };
        assert(cfg@.edges =~= Map::<u64, Seq<u64>>::empty());
        cfg
    }

    /// The number of steps that the engine is allowed by default: 256 for
    /// each block and 1024 more, as far as that can be counted.
    pub open spec fn spec_default_fuel(blocks: nat) -> nat {
        if blocks * 256 + 1024 <= usize::MAX {
            blocks * 256 + 1024
        } else {
            usize::MAX as nat
        }
    }

    /// The number of steps that the engine is allowed by default.
    pub fn default_fuel(&self) -> (r: usize)
        ensures
            r == Self::spec_default_fuel(self@.blocks.len()),
    {
        let n: usize = self.blocks.len();
        if n > (usize::MAX - 1024) / 256 {
            usize::MAX
        } else {
            n * 256 + 1024
        }
    }

    /// Adds a block with its successors. The successors are put in the order
    /// that the analyses expect: the address at which the block falls
    /// through first.
    pub fn add_block(&mut self, block: BasicBlock, succs: &Vec<u64>)
        ensures
            final(self)@ == (CfgView {
                entrypoint: old(self)@.entrypoint,
                blocks: old(self)@.blocks.push(block),
                edges: old(self)@.edges.insert(block.start, fall_through_first(succs@, block.end)),
            }),
    {
        let ordered = order_successors(succs, block.end);
        let ghost before = self@.edges;
        self.blocks.push(block);
        self.edges.insert(block.start, ordered);
        assert(self@.edges =~= before.insert(block.start, ordered@));
    }
}

/// Why the engine has no solution to hand out.
#[derive(Clone, Copy, Debug, PartialEq, Eq, Structural)]
pub enum WorklistError {
    /// The number of steps that was allowed did not suffice.
    OutOfFuel,
    /// A block that is reached was not lifted.
    MissingBlock(u64),
    /// The code is malformed.
    Malformed(StateError),
    /// What the engine computed is no solution.
    NotAFixpoint,
}

/// The meet of two states of which either may be absent. An absent state
/// is the greatest element: the meet with it changes nothing.
pub open spec fn meet_with_top<L: Semilattice>(a: Option<L::V>, b: Option<L::V>) -> Option<L::V> {
    match (a, b) {
        (None, _) => b,
        (_, None) => a,
        (Some(x), Some(y)) => Some(L::meet_spec(x, y)),
    }
}

/// `a ⊓ ⊤ = a` and `⊤ ⊓ a = a`.
pub proof fn lemma_meet_top<L: Semilattice>(a: Option<L::V>)
    ensures
        meet_with_top::<L>(a, None) == a,
        meet_with_top::<L>(None, a) == a,
{
}

/// With the greatest element added, the meet is still idempotent.
pub proof fn lemma_meet_with_top_idempotent<L: Semilattice>(a: Option<L::V>)
    ensures
        meet_with_top::<L>(a, a) == a,
{
    if a is Some {
        L::lemma_meet_idempotent(a->Some_0);
    }
}

/// With the greatest element added, the meet is still commutative.
pub proof fn lemma_meet_with_top_commutative<L: Semilattice>(a: Option<L::V>, b: Option<L::V>)
    requires
        a is Some && b is Some ==> L::comparable_spec(a->Some_0, b->Some_0),
    ensures
        meet_with_top::<L>(a, b) == meet_with_top::<L>(b, a),
{
    if a is Some && b is Some {
        L::lemma_meet_commutative(a->Some_0, b->Some_0);
    }
}

/// The state that a result holds for a block: that of the first entry with
/// the address of the block.
pub open spec fn state_at<V>(result: Seq<(u64, V)>, addr: u64) -> Option<V>
    decreases result.len(),
{
    if result.len() == 0 {
        None
    } else if result[0].0 == addr {
        Some(result[0].1)
    } else {
        state_at(result.drop_first(), addr)
    }
}

/// Whether each of the states that flow into blocks is accounted for: the
/// result holds a state for the block, and that state is below the one
/// that flows in.
pub open spec fn flows_into<L: Semilattice>(result: Seq<(u64, L::V)>, incoming: Seq<(u64, L::V)>) -> bool {
    forall|k: int|
        0 <= k < incoming.len() ==> match state_at(result, (#[trigger] incoming[k]).0) {
            Some(held) => L::le_spec(held, incoming[k].1),
            None => false,
        }
}

/// Whether the state that a result holds at the start of a block accounts
/// for the block: the block was lifted, the state passes through it
/// without error, and what flows out of it is accounted for at each
/// successor.
pub open spec fn block_is_stable<A: AbstractAnalyzer>(
    analyzer: A,
    cfg: CfgView,
    irmap: Map<u64, SpecBlock>,
    result: Seq<(u64, <A::State as View>::V)>,
    i: int,
) -> bool {
    let addr = result[i].0;
    irmap.contains_key(addr) && match analyze_block_spec(analyzer, result[i].1, irmap[addr]) {
        Err(_) => false,
        Ok(out) => flows_into::<A::State>(
            result,
            analyzer.process_branch_spec(irmap, out, cfg.successors(addr), addr),
        ),
    }
}

/// Whether a result solves the dataflow equations: it holds a state for
/// the entry block that is below the state at function entry, and every
/// state it holds accounts for its block.
pub open spec fn is_solution<A: AbstractAnalyzer>(
    analyzer: A,
    cfg: CfgView,
    irmap: Map<u64, SpecBlock>,
    result: Seq<(u64, <A::State as View>::V)>,
) -> bool {
    &&& match state_at(result, cfg.entrypoint) {
        Some(held) => <A::State as Semilattice>::le_spec(held, analyzer.init_spec()),
        None => false,
    }
    &&& forall|i: int| 0 <= i < result.len() ==> #[trigger] block_is_stable(analyzer, cfg, irmap, result, i)
}

/// The position of the first entry of a result with the given address.
pub fn find_state<L: View>(result: &Vec<(u64, L)>, addr: u64) -> (r: Option<usize>)
    ensures
        match r {
            Some(i) => i < result@.len() && result@[i as int].0 == addr && state_at(states_view(result@), addr)
                == Some(result@[i as int].1@),
            None => state_at(states_view(result@), addr) is None,
        },
{
    let ghost view = states_view(result@);
    let mut i: usize = 0;
    assert(view.skip(0) =~= view);
    while i < result.len()
        invariant
            i <= result.len(),
            view == states_view(result@),
            state_at(view, addr) == state_at(view.skip(i as int), addr),
        decreases result.len() - i,
    {
        assert(view.skip(i as int)[0] == view[i as int]);
        assert(view[i as int] == (result@[i as int].0, result@[i as int].1@));
        if result[i].0 == addr {
            return Some(i);
        }
        assert(view.skip(i as int).drop_first() =~= view.skip(i + 1));
        i = i + 1;
    }
    assert(view.skip(result.len() as int).len() == 0);
    None
}

/// Whether each of the states that flow into blocks is accounted for.
pub fn check_flows<A: AbstractAnalyzer>(result: &Vec<(u64, A::State)>, incoming: &Vec<(u64, A::State)>) -> (r:
    bool)
    ensures
        r == flows_into::<A::State>(states_view(result@), states_view(incoming@)),
{
    let ghost held = states_view(result@);
    let ghost flowing = states_view(incoming@);
    let mut k: usize = 0;
    while k < incoming.len()
        invariant
            k <= incoming.len(),
            held == states_view(result@),
            flowing == states_view(incoming@),
            forall|j: int|
                0 <= j < k ==> match state_at(held, (#[trigger] flowing[j]).0) {
                    Some(state) => <A::State as Semilattice>::le_spec(state, flowing[j].1),
                    None => false,
                },
        decreases incoming.len() - k,
    {
        assert(flowing[k as int] == (incoming@[k as int].0, incoming@[k as int].1@));
        let below: bool = match find_state(result, incoming[k].0) {
            Some(i) => result[i].1.leq(&incoming[k].1),
            None => false,
        };
        if !below {
            return false;
        }
        k = k + 1;
    }
    true
}

/// The successors of a block; none for a block without edges.
pub fn successors_of(cfg: &Cfg, addr: u64) -> (r: Vec<u64>)
    ensures
        r@ == cfg@.successors(addr),
{
    let mut out: Vec<u64> = Vec::new();
    match cfg.edges.get(&addr) {
        None => {},
        Some(succs) => {
            let mut i: usize = 0;
            while i < succs.len()
                invariant
                    i <= succs.len(),
                    out@ == succs@.take(i as int),
                decreases succs.len() - i,
            {
                out.push(succs[i]);
                assert(succs@.take(i + 1) =~= succs@.take(i as int).push(succs@[i as int]));
                i = i + 1;
            }
            assert(succs@.take(succs.len() as int) =~= succs@);
        },
    }
    out
}

/// Decides whether a result solves the dataflow equations of an analysis
/// over a control flow graph.
pub fn is_fixpoint<A: AbstractAnalyzer>(cfg: &Cfg, irmap: &IRMap, analyzer: &A, result: &Vec<(u64, A::State)>) -> (r:
    bool)
    ensures
        r == is_solution(*analyzer, cfg@, irmap_view(irmap@), states_view(result@)),
{
    let ghost held = states_view(result@);
    let ghost blocks = irmap_view(irmap@);
    let at_entry: bool = match find_state(result, cfg.entrypoint) {
        Some(i) => {
            let init = analyzer.init_state();
            result[i].1.leq(&init)
        },
        None => false,
    };
    if !at_entry {
        return false;
    }
    let mut i: usize = 0;
    while i < result.len()
        invariant
            i <= result.len(),
            held == states_view(result@),
            blocks == irmap_view(irmap@),
            forall|j: int| 0 <= j < i ==> #[trigger] block_is_stable(*analyzer, cfg@, blocks, held, j),
        decreases result.len() - i,
    {
        let addr: u64 = result[i].0;
        assert(held[i as int] == (result@[i as int].0, result@[i as int].1@));
        let block = match irmap.get(&addr) {
            Some(block) => block,
            None => {
                assert(!block_is_stable(*analyzer, cfg@, blocks, held, i as int));
                return false;
            },
        };
        assert(blocks[addr] == block_view(block@));
        let out = match analyze_block(analyzer, &result[i].1, block) {
            Ok(out) => out,
            Err(_) => {
                assert(!block_is_stable(*analyzer, cfg@, blocks, held, i as int));
                return false;
            },
        };
        let succs = successors_of(cfg, addr);
        let incoming = analyzer.process_branch(irmap, &out, &succs, &addr);
        if !check_flows::<A>(result, &incoming) {
            assert(!block_is_stable(*analyzer, cfg@, blocks, held, i as int));
            return false;
        }
        assert(block_is_stable(*analyzer, cfg@, blocks, held, i as int));
        i = i + 1;
    }
    true
}

/// The contents of the states that the engine holds, by the address of
/// the block at whose start each state holds.
pub open spec fn held_view<L: View>(states: Map<u64, L>) -> Map<u64, L::V> {
    states.map_values(|state: L| state@)
}

/// What the engine holds between two steps: the state at the start of each
/// block that was reached, and the blocks that are still to be walked. The
/// last of them is walked next.
pub type Progress<V> = (Map<u64, V>, Seq<u64>);

/// Meets the states that flow into blocks into the states that are held,
/// the last of them first. A block whose state changes, or that had none,
/// is to be walked again.
pub open spec fn merge_incoming<L: Semilattice>(
    held: Map<u64, L::V>,
    worklist: Seq<u64>,
    incoming: Seq<(u64, L::V)>,
) -> Progress<L::V>
    decreases incoming.len(),
{
    if incoming.len() == 0 {
        (held, worklist)
    } else {
        let (succ, flowing) = incoming.last();
        let merged = meet_with_top::<L>(
            if held.contains_key(succ) {
                Some(held[succ])
            } else {
                None
            },
            Some(flowing),
        )->Some_0;
        if held.contains_key(succ) && merged == held[succ] {
            merge_incoming::<L>(held, worklist, incoming.drop_last())
        } else {
            merge_incoming::<L>(held.insert(succ, merged), worklist.push(succ), incoming.drop_last())
        }
    }
}

/// One step of the engine: the last block of the worklist is walked from
/// the state at its start, and what flows out of it is met into the states
/// of its successors.
pub open spec fn step_spec<A: AbstractAnalyzer>(
    analyzer: A,
    cfg: CfgView,
    irmap: Map<u64, SpecBlock>,
    held: Map<u64, <A::State as View>::V>,
    worklist: Seq<u64>,
) -> Result<Progress<<A::State as View>::V>, WorklistError> {
    let addr = worklist.last();
    if !irmap.contains_key(addr) {
        Err(WorklistError::MissingBlock(addr))
    } else if !held.contains_key(addr) {
        Err(WorklistError::NotAFixpoint)
    } else {
        match analyze_block_spec(analyzer, held[addr], irmap[addr]) {
            Err(e) => Err(WorklistError::Malformed(e)),
            Ok(out) => Ok(
                merge_incoming::<A::State>(
                    held,
                    worklist.drop_last(),
                    analyzer.process_branch_spec(irmap, out, cfg.successors(addr), addr),
                ),
            ),
        }
    }
}

/// The states that the engine holds when the worklist is empty, if that
/// happens within `fuel` steps.
pub open spec fn iterate_spec<A: AbstractAnalyzer>(
    analyzer: A,
    cfg: CfgView,
    irmap: Map<u64, SpecBlock>,
    held: Map<u64, <A::State as View>::V>,
    worklist: Seq<u64>,
    fuel: nat,
) -> Result<Map<u64, <A::State as View>::V>, WorklistError>
    decreases fuel,
{
    if worklist.len() == 0 {
        Ok(held)
    } else if fuel == 0 {
        Err(WorklistError::OutOfFuel)
    } else {
        match step_spec(analyzer, cfg, irmap, held, worklist) {
            Err(e) => Err(e),
            Ok((held, worklist)) => iterate_spec(analyzer, cfg, irmap, held, worklist, (fuel - 1) as nat),
        }
    }
}

/// The states that are held for the blocks of a graph, in the order of the
/// blocks.
pub open spec fn collect_spec<V>(blocks: Seq<BasicBlock>, held: Map<u64, V>) -> Seq<(u64, V)>
    decreases blocks.len(),
{
    if blocks.len() == 0 {
        Seq::empty()
    } else {
        let before = collect_spec(blocks.drop_last(), held);
        let addr = blocks.last().start;
        if held.contains_key(addr) {
            before.push((addr, held[addr]))
        } else {
            before
        }
    }
}

/// What the engine hands out: it starts with the state at function entry
/// for the entry block, iterates until the worklist is empty, lists the
/// states of the blocks of the graph, and hands the list out if it solves
/// the dataflow equations.
pub open spec fn run_worklist_spec<A: AbstractAnalyzer>(
    analyzer: A,
    cfg: CfgView,
    irmap: Map<u64, SpecBlock>,
    fuel: nat,
) -> Result<Seq<(u64, <A::State as View>::V)>, WorklistError> {
    match iterate_spec(
        analyzer,
        cfg,
        irmap,
        Map::<u64, <A::State as View>::V>::empty().insert(cfg.entrypoint, analyzer.init_spec()),
        seq![cfg.entrypoint],
        fuel,
    ) {
        Err(e) => Err(e),
        Ok(held) => {
            let result = collect_spec(cfg.blocks, held);
            if is_solution(analyzer, cfg, irmap, result) {
                Ok(result)
            } else {
                Err(WorklistError::NotAFixpoint)
            }
        },
    }
}

/// Once the iteration comes to an end within some number of steps, more
/// steps change nothing.
pub proof fn lemma_more_fuel_same_states<A: AbstractAnalyzer>(
    analyzer: A,
    cfg: CfgView,
    irmap: Map<u64, SpecBlock>,
    held: Map<u64, <A::State as View>::V>,
    worklist: Seq<u64>,
    fuel: nat,
    more: nat,
)
    requires
        fuel <= more,
        iterate_spec(analyzer, cfg, irmap, held, worklist, fuel) != Err::<
            Map<u64, <A::State as View>::V>,
            WorklistError,
        >(WorklistError::OutOfFuel),
    ensures
        iterate_spec(analyzer, cfg, irmap, held, worklist, more) == iterate_spec(
            analyzer,
            cfg,
            irmap,
            held,
            worklist,
            fuel,
        ),
    decreases fuel,
{
    if worklist.len() != 0 && fuel != 0 {
        match step_spec(analyzer, cfg, irmap, held, worklist) {
            Err(_) => {},
            Ok((next_held, next_worklist)) => {
                lemma_more_fuel_same_states(
                    analyzer,
                    cfg,
                    irmap,
                    next_held,
                    next_worklist,
                    (fuel - 1) as nat,
                    (more - 1) as nat,
                );
            },
        }
    }
}

/// Once the engine hands out a result or fails for another reason than the
/// number of steps, it does the same with any greater number of steps.
pub proof fn lemma_more_fuel_same_result<A: AbstractAnalyzer>(
    analyzer: A,
    cfg: CfgView,
    irmap: Map<u64, SpecBlock>,
    fuel: nat,
    more: nat,
)
    requires
        fuel <= more,
        run_worklist_spec(analyzer, cfg, irmap, fuel) != Err::<
            Seq<(u64, <A::State as View>::V)>,
            WorklistError,
        >(WorklistError::OutOfFuel),
    ensures
        run_worklist_spec(analyzer, cfg, irmap, more) == run_worklist_spec(analyzer, cfg, irmap, fuel),
{
    lemma_more_fuel_same_states(
        analyzer,
        cfg,
        irmap,
        Map::<u64, <A::State as View>::V>::empty().insert(cfg.entrypoint, analyzer.init_spec()),
        seq![cfg.entrypoint],
        fuel,
        more,
    );
}

/// Meets the states that flow into blocks into the states that are held.
fn merge<A: AbstractAnalyzer>(
    states: &mut HashMap<u64, A::State>,
    worklist: &mut Vec<u64>,
    incoming: Vec<(u64, A::State)>,
)
    ensures
        (held_view(final(states)@), final(worklist)@) == merge_incoming::<A::State>(
            held_view(old(states)@),
            old(worklist)@,
            states_view(incoming@),
        ),
{
    let mut incoming = incoming;
    let ghost target = merge_incoming::<A::State>(held_view(states@), worklist@, states_view(incoming@));
    while incoming.len() > 0
        invariant
            merge_incoming::<A::State>(held_view(states@), worklist@, states_view(incoming@)) == target,
        decreases incoming.len(),
    {
        let ghost flowing = states_view(incoming@);
        let ghost held = held_view(states@);
        let ghost listed = worklist@;
        let (succ, branch_state) = match incoming.pop() {
            Some(entry) => entry,
            None => { return ; },
        };
        proof {
            assert(flowing.last() == (succ, branch_state@));
            assert(states_view(incoming@) =~= flowing.drop_last());
        }
        let loc = LocIdx { addr: succ, idx: 0 };
        let merged: Option<A::State> = match states.get(&succ) {
            None => Some(branch_state),
            Some(old) => {
                let new = old.meet(&branch_state, &loc);
                if new.same(old) {
                    None
                } else {
                    Some(new)
                }
            },
        };
        match merged {
            None => {},
            Some(new) => {
                states.insert(succ, new);
                worklist.push(succ);
                assert(held_view(states@) =~= held.insert(succ, new@));
            },
        }
    }
}

/// Looks for a solution by iteration: each block that is reached is walked
/// from the state at its start, and what flows out of it is met into the
/// state of each successor, until nothing changes or `fuel` blocks have
/// been walked.
fn iterate<A: AbstractAnalyzer>(cfg: &Cfg, irmap: &IRMap, analyzer: &A, fuel: usize) -> (r: Result<
    HashMap<u64, A::State>,
    WorklistError,
>)
    ensures
        match r {
            Ok(states) => iterate_spec(
                *analyzer,
                cfg@,
                irmap_view(irmap@),
                Map::<u64, <A::State as View>::V>::empty().insert(cfg.entrypoint, analyzer.init_spec()),
                seq![cfg.entrypoint],
                fuel as nat,
            ) == Ok::<Map<u64, <A::State as View>::V>, WorklistError>(held_view(states@)),
            Err(e) => iterate_spec(
                *analyzer,
                cfg@,
                irmap_view(irmap@),
                Map::<u64, <A::State as View>::V>::empty().insert(cfg.entrypoint, analyzer.init_spec()),
                seq![cfg.entrypoint],
                fuel as nat,
            ) == Err::<Map<u64, <A::State as View>::V>, WorklistError>(e),
        },
{
    let mut states: HashMap<u64, A::State> = HashMap::new();
    let mut worklist: Vec<u64> = Vec::new();
    let init = analyzer.init_state();
    let ghost start = Map::<u64, <A::State as View>::V>::empty().insert(cfg.entrypoint, analyzer.init_spec());
    states.insert(cfg.entrypoint, init);
    worklist.push(cfg.entrypoint);
    assert(held_view(states@) =~= start);
    assert(worklist@ =~= seq![cfg.entrypoint]);
    let ghost blocks = irmap_view(irmap@);
    let mut steps: usize = 0;
    while worklist.len() > 0
        invariant
            steps <= fuel,
            blocks == irmap_view(irmap@),
            start == Map::<u64, <A::State as View>::V>::empty().insert(cfg.entrypoint, analyzer.init_spec()),
            iterate_spec(*analyzer, cfg@, blocks, start, seq![cfg.entrypoint], fuel as nat) == iterate_spec(
                *analyzer,
                cfg@,
                blocks,
                held_view(states@),
                worklist@,
                (fuel - steps) as nat,
            ),
        decreases fuel - steps,
    {
        if steps >= fuel {
            return Err(WorklistError::OutOfFuel);
        }
        let ghost listed = worklist@;
        let addr: u64 = match worklist.pop() {
            Some(addr) => addr,
            None => { return Ok(states); },
        };
        assert(worklist@ =~= listed.drop_last());
        let block = match irmap.get(&addr) {
            Some(block) => block,
            None => { return Err(WorklistError::MissingBlock(addr)); },
        };
        assert(blocks[addr] == block_view(block@));
        let out = match states.get(&addr) {
            None => { return Err(WorklistError::NotAFixpoint); },
            Some(in_state) => match analyze_block(analyzer, in_state, block) {
                Ok(out) => out,
                Err(e) => { return Err(WorklistError::Malformed(e)); },
            },
        };
        let succs = successors_of(cfg, addr);
        let incoming = analyzer.process_branch(irmap, &out, &succs, &addr);
        merge::<A>(&mut states, &mut worklist, incoming);
        steps = steps + 1;
    }
    Ok(states)
}

/// Lists the states that are held for the blocks of a graph, in the order
/// of the blocks.
fn collect<L: Semilattice>(blocks: &Vec<BasicBlock>, states: &HashMap<u64, L>) -> (r: Vec<(u64, L)>)
    ensures
        states_view(r@) == collect_spec(blocks@, held_view(states@)),
{
    let mut result: Vec<(u64, L)> = Vec::new();
    let mut i: usize = 0;
    assert(blocks@.take(0) =~= Seq::<BasicBlock>::empty());
    assert(states_view(result@) =~= Seq::<(u64, L::V)>::empty());
    while i < blocks.len()
        invariant
            i <= blocks.len(),
            states_view(result@) == collect_spec(blocks@.take(i as int), held_view(states@)),
        decreases blocks.len() - i,
    {
        let addr: u64 = blocks[i].start;
        proof {
            assert(blocks@.take(i + 1).drop_last() =~= blocks@.take(i as int));
            assert(blocks@.take(i + 1).last() == blocks@[i as int]);
        }
        let ghost before = states_view(result@);
        match states.get(&addr) {
            None => {},
            Some(state) => {
                let copy = state.duplicate();
                result.push((addr, copy));
                assert(states_view(result@) =~= before.push((addr, state@)));
            },
        }
        i = i + 1;
    }
    assert(blocks@.take(blocks.len() as int) =~= blocks@);
    result
}

/// Runs an analysis over a control flow graph.
///
/// The result lists the state at the start of each block of the graph that
/// is reached, in the order of the blocks of the graph. It is handed out
/// only if it solves the dataflow equations.
pub fn run_worklist<A: AbstractAnalyzer>(cfg: &Cfg, irmap: &IRMap, analyzer: &A, fuel: usize) -> (r: Result<
    Vec<(u64, A::State)>,
    WorklistError,
>)
    ensures
        match r {
            Ok(result) => run_worklist_spec(*analyzer, cfg@, irmap_view(irmap@), fuel as nat) == Ok::<
                Seq<(u64, <A::State as View>::V)>,
                WorklistError,
            >(states_view(result@)),
            Err(e) => run_worklist_spec(*analyzer, cfg@, irmap_view(irmap@), fuel as nat) == Err::<
                Seq<(u64, <A::State as View>::V)>,
                WorklistError,
            >(e),
        },
        r is Ok ==> is_solution(*analyzer, cfg@, irmap_view(irmap@), states_view(r->Ok_0@)),
{
    let states = match iterate(cfg, irmap, analyzer, fuel) {
        Ok(states) => states,
        Err(e) => { return Err(e); },
    };
    let result = collect(&cfg.blocks, &states);
    if is_fixpoint(cfg, irmap, analyzer, &result) {
        Ok(result)
    } else {
        Err(WorklistError::NotAFixpoint)
    }
}

} // verus!
