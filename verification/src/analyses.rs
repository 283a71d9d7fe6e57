//! The abstract interpreters and what they share: the interface of an
//! analysis, and the passage of an abstract state through a block.

pub mod call_analyzer;
pub mod heap_analyzer;
pub mod reaching_defs;
pub mod stack_analyzer;
pub mod switch_analyzer;
pub mod worklist;

use crate::ir::types::{
    block_view, stmts_view, Binopcode, ImmType, LocIdx, SpecStmt, Stmt, StmtResult, Unopcode,
    ValSize, Value, X86Regs,
};
use crate::ir::x64::{irmap_view, rsp_value, stack_top_value, IRMap, SpecBlock};
use crate::lattices::{Lattice, Semilattice};
use crate::lattices::state_lattice::StateError;
use vstd::prelude::*;

verus! {

/// An analysis: a lattice of abstract states, the state at function entry,
/// and the effect of each statement on a state.
pub trait AbstractAnalyzer {
    /// The abstract states.
    type State: Lattice;

    /// The content of the state at function entry.
    spec fn init_spec(&self) -> <Self::State as View>::V;

    /// The content of the state behind a statement, given the one before
    /// it. An error marks the code as malformed.
    spec fn aexec_spec(&self, state: <Self::State as View>::V, stmt: SpecStmt, loc: LocIdx) -> Result<
        <Self::State as View>::V,
        StateError,
    >;

    /// The state at function entry.
    fn init_state(&self) -> (r: Self::State)
        ensures
            r@ == self.init_spec(),
    ;

    /// Passes a state through a statement.
    fn aexec(&self, in_state: &mut Self::State, stmt: &Stmt, loc_idx: &LocIdx) -> (r: Result<(), StateError>)
        ensures
            match r {
                Ok(()) => self.aexec_spec(old(in_state)@, stmt@, *loc_idx) == Ok::<
                    <Self::State as View>::V,
                    StateError,
                >(final(in_state)@),
                Err(e) => self.aexec_spec(old(in_state)@, stmt@, *loc_idx) == Err::<
                    <Self::State as View>::V,
                    StateError,
                >(e),
            },
    ;

    /// The content of the state that flows to each successor of a block,
    /// given the state behind the block.
    spec fn process_branch_spec(
        &self,
        irmap: Map<u64, SpecBlock>,
        state: <Self::State as View>::V,
        succ_addrs: Seq<u64>,
        addr: u64,
    ) -> Seq<(u64, <Self::State as View>::V)>;

    /// The state that flows to each successor of the block at `addr`, given
    /// the state behind the block.
    fn process_branch(&self, irmap: &IRMap, in_state: &Self::State, succ_addrs: &Vec<u64>, addr: &u64) -> (r:
        Vec<(u64, Self::State)>)
        ensures
            states_view(r@) == self.process_branch_spec(irmap_view(irmap@), in_state@, succ_addrs@, *addr),
    ;
}

/// The contents of a list of states, each with the address of its block.
pub open spec fn states_view<L: View>(result: Seq<(u64, L)>) -> Seq<(u64, L::V)> {
    result.map_values(|e: (u64, L)| (e.0, e.1@))
}

/// One state for every successor.
pub open spec fn same_to_all<V>(state: V, succ_addrs: Seq<u64>) -> Seq<(u64, V)> {
    Seq::new(succ_addrs.len(), |i: int| (succ_addrs[i], state))
}

/// Hands a copy of a state to each successor.
pub fn copy_to_successors<L: Lattice>(in_state: &L, succ_addrs: &Vec<u64>) -> (r: Vec<(u64, L)>)
    ensures
        states_view(r@) == same_to_all(in_state@, succ_addrs@),
{
    let mut out: Vec<(u64, L)> = Vec::new();
    let mut i: usize = 0;
    while i < succ_addrs.len()
        invariant
            i <= succ_addrs.len(),
            out@.len() == i,
            forall|j: int| 0 <= j < i ==> (#[trigger] out@[j]).0 == succ_addrs@[j] && out@[j].1@ == in_state@,
        decreases succ_addrs.len() - i,
    {
        out.push((succ_addrs[i], in_state.duplicate()));
        i = i + 1;
    }
    assert(states_view(out@) =~= same_to_all(in_state@, succ_addrs@));
    out
}

/// The state behind the statements of one instruction from a position on.
pub open spec fn aexec_stmts_from<A: AbstractAnalyzer>(
    analyzer: A,
    state: <A::State as View>::V,
    addr: u64,
    stmts: Seq<SpecStmt>,
    idx: int,
) -> Result<<A::State as View>::V, StateError>
    decreases stmts.len() - idx,
{
    if idx < 0 || idx >= stmts.len() {
        Ok(state)
    } else {
        match analyzer.aexec_spec(state, stmts[idx], LocIdx { addr, idx: idx as u32 }) {
            Err(e) => Err(e),
            Ok(next) => aexec_stmts_from(analyzer, next, addr, stmts, idx + 1),
        }
    }
}

/// The state behind a block from a position on.
pub open spec fn analyze_block_from<A: AbstractAnalyzer>(
    analyzer: A,
    state: <A::State as View>::V,
    block: Seq<(u64, Seq<SpecStmt>)>,
    pos: int,
) -> Result<<A::State as View>::V, StateError>
    decreases block.len() - pos,
{
    if pos < 0 || pos >= block.len() {
        Ok(state)
    } else {
        match aexec_stmts_from(analyzer, state, block[pos].0, block[pos].1, 0) {
            Err(e) => Err(e),
            Ok(next) => analyze_block_from(analyzer, next, block, pos + 1),
        }
    }
}

/// The state behind a block, given the state before it.
pub open spec fn analyze_block_spec<A: AbstractAnalyzer>(
    analyzer: A,
    state: <A::State as View>::V,
    block: Seq<(u64, Seq<SpecStmt>)>,
) -> Result<<A::State as View>::V, StateError> {
    analyze_block_from(analyzer, state, block, 0)
}

/// What a function that passes a state on returns, as a mathematical
/// value.
pub open spec fn passed<L: View>(r: Result<L, StateError>) -> Result<L::V, StateError> {
    match r {
        Ok(state) => Ok(state@),
        Err(e) => Err(e),
    }
}

/// Passes a state through the statements of one instruction.
pub fn aexec_stmts<A: AbstractAnalyzer>(analyzer: &A, state: A::State, addr: u64, stmts: &Vec<Stmt>) -> (r:
    Result<A::State, StateError>)
    ensures
        passed(r) == aexec_stmts_from(*analyzer, state@, addr, stmts_view(stmts@), 0),
{
    let mut current = state;
    let mut idx: usize = 0;
    let ghost view = stmts_view(stmts@);
    while idx < stmts.len()
        invariant
            idx <= stmts.len(),
            view == stmts_view(stmts@),
            aexec_stmts_from(*analyzer, state@, addr, view, 0) == aexec_stmts_from(
                *analyzer,
                current@,
                addr,
                view,
                idx as int,
            ),
        decreases stmts.len() - idx,
    {
        let loc = LocIdx { addr, idx: #[verifier::truncate] (idx as u32) };
        assert(view[idx as int] == stmts@[idx as int]@);
        match analyzer.aexec(&mut current, &stmts[idx], &loc) {
            Err(e) => { return Err(e); },
            Ok(()) => {},
        }
        idx = idx + 1;
    }
    Ok(current)
}

/// Passes a state through a block.
pub fn analyze_block<A: AbstractAnalyzer>(analyzer: &A, state: &A::State, irblock: &Vec<StmtResult>) -> (r:
    Result<A::State, StateError>)
    ensures
        passed(r) == analyze_block_spec(*analyzer, state@, block_view(irblock@)),
{
    let mut current = state.duplicate();
    let mut pos: usize = 0;
    let ghost view = block_view(irblock@);
    while pos < irblock.len()
        invariant
            pos <= irblock.len(),
            view == block_view(irblock@),
            analyze_block_from(*analyzer, state@, view, 0) == analyze_block_from(
                *analyzer,
                current@,
                view,
                pos as int,
            ),
        decreases irblock.len() - pos,
    {
        assert(view[pos as int] == (irblock@[pos as int].0, stmts_view(irblock@[pos as int].1@)));
        current = match aexec_stmts(analyzer, current, irblock[pos].0, &irblock[pos].1) {
            Err(e) => { return Err(e); },
            Ok(next) => next,
        };
        pos = pos + 1;
    }
    Ok(current)
}

/// The statements of `push reg; pop reg` for a 64-bit register, as the
/// lifter emits them.
pub open spec fn push_pop_stmts(reg: X86Regs) -> Seq<SpecStmt> {
    let value = Value::Reg(reg, ValSize::Size64);
    let eight = Value::Imm(
        ImmType::Signed,
        ValSize::Size64,
        8,
    );
    seq![
        SpecStmt::Binop(
            Binopcode::Sub,
            rsp_value(),
            rsp_value(),
            eight,
        ),
        SpecStmt::Unop(Unopcode::Mov, stack_top_value(), value),
        SpecStmt::Unop(Unopcode::Mov, value, stack_top_value()),
        SpecStmt::Binop(
            Binopcode::Add,
            rsp_value(),
            rsp_value(),
            eight,
        ),
    ]
}

} // verus!
