//! What is decided from the results of the analyses: the targets of jumps
//! through jump tables, and whether every statement is safe.

pub mod call_checker;
pub mod heap_checker;
pub mod jump_resolver;
pub mod stack_checker;
pub mod verdict;

use crate::analyses::{states_view, AbstractAnalyzer};
use crate::ir::types::{block_view, stmts_view, LocIdx, SpecStmt, Stmt, StmtResult};
use crate::ir::x64::{irmap_view, IRMap, SpecBlock};
use crate::lattices::Semilattice;
use vstd::prelude::*;

verus! {

broadcast use vstd::std_specs::hash::group_hash_axioms;

/// A safety property of statements, judged under the abstract state before
/// each statement.
pub trait Checker {
    /// The analysis whose states the property is judged under.
    type Analyzer: AbstractAnalyzer;

    /// Whether a statement is safe under the state before it.
    spec fn check_statement_spec(
        &self,
        state: <<Self::Analyzer as AbstractAnalyzer>::State as View>::V,
        stmt: SpecStmt,
        loc: LocIdx,
    ) -> bool;

    /// Whether a statement is safe under the state before it.
    fn check_statement(
        &self,
        state: &<Self::Analyzer as AbstractAnalyzer>::State,
        stmt: &Stmt,
        loc_idx: &LocIdx,
    ) -> (r: bool)
        ensures
            r == self.check_statement_spec(state@, stmt@, *loc_idx),
    ;
}

/// The state behind the statements of one instruction from a position on,
/// if each of them is safe and none is malformed.
pub open spec fn checked_stmts_from<C: Checker>(
    checker: C,
    analyzer: C::Analyzer,
    state: <<C::Analyzer as AbstractAnalyzer>::State as View>::V,
    addr: u64,
    stmts: Seq<SpecStmt>,
    idx: int,
) -> Option<<<C::Analyzer as AbstractAnalyzer>::State as View>::V>
    decreases stmts.len() - idx,
{
    if idx < 0 || idx >= stmts.len() {
        Some(state)
    } else {
        let loc = LocIdx { addr, idx: #[verifier::truncate] (idx as u32) };
        if !checker.check_statement_spec(state, stmts[idx], loc) {
            None
        } else {
            match analyzer.aexec_spec(state, stmts[idx], loc) {
                Err(_) => None,
                Ok(next) => checked_stmts_from(checker, analyzer, next, addr, stmts, idx + 1),
            }
        }
    }
}

/// The state behind a block from a position on, if each statement is safe
/// and none is malformed.
pub open spec fn checked_block_from<C: Checker>(
    checker: C,
    analyzer: C::Analyzer,
    state: <<C::Analyzer as AbstractAnalyzer>::State as View>::V,
    block: SpecBlock,
    pos: int,
) -> Option<<<C::Analyzer as AbstractAnalyzer>::State as View>::V>
    decreases block.len() - pos,
{
    if pos < 0 || pos >= block.len() {
        Some(state)
    } else {
        match checked_stmts_from(checker, analyzer, state, block[pos].0, block[pos].1, 0) {
            None => None,
            Some(next) => checked_block_from(checker, analyzer, next, block, pos + 1),
        }
    }
}

/// Whether a function is accepted: every block of the analysis result was
/// lifted, and walking each block from the state at its start finds every
/// statement safe.
pub open spec fn accepted<C: Checker>(
    checker: C,
    analyzer: C::Analyzer,
    result: Seq<(u64, <<C::Analyzer as AbstractAnalyzer>::State as View>::V)>,
    irmap: Map<u64, SpecBlock>,
) -> bool {
    forall|i: int|
        0 <= i < result.len() ==> irmap.contains_key((#[trigger] result[i]).0) && checked_block_from(
            checker,
            analyzer,
            result[i].1,
            irmap[result[i].0],
            0,
        ) is Some
}

fn check_stmts<C: Checker>(
    checker: &C,
    analyzer: &C::Analyzer,
    state: <C::Analyzer as AbstractAnalyzer>::State,
    addr: u64,
    stmts: &Vec<Stmt>,
) -> (r: Option<<C::Analyzer as AbstractAnalyzer>::State>)
    ensures
        match r {
            Some(next) => checked_stmts_from(
                *checker,
                *analyzer,
                state@,
                addr,
                stmts_view(stmts@),
                0,
            ) == Some(next@),
            None => checked_stmts_from(*checker, *analyzer, state@, addr, stmts_view(stmts@), 0)
                is None,
        },
{
    let ghost view = stmts_view(stmts@);
    let mut current = state;
    let mut idx: usize = 0;
    while idx < stmts.len()
        invariant
            idx <= stmts.len(),
            view == stmts_view(stmts@),
            checked_stmts_from(*checker, *analyzer, state@, addr, view, 0) == checked_stmts_from(
                *checker,
                *analyzer,
                current@,
                addr,
                view,
                idx as int,
            ),
        decreases stmts.len() - idx,
    {
        assert(view[idx as int] == stmts@[idx as int]@);
        let loc = LocIdx { addr, idx: #[verifier::truncate] (idx as u32) };
        if !checker.check_statement(&current, &stmts[idx], &loc) {
            return None;
        }
        match analyzer.aexec(&mut current, &stmts[idx], &loc) {
            Err(_) => { return None; },
            Ok(()) => {},
        }
        idx = idx + 1;
    }
    Some(current)
}

fn check_block<C: Checker>(
    checker: &C,
    analyzer: &C::Analyzer,
    state: &<C::Analyzer as AbstractAnalyzer>::State,
    block: &Vec<StmtResult>,
) -> (r: bool)
    ensures
        r == checked_block_from(*checker, *analyzer, state@, block_view(block@), 0) is Some,
{
    let ghost view = block_view(block@);
    let mut current = state.duplicate();
    let mut pos: usize = 0;
    while pos < block.len()
        invariant
            pos <= block.len(),
            view == block_view(block@),
            checked_block_from(*checker, *analyzer, state@, view, 0) == checked_block_from(
                *checker,
                *analyzer,
                current@,
                view,
                pos as int,
            ),
        decreases block.len() - pos,
    {
        assert(view[pos as int] == (block@[pos as int].0, stmts_view(block@[pos as int].1@)));
        current = match check_stmts(checker, analyzer, current, block[pos].0, &block[pos].1) {
            None => { return false; },
            Some(next) => next,
        };
        pos = pos + 1;
    }
    true
}

/// Decides whether a function is accepted.
pub fn check<C: Checker>(
    checker: &C,
    analyzer: &C::Analyzer,
    result: &Vec<(u64, <C::Analyzer as AbstractAnalyzer>::State)>,
    irmap: &IRMap,
) -> (r: bool)
    ensures
        r == accepted(*checker, *analyzer, states_view(result@), irmap_view(irmap@)),
{
    let ghost results = states_view(result@);
    let ghost blocks = irmap_view(irmap@);
    let mut i: usize = 0;
    while i < result.len()
        invariant
            i <= result.len(),
            results == states_view(result@),
            blocks == irmap_view(irmap@),
            forall|j: int|
                0 <= j < i ==> blocks.contains_key((#[trigger] results[j]).0) && checked_block_from(
                    *checker,
                    *analyzer,
                    results[j].1,
                    blocks[results[j].0],
                    0,
                ) is Some,
        decreases result.len() - i,
    {
        assert(results[i as int] == (result@[i as int].0, result@[i as int].1@));
        let block = match irmap.get(&result[i].0) {
            Some(block) => block,
            None => { return false; },
        };
        assert(blocks[result@[i as int].0] == block_view(block@));
        if !check_block(checker, analyzer, &result[i].1, block) {
            return false;
        }
        i = i + 1;
    }
    true
}

} // verus!
