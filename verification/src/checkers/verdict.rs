//! The verdict on one function: it is accepted if each of the three
//! analyses has a solution and each of the three checkers finds every
//! statement safe.

use crate::analyses::call_analyzer::CallAnalyzer;
use crate::analyses::heap_analyzer::HeapAnalyzer;
use crate::analyses::stack_analyzer::StackAnalyzer;
use crate::analyses::worklist::{run_worklist, run_worklist_spec, Cfg, CfgView, WorklistError};
use crate::checkers::{accepted, check, Checker};
use crate::checkers::call_checker::CallChecker;
use crate::checkers::heap_checker::HeapChecker;
use crate::checkers::stack_checker::StackChecker;
use crate::ir::types::VwMetadata;
use crate::ir::x64::{irmap_view, IRMap, SpecBlock};
use vstd::prelude::*;

verus! {

/// The three properties that are checked.
#[derive(Clone, Copy, Debug, PartialEq, Eq, Structural)]
pub enum Property {
    Stack,
    Heap,
    Call,
}

/// What is decided of a function.
#[derive(Clone, Copy, Debug, PartialEq, Eq, Structural)]
pub enum Verdict {
    /// Every statement is safe.
    Accepted,
    /// The analysis of a property has no solution to judge the function
    /// by.
    NoSolution(Property, WorklistError),
    /// A statement is not safe as far as a property goes.
    Unsafe(Property),
}

/// What is decided of a function as far as one property goes: nothing if
/// the analysis has a solution under which the checker finds every
/// statement safe.
pub open spec fn property_verdict<C: Checker>(
    checker: C,
    analyzer: C::Analyzer,
    property: Property,
    cfg: CfgView,
    irmap: Map<u64, SpecBlock>,
    fuel: nat,
) -> Option<Verdict> {
    match run_worklist_spec(analyzer, cfg, irmap, fuel) {
        Err(e) => Some(Verdict::NoSolution(property, e)),
        Ok(result) => if accepted(checker, analyzer, result, irmap) {
            None
        } else {
            Some(Verdict::Unsafe(property))
        },
    }
}

/// What is decided of a function whose code lies within a module at
/// `[code_start, code_end)`: the first objection of the stack, the heap
/// and the call property, in this order, or that it is accepted.
pub open spec fn verdict_spec(
    cfg: CfgView,
    irmap: Map<u64, SpecBlock>,
    metadata: VwMetadata,
    code_start: u64,
    code_end: u64,
    fuel: nat,
) -> Verdict {
    let stack = property_verdict(StackChecker {  }, StackAnalyzer {  }, Property::Stack, cfg, irmap, fuel);
    let heap = property_verdict(HeapChecker {  }, HeapAnalyzer { metadata }, Property::Heap, cfg, irmap, fuel);
    let call = property_verdict(
        CallChecker { code_start, code_end },
        CallAnalyzer { metadata },
        Property::Call,
        cfg,
        irmap,
        fuel,
    );
    if stack is Some {
        stack->Some_0
    } else if heap is Some {
        heap->Some_0
    } else if call is Some {
        call->Some_0
    } else {
        Verdict::Accepted
    }
}

/// Judges a function as far as one property goes.
pub fn check_property<C: Checker>(
    checker: &C,
    analyzer: &C::Analyzer,
    property: Property,
    cfg: &Cfg,
    irmap: &IRMap,
    fuel: usize,
) -> (r: Option<Verdict>)
    ensures
        r == property_verdict(*checker, *analyzer, property, cfg@, irmap_view(irmap@), fuel as nat),
{
    match run_worklist(cfg, irmap, analyzer, fuel) {
        Err(e) => Some(Verdict::NoSolution(property, e)),
        Ok(result) => {
            if check(checker, analyzer, &result, irmap) {
                None
            } else {
                Some(Verdict::Unsafe(property))
            }
        },
    }
}

/// Judges a function: it is accepted if and only if its stack, heap and
/// call analyses each have a solution under which every statement is safe.
pub fn check_function(
    cfg: &Cfg,
    irmap: &IRMap,
    metadata: &VwMetadata,
    code_start: u64,
    code_end: u64,
    fuel: usize,
) -> (r: Verdict)
    ensures
        r == verdict_spec(cfg@, irmap_view(irmap@), *metadata, code_start, code_end, fuel as nat),
{
    let stack_analyzer = StackAnalyzer {  };
    match check_property(&StackChecker {  }, &stack_analyzer, Property::Stack, cfg, irmap, fuel) {
        Some(verdict) => { return verdict; },
        None => {},
    }
    let heap_analyzer = HeapAnalyzer { metadata: *metadata };
    match check_property(&HeapChecker {  }, &heap_analyzer, Property::Heap, cfg, irmap, fuel) {
        Some(verdict) => { return verdict; },
        None => {},
    }
    let call_analyzer = CallAnalyzer { metadata: *metadata };
    let call_checker = CallChecker { code_start, code_end };
    match check_property(&call_checker, &call_analyzer, Property::Call, cfg, irmap, fuel) {
        Some(verdict) => verdict,
        None => Verdict::Accepted,
    }
}

} // verus!
