//! The jump resolver: it reads the jump tables that the switch analysis
//! found from the module image and lists the targets of each indirect jump.

use crate::analyses::{states_view, AbstractAnalyzer};
use crate::analyses::switch_analyzer::{SwitchAnalyzer, SwitchLattice, SwitchState};
use crate::analyses::worklist::{run_worklist, run_worklist_spec, Cfg, CfgView, WorklistError};
use crate::ir::types::{
    block_view, stmts_view, LocIdx, SpecStmt, Stmt, StmtResult, Value, VwMetadata,
};
use crate::ir::x64::{irmap_view, IRMap, SpecBlock};
use crate::lattices::Semilattice;
use crate::lattices::state_lattice::{reg_value, StateError};
use crate::lattices::switch_lattice::{SwitchValue, SwitchValueLattice};
use std::collections::HashMap;
use vstd::prelude::*;
use yaxpeax_core::memory::MemoryRepr;
use yaxpeax_core::memory::repr::process::ModuleData;

verus! {

broadcast use vstd::std_specs::hash::group_hash_axioms;

/// Why the jumps of a function cannot be resolved.
#[derive(Clone, Copy, Debug, PartialEq, Eq, Structural)]
pub enum ResolveError {
    /// A jump through memory.
    IllegalJump,
    /// A jump through a register that is not known to hold the target of
    /// a jump table.
    NotAJumpTarget,
    /// A jump table that reaches past the mapped bytes of the image.
    UnmappedTable,
    /// A block of the analysis result that was not lifted.
    MissingBlock,
    /// The code is malformed.
    Analysis(StateError),
}

/// A loaded module image of the `yaxpeax_core` crate.
#[verifier::external_type_specification]
#[verifier::external_body]
pub struct ExModuleData(ModuleData);

/// The bytes that a module image maps, by their addresses.
pub uninterp spec fn module_bytes(program: ModuleData) -> Map<u64, u8>;

/// Reads one byte of the image with `MemoryRepr::read` of `yaxpeax_core`:
/// the byte at the address in the first segment that holds the address,
/// `None` where no segment holds it.
#[verifier::external_body]
fn read_byte(program: &ModuleData, addr: u64) -> (r: Option<u8>)
    ensures
        r == if module_bytes(*program).contains_key(addr) {
            Some(module_bytes(*program)[addr])
        } else {
            None::<u8>
        },
{
    <ModuleData as MemoryRepr<yaxpeax_x86::long_mode::Arch>>::read(program, addr)
}

/// The signed 32-bit number that four bytes hold in little-endian order.
pub open spec fn le_i32(b0: u8, b1: u8, b2: u8, b3: u8) -> int {
    let unsigned = b0 + b1 * 0x100 + b2 * 0x1_0000 + b3 * 0x100_0000;
    if unsigned >= 0x8000_0000 {
        unsigned - 0x1_0000_0000
    } else {
        unsigned
    }
}

/// The jump table entry at an address of the image, where all four of its
/// bytes are mapped.
pub open spec fn table_entry(image: Map<u64, u8>, addr: int) -> Option<int> {
    if 0 <= addr && addr + 3 <= u64::MAX && image.contains_key(addr as u64) && image.contains_key(
        (addr + 1) as u64,
    ) && image.contains_key((addr + 2) as u64) && image.contains_key((addr + 3) as u64) {
        Some(
            le_i32(
                image[addr as u64],
                image[(addr + 1) as u64],
                image[(addr + 2) as u64],
                image[(addr + 3) as u64],
            ),
        )
    } else {
        None
    }
}

/// The targets of a jump through the table at `base` with `bound` entries:
/// entry `i` lies at `base + 4 * i`, and its target is `base` plus the
/// entry. `None` where an entry is not mapped.
pub open spec fn jump_targets_spec(image: Map<u64, u8>, base: u32, bound: u32) -> Option<Seq<i64>> {
    if forall|i: int| 0 <= i < bound ==> (#[trigger] table_entry(image, base + 4 * i)) is Some {
        Some(Seq::new(bound as nat, |i: int| (base + table_entry(image, base + 4 * i)->Some_0) as i64))
    } else {
        None
    }
}

/// Reads the jump table entry at an address of the image.
pub fn load_target(program: &ModuleData, addr: u64) -> (r: Option<i64>)
    ensures
        match r {
            Some(entry) => table_entry(module_bytes(*program), addr as int) == Some(entry as int),
            None => table_entry(module_bytes(*program), addr as int) is None,
        },
{
    if addr > u64::MAX - 3 {
        return None;
    }
    let b0: u8 = match read_byte(program, addr) {
        Some(b) => b,
        None => { return None; },
    };
    let b1: u8 = match read_byte(program, addr + 1) {
        Some(b) => b,
        None => { return None; },
    };
    let b2: u8 = match read_byte(program, addr + 2) {
        Some(b) => b,
        None => { return None; },
    };
    let b3: u8 = match read_byte(program, addr + 3) {
        Some(b) => b,
        None => { return None; },
    };
    let unsigned: i64 = b0 as i64 + b1 as i64 * 0x100 + b2 as i64 * 0x1_0000 + b3 as i64 * 0x100_0000;
    if unsigned >= 0x8000_0000 {
        Some(unsigned - 0x1_0000_0000)
    } else {
        Some(unsigned)
    }
}

/// Reads the targets of a jump through a jump table from the image.
pub fn extract_jmp_targets(program: &ModuleData, aval: &SwitchValueLattice) -> (r: Result<
    Vec<i64>,
    ResolveError,
>)
    ensures
        match aval.v {
            Some(SwitchValue::JmpTarget(base, bound)) => match jump_targets_spec(
                module_bytes(*program),
                base,
                bound,
            ) {
                Some(targets) => r is Ok && r->Ok_0@ == targets,
                None => r == Err::<Vec<i64>, ResolveError>(ResolveError::UnmappedTable),
            },
            _ => r == Err::<Vec<i64>, ResolveError>(ResolveError::NotAJumpTarget),
        },
{
    let mut targets: Vec<i64> = Vec::new();
    match aval.v {
        Some(SwitchValue::JmpTarget(base, upper_bound)) => {
            let ghost image = module_bytes(*program);
            let mut idx: u32 = 0;
            while idx < upper_bound
                invariant
                    idx <= upper_bound,
                    image == module_bytes(*program),
                    aval.v == Some(SwitchValue::JmpTarget(base, upper_bound)),
                    targets@.len() == idx,
                    forall|i: int| 0 <= i < idx ==> (#[trigger] table_entry(image, base + 4 * i)) is Some,
                    forall|i: int|
                        0 <= i < idx ==> #[trigger] targets@[i] == (base + table_entry(
                            image,
                            base + 4 * i,
                        )->Some_0) as i64,
                decreases upper_bound - idx,
            {
                let addr: u64 = base as u64 + idx as u64 * 4;
                match load_target(program, addr) {
                    None => {
                        assert(table_entry(image, base + 4 * idx) is None);
                        return Err(ResolveError::UnmappedTable);
                    },
                    Some(entry) => {
                        targets.push(base as i64 + entry);
                    },
                }
                idx = idx + 1;
            }
            assert(targets@ =~= jump_targets_spec(image, base, upper_bound)->Some_0);
            Ok(targets)
        },
        _ => Err(ResolveError::NotAJumpTarget),
    }
}

/// The targets of a statement under the state before it: a jump through a
/// register must go through a jump table, a jump through memory is never
/// accepted, and any other statement has no targets to resolve.
pub open spec fn branch_targets_spec(image: Map<u64, u8>, state: SwitchState, stmt: SpecStmt) -> Result<
    Option<Seq<i64>>,
    ResolveError,
> {
    match stmt {
        SpecStmt::Branch(_, Value::Reg(reg, size)) => match reg_value::<SwitchValueLattice>(state, reg, size) {
            Some(SwitchValue::JmpTarget(base, bound)) => match jump_targets_spec(image, base, bound) {
                Some(targets) => Ok(Some(targets)),
                None => Err(ResolveError::UnmappedTable),
            },
            _ => Err(ResolveError::NotAJumpTarget),
        },
        SpecStmt::Branch(_, Value::Mem(_, _)) => Err(ResolveError::IllegalJump),
        _ => Ok(None),
    }
}

/// The targets found so far, by the address of the jump.
pub type Targets = Map<u64, Seq<i64>>;

/// The state and the targets behind the statements of one instruction from
/// a position on.
pub open spec fn resolve_stmts_from<A: AbstractAnalyzer<State = SwitchLattice>>(
    analyzer: A,
    image: Map<u64, u8>,
    state: SwitchState,
    found: Targets,
    addr: u64,
    stmts: Seq<SpecStmt>,
    idx: int,
) -> Result<(SwitchState, Targets), ResolveError>
    decreases stmts.len() - idx,
{
    if idx < 0 || idx >= stmts.len() {
        Ok((state, found))
    } else {
        match branch_targets_spec(image, state, stmts[idx]) {
            Err(e) => Err(e),
            Ok(targets) => {
                let found = match targets {
                    Some(targets) => found.insert(addr, targets),
                    None => found,
                };
                match analyzer.aexec_spec(state, stmts[idx], LocIdx { addr, idx: idx as u32 }) {
                    Err(e) => Err(ResolveError::Analysis(e)),
                    Ok(next) => resolve_stmts_from(analyzer, image, next, found, addr, stmts, idx + 1),
                }
            },
        }
    }
}

/// The state and the targets behind a block from a position on.
pub open spec fn resolve_block_from<A: AbstractAnalyzer<State = SwitchLattice>>(
    analyzer: A,
    image: Map<u64, u8>,
    state: SwitchState,
    found: Targets,
    block: SpecBlock,
    pos: int,
) -> Result<(SwitchState, Targets), ResolveError>
    decreases block.len() - pos,
{
    if pos < 0 || pos >= block.len() {
        Ok((state, found))
    } else {
        match resolve_stmts_from(analyzer, image, state, found, block[pos].0, block[pos].1, 0) {
            Err(e) => Err(e),
            Ok((next, found)) => resolve_block_from(analyzer, image, next, found, block, pos + 1),
        }
    }
}

/// The targets of every jump through a register in the blocks of an
/// analysis result from a position on. Each block is walked from the state
/// that the analysis found at its start.
pub open spec fn resolve_from<A: AbstractAnalyzer<State = SwitchLattice>>(
    analyzer: A,
    image: Map<u64, u8>,
    result: Seq<(u64, SwitchState)>,
    irmap: Map<u64, SpecBlock>,
    found: Targets,
    i: int,
) -> Result<Targets, ResolveError>
    decreases result.len() - i,
{
    if i < 0 || i >= result.len() {
        Ok(found)
    } else if !irmap.contains_key(result[i].0) {
        Err(ResolveError::MissingBlock)
    } else {
        match resolve_block_from(analyzer, image, result[i].1, found, irmap[result[i].0], 0) {
            Err(e) => Err(e),
            Ok((_, found)) => resolve_from(analyzer, image, result, irmap, found, i + 1),
        }
    }
}

/// The targets of every jump through a register in the blocks of an
/// analysis result.
pub open spec fn resolve_jumps_spec<A: AbstractAnalyzer<State = SwitchLattice>>(
    analyzer: A,
    image: Map<u64, u8>,
    result: Seq<(u64, SwitchState)>,
    irmap: Map<u64, SpecBlock>,
) -> Result<Targets, ResolveError> {
    resolve_from(analyzer, image, result, irmap, Map::empty(), 0)
}

/// The contents of an analysis result.
pub open spec fn result_view(result: Seq<(u64, SwitchLattice)>) -> Seq<(u64, SwitchState)> {
    result.map_values(|e: (u64, SwitchLattice)| (e.0, e.1@))
}

/// The contents of a map of targets.
pub open spec fn targets_view(targets: Map<u64, Vec<i64>>) -> Targets {
    targets.map_values(|t: Vec<i64>| t@)
}

/// What a function that walks statements returns, as a mathematical value.
pub open spec fn walked(r: Result<SwitchLattice, ResolveError>, found: Map<u64, Vec<i64>>) -> Result<
    (SwitchState, Targets),
    ResolveError,
> {
    match r {
        Ok(state) => Ok((state@, targets_view(found))),
        Err(e) => Err(e),
    }
}

/// Walks the statements of one instruction: resolves each jump under the
/// state before it, then passes the state through the statement.
pub fn resolve_stmts<A: AbstractAnalyzer<State = SwitchLattice>>(
    analyzer: &A,
    program: &ModuleData,
    state: SwitchLattice,
    found: &mut HashMap<u64, Vec<i64>>,
    addr: u64,
    stmts: &Vec<Stmt>,
) -> (r: Result<SwitchLattice, ResolveError>)
    ensures
        walked(r, final(found)@) == resolve_stmts_from(
            *analyzer,
            module_bytes(*program),
            state@,
            targets_view(old(found)@),
            addr,
            stmts_view(stmts@),
            0,
        ),
{
    let ghost image = module_bytes(*program);
    let ghost view = stmts_view(stmts@);
    let ghost start = state@;
    let ghost found_at_start = targets_view(found@);
    let mut current = state;
    let mut idx: usize = 0;
    while idx < stmts.len()
        invariant
            idx <= stmts.len(),
            image == module_bytes(*program),
            view == stmts_view(stmts@),
            start == state@,
            found_at_start == targets_view(old(found)@),
            resolve_stmts_from(*analyzer, image, start, found_at_start, addr, view, 0) == resolve_stmts_from(
                *analyzer,
                image,
                current@,
                targets_view(found@),
                addr,
                view,
                idx as int,
            ),
        decreases stmts.len() - idx,
    {
        assert(view[idx as int] == stmts@[idx as int]@);
        match &stmts[idx] {
            Stmt::Branch(_, Value::Reg(regnum, regsize)) => {
                let aval = current.get_reg(*regnum, *regsize);
                let targets = match extract_jmp_targets(program, &aval) {
                    Ok(targets) => targets,
                    Err(e) => { return Err(e); },
                };
                let ghost before = found@;
                found.insert(addr, targets);
                assert(targets_view(found@) =~= targets_view(before).insert(addr, targets@));
            },
            Stmt::Branch(_, Value::Mem(_, _)) => {
                return Err(ResolveError::IllegalJump);
            },
            _ => {},
        }
        let loc = LocIdx { addr, idx: #[verifier::truncate] (idx as u32) };
        match analyzer.aexec(&mut current, &stmts[idx], &loc) {
            Err(e) => { return Err(ResolveError::Analysis(e)); },
            Ok(()) => {},
        }
        idx = idx + 1;
    }
    Ok(current)
}

/// Walks a block from the state at its start.
pub fn resolve_block<A: AbstractAnalyzer<State = SwitchLattice>>(
    analyzer: &A,
    program: &ModuleData,
    state: SwitchLattice,
    found: &mut HashMap<u64, Vec<i64>>,
    block: &Vec<StmtResult>,
) -> (r: Result<SwitchLattice, ResolveError>)
    ensures
        walked(r, final(found)@) == resolve_block_from(
            *analyzer,
            module_bytes(*program),
            state@,
            targets_view(old(found)@),
            block_view(block@),
            0,
        ),
{
    let ghost image = module_bytes(*program);
    let ghost view = block_view(block@);
    let ghost start = state@;
    let ghost found_at_start = targets_view(found@);
    let mut current = state;
    let mut pos: usize = 0;
    while pos < block.len()
        invariant
            pos <= block.len(),
            image == module_bytes(*program),
            view == block_view(block@),
            start == state@,
            found_at_start == targets_view(old(found)@),
            resolve_block_from(*analyzer, image, start, found_at_start, view, 0) == resolve_block_from(
                *analyzer,
                image,
                current@,
                targets_view(found@),
                view,
                pos as int,
            ),
        decreases block.len() - pos,
    {
        assert(view[pos as int] == (block@[pos as int].0, stmts_view(block@[pos as int].1@)));
        current = match resolve_stmts(analyzer, program, current, found, block[pos].0, &block[pos].1) {
            Err(e) => { return Err(e); },
            Ok(next) => next,
        };
        pos = pos + 1;
    }
    Ok(current)
}

/// Lists the targets of every jump through a register, by the address of
/// the jump.
///
/// Fails on a jump through memory, on a jump through a register that does
/// not hold the target of a jump table, and on a jump table that is not
/// mapped.
pub fn resolve_jumps<A: AbstractAnalyzer<State = SwitchLattice>>(
    program: &ModuleData,
    result: &Vec<(u64, SwitchLattice)>,
    irmap: &IRMap,
    analyzer: &A,
) -> (r: Result<HashMap<u64, Vec<i64>>, ResolveError>)
    ensures
        match r {
            Ok(targets) => resolve_jumps_spec(
                *analyzer,
                module_bytes(*program),
                result_view(result@),
                irmap_view(irmap@),
            ) == Ok::<Targets, ResolveError>(targets_view(targets@)),
            Err(e) => resolve_jumps_spec(
                *analyzer,
                module_bytes(*program),
                result_view(result@),
                irmap_view(irmap@),
            ) == Err::<Targets, ResolveError>(e),
        },
{
    let mut switch_targets: HashMap<u64, Vec<i64>> = HashMap::new();
    let ghost image = module_bytes(*program);
    let ghost results = result_view(result@);
    let ghost blocks = irmap_view(irmap@);
    assert(targets_view(switch_targets@) =~= Map::<u64, Seq<i64>>::empty());
    let mut i: usize = 0;
    while i < result.len()
        invariant
            i <= result.len(),
            image == module_bytes(*program),
            results == result_view(result@),
            blocks == irmap_view(irmap@),
            resolve_jumps_spec(*analyzer, image, results, blocks) == resolve_from(
                *analyzer,
                image,
                results,
                blocks,
                targets_view(switch_targets@),
                i as int,
            ),
        decreases result.len() - i,
    {
        let block_addr: u64 = result[i].0;
        assert(results[i as int] == (result@[i as int].0, result@[i as int].1@));
        let block = match irmap.get(&block_addr) {
            Some(block) => block,
            None => { return Err(ResolveError::MissingBlock); },
        };
        assert(blocks[block_addr] == block_view(block@));
        let state = result[i].1.duplicate();
        match resolve_block(analyzer, program, state, &mut switch_targets, block) {
            Err(e) => { return Err(e); },
            Ok(_) => {},
        }
        i = i + 1;
    }
    Ok(switch_targets)
}

/// A resolver for the jumps of one function.
pub struct JumpResolver<'a, A> {
    pub irmap: &'a IRMap,
    pub analyzer: &'a A,
}

impl<'a, A: AbstractAnalyzer<State = SwitchLattice>> JumpResolver<'a, A> {
    /// Lists the targets of every jump through a register.
    pub fn resolve(&self, program: &ModuleData, result: &Vec<(u64, SwitchLattice)>) -> (r: Result<
        HashMap<u64, Vec<i64>>,
        ResolveError,
    >)
        ensures
            match r {
                Ok(targets) => resolve_jumps_spec(
                    *self.analyzer,
                    module_bytes(*program),
                    result_view(result@),
                    irmap_view(self.irmap@),
                ) == Ok::<Targets, ResolveError>(targets_view(targets@)),
                Err(e) => resolve_jumps_spec(
                    *self.analyzer,
                    module_bytes(*program),
                    result_view(result@),
                    irmap_view(self.irmap@),
                ) == Err::<Targets, ResolveError>(e),
            },
    {
        resolve_jumps(program, result, self.irmap, self.analyzer)
    }
}

/// A jump through memory is rejected whatever the abstract state holds.
pub proof fn lemma_jump_through_memory_is_rejected<A: AbstractAnalyzer<State = SwitchLattice>>(
    analyzer: A,
    image: Map<u64, u8>,
    state: SwitchState,
    found: Targets,
    addr: u64,
    stmts: Seq<SpecStmt>,
    idx: int,
)
    requires
        0 <= idx < stmts.len(),
        stmts[idx] is Branch,
        stmts[idx]->Branch_1 is Mem,
    ensures
        resolve_stmts_from(analyzer, image, state, found, addr, stmts, idx) == Err::<
            (SwitchState, Targets),
            ResolveError,
        >(ResolveError::IllegalJump),
{
}

/// Why the jumps of a function cannot be listed.
#[derive(Clone, Copy, Debug, PartialEq, Eq, Structural)]
pub enum SwitchError {
    /// The switch analysis has no solution.
    NoSolution(WorklistError),
    /// A jump cannot be resolved under the solution.
    Unresolved(ResolveError),
}

/// The targets of every jump through a register of a function, under the
/// solution of the switch analysis.
pub open spec fn resolve_switches_spec(
    image: Map<u64, u8>,
    cfg: CfgView,
    irmap: Map<u64, SpecBlock>,
    metadata: VwMetadata,
    fuel: nat,
) -> Result<Targets, SwitchError> {
    let analyzer = SwitchAnalyzer { metadata };
    match run_worklist_spec(analyzer, cfg, irmap, fuel) {
        Err(e) => Err(SwitchError::NoSolution(e)),
        Ok(result) => match resolve_jumps_spec(analyzer, image, result, irmap) {
            Err(e) => Err(SwitchError::Unresolved(e)),
            Ok(targets) => Ok(targets),
        },
    }
}

/// Runs the switch analysis over a function and lists the targets of every
/// jump through a register, by the address of the jump.
pub fn resolve_switches(
    program: &ModuleData,
    cfg: &Cfg,
    irmap: &IRMap,
    metadata: &VwMetadata,
    fuel: usize,
) -> (r: Result<HashMap<u64, Vec<i64>>, SwitchError>)
    ensures
        match r {
            Ok(targets) => resolve_switches_spec(
                module_bytes(*program),
                cfg@,
                irmap_view(irmap@),
                *metadata,
                fuel as nat,
            ) == Ok::<Targets, SwitchError>(targets_view(targets@)),
            Err(e) => resolve_switches_spec(
                module_bytes(*program),
                cfg@,
                irmap_view(irmap@),
                *metadata,
                fuel as nat,
            ) == Err::<Targets, SwitchError>(e),
        },
{
    let analyzer = SwitchAnalyzer { metadata: *metadata };
    let result = match run_worklist(cfg, irmap, &analyzer, fuel) {
        Ok(result) => result,
        Err(e) => { return Err(SwitchError::NoSolution(e)); },
    };
    assert(result_view(result@) =~= states_view(result@));
    match resolve_jumps(program, &result, irmap, &analyzer) {
        Ok(targets) => Ok(targets),
        Err(e) => Err(SwitchError::Unresolved(e)),
    }
}

} // verus!
