//! The abstract state of the analyses that track registers and stack
//! slots: the displacement of the stack pointer since function entry, and
//! an abstract value for each register and stack slot that has one.

use crate::ir::types::{
    lemma_reg_index_roundtrip, Binopcode, LocIdx, NUM_REGS, ValSize, Value, X86Regs,
};
use crate::ir::utils::{
    extract_stack_offset, get_imm_offset, imm_offset_spec, is_partial_rsp, is_partial_rsp_spec,
    is_rsp, is_rsp_spec, stack_offset_spec,
};
use crate::lattices::{Lattice, Semilattice};
use crate::lattices::slot_map::{
    distinct_keys, entries_map, key_index, lemma_empty, lemma_entry_is_binding, lemma_prefix,
    lemma_push, lookup, put, remove_key, Entries,
};
pub use crate::lattices::slot_map::{SlotView, VarIndex, VarSlot};
use std::cmp::Ordering;
use vstd::prelude::*;

verus! {

/// Why an operation on the abstract state is refused. Each of these marks
/// the code under analysis as malformed.
#[derive(Clone, Copy, Debug, PartialEq, Eq, Structural)]
pub enum StateError {
    /// The stack pointer or a stack access is not 4-byte aligned.
    MisalignedStack,
    /// A store to the stack of more than 8 bytes.
    StoreTooLarge,
    /// A load from the stack of a width other than 4 or 8 bytes.
    LoadSize,
    /// A register number past the last register.
    UnknownRegister,
    /// A write to an immediate.
    WriteToImmediate,
    /// A write to a constant of the image.
    WriteToConstant,
    /// A write to the stack pointer other than adding or subtracting a
    /// constant.
    IllegalRspWrite,
    /// A stack offset that does not fit in 64 bits.
    OffsetOverflow,
}

/// The content of a [`VariableState`].
#[verifier::ext_equal]
pub struct StateView<V> {
    /// Displacement of the stack pointer since function entry, in bytes.
    pub stack_offset: i64,
    /// The variables that have a value. A variable without one holds the
    /// least element.
    pub slots: Map<VarIndex, SlotView<V>>,
}

/// The abstract state: the stack displacement and a finite map from
/// variables to slots.
#[derive(Debug)]
pub struct VariableState<T> {
    stack_offset: i64,
    state: Entries<T>,
}

impl<T> VariableState<T> {
    #[verifier::type_invariant]
    spec fn well_formed(self) -> bool {
        distinct_keys(self.state@) && self.stack_offset as int % 4 == 0
    }
}

impl<T: View> View for VariableState<T> {
    type V = StateView<T::V>;

    closed spec fn view(&self) -> StateView<T::V> {
        StateView { stack_offset: self.stack_offset, slots: entries_map(self.state@) }
    }
}

/// Whether a number fits in 64 bits.
pub open spec fn in_i64(x: int) -> bool {
    i64::MIN <= x <= i64::MAX
}

/// Whether a change of the stack displacement is accepted: it must keep
/// the stack 4-byte aligned.
pub open spec fn offset_check(stack_offset: i64, adjustment: i64) -> Result<(), StateError> {
    if adjustment as int % 4 != 0 {
        Err(StateError::MisalignedStack)
    } else if !in_i64(stack_offset + adjustment) {
        Err(StateError::OffsetOverflow)
    } else {
        Ok(())
    }
}

/// The state with the stack displacement changed.
pub open spec fn adjusted<V>(s: StateView<V>, adjustment: i64) -> StateView<V> {
    StateView { stack_offset: (s.stack_offset + adjustment) as i64, slots: s.slots }
}

/// The variable of the stack slot at an offset from the current stack
/// pointer.
pub open spec fn stack_var<V>(s: StateView<V>, offset: int) -> VarIndex {
    VarIndex::Stack((s.stack_offset + offset) as i64)
}

/// Whether a store to the stack is accepted: it must be 4-byte aligned and
/// at most 8 bytes wide.
pub open spec fn store_check<V>(s: StateView<V>, offset: i64, size: u32) -> Result<(), StateError> {
    if offset as int % 4 != 0 {
        Err(StateError::MisalignedStack)
    } else if size > 8 {
        Err(StateError::StoreTooLarge)
    } else if !in_i64(s.stack_offset + offset - 4) || !in_i64(s.stack_offset + offset + 4) {
        Err(StateError::OffsetOverflow)
    } else {
        Ok(())
    }
}

/// The slots after a store of `size` bytes at a variable of the stack: an
/// 8-byte store evicts the slot 4 bytes above, any store evicts an 8-byte
/// slot 4 bytes below, and the variable gets the new slot.
pub open spec fn store_spec<V>(s: StateView<V>, offset: i64, value: V, size: u32) -> StateView<V> {
    let above = stack_var(s, offset + 4);
    let below = stack_var(s, offset - 4);
    let m1 = if size == 8 {
        s.slots.remove(above)
    } else {
        s.slots
    };
    let m2 = if m1.contains_key(below) && m1[below].size == 8 {
        m1.remove(below)
    } else {
        m1
    };
    StateView {
        stack_offset: s.stack_offset,
        slots: m2.insert(stack_var(s, offset as int), SlotView { size, value }),
    }
}

/// Whether a load from the stack is accepted: it must be 4 or 8 bytes
/// wide.
pub open spec fn load_check<V>(s: StateView<V>, offset: i64, size: u32) -> Result<(), StateError> {
    if !(size == 4 || size == 8) {
        Err(StateError::LoadSize)
    } else if !in_i64(s.stack_offset + offset) {
        Err(StateError::OffsetOverflow)
    } else {
        Ok(())
    }
}

/// What a load of `size` bytes from a stack slot gives: the value that was
/// stored there with the same width, else the least element.
pub open spec fn load_spec<L: Lattice>(s: StateView<L::V>, offset: i64, size: u32) -> L::V {
    let var = stack_var(s, offset as int);
    if s.slots.contains_key(var) && s.slots[var].size == size {
        s.slots[var].value
    } else {
        L::bot_spec()
    }
}

/// The value of a variable: what its slot holds, or the least element if
/// it has no slot.
pub open spec fn var_value<L: Lattice>(s: StateView<L::V>, var: VarIndex) -> L::V {
    if s.slots.contains_key(var) {
        s.slots[var].value
    } else {
        L::bot_spec()
    }
}

/// The value of a register read at a width.
pub open spec fn reg_value<L: Lattice>(s: StateView<L::V>, reg: X86Regs, size: ValSize) -> L::V {
    if size == ValSize::SizeOther {
        L::bot_spec()
    } else {
        var_value::<L>(s, VarIndex::Reg(reg))
    }
}

/// The state after a write to a register at a width.
pub open spec fn reg_written<V>(s: StateView<V>, reg: X86Regs, size: ValSize, value: V) -> StateView<V> {
    if size == ValSize::SizeOther {
        s
    } else {
        StateView {
            stack_offset: s.stack_offset,
            slots: s.slots.insert(VarIndex::Reg(reg), SlotView { size: size.bits() as u32, value }),
        }
    }
}

/// The width in bytes of a memory access.
pub open spec fn access_bytes(memsize: ValSize) -> u32 {
    (memsize.bits() / 8) as u32
}

/// What the state holds for an IR value: something for registers and for
/// accesses at `[rsp]` and `[rsp + constant]`, nothing for the rest.
pub open spec fn get_spec<L: Lattice>(s: StateView<L::V>, index: Value) -> Result<Option<L::V>, StateError> {
    match index {
        Value::Mem(memsize, memargs) => match stack_offset_spec(memargs) {
            Some(offset) => match load_check(s, offset, access_bytes(memsize)) {
                Err(e) => Err(e),
                Ok(()) => Ok(Some(load_spec::<L>(s, offset, access_bytes(memsize)))),
            },
            None => Ok(None),
        },
        Value::Reg(reg, size) => Ok(Some(reg_value::<L>(s, reg, size))),
        Value::Imm(_, _, _) => Ok(None),
        Value::RIPConst => Ok(None),
    }
}

/// The state after a write to an IR value. Writes to memory other than
/// `[rsp]` and `[rsp + constant]` leave the state as it is.
pub open spec fn set_spec<V>(s: StateView<V>, index: Value, value: V) -> Result<StateView<V>, StateError> {
    match index {
        Value::Mem(memsize, memargs) => match stack_offset_spec(memargs) {
            Some(offset) => match store_check(s, offset, access_bytes(memsize)) {
                Err(e) => Err(e),
                Ok(()) => Ok(store_spec(s, offset, value, access_bytes(memsize))),
            },
            None => Ok(s),
        },
        Value::Reg(reg, size) => Ok(reg_written(s, reg, size, value)),
        Value::Imm(_, _, _) => Err(StateError::WriteToImmediate),
        Value::RIPConst => Err(StateError::WriteToConstant),
    }
}

/// The slots of the stack: what is left of the state after a call.
pub open spec fn stack_slots<V>(slots: Map<VarIndex, SlotView<V>>) -> Map<VarIndex, SlotView<V>> {
    Map::new(|var: VarIndex| slots.contains_key(var) && var is Stack, |var: VarIndex| slots[var])
}

/// The state after a call: no register has a value.
pub open spec fn on_call_spec<V>(s: StateView<V>) -> StateView<V> {
    StateView { stack_offset: s.stack_offset, slots: stack_slots(s.slots) }
}

/// The state after `dst = src1 op src2` as far as the stack displacement
/// goes. Only `rsp = rsp + constant` and `rsp = rsp - constant` may write
/// the stack pointer.
pub open spec fn adjust_stack_offset_spec<V>(
    s: StateView<V>,
    opcode: Binopcode,
    dst: Value,
    src1: Value,
    src2: Value,
) -> Result<StateView<V>, StateError> {
    if is_partial_rsp_spec(dst) {
        Err(StateError::IllegalRspWrite)
    } else if !is_rsp_spec(dst) {
        Ok(s)
    } else if !is_rsp_spec(src1) {
        Err(StateError::IllegalRspWrite)
    } else {
        match imm_offset_spec(src2) {
            None => Err(StateError::IllegalRspWrite),
            Some(n) => match opcode {
                Binopcode::Add => match offset_check(s.stack_offset, n) {
                    Err(e) => Err(e),
                    Ok(()) => Ok(adjusted(s, n)),
                },
                Binopcode::Sub => if n == i64::MIN {
                    Err(StateError::OffsetOverflow)
                } else {
                    match offset_check(s.stack_offset, (-n) as i64) {
                        Err(e) => Err(e),
                        Ok(()) => Ok(adjusted(s, (-n) as i64)),
                    }
                },
                _ => Err(StateError::IllegalRspWrite),
            },
        }
    }
}

fn is_aligned4(x: i64) -> (r: bool)
    ensures
        r == (x as int % 4 == 0),
{
    x % 4 == 0
}

impl<T: Lattice + Copy> VariableState<T> {
    /// The state at function entry: no displacement, no variable has a
    /// value.
    pub fn new() -> (r: Self)
        ensures
            r@ == (StateView::<T::V> { stack_offset: 0, slots: Map::empty() }),
    {
        proof {
            lemma_empty::<T>();
        }
        VariableState { stack_offset: 0, state: Vec::new() }
    }

    /// Displacement of the stack pointer since function entry, in bytes.
    /// It is a multiple of 4.
    pub fn stack_offset(&self) -> (r: i64)
        ensures
            r == self@.stack_offset,
            r as int % 4 == 0,
    {
        proof {
            use_type_invariant(&*self);
        }
        self.stack_offset
    }

    /// A copy of the state.
    pub fn clone_state(&self) -> (r: Self)
        ensures
            r@ == self@,
    {
        proof {
            use_type_invariant(&*self);
            lemma_empty::<T>();
        }
        let mut entries: Entries<T> = Vec::new();
        let mut i: usize = 0;
        while i < self.state.len()
            invariant
                i <= self.state.len(),
                entries@ == self.state@.take(i as int),
            decreases self.state.len() - i,
        {
            let entry = self.state[i];
            entries.push(entry);
            assert(self.state@.take(i + 1) =~= self.state@.take(i as int).push(self.state@[i as int]));
            i = i + 1;
        }
        assert(self.state@.take(self.state.len() as int) =~= self.state@);
        VariableState { stack_offset: self.stack_offset, state: entries }
    }

    /// Moves the stack pointer by `adjustment` bytes.
    pub fn update_stack_offset(&mut self, adjustment: i64) -> (r: Result<(), StateError>)
        ensures
            r == offset_check(old(self)@.stack_offset, adjustment),
            r is Ok ==> final(self)@ == adjusted(old(self)@, adjustment),
            r is Err ==> final(self)@ == old(self)@,
    {
        proof {
            use_type_invariant(&*self);
        }
        if !is_aligned4(adjustment) {
            return Err(StateError::MisalignedStack);
        }
        match self.stack_offset.checked_add(adjustment) {
            None => Err(StateError::OffsetOverflow),
            Some(offset) => {
                self.stack_offset = offset;
                Ok(())
            },
        }
    }

    /// Stores an abstract value of `size` bytes at an offset from the stack
    /// pointer, and evicts the slots that the store overlaps.
    pub fn update_stack_slot(&mut self, offset: i64, value: T, size: u32) -> (r: Result<(), StateError>)
        ensures
            r == store_check(old(self)@, offset, size),
            r is Ok ==> final(self)@ == store_spec(old(self)@, offset, value@, size),
            r is Err ==> final(self)@ == old(self)@,
    {
        proof {
            use_type_invariant(&*self);
            lemma_empty::<T>();
        }
        if !is_aligned4(offset) {
            return Err(StateError::MisalignedStack);
        }
        if size > 8 {
            return Err(StateError::StoreTooLarge);
        }
        let sum: i128 = self.stack_offset as i128 + offset as i128;
        if sum - 4 < i64::MIN as i128 || sum + 4 > i64::MAX as i128 {
            return Err(StateError::OffsetOverflow);
        }
        let key: i64 = sum as i64;
        let mut entries: Entries<T> = Vec::new();
        std::mem::swap(&mut entries, &mut self.state);
        //remove overlapping entries
        //if write is size 8: remove next slot (offset + 4) if one exists
        if size == 8 {
            remove_key(&mut entries, &VarIndex::Stack(key + 4));
        }
        // if next slot back (offset-4) is size 8, remove it
        let evict: bool = match lookup(&entries, &VarIndex::Stack(key - 4)) {
            Some(x) => x.size == 8,
            None => false,
        };
        if evict {
            remove_key(&mut entries, &VarIndex::Stack(key - 4));
        }
        put(&mut entries, VarIndex::Stack(key), VarSlot { size, value });
        self.state = entries;
        Ok(())
    }

    /// Binds a register to an abstract value. A write at an unmodelled
    /// width is ignored.
    pub fn set_reg(&mut self, reg: X86Regs, size: ValSize, value: T)
        ensures
            final(self)@ == reg_written(old(self)@, reg, size, value@),
    {
        proof {
            use_type_invariant(&*self);
            lemma_empty::<T>();
        }
        if let ValSize::SizeOther = size {
            return ;
        }
        let mut entries: Entries<T> = Vec::new();
        std::mem::swap(&mut entries, &mut self.state);
        put(&mut entries, VarIndex::Reg(reg), VarSlot { size: size.to_u32(), value });
        self.state = entries;
    }

    /// Binds the register with the given number to an abstract value. A
    /// write at an unmodelled width is ignored.
    pub fn update_reg_slot(&mut self, index: &u8, size: &ValSize, value: T) -> (r: Result<(), StateError>)
        ensures
            *size == ValSize::SizeOther ==> r is Ok && final(self)@ == old(self)@,
            *size != ValSize::SizeOther ==> match X86Regs::spec_from_index(*index) {
                Some(reg) => r is Ok && final(self)@ == reg_written(old(self)@, reg, *size, value@),
                None => r == Err::<(), StateError>(StateError::UnknownRegister) && final(self)@ == old(self)@,
            },
    {
        if let ValSize::SizeOther = size {
            return Ok(());
        }
        match X86Regs::try_from(*index) {
            None => Err(StateError::UnknownRegister),
            Some(reg) => {
                self.set_reg(reg, *size, value);
                Ok(())
            },
        }
    }

    /// Loads `size` bytes from an offset from the stack pointer.
    pub fn get_stack_slot(&self, offset: i64, size: u32) -> (r: Result<T, StateError>)
        ensures
            match r {
                Ok(v) => load_check(self@, offset, size) is Ok && v@ == load_spec::<T>(self@, offset, size),
                Err(e) => load_check(self@, offset, size) == Err::<(), StateError>(e),
            },
    {
        proof {
            use_type_invariant(&*self);
        }
        if !(size == 4 || size == 8) {
            return Err(StateError::LoadSize);
        }
        let key: i64 = match self.stack_offset.checked_add(offset) {
            None => { return Err(StateError::OffsetOverflow); },
            Some(key) => key,
        };
        match lookup(&self.state, &VarIndex::Stack(key)) {
            Some(stack_slot) => {
                if stack_slot.size == size {
                    Ok(stack_slot.value)
                } else {
                    Ok(T::bot())
                }
            },
            None => Ok(T::bot()),
        }
    }

    /// The value of a variable.
    pub fn get_var_slot(&self, index: &VarIndex) -> (r: T)
        ensures
            r@ == var_value::<T>(self@, *index),
    {
        proof {
            use_type_invariant(&*self);
        }
        match lookup(&self.state, index) {
            Some(slot) => slot.value,
            None => T::bot(),
        }
    }

    /// The value of a register read at a width.
    pub fn get_reg(&self, reg: X86Regs, size: ValSize) -> (r: T)
        ensures
            r@ == reg_value::<T>(self@, reg, size),
    {
        if let ValSize::SizeOther = size {
            return T::bot();
        }
        self.get_var_slot(&VarIndex::Reg(reg))
    }

    /// The value of the register with the given number, read at a width.
    pub fn get_reg_slot(&self, index: &u8, size: &ValSize) -> (r: Result<T, StateError>)
        ensures
            *size == ValSize::SizeOther ==> r is Ok && r->Ok_0@ == T::bot_spec(),
            *size != ValSize::SizeOther ==> match X86Regs::spec_from_index(*index) {
                Some(reg) => r is Ok && r->Ok_0@ == reg_value::<T>(self@, reg, *size),
                None => r is Err && r->Err_0 == StateError::UnknownRegister,
            },
    {
        if let ValSize::SizeOther = size {
            return Ok(T::bot());
        }
        match X86Regs::try_from(*index) {
            None => Err(StateError::UnknownRegister),
            Some(reg) => Ok(self.get_reg(reg, *size)),
        }
    }

    /// The number of variables that have a slot.
    pub fn len(&self) -> (r: usize)
        ensures
            r == self@.slots.dom().len(),
    {
        proof {
            use_type_invariant(&*self);
            lemma_domain_size(self.state@);
        }
        self.state.len()
    }

    /// The variables that have a slot, each with its slot, in the order in
    /// which they were bound.
    pub fn entries(&self) -> (r: Vec<(VarIndex, VarSlot<T>)>)
        ensures
            distinct_keys(r@),
            entries_map(r@) == self@.slots,
    {
        proof {
            use_type_invariant(&*self);
        }
        let mut entries: Entries<T> = Vec::new();
        let mut i: usize = 0;
        while i < self.state.len()
            invariant
                i <= self.state.len(),
                entries@ == self.state@.take(i as int),
            decreases self.state.len() - i,
        {
            let entry = self.state[i];
            entries.push(entry);
            assert(self.state@.take(i + 1) =~= self.state@.take(i as int).push(self.state@[i as int]));
            i = i + 1;
        }
        assert(self.state@.take(self.state.len() as int) =~= self.state@);
        entries
    }
}

/// A list without repetition has as many entries as its map has bindings.
pub proof fn lemma_domain_size<T: View>(s: Seq<(VarIndex, VarSlot<T>)>)
    requires
        distinct_keys(s),
    ensures
        entries_map(s).dom().finite(),
        entries_map(s).dom().len() == s.len(),
    decreases s.len(),
{
    if s.len() == 0 {
        lemma_empty::<T>();
        assert(s =~= Seq::<(VarIndex, VarSlot<T>)>::empty());
    } else {
        let init = s.drop_last();
        lemma_prefix(s, s.len() - 1);
        assert(init =~= s.take(s.len() - 1));
        lemma_domain_size(init);
        lemma_push(init, s.last().0, s.last().1);
        assert(init.push((s.last().0, s.last().1)) =~= s);
        assert(!entries_map(init).dom().contains(s.last().0));
        assert(entries_map(s).dom() =~= entries_map(init).dom().insert(s.last().0));
    }
}

/// A state that is read and written through IR values.
pub trait VarState {
    /// The abstract values that the state holds.
    type Var;

    /// What the state holds for an IR value.
    fn get(&self, index: &Value) -> Result<Option<Self::Var>, StateError>;

    /// Writes an abstract value to an IR value.
    fn set(&mut self, index: &Value, v: Self::Var) -> Result<(), StateError>;

    /// Writes the least element to an IR value.
    fn set_to_bot(&mut self, index: &Value) -> Result<(), StateError>;

    /// Forgets what a call clobbers.
    fn on_call(&mut self);

    /// Follows the stack pointer through `dst = src1 op src2`.
    fn adjust_stack_offset(&mut self, opcode: &Binopcode, dst: &Value, src1: &Value, src2: &Value) -> Result<
        (),
        StateError,
    >;
}

/// The width in bytes of a memory access.
pub fn access_size(memsize: &ValSize) -> (r: u32)
    ensures
        r == access_bytes(*memsize),
{
    memsize.to_u32() / 8
}

impl<T: Lattice + Copy> VarState for VariableState<T> {
    type Var = T;

    fn get(&self, index: &Value) -> (r: Result<Option<T>, StateError>)
        ensures
            match r {
                Ok(Some(v)) => get_spec::<T>(self@, *index) == Ok::<Option<T::V>, StateError>(Some(v@)),
                Ok(None) => get_spec::<T>(self@, *index) == Ok::<Option<T::V>, StateError>(None),
                Err(e) => get_spec::<T>(self@, *index) == Err::<Option<T::V>, StateError>(e),
            },
    {
        match index {
            Value::Mem(memsize, memargs) => match extract_stack_offset(memargs) {
                Some(offset) => match self.get_stack_slot(offset, access_size(memsize)) {
                    Ok(v) => Ok(Some(v)),
                    Err(e) => Err(e),
                },
                None => Ok(None),
            },
            Value::Reg(reg, size) => Ok(Some(self.get_reg(*reg, *size))),
            Value::Imm(_, _, _) => Ok(None),
            Value::RIPConst => Ok(None),
        }
    }

    fn set(&mut self, index: &Value, value: T) -> (r: Result<(), StateError>)
        ensures
            match r {
                Ok(()) => set_spec(old(self)@, *index, value@) == Ok::<StateView<T::V>, StateError>(
                    final(self)@,
                ),
                Err(e) => set_spec(old(self)@, *index, value@) == Err::<StateView<T::V>, StateError>(e)
                    && final(self)@ == old(self)@,
            },
    {
        match index {
            Value::Mem(memsize, memargs) => match extract_stack_offset(memargs) {
                Some(offset) => self.update_stack_slot(offset, value, access_size(memsize)),
                None => Ok(()),
            },
            Value::Reg(reg, size) => {
                self.set_reg(*reg, *size, value);
                Ok(())
            },
            Value::Imm(_, _, _) => Err(StateError::WriteToImmediate),
            Value::RIPConst => Err(StateError::WriteToConstant),
        }
    }

    fn set_to_bot(&mut self, index: &Value) -> (r: Result<(), StateError>)
        ensures
            match r {
                Ok(()) => set_spec(old(self)@, *index, T::bot_spec()) == Ok::<StateView<T::V>, StateError>(
                    final(self)@,
                ),
                Err(e) => set_spec(old(self)@, *index, T::bot_spec()) == Err::<StateView<T::V>, StateError>(e)
                    && final(self)@ == old(self)@,
            },
    {
        self.set(index, T::bot())
    }

    fn on_call(&mut self)
        ensures
            final(self)@ == on_call_spec(old(self)@),
    {
        proof {
            use_type_invariant(&*self);
            lemma_empty::<T>();
        }
        let mut entries: Entries<T> = Vec::new();
        std::mem::swap(&mut entries, &mut self.state);
        let ghost before = entries_map(entries@);
        let mut i: u8 = 0;
        while i < NUM_REGS
            invariant
                i <= NUM_REGS,
                distinct_keys(entries@),
                entries_map(entries@) =~= Map::new(
                    |var: VarIndex|
                        before.contains_key(var) && (var is Stack || var->Reg_0.spec_index() >= i),
                    |var: VarIndex| before[var],
                ),
            decreases NUM_REGS - i,
        {
            match X86Regs::try_from(i) {
                Some(reg) => {
                    proof {
                        assert forall|other: X86Regs| other.spec_index() == i implies other == reg by {
                            lemma_reg_index_roundtrip(other);
                        }
                    }
                    remove_key(&mut entries, &VarIndex::Reg(reg));
                },
                None => {},
            }
            i = i + 1;
        }
        proof {
            assert forall|var: VarIndex| var is Reg implies var->Reg_0.spec_index() < NUM_REGS by {
                lemma_reg_index_roundtrip(var->Reg_0);
            }
            assert(entries_map(entries@) =~= stack_slots(before));
        }
        self.state = entries;
    }

    fn adjust_stack_offset(&mut self, opcode: &Binopcode, dst: &Value, src1: &Value, src2: &Value) -> (r:
        Result<(), StateError>)
        ensures
            match r {
                Ok(()) => adjust_stack_offset_spec(old(self)@, *opcode, *dst, *src1, *src2) == Ok::<
                    StateView<T::V>,
                    StateError,
                >(final(self)@),
                Err(e) => adjust_stack_offset_spec(old(self)@, *opcode, *dst, *src1, *src2) == Err::<
                    StateView<T::V>,
                    StateError,
                >(e) && final(self)@ == old(self)@,
            },
    {
        if is_partial_rsp(dst) {
            return Err(StateError::IllegalRspWrite);
        }
        if !is_rsp(dst) {
            return Ok(());
        }
        if !is_rsp(src1) {
            return Err(StateError::IllegalRspWrite);
        }
        let adjustment: i64 = match get_imm_offset(src2) {
            None => { return Err(StateError::IllegalRspWrite); },
            Some(n) => n,
        };
        match opcode {
            Binopcode::Add => self.update_stack_offset(adjustment),
            Binopcode::Sub => {
                if adjustment == i64::MIN {
                    Err(StateError::OffsetOverflow)
                } else {
                    self.update_stack_offset(-adjustment)
                }
            },
            _ => Err(StateError::IllegalRspWrite),
        }
    }
}

/// Whether two slot maps bind a variable with one width.
pub open spec fn both_bind<V>(a: Map<VarIndex, SlotView<V>>, b: Map<VarIndex, SlotView<V>>, var: VarIndex) -> bool {
    a.contains_key(var) && b.contains_key(var) && a[var].size == b[var].size
}

/// The pointwise meet of two slot maps. A variable that only one of them
/// binds, or that they bind with different widths, is dropped: it holds the
/// least element.
pub open spec fn meet_slots<L: Semilattice>(
    a: Map<VarIndex, SlotView<L::V>>,
    b: Map<VarIndex, SlotView<L::V>>,
) -> Map<VarIndex, SlotView<L::V>> {
    Map::new(
        |var: VarIndex| both_bind(a, b, var),
        |var: VarIndex| SlotView { size: a[var].size, value: L::meet_spec(a[var].value, b[var].value) },
    )
}

/// The pointwise order of two slot maps: every variable of the first is a
/// variable of the second, with the same width and a value that is not
/// smaller.
pub open spec fn le_slots<L: Semilattice>(
    a: Map<VarIndex, SlotView<L::V>>,
    b: Map<VarIndex, SlotView<L::V>>,
) -> bool {
    forall|var: VarIndex| #[trigger]
        a.contains_key(var) ==> both_bind(a, b, var) && L::le_spec(a[var].value, b[var].value)
}

/// Whether the values that two slot maps bind to one variable are
/// comparable.
pub open spec fn comparable_slots<L: Semilattice>(
    a: Map<VarIndex, SlotView<L::V>>,
    b: Map<VarIndex, SlotView<L::V>>,
) -> bool {
    forall|var: VarIndex| #[trigger]
        both_bind(a, b, var) ==> L::comparable_spec(a[var].value, b[var].value)
}

/// Whether every binding of the first map is a binding of the second.
pub open spec fn sub_slots<V>(a: Map<VarIndex, SlotView<V>>, b: Map<VarIndex, SlotView<V>>) -> bool {
    forall|var: VarIndex| #[trigger] a.contains_key(var) ==> b.contains_key(var) && a[var] == b[var]
}

impl<T: Lattice + Copy> VariableState<T> {
    /// Whether every binding of this state is one of the other.
    fn included_in(&self, other: &Self) -> (r: bool)
        ensures
            r == sub_slots(self@.slots, other@.slots),
    {
        proof {
            use_type_invariant(&*self);
            use_type_invariant(&*other);
        }
        let mut i: usize = 0;
        while i < self.state.len()
            invariant
                i <= self.state.len(),
                distinct_keys(self.state@),
                distinct_keys(other.state@),
                forall|j: int|
                    0 <= j < i ==> entries_map(other.state@).contains_key(#[trigger] self.state@[j].0)
                        && entries_map(other.state@)[self.state@[j].0] == self.state@[j].1@,
            decreases self.state.len() - i,
        {
            proof {
                lemma_entry_is_binding(self.state@, i as int);
            }
            let same: bool = match lookup(&other.state, &self.state[i].0) {
                Some(slot) => slot.size == self.state[i].1.size && slot.value.same(&self.state[i].1.value),
                None => false,
            };
            if !same {
                return false;
            }
            i = i + 1;
        }
        proof {
            assert forall|var: VarIndex| #[trigger] self@.slots.contains_key(var) implies other@.slots.contains_key(
                var,
            ) && self@.slots[var] == other@.slots[var] by {
                let j = key_index(self.state@, var);
                lemma_entry_is_binding(self.state@, j);
            }
        }
        true
    }
}

impl<T: Lattice + Copy> Semilattice for VariableState<T> {
    open spec fn meet_spec(a: StateView<T::V>, b: StateView<T::V>) -> StateView<T::V> {
        StateView { stack_offset: a.stack_offset, slots: meet_slots::<T>(a.slots, b.slots) }
    }

    open spec fn le_spec(a: StateView<T::V>, b: StateView<T::V>) -> bool {
        a.stack_offset == b.stack_offset && le_slots::<T>(a.slots, b.slots)
    }

    open spec fn comparable_spec(a: StateView<T::V>, b: StateView<T::V>) -> bool {
        a.stack_offset == b.stack_offset && comparable_slots::<T>(a.slots, b.slots)
    }

    fn meet(&self, other: &Self, loc_idx: &LocIdx) -> (r: Self) {
        proof {
            use_type_invariant(&*self);
            use_type_invariant(&*other);
            lemma_empty::<T>();
            lemma_prefix(self.state@, 0);
        }
        let mut newmap: Entries<T> = Vec::new();
        let mut i: usize = 0;
        assert(entries_map(newmap@) =~= meet_slots::<T>(
            entries_map(self.state@.take(0)),
            entries_map(other.state@),
        ));
        while i < self.state.len()
            invariant
                i <= self.state.len(),
                distinct_keys(self.state@),
                distinct_keys(other.state@),
                distinct_keys(newmap@),
                entries_map(newmap@) == meet_slots::<T>(
                    entries_map(self.state@.take(i as int)),
                    entries_map(other.state@),
                ),
            decreases self.state.len() - i,
        {
            let var_index: VarIndex = self.state[i].0;
            let v1 = &self.state[i].1;
            let ghost prefix = entries_map(self.state@.take(i as int));
            let ghost theirs = entries_map(other.state@);
            proof {
                lemma_prefix(self.state@, i as int);
                lemma_push(self.state@.take(i as int), var_index, *v1);
                assert(!prefix.contains_key(var_index));
                assert(!entries_map(newmap@).contains_key(var_index));
            }
            match lookup(&other.state, &var_index) {
                Some(v2) => {
                    if v1.size == v2.size {
                        let new_v = v1.value.meet(&v2.value, loc_idx);
                        let newslot = VarSlot { size: v1.size, value: new_v };
                        proof {
                            lemma_push(newmap@, var_index, newslot);
                            assert(meet_slots::<T>(prefix.insert(var_index, v1@), theirs) =~= meet_slots::<T>(
                                prefix,
                                theirs,
                            ).insert(var_index, newslot@));
                        }
                        newmap.push((var_index, newslot));
                    } else {
                        assert(meet_slots::<T>(prefix.insert(var_index, v1@), theirs) =~= meet_slots::<T>(
                            prefix,
                            theirs,
                        ));
                    }
                },
                None => {
                    // the other state holds the least element here, and so does the meet
                    assert(meet_slots::<T>(prefix.insert(var_index, v1@), theirs) =~= meet_slots::<T>(
                        prefix,
                        theirs,
                    ));
                },
            }
            i = i + 1;
        }
        proof {
            lemma_prefix(self.state@, self.state@.len() as int);
        }
        VariableState { stack_offset: self.stack_offset, state: newmap }
    }

    fn leq(&self, other: &Self) -> (r: bool) {
        proof {
            use_type_invariant(&*self);
            use_type_invariant(&*other);
        }
        if self.stack_offset != other.stack_offset {
            return false;
        }
        let mut i: usize = 0;
        while i < self.state.len()
            invariant
                i <= self.state.len(),
                distinct_keys(self.state@),
                distinct_keys(other.state@),
                forall|j: int|
                    0 <= j < i ==> both_bind(self@.slots, other@.slots, #[trigger] self.state@[j].0) && T::le_spec(
                        self@.slots[self.state@[j].0].value,
                        other@.slots[self.state@[j].0].value,
                    ),
            decreases self.state.len() - i,
        {
            proof {
                lemma_entry_is_binding(self.state@, i as int);
            }
            let below: bool = match lookup(&other.state, &self.state[i].0) {
                Some(slot) => slot.size == self.state[i].1.size && self.state[i].1.value.leq(&slot.value),
                None => false,
            };
            if !below {
                assert(self@.slots.contains_key(self.state@[i as int].0));
                return false;
            }
            i = i + 1;
        }
        proof {
            assert forall|var: VarIndex| #[trigger] self@.slots.contains_key(var) implies both_bind(
                self@.slots,
                other@.slots,
                var,
            ) && T::le_spec(self@.slots[var].value, other@.slots[var].value) by {
                let j = key_index(self.state@, var);
                lemma_entry_is_binding(self.state@, j);
            }
        }
        true
    }

    fn same(&self, other: &Self) -> (r: bool) {
        let equal: bool = self.stack_offset == other.stack_offset && self.included_in(other)
            && other.included_in(self);
        proof {
            if equal {
                assert(self@.slots =~= other@.slots);
                assert(self@ =~= other@);
            }
        }
        equal
    }

    fn duplicate(&self) -> (r: Self) {
        self.clone_state()
    }

    proof fn lemma_comparable(a: StateView<T::V>, b: StateView<T::V>) {
        assert forall|var: VarIndex| #[trigger] both_bind(a.slots, a.slots, var) implies T::comparable_spec(
            a.slots[var].value,
            a.slots[var].value,
        ) by {
            T::lemma_comparable(a.slots[var].value, a.slots[var].value);
        }
        if Self::comparable_spec(a, b) {
            assert forall|var: VarIndex| #[trigger] both_bind(b.slots, a.slots, var) implies T::comparable_spec(
                b.slots[var].value,
                a.slots[var].value,
            ) by {
                assert(both_bind(a.slots, b.slots, var));
                T::lemma_comparable(a.slots[var].value, b.slots[var].value);
            }
        }
        if Self::comparable_spec(b, a) {
            assert forall|var: VarIndex| #[trigger] both_bind(a.slots, b.slots, var) implies T::comparable_spec(
                a.slots[var].value,
                b.slots[var].value,
            ) by {
                assert(both_bind(b.slots, a.slots, var));
                T::lemma_comparable(b.slots[var].value, a.slots[var].value);
            }
        }
    }

    proof fn lemma_meet_comparable(a: StateView<T::V>, b: StateView<T::V>, c: StateView<T::V>) {
        let m = Self::meet_spec(a, b);
        assert forall|var: VarIndex| #[trigger] both_bind(m.slots, c.slots, var) implies T::comparable_spec(
            m.slots[var].value,
            c.slots[var].value,
        ) by {
            assert(both_bind(a.slots, b.slots, var));
            assert(both_bind(a.slots, c.slots, var));
            assert(both_bind(b.slots, c.slots, var));
            T::lemma_meet_comparable(a.slots[var].value, b.slots[var].value, c.slots[var].value);
        }
    }

    proof fn lemma_meet_idempotent(a: StateView<T::V>) {
        assert forall|var: VarIndex| #[trigger] a.slots.contains_key(var) implies meet_slots::<T>(
            a.slots,
            a.slots,
        )[var] == a.slots[var] by {
            T::lemma_meet_idempotent(a.slots[var].value);
        }
        assert(meet_slots::<T>(a.slots, a.slots) =~= a.slots);
        assert(Self::meet_spec(a, a) =~= a);
    }

    proof fn lemma_meet_commutative(a: StateView<T::V>, b: StateView<T::V>) {
        assert forall|var: VarIndex| #[trigger] both_bind(a.slots, b.slots, var) implies meet_slots::<T>(
            a.slots,
            b.slots,
        )[var] == meet_slots::<T>(b.slots, a.slots)[var] by {
            T::lemma_meet_commutative(a.slots[var].value, b.slots[var].value);
        }
        assert(meet_slots::<T>(a.slots, b.slots) =~= meet_slots::<T>(b.slots, a.slots));
        assert(Self::meet_spec(a, b) =~= Self::meet_spec(b, a));
    }

    proof fn lemma_meet_associative(a: StateView<T::V>, b: StateView<T::V>, c: StateView<T::V>) {
        let left = meet_slots::<T>(meet_slots::<T>(a.slots, b.slots), c.slots);
        let right = meet_slots::<T>(a.slots, meet_slots::<T>(b.slots, c.slots));
        assert forall|var: VarIndex| left.contains_key(var) == right.contains_key(var) by {
        }
        assert forall|var: VarIndex| #[trigger] left.contains_key(var) implies left[var] == right[var] by {
            assert(both_bind(a.slots, b.slots, var));
            assert(both_bind(b.slots, c.slots, var));
            assert(both_bind(a.slots, c.slots, var));
            T::lemma_meet_associative(a.slots[var].value, b.slots[var].value, c.slots[var].value);
        }
        assert(left =~= right);
        assert(Self::meet_spec(Self::meet_spec(a, b), c) =~= Self::meet_spec(a, Self::meet_spec(b, c)));
    }

    proof fn lemma_le_iff_meet(a: StateView<T::V>, b: StateView<T::V>) {
        let m = Self::meet_spec(a, b);
        if Self::le_spec(a, b) {
            assert forall|var: VarIndex| #[trigger] both_bind(a.slots, b.slots, var) implies T::comparable_spec(
                a.slots[var].value,
                b.slots[var].value,
            ) by {
                assert(a.slots.contains_key(var));
                T::lemma_le_iff_meet(a.slots[var].value, b.slots[var].value);
            }
            assert forall|var: VarIndex| #[trigger] a.slots.contains_key(var) implies m.slots.contains_key(var)
                && m.slots[var] == a.slots[var] by {
                T::lemma_le_iff_meet(a.slots[var].value, b.slots[var].value);
            }
            assert(m.slots =~= a.slots);
            assert(m =~= a);
        }
        if Self::comparable_spec(a, b) && m == a {
            assert forall|var: VarIndex| #[trigger] a.slots.contains_key(var) implies both_bind(
                a.slots,
                b.slots,
                var,
            ) && T::le_spec(a.slots[var].value, b.slots[var].value) by {
                assert(m.slots.contains_key(var));
                assert(m.slots[var] == a.slots[var]);
                T::lemma_le_iff_meet(a.slots[var].value, b.slots[var].value);
            }
        }
    }
}

impl<T: Lattice + Copy> Lattice for VariableState<T> {
    open spec fn bot_spec() -> StateView<T::V> {
        StateView { stack_offset: 0, slots: Map::empty() }
    }

    fn bot() -> (r: Self) {
        Self::new()
    }

    proof fn lemma_meet_bot(a: StateView<T::V>) {
        assert(meet_slots::<T>(a.slots, Self::bot_spec().slots) =~= Self::bot_spec().slots);
        assert(Self::meet_spec(a, Self::bot_spec()) =~= Self::bot_spec());
    }
}

impl<T: Lattice + Copy> Default for VariableState<T> {
    fn default() -> (r: Self)
        ensures
            r@ == Self::bot_spec(),
    {
        Self::new()
    }
}

impl<T: Lattice + Copy> PartialEq for VariableState<T> {
    fn eq(&self, other: &VariableState<T>) -> (r: bool) {
        self.same(other)
    }
}

impl<T: Lattice + Copy> vstd::std_specs::cmp::PartialEqSpecImpl for VariableState<T> {
    open spec fn obeys_eq_spec() -> bool {
        true
    }

    open spec fn eq_spec(&self, other: &VariableState<T>) -> bool {
        self@ == other@
    }
}

/// How two states compare in the order of the lattice. States with
/// different stack displacements do not compare.
pub open spec fn state_partial_cmp<T: Lattice + Copy>(a: StateView<T::V>, b: StateView<T::V>) -> Option<
    Ordering,
> {
    if a == b {
        Some(Ordering::Equal)
    } else if VariableState::<T>::le_spec(a, b) {
        Some(Ordering::Less)
    } else if VariableState::<T>::le_spec(b, a) {
        Some(Ordering::Greater)
    } else {
        None
    }
}

impl<T: Lattice + Copy> PartialOrd for VariableState<T> {
    fn partial_cmp(&self, other: &VariableState<T>) -> (r: Option<Ordering>) {
        if self.same(other) {
            Some(Ordering::Equal)
        } else if self.leq(other) {
            Some(Ordering::Less)
        } else if other.leq(self) {
            Some(Ordering::Greater)
        } else {
            None
        }
    }
}

impl<T: Lattice + Copy> vstd::std_specs::cmp::PartialOrdSpecImpl for VariableState<T> {
    open spec fn obeys_partial_cmp_spec() -> bool {
        true
    }

    open spec fn partial_cmp_spec(&self, other: &VariableState<T>) -> Option<Ordering> {
        state_partial_cmp::<T>(self@, other@)
    }
}

/// The meet of two states has the stack displacement of the first. It has
/// that of the second too exactly if the two agree; states that do not
/// agree are not comparable, and neither is below the other.
pub proof fn lemma_meet_stack_offset<T: Lattice + Copy>(a: StateView<T::V>, b: StateView<T::V>)
    ensures
        VariableState::<T>::meet_spec(a, b).stack_offset == a.stack_offset,
        VariableState::<T>::meet_spec(a, b).stack_offset == b.stack_offset <==> a.stack_offset
            == b.stack_offset,
        a.stack_offset != b.stack_offset ==> !VariableState::<T>::comparable_spec(a, b)
            && !VariableState::<T>::le_spec(a, b) && !VariableState::<T>::le_spec(b, a),
{
}

/// A store followed by a load at the same offset and with the same width
/// gives the stored value; with another width it gives the least element.
pub proof fn lemma_store_then_load<T: Lattice + Copy>(
    s: StateView<T::V>,
    offset: i64,
    value: T::V,
    size: u32,
    other_size: u32,
)
    requires
        store_check(s, offset, size) is Ok,
    ensures
        load_spec::<T>(store_spec(s, offset, value, size), offset, size) == value,
        other_size != size ==> load_spec::<T>(store_spec(s, offset, value, size), offset, other_size)
            == T::bot_spec(),
{
}

/// An 8-byte store evicts the slot 4 bytes above it and an 8-byte slot 4
/// bytes below it; a store of any accepted width evicts an 8-byte slot 4
/// bytes below it. Every other slot stays as it was.
pub proof fn lemma_store_evicts<T: Lattice + Copy>(s: StateView<T::V>, offset: i64, value: T::V, size: u32)
    requires
        store_check(s, offset, size) is Ok,
    ensures
        size == 8 ==> !store_spec(s, offset, value, size).slots.contains_key(stack_var(s, offset + 4)),
        s.slots.contains_key(stack_var(s, offset - 4)) && s.slots[stack_var(s, offset - 4)].size == 8
            ==> !store_spec(s, offset, value, size).slots.contains_key(stack_var(s, offset - 4)),
        forall|var: VarIndex|
            var != stack_var(s, offset as int) && var != stack_var(s, offset + 4) && var != stack_var(
                s,
                offset - 4,
            ) ==> (#[trigger] store_spec(s, offset, value, size).slots.contains_key(var)
                == s.slots.contains_key(var)) && (s.slots.contains_key(var) ==> store_spec(
                s,
                offset,
                value,
                size,
            ).slots[var] == s.slots[var]),
        store_spec(s, offset, value, size).stack_offset == s.stack_offset,
{
}

} // verus!
