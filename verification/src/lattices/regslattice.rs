//! The register file as a record: one abstract value for each general
//! purpose register and for the zero flag.

use crate::ir::types::{LocIdx, ValSize};
use crate::lattices::{Lattice, Semilattice};
use crate::lattices::state_lattice::StateError;
use std::cmp::Ordering;
use vstd::prelude::*;

verus! {

/// One abstract value per register.
#[derive(Clone, Copy, Debug)]
pub struct X86RegsLattice<T> {
    pub rax: T,
    pub rbx: T,
    pub rcx: T,
    pub rdx: T,
    pub rdi: T,
    pub rsi: T,
    pub rsp: T,
    pub rbp: T,
    pub r8: T,
    pub r9: T,
    pub r10: T,
    pub r11: T,
    pub r12: T,
    pub r13: T,
    pub r14: T,
    pub r15: T,
    pub zf: T,
}

impl<T: View> View for X86RegsLattice<T> {
    type V = X86RegsLattice<T::V>;

    open spec fn view(&self) -> X86RegsLattice<T::V> {
        X86RegsLattice {
            rax: self.rax@,
            rbx: self.rbx@,
            rcx: self.rcx@,
            rdx: self.rdx@,
            rdi: self.rdi@,
            rsi: self.rsi@,
            rsp: self.rsp@,
            rbp: self.rbp@,
            r8: self.r8@,
            r9: self.r9@,
            r10: self.r10@,
            r11: self.r11@,
            r12: self.r12@,
            r13: self.r13@,
            r14: self.r14@,
            r15: self.r15@,
            zf: self.zf@,
        }
    }
}

/// The value of the register with the given number.
pub open spec fn regs_index<V>(regs: X86RegsLattice<V>, index: u8) -> Option<V> {
    if index == 0 {
        Some(regs.rax)
    } else if index == 1 {
        Some(regs.rcx)
    } else if index == 2 {
        Some(regs.rdx)
    } else if index == 3 {
        Some(regs.rbx)
    } else if index == 4 {
        Some(regs.rsp)
    } else if index == 5 {
        Some(regs.rbp)
    } else if index == 6 {
        Some(regs.rsi)
    } else if index == 7 {
        Some(regs.rdi)
    } else if index == 8 {
        Some(regs.r8)
    } else if index == 9 {
        Some(regs.r9)
    } else if index == 10 {
        Some(regs.r10)
    } else if index == 11 {
        Some(regs.r11)
    } else if index == 12 {
        Some(regs.r12)
    } else if index == 13 {
        Some(regs.r13)
    } else if index == 14 {
        Some(regs.r14)
    } else if index == 15 {
        Some(regs.r15)
    } else if index == 16 {
        Some(regs.zf)
    } else {
        None
    }
}

/// The registers with the one of the given number replaced. A number past
/// the last register changes nothing.
pub open spec fn regs_update<V>(regs: X86RegsLattice<V>, index: u8, value: V) -> X86RegsLattice<V> {
    X86RegsLattice {
        rax: if index == 0 {
            value
        } else {
            regs.rax
        },
        rbx: if index == 3 {
            value
        } else {
            regs.rbx
        },
        rcx: if index == 1 {
            value
        } else {
            regs.rcx
        },
        rdx: if index == 2 {
            value
        } else {
            regs.rdx
        },
        rdi: if index == 7 {
            value
        } else {
            regs.rdi
        },
        rsi: if index == 6 {
            value
        } else {
            regs.rsi
        },
        rsp: if index == 4 {
            value
        } else {
            regs.rsp
        },
        rbp: if index == 5 {
            value
        } else {
            regs.rbp
        },
        r8: if index == 8 {
            value
        } else {
            regs.r8
        },
        r9: if index == 9 {
            value
        } else {
            regs.r9
        },
        r10: if index == 10 {
            value
        } else {
            regs.r10
        },
        r11: if index == 11 {
            value
        } else {
            regs.r11
        },
        r12: if index == 12 {
            value
        } else {
            regs.r12
        },
        r13: if index == 13 {
            value
        } else {
            regs.r13
        },
        r14: if index == 14 {
            value
        } else {
            regs.r14
        },
        r15: if index == 15 {
            value
        } else {
            regs.r15
        },
        zf: if index == 16 {
            value
        } else {
            regs.zf
        },
    }
}

/// The registers with every register but the stack pointer at the given
/// value.
pub open spec fn regs_cleared<V>(regs: X86RegsLattice<V>, bot: V) -> X86RegsLattice<V> {
    X86RegsLattice {
        rax: bot,
        rbx: bot,
        rcx: bot,
        rdx: bot,
        rdi: bot,
        rsi: bot,
        rsp: regs.rsp,
        rbp: bot,
        r8: bot,
        r9: bot,
        r10: bot,
        r11: bot,
        r12: bot,
        r13: bot,
        r14: bot,
        r15: bot,
        zf: bot,
    }
}

/// The registers with those that a call clobbers at the given value: `rax`,
/// `rcx`, `rdx`, `rsi`, `rdi`, `r8` to `r11` and the zero flag.
pub open spec fn regs_caller_save_cleared<V>(regs: X86RegsLattice<V>, bot: V) -> X86RegsLattice<V> {
    X86RegsLattice {
        rax: bot,
        rbx: regs.rbx,
        rcx: bot,
        rdx: bot,
        rdi: bot,
        rsi: bot,
        rsp: regs.rsp,
        rbp: regs.rbp,
        r8: bot,
        r9: bot,
        r10: bot,
        r11: bot,
        r12: regs.r12,
        r13: regs.r13,
        r14: regs.r14,
        r15: regs.r15,
        zf: bot,
    }
}

/// The numbers of the registers that are shown, in the order in which
/// they are shown: every register but the stack pointer.
pub open spec fn shown_registers() -> Seq<u8> {
    seq![0u8, 1u8, 2u8, 3u8, 5u8, 6u8, 7u8, 8u8, 9u8, 10u8, 11u8, 12u8, 13u8, 14u8, 15u8, 16u8]
}

/// Of the registers with the given numbers, those whose value is not the
/// given one, each with its value, in the order of the numbers.
pub open spec fn registers_other_than<V>(regs: X86RegsLattice<V>, numbers: Seq<u8>, bot: V) -> Seq<(u8, V)>
    decreases numbers.len(),
{
    if numbers.len() == 0 {
        Seq::empty()
    } else {
        let before = registers_other_than(regs, numbers.drop_last(), bot);
        match regs_index(regs, numbers.last()) {
            Some(value) => if value != bot {
                before.push((numbers.last(), value))
            } else {
                before
            },
            None => before,
        }
    }
}

/// The contents of a list of registers with their values.
pub open spec fn shown_view<T: View>(shown: Seq<(u8, T)>) -> Seq<(u8, T::V)> {
    shown.map_values(|e: (u8, T)| (e.0, e.1@))
}

impl<T: Lattice + Copy> X86RegsLattice<T> {
    /// The value of the register with the given number, read at a width.
    /// A read at an unmodelled width gives the least element.
    pub fn get(&self, index: &u8, size: &ValSize) -> (r: Result<T, StateError>)
        ensures
            *size == ValSize::SizeOther ==> r is Ok && r->Ok_0@ == T::bot_spec(),
            *size != ValSize::SizeOther ==> match regs_index(self@, *index) {
                Some(v) => r is Ok && r->Ok_0@ == v,
                None => r is Err && r->Err_0 == StateError::UnknownRegister,
            },
    {
        if let ValSize::SizeOther = size {
            return Ok(T::bot());
        }
        match *index {
            0 => Ok(self.rax),
            1 => Ok(self.rcx),
            2 => Ok(self.rdx),
            3 => Ok(self.rbx),
            4 => Ok(self.rsp),
            5 => Ok(self.rbp),
            6 => Ok(self.rsi),
            7 => Ok(self.rdi),
            8 => Ok(self.r8),
            9 => Ok(self.r9),
            10 => Ok(self.r10),
            11 => Ok(self.r11),
            12 => Ok(self.r12),
            13 => Ok(self.r13),
            14 => Ok(self.r14),
            15 => Ok(self.r15),
            16 => Ok(self.zf),
            _ => Err(StateError::UnknownRegister),
        }
    }

    /// Writes the register with the given number at a width. A write at an
    /// unmodelled width is ignored.
    pub fn set(&mut self, index: &u8, size: &ValSize, value: T) -> (r: Result<(), StateError>)
        ensures
            *size == ValSize::SizeOther ==> r is Ok && final(self)@ == old(self)@,
            *size != ValSize::SizeOther ==> (r is Ok <==> *index <= 16) && (r is Err ==> r->Err_0
                == StateError::UnknownRegister) && final(self)@ == regs_update(old(self)@, *index, value@),
    {
        if let ValSize::SizeOther = size {
            return Ok(());
        }
        match *index {
            0 => self.rax = value,
            1 => self.rcx = value,
            2 => self.rdx = value,
            3 => self.rbx = value,
            4 => self.rsp = value,
            5 => self.rbp = value,
            6 => self.rsi = value,
            7 => self.rdi = value,
            8 => self.r8 = value,
            9 => self.r9 = value,
            10 => self.r10 = value,
            11 => self.r11 = value,
            12 => self.r12 = value,
            13 => self.r13 = value,
            14 => self.r14 = value,
            15 => self.r15 = value,
            16 => self.zf = value,
            _ => { return Err(StateError::UnknownRegister); },
        }
        Ok(())
    }

    /// Forgets every register but the stack pointer.
    pub fn clear_regs(&mut self)
        ensures
            final(self)@ == regs_cleared(old(self)@, T::bot_spec()),
    {
        self.rax = T::bot();
        self.rcx = T::bot();
        self.rdx = T::bot();
        self.rbx = T::bot();
        self.rbp = T::bot();
        self.rsi = T::bot();
        self.rdi = T::bot();
        self.r8 = T::bot();
        self.r9 = T::bot();
        self.r10 = T::bot();
        self.r11 = T::bot();
        self.r12 = T::bot();
        self.r13 = T::bot();
        self.r14 = T::bot();
        self.r15 = T::bot();
        self.zf = T::bot();
    }

    /// Forgets the registers that a call clobbers.
    pub fn clear_caller_save_regs(&mut self)
        ensures
            final(self)@ == regs_caller_save_cleared(old(self)@, T::bot_spec()),
    {
        self.rax = T::bot();
        self.rcx = T::bot();
        self.rdx = T::bot();
        self.rsi = T::bot();
        self.rdi = T::bot();
        self.r8 = T::bot();
        self.r9 = T::bot();
        self.r10 = T::bot();
        self.r11 = T::bot();
        self.zf = T::bot();
    }

    /// What there is to show of the registers: every register but the stack
    /// pointer that holds more than the least element, by its number and
    /// with its value, in the order `rax`, `rcx`, `rdx`, `rbx`, `rbp`,
    /// `rsi`, `rdi`, `r8` to `r15`, zero flag.
    pub fn show(&self) -> (r: Vec<(u8, T)>)
        ensures
            shown_view(r@) == registers_other_than(self@, shown_registers(), T::bot_spec()),
    {
        let mut numbers: Vec<u8> = Vec::new();
        let mut n: u8 = 0;
        while n < 17
            invariant
                n <= 17,
                numbers@ == if n <= 4 {
                    shown_registers().take(n as int)
                } else {
                    shown_registers().take(n - 1)
                },
            decreases 17 - n,
        {
            if n != 4 {
                numbers.push(n);
            }
            proof {
                if n < 4 {
                    assert(shown_registers().take(n + 1) =~= shown_registers().take(n as int).push(n));
                } else if n > 4 {
                    assert(shown_registers().take(n as int) =~= shown_registers().take(n - 1).push(n));
                }
            }
            n = n + 1;
        }
        assert(shown_registers().take(16) =~= shown_registers());
        let bot = T::bot();
        let mut shown: Vec<(u8, T)> = Vec::new();
        let mut i: usize = 0;
        assert(numbers@.take(0) =~= Seq::<u8>::empty());
        assert(shown_view(shown@) =~= Seq::<(u8, T::V)>::empty());
        while i < numbers.len()
            invariant
                i <= numbers.len(),
                bot@ == T::bot_spec(),
                shown_view(shown@) == registers_other_than(self@, numbers@.take(i as int), T::bot_spec()),
            decreases numbers.len() - i,
        {
            proof {
                assert(numbers@.take(i + 1).drop_last() =~= numbers@.take(i as int));
                assert(numbers@.take(i + 1).last() == numbers@[i as int]);
            }
            let ghost before = shown_view(shown@);
            match self.get(&numbers[i], &ValSize::Size64) {
                Ok(value) => {
                    if !value.same(&bot) {
                        shown.push((numbers[i], value));
                        assert(shown_view(shown@) =~= before.push((numbers@[i as int], value@)));
                    }
                },
                Err(_) => {},
            }
            i = i + 1;
        }
        assert(numbers@.take(numbers.len() as int) =~= numbers@);
        shown
    }
}

impl<T: Lattice + Copy> Semilattice for X86RegsLattice<T> {
    open spec fn meet_spec(a: X86RegsLattice<T::V>, b: X86RegsLattice<T::V>) -> X86RegsLattice<T::V> {
        X86RegsLattice {
            rax: T::meet_spec(a.rax, b.rax),
            rbx: T::meet_spec(a.rbx, b.rbx),
            rcx: T::meet_spec(a.rcx, b.rcx),
            rdx: T::meet_spec(a.rdx, b.rdx),
            rdi: T::meet_spec(a.rdi, b.rdi),
            rsi: T::meet_spec(a.rsi, b.rsi),
            rsp: T::meet_spec(a.rsp, b.rsp),
            rbp: T::meet_spec(a.rbp, b.rbp),
            r8: T::meet_spec(a.r8, b.r8),
            r9: T::meet_spec(a.r9, b.r9),
            r10: T::meet_spec(a.r10, b.r10),
            r11: T::meet_spec(a.r11, b.r11),
            r12: T::meet_spec(a.r12, b.r12),
            r13: T::meet_spec(a.r13, b.r13),
            r14: T::meet_spec(a.r14, b.r14),
            r15: T::meet_spec(a.r15, b.r15),
            zf: T::meet_spec(a.zf, b.zf),
        }
    }

    open spec fn le_spec(a: X86RegsLattice<T::V>, b: X86RegsLattice<T::V>) -> bool {
        &&& T::le_spec(a.rax, b.rax)
        &&& T::le_spec(a.rbx, b.rbx)
        &&& T::le_spec(a.rcx, b.rcx)
        &&& T::le_spec(a.rdx, b.rdx)
        &&& T::le_spec(a.rdi, b.rdi)
        &&& T::le_spec(a.rsi, b.rsi)
        &&& T::le_spec(a.rsp, b.rsp)
        &&& T::le_spec(a.rbp, b.rbp)
        &&& T::le_spec(a.r8, b.r8)
        &&& T::le_spec(a.r9, b.r9)
        &&& T::le_spec(a.r10, b.r10)
        &&& T::le_spec(a.r11, b.r11)
        &&& T::le_spec(a.r12, b.r12)
        &&& T::le_spec(a.r13, b.r13)
        &&& T::le_spec(a.r14, b.r14)
        &&& T::le_spec(a.r15, b.r15)
        &&& T::le_spec(a.zf, b.zf)
    }

    open spec fn comparable_spec(a: X86RegsLattice<T::V>, b: X86RegsLattice<T::V>) -> bool {
        &&& T::comparable_spec(a.rax, b.rax)
        &&& T::comparable_spec(a.rbx, b.rbx)
        &&& T::comparable_spec(a.rcx, b.rcx)
        &&& T::comparable_spec(a.rdx, b.rdx)
        &&& T::comparable_spec(a.rdi, b.rdi)
        &&& T::comparable_spec(a.rsi, b.rsi)
        &&& T::comparable_spec(a.rsp, b.rsp)
        &&& T::comparable_spec(a.rbp, b.rbp)
        &&& T::comparable_spec(a.r8, b.r8)
        &&& T::comparable_spec(a.r9, b.r9)
        &&& T::comparable_spec(a.r10, b.r10)
        &&& T::comparable_spec(a.r11, b.r11)
        &&& T::comparable_spec(a.r12, b.r12)
        &&& T::comparable_spec(a.r13, b.r13)
        &&& T::comparable_spec(a.r14, b.r14)
        &&& T::comparable_spec(a.r15, b.r15)
        &&& T::comparable_spec(a.zf, b.zf)
    }

    fn meet(&self, other: &Self, loc_idx: &LocIdx) -> (r: Self) {
        X86RegsLattice {
            rax: self.rax.meet(&other.rax, loc_idx),
            rbx: self.rbx.meet(&other.rbx, loc_idx),
            rcx: self.rcx.meet(&other.rcx, loc_idx),
            rdx: self.rdx.meet(&other.rdx, loc_idx),
            rdi: self.rdi.meet(&other.rdi, loc_idx),
            rsi: self.rsi.meet(&other.rsi, loc_idx),
            rsp: self.rsp.meet(&other.rsp, loc_idx),
            rbp: self.rbp.meet(&other.rbp, loc_idx),
            r8: self.r8.meet(&other.r8, loc_idx),
            r9: self.r9.meet(&other.r9, loc_idx),
            r10: self.r10.meet(&other.r10, loc_idx),
            r11: self.r11.meet(&other.r11, loc_idx),
            r12: self.r12.meet(&other.r12, loc_idx),
            r13: self.r13.meet(&other.r13, loc_idx),
            r14: self.r14.meet(&other.r14, loc_idx),
            r15: self.r15.meet(&other.r15, loc_idx),
            zf: self.zf.meet(&other.zf, loc_idx),
        }
    }

    fn leq(&self, other: &Self) -> (r: bool) {
        self.rax.leq(&other.rax)
            && self.rbx.leq(&other.rbx)
            && self.rcx.leq(&other.rcx)
            && self.rdx.leq(&other.rdx)
            && self.rdi.leq(&other.rdi)
            && self.rsi.leq(&other.rsi)
            && self.rsp.leq(&other.rsp)
            && self.rbp.leq(&other.rbp)
            && self.r8.leq(&other.r8)
            && self.r9.leq(&other.r9)
            && self.r10.leq(&other.r10)
            && self.r11.leq(&other.r11)
            && self.r12.leq(&other.r12)
            && self.r13.leq(&other.r13)
            && self.r14.leq(&other.r14)
            && self.r15.leq(&other.r15)
            && self.zf.leq(&other.zf)
    }

    fn same(&self, other: &Self) -> (r: bool) {
        self.rax.same(&other.rax)
            && self.rbx.same(&other.rbx)
            && self.rcx.same(&other.rcx)
            && self.rdx.same(&other.rdx)
            && self.rdi.same(&other.rdi)
            && self.rsi.same(&other.rsi)
            && self.rsp.same(&other.rsp)
            && self.rbp.same(&other.rbp)
            && self.r8.same(&other.r8)
            && self.r9.same(&other.r9)
            && self.r10.same(&other.r10)
            && self.r11.same(&other.r11)
            && self.r12.same(&other.r12)
            && self.r13.same(&other.r13)
            && self.r14.same(&other.r14)
            && self.r15.same(&other.r15)
            && self.zf.same(&other.zf)
    }

    fn duplicate(&self) -> (r: Self) {
        *self
    }

    proof fn lemma_comparable(a: X86RegsLattice<T::V>, b: X86RegsLattice<T::V>) {
        T::lemma_comparable(a.rax, b.rax);
        T::lemma_comparable(a.rbx, b.rbx);
        T::lemma_comparable(a.rcx, b.rcx);
        T::lemma_comparable(a.rdx, b.rdx);
        T::lemma_comparable(a.rdi, b.rdi);
        T::lemma_comparable(a.rsi, b.rsi);
        T::lemma_comparable(a.rsp, b.rsp);
        T::lemma_comparable(a.rbp, b.rbp);
        T::lemma_comparable(a.r8, b.r8);
        T::lemma_comparable(a.r9, b.r9);
        T::lemma_comparable(a.r10, b.r10);
        T::lemma_comparable(a.r11, b.r11);
        T::lemma_comparable(a.r12, b.r12);
        T::lemma_comparable(a.r13, b.r13);
        T::lemma_comparable(a.r14, b.r14);
        T::lemma_comparable(a.r15, b.r15);
        T::lemma_comparable(a.zf, b.zf);
    }

    proof fn lemma_meet_comparable(a: X86RegsLattice<T::V>, b: X86RegsLattice<T::V>, c: X86RegsLattice<T::V>) {
        T::lemma_meet_comparable(a.rax, b.rax, c.rax);
        T::lemma_meet_comparable(a.rbx, b.rbx, c.rbx);
        T::lemma_meet_comparable(a.rcx, b.rcx, c.rcx);
        T::lemma_meet_comparable(a.rdx, b.rdx, c.rdx);
        T::lemma_meet_comparable(a.rdi, b.rdi, c.rdi);
        T::lemma_meet_comparable(a.rsi, b.rsi, c.rsi);
        T::lemma_meet_comparable(a.rsp, b.rsp, c.rsp);
        T::lemma_meet_comparable(a.rbp, b.rbp, c.rbp);
        T::lemma_meet_comparable(a.r8, b.r8, c.r8);
        T::lemma_meet_comparable(a.r9, b.r9, c.r9);
        T::lemma_meet_comparable(a.r10, b.r10, c.r10);
        T::lemma_meet_comparable(a.r11, b.r11, c.r11);
        T::lemma_meet_comparable(a.r12, b.r12, c.r12);
        T::lemma_meet_comparable(a.r13, b.r13, c.r13);
        T::lemma_meet_comparable(a.r14, b.r14, c.r14);
        T::lemma_meet_comparable(a.r15, b.r15, c.r15);
        T::lemma_meet_comparable(a.zf, b.zf, c.zf);
    }

    proof fn lemma_meet_idempotent(a: X86RegsLattice<T::V>) {
        T::lemma_meet_idempotent(a.rax);
        T::lemma_meet_idempotent(a.rbx);
        T::lemma_meet_idempotent(a.rcx);
        T::lemma_meet_idempotent(a.rdx);
        T::lemma_meet_idempotent(a.rdi);
        T::lemma_meet_idempotent(a.rsi);
        T::lemma_meet_idempotent(a.rsp);
        T::lemma_meet_idempotent(a.rbp);
        T::lemma_meet_idempotent(a.r8);
        T::lemma_meet_idempotent(a.r9);
        T::lemma_meet_idempotent(a.r10);
        T::lemma_meet_idempotent(a.r11);
        T::lemma_meet_idempotent(a.r12);
        T::lemma_meet_idempotent(a.r13);
        T::lemma_meet_idempotent(a.r14);
        T::lemma_meet_idempotent(a.r15);
        T::lemma_meet_idempotent(a.zf);
    }

    proof fn lemma_meet_commutative(a: X86RegsLattice<T::V>, b: X86RegsLattice<T::V>) {
        T::lemma_meet_commutative(a.rax, b.rax);
        T::lemma_meet_commutative(a.rbx, b.rbx);
        T::lemma_meet_commutative(a.rcx, b.rcx);
        T::lemma_meet_commutative(a.rdx, b.rdx);
        T::lemma_meet_commutative(a.rdi, b.rdi);
        T::lemma_meet_commutative(a.rsi, b.rsi);
        T::lemma_meet_commutative(a.rsp, b.rsp);
        T::lemma_meet_commutative(a.rbp, b.rbp);
        T::lemma_meet_commutative(a.r8, b.r8);
        T::lemma_meet_commutative(a.r9, b.r9);
        T::lemma_meet_commutative(a.r10, b.r10);
        T::lemma_meet_commutative(a.r11, b.r11);
        T::lemma_meet_commutative(a.r12, b.r12);
        T::lemma_meet_commutative(a.r13, b.r13);
        T::lemma_meet_commutative(a.r14, b.r14);
        T::lemma_meet_commutative(a.r15, b.r15);
        T::lemma_meet_commutative(a.zf, b.zf);
    }

    proof fn lemma_meet_associative(a: X86RegsLattice<T::V>, b: X86RegsLattice<T::V>, c: X86RegsLattice<T::V>) {
        T::lemma_meet_associative(a.rax, b.rax, c.rax);
        T::lemma_meet_associative(a.rbx, b.rbx, c.rbx);
        T::lemma_meet_associative(a.rcx, b.rcx, c.rcx);
        T::lemma_meet_associative(a.rdx, b.rdx, c.rdx);
        T::lemma_meet_associative(a.rdi, b.rdi, c.rdi);
        T::lemma_meet_associative(a.rsi, b.rsi, c.rsi);
        T::lemma_meet_associative(a.rsp, b.rsp, c.rsp);
        T::lemma_meet_associative(a.rbp, b.rbp, c.rbp);
        T::lemma_meet_associative(a.r8, b.r8, c.r8);
        T::lemma_meet_associative(a.r9, b.r9, c.r9);
        T::lemma_meet_associative(a.r10, b.r10, c.r10);
        T::lemma_meet_associative(a.r11, b.r11, c.r11);
        T::lemma_meet_associative(a.r12, b.r12, c.r12);
        T::lemma_meet_associative(a.r13, b.r13, c.r13);
        T::lemma_meet_associative(a.r14, b.r14, c.r14);
        T::lemma_meet_associative(a.r15, b.r15, c.r15);
        T::lemma_meet_associative(a.zf, b.zf, c.zf);
    }

    proof fn lemma_le_iff_meet(a: X86RegsLattice<T::V>, b: X86RegsLattice<T::V>) {
        T::lemma_le_iff_meet(a.rax, b.rax);
        T::lemma_le_iff_meet(a.rbx, b.rbx);
        T::lemma_le_iff_meet(a.rcx, b.rcx);
        T::lemma_le_iff_meet(a.rdx, b.rdx);
        T::lemma_le_iff_meet(a.rdi, b.rdi);
        T::lemma_le_iff_meet(a.rsi, b.rsi);
        T::lemma_le_iff_meet(a.rsp, b.rsp);
        T::lemma_le_iff_meet(a.rbp, b.rbp);
        T::lemma_le_iff_meet(a.r8, b.r8);
        T::lemma_le_iff_meet(a.r9, b.r9);
        T::lemma_le_iff_meet(a.r10, b.r10);
        T::lemma_le_iff_meet(a.r11, b.r11);
        T::lemma_le_iff_meet(a.r12, b.r12);
        T::lemma_le_iff_meet(a.r13, b.r13);
        T::lemma_le_iff_meet(a.r14, b.r14);
        T::lemma_le_iff_meet(a.r15, b.r15);
        T::lemma_le_iff_meet(a.zf, b.zf);
    }
}

impl<T: Lattice + Copy> Lattice for X86RegsLattice<T> {
    open spec fn bot_spec() -> X86RegsLattice<T::V> {
        X86RegsLattice {
            rax: T::bot_spec(),
            rbx: T::bot_spec(),
            rcx: T::bot_spec(),
            rdx: T::bot_spec(),
            rdi: T::bot_spec(),
            rsi: T::bot_spec(),
            rsp: T::bot_spec(),
            rbp: T::bot_spec(),
            r8: T::bot_spec(),
            r9: T::bot_spec(),
            r10: T::bot_spec(),
            r11: T::bot_spec(),
            r12: T::bot_spec(),
            r13: T::bot_spec(),
            r14: T::bot_spec(),
            r15: T::bot_spec(),
            zf: T::bot_spec(),
        }
    }

    fn bot() -> (r: Self) {
        X86RegsLattice {
            rax: T::bot(),
            rbx: T::bot(),
            rcx: T::bot(),
            rdx: T::bot(),
            rdi: T::bot(),
            rsi: T::bot(),
            rsp: T::bot(),
            rbp: T::bot(),
            r8: T::bot(),
            r9: T::bot(),
            r10: T::bot(),
            r11: T::bot(),
            r12: T::bot(),
            r13: T::bot(),
            r14: T::bot(),
            r15: T::bot(),
            zf: T::bot(),
        }
    }

    proof fn lemma_meet_bot(a: X86RegsLattice<T::V>) {
        T::lemma_meet_bot(a.rax);
        T::lemma_meet_bot(a.rbx);
        T::lemma_meet_bot(a.rcx);
        T::lemma_meet_bot(a.rdx);
        T::lemma_meet_bot(a.rdi);
        T::lemma_meet_bot(a.rsi);
        T::lemma_meet_bot(a.rsp);
        T::lemma_meet_bot(a.rbp);
        T::lemma_meet_bot(a.r8);
        T::lemma_meet_bot(a.r9);
        T::lemma_meet_bot(a.r10);
        T::lemma_meet_bot(a.r11);
        T::lemma_meet_bot(a.r12);
        T::lemma_meet_bot(a.r13);
        T::lemma_meet_bot(a.r14);
        T::lemma_meet_bot(a.r15);
        T::lemma_meet_bot(a.zf);
    }
}

impl<T: Lattice + Copy> Default for X86RegsLattice<T> {
    fn default() -> (r: Self)
        ensures
            r@ == Self::bot_spec(),
    {
        Self::bot()
    }
}

impl<T: Lattice + Copy> PartialEq for X86RegsLattice<T> {
    fn eq(&self, other: &X86RegsLattice<T>) -> (r: bool) {
        self.same(other)
    }
}

impl<T: Lattice + Copy> vstd::std_specs::cmp::PartialEqSpecImpl for X86RegsLattice<T> {
    open spec fn obeys_eq_spec() -> bool {
        true
    }

    open spec fn eq_spec(&self, other: &X86RegsLattice<T>) -> bool {
        self@ == other@
    }
}

/// How two register files compare in the order of the lattice.
pub open spec fn regs_partial_cmp<T: Lattice + Copy>(a: X86RegsLattice<T::V>, b: X86RegsLattice<T::V>) -> Option<
    Ordering,
> {
    if a == b {
        Some(Ordering::Equal)
    } else if X86RegsLattice::<T>::le_spec(a, b) {
        Some(Ordering::Less)
    } else if X86RegsLattice::<T>::le_spec(b, a) {
        Some(Ordering::Greater)
    } else {
        None
    }
}

impl<T: Lattice + Copy> PartialOrd for X86RegsLattice<T> {
    fn partial_cmp(&self, other: &X86RegsLattice<T>) -> (r: Option<Ordering>) {
        if self.same(other) {
            Some(Ordering::Equal)
        } else if self.leq(other) {
            Some(Ordering::Less)
        } else if other.leq(self) {
            Some(Ordering::Greater)
        } else {
            None
        }
    }
}

impl<T: Lattice + Copy> vstd::std_specs::cmp::PartialOrdSpecImpl for X86RegsLattice<T> {
    open spec fn obeys_partial_cmp_spec() -> bool {
        true
    }

    open spec fn partial_cmp_spec(&self, other: &X86RegsLattice<T>) -> Option<Ordering> {
        regs_partial_cmp::<T>(self@, other@)
    }
}

} // verus!
