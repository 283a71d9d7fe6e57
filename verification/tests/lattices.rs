use veriwasm::ir::types::LocIdx;
use veriwasm::lattices::heap_lattice::{HeapValue, HeapValueLattice};
use veriwasm::lattices::regslattice::X86RegsLattice;
use veriwasm::lattices::stack_growth_lattice::StackGrowthLattice;
use veriwasm::lattices::switch_lattice::{SwitchValue, SwitchValueLattice};
use veriwasm::lattices::{BooleanLattice, ConstLattice, Constu32Lattice, Lattice, Semilattice};

#[test]
fn heap_lattice_test() {
    let x1 = HeapValueLattice { v: None };
    let x2 = HeapValueLattice {
        v: Some(HeapValue::HeapBase),
    };
    let x3 = HeapValueLattice {
        v: Some(HeapValue::HeapBase),
    };
    let x4 = HeapValueLattice {
        v: Some(HeapValue::Bounded4GB),
    };

    assert_eq!(x1 == x2, false);
    assert_eq!(x2 == x3, true);
    assert_eq!(x3 == x4, false);

    assert_eq!(x1 != x2, true);
    assert_eq!(x2 != x3, false);
    assert_eq!(x3 != x4, true);

    assert_eq!(x1 > x2, false);
    assert_eq!(x2 > x3, false);
    assert_eq!(x3 > x4, false);

    assert_eq!(x1 < x2, true);
    assert_eq!(x2 < x3, false);
    assert_eq!(x3 < x4, false);

    assert_eq!(
        x1.meet(&x2, &LocIdx { addr: 0, idx: 0 }) == HeapValueLattice { v: None },
        true
    );
    assert_eq!(
        x2.meet(&x3, &LocIdx { addr: 0, idx: 0 })
            == HeapValueLattice {
                v: Some(HeapValue::HeapBase)
            },
        true
    );
    assert_eq!(
        x3.meet(&x4, &LocIdx { addr: 0, idx: 0 }) == HeapValueLattice { v: None },
        true
    );
}

#[test]
fn boolean_lattice_test() {
    let x = BooleanLattice { v: false };
    let y = BooleanLattice { v: true };
    assert_eq!(x < y, true);
    assert_eq!(x > y, false);
    assert_eq!(x.lt(&y), true);
}

#[test]
fn u32_lattice_test() {
    let x1 = ConstLattice::<u32> { v: Some(1) };
    let x2 = ConstLattice::<u32> { v: Some(1) };
    let y1 = ConstLattice::<u32> { v: Some(2) };
    let y2 = ConstLattice::<u32> { v: Some(2) };

    let z1 = Constu32Lattice { v: Some(3) };
    let z2 = Constu32Lattice { v: Some(3) };

    assert_eq!(x1 < y1, false);
    assert_eq!(y1 < x1, false);
    assert_eq!(x1 == x2, true);
    assert_eq!(x1 != x2, false);
    assert_eq!(y2 != x1, true);
    assert_eq!(x1 >= y1, false);
    assert_eq!(x1 > x2, false);
    assert_eq!(x1 >= x2, true);
    assert_eq!(z1 == z2, true);
    assert_eq!(z1 == x1, false);
    assert_eq!(x1.lt(&y1), false);
}

fn regs_with(rax: bool, rbx: bool) -> X86RegsLattice<BooleanLattice> {
    X86RegsLattice {
        rax: BooleanLattice { v: rax },
        rbx: BooleanLattice { v: rbx },
        rcx: BooleanLattice { v: false },
        rdx: BooleanLattice { v: false },
        rdi: BooleanLattice { v: false },
        rsi: BooleanLattice { v: false },
        rsp: BooleanLattice { v: false },
        rbp: BooleanLattice { v: false },
        r8: BooleanLattice { v: false },
        r9: BooleanLattice { v: false },
        r10: BooleanLattice { v: false },
        r11: BooleanLattice { v: false },
        r12: BooleanLattice { v: false },
        r13: BooleanLattice { v: false },
        r14: BooleanLattice { v: false },
        r15: BooleanLattice { v: false },
        zf: BooleanLattice { v: false },
    }
}

#[test]
fn regs_lattice_test() {
    let r1 = regs_with(false, false);
    let r2 = regs_with(true, false);
    let r3 = regs_with(false, true);

    assert_eq!(r2.rax > r2.rbx, true);
    assert_eq!(r2.rax < r2.rbx, false);
    assert_eq!(r2.rax.gt(&r2.rbx), true);
    assert_eq!(r2.rbx == r2.rdi, true);

    assert_eq!(r1 < r2, true);
    assert_eq!(r1 <= r2, true);

    assert_eq!(r2 < r3, false);
    assert_eq!(r2 <= r3, false);

    assert_eq!(r2.meet(&r3, &LocIdx { addr: 0, idx: 0 }) == r1, true);
    assert_eq!(r1.meet(&r2, &LocIdx { addr: 0, idx: 0 }) == r1, true);
}

#[test]
fn stack_growth_lattice_test() {
    let x1 = StackGrowthLattice { v: None };
    let x2 = StackGrowthLattice { v: Some((1, 4096)) };
    let x3 = StackGrowthLattice { v: Some((1, 4096)) };
    let x4 = StackGrowthLattice { v: Some((2, 4096)) };

    assert_eq!(x1 == x2, false);
    assert_eq!(x2 == x3, true);
    assert_eq!(x3 == x4, false);

    assert_eq!(x1 != x2, true);
    assert_eq!(x2 != x3, false);
    assert_eq!(x3 != x4, true);

    assert_eq!(x1 > x2, false);
    assert_eq!(x2 > x3, false);
    assert_eq!(x3 > x4, false);

    assert_eq!(x1 < x2, true);
    assert_eq!(x2 < x3, false);
    assert_eq!(x3 < x4, false);

    assert_eq!(
        x1.meet(&x2, &LocIdx { addr: 0, idx: 0 }) == StackGrowthLattice { v: None },
        true
    );
    assert_eq!(
        x2.meet(&x3, &LocIdx { addr: 0, idx: 0 }) == StackGrowthLattice { v: Some((1, 4096)) },
        true
    );
    assert_eq!(
        x3.meet(&x4, &LocIdx { addr: 0, idx: 0 }) == StackGrowthLattice { v: None },
        true
    );
}

#[test]
fn switch_lattice_test() {
    let loc = LocIdx { addr: 0, idx: 0 };
    let x1 = SwitchValueLattice { v: None };
    let x2 = SwitchValueLattice { v: Some(SwitchValue::SwitchBase(1)) };
    let x3 = SwitchValueLattice { v: Some(SwitchValue::SwitchBase(1)) };
    let x4 = SwitchValueLattice { v: Some(SwitchValue::SwitchBase(2)) };
    let x5 = SwitchValueLattice { v: Some(SwitchValue::UpperBound(1)) };

    assert_eq!(x1 == x2, false);
    assert_eq!(x2 == x3, true);
    assert_eq!(x3 == x4, false);
    assert_eq!(x4 == x5, false);

    assert_eq!(x1 != x2, true);
    assert_eq!(x2 != x3, false);
    assert_eq!(x3 != x4, true);
    assert_eq!(x4 != x5, true);

    assert_eq!(x1 > x2, false);
    assert_eq!(x2 > x3, false);
    assert_eq!(x3 > x4, false);
    assert_eq!(x4 > x5, false);

    assert_eq!(x1 < x2, true);
    assert_eq!(x2 < x3, false);
    assert_eq!(x3 < x4, false);
    assert_eq!(x4 < x5, false);

    assert_eq!(x1.meet(&x2, &loc) == SwitchValueLattice { v: None }, true);
    assert_eq!(x2.meet(&x3, &loc) == SwitchValueLattice { v: Some(SwitchValue::SwitchBase(1)) }, true);
    assert_eq!(x3.meet(&x4, &loc) == SwitchValueLattice { v: None }, true);
    assert_eq!(x4.meet(&x5, &loc) == SwitchValueLattice { v: None }, true);
}

#[test]
fn flat_lattice_laws_on_values() {
    let loc = LocIdx { addr: 0, idx: 0 };
    let values = [
        ConstLattice::<u32> { v: None },
        ConstLattice::<u32> { v: Some(1) },
        ConstLattice::<u32> { v: Some(2) },
    ];
    let bot = ConstLattice::<u32>::bot();
    assert_eq!(bot == ConstLattice::<u32> { v: None }, true);
    for a in values.iter() {
        assert!(a.meet(a, &loc) == *a);
        assert!(a.meet(&bot, &loc) == bot);
        for b in values.iter() {
            assert!(a.meet(b, &loc) == b.meet(a, &loc));
            assert_eq!(a.leq(b), a.meet(b, &loc) == *a);
            assert_eq!(a.leq(b), a <= b);
            for c in values.iter() {
                assert!(a.meet(b, &loc).meet(c, &loc) == a.meet(&b.meet(c, &loc), &loc));
            }
        }
    }
}

#[test]
fn boolean_lattice_laws_on_values() {
    let loc = LocIdx { addr: 0, idx: 0 };
    let values = [BooleanLattice { v: false }, BooleanLattice { v: true }];
    let top = BooleanLattice { v: true };
    let bot = BooleanLattice::bot();
    assert_eq!(bot.v, false);
    for a in values.iter() {
        assert!(a.meet(a, &loc) == *a);
        assert!(a.meet(&top, &loc) == *a);
        assert!(a.meet(&bot, &loc) == bot);
        for b in values.iter() {
            assert!(a.meet(b, &loc) == b.meet(a, &loc));
            assert_eq!(a.leq(b), a.meet(b, &loc) == *a);
            assert_eq!(a.leq(b), a <= b);
        }
    }
}

#[test]
fn const_lattice_new_is_an_atom() {
    let x = ConstLattice::new(7u32);
    assert_eq!(x.v, Some(7));
    assert_eq!(ConstLattice::<u32>::default().v, None);
}

#[test]
fn stack_growth_getters() {
    let known = StackGrowthLattice { v: Some((8, 4096)) };
    let unknown = StackGrowthLattice { v: None };
    assert_eq!(known.get_stackgrowth(), Some(8));
    assert_eq!(known.get_probestack(), Some(4096));
    assert_eq!(unknown.get_stackgrowth(), None);
    assert_eq!(unknown.get_probestack(), None);
}
