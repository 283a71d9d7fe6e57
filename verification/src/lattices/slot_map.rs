//! A finite map from variables to slots, kept as a list of entries in which
//! no variable occurs twice.

use crate::ir::types::X86Regs;
use vstd::prelude::*;

verus! {

/// A variable of the abstract state: a register, or a stack slot named by
/// its offset from the stack pointer at function entry.
#[derive(Clone, Copy, Debug, PartialEq, Eq, Structural, Hash)]
pub enum VarIndex {
    Reg(X86Regs),
    Stack(i64),
}

/// What the abstract state holds for a variable: an abstract value, and the
/// width with which it was written.
#[derive(Clone, Copy, Debug)]
pub struct VarSlot<T> {
    pub size: u32,
    pub value: T,
}

/// The content of a [`VarSlot`].
pub struct SlotView<V> {
    pub size: u32,
    pub value: V,
}

impl<T: View> View for VarSlot<T> {
    type V = SlotView<T::V>;

    open spec fn view(&self) -> SlotView<T::V> {
        SlotView { size: self.size, value: self.value@ }
    }
}

/// The entries of a map.
pub type Entries<T> = Vec<(VarIndex, VarSlot<T>)>;

/// No variable occurs twice.
pub open spec fn distinct_keys<T>(s: Seq<(VarIndex, VarSlot<T>)>) -> bool {
    forall|i: int, j: int| 0 <= i < j < s.len() ==> s[i].0 != s[j].0
}

/// Whether a variable occurs.
pub open spec fn has_key<T>(s: Seq<(VarIndex, VarSlot<T>)>, key: VarIndex) -> bool {
    exists|i: int| 0 <= i < s.len() && #[trigger] s[i].0 == key
}

/// A position at which a variable occurs.
pub open spec fn key_index<T>(s: Seq<(VarIndex, VarSlot<T>)>, key: VarIndex) -> int {
    choose|i: int| 0 <= i < s.len() && #[trigger] s[i].0 == key
}

/// The map that a list of entries stands for.
pub open spec fn entries_map<T: View>(s: Seq<(VarIndex, VarSlot<T>)>) -> Map<VarIndex, SlotView<T::V>> {
    Map::new(|key: VarIndex| has_key(s, key), |key: VarIndex| s[key_index(s, key)].1@)
}

/// Each entry of a list without repetition is a binding of the map.
pub proof fn lemma_entry_is_binding<T: View>(s: Seq<(VarIndex, VarSlot<T>)>, i: int)
    requires
        distinct_keys(s),
        0 <= i < s.len(),
    ensures
        entries_map(s).contains_key(s[i].0),
        entries_map(s)[s[i].0] == s[i].1@,
        key_index(s, s[i].0) == i,
{
    assert(has_key(s, s[i].0));
    let j = key_index(s, s[i].0);
    assert(0 <= j < s.len() && s[j].0 == s[i].0);
    if j < i {
        assert(false);
    }
    if i < j {
        assert(false);
    }
}

/// A prefix of a list without repetition has no repetition, and the entry
/// behind it is not in it.
pub proof fn lemma_prefix<T: View>(s: Seq<(VarIndex, VarSlot<T>)>, i: int)
    requires
        distinct_keys(s),
        0 <= i <= s.len(),
    ensures
        distinct_keys(s.take(i)),
        i < s.len() ==> !has_key(s.take(i), s[i].0),
        i < s.len() ==> s.take(i + 1) == s.take(i).push(s[i]),
        i == s.len() ==> s.take(i) == s,
{
    if i < s.len() {
        assert(s.take(i + 1) =~= s.take(i).push(s[i]));
        if has_key(s.take(i), s[i].0) {
            let j = key_index(s.take(i), s[i].0);
            assert(s[j].0 == s[i].0);
        }
    } else {
        assert(s.take(i) =~= s);
    }
}

/// A new variable at the end of the list is a new binding of the map.
pub proof fn lemma_push<T: View>(s: Seq<(VarIndex, VarSlot<T>)>, key: VarIndex, slot: VarSlot<T>)
    requires
        distinct_keys(s),
        !has_key(s, key),
    ensures
        distinct_keys(s.push((key, slot))),
        entries_map(s.push((key, slot))) == entries_map(s).insert(key, slot@),
{
    let t = s.push((key, slot));
    assert forall|i: int, j: int| 0 <= i < j < t.len() implies t[i].0 != t[j].0 by {
        if j == s.len() {
            assert(s[i].0 == t[i].0);
        }
    }
    assert forall|k: VarIndex| #[trigger] entries_map(t).contains_key(k) <==> entries_map(s).insert(
        key,
        slot@,
    ).contains_key(k) by {
        if has_key(t, k) {
            let i = key_index(t, k);
            if i < s.len() {
                assert(s[i].0 == k);
            }
        }
        if has_key(s, k) {
            let i = key_index(s, k);
            assert(t[i].0 == k);
        }
        if k == key {
            assert(t[s.len() as int].0 == k);
        }
    }
    assert forall|k: VarIndex| #[trigger] entries_map(t).contains_key(k) implies entries_map(t)[k]
        == entries_map(s).insert(key, slot@)[k] by {
        let i = key_index(t, k);
        lemma_entry_is_binding(t, i);
        if i < s.len() {
            assert(s[i].0 == k);
            lemma_entry_is_binding(s, i);
        }
    }
    assert(entries_map(t) =~= entries_map(s).insert(key, slot@));
}

/// The empty list stands for the empty map.
pub proof fn lemma_empty<T: View>()
    ensures
        distinct_keys(Seq::<(VarIndex, VarSlot<T>)>::empty()),
        entries_map(Seq::<(VarIndex, VarSlot<T>)>::empty()) == Map::<VarIndex, SlotView<T::V>>::empty(),
{
    assert(entries_map(Seq::<(VarIndex, VarSlot<T>)>::empty()) =~= Map::<VarIndex, SlotView<T::V>>::empty());
}

/// The position of a variable in the list, if it occurs.
pub fn find<T: View>(entries: &Entries<T>, key: &VarIndex) -> (r: Option<usize>)
    ensures
        match r {
            Some(i) => i < entries@.len() && entries@[i as int].0 == *key,
            None => !has_key(entries@, *key),
        },
{
    let mut i: usize = 0;
    while i < entries.len()
        invariant
            i <= entries.len(),
            forall|j: int| 0 <= j < i ==> entries@[j].0 != *key,
        decreases entries.len() - i,
    {
        if entries[i].0 == *key {
            return Some(i);
        }
        i = i + 1;
    }
    None
}

/// The slot of a variable, if the map has one.
pub fn lookup<'a, T: View>(entries: &'a Entries<T>, key: &VarIndex) -> (r: Option<&'a VarSlot<T>>)
    requires
        distinct_keys(entries@),
    ensures
        match r {
            Some(slot) => entries_map(entries@).contains_key(*key) && entries_map(entries@)[*key] == slot@,
            None => !entries_map(entries@).contains_key(*key),
        },
{
    match find(entries, key) {
        Some(i) => {
            proof {
                lemma_entry_is_binding(entries@, i as int);
            }
            Some(&entries[i].1)
        },
        None => None,
    }
}

/// Takes the binding of a variable out of the map, if there is one.
pub fn remove_key<T: View>(entries: &mut Entries<T>, key: &VarIndex)
    requires
        distinct_keys(old(entries)@),
    ensures
        distinct_keys(final(entries)@),
        entries_map(final(entries)@) == entries_map(old(entries)@).remove(*key),
{
    match find(entries, key) {
        None => {
            assert(entries_map(entries@) =~= entries_map(entries@).remove(*key));
        },
        Some(i) => {
            let ghost before = entries@;
            entries.remove(i);
            let ghost after = entries@;
            proof {
                assert(after =~= before.remove(i as int));
                assert forall|a: int, b: int| 0 <= a < b < after.len() implies after[a].0 != after[b].0 by {
                    let a2 = if a < i { a } else { a + 1 };
                    let b2 = if b < i { b } else { b + 1 };
                    assert(after[a] == before[a2]);
                    assert(after[b] == before[b2]);
                }
                assert forall|k: VarIndex| #[trigger] entries_map(after).contains_key(k) <==> entries_map(
                    before,
                ).remove(*key).contains_key(k) by {
                    if has_key(after, k) {
                        let a = key_index(after, k);
                        let a2 = if a < i { a } else { a + 1 };
                        assert(before[a2].0 == k);
                        assert(a2 != i);
                        if k == *key {
                            lemma_entry_is_binding(before, a2);
                            lemma_entry_is_binding(before, i as int);
                        }
                    }
                    if has_key(before, k) && k != *key {
                        let b = key_index(before, k);
                        assert(b != i);
                        let b2 = if b < i { b } else { b - 1 };
                        assert(after[b2].0 == k);
                    }
                }
                assert forall|k: VarIndex| #[trigger] entries_map(after).contains_key(k) implies entries_map(
                    after,
                )[k] == entries_map(before).remove(*key)[k] by {
                    let a = key_index(after, k);
                    let a2 = if a < i { a } else { a + 1 };
                    lemma_entry_is_binding(after, a);
                    assert(after[a] == before[a2]);
                    lemma_entry_is_binding(before, a2);
                }
                assert(entries_map(after) =~= entries_map(before).remove(*key));
            }
        },
    }
}

/// Binds a variable to a slot, in place of the binding it had.
pub fn put<T: View>(entries: &mut Entries<T>, key: VarIndex, slot: VarSlot<T>)
    requires
        distinct_keys(old(entries)@),
    ensures
        distinct_keys(final(entries)@),
        entries_map(final(entries)@) == entries_map(old(entries)@).insert(key, slot@),
{
    let ghost before = entries_map(entries@);
    remove_key(entries, &key);
    proof {
        assert(!entries_map(entries@).contains_key(key));
        lemma_push(entries@, key, slot);
        assert(before.remove(key).insert(key, slot@) =~= before.insert(key, slot@));
    }
    entries.push((key, slot));
}

} // verus!
