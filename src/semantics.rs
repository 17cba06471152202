//! A model of how a generated builder behaves at its own run time, with its
//! laws. The model is not derived from the emitted text: it restates, over one
//! value type, what the emitted declarations do. One optional slot per field,
//! in declaration order; a factory that starts every slot absent; a setter that
//! overwrites one slot; a build that checks the slots in order, fails on the
//! first absent one, and otherwise hands out clones of the stored values,
//! leaving the builder as it was.
use vstd::prelude::*;

verus! {

/// The slots of a fresh builder of `n` fields: all absent.
pub open spec fn absent_slots<V>(n: nat) -> Seq<Option<V>> {
    Seq::new(n, |i: int| None)
}

/// The slots after a fresh builder of `n` fields has received the setter calls
/// `ops` in order, each one a field index and a value.
pub open spec fn after_sets<V>(n: nat, ops: Seq<(nat, V)>) -> Seq<Option<V>>
    decreases ops.len(),
{
    if ops.len() == 0 {
        absent_slots(n)
    } else {
        after_sets(n, ops.drop_last()).update(ops.last().0 as int, Some(ops.last().1))
    }
}

/// What build gives for the slots: the values in field order when every slot
/// is present, else the index of the first absent slot.
pub open spec fn build_outcome<V>(slots: Seq<Option<V>>) -> Result<Seq<V>, nat>
    decreases slots.len(),
{
    if slots.len() == 0 {
        Ok(Seq::empty())
    } else {
        match build_outcome(slots.drop_last()) {
            Err(k) => Err(k),
            Ok(values) => match slots.last() {
                Some(v) => Ok(values.push(v)),
                None => Err((slots.len() - 1) as nat),
            },
        }
    }
}

/// Every setter call names a field of a builder of `n` fields.
pub open spec fn ops_in_range<V>(n: nat, ops: Seq<(nat, V)>) -> bool {
    forall|j: int| 0 <= j < ops.len() ==> (#[trigger] ops[j]).0 < n
}

/// Some setter call names field `k`.
pub open spec fn sets_field<V>(ops: Seq<(nat, V)>, k: nat) -> bool {
    exists|j: int| 0 <= j < ops.len() && (#[trigger] ops[j]).0 == k
}

/// No two setter calls name the same field.
pub open spec fn sets_distinct<V>(ops: Seq<(nat, V)>) -> bool {
    forall|a: int, b: int|
        0 <= a < ops.len() && 0 <= b < ops.len() && a != b ==> (#[trigger] ops[a]).0 != (
        #[trigger] ops[b]).0
}

/// Which builder field went unset: the first absent one in declaration order.
#[derive(Clone, Copy, Debug, PartialEq, Eq)]
pub struct MissingField {
    pub index: usize,
}

/// A model of a generated builder's run-time state: slot `i` holds the value
/// set for field `i`, if any.
pub struct BuilderModel<V> {
    slots: Vec<Option<V>>,
}

impl<V> View for BuilderModel<V> {
    type V = Seq<Option<V>>;

    closed spec fn view(&self) -> Seq<Option<V>> {
        self.slots@
    }
}

impl<V: Clone> BuilderModel<V> {
    /// The factory: a builder of `field_count` fields, every slot absent.
    pub fn new(field_count: usize) -> (r: Self)
        ensures
            r@ == absent_slots::<V>(field_count as nat),
    {
        let mut slots: Vec<Option<V>> = Vec::new();
        let mut i: usize = 0;
        while i < field_count
            invariant
                i <= field_count,
                slots@ == absent_slots::<V>(i as nat),
            decreases field_count - i,
        {
            slots.push(None);
            i = i + 1;
            assert(slots@ =~= absent_slots::<V>(i as nat));
        }
        BuilderModel { slots }
    }

    /// The number of fields.
    pub fn field_count(&self) -> (r: usize)
        ensures
            r == self@.len(),
    {
        self.slots.len()
    }

    /// The setter of field `index`: stores `value`, replacing any earlier one.
    pub fn set(&mut self, index: usize, value: V)
        requires
            index < old(self)@.len(),
        ensures
            final(self)@ == old(self)@.update(index as int, Some(value)),
    {
        self.slots.set(index, Some(value));
    }

    /// The build: checks the slots in field order and fails on the first absent
    /// one; otherwise returns clones of the stored values. The builder is left
    /// unchanged either way.
    pub fn build(&self) -> (r: Result<Vec<V>, MissingField>)
        ensures
            r is Ok <==> build_outcome(self@) is Ok,
            r matches Ok(values) ==> values@.len() == self@.len() && forall|i: int|
                0 <= i < values@.len() ==> cloned::<V>(
                    build_outcome(self@)->Ok_0[i],
                    #[trigger] values@[i],
                ),
            r matches Err(e) ==> build_outcome(self@) == Err::<Seq<V>, nat>(e.index as nat),
    {
        let mut values: Vec<V> = Vec::new();
        let mut i: usize = 0;
        while i < self.slots.len()
            invariant
                i <= self@.len(),
                build_outcome(self@.subrange(0, i as int)) is Ok,
                build_outcome(self@.subrange(0, i as int))->Ok_0.len() == i,
                values@.len() == i,
                forall|j: int|
                    0 <= j < i ==> cloned::<V>(
                        build_outcome(self@.subrange(0, i as int))->Ok_0[j],
                        #[trigger] values@[j],
                    ),
            decreases self@.len() - i,
        {
            let ghost prefix = self@.subrange(0, i as int);
            let ghost next = self@.subrange(0, i + 1);
            assert(next.drop_last() =~= prefix);
            match self.slots[i].clone() {
                Some(v) => {
                    values.push(v);
                },
                None => {
                    proof {
                        lemma_outcome_extends(self@, (i + 1) as nat);
                    }
                    return Err(MissingField { index: i });
                },
            }
            i = i + 1;
        }
        assert(self@.subrange(0, self@.len() as int) =~= self@);
        Ok(values)
    }
}

/// A failure of build on a prefix of the slots is the failure on the whole.
proof fn lemma_outcome_extends<V>(slots: Seq<Option<V>>, i: nat)
    requires
        i <= slots.len(),
        build_outcome(slots.subrange(0, i as int)) is Err,
    ensures
        build_outcome(slots) == build_outcome(slots.subrange(0, i as int)),
    decreases slots.len() - i,
{
    if i < slots.len() {
        let next = slots.subrange(0, i + 1 as int);
        assert(next.drop_last() =~= slots.subrange(0, i as int));
        lemma_outcome_extends(slots, i + 1);
    } else {
        assert(slots.subrange(0, i as int) =~= slots);
    }
}

proof fn lemma_after_sets_len<V>(n: nat, ops: Seq<(nat, V)>)
    requires
        ops_in_range(n, ops),
    ensures
        after_sets(n, ops).len() == n,
    decreases ops.len(),
{
    if ops.len() > 0 {
        lemma_after_sets_len(n, ops.drop_last());
    }
}

/// Slot `k` is present exactly when some setter call named field `k`; with
/// distinct calls, each field holds the value of the call that named it.
proof fn lemma_after_sets_slots<V>(n: nat, ops: Seq<(nat, V)>)
    requires
        ops_in_range(n, ops),
    ensures
        after_sets(n, ops).len() == n,
        forall|k: nat| k < n ==> ((#[trigger] after_sets(n, ops)[k as int]) is Some <==> sets_field(ops, k)),
        sets_distinct(ops) ==> forall|j: int|
            0 <= j < ops.len() ==> after_sets(n, ops)[(#[trigger] ops[j]).0 as int] == Some(ops[j].1),
    decreases ops.len(),
{
    lemma_after_sets_len(n, ops);
    if ops.len() > 0 {
        let rest = ops.drop_last();
        let last = ops.last();
        lemma_after_sets_slots(n, rest);
        assert forall|k: nat| k < n implies ((#[trigger] after_sets(n, ops)[k as int]) is Some
            <==> sets_field(ops, k)) by {
            if k != last.0 {
                if sets_field(ops, k) {
                    let j = choose|j: int| 0 <= j < ops.len() && (#[trigger] ops[j]).0 == k;
                    assert(rest[j].0 == k);
                }
                if sets_field(rest, k) {
                    let j = choose|j: int| 0 <= j < rest.len() && (#[trigger] rest[j]).0 == k;
                    assert(ops[j].0 == k);
                }
            } else {
                assert(ops[ops.len() - 1].0 == k);
            }
        }
        if sets_distinct(ops) {
            assert(sets_distinct(rest)) by {
                assert forall|a: int, b: int|
                    0 <= a < rest.len() && 0 <= b < rest.len() && a != b implies (
                    #[trigger] rest[a]).0 != (#[trigger] rest[b]).0 by {
                    assert(rest[a] == ops[a] && rest[b] == ops[b]);
                }
            }
            assert forall|j: int| 0 <= j < ops.len() implies after_sets(n, ops)[(
            #[trigger] ops[j]).0 as int] == Some(ops[j].1) by {
                if j < ops.len() - 1 {
                    assert(rest[j] == ops[j]);
                    assert(ops[j].0 != ops[ops.len() - 1].0);
                }
            }
        }
    }
}

/// With every slot present, build succeeds with the stored values in order.
proof fn lemma_all_present_builds<V>(slots: Seq<Option<V>>)
    requires
        forall|j: int| 0 <= j < slots.len() ==> (#[trigger] slots[j]) is Some,
    ensures
        build_outcome(slots) is Ok,
        build_outcome(slots)->Ok_0.len() == slots.len(),
        forall|j: int|
            0 <= j < slots.len() ==> (#[trigger] build_outcome(slots)->Ok_0[j]) == slots[j]->Some_0,
    decreases slots.len(),
{
    if slots.len() > 0 {
        let rest = slots.drop_last();
        assert forall|j: int| 0 <= j < rest.len() implies (#[trigger] rest[j]) is Some by {
            assert(rest[j] == slots[j]);
        }
        lemma_all_present_builds(rest);
        assert(slots[slots.len() - 1] is Some);
        assert forall|j: int| 0 <= j < slots.len() implies (#[trigger] build_outcome(
            slots,
        )->Ok_0[j]) == slots[j]->Some_0 by {
            if j < slots.len() - 1 {
                assert(rest[j] == slots[j]);
            }
        }
    }
}

/// Build fails with the first absent slot in field order.
proof fn lemma_first_absent_fails<V>(slots: Seq<Option<V>>, k: nat)
    requires
        k < slots.len(),
        slots[k as int] is None,
        forall|j: int| 0 <= j < k ==> (#[trigger] slots[j]) is Some,
    ensures
        build_outcome(slots) == Err::<Seq<V>, nat>(k),
    decreases slots.len(),
{
    let rest = slots.drop_last();
    if k < slots.len() - 1 {
        assert(rest[k as int] == slots[k as int]);
        assert forall|j: int| 0 <= j < k implies (#[trigger] rest[j]) is Some by {
            assert(rest[j] == slots[j]);
        }
        lemma_first_absent_fails(rest, k);
    } else {
        assert forall|j: int| 0 <= j < rest.len() implies (#[trigger] rest[j]) is Some by {
            assert(rest[j] == slots[j]);
        }
        lemma_all_present_builds(rest);
    }
}

/// A fresh builder on which every setter is called exactly once, in any order,
/// builds the value whose fields are the values given, each in its own field.
pub proof fn law_each_field_set_once<V>(n: nat, ops: Seq<(nat, V)>)
    requires
        ops_in_range(n, ops),
        sets_distinct(ops),
        forall|k: nat| k < n ==> #[trigger] sets_field(ops, k),
    ensures
        build_outcome(after_sets(n, ops)) is Ok,
        build_outcome(after_sets(n, ops))->Ok_0.len() == n,
        forall|j: int|
            0 <= j < ops.len() ==> build_outcome(after_sets(n, ops))->Ok_0[(
            #[trigger] ops[j]).0 as int] == ops[j].1,
{
    let slots = after_sets(n, ops);
    lemma_after_sets_slots(n, ops);
    assert forall|j: int| 0 <= j < slots.len() implies (#[trigger] slots[j]) is Some by {
        assert(sets_field(ops, j as nat));
        assert(slots[(j as nat) as int] is Some);
    }
    lemma_all_present_builds(slots);
    assert forall|j: int| 0 <= j < ops.len() implies build_outcome(slots)->Ok_0[(
    #[trigger] ops[j]).0 as int] == ops[j].1 by {
        assert(slots[ops[j].0 as int] == Some(ops[j].1));
    }
}

/// Build on a fresh builder of at least one field, with no setter called,
/// fails, reporting the first field.
pub proof fn law_unset_builder_fails<V>(n: nat)
    requires
        n > 0,
    ensures
        build_outcome(absent_slots::<V>(n)) == Err::<Seq<V>, nat>(0),
{
    lemma_first_absent_fails(absent_slots::<V>(n), 0);
}

/// When every field but `k` has been set, in any order and any number of
/// times, build fails and reports field `k`, whatever the values.
pub proof fn law_missing_field_reported<V>(n: nat, ops: Seq<(nat, V)>, k: nat)
    requires
        k < n,
        ops_in_range(n, ops),
        !sets_field(ops, k),
        forall|i: nat| i < n && i != k ==> #[trigger] sets_field(ops, i),
    ensures
        build_outcome(after_sets(n, ops)) == Err::<Seq<V>, nat>(k),
{
    let slots = after_sets(n, ops);
    lemma_after_sets_slots(n, ops);
    assert(slots[k as int] is None);
    assert forall|j: int| 0 <= j < k implies (#[trigger] slots[j]) is Some by {
        assert(sets_field(ops, j as nat));
        assert(slots[(j as nat) as int] is Some);
    }
    lemma_first_absent_fails(slots, k);
}

/// Calling a setter twice on the same field leaves the builder as if only the
/// second call had been made.
pub proof fn law_last_set_wins<V>(n: nat, ops: Seq<(nat, V)>, i: nat, first: V, second: V)
    requires
        i < n,
        ops_in_range(n, ops),
    ensures
        after_sets(n, ops.push((i, first)).push((i, second))) == after_sets(
            n,
            ops.push((i, second)),
        ),
{
    let twice = ops.push((i, first)).push((i, second));
    let once = ops.push((i, second));
    let base = after_sets(n, ops);
    assert(twice.drop_last() =~= ops.push((i, first)));
    assert(ops.push((i, first)).drop_last() =~= ops);
    assert(once.drop_last() =~= ops);
    lemma_after_sets_len(n, ops);
    assert(after_sets(n, ops.push((i, first))) == base.update(i as int, Some(first)));
    assert(after_sets(n, twice) == base.update(i as int, Some(first)).update(i as int, Some(second)));
    assert(after_sets(n, once) == base.update(i as int, Some(second)));
    assert(after_sets(n, twice) =~= after_sets(n, once));
}

/// A builder of no fields builds at once, with no values.
pub proof fn law_no_fields_builds<V>()
    ensures
        build_outcome(absent_slots::<V>(0)) == Ok::<Seq<V>, nat>(Seq::empty()),
{
}

} // verus!
