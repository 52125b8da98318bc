//! The slots in which the callbacks of the streams are kept.
//!
//! A slot that is taken keeps its index for as long as its stream lives. The
//! last slot is never empty.

use vstd::prelude::*;

verus! {

/// The last slot, if there is one, is taken.
pub open spec fn ends_taken<T>(slots: Seq<Option<T>>) -> bool {
    slots.len() > 0 ==> slots.last() is Some
}

/// `index` is a slot that is taken.
pub open spec fn is_taken<T>(slots: Seq<Option<T>>, index: int) -> bool {
    0 <= index < slots.len() && slots[index] is Some
}

/// `index` is the first empty slot, or the end where no slot is empty.
pub open spec fn is_first_free<T>(slots: Seq<Option<T>>, index: int) -> bool {
    &&& 0 <= index <= slots.len()
    &&& forall|i: int| 0 <= i < index ==> slots[i] is Some
    &&& index < slots.len() ==> slots[index] is None
}

/// The slots once `item` is put at `index`, which is one of them or the end.
pub open spec fn placed<T>(slots: Seq<Option<T>>, index: int, item: T) -> Seq<Option<T>> {
    if index < slots.len() {
        slots.update(index, Some(item))
    } else {
        slots.push(Some(item))
    }
}

/// The slots without the empty ones at the end.
pub open spec fn trimmed<T>(slots: Seq<Option<T>>) -> Seq<Option<T>>
    decreases slots.len(),
{
    if slots.len() > 0 && slots.last() is None {
        trimmed(slots.drop_last())
    } else {
        slots
    }
}

/// The slots once the one at `index` is emptied.
pub open spec fn removed<T>(slots: Seq<Option<T>>, index: int) -> Seq<Option<T>> {
    trimmed(slots.update(index, None))
}

/// Puts `item` into the first empty slot, or behind the last one, and returns its index.
pub fn place<T>(slots: &mut Vec<Option<T>>, item: T) -> (index: usize)
    ensures
        is_first_free(old(slots)@, index as int),
        final(slots)@ == placed(old(slots)@, index as int, item),
{
    let mut i: usize = 0;
    while i < slots.len()
        invariant
            i <= slots@.len(),
            slots@ == old(slots)@,
            forall|j: int| 0 <= j < i ==> slots@[j] is Some,
        decreases slots@.len() - i,
    {
        if slots[i].is_none() {
            slots[i] = Some(item);
            return i;
        }
        i += 1;
    }
    slots.push(Some(item));
    slots.len() - 1
}

/// Empties the slot at `index`, drops the empty slots at the end, and returns
/// what was in the slot.
pub fn take<T>(slots: &mut Vec<Option<T>>, index: usize) -> (item: T)
    requires
        is_taken(old(slots)@, index as int),
    ensures
        old(slots)@[index as int] == Some(item),
        final(slots)@ == removed(old(slots)@, index as int),
{
    let item = slots[index].take().unwrap();
    while slots.len() > 0 && slots[slots.len() - 1].is_none()
        invariant
            trimmed(slots@) == removed(old(slots)@, index as int),
        decreases slots@.len(),
    {
        let _ = slots.pop();
    }
    item
}

proof fn lemma_trimmed<T>(slots: Seq<Option<T>>)
    ensures
        ends_taken(trimmed(slots)),
        trimmed(slots).len() <= slots.len(),
        trimmed(slots) == slots.take(trimmed(slots).len() as int),
        forall|i: int| trimmed(slots).len() <= i < slots.len() ==> #[trigger] slots[i] is None,
    decreases slots.len(),
{
    if slots.len() > 0 && slots.last() is None {
        let rest = slots.drop_last();
        lemma_trimmed(rest);
        assert(trimmed(slots) == slots.take(trimmed(slots).len() as int));
        assert forall|i: int| trimmed(slots).len() <= i < slots.len() implies #[trigger] slots[i] is None by {
            if i < rest.len() {
                assert(rest[i] is None);
            }
        }
    }
}

/// There is one first free index only.
pub proof fn law_first_free_is_unique<T>(slots: Seq<Option<T>>, i: int, j: int)
    requires
        is_first_free(slots, i),
        is_first_free(slots, j),
    ensures
        i == j,
{
}

/// Placing an item takes a slot that was not taken, leaves every taken slot
/// as it was, and leaves the last slot taken.
pub proof fn law_place_keeps_the_others<T>(slots: Seq<Option<T>>, index: int, item: T)
    requires
        ends_taken(slots),
        is_first_free(slots, index),
    ensures
        !is_taken(slots, index),
        is_taken(placed(slots, index, item), index),
        placed(slots, index, item)[index] == Some(item),
        forall|i: int|
            i != index ==> is_taken(placed(slots, index, item), i) == is_taken(slots, i),
        forall|i: int|
            is_taken(slots, i) ==> (#[trigger] placed(slots, index, item)[i]) == slots[i],
        ends_taken(placed(slots, index, item)),
{
}

/// Emptying a slot leaves every other taken slot as it was, under its index,
/// and leaves the last slot taken.
pub proof fn law_take_keeps_the_others<T>(slots: Seq<Option<T>>, index: int)
    requires
        is_taken(slots, index),
    ensures
        !is_taken(removed(slots, index), index),
        forall|i: int| i != index ==> is_taken(removed(slots, index), i) == is_taken(slots, i),
        forall|i: int|
            i != index && is_taken(slots, i) ==> (#[trigger] removed(slots, index)[i]) == slots[i],
        ends_taken(removed(slots, index)),
{
    let emptied = slots.update(index, None);
    lemma_trimmed(emptied);
    assert forall|i: int| i != index implies is_taken(removed(slots, index), i) == is_taken(
        slots,
        i,
    ) by {
        if is_taken(slots, i) {
            assert(emptied[i] is Some);
        }
    }
    assert(!is_taken(removed(slots, index), index)) by {
        assert(emptied[index] is None);
    }
}

/// Emptying a slot adds none.
pub proof fn law_take_shortens<T>(slots: Seq<Option<T>>, index: int)
    requires
        is_taken(slots, index),
    ensures
        removed(slots, index).len() <= slots.len(),
{
    lemma_trimmed(slots.update(index, None));
}

/// Taking back what was just placed restores the slots.
pub proof fn law_take_undoes_place<T>(slots: Seq<Option<T>>, index: int, item: T)
    requires
        ends_taken(slots),
        is_first_free(slots, index),
    ensures
        removed(placed(slots, index, item), index) == slots,
{
    let emptied = placed(slots, index, item).update(index, None);
    if index < slots.len() {
        assert(emptied == slots);
    } else {
        assert(emptied.drop_last() == slots);
        assert(emptied.last() is None);
        assert(trimmed(emptied) == trimmed(slots));
    }
}

/// The first free index is empty or the end, and no slot before it is empty.
pub proof fn law_first_free_is_the_least<T>(slots: Seq<Option<T>>, index: int, other: int)
    requires
        is_first_free(slots, index),
    ensures
        0 <= index <= slots.len(),
        index < slots.len() ==> slots[index] is None,
        0 <= other < slots.len() && slots[other] is None ==> index <= other,
{
}

/// There always is a first free index.
pub proof fn law_there_is_a_first_free_index<T>(slots: Seq<Option<T>>)
    ensures
        exists|index: int| is_first_free(slots, index),
    decreases slots.len(),
{
    if slots.len() == 0 {
        assert(is_first_free(slots, 0));
    } else {
        let rest = slots.drop_last();
        law_there_is_a_first_free_index(rest);
        let i = choose|i: int| is_first_free(rest, i);
        assert forall|j: int| 0 <= j < i implies slots[j] is Some by {
            assert(rest[j] is Some);
        }
        if i < rest.len() || slots.last() is None {
            assert(is_first_free(slots, i));
        } else {
            assert(is_first_free(slots, slots.len() as int));
        }
    }
}

/// Placing an item changes the slot it is placed in and no other, and adds a
/// slot at the end only.
pub proof fn law_place_changes_one_slot<T>(slots: Seq<Option<T>>, index: int, item: T)
    requires
        0 <= index <= slots.len(),
    ensures
        placed(slots, index, item).len() == (if index == slots.len() {
            slots.len() + 1
        } else {
            slots.len()
        }),
        placed(slots, index, item)[index] == Some(item),
        forall|i: int|
            0 <= i < slots.len() && i != index ==> (#[trigger] placed(slots, index, item)[i])
                == slots[i],
{
}

/// Taking an item empties its slot and changes no other; the slots that go are
/// empty ones at the end, and all of those.
pub proof fn law_take_empties_one_slot<T>(slots: Seq<Option<T>>, index: int)
    requires
        0 <= index < slots.len(),
    ensures
        removed(slots, index).len() <= slots.len(),
        removed(slots, index).len() > 0 ==> removed(slots, index).last() is Some,
        forall|i: int|
            0 <= i < removed(slots, index).len() ==> (#[trigger] removed(slots, index)[i]) == (
            if i == index {
                None
            } else {
                slots[i]
            }),
        forall|i: int|
            removed(slots, index).len() <= i < slots.len() ==> i == index
                || #[trigger] slots[i] is None,
{
    let emptied = slots.update(index, None);
    lemma_trimmed(emptied);
    assert forall|i: int| removed(slots, index).len() <= i < slots.len() implies i == index
        || #[trigger] slots[i] is None by {
        assert(emptied[i] is None);
    }
}

/// A slot is taken if it holds something, and the slots end with a taken one
/// unless there are none.
pub proof fn law_taken_slots_hold_something<T>(slots: Seq<Option<T>>, index: int)
    ensures
        is_taken(slots, index) <==> 0 <= index < slots.len() && slots[index] != None::<T>,
        ends_taken(slots) <==> slots.len() == 0 || slots[slots.len() - 1] != None::<T>,
{
}

} // verus!
