//! A cell with one slot for a boxed value. The only way to reach the slot is
//! to exchange what it holds for something else, so a value is at any time
//! either in the cell or with whoever took it out, never both.
use vstd::prelude::*;
use vstd::std_specs::convert::FromSpecImpl;

verus! {

/// One exchange on a slot: what comes out, and what the slot holds after.
/// What was in the slot comes out, what was offered stays in.
pub open spec fn exchange<T>(slot: Option<Box<T>>, new: Option<Box<T>>) -> (
    Option<Box<T>>,
    Option<Box<T>>,
) {
    (slot, new)
}

/// What a run of exchanges hands out, one value for each of `offered`, on a
/// slot that held `slot` at first.
pub open spec fn handed_out<T>(slot: Option<Box<T>>, offered: Seq<Option<Box<T>>>) -> Seq<
    Option<Box<T>>,
>
    decreases offered.len(),
{
    if offered.len() == 0 {
        Seq::empty()
    } else {
        seq![exchange(slot, offered[0]).0] + handed_out(
            exchange(slot, offered[0]).1,
            offered.skip(1),
        )
    }
}

/// What the slot holds after a run of exchanges.
pub open spec fn left_behind<T>(slot: Option<Box<T>>, offered: Seq<Option<Box<T>>>) -> Option<
    Box<T>,
>
    decreases offered.len(),
{
    if offered.len() == 0 {
        slot
    } else {
        left_behind(exchange(slot, offered[0]).1, offered.skip(1))
    }
}

/// A slot that holds either nothing or one boxed value.
pub struct SyncCell<T> {
    data: Option<Box<T>>,
}

impl<T> View for SyncCell<T> {
    type V = Option<Box<T>>;

    closed spec fn view(&self) -> Option<Box<T>> {
        self.data
    }
}

impl<T> SyncCell<T> {
    /// Makes a cell that holds `value`.
    pub fn new(value: Option<Box<T>>) -> (cell: Self)
        ensures
            cell@ == value,
    {
        match value {
            None => Self { data: None },
            Some(value) => Self { data: Some(value) },
        }
    }

    /// Puts `new` into the slot and hands out what the slot held.
    pub fn swap(&mut self, new: Option<Box<T>>) -> (taken: Option<Box<T>>)
        ensures
            (taken, final(self)@) == exchange(old(self)@, new),
    {
        let mut slot = new;
        core::mem::swap(&mut self.data, &mut slot);
        slot
    }
}

impl<T> Default for SyncCell<T> {
    /// The empty cell.
    fn default() -> (cell: Self)
        ensures
            cell@ is None,
    {
        Self::new(None)
    }
}

impl<T> From<Option<Box<T>>> for SyncCell<T> {
    fn from(from: Option<Box<T>>) -> (cell: Self)
        ensures
            cell@ == from,
    {
        Self::new(from)
    }
}

impl<T> FromSpecImpl<Option<Box<T>>> for SyncCell<T> {
    open spec fn obeys_from_spec() -> bool {
        true
    }

    closed spec fn from_spec(v: Option<Box<T>>) -> Self {
        SyncCell { data: v }
    }
}

impl<T> From<Box<T>> for SyncCell<T> {
    fn from(from: Box<T>) -> (cell: Self)
        ensures
            cell@ == Some(from),
    {
        Self::new(Some(from))
    }
}

impl<T> FromSpecImpl<Box<T>> for SyncCell<T> {
    open spec fn obeys_from_spec() -> bool {
        true
    }

    closed spec fn from_spec(v: Box<T>) -> Self {
        SyncCell { data: Some(v) }
    }
}

impl<T> From<T> for SyncCell<T> {
    fn from(from: T) -> (cell: Self)
        ensures
            cell@ == Some(Box::new(from)),
    {
        Self::new(Some(Box::new(from)))
    }
}

impl<T> FromSpecImpl<T> for SyncCell<T> {
    open spec fn obeys_from_spec() -> bool {
        true
    }

    closed spec fn from_spec(v: T) -> Self {
        SyncCell { data: Some(Box::new(v)) }
    }
}

/// An exchange hands out what the one before it put in: after `first` was
/// put in, putting in `second` hands out `first`, whatever the two are. And
/// an empty slot into which nothing is put hands out nothing and stays empty.
pub proof fn exchange_hands_out_the_last_value<T>(
    slot: Option<Box<T>>,
    first: Option<Box<T>>,
    second: Option<Box<T>>,
)
    ensures
        exchange(exchange(slot, first).1, second).0 == first,
        exchange(exchange(slot, first).1, second).1 == second,
        exchange(None::<Box<T>>, None).0 is None,
        exchange(None::<Box<T>>, None).1 is None,
{
}

/// No run of exchanges makes up a value, in whatever order the exchanges of
/// those who use the cell fall: the first hands out what the cell held at
/// first, each later one what the one before it put in, and what was put in
/// last stays in the cell.
pub proof fn exchanges_hand_out_what_was_put_in<T>(
    slot: Option<Box<T>>,
    offered: Seq<Option<Box<T>>>,
)
    ensures
        handed_out(slot, offered).len() == offered.len(),
        forall|i: int|
            0 <= i < offered.len() ==> #[trigger] handed_out(slot, offered)[i] == (if i == 0 {
                slot
            } else {
                offered[i - 1]
            }),
        forall|i: int|
            0 <= i < offered.len() ==> #[trigger] handed_out(slot, offered)[i] == slot
                || offered.contains(handed_out(slot, offered)[i]),
        left_behind(slot, offered) == (if offered.len() == 0 {
            slot
        } else {
            offered.last()
        }),
    decreases offered.len(),
{
    if offered.len() > 0 {
        let rest = offered.skip(1);
        exchanges_hand_out_what_was_put_in(offered[0], rest);
        assert forall|i: int| 0 <= i < offered.len() implies #[trigger] handed_out(
            slot,
            offered,
        )[i] == (if i == 0 {
            slot
        } else {
            offered[i - 1]
        }) by {
            if i > 0 {
                assert(handed_out(slot, offered)[i] == handed_out(offered[0], rest)[i - 1]);
                if i > 1 {
                    assert(rest[i - 2] == offered[i - 1]);
                }
            }
        }
        if rest.len() > 0 {
            assert(rest.last() == offered.last());
        }
    }
    assert forall|i: int| 0 <= i < offered.len() implies #[trigger] handed_out(slot, offered)[i]
        == slot || offered.contains(handed_out(slot, offered)[i]) by {
        if i > 0 {
            assert(offered[i - 1] == handed_out(slot, offered)[i]);
        }
    }
}

} // verus!
