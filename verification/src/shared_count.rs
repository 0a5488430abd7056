//! The count that the handles of one lineage share at run time.
//!
//! A handle that was never cloned holds an empty cell and counts for one.
//! The first clone fills the cell with a counter, and from then on every
//! handle of the lineage holds a share of that counter: the number of shares
//! is the number of live handles. A share goes away with its handle.
//!
//! What the counter says at any moment depends on what the other handles of
//! the lineage have done, which no contract here can know. So the functions
//! that read it promise only what holds of every count, and hand the count
//! on as a [`Lineage`], where the decisions are exact.

use crate::safe_com_component::{Fault, Lineage, LineageView, MAX_REFERENCE_COUNT};
use once_cell::unsync::OnceCell;
use std::rc::Rc;
use vstd::prelude::*;

verus! {

/// Declares `once_cell::unsync::OnceCell`, a cell that is written at most
/// once, as a type whose inside is not looked into.
#[verifier::external_type_specification]
#[verifier::external_body]
#[verifier::reject_recursive_types(T)]
pub struct ExOnceCell<T>(OnceCell<T>);

/// Makes the cell of a handle that has not been cloned, by
/// `once_cell::unsync::OnceCell::new`. Nothing is claimed of the cell.
#[verifier::external_body]
fn cell_new() -> (cell: OnceCell<Rc<()>>) {
    OnceCell::new()
}

/// Makes a cell that holds `counter`, by the `From` conversion of
/// `once_cell::unsync::OnceCell`. Nothing is claimed of the cell.
#[verifier::external_body]
fn cell_from(counter: Rc<()>) -> (cell: OnceCell<Rc<()>>) {
    OnceCell::from(counter)
}

/// Reads the cell by `once_cell::unsync::OnceCell::get`. Nothing is claimed
/// of what is found.
#[verifier::external_body]
fn cell_get(cell: &OnceCell<Rc<()>>) -> (counter: Option<&Rc<()>>) {
    cell.get()
}

/// Reads the cell by `once_cell::unsync::OnceCell::get_or_init`, filling an
/// empty cell with a [`fresh_counter`]. Nothing is claimed of what is found.
#[verifier::external_body]
fn cell_get_or_init(cell: &OnceCell<Rc<()>>) -> (counter: &Rc<()>) {
    cell.get_or_init(|| fresh_counter())
}

/// Counts the shares of a counter by `std::rc::Rc::strong_count`. Nothing
/// is claimed of the count.
#[verifier::external_body]
fn strong_count(counter: &Rc<()>) -> (count: usize) {
    Rc::strong_count(counter)
}

/// Takes one more share of a counter by `Clone` for `std::rc::Rc`. Nothing
/// is claimed of the share.
#[verifier::external_body]
fn share_of(counter: &Rc<()>) -> (share: Rc<()>) {
    Rc::clone(counter)
}

/// A counter with a single share.
fn fresh_counter() -> Rc<()> {
    Rc::new(())
}

/// The share of a lineage's count that one handle holds.
#[derive(Debug)]
pub struct SharedCount {
    ref_count: OnceCell<Rc<()>>,
}

impl SharedCount {
    /// The count of a handle that was just adopted: it is alone in its
    /// lineage, and nothing is allocated for it.
    pub fn new() -> (r: Self) {
        SharedCount { ref_count: cell_new() }
    }

    /// The number of live handles in the lineage, as far as it is known at
    /// this moment: the shares of the counter, or one if the handle was
    /// never cloned. It is at least one, since this handle is alive.
    pub fn reference_count(&self) -> (count: usize)
        ensures
            count >= 1,
    {
        // Reading the cell and counting the shares is the work of the cell
        // and of the counter, and what they answer depends on what the
        // other handles of the lineage have done since they were made. So
        // nothing but the lower bound holds of every answer. What a given
        // answer stands for is decided by `SharedCount::count_of_shares`,
        // which is exact.
        let shares = match cell_get(&self.ref_count) {
            Some(counter) => Some(strong_count(counter)),
            None => None,
        };
        let count = SharedCount::count_of_shares(shares);
        count
    }

    /// The count as a [`Lineage`] with nothing released yet. A count that
    /// 32 bits cannot hold is taken as the maximum, which leaves no room.
    pub fn lineage(&self) -> (r: Lineage)
        ensures
            1 <= r@.handles <= MAX_REFERENCE_COUNT,
            r@.add_refs == r@.handles,
            r@.releases == 0,
            r@.balanced(),
    {
        // The count is the one found at this moment. Which lineage a given
        // count stands for is decided by `SharedCount::lineage_of_count`,
        // which is exact.
        let count = self.reference_count();
        let lineage = SharedCount::lineage_of_count(count);
        lineage
    }

    /// One more share of the count, for a handle that is being made from
    /// this one. The counter is allocated now if it was not before.
    ///
    /// This does not look for room: [`SharedCount::try_share`] does.
    pub fn share(&self) -> (r: Self) {
        let counter = cell_get_or_init(&self.ref_count);
        SharedCount { ref_count: cell_from(share_of(counter)) }
    }

    /// One more share of the count if `lineage` has room for another
    /// handle, and [`Fault::ReferenceCountOverflow`] if it has none. The
    /// refusal comes before anything is allocated or shared.
    pub fn share_within(&self, lineage: &Lineage) -> (r: Result<Self, Fault>)
        ensures
            r is Err <==> lineage@.handles == MAX_REFERENCE_COUNT,
            r is Err ==> r->Err_0 == Fault::ReferenceCountOverflow,
    {
        if lineage.handles() == MAX_REFERENCE_COUNT {
            Err(Fault::ReferenceCountOverflow)
        } else {
            Ok(self.share())
        }
    }

    /// One more share of the count if the lineage has room for another
    /// handle at this moment: [`SharedCount::share_within`] the lineage that
    /// [`SharedCount::lineage`] finds. The only refusal is
    /// [`Fault::ReferenceCountOverflow`].
    pub fn try_share(&self) -> (r: Result<Self, Fault>)
        ensures
            r is Err ==> r->Err_0 == Fault::ReferenceCountOverflow,
    {
        let lineage = self.lineage();
        self.share_within(&lineage)
    }

    /// The count that a reading of the cell stands for. `shares` is `None`
    /// for an empty cell: the handle was never cloned and is alone, which
    /// counts as one. For a cell that holds a counter, `shares` is the number
    /// of shares that the counter reported, and that is the count; a counter
    /// at hand is itself a share, so a report of zero counts as one.
    pub fn count_of_shares(shares: Option<usize>) -> (count: usize)
        ensures
            count == count_of(shares),
            count >= 1,
    {
        match shares {
            Some(reported) => if reported == 0 {
                1
            } else {
                reported
            },
            None => 1,
        }
    }

    /// The lineage that a count stands for: that many live handles, with
    /// nothing released yet. A count that 32 bits cannot hold is taken as
    /// [`MAX_REFERENCE_COUNT`], which leaves no room, and a count of zero
    /// as one, since the handle that asks is alive.
    pub fn lineage_of_count(count: usize) -> (r: Lineage)
        ensures
            r@ == (LineageView {
                handles: handles_of(count),
                add_refs: handles_of(count),
                releases: 0,
            }),
            1 <= r@.handles <= MAX_REFERENCE_COUNT,
            r@.balanced(),
    {
        if count >= 0xFFFF_FFFF {
            Lineage::observed(MAX_REFERENCE_COUNT)
        } else if count == 0 {
            Lineage::observed(1)
        } else {
            Lineage::observed(count as u32)
        }
    }
}

/// The count that a reading of the cell stands for: see
/// [`SharedCount::count_of_shares`].
pub open spec fn count_of(shares: Option<usize>) -> usize {
    match shares {
        Some(reported) => if reported == 0 {
            1
        } else {
            reported
        },
        None => 1,
    }
}

/// The number of live handles that a count stands for: see
/// [`SharedCount::lineage_of_count`].
pub open spec fn handles_of(count: usize) -> nat {
    if count == 0 {
        1
    } else if count >= MAX_REFERENCE_COUNT {
        MAX_REFERENCE_COUNT as nat
    } else {
        count as nat
    }
}

} // verus!
