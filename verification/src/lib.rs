//! Ownership and capability bookkeeping for reference-counted foreign
//! objects, as used by a Volume Shadow Copy Service requester.
//!
//! The foreign objects themselves are only ever reached through raw calls
//! (`AddRef`, `Release`, `QueryInterface`, and the three calls of an
//! asynchronous task). This crate holds every decision that surrounds those
//! calls: which call is due, what a returned status code means, and how the
//! logical reference count of a lineage of handles moves. Each decision is a
//! function from plain values to plain values, so the code that owns the raw
//! pointers performs the call it is handed and reports back what came of it.
//!
//! - [`safe_com_component`]: owning handles, casts between capabilities,
//!   borrowed views along a chain of ancestors, and the rules of the
//!   reference count.
//! - [`shared_count`]: the count as the handles of a lineage share it at
//!   run time.
//! - [`vss`]: asynchronous tasks and their dual-purpose error codes, the
//!   enumerator of shadow copy objects, and the service's enumerations.
//! - [`vsbackup`] and [`vswriter`]: what a requester's calls bring back, and
//!   the enumerations that describe a writer's components.

use vstd::prelude::*;
use vstd::std_specs::convert::FromSpecImpl;

pub mod safe_com_component;
pub mod shared_count;
pub mod vsbackup;
pub mod vss;
pub mod vswriter;

verus! {

/// A foreign status code.
pub type HRESULT = i32;

/// The operation succeeded.
pub const S_OK: HRESULT = 0;

/// The operation succeeded with a negative answer (end of a list reached).
pub const S_FALSE: HRESULT = 1;

/// The object does not implement the capability that was asked for.
pub const E_NOINTERFACE: HRESULT = -0x7FFF_BFFE;

/// What [`check_com`] returns for a status code: `Ok` exactly for [`S_OK`],
/// otherwise the code itself as the error.
pub open spec fn check_com_spec(hr: HRESULT) -> Result<(), HRESULT> {
    if hr == S_OK {
        Ok(())
    } else {
        Err(hr)
    }
}

/// Convert a status code into a `Result`: `Ok(())` for [`S_OK`], and
/// `Err(hr)` with the code unchanged for every other value.
pub fn check_com(hr: HRESULT) -> (r: Result<(), HRESULT>)
    ensures
        r == check_com_spec(hr),
{
    if hr == S_OK {
        Ok(())
    } else {
        Err(hr)
    }
}

/// A typed set of flags over a raw value: the typed side knows only the
/// flags that have a name.
pub trait AsRawBitFlags: Sized {
    /// The raw representation of the flags.
    type Raw: Copy;

    /// The typed flags of a raw value. Bits without a name may be dropped.
    fn from_raw(raw: Self::Raw) -> Self;

    /// The raw value of typed flags.
    fn into_raw(this: Self) -> Self::Raw;
}

/// Flags as they came from the foreign side, kept bit for bit, with the
/// typed flags `T` as a second reading. Reading the typed flags may drop
/// bits that have no name; the raw value never loses any.
#[derive(Debug)]
pub struct RawBitFlags<T: AsRawBitFlags> {
    raw: T::Raw,
}

impl<T: AsRawBitFlags> View for RawBitFlags<T> {
    type V = T::Raw;

    /// The raw value.
    closed spec fn view(&self) -> T::Raw {
        self.raw
    }
}

impl<T: AsRawBitFlags> Clone for RawBitFlags<T> {
    fn clone(&self) -> (r: Self)
        ensures
            r@ == self@,
    {
        RawBitFlags { raw: self.raw }
    }
}

impl<T: AsRawBitFlags> Copy for RawBitFlags<T> {

}

impl<T: AsRawBitFlags> RawBitFlags<T> {
    /// Wraps typed flags: the raw value is the one that
    /// [`AsRawBitFlags::into_raw`] gives for them.
    pub fn new(flags: T) -> (r: Self)
        ensures
            call_ensures(T::into_raw, (flags,), r@),
    {
        RawBitFlags { raw: T::into_raw(flags) }
    }

    /// Wraps a raw value as it is.
    pub fn from_raw(raw: T::Raw) -> (r: Self)
        ensures
            r@ == raw,
    {
        RawBitFlags { raw }
    }

    /// The raw value, with every bit that came in.
    pub fn raw(self) -> (raw: T::Raw)
        ensures
            raw == self@,
    {
        self.raw
    }

    /// The typed reading of the flags: what [`AsRawBitFlags::from_raw`]
    /// gives for the raw value.
    pub fn flags(self) -> (flags: T)
        ensures
            call_ensures(T::from_raw, (self@,), flags),
    {
        T::from_raw(self.raw)
    }
}

impl<T: AsRawBitFlags + Default> Default for RawBitFlags<T> {
    /// The default flags of `T`, wrapped.
    fn default() -> (r: Self) {
        RawBitFlags::new(T::default())
    }
}

impl<T: AsRawBitFlags> From<T> for RawBitFlags<T> {
    /// Wraps typed flags, as [`RawBitFlags::new`] does.
    fn from(flags: T) -> (r: Self) {
        RawBitFlags::new(flags)
    }
}

impl<T: AsRawBitFlags> FromSpecImpl<T> for RawBitFlags<T> {
    /// The conversion goes through [`AsRawBitFlags::into_raw`], of which
    /// nothing is known here: no value is promised.
    open spec fn obeys_from_spec() -> bool {
        false
    }

    closed spec fn from_spec(flags: T) -> Self {
        arbitrary()
    }
}

} // verus!
