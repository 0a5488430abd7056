//! Owning handles to a reference-counted foreign object, and the logical
//! reference count that the handles of one lineage share.
//!
//! A foreign object keeps its own reference count, canonically in 32 bits,
//! and cannot be asked for it. So every lineage of handles keeps a count of
//! its own: one for the adopted handle, one more for each clone and each
//! successful cast, one less for each release. No operation here lets that
//! count pass [`MAX_REFERENCE_COUNT`], and since the count never falls below
//! the number of references the lineage really holds, the foreign counter
//! cannot wrap either.
//!
//! Nothing in this module touches a foreign object. An operation hands back
//! the [`ForeignCall`] that the caller has to perform, and a cast takes what
//! the foreign query answered.
//!
//! The module has two layers. [`Handle`] and [`Lineage`] are the rules: the
//! count is a value that the caller passes in, and every contract is exact.
//! [`SafeCOMComponent`] is a handle that carries its share of the count with
//! it, as [`SharedCount`] keeps it at run time; what it reads there decides,
//! and it decides by the rules of the first layer.

use crate::shared_count::SharedCount;
use crate::{E_NOINTERFACE, HRESULT, S_OK};
use std::marker::PhantomData;
use vstd::prelude::*;

verus! {

/// The largest value that the foreign reference counter can hold.
pub const MAX_REFERENCE_COUNT: u32 = 0xFFFF_FFFF;

/// A capability type: an interface that a foreign object may implement,
/// together with the identity token by which the object is asked for it.
///
/// An implementation attests that a pointer which a successful query for
/// the token of [`CorrectInterface::uuidof`] yields can be used as this
/// capability.
pub trait CorrectInterface {
    /// The 128-bit identity token of the capability.
    fn uuidof() -> u128;
}

/// A capability type with a documented direct ancestor: the operations of
/// [`Derived::Ancestor`] are a prefix of this capability's own, so a pointer
/// to this capability is also a pointer to the ancestor.
pub trait Derived {
    /// The next broader capability.
    type Ancestor;
}

/// One of the three primitive calls that a foreign object accepts.
#[derive(Clone, Copy, Debug, PartialEq, Eq, Structural)]
pub enum ForeignCall {
    /// Increment the foreign reference count.
    AddRef,
    /// Decrement the foreign reference count; the object may free itself.
    Release,
    /// Ask for the capability with the given identity token.
    QueryInterface { iid: u128 },
}

/// Why a clone or a cast was refused. Each of these is a broken safety
/// precondition, not an outcome to recover from.
#[derive(Clone, Copy, Debug, PartialEq, Eq, Structural)]
pub enum Fault {
    /// The lineage already holds [`MAX_REFERENCE_COUNT`] references.
    ReferenceCountOverflow,
    /// The foreign query reported success and returned a null pointer.
    NullInterface,
    /// The foreign query answered with a code that is neither success nor
    /// "no such interface".
    UnexpectedResult(HRESULT),
}

/// The state of one lineage as the contracts see it.
pub struct LineageView {
    /// Handle instances that are alive.
    pub handles: nat,
    /// Foreign increments accounted to the lineage: the one that the adopted
    /// pointer came with, one per clone, one per successful cast.
    pub add_refs: nat,
    /// Foreign decrements that the lineage asked for, one per release.
    pub releases: nat,
}

/// What the handles of a lineage do.
pub enum HandleOp {
    /// A handle is cloned.
    Clone,
    /// A handle is cast and the foreign object granted the capability.
    Acquire,
    /// A handle is cast and the foreign object refused.
    Refuse,
    /// A handle is released.
    Release,
}

impl LineageView {
    /// The lineage of a freshly adopted pointer.
    pub open spec fn adopted() -> LineageView {
        LineageView { handles: 1, add_refs: 1, releases: 0 }
    }

    /// Whether `op` may be applied: it needs a live handle to act on, and
    /// room for one more reference unless it is a release.
    pub open spec fn permits(self, op: HandleOp) -> bool {
        match op {
            HandleOp::Release => 1 <= self.handles,
            _ => 1 <= self.handles < MAX_REFERENCE_COUNT,
        }
    }

    /// The lineage after `op`.
    pub open spec fn step(self, op: HandleOp) -> LineageView {
        match op {
            HandleOp::Clone | HandleOp::Acquire => LineageView {
                handles: self.handles + 1,
                add_refs: self.add_refs + 1,
                releases: self.releases,
            },
            HandleOp::Refuse => self,
            HandleOp::Release => LineageView {
                handles: (self.handles - 1) as nat,
                add_refs: self.add_refs,
                releases: self.releases + 1,
            },
        }
    }

    /// Every increment is matched by a live handle or by a release.
    pub open spec fn balanced(self) -> bool {
        self.add_refs == self.handles + self.releases
    }
}

/// The foreign call that goes with an operation: the caller performs it
/// after a clone and a release, and has performed it before a cast is
/// recorded (a granted cast increments the foreign count by itself).
pub open spec fn call_of(op: HandleOp, iid: u128) -> ForeignCall {
    match op {
        HandleOp::Clone => ForeignCall::AddRef,
        HandleOp::Release => ForeignCall::Release,
        HandleOp::Acquire | HandleOp::Refuse => ForeignCall::QueryInterface { iid },
    }
}

/// The logical reference count that all handles of one lineage share.
pub struct Lineage {
    handles: u32,
    add_refs: Ghost<nat>,
    releases: Ghost<nat>,
}

impl View for Lineage {
    type V = LineageView;

    closed spec fn view(&self) -> LineageView {
        LineageView {
            handles: self.handles as nat,
            add_refs: self.add_refs@,
            releases: self.releases@,
        }
    }
}

impl Lineage {
    /// The lineage of an object that `handles` live handles are known to
    /// share, with nothing released yet. This is where a caller that keeps
    /// the count by other means brings it in.
    pub fn observed(handles: u32) -> (r: Lineage)
        requires
            handles >= 1,
        ensures
            r@ == (LineageView { handles: handles as nat, add_refs: handles as nat, releases: 0 }),
            r@.balanced(),
    {
        Lineage { handles, add_refs: Ghost(handles as nat), releases: Ghost(0) }
    }

    /// The number of live handles.
    pub fn handles(&self) -> (count: u32)
        ensures
            count == self@.handles,
    {
        self.handles
    }
}

/// One logical reference to a foreign object, seen as the capability `T`.
///
/// It holds the address of the object, which is never null. The count of
/// its lineage is kept apart, in a [`Lineage`] that every operation takes.
#[derive(Debug)]
pub struct Handle<T> {
    comp: usize,
    interface: PhantomData<T>,
}

impl<T> View for Handle<T> {
    type V = usize;

    /// The address of the foreign object.
    closed spec fn view(&self) -> usize {
        self.comp
    }
}

impl<T> Handle<T> {
    /// A handle never holds a null address.
    #[verifier::type_invariant]
    spec fn non_null(&self) -> bool {
        self.comp != 0
    }

    /// Adopts a pointer that already stands for one foreign reference, and
    /// starts its lineage.
    pub fn new(comp: usize) -> (r: (Self, Lineage))
        requires
            comp != 0,
        ensures
            r.0@ == comp,
            r.1@ == LineageView::adopted(),
    {
        (
            Handle { comp, interface: PhantomData },
            Lineage { handles: 1, add_refs: Ghost(1), releases: Ghost(0) },
        )
    }

    /// The address of the foreign object. It is never null.
    pub fn comp(&self) -> (address: usize)
        ensures
            address == self@,
            address != 0,
    {
        proof {
            use_type_invariant(self);
        }
        self.comp
    }

    /// The number of live handles in the lineage.
    pub fn reference_count(&self, lineage: &Lineage) -> (count: usize)
        ensures
            count == lineage@.handles,
    {
        lineage.handles as usize
    }

    /// Whether one more reference would take the lineage past
    /// [`MAX_REFERENCE_COUNT`].
    pub fn check_if_overflowing_reference_count(&self, lineage: &Lineage) -> (overflowing: bool)
        ensures
            overflowing == (lineage@.handles == MAX_REFERENCE_COUNT),
    {
        lineage.handles == MAX_REFERENCE_COUNT
    }

    /// Duplicates the handle. The new handle is to the same object and owns a
    /// reference of its own, which the caller obtains by performing the
    /// returned call, [`ForeignCall::AddRef`].
    ///
    /// A lineage that is already at [`MAX_REFERENCE_COUNT`] must not be
    /// cloned from; [`Handle::try_clone`] tests for that.
    pub fn clone(&self, lineage: &mut Lineage) -> (r: (Self, ForeignCall))
        requires
            old(lineage)@.permits(HandleOp::Clone),
        ensures
            r.0@ == self@,
            r.1 == ForeignCall::AddRef,
            final(lineage)@ == old(lineage)@.step(HandleOp::Clone),
    {
        lineage.handles = lineage.handles + 1;
        lineage.add_refs = Ghost(lineage.add_refs@ + 1);
        proof {
            use_type_invariant(self);
        }
        (Handle { comp: self.comp, interface: PhantomData }, ForeignCall::AddRef)
    }

    /// Duplicates the handle unless the lineage is at
    /// [`MAX_REFERENCE_COUNT`]. In that case nothing changes and no foreign
    /// call is handed out: the refusal comes before any increment.
    pub fn try_clone(&self, lineage: &mut Lineage) -> (r: Result<(Self, ForeignCall), Fault>)
        requires
            1 <= old(lineage)@.handles,
        ensures
            old(lineage)@.handles == MAX_REFERENCE_COUNT ==> r == Err::<(Self, ForeignCall), Fault>(
                Fault::ReferenceCountOverflow,
            ) && final(lineage)@ == old(lineage)@,
            old(lineage)@.handles < MAX_REFERENCE_COUNT ==> r is Ok && r->Ok_0.0@ == self@ && r->Ok_0.1
                == ForeignCall::AddRef && final(lineage)@ == old(lineage)@.step(HandleOp::Clone),
    {
        if self.check_if_overflowing_reference_count(lineage) {
            Err(Fault::ReferenceCountOverflow)
        } else {
            Ok(self.clone(lineage))
        }
    }

    /// Gives up the handle. The caller performs the returned call,
    /// [`ForeignCall::Release`], exactly once.
    pub fn release(self, lineage: &mut Lineage) -> (call: ForeignCall)
        requires
            old(lineage)@.permits(HandleOp::Release),
        ensures
            call == ForeignCall::Release,
            final(lineage)@ == old(lineage)@.step(HandleOp::Release),
    {
        lineage.handles = lineage.handles - 1;
        lineage.releases = Ghost(lineage.releases@ + 1);
        ForeignCall::Release
    }

    /// The first half of a cast to the capability `I`: the call that asks
    /// the foreign object for it, by the token that [`CorrectInterface::uuidof`]
    /// hands out for `I`. A granted query increments the foreign count, so
    /// the lineage must have room for one more reference.
    pub fn query_interface_call<I: CorrectInterface>(&self, lineage: &Lineage) -> (call:
        ForeignCall)
        requires
            lineage@.permits(HandleOp::Acquire),
        ensures
            call is QueryInterface,
            call_ensures(I::uuidof, (), call->iid),
    {
        ForeignCall::QueryInterface { iid: I::uuidof() }
    }

    /// The first half of a cast, for any lineage: refused before anything is
    /// asked of the foreign object if the lineage is at
    /// [`MAX_REFERENCE_COUNT`].
    pub fn try_query_interface_call<I: CorrectInterface>(&self, lineage: &Lineage) -> (r: Result<
        ForeignCall,
        Fault,
    >)
        requires
            1 <= lineage@.handles,
        ensures
            lineage@.handles == MAX_REFERENCE_COUNT ==> r == Err::<ForeignCall, Fault>(
                Fault::ReferenceCountOverflow,
            ),
            lineage@.handles < MAX_REFERENCE_COUNT ==> r is Ok && r->Ok_0 is QueryInterface
                && call_ensures(I::uuidof, (), r->Ok_0->iid),
    {
        if self.check_if_overflowing_reference_count(lineage) {
            Err(Fault::ReferenceCountOverflow)
        } else {
            Ok(self.query_interface_call::<I>(lineage))
        }
    }

    /// The second half of a cast to the capability `I`: `hr` and `interface`
    /// are what the foreign query answered.
    ///
    /// On [`S_OK`] the result is a new handle to `interface`. It owns the
    /// reference that the foreign object added while answering, and belongs
    /// to the lineage of `self`. On [`E_NOINTERFACE`] the result is `None` and
    /// nothing has changed. Any other answer breaks the foreign contract and
    /// is not accepted here; [`Handle::try_query_interface`] takes
    /// every answer.
    pub fn query_interface<I: CorrectInterface>(
        &self,
        lineage: &mut Lineage,
        hr: HRESULT,
        interface: usize,
    ) -> (r: Option<Handle<I>>)
        requires
            old(lineage)@.permits(HandleOp::Acquire),
            query_fault(hr, interface) is None,
        ensures
            final(lineage)@ == old(lineage)@.step(query_op(hr)),
            hr == S_OK ==> r is Some && r->Some_0@ == interface,
            hr != S_OK ==> r is None,
    {
        if hr == S_OK {
            lineage.handles = lineage.handles + 1;
            lineage.add_refs = Ghost(lineage.add_refs@ + 1);
            Some(Handle { comp: interface, interface: PhantomData })
        } else {
            None
        }
    }

    /// The second half of a cast, for every answer of the foreign query and
    /// any lineage. An answer that [`query_fault`] objects to, or a lineage
    /// without room, gives that fault and changes nothing.
    pub fn try_query_interface<I: CorrectInterface>(
        &self,
        lineage: &mut Lineage,
        hr: HRESULT,
        interface: usize,
    ) -> (r: Result<Option<Handle<I>>, Fault>)
        requires
            1 <= old(lineage)@.handles,
        ensures
            old(lineage)@.handles == MAX_REFERENCE_COUNT ==> r is Err && r->Err_0
                == Fault::ReferenceCountOverflow,
            old(lineage)@.handles < MAX_REFERENCE_COUNT && query_fault(hr, interface) is Some ==> r is Err
                && Some(r->Err_0) == query_fault(hr, interface),
            r is Err ==> final(lineage)@ == old(lineage)@,
            old(lineage)@.handles < MAX_REFERENCE_COUNT && query_fault(hr, interface) is None ==> r is Ok
                && final(lineage)@ == old(lineage)@.step(query_op(hr)) && (hr == S_OK ==> r->Ok_0 is Some
                && r->Ok_0->Some_0@ == interface) && (hr != S_OK ==> r->Ok_0 is None),
    {
        if self.check_if_overflowing_reference_count(lineage) {
            return Err(Fault::ReferenceCountOverflow);
        }
        if hr == S_OK {
            if interface == 0 {
                Err(Fault::NullInterface)
            } else {
                Ok(self.query_interface::<I>(lineage, hr, interface))
            }
        } else if hr == E_NOINTERFACE {
            Ok(self.query_interface::<I>(lineage, hr, interface))
        } else {
            Err(Fault::UnexpectedResult(hr))
        }
    }
}

/// What is wrong with an answer of the foreign query, if anything: success
/// with a null pointer, or a code outside the two that the foreign contract
/// allows.
pub open spec fn query_fault(hr: HRESULT, interface: usize) -> Option<Fault> {
    if hr == S_OK {
        if interface == 0 {
            Some(Fault::NullInterface)
        } else {
            None
        }
    } else if hr == E_NOINTERFACE {
        None
    } else {
        Some(Fault::UnexpectedResult(hr))
    }
}

/// What an accepted answer of the foreign query does to the lineage.
pub open spec fn query_op(hr: HRESULT) -> HandleOp {
    if hr == S_OK {
        HandleOp::Acquire
    } else {
        HandleOp::Refuse
    }
}

/// A borrowed view of a foreign object as the capability `T`, reached from
/// a handle to a descendant of `T`.
///
/// The view owns no reference: making one involves neither a lineage nor a
/// foreign call. It cannot outlive the borrow of the handle it came from.
#[derive(Debug)]
pub struct LayeredView<'a, T> {
    comp: usize,
    interface: PhantomData<&'a T>,
}

impl<'a, T> View for LayeredView<'a, T> {
    type V = usize;

    /// The address of the foreign object.
    closed spec fn view(&self) -> usize {
        self.comp
    }
}

impl<'a, T> LayeredView<'a, T> {
    /// A view never holds a null address.
    #[verifier::type_invariant]
    spec fn non_null(&self) -> bool {
        self.comp != 0
    }

    /// A view of the object at the address `inner`, which must not be null.
    /// The caller attests that the object is a `T` and stays unreleased for
    /// as long as the view is used.
    pub fn from_inner_ref(inner: usize) -> (view: Self)
        requires
            inner != 0,
        ensures
            view@ == inner,
    {
        LayeredView { comp: inner, interface: PhantomData }
    }

    /// The address of the foreign object. It is never null.
    pub fn comp(&self) -> (address: usize)
        ensures
            address == self@,
            address != 0,
    {
        proof {
            use_type_invariant(self);
        }
        self.comp
    }
}

impl<T> Handle<T> {
    /// A borrowed view of the object as the handle's own capability: the
    /// start of the ancestor chain.
    pub fn as_view(&self) -> (view: LayeredView<'_, T>)
        ensures
            view@ == self@,
    {
        proof {
            use_type_invariant(self);
        }
        LayeredView { comp: self.comp, interface: PhantomData }
    }
}

impl<T: Derived> Handle<T> {
    /// The same object, seen as the direct ancestor of `T`.
    pub fn as_ancestor(&self) -> (view: LayeredView<'_, T::Ancestor>)
        ensures
            view@ == self@,
    {
        proof {
            use_type_invariant(self);
        }
        LayeredView { comp: self.comp, interface: PhantomData }
    }
}

impl<'a, T: Derived> LayeredView<'a, T> {
    /// The same object, seen one step further up the ancestor chain. The
    /// result is bounded by the borrow that `self` is bounded by.
    pub fn as_ancestor(&self) -> (view: LayeredView<'a, T::Ancestor>)
        ensures
            view@ == self@,
    {
        proof {
            use_type_invariant(self);
        }
        LayeredView { comp: self.comp, interface: PhantomData }
    }
}

/// An owning handle to a foreign object, seen as the capability `T`,
/// together with its share of the count of its lineage.
///
/// The handle stands for exactly one logical reference. Whether there is
/// room for another one depends on what the other handles of the lineage
/// have done, so a clone and a cast can be refused at any time, with
/// [`Fault::ReferenceCountOverflow`]. What an operation does with the count
/// that it finds is what [`Handle`] does with a [`Lineage`] of that count.
#[derive(Debug)]
pub struct SafeCOMComponent<T> {
    handle: Handle<T>,
    ref_count: SharedCount,
}

impl<T> View for SafeCOMComponent<T> {
    type V = usize;

    /// The address of the foreign object.
    closed spec fn view(&self) -> usize {
        self.handle@
    }
}

impl<T> SafeCOMComponent<T> {
    /// Adopts a pointer that already stands for one foreign reference. The
    /// handle is alone in its lineage.
    pub fn new(comp: usize) -> (r: Self)
        requires
            comp != 0,
        ensures
            r@ == comp,
    {
        let (handle, _) = Handle::new(comp);
        SafeCOMComponent { handle, ref_count: SharedCount::new() }
    }

    /// The address of the foreign object. It is never null.
    pub fn comp(&self) -> (address: usize)
        ensures
            address == self@,
            address != 0,
    {
        self.handle.comp()
    }

    /// The number of live handles in the lineage at this moment. It is at
    /// least one, since this handle is alive.
    pub fn reference_count(&self) -> (count: usize)
        ensures
            count >= 1,
    {
        self.ref_count.reference_count()
    }

    /// The count of the lineage as it is found at this moment, as a
    /// [`Lineage`] with nothing released yet. It holds at least this handle.
    pub fn lineage(&self) -> (r: Lineage)
        ensures
            1 <= r@.handles <= MAX_REFERENCE_COUNT,
            r@.add_refs == r@.handles,
            r@.releases == 0,
            r@.balanced(),
    {
        self.ref_count.lineage()
    }

    /// Duplicates the handle within `lineage`, the count as the caller found
    /// it. The new handle is to the same object, shares the count of `self`
    /// and owns a reference of its own, which the caller obtains by
    /// performing the returned call, [`ForeignCall::AddRef`].
    ///
    /// A lineage at [`MAX_REFERENCE_COUNT`] refuses: nothing changes,
    /// nothing is shared, and no foreign call is handed out, so the refusal
    /// comes before any increment.
    pub fn clone_within(&self, lineage: &mut Lineage) -> (r: Result<(Self, ForeignCall), Fault>)
        requires
            1 <= old(lineage)@.handles,
        ensures
            old(lineage)@.handles == MAX_REFERENCE_COUNT ==> r is Err && r->Err_0
                == Fault::ReferenceCountOverflow && final(lineage)@ == old(lineage)@,
            old(lineage)@.handles < MAX_REFERENCE_COUNT ==> r is Ok && r->Ok_0.0@ == self@ && r->Ok_0.1
                == ForeignCall::AddRef && final(lineage)@ == old(lineage)@.step(HandleOp::Clone),
    {
        match self.handle.try_clone(lineage) {
            Ok((handle, call)) => Ok(
                (SafeCOMComponent { handle, ref_count: self.ref_count.share() }, call),
            ),
            Err(fault) => Err(fault),
        }
    }

    /// Duplicates the handle if the lineage has room at this moment:
    /// [`SafeCOMComponent::clone_within`] the lineage that
    /// [`SafeCOMComponent::lineage`] finds. The only refusal is
    /// [`Fault::ReferenceCountOverflow`].
    pub fn clone(&self) -> (r: Result<(Self, ForeignCall), Fault>)
        ensures
            r is Ok ==> r->Ok_0.0@ == self@ && r->Ok_0.1 == ForeignCall::AddRef,
            r is Err ==> r->Err_0 == Fault::ReferenceCountOverflow,
    {
        let mut lineage = self.lineage();
        self.clone_within(&mut lineage)
    }

    /// Gives up the handle. The caller performs the returned call,
    /// [`ForeignCall::Release`], exactly once, and lets go of the returned
    /// share of the count after that: this way the count of the lineage is
    /// never below the number of references that the foreign object counts
    /// for it.
    pub fn release(self) -> (r: (ForeignCall, SharedCount))
        ensures
            r.0 == ForeignCall::Release,
    {
        let mut lineage = self.ref_count.lineage();
        let call = self.handle.release(&mut lineage);
        (call, self.ref_count)
    }

    /// The first half of a cast to the capability `I`: the call that asks
    /// the foreign object for it, by the token that
    /// [`CorrectInterface::uuidof`] hands out for `I`. If the lineage has no
    /// room at this moment for the reference that a granted query adds, the
    /// cast is refused before anything is asked. For a given count,
    /// [`Handle::try_query_interface_call`] says which of the two it is.
    pub fn query_interface_call<I: CorrectInterface>(&self) -> (r: Result<ForeignCall, Fault>)
        ensures
            r is Ok ==> r->Ok_0 is QueryInterface && call_ensures(I::uuidof, (), r->Ok_0->iid),
            r is Err ==> r->Err_0 == Fault::ReferenceCountOverflow,
    {
        let lineage = self.lineage();
        self.handle.try_query_interface_call::<I>(&lineage)
    }

    /// The second half of a cast to the capability `I`, within `lineage`,
    /// the count as the caller found it: `hr` and `interface` are what the
    /// foreign query answered.
    ///
    /// A lineage at [`MAX_REFERENCE_COUNT`] refuses, and so does an answer
    /// that [`query_fault`] objects to; a refusal changes nothing. Otherwise,
    /// on [`S_OK`] the result is a new handle to `interface`, which owns the
    /// reference that the foreign object added while answering and shares
    /// the count of `self`; on [`E_NOINTERFACE`] the result is `None` and
    /// nothing has changed.
    pub fn query_interface_within<I: CorrectInterface>(
        &self,
        lineage: &mut Lineage,
        hr: HRESULT,
        interface: usize,
    ) -> (r: Result<Option<SafeCOMComponent<I>>, Fault>)
        requires
            1 <= old(lineage)@.handles,
        ensures
            old(lineage)@.handles == MAX_REFERENCE_COUNT ==> r is Err && r->Err_0
                == Fault::ReferenceCountOverflow,
            old(lineage)@.handles < MAX_REFERENCE_COUNT && query_fault(hr, interface) is Some ==> r is Err
                && Some(r->Err_0) == query_fault(hr, interface),
            r is Err ==> final(lineage)@ == old(lineage)@,
            old(lineage)@.handles < MAX_REFERENCE_COUNT && query_fault(hr, interface) is None ==> r is Ok
                && final(lineage)@ == old(lineage)@.step(query_op(hr)) && (hr == S_OK ==> r->Ok_0 is Some
                && r->Ok_0->Some_0@ == interface) && (hr != S_OK ==> r->Ok_0 is None),
    {
        match self.handle.try_query_interface::<I>(lineage, hr, interface) {
            Ok(Some(handle)) => Ok(
                Some(SafeCOMComponent { handle, ref_count: self.ref_count.share() }),
            ),
            Ok(None) => Ok(None),
            Err(fault) => Err(fault),
        }
    }

    /// The second half of a cast to the capability `I`, with the count as
    /// it is found at this moment:
    /// [`SafeCOMComponent::query_interface_within`] the lineage that
    /// [`SafeCOMComponent::lineage`] finds. A refusal is either
    /// [`Fault::ReferenceCountOverflow`] or the fault that [`query_fault`]
    /// finds in the answer, and an answer with a fault is always refused.
    pub fn query_interface<I: CorrectInterface>(&self, hr: HRESULT, interface: usize) -> (r: Result<
        Option<SafeCOMComponent<I>>,
        Fault,
    >)
        ensures
            r is Err ==> r->Err_0 == Fault::ReferenceCountOverflow || Some(r->Err_0) == query_fault(
                hr,
                interface,
            ),
            r is Ok ==> query_fault(hr, interface) is None,
            r is Ok ==> (r->Ok_0 is Some <==> hr == S_OK),
            r is Ok && hr == S_OK ==> r->Ok_0->Some_0@ == interface,
    {
        let mut lineage = self.lineage();
        self.query_interface_within::<I>(&mut lineage, hr, interface)
    }

    /// A borrowed view of the object as the handle's own capability: the
    /// start of the ancestor chain.
    pub fn as_view(&self) -> (view: LayeredView<'_, T>)
        ensures
            view@ == self@,
    {
        self.handle.as_view()
    }
}

impl<T: Derived> SafeCOMComponent<T> {
    /// The same object, seen as the direct ancestor of `T`. No reference is
    /// counted and nothing is asked of the foreign object.
    pub fn as_ancestor(&self) -> (view: LayeredView<'_, T::Ancestor>)
        ensures
            view@ == self@,
    {
        self.handle.as_ancestor()
    }
}

/// The lineage that `ops`, applied in order, lead to from `start`.
pub open spec fn run(start: LineageView, ops: Seq<HandleOp>) -> LineageView
    decreases ops.len(),
{
    if ops.len() == 0 {
        start
    } else {
        run(start, ops.drop_last()).step(ops.last())
    }
}

/// Whether each of `ops` is permitted at the point where it is applied.
pub open spec fn permitted(start: LineageView, ops: Seq<HandleOp>) -> bool
    decreases ops.len(),
{
    ops.len() == 0 || (permitted(start, ops.drop_last()) && run(start, ops.drop_last()).permits(
        ops.last(),
    ))
}

/// A permitted operation keeps a balanced lineage balanced, and keeps the
/// number of live handles within [`MAX_REFERENCE_COUNT`].
pub proof fn lemma_step_keeps_balance(lineage: LineageView, op: HandleOp)
    requires
        lineage.balanced(),
        lineage.handles <= MAX_REFERENCE_COUNT,
        lineage.permits(op),
    ensures
        lineage.step(op).balanced(),
        lineage.step(op).handles <= MAX_REFERENCE_COUNT,
{
}

/// A prefix of a permitted sequence is permitted.
pub proof fn lemma_prefix_permitted(start: LineageView, ops: Seq<HandleOp>, n: int)
    requires
        permitted(start, ops),
        0 <= n <= ops.len(),
    ensures
        permitted(start, ops.take(n)),
    decreases ops.len(),
{
    if n == ops.len() {
        assert(ops.take(n) =~= ops);
    } else {
        assert(ops.drop_last().take(n) =~= ops.take(n));
        lemma_prefix_permitted(start, ops.drop_last(), n);
    }
}

/// A permitted sequence of operations from a balanced start ends balanced
/// and within [`MAX_REFERENCE_COUNT`].
pub proof fn lemma_run_keeps_balance(start: LineageView, ops: Seq<HandleOp>)
    requires
        start.balanced(),
        start.handles <= MAX_REFERENCE_COUNT,
        permitted(start, ops),
    ensures
        run(start, ops).balanced(),
        run(start, ops).handles <= MAX_REFERENCE_COUNT,
    decreases ops.len(),
{
    if ops.len() > 0 {
        lemma_run_keeps_balance(start, ops.drop_last());
        lemma_step_keeps_balance(run(start, ops.drop_last()), ops.last());
    }
}

/// No premature release. Take any sequence of clones, casts and releases on
/// the lineage of an adopted pointer, each applied to a live handle. After
/// every prefix of it, the releases do not exceed the foreign increments;
/// they fall short of them by exactly the number of live handles, so the two
/// are equal precisely when every handle has been released. The number of
/// live handles never passes [`MAX_REFERENCE_COUNT`].
pub proof fn lemma_no_premature_release(ops: Seq<HandleOp>, n: int)
    requires
        permitted(LineageView::adopted(), ops),
        0 <= n <= ops.len(),
    ensures
        ({
            let at = run(LineageView::adopted(), ops.take(n));
            &&& at.releases <= at.add_refs
            &&& at.add_refs - at.releases == at.handles
            &&& (at.handles == 0 <==> at.releases == at.add_refs)
            &&& at.handles <= MAX_REFERENCE_COUNT
        }),
{
    lemma_prefix_permitted(LineageView::adopted(), ops, n);
    lemma_run_keeps_balance(LineageView::adopted(), ops.take(n));
}

/// A foreign object, as far as the raw handle contract describes it: the
/// capabilities it implements and the value of its own reference counter.
pub struct ForeignObject {
    /// Identity tokens of the capabilities that the object implements.
    pub supported: Set<u128>,
    /// The foreign reference count.
    pub references: nat,
}

impl ForeignObject {
    /// The status code with which the object answers a query for `iid`.
    pub open spec fn answer(self, iid: u128) -> HRESULT {
        if self.supported.contains(iid) {
            S_OK
        } else {
            E_NOINTERFACE
        }
    }

    /// The object after `call`. A query increments the count exactly when it
    /// is granted.
    pub open spec fn after(self, call: ForeignCall) -> ForeignObject {
        match call {
            ForeignCall::AddRef => ForeignObject { references: self.references + 1, ..self },
            ForeignCall::Release => ForeignObject {
                references: (self.references - 1) as nat,
                ..self
            },
            ForeignCall::QueryInterface { iid } => if self.supported.contains(iid) {
                ForeignObject { references: self.references + 1, ..self }
            } else {
                self
            },
        }
    }
}

/// The foreign count moves in step with the lineage: whatever operation is
/// applied, with the foreign call that goes with it, the count and the
/// number of live handles change by the same amount. A count that covers
/// the live handles before the operation covers them after it, so the
/// object is not freed while a handle is alive.
pub proof fn lemma_foreign_count_follows(
    object: ForeignObject,
    lineage: LineageView,
    op: HandleOp,
    iid: u128,
)
    requires
        lineage.permits(op),
        lineage.handles <= object.references,
        op is Acquire ==> object.supported.contains(iid),
        op is Refuse ==> !object.supported.contains(iid),
    ensures
        object.after(call_of(op, iid)).references - lineage.step(op).handles == object.references
            - lineage.handles,
        lineage.step(op).handles <= object.after(call_of(op, iid)).references,
{
}

/// Cast round trip. A handle is cast to its own capability, whose token is
/// `iid`; the object implements it, so it grants the query, and the cast
/// yields a handle. Releasing that handle again leaves as many live handles
/// as before, at least one, and the foreign count as it was: the first
/// handle is as valid as before.
pub proof fn lemma_cast_round_trip(object: ForeignObject, lineage: LineageView, iid: u128)
    requires
        object.supported.contains(iid),
        lineage.permits(HandleOp::Acquire),
        lineage.balanced(),
        lineage.handles <= object.references,
    ensures
        ({
            let query = ForeignCall::QueryInterface { iid };
            let cast = lineage.step(query_op(object.answer(iid)));
            let back = cast.step(HandleOp::Release);
            &&& object.answer(iid) == S_OK
            &&& query_op(object.answer(iid)) == HandleOp::Acquire
            &&& cast.handles == lineage.handles + 1
            &&& cast.permits(HandleOp::Release)
            &&& back.handles == lineage.handles
            &&& back.handles >= 1
            &&& back.balanced()
            &&& object.after(query).after(ForeignCall::Release).references == object.references
        }),
{
}

/// Cast non-support. A query for a capability that the object does not
/// implement is refused, the foreign count stays as it was, and so does the
/// lineage.
pub proof fn lemma_cast_non_support(object: ForeignObject, lineage: LineageView, iid: u128)
    requires
        !object.supported.contains(iid),
    ensures
        object.answer(iid) == E_NOINTERFACE,
        query_fault(object.answer(iid), 0) is None,
        query_op(object.answer(iid)) == HandleOp::Refuse,
        lineage.step(query_op(object.answer(iid))) == lineage,
        object.after(ForeignCall::QueryInterface { iid }) == object,
{
}


} // verus!
