use volume_shadow_copy::safe_com_component::{
    CorrectInterface, Derived, Fault, ForeignCall, Handle, LayeredView, Lineage,
    SafeCOMComponent, MAX_REFERENCE_COUNT,
};
use volume_shadow_copy::{E_NOINTERFACE, HRESULT, S_OK};

/// A capability at the bottom of a chain of three.
struct Base;
/// The capability that extends `Base`.
struct Extended;
/// The capability that extends `Extended`.
struct Extended2;
/// A capability that the mock object does not implement.
struct Unrelated;

impl CorrectInterface for Base {
    fn uuidof() -> u128 {
        0x1000
    }
}
impl CorrectInterface for Extended {
    fn uuidof() -> u128 {
        0x1001
    }
}
impl CorrectInterface for Extended2 {
    fn uuidof() -> u128 {
        0x1002
    }
}
impl CorrectInterface for Unrelated {
    fn uuidof() -> u128 {
        0x2000
    }
}
impl Derived for Extended {
    type Ancestor = Base;
}
impl Derived for Extended2 {
    type Ancestor = Extended;
}

/// A foreign object that counts what is asked of it.
struct MockObject {
    address: usize,
    supported: Vec<u128>,
    add_refs: u32,
    releases: u32,
    queries: u32,
}

impl MockObject {
    /// An object fresh from its factory: one reference is already counted.
    fn new(address: usize, supported: Vec<u128>) -> Self {
        MockObject { address, supported, add_refs: 1, releases: 0, queries: 0 }
    }

    fn count(&self) -> i64 {
        i64::from(self.add_refs) - i64::from(self.releases)
    }

    /// Performs a call the way a conforming object does, and answers a
    /// query with a status code and a pointer.
    fn perform(&mut self, call: ForeignCall) -> (HRESULT, usize) {
        assert!(self.count() > 0, "call on a freed object");
        match call {
            ForeignCall::AddRef => {
                self.add_refs += 1;
                (S_OK, 0)
            }
            ForeignCall::Release => {
                self.releases += 1;
                (S_OK, 0)
            }
            ForeignCall::QueryInterface { iid } => {
                self.queries += 1;
                if self.supported.contains(&iid) {
                    self.add_refs += 1;
                    (S_OK, self.address)
                } else {
                    (E_NOINTERFACE, 0)
                }
            }
        }
    }
}

/// A lineage that sits just below the maximum, reached by the public
/// operations alone would take 2^32 steps, so the tests that need a full
/// lineage count up in a cheap loop of clone-without-foreign-object.
fn clone_times(
    handle: &Handle<Base>,
    lineage: &mut Lineage,
    times: u32,
) -> Vec<Handle<Base>> {
    let mut clones = Vec::new();
    for _ in 0..times {
        let (clone, call) = handle.clone(lineage);
        assert_eq!(call, ForeignCall::AddRef);
        clones.push(clone);
    }
    clones
}

#[test]
fn adopt_starts_a_lineage_of_one() {
    let (handle, lineage) = Handle::<Base>::new(0x4000);
    assert_eq!(handle.comp(), 0x4000);
    assert_eq!(handle.reference_count(&lineage), 1);
    assert!(!handle.check_if_overflowing_reference_count(&lineage));
}

#[test]
fn adopt_clone_twice_release_all_three() {
    let mut object = MockObject::new(0x4000, vec![Base::uuidof()]);
    let (first, mut lineage) = Handle::<Base>::new(object.address);
    assert_eq!(object.add_refs, 1);

    let (second, call) = first.clone(&mut lineage);
    object.perform(call);
    let (third, call) = second.clone(&mut lineage);
    object.perform(call);
    assert_eq!(object.add_refs, 3);
    assert_eq!(first.reference_count(&lineage), 3);
    assert_eq!(second.comp(), 0x4000);
    assert_eq!(third.comp(), 0x4000);

    // Release in an order that is not the order of creation.
    let call = second.release(&mut lineage);
    assert_eq!(call, ForeignCall::Release);
    object.perform(call);
    assert_eq!(first.reference_count(&lineage), 2);
    assert!(object.releases < object.add_refs);

    let call = first.release(&mut lineage);
    object.perform(call);
    assert!(object.releases < object.add_refs);
    assert_eq!(third.reference_count(&lineage), 1);

    let call = third.release(&mut lineage);
    object.perform(call);
    assert_eq!(object.releases, 3);
    assert_eq!(object.add_refs, 3);
    assert_eq!(object.count(), 0);
}

#[test]
fn releases_never_exceed_add_refs_at_any_prefix() {
    let mut object = MockObject::new(0x4000, vec![Base::uuidof()]);
    let (first, mut lineage) = Handle::<Base>::new(object.address);
    let mut live = vec![first];
    // clone, clone, drop, clone, drop, drop, clone, drop, drop
    let script = [true, true, false, true, false, false, true, false, false];
    for grow in script {
        if grow {
            let (clone, call) = live[0].clone(&mut lineage);
            object.perform(call);
            live.push(clone);
        } else {
            let handle = live.pop().unwrap();
            let call = handle.release(&mut lineage);
            object.perform(call);
        }
        assert!(object.releases <= object.add_refs);
        assert_eq!(object.count(), live.len() as i64);
        if let Some(handle) = live.first() {
            assert_eq!(handle.reference_count(&lineage), live.len());
        }
    }
    assert!(live.is_empty());
    assert_eq!(object.releases, object.add_refs);
}

#[test]
fn try_clone_on_a_fresh_lineage_is_a_clone() {
    let (handle, mut lineage) = Handle::<Base>::new(0x4000);
    let (clone, call) = handle.try_clone(&mut lineage).ok().unwrap();
    assert_eq!(call, ForeignCall::AddRef);
    assert_eq!(clone.comp(), 0x4000);
    assert_eq!(handle.reference_count(&lineage), 2);
}

#[test]
fn query_call_carries_the_identity_token() {
    let (handle, lineage) = Handle::<Base>::new(0x4000);
    assert_eq!(
        handle.query_interface_call::<Extended>(&lineage),
        ForeignCall::QueryInterface { iid: 0x1001 }
    );
    assert_eq!(
        handle.try_query_interface_call::<Unrelated>(&lineage),
        Ok(ForeignCall::QueryInterface { iid: 0x2000 })
    );
}

#[test]
fn query_for_an_unsupported_capability_changes_nothing() {
    let mut object = MockObject::new(0x4000, vec![Base::uuidof()]);
    let (handle, mut lineage) = Handle::<Base>::new(object.address);

    let call = handle.query_interface_call::<Unrelated>(&lineage);
    let (hr, interface) = object.perform(call);
    assert_eq!(hr, E_NOINTERFACE);
    let cast = handle.query_interface::<Unrelated>(&mut lineage, hr, interface);
    assert!(cast.is_none());
    assert_eq!(object.add_refs, 1);
    assert_eq!(object.releases, 0);
    assert_eq!(handle.reference_count(&lineage), 1);
}

#[test]
fn cast_round_trip_leaves_the_first_handle_valid() {
    let mut object = MockObject::new(0x4000, vec![Base::uuidof()]);
    let (handle, mut lineage) = Handle::<Base>::new(object.address);

    let call = handle.query_interface_call::<Base>(&lineage);
    let (hr, interface) = object.perform(call);
    assert_eq!(hr, S_OK);
    let cast = handle.query_interface::<Base>(&mut lineage, hr, interface).unwrap();
    assert_eq!(cast.comp(), 0x4000);
    assert_eq!(object.add_refs, 2);
    assert_eq!(handle.reference_count(&lineage), 2);

    let call = cast.release(&mut lineage);
    object.perform(call);
    assert_eq!(object.count(), 1);
    assert_eq!(handle.reference_count(&lineage), 1);
    // The first handle still works.
    let (again, call) = handle.clone(&mut lineage);
    object.perform(call);
    assert_eq!(again.comp(), handle.comp());
}

#[test]
fn cast_to_a_sibling_yields_the_pointer_that_came_back() {
    let (handle, mut lineage) = Handle::<Base>::new(0x4000);
    let cast = handle.query_interface::<Extended>(&mut lineage, S_OK, 0x4010).unwrap();
    assert_eq!(cast.comp(), 0x4010);
    assert_eq!(handle.comp(), 0x4000);
    assert_eq!(cast.reference_count(&lineage), 2);
}

#[test]
fn try_query_interface_sorts_every_answer() {
    let (handle, mut lineage) = Handle::<Base>::new(0x4000);

    let granted = handle.try_query_interface::<Extended>(&mut lineage, S_OK, 0x4010);
    assert_eq!(granted.ok().unwrap().unwrap().comp(), 0x4010);
    assert_eq!(handle.reference_count(&lineage), 2);

    let refused = handle.try_query_interface::<Unrelated>(&mut lineage, E_NOINTERFACE, 0);
    assert!(refused.ok().unwrap().is_none());
    assert_eq!(handle.reference_count(&lineage), 2);

    let null = handle.try_query_interface::<Extended>(&mut lineage, S_OK, 0);
    assert_eq!(null.err(), Some(Fault::NullInterface));
    assert_eq!(handle.reference_count(&lineage), 2);

    // E_FAIL
    let odd = handle.try_query_interface::<Extended>(&mut lineage, -2147467259, 0x4010);
    assert_eq!(odd.err(), Some(Fault::UnexpectedResult(-2147467259)));
    // S_FALSE is a success code, but not one that a query may answer with.
    let odd = handle.try_query_interface::<Extended>(&mut lineage, 1, 0x4010);
    assert_eq!(odd.err(), Some(Fault::UnexpectedResult(1)));
    assert_eq!(handle.reference_count(&lineage), 2);
}

#[test]
fn layered_views_share_the_address_and_leave_the_count_alone() {
    let (handle, lineage) = Handle::<Extended2>::new(0x4000);
    let own = handle.as_view();
    let parent = handle.as_ancestor();
    let grandparent = parent.as_ancestor();
    assert_eq!(own.comp(), 0x4000);
    assert_eq!(parent.comp(), 0x4000);
    assert_eq!(grandparent.comp(), 0x4000);
    assert_eq!(handle.reference_count(&lineage), 1);
}

#[test]
fn maximum_is_the_largest_32_bit_value() {
    assert_eq!(MAX_REFERENCE_COUNT, u32::MAX);
}

#[test]
fn many_clones_keep_count() {
    let (handle, mut lineage) = Handle::<Base>::new(0x4000);
    let clones = clone_times(&handle, &mut lineage, 1000);
    assert_eq!(handle.reference_count(&lineage), 1001);
    for clone in clones {
        assert_eq!(clone.release(&mut lineage), ForeignCall::Release);
    }
    assert_eq!(handle.reference_count(&lineage), 1);
}

#[test]
fn clone_at_the_maximum_is_refused_before_any_add_ref() {
    let mut object = MockObject::new(0x4000, vec![Base::uuidof()]);
    let (handle, _) = Handle::<Base>::new(object.address);
    let mut lineage = Lineage::observed(MAX_REFERENCE_COUNT);
    assert!(handle.check_if_overflowing_reference_count(&lineage));

    let refused = handle.try_clone(&mut lineage);
    assert_eq!(refused.err(), Some(Fault::ReferenceCountOverflow));
    // Nothing was handed out to perform, so the object saw nothing.
    assert_eq!(object.add_refs, 1);
    assert_eq!(lineage.handles(), MAX_REFERENCE_COUNT);

    // One below the maximum there is room for exactly one more.
    let mut lineage = Lineage::observed(MAX_REFERENCE_COUNT - 1);
    assert!(!handle.check_if_overflowing_reference_count(&lineage));
    let (_clone, call) = handle.try_clone(&mut lineage).ok().unwrap();
    object.perform(call);
    assert_eq!(object.add_refs, 2);
    assert_eq!(lineage.handles(), MAX_REFERENCE_COUNT);
    assert_eq!(handle.try_clone(&mut lineage).err(), Some(Fault::ReferenceCountOverflow));
}

#[test]
fn cast_at_the_maximum_is_refused_before_the_query() {
    let (handle, _) = Handle::<Base>::new(0x4000);
    let mut lineage = Lineage::observed(MAX_REFERENCE_COUNT);
    assert_eq!(
        handle.try_query_interface_call::<Extended>(&lineage),
        Err(Fault::ReferenceCountOverflow)
    );
    // Even a granted answer is not recorded on a full lineage.
    let late = handle.try_query_interface::<Extended>(&mut lineage, S_OK, 0x4010);
    assert_eq!(late.err(), Some(Fault::ReferenceCountOverflow));
    assert_eq!(lineage.handles(), MAX_REFERENCE_COUNT);
}

#[test]
fn release_from_a_full_lineage_makes_room() {
    let (handle, _) = Handle::<Base>::new(0x4000);
    let (other, _) = Handle::<Base>::new(0x4000);
    let mut lineage = Lineage::observed(MAX_REFERENCE_COUNT);
    assert_eq!(other.release(&mut lineage), ForeignCall::Release);
    assert_eq!(handle.reference_count(&lineage), 0xFFFF_FFFE);
    assert!(handle.try_clone(&mut lineage).is_ok());
}

#[test]
fn observed_lineage_counts_what_it_was_given() {
    let lineage = Lineage::observed(7);
    assert_eq!(lineage.handles(), 7);
    let lineage = Lineage::observed(1);
    assert_eq!(lineage.handles(), 1);
}

#[test]
fn view_from_an_address_holds_that_address() {
    let view = LayeredView::<Extended>::from_inner_ref(0x7000);
    assert_eq!(view.comp(), 0x7000);
    assert_eq!(view.as_ancestor().comp(), 0x7000);
}

/// Performs what a counted handle asks for and reports back, the way the
/// owner of the raw pointer does.
fn counted_clone(object: &mut MockObject, handle: &SafeCOMComponent<Base>) -> SafeCOMComponent<Base> {
    let (clone, call) = handle.clone().ok().unwrap();
    assert_eq!(call, ForeignCall::AddRef);
    object.perform(call);
    clone
}

fn counted_release<T>(object: &mut MockObject, handle: SafeCOMComponent<T>) {
    let (call, share) = handle.release();
    assert_eq!(call, ForeignCall::Release);
    object.perform(call);
    drop(share);
}

#[test]
fn counted_handle_adopt_clone_twice_release_all_three() {
    let mut object = MockObject::new(0x4000, vec![Base::uuidof()]);
    let first = SafeCOMComponent::<Base>::new(object.address);
    assert_eq!(first.comp(), 0x4000);
    assert_eq!(first.reference_count(), 1);
    assert_eq!(object.add_refs, 1);

    let second = counted_clone(&mut object, &first);
    let third = counted_clone(&mut object, &second);
    assert_eq!(object.add_refs, 3);
    assert_eq!(first.reference_count(), 3);
    assert_eq!(second.reference_count(), 3);
    assert_eq!(third.reference_count(), 3);
    assert_eq!(third.comp(), 0x4000);

    counted_release(&mut object, second);
    assert_eq!(first.reference_count(), 2);
    assert_eq!(object.count(), 2);
    counted_release(&mut object, first);
    assert_eq!(third.reference_count(), 1);
    assert!(object.releases < object.add_refs);
    counted_release(&mut object, third);
    assert_eq!(object.releases, 3);
    assert_eq!(object.add_refs, 3);
}

#[test]
fn counted_handle_keeps_its_share_until_the_release_is_performed() {
    let mut object = MockObject::new(0x4000, vec![Base::uuidof()]);
    let first = SafeCOMComponent::<Base>::new(object.address);
    let second = counted_clone(&mut object, &first);
    let (call, share) = second.release();
    // The foreign object still counts two, and so does the lineage.
    assert_eq!(object.count(), 2);
    assert_eq!(first.reference_count(), 2);
    object.perform(call);
    drop(share);
    assert_eq!(object.count(), 1);
    assert_eq!(first.reference_count(), 1);
}

#[test]
fn counted_handle_cast_to_an_unsupported_capability_changes_nothing() {
    let mut object = MockObject::new(0x4000, vec![Base::uuidof()]);
    let handle = SafeCOMComponent::<Base>::new(object.address);
    let call = handle.query_interface_call::<Unrelated>().ok().unwrap();
    assert_eq!(call, ForeignCall::QueryInterface { iid: 0x2000 });
    let (hr, interface) = object.perform(call);
    let cast = handle.query_interface::<Unrelated>(hr, interface).ok().unwrap();
    assert!(cast.is_none());
    assert_eq!(object.add_refs, 1);
    assert_eq!(object.releases, 0);
    assert_eq!(handle.reference_count(), 1);
}

#[test]
fn counted_handle_cast_round_trip() {
    let mut object = MockObject::new(0x4000, vec![Base::uuidof()]);
    let handle = SafeCOMComponent::<Base>::new(object.address);
    let call = handle.query_interface_call::<Base>().ok().unwrap();
    let (hr, interface) = object.perform(call);
    let cast = handle.query_interface::<Base>(hr, interface).ok().unwrap().unwrap();
    assert_eq!(cast.comp(), 0x4000);
    assert_eq!(object.add_refs, 2);
    assert_eq!(handle.reference_count(), 2);
    assert_eq!(cast.reference_count(), 2);

    counted_release(&mut object, cast);
    assert_eq!(object.count(), 1);
    assert_eq!(handle.reference_count(), 1);
    let again = counted_clone(&mut object, &handle);
    assert_eq!(again.comp(), handle.comp());
}

#[test]
fn counted_handle_sorts_the_answers_of_a_query() {
    let handle = SafeCOMComponent::<Base>::new(0x4000);
    let cast = handle.query_interface::<Extended>(S_OK, 0x4010).ok().unwrap().unwrap();
    assert_eq!(cast.comp(), 0x4010);
    assert_eq!(handle.reference_count(), 2);
    assert!(matches!(handle.query_interface::<Extended>(S_OK, 0), Err(Fault::NullInterface)));
    assert!(matches!(
        handle.query_interface::<Extended>(-2147467259, 0x4010),
        Err(Fault::UnexpectedResult(-2147467259))
    ));
    assert!(matches!(handle.query_interface::<Unrelated>(E_NOINTERFACE, 0), Ok(None)));
    assert_eq!(handle.reference_count(), 2);
}

#[test]
fn counted_handle_views_leave_the_count_alone() {
    let handle = SafeCOMComponent::<Extended2>::new(0x4000);
    let own = handle.as_view();
    let parent = handle.as_ancestor();
    let grandparent = parent.as_ancestor();
    assert_eq!(own.comp(), 0x4000);
    assert_eq!(grandparent.comp(), 0x4000);
    assert_eq!(handle.reference_count(), 1);
}

#[test]
fn counted_handle_clone_within_a_full_lineage_is_refused_before_any_add_ref() {
    let mut object = MockObject::new(0x4000, vec![Base::uuidof()]);
    let handle = SafeCOMComponent::<Base>::new(object.address);
    let mut full = Lineage::observed(MAX_REFERENCE_COUNT);
    assert!(matches!(handle.clone_within(&mut full), Err(Fault::ReferenceCountOverflow)));
    assert_eq!(full.handles(), MAX_REFERENCE_COUNT);
    // Nothing was shared and nothing was asked of the object.
    assert_eq!(handle.reference_count(), 1);
    assert_eq!(object.add_refs, 1);

    let mut roomy = Lineage::observed(MAX_REFERENCE_COUNT - 1);
    let (clone, call) = handle.clone_within(&mut roomy).ok().unwrap();
    object.perform(call);
    assert_eq!(roomy.handles(), MAX_REFERENCE_COUNT);
    assert_eq!(clone.comp(), 0x4000);
    assert_eq!(handle.reference_count(), 2);
    assert_eq!(object.add_refs, 2);
}

#[test]
fn counted_handle_cast_within_a_full_lineage_is_refused() {
    let handle = SafeCOMComponent::<Base>::new(0x4000);
    let mut full = Lineage::observed(MAX_REFERENCE_COUNT);
    assert!(matches!(
        handle.query_interface_within::<Extended>(&mut full, S_OK, 0x4010),
        Err(Fault::ReferenceCountOverflow)
    ));
    assert_eq!(full.handles(), MAX_REFERENCE_COUNT);
    assert_eq!(handle.reference_count(), 1);

    let mut found = handle.lineage();
    assert_eq!(found.handles(), 1);
    let cast = handle
        .query_interface_within::<Extended>(&mut found, S_OK, 0x4010)
        .ok()
        .unwrap()
        .unwrap();
    assert_eq!(found.handles(), 2);
    assert_eq!(cast.comp(), 0x4010);
    assert_eq!(cast.reference_count(), 2);
    assert!(matches!(
        handle.query_interface_within::<Extended>(&mut found, 7, 0x4010),
        Err(Fault::UnexpectedResult(7))
    ));
    assert_eq!(found.handles(), 2);
}
