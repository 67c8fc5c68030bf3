use wasmcont::continuation::{
    cont_new, cont_obj_ensure_payloads_additional_capacity, cont_obj_get_args,
    cont_obj_get_payloads, cont_obj_occupy_next_args_slots, cont_obj_reset_payloads,
    cont_ref_get_obj, decode_selector, new_cont_ref, resume, suspend, ContState,
    ContinuationStore, FiberOutcome, PayloadBuffer, Selector, TrapReason,
};

#[test]
fn cont_new_resume_returning() {
    // A continuation whose body returns immediately: resume yields the
    // zero selector, and the reference it was taken from stays empty.
    let mut ctx = ContinuationStore::new();
    let obj = cont_new();
    assert_eq!(obj.state, ContState::Fresh);
    let mut contref = new_cont_ref(obj);
    let taken = cont_ref_get_obj(&mut contref).unwrap();
    let selector = resume(&mut ctx, taken, FiberOutcome::Returned).unwrap();
    assert_eq!(selector, 0x0000_0000);
    assert!(matches!(decode_selector(selector), Selector::Return));
    assert!(ctx.store.is_none());
    // A second take on the same reference reports the object as taken.
    assert!(matches!(
        cont_ref_get_obj(&mut contref),
        Err(TrapReason::ContinuationAlreadyTaken)
    ));
}

#[test]
fn cont_new_suspend_then_resume() {
    // The body suspends with tag 3: the first resume reports the tag
    // under the suspend bit and parks the continuation in the store; the
    // host rewraps it and the second resume completes normally.
    let mut ctx = ContinuationStore::new();
    let mut contref = new_cont_ref(cont_new());
    let taken = cont_ref_get_obj(&mut contref).unwrap();
    let outcome = suspend(3);
    let selector = resume(&mut ctx, taken, outcome).unwrap();
    assert_eq!(selector, 0x8000_0003);
    assert!(matches!(decode_selector(selector), Selector::Suspend(3)));
    let parked = ctx.take_store().expect("the suspended continuation is in the store");
    assert_eq!(parked.state, ContState::Suspended);
    assert!(ctx.store.is_none());
    let mut rewrapped = new_cont_ref(parked);
    let taken_again = cont_ref_get_obj(&mut rewrapped).unwrap();
    let selector = resume(&mut ctx, taken_again, FiberOutcome::Returned).unwrap();
    assert_eq!(selector, 0x0000_0000);
}

#[test]
fn selector_decoding_round_trip() {
    assert!(matches!(decode_selector(0), Selector::Return));
    assert!(matches!(decode_selector(0x8000_0000), Selector::Suspend(0)));
    assert!(matches!(
        decode_selector(0x8FFF_FFFF),
        Selector::Suspend(0x0FFF_FFFF)
    ));
    assert!(matches!(decode_selector(0x0000_0007), Selector::Return));
}

#[test]
fn payload_buffer_amortized_doubling() {
    let mut buf = PayloadBuffer::new();
    assert_eq!(buf.len(), 0);
    assert_eq!(buf.cap, 0);
    buf.ensure_additional_capacity(3);
    assert_eq!(buf.cap, 3);
    // Growing within capacity changes nothing.
    buf.ensure_additional_capacity(2);
    assert_eq!(buf.cap, 3);
    // Growing past capacity doubles it when doubling suffices.
    buf.ensure_additional_capacity(5);
    assert_eq!(buf.cap, 6);
    buf.ensure_additional_capacity(100);
    assert_eq!(buf.cap, 100);
}

#[test]
fn payload_buffer_reset_keeps_capacity() {
    let mut buf = PayloadBuffer::new();
    buf.append(11);
    buf.append(22);
    assert_eq!(buf.len(), 2);
    assert_eq!(buf.data, vec![11, 22]);
    let cap = buf.cap;
    buf.reset();
    assert_eq!(buf.len(), 0);
    assert_eq!(buf.cap, cap);
}

#[test]
fn continuation_object_buffers() {
    let mut obj = cont_new();
    let start = cont_obj_occupy_next_args_slots(&mut obj, 3);
    assert_eq!(start, 0);
    assert_eq!(cont_obj_get_args(&obj).data, vec![0, 0, 0]);
    let start = cont_obj_occupy_next_args_slots(&mut obj, 2);
    assert_eq!(start, 3);
    assert_eq!(cont_obj_get_args(&obj).data.len(), 5);
    obj.payloads.append(7);
    assert_eq!(cont_obj_get_payloads(&obj).data, vec![7]);
    cont_obj_ensure_payloads_additional_capacity(&mut obj, 10);
    assert!(obj.payloads.cap >= 11);
    let cap = obj.payloads.cap;
    cont_obj_reset_payloads(&mut obj);
    assert_eq!(obj.payloads.data.len(), 0);
    assert_eq!(obj.payloads.cap, cap);
}

#[test]
fn resume_keeps_buffers_across_suspension() {
    // What the body wrote into the buffers survives the suspension: the
    // parked object carries them unchanged.
    let mut ctx = ContinuationStore::new();
    let mut obj = cont_new();
    obj.args.append(1);
    obj.payloads.append(0xABCD);
    let selector = resume(&mut ctx, obj, suspend(9)).unwrap();
    assert_eq!(selector, 0x8000_0009);
    let parked = ctx.take_store().unwrap();
    assert_eq!(parked.args.data, vec![1]);
    assert_eq!(parked.payloads.data, vec![0xABCD]);
}
