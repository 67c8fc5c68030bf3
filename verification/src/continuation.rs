//! The continuation runtime: representation, creation, resumption and
//! suspension of first-class stack-switching continuations.
//!
//! The stack switch itself is a fiber primitive and stays outside this
//! crate; what it reports back — a normal return or a suspension with a
//! tag — enters here as a [`FiberOutcome`], and everything the runtime
//! decides from that outcome is verified: the selector encoding, the
//! ownership moves between reference, store and caller, and the payload
//! buffer discipline.

use vstd::prelude::*;

verus! {

/// A reason for a runtime trap raised by generated code or by a
/// continuation helper.
#[derive(Copy, Clone, Debug, PartialEq, Eq, Structural)]
pub enum TrapReason {
    /// A continuation reference whose object was already taken was used
    /// again.
    ContinuationAlreadyTaken,
    /// The fiber primitive reported something the resume protocol rules
    /// out.
    ContinuationInvariantViolated,
    /// The Wasm stack overflowed.
    StackOverflow,
    /// A linear-memory access fell outside its bounds.
    MemoryOutOfBounds,
    /// An indirect call found a callee of the wrong signature.
    IndirectCallTypeMismatch,
}

/// A buffer of 128-bit value slots with an explicit capacity, used for a
/// continuation's arguments and for the payloads threaded through
/// suspensions. The capacity survives a reset and grows by amortized
/// doubling.
#[derive(Clone, Debug)]
pub struct PayloadBuffer {
    /// The occupied slots.
    pub data: Vec<u128>,
    /// How many slots are allocated; never less than the occupied count.
    pub cap: usize,
}

impl PayloadBuffer {
    /// The occupied slots never outnumber the allocated ones.
    pub open spec fn wf(self) -> bool {
        self.data@.len() <= self.cap
    }

    /// An empty buffer with no capacity.
    pub fn new() -> (r: PayloadBuffer)
        ensures
            r.data@ == Seq::<u128>::empty(),
            r.cap == 0,
            r.wf(),
    {
        PayloadBuffer { data: Vec::new(), cap: 0 }
    }

    /// The number of occupied slots.
    pub fn len(&self) -> (r: usize)
        ensures
            r == self.data@.len(),
    {
        self.data.len()
    }

    /// Append one value, growing the capacity if the buffer is full.
    pub fn append(&mut self, v: u128) -> (r: usize)
        requires
            old(self).wf(),
            old(self).data@.len() < usize::MAX,
        ensures
            final(self).data@ == old(self).data@.push(v),
            final(self).cap == if old(self).cap >= old(self).data@.len() + 1 {
                old(self).cap as int
            } else {
                old(self).data@.len() + 1int
            },
            final(self).wf(),
            r == old(self).data@.len(),
    {
        let at = self.data.len();
        if self.cap < at + 1 {
            self.cap = at + 1;
        }
        self.data.push(v);
        at
    }

    /// Grow the capacity, if needed, so that `additional` more slots fit
    /// beyond the occupied ones: amortized doubling, saturated at the
    /// index domain's end.
    pub fn ensure_additional_capacity(&mut self, additional: usize)
        requires
            old(self).wf(),
            old(self).data@.len() + additional <= usize::MAX,
        ensures
            final(self).data@ == old(self).data@,
            final(self).cap >= old(self).data@.len() + additional,
            final(self).cap >= old(self).cap,
            old(self).cap >= old(self).data@.len() + additional
                ==> final(self).cap == old(self).cap,
            old(self).cap < old(self).data@.len() + additional ==> final(self).cap == (
            if 2 * old(self).cap > old(self).data@.len() + additional {
                if 2 * old(self).cap <= usize::MAX {
                    2 * old(self).cap
                } else {
                    usize::MAX as int
                }
            } else {
                old(self).data@.len() + additional
            }),
            final(self).wf(),
    {
        let needed = self.data.len() + additional;
        if self.cap < needed {
            let doubled: usize = if self.cap > usize::MAX / 2 {
                usize::MAX
            } else {
                2 * self.cap
            };
            self.cap = if doubled > needed {
                doubled
            } else {
                needed
            };
        }
    }

    /// Occupy `count` fresh zeroed slots and return the position of the
    /// first, growing the capacity if needed.
    pub fn occupy_next_slots(&mut self, count: usize) -> (r: usize)
        requires
            old(self).wf(),
            old(self).data@.len() + count <= usize::MAX,
        ensures
            final(self).data@.len() == old(self).data@.len() + count,
            forall|i: int|
                0 <= i < old(self).data@.len() ==> final(self).data@[i] == old(self).data@[i],
            forall|i: int|
                old(self).data@.len() <= i < final(self).data@.len()
                    ==> final(self).data@[i] == 0u128,
            final(self).cap >= old(self).cap,
            final(self).wf(),
            r == old(self).data@.len(),
    {
        let start = self.data.len();
        self.ensure_additional_capacity(count);
        let mut k: usize = 0;
        while k < count
            invariant
                self.data@.len() == start + k,
                0 <= k <= count,
                start + count <= usize::MAX,
                self.cap >= start + count,
                self.cap >= old(self).cap,
                forall|i: int| 0 <= i < start ==> self.data@[i] == old(self).data@[i],
                forall|i: int| start <= i < start + k ==> self.data@[i] == 0u128,
                start == old(self).data@.len(),
            decreases count - k,
        {
            self.data.push(0);
            k = k + 1;
        }
        start
    }

    /// Truncate the occupied count to zero without giving up capacity.
    pub fn reset(&mut self)
        requires
            old(self).wf(),
        ensures
            final(self).data@ == Seq::<u128>::empty(),
            final(self).cap == old(self).cap,
            final(self).wf(),
    {
        self.data.clear();
    }
}

/// Where a continuation object stands in its life. A fresh or suspended
/// object becomes running inside the fiber primitive when resumed; by the
/// time the primitive reports back, the object has already either
/// suspended again or finished, so a resume here steps directly from
/// `Fresh`/`Suspended` to parked-as-`Suspended` or consumed.
#[derive(Copy, Clone, Debug, PartialEq, Eq, Structural)]
pub enum ContState {
    /// Created by `cont_new`; no body instruction has run.
    Fresh,
    /// Currently active after a resume.
    Running,
    /// Yielded control via a suspend; eligible to be resumed again.
    Suspended,
    /// Returned normally; the object is dead and its fiber freed.
    Finished,
}

/// A continuation object: the state of one suspendable computation, with
/// its argument buffer and its payload buffer. The fiber's stack itself
/// lives outside this crate.
#[derive(Clone, Debug)]
pub struct ContinuationObject {
    /// Where the object stands in its life.
    pub state: ContState,
    /// The buffer the resume arguments are marshalled through.
    pub args: PayloadBuffer,
    /// The buffer the suspend payloads and return values are marshalled
    /// through.
    pub payloads: PayloadBuffer,
}

impl ContinuationObject {
    /// Both buffers keep their slot discipline.
    pub open spec fn wf(self) -> bool {
        self.args.wf() && self.payloads.wf()
    }

    /// Whether a resume may act on the object: it has either never run or
    /// is parked in a suspension.
    pub open spec fn resumable(self) -> bool {
        self.state == ContState::Fresh || self.state == ContState::Suspended
    }
}

/// A possibly-empty handle on a continuation object. Many references may
/// observe one object over its life, but only one holds it at a time:
/// taking the object out empties the reference.
#[derive(Debug)]
pub struct ContinuationReference(pub Option<ContinuationObject>);

/// The typed-continuation slots of one `VMContext`: the store that a
/// suspended continuation is parked in, and the payload scratch buffer
/// the generated code marshals values through.
#[derive(Debug)]
pub struct ContinuationStore {
    /// The continuation being suspended, if any: what generated code
    /// reaches through `typed_continuations_store`.
    pub store: Option<ContinuationObject>,
    /// The scratch buffer behind `typed_continuations_payloads_ptr`.
    pub payloads: PayloadBuffer,
}

impl ContinuationStore {
    /// A store with no parked continuation and an empty scratch buffer.
    pub fn new() -> (r: ContinuationStore)
        ensures
            r.store is None,
            r.payloads.data@ == Seq::<u128>::empty(),
            r.payloads.cap == 0,
    {
        ContinuationStore { store: None, payloads: PayloadBuffer::new() }
    }

    /// Take the parked continuation out of the store, leaving it empty:
    /// how the host rematerializes a reference after a suspension.
    pub fn take_store(&mut self) -> (r: Option<ContinuationObject>)
        ensures
            r == old(self).store,
            final(self).store is None,
            final(self).payloads == old(self).payloads,
    {
        self.store.take()
    }
}

/// What the fiber's resume primitive reports when control comes back: the
/// body either returned normally or suspended with a tag.
#[derive(Copy, Clone, Debug, PartialEq, Eq, Structural)]
pub enum FiberOutcome {
    /// The continuation ran to the end of its body.
    Returned,
    /// The continuation suspended with the given tag id.
    Suspended(u32),
}

/// A decoded resume selector.
#[derive(Copy, Clone, Debug, PartialEq, Eq, Structural)]
pub enum Selector {
    /// The continuation returned normally.
    Return,
    /// The continuation suspended with the given tag id.
    Suspend(u32),
}

/// The selector a resume reports for an outcome: zero for a normal
/// return; for a suspension the tag with the suspend bit set. The high
/// nibble distinguishes the two cases and the low 28 bits carry the tag.
pub open spec fn resume_selector(outcome: FiberOutcome) -> u32 {
    match outcome {
        FiberOutcome::Returned => 0u32,
        FiberOutcome::Suspended(tag) => tag | 0x8000_0000u32,
    }
}

/// What a selector means: a suspension wherever the high nibble holds the
/// suspend bit, a normal return otherwise.
pub open spec fn decode_selector_spec(selector: u32) -> Selector {
    if selector & 0xF000_0000u32 == 0x8000_0000u32 {
        Selector::Suspend(selector & 0x0FFF_FFFFu32)
    } else {
        Selector::Return
    }
}

/// Decode a resume selector.
pub fn decode_selector(selector: u32) -> (r: Selector)
    ensures
        r == decode_selector_spec(selector),
{
    if selector & 0xF000_0000 == 0x8000_0000 {
        Selector::Suspend(selector & 0x0FFF_FFFF)
    } else {
        Selector::Return
    }
}

/// Create a new continuation: a fresh object whose body has not run and
/// whose buffers are empty. The fiber and its stack are allocated by the
/// primitive outside this crate; the body never runs here.
pub fn cont_new() -> (r: ContinuationObject)
    ensures
        r.state == ContState::Fresh,
        r.args.data@ == Seq::<u128>::empty(),
        r.payloads.data@ == Seq::<u128>::empty(),
        r.wf(),
{
    ContinuationObject { state: ContState::Fresh, args: PayloadBuffer::new(), payloads: PayloadBuffer::new() }
}

/// Wrap a continuation object in a fresh reference that owns it.
pub fn new_cont_ref(contobj: ContinuationObject) -> (r: ContinuationReference)
    ensures
        r.0 == Some(contobj),
{
    ContinuationReference(Some(contobj))
}

/// Take the object out of a reference. The first take empties the
/// reference; any later use finds it empty and traps, which is what
/// prevents a finished continuation from being resumed again.
pub fn cont_ref_get_obj(contref: &mut ContinuationReference) -> (r: Result<
    ContinuationObject,
    TrapReason,
>)
    ensures
        final(contref).0 is None,
        match old(contref).0 {
            Some(o) => r == Ok::<ContinuationObject, TrapReason>(o),
            None => r == Err::<ContinuationObject, TrapReason>(
                TrapReason::ContinuationAlreadyTaken,
            ),
        },
{
    match contref.0.take() {
        None => Err(TrapReason::ContinuationAlreadyTaken),
        Some(contptr) => Ok(contptr),
    }
}

/// Resume a continuation and interpret what the fiber primitive reports.
///
/// On a normal return the object is consumed — its fiber is freed exactly
/// once — and the selector is zero; the Wasm-visible return values are
/// already in the payload buffer. On a suspension the object is parked in
/// the context's store so the host can rematerialize a reference, and the
/// selector carries the tag under the suspend bit. The stack switching
/// around the call — parent-stack link, top-of-stack pointer, zeroed
/// stack limit — is the fiber primitive's side and stays outside this
/// crate.
pub fn resume(ctx: &mut ContinuationStore, contobj: ContinuationObject, outcome: FiberOutcome) -> (
    r: Result<u32, TrapReason>)
    requires
        contobj.resumable(),
        (outcome matches FiberOutcome::Suspended(tag) ==> tag & 0xF000_0000u32 == 0),
    ensures
        r == Ok::<u32, TrapReason>(resume_selector(outcome)),
        match outcome {
            FiberOutcome::Returned => final(ctx).store == old(ctx).store,
            FiberOutcome::Suspended(_) => final(ctx).store == Some(
                ContinuationObject {
                    state: ContState::Suspended,
                    args: contobj.args,
                    payloads: contobj.payloads,
                },
            ),
        },
        final(ctx).payloads == old(ctx).payloads,
{
    match outcome {
        FiberOutcome::Returned => {
            // The object is dropped here: the one free of the fiber.
            Ok(0)
        },
        FiberOutcome::Suspended(tag) => {
            let parked = ContinuationObject {
                state: ContState::Suspended,
                args: contobj.args,
                payloads: contobj.payloads,
            };
            park_in_store(ctx, parked);
            Ok(tag | 0x8000_0000)
        },
    }
}

/// Park a continuation object in the context's store.
fn park_in_store(ctx: &mut ContinuationStore, contobj: ContinuationObject)
    ensures
        final(ctx).store == Some(contobj),
        final(ctx).payloads == old(ctx).payloads,
{
    ctx.store = Some(contobj);
}

/// Announce a suspension with the given tag: the event the in-fiber side
/// of `suspend` hands to the primitive after unlinking its parent stack.
/// Control comes back to the suspension point only through a later
/// resume.
pub fn suspend(tag_index: u32) -> (o: FiberOutcome)
    requires
        tag_index & 0xF000_0000u32 == 0,
    ensures
        o == FiberOutcome::Suspended(tag_index),
{
    FiberOutcome::Suspended(tag_index)
}

/// Read a continuation object's argument buffer.
pub fn cont_obj_get_args(obj: &ContinuationObject) -> (r: &PayloadBuffer)
    ensures
        r == obj.args,
{
    &obj.args
}

/// Read a continuation object's payload buffer.
pub fn cont_obj_get_payloads(obj: &ContinuationObject) -> (r: &PayloadBuffer)
    ensures
        r == obj.payloads,
{
    &obj.payloads
}

/// Occupy the next `count` argument slots of a continuation object and
/// return the position of the first.
pub fn cont_obj_occupy_next_args_slots(obj: &mut ContinuationObject, count: usize) -> (r: usize)
    requires
        old(obj).wf(),
        old(obj).args.data@.len() + count <= usize::MAX,
    ensures
        final(obj).args.data@.len() == old(obj).args.data@.len() + count,
        forall|i: int|
            0 <= i < old(obj).args.data@.len() ==> final(obj).args.data@[i]
                == old(obj).args.data@[i],
        forall|i: int|
            old(obj).args.data@.len() <= i < final(obj).args.data@.len()
                ==> final(obj).args.data@[i] == 0u128,
        final(obj).payloads == old(obj).payloads,
        final(obj).state == old(obj).state,
        final(obj).wf(),
        r == old(obj).args.data@.len(),
{
    obj.args.occupy_next_slots(count)
}

/// Delete the contents of a continuation object's payload buffer without
/// giving up its capacity.
pub fn cont_obj_reset_payloads(obj: &mut ContinuationObject)
    requires
        old(obj).wf(),
    ensures
        final(obj).payloads.data@ == Seq::<u128>::empty(),
        final(obj).payloads.cap == old(obj).payloads.cap,
        final(obj).args == old(obj).args,
        final(obj).state == old(obj).state,
        final(obj).wf(),
{
    obj.payloads.reset();
}

/// Make room in a continuation object's payload buffer for `additional`
/// more values.
pub fn cont_obj_ensure_payloads_additional_capacity(
    obj: &mut ContinuationObject,
    additional: usize,
)
    requires
        old(obj).wf(),
        old(obj).payloads.data@.len() + additional <= usize::MAX,
    ensures
        final(obj).payloads.data@ == old(obj).payloads.data@,
        final(obj).payloads.cap >= old(obj).payloads.data@.len() + additional,
        final(obj).args == old(obj).args,
        final(obj).state == old(obj).state,
        final(obj).wf(),
{
    obj.payloads.ensure_additional_capacity(additional);
}

/// **Selector decoding.** Decoding what a resume reports yields `Return`
/// exactly when the fiber returned; otherwise it yields `Suspend(tag)`
/// with the tag equal to the selector's low 28 bits, and the resume
/// itself has parked the continuation in the context's store.
pub proof fn lemma_selector_decoding(outcome: FiberOutcome)
    requires
        (outcome matches FiberOutcome::Suspended(tag) ==> tag & 0xF000_0000u32 == 0),
    ensures
        decode_selector_spec(resume_selector(outcome)) == (match outcome {
            FiberOutcome::Returned => Selector::Return,
            FiberOutcome::Suspended(tag) => Selector::Suspend(tag),
        }),
        (decode_selector_spec(resume_selector(outcome)) == Selector::Return) <==> (outcome
            == FiberOutcome::Returned),
{
    match outcome {
        FiberOutcome::Returned => {
            assert(0u32 & 0xF000_0000u32 == 0u32) by (bit_vector);
        },
        FiberOutcome::Suspended(tag) => {
            assert((tag | 0x8000_0000u32) & 0xF000_0000u32 == 0x8000_0000u32 && (tag
                | 0x8000_0000u32) & 0x0FFF_FFFFu32 == tag) by (bit_vector)
                requires
                    tag & 0xF000_0000u32 == 0u32,
            ;
        },
    }
}

} // verus!
