//! The graph execution channel: correlation-id bookkeeping for tensors
//! submitted to, and results retrieved from, a computation graph loaded on
//! an accelerator device.
//!
//! The driver runs submitted computations asynchronously and identifies
//! each finished result only by echoing back, verbatim and first-in
//! first-out, the opaque tag supplied at submission.  The channel hands out
//! monotonically increasing request ids as tags and keeps the most recent
//! ones in a three-slot ring indexed by `id mod 3`, so that the referent of
//! an echoed tag is still intact when the driver answers.  The foreign
//! calls themselves are made by the unverified shell, which owns the native
//! handle; every decision around them — which tag to store and where, what
//! a driver answer means, when a retrieval is answered without touching the
//! device at all — is made and verified here.
use vstd::prelude::*;

use crate::api;
use crate::c_string_value;
use crate::from_c_string;
use crate::Error;
use crate::status_error;

verus! {

/// Whether submission and retrieval suspend the calling thread until the
/// device is ready (`Block`), or answer at once with `Busy` or `NoData`
/// (`DontBlock`).
#[derive(Clone, Copy, Debug, PartialEq, Eq, Structural)]
pub enum Blocking {
    Block,
    DontBlock,
}

/// Mathematical state of a channel: the id the next submission will carry,
/// the ring of recently stored tags, and the id of the most recently
/// retrieved result (0 while none has been).
#[verifier::ext_equal]
pub struct GraphState {
    pub next_id: nat,
    pub ids: Seq<nat>,
    pub result_id: nat,
}

impl GraphState {
    /// The state of a freshly allocated channel: ids start at 1, the ring
    /// is clear, nothing has been retrieved.
    pub open spec fn initial() -> GraphState {
        GraphState { next_id: 1, ids: seq![0nat, 0nat, 0nat], result_id: 0 }
    }

    pub open spec fn wf(self) -> bool {
        &&& self.ids.len() == 3
        &&& 1 <= self.next_id
    }

    /// No submission since the last retrieval, or none ever: the ids the
    /// channel has handed out are exactly the ids retrieved.
    pub open spec fn idle(self) -> bool {
        self.result_id + 1 == self.next_id
    }

    /// `id` was handed out by a submission whose result has not been
    /// retrieved yet.
    pub open spec fn outstanding(self, id: nat) -> bool {
        self.result_id < id < self.next_id
    }

    /// How many submitted requests have not been retrieved yet.
    pub open spec fn outstanding_count(self) -> int {
        self.next_id - self.result_id - 1
    }

    /// The state once the tag of the next request sits in its ring slot.
    /// A submission the capacity guard lets through writes the slot before
    /// the driver is called, accepted or not: the driver holds a pointer
    /// to it from the moment of the call.
    pub open spec fn tag_stored(self) -> GraphState {
        GraphState { ids: self.ids.update(self.next_id as int % 3, self.next_id), ..self }
    }

    /// The state after a submission the driver accepted.
    pub open spec fn submitted(self) -> GraphState {
        GraphState { next_id: self.next_id + 1, ..self.tag_stored() }
    }

    /// The state after a retrieval the driver answered with `tag`.
    pub open spec fn retrieved(self, tag: nat) -> GraphState {
        GraphState { result_id: tag, ..self }
    }

    /// The tag a driver that answers strictly first-in first-out echoes
    /// next: the oldest outstanding id.
    pub open spec fn fifo_echo(self) -> nat {
        (self.result_id + 1) as nat
    }

    /// Every outstanding request can still be told apart: no more of them
    /// than the ring has slots, and the ring slot of each outstanding id
    /// holds exactly that id, so the echoed tag reads back the id that was
    /// submitted with it.
    pub open spec fn coherent(self) -> bool {
        &&& self.wf()
        &&& self.result_id < self.next_id
        &&& self.outstanding_count() <= 3
        &&& forall|id: nat| #[trigger] self.outstanding(id) ==> self.ids[id as int % 3] == id
    }
}

/// A computation graph allocated on a device, seen through its correlation
/// bookkeeping.  The native graph handle, which this state describes, is
/// owned by the unverified shell; the channel must not outlive the device
/// session the graph was allocated on.
pub struct Graph {
    next_id: u64,
    ids: [u64; 3],
    result_id: u64,
}

impl View for Graph {
    type V = GraphState;

    closed spec fn view(&self) -> GraphState {
        GraphState {
            next_id: self.next_id as nat,
            ids: self.ids@.map_values(|v: u64| v as nat),
            result_id: self.result_id as nat,
        }
    }
}

impl Graph {
    /// Accounts for the driver's answer to allocating a graph on a device:
    /// on success a channel with its counters at their initial values,
    /// otherwise the translated status — notably `UnsupportedGraphFile` or
    /// `OutOfMemory`.  The graph bytes themselves go to the device in the
    /// foreign call whose status this takes.
    pub fn allocate(status: i32) -> (r: Result<Graph, Error>)
        ensures
            status == api::MVNC_OK ==> (r matches Ok(g) && g@ == GraphState::initial()),
            status != api::MVNC_OK ==> (r matches Err(e) && e == status_error(status)),
    {
        match crate::into_result(status) {
            Ok(()) => {
                let g = Graph { next_id: 1, ids: [0, 0, 0], result_id: 0 };
                proof {
                    assert(g@ =~= GraphState::initial());
                }
                Ok(g)
            },
            Err(e) => Err(e),
        }
    }

    /// The id the next submission will carry — the value of the
    /// correlation tag whose ring slot the tensor-load call passes to the
    /// driver.
    pub fn next_request_id(&self) -> (r: u64)
        ensures
            r == self@.next_id,
    {
        self.next_id
    }

    /// Whether no submitted request is outstanding, in which case a
    /// retrieval is answered `Idle` without a foreign call.
    pub fn is_idle(&self) -> (r: bool)
        requires
            self@.wf(),
        ensures
            r == self@.idle(),
    {
        self.result_id == self.next_id - 1
    }

    /// Whether the ring already distinguishes as many outstanding requests
    /// as it has slots, in which case a submission is refused with `Busy`
    /// before anything is written — the capacity signal surfaces before
    /// any unretrieved tag's slot could be overwritten, and without a
    /// foreign call.
    pub fn is_full(&self) -> (r: bool)
        requires
            self@.wf(),
        ensures
            r == (self@.outstanding_count() >= 3),
    {
        self.result_id < self.next_id && self.next_id - self.result_id - 1 >= 3
    }

    /// Submits a tensor: hands out the next id as the correlation tag and
    /// accounts for the driver's answer to the tensor-load call made with
    /// the tag's ring slot as its opaque parameter.
    ///
    /// With as many requests outstanding as the ring has slots, the
    /// submission is refused with `Busy` at once and nothing is written —
    /// the capacity signal of non-blocking mode surfaces before the slot
    /// of the oldest outstanding tag, whose address the driver still
    /// holds, could be overwritten; retrieval must free a slot first.
    /// Otherwise the id is recorded in its ring slot and the driver's
    /// answer decides: on success the id is handed out and the counter
    /// moves on; `Busy` and every other failure leave the counters
    /// untouched, so the id is reused by the next submission.
    pub fn load_tensor(&mut self, status: i32) -> (r: Result<u64, Error>)
        requires
            old(self)@.wf(),
            old(self)@.next_id < u64::MAX,
        ensures
            final(self)@.wf(),
            old(self)@.outstanding_count() >= 3 ==> (r matches Err(e) && e == Error::Busy
                && final(self)@ == old(self)@),
            old(self)@.outstanding_count() < 3 && status == api::MVNC_OK ==> (r matches Ok(id)
                && id == old(self)@.next_id && final(self)@ == old(self)@.submitted()),
            old(self)@.outstanding_count() < 3 && status != api::MVNC_OK ==> (r matches Err(e)
                && e == status_error(status) && final(self)@ == old(self)@.tag_stored()),
    {
        if self.result_id < self.next_id && self.next_id - self.result_id - 1 >= 3 {
            return Err(Error::Busy);
        }
        let i = (self.next_id % 3) as usize;
        self.ids[i] = self.next_id;
        proof {
            assert(self@.ids =~= old(self)@.tag_stored().ids);
            assert(self@ =~= old(self)@.tag_stored());
        }
        match crate::into_result(status) {
            Ok(()) => {
                let id = self.next_id;
                self.next_id = self.next_id + 1;
                proof {
                    assert(self@ =~= old(self)@.submitted());
                }
                Ok(id)
            },
            Err(e) => Err(e),
        }
    }

    /// Answers a retrieval.  With no request outstanding the answer is
    /// `Idle` at once, from the counters alone.  Otherwise `status`, `tag`
    /// and `data_len` are the driver's answer to the result call — its
    /// status, the echoed correlation tag and the length in bytes of the
    /// result buffer — and `elem_size` is the width of the caller's element
    /// type.  On success the returned pair is the retrieved id and the
    /// number of whole elements; a buffer that is not a whole number of
    /// elements is a `ProtocolViolation`, never a truncated read.  Every
    /// failing answer, `NoData` of non-blocking mode included, leaves the
    /// channel unchanged.
    pub fn get_result(&mut self, status: i32, tag: u64, data_len: usize, elem_size: usize) -> (r:
        Result<(u64, usize), Error>)
        requires
            old(self)@.wf(),
            elem_size >= 1,
        ensures
            final(self)@.wf(),
            final(self)@.next_id == old(self)@.next_id,
            final(self)@.ids == old(self)@.ids,
            old(self)@.idle() ==> (r matches Err(e) && e == Error::Idle
                && final(self)@ == old(self)@),
            !old(self)@.idle() && status != api::MVNC_OK ==> (r matches Err(e)
                && e == status_error(status) && final(self)@ == old(self)@),
            !old(self)@.idle() && status == api::MVNC_OK && data_len % elem_size != 0
                ==> (r matches Err(e) && e == Error::ProtocolViolation
                && final(self)@ == old(self)@),
            !old(self)@.idle() && status == api::MVNC_OK && data_len % elem_size == 0
                ==> (r matches Ok(p) && p.0 == tag && p.1 == data_len / elem_size
                && final(self)@ == old(self)@.retrieved(tag as nat)),
    {
        if self.result_id == self.next_id - 1 {
            return Err(Error::Idle);
        }
        match crate::into_result(status) {
            Ok(()) => {
                if data_len % elem_size != 0 {
                    return Err(Error::ProtocolViolation);
                }
                self.result_id = tag;
                proof {
                    assert(self@ =~= old(self)@.retrieved(tag as nat));
                }
                Ok((tag, data_len / elem_size))
            },
            Err(e) => Err(e),
        }
    }
}

/// The integer the driver stores for a blocking mode.
pub open spec fn spec_blocking_code(blocking: Blocking) -> i32 {
    match blocking {
        Blocking::Block => 0,
        Blocking::DontBlock => 1,
    }
}

/// The blocking mode a reported option value decodes to; a value outside
/// 0..=1 is `Unknown` rather than a crash.
pub open spec fn spec_blocking_of(value: i32) -> Result<Blocking, Error> {
    if value == 0 {
        Ok(Blocking::Block)
    } else if value == 1 {
        Ok(Blocking::DontBlock)
    } else {
        Err(Error::Unknown)
    }
}

/// Decodes the answer of a graph-option query for the blocking mode:
/// `status` is the driver's status code, `value` the 4-byte integer it
/// wrote and `size` the length it reported for it.  The mode lives on the
/// device and is re-queried every time rather than cached, so that the two
/// sides cannot drift apart.
///
/// A reported size other than the width of the fixed-size integer would
/// mean an incompatible driver; the shell asserts on it before calling, so
/// it is ruled out here.
pub fn get_blocking(status: i32, value: i32, size: u32) -> (r: Result<Blocking, Error>)
    requires
        status == api::MVNC_OK ==> size == api::SIZEOF_C_INT,
    ensures
        status == api::MVNC_OK ==> r == spec_blocking_of(value),
        status != api::MVNC_OK ==> r == Err::<Blocking, Error>(status_error(status)),
{
    match crate::into_result(status) {
        Ok(()) => {
            if value == 0 {
                Ok(Blocking::Block)
            } else if value == 1 {
                Ok(Blocking::DontBlock)
            } else {
                Err(Error::Unknown)
            }
        },
        Err(e) => Err(e),
    }
}

/// Encodes a blocking mode as the 4-byte integer value handed to the
/// driver when setting the graph option.
pub fn set_blocking_code(blocking: &Blocking) -> (value: i32)
    ensures
        value == spec_blocking_code(*blocking),
{
    match *blocking {
        Blocking::Block => 0,
        Blocking::DontBlock => 1,
    }
}

/// Decodes the answer of a graph-option query for the time taken per
/// stage: on success the number of whole 4-byte float durations in the
/// reported length.  The float values themselves stay with the foreign
/// buffer; the shell reads `n` of them from it.
pub fn get_time_taken(status: i32, size: u32) -> (r: Result<usize, Error>)
    ensures
        status == api::MVNC_OK ==> (r matches Ok(n) && n == (size / api::SIZEOF_C_FLOAT) as usize),
        status != api::MVNC_OK ==> (r matches Err(e) && e == status_error(status)),
{
    match crate::into_result(status) {
        Ok(()) => Ok((size / api::SIZEOF_C_FLOAT) as usize),
        Err(e) => Err(e),
    }
}

/// Decodes the answer of a graph-option query for debug info, a
/// NUL-terminated byte string that the device fills after it has reported
/// an error.  A buffer without a terminator or without valid text is
/// `Unknown`; a returned text holds no NUL character.
pub fn get_debug_info(status: i32, buf: &[u8]) -> (r: Result<String, Error>)
    ensures
        status != api::MVNC_OK ==> (r matches Err(e) && e == status_error(status)),
        status == api::MVNC_OK ==> match c_string_value(buf@) {
            Some(cs) => r matches Ok(s) && s@ == cs,
            None => r matches Err(e) && e == Error::Unknown,
        },
        r matches Ok(s) ==> forall|i: int| 0 <= i < s@.len() ==> s@[i] != '\0',
{
    match crate::into_result(status) {
        Ok(()) => from_c_string(buf),
        Err(e) => Err(e),
    }
}

/// Setting a blocking mode and decoding what was written yields the same
/// mode back: the two directions of the option encoding agree.
pub proof fn lemma_blocking_round_trip(blocking: Blocking)
    ensures
        spec_blocking_of(spec_blocking_code(blocking)) == Ok::<Blocking, Error>(blocking),
{
}

/// The channel state after `n` accepted submissions.
pub open spec fn after_submits(g: GraphState, n: nat) -> GraphState
    decreases n,
{
    if n == 0 {
        g
    } else {
        after_submits(g, (n - 1) as nat).submitted()
    }
}

/// The channel state after `n` successful retrievals against a driver that
/// echoes tags first-in first-out.
pub open spec fn after_fifo_retrieves(g: GraphState, n: nat) -> GraphState
    decreases n,
{
    if n == 0 {
        g
    } else {
        let h = after_fifo_retrieves(g, (n - 1) as nat);
        h.retrieved(h.fifo_echo())
    }
}

proof fn lemma_after_submits_counters(g: GraphState, n: nat)
    requires
        g.wf(),
    ensures
        after_submits(g, n).next_id == g.next_id + n,
        after_submits(g, n).result_id == g.result_id,
        after_submits(g, n).wf(),
    decreases n,
{
    if n > 0 {
        lemma_after_submits_counters(g, (n - 1) as nat);
    }
}

proof fn lemma_after_retrieves_counters(g: GraphState, n: nat)
    ensures
        after_fifo_retrieves(g, n).next_id == g.next_id,
        after_fifo_retrieves(g, n).result_id == g.result_id + n,
        after_fifo_retrieves(g, n).ids == g.ids,
    decreases n,
{
    if n > 0 {
        lemma_after_retrieves_counters(g, (n - 1) as nat);
    }
}

/// Results are correlated in exactly the order submitted.  The driver
/// completes computations first-in first-out and echoes each correlation
/// tag verbatim; under that contract, in a session that starts with no
/// request outstanding, the k-th of n accepted submissions returns the id
/// `next_id + k - 1`, and the k-th retrieval — whenever it happens, before
/// or after the later submissions — is answered with exactly that id.
pub proof fn lemma_fifo_correlation(g: GraphState, n: nat, k: nat)
    requires
        g.wf(),
        g.idle(),
        1 <= k <= n,
    ensures
        after_submits(g, (k - 1) as nat).next_id == g.next_id + k - 1,
        after_fifo_retrieves(after_submits(g, n), (k - 1) as nat).fifo_echo() == g.next_id + k
            - 1,
{
    lemma_after_submits_counters(g, (k - 1) as nat);
    lemma_after_submits_counters(g, n);
    lemma_after_retrieves_counters(after_submits(g, n), (k - 1) as nat);
}

/// A session drains completely: submitting `n` tensors and retrieving `n`
/// results against a first-in first-out driver ends with no request
/// outstanding, so no id was skipped and none was retrieved twice — the
/// ids retrieved were, by the correlation law, exactly the `n` ids handed
/// out.
pub proof fn lemma_session_drained(g: GraphState, n: nat)
    requires
        g.wf(),
        g.idle(),
    ensures
        after_fifo_retrieves(after_submits(g, n), n).wf(),
        after_fifo_retrieves(after_submits(g, n), n).idle(),
{
    lemma_after_submits_counters(g, n);
    lemma_after_retrieves_counters(after_submits(g, n), n);
}

/// Backpressure keeps correlation unambiguous.  A submission that reaches
/// the ring sees at most two requests outstanding — with three, the
/// channel's capacity guard refuses it before anything is written — and
/// then the slot the new tag goes to holds no outstanding id.  So whether
/// the driver accepts the submission or fails it, every outstanding id
/// still reads back from its own slot, and the state stays coherent:
/// three in-flight requests never collide in the ring.
pub proof fn lemma_submit_keeps_coherence(g: GraphState)
    requires
        g.coherent(),
        g.outstanding_count() <= 2,
    ensures
        g.tag_stored().coherent(),
        g.submitted().coherent(),
        forall|id: nat| g.outstanding(id) ==> id % 3 != g.next_id % 3,
{
    assert forall|id: nat| g.outstanding(id) implies id % 3 != g.next_id % 3 by {
        assert(g.next_id - 2 <= id < g.next_id);
    }
    let t = g.tag_stored();
    assert forall|id: nat| #[trigger] t.outstanding(id) implies t.ids[id as int % 3] == id by {
        assert(g.outstanding(id));
        assert(id % 3 != g.next_id % 3);
        assert(t.ids[id as int % 3] == g.ids[id as int % 3]);
    }
    let h = g.submitted();
    assert forall|id: nat| #[trigger] h.outstanding(id) implies h.ids[id as int % 3] == id by {
        if id == g.next_id {
            assert(h.ids[id as int % 3] == id);
        } else {
            assert(g.outstanding(id));
            assert(id % 3 != g.next_id % 3);
            assert(h.ids[id as int % 3] == g.ids[id as int % 3]);
        }
    }
}

/// Retrieving in first-in first-out order reads the oldest outstanding id
/// out of its own ring slot — the echoed tag still holds the id it was
/// given — and keeps the state coherent.
pub proof fn lemma_retrieve_keeps_coherence(g: GraphState)
    requires
        g.coherent(),
        !g.idle(),
    ensures
        g.ids[g.fifo_echo() as int % 3] == g.fifo_echo(),
        g.retrieved(g.fifo_echo()).coherent(),
{
    assert(g.outstanding(g.fifo_echo()));
    let h = g.retrieved(g.fifo_echo());
    assert forall|id: nat| #[trigger] h.outstanding(id) implies h.ids[id as int % 3] == id by {
        assert(g.outstanding(id));
    }
}

} // verus!
