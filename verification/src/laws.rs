//! Protocol-level facts that span several calls, proved from the
//! transition predicates alone: lifecycle pairing, session-registry
//! invariants, output ordering, capacity behaviour, and session
//! independence.

use vstd::prelude::*;
use crate::chunk::{DataChunk, StreamResult};
use crate::errors::ExtensionError;
use crate::lifecycle::HandleTable;
use crate::stateful::{SessionStats, YoloVideoProcessor};

verus! {

/// Creating an instance and immediately destroying the returned handle
/// succeeds and leaks nothing: the live-handle set returns to what it
/// was, with exactly one more creation and one more destruction on
/// record.
pub proof fn law_create_then_destroy(
    s0: HandleTable,
    s1: HandleTable,
    s2: HandleTable,
    h: u64,
    r: Result<(), ExtensionError>,
)
    requires
        HandleTable::create_transition(s0, s1, h),
        HandleTable::destroy_transition(s1, s2, h, r),
    ensures
        r is Ok,
        s2.spec_live_count() == s0.spec_live_count(),
        s2.spec_created() == s0.spec_created() + 1,
        s2.spec_destroyed() == s0.spec_destroyed() + 1,
        !s2.spec_is_live(h),
        forall|h2: u64| h2 != h ==> s2.spec_is_live(h2) == s0.spec_is_live(h2),
{
}

/// Registering the same identifier twice is rejected: the second
/// `init_session` reports `SessionAlreadyExists` and leaves the engine,
/// and in particular the first session's accumulator, exactly as it was.
pub proof fn law_init_twice_rejected(
    s0: YoloVideoProcessor,
    s1: YoloVideoProcessor,
    s2: YoloVideoProcessor,
    id: Seq<char>,
    config1: Seq<u8>,
    config2: Seq<u8>,
    r1: Result<(), ExtensionError>,
    r2: Result<(), ExtensionError>,
)
    requires
        YoloVideoProcessor::init_transition(s0, s1, id, config1, r1),
        r1 is Ok,
        YoloVideoProcessor::init_transition(s1, s2, id, config2, r2),
    ensures
        r2 matches Err(e) && e matches ExtensionError::SessionAlreadyExists(s) && s@ == id,
        s2 == s1,
        s2.spec_session(id) == s1.spec_session(id),
{
}

/// After a session is closed, any subsequent chunk for its identifier is
/// `SessionNotFound`, and nothing changes.
pub proof fn law_process_after_close_not_found(
    s0: YoloVideoProcessor,
    s1: YoloVideoProcessor,
    s2: YoloVideoProcessor,
    id: Seq<char>,
    rc: Result<SessionStats, ExtensionError>,
    chunk: DataChunk,
    rp: Result<StreamResult, ExtensionError>,
)
    requires
        YoloVideoProcessor::close_transition(s0, s1, id, rc),
        rc is Ok,
        YoloVideoProcessor::process_transition(s1, s2, id, chunk, rp),
    ensures
        rp matches Err(e) && e matches ExtensionError::SessionNotFound(s) && s@ == id,
        s2 == s1,
{
}

/// For one session fed three chunks in order, the three results'
/// `output_sequence` values are strictly increasing.
pub proof fn law_output_sequence_strictly_increases(
    s0: YoloVideoProcessor,
    s1: YoloVideoProcessor,
    s2: YoloVideoProcessor,
    s3: YoloVideoProcessor,
    id: Seq<char>,
    c1: DataChunk,
    c2: DataChunk,
    c3: DataChunk,
    r1: Result<StreamResult, ExtensionError>,
    r2: Result<StreamResult, ExtensionError>,
    r3: Result<StreamResult, ExtensionError>,
)
    requires
        YoloVideoProcessor::process_transition(s0, s1, id, c1, r1),
        YoloVideoProcessor::process_transition(s1, s2, id, c2, r2),
        YoloVideoProcessor::process_transition(s2, s3, id, c3, r3),
        r1 is Ok,
        r2 is Ok,
        r3 is Ok,
    ensures
        r1 matches Ok(a) && r2 matches Ok(b) && r3 matches Ok(c) ==> a.output_sequence
            < b.output_sequence < c.output_sequence,
{
}

/// With a bound of two concurrent sessions, two distinct sessions open,
/// a third is rejected with `CapacityExceeded` (never by evicting an
/// existing session); closing one frees the slot and the third then
/// opens.
pub proof fn law_capacity_bound(
    s0: YoloVideoProcessor,
    s1: YoloVideoProcessor,
    s2: YoloVideoProcessor,
    s3: YoloVideoProcessor,
    s4: YoloVideoProcessor,
    s5: YoloVideoProcessor,
    a: Seq<char>,
    b: Seq<char>,
    c: Seq<char>,
    ca: Seq<u8>,
    cb: Seq<u8>,
    cc: Seq<u8>,
    cc2: Seq<u8>,
    ra: Result<(), ExtensionError>,
    rb: Result<(), ExtensionError>,
    rc: Result<(), ExtensionError>,
    rd: Result<SessionStats, ExtensionError>,
    re: Result<(), ExtensionError>,
)
    requires
        a != b && a != c && b != c,
        s0.spec_max_sessions() == 2,
        s0.spec_active() == 0,
        !s0.spec_has_session(a) && !s0.spec_has_session(b) && !s0.spec_has_session(c),
        YoloVideoProcessor::init_transition(s0, s1, a, ca, ra),
        YoloVideoProcessor::init_transition(s1, s2, b, cb, rb),
        YoloVideoProcessor::init_transition(s2, s3, c, cc, rc),
        YoloVideoProcessor::close_transition(s3, s4, a, rd),
        YoloVideoProcessor::init_transition(s4, s5, c, cc2, re),
    ensures
        ra is Ok,
        rb is Ok,
        rc matches Err(e) && e is CapacityExceeded,
        rd is Ok,
        re is Ok,
{
    assert(!s1.spec_has_session(b));
    assert(!s2.spec_has_session(c));
    assert(s3 == s2);
    assert(s3.spec_has_session(a));
    assert(!s4.spec_has_session(c));
    assert(s4.spec_active() == 1);
}

/// A freshly opened session owes success: the first valid chunk fed to
/// it is processed, never rejected.
pub proof fn law_fresh_session_accepts_valid_chunk(
    s0: YoloVideoProcessor,
    s1: YoloVideoProcessor,
    s2: YoloVideoProcessor,
    id: Seq<char>,
    config: Seq<u8>,
    chunk: DataChunk,
    ri: Result<(), ExtensionError>,
    rp: Result<StreamResult, ExtensionError>,
)
    requires
        YoloVideoProcessor::init_transition(s0, s1, id, config, ri),
        ri is Ok,
        YoloVideoProcessor::process_transition(s1, s2, id, chunk, rp),
        crate::stateful::spec_video_chunk_ok(chunk),
    ensures
        rp is Ok,
        rp matches Ok(res) ==> res.output_sequence == 1,
{
}

/// One processing step of an interleaved trace: which session it
/// addressed, with what chunk, and what came back.
pub struct ProcessStep {
    pub id: Seq<char>,
    pub chunk: DataChunk,
    pub r: Result<StreamResult, ExtensionError>,
}

/// The states are linked by the steps: step `i` is a processing
/// transition from state `i` to state `i + 1`.
pub open spec fn trace_linked(states: Seq<YoloVideoProcessor>, steps: Seq<ProcessStep>) -> bool {
    &&& states.len() == steps.len() + 1
    &&& forall|i: int|
        0 <= i < steps.len() ==> YoloVideoProcessor::process_transition(
            states[i],
            states[i + 1],
            (#[trigger] steps[i]).id,
            steps[i].chunk,
            steps[i].r,
        )
}

/// How many steps of the trace addressed session `a` and succeeded.
pub open spec fn ok_steps_for(steps: Seq<ProcessStep>, a: Seq<char>) -> int
    decreases steps.len(),
{
    if steps.len() == 0 {
        0
    } else {
        ok_steps_for(steps.drop_last(), a) + (if steps.last().id == a && steps.last().r is Ok {
            1int
        } else {
            0int
        })
    }
}

/// Across any interleaving of processing steps — chunks for this session
/// and for any others, succeeding or failing — a session's frame counter
/// ends up advanced by exactly the number of its own successful chunks:
/// independent callers feeding different sessions cannot contaminate each
/// other's accumulator.
pub proof fn law_frame_counter_counts_own_chunks(
    states: Seq<YoloVideoProcessor>,
    steps: Seq<ProcessStep>,
    a: Seq<char>,
)
    requires
        trace_linked(states, steps),
        states[0].spec_has_session(a),
    ensures
        states.last().spec_has_session(a),
        states.last().spec_session(a).accum.frame_count == states[0].spec_session(
            a,
        ).accum.frame_count + ok_steps_for(steps, a),
    decreases steps.len(),
{
    if steps.len() == 0 {
        assert(states.last() == states[0]);
    } else {
        let n = steps.len() as int;
        let prefix_states = states.drop_last();
        let prefix_steps = steps.drop_last();
        assert(trace_linked(prefix_states, prefix_steps)) by {
            assert forall|i: int|
                0 <= i < prefix_steps.len() implies YoloVideoProcessor::process_transition(
                prefix_states[i],
                prefix_states[i + 1],
                (#[trigger] prefix_steps[i]).id,
                prefix_steps[i].chunk,
                prefix_steps[i].r,
            ) by {
                assert(prefix_steps[i] == steps[i]);
                assert(prefix_states[i] == states[i]);
                assert(prefix_states[i + 1] == states[i + 1]);
            }
        }
        law_frame_counter_counts_own_chunks(prefix_states, prefix_steps, a);
        let pre = states[n - 1];
        let post = states[n];
        let step = steps[n - 1];
        assert(prefix_states.last() == pre);
        assert(YoloVideoProcessor::process_transition(pre, post, step.id, step.chunk, step.r));
        assert(steps.last() == step);
        if step.id == a {
            if step.r is Ok {
                assert(post.spec_session(a).accum.frame_count == pre.spec_session(
                    a,
                ).accum.frame_count + 1);
            } else {
                assert(post.spec_has_session(a));
                assert(post.spec_session(a).accum.frame_count == pre.spec_session(
                    a,
                ).accum.frame_count);
            }
        } else {
            law_sessions_independent(pre, post, a, step.id, step.chunk, step.r);
        }
    }
}

/// Processing a chunk for one session never touches another session's
/// record: no cross-contamination of accumulator state.
pub proof fn law_sessions_independent(
    pre: YoloVideoProcessor,
    post: YoloVideoProcessor,
    a: Seq<char>,
    b: Seq<char>,
    chunk: DataChunk,
    r: Result<StreamResult, ExtensionError>,
)
    requires
        a != b,
        YoloVideoProcessor::process_transition(pre, post, b, chunk, r),
    ensures
        post.spec_has_session(a) == pre.spec_has_session(a),
        pre.spec_has_session(a) ==> post.spec_session(a) == pre.spec_session(a),
{
    if pre.spec_has_session(b) {
        if crate::stateful::spec_video_chunk_ok(chunk) {
            if pre.spec_session(b).accum.frame_count < u64::MAX {
                assert(r is Ok);
            }
        }
    } else {
        assert(post == pre);
    }
}

} // verus!
