//! The cursor protocol for the engine's enumerations.
//!
//! The engine exposes domains, assemblies, and modules through
//! Start/Next/End cursor sequences.  Each Next call either yields one
//! non-null opaque handle or signals exhaustion; a failure status or a null
//! handle is the unambiguous exhaustion signal, and the driver must stop
//! calling Next immediately at the first such result — it never resumes
//! after a failure.  End releases the cursor and is valid whether or not
//! the sequence was exhausted.
//!
//! This module holds the driver's decisions: how one Next outcome is
//! classified, how the protocol's state advances, and which handles a whole
//! Next loop yields.  The engine calls themselves stay with the embedding
//! program, which feeds their raw results back in.

use vstd::prelude::*;

use crate::hresult::{spec_succeeded, succeeded};

verus! {

/// State of one enumeration cursor.
#[derive(Clone, Copy, PartialEq, Eq, Structural, Debug)]
pub enum CursorState {
    /// Start has not been called.
    NotStarted,
    /// Start succeeded; Next may be called.
    Enumerating,
    /// The sequence is over (Start failed, exhaustion was signalled, or
    /// End was called); Next must not be called again.
    Ended,
}

/// What one engine call reported back to the driver.
#[derive(Clone, Copy, PartialEq, Eq, Structural, Debug)]
pub enum CursorEvent {
    /// Start returned this status.
    Started(i32),
    /// Next returned this status and handle (0 is the null handle).
    Advanced(i32, u64),
    /// End was called.
    Closed,
}

/// What the driver does next.
#[derive(Clone, Copy, PartialEq, Eq, Structural, Debug)]
pub enum DriverAction {
    /// Use the yielded handle, then call Next again.
    UseHandle(u64),
    /// Stop calling Next and call End.
    Finish,
    /// Nothing to do (the cursor is already closed or the event is not
    /// valid in this state).
    Ignore,
}

/// One raw Next outcome: the call's status and the handle it wrote (0 for
/// null).
#[derive(Clone, Copy, PartialEq, Eq, Structural, Debug)]
pub struct NextResult {
    /// Status returned by the Next call.
    pub hr: i32,
    /// The opaque handle produced, 0 when none was.
    pub handle: u64,
}

/// A Next outcome yields an entry exactly when its status is success and
/// its handle is non-null.
pub open spec fn spec_yields(r: NextResult) -> bool {
    spec_succeeded(r.hr) && r.handle != 0
}

/// Number of leading Next outcomes that yield an entry: the driver stops
/// at the first outcome that does not.
pub open spec fn spec_stop_index(rs: Seq<NextResult>) -> int
    decreases rs.len(),
{
    if rs.len() == 0 {
        0
    } else if !spec_yields(rs[0]) {
        0
    } else {
        1 + spec_stop_index(rs.drop_first())
    }
}

/// The handles a Next loop over `rs` yields, in order: the handles of the
/// outcomes before the first non-yielding one.
pub open spec fn spec_yielded_handles(rs: Seq<NextResult>) -> Seq<u64> {
    rs.take(spec_stop_index(rs)).map_values(|r: NextResult| r.handle)
}

/// Basic bounds of the stop index: it lies within the sequence, everything
/// before it yields, and the outcome at it (when the sequence was not
/// exhausted by the engine's own supply) does not.
pub proof fn lemma_stop_index(rs: Seq<NextResult>)
    ensures
        0 <= spec_stop_index(rs) <= rs.len(),
        forall|j: int| 0 <= j < spec_stop_index(rs) ==> spec_yields(rs[j]),
        spec_stop_index(rs) < rs.len() ==> !spec_yields(rs[spec_stop_index(rs)]),
    decreases rs.len(),
{
    if rs.len() > 0 && spec_yields(rs[0]) {
        lemma_stop_index(rs.drop_first());
        assert(forall|j: int| 1 <= j < rs.len() ==> rs[j] == rs.drop_first()[j - 1]);
    }
}

/// Classify one Next outcome: `true` means it yielded a usable handle,
/// `false` means exhaustion and the driver must stop.
pub fn classify_next(r: &NextResult) -> (y: bool)
    ensures
        y == spec_yields(*r),
{
    succeeded(r.hr) && r.handle != 0
}

/// Advance the cursor protocol by one event.
///
/// Start moves NotStarted to Enumerating on success and to Ended on
/// failure.  A yielding Next keeps the cursor Enumerating and hands the
/// driver the handle; any other Next ends the sequence.  End always leaves
/// the cursor Ended.  Events that are not valid in the current state
/// change nothing.
pub fn cursor_step(state: CursorState, event: CursorEvent) -> (r: (CursorState, DriverAction))
    ensures
        r == spec_cursor_step(state, event),
{
    match (state, event) {
        (CursorState::NotStarted, CursorEvent::Started(hr)) => {
            if succeeded(hr) {
                (CursorState::Enumerating, DriverAction::Ignore)
            } else {
                (CursorState::Ended, DriverAction::Finish)
            }
        },
        (CursorState::Enumerating, CursorEvent::Advanced(hr, handle)) => {
            if succeeded(hr) && handle != 0 {
                (CursorState::Enumerating, DriverAction::UseHandle(handle))
            } else {
                (CursorState::Ended, DriverAction::Finish)
            }
        },
        (_, CursorEvent::Closed) => (CursorState::Ended, DriverAction::Ignore),
        _ => (state, DriverAction::Ignore),
    }
}

/// The transition relation of [`cursor_step`].
pub open spec fn spec_cursor_step(state: CursorState, event: CursorEvent) -> (
    CursorState,
    DriverAction,
) {
    match (state, event) {
        (CursorState::NotStarted, CursorEvent::Started(hr)) => if spec_succeeded(hr) {
            (CursorState::Enumerating, DriverAction::Ignore)
        } else {
            (CursorState::Ended, DriverAction::Finish)
        },
        (CursorState::Enumerating, CursorEvent::Advanced(hr, handle)) => if spec_succeeded(hr)
            && handle != 0 {
            (CursorState::Enumerating, DriverAction::UseHandle(handle))
        } else {
            (CursorState::Ended, DriverAction::Finish)
        },
        (_, CursorEvent::Closed) => (CursorState::Ended, DriverAction::Ignore),
        _ => (state, DriverAction::Ignore),
    }
}

/// Run one whole Next loop over the recorded outcomes `rs`: collect each
/// yielded handle in order and stop at the first non-yielding outcome.
/// The boolean reports whether exhaustion was signalled within `rs` (when
/// it is false the supply of recorded outcomes ran out first).
pub fn collect_yielded(rs: &Vec<NextResult>) -> (r: (Vec<u64>, bool))
    ensures
        r.0@ == spec_yielded_handles(rs@),
        r.1 == (spec_stop_index(rs@) < rs@.len()),
{
    let n = rs.len();
    let mut out: Vec<u64> = Vec::new();
    let mut i: usize = 0;
    proof {
        lemma_stop_index(rs@);
    }
    while i < n
        invariant
            n == rs@.len(),
            i <= n,
            i <= spec_stop_index(rs@),
            forall|j: int| 0 <= j < i ==> spec_yields(rs@[j]),
            out@.len() == i,
            forall|j: int| 0 <= j < i ==> out@[j] == rs@[j].handle,
            0 <= spec_stop_index(rs@) <= rs@.len(),
            spec_stop_index(rs@) < rs@.len() ==> !spec_yields(rs@[spec_stop_index(rs@)]),
        decreases n - i,
    {
        let r = rs[i];
        if !classify_next(&r) {
            proof {
                lemma_stop_index_at(rs@, i as int);
                assert(out@ =~= spec_yielded_handles(rs@));
            }
            return (out, true);
        }
        out.push(r.handle);
        proof {
            lemma_stop_index_past(rs@, i as int);
        }
        i = i + 1;
    }
    proof {
        assert(spec_stop_index(rs@) == rs@.len());
        assert(out@ =~= spec_yielded_handles(rs@));
    }
    (out, false)
}

/// When everything before `k` yields and `rs[k]` does not, the stop index
/// is exactly `k`.
proof fn lemma_stop_index_at(rs: Seq<NextResult>, k: int)
    requires
        0 <= k < rs.len(),
        forall|j: int| 0 <= j < k ==> spec_yields(rs[j]),
        !spec_yields(rs[k]),
    ensures
        spec_stop_index(rs) == k,
    decreases k,
{
    if k > 0 {
        assert(forall|j: int| 0 <= j < rs.len() - 1 ==> rs.drop_first()[j] == rs[j + 1]);
        lemma_stop_index_at(rs.drop_first(), k - 1);
    }
}

/// When everything up to and including `k` yields, the stop index is past
/// `k`.
proof fn lemma_stop_index_past(rs: Seq<NextResult>, k: int)
    requires
        0 <= k < rs.len(),
        forall|j: int| 0 <= j <= k ==> spec_yields(rs[j]),
    ensures
        spec_stop_index(rs) > k,
    decreases k,
{
    lemma_stop_index(rs.drop_first());
    if k > 0 {
        assert(forall|j: int| 0 <= j < rs.len() - 1 ==> rs.drop_first()[j] == rs[j + 1]);
        lemma_stop_index_past(rs.drop_first(), k - 1);
    }
}

/// Enumeration over an empty category terminates at once: when the first
/// Next outcome already signals exhaustion, the loop yields no handle at
/// all.
pub proof fn lemma_empty_enumeration_yields_nothing(rs: Seq<NextResult>)
    requires
        rs.len() > 0,
        !spec_yields(rs[0]),
    ensures
        spec_yielded_handles(rs).len() == 0,
{
}

/// The driver never uses a handle at or past the first exhaustion signal:
/// what a Next loop yields is exactly the handles before the stop index.
pub proof fn lemma_no_yield_after_stop(rs: Seq<NextResult>)
    ensures
        spec_yielded_handles(rs).len() == spec_stop_index(rs),
        forall|j: int| 0 <= j < spec_stop_index(rs) ==> spec_yielded_handles(rs)[j] == rs[j].handle,
{
    lemma_stop_index(rs);
}

/// Choose the name to show for a yielded entry: the rich display name when
/// the engine produced one, else the plain name, else nothing (the entry
/// is skipped).
pub fn select_name(display: Option<Vec<u8>>, plain: Option<Vec<u8>>) -> (r: Option<Vec<u8>>)
    ensures
        display is Some ==> r == display,
        display is None ==> r == plain,
{
    match display {
        Some(d) => Some(d),
        None => plain,
    }
}

/// Length of the usable prefix of a wide-character buffer: the engine
/// reports `len` units, and the text ends at the first null unit when one
/// comes earlier.
pub fn wide_prefix_len(buf: &[u16], len: usize) -> (r: usize)
    requires
        len <= buf@.len(),
    ensures
        r <= len,
        forall|j: int| 0 <= j < r ==> buf@[j] != 0,
        r < len ==> buf@[r as int] == 0,
{
    let mut i: usize = 0;
    while i < len
        invariant
            len <= buf@.len(),
            i <= len,
            forall|j: int| 0 <= j < i ==> buf@[j] != 0,
        decreases len - i,
    {
        if buf[i] == 0 {
            return i;
        }
        i = i + 1;
    }
    len
}

} // verus!
