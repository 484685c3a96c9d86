//! Properties that hold across several calls of the library.
use vstd::prelude::*;
use crate::applier::ApplyOutcome;
use crate::baseline::baseline_after;
use crate::capture::{CaptureEvent, CaptureStage, CaptureStep, capture_next};
use crate::identity::{ResolveError, member_at, resolved, selection_keys, string_at, walk};
use crate::watcher::event_cycle;

verus! {

/// Two change events in a row that resolve to the same identifier, with the
/// profile store unchanged in between: the second writes nothing into the
/// live slot, unless the first one's write failed.
pub proof fn lemma_repeated_identifier_writes_nothing(
    last: Seq<char>,
    id: String,
    found: Option<Vec<u8>>,
    first: ApplyOutcome,
    second: ApplyOutcome,
)
    requires
        first.wrote(),
    ensures
        event_cycle(
            event_cycle(last, Ok(id), found, first).0,
            Ok(id),
            found,
            second,
        ).1 is None,
{
}

/// Following `front` and then `back` is following the two one after the other.
pub proof fn lemma_walk_split(text: Seq<char>, front: Seq<Seq<char>>, back: Seq<Seq<char>>)
    ensures
        walk(text, front + back) == match walk(text, front) {
            Some(t) => walk(t, back),
            None => None,
        },
    decreases front.len(),
{
    if front.len() == 0 {
        assert(front + back =~= back);
    } else {
        assert((front + back)[0] == front[0]);
        assert((front + back).drop_first() =~= front.drop_first() + back);
        match member_at(text, front[0]) {
            Some(t) => lemma_walk_split(t, front.drop_first(), back),
            None => {},
        }
    }
}

/// A configuration in which a key on the lookup path is missing, at any
/// depth, never yields an identifier.
pub proof fn lemma_missing_key_fails(doc: Seq<char>, user: Seq<char>, depth: int, reached: Seq<char>)
    requires
        0 <= depth < 6,
        walk(doc, selection_keys(user).take(depth)) == Some(reached),
        member_at(reached, selection_keys(user)[depth]) is None,
    ensures
        resolved(doc, user) is Err,
{
    let keys = selection_keys(user);
    assert(keys.take(depth) + keys.skip(depth) =~= keys);
    lemma_walk_split(doc, keys.take(depth), keys.skip(depth));
    assert(keys.skip(depth)[0] == keys[depth]);
    assert(walk(doc, keys) is None);
    assert(string_at(doc, keys) is None);
}

/// Capturing a layout and then receiving a change event for the same
/// identifier, with the captured layout in the profile store, leaves the
/// live slot holding the bytes it held at the capture: the event either
/// writes the captured bytes back or writes nothing.
pub proof fn lemma_capture_then_change_restores(
    id: String,
    layout: Vec<u8>,
    live: Seq<u8>,
    last: Seq<char>,
    outcome: ApplyOutcome,
)
    requires
        layout@ == live,
    ensures
        capture_next(CaptureStage::Restoring(id), CaptureEvent::ReadBack(layout)).1
            == CaptureStep::Save(id, layout),
        match event_cycle(last, Ok(id), Some(layout), outcome).1 {
            Some(written) => written,
            None => live,
        } == live,
{
}

/// A baseline made sure of twice holds what the first call found in the
/// live slot, where none existed before; an existing one is kept either way.
pub proof fn lemma_baseline_created_once(existing: Option<Seq<u8>>, first: Seq<u8>, second: Seq<u8>)
    ensures
        baseline_after(baseline_after(existing, first), second) == baseline_after(existing, first),
        existing is None ==> baseline_after(baseline_after(existing, first), second) == Some(first),
{
}

/// A first capture, with no managed layout and no baseline yet and `live` in
/// the live slot: the baseline becomes `live`, and a capture whose
/// identifier resolves saves under it what was read back, which is `live`
/// where nothing altered the live slot in between.
pub proof fn lemma_first_capture_saves_live(live: Seq<u8>, id: String, read_back: Vec<u8>)
    requires
        read_back@ == live,
    ensures
        baseline_after(None, live) == Some(live),
        ({
            let (s1, a1) = capture_next(CaptureStage::Idle, CaptureEvent::Start(false));
            let (s2, a2) = capture_next(s1, CaptureEvent::StepDone);
            let (s3, a3) = capture_next(s2, CaptureEvent::Identity(Ok(id)));
            let (s4, a4) = capture_next(s3, CaptureEvent::ReadBack(read_back));
            &&& a1 == CaptureStep::InstallManaged
            &&& a2 == CaptureStep::ResolveIdentity
            &&& a3 == CaptureStep::RestoreBaseline
            &&& a4 == CaptureStep::Save(id, read_back)
        }),
{
}

/// A capture whose identifier does not resolve saves nothing.
pub proof fn lemma_unresolved_capture_saves_nothing(stage: CaptureStage, e: ResolveError)
    ensures
        capture_next(stage, CaptureEvent::Identity(Err(e))) == (
            CaptureStage::Done,
            CaptureStep::Failed(crate::capture::CaptureError::Identity(e)),
        ),
{
}

} // verus!
