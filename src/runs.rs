//! What holds of whole runs, over the sequence of events a caller reports.
use vstd::prelude::*;
use crate::decrypt::decryption_verdict;
use crate::error::ErrorKind;
use crate::locate::{first_present, lemma_none_present};
use crate::pipeline::{action_fits, next_stage, Action, Event, Extraction, Stage};
use crate::unpack::{direct_unpacked, UnpackReport};

verus! {

/// The stage that a run at `st` reaches after the events `evs`, in order.
pub open spec fn stage_after(st: Stage, evs: Seq<Event>) -> Stage
    decreases evs.len(),
{
    if evs.len() == 0 {
        st
    } else {
        next_stage(stage_after(st, evs.drop_last()), evs.last())
    }
}

/// The stage of a fresh run after the first `k` events of `evs`.
pub open spec fn stage_at(evs: Seq<Event>, k: int) -> Stage {
    stage_after(Stage::CheckSource, evs.take(k))
}

/// Whether the run is on the decryption path, before its end.
pub open spec fn on_fallback(st: Stage) -> bool {
    ||| st is Locate
    ||| st is Decrypt
    ||| st is ConfirmArtifact
    ||| st is UnpackDecrypted
    ||| st is Cleanup
}

/// A probe that found the tool at none of the locations.
pub open spec fn finds_no_tool(e: Event) -> bool {
    &&& e matches Event::Probed { present }
    &&& forall|j: int| 0 <= j < present@.len() ==> !present@[j]
}

/// A run of the tool that did not leave a decrypted archive.
pub open spec fn tool_run_fails(e: Event) -> bool {
    &&& e matches Event::ToolFinished { run, output_exists }
    &&& decryption_verdict(run, output_exists) is Err
}

proof fn lemma_stage_at_next(evs: Seq<Event>, k: int)
    requires
        0 <= k < evs.len(),
    ensures
        stage_at(evs, k + 1) == next_stage(stage_at(evs, k), evs[k]),
{
    assert(evs.take(k + 1).drop_last() =~= evs.take(k));
    assert(evs.take(k + 1).last() == evs[k]);
}

proof fn lemma_stage_at_start(evs: Seq<Event>)
    ensures
        stage_at(evs, 0) == Stage::CheckSource,
{
    assert(evs.take(0) =~= Seq::<Event>::empty());
}

proof fn lemma_end_stays(evs: Seq<Event>, k: int, m: int)
    requires
        0 <= k <= m <= evs.len(),
        stage_at(evs, k) is Succeeded || stage_at(evs, k) is Failed,
    ensures
        stage_at(evs, m) == stage_at(evs, k),
    decreases m - k,
{
    if m > k {
        lemma_end_stays(evs, k, m - 1);
        lemma_stage_at_next(evs, m - 1);
    }
}

/// An input that unpacks as it stands ends the run in success after the
/// direct attempt: the run never goes looking for the decryption tool.
pub proof fn archive_never_needs_tool(evs: Seq<Event>)
    requires
        evs.len() >= 2,
        evs[0] == (Event::Exists { found: true }),
        evs[1] matches Event::Unpacked { report } && direct_unpacked(report),
    ensures
        forall|k: int| 0 <= k <= evs.len() ==> !(#[trigger] stage_at(evs, k) is Locate),
        forall|k: int| 2 <= k <= evs.len() ==> #[trigger] stage_at(evs, k) == Stage::Succeeded,
{
    lemma_stage_at_start(evs);
    lemma_stage_at_next(evs, 0);
    lemma_stage_at_next(evs, 1);
    assert forall|k: int| 0 <= k <= evs.len() implies !(#[trigger] stage_at(evs, k) is Locate) by {
        if k >= 2 {
            lemma_end_stays(evs, 2, k);
        }
    }
    assert forall|k: int| 2 <= k <= evs.len() implies #[trigger] stage_at(evs, k)
        == Stage::Succeeded by {
        lemma_end_stays(evs, 2, k);
    }
}

/// An input that is no archive and that the tool cannot decrypt, because
/// no tool is found or its run fails, ends the run in `ToolUnavailable` or
/// `DecryptionFailed`; the run never unpacks a decrypted archive nor
/// succeeds.
pub proof fn undecryptable_input_fails(evs: Seq<Event>)
    requires
        evs.len() >= 3,
        evs[0] == (Event::Exists { found: true }),
        evs[1] matches Event::Unpacked { report } && report is Ran && !direct_unpacked(report),
        finds_no_tool(evs[2]) || (evs.len() >= 4 && evs[2] is Probed && tool_run_fails(evs[3])),
    ensures
        stage_at(evs, evs.len() as int) == Stage::Failed(ErrorKind::ToolUnavailable)
            || stage_at(evs, evs.len() as int) == Stage::Failed(ErrorKind::DecryptionFailed),
        forall|k: int|
            0 <= k <= evs.len() ==> !(#[trigger] stage_at(evs, k) is UnpackDecrypted) && !(stage_at(
                evs,
                k,
            ) is Succeeded),
{
    lemma_stage_at_start(evs);
    lemma_stage_at_next(evs, 0);
    lemma_stage_at_next(evs, 1);
    lemma_stage_at_next(evs, 2);
    if finds_no_tool(evs[2]) {
        lemma_none_present(evs[2]->Probed_present@, 0);
        assert(stage_at(evs, 3) == Stage::Failed(ErrorKind::ToolUnavailable));
    } else {
        lemma_stage_at_next(evs, 3);
    }
    let end = if stage_at(evs, 3) is Failed { 3int } else { 4int };
    assert(stage_at(evs, end) is Failed);
    lemma_end_stays(evs, end, evs.len() as int);
    assert forall|k: int| 0 <= k <= evs.len() implies !(#[trigger] stage_at(evs, k) is UnpackDecrypted)
        && !(stage_at(evs, k) is Succeeded) by {
        if k >= end {
            lemma_end_stays(evs, end, k);
        }
    }
}

proof fn lemma_fallback_path(evs: Seq<Event>, k: int, m: int)
    requires
        0 <= k <= m <= evs.len(),
        stage_at(evs, k) is Locate,
    ensures
        on_fallback(stage_at(evs, m)) || stage_at(evs, m) is Failed || (stage_at(evs, m) is Succeeded
            && exists|j: int|
            k <= j < m && #[trigger] stage_at(evs, j) is Cleanup && evs[j] matches Event::Removed {
                result: Ok(_),
            }),
    decreases m - k,
{
    if m > k {
        lemma_fallback_path(evs, k, m - 1);
        lemma_stage_at_next(evs, m - 1);
        let prev = stage_at(evs, m - 1);
        if prev is Cleanup && stage_at(evs, m) is Succeeded {
            assert(evs[m - 1] matches Event::Removed { result: Ok(_) });
        }
    }
}

/// A run that succeeds after going looking for the decryption tool has
/// reached its cleanup step, and there the removal of the decrypted archive
/// succeeded.
pub proof fn fallback_success_cleans_up(evs: Seq<Event>, k: int)
    requires
        0 <= k <= evs.len(),
        stage_at(evs, k) is Locate,
        stage_at(evs, evs.len() as int) is Succeeded,
    ensures
        exists|j: int|
            k <= j < evs.len() && #[trigger] stage_at(evs, j) is Cleanup && evs[j] matches Event::Removed {
                result: Ok(_),
            },
{
    lemma_fallback_path(evs, k, evs.len() as int);
}

/// Every unpack that a run asks for, direct or after decryption, goes into
/// the run's one extraction directory, which its start derives from the
/// source and the requested output directory alone.
pub proof fn unpack_goes_to_extract_dir(pre: Extraction, e: Event, a: Action)
    requires
        action_fits(pre, e, a),
        a is Unpack,
    ensures
        a->Unpack_target@ == pre.extract_dir@,
{
}

} // verus!
