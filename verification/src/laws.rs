use vstd::prelude::*;

use crate::error::{AuthError, PushErrorView};
use crate::pusher::{
    lemma_step_keeps_wf, BlobStatus, EventView, PhaseView, PushView, ReceiptView,
};
use crate::step::{Action, BlobKind};

verus! {

/// The push after a sequence of events, taken in their order.
pub open spec fn run(s: PushView, events: Seq<EventView>) -> PushView
    decreases events.len(),
{
    if events.len() == 0 {
        s
    } else {
        run(s, events.drop_last()).step(events.last())
    }
}

/// `event` reports that the registry holds the blob of the given kind: it
/// was found there, or uploaded with the right digest coming back.
pub open spec fn confirms(s: PushView, event: EventView, kind: BlobKind) -> bool {
    event == (EventView::BlobFound { kind }) || event == (EventView::BlobUploaded {
        kind,
        digest: s.blob(kind).digest,
    })
}

/// `event` reports that a request for a blob failed: the transport gave
/// up, the registry refused the credential, or it reported a digest other
/// than the blob's.
pub open spec fn is_blob_fault(s: PushView, event: EventView) -> bool {
    match event {
        EventView::TransportFailed { during, message } => during is CheckBlob
            || during is UploadBlob,
        EventView::AuthRejected { during, status } => during is CheckBlob || during is UploadBlob,
        EventView::BlobUploaded { kind, digest } => digest != s.blob(kind).digest,
        _ => false,
    }
}

/// No sequence of events makes a valid push invalid, nor changes what is
/// pushed, where, or by whom.
pub proof fn lemma_run_keeps_wf(s: PushView, events: Seq<EventView>)
    requires
        s.wf(),
    ensures
        run(s, events).wf(),
        run(s, events).reference == s.reference,
        run(s, events).config == s.config,
        run(s, events).layer == s.layer,
        run(s, events).credential == s.credential,
    decreases events.len(),
{
    if events.len() > 0 {
        lemma_run_keeps_wf(s, events.drop_last());
        lemma_step_keeps_wf(run(s, events.drop_last()), events.last());
    }
}

/// A push that is over stays as it is, whatever is reported later, and
/// allows no request.
pub proof fn lemma_terminal_is_final(s: PushView, events: Seq<EventView>)
    requires
        s.is_terminal(),
    ensures
        run(s, events) == s,
        forall|action: Action| !s.enabled(action),
    decreases events.len(),
{
    if events.len() > 0 {
        lemma_terminal_is_final(s, events.drop_last());
    }
}

/// Ordering. A blob counts as present only after an event confirmed it: if
/// after `events` the push takes the blob of `kind` for present, it did so
/// before them, or one of them confirms that blob.
pub proof fn lemma_present_was_confirmed(s: PushView, events: Seq<EventView>, kind: BlobKind)
    requires
        s.wf(),
        run(s, events).status(kind) == BlobStatus::Present,
    ensures
        s.status(kind) == BlobStatus::Present || exists|i: int|
            0 <= i < events.len() && confirms(s, #[trigger] events[i], kind),
    decreases events.len(),
{
    if events.len() > 0 {
        let before = run(s, events.drop_last());
        let event = events.last();
        lemma_run_keeps_wf(s, events.drop_last());
        if before.status(kind) == BlobStatus::Present {
            lemma_present_was_confirmed(s, events.drop_last(), kind);
            if s.status(kind) != BlobStatus::Present {
                let i = choose|i: int|
                    0 <= i < events.drop_last().len() && confirms(
                        s,
                        #[trigger] events.drop_last()[i],
                        kind,
                    );
                assert(events[i] == events.drop_last()[i]);
            }
        } else {
            assert(before.enabled(event.answers()));
            assert(confirms(s, events[events.len() - 1], kind));
        }
    }
}

/// Ordering. The manifest is never allowed, let alone published, before
/// both blobs were confirmed: whenever a push that started from nothing
/// allows the manifest or has published it, the events so far hold a
/// confirmation of the config and one of the layer.
pub proof fn lemma_manifest_waits_for_blobs(s: PushView, events: Seq<EventView>)
    requires
        s.wf(),
        s.phase is Init,
        run(s, events).enabled(Action::PutManifest) || run(s, events).phase is ManifestPublished,
    ensures
        exists|i: int| 0 <= i < events.len() && confirms(s, #[trigger] events[i], BlobKind::Config),
        exists|i: int| 0 <= i < events.len() && confirms(s, #[trigger] events[i], BlobKind::Layer),
{
    lemma_present_was_confirmed(s, events, BlobKind::Config);
    lemma_present_was_confirmed(s, events, BlobKind::Layer);
}

/// Ordering. A fault in either blob step ends the push: after it no
/// request is allowed, the manifest least of all, whatever comes later.
pub proof fn lemma_blob_fault_blocks_manifest(
    s: PushView,
    fault: EventView,
    later: Seq<EventView>,
)
    requires
        s.wf(),
        s.enabled(fault.answers()),
        is_blob_fault(s, fault),
    ensures
        run(s.step(fault), later).phase is Failed,
        run(s.step(fault), later) == s.step(fault),
        forall|action: Action| !run(s.step(fault), later).enabled(action),
        run(s.step(fault), later).receipt() is None,
{
    lemma_terminal_is_final(s.step(fault), later);
}

/// Integrity. When the registry reports another digest for an upload than
/// the blob's own, the push fails with a digest mismatch that names both
/// digests, and no manifest is published afterwards.
pub proof fn lemma_digest_mismatch_aborts(
    s: PushView,
    kind: BlobKind,
    reported: Seq<char>,
    later: Seq<EventView>,
)
    requires
        s.wf(),
        s.enabled(Action::UploadBlob(kind)),
        reported != s.blob(kind).digest,
    ensures
        ({
            let after = run(s.step(EventView::BlobUploaded { kind, digest: reported }), later);
            &&& after.outcome() == Some(
                Err::<ReceiptView, PushErrorView>(
                    PushErrorView::DigestMismatch {
                        blob: kind,
                        expected: s.blob(kind).digest,
                        actual: reported,
                    },
                ),
            )
            &&& !after.enabled(Action::PutManifest)
            &&& !(after.phase is ManifestPublished)
        }),
{
    lemma_terminal_is_final(s.step(EventView::BlobUploaded { kind, digest: reported }), later);
}

/// A push that has not started allows the authentication and nothing
/// else. When the registry refuses the credential, the push fails with
/// that refusal, and no request is allowed afterwards: no blob is ever
/// asked for or uploaded.
pub proof fn lemma_auth_rejection_ends_push(s: PushView, status: u16, later: Seq<EventView>)
    requires
        s.wf(),
        s.phase is Init,
    ensures
        forall|action: Action| s.enabled(action) <==> action == Action::Authenticate,
        ({
            let after = run(s.step(EventView::AuthRejected { during: Action::Authenticate, status }), later);
            &&& after.outcome() == Some(
                Err::<ReceiptView, PushErrorView>(
                    PushErrorView::Auth(AuthError::Rejected { status }),
                ),
            )
            &&& forall|action: Action| !after.enabled(action)
        }),
{
    lemma_terminal_is_final(s.step(EventView::AuthRejected { during: Action::Authenticate, status }), later);
}

/// `event` is about the blob of the given kind: it answers the check or
/// the upload of that blob.
pub open spec fn is_about(event: EventView, kind: BlobKind) -> bool {
    event.answers() == Action::CheckBlob(kind) || event.answers() == Action::UploadBlob(kind)
}

/// The two blobs do not wait for each other: a report about the config
/// and one about the layer, neither of them a fault, lead to the same
/// push in either order.
pub proof fn lemma_blob_reports_commute(s: PushView, first: EventView, second: EventView)
    requires
        s.wf(),
        is_about(first, BlobKind::Config),
        is_about(second, BlobKind::Layer),
        !is_blob_fault(s, first),
        !is_blob_fault(s, second),
    ensures
        s.step(first).step(second) == s.step(second).step(first),
{
}

/// How far a push has come: not started, confirming blobs, ready for the
/// manifest, or over.
pub open spec fn progress(s: PushView) -> nat {
    match s.phase {
        PhaseView::Init => 0,
        PhaseView::Authenticated { config, layer } => 1,
        PhaseView::BlobsVerified => 2,
        PhaseView::ManifestPublished => 3,
        PhaseView::Failed(_) => 3,
    }
}

/// Phases never go back: after more events a push has come at least as
/// far as after fewer.
pub proof fn lemma_phases_never_go_back(s: PushView, events: Seq<EventView>, k: int)
    requires
        0 <= k <= events.len(),
    ensures
        progress(run(s, events.take(k))) <= progress(run(s, events)),
    decreases events.len(),
{
    if k == events.len() {
        assert(events.take(k) =~= events);
    } else {
        assert(events.drop_last().take(k) =~= events.take(k));
        lemma_phases_never_go_back(s, events.drop_last(), k);
    }
}

/// Ordering. As long as a check or an upload of a blob is still allowed,
/// the manifest was never allowed, let alone published, at any earlier
/// moment of the push.
pub proof fn lemma_no_manifest_before_a_blob_step(
    s: PushView,
    events: Seq<EventView>,
    kind: BlobKind,
)
    requires
        run(s, events).enabled(Action::CheckBlob(kind)) || run(s, events).enabled(
            Action::UploadBlob(kind),
        ),
    ensures
        forall|k: int|
            #![trigger events.take(k)]
            0 <= k <= events.len() ==> !run(s, events.take(k)).enabled(Action::PutManifest) && !(run(
                s,
                events.take(k),
            ).phase is ManifestPublished),
{
    assert forall|k: int| #![trigger events.take(k)] 0 <= k <= events.len() implies !run(
        s,
        events.take(k),
    ).enabled(Action::PutManifest) && !(run(s, events.take(k)).phase is ManifestPublished) by {
        lemma_phases_never_go_back(s, events, k);
    }
}

} // verus!
