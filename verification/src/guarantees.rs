//! What installing guarantees, proved of every run of the installer against
//! the model of the platform.
//!
//! A run starts in a world `pre` with nothing beside the install target. The
//! installer hands out an action, the platform performs it and answers with an
//! event, and so on. `consistent` is what holds of the installer and the world
//! after every step of every such run; the laws below read off it what holds
//! when the installer has finished.

use crate::error::InstallErrorView;
use crate::install::{begun, recorded_version, DirectiveView, InstallRequestView, InstallerView, Step};
use crate::model::{performs, Tree, World};
use crate::protocol::{ActionView, EventView, Residue};
use crate::record::{law_record_round_trip, record_of};
use crate::release::{intact, is_latest, law_latest_exists};
use vstd::prelude::*;

verus! {

/// Whether every version that an event carries is well-formed.
pub open spec fn event_well_formed(event: EventView) -> bool {
    match event {
        EventView::Releases(list) => forall|i: int|
            0 <= i < list.len() ==> (#[trigger] list[i]).version.well_formed(),
        EventView::Located(release) => release.version.well_formed(),
        _ => true,
    }
}

/// Whether the installation is in place and recorded.
pub open spec fn committed(m: InstallerView) -> bool {
    m.failure is None && (m.step == Step::DroppingBackup || m.step == Step::Discarding || m.step
        == Step::Finished)
}

/// What the installer knows of itself, whatever the world.
pub open spec fn coherent(m: InstallerView) -> bool {
    &&& m.well_formed()
    &&& m.tool_version.well_formed()
    &&& m.release matches Some(release) ==> release.version.well_formed()
    &&& InstallerView::is_forward(m.step) ==> m.residue == Residue::Clean
    &&& m.failure is None ==> m.residue != Residue::Target
    &&& m.failure is Some ==> m.step == m.rollback_step()
    &&& m.step == Step::Resolving || m.step == Step::Probing || m.step == Step::Fetching ==> !m.download
        && !m.staging && !m.backup && !m.placed
    &&& m.step == Step::Staging ==> !m.staging && !m.backup && !m.placed
    &&& m.step == Step::MovingAside ==> !m.backup && !m.placed
    &&& m.step == Step::Swapping ==> !m.placed
    &&& m.step == Step::Recording ==> m.placed && !m.staging
    &&& committed(m) ==> m.placed && !m.staging
    &&& m.failure is None && (m.step == Step::Discarding || m.step == Step::Finished) ==> !m.backup
    &&& m.failure is None && m.step == Step::Finished ==> !m.download
}

/// What holds of the installer `m` and the world `w` after every step of a
/// run that began in the world `pre`.
pub open spec fn consistent(m: InstallerView, pre: World, w: World) -> bool {
    &&& coherent(m)
    &&& pre.scratch_free()
    &&& m.residue == Residue::Clean ==> {
        &&& !m.download ==> w.download is None
        &&& !m.staging ==> w.staging is None
        &&& !m.backup ==> w.backup is None
    }
    &&& m.residue != Residue::Target ==> {
        &&& m.backup ==> w.backup == pre.target
        &&& m.placed && !m.backup && !committed(m) ==> pre.target is None
        &&& if m.placed {
            w.target is Some && w.fetched == Some(w.target->0.payload)
        } else if m.backup {
            w.target is None
        } else {
            w.target == pre.target
        }
    }
    &&& m.step == Step::Staging ==> w.download is Some && w.download == w.fetched
    &&& m.step == Step::MovingAside || m.step == Step::Swapping ==> w.fetched is Some && w.staging
        == Some(Tree { payload: w.fetched->0, record: None })
    &&& m.step == Step::Recording ==> w.target->0.record is None
    &&& committed(m) ==> w.target->0.record == Some(m.record().text())
}

/// A run begins consistent.
pub proof fn law_begin_consistent(request: InstallRequestView, pre: World)
    requires
        request.tool_version.well_formed(),
        pre.scratch_free(),
    ensures
        consistent(begun(request), pre, pre),
{
}

/// Every step of a run keeps it consistent: whatever action the installer
/// asks for, and however the platform answers within the model.
pub proof fn law_step_consistent(
    m: InstallerView,
    pre: World,
    w: World,
    event: EventView,
    post: World,
)
    requires
        consistent(m, pre, w),
        event_well_formed(event),
        m.directive() matches DirectiveView::Perform(action) && performs(w, action, event, post),
    ensures
        consistent(m.next(event), pre, post),
{
    let after = m.next(event);
    match m.step {
        Step::Resolving => {
            if let EventView::Releases(list) = event {
                if list.len() > 0 {
                    law_latest_exists(list);
                }
            }
        },
        _ => {},
    }
}

/// An installation that succeeds leaves the install target with what was
/// fetched and with a record that reads back as the record handed out; the
/// record names the version of the resolved release.
pub proof fn law_success_is_complete(m: InstallerView, pre: World, w: World)
    requires
        consistent(m, pre, w),
        m.step == Step::Finished,
        m.failure is None,
    ensures
        m.outcome().result == Ok::<_, InstallErrorView>(m.record()),
        m.record().version == m.release->0.version,
        w.fetched is Some,
        w.target is Some,
        w.target->0.payload == w.fetched->0,
        w.target->0.record is Some,
        record_of(w.target->0.record->0) == Some(m.record()),
        w.staging is None || m.residue != Residue::Clean,
        m.residue == Residue::Clean ==> w.scratch_free(),
{
    law_record_round_trip(m.record(), Seq::empty());
}

/// An installation that fails, and that could put the install target back,
/// leaves the install target as it was before. Where cleaning up succeeded
/// throughout, every place on disk is as it was before.
pub proof fn law_failure_restores(m: InstallerView, pre: World, w: World)
    requires
        consistent(m, pre, w),
        m.step == Step::Finished,
        m.failure is Some,
    ensures
        m.outcome().result == Err::<crate::record::InstallRecordView, _>(m.failure->0),
        m.residue != Residue::Target ==> w.target == pre.target,
        m.residue == Residue::Clean ==> w.same_places(pre),
{
}

/// While nothing has been moved into or out of the install target, the
/// install target is as it was before, whatever else has failed: a step that
/// fails before the swap cannot harm it.
pub proof fn law_target_untouched_before_swap(m: InstallerView, pre: World, w: World)
    requires
        consistent(m, pre, w),
        m.residue != Residue::Target,
        !m.placed,
        !m.backup,
    ensures
        w.target == pre.target,
{
}

/// Whether the installation has failed without anything having been moved
/// into or out of the install target, and without a failed attempt to put the
/// install target back.
pub open spec fn failed_harmlessly(m: InstallerView) -> bool {
    m.failure is Some && !m.placed && !m.backup && m.residue != Residue::Target
}

/// A failure of staging, or of the swap where nothing had to be moved aside,
/// is `PlacementFailed` and harmless.
pub proof fn law_placing_failure_is_harmless(m: InstallerView, event: EventView)
    requires
        coherent(m),
        m.step == Step::Staging || (m.step == Step::Swapping && !m.backup),
        event !is Done,
    ensures
        m.next(event).failure == Some(InstallErrorView::PlacementFailed),
        failed_harmlessly(m.next(event)),
{
}

/// Undoing a harmless failure stays harmless, whatever the platform answers:
/// so the installer finishes with the install target as it was before.
pub proof fn law_harmless_failure_stays_harmless(m: InstallerView, event: EventView)
    requires
        coherent(m),
        failed_harmlessly(m),
    ensures
        failed_harmlessly(m.next(event)),
        m.next(event).failure == m.failure,
{
}

/// After an installation that succeeded, the install target holds an install
/// record: uninstalling will find it.
pub proof fn law_success_is_installed(m: InstallerView, pre: World, w: World)
    requires
        consistent(m, pre, w),
        m.step == Step::Finished,
        m.failure is None,
    ensures
        crate::uninstall::installed(w),
{
}

/// At every moment of a run the install target is as it was before, or
/// absent, or holds all of what was fetched: never a part of it. This is what
/// an interruption at any moment finds.
pub proof fn law_target_never_partial(m: InstallerView, pre: World, w: World)
    requires
        consistent(m, pre, w),
        m.residue != Residue::Target,
    ensures
        w.target == pre.target || w.target is None || (w.fetched is Some && w.target->0.payload
            == w.fetched->0),
{
}

/// Where the install target holds an install record and the caller did not
/// ask to replace it, the look at the target ends the installation with
/// `AlreadyInstalled`, naming the recorded version, and no place on disk has
/// changed.
pub proof fn law_existing_installation_refused(
    m: InstallerView,
    pre: World,
    w: World,
    event: EventView,
    post: World,
)
    requires
        consistent(m, pre, w),
        m.step == Step::Probing,
        !m.reinstall,
        pre.target is Some,
        pre.target->0.record is Some,
        performs(w, ActionView::ProbeTarget, event, post),
        event !is Failed,
    ensures
        m.next(event).step == Step::Finished,
        m.next(event).outcome().result == Err::<crate::record::InstallRecordView, _>(
            InstallErrorView::AlreadyInstalled {
                existing: recorded_version(pre.target->0.record->0),
            },
        ),
        m.next(event).residue == Residue::Clean,
        post.same_places(pre),
{
}

/// A transfer that does not match what the release announced fails the
/// installation with `IntegrityMismatch`; the next thing the installer asks
/// for is to discard what arrived, and after that it has finished.
pub proof fn law_mismatch_discarded(
    m: InstallerView,
    received: crate::release::ReceivedView,
    answer: EventView,
)
    requires
        coherent(m),
        m.step == Step::Fetching,
        !intact(m.release->0.integrity, received),
    ensures
        m.next(EventView::Fetched(received)).failure == Some(InstallErrorView::IntegrityMismatch),
        m.next(EventView::Fetched(received)).directive() == DirectiveView::Perform(
            ActionView::Discard,
        ),
        m.next(EventView::Fetched(received)).next(answer).step == Step::Finished,
        answer is Done ==> m.next(EventView::Fetched(received)).next(answer).residue
            == Residue::Clean,
{
}

/// While the installer holds no scratch data and cleaning up has not failed,
/// nothing lies beside the install target: an interruption then leaves
/// nothing behind.
pub proof fn law_no_leak_without_scratch(m: InstallerView, pre: World, w: World)
    requires
        consistent(m, pre, w),
        m.residue == Residue::Clean,
        !m.may_leak(),
    ensures
        w.scratch_free(),
{
}

/// The release that the installer settles on: for a concrete version, the
/// release that the provider has for it; else the newest of what the provider
/// has published.
pub proof fn law_resolution(m: InstallerView, event: EventView)
    requires
        coherent(m),
        m.step == Step::Resolving,
        m.next(event).failure is None,
    ensures
        m.next(event).step == Step::Probing,
        m.wanted matches Some(v) ==> event is Located && m.next(event).release == Some(
            event->Located_0,
        ) && event->Located_0.version == v,
        m.wanted is None ==> event is Releases && is_latest(
            event->Releases_0,
            crate::install::latest_of(event->Releases_0),
        ) && m.next(event).release == Some(
            event->Releases_0[crate::install::latest_of(event->Releases_0)],
        ),
{
    if m.wanted is None {
        if let EventView::Releases(list) = event {
            if list.len() > 0 {
                law_latest_exists(list);
            }
        }
    }
}

/// The installer after it has taken `events`, one after the other.
pub open spec fn after(m: InstallerView, events: Seq<EventView>) -> InstallerView
    decreases events.len(),
{
    if events.len() == 0 {
        m
    } else {
        after(m.next(events[0]), events.drop_first())
    }
}

/// Whether the platform can have answered the action that `m` asks for in the
/// world `w` with `event`, leaving the world `post`.
pub open spec fn answered(m: InstallerView, w: World, event: EventView, post: World) -> bool {
    &&& event_well_formed(event)
    &&& m.directive() matches DirectiveView::Perform(action) && performs(w, action, event, post)
}

/// Whether `events` and `worlds` are a run of the installer `m` from the
/// world `w`: each event answers the action that the installer asks for at
/// that point, and each world is what that action leaves.
pub open spec fn is_run(m: InstallerView, w: World, events: Seq<EventView>, worlds: Seq<World>) -> bool
    decreases events.len(),
{
    if events.len() == 0 {
        worlds.len() == 0
    } else {
        &&& worlds.len() == events.len()
        &&& answered(m, w, events[0], worlds[0])
        &&& is_run(m.next(events[0]), worlds[0], events.drop_first(), worlds.drop_first())
    }
}

/// The world at the end of a run.
pub open spec fn last_world(w: World, worlds: Seq<World>) -> World {
    if worlds.len() == 0 {
        w
    } else {
        worlds.last()
    }
}

/// Every run keeps the installer and the world consistent.
pub proof fn law_run_consistent(
    m: InstallerView,
    pre: World,
    w: World,
    events: Seq<EventView>,
    worlds: Seq<World>,
)
    requires
        consistent(m, pre, w),
        is_run(m, w, events, worlds),
    ensures
        consistent(after(m, events), pre, last_world(w, worlds)),
    decreases events.len(),
{
    if events.len() > 0 {
        law_step_consistent(m, pre, w, events[0], worlds[0]);
        law_run_consistent(
            m.next(events[0]),
            pre,
            worlds[0],
            events.drop_first(),
            worlds.drop_first(),
        );
        if worlds.len() > 1 {
            assert(worlds.drop_first().last() == worlds.last());
        }
    }
}

/// A harmless failure stays harmless to the end of every run: where staging
/// or the swap has failed, the install target is as it was before when the
/// installer has finished, whatever else fails while it cleans up.
pub proof fn law_harmless_to_the_end(
    m: InstallerView,
    pre: World,
    w: World,
    events: Seq<EventView>,
    worlds: Seq<World>,
)
    requires
        consistent(m, pre, w),
        failed_harmlessly(m),
        is_run(m, w, events, worlds),
    ensures
        failed_harmlessly(after(m, events)),
        after(m, events).failure == m.failure,
        last_world(w, worlds).target == pre.target,
    decreases events.len(),
{
    if events.len() > 0 {
        law_step_consistent(m, pre, w, events[0], worlds[0]);
        law_harmless_failure_stays_harmless(m, events[0]);
        law_harmless_to_the_end(
            m.next(events[0]),
            pre,
            worlds[0],
            events.drop_first(),
            worlds.drop_first(),
        );
        if worlds.len() > 1 {
            assert(worlds.drop_first().last() == worlds.last());
        }
    }
}

/// The model lets an installation succeed: for every request for the newest
/// release, every release and every artifact there is a run from the empty
/// world in which each action is carried out, and at its end the installer
/// has finished without a failure and with nothing left behind.
pub proof fn law_success_is_possible(
    request: InstallRequestView,
    release: crate::release::ReleaseView,
    artifact: Seq<u8>,
)
    requires
        request.tool_version.well_formed(),
        release.version.well_formed(),
        request.version_hint is None,
        release.integrity.size is None,
        release.integrity.checksum is None,
    ensures
        exists|events: Seq<EventView>, worlds: Seq<World>|
            {
                &&& #[trigger] is_run(
                    begun(request),
                    World { target: None, staging: None, backup: None, download: None, fetched: None },
                    events,
                    worlds,
                )
                &&& after(begun(request), events).step == Step::Finished
                &&& after(begun(request), events).failure is None
                &&& after(begun(request), events).residue == Residue::Clean
                &&& after(begun(request), events).release == Some(release)
                &&& last_world(
                    World { target: None, staging: None, backup: None, download: None, fetched: None },
                    worlds,
                ).target == Some(
                    Tree {
                        payload: artifact,
                        record: Some(after(begun(request), events).record().text()),
                    },
                )
            },
{
    let w0 = World { target: None, staging: None, backup: None, download: None, fetched: None };
    let m0 = begun(request);
    let list = seq![release];
    crate::precedence::law_precedence_reflexive(release.version);
    assert(is_latest(list, 0));
    crate::release::law_latest_unique(list, 0, crate::install::latest_of(list));
    let e1 = EventView::Releases(list);
    let m1 = m0.next(e1);
    let e2 = EventView::Probed(crate::protocol::TargetProbeView::Absent);
    let m2 = m1.next(e2);
    let e3 = EventView::Fetched(
        crate::release::ReceivedView { size: artifact.len(), checksum: Seq::empty() },
    );
    let w3 = World { download: Some(artifact), fetched: Some(artifact), ..w0 };
    let m3 = m2.next(e3);
    let e = EventView::Done;
    let w4 = World { staging: Some(Tree { payload: artifact, record: None }), ..w3 };
    let m4 = m3.next(e);
    let w5 = World { target: w4.staging, staging: None, ..w4 };
    let m5 = m4.next(e);
    let w6 = World {
        target: Some(Tree { payload: artifact, record: Some(m5.record().text()) }),
        ..w5
    };
    let m6 = m5.next(e);
    let w7 = World { download: None, ..w6 };
    let m7 = m6.next(e);
    let events = seq![e1, e2, e3, e, e, e, e];
    let worlds = seq![w0, w0, w3, w4, w5, w6, w7];
    assert(m1.step == Step::Probing && m1.release == Some(release));
    assert(m2.step == Step::Fetching);
    assert(m3.step == Step::Staging);
    assert(m4.step == Step::Swapping);
    assert(m5.step == Step::Recording);
    assert(m6.step == Step::Discarding);
    assert(m7.step == Step::Finished);
    let ev1 = events.drop_first();
    let ev2 = ev1.drop_first();
    let ev3 = ev2.drop_first();
    let ev4 = ev3.drop_first();
    let ev5 = ev4.drop_first();
    let ev6 = ev5.drop_first();
    let ev7 = ev6.drop_first();
    let wo1 = worlds.drop_first();
    let wo2 = wo1.drop_first();
    let wo3 = wo2.drop_first();
    let wo4 = wo3.drop_first();
    let wo5 = wo4.drop_first();
    let wo6 = wo5.drop_first();
    let wo7 = wo6.drop_first();
    assert(is_run(m7, w7, ev7, wo7));
    assert(after(m7, ev7) == m7);
    assert(answered(m6, w6, e, w7));
    assert(is_run(m6, w6, ev6, wo6));
    assert(after(m6, ev6) == m7);
    assert(answered(m5, w5, e, w6));
    assert(is_run(m5, w5, ev5, wo5));
    assert(after(m5, ev5) == m7);
    assert(answered(m4, w4, e, w5));
    assert(is_run(m4, w4, ev4, wo4));
    assert(after(m4, ev4) == m7);
    assert(answered(m3, w3, e, w4));
    assert(is_run(m3, w3, ev3, wo3));
    assert(after(m3, ev3) == m7);
    assert(answered(m2, w0, e3, w3));
    assert(is_run(m2, w0, ev2, wo2));
    assert(after(m2, ev2) == m7);
    assert(answered(m1, w0, e2, w0));
    assert(is_run(m1, w0, ev1, wo1));
    assert(after(m1, ev1) == m7);
    assert(answered(m0, w0, e1, w0));
    assert(is_run(m0, w0, events, worlds));
    assert(after(m0, events) == m7);
    assert(last_world(w0, worlds) == w7);
}

/// All or nothing. Take any request and any world with nothing beside the
/// install target, and any run of the installer from there to its end,
/// whatever failed on the way. If the installation succeeded, the install
/// target holds all of what was fetched and a record that reads back as the
/// record handed out. If it failed, the install target is as it was before,
/// unless the installer reports that it could not put it back; and every
/// place on disk is as it was before, unless the installer reports that
/// cleaning up failed.
pub proof fn law_all_or_nothing(
    request: InstallRequestView,
    pre: World,
    events: Seq<EventView>,
    worlds: Seq<World>,
)
    requires
        request.tool_version.well_formed(),
        pre.scratch_free(),
        is_run(begun(request), pre, events, worlds),
        after(begun(request), events).step == Step::Finished,
    ensures
        ({
            let end = after(begun(request), events);
            let w = last_world(pre, worlds);
            match end.outcome().result {
                Ok(record) => {
                    &&& record == end.record()
                    &&& w.target is Some
                    &&& w.fetched == Some(w.target->0.payload)
                    &&& w.target->0.record is Some
                    &&& record_of(w.target->0.record->0) == Some(record)
                    &&& end.residue != Residue::Target
                    &&& end.residue == Residue::Clean ==> w.scratch_free()
                },
                Err(error) => {
                    &&& end.failure == Some(error)
                    &&& end.residue != Residue::Target ==> w.target == pre.target
                    &&& end.residue == Residue::Clean ==> w.same_places(pre)
                },
            }
        }),
{
    let end = after(begun(request), events);
    let w = last_world(pre, worlds);
    law_begin_consistent(request, pre);
    law_run_consistent(begun(request), pre, pre, events, worlds);
    if end.failure is None {
        law_success_is_complete(end, pre, w);
    } else {
        law_failure_restores(end, pre, w);
    }
}

} // verus!
