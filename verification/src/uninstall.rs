//! The uninstaller: look for the install record, and remove the install
//! target where there is one.
//!
//! Like the installer it is a state machine that hands out actions and takes
//! events. Where no install record is found there is nothing to do, and that
//! is a success: uninstalling twice is as good as uninstalling once.

use crate::error::{InstallError, InstallErrorView};
use crate::model::{performs, World};
use crate::protocol::{Action, ActionView, Event, EventView, TargetProbe, TargetProbeView};
use vstd::prelude::*;

verus! {

/// The action that the uninstaller waits for.
#[derive(Debug, Clone, Copy, PartialEq, Eq, Structural)]
pub enum UninstallStep {
    Probing,
    Removing,
    Finished,
}

/// What the caller is to do next.
#[derive(Debug, PartialEq, Eq)]
pub enum UninstallDirective {
    /// Carry out this action and report how it went.
    Perform(Action),
    /// Nothing more: uninstalling has ended like this.
    Finish(Result<(), InstallError>),
}

/// An `UninstallDirective` as contracts see it.
pub enum UninstallDirectiveView {
    Perform(ActionView),
    Finish(Result<(), InstallErrorView>),
}

impl View for UninstallDirective {
    type V = UninstallDirectiveView;

    open spec fn view(&self) -> UninstallDirectiveView {
        match self {
            UninstallDirective::Perform(action) => UninstallDirectiveView::Perform(action@),
            UninstallDirective::Finish(result) => UninstallDirectiveView::Finish(
                match result {
                    Ok(_) => Ok(()),
                    Err(error) => Err(error@),
                },
            ),
        }
    }
}

/// An uninstaller as contracts see it.
pub struct UninstallerView {
    /// The install target.
    pub target: Seq<u8>,
    /// The action that the uninstaller waits for.
    pub step: UninstallStep,
    /// Whether the install target has been removed.
    pub removed: bool,
    /// Whether uninstalling has failed.
    pub failed: bool,
}

impl UninstallerView {
    /// How uninstalling ends, seen from a finished uninstaller.
    pub open spec fn result(self) -> Result<(), InstallErrorView> {
        if self.failed {
            Err(InstallErrorView::UninstallFailed)
        } else {
            Ok(())
        }
    }

    /// What the caller is to do in this state.
    pub open spec fn directive(self) -> UninstallDirectiveView {
        match self.step {
            UninstallStep::Probing => UninstallDirectiveView::Perform(ActionView::ProbeTarget),
            UninstallStep::Removing => UninstallDirectiveView::Perform(ActionView::RemoveTarget),
            UninstallStep::Finished => UninstallDirectiveView::Finish(self.result()),
        }
    }

    /// The uninstaller after `event` has answered the action it waited for.
    /// An event that is no answer to that action counts as its failure.
    pub open spec fn next(self, event: EventView) -> UninstallerView {
        match self.step {
            UninstallStep::Probing => match event {
                EventView::Probed(TargetProbeView::Recorded(_)) => UninstallerView {
                    step: UninstallStep::Removing,
                    ..self
                },
                EventView::Probed(_) => UninstallerView { step: UninstallStep::Finished, ..self },
                _ => UninstallerView { step: UninstallStep::Finished, failed: true, ..self },
            },
            UninstallStep::Removing => match event {
                EventView::Done => UninstallerView {
                    step: UninstallStep::Finished,
                    removed: true,
                    ..self
                },
                _ => UninstallerView { step: UninstallStep::Finished, failed: true, ..self },
            },
            UninstallStep::Finished => self,
        }
    }
}

/// The uninstaller that uninstalling from `target` begins with.
pub open spec fn uninstall_begun(target: Seq<u8>) -> UninstallerView {
    UninstallerView { target, step: UninstallStep::Probing, removed: false, failed: false }
}

/// Whether the install target holds an install record.
pub open spec fn installed(w: World) -> bool {
    w.target is Some && w.target->0.record is Some
}

/// What holds of the uninstaller `u` and the world `w` after every step of a
/// run that began in the world `pre`.
pub open spec fn uninstall_consistent(u: UninstallerView, pre: World, w: World) -> bool {
    &&& u.step == UninstallStep::Probing ==> !u.removed && !u.failed
    &&& u.step == UninstallStep::Removing ==> !u.removed && !u.failed && installed(pre)
    &&& u.removed ==> !u.failed && installed(pre) && w == pre.without_target()
    &&& !u.removed && !u.failed ==> w == pre
    &&& u.step == UninstallStep::Finished && !u.failed && !u.removed ==> !installed(pre)
    &&& u.failed ==> u.step == UninstallStep::Finished && w.without_target()
        == pre.without_target()
}

/// A run begins consistent.
pub proof fn law_uninstall_begin_consistent(target: Seq<u8>, pre: World)
    ensures
        uninstall_consistent(uninstall_begun(target), pre, pre),
{
}

/// Every step of a run keeps it consistent.
pub proof fn law_uninstall_step_consistent(
    u: UninstallerView,
    pre: World,
    w: World,
    event: EventView,
    post: World,
)
    requires
        uninstall_consistent(u, pre, w),
        u.directive() matches UninstallDirectiveView::Perform(action) && performs(
            w,
            action,
            event,
            post,
        ),
    ensures
        uninstall_consistent(u.next(event), pre, post),
{
}

/// Uninstalling that succeeds leaves no install target where there was an
/// installation, and changes nothing where there was none. Uninstalling that
/// fails has touched nothing but the install target.
pub proof fn law_uninstall_outcome(u: UninstallerView, pre: World, w: World)
    requires
        uninstall_consistent(u, pre, w),
        u.step == UninstallStep::Finished,
    ensures
        u.result() is Ok && installed(pre) ==> w == pre.without_target(),
        u.result() is Ok && !installed(pre) ==> w == pre,
        u.result() is Err ==> u.failed && w.without_target() == pre.without_target(),
        u.result() is Ok ==> !installed(w),
{
}

/// Where there is no install record, uninstalling asks for nothing but the
/// look at the target, succeeds after it, and has changed nothing.
pub proof fn law_uninstall_idempotent(target: Seq<u8>, pre: World, event: EventView, post: World)
    requires
        !installed(pre),
        performs(pre, ActionView::ProbeTarget, event, post),
        event !is Failed,
    ensures
        uninstall_begun(target).directive() == UninstallDirectiveView::Perform(
            ActionView::ProbeTarget,
        ),
        uninstall_begun(target).next(event).directive() == UninstallDirectiveView::Finish(
            Ok::<(), InstallErrorView>(()),
        ),
        post == pre,
{
}

/// Where there is an install record, uninstalling removes the install
/// target; once that is done it has succeeded and the target is gone, so that
/// uninstalling again finds nothing to do.
pub proof fn law_uninstall_removes(
    target: Seq<u8>,
    pre: World,
    probed: EventView,
    seen: World,
    removed: EventView,
    post: World,
)
    requires
        installed(pre),
        performs(pre, ActionView::ProbeTarget, probed, seen),
        probed !is Failed,
        performs(seen, ActionView::RemoveTarget, removed, post),
        removed is Done,
    ensures
        uninstall_begun(target).next(probed).directive() == UninstallDirectiveView::Perform(
            ActionView::RemoveTarget,
        ),
        uninstall_begun(target).next(probed).next(removed).directive()
            == UninstallDirectiveView::Finish(Ok::<(), InstallErrorView>(())),
        post.target is None,
        !installed(post),
{
}

/// Uninstalling in progress.
#[derive(Debug)]
pub struct Uninstaller {
    target: Vec<u8>,
    step: UninstallStep,
    removed: bool,
    failed: bool,
}

impl View for Uninstaller {
    type V = UninstallerView;

    closed spec fn view(&self) -> UninstallerView {
        UninstallerView {
            target: self.target@,
            step: self.step,
            removed: self.removed,
            failed: self.failed,
        }
    }
}

impl Uninstaller {
    /// Begins uninstalling from `target`, and says what to do first.
    pub fn begin(target: Vec<u8>) -> (r: (Uninstaller, UninstallDirective))
        ensures
            r.0@ == uninstall_begun(target@),
            r.1@ == r.0@.directive(),
    {
        let uninstaller = Uninstaller {
            target,
            step: UninstallStep::Probing,
            removed: false,
            failed: false,
        };
        let directive = uninstaller.pending();
        (uninstaller, directive)
    }

    /// What the caller is to do in this state.
    pub fn pending(&self) -> (d: UninstallDirective)
        ensures
            d@ == self@.directive(),
    {
        match self.step {
            UninstallStep::Probing => UninstallDirective::Perform(Action::ProbeTarget),
            UninstallStep::Removing => UninstallDirective::Perform(Action::RemoveTarget),
            UninstallStep::Finished => if self.failed {
                UninstallDirective::Finish(Err(InstallError::UninstallFailed))
            } else {
                UninstallDirective::Finish(Ok(()))
            },
        }
    }

    /// The install target.
    pub fn target(&self) -> (path: &[u8])
        ensures
            path@ == self@.target,
    {
        self.target.as_slice()
    }

    /// Whether uninstalling has ended.
    pub fn is_finished(&self) -> (r: bool)
        ensures
            r == (self@.step == UninstallStep::Finished),
    {
        self.step == UninstallStep::Finished
    }

    /// Takes the event that answers the pending action, and says what to do
    /// next.
    pub fn advance(self, event: Event) -> (r: (Uninstaller, UninstallDirective))
        ensures
            r.0@ == self@.next(event@),
            r.1@ == r.0@.directive(),
    {
        let after: Uninstaller = match self.step {
            UninstallStep::Probing => match event {
                Event::Probed(TargetProbe::Recorded(_)) => Uninstaller {
                    step: UninstallStep::Removing,
                    ..self
                },
                Event::Probed(_) => Uninstaller { step: UninstallStep::Finished, ..self },
                _ => Uninstaller { step: UninstallStep::Finished, failed: true, ..self },
            },
            UninstallStep::Removing => match event {
                Event::Done => Uninstaller { step: UninstallStep::Finished, removed: true, ..self },
                _ => Uninstaller { step: UninstallStep::Finished, failed: true, ..self },
            },
            UninstallStep::Finished => self,
        };
        let directive = after.pending();
        (after, directive)
    }
}

} // verus!
