//! The installer: resolve a release, fetch it, place it, record it, and undo
//! everything when a step fails.
//!
//! The installer is a state machine. `Installer::begin` takes the request and
//! says what to do first; `Installer::advance` takes the event that tells how
//! the last action went and says what to do next, until it says `Finish`.
//! The caller carries out the actions. What the actions do to the file system
//! is modelled in `crate::model`, and the guarantees of the whole are proved
//! in `crate::guarantees`.

use crate::bytes::copy_of;
use crate::error::{InstallError, InstallErrorView};
use crate::protocol::{
    graver, worse, Action, ActionView, Event, EventView, Residue, TargetProbe, TargetProbeView,
};
use crate::record::{record_of, InstallRecord, InstallRecordView};
use crate::release::{
    check_transfer, is_latest, latest_index, law_latest_unique, release_views, transfer_verdict,
    Received, ReceivedView, Release, ReleaseView,
};
use crate::version::{
    parse, request_of, Version, VersionRequest, VersionRequestView, VersionView,
};
use vstd::pervasive::unreached;
use vstd::prelude::*;

verus! {

/// The stages of an installation. A request that has not begun is idle; it
/// has no installer yet.
#[derive(Debug, Clone, Copy, PartialEq, Eq, Structural)]
pub enum Phase {
    /// Finding out which release to install, and whether it may be installed.
    Resolving,
    /// Transferring the artifact.
    Fetching,
    /// Staging the artifact, moving it into place and writing the record.
    Placing,
    /// The installation is in place and recorded.
    Committed,
    /// A step failed; what was done is being, or has been, undone.
    RolledBack,
}

/// The action that the installer waits for.
#[derive(Debug, Clone, Copy, PartialEq, Eq, Structural)]
pub enum Step {
    Resolving,
    Probing,
    Fetching,
    Staging,
    MovingAside,
    Swapping,
    Recording,
    DroppingBackup,
    RemovingTarget,
    Restoring,
    RemovingStaging,
    Discarding,
    Finished,
}

/// What the caller asks for.
#[derive(Debug, PartialEq, Eq)]
pub struct InstallRequest {
    /// The install target.
    pub target: Vec<u8>,
    /// The version to install, as the caller wrote it; `None` and `latest`
    /// ask for the newest release.
    pub version_hint: Option<Vec<u8>>,
    /// The version of the tool that installs.
    pub tool_version: Version,
    /// Whether an installation that is already there may be replaced.
    pub reinstall: bool,
}

/// An `InstallRequest` as contracts see it.
pub struct InstallRequestView {
    pub target: Seq<u8>,
    pub version_hint: Option<Seq<u8>>,
    pub tool_version: VersionView,
    pub reinstall: bool,
}

impl View for InstallRequest {
    type V = InstallRequestView;

    open spec fn view(&self) -> InstallRequestView {
        InstallRequestView {
            target: self.target@,
            version_hint: match self.version_hint {
                Some(text) => Some(text@),
                None => None,
            },
            tool_version: self.tool_version@,
            reinstall: self.reinstall,
        }
    }
}

/// How an installation ended.
#[derive(Debug, PartialEq, Eq)]
pub struct Outcome {
    /// The record of what was installed, or why nothing was.
    pub result: Result<InstallRecord, InstallError>,
    /// What cleaning up left behind.
    pub residue: Residue,
}

/// An `Outcome` as contracts see it.
pub struct OutcomeView {
    pub result: Result<InstallRecordView, InstallErrorView>,
    pub residue: Residue,
}

impl View for Outcome {
    type V = OutcomeView;

    open spec fn view(&self) -> OutcomeView {
        OutcomeView {
            result: match self.result {
                Ok(record) => Ok(record@),
                Err(error) => Err(error@),
            },
            residue: self.residue,
        }
    }
}

/// What the caller is to do next.
#[derive(Debug, PartialEq, Eq)]
pub enum Directive {
    /// Carry out this action and report how it went.
    Perform(Action),
    /// Nothing more: the installation has ended like this.
    Finish(Outcome),
}

/// A `Directive` as contracts see it.
pub enum DirectiveView {
    Perform(ActionView),
    Finish(OutcomeView),
}

impl View for Directive {
    type V = DirectiveView;

    open spec fn view(&self) -> DirectiveView {
        match self {
            Directive::Perform(action) => DirectiveView::Perform(action@),
            Directive::Finish(outcome) => DirectiveView::Finish(outcome@),
        }
    }
}

/// The newest release of a list.
pub open spec fn latest_of(list: Seq<ReleaseView>) -> int {
    choose|k: int| is_latest(list, k)
}

/// What an event says a transfer delivered; `None` for every event that does
/// not report the end of a transfer.
pub open spec fn delivered(event: EventView) -> Option<ReceivedView> {
    match event {
        EventView::Fetched(received) => Some(received),
        _ => None,
    }
}

/// The version that an install record names, where the bytes hold a record.
pub open spec fn recorded_version(bytes: Seq<u8>) -> Option<VersionView> {
    match record_of(bytes) {
        Some(record) => Some(record.version),
        None => None,
    }
}

/// An installer as contracts see it.
pub struct InstallerView {
    /// The install target.
    pub target: Seq<u8>,
    /// The version of the tool that installs.
    pub tool_version: VersionView,
    /// Whether an installation that is already there may be replaced.
    pub reinstall: bool,
    /// The action that the installer waits for.
    pub step: Step,
    /// The version that the caller asked for, unless it was the newest.
    pub wanted: Option<VersionView>,
    /// The release to install, once it is resolved.
    pub release: Option<ReleaseView>,
    /// Whether the install target was occupied when the installer looked.
    pub replacing: bool,
    /// Whether the scratch place may hold a transferred artifact.
    pub download: bool,
    /// Whether the staging directory may exist.
    pub staging: bool,
    /// Whether the previous content of the install target is moved aside.
    pub backup: bool,
    /// Whether the install target holds what this installer placed.
    pub placed: bool,
    /// Why the installation failed, once it has.
    pub failure: Option<InstallErrorView>,
    /// What cleaning up has left behind so far.
    pub residue: Residue,
}

impl InstallerView {
    /// Whether `step` belongs to the way forward only.
    pub open spec fn is_forward(step: Step) -> bool {
        match step {
            Step::Resolving
            | Step::Probing
            | Step::Fetching
            | Step::Staging
            | Step::MovingAside
            | Step::Swapping
            | Step::Recording
            | Step::DroppingBackup => true,
            _ => false,
        }
    }

    /// Whether `step` undoes something that only a failed installation undoes.
    pub open spec fn is_backward(step: Step) -> bool {
        match step {
            Step::RemovingTarget | Step::Restoring | Step::RemovingStaging => true,
            _ => false,
        }
    }

    /// What holds of every installer: it goes forward only while nothing has
    /// failed and backward only after something has, and past resolving it
    /// knows its release.
    pub open spec fn well_formed(self) -> bool {
        &&& Self::is_forward(self.step) ==> self.failure is None
        &&& Self::is_backward(self.step) ==> self.failure is Some
        &&& self.failure is None && self.step != Step::Resolving ==> self.release is Some
    }

    /// The record of the installation.
    pub open spec fn record(self) -> InstallRecordView {
        InstallRecordView { version: self.release->0.version, tool_version: self.tool_version }
    }

    /// How the installation ends, seen from a finished installer.
    pub open spec fn outcome(self) -> OutcomeView {
        OutcomeView {
            result: match self.failure {
                Some(error) => Err(error),
                None => Ok(self.record()),
            },
            residue: self.residue,
        }
    }

    /// What the caller is to do in this state.
    pub open spec fn directive(self) -> DirectiveView {
        match self.step {
            Step::Resolving => match self.wanted {
                Some(v) => DirectiveView::Perform(ActionView::LocateRelease(v)),
                None => DirectiveView::Perform(ActionView::ListReleases),
            },
            Step::Probing => DirectiveView::Perform(ActionView::ProbeTarget),
            Step::Fetching => DirectiveView::Perform(ActionView::Fetch(self.release->0.location)),
            Step::Staging => DirectiveView::Perform(ActionView::Stage),
            Step::MovingAside => DirectiveView::Perform(ActionView::MoveAside),
            Step::Swapping => DirectiveView::Perform(ActionView::Swap),
            Step::Recording => DirectiveView::Perform(
                ActionView::WriteRecord(self.record().text()),
            ),
            Step::DroppingBackup => DirectiveView::Perform(ActionView::DropBackup),
            Step::RemovingTarget => DirectiveView::Perform(ActionView::RemoveTarget),
            Step::Restoring => DirectiveView::Perform(ActionView::Restore),
            Step::RemovingStaging => DirectiveView::Perform(ActionView::RemoveStaging),
            Step::Discarding => DirectiveView::Perform(ActionView::Discard),
            Step::Finished => DirectiveView::Finish(self.outcome()),
        }
    }

    /// The stage that the installer is in.
    pub open spec fn phase(self) -> Phase {
        match self.step {
            Step::Resolving | Step::Probing => Phase::Resolving,
            Step::Fetching => Phase::Fetching,
            Step::Staging | Step::MovingAside | Step::Swapping | Step::Recording => Phase::Placing,
            Step::DroppingBackup => Phase::Committed,
            Step::RemovingTarget | Step::Restoring | Step::RemovingStaging => Phase::RolledBack,
            Step::Discarding | Step::Finished => if self.failure is None {
                Phase::Committed
            } else {
                Phase::RolledBack
            },
        }
    }

    /// Whether scratch data may lie beside the install target.
    pub open spec fn may_leak(self) -> bool {
        self.download || self.staging || self.backup
    }

    /// What is to be undone next: first what was placed, then what was moved
    /// aside, then the staging directory, then the transferred artifact.
    pub open spec fn rollback_step(self) -> Step {
        if self.placed {
            Step::RemovingTarget
        } else if self.backup {
            Step::Restoring
        } else if self.staging {
            Step::RemovingStaging
        } else if self.download {
            Step::Discarding
        } else {
            Step::Finished
        }
    }

    /// The installer after a step has failed with `error`: it turns to
    /// undoing.
    pub open spec fn fail(self, error: InstallErrorView) -> InstallerView {
        InstallerView { failure: Some(error), step: self.rollback_step(), ..self }
    }

    /// The installer after one thing has been undone, or could not be.
    pub open spec fn undone(self, event: EventView, gravity: Residue) -> InstallerView {
        let residue = if event is Done {
            self.residue
        } else {
            worse(self.residue, gravity)
        };
        InstallerView { residue, step: self.rollback_step(), ..self }
    }

    /// The installer after `event` has answered the action it waited for. An
    /// event that is no answer to that action counts as its failure.
    pub open spec fn next(self, event: EventView) -> InstallerView {
        match self.step {
            Step::Resolving => match (self.wanted, event) {
                (None, EventView::Releases(list)) => if list.len() == 0 {
                    self.fail(InstallErrorView::NoReleasesFound)
                } else {
                    InstallerView { release: Some(list[latest_of(list)]), step: Step::Probing, ..self }
                },
                (Some(v), EventView::Located(release)) => if release.version == v {
                    InstallerView { release: Some(release), step: Step::Probing, ..self }
                } else {
                    self.fail(InstallErrorView::ProviderUnavailable)
                },
                _ => self.fail(InstallErrorView::ProviderUnavailable),
            },
            Step::Probing => match event {
                EventView::Probed(TargetProbeView::Absent) => InstallerView {
                    replacing: false,
                    step: Step::Fetching,
                    ..self
                },
                EventView::Probed(TargetProbeView::Unrecorded) => if self.reinstall {
                    InstallerView { replacing: true, step: Step::Fetching, ..self }
                } else {
                    self.fail(InstallErrorView::PlacementFailed)
                },
                EventView::Probed(TargetProbeView::Recorded(bytes)) => if self.reinstall {
                    InstallerView { replacing: true, step: Step::Fetching, ..self }
                } else {
                    self.fail(
                        InstallErrorView::AlreadyInstalled { existing: recorded_version(bytes) },
                    )
                },
                _ => self.fail(InstallErrorView::PlacementFailed),
            },
            Step::Fetching => match transfer_verdict(
                self.release->0.integrity,
                delivered(event),
            ) {
                Ok(_) => InstallerView { download: true, step: Step::Staging, ..self },
                Err(error) => (InstallerView { download: true, ..self }).fail(error),
            },
            Step::Staging => match event {
                EventView::Done => InstallerView {
                    staging: true,
                    step: if self.replacing {
                        Step::MovingAside
                    } else {
                        Step::Swapping
                    },
                    ..self
                },
                _ => (InstallerView { staging: true, ..self }).fail(
                    InstallErrorView::PlacementFailed,
                ),
            },
            Step::MovingAside => match event {
                EventView::Done => InstallerView { backup: true, step: Step::Swapping, ..self },
                _ => self.fail(InstallErrorView::PlacementFailed),
            },
            Step::Swapping => match event {
                EventView::Done => InstallerView {
                    placed: true,
                    staging: false,
                    step: Step::Recording,
                    ..self
                },
                _ => self.fail(InstallErrorView::PlacementFailed),
            },
            Step::Recording => match event {
                EventView::Done => InstallerView {
                    step: if self.backup {
                        Step::DroppingBackup
                    } else {
                        Step::Discarding
                    },
                    ..self
                },
                _ => self.fail(InstallErrorView::PlacementFailed),
            },
            Step::DroppingBackup => InstallerView {
                backup: false,
                residue: if event is Done {
                    self.residue
                } else {
                    worse(self.residue, Residue::Scratch)
                },
                step: Step::Discarding,
                ..self
            },
            Step::RemovingTarget => (InstallerView { placed: false, ..self }).undone(
                event,
                Residue::Target,
            ),
            Step::Restoring => (InstallerView { backup: false, ..self }).undone(
                event,
                Residue::Target,
            ),
            Step::RemovingStaging => (InstallerView { staging: false, ..self }).undone(
                event,
                Residue::Scratch,
            ),
            Step::Discarding => if self.failure is None {
                InstallerView {
                    download: false,
                    residue: if event is Done {
                        self.residue
                    } else {
                        worse(self.residue, Residue::Scratch)
                    },
                    step: Step::Finished,
                    ..self
                }
            } else {
                (InstallerView { download: false, ..self }).undone(event, Residue::Scratch)
            },
            Step::Finished => self,
        }
    }
}

/// The installer that a request begins with. A version hint that is no
/// version ends the installation at once.
pub open spec fn begun(request: InstallRequestView) -> InstallerView {
    let fresh = InstallerView {
        target: request.target,
        tool_version: request.tool_version,
        reinstall: request.reinstall,
        step: Step::Resolving,
        wanted: None,
        release: None,
        replacing: false,
        download: false,
        staging: false,
        backup: false,
        placed: false,
        failure: None,
        residue: Residue::Clean,
    };
    match request.version_hint {
        None => fresh,
        Some(text) => match request_of(text) {
            Some(VersionRequestView::Latest) => fresh,
            Some(VersionRequestView::Exact(v)) => InstallerView { wanted: Some(v), ..fresh },
            None => fresh.fail(InstallErrorView::InvalidVersionFormat),
        },
    }
}

/// Every step keeps an installer well-formed.
pub proof fn law_step_keeps_well_formed(m: InstallerView, event: EventView)
    requires
        m.well_formed(),
    ensures
        m.next(event).well_formed(),
{
}

/// An installation in progress.
#[derive(Debug)]
pub struct Installer {
    target: Vec<u8>,
    tool_version: Version,
    reinstall: bool,
    step: Step,
    wanted: Option<Version>,
    release: Option<Release>,
    replacing: bool,
    download: bool,
    staging: bool,
    backup: bool,
    placed: bool,
    failure: Option<InstallError>,
    residue: Residue,
}

impl View for Installer {
    type V = InstallerView;

    closed spec fn view(&self) -> InstallerView {
        InstallerView {
            target: self.target@,
            tool_version: self.tool_version@,
            reinstall: self.reinstall,
            step: self.step,
            wanted: match self.wanted {
                Some(v) => Some(v@),
                None => None,
            },
            release: match self.release {
                Some(r) => Some(r@),
                None => None,
            },
            replacing: self.replacing,
            download: self.download,
            staging: self.staging,
            backup: self.backup,
            placed: self.placed,
            failure: match self.failure {
                Some(e) => Some(e@),
                None => None,
            },
            residue: self.residue,
        }
    }
}

impl Installer {
    /// What holds of every installer that a program can hold.
    #[verifier::type_invariant]
    pub open spec fn valid(&self) -> bool {
        self@.well_formed()
    }

    /// Begins an installation: reads the version hint and says what to do
    /// first.
    pub fn begin(request: InstallRequest) -> (r: (Installer, Directive))
        ensures
            r.0@ == begun(request@),
            r.1@ == r.0@.directive(),
    {
        let InstallRequest { target, version_hint, tool_version, reinstall } = request;
        let mut wanted: Option<Version> = None;
        let mut failure: Option<InstallError> = None;
        let mut step: Step = Step::Resolving;
        match version_hint {
            None => {},
            Some(text) => match parse(text.as_slice()) {
                Ok(VersionRequest::Latest) => {},
                Ok(VersionRequest::Exact(v)) => {
                    wanted = Some(v);
                },
                Err(e) => {
                    failure = Some(e);
                    step = Step::Finished;
                },
            },
        }
        let installer = Installer {
            target,
            tool_version,
            reinstall,
            step,
            wanted,
            release: None,
            replacing: false,
            download: false,
            staging: false,
            backup: false,
            placed: false,
            failure,
            residue: Residue::Clean,
        };
        let directive = installer.pending();
        (installer, directive)
    }

    /// What the caller is to do in this state.
    pub fn pending(&self) -> (d: Directive)
        ensures
            d@ == self@.directive(),
    {
        proof {
            use_type_invariant(self);
        }
        match self.step {
            Step::Resolving => match &self.wanted {
                Some(v) => Directive::Perform(Action::LocateRelease(v.duplicate())),
                None => Directive::Perform(Action::ListReleases),
            },
            Step::Probing => Directive::Perform(Action::ProbeTarget),
            Step::Fetching => match &self.release {
                Some(release) => Directive::Perform(
                    Action::Fetch(copy_of(release.location.as_slice())),
                ),
                None => unreached(),
            },
            Step::Staging => Directive::Perform(Action::Stage),
            Step::MovingAside => Directive::Perform(Action::MoveAside),
            Step::Swapping => Directive::Perform(Action::Swap),
            Step::Recording => match &self.release {
                Some(release) => {
                    let record = InstallRecord {
                        version: release.version.duplicate(),
                        tool_version: self.tool_version.duplicate(),
                    };
                    Directive::Perform(Action::WriteRecord(record.encode()))
                },
                None => unreached(),
            },
            Step::DroppingBackup => Directive::Perform(Action::DropBackup),
            Step::RemovingTarget => Directive::Perform(Action::RemoveTarget),
            Step::Restoring => Directive::Perform(Action::Restore),
            Step::RemovingStaging => Directive::Perform(Action::RemoveStaging),
            Step::Discarding => Directive::Perform(Action::Discard),
            Step::Finished => {
                let result: Result<InstallRecord, InstallError> = match &self.failure {
                    Some(error) => Err(error.duplicate()),
                    None => match &self.release {
                        Some(release) => Ok(
                            InstallRecord {
                                version: release.version.duplicate(),
                                tool_version: self.tool_version.duplicate(),
                            },
                        ),
                        None => unreached(),
                    },
                };
                Directive::Finish(Outcome { result, residue: self.residue })
            },
        }
    }

    /// The stage that the installer is in.
    pub fn phase(&self) -> (p: Phase)
        ensures
            p == self@.phase(),
    {
        match self.step {
            Step::Resolving | Step::Probing => Phase::Resolving,
            Step::Fetching => Phase::Fetching,
            Step::Staging | Step::MovingAside | Step::Swapping | Step::Recording => Phase::Placing,
            Step::DroppingBackup => Phase::Committed,
            Step::RemovingTarget | Step::Restoring | Step::RemovingStaging => Phase::RolledBack,
            Step::Discarding | Step::Finished => if self.failure.is_none() {
                Phase::Committed
            } else {
                Phase::RolledBack
            },
        }
    }

    /// Whether the installation has ended.
    pub fn is_finished(&self) -> (r: bool)
        ensures
            r == (self@.step == Step::Finished),
    {
        self.step == Step::Finished
    }

    /// The install target.
    pub fn target(&self) -> (path: &[u8])
        ensures
            path@ == self@.target,
    {
        self.target.as_slice()
    }

    /// What is to be undone next.
    fn rollback_step(&self) -> (step: Step)
        ensures
            step == self@.rollback_step(),
    {
        if self.placed {
            Step::RemovingTarget
        } else if self.backup {
            Step::Restoring
        } else if self.staging {
            Step::RemovingStaging
        } else if self.download {
            Step::Discarding
        } else {
            Step::Finished
        }
    }

    /// Turns to undoing after a step has failed.
    fn fail(self, error: InstallError) -> (r: Installer)
        ensures
            r@ == self@.fail(error@),
    {
        let step = self.rollback_step();
        Installer { failure: Some(error), step, ..self }
    }

    /// Goes on after one thing has been undone, or could not be.
    fn undone(self, done: bool, gravity: Residue) -> (r: Installer)
        requires
            self@.failure is Some,
        ensures
            r@ == (InstallerView {
                residue: if done {
                    self@.residue
                } else {
                    worse(self@.residue, gravity)
                },
                step: self@.rollback_step(),
                ..self@
            }),
    {
        let step = self.rollback_step();
        let residue = if done {
            self.residue
        } else {
            graver(self.residue, gravity)
        };
        Installer { residue, step, ..self }
    }

    /// Takes the event that answers the pending action, and says what to do
    /// next.
    pub fn advance(self, event: Event) -> (r: (Installer, Directive))
        ensures
            r.0@ == self@.next(event@),
            r.1@ == r.0@.directive(),
    {
        proof {
            use_type_invariant(&self);
        }
        let after: Installer = match self.step {
            Step::Resolving => self.resolved(event),
            Step::Probing => self.probed(event),
            Step::Fetching => self.fetched(event),
            Step::Staging | Step::MovingAside | Step::Swapping | Step::Recording => self.placing(
                &event,
            ),
            Step::DroppingBackup | Step::Discarding => self.tidying(&event),
            Step::RemovingTarget | Step::Restoring | Step::RemovingStaging => self.undoing(&event),
            Step::Finished => self,
        };
        let directive = after.pending();
        (after, directive)
    }

    /// Whether the action was carried out.
    fn succeeded(event: &Event) -> (done: bool)
        ensures
            done == (event@ is Done),
    {
        match event {
            Event::Done => true,
            _ => false,
        }
    }

    /// Takes the answer to one of the steps that place the installation.
    fn placing(self, event: &Event) -> (r: Installer)
        requires
            self@.step == Step::Staging || self@.step == Step::MovingAside || self@.step
                == Step::Swapping || self@.step == Step::Recording,
        ensures
            r@ == self@.next(event@),
    {
        proof {
            use_type_invariant(&self);
        }
        let done: bool = Self::succeeded(event);
        match self.step {
            Step::Staging => if done {
                let step = if self.replacing {
                    Step::MovingAside
                } else {
                    Step::Swapping
                };
                Installer { staging: true, step, ..self }
            } else {
                let marked = Installer { staging: true, ..self };
                marked.fail(InstallError::PlacementFailed)
            },
            Step::MovingAside => if done {
                Installer { backup: true, step: Step::Swapping, ..self }
            } else {
                self.fail(InstallError::PlacementFailed)
            },
            Step::Swapping => if done {
                Installer { placed: true, staging: false, step: Step::Recording, ..self }
            } else {
                self.fail(InstallError::PlacementFailed)
            },
            _ => if done {
                let step = if self.backup {
                    Step::DroppingBackup
                } else {
                    Step::Discarding
                };
                Installer { step, ..self }
            } else {
                self.fail(InstallError::PlacementFailed)
            },
        }
    }

    /// Takes the answer to dropping what was moved aside, or to discarding
    /// the transferred artifact.
    fn tidying(self, event: &Event) -> (r: Installer)
        requires
            self@.step == Step::DroppingBackup || self@.step == Step::Discarding,
        ensures
            r@ == self@.next(event@),
    {
        proof {
            use_type_invariant(&self);
        }
        let done: bool = Self::succeeded(event);
        if self.failure.is_some() {
            let cleared = Installer { download: false, ..self };
            return cleared.undone(done, Residue::Scratch);
        }
        let residue = if done {
            self.residue
        } else {
            graver(self.residue, Residue::Scratch)
        };
        match self.step {
            Step::DroppingBackup => Installer {
                backup: false,
                residue,
                step: Step::Discarding,
                ..self
            },
            _ => Installer { download: false, residue, step: Step::Finished, ..self },
        }
    }

    /// Takes the answer to one of the steps that undo a failed installation.
    fn undoing(self, event: &Event) -> (r: Installer)
        requires
            self@.step == Step::RemovingTarget || self@.step == Step::Restoring || self@.step
                == Step::RemovingStaging,
        ensures
            r@ == self@.next(event@),
    {
        proof {
            use_type_invariant(&self);
        }
        let done: bool = Self::succeeded(event);
        match self.step {
            Step::RemovingTarget => {
                let cleared = Installer { placed: false, ..self };
                cleared.undone(done, Residue::Target)
            },
            Step::Restoring => {
                let cleared = Installer { backup: false, ..self };
                cleared.undone(done, Residue::Target)
            },
            _ => {
                let cleared = Installer { staging: false, ..self };
                cleared.undone(done, Residue::Scratch)
            },
        }
    }

    /// Takes the provider's answer.
    fn resolved(self, event: Event) -> (r: Installer)
        requires
            self@.step == Step::Resolving,
        ensures
            r@ == self@.next(event@),
    {
        proof {
            use_type_invariant(&self);
        }
        match event {
            Event::Releases(list) => {
                if self.wanted.is_some() {
                    return self.fail(InstallError::ProviderUnavailable);
                }
                match latest_index(&list) {
                    Ok(k) => {
                        proof {
                            let views = release_views(list@);
                            law_latest_unique(views, k as int, latest_of(views));
                        }
                        let release: Release = list[k].duplicate();
                        Installer { release: Some(release), step: Step::Probing, ..self }
                    },
                    Err(e) => self.fail(e),
                }
            },
            Event::Located(release) => {
                let matches: bool = match &self.wanted {
                    Some(v) => release.version.same(v),
                    None => false,
                };
                if matches {
                    Installer { release: Some(release), step: Step::Probing, ..self }
                } else {
                    self.fail(InstallError::ProviderUnavailable)
                }
            },
            _ => self.fail(InstallError::ProviderUnavailable),
        }
    }

    /// Takes what the look at the install target found.
    fn probed(self, event: Event) -> (r: Installer)
        requires
            self@.step == Step::Probing,
        ensures
            r@ == self@.next(event@),
    {
        proof {
            use_type_invariant(&self);
        }
        match event {
            Event::Probed(TargetProbe::Absent) => Installer {
                replacing: false,
                step: Step::Fetching,
                ..self
            },
            Event::Probed(TargetProbe::Unrecorded) => if self.reinstall {
                Installer { replacing: true, step: Step::Fetching, ..self }
            } else {
                self.fail(InstallError::PlacementFailed)
            },
            Event::Probed(TargetProbe::Recorded(bytes)) => if self.reinstall {
                Installer { replacing: true, step: Step::Fetching, ..self }
            } else {
                let existing: Option<Version> = match InstallRecord::decode(bytes.as_slice()) {
                    Some(record) => Some(record.version),
                    None => None,
                };
                self.fail(InstallError::AlreadyInstalled { existing })
            },
            _ => self.fail(InstallError::PlacementFailed),
        }
    }

    /// Takes the end of the transfer, and checks what arrived.
    fn fetched(self, event: Event) -> (r: Installer)
        requires
            self@.step == Step::Fetching,
        ensures
            r@ == self@.next(event@),
    {
        proof {
            use_type_invariant(&self);
        }
        let transfer: Option<&Received> = match &event {
            Event::Fetched(received) => Some(received),
            _ => None,
        };
        let verdict: Result<(), InstallError> = match &self.release {
            Some(release) => check_transfer(&release.integrity, transfer),
            None => unreached(),
        };
        match verdict {
            Ok(_) => Installer { download: true, step: Step::Staging, ..self },
            Err(error) => {
                let marked = Installer { download: true, ..self };
                marked.fail(error)
            },
        }
    }

    /// Whether an interruption at this moment may leave scratch data beside
    /// the install target: a transferred artifact, a staging directory, or
    /// what was moved aside.
    pub fn may_leak(&self) -> (r: bool)
        ensures
            r == self@.may_leak(),
    {
        self.download || self.staging || self.backup
    }
}

} // verus!
