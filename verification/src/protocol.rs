//! What passes between the workflows and the platform that carries them out.
//!
//! A workflow never touches the file system or the network itself. It hands
//! out one `Action` at a time; the caller performs it and hands back the
//! `Event` that tells how it went.

use crate::release::{release_views, Received, ReceivedView, Release, ReleaseView};
use crate::version::{Version, VersionView};
use vstd::prelude::*;

verus! {

/// What a look at the install target found.
#[derive(Debug, PartialEq, Eq)]
pub enum TargetProbe {
    /// Nothing is there.
    Absent,
    /// Something is there, without an install record.
    Unrecorded,
    /// An install record is there, with these bytes.
    Recorded(Vec<u8>),
}

/// A `TargetProbe` as contracts see it.
pub enum TargetProbeView {
    Absent,
    Unrecorded,
    Recorded(Seq<u8>),
}

impl View for TargetProbe {
    type V = TargetProbeView;

    open spec fn view(&self) -> TargetProbeView {
        match self {
            TargetProbe::Absent => TargetProbeView::Absent,
            TargetProbe::Unrecorded => TargetProbeView::Unrecorded,
            TargetProbe::Recorded(bytes) => TargetProbeView::Recorded(bytes@),
        }
    }
}

/// One step for the platform to carry out.
#[derive(Debug, PartialEq, Eq)]
pub enum Action {
    /// Ask the provider for everything it has published.
    ListReleases,
    /// Ask the provider for the release of this version.
    LocateRelease(Version),
    /// Look at the install target and read its install record.
    ProbeTarget,
    /// Transfer the artifact from this location into a scratch place of the
    /// operation's own.
    Fetch(Vec<u8>),
    /// Unpack the artifact into the staging directory beside the install
    /// target.
    Stage,
    /// Move what is at the install target aside, in one step.
    MoveAside,
    /// Move the staging directory to the install target, in one step.
    Swap,
    /// Write these bytes as the install record inside the install target.
    WriteRecord(Vec<u8>),
    /// Remove what was moved aside.
    DropBackup,
    /// Remove what is at the install target.
    RemoveTarget,
    /// Move what was moved aside back to the install target, in one step.
    Restore,
    /// Remove the staging directory.
    RemoveStaging,
    /// Remove the scratch place with the transferred artifact.
    Discard,
}

/// An `Action` as contracts see it.
pub enum ActionView {
    ListReleases,
    LocateRelease(VersionView),
    ProbeTarget,
    Fetch(Seq<u8>),
    Stage,
    MoveAside,
    Swap,
    WriteRecord(Seq<u8>),
    DropBackup,
    RemoveTarget,
    Restore,
    RemoveStaging,
    Discard,
}

impl View for Action {
    type V = ActionView;

    open spec fn view(&self) -> ActionView {
        match self {
            Action::ListReleases => ActionView::ListReleases,
            Action::LocateRelease(v) => ActionView::LocateRelease(v@),
            Action::ProbeTarget => ActionView::ProbeTarget,
            Action::Fetch(location) => ActionView::Fetch(location@),
            Action::Stage => ActionView::Stage,
            Action::MoveAside => ActionView::MoveAside,
            Action::Swap => ActionView::Swap,
            Action::WriteRecord(bytes) => ActionView::WriteRecord(bytes@),
            Action::DropBackup => ActionView::DropBackup,
            Action::RemoveTarget => ActionView::RemoveTarget,
            Action::Restore => ActionView::Restore,
            Action::RemoveStaging => ActionView::RemoveStaging,
            Action::Discard => ActionView::Discard,
        }
    }
}

/// How an action went.
#[derive(Debug, PartialEq, Eq)]
pub enum Event {
    /// The provider has published these releases.
    Releases(Vec<Release>),
    /// The provider has this release for the version asked for.
    Located(Release),
    /// The look at the install target found this.
    Probed(TargetProbe),
    /// The transfer came to its end and delivered this.
    Fetched(Received),
    /// The action was carried out.
    Done,
    /// The action could not be carried out.
    Failed,
}

/// An `Event` as contracts see it.
pub enum EventView {
    Releases(Seq<ReleaseView>),
    Located(ReleaseView),
    Probed(TargetProbeView),
    Fetched(ReceivedView),
    Done,
    Failed,
}

impl View for Event {
    type V = EventView;

    open spec fn view(&self) -> EventView {
        match self {
            Event::Releases(list) => EventView::Releases(release_views(list@)),
            Event::Located(release) => EventView::Located(release@),
            Event::Probed(probe) => EventView::Probed(probe@),
            Event::Fetched(received) => EventView::Fetched(received@),
            Event::Done => EventView::Done,
            Event::Failed => EventView::Failed,
        }
    }
}

/// What a workflow may leave behind when cleaning up after itself did not
/// succeed.
#[derive(Debug, Clone, Copy, PartialEq, Eq, Structural)]
pub enum Residue {
    /// Nothing is left behind.
    Clean,
    /// Scratch data is left beside the install target: the staging directory,
    /// the transferred artifact, or what was moved aside.
    Scratch,
    /// The install target itself could not be put back.
    Target,
}

/// The graver of two residues.
pub open spec fn worse(a: Residue, b: Residue) -> Residue {
    if a == Residue::Target || b == Residue::Target {
        Residue::Target
    } else if a == Residue::Scratch || b == Residue::Scratch {
        Residue::Scratch
    } else {
        Residue::Clean
    }
}

/// Picks the graver of two residues.
pub fn graver(a: Residue, b: Residue) -> (r: Residue)
    ensures
        r == worse(a, b),
{
    if a == Residue::Target || b == Residue::Target {
        Residue::Target
    } else if a == Residue::Scratch || b == Residue::Scratch {
        Residue::Scratch
    } else {
        Residue::Clean
    }
}

} // verus!
