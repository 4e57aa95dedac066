//! A model of the places on disk that the workflows work on, and of what each
//! action does to them.
//!
//! The model is what the guarantees in `crate::guarantees` are proved
//! against. It says what the caller's platform is taken to do: moving a
//! directory happens in one step or not at all; writing and removing may stop
//! half-way; looking changes nothing.

use crate::protocol::{ActionView, EventView, TargetProbeView};
use vstd::prelude::*;

verus! {

/// A directory that holds an installation.
pub struct Tree {
    /// The files of the product.
    pub payload: Seq<u8>,
    /// The bytes of the install record, if there is one.
    pub record: Option<Seq<u8>>,
}

/// The places on disk, `None` standing for "nothing is there".
pub struct World {
    /// The install target.
    pub target: Option<Tree>,
    /// The staging directory beside the install target.
    pub staging: Option<Tree>,
    /// The place beside the install target for what was moved aside.
    pub backup: Option<Tree>,
    /// The scratch place with the transferred artifact.
    pub download: Option<Seq<u8>>,
    /// What the last transfer that came to its end delivered. This is no
    /// place on disk: it is remembered so that the guarantees can speak of it.
    pub fetched: Option<Seq<u8>>,
}

impl World {
    /// Whether nothing lies beside the install target.
    pub open spec fn scratch_free(self) -> bool {
        self.staging is None && self.backup is None && self.download is None
    }

    /// Whether two worlds hold the same in every place on disk.
    pub open spec fn same_places(self, other: World) -> bool {
        &&& self.target == other.target
        &&& self.staging == other.staging
        &&& self.backup == other.backup
        &&& self.download == other.download
    }

    /// The same world with nothing at the install target.
    pub open spec fn without_target(self) -> World {
        World { target: None, ..self }
    }

    /// What a look at the install target finds.
    pub open spec fn probe(self) -> TargetProbeView {
        match self.target {
            None => TargetProbeView::Absent,
            Some(tree) => match tree.record {
                None => TargetProbeView::Unrecorded,
                Some(bytes) => TargetProbeView::Recorded(bytes),
            },
        }
    }
}

/// Whether `action`, carried out in the world `pre`, can end with `event` and
/// leave the world `post`.
pub open spec fn performs(pre: World, action: ActionView, event: EventView, post: World) -> bool {
    match action {
        ActionView::ListReleases => post == pre && (event is Releases || event is Failed),
        ActionView::LocateRelease(_) => post == pre && (event is Located || event is Failed),
        ActionView::ProbeTarget => post == pre && (event is Failed || event == EventView::Probed(
            pre.probe(),
        )),
        ActionView::Fetch(_) => match event {
            EventView::Fetched(received) => {
                &&& post.download is Some
                &&& post.download->0.len() == received.size
                &&& post == World { download: post.download, fetched: post.download, ..pre }
            },
            EventView::Failed => post == World { download: post.download, ..pre },
            _ => false,
        },
        ActionView::Stage => match event {
            EventView::Done => {
                &&& pre.download is Some
                &&& post == World {
                    staging: Some(Tree { payload: pre.download->0, record: None }),
                    ..pre
                }
            },
            EventView::Failed => post == World { staging: post.staging, ..pre },
            _ => false,
        },
        ActionView::MoveAside => match event {
            EventView::Done => {
                &&& pre.target is Some
                &&& pre.backup is None
                &&& post == World { target: None, backup: pre.target, ..pre }
            },
            EventView::Failed => post == pre,
            _ => false,
        },
        ActionView::Swap => match event {
            EventView::Done => {
                &&& pre.staging is Some
                &&& pre.target is None
                &&& post == World { target: pre.staging, staging: None, ..pre }
            },
            EventView::Failed => post == pre,
            _ => false,
        },
        ActionView::WriteRecord(bytes) => match event {
            EventView::Done => {
                &&& pre.target is Some
                &&& post == World {
                    target: Some(Tree { record: Some(bytes), ..pre.target->0 }),
                    ..pre
                }
            },
            EventView::Failed => {
                &&& post == World { target: post.target, ..pre }
                &&& pre.target is Some ==> post.target is Some && post.target->0.payload
                    == pre.target->0.payload
                &&& pre.target is None ==> post.target is None
            },
            _ => false,
        },
        ActionView::DropBackup => match event {
            EventView::Done => post == World { backup: None, ..pre },
            EventView::Failed => post == World { backup: post.backup, ..pre },
            _ => false,
        },
        ActionView::RemoveTarget => match event {
            EventView::Done => post == World { target: None, ..pre },
            EventView::Failed => post == World { target: post.target, ..pre },
            _ => false,
        },
        ActionView::Restore => match event {
            EventView::Done => {
                &&& pre.backup is Some
                &&& pre.target is None
                &&& post == World { target: pre.backup, backup: None, ..pre }
            },
            EventView::Failed => post == pre,
            _ => false,
        },
        ActionView::RemoveStaging => match event {
            EventView::Done => post == World { staging: None, ..pre },
            EventView::Failed => post == World { staging: post.staging, ..pre },
            _ => false,
        },
        ActionView::Discard => match event {
            EventView::Done => post == World { download: None, ..pre },
            EventView::Failed => post == World { download: post.download, ..pre },
            _ => false,
        },
    }
}

} // verus!
