//! Releases as the provider publishes them, the choice of the newest one, and
//! the check of what was downloaded against what was announced.

use crate::bytes::{copy_of, same_bytes};
use crate::error::{InstallError, InstallErrorView};
use crate::precedence::{
    law_precedence_flip, law_precedence_reflexive, law_precedence_transitive, order_versions,
    precedence, Precedence,
};
use crate::version::{Version, VersionView};
use vstd::prelude::*;

verus! {

/// What the provider announces about an artifact, as far as it announces
/// anything: its size in bytes and its checksum.
#[derive(Debug, PartialEq, Eq)]
pub struct Integrity {
    pub size: Option<u64>,
    pub checksum: Option<Vec<u8>>,
}

/// An `Integrity` as contracts see it.
pub struct IntegrityView {
    pub size: Option<nat>,
    pub checksum: Option<Seq<u8>>,
}

impl View for Integrity {
    type V = IntegrityView;

    open spec fn view(&self) -> IntegrityView {
        IntegrityView {
            size: match self.size {
                Some(n) => Some(n as nat),
                None => None,
            },
            checksum: match self.checksum {
                Some(c) => Some(c@),
                None => None,
            },
        }
    }
}

/// What the transfer delivered: how many bytes arrived, and their checksum.
#[derive(Debug, PartialEq, Eq)]
pub struct Received {
    pub size: u64,
    pub checksum: Vec<u8>,
}

/// A `Received` as contracts see it.
pub struct ReceivedView {
    pub size: nat,
    pub checksum: Seq<u8>,
}

impl View for Received {
    type V = ReceivedView;

    open spec fn view(&self) -> ReceivedView {
        ReceivedView { size: self.size as nat, checksum: self.checksum@ }
    }
}

/// Whether what arrived is what was announced: each of size and checksum
/// agrees, where it was announced at all.
pub open spec fn intact(announced: IntegrityView, received: ReceivedView) -> bool {
    &&& announced.size matches Some(n) ==> n == received.size
    &&& announced.checksum matches Some(c) ==> c == received.checksum
}

/// Checks a finished transfer against the announcement. A transfer that does
/// not match is refused as `IntegrityMismatch`.
pub fn verify_artifact(announced: &Integrity, received: &Received) -> (r: Result<
    (),
    InstallError,
>)
    ensures
        r is Ok <==> intact(announced@, received@),
        r matches Err(e) ==> e@ == InstallErrorView::IntegrityMismatch,
{
    match announced.size {
        Some(n) => {
            if n != received.size {
                return Err(InstallError::IntegrityMismatch);
            }
        },
        None => {},
    }
    match &announced.checksum {
        Some(c) => {
            if !same_bytes(c.as_slice(), received.checksum.as_slice()) {
                return Err(InstallError::IntegrityMismatch);
            }
        },
        None => {},
    }
    Ok(())
}

/// How a transfer is judged: one that did not come to its end has failed as a
/// download; one that came to its end must be intact.
pub open spec fn transfer_verdict(announced: IntegrityView, transfer: Option<ReceivedView>) -> Result<
    (),
    InstallErrorView,
> {
    match transfer {
        None => Err(InstallErrorView::DownloadFailed),
        Some(received) => if intact(announced, received) {
            Ok(())
        } else {
            Err(InstallErrorView::IntegrityMismatch)
        },
    }
}

/// What a transfer delivered, as contracts see it; `None` for a transfer that
/// did not come to its end.
pub open spec fn transfer_view(transfer: Option<&Received>) -> Option<ReceivedView> {
    match transfer {
        Some(received) => Some(received@),
        None => None,
    }
}

/// Judges a transfer: `DownloadFailed` where it did not come to its end,
/// `IntegrityMismatch` where what arrived is not what was announced. Either
/// way the caller is to discard what arrived; only a transfer that is judged
/// `Ok` is an artifact.
pub fn check_transfer(announced: &Integrity, transfer: Option<&Received>) -> (r: Result<
    (),
    InstallError,
>)
    ensures
        match r {
            Ok(_) => transfer_verdict(announced@, transfer_view(transfer)) is Ok,
            Err(e) => transfer_verdict(announced@, transfer_view(transfer)) == Err::<(), _>(e@),
        },
{
    match transfer {
        None => Err(InstallError::DownloadFailed),
        Some(received) => verify_artifact(announced, received),
    }
}

/// A published build of the product: its version, where to get it, and what
/// the provider announces about the artifact.
#[derive(Debug, PartialEq, Eq)]
pub struct Release {
    pub version: Version,
    pub location: Vec<u8>,
    pub integrity: Integrity,
}

/// A `Release` as contracts see it.
pub struct ReleaseView {
    pub version: VersionView,
    pub location: Seq<u8>,
    pub integrity: IntegrityView,
}

impl View for Release {
    type V = ReleaseView;

    open spec fn view(&self) -> ReleaseView {
        ReleaseView {
            version: self.version@,
            location: self.location@,
            integrity: self.integrity@,
        }
    }
}

impl Integrity {
    /// A second copy of the announcement.
    pub fn duplicate(&self) -> (r: Integrity)
        ensures
            r@ == self@,
    {
        Integrity {
            size: self.size,
            checksum: match &self.checksum {
                Some(c) => Some(copy_of(c.as_slice())),
                None => None,
            },
        }
    }
}

impl Release {
    /// A second copy of the release.
    pub fn duplicate(&self) -> (r: Release)
        ensures
            r@ == self@,
    {
        Release {
            version: self.version.duplicate(),
            location: copy_of(self.location.as_slice()),
            integrity: self.integrity.duplicate(),
        }
    }
}

/// The releases of a list, as contracts see them.
pub open spec fn release_views(releases: Seq<Release>) -> Seq<ReleaseView> {
    Seq::new(releases.len(), |i: int| releases[i]@)
}

/// Whether the release at index `k` is the newest of `releases`: none is
/// newer, and every release before it is older.
pub open spec fn is_latest(releases: Seq<ReleaseView>, k: int) -> bool {
    &&& 0 <= k < releases.len()
    &&& forall|j: int|
        0 <= j < releases.len() ==> precedence(
            (#[trigger] releases[j]).version,
            releases[k].version,
        ) != Precedence::Higher
    &&& forall|j: int|
        0 <= j < k ==> precedence((#[trigger] releases[j]).version, releases[k].version)
            == Precedence::Lower
}

/// A list of releases has at most one newest release.
pub proof fn law_latest_unique(releases: Seq<ReleaseView>, a: int, b: int)
    requires
        is_latest(releases, a),
        is_latest(releases, b),
    ensures
        a == b,
{
    if a < b {
        law_precedence_flip(releases[a].version, releases[b].version);
        assert(precedence(releases[b].version, releases[a].version) != Precedence::Higher);
    } else if b < a {
        law_precedence_flip(releases[b].version, releases[a].version);
        assert(precedence(releases[a].version, releases[b].version) != Precedence::Higher);
    }
}

/// Every list of releases but the empty one has a newest release.
pub proof fn law_latest_exists(releases: Seq<ReleaseView>)
    requires
        releases.len() > 0,
    ensures
        exists|k: int| is_latest(releases, k),
    decreases releases.len(),
{
    if releases.len() == 1 {
        law_precedence_reflexive(releases[0].version);
        assert(is_latest(releases, 0));
    } else {
        let shorter = releases.drop_last();
        law_latest_exists(shorter);
        let k = choose|k: int| is_latest(shorter, k);
        lemma_latest_extends(releases, k);
    }
}

/// The newest release of a list with one release more is the old newest one,
/// unless the added release is newer.
proof fn lemma_latest_extends(releases: Seq<ReleaseView>, k: int)
    requires
        releases.len() > 0,
        is_latest(releases.drop_last(), k),
    ensures
        precedence(releases.last().version, releases[k].version) == Precedence::Higher
            ==> is_latest(releases, releases.len() - 1),
        precedence(releases.last().version, releases[k].version) != Precedence::Higher
            ==> is_latest(releases, k),
{
    let shorter = releases.drop_last();
    let n = releases.len() - 1;
    let added = releases[n].version;
    let best = releases[k].version;
    assert(shorter[k] == releases[k]);
    if precedence(added, best) == Precedence::Higher {
        law_precedence_flip(added, best);
        law_precedence_reflexive(added);
        assert forall|j: int| 0 <= j < n implies precedence(
            (#[trigger] releases[j]).version,
            added,
        ) == Precedence::Lower by {
            assert(shorter[j] == releases[j]);
            law_precedence_transitive(releases[j].version, best, added);
        }
    } else {
        assert forall|j: int| 0 <= j < releases.len() implies precedence(
            (#[trigger] releases[j]).version,
            best,
        ) != Precedence::Higher by {
            if j < n {
                assert(shorter[j] == releases[j]);
            }
        }
        assert forall|j: int| 0 <= j < k implies precedence(
            (#[trigger] releases[j]).version,
            best,
        ) == Precedence::Lower by {
            assert(shorter[j] == releases[j]);
        }
    }
}

/// Finds the newest release of a list: the index of the first release that no
/// other release is newer than. An empty list has none: `NoReleasesFound`.
pub fn latest_index(releases: &Vec<Release>) -> (r: Result<usize, InstallError>)
    ensures
        match r {
            Ok(k) => is_latest(release_views(releases@), k as int),
            Err(e) => releases@.len() == 0 && e@ == InstallErrorView::NoReleasesFound,
        },
{
    let n: usize = releases.len();
    if n == 0 {
        return Err(InstallError::NoReleasesFound);
    }
    let ghost all = release_views(releases@);
    let mut best: usize = 0;
    let mut i: usize = 1;
    proof {
        law_precedence_reflexive(all[0].version);
        assert(is_latest(all.take(1), 0));
    }
    while i < n
        invariant
            1 <= i <= n == releases@.len(),
            all == release_views(releases@),
            is_latest(all.take(i as int), best as int),
        decreases n - i,
    {
        let newer: bool = match order_versions(&releases[i].version, &releases[best].version) {
            Precedence::Higher => true,
            _ => false,
        };
        proof {
            let longer = all.take(i + 1);
            assert(longer.drop_last() =~= all.take(i as int));
            assert(longer.last() == releases@[i as int]@);
            assert(longer[best as int] == releases@[best as int]@);
            lemma_latest_extends(longer, best as int);
        }
        if newer {
            best = i;
        }
        i = i + 1;
    }
    assert(all.take(n as int) =~= all);
    Ok(best)
}

/// Picks the newest release out of what the provider has published.
pub fn resolve_latest(releases: Vec<Release>) -> (r: Result<Release, InstallError>)
    ensures
        match r {
            Ok(chosen) => exists|k: int|
                is_latest(release_views(releases@), k) && chosen@ == releases@[k]@,
            Err(e) => releases@.len() == 0 && e@ == InstallErrorView::NoReleasesFound,
        },
{
    match latest_index(&releases) {
        Ok(k) => {
            let chosen: Release = releases[k].duplicate();
            Ok(chosen)
        },
        Err(e) => Err(e),
    }
}

} // verus!
