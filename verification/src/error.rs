//! The ways in which installing or uninstalling can fail.

use crate::version::{Version, VersionView};
use vstd::prelude::*;

verus! {

/// Why an operation did not succeed. Every failure ends the invocation; none
/// is retried.
#[derive(Debug, PartialEq, Eq)]
pub enum InstallError {
    /// The text is not a version.
    InvalidVersionFormat,
    /// The release provider has published nothing.
    NoReleasesFound,
    /// The release provider could not be asked, or answered with a failure.
    ProviderUnavailable,
    /// The artifact could not be transferred.
    DownloadFailed,
    /// What arrived is not what the release announced.
    IntegrityMismatch,
    /// The install target already holds an install record; `existing` is the
    /// version that the record names, where it can be read.
    AlreadyInstalled { existing: Option<Version> },
    /// The file system refused to place the installation.
    PlacementFailed,
    /// The file system refused to remove the installation.
    UninstallFailed,
    /// The host's operating system is not among the supported ones.
    SystemUnsupported,
}

/// An `InstallError` as contracts see it.
pub enum InstallErrorView {
    InvalidVersionFormat,
    NoReleasesFound,
    ProviderUnavailable,
    DownloadFailed,
    IntegrityMismatch,
    AlreadyInstalled { existing: Option<VersionView> },
    PlacementFailed,
    UninstallFailed,
    SystemUnsupported,
}

impl View for InstallError {
    type V = InstallErrorView;

    open spec fn view(&self) -> InstallErrorView {
        match self {
            InstallError::InvalidVersionFormat => InstallErrorView::InvalidVersionFormat,
            InstallError::NoReleasesFound => InstallErrorView::NoReleasesFound,
            InstallError::ProviderUnavailable => InstallErrorView::ProviderUnavailable,
            InstallError::DownloadFailed => InstallErrorView::DownloadFailed,
            InstallError::IntegrityMismatch => InstallErrorView::IntegrityMismatch,
            InstallError::AlreadyInstalled { existing } => InstallErrorView::AlreadyInstalled {
                existing: match existing {
                    Some(v) => Some(v@),
                    None => None,
                },
            },
            InstallError::PlacementFailed => InstallErrorView::PlacementFailed,
            InstallError::UninstallFailed => InstallErrorView::UninstallFailed,
            InstallError::SystemUnsupported => InstallErrorView::SystemUnsupported,
        }
    }
}

impl InstallError {
    /// A second copy of the error.
    pub fn duplicate(&self) -> (r: InstallError)
        ensures
            r@ == self@,
    {
        match self {
            InstallError::InvalidVersionFormat => InstallError::InvalidVersionFormat,
            InstallError::NoReleasesFound => InstallError::NoReleasesFound,
            InstallError::ProviderUnavailable => InstallError::ProviderUnavailable,
            InstallError::DownloadFailed => InstallError::DownloadFailed,
            InstallError::IntegrityMismatch => InstallError::IntegrityMismatch,
            InstallError::AlreadyInstalled { existing } => InstallError::AlreadyInstalled {
                existing: match existing {
                    Some(v) => Some(v.duplicate()),
                    None => None,
                },
            },
            InstallError::PlacementFailed => InstallError::PlacementFailed,
            InstallError::UninstallFailed => InstallError::UninstallFailed,
            InstallError::SystemUnsupported => InstallError::SystemUnsupported,
        }
    }
}

} // verus!
