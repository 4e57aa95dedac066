//! The version of the tool itself, which the package metadata gives as text.

use crate::error::{InstallError, InstallErrorView};
use crate::version::{is_tag, Version, VersionView};
use vstd::prelude::*;

verus! {

/// What `semver::Version::parse` makes of a text: the three numbers and the
/// two tags of the version that it reads, an empty tag standing for "none";
/// `None` where it refuses the text.
pub uninterp spec fn semver_parse(text: Seq<char>) -> Option<(u64, u64, u64, Seq<u8>, Seq<u8>)>;

/// Calls `semver::Version::parse` on `text` and hands out the fields of the
/// version that it returns: `major`, `minor`, `patch`, and the text of `pre`
/// and of `build`. The error that it returns instead becomes `None`.
#[verifier::external_body]
fn semver_fields(text: &str) -> (r: Option<(u64, u64, u64, Vec<u8>, Vec<u8>)>)
    ensures
        match r {
            Some(f) => semver_parse(text@) == Some((f.0, f.1, f.2, f.3@, f.4@)),
            None => semver_parse(text@) is None,
        },
{
    match semver::Version::parse(text) {
        Ok(v) => Some(
            (
                v.major,
                v.minor,
                v.patch,
                v.pre.as_str().as_bytes().to_vec(),
                v.build.as_str().as_bytes().to_vec(),
            ),
        ),
        Err(_) => None,
    }
}

/// The version that the fields of a parsed text stand for, where their tags
/// follow the grammar of tags.
pub open spec fn version_of_fields(
    fields: Option<(u64, u64, u64, Seq<u8>, Seq<u8>)>,
) -> Option<VersionView> {
    match fields {
        Some((major, minor, patch, pre, build)) => {
            if (pre.len() > 0 ==> is_tag(pre, true)) && (build.len() > 0 ==> is_tag(
                build,
                false,
            )) {
                Some(
                    VersionView {
                        major: major as nat,
                        minor: minor as nat,
                        patch: patch as nat,
                        pre,
                        build,
                    },
                )
            } else {
                None
            }
        },
        None => None,
    }
}

/// Makes a version of the fields of a parsed text. Fields that no text gave,
/// or whose tags do not follow the grammar, are refused as
/// `InvalidVersionFormat`.
pub fn version_from_fields(fields: Option<(u64, u64, u64, Vec<u8>, Vec<u8>)>) -> (r: Result<
    Version,
    InstallError,
>)
    ensures
        match r {
            Ok(v) => version_of_fields(
                match fields {
                    Some(f) => Some((f.0, f.1, f.2, f.3@, f.4@)),
                    None => None,
                },
            ) == Some(v@),
            Err(e) => e@ == InstallErrorView::InvalidVersionFormat && version_of_fields(
                match fields {
                    Some(f) => Some((f.0, f.1, f.2, f.3@, f.4@)),
                    None => None,
                },
            ) is None,
        },
{
    match fields {
        Some(f) => Version::new(f.0, f.1, f.2, f.3.as_slice(), f.4.as_slice()),
        None => Err(InstallError::InvalidVersionFormat),
    }
}

/// Reads the tool's own version from the text that the package metadata
/// holds.
pub fn tool_version(text: &str) -> (r: Result<Version, InstallError>)
    ensures
        match r {
            Ok(v) => version_of_fields(semver_parse(text@)) == Some(v@),
            Err(e) => e@ == InstallErrorView::InvalidVersionFormat && version_of_fields(
                semver_parse(text@),
            ) is None,
        },
{
    version_from_fields(semver_fields(text))
}

} // verus!
