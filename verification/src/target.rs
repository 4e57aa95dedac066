//! Where the product is placed: the install target and the places beside it.
//!
//! Paths are byte strings with `/` between their parts. The install target is
//! the directory `.amethyst` below the user's home directory, or below the
//! path that the caller gave, taken relative to the home directory.

use crate::bytes::{append, copy_of};
use vstd::prelude::*;

verus! {

/// The byte `/`, which separates the parts of a path.
pub const SLASH: u8 = 47;

/// The name of the directory that holds the product: `.amethyst`.
pub open spec fn product_dir() -> Seq<u8> {
    seq![46u8, 97u8, 109u8, 101u8, 116u8, 104u8, 121u8, 115u8, 116u8]
}

/// What is added to the install target to name the staging directory beside
/// it: `.staging`.
pub open spec fn staging_suffix() -> Seq<u8> {
    seq![46u8, 115u8, 116u8, 97u8, 103u8, 105u8, 110u8, 103u8]
}

/// What is added to the install target to name the place where a previous
/// installation waits while it is being replaced: `.previous`.
pub open spec fn backup_suffix() -> Seq<u8> {
    seq![46u8, 112u8, 114u8, 101u8, 118u8, 105u8, 111u8, 117u8, 115u8]
}

/// The name of the install record inside the install target: `install.record`.
pub open spec fn record_name() -> Seq<u8> {
    seq![
        105u8,
        110u8,
        115u8,
        116u8,
        97u8,
        108u8,
        108u8,
        46u8,
        114u8,
        101u8,
        99u8,
        111u8,
        114u8,
        100u8,
    ]
}

/// Whether a path starts at the root.
pub open spec fn is_absolute(path: Seq<u8>) -> bool {
    path.len() > 0 && path[0] == SLASH
}

/// `part` below `base`: an absolute `part` stands for itself; otherwise the
/// two are put together with one separator between them, unless `base` is
/// empty or brings its own.
pub open spec fn joined(base: Seq<u8>, part: Seq<u8>) -> Seq<u8> {
    if is_absolute(part) {
        part
    } else if base.len() == 0 || base.last() == SLASH {
        base + part
    } else {
        base + seq![SLASH] + part
    }
}

/// The install target for a home directory and the path that the caller gave.
pub open spec fn target_of(home: Seq<u8>, hint: Option<Seq<u8>>) -> Seq<u8> {
    match hint {
        Some(path) => joined(joined(home, path), product_dir()),
        None => joined(home, product_dir()),
    }
}

/// The path that the caller gave, as contracts see it.
pub open spec fn hint_view(hint: Option<&[u8]>) -> Option<Seq<u8>> {
    match hint {
        Some(path) => Some(path@),
        None => None,
    }
}

/// An absolute home directory gives an absolute install target, whatever the
/// caller's path, and the target's last part is the product directory.
pub proof fn law_target_shape(home: Seq<u8>, hint: Option<Seq<u8>>)
    ensures
        is_absolute(home) ==> is_absolute(target_of(home, hint)),
        product_dir().is_suffix_of(target_of(home, hint)),
{
    let below = match hint {
        Some(path) => joined(home, path),
        None => home,
    };
    let target = joined(below, product_dir());
    assert(target == target_of(home, hint));
    assert(!is_absolute(product_dir()));
    let cut = target.len() - product_dir().len();
    assert(target.skip(cut) =~= product_dir());
    if is_absolute(home) {
        assert(is_absolute(below));
        assert(target[0] == below[0]);
    }
}

/// The staging directory and the place for a previous installation are two
/// different places, and neither is the install target.
pub proof fn law_places_distinct(target: Seq<u8>)
    ensures
        target + staging_suffix() != target,
        target + backup_suffix() != target,
        target + staging_suffix() != target + backup_suffix(),
{
    let staging = target + staging_suffix();
    let backup = target + backup_suffix();
    assert(staging.len() == target.len() + 8);
    assert(backup.len() == target.len() + 9);
}

/// Puts `part` below `base`.
pub fn join(base: &[u8], part: &[u8]) -> (path: Vec<u8>)
    ensures
        path@ == joined(base@, part@),
{
    if part.len() > 0 && part[0] == SLASH {
        return copy_of(part);
    }
    let mut path: Vec<u8> = copy_of(base);
    if base.len() > 0 && base[base.len() - 1] != SLASH {
        path.push(SLASH);
    }
    append(&mut path, part);
    path
}

/// The name of the product directory.
pub fn product_dir_name() -> (name: Vec<u8>)
    ensures
        name@ == product_dir(),
{
    let mut name: Vec<u8> = Vec::new();
    name.push(46);
    name.push(97);
    name.push(109);
    name.push(101);
    name.push(116);
    name.push(104);
    name.push(121);
    name.push(115);
    name.push(116);
    assert(name@ =~= product_dir());
    name
}

/// The install target for a home directory and the path that the caller gave.
pub fn install_target(home: &[u8], hint: Option<&[u8]>) -> (target: Vec<u8>)
    ensures
        target@ == target_of(home@, hint_view(hint)),
{
    let name: Vec<u8> = product_dir_name();
    match hint {
        Some(path) => {
            let below: Vec<u8> = join(home, path);
            join(below.as_slice(), name.as_slice())
        },
        None => join(home, name.as_slice()),
    }
}

/// The place that uninstalling looks at: the install target that installing
/// uses when the caller gives no path.
pub fn uninstall_target(home: &[u8]) -> (target: Vec<u8>)
    ensures
        target@ == target_of(home@, None),
{
    install_target(home, None)
}

/// The staging directory beside an install target.
pub fn staging_path(target: &[u8]) -> (path: Vec<u8>)
    ensures
        path@ == target@ + staging_suffix(),
{
    let mut path: Vec<u8> = copy_of(target);
    path.push(46);
    path.push(115);
    path.push(116);
    path.push(97);
    path.push(103);
    path.push(105);
    path.push(110);
    path.push(103);
    assert(path@ =~= target@ + staging_suffix());
    path
}

/// The place beside an install target where a previous installation waits.
pub fn backup_path(target: &[u8]) -> (path: Vec<u8>)
    ensures
        path@ == target@ + backup_suffix(),
{
    let mut path: Vec<u8> = copy_of(target);
    path.push(46);
    path.push(112);
    path.push(114);
    path.push(101);
    path.push(118);
    path.push(105);
    path.push(111);
    path.push(117);
    path.push(115);
    assert(path@ =~= target@ + backup_suffix());
    path
}

/// The install record inside an install target.
pub fn record_path(target: &[u8]) -> (path: Vec<u8>)
    ensures
        path@ == joined(target@, record_name()),
{
    let mut name: Vec<u8> = Vec::new();
    name.push(105);
    name.push(110);
    name.push(115);
    name.push(116);
    name.push(97);
    name.push(108);
    name.push(108);
    name.push(46);
    name.push(114);
    name.push(101);
    name.push(99);
    name.push(111);
    name.push(114);
    name.push(100);
    assert(name@ =~= record_name());
    join(target, name.as_slice())
}

/// The home directory of the current user, as bytes.
///
/// Calls `dirs::home_dir`. Its answer depends on the environment and on the
/// user database, so nothing is claimed of it. `None` stands for "no home
/// directory is known" and for a home directory whose path is not UTF-8.
#[verifier::external_body]
fn home_directory() -> (home: Option<Vec<u8>>) {
    match dirs::home_dir() {
        Some(path) => match path.into_os_string().into_string() {
            Ok(text) => Some(text.into_bytes()),
            Err(_) => None,
        },
        None => None,
    }
}

/// The install target of the current user for the path that the caller gave:
/// `None` where no home directory is known, and else the target below
/// whatever home directory was found.
pub fn user_install_target(hint: Option<&[u8]>) -> (r: Option<Vec<u8>>)
    ensures
        r matches Some(target) ==> exists|home: Seq<u8>|
            target@ == #[trigger] target_of(home, hint_view(hint)),
{
    let home: Option<Vec<u8>> = home_directory();
    let target: Option<Vec<u8>> = target_below(home, hint);
    target
}

/// The install target below a home directory that may be unknown: `None`
/// exactly where no home directory is known, and else the install target for
/// that home directory and the path that the caller gave.
pub fn target_below(home: Option<Vec<u8>>, hint: Option<&[u8]>) -> (r: Option<Vec<u8>>)
    ensures
        r is Some <==> home is Some,
        r matches Some(target) ==> target@ == target_of(home->0@, hint_view(hint)),
{
    match home {
        Some(home) => Some(install_target(home.as_slice(), hint)),
        None => None,
    }
}

} // verus!
