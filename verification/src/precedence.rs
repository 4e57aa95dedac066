//! Which of two versions is the newer one.
//!
//! Versions are ordered by their three numbers; where these agree, a version
//! without a pre-release tag is newer than one with a tag, and two tags are
//! ordered as byte strings. The build tag plays no part.

use crate::version::{Version, VersionView};
use vstd::prelude::*;

verus! {

/// How one thing stands to another in an order.
#[derive(Debug, Clone, Copy, PartialEq, Eq, Structural)]
pub enum Precedence {
    /// The first comes before the second.
    Lower,
    /// Neither comes before the other.
    Same,
    /// The first comes after the second.
    Higher,
}

/// The same relation, seen from the other side.
pub open spec fn flip(p: Precedence) -> Precedence {
    match p {
        Precedence::Lower => Precedence::Higher,
        Precedence::Same => Precedence::Same,
        Precedence::Higher => Precedence::Lower,
    }
}

/// `first`, unless it is undecided; then `second`.
pub open spec fn refine(first: Precedence, second: Precedence) -> Precedence {
    if first == Precedence::Same {
        second
    } else {
        first
    }
}

/// The order of two numbers.
pub open spec fn numeric(a: nat, b: nat) -> Precedence {
    if a < b {
        Precedence::Lower
    } else if a > b {
        Precedence::Higher
    } else {
        Precedence::Same
    }
}

/// The order of two byte strings: by the first byte in which they differ; a
/// proper prefix comes first.
pub open spec fn lexical(a: Seq<u8>, b: Seq<u8>) -> Precedence
    decreases a.len(),
{
    if a.len() == 0 {
        if b.len() == 0 {
            Precedence::Same
        } else {
            Precedence::Lower
        }
    } else if b.len() == 0 {
        Precedence::Higher
    } else if a[0] < b[0] {
        Precedence::Lower
    } else if a[0] > b[0] {
        Precedence::Higher
    } else {
        lexical(a.drop_first(), b.drop_first())
    }
}

/// The order of two pre-release tags, an empty tag standing for "none": no tag
/// is newer than any tag.
pub open spec fn tag_precedence(a: Seq<u8>, b: Seq<u8>) -> Precedence {
    if a.len() == 0 && b.len() == 0 {
        Precedence::Same
    } else if a.len() == 0 {
        Precedence::Higher
    } else if b.len() == 0 {
        Precedence::Lower
    } else {
        lexical(a, b)
    }
}

/// The order of two versions.
pub open spec fn precedence(a: VersionView, b: VersionView) -> Precedence {
    refine(
        numeric(a.major, b.major),
        refine(
            numeric(a.minor, b.minor),
            refine(numeric(a.patch, b.patch), tag_precedence(a.pre, b.pre)),
        ),
    )
}

/// Two byte strings are undecided exactly when they are equal.
pub proof fn lemma_lexical_same(a: Seq<u8>, b: Seq<u8>)
    ensures
        lexical(a, b) == Precedence::Same <==> a == b,
    decreases a.len(),
{
    if a.len() > 0 && b.len() > 0 && a[0] == b[0] {
        lemma_lexical_same(a.drop_first(), b.drop_first());
        if a.drop_first() == b.drop_first() {
            assert(a =~= seq![a[0]] + a.drop_first());
            assert(b =~= seq![b[0]] + b.drop_first());
        }
    } else if a.len() == 0 && b.len() == 0 {
        assert(a =~= b);
    }
}

/// Swapping two byte strings flips their order.
pub proof fn lemma_lexical_flip(a: Seq<u8>, b: Seq<u8>)
    ensures
        lexical(b, a) == flip(lexical(a, b)),
    decreases a.len(),
{
    if a.len() > 0 && b.len() > 0 && a[0] == b[0] {
        lemma_lexical_flip(a.drop_first(), b.drop_first());
    }
}

/// The order of byte strings is transitive.
pub proof fn lemma_lexical_transitive(a: Seq<u8>, b: Seq<u8>, c: Seq<u8>)
    requires
        lexical(a, b) != Precedence::Higher,
        lexical(b, c) != Precedence::Higher,
    ensures
        lexical(a, c) != Precedence::Higher,
        lexical(a, b) == Precedence::Lower || lexical(b, c) == Precedence::Lower ==> lexical(a, c)
            == Precedence::Lower,
    decreases a.len(),
{
    if a.len() > 0 && b.len() > 0 && c.len() > 0 && a[0] == b[0] && b[0] == c[0] {
        lemma_lexical_transitive(a.drop_first(), b.drop_first(), c.drop_first());
    }
}

/// Every version is as new as itself.
pub proof fn law_precedence_reflexive(a: VersionView)
    ensures
        precedence(a, a) == Precedence::Same,
{
    lemma_lexical_same(a.pre, a.pre);
}

/// Swapping two versions flips their order.
pub proof fn law_precedence_flip(a: VersionView, b: VersionView)
    ensures
        precedence(b, a) == flip(precedence(a, b)),
{
    lemma_lexical_flip(a.pre, b.pre);
}

/// The order of versions is transitive, strictly so where one step is strict.
pub proof fn law_precedence_transitive(a: VersionView, b: VersionView, c: VersionView)
    requires
        precedence(a, b) != Precedence::Higher,
        precedence(b, c) != Precedence::Higher,
    ensures
        precedence(a, c) != Precedence::Higher,
        precedence(a, b) == Precedence::Lower || precedence(b, c) == Precedence::Lower
            ==> precedence(a, c) == Precedence::Lower,
{
    if a.major == b.major && b.major == c.major && a.minor == b.minor && b.minor == c.minor
        && a.patch == b.patch && b.patch == c.patch {
        if a.pre.len() > 0 && b.pre.len() > 0 && c.pre.len() > 0 {
            lemma_lexical_transitive(a.pre, b.pre, c.pre);
        }
    }
}

/// Two versions are equally new exactly when they agree in everything but
/// the build tag.
pub proof fn law_precedence_same(a: VersionView, b: VersionView)
    ensures
        precedence(a, b) == Precedence::Same <==> a.major == b.major && a.minor == b.minor
            && a.patch == b.patch && a.pre == b.pre,
{
    lemma_lexical_same(a.pre, b.pre);
    if a.pre.len() == 0 && b.pre.len() == 0 {
        assert(a.pre =~= b.pre);
    }
}

/// Where the numbers agree, a release without a pre-release tag is newer than
/// one with a tag.
pub proof fn law_stable_beats_prerelease(stable: VersionView, pre: VersionView)
    requires
        stable.major == pre.major,
        stable.minor == pre.minor,
        stable.patch == pre.patch,
        stable.pre.len() == 0,
        pre.pre.len() > 0,
    ensures
        precedence(stable, pre) == Precedence::Higher,
        precedence(pre, stable) == Precedence::Lower,
{
}

/// Orders two numbers.
pub fn order_numbers(a: u64, b: u64) -> (r: Precedence)
    ensures
        r == numeric(a as nat, b as nat),
{
    if a < b {
        Precedence::Lower
    } else if a > b {
        Precedence::Higher
    } else {
        Precedence::Same
    }
}

/// Orders two byte strings.
pub fn order_bytes(a: &[u8], b: &[u8]) -> (r: Precedence)
    ensures
        r == lexical(a@, b@),
{
    let mut i: usize = 0;
    assert(a@.skip(0) =~= a@ && b@.skip(0) =~= b@);
    loop
        invariant
            i <= a@.len(),
            i <= b@.len(),
            lexical(a@, b@) == lexical(a@.skip(i as int), b@.skip(i as int)),
        decreases a@.len() - i,
    {
        if i == a.len() {
            if i == b.len() {
                return Precedence::Same;
            }
            return Precedence::Lower;
        }
        if i == b.len() {
            return Precedence::Higher;
        }
        if a[i] < b[i] {
            return Precedence::Lower;
        }
        if a[i] > b[i] {
            return Precedence::Higher;
        }
        assert(a@.skip(i as int).drop_first() =~= a@.skip(i + 1));
        assert(b@.skip(i as int).drop_first() =~= b@.skip(i + 1));
        i = i + 1;
    }
}

/// Orders two pre-release tags, an empty tag standing for "none".
pub fn order_tags(a: &[u8], b: &[u8]) -> (r: Precedence)
    ensures
        r == tag_precedence(a@, b@),
{
    if a.len() == 0 && b.len() == 0 {
        Precedence::Same
    } else if a.len() == 0 {
        Precedence::Higher
    } else if b.len() == 0 {
        Precedence::Lower
    } else {
        order_bytes(a, b)
    }
}

/// Orders two versions.
pub fn order_versions(a: &Version, b: &Version) -> (r: Precedence)
    ensures
        r == precedence(a@, b@),
{
    let by_major: Precedence = order_numbers(a.major(), b.major());
    if by_major != Precedence::Same {
        return by_major;
    }
    let by_minor: Precedence = order_numbers(a.minor(), b.minor());
    if by_minor != Precedence::Same {
        return by_minor;
    }
    let by_patch: Precedence = order_numbers(a.patch(), b.patch());
    if by_patch != Precedence::Same {
        return by_patch;
    }
    order_tags(a.pre(), b.pre())
}

} // verus!
