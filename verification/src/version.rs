//! Versions: their grammar, their text, and the request for "whatever is
//! newest".

use crate::bytes::{
    append, before, behind, copy_of, find_byte, lacks, lemma_position_is_first, lemma_rejoin,
    lemma_split_absent, lemma_split_joined, position, same_bytes,
};
use crate::error::InstallError;
use crate::numeral::{
    all_digits, decimal, is_digit, is_numeral, lemma_decimal_denotes, lemma_numeral_is_decimal,
    numeral_value, read_numeral, write_decimal, NINE, ZERO,
};
use vstd::prelude::*;

verus! {

/// The byte `.`, which separates numbers and identifiers.
pub const DOT: u8 = 46;

/// The byte `-`, which introduces the pre-release tag.
pub const HYPHEN: u8 = 45;

/// The byte `+`, which introduces the build tag.
pub const PLUS: u8 = 43;

/// Whether `b` may stand in an identifier: a digit, an ASCII letter or a hyphen.
pub open spec fn is_tag_byte(b: u8) -> bool {
    is_digit(b) || 65 <= b <= 90 || 97 <= b <= 122 || b == HYPHEN
}

/// Whether every byte of `s` may stand in an identifier.
pub open spec fn all_tag_bytes(s: Seq<u8>) -> bool {
    forall|i: int| 0 <= i < s.len() ==> is_tag_byte(#[trigger] s[i])
}

/// An identifier is a non-empty run of identifier bytes. Where `strict`, one
/// made of digits alone must be a numeral: no superfluous leading zero.
pub open spec fn is_identifier(s: Seq<u8>, strict: bool) -> bool {
    &&& s.len() > 0
    &&& all_tag_bytes(s)
    &&& strict && all_digits(s) ==> is_numeral(s)
}

/// A tag is one identifier, or several with a dot between each two.
/// Pre-release tags are `strict`, build tags are not.
pub open spec fn is_tag(s: Seq<u8>, strict: bool) -> bool
    decreases s.len(),
{
    let k = position(s, DOT);
    &&& is_identifier(s.take(k), strict)
    &&& if 0 <= k < s.len() {
        is_tag(s.skip(k + 1), strict)
    } else {
        true
    }
}

/// Checks `s` against the grammar of identifiers.
pub fn check_identifier(s: &[u8], strict: bool) -> (r: bool)
    ensures
        r == is_identifier(s@, strict),
{
    let n: usize = s.len();
    if n == 0 {
        return false;
    }
    let mut numeric: bool = true;
    let mut i: usize = 0;
    while i < n
        invariant
            i <= n == s@.len(),
            all_tag_bytes(s@.take(i as int)),
            numeric == all_digits(s@.take(i as int)),
        decreases n - i,
    {
        let b: u8 = s[i];
        let ghost seen = s@.take(i as int);
        let ghost next = s@.take(i + 1);
        assert(next =~= seen.push(b));
        let digit: bool = ZERO <= b && b <= NINE;
        let letter: bool = (65 <= b && b <= 90) || (97 <= b && b <= 122);
        if !(digit || letter || b == HYPHEN) {
            assert(!is_tag_byte(s@[i as int]));
            return false;
        }
        proof {
            assert forall|j: int| 0 <= j < next.len() implies is_tag_byte(#[trigger] next[j]) by {
                if j < seen.len() {
                    assert(next[j] == seen[j]);
                }
            }
            if numeric && digit {
                assert forall|j: int| 0 <= j < next.len() implies is_digit(#[trigger] next[j]) by {
                    if j < seen.len() {
                        assert(next[j] == seen[j]);
                    }
                }
            } else if !digit {
                assert(!is_digit(next[i as int]));
            } else {
                let j = choose|j: int| 0 <= j < seen.len() && !is_digit(#[trigger] seen[j]);
                assert(next[j] == seen[j]);
            }
        }
        numeric = numeric && digit;
        i = i + 1;
    }
    assert(s@.take(n as int) =~= s@);
    !(strict && numeric && n > 1 && s[0] == ZERO)
}

/// Checks `s` against the grammar of tags.
pub fn check_tag(s: &[u8], strict: bool) -> (r: bool)
    ensures
        r == is_tag(s@, strict),
{
    let mut rest: &[u8] = s;
    loop
        invariant
            is_tag(rest@, strict) == is_tag(s@, strict),
        decreases rest@.len(),
    {
        let k: usize = find_byte(rest, DOT);
        if !check_identifier(before(rest, k), strict) {
            return false;
        }
        if k == rest.len() {
            return true;
        }
        rest = behind(rest, k);
    }
}

/// Every byte of a tag is an identifier byte or a dot.
pub proof fn lemma_tag_bytes(s: Seq<u8>, strict: bool)
    requires
        is_tag(s, strict),
    ensures
        s.len() > 0,
        forall|i: int| 0 <= i < s.len() ==> is_tag_byte(#[trigger] s[i]) || s[i] == DOT,
    decreases s.len(),
{
    let k = position(s, DOT);
    lemma_position_is_first(s, DOT);
    if k < s.len() {
        lemma_tag_bytes(s.skip(k + 1), strict);
    }
    assert forall|i: int| 0 <= i < s.len() implies is_tag_byte(#[trigger] s[i]) || s[i] == DOT by {
        if i < k {
            assert(s.take(k)[i] == s[i]);
        } else if i > k {
            assert(s.skip(k + 1)[i - k - 1] == s[i]);
        }
    }
}

/// A version as contracts see it: three numbers and two tags, an empty tag
/// standing for "none".
pub struct VersionView {
    pub major: nat,
    pub minor: nat,
    pub patch: nat,
    pub pre: Seq<u8>,
    pub build: Seq<u8>,
}

impl VersionView {
    /// The numbers fit 64 bits, and each tag that is present follows the
    /// grammar of tags.
    pub open spec fn well_formed(self) -> bool {
        &&& self.major <= u64::MAX
        &&& self.minor <= u64::MAX
        &&& self.patch <= u64::MAX
        &&& self.pre.len() > 0 ==> is_tag(self.pre, true)
        &&& self.build.len() > 0 ==> is_tag(self.build, false)
    }

    /// The three numbers, written with a dot between each two.
    pub open spec fn core_text(self) -> Seq<u8> {
        decimal(self.major) + seq![DOT] + decimal(self.minor) + seq![DOT] + decimal(self.patch)
    }

    /// The pre-release tag behind its hyphen, or nothing.
    pub open spec fn pre_text(self) -> Seq<u8> {
        if self.pre.len() > 0 {
            seq![HYPHEN] + self.pre
        } else {
            Seq::empty()
        }
    }

    /// The build tag behind its plus sign, or nothing.
    pub open spec fn build_text(self) -> Seq<u8> {
        if self.build.len() > 0 {
            seq![PLUS] + self.build
        } else {
            Seq::empty()
        }
    }

    /// The way the version is written.
    pub open spec fn text(self) -> Seq<u8> {
        self.core_text() + self.pre_text() + self.build_text()
    }
}

/// The bytes that occur in the text of a version.
pub open spec fn is_version_byte(b: u8) -> bool {
    is_tag_byte(b) || b == DOT || b == PLUS
}

/// The text of a well-formed version holds no other bytes than digits,
/// letters, hyphens, dots and plus signs, and starts with a digit.
pub proof fn lemma_text_bytes(v: VersionView)
    requires
        v.well_formed(),
    ensures
        v.text().len() > 0,
        is_digit(v.text()[0]),
        forall|i: int| 0 <= i < v.text().len() ==> is_version_byte(#[trigger] v.text()[i]),
{
    lemma_decimal_denotes(v.major);
    lemma_decimal_denotes(v.minor);
    lemma_decimal_denotes(v.patch);
    if v.pre.len() > 0 {
        lemma_tag_bytes(v.pre, true);
    }
    if v.build.len() > 0 {
        lemma_tag_bytes(v.build, false);
    }
    let core = v.core_text();
    assert forall|i: int| 0 <= i < core.len() implies is_version_byte(#[trigger] core[i]) by {}
    let head = core + v.pre_text();
    assert forall|i: int| 0 <= i < head.len() implies is_version_byte(#[trigger] head[i]) by {
        if i >= core.len() {
            assert(head[i] == v.pre_text()[i - core.len()]);
        }
    }
    let s = v.text();
    assert forall|i: int| 0 <= i < s.len() implies is_version_byte(#[trigger] s[i]) by {
        if i >= head.len() {
            assert(s[i] == v.build_text()[i - head.len()]);
        } else {
            assert(s[i] == head[i]);
        }
    }
    assert(s[0] == decimal(v.major)[0]);
}

/// The version that `s` writes, if it writes one.
pub open spec fn version_of(s: Seq<u8>) -> Option<VersionView> {
    if exists|v: VersionView| v.well_formed() && #[trigger] v.text() == s {
        Some(choose|v: VersionView| v.well_formed() && #[trigger] v.text() == s)
    } else {
        None
    }
}

/// How a version is read: cut off the build tag at the first plus sign, then
/// the pre-release tag at the first hyphen, then the numbers at the dots.
pub closed spec fn read(s: Seq<u8>) -> Option<VersionView> {
    let p = position(s, PLUS);
    let head = s.take(p);
    let h = position(head, HYPHEN);
    let core = head.take(h);
    let d1 = position(core, DOT);
    let rest = core.skip(d1 + 1);
    let d2 = position(rest, DOT);
    let major = core.take(d1);
    let minor = rest.take(d2);
    let patch = rest.skip(d2 + 1);
    let pre = if h < head.len() {
        head.skip(h + 1)
    } else {
        Seq::empty()
    };
    let build = if p < s.len() {
        s.skip(p + 1)
    } else {
        Seq::empty()
    };
    if d1 < core.len() && d2 < rest.len() && is_numeral(major) && is_numeral(minor) && is_numeral(
        patch,
    ) && numeral_value(major) <= u64::MAX && numeral_value(minor) <= u64::MAX && numeral_value(
        patch,
    ) <= u64::MAX && (h < head.len() ==> is_tag(pre, true)) && (p < s.len() ==> is_tag(
        build,
        false,
    )) {
        Some(
            VersionView {
                major: numeral_value(major),
                minor: numeral_value(minor),
                patch: numeral_value(patch),
                pre,
                build,
            },
        )
    } else {
        None
    }
}

/// What is read from a text is well-formed and written as that text.
proof fn lemma_read_sound(s: Seq<u8>)
    requires
        read(s) is Some,
    ensures
        read(s)->0.well_formed(),
        read(s)->0.text() == s,
{
    let v = read(s)->0;
    let p = position(s, PLUS);
    let head = s.take(p);
    let h = position(head, HYPHEN);
    let core = head.take(h);
    let d1 = position(core, DOT);
    let rest = core.skip(d1 + 1);
    let d2 = position(rest, DOT);
    lemma_position_is_first(s, PLUS);
    lemma_position_is_first(head, HYPHEN);
    lemma_position_is_first(core, DOT);
    lemma_position_is_first(rest, DOT);
    lemma_numeral_is_decimal(core.take(d1));
    lemma_numeral_is_decimal(rest.take(d2));
    lemma_numeral_is_decimal(rest.skip(d2 + 1));
    lemma_rejoin(rest, d2);
    lemma_rejoin(core, d1);
    assert(core == v.core_text()) by {
        assert(core =~= v.core_text());
    }
    if h < head.len() {
        lemma_rejoin(head, h);
        lemma_tag_bytes(v.pre, true);
        assert(head =~= core + v.pre_text());
    } else {
        assert(head =~= core + v.pre_text());
    }
    if p < s.len() {
        lemma_rejoin(s, p);
        lemma_tag_bytes(v.build, false);
        assert(s =~= head + v.build_text());
    } else {
        assert(s =~= head + v.build_text());
    }
}

/// The text of a well-formed version is read as that version.
proof fn lemma_read_complete(v: VersionView)
    requires
        v.well_formed(),
    ensures
        read(v.text()) == Some(v),
{
    let s = v.text();
    let major = decimal(v.major);
    let minor = decimal(v.minor);
    let patch = decimal(v.patch);
    let core = v.core_text();
    let head = core + v.pre_text();
    lemma_decimal_denotes(v.major);
    lemma_decimal_denotes(v.minor);
    lemma_decimal_denotes(v.patch);
    assert(lacks(major, DOT) && lacks(minor, DOT) && lacks(patch, DOT));
    assert(lacks(core, PLUS) && lacks(core, HYPHEN));
    if v.pre.len() > 0 {
        lemma_tag_bytes(v.pre, true);
    }
    assert(lacks(head, PLUS));
    let p = position(s, PLUS);
    if v.build.len() > 0 {
        assert(s =~= head + seq![PLUS] + v.build);
        lemma_split_joined(head, PLUS, v.build);
        assert(p < s.len());
        assert(s.skip(p + 1) == v.build);
    } else {
        assert(s =~= head);
        lemma_split_absent(head, PLUS);
        assert(s.take(s.len() as int) =~= s);
        assert(p == s.len());
        assert(v.build =~= Seq::<u8>::empty());
    }
    assert(s.take(p) == head);
    let h = position(head, HYPHEN);
    if v.pre.len() > 0 {
        assert(head =~= core + seq![HYPHEN] + v.pre);
        lemma_split_joined(core, HYPHEN, v.pre);
        assert(h < head.len());
        assert(head.skip(h + 1) == v.pre);
    } else {
        assert(head =~= core);
        lemma_split_absent(core, HYPHEN);
        assert(head.take(head.len() as int) =~= head);
        assert(h == head.len());
        assert(v.pre =~= Seq::<u8>::empty());
    }
    assert(head.take(h) == core);
    let rest = minor + seq![DOT] + patch;
    assert(core =~= major + seq![DOT] + rest);
    lemma_split_joined(major, DOT, rest);
    lemma_split_joined(minor, DOT, patch);
    let d1 = position(core, DOT);
    assert(d1 == major.len() && d1 < core.len());
    assert(core.take(d1) == major);
    assert(core.skip(d1 + 1) == rest);
    let d2 = position(rest, DOT);
    assert(d2 == minor.len() && d2 < rest.len());
    assert(rest.take(d2) == minor);
    assert(rest.skip(d2 + 1) == patch);
}

/// Reading is the inverse of writing.
proof fn lemma_read_is_version_of(s: Seq<u8>)
    ensures
        read(s) == version_of(s),
{
    if read(s) is Some {
        lemma_read_sound(s);
        let v = read(s)->0;
        assert(v.well_formed() && v.text() == s);
        let w = version_of(s)->0;
        lemma_read_complete(w);
    } else {
        if exists|v: VersionView| v.well_formed() && #[trigger] v.text() == s {
            let v = choose|v: VersionView| v.well_formed() && #[trigger] v.text() == s;
            lemma_read_complete(v);
        }
    }
}

/// Reading a version back from its own text gives the version again.
pub proof fn law_text_round_trip(v: VersionView)
    requires
        v.well_formed(),
    ensures
        version_of(v.text()) == Some(v),
{
    lemma_read_complete(v);
    lemma_read_is_version_of(v.text());
}

/// Two well-formed versions that are written alike are the same version.
pub proof fn law_text_injective(a: VersionView, b: VersionView)
    requires
        a.well_formed(),
        b.well_formed(),
        a.text() == b.text(),
    ensures
        a == b,
{
    lemma_read_complete(a);
    lemma_read_complete(b);
}

/// A concrete version of the product or of the tool.
#[derive(Debug, PartialEq, Eq)]
pub struct Version {
    major: u64,
    minor: u64,
    patch: u64,
    pre: Vec<u8>,
    build: Vec<u8>,
}

impl View for Version {
    type V = VersionView;

    closed spec fn view(&self) -> VersionView {
        VersionView {
            major: self.major as nat,
            minor: self.minor as nat,
            patch: self.patch as nat,
            pre: self.pre@,
            build: self.build@,
        }
    }
}

impl Clone for Version {
    fn clone(&self) -> (r: Version)
        ensures
            r@ == self@,
    {
        self.duplicate()
    }
}

impl Version {
    /// What holds of every version that a program can hold.
    #[verifier::type_invariant]
    pub open spec fn valid(&self) -> bool {
        self@.well_formed()
    }

    /// Puts a version together from its parts; an empty tag stands for "none".
    /// A tag that does not follow the grammar is refused.
    pub fn new(major: u64, minor: u64, patch: u64, pre: &[u8], build: &[u8]) -> (r: Result<
        Version,
        InstallError,
    >)
        ensures
            r is Ok <==> (pre@.len() > 0 ==> is_tag(pre@, true)) && (build@.len() > 0 ==> is_tag(
                build@,
                false,
            )),
            r matches Ok(v) ==> v@ == (VersionView {
                major: major as nat,
                minor: minor as nat,
                patch: patch as nat,
                pre: pre@,
                build: build@,
            }),
            r matches Err(e) ==> e@ == crate::error::InstallErrorView::InvalidVersionFormat,
    {
        if pre.len() > 0 && !check_tag(pre, true) {
            return Err(InstallError::InvalidVersionFormat);
        }
        if build.len() > 0 && !check_tag(build, false) {
            return Err(InstallError::InvalidVersionFormat);
        }
        Ok(Version { major, minor, patch, pre: copy_of(pre), build: copy_of(build) })
    }

    /// The major number.
    pub fn major(&self) -> (n: u64)
        ensures
            n == self@.major,
    {
        self.major
    }

    /// The minor number.
    pub fn minor(&self) -> (n: u64)
        ensures
            n == self@.minor,
    {
        self.minor
    }

    /// The patch number.
    pub fn patch(&self) -> (n: u64)
        ensures
            n == self@.patch,
    {
        self.patch
    }

    /// The pre-release tag; empty where the version has none.
    pub fn pre(&self) -> (t: &[u8])
        ensures
            t@ == self@.pre,
    {
        self.pre.as_slice()
    }

    /// The build tag; empty where the version has none.
    pub fn build(&self) -> (t: &[u8])
        ensures
            t@ == self@.build,
    {
        self.build.as_slice()
    }

    /// Whether the version carries a pre-release tag.
    pub fn is_prerelease(&self) -> (r: bool)
        ensures
            r == (self@.pre.len() > 0),
    {
        self.pre.len() > 0
    }

    /// A second copy of the version.
    pub fn duplicate(&self) -> (r: Version)
        ensures
            r@ == self@,
    {
        proof {
            use_type_invariant(self);
        }
        Version {
            major: self.major,
            minor: self.minor,
            patch: self.patch,
            pre: copy_of(self.pre.as_slice()),
            build: copy_of(self.build.as_slice()),
        }
    }

    /// Whether two versions agree in every part, the build tag included.
    pub fn same(&self, other: &Version) -> (r: bool)
        ensures
            r == (self@ == other@),
    {
        self.major == other.major && self.minor == other.minor && self.patch == other.patch
            && same_bytes(self.pre.as_slice(), other.pre.as_slice()) && same_bytes(
            self.build.as_slice(),
            other.build.as_slice(),
        )
    }

    /// Writes the version. What is written reads back as the version.
    pub fn to_bytes(&self) -> (out: Vec<u8>)
        ensures
            out@ == self@.text(),
            version_of(out@) == Some(self@),
    {
        proof {
            use_type_invariant(self);
            law_text_round_trip(self@);
        }
        let mut out: Vec<u8> = Vec::new();
        write_decimal(self.major, &mut out);
        out.push(DOT);
        write_decimal(self.minor, &mut out);
        out.push(DOT);
        write_decimal(self.patch, &mut out);
        assert(out@ =~= self@.core_text());
        if self.pre.len() > 0 {
            out.push(HYPHEN);
            append(&mut out, self.pre.as_slice());
        }
        assert(out@ =~= self@.core_text() + self@.pre_text());
        if self.build.len() > 0 {
            out.push(PLUS);
            append(&mut out, self.build.as_slice());
        }
        assert(out@ =~= self@.text());
        out
    }

    /// Reads a concrete version. Succeeds on exactly the texts that write a
    /// well-formed version, and returns that version: the one that is written
    /// as `input`.
    pub fn parse_exact(input: &[u8]) -> (r: Result<Version, InstallError>)
        ensures
            match r {
                Ok(v) => version_of(input@) == Some(v@) && v@.text() == input@,
                Err(e) => version_of(input@) is None && e@
                    == crate::error::InstallErrorView::InvalidVersionFormat,
            },
    {
        proof {
            lemma_read_is_version_of(input@);
        }
        let p: usize = find_byte(input, PLUS);
        let head: &[u8] = before(input, p);
        let h: usize = find_byte(head, HYPHEN);
        let core: &[u8] = before(head, h);
        let d1: usize = find_byte(core, DOT);
        if d1 == core.len() {
            return Err(InstallError::InvalidVersionFormat);
        }
        let rest: &[u8] = behind(core, d1);
        let d2: usize = find_byte(rest, DOT);
        if d2 == rest.len() {
            return Err(InstallError::InvalidVersionFormat);
        }
        let major: u64 = match read_numeral(before(core, d1)) {
            Some(n) => n,
            None => { return Err(InstallError::InvalidVersionFormat); },
        };
        let minor: u64 = match read_numeral(before(rest, d2)) {
            Some(n) => n,
            None => { return Err(InstallError::InvalidVersionFormat); },
        };
        let patch: u64 = match read_numeral(behind(rest, d2)) {
            Some(n) => n,
            None => { return Err(InstallError::InvalidVersionFormat); },
        };
        let mut pre: Vec<u8> = Vec::new();
        if h < head.len() {
            let tag: &[u8] = behind(head, h);
            if !check_tag(tag, true) {
                return Err(InstallError::InvalidVersionFormat);
            }
            pre = copy_of(tag);
        }
        let mut build: Vec<u8> = Vec::new();
        if p < input.len() {
            let tag: &[u8] = behind(input, p);
            if !check_tag(tag, false) {
                return Err(InstallError::InvalidVersionFormat);
            }
            build = copy_of(tag);
        }
        proof {
            lemma_read_sound(input@);
        }
        Ok(Version { major, minor, patch, pre, build })
    }
}

/// What a caller may ask for: a concrete version, or whatever is newest.
#[derive(Debug, PartialEq, Eq)]
pub enum VersionRequest {
    /// The symbolic token `latest`.
    Latest,
    /// A concrete version.
    Exact(Version),
}

/// A `VersionRequest` as contracts see it.
pub enum VersionRequestView {
    Latest,
    Exact(VersionView),
}

impl View for VersionRequest {
    type V = VersionRequestView;

    open spec fn view(&self) -> VersionRequestView {
        match self {
            VersionRequest::Latest => VersionRequestView::Latest,
            VersionRequest::Exact(v) => VersionRequestView::Exact(v@),
        }
    }
}

/// The token `latest`, as bytes.
pub open spec fn latest_text() -> Seq<u8> {
    seq![108u8, 97u8, 116u8, 101u8, 115u8, 116u8]
}

impl VersionRequestView {
    /// A request is well-formed when the version it names is.
    pub open spec fn well_formed(self) -> bool {
        match self {
            VersionRequestView::Latest => true,
            VersionRequestView::Exact(v) => v.well_formed(),
        }
    }

    /// The way the request is written.
    pub open spec fn text(self) -> Seq<u8> {
        match self {
            VersionRequestView::Latest => latest_text(),
            VersionRequestView::Exact(v) => v.text(),
        }
    }
}

/// The request that `s` writes, if it writes one.
pub open spec fn request_of(s: Seq<u8>) -> Option<VersionRequestView> {
    if s == latest_text() {
        Some(VersionRequestView::Latest)
    } else {
        match version_of(s) {
            Some(v) => Some(VersionRequestView::Exact(v)),
            None => None,
        }
    }
}

/// Reading a request back from its own text gives the request again.
pub proof fn law_request_round_trip(q: VersionRequestView)
    requires
        q.well_formed(),
    ensures
        request_of(q.text()) == Some(q),
{
    match q {
        VersionRequestView::Latest => {},
        VersionRequestView::Exact(v) => {
            law_text_round_trip(v);
            lemma_text_bytes(v);
            assert(latest_text()[0] == 108u8);
        },
    }
}

/// Whether `input` is the token `latest`.
pub fn is_latest_token(input: &[u8]) -> (r: bool)
    ensures
        r == (input@ == latest_text()),
{
    if input.len() != 6 {
        return false;
    }
    let r: bool = input[0] == 108 && input[1] == 97 && input[2] == 116 && input[3] == 101
        && input[4] == 115 && input[5] == 116;
    assert(r ==> input@ =~= latest_text());
    r
}

/// Reads what the caller asked for: the token `latest`, or a concrete
/// version. Every other text is refused as `InvalidVersionFormat`.
pub fn parse(input: &[u8]) -> (r: Result<VersionRequest, InstallError>)
    ensures
        match r {
            Ok(q) => request_of(input@) == Some(q@) && q@.text() == input@,
            Err(e) => request_of(input@) is None && e@
                == crate::error::InstallErrorView::InvalidVersionFormat,
        },
{
    if is_latest_token(input) {
        return Ok(VersionRequest::Latest);
    }
    match Version::parse_exact(input) {
        Ok(v) => Ok(VersionRequest::Exact(v)),
        Err(e) => Err(e),
    }
}

} // verus!
