//! The install record: the marker inside the install target that says what is
//! installed there.
//!
//! The record is a text of two lines: the version of the product, then the
//! version of the tool that installed it. A reader looks at these two lines
//! only, so that later tools may add lines of their own behind them.

use crate::bytes::{
    append, before, behind, find_byte, lacks, lemma_position_is_first, lemma_split_joined,
    position,
};
use crate::version::{
    law_text_round_trip, lemma_text_bytes, version_of, Version, VersionView,
};
use vstd::prelude::*;

verus! {

/// The byte that ends a line.
pub const LINE_FEED: u8 = 10;

/// What is installed, and by which version of the tool.
#[derive(Debug, PartialEq, Eq)]
pub struct InstallRecord {
    pub version: Version,
    pub tool_version: Version,
}

/// An `InstallRecord` as contracts see it.
pub struct InstallRecordView {
    pub version: VersionView,
    pub tool_version: VersionView,
}

impl View for InstallRecord {
    type V = InstallRecordView;

    open spec fn view(&self) -> InstallRecordView {
        InstallRecordView { version: self.version@, tool_version: self.tool_version@ }
    }
}

impl InstallRecordView {
    /// Both versions are well-formed.
    pub open spec fn well_formed(self) -> bool {
        self.version.well_formed() && self.tool_version.well_formed()
    }

    /// The way the record is written.
    pub open spec fn text(self) -> Seq<u8> {
        self.version.text() + seq![LINE_FEED] + self.tool_version.text() + seq![LINE_FEED]
    }
}

/// Whether `s` starts with the text of `record`.
pub open spec fn starts_with_record(s: Seq<u8>, record: InstallRecordView) -> bool {
    record.well_formed() && record.text().is_prefix_of(s)
}

/// The record that `s` holds, if it holds one: the record whose text `s`
/// starts with.
pub open spec fn record_of(s: Seq<u8>) -> Option<InstallRecordView> {
    if exists|r: InstallRecordView| #[trigger] starts_with_record(s, r) {
        Some(choose|r: InstallRecordView| #[trigger] starts_with_record(s, r))
    } else {
        None
    }
}

/// How a record is read: the first two lines, each as a version.
closed spec fn read(s: Seq<u8>) -> Option<InstallRecordView> {
    let a = position(s, LINE_FEED);
    let rest = s.skip(a + 1);
    let b = position(rest, LINE_FEED);
    if a < s.len() && b < rest.len() {
        match (version_of(s.take(a)), version_of(rest.take(b))) {
            (Some(version), Some(tool_version)) => Some(
                InstallRecordView { version, tool_version },
            ),
            _ => None,
        }
    } else {
        None
    }
}

/// What is read from a text is a record that the text starts with.
proof fn lemma_read_sound(s: Seq<u8>)
    requires
        read(s) is Some,
    ensures
        starts_with_record(s, read(s)->0),
{
    let r = read(s)->0;
    let a = position(s, LINE_FEED);
    let rest = s.skip(a + 1);
    let b = position(rest, LINE_FEED);
    lemma_position_is_first(s, LINE_FEED);
    lemma_position_is_first(rest, LINE_FEED);
    let t = r.text();
    assert(t =~= s.take(a + 1 + b + 1));
}

/// A text that starts with a record is read as that record.
proof fn lemma_read_complete(s: Seq<u8>, r: InstallRecordView)
    requires
        starts_with_record(s, r),
    ensures
        read(s) == Some(r),
{
    let first = r.version.text();
    let second = r.tool_version.text();
    let t = r.text();
    let tail = s.skip(t.len() as int);
    lemma_text_bytes(r.version);
    lemma_text_bytes(r.tool_version);
    assert(lacks(first, LINE_FEED));
    assert(lacks(second, LINE_FEED));
    let rest = second + seq![LINE_FEED] + tail;
    assert(s =~= first + seq![LINE_FEED] + rest) by {
        assert(s =~= t + tail);
    }
    lemma_split_joined(first, LINE_FEED, rest);
    lemma_split_joined(second, LINE_FEED, tail);
    law_text_round_trip(r.version);
    law_text_round_trip(r.tool_version);
}

/// Reading finds the record that a text starts with.
proof fn lemma_read_is_record_of(s: Seq<u8>)
    ensures
        read(s) == record_of(s),
{
    if read(s) is Some {
        lemma_read_sound(s);
        lemma_read_complete(s, record_of(s)->0);
    } else {
        if exists|r: InstallRecordView| #[trigger] starts_with_record(s, r) {
            let r = choose|r: InstallRecordView| #[trigger] starts_with_record(s, r);
            lemma_read_complete(s, r);
        }
    }
}

/// A record is read back from its own text, whatever follows the text.
pub proof fn law_record_round_trip(r: InstallRecordView, rest: Seq<u8>)
    requires
        r.well_formed(),
    ensures
        record_of(r.text() + rest) == Some(r),
        record_of(r.text()) == Some(r),
{
    let s = r.text() + rest;
    assert(r.text().is_prefix_of(s));
    lemma_read_complete(s, r);
    lemma_read_is_record_of(s);
    assert(r.text().is_prefix_of(r.text()));
    lemma_read_complete(r.text(), r);
    lemma_read_is_record_of(r.text());
}

impl InstallRecord {
    /// A second copy of the record.
    pub fn duplicate(&self) -> (r: InstallRecord)
        ensures
            r@ == self@,
    {
        InstallRecord {
            version: self.version.duplicate(),
            tool_version: self.tool_version.duplicate(),
        }
    }

    /// Writes the record.
    pub fn encode(&self) -> (out: Vec<u8>)
        ensures
            out@ == self@.text(),
            record_of(out@) == Some(self@),
    {
        let mut out: Vec<u8> = self.version.to_bytes();
        out.push(LINE_FEED);
        let tool: Vec<u8> = self.tool_version.to_bytes();
        append(&mut out, tool.as_slice());
        out.push(LINE_FEED);
        proof {
            use_type_invariant(&self.version);
            use_type_invariant(&self.tool_version);
            law_record_round_trip(self@, Seq::empty());
        }
        out
    }

    /// Reads the record that `input` starts with; `None` where it starts
    /// with none.
    pub fn decode(input: &[u8]) -> (r: Option<InstallRecord>)
        ensures
            match r {
                Some(record) => record_of(input@) == Some(record@),
                None => record_of(input@) is None,
            },
    {
        proof {
            lemma_read_is_record_of(input@);
        }
        let a: usize = find_byte(input, LINE_FEED);
        if a == input.len() {
            return None;
        }
        let rest: &[u8] = behind(input, a);
        let b: usize = find_byte(rest, LINE_FEED);
        if b == rest.len() {
            return None;
        }
        let version: Version = match Version::parse_exact(before(input, a)) {
            Ok(v) => v,
            Err(_) => { return None; },
        };
        let tool_version: Version = match Version::parse_exact(before(rest, b)) {
            Ok(v) => v,
            Err(_) => { return None; },
        };
        Some(InstallRecord { version, tool_version })
    }
}

} // verus!
