//! Package versions: a totally ordered `major.minor.patch` triple,
//! its textual form, and maximum-version selection over index entries
//! and over locally installed version directories.

use crate::text::{
    dec_rep, dec_val, find_char_from, find_from, is_u32_digits, parse_u32_range, push_char,
    push_decimal, str_eq, u32_to_string,
};
use vstd::prelude::*;
use vstd::string::StrSliceExecFns;

verus! {

/// A version triple; `"1.2.0"` names major 1, minor 2, patch 0.
#[derive(Clone, Copy, PartialEq, Eq, Structural, Debug)]
pub struct PackageVersion {
    pub major: u32,
    pub minor: u32,
    pub patch: u32,
}

/// The total lexicographic order on version triples.
pub open spec fn version_le(a: PackageVersion, b: PackageVersion) -> bool {
    a.major < b.major || (a.major == b.major && (a.minor < b.minor || (a.minor == b.minor
        && a.patch <= b.patch)))
}

/// The textual form `major.minor.patch`.
pub open spec fn version_chars(v: PackageVersion) -> Seq<char> {
    dec_rep(v.major as nat) + seq!['.'] + dec_rep(v.minor as nat) + seq!['.'] + dec_rep(
        v.patch as nat,
    )
}

/// A version string parses when it is exactly three dot-separated
/// decimal components, each in `u32` range.
pub open spec fn spec_parse_version(s: Seq<char>) -> Option<PackageVersion> {
    let d1 = find_from(s, '.', 0);
    if d1 < s.len() {
        let d2 = find_from(s, '.', d1 + 1);
        if d2 < s.len() {
            let d3 = find_from(s, '.', d2 + 1);
            if d3 == s.len() && is_u32_digits(s.subrange(0, d1)) && is_u32_digits(
                s.subrange(d1 + 1, d2),
            ) && is_u32_digits(s.subrange(d2 + 1, s.len() as int)) {
                Some(
                    PackageVersion {
                        major: dec_val(s.subrange(0, d1)) as u32,
                        minor: dec_val(s.subrange(d1 + 1, d2)) as u32,
                        patch: dec_val(s.subrange(d2 + 1, s.len() as int)) as u32,
                    },
                )
            } else {
                None
            }
        } else {
            None
        }
    } else {
        None
    }
}

impl PackageVersion {
    /// Is `self` at most `other` in the version order?
    pub fn le(&self, other: &PackageVersion) -> (r: bool)
        ensures
            r == version_le(*self, *other),
    {
        self.major < other.major || (self.major == other.major && (self.minor < other.minor || (
        self.minor == other.minor && self.patch <= other.patch)))
    }

    /// Renders the version as `major.minor.patch`.
    pub fn to_version_string(&self) -> (r: String)
        ensures
            r@ == version_chars(*self),
    {
        let mut s = u32_to_string(self.major);
        push_char(&mut s, '.');
        push_decimal(&mut s, self.minor);
        push_char(&mut s, '.');
        push_decimal(&mut s, self.patch);
        proof {
            assert(s@ =~= version_chars(*self));
        }
        s
    }
}

/// Parses a version string; `None` exactly when it is not three
/// dot-separated in-range decimal components.
pub fn parse_version(s: &str) -> (r: Option<PackageVersion>)
    ensures
        r == spec_parse_version(s@),
{
    let n = s.unicode_len();
    let d1 = find_char_from(s, '.', 0);
    if d1 == n {
        return None;
    }
    let d2 = find_char_from(s, '.', d1 + 1);
    if d2 == n {
        return None;
    }
    let d3 = find_char_from(s, '.', d2 + 1);
    if d3 != n {
        return None;
    }
    let major = match parse_u32_range(s, 0, d1) {
        Some(v) => v,
        None => {
            return None;
        },
    };
    let minor = match parse_u32_range(s, d1 + 1, d2) {
        Some(v) => v,
        None => {
            return None;
        },
    };
    let patch = match parse_u32_range(s, d2 + 1, n) {
        Some(v) => v,
        None => {
            return None;
        },
    };
    Some(PackageVersion { major, minor, patch })
}

/// One record of the remote package index.
#[derive(Debug, PartialEq, Eq)]
pub struct PackageInfo {
    pub name: String,
    pub version: PackageVersion,
}

/// Does any entry carry this package name?
pub open spec fn index_has_name(entries: Seq<PackageInfo>, name: Seq<char>) -> bool {
    exists|i: int| 0 <= i < entries.len() && entries[i].name@ == name
}

/// `v` is the version of some entry named `name`, and no entry named
/// `name` carries a greater version.
pub open spec fn is_latest_in_index(entries: Seq<PackageInfo>, name: Seq<char>, v: PackageVersion) -> bool {
    &&& exists|i: int| 0 <= i < entries.len() && entries[i].name@ == name && entries[i].version
        == v
    &&& forall|i: int|
        0 <= i < entries.len() && entries[i].name@ == name ==> version_le(entries[i].version, v)
}

/// The maximum version among index entries whose name matches.
pub fn latest_in_index(entries: &Vec<PackageInfo>, name: &str) -> (r: Option<PackageVersion>)
    ensures
        match r {
            Some(v) => is_latest_in_index(entries@, name@, v),
            None => !index_has_name(entries@, name@),
        },
{
    let mut best: Option<PackageVersion> = None;
    let mut i: usize = 0;
    while i < entries.len()
        invariant
            i <= entries@.len(),
            match best {
                Some(v) => is_latest_in_index(entries@.take(i as int), name@, v),
                None => !index_has_name(entries@.take(i as int), name@),
            },
        decreases entries@.len() - i,
    {
        let ghost prefix = entries@.take(i as int);
        let ghost prefix1 = entries@.take(i + 1);
        proof {
            assert(prefix1.drop_last() =~= prefix);
            assert(prefix1.last() == entries@[i as int]);
            assert(forall|j: int| 0 <= j < i ==> prefix1[j] == entries@[j]);
            assert(forall|j: int| 0 <= j < i ==> prefix[j] == entries@[j]);
        }
        if str_eq(entries[i].name.as_str(), name) {
            let candidate = entries[i].version;
            match best {
                None => {
                    best = Some(candidate);
                },
                Some(b) => {
                    if b.le(&candidate) {
                        best = Some(candidate);
                    }
                },
            }
        }
        i += 1;
    }
    proof {
        assert(entries@.take(entries@.len() as int) =~= entries@);
    }
    best
}

/// Is any name in the list a well-formed version?
pub open spec fn names_have_version(names: Seq<String>) -> bool {
    exists|i: int| 0 <= i < names.len() && spec_parse_version(names[i]@) is Some
}

/// `v` parses from some name, and every name that parses is at most `v`.
pub open spec fn is_latest_of_names(names: Seq<String>, v: PackageVersion) -> bool {
    &&& exists|i: int| 0 <= i < names.len() && spec_parse_version(names[i]@) == Some(v)
    &&& forall|i: int|
        0 <= i < names.len() ==> (#[trigger] spec_parse_version(names[i]@) matches Some(w)
            ==> version_le(w, v))
}

/// The maximum version among directory names that parse as versions;
/// names that do not parse are ignored.
pub fn latest_of_names(names: &Vec<String>) -> (r: Option<PackageVersion>)
    ensures
        match r {
            Some(v) => is_latest_of_names(names@, v),
            None => !names_have_version(names@),
        },
{
    let mut best: Option<PackageVersion> = None;
    let mut i: usize = 0;
    while i < names.len()
        invariant
            i <= names@.len(),
            match best {
                Some(v) => is_latest_of_names(names@.take(i as int), v),
                None => !names_have_version(names@.take(i as int)),
            },
        decreases names@.len() - i,
    {
        let ghost prefix = names@.take(i as int);
        let ghost prefix1 = names@.take(i + 1);
        proof {
            assert(prefix1.drop_last() =~= prefix);
            assert(prefix1.last() == names@[i as int]);
            assert(forall|j: int| 0 <= j < i ==> prefix1[j] == names@[j]);
            assert(forall|j: int| 0 <= j < i ==> prefix[j] == names@[j]);
        }
        match parse_version(names[i].as_str()) {
            None => {},
            Some(candidate) => {
                match best {
                    None => {
                        best = Some(candidate);
                    },
                    Some(b) => {
                        if b.le(&candidate) {
                            best = Some(candidate);
                        }
                    },
                }
            },
        }
        i += 1;
    }
    proof {
        assert(names@.take(names@.len() as int) =~= names@);
    }
    best
}

} // verus!
