//! Latest-version resolution: from the remote package index for the
//! `preview` namespace, from locally installed version directories for
//! every other namespace.  The caller performs the transfer or the
//! directory listing and hands the outcome in as evidence.

use crate::pkg::{versionless_display, VersionlessPackageSpec};
use crate::version::{
    index_has_name, is_latest_in_index, is_latest_of_names, latest_in_index, latest_of_names,
    names_have_version, PackageInfo, PackageVersion,
};
use vstd::prelude::*;
use vstd::string::StringExecFns;

verus! {

/// What fetching and parsing the remote package index produced.
pub enum IndexFetchOutcome {
    /// The document arrived and parsed into records.
    Parsed(Vec<PackageInfo>),
    /// The endpoint answered with a non-success HTTP status.
    Status { code: u16, message: String },
    /// A transport-level failure, with its message.
    Transport { message: String },
    /// The body arrived but was not a valid index document.
    Malformed { message: String },
}

/// The error text that an index fetch outcome yields, or `None` when
/// the outcome carries records.
pub open spec fn index_fetch_error(o: IndexFetchOutcome) -> Option<Seq<char>> {
    match o {
        IndexFetchOutcome::Parsed(_) => None,
        IndexFetchOutcome::Status { code, message } => Some(
            if code == 404 {
                "failed to fetch package index (not found)"@
            } else {
                "failed to fetch package index ("@ + message@ + ")"@
            },
        ),
        IndexFetchOutcome::Transport { message } => Some(
            "failed to fetch package index ("@ + message@ + ")"@,
        ),
        IndexFetchOutcome::Malformed { message } => Some(
            "failed to parse package index: "@ + message@,
        ),
    }
}

/// Turns an index fetch outcome into the records or the exact
/// descriptive error.
pub fn index_result(outcome: IndexFetchOutcome) -> (r: Result<Vec<PackageInfo>, String>)
    ensures
        outcome matches IndexFetchOutcome::Parsed(l) ==> r == Ok::<Vec<PackageInfo>, String>(l),
        index_fetch_error(outcome) matches Some(msg) ==> (r matches Err(m) && m@ == msg),
{
    match outcome {
        IndexFetchOutcome::Parsed(list) => Ok(list),
        IndexFetchOutcome::Status { code, message } => {
            if code == 404 {
                Err(String::from_str("failed to fetch package index (not found)"))
            } else {
                let mut m = String::from_str("failed to fetch package index (");
                m.append(message.as_str());
                m.append(")");
                proof {
                    assert(m@ =~= "failed to fetch package index ("@ + message@ + ")"@);
                }
                Err(m)
            }
        },
        IndexFetchOutcome::Transport { message } => {
            let mut m = String::from_str("failed to fetch package index (");
            m.append(message.as_str());
            m.append(")");
            proof {
                assert(m@ =~= "failed to fetch package index ("@ + message@ + ")"@);
            }
            Err(m)
        },
        IndexFetchOutcome::Malformed { message } => {
            let mut m = String::from_str("failed to parse package index: ");
            m.append(message.as_str());
            proof {
                assert(m@ =~= "failed to parse package index: "@ + message@);
            }
            Err(m)
        },
    }
}

/// The evidence a latest-version query works from: the index fetch
/// outcome for `preview`, the version-directory names otherwise.
pub enum VersionEvidence {
    RemoteIndex(IndexFetchOutcome),
    LocalVersionNames(Vec<String>),
}

/// Tries to determine the latest version of a package.
///
/// For the `preview` namespace the answer is the maximum version among
/// index entries whose name matches; every fetch failure and an absent
/// name yield descriptive errors.  For any other namespace the answer
/// is the maximum over the locally installed version directories whose
/// names parse as versions.
pub fn determine_latest_version(spec: &VersionlessPackageSpec, evidence: VersionEvidence) -> (r:
    Result<PackageVersion, String>)
    requires
        (spec.namespace@ == "preview"@) <==> evidence is RemoteIndex,
    ensures
        evidence matches VersionEvidence::RemoteIndex(o) ==> {
            &&& (index_fetch_error(o) matches Some(msg) ==> (r matches Err(m) && m@ == msg))
            &&& (o matches IndexFetchOutcome::Parsed(entries) ==> {
                &&& (r is Ok) == index_has_name(entries@, spec.name@)
                &&& (r matches Ok(v) ==> is_latest_in_index(entries@, spec.name@, v))
                &&& (r matches Err(m) ==> m@ == "failed to find package "@ + versionless_display(
                    *spec,
                ))
            })
        },
        evidence matches VersionEvidence::LocalVersionNames(names) ==> {
            &&& (r is Ok) == names_have_version(names@)
            &&& (r matches Ok(v) ==> is_latest_of_names(names@, v))
            &&& (r matches Err(m) ==> m@ == "please specify the desired version"@)
        },
{
    match evidence {
        VersionEvidence::RemoteIndex(outcome) => {
            match index_result(outcome) {
                Err(m) => Err(m),
                Ok(entries) => {
                    match latest_in_index(&entries, spec.name.as_str()) {
                        Some(v) => Ok(v),
                        None => {
                            let mut m = String::from_str("failed to find package ");
                            let shown = spec.display();
                            m.append(shown.as_str());
                            proof {
                                assert(m@ =~= "failed to find package "@ + versionless_display(
                                    *spec,
                                ));
                            }
                            Err(m)
                        },
                    }
                },
            }
        },
        VersionEvidence::LocalVersionNames(names) => {
            match latest_of_names(&names) {
                Some(v) => Ok(v),
                None => Err(String::from_str("please specify the desired version")),
            }
        },
    }
}

} // verus!
