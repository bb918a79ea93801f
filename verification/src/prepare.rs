//! The acquisition orchestrator.  `prepare_package` starts a state
//! machine over one package coordinate; the caller performs each
//! requested action (directory existence check, archive fetch, tar
//! unpack) and feeds the outcome back through `on_event` until the
//! machine finishes with a ready directory or a typed error.
//!
//! The decision policy is verified against the transition relation
//! `step_ok`: persistent data wins over the cache, only registered
//! namespaces are fetched, a 404 is NotFound while other transport
//! failures are NetworkFailed, and a malformed archive is reported as
//! such after the caller rolls the target directory back.

use crate::mirror::{url_from_template, MirrorConfiguration, PkgMirror};
use crate::pkg::{
    join_path, package_subdir, spec_display, spec_join, spec_subdir, PackageError, PackageSpec,
};
use crate::text::str_eq;
use crate::version::version_chars;
use vstd::pervasive::unreached;
use vstd::prelude::*;
use vstd::string::StringExecFns;

verus! {

/// The platform's persistent-data and ephemeral-cache roots; either
/// may be missing on an unusual platform.
pub struct Roots {
    pub data: Option<String>,
    pub cache: Option<String>,
}

/// Relies on `dirs::data_dir`: the platform persistent-data root,
/// when the platform defines one.
#[verifier::external_body]
fn data_root() -> Option<String> {
    dirs::data_dir().map(|p| p.to_string_lossy().into_owned())
}

/// Relies on `dirs::cache_dir`: the platform cache root, when the
/// platform defines one.
#[verifier::external_body]
fn cache_root() -> Option<String> {
    dirs::cache_dir().map(|p| p.to_string_lossy().into_owned())
}

/// Relies on `dirs::config_dir`: the platform configuration root,
/// when the platform defines one.
#[verifier::external_body]
fn config_root() -> Option<String> {
    dirs::config_dir().map(|p| p.to_string_lossy().into_owned())
}

/// The two platform roots, as the standard-directories mechanism
/// reports them; which roots exist depends on the platform alone.
pub fn platform_roots() -> Roots {
    Roots { data: data_root(), cache: cache_root() }
}

/// The place where a user mirror configuration may sit:
/// `<config_root>/typst/pkg-mirror.toml`.
pub fn mirror_config_path() -> (r: Option<String>)
    ensures
        r matches Some(p) ==> exists|root: Seq<char>| p@ == spec_join(
            root,
            "typst/pkg-mirror.toml"@,
        ),
{
    match config_root() {
        None => None,
        Some(root) => {
            let p = join_path(root.as_str(), "typst/pkg-mirror.toml");
            proof {
                assert(exists|r0: Seq<char>| p@ == spec_join(r0, "typst/pkg-mirror.toml"@)) by {
                    assert(p@ == spec_join(root@, "typst/pkg-mirror.toml"@));
                }
            }
            Some(p)
        },
    }
}

/// What gzip decompression yields on given bytes: the decompressed
/// stream, or `None` when the bytes are not a valid gzip archive.
pub uninterp spec fn gunzipped(data: Seq<u8>) -> Option<Seq<u8>>;

/// Relies on flate2's `read::GzDecoder`: decompression from a byte
/// slice is a function of the input bytes alone, and invalid input is
/// reported as an error, never panicked on.
#[verifier::external_body]
fn gunzip(data: &Vec<u8>) -> (r: Result<Vec<u8>, String>)
    ensures
        r matches Ok(out) ==> gunzipped(data@) == Some(out@),
        r is Err ==> gunzipped(data@) is None,
{
    let mut decoder = flate2::read::GzDecoder::new(data.as_slice());
    let mut out = Vec::new();
    match std::io::Read::read_to_end(&mut decoder, &mut out) {
        Ok(_) => Ok(out),
        Err(e) => Err(format!("{e}")),
    }
}

/// An action the caller must perform for the machine.
pub enum Action {
    /// Does this directory exist?
    Stat(String),
    /// Download the bytes behind this URL.
    Fetch(String),
    /// Unpack these tar bytes into this directory, creating it; on
    /// failure, remove the directory (best effort) before answering.
    Unpack { dir: String, bytes: Vec<u8> },
}

/// What an archive fetch produced.
pub enum FetchOutcome {
    /// The whole body, on success.
    Bytes(Vec<u8>),
    /// A non-success HTTP status, with the transport's message.
    Status { code: u16, message: String },
    /// A transport-level failure, with its message.
    Transport { message: String },
}

/// What a tar unpack produced.
pub enum UnpackOutcome {
    Unpacked,
    Failed(String),
}

/// The caller's answer to the pending action.
pub enum Event {
    Stat(bool),
    Fetch(FetchOutcome),
    Unpack(UnpackOutcome),
}

/// What the machine asks for next: another action, or the final
/// result — the ready package directory or a typed error.
pub enum Step {
    Act(Action),
    Done(Result<String, PackageError>),
}

/// Where the machine stands: which answer it is waiting for.
#[derive(Clone, Copy)]
pub enum Phase {
    /// Waiting for the existence of the persistent-data path.
    StatData,
    /// Waiting for the existence of the cache path; the namespace is
    /// registered, so an absent path will be fetched.
    StatCacheMirror,
    /// Waiting for the existence of the cache path; the namespace is
    /// not registered, so nothing can be fetched.
    StatCacheNoMirror,
    /// Waiting for the archive bytes; `retry` marks the second,
    /// `preview`-only attempt.
    Fetching { retry: bool },
    /// Waiting for the unpack outcome.
    Unpacking { retry: bool },
    /// Waiting for the existence of the cache path after an unpack.
    StatCacheAfter { retry: bool },
    /// The run has ended.
    Finished,
}

/// The acquisition state machine for one package coordinate.
pub struct PreparePackage {
    pub spec: PackageSpec,
    pub mirrors: MirrorConfiguration,
    pub data_path: Option<String>,
    pub cache_path: Option<String>,
    pub phase: Phase,
}

impl PreparePackage {
    /// The download URL for this coordinate, when its namespace is
    /// registered.
    pub open spec fn spec_url(self) -> Seq<char> {
        match self.mirrors.template_for(self.spec.namespace@) {
            Some(t) => url_from_template(t, self.spec.name@, version_chars(self.spec.version)),
            None => Seq::<char>::empty(),
        }
    }

    /// The machine's invariant, established by `prepare_package` and
    /// preserved by `on_event`.
    pub open spec fn inv(self) -> bool {
        &&& self.mirrors.contains_ns("preview"@)
        &&& (self.phase is StatData ==> self.data_path is Some)
        &&& (self.phase is StatCacheMirror ==> self.cache_path is Some
            && self.mirrors.contains_ns(self.spec.namespace@))
        &&& (self.phase is StatCacheNoMirror ==> self.cache_path is Some
            && !self.mirrors.contains_ns(self.spec.namespace@))
        &&& (self.phase matches Phase::Fetching { retry } ==> self.cache_path is Some
            && self.mirrors.contains_ns(self.spec.namespace@) && (retry ==> self.spec.namespace@
            == "preview"@))
        &&& (self.phase matches Phase::Unpacking { retry } ==> self.cache_path is Some
            && self.mirrors.contains_ns(self.spec.namespace@) && (retry ==> self.spec.namespace@
            == "preview"@))
        &&& (self.phase matches Phase::StatCacheAfter { retry } ==> self.cache_path is Some
            && self.mirrors.contains_ns(self.spec.namespace@) && (retry ==> self.spec.namespace@
            == "preview"@))
    }

    /// Which event kind the machine is waiting for.
    pub open spec fn expects(self, e: Event) -> bool {
        match self.phase {
            Phase::StatData => e is Stat,
            Phase::StatCacheMirror => e is Stat,
            Phase::StatCacheNoMirror => e is Stat,
            Phase::Fetching { .. } => e is Fetch,
            Phase::Unpacking { .. } => e is Unpack,
            Phase::StatCacheAfter { .. } => e is Stat,
            Phase::Finished => false,
        }
    }
}

/// How a machine enters the cache-root stage: no cache root ends the
/// run with NotFound; otherwise the cache path is probed, under
/// `StatCacheMirror` exactly when the namespace is registered.
pub open spec fn enter_cache_rel(pre: PreparePackage, post: PreparePackage, r: Step) -> bool {
    match pre.cache_path {
        None => post.phase is Finished && r == Step::Done(
            Err::<String, PackageError>(PackageError::NotFound(pre.spec)),
        ),
        Some(cp) => if pre.mirrors.contains_ns(pre.spec.namespace@) {
            post.phase is StatCacheMirror && r == Step::Act(Action::Stat(cp))
        } else {
            post.phase is StatCacheNoMirror && r == Step::Act(Action::Stat(cp))
        },
    }
}

/// The transition relation of the machine: what one `on_event` call
/// does, given the state before, the event, the state after and the
/// returned step.
pub open spec fn step_ok(pre: PreparePackage, e: Event, post: PreparePackage, r: Step) -> bool {
    &&& post.spec == pre.spec
    &&& post.mirrors == pre.mirrors
    &&& post.data_path == pre.data_path
    &&& post.cache_path == pre.cache_path
    &&& match (pre.phase, e) {
        (Phase::StatData, Event::Stat(found)) => if found {
            post.phase is Finished && (pre.data_path matches Some(p) && r == Step::Done(
                Ok::<String, PackageError>(p),
            ))
        } else {
            enter_cache_rel(pre, post, r)
        },
        (Phase::StatCacheMirror, Event::Stat(found)) => if found {
            post.phase is Finished && (pre.cache_path matches Some(p) && r == Step::Done(
                Ok::<String, PackageError>(p),
            ))
        } else {
            post.phase == (Phase::Fetching { retry: false }) && (r matches Step::Act(
                Action::Fetch(u),
            ) && u@ == pre.spec_url())
        },
        (Phase::StatCacheNoMirror, Event::Stat(found)) => if found {
            post.phase is Finished && (pre.cache_path matches Some(p) && r == Step::Done(
                Ok::<String, PackageError>(p),
            ))
        } else {
            post.phase is Finished && r == Step::Done(
                Err::<String, PackageError>(PackageError::NotFound(pre.spec)),
            )
        },
        (Phase::Fetching { retry }, Event::Fetch(outcome)) => match outcome {
            FetchOutcome::Bytes(b) => match gunzipped(b@) {
                Some(out) => post.phase == (Phase::Unpacking { retry }) && (r matches Step::Act(
                    Action::Unpack { dir, bytes },
                ) && Some(dir) == pre.cache_path && bytes@ == out),
                None => post.phase is Finished && (r matches Step::Done(res) && res matches Err(
                    pe,
                ) && pe matches PackageError::MalformedArchive(m) && m is Some),
            },
            FetchOutcome::Status { code, message } => post.phase is Finished && if code == 404 {
                r == Step::Done(Err::<String, PackageError>(PackageError::NotFound(pre.spec)))
            } else {
                r == Step::Done(
                    Err::<String, PackageError>(PackageError::NetworkFailed(Some(message))),
                )
            },
            FetchOutcome::Transport { message } => post.phase is Finished && r == Step::Done(
                Err::<String, PackageError>(PackageError::NetworkFailed(Some(message))),
            ),
        },
        (Phase::Unpacking { retry }, Event::Unpack(outcome)) => match outcome {
            UnpackOutcome::Unpacked => post.phase == (Phase::StatCacheAfter { retry }) && (
            r matches Step::Act(Action::Stat(p)) && Some(p) == pre.cache_path),
            UnpackOutcome::Failed(m) => post.phase is Finished && r == Step::Done(
                Err::<String, PackageError>(PackageError::MalformedArchive(Some(m))),
            ),
        },
        (Phase::StatCacheAfter { retry }, Event::Stat(found)) => if found {
            post.phase is Finished && (pre.cache_path matches Some(p) && r == Step::Done(
                Ok::<String, PackageError>(p),
            ))
        } else if !retry && pre.spec.namespace@ == "preview"@ {
            post.phase == (Phase::Fetching { retry: true }) && (r matches Step::Act(Action::Fetch(
                u,
            )) && u@ == pre.spec_url())
        } else {
            post.phase is Finished && r == Step::Done(
                Err::<String, PackageError>(PackageError::NotFound(pre.spec)),
            )
        },
        _ => false,
    }
}

/// What the first step of a run looks like: the data path is probed
/// when a data root exists, else the cache stage is entered at once.
pub open spec fn start_ok(m: PreparePackage, r: Step) -> bool {
    if m.data_path is Some {
        m.phase is StatData && (r matches Step::Act(Action::Stat(p)) && Some(p) == m.data_path)
    } else {
        enter_cache_rel(m, m, r)
    }
}

/// Clones an optional path.
fn clone_opt_path(o: &Option<String>) -> (r: Option<String>)
    ensures
        r == *o,
{
    match o {
        Some(s) => Some(s.clone()),
        None => None,
    }
}

/// Clones the path out of an option known to hold one.
fn path_of(o: &Option<String>) -> (r: String)
    requires
        o is Some,
    ensures
        Some(r) == *o,
{
    match o {
        Some(s) => s.clone(),
        None => unreached(),
    }
}

impl PreparePackage {
    /// Builds the download URL for this coordinate from the
    /// registered template.
    fn build_url(&self) -> (r: String)
        requires
            self.mirrors.contains_ns(self.spec.namespace@),
        ensures
            r@ == self.spec_url(),
    {
        let template = match self.mirrors.lookup(self.spec.namespace.as_str()) {
            Some(t) => t,
            None => unreached(),
        };
        let mirror = PkgMirror::new(template);
        let version = self.spec.version.to_version_string();
        mirror.package_download_url(self.spec.name.as_str(), version.as_str())
    }

    /// Enters the cache stage: fails when no cache root exists, else
    /// asks for the cache path's existence.
    fn enter_cache(&mut self) -> (r: Step)
        requires
            old(self).mirrors.contains_ns("preview"@),
        ensures
            final(self).inv(),
            final(self).spec == old(self).spec,
            final(self).mirrors == old(self).mirrors,
            final(self).data_path == old(self).data_path,
            final(self).cache_path == old(self).cache_path,
            enter_cache_rel(*old(self), *final(self), r),
    {
        if self.cache_path.is_none() {
            self.phase = Phase::Finished;
            return Step::Done(Err(PackageError::NotFound(self.spec.clone())));
        }
        let cp = path_of(&self.cache_path);
        if self.mirrors.contains(self.spec.namespace.as_str()) {
            self.phase = Phase::StatCacheMirror;
            Step::Act(Action::Stat(cp))
        } else {
            self.phase = Phase::StatCacheNoMirror;
            Step::Act(Action::Stat(cp))
        }
    }

    /// Answers the pending action and advances the machine one step.
    pub fn on_event(&mut self, e: Event) -> (r: Step)
        requires
            old(self).inv(),
            old(self).expects(e),
        ensures
            final(self).inv(),
            step_ok(*old(self), e, *final(self), r),
    {
        match e {
            Event::Stat(found) => {
                match self.phase {
                    Phase::StatData => {
                        if found {
                            let p = path_of(&self.data_path);
                            self.phase = Phase::Finished;
                            Step::Done(Ok(p))
                        } else {
                            self.enter_cache()
                        }
                    },
                    Phase::StatCacheMirror => {
                        if found {
                            let p = path_of(&self.cache_path);
                            self.phase = Phase::Finished;
                            Step::Done(Ok(p))
                        } else {
                            let url = self.build_url();
                            self.phase = Phase::Fetching { retry: false };
                            Step::Act(Action::Fetch(url))
                        }
                    },
                    Phase::StatCacheNoMirror => {
                        if found {
                            let p = path_of(&self.cache_path);
                            self.phase = Phase::Finished;
                            Step::Done(Ok(p))
                        } else {
                            self.phase = Phase::Finished;
                            Step::Done(Err(PackageError::NotFound(self.spec.clone())))
                        }
                    },
                    Phase::StatCacheAfter { retry } => {
                        if found {
                            let p = path_of(&self.cache_path);
                            self.phase = Phase::Finished;
                            Step::Done(Ok(p))
                        } else if !retry && str_eq(self.spec.namespace.as_str(), "preview") {
                            let url = self.build_url();
                            self.phase = Phase::Fetching { retry: true };
                            Step::Act(Action::Fetch(url))
                        } else {
                            self.phase = Phase::Finished;
                            Step::Done(Err(PackageError::NotFound(self.spec.clone())))
                        }
                    },
                    _ => unreached(),
                }
            },
            Event::Fetch(outcome) => {
                match self.phase {
                    Phase::Fetching { retry } => {
                        match outcome {
                            FetchOutcome::Bytes(b) => {
                                match gunzip(&b) {
                                    Ok(bytes) => {
                                        let dir = path_of(&self.cache_path);
                                        self.phase = Phase::Unpacking { retry };
                                        Step::Act(Action::Unpack { dir, bytes })
                                    },
                                    Err(m) => {
                                        self.phase = Phase::Finished;
                                        Step::Done(Err(PackageError::MalformedArchive(Some(m))))
                                    },
                                }
                            },
                            FetchOutcome::Status { code, message } => {
                                self.phase = Phase::Finished;
                                if code == 404 {
                                    Step::Done(Err(PackageError::NotFound(self.spec.clone())))
                                } else {
                                    Step::Done(Err(PackageError::NetworkFailed(Some(message))))
                                }
                            },
                            FetchOutcome::Transport { message } => {
                                self.phase = Phase::Finished;
                                Step::Done(Err(PackageError::NetworkFailed(Some(message))))
                            },
                        }
                    },
                    _ => unreached(),
                }
            },
            Event::Unpack(outcome) => {
                match self.phase {
                    Phase::Unpacking { retry } => {
                        match outcome {
                            UnpackOutcome::Unpacked => {
                                let p = path_of(&self.cache_path);
                                self.phase = Phase::StatCacheAfter { retry };
                                Step::Act(Action::Stat(p))
                            },
                            UnpackOutcome::Failed(m) => {
                                self.phase = Phase::Finished;
                                Step::Done(Err(PackageError::MalformedArchive(Some(m))))
                            },
                        }
                    },
                    _ => unreached(),
                }
            },
        }
    }
}

/// Starts making a package available in the on-disk cache: computes
/// both candidate paths and returns the machine together with its
/// first step.
pub fn prepare_package(spec: PackageSpec, mirrors: MirrorConfiguration, roots: Roots) -> (r: (
    PreparePackage,
    Step,
))
    requires
        mirrors.contains_ns("preview"@),
    ensures
        r.0.inv(),
        r.0.spec == spec,
        r.0.mirrors == mirrors,
        (match roots.data {
            Some(d) => r.0.data_path matches Some(p) && p@ == spec_join(d@, spec_subdir(spec)),
            None => r.0.data_path is None,
        }),
        (match roots.cache {
            Some(c) => r.0.cache_path matches Some(p) && p@ == spec_join(c@, spec_subdir(spec)),
            None => r.0.cache_path is None,
        }),
        start_ok(r.0, r.1),
{
    let subdir = package_subdir(&spec);
    let data_path = match roots.data {
        Some(d) => Some(join_path(d.as_str(), subdir.as_str())),
        None => None,
    };
    let cache_path = match roots.cache {
        Some(c) => Some(join_path(c.as_str(), subdir.as_str())),
        None => None,
    };
    let mut m = PreparePackage { spec, mirrors, data_path, cache_path, phase: Phase::StatData };
    let step = if m.data_path.is_some() {
        let p = path_of(&m.data_path);
        Step::Act(Action::Stat(p))
    } else {
        m.enter_cache()
    };
    (m, step)
}

/// The advisory status line printed before an archive fetch.
pub fn downloading_message(spec: &PackageSpec) -> (r: String)
    ensures
        r@ == "downloading "@ + spec_display(*spec),
{
    let mut out = String::from_str("downloading ");
    let shown = spec.display();
    out.append(shown.as_str());
    out
}

} // verus!
