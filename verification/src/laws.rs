//! The library's laws: properties of the acquisition policy proved
//! over the transition relation of the `prepare` state machine.

use crate::mirror::url_from_template;
use crate::pkg::{PackageError, PackageSpec};
use crate::prepare::{
    gunzipped, start_ok, step_ok, Action, Event, FetchOutcome, Phase, PreparePackage, Step,
    UnpackOutcome,
};
use crate::version::version_chars;
use vstd::prelude::*;

verus! {

/// A namespace that is registered neither by the built-in default nor
/// by a user override is never fetched: no step of a run for such a
/// namespace asks the caller to fetch or unpack, and whenever every
/// probed directory is absent the run ends in NotFound.
pub proof fn lemma_unregistered_never_downloads(
    pre: PreparePackage,
    e: Event,
    post: PreparePackage,
    r: Step,
)
    requires
        pre.inv(),
        !pre.mirrors.contains_ns(pre.spec.namespace@),
        step_ok(pre, e, post, r),
    ensures
        !(r matches Step::Act(Action::Fetch(_))),
        !(r matches Step::Act(Action::Unpack { .. })),
        !post.mirrors.contains_ns(post.spec.namespace@),
        e == Event::Stat(false) ==> (r matches Step::Done(res) ==> res == Err::<
            String,
            PackageError,
        >(PackageError::NotFound(pre.spec))),
{
}

/// A run of the machine: `machines` holds every state from the first
/// to the last, and each event and returned step connects neighbouring
/// states as `on_event` guarantees — the transition relation holds and
/// every state satisfies the invariant.
pub open spec fn consistent_run(
    machines: Seq<PreparePackage>,
    events: Seq<Event>,
    steps: Seq<Step>,
) -> bool {
    &&& machines.len() == events.len() + 1
    &&& steps.len() == events.len()
    &&& forall|i: int| 0 <= i < machines.len() ==> (#[trigger] machines[i]).inv()
    &&& forall|i: int|
        0 <= i < events.len() ==> step_ok(machines[i], #[trigger] events[i], machines[i + 1], steps[i])
}

/// Along any run, the coordinate and the registry never change.
pub proof fn lemma_run_preserves_coordinate(
    machines: Seq<PreparePackage>,
    events: Seq<Event>,
    steps: Seq<Step>,
    i: int,
)
    requires
        consistent_run(machines, events, steps),
        0 <= i < machines.len(),
    ensures
        machines[i].spec == machines[0].spec,
        machines[i].mirrors == machines[0].mirrors,
    decreases i,
{
    if i > 0 {
        lemma_run_preserves_coordinate(machines, events, steps, i - 1);
        assert(step_ok(machines[i - 1], events[i - 1], machines[i], steps[i - 1]));
    }
}

/// The run-level form of the first law: over a whole run for an
/// unregistered namespace, no step ever asks the caller to fetch or
/// unpack, and every step that answers an absent directory and ends
/// the run ends it with NotFound.
pub proof fn lemma_unregistered_run_never_downloads(
    machines: Seq<PreparePackage>,
    events: Seq<Event>,
    steps: Seq<Step>,
)
    requires
        consistent_run(machines, events, steps),
        !machines[0].mirrors.contains_ns(machines[0].spec.namespace@),
    ensures
        forall|i: int| 0 <= i < steps.len() ==> !(#[trigger] steps[i] matches Step::Act(
            Action::Fetch(_),
        )),
        forall|i: int| 0 <= i < steps.len() ==> !(#[trigger] steps[i] matches Step::Act(
            Action::Unpack { .. },
        )),
        forall|i: int|
            0 <= i < steps.len() && events[i] == Event::Stat(false) ==> (#[trigger] steps[i]
                matches Step::Done(res) ==> res == Err::<String, PackageError>(
                PackageError::NotFound(machines[0].spec),
            )),
{
    assert forall|i: int| 0 <= i < steps.len() implies {
        &&& !(#[trigger] steps[i] matches Step::Act(Action::Fetch(_)))
        &&& !(steps[i] matches Step::Act(Action::Unpack { .. }))
        &&& (events[i] == Event::Stat(false) ==> (steps[i] matches Step::Done(res) ==> res
            == Err::<String, PackageError>(PackageError::NotFound(machines[0].spec))))
    } by {
        lemma_run_preserves_coordinate(machines, events, steps, i);
        assert(step_ok(machines[i], events[i], machines[i + 1], steps[i]));
        lemma_unregistered_never_downloads(machines[i], events[i], machines[i + 1], steps[i]);
    }
}

/// The first step of a run never fetches either, and fails only with
/// NotFound, when the namespace is unregistered.
pub proof fn lemma_unregistered_start(m: PreparePackage, r: Step)
    requires
        !m.mirrors.contains_ns(m.spec.namespace@),
        start_ok(m, r),
    ensures
        !(r matches Step::Act(Action::Fetch(_))),
        !(r matches Step::Act(Action::Unpack { .. })),
        r matches Step::Done(res) ==> res == Err::<String, PackageError>(
            PackageError::NotFound(m.spec),
        ),
{
}

/// The persistent-data root always wins: when the data path exists,
/// the run returns it at once, whatever the cache may hold and
/// whatever the registry says.
pub proof fn lemma_data_root_wins(pre: PreparePackage, post: PreparePackage, r: Step)
    requires
        pre.inv(),
        pre.phase is StatData,
        step_ok(pre, Event::Stat(true), post, r),
    ensures
        post.phase is Finished,
        pre.data_path matches Some(p) && r == Step::Done(Ok::<String, PackageError>(p)),
{
}

/// A 404 from the archive endpoint is NotFound for the exact
/// coordinate, never NetworkFailed; any other status is NetworkFailed
/// carrying the transport's message.
pub proof fn lemma_archive_status_classified(
    pre: PreparePackage,
    post: PreparePackage,
    r: Step,
    code: u16,
    message: String,
)
    requires
        pre.inv(),
        step_ok(pre, Event::Fetch(FetchOutcome::Status { code, message }), post, r),
    ensures
        code == 404 ==> r == Step::Done(Err::<String, PackageError>(
            PackageError::NotFound(pre.spec),
        )),
        code != 404 ==> r == Step::Done(Err::<String, PackageError>(
            PackageError::NetworkFailed(Some(message)),
        )),
{
}

/// A transport-level failure (connection refused, timeout) is
/// NetworkFailed carrying the transport's message.
pub proof fn lemma_transport_failure_is_network_failed(
    pre: PreparePackage,
    post: PreparePackage,
    r: Step,
    message: String,
)
    requires
        pre.inv(),
        step_ok(pre, Event::Fetch(FetchOutcome::Transport { message }), post, r),
    ensures
        r == Step::Done(Err::<String, PackageError>(PackageError::NetworkFailed(Some(message)))),
{
}

/// A failed unpack ends the run with MalformedArchive carrying the
/// unpack error; so does a body that does not decompress.
pub proof fn lemma_failed_unpack_is_malformed(
    pre: PreparePackage,
    post: PreparePackage,
    r: Step,
    message: String,
)
    requires
        pre.inv(),
        step_ok(pre, Event::Unpack(UnpackOutcome::Failed(message)), post, r),
    ensures
        r == Step::Done(Err::<String, PackageError>(
            PackageError::MalformedArchive(Some(message)),
        )),
        post.phase is Finished,
{
}

/// A body that is not a valid gzip stream ends the run with
/// MalformedArchive before anything is unpacked.
pub proof fn lemma_bad_gzip_is_malformed(
    pre: PreparePackage,
    post: PreparePackage,
    r: Step,
    body: Vec<u8>,
)
    requires
        pre.inv(),
        pre.phase matches Phase::Fetching { .. },
        gunzipped(body@) is None,
        step_ok(pre, Event::Fetch(FetchOutcome::Bytes(body)), post, r),
    ensures
        r matches Step::Done(res) && (res matches Err(pe) && pe matches
            PackageError::MalformedArchive(m) && m is Some),
        post.phase is Finished,
{
}

/// Every fetch the machine asks for uses the registry's template for
/// the coordinate's namespace, with `$name` and then `$version`
/// substituted literally — so a user override of a namespace's
/// template controls every later download URL for that namespace.
pub proof fn lemma_fetch_uses_registry_template(
    pre: PreparePackage,
    e: Event,
    post: PreparePackage,
    r: Step,
    u: String,
)
    requires
        pre.inv(),
        step_ok(pre, e, post, r),
        r == Step::Act(Action::Fetch(u)),
    ensures
        pre.mirrors.template_for(pre.spec.namespace@) matches Some(t) && u@ == url_from_template(
            t,
            pre.spec.name@,
            version_chars(pre.spec.version),
        ),
{
}

} // verus!
