//! The course of an activation: the actions that it asks of a host, one
//! after the other, for given replies of that host; and what holds of every
//! course.

use crate::activation::{
    advance_spec, announcement, begin_spec, dispatch, failure, ActionView, PhaseView, StepView,
    MARKER_FILE,
};
use crate::error::{ErrorKind, InitErrorView};
use crate::launch::{fixed_selector, launch_request, override_uri_text};
use crate::options::{config_fields, explicit_path, resolved_options};
use crate::platform::{architecture_error, effective_server_path, SUPPORTED_ARCHITECTURE};
use crate::uri::{parsed_url, resolved_url};
use serde_json::Value;
use vstd::prelude::*;

verus! {

/// A host, as far as an activation can tell: what it answers to each
/// request, be it asked or not.
pub struct Host {
    pub architecture: Result<Seq<char>, Seq<char>>,
    pub marker: Result<Seq<char>, Seq<char>>,
    pub marker_write: Result<Seq<char>, Seq<char>>,
    pub operating_system: Result<Seq<char>, Seq<char>>,
    pub base_uri: Result<Seq<char>, Seq<char>>,
}

/// The reply of `host` to `action`.
pub open spec fn reply(host: Host, action: ActionView) -> Result<Seq<char>, Seq<char>> {
    match action {
        ActionView::QueryArchitecture => host.architecture,
        ActionView::ReadMarker { .. } => host.marker,
        ActionView::WriteMarker { .. } => host.marker_write,
        ActionView::QueryOperatingSystem => host.operating_system,
        ActionView::QueryBaseUri => host.base_uri,
        _ => Ok(Seq::empty()),
    }
}

/// How many replies an activation in `phase` can still take before it is
/// over.
pub open spec fn replies_left(phase: PhaseView) -> nat {
    match phase {
        PhaseView::Announcing(_) => 6,
        PhaseView::AwaitingArchitecture(_) => 5,
        PhaseView::AwaitingMarker(_) => 4,
        PhaseView::WritingMarker(_) => 3,
        PhaseView::AwaitingOperatingSystem(_) => 2,
        PhaseView::AwaitingBaseUri { .. } => 1,
        PhaseView::Finished => 0,
    }
}

/// The actions from `step` on, up to the one that ends the activation.
pub open spec fn course_from(step: StepView, host: Host) -> Seq<ActionView>
    decreases replies_left(step.next),
{
    if step.next is Finished {
        seq![step.action]
    } else {
        seq![step.action] + course_from(advance_spec(step.next, reply(host, step.action)), host)
    }
}

/// The actions of the activation with the configuration `config` on `host`.
pub open spec fn course(config: Option<Value>, host: Host) -> Seq<ActionView> {
    course_from(begin_spec(config), host)
}

/// An action that ends an activation: the server is started, or a failure
/// reported.
pub open spec fn is_final(action: ActionView) -> bool {
    action is StartServer || action is Report
}

/// What the marker file holds after the actions of `course`, where it held
/// `before` and every write came about.
pub open spec fn marker_after(course: Seq<ActionView>, before: Seq<char>) -> Seq<char>
    decreases course.len(),
{
    if course.len() == 0 {
        before
    } else {
        match course.last() {
            ActionView::WriteMarker { contents, .. } => contents,
            _ => marker_after(course.drop_last(), before),
        }
    }
}

/// A host that lets an activation without an explicit server path come as
/// far as the marker and write it.
pub open spec fn keeps_marker(host: Host) -> bool {
    &&& host.architecture == Ok::<Seq<char>, Seq<char>>(SUPPORTED_ARCHITECTURE@)
    &&& host.marker is Ok
    &&& host.marker_write is Ok
}

/// A step whose action ends the activation exactly if nothing follows it.
pub open spec fn ends_well(step: StepView) -> bool {
    is_final(step.action) <==> step.next is Finished
}

proof fn lemma_course_from_ends_once(step: StepView, host: Host)
    requires
        ends_well(step),
    ensures
        course_from(step, host).len() >= 1,
        is_final(course_from(step, host).last()),
        forall|i: int|
            0 <= i < course_from(step, host).len() - 1 ==> !is_final(
                #[trigger] course_from(step, host)[i],
            ),
    decreases replies_left(step.next),
{
    if !(step.next is Finished) {
        let next = advance_spec(step.next, reply(host, step.action));
        assert(ends_well(next));
        lemma_course_from_ends_once(next, host);
    }
}

/// Every activation ends with one final action, and takes none before:
/// the server is started once or not at all, and where a failure is
/// reported it is not started.
pub proof fn lemma_course_ends_once(config: Option<Value>, host: Host)
    ensures
        course(config, host).len() >= 1,
        is_final(course(config, host).last()),
        forall|i: int|
            0 <= i < course(config, host).len() - 1 ==> !is_final(#[trigger] course(config, host)[i]),
{
    assert(ends_well(begin_spec(config)));
    lemma_course_from_ends_once(begin_spec(config), host);
}

/// An action that, where it starts the server, hands on the fixed selector.
pub open spec fn selects_as_fixed(action: ActionView) -> bool {
    action matches ActionView::StartServer(request) ==> request.selector == fixed_selector()
}

proof fn lemma_course_from_selector(step: StepView, host: Host)
    requires
        selects_as_fixed(step.action),
    ensures
        forall|i: int|
            0 <= i < course_from(step, host).len() ==> selects_as_fixed(
                #[trigger] course_from(step, host)[i],
            ),
    decreases replies_left(step.next),
{
    if !(step.next is Finished) {
        let next = advance_spec(step.next, reply(host, step.action));
        lemma_course_from_selector(next, host);
        assert forall|i: int| 0 <= i < course_from(step, host).len() implies selects_as_fixed(
            #[trigger] course_from(step, host)[i],
        ) by {
            if i > 0 {
                assert(course_from(step, host)[i] == course_from(next, host)[i - 1]);
            }
        }
    }
}

/// Whatever the configuration and the host, the server is started for the
/// one fixed selector.
pub proof fn lemma_selector_is_fixed(config: Option<Value>, host: Host)
    ensures
        forall|i: int|
            0 <= i < course(config, host).len() ==> selects_as_fixed(
                #[trigger] course(config, host)[i],
            ),
{
    lemma_course_from_selector(begin_spec(config), host);
}

/// With an explicit server path, the activation is one action, whatever
/// the host: the text made of `urn:` and the path, as it stands, is parsed
/// as a URI, and the server is started there, with the arguments and the
/// configuration; or the text is no URI, and that is reported. The host is
/// asked nothing, and the marker is not touched.
pub proof fn lemma_explicit_path_course(config: Option<Value>, host: Host, path: Seq<char>)
    requires
        config_fields(config).server_path == Some(path),
        path.len() > 0,
    ensures
        match parsed_url(override_uri_text(path)) {
            Ok(uri) => course(config, host) == seq![
                ActionView::StartServer(
                    launch_request(
                        uri,
                        resolved_options(config_fields(config)).server_args,
                        config,
                    ),
                ),
            ],
            Err(cause) => course(config, host) == seq![
                ActionView::Report(InitErrorView { kind: ErrorKind::Config, message: cause }),
            ],
        },
        forall|i: int|
            0 <= i < course(config, host).len() ==> {
                &&& !(#[trigger] course(config, host)[i] is ReadMarker)
                &&& !(course(config, host)[i] is WriteMarker)
            },
{
}

/// Without an explicit server path, on a host that does not report the
/// supported architecture, the activation announces the version, asks for
/// the architecture and reports the failure: the server is not started.
pub proof fn lemma_unsupported_architecture_course(config: Option<Value>, host: Host)
    requires
        explicit_path(config_fields(config).server_path) is None,
        host.architecture != Ok::<Seq<char>, Seq<char>>(SUPPORTED_ARCHITECTURE@),
    ensures
        architecture_error(host.architecture) matches Some(error) && error.kind
            == ErrorKind::Platform && course(config, host) == seq![
            ActionView::Log {
                message: announcement(resolved_options(config_fields(config)).version),
            },
            ActionView::QueryArchitecture,
            ActionView::Report(error),
        ],
        forall|i: int|
            0 <= i < course(config, host).len() ==> !(#[trigger] course(config, host)[i]
                is StartServer),
{
    reveal_with_fuel(course_from, 3);
    let error = architecture_error(host.architecture)->0;
    let expected = seq![
        ActionView::Log { message: announcement(resolved_options(config_fields(config)).version) },
        ActionView::QueryArchitecture,
        ActionView::Report(error),
    ];
    assert(course(config, host) =~= expected);
}

/// The action that ends an activation which has come to ask for the base
/// URI: the server is started at the URI that the server's path gives
/// against the base, or what stands against it is reported.
pub open spec fn last_action(config: Option<Value>, host: Host) -> ActionView {
    let options = resolved_options(config_fields(config));
    match host.base_uri {
        Ok(base) => dispatch(
            resolved_url(base, effective_server_path(options.version, host.operating_system)),
            ErrorKind::Uri,
            options.server_args,
            config,
        ).action,
        Err(cause) => failure(ErrorKind::Platform, cause).action,
    }
}

/// Without an explicit server path, on a host that keeps the marker, the
/// activation takes seven actions in a fixed order: it announces the
/// version, asks for the architecture, reads the marker, writes the version
/// to it, asks for the operating system and for the base URI, and ends.
pub proof fn lemma_resolved_course(config: Option<Value>, host: Host)
    requires
        explicit_path(config_fields(config).server_path) is None,
        keeps_marker(host),
    ensures
        course(config, host) == seq![
            ActionView::Log {
                message: announcement(resolved_options(config_fields(config)).version),
            },
            ActionView::QueryArchitecture,
            ActionView::ReadMarker { file: MARKER_FILE@ },
            ActionView::WriteMarker {
                file: MARKER_FILE@,
                contents: resolved_options(config_fields(config)).version,
            },
            ActionView::QueryOperatingSystem,
            ActionView::QueryBaseUri,
            last_action(config, host),
        ],
{
    reveal_with_fuel(course_from, 7);
    let expected = seq![
        ActionView::Log { message: announcement(resolved_options(config_fields(config)).version) },
        ActionView::QueryArchitecture,
        ActionView::ReadMarker { file: MARKER_FILE@ },
        ActionView::WriteMarker {
            file: MARKER_FILE@,
            contents: resolved_options(config_fields(config)).version,
        },
        ActionView::QueryOperatingSystem,
        ActionView::QueryBaseUri,
        last_action(config, host),
    ];
    assert(course(config, host) =~= expected);
}

/// Two activations in turn with one configuration, on hosts that keep the
/// marker, each leave in it the version and nothing else, whatever it held
/// before.
pub proof fn lemma_marker_is_stable(
    config: Option<Value>,
    first: Host,
    second: Host,
    before: Seq<char>,
)
    requires
        explicit_path(config_fields(config).server_path) is None,
        keeps_marker(first),
        keeps_marker(second),
    ensures
        marker_after(course(config, first), before) == resolved_options(
            config_fields(config),
        ).version,
        marker_after(
            course(config, second),
            marker_after(course(config, first), before),
        ) == resolved_options(config_fields(config)).version,
{
    lemma_marker_after_course(config, first, before);
    lemma_marker_after_course(config, second, marker_after(course(config, first), before));
}

proof fn lemma_marker_after_course(config: Option<Value>, host: Host, before: Seq<char>)
    requires
        explicit_path(config_fields(config).server_path) is None,
        keeps_marker(host),
    ensures
        marker_after(course(config, host), before) == resolved_options(
            config_fields(config),
        ).version,
{
    lemma_resolved_course(config, host);
    let all = course(config, host);
    reveal_with_fuel(marker_after, 5);
    assert(all.drop_last().drop_last().drop_last().last() == all[3]);
}

} // verus!
