//! One activation, as a machine that the host drives: `begin` gives the
//! first step, each step names one thing for the host to do, and `advance`
//! takes the host's reply to the next step. The machine decides; it never
//! acts.
//!
//! A reply is a `Result<String, String>`: the text that the host got (the
//! architecture, the marker's contents, the base URI; an empty text where
//! there is nothing to tell), or the cause of its failure.

use crate::error::{ErrorKind, InitError, InitErrorView};
use crate::launch::{
    launch_request, override_uri_text, LaunchRequest, LaunchRequestView, OVERRIDE_SCHEME,
};
use crate::options::{
    config_fields, parse_options, resolved_options, LaunchOptions, LaunchOptionsView,
};
use crate::platform::{architecture_error, check_architecture, effective_server_path, server_path};
use crate::text::{join_texts, outcome, same_text};
use crate::uri::{parse_uri, parsed_url, resolve_uri, resolved_url};
use serde_json::Value;
use vstd::prelude::*;

verus! {

/// The one request that an activation answers.
pub const INITIALIZE_METHOD: &'static str = "initialize";

/// The file that records the version last used, in the working directory.
pub const MARKER_FILE: &'static str = ".ucm_ver";

/// What an activation carries from step to step until the server is
/// started.
#[derive(Debug, PartialEq, Eq)]
pub struct Pending {
    pub version: String,
    pub server_args: Vec<String>,
    pub options: Option<Value>,
}

/// What an activation carries along, as mathematical values.
pub struct PendingView {
    pub version: Seq<char>,
    pub server_args: Seq<Seq<char>>,
    pub options: Option<Value>,
}

impl View for Pending {
    type V = PendingView;

    open spec fn view(&self) -> PendingView {
        PendingView {
            version: self.version@,
            server_args: self.server_args.deep_view(),
            options: self.options,
        }
    }
}

/// Where an activation stands: which reply it waits for.
#[derive(Debug, PartialEq, Eq)]
pub enum Phase {
    /// The version is being logged.
    Announcing(Pending),
    /// The host was asked for its architecture.
    AwaitingArchitecture(Pending),
    /// The host was asked for the marker's contents.
    AwaitingMarker(Pending),
    /// The host was asked to write the marker.
    WritingMarker(Pending),
    /// The host was asked for its operating system.
    AwaitingOperatingSystem(Pending),
    /// The host was asked for the base URI; the server's path is chosen.
    AwaitingBaseUri { pending: Pending, server_path: String },
    /// The server was started or the failure reported: nothing is left to do.
    Finished,
}

/// Where an activation stands, as a mathematical value.
pub enum PhaseView {
    Announcing(PendingView),
    AwaitingArchitecture(PendingView),
    AwaitingMarker(PendingView),
    WritingMarker(PendingView),
    AwaitingOperatingSystem(PendingView),
    AwaitingBaseUri { pending: PendingView, server_path: Seq<char> },
    Finished,
}

impl View for Phase {
    type V = PhaseView;

    open spec fn view(&self) -> PhaseView {
        match self {
            Phase::Announcing(p) => PhaseView::Announcing(p@),
            Phase::AwaitingArchitecture(p) => PhaseView::AwaitingArchitecture(p@),
            Phase::AwaitingMarker(p) => PhaseView::AwaitingMarker(p@),
            Phase::WritingMarker(p) => PhaseView::WritingMarker(p@),
            Phase::AwaitingOperatingSystem(p) => PhaseView::AwaitingOperatingSystem(p@),
            Phase::AwaitingBaseUri { pending, server_path } => PhaseView::AwaitingBaseUri {
                pending: pending@,
                server_path: server_path@,
            },
            Phase::Finished => PhaseView::Finished,
        }
    }
}

/// What the host is to do next.
#[derive(Debug, PartialEq, Eq)]
pub enum Action {
    /// Write `message` to the diagnostic stream; a failure is not told.
    Log { message: String },
    /// Report the architecture of the processor.
    QueryArchitecture,
    /// Report what `file` holds, after creating it if there is none.
    ReadMarker { file: String },
    /// Make `file` hold `contents` and nothing else.
    WriteMarker { file: String, contents: String },
    /// Report the operating system.
    QueryOperatingSystem,
    /// Report the URI under which the plugin is installed.
    QueryBaseUri,
    /// Start the language server. This ends the activation.
    StartServer(LaunchRequest),
    /// Log the failure and show it to the user. This ends the activation.
    Report(InitError),
    /// The activation is over.
    Nothing,
}

/// What the host is to do next, as a mathematical value.
pub enum ActionView {
    Log { message: Seq<char> },
    QueryArchitecture,
    ReadMarker { file: Seq<char> },
    WriteMarker { file: Seq<char>, contents: Seq<char> },
    QueryOperatingSystem,
    QueryBaseUri,
    StartServer(LaunchRequestView),
    Report(InitErrorView),
    Nothing,
}

impl View for Action {
    type V = ActionView;

    open spec fn view(&self) -> ActionView {
        match self {
            Action::Log { message } => ActionView::Log { message: message@ },
            Action::QueryArchitecture => ActionView::QueryArchitecture,
            Action::ReadMarker { file } => ActionView::ReadMarker { file: file@ },
            Action::WriteMarker { file, contents } => ActionView::WriteMarker {
                file: file@,
                contents: contents@,
            },
            Action::QueryOperatingSystem => ActionView::QueryOperatingSystem,
            Action::QueryBaseUri => ActionView::QueryBaseUri,
            Action::StartServer(request) => ActionView::StartServer(request@),
            Action::Report(error) => ActionView::Report(error@),
            Action::Nothing => ActionView::Nothing,
        }
    }
}

/// One step of an activation: what the host is to do, and where the
/// activation stands while it does so.
#[derive(Debug, PartialEq, Eq)]
pub struct Step {
    pub action: Action,
    pub next: Phase,
}

/// One step of an activation, as a mathematical value.
pub struct StepView {
    pub action: ActionView,
    pub next: PhaseView,
}

impl View for Step {
    type V = StepView;

    open spec fn view(&self) -> StepView {
        StepView { action: self.action@, next: self.next@ }
    }
}

/// The line that announces the version in the diagnostic stream.
pub open spec fn announcement(version: Seq<char>) -> Seq<char> {
    "ucm: "@ + version
}

/// The step that ends an activation with the failure `kind`, caused by
/// `cause`.
pub open spec fn failure(kind: ErrorKind, cause: Seq<char>) -> StepView {
    StepView {
        action: ActionView::Report(InitErrorView { kind, message: cause }),
        next: PhaseView::Finished,
    }
}

/// The step that ends an activation by starting the server at `uri`.
pub open spec fn launch(uri: Seq<char>, args: Seq<Seq<char>>, options: Option<Value>) -> StepView {
    StepView {
        action: ActionView::StartServer(launch_request(uri, args, options)),
        next: PhaseView::Finished,
    }
}

/// The step to which the server's URI leads, as `kind` of failure where
/// there is none.
pub open spec fn dispatch(
    uri: Result<Seq<char>, Seq<char>>,
    kind: ErrorKind,
    args: Seq<Seq<char>>,
    options: Option<Value>,
) -> StepView {
    match uri {
        Ok(text) => launch(text, args, options),
        Err(cause) => failure(kind, cause),
    }
}

/// The first step for the options `options` of the configuration `config`.
/// An explicit server path is made a URI and the server started at once;
/// without one the version is announced.
pub open spec fn first_step(options: LaunchOptionsView, config: Option<Value>) -> StepView {
    match options.server_path {
        Some(path) => dispatch(
            parsed_url(override_uri_text(path)),
            ErrorKind::Config,
            options.server_args,
            config,
        ),
        None => StepView {
            action: ActionView::Log { message: announcement(options.version) },
            next: PhaseView::Announcing(
                PendingView {
                    version: options.version,
                    server_args: options.server_args,
                    options: config,
                },
            ),
        },
    }
}

/// The first step of the activation with the configuration `config`.
pub open spec fn begin_spec(config: Option<Value>) -> StepView {
    first_step(resolved_options(config_fields(config)), config)
}

/// The step that follows when an activation in `phase` gets `reply`.
pub open spec fn advance_spec(phase: PhaseView, reply: Result<Seq<char>, Seq<char>>) -> StepView {
    match phase {
        PhaseView::Announcing(pending) => StepView {
            action: ActionView::QueryArchitecture,
            next: PhaseView::AwaitingArchitecture(pending),
        },
        PhaseView::AwaitingArchitecture(pending) => match architecture_error(reply) {
            Some(error) => StepView { action: ActionView::Report(error), next: PhaseView::Finished },
            None => StepView {
                action: ActionView::ReadMarker { file: MARKER_FILE@ },
                next: PhaseView::AwaitingMarker(pending),
            },
        },
        PhaseView::AwaitingMarker(pending) => match reply {
            Ok(_) => StepView {
                action: ActionView::WriteMarker { file: MARKER_FILE@, contents: pending.version },
                next: PhaseView::WritingMarker(pending),
            },
            Err(cause) => failure(ErrorKind::Io, cause),
        },
        PhaseView::WritingMarker(pending) => match reply {
            Ok(_) => StepView {
                action: ActionView::QueryOperatingSystem,
                next: PhaseView::AwaitingOperatingSystem(pending),
            },
            Err(cause) => failure(ErrorKind::Io, cause),
        },
        PhaseView::AwaitingOperatingSystem(pending) => StepView {
            action: ActionView::QueryBaseUri,
            next: PhaseView::AwaitingBaseUri {
                pending,
                server_path: effective_server_path(pending.version, reply),
            },
        },
        PhaseView::AwaitingBaseUri { pending, server_path } => match reply {
            Ok(base) => dispatch(
                resolved_url(base, server_path),
                ErrorKind::Uri,
                pending.server_args,
                pending.options,
            ),
            Err(cause) => failure(ErrorKind::Platform, cause),
        },
        PhaseView::Finished => StepView { action: ActionView::Nothing, next: PhaseView::Finished },
    }
}

impl Step {
    /// The step that ends an activation with a failure.
    pub fn fail(kind: ErrorKind, cause: String) -> (step: Step)
        ensures
            step@ == failure(kind, cause@),
    {
        Step { action: Action::Report(InitError { kind, message: cause }), next: Phase::Finished }
    }

    /// The step to which the server's URI leads: the server is started at
    /// `uri`, or the activation fails with its cause, as a failure of `kind`.
    pub fn dispatch(
        uri: Result<String, String>,
        kind: ErrorKind,
        args: Vec<String>,
        options: Option<Value>,
    ) -> (step: Step)
        ensures
            step@ == dispatch(outcome(uri), kind, args.deep_view(), options),
    {
        match uri {
            Ok(text) => Step {
                action: Action::StartServer(LaunchRequest::new(text, args, options)),
                next: Phase::Finished,
            },
            Err(cause) => Step::fail(kind, cause),
        }
    }
}

/// Tells whether a request of the host for `method` begins an activation.
/// Every other request is passed over.
pub fn begins_activation(method: &str) -> (r: bool)
    ensures
        r == (method@ == INITIALIZE_METHOD@),
{
    same_text(method, INITIALIZE_METHOD)
}

/// Begins the activation with the configuration `config`.
pub fn begin(config: Option<Value>) -> (step: Step)
    ensures
        step@ == begin_spec(config),
{
    let options = parse_options(&config);
    let LaunchOptions { version, server_args, server_path } = options;
    match server_path {
        Some(path) => {
            let uri = parse_uri(join_texts(OVERRIDE_SCHEME, path.as_str()).as_str());
            Step::dispatch(uri, ErrorKind::Config, server_args, config)
        },
        None => Step {
            action: Action::Log { message: join_texts("ucm: ", version.as_str()) },
            next: Phase::Announcing(Pending { version, server_args, options: config }),
        },
    }
}

/// Takes the activation in `phase` one step on with the host's `reply` to
/// what it was last asked.
pub fn advance(phase: Phase, reply: Result<String, String>) -> (step: Step)
    ensures
        step@ == advance_spec(phase@, outcome(reply)),
{
    match phase {
        Phase::Announcing(pending) => Step {
            action: Action::QueryArchitecture,
            next: Phase::AwaitingArchitecture(pending),
        },
        Phase::AwaitingArchitecture(pending) => match check_architecture(&reply) {
            Ok(_) => Step {
                action: Action::ReadMarker { file: MARKER_FILE.to_owned() },
                next: Phase::AwaitingMarker(pending),
            },
            Err(error) => Step { action: Action::Report(error), next: Phase::Finished },
        },
        Phase::AwaitingMarker(pending) => match reply {
            Ok(_) => Step {
                action: Action::WriteMarker {
                    file: MARKER_FILE.to_owned(),
                    contents: pending.version.clone(),
                },
                next: Phase::WritingMarker(pending),
            },
            Err(cause) => Step::fail(ErrorKind::Io, cause),
        },
        Phase::WritingMarker(pending) => match reply {
            Ok(_) => Step {
                action: Action::QueryOperatingSystem,
                next: Phase::AwaitingOperatingSystem(pending),
            },
            Err(cause) => Step::fail(ErrorKind::Io, cause),
        },
        Phase::AwaitingOperatingSystem(pending) => {
            let server_path = server_path(pending.version.as_str(), &reply);
            Step { action: Action::QueryBaseUri, next: Phase::AwaitingBaseUri { pending, server_path } }
        },
        Phase::AwaitingBaseUri { pending, server_path } => match reply {
            Ok(base) => {
                let uri = resolve_uri(base.as_str(), server_path.as_str());
                Step::dispatch(uri, ErrorKind::Uri, pending.server_args, pending.options)
            },
            Err(cause) => Step::fail(ErrorKind::Platform, cause),
        },
        Phase::Finished => Step { action: Action::Nothing, next: Phase::Finished },
    }
}

} // verus!
