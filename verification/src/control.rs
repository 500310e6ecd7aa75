//! Invocation controller: runs the pipeline URI parser -> payload codec ->
//! registry lookup up to a launch plan, decides what the launcher's outcome
//! means, and maps every failure to the notification shown to the user.

use vstd::prelude::*;
use crate::codec::CodecError;
use crate::codec::decode_payload;
use crate::codec::decode_spec;
use crate::registry::AppConfig;
use crate::registry::AppConfigView;
use crate::registry::lookup_app;
use crate::registry::lookup_spec;
use crate::registry::registry_view;
use crate::text::str_eq;
use crate::uri::UriError;
use crate::uri::parse_spec;
use crate::uri::parse_uri;

verus! {

/// Why an invocation failed before the launch.
#[derive(Debug, Clone, PartialEq, Eq)]
pub enum InvokeError {
    /// The raw URI has the wrong shape.
    MalformedUri(UriError),
    /// The payload could not be decoded.
    EncodingError(CodecError),
    /// No registry entry has the requested name; the name is carried along.
    AppNotFound(String),
}

/// The view of an invocation error, with the unmatched name by characters.
pub ghost enum InvokeErrorView {
    /// The raw URI has the wrong shape.
    MalformedUri(UriError),
    /// The payload could not be decoded.
    EncodingError(CodecError),
    /// No registry entry has the requested name.
    AppNotFound(Seq<char>),
}

impl View for InvokeError {
    type V = InvokeErrorView;

    open spec fn view(&self) -> InvokeErrorView {
        match self {
            InvokeError::MalformedUri(e) => InvokeErrorView::MalformedUri(*e),
            InvokeError::EncodingError(e) => InvokeErrorView::EncodingError(*e),
            InvokeError::AppNotFound(n) => InvokeErrorView::AppNotFound(n@),
        }
    }
}

/// Everything the launcher needs: the resolved executable path and the
/// decoded argument text, handed over as one unsplit blob.
#[derive(Debug, Clone, PartialEq, Eq)]
pub struct LaunchPlan {
    /// The executable path the lookup resolved.
    pub path: String,
    /// The decoded argument text, passed to the child as a single argument.
    pub args: String,
}

/// The view of a launch plan: path and argument text by characters.
pub ghost struct LaunchPlanView {
    /// The executable path.
    pub path: Seq<char>,
    /// The argument text.
    pub args: Seq<char>,
}

impl View for LaunchPlan {
    type V = LaunchPlanView;

    open spec fn view(&self) -> LaunchPlanView {
        LaunchPlanView { path: self.path@, args: self.args@ }
    }
}

/// What preparing an invocation yields: the stages run in order — parse the
/// URI, decode the payload, look the name up — and the first to fail names
/// the error; when all succeed, the plan holds the resolved path and the
/// decoded arguments.
pub open spec fn prepare_spec(raw: Seq<char>, apps: Seq<AppConfigView>) -> Result<
    LaunchPlanView,
    InvokeErrorView,
> {
    match parse_spec(raw) {
        Err(e) => Err(InvokeErrorView::MalformedUri(e)),
        Ok(parsed) => match decode_spec(parsed.encoded_payload) {
            Err(e) => Err(InvokeErrorView::EncodingError(e)),
            Ok(args) => match lookup_spec(apps, parsed.app_name) {
                None => Err(InvokeErrorView::AppNotFound(parsed.app_name)),
                Some(path) => Ok(LaunchPlanView { path: path, args: args }),
            },
        },
    }
}

/// The view of a prepared invocation result.
pub open spec fn prepared_view(r: Result<LaunchPlan, InvokeError>) -> Result<
    LaunchPlanView,
    InvokeErrorView,
> {
    match r {
        Ok(p) => Ok(p@),
        Err(e) => Err(e@),
    }
}

/// Runs the pipeline up to the launch: parses the raw URI, decodes its
/// payload, and resolves the named application in the registry. The registry
/// is only read; every failure is reported, none is retried.
pub fn prepare_invocation(raw_uri: &str, apps: &Vec<AppConfig>) -> (r: Result<
    LaunchPlan,
    InvokeError,
>)
    ensures
        prepared_view(r) == prepare_spec(raw_uri@, registry_view(apps@)),
{
    let parsed = match parse_uri(raw_uri) {
        Ok(p) => p,
        Err(e) => {
            return Err(InvokeError::MalformedUri(e));
        },
    };
    let args = match decode_payload(parsed.encoded_payload.as_str()) {
        Ok(a) => a,
        Err(e) => {
            return Err(InvokeError::EncodingError(e));
        },
    };
    match lookup_app(apps, parsed.app_name.as_str()) {
        Some(path) => Ok(LaunchPlan { path, args }),
        None => Err(InvokeError::AppNotFound(parsed.app_name)),
    }
}

/// The pipeline is deterministic: with the same registry and the same raw
/// URI, two invocations prepare the same plan or fail with the same error,
/// so repeated identical invocations launch the same executable with the
/// same argument text.
pub proof fn lemma_invocation_idempotent(
    raw: Seq<char>,
    apps: Seq<AppConfigView>,
    r1: Result<LaunchPlanView, InvokeErrorView>,
    r2: Result<LaunchPlanView, InvokeErrorView>,
)
    requires
        r1 == prepare_spec(raw, apps),
        r2 == prepare_spec(raw, apps),
    ensures
        r1 == r2,
{
}

/// How the controller reads the launcher's report: a child that started and
/// exited with status zero succeeded, and its standard output is surfaced
/// silently; any non-zero exit is an application-level failure whose detail
/// is the child's standard-error text.
pub fn launch_notification(exit_ok: bool, stderr: &str) -> (r: Option<(String, String)>)
    ensures
        exit_ok ==> r is None,
        !exit_ok ==> (r matches Some(t) && t.0@ == "Error"@ && t.1@ == stderr@),
{
    if exit_ok {
        None
    } else {
        Some((String::from_str("Error"), stderr.to_owned()))
    }
}

/// The user-visible message for an invocation error, stage by stage.
pub open spec fn message_spec(e: InvokeErrorView) -> Seq<char> {
    match e {
        InvokeErrorView::MalformedUri(UriError::MissingScheme) =>
            "Input does not start with 'ush://'"@,
        InvokeErrorView::MalformedUri(UriError::BadSeparator) => "Input format is incorrect"@,
        InvokeErrorView::EncodingError(_) => "Failed to decompress gzip args"@,
        InvokeErrorView::AppNotFound(name) => "No app found with name: "@ + name,
    }
}

/// The notification an invocation failure raises: the title names an error,
/// the message says which stage failed.
pub fn notification_for(e: &InvokeError) -> (r: (String, String))
    ensures
        r.0@ == "Error"@,
        r.1@ == message_spec(e@),
{
    let message = match e {
        InvokeError::MalformedUri(UriError::MissingScheme) => String::from_str(
            "Input does not start with 'ush://'",
        ),
        InvokeError::MalformedUri(UriError::BadSeparator) => String::from_str(
            "Input format is incorrect",
        ),
        InvokeError::EncodingError(_) => String::from_str("Failed to decompress gzip args"),
        InvokeError::AppNotFound(name) => String::from_str("No app found with name: ").concat(
            name.as_str(),
        ),
    };
    (String::from_str("Error"), message)
}

/// The notification shown when the command line has the wrong shape and the
/// pipeline never runs.
pub fn usage_notification() -> (r: (String, String))
    ensures
        r.0@ == "Error"@,
        r.1@ == "Invalid arguments. Usage: run <gzip_args>"@,
{
    (String::from_str("Error"), String::from_str("Invalid arguments. Usage: run <gzip_args>"))
}

/// What a process invocation asks for.
#[derive(Debug, Clone, PartialEq, Eq)]
pub enum RunMode {
    /// No arguments: open the configuration editor.
    Configure,
    /// `run <raw-uri>`: run the invocation pipeline on the raw URI.
    Invoke(String),
    /// Any other shape: reject with a usage notification.
    Rejected,
}

/// The view of a requested mode, with the raw URI by characters.
pub ghost enum RunModeView {
    /// Open the configuration editor.
    Configure,
    /// Run the pipeline on the raw URI.
    Invoke(Seq<char>),
    /// Reject the invocation.
    Rejected,
}

impl View for RunMode {
    type V = RunModeView;

    open spec fn view(&self) -> RunModeView {
        match self {
            RunMode::Configure => RunModeView::Configure,
            RunMode::Invoke(u) => RunModeView::Invoke(u@),
            RunMode::Rejected => RunModeView::Rejected,
        }
    }
}

/// What a command line asks for: the program name alone opens the editor;
/// `run` plus one argument runs the pipeline on it; all else is rejected.
pub open spec fn mode_spec(args: Seq<Seq<char>>) -> RunModeView {
    if args.len() == 1 {
        RunModeView::Configure
    } else if args.len() == 3 && args[1] == "run"@ {
        RunModeView::Invoke(args[2])
    } else {
        RunModeView::Rejected
    }
}

/// The characters of each command-line argument, in order.
pub open spec fn args_view(args: Seq<String>) -> Seq<Seq<char>> {
    args.map_values(|s: String| s@)
}

/// Decides what a command line asks for.
pub fn select_mode(args: &Vec<String>) -> (r: RunMode)
    ensures
        r@ == mode_spec(args_view(args@)),
{
    if args.len() == 1 {
        RunMode::Configure
    } else if args.len() == 3 && str_eq(args[1].as_str(), "run") {
        RunMode::Invoke(args[2].clone())
    } else {
        RunMode::Rejected
    }
}

} // verus!
