//! The launch dispatcher: what the host is handed when the server is
//! started.

use serde_json::Value;
use vstd::prelude::*;

verus! {

/// The language of the files that the server is attached to.
pub const SERVER_LANGUAGE: &'static str = "Unison";

/// The glob that the names of those files match.
pub const SERVER_PATTERN: &'static str = "**/*.{u}";

/// The scheme under which an explicit server path is made a URI.
pub const OVERRIDE_SCHEME: &'static str = "urn:";

/// One filter of a document selector: the documents of a language, under a
/// URI scheme, whose names match a glob. What is `None` is not asked for.
#[derive(Debug, PartialEq, Eq)]
pub struct DocumentFilter {
    pub language: Option<String>,
    pub scheme: Option<String>,
    pub pattern: Option<String>,
}

/// One filter of a document selector, as a mathematical value.
pub struct DocumentFilterView {
    pub language: Option<Seq<char>>,
    pub scheme: Option<Seq<char>>,
    pub pattern: Option<Seq<char>>,
}

impl View for DocumentFilter {
    type V = DocumentFilterView;

    open spec fn view(&self) -> DocumentFilterView {
        DocumentFilterView {
            language: self.language.deep_view(),
            scheme: self.scheme.deep_view(),
            pattern: self.pattern.deep_view(),
        }
    }
}

impl DeepView for DocumentFilter {
    type V = DocumentFilterView;

    open spec fn deep_view(&self) -> DocumentFilterView {
        self.view()
    }
}

/// All that the host needs to start the server: its URI, its arguments, the
/// documents it is attached to, and the configuration, handed on as it came.
#[derive(Debug, PartialEq, Eq)]
pub struct LaunchRequest {
    pub uri: String,
    pub args: Vec<String>,
    pub selector: Vec<DocumentFilter>,
    pub options: Option<Value>,
}

/// The request to start the server, as a mathematical value.
pub struct LaunchRequestView {
    pub uri: Seq<char>,
    pub args: Seq<Seq<char>>,
    pub selector: Seq<DocumentFilterView>,
    pub options: Option<Value>,
}

impl View for LaunchRequest {
    type V = LaunchRequestView;

    open spec fn view(&self) -> LaunchRequestView {
        LaunchRequestView {
            uri: self.uri@,
            args: self.args.deep_view(),
            selector: self.selector.deep_view(),
            options: self.options,
        }
    }
}

/// The selector of every launch: one filter, for the files of the server's
/// language that match its glob.
pub open spec fn fixed_selector() -> Seq<DocumentFilterView> {
    seq![
        DocumentFilterView {
            language: Some(SERVER_LANGUAGE@),
            scheme: None,
            pattern: Some(SERVER_PATTERN@),
        },
    ]
}

/// The text that is parsed as the server's URI where the configuration
/// gives the server path `path`.
pub open spec fn override_uri_text(path: Seq<char>) -> Seq<char> {
    OVERRIDE_SCHEME@ + path
}

/// The request to start the server at `uri`.
pub open spec fn launch_request(
    uri: Seq<char>,
    args: Seq<Seq<char>>,
    options: Option<Value>,
) -> LaunchRequestView {
    LaunchRequestView { uri, args, selector: fixed_selector(), options }
}

/// The selector that goes with every launch.
pub fn document_selector() -> (selector: Vec<DocumentFilter>)
    ensures
        selector.deep_view() == fixed_selector(),
{
    let filter = DocumentFilter {
        language: Some(SERVER_LANGUAGE.to_owned()),
        scheme: None,
        pattern: Some(SERVER_PATTERN.to_owned()),
    };
    let mut selector: Vec<DocumentFilter> = Vec::new();
    selector.push(filter);
    assert(selector.deep_view() =~= fixed_selector());
    selector
}

impl LaunchRequest {
    /// The request to start the server at `uri` with `args`.
    pub fn new(uri: String, args: Vec<String>, options: Option<Value>) -> (request: LaunchRequest)
        ensures
            request@ == launch_request(uri@, args.deep_view(), options),
    {
        LaunchRequest { uri, args, selector: document_selector(), options }
    }
}

} // verus!
