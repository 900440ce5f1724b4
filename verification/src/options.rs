//! The option parser: from the configuration object to the version, the
//! server's arguments and the explicit server path.
//!
//! It works in two steps. `read_config` takes out of the JSON object the
//! three fields that are read at all; `resolve` applies the rules to them,
//! and knows nothing of JSON.

use crate::json::{items, json_items, json_member, json_text, member, text};
use crate::text::{
    is_blank, is_white_space, lemma_trimmed_blank, lemma_trimmed_padding, trim, trimmed,
};
use serde_json::Value;
use vstd::prelude::*;

verus! {

/// The release that is used where the configuration names none.
pub const DEFAULT_VERSION: &'static str = "release/M4i";

/// The key of the configuration under which the launcher's fields stand.
pub const SECTION_KEY: &'static str = "volt";

/// The key of the arguments for the server.
pub const SERVER_ARGS_KEY: &'static str = "serverArgs";

/// The key of the explicit server path.
pub const SERVER_PATH_KEY: &'static str = "serverPath";

/// The key of the version.
pub const VERSION_KEY: &'static str = "ucmVersion";

/// What the configuration holds under `volt`, as far as the launcher reads
/// it. A field that is missing, or of another JSON type than the launcher
/// reads, is `None`; `server_args` is empty where `serverArgs` is no array,
/// and holds `None` in the place of each element that is no string.
#[derive(Debug, PartialEq, Eq)]
pub struct ConfigFields {
    pub server_args: Vec<Option<String>>,
    pub server_path: Option<String>,
    pub ucm_version: Option<String>,
}

/// The fields of a configuration, as mathematical values.
pub struct ConfigFieldsView {
    pub server_args: Seq<Option<Seq<char>>>,
    pub server_path: Option<Seq<char>>,
    pub ucm_version: Option<Seq<char>>,
}

impl View for ConfigFields {
    type V = ConfigFieldsView;

    open spec fn view(&self) -> ConfigFieldsView {
        ConfigFieldsView {
            server_args: self.server_args.deep_view(),
            server_path: self.server_path.deep_view(),
            ucm_version: self.ucm_version.deep_view(),
        }
    }
}

/// What one activation works with: the version to use, the arguments for
/// the server, and the server path where the configuration gives one.
#[derive(Debug, PartialEq, Eq)]
pub struct LaunchOptions {
    pub version: String,
    pub server_args: Vec<String>,
    pub server_path: Option<String>,
}

/// The options of an activation, as mathematical values.
pub struct LaunchOptionsView {
    pub version: Seq<char>,
    pub server_args: Seq<Seq<char>>,
    pub server_path: Option<Seq<char>>,
}

impl LaunchOptionsView {
    /// Options as the parser makes them: the version is not empty, nor is
    /// the server path where there is one.
    pub open spec fn well_formed(self) -> bool {
        &&& self.version.len() > 0
        &&& self.server_path matches Some(path) ==> path.len() > 0
    }
}

impl View for LaunchOptions {
    type V = LaunchOptionsView;

    open spec fn view(&self) -> LaunchOptionsView {
        LaunchOptionsView {
            version: self.version@,
            server_args: self.server_args.deep_view(),
            server_path: self.server_path.deep_view(),
        }
    }
}

/// The member of `v` under `key`, where there is a `v`.
pub open spec fn member_of(v: Option<Value>, key: Seq<char>) -> Option<Value> {
    match v {
        Some(v) => json_member(v, key),
        None => None,
    }
}

/// The text of `v`, where there is a `v` and it is a string.
pub open spec fn text_of(v: Option<Value>) -> Option<Seq<char>> {
    match v {
        Some(v) => json_text(v),
        None => None,
    }
}

/// For each element of the array `v` its text, or `None` where it is no
/// string; nothing where there is no `v` or it is no array.
pub open spec fn texts_of(v: Option<Value>) -> Seq<Option<Seq<char>>> {
    match v {
        Some(v) => match json_items(v) {
            Some(elements) => elements.map_values(|e: Value| json_text(e)),
            None => Seq::empty(),
        },
        None => Seq::empty(),
    }
}

/// The fields that `config` holds under `volt`.
pub open spec fn config_fields(config: Option<Value>) -> ConfigFieldsView {
    let section = member_of(config, SECTION_KEY@);
    ConfigFieldsView {
        server_args: texts_of(member_of(section, SERVER_ARGS_KEY@)),
        server_path: text_of(member_of(section, SERVER_PATH_KEY@)),
        ucm_version: text_of(member_of(section, VERSION_KEY@)),
    }
}

/// The version for a configured `ucmVersion`: its text without the white
/// space around it, unless nothing is left of it; else the default.
pub open spec fn resolved_version(raw: Option<Seq<char>>) -> Seq<char> {
    match raw {
        Some(t) if trimmed(t).len() > 0 => trimmed(t),
        _ => DEFAULT_VERSION@,
    }
}

/// The texts among `elements`, in their order.
pub open spec fn kept_texts(elements: Seq<Option<Seq<char>>>) -> Seq<Seq<char>> {
    elements.filter_map(|e: Option<Seq<char>>| e)
}

/// The explicit server path for a configured `serverPath`: its text, unless
/// it is empty.
pub open spec fn explicit_path(raw: Option<Seq<char>>) -> Option<Seq<char>> {
    match raw {
        Some(p) if p.len() > 0 => Some(p),
        _ => None,
    }
}

/// The options that the fields of a configuration stand for.
pub open spec fn resolved_options(fields: ConfigFieldsView) -> LaunchOptionsView {
    LaunchOptionsView {
        version: resolved_version(fields.ucm_version),
        server_args: kept_texts(fields.server_args),
        server_path: explicit_path(fields.server_path),
    }
}

/// The value behind the reference, where there is one.
spec fn owned(v: Option<&Value>) -> Option<Value> {
    match v {
        Some(v) => Some(*v),
        None => None,
    }
}

fn read_text(v: Option<&Value>) -> (r: Option<String>)
    ensures
        r.deep_view() == text_of(owned(v)),
{
    match v {
        Some(v) => match text(v) {
            Some(s) => Some(s.to_owned()),
            None => None,
        },
        None => None,
    }
}

fn read_texts(v: Option<&Value>) -> (r: Vec<Option<String>>)
    ensures
        r.deep_view() == texts_of(owned(v)),
{
    let mut r: Vec<Option<String>> = Vec::new();
    assert(r.deep_view() =~= Seq::empty());
    if let Some(v) = v {
        if let Some(elements) = items(v) {
            let mut i: usize = 0;
            while i < elements.len()
                invariant
                    i <= elements.len(),
                    r.deep_view() =~= elements@.take(i as int).map_values(|e: Value| json_text(e)),
                decreases elements.len() - i,
            {
                let ghost before = r.deep_view();
                let element = read_text(Some(&elements[i]));
                r.push(element);
                assert(r.deep_view() =~= before.push(json_text(elements@[i as int])));
                assert(elements@.take(i + 1) =~= elements@.take(i as int).push(elements@[i as int]));
                i += 1;
            }
            assert(elements@.take(i as int) =~= elements@);
        }
    }
    r
}

/// Reads from `config` what it holds under `volt`. Nothing that is missing
/// or of an unexpected type is an error.
pub fn read_config(config: &Option<Value>) -> (fields: ConfigFields)
    ensures
        fields@ == config_fields(*config),
{
    let section = match config {
        Some(options) => member(options, SECTION_KEY),
        None => None,
    };
    ConfigFields {
        server_args: read_texts(member_in(section, SERVER_ARGS_KEY)),
        server_path: read_text(member_in(section, SERVER_PATH_KEY)),
        ucm_version: read_text(member_in(section, VERSION_KEY)),
    }
}

fn member_in<'a>(v: Option<&'a Value>, key: &str) -> (r: Option<&'a Value>)
    ensures
        owned(r) == member_of(owned(v), key@),
{
    match v {
        Some(v) => member(v, key),
        None => None,
    }
}

/// The version to use for a configured `ucmVersion`.
pub fn resolve_version(raw: Option<&str>) -> (version: String)
    ensures
        version@ == resolved_version(raw.deep_view()),
        version@.len() > 0,
{
    proof {
        lemma_version_not_empty(raw.deep_view());
    }
    match raw {
        Some(t) => {
            let core = trim(t);
            if core.is_empty() {
                DEFAULT_VERSION.to_owned()
            } else {
                core.to_owned()
            }
        },
        None => DEFAULT_VERSION.to_owned(),
    }
}

/// The texts among `elements`, in their order: what is no text is skipped.
pub fn keep_texts(elements: &Vec<Option<String>>) -> (kept: Vec<String>)
    ensures
        kept.deep_view() == kept_texts(elements.deep_view()),
{
    let ghost all = elements.deep_view();
    let ghost keep = |e: Option<Seq<char>>| e;
    let mut kept: Vec<String> = Vec::new();
    let mut i: usize = 0;
    while i < elements.len()
        invariant
            i <= elements.len(),
            all == elements.deep_view(),
            keep == |e: Option<Seq<char>>| e,
            kept.deep_view() =~= all.take(i as int).filter_map(keep),
        decreases elements.len() - i,
    {
        let ghost before = kept.deep_view();
        proof {
            all.lemma_filter_map_take_succ(keep, i as int);
        }
        if let Some(s) = &elements[i] {
            kept.push(s.clone());
            assert(kept.deep_view() =~= before.push(s@));
        }
        i += 1;
    }
    assert(all.take(i as int) =~= all);
    kept
}

/// The explicit server path for a configured `serverPath`.
pub fn explicit(raw: Option<String>) -> (path: Option<String>)
    ensures
        path.deep_view() == explicit_path(raw.deep_view()),
{
    match raw {
        Some(p) => if p.as_str().is_empty() {
            None
        } else {
            Some(p)
        },
        None => None,
    }
}

/// The options that the fields of a configuration stand for.
pub fn resolve(fields: ConfigFields) -> (options: LaunchOptions)
    ensures
        options@ == resolved_options(fields@),
        options@.well_formed(),
{
    let version = match &fields.ucm_version {
        Some(t) => resolve_version(Some(t.as_str())),
        None => resolve_version(None),
    };
    LaunchOptions {
        version,
        server_args: keep_texts(&fields.server_args),
        server_path: explicit(fields.server_path),
    }
}

/// The options that `config` stands for. Every configuration has them:
/// what it leaves out is taken from the defaults.
pub fn parse_options(config: &Option<Value>) -> (options: LaunchOptions)
    ensures
        options@ == resolved_options(config_fields(*config)),
        options@.well_formed(),
{
    resolve(read_config(config))
}

/// A version is never empty.
pub proof fn lemma_version_not_empty(raw: Option<Seq<char>>)
    ensures
        resolved_version(raw).len() > 0,
{
    reveal_strlit("release/M4i");
}

/// A configuration that names no version, or only white space for one, gets
/// the default version.
pub proof fn lemma_default_version(config: Option<Value>)
    requires
        match config_fields(config).ucm_version {
            Some(t) => is_blank(t),
            None => true,
        },
    ensures
        resolved_options(config_fields(config)).version == DEFAULT_VERSION@,
{
    if let Some(t) = config_fields(config).ucm_version {
        lemma_trimmed_blank(t);
    }
}

/// A configuration that names a version with white space around it gets
/// that version without the white space.
pub proof fn lemma_version_without_padding(
    config: Option<Value>,
    left: Seq<char>,
    version: Seq<char>,
    right: Seq<char>,
)
    requires
        config_fields(config).ucm_version == Some(left + version + right),
        is_blank(left),
        is_blank(right),
        version.len() > 0,
        !is_white_space(version[0]),
        !is_white_space(version.last()),
    ensures
        resolved_options(config_fields(config)).version == version,
{
    lemma_trimmed_padding(left, version, right);
}

} // verus!
