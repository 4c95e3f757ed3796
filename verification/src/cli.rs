//! The WMIC command line: global switches, the alias/PATH/CLASS source, WHERE, the verb and
//! its switches.
//!
//! `parse` is specified by `parse_spec`, a statement of the grammar over the arguments'
//! characters; the parsed values are related to it through their views.
use vstd::prelude::*;
use crate::aliases::{
    alias_table, find_chars, find_spec, law_alias_found_by_name, law_alias_names_are_not_keywords,
    law_find_ignores_case, lemma_upper_word, upper_word, Alias,
};
use crate::text::lemma_split_without_sep;
use crate::text::{
    chars_of, ci_eq, eq_ignore_case, eq_ignore_case_str, eq_str, find_char, first_index, join,
    join_chars, lower, lower_chars, parse_unsigned, parse_unsigned_chars, slice_chars, split,
    split_chars, string_of, strings_of, strs, trim_char, trim_matches, trim_start_pair,
    trim_start_pair_chars, upper, upper_chars, views, buffers_of, copy_chars, extend,
    extend_str, lemma_index_from_bounds, nonempty_parts, trim_all, split_nonempty,
    split_trim_nonempty, lemma_lower_char_non_letter, lemma_upper_ignores_case,
    lemma_index_from_ignores_case,
};

verus! {

// ---------------------------------------------------------------------------
// Parsed values
// ---------------------------------------------------------------------------

/// The state of the global switches.
#[derive(Debug, Clone, PartialEq, Eq)]
pub struct GlobalOptions {
    pub namespace: String,
    pub role: String,
    pub nodes: Vec<String>,
    pub impersonation: String,
    pub authentication: String,
    pub locale: String,
    pub privileges: bool,
    pub trace: bool,
    pub record: Option<String>,
    pub interactive: bool,
    pub fail_fast: FailFast,
    pub user: Option<String>,
    pub password: Option<String>,
    pub authority: Option<String>,
    pub aggregate: bool,
    pub destination: Destination,
}

/// The `/FAILFAST` mode.
#[derive(Debug, Clone, Copy, PartialEq, Eq)]
pub enum FailFast {
    On,
    Off,
    Timeout(u32),
}

/// Where output goes (`/OUTPUT`, `/APPEND`).
#[derive(Debug, Clone, PartialEq, Eq)]
pub enum Destination {
    Stdout,
    Clipboard { append: bool },
    File { path: String, append: bool },
}

/// A parsed command line: the global switches and the command.
#[derive(Debug, Clone, PartialEq, Eq)]
pub struct Invocation {
    pub globals: GlobalOptions,
    pub command: Command,
}

#[derive(Debug, Clone, PartialEq, Eq)]
pub enum Command {
    Help(HelpTopic),
    Context,
    Exit,
    Query(Box<Query>),
}

#[derive(Debug, Clone, PartialEq, Eq)]
pub enum HelpTopic {
    Global,
    Alias(String),
    Command(String),
    Switch(String),
}

/// A query against an alias, a PATH or a CLASS.
#[derive(Debug, Clone, PartialEq, Eq)]
pub struct Query {
    pub source: Source,
    pub filter: Option<String>,
    pub verb: Verb,
    pub format: OutputFormat,
    pub every: Option<u64>,
    pub translate: Option<String>,
}

/// What a query reads: the spelling given, the WMI class and namespace it resolves to.
#[derive(Debug, Clone, PartialEq, Eq)]
pub struct Source {
    pub spelling: String,
    pub class: String,
    pub namespace: String,
    pub kind: SourceKind,
}

#[derive(Debug, Clone, Copy, PartialEq, Eq)]
pub enum SourceKind {
    Alias,
    Path,
    Class,
}

#[derive(Debug, Clone, PartialEq, Eq)]
pub enum Verb {
    Get(Vec<String>),
    List(ListMode),
    Call { method: String, arguments: String },
    SetValues(String),
    Create(String),
    Delete,
    Assoc(AssocOptions),
}

#[derive(Debug, Clone, Copy, PartialEq, Eq)]
pub enum ListMode {
    Brief,
    Full,
    Instance,
    Status,
    System,
}

#[derive(Debug, Clone, PartialEq, Eq)]
pub struct AssocOptions {
    pub result_class: Option<String>,
    pub result_role: Option<String>,
    pub assoc_class: Option<String>,
}

#[derive(Debug, Clone, PartialEq, Eq)]
pub enum OutputFormat {
    Table,
    Value,
    Csv,
    List,
    RawXml,
    HForm,
    HTable,
    Custom(String),
}

/// A command line that WMIC rejects, with its diagnostic.
#[derive(Debug, Clone, PartialEq, Eq)]
pub struct ParseError(pub String);

// ---------------------------------------------------------------------------
// Views: the same values with text as character sequences
// ---------------------------------------------------------------------------

pub struct GlobalsView {
    pub namespace: Seq<char>,
    pub role: Seq<char>,
    pub nodes: Seq<Seq<char>>,
    pub impersonation: Seq<char>,
    pub authentication: Seq<char>,
    pub locale: Seq<char>,
    pub privileges: bool,
    pub trace: bool,
    pub record: Option<Seq<char>>,
    pub interactive: bool,
    pub fail_fast: FailFast,
    pub user: Option<Seq<char>>,
    pub password: Option<Seq<char>>,
    pub authority: Option<Seq<char>>,
    pub aggregate: bool,
    pub destination: DestinationView,
}

pub enum DestinationView {
    Stdout,
    Clipboard { append: bool },
    File { path: Seq<char>, append: bool },
}

pub struct InvocationView {
    pub globals: GlobalsView,
    pub command: CommandView,
}

pub enum CommandView {
    Help(HelpTopicView),
    Context,
    Exit,
    Query(QueryView),
}

pub enum HelpTopicView {
    Global,
    Alias(Seq<char>),
    Command(Seq<char>),
    Switch(Seq<char>),
}

pub struct QueryView {
    pub source: SourceView,
    pub filter: Option<Seq<char>>,
    pub verb: VerbView,
    pub format: FormatView,
    pub every: Option<u64>,
    pub translate: Option<Seq<char>>,
}

pub struct SourceView {
    pub spelling: Seq<char>,
    pub class: Seq<char>,
    pub namespace: Seq<char>,
    pub kind: SourceKind,
}

pub enum VerbView {
    Get(Seq<Seq<char>>),
    List(ListMode),
    Call { method: Seq<char>, arguments: Seq<char> },
    SetValues(Seq<char>),
    Create(Seq<char>),
    Delete,
    Assoc(AssocView),
}

pub struct AssocView {
    pub result_class: Option<Seq<char>>,
    pub result_role: Option<Seq<char>>,
    pub assoc_class: Option<Seq<char>>,
}

pub enum FormatView {
    Table,
    Value,
    Csv,
    List,
    RawXml,
    HForm,
    HTable,
    Custom(Seq<char>),
}

pub open spec fn opt_view(o: Option<String>) -> Option<Seq<char>> {
    match o {
        Some(s) => Some(s@),
        None => None,
    }
}

impl View for GlobalOptions {
    type V = GlobalsView;

    open spec fn view(&self) -> GlobalsView {
        GlobalsView {
            namespace: self.namespace@,
            role: self.role@,
            nodes: strs(self.nodes@),
            impersonation: self.impersonation@,
            authentication: self.authentication@,
            locale: self.locale@,
            privileges: self.privileges,
            trace: self.trace,
            record: opt_view(self.record),
            interactive: self.interactive,
            fail_fast: self.fail_fast,
            user: opt_view(self.user),
            password: opt_view(self.password),
            authority: opt_view(self.authority),
            aggregate: self.aggregate,
            destination: self.destination@,
        }
    }
}

impl View for Destination {
    type V = DestinationView;

    open spec fn view(&self) -> DestinationView {
        match self {
            Destination::Stdout => DestinationView::Stdout,
            Destination::Clipboard { append } => DestinationView::Clipboard { append: *append },
            Destination::File { path, append } => DestinationView::File {
                path: path@,
                append: *append,
            },
        }
    }
}

impl View for Invocation {
    type V = InvocationView;

    open spec fn view(&self) -> InvocationView {
        InvocationView { globals: self.globals@, command: self.command@ }
    }
}

impl View for Command {
    type V = CommandView;

    open spec fn view(&self) -> CommandView {
        match self {
            Command::Help(topic) => CommandView::Help(topic@),
            Command::Context => CommandView::Context,
            Command::Exit => CommandView::Exit,
            Command::Query(query) => CommandView::Query((**query)@),
        }
    }
}

impl View for HelpTopic {
    type V = HelpTopicView;

    open spec fn view(&self) -> HelpTopicView {
        match self {
            HelpTopic::Global => HelpTopicView::Global,
            HelpTopic::Alias(name) => HelpTopicView::Alias(name@),
            HelpTopic::Command(name) => HelpTopicView::Command(name@),
            HelpTopic::Switch(name) => HelpTopicView::Switch(name@),
        }
    }
}

impl View for Query {
    type V = QueryView;

    open spec fn view(&self) -> QueryView {
        QueryView {
            source: self.source@,
            filter: opt_view(self.filter),
            verb: self.verb@,
            format: self.format@,
            every: self.every,
            translate: opt_view(self.translate),
        }
    }
}

impl View for Source {
    type V = SourceView;

    open spec fn view(&self) -> SourceView {
        SourceView {
            spelling: self.spelling@,
            class: self.class@,
            namespace: self.namespace@,
            kind: self.kind,
        }
    }
}

impl View for Verb {
    type V = VerbView;

    open spec fn view(&self) -> VerbView {
        match self {
            Verb::Get(properties) => VerbView::Get(strs(properties@)),
            Verb::List(mode) => VerbView::List(*mode),
            Verb::Call { method, arguments } => VerbView::Call {
                method: method@,
                arguments: arguments@,
            },
            Verb::SetValues(assignments) => VerbView::SetValues(assignments@),
            Verb::Create(assignments) => VerbView::Create(assignments@),
            Verb::Delete => VerbView::Delete,
            Verb::Assoc(options) => VerbView::Assoc(options@),
        }
    }
}

impl View for AssocOptions {
    type V = AssocView;

    open spec fn view(&self) -> AssocView {
        AssocView {
            result_class: opt_view(self.result_class),
            result_role: opt_view(self.result_role),
            assoc_class: opt_view(self.assoc_class),
        }
    }
}

impl View for OutputFormat {
    type V = FormatView;

    open spec fn view(&self) -> FormatView {
        match self {
            OutputFormat::Table => FormatView::Table,
            OutputFormat::Value => FormatView::Value,
            OutputFormat::Csv => FormatView::Csv,
            OutputFormat::List => FormatView::List,
            OutputFormat::RawXml => FormatView::RawXml,
            OutputFormat::HForm => FormatView::HForm,
            OutputFormat::HTable => FormatView::HTable,
            OutputFormat::Custom(name) => FormatView::Custom(name@),
        }
    }
}


// ---------------------------------------------------------------------------
// Defaults
// ---------------------------------------------------------------------------

/// The global switches before any is given.
pub open spec fn default_globals() -> GlobalsView {
    GlobalsView {
        namespace: "root\\cimv2"@,
        role: "root\\cli"@,
        nodes: seq!["localhost"@],
        impersonation: "Impersonate"@,
        authentication: "Packet"@,
        locale: "ms_409"@,
        privileges: false,
        trace: false,
        record: None,
        interactive: true,
        fail_fast: FailFast::Off,
        user: None,
        password: None,
        authority: None,
        aggregate: true,
        destination: DestinationView::Stdout,
    }
}

impl Default for GlobalOptions {
    fn default() -> (r: Self)
        ensures
            r@ == default_globals(),
    {
        let nodes: Vec<String> = vec![String::from_str("localhost")];
        let r = GlobalOptions {
            namespace: String::from_str("root\\cimv2"),
            role: String::from_str("root\\cli"),
            nodes,
            impersonation: String::from_str("Impersonate"),
            authentication: String::from_str("Packet"),
            locale: String::from_str("ms_409"),
            privileges: false,
            trace: false,
            record: None,
            interactive: true,
            fail_fast: FailFast::Off,
            user: None,
            password: None,
            authority: None,
            aggregate: true,
            destination: Destination::Stdout,
        };
        assert(strs(r.nodes@) =~= seq!["localhost"@]);
        r
    }
}

impl Default for AssocOptions {
    fn default() -> (r: Self)
        ensures
            r@ == default_assoc(),
    {
        AssocOptions { result_class: None, result_role: None, assoc_class: None }
    }
}

pub open spec fn default_assoc() -> AssocView {
    AssocView { result_class: None, result_role: None, assoc_class: None }
}

// ---------------------------------------------------------------------------
// Tokens
// ---------------------------------------------------------------------------

/// A help request: `/?` or, ignoring ASCII case, `/?brief`, `/?full`, `/?:brief`, `/?:full`.
pub open spec fn is_help_spec(v: Seq<char>) -> bool {
    v == "/?"@ || ci_eq(v, "/?brief"@) || ci_eq(v, "/?full"@) || ci_eq(v, "/?:brief"@) || ci_eq(
        v,
        "/?:full"@,
    )
}

/// A verb keyword, ignoring ASCII case.
pub open spec fn is_verb_spec(v: Seq<char>) -> bool {
    ci_eq(v, "get"@) || ci_eq(v, "list"@) || ci_eq(v, "call"@) || ci_eq(v, "set"@) || ci_eq(
        v,
        "create"@,
    ) || ci_eq(v, "delete"@) || ci_eq(v, "assoc"@)
}

/// A switch without its leading `/`.
pub open spec fn switch_body(v: Seq<char>) -> Seq<char> {
    if v.len() > 0 && v[0] == '/' {
        v.drop_first()
    } else {
        v
    }
}

/// A switch's name: the text after an optional leading `/` up to the first `:`.
pub open spec fn switch_name(v: Seq<char>) -> Seq<char> {
    let body = switch_body(v);
    match first_index(body, ':') {
        Some(i) => body.take(i),
        None => body,
    }
}

/// A switch's value: the text after the first `:`, if there is one.
pub open spec fn switch_value(v: Seq<char>) -> Option<Seq<char>> {
    let body = switch_body(v);
    match first_index(body, ':') {
        Some(i) => Some(body.skip(i + 1)),
        None => None,
    }
}

/// A switch that a query accepts, by name and ignoring ASCII case.
pub open spec fn is_query_switch_spec(v: Seq<char>) -> bool {
    let n = switch_name(v);
    ci_eq(n, "VALUE"@) || ci_eq(n, "ALL"@) || ci_eq(n, "FORMAT"@) || ci_eq(n, "EVERY"@) || ci_eq(
        n,
        "TRANSLATE"@,
    ) || ci_eq(n, "RESULTCLASS"@) || ci_eq(n, "RESULTROLE"@) || ci_eq(n, "ASSOCCLASS"@)
}

/// A global switch, by name and ignoring ASCII case.
pub open spec fn is_global_switch_spec(v: Seq<char>) -> bool {
    let n = switch_name(v);
    ci_eq(n, "NAMESPACE"@) || ci_eq(n, "ROLE"@) || ci_eq(n, "NODE"@) || ci_eq(n, "IMPLEVEL"@)
        || ci_eq(n, "AUTHLEVEL"@) || ci_eq(n, "LOCALE"@) || ci_eq(n, "PRIVILEGES"@) || ci_eq(
        n,
        "TRACE"@,
    ) || ci_eq(n, "RECORD"@) || ci_eq(n, "INTERACTIVE"@) || ci_eq(n, "FAILFAST"@) || ci_eq(
        n,
        "USER"@,
    ) || ci_eq(n, "PASSWORD"@) || ci_eq(n, "OUTPUT"@) || ci_eq(n, "APPEND"@) || ci_eq(
        n,
        "AGGREGATE"@,
    ) || ci_eq(n, "AUTHORITY"@)
}

/// A switch's value, which must be present and non-empty.
pub open spec fn require_value_spec(name: Seq<char>, value: Option<Seq<char>>) -> Result<
    Seq<char>,
    Seq<char>,
> {
    match value {
        Some(v) => if v.len() > 0 {
            Ok(v)
        } else {
            Err("/"@ + name + " requires a value"@)
        },
        None => Err("/"@ + name + " requires a value"@),
    }
}

/// An on/off switch value: `on`, `enable`, `true` or `off`, `disable`, `false`, ignoring
/// ASCII case.
pub open spec fn on_off_spec(name: Seq<char>, value: Option<Seq<char>>) -> Result<
    bool,
    Seq<char>,
> {
    match require_value_spec(name, value) {
        Err(e) => Err(e),
        Ok(v) => {
            let l = lower(v);
            if l == "on"@ || l == "enable"@ || l == "true"@ {
                Ok(true)
            } else if l == "off"@ || l == "disable"@ || l == "false"@ {
                Ok(false)
            } else {
                Err("Invalid /"@ + name + " value: "@ + l)
            }
        },
    }
}

/// The computers that a `/NODE` value lists: comma-separated, each stripped of double
/// quotes, empty ones dropped.
pub open spec fn node_list(v: Seq<char>) -> Seq<Seq<char>> {
    nonempty_parts(trim_all(split(v, ','), '"'))
}

/// The destination that `/OUTPUT` (or, with `append`, `/APPEND`) names.
pub open spec fn destination_spec(target: Seq<char>, append: bool) -> DestinationView {
    if ci_eq(target, "stdout"@) {
        DestinationView::Stdout
    } else if ci_eq(target, "clipboard"@) {
        DestinationView::Clipboard { append }
    } else {
        DestinationView::File { path: target, append }
    }
}

/// The `/FAILFAST` mode that a value gives: `on`, `off` (ignoring ASCII case) or a timeout
/// that fits in `u32`.
pub open spec fn fail_fast_spec(v: Seq<char>) -> Result<FailFast, Seq<char>> {
    if lower(v) == "on"@ {
        Ok(FailFast::On)
    } else if lower(v) == "off"@ {
        Ok(FailFast::Off)
    } else {
        match parse_unsigned(v, 4294967295) {
            Some(n) => Ok(FailFast::Timeout(n as u32)),
            None => Err("Invalid /FAILFAST value: "@ + v),
        }
    }
}

/// The global switches after one more switch is applied.
pub open spec fn apply_switch_spec(g: GlobalsView, token: Seq<char>) -> Result<
    GlobalsView,
    Seq<char>,
> {
    let name = switch_name(token);
    let value = switch_value(token);
    let u = upper(name);
    if u == "NAMESPACE"@ {
        match require_value_spec(name, value) {
            Ok(v) => Ok(GlobalsView { namespace: trim_start_pair(v, '\\'), ..g }),
            Err(e) => Err(e),
        }
    } else if u == "ROLE"@ {
        match require_value_spec(name, value) {
            Ok(v) => Ok(GlobalsView { role: trim_start_pair(v, '\\'), ..g }),
            Err(e) => Err(e),
        }
    } else if u == "NODE"@ {
        match require_value_spec(name, value) {
            Ok(v) => if node_list(v).len() == 0 {
                Err("/NODE requires at least one computer"@)
            } else {
                Ok(GlobalsView { nodes: node_list(v), ..g })
            },
            Err(e) => Err(e),
        }
    } else if u == "IMPLEVEL"@ {
        match require_value_spec(name, value) {
            Ok(v) => Ok(GlobalsView { impersonation: v, ..g }),
            Err(e) => Err(e),
        }
    } else if u == "AUTHLEVEL"@ {
        match require_value_spec(name, value) {
            Ok(v) => Ok(GlobalsView { authentication: v, ..g }),
            Err(e) => Err(e),
        }
    } else if u == "LOCALE"@ {
        match require_value_spec(name, value) {
            Ok(v) => Ok(GlobalsView { locale: v, ..g }),
            Err(e) => Err(e),
        }
    } else if u == "PRIVILEGES"@ {
        match on_off_spec(name, value) {
            Ok(b) => Ok(GlobalsView { privileges: b, ..g }),
            Err(e) => Err(e),
        }
    } else if u == "TRACE"@ {
        match on_off_spec(name, value) {
            Ok(b) => Ok(GlobalsView { trace: b, ..g }),
            Err(e) => Err(e),
        }
    } else if u == "RECORD"@ {
        match require_value_spec(name, value) {
            Ok(v) => Ok(GlobalsView { record: Some(v), ..g }),
            Err(e) => Err(e),
        }
    } else if u == "INTERACTIVE"@ {
        match on_off_spec(name, value) {
            Ok(b) => Ok(GlobalsView { interactive: b, ..g }),
            Err(e) => Err(e),
        }
    } else if u == "FAILFAST"@ {
        match require_value_spec(name, value) {
            Ok(v) => match fail_fast_spec(v) {
                Ok(f) => Ok(GlobalsView { fail_fast: f, ..g }),
                Err(e) => Err(e),
            },
            Err(e) => Err(e),
        }
    } else if u == "USER"@ {
        match require_value_spec(name, value) {
            Ok(v) => Ok(GlobalsView { user: Some(v), ..g }),
            Err(e) => Err(e),
        }
    } else if u == "PASSWORD"@ {
        match require_value_spec(name, value) {
            Ok(v) => Ok(GlobalsView { password: Some(v), ..g }),
            Err(e) => Err(e),
        }
    } else if u == "AUTHORITY"@ {
        match require_value_spec(name, value) {
            Ok(v) => Ok(GlobalsView { authority: Some(v), ..g }),
            Err(e) => Err(e),
        }
    } else if u == "AGGREGATE"@ {
        match on_off_spec(name, value) {
            Ok(b) => Ok(GlobalsView { aggregate: b, ..g }),
            Err(e) => Err(e),
        }
    } else if u == "OUTPUT"@ || u == "APPEND"@ {
        match require_value_spec(name, value) {
            Ok(v) => Ok(
                GlobalsView { destination: destination_spec(v, ci_eq(name, "APPEND"@)), ..g },
            ),
            Err(e) => Err(e),
        }
    } else {
        Err("Invalid global switch: "@ + token)
    }
}


// ---------------------------------------------------------------------------
// Executable token predicates
// ---------------------------------------------------------------------------

pub open spec fn opt_chars(o: Option<Vec<char>>) -> Option<Seq<char>> {
    match o {
        Some(v) => Some(v@),
        None => None,
    }
}

fn is_help(v: &Vec<char>) -> (r: bool)
    ensures
        r == is_help_spec(v@),
{
    eq_str(v, "/?") || eq_ignore_case_str(v, "/?brief") || eq_ignore_case_str(v, "/?full")
        || eq_ignore_case_str(v, "/?:brief") || eq_ignore_case_str(v, "/?:full")
}

fn is_verb(v: &Vec<char>) -> (r: bool)
    ensures
        r == is_verb_spec(v@),
{
    eq_ignore_case_str(v, "get") || eq_ignore_case_str(v, "list") || eq_ignore_case_str(v, "call")
        || eq_ignore_case_str(v, "set") || eq_ignore_case_str(v, "create") || eq_ignore_case_str(
        v,
        "delete",
    ) || eq_ignore_case_str(v, "assoc")
}

/// Splits a switch into its name and optional value.
fn split_switch(v: &Vec<char>) -> (r: (Vec<char>, Option<Vec<char>>))
    ensures
        r.0@ == switch_name(v@),
        opt_chars(r.1) == switch_value(v@),
{
    let body = if v.len() > 0 && v[0] == '/' {
        slice_chars(v, 1, v.len())
    } else {
        copy_chars(v)
    };
    assert(body@ =~= switch_body(v@));
    match find_char(&body, ':') {
        Some(i) => {
            proof {
                lemma_index_from_bounds(body@, ':', 0);
            }
            let name = slice_chars(&body, 0, i);
            let value = slice_chars(&body, i + 1, body.len());
            assert(name@ =~= body@.take(i as int));
            assert(value@ =~= body@.skip(i + 1));
            (name, Some(value))
        },
        None => (body, None),
    }
}

fn is_query_switch(v: &Vec<char>) -> (r: bool)
    ensures
        r == is_query_switch_spec(v@),
{
    let (n, _value) = split_switch(v);
    eq_ignore_case_str(&n, "VALUE") || eq_ignore_case_str(&n, "ALL") || eq_ignore_case_str(
        &n,
        "FORMAT",
    ) || eq_ignore_case_str(&n, "EVERY") || eq_ignore_case_str(&n, "TRANSLATE")
        || eq_ignore_case_str(&n, "RESULTCLASS") || eq_ignore_case_str(&n, "RESULTROLE")
        || eq_ignore_case_str(&n, "ASSOCCLASS")
}

fn is_global_switch(v: &Vec<char>) -> (r: bool)
    ensures
        r == is_global_switch_spec(v@),
{
    let (n, _value) = split_switch(v);
    eq_ignore_case_str(&n, "NAMESPACE") || eq_ignore_case_str(&n, "ROLE") || eq_ignore_case_str(
        &n,
        "NODE",
    ) || eq_ignore_case_str(&n, "IMPLEVEL") || eq_ignore_case_str(&n, "AUTHLEVEL")
        || eq_ignore_case_str(&n, "LOCALE") || eq_ignore_case_str(&n, "PRIVILEGES")
        || eq_ignore_case_str(&n, "TRACE") || eq_ignore_case_str(&n, "RECORD")
        || eq_ignore_case_str(&n, "INTERACTIVE") || eq_ignore_case_str(&n, "FAILFAST")
        || eq_ignore_case_str(&n, "USER") || eq_ignore_case_str(&n, "PASSWORD")
        || eq_ignore_case_str(&n, "OUTPUT") || eq_ignore_case_str(&n, "APPEND")
        || eq_ignore_case_str(&n, "AGGREGATE") || eq_ignore_case_str(&n, "AUTHORITY")
}

/// The message `prefix + s`.
fn prefixed(prefix: &str, s: &Vec<char>) -> (r: Vec<char>)
    ensures
        r@ == prefix@ + s@,
{
    let mut out = chars_of(prefix);
    extend(&mut out, s);
    out
}

/// The message `prefix + s + suffix`.
fn message(prefix: &str, s: &Vec<char>, suffix: &str) -> (r: Vec<char>)
    ensures
        r@ == prefix@ + s@ + suffix@,
{
    let mut out = chars_of(prefix);
    extend(&mut out, s);
    extend_str(&mut out, suffix);
    out
}

fn require_value(name: &Vec<char>, value: &Option<Vec<char>>) -> (r: Result<Vec<char>, Vec<char>>)
    ensures
        match r {
            Ok(v) => require_value_spec(name@, opt_chars(*value)) == Ok::<Seq<char>, Seq<char>>(v@),
            Err(e) => require_value_spec(name@, opt_chars(*value)) == Err::<Seq<char>, Seq<char>>(e@),
        },
{
    match value {
        Some(v) => {
            if v.len() > 0 {
                Ok(copy_chars(v))
            } else {
                Err(message("/", name, " requires a value"))
            }
        },
        None => Err(message("/", name, " requires a value")),
    }
}

fn on_off(name: &Vec<char>, value: &Option<Vec<char>>) -> (r: Result<bool, Vec<char>>)
    ensures
        match r {
            Ok(b) => on_off_spec(name@, opt_chars(*value)) == Ok::<bool, Seq<char>>(b),
            Err(e) => on_off_spec(name@, opt_chars(*value)) == Err::<bool, Seq<char>>(e@),
        },
{
    match require_value(name, value) {
        Err(e) => Err(e),
        Ok(v) => {
            let l = lower_chars(&v);
            if eq_str(&l, "on") || eq_str(&l, "enable") || eq_str(&l, "true") {
                Ok(true)
            } else if eq_str(&l, "off") || eq_str(&l, "disable") || eq_str(&l, "false") {
                Ok(false)
            } else {
                let mut m = message("Invalid /", name, " value: ");
                extend(&mut m, &l);
                Err(m)
            }
        },
    }
}


fn destination(target: &Vec<char>, append: bool) -> (r: Destination)
    ensures
        r@ == destination_spec(target@, append),
{
    if eq_ignore_case_str(target, "stdout") {
        Destination::Stdout
    } else if eq_ignore_case_str(target, "clipboard") {
        Destination::Clipboard { append }
    } else {
        Destination::File { path: string_of(target), append }
    }
}

fn fail_fast(v: &Vec<char>) -> (r: Result<FailFast, Vec<char>>)
    ensures
        match r {
            Ok(f) => fail_fast_spec(v@) == Ok::<FailFast, Seq<char>>(f),
            Err(e) => fail_fast_spec(v@) == Err::<FailFast, Seq<char>>(e@),
        },
{
    let l = lower_chars(v);
    if eq_str(&l, "on") {
        Ok(FailFast::On)
    } else if eq_str(&l, "off") {
        Ok(FailFast::Off)
    } else {
        match parse_unsigned_chars(v, 4294967295u64) {
            Some(n) => {
                let t: u32 = n as u32;
                assert(t as nat == n as nat);
                Ok(FailFast::Timeout(t))
            },
            None => Err(prefixed("Invalid /FAILFAST value: ", v)),
        }
    }
}

/// Applies one global switch.
fn apply_global_switch(g: GlobalOptions, token: &Vec<char>) -> (r: Result<GlobalOptions, Vec<char>>)
    ensures
        match r {
            Ok(g2) => apply_switch_spec(g@, token@) == Ok::<GlobalsView, Seq<char>>(g2@),
            Err(e) => apply_switch_spec(g@, token@) == Err::<GlobalsView, Seq<char>>(e@),
        },
{
    let (name, value) = split_switch(token);
    let u = upper_chars(&name);
    if eq_str(&u, "NAMESPACE") {
        match require_value(&name, &value) {
            Err(e) => Err(e),
            Ok(v) => {
                let mut g = g;
                g.namespace = string_of(&trim_start_pair_chars(&v, '\\'));
                Ok(g)
            },
        }
    } else if eq_str(&u, "ROLE") {
        match require_value(&name, &value) {
            Err(e) => Err(e),
            Ok(v) => {
                let mut g = g;
                g.role = string_of(&trim_start_pair_chars(&v, '\\'));
                Ok(g)
            },
        }
    } else if eq_str(&u, "NODE") {
        match require_value(&name, &value) {
            Err(e) => Err(e),
            Ok(v) => {
                let nodes = split_trim_nonempty(&v, ',', '"');
                if nodes.len() == 0 {
                    Err(chars_of("/NODE requires at least one computer"))
                } else {
                    let mut g = g;
                    g.nodes = strings_of(&nodes);
                    Ok(g)
                }
            },
        }
    } else if eq_str(&u, "IMPLEVEL") {
        match require_value(&name, &value) {
            Err(e) => Err(e),
            Ok(v) => {
                let mut g = g;
                g.impersonation = string_of(&v);
                Ok(g)
            },
        }
    } else if eq_str(&u, "AUTHLEVEL") {
        match require_value(&name, &value) {
            Err(e) => Err(e),
            Ok(v) => {
                let mut g = g;
                g.authentication = string_of(&v);
                Ok(g)
            },
        }
    } else if eq_str(&u, "LOCALE") {
        match require_value(&name, &value) {
            Err(e) => Err(e),
            Ok(v) => {
                let mut g = g;
                g.locale = string_of(&v);
                Ok(g)
            },
        }
    } else if eq_str(&u, "PRIVILEGES") {
        match on_off(&name, &value) {
            Err(e) => Err(e),
            Ok(b) => {
                let mut g = g;
                g.privileges = b;
                Ok(g)
            },
        }
    } else if eq_str(&u, "TRACE") {
        match on_off(&name, &value) {
            Err(e) => Err(e),
            Ok(b) => {
                let mut g = g;
                g.trace = b;
                Ok(g)
            },
        }
    } else if eq_str(&u, "RECORD") {
        match require_value(&name, &value) {
            Err(e) => Err(e),
            Ok(v) => {
                let mut g = g;
                g.record = Some(string_of(&v));
                Ok(g)
            },
        }
    } else if eq_str(&u, "INTERACTIVE") {
        match on_off(&name, &value) {
            Err(e) => Err(e),
            Ok(b) => {
                let mut g = g;
                g.interactive = b;
                Ok(g)
            },
        }
    } else if eq_str(&u, "FAILFAST") {
        match require_value(&name, &value) {
            Err(e) => Err(e),
            Ok(v) => {
                match fail_fast(&v) {
                    Err(e) => Err(e),
                    Ok(f) => {
                        let mut g = g;
                        g.fail_fast = f;
                        Ok(g)
                    },
                }
            },
        }
    } else if eq_str(&u, "USER") {
        match require_value(&name, &value) {
            Err(e) => Err(e),
            Ok(v) => {
                let mut g = g;
                g.user = Some(string_of(&v));
                Ok(g)
            },
        }
    } else if eq_str(&u, "PASSWORD") {
        match require_value(&name, &value) {
            Err(e) => Err(e),
            Ok(v) => {
                let mut g = g;
                g.password = Some(string_of(&v));
                Ok(g)
            },
        }
    } else if eq_str(&u, "AUTHORITY") {
        match require_value(&name, &value) {
            Err(e) => Err(e),
            Ok(v) => {
                let mut g = g;
                g.authority = Some(string_of(&v));
                Ok(g)
            },
        }
    } else if eq_str(&u, "AGGREGATE") {
        match on_off(&name, &value) {
            Err(e) => Err(e),
            Ok(b) => {
                let mut g = g;
                g.aggregate = b;
                Ok(g)
            },
        }
    } else if eq_str(&u, "OUTPUT") || eq_str(&u, "APPEND") {
        let append = eq_ignore_case_str(&name, "APPEND");
        match require_value(&name, &value) {
            Err(e) => Err(e),
            Ok(v) => {
                let mut g = g;
                g.destination = destination(&v, append);
                Ok(g)
            },
        }
    } else {
        Err(prefixed("Invalid global switch: ", token))
    }
}


// ---------------------------------------------------------------------------
// The query grammar
// ---------------------------------------------------------------------------

/// The first index at or after `c` that holds a verb or a query switch (or the end).
pub open spec fn scan_where(args: Seq<Seq<char>>, c: int) -> int
    decreases args.len() - c,
{
    if c < 0 || c >= args.len() {
        c
    } else if is_verb_spec(args[c]) || is_query_switch_spec(args[c]) {
        c
    } else {
        scan_where(args, c + 1)
    }
}

/// The first index at or after `c` that holds a query switch (or the end).
pub open spec fn scan_switch(args: Seq<Seq<char>>, c: int) -> int
    decreases args.len() - c,
{
    if c < 0 || c >= args.len() {
        c
    } else if is_query_switch_spec(args[c]) {
        c
    } else {
        scan_switch(args, c + 1)
    }
}

/// The properties that GET arguments name: each argument split at commas, empty names dropped.
pub open spec fn property_list(tokens: Seq<Seq<char>>) -> Seq<Seq<char>>
    decreases tokens.len(),
{
    if tokens.len() == 0 {
        Seq::empty()
    } else {
        property_list(tokens.drop_last()) + nonempty_parts(split(tokens.last(), ','))
    }
}

/// A LIST mode keyword, ignoring ASCII case.
pub open spec fn list_mode_spec(v: Seq<char>) -> Option<ListMode> {
    let u = upper(v);
    if u == "BRIEF"@ {
        Some(ListMode::Brief)
    } else if u == "FULL"@ {
        Some(ListMode::Full)
    } else if u == "INSTANCE"@ {
        Some(ListMode::Instance)
    } else if u == "STATUS"@ {
        Some(ListMode::Status)
    } else if u == "SYSTEM"@ {
        Some(ListMode::System)
    } else {
        None
    }
}

/// A `/FORMAT` value: a known format ignoring ASCII case, else a custom style kept as given.
pub open spec fn format_spec(v: Seq<char>) -> FormatView {
    let l = lower(v);
    if l == "table"@ {
        FormatView::Table
    } else if l == "value"@ || l == "list"@ {
        FormatView::Value
    } else if l == "csv"@ {
        FormatView::Csv
    } else if l == "rawxml"@ {
        FormatView::RawXml
    } else if l == "hform"@ {
        FormatView::HForm
    } else if l == "htable"@ {
        FormatView::HTable
    } else {
        FormatView::Custom(v)
    }
}

/// The output format a verb has before any format switch: LIST prints as a list, ASSOC as an
/// HTML table, everything else as a table.
pub open spec fn default_format_spec(verb: VerbView) -> FormatView {
    match verb {
        VerbView::List(_) => FormatView::List,
        VerbView::Assoc(_) => FormatView::HTable,
        _ => FormatView::Table,
    }
}

/// The optional leading `WHERE <condition>`: the condition's tokens joined by spaces, and the
/// index after them.
pub open spec fn where_stage(args: Seq<Seq<char>>) -> Result<(Option<Seq<char>>, int), Seq<char>> {
    if args.len() > 0 && ci_eq(args[0], "where"@) {
        let e = scan_where(args, 1);
        if e == 1 {
            Err("WHERE requires a condition"@)
        } else {
            Ok((Some(join(args.subrange(1, e), " "@)), e))
        }
    } else {
        Ok((None, 0))
    }
}

/// The verb at index `c` (LIST FULL when there is none) and the index after it.
pub open spec fn verb_stage(args: Seq<Seq<char>>, c: int) -> Result<(VerbView, int), Seq<char>> {
    if c < 0 || c >= args.len() {
        Ok((VerbView::List(ListMode::Full), c))
    } else {
        let t = args[c];
        if ci_eq(t, "get"@) {
            let e = scan_switch(args, c + 1);
            let properties = property_list(args.subrange(c + 1, e));
            if properties.len() == 0 {
                Err("GET requires at least one property"@)
            } else {
                Ok((VerbView::Get(properties), e))
            }
        } else if ci_eq(t, "list"@) {
            if c + 1 < args.len() && list_mode_spec(args[c + 1]) is Some {
                Ok((VerbView::List(list_mode_spec(args[c + 1])->0), c + 2))
            } else {
                Ok((VerbView::List(ListMode::Full), c + 1))
            }
        } else if ci_eq(t, "delete"@) {
            Ok((VerbView::Delete, c + 1))
        } else if ci_eq(t, "set"@) || ci_eq(t, "create"@) {
            let create = ci_eq(t, "create"@);
            let e = scan_switch(args, c + 1);
            if e == c + 1 {
                if create {
                    Err("CREATE requires property assignments"@)
                } else {
                    Err("SET requires property assignments"@)
                }
            } else {
                let assignments = join(args.subrange(c + 1, e), " "@);
                if create {
                    Ok((VerbView::Create(assignments), e))
                } else {
                    Ok((VerbView::SetValues(assignments), e))
                }
            }
        } else if ci_eq(t, "call"@) {
            if c + 1 >= args.len() {
                Err("CALL requires a method"@)
            } else {
                let e = scan_switch(args, c + 2);
                Ok(
                    (
                        VerbView::Call {
                            method: args[c + 1],
                            arguments: join(args.subrange(c + 2, e), " "@),
                        },
                        e,
                    ),
                )
            }
        } else if ci_eq(t, "assoc"@) {
            Ok((VerbView::Assoc(default_assoc()), c + 1))
        } else if !is_query_switch_spec(t) {
            Err("Invalid verb: "@ + t)
        } else {
            Ok((VerbView::List(ListMode::Full), c))
        }
    }
}

/// What the switches after the verb set: the format, `/EVERY`, `/TRANSLATE` and, for ASSOC,
/// its options.
pub struct SwitchesView {
    pub format: FormatView,
    pub every: Option<u64>,
    pub translate: Option<Seq<char>>,
    pub assoc: Option<AssocView>,
}

/// The switches after one more query switch is applied.
pub open spec fn apply_query_switch_spec(st: SwitchesView, token: Seq<char>) -> Result<
    SwitchesView,
    Seq<char>,
> {
    let name = switch_name(token);
    let value = switch_value(token);
    let u = upper(name);
    if u == "VALUE"@ {
        Ok(SwitchesView { format: FormatView::Value, ..st })
    } else if u == "ALL"@ {
        Ok(SwitchesView { format: FormatView::Table, ..st })
    } else if u == "FORMAT"@ {
        match require_value_spec("FORMAT"@, value) {
            Ok(v) => Ok(SwitchesView { format: format_spec(v), ..st }),
            Err(e) => Err(e),
        }
    } else if u == "EVERY"@ {
        match require_value_spec("EVERY"@, value) {
            Ok(v) => match parse_unsigned(v, 18446744073709551615) {
                Some(n) => Ok(SwitchesView { every: Some(n as u64), ..st }),
                None => Err("Invalid /EVERY interval: "@ + v),
            },
            Err(e) => Err(e),
        }
    } else if u == "TRANSLATE"@ {
        match require_value_spec("TRANSLATE"@, value) {
            Ok(v) => Ok(SwitchesView { translate: Some(v), ..st }),
            Err(e) => Err(e),
        }
    } else if (u == "RESULTCLASS"@ || u == "RESULTROLE"@ || u == "ASSOCCLASS"@) && st.assoc is Some {
        match require_value_spec(name, value) {
            Ok(v) => {
                let o = st.assoc->0;
                let o2 = if u == "RESULTCLASS"@ {
                    AssocView { result_class: Some(v), ..o }
                } else if u == "RESULTROLE"@ {
                    AssocView { result_role: Some(v), ..o }
                } else {
                    AssocView { assoc_class: Some(v), ..o }
                };
                Ok(SwitchesView { assoc: Some(o2), ..st })
            },
            Err(e) => Err(e),
        }
    } else {
        Err("Invalid query switch: "@ + token)
    }
}

/// The switches from index `c` to the end, applied in order.
pub open spec fn switch_stage(args: Seq<Seq<char>>, c: int, st: SwitchesView) -> Result<
    SwitchesView,
    Seq<char>,
>
    decreases args.len() - c,
{
    if c < 0 || c >= args.len() {
        Ok(st)
    } else {
        match apply_query_switch_spec(st, args[c]) {
            Ok(st2) => switch_stage(args, c + 1, st2),
            Err(e) => Err(e),
        }
    }
}

/// A query over `source` from the tokens that follow it: WHERE, the verb, then switches.
pub open spec fn parse_query_spec(source: SourceView, args: Seq<Seq<char>>) -> Result<
    QueryView,
    Seq<char>,
> {
    match where_stage(args) {
        Err(e) => Err(e),
        Ok((filter, c1)) => match verb_stage(args, c1) {
            Err(e) => Err(e),
            Ok((verb, c2)) => {
                let st0 = SwitchesView {
                    format: default_format_spec(verb),
                    every: None,
                    translate: None,
                    assoc: match verb {
                        VerbView::Assoc(o) => Some(o),
                        _ => None,
                    },
                };
                match switch_stage(args, c2, st0) {
                    Err(e) => Err(e),
                    Ok(st) => Ok(
                        QueryView {
                            source,
                            filter,
                            verb: match st.assoc {
                                Some(o) => VerbView::Assoc(o),
                                None => verb,
                            },
                            format: st.format,
                            every: st.every,
                            translate: st.translate,
                        },
                    ),
                }
            },
        },
    }
}


// ---------------------------------------------------------------------------
// Executable query parsing
// ---------------------------------------------------------------------------

/// The tokens `args[from..to]`.
fn sub_tokens(args: &Vec<Vec<char>>, from: usize, to: usize) -> (r: Vec<Vec<char>>)
    requires
        from <= to <= args.len(),
    ensures
        views(r@) == views(args@).subrange(from as int, to as int),
{
    let mut r: Vec<Vec<char>> = Vec::new();
    let mut i: usize = from;
    while i < to
        invariant
            from <= i <= to <= args.len(),
            r@.len() == i - from,
            forall|k: int| 0 <= k < r@.len() ==> #[trigger] r@[k]@ == args@[from + k]@,
        decreases to - i,
    {
        r.push(copy_chars(&args[i]));
        i = i + 1;
    }
    assert(views(r@) =~= views(args@).subrange(from as int, to as int));
    r
}

/// The tokens `args[from..to]` joined by single spaces.
fn join_tokens(args: &Vec<Vec<char>>, from: usize, to: usize) -> (r: Vec<char>)
    requires
        from <= to <= args.len(),
    ensures
        r@ == join(views(args@).subrange(from as int, to as int), " "@),
{
    let sub = sub_tokens(args, from, to);
    let sep = chars_of(" ");
    join_chars(&sub, &sep)
}

/// Advances from `c` to the first verb or query switch.
fn scan_where_exec(args: &Vec<Vec<char>>, c: usize) -> (r: usize)
    requires
        c <= args.len(),
    ensures
        r as int == scan_where(views(args@), c as int),
        c <= r <= args.len(),
{
    let mut i = c;
    while i < args.len() && !is_verb(&args[i]) && !is_query_switch(&args[i])
        invariant
            c <= i <= args.len(),
            scan_where(views(args@), c as int) == scan_where(views(args@), i as int),
        decreases args.len() - i,
    {
        i = i + 1;
    }
    i
}

/// Advances from `c` to the first query switch.
fn scan_switch_exec(args: &Vec<Vec<char>>, c: usize) -> (r: usize)
    requires
        c <= args.len(),
    ensures
        r as int == scan_switch(views(args@), c as int),
        c <= r <= args.len(),
{
    let mut i = c;
    while i < args.len() && !is_query_switch(&args[i])
        invariant
            c <= i <= args.len(),
            scan_switch(views(args@), c as int) == scan_switch(views(args@), i as int),
        decreases args.len() - i,
    {
        i = i + 1;
    }
    i
}

/// The properties named by `args[from..to]`.
fn properties(args: &Vec<Vec<char>>, from: usize, to: usize) -> (r: Vec<Vec<char>>)
    requires
        from <= to <= args.len(),
    ensures
        views(r@) == property_list(views(args@).subrange(from as int, to as int)),
{
    let mut props: Vec<Vec<char>> = Vec::new();
    let mut i = from;
    assert(views(args@).subrange(from as int, from as int) =~= Seq::<Seq<char>>::empty());
    while i < to
        invariant
            from <= i <= to <= args.len(),
            views(props@) == property_list(views(args@).subrange(from as int, i as int)),
        decreases to - i,
    {
        let mut pieces = split_nonempty(&args[i], ',');
        let ghost before = views(props@);
        props.append(&mut pieces);
        assert(views(args@).subrange(from as int, i + 1).drop_last() =~= views(args@).subrange(
            from as int,
            i as int,
        ));
        assert(views(props@) =~= before + nonempty_parts(split(args@[i as int]@, ',')));
        i = i + 1;
    }
    props
}

fn list_mode(v: &Vec<char>) -> (r: Option<ListMode>)
    ensures
        r == list_mode_spec(v@),
{
    let u = upper_chars(v);
    if eq_str(&u, "BRIEF") {
        Some(ListMode::Brief)
    } else if eq_str(&u, "FULL") {
        Some(ListMode::Full)
    } else if eq_str(&u, "INSTANCE") {
        Some(ListMode::Instance)
    } else if eq_str(&u, "STATUS") {
        Some(ListMode::Status)
    } else if eq_str(&u, "SYSTEM") {
        Some(ListMode::System)
    } else {
        None
    }
}

fn parse_format(v: &Vec<char>) -> (r: OutputFormat)
    ensures
        r@ == format_spec(v@),
{
    let l = lower_chars(v);
    if eq_str(&l, "table") {
        OutputFormat::Table
    } else if eq_str(&l, "value") || eq_str(&l, "list") {
        OutputFormat::Value
    } else if eq_str(&l, "csv") {
        OutputFormat::Csv
    } else if eq_str(&l, "rawxml") {
        OutputFormat::RawXml
    } else if eq_str(&l, "hform") {
        OutputFormat::HForm
    } else if eq_str(&l, "htable") {
        OutputFormat::HTable
    } else {
        OutputFormat::Custom(string_of(v))
    }
}

fn default_format(verb: &Verb) -> (r: OutputFormat)
    ensures
        r@ == default_format_spec(verb@),
{
    match verb {
        Verb::List(_) => OutputFormat::List,
        Verb::Assoc(_) => OutputFormat::HTable,
        _ => OutputFormat::Table,
    }
}

fn where_clause(args: &Vec<Vec<char>>) -> (r: Result<(Option<Vec<char>>, usize), Vec<char>>)
    ensures
        match r {
            Ok((filter, c)) => where_stage(views(args@)) == Ok::<
                (Option<Seq<char>>, int),
                Seq<char>,
            >((opt_chars(filter), c as int)) && c <= args.len(),
            Err(e) => where_stage(views(args@)) == Err::<(Option<Seq<char>>, int), Seq<char>>(
                e@,
            ),
        },
{
    if args.len() > 0 && eq_ignore_case_str(&args[0], "where") {
        let e = scan_where_exec(args, 1);
        if e == 1 {
            Err(chars_of("WHERE requires a condition"))
        } else {
            Ok((Some(join_tokens(args, 1, e)), e))
        }
    } else {
        Ok((None, 0))
    }
}

fn verb_clause(args: &Vec<Vec<char>>, c: usize) -> (r: Result<(Verb, usize), Vec<char>>)
    requires
        c <= args.len(),
    ensures
        match r {
            Ok((verb, e)) => verb_stage(views(args@), c as int) == Ok::<(VerbView, int), Seq<char>>(
                (verb@, e as int),
            ) && e <= args.len(),
            Err(e) => verb_stage(views(args@), c as int) == Err::<(VerbView, int), Seq<char>>(e@),
        },
{
    let ghost a = views(args@);
    if c >= args.len() {
        return Ok((Verb::List(ListMode::Full), c));
    }
    let t = &args[c];
    assert(t@ == a[c as int]);
    if eq_ignore_case_str(t, "get") {
        let e = scan_switch_exec(args, c + 1);
        let props = properties(args, c + 1, e);
        if props.len() == 0 {
            Err(chars_of("GET requires at least one property"))
        } else {
            Ok((Verb::Get(strings_of(&props)), e))
        }
    } else if eq_ignore_case_str(t, "list") {
        if c + 1 < args.len() {
            match list_mode(&args[c + 1]) {
                Some(mode) => {
                    return Ok((Verb::List(mode), c + 2));
                },
                None => {},
            }
        }
        Ok((Verb::List(ListMode::Full), c + 1))
    } else if eq_ignore_case_str(t, "delete") {
        Ok((Verb::Delete, c + 1))
    } else if eq_ignore_case_str(t, "set") || eq_ignore_case_str(t, "create") {
        let create = eq_ignore_case_str(t, "create");
        let e = scan_switch_exec(args, c + 1);
        if e == c + 1 {
            if create {
                Err(chars_of("CREATE requires property assignments"))
            } else {
                Err(chars_of("SET requires property assignments"))
            }
        } else {
            let assignments = string_of(&join_tokens(args, c + 1, e));
            if create {
                Ok((Verb::Create(assignments), e))
            } else {
                Ok((Verb::SetValues(assignments), e))
            }
        }
    } else if eq_ignore_case_str(t, "call") {
        if c + 1 >= args.len() {
            Err(chars_of("CALL requires a method"))
        } else {
            let method = string_of(&args[c + 1]);
            let e = scan_switch_exec(args, c + 2);
            let arguments = string_of(&join_tokens(args, c + 2, e));
            Ok((Verb::Call { method, arguments }, e))
        }
    } else if eq_ignore_case_str(t, "assoc") {
        Ok((Verb::Assoc(AssocOptions::default()), c + 1))
    } else if !is_query_switch(t) {
        Err(prefixed("Invalid verb: ", t))
    } else {
        Ok((Verb::List(ListMode::Full), c))
    }
}

/// The executable counterpart of `SwitchesView`.
struct QuerySwitches {
    format: OutputFormat,
    every: Option<u64>,
    translate: Option<String>,
    assoc: Option<AssocOptions>,
}

impl View for QuerySwitches {
    type V = SwitchesView;

    closed spec fn view(&self) -> SwitchesView {
        SwitchesView {
            format: self.format@,
            every: self.every,
            translate: opt_view(self.translate),
            assoc: match self.assoc {
                Some(o) => Some(o@),
                None => None,
            },
        }
    }
}

fn apply_query_switch(st: QuerySwitches, token: &Vec<char>) -> (r: Result<QuerySwitches, Vec<char>>)
    ensures
        match r {
            Ok(st2) => apply_query_switch_spec(st@, token@) == Ok::<SwitchesView, Seq<char>>(st2@),
            Err(e) => apply_query_switch_spec(st@, token@) == Err::<SwitchesView, Seq<char>>(e@),
        },
{
    let (name, value) = split_switch(token);
    let u = upper_chars(&name);
    if eq_str(&u, "VALUE") {
        Ok(QuerySwitches { format: OutputFormat::Value, ..st })
    } else if eq_str(&u, "ALL") {
        Ok(QuerySwitches { format: OutputFormat::Table, ..st })
    } else if eq_str(&u, "FORMAT") {
        match require_value(&chars_of("FORMAT"), &value) {
            Ok(v) => Ok(QuerySwitches { format: parse_format(&v), ..st }),
            Err(e) => Err(e),
        }
    } else if eq_str(&u, "EVERY") {
        match require_value(&chars_of("EVERY"), &value) {
            Ok(v) => match parse_unsigned_chars(&v, 18446744073709551615u64) {
                Some(n) => Ok(QuerySwitches { every: Some(n), ..st }),
                None => Err(prefixed("Invalid /EVERY interval: ", &v)),
            },
            Err(e) => Err(e),
        }
    } else if eq_str(&u, "TRANSLATE") {
        match require_value(&chars_of("TRANSLATE"), &value) {
            Ok(v) => Ok(QuerySwitches { translate: Some(string_of(&v)), ..st }),
            Err(e) => Err(e),
        }
    } else if (eq_str(&u, "RESULTCLASS") || eq_str(&u, "RESULTROLE") || eq_str(&u, "ASSOCCLASS"))
        && st.assoc.is_some() {
        match require_value(&name, &value) {
            Ok(v) => {
                let mut st = st;
                let o = st.assoc.take().unwrap();
                let text = string_of(&v);
                let o2 = if eq_str(&u, "RESULTCLASS") {
                    AssocOptions { result_class: Some(text), ..o }
                } else if eq_str(&u, "RESULTROLE") {
                    AssocOptions { result_role: Some(text), ..o }
                } else {
                    AssocOptions { assoc_class: Some(text), ..o }
                };
                st.assoc = Some(o2);
                Ok(st)
            },
            Err(e) => Err(e),
        }
    } else {
        Err(prefixed("Invalid query switch: ", token))
    }
}

fn copy_text(o: &Option<String>) -> (r: Option<String>)
    ensures
        opt_view(r) == opt_view(*o),
{
    match o {
        Some(s) => Some(s.clone()),
        None => None,
    }
}

fn copy_assoc(o: &AssocOptions) -> (r: AssocOptions)
    ensures
        r@ == o@,
{
    AssocOptions {
        result_class: copy_text(&o.result_class),
        result_role: copy_text(&o.result_role),
        assoc_class: copy_text(&o.assoc_class),
    }
}

/// Parses a query over `source` from the tokens that follow it.
fn parse_query(source: Source, args: &Vec<Vec<char>>) -> (r: Result<Query, Vec<char>>)
    ensures
        match r {
            Ok(q) => parse_query_spec(source@, views(args@)) == Ok::<QueryView, Seq<char>>(q@),
            Err(e) => parse_query_spec(source@, views(args@)) == Err::<QueryView, Seq<char>>(e@),
        },
{
    let ghost a = views(args@);
    let (filter, c1) = match where_clause(args) {
        Ok(x) => x,
        Err(e) => {
            return Err(e);
        },
    };
    let (verb, c2) = match verb_clause(args, c1) {
        Ok(x) => x,
        Err(e) => {
            return Err(e);
        },
    };
    let format = default_format(&verb);
    let assoc = match &verb {
        Verb::Assoc(o) => Some(copy_assoc(o)),
        _ => None,
    };
    let mut st = QuerySwitches { format, every: None, translate: None, assoc };
    let ghost st0 = st@;
    let mut c = c2;
    while c < args.len()
        invariant
            c2 <= c <= args.len(),
            a == views(args@),
            switch_stage(a, c2 as int, st0) == switch_stage(a, c as int, st@),
            where_stage(a) == Ok::<(Option<Seq<char>>, int), Seq<char>>(
                (opt_chars(filter), c1 as int),
            ),
            verb_stage(a, c1 as int) == Ok::<(VerbView, int), Seq<char>>((verb@, c2 as int)),
            st0 == (SwitchesView {
                format: default_format_spec(verb@),
                every: None,
                translate: None,
                assoc: match verb@ {
                    VerbView::Assoc(o) => Some(o),
                    _ => None,
                },
            }),
        decreases args.len() - c,
    {
        match apply_query_switch(st, &args[c]) {
            Ok(st2) => {
                st = st2;
            },
            Err(e) => {
                return Err(e);
            },
        }
        c = c + 1;
    }
    let verb = match st.assoc {
        Some(o) => Verb::Assoc(o),
        None => verb,
    };
    let filter = match filter {
        Some(f) => Some(string_of(&f)),
        None => None,
    };
    Ok(
        Query {
            source,
            filter,
            verb,
            format: st.format,
            every: st.every,
            translate: st.translate,
        },
    )
}


// ---------------------------------------------------------------------------
// The command line
// ---------------------------------------------------------------------------

/// CONTEXT takes nothing after it but a help request.
pub open spec fn topic_or_command_spec(
    rest: Seq<Seq<char>>,
    g: GlobalsView,
    name: Seq<char>,
    command: CommandView,
) -> Result<InvocationView, Seq<char>> {
    if rest.len() == 0 {
        Ok(InvocationView { globals: g, command })
    } else if rest.len() == 1 && is_help_spec(rest[0]) {
        Ok(
            InvocationView {
                globals: g,
                command: CommandView::Help(HelpTopicView::Command(name)),
            },
        )
    } else {
        Err("Unexpected argument after "@ + name + ": "@ + rest[0])
    }
}

/// A query command under the given globals, or the query's error.
pub open spec fn with_query(g: GlobalsView, q: Result<QueryView, Seq<char>>) -> Result<
    InvocationView,
    Seq<char>,
> {
    match q {
        Ok(q) => Ok(InvocationView { globals: g, command: CommandView::Query(q) }),
        Err(e) => Err(e),
    }
}

/// The source an alias gives: its class, in its own namespace unless `/NAMESPACE` chose one
/// other than the default `root\cimv2`.
pub open spec fn alias_source(a: Alias, g: GlobalsView) -> SourceView {
    SourceView {
        spelling: a.name@,
        class: a.class@,
        namespace: if ci_eq(g.namespace, "root\\cimv2"@) {
            a.namespace@
        } else {
            g.namespace
        },
        kind: SourceKind::Alias,
    }
}

/// The command that starts at `cursor`, the first token that is neither help nor a global
/// switch.
pub open spec fn parse_command_spec(args: Seq<Seq<char>>, cursor: int, g: GlobalsView) -> Result<
    InvocationView,
    Seq<char>,
> {
    let head = args[cursor];
    let next = cursor + 1;
    if ci_eq(head, "context"@) {
        topic_or_command_spec(args.skip(next), g, "CONTEXT"@, CommandView::Context)
    } else if ci_eq(head, "quit"@) || ci_eq(head, "exit"@) {
        Ok(InvocationView { globals: g, command: CommandView::Exit })
    } else if head.len() > 0 && head[0] == '/' {
        Err("Invalid global switch: "@ + head)
    } else if ci_eq(head, "path"@) || ci_eq(head, "class"@) {
        if next >= args.len() || is_help_spec(args[next]) {
            Ok(
                InvocationView {
                    globals: g,
                    command: CommandView::Help(HelpTopicView::Command(upper(head))),
                },
            )
        } else {
            let source = SourceView {
                spelling: args[next],
                class: args[next],
                namespace: g.namespace,
                kind: if ci_eq(head, "path"@) {
                    SourceKind::Path
                } else {
                    SourceKind::Class
                },
            };
            with_query(g, parse_query_spec(source, args.skip(next + 1)))
        }
    } else {
        match find_spec(head) {
            Some(a) => if next < args.len() && is_help_spec(args[next]) {
                Ok(
                    InvocationView {
                        globals: g,
                        command: CommandView::Help(HelpTopicView::Alias(a.name@)),
                    },
                )
            } else {
                with_query(g, parse_query_spec(alias_source(a, g), args.skip(next)))
            },
            None => Err("Alias not found: "@ + head),
        }
    }
}

/// The command line from `cursor` on, with global switches applied so far giving `g`.
pub open spec fn parse_globals_spec(args: Seq<Seq<char>>, cursor: int, g: GlobalsView) -> Result<
    InvocationView,
    Seq<char>,
>
    decreases args.len() - cursor,
{
    if cursor < 0 || cursor >= args.len() {
        Ok(InvocationView { globals: g, command: CommandView::Help(HelpTopicView::Global) })
    } else {
        let t = args[cursor];
        if is_help_spec(t) {
            Ok(InvocationView { globals: g, command: CommandView::Help(HelpTopicView::Global) })
        } else if !is_global_switch_spec(t) {
            parse_command_spec(args, cursor, g)
        } else if cursor + 1 < args.len() && is_help_spec(args[cursor + 1]) && switch_value(t) is None {
            Ok(
                InvocationView {
                    globals: g,
                    command: CommandView::Help(HelpTopicView::Switch(upper(switch_name(t)))),
                },
            )
        } else {
            match apply_switch_spec(g, t) {
                Ok(g2) => parse_globals_spec(args, cursor + 1, g2),
                Err(e) => Err(e),
            }
        }
    }
}

/// The meaning of a whole command line: global switches (each applied in order, stopping at
/// a help request), then CONTEXT, QUIT/EXIT, PATH/CLASS or an alias with its query; no
/// command at all asks for global help.
pub open spec fn parse_spec(args: Seq<Seq<char>>) -> Result<InvocationView, Seq<char>> {
    parse_globals_spec(args, 0, default_globals())
}

/// The view of a parse result: the invocation, or the error's message.
pub open spec fn parse_result_view(r: Result<Invocation, ParseError>) -> Result<
    InvocationView,
    Seq<char>,
> {
    match r {
        Ok(inv) => Ok(inv@),
        Err(e) => Err(e.0@),
    }
}

fn topic_or_command(rest: &Vec<Vec<char>>, globals: GlobalOptions, name: &str, command: Command) -> (r:
    Result<Invocation, Vec<char>>)
    ensures
        match r {
            Ok(inv) => topic_or_command_spec(views(rest@), globals@, name@, command@) == Ok::<
                InvocationView,
                Seq<char>,
            >(inv@),
            Err(e) => topic_or_command_spec(views(rest@), globals@, name@, command@) == Err::<
                InvocationView,
                Seq<char>,
            >(e@),
        },
{
    if rest.len() == 0 {
        Ok(Invocation { globals, command })
    } else if rest.len() == 1 && is_help(&rest[0]) {
        Ok(
            Invocation {
                globals,
                command: Command::Help(HelpTopic::Command(String::from_str(name))),
            },
        )
    } else {
        let mut m = chars_of("Unexpected argument after ");
        extend_str(&mut m, name);
        extend_str(&mut m, ": ");
        extend(&mut m, &rest[0]);
        Err(m)
    }
}

fn query_invocation(globals: GlobalOptions, q: Result<Query, Vec<char>>) -> (r: Result<
    Invocation,
    Vec<char>,
>)
    ensures
        match r {
            Ok(inv) => match q {
                Ok(query) => inv@ == (InvocationView {
                    globals: globals@,
                    command: CommandView::Query(query@),
                }),
                Err(_) => false,
            },
            Err(e) => match q {
                Ok(_) => false,
                Err(e2) => e@ == e2@,
            },
        },
{
    match q {
        Ok(query) => Ok(Invocation { globals, command: Command::Query(Box::new(query)) }),
        Err(e) => Err(e),
    }
}

fn parse_command(args: &Vec<Vec<char>>, cursor: usize, globals: GlobalOptions) -> (r: Result<
    Invocation,
    Vec<char>,
>)
    requires
        cursor < args.len(),
    ensures
        match r {
            Ok(inv) => parse_command_spec(views(args@), cursor as int, globals@) == Ok::<
                InvocationView,
                Seq<char>,
            >(inv@),
            Err(e) => parse_command_spec(views(args@), cursor as int, globals@) == Err::<
                InvocationView,
                Seq<char>,
            >(e@),
        },
{
    let ghost a = views(args@);
    let head = &args[cursor];
    assert(head@ == a[cursor as int]);
    let next = cursor + 1;
    if eq_ignore_case_str(head, "context") {
        let rest = sub_tokens(args, next, args.len());
        assert(views(rest@) =~= a.skip(next as int));
        topic_or_command(&rest, globals, "CONTEXT", Command::Context)
    } else if eq_ignore_case_str(head, "quit") || eq_ignore_case_str(head, "exit") {
        Ok(Invocation { globals, command: Command::Exit })
    } else if head.len() > 0 && head[0] == '/' {
        Err(prefixed("Invalid global switch: ", head))
    } else if eq_ignore_case_str(head, "path") || eq_ignore_case_str(head, "class") {
        if next >= args.len() || is_help(&args[next]) {
            Ok(
                Invocation {
                    globals,
                    command: Command::Help(HelpTopic::Command(string_of(&upper_chars(head)))),
                },
            )
        } else {
            let kind = if eq_ignore_case_str(head, "path") {
                SourceKind::Path
            } else {
                SourceKind::Class
            };
            let source = Source {
                spelling: string_of(&args[next]),
                class: string_of(&args[next]),
                namespace: globals.namespace.clone(),
                kind,
            };
            let rest = sub_tokens(args, next + 1, args.len());
            assert(views(rest@) =~= a.skip(next + 1));
            let q = parse_query(source, &rest);
            query_invocation(globals, q)
        }
    } else {
        match find_chars(head) {
            Some(alias) => {
                if next < args.len() && is_help(&args[next]) {
                    Ok(
                        Invocation {
                            globals,
                            command: Command::Help(HelpTopic::Alias(String::from_str(alias.name))),
                        },
                    )
                } else {
                    let ns = chars_of(globals.namespace.as_str());
                    let namespace = if eq_ignore_case_str(&ns, "root\\cimv2") {
                        String::from_str(alias.namespace)
                    } else {
                        globals.namespace.clone()
                    };
                    let source = Source {
                        spelling: String::from_str(alias.name),
                        class: String::from_str(alias.class),
                        namespace,
                        kind: SourceKind::Alias,
                    };
                    let rest = sub_tokens(args, next, args.len());
                    assert(views(rest@) =~= a.skip(next as int));
                    let q = parse_query(source, &rest);
                    query_invocation(globals, q)
                }
            },
            None => Err(prefixed("Alias not found: ", head)),
        }
    }
}

// ---------------------------------------------------------------------------
// The output format of a query
// ---------------------------------------------------------------------------

/// The format a query switch chooses: `/VALUE` the value format, `/ALL` the table, and
/// `/FORMAT:<style>` its style; other switches choose none.
pub open spec fn format_of_switch(token: Seq<char>) -> Option<FormatView> {
    let u = upper(switch_name(token));
    if u == "VALUE"@ {
        Some(FormatView::Value)
    } else if u == "ALL"@ {
        Some(FormatView::Table)
    } else if u == "FORMAT"@ {
        match switch_value(token) {
            Some(v) => if v.len() > 0 {
                Some(format_spec(v))
            } else {
                None
            },
            None => None,
        }
    } else {
        None
    }
}

/// The format chosen by the last format switch at or after `c`, or `current` if none is.
pub open spec fn last_format(args: Seq<Seq<char>>, c: int, current: FormatView) -> FormatView
    decreases args.len() - c,
{
    if c < 0 || c >= args.len() {
        current
    } else {
        last_format(
            args,
            c + 1,
            match format_of_switch(args[c]) {
                Some(f) => f,
                None => current,
            },
        )
    }
}

/// The `/FORMAT` styles are recognised in any ASCII case: `table`, `value` and `list`, `csv`,
/// `rawxml`, `hform` (the HTML form) and `htable` (the HTML table) give their formats, and any
/// other style is kept, as written, as a custom style; `/FORMAT:<style>` chooses that format.
pub proof fn law_format_styles(v: Seq<char>)
    ensures
        ci_eq(v, "table"@) ==> format_spec(v) == FormatView::Table,
        ci_eq(v, "value"@) || ci_eq(v, "list"@) ==> format_spec(v) == FormatView::Value,
        ci_eq(v, "csv"@) ==> format_spec(v) == FormatView::Csv,
        ci_eq(v, "rawxml"@) ==> format_spec(v) == FormatView::RawXml,
        ci_eq(v, "hform"@) ==> format_spec(v) == FormatView::HForm,
        ci_eq(v, "htable"@) ==> format_spec(v) == FormatView::HTable,
        !ci_eq(v, "table"@) && !ci_eq(v, "value"@) && !ci_eq(v, "list"@) && !ci_eq(v, "csv"@)
            && !ci_eq(v, "rawxml"@) && !ci_eq(v, "hform"@) && !ci_eq(v, "htable"@)
            ==> format_spec(v) == FormatView::Custom(v),
        v.len() > 0 ==> format_of_switch("/format:"@ + v) == Some(format_spec(v)),
{
    reveal_strlit("table");
    reveal_strlit("value");
    reveal_strlit("list");
    reveal_strlit("csv");
    reveal_strlit("rawxml");
    reveal_strlit("hform");
    reveal_strlit("htable");
    assert(lower("table"@) =~= "table"@);
    assert(lower("value"@) =~= "value"@);
    assert(lower("list"@) =~= "list"@);
    assert(lower("csv"@) =~= "csv"@);
    assert(lower("rawxml"@) =~= "rawxml"@);
    assert(lower("hform"@) =~= "hform"@);
    assert(lower("htable"@) =~= "htable"@);
    assert("value"@[0] != "table"@[0] && "hform"@[0] != "table"@[0] && "hform"@[0] != "value"@[0]);
    assert("rawxml"@[0] != "htable"@[0]);
    if v.len() > 0 {
        reveal_strlit("/format:");
        reveal_strlit("format:");
        reveal_strlit("format");
        reveal_strlit("FORMAT");
        reveal_strlit("VALUE");
        reveal_strlit("ALL");
        reveal_with_fuel(crate::text::index_from, 8);
        let t = "/format:"@ + v;
        let body = t.drop_first();
        assert(body =~= "format:"@ + v);
        assert(switch_body(t) == body);
        assert(body[6] == ':');
        assert(first_index(body, ':') == Some(6int));
        assert(body.take(6) =~= "format"@);
        assert(body.skip(7) =~= v);
        assert(upper("format"@) =~= "FORMAT"@);
    }
}

proof fn lemma_switch_stage_format(args: Seq<Seq<char>>, c: int, st: SwitchesView)
    ensures
        switch_stage(args, c, st) matches Ok(st2) ==> st2.format == last_format(
            args,
            c,
            st.format,
        ),
    decreases args.len() - c,
{
    if 0 <= c < args.len() {
        match apply_query_switch_spec(st, args[c]) {
            Ok(st2) => {
                reveal_strlit("VALUE");
                reveal_strlit("ALL");
                reveal_strlit("FORMAT");
                reveal_strlit("EVERY");
                reveal_strlit("TRANSLATE");
                reveal_strlit("RESULTCLASS");
                reveal_strlit("RESULTROLE");
                reveal_strlit("ASSOCCLASS");
                assert(st2.format == match format_of_switch(args[c]) {
                    Some(f) => f,
                    None => st.format,
                });
                lemma_switch_stage_format(args, c + 1, st2);
            },
            Err(_) => {},
        }
    }
}

/// The last of `/VALUE`, `/ALL` and `/FORMAT` after the verb sets a query's output format;
/// with none, the verb's default format stands.
pub proof fn law_last_format_switch_wins(source: SourceView, args: Seq<Seq<char>>)
    ensures
        parse_query_spec(source, args) matches Ok(q) ==> (where_stage(args) matches Ok(
            (_, c1),
        ) && verb_stage(args, c1) matches Ok((verb, c2)) && q.format == last_format(
            args,
            c2,
            default_format_spec(verb),
        )),
{
    match where_stage(args) {
        Ok((filter, c1)) => {
            match verb_stage(args, c1) {
                Ok((verb, c2)) => {
                    let st0 = SwitchesView {
                        format: default_format_spec(verb),
                        every: None,
                        translate: None,
                        assoc: match verb {
                            VerbView::Assoc(o) => Some(o),
                            _ => None,
                        },
                    };
                    lemma_switch_stage_format(args, c2, st0);
                },
                Err(_) => {},
            }
        },
        Err(_) => {},
    }
}

// ---------------------------------------------------------------------------
// Laws of the global switches
// ---------------------------------------------------------------------------

/// `a` and `b` agree on every global option that the switch named `u` (upper-cased) does not
/// set.
pub open spec fn agree_except(a: GlobalsView, b: GlobalsView, u: Seq<char>) -> bool {
    &&& (u != "NAMESPACE"@ ==> a.namespace == b.namespace)
    &&& (u != "ROLE"@ ==> a.role == b.role)
    &&& (u != "NODE"@ ==> a.nodes == b.nodes)
    &&& (u != "IMPLEVEL"@ ==> a.impersonation == b.impersonation)
    &&& (u != "AUTHLEVEL"@ ==> a.authentication == b.authentication)
    &&& (u != "LOCALE"@ ==> a.locale == b.locale)
    &&& (u != "PRIVILEGES"@ ==> a.privileges == b.privileges)
    &&& (u != "TRACE"@ ==> a.trace == b.trace)
    &&& (u != "RECORD"@ ==> a.record == b.record)
    &&& (u != "INTERACTIVE"@ ==> a.interactive == b.interactive)
    &&& (u != "FAILFAST"@ ==> a.fail_fast == b.fail_fast)
    &&& (u != "USER"@ ==> a.user == b.user)
    &&& (u != "PASSWORD"@ ==> a.password == b.password)
    &&& (u != "AUTHORITY"@ ==> a.authority == b.authority)
    &&& (u != "AGGREGATE"@ ==> a.aggregate == b.aggregate)
    &&& (u != "OUTPUT"@ && u != "APPEND"@ ==> a.destination == b.destination)
}

/// A global switch sets only the option it names; every other option keeps its value.
pub proof fn law_switch_sets_only_its_option(g: GlobalsView, token: Seq<char>)
    ensures
        apply_switch_spec(g, token) matches Ok(g2) ==> agree_except(
            g,
            g2,
            upper(switch_name(token)),
        ),
{
    reveal_strlit("NAMESPACE");
    reveal_strlit("ROLE");
    reveal_strlit("NODE");
    reveal_strlit("IMPLEVEL");
    reveal_strlit("AUTHLEVEL");
    reveal_strlit("LOCALE");
    reveal_strlit("PRIVILEGES");
    reveal_strlit("TRACE");
    reveal_strlit("RECORD");
    reveal_strlit("INTERACTIVE");
    reveal_strlit("FAILFAST");
    reveal_strlit("USER");
    reveal_strlit("PASSWORD");
    reveal_strlit("AUTHORITY");
    reveal_strlit("AGGREGATE");
    reveal_strlit("OUTPUT");
    reveal_strlit("APPEND");
}

/// Applying a global switch a second time changes nothing: what it sets depends on the switch
/// alone.
pub proof fn law_switch_twice_is_once(g: GlobalsView, token: Seq<char>)
    ensures
        apply_switch_spec(g, token) matches Ok(g2) ==> apply_switch_spec(g2, token) == Ok::<
            GlobalsView,
            Seq<char>,
        >(g2),
{
}

/// The global options after `tokens` are applied in order to `g`, or the first switch's error.
pub open spec fn apply_switches(g: GlobalsView, tokens: Seq<Seq<char>>) -> Result<
    GlobalsView,
    Seq<char>,
>
    decreases tokens.len(),
{
    if tokens.len() == 0 {
        Ok(g)
    } else {
        match apply_switch_spec(g, tokens[0]) {
            Ok(g1) => apply_switches(g1, tokens.drop_first()),
            Err(e) => Err(e),
        }
    }
}

/// Index `k` of `args` holds the command: every token before it is a global switch and it is
/// not.
pub open spec fn command_at(args: Seq<Seq<char>>, k: int) -> bool {
    &&& 0 <= k < args.len()
    &&& forall|j: int| 0 <= j < k ==> #[trigger] is_global_switch_spec(args[j])
    &&& !is_global_switch_spec(args[k])
}

/// What a query's source is, given the command word at `k` and the global options: PATH or
/// CLASS take the next token as class in the `/NAMESPACE` namespace; an alias gives its own
/// class and namespace.
pub open spec fn source_named(args: Seq<Seq<char>>, k: int, g: GlobalsView, q: QueryView) -> bool {
    if ci_eq(args[k], "path"@) || ci_eq(args[k], "class"@) {
        &&& k + 1 < args.len()
        &&& q.source == SourceView {
            spelling: args[k + 1],
            class: args[k + 1],
            namespace: g.namespace,
            kind: if ci_eq(args[k], "path"@) {
                SourceKind::Path
            } else {
                SourceKind::Class
            },
        }
    } else {
        find_spec(args[k]) matches Some(a) && q.source == alias_source(a, g)
    }
}

proof fn lemma_command_query(args: Seq<Seq<char>>, k: int, g: GlobalsView)
    requires
        0 <= k < args.len(),
    ensures
        match parse_command_spec(args, k, g) {
            Ok(inv) => inv.command is Query ==> inv.globals == g && source_named(
                args,
                k,
                g,
                inv.command->Query_0,
            ),
            Err(_) => true,
        },
{
}

proof fn lemma_globals_to_command(args: Seq<Seq<char>>, k: int, j: int, g: GlobalsView)
    requires
        command_at(args, k),
        0 <= j <= k,
    ensures
        match parse_globals_spec(args, j, g) {
            Ok(inv) => inv.command is Query ==> apply_switches(g, args.subrange(j, k)) == Ok::<
                GlobalsView,
                Seq<char>,
            >(inv.globals) && parse_command_spec(args, k, inv.globals) == Ok::<
                InvocationView,
                Seq<char>,
            >(inv),
            Err(_) => true,
        },
    decreases k - j,
{
    if j == k {
        assert(args.subrange(j, k) =~= Seq::<Seq<char>>::empty());
    } else {
        assert(is_global_switch_spec(args[j]));
        let tail = args.subrange(j, k);
        assert(tail[0] == args[j]);
        assert(tail.drop_first() =~= args.subrange(j + 1, k));
        match apply_switch_spec(g, args[j]) {
            Ok(g2) => lemma_globals_to_command(args, k, j + 1, g2),
            Err(_) => {},
        }
    }
}

/// The source and global options of a parsed query: the global switches before the command
/// word, applied in order to the defaults, give the options; PATH and CLASS query the next
/// token's class in the `/NAMESPACE` namespace, and an alias queries its own class (in its own
/// namespace unless `/NAMESPACE` chose another than the default).
pub proof fn law_query_source(args: Seq<Seq<char>>, k: int)
    requires
        command_at(args, k),
    ensures
        match parse_spec(args) {
            Ok(inv) => inv.command is Query ==> apply_switches(default_globals(), args.take(k))
                == Ok::<GlobalsView, Seq<char>>(inv.globals) && source_named(
                args,
                k,
                inv.globals,
                inv.command->Query_0,
            ),
            Err(_) => true,
        },
{
    lemma_globals_to_command(args, k, 0, default_globals());
    assert(args.subrange(0, k) =~= args.take(k));
    match parse_spec(args) {
        Ok(inv) => {
            if inv.command is Query {
                lemma_command_query(args, k, inv.globals);
            }
        },
        Err(_) => {},
    }
}

/// Every alias of the table, spelled in any case as the command word, queries its own class:
/// in its own namespace, unless `/NAMESPACE` chose another than the default.
pub proof fn law_alias_queries_its_class(args: Seq<Seq<char>>, k: int, i: int)
    requires
        command_at(args, k),
        0 <= i < alias_table().len(),
        ci_eq(args[k], alias_table()[i].name@),
    ensures
        match parse_spec(args) {
            Ok(inv) => inv.command is Query ==> inv.command->Query_0.source == alias_source(
                alias_table()[i],
                inv.globals,
            ),
            Err(_) => true,
        },
{
    law_query_source(args, k);
    law_alias_found_by_name(i, args[k]);
}

proof fn lemma_get_class_value(source: SourceView)
    ensures
        parse_query_spec(source, seq!["get"@, "__CLASS"@, "/value"@]) == Ok::<QueryView, Seq<char>>(
            QueryView {
                source,
                filter: None,
                verb: VerbView::Get(seq!["__CLASS"@]),
                format: FormatView::Value,
                every: None,
                translate: None,
            },
        ),
{
    let rest = seq!["get"@, "__CLASS"@, "/value"@];
    reveal_strlit("get");
    reveal_strlit("where");
    reveal_strlit("__CLASS");
    reveal_strlit("/value");
    reveal_strlit("value");
    reveal_strlit("VALUE");
    reveal_strlit("ALL");
    reveal_strlit("FORMAT");
    reveal_strlit("EVERY");
    reveal_strlit("TRANSLATE");
    reveal_strlit("RESULTCLASS");
    reveal_strlit("RESULTROLE");
    reveal_strlit("ASSOCCLASS");
    reveal_with_fuel(crate::text::index_from, 9);
    reveal_with_fuel(nonempty_parts, 2);
    reveal_with_fuel(property_list, 2);
    let class = "__CLASS"@;
    assert(switch_body(class) == class);
    assert(first_index(class, ':') is None);
    assert(switch_name(class) == class);
    assert(lower(class).len() == 7);
    assert(!is_query_switch_spec(class));
    assert("/value"@.drop_first() =~= "value"@);
    assert(switch_body("/value"@) == "value"@);
    assert(first_index("value"@, ':') is None);
    assert(switch_name("/value"@) == "value"@);
    assert(switch_value("/value"@) is None);
    assert(lower("value"@) =~= lower("VALUE"@));
    assert(upper("value"@) =~= "VALUE"@);
    assert(is_query_switch_spec("/value"@));
    assert(scan_switch(rest, 2) == 2);
    assert(scan_switch(rest, 1) == 2);
    assert(rest.subrange(1, 2) =~= seq![class]);
    assert(seq![class].drop_last() =~= Seq::<Seq<char>>::empty());
    assert forall|k: int| 0 <= k < class.len() implies class[k] != ',' by {
        assert(k == 0 || k == 1 || k == 2 || k == 3 || k == 4 || k == 5 || k == 6);
    }
    lemma_split_without_sep(class, ',');
    assert(nonempty_parts(seq![class]) =~= seq![class]);
    assert(property_list(seq![class]) =~= seq![class]);
    assert(lower("get"@).len() == 3 && lower("where"@).len() == 5);
    assert(!ci_eq("get"@, "where"@));
    assert(where_stage(rest) == Ok::<(Option<Seq<char>>, int), Seq<char>>((None, 0)));
    assert(verb_stage(rest, 0) == Ok::<(VerbView, int), Seq<char>>(
        (VerbView::Get(seq![class]), 2),
    ));
    let st0 = SwitchesView {
        format: FormatView::Table,
        every: None,
        translate: None,
        assoc: None,
    };
    let st1 = SwitchesView { format: FormatView::Value, ..st0 };
    assert(apply_query_switch_spec(st0, "/value"@) == Ok::<SwitchesView, Seq<char>>(st1));
    assert(switch_stage(rest, 3, st1) == Ok::<SwitchesView, Seq<char>>(st1));
    assert(switch_stage(rest, 2, st0) == Ok::<SwitchesView, Seq<char>>(st1));
}

proof fn lemma_upper_word_switch(name: Seq<char>)
    requires
        upper_word(name),
    ensures
        !starts_with_slash(name),
        switch_name(name) == name,
{
    lemma_upper_word(name);
    assert(switch_body(name) == name);
    lemma_index_from_bounds(name, ':', 0);
}

/// Every alias of the table followed by `get __CLASS /value` parses, under the default global
/// options, to a GET of `__CLASS` from the alias's own class and namespace, printed in the
/// value format.
pub proof fn law_alias_get_parses(i: int)
    requires
        0 <= i < alias_table().len(),
    ensures
        parse_spec(seq![alias_table()[i].name@, "get"@, "__CLASS"@, "/value"@]) == Ok::<
            InvocationView,
            Seq<char>,
        >(
            InvocationView {
                globals: default_globals(),
                command: CommandView::Query(
                    QueryView {
                        source: SourceView {
                            spelling: alias_table()[i].name@,
                            class: alias_table()[i].class@,
                            namespace: alias_table()[i].namespace@,
                            kind: SourceKind::Alias,
                        },
                        filter: None,
                        verb: VerbView::Get(seq!["__CLASS"@]),
                        format: FormatView::Value,
                        every: None,
                        translate: None,
                    },
                ),
            },
        ),
{
    let a = alias_table()[i];
    let name = a.name@;
    let args = seq![name, "get"@, "__CLASS"@, "/value"@];
    law_alias_names_are_not_keywords(i);
    law_alias_found_by_name(i, name);
    lemma_upper_word_switch(name);
    lemma_help_starts_with_slash(name);
    reveal_strlit("get");
    lemma_help_starts_with_slash("get"@);
    reveal_strlit("context");
    reveal_strlit("CONTEXT");
    reveal_strlit("quit");
    reveal_strlit("QUIT");
    reveal_strlit("exit");
    reveal_strlit("EXIT");
    assert(lower("context"@) =~= lower("CONTEXT"@));
    assert(lower("quit"@) =~= lower("QUIT"@));
    assert(lower("exit"@) =~= lower("EXIT"@));
    assert(!is_global_switch_spec(name));
    assert(args.skip(1) =~= seq!["get"@, "__CLASS"@, "/value"@]);
    lemma_get_class_value(alias_source(a, default_globals()));
    reveal_strlit("root\\cimv2");
    assert(ci_eq(default_globals().namespace, "root\\cimv2"@));
}

/// Parsing of the global switches stops at index `j`: the end, a help request, a token that is
/// not a global switch, or a switch without a value that is followed by a help request.
pub open spec fn switches_stop_at(args: Seq<Seq<char>>, j: int) -> bool {
    ||| j >= args.len()
    ||| is_help_spec(args[j])
    ||| !is_global_switch_spec(args[j])
    ||| (j + 1 < args.len() && is_help_spec(args[j + 1]) && switch_value(args[j]) is None)
}

proof fn lemma_command_keeps_globals(args: Seq<Seq<char>>, k: int, g: GlobalsView)
    requires
        0 <= k < args.len(),
    ensures
        parse_command_spec(args, k, g) matches Ok(inv) ==> inv.globals == g,
{
}

proof fn lemma_globals_prefix(args: Seq<Seq<char>>, c: int, g: GlobalsView) -> (k: int)
    requires
        0 <= c <= args.len(),
    ensures
        c <= k <= args.len(),
        parse_globals_spec(args, c, g) is Ok ==> switches_stop_at(args, k) && (forall|j: int|
            c <= j < k ==> !#[trigger] switches_stop_at(args, j)) && apply_switches(
            g,
            args.subrange(c, k),
        ) == Ok::<GlobalsView, Seq<char>>(parse_globals_spec(args, c, g)->Ok_0.globals),
    decreases args.len() - c,
{
    if c >= args.len() || is_help_spec(args[c]) || !is_global_switch_spec(args[c]) || (c + 1
        < args.len() && is_help_spec(args[c + 1]) && switch_value(args[c]) is None) {
        assert(args.subrange(c, c) =~= Seq::<Seq<char>>::empty());
        if c < args.len() && !is_help_spec(args[c]) && !is_global_switch_spec(args[c]) {
            lemma_command_keeps_globals(args, c, g);
        }
        c
    } else {
        match apply_switch_spec(g, args[c]) {
            Ok(g2) => {
                let k = lemma_globals_prefix(args, c + 1, g2);
                let tail = args.subrange(c, k);
                assert(tail[0] == args[c]);
                assert(tail.drop_first() =~= args.subrange(c + 1, k));
                k
            },
            Err(_) => c,
        }
    }
}

/// The global options of any successful parse are the defaults with the leading global
/// switches applied in order (so a later switch wins over an earlier one for the same option):
/// those before the first place where switch parsing stops.
pub proof fn law_globals_from_leading_switches(args: Seq<Seq<char>>)
    ensures
        match parse_spec(args) {
            Ok(inv) => exists|k: int|
                0 <= k <= args.len() && #[trigger] switches_stop_at(args, k) && (forall|j: int|
                    0 <= j < k ==> !#[trigger] switches_stop_at(args, j)) && apply_switches(
                    default_globals(),
                    args.take(k),
                ) == Ok::<GlobalsView, Seq<char>>(inv.globals),
            Err(_) => true,
        },
{
    let k = lemma_globals_prefix(args, 0, default_globals());
    assert(args.subrange(0, k) =~= args.take(k));
}

// ---------------------------------------------------------------------------
// The case of the command word
// ---------------------------------------------------------------------------

/// A token starts with `/`.
pub open spec fn starts_with_slash(v: Seq<char>) -> bool {
    v.len() > 0 && v[0] == '/'
}

/// A word that names a command: CONTEXT, QUIT, EXIT, PATH, CLASS or an alias.
pub open spec fn names_command(v: Seq<char>) -> bool {
    ci_eq(v, "context"@) || ci_eq(v, "quit"@) || ci_eq(v, "exit"@) || ci_eq(v, "path"@) || ci_eq(
        v,
        "class"@,
    ) || find_spec(v) is Some
}

proof fn lemma_slash_ignores_case(a: Seq<char>, b: Seq<char>)
    requires
        ci_eq(a, b),
    ensures
        starts_with_slash(a) == starts_with_slash(b),
        starts_with_slash(a) ==> ci_eq(a.drop_first(), b.drop_first()),
{
    assert(lower(a).len() == lower(b).len());
    if a.len() > 0 {
        assert(lower(a)[0] == lower(b)[0]);
        if a[0] == '/' {
            lemma_lower_char_non_letter(b[0], a[0]);
            assert(lower(a.drop_first()) =~= lower(a).drop_first());
            assert(lower(b.drop_first()) =~= lower(b).drop_first());
        }
        if b[0] == '/' {
            lemma_lower_char_non_letter(a[0], b[0]);
        }
    }
}

proof fn lemma_switch_ignores_case(a: Seq<char>, b: Seq<char>)
    requires
        ci_eq(a, b),
    ensures
        ci_eq(switch_name(a), switch_name(b)),
        switch_value(a) is None <==> switch_value(b) is None,
        is_global_switch_spec(a) == is_global_switch_spec(b),
{
    lemma_slash_ignores_case(a, b);
    let x = switch_body(a);
    let y = switch_body(b);
    assert(ci_eq(x, y));
    lemma_index_from_ignores_case(x, y, ':', 0);
    assert(lower(x).len() == lower(y).len());
    match first_index(x, ':') {
        Some(i) => {
            lemma_index_from_bounds(x, ':', 0);
            assert(lower(x.take(i)) =~= lower(x).take(i));
            assert(lower(y.take(i)) =~= lower(y).take(i));
        },
        None => {},
    }
}

proof fn lemma_help_ignores_case(a: Seq<char>, b: Seq<char>)
    requires
        ci_eq(a, b),
    ensures
        is_help_spec(a) == is_help_spec(b),
{
    reveal_strlit("/?");
    assert(lower(a).len() == lower(b).len());
    if a == "/?"@ {
        assert(lower(a)[0] == lower(b)[0] && lower(a)[1] == lower(b)[1]);
        lemma_lower_char_non_letter(b[0], a[0]);
        lemma_lower_char_non_letter(b[1], a[1]);
        assert(b =~= "/?"@);
    }
    if b == "/?"@ {
        assert(lower(a)[0] == lower(b)[0] && lower(a)[1] == lower(b)[1]);
        lemma_lower_char_non_letter(a[0], b[0]);
        lemma_lower_char_non_letter(a[1], b[1]);
        assert(a =~= "/?"@);
    }
}

proof fn lemma_command_ignores_case(args: Seq<Seq<char>>, cursor: int, word: Seq<char>, g: GlobalsView)
    requires
        0 <= cursor < args.len(),
        ci_eq(word, args[cursor]),
        !starts_with_slash(args[cursor]),
        names_command(args[cursor]),
    ensures
        parse_command_spec(args.update(cursor, word), cursor, g) == parse_command_spec(
            args,
            cursor,
            g,
        ),
{
    let other = args.update(cursor, word);
    let head = args[cursor];
    lemma_slash_ignores_case(word, head);
    lemma_upper_ignores_case(word, head);
    law_find_ignores_case(word, head);
    assert(other.skip(cursor + 1) =~= args.skip(cursor + 1));
    if cursor + 1 < args.len() {
        assert(other[cursor + 1] == args[cursor + 1]);
        assert(other.skip(cursor + 2) =~= args.skip(cursor + 2));
    }
}

proof fn lemma_globals_ignore_case(
    args: Seq<Seq<char>>,
    cursor: int,
    word: Seq<char>,
    k: int,
    g: GlobalsView,
)
    requires
        0 <= k <= cursor < args.len(),
        ci_eq(word, args[cursor]),
        !starts_with_slash(args[cursor]),
        !is_help_spec(args[cursor]),
        !is_global_switch_spec(args[cursor]),
        names_command(args[cursor]),
        forall|j: int| 0 <= j < cursor ==> #[trigger] is_global_switch_spec(args[j]),
    ensures
        parse_globals_spec(args.update(cursor, word), k, g) == parse_globals_spec(args, k, g),
    decreases cursor - k,
{
    let other = args.update(cursor, word);
    lemma_help_ignores_case(word, args[cursor]);
    lemma_switch_ignores_case(word, args[cursor]);
    if k == cursor {
        lemma_command_ignores_case(args, cursor, word, g);
    } else {
        assert(other[k] == args[k]);
        assert(is_global_switch_spec(args[k]));
        if k + 1 < args.len() {
            assert(is_help_spec(other[k + 1]) == is_help_spec(args[k + 1]));
        }
        match apply_switch_spec(g, args[k]) {
            Ok(g2) => lemma_globals_ignore_case(args, cursor, word, k + 1, g2),
            Err(_) => {},
        }
    }
}

/// The command word is recognised in any ASCII case: where the global switches end and a
/// command (CONTEXT, QUIT, EXIT, PATH, CLASS or an alias) is named, spelling that word in
/// another case leaves the parse unchanged.
pub proof fn law_command_word_ignores_case(args: Seq<Seq<char>>, cursor: int, word: Seq<char>)
    requires
        0 <= cursor < args.len(),
        forall|j: int| 0 <= j < cursor ==> #[trigger] is_global_switch_spec(args[j]),
        !starts_with_slash(args[cursor]),
        !is_global_switch_spec(args[cursor]),
        names_command(args[cursor]),
        ci_eq(word, args[cursor]),
    ensures
        parse_spec(args.update(cursor, word)) == parse_spec(args),
{
    lemma_help_starts_with_slash(args[cursor]);
    lemma_globals_ignore_case(args, cursor, word, 0, default_globals());
}

proof fn lemma_help_starts_with_slash(v: Seq<char>)
    ensures
        is_help_spec(v) ==> starts_with_slash(v),
{
    reveal_strlit("/?");
    reveal_strlit("/?brief");
    reveal_strlit("/?full");
    reveal_strlit("/?:brief");
    reveal_strlit("/?:full");
    if is_help_spec(v) && v != "/?"@ {
        assert(lower(v).len() == v.len());
        assert(v.len() > 0);
        assert(lower(v)[0] == '/');
        lemma_lower_char_non_letter(v[0], '/');
    }
}

/// Parses a WMIC command line (the arguments after the program name).
pub fn parse(arguments: Vec<String>) -> (r: Result<Invocation, ParseError>)
    ensures
        parse_result_view(r) == parse_spec(strs(arguments@)),
{
    let toks = buffers_of(&arguments);
    let ghost a = views(toks@);
    let mut globals = GlobalOptions::default();
    let mut cursor: usize = 0;
    loop
        invariant
            a == views(toks@),
            a == strs(arguments@),
            cursor <= toks.len(),
            parse_spec(a) == parse_globals_spec(a, cursor as int, globals@),
        decreases toks.len() - cursor,
    {
        if cursor == toks.len() {
            return Ok(Invocation { globals, command: Command::Help(HelpTopic::Global) });
        }
        let token = &toks[cursor];
        assert(token@ == a[cursor as int]);
        if is_help(token) {
            return Ok(Invocation { globals, command: Command::Help(HelpTopic::Global) });
        }
        if !is_global_switch(token) {
            return match parse_command(&toks, cursor, globals) {
                Ok(inv) => Ok(inv),
                Err(e) => Err(ParseError(string_of(&e))),
            };
        }
        if cursor + 1 < toks.len() && is_help(&toks[cursor + 1]) {
            let (name, value) = split_switch(token);
            if value.is_none() {
                return Ok(
                    Invocation {
                        globals,
                        command: Command::Help(HelpTopic::Switch(string_of(&upper_chars(&name)))),
                    },
                );
            }
        }
        match apply_global_switch(globals, token) {
            Ok(g) => {
                globals = g;
            },
            Err(e) => {
                return Err(ParseError(string_of(&e)));
            },
        }
        cursor = cursor + 1;
    }
}

} // verus!
