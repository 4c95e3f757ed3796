//! Running a parsed command: help texts, CONTEXT, and queries sent to a WMI backend and
//! rendered in the output format asked for.
//!
//! The backend is a trait that callers implement; what it answers is not known here, so the
//! query path is specified by `finish_query`, which takes the backend's answers as arguments.
use vstd::prelude::*;
use crate::aliases::{alias_help, alias_help_text, find, find_spec, global_help, global_help_text};
use crate::cli::{
    opt_view, Command, Destination, DestinationView, FailFast,
    GlobalOptions, GlobalsView, HelpTopic, HelpTopicView, CommandView, Invocation,
    InvocationView, ListMode, Query, QueryView, Verb, VerbView,
};
use crate::output::{record_views, render, render_spec, Entries};
pub use crate::record::{Record, Value};
use crate::text::{
    chars_of, ci_eq, decimal, eq_ignore_case_str, eq_str, extend, extend_str, join,
    join_strings, lower, lower_chars, push_decimal, string_of, strs, upper, upper_chars,
};

verus! {

// ---------------------------------------------------------------------------
// Results of a run
// ---------------------------------------------------------------------------

/// What a run prints on standard output and standard error, and its exit code.
#[derive(Debug, Clone, PartialEq, Eq)]
pub struct Execution {
    pub stdout: String,
    pub stderr: String,
    pub exit_code: i32,
}

pub struct ExecutionView {
    pub stdout: Seq<char>,
    pub stderr: Seq<char>,
    pub exit_code: i32,
}

impl View for Execution {
    type V = ExecutionView;

    open spec fn view(&self) -> ExecutionView {
        ExecutionView { stdout: self.stdout@, stderr: self.stderr@, exit_code: self.exit_code }
    }
}

/// A successful run that prints `out`.
pub open spec fn success_view(out: Seq<char>) -> ExecutionView {
    ExecutionView { stdout: out, stderr: Seq::empty(), exit_code: 0 }
}

/// A failed run that reports `err`.
pub open spec fn error_view(err: Seq<char>) -> ExecutionView {
    ExecutionView { stdout: Seq::empty(), stderr: err, exit_code: 1 }
}

impl Execution {
    fn success(stdout: String) -> (r: Execution)
        ensures
            r@ == success_view(stdout@),
    {
        Execution { stdout, stderr: String::new(), exit_code: 0 }
    }

    fn error(stderr: String) -> (r: Execution)
        ensures
            r@ == error_view(stderr@),
    {
        Execution { stdout: String::new(), stderr, exit_code: 1 }
    }
}

// ---------------------------------------------------------------------------
// The WQL statement of a query
// ---------------------------------------------------------------------------

/// The properties a verb selects: those named by GET, a fixed set for the LIST modes that
/// have one, `*` for LIST BRIEF and FULL, none for the other verbs.
pub open spec fn projected_spec(verb: VerbView) -> Seq<Seq<char>> {
    match verb {
        VerbView::Get(properties) => properties,
        VerbView::List(ListMode::Instance) => seq!["__PATH"@],
        VerbView::List(ListMode::System) => seq![
            "__CLASS"@,
            "__DERIVATION"@,
            "__DYNASTY"@,
            "__GENUS"@,
            "__NAMESPACE"@,
            "__PATH"@,
            "__PROPERTY_COUNT"@,
            "__RELPATH"@,
            "__SERVER"@,
            "__SUPERCLASS"@,
        ],
        VerbView::List(ListMode::Status) => seq!["Status"@],
        VerbView::List(ListMode::Brief) | VerbView::List(ListMode::Full) => seq!["*"@],
        _ => Seq::empty(),
    }
}

/// `SELECT <properties or *> FROM <class>`, then ` WHERE <filter>` when the query has one;
/// the filter is passed on as the user wrote it.
pub open spec fn wql_spec(query: QueryView, properties: Seq<Seq<char>>) -> Seq<char> {
    let projection = if properties.len() == 0 {
        seq!['*']
    } else {
        join(properties, seq![','])
    };
    let head = "SELECT "@ + projection + " FROM "@ + query.source.class;
    match query.filter {
        Some(filter) => head + " WHERE "@ + filter,
        None => head,
    }
}

fn copy_strings(v: &Vec<String>) -> (r: Vec<String>)
    ensures
        r@ == v@,
{
    let mut r: Vec<String> = Vec::new();
    let mut i: usize = 0;
    while i < v.len()
        invariant
            i <= v.len(),
            r@ == v@.subrange(0, i as int),
        decreases v.len() - i,
    {
        r.push(v[i].clone());
        i = i + 1;
    }
    assert(r@ =~= v@);
    r
}

/// The properties that a query's verb selects.
pub fn projected_properties(query: &Query) -> (r: Vec<String>)
    ensures
        strs(r@) == projected_spec(query@.verb),
{
    let r: Vec<String> = match &query.verb {
        Verb::Get(properties) => copy_strings(properties),
        Verb::List(ListMode::Instance) => vec![String::from_str("__PATH")],
        Verb::List(ListMode::System) => vec![
            String::from_str("__CLASS"),
            String::from_str("__DERIVATION"),
            String::from_str("__DYNASTY"),
            String::from_str("__GENUS"),
            String::from_str("__NAMESPACE"),
            String::from_str("__PATH"),
            String::from_str("__PROPERTY_COUNT"),
            String::from_str("__RELPATH"),
            String::from_str("__SERVER"),
            String::from_str("__SUPERCLASS"),
        ],
        Verb::List(ListMode::Status) => vec![String::from_str("Status")],
        Verb::List(ListMode::Brief) | Verb::List(ListMode::Full) => vec![
            String::from_str("*"),
        ],
        _ => Vec::new(),
    };
    assert(strs(r@) =~= projected_spec(query@.verb));
    r
}

/// The WQL statement that a query sends for the given properties.
pub fn build_wql(query: &Query, properties: &[String]) -> (r: String)
    ensures
        r@ == wql_spec(query@, strs(properties@)),
{
    let mut out = chars_of("SELECT ");
    if properties.len() == 0 {
        out.push('*');
    } else {
        let mut i: usize = 0;
        while i < properties.len()
            invariant
                i <= properties.len(),
                properties.len() > 0,
                out@ == "SELECT "@ + (if i == 0 {
                    Seq::<char>::empty()
                } else {
                    join(strs(properties@.subrange(0, i as int)), seq![','])
                }),
            decreases properties.len() - i,
        {
            if i > 0 {
                out.push(',');
            }
            let part = chars_of(properties[i].as_str());
            extend(&mut out, &part);
            proof {
                let ps = strs(properties@.subrange(0, i + 1));
                assert(ps.drop_last() =~= strs(properties@.subrange(0, i as int)));
                assert(ps.last() == part@);
                assert(i == 0 ==> ps =~= seq![part@]);
            }
            i = i + 1;
        }
        assert(properties@.subrange(0, properties@.len() as int) =~= properties@);
    }
    extend_str(&mut out, " FROM ");
    let class = chars_of(query.source.class.as_str());
    extend(&mut out, &class);
    match &query.filter {
        Some(filter) => {
            extend_str(&mut out, " WHERE ");
            let f = chars_of(filter.as_str());
            extend(&mut out, &f);
        },
        None => {},
    }
    string_of(&out)
}


// ---------------------------------------------------------------------------
// Debug texts
// ---------------------------------------------------------------------------

/// What std's `Debug` for `str` prints for a string with these characters.
pub uninterp spec fn str_debug(s: Seq<char>) -> Seq<char>;

/// Calls std's `Debug` for `str` (`format!("{:?}", s)`). The contract only names the result
/// as a function of the characters; the quoting and escaping rules are left unstated.
#[verifier::external_body]
fn debug_str(s: &str) -> (r: String)
    ensures
        r@ == str_debug(s@),
{
    format!("{:?}", s)
}

/// Appends the `Debug` text of `s`.
fn push_debug(out: &mut Vec<char>, s: &String)
    ensures
        final(out)@ == old(out)@ + str_debug(s@),
{
    let d = debug_str(s.as_str());
    let c = chars_of(d.as_str());
    extend(out, &c);
}

/// `Debug` of a `bool`.
pub open spec fn bool_debug(b: bool) -> Seq<char> {
    if b {
        "true"@
    } else {
        "false"@
    }
}

/// `Debug` of an optional string.
pub open spec fn opt_debug(o: Option<Seq<char>>) -> Seq<char> {
    match o {
        Some(s) => "Some("@ + str_debug(s) + ")"@,
        None => "None"@,
    }
}

/// `Debug` of a `/FAILFAST` mode.
pub open spec fn fail_fast_text(f: FailFast) -> Seq<char> {
    match f {
        FailFast::On => "On"@,
        FailFast::Off => "Off"@,
        FailFast::Timeout(ms) => "Timeout("@ + decimal(ms as nat) + ")"@,
    }
}

/// `Debug` of an output destination.
pub open spec fn destination_text(d: DestinationView) -> Seq<char> {
    match d {
        DestinationView::Stdout => "Stdout"@,
        DestinationView::Clipboard { append } => "Clipboard { append: "@ + bool_debug(append)
            + " }"@,
        DestinationView::File { path, append } => "File { path: "@ + str_debug(path)
            + ", append: "@ + bool_debug(append) + " }"@,
    }
}

/// `Debug` of a verb that is parsed but not run (GET and LIST are run, and have no text
/// here).
pub open spec fn verb_text(v: VerbView) -> Seq<char> {
    match v {
        VerbView::Call { method, arguments } => "Call { method: "@ + str_debug(method)
            + ", arguments: "@ + str_debug(arguments) + " }"@,
        VerbView::SetValues(assignments) => "Set("@ + str_debug(assignments) + ")"@,
        VerbView::Create(assignments) => "Create("@ + str_debug(assignments) + ")"@,
        VerbView::Delete => "Delete"@,
        VerbView::Assoc(o) => "Assoc(AssocOptions { result_class: "@ + opt_debug(o.result_class)
            + ", result_role: "@ + opt_debug(o.result_role) + ", assoc_class: "@ + opt_debug(
            o.assoc_class,
        ) + " })"@,
        _ => Seq::empty(),
    }
}

fn push_bool_debug(out: &mut Vec<char>, b: bool)
    ensures
        final(out)@ == old(out)@ + bool_debug(b),
{
    if b {
        extend_str(out, "true");
    } else {
        extend_str(out, "false");
    }
}

fn push_opt_debug(out: &mut Vec<char>, o: &Option<String>)
    ensures
        final(out)@ == old(out)@ + opt_debug(opt_view(*o)),
{
    match o {
        Some(s) => {
            extend_str(out, "Some(");
            push_debug(out, s);
            extend_str(out, ")");
        },
        None => extend_str(out, "None"),
    }
}

fn push_fail_fast(out: &mut Vec<char>, f: FailFast)
    ensures
        final(out)@ == old(out)@ + fail_fast_text(f),
{
    match f {
        FailFast::On => extend_str(out, "On"),
        FailFast::Off => extend_str(out, "Off"),
        FailFast::Timeout(ms) => {
            extend_str(out, "Timeout(");
            push_decimal(out, ms as u64);
            extend_str(out, ")");
        },
    }
}

fn push_destination(out: &mut Vec<char>, d: &Destination)
    ensures
        final(out)@ == old(out)@ + destination_text(d@),
{
    match d {
        Destination::Stdout => extend_str(out, "Stdout"),
        Destination::Clipboard { append } => {
            extend_str(out, "Clipboard { append: ");
            push_bool_debug(out, *append);
            extend_str(out, " }");
        },
        Destination::File { path, append } => {
            extend_str(out, "File { path: ");
            push_debug(out, path);
            extend_str(out, ", append: ");
            push_bool_debug(out, *append);
            extend_str(out, " }");
        },
    }
}

fn push_verb(out: &mut Vec<char>, v: &Verb)
    ensures
        final(out)@ == old(out)@ + verb_text(v@),
{
    match v {
        Verb::Call { method, arguments } => {
            extend_str(out, "Call { method: ");
            push_debug(out, method);
            extend_str(out, ", arguments: ");
            push_debug(out, arguments);
            extend_str(out, " }");
        },
        Verb::SetValues(assignments) => {
            extend_str(out, "Set(");
            push_debug(out, assignments);
            extend_str(out, ")");
        },
        Verb::Create(assignments) => {
            extend_str(out, "Create(");
            push_debug(out, assignments);
            extend_str(out, ")");
        },
        Verb::Delete => extend_str(out, "Delete"),
        Verb::Assoc(o) => {
            extend_str(out, "Assoc(AssocOptions { result_class: ");
            push_opt_debug(out, &o.result_class);
            extend_str(out, ", result_role: ");
            push_opt_debug(out, &o.result_role);
            extend_str(out, ", assoc_class: ");
            push_opt_debug(out, &o.assoc_class);
            extend_str(out, " })");
        },
        _ => {
            assert(verb_text(v@) =~= Seq::<char>::empty());
        },
    }
}

// ---------------------------------------------------------------------------
// CONTEXT and help
// ---------------------------------------------------------------------------

/// `ON` or `OFF`.
pub open spec fn on_off_text(b: bool) -> Seq<char> {
    if b {
        "ON"@
    } else {
        "OFF"@
    }
}

/// The text of an optional string, or `default` when it is absent.
pub open spec fn or_default(o: Option<Seq<char>>, default: Seq<char>) -> Seq<char> {
    match o {
        Some(s) => s,
        None => default,
    }
}

/// What CONTEXT prints: one labelled line per global switch.
pub open spec fn context_text(g: GlobalsView) -> Seq<char> {
    "NAMESPACE    : "@ + g.namespace + "\nROLE         : "@ + g.role + "\nNODE(S)      : "@ + join(
        g.nodes,
        ","@,
    ) + "\nIMPLEVEL     : "@ + g.impersonation + "\nAUTHLEVEL    : "@ + g.authentication
        + "\nLOCALE       : "@ + g.locale + "\nPRIVILEGES   : "@ + on_off_text(g.privileges)
        + "\nTRACE        : "@ + on_off_text(g.trace) + "\nRECORD       : "@ + or_default(
        g.record,
        "OFF"@,
    ) + "\nINTERACTIVE  : "@ + on_off_text(g.interactive) + "\nFAILFAST     : "@
        + fail_fast_text(g.fail_fast) + "\nOUTPUT       : "@ + destination_text(g.destination)
        + "\nAGGREGATE    : "@ + on_off_text(g.aggregate) + "\nAUTHORITY    : "@ + or_default(
        g.authority,
        "N/A"@,
    ) + "\n"@
}

fn push_on_off(out: &mut Vec<char>, b: bool)
    ensures
        final(out)@ == old(out)@ + on_off_text(b),
{
    if b {
        extend_str(out, "ON");
    } else {
        extend_str(out, "OFF");
    }
}

fn push_or_default(out: &mut Vec<char>, o: &Option<String>, default: &str)
    ensures
        final(out)@ == old(out)@ + or_default(opt_view(*o), default@),
{
    match o {
        Some(s) => extend_str(out, s.as_str()),
        None => extend_str(out, default),
    }
}

/// GET and LIST, in every LIST mode, are run: their outcome comes from the backend's answers,
/// not from `direct_spec`; every other verb is refused.
pub proof fn law_get_and_list_run(invocation: InvocationView)
    requires
        invocation.command is Query,
    ensures
        ({
            let verb = invocation.command->Query_0.verb;
            &&& (verb is Get || verb is List) <==> runs(verb)
            &&& (verb is Get || verb is List) <==> direct_spec(invocation) is None
        }),
        forall|m: ListMode| #[trigger] runs(VerbView::List(m)),
        forall|p: Seq<Seq<char>>| #[trigger] runs(VerbView::Get(p)),
{
}

/// The prefix of CONTEXT up to the value of the `/PRIVILEGES` line.
spec fn upto_privileges(g: GlobalsView) -> Seq<char> {
    "NAMESPACE    : "@ + g.namespace + "\nROLE         : "@ + g.role + "\nNODE(S)      : "@ + join(
        g.nodes,
        ","@,
    ) + "\nIMPLEVEL     : "@ + g.impersonation + "\nAUTHLEVEL    : "@ + g.authentication
        + "\nLOCALE       : "@ + g.locale + "\nPRIVILEGES   : "@
}

/// The prefix of CONTEXT up to the value of the `/TRACE` line.
spec fn upto_trace(g: GlobalsView) -> Seq<char> {
    upto_privileges(g) + on_off_text(g.privileges) + "\nTRACE        : "@
}

/// The prefix of CONTEXT up to the value of the `/INTERACTIVE` line.
spec fn upto_interactive(g: GlobalsView) -> Seq<char> {
    upto_trace(g) + on_off_text(g.trace) + "\nRECORD       : "@ + or_default(g.record, "OFF"@)
        + "\nINTERACTIVE  : "@
}

/// The prefix of CONTEXT up to the value of the `/AGGREGATE` line.
spec fn upto_aggregate(g: GlobalsView) -> Seq<char> {
    upto_interactive(g) + on_off_text(g.interactive) + "\nFAILFAST     : "@ + fail_fast_text(
        g.fail_fast,
    ) + "\nOUTPUT       : "@ + destination_text(g.destination) + "\nAGGREGATE    : "@
}

proof fn lemma_context_parts(g: GlobalsView)
    ensures
        context_text(g) == upto_aggregate(g) + on_off_text(g.aggregate) + "\nAUTHORITY    : "@
            + or_default(g.authority, "N/A"@) + "\n"@,
{
}

/// The character of CONTEXT just after `prefix`, the second of `ON` or `OFF`, tells the
/// switch's value.
proof fn lemma_second_char(prefix: Seq<char>, b: bool, rest: Seq<char>)
    ensures
        (prefix + on_off_text(b) + rest)[prefix.len() as int + 1] == if b {
            'N'
        } else {
            'F'
        },
{
    reveal_strlit("ON");
    reveal_strlit("OFF");
}

proof fn lemma_context_char(g: GlobalsView, prefix: Seq<char>, b: bool)
    requires
        prefix == upto_privileges(g) && b == g.privileges || prefix == upto_trace(g) && b == g.trace
            || prefix == upto_interactive(g) && b == g.interactive || prefix == upto_aggregate(g)
            && b == g.aggregate,
    ensures
        context_text(g)[prefix.len() as int + 1] == if b {
            'N'
        } else {
            'F'
        },
{
    lemma_context_parts(g);
    let tail = "\nAUTHORITY    : "@ + or_default(g.authority, "N/A"@) + "\n"@;
    let whole = upto_aggregate(g) + on_off_text(g.aggregate) + tail;
    assert(whole =~= context_text(g));
    if prefix == upto_aggregate(g) && b == g.aggregate {
        lemma_second_char(prefix, b, tail);
    } else {
        reveal_strlit("ON");
        reveal_strlit("OFF");
        let i: int = prefix.len() as int + 1;
        assert(on_off_text(b).len() >= 2);
        assert(prefix.len() + 2 <= upto_aggregate(g).len());
        assert(whole[i] == upto_aggregate(g)[i]);
        if prefix == upto_privileges(g) && b == g.privileges {
            lemma_second_char(prefix, b, "\nTRACE        : "@);
            assert(upto_aggregate(g)[i] == upto_trace(g)[i]);
        } else if prefix == upto_trace(g) && b == g.trace {
            lemma_second_char(prefix, b, "\nRECORD       : "@);
            assert(upto_aggregate(g)[i] == upto_interactive(g)[i]);
            assert(upto_interactive(g)[i] == (upto_trace(g) + on_off_text(g.trace))[i]);
        } else {
            lemma_second_char(prefix, b, "\nFAILFAST     : "@);
            assert(upto_aggregate(g)[i] == (upto_interactive(g) + on_off_text(g.interactive))[i]);
        }
    }
}

/// CONTEXT shows each on/off switch on its own line: global options that differ only in
/// `/PRIVILEGES`, only in `/TRACE`, only in `/INTERACTIVE` or only in `/AGGREGATE` give
/// different CONTEXT texts, and that line's value reads `ON` exactly when the switch is on.
pub proof fn law_context_shows_each_switch(g: GlobalsView, on: bool)
    ensures
        context_text(GlobalsView { privileges: on, ..g }) != context_text(
            GlobalsView { privileges: !on, ..g },
        ),
        context_text(GlobalsView { trace: on, ..g }) != context_text(GlobalsView { trace: !on, ..g }),
        context_text(GlobalsView { interactive: on, ..g }) != context_text(
            GlobalsView { interactive: !on, ..g },
        ),
        context_text(GlobalsView { aggregate: on, ..g }) != context_text(
            GlobalsView { aggregate: !on, ..g },
        ),
        on_off_text(true) == "ON"@,
        on_off_text(false) == "OFF"@,
{
    let p1 = GlobalsView { privileges: on, ..g };
    let p2 = GlobalsView { privileges: !on, ..g };
    assert(upto_privileges(p1) == upto_privileges(p2));
    lemma_context_char(p1, upto_privileges(p1), on);
    lemma_context_char(p2, upto_privileges(p2), !on);
    let t1 = GlobalsView { trace: on, ..g };
    let t2 = GlobalsView { trace: !on, ..g };
    assert(upto_trace(t1) == upto_trace(t2));
    lemma_context_char(t1, upto_trace(t1), on);
    lemma_context_char(t2, upto_trace(t2), !on);
    let i1 = GlobalsView { interactive: on, ..g };
    let i2 = GlobalsView { interactive: !on, ..g };
    assert(upto_interactive(i1) == upto_interactive(i2));
    lemma_context_char(i1, upto_interactive(i1), on);
    lemma_context_char(i2, upto_interactive(i2), !on);
    let a1 = GlobalsView { aggregate: on, ..g };
    let a2 = GlobalsView { aggregate: !on, ..g };
    assert(upto_aggregate(a1) == upto_aggregate(a2));
    lemma_context_char(a1, upto_aggregate(a1), on);
    lemma_context_char(a2, upto_aggregate(a2), !on);
    reveal_strlit("ON");
    reveal_strlit("OFF");
}

/// The text of CONTEXT for the given global switches.
pub fn context(options: &GlobalOptions) -> (r: String)
    ensures
        r@ == context_text(options@),
{
    let mut out = chars_of("NAMESPACE    : ");
    extend_str(&mut out, options.namespace.as_str());
    extend_str(&mut out, "\nROLE         : ");
    extend_str(&mut out, options.role.as_str());
    extend_str(&mut out, "\nNODE(S)      : ");
    let nodes = join_strings(&options.nodes, ",");
    extend(&mut out, &nodes);
    extend_str(&mut out, "\nIMPLEVEL     : ");
    extend_str(&mut out, options.impersonation.as_str());
    extend_str(&mut out, "\nAUTHLEVEL    : ");
    extend_str(&mut out, options.authentication.as_str());
    extend_str(&mut out, "\nLOCALE       : ");
    extend_str(&mut out, options.locale.as_str());
    extend_str(&mut out, "\nPRIVILEGES   : ");
    push_on_off(&mut out, options.privileges);
    extend_str(&mut out, "\nTRACE        : ");
    push_on_off(&mut out, options.trace);
    extend_str(&mut out, "\nRECORD       : ");
    push_or_default(&mut out, &options.record, "OFF");
    extend_str(&mut out, "\nINTERACTIVE  : ");
    push_on_off(&mut out, options.interactive);
    extend_str(&mut out, "\nFAILFAST     : ");
    push_fail_fast(&mut out, options.fail_fast);
    extend_str(&mut out, "\nOUTPUT       : ");
    push_destination(&mut out, &options.destination);
    extend_str(&mut out, "\nAGGREGATE    : ");
    push_on_off(&mut out, options.aggregate);
    extend_str(&mut out, "\nAUTHORITY    : ");
    push_or_default(&mut out, &options.authority, "N/A");
    extend_str(&mut out, "\n");
    string_of(&out)
}

/// The help line for PATH.
pub const PATH_HELP: &'static str = "PATH <WMI class or object path> [WHERE <condition>] <verb>\n";

/// The help line for CLASS.
pub const CLASS_HELP: &'static str = "CLASS <WMI class> [WHERE <condition>] <verb>\n";

/// The help line for CONTEXT.
pub const CONTEXT_HELP: &'static str = "CONTEXT - Displays the state of all global switches.\n";

/// Help for a command, chosen by its upper-cased name: PATH, CLASS and CONTEXT have a line
/// of their own; any other name is echoed upper-cased with ` /?`.
pub open spec fn command_help_text(name: Seq<char>) -> Seq<char> {
    let u = upper(name);
    if u == "PATH"@ {
        PATH_HELP@
    } else if u == "CLASS"@ {
        CLASS_HELP@
    } else if u == "CONTEXT"@ {
        CONTEXT_HELP@
    } else {
        u + " /?\n"@
    }
}

/// The help text for a command.
pub fn command_help(name: &str) -> (r: String)
    ensures
        r@ == command_help_text(name@),
{
    let n = chars_of(name);
    let u = upper_chars(&n);
    if eq_str(&u, "PATH") {
        String::from_str(PATH_HELP)
    } else if eq_str(&u, "CLASS") {
        String::from_str(CLASS_HELP)
    } else if eq_str(&u, "CONTEXT") {
        String::from_str(CONTEXT_HELP)
    } else {
        let mut out = u;
        extend_str(&mut out, " /?\n");
        string_of(&out)
    }
}

/// Help for a global switch: a placeholder line naming the switch.
pub open spec fn switch_help_text(name: Seq<char>) -> Seq<char> {
    "/"@ + name + " - global switch help is not yet captured for this locale.\n"@
}

/// The help text for a global switch.
pub fn switch_help(name: &str) -> (r: String)
    ensures
        r@ == switch_help_text(name@),
{
    let mut out = chars_of("/");
    extend_str(&mut out, name);
    extend_str(&mut out, " - global switch help is not yet captured for this locale.\n");
    string_of(&out)
}

// ---------------------------------------------------------------------------
// Queries
// ---------------------------------------------------------------------------

/// The service that runs WQL statements: given a namespace, a node and a statement, the
/// records it returns or an error message.
///
/// Callers implement it. `admits` is the relation between a request and the answers an
/// implementation may give to it; `query` is trusted to give an answer in that relation. The
/// contracts here use it to say which request each answer came from.
pub trait Backend {
    /// Whether `answer` is an answer this backend may give to `wql` in `namespace` on `node`.
    /// An implementation that states nothing admits every answer.
    open spec fn admits(
        &self,
        namespace: Seq<char>,
        node: Seq<char>,
        wql: Seq<char>,
        answer: AnswerView,
    ) -> bool {
        true
    }

    fn query(&self, namespace: &str, node: &str, wql: &str) -> (r: Result<Vec<Record>, String>)
        ensures
            self.admits(namespace@, node@, wql@, answer_view(r)),
    ;
}

/// The WMI namespace path for a node: the namespace itself on the local computer
/// (`localhost` in any case, or `.`), `\\<node>\<namespace>` on another.
pub open spec fn namespace_path_spec(namespace: Seq<char>, node: Seq<char>) -> Seq<char> {
    if ci_eq(node, "localhost"@) || node == "."@ {
        namespace
    } else {
        "\\\\"@ + node + "\\"@ + namespace
    }
}

/// The WMI namespace path that a backend connects to for a node.
pub fn namespace_path(namespace: &str, node: &str) -> (r: String)
    ensures
        r@ == namespace_path_spec(namespace@, node@),
{
    let n = chars_of(node);
    if eq_ignore_case_str(&n, "localhost") || eq_str(&n, ".") {
        String::from_str(namespace)
    } else {
        let mut out = chars_of("\\\\");
        extend(&mut out, &n);
        extend_str(&mut out, "\\");
        extend_str(&mut out, namespace);
        string_of(&out)
    }
}

/// A backend's answer for one node, by its views.
pub type AnswerView = Result<Seq<Entries>, Seq<char>>;

pub open spec fn answer_view(a: Result<Vec<Record>, String>) -> AnswerView {
    match a {
        Ok(records) => Ok(record_views(records@)),
        Err(e) => Err(e@),
    }
}

pub open spec fn answer_views(s: Seq<Result<Vec<Record>, String>>) -> Seq<AnswerView> {
    s.map_values(|a: Result<Vec<Record>, String>| answer_view(a))
}

/// The records of a sequence of answers taken in order, or the position of the first
/// failure.
pub open spec fn gathered(answers: Seq<AnswerView>) -> Result<Seq<Entries>, int>
    decreases answers.len(),
{
    if answers.len() == 0 {
        Ok(Seq::empty())
    } else {
        match gathered(answers.drop_last()) {
            Err(i) => Err(i),
            Ok(records) => match answers.last() {
                Ok(more) => Ok(records + more),
                Err(_) => Err(answers.len() - 1),
            },
        }
    }
}

/// The verbs that are run; the others are parsed and refused.
pub open spec fn runs(verb: VerbView) -> bool {
    verb is Get || verb is List
}

/// The error for a verb that is parsed but not run.
pub open spec fn unimplemented_text(verb: VerbView) -> Seq<char> {
    "ERROR:\r\nDescription = Verb "@ + verb_text(verb) + " is parsed but not implemented yet\r\n"@
}

/// The node that output names: the first requested one (`localhost` when none is); for
/// `localhost` (any case) or `.` it is the local computer's name, lower-cased, or the
/// requested name lower-cased when the computer's name is not known.
pub open spec fn shown_node(nodes: Seq<Seq<char>>, computer_name: Option<Seq<char>>) -> Seq<char> {
    let requested = if nodes.len() > 0 {
        nodes[0]
    } else {
        "localhost"@
    };
    if ci_eq(requested, "localhost"@) || requested == "."@ {
        lower(or_default(computer_name, requested))
    } else {
        requested
    }
}

/// The report of a failure on a node.
pub open spec fn node_error_text(node: Seq<char>, error: Seq<char>) -> Seq<char> {
    "Node - "@ + node + "\r\nERROR:\r\nDescription = "@ + error + "\r\n"@
}

/// The outcome of a query once the backend has answered for the first `answers.len()`
/// nodes: the first failure is reported with its node; otherwise every record, in node
/// order, is rendered with the properties the verb selects.
pub open spec fn finish_spec(
    query: QueryView,
    globals: GlobalsView,
    answers: Seq<AnswerView>,
    computer_name: Option<Seq<char>>,
) -> ExecutionView {
    match gathered(answers) {
        Err(i) => error_view(node_error_text(globals.nodes[i], answers[i]->Err_0)),
        Ok(records) => success_view(
            render_spec(
                records,
                projected_spec(query.verb),
                query.format,
                shown_node(globals.nodes, computer_name),
            ),
        ),
    }
}

/// The answers that `backend` gave to a query's requests: the `j`-th answer was given to the
/// query's WQL statement, in its source's namespace, on the `j`-th node.
pub open spec fn answers_admitted<B: Backend + ?Sized>(
    backend: &B,
    query: QueryView,
    globals: GlobalsView,
    answers: Seq<AnswerView>,
) -> bool {
    forall|j: int|
        0 <= j < answers.len() ==> #[trigger] backend.admits(
            query.source.namespace,
            globals.nodes[j],
            wql_spec(query, projected_spec(query.verb)),
            answers[j],
        )
}

/// The answers a run collects from `nodes` nodes: one per node in order, stopping after the
/// first failure.
pub open spec fn answers_fit(answers: Seq<AnswerView>, nodes: int) -> bool {
    &&& answers.len() <= nodes
    &&& forall|j: int| 0 <= j < answers.len() - 1 ==> #[trigger] answers[j] is Ok
    &&& answers.len() < nodes ==> answers.len() > 0 && answers.last() is Err
}

fn copy_records(out: &mut Vec<Record>, records: &Vec<Record>)
    ensures
        record_views(final(out)@) == record_views(old(out)@) + record_views(records@),
{
    let ghost start = record_views(out@);
    let mut i: usize = 0;
    while i < records.len()
        invariant
            i <= records.len(),
            record_views(out@) == start + record_views(records@.subrange(0, i as int)),
        decreases records.len() - i,
    {
        let r = records[i].clone();
        let ghost before = out@;
        out.push(r);
        proof {
            assert(records@.subrange(0, i + 1) =~= records@.subrange(0, i as int).push(
                records@[i as int],
            ));
            assert(record_views(out@) =~= record_views(before).push(records@[i as int]@));
            assert(record_views(records@.subrange(0, i + 1)) =~= record_views(
                records@.subrange(0, i as int),
            ).push(records@[i as int]@));
        }
        i = i + 1;
    }
    assert(records@.subrange(0, records@.len() as int) =~= records@);
}

/// The node name that output shows for a query.
pub fn node_shown(nodes: &Vec<String>, computer_name: &Option<String>) -> (r: String)
    ensures
        r@ == shown_node(strs(nodes@), opt_view(*computer_name)),
{
    let requested = if nodes.len() > 0 {
        chars_of(nodes[0].as_str())
    } else {
        chars_of("localhost")
    };
    if eq_ignore_case_str(&requested, "localhost") || eq_str(&requested, ".") {
        let name = match computer_name {
            Some(c) => chars_of(c.as_str()),
            None => requested,
        };
        let l = lower_chars(&name);
        string_of(&l)
    } else {
        string_of(&requested)
    }
}

/// Finishes a query from the backend's answers, given in node order: reports the first
/// failure with its node, or renders every record returned. `computer_name` is the local
/// computer's name, when it is known.
pub fn finish_query(
    query: &Query,
    globals: &GlobalOptions,
    answers: Vec<Result<Vec<Record>, String>>,
    computer_name: Option<String>,
) -> (r: Execution)
    requires
        answers.len() <= globals.nodes.len(),
    ensures
        r@ == finish_spec(query@, globals@, answer_views(answers@), opt_view(computer_name)),
{
    let ghost views = answer_views(answers@);
    let mut all: Vec<Record> = Vec::new();
    let mut i: usize = 0;
    assert(views.subrange(0, 0) =~= Seq::<AnswerView>::empty());
    assert(record_views(all@) =~= Seq::<Entries>::empty());
    while i < answers.len()
        invariant
            i <= answers.len(),
            answers.len() <= globals.nodes.len(),
            views == answer_views(answers@),
            gathered(views.subrange(0, i as int)) == Ok::<Seq<Entries>, int>(record_views(all@)),
        decreases answers.len() - i,
    {
        proof {
            assert(views.subrange(0, i + 1).drop_last() =~= views.subrange(0, i as int));
        }
        match &answers[i] {
            Ok(records) => {
                copy_records(&mut all, records);
            },
            Err(e) => {
                let mut out = chars_of("Node - ");
                extend_str(&mut out, globals.nodes[i].as_str());
                extend_str(&mut out, "\r\nERROR:\r\nDescription = ");
                extend_str(&mut out, e.as_str());
                extend_str(&mut out, "\r\n");
                proof {
                    lemma_gathered_prefix(views, i + 1);
                }
                return Execution::error(string_of(&out));
            },
        }
        i = i + 1;
    }
    assert(views.subrange(0, views.len() as int) =~= views);
    let properties = projected_properties(query);
    let node = node_shown(&globals.nodes, &computer_name);
    let text = render(all.as_slice(), properties.as_slice(), &query.format, node.as_str());
    Execution::success(text)
}

/// A failure within a prefix is the first failure of the whole.
proof fn lemma_gathered_prefix(answers: Seq<AnswerView>, n: int)
    requires
        0 <= n <= answers.len(),
        gathered(answers.subrange(0, n)) is Err,
    ensures
        gathered(answers) == gathered(answers.subrange(0, n)),
    decreases answers.len() - n,
{
    if n < answers.len() {
        assert(answers.subrange(0, n + 1).drop_last() =~= answers.subrange(0, n));
        lemma_gathered_prefix(answers, n + 1);
    } else {
        assert(answers.subrange(0, n) =~= answers);
    }
}

/// Runs a query: a verb other than GET or LIST is refused; otherwise the WQL statement is
/// sent to each requested node in turn, in the query's namespace, stopping at the first
/// failure, and `finish_query` makes the outcome from the answers.
fn execute_query<B: Backend + ?Sized>(
    query: &Query,
    globals: &GlobalOptions,
    backend: &B,
    computer_name: Option<String>,
) -> (r: Execution)
    ensures
        !runs(query@.verb) ==> r@ == error_view(unimplemented_text(query@.verb)),
        runs(query@.verb) ==> exists|answers: Seq<AnswerView>|
            answers_fit(answers, globals@.nodes.len() as int) && answers_admitted(
                backend,
                query@,
                globals@,
                answers,
            ) && #[trigger] finish_spec(
                query@,
                globals@,
                answers,
                opt_view(computer_name),
            ) == r@,
{
    let run = match &query.verb {
        Verb::Get(_) | Verb::List(_) => true,
        _ => false,
    };
    if !run {
        let mut out = chars_of("ERROR:\r\nDescription = Verb ");
        push_verb(&mut out, &query.verb);
        extend_str(&mut out, " is parsed but not implemented yet\r\n");
        return Execution::error(string_of(&out));
    }
    let properties = projected_properties(query);
    let wql = build_wql(query, properties.as_slice());
    let mut answers: Vec<Result<Vec<Record>, String>> = Vec::new();
    let mut i: usize = 0;
    let mut failed = false;
    while i < globals.nodes.len() && !failed
        invariant
            i <= globals.nodes.len(),
            answers.len() == i,
            failed ==> i > 0 && answers@[i - 1] is Err,
            forall|j: int| 0 <= j < i - 1 ==> #[trigger] answers@[j] is Ok,
            !failed ==> forall|j: int| 0 <= j < i ==> #[trigger] answers@[j] is Ok,
            wql@ == wql_spec(query@, projected_spec(query@.verb)),
            forall|j: int|
                0 <= j < i ==> #[trigger] backend.admits(
                    query@.source.namespace,
                    globals@.nodes[j],
                    wql@,
                    answer_view(answers@[j]),
                ),
        decreases globals.nodes.len() - i,
    {
        let answer = backend.query(
            query.source.namespace.as_str(),
            globals.nodes[i].as_str(),
            wql.as_str(),
        );
        failed = answer.is_err();
        answers.push(answer);
        i = i + 1;
    }
    let ghost views = answer_views(answers@);
    let r = finish_query(query, globals, answers, computer_name);
    proof {
        assert forall|j: int| 0 <= j < views.len() - 1 implies #[trigger] views[j] is Ok by {
            assert(answers@[j] is Ok);
        }
        assert(answers_fit(views, globals@.nodes.len() as int));
        assert forall|j: int| 0 <= j < views.len() implies #[trigger] backend.admits(
            query@.source.namespace,
            globals@.nodes[j],
            wql_spec(query@, projected_spec(query@.verb)),
            views[j],
        ) by {
            assert(views[j] == answer_view(answers@[j]));
        }
        assert(answers_admitted(backend, query@, globals@, views));
    }
    r
}

/// The outcome of a command that does not depend on a backend; `None` for a query whose
/// verb is run.
pub open spec fn direct_spec(invocation: InvocationView) -> Option<ExecutionView> {
    match invocation.command {
        CommandView::Help(HelpTopicView::Global) => Some(success_view(global_help_text())),
        CommandView::Help(HelpTopicView::Alias(name)) => match find_spec(name) {
            Some(alias) => Some(success_view(alias_help_text(alias))),
            None => Some(error_view("Alias not found: "@ + name + "\r\n"@)),
        },
        CommandView::Help(HelpTopicView::Command(name)) => Some(
            success_view(command_help_text(name)),
        ),
        CommandView::Help(HelpTopicView::Switch(name)) => Some(
            success_view(switch_help_text(name)),
        ),
        CommandView::Context => Some(success_view(context_text(invocation.globals))),
        CommandView::Exit => Some(success_view(Seq::empty())),
        CommandView::Query(query) => if runs(query.verb) {
            None
        } else {
            Some(error_view(unimplemented_text(query.verb)))
        },
    }
}

/// Every outcome is either a success (exit code 0, nothing on standard error) or a failure
/// (exit code 1, nothing on standard output).
pub open spec fn well_formed_outcome(e: ExecutionView) -> bool {
    (e.exit_code == 0 && e.stderr.len() == 0) || (e.exit_code == 1 && e.stdout.len() == 0)
}

/// A query whose verb is parsed but not run (CALL, SET, CREATE, DELETE, ASSOC) fails with
/// exit code 1 and the verb named on standard error, whatever the backend would answer.
pub proof fn law_refused_verbs_fail(invocation: InvocationView)
    requires
        invocation.command is Query,
        !runs(invocation.command->Query_0.verb),
    ensures
        direct_spec(invocation) == Some(
            error_view(unimplemented_text(invocation.command->Query_0.verb)),
        ),
        error_view(unimplemented_text(invocation.command->Query_0.verb)).exit_code == 1,
{
}

/// Whatever the backend answers, a query that is run ends in a well-formed outcome; the
/// commands that need no backend do too.
pub proof fn law_outcomes_are_well_formed(
    invocation: InvocationView,
    answers: Seq<AnswerView>,
    computer_name: Option<Seq<char>>,
)
    requires
        answers_fit(answers, invocation.globals.nodes.len() as int),
    ensures
        direct_spec(invocation) matches Some(e) ==> well_formed_outcome(e),
        invocation.command is Query ==> well_formed_outcome(
            finish_spec(invocation.command->Query_0, invocation.globals, answers, computer_name),
        ),
{
}

/// Runs a parsed command line. Help, CONTEXT, EXIT and refused verbs give the outcome
/// `direct_spec` states; a query that is run asks `backend` once per node, in order, until
/// one fails: each answer is one the backend admits for the query's WQL statement, in its
/// source's namespace, on that node, and the outcome is `finish_spec` of the answers.
/// `computer_name` is the local computer's name when it is known.
pub fn execute<B: Backend + ?Sized>(
    invocation: &Invocation,
    backend: &B,
    computer_name: Option<String>,
) -> (r: Execution)
    ensures
        well_formed_outcome(r@),
        match direct_spec(invocation@) {
            Some(outcome) => r@ == outcome,
            None => exists|answers: Seq<AnswerView>|
                answers_fit(answers, invocation@.globals.nodes.len() as int) && answers_admitted(
                    backend,
                    invocation@.command->Query_0,
                    invocation@.globals,
                    answers,
                ) && #[trigger] finish_spec(
                    invocation@.command->Query_0,
                    invocation@.globals,
                    answers,
                    opt_view(computer_name),
                ) == r@,
        },
{
    match &invocation.command {
        Command::Help(HelpTopic::Global) => Execution::success(global_help()),
        Command::Help(HelpTopic::Alias(name)) => match find(name.as_str()) {
            Some(alias) => Execution::success(alias_help(&alias)),
            None => {
                let mut out = chars_of("Alias not found: ");
                extend_str(&mut out, name.as_str());
                extend_str(&mut out, "\r\n");
                Execution::error(string_of(&out))
            },
        },
        Command::Help(HelpTopic::Command(name)) => Execution::success(command_help(name.as_str())),
        Command::Help(HelpTopic::Switch(name)) => Execution::success(switch_help(name.as_str())),
        Command::Context => Execution::success(context(&invocation.globals)),
        Command::Exit => Execution::success(String::new()),
        Command::Query(query) => {
            let r = execute_query(&**query, &invocation.globals, backend, computer_name);
            assert((**query)@ == invocation@.command->Query_0);
            r
        },
    }
}

} // verus!
