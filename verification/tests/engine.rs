use std::cell::RefCell;
use wmic_rs::cli::{GlobalOptions, Invocation, Query};
use wmic_rs::engine::{
    build_wql, command_help, context, finish_query, namespace_path, node_shown,
    projected_properties, switch_help,
    Execution,
};
use wmic_rs::{execute, parse, Backend, Command, Record, Value};

fn args(values: &[&str]) -> Vec<String> {
    values.iter().map(|v| v.to_string()).collect()
}

#[derive(Default)]
struct FakeBackend {
    calls: RefCell<Vec<(String, String, String)>>,
    result: Vec<Record>,
}

impl Backend for FakeBackend {
    fn query(&self, namespace: &str, node: &str, wql: &str) -> Result<Vec<Record>, String> {
        self.calls.borrow_mut().push((namespace.into(), node.into(), wql.into()));
        Ok(self.result.clone())
    }
}

struct FailingOn(&'static str);

impl Backend for FailingOn {
    fn query(&self, _: &str, node: &str, _: &str) -> Result<Vec<Record>, String> {
        if node == self.0 {
            Err("Access denied".into())
        } else {
            Ok(vec![record(&[("Name", Value::String(node.to_string()))])])
        }
    }
}

fn record(pairs: &[(&str, Value)]) -> Record {
    let mut r = Record::new();
    for (name, value) in pairs {
        r.insert(name.to_string(), value.clone());
    }
    r
}

fn query_of(invocation: &Invocation) -> &Query {
    let Command::Query(query) = &invocation.command else { panic!() };
    query
}

#[test]
fn get_builds_wql_without_rewriting_user_filter() {
    let invocation = parse(args(&["process", "where", "Name='cmd.exe'", "get", "Name,ProcessId", "/value"])).unwrap();
    let backend = FakeBackend::default();
    let execution = execute(&invocation, &backend, None);
    assert_eq!(execution.exit_code, 0);
    assert_eq!(backend.calls.borrow()[0].2, "SELECT Name,ProcessId FROM Win32_Process WHERE Name='cmd.exe'");
}

#[test]
fn namespace_and_nodes_reach_backend() {
    let invocation = parse(args(&["/namespace:root\\wmi", "/node:a,b", "path", "Some_Class", "get", "Name"])).unwrap();
    let backend = FakeBackend::default();
    execute(&invocation, &backend, None);
    let calls = backend.calls.borrow();
    assert_eq!(calls.len(), 2);
    assert_eq!(calls[0], (r"root\wmi".into(), "a".into(), "SELECT Name FROM Some_Class".into()));
    assert_eq!(calls[1].1, "b");
}

#[test]
fn unsupported_mutation_fails_loudly() {
    let invocation = parse(args(&["process", "where", "ProcessId=1", "delete"])).unwrap();
    let execution = execute(&invocation, &FakeBackend::default(), None);
    assert_eq!(execution.exit_code, 1);
    assert!(execution.stderr.contains("parsed but not implemented"));
}

#[test]
fn refused_verbs_are_named_and_never_reach_the_backend() {
    let backend = FakeBackend::default();
    let execution = execute(&parse(args(&["process", "where", "ProcessId=1", "delete"])).unwrap(), &backend, None);
    assert_eq!(execution.stderr, "ERROR:\r\nDescription = Verb Delete is parsed but not implemented yet\r\n");
    assert_eq!(execution.stdout, "");
    let execution = execute(&parse(args(&["service", "call", "StartService"])).unwrap(), &backend, None);
    assert_eq!(
        execution.stderr,
        "ERROR:\r\nDescription = Verb Call { method: \"StartService\", arguments: \"\" } is parsed but not implemented yet\r\n"
    );
    let execution = execute(&parse(args(&["environment", "set", "VariableValue='y'"])).unwrap(), &backend, None);
    assert_eq!(
        execution.stderr,
        "ERROR:\r\nDescription = Verb Set(\"VariableValue='y'\") is parsed but not implemented yet\r\n"
    );
    assert!(backend.calls.borrow().is_empty());
}

#[test]
fn first_failing_node_stops_the_run() {
    let invocation = parse(args(&["/node:a,b,c", "path", "X", "get", "Name"])).unwrap();
    let execution = execute(&invocation, &FailingOn("b"), None);
    assert_eq!(execution.exit_code, 1);
    assert_eq!(execution.stderr, "Node - b\r\nERROR:\r\nDescription = Access denied\r\n");
    assert_eq!(execution.stdout, "");
}

#[test]
fn records_of_all_nodes_are_rendered_in_node_order() {
    let invocation = parse(args(&["/node:a,b", "path", "X", "get", "Name", "/value"])).unwrap();
    let execution = execute(&invocation, &FailingOn("none"), None);
    assert_eq!(execution.exit_code, 0);
    assert_eq!(execution.stdout, "\r\r\nName=a\r\r\n\r\r\nName=b\r\r\n\r\r\n");
}

#[test]
fn help_topics_are_answered_without_a_backend() {
    let backend = FakeBackend::default();
    let global = execute(&parse(args(&[])).unwrap(), &backend, None);
    assert_eq!(global.exit_code, 0);
    assert_eq!(global.stdout, wmic_rs::aliases::global_help());
    let alias = execute(&parse(args(&["os", "/?"])).unwrap(), &backend, None);
    assert!(alias.stdout.starts_with("OS - "));
    let missing = execute(&parse(args(&["/node", "/?"])).unwrap(), &backend, None);
    assert_eq!(missing.stdout, "/NODE - global switch help is not yet captured for this locale.\n");
    let exit = execute(&parse(args(&["exit"])).unwrap(), &backend, None);
    assert_eq!(exit, Execution { stdout: String::new(), stderr: String::new(), exit_code: 0 });
    assert!(backend.calls.borrow().is_empty());
}

#[test]
fn command_help_texts() {
    assert_eq!(command_help("path"), "PATH <WMI class or object path> [WHERE <condition>] <verb>\n");
    assert_eq!(command_help("Class"), "CLASS <WMI class> [WHERE <condition>] <verb>\n");
    assert_eq!(command_help("context"), "CONTEXT - Displays the state of all global switches.\n");
    assert_eq!(command_help("foo"), "FOO /?\n");
    assert_eq!(switch_help("TRACE"), "/TRACE - global switch help is not yet captured for this locale.\n");
}

#[test]
fn context_lists_every_global_switch() {
    let invocation = parse(args(&["/node:a,b", "/failfast:30", "/output:out.txt", "context"])).unwrap();
    assert_eq!(
        context(&invocation.globals),
        "NAMESPACE    : root\\cimv2\nROLE         : root\\cli\nNODE(S)      : a,b\nIMPLEVEL     : Impersonate\nAUTHLEVEL    : Packet\nLOCALE       : ms_409\nPRIVILEGES   : OFF\nTRACE        : OFF\nRECORD       : OFF\nINTERACTIVE  : ON\nFAILFAST     : Timeout(30)\nOUTPUT       : File { path: \"out.txt\", append: false }\nAGGREGATE    : ON\nAUTHORITY    : N/A\n"
    );
    let defaults = context(&GlobalOptions::default());
    assert!(defaults.contains("FAILFAST     : Off\nOUTPUT       : Stdout\n"));
}

#[test]
fn projected_properties_follow_the_verb() {
    let get = parse(args(&["os", "get", "Caption,Version"])).unwrap();
    assert_eq!(projected_properties(query_of(&get)), ["Caption", "Version"]);
    let instance = parse(args(&["os", "list", "instance"])).unwrap();
    assert_eq!(projected_properties(query_of(&instance)), ["__PATH"]);
    let status = parse(args(&["os", "list", "status"])).unwrap();
    assert_eq!(projected_properties(query_of(&status)), ["Status"]);
    let brief = parse(args(&["os", "list"])).unwrap();
    assert_eq!(projected_properties(query_of(&brief)), ["*"]);
    let system = parse(args(&["os", "list", "system"])).unwrap();
    assert_eq!(projected_properties(query_of(&system)).len(), 10);
    let delete = parse(args(&["os", "delete"])).unwrap();
    assert!(projected_properties(query_of(&delete)).is_empty());
}

#[test]
fn wql_without_properties_selects_everything() {
    let invocation = parse(args(&["path", "Win32_Bios", "delete"])).unwrap();
    assert_eq!(build_wql(query_of(&invocation), &[]), "SELECT * FROM Win32_Bios");
    assert_eq!(
        build_wql(query_of(&invocation), &["A".to_string(), "B".to_string()]),
        "SELECT A,B FROM Win32_Bios"
    );
}

#[test]
fn shown_node_for_localhost_is_the_computer_name() {
    let localhost = vec!["LocalHost".to_string()];
    assert_eq!(node_shown(&localhost, &Some("BOX-1".to_string())), "box-1");
    assert_eq!(node_shown(&localhost, &None), "localhost");
    assert_eq!(node_shown(&vec![".".to_string()], &Some("PC".to_string())), "pc");
    assert_eq!(node_shown(&vec!["Server".to_string()], &Some("PC".to_string())), "Server");
    assert_eq!(node_shown(&vec![], &Some("PC".to_string())), "pc");
}

#[test]
fn csv_names_the_local_computer() {
    let invocation = parse(args(&["path", "X", "get", "Name", "/format:csv"])).unwrap();
    let backend = FakeBackend { calls: RefCell::new(Vec::new()), result: vec![record(&[("Name", Value::String("n".into()))])] };
    let execution = execute(&invocation, &backend, Some("MYPC".into()));
    assert_eq!(execution.stdout, "\r\r\nNode,Name\r\r\nmypc,n\r\r\n");
}

#[test]
fn finish_query_reports_the_first_error() {
    let invocation = parse(args(&["/node:a,b", "path", "X", "get", "Name"])).unwrap();
    let answers = vec![Ok(vec![]), Err("boom".to_string())];
    let execution = finish_query(query_of(&invocation), &invocation.globals, answers, None);
    assert_eq!(execution.stderr, "Node - b\r\nERROR:\r\nDescription = boom\r\n");
    assert_eq!(execution.exit_code, 1);
    let empty = finish_query(query_of(&invocation), &invocation.globals, vec![], None);
    assert_eq!(empty.stdout, "No Instance(s) Available.\r\r\n");
}

#[test]
fn namespace_path_names_remote_nodes() {
    assert_eq!(namespace_path("root\\cimv2", "LOCALHOST"), "root\\cimv2");
    assert_eq!(namespace_path("root\\cimv2", "."), "root\\cimv2");
    assert_eq!(namespace_path("root\\cimv2", "srv"), "\\\\srv\\root\\cimv2");
}
