use wmic_rs::aliases::aliases;
use wmic_rs::cli::{Destination, FailFast, HelpTopic, Invocation, OutputFormat, SourceKind, Verb};
use wmic_rs::{parse, Command};

fn args(values: &[&str]) -> Vec<String> {
    values.iter().map(|v| v.to_string()).collect()
}

fn command(values: &[&str]) -> Invocation {
    parse(args(values)).unwrap()
}

#[test]
fn empty_and_help_are_global_help() {
    assert_eq!(command(&[]).command, Command::Help(HelpTopic::Global));
    assert_eq!(command(&["/?"]).command, Command::Help(HelpTopic::Global));
    assert_eq!(command(&["/?:FULL"]).command, Command::Help(HelpTopic::Global));
}

#[test]
fn global_switch_help_does_not_require_a_value() {
    assert_eq!(
        command(&["/node", "/?"]).command,
        Command::Help(HelpTopic::Switch("NODE".into()))
    );
}

#[test]
fn parses_case_insensitive_alias_get_and_switches() {
    let invocation = command(&[
        "/namespace:root\\cimv2",
        "PrOcEsS",
        "where",
        "Name='cmd.exe'",
        "GET",
        "Name,ProcessId",
        "/value",
    ]);
    let Command::Query(query) = invocation.command else { panic!() };
    assert_eq!(query.source.class, "Win32_Process");
    assert_eq!(query.filter.as_deref(), Some("Name='cmd.exe'"));
    assert_eq!(query.verb, Verb::Get(vec!["Name".into(), "ProcessId".into()]));
    assert_eq!(query.format, OutputFormat::Value);
}

#[test]
fn path_escapes_alias_mode() {
    let Command::Query(query) = command(&["path", "Win32_OperatingSystem", "get", "Caption"]).command else { panic!() };
    assert_eq!(query.source.kind, SourceKind::Path);
    assert_eq!(query.source.class, "Win32_OperatingSystem");
}

#[test]
fn parses_all_global_switch_shapes() {
    let invocation = command(&[
        "/node:server-a,server-b", "/implevel:delegate", "/authlevel:pktPrivacy",
        "/locale:ms_411", "/privileges:enable", "/trace:on", "/record:trace.xml",
        "/interactive:off", "/failfast:1250", "/user:DOMAIN\\user", "/password:secret",
        "/aggregate:off", "/authority:ntlmdomain:DOMAIN", "/append:out.txt", "context",
    ]);
    assert_eq!(invocation.globals.nodes, ["server-a", "server-b"]);
    assert_eq!(invocation.globals.fail_fast, FailFast::Timeout(1250));
    assert_eq!(invocation.globals.destination, Destination::File { path: "out.txt".into(), append: true });
    assert!(!invocation.globals.interactive);
    assert!(!invocation.globals.aggregate);
}

#[test]
fn parses_assoc_switches() {
    let Command::Query(query) = command(&[
        "os", "assoc", "/resultclass:Win32_ComputerSystem", "/resultrole:GroupComponent",
        "/assocclass:Win32_SystemOperatingSystem",
    ]).command else { panic!() };
    let Verb::Assoc(options) = query.verb else { panic!() };
    assert_eq!(options.result_class.as_deref(), Some("Win32_ComputerSystem"));
    assert_eq!(options.result_role.as_deref(), Some("GroupComponent"));
    assert_eq!(options.assoc_class.as_deref(), Some("Win32_SystemOperatingSystem"));
}

#[test]
fn parses_mutating_verbs_without_executing_them() {
    assert!(matches!(command(&["process", "where", "ProcessId=1", "delete"]).command, Command::Query(query) if matches!(query.verb, Verb::Delete)));
    assert!(matches!(command(&["service", "where", "Name='x'", "call", "StartService"]).command, Command::Query(query) if matches!(query.verb, Verb::Call { .. })));
    assert!(matches!(command(&["environment", "create", "Name='x',VariableValue='y'"]).command, Command::Query(query) if matches!(query.verb, Verb::Create(_))));
}

#[test]
fn invalid_inputs_have_stable_diagnostics() {
    assert_eq!(parse(args(&["missingalias"])).unwrap_err().0, "Alias not found: missingalias");
    assert_eq!(parse(args(&["process", "get"])).unwrap_err().0, "GET requires at least one property");
    assert_eq!(parse(args(&["process", "where"])).unwrap_err().0, "WHERE requires a condition");
    assert_eq!(parse(args(&["/failfast:nope", "context"])).unwrap_err().0, "Invalid /FAILFAST value: nope");
}

#[test]
fn every_inbox_alias_at_least_resolves_to_a_declared_class() {
    for alias in aliases() {
        let invocation = parse(args(&[alias.name, "get", "__CLASS", "/value"]))
            .unwrap_or_else(|error| panic!("{}: {error:?}", alias.name));
        let Command::Query(query) = invocation.command else { panic!() };
        assert_eq!(query.source.class, alias.class);
    }
}

#[test]
fn command_word_case_does_not_change_the_parse() {
    let lower = command(&["/node:a", "process", "get", "Name"]);
    let mixed = command(&["/node:a", "PrOcEsS", "get", "Name"]);
    assert_eq!(lower, mixed);
    assert_eq!(command(&["CONTEXT"]), command(&["context"]));
    assert_eq!(command(&["PATH", "Win32_Bios", "get", "Name"]), command(&["path", "Win32_Bios", "get", "Name"]));
}

#[test]
fn defaults_apply_without_switches() {
    let invocation = command(&["context"]);
    assert_eq!(invocation.command, Command::Context);
    assert_eq!(invocation.globals.namespace, "root\\cimv2");
    assert_eq!(invocation.globals.nodes, ["localhost"]);
    assert_eq!(invocation.globals.fail_fast, FailFast::Off);
    assert_eq!(invocation.globals.destination, Destination::Stdout);
    assert!(invocation.globals.interactive);
    assert!(invocation.globals.aggregate);
}

#[test]
fn exit_and_quit_end_the_session() {
    assert_eq!(command(&["exit"]).command, Command::Exit);
    assert_eq!(command(&["QUIT"]).command, Command::Exit);
}

#[test]
fn path_without_class_asks_for_help() {
    assert_eq!(command(&["path"]).command, Command::Help(HelpTopic::Command("PATH".into())));
    assert_eq!(command(&["class", "/?"]).command, Command::Help(HelpTopic::Command("CLASS".into())));
}

#[test]
fn alias_help_request_names_the_alias() {
    assert_eq!(command(&["os", "/?"]).command, Command::Help(HelpTopic::Alias("OS".into())));
}

#[test]
fn list_defaults_and_modes() {
    let Command::Query(query) = command(&["os", "list", "brief"]).command else { panic!() };
    assert_eq!(query.verb, Verb::List(wmic_rs::cli::ListMode::Brief));
    assert_eq!(query.format, OutputFormat::List);
}

#[test]
fn unknown_switch_is_rejected() {
    assert_eq!(parse(args(&["/bogus", "os"])).unwrap_err().0, "Invalid global switch: /bogus");
}

#[test]
fn context_takes_no_arguments() {
    assert!(parse(args(&["context", "extra"])).is_err());
    assert_eq!(command(&["context", "/?"]).command, Command::Help(HelpTopic::Command("CONTEXT".into())));
}

#[test]
fn last_format_switch_wins() {
    let Command::Query(q) = command(&["os", "get", "Name", "/format:csv", "/value"]).command else { panic!() };
    assert_eq!(q.format, OutputFormat::Value);
    let Command::Query(q) = command(&["os", "get", "Name", "/value", "/format:csv"]).command else { panic!() };
    assert_eq!(q.format, OutputFormat::Csv);
    let Command::Query(q) = command(&["os", "get", "Name", "/value", "/all"]).command else { panic!() };
    assert_eq!(q.format, OutputFormat::Table);
}

#[test]
fn repeated_global_switch_is_the_same_as_one() {
    let once = command(&["/node:a,b", "context"]);
    let twice = command(&["/node:a,b", "/node:a,b", "context"]);
    assert_eq!(once, twice);
}

#[test]
fn a_global_switch_sets_only_its_option() {
    let plain = command(&["context"]);
    let traced = command(&["/trace:on", "context"]);
    let mut expected = plain.globals.clone();
    expected.trace = true;
    assert_eq!(traced.globals, expected);
}

#[test]
fn alias_queries_its_own_namespace_unless_one_is_chosen() {
    let Command::Query(q) = command(&["rdaccount", "get", "Name"]).command else { panic!() };
    assert_eq!(q.source.namespace, "root\\cimv2\\terminalservices");
    let Command::Query(q) = command(&["/namespace:root\\wmi", "rdaccount", "get", "Name"]).command else { panic!() };
    assert_eq!(q.source.namespace, "root\\wmi");
}

#[test]
fn later_global_switch_wins() {
    let invocation = command(&["/node:a", "/node:b", "/trace:on", "/trace:off", "context"]);
    assert_eq!(invocation.globals.nodes, ["b"]);
    assert!(!invocation.globals.trace);
}
