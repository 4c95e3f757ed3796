use std::collections::HashSet;
use wmic_rs::aliases::{alias_help, aliases, find, global_help};

#[test]
fn inbox_role_has_expected_alias_count_and_unique_names() {
    let table = aliases();
    assert_eq!(table.len(), 81);
    let unique: HashSet<_> = table.iter().map(|a| a.name).collect();
    assert_eq!(unique.len(), table.len());
}

#[test]
fn lookup_is_ascii_case_insensitive() {
    assert_eq!(find("pRoCeSs").unwrap().class, "Win32_Process");
}

#[test]
fn every_mapping_has_a_valid_wmi_identifier_and_namespace() {
    for alias in aliases() {
        assert!(alias.class.chars().all(|c| c.is_ascii_alphanumeric() || c == '_'));
        assert!(alias.namespace.starts_with("root\\"));
        assert!(!alias.description.is_empty());
    }
}

#[test]
fn global_help_mentions_every_alias_once() {
    let help = global_help();
    for alias in aliases() {
        assert_eq!(help.matches(&format!("{:<25}-", alias.name)).count(), 1);
    }
}

#[test]
fn every_alias_is_found_by_its_own_name_in_any_case() {
    for alias in aliases() {
        assert_eq!(find(alias.name), Some(alias));
        assert_eq!(find(&alias.name.to_ascii_lowercase()), Some(alias));
    }
}

#[test]
fn unknown_alias_is_not_found() {
    assert_eq!(find("missingalias"), None);
    assert_eq!(find(""), None);
}

#[test]
fn alias_help_names_usage_class_and_namespace() {
    let os = find("os").unwrap();
    let help = alias_help(&os);
    assert!(help.starts_with("OS - "));
    assert!(help.contains("\n\nHint: BNF for Alias usage.\nOS [WHERE <condition>]"));
    assert!(help.ends_with("Underlying WMI class: Win32_OperatingSystem\nNamespace: root\\cimv2\n"));
}

#[test]
fn global_help_starts_and_ends_with_fixed_text() {
    let help = global_help();
    assert!(help.starts_with("WMIC is deprecated.\n\n[global switches] <command>\n\n"));
    assert!(help.ends_with("For more information on CLASS/PATH/CONTEXT, type: (CLASS | PATH | CONTEXT) /?\n"));
}

#[test]
fn global_help_holds_each_alias_with_its_description() {
    let help = global_help();
    for alias in aliases() {
        assert!(help.contains(&format!("{:<25}- {}\n", alias.name, alias.description)));
    }
}
