use wmic_rs::{execute, parse, Backend, Record, Value};

struct FixedBackend;

impl Backend for FixedBackend {
    fn query(&self, _: &str, _: &str, _: &str) -> Result<Vec<Record>, String> {
        let mut record = Record::new();
        record.insert("Caption".into(), Value::String("Test Windows".into()));
        record.insert("OSLanguage".into(), Value::Unsigned(1033));
        Ok(vec![record])
    }
}

fn args(values: &[&str]) -> Vec<String> {
    values.iter().map(|v| v.to_string()).collect()
}

#[test]
fn library_consumers_can_parse_execute_and_render() {
    let invocation = parse(args(&["os", "get", "Caption,OSLanguage", "/value"])).unwrap();
    let result = execute(&invocation, &FixedBackend, None);
    assert_eq!(result.exit_code, 0);
    assert_eq!(result.stdout, "\r\r\nCaption=Test Windows\r\r\nOSLanguage=1033\r\r\n\r\r\n");
}

#[test]
fn backend_errors_are_reported_with_wmic_style_sections() {
    struct Broken;
    impl Backend for Broken {
        fn query(&self, _: &str, _: &str, _: &str) -> Result<Vec<Record>, String> {
            Err("Invalid class".into())
        }
    }
    let result = execute(&parse(args(&["path", "Not_A_Class", "get", "Name"])).unwrap(), &Broken, None);
    assert_eq!(result.exit_code, 1);
    assert!(result.stderr.contains("ERROR:\r\nDescription = Invalid class"));
}
