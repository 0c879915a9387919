use canpi_config::{CfgError, ValueStore};

fn pair(key: &str, value: &str) -> (String, String) {
    (key.to_string(), value.to_string())
}

fn missing() -> std::io::Error {
    std::io::Error::new(std::io::ErrorKind::NotFound, "no such file")
}

#[test]
fn parse_reads_the_assignments_in_order() {
    let store = ValueStore::parse(Ok("canid=101\nnode_number=5432\n".to_string())).unwrap();
    assert_eq!(store.pairs, vec![pair("canid", "101"), pair("node_number", "5432")]);
}

#[test]
fn parse_trims_keys_and_values() {
    let text = "\n        canid=101\n        start_event_id = 2 \n        ";
    let store = ValueStore::parse(Ok(text.to_string())).unwrap();
    assert_eq!(store.pairs, vec![pair("canid", "101"), pair("start_event_id", "2")]);
}

#[test]
fn parse_of_an_empty_text_gives_no_assignments() {
    let store = ValueStore::parse(Ok(String::new())).unwrap();
    assert!(store.pairs.is_empty());
}

#[test]
fn parse_passes_over_what_stands_in_a_section() {
    let text = "canid=101\n[network]\nrouter_ssid = \"home\"\nrouter_passwd = 123456\n[apmode]\nap_ssid = canpi\n";
    let store = ValueStore::parse(Ok(text.to_string())).unwrap();
    assert_eq!(store.pairs, vec![pair("canid", "101")]);
}

#[test]
fn parse_keeps_every_assignment_to_a_key() {
    let store = ValueStore::parse(Ok("a=1\nb=2\na=3\n".to_string())).unwrap();
    assert_eq!(store.pairs, vec![pair("a", "1"), pair("b", "2"), pair("a", "3")]);
}

#[test]
fn parse_takes_the_quotes_off_a_value() {
    let store = ValueStore::parse(Ok("router_ssid = \"home\"\n".to_string())).unwrap();
    assert_eq!(store.pairs, vec![pair("router_ssid", "home")]);
}

#[test]
fn parse_passes_over_comments() {
    let store = ValueStore::parse(Ok("; first\n# second\ncanid=101\n".to_string())).unwrap();
    assert_eq!(store.pairs, vec![pair("canid", "101")]);
}

#[test]
fn parse_fails_on_an_assignment_without_a_key() {
    let parsed = ValueStore::parse(Ok("=101\n".to_string()));
    assert!(matches!(parsed, Err(CfgError::Ini(ini::Error::Parse(_)))));
}

#[test]
fn parse_fails_on_a_key_without_an_assignment() {
    let parsed = ValueStore::parse(Ok("canid".to_string()));
    assert!(matches!(parsed, Err(CfgError::Ini(_))));
}

#[test]
fn parse_hands_on_the_failure_to_read() {
    let parsed = ValueStore::parse(Err(missing()));
    match parsed {
        Err(CfgError::Io(error)) => assert_eq!(error.kind(), std::io::ErrorKind::NotFound),
        _ => panic!("the failure to read was not handed on"),
    }
}

#[test]
fn render_writes_one_line_for_each_assignment() {
    let store = ValueStore { pairs: vec![pair("canid", "101"), pair("node_number", "5432")] };
    assert_eq!(store.render(), "canid=101\nnode_number=5432\n");
}

#[test]
fn render_of_no_assignments_is_empty() {
    let store = ValueStore { pairs: Vec::new() };
    assert_eq!(store.render(), "");
}

#[test]
fn render_writes_the_last_assignment_to_a_key_and_at_its_place() {
    let store = ValueStore { pairs: vec![pair("a", "1"), pair("b", "2"), pair("a", "3")] };
    assert_eq!(store.render(), "b=2\na=3\n");
}

#[test]
fn render_writes_an_empty_value() {
    let store = ValueStore { pairs: vec![pair("prompt", "")] };
    assert_eq!(store.render(), "prompt=\n");
}

#[test]
fn what_is_rendered_parses_to_the_same_assignments() {
    let store = ValueStore {
        pairs: vec![pair("canid", "101"), pair("node_mode", "1"), pair("router_ssid", "home net")],
    };
    let text = store.render();
    let back = ValueStore::parse(Ok(text)).unwrap();
    assert_eq!(back.pairs, store.pairs);
}
