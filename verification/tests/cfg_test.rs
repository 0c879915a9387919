use canpi_config::{ActionBehaviour, Attribute, Cfg, CfgError, ConfigHash, ValueStore};

const DEFINITIONS: &str = r#"{
    "canid": {
        "prompt": "CAN Id", "tooltip": "", "current": "100", "default": "100",
        "format": "[0-9]{1,4}", "action": "Display"
    },
    "node_number": {
        "prompt": "Node Number", "tooltip": "", "current": "4321", "default": "4321",
        "format": "[0-9]{1,4}", "action": "Display"
    },
    "start_event_id": {
        "prompt": "Start Event Id", "tooltip": "", "current": "1", "default": "1",
        "format": "[0-9]{1,2}", "action": "Edit"
    },
    "node_mode": {
        "prompt": "", "tooltip": "", "current": "0", "default": "0",
        "format": "[0-9]{1,2}", "action": "Hide"
    }
}"#;

const VALUES: &str = "canid=101\nnode_number=5432\nstart_event_id=2\nnode_mode=1\n";

fn bytes(text: &str) -> Result<Vec<u8>, std::io::Error> {
    Ok(text.as_bytes().to_vec())
}

fn text(content: &str) -> Result<String, std::io::Error> {
    Ok(content.to_string())
}

fn missing() -> std::io::Error {
    std::io::Error::new(std::io::ErrorKind::NotFound, "no such file")
}

fn loaded(values: &str) -> Cfg {
    let mut cfg = Cfg::new();
    cfg.load_configuration(text(values), bytes(DEFINITIONS), "definitions.json")
        .expect("configuration failed to load");
    cfg
}

fn keys(table: &ConfigHash) -> Vec<String> {
    let mut list = Vec::new();
    let mut index = 0;
    while let Some((key, _)) = table.entry(index) {
        list.push(key.clone());
        index += 1;
    }
    list.sort();
    list
}

fn attribute(current: &str) -> Attribute {
    Attribute {
        prompt: "Router".to_string(),
        tooltip: "The network to join".to_string(),
        current: current.to_string(),
        default: "".to_string(),
        format: ".*".to_string(),
        action: ActionBehaviour::Edit,
    }
}

#[test]
fn a_new_configuration_has_no_attributes() {
    let cfg = Cfg::new();
    assert!(cfg.cfg.is_none());
    assert!(cfg.read_attribute("canid".to_string()).is_none());
    assert_eq!(cfg.attributes_with_action(ActionBehaviour::Display).len(), 0);
    assert!(cfg.write_cfg_file(Some(true)).is_none());
    assert!(cfg.write_cfg_file(None).is_none());
}

#[test]
fn loading_lays_the_values_over_the_definitions() {
    let cfg = loaded(VALUES);
    let store = cfg.cfg.as_ref().unwrap();
    assert_eq!(store.len(), 4);
    assert_eq!(store.get("canid").unwrap().current, "101");
    assert_eq!(store.get("canid").unwrap().default, "100");
    assert_eq!(store.get("node_number").unwrap().current, "5432");
    assert_eq!(store.get("start_event_id").unwrap().current, "2");
    assert_eq!(store.get("node_mode").unwrap().current, "1");
}

#[test]
fn each_behaviour_selects_its_attributes() {
    let cfg = loaded(VALUES);
    let shown = cfg.attributes_with_action(ActionBehaviour::Display);
    assert_eq!(keys(&shown), vec!["canid", "node_number"]);
    let edited = cfg.attributes_with_action(ActionBehaviour::Edit);
    assert_eq!(keys(&edited), vec!["start_event_id"]);
    assert_eq!(edited.get("start_event_id").unwrap().current, "2");
    let hidden = cfg.attributes_with_action(ActionBehaviour::Hide);
    assert_eq!(keys(&hidden), vec!["node_mode"]);
}

#[test]
fn the_three_behaviours_divide_the_attributes() {
    let cfg = loaded(VALUES);
    let mut all = Vec::new();
    for action in [ActionBehaviour::Edit, ActionBehaviour::Display, ActionBehaviour::Hide] {
        let part = cfg.attributes_with_action(action);
        let mut index = 0;
        while let Some((key, chosen)) = part.entry(index) {
            assert_eq!(chosen.action, action);
            let stored = cfg.read_attribute(key.clone()).unwrap();
            assert_eq!(chosen.current, stored.current);
            assert_eq!(chosen.prompt, stored.prompt);
            all.push(key.clone());
            index += 1;
        }
    }
    all.sort();
    assert_eq!(all, keys(cfg.cfg.as_ref().unwrap()));
}

#[test]
fn filtering_leaves_the_configuration_as_it_is() {
    let cfg = loaded(VALUES);
    let mut shown = cfg.attributes_with_action(ActionBehaviour::Display);
    shown.insert("extra".to_string(), attribute("x"));
    assert_eq!(cfg.cfg.as_ref().unwrap().len(), 4);
    assert!(cfg.read_attribute("extra".to_string()).is_none());
}

#[test]
fn a_behaviour_that_no_attribute_has_selects_nothing() {
    let mut cfg = Cfg::new();
    let only_hidden = r#"{"node_mode": {"prompt": "", "tooltip": "", "current": "0",
        "default": "0", "format": "", "action": "Hide"}}"#;
    cfg.load_configuration(text(""), bytes(only_hidden), "definitions.json").unwrap();
    assert_eq!(cfg.attributes_with_action(ActionBehaviour::Edit).len(), 0);
    assert_eq!(cfg.attributes_with_action(ActionBehaviour::Display).len(), 0);
    assert_eq!(cfg.attributes_with_action(ActionBehaviour::Hide).len(), 1);
}

#[test]
fn keys_without_a_definition_are_handed_back() {
    let mut cfg = Cfg::new();
    let unknown = cfg
        .load_configuration(
            text("canid=101\nrouter_ssid=home\n[network]\nap_ssid=canpi\n"),
            bytes(DEFINITIONS),
            "definitions.json",
        )
        .unwrap();
    assert_eq!(unknown, vec!["router_ssid"]);
    let store = cfg.cfg.as_ref().unwrap();
    assert_eq!(store.len(), 4);
    assert!(!store.contains_key("router_ssid"));
    assert_eq!(store.get("canid").unwrap().current, "101");
    assert_eq!(store.get("node_number").unwrap().current, "4321");
}

#[test]
fn a_failed_load_keeps_what_was_loaded() {
    let mut cfg = loaded(VALUES);
    let failed = cfg.load_configuration(Err(missing()), bytes(DEFINITIONS), "definitions.json");
    match failed {
        Err(CfgError::Io(error)) => assert_eq!(error.kind(), std::io::ErrorKind::NotFound),
        _ => panic!("a missing value store was passed over"),
    }
    assert_eq!(cfg.read_attribute("canid".to_string()).unwrap().current, "101");
    let failed = cfg.load_configuration(text("=1\n"), bytes(DEFINITIONS), "definitions.json");
    assert!(matches!(failed, Err(CfgError::Ini(_))));
    let failed = cfg.load_configuration(text(VALUES), Err(missing()), "definitions.json");
    assert!(matches!(failed, Err(CfgError::Io(_))));
    let failed = cfg.load_configuration(text(VALUES), bytes("{"), "definitions.json");
    assert!(matches!(failed, Err(CfgError::Json(_))));
    let failed = cfg.load_configuration(text(VALUES), bytes("[]"), "definitions.json");
    assert!(matches!(failed, Err(CfgError::Schema(_))));
    assert_eq!(cfg.cfg.as_ref().unwrap().len(), 4);
    assert_eq!(cfg.read_attribute("node_mode".to_string()).unwrap().current, "1");
}

#[test]
fn an_error_in_the_definitions_comes_before_one_in_the_values() {
    let mut cfg = Cfg::new();
    let failed = cfg.load_configuration(Err(missing()), bytes("{"), "definitions.json");
    assert!(matches!(failed, Err(CfgError::Json(_))));
    let failed = cfg.load_configuration(text("=1\n"), bytes("[]"), "definitions.json");
    assert!(matches!(failed, Err(CfgError::Schema(_))));
    assert!(cfg.cfg.is_none());
}

#[test]
fn a_second_load_replaces_the_first() {
    let mut cfg = loaded(VALUES);
    let other = r#"{"router_ssid": {"prompt": "Router", "tooltip": "", "current": "",
        "default": "", "format": ".*", "action": "Edit"}}"#;
    cfg.load_configuration(text("router_ssid=home\n"), bytes(other), "other.json").unwrap();
    let store = cfg.cfg.as_ref().unwrap();
    assert_eq!(store.len(), 1);
    assert_eq!(store.get("router_ssid").unwrap().current, "home");
    assert!(!store.contains_key("canid"));
}

#[test]
fn update_takes_the_definitions_with_the_values() {
    let schema = Cfg::create_defn_schema().unwrap();
    let defn = Cfg::read_defn_file(bytes(DEFINITIONS), "definitions.json", &schema).unwrap();
    let mut cfg = Cfg::new();
    let unknown = cfg.update_cfg_from_defn(defn, text("node_mode=7\nother=1\n")).unwrap();
    assert_eq!(unknown, vec!["other"]);
    assert_eq!(cfg.read_attribute("node_mode".to_string()).unwrap().current, "7");
    assert_eq!(cfg.read_attribute("canid".to_string()).unwrap().current, "100");
    let defn = Cfg::read_defn_file(bytes("{}"), "definitions.json", &schema).unwrap();
    assert!(matches!(cfg.update_cfg_from_defn(defn, Err(missing())), Err(CfgError::Io(_))));
    assert_eq!(cfg.cfg.as_ref().unwrap().len(), 4);
}

#[test]
fn reading_an_attribute_that_is_not_defined_gives_nothing() {
    let cfg = loaded(VALUES);
    assert!(cfg.read_attribute("router_ssid".to_string()).is_none());
    assert!(cfg.read_attribute("CANID".to_string()).is_none());
    assert!(cfg.read_attribute(String::new()).is_none());
}

#[test]
fn writing_before_loading_fails() {
    let mut cfg = Cfg::new();
    let written = cfg.write_attribute("router_ssid".to_string(), &attribute("home"));
    assert!(matches!(written, Err(CfgError::Cfg())));
    assert!(cfg.cfg.is_none());
    assert!(cfg.read_attribute("router_ssid".to_string()).is_none());
}

#[test]
fn writing_under_a_new_key_adds_the_attribute() {
    let mut cfg = loaded(VALUES);
    assert!(cfg.read_attribute("router_ssid".to_string()).is_none());
    cfg.write_attribute("router_ssid".to_string(), &attribute("home")).unwrap();
    let found = cfg.read_attribute("router_ssid".to_string()).unwrap();
    assert_eq!(found.prompt, "Router");
    assert_eq!(found.tooltip, "The network to join");
    assert_eq!(found.current, "home");
    assert_eq!(found.format, ".*");
    assert_eq!(found.action, ActionBehaviour::Edit);
    assert_eq!(cfg.cfg.as_ref().unwrap().len(), 5);
    assert_eq!(cfg.read_attribute("canid".to_string()).unwrap().current, "101");
}

#[test]
fn writing_under_a_present_key_replaces_the_whole_attribute() {
    let mut cfg = loaded(VALUES);
    cfg.write_attribute("canid".to_string(), &attribute("7")).unwrap();
    let found = cfg.read_attribute("canid".to_string()).unwrap();
    assert_eq!(found.prompt, "Router");
    assert_eq!(found.current, "7");
    assert_eq!(found.default, "");
    assert_eq!(found.action, ActionBehaviour::Edit);
    assert_eq!(cfg.cfg.as_ref().unwrap().len(), 4);
    assert_eq!(keys(&cfg.attributes_with_action(ActionBehaviour::Display)), vec!["node_number"]);
}

#[test]
fn the_file_holds_one_line_for_each_attribute() {
    let cfg = loaded(VALUES);
    let plan = cfg.write_cfg_file(None).unwrap();
    assert!(!plan.backup);
    assert_eq!(plan.text, "canid=101\nnode_mode=1\nnode_number=5432\nstart_event_id=2\n");
}

#[test]
fn a_backup_is_planned_only_when_asked_for() {
    let cfg = loaded(VALUES);
    assert!(cfg.write_cfg_file(Some(true)).unwrap().backup);
    assert!(!cfg.write_cfg_file(Some(false)).unwrap().backup);
    assert!(!cfg.write_cfg_file(None).unwrap().backup);
}

#[test]
fn only_keys_and_current_values_are_written() {
    let mut cfg = loaded("");
    cfg.write_attribute("router_ssid".to_string(), &attribute("home")).unwrap();
    let plan = cfg.write_cfg_file(None).unwrap();
    assert_eq!(plan.text, "canid=100\nnode_mode=0\nnode_number=4321\nstart_event_id=1\nrouter_ssid=home\n");
    assert!(!plan.text.contains("Router"));
    assert!(!plan.text.contains("["));
}

#[test]
fn the_value_store_of_the_attributes_follows_their_order() {
    let cfg = loaded(VALUES);
    let values = Cfg::value_store(cfg.cfg.as_ref().unwrap());
    let expected: Vec<(String, String)> =
        [("canid", "101"), ("node_mode", "1"), ("node_number", "5432"), ("start_event_id", "2")]
            .iter()
            .map(|(key, value)| (key.to_string(), value.to_string()))
            .collect();
    assert_eq!(values.pairs, expected);
}

#[test]
fn what_is_written_reads_back_as_the_same_values() {
    let cfg = loaded("canid=101\nstart_event_id=2\nrouter_ssid=home\n");
    let plan = cfg.write_cfg_file(None).unwrap();
    let mut again = Cfg::new();
    let unknown =
        again.load_configuration(Ok(plan.text.clone()), bytes(DEFINITIONS), "definitions.json").unwrap();
    assert!(unknown.is_empty());
    assert_eq!(again.read_attribute("canid".to_string()).unwrap().current, "101");
    assert_eq!(again.read_attribute("start_event_id".to_string()).unwrap().current, "2");
    assert_eq!(again.read_attribute("node_number".to_string()).unwrap().current, "4321");
    assert_eq!(again.read_attribute("node_mode".to_string()).unwrap().current, "0");
    assert_eq!(again.write_cfg_file(None).unwrap().text, plan.text);
    let back = ValueStore::parse(Ok(plan.text)).unwrap();
    assert_eq!(back.pairs.len(), 4);
}

#[test]
fn loading_the_same_values_again_gives_the_same_attributes() {
    let once = loaded(VALUES);
    let text_once = once.write_cfg_file(None).unwrap().text;
    let schema = Cfg::create_defn_schema().unwrap();
    let mut twice = loaded(VALUES);
    let store = twice.cfg.take().unwrap();
    assert!(Cfg::read_defn_file(bytes(DEFINITIONS), "definitions.json", &schema).is_ok());
    twice.update_cfg_from_defn(store, text(VALUES)).unwrap();
    assert_eq!(twice.write_cfg_file(None).unwrap().text, text_once);
}

#[test]
fn messages_name_what_went_wrong() {
    assert_eq!(CfgError::Io(missing()).message(), "cannot open configuration file");
    assert_eq!(
        CfgError::Schema("scratch/bad.json".to_string()).message(),
        "JSON input 'scratch/bad.json' failed to validate against schema"
    );
    assert_eq!(
        CfgError::Decode("scratch/odd.json".to_string()).message(),
        "JSON input 'scratch/odd.json' does not have the expected structure"
    );
    assert_eq!(CfgError::Cfg().message(), "Cfg structure not properly initialised");
    let json = serde_json::from_str::<serde_json::Value>("{").unwrap_err();
    assert_eq!(CfgError::Json(json).message(), "cannot deserialize configuration file");
    let parse = ini::Ini::load_from_str("=1").unwrap_err();
    assert_eq!(CfgError::Ini(ini::Error::Parse(parse)).message(), "cannot read/write cfg file");
    assert_eq!(CfgError::Schema(String::new()).message(), "JSON input '' failed to validate against schema");
}
