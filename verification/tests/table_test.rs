use canpi_config::{ActionBehaviour, Attribute, Table};

fn attribute(current: &str, action: ActionBehaviour) -> Attribute {
    Attribute {
        prompt: "Prompt".to_string(),
        tooltip: "Tooltip".to_string(),
        current: current.to_string(),
        default: "0".to_string(),
        format: "[0-9]+".to_string(),
        action,
    }
}

#[test]
fn new_table_is_empty() {
    let table: Table<Attribute> = Table::new();
    assert_eq!(table.len(), 0);
    assert!(table.is_empty());
    assert!(!table.contains_key("canid"));
    assert!(table.get("canid").is_none());
    assert!(table.entry(0).is_none());
}

#[test]
fn insert_adds_a_new_key_at_the_end() {
    let mut table: Table<Attribute> = Table::new();
    table.insert("b".to_string(), attribute("1", ActionBehaviour::Edit));
    table.insert("a".to_string(), attribute("2", ActionBehaviour::Hide));
    assert_eq!(table.len(), 2);
    assert!(!table.is_empty());
    let (first_key, first) = table.entry(0).unwrap();
    assert_eq!(first_key, "b");
    assert_eq!(first.current, "1");
    let (second_key, second) = table.entry(1).unwrap();
    assert_eq!(second_key, "a");
    assert_eq!(second.current, "2");
    assert!(table.entry(2).is_none());
}

#[test]
fn insert_replaces_the_value_of_a_present_key_in_place() {
    let mut table: Table<Attribute> = Table::new();
    table.insert("b".to_string(), attribute("1", ActionBehaviour::Edit));
    table.insert("a".to_string(), attribute("2", ActionBehaviour::Hide));
    table.insert("b".to_string(), attribute("3", ActionBehaviour::Display));
    assert_eq!(table.len(), 2);
    let (first_key, first) = table.entry(0).unwrap();
    assert_eq!(first_key, "b");
    assert_eq!(first.current, "3");
    assert_eq!(first.action, ActionBehaviour::Display);
    assert_eq!(table.get("a").unwrap().current, "2");
}

#[test]
fn keys_are_case_sensitive() {
    let mut table: Table<Attribute> = Table::new();
    table.insert("canid".to_string(), attribute("1", ActionBehaviour::Edit));
    assert!(table.contains_key("canid"));
    assert!(!table.contains_key("CanId"));
    assert!(table.get("CANID").is_none());
    table.insert("CanId".to_string(), attribute("2", ActionBehaviour::Edit));
    assert_eq!(table.len(), 2);
    assert_eq!(table.get("canid").unwrap().current, "1");
    assert_eq!(table.get("CanId").unwrap().current, "2");
}

#[test]
fn the_empty_text_is_a_key_like_any_other() {
    let mut table: Table<Attribute> = Table::new();
    table.insert(String::new(), attribute("1", ActionBehaviour::Edit));
    assert!(table.contains_key(""));
    assert!(!table.contains_key(" "));
    assert_eq!(table.len(), 1);
}

#[test]
fn clone_keeps_keys_order_and_values() {
    let mut table: Table<Attribute> = Table::new();
    table.insert("b".to_string(), attribute("1", ActionBehaviour::Edit));
    table.insert("a".to_string(), attribute("2", ActionBehaviour::Hide));
    let copy = table.clone();
    table.insert("c".to_string(), attribute("3", ActionBehaviour::Hide));
    assert_eq!(copy.len(), 2);
    assert_eq!(copy.entry(0).unwrap().0, "b");
    assert_eq!(copy.entry(1).unwrap().0, "a");
    assert_eq!(copy.get("a").unwrap().current, "2");
    assert_eq!(copy.get("b").unwrap().action, ActionBehaviour::Edit);
    assert!(!copy.contains_key("c"));
}

#[test]
fn attribute_clone_keeps_every_field() {
    let first = Attribute {
        prompt: "CAN Id".to_string(),
        tooltip: "tip".to_string(),
        current: "100".to_string(),
        default: "99".to_string(),
        format: "[0-9]{1,4}".to_string(),
        action: ActionBehaviour::Display,
    };
    let copy = first.clone();
    assert_eq!(copy.prompt, "CAN Id");
    assert_eq!(copy.tooltip, "tip");
    assert_eq!(copy.current, "100");
    assert_eq!(copy.default, "99");
    assert_eq!(copy.format, "[0-9]{1,4}");
    assert_eq!(copy.action, ActionBehaviour::Display);
}
