use bili_cli::store::{Model, PropertyStore};

fn row(k: &str, v: &str) -> Model {
    Model { k: k.to_string(), v: v.to_string() }
}

#[test]
fn missing_property_reads_as_empty() {
    let store = PropertyStore::new();
    assert_eq!(store.load_property("web_token"), "");
}

#[test]
fn saved_property_is_read_back() {
    let mut store = PropertyStore::new();
    store.save_property("web_token".to_string(), "abc".to_string());
    store.save_property("offset".to_string(), "1000".to_string());
    assert_eq!(store.load_property("web_token"), "abc");
    assert_eq!(store.load_property("offset"), "1000");
    assert_eq!(store.load_property("other"), "");
}

#[test]
fn saving_again_replaces_the_value() {
    let mut store = PropertyStore::new();
    store.save_property("offset".to_string(), "1000".to_string());
    store.save_property("total".to_string(), "5000".to_string());
    store.save_property("offset".to_string(), "2500".to_string());
    assert_eq!(store.load_property("offset"), "2500");
    assert_eq!(store.load_property("total"), "5000");
    assert_eq!(store.rows(), &vec![row("offset", "2500"), row("total", "5000")]);
}

#[test]
fn later_rows_win_when_a_store_is_made_from_rows() {
    let store = PropertyStore::from_rows(vec![row("a", "1"), row("b", "2"), row("a", "3")]);
    assert_eq!(store.load_property("a"), "3");
    assert_eq!(store.load_property("b"), "2");
    assert_eq!(store.rows().len(), 2);
}
