use system_configuration::handle::ObjectKind;
use system_configuration::property_list::PropertyList;

fn text(s: &str) -> PropertyList {
    PropertyList::String(s.to_string())
}

fn sample_dictionary() -> PropertyList {
    PropertyList::Dictionary(vec![
        ("Name".to_string(), text("en0")),
        ("Enabled".to_string(), PropertyList::Boolean(true)),
        ("MTU".to_string(), PropertyList::Number(1500)),
    ])
}

#[test]
fn downcasts_match_only_their_own_kind() {
    let nodes = vec![
        text("a"),
        PropertyList::Number(7),
        PropertyList::Boolean(false),
        PropertyList::Data(vec![1, 2]),
        PropertyList::Array(vec![]),
        PropertyList::Dictionary(vec![]),
    ];
    let kinds = [
        ObjectKind::String,
        ObjectKind::Number,
        ObjectKind::Boolean,
        ObjectKind::Data,
        ObjectKind::Array,
        ObjectKind::Dictionary,
    ];
    for (node, kind) in nodes.iter().zip(kinds) {
        assert_eq!(node.kind(), kind);
        assert_eq!(node.as_string().is_some(), kind == ObjectKind::String);
        assert_eq!(node.as_number().is_some(), kind == ObjectKind::Number);
        assert_eq!(node.as_boolean().is_some(), kind == ObjectKind::Boolean);
        assert_eq!(node.as_data().is_some(), kind == ObjectKind::Data);
        assert_eq!(node.as_array().is_some(), kind == ObjectKind::Array);
        assert_eq!(node.as_dictionary().is_some(), kind == ObjectKind::Dictionary);
    }
    assert_eq!(PropertyList::Number(-3).as_number(), Some(-3));
    assert_eq!(PropertyList::Boolean(true).as_boolean(), Some(true));
    assert_eq!(PropertyList::Data(vec![0, 255]).as_data(), Some(&vec![0, 255]));
    assert_eq!(text("x").as_string().map(|s| s.as_str()), Some("x"));
}

#[test]
fn dictionary_get_finds_values_by_key() {
    let dict = sample_dictionary();
    assert_eq!(dict.get("Name"), Some(&text("en0")));
    assert_eq!(dict.get("MTU"), Some(&PropertyList::Number(1500)));
    assert_eq!(dict.get("Missing"), None);
    assert_eq!(dict.get_string("Name").map(|s| s.as_str()), Some("en0"));
    assert_eq!(dict.get_string("Enabled"), None);
    assert_eq!(dict.get_string("Missing"), None);
}

#[test]
fn get_on_a_node_that_is_no_dictionary_is_none() {
    assert_eq!(text("Name").get("Name"), None);
    assert_eq!(PropertyList::Array(vec![text("Name")]).get("Name"), None);
    assert_eq!(PropertyList::Dictionary(vec![]).get(""), None);
}

#[test]
fn string_list_requires_strings_only() {
    let strings = PropertyList::Array(vec![text("8.8.8.8"), text("8.8.4.4")]);
    assert_eq!(
        strings.string_list(),
        Some(vec!["8.8.8.8".to_string(), "8.8.4.4".to_string()])
    );
    let mixed = PropertyList::Array(vec![text("8.8.8.8"), PropertyList::Number(1)]);
    assert_eq!(mixed.string_list(), None);
    assert_eq!(PropertyList::Array(vec![]).string_list(), Some(vec![]));
    assert_eq!(text("8.8.8.8").string_list(), None);
}

#[test]
fn from_strings_builds_an_array_of_strings() {
    let texts = vec!["a".to_string(), "b".to_string()];
    let node = PropertyList::from_strings(&texts);
    assert_eq!(node, PropertyList::Array(vec![text("a"), text("b")]));
    assert_eq!(node.string_list(), Some(texts));
}
