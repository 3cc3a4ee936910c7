use cursedboard::config_tree::{merge, ConfigValue};

fn leaf(text: &str) -> ConfigValue {
    ConfigValue::Leaf(text.to_string())
}

fn table(entries: Vec<(&str, ConfigValue)>) -> ConfigValue {
    ConfigValue::Table(entries.into_iter().map(|(k, v)| (k.to_string(), v)).collect())
}

fn shown(value: &ConfigValue) -> String {
    format!("{:?}", value)
}

#[test]
fn leaf_replaces_and_is_replaced() {
    assert_eq!(shown(&merge(leaf("a"), &leaf("b"))), shown(&leaf("b")));
    let t = table(vec![("k", leaf("v"))]);
    assert_eq!(shown(&merge(leaf("a"), &t)), shown(&t));
    assert_eq!(shown(&merge(table(vec![("k", leaf("v"))]), &leaf("b"))), shown(&leaf("b")));
}

#[test]
fn tables_merge_name_by_name() {
    let base = table(vec![
        ("network", table(vec![("port", leaf("34254")), ("bind", leaf("0.0.0.0"))])),
        ("logging", table(vec![("level", leaf("info"))])),
    ]);
    let over = table(vec![
        ("network", table(vec![("port", leaf("9000"))])),
        ("p2p", table(vec![("psk", leaf("s"))])),
    ]);
    let expected = table(vec![
        ("network", table(vec![("port", leaf("9000")), ("bind", leaf("0.0.0.0"))])),
        ("logging", table(vec![("level", leaf("info"))])),
        ("p2p", table(vec![("psk", leaf("s"))])),
    ]);
    assert_eq!(shown(&merge(base, &over)), shown(&expected));
}

#[test]
fn empty_tables() {
    let base = table(vec![("a", leaf("1"))]);
    assert_eq!(shown(&merge(table(vec![("a", leaf("1"))]), &table(vec![]))), shown(&base));
    assert_eq!(shown(&merge(table(vec![]), &base)), shown(&base));
    // A table over a leaf takes its place, and a leaf over a table too.
    let over = table(vec![("a", table(vec![]))]);
    assert_eq!(shown(&merge(table(vec![("a", leaf("1"))]), &over)), shown(&over));
    let under = table(vec![("a", table(vec![("b", leaf("2"))]))]);
    let flat = table(vec![("a", leaf("3"))]);
    assert_eq!(shown(&merge(under, &flat)), shown(&flat));
}

#[test]
fn later_entries_see_earlier_ones() {
    // The same name twice in the upper table: the second is merged into
    // what the first left.
    let over = table(vec![
        ("a", table(vec![("x", leaf("1"))])),
        ("a", table(vec![("y", leaf("2"))])),
    ]);
    let expected = table(vec![("a", table(vec![("x", leaf("1")), ("y", leaf("2"))]))]);
    assert_eq!(shown(&merge(table(vec![]), &over)), shown(&expected));
}

#[test]
fn copies_are_equal() {
    let t = table(vec![("a", table(vec![("b", leaf("c")), ("d", table(vec![]))])), ("e", leaf("f"))]);
    assert_eq!(shown(&t.copy()), shown(&t));
    assert_eq!(shown(&leaf("x").copy()), shown(&leaf("x")));
}
