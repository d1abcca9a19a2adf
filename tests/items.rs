use alphred::item::{Icon, Item};

#[test]
fn title_only_item_renders_one_key() {
    let item = Item::new("Hello");
    assert_eq!(item.to_json(), r#"{"title":"Hello"}"#);
}

#[test]
fn empty_title_still_renders() {
    assert_eq!(Item::new("").to_json(), r#"{"title":""}"#);
}

#[test]
fn every_field_set_renders_in_field_order() {
    let item = Item::new("T")
        .valid(false)
        .variables(vec![("k".to_string(), "v".to_string())])
        .icon(Icon::new("/icons/a.png"))
        .arg("A")
        .subtitle("S")
        .uid("U");
    assert_eq!(
        item.to_json(),
        r#"{"uid":"U","title":"T","subtitle":"S","arg":"A","icon":{"path":"/icons/a.png"},"valid":false,"variables":{"k":"v"}}"#
    );
}

#[test]
fn unset_fields_are_absent_not_null() {
    let json = Item::new("T").subtitle("S").to_json();
    assert_eq!(json, r#"{"title":"T","subtitle":"S"}"#);
    assert!(!json.contains("null"));
    assert!(!json.contains("uid"));
}

#[test]
fn last_setter_call_wins() {
    let item = Item::new("T").arg("first").arg("second");
    assert_eq!(item.to_json(), r#"{"title":"T","arg":"second"}"#);
}

#[test]
fn strings_are_escaped() {
    let item = Item::new("say \"hi\"\n").arg("a\\b");
    assert_eq!(item.to_json(), r#"{"title":"say \"hi\"\n","arg":"a\\b"}"#);
}

#[test]
fn variables_are_copied_into_the_item() {
    let mut vars = vec![("a".to_string(), "1".to_string()), ("b".to_string(), "2".to_string())];
    let item = Item::new("T").variables(vars.clone());
    vars[0].1 = "changed".to_string();
    vars.push(("c".to_string(), "3".to_string()));
    assert_eq!(item.to_json(), r#"{"title":"T","variables":{"a":"1","b":"2"}}"#);
}

#[test]
fn empty_variables_render_as_empty_object() {
    let item = Item::new("T").variables(Vec::new());
    assert_eq!(item.to_json(), r#"{"title":"T","variables":{}}"#);
}

#[test]
fn icon_from_str_keeps_the_path() {
    let icon = Icon::from("/tmp/i.png");
    assert_eq!(icon.path, "/tmp/i.png");
    assert_eq!(icon.to_json(), r#"{"path":"/tmp/i.png"}"#);
}

#[test]
fn valid_true_renders_as_boolean() {
    assert_eq!(Item::new("T").valid(true).to_json(), r#"{"title":"T","valid":true}"#);
}
