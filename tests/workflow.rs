use alphred::item::{Icon, Item};
use alphred::workflow::Workflow;

#[test]
fn open_file_example_renders_exactly() {
    let wf = Workflow::new(vec![Item::new("Open File").arg("/tmp/x").valid(true)]);
    assert_eq!(wf.to_string(), r#"{"items":[{"title":"Open File","arg":"/tmp/x","valid":true}]}"#);
}

#[test]
fn items_keep_their_order() {
    let wf = Workflow::new(vec![Item::new("one"), Item::new("two"), Item::new("three")]);
    assert_eq!(
        wf.to_string(),
        r#"{"items":[{"title":"one"},{"title":"two"},{"title":"three"}]}"#
    );
}

#[test]
fn empty_workflow_has_empty_array() {
    assert_eq!(Workflow::new(Vec::new()).to_string(), r#"{"items":[]}"#);
}

#[test]
fn causes_become_items_with_icon_on_first() {
    let wf = Workflow::from_causes(
        vec!["A".to_string(), "B".to_string()],
        Some(Icon::new("/cache/.alphred.error")),
    );
    assert_eq!(
        wf.to_string(),
        r#"{"items":[{"title":"A","icon":{"path":"/cache/.alphred.error"}},{"title":"B"}]}"#
    );
}

#[test]
fn causes_without_icon_still_become_items() {
    let wf = Workflow::from_causes(vec!["A".to_string(), "B".to_string()], None);
    assert_eq!(wf.to_string(), r#"{"items":[{"title":"A"},{"title":"B"}]}"#);
}

#[test]
fn error_chain_becomes_items_outermost_first() {
    let err = anyhow::Error::msg("B").context("A");
    let wf = Workflow::from_error(&err, Some(Icon::new("/c/e")));
    assert_eq!(
        wf.to_string(),
        r#"{"items":[{"title":"A","icon":{"path":"/c/e"}},{"title":"B"}]}"#
    );
}

#[test]
fn single_error_becomes_one_item() {
    let err = anyhow::Error::msg("boom");
    let wf = Workflow::from_error(&err, None);
    assert_eq!(wf.to_string(), r#"{"items":[{"title":"boom"}]}"#);
}

#[test]
fn successful_computation_keeps_its_items() {
    let wf = Workflow::from_result(|| Ok(vec![Item::new("a"), Item::new("b")]), || None);
    assert_eq!(wf.to_string(), r#"{"items":[{"title":"a"},{"title":"b"}]}"#);
}

#[test]
fn failed_computation_becomes_cause_items_with_icon() {
    let wf = Workflow::from_result(
        || Err(anyhow::Error::msg("B").context("A")),
        || Some(Icon::new("/c/.alphred.error")),
    );
    assert_eq!(
        wf.to_string(),
        r#"{"items":[{"title":"A","icon":{"path":"/c/.alphred.error"}},{"title":"B"}]}"#
    );
}

#[test]
fn unavailable_icon_does_not_hide_the_error() {
    let wf = Workflow::from_result(|| Err(anyhow::Error::msg("B").context("A")), || None);
    assert_eq!(wf.to_string(), r#"{"items":[{"title":"A"},{"title":"B"}]}"#);
}

#[test]
fn icon_is_resolved_only_on_failure() {
    let called = std::cell::Cell::new(false);
    let wf = Workflow::from_result(
        || Ok(vec![Item::new("ok")]),
        || {
            called.set(true);
            None
        },
    );
    assert!(!called.get());
    assert_eq!(wf.to_string(), r#"{"items":[{"title":"ok"}]}"#);
}
