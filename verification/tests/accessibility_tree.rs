use peekaboox::atspi::{AtSpiTraversal, MAX_TREE_DEPTH, MAX_TREE_ELEMENTS, MAX_TREE_NODES};
use peekaboox::tree::{dedup_ids, element_key_less, normalize_tree_elements, sort_elements};
use peekaboox::types::{BackendKind, Rect, UiElement};

fn element(id: &str, role: &str, label: Option<&str>) -> UiElement {
    let bounds = Rect::new(0, 0, 10, 10);
    UiElement {
        id: id.to_owned(),
        role: role.to_owned(),
        label: label.map(str::to_owned),
        bounds,
        center: bounds.center(),
        states: Vec::new(),
        window_id: None,
        window_title: None,
        app_id: None,
        parent_id: None,
        child_ids: Vec::new(),
    }
}

fn ids(elements: &[UiElement]) -> Vec<&str> {
    elements.iter().map(|element| element.id.as_str()).collect()
}

#[test]
fn element_order_goes_by_role_then_label_then_id() {
    let button = element("b", "button", Some("OK"));
    let label = element("a", "label", Some("OK"));
    assert!(element_key_less(&button, &label));
    assert!(!element_key_less(&label, &button));

    let unlabeled = element("z", "button", None);
    assert!(element_key_less(&unlabeled, &button));

    let same_key_a = element("a", "button", Some("OK"));
    assert!(element_key_less(&same_key_a, &button));
    assert!(!element_key_less(&button, &button));
}

#[test]
fn sorting_keeps_equal_keys_in_their_order() {
    let first = element("same", "button", Some("OK"));
    let mut second = element("same", "button", Some("OK"));
    second.window_id = Some("second".to_owned());
    let sorted = sort_elements(vec![
        element("c", "text", None),
        first,
        element("a", "button", None),
        second,
    ]);
    assert_eq!(ids(&sorted), vec!["a", "same", "same", "c"]);
    assert_eq!(sorted[1].window_id, None);
    assert_eq!(sorted[2].window_id.as_deref(), Some("second"));
}

#[test]
fn dedup_drops_only_runs_of_equal_ids() {
    let kept = dedup_ids(vec![
        element("a", "button", None),
        element("a", "label", None),
        element("b", "button", None),
        element("a", "button", None),
    ]);
    assert_eq!(ids(&kept), vec!["a", "b", "a"]);
    assert_eq!(kept[0].role, "button");
}

#[test]
fn normalized_tree_is_sorted_and_one_per_id() {
    let normalized = normalize_tree_elements(vec![
        element("save", "button", Some("Save")),
        element("title", "label", Some("Document")),
        element("save", "button", Some("Save")),
        element("cancel", "button", Some("Cancel")),
    ]);
    assert_eq!(ids(&normalized), vec!["cancel", "save", "title"]);
    assert!(normalize_tree_elements(Vec::new()).is_empty());
}

#[test]
fn traversal_enters_each_node_once_within_depth() {
    let mut traversal = AtSpiTraversal::new();
    assert!(traversal.enter(0, ":1.2/root".to_owned()));
    assert!(!traversal.enter(1, ":1.2/root".to_owned()));
    assert!(traversal.enter(MAX_TREE_DEPTH, ":1.2/deep".to_owned()));
    assert!(!traversal.enter(MAX_TREE_DEPTH + 1, ":1.2/deeper".to_owned()));
    assert!(!traversal.exhausted());
    assert!(!traversal.application_done());
}

#[test]
fn traversal_stops_after_the_node_limit() {
    let mut traversal = AtSpiTraversal::new();
    for index in 0..MAX_TREE_NODES {
        assert!(traversal.enter(0, format!("node-{index}")));
    }
    assert!(traversal.exhausted());
    assert!(!traversal.enter(0, "one-more".to_owned()));
    assert!(traversal.application_done());
    let metadata = traversal.finish();
    assert_eq!(metadata.warnings, vec!["stopped AT-SPI traversal after 5000 nodes".to_owned()]);
}

#[test]
fn traversal_stops_after_the_element_limit() {
    let mut traversal = AtSpiTraversal::new();
    for index in 0..MAX_TREE_ELEMENTS {
        assert!(traversal.add_element(element(&format!("e{index}"), "button", None)));
    }
    assert!(!traversal.add_element(element("extra", "button", None)));
    assert!(traversal.exhausted());
    assert!(!traversal.enter(0, "late".to_owned()));
    assert!(traversal.application_done());
    let metadata = traversal.finish();
    assert_eq!(metadata.elements.len(), MAX_TREE_ELEMENTS);
    assert_eq!(
        metadata.warnings,
        vec!["stopped AT-SPI traversal after 2000 elements".to_owned()]
    );
}

#[test]
fn finished_traversal_reports_normalized_elements_and_warnings() {
    let mut traversal = AtSpiTraversal::new();
    assert!(traversal.enter(0, "app".to_owned()));
    assert!(traversal.add_element(element("ok", "push button", Some("OK"))));
    assert!(traversal.add_element(element("cancel", "push button", Some("Cancel"))));
    assert!(traversal.add_element(element("ok", "push button", Some("OK"))));
    traversal.warn(":1.5/obj children: timeout".to_owned());
    let metadata = traversal.finish();
    assert_eq!(metadata.backend_name, "at-spi");
    assert_eq!(metadata.backend_kind, BackendKind::AtSpi);
    assert_eq!(ids(&metadata.elements), vec!["cancel", "ok"]);
    assert_eq!(metadata.warnings, vec![":1.5/obj children: timeout".to_owned()]);
}
