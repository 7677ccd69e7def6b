use peekaboox::atspi::{
    atspi_state_names, context_for_children, is_structural_role, is_window_role,
    ui_element_from_parts, AtSpiElementContext,
};
use peekaboox::element::{
    click_target_score, element_center, resolve_click_target_from_elements,
    resolve_click_target_from_tree,
};
use peekaboox::matcher::{contains_case_insensitive, TextMatchMode, TextMatcher};
use peekaboox::query::ElementQuery;
use peekaboox::selector::{rect_contains_point, rect_contains_rect, rect_from_extents, rects_intersect};
use peekaboox::types::{Point, Rect, UiElement};

fn test_element(id: &str, role: &str, label: Option<&str>, bounds: Rect) -> UiElement {
    UiElement {
        id: id.to_owned(),
        role: role.to_owned(),
        label: label.map(str::to_owned),
        bounds,
        center: bounds.center(),
        states: Vec::new(),
        window_id: None,
        window_title: None,
        app_id: None,
        parent_id: None,
        child_ids: Vec::new(),
    }
}

/// The element's confidence against the query's threshold, as a caller
/// compares them.
fn meets_confidence(query: &ElementQuery, confidence: f32) -> bool {
    match &query.min_confidence {
        Some(clause) => confidence >= clause.value.parse::<f32>().unwrap(),
        None => true,
    }
}

#[test]
fn selector_defaults_to_label_query() {
    let query = ElementQuery::parse("Submit").unwrap();

    assert_eq!(query.role, None);
    assert_eq!(query.label.as_ref().map(|matcher| matcher.value.as_str()), Some("Submit"));
}

#[test]
fn selector_accepts_role_and_label_parts() {
    let query = ElementQuery::parse("role=push button,label=Save").unwrap();

    assert_eq!(query.role.as_ref().map(|matcher| matcher.value.as_str()), Some("push button"));
    assert_eq!(query.label.as_ref().map(|matcher| matcher.value.as_str()), Some("Save"));
}

#[test]
fn query_matches_case_insensitive_role_and_label() {
    let query = ElementQuery::parse("role:button,text:submit").unwrap();
    let mut element =
        test_element("element-1", "Push Button", Some("Submit order"), Rect::new(0, 0, 100, 40));
    element.states = vec!["enabled".to_owned()];

    assert!(query.matches(&element, meets_confidence(&query, 1.0)));
}

#[test]
fn selector_accepts_bounds_state_and_confidence_parts() {
    let query =
        ElementQuery::parse("role=button,state=enabled,contains=25,30,confidence>=0.9").unwrap();
    let mut element =
        test_element("element-1", "push button", Some("Submit order"), Rect::new(10, 20, 100, 40));
    element.states = vec!["enabled".to_owned(), "visible".to_owned()];

    assert_eq!(query.contains_point, Some(Point::new(25, 30)));
    assert_eq!(
        query.min_confidence.as_ref().map(|clause| clause.value.parse::<f32>().unwrap()),
        Some(0.9)
    );
    assert!(query.matches(&element, meets_confidence(&query, 0.95)));
}

#[test]
fn selector_accepts_exact_bounds() {
    let query = ElementQuery::parse("bounds=10,20,90,30").unwrap();
    let element =
        test_element("element-1", "push button", Some("Submit"), Rect::new(10, 20, 90, 30));

    assert_eq!(query.bounds, Some(Rect::new(10, 20, 90, 30)));
    assert!(query.matches(&element, meets_confidence(&query, 1.0)));
}

#[test]
fn selector_supports_exact_regex_geometry_and_metadata() {
    let query = ElementQuery::parse(
        "id-exact=button-1,role-exact=push button,label-regex=^Sub.*,not-state=disabled,within=0,0,200,120,intersects=40,40,40,40,min-width=80,min-height=20,window-title=Demo,app=org.demo",
    )
    .unwrap();
    let mut element =
        test_element("button-1", "push button", Some("Submit"), Rect::new(10, 20, 90, 30));
    element.states = vec!["enabled".to_owned(), "visible".to_owned()];
    element.window_title = Some("Demo Window".to_owned());
    element.app_id = Some("org.demo.App".to_owned());

    assert!(query.matches(&element, meets_confidence(&query, 1.0)));
}

#[test]
fn selector_rejects_invalid_numeric_and_unknown_keys() {
    assert!(ElementQuery::parse("bounds=not-a-rect").is_err());
    assert!(ElementQuery::parse("contains=10").is_err());
    assert!(ElementQuery::parse("unknown=value").is_err());
}

#[test]
fn extents_reject_negative_sizes() {
    assert_eq!(rect_from_extents((1, 2, -1, 10)), None);
    assert_eq!(rect_from_extents((1, 2, 30, 40)), Some(Rect::new(1, 2, 30, 40)));
}

#[test]
fn case_insensitive_contains_handles_simple_ascii() {
    assert!(contains_case_insensitive("Save Document", "save"));
}

#[test]
fn element_center_uses_bounds_midpoint() {
    let element = test_element("button-1", "push button", Some("Submit"), Rect::new(10, 20, 90, 30));

    assert_eq!(element_center(&element), Some(Point::new(55, 35)));
}

#[test]
fn resolves_click_target_by_best_label_match() {
    let weak_match =
        test_element("button-2", "push button", Some("Submit later"), Rect::new(0, 0, 80, 20));
    let exact_match =
        test_element("button-1", "push button", Some("Submit"), Rect::new(10, 20, 90, 30));

    let target =
        resolve_click_target_from_elements("Submit", vec![(weak_match, true), (exact_match, true)])
            .unwrap();

    assert_eq!(target.element.id, "button-1");
    assert_eq!(target.position, Point::new(55, 35));
}

#[test]
fn atspi_state_names_decode_bitset_words() {
    let states = atspi_state_names(&[(1 << 8) | (1 << 30), 1 << 11]);

    assert_eq!(states, vec!["enabled".to_owned(), "visible".to_owned(), "read-only".to_owned()]);
}

#[test]
fn state_names_ignore_bits_past_the_table() {
    assert_eq!(atspi_state_names(&[]), Vec::<String>::new());
    assert_eq!(atspi_state_names(&[1, 1 << 12, 7]), vec!["invalid".to_owned()]);
    assert_eq!(atspi_state_names(&[0, 1 << 31]), Vec::<String>::new());
}

#[test]
fn click_target_ties_go_to_the_smallest_id_then_the_first_listed() {
    let b = test_element("b", "push button", Some("Submit"), Rect::new(0, 0, 10, 10));
    let a = test_element("a", "push button", Some("Submit"), Rect::new(20, 0, 10, 10));
    let a_again = test_element("a", "push button", Some("Submit"), Rect::new(40, 0, 10, 10));
    let elements = vec![(b, true), (a, true), (a_again, true)];

    let target = resolve_click_target_from_tree("Submit", &elements).unwrap();

    assert_eq!(target.element.id, "a");
    assert_eq!(target.position, Point::new(25, 5));
}

#[test]
fn click_target_skips_elements_without_a_point() {
    let flat = test_element("a", "push button", Some("Submit"), Rect::new(0, 0, 0, 10));
    let real = test_element("z", "push button", Some("Submit later"), Rect::new(0, 0, 10, 10));

    let target =
        resolve_click_target_from_elements("Submit", vec![(flat, true), (real, true)]).unwrap();

    assert_eq!(target.element.id, "z");
}

#[test]
fn click_target_errors() {
    let element = test_element("a", "push button", Some("Submit"), Rect::new(0, 0, 10, 10));
    let blank = resolve_click_target_from_elements("  ", vec![(element.clone(), true)]).unwrap_err();
    assert_eq!(blank.message(), "click selector must not be empty");

    let malformed =
        resolve_click_target_from_elements("bounds=1", vec![(element.clone(), true)]).unwrap_err();
    assert_eq!(
        malformed.message(),
        "selector bounds must be x,y,width,height with non-negative size, got \"1\""
    );

    let missing =
        resolve_click_target_from_elements("Cancel", vec![(element.clone(), true)]).unwrap_err();
    assert_eq!(missing.message(), "no clickable accessibility element matched selector \"Cancel\"");

    let unconfident = resolve_click_target_from_elements(
        "Submit,confidence=0.9",
        vec![(element, false)],
    )
    .unwrap_err();
    assert_eq!(
        unconfident.message(),
        "no clickable accessibility element matched selector \"Submit,confidence=0.9\""
    );
}

#[test]
fn click_score_weighs_label_role_and_point() {
    let query = ElementQuery::parse("role=button,label=Submit").unwrap();
    let exact = test_element("a", "Button", Some("submit"), Rect::new(0, 0, 10, 10));
    let partial = test_element("b", "push button", Some("Submit later"), Rect::new(0, 0, 0, 0));

    assert_eq!(click_target_score(&query, &exact), 1210);
    assert_eq!(click_target_score(&query, &partial), 600);
}

#[test]
fn state_clauses_look_at_every_state() {
    let query = ElementQuery::parse("state-exact=visible,not-state=disabled").unwrap();
    let mut element = test_element("a", "push button", None, Rect::new(0, 0, 10, 10));
    element.states = vec!["enabled".to_owned(), "visible".to_owned()];
    assert!(query.matches(&element, true));

    element.states.push("Disabled".to_owned());
    assert!(!query.matches(&element, true));
}

#[test]
fn app_clause_also_accepts_the_window_title() {
    let query = ElementQuery::parse("app=editor").unwrap();
    let mut element = test_element("a", "push button", None, Rect::new(0, 0, 10, 10));
    assert!(!query.matches(&element, true));

    element.window_title = Some("Text Editor".to_owned());
    assert!(query.matches(&element, true));
}

#[test]
fn later_clauses_replace_earlier_ones() {
    let query = ElementQuery::parse("role=menu,role-exact=button").unwrap();
    assert_eq!(
        query.role,
        Some(TextMatcher { value: "button".to_owned(), mode: TextMatchMode::Exact })
    );
}

#[test]
fn malformed_selector_gives_the_empty_query() {
    assert_eq!(ElementQuery::from_selector("unknown=value"), ElementQuery::parse("").unwrap());
    assert_eq!(ElementQuery::from_selector("role=menu"), ElementQuery::parse("role=menu").unwrap());
}

#[test]
fn geometry_predicates_exclude_empty_rectangles() {
    let rect = Rect::new(10, 20, 100, 40);
    assert!(rect_contains_point(rect, Point::new(10, 20)));
    assert!(!rect_contains_point(rect, Point::new(110, 20)));
    assert!(!rect_contains_point(Rect::new(0, 0, 0, 5), Point::new(0, 0)));
    assert!(rect_contains_rect(rect, Rect::new(10, 20, 100, 40)));
    assert!(!rect_contains_rect(rect, Rect::new(10, 20, 0, 0)));
    assert!(rects_intersect(rect, Rect::new(109, 59, 5, 5)));
    assert!(!rects_intersect(rect, Rect::new(110, 20, 5, 5)));
}

#[test]
fn roles_classify_structure_and_windows() {
    assert!(is_structural_role("panel"));
    assert!(!is_structural_role("Panel"));
    assert!(is_window_role("File Chooser"));
    assert!(!is_window_role("push button"));
}

#[test]
fn atspi_nodes_become_elements() {
    let context = AtSpiElementContext {
        app_id: Some("org.demo".to_owned()),
        window_id: None,
        window_title: None,
        parent_id: Some("root".to_owned()),
    };
    let element = ui_element_from_parts(
        ":1.2/obj/3".to_owned(),
        "  frame ",
        Some(" Demo Window ".to_owned()),
        Some((0, 0, 640, 480)),
        Some(vec![1 << 30]),
        &context,
        vec!["child".to_owned()],
    )
    .unwrap();
    assert_eq!(element.role, "frame");
    assert_eq!(element.label.as_deref(), Some("Demo Window"));
    assert_eq!(element.center, Some(Point::new(320, 240)));
    assert_eq!(element.states, vec!["visible".to_owned()]);
    assert_eq!(element.parent_id.as_deref(), Some("root"));

    let child_context = context_for_children(&context, &element);
    assert_eq!(child_context.window_id.as_deref(), Some(":1.2/obj/3"));
    assert_eq!(child_context.window_title.as_deref(), Some("Demo Window"));
    assert_eq!(child_context.parent_id.as_deref(), Some(":1.2/obj/3"));
    assert_eq!(child_context.app_id.as_deref(), Some("org.demo"));

    assert_eq!(
        ui_element_from_parts("x".to_owned(), "panel", None, Some((0, 0, -5, 3)), None, &context, vec![]),
        None
    );
    assert_eq!(ui_element_from_parts("x".to_owned(), "  ", None, None, None, &context, vec![]), None);
    let unread = ui_element_from_parts("x".to_owned(), "label", None, None, None, &context, vec![])
        .unwrap();
    assert_eq!(unread.bounds, Rect::new(0, 0, 0, 0));
    assert_eq!(unread.center, None);
}
