use dioxus_dnd::styles::{merge_style_invariant_last, merge_style_user_last, protect_attributes, take_text_styles, Attr};

fn attr(name: &str, value: &str, namespace: Option<&str>) -> Attr<()> {
    Attr {
        name: name.to_string(),
        namespace: namespace.map(|n| n.to_string()),
        text: Some(value.to_string()),
        handle: (),
    }
}

#[test]
fn protected_listener_and_state_names_are_removed_but_other_attrs_survive() {
    let mut attributes = vec![
        attr("onclick", "caller", None),
        attr("data-active", "caller", None),
        attr("class", "card", None),
    ];

    protect_attributes(&mut attributes, &["onclick", "data-active"]);

    assert_eq!(attributes.len(), 1);
    assert_eq!(attributes[0].name, "class");
}

#[test]
fn every_forwarded_style_is_consumed_in_order() {
    let mut attributes = vec![
        attr("style", "color: red;", None),
        attr("class", "card", None),
        attr("style", "opacity: .5;", None),
    ];

    let style = merge_style_user_last(&mut attributes, "display: grid;");

    assert_eq!(style, "display: grid; color: red; opacity: .5;");
    assert_eq!(attributes.len(), 1);
    assert_eq!(attributes[0].name, "class");
}

#[test]
fn invariant_styles_are_emitted_after_user_declarations() {
    let mut attributes = vec![attr("style", "touch-action: auto; transform: scale(2);", None)];

    let style = merge_style_invariant_last(
        &mut attributes,
        "touch-action: none; transform: translate(4px);",
        &["touch-action", "transform"],
    );

    assert_eq!(
        style,
        "touch-action: auto; transform: scale(2); touch-action: none; transform: translate(4px);"
    );
    assert!(attributes.is_empty());
}

#[test]
fn invariant_style_namespace_properties_are_removed_selectively() {
    let mut attributes = vec![
        attr("touch-action", "auto", Some("style")),
        attr("transform", "scale(2)", Some("style")),
        attr("opacity", "0.5", Some("style")),
    ];

    let style = merge_style_invariant_last(
        &mut attributes,
        "touch-action: none; transform: none;",
        &["touch-action", "transform"],
    );

    assert_eq!(style, " touch-action: none; transform: none;");
    assert_eq!(attributes.len(), 1);
    assert_eq!(attributes[0].name, "opacity");
    assert_eq!(attributes[0].namespace.as_deref(), Some("style"));
}

#[test]
fn non_text_style_values_are_dropped_without_a_fragment() {
    let mut attributes = vec![
        Attr {
            name: "style".to_string(),
            namespace: None,
            text: None,
            handle: (),
        },
        attr("style", "color: red;", None),
        attr("id", "x", None),
    ];
    assert_eq!(take_text_styles(&mut attributes), "color: red;");
    assert_eq!(attributes.len(), 1);
    assert_eq!(take_text_styles(&mut attributes), "");
}
