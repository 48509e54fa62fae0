use gpui::visual_context::{
    visual_context_fields, FieldAttributes, VisualContextError, VisualContextFields,
};

fn field(name: &str, attributes: &[&str]) -> FieldAttributes {
    FieldAttributes {
        name: name.to_string(),
        attributes: attributes.iter().map(|a| a.to_string()).collect(),
    }
}

#[test]
fn visual_context_finds_marked_fields() {
    let fields = vec![
        field("state", &["allow"]),
        field("app", &["app"]),
        field("window", &["doc", "window"]),
        field("other_window", &["window"]),
    ];
    assert_eq!(
        visual_context_fields(&fields),
        Ok(VisualContextFields { window: "window".to_string(), app: "app".to_string() })
    );
}

#[test]
fn visual_context_missing_markers() {
    assert_eq!(visual_context_fields(&vec![]), Err(VisualContextError::MissingWindow));
    let only_app = vec![field("cx", &["app"])];
    assert_eq!(visual_context_fields(&only_app), Err(VisualContextError::MissingWindow));
    let only_window = vec![field("w", &["window"])];
    assert_eq!(visual_context_fields(&only_window), Err(VisualContextError::MissingApp));
    assert_eq!(
        VisualContextError::MissingWindow.message(),
        "Derive must have a #[window] attribute to detect the &mut Window field"
    );
    assert_eq!(
        VisualContextError::MissingApp.message(),
        "Derive must have a #[app] attribute to detect the &mut App field"
    );
}

#[test]
fn visual_context_one_field_may_carry_both() {
    let fields = vec![field("both", &["window", "app"])];
    let found = visual_context_fields(&fields).unwrap();
    assert_eq!(found.window, "both");
    assert_eq!(found.app, "both");
}

#[test]
fn visual_context_standard_struct() {
    let fields = vec![field("w", &["window"]), field("a", &["app"])];
    assert_eq!(
        visual_context_fields(&fields),
        Ok(VisualContextFields { window: "w".to_string(), app: "a".to_string() })
    );
}
