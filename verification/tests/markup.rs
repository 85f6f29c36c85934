use ryusei_gpui::board::Vertex;
use ryusei_gpui::markup::{
    create_clear_markup_transactions, create_line_transaction, create_markup_transaction,
    create_scoring_transaction, create_setup_transactions, markup_symbol, next_scoring_override,
    GameTransactionType, MarkupTool,
};
use ryusei_gpui::properties::Properties;

fn current_node_id() -> String {
    "root".to_owned()
}

#[test]
fn play_tool_builds_no_markup_transaction() {
    let transaction = create_markup_transaction(
        &current_node_id(),
        Vertex { column: 3, row: 3 },
        MarkupTool::Play,
        "",
    );
    assert!(transaction.is_none());
}

#[test]
fn circle_builds_an_add_markup_transaction_without_label() {
    let transaction = create_markup_transaction(
        &current_node_id(),
        Vertex { column: 3, row: 3 },
        MarkupTool::Circle,
        "",
    )
    .expect("a circle tool must build a transaction");

    assert_eq!(transaction.transaction_type, GameTransactionType::AddMarkup);
    assert_eq!(transaction.vertex, Some(Vertex { column: 3, row: 3 }));
    let marker = transaction.marker.expect("markup needs a marker");
    assert_eq!(marker.marker_type, "circle");
    assert_eq!(marker.label, None);
}

#[test]
fn label_builds_a_marker_with_the_given_text() {
    let transaction = create_markup_transaction(
        &current_node_id(),
        Vertex { column: 4, row: 4 },
        MarkupTool::Label,
        "Q",
    )
    .expect("a label tool must build a transaction");

    let marker = transaction.marker.expect("markup needs a marker");
    assert_eq!(marker.marker_type, "label");
    assert_eq!(marker.label.as_deref(), Some("Q"));
}

#[test]
fn each_tool_maps_to_its_marker_type() {
    let cases = [
        (MarkupTool::Circle, "circle"),
        (MarkupTool::Square, "square"),
        (MarkupTool::Triangle, "triangle"),
        (MarkupTool::Cross, "cross"),
        (MarkupTool::Label, "label"),
    ];
    for (tool, expected) in cases {
        let transaction = create_markup_transaction(
            &current_node_id(),
            Vertex { column: 0, row: 0 },
            tool,
            "x",
        )
        .expect("markup tool must build a transaction");
        assert_eq!(
            transaction.marker.unwrap().marker_type,
            expected,
            "{tool:?} must use the domain-core marker type {expected}"
        );
    }
}

#[test]
fn symbols_render_expected_glyphs() {
    assert_eq!(markup_symbol("point", None), "●");
    assert_eq!(markup_symbol("circle", None), "◯");
    assert_eq!(markup_symbol("square", None), "□");
    assert_eq!(markup_symbol("triangle", None), "△");
    assert_eq!(markup_symbol("cross", None), "✕");
    assert_eq!(markup_symbol("label", Some("A")), "A");
    assert_eq!(markup_symbol("label", None), "?");
}

#[test]
fn unknown_marker_types_render_a_bullet() {
    assert_eq!(markup_symbol("mystery", Some("A")), "•");
}

#[test]
fn line_transactions_use_sgf_pairs_and_do_not_duplicate_them() {
    let node_id = current_node_id();
    let mut properties = Properties::new();
    properties.insert("LN".to_owned(), vec!["dd:ee".to_owned()]);

    let duplicate = create_line_transaction(
        &node_id,
        Vertex { column: 3, row: 3 },
        Vertex { column: 4, row: 4 },
        MarkupTool::Line,
        &properties,
    )
    .expect("line tool creates a transaction");
    assert_eq!(duplicate.property.as_deref(), Some("LN"));
    assert_eq!(duplicate.values, vec!["dd:ee"]);

    let arrow = create_line_transaction(
        &node_id,
        Vertex { column: 3, row: 3 },
        Vertex { column: 5, row: 5 },
        MarkupTool::Arrow,
        &properties,
    )
    .expect("arrow tool creates a transaction");
    assert_eq!(arrow.property.as_deref(), Some("AR"));
    assert_eq!(arrow.values, vec!["dd:ff"]);
}

#[test]
fn line_transactions_append_new_pairs_and_ignore_other_tools() {
    let mut properties = Properties::new();
    properties.insert("LN".to_owned(), vec!["dd:ee".to_owned()]);
    let added = create_line_transaction(
        &current_node_id(),
        Vertex { column: 0, row: 0 },
        Vertex { column: 1, row: 2 },
        MarkupTool::Line,
        &properties,
    )
    .expect("line tool creates a transaction");
    assert_eq!(added.values, vec!["dd:ee", "aa:bc"]);
    assert_eq!(added.transaction_type, GameTransactionType::SetNodeProperty);
    assert_eq!(added.node_id.as_deref(), Some("root"));
    assert!(create_line_transaction(
        &current_node_id(),
        Vertex { column: 0, row: 0 },
        Vertex { column: 1, row: 2 },
        MarkupTool::Circle,
        &properties,
    )
    .is_none());
}

#[test]
fn setup_placement_appends_and_deduplicates_vertices() {
    let node_id = "root".to_owned();
    let mut properties = Properties::new();
    properties.insert("AB".to_owned(), vec!["dd".to_owned()]);

    let transactions = create_setup_transactions(
        &node_id,
        Vertex { column: 3, row: 3 },
        MarkupTool::SetupBlack,
        &properties,
    );

    assert_eq!(transactions.len(), 1);
    assert_eq!(
        transactions[0].transaction_type,
        GameTransactionType::SetNodeProperty
    );
    assert_eq!(transactions[0].property.as_deref(), Some("AB"));
    assert_eq!(transactions[0].values, vec!["dd".to_owned()]);
}

#[test]
fn setup_placement_writes_a_new_property_when_none_exists() {
    let transactions = create_setup_transactions(
        &"root".to_owned(),
        Vertex { column: 15, row: 3 },
        MarkupTool::SetupWhite,
        &Properties::new(),
    );

    assert_eq!(transactions.len(), 1);
    assert_eq!(transactions[0].property.as_deref(), Some("AW"));
    assert_eq!(transactions[0].values, vec!["pd".to_owned()]);
}

#[test]
fn setup_clear_removes_the_vertex_from_both_properties() {
    let mut properties = Properties::new();
    properties.insert("AB".to_owned(), vec!["dd".to_owned(), "pp".to_owned()]);
    properties.insert("AW".to_owned(), vec!["dd".to_owned()]);

    let transactions = create_setup_transactions(
        &"root".to_owned(),
        Vertex { column: 3, row: 3 },
        MarkupTool::SetupClear,
        &properties,
    );

    assert_eq!(transactions.len(), 2);
    let ab = transactions
        .iter()
        .find(|transaction| transaction.property.as_deref() == Some("AB"))
        .expect("an AB transaction exists");
    assert_eq!(ab.values, vec!["pp".to_owned()]);
    let aw = transactions
        .iter()
        .find(|transaction| transaction.property.as_deref() == Some("AW"))
        .expect("an AW transaction exists");
    assert!(aw.values.is_empty(), "emptied properties are removed");
}

#[test]
fn setup_clear_skips_absent_properties() {
    let transactions = create_setup_transactions(
        &"root".to_owned(),
        Vertex { column: 3, row: 3 },
        MarkupTool::SetupClear,
        &Properties::new(),
    );
    assert!(transactions.is_empty());
}

#[test]
fn non_setup_tools_build_no_setup_transactions() {
    let transactions = create_setup_transactions(
        &"root".to_owned(),
        Vertex { column: 3, row: 3 },
        MarkupTool::Triangle,
        &Properties::new(),
    );
    assert!(transactions.is_empty());
}

#[test]
fn scoring_override_cycles_through_states() {
    assert_eq!(next_scoring_override(None), 1);
    assert_eq!(next_scoring_override(Some(0)), 1);
    assert_eq!(next_scoring_override(Some(1)), -1);
    assert_eq!(next_scoring_override(Some(-1)), 0);
    assert_eq!(next_scoring_override(Some(5)), 1);

    let transaction = create_scoring_transaction(Vertex { column: 3, row: 3 }, 1);
    assert_eq!(
        transaction.transaction_type,
        GameTransactionType::ApplyScoringOverride
    );
    assert_eq!(transaction.score_override, Some(1));
}

#[test]
fn clearing_markup_resets_every_markup_property() {
    let transactions = create_clear_markup_transactions(&current_node_id());
    let properties: Vec<_> = transactions
        .iter()
        .map(|transaction| transaction.property.clone().unwrap())
        .collect();
    assert_eq!(properties, vec!["CR", "SQ", "TR", "MA", "LB", "LN", "AR"]);
    assert!(transactions.iter().all(|transaction| transaction.values.is_empty()));
}

#[test]
fn tool_properties_and_captions() {
    assert_eq!(MarkupTool::Play.label(), "Play move");
    assert_eq!(MarkupTool::SetupClear.label(), "Setup clear");
    assert_eq!(MarkupTool::SetupBlack.setup_property(), Some("AB"));
    assert_eq!(MarkupTool::SetupClear.setup_property(), Some("AE"));
    assert_eq!(MarkupTool::Arrow.line_property(), Some("AR"));
    assert!(MarkupTool::Line.is_line_tool());
    assert!(!MarkupTool::Circle.is_line_tool());
    assert!(MarkupTool::SetupWhite.is_setup_tool());
    assert!(!MarkupTool::Play.is_setup_tool());
}

#[test]
fn properties_keep_the_latest_values() {
    let mut properties = Properties::new();
    assert!(!properties.contains_key("AB"));
    properties.insert("AB".to_owned(), vec!["aa".to_owned()]);
    properties.insert("AW".to_owned(), vec!["bb".to_owned()]);
    properties.insert("AB".to_owned(), vec!["cc".to_owned(), "dd".to_owned()]);
    assert!(properties.contains_key("AB"));
    assert_eq!(properties.get("AB"), Some(&vec!["cc".to_owned(), "dd".to_owned()]));
    assert_eq!(properties.get("AW"), Some(&vec!["bb".to_owned()]));
    assert_eq!(properties.get("LN"), None);
}
