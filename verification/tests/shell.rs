use ryusei_gpui::icons::{lookup, EmbeddedIcons, ShellIcon};
use ryusei_gpui::layout::{right_pane_visible, SplitPane};
use ryusei_gpui::shell::{
    close_decision, engine_sidebar_panel_for, handle_text_input_key, toggle_pinned_plugin,
    BatchReviewState, BottomDeck, BottomDeckTab, CloseChoice, DeckEffect, EngineConfigPanel,
};
use ryusei_gpui::text_input::{InputKeyResult, NativeTextInput};

#[test]
fn right_pane_visibility_matches_upstream_inference() {
    assert!(!right_pane_visible(false, false));
    assert!(right_pane_visible(true, false));
    assert!(right_pane_visible(false, true));
    assert!(right_pane_visible(true, true));
}

#[test]
fn split_panes_have_stable_selectors_and_drag_directions() {
    assert_eq!(SplitPane::Left.debug_selector(), "left-splitter");
    assert_eq!(SplitPane::Properties.debug_selector(), "properties-splitter");
    assert_eq!(SplitPane::Left.drag_direction(), 1);
    assert_eq!(SplitPane::WinrateGraph.drag_direction(), 1);
    assert_eq!(SplitPane::Right.drag_direction(), -1);
    assert_eq!(SplitPane::Properties.drag_direction(), -1);
}

#[test]
fn a_successful_save_or_explicit_discard_allows_the_close() {
    assert!(close_decision(CloseChoice::Save, true));
    assert!(close_decision(CloseChoice::Discard, false));
}

#[test]
fn a_cancelled_or_failed_save_keeps_the_window_open() {
    assert!(!close_decision(CloseChoice::Cancel, false));
    assert!(!close_decision(CloseChoice::Save, false));
    assert!(!close_decision(CloseChoice::Cancel, true));
}

#[test]
fn advances_in_order_and_stops_at_last_node() {
    let mut state = BatchReviewState::new(
        "root".to_owned(),
        vec!["b1".to_owned(), "w1".to_owned(), "b2".to_owned()],
    )
    .expect("non-empty review plan");
    assert_eq!(state.original_node_id(), "root");
    assert_eq!(state.current_node_id(), Some(&"b1".to_owned()));
    assert_eq!(state.advance(), Some(&"w1".to_owned()));
    assert_eq!(state.advance(), Some(&"b2".to_owned()));
    assert_eq!(state.advance(), None);
    assert_eq!(state.current_node_id(), Some(&"b2".to_owned()));
}

#[test]
fn empty_review_plan_is_rejected() {
    assert!(BatchReviewState::new("root".to_owned(), Vec::new()).is_none());
}

#[test]
fn deck_tabs_open_switch_and_toggle_closed() {
    let mut deck = BottomDeck::default();
    assert!(!deck.is_bottom_deck_open());
    assert_eq!(deck.active_bottom_tab(), BottomDeckTab::WinrateGraph);

    assert_eq!(deck.toggle_bottom_deck_tab(BottomDeckTab::VariationTree), DeckEffect::Nothing);
    assert!(deck.is_bottom_deck_open());
    assert_eq!(deck.active_bottom_tab(), BottomDeckTab::VariationTree);

    assert_eq!(deck.switch_bottom_tab(BottomDeckTab::GtpTerminal), DeckEffect::FocusGtpInput);
    assert_eq!(deck.active_bottom_tab(), BottomDeckTab::GtpTerminal);

    assert_eq!(deck.toggle_bottom_deck_tab(BottomDeckTab::GtpTerminal), DeckEffect::Nothing);
    assert!(!deck.is_bottom_deck_open());

    deck.switch_bottom_tab(BottomDeckTab::Generic("org.example.plugin".to_owned()));
    assert_eq!(
        deck.active_bottom_tab(),
        BottomDeckTab::Generic("org.example.plugin".to_owned())
    );
    deck.close_bottom_deck();
    assert!(!deck.is_bottom_deck_open());
}

#[test]
fn engine_tabs_route_to_the_left_sidebar() {
    let mut deck = BottomDeck::default();
    assert_eq!(
        deck.switch_bottom_tab(BottomDeckTab::KataGo),
        DeckEffect::OpenEngineConfigPanel(EngineConfigPanel::KataGo)
    );
    assert!(!deck.is_bottom_deck_open());
    assert_eq!(
        engine_sidebar_panel_for("org.ryusei.fox-kifu-sync"),
        Some(EngineConfigPanel::FoxSync)
    );
    assert_eq!(engine_sidebar_panel_for("winrate-graph"), None);
    assert_eq!(
        deck.toggle_plugin_popover("engines"),
        DeckEffect::ToggleEngineConfigPanel(EngineConfigPanel::Engines)
    );
    deck.active_plugin_popover = Some("org.ryusei.position-to-sgf".to_owned());
    assert_eq!(deck.active_bottom_tab(), BottomDeckTab::WinrateGraph);
}

#[test]
fn plugin_popovers_toggle_and_close_the_console() {
    let mut deck = BottomDeck::default();
    deck.switch_bottom_tab(BottomDeckTab::GtpTerminal);
    assert_eq!(deck.toggle_plugin_popover("all"), DeckEffect::Nothing);
    assert!(!deck.gtp_terminal_open);
    assert_eq!(deck.active_bottom_tab(), BottomDeckTab::PluginManager);
    deck.toggle_plugin_popover("all");
    assert!(!deck.is_bottom_deck_open());
}

#[test]
fn pinned_plugins_can_be_queried_and_toggled() {
    let pinned = toggle_pinned_plugin(&Vec::new(), "org.ryusei.fox-kifu-sync");
    assert_eq!(pinned, vec!["org.ryusei.fox-kifu-sync".to_owned()]);
    let pinned = toggle_pinned_plugin(&pinned, "org.example.other");
    assert_eq!(pinned.len(), 2);
    let pinned = toggle_pinned_plugin(&pinned, "org.ryusei.fox-kifu-sync");
    assert_eq!(pinned, vec!["org.example.other".to_owned()]);
}

#[test]
fn shortcut_keys_select_undo_and_redo() {
    let mut input = NativeTextInput::new("ab");
    assert_eq!(
        handle_text_input_key(&mut input, "a", true, false, true),
        InputKeyResult::Changed
    );
    assert_eq!(input.utf16_selection(), 0..2);
    assert!(input.insert_text("x"));
    assert_eq!(
        handle_text_input_key(&mut input, "z", true, false, true),
        InputKeyResult::Changed
    );
    assert_eq!(input.text(), "ab");
    assert_eq!(
        handle_text_input_key(&mut input, "z", true, true, true),
        InputKeyResult::Changed
    );
    assert_eq!(input.text(), "x");
    assert_eq!(
        handle_text_input_key(&mut input, "z", true, true, true),
        InputKeyResult::Ignored
    );
    // Printable keys arrive through the platform bridge, not here.
    assert_eq!(
        handle_text_input_key(&mut input, "q", false, false, true),
        InputKeyResult::Ignored
    );
    assert_eq!(input.text(), "x");
    assert_eq!(
        handle_text_input_key(&mut input, "backspace", false, false, false),
        InputKeyResult::Changed
    );
    assert_eq!(input.text(), "");
}

#[test]
fn every_lookup_entry_is_a_well_formed_svg_document() {
    for path in [
        "icons/book-open.svg",
        "icons/settings.svg",
        "icons/play.svg",
        "icons/panel-left.svg",
        "icons/cpu.svg",
        "icons/trending-up.svg",
    ] {
        let svg = lookup(path).expect("icon must exist");
        assert!(svg.starts_with("<svg"), "{path} must open an svg tag");
        assert!(svg.trim_end().ends_with("</svg>"), "{path} must close");
        assert!(svg.contains("stroke=\"currentColor\""));
    }
}

#[test]
fn asset_source_serves_embedded_icons() {
    let bytes = EmbeddedIcons
        .load("icons/git-branch.svg")
        .expect("git-branch must load");
    assert!(bytes.starts_with(b"<svg"));
    assert!(EmbeddedIcons.load("icons/missing.svg").is_none());
    assert!(!EmbeddedIcons.list("icons").is_empty());
    assert_eq!(EmbeddedIcons.list("icons/").len(), 46);
    assert!(EmbeddedIcons.list("fonts").is_empty());
}

#[test]
fn every_icon_path_serves_its_own_document() {
    assert_eq!(ShellIcon::Menu.path(), "icons/menu.svg");
    for path in EmbeddedIcons.list("icons") {
        let svg = lookup(path).expect("listed icons load");
        assert!(svg.starts_with("<svg") && svg.ends_with("</svg>"));
    }
    assert_eq!(lookup(ShellIcon::Pin.path()), Some(ShellIcon::Pin.svg()));
}
