use ryusei_gpui::properties::Properties;
use ryusei_gpui::tab_title::{tab_title_from, workspace_tab_title};

fn with_game_name(name: &str) -> Properties {
    let mut properties = Properties::new();
    properties.insert("GN".to_owned(), vec![name.to_owned()]);
    properties
}

#[test]
fn saved_games_are_titled_by_their_file_name() {
    let properties = with_game_name("Final round");
    assert_eq!(
        workspace_tab_title(Some("/games/2024/match.sgf"), &properties),
        "match.sgf"
    );
}

#[test]
fn unsaved_games_fall_back_to_the_game_name() {
    assert_eq!(
        workspace_tab_title(None, &with_game_name("Final round")),
        "Final round"
    );
    assert_eq!(workspace_tab_title(Some("/"), &with_game_name("Kifu")), "Kifu");
}

#[test]
fn blank_or_missing_game_names_are_untitled() {
    assert_eq!(workspace_tab_title(None, &with_game_name("  \t ")), "Untitled Game");
    assert_eq!(workspace_tab_title(None, &Properties::new()), "Untitled Game");
    let mut empty_values = Properties::new();
    empty_values.insert("GN".to_owned(), Vec::new());
    assert_eq!(workspace_tab_title(None, &empty_values), "Untitled Game");
}

#[test]
fn a_taken_file_name_wins_over_the_game_name() {
    assert_eq!(
        tab_title_from(Some("opening.sgf".to_owned()), &with_game_name("Kifu")),
        "opening.sgf"
    );
    assert_eq!(tab_title_from(None, &with_game_name("Kifu")), "Kifu");
}

#[test]
fn unicode_white_space_counts_as_blank() {
    assert_eq!(
        workspace_tab_title(None, &with_game_name("\u{3000}\u{a0}\u{2009}")),
        "Untitled Game"
    );
    assert_eq!(workspace_tab_title(None, &with_game_name("\u{200b}")), "\u{200b}");
}

#[test]
fn paths_ending_in_a_parent_component_have_no_file_name() {
    assert_eq!(workspace_tab_title(Some("games/.."), &with_game_name("Kifu")), "Kifu");
}

#[test]
fn a_bare_file_name_is_its_own_title() {
    assert_eq!(workspace_tab_title(Some("match.sgf"), &with_game_name("Kifu")), "match.sgf");
}

#[test]
fn the_last_path_component_is_the_title() {
    let properties = with_game_name("Kifu");
    for (path, title) in [
        ("/games/2024/match.sgf", "match.sgf"),
        ("games/match.sgf/", "match.sgf"),
        ("games//match.sgf", "match.sgf"),
        ("games/2024/.", "2024"),
        ("./games/./final.sgf", "final.sgf"),
        ("...", "..."),
        ("games/../kifu.sgf", "kifu.sgf"),
    ] {
        assert_eq!(workspace_tab_title(Some(path), &properties), title, "{path}");
    }
}

#[test]
fn paths_without_a_final_name_fall_back() {
    let properties = with_game_name("Kifu");
    for path in ["", "/", ".", "./", "games/..", "games/../", "/.."] {
        assert_eq!(workspace_tab_title(Some(path), &properties), "Kifu", "{path}");
    }
}
