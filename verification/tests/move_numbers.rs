use ryusei_gpui::board::{Color, MoveDto, Vertex};
use ryusei_gpui::move_numbers::{
    move_numbers_for_snapshot, move_numbers_from_moves, GameSnapshot, NodeSnapshot,
};
use ryusei_gpui::properties::Properties;

fn node(id: &str, parent: Option<&str>, children: &[&str], props: &[(&str, &[&str])]) -> NodeSnapshot {
    let mut properties = Properties::new();
    for (key, values) in props {
        properties.insert(
            (*key).to_owned(),
            values.iter().map(|value| (*value).to_owned()).collect(),
        );
    }
    NodeSnapshot {
        id: id.to_owned(),
        parent_id: parent.map(ToOwned::to_owned),
        child_ids: children.iter().map(|child| (*child).to_owned()).collect(),
        properties,
    }
}

/// `(;GM[1]FF[4]SZ[9];B[dd];W[ee]HO[];B[ff])` with the last node current.
fn hotspot_game() -> GameSnapshot {
    GameSnapshot {
        nodes: vec![
            node("root", None, &["n1"], &[("SZ", &["9"])]),
            node("n1", Some("root"), &["n2"], &[("B", &["dd"])]),
            node("n2", Some("n1"), &["n3"], &[("W", &["ee"]), ("HO", &[""])]),
            node("n3", Some("n2"), &[], &[("B", &["ff"])]),
        ],
        current_node_id: "n3".to_owned(),
    }
}

#[test]
fn move_numbers_are_one_based_and_skip_passes() {
    let moves = vec![
        MoveDto {
            color: Color::Black,
            vertex: Some(Vertex { column: 3, row: 3 }),
        },
        MoveDto {
            color: Color::White,
            vertex: None,
        },
        MoveDto {
            color: Color::Black,
            vertex: Some(Vertex { column: 15, row: 3 }),
        },
    ];
    let numbers = move_numbers_from_moves(&moves);
    assert_eq!(numbers.get(&Vertex { column: 3, row: 3 }), Some(&1));
    assert_eq!(numbers.get(&Vertex { column: 15, row: 3 }), Some(&3));
    assert_eq!(numbers.len(), 2);
}

#[test]
fn move_numbers_follow_the_selected_start_or_hotspot_anchor() {
    let snapshot = hotspot_game();

    let from_start = move_numbers_for_snapshot(&snapshot, "start");
    assert_eq!(from_start.get(&Vertex { column: 3, row: 3 }), Some(&1));
    assert_eq!(from_start.get(&Vertex { column: 4, row: 4 }), Some(&2));
    assert_eq!(from_start.get(&Vertex { column: 5, row: 5 }), Some(&3));

    let from_hotspot = move_numbers_for_snapshot(&snapshot, "hotspot");
    assert_eq!(from_hotspot.len(), 1);
    assert_eq!(from_hotspot.get(&Vertex { column: 5, row: 5 }), Some(&1));
}

#[test]
fn last_n_modes_number_only_recent_moves() {
    let snapshot = hotspot_game();
    let last_one = move_numbers_for_snapshot(&snapshot, "last_1");
    assert_eq!(last_one.len(), 1);
    assert_eq!(last_one.get(&Vertex { column: 5, row: 5 }), Some(&1));
    let last_twenty = move_numbers_for_snapshot(&snapshot, "last_20");
    assert_eq!(last_twenty.len(), 3);
}

#[test]
fn variation_mode_is_empty_on_the_main_line_and_starts_after_the_branch() {
    let main_line = hotspot_game();
    assert_eq!(move_numbers_for_snapshot(&main_line, "variation").len(), 0);

    let branched = GameSnapshot {
        nodes: vec![
            node("root", None, &["a", "b"], &[]),
            node("a", Some("root"), &[], &[("B", &["dd"])]),
            node("b", Some("root"), &["c"], &[("B", &["pp"])]),
            node("c", Some("b"), &[], &[("W", &["qq"])]),
        ],
        current_node_id: "c".to_owned(),
    };
    let numbers = move_numbers_for_snapshot(&branched, "variation");
    assert_eq!(numbers.len(), 2);
    assert_eq!(numbers.get(&Vertex { column: 15, row: 15 }), Some(&1));
    assert_eq!(numbers.get(&Vertex { column: 16, row: 16 }), Some(&2));
    assert_eq!(move_numbers_for_snapshot(&branched, "hotspot").len(), 0);
}

#[test]
fn a_vertex_played_twice_keeps_its_latest_number() {
    let snapshot = GameSnapshot {
        nodes: vec![
            node("root", None, &["1"], &[]),
            node("1", Some("root"), &["2"], &[("B", &["aa"])]),
            node("2", Some("1"), &["3"], &[("W", &["bb"])]),
            node("3", Some("2"), &[], &[("B", &["aa"])]),
        ],
        current_node_id: "3".to_owned(),
    };
    let numbers = move_numbers_for_snapshot(&snapshot, "start");
    assert_eq!(numbers.len(), 2);
    assert_eq!(numbers.get(&Vertex { column: 0, row: 0 }), Some(&3));
    assert_eq!(numbers.get(&Vertex { column: 1, row: 1 }), Some(&2));
}

#[test]
fn unknown_current_node_has_no_numbers() {
    let mut snapshot = hotspot_game();
    snapshot.current_node_id = "missing".to_owned();
    assert_eq!(move_numbers_for_snapshot(&snapshot, "start").len(), 0);
}

#[test]
fn numbered_vertices_are_listed_in_vertex_order() {
    let mut numbers = ryusei_gpui::move_numbers::VertexNumbers::new();
    numbers.insert(Vertex { column: 3, row: 3 }, 1);
    numbers.insert(Vertex { column: 0, row: 5 }, 2);
    numbers.insert(Vertex { column: 0, row: 2 }, 3);
    numbers.insert(Vertex { column: 3, row: 3 }, 4);
    assert_eq!(
        numbers.pairs(),
        &vec![
            (Vertex { column: 0, row: 2 }, 3),
            (Vertex { column: 0, row: 5 }, 2),
            (Vertex { column: 3, row: 3 }, 4),
        ]
    );
    assert_eq!(numbers.len(), 3);
}
