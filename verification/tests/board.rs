use ryusei_gpui::board::{column_letter, format_sgf_vertex, parse_sgf_vertex, star_point_vertices, Color, Vertex};

#[test]
fn column_letters_skip_i() {
    assert_eq!(column_letter(0), 'A');
    assert_eq!(column_letter(7), 'H');
    assert_eq!(column_letter(8), 'J');
    assert_eq!(column_letter(18), 'T');
}

#[test]
fn sgf_vertices_round_trip() {
    for vertex in [
        Vertex { column: 0, row: 0 },
        Vertex {
            column: 18,
            row: 18,
        },
    ] {
        let encoded = format_sgf_vertex(vertex);
        assert_eq!(parse_sgf_vertex(&encoded), Some(vertex));
    }
    assert_eq!(format_sgf_vertex(Vertex { column: 3, row: 3 }), "dd");
    assert_eq!(parse_sgf_vertex("dd"), Some(Vertex { column: 3, row: 3 }));
    assert_eq!(parse_sgf_vertex("DD"), None);
    assert_eq!(parse_sgf_vertex("d"), None);
    assert_eq!(parse_sgf_vertex("ddd"), None);
}

#[test]
fn sgf_points_cover_the_whole_alphabet() {
    assert_eq!(format_sgf_vertex(Vertex { column: 25, row: 0 }), "za");
    assert_eq!(parse_sgf_vertex("az"), Some(Vertex { column: 0, row: 25 }));
    assert_eq!(parse_sgf_vertex(""), None);
    assert_eq!(parse_sgf_vertex("d{"), None);
    assert_eq!(parse_sgf_vertex("dé"), None);
}

#[test]
fn star_points_follow_board_size() {
    assert!(star_point_vertices(7, 19).is_empty());
    assert_eq!(
        star_point_vertices(9, 9),
        vec![(3, 3), (3, 5), (5, 3), (5, 5)]
    );
    assert_eq!(
        star_point_vertices(19, 19),
        vec![
            (3, 3),
            (3, 9),
            (3, 15),
            (9, 3),
            (9, 9),
            (9, 15),
            (15, 3),
            (15, 9),
            (15, 15)
        ]
    );
    assert_eq!(star_point_vertices(13, 9).len(), 6);
}

#[test]
fn colors_alternate() {
    assert_eq!(Color::Black.opponent(), Color::White);
    assert_eq!(Color::White.opponent(), Color::Black);
}
