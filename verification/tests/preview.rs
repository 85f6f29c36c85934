use ryusei_gpui::board::{Color, Vertex};
use ryusei_gpui::preview::{parse_gtp_vertex, pv_preview_points};

#[test]
fn pv_preview_points_are_numbered_and_alternate_colors() {
    let pv = vec![
        "D4".to_owned(),
        "Q16".to_owned(),
        "pass".to_owned(),
        "J10".to_owned(),
    ];
    let points = pv_preview_points(19, Color::Black, &pv, 8);
    assert_eq!(points.len(), 3);
    assert_eq!(points[0].0, Vertex { column: 3, row: 15 });
    assert_eq!(points[0].1, Color::Black);
    assert_eq!(points[0].2, 1);
    assert_eq!(points[1].1, Color::White);
    assert_eq!(points[1].2, 2);
    assert_eq!(points[2].1, Color::Black);
    assert_eq!(points[2].2, 3);
}

#[test]
fn gtp_vertices_skip_the_letter_i_and_count_rows_from_the_bottom() {
    assert_eq!(parse_gtp_vertex(19, "A1"), Some((0, 18)));
    assert_eq!(parse_gtp_vertex(19, "H19"), Some((7, 0)));
    assert_eq!(parse_gtp_vertex(19, "J10"), Some((8, 9)));
    assert_eq!(parse_gtp_vertex(19, "t19"), Some((18, 0)));
    assert_eq!(parse_gtp_vertex(19, "Q16"), Some((15, 3)));
}

#[test]
fn gtp_non_vertices_are_rejected() {
    assert_eq!(parse_gtp_vertex(19, "pass"), None);
    assert_eq!(parse_gtp_vertex(19, "I5"), None);
    assert_eq!(parse_gtp_vertex(19, "A0"), None);
    assert_eq!(parse_gtp_vertex(19, "A20"), None);
    assert_eq!(parse_gtp_vertex(9, "K5"), None);
    assert_eq!(parse_gtp_vertex(19, "D"), None);
    assert_eq!(parse_gtp_vertex(19, "D4x"), None);
    assert_eq!(parse_gtp_vertex(19, "D99999999999999999999999"), None);
}

#[test]
fn preview_reads_only_the_first_limit_moves() {
    let pv = vec!["D4".to_owned(), "Q16".to_owned(), "C3".to_owned()];
    let points = pv_preview_points(19, Color::White, &pv, 2);
    assert_eq!(
        points,
        vec![
            (Vertex { column: 3, row: 15 }, Color::White, 1),
            (Vertex { column: 15, row: 3 }, Color::Black, 2),
        ]
    );
    assert!(pv_preview_points(19, Color::Black, &pv, 0).is_empty());
}
