use ryusei_gpui::ownership::{ownership_distance_field, point_influences, BoardSnapshot, PointInfluence};

fn test_board(width: usize, height: usize) -> BoardSnapshot {
    BoardSnapshot {
        width,
        height,
        sign_map: vec![vec![0; width]; height],
    }
}

#[test]
fn estimate_ownership_marks_black_and_white_influence() {
    let mut board = test_board(19, 19);
    // A single black stone influences nearby empty points toward black.
    board.sign_map[9][9] = 1;
    let influences = point_influences(&board).expect("non-empty board");
    assert_eq!(influences.len(), 19 * 19);
    let idx = |column: usize, row: usize| row * 19 + column;
    assert_eq!(influences[idx(9, 9)], PointInfluence::BlackStone);
    assert_eq!(
        influences[idx(9, 8)],
        PointInfluence::Distances {
            black: 1,
            white: usize::MAX
        }
    );

    // A single white stone flips the same empty point toward white.
    board.sign_map[9][9] = -1;
    let influences = point_influences(&board).expect("non-empty board");
    assert_eq!(influences[idx(9, 9)], PointInfluence::WhiteStone);
    assert_eq!(
        influences[idx(9, 8)],
        PointInfluence::Distances {
            black: usize::MAX,
            white: 1
        }
    );

    // An empty board is neutral everywhere.
    let empty = test_board(19, 19);
    let influences = point_influences(&empty).expect("non-empty board");
    assert!(influences.iter().all(|point| *point == PointInfluence::Unreached));
}

#[test]
fn boards_without_intersections_have_no_estimate() {
    assert!(point_influences(&test_board(0, 5)).is_none());
    assert!(point_influences(&test_board(5, 0)).is_none());
}

#[test]
fn distance_field_counts_orthogonal_steps_to_the_nearest_stone() {
    let mut board = test_board(5, 3);
    board.sign_map[0][0] = 1;
    board.sign_map[2][4] = 1;
    board.sign_map[1][2] = -1;
    let black = ownership_distance_field(&board, 1);
    assert_eq!(
        black,
        vec![
            0, 1, 2, 3, 2, //
            1, 2, 3, 2, 1, //
            2, 3, 2, 1, 0,
        ]
    );
    let white = ownership_distance_field(&board, -1);
    assert_eq!(
        white,
        vec![
            3, 2, 1, 2, 3, //
            2, 1, 0, 1, 2, //
            3, 2, 1, 2, 3,
        ]
    );
}

#[test]
fn distance_field_without_stones_is_unassigned() {
    let board = test_board(4, 2);
    assert_eq!(ownership_distance_field(&board, 1), vec![usize::MAX; 8]);
}

#[test]
fn contested_points_report_both_distances() {
    let mut board = test_board(3, 1);
    board.sign_map[0][0] = 1;
    board.sign_map[0][2] = -1;
    let influences = point_influences(&board).expect("non-empty board");
    assert_eq!(
        influences,
        vec![
            PointInfluence::BlackStone,
            PointInfluence::Distances { black: 1, white: 1 },
            PointInfluence::WhiteStone,
        ]
    );
}
