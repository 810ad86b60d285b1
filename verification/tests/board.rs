use std::collections::HashMap;

use dioxus_dnd::board::{
    apply_move, column_move, slot_move, try_apply_move, ApplyMoveError, Board, BoardPayload,
    MoveEvent,
};
use dioxus_dnd::types::ZoneId;

#[test]
fn move_between_columns() {
    let a = ZoneId(1);
    let b = ZoneId(2);
    let mut board: Board<&str> = HashMap::new();
    board.insert(a.0, vec!["x", "y"]);
    board.insert(b.0, vec!["z"]);

    // precise insert at index 0 of column b
    apply_move(&mut board, MoveEvent::new("y", (a, 1), (b, Some(0))));
    assert_eq!(board[&a.0], vec!["x"]);
    assert_eq!(board[&b.0], vec!["y", "z"]);

    // append (None index) into a brand-new column
    let c = ZoneId(3);
    apply_move(&mut board, MoveEvent::new("x", (a, 0), (c, None)));
    assert!(board[&a.0].is_empty());
    assert_eq!(board[&c.0], vec!["x"]);
}

#[test]
fn move_within_column_adjusts_forward_insert_after_removal() {
    let a = ZoneId(1);
    let mut board: Board<&str> = HashMap::new();
    board.insert(a.0, vec!["a", "b", "c", "d"]);

    apply_move(&mut board, MoveEvent::new("a", (a, 0), (a, Some(3))));

    assert_eq!(board[&a.0], vec!["b", "c", "a", "d"]);
}

#[test]
fn move_within_column_keeps_backward_insert_index() {
    let a = ZoneId(1);
    let mut board: Board<&str> = HashMap::new();
    board.insert(a.0, vec!["a", "b", "c", "d"]);

    apply_move(&mut board, MoveEvent::new("d", (a, 3), (a, Some(1))));

    assert_eq!(board[&a.0], vec!["a", "d", "b", "c"]);
}

#[test]
fn move_within_column_appends_after_removal() {
    let a = ZoneId(1);
    let mut board: Board<&str> = HashMap::new();
    board.insert(a.0, vec!["a", "b", "c"]);

    apply_move(&mut board, MoveEvent::new("a", (a, 0), (a, None)));

    assert_eq!(board[&a.0], vec!["b", "c", "a"]);
}

#[test]
fn index_move_removes_whatever_sits_at_the_stale_index() {
    let a = ZoneId(1);
    let b = ZoneId(2);
    let mut board: Board<&str> = HashMap::new();
    // "x" was picked up at index 0, then the column reordered.
    board.insert(a.0, vec!["y", "x"]);
    board.insert(b.0, vec![]);

    apply_move(&mut board, MoveEvent::new("x", (a, 0), (b, None)));

    assert_eq!(board[&a.0], vec!["x"], "the wrong card was removed");
    assert_eq!(board[&b.0], vec!["x"], "and the moved one now exists twice");
}

#[test]
fn keyed_move_finds_the_item_after_source_drift() {
    let a = ZoneId(1);
    let b = ZoneId(2);
    let mut board: Board<&str> = HashMap::new();
    board.insert(a.0, vec!["y", "x"]);
    board.insert(b.0, vec!["z"]);

    assert_eq!(
        try_apply_move(&mut board, MoveEvent::new("x", (a, 0), (b, Some(0))), |s| {
            *s
        }),
        Ok(())
    );
    assert_eq!(board[&a.0], vec!["y"]);
    assert_eq!(board[&b.0], vec!["x", "z"]);
}

#[test]
fn keyed_move_adjusts_forward_inserts_from_the_found_index() {
    let a = ZoneId(1);
    let mut board: Board<&str> = HashMap::new();
    // The event says index 0; the item actually sits at index 1 now.
    board.insert(a.0, vec!["b", "a", "c", "d"]);

    assert_eq!(
        try_apply_move(&mut board, MoveEvent::new("a", (a, 0), (a, Some(3))), |s| {
            *s
        }),
        Ok(())
    );
    assert_eq!(board[&a.0], vec!["b", "c", "a", "d"]);

    // Backward moves keep the target as-is, like `apply_move`.
    assert_eq!(
        try_apply_move(&mut board, MoveEvent::new("d", (a, 9), (a, Some(0))), |s| {
            *s
        }),
        Ok(())
    );
    assert_eq!(board[&a.0], vec!["d", "b", "c", "a"]);
}

#[test]
fn keyed_move_refuses_a_stale_drop_without_mutating() {
    let a = ZoneId(1);
    let b = ZoneId(2);
    let c = ZoneId(3);
    let mut board: Board<&str> = HashMap::new();
    board.insert(a.0, vec!["x"]);
    let before = board.clone();

    // Item gone from the source column.
    assert_eq!(
        try_apply_move(&mut board, MoveEvent::new("q", (a, 0), (b, None)), |s| *s),
        Err(ApplyMoveError::SourceNotFound { column: a })
    );
    // Source column gone entirely.
    assert_eq!(
        try_apply_move(&mut board, MoveEvent::new("x", (c, 0), (b, None)), |s| *s),
        Err(ApplyMoveError::SourceNotFound { column: c })
    );
    assert_eq!(board, before, "a refused move leaves the board untouched");
    assert!(!board.contains_key(&b.0), "and creates no target column");

    assert_eq!(
        ApplyMoveError::SourceNotFound { column: a }.message(),
        "no item matched the move in column 1"
    );
}

#[test]
fn keyed_move_lands_before_the_slot_occupant() {
    let a = ZoneId(1);
    let b = ZoneId(2);
    let mut board: Board<u32> = HashMap::new();
    board.insert(a.0, vec![10, 11, 12, 13, 14]);
    board.insert(b.0, vec![20, 21, 22]);

    // Same column, forward: 11 aimed at the slot of 13 lands right before 13.
    assert_eq!(
        try_apply_move(&mut board, MoveEvent::new(11, (a, 1), (a, Some(3))), |n| *n),
        Ok(())
    );
    assert_eq!(board[&a.0], vec![10, 12, 11, 13, 14]);

    // Cross column: 14 aimed at the slot of 21 lands right before 21.
    assert_eq!(
        try_apply_move(&mut board, MoveEvent::new(14, (a, 4), (b, Some(1))), |n| *n),
        Ok(())
    );
    assert_eq!(board[&a.0], vec![10, 12, 11, 13]);
    assert_eq!(board[&b.0], vec![20, 14, 21, 22]);

    // An index past the end appends.
    apply_move(&mut board, MoveEvent::new(20, (b, 0), (a, Some(99))));
    assert_eq!(board[&a.0], vec![10, 12, 11, 13, 20]);
    assert_eq!(board[&b.0], vec![14, 21, 22]);
}

#[test]
fn error_messages_render_large_column_numbers() {
    assert_eq!(
        ApplyMoveError::SourceNotFound {
            column: ZoneId(4294967306)
        }
        .message(),
        "no item matched the move in column 4294967306"
    );
    assert_eq!(
        ApplyMoveError::SourceNotFound { column: ZoneId(0) }.message(),
        "no item matched the move in column 0"
    );
}

#[test]
fn board_drops_report_moves_from_the_pickup_place() {
    let payload = BoardPayload {
        item: "card",
        from: ZoneId(1),
        index: 2,
    };
    assert_eq!(
        column_move(payload.clone(), ZoneId(5)),
        MoveEvent::new("card", (ZoneId(1), 2), (ZoneId(5), None))
    );
    assert_eq!(
        slot_move(payload.clone(), ZoneId(5), 0, true),
        Some(MoveEvent::new("card", (ZoneId(1), 2), (ZoneId(5), Some(0))))
    );
    // A slot honors its column's filter (a WIP limit).
    assert_eq!(slot_move(payload, ZoneId(5), 0, false), None);
}
