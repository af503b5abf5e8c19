use rustmate::piece::{Color, Piece, PieceError, PieceKind};

#[test]
fn test_king_can_capture() {
    let king = Piece {
        color: Color::White,
        kind: PieceKind::King,
        position: (0, 0),
    };
    assert!(king.capture_piece_at((0, 1)));
    assert!(king.capture_piece_at((1, 1)));
    assert!(king.capture_piece_at((1, 0)));
    assert!(!king.capture_piece_at((3, 3)));
}

#[test]
fn test_rook_can_capture() {
    let rook = Piece {
        color: Color::White,
        kind: PieceKind::Rook,
        position: (0, 0),
    };
    assert!(rook.capture_piece_at((0, 7)));
    assert!(rook.capture_piece_at((5, 0)));
    assert!(!rook.capture_piece_at((3, 3)));
}

#[test]
fn test_knight_can_capture() {
    let knight = Piece {
        color: Color::White,
        kind: PieceKind::Knight,
        position: (3, 2),
    };
    assert!(knight.capture_piece_at((4, 4)));
    assert!(knight.capture_piece_at((5, 1)));
    assert!(knight.capture_piece_at((5, 3)));
    assert!(!knight.capture_piece_at((1, 2)));
}

#[test]
fn test_bishop_can_capture() {
    let bishop = Piece {
        color: Color::White,
        kind: PieceKind::Bishop,
        position: (2, 2),
    };
    assert!(bishop.capture_piece_at((5, 5)));
    assert!(bishop.capture_piece_at((0, 4)));
    assert!(bishop.capture_piece_at((0, 0)));
    assert!(!bishop.capture_piece_at((0, 2)));
}

#[test]
fn test_queen_can_capture() {
    let queen = Piece {
        color: Color::White,
        kind: PieceKind::Queen,
        position: (2, 2),
    };
    assert!(queen.capture_piece_at((4, 4)));
    assert!(queen.capture_piece_at((4, 2)));
    assert!(queen.capture_piece_at((4, 0)));
    assert!(queen.capture_piece_at((2, 0)));
    assert!(queen.capture_piece_at((2, 4)));
    assert!(queen.capture_piece_at((0, 0)));
    assert!(queen.capture_piece_at((0, 2)));
    assert!(queen.capture_piece_at((0, 4)));
    assert!(!queen.capture_piece_at((7, 6)));
}

#[test]
fn test_pawn_can_capture() {
    let white_pawn = Piece {
        color: Color::White,
        kind: PieceKind::Pawn,
        position: (2, 1),
    };
    assert!(white_pawn.capture_piece_at((1, 2)));
    assert!(white_pawn.capture_piece_at((3, 2)));
    assert!(!white_pawn.capture_piece_at((2, 2)));

    let black_pawn = Piece {
        color: Color::Black,
        kind: PieceKind::Pawn,
        position: (2, 6),
    };
    assert!(black_pawn.capture_piece_at((1, 5)));
    assert!(black_pawn.capture_piece_at((3, 5)));
    assert!(!black_pawn.capture_piece_at((2, 5)));
}

#[test]
fn test_invalid_character_for_piece() {
    let result = Piece::from_char('X', (0, 0));
    assert_eq!(result, Err(PieceError::InvalidPieceKind('X')));
    assert_eq!(
        result.unwrap_err().to_string(),
        "Invalid piece kind character: X"
    )
}

#[test]
fn test_piece_from_char_underscore() {
    let piece = Piece::from_char('_', (0, 0)).unwrap();
    assert_eq!(piece, None);
}

#[test]
fn test_valid_character_for_piece() {
    let result = Piece::from_char('R', (0, 0));
    assert!(result.is_ok());
    assert_eq!(result.unwrap().unwrap().kind, PieceKind::King);

    let result = Piece::from_char('D', (0, 0));
    assert!(result.is_ok());
    assert_eq!(result.unwrap().unwrap().kind, PieceKind::Queen);

    let result = Piece::from_char('a', (0, 0));
    assert!(result.is_ok());
    assert_eq!(result.unwrap().unwrap().kind, PieceKind::Bishop);

    let result = Piece::from_char('C', (0, 0));
    assert!(result.is_ok());
    assert_eq!(result.unwrap().unwrap().kind, PieceKind::Knight);

    let result = Piece::from_char('t', (0, 0));
    assert!(result.is_ok());
    assert_eq!(result.unwrap().unwrap().kind, PieceKind::Rook);

    let result = Piece::from_char('P', (0, 0));
    assert!(result.is_ok());
    assert_eq!(result.unwrap().unwrap().kind, PieceKind::Pawn);
}

#[test]
fn test_from_char_small_letter_is_white_capital_is_black() {
    for (small, capital, kind) in [
        ('r', 'R', PieceKind::King),
        ('d', 'D', PieceKind::Queen),
        ('a', 'A', PieceKind::Bishop),
        ('c', 'C', PieceKind::Knight),
        ('t', 'T', PieceKind::Rook),
        ('p', 'P', PieceKind::Pawn),
    ] {
        assert_eq!(
            Piece::from_char(small, (4, 7)),
            Ok(Some(Piece {
                color: Color::White,
                kind,
                position: (4, 7),
            }))
        );
        assert_eq!(
            Piece::from_char(capital, (4, 7)),
            Ok(Some(Piece {
                color: Color::Black,
                kind,
                position: (4, 7),
            }))
        );
    }
}

#[test]
fn test_from_char_rejects_other_characters() {
    for c in ['x', 'W', '1', ' ', '-', 'ß', 'é', 'Р', '\u{1F600}'] {
        assert_eq!(
            Piece::from_char(c, (0, 0)),
            Err(PieceError::InvalidPieceKind(c))
        );
    }
}

#[test]
fn test_piece_error_message_carries_the_character() {
    assert_eq!(
        PieceError::InvalidPieceKind('é').to_string(),
        "Invalid piece kind character: é"
    );
}

#[test]
fn test_piece_getters() {
    let piece = Piece {
        color: Color::Black,
        kind: PieceKind::Knight,
        position: (6, 1),
    };
    assert_eq!(piece.color(), Color::Black);
    assert_eq!(piece.get_position(), (6, 1));
}

#[test]
fn test_pieces_equal_only_when_all_fields_agree() {
    let piece = Piece {
        color: Color::White,
        kind: PieceKind::Rook,
        position: (1, 2),
    };
    assert_eq!(piece, piece.clone());
    assert_ne!(
        piece,
        Piece {
            color: Color::Black,
            ..piece
        }
    );
    assert_ne!(
        piece,
        Piece {
            kind: PieceKind::Queen,
            ..piece
        }
    );
    assert_ne!(
        piece,
        Piece {
            position: (1, 3),
            ..piece
        }
    );
    assert_ne!(
        piece,
        Piece {
            position: (2, 2),
            ..piece
        }
    );
}

#[test]
fn test_can_capture_agrees_with_capture_piece_at() {
    let kinds = [
        PieceKind::Rook,
        PieceKind::Knight,
        PieceKind::King,
        PieceKind::Bishop,
        PieceKind::Queen,
        PieceKind::Pawn,
    ];
    for kind in kinds {
        for color in [Color::White, Color::Black] {
            let piece = Piece {
                color,
                kind,
                position: (3, 4),
            };
            for x in 0..8 {
                for y in 0..8 {
                    assert_eq!(piece.can_capture((x, y)), piece.capture_piece_at((x, y)));
                }
            }
        }
    }
}

#[test]
fn test_rook_captures_exactly_on_file_or_rank() {
    for px in 0..8usize {
        for py in 0..8usize {
            let rook = Piece {
                color: Color::Black,
                kind: PieceKind::Rook,
                position: (px, py),
            };
            for x in 0..8usize {
                for y in 0..8usize {
                    assert_eq!(rook.can_capture((x, y)), px == x || py == y);
                }
            }
        }
    }
}

#[test]
fn test_bishop_captures_exactly_on_diagonals() {
    for px in 0..8usize {
        for py in 0..8usize {
            let bishop = Piece {
                color: Color::White,
                kind: PieceKind::Bishop,
                position: (px, py),
            };
            for x in 0..8usize {
                for y in 0..8usize {
                    assert_eq!(
                        bishop.can_capture((x, y)),
                        px.abs_diff(x) == py.abs_diff(y)
                    );
                }
            }
        }
    }
    let bishop = Piece {
        color: Color::White,
        kind: PieceKind::Bishop,
        position: (4, 4),
    };
    assert!(bishop.can_capture((4, 4)));
}

#[test]
fn test_queen_is_rook_or_bishop() {
    for px in 0..8usize {
        for py in 0..8usize {
            let at = |kind| Piece {
                color: Color::White,
                kind,
                position: (px, py),
            };
            for x in 0..8usize {
                for y in 0..8usize {
                    assert_eq!(
                        at(PieceKind::Queen).can_capture((x, y)),
                        at(PieceKind::Rook).can_capture((x, y))
                            || at(PieceKind::Bishop).can_capture((x, y))
                    );
                }
            }
        }
    }
}

#[test]
fn test_knight_captures_exactly_eight_offsets() {
    let knight = Piece {
        color: Color::Black,
        kind: PieceKind::Knight,
        position: (4, 4),
    };
    let reached = [
        (5, 6),
        (5, 2),
        (3, 6),
        (3, 2),
        (6, 5),
        (6, 3),
        (2, 5),
        (2, 3),
    ];
    for x in 0..8usize {
        for y in 0..8usize {
            assert_eq!(knight.can_capture((x, y)), reached.contains(&(x, y)));
        }
    }
    assert!(!knight.can_capture((4, 4)));
}

#[test]
fn test_king_captures_exactly_eight_neighbours() {
    let king = Piece {
        color: Color::White,
        kind: PieceKind::King,
        position: (4, 4),
    };
    let reached = [
        (3, 3),
        (3, 4),
        (3, 5),
        (4, 3),
        (4, 5),
        (5, 3),
        (5, 4),
        (5, 5),
    ];
    for x in 0..8usize {
        for y in 0..8usize {
            assert_eq!(king.can_capture((x, y)), reached.contains(&(x, y)));
        }
    }
    assert!(!king.can_capture((4, 4)));
    assert!(!king.can_capture((4, 6)));
    assert!(!king.can_capture((6, 5)));
}

#[test]
fn test_pawn_never_captures_backwards_or_straight() {
    let white = Piece {
        color: Color::White,
        kind: PieceKind::Pawn,
        position: (4, 4),
    };
    let black = Piece {
        color: Color::Black,
        kind: PieceKind::Pawn,
        position: (4, 4),
    };
    for x in 0..8usize {
        for y in 0..8usize {
            let aside = x == 3 || x == 5;
            assert_eq!(white.can_capture((x, y)), aside && y == 5);
            assert_eq!(black.can_capture((x, y)), aside && y == 3);
        }
    }
}

#[test]
fn test_capture_rules_take_any_coordinates() {
    let far = usize::MAX;
    let rook = Piece {
        color: Color::White,
        kind: PieceKind::Rook,
        position: (0, far),
    };
    assert!(rook.can_capture((far, far)));
    assert!(!rook.can_capture((far, 0)));
    let bishop = Piece {
        color: Color::White,
        kind: PieceKind::Bishop,
        position: (0, 0),
    };
    assert!(bishop.can_capture((far, far)));
    assert!(!bishop.can_capture((far, far - 1)));
    let king = Piece {
        color: Color::White,
        kind: PieceKind::King,
        position: (far, far),
    };
    assert!(king.can_capture((far - 1, far)));
    assert!(!king.can_capture((0, far)));
}
