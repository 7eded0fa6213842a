use tetris::bag::Bag;
use tetris::pieces::{Piece, Tetromino};

const ALL: [Tetromino; 7] = [
    Tetromino::I,
    Tetromino::J,
    Tetromino::L,
    Tetromino::O,
    Tetromino::S,
    Tetromino::T,
    Tetromino::Z,
];

fn tetromino_of(piece: &Piece) -> Tetromino {
    let solid: Vec<bool> = (0..16).map(|at| piece.has_cell_at(at / 4, at % 4)).collect();
    let mut found = Vec::new();
    for tetromino in ALL {
        let template = Piece::new(tetromino, *piece.get_position());
        let cells: Vec<bool> = (0..16).map(|at| template.has_cell_at(at / 4, at % 4)).collect();
        if cells == solid {
            found.push(tetromino);
        }
    }
    assert_eq!(1, found.len());
    found[0]
}

#[test]
fn new_bag_shows_no_next_piece() {
    let bag = Bag::new(rand::rng());
    assert!(bag.next_piece().is_none());
}

#[test]
fn seven_pieces_in_a_row_are_the_seven_tetrominoes() {
    let mut bag = Bag::new(rand::rng());
    for _ in 0..20 {
        let mut dealt = Vec::new();
        for _ in 0..7 {
            dealt.push(tetromino_of(&bag.get_piece()));
        }
        for tetromino in ALL {
            assert_eq!(1, dealt.iter().filter(|t| **t == tetromino).count());
        }
    }
}

#[test]
fn dealt_piece_is_the_one_shown_as_next() {
    let mut bag = Bag::new(rand::rng());
    bag.get_piece();
    for _ in 0..30 {
        let shown = bag.next_piece().unwrap();
        let dealt = bag.get_piece();
        assert_eq!(tetromino_of(&shown), tetromino_of(&dealt));
        assert_eq!(shown.get_position(), dealt.get_position());
    }
}

#[test]
fn dealt_pieces_are_at_their_spawn_position() {
    let mut bag = Bag::new(rand::rng());
    for _ in 0..30 {
        let piece = bag.get_piece();
        let tetromino = tetromino_of(&piece);
        assert_eq!(tetromino.get_spawn_position(), *piece.get_position());
        assert_eq!(tetromino_of(&Piece::new(tetromino, *piece.get_position())), tetromino);
    }
}
