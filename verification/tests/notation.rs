use chess_notation::notation::{Notation, NotationSymbol, ScanError};

fn scan_ok(input: &str) -> Vec<NotationSymbol> {
    NotationSymbol::scan(input).expect("scan should succeed")
}

#[test]
fn scan_empty_succeeds() {
    let symbols = scan_ok("");
    assert_eq!(symbols, Vec::new());
}

#[test]
fn scan_maps_each_character_positionally() {
    let table = vec![
        ('a', NotationSymbol::A),
        ('b', NotationSymbol::B),
        ('c', NotationSymbol::C),
        ('d', NotationSymbol::D),
        ('e', NotationSymbol::E),
        ('f', NotationSymbol::F),
        ('g', NotationSymbol::G),
        ('h', NotationSymbol::H),
        ('B', NotationSymbol::Bishop),
        ('N', NotationSymbol::Knight),
        ('R', NotationSymbol::Rook),
        ('K', NotationSymbol::King),
        ('Q', NotationSymbol::Queen),
        ('x', NotationSymbol::Capture),
        ('+', NotationSymbol::Check),
        ('#', NotationSymbol::Checkmate),
        ('-', NotationSymbol::Minus),
        ('0', NotationSymbol::Zero),
        ('1', NotationSymbol::One),
        ('2', NotationSymbol::Two),
        ('3', NotationSymbol::Three),
        ('4', NotationSymbol::Four),
        ('5', NotationSymbol::Five),
        ('6', NotationSymbol::Six),
        ('7', NotationSymbol::Seven),
        ('8', NotationSymbol::Eight),
    ];
    for (c, expected) in table {
        let symbols = scan_ok(&format!("{}", c));
        assert_eq!(symbols, vec![expected]);
    }
}

#[test]
fn scan_e4() {
    assert_eq!(scan_ok("e4"), vec![NotationSymbol::E, NotationSymbol::Four]);
}

#[test]
fn scan_rejects_unrecognized_character() {
    assert_eq!(NotationSymbol::scan("e9"), Err(ScanError::InvalidSymbol));
    assert_eq!(NotationSymbol::scan("z"), Err(ScanError::InvalidSymbol));
    assert_eq!(NotationSymbol::scan("e4!"), Err(ScanError::InvalidSymbol));
}

#[test]
fn scan_invalid_symbol_takes_priority_over_length() {
    // Both overlong and containing unrecognized characters: the symbol
    // error wins.
    assert_eq!(
        NotationSymbol::scan("e4e4e4e4!"),
        Err(ScanError::InvalidSymbol)
    );
}

#[test]
fn scan_rejects_overlong_input() {
    assert_eq!(NotationSymbol::scan("aaaaaaa"), Err(ScanError::InvalidLength));
    assert_eq!(
        NotationSymbol::scan("Q6xe6#1"),
        Err(ScanError::InvalidLength)
    );
}

#[test]
fn scan_six_characters_is_within_the_bound() {
    // Exactly MAX_NOTATION_LENGTH recognized characters succeed; the limit
    // fires only on the character after it.
    assert_eq!(
        scan_ok("Q6xe6#"),
        vec![
            NotationSymbol::Queen,
            NotationSymbol::Six,
            NotationSymbol::Capture,
            NotationSymbol::E,
            NotationSymbol::Six,
            NotationSymbol::Checkmate,
        ]
    );
}

#[test]
fn classify_pawn_move() {
    let symbols = scan_ok("e4");
    let found = Notation::classify(&symbols);
    assert_eq!(
        found,
        vec![Notation::PawnMove(
            Some(NotationSymbol::E),
            Some(NotationSymbol::Four)
        )]
    );
}

#[test]
fn classify_pawn_move_check() {
    let symbols = scan_ok("e4+");
    let found = Notation::classify(&symbols);
    assert_eq!(
        found,
        vec![Notation::PawnMoveCheck(
            Some(NotationSymbol::E),
            Some(NotationSymbol::Four),
            Some(NotationSymbol::Check)
        )]
    );
    // The bare pawn_move rule itself rejects the three-symbol sequence.
    assert!(matches!(Notation::pawn_move(&symbols), Notation::Unknown));
}

#[test]
fn classify_pawn_move_checkmate() {
    let symbols = scan_ok("e4#");
    let found = Notation::classify(&symbols);
    assert_eq!(
        found,
        vec![Notation::PawnMoveCheckmate(
            Some(NotationSymbol::E),
            Some(NotationSymbol::Four),
            Some(NotationSymbol::Checkmate)
        )]
    );
}

#[test]
fn classify_piece_move_is_an_unimplemented_family() {
    // "Nf3" scans but no rule of the current grammar matches it.
    let symbols = scan_ok("Nf3");
    assert_eq!(Notation::classify(&symbols), Vec::new());
}

#[test]
fn classify_castling_is_an_unimplemented_family() {
    let symbols = scan_ok("0-0");
    assert_eq!(
        symbols,
        vec![
            NotationSymbol::Zero,
            NotationSymbol::Minus,
            NotationSymbol::Zero
        ]
    );
    assert_eq!(Notation::classify(&symbols), Vec::new());
}

#[test]
fn classify_empty_sequence() {
    let symbols = scan_ok("");
    assert_eq!(Notation::classify(&symbols), Vec::new());
}

#[test]
fn moves_applies_every_rule_in_registration_order() {
    let symbols = scan_ok("e4");
    let results = Notation::moves(&symbols);
    assert_eq!(
        results,
        vec![
            Notation::PawnMove(Some(NotationSymbol::E), Some(NotationSymbol::Four)),
            Notation::Unknown,
            Notation::Unknown,
        ]
    );
}

#[test]
fn pawn_move_rejects_wrong_shapes() {
    assert!(matches!(Notation::pawn_move(&[]), Notation::Unknown));
    assert!(matches!(
        Notation::pawn_move(&[NotationSymbol::E]),
        Notation::Unknown
    ));
    assert!(matches!(
        Notation::pawn_move(&[NotationSymbol::Four, NotationSymbol::E]),
        Notation::Unknown
    ));
    assert!(matches!(
        Notation::pawn_move(&[NotationSymbol::Knight, NotationSymbol::Four]),
        Notation::Unknown
    ));
    assert!(matches!(
        Notation::pawn_move(&[NotationSymbol::E, NotationSymbol::Zero]),
        Notation::Unknown
    ));
}

#[test]
fn pawn_move_check_rejects_wrong_shapes() {
    // Too short for the rule, including sequences shorter than a pawn move.
    assert!(matches!(Notation::pawn_move_check(&[]), Notation::Unknown));
    assert!(matches!(
        Notation::pawn_move_check(&[NotationSymbol::Check]),
        Notation::Unknown
    ));
    assert!(matches!(
        Notation::pawn_move_check(&[NotationSymbol::E, NotationSymbol::Four]),
        Notation::Unknown
    ));
    // Right length, wrong suffix.
    assert!(matches!(
        Notation::pawn_move_check(&[
            NotationSymbol::E,
            NotationSymbol::Four,
            NotationSymbol::Checkmate
        ]),
        Notation::Unknown
    ));
    // Right suffix, bad pawn move.
    assert!(matches!(
        Notation::pawn_move_check(&[
            NotationSymbol::Knight,
            NotationSymbol::Four,
            NotationSymbol::Check
        ]),
        Notation::Unknown
    ));
}

#[test]
fn pawn_move_checkmate_rejects_wrong_shapes() {
    assert!(matches!(
        Notation::pawn_move_checkmate(&[]),
        Notation::Unknown
    ));
    assert!(matches!(
        Notation::pawn_move_checkmate(&[
            NotationSymbol::E,
            NotationSymbol::Four,
            NotationSymbol::Check
        ]),
        Notation::Unknown
    ));
    assert!(matches!(
        Notation::pawn_move_checkmate(&[
            NotationSymbol::E,
            NotationSymbol::Zero,
            NotationSymbol::Checkmate
        ]),
        Notation::Unknown
    ));
}
