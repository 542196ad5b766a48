//! Scanner and grammar classifier for algebraic chess notation: the scanner
//! maps each character of a move string to a notation symbol, enforcing a
//! maximum symbol count; the classifier tries each grammar rule on the
//! symbol sequence and keeps the non-rejecting matches.

use vstd::prelude::*;
use vstd::string::StrSliceExecFns;

verus! {

/// The longest supported notation, e.g. a disambiguated checkmate capture.
pub const MAX_NOTATION_LENGTH: usize = 6;

/// An atomic lexical unit of algebraic notation: a piece letter, a file
/// letter, a rank digit, or one of the punctuation marks.
#[derive(Clone, Copy, Debug, PartialEq, Eq)]
pub enum NotationSymbol {
    King,
    Queen,
    Rook,
    Bishop,
    Knight,
    Capture,
    Check,
    Checkmate,
    A,
    B,
    C,
    D,
    E,
    F,
    G,
    H,
    Zero,
    One,
    Two,
    Three,
    Four,
    Five,
    Six,
    Seven,
    Eight,
    Minus,
}

/// Why a move string could not be scanned.
#[derive(Clone, Copy, Debug, PartialEq, Eq)]
pub enum ScanError {
    /// An unrecognized character was present.
    InvalidSymbol,
    /// More than `MAX_NOTATION_LENGTH` symbols were produced.
    InvalidLength,
}

/// The character-to-symbol table: `Some` for the recognized characters,
/// `None` for everything else.
pub open spec fn char_symbol(c: char) -> Option<NotationSymbol> {
    match c {
        'a' => Some(NotationSymbol::A),
        'b' => Some(NotationSymbol::B),
        'c' => Some(NotationSymbol::C),
        'd' => Some(NotationSymbol::D),
        'e' => Some(NotationSymbol::E),
        'f' => Some(NotationSymbol::F),
        'g' => Some(NotationSymbol::G),
        'h' => Some(NotationSymbol::H),
        'B' => Some(NotationSymbol::Bishop),
        'N' => Some(NotationSymbol::Knight),
        'R' => Some(NotationSymbol::Rook),
        'K' => Some(NotationSymbol::King),
        'Q' => Some(NotationSymbol::Queen),
        'x' => Some(NotationSymbol::Capture),
        '+' => Some(NotationSymbol::Check),
        '#' => Some(NotationSymbol::Checkmate),
        '-' => Some(NotationSymbol::Minus),
        '0' => Some(NotationSymbol::Zero),
        '1' => Some(NotationSymbol::One),
        '2' => Some(NotationSymbol::Two),
        '3' => Some(NotationSymbol::Three),
        '4' => Some(NotationSymbol::Four),
        '5' => Some(NotationSymbol::Five),
        '6' => Some(NotationSymbol::Six),
        '7' => Some(NotationSymbol::Seven),
        '8' => Some(NotationSymbol::Eight),
        _ => None,
    }
}

pub open spec fn is_recognized(c: char) -> bool {
    char_symbol(c) is Some
}

pub open spec fn all_recognized(s: Seq<char>) -> bool {
    forall|i: int| 0 <= i < s.len() ==> is_recognized(#[trigger] s[i])
}

/// The symbol sequence a fully recognized character sequence scans to:
/// each element is the mapped symbol of the character at the same position.
pub open spec fn scanned_symbols(s: Seq<char>) -> Seq<NotationSymbol> {
    Seq::new(s.len(), |i: int| char_symbol(s[i])->0)
}

impl NotationSymbol {
    /// Converts a raw move string into its symbol sequence.
    ///
    /// Every character is examined (scanning does not short-circuit); an
    /// unrecognized character anywhere fails the whole scan with
    /// `InvalidSymbol`, which takes priority over `InvalidLength`. A string
    /// of recognized characters fails with `InvalidLength` exactly when it
    /// is longer than `MAX_NOTATION_LENGTH`; at or under that bound it
    /// succeeds with the positional symbol mapping of its characters.
    pub fn scan(input: &str) -> (r: Result<Vec<NotationSymbol>, ScanError>)
        ensures
            !all_recognized(input@) ==> r == Err::<Vec<NotationSymbol>, ScanError>(
                ScanError::InvalidSymbol,
            ),
            all_recognized(input@) && input@.len() > MAX_NOTATION_LENGTH ==> r == Err::<
                Vec<NotationSymbol>,
                ScanError,
            >(ScanError::InvalidLength),
            all_recognized(input@) && input@.len() <= MAX_NOTATION_LENGTH ==> r is Ok
                && r->Ok_0@ == scanned_symbols(input@),
    {
        let n = input.unicode_len();
        let mut symbols: Vec<NotationSymbol> = Vec::new();
        let mut invalid_symbol: bool = false;
        let mut invalid_length: bool = false;
        let mut i: usize = 0;
        while i < n
            invariant
                i <= n,
                n == input@.len(),
                invalid_symbol <==> exists|j: int| 0 <= j < i && !is_recognized(#[trigger] input@[j]),
                !invalid_symbol ==> symbols@ == scanned_symbols(input@.subrange(0, i as int)),
                !invalid_symbol ==> (invalid_length <==> i > MAX_NOTATION_LENGTH),
            decreases n - i,
        {
            let c = input.get_char(i);
            let mapped: Option<NotationSymbol> = match c {
                'a' => Some(NotationSymbol::A),
                'b' => Some(NotationSymbol::B),
                'c' => Some(NotationSymbol::C),
                'd' => Some(NotationSymbol::D),
                'e' => Some(NotationSymbol::E),
                'f' => Some(NotationSymbol::F),
                'g' => Some(NotationSymbol::G),
                'h' => Some(NotationSymbol::H),
                'B' => Some(NotationSymbol::Bishop),
                'N' => Some(NotationSymbol::Knight),
                'R' => Some(NotationSymbol::Rook),
                'K' => Some(NotationSymbol::King),
                'Q' => Some(NotationSymbol::Queen),
                'x' => Some(NotationSymbol::Capture),
                '+' => Some(NotationSymbol::Check),
                '#' => Some(NotationSymbol::Checkmate),
                '-' => Some(NotationSymbol::Minus),
                '0' => Some(NotationSymbol::Zero),
                '1' => Some(NotationSymbol::One),
                '2' => Some(NotationSymbol::Two),
                '3' => Some(NotationSymbol::Three),
                '4' => Some(NotationSymbol::Four),
                '5' => Some(NotationSymbol::Five),
                '6' => Some(NotationSymbol::Six),
                '7' => Some(NotationSymbol::Seven),
                '8' => Some(NotationSymbol::Eight),
                _ => None,
            };
            proof {
                assert(mapped == char_symbol(input@[i as int]));
            }
            match mapped {
                Some(sym) => symbols.push(sym),
                None => invalid_symbol = true,
            }
            if symbols.len() > MAX_NOTATION_LENGTH {
                invalid_length = true;
            }
            i = i + 1;
            proof {
                if !invalid_symbol {
                    assert(symbols@ =~= scanned_symbols(input@.subrange(0, i as int)));
                }
            }
        }
        proof {
            assert(input@.subrange(0, n as int) =~= input@);
            if invalid_symbol {
                let j = choose|j: int| 0 <= j < i && !is_recognized(#[trigger] input@[j]);
                assert(!is_recognized(input@[j]));
            }
        }
        if invalid_symbol {
            return Err(ScanError::InvalidSymbol);
        }
        if invalid_length {
            return Err(ScanError::InvalidLength);
        }
        Ok(symbols)
    }
}

/// A typed move description: the outcome of one grammar rule. `Unknown`
/// means "this rule does not describe the input" and is filtered out by
/// `classify`; it is never a final successful result. The intended grammar
/// also covers captures, piece moves, promotion and castling; only the
/// pawn-move family is implemented, and each further production is meant to
/// be one new rule function plus one new variant here.
#[derive(Clone, Copy, Debug, PartialEq, Eq)]
pub enum Notation {
    PawnMove(Option<NotationSymbol>, Option<NotationSymbol>),
    PawnMoveCheck(Option<NotationSymbol>, Option<NotationSymbol>, Option<NotationSymbol>),
    PawnMoveCheckmate(Option<NotationSymbol>, Option<NotationSymbol>, Option<NotationSymbol>),
    Unknown,
}

/// Whether a symbol is one of the file letters A through H.
pub open spec fn is_file(s: NotationSymbol) -> bool {
    match s {
        NotationSymbol::A | NotationSymbol::B | NotationSymbol::C | NotationSymbol::D
            | NotationSymbol::E | NotationSymbol::F | NotationSymbol::G | NotationSymbol::H => true,
        _ => false,
    }
}

/// Whether a symbol is one of the rank digits One through Eight.
pub open spec fn is_rank(s: NotationSymbol) -> bool {
    match s {
        NotationSymbol::One | NotationSymbol::Two | NotationSymbol::Three | NotationSymbol::Four
            | NotationSymbol::Five | NotationSymbol::Six | NotationSymbol::Seven
            | NotationSymbol::Eight => true,
        _ => false,
    }
}

/// What the `pawn_move` rule yields: exactly a file followed by a rank.
pub open spec fn pawn_move_spec(s: Seq<NotationSymbol>) -> Notation {
    if s.len() == 2 && is_file(s[0]) && is_rank(s[1]) {
        Notation::PawnMove(Some(s[0]), Some(s[1]))
    } else {
        Notation::Unknown
    }
}

/// What the `pawn_move_check` rule yields: a pawn move whose two symbols are
/// followed by exactly one `Check`.
pub open spec fn pawn_move_check_spec(s: Seq<NotationSymbol>) -> Notation {
    if s.len() == 3 && is_file(s[0]) && is_rank(s[1]) && s[2] == NotationSymbol::Check {
        Notation::PawnMoveCheck(Some(s[0]), Some(s[1]), Some(NotationSymbol::Check))
    } else {
        Notation::Unknown
    }
}

/// What the `pawn_move_checkmate` rule yields: a pawn move whose two symbols
/// are followed by exactly one `Checkmate`.
pub open spec fn pawn_move_checkmate_spec(s: Seq<NotationSymbol>) -> Notation {
    if s.len() == 3 && is_file(s[0]) && is_rank(s[1]) && s[2] == NotationSymbol::Checkmate {
        Notation::PawnMoveCheckmate(Some(s[0]), Some(s[1]), Some(NotationSymbol::Checkmate))
    } else {
        Notation::Unknown
    }
}

/// Every rule applied to the same symbol sequence, in registration order.
pub open spec fn rule_results(s: Seq<NotationSymbol>) -> Seq<Notation> {
    seq![pawn_move_spec(s), pawn_move_check_spec(s), pawn_move_checkmate_spec(s)]
}

/// One rule outcome as `classify` reports it: kept when it matched,
/// dropped when the rule rejected.
pub open spec fn keep_if_match(n: Notation) -> Seq<Notation> {
    if n is Unknown {
        seq![]
    } else {
        seq![n]
    }
}

/// The non-rejecting rule outcomes, in registration order.
pub open spec fn classify_spec(s: Seq<NotationSymbol>) -> Seq<Notation> {
    keep_if_match(pawn_move_spec(s)) + keep_if_match(pawn_move_check_spec(s)) + keep_if_match(
        pawn_move_checkmate_spec(s),
    )
}

impl Notation {
    /// The rule registry applied to one symbol sequence: each rule's outcome
    /// in registration order, `Unknown` where a rule rejects.
    pub fn moves(symbols: &[NotationSymbol]) -> (r: Vec<Notation>)
        ensures
            r@ == rule_results(symbols@),
    {
        let mut results: Vec<Notation> = Vec::new();
        results.push(Notation::pawn_move(symbols));
        results.push(Notation::pawn_move_check(symbols));
        results.push(Notation::pawn_move_checkmate(symbols));
        proof {
            assert(results@ =~= rule_results(symbols@));
        }
        results
    }

    /// Applies every rule and returns only the non-rejecting matches. Zero
    /// results mean "unparsed move"; more than one would be a rule-set
    /// inconsistency, which `lemma_rules_disjoint` rules out.
    pub fn classify(symbols: &[NotationSymbol]) -> (r: Vec<Notation>)
        ensures
            r@ == classify_spec(symbols@),
    {
        let rules = Notation::moves(symbols);
        let mut found: Vec<Notation> = Vec::new();
        let first = rules[0];
        if !(matches!(first, Notation::Unknown)) {
            found.push(first);
        }
        let second = rules[1];
        if !(matches!(second, Notation::Unknown)) {
            found.push(second);
        }
        let third = rules[2];
        if !(matches!(third, Notation::Unknown)) {
            found.push(third);
        }
        proof {
            assert(found@ =~= classify_spec(symbols@));
        }
        found
    }

    /// The `pawn_move` rule: matches exactly a 2-symbol sequence
    /// `[file, rank]`; any other shape rejects with `Unknown`.
    pub fn pawn_move(symbols: &[NotationSymbol]) -> (r: Notation)
        ensures
            r == pawn_move_spec(symbols@),
    {
        if symbols.len() != 2 {
            return Notation::Unknown;
        }

        let file: Option<NotationSymbol> = match symbols[0] {
            NotationSymbol::A => Some(NotationSymbol::A),
            NotationSymbol::B => Some(NotationSymbol::B),
            NotationSymbol::C => Some(NotationSymbol::C),
            NotationSymbol::D => Some(NotationSymbol::D),
            NotationSymbol::E => Some(NotationSymbol::E),
            NotationSymbol::F => Some(NotationSymbol::F),
            NotationSymbol::G => Some(NotationSymbol::G),
            NotationSymbol::H => Some(NotationSymbol::H),
            _ => None,
        };

        let rank: Option<NotationSymbol> = match symbols[1] {
            NotationSymbol::One => Some(NotationSymbol::One),
            NotationSymbol::Two => Some(NotationSymbol::Two),
            NotationSymbol::Three => Some(NotationSymbol::Three),
            NotationSymbol::Four => Some(NotationSymbol::Four),
            NotationSymbol::Five => Some(NotationSymbol::Five),
            NotationSymbol::Six => Some(NotationSymbol::Six),
            NotationSymbol::Seven => Some(NotationSymbol::Seven),
            NotationSymbol::Eight => Some(NotationSymbol::Eight),
            _ => None,
        };

        if file.is_none() || rank.is_none() {
            return Notation::Unknown;
        }

        Notation::PawnMove(file, rank)
    }

    /// The `pawn_move_check` rule: delegates to `pawn_move` on the first two
    /// symbols and requires exactly one further symbol, `Check`.
    pub fn pawn_move_check(symbols: &[NotationSymbol]) -> (r: Notation)
        ensures
            r == pawn_move_check_spec(symbols@),
    {
        if symbols.len() != 3 {
            return Notation::Unknown;
        }

        let pawn_move = Notation::pawn_move(&symbols[0..2]);
        if matches!(pawn_move, Notation::Unknown) {
            return Notation::Unknown;
        }

        if matches!(symbols[2], NotationSymbol::Check) {
            if let Notation::PawnMove(file, rank) = pawn_move {
                return Notation::PawnMoveCheck(file, rank, Some(NotationSymbol::Check));
            }
        }

        Notation::Unknown
    }

    /// The `pawn_move_checkmate` rule: delegates to `pawn_move` on the first
    /// two symbols and requires exactly one further symbol, `Checkmate`.
    pub fn pawn_move_checkmate(symbols: &[NotationSymbol]) -> (r: Notation)
        ensures
            r == pawn_move_checkmate_spec(symbols@),
    {
        if symbols.len() != 3 {
            return Notation::Unknown;
        }

        let pawn_move = Notation::pawn_move(&symbols[0..2]);
        if matches!(pawn_move, Notation::Unknown) {
            return Notation::Unknown;
        }

        if matches!(symbols[2], NotationSymbol::Checkmate) {
            if let Notation::PawnMove(file, rank) = pawn_move {
                return Notation::PawnMoveCheckmate(file, rank, Some(NotationSymbol::Checkmate));
            }
        }

        Notation::Unknown
    }
}

/// The rules are disjoint by construction: for every symbol sequence at most
/// one rule matches, so `classify` never reports an ambiguity.
pub proof fn lemma_rules_disjoint(s: Seq<NotationSymbol>)
    ensures
        classify_spec(s).len() <= 1,
{
}

/// A match reported by `classify` is never `Unknown`: rejection is filtered
/// out, not returned.
pub proof fn lemma_classify_no_unknown(s: Seq<NotationSymbol>)
    ensures
        forall|i: int| 0 <= i < classify_spec(s).len() ==> !(#[trigger] classify_spec(s)[i]
            is Unknown),
{
}

} // verus!
