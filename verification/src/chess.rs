//! The chess rules, from `shakmaty`. A position is carried as its FEN text
//! and a move as its UCI text, so that every result of the rules is a plain
//! value named below.

use vstd::prelude::*;
use shakmaty::{CastlingMode, Chess, Color, EnPassantMode, KnownOutcome, Outcome, Position};
use shakmaty::fen::Fen;
use shakmaty::san::San;
use shakmaty::uci::UciMove;
use crate::text::chars_of;

verus! {

/// The state of a game as the rules see it.
#[derive(Clone, Copy, Debug, PartialEq, Eq, Structural)]
pub enum GameOutcome {
    Ongoing,
    WhiteWins,
    BlackWins,
    Draw,
}

/// FEN of the standard starting position.
pub open spec fn start_fen() -> Seq<char> {
    "rnbqkbnr/pppppppp/8/8/8/8/PPPPPPPP/RNBQKBNR w KQkq - 0 1"@
}

/// A field separator of FEN text, as `Fen::from_str` splits it.
pub open spec fn is_fen_separator(c: char) -> bool {
    c == ' ' || c == '_'
}

/// Index of the first separator of `fen` at or after `i` (its length when none).
pub open spec fn separator_from(fen: Seq<char>, i: nat) -> nat
    decreases fen.len() - i,
{
    if i >= fen.len() {
        fen.len()
    } else if is_fen_separator(fen[i as int]) {
        i
    } else {
        separator_from(fen, i + 1)
    }
}

/// The side to move that the text `fen` names in its second field: `Some(true)`
/// for `w`, `Some(false)` for `b`, when the first field is not empty and the
/// second one directly follows it and is a single letter; `None` otherwise.
pub open spec fn fen_side(fen: Seq<char>) -> Option<bool> {
    let i = separator_from(fen, 0) as int;
    if 0 < i && i + 1 < fen.len() && (i + 2 == fen.len() || is_fen_separator(fen[i + 2])) {
        if fen[i + 1] == 'w' {
            Some(true)
        } else if fen[i + 1] == 'b' {
            Some(false)
        } else {
            None
        }
    } else {
        None
    }
}

/// `Position::outcome` of the position that `fen` describes; `None` when
/// `fen` does not describe a legal standard position.
pub uninterp spec fn fen_outcome(fen: Seq<char>) -> Option<GameOutcome>;

/// A file letter, `a` to `h`.
pub open spec fn is_file_char(c: char) -> bool {
    'a' <= c <= 'h'
}

/// A rank digit, `1` to `8`.
pub open spec fn is_rank_char(c: char) -> bool {
    '1' <= c <= '8'
}

/// A piece letter, either case: pawn, knight, bishop, rook, queen, king.
pub open spec fn is_role_char(c: char) -> bool {
    c == 'P' || c == 'p' || c == 'N' || c == 'n' || c == 'B' || c == 'b' || c == 'R' || c == 'r'
        || c == 'Q' || c == 'q' || c == 'K' || c == 'k'
}

/// Whether `uci` is well-formed UCI move notation, as `UciMove::from_str`
/// reads it: the null move `0000`; a drop, piece letter, `@` and square;
/// two squares; or two squares and a promotion piece letter.
pub open spec fn uci_parses(uci: Seq<char>) -> bool {
    if uci.len() == 4 {
        if uci[0] == '0' && uci[1] == '0' && uci[2] == '0' && uci[3] == '0' {
            true
        } else if uci[1] == '@' {
            is_role_char(uci[0]) && is_file_char(uci[2]) && is_rank_char(uci[3])
        } else {
            is_file_char(uci[0]) && is_rank_char(uci[1]) && is_file_char(uci[2]) && is_rank_char(uci[3])
        }
    } else if uci.len() == 5 {
        is_file_char(uci[0]) && is_rank_char(uci[1]) && is_file_char(uci[2]) && is_rank_char(uci[3])
            && is_role_char(uci[4])
    } else {
        false
    }
}

/// Whether `uci` names a legal move in the position `fen` (`UciMove::to_move`).
pub uninterp spec fn uci_is_legal(fen: Seq<char>, uci: Seq<char>) -> bool;

/// SAN of the move `uci` in the position `fen` (`San::from_move`).
pub uninterp spec fn uci_san(fen: Seq<char>, uci: Seq<char>) -> Seq<char>;

/// FEN of the position after playing `uci` in `fen` (`Position::play_unchecked`).
pub uninterp spec fn uci_fen_after(fen: Seq<char>, uci: Seq<char>) -> Seq<char>;

/// The position reached from `start` by playing `ucis` in order.
pub open spec fn replay(start: Seq<char>, ucis: Seq<Seq<char>>) -> Seq<char>
    decreases ucis.len(),
{
    if ucis.len() == 0 {
        start
    } else {
        uci_fen_after(replay(start, ucis.drop_last()), ucis.last())
    }
}

/// Every move of `ucis` is legal in the position it was played in.
pub open spec fn legal_line(start: Seq<char>, ucis: Seq<Seq<char>>) -> bool
    decreases ucis.len(),
{
    ucis.len() == 0 || (legal_line(start, ucis.drop_last()) && uci_is_legal(
        replay(start, ucis.drop_last()),
        ucis.last(),
    ))
}

/// The SAN of each move of `ucis`, in the position it was played in.
pub open spec fn san_line(start: Seq<char>, ucis: Seq<Seq<char>>) -> Seq<Seq<char>>
    decreases ucis.len(),
{
    if ucis.len() == 0 {
        Seq::empty()
    } else {
        san_line(start, ucis.drop_last()).push(uci_san(replay(start, ucis.drop_last()), ucis.last()))
    }
}

/// Playing one more move extends the replayed game by that move.
pub proof fn lemma_line_push(start: Seq<char>, ucis: Seq<Seq<char>>, u: Seq<char>)
    ensures
        replay(start, ucis.push(u)) == uci_fen_after(replay(start, ucis), u),
        san_line(start, ucis.push(u)) == san_line(start, ucis).push(uci_san(replay(start, ucis), u)),
        legal_line(start, ucis.push(u)) == (legal_line(start, ucis) && uci_is_legal(replay(start, ucis), u)),
{
    assert(ucis.push(u).drop_last() =~= ucis);
}

/// White is to move in the starting position.
pub proof fn lemma_start_side()
    ensures
        fen_side(start_fen()) == Some(true),
{
    reveal_strlit("rnbqkbnr/pppppppp/8/8/8/8/PPPPPPPP/RNBQKBNR w KQkq - 0 1");
    reveal_with_fuel(separator_from, 45);
    assert(separator_from(start_fen(), 0) == 43);
}

/// `Chess::default()`, written as FEN: the standard starting position, which
/// is a legal position where the game has not ended.
#[verifier::external_body]
pub fn start_position() -> (fen: String)
    ensures
        fen@ == start_fen(),
        fen_outcome(fen@) == Some(GameOutcome::Ongoing),
{
    Fen::from_position(&Chess::default(), EnPassantMode::Legal).to_string()
}

/// `Position::outcome` of the position `fen` describes: checkmate gives the
/// winner, stalemate and insufficient material a draw; `None` when the
/// text is not the FEN of a legal position.
#[verifier::external_body]
pub fn position_outcome(fen: &str) -> (r: Option<GameOutcome>)
    ensures
        r == fen_outcome(fen@),
{
    let pos: Chess = match fen.parse::<Fen>().map(|f| f.into_position(CastlingMode::Standard)) {
        Ok(Ok(p)) => p,
        _ => return None,
    };
    match pos.outcome() {
        Outcome::Known(KnownOutcome::Decisive { winner: Color::White }) => Some(GameOutcome::WhiteWins),
        Outcome::Known(KnownOutcome::Decisive { winner: Color::Black }) => Some(GameOutcome::BlackWins),
        Outcome::Known(KnownOutcome::Draw) => Some(GameOutcome::Draw),
        Outcome::Unknown => Some(GameOutcome::Ongoing),
    }
}

fn file_char(c: char) -> (r: bool)
    ensures
        r == is_file_char(c),
{
    'a' <= c && c <= 'h'
}

fn rank_char(c: char) -> (r: bool)
    ensures
        r == is_rank_char(c),
{
    '1' <= c && c <= '8'
}

fn role_char(c: char) -> (r: bool)
    ensures
        r == is_role_char(c),
{
    c == 'P' || c == 'p' || c == 'N' || c == 'n' || c == 'B' || c == 'b' || c == 'R' || c == 'r'
        || c == 'Q' || c == 'q' || c == 'K' || c == 'k'
}

/// Whether `uci` is well-formed move notation (`UciMove::from_str`).
pub fn uci_well_formed(uci: &str) -> (r: bool)
    ensures
        r == uci_parses(uci@),
{
    let u = chars_of(uci);
    if u.len() == 4 {
        if u[0] == '0' && u[1] == '0' && u[2] == '0' && u[3] == '0' {
            true
        } else if u[1] == '@' {
            role_char(u[0]) && file_char(u[2]) && rank_char(u[3])
        } else {
            file_char(u[0]) && rank_char(u[1]) && file_char(u[2]) && rank_char(u[3])
        }
    } else if u.len() == 5 {
        file_char(u[0]) && rank_char(u[1]) && file_char(u[2]) && rank_char(u[3]) && role_char(u[4])
    } else {
        false
    }
}

/// `UciMove::to_move`: whether `uci` is a legal move in the position `fen`;
/// only well-formed notation can be legal.
#[verifier::external_body]
pub fn uci_legal(fen: &str, uci: &str) -> (r: bool)
    ensures
        r == uci_is_legal(fen@, uci@),
        r ==> uci_parses(uci@),
{
    let pos: Chess = match fen.parse::<Fen>().map(|f| f.into_position(CastlingMode::Standard)) {
        Ok(Ok(p)) => p,
        _ => return false,
    };
    match uci.parse::<UciMove>() {
        Ok(m) => m.to_move(&pos).is_ok(),
        Err(_) => false,
    }
}


/// `San::from_move`: the SAN of the legal move `uci` in the position `fen`.
#[verifier::external_body]
pub fn move_san(fen: &str, uci: &str) -> (san: String)
    requires
        uci_is_legal(fen@, uci@),
    ensures
        san@ == uci_san(fen@, uci@),
{
    let pos: Chess = match fen.parse::<Fen>().map(|f| f.into_position(CastlingMode::Standard)) {
        Ok(Ok(p)) => p,
        _ => return String::new(),
    };
    match uci.parse::<UciMove>().map(|u| u.to_move(&pos)) {
        Ok(Ok(m)) => San::from_move(&pos, m).to_string(),
        _ => String::new(),
    }
}

/// `Position::play_unchecked` of the legal move `uci` in the position `fen`,
/// written back as FEN; a legal move leads to a legal position, and passes
/// the move to the other side (the side named in the text's second field).
#[verifier::external_body]
pub fn fen_after_move(fen: &str, uci: &str) -> (next: String)
    requires
        uci_is_legal(fen@, uci@),
    ensures
        next@ == uci_fen_after(fen@, uci@),
        fen_outcome(next@) is Some,
        fen_side(fen@) is Some ==> fen_side(next@) == Some(!fen_side(fen@)->0),
{
    let mut pos: Chess = match fen.parse::<Fen>().map(|f| f.into_position(CastlingMode::Standard)) {
        Ok(Ok(p)) => p,
        _ => return String::from(fen),
    };
    if let Ok(Ok(m)) = uci.parse::<UciMove>().map(|u| u.to_move(&pos)) {
        pos.play_unchecked(m);
    }
    Fen::from_position(&pos, EnPassantMode::Legal).to_string()
}

} // verus!
