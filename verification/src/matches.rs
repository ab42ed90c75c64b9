//! How a game ends and how it is written down: end reasons, the PGN record,
//! the result tag, and who wins when a bot fails.

use vstd::prelude::*;
use crate::text::{decimal, push_char, push_decimal, push_str, same_text};

verus! {

/// Why a game ended.
#[derive(Clone, Copy, Debug, PartialEq, Eq, Structural)]
pub enum MatchEndReason {
    Checkmate,
    Draw,
    IllegalMove,
    Timeout,
    WriteError,
    InvalidOutput,
    FailedToLoadBot,
}

/// The code recorded for each end reason.
pub open spec fn reason_code(r: MatchEndReason) -> Seq<char> {
    match r {
        MatchEndReason::Checkmate => "checkmate"@,
        MatchEndReason::Draw => "draw"@,
        MatchEndReason::IllegalMove => "illegal_move"@,
        MatchEndReason::Timeout => "timeout"@,
        MatchEndReason::WriteError => "write_error"@,
        MatchEndReason::InvalidOutput => "invalid_output"@,
        MatchEndReason::FailedToLoadBot => "failed_to_load_bot"@,
    }
}

impl MatchEndReason {
    /// The code stored in the database and published for this reason.
    pub fn as_str(&self) -> (s: &'static str)
        ensures
            s@ == reason_code(*self),
    {
        match self {
            Self::Checkmate => "checkmate",
            Self::Draw => "draw",
            Self::IllegalMove => "illegal_move",
            Self::Timeout => "timeout",
            Self::WriteError => "write_error",
            Self::InvalidOutput => "invalid_output",
            Self::FailedToLoadBot => "failed_to_load_bot",
        }
    }
}

/// Distinct reasons are recorded under distinct codes.
pub proof fn lemma_reason_codes_distinct(a: MatchEndReason, b: MatchEndReason)
    requires
        a != b,
    ensures
        reason_code(a) != reason_code(b),
{
    reveal_strlit("checkmate");
    reveal_strlit("draw");
    reveal_strlit("illegal_move");
    reveal_strlit("timeout");
    reveal_strlit("write_error");
    reveal_strlit("invalid_output");
    reveal_strlit("failed_to_load_bot");
    assert(reason_code(a).len() != reason_code(b).len() || reason_code(a)[0] != reason_code(b)[0]
        || reason_code(a)[1] != reason_code(b)[1]);
}

/// The name of the white side.
pub open spec fn white_word() -> Seq<char> {
    seq!['w', 'h', 'i', 't', 'e']
}

/// The name of the black side.
pub open spec fn black_word() -> Seq<char> {
    seq!['b', 'l', 'a', 'c', 'k']
}

/// The PGN result tag for the winning colour (`None`, or any other word, is a draw).
pub open spec fn result_tag(winner_color: Option<Seq<char>>) -> Seq<char> {
    match winner_color {
        Some(c) => if c == white_word() {
            "1-0"@
        } else if c == black_word() {
            "0-1"@
        } else {
            "1/2-1/2"@
        },
        None => "1/2-1/2"@,
    }
}

/// The view of an optional colour word.
pub open spec fn color_view(c: Option<&str>) -> Option<Seq<char>> {
    match c {
        Some(s) => Some(s@),
        None => None,
    }
}

/// The PGN result tag for a game won by `winner_color` (`"white"` or `"black"`),
/// or drawn.
pub fn result_for_color(winner_color: Option<&str>) -> (r: &'static str)
    ensures
        r@ == result_tag(color_view(winner_color)),
{
    proof {
        reveal_strlit("white");
        reveal_strlit("black");
    }
    match winner_color {
        Some(c) => {
            if same_text(c, "white") {
                assert("white"@ =~= white_word());
                "1-0"
            } else if same_text(c, "black") {
                assert("black"@ =~= black_word());
                "0-1"
            } else {
                assert("white"@ =~= white_word());
                assert("black"@ =~= black_word());
                "1/2-1/2"
            }
        },
        None => "1/2-1/2",
    }
}

/// When the bot to move fails, its opponent wins: `("black", black)` when the
/// failing bot is the white one, `("white", white)` otherwise.
pub fn bot_failure_winner(current_bot_id: Option<u128>, white_bot_id: u128, black_bot_id: u128) -> (r: (
    &'static str,
    u128,
))
    ensures
        current_bot_id == Some(white_bot_id) ==> r.0@ == "black"@ && r.1 == black_bot_id,
        current_bot_id != Some(white_bot_id) ==> r.0@ == "white"@ && r.1 == white_bot_id,
{
    if current_bot_id == Some(white_bot_id) {
        ("black", black_bot_id)
    } else {
        ("white", white_bot_id)
    }
}

/// The header of a PGN record.
pub open spec fn pgn_header(white: Seq<char>, black: Seq<char>, result: Seq<char>) -> Seq<char> {
    "[Event \"?\"]\n[White \""@ + white + "\"]\n[Black \""@ + black + "\"]\n[Result \""@ + result
        + "\"]\n\n"@
}

/// Line `k` (from 0) of the move text: the move number, white's move and,
/// when played, black's reply.
pub open spec fn pgn_line(moves: Seq<Seq<char>>, k: nat) -> Seq<char> {
    let first = decimal(k + 1) + ". "@ + moves[2 * k as int];
    if 2 * k + 1 < moves.len() {
        first + " "@ + moves[2 * k as int + 1]
    } else {
        first
    }
}

/// The first `n` lines of the move text, separated by newlines.
pub open spec fn pgn_lines(moves: Seq<Seq<char>>, n: nat) -> Seq<char>
    decreases n,
{
    if n == 0 {
        Seq::empty()
    } else if n == 1 {
        pgn_line(moves, 0)
    } else {
        pgn_lines(moves, (n - 1) as nat) + "\n"@ + pgn_line(moves, (n - 1) as nat)
    }
}

/// Number of lines of move text: one per pair of moves.
pub open spec fn pgn_line_count(moves: Seq<Seq<char>>) -> nat {
    ((moves.len() + 1) / 2) as nat
}

/// The whole PGN record of a game.
pub open spec fn pgn_text(white: Seq<char>, black: Seq<char>, result: Seq<char>, moves: Seq<Seq<char>>) -> Seq<char> {
    pgn_header(white, black, result) + pgn_lines(moves, pgn_line_count(moves))
}

/// What one more move adds to the move text of `n` moves: the reply on
/// the same line after an odd count, `1. ` and the move at the start, and a
/// new numbered line otherwise.
pub open spec fn pgn_move_suffix(n: nat, m: Seq<char>) -> Seq<char> {
    if n % 2 == 1 {
        " "@ + m
    } else if n == 0 {
        "1. "@ + m
    } else {
        "\n"@ + decimal(n / 2 + 1) + ". "@ + m
    }
}

/// Lines that agree one by one give the same text.
proof fn lemma_pgn_lines_agree(ms: Seq<Seq<char>>, ns: Seq<Seq<char>>, k: nat)
    requires
        forall|j: nat| j < k ==> pgn_line(ms, j) == pgn_line(ns, j),
    ensures
        pgn_lines(ms, k) == pgn_lines(ns, k),
    decreases k,
{
    if k > 1 {
        lemma_pgn_lines_agree(ms, ns, (k - 1) as nat);
        assert(pgn_line(ms, (k - 1) as nat) == pgn_line(ns, (k - 1) as nat));
    } else if k == 1 {
        assert(pgn_line(ms, 0) == pgn_line(ns, 0));
    }
}

/// Recording one more move extends the PGN record by that move alone: the
/// text before it is unchanged.
pub proof fn lemma_pgn_push(white: Seq<char>, black: Seq<char>, result: Seq<char>, ms: Seq<Seq<char>>, m: Seq<char>)
    ensures
        pgn_text(white, black, result, ms.push(m)) == pgn_text(white, black, result, ms) + pgn_move_suffix(
            ms.len(),
            m,
        ),
{
    let n = ms.len();
    let ns = ms.push(m);
    let q = n / 2;
    let header = pgn_header(white, black, result);
    assert forall|j: nat| j < q implies pgn_line(ms, j) == pgn_line(ns, j) by {
        assert(ns[2 * j as int] == ms[2 * j as int]);
        assert(ns[2 * j as int + 1] == ms[2 * j as int + 1]);
    }
    lemma_pgn_lines_agree(ms, ns, q);
    if n % 2 == 1 {
        assert(pgn_line_count(ms) == q + 1);
        assert(pgn_line_count(ns) == q + 1);
        assert(ns[2 * q as int] == ms[2 * q as int]);
        assert(pgn_line(ns, q) =~= pgn_line(ms, q) + " "@ + m);
        if q == 0 {
            assert(pgn_text(white, black, result, ns) =~= header + pgn_line(ns, 0));
            assert(pgn_text(white, black, result, ms) =~= header + pgn_line(ms, 0));
        } else {
            assert(pgn_lines(ns, q + 1) == pgn_lines(ns, q) + "\n"@ + pgn_line(ns, q));
            assert(pgn_lines(ms, q + 1) == pgn_lines(ms, q) + "\n"@ + pgn_line(ms, q));
        }
        assert(pgn_text(white, black, result, ns) =~= pgn_text(white, black, result, ms) + (" "@ + m));
    } else if n == 0 {
        assert(pgn_line_count(ns) == 1);
        assert(decimal(1) =~= seq!['1']);
        assert("1. "@ =~= seq!['1'] + ". "@) by {
            reveal_strlit("1. ");
            reveal_strlit(". ");
        }
        assert(pgn_line(ns, 0) =~= "1. "@ + m);
        assert(pgn_text(white, black, result, ms) =~= header);
        assert(pgn_text(white, black, result, ns) =~= header + ("1. "@ + m));
    } else {
        assert(pgn_line_count(ms) == q);
        assert(pgn_line_count(ns) == q + 1);
        assert(pgn_line(ns, q) =~= decimal(q + 1) + ". "@ + m);
        assert(pgn_lines(ns, q + 1) == pgn_lines(ns, q) + "\n"@ + pgn_line(ns, q));
        assert(pgn_text(white, black, result, ns) =~= pgn_text(white, black, result, ms) + (
        "\n"@ + decimal(q + 1) + ". "@ + m));
    }
}

/// The views of a list of strings.
pub open spec fn texts(v: Seq<String>) -> Seq<Seq<char>> {
    v.map_values(|m: String| m@)
}

/// Writes the PGN record of a game: the header with both names and the
/// result, then the moves in SAN, two to a numbered line.
pub fn build_pgn(white_name: &str, black_name: &str, result: &str, moves: &[String]) -> (pgn: String)
    ensures
        pgn@ == pgn_text(white_name@, black_name@, result@, texts(moves@)),
{
    let ghost ms = texts(moves@);
    let mut pgn = String::new();
    push_str(&mut pgn, "[Event \"?\"]\n[White \"");
    push_str(&mut pgn, white_name);
    push_str(&mut pgn, "\"]\n[Black \"");
    push_str(&mut pgn, black_name);
    push_str(&mut pgn, "\"]\n[Result \"");
    push_str(&mut pgn, result);
    push_str(&mut pgn, "\"]\n\n");
    let ghost header = pgn@;
    assert(header =~= pgn_header(white_name@, black_name@, result@));
    let n = moves.len() / 2 + moves.len() % 2;
    assert(n == pgn_line_count(ms));
    let mut idx: usize = 0;
    while idx < n
        invariant
            ms == texts(moves@),
            ms.len() == moves@.len(),
            moves@.len() == moves.len(),
            n == pgn_line_count(ms),
            n == moves@.len() / 2 + moves@.len() % 2,
            idx <= n,
            pgn@ == header + pgn_lines(ms, idx as nat),
        decreases n - idx,
    {
        let ghost before = pgn@;
        assert(2 * idx < moves@.len()) by {
            let l = moves@.len();
            assert(l == 2 * (l / 2) + l % 2);
        }
        if idx > 0 {
            push_str(&mut pgn, "\n");
        }
        push_decimal(&mut pgn, idx + 1);
        push_str(&mut pgn, ". ");
        push_str(&mut pgn, moves[2 * idx].as_str());
        if 2 * idx + 1 < moves.len() {
            push_char(&mut pgn, ' ');
            push_str(&mut pgn, moves[2 * idx + 1].as_str());
            assert(" "@ =~= seq![' ']) by {
                reveal_strlit(" ");
            }
        }
        proof {
            let line = pgn_line(ms, idx as nat);
            if idx > 0 {
                assert(pgn@ =~= before + "\n"@ + line);
            } else {
                assert(pgn@ =~= before + line);
            }
        }
        idx = idx + 1;
    }
    pgn
}

} // verus!
