//! The referee of a game between two bot workers. The worker loop (which
//! talks to the bots and publishes results) asks the referee what to do at
//! each turn and hands it what the bots answered.

use vstd::prelude::*;
use crate::chess::{
    fen_after_move, fen_outcome, fen_side, legal_line, lemma_start_side, lemma_line_push, move_san, position_outcome, replay,
    san_line, start_fen, start_position, uci_fen_after, uci_is_legal, uci_legal, uci_parses, uci_san,
    uci_well_formed, GameOutcome,
};
use crate::matches::{
    black_word, bot_failure_winner, build_pgn, pgn_text, reason_code, result_for_color, result_tag,
    texts, white_word, MatchEndReason,
};
use crate::ids::{uuid_text, uuid_to_string};
use crate::models::{MatchEvent, MatchStatus};
use crate::text::{chars_of, push_str, string_of_range, trim_bounds, trimmed};

verus! {

/// How a game ended, as it is recorded and published.
#[derive(Debug, PartialEq, Eq)]
pub struct MatchConclusion {
    /// `"white"`, `"black"`, or `None` for a draw.
    pub winner_color: Option<&'static str>,
    /// The end reason's code.
    pub win_reason: &'static str,
    /// The PGN record of the game.
    pub pgn: String,
    /// What went wrong, when a bot failed.
    pub error_message: Option<String>,
    /// The winning bot, published as the winner of the game (`None` for a draw).
    pub winner_bot: Option<u128>,
}

/// The plain content of a [`MatchConclusion`].
pub struct ConclusionModel {
    pub winner_color: Option<Seq<char>>,
    pub win_reason: Seq<char>,
    pub pgn: Seq<char>,
    pub error_message: Option<Seq<char>>,
    pub winner_bot: Option<u128>,
}

pub open spec fn conclusion_view(c: MatchConclusion) -> ConclusionModel {
    ConclusionModel {
        winner_color: match c.winner_color {
            Some(w) => Some(w@),
            None => None,
        },
        win_reason: c.win_reason@,
        pgn: c.pgn@,
        error_message: match c.error_message {
            Some(e) => Some(e@),
            None => None,
        },
        winner_bot: c.winner_bot,
    }
}

/// The state of a game as the referee sees it.
pub struct RefereeModel {
    /// The bots the game was scheduled between.
    pub white_id: u128,
    pub black_id: u128,
    pub white_name: Seq<char>,
    pub black_name: Seq<char>,
    /// The database ids of the two running workers.
    pub white_worker: Option<u128>,
    pub black_worker: Option<u128>,
    /// The current position, as FEN.
    pub fen: Seq<char>,
    /// The moves played so far, in SAN.
    pub moves: Seq<Seq<char>>,
    /// The same moves, in UCI, as the workers sent them.
    pub ucis: Seq<Seq<char>>,
    /// Whether the white worker is the one to answer next.
    pub white_to_play: bool,
    /// Whether the game has been concluded.
    pub over: bool,
}

/// The worker whose answer is awaited.
pub open spec fn current_worker(m: RefereeModel) -> Option<u128> {
    if m.white_to_play {
        m.white_worker
    } else {
        m.black_worker
    }
}

/// The conclusion when the awaited worker fails with `reason`: its opponent
/// wins, and the record keeps the moves played so far.
pub open spec fn failure_conclusion(m: RefereeModel, reason: MatchEndReason, message: Seq<char>) -> ConclusionModel {
    let white_failed = current_worker(m) == Some(m.white_id);
    let color = if white_failed { "black"@ } else { "white"@ };
    ConclusionModel {
        winner_color: Some(color),
        win_reason: reason_code(reason),
        pgn: pgn_text(m.white_name, m.black_name, result_tag(Some(color)), m.moves),
        error_message: Some(message),
        winner_bot: Some(if white_failed { m.black_id } else { m.white_id }),
    }
}

/// The conclusion when the position has a known outcome.
pub open spec fn outcome_conclusion(m: RefereeModel, o: GameOutcome) -> ConclusionModel {
    match o {
        GameOutcome::WhiteWins => ConclusionModel {
            winner_color: Some("white"@),
            win_reason: reason_code(MatchEndReason::Checkmate),
            pgn: pgn_text(m.white_name, m.black_name, "1-0"@, m.moves),
            error_message: None,
            winner_bot: Some(m.white_id),
        },
        GameOutcome::BlackWins => ConclusionModel {
            winner_color: Some("black"@),
            win_reason: reason_code(MatchEndReason::Checkmate),
            pgn: pgn_text(m.white_name, m.black_name, "0-1"@, m.moves),
            error_message: None,
            winner_bot: Some(m.black_id),
        },
        _ => ConclusionModel {
            winner_color: None,
            win_reason: reason_code(MatchEndReason::Draw),
            pgn: pgn_text(m.white_name, m.black_name, "1/2-1/2"@, m.moves),
            error_message: None,
            winner_bot: None,
        },
    }
}

/// Whose turn comes after the awaited worker has moved: black after the white
/// bot, white otherwise.
pub open spec fn next_white_to_play(m: RefereeModel) -> bool {
    !(current_worker(m) == Some(m.white_id))
}

/// The workers of a game are the bots it was scheduled between, and these
/// are two different bots.
pub open spec fn seated(m: RefereeModel) -> bool {
    &&& m.white_worker == Some(m.white_id)
    &&& m.black_worker == Some(m.black_id)
    &&& m.white_id != m.black_id
}

/// Every record of a finished game agrees with itself: the PGN carries the
/// result tag of the recorded winning colour, and the bot published as the
/// winner is the one that played that colour (none for a draw).
pub proof fn lemma_conclusions_agree(m: RefereeModel, o: GameOutcome, reason: MatchEndReason, message: Seq<char>)
    requires
        o != GameOutcome::Ongoing,
    ensures
        ({
            let c = outcome_conclusion(m, o);
            &&& c.pgn == pgn_text(m.white_name, m.black_name, result_tag(c.winner_color), m.moves)
            &&& c.winner_color == Some(white_word()) ==> c.winner_bot == Some(m.white_id)
            &&& c.winner_color == Some(black_word()) ==> c.winner_bot == Some(m.black_id)
            &&& c.winner_color is None <==> c.winner_bot is None
        }),
        ({
            let c = failure_conclusion(m, reason, message);
            &&& c.pgn == pgn_text(m.white_name, m.black_name, result_tag(c.winner_color), m.moves)
            &&& c.winner_color == Some(white_word()) ==> c.winner_bot == Some(m.white_id)
            &&& c.winner_color == Some(black_word()) ==> c.winner_bot == Some(m.black_id)
            &&& c.winner_color is Some && c.winner_bot is Some
        }),
{
    reveal_strlit("white");
    reveal_strlit("black");
    reveal_strlit("1-0");
    reveal_strlit("0-1");
    assert("white"@ =~= white_word());
    assert("black"@ =~= black_word());
}

/// A worker that fails loses the game: with both workers seated, a failure
/// of the worker to move gives the game to the other colour and its bot.
pub proof fn lemma_failing_side_loses(m: RefereeModel, reason: MatchEndReason, message: Seq<char>)
    requires
        seated(m),
    ensures
        m.white_to_play ==> failure_conclusion(m, reason, message).winner_color == Some(
            "black"@,
        ) && failure_conclusion(m, reason, message).winner_bot == Some(m.black_id),
        !m.white_to_play ==> failure_conclusion(m, reason, message).winner_color == Some(
            "white"@,
        ) && failure_conclusion(m, reason, message).winner_bot == Some(m.white_id),
{
}

/// With both workers seated, the turn passes to the other worker after each
/// move.
pub proof fn lemma_turns_alternate(m: RefereeModel)
    requires
        seated(m),
    ensures
        next_white_to_play(m) == !m.white_to_play,
{
}

/// How a decided position ends the game: a win for either colour is a
/// checkmate won by that colour's bot, with result `1-0` or `0-1`; a drawn
/// position is a draw with no winner and result `1/2-1/2`.
pub proof fn lemma_outcome_reasons(m: RefereeModel)
    ensures
        outcome_conclusion(m, GameOutcome::WhiteWins).win_reason == "checkmate"@,
        outcome_conclusion(m, GameOutcome::WhiteWins).winner_color == Some("white"@),
        outcome_conclusion(m, GameOutcome::WhiteWins).winner_bot == Some(m.white_id),
        outcome_conclusion(m, GameOutcome::WhiteWins).pgn == pgn_text(m.white_name, m.black_name, "1-0"@, m.moves),
        outcome_conclusion(m, GameOutcome::BlackWins).win_reason == "checkmate"@,
        outcome_conclusion(m, GameOutcome::BlackWins).winner_color == Some("black"@),
        outcome_conclusion(m, GameOutcome::BlackWins).winner_bot == Some(m.black_id),
        outcome_conclusion(m, GameOutcome::BlackWins).pgn == pgn_text(m.white_name, m.black_name, "0-1"@, m.moves),
        outcome_conclusion(m, GameOutcome::Draw).win_reason == "draw"@,
        outcome_conclusion(m, GameOutcome::Draw).winner_color is None,
        outcome_conclusion(m, GameOutcome::Draw).winner_bot is None,
        outcome_conclusion(m, GameOutcome::Draw).pgn == pgn_text(m.white_name, m.black_name, "1/2-1/2"@, m.moves),
{
}

/// What is published when a game is over: the status naming the winning
/// bot (empty for a draw), and the final event naming the winning colour
/// (empty for a draw) and the reason.
pub fn finished_messages(c: &MatchConclusion) -> (r: (MatchStatus, MatchEvent))
    ensures
        r.0 matches MatchStatus::Finished { winner } && winner@ == match c.winner_bot {
            Some(b) => uuid_text(b),
            None => Seq::empty(),
        },
        r.1 matches MatchEvent::Finished { winner, reason } && winner@ == match c.winner_color {
            Some(w) => w@,
            None => Seq::empty(),
        } && reason@ == c.win_reason@,
{
    let winner = match c.winner_bot {
        Some(b) => uuid_to_string(b),
        None => String::new(),
    };
    let color = match c.winner_color {
        Some(w) => String::from_str(w),
        None => String::new(),
    };
    (
        MatchStatus::Finished { winner },
        MatchEvent::Finished { winner: color, reason: String::from_str(c.win_reason) },
    )
}

/// A refereed game is a legal game: every move accepted was legal where it
/// was played, the position is the one those moves reach from the start,
/// and the PGN of any conclusion lists their SAN, in order.
pub proof fn lemma_game_is_legal(r: &Referee, o: GameOutcome, reason: MatchEndReason, message: Seq<char>)
    requires
        r.wf(),
    ensures
        legal_line(start_fen(), r@.ucis),
        replay(start_fen(), r@.ucis) == r@.fen,
        r@.moves.len() == r@.ucis.len(),
        failure_conclusion(r@, reason, message).pgn == pgn_text(
            r@.white_name,
            r@.black_name,
            result_tag(failure_conclusion(r@, reason, message).winner_color),
            san_line(start_fen(), r@.ucis),
        ),
        outcome_conclusion(r@, o).pgn == pgn_text(
            r@.white_name,
            r@.black_name,
            match o {
                GameOutcome::WhiteWins => "1-0"@,
                GameOutcome::BlackWins => "0-1"@,
                _ => "1/2-1/2"@,
            },
            san_line(start_fen(), r@.ucis),
        ),
{
    lemma_san_line_len(start_fen(), r@.ucis);
}

/// Each worker is asked to move only in positions where its own colour is to
/// move: in every state that the referee's operations reach (they all keep
/// `wf`), with both workers seated, the position names the side of the
/// awaited worker as the side to move.
pub proof fn lemma_mover_gets_own_side(r: &Referee)
    requires
        r.wf(),
        seated(r@),
    ensures
        fen_side(r@.fen) == Some(r@.white_to_play),
{
}

/// One SAN per move.
pub proof fn lemma_san_line_len(start: Seq<char>, ucis: Seq<Seq<char>>)
    ensures
        san_line(start, ucis).len() == ucis.len(),
    decreases ucis.len(),
{
    if ucis.len() > 0 {
        lemma_san_line_len(start, ucis.drop_last());
    }
}

/// What the referee asks for at the start of a turn.
#[derive(Debug, PartialEq, Eq)]
pub enum Turn {
    /// Send this position to the worker to move and read its move.
    AskMove { fen: String, white: bool },
    /// The game is over.
    Ended(MatchConclusion),
}

/// What follows a move from a worker.
#[derive(Debug, PartialEq, Eq)]
pub enum MoveResult {
    /// The move was legal and has been played; publish the event.
    Played(MatchEvent),
    /// The move ended the game against the worker that sent it.
    Ended(MatchConclusion),
}

/// The conclusion a move result carries, if the game ended.
pub open spec fn ended(r: MoveResult) -> Option<ConclusionModel> {
    match r {
        MoveResult::Ended(c) => Some(conclusion_view(c)),
        _ => None,
    }
}

/// The SAN, new position and number of the move a result publishes, if one
/// was played.
pub open spec fn played(r: MoveResult) -> Option<(Seq<char>, Seq<char>, u32)> {
    match r {
        MoveResult::Played(MatchEvent::Move { san, fen, move_number }) => Some(
            (san@, fen@, move_number),
        ),
        _ => None,
    }
}

/// Referee of one game.
pub struct Referee {
    white_id: u128,
    black_id: u128,
    white_name: String,
    black_name: String,
    white_worker: Option<u128>,
    black_worker: Option<u128>,
    fen: String,
    moves: Vec<String>,
    ucis: Ghost<Seq<Seq<char>>>,
    white_to_play: bool,
    over: bool,
}

impl View for Referee {
    type V = RefereeModel;

    closed spec fn view(&self) -> RefereeModel {
        RefereeModel {
            white_id: self.white_id,
            black_id: self.black_id,
            white_name: self.white_name@,
            black_name: self.black_name@,
            white_worker: self.white_worker,
            black_worker: self.black_worker,
            fen: self.fen@,
            moves: texts(self.moves@),
            ucis: self.ucis@,
            white_to_play: self.white_to_play,
            over: self.over,
        }
    }
}

impl Referee {
    /// The referee's invariant: the game so far is a legal game from the
    /// starting position, the position is the one it reached, and the SAN
    /// record lists its moves; with both workers seated, the side to move in
    /// the position is the colour of the awaited worker.
    pub open spec fn wf(&self) -> bool {
        let m = self@;
        &&& fen_outcome(m.fen) is Some
        &&& legal_line(start_fen(), m.ucis)
        &&& m.fen == replay(start_fen(), m.ucis)
        &&& m.moves == san_line(start_fen(), m.ucis)
        &&& seated(m) ==> fen_side(m.fen) == Some(m.white_to_play)
    }

    /// A game from the starting position, white to move.
    pub fn new(
        white_id: u128,
        black_id: u128,
        white_name: String,
        black_name: String,
        white_worker: Option<u128>,
        black_worker: Option<u128>,
    ) -> (r: Referee)
        ensures
            r.wf(),
            r@ == (RefereeModel {
                white_id,
                black_id,
                white_name: white_name@,
                black_name: black_name@,
                white_worker,
                black_worker,
                fen: start_fen(),
                moves: Seq::empty(),
                ucis: Seq::empty(),
                white_to_play: true,
                over: false,
            }),
    {
        let r = Referee {
            white_id,
            black_id,
            white_name,
            black_name,
            white_worker,
            black_worker,
            fen: start_position(),
            moves: Vec::new(),
            ucis: Ghost(Seq::empty()),
            white_to_play: true,
            over: false,
        };
        assert(texts(r.moves@) =~= Seq::empty());
        proof {
            lemma_start_side();
        }
        r
    }

    /// The record of a game that the awaited worker lost.
    fn fail(&mut self, reason: MatchEndReason, message: String) -> (c: MatchConclusion)
        ensures
            conclusion_view(c) == failure_conclusion(old(self)@, reason, message@),
            final(self)@ == (RefereeModel { over: true, ..old(self)@ }),
            final(self).wf() == old(self).wf(),
    {
        let current = if self.white_to_play {
            self.white_worker
        } else {
            self.black_worker
        };
        let (color, winner) = bot_failure_winner(current, self.white_id, self.black_id);
        let pgn = build_pgn(
            self.white_name.as_str(),
            self.black_name.as_str(),
            result_for_color(Some(color)),
            self.moves.as_slice(),
        );
        self.over = true;
        MatchConclusion {
            winner_color: Some(color),
            win_reason: reason.as_str(),
            pgn,
            error_message: Some(message),
            winner_bot: Some(winner),
        }
    }

    /// The record of a worker that failed before play began: the message
    /// stored with the game, naming the bot, and the status published.
    pub fn load_failure(&self, worker: Option<u128>, reason: MatchEndReason, error: &str) -> (r: (
        String,
        MatchStatus,
    ))
        ensures
            r.0@ == "Bot: "@ + (if worker == Some(self@.white_id) {
                self@.white_name
            } else {
                self@.black_name
            }) + " failed to load: "@ + reason_code(reason) + " : "@ + error@,
            r.1 matches MatchStatus::Failed { reason: code } && code@ == reason_code(reason),
    {
        let name = if worker == Some(self.white_id) {
            self.white_name.as_str()
        } else {
            self.black_name.as_str()
        };
        let mut message = String::from_str("Bot: ");
        push_str(&mut message, name);
        push_str(&mut message, " failed to load: ");
        push_str(&mut message, reason.as_str());
        push_str(&mut message, " : ");
        push_str(&mut message, error);
        (message, MatchStatus::Failed { reason: String::from_str(reason.as_str()) })
    }

    /// The position could not be sent to the awaited worker: it loses.
    pub fn write_failed(&mut self) -> (c: MatchConclusion)
        requires
            !old(self)@.over,
        ensures
            conclusion_view(c) == failure_conclusion(
                old(self)@,
                MatchEndReason::WriteError,
                "failed to write position to bot"@,
            ),
            final(self)@ == (RefereeModel { over: true, ..old(self)@ }),
            final(self).wf() == old(self).wf(),
    {
        self.fail(MatchEndReason::WriteError, String::from_str("failed to write position to bot"))
    }

    /// No move could be read from the awaited worker (it exited, wrote an
    /// error, or took too long): it loses, with `reason` as the message.
    pub fn read_failed(&mut self, reason: String) -> (c: MatchConclusion)
        requires
            !old(self)@.over,
        ensures
            conclusion_view(c) == failure_conclusion(old(self)@, MatchEndReason::Timeout, reason@),
            final(self)@ == (RefereeModel { over: true, ..old(self)@ }),
            final(self).wf() == old(self).wf(),
    {
        self.fail(MatchEndReason::Timeout, reason)
    }

    /// The awaited worker answered `uci`. Unparseable notation and illegal
    /// moves lose the game; a legal move is played, recorded in SAN and
    /// published with the new position and its number, and the turn passes.
    pub fn move_received(&mut self, uci: &str) -> (r: MoveResult)
        requires
            old(self).wf(),
            !old(self)@.over,
        ensures
            final(self).wf(),
            ({
                let m = old(self)@;
                let u = trimmed(uci@);
                if !uci_parses(u) {
                    &&& final(self)@ == (RefereeModel { over: true, ..m })
                    &&& ended(r) == Some(
                        failure_conclusion(m, MatchEndReason::InvalidOutput, "unparseable move: "@ + u),
                    )
                } else if !uci_is_legal(m.fen, u) {
                    &&& final(self)@ == (RefereeModel { over: true, ..m })
                    &&& ended(r) == Some(
                        failure_conclusion(m, MatchEndReason::IllegalMove, "illegal move: "@ + u),
                    )
                } else {
                    let san = uci_san(m.fen, u);
                    let fen = uci_fen_after(m.fen, u);
                    let moves = m.moves.push(san);
                    &&& final(self)@ == (RefereeModel {
                        fen,
                        moves,
                        ucis: m.ucis.push(u),
                        white_to_play: next_white_to_play(m),
                        ..m
                    })
                    &&& played(r) == Some((san, fen, moves.len() as u32))
                }
            }),
    {
        let cs = chars_of(uci);
        assert(cs@.subrange(0, cs@.len() as int) =~= cs@);
        let (a, b) = trim_bounds(&cs, 0, cs.len());
        let u = string_of_range(&cs, a, b);
        if !uci_well_formed(u.as_str()) {
            let mut msg = String::from_str("unparseable move: ");
            push_str(&mut msg, u.as_str());
            return MoveResult::Ended(self.fail(MatchEndReason::InvalidOutput, msg));
        }
        if !uci_legal(self.fen.as_str(), u.as_str()) {
            let mut msg = String::from_str("illegal move: ");
            push_str(&mut msg, u.as_str());
            return MoveResult::Ended(self.fail(MatchEndReason::IllegalMove, msg));
        }
        let san = move_san(self.fen.as_str(), u.as_str());
        let next = fen_after_move(self.fen.as_str(), u.as_str());
        let ghost old_moves = self.moves@;
        let ghost old_ucis = self.ucis@;
        proof {
            lemma_line_push(start_fen(), old_ucis, u@);
        }
        self.moves.push(san.clone());
        assert(texts(self.moves@) =~= texts(old_moves).push(san@));
        self.ucis = Ghost(old_ucis.push(u@));
        self.fen = next.clone();
        let current = if self.white_to_play {
            self.white_worker
        } else {
            self.black_worker
        };
        self.white_to_play = !(current == Some(self.white_id));
        MoveResult::Played(MatchEvent::Move { san, fen: next, move_number: self.moves.len() as u32 })
    }

    /// Start of a turn: the game is over when the position has an outcome
    /// (checkmate, or a draw); otherwise the awaited worker must move.
    pub fn next_turn(&mut self) -> (t: Turn)
        requires
            old(self).wf(),
            !old(self)@.over,
        ensures
            final(self).wf(),
            match fen_outcome(old(self)@.fen) {
                Some(GameOutcome::Ongoing) => final(self)@ == old(self)@ && t == (Turn::AskMove {
                    fen: t->fen,
                    white: old(self)@.white_to_play,
                }) && t->fen@ == old(self)@.fen,
                Some(o) => final(self)@ == (RefereeModel { over: true, ..old(self)@ }) && (
                t matches Turn::Ended(c) && conclusion_view(c) == outcome_conclusion(
                    old(self)@,
                    o,
                )),
                None => false,
            },
            seated(old(self)@) && t is AskMove ==> fen_side(t->fen@) == Some(t->white),
            t matches Turn::Ended(c) ==> match fen_outcome(old(self)@.fen) {
                Some(GameOutcome::WhiteWins) => c.win_reason@ == "checkmate"@ && c.winner_bot == Some(
                    old(self)@.white_id,
                ) && c.winner_color.unwrap()@ == "white"@ && c.winner_color is Some,
                Some(GameOutcome::BlackWins) => c.win_reason@ == "checkmate"@ && c.winner_bot == Some(
                    old(self)@.black_id,
                ) && c.winner_color.unwrap()@ == "black"@ && c.winner_color is Some,
                _ => c.win_reason@ == "draw"@ && c.winner_bot is None && c.winner_color is None,
            },
    {
        proof {
            lemma_outcome_reasons(old(self)@);
        }
        let outcome = position_outcome(self.fen.as_str());
        match outcome {
            Some(GameOutcome::Ongoing) => Turn::AskMove { fen: self.fen.clone(), white: self.white_to_play },
            Some(GameOutcome::WhiteWins) => {
                self.over = true;
                let pgn = build_pgn(
                    self.white_name.as_str(),
                    self.black_name.as_str(),
                    "1-0",
                    self.moves.as_slice(),
                );
                Turn::Ended(
                    MatchConclusion {
                        winner_color: Some("white"),
                        win_reason: MatchEndReason::Checkmate.as_str(),
                        pgn,
                        error_message: None,
                        winner_bot: Some(self.white_id),
                    },
                )
            },
            Some(GameOutcome::BlackWins) => {
                self.over = true;
                let pgn = build_pgn(
                    self.white_name.as_str(),
                    self.black_name.as_str(),
                    "0-1",
                    self.moves.as_slice(),
                );
                Turn::Ended(
                    MatchConclusion {
                        winner_color: Some("black"),
                        win_reason: MatchEndReason::Checkmate.as_str(),
                        pgn,
                        error_message: None,
                        winner_bot: Some(self.black_id),
                    },
                )
            },
            Some(GameOutcome::Draw) => {
                self.over = true;
                let pgn = build_pgn(
                    self.white_name.as_str(),
                    self.black_name.as_str(),
                    "1/2-1/2",
                    self.moves.as_slice(),
                );
                Turn::Ended(
                    MatchConclusion {
                        winner_color: None,
                        win_reason: MatchEndReason::Draw.as_str(),
                        pgn,
                        error_message: None,
                        winner_bot: None,
                    },
                )
            },
            None => {
                proof {
                    assert(false);
                }
                Turn::AskMove { fen: self.fen.clone(), white: self.white_to_play }
            },
        }
    }
}

} // verus!
