//! Validation of a newly submitted bot: the bot plays both sides of a game
//! from the starting position for at most twenty moves, and passes when
//! every move it sends is well-formed and legal.

use vstd::prelude::*;
use crate::chess::{
    fen_after_move, fen_outcome, legal_line, position_outcome, replay, start_fen, start_position,
    uci_fen_after, uci_is_legal, uci_legal, uci_parses, uci_well_formed, GameOutcome,
};
use crate::models::ValidationStatus;
use crate::text::{chars_of, push_str, string_of_range, trim_bounds, trimmed};

verus! {

/// Most moves asked of a bot during validation.
pub const MAX_VALIDATION_MOVES: usize = 20;

/// The state of a validation run.
pub struct ValidationModel {
    /// The current position, as FEN.
    pub fen: Seq<char>,
    /// Moves asked of the bot so far.
    pub rounds: nat,
    /// Why the bot failed, once it has.
    pub failure: Option<Seq<char>>,
    /// The moves of the bot that were played, in UCI.
    pub accepted: Seq<Seq<char>>,
    /// Whether a move has been asked for and not yet answered.
    pub awaiting: bool,
}

/// What the validation asks for next.
#[derive(Debug, PartialEq, Eq)]
pub enum ValidationStep {
    /// Send this position to the bot and read its move.
    AskMove { fen: String },
    /// The run is over; its verdict is final.
    Finished,
}

/// A validation run.
pub struct Validation {
    fen: String,
    rounds: usize,
    failure: Option<String>,
    accepted: Ghost<Seq<Seq<char>>>,
    awaiting: bool,
}

impl View for Validation {
    type V = ValidationModel;

    closed spec fn view(&self) -> ValidationModel {
        ValidationModel {
            fen: self.fen@,
            rounds: self.rounds as nat,
            failure: match self.failure {
                Some(f) => Some(f@),
                None => None,
            },
            accepted: self.accepted@,
            awaiting: self.awaiting,
        }
    }
}

impl Validation {
    /// The invariant of a run: the position is the one the accepted moves
    /// lead to from the start, each of them legal; a bot that has not failed
    /// had each answered move accepted; at most twenty moves are asked.
    pub open spec fn wf(&self) -> bool {
        let m = self@;
        &&& m.fen == replay(start_fen(), m.accepted)
        &&& legal_line(start_fen(), m.accepted)
        &&& fen_outcome(m.fen) is Some
        &&& m.rounds <= MAX_VALIDATION_MOVES
        &&& m.accepted.len() <= m.rounds
        &&& m.failure is None && !m.awaiting ==> m.accepted.len() == m.rounds
        &&& m.failure is None && m.awaiting ==> m.accepted.len() + 1 == m.rounds
    }

    /// A run from the starting position.
    pub fn new() -> (v: Validation)
        ensures
            v.wf(),
            v@ == (ValidationModel {
                fen: start_fen(),
                rounds: 0,
                failure: None,
                accepted: Seq::empty(),
                awaiting: false,
            }),
    {
        Validation {
            fen: start_position(),
            rounds: 0,
            failure: None,
            accepted: Ghost(Seq::empty()),
            awaiting: false,
        }
    }

    /// The next request: a move while the bot has not failed, the game is not
    /// over and fewer than twenty moves were asked; otherwise the end.
    pub fn next_step(&mut self) -> (s: ValidationStep)
        requires
            old(self).wf(),
            !old(self)@.awaiting,
        ensures
            final(self).wf(),
            ({
                let m = old(self)@;
                if m.rounds < MAX_VALIDATION_MOVES && m.failure is None && fen_outcome(m.fen) == Some(
                    GameOutcome::Ongoing,
                ) {
                    &&& final(self)@ == (ValidationModel { rounds: m.rounds + 1, awaiting: true, ..m })
                    &&& s matches ValidationStep::AskMove { fen } && fen@ == m.fen
                } else {
                    &&& final(self)@ == m
                    &&& s == ValidationStep::Finished
                }
            }),
    {
        if self.rounds >= MAX_VALIDATION_MOVES || self.failure.is_some() {
            return ValidationStep::Finished;
        }
        match position_outcome(self.fen.as_str()) {
            Some(GameOutcome::Ongoing) => {
                self.rounds = self.rounds + 1;
                self.awaiting = true;
                ValidationStep::AskMove { fen: self.fen.clone() }
            },
            _ => ValidationStep::Finished,
        }
    }

    fn fail(&mut self, reason: String)
        requires
            old(self).wf(),
            old(self)@.failure is None,
        ensures
            final(self).wf(),
            final(self)@ == (ValidationModel {
                failure: Some(reason@),
                awaiting: false,
                ..old(self)@
            }),
    {
        self.failure = Some(reason);
        self.awaiting = false;
    }

    /// The position could not be sent to the bot.
    pub fn write_failed(&mut self)
        requires
            old(self).wf(),
            old(self)@.failure is None,
        ensures
            final(self).wf(),
            final(self)@ == (ValidationModel {
                failure: Some("failed to write data for next move"@),
                awaiting: false,
                ..old(self)@
            }),
    {
        self.fail(String::from_str("failed to write data for next move"));
    }

    /// No move could be read from the bot; `reason` says why.
    pub fn read_failed(&mut self, reason: String)
        requires
            old(self).wf(),
            old(self)@.failure is None,
        ensures
            final(self).wf(),
            final(self)@ == (ValidationModel {
                failure: Some(reason@),
                awaiting: false,
                ..old(self)@
            }),
    {
        self.fail(reason);
    }

    /// The bot answered `uci` to the last request: a legal move is played,
    /// anything else fails the bot.
    pub fn move_received(&mut self, uci: &str)
        requires
            old(self).wf(),
            old(self)@.failure is None,
            old(self)@.awaiting,
        ensures
            final(self).wf(),
            ({
                let m = old(self)@;
                let u = trimmed(uci@);
                if !uci_parses(u) {
                    final(self)@ == (ValidationModel {
                        failure: Some("unparseable move from bot: "@ + u),
                        awaiting: false,
                        ..m
                    })
                } else if !uci_is_legal(m.fen, u) {
                    final(self)@ == (ValidationModel {
                        failure: Some("invalid move from bot: "@ + u),
                        awaiting: false,
                        ..m
                    })
                } else {
                    final(self)@ == (ValidationModel {
                        fen: uci_fen_after(m.fen, u),
                        accepted: m.accepted.push(u),
                        awaiting: false,
                        ..m
                    })
                }
            }),
    {
        let cs = chars_of(uci);
        assert(cs@.subrange(0, cs@.len() as int) =~= cs@);
        let (a, b) = trim_bounds(&cs, 0, cs.len());
        let u = string_of_range(&cs, a, b);
        if !uci_well_formed(u.as_str()) {
            let mut msg = String::from_str("unparseable move from bot: ");
            push_str(&mut msg, u.as_str());
            self.fail(msg);
            return;
        }
        if !uci_legal(self.fen.as_str(), u.as_str()) {
            let mut msg = String::from_str("invalid move from bot: ");
            push_str(&mut msg, u.as_str());
            self.fail(msg);
            return;
        }
        let next = fen_after_move(self.fen.as_str(), u.as_str());
        let ghost old_accepted = self.accepted@;
        self.fen = next;
        self.accepted = Ghost(old_accepted.push(u@));
        self.awaiting = false;
        assert(self.accepted@.drop_last() =~= old_accepted);
    }

    /// Why the bot failed, or `None` when every move it was asked for was legal.
    pub fn failure(&self) -> (f: Option<String>)
        ensures
            match f {
                Some(s) => self@.failure == Some(s@),
                None => self@.failure is None,
            },
    {
        self.failure.clone()
    }
}


/// A run that ended without a failure saw only legal moves from the bot:
/// replayed from the starting position they reach the current position, and
/// every move asked for was answered.
pub proof fn lemma_passing_run_played_legal_game(v: &Validation)
    requires
        v.wf(),
        v@.failure is None,
        !v@.awaiting,
    ensures
        legal_line(start_fen(), v@.accepted),
        replay(start_fen(), v@.accepted) == v@.fen,
        v@.accepted.len() == v@.rounds,
        v@.rounds <= MAX_VALIDATION_MOVES,
{
}

/// The status published for a bot that passed, from the update that marks it
/// valid (which only matches while its code is unchanged): one row updated
/// validates it, none means the bot is gone or was changed meanwhile.
pub fn mark_valid_status(update: Result<u64, String>) -> (s: ValidationStatus)
    ensures
        match update {
            Ok(1) => s == ValidationStatus::Validated,
            Ok(_) => s matches ValidationStatus::Failed { reason } && reason@ == "No such bot exists"@,
            Err(e) => s matches ValidationStatus::Failed { reason } && reason@ == e@,
        },
{
    match update {
        Ok(n) => {
            if n == 1 {
                ValidationStatus::Validated
            } else {
                ValidationStatus::Failed { reason: String::from_str("No such bot exists") }
            }
        },
        Err(e) => ValidationStatus::Failed { reason: e },
    }
}

} // verus!
