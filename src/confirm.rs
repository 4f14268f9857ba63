//! The three-step operator confirmation that must complete before any
//! destructive command may run.

use vstd::prelude::*;
use crate::text::{same_text, trim, trimmed};

verus! {

/// Why a confirmation attempt was aborted.
#[derive(Debug, Clone, Copy, PartialEq, Eq, Structural)]
pub enum ConfirmationFailed {
    /// The echoed path differs from the device path.
    PathMismatch,
    /// The `ERASE` token was not given at the numbered step (1 or 2).
    TokenMissing(u8),
}

/// Where a confirmation attempt stands.
#[derive(Debug, Clone, Copy, PartialEq, Eq, Structural)]
pub enum ConfirmationState {
    AwaitingPathEcho,
    AwaitingFirstErase,
    AwaitingSecondErase,
    Confirmed,
    Aborted(ConfirmationFailed),
}

/// The token the operator must type, twice.
pub open spec fn erase_token() -> Seq<char> {
    "ERASE"@
}

pub open spec fn is_terminal(s: ConfirmationState) -> bool {
    s is Confirmed || s is Aborted
}

/// One step of the protocol for the device path `target`, on the operator's
/// line `answer`. A finished attempt never moves again.
pub open spec fn next_state(s: ConfirmationState, target: Seq<char>, answer: Seq<char>) -> ConfirmationState {
    let a = trimmed(answer);
    match s {
        ConfirmationState::AwaitingPathEcho => if a == target {
            ConfirmationState::AwaitingFirstErase
        } else {
            ConfirmationState::Aborted(ConfirmationFailed::PathMismatch)
        },
        ConfirmationState::AwaitingFirstErase => if a == erase_token() {
            ConfirmationState::AwaitingSecondErase
        } else {
            ConfirmationState::Aborted(ConfirmationFailed::TokenMissing(1))
        },
        ConfirmationState::AwaitingSecondErase => if a == erase_token() {
            ConfirmationState::Confirmed
        } else {
            ConfirmationState::Aborted(ConfirmationFailed::TokenMissing(2))
        },
        _ => s,
    }
}

/// The state reached from `s` after the lines `answers`, in order.
pub open spec fn run_answers(s: ConfirmationState, target: Seq<char>, answers: Seq<Seq<char>>) -> ConfirmationState
    decreases answers.len(),
{
    if answers.len() == 0 {
        s
    } else {
        run_answers(next_state(s, target, answers[0]), target, answers.drop_first())
    }
}

/// One confirmation attempt for one device path.
pub struct ConfirmationProtocol {
    device: String,
    state: ConfirmationState,
}

impl View for ConfirmationProtocol {
    type V = ConfirmationState;

    closed spec fn view(&self) -> ConfirmationState {
        self.state
    }
}

impl ConfirmationProtocol {
    /// The device path the operator must echo.
    pub closed spec fn target(&self) -> Seq<char> {
        self.device@
    }

    /// A fresh attempt, waiting for the path echo.
    pub fn new(device: &str) -> (r: ConfirmationProtocol)
        ensures
            r@ == ConfirmationState::AwaitingPathEcho,
            r.target() == device@,
    {
        ConfirmationProtocol { device: String::from_str(device), state: ConfirmationState::AwaitingPathEcho }
    }

    pub fn state(&self) -> (r: ConfirmationState)
        ensures
            r == self@,
    {
        self.state
    }

    pub fn is_finished(&self) -> (r: bool)
        ensures
            r == is_terminal(self@),
    {
        matches!(self.state, ConfirmationState::Confirmed | ConfirmationState::Aborted(_))
    }

    /// The text shown to the operator before reading the next line, or
    /// `None` once the attempt is finished.
    pub fn prompt(&self) -> (r: Option<&'static str>)
        ensures
            r is None <==> is_terminal(self@),
    {
        match self.state {
            ConfirmationState::AwaitingPathEcho => Some("Tapez le chemin EXACT du périphérique pour confirmer: "),
            ConfirmationState::AwaitingFirstErase => Some("Tapez 'ERASE' en MAJUSCULE pour confirmer (1/2): "),
            ConfirmationState::AwaitingSecondErase => Some("Retapez 'ERASE' pour confirmer (2/2): "),
            _ => None,
        }
    }

    /// Feeds one operator line to the attempt. Leading and trailing white
    /// space of the line is ignored; the rest must match exactly.
    pub fn respond(&mut self, line: &str)
        ensures
            final(self)@ == next_state(old(self)@, old(self).target(), line@),
            final(self).target() == old(self).target(),
    {
        let answer = trim(line);
        let next = match self.state {
            ConfirmationState::AwaitingPathEcho => if same_text(answer, self.device.as_str()) {
                ConfirmationState::AwaitingFirstErase
            } else {
                ConfirmationState::Aborted(ConfirmationFailed::PathMismatch)
            },
            ConfirmationState::AwaitingFirstErase => if same_text(answer, "ERASE") {
                ConfirmationState::AwaitingSecondErase
            } else {
                ConfirmationState::Aborted(ConfirmationFailed::TokenMissing(1))
            },
            ConfirmationState::AwaitingSecondErase => if same_text(answer, "ERASE") {
                ConfirmationState::Confirmed
            } else {
                ConfirmationState::Aborted(ConfirmationFailed::TokenMissing(2))
            },
            other => other,
        };
        self.state = next;
    }
}

/// A finished attempt stays where it is, whatever lines follow.
pub proof fn lemma_terminal_absorbs(s: ConfirmationState, target: Seq<char>, answers: Seq<Seq<char>>)
    requires
        is_terminal(s),
    ensures
        run_answers(s, target, answers) == s,
    decreases answers.len(),
{
    if answers.len() > 0 {
        lemma_terminal_absorbs(next_state(s, target, answers[0]), target, answers.drop_first());
    }
}

/// A wrong path echo at the first step aborts the attempt: no sequence of
/// later lines, of any length, reaches the `ERASE` steps or confirmation.
pub proof fn path_mismatch_never_confirms(target: Seq<char>, answers: Seq<Seq<char>>, k: int)
    requires
        answers.len() > 0,
        trimmed(answers[0]) != target,
        1 <= k <= answers.len(),
    ensures
        run_answers(ConfirmationState::AwaitingPathEcho, target, answers.take(k))
            == ConfirmationState::Aborted(ConfirmationFailed::PathMismatch),
{
    let prefix = answers.take(k);
    let aborted = ConfirmationState::Aborted(ConfirmationFailed::PathMismatch);
    assert(prefix[0] == answers[0]);
    assert(next_state(ConfirmationState::AwaitingPathEcho, target, prefix[0]) == aborted);
    lemma_terminal_absorbs(aborted, target, prefix.drop_first());
}

} // verus!
