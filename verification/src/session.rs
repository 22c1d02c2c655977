//! The dialogue as a state machine: each line of input moves it one step and
//! says what is to be shown next.

use crate::charset::charset_of;
use crate::generate::{drawn_from, generate_password};
use crate::input::{answer_of_line, length_of_line, parse_length, parse_yes_no};
use crate::randomness::{
    check_password_randomness, randomness_of, unique_count, unique_count_bounds, Randomness,
};
use crate::strength::{password_strength, strength_of, Strength};
use vstd::prelude::*;

verus! {

/// Which categories join the lowercase letters in the pool.
#[derive(Clone, Copy, Debug, PartialEq, Eq, Structural)]
pub struct Categories {
    pub include_uppercase: bool,
    pub include_numbers: bool,
    pub include_special: bool,
}

impl Categories {
    /// All three categories enabled.
    pub fn all() -> (categories: Categories)
        ensures
            categories == (Categories {
                include_uppercase: true,
                include_numbers: true,
                include_special: true,
            }),
    {
        Categories { include_uppercase: true, include_numbers: true, include_special: true }
    }

    /// The pool that these categories assemble.
    pub open spec fn charset(self) -> Seq<char> {
        charset_of(self.include_uppercase, self.include_numbers, self.include_special)
    }
}

/// Where the dialogue stands between two lines of input.
#[derive(Clone, Copy, Debug, PartialEq, Eq, Structural)]
pub enum State {
    /// Waiting for a password length.
    PromptLength,
    /// Waiting for the answer to whether another password is wanted.
    PromptRepeat,
    /// The dialogue is over.
    Terminated,
}

/// A password with its two quality signals.
#[derive(Debug)]
pub struct Report {
    pub password: String,
    pub strength: Strength,
    /// `None` for the empty password, which has no ratio.
    pub randomness: Option<Randomness>,
}

impl Report {
    /// The signals are those of the password.
    pub open spec fn wf(self) -> bool {
        &&& self.strength == strength_of(self.password@)
        &&& self.randomness == randomness_of(self.password@)
    }

    /// A well-formed report on a password of `length` characters drawn from
    /// the pool of `categories`.
    pub open spec fn answers(self, length: usize, categories: Categories) -> bool {
        &&& self.wf()
        &&& self.password@.len() == length
        &&& drawn_from(self.password@, categories.charset())
    }
}

/// What is to be done after a line of input.
#[derive(Debug)]
pub enum Action {
    /// The line was no length: say so and ask again.
    RejectLength,
    /// Show the password, its strength and its randomness, then ask whether
    /// another one is wanted.
    Show(Report),
    /// The line was neither yes nor no: say so and ask again.
    RejectAnswer,
    /// Another password is wanted: ask for its length.
    AskLength,
    /// Nothing more is wanted: stop.
    Quit,
}

/// The state that follows `state` on `line`.
pub open spec fn next_state(state: State, line: Seq<char>) -> State {
    match state {
        State::PromptLength => match length_of_line(line) {
            Some(_) => State::PromptRepeat,
            None => State::PromptLength,
        },
        State::PromptRepeat => match answer_of_line(line) {
            Some(true) => State::PromptLength,
            Some(false) => State::Terminated,
            None => State::PromptRepeat,
        },
        State::Terminated => State::Terminated,
    }
}

/// Whether `action` is what `line` calls for in `state`. A password that is
/// shown may be any one of the length asked for, drawn from the pool.
pub open spec fn action_fits(
    state: State,
    line: Seq<char>,
    categories: Categories,
    action: Action,
) -> bool {
    match state {
        State::PromptLength => match length_of_line(line) {
            Some(length) => match action {
                Action::Show(report) => report.answers(length, categories),
                _ => false,
            },
            None => action is RejectLength,
        },
        State::PromptRepeat => match answer_of_line(line) {
            Some(true) => action is AskLength,
            Some(false) => action is Quit,
            None => action is RejectAnswer,
        },
        State::Terminated => action is Quit,
    }
}

/// A report on a generated password divides by the length that was asked
/// for: its ratio is the number of its distinct characters over `length`,
/// above 0 and at most 1, and only the empty password has none.
pub proof fn shown_ratio_divides_by_length(report: Report, length: usize, categories: Categories)
    requires
        report.answers(length, categories),
    ensures
        length == 0 <==> report.randomness is None,
        length > 0 ==> report.randomness->0.total == length && report.randomness->0.unique
            == unique_count(report.password@) && report.randomness->0.wf(),
{
    unique_count_bounds(report.password@);
}

/// The two quality signals of a password.
pub fn report_on(password: String) -> (report: Report)
    ensures
        report.password@ == password@,
        report.wf(),
{
    let strength = password_strength(password.as_str());
    let randomness = check_password_randomness(password.as_str());
    Report { password, strength, randomness }
}

/// Generates a password of `length` characters from the pool of
/// `categories` and reports on it.
pub fn generate_report(length: usize, categories: Categories) -> (report: Report)
    ensures
        report.answers(length, categories),
{
    report_on(
        generate_password(
            length,
            categories.include_uppercase,
            categories.include_numbers,
            categories.include_special,
        ),
    )
}

/// One step of the dialogue: the state after `line`, and what to do now.
///
/// While a length is awaited, a line that is one leads to a fresh password
/// and the repeat question, and any other line is rejected. While an answer
/// is awaited, yes leads back to the length prompt, no ends the dialogue, and
/// any other line is rejected. Once over, the dialogue stays over.
pub fn step(state: State, line: &str, categories: Categories) -> (next: (State, Action))
    ensures
        next.0 == next_state(state, line@),
        action_fits(state, line@, categories, next.1),
{
    match state {
        State::PromptLength => match parse_length(line) {
            Some(length) => (State::PromptRepeat, Action::Show(generate_report(length, categories))),
            None => (State::PromptLength, Action::RejectLength),
        },
        State::PromptRepeat => match parse_yes_no(line) {
            Some(true) => (State::PromptLength, Action::AskLength),
            Some(false) => (State::Terminated, Action::Quit),
            None => (State::PromptRepeat, Action::RejectAnswer),
        },
        State::Terminated => (State::Terminated, Action::Quit),
    }
}

} // verus!
