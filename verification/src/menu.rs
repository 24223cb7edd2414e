//! The interactive choice of how to look for repositories: by keyword, or
//! the most recently active ones.  Each answer moves the menu on; the loop
//! that asks the questions runs outside the library.

use vstd::prelude::*;

verus! {

/// The question that asks for the search mode.
pub const MODE_PROMPT: &'static str = "\n👉 Choix (1 ou 2) : ";
/// The question that asks for the keyword.
pub const KEYWORD_PROMPT: &'static str = "\n🔎 Mot-clé : ";
/// The answer to a mode that is neither 1 nor 2.
pub const BAD_MODE_MESSAGE: &'static str = "❌ Saisissez 1 ou 2";
/// The answer to an empty keyword.
pub const EMPTY_KEYWORD_MESSAGE: &'static str = "❌ Mot-clé requis";
/// The number of terminal lines the menu leaves, cleared when it ends.
pub const MENU_LINES: usize = 8;

/// Where the menu stands.
#[derive(Debug)]
pub enum MenuState {
    /// Waiting for the mode: 1 for a keyword, 2 for the latest repositories.
    ChoosingMode,
    /// Waiting for a keyword.
    EnteringKeyword,
    /// Over: the keyword, lower-cased, or `None` for the latest repositories.
    Done(Option<String>),
}

/// The lower-case form of `s` according to Unicode, as `str::to_lowercase`
/// computes it.
pub uninterp spec fn lowercase(s: Seq<char>) -> Seq<char>;

/// Lower-cases a keyword.
/// Calls `str::to_lowercase`, whose result depends on the string alone
/// (Unicode's `Lowercase` mapping); the contract names it and says no more.
#[verifier::external_body]
fn to_lowercase(s: &str) -> (res: String)
    ensures
        res@ == lowercase(s@),
{
    s.to_lowercase()
}

/// The menu before any answer.
pub fn start() -> (res: MenuState)
    ensures
        res is ChoosingMode,
{
    MenuState::ChoosingMode
}

/// The question to ask in `state`, or `None` once the menu is over.
pub fn prompt_for(state: &MenuState) -> (res: Option<&'static str>)
    ensures
        state is ChoosingMode ==> res == Some(MODE_PROMPT),
        state is EnteringKeyword ==> res == Some(KEYWORD_PROMPT),
        state is Done ==> res is None,
{
    match state {
        MenuState::ChoosingMode => Some(MODE_PROMPT),
        MenuState::EnteringKeyword => Some(KEYWORD_PROMPT),
        MenuState::Done(_) => None,
    }
}

/// Whether the answer is exactly the one character `c`.
fn is_answer(input: &str, c: char) -> (res: bool)
    ensures
        res == (input@ == seq![c]),
{
    let n = input.unicode_len();
    let res = n == 1 && input.get_char(0) == c;
    proof {
        if n == 1 {
            assert(res == (input@ =~= seq![c]));
        }
    }
    res
}

/// Moves the menu on with the (trimmed) answer `input`.  Returns the new
/// state and the complaint to show when the answer was refused, in which
/// case the same question is asked again.
pub fn on_input(state: MenuState, input: &str) -> (res: (MenuState, Option<&'static str>))
    ensures
        match state {
            MenuState::ChoosingMode => if input@ == seq!['1'] {
                res.0 is EnteringKeyword && res.1 is None
            } else if input@ == seq!['2'] {
                res.0 == MenuState::Done(None) && res.1 is None
            } else {
                res.0 is ChoosingMode && res.1 == Some(BAD_MODE_MESSAGE)
            },
            MenuState::EnteringKeyword => if input@.len() > 0 {
                (res.0 matches MenuState::Done(Some(k)) && k@ == lowercase(input@)) && res.1 is None
            } else {
                res.0 is EnteringKeyword && res.1 == Some(EMPTY_KEYWORD_MESSAGE)
            },
            MenuState::Done(r) => res.0 == MenuState::Done(r) && res.1 is None,
        },
{
    match state {
        MenuState::ChoosingMode => {
            if is_answer(input, '1') {
                (MenuState::EnteringKeyword, None)
            } else if is_answer(input, '2') {
                (MenuState::Done(None), None)
            } else {
                (MenuState::ChoosingMode, Some(BAD_MODE_MESSAGE))
            }
        },
        MenuState::EnteringKeyword => {
            if input.unicode_len() > 0 {
                (MenuState::Done(Some(to_lowercase(input))), None)
            } else {
                (MenuState::EnteringKeyword, Some(EMPTY_KEYWORD_MESSAGE))
            }
        },
        MenuState::Done(r) => (MenuState::Done(r), None),
    }
}

} // verus!
