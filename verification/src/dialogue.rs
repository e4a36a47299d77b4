//! The pet's canned lines, chosen from its state and what is happening.
use vstd::prelude::*;
use crate::dashboard::{pet_state_name, state_name};
use crate::text::{
    chars_of, contains, lowercase, seq_contains, string_from_chars, to_lowercase_chars, trim, trimmed,
};
use crate::types::PetState;

verus! {

/// The line the pet says in `state`, given the lower-cased context
/// `ctx`: a line about the context when it mentions what the state is
/// about, a line for the state otherwise.
pub open spec fn dialogue_for(state: PetState, ctx: Seq<char>) -> Seq<char> {
    match state {
        PetState::Distressed => if seq_contains(ctx, "cpu"@) || seq_contains(ctx, "highcpu"@) {
            "Fans are screaming! What are we compiling?"@
        } else {
            "Whoa, system pressure is rising!"@
        },
        PetState::Celebrating => if seq_contains(ctx, "commit"@) || seq_contains(
            ctx,
            "devcommit"@,
        ) {
            "Commit pushed! Ship it to production!"@
        } else {
            "Hooray! Great job!"@
        },
        PetState::Working => if seq_contains(ctx, "neovim"@) || seq_contains(ctx, "vim"@)
            || seq_contains(ctx, "code"@) {
            "Coding hard! Remember to save often."@
        } else {
            "Focus mode activated!"@
        },
        PetState::Sleeping => "Zzz... Don't wake me up..."@,
        PetState::Walking => "Just taking a little stroll around your desktop."@,
        PetState::Idle => "Meow! Standing by."@,
    }
}

/// A lower-cased context that mentions what a state is about gives that
/// state's line about it: `cpu` (or `highcpu`) when distressed, `commit`
/// (or `devcommit`) when celebrating, `neovim`, `vim` or `code` at work.
/// Any other context gives the state's own line, and sleeping, walking and
/// idling have one line whatever the context.
pub proof fn law_dialogue_follows_context(state: PetState, ctx: Seq<char>)
    ensures
        state == PetState::Distressed && seq_contains(ctx, "cpu"@) ==> dialogue_for(state, ctx)
            == "Fans are screaming! What are we compiling?"@,
        state == PetState::Distressed && seq_contains(ctx, "highcpu"@) ==> dialogue_for(state, ctx)
            == "Fans are screaming! What are we compiling?"@,
        state == PetState::Distressed && !seq_contains(ctx, "cpu"@) && !seq_contains(
            ctx,
            "highcpu"@,
        ) ==> dialogue_for(state, ctx) == "Whoa, system pressure is rising!"@,
        state == PetState::Celebrating && seq_contains(ctx, "commit"@) ==> dialogue_for(state, ctx)
            == "Commit pushed! Ship it to production!"@,
        state == PetState::Celebrating && seq_contains(ctx, "devcommit"@) ==> dialogue_for(
            state,
            ctx,
        ) == "Commit pushed! Ship it to production!"@,
        state == PetState::Celebrating && !seq_contains(ctx, "commit"@) && !seq_contains(
            ctx,
            "devcommit"@,
        ) ==> dialogue_for(state, ctx) == "Hooray! Great job!"@,
        state == PetState::Working && seq_contains(ctx, "neovim"@) ==> dialogue_for(state, ctx)
            == "Coding hard! Remember to save often."@,
        state == PetState::Working && seq_contains(ctx, "vim"@) ==> dialogue_for(state, ctx)
            == "Coding hard! Remember to save often."@,
        state == PetState::Working && seq_contains(ctx, "code"@) ==> dialogue_for(state, ctx)
            == "Coding hard! Remember to save often."@,
        state == PetState::Working && !seq_contains(ctx, "neovim"@) && !seq_contains(ctx, "vim"@)
            && !seq_contains(ctx, "code"@) ==> dialogue_for(state, ctx) == "Focus mode activated!"@,
        state == PetState::Sleeping ==> dialogue_for(state, ctx) == "Zzz... Don't wake me up..."@,
        state == PetState::Walking ==> dialogue_for(state, ctx)
            == "Just taking a little stroll around your desktop."@,
        state == PetState::Idle ==> dialogue_for(state, ctx) == "Meow! Standing by."@,
{
}

/// Whether `ctx` contains the text `word`.
fn mentions(ctx: &Vec<char>, word: &str) -> (r: bool)
    ensures
        r == seq_contains(ctx@, word@),
{
    let w = chars_of(word);
    contains(ctx, &w)
}

/// The line the pet says in `state` when the lower-cased context is
/// `ctx_lower`.
pub fn dialogue_for_lowered_context(state: PetState, ctx_lower: &Vec<char>) -> (r: String)
    ensures
        r@ == dialogue_for(state, ctx_lower@),
{
    match state {
        PetState::Distressed => {
            if mentions(ctx_lower, "cpu") || mentions(ctx_lower, "highcpu") {
                String::from_str("Fans are screaming! What are we compiling?")
            } else {
                String::from_str("Whoa, system pressure is rising!")
            }
        },
        PetState::Celebrating => {
            if mentions(ctx_lower, "commit") || mentions(ctx_lower, "devcommit") {
                String::from_str("Commit pushed! Ship it to production!")
            } else {
                String::from_str("Hooray! Great job!")
            }
        },
        PetState::Working => {
            if mentions(ctx_lower, "neovim") || mentions(ctx_lower, "vim") || mentions(
                ctx_lower,
                "code",
            ) {
                String::from_str("Coding hard! Remember to save often.")
            } else {
                String::from_str("Focus mode activated!")
            }
        },
        PetState::Sleeping => String::from_str("Zzz... Don't wake me up..."),
        PetState::Walking => String::from_str("Just taking a little stroll around your desktop."),
        PetState::Idle => String::from_str("Meow! Standing by."),
    }
}

/// The line the pet says in `state` in the given context, which is matched
/// without regard to case.
pub fn get_deterministic_dialogue(state: PetState, context: &str) -> (r: String)
    ensures
        r@ == dialogue_for(state, lowercase(context@)),
{
    let ctx_lower = to_lowercase_chars(context);
    dialogue_for_lowered_context(state, &ctx_lower)
}

/// The local language model service that writes the pet's lines.
pub const DEFAULT_OLLAMA_ENDPOINT: &'static str = "http://127.0.0.1:11434/api/generate";

/// The model that writes the pet's lines.
pub const DEFAULT_OLLAMA_MODEL: &'static str = "qwen2.5-coder:0.5b";

/// Who the model speaks as.
pub const OLLAMA_SYSTEM_PROMPT: &'static str =
    "You are Pixel, a 16-bit desktop cat companion. Max 10 words. Snarky but loyal.";

/// The prompt that asks the model for a line about `context` in `state`.
pub open spec fn prompt_text(state: PetState, context: Seq<char>) -> Seq<char> {
    "Context: "@ + context + ", State: "@ + state_name(state) + ". Give a one-line comment."@
}

/// The prompt that asks the model for a line about `context` in `state`.
pub fn ollama_prompt(state: PetState, context: &str) -> (r: String)
    ensures
        r@ == prompt_text(state, context@),
{
    let mut s = String::from_str("Context: ");
    s.append(context);
    s.append(", State: ");
    s.append(pet_state_name(state));
    s.append(". Give a one-line comment.");
    s
}

/// The line a model reply gives: its text trimmed, unless nothing is left.
pub open spec fn reply_line(response: Seq<char>) -> Option<Seq<char>> {
    if trim(response).len() == 0 {
        None
    } else {
        Some(trim(response))
    }
}

/// The line in the model's reply `response`: the text trimmed, or nothing
/// when only whitespace came back.
pub fn ollama_reply_text(response: &str) -> (r: Option<String>)
    ensures
        match reply_line(response@) {
            Some(l) => r matches Some(s) && s@ == l,
            None => r is None,
        },
{
    let text = trimmed(&chars_of(response));
    if text.len() == 0 {
        None
    } else {
        Some(string_from_chars(&text))
    }
}

/// The line the pet says: the model's line when one came back, the canned
/// line for `state` and `context` when the model failed.
pub fn dialogue_or_fallback(reply: Option<String>, state: PetState, context: &str) -> (r: String)
    ensures
        r@ == match reply {
            Some(line) => line@,
            None => dialogue_for(state, lowercase(context@)),
        },
{
    match reply {
        Some(line) => line,
        None => get_deterministic_dialogue(state, context),
    }
}

} // verus!
