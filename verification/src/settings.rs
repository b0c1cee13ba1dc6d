//! Settings read from the environment, decided on their text.
use vstd::prelude::*;
use crate::text::{ascii_lowered, chars_eq_str, chars_of, lower_ascii_chars, trim_chars, trimmed};

verus! {

/// The words that switch a setting on, compared after trimming white space
/// and folding ASCII case.
pub open spec fn enabling_word(s: Seq<char>) -> bool {
    s == "1"@ || s == "true"@ || s == "yes"@ || s == "on"@
}

/// Whether a setting's value switches it on (`1`, `true`, `yes` or `on`, in
/// any ASCII case, with surrounding white space ignored).
pub fn is_enabled_value(value: &str) -> (on: bool)
    ensures
        on == enabling_word(ascii_lowered(trimmed(value@))),
{
    let chars = chars_of(value);
    let trimmed_chars = trim_chars(&chars);
    let word = lower_ascii_chars(&trimmed_chars);
    chars_eq_str(&word, "1") || chars_eq_str(&word, "true") || chars_eq_str(&word, "yes")
        || chars_eq_str(&word, "on")
}

} // verus!
