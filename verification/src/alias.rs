//! The node's alias: the configured one, the one chosen earlier, or a fresh
//! default made from a random number.

use vstd::prelude::*;
use crate::text::{hexadecimal, push_hexadecimal, push_str, string_from_chars, zero_padded, zeros};

verus! {

/// Least number of hexadecimal digits in a default alias.
pub const ALIAS_DIGITS: usize = 8;

/// The default alias for a number: `start9-0x` and the number in lower-case
/// hexadecimal, with zeros in front up to eight digits.
pub open spec fn default_alias_spec(number: u64) -> Seq<char> {
    "start9-"@ + "0x"@ + zero_padded(hexadecimal(number as nat), ALIAS_DIGITS as nat)
}

/// The default alias for a number.
pub fn default_alias(number: u64) -> (alias: String)
    ensures
        alias@ == default_alias_spec(number),
{
    let mut digits: Vec<char> = Vec::new();
    push_hexadecimal(&mut digits, number);
    assert(digits@ =~= hexadecimal(number as nat));
    let mut out: Vec<char> = Vec::new();
    push_str(&mut out, "start9-");
    push_str(&mut out, "0x");
    let ghost head = out@;
    let mut width: usize = digits.len();
    while width < ALIAS_DIGITS
        invariant
            digits.len() <= width,
            width <= ALIAS_DIGITS || width == digits.len(),
            out@ == head + zeros((width - digits.len()) as nat),
        decreases ALIAS_DIGITS - width,
    {
        out.push('0');
        assert(out@ =~= head + zeros((width + 1 - digits.len()) as nat));
        width += 1;
    }
    let ghost padded = out@;
    let mut i: usize = 0;
    while i < digits.len()
        invariant
            i <= digits.len(),
            out@ == padded + digits@.take(i as int),
        decreases digits.len() - i,
    {
        out.push(digits[i]);
        assert(out@ =~= padded + digits@.take(i + 1));
        i += 1;
    }
    assert(digits@.take(digits.len() as int) =~= digits@);
    assert(out@ =~= default_alias_spec(number));
    string_from_chars(&out)
}

/// `rand::Rng::gen` for a `u64`, on the generator of `rand::thread_rng`.
/// Nothing is known of the number.
#[verifier::external_body]
fn random_u64() -> (number: u64) {
    rand::Rng::gen::<u64>(&mut rand::thread_rng())
}

/// The alias that was settled on, and whether it has to be written down so
/// that the next start finds it.
#[derive(Debug, Clone, PartialEq, Eq)]
pub struct AliasChoice {
    pub alias: String,
    pub persist: bool,
}

/// The choice of an alias: the configured one; without it the stored one;
/// without either the default for `number`, which is then to be stored.
pub open spec fn choice_matches(
    choice: AliasChoice,
    configured: Option<String>,
    stored: Option<String>,
    number: u64,
) -> bool {
    match (configured, stored) {
        (Some(a), _) => choice.alias@ == a@ && !choice.persist,
        (None, Some(s)) => choice.alias@ == s@ && !choice.persist,
        (None, None) => choice.alias@ == default_alias_spec(number) && choice.persist,
    }
}

/// Settles the alias, with `number` as the random number for a fresh default.
pub fn resolve_alias(configured: &Option<String>, stored: Option<String>, number: u64) -> (choice:
    AliasChoice)
    ensures
        choice_matches(choice, *configured, stored, number),
{
    match configured {
        Some(a) => AliasChoice { alias: a.clone(), persist: false },
        None => match stored {
            Some(s) => AliasChoice { alias: s, persist: false },
            None => AliasChoice { alias: default_alias(number), persist: true },
        },
    }
}

/// Settles the alias: the configured one; without it the one stored earlier;
/// without either a fresh default from a random number, to be stored.
pub fn get_alias(configured: &Option<String>, stored: Option<String>) -> (choice: AliasChoice)
    ensures
        exists|number: u64| choice_matches(choice, *configured, stored, number),
{
    let number: u64 = match (configured, &stored) {
        (None, None) => random_u64(),
        _ => 0,
    };
    let choice = resolve_alias(configured, stored, number);
    assert(choice_matches(choice, *configured, stored, number));
    choice
}

} // verus!
