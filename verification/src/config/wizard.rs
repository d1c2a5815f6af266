//! Naming helpers of the interactive configuration wizard.
use vstd::prelude::*;

use crate::text::{char_to_uppercase, lowercase, push_char, str_eq, to_lowercase, uppercase_char};

verus! {

/// `s` with its first character upper-cased.
pub open spec fn title_case(s: Seq<char>) -> Seq<char> {
    if s.len() == 0 {
        Seq::empty()
    } else {
        uppercase_char(s[0]) + s.drop_first()
    }
}

/// `s` with its first character upper-cased.
pub fn to_title_case(s: &str) -> (r: String)
    ensures
        r@ == title_case(s@),
{
    let n = s.unicode_len();
    if n == 0 {
        return String::new();
    }
    let mut r = char_to_uppercase(s.get_char(0));
    r.append(s.substring_char(1, n));
    proof {
        assert(s@.subrange(1, n as int) =~= s@.drop_first());
    }
    r
}

/// Display name built so far, and whether the next character starts a word.
pub open spec fn display_state(s: Seq<char>) -> (Seq<char>, bool)
    decreases s.len(),
{
    if s.len() == 0 {
        (Seq::empty(), true)
    } else {
        let (acc, at_start) = display_state(s.drop_last());
        let c = s.last();
        if c == '-' {
            (acc.push(' '), true)
        } else if at_start {
            (acc + uppercase_char(c), false)
        } else {
            (acc.push(c), false)
        }
    }
}

/// The display name of a model identifier: its dash-separated parts, each
/// with the first character upper-cased, joined by spaces
/// (`gpt-4-turbo` gives `Gpt 4 Turbo`).
pub open spec fn display_name(s: Seq<char>) -> Seq<char> {
    display_state(s).0
}

/// The display name of a model identifier.
pub fn generate_display_name(name: &str) -> (r: String)
    ensures
        r@ == display_name(name@),
{
    let n = name.unicode_len();
    let mut r = String::new();
    let mut at_start = true;
    let mut i: usize = 0;
    while i < n
        invariant
            n == name@.len(),
            i <= n,
            (r@, at_start) == display_state(name@.take(i as int)),
        decreases n - i,
    {
        let c = name.get_char(i);
        proof {
            assert(name@.take(i + 1).drop_last() =~= name@.take(i as int));
        }
        if c == '-' {
            push_char(&mut r, ' ');
            at_start = true;
        } else if at_start {
            let up = char_to_uppercase(c);
            r.append(up.as_str());
            at_start = false;
        } else {
            push_char(&mut r, c);
        }
        i = i + 1;
    }
    proof {
        assert(name@.take(n as int) =~= name@);
    }
    r
}

/// The default endpoint for a lower-cased provider type.
pub open spec fn default_endpoint_for(lower: Seq<char>) -> Seq<char> {
    if lower == "gemini"@ {
        "https://generativelanguage.googleapis.com"@
    } else if lower == "ollama"@ {
        "http://127.0.0.1:11434"@
    } else if lower == "openai"@ {
        "https://api.openai.com"@
    } else {
        "https://api.example.com"@
    }
}

/// The default endpoint of a provider type (compared in lower case).
pub fn get_default_endpoint(provider_type: &str) -> (r: String)
    ensures
        r@ == default_endpoint_for(lowercase(provider_type@)),
{
    let lower = to_lowercase(provider_type);
    if str_eq(lower.as_str(), "gemini") {
        "https://generativelanguage.googleapis.com".to_owned()
    } else if str_eq(lower.as_str(), "ollama") {
        "http://127.0.0.1:11434".to_owned()
    } else if str_eq(lower.as_str(), "openai") {
        "https://api.openai.com".to_owned()
    } else {
        "https://api.example.com".to_owned()
    }
}

} // verus!
