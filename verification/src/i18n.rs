use vstd::prelude::*;

use crate::text::{eq_ignore_ascii_case, eq_ignore_ascii_case_seq};

verus! {

/// Display language of the user interface.
#[derive(Clone, Copy, Debug, PartialEq, Eq, Structural)]
pub enum Language {
    English,
    Japanese,
}

impl Default for Language {
    fn default() -> (r: Language)
        ensures
            r == Language::English,
    {
        Language::English
    }
}

pub open spec fn api_code_text(l: Language) -> Seq<char> {
    match l {
        Language::English => "en"@,
        Language::Japanese => "ja"@,
    }
}

/// The language names accepted on the command line (`en`, `ja`, `english`,
/// `japanese`, ignoring ASCII case).
pub open spec fn language_from_name(s: Seq<char>) -> Option<Language> {
    if eq_ignore_ascii_case_seq(s, "en"@) || eq_ignore_ascii_case_seq(s, "english"@) {
        Some(Language::English)
    } else if eq_ignore_ascii_case_seq(s, "ja"@) || eq_ignore_ascii_case_seq(s, "japanese"@) {
        Some(Language::Japanese)
    } else {
        None
    }
}

impl Language {
    /// The ISO 639-1 code sent to the geocoding API.
    pub fn api_code(self) -> (r: &'static str)
        ensures
            r@ == api_code_text(self),
    {
        match self {
            Language::English => "en",
            Language::Japanese => "ja",
        }
    }

    /// Reads a language name given on the command line.
    pub fn from_name(s: &str) -> (r: Option<Language>)
        ensures
            r == language_from_name(s@),
    {
        if eq_ignore_ascii_case(s, "en") || eq_ignore_ascii_case(s, "english") {
            Some(Language::English)
        } else if eq_ignore_ascii_case(s, "ja") || eq_ignore_ascii_case(s, "japanese") {
            Some(Language::Japanese)
        } else {
            None
        }
    }
}

} // verus!
