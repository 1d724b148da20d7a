//! City name search through the Open-Meteo geocoding API.

use vstd::prelude::*;

use crate::i18n::{api_code_text, Language};
use crate::text::{decimal, push_decimal, url_encode, url_encoded};

verus! {

/// The number of candidates asked for: at least one, at most twenty.
pub open spec fn clamped_count(count: int) -> int {
    if count < 1 {
        1
    } else if count > 20 {
        20
    } else {
        count
    }
}

/// The geocoding request URL.
pub open spec fn search_url_text(query: Seq<char>, lang: Language, count: int) -> Seq<char> {
    "https://geocoding-api.open-meteo.com/v1/search?name="@ + url_encoded(query) + "&count="@
        + decimal(clamped_count(count) as nat) + "&language="@ + api_code_text(lang)
}

/// The request URL for candidates named like `query`: `count` clamped to
/// 1..=20 (a count of 0 still asks for one), in the display language.
pub fn search_url(query: &str, lang: Language, count: usize) -> (r: String)
    ensures
        r@ == search_url_text(query@, lang, count as int),
{
    let n: u64 = if count < 1 {
        1
    } else if count > 20 {
        20
    } else {
        count as u64
    };
    let mut s = String::new();
    s.append("https://geocoding-api.open-meteo.com/v1/search?name=");
    let q = url_encode(query);
    s.append(q.as_str());
    s.append("&count=");
    push_decimal(&mut s, n);
    s.append("&language=");
    s.append(lang.api_code());
    assert(s@ =~= search_url_text(query@, lang, count as int));
    s
}

/// Where a candidate lies: "admin1, country", either one alone, or nothing.
pub open spec fn place_text(admin1: Option<Seq<char>>, country: Option<Seq<char>>) -> Seq<char> {
    match (admin1, country) {
        (Some(a), Some(c)) => a + ", "@ + c,
        (Some(a), None) => a,
        (None, Some(c)) => c,
        (None, None) => seq![],
    }
}

pub open spec fn opt_str_view(s: Option<&str>) -> Option<Seq<char>> {
    match s {
        Some(v) => Some(v@),
        None => None,
    }
}

/// The place shown next to a candidate's name.
pub fn place_label(admin1: Option<&str>, country_name: Option<&str>) -> (r: String)
    ensures
        r@ == place_text(opt_str_view(admin1), opt_str_view(country_name)),
{
    let mut s = String::new();
    match (admin1, country_name) {
        (Some(a), Some(c)) => {
            s.append(a);
            s.append(", ");
            s.append(c);
        },
        (Some(a), None) => {
            s.append(a);
        },
        (None, Some(c)) => {
            s.append(c);
        },
        (None, None) => {},
    }
    assert(s@ =~= place_text(opt_str_view(admin1), opt_str_view(country_name)));
    s
}

pub open spec fn choice_note_text(query: Seq<char>, name: Seq<char>, place: Seq<char>) -> Seq<char> {
    "\""@ + query + "\" → "@ + name + " ("@ + place + ") を採用。他の候補は `termrain --list-city "@
        + query + "` で確認可。"@
}

/// The note printed when `--city` matched several places and the first one
/// (`name`, in `place`) was taken.
pub fn city_choice_note(query: &str, name: &str, place: &str) -> (r: String)
    ensures
        r@ == choice_note_text(query@, name@, place@),
{
    let mut s = String::new();
    s.append("\"");
    s.append(query);
    s.append("\" → ");
    s.append(name);
    s.append(" (");
    s.append(place);
    s.append(") を採用。他の候補は `termrain --list-city ");
    s.append(query);
    s.append("` で確認可。");
    assert(s@ =~= choice_note_text(query@, name@, place@));
    s
}

} // verus!
