//! Japan Meteorological Agency forecasts, which describe the weather in
//! Japanese text.

use vstd::prelude::*;

use crate::api::WeatherIcon;
use crate::text::chars_of;

verus! {

/// The icon for a JMA weather text, by keyword priority: thunder, snow,
/// rain, sun with clouds, sun, clouds.
pub open spec fn jma_text_icon(t: Seq<char>) -> WeatherIcon {
    if t.contains('雷') {
        WeatherIcon::Thunder
    } else if t.contains('雪') {
        WeatherIcon::Snow
    } else if t.contains('雨') {
        WeatherIcon::Rain
    } else if t.contains('晴') && t.contains('曇') {
        WeatherIcon::PartlyCloudy
    } else if t.contains('晴') {
        WeatherIcon::Sunny
    } else if t.contains('曇') {
        WeatherIcon::Cloudy
    } else {
        WeatherIcon::Unknown
    }
}

/// Whether `c` occurs in `v`.
fn has_char(v: &Vec<char>, c: char) -> (r: bool)
    ensures
        r == v@.contains(c),
{
    let mut i: usize = 0;
    while i < v.len()
        invariant
            i <= v.len(),
            forall|j: int| 0 <= j < i ==> v@[j] != c,
        decreases v.len() - i,
    {
        if v[i] == c {
            assert(v@[i as int] == c);
            return true;
        }
        i = i + 1;
    }
    false
}

/// Icon for a JMA weather description such as "晴れ時々曇り".
pub fn text_to_icon(text: &str) -> (r: WeatherIcon)
    ensures
        r == jma_text_icon(text@),
{
    let v = chars_of(text);
    if has_char(&v, '雷') {
        WeatherIcon::Thunder
    } else if has_char(&v, '雪') {
        WeatherIcon::Snow
    } else if has_char(&v, '雨') {
        WeatherIcon::Rain
    } else if has_char(&v, '晴') && has_char(&v, '曇') {
        WeatherIcon::PartlyCloudy
    } else if has_char(&v, '晴') {
        WeatherIcon::Sunny
    } else if has_char(&v, '曇') {
        WeatherIcon::Cloudy
    } else {
        WeatherIcon::Unknown
    }
}

} // verus!
