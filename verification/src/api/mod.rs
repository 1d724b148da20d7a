//! Weather provider logic that does not depend on the network: weather icons,
//! map tile URLs and error texts that must not leak credentials.

pub mod geocoding;
pub mod jma;
pub mod open_meteo;
pub mod openfreemap;

use vstd::prelude::*;

use crate::config::{is_japan, keyed_tile_url_text, usable_key, MapStyle};
use crate::i18n::Language;
use crate::text::{eq_ignore_ascii_case, is_blank};

verus! {

/// Coarse weather category used to pick an icon.
#[derive(Clone, Copy, Debug, PartialEq, Eq, Structural)]
pub enum WeatherIcon {
    Sunny,
    PartlyCloudy,
    Cloudy,
    Rain,
    Snow,
    Thunder,
    Unknown,
}

/// The character drawn for an icon.
pub open spec fn icon_symbol(i: WeatherIcon) -> Seq<char> {
    match i {
        WeatherIcon::Sunny => "☀"@,
        WeatherIcon::PartlyCloudy => "⛅"@,
        WeatherIcon::Cloudy => "☁"@,
        WeatherIcon::Rain => "☂"@,
        WeatherIcon::Snow => "❄"@,
        WeatherIcon::Thunder => "⚡"@,
        WeatherIcon::Unknown => "?"@,
    }
}

impl WeatherIcon {
    /// The character drawn for the icon in the forecast panels.
    pub fn symbol(self) -> (r: &'static str)
        ensures
            r@ == icon_symbol(self),
    {
        match self {
            WeatherIcon::Sunny => "☀",
            WeatherIcon::PartlyCloudy => "⛅",
            WeatherIcon::Cloudy => "☁",
            WeatherIcon::Rain => "☂",
            WeatherIcon::Snow => "❄",
            WeatherIcon::Thunder => "⚡",
            WeatherIcon::Unknown => "?",
        }
    }
}

/// The JMA provider serves locations in Japan, or any location when it is
/// forced; Open-Meteo serves the rest.
pub fn prefers_jma(country: &str, force_jma: bool) -> (r: bool)
    ensures
        r == (force_jma || is_japan(country@)),
{
    proof {
        reveal_strlit("JP");
    }
    force_jma || eq_ignore_ascii_case(country, "JP")
}

/// Why a map tile cannot be requested.
#[derive(Clone, Copy, Debug, PartialEq, Eq, Structural)]
pub enum MapTileError {
    /// CARTO Voyager was chosen but no usable API key is configured; the
    /// message is given in `language`.
    MissingCartoApiKey { language: Language },
}

/// The message for a missing CARTO key in each display language.
pub open spec fn missing_key_message(lang: Language) -> Seq<char> {
    match lang {
        Language::English => "CARTO Voyager requires an API key. Check [radar].carto_api_key in the configuration file."@,
        Language::Japanese => "CARTO VoyagerにはAPIキーが必要です。設定ファイルの[radar].carto_api_keyを確認してください。"@,
    }
}

impl MapTileError {
    /// The user-facing message of the error; it never contains a key.
    pub fn message(&self) -> (r: String)
        ensures
            r@ == (match self {
                MapTileError::MissingCartoApiKey { language } => missing_key_message(*language),
            }),
    {
        match self {
            MapTileError::MissingCartoApiKey { language } => match language {
                Language::English => String::from_str(
                    "CARTO Voyager requires an API key. Check [radar].carto_api_key in the configuration file.",
                ),
                Language::Japanese => String::from_str(
                    "CARTO VoyagerにはAPIキーが必要です。設定ファイルの[radar].carto_api_keyを確認してください。",
                ),
            },
        }
    }
}

/// The characters of an optional string.
pub open spec fn opt_view(key: Option<&str>) -> Option<Seq<char>> {
    match key {
        Some(k) => Some(k@),
        None => None,
    }
}

/// The URL of map tile `z/x/y` for `style`. CARTO Voyager is refused before
/// any request is made when no usable key is configured; only CARTO URLs
/// carry the key.
pub fn build_map_tile_url(
    style: MapStyle,
    z: u8,
    x: u32,
    y: u32,
    carto_api_key: Option<&str>,
    lang: Language,
) -> (r: Result<String, MapTileError>)
    ensures
        r is Err <==> (style is CartoVoyager && !usable_key(opt_view(carto_api_key))),
        r matches Ok(u) ==> u@ == keyed_tile_url_text(
            style,
            z as nat,
            x as nat,
            y as nat,
            opt_view(carto_api_key),
        ),
        r matches Err(e) ==> e == (MapTileError::MissingCartoApiKey { language: lang }),
{
    if style == MapStyle::CartoVoyager {
        let usable = match carto_api_key {
            Some(k) => !is_blank(k),
            None => false,
        };
        if !usable {
            return Err(MapTileError::MissingCartoApiKey { language: lang });
        }
    }
    Ok(style.tile_url_with_carto_api_key(z, x, y, carto_api_key))
}

/// The fixed text that stands for a failed CARTO tile request.
pub open spec fn carto_failure_text() -> Seq<char> {
    "CARTO Voyager tile request failed"@
}

/// The text logged for a failed tile request. For CARTO the error's own text
/// (which may hold the request URL, and with it the key) is replaced by a
/// fixed message; other styles keep their text.
pub fn sanitize_carto_tile_error(style: MapStyle, message: String) -> (r: String)
    ensures
        style is CartoVoyager ==> r@ == carto_failure_text(),
        !(style is CartoVoyager) ==> r@ == message@,
{
    if style == MapStyle::CartoVoyager {
        String::from_str("CARTO Voyager tile request failed")
    } else {
        message
    }
}

} // verus!
