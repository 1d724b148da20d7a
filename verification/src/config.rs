use vstd::prelude::*;

use crate::i18n::Language;
use crate::text::{ascii_lower, decimal, eq_ignore_ascii_case, eq_ignore_ascii_case_seq, is_blank, is_blank_seq, push_char, push_decimal, url_encode, url_encoded};

verus! {

/// Background map style of the radar panel.
#[derive(Clone, Copy, Debug, PartialEq, Eq, Structural)]
pub enum MapStyle {
    /// GSI standard map (Japan only).
    GsiStd,
    /// OpenStreetMap standard raster tiles.
    OpenStreetMap,
    /// CARTO Voyager raster tiles (an API key is needed).
    CartoVoyager,
    /// OpenFreeMap Liberty vector tiles.
    OpenFreeMap,
    /// GSI seamless aerial photographs (Japan only).
    GsiPhoto,
}

/// The style that follows `s` when the user cycles styles.
pub open spec fn next_style(s: MapStyle) -> MapStyle {
    match s {
        MapStyle::OpenFreeMap => MapStyle::OpenStreetMap,
        MapStyle::OpenStreetMap => MapStyle::CartoVoyager,
        MapStyle::CartoVoyager => MapStyle::GsiStd,
        MapStyle::GsiStd => MapStyle::GsiPhoto,
        MapStyle::GsiPhoto => MapStyle::OpenFreeMap,
    }
}

/// GSI maps are only served for Japan.
pub open spec fn is_gsi(s: MapStyle) -> bool {
    s is GsiStd || s is GsiPhoto
}

/// `country` names Japan (ASCII case is ignored).
pub open spec fn is_japan(country: Seq<char>) -> bool {
    eq_ignore_ascii_case_seq(country, "JP"@)
}

/// The style actually shown for a location in `country`.
pub open spec fn style_for_country(s: MapStyle, country: Seq<char>) -> MapStyle {
    if !is_japan(country) && is_gsi(s) {
        MapStyle::OpenFreeMap
    } else {
        s
    }
}

/// The label of a style.
pub open spec fn label_text(s: MapStyle) -> Seq<char> {
    match s {
        MapStyle::GsiStd => "国土地理院 標準"@,
        MapStyle::OpenStreetMap => "OpenStreetMap (© OpenStreetMap contributors)"@,
        MapStyle::CartoVoyager => "CARTO Voyager (API key required)"@,
        MapStyle::OpenFreeMap => "OpenFreeMap Liberty (© OpenMapTiles, © OpenStreetMap)"@,
        MapStyle::GsiPhoto => "国土地理院 航空写真"@,
    }
}

/// The label shown in the radar panel title: CARTO tiles carry both the
/// OpenStreetMap and the CARTO attribution.
pub open spec fn label_for_language_text(s: MapStyle, lang: Language) -> Seq<char> {
    match s {
        MapStyle::CartoVoyager => "CARTO Voyager (© OpenStreetMap contributors, © CARTO)"@,
        _ => label_text(s),
    }
}

/// The name under which tiles of a style are cached.
pub open spec fn cache_key_text(s: MapStyle) -> Seq<char> {
    match s {
        MapStyle::GsiStd => "gsi_std"@,
        MapStyle::OpenStreetMap => "openstreetmap"@,
        MapStyle::CartoVoyager => "carto_voyager"@,
        MapStyle::OpenFreeMap => "openfreemap_liberty"@,
        MapStyle::GsiPhoto => "gsi_photo"@,
    }
}

/// The part of a tile URL before the zoom level.
pub open spec fn tile_url_prefix(s: MapStyle) -> Seq<char> {
    match s {
        MapStyle::GsiStd => "https://cyberjapandata.gsi.go.jp/xyz/std/"@,
        MapStyle::OpenStreetMap => "https://tile.openstreetmap.org/"@,
        MapStyle::CartoVoyager => "https://basemaps.cartocdn.com/rastertiles/voyager/"@,
        MapStyle::OpenFreeMap => "https://tiles.openfreemap.org/planet/"@,
        MapStyle::GsiPhoto => "https://cyberjapandata.gsi.go.jp/xyz/seamlessphoto/"@,
    }
}

/// The part of a tile URL after the row number.
pub open spec fn tile_url_suffix(s: MapStyle) -> Seq<char> {
    match s {
        MapStyle::GsiStd => ".png"@,
        MapStyle::OpenStreetMap => ".png"@,
        MapStyle::CartoVoyager => ".png"@,
        MapStyle::OpenFreeMap => ".pbf"@,
        MapStyle::GsiPhoto => ".jpg"@,
    }
}

/// `{prefix}{z}/{x}/{y}{suffix}` for the style.
pub open spec fn tile_url_text(s: MapStyle, z: nat, x: nat, y: nat) -> Seq<char> {
    tile_url_prefix(s) + decimal(z) + "/"@ + decimal(x) + "/"@ + decimal(y) + tile_url_suffix(s)
}

/// The key is present and not blank.
pub open spec fn usable_key(key: Option<Seq<char>>) -> bool {
    key matches Some(k) && !is_blank_seq(k)
}

/// The tile URL, with `?key=<encoded key>` appended for CARTO when a usable
/// key is given.
pub open spec fn keyed_tile_url_text(
    s: MapStyle,
    z: nat,
    x: nat,
    y: nat,
    key: Option<Seq<char>>,
) -> Seq<char> {
    if usable_key(key) && s is CartoVoyager {
        tile_url_text(s, z, x, y) + "?key="@ + url_encoded(key.unwrap())
    } else {
        tile_url_text(s, z, x, y)
    }
}

impl MapStyle {
    pub fn next(self) -> (r: MapStyle)
        ensures
            r == next_style(self),
    {
        match self {
            MapStyle::OpenFreeMap => MapStyle::OpenStreetMap,
            MapStyle::OpenStreetMap => MapStyle::CartoVoyager,
            MapStyle::CartoVoyager => MapStyle::GsiStd,
            MapStyle::GsiStd => MapStyle::GsiPhoto,
            MapStyle::GsiPhoto => MapStyle::OpenFreeMap,
        }
    }

    pub fn label(self) -> (r: &'static str)
        ensures
            r@ == label_text(self),
    {
        match self {
            MapStyle::GsiStd => "国土地理院 標準",
            MapStyle::OpenStreetMap => "OpenStreetMap (© OpenStreetMap contributors)",
            MapStyle::CartoVoyager => "CARTO Voyager (API key required)",
            MapStyle::OpenFreeMap => "OpenFreeMap Liberty (© OpenMapTiles, © OpenStreetMap)",
            MapStyle::GsiPhoto => "国土地理院 航空写真",
        }
    }

    /// The label of the style in the given display language.
    pub fn label_for_language(self, lang: Language) -> (r: &'static str)
        ensures
            r@ == label_for_language_text(self, lang),
    {
        match self {
            MapStyle::CartoVoyager => "CARTO Voyager (© OpenStreetMap contributors, © CARTO)",
            _ => self.label(),
        }
    }

    /// GSI maps are only usable in Japan; elsewhere they fall back to
    /// OpenFreeMap.
    pub fn effective_for_country(self, country: &str) -> (r: MapStyle)
        ensures
            r == style_for_country(self, country@),
    {
        let jp = "JP";
        proof {
            reveal_strlit("JP");
        }
        let gsi = match self {
            MapStyle::GsiStd | MapStyle::GsiPhoto => true,
            _ => false,
        };
        if !eq_ignore_ascii_case(country, jp) && gsi {
            MapStyle::OpenFreeMap
        } else {
            self
        }
    }

    pub fn next_for_country(self, country: &str) -> (r: MapStyle)
        ensures
            r == style_for_country(next_style(self), country@),
    {
        self.next().effective_for_country(country)
    }

    fn url_prefix(self) -> (r: &'static str)
        ensures
            r@ == tile_url_prefix(self),
    {
        match self {
            MapStyle::GsiStd => "https://cyberjapandata.gsi.go.jp/xyz/std/",
            MapStyle::OpenStreetMap => "https://tile.openstreetmap.org/",
            MapStyle::CartoVoyager => "https://basemaps.cartocdn.com/rastertiles/voyager/",
            MapStyle::OpenFreeMap => "https://tiles.openfreemap.org/planet/",
            MapStyle::GsiPhoto => "https://cyberjapandata.gsi.go.jp/xyz/seamlessphoto/",
        }
    }

    fn url_suffix(self) -> (r: &'static str)
        ensures
            r@ == tile_url_suffix(self),
    {
        match self {
            MapStyle::GsiStd => ".png",
            MapStyle::OpenStreetMap => ".png",
            MapStyle::CartoVoyager => ".png",
            MapStyle::OpenFreeMap => ".pbf",
            MapStyle::GsiPhoto => ".jpg",
        }
    }

    /// URL of the XYZ tile `z/x/y` of the style.
    pub fn tile_url(self, z: u8, x: u32, y: u32) -> (r: String)
        ensures
            r@ == tile_url_text(self, z as nat, x as nat, y as nat),
    {
        let mut s = String::new();
        s.append(self.url_prefix());
        push_decimal(&mut s, z as u64);
        push_char(&mut s, '/');
        push_decimal(&mut s, x as u64);
        push_char(&mut s, '/');
        push_decimal(&mut s, y as u64);
        s.append(self.url_suffix());
        proof {
            reveal_strlit("/");
        }
        assert(s@ =~= tile_url_text(self, z as nat, x as nat, y as nat));
        s
    }

    /// The tile URL with the CARTO API key added as a `key` query parameter,
    /// for CARTO Voyager only and only when the key is not blank.
    pub fn tile_url_with_carto_api_key(self, z: u8, x: u32, y: u32, carto_api_key: Option<&str>) -> (r:
        String)
        ensures
            r@ == keyed_tile_url_text(
                self,
                z as nat,
                x as nat,
                y as nat,
                match carto_api_key {
                    Some(k) => Some(k@),
                    None => None,
                },
            ),
    {
        let mut url = self.tile_url(z, x, y);
        match carto_api_key {
            Some(key) => {
                if !is_blank(key) && self == MapStyle::CartoVoyager {
                    url.append("?key=");
                    let enc = url_encode(key);
                    url.append(enc.as_str());
                }
                url
            },
            None => url,
        }
    }

    pub fn cache_key(self) -> (r: &'static str)
        ensures
            r@ == cache_key_text(self),
    {
        match self {
            MapStyle::GsiStd => "gsi_std",
            MapStyle::OpenStreetMap => "openstreetmap",
            MapStyle::CartoVoyager => "carto_voyager",
            MapStyle::OpenFreeMap => "openfreemap_liberty",
            MapStyle::GsiPhoto => "gsi_photo",
        }
    }
}

/// Display settings.
pub struct UiConfig {
    /// "metric" or "imperial".
    pub unit: String,
    /// Automatic refresh interval in seconds; 0 disables it.
    pub refresh_interval: u64,
    /// Display language (English unless configured).
    pub language: Language,
}

impl Default for UiConfig {
    fn default() -> (r: UiConfig)
        ensures
            r.unit@ == "metric"@,
            r.refresh_interval == 600,
            r.language == Language::English,
    {
        UiConfig {
            unit: String::from_str("metric"),
            refresh_interval: 600,
            language: Language::English,
        }
    }
}

/// Cycling through the styles visits all five and comes back after five
/// steps, in the order OpenFreeMap, OpenStreetMap, CARTO Voyager, GSI
/// standard, GSI aerial photographs.
pub proof fn law_styles_cycle(s: MapStyle)
    ensures
        next_style(next_style(next_style(next_style(next_style(s))))) == s,
        next_style(s) != s,
        next_style(next_style(s)) != s,
        next_style(next_style(next_style(s))) != s,
        next_style(next_style(next_style(next_style(s)))) != s,
        next_style(MapStyle::OpenFreeMap) == MapStyle::OpenStreetMap,
        next_style(MapStyle::OpenStreetMap) == MapStyle::CartoVoyager,
        next_style(MapStyle::CartoVoyager) == MapStyle::GsiStd,
        next_style(MapStyle::GsiStd) == MapStyle::GsiPhoto,
{
}

/// Outside Japan no GSI style is ever shown (OpenFreeMap takes its place),
/// other styles are kept everywhere, Japan is recognised whatever the case of
/// its code, and choosing the style for a country twice changes nothing.
pub proof fn law_no_gsi_outside_japan(s: MapStyle, country: Seq<char>)
    ensures
        !is_japan(country) ==> !is_gsi(style_for_country(s, country)),
        style_for_country(style_for_country(s, country), country) == style_for_country(s, country),
        is_japan(country) ==> style_for_country(s, country) == s,
        !is_japan(country) && is_gsi(s) ==> style_for_country(s, country) == MapStyle::OpenFreeMap,
        !is_gsi(s) ==> style_for_country(s, country) == s,
        is_japan("JP"@) && is_japan("jp"@) && !is_japan("US"@),
{
    reveal_strlit("JP");
    reveal_strlit("jp");
    reveal_strlit("US");
    assert(ascii_lower("jp"@[0]) == ascii_lower("JP"@[0]));
    assert(ascii_lower("jp"@[1]) == ascii_lower("JP"@[1]));
    assert(ascii_lower("US"@[0]) != ascii_lower("JP"@[0]));
}

/// The CARTO key only ever reaches CARTO URLs: for every other style, and
/// without a usable key, the URL is the plain tile URL.
pub proof fn law_key_only_for_carto(s: MapStyle, z: nat, x: nat, y: nat, key: Option<Seq<char>>)
    requires
        !(s is CartoVoyager) || !usable_key(key),
    ensures
        keyed_tile_url_text(s, z, x, y, key) == tile_url_text(s, z, x, y),
{
}

/// Each style's label names that style's map, in agreement with the name
/// its tiles are cached under and the server they come from: the GSI
/// standard map reads 標準, the GSI aerial photographs 航空写真. No two
/// styles share a label, and the label in the panel title is that label for
/// every style but CARTO, whose title adds the attributions. Aerial
/// photographs come as JPEG, OpenFreeMap as vector tiles, the rest as PNG.
pub proof fn law_label_names_its_style(s: MapStyle, t: MapStyle, lang: Language)
    ensures
        s == MapStyle::GsiStd ==> label_text(s) == "国土地理院 標準"@ && cache_key_text(s)
            == "gsi_std"@ && tile_url_prefix(s) == "https://cyberjapandata.gsi.go.jp/xyz/std/"@,
        s == MapStyle::GsiPhoto ==> label_text(s) == "国土地理院 航空写真"@ && cache_key_text(s)
            == "gsi_photo"@ && tile_url_prefix(s)
            == "https://cyberjapandata.gsi.go.jp/xyz/seamlessphoto/"@,
        s == MapStyle::OpenStreetMap ==> label_text(s)
            == "OpenStreetMap (© OpenStreetMap contributors)"@ && cache_key_text(s)
            == "openstreetmap"@ && tile_url_prefix(s) == "https://tile.openstreetmap.org/"@,
        s == MapStyle::CartoVoyager ==> label_text(s) == "CARTO Voyager (API key required)"@
            && cache_key_text(s) == "carto_voyager"@ && tile_url_prefix(s)
            == "https://basemaps.cartocdn.com/rastertiles/voyager/"@,
        s == MapStyle::OpenFreeMap ==> label_text(s)
            == "OpenFreeMap Liberty (© OpenMapTiles, © OpenStreetMap)"@ && cache_key_text(s)
            == "openfreemap_liberty"@ && tile_url_prefix(s) == "https://tiles.openfreemap.org/planet/"@,
        s != t ==> label_text(s) != label_text(t),
        tile_url_suffix(s) == (if s is OpenFreeMap {
            ".pbf"@
        } else if s is GsiPhoto {
            ".jpg"@
        } else {
            ".png"@
        }),
        !(s is CartoVoyager) ==> label_for_language_text(s, lang) == label_text(s),
        label_for_language_text(MapStyle::CartoVoyager, lang)
            == "CARTO Voyager (© OpenStreetMap contributors, © CARTO)"@,
{
    reveal_strlit("国土地理院 標準");
    reveal_strlit("国土地理院 航空写真");
    reveal_strlit("OpenStreetMap (© OpenStreetMap contributors)");
    reveal_strlit("CARTO Voyager (API key required)");
    reveal_strlit("OpenFreeMap Liberty (© OpenMapTiles, © OpenStreetMap)");
    assert(label_text(s).len() != label_text(t).len() || s == t);
}

/// The map style used when the configuration does not name one.
pub fn default_map_style() -> (r: MapStyle)
    ensures
        r == MapStyle::OpenFreeMap,
{
    MapStyle::OpenFreeMap
}

} // verus!
