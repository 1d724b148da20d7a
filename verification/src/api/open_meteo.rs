//! Open-Meteo forecasts and RainViewer radar frames: weather code tables,
//! time conversion and the choice of radar frame and tiles.

use vstd::prelude::*;

use crate::api::WeatherIcon;
use crate::config::{is_gsi, MapStyle};
use crate::i18n::Language;
use crate::text::{decimal, push_decimal};

verus! {

/// Icon category of a WMO weather code.
pub open spec fn wmo_icon(code: u32) -> WeatherIcon {
    if code == 0 {
        WeatherIcon::Sunny
    } else if 1 <= code <= 2 {
        WeatherIcon::PartlyCloudy
    } else if code == 3 || code == 45 || code == 48 {
        WeatherIcon::Cloudy
    } else if (51 <= code <= 67) || (80 <= code <= 82) {
        WeatherIcon::Rain
    } else if (71 <= code <= 77) || code == 85 || code == 86 {
        WeatherIcon::Snow
    } else if 95 <= code <= 99 {
        WeatherIcon::Thunder
    } else {
        WeatherIcon::Unknown
    }
}

pub fn wmo_to_icon(code: u32) -> (r: WeatherIcon)
    ensures
        r == wmo_icon(code),
{
    match code {
        0 => WeatherIcon::Sunny,
        1..=2 => WeatherIcon::PartlyCloudy,
        3 => WeatherIcon::Cloudy,
        45 | 48 => WeatherIcon::Cloudy,
        51..=67 | 80..=82 => WeatherIcon::Rain,
        71..=77 | 85 | 86 => WeatherIcon::Snow,
        95..=99 => WeatherIcon::Thunder,
        _ => WeatherIcon::Unknown,
    }
}

/// Japanese description of a WMO weather code.
pub open spec fn wmo_text_ja(c: u32) -> Seq<char> {
    if c == 0 {
        "快晴"@
    } else if c == 1 {
        "晴れ"@
    } else if c == 2 {
        "晴れ時々曇り"@
    } else if c == 3 {
        "曇り"@
    } else if c == 45 || c == 48 {
        "霧"@
    } else if c == 51 || c == 53 || c == 55 {
        "霧雨"@
    } else if c == 61 || c == 63 || c == 65 {
        "雨"@
    } else if c == 66 || c == 67 {
        "凍雨"@
    } else if c == 71 || c == 73 || c == 75 {
        "雪"@
    } else if c == 77 {
        "霧雪"@
    } else if c == 80 || c == 81 || c == 82 {
        "にわか雨"@
    } else if c == 85 || c == 86 {
        "にわか雪"@
    } else if c == 95 {
        "雷雨"@
    } else if c == 96 || c == 99 {
        "雷雨（雹あり）"@
    } else {
        "不明"@
    }
}

/// English description of a WMO weather code.
pub open spec fn wmo_text_en(c: u32) -> Seq<char> {
    if c == 0 {
        "Clear"@
    } else if c == 1 {
        "Mostly clear"@
    } else if c == 2 {
        "Partly cloudy"@
    } else if c == 3 {
        "Cloudy"@
    } else if c == 45 || c == 48 {
        "Fog"@
    } else if c == 51 || c == 53 || c == 55 {
        "Drizzle"@
    } else if c == 61 || c == 63 || c == 65 {
        "Rain"@
    } else if c == 66 || c == 67 {
        "Freezing rain"@
    } else if c == 71 || c == 73 || c == 75 {
        "Snow"@
    } else if c == 77 {
        "Snow grains"@
    } else if c == 80 || c == 81 || c == 82 {
        "Showers"@
    } else if c == 85 || c == 86 {
        "Snow showers"@
    } else if c == 95 {
        "Thunderstorm"@
    } else if c == 96 || c == 99 {
        "Thunderstorm w/ hail"@
    } else {
        "Unknown"@
    }
}

/// The codes that have a description of their own (all others read
/// "Unknown").
pub open spec fn wmo_code_described(c: u32) -> bool {
    c == 0 || c == 1 || c == 2 || c == 3 || c == 45 || c == 48 || c == 51 || c == 53 || c == 55
        || c == 61 || c == 63 || c == 65 || c == 66 || c == 67 || c == 71 || c == 73 || c == 75
        || c == 77 || c == 80 || c == 81 || c == 82 || c == 85 || c == 86 || c == 95 || c == 96
        || c == 99
}

pub open spec fn wmo_text(code: u32, lang: Language) -> Seq<char> {
    match lang {
        Language::Japanese => wmo_text_ja(code),
        Language::English => wmo_text_en(code),
    }
}

/// Description of a WMO weather code in the display language.
pub fn wmo_to_text(code: u32, lang: Language) -> (r: &'static str)
    ensures
        r@ == wmo_text(code, lang),
{
    match lang {
        Language::Japanese => match code {
            0 => "快晴",
            1 => "晴れ",
            2 => "晴れ時々曇り",
            3 => "曇り",
            45 | 48 => "霧",
            51 | 53 | 55 => "霧雨",
            61 | 63 | 65 => "雨",
            66 | 67 => "凍雨",
            71 | 73 | 75 => "雪",
            77 => "霧雪",
            80 | 81 | 82 => "にわか雨",
            85 | 86 => "にわか雪",
            95 => "雷雨",
            96 | 99 => "雷雨（雹あり）",
            _ => "不明",
        },
        Language::English => match code {
            0 => "Clear",
            1 => "Mostly clear",
            2 => "Partly cloudy",
            3 => "Cloudy",
            45 | 48 => "Fog",
            51 | 53 | 55 => "Drizzle",
            61 | 63 | 65 => "Rain",
            66 | 67 => "Freezing rain",
            71 | 73 | 75 => "Snow",
            77 => "Snow grains",
            80 | 81 | 82 => "Showers",
            85 | 86 => "Snow showers",
            95 => "Thunderstorm",
            96 | 99 => "Thunderstorm w/ hail",
            _ => "Unknown",
        },
    }
}

/// Every code that has its own description also has a known icon.
pub proof fn lemma_described_codes_have_icons(code: u32)
    requires
        wmo_code_described(code),
    ensures
        wmo_icon(code) != WeatherIcon::Unknown,
{
}

/// A code without its own description reads "Unknown" ("不明" in Japanese).
pub proof fn lemma_undescribed_codes_read_unknown(code: u32)
    requires
        !wmo_code_described(code),
    ensures
        wmo_text(code, Language::English) == "Unknown"@,
        wmo_text(code, Language::Japanese) == "不明"@,
{
}

/// Rain (drizzle, rain, freezing rain, showers: 51..=67 and 80..=82) is
/// drawn as rain, snow (snow fall and grains 71..=77, snow showers 85 and 86)
/// as snow, thunderstorms (95..=99) as thunder; clear sky (0) is sunny,
/// mainly clear and partly cloudy (1, 2) partly cloudy, and overcast and fog
/// (3, 45, 48) cloudy. No other code has an icon.
pub proof fn law_weather_icons(code: u32)
    ensures
        wmo_icon(code) == WeatherIcon::Rain <==> (51 <= code <= 67 || 80 <= code <= 82),
        wmo_icon(code) == WeatherIcon::Snow <==> (71 <= code <= 77 || code == 85 || code == 86),
        wmo_icon(code) == WeatherIcon::Thunder <==> 95 <= code <= 99,
        wmo_icon(code) == WeatherIcon::Sunny <==> code == 0,
        wmo_icon(code) == WeatherIcon::PartlyCloudy <==> (code == 1 || code == 2),
        wmo_icon(code) == WeatherIcon::Cloudy <==> (code == 3 || code == 45 || code == 48),
        wmo_icon(code) == WeatherIcon::Unknown <==> !(code <= 3 || code == 45 || code == 48 || (51
            <= code <= 67) || (71 <= code <= 77) || (80 <= code <= 82) || code == 85 || code == 86
            || (95 <= code <= 99)),
{
}

/// What each weather code reads, in English and in Japanese, and which icon
/// it gets: the two languages say the same thing (Rain = 雨, Snow = 雪, ...),
/// rain and snow are told apart (61/63/65 read Rain, 71/73/75 read Snow), and
/// the icon matches the description (drizzle, freezing rain and showers are
/// rain; snow grains and snow showers are snow; fog is cloudy). Codes without
/// a description of their own read Unknown / 不明.
pub proof fn law_weather_texts(code: u32)
    ensures
        (code == 0) ==> wmo_text_en(code) == "Clear"@ && wmo_text_ja(code) == "快晴"@
            && wmo_icon(code) == WeatherIcon::Sunny,
        (code == 1) ==> wmo_text_en(code) == "Mostly clear"@ && wmo_text_ja(code) == "晴れ"@
            && wmo_icon(code) == WeatherIcon::PartlyCloudy,
        (code == 2) ==> wmo_text_en(code) == "Partly cloudy"@ && wmo_text_ja(code) == "晴れ時々曇り"@
            && wmo_icon(code) == WeatherIcon::PartlyCloudy,
        (code == 3) ==> wmo_text_en(code) == "Cloudy"@ && wmo_text_ja(code) == "曇り"@
            && wmo_icon(code) == WeatherIcon::Cloudy,
        (code == 45 || code == 48) ==> wmo_text_en(code) == "Fog"@ && wmo_text_ja(code) == "霧"@
            && wmo_icon(code) == WeatherIcon::Cloudy,
        (code == 51 || code == 53 || code == 55) ==> wmo_text_en(code) == "Drizzle"@ && wmo_text_ja(code) == "霧雨"@
            && wmo_icon(code) == WeatherIcon::Rain,
        (code == 61 || code == 63 || code == 65) ==> wmo_text_en(code) == "Rain"@ && wmo_text_ja(code) == "雨"@
            && wmo_icon(code) == WeatherIcon::Rain,
        (code == 66 || code == 67) ==> wmo_text_en(code) == "Freezing rain"@ && wmo_text_ja(code) == "凍雨"@
            && wmo_icon(code) == WeatherIcon::Rain,
        (code == 71 || code == 73 || code == 75) ==> wmo_text_en(code) == "Snow"@ && wmo_text_ja(code) == "雪"@
            && wmo_icon(code) == WeatherIcon::Snow,
        (code == 77) ==> wmo_text_en(code) == "Snow grains"@ && wmo_text_ja(code) == "霧雪"@
            && wmo_icon(code) == WeatherIcon::Snow,
        (code == 80 || code == 81 || code == 82) ==> wmo_text_en(code) == "Showers"@ && wmo_text_ja(code) == "にわか雨"@
            && wmo_icon(code) == WeatherIcon::Rain,
        (code == 85 || code == 86) ==> wmo_text_en(code) == "Snow showers"@ && wmo_text_ja(code) == "にわか雪"@
            && wmo_icon(code) == WeatherIcon::Snow,
        (code == 95) ==> wmo_text_en(code) == "Thunderstorm"@ && wmo_text_ja(code) == "雷雨"@
            && wmo_icon(code) == WeatherIcon::Thunder,
        (code == 96 || code == 99) ==> wmo_text_en(code) == "Thunderstorm w/ hail"@ && wmo_text_ja(code) == "雷雨（雹あり）"@
            && wmo_icon(code) == WeatherIcon::Thunder,
        (!wmo_code_described(code)) ==> wmo_text_en(code) == "Unknown"@ && wmo_text_ja(code) == "不明"@,
{
}

/// Icon for entry `i` of an optional series of weather codes; missing
/// series or entries give `Unknown`.
pub fn icon_at(codes: &Option<Vec<u32>>, i: usize) -> (r: WeatherIcon)
    ensures
        r == (match codes {
            Some(v) => if i < v.len() {
                wmo_icon(v[i as int])
            } else {
                WeatherIcon::Unknown
            },
            None => WeatherIcon::Unknown,
        }),
{
    match codes {
        Some(v) => if i < v.len() {
            wmo_to_icon(v[i])
        } else {
            WeatherIcon::Unknown
        },
        None => WeatherIcon::Unknown,
    }
}

/// What chrono's `NaiveDateTime::parse_from_str(s, "%Y-%m-%dT%H:%M")`
/// yields for `s`, as seconds since 1970-01-01T00:00 reading the wall-clock
/// time as UTC (`None` where parsing fails).
pub uninterp spec fn api_minute_epoch(s: Seq<char>) -> Option<i64>;

/// Calls chrono's `NaiveDateTime::parse_from_str` with the format
/// `%Y-%m-%dT%H:%M` and, on success, `.and_utc().timestamp()`. The result
/// is only named: the contract says that it depends on `s` alone.
#[verifier::external_body]
fn parse_api_minute(s: &str) -> (r: Option<i64>)
    ensures
        r == api_minute_epoch(s@),
{
    chrono::NaiveDateTime::parse_from_str(s, "%Y-%m-%dT%H:%M").ok().map(|t| t.and_utc().timestamp())
}

/// First second of chrono's earliest date (-262143-01-01).
pub const EARLIEST_TIMESTAMP: i64 = -8334601315200;

/// Last second of chrono's latest date (+262142-12-31).
pub const LATEST_TIMESTAMP: i64 = 8210266876799;

/// Why an Open-Meteo time stamp was refused.
#[derive(Clone, Copy, Debug, PartialEq, Eq, Structural)]
pub enum TimeError {
    /// The text is not `%Y-%m-%dT%H:%M`.
    Parse,
    /// The UTC offset is not strictly between -86400 and 86400 seconds.
    InvalidOffset,
    /// The instant falls outside the dates chrono can hold.
    OutOfRange,
}

/// The instant named by a local wall-clock time and its UTC offset.
pub open spec fn local_instant(s: Seq<char>, offset: Option<i32>) -> Result<int, TimeError> {
    instant_from_naive(api_minute_epoch(s), offset)
}

/// The instant of a parsed wall-clock time (`naive`, seconds since the epoch
/// read as UTC, `None` when the text did not parse) at the UTC offset
/// `offset_seconds` (default 0).
pub open spec fn instant_from_naive(naive: Option<i64>, offset: Option<i32>) -> Result<int, TimeError> {
    let off: int = match offset {
        Some(o) => o as int,
        None => 0,
    };
    match naive {
        None => Err(TimeError::Parse),
        Some(t) => if !(-86400 < off < 86400) {
            Err(TimeError::InvalidOffset)
        } else if !(EARLIEST_TIMESTAMP <= t - off <= LATEST_TIMESTAMP) {
            Err(TimeError::OutOfRange)
        } else {
            Ok(t - off)
        },
    }
}

/// Applies the UTC offset (default 0) to a parsed wall-clock time: the
/// offset must lie strictly within a day, and the instant within the dates
/// chrono can hold.
pub fn local_from_naive(naive: Option<i64>, offset_seconds: Option<i32>) -> (r: Result<i64, TimeError>)
    ensures
        match r {
            Ok(t) => instant_from_naive(naive, offset_seconds) == Ok::<int, TimeError>(t as int),
            Err(e) => instant_from_naive(naive, offset_seconds) == Err::<int, TimeError>(e),
        },
{
    let naive = match naive {
        Some(t) => t,
        None => return Err(TimeError::Parse),
    };
    let off: i32 = match offset_seconds {
        Some(o) => o,
        None => 0,
    };
    if !(-86400 < off && off < 86400) {
        return Err(TimeError::InvalidOffset);
    }
    if naive < EARLIEST_TIMESTAMP + off as i64 || naive > LATEST_TIMESTAMP + off as i64 {
        return Err(TimeError::OutOfRange);
    }
    Ok(naive - off as i64)
}

/// Every offset of less than a day is accepted: a wall-clock time `t` at
/// offset `o` is the instant `t - o` whenever that instant lies within
/// chrono's dates, and a missing offset counts as UTC.
pub proof fn law_valid_offsets_are_applied(t: i64, o: i32)
    requires
        -86400 < o < 86400,
        EARLIEST_TIMESTAMP <= t - o <= LATEST_TIMESTAMP,
    ensures
        instant_from_naive(Some(t), Some(o)) == Ok::<int, TimeError>(t - o),
        instant_from_naive(Some(t), None) == instant_from_naive(Some(t), Some(0i32)),
{
}

/// Each outcome of the conversion, in terms of its inputs: text that did not
/// parse is the only parse error, an offset of a day or more (either way) the
/// only offset error, and a result added to the offset gives back the
/// wall-clock time.
pub proof fn law_time_outcomes(naive: Option<i64>, offset: Option<i32>)
    ensures
        instant_from_naive(naive, offset) == Err::<int, TimeError>(TimeError::Parse) <==> naive
            is None,
        instant_from_naive(naive, offset) == Err::<int, TimeError>(TimeError::InvalidOffset) <==> (
        naive is Some && offset is Some && (offset->0 <= -86400 || offset->0 >= 86400)),
        instant_from_naive(naive, offset) is Ok ==> naive is Some && instant_from_naive(
            naive,
            offset,
        )->Ok_0 + (match offset {
            Some(o) => o as int,
            None => 0,
        }) == naive->0,
        instant_from_naive(naive, offset) is Ok ==> EARLIEST_TIMESTAMP <= instant_from_naive(
            naive,
            offset,
        )->Ok_0 <= LATEST_TIMESTAMP,
{
}

/// Converts the local time `s` that Open-Meteo reports (with
/// `timezone=auto`) and the location's UTC offset (default 0) to a Unix
/// timestamp, so that the absolute instant is kept.
pub fn parse_local_with_offset(s: &str, offset_seconds: Option<i32>) -> (r: Result<i64, TimeError>)
    ensures
        match r {
            Ok(t) => local_instant(s@, offset_seconds) == Ok::<int, TimeError>(t as int),
            Err(e) => local_instant(s@, offset_seconds) == Err::<int, TimeError>(e),
        },
{
    local_from_naive(parse_api_minute(s), offset_seconds)
}

/// Open-Meteo does not serve GSI tiles (they cover Japan only): those styles
/// fall back to OpenFreeMap.
pub fn fallback_map_style(style: MapStyle) -> (r: MapStyle)
    ensures
        r == (if is_gsi(style) {
            MapStyle::OpenFreeMap
        } else {
            style
        }),
{
    match style {
        MapStyle::GsiStd | MapStyle::GsiPhoto => MapStyle::OpenFreeMap,
        s => s,
    }
}

/// Earliest radar frame offset RainViewer offers (its free tier keeps the
/// past two hours, twelve frames).
pub const RAINVIEWER_OFFSET_MIN: i32 = -12;

/// Latest radar frame offset RainViewer offers (no forecast frames).
pub const RAINVIEWER_OFFSET_MAX: i32 = 0;

/// Map tiles go up to zoom 13; RainViewer's free tiles only up to zoom 7.
pub fn radar_zoom_levels(zoom: u8) -> (r: (u8, u8))
    ensures
        r.0 == (if zoom < 13 {
            zoom
        } else {
            13
        }),
        r.1 == (if zoom < 7 {
            zoom
        } else {
            7
        }),
{
    let map_z: u8 = if zoom < 13 {
        zoom
    } else {
        13
    };
    let radar_z: u8 = if zoom < 7 {
        zoom
    } else {
        7
    };
    (map_z, radar_z)
}

/// Index into `past ++ nowcast` of the frame shown for `offset`: offset 0 is
/// the latest past frame, and indices beyond either end are clamped.
pub open spec fn frame_index(past_len: int, nowcast_len: int, offset: int) -> int {
    let latest: int = if past_len > 0 {
        past_len - 1
    } else {
        0
    };
    let total = past_len + nowcast_len;
    if latest + offset < 0 {
        0
    } else if latest + offset > total - 1 {
        total - 1
    } else {
        latest + offset
    }
}

/// The radar frame for `time_offset`, or `None` when RainViewer lists no
/// frame at all.
pub fn pick_frame_index(past_len: usize, nowcast_len: usize, time_offset: i32) -> (r: Option<usize>)
    requires
        past_len + nowcast_len <= i32::MAX,
        i32::MIN <= (if past_len > 0 {
            past_len - 1
        } else {
            0
        }) + time_offset <= i32::MAX,
    ensures
        r is None <==> past_len + nowcast_len == 0,
        r matches Some(i) ==> i == frame_index(past_len as int, nowcast_len as int, time_offset as int)
            && i < past_len + nowcast_len,
{
    let total: i32 = (past_len + nowcast_len) as i32;
    if total == 0 {
        return None;
    }
    let latest: i32 = if past_len > 0 {
        (past_len - 1) as i32
    } else {
        0
    };
    let want: i32 = latest + time_offset;
    let idx: i32 = if want < 0 {
        0
    } else if want > total - 1 {
        total - 1
    } else {
        want
    };
    Some(idx as usize)
}

/// A tile around the centre tile: its offset in the 5x3 block and its
/// coordinates.
#[derive(Clone, Copy, Debug, PartialEq, Eq, Structural)]
pub struct TileSlot {
    pub dx: i32,
    pub dy: i32,
    pub x: u32,
    pub y: u32,
}

/// Offset of the `k`-th slot of the 5x3 block, row by row (dy outer, dx
/// inner, both ascending).
pub open spec fn slot_offset(k: int) -> (int, int) {
    (k % 5 - 2, k / 5 - 1)
}

/// Slots `k..15` of the block around `(cx, cy)`, skipping those with a
/// negative coordinate.
pub open spec fn slots_from(cx: int, cy: int, k: int) -> Seq<TileSlot>
    decreases 15 - k,
{
    if k >= 15 || k < 0 {
        seq![]
    } else {
        let (dx, dy) = slot_offset(k);
        (if cx + dx >= 0 && cy + dy >= 0 {
            seq![TileSlot { dx: dx as i32, dy: dy as i32, x: (cx + dx) as u32, y: (cy + dy) as u32 }]
        } else {
            seq![]
        }) + slots_from(cx, cy, k + 1)
    }
}

/// The tiles fetched around the centre tile `(cx, cy)`: two columns either
/// side and one row above and below, row by row, without tiles that would
/// lie at a negative coordinate.
pub fn neighbourhood_tiles(cx: u32, cy: u32) -> (r: Vec<TileSlot>)
    requires
        cx + 2 <= i32::MAX,
        cy + 1 <= i32::MAX,
    ensures
        r@ == slots_from(cx as int, cy as int, 0),
{
    let mut out: Vec<TileSlot> = Vec::new();
    let mut k: i32 = 0;
    while k < 15
        invariant
            0 <= k <= 15,
            cx + 2 <= i32::MAX,
            cy + 1 <= i32::MAX,
            out@ + slots_from(cx as int, cy as int, k as int) == slots_from(cx as int, cy as int, 0),
        decreases 15 - k,
    {
        let dx: i32 = k % 5 - 2;
        let dy: i32 = k / 5 - 1;
        let tx: i32 = cx as i32 + dx;
        let ty: i32 = cy as i32 + dy;
        let ghost before = out@;
        if tx >= 0 && ty >= 0 {
            out.push(TileSlot { dx, dy, x: tx as u32, y: ty as u32 });
        }
        assert(out@ + slots_from(cx as int, cy as int, k + 1) =~= before + slots_from(
            cx as int,
            cy as int,
            k as int,
        ));
        k = k + 1;
    }
    out
}

pub open spec fn radar_tile_url_text(host: Seq<char>, path: Seq<char>, z: nat, x: nat, y: nat) -> Seq<
    char,
> {
    host + path + "/256/"@ + decimal(z) + "/"@ + decimal(x) + "/"@ + decimal(y) + "/2/1_1.png"@
}

/// URL of the 256-pixel RainViewer tile `z/x/y` of the frame at `path` on
/// `host`, in colour scheme 2 ("Universal Blue", close to the JMA palette),
/// smoothed and with snow (`1_1`).
pub fn radar_tile_url(host: &str, path: &str, z: u8, x: u32, y: u32) -> (r: String)
    ensures
        r@ == radar_tile_url_text(host@, path@, z as nat, x as nat, y as nat),
{
    let mut s = String::new();
    s.append(host);
    s.append(path);
    s.append("/256/");
    push_decimal(&mut s, z as u64);
    s.append("/");
    push_decimal(&mut s, x as u64);
    s.append("/");
    push_decimal(&mut s, y as u64);
    s.append("/2/1_1.png");
    assert(s@ =~= radar_tile_url_text(host@, path@, z as nat, x as nat, y as nat));
    s
}

/// RainViewer answers "Zoom Level Not Supported" with a fixed placeholder
/// image of 1370 bytes; real radar tiles are 2 KB or more.
pub const PLACEHOLDER_TILE_LIMIT: usize = 2000;

/// Whether a downloaded radar tile of `len` bytes is the placeholder.
pub fn is_placeholder_tile(len: usize) -> (r: bool)
    ensures
        r == (len < PLACEHOLDER_TILE_LIMIT),
{
    len < PLACEHOLDER_TILE_LIMIT
}

} // verus!
