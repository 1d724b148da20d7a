use termrain::api::open_meteo::{
    fallback_map_style, icon_at, local_from_naive, is_placeholder_tile, neighbourhood_tiles, parse_local_with_offset,
    pick_frame_index, radar_tile_url, radar_zoom_levels, wmo_to_icon, wmo_to_text, TileSlot, TimeError,
    RAINVIEWER_OFFSET_MAX, RAINVIEWER_OFFSET_MIN, EARLIEST_TIMESTAMP, LATEST_TIMESTAMP,
};
use termrain::api::openfreemap::fill_tile_template;
use termrain::api::WeatherIcon;
use termrain::config::MapStyle;
use termrain::i18n::Language;

#[test]
fn maps_wmo_code_ranges_to_icons() {
    assert_eq!(wmo_to_icon(0), WeatherIcon::Sunny);
    assert_eq!(wmo_to_icon(2), WeatherIcon::PartlyCloudy);
    assert_eq!(wmo_to_icon(45), WeatherIcon::Cloudy);
    assert_eq!(wmo_to_icon(61), WeatherIcon::Rain);
    assert_eq!(wmo_to_icon(71), WeatherIcon::Snow);
    assert_eq!(wmo_to_icon(95), WeatherIcon::Thunder);
    assert_eq!(wmo_to_icon(100), WeatherIcon::Unknown);
}

#[test]
fn maps_wmo_codes_to_both_supported_languages() {
    assert_eq!(wmo_to_text(0, Language::Japanese), "快晴");
    assert_eq!(wmo_to_text(61, Language::Japanese), "雨");
    assert_eq!(wmo_to_text(95, Language::English), "Thunderstorm");
    assert_eq!(wmo_to_text(100, Language::English), "Unknown");
}

#[test]
fn converts_local_api_time_using_the_provider_offset() {
    let actual = parse_local_with_offset("2026-06-08T18:00", Some(7200)).unwrap();
    let expected = chrono::DateTime::parse_from_rfc3339("2026-06-08T16:00:00+00:00")
        .unwrap()
        .timestamp();

    assert_eq!(actual, expected);
    assert!(parse_local_with_offset("invalid", Some(7200)).is_err());
}

#[test]
fn local_time_offsets_default_to_utc_and_are_bounded() {
    assert_eq!(
        parse_local_with_offset("2026-06-08T18:00", None),
        Ok(1780941600)
    );
    assert_eq!(
        parse_local_with_offset("2026-06-08T18:00", Some(-3600)),
        Ok(1780945200)
    );
    assert_eq!(
        parse_local_with_offset("2026-06-08T18:00", Some(86400)),
        Err(TimeError::InvalidOffset)
    );
    assert_eq!(
        parse_local_with_offset("2026-06-08", Some(0)),
        Err(TimeError::Parse)
    );
}

#[test]
fn falls_back_to_openfreemap_for_non_japanese_gsi_styles() {
    assert_eq!(fallback_map_style(MapStyle::GsiStd), MapStyle::OpenFreeMap);
    assert_eq!(fallback_map_style(MapStyle::GsiPhoto), MapStyle::OpenFreeMap);
    assert_eq!(
        fallback_map_style(MapStyle::OpenStreetMap),
        MapStyle::OpenStreetMap
    );
    assert_eq!(
        fallback_map_style(MapStyle::CartoVoyager),
        MapStyle::CartoVoyager
    );
    assert_eq!(fallback_map_style(MapStyle::OpenFreeMap), MapStyle::OpenFreeMap);
}

#[test]
fn exposes_the_rainviewer_supported_offset_range() {
    assert_eq!((RAINVIEWER_OFFSET_MIN, RAINVIEWER_OFFSET_MAX), (-12, 0));
}

#[test]
fn radar_frames_are_picked_from_the_latest_past_frame_and_clamped() {
    assert_eq!(pick_frame_index(0, 0, 0), None);
    assert_eq!(pick_frame_index(12, 0, 0), Some(11));
    assert_eq!(pick_frame_index(12, 0, -3), Some(8));
    assert_eq!(pick_frame_index(12, 0, -20), Some(0));
    assert_eq!(pick_frame_index(12, 3, 2), Some(13));
    assert_eq!(pick_frame_index(12, 3, 9), Some(14));
    assert_eq!(pick_frame_index(0, 3, 1), Some(1));
}

#[test]
fn radar_and_map_zoom_levels_are_capped() {
    assert_eq!(radar_zoom_levels(11), (11, 7));
    assert_eq!(radar_zoom_levels(5), (5, 5));
    assert_eq!(radar_zoom_levels(20), (13, 7));
}

#[test]
fn neighbourhood_is_five_by_three_without_negative_tiles() {
    let all = neighbourhood_tiles(10, 20);
    assert_eq!(all.len(), 15);
    assert_eq!(all[0], TileSlot { dx: -2, dy: -1, x: 8, y: 19 });
    assert_eq!(all[7], TileSlot { dx: 0, dy: 0, x: 10, y: 20 });
    assert_eq!(all[14], TileSlot { dx: 2, dy: 1, x: 12, y: 21 });

    let corner = neighbourhood_tiles(0, 0);
    assert_eq!(corner.len(), 6);
    assert_eq!(corner[0], TileSlot { dx: 0, dy: 0, x: 0, y: 0 });
    assert_eq!(corner[5], TileSlot { dx: 2, dy: 1, x: 2, y: 1 });
}

#[test]
fn small_radar_tiles_are_placeholders() {
    assert!(is_placeholder_tile(1370));
    assert!(is_placeholder_tile(1999));
    assert!(!is_placeholder_tile(2000));
}

#[test]
fn series_icons_fall_back_to_unknown() {
    let codes = Some(vec![61, 0]);
    assert_eq!(icon_at(&codes, 0), WeatherIcon::Rain);
    assert_eq!(icon_at(&codes, 1), WeatherIcon::Sunny);
    assert_eq!(icon_at(&codes, 2), WeatherIcon::Unknown);
    assert_eq!(icon_at(&None, 0), WeatherIcon::Unknown);
}

#[test]
fn described_codes_have_icons_and_others_read_unknown() {
    for code in 0..120u32 {
        let en = wmo_to_text(code, Language::English);
        let ja = wmo_to_text(code, Language::Japanese);
        assert_eq!(en == "Unknown", ja == "不明");
        if en != "Unknown" {
            assert_ne!(wmo_to_icon(code), WeatherIcon::Unknown);
        }
    }
}

#[test]
fn vector_tile_template_gets_the_coordinates() {
    assert_eq!(
        fill_tile_template("https://tiles.openfreemap.org/planet/20250101/{z}/{x}/{y}.pbf", 11, 1818, 806),
        "https://tiles.openfreemap.org/planet/20250101/11/1818/806.pbf"
    );
    assert_eq!(fill_tile_template("{x}-{x}{z}", 1, 22, 3), "22-221");
    assert_eq!(fill_tile_template("no placeholders", 1, 2, 3), "no placeholders");
}

#[test]
fn radar_tile_urls_use_the_frame_path_and_tile() {
    assert_eq!(
        radar_tile_url("https://tilecache.rainviewer.com", "/v2/radar/1699999000", 7, 113, 50),
        "https://tilecache.rainviewer.com/v2/radar/1699999000/256/7/113/50/2/1_1.png"
    );
}

#[test]
fn local_from_naive_applies_the_offset_and_checks_its_bounds() {
    assert_eq!(local_from_naive(Some(7200), Some(3600)), Ok(3600));
    assert_eq!(local_from_naive(Some(7200), None), Ok(7200));
    assert_eq!(local_from_naive(None, Some(0)), Err(TimeError::Parse));
    assert_eq!(local_from_naive(Some(0), Some(-86400)), Err(TimeError::InvalidOffset));
    assert_eq!(local_from_naive(Some(EARLIEST_TIMESTAMP), Some(1)), Err(TimeError::OutOfRange));
    assert_eq!(local_from_naive(Some(LATEST_TIMESTAMP), Some(-1)), Err(TimeError::OutOfRange));
    assert_eq!(local_from_naive(Some(LATEST_TIMESTAMP), Some(0)), Ok(LATEST_TIMESTAMP));
}
