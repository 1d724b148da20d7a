use termrain::config::{default_map_style, MapStyle, UiConfig};
use termrain::i18n::Language;

#[test]
fn map_styles_cycle_and_keep_their_urls_and_cache_keys() {
    assert_eq!(MapStyle::OpenFreeMap.next(), MapStyle::OpenStreetMap);
    assert_eq!(MapStyle::OpenStreetMap.next(), MapStyle::CartoVoyager);
    assert_eq!(MapStyle::CartoVoyager.next(), MapStyle::GsiStd);
    assert_eq!(MapStyle::GsiStd.next(), MapStyle::GsiPhoto);
    assert_eq!(MapStyle::GsiPhoto.next(), MapStyle::OpenFreeMap);
    assert_eq!(
        MapStyle::GsiStd.effective_for_country("JP"),
        MapStyle::GsiStd
    );
    assert_eq!(
        MapStyle::GsiStd.effective_for_country("FR"),
        MapStyle::OpenFreeMap
    );
    assert_eq!(
        MapStyle::OpenFreeMap.next_for_country("FR"),
        MapStyle::OpenStreetMap
    );
    assert_eq!(
        MapStyle::OpenStreetMap.next_for_country("FR"),
        MapStyle::CartoVoyager
    );
    assert_eq!(
        MapStyle::CartoVoyager.next_for_country("FR"),
        MapStyle::OpenFreeMap
    );

    assert_eq!(
        MapStyle::GsiStd.tile_url(10, 1, 2),
        "https://cyberjapandata.gsi.go.jp/xyz/std/10/1/2.png"
    );
    assert_eq!(MapStyle::GsiStd.cache_key(), "gsi_std");
    assert_eq!(MapStyle::OpenStreetMap.cache_key(), "openstreetmap");
    assert_eq!(MapStyle::CartoVoyager.cache_key(), "carto_voyager");
    assert_eq!(
        MapStyle::CartoVoyager.tile_url(5, 28, 12),
        "https://basemaps.cartocdn.com/rastertiles/voyager/5/28/12.png"
    );
    assert_eq!(
        MapStyle::CartoVoyager
            .tile_url_with_carto_api_key(5, 28, 12, Some("test-key&scope=tiles"),),
        "https://basemaps.cartocdn.com/rastertiles/voyager/5/28/12.png?key=test-key%26scope%3Dtiles"
    );
    assert_eq!(
        MapStyle::CartoVoyager.tile_url_with_carto_api_key(5, 28, 12, Some("   ")),
        "https://basemaps.cartocdn.com/rastertiles/voyager/5/28/12.png"
    );
    assert_eq!(
        MapStyle::OpenStreetMap.tile_url_with_carto_api_key(5, 28, 12, Some("secret")),
        "https://tile.openstreetmap.org/5/28/12.png"
    );
    assert_eq!(MapStyle::OpenFreeMap.cache_key(), "openfreemap_liberty");
    assert_eq!(
        MapStyle::OpenFreeMap.tile_url(5, 28, 12),
        "https://tiles.openfreemap.org/planet/5/28/12.pbf"
    );
    assert_eq!(MapStyle::GsiPhoto.cache_key(), "gsi_photo");
}

#[test]
fn carto_label_keeps_both_required_attributions_in_each_language() {
    for language in [Language::English, Language::Japanese] {
        let label = MapStyle::CartoVoyager.label_for_language(language);
        assert!(label.contains("© OpenStreetMap contributors"));
        assert!(label.contains("© CARTO"));
    }
}

#[test]
fn default_style_label_url_and_cache_key() {
    let default_style = default_map_style();
    assert_eq!(default_style, MapStyle::OpenFreeMap);
    assert_eq!(
        default_style.label(),
        "OpenFreeMap Liberty (© OpenMapTiles, © OpenStreetMap)"
    );
    assert_eq!(
        default_style.tile_url(5, 28, 12),
        "https://tiles.openfreemap.org/planet/5/28/12.pbf"
    );
    assert_eq!(default_style.cache_key(), "openfreemap_liberty");
}

#[test]
fn default_ui_settings_are_metric_ten_minutes_english() {
    let ui = UiConfig::default();
    assert_eq!(ui.unit, "metric");
    assert_eq!(ui.refresh_interval, 600);
    assert_eq!(ui.language, Language::English);
    assert_eq!(Language::default(), Language::English);
}

#[test]
fn tile_urls_of_every_style_and_coordinate_extremes() {
    assert_eq!(
        MapStyle::GsiPhoto.tile_url(0, 0, 0),
        "https://cyberjapandata.gsi.go.jp/xyz/seamlessphoto/0/0/0.jpg"
    );
    assert_eq!(
        MapStyle::OpenStreetMap.tile_url(255, 4294967295, 4294967295),
        "https://tile.openstreetmap.org/255/4294967295/4294967295.png"
    );
}

#[test]
fn country_check_ignores_ascii_case_only() {
    assert_eq!(MapStyle::GsiPhoto.effective_for_country("jp"), MapStyle::GsiPhoto);
    assert_eq!(MapStyle::GsiPhoto.effective_for_country("Jp"), MapStyle::GsiPhoto);
    assert_eq!(MapStyle::GsiPhoto.effective_for_country(""), MapStyle::OpenFreeMap);
    assert_eq!(MapStyle::GsiPhoto.effective_for_country("JPN"), MapStyle::OpenFreeMap);
    assert_eq!(MapStyle::GsiStd.effective_for_country("ＪＰ"), MapStyle::OpenFreeMap);
    assert_eq!(MapStyle::OpenStreetMap.effective_for_country("FR"), MapStyle::OpenStreetMap);
}

#[test]
fn styles_come_back_after_five_steps() {
    for s in [
        MapStyle::GsiStd,
        MapStyle::OpenStreetMap,
        MapStyle::CartoVoyager,
        MapStyle::OpenFreeMap,
        MapStyle::GsiPhoto,
    ] {
        assert_eq!(s.next().next().next().next().next(), s);
        assert_ne!(s.next(), s);
        assert!(!matches!(
            s.effective_for_country("US"),
            MapStyle::GsiStd | MapStyle::GsiPhoto
        ));
    }
}

#[test]
fn carto_key_is_percent_encoded_and_kept_from_other_styles() {
    assert_eq!(
        MapStyle::CartoVoyager.tile_url_with_carto_api_key(1, 2, 3, Some("a b/é")),
        "https://basemaps.cartocdn.com/rastertiles/voyager/1/2/3.png?key=a%20b%2F%C3%A9"
    );
    assert_eq!(
        MapStyle::CartoVoyager.tile_url_with_carto_api_key(1, 2, 3, None),
        "https://basemaps.cartocdn.com/rastertiles/voyager/1/2/3.png"
    );
    assert_eq!(
        MapStyle::GsiStd.tile_url_with_carto_api_key(1, 2, 3, Some("k")),
        "https://cyberjapandata.gsi.go.jp/xyz/std/1/2/3.png"
    );
    assert_eq!(
        MapStyle::CartoVoyager.tile_url_with_carto_api_key(1, 2, 3, Some("\u{3000}\t")),
        "https://basemaps.cartocdn.com/rastertiles/voyager/1/2/3.png"
    );
}

#[test]
fn language_names_and_api_codes() {
    assert_eq!(Language::from_name("ja"), Some(Language::Japanese));
    assert_eq!(Language::from_name("Japanese"), Some(Language::Japanese));
    assert_eq!(Language::from_name("EN"), Some(Language::English));
    assert_eq!(Language::from_name("english"), Some(Language::English));
    assert_eq!(Language::from_name("fr"), None);
    assert_eq!(Language::English.api_code(), "en");
    assert_eq!(Language::Japanese.api_code(), "ja");
}
