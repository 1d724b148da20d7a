use termrain::app::fetch::{apply_msg, should_apply_radar};
use termrain::app::input::{clear_radar_display_for_style_change, handle_event, Effect, InputEvent, KeyCode, KeyInput, Outcome};
use termrain::app::state::{AppState, Msg};
use termrain::app::ticks::{advance_animation, advance_spinner, auto_refresh_period};
use termrain::config::MapStyle;

type State = AppState<u8, u8, u8, f64, u8>;

fn make_state() -> State {
    AppState {
        current: None,
        hourly: Vec::new(),
        daily: Vec::new(),
        radar: None,
        map: 0,
        zoom: 11,
        map_style: MapStyle::OpenFreeMap,
        radar_time_offset: 0,
        radar_playing: false,
        splash_active: true,
        show_help: false,
        spinner_frame: 0,
        radar_loading: false,
        radar_request_id: 0,
        radar_error: None,
        last_error: None,
        quit: false,
    }
}

fn state_with_loading_radar(request_id: u64) -> State {
    let mut s = make_state();
    s.splash_active = false;
    s.radar_loading = true;
    s.radar_request_id = request_id;
    s
}

fn key(c: char) -> InputEvent {
    InputEvent::Key(KeyInput { code: KeyCode::Char(c), ctrl: false, press: true })
}

fn key_ctrl(c: char) -> InputEvent {
    InputEvent::Key(KeyInput { code: KeyCode::Char(c), ctrl: true, press: true })
}

fn esc() -> InputEvent {
    InputEvent::Key(KeyInput { code: KeyCode::Esc, ctrl: false, press: true })
}

const RANGE: (i32, i32) = (-6, 12);

#[test]
fn fetch_accepts_only_the_latest_radar_request() {
    assert!(should_apply_radar(7, 7));
    assert!(!should_apply_radar(6, 7));
    assert!(!should_apply_radar(8, 7));
}

#[test]
fn ignores_a_stale_radar_result_and_keeps_loading_state() {
    let mut state = state_with_loading_radar(7);

    let taken = apply_msg(&mut state, Msg::Radar { request_id: 6, grid: 6.0 });

    assert!(!taken);
    assert!(state.radar.is_none());
    assert!(state.radar_loading);
}

#[test]
fn applies_the_latest_radar_result_and_clears_loading_state() {
    let mut state = state_with_loading_radar(7);

    let taken = apply_msg(&mut state, Msg::Radar { request_id: 7, grid: 7.0 });

    assert!(taken);
    assert_eq!(state.radar, Some(7.0));
    assert!(!state.radar_loading);
}

#[test]
fn other_messages_fill_their_own_field() {
    let mut s = make_state();
    assert!(s.is_loading());
    apply_msg(&mut s, Msg::Current(1));
    apply_msg(&mut s, Msg::Hourly(vec![2, 3]));
    apply_msg(&mut s, Msg::Daily(vec![4]));
    apply_msg(&mut s, Msg::MapLoaded(5));
    apply_msg(&mut s, Msg::Error("radar: timeout".to_string()));
    apply_msg(&mut s, Msg::DismissSplash);
    assert_eq!(s.current, Some(1));
    assert_eq!(s.hourly, vec![2, 3]);
    assert_eq!(s.daily, vec![4]);
    assert_eq!(s.map, 5);
    assert_eq!(s.last_error.as_deref(), Some("radar: timeout"));
    assert!(!s.splash_active);
    assert!(s.is_loading());
    apply_msg(&mut s, Msg::Radar { request_id: 0, grid: 1.5 });
    assert!(!s.is_loading());
}

#[test]
fn handles_basic_keys_without_starting_network_requests() {
    let mut state = make_state();

    let o = handle_event(&mut state, key('?'), RANGE);
    assert!(o.redraw);
    assert!(state.show_help);

    let o = handle_event(&mut state, key('x'), RANGE);
    assert!(o.redraw);
    assert!(!state.show_help);

    let o = handle_event(&mut state, key('p'), RANGE);
    assert!(o.redraw);
    assert!(state.radar_playing);

    let o = handle_event(&mut state, key('x'), RANGE);
    assert!(!o.redraw);
    assert_eq!(o.effect, Effect::Nothing);
}

#[test]
fn quit_key_sets_the_quit_state() {
    let mut state = make_state();
    assert!(handle_event(&mut state, key('q'), RANGE).redraw);
    assert!(state.quit);
}

#[test]
fn quit_on_q() {
    let mut s = make_state();
    let redraw = handle_event(&mut s, key('q'), RANGE).redraw;
    assert!(redraw);
    assert!(s.quit);
}

#[test]
fn quit_on_esc() {
    let mut s = make_state();
    handle_event(&mut s, esc(), RANGE);
    assert!(s.quit);
}

#[test]
fn quit_on_ctrl_c() {
    let mut s = make_state();
    handle_event(&mut s, key_ctrl('c'), RANGE);
    assert!(s.quit);
}

#[test]
fn plain_c_is_not_a_quit_key() {
    let mut s = make_state();
    let o = handle_event(&mut s, key('c'), RANGE);
    assert!(!o.redraw);
    assert!(!s.quit);
}

#[test]
fn show_help_on_question_mark() {
    let mut s = make_state();
    assert!(handle_event(&mut s, key('?'), RANGE).redraw);
    assert!(s.show_help);
    assert!(!s.quit);
}

#[test]
fn toggle_playing_on_p() {
    let mut s = make_state();
    assert!(!s.radar_playing);
    handle_event(&mut s, key('p'), RANGE);
    assert!(s.radar_playing);
    handle_event(&mut s, key('p'), RANGE);
    assert!(!s.radar_playing);
}

#[test]
fn help_open_q_quits() {
    let mut s = make_state();
    s.show_help = true;
    handle_event(&mut s, key('q'), RANGE);
    assert!(s.quit);
    assert!(s.show_help);
}

#[test]
fn help_open_other_key_closes_help() {
    let mut s = make_state();
    s.show_help = true;
    let o = handle_event(&mut s, key('h'), RANGE);
    assert!(o.redraw);
    assert!(!s.show_help);
    assert!(!s.quit);
    // Closing the dialog does not move the location.
    assert_eq!(o.effect, Effect::Nothing);
}

#[test]
fn release_event_is_ignored() {
    let mut s = make_state();
    let ev = InputEvent::Key(KeyInput { code: KeyCode::Char('q'), ctrl: false, press: false });
    let o = handle_event(&mut s, ev, RANGE);
    assert!(!o.redraw);
    assert!(!s.quit);
}

#[test]
fn unmapped_key_returns_false() {
    let mut s = make_state();
    let redraw = handle_event(&mut s, key('x'), RANGE).redraw;
    assert!(!redraw);
    assert!(!s.quit);
}

#[test]
fn zoom_in_clamps_at_13() {
    let mut s = make_state();
    s.zoom = 13;
    handle_event(&mut s, key('+'), RANGE);
    assert_eq!(s.zoom, 13);
    assert!(s.radar_loading);
}

#[test]
fn zoom_out_clamps_at_6() {
    let mut s = make_state();
    s.zoom = 6;
    handle_event(&mut s, key('-'), RANGE);
    assert_eq!(s.zoom, 6);
    assert!(s.radar_loading);
}

#[test]
fn zoom_in_increments_inside_range() {
    let mut s = make_state();
    s.zoom = 8;
    handle_event(&mut s, key('='), RANGE);
    assert_eq!(s.zoom, 9);
}

#[test]
fn time_offset_clamps_at_max() {
    let mut s = make_state();
    s.radar_time_offset = 3;
    handle_event(&mut s, key('.'), (-3, 3));
    assert_eq!(s.radar_time_offset, 3);
    assert!(s.radar_loading);
}

#[test]
fn time_offset_clamps_at_min() {
    let mut s = make_state();
    s.radar_time_offset = -3;
    handle_event(&mut s, key(','), (-3, 3));
    assert_eq!(s.radar_time_offset, -3);
}

#[test]
fn time_offset_advances_inside_range() {
    let mut s = make_state();
    s.radar_time_offset = 0;
    handle_event(&mut s, key('.'), (-3, 3));
    assert_eq!(s.radar_time_offset, 1);
    handle_event(&mut s, key(','), (-3, 3));
    assert_eq!(s.radar_time_offset, 0);
}

#[test]
fn shift_h_decreases_longitude() {
    let mut s = make_state();
    let o = handle_event(&mut s, key('h'), RANGE);
    assert_eq!(o.effect, Effect::Move { east: -1, north: 0, request_id: 1 });
    assert!(s.radar_loading);
}

#[test]
fn shift_k_increases_latitude() {
    let mut s = make_state();
    let o = handle_event(&mut s, key('k'), RANGE);
    assert_eq!(o.effect, Effect::Move { east: 0, north: 1, request_id: 1 });
}

#[test]
fn map_style_cycles_and_notifies_provider() {
    let mut s = make_state();
    s.map_style = MapStyle::GsiStd;

    let o = handle_event(&mut s, key('m'), RANGE);
    assert_eq!(s.map_style, MapStyle::CartoVoyager);
    assert_eq!(
        o.effect,
        Effect::ChangeMapStyle { style: MapStyle::CartoVoyager, request_id: 1 }
    );

    handle_event(&mut s, key('m'), RANGE);
    assert_eq!(s.map_style, MapStyle::GsiPhoto);

    handle_event(&mut s, key('m'), RANGE);
    assert_eq!(s.map_style, MapStyle::GsiStd);
}

#[test]
fn map_key_leads_other_styles_into_the_cycle() {
    let mut s = make_state();
    s.map_style = MapStyle::OpenFreeMap;
    handle_event(&mut s, key('M'), RANGE);
    assert_eq!(s.map_style, MapStyle::OpenStreetMap);
    handle_event(&mut s, key('m'), RANGE);
    assert_eq!(s.map_style, MapStyle::CartoVoyager);
}

#[test]
fn refresh_r_returns_to_current_time() {
    let mut s = make_state();
    s.radar_time_offset = -5;
    let o = handle_event(&mut s, key('r'), RANGE);
    assert_eq!(s.radar_time_offset, 0);
    assert!(matches!(o.effect, Effect::RefreshAll { .. }));
}

#[test]
fn refresh_r_clears_last_error_and_marks_loading() {
    let mut s = make_state();
    s.last_error = Some("network down".into());
    let o = handle_event(&mut s, key('r'), RANGE);
    assert!(s.last_error.is_none());
    assert!(s.radar_loading);
    assert_eq!(o.effect, Effect::RefreshAll { request_id: 1 });
}

#[test]
fn resize_skipped_when_radar_loading() {
    let mut s = make_state();
    s.radar_loading = true;
    let o = handle_event(&mut s, InputEvent::Resize { aspect_changed: true }, RANGE);
    assert_eq!(o, Outcome { redraw: true, effect: Effect::Nothing });
    assert_eq!(s.radar_request_id, 0);
}

#[test]
fn resize_updates_aspect_when_delta_is_large() {
    let mut s = make_state();
    s.radar_loading = false;
    let o = handle_event(&mut s, InputEvent::Resize { aspect_changed: true }, RANGE);
    assert_eq!(o.effect, Effect::ResizeRadar { request_id: 1 });
    assert!(s.radar_loading);
}

#[test]
fn an_older_radar_answer_loses_to_the_request_an_event_starts() {
    let mut s = make_state();
    let o = handle_event(&mut s, key('+'), RANGE);
    let Effect::ReloadRadar { request_id } = o.effect else {
        panic!("zoom must reload the radar")
    };
    assert!(!apply_msg(&mut s, Msg::Radar { request_id: 0, grid: 1.0 }));
    assert!(s.radar.is_none());
    assert!(apply_msg(&mut s, Msg::Radar { request_id, grid: 2.0 }));
    assert_eq!(s.radar, Some(2.0));
}

#[test]
fn animation_wraps_within_the_provider_range() {
    let mut s = make_state();
    assert_eq!(advance_animation(&mut s, (-12, 0)), None);
    s.radar_playing = true;
    s.radar_time_offset = -1;
    assert_eq!(advance_animation(&mut s, (-12, 0)), Some(1));
    assert_eq!(s.radar_time_offset, 0);
    assert_eq!(advance_animation(&mut s, (-12, 0)), Some(2));
    assert_eq!(s.radar_time_offset, -12);
    assert!(s.radar_loading);
}

#[test]
fn spinner_turns_and_asks_for_redraw_while_loading() {
    let mut s = make_state();
    assert_eq!(s.spinner(), "⠋");
    assert!(advance_spinner(&mut s));
    assert_eq!(s.spinner(), "⠙");
    s.spinner_frame = 19;
    assert_eq!(s.spinner(), "⠏");
    s.spinner_frame = usize::MAX;
    advance_spinner(&mut s);
    assert_eq!(s.spinner_frame, 0);

    let mut done = make_state();
    done.splash_active = false;
    done.current = Some(1);
    done.hourly = vec![1];
    done.daily = vec![1];
    done.radar = Some(1.0);
    assert!(!advance_spinner(&mut done));
}

#[test]
fn auto_refresh_zero_disables() {
    assert_eq!(auto_refresh_period(0), None);
    assert_eq!(auto_refresh_period(600), Some(600));
}

#[test]
fn clears_old_radar_and_error_before_map_style_reload() {
    let mut state = make_state();
    state.radar = Some(1.0);
    state.radar_error = Some("old radar error".into());
    state.last_error = Some("old radar error".into());

    clear_radar_display_for_style_change(&mut state);

    assert!(state.radar.is_none());
    assert!(state.radar_error.is_none());
    assert!(state.last_error.is_none());
}

#[test]
fn keeps_an_unrelated_error_when_clearing_radar_for_map_style_reload() {
    let mut state = make_state();
    state.radar_error = Some("old radar error".into());
    state.last_error = Some("weather request failed".into());

    clear_radar_display_for_style_change(&mut state);

    assert!(state.radar_error.is_none());
    assert_eq!(state.last_error.as_deref(), Some("weather request failed"));
}

#[test]
fn clears_the_previous_radar_error_when_starting_a_radar_retry() {
    let mut state = make_state();
    state.radar_error = Some("old radar error".into());
    state.last_error = Some("old radar error".into());

    state.begin_radar_request();

    assert!(state.radar_error.is_none());
    assert!(state.last_error.is_none());
}

#[test]
fn map_key_drops_the_old_radar_before_reloading() {
    let mut state = make_state();
    state.map_style = MapStyle::GsiStd;
    state.radar = Some(1.0);
    state.radar_error = Some("radar: timeout".into());
    state.last_error = Some("radar: timeout".into());

    let o = handle_event(&mut state, key('m'), RANGE);

    assert!(state.radar.is_none());
    assert!(state.radar_error.is_none());
    assert!(state.last_error.is_none());
    assert!(state.radar_loading);
    assert_eq!(o.effect, Effect::ChangeMapStyle { style: MapStyle::CartoVoyager, request_id: 1 });
}

#[test]
fn a_failure_of_the_latest_radar_request_is_shown_and_an_older_one_ignored() {
    let mut state = state_with_loading_radar(7);
    apply_msg(&mut state, Msg::RadarFailed { request_id: 6, message: "radar: old".into() });
    assert!(state.radar_error.is_none());
    assert!(state.radar_loading);

    apply_msg(&mut state, Msg::RadarFailed { request_id: 7, message: "radar: timeout".into() });
    assert_eq!(state.radar_error.as_deref(), Some("radar: timeout"));
    assert_eq!(state.last_error.as_deref(), Some("radar: timeout"));
    assert!(!state.radar_loading);
}
