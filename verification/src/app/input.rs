//! Keyboard and resize handling. The decisions are taken here; the caller
//! performs the requested background work (`Effect`).

use vstd::prelude::*;

use crate::app::fetch::applied;
use crate::app::state::{next_request_id, radar_error_cleared, with_radar_request, AppState, Msg};
use crate::config::{next_style, MapStyle};

verus! {

/// The key of a key event.
#[derive(Clone, Copy, Debug, PartialEq, Eq, Structural)]
pub enum KeyCode {
    Char(char),
    Esc,
    /// Any key the application does not use.
    Other,
}

/// A key event: the key, whether Ctrl was held, and whether it is a press
/// (releases and repeats are ignored).
#[derive(Clone, Copy, Debug, PartialEq, Eq, Structural)]
pub struct KeyInput {
    pub code: KeyCode,
    pub ctrl: bool,
    pub press: bool,
}

/// A terminal event.
#[derive(Clone, Copy, Debug, PartialEq, Eq, Structural)]
pub enum InputEvent {
    /// The terminal was resized; `aspect_changed` tells whether the radar
    /// aspect ratio that suits the new size differs from the current one by
    /// more than the threshold.
    Resize { aspect_changed: bool },
    Key(KeyInput),
    Other,
}

/// Background work the caller has to start after an event.
#[derive(Clone, Copy, Debug, PartialEq, Eq, Structural)]
pub enum Effect {
    Nothing,
    /// Fetch the forecasts and the radar again.
    RefreshAll { request_id: u64 },
    /// Fetch the radar again (zoom or time changed).
    ReloadRadar { request_id: u64 },
    /// Move the location by one step east/north (-1, 0 or 1 each) and fetch
    /// the radar.
    Move { east: i8, north: i8, request_id: u64 },
    /// Tell the provider about the new map style and fetch the radar.
    ChangeMapStyle { style: MapStyle, request_id: u64 },
    /// Adopt the new aspect ratio and fetch the radar.
    ResizeRadar { request_id: u64 },
}

/// Whether the screen must be redrawn, and what to start.
#[derive(Clone, Copy, Debug, PartialEq, Eq, Structural)]
pub struct Outcome {
    pub redraw: bool,
    pub effect: Effect,
}

pub open spec fn no_effect(redraw: bool) -> Outcome {
    Outcome { redraw, effect: Effect::Nothing }
}

pub open spec fn zoomed_in(z: u8) -> u8 {
    if z + 1 < 13 {
        (z + 1) as u8
    } else {
        13
    }
}

pub open spec fn zoomed_out(z: u8) -> u8 {
    let d: int = if z == 0 {
        0
    } else {
        z - 1
    };
    if d > 6 {
        d as u8
    } else {
        6
    }
}

pub open spec fn earlier(offset: i32, min: i32) -> i32 {
    if offset - 1 > min {
        (offset - 1) as i32
    } else {
        min
    }
}

pub open spec fn later(offset: i32, max: i32) -> i32 {
    if offset + 1 < max {
        (offset + 1) as i32
    } else {
        max
    }
}

/// The style the `m` key switches to: the key cycles through CARTO
/// Voyager, the GSI standard map and the GSI aerial photographs (GsiStd ->
/// CartoVoyager -> GsiPhoto -> GsiStd); from a style outside that cycle it
/// moves on as `MapStyle::next` does, which leads into the cycle.
pub open spec fn switched_style(s: MapStyle) -> MapStyle {
    match s {
        MapStyle::GsiStd => MapStyle::CartoVoyager,
        MapStyle::CartoVoyager => MapStyle::GsiPhoto,
        MapStyle::GsiPhoto => MapStyle::GsiStd,
        _ => next_style(s),
    }
}

/// `s` before the radar is fetched again in a new map style: the old
/// picture goes, and so does the radar error (with the footer error when
/// that is the radar error).
pub open spec fn cleared_for_style_change<C, H, D, R, M>(s: AppState<C, H, D, R, M>) -> AppState<
    C,
    H,
    D,
    R,
    M,
> {
    AppState { radar: None, ..radar_error_cleared(s) }
}

/// The styles the `m` key cycles through.
pub open spec fn in_key_cycle(s: MapStyle) -> bool {
    s is GsiStd || s is CartoVoyager || s is GsiPhoto
}

/// The key quits the application.
pub open spec fn is_quit_key(c: KeyCode) -> bool {
    c == KeyCode::Char('q') || c == KeyCode::Esc
}

/// A key press that requires arithmetic which would overflow.
pub open spec fn key_in_range<C, H, D, R, M>(s: AppState<C, H, D, R, M>, k: KeyInput) -> bool {
    k.press && !s.show_help ==> {
        &&& (k.code == KeyCode::Char('+') || k.code == KeyCode::Char('=')) ==> s.zoom < 255
        &&& (k.code == KeyCode::Char(',') || k.code == KeyCode::Char('<')) ==> s.radar_time_offset
            > i32::MIN
        &&& (k.code == KeyCode::Char('.') || k.code == KeyCode::Char('>')) ==> s.radar_time_offset
            < i32::MAX
    }
}

/// The state and outcome after a radar request is started from `t`.
pub open spec fn radar_step<C, H, D, R, M>(t: AppState<C, H, D, R, M>) -> (AppState<C, H, D, R, M>, Outcome) {
    let u = with_radar_request(t);
    (u, Outcome { redraw: true, effect: Effect::ReloadRadar { request_id: u.radar_request_id } })
}

pub open spec fn move_step<C, H, D, R, M>(s: AppState<C, H, D, R, M>, east: i8, north: i8) -> (
    AppState<C, H, D, R, M>,
    Outcome,
) {
    let u = with_radar_request(s);
    (
        u,
        Outcome {
            redraw: true,
            effect: Effect::Move { east, north, request_id: u.radar_request_id },
        },
    )
}

/// What a key event does.
pub open spec fn key_step<C, H, D, R, M>(s: AppState<C, H, D, R, M>, k: KeyInput, range: (i32, i32)) -> (
    AppState<C, H, D, R, M>,
    Outcome,
) {
    let c = k.code;
    if !k.press {
        (s, no_effect(false))
    } else if s.show_help {
        // With the help dialog open every key closes it; q and Esc quit.
        if is_quit_key(c) {
            (AppState { quit: true, ..s }, no_effect(true))
        } else {
            (AppState { show_help: false, ..s }, no_effect(true))
        }
    } else if is_quit_key(c) {
        (AppState { quit: true, ..s }, no_effect(true))
    } else if c == KeyCode::Char('?') {
        (AppState { show_help: true, ..s }, no_effect(true))
    } else if c == KeyCode::Char('c') && k.ctrl {
        (AppState { quit: true, ..s }, no_effect(true))
    } else if c == KeyCode::Char('r') {
        let u = with_radar_request(AppState { last_error: None, radar_time_offset: 0, ..s });
        (u, Outcome { redraw: true, effect: Effect::RefreshAll { request_id: u.radar_request_id } })
    } else if c == KeyCode::Char('+') || c == KeyCode::Char('=') {
        radar_step(AppState { zoom: zoomed_in(s.zoom), ..s })
    } else if c == KeyCode::Char('-') || c == KeyCode::Char('_') {
        radar_step(AppState { zoom: zoomed_out(s.zoom), ..s })
    } else if c == KeyCode::Char('h') {
        move_step(s, -1i8, 0i8)
    } else if c == KeyCode::Char('l') {
        move_step(s, 1i8, 0i8)
    } else if c == KeyCode::Char('j') {
        move_step(s, 0i8, -1i8)
    } else if c == KeyCode::Char('k') {
        move_step(s, 0i8, 1i8)
    } else if c == KeyCode::Char(',') || c == KeyCode::Char('<') {
        radar_step(AppState { radar_time_offset: earlier(s.radar_time_offset, range.0), ..s })
    } else if c == KeyCode::Char('.') || c == KeyCode::Char('>') {
        radar_step(AppState { radar_time_offset: later(s.radar_time_offset, range.1), ..s })
    } else if c == KeyCode::Char('p') {
        (AppState { radar_playing: !s.radar_playing, ..s }, no_effect(true))
    } else if c == KeyCode::Char('m') || c == KeyCode::Char('M') {
        let u = with_radar_request(
            AppState { map_style: switched_style(s.map_style), ..cleared_for_style_change(s) },
        );
        (
            u,
            Outcome {
                redraw: true,
                effect: Effect::ChangeMapStyle {
                    style: u.map_style,
                    request_id: u.radar_request_id,
                },
            },
        )
    } else {
        (s, no_effect(false))
    }
}

/// What an event does. A resize refetches the radar only when the aspect
/// changed noticeably and no radar request is already running.
pub open spec fn event_step<C, H, D, R, M>(
    s: AppState<C, H, D, R, M>,
    ev: InputEvent,
    range: (i32, i32),
) -> (AppState<C, H, D, R, M>, Outcome) {
    match ev {
        InputEvent::Resize { aspect_changed } => if aspect_changed && !s.radar_loading {
            let u = with_radar_request(s);
            (u, Outcome { redraw: true, effect: Effect::ResizeRadar { request_id: u.radar_request_id } })
        } else {
            (s, no_effect(true))
        },
        InputEvent::Key(k) => key_step(s, k, range),
        InputEvent::Other => (s, no_effect(false)),
    }
}

pub open spec fn event_in_range<C, H, D, R, M>(s: AppState<C, H, D, R, M>, ev: InputEvent) -> bool {
    ev matches InputEvent::Key(k) ==> key_in_range(s, k)
}

/// The effect starts a radar request, and the request's identifier.
pub open spec fn effect_request(e: Effect) -> Option<u64> {
    match e {
        Effect::Nothing => None,
        Effect::RefreshAll { request_id } => Some(request_id),
        Effect::ReloadRadar { request_id } => Some(request_id),
        Effect::Move { request_id, .. } => Some(request_id),
        Effect::ChangeMapStyle { request_id, .. } => Some(request_id),
        Effect::ResizeRadar { request_id } => Some(request_id),
    }
}

/// Drops the radar picture and the radar error before a map style change
/// reloads the radar; the footer error goes too when it is the radar error.
pub fn clear_radar_display_for_style_change<C, H, D, R, M>(state: &mut AppState<C, H, D, R, M>)
    ensures
        *final(state) == cleared_for_style_change(*old(state)),
{
    state.clear_radar_error();
    state.radar = None;
}

/// The style the `m` key switches to.
fn switch_style(style: MapStyle) -> (r: MapStyle)
    ensures
        r == switched_style(style),
{
    match style {
        MapStyle::GsiStd => MapStyle::CartoVoyager,
        MapStyle::CartoVoyager => MapStyle::GsiPhoto,
        MapStyle::GsiPhoto => MapStyle::GsiStd,
        _ => style.next(),
    }
}

fn start_radar<C, H, D, R, M>(state: &mut AppState<C, H, D, R, M>) -> (o: Outcome)
    ensures
        (*final(state), o) == radar_step(*old(state)),
{
    let id = state.begin_radar_request();
    Outcome { redraw: true, effect: Effect::ReloadRadar { request_id: id } }
}

fn start_move<C, H, D, R, M>(state: &mut AppState<C, H, D, R, M>, east: i8, north: i8) -> (o: Outcome)
    ensures
        (*final(state), o) == move_step(*old(state), east, north),
{
    let id = state.begin_radar_request();
    Outcome { redraw: true, effect: Effect::Move { east, north, request_id: id } }
}

/// Updates the state for a key event and says what to redraw and start.
pub fn handle_key<C, H, D, R, M>(
    state: &mut AppState<C, H, D, R, M>,
    k: KeyInput,
    offset_range: (i32, i32),
) -> (o: Outcome)
    requires
        key_in_range(*old(state), k),
    ensures
        (*final(state), o) == key_step(*old(state), k, offset_range),
{
    if !k.press {
        return Outcome { redraw: false, effect: Effect::Nothing };
    }
    let c = k.code;
    if state.show_help {
        if c == KeyCode::Char('q') || c == KeyCode::Esc {
            state.quit = true;
        } else {
            state.show_help = false;
        }
        return Outcome { redraw: true, effect: Effect::Nothing };
    }
    match c {
        KeyCode::Char('q') | KeyCode::Esc => {
            state.quit = true;
            Outcome { redraw: true, effect: Effect::Nothing }
        },
        KeyCode::Char('?') => {
            state.show_help = true;
            Outcome { redraw: true, effect: Effect::Nothing }
        },
        KeyCode::Char('c') if k.ctrl => {
            state.quit = true;
            Outcome { redraw: true, effect: Effect::Nothing }
        },
        KeyCode::Char('r') => {
            state.last_error = None;
            state.radar_time_offset = 0;
            let id = state.begin_radar_request();
            Outcome { redraw: true, effect: Effect::RefreshAll { request_id: id } }
        },
        KeyCode::Char('+') | KeyCode::Char('=') => {
            let z = state.zoom + 1;
            state.zoom = if z < 13 {
                z
            } else {
                13
            };
            start_radar(state)
        },
        KeyCode::Char('-') | KeyCode::Char('_') => {
            let z = if state.zoom == 0 {
                0
            } else {
                state.zoom - 1
            };
            state.zoom = if z > 6 {
                z
            } else {
                6
            };
            start_radar(state)
        },
        KeyCode::Char('h') => start_move(state, -1, 0),
        KeyCode::Char('l') => start_move(state, 1, 0),
        KeyCode::Char('j') => start_move(state, 0, -1),
        KeyCode::Char('k') => start_move(state, 0, 1),
        KeyCode::Char(',') | KeyCode::Char('<') => {
            let t = state.radar_time_offset - 1;
            state.radar_time_offset = if t > offset_range.0 {
                t
            } else {
                offset_range.0
            };
            start_radar(state)
        },
        KeyCode::Char('.') | KeyCode::Char('>') => {
            let t = state.radar_time_offset + 1;
            state.radar_time_offset = if t < offset_range.1 {
                t
            } else {
                offset_range.1
            };
            start_radar(state)
        },
        KeyCode::Char('p') => {
            state.radar_playing = !state.radar_playing;
            Outcome { redraw: true, effect: Effect::Nothing }
        },
        KeyCode::Char('m') | KeyCode::Char('M') => {
            clear_radar_display_for_style_change(state);
            state.map_style = switch_style(state.map_style);
            let id = state.begin_radar_request();
            Outcome {
                redraw: true,
                effect: Effect::ChangeMapStyle { style: state.map_style, request_id: id },
            }
        },
        _ => Outcome { redraw: false, effect: Effect::Nothing },
    }
}

/// Updates the state for a terminal event and says what to redraw and
/// start. `offset_range` is the provider's range of radar frame offsets.
pub fn handle_event<C, H, D, R, M>(
    state: &mut AppState<C, H, D, R, M>,
    ev: InputEvent,
    offset_range: (i32, i32),
) -> (o: Outcome)
    requires
        event_in_range(*old(state), ev),
    ensures
        (*final(state), o) == event_step(*old(state), ev, offset_range),
        // A started radar request is the latest one.
        effect_request(o.effect) matches Some(id) ==> id == final(state).radar_request_id && id
            == next_request_id(old(state).radar_request_id),
        effect_request(o.effect) is None ==> final(state).radar_request_id == old(
            state,
        ).radar_request_id,
{
    match ev {
        InputEvent::Resize { aspect_changed } => {
            if aspect_changed && !state.radar_loading {
                let id = state.begin_radar_request();
                Outcome { redraw: true, effect: Effect::ResizeRadar { request_id: id } }
            } else {
                Outcome { redraw: true, effect: Effect::Nothing }
            }
        },
        InputEvent::Key(k) => handle_key(state, k, offset_range),
        InputEvent::Other => Outcome { redraw: false, effect: Effect::Nothing },
    }
}

/// Only the answer to the request an event starts is shown afterwards: the
/// answer to the request that was the latest before the event is dropped.
pub proof fn law_latest_radar_request_wins<C, H, D, R, M>(
    s: AppState<C, H, D, R, M>,
    ev: InputEvent,
    range: (i32, i32),
    grid: R,
)
    requires
        effect_request(event_step(s, ev, range).1.effect) is Some,
    ensures
        ({
            let t = event_step(s, ev, range).0;
            let id = effect_request(event_step(s, ev, range).1.effect)->0;
            &&& applied(t, Msg::Radar { request_id: id, grid }).radar == Some(grid)
            &&& !applied(t, Msg::Radar { request_id: id, grid }).radar_loading
            &&& applied(t, Msg::Radar { request_id: s.radar_request_id, grid }) == t
        }),
{
}

/// The zoom stays between 6 and 13 whatever the user presses.
pub proof fn law_zoom_stays_in_range<C, H, D, R, M>(
    s: AppState<C, H, D, R, M>,
    ev: InputEvent,
    range: (i32, i32),
)
    requires
        6 <= s.zoom <= 13,
    ensures
        6 <= event_step(s, ev, range).0.zoom <= 13,
{
}

/// The radar time offset stays within the provider's range.
pub proof fn law_time_offset_stays_in_range<C, H, D, R, M>(
    s: AppState<C, H, D, R, M>,
    ev: InputEvent,
    range: (i32, i32),
)
    requires
        range.0 <= s.radar_time_offset <= range.1,
        range.0 <= 0 <= range.1,
    ensures
        range.0 <= event_step(s, ev, range).0.radar_time_offset <= range.1,
{
}

/// `r` fetches everything again and returns the radar to the current time
/// (offset 0), clearing the last error.
pub proof fn law_refresh_returns_to_now<C, H, D, R, M>(
    s: AppState<C, H, D, R, M>,
    k: KeyInput,
    range: (i32, i32),
)
    requires
        !s.show_help,
        k.press,
        k.code == KeyCode::Char('r'),
    ensures
        event_step(s, InputEvent::Key(k), range).0.radar_time_offset == 0,
        event_step(s, InputEvent::Key(k), range).0.last_error is None,
        event_step(s, InputEvent::Key(k), range).1.effect is RefreshAll,
{
}

/// The `m` key cycles GsiStd -> CartoVoyager -> GsiPhoto -> GsiStd, and
/// from any other style reaches that cycle within two presses; every press
/// tells the provider the new style.
pub proof fn law_map_key_cycle<C, H, D, R, M>(
    s: AppState<C, H, D, R, M>,
    k: KeyInput,
    range: (i32, i32),
)
    requires
        !s.show_help,
        k.press,
        k.code == KeyCode::Char('m') || k.code == KeyCode::Char('M'),
    ensures
        event_step(s, InputEvent::Key(k), range).1.effect == (Effect::ChangeMapStyle {
            style: switched_style(s.map_style),
            request_id: event_step(s, InputEvent::Key(k), range).0.radar_request_id,
        }),
        event_step(s, InputEvent::Key(k), range).0.map_style == switched_style(s.map_style),
        event_step(s, InputEvent::Key(k), range).0.radar is None,
        event_step(s, InputEvent::Key(k), range).0.radar_error is None,
        switched_style(MapStyle::GsiStd) == MapStyle::CartoVoyager,
        switched_style(MapStyle::CartoVoyager) == MapStyle::GsiPhoto,
        switched_style(MapStyle::GsiPhoto) == MapStyle::GsiStd,
        in_key_cycle(s.map_style) ==> switched_style(switched_style(switched_style(s.map_style)))
            == s.map_style,
        in_key_cycle(switched_style(switched_style(s.map_style))),
{
}

/// While the help dialog is open no key starts any work, and a press
/// either quits or closes the dialog.
pub proof fn law_help_dialog_swallows_keys<C, H, D, R, M>(
    s: AppState<C, H, D, R, M>,
    k: KeyInput,
    range: (i32, i32),
)
    requires
        s.show_help,
        k.press,
    ensures
        event_step(s, InputEvent::Key(k), range).1 == no_effect(true),
        event_step(s, InputEvent::Key(k), range).0.quit || !event_step(
            s,
            InputEvent::Key(k),
            range,
        ).0.show_help,
{
}

/// Key releases, and keys the application does not use, change nothing.
pub proof fn law_ignored_keys_change_nothing<C, H, D, R, M>(
    s: AppState<C, H, D, R, M>,
    k: KeyInput,
    range: (i32, i32),
)
    requires
        !k.press || (!s.show_help && (k.code == KeyCode::Other || k.code == KeyCode::Char('x'))),
    ensures
        event_step(s, InputEvent::Key(k), range) == (s, no_effect(false)),
{
}

/// Once the user asked to quit, no event takes it back.
pub proof fn law_quit_is_final<C, H, D, R, M>(
    s: AppState<C, H, D, R, M>,
    ev: InputEvent,
    range: (i32, i32),
)
    requires
        s.quit,
    ensures
        event_step(s, ev, range).0.quit,
{
}

/// A press of a character key (Ctrl as given).
pub open spec fn char_press(c: char, ctrl: bool) -> InputEvent {
    InputEvent::Key(KeyInput { code: KeyCode::Char(c), ctrl, press: true })
}

/// The location moves one step in the direction of the key, as in vi: `h`
/// west, `l` east, `j` south, `k` north. The four keys go four different
/// ways, each starts a fresh radar request, and nothing but the request
/// bookkeeping changes in the state.
pub proof fn law_movement_keys<C, H, D, R, M>(
    s: AppState<C, H, D, R, M>,
    ctrl: bool,
    range: (i32, i32),
)
    requires
        !s.show_help,
        !s.quit,
    ensures
        event_step(s, char_press('h', ctrl), range).1 == (Outcome {
            redraw: true,
            effect: Effect::Move { east: -1i8, north: 0, request_id: next_request_id(s.radar_request_id) },
        }),
        event_step(s, char_press('l', ctrl), range).1 == (Outcome {
            redraw: true,
            effect: Effect::Move { east: 1, north: 0, request_id: next_request_id(s.radar_request_id) },
        }),
        event_step(s, char_press('j', ctrl), range).1 == (Outcome {
            redraw: true,
            effect: Effect::Move { east: 0, north: -1i8, request_id: next_request_id(s.radar_request_id) },
        }),
        event_step(s, char_press('k', ctrl), range).1 == (Outcome {
            redraw: true,
            effect: Effect::Move { east: 0, north: 1, request_id: next_request_id(s.radar_request_id) },
        }),
        forall|c: char|
            #![trigger event_step(s, char_press(c, ctrl), range)]
            (c == 'h' || c == 'j' || c == 'k' || c == 'l') ==> {
                let t = event_step(s, char_press(c, ctrl), range).0;
                &&& t.radar_loading
                &&& t.radar_request_id == next_request_id(s.radar_request_id)
                &&& t.zoom == s.zoom
                &&& t.map_style == s.map_style
                &&& t.radar_time_offset == s.radar_time_offset
                &&& !t.quit
                &&& !t.show_help
            },
{
}

/// What the other keys do, with the help dialog closed: `+` zooms in and `-`
/// out by one level (stopping at 13 and 6), `,` steps the radar one frame
/// back and `.` one frame forward (stopping at the provider's range), each
/// of them fetching the radar again; `p` starts or stops the animation, `?`
/// opens the help, and `q`, Esc and Ctrl-C quit. `=`, `_`, `<`, `>` and `M`
/// do what `+`, `-`, `,`, `.` and `m` do.
pub proof fn law_keys_do_what_they_say<C, H, D, R, M>(
    s: AppState<C, H, D, R, M>,
    ctrl: bool,
    range: (i32, i32),
)
    requires
        !s.show_help,
        6 <= s.zoom <= 13,
        range.0 <= s.radar_time_offset <= range.1,
    ensures
        ({
            let z = event_step(s, char_press('+', ctrl), range).0.zoom;
            z == s.zoom + 1 || (s.zoom == 13 && z == 13)
        }),
        ({
            let z = event_step(s, char_press('-', ctrl), range).0.zoom;
            z == s.zoom - 1 || (s.zoom == 6 && z == 6)
        }),
        ({
            let o = event_step(s, char_press(',', ctrl), range).0.radar_time_offset;
            o == s.radar_time_offset - 1 || (s.radar_time_offset == range.0 && o == range.0)
        }),
        ({
            let o = event_step(s, char_press('.', ctrl), range).0.radar_time_offset;
            o == s.radar_time_offset + 1 || (s.radar_time_offset == range.1 && o == range.1)
        }),
        forall|c: char|
            #![trigger event_step(s, char_press(c, ctrl), range)]
            (c == '+' || c == '-' || c == ',' || c == '.') ==> event_step(
                s,
                char_press(c, ctrl),
                range,
            ).1 == (Outcome {
                redraw: true,
                effect: Effect::ReloadRadar { request_id: next_request_id(s.radar_request_id) },
            }),
        event_step(s, char_press('p', ctrl), range).0.radar_playing == !s.radar_playing,
        event_step(s, char_press('?', ctrl), range).0.show_help,
        event_step(s, char_press('q', ctrl), range).0.quit,
        event_step(s, char_press('c', true), range).0.quit,
        event_step(s, InputEvent::Key(KeyInput { code: KeyCode::Esc, ctrl, press: true }), range).0.quit,
        event_step(s, char_press('=', ctrl), range) == event_step(s, char_press('+', ctrl), range),
        event_step(s, char_press('_', ctrl), range) == event_step(s, char_press('-', ctrl), range),
        event_step(s, char_press('<', ctrl), range) == event_step(s, char_press(',', ctrl), range),
        event_step(s, char_press('>', ctrl), range) == event_step(s, char_press('.', ctrl), range),
        event_step(s, char_press('M', ctrl), range) == event_step(s, char_press('m', ctrl), range),
{
}

} // verus!
