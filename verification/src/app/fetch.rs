//! Applying the results of background requests to the application state.

use vstd::prelude::*;

use crate::app::state::{AppState, Msg};

verus! {

/// A radar answer is shown only if it answers the latest request, so that a
/// slow old request cannot overwrite a newer picture.
pub open spec fn radar_is_current(request_id: u64, latest_request_id: u64) -> bool {
    request_id == latest_request_id
}

pub fn should_apply_radar(request_id: u64, latest_request_id: u64) -> (r: bool)
    ensures
        r == radar_is_current(request_id, latest_request_id),
{
    request_id == latest_request_id
}

/// The state after `msg` arrives.
pub open spec fn applied<C, H, D, R, M>(s: AppState<C, H, D, R, M>, msg: Msg<C, H, D, R, M>) -> AppState<
    C,
    H,
    D,
    R,
    M,
> {
    match msg {
        Msg::Current(c) => AppState { current: Some(c), ..s },
        Msg::Hourly(h) => AppState { hourly: h, ..s },
        Msg::Daily(d) => AppState { daily: d, ..s },
        Msg::Radar { request_id, grid } => if radar_is_current(request_id, s.radar_request_id) {
            AppState { radar: Some(grid), radar_loading: false, ..s }
        } else {
            s
        },
        Msg::RadarFailed { request_id, message } => if radar_is_current(
            request_id,
            s.radar_request_id,
        ) {
            AppState {
                radar_error: Some(message),
                last_error: Some(message),
                radar_loading: false,
                ..s
            }
        } else {
            s
        },
        Msg::MapLoaded(m) => AppState { map: m, ..s },
        Msg::Error(e) => AppState { last_error: Some(e), ..s },
        Msg::DismissSplash => AppState { splash_active: false, ..s },
    }
}

/// Stores the result carried by `msg`. A radar answer or radar failure
/// counts only for the latest request; a failure is shown both in the radar
/// panel and in the footer. Returns whether a new radar picture
/// was taken, in which case its terminal image has to be rebuilt.
pub fn apply_msg<C, H, D, R, M>(state: &mut AppState<C, H, D, R, M>, msg: Msg<C, H, D, R, M>) -> (radar_taken: bool)
    ensures
        *final(state) == applied(*old(state), msg),
        radar_taken <==> (msg matches Msg::Radar { request_id, .. } && radar_is_current(
            request_id,
            old(state).radar_request_id,
        )),
{
    match msg {
        Msg::Current(c) => {
            state.current = Some(c);
            false
        },
        Msg::Hourly(h) => {
            state.hourly = h;
            false
        },
        Msg::Daily(d) => {
            state.daily = d;
            false
        },
        Msg::Radar { request_id, grid } => {
            if should_apply_radar(request_id, state.radar_request_id) {
                state.radar = Some(grid);
                state.radar_loading = false;
                true
            } else {
                false
            }
        },
        Msg::RadarFailed { request_id, message } => {
            if should_apply_radar(request_id, state.radar_request_id) {
                state.radar_error = Some(message.clone());
                state.last_error = Some(message);
                state.radar_loading = false;
            }
            false
        },
        Msg::MapLoaded(m) => {
            state.map = m;
            false
        },
        Msg::Error(e) => {
            state.last_error = Some(e);
            false
        },
        Msg::DismissSplash => {
            state.splash_active = false;
            false
        },
    }
}

/// A failure of the latest radar request ends the loading state and is
/// shown in the radar panel and the footer; a failure of an older request
/// changes nothing.
pub proof fn law_radar_failure_of_latest_request_only<C, H, D, R, M>(
    s: AppState<C, H, D, R, M>,
    request_id: u64,
    message: String,
)
    ensures
        request_id == s.radar_request_id ==> {
            let t = applied(s, Msg::RadarFailed { request_id, message });
            &&& t.radar_error == Some(message)
            &&& t.last_error == Some(message)
            &&& !t.radar_loading
        },
        request_id != s.radar_request_id ==> applied(s, Msg::RadarFailed { request_id, message })
            == s,
{
}

} // verus!
