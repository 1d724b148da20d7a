//! Timer ticks of the main loop: radar animation and loading spinner.

use vstd::prelude::*;

use crate::app::state::{loading, with_radar_request, AppState};

verus! {

/// The radar frame offset after one animation step: one frame later,
/// wrapping from past the end back to the earliest frame.
pub open spec fn animated_offset(offset: i32, range: (i32, i32)) -> i32 {
    if offset + 1 > range.1 {
        range.0
    } else {
        (offset + 1) as i32
    }
}

/// One animation tick. While the animation plays, the next radar frame is
/// requested and its request identifier returned.
pub fn advance_animation<C, H, D, R, M>(state: &mut AppState<C, H, D, R, M>, offset_range: (i32, i32)) -> (r: Option<u64>)
    requires
        old(state).radar_playing ==> old(state).radar_time_offset < i32::MAX,
    ensures
        !old(state).radar_playing ==> *final(state) == *old(state) && r is None,
        old(state).radar_playing ==> *final(state) == with_radar_request(
            AppState {
                radar_time_offset: animated_offset(old(state).radar_time_offset, offset_range),
                ..*old(state)
            },
        ) && r == Some(final(state).radar_request_id),
        // Within the provider's range the animation stays within it.
        offset_range.0 <= old(state).radar_time_offset <= offset_range.1 ==> offset_range.0
            <= final(state).radar_time_offset <= offset_range.1,
{
    if !state.radar_playing {
        return None;
    }
    let next = state.radar_time_offset + 1;
    state.radar_time_offset = if next > offset_range.1 {
        offset_range.0
    } else {
        next
    };
    Some(state.begin_radar_request())
}

/// One spinner tick: advances the spinner and tells whether the screen has
/// to be redrawn (splash shown, data missing, or radar loading).
pub fn advance_spinner<C, H, D, R, M>(state: &mut AppState<C, H, D, R, M>) -> (redraw: bool)
    ensures
        *final(state) == (AppState {
            spinner_frame: (if old(state).spinner_frame == usize::MAX {
                0
            } else {
                (old(state).spinner_frame + 1) as usize
            }),
            ..*old(state)
        }),
        redraw == (old(state).splash_active || loading(*old(state)) || old(state).radar_loading),
{
    state.spinner_frame = if state.spinner_frame == usize::MAX {
        0
    } else {
        state.spinner_frame + 1
    };
    state.splash_active || state.is_loading() || state.radar_loading
}

/// The automatic refresh period in seconds, or `None` when the configured
/// interval is 0 (disabled).
pub fn auto_refresh_period(refresh_interval: u64) -> (r: Option<u64>)
    ensures
        r == (if refresh_interval > 0 {
            Some(refresh_interval)
        } else {
            None::<u64>
        }),
{
    if refresh_interval > 0 {
        Some(refresh_interval)
    } else {
        None
    }
}

} // verus!
