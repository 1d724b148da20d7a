//! What the user interface shows, and the messages that update it.

use vstd::prelude::*;

use crate::config::MapStyle;

verus! {

/// The state the screen is drawn from. The forecast and radar payloads are
/// carried as they come (`C` current weather, `H` an hourly point, `D` a
/// daily point, `R` a radar picture, `M` map data).
pub struct AppState<C, H, D, R, M> {
    pub current: Option<C>,
    pub hourly: Vec<H>,
    pub daily: Vec<D>,
    pub radar: Option<R>,
    pub map: M,
    /// Tile zoom of the radar panel.
    pub zoom: u8,
    /// Background map style of the radar panel.
    pub map_style: MapStyle,
    /// Radar frame relative to the latest one (0 = now).
    pub radar_time_offset: i32,
    /// The radar animation is running.
    pub radar_playing: bool,
    /// The start-up splash screen is shown.
    pub splash_active: bool,
    /// The help dialog is open.
    pub show_help: bool,
    /// Frame counter of the loading spinner.
    pub spinner_frame: usize,
    /// A radar request is in flight.
    pub radar_loading: bool,
    /// Identifier of the latest radar request; answers to older ones are
    /// dropped.
    pub radar_request_id: u64,
    /// Why the latest radar request failed, shown in the radar panel in
    /// place of the loading notice.
    pub radar_error: Option<String>,
    /// The error shown in the footer.
    pub last_error: Option<String>,
    pub quit: bool,
}

/// A result sent back by a background request.
pub enum Msg<C, H, D, R, M> {
    Current(C),
    Hourly(Vec<H>),
    Daily(Vec<D>),
    Radar { request_id: u64, grid: R },
    /// The radar request `request_id` failed with `message`.
    RadarFailed { request_id: u64, message: String },
    MapLoaded(M),
    Error(String),
    /// Ends the splash screen (timer, or the main data arrived).
    DismissSplash,
}

/// Number of spinner glyphs.
pub const SPINNER_LEN: usize = 10;

pub open spec fn spinner_glyph(i: int) -> Seq<char> {
    if i == 0 {
        "⠋"@
    } else if i == 1 {
        "⠙"@
    } else if i == 2 {
        "⠹"@
    } else if i == 3 {
        "⠸"@
    } else if i == 4 {
        "⠼"@
    } else if i == 5 {
        "⠴"@
    } else if i == 6 {
        "⠦"@
    } else if i == 7 {
        "⠧"@
    } else if i == 8 {
        "⠇"@
    } else {
        "⠏"@
    }
}

/// Something on screen is still waiting for data.
pub open spec fn loading<C, H, D, R, M>(s: AppState<C, H, D, R, M>) -> bool {
    s.current is None || s.radar is None || s.hourly.len() == 0 || s.daily.len() == 0
}

/// The request identifier that follows `id` (wrapping around).
pub open spec fn next_request_id(id: u64) -> u64 {
    if id == u64::MAX {
        0
    } else {
        (id + 1) as u64
    }
}

/// The footer shows the radar error (the same text), so it goes together
/// with it.
pub open spec fn footer_is_radar_error<C, H, D, R, M>(s: AppState<C, H, D, R, M>) -> bool {
    s.radar_error matches Some(e) && s.last_error matches Some(l) && l@ == e@
}

/// `s` without the radar error, and without the footer error when that is
/// the radar error; an unrelated footer error stays.
pub open spec fn radar_error_cleared<C, H, D, R, M>(s: AppState<C, H, D, R, M>) -> AppState<
    C,
    H,
    D,
    R,
    M,
> {
    AppState {
        radar_error: None,
        last_error: if footer_is_radar_error(s) {
            None
        } else {
            s.last_error
        },
        ..s
    }
}

/// `s` with a new radar request started: the radar is loading, the request
/// gets the next identifier, and the previous radar error is cleared.
pub open spec fn with_radar_request<C, H, D, R, M>(s: AppState<C, H, D, R, M>) -> AppState<
    C,
    H,
    D,
    R,
    M,
> {
    AppState {
        radar_loading: true,
        radar_request_id: next_request_id(s.radar_request_id),
        ..radar_error_cleared(s)
    }
}

impl<C, H, D, R, M> AppState<C, H, D, R, M> {
    /// The spinner glyph for the current frame (Braille dots, advanced every
    /// tick).
    pub fn spinner(&self) -> (r: &'static str)
        ensures
            r@ == spinner_glyph((self.spinner_frame % SPINNER_LEN) as int),
    {
        match self.spinner_frame % SPINNER_LEN {
            0 => "⠋",
            1 => "⠙",
            2 => "⠹",
            3 => "⠸",
            4 => "⠼",
            5 => "⠴",
            6 => "⠦",
            7 => "⠧",
            8 => "⠇",
            _ => "⠏",
        }
    }

    /// Something is still loading (the spinner keeps turning).
    pub fn is_loading(&self) -> (r: bool)
        ensures
            r == loading(*self),
    {
        self.current.is_none() || self.radar.is_none() || self.hourly.len() == 0
            || self.daily.len() == 0
    }

    /// Clears the radar error, and the footer error when it is the radar
    /// error.
    pub fn clear_radar_error(&mut self)
        ensures
            *final(self) == radar_error_cleared(*old(self)),
    {
        let same = match &self.radar_error {
            Some(e) => match &self.last_error {
                Some(l) => l.eq(e),
                None => false,
            },
            None => false,
        };
        if same {
            self.last_error = None;
        }
        self.radar_error = None;
    }

    /// Starts a radar request: marks the radar as loading, clears the
    /// previous radar error and returns the request's identifier, which
    /// becomes the latest one.
    pub fn begin_radar_request(&mut self) -> (id: u64)
        ensures
            *final(self) == with_radar_request(*old(self)),
            id == final(self).radar_request_id,
    {
        self.clear_radar_error();
        let id = if self.radar_request_id == u64::MAX {
            0
        } else {
            self.radar_request_id + 1
        };
        self.radar_request_id = id;
        self.radar_loading = true;
        id
    }
}

/// Starting a radar request clears the previous radar error; the footer
/// error goes with it exactly when it is that error.
pub proof fn law_retry_clears_radar_error<C, H, D, R, M>(s: AppState<C, H, D, R, M>)
    ensures
        with_radar_request(s).radar_error is None,
        footer_is_radar_error(s) ==> with_radar_request(s).last_error is None,
        !footer_is_radar_error(s) ==> with_radar_request(s).last_error == s.last_error,
        with_radar_request(s).radar == s.radar,
{
}

} // verus!
