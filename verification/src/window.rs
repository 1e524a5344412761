//! The planner: from sunrise, sunset and the wanted day length to the moment
//! the light goes on and the time it stays on.

use crate::error::CustomError;
use crate::Controller;
use vstd::prelude::*;

verus! {

/// A window shorter than this many seconds is not worth switching for.
pub const THIRTY_MINS_AS_SEC: i64 = 1_800;

/// The activation time that stands for "do not switch the light on".
pub const NO_ACTIVATION: i64 = -1;

/// Seconds the light has to stay on so that the day, counted back from
/// sunset, lasts `day_length` seconds.
pub open spec fn spec_toggle_after(sunrise: int, sunset: int, day_length: int) -> int {
    sunrise - (sunset - day_length)
}

/// The planned window `(light_on, toggle_after)`.
pub open spec fn spec_window(sunrise: int, sunset: int, day_length: int) -> (int, int) {
    let toggle_after = spec_toggle_after(sunrise, sunset, day_length);
    if toggle_after < THIRTY_MINS_AS_SEC {
        (NO_ACTIVATION as int, toggle_after)
    } else {
        (sunset - day_length, toggle_after)
    }
}

/// The outcome of planning: the window, or the reason there is none.
pub open spec fn spec_plan(sunrise: int, sunset: int, day_length: int) -> Result<
    (int, int),
    CustomError,
> {
    if sunrise >= sunset {
        Err(CustomError::InvalidWindow)
    } else if day_length < 0 {
        Err(CustomError::InvalidConfiguration)
    } else {
        Ok(spec_window(sunrise, sunset, day_length))
    }
}

/// Whether the planner's arithmetic stays within 64-bit integers.
pub open spec fn window_fits(sunrise: int, sunset: int, day_length: int) -> bool {
    sunrise < sunset && day_length >= 0 ==> i64::MIN <= sunset - day_length && i64::MIN
        <= spec_toggle_after(sunrise, sunset, day_length)
}

/// Whether a window's activation time asks for the light to be switched on.
pub open spec fn spec_desired_enabled(light_on: int) -> bool {
    light_on > 0
}

impl<'a> Controller<'a> {
    /// Plans the window for one day. The light goes on `day_length` seconds
    /// before sunset and stays on until sunrise; where that is less than
    /// half an hour, the activation time is `NO_ACTIVATION`.
    pub fn light_on_toggle_after(sunrise: i64, sunset: i64, day_length: i64) -> (planned: Result<
        (i64, i64),
        CustomError,
    >)
        requires
            window_fits(sunrise as int, sunset as int, day_length as int),
        ensures
            match planned {
                Ok((light_on, toggle_after)) => spec_plan(
                    sunrise as int,
                    sunset as int,
                    day_length as int,
                ) == Ok::<(int, int), CustomError>((light_on as int, toggle_after as int)),
                Err(e) => spec_plan(sunrise as int, sunset as int, day_length as int) == Err::<
                    (int, int),
                    CustomError,
                >(e),
            },
    {
        if sunrise >= sunset {
            return Err(CustomError::InvalidWindow);
        }
        if day_length < 0 {
            return Err(CustomError::InvalidConfiguration);
        }
        let light_on: i64 = sunset - day_length;
        let toggle_after: i64 = sunrise - light_on;
        if toggle_after < THIRTY_MINS_AS_SEC {
            return Ok((NO_ACTIVATION, toggle_after));
        }
        Ok((light_on, toggle_after))
    }

    /// Whether a window with this activation time asks for an enabled job.
    pub fn desired_enabled(light_on: i64) -> (enabled: bool)
        ensures
            enabled == spec_desired_enabled(light_on as int),
    {
        light_on > 0
    }
}

} // verus!
