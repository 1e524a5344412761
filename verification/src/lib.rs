//! Extends the perceived length of the day: a relay switches a light on
//! before sunrise and off again after a configured total day length.

use crate::shelly::api::Gen2DeviceClient;
use vstd::prelude::*;

pub mod cli;
pub mod clock;
pub mod decimal;
pub mod error;
pub mod job;
pub mod model;
pub mod reconcile;
pub mod shelly;
pub mod timespec;
pub mod window;

verus! {

/// Key under which the device remembers the id of the schedule job.
pub const SCHEDULE_JOB_ID: &'static str = "daylight.extender.job.id";

/// Plans the light's schedule and brings the relay's schedule in line with it.
#[derive(Debug)]
pub struct Controller<'a> {
    pub client: &'a Gen2DeviceClient<'a>,
}

impl<'a> Controller<'a> {
    /// A controller for the relay behind `client`.
    pub fn new(client: &'a Gen2DeviceClient<'a>) -> (controller: Self)
        ensures
            controller.client == client,
    {
        Self { client }
    }
}

} // verus!
