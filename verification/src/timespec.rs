//! The daily trigger of a job: a time of day in the relay's cron-like form.

use crate::clock::{local_date_time, spec_has_local_time, LocalDateTime};
use crate::decimal::{
    lemma_decimal_digits, lemma_decimal_injective, lemma_digits_end_at_other_character,
    spec_decimal, unsigned_decimal,
};
use crate::error::CustomError;
use crate::Controller;
use vstd::prelude::*;

verus! {

/// What follows the time of day in a trigger: every day of every month, on
/// each day of the week.
pub const EVERY_DAY: &'static str = " * * 0,1,2,3,4,5,6";

/// The time of day as a trigger starts with it: second, minute and hour in
/// decimal, with one space between them.
pub open spec fn spec_time_of_day(second: nat, minute: nat, hour: nat) -> Seq<char> {
    spec_decimal(second) + " "@ + spec_decimal(minute) + " "@ + spec_decimal(hour)
}

/// The trigger that fires every day at the given time of day.
pub open spec fn spec_timespec(second: nat, minute: nat, hour: nat) -> Seq<char> {
    spec_time_of_day(second, minute, hour) + EVERY_DAY@
}

/// The trigger that fires every day at the time of day of `time`.
pub open spec fn spec_timespec_at(time: LocalDateTime) -> Seq<char> {
    spec_timespec(time.second as nat, time.minute as nat, time.hour as nat)
}

/// A trigger begins with the second, the minute and the hour at which it
/// fires, in this order.
pub proof fn lemma_timespec_begins_with_time_of_day(second: nat, minute: nat, hour: nat)
    ensures
        spec_time_of_day(second, minute, hour).is_prefix_of(spec_timespec(second, minute, hour)),
        spec_timespec(second, minute, hour).subrange(
            0,
            spec_time_of_day(second, minute, hour).len() as int,
        ) == spec_time_of_day(second, minute, hour),
{
    let head = spec_time_of_day(second, minute, hour);
    assert((head + EVERY_DAY@).subrange(0, head.len() as int) =~= head);
}

/// A trigger stands for one time of day: two triggers that are equal fire at
/// the same second, minute and hour.
pub proof fn lemma_timespec_injective(
    second1: nat,
    minute1: nat,
    hour1: nat,
    second2: nat,
    minute2: nat,
    hour2: nat,
)
    requires
        spec_timespec(second1, minute1, hour1) == spec_timespec(second2, minute2, hour2),
    ensures
        second1 == second2,
        minute1 == minute2,
        hour1 == hour2,
{
    reveal_strlit(" ");
    reveal_strlit(" * * 0,1,2,3,4,5,6");
    let space = " "@;
    let tail = EVERY_DAY@;
    assert(space.len() == 1 && space[0] == ' ');
    assert(tail.len() > 0 && tail[0] == ' ');
    lemma_decimal_digits(second1);
    lemma_decimal_digits(minute1);
    lemma_decimal_digits(hour1);
    lemma_decimal_digits(second2);
    lemma_decimal_digits(minute2);
    lemma_decimal_digits(hour2);
    let after_minute1 = space + (spec_decimal(hour1) + tail);
    let after_minute2 = space + (spec_decimal(hour2) + tail);
    let after_second1 = space + (spec_decimal(minute1) + after_minute1);
    let after_second2 = space + (spec_decimal(minute2) + after_minute2);
    assert(spec_timespec(second1, minute1, hour1) =~= spec_decimal(second1) + after_second1);
    assert(spec_timespec(second2, minute2, hour2) =~= spec_decimal(second2) + after_second2);
    lemma_digits_end_at_other_character(
        spec_decimal(second1),
        after_second1,
        spec_decimal(second2),
        after_second2,
    );
    lemma_decimal_injective(second1, second2);
    assert(after_second1.drop_first() =~= spec_decimal(minute1) + after_minute1);
    assert(after_second2.drop_first() =~= spec_decimal(minute2) + after_minute2);
    lemma_digits_end_at_other_character(
        spec_decimal(minute1),
        after_minute1,
        spec_decimal(minute2),
        after_minute2,
    );
    lemma_decimal_injective(minute1, minute2);
    assert(after_minute1.drop_first() =~= spec_decimal(hour1) + tail);
    assert(after_minute2.drop_first() =~= spec_decimal(hour2) + tail);
    lemma_digits_end_at_other_character(spec_decimal(hour1), tail, spec_decimal(hour2), tail);
    lemma_decimal_injective(hour1, hour2);
}

impl<'a> Controller<'a> {
    /// The trigger that fires every day at the time of day of `time`.
    pub fn format_timespec(time: &LocalDateTime) -> (timespec: String)
        ensures
            timespec@ == spec_timespec_at(*time),
    {
        let mut timespec: String = unsigned_decimal(time.second as u64);
        timespec.append(" ");
        timespec.append(unsigned_decimal(time.minute as u64).as_str());
        timespec.append(" ");
        timespec.append(unsigned_decimal(time.hour as u64).as_str());
        timespec.append(EVERY_DAY);
        timespec
    }

    /// The trigger that fires every day at the local time of day of
    /// `timestamp`. It fails where the timestamp has no local time.
    pub fn get_timespec(timestamp: i64) -> (timespec: Result<String, CustomError>)
        ensures
            timespec is Ok <==> spec_has_local_time(timestamp as int),
            timespec matches Ok(text) ==> exists|time: LocalDateTime|
                time.wf() && text@ == #[trigger] spec_timespec_at(time),
            timespec matches Err(e) ==> e == CustomError::TimeConversionError,
    {
        match local_date_time(timestamp) {
            Some(time) => Ok(Self::format_timespec(&time)),
            None => Err(CustomError::TimeConversionError),
        }
    }
}

} // verus!
