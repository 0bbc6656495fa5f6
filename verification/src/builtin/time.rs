use crate::values::Value;
use crate::values::ValueView;
use std::time::Duration;
use std::time::SystemTime;
use std::time::SystemTimeError;
use vstd::prelude::*;

verus! {

/// `std::time::SystemTime`, carried through as it is.
#[verifier::external_type_specification]
#[verifier::external_body]
pub struct ExSystemTime(SystemTime);

/// `std::time::SystemTimeError`, carried through as it is.
#[verifier::external_type_specification]
#[verifier::external_body]
pub struct ExSystemTimeError(SystemTimeError);

/// Calls `SystemTime::now`. Nothing is claimed of the time it gives.
#[verifier::external_body]
fn clock_now() -> SystemTime {
    SystemTime::now()
}

/// Calls `SystemTime::duration_since` with the Unix epoch. Nothing is claimed
/// of what it gives: a duration, or an error where the time lies before the
/// epoch.
#[verifier::external_body]
fn since_epoch(time: &SystemTime) -> Result<Duration, SystemTimeError> {
    time.duration_since(std::time::UNIX_EPOCH)
}

/// Calls `Duration::as_millis`. Nothing is claimed of the number it gives.
#[verifier::external_body]
fn whole_millis(duration: &Duration) -> u128 {
    duration.as_millis()
}

/// A number of milliseconds as a value: the integer that the number is cut
/// down to.
pub fn time_value(millis: u128) -> (r: Value)
    ensures
        r@ == ValueView::Integer((millis as isize) as int),
        millis <= isize::MAX ==> r@ == ValueView::Integer(millis as int),
{
    Value::integer(
        #[verifier::truncate]
        (millis as isize),
    )
}

/// The built-in `time`: the milliseconds since the Unix epoch as an integer,
/// whatever the arguments; `null` where the clock stands before the epoch.
pub fn native_get_time(_args: Vec<Value>) -> (r: Value)
    ensures
        r@ is Integer || r@ is Null,
{
    let start = clock_now();
    let millis = match since_epoch(&start) {
        Ok(since_the_epoch) => Some(whole_millis(&since_the_epoch)),
        Err(_) => None,
    };
    time_result(millis)
}

/// What `time` answers for what the clock said: the milliseconds since the
/// epoch, or nothing where the clock stands before the epoch.
pub open spec fn time_answer(millis: Option<u128>) -> ValueView {
    match millis {
        Some(m) => ValueView::Integer((m as isize) as int),
        None => ValueView::Null,
    }
}

/// The answer of `time` for what the clock said.
pub fn time_result(millis: Option<u128>) -> (r: Value)
    ensures
        r@ == time_answer(millis),
{
    match millis {
        Some(m) => time_value(m),
        None => Value::null(),
    }
}

} // verus!
