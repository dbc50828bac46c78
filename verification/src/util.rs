//! Conversions shared by the layers of the service, and the clock.

use std::time::{Duration, SystemTime, SystemTimeError};
use vstd::prelude::*;

verus! {

/// An entity that has a wire shape `T` and can be rebuilt from one.
pub trait AsDtoEnabled<T>: Sized {
    /// The wire shape of this entity.
    spec fn as_dto_spec(&self) -> T;

    /// The entity that a wire shape stands for.
    spec fn from_dto_spec(dto: &T) -> Self;

    fn as_dto(&self) -> (dto: T)
        ensures
            dto == self.as_dto_spec(),
    ;

    fn from_dto(dto: &T) -> (entity: Self)
        ensures
            entity == Self::from_dto_spec(dto),
    ;
}

/// A result that is answered as it is, under a status that tells success from
/// failure.
pub trait ToJson<T, E>: Sized {
    /// This result beside 200 where it is a success and beside `err` where it
    /// is a failure.
    fn to_json_ok(self, err: u16) -> (response: (u16, Result<T, E>))
        ensures
            response == self.to_json_spec(crate::model::status::OK, err),
    {
        self.to_json(crate::model::status::OK, err)
    }

    /// What `to_json` answers.
    spec fn to_json_spec(self, ok: u16, err: u16) -> (u16, Result<T, E>);

    /// This result beside `ok` where it is a success and beside `err` where
    /// it is a failure.
    fn to_json(self, ok: u16, err: u16) -> (response: (u16, Result<T, E>))
        ensures
            response == self.to_json_spec(ok, err),
    ;
}

impl<T, E> ToJson<T, E> for Result<T, E> {
    open spec fn to_json_spec(self, ok: u16, err: u16) -> (u16, Result<T, E>) {
        match self {
            Ok(_) => (ok, self),
            Err(_) => (err, self),
        }
    }

    fn to_json(self, ok: u16, err: u16) -> (response: (u16, Result<T, E>)) {
        match self {
            Ok(value) => (ok, Ok(value)),
            Err(error) => (err, Err(error)),
        }
    }
}

/// `std::time::SystemTime`, a reading of the machine's clock.
#[verifier::external_type_specification]
#[verifier::external_body]
pub struct ExSystemTime(SystemTime);

/// `std::time::SystemTimeError`, which says that one reading of the clock is
/// earlier than another.
#[verifier::external_type_specification]
#[verifier::external_body]
pub struct ExSystemTimeError(SystemTimeError);

/// `SystemTime::now`: what the machine's clock shows. Two readings may differ,
/// so nothing is claimed of the answer.
#[verifier::external_body]
fn read_clock() -> SystemTime {
    SystemTime::now()
}

/// `SystemTime::duration_since` with `UNIX_EPOCH`: the time from the start of
/// 1970 to the reading, or an error where the reading is earlier than that.
#[verifier::external_body]
fn since_epoch(reading: &SystemTime) -> Result<Duration, SystemTimeError> {
    reading.duration_since(std::time::UNIX_EPOCH)
}

/// `Duration::as_secs`: the whole seconds in a span of time.
#[verifier::external_body]
fn whole_seconds(span: &Duration) -> u64 {
    span.as_secs()
}

/// The seconds from the start of 1970 to now, as the machine's clock has it.
/// A clock that is set earlier than 1970 reads as 0. Two readings may differ,
/// and a clock can show any second, so nothing is promised of the answer but
/// what `epoch_seconds` makes of the reading.
pub fn now_epoch() -> usize {
    let reading = read_clock();
    match since_epoch(&reading) {
        Ok(span) => epoch_seconds(Some(whole_seconds(&span))),
        Err(_) => epoch_seconds(None),
    }
}

/// The count of seconds that stands for a reading of the clock: `elapsed` is
/// the whole seconds from the start of 1970 to the reading, or nothing where
/// the reading is earlier than that.
pub open spec fn seconds_counted(elapsed: Option<u64>) -> usize {
    match elapsed {
        Some(count) => count as usize,
        None => 0,
    }
}

/// Turns a reading of the clock into the count that `now_epoch` answers: the
/// seconds as they are, cut to the width of the machine's word where they do
/// not fit, and 0 for a reading from before 1970.
pub fn epoch_seconds(elapsed: Option<u64>) -> (seconds: usize)
    ensures
        seconds == seconds_counted(elapsed),
        elapsed matches Some(count) ==> (count <= usize::MAX ==> seconds == count),
        elapsed is None ==> seconds == 0,
{
    match elapsed {
        Some(count) => count as usize,
        None => 0,
    }
}

} // verus!
