use vstd::prelude::*;
use std::time::{Duration, SystemTime, SystemTimeError};

verus! {

#[verifier::external_type_specification]
#[verifier::external_body]
pub struct ExSystemTime(SystemTime);

#[verifier::external_type_specification]
#[verifier::external_body]
pub struct ExSystemTimeError(SystemTimeError);

/// Calls `std::time::SystemTime::now`. Nothing is stated of the reading:
/// it is whatever the machine's clock says.
#[verifier::external_body]
fn clock_now() -> SystemTime {
    SystemTime::now()
}

/// Calls `SystemTime::duration_since` with `UNIX_EPOCH`, which fails when
/// the reading lies before the epoch. Nothing is stated of the outcome:
/// it depends on the clock reading.
#[verifier::external_body]
fn time_since_epoch(t: &SystemTime) -> Result<Duration, SystemTimeError> {
    t.duration_since(std::time::UNIX_EPOCH)
}

/// Calls `Duration::as_nanos`, the whole duration in nanoseconds. The
/// duration is opaque here, so nothing is stated of the count.
#[verifier::external_body]
fn duration_nanos(d: &Duration) -> u128 {
    d.as_nanos()
}

/// The seed made from a clock reading taken as nanoseconds since the epoch
/// (`None` when the clock reads before the epoch): the low 64 bits of the
/// count, or 42 without one.
pub open spec fn seed_from(reading: Option<u128>) -> u64 {
    match reading {
        Some(nanos) => (nanos % 0x1_0000_0000_0000_0000) as u64,
        None => 42,
    }
}

/// Turns a clock reading into a run seed.
pub fn seed_from_clock(reading: Option<u128>) -> (s: u64)
    ensures
        s == seed_from(reading),
        reading matches Some(nanos) ==> s as int == nanos as int % 0x1_0000_0000_0000_0000,
        reading is None ==> s == 42,
{
    match reading {
        Some(nanos) => {
            let low = nanos as u64;
            assert(low == nanos % 0x1_0000_0000_0000_0000) by (bit_vector)
                requires
                    low == nanos as u64,
            ;
            low
        },
        None => 42,
    }
}

/// A fresh seed for a run that names none: the system clock's nanoseconds
/// since the epoch, cut to 64 bits, or 42 if the clock reads before the
/// epoch. Which seed comes out depends on the clock.
pub fn random_seed() -> (s: u64)
    ensures
        exists|reading: Option<u128>| s == seed_from(reading),
{
    let now = clock_now();
    let reading = match time_since_epoch(&now) {
        Ok(d) => Some(duration_nanos(&d)),
        Err(_) => None,
    };
    seed_from_clock(reading)
}

/// Distinct clock readings less than 2^64 ns apart give distinct seeds, so
/// seedless runs at different times draw different randomness.
pub proof fn distinct_readings_give_distinct_seeds(t1: u128, t2: u128)
    requires
        t1 < t2,
        t2 - t1 < 0x1_0000_0000_0000_0000,
    ensures
        seed_from(Some(t1)) != seed_from(Some(t2)),
{
    vstd::arithmetic::div_mod::lemma_fundamental_div_mod(t1 as int, 0x1_0000_0000_0000_0000);
    vstd::arithmetic::div_mod::lemma_fundamental_div_mod(t2 as int, 0x1_0000_0000_0000_0000);
}

} // verus!
