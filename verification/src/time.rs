//! Points in time as whole seconds and nanoseconds since the Unix epoch, and the
//! whole seconds that lie between two of them.

use std::time::SystemTime;
use std::time::UNIX_EPOCH;
use vstd::prelude::*;

verus! {

/// Nanoseconds in one second.
pub const NANOS_PER_SEC: u32 = 1_000_000_000u32;

/// A point in time at or after the Unix epoch: whole seconds, and less than one
/// second in nanoseconds.
#[derive(Clone, Copy, Debug, PartialEq, Eq, Structural)]
pub struct Timestamp {
    secs: u64,
    nanos: u32,
}

/// Whole seconds from `then` to `now`; `None` when `then` lies after `now`.
pub open spec fn elapsed_secs(then: Timestamp, now: Timestamp) -> Option<nat> {
    if now.total_nanos() >= then.total_nanos() {
        Some(((now.total_nanos() - then.total_nanos()) / (NANOS_PER_SEC as int)) as nat)
    } else {
        None
    }
}

impl Timestamp {
    #[verifier::type_invariant]
    spec fn subsecond(self) -> bool {
        self.nanos < NANOS_PER_SEC
    }

    /// Whole seconds since the Unix epoch.
    pub closed spec fn secs_since_epoch(self) -> u64 {
        self.secs
    }

    /// Nanoseconds past the last whole second.
    pub closed spec fn nanos_since_epoch(self) -> u32 {
        self.nanos
    }

    /// Nanoseconds since the Unix epoch.
    pub open spec fn total_nanos(self) -> int {
        self.secs_since_epoch() * (NANOS_PER_SEC as int) + self.nanos_since_epoch()
    }

    /// The point `secs` seconds and `nanos` nanoseconds after the Unix epoch;
    /// `None` when `nanos` is a second or more.
    pub fn new(secs: u64, nanos: u32) -> (at: Option<Timestamp>)
        ensures
            at == Timestamp::checked(secs, nanos),
            at matches Some(t) ==> t.secs_since_epoch() == secs && t.nanos_since_epoch() == nanos,
    {
        if nanos < NANOS_PER_SEC {
            Some(Timestamp { secs, nanos })
        } else {
            None
        }
    }

    /// Whole seconds since the Unix epoch.
    pub fn secs(&self) -> (secs: u64)
        ensures
            secs == self.secs_since_epoch(),
    {
        self.secs
    }

    /// Nanoseconds past the last whole second; always less than a second.
    pub fn subsec_nanos(&self) -> (nanos: u32)
        ensures
            nanos == self.nanos_since_epoch(),
            nanos < NANOS_PER_SEC,
    {
        proof {
            use_type_invariant(self);
        }
        self.nanos
    }

    /// Whole seconds that have passed since `self` when the clock shows `now`.
    pub fn elapsed_at(&self, now: &Timestamp) -> (elapsed: Option<u64>)
        ensures
            match elapsed {
                Some(e) => elapsed_secs(*self, *now) == Some(e as nat),
                None => elapsed_secs(*self, *now) is None,
            },
    {
        proof {
            use_type_invariant(self);
            use_type_invariant(now);
        }
        if now.secs > self.secs {
            if now.nanos >= self.nanos {
                let whole: u64 = now.secs - self.secs;
                assert(elapsed_secs(*self, *now) == Some(whole as nat)) by (nonlinear_arith)
                    requires
                        whole == now.secs_since_epoch() - self.secs_since_epoch(),
                        self.nanos_since_epoch() <= now.nanos_since_epoch() < NANOS_PER_SEC,
                        NANOS_PER_SEC == 1_000_000_000,
                ;
                Some(whole)
            } else {
                let whole: u64 = now.secs - self.secs - 1;
                assert(elapsed_secs(*self, *now) == Some(whole as nat)) by (nonlinear_arith)
                    requires
                        whole == now.secs_since_epoch() - self.secs_since_epoch() - 1,
                        whole >= 0,
                        now.nanos_since_epoch() < self.nanos_since_epoch() < NANOS_PER_SEC,
                        NANOS_PER_SEC == 1_000_000_000,
                ;
                Some(whole)
            }
        } else if now.secs == self.secs && now.nanos >= self.nanos {
            assert(elapsed_secs(*self, *now) == Some(0nat)) by (nonlinear_arith)
                requires
                    now.secs_since_epoch() == self.secs_since_epoch(),
                    self.nanos_since_epoch() <= now.nanos_since_epoch() < NANOS_PER_SEC,
                    NANOS_PER_SEC == 1_000_000_000,
            ;
            Some(0)
        } else {
            assert(elapsed_secs(*self, *now) is None) by (nonlinear_arith)
                requires
                    now.secs_since_epoch() < self.secs_since_epoch()
                        || (now.secs_since_epoch() == self.secs_since_epoch()
                        && now.nanos_since_epoch() < self.nanos_since_epoch()),
                    now.nanos_since_epoch() < NANOS_PER_SEC,
                    self.nanos_since_epoch() < NANOS_PER_SEC,
                    NANOS_PER_SEC == 1_000_000_000,
            ;
            None
        }
    }

    /// The time that a reading of the system clock shows; `None` when the clock
    /// stands before the Unix epoch. Which reading it is cannot be told.
    pub fn now() -> (now: Option<Timestamp>)
        ensures
            exists|clock: SystemTime| now == #[trigger] Timestamp::of_clock(clock),
    {
        let clock = system_clock();
        Timestamp::from_system_time(&clock)
    }

    /// The time that `clock` shows; `None` exactly for a time before the Unix
    /// epoch.
    pub fn from_system_time(clock: &SystemTime) -> (at: Option<Timestamp>)
        ensures
            at == Timestamp::of_clock(*clock),
            at is Some <==> epoch_offset(*clock) is Some,
    {
        match since_unix_epoch(clock) {
            Some((secs, nanos)) => Timestamp::new(secs, nanos),
            None => None,
        }
    }

    /// The point `secs` seconds and `nanos` nanoseconds after the Unix epoch.
    pub closed spec fn from_parts(secs: u64, nanos: u32) -> Timestamp {
        Timestamp { secs, nanos }
    }

    /// The point `secs` seconds and `nanos` nanoseconds after the Unix epoch, if
    /// `nanos` is less than a second.
    pub open spec fn checked(secs: u64, nanos: u32) -> Option<Timestamp> {
        if nanos < NANOS_PER_SEC {
            Some(Timestamp::from_parts(secs, nanos))
        } else {
            None
        }
    }

    /// The time that a reading of the clock shows, if it is at or after the
    /// Unix epoch.
    pub open spec fn of_clock(clock: SystemTime) -> Option<Timestamp> {
        match epoch_offset(clock) {
            Some((secs, nanos)) => Timestamp::checked(secs, nanos),
            None => None,
        }
    }
}

/// What lies between the Unix epoch and `clock`, as whole seconds and the
/// nanoseconds beyond them; `None` for a time before the epoch.
pub uninterp spec fn epoch_offset(clock: SystemTime) -> Option<(u64, u32)>;

/// `std::time::SystemTime`, a reading of the system clock: carried through,
/// never looked into.
#[verifier::external_type_specification]
#[verifier::external_body]
pub struct ExSystemTime(SystemTime);

/// `SystemTime::now`: the reading of the system clock. Nothing is claimed of it.
#[verifier::external_body]
fn system_clock() -> (clock: SystemTime) {
    SystemTime::now()
}

/// `SystemTime::duration_since` against `UNIX_EPOCH`, as the duration's whole
/// seconds and its nanoseconds beyond them; `None` for a time before the epoch.
/// The outcome is a function of the time alone, and the nanoseconds are less
/// than a second. Nothing else is claimed of the numbers.
#[verifier::external_body]
fn since_unix_epoch(clock: &SystemTime) -> (at: Option<(u64, u32)>)
    ensures
        at == epoch_offset(*clock),
        at matches Some(offset) ==> offset.1 < NANOS_PER_SEC,
{
    match clock.duration_since(UNIX_EPOCH) {
        Ok(d) => Some((d.as_secs(), d.subsec_nanos())),
        Err(_) => None,
    }
}

} // verus!
