use vstd::prelude::*;
use vstd::string::StringExecFns;
use crate::decimal::{signed_decimal, signed_decimal_text};
use crate::session::SupervisionOutcome;

verus! {

/// nix's `Errno`, the error of a failed clock read; carried through as it is.
#[verifier::external_type_specification]
#[verifier::external_body]
pub struct ExErrno(nix::errno::Errno);

/// The two messages sent to the service supervisor.
#[derive(Clone, Copy, Debug, PartialEq, Eq, Structural)]
pub enum SdNotifyType {
    /// The child was spawned: the daemon is up.
    Ready,
    /// A reload is in progress.
    Reload,
}

/// Why the reloading timestamp could not be produced.
#[derive(Debug)]
pub enum NotifyError {
    /// Reading the monotonic clock failed.
    Clock(nix::errno::Errno),
    /// The reading does not fit in 64 bits once turned into microseconds.
    Overflow,
}

/// Integer division rounding toward zero, as Rust's `/` does.
pub open spec fn trunc_div(a: int, b: int) -> int {
    if a >= 0 {
        a / b
    } else {
        -((-a) / b)
    }
}

/// A clock reading of `sec` seconds and `nsec` nanoseconds, in microseconds.
pub open spec fn usec_of(sec: int, nsec: int) -> int {
    sec * 1_000_000 + trunc_div(nsec, 1000)
}

pub open spec fn fits_i64(v: int) -> bool {
    i64::MIN <= v <= i64::MAX
}

/// The text of the `MONOTONIC_USEC` field for a value of `usec`.
pub open spec fn usec_field(usec: int) -> Seq<char> {
    "MONOTONIC_USEC="@ + signed_decimal(usec)
}

/// Relies on nix::time::clock_gettime with CLOCK_MONOTONIC: the current
/// reading of the monotonic clock as seconds and nanoseconds, or the errno
/// of the failed call. Nothing is known of the reading itself.
#[verifier::external_body]
fn monotonic_clock() -> (r: Result<(i64, i64), nix::errno::Errno>) {
    match nix::time::clock_gettime(nix::time::ClockId::CLOCK_MONOTONIC) {
        Ok(t) => Ok((t.tv_sec(), t.tv_nsec())),
        Err(e) => Err(e),
    }
}

/// The reading in microseconds, if it fits in an `i64`.
pub fn monotonic_usec(sec: i64, nsec: i64) -> (r: Option<i64>)
    ensures
        r == (if fits_i64(usec_of(sec as int, nsec as int)) {
            Some(usec_of(sec as int, nsec as int) as i64)
        } else {
            None::<i64>
        }),
{
    let micros = nsec / 1000;
    assert(micros as int == trunc_div(nsec as int, 1000));
    let total: i128 = sec as i128 * 1_000_000i128 + micros as i128;
    if total < i64::MIN as i128 || total > i64::MAX as i128 {
        None
    } else {
        Some(total as i64)
    }
}

/// The `MONOTONIC_USEC=<usec>` field of a reloading message.
pub fn monotonic_usec_field(usec: i64) -> (r: String)
    ensures
        r@ == usec_field(usec as int),
{
    let mut text = String::from_str("MONOTONIC_USEC=");
    let digits = signed_decimal_text(usec);
    text.append(digits.as_str());
    text
}

/// The reloading timestamp field for a clock reading of `sec` seconds and
/// `nsec` nanoseconds; `None` when the microseconds do not fit in 64 bits.
pub fn monotonic_usec_state(sec: i64, nsec: i64) -> (r: Option<String>)
    ensures
        fits_i64(usec_of(sec as int, nsec as int)) <==> r is Some,
        r matches Some(text) ==> text@ == usec_field(usec_of(sec as int, nsec as int)),
{
    match monotonic_usec(sec, nsec) {
        Some(usec) => Some(monotonic_usec_field(usec)),
        None => None,
    }
}

/// Reads the monotonic clock and renders the `MONOTONIC_USEC` field that
/// accompanies a reloading message.
pub fn notify_state_monotonic_usec() -> (r: Result<String, NotifyError>)
    ensures
        r matches Ok(text) ==> exists|sec: i64, nsec: i64|
            fits_i64(usec_of(sec as int, nsec as int)) && text@ == usec_field(
                #[trigger] usec_of(sec as int, nsec as int),
            ),
{
    match monotonic_clock() {
        Err(e) => Err(NotifyError::Clock(e)),
        Ok((sec, nsec)) => match monotonic_usec_state(sec, nsec) {
            Some(text) => Ok(text),
            None => Err(NotifyError::Overflow),
        },
    }
}

/// Once the child is spawned, readiness is announced only under a supervisor.
pub fn ready_notification(is_notify: bool) -> (r: Option<SdNotifyType>)
    ensures
        r == (if is_notify {
            Some(SdNotifyType::Ready)
        } else {
            None::<SdNotifyType>
        }),
{
    if is_notify {
        Some(SdNotifyType::Ready)
    } else {
        None
    }
}

/// At the end of a session, a reload is announced only under a supervisor.
pub fn finish_notification(is_notify: bool, outcome: SupervisionOutcome) -> (r: Option<SdNotifyType>)
    ensures
        r == (if is_notify && outcome == SupervisionOutcome::Reload {
            Some(SdNotifyType::Reload)
        } else {
            None::<SdNotifyType>
        }),
{
    if is_notify && outcome == SupervisionOutcome::Reload {
        Some(SdNotifyType::Reload)
    } else {
        None
    }
}

} // verus!
