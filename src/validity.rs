use vstd::prelude::*;
use crate::request::ValidationError;

verus! {

pub const SECONDS_PER_DAY: i64 = 86400;

/// 9999-12-31T23:59:59Z, the last second that X.509 time encodings can hold.
pub const LATEST_ENCODABLE_TIME: i64 = 253402300799;

/// Validity period of a certificate, in seconds since the Unix epoch (UTC).
#[derive(Debug, Clone, Copy, PartialEq, Eq, Structural)]
pub struct ValidityWindow {
    pub not_before: i64,
    pub not_after: i64,
}

/// Both ends of the window can be encoded.
pub open spec fn encodable(t: int) -> bool {
    0 <= t <= LATEST_ENCODABLE_TIME
}

/// The window that starts at `now` and lasts `days` whole days.
pub open spec fn window_spec(now: int, days: int) -> Result<ValidityWindow, ValidationError> {
    if days <= 0 {
        Err(ValidationError::NonPositiveValidity)
    } else if !encodable(now) || !encodable(now + days * SECONDS_PER_DAY) {
        Err(ValidationError::ValidityOutOfRange)
    } else {
        Ok(ValidityWindow {
            not_before: now as i64,
            not_after: (now + days * SECONDS_PER_DAY) as i64,
        })
    }
}

/// Computes the validity window: `not_before` is `now`, `not_after` lies
/// exactly `days` days later.
pub fn validity_window(now: i64, days: i64) -> (r: Result<ValidityWindow, ValidationError>)
    ensures
        r == window_spec(now as int, days as int),
        r is Ok ==> r->Ok_0.not_after - r->Ok_0.not_before == days * SECONDS_PER_DAY,
{
    if days <= 0 {
        return Err(ValidationError::NonPositiveValidity);
    }
    if now < 0 || now > LATEST_ENCODABLE_TIME {
        return Err(ValidationError::ValidityOutOfRange);
    }
    let room: i64 = (LATEST_ENCODABLE_TIME - now) / SECONDS_PER_DAY;
    proof {
        let d = days as int;
        let m = (LATEST_ENCODABLE_TIME - now) as int;
        assert(d <= m / 86400 <==> d * 86400 <= m) by (nonlinear_arith)
            requires
                m >= 0,
                d > 0,
        ;
    }
    if days > room {
        return Err(ValidationError::ValidityOutOfRange);
    }
    Ok(ValidityWindow { not_before: now, not_after: now + days * SECONDS_PER_DAY })
}

} // verus!
