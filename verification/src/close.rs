//! Classification of the 16-bit status codes carried in close frames.

use vstd::prelude::*;

verus! {

/// A close code, classified into the ranges of RFC 6455: the defined
/// codes 1000..=1011 (of which 1004, 1005 and 1006 are reserved and must
/// not appear on the wire), the registered range 3000..=3999, the
/// private range 4000..=4999, and everything else, which is not allowed.
#[derive(Clone, Copy, PartialEq, Eq, Structural, Debug)]
pub enum CloseCode {
    /// 1000: normal closure.
    Normal,
    /// 1001: the endpoint is going away.
    Away,
    /// 1002: protocol error.
    Protocol,
    /// 1003: unsupported data.
    Unsupported,
    /// 1004: reserved, must not be sent.
    Reserved,
    /// 1005: no status present, must not be sent.
    NoStatus,
    /// 1006: abnormal closure, must not be sent.
    Abnormal,
    /// 1007: invalid payload data.
    InvalidPayload,
    /// 1008: policy violation.
    Policy,
    /// 1009: message too big.
    Size,
    /// 1010: missing extension.
    Extension,
    /// 1011: internal error.
    Internal,
    /// 3000..=3999: registered with IANA, allowed on the wire.
    Iana(u16),
    /// 4000..=4999: private use, allowed on the wire.
    Private(u16),
    /// Any other value: not allowed on the wire.
    Bad(u16),
}

/// The numeric value a classified close code stands for.
pub open spec fn code_of(c: CloseCode) -> u16 {
    match c {
        CloseCode::Normal => 1000,
        CloseCode::Away => 1001,
        CloseCode::Protocol => 1002,
        CloseCode::Unsupported => 1003,
        CloseCode::Reserved => 1004,
        CloseCode::NoStatus => 1005,
        CloseCode::Abnormal => 1006,
        CloseCode::InvalidPayload => 1007,
        CloseCode::Policy => 1008,
        CloseCode::Size => 1009,
        CloseCode::Extension => 1010,
        CloseCode::Internal => 1011,
        CloseCode::Iana(v) => v,
        CloseCode::Private(v) => v,
        CloseCode::Bad(v) => v,
    }
}

/// The classification of a numeric close code.
pub open spec fn classify(v: u16) -> CloseCode {
    if v == 1000 {
        CloseCode::Normal
    } else if v == 1001 {
        CloseCode::Away
    } else if v == 1002 {
        CloseCode::Protocol
    } else if v == 1003 {
        CloseCode::Unsupported
    } else if v == 1004 {
        CloseCode::Reserved
    } else if v == 1005 {
        CloseCode::NoStatus
    } else if v == 1006 {
        CloseCode::Abnormal
    } else if v == 1007 {
        CloseCode::InvalidPayload
    } else if v == 1008 {
        CloseCode::Policy
    } else if v == 1009 {
        CloseCode::Size
    } else if v == 1010 {
        CloseCode::Extension
    } else if v == 1011 {
        CloseCode::Internal
    } else if 3000 <= v && v <= 3999 {
        CloseCode::Iana(v)
    } else if 4000 <= v && v <= 4999 {
        CloseCode::Private(v)
    } else {
        CloseCode::Bad(v)
    }
}

/// Whether the numeric code may be sent on the wire: the defined codes
/// without the three reserved ones, the registered range, and the
/// private range.
pub open spec fn code_allowed(v: u16) -> bool {
    (1000 <= v && v <= 1011 && v != 1004 && v != 1005 && v != 1006) || (3000 <= v && v <= 4999)
}

/// Whether a classified code may be sent on the wire.
pub open spec fn spec_is_allowed(c: CloseCode) -> bool {
    match c {
        CloseCode::Reserved => false,
        CloseCode::NoStatus => false,
        CloseCode::Abnormal => false,
        CloseCode::Bad(_) => false,
        _ => true,
    }
}

impl CloseCode {
    /// Whether this code may be sent on the wire.
    pub fn is_allowed(&self) -> (r: bool)
        ensures
            r == spec_is_allowed(*self),
    {
        !matches!(
            self,
            CloseCode::Reserved | CloseCode::NoStatus | CloseCode::Abnormal | CloseCode::Bad(_)
        )
    }
}

impl From<u16> for CloseCode {
    /// Classify a numeric close code.
    fn from(v: u16) -> (r: CloseCode)
        ensures
            r == classify(v),
    {
        if v == 1000 {
            CloseCode::Normal
        } else if v == 1001 {
            CloseCode::Away
        } else if v == 1002 {
            CloseCode::Protocol
        } else if v == 1003 {
            CloseCode::Unsupported
        } else if v == 1004 {
            CloseCode::Reserved
        } else if v == 1005 {
            CloseCode::NoStatus
        } else if v == 1006 {
            CloseCode::Abnormal
        } else if v == 1007 {
            CloseCode::InvalidPayload
        } else if v == 1008 {
            CloseCode::Policy
        } else if v == 1009 {
            CloseCode::Size
        } else if v == 1010 {
            CloseCode::Extension
        } else if v == 1011 {
            CloseCode::Internal
        } else if 3000 <= v && v <= 3999 {
            CloseCode::Iana(v)
        } else if 4000 <= v && v <= 4999 {
            CloseCode::Private(v)
        } else {
            CloseCode::Bad(v)
        }
    }
}

impl vstd::std_specs::convert::FromSpecImpl<u16> for CloseCode {
    open spec fn obeys_from_spec() -> bool {
        true
    }

    open spec fn from_spec(v: u16) -> CloseCode {
        classify(v)
    }
}

/// Classification and the numeric test agree: a code is allowed on the
/// wire exactly when its classified form is allowed, and classification
/// keeps the numeric value.
pub proof fn lemma_classify_allowed(v: u16)
    ensures
        spec_is_allowed(classify(v)) == code_allowed(v),
        code_of(classify(v)) == v,
{
}

} // verus!
