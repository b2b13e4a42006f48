//! The terminal result of one delivery attempt, as reported to the host.

use vstd::prelude::*;
use vstd::string::StringSliceAdditionalSpecFns;

verus! {

/// Status telling the host that the remote service took ownership of the
/// message.
pub const STATUS_ACCEPTED: i32 = 250;

/// Status telling the host that the attempt failed temporarily and its own
/// retry policy applies.
pub const STATUS_TEMPFAIL: i32 = 421;

/// The reason reported for any failed read of the per-attempt context: a
/// deliberately generic text that does not leak which internal read failed.
pub open spec fn generic_local_reason() -> Seq<char> {
    "Temporary local error"@
}

/// The reason reported when the remote call succeeds.
pub open spec fn accepted_reason() -> Seq<char> {
    "OK"@
}

/// What one delivery attempt reports back to the host: a numeric status plus
/// a human-readable reason, written exactly once per attempt.
#[derive(Debug, PartialEq)]
pub struct DeliveryOutcome {
    pub status: i32,
    pub reason: String,
}

/// The mathematical model of an outcome.
pub ghost struct OutcomeModel {
    pub status: int,
    pub reason: Seq<char>,
}

impl View for DeliveryOutcome {
    type V = OutcomeModel;

    open spec fn view(&self) -> OutcomeModel {
        OutcomeModel { status: self.status as int, reason: self.reason@ }
    }
}

/// The model of the accepted outcome: `(250, "OK")`.
pub open spec fn accepted_model() -> OutcomeModel {
    OutcomeModel { status: STATUS_ACCEPTED as int, reason: accepted_reason() }
}

/// The model of a temporary failure carrying `reason`.
pub open spec fn temp_fail_model(reason: Seq<char>) -> OutcomeModel {
    OutcomeModel { status: STATUS_TEMPFAIL as int, reason }
}

impl DeliveryOutcome {
    /// An outcome carries one of the two statuses the host understands.
    pub open spec fn wf(self) -> bool {
        self.status == STATUS_ACCEPTED || self.status == STATUS_TEMPFAIL
    }

    /// The outcome of a successful remote call: exactly `(250, "OK")`.
    pub fn accepted() -> (r: DeliveryOutcome)
        ensures
            r@ == accepted_model(),
            r.wf(),
    {
        DeliveryOutcome { status: STATUS_ACCEPTED, reason: "OK".to_owned() }
    }

    /// A temporary failure carrying the given reason text.
    pub fn temp_fail(reason: String) -> (r: DeliveryOutcome)
        ensures
            r@ == temp_fail_model(reason@),
            r.wf(),
    {
        DeliveryOutcome { status: STATUS_TEMPFAIL, reason }
    }

    /// The temporary failure reported for any failed context read: exactly
    /// `(421, "Temporary local error")`.
    pub fn temp_local_error() -> (r: DeliveryOutcome)
        ensures
            r@ == temp_fail_model(generic_local_reason()),
            r.wf(),
    {
        DeliveryOutcome { status: STATUS_TEMPFAIL, reason: "Temporary local error".to_owned() }
    }
}

/// Whether a reason text can cross the host boundary, which takes it as a
/// C string: true exactly when its encoding holds no NUL byte. The reporter
/// checks this before writing the reason; a text that fails it fails the
/// reporting step, as the host interface leaves no way to pass it on.
pub fn reason_encodable(reason: &str) -> (b: bool)
    ensures
        b == !reason.spec_bytes().contains(0u8),
{
    let bytes = reason.as_bytes();
    let n = bytes.len();
    let mut i: usize = 0;
    while i < n
        invariant
            n == bytes@.len(),
            i <= n,
            bytes@ == reason.spec_bytes(),
            forall|j: int| 0 <= j < i ==> bytes@[j] != 0u8,
        decreases n - i,
    {
        if bytes[i] == 0 {
            proof {
                assert(reason.spec_bytes()[i as int] == 0u8);
            }
            return false;
        }
        i += 1;
    }
    proof {
        assert forall|j: int| 0 <= j < reason.spec_bytes().len() implies reason.spec_bytes()[j]
            != 0u8 by {}
    }
    true
}

} // verus!
