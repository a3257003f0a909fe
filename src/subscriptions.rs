//! The subscriber intake write path: the record to store for a submission,
//! and the response for the outcome of the write.
use vstd::prelude::*;

verus! {

/// A subscription form as submitted.
pub struct FormData {
    pub name: String,
    pub email: String,
}

/// The row written for one subscription. The identifier and the time are
/// made here, never taken from the submission.
pub struct SubscriptionRecord {
    /// A random (version 4) UUID, as its 128 bits in big-endian order.
    pub id: u128,
    pub email: String,
    pub name: String,
    /// Microseconds since the Unix epoch, in UTC.
    pub subscribed_at: i64,
}

/// The bits of a UUID marked as version 4 with the RFC 4122 variant.
pub open spec fn is_random_uuid(id: u128) -> bool {
    (id >> 76u128) & 0xfu128 == 4u128 && (id >> 62u128) & 3u128 == 2u128
}

/// Relies on `uuid::Uuid::new_v4` and `Uuid::as_u128`: random bits, with the
/// version nibble set to 4 and the variant bits to `10`.
#[verifier::external_body]
fn new_random_id() -> (r: u128)
    ensures
        is_random_uuid(r),
{
    uuid::Uuid::new_v4().as_u128()
}

/// Relies on `chrono::Utc::now` and `DateTime::timestamp_micros`: the current
/// time, of which nothing can be promised.
#[verifier::external_body]
fn now_micros() -> (r: i64) {
    chrono::Utc::now().timestamp_micros()
}

/// Failure of the store to write a record, of whatever cause.
#[derive(PartialEq, Eq, Structural, Clone, Copy, Debug)]
pub struct StoreError;

/// The HTTP response to a submission.
pub struct HttpOutcome {
    pub status: u16,
    pub body: String,
}

impl SubscriptionRecord {
    /// The record for a submission, with a fresh identifier and the current
    /// time.
    pub fn new(form: &FormData) -> (r: SubscriptionRecord)
        ensures
            r.email@ == form.email@,
            r.name@ == form.name@,
            is_random_uuid(r.id),
    {
        let id = new_random_id();
        let subscribed_at = now_micros();
        SubscriptionRecord {
            id,
            email: form.email.clone(),
            name: form.name.clone(),
            subscribed_at,
        }
    }
}

/// The response to a submission, given the outcome of its single write:
/// `200` when the record was stored, `500` when it was not; the body is empty
/// either way and the cause is never shown.
pub fn subscribe_outcome(stored: Result<(), StoreError>) -> (r: HttpOutcome)
    ensures
        stored is Ok ==> r.status == 200,
        stored is Err ==> r.status == 500,
        r.body@.len() == 0,
{
    let status: u16 = match stored {
        Ok(()) => 200,
        Err(_) => 500,
    };
    HttpOutcome { status, body: String::new() }
}

} // verus!
