//! The `user_data` word of a submission: what kind of request it belongs to, and a payload.
//!
//! The top four bits name the kind, the other sixty carry the payload. A completion carries the
//! word of its submission, so the worker can tell whose completion it is.

use vstd::prelude::*;

use crate::os::{OsError, EINVAL};

verus! {

/// Position of the kind in a `user_data` word.
pub const USER_DATA_KIND_SHIFT: u64 = 60;

/// The bits of a `user_data` word that hold the payload.
pub const USER_DATA_PAYLOAD_MASK: u64 = 0x0fff_ffff_ffff_ffff;

/// Kind of the submissions that a backend makes.
pub const USER_DATA_KIND_BACKEND: u64 = 0;

/// Kind of the poll requests of the worker.
pub const USER_DATA_KIND_POLL: u64 = 1;

/// Kind of the requests that cancel a poll.
pub const USER_DATA_KIND_CANCEL: u64 = 2;

/// Mask available to backend implementations for io_uring SQE `user_data`.
pub const VHOST_USER_BACKEND_USER_DATA_MASK: u64 = USER_DATA_PAYLOAD_MASK;

/// One more than the largest payload, and the weight of the kind in a `user_data` word.
pub open spec fn kind_weight() -> int {
    0x1000_0000_0000_0000
}

/// Whether a kind and a payload fit in one word.
pub open spec fn encodable(kind: u64, payload: u64) -> bool {
    kind < 16 && payload < kind_weight()
}

/// The word for a kind and a payload that fit.
pub open spec fn user_data_word(kind: u64, payload: u64) -> u64
    recommends
        encodable(kind, payload),
{
    (kind * kind_weight() + payload) as u64
}

/// The word for a kind and a payload, or `EINVAL` where they do not fit.
pub open spec fn encoded(kind: u64, payload: u64) -> Result<u64, OsError> {
    if encodable(kind, payload) {
        Ok(user_data_word(kind, payload))
    } else {
        Err(OsError { code: EINVAL })
    }
}

/// The kind that a word names.
pub open spec fn word_kind(word: u64) -> u64 {
    (word as int / kind_weight()) as u64
}

/// The payload that a word carries.
pub open spec fn word_payload(word: u64) -> u64 {
    (word as int % kind_weight()) as u64
}

/// Packs a kind and a payload into one word. The kind must fit in four bits and the payload in the
/// other sixty; anything else is refused with `EINVAL`.
pub fn encode_user_data(kind: u64, payload: u64) -> (word: Result<u64, OsError>)
    ensures
        word == encoded(kind, payload),
{
    if kind > 0xf || payload > USER_DATA_PAYLOAD_MASK {
        Err(OsError::invalid_argument())
    } else {
        assert((kind << 60u64) | payload == kind * 0x1000_0000_0000_0000 + payload) by (bit_vector)
            requires
                kind <= 0xf,
                payload <= 0x0fff_ffff_ffff_ffffu64,
        ;
        Ok((kind << USER_DATA_KIND_SHIFT) | payload)
    }
}

/// The kind of request that a word belongs to.
pub fn decode_user_data_kind(user_data: u64) -> (kind: u64)
    ensures
        kind == word_kind(user_data),
{
    assert(user_data >> 60u64 == user_data / 0x1000_0000_0000_0000u64) by (bit_vector);
    user_data >> USER_DATA_KIND_SHIFT
}

/// The payload of a word.
pub fn decode_user_data_payload(user_data: u64) -> (payload: u64)
    ensures
        payload == word_payload(user_data),
{
    assert(user_data & 0x0fff_ffff_ffff_ffffu64 == user_data % 0x1000_0000_0000_0000u64)
        by (bit_vector);
    user_data & USER_DATA_PAYLOAD_MASK
}

/// What is packed comes out again: the word for a kind and a payload names that kind and carries
/// that payload.
pub proof fn encode_decode_round_trip(kind: u64, payload: u64)
    requires
        encodable(kind, payload),
    ensures
        word_kind(user_data_word(kind, payload)) == kind,
        word_payload(user_data_word(kind, payload)) == payload,
{
}

/// Every word is the word of its own kind and payload.
pub proof fn decode_encode_round_trip(word: u64)
    ensures
        encoded(word_kind(word), word_payload(word)) == Ok::<u64, OsError>(word),
{
}

/// Different requests never share a word.
pub proof fn encoding_is_injective(kind1: u64, payload1: u64, kind2: u64, payload2: u64)
    requires
        encodable(kind1, payload1),
        encodable(kind2, payload2),
        user_data_word(kind1, payload1) == user_data_word(kind2, payload2),
    ensures
        kind1 == kind2,
        payload1 == payload2,
{
    encode_decode_round_trip(kind1, payload1);
    encode_decode_round_trip(kind2, payload2);
}

/// A backend may use exactly the payloads within [`VHOST_USER_BACKEND_USER_DATA_MASK`], and its
/// words are the payloads themselves.
pub proof fn backend_words_are_payloads(payload: u64)
    ensures
        payload <= VHOST_USER_BACKEND_USER_DATA_MASK ==> encoded(USER_DATA_KIND_BACKEND, payload)
            == Ok::<u64, OsError>(payload),
        payload > VHOST_USER_BACKEND_USER_DATA_MASK ==> encoded(USER_DATA_KIND_BACKEND, payload)
            == Err::<u64, OsError>(OsError { code: EINVAL }),
{
}

/// A word is made of a kind in its top four bits and a payload in the other sixty: every kind and
/// payload that fit there are packed, all others are refused with error number 22, and a word is
/// taken apart at the same place.
pub proof fn words_hold_kind_over_payload(kind: u64, payload: u64, word: u64)
    ensures
        kind <= 15 && payload <= 0x0fff_ffff_ffff_ffff ==> encoded(kind, payload) == Ok::<
            u64,
            OsError,
        >((kind << 60u64) | payload),
        kind > 15 || payload > 0x0fff_ffff_ffff_ffff ==> encoded(kind, payload) == Err::<
            u64,
            OsError,
        >(OsError { code: 22 }),
        word_kind(word) == word >> 60u64,
        word_payload(word) == word & 0x0fff_ffff_ffff_ffff,
        VHOST_USER_BACKEND_USER_DATA_MASK == 0x0fff_ffff_ffff_ffff,
{
    assert(kind <= 15 && payload <= 0x0fff_ffff_ffff_ffffu64 ==> (kind << 60u64) | payload == kind
        * 0x1000_0000_0000_0000 + payload) by (bit_vector);
    assert(word >> 60u64 == word / 0x1000_0000_0000_0000u64) by (bit_vector);
    assert(word & 0x0fff_ffff_ffff_ffffu64 == word % 0x1000_0000_0000_0000u64) by (bit_vector);
}

} // verus!
