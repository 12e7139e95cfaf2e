use vhost_user_backend::os::EINVAL;
use vhost_user_backend::user_data::{
    decode_user_data_kind, decode_user_data_payload, encode_user_data, USER_DATA_KIND_BACKEND,
    USER_DATA_KIND_CANCEL, USER_DATA_KIND_POLL, USER_DATA_PAYLOAD_MASK,
    VHOST_USER_BACKEND_USER_DATA_MASK,
};

#[test]
fn test_user_data_encoding() {
    assert_eq!(
        encode_user_data(USER_DATA_KIND_BACKEND, 0x42).unwrap(),
        0x42
    );
    assert!(encode_user_data(USER_DATA_KIND_BACKEND, USER_DATA_PAYLOAD_MASK + 1).is_err());
}

#[test]
fn kinds_and_payloads_survive_the_round_trip() {
    for kind in [USER_DATA_KIND_BACKEND, USER_DATA_KIND_POLL, USER_DATA_KIND_CANCEL, 0xf] {
        for payload in [0, 1, 0x42, USER_DATA_PAYLOAD_MASK] {
            let word = encode_user_data(kind, payload).unwrap();
            assert_eq!(decode_user_data_kind(word), kind);
            assert_eq!(decode_user_data_payload(word), payload);
        }
    }
}

#[test]
fn words_have_the_kind_in_the_top_four_bits() {
    assert_eq!(
        encode_user_data(USER_DATA_KIND_POLL, 2).unwrap(),
        0x1000_0000_0000_0002
    );
    assert_eq!(
        encode_user_data(USER_DATA_KIND_CANCEL, 0x123).unwrap(),
        0x2000_0000_0000_0123
    );
    assert_eq!(decode_user_data_kind(u64::MAX), 0xf);
    assert_eq!(decode_user_data_payload(u64::MAX), 0x0fff_ffff_ffff_ffff);
    assert_eq!(VHOST_USER_BACKEND_USER_DATA_MASK, (1u64 << 60) - 1);
}

#[test]
fn what_does_not_fit_is_refused() {
    assert_eq!(encode_user_data(0x10, 0).unwrap_err().code, EINVAL);
    assert_eq!(encode_user_data(0, 1 << 60).unwrap_err().code, EINVAL);
    assert_eq!(encode_user_data(0, u64::MAX).unwrap_err().code, libc::EINVAL);
}
