use wartid_client::WartIDSession;
use wartid_client::api::UserInfoResponse;
use wartid_client::codec::{decode, encode};

fn sample(id: u128, name: &str, email: Option<&str>, scopes: &str) -> WartIDSession {
    WartIDSession {
        id,
        name: name.to_owned(),
        email: email.map(|e| e.to_owned()),
        scopes: scopes.to_owned(),
    }
}

fn assert_same(a: &WartIDSession, b: &WartIDSession) {
    assert_eq!(a.id, b.id);
    assert_eq!(a.name, b.name);
    assert_eq!(a.email, b.email);
    assert_eq!(a.scopes, b.scopes);
}

#[test]
fn round_trip_with_email() {
    let s = sample(42, "Ann", Some("ann@example.org"), "basic email");
    let payload = encode(&s);
    let back = decode(&payload).expect("round trip must decode");
    assert_same(&s, &back);
}

#[test]
fn round_trip_without_email() {
    let s = sample(0, "", None, "");
    let payload = encode(&s);
    let back = decode(&payload).expect("round trip must decode");
    assert_same(&s, &back);
}

#[test]
fn round_trip_large_id_and_unicode() {
    let s = sample(u128::MAX, "Ann Onymé 分", Some("é@example.org"), "basic");
    let payload = encode(&s);
    let back = decode(&payload).expect("round trip must decode");
    assert_same(&s, &back);
}

#[test]
fn round_trip_from_user_info() {
    let info = UserInfoResponse { sub: 7, name: "Bob".to_owned(), email: None };
    let s = WartIDSession::from_user_info(info);
    assert_eq!(s.scopes, "");
    let back = decode(&encode(&s)).expect("round trip must decode");
    assert_eq!(back.id, 7);
    assert_eq!(back.name, "Bob");
    assert_eq!(back.email, None);
    assert_eq!(back.scopes, "");
}

#[test]
fn malformed_empty_is_error() {
    assert!(decode("").is_err());
}

#[test]
fn malformed_short_is_error() {
    assert!(decode("00ff").is_err());
}

#[test]
fn malformed_non_hex_is_error() {
    let mut p = String::new();
    for _ in 0..64 {
        p.push('z');
    }
    assert!(decode(&p).is_err());
}

#[test]
fn malformed_bad_tag_is_error() {
    let s = sample(1, "x", None, "");
    let good = encode(&s);
    let bad = good.replace('N', "Q");
    assert!(decode(&bad).is_err());
}

#[test]
fn malformed_trailing_garbage_is_error() {
    let s = sample(1, "x", None, "ok");
    let mut p = encode(&s);
    p.push('!');
    assert!(decode(&p).is_err());
}

#[test]
fn malformed_truncated_is_error() {
    let s = sample(9, "somebody", Some("s@example.org"), "basic");
    let p = encode(&s);
    let cut: String = p.chars().take(p.chars().count() - 1).collect();
    assert!(decode(&cut).is_err());
}

#[test]
fn malformed_length_overrun_is_error() {
    // A name length prefix that claims more characters than the payload has.
    let mut p = String::new();
    for _ in 0..32 {
        p.push('0');
    }
    p.push_str("000000000000ffff");
    p.push_str("shorttext");
    assert!(decode(&p).is_err());
}

#[test]
fn decode_never_panics_on_noise() {
    let noisy = ["a", ".", "0", "N", "E", "=&", "\u{1F600}", "wartid"];
    for n in noisy {
        let mut p = String::new();
        for _ in 0..80 {
            p.push_str(n);
            assert!(decode(&p).is_err() || !p.is_empty());
        }
    }
}
