//! Session materializer: the persisted form of a [`WartIDSession`] and its
//! structural validation.
//!
//! A session is persisted in a single cookie value. The format is
//! length-prefixed so that decoding is unambiguous: the 32-hex-digit subject
//! id, then each text field as a 16-hex-digit character count followed by the
//! characters themselves, with a one-character tag telling an absent email
//! from a present one. Decoding either recovers exactly the record that was
//! encoded or reports a [`DecodeError`]; it never faults.

use vstd::prelude::*;
use vstd::string::StrSliceExecFns;
use vstd::string::StringExecFns;
use crate::{SessionView, WartIDSession};
use crate::api::{UserInfoResponse, user_session_view};

verus! {

/// Structural decode failure: the payload is not the encoding of any session.
#[derive(Clone, Copy, Debug, PartialEq, Eq, Structural)]
pub struct DecodeError;

pub open spec fn pow16(w: nat) -> int
    decreases w,
{
    if w == 0 {
        1
    } else {
        16 * pow16((w - 1) as nat)
    }
}

/// A field length that fits its 16-digit prefix. Every length that fits in a
/// machine word does.
pub open spec fn wf_len(n: nat) -> bool {
    n < pow16(16)
}

/// Well-formed session model: every text field's length fits its prefix.
pub open spec fn session_wf(v: SessionView) -> bool {
    &&& wf_len(v.name.len())
    &&& (v.email matches Some(e) ==> wf_len(e.len()))
    &&& wf_len(v.scopes.len())
}

pub open spec fn hex_digit_char(d: int) -> char {
    if d == 0 { '0' } else if d == 1 { '1' } else if d == 2 { '2' } else if d == 3 { '3' }
    else if d == 4 { '4' } else if d == 5 { '5' } else if d == 6 { '6' } else if d == 7 { '7' }
    else if d == 8 { '8' } else if d == 9 { '9' } else if d == 10 { 'a' } else if d == 11 { 'b' }
    else if d == 12 { 'c' } else if d == 13 { 'd' } else if d == 14 { 'e' } else { 'f' }
}

pub open spec fn hex_char_val(c: char) -> Option<int> {
    if c == '0' { Some(0int) } else if c == '1' { Some(1int) } else if c == '2' { Some(2int) }
    else if c == '3' { Some(3int) } else if c == '4' { Some(4int) } else if c == '5' { Some(5int) }
    else if c == '6' { Some(6int) } else if c == '7' { Some(7int) } else if c == '8' { Some(8int) }
    else if c == '9' { Some(9int) } else if c == 'a' { Some(10int) } else if c == 'b' { Some(11int) }
    else if c == 'c' { Some(12int) } else if c == 'd' { Some(13int) } else if c == 'e' { Some(14int) }
    else if c == 'f' { Some(15int) } else { None }
}

/// `n` written as exactly `w` hex digits, most significant first
/// (the value taken modulo `16^w`).
pub open spec fn hex_of(n: int, w: nat) -> Seq<char>
    decreases w,
{
    if w == 0 {
        Seq::empty()
    } else {
        hex_of(n / 16, (w - 1) as nat).push(hex_digit_char(n % 16))
    }
}

/// The value of a digit string, if every character is a hex digit.
pub open spec fn hex_val(s: Seq<char>) -> Option<int>
    decreases s.len(),
{
    if s.len() == 0 {
        Some(0int)
    } else {
        match hex_val(s.drop_last()) {
            Some(v) => match hex_char_val(s.last()) {
                Some(d) => Some(v * 16 + d),
                None => None,
            },
            None => None,
        }
    }
}

proof fn lemma_hex_of_len(n: int, w: nat)
    ensures
        hex_of(n, w).len() == w,
    decreases w,
{
    if w > 0 {
        lemma_hex_of_len(n / 16, (w - 1) as nat);
    }
}

proof fn lemma_hex_digit_roundtrip(d: int)
    requires
        0 <= d < 16,
    ensures
        hex_char_val(hex_digit_char(d)) == Some(d),
{
}

/// Reading back `w` hex digits of a value below `16^w` recovers the value.
proof fn lemma_hex_roundtrip(n: int, w: nat)
    requires
        0 <= n < pow16(w),
    ensures
        hex_val(hex_of(n, w)) == Some(n),
    decreases w,
{
    if w == 0 {
        assert(hex_of(n, w) =~= Seq::<char>::empty());
    } else {
        let q = n / 16;
        let d = n % 16;
        assert(0 <= d < 16);
        assert(n == q * 16 + d);
        assert(q < pow16((w - 1) as nat));
        lemma_hex_roundtrip(q, (w - 1) as nat);
        let s = hex_of(n, w);
        assert(s.drop_last() =~= hex_of(q, (w - 1) as nat));
        assert(s.last() == hex_digit_char(d));
        lemma_hex_digit_roundtrip(d);
    }
}

/// `pow16` grows with its exponent.
proof fn lemma_pow16_le(a: nat, b: nat)
    requires
        a <= b,
    ensures
        pow16(a) <= pow16(b),
        pow16(a) >= 1,
    decreases b,
{
    if b > 0 {
        if a == b {
            lemma_pow16_le((a - 1) as nat, (b - 1) as nat);
        } else {
            lemma_pow16_le(a, (b - 1) as nat);
        }
    }
}

/// A string with an invalid character at any position has no hex value.
proof fn lemma_hex_val_none(s: Seq<char>, j: int)
    requires
        0 <= j < s.len(),
        hex_char_val(s[j]) is None,
    ensures
        hex_val(s) is None,
    decreases s.len(),
{
    if j < s.len() - 1 {
        lemma_hex_val_none(s.drop_last(), j);
    }
}

/// A valid digit string's value is below `16^len`.
proof fn lemma_hex_val_bound(s: Seq<char>)
    requires
        hex_val(s) is Some,
    ensures
        0 <= hex_val(s)->Some_0 < pow16(s.len()),
    decreases s.len(),
{
    if s.len() > 0 {
        lemma_hex_val_bound(s.drop_last());
        let v = hex_val(s.drop_last())->Some_0;
        let d = hex_char_val(s.last())->Some_0;
        assert(0 <= d < 16);
        assert(v * 16 + d < 16 * pow16((s.len() - 1) as nat));
    }
}

pub open spec fn encode_email(email: Option<Seq<char>>) -> Seq<char> {
    match email {
        None => seq!['N'],
        Some(e) => seq!['E'] + hex_of(e.len() as int, 16) + e,
    }
}

/// The persisted form of a session.
pub open spec fn encode_spec(v: SessionView) -> Seq<char> {
    hex_of(v.id as int, 32) + hex_of(v.name.len() as int, 16) + v.name + encode_email(v.email)
        + hex_of(v.scopes.len() as int, 16) + v.scopes
}

/// Tail of the parse, from the email tag position onward.
pub open spec fn decode_tail_spec(
    p: Seq<char>,
    i: int,
    id: u128,
    name: Seq<char>,
) -> Option<SessionView> {
    if i + 1 > p.len() {
        None
    } else if p[i] == 'N' {
        decode_scopes_spec(p, i + 1, id, name, None)
    } else if p[i] == 'E' {
        if i + 17 > p.len() {
            None
        } else {
            match hex_val(p.subrange(i + 1, i + 17)) {
                Some(elen) => if i + 17 + elen > p.len() {
                    None
                } else {
                    decode_scopes_spec(
                        p,
                        i + 17 + elen,
                        id,
                        name,
                        Some(p.subrange(i + 17, i + 17 + elen)),
                    )
                },
                None => None,
            }
        }
    } else {
        None
    }
}

/// Last step of the parse: the scopes field must consume the rest exactly.
pub open spec fn decode_scopes_spec(
    p: Seq<char>,
    i: int,
    id: u128,
    name: Seq<char>,
    email: Option<Seq<char>>,
) -> Option<SessionView> {
    if i + 16 > p.len() {
        None
    } else {
        match hex_val(p.subrange(i, i + 16)) {
            Some(slen) => if i + 16 + slen == p.len() {
                Some(
                    SessionView {
                        id,
                        name,
                        email,
                        scopes: p.subrange(i + 16, p.len() as int),
                    },
                )
            } else {
                None
            },
            None => None,
        }
    }
}

/// Structural parse of a payload: `Some` exactly on well-formed encodings.
pub open spec fn decode_spec(p: Seq<char>) -> Option<SessionView> {
    if p.len() < 48 {
        None
    } else {
        match (hex_val(p.subrange(0, 32)), hex_val(p.subrange(32, 48))) {
            (Some(id), Some(nlen)) => if 48 + nlen > p.len() {
                None
            } else {
                decode_tail_spec(p, 48 + nlen, id as u128, p.subrange(48, 48 + nlen))
            },
            _ => None,
        }
    }
}

/// Decoding inverts encoding: the law behind the round trip of
/// `decode(encode(s))` for every well-formed session.
pub proof fn lemma_decode_encode(v: SessionView)
    requires
        session_wf(v),
    ensures
        decode_spec(encode_spec(v)) == Some(v),
{
    let p = encode_spec(v);
    let a = hex_of(v.id as int, 32);
    let b = hex_of(v.name.len() as int, 16);
    let e = encode_email(v.email);
    let c = hex_of(v.scopes.len() as int, 16);
    lemma_hex_of_len(v.id as int, 32);
    lemma_hex_of_len(v.name.len() as int, 16);
    lemma_hex_of_len(v.scopes.len() as int, 16);
    lemma_pow16_val();
    assert((v.id as int) < pow16(32));
    lemma_hex_roundtrip(v.id as int, 32);
    lemma_hex_roundtrip(v.name.len() as int, 16);
    lemma_hex_roundtrip(v.scopes.len() as int, 16);
    let nlen = v.name.len() as int;
    assert(p.subrange(0, 32) =~= a);
    assert(p.subrange(32, 48) =~= b);
    assert(p.subrange(48, 48 + nlen) =~= v.name);
    let i = 48 + nlen;
    match v.email {
        None => {
            assert(p[i] == 'N');
            assert(p.subrange(i + 1, i + 17) =~= c);
            assert(p.subrange(i + 17, p.len() as int) =~= v.scopes);
            lemma_decode_scopes(p, i + 1, v);
        },
        Some(em) => {
            lemma_hex_of_len(em.len() as int, 16);
            lemma_hex_roundtrip(em.len() as int, 16);
            assert(p[i] == 'E');
            assert(p.subrange(i + 1, i + 17) =~= hex_of(em.len() as int, 16));
            let elen = em.len() as int;
            assert(p.subrange(i + 17, i + 17 + elen) =~= em);
            assert(p.subrange(i + 17 + elen, (i + 17 + elen) + 16) =~= c);
            assert(p.subrange((i + 17 + elen) + 16, p.len() as int) =~= v.scopes);
            lemma_decode_scopes(p, i + 17 + elen, v);
        },
    }
}

proof fn lemma_pow16_val()
    ensures
        pow16(16) == 0x10000000000000000,
        pow16(32) == 0x100000000000000000000000000000000,
{
    reveal_with_fuel(pow16, 33);
}

proof fn lemma_decode_scopes(p: Seq<char>, i: int, v: SessionView)
    requires
        session_wf(v),
        p =~= encode_spec(v),
        i + 16 + v.scopes.len() == p.len(),
        p.subrange(i, i + 16) =~= hex_of(v.scopes.len() as int, 16),
        p.subrange(i + 16, p.len() as int) =~= v.scopes,
    ensures
        decode_scopes_spec(p, i, v.id, v.name, v.email) == Some(v),
{
    lemma_hex_roundtrip(v.scopes.len() as int, 16);
}

/// Round trip of the session materializer: the session a user-info
/// response materializes into survives encode followed by decode unchanged.
pub proof fn lemma_user_info_round_trip(u: UserInfoResponse)
    requires
        session_wf(user_session_view(u)),
    ensures
        decode_spec(encode_spec(user_session_view(u))) == Some(user_session_view(u)),
{
    lemma_decode_encode(user_session_view(u));
}

fn append_hex_digit(s: &mut String, d: u8)
    requires
        d < 16,
    ensures
        final(s)@ == old(s)@.push(hex_digit_char(d as int)),
{
    proof {
        reveal_strlit("0");
        reveal_strlit("1");
        reveal_strlit("2");
        reveal_strlit("3");
        reveal_strlit("4");
        reveal_strlit("5");
        reveal_strlit("6");
        reveal_strlit("7");
        reveal_strlit("8");
        reveal_strlit("9");
        reveal_strlit("a");
        reveal_strlit("b");
        reveal_strlit("c");
        reveal_strlit("d");
        reveal_strlit("e");
        reveal_strlit("f");
    }
    if d == 0 { s.append("0"); } else if d == 1 { s.append("1"); }
    else if d == 2 { s.append("2"); } else if d == 3 { s.append("3"); }
    else if d == 4 { s.append("4"); } else if d == 5 { s.append("5"); }
    else if d == 6 { s.append("6"); } else if d == 7 { s.append("7"); }
    else if d == 8 { s.append("8"); } else if d == 9 { s.append("9"); }
    else if d == 10 { s.append("a"); } else if d == 11 { s.append("b"); }
    else if d == 12 { s.append("c"); } else if d == 13 { s.append("d"); }
    else if d == 14 { s.append("e"); } else { s.append("f"); }
    proof {
        assert(s@ =~= old(s)@.push(hex_digit_char(d as int)));
    }
}

/// `n` rendered as exactly `w` hex digits.
fn hex_fixed(n: u128, w: usize) -> (r: String)
    ensures
        r@ == hex_of(n as int, w as nat),
    decreases w,
{
    if w == 0 {
        let r = String::new();
        proof {
            assert(r@ =~= hex_of(n as int, 0));
        }
        r
    } else {
        let mut s = hex_fixed(n / 16, w - 1);
        append_hex_digit(&mut s, (n % 16) as u8);
        s
    }
}

fn parse_hex_digit(c: char) -> (r: Option<u8>)
    ensures
        match r {
            Some(d) => hex_char_val(c) == Some(d as int),
            None => hex_char_val(c) is None,
        },
{
    if c == '0' { Some(0u8) } else if c == '1' { Some(1u8) } else if c == '2' { Some(2u8) }
    else if c == '3' { Some(3u8) } else if c == '4' { Some(4u8) } else if c == '5' { Some(5u8) }
    else if c == '6' { Some(6u8) } else if c == '7' { Some(7u8) } else if c == '8' { Some(8u8) }
    else if c == '9' { Some(9u8) } else if c == 'a' { Some(10u8) } else if c == 'b' { Some(11u8) }
    else if c == 'c' { Some(12u8) } else if c == 'd' { Some(13u8) } else if c == 'e' { Some(14u8) }
    else if c == 'f' { Some(15u8) } else { None }
}

/// Reads the `w` characters at `start` as a hex number.
fn parse_hex_range(p: &str, start: usize, w: usize) -> (r: Option<u128>)
    requires
        start + w <= p@.len(),
        start + w <= usize::MAX,
        w <= 32,
    ensures
        match r {
            Some(v) => hex_val(p@.subrange(start as int, start + w)) == Some(v as int),
            None => hex_val(p@.subrange(start as int, start + w)) is None,
        },
{
    let mut acc: u128 = 0;
    let mut i: usize = 0;
    while i < w
        invariant
            i <= w,
            w <= 32,
            start + w <= p@.len(),
            start + w <= usize::MAX,
            hex_val(p@.subrange(start as int, start + i)) == Some(acc as int),
            (acc as int) < pow16(i as nat),
        decreases w - i,
    {
        let c = p.get_char(start + i);
        let ghost pre = p@.subrange(start as int, start + i);
        proof {
            assert(p@.subrange(start as int, start + i + 1) =~= pre.push(c));
            assert(pre.push(c).drop_last() =~= pre);
            lemma_pow16_val();
            lemma_pow16_le((i + 1) as nat, 32);
        }
        match parse_hex_digit(c) {
            Some(d) => {
                acc = acc * 16 + (d as u128);
            },
            None => {
                proof {
                    let s = p@.subrange(start as int, start + w);
                    assert(s[i as int] == c);
                    lemma_hex_val_none(s, i as int);
                }
                return None;
            },
        }
        i = i + 1;
    }
    proof {
        assert(p@.subrange(start as int, start + w) =~= p@.subrange(start as int, start + i));
    }
    Some(acc)
}

/// Serializes a session into its cookie payload.
pub fn encode(s: &WartIDSession) -> (r: String)
    ensures
        r@ == encode_spec(s@),
        session_wf(s@),
{
    proof {
        reveal_strlit("N");
        reveal_strlit("E");
        lemma_pow16_val();
    }
    let mut out = hex_fixed(s.id, 32);
    let nlen = s.name.as_str().unicode_len();
    let b = hex_fixed(nlen as u128, 16);
    out.append(b.as_str());
    out.append(s.name.as_str());
    match &s.email {
        None => {
            out.append("N");
            proof {
                assert(out@ =~= hex_of(s.id as int, 32) + hex_of(s@.name.len() as int, 16)
                    + s@.name + encode_email(s@.email));
            }
        },
        Some(em) => {
            out.append("E");
            let elen = em.as_str().unicode_len();
            let eb = hex_fixed(elen as u128, 16);
            out.append(eb.as_str());
            out.append(em.as_str());
            proof {
                assert(out@ =~= hex_of(s.id as int, 32) + hex_of(s@.name.len() as int, 16)
                    + s@.name + encode_email(s@.email));
            }
        },
    }
    let slen = s.scopes.as_str().unicode_len();
    let cb = hex_fixed(slen as u128, 16);
    out.append(cb.as_str());
    out.append(s.scopes.as_str());
    proof {
        assert(out@ =~= encode_spec(s@));
    }
    out
}

/// Parses a cookie payload back into a session, or reports precisely that
/// the payload is not the encoding of any session.
pub fn decode(p: &str) -> (r: Result<WartIDSession, DecodeError>)
    ensures
        match r {
            Ok(s) => decode_spec(p@) == Some(s@),
            Err(_) => decode_spec(p@) is None,
        },
{
    let len = p.unicode_len();
    if len < 48 {
        return Err(DecodeError);
    }
    let id = match parse_hex_range(p, 0, 32) {
        Some(v) => v,
        None => { return Err(DecodeError) },
    };
    let nlen128 = match parse_hex_range(p, 32, 16) {
        Some(v) => v,
        None => { return Err(DecodeError) },
    };
    proof {
        lemma_hex_val_bound(p@.subrange(0, 32));
        lemma_pow16_val();
    }
    if nlen128 > (len - 48) as u128 {
        return Err(DecodeError);
    }
    let nlen = nlen128 as usize;
    let name = p.substring_char(48, 48 + nlen).to_owned();
    let i = 48 + nlen;
    if i == len {
        return Err(DecodeError);
    }
    let tag = p.get_char(i);
    if tag == 'N' {
        decode_scopes(p, i + 1, len, id, name, None)
    } else if tag == 'E' {
        if len - (i + 1) < 16 {
            return Err(DecodeError);
        }
        let elen128 = match parse_hex_range(p, i + 1, 16) {
            Some(v) => v,
            None => { return Err(DecodeError) },
        };
        if elen128 > (len - (i + 17)) as u128 {
            return Err(DecodeError);
        }
        let elen = elen128 as usize;
        let em = p.substring_char(i + 17, i + 17 + elen).to_owned();
        decode_scopes(p, i + 17 + elen, len, id, name, Some(em))
    } else {
        Err(DecodeError)
    }
}

/// Final step of [`decode`]: the scopes field must consume the payload
/// exactly.
fn decode_scopes(p: &str, i: usize, len: usize, id: u128, name: String, email: Option<String>) -> (r:
    Result<WartIDSession, DecodeError>)
    requires
        len == p@.len(),
        i <= len,
    ensures
        match r {
            Ok(s) => decode_scopes_spec(p@, i as int, id, name@, match email {
                Some(e) => Some(e@),
                None => None,
            }) == Some(s@),
            Err(_) => decode_scopes_spec(p@, i as int, id, name@, match email {
                Some(e) => Some(e@),
                None => None,
            }) is None,
        },
        r matches Ok(s) ==> s.id == id && s.name@ == name@,
{
    if len - i < 16 {
        return Err(DecodeError);
    }
    let slen128 = match parse_hex_range(p, i, 16) {
        Some(v) => v,
        None => { return Err(DecodeError) },
    };
    if slen128 != (len - (i + 16)) as u128 {
        proof {
            lemma_hex_val_bound(p@.subrange(i as int, i + 16));
            lemma_pow16_val();
        }
        return Err(DecodeError);
    }
    let scopes = p.substring_char(i + 16, len).to_owned();
    Ok(WartIDSession { id, name, email, scopes })
}

} // verus!
