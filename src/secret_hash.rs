//! The secret hash that a confidential identity-provider client sends with
//! each request: HMAC-SHA256 keyed by the client secret over the username
//! followed by the client id, in standard base64.
use vstd::prelude::*;
use vstd::utf8::{decode_utf8, encode_utf8, encode_utf8_decode_utf8};

use crate::errors::UserError;

verus! {

/// The standard base64 alphabet (RFC 4648, table 1): the digit for a value
/// below 64.
pub open spec fn b64_digit(v: int) -> char {
    if v < 26 {
        (65 + v) as char
    } else if v < 52 {
        (97 + (v - 26)) as char
    } else if v < 62 {
        (48 + (v - 52)) as char
    } else if v == 62 {
        '+'
    } else {
        '/'
    }
}

/// The value of a base64 digit; -1 for a character outside the alphabet.
pub open spec fn b64_value(c: char) -> int {
    let n = c as int;
    if 65 <= n && n < 91 {
        n - 65
    } else if 97 <= n && n < 123 {
        n - 97 + 26
    } else if 48 <= n && n < 58 {
        n - 48 + 52
    } else if c == '+' {
        62
    } else if c == '/' {
        63
    } else {
        -1
    }
}

/// Standard base64 with `=` padding: each group of three bytes becomes
/// four digits, and a last group of one or two bytes is padded to four.
pub open spec fn b64_encode(b: Seq<u8>) -> Seq<char>
    decreases b.len(),
{
    if b.len() == 0 {
        Seq::empty()
    } else {
        let x = b[0] as int;
        let y = if b.len() > 1 { b[1] as int } else { 0 };
        let z = if b.len() > 2 { b[2] as int } else { 0 };
        let d0 = b64_digit(x / 4);
        let d1 = b64_digit((x % 4) * 16 + y / 16);
        let d2 = b64_digit((y % 16) * 4 + z / 64);
        let d3 = b64_digit(z % 64);
        if b.len() == 1 {
            seq![d0, d1, '=', '=']
        } else if b.len() == 2 {
            seq![d0, d1, d2, '=']
        } else {
            seq![d0, d1, d2, d3] + b64_encode(b.subrange(3, b.len() as int))
        }
    }
}

/// Standard base64 decoding of a padded text, four digits at a time.
pub open spec fn b64_decode(s: Seq<char>) -> Seq<u8>
    decreases s.len(),
{
    if s.len() < 4 {
        Seq::empty()
    } else {
        let v0 = b64_value(s[0]);
        let v1 = b64_value(s[1]);
        let v2 = b64_value(s[2]);
        let v3 = b64_value(s[3]);
        let b0 = (v0 * 4 + v1 / 16) as u8;
        let b1 = ((v1 % 16) * 16 + v2 / 4) as u8;
        let b2 = ((v2 % 4) * 64 + v3) as u8;
        if s[2] == '=' {
            seq![b0]
        } else if s[3] == '=' {
            seq![b0, b1]
        } else {
            seq![b0, b1, b2] + b64_decode(s.subrange(4, s.len() as int))
        }
    }
}

/// A well-formed standard base64 text: whole groups of four, digits of the
/// alphabet, and `=` only as padding in the last group.
pub open spec fn is_b64(s: Seq<char>) -> bool {
    &&& s.len() % 4 == 0
    &&& forall|i: int|
        0 <= i < s.len() ==> (b64_value(#[trigger] s[i]) >= 0 || (s[i] == '=' && (i == s.len() - 1
            || (i == s.len() - 2 && s[s.len() - 1] == '='))))
}

proof fn lemma_digit_value(v: int)
    requires
        0 <= v < 64,
    ensures
        b64_value(b64_digit(v)) == v,
        b64_digit(v) != '=',
{
}

proof fn lemma_group_arith(x: int, y: int, z: int)
    requires
        0 <= x < 256,
        0 <= y < 256,
        0 <= z < 256,
    ensures
        0 <= (x % 4) * 16 + y / 16 < 64,
        0 <= (y % 16) * 4 + z / 64 < 64,
        (x / 4) * 4 + ((x % 4) * 16 + y / 16) / 16 == x,
        (((x % 4) * 16 + y / 16) % 16) * 16 + ((y % 16) * 4 + z / 64) / 4 == y,
        (((y % 16) * 4 + z / 64) % 4) * 64 + z % 64 == z,
{
    assert(((x % 4) * 16 + y / 16) / 16 == x % 4) by (nonlinear_arith)
        requires 0 <= x < 256, 0 <= y < 256;
    assert(((x % 4) * 16 + y / 16) % 16 == y / 16) by (nonlinear_arith)
        requires 0 <= x < 256, 0 <= y < 256;
    assert(((y % 16) * 4 + z / 64) / 4 == y % 16) by (nonlinear_arith)
        requires 0 <= y < 256, 0 <= z < 256;
    assert(((y % 16) * 4 + z / 64) % 4 == z / 64) by (nonlinear_arith)
        requires 0 <= y < 256, 0 <= z < 256;
}

/// Four digits for every three bytes or part of three.
pub proof fn lemma_b64_encode_len(b: Seq<u8>)
    ensures
        b64_encode(b).len() == 4 * ((b.len() + 2) / 3),
    decreases b.len(),
{
    if b.len() > 2 {
        lemma_b64_encode_len(b.subrange(3, b.len() as int));
    }
}

/// Decoding undoes encoding.
pub proof fn lemma_b64_round_trip(b: Seq<u8>)
    ensures
        b64_decode(b64_encode(b)) == b,
    decreases b.len(),
{
    if b.len() > 0 {
        let e = b64_encode(b);
        let x = b[0] as int;
        let y = if b.len() > 1 { b[1] as int } else { 0 };
        let z = if b.len() > 2 { b[2] as int } else { 0 };
        lemma_group_arith(x, y, z);
        lemma_digit_value(x / 4);
        lemma_digit_value((x % 4) * 16 + y / 16);
        lemma_digit_value((y % 16) * 4 + z / 64);
        lemma_digit_value(z % 64);
        lemma_b64_encode_len(b);
        if b.len() > 2 {
            let rest = b.subrange(3, b.len() as int);
            lemma_b64_round_trip(rest);
            assert(e.subrange(4, e.len() as int) =~= b64_encode(rest));
            assert(b64_decode(e) =~= b);
        } else {
            assert(b64_decode(e) =~= b);
        }
    }
}

/// Every encoding is well-formed base64.
pub proof fn lemma_b64_well_formed(b: Seq<u8>)
    ensures
        is_b64(b64_encode(b)),
    decreases b.len(),
{
    lemma_b64_encode_len(b);
    if b.len() > 0 {
        let e = b64_encode(b);
        let x = b[0] as int;
        let y = if b.len() > 1 { b[1] as int } else { 0 };
        let z = if b.len() > 2 { b[2] as int } else { 0 };
        lemma_group_arith(x, y, z);
        lemma_digit_value(x / 4);
        lemma_digit_value((x % 4) * 16 + y / 16);
        lemma_digit_value((y % 16) * 4 + z / 64);
        lemma_digit_value(z % 64);
        if b.len() > 2 {
            let rest = b.subrange(3, b.len() as int);
            lemma_b64_well_formed(rest);
            let re = b64_encode(rest);
            assert forall|i: int| 0 <= i < e.len() implies (b64_value(#[trigger] e[i]) >= 0 || (
            e[i] == '=' && (i == e.len() - 1 || (i == e.len() - 2 && e[e.len() - 1] == '=')))) by {
                if i >= 4 {
                    assert(e[i] == re[i - 4]);
                    assert(e[e.len() - 1] == re[re.len() - 1]);
                }
            }
        }
    }
}

/// HMAC-SHA256 of a message under a key, as the hmac crate computes it.
pub uninterp spec fn hmac_sha256_of(key: Seq<u8>, message: Seq<u8>) -> Seq<u8>;

/// The bytes that are authenticated: the username, then the client id.
pub open spec fn secret_hash_message(username: Seq<char>, client_id: Seq<char>) -> Seq<u8> {
    encode_utf8(username) + encode_utf8(client_id)
}

/// The secret hash that the provider expects for these values.
pub open spec fn secret_hash_of(
    username: Seq<char>,
    client_id: Seq<char>,
    client_secret: Seq<char>,
) -> Seq<char> {
    b64_encode(hmac_sha256_of(encode_utf8(client_secret), secret_hash_message(username, client_id)))
}

/// The secret hash is a function of its three inputs: deriving it twice
/// from the same username, client id and client secret gives the same text.
pub proof fn lemma_secret_hash_deterministic(
    username: Seq<char>,
    client_id: Seq<char>,
    client_secret: Seq<char>,
    username2: Seq<char>,
    client_id2: Seq<char>,
    client_secret2: Seq<char>,
)
    requires
        username == username2,
        client_id == client_id2,
        client_secret == client_secret2,
    ensures
        secret_hash_of(username, client_id, client_secret) == secret_hash_of(
            username2,
            client_id2,
            client_secret2,
        ),
{
}

/// The secret hash of a 32-byte HMAC-SHA256 tag is 44 characters of
/// well-formed base64 that decode to exactly that tag.
pub proof fn lemma_secret_hash_is_base64(tag: Seq<u8>)
    requires
        tag.len() == 32,
    ensures
        is_b64(b64_encode(tag)),
        b64_encode(tag).len() == 44,
        b64_decode(b64_encode(tag)) == tag,
        b64_decode(b64_encode(tag)).len() == 32,
{
    lemma_b64_well_formed(tag);
    lemma_b64_encode_len(tag);
    lemma_b64_round_trip(tag);
}

/// Changing exactly one of username, client id and client secret changes
/// what HMAC-SHA256 is computed on: the key, or the message. (Changing the
/// username and the client id together need not: `ab`, `c` and `a`, `bc`
/// give the same message.)
pub proof fn lemma_one_change_changes_hmac_input(
    username: Seq<char>,
    client_id: Seq<char>,
    client_secret: Seq<char>,
    username2: Seq<char>,
    client_id2: Seq<char>,
    client_secret2: Seq<char>,
)
    requires
        (username != username2 && client_id == client_id2 && client_secret == client_secret2) || (
        username == username2 && client_id != client_id2 && client_secret == client_secret2) || (
        username == username2 && client_id == client_id2 && client_secret != client_secret2),
    ensures
        encode_utf8(client_secret) != encode_utf8(client_secret2) || secret_hash_message(
            username,
            client_id,
        ) != secret_hash_message(username2, client_id2),
{
    encode_utf8_decode_utf8(username);
    encode_utf8_decode_utf8(username2);
    encode_utf8_decode_utf8(client_id);
    encode_utf8_decode_utf8(client_id2);
    encode_utf8_decode_utf8(client_secret);
    encode_utf8_decode_utf8(client_secret2);
    let m = secret_hash_message(username, client_id);
    let m2 = secret_hash_message(username2, client_id2);
    let eu = encode_utf8(username);
    let eu2 = encode_utf8(username2);
    let ec = encode_utf8(client_id);
    let ec2 = encode_utf8(client_id2);
    if m == m2 {
        if username != username2 {
            assert(ec == ec2);
            assert(m.len() == eu.len() + ec.len());
            assert(m2.len() == eu2.len() + ec2.len());
            assert(eu.len() == eu2.len());
            assert(eu =~= m.subrange(0, eu.len() as int));
            assert(eu2 =~= m2.subrange(0, eu2.len() as int));
            assert(decode_utf8(eu) == decode_utf8(eu2));
        } else if client_id != client_id2 {
            assert(ec =~= m.subrange(eu.len() as int, m.len() as int));
            assert(ec2 =~= m2.subrange(eu2.len() as int, m2.len() as int));
            assert(decode_utf8(ec) == decode_utf8(ec2));
        }
    }
}

/// Inputs whose HMAC tags differ get different secret hashes: the encoding
/// loses nothing. That different inputs give different tags is the
/// collision resistance of HMAC-SHA256, which is not proved here.
pub proof fn lemma_secret_hash_differs_when_tags_differ(
    username: Seq<char>,
    client_id: Seq<char>,
    client_secret: Seq<char>,
    username2: Seq<char>,
    client_id2: Seq<char>,
    client_secret2: Seq<char>,
)
    requires
        hmac_sha256_of(encode_utf8(client_secret), secret_hash_message(username, client_id))
            != hmac_sha256_of(encode_utf8(client_secret2), secret_hash_message(username2, client_id2)),
    ensures
        secret_hash_of(username, client_id, client_secret) != secret_hash_of(
            username2,
            client_id2,
            client_secret2,
        ),
{
    lemma_b64_round_trip(
        hmac_sha256_of(encode_utf8(client_secret), secret_hash_message(username, client_id)),
    );
    lemma_b64_round_trip(
        hmac_sha256_of(encode_utf8(client_secret2), secret_hash_message(username2, client_id2)),
    );
}

/// Relies on `Hmac::<Sha256>::new_from_slice`, `Mac::update` and
/// `Mac::finalize` of hmac 0.12: the 32-byte tag of `message` under `key`.
/// Keys of every length are accepted (the key is hashed or padded to the
/// block size), so no key is refused.
#[verifier::external_body]
fn hmac_sha256(key: &[u8], message: &[u8]) -> (r: Option<Vec<u8>>)
    ensures
        r.is_some(),
        r.unwrap()@ == hmac_sha256_of(key@, message@),
        r.unwrap()@.len() == 32,
{
    let mut mac = match <hmac::Hmac<sha2::Sha256> as hmac::Mac>::new_from_slice(key) {
        Ok(m) => m,
        Err(_) => return None,
    };
    hmac::Mac::update(&mut mac, message);
    Some(hmac::Mac::finalize(mac).into_bytes().to_vec())
}

/// Relies on `Engine::encode` of base64 0.22 with the `STANDARD` engine
/// (standard alphabet, with padding).
#[verifier::external_body]
fn base64_standard(bytes: &[u8]) -> (r: String)
    requires
        bytes@.len() <= usize::MAX / 2,
    ensures
        r@ == b64_encode(bytes@),
{
    base64::Engine::encode(&base64::engine::general_purpose::STANDARD, bytes)
}

/// Derives the secret hash for `username` from the client's id and secret.
/// An empty secret is a configuration error.
pub fn calculate_secret_hash(username: &str, client_id: &str, client_secret: &str) -> (r: Result<
    String,
    UserError,
>)
    ensures
        r is Err <==> client_secret@.len() == 0,
        r matches Err(e) ==> e is Configuration,
        r matches Ok(h) ==> h@ == secret_hash_of(username@, client_id@, client_secret@),
        r matches Ok(h) ==> h@.len() == 44 && is_b64(h@) && b64_decode(h@).len() == 32,
{
    if client_secret.is_empty() {
        return Err(UserError::Configuration);
    }
    let mut message: Vec<u8> = Vec::new();
    append_bytes(&mut message, username.as_bytes());
    append_bytes(&mut message, client_id.as_bytes());
    match hmac_sha256(client_secret.as_bytes(), message.as_slice()) {
        Some(tag) => {
            let h = encode_secret_hash(tag.as_slice());
            proof {
                lemma_secret_hash_is_base64(tag@);
            }
            Ok(h)
        },
        None => Err(UserError::Configuration),
    }
}

/// The secret hash for a given HMAC tag: its standard base64 text.
pub fn encode_secret_hash(tag: &[u8]) -> (r: String)
    requires
        tag@.len() <= usize::MAX / 2,
    ensures
        r@ == b64_encode(tag@),
{
    base64_standard(tag)
}

fn append_bytes(out: &mut Vec<u8>, bytes: &[u8])
    ensures
        final(out)@ == old(out)@ + bytes@,
{
    let mut i: usize = 0;
    while i < bytes.len()
        invariant
            i <= bytes@.len(),
            out@ == old(out)@ + bytes@.subrange(0, i as int),
        decreases bytes@.len() - i,
    {
        out.push(bytes[i]);
        i = i + 1;
        assert(bytes@.subrange(0, i as int) =~= bytes@.subrange(0, i - 1) + seq![bytes@[i - 1]]);
    }
    assert(bytes@.subrange(0, i as int) =~= bytes@);
}

} // verus!
