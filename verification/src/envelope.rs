//! Signed request envelopes.
//!
//! Every API call is independently authenticated: the client draws a fresh
//! random nonce, embeds it in the JSON request body, and signs the exact
//! serialized body bytes with its RSA private key over SHA-256.  The nonce
//! makes the signed bytes of every request distinct, so a captured request
//! cannot be replayed as a different one; the signature binds the body, so a
//! tampered body fails verification.
//!
//! The JSON bodies are built here, character by character, with string
//! escaping specified exactly; only the random draw, the base64 encoding and
//! the RSA signature itself are delegated to outside crates.

use vstd::prelude::*;
use vstd::string::StrSliceExecFns;
use vstd::string::StringExecFns;
use vstd::utf8::decode_utf8;
use vstd::utf8::encode_utf8;

use crate::errors::SignError;
use crate::models::EmptyBody;
use crate::models::PostFileBody;

verus! {

/// Whether a character belongs to the standard base64 alphabet, including
/// the padding character.  No such character is escaped in a JSON string.
pub open spec fn is_base64_char(c: char) -> bool {
    (65 <= c as u32 && c as u32 <= 90)  // 'A' ..= 'Z'
     || (97 <= c as u32 && c as u32 <= 122)  // 'a' ..= 'z'
     || (48 <= c as u32 && c as u32 <= 57)  // '0' ..= '9'
     || c == '+' || c == '/' || c == '='
}

/// The lowercase hexadecimal digit for a value below sixteen.
pub open spec fn hex_digit(n: u32) -> char
    recommends
        n < 16,
{
    if n < 10 {
        ((48 + n) as u8) as char
    } else {
        ((87 + n) as u8) as char
    }
}

/// How one character is written inside a JSON string: quote and backslash
/// get a backslash escape, the five control characters with short escapes
/// use them, every other control character is written as a four-digit
/// hexadecimal escape, and all remaining characters stand for themselves.
pub open spec fn json_escape_char(c: char) -> Seq<char> {
    if c == '"' {
        seq!['\\', '"']
    } else if c == '\\' {
        seq!['\\', '\\']
    } else if c == '\u{8}' {
        seq!['\\', 'b']
    } else if c == '\t' {
        seq!['\\', 't']
    } else if c == '\n' {
        seq!['\\', 'n']
    } else if c == '\u{c}' {
        seq!['\\', 'f']
    } else if c == '\r' {
        seq!['\\', 'r']
    } else if (c as u32) < 32 {
        seq!['\\', 'u', '0', '0', hex_digit((c as u32) / 16), hex_digit((c as u32) % 16)]
    } else {
        seq![c]
    }
}

/// A whole character sequence written inside a JSON string.
pub open spec fn json_escape(s: Seq<char>) -> Seq<char>
    decreases s.len(),
{
    if s.len() == 0 {
        Seq::empty()
    } else {
        json_escape_char(s[0]) + json_escape(s.drop_first())
    }
}

/// Escaping one more character appends that character's escape.
proof fn lemma_json_escape_snoc(s: Seq<char>, c: char)
    ensures
        json_escape(s.push(c)) == json_escape(s) + json_escape_char(c),
    decreases s.len(),
{
    if s.len() == 0 {
        reveal_with_fuel(json_escape, 2);
        assert(s.push(c)[0] == c);
        assert(s.push(c).drop_first() =~= Seq::<char>::empty());
        assert(json_escape(s.push(c)) =~= json_escape(s) + json_escape_char(c));
    } else {
        lemma_json_escape_snoc(s.drop_first(), c);
        assert(s.push(c)[0] == s[0]);
        assert(s.push(c).drop_first() =~= s.drop_first().push(c));
        assert(json_escape(s.push(c)) =~= json_escape(s) + json_escape_char(c));
    }
}

/// The serialized body of a call that carries no payload: nothing but the
/// wrapper around the nonce.
pub open spec fn empty_body_json(nonce: Seq<char>) -> Seq<char> {
    "{\"nonce\":\""@ + json_escape(nonce) + "\"}"@
}

/// The serialized body of the file-registration call: the path of the file
/// and the nonce.
pub open spec fn post_file_body_json(path: Seq<char>, nonce: Seq<char>) -> Seq<char> {
    "{\"path\":\""@ + json_escape(path) + "\",\"nonce\":\""@ + json_escape(nonce) + "\"}"@
}

/// The one-character string holding the lowercase hexadecimal digit for a
/// value below sixteen.
fn hex_char_str(n: u8) -> (r: &'static str)
    requires
        n < 16,
    ensures
        r@ == seq![hex_digit(n as u32)],
{
    proof {
        reveal_strlit("0");
        reveal_strlit("1");
        reveal_strlit("2");
        reveal_strlit("3");
        reveal_strlit("4");
        reveal_strlit("5");
        reveal_strlit("6");
        reveal_strlit("7");
        reveal_strlit("8");
        reveal_strlit("9");
        reveal_strlit("a");
        reveal_strlit("b");
        reveal_strlit("c");
        reveal_strlit("d");
        reveal_strlit("e");
        reveal_strlit("f");
    }
    if n == 0 {
        "0"
    } else if n == 1 {
        "1"
    } else if n == 2 {
        "2"
    } else if n == 3 {
        "3"
    } else if n == 4 {
        "4"
    } else if n == 5 {
        "5"
    } else if n == 6 {
        "6"
    } else if n == 7 {
        "7"
    } else if n == 8 {
        "8"
    } else if n == 9 {
        "9"
    } else if n == 10 {
        "a"
    } else if n == 11 {
        "b"
    } else if n == 12 {
        "c"
    } else if n == 13 {
        "d"
    } else if n == 14 {
        "e"
    } else {
        "f"
    }
}

/// Write a character sequence as it appears inside a JSON string.
pub fn json_escape_str(s: &str) -> (r: String)
    ensures
        r@ == json_escape(s@),
{
    let n = s.unicode_len();
    let mut r = String::new();
    for i in 0..n
        invariant
            n == s@.len(),
            r@ == json_escape(s@.subrange(0, i as int)),
    {
        let c = s.get_char(i);
        proof {
            lemma_json_escape_snoc(s@.subrange(0, i as int), s@[i as int]);
            assert(s@.subrange(0, i + 1 as int) =~= s@.subrange(0, i as int).push(s@[i as int]));
        }
        if c == '"' {
            r.append("\\\"");
            proof {
                reveal_strlit("\\\"");
                assert("\\\""@ =~= seq!['\\', '"']);
            }
        } else if c == '\\' {
            r.append("\\\\");
            proof {
                reveal_strlit("\\\\");
                assert("\\\\"@ =~= seq!['\\', '\\']);
            }
        } else if c == '\u{8}' {
            r.append("\\b");
            proof {
                reveal_strlit("\\b");
                assert("\\b"@ =~= seq!['\\', 'b']);
            }
        } else if c == '\t' {
            r.append("\\t");
            proof {
                reveal_strlit("\\t");
                assert("\\t"@ =~= seq!['\\', 't']);
            }
        } else if c == '\n' {
            r.append("\\n");
            proof {
                reveal_strlit("\\n");
                assert("\\n"@ =~= seq!['\\', 'n']);
            }
        } else if c == '\u{c}' {
            r.append("\\f");
            proof {
                reveal_strlit("\\f");
                assert("\\f"@ =~= seq!['\\', 'f']);
            }
        } else if c == '\r' {
            r.append("\\r");
            proof {
                reveal_strlit("\\r");
                assert("\\r"@ =~= seq!['\\', 'r']);
            }
        } else if (c as u32) < 32 {
            let code = c as u32;
            r.append("\\u00");
            r.append(hex_char_str((code / 16) as u8));
            r.append(hex_char_str((code % 16) as u8));
            proof {
                reveal_strlit("\\u00");
                assert("\\u00"@ =~= seq!['\\', 'u', '0', '0']);
                assert(r@ =~= json_escape(s@.subrange(0, i as int)) + json_escape_char(c));
            }
        } else {
            let piece = s.substring_char(i, i + 1);
            r.append(piece);
            proof {
                assert(piece@ =~= seq![s@[i as int]]);
            }
        }
        proof {
            assert(r@ =~= json_escape(s@.subrange(0, i + 1 as int)));
        }
    }
    proof {
        assert(s@.subrange(0, n as int) =~= s@);
    }
    r
}

impl EmptyBody {
    /// Serialize this body to its JSON text.
    pub fn to_json(&self) -> (r: String)
        ensures
            r@ == empty_body_json(self.nonce@),
    {
        let mut r = String::new();
        r.append("{\"nonce\":\"");
        let escaped = json_escape_str(self.nonce.as_str());
        r.append(escaped.as_str());
        r.append("\"}");
        proof {
            assert(r@ =~= empty_body_json(self.nonce@));
        }
        r
    }
}

impl PostFileBody {
    /// Serialize this body to its JSON text.
    pub fn to_json(&self) -> (r: String)
        ensures
            r@ == post_file_body_json(self.path@, self.nonce@),
    {
        let mut r = String::new();
        r.append("{\"path\":\"");
        let escaped_path = json_escape_str(self.path.as_str());
        r.append(escaped_path.as_str());
        r.append("\",\"nonce\":\"");
        let escaped_nonce = json_escape_str(self.nonce.as_str());
        r.append(escaped_nonce.as_str());
        r.append("\"}");
        proof {
            assert(r@ =~= post_file_body_json(self.path@, self.nonce@));
        }
        r
    }
}

/// The error type of the OpenSSL bindings, carried opaquely out of the
/// signing call.
#[verifier::external_type_specification]
#[verifier::external_body]
pub struct ExErrorStack(openssl::error::ErrorStack);

/// The standard base64 encoding, with padding, of a byte sequence.
pub uninterp spec fn base64_chars(data: Seq<u8>) -> Seq<char>;

/// The RSA PKCS#1 signature over SHA-256 of a message under the private key
/// given as PEM bytes.  The scheme is deterministic: the signature is a
/// function of the key material and the message alone.
pub uninterp spec fn rsa_sha256_sig(pem: Seq<u8>, msg: Seq<u8>) -> Seq<u8>;

/// Relies on base64's `engine::general_purpose::STANDARD` engine and its
/// `Engine::encode`: the standard alphabet with padding, four output
/// characters per three input bytes rounded up, a pure function of the
/// input bytes.
#[verifier::external_body]
fn b64_encode(data: &Vec<u8>) -> (r: String)
    requires
        data@.len() <= usize::MAX as nat / 4,
    ensures
        r@ == base64_chars(data@),
        r@.len() == 4 * ((data@.len() + 2) / 3),
        forall|i: int| 0 <= i < r@.len() ==> is_base64_char(#[trigger] r@[i]),
{
    base64::Engine::encode(&base64::engine::general_purpose::STANDARD, data.as_slice())
}

/// Relies on rand's `thread_rng` and `RngCore::fill_bytes`: fills the buffer
/// with bytes from a cryptographically secure generator.  Nothing is assumed
/// of the drawn values.
#[verifier::external_body]
fn random_nonce_bytes() -> (r: Vec<u8>)
    ensures
        r@.len() == 128,
{
    let mut buf = vec![0u8; 128];
    rand::RngCore::fill_bytes(&mut rand::thread_rng(), buf.as_mut_slice());
    buf
}

/// Relies on openssl: `Rsa::private_key_from_pem`, `PKey::from_rsa`, and a
/// `Signer` over `MessageDigest::sha256()` with the default RSA PKCS#1
/// padding.  On success the signature is a function of the key material and
/// the message alone; any failure in the chain is returned, never hidden.
#[verifier::external_body]
fn rsa_sha256_sign(pem: &Vec<u8>, msg: &Vec<u8>) -> (r: Result<
    Vec<u8>,
    openssl::error::ErrorStack,
>)
    ensures
        r matches Ok(s) ==> s@ == rsa_sha256_sig(pem@, msg@),
{
    let rsa = openssl::rsa::Rsa::private_key_from_pem(pem.as_slice())?;
    let key = openssl::pkey::PKey::from_rsa(rsa)?;
    let mut signer = openssl::sign::Signer::new(openssl::hash::MessageDigest::sha256(), &key)?;
    signer.update(msg.as_slice())?;
    signer.sign_to_vec()
}

/// Sign a body with the private key and return the signature in base64, as
/// it is sent in the signature header.  Signing failure is reported, never
/// hidden: a corrupted request must not be sent.
pub fn sign_bytes(pem: &Vec<u8>, body: &Vec<u8>) -> (r: Result<String, SignError>)
    ensures
        r matches Ok(s) ==> s@ == base64_chars(rsa_sha256_sig(pem@, body@)),
{
    match rsa_sha256_sign(pem, body) {
        Ok(sig) => {
            if sig.len() <= usize::MAX / 4 {
                Ok(b64_encode(&sig))
            } else {
                Err(SignError)
            }
        },
        Err(_) => Err(SignError),
    }
}

/// Draw a fresh 128-byte random nonce and return it in base64: 172
/// characters, all from the base64 alphabet.
pub fn get_nonce() -> (r: String)
    ensures
        nonce_chars_wf(r@),
{
    let bytes = random_nonce_bytes();
    let r = b64_encode(&bytes);
    proof {
        assert(bytes@.len() == 128 && r@ == base64_chars(bytes@));
    }
    r
}

/// What the view of a well-formed nonce looks like: the base64 text of some
/// fresh 128-byte draw — 172 characters, all from the base64 alphabet.
pub open spec fn nonce_chars_wf(nc: Seq<char>) -> bool {
    &&& nc.len() == 172
    &&& (forall|i: int| 0 <= i < nc.len() ==> is_base64_char(#[trigger] nc[i]))
    &&& (exists|n: Seq<u8>| n.len() == 128 && nc == base64_chars(n))
}

/// A request ready for transport: the exact serialized body bytes to send,
/// and the base64 signature over those same bytes, sent as a header value.
#[derive(Debug, Clone)]
pub struct SignedEnvelope {
    /// The serialized JSON body, carrying the fresh nonce.
    pub body: String,
    /// The base64 RSA-SHA256 signature over the body's UTF-8 bytes.
    pub signature: String,
}

/// Whether an envelope is correctly signed under the given key: its body
/// embeds some 128-byte nonce, and its signature is the base64 RSA-SHA256
/// signature over exactly the body's UTF-8 bytes.
pub open spec fn envelope_well_signed(e: SignedEnvelope, pem: Seq<u8>) -> bool {
    e.signature@ == base64_chars(rsa_sha256_sig(pem, encode_utf8(e.body@)))
}

/// Build the signed envelope of a call that carries no payload: a fresh
/// nonce wrapped in the empty body, signed over the serialized bytes.
pub fn build_empty_envelope(pem: &Vec<u8>) -> (r: Result<SignedEnvelope, SignError>)
    ensures
        r matches Ok(e) ==> (exists|nc: Seq<char>|
            #[trigger] nonce_chars_wf(nc) && e.body@ == empty_body_json(nc)),
        r matches Ok(e) ==> envelope_well_signed(e, pem@),
{
    let nonce = get_nonce();
    let body_value = EmptyBody { nonce };
    let body = body_value.to_json();
    proof {
        assert(nonce_chars_wf(body_value.nonce@) && body@ == empty_body_json(body_value.nonce@));
    }
    let body_bytes = body.as_str().as_bytes_vec();
    match sign_bytes(pem, &body_bytes) {
        Ok(signature) => Ok(SignedEnvelope { body, signature }),
        Err(e) => Err(e),
    }
}

/// Build the signed envelope of the file-registration call: the path and a
/// fresh nonce, signed over the serialized bytes.
pub fn build_file_envelope(pem: &Vec<u8>, path: &String) -> (r: Result<SignedEnvelope, SignError>)
    ensures
        r matches Ok(e) ==> (exists|nc: Seq<char>|
            #[trigger] nonce_chars_wf(nc) && e.body@ == post_file_body_json(path@, nc)),
        r matches Ok(e) ==> envelope_well_signed(e, pem@),
{
    let nonce = get_nonce();
    let body_value = PostFileBody { path: path.clone(), nonce };
    let body = body_value.to_json();
    proof {
        assert(nonce_chars_wf(body_value.nonce@) && body@ == post_file_body_json(
            path@,
            body_value.nonce@,
        ));
    }
    let body_bytes = body.as_str().as_bytes_vec();
    match sign_bytes(pem, &body_bytes) {
        Ok(signature) => Ok(SignedEnvelope { body, signature }),
        Err(e) => Err(e),
    }
}

/// A base64 character stands for itself inside a JSON string.
proof fn lemma_escape_base64_identity(s: Seq<char>)
    requires
        forall|i: int| 0 <= i < s.len() ==> is_base64_char(#[trigger] s[i]),
    ensures
        json_escape(s) == s,
    decreases s.len(),
{
    if s.len() == 0 {
        assert(json_escape(s) =~= s);
    } else {
        assert(is_base64_char(s[0]));
        lemma_escape_base64_identity(s.drop_first());
        assert(json_escape_char(s[0]) =~= seq![s[0]]);
        assert(json_escape(s) =~= s);
    }
}

/// Nonce freshness: two empty-body envelopes whose nonces differ carry
/// different serialized bodies, and therefore hand different byte sequences
/// to the signer.  The nonces of two independently built envelopes are
/// random 128-byte values, so they differ.
pub proof fn lemma_distinct_nonces_distinct_bodies(n1: Seq<char>, n2: Seq<char>)
    requires
        forall|i: int| 0 <= i < n1.len() ==> is_base64_char(#[trigger] n1[i]),
        forall|i: int| 0 <= i < n2.len() ==> is_base64_char(#[trigger] n2[i]),
        n1 != n2,
    ensures
        empty_body_json(n1) != empty_body_json(n2),
        encode_utf8(empty_body_json(n1)) != encode_utf8(empty_body_json(n2)),
{
    lemma_escape_base64_identity(n1);
    lemma_escape_base64_identity(n2);
    let p = "{\"nonce\":\""@;
    let q = "\"}"@;
    if empty_body_json(n1) == empty_body_json(n2) {
        assert((p + n1 + q).len() == (p + n2 + q).len());
        assert(n1.len() == n2.len());
        assert forall|i: int| 0 <= i < n1.len() implies n1[i] == n2[i] by {
            assert((p + n1 + q)[p.len() + i] == n1[i]);
            assert((p + n2 + q)[p.len() + i] == n2[i]);
        }
        assert(n1 =~= n2);
    }
    if encode_utf8(empty_body_json(n1)) == encode_utf8(empty_body_json(n2)) {
        vstd::utf8::encode_utf8_decode_utf8(empty_body_json(n1));
        vstd::utf8::encode_utf8_decode_utf8(empty_body_json(n2));
        assert(decode_utf8(encode_utf8(empty_body_json(n1))) == decode_utf8(
            encode_utf8(empty_body_json(n2)),
        ));
    }
}

} // verus!
