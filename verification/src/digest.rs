//! The two credential digests that the portal checks on login.
//!
//! The hash functions themselves are computed by the `md-5` and `sha-1`
//! crates; what they return is named here, not defined. Everything around
//! them (which bytes are hashed, in which order, and how the result is
//! rendered) is verified.

use vstd::prelude::*;
use vstd::utf8::*;
use crate::hex::{encode, lemma_lower_hex_injective, lower_hex};
use digest::Digest;
use md5::Md5;
use sha1::Sha1;

verus! {

/// The MD5 digest of `message`, as `md5::Md5` computes it.
pub uninterp spec fn md5_sum(message: Seq<u8>) -> Seq<u8>;

/// The SHA-1 digest of `message`, as `sha1::Sha1` computes it.
pub uninterp spec fn sha1_sum(message: Seq<u8>) -> Seq<u8>;

/// `Md5::digest`: creates a hasher, feeds it the whole message and returns
/// its sixteen-byte result. Trusted: the result is the MD5 digest of the
/// message and depends on nothing else.
#[verifier::external_body]
fn md5(message: &[u8]) -> (sum: Vec<u8>)
    ensures
        sum@ == md5_sum(message@),
        sum@.len() == 16,
{
    Md5::digest(message).to_vec()
}

/// `Sha1::default`, `Digest::input` twice and `Digest::result`: a hasher fed
/// `first` and then `second`. Trusted: input is streamed, so the twenty-byte
/// result is the SHA-1 digest of the two parts laid end to end.
#[verifier::external_body]
fn sha1_stream(first: &[u8], second: &[u8]) -> (sum: Vec<u8>)
    ensures
        sum@ == sha1_sum(first@ + second@),
        sum@.len() == 20,
{
    let mut hasher = Sha1::default();
    hasher.input(first);
    hasher.input(second);
    hasher.result().to_vec()
}

/// The digest of the account name alone: MD5 over its UTF-8 bytes, in
/// lowercase hexadecimal.
pub open spec fn username_digest_of(username: Seq<char>) -> Seq<char> {
    lower_hex(md5_sum(encode_utf8(username)))
}

/// The digest of the credentials: SHA-1 over the UTF-8 bytes of the account
/// name followed by those of the password, in lowercase hexadecimal.
pub open spec fn credential_digest_of(username: Seq<char>, password: Seq<char>) -> Seq<char> {
    lower_hex(sha1_sum(encode_utf8(username) + encode_utf8(password)))
}

/// Computes the digest of the account name.
pub fn username_digest(username: &str) -> (text: String)
    ensures
        text@ == username_digest_of(username@),
        text@.len() == 32,
{
    let sum = md5(username.as_bytes());
    encode(sum.as_slice())
}

/// Computes the digest of the credentials. The two parts reach the hasher one
/// after the other; no joined copy of them is made.
pub fn credential_digest(username: &str, password: &str) -> (text: String)
    ensures
        text@ == credential_digest_of(username@, password@),
        text@.len() == 40,
{
    let sum = sha1_stream(username.as_bytes(), password.as_bytes());
    encode(sum.as_slice())
}

/// UTF-8 encodes character by character: the bytes of a joined text are the
/// bytes of its parts, joined.
pub proof fn lemma_encode_utf8_concat(a: Seq<char>, b: Seq<char>)
    ensures
        encode_utf8(a + b) == encode_utf8(a) + encode_utf8(b),
    decreases a.len(),
{
    if a.len() == 0 {
        assert(a + b =~= b);
        assert(encode_utf8(a) + encode_utf8(b) =~= encode_utf8(b));
    } else {
        lemma_encode_utf8_concat(a.drop_first(), b);
        assert((a + b).drop_first() =~= a.drop_first() + b);
        assert((a + b)[0] == a[0]);
        assert(encode_utf8(a + b) =~= encode_utf8(a) + encode_utf8(b));
    }
}

/// Hashing the account name and then the password as a stream gives the
/// digest of the joined text.
pub proof fn lemma_credential_digest_of_joined(username: Seq<char>, password: Seq<char>)
    ensures
        credential_digest_of(username, password) == lower_hex(
            sha1_sum(encode_utf8(username + password)),
        ),
{
    lemma_encode_utf8_concat(username, password);
}

/// The stream that is hashed moves with either part of the credentials:
/// another password behind the same account name, or another account name
/// before the same password, is another stream of bytes.
pub proof fn lemma_stream_moves_with_either_part(
    username: Seq<char>,
    password: Seq<char>,
    other_username: Seq<char>,
    other_password: Seq<char>,
)
    ensures
        password != other_password ==> encode_utf8(username) + encode_utf8(password)
            != encode_utf8(username) + encode_utf8(other_password),
        username != other_username ==> encode_utf8(username) + encode_utf8(password)
            != encode_utf8(other_username) + encode_utf8(password),
{
    let u = encode_utf8(username);
    let v = encode_utf8(other_username);
    let p = encode_utf8(password);
    let q = encode_utf8(other_password);
    encode_utf8_decode_utf8(username);
    encode_utf8_decode_utf8(other_username);
    encode_utf8_decode_utf8(password);
    encode_utf8_decode_utf8(other_password);
    if u + p == u + q {
        assert(p =~= (u + p).subrange(u.len() as int, (u + p).len() as int));
        assert(q =~= (u + q).subrange(u.len() as int, (u + q).len() as int));
    }
    if u + p == v + p {
        assert((u + p).len() == u.len() + p.len());
        assert((v + p).len() == v.len() + p.len());
        assert(u =~= (u + p).subrange(0, u.len() as int));
        assert(v =~= (v + p).subrange(0, v.len() as int));
    }
}

/// Rendering loses nothing: two account names have the same digest exactly
/// where the hash function gives them the same sum.
pub proof fn lemma_username_digest_equal(a: Seq<char>, b: Seq<char>)
    ensures
        username_digest_of(a) == username_digest_of(b) <==> md5_sum(encode_utf8(a)) == md5_sum(
            encode_utf8(b),
        ),
{
    if username_digest_of(a) == username_digest_of(b) {
        lemma_lower_hex_injective(md5_sum(encode_utf8(a)), md5_sum(encode_utf8(b)));
    }
}

/// Rendering loses nothing: two pairs of credentials have the same digest
/// exactly where the hash function gives their streams the same sum. So the
/// digest moves with either part wherever the sum of the stream does; it
/// stays where the joined text stays, as when a character moves from the end
/// of the account name to the front of the password.
pub proof fn lemma_credential_digest_equal(
    username: Seq<char>,
    password: Seq<char>,
    other_username: Seq<char>,
    other_password: Seq<char>,
)
    ensures
        credential_digest_of(username, password) == credential_digest_of(
            other_username,
            other_password,
        ) <==> sha1_sum(encode_utf8(username) + encode_utf8(password)) == sha1_sum(
            encode_utf8(other_username) + encode_utf8(other_password),
        ),
{
    if credential_digest_of(username, password) == credential_digest_of(
        other_username,
        other_password,
    ) {
        lemma_lower_hex_injective(
            sha1_sum(encode_utf8(username) + encode_utf8(password)),
            sha1_sum(encode_utf8(other_username) + encode_utf8(other_password)),
        );
    }
}

} // verus!
