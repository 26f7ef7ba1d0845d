//! Credential hashing: the hex-encoded MD5 digest the vendor's login
//! endpoint expects in place of the plaintext password.
//!
//! MD5 is dictated by the remote API's payload shape; it is a
//! compatibility requirement, not a security mechanism.
use vstd::prelude::*;

verus! {

/// Lower-case hex digit for a nibble value; values outside 0..16 map to '0'.
pub open spec fn hex_digit(n: int) -> char {
    if n == 0 {
        '0'
    } else if n == 1 {
        '1'
    } else if n == 2 {
        '2'
    } else if n == 3 {
        '3'
    } else if n == 4 {
        '4'
    } else if n == 5 {
        '5'
    } else if n == 6 {
        '6'
    } else if n == 7 {
        '7'
    } else if n == 8 {
        '8'
    } else if n == 9 {
        '9'
    } else if n == 10 {
        'a'
    } else if n == 11 {
        'b'
    } else if n == 12 {
        'c'
    } else if n == 13 {
        'd'
    } else if n == 14 {
        'e'
    } else if n == 15 {
        'f'
    } else {
        '0'
    }
}

/// Lower-case hex encoding of a byte sequence: two digits per byte,
/// high nibble first.
pub open spec fn hex_of(bytes: Seq<u8>) -> Seq<char> {
    Seq::new(
        bytes.len() * 2,
        |i: int|
            if i % 2 == 0 {
                hex_digit(bytes[i / 2] as int / 16)
            } else {
                hex_digit(bytes[i / 2] as int % 16)
            },
    )
}

/// The 16-byte MD5 digest of a string's bytes, named but not written out:
/// the trusted wrapper below is the only thing that speaks for its value.
pub uninterp spec fn md5_of(s: Seq<char>) -> Seq<u8>;

/// Relies on `md5::compute`: the 16-byte MD5 digest of the input bytes,
/// a pure function of the input alone.
#[verifier::external_body]
fn md5_digest(s: &str) -> (r: Vec<u8>)
    ensures
        r@ == md5_of(s@),
        r@.len() == 16,
{
    md5::compute(s.as_bytes()).0.to_vec()
}

/// One-character string for a nibble value, matching `hex_digit`.
fn hex_digit_str(n: u8) -> (r: &'static str)
    requires
        n < 16,
    ensures
        r@ =~= seq![hex_digit(n as int)],
{
    proof {
        reveal_strlit("0");
        reveal_strlit("1");
        reveal_strlit("2");
        reveal_strlit("3");
        reveal_strlit("4");
        reveal_strlit("5");
        reveal_strlit("6");
        reveal_strlit("7");
        reveal_strlit("8");
        reveal_strlit("9");
        reveal_strlit("a");
        reveal_strlit("b");
        reveal_strlit("c");
        reveal_strlit("d");
        reveal_strlit("e");
        reveal_strlit("f");
    }
    if n == 0 {
        "0"
    } else if n == 1 {
        "1"
    } else if n == 2 {
        "2"
    } else if n == 3 {
        "3"
    } else if n == 4 {
        "4"
    } else if n == 5 {
        "5"
    } else if n == 6 {
        "6"
    } else if n == 7 {
        "7"
    } else if n == 8 {
        "8"
    } else if n == 9 {
        "9"
    } else if n == 10 {
        "a"
    } else if n == 11 {
        "b"
    } else if n == 12 {
        "c"
    } else if n == 13 {
        "d"
    } else if n == 14 {
        "e"
    } else {
        "f"
    }
}

/// Lower-case hex encoding of a byte vector.
fn bytes_to_hex(bytes: &Vec<u8>) -> (r: String)
    ensures
        r@ == hex_of(bytes@),
{
    let mut r = String::new();
    let mut i: usize = 0;
    while i < bytes.len()
        invariant
            i <= bytes@.len(),
            r@ == hex_of(bytes@.subrange(0, i as int)),
        decreases bytes@.len() - i,
    {
        let b = bytes[i];
        let hi = hex_digit_str(b / 16);
        let lo = hex_digit_str(b % 16);
        r.append(hi);
        r.append(lo);
        proof {
            assert(r@ =~= hex_of(bytes@.subrange(0, i as int + 1)));
        }
        i = i + 1;
    }
    proof {
        assert(bytes@.subrange(0, bytes@.len() as int) =~= bytes@);
    }
    r
}

/// Hex-encoded MD5 digest of `s`: what the login request carries in its
/// password field.
pub fn hexdigest(s: &str) -> (r: String)
    ensures
        r@ == hex_of(md5_of(s@)),
        r@.len() == 32,
{
    let digest = md5_digest(s);
    bytes_to_hex(&digest)
}

/// Law: password hashing is deterministic. Any two digests of the same
/// plaintext are equal, since each is the one value `hex_of(md5_of(..))`
/// that `hexdigest` is specified to return.
pub proof fn lemma_hexdigest_deterministic(plaintext: Seq<char>, a: Seq<char>, b: Seq<char>)
    requires
        a == hex_of(md5_of(plaintext)),
        b == hex_of(md5_of(plaintext)),
    ensures
        a == b,
{
}

} // verus!
