//! Byte-level encodings the flow needs: the unreserved character set,
//! percent-encoding for URL query parameters, and base64url without padding
//! for the PKCE challenge.

use vstd::prelude::*;

verus! {

/// The unreserved URL characters `[A-Z a-z 0-9 - . _ ~]`, as bytes.
pub open spec fn is_unreserved(b: u8) -> bool {
    (0x41 <= b && b <= 0x5A)  // A-Z
    || (0x61 <= b && b <= 0x7A)  // a-z
    || (0x30 <= b && b <= 0x39)  // 0-9
    || b == 0x2D  // -
    || b == 0x2E  // .
    || b == 0x5F  // _
    || b == 0x7E  // ~
}

/// Uppercase hexadecimal digit for a value below 16.
pub open spec fn hex_digit(n: int) -> u8
    recommends
        0 <= n < 16,
{
    if n < 10 {
        (0x30 + n) as u8
    } else {
        (0x41 + (n - 10)) as u8
    }
}

/// Percent-encoding of one byte: unreserved bytes stand as themselves,
/// every other byte becomes `%` followed by two uppercase hex digits.
pub open spec fn pe_byte(b: u8) -> Seq<u8> {
    if is_unreserved(b) {
        seq![b]
    } else {
        seq![0x25u8, hex_digit(b as int / 16), hex_digit(b as int % 16)]
    }
}

/// Percent-encoding of a byte string, byte by byte.
pub open spec fn percent_encoding(s: Seq<u8>) -> Seq<u8>
    decreases s.len(),
{
    if s.len() == 0 {
        Seq::empty()
    } else {
        pe_byte(s[0]) + percent_encoding(s.skip(1))
    }
}

/// Runtime test for membership in the unreserved set.
pub fn is_unreserved_byte(b: u8) -> (r: bool)
    ensures
        r == is_unreserved(b),
{
    (0x41 <= b && b <= 0x5A) || (0x61 <= b && b <= 0x7A) || (0x30 <= b && b <= 0x39) || b == 0x2D
        || b == 0x2E || b == 0x5F || b == 0x7E
}

fn hex_digit_byte(n: u8) -> (r: u8)
    requires
        n < 16,
    ensures
        r == hex_digit(n as int),
{
    if n < 10 {
        0x30 + n
    } else {
        0x41 + (n - 10)
    }
}

/// Percent-encode a byte string for use in a URL query or form body.
pub fn percent_encode(s: &[u8]) -> (r: Vec<u8>)
    ensures
        r@ == percent_encoding(s@),
{
    let mut out: Vec<u8> = Vec::new();
    let mut i: usize = 0;
    proof {
        assert(s@.skip(0) =~= s@);
        assert(out@ + percent_encoding(s@) =~= percent_encoding(s@));
    }
    while i < s.len()
        invariant
            i <= s@.len(),
            out@ + percent_encoding(s@.skip(i as int)) == percent_encoding(s@),
        decreases s@.len() - i,
    {
        let b = s[i];
        let ghost out0 = out@;
        if is_unreserved_byte(b) {
            out.push(b);
        } else {
            out.push(0x25);
            out.push(hex_digit_byte(b / 16));
            out.push(hex_digit_byte(b % 16));
        }
        proof {
            assert(out@ =~= out0 + pe_byte(s@[i as int]));
            assert(s@.skip(i as int).skip(1) =~= s@.skip(i as int + 1));
            assert(out@ + percent_encoding(s@.skip(i as int + 1)) =~= out0 + percent_encoding(
                s@.skip(i as int),
            ));
        }
        i = i + 1;
    }
    proof {
        assert(s@.skip(s@.len() as int) =~= Seq::<u8>::empty());
        assert(out@ + percent_encoding(s@.skip(s@.len() as int)) =~= out@);
    }
    out
}

/// The base64url alphabet: `A-Z`, `a-z`, `0-9`, `-`, `_`.
pub open spec fn b64_char(n: int) -> u8
    recommends
        0 <= n < 64,
{
    if n < 26 {
        (0x41 + n) as u8
    } else if n < 52 {
        (0x61 + (n - 26)) as u8
    } else if n < 62 {
        (0x30 + (n - 52)) as u8
    } else if n == 62 {
        0x2D
    } else {
        0x5F
    }
}

/// Base64url encoding without padding: groups of three bytes become four
/// alphabet characters; a tail of one or two bytes becomes two or three.
pub open spec fn base64url(s: Seq<u8>) -> Seq<u8>
    decreases s.len(),
{
    if s.len() == 0 {
        Seq::empty()
    } else if s.len() == 1 {
        let b0 = s[0] as int;
        seq![b64_char(b0 / 4), b64_char((b0 % 4) * 16)]
    } else if s.len() == 2 {
        let b0 = s[0] as int;
        let b1 = s[1] as int;
        seq![b64_char(b0 / 4), b64_char((b0 % 4) * 16 + b1 / 16), b64_char((b1 % 16) * 4)]
    } else {
        let b0 = s[0] as int;
        let b1 = s[1] as int;
        let b2 = s[2] as int;
        seq![
            b64_char(b0 / 4),
            b64_char((b0 % 4) * 16 + b1 / 16),
            b64_char((b1 % 16) * 4 + b2 / 64),
            b64_char(b2 % 64),
        ] + base64url(s.skip(3))
    }
}

fn b64_char_byte(n: u8) -> (r: u8)
    requires
        n < 64,
    ensures
        r == b64_char(n as int),
{
    if n < 26 {
        0x41 + n
    } else if n < 52 {
        0x61 + (n - 26)
    } else if n < 62 {
        0x30 + (n - 52)
    } else if n == 62 {
        0x2D
    } else {
        0x5F
    }
}

/// Base64url-encode a byte string, with no padding characters.
pub fn base64url_encode(s: &[u8]) -> (r: Vec<u8>)
    ensures
        r@ == base64url(s@),
{
    let mut out: Vec<u8> = Vec::new();
    let mut i: usize = 0;
    proof {
        assert(s@.skip(0) =~= s@);
        assert(out@ + base64url(s@) =~= base64url(s@));
    }
    while s.len() - i >= 3
        invariant
            i <= s@.len(),
            out@ + base64url(s@.skip(i as int)) == base64url(s@),
        decreases s@.len() - i,
    {
        let b0 = s[i];
        let b1 = s[i + 1];
        let b2 = s[i + 2];
        let ghost out0 = out@;
        out.push(b64_char_byte(b0 / 4));
        out.push(b64_char_byte((b0 % 4) * 16 + b1 / 16));
        out.push(b64_char_byte((b1 % 16) * 4 + b2 / 64));
        out.push(b64_char_byte(b2 % 64));
        proof {
            assert(s@.skip(i as int).skip(3) =~= s@.skip(i as int + 3));
            assert(s@.skip(i as int)[0] == s@[i as int]);
            assert(s@.skip(i as int)[1] == s@[i as int + 1]);
            assert(s@.skip(i as int)[2] == s@[i as int + 2]);
            assert(out@ + base64url(s@.skip(i as int + 3)) =~= out0 + base64url(
                s@.skip(i as int),
            ));
        }
        i = i + 3;
    }
    let ghost outw = out@;
    if s.len() - i == 1 {
        let b0 = s[i];
        out.push(b64_char_byte(b0 / 4));
        out.push(b64_char_byte((b0 % 4) * 16));
        proof {
            assert(s@.skip(i as int)[0] == s@[i as int]);
            assert(out@ =~= outw + base64url(s@.skip(i as int)));
        }
    } else if s.len() - i == 2 {
        let b0 = s[i];
        let b1 = s[i + 1];
        out.push(b64_char_byte(b0 / 4));
        out.push(b64_char_byte((b0 % 4) * 16 + b1 / 16));
        out.push(b64_char_byte((b1 % 16) * 4));
        proof {
            assert(s@.skip(i as int)[0] == s@[i as int]);
            assert(s@.skip(i as int)[1] == s@[i as int + 1]);
            assert(out@ =~= outw + base64url(s@.skip(i as int)));
        }
    } else {
        proof {
            assert(s@.skip(i as int) =~= Seq::<u8>::empty());
            assert(out@ =~= outw + base64url(s@.skip(i as int)));
        }
    }
    out
}

/// Byte-for-byte equality of two byte strings.
pub fn bytes_equal(a: &[u8], b: &[u8]) -> (r: bool)
    ensures
        r == (a@ == b@),
{
    if a.len() != b.len() {
        proof {
            assert(a@.len() != b@.len());
        }
        return false;
    }
    let mut i: usize = 0;
    while i < a.len()
        invariant
            i <= a@.len(),
            a@.len() == b@.len(),
            forall|j: int| 0 <= j < i ==> a@[j] == b@[j],
        decreases a@.len() - i,
    {
        if a[i] != b[i] {
            proof {
                assert(a@[i as int] != b@[i as int]);
            }
            return false;
        }
        i = i + 1;
    }
    proof {
        assert(a@ =~= b@);
    }
    true
}

} // verus!
