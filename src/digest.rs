use vstd::prelude::*;
use crate::error::ElewrapError;
use sha2::Digest;

verus! {

/// The SHA-512 digest of a byte sequence.
pub uninterp spec fn sha512_of(data: Seq<u8>) -> Seq<u8>;

/// Relies on `sha2::Sha512::digest`: the SHA-512 digest of `data`, which is
/// 64 bytes long.
#[verifier::external_body]
fn sha512(data: &[u8]) -> (r: Vec<u8>)
    ensures
        r@ == sha512_of(data@),
        r@.len() == 64,
{
    sha2::Sha512::digest(data).to_vec()
}

/// The value of a hex digit, in either case.
pub open spec fn hex_value(c: char) -> Option<u8> {
    if '0' <= c && c <= '9' {
        Some((c as u32 - '0' as u32) as u8)
    } else if 'a' <= c && c <= 'f' {
        Some((c as u32 - 'a' as u32 + 10) as u8)
    } else if 'A' <= c && c <= 'F' {
        Some((c as u32 - 'A' as u32 + 10) as u8)
    } else {
        None
    }
}

/// `hex` spells the bytes of `digest` as two hex digits each, high digit
/// first, in upper or lower case.
pub open spec fn hex_matches(digest: Seq<u8>, hex: Seq<char>) -> bool {
    &&& hex.len() == 2 * digest.len()
    &&& forall|i: int|
        0 <= i < digest.len() ==> {
            &&& #[trigger] hex_value(hex[2 * i]) == Some(digest[i] / 16)
            &&& hex_value(hex[2 * i + 1]) == Some(digest[i] % 16)
        }
}

/// The value of one hex digit, or `None` for any other character.
pub fn hex_digit_value(c: char) -> (r: Option<u8>)
    ensures
        r == hex_value(c),
{
    if '0' <= c && c <= '9' {
        Some((c as u32 - '0' as u32) as u8)
    } else if 'a' <= c && c <= 'f' {
        Some((c as u32 - 'a' as u32 + 10) as u8)
    } else if 'A' <= c && c <= 'F' {
        Some((c as u32 - 'A' as u32 + 10) as u8)
    } else {
        None
    }
}

/// Compares a computed digest with its expected spelling in hex, ignoring
/// the case of the letters.
pub fn digest_matches(digest: &Vec<u8>, expected: &str) -> (r: bool)
    ensures
        r == hex_matches(digest@, expected@),
{
    let n: usize = expected.unicode_len();
    if n / 2 != digest.len() || n % 2 != 0 {
        return false;
    }
    let mut i: usize = 0;
    while i < digest.len()
        invariant
            n == expected@.len(),
            n == 2 * digest@.len(),
            i <= digest@.len(),
            forall|k: int|
                0 <= k < i ==> {
                    &&& #[trigger] hex_value(expected@[2 * k]) == Some(digest@[k] / 16)
                    &&& hex_value(expected@[2 * k + 1]) == Some(digest@[k] % 16)
                },
        decreases digest@.len() - i,
    {
        let b: u8 = digest[i];
        let high = hex_digit_value(expected.get_char(2 * i));
        let low = hex_digit_value(expected.get_char(2 * i + 1));
        if high != Some(b / 16) || low != Some(b % 16) {
            assert(!(hex_value(expected@[2 * i as int]) == Some(digest@[i as int] / 16)
                && hex_value(expected@[2 * i as int + 1]) == Some(digest@[i as int] % 16)));
            return false;
        }
        i = i + 1;
    }
    true
}

/// Checks the contents of the target executable against the expected digest.
pub fn verify_digest(contents: &Vec<u8>, expected: &str) -> (r: Result<(), ElewrapError>)
    ensures
        r is Ok <==> hex_matches(sha512_of(contents@), expected@),
        r is Err ==> r == Err::<(), ElewrapError>(ElewrapError::Integrity),
{
    let actual = sha512(contents.as_slice());
    if digest_matches(&actual, expected) {
        Ok(())
    } else {
        Err(ElewrapError::Integrity)
    }
}

} // verus!
