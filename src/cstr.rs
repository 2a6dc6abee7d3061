//! NUL-terminated host text and its conversion to UTF-8 string slices.
use vstd::prelude::*;
use vstd::string::*;
use vstd::utf8::*;

use crate::error::AdapterError;

verus! {

/// `n` is the position of the first NUL byte of `b`.
pub open spec fn nul_at(b: Seq<u8>, n: int) -> bool {
    &&& 0 <= n < b.len()
    &&& b[n] == 0
    &&& forall|i: int| 0 <= i < n ==> b[i] != 0
}

/// `b` holds no NUL byte.
pub open spec fn nul_free(b: Seq<u8>) -> bool {
    forall|i: int| 0 <= i < b.len() ==> b[i] != 0
}

/// Position of the first NUL byte of `b` (meaningful when `b` is not NUL-free).
pub open spec fn first_nul(b: Seq<u8>) -> int {
    choose|n: int| nul_at(b, n)
}

/// The bytes of the C string stored at the start of `b`.
pub open spec fn c_bytes(b: Seq<u8>) -> Seq<u8> {
    b.take(first_nul(b))
}

/// What reading `b` as a NUL-terminated UTF-8 string yields: the encoded text, or the failure.
pub open spec fn c_text(b: Seq<u8>) -> Result<Seq<u8>, AdapterError> {
    if nul_free(b) {
        Err(AdapterError::Unterminated)
    } else if valid_utf8(c_bytes(b)) {
        Ok(c_bytes(b))
    } else {
        Err(AdapterError::InvalidText)
    }
}

/// The first NUL of a sequence is unique, so `first_nul` names it.
pub proof fn lemma_first_nul(b: Seq<u8>, n: int)
    requires
        nul_at(b, n),
    ensures
        first_nul(b) == n,
        !nul_free(b),
{
    let m = first_nul(b);
    assert(nul_at(b, m));
    if m < n {
        assert(b[m] != 0);
    } else if n < m {
        assert(b[n] != 0);
    }
}

/// Relies on std::str::from_utf8: it succeeds exactly on valid UTF-8 and then
/// returns the same bytes viewed as text.
#[verifier::external_body]
fn utf8_str<'a>(b: &'a [u8]) -> (r: Option<&'a str>)
    ensures
        r is Some <==> valid_utf8(b@),
        r matches Some(s) ==> s.spec_bytes() == b@,
{
    std::str::from_utf8(b).ok()
}

/// Reads the NUL-terminated string at the start of `in_str`, borrowing its bytes.
pub fn conv_cstring<'a>(in_str: &'a [u8]) -> (r: Result<&'a str, AdapterError>)
    ensures
        match r {
            Ok(s) => c_text(in_str@) == Ok::<Seq<u8>, AdapterError>(s.spec_bytes()),
            Err(e) => c_text(in_str@) == Err::<Seq<u8>, AdapterError>(e),
        },
        r matches Ok(s) ==> nul_at(in_str@, s.spec_bytes().len() as int),
{
    let mut count: usize = 0;
    while count < in_str.len()
        invariant
            count <= in_str@.len(),
            forall|i: int| 0 <= i < count ==> in_str@[i] != 0,
        decreases in_str@.len() - count,
    {
        if in_str[count] == 0 {
            proof {
                lemma_first_nul(in_str@, count as int);
            }
            let bytes = &in_str[0..count];
            assert(bytes@ == c_bytes(in_str@));
            return match utf8_str(bytes) {
                Some(s) => Ok(s),
                None => Err(AdapterError::InvalidText),
            };
        }
        count = count + 1;
    }
    Err(AdapterError::Unterminated)
}

} // verus!
