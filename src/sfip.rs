//! IP address values and the marshaling of their text to and from the host's
//! address routines.
use vstd::prelude::*;
use vstd::string::*;
use vstd::utf8::*;

use crate::cstr::{c_text, conv_cstring, nul_at, nul_free, lemma_first_nul};
use crate::error::AdapterError;

verus! {

broadcast use {encode_utf8_valid_utf8, encode_utf8_decode_utf8};

/// Capacity of the render buffer: the longest IPv6 text form and its terminator.
pub const MAX_IPV6LEN: usize = 46;

/// The part of a render buffer that the host may write: at most `MAX_IPV6LEN` bytes.
pub open spec fn render_window(b: Seq<u8>) -> Seq<u8> {
    if b.len() <= MAX_IPV6LEN {
        b
    } else {
        b.take(MAX_IPV6LEN as int)
    }
}

/// An IP address, v4 or v6, held as the canonical text the host rendered.
#[derive(Debug)]
pub struct IP {
    text: String,
}

impl View for IP {
    type V = Seq<char>;

    closed spec fn view(&self) -> Seq<char> {
        self.text@
    }
}

impl IP {
    /// The C string handed to the host's parse routine: the bytes of `addr`
    /// and a terminator. Text with a NUL byte of its own is refused.
    pub fn c_addr(addr: &str) -> (r: Result<Vec<u8>, AdapterError>)
        ensures
            r is Ok <==> nul_free(addr.spec_bytes()),
            r matches Ok(v) ==> v@ == addr.spec_bytes().push(0),
            r matches Err(e) ==> e == AdapterError::InteriorNul,
    {
        let bytes = addr.as_bytes();
        let mut out: Vec<u8> = Vec::new();
        let mut i: usize = 0;
        while i < bytes.len()
            invariant
                i <= bytes@.len(),
                bytes@ == addr.spec_bytes(),
                out@ == bytes@.take(i as int),
                forall|j: int| 0 <= j < i ==> bytes@[j] != 0,
            decreases bytes@.len() - i,
        {
            if bytes[i] == 0 {
                return Err(AdapterError::InteriorNul);
            }
            out.push(bytes[i]);
            i = i + 1;
            assert(out@ == bytes@.take(i as int));
        }
        assert(bytes@.take(i as int) == bytes@);
        out.push(0);
        Ok(out)
    }

    /// The address the host rendered into `buf`: the terminated UTF-8 text
    /// within its first `MAX_IPV6LEN` bytes.
    pub fn from_rendered(buf: &[u8]) -> (r: Result<IP, AdapterError>)
        ensures
            match r {
                Ok(ip) => c_text(render_window(buf@)) == Ok::<Seq<u8>, AdapterError>(encode_utf8(ip@)),
                Err(e) => c_text(render_window(buf@)) == Err::<Seq<u8>, AdapterError>(e),
            },
            r matches Ok(ip) ==> encode_utf8(ip@).len() < MAX_IPV6LEN,
    {
        let n: usize = if buf.len() <= MAX_IPV6LEN {
            buf.len()
        } else {
            MAX_IPV6LEN
        };
        let window = &buf[0..n];
        assert(window@ == render_window(buf@));
        match conv_cstring(window) {
            Ok(s) => {
                let text = s.to_owned();
                Ok(IP { text })
            },
            Err(e) => Err(e),
        }
    }

    /// The address's canonical text.
    pub fn to_str(&self) -> (r: String)
        ensures
            r@ == self@,
    {
        self.text.clone()
    }
}

/// When the host renders back exactly the C string it was handed, reading
/// the render buffer returns the text it started from: marshaling loses nothing for
/// any text without NUL that fits the buffer.
pub proof fn lemma_address_text_round_trip(text: Seq<char>, rendered: Seq<char>)
    requires
        nul_free(encode_utf8(text)),
        encode_utf8(text).len() < MAX_IPV6LEN,
        c_text(render_window(encode_utf8(text).push(0))) == Ok::<Seq<u8>, AdapterError>(
            encode_utf8(rendered),
        ),
    ensures
        rendered == text,
{
    let b = encode_utf8(text);
    let c = b.push(0);
    assert(render_window(c) == c);
    assert(nul_at(c, b.len() as int));
    lemma_first_nul(c, b.len() as int);
    assert(c.take(b.len() as int) == b);
    assert(decode_utf8(encode_utf8(rendered)) == rendered);
}

/// Reading the C string of a NUL-free text that fits the buffer succeeds.
pub proof fn lemma_address_text_readable(text: Seq<char>)
    requires
        nul_free(encode_utf8(text)),
        encode_utf8(text).len() < MAX_IPV6LEN,
    ensures
        c_text(render_window(encode_utf8(text).push(0))) == Ok::<Seq<u8>, AdapterError>(
            encode_utf8(text),
        ),
{
    let b = encode_utf8(text);
    let c = b.push(0);
    assert(render_window(c) == c);
    assert(nul_at(c, b.len() as int));
    lemma_first_nul(c, b.len() as int);
    assert(c.take(b.len() as int) == b);
}

} // verus!
