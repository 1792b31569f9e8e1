use vstd::prelude::*;
use encoding::all::UTF_16LE;
use encoding::{EncoderTrap, Encoding};

verus! {

/// The UTF-16 little-endian encoding of one character: one code unit up to
/// U+FFFF, a surrogate pair above, each unit least significant byte first.
pub open spec fn utf16le_char(c: char) -> Seq<u8> {
    let v = c as u32 as int;
    if v < 0x10000 {
        seq![(v % 256) as u8, (v / 256) as u8]
    } else {
        let w = v - 0x10000;
        let hi = 0xd800 + w / 1024;
        let lo = 0xdc00 + w % 1024;
        seq![(hi % 256) as u8, (hi / 256) as u8, (lo % 256) as u8, (lo / 256) as u8]
    }
}

/// The UTF-16 little-endian encoding of a text.
pub open spec fn utf16le_of(s: Seq<char>) -> Seq<u8>
    decreases s.len(),
{
    if s.len() == 0 {
        Seq::empty()
    } else {
        utf16le_of(s.drop_last()) + utf16le_char(s.last())
    }
}

/// Relies on `encoding::all::UTF_16LE.encode` with `EncoderTrap::Strict`:
/// it succeeds on every text (its UTF-16 encoder reports no error, in
/// `raw_feed` nor in `raw_finish`) and gives the UTF-16 little-endian
/// encoding of `s`.
#[verifier::external_body]
pub(crate) fn encode_utf16le(s: &str) -> (r: Option<Vec<u8>>)
    ensures
        r is Some,
        r.unwrap()@ == utf16le_of(s@),
{
    UTF_16LE.encode(s, EncoderTrap::Strict).ok()
}

} // verus!
