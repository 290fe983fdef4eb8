//! How a soundfont list path is handed to the driver: null-terminated UTF-16
//! code units where the driver expects wide strings, null-terminated UTF-8
//! bytes elsewhere.
use crate::locator::Platform;
use vstd::prelude::*;
use vstd::string::StrSliceExecFns;
use vstd::utf8::encode_utf8;

verus! {

/// The UTF-16 code units of one character: itself below `0x10000`, a
/// surrogate pair above.
pub open spec fn utf16_units(c: char) -> Seq<u16> {
    let v = c as u32;
    if v < 0x10000 {
        seq![v as u16]
    } else {
        let w = (v - 0x10000) as u32;
        seq![(0xD800 + w / 0x400) as u16, (0xDC00 + w % 0x400) as u16]
    }
}

/// The UTF-16 encoding of a character sequence.
pub open spec fn utf16_of(s: Seq<char>) -> Seq<u16>
    decreases s.len(),
{
    if s.len() == 0 {
        seq![]
    } else {
        utf16_of(s.drop_last()) + utf16_units(s.last())
    }
}

/// A path in the representation that the driver's soundfont loader takes.
#[derive(Clone, Debug, PartialEq, Eq)]
pub enum EncodedPath {
    Wide(Vec<u16>),
    Narrow(Vec<u8>),
}

/// `p` is `text` in the form the driver takes on `platform`: wide on
/// Windows, narrow elsewhere, null-terminated either way.
pub open spec fn is_encoding_of(p: EncodedPath, platform: Platform, text: Seq<char>) -> bool {
    match p {
        EncodedPath::Wide(units) => platform == Platform::Windows && units@ == utf16_of(text)
            + seq![0u16],
        EncodedPath::Narrow(bytes) => platform != Platform::Windows && bytes@ == encode_utf8(text)
            + seq![0u8],
    }
}

/// `path` as UTF-16 code units followed by a single 0 unit.
pub fn encode_wide(path: &str) -> (r: Vec<u16>)
    ensures
        r@ == utf16_of(path@) + seq![0u16],
{
    broadcast use vstd::utf8::char_is_scalar;

    let n = path.unicode_len();
    let mut out: Vec<u16> = Vec::new();
    let mut i: usize = 0;
    while i < n
        invariant
            n == path@.len(),
            i <= n,
            out@ == utf16_of(path@.subrange(0, i as int)),
        decreases n - i,
    {
        let c = path.get_char(i);
        let v: u32 = c as u32;
        if v < 0x10000 {
            out.push(v as u16);
        } else {
            let w: u32 = v - 0x10000;
            out.push((0xD800 + w / 0x400) as u16);
            out.push((0xDC00 + w % 0x400) as u16);
        }
        assert(path@.subrange(0, i + 1).drop_last() =~= path@.subrange(0, i as int));
        i = i + 1;
    }
    assert(path@.subrange(0, n as int) =~= path@);
    out.push(0u16);
    out
}

/// `path` as UTF-8 bytes followed by a single 0 byte.
pub fn encode_narrow(path: &str) -> (r: Vec<u8>)
    ensures
        r@ == encode_utf8(path@) + seq![0u8],
{
    let bytes = path.as_bytes();
    let mut out: Vec<u8> = Vec::new();
    let mut i: usize = 0;
    while i < bytes.len()
        invariant
            bytes@ == encode_utf8(path@),
            i <= bytes@.len(),
            out@ == bytes@.subrange(0, i as int),
        decreases bytes@.len() - i,
    {
        out.push(bytes[i]);
        assert(out@ =~= bytes@.subrange(0, i + 1));
        i = i + 1;
    }
    assert(out@ =~= bytes@);
    out.push(0u8);
    out
}

/// `path` in the form the driver takes on `platform`: wide on Windows,
/// narrow elsewhere; always null-terminated.
pub fn encode_path(platform: Platform, path: &str) -> (r: EncodedPath)
    ensures
        is_encoding_of(r, platform, path@),
{
    if platform == Platform::Windows {
        EncodedPath::Wide(encode_wide(path))
    } else {
        EncodedPath::Narrow(encode_narrow(path))
    }
}

} // verus!
