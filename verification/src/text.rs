//! Text of the player: script strings, and the decoding of names in SWF data.
use vstd::prelude::*;
use vstd::utf8::{decode_utf8, valid_utf8};

verus! {

/// A string value of the player. Its view is the text it holds.
#[derive(Debug)]
pub struct AvmString {
    text: String,
}

impl View for AvmString {
    type V = Seq<char>;

    closed spec fn view(&self) -> Seq<char> {
        self.text@
    }
}

impl Clone for AvmString {
    fn clone(&self) -> (res: Self)
        ensures
            res == *self,
    {
        AvmString { text: self.text.clone() }
    }
}

impl AvmString {
    /// The string value with the given text.
    pub fn new_utf8(text: String) -> (res: AvmString)
        ensures
            res@ == text@,
    {
        AvmString { text }
    }

    /// The string value with the text of a literal.
    pub fn from_literal(text: &str) -> (res: AvmString)
        ensures
            res@ == text@,
    {
        AvmString { text: text.to_owned() }
    }

    /// The text as a Rust string slice.
    pub fn as_str(&self) -> (res: &str)
        ensures
            res@ == self@,
    {
        self.text.as_str()
    }

    /// A copy of the text as a Rust string.
    pub fn to_utf8_lossy(&self) -> (res: String)
        ensures
            res@ == self@,
    {
        self.text.clone()
    }

    /// Whether two strings have the same text.
    pub fn same_text(&self, other: &AvmString) -> (res: bool)
        ensures
            res == (self@ == other@),
    {
        self.text == other.text
    }
}

/// The character that WINDOWS-1252 gives a byte: the byte's own code point, but for the 32 bytes
/// from 0x80 to 0x9f.
pub open spec fn windows_1252_char(byte: u8) -> char {
    let high: Seq<u32> = seq![
        0x20ac, 0x0081, 0x201a, 0x0192, 0x201e, 0x2026, 0x2020, 0x2021,
        0x02c6, 0x2030, 0x0160, 0x2039, 0x0152, 0x008d, 0x017d, 0x008f,
        0x0090, 0x2018, 0x2019, 0x201c, 0x201d, 0x2022, 0x2013, 0x2014,
        0x02dc, 0x2122, 0x0161, 0x203a, 0x0153, 0x009d, 0x017e, 0x0178,
    ];
    if 0x80 <= byte < 0xa0 {
        high[byte - 0x80] as char
    } else {
        byte as char
    }
}

/// The text of bytes in WINDOWS-1252.
pub open spec fn windows_1252_text(bytes: Seq<u8>) -> Seq<char> {
    bytes.map_values(|byte: u8| windows_1252_char(byte))
}

/// The text that the `swf` crate makes of bytes in UTF-8, malformed ones included.
pub uninterp spec fn utf8_lossy_text(bytes: Seq<u8>) -> Seq<char>;

/// The text of a name in SWF data of a version: UTF-8 from version 6 on, WINDOWS-1252 before it.
pub open spec fn swf_text(bytes: Seq<u8>, swf_version: u8) -> Seq<char> {
    if swf_version >= 6 {
        utf8_lossy_text(bytes)
    } else {
        windows_1252_text(bytes)
    }
}

/// The text is that of a name in SWF data of a version. Well-formed UTF-8 has one text only.
pub open spec fn is_swf_text(text: Seq<char>, bytes: Seq<u8>, swf_version: u8) -> bool {
    &&& text == swf_text(bytes, swf_version)
    &&& swf_version >= 6 && valid_utf8(bytes) ==> text == decode_utf8(bytes)
}

/// The decoder's buffer takes up to three bytes for each byte read and may be doubled once, and it
/// has to stay below what a machine can allocate.
pub open spec fn decodable(bytes: Seq<u8>) -> bool {
    8 * bytes.len() + 64 <= isize::MAX
}

/// Whether the decoder has the room for a name.
pub fn can_decode(bytes: &[u8]) -> (res: bool)
    ensures
        res == decodable(bytes@),
{
    let limit: usize = (isize::MAX as usize - 64) / 8;
    bytes.len() <= limit
}

/// `swf::SwfStr::to_str_lossy` on the given bytes, with the encoding that
/// `swf::SwfStr::encoding_for_version` gives for the version.
///
/// Claimed of it: before version 6 each byte becomes the character that WINDOWS-1252 assigns it;
/// from version 6 on the result is a function of the bytes alone, and on well-formed UTF-8 it is
/// the text they encode. What malformed UTF-8 becomes is not spelled out.
#[verifier::external_body]
fn to_str_lossy(bytes: &[u8], swf_version: u8) -> (res: String)
    requires
        decodable(bytes@),
    ensures
        swf_version < 6 ==> res@ == windows_1252_text(bytes@),
        swf_version >= 6 ==> res@ == utf8_lossy_text(bytes@),
        swf_version >= 6 && valid_utf8(bytes@) ==> res@ == decode_utf8(bytes@),
{
    let encoding = swf::SwfStr::encoding_for_version(swf_version);
    swf::SwfStr::from_bytes(bytes).to_str_lossy(encoding).into_owned()
}

/// The string value that a name in SWF data stands for.
pub fn decode_name(bytes: &[u8], swf_version: u8) -> (res: AvmString)
    requires
        decodable(bytes@),
    ensures
        is_swf_text(res@, bytes@, swf_version),
{
    AvmString::new_utf8(to_str_lossy(bytes, swf_version))
}

} // verus!
