//! Hyper-V device GUIDs.

use crate::bytes::{
    le16, le16_bytes, le16_has_the_value, le32, le32_bytes, le32_has_the_value,
};
use crate::text::{
    digit_value, hex_byte, hex_byte_stands_for_the_byte, push_char, push_hex_byte,
};
use vstd::prelude::*;

verus! {

/// A 128-bit GUID in Microsoft's mixed-endian format.
///
/// In memory, the first three fields (Data1, Data2, Data3) are
/// little-endian, and the last field (Data4) is big-endian.
#[derive(Clone, Copy)]
pub struct Guid {
    bytes: [u8; 16],
}

impl View for Guid {
    type V = Seq<u8>;

    closed spec fn view(&self) -> Seq<u8> {
        self.bytes@
    }
}

/// The bytes of the GUID `{data1-data2-data3-data4}` as they lie in memory.
pub open spec fn guid_bytes(data1: u32, data2: u16, data3: u16, data4: Seq<u8>) -> Seq<u8> {
    le32(data1) + le16(data2) + le16(data3) + data4
}

/// The text form `{XXXXXXXX-XXXX-XXXX-XXXX-XXXXXXXXXXXX}` of sixteen bytes.
pub open spec fn guid_text(b: Seq<u8>) -> Seq<char> {
    seq!['{'] + hex_byte(b[3]) + hex_byte(b[2]) + hex_byte(b[1]) + hex_byte(b[0]) + seq!['-']
        + hex_byte(b[5]) + hex_byte(b[4]) + seq!['-'] + hex_byte(b[7]) + hex_byte(b[6]) + seq!['-']
        + hex_byte(b[8]) + hex_byte(b[9]) + seq!['-'] + hex_byte(b[10]) + hex_byte(b[11])
        + hex_byte(b[12]) + hex_byte(b[13]) + hex_byte(b[14]) + hex_byte(b[15]) + seq!['}']
}

impl Guid {
    /// A GUID is sixteen bytes.
    pub proof fn sixteen_bytes(self)
        ensures
            self@.len() == 16,
    {
    }

    /// Create a GUID from the standard `{Data1-Data2-Data3-Data4}` fields.
    pub fn from_fields(data1: u32, data2: u16, data3: u16, data4: [u8; 8]) -> (g: Self)
        ensures
            g@ == guid_bytes(data1, data2, data3, data4@),
    {
        let d1 = le32_bytes(data1);
        let d2 = le16_bytes(data2);
        let d3 = le16_bytes(data3);
        let g = Guid {
            bytes: [
                d1[0],
                d1[1],
                d1[2],
                d1[3],
                d2[0],
                d2[1],
                d3[0],
                d3[1],
                data4[0],
                data4[1],
                data4[2],
                data4[3],
                data4[4],
                data4[5],
                data4[6],
                data4[7],
            ],
        };
        assert(g@ =~= guid_bytes(data1, data2, data3, data4@));
        g
    }

    /// Create a GUID from raw bytes (as they appear in memory).
    pub fn from_bytes(bytes: [u8; 16]) -> (g: Self)
        ensures
            g@ == bytes@,
    {
        Guid { bytes }
    }

    /// Raw bytes of this GUID.
    pub fn as_bytes(&self) -> (b: &[u8; 16])
        ensures
            b@ == self@,
    {
        &self.bytes
    }

    /// The text form `{XXXXXXXX-XXXX-XXXX-XXXX-XXXXXXXXXXXX}`.
    pub fn text(&self) -> (s: String)
        ensures
            s@ == guid_text(self@),
    {
        let b = &self.bytes;
        let mut s = String::new();
        push_char(&mut s, '{');
        push_hex_byte(&mut s, b[3]);
        push_hex_byte(&mut s, b[2]);
        push_hex_byte(&mut s, b[1]);
        push_hex_byte(&mut s, b[0]);
        push_char(&mut s, '-');
        push_hex_byte(&mut s, b[5]);
        push_hex_byte(&mut s, b[4]);
        push_char(&mut s, '-');
        push_hex_byte(&mut s, b[7]);
        push_hex_byte(&mut s, b[6]);
        push_char(&mut s, '-');
        push_hex_byte(&mut s, b[8]);
        push_hex_byte(&mut s, b[9]);
        push_char(&mut s, '-');
        push_hex_byte(&mut s, b[10]);
        push_hex_byte(&mut s, b[11]);
        push_hex_byte(&mut s, b[12]);
        push_hex_byte(&mut s, b[13]);
        push_hex_byte(&mut s, b[14]);
        push_hex_byte(&mut s, b[15]);
        push_char(&mut s, '}');
        assert(s@ =~= guid_text(self@));
        s
    }
}

impl PartialEq for Guid {
    fn eq(&self, other: &Guid) -> (r: bool) {
        let mut i: usize = 0;
        while i < 16
            invariant
                i <= 16,
                forall|j: int| 0 <= j < i ==> self.bytes@[j] == other.bytes@[j],
            decreases 16 - i,
        {
            if self.bytes[i] != other.bytes[i] {
                return false;
            }
            i += 1;
        }
        assert(self.bytes@ =~= other.bytes@);
        true
    }
}

impl vstd::std_specs::cmp::PartialEqSpecImpl for Guid {
    open spec fn obeys_eq_spec() -> bool {
        true
    }

    open spec fn eq_spec(&self, other: &Guid) -> bool {
        self@ == other@
    }
}

impl Eq for Guid {

}

/// Synthvid (synthetic video adapter).
pub fn synthvid() -> (g: Guid)
    ensures
        g@ == synthvid_bytes(),
{
    Guid::from_fields(0xDA0A7802, 0xE377, 0x4AAC, [0x8E, 0x77, 0x05, 0x58, 0xEB, 0x10, 0x73, 0xF8])
}

/// NetVSC (synthetic network adapter).
pub fn netvsc() -> (g: Guid)
    ensures
        g@ == netvsc_bytes(),
{
    Guid::from_fields(0xF8615163, 0xDF3E, 0x46C5, [0x91, 0x3F, 0xF2, 0xD2, 0xF9, 0x65, 0xED, 0x0E])
}

/// Synthetic keyboard.
pub fn synth_keyboard() -> (g: Guid)
    ensures
        g@ == synth_keyboard_bytes(),
{
    Guid::from_fields(0xF912AD6D, 0x2B17, 0x48EA, [0xBD, 0x65, 0xF9, 0x27, 0xA6, 0x1C, 0x76, 0x84])
}

/// Heartbeat / Integration Services.
pub fn heartbeat() -> (g: Guid)
    ensures
        g@ == heartbeat_bytes(),
{
    Guid::from_fields(0x57164F39, 0x9115, 0x4E78, [0xAB, 0x55, 0x38, 0x2F, 0x3B, 0xD5, 0x42, 0x2D])
}

/// `{DA0A7802-E377-4AAC-8E77-0558EB1073F8}`.
pub open spec fn synthvid_bytes() -> Seq<u8> {
    guid_bytes(0xDA0A7802, 0xE377, 0x4AAC, seq![0x8E, 0x77, 0x05, 0x58, 0xEB, 0x10, 0x73, 0xF8])
}

/// `{F8615163-DF3E-46C5-913F-F2D2F965ED0E}`.
pub open spec fn netvsc_bytes() -> Seq<u8> {
    guid_bytes(0xF8615163, 0xDF3E, 0x46C5, seq![0x91, 0x3F, 0xF2, 0xD2, 0xF9, 0x65, 0xED, 0x0E])
}

/// `{F912AD6D-2B17-48EA-BD65-F927A61C7684}`.
pub open spec fn synth_keyboard_bytes() -> Seq<u8> {
    guid_bytes(0xF912AD6D, 0x2B17, 0x48EA, seq![0xBD, 0x65, 0xF9, 0x27, 0xA6, 0x1C, 0x76, 0x84])
}

/// `{57164F39-9115-4E78-AB55-382F3BD5422D}`.
pub open spec fn heartbeat_bytes() -> Seq<u8> {
    guid_bytes(0x57164F39, 0x9115, 0x4E78, seq![0xAB, 0x55, 0x38, 0x2F, 0x3B, 0xD5, 0x42, 0x2D])
}

/// The well-known device types are four different GUIDs.
pub proof fn device_types_differ()
    ensures
        synthvid_bytes() != netvsc_bytes(),
        synthvid_bytes() != synth_keyboard_bytes(),
        synthvid_bytes() != heartbeat_bytes(),
        netvsc_bytes() != synth_keyboard_bytes(),
        netvsc_bytes() != heartbeat_bytes(),
        synth_keyboard_bytes() != heartbeat_bytes(),
{
    assert(synthvid_bytes()[0] == 0x02);
    assert(netvsc_bytes()[0] == 0x63);
    assert(synth_keyboard_bytes()[0] == 0x6D);
    assert(heartbeat_bytes()[0] == 0x39);
}

/// The fields of a GUID are found again in its bytes: the first three from the
/// lowest byte on, the last as it stands.
pub proof fn fields_are_found_again(data1: u32, data2: u16, data3: u16, data4: [u8; 8], g: Guid)
    requires
        call_ensures(Guid::from_fields, (data1, data2, data3, data4), g),
    ensures
        g@.len() == 16,
        g@[0] + 0x100 * g@[1] + 0x1_0000 * g@[2] + 0x100_0000 * g@[3] == data1,
        g@[4] + 0x100 * g@[5] == data2,
        g@[6] + 0x100 * g@[7] == data3,
        forall|i: int| 0 <= i < 8 ==> #[trigger] g@[8 + i] == data4@[i],
{
    le32_has_the_value(data1, [0, 0, 0, 0]);
    le16_has_the_value(data2, [0, 0]);
    le16_has_the_value(data3, [0, 0]);
}

/// A GUID gives back the bytes that it was made of.
pub proof fn bytes_are_given_back(bytes: [u8; 16], g: Guid, b: &[u8; 16])
    requires
        call_ensures(Guid::from_bytes, (bytes,), g),
        call_ensures(Guid::as_bytes, (&g,), b),
    ensures
        b@ == bytes@,
        g@ == bytes@,
{
}

/// Where the two digits of each byte stand in the text of a GUID: the bytes of
/// the first three fields in reverse.
pub open spec fn digits_of(i: int) -> int {
    if i < 4 {
        7 - 2 * i
    } else if i < 6 {
        20 - 2 * i
    } else if i < 8 {
        29 - 2 * i
    } else if i < 10 {
        4 + 2 * i
    } else {
        5 + 2 * i
    }
}

/// The text of a GUID is 38 characters, in braces, with hyphens between its
/// groups; each byte is told there by two upper-case digits, in its own place.
pub proof fn text_tells_the_bytes(g: &Guid, s: String)
    requires
        call_ensures(Guid::text, (g,), s),
    ensures
        s@.len() == 38,
        s@[0] == '{',
        s@[9] == '-',
        s@[14] == '-',
        s@[19] == '-',
        s@[24] == '-',
        s@[37] == '}',
        forall|i: int|
            0 <= i < 16 ==> 16 * digit_value(s@[digits_of(i)]) + digit_value(s@[digits_of(i) + 1])
                == #[trigger] g@[i],
{
    g.sixteen_bytes();
    text_is_made_so(g@, s@);
}

#[verifier::spinoff_prover]
#[verifier::rlimit(50)]
proof fn text_is_made_so(b: Seq<u8>, s: Seq<char>)
    requires
        b.len() == 16,
        s == guid_text(b),
    ensures
        s.len() == 38,
        s[0] == '{',
        s[9] == '-',
        s[14] == '-',
        s[19] == '-',
        s[24] == '-',
        s[37] == '}',
        forall|i: int|
            0 <= i < 16 ==> 16 * digit_value(s[digits_of(i)]) + digit_value(s[digits_of(i) + 1])
                == #[trigger] b[i],
{
    let h = Seq::new(16, |i: int| hex_byte(b[i]));
    assert forall|i: int| 0 <= i < 16 implies 16 * digit_value(h[i][0]) + digit_value(h[i][1])
        == #[trigger] b[i] by {
        hex_byte_stands_for_the_byte(b[i]);
    }
    assert(s[1] == h[3][0] && s[2] == h[3][1] && s[3] == h[2][0] && s[4] == h[2][1]);
    assert(s[5] == h[1][0] && s[6] == h[1][1] && s[7] == h[0][0] && s[8] == h[0][1]);
    assert(s[10] == h[5][0] && s[11] == h[5][1] && s[12] == h[4][0] && s[13] == h[4][1]);
    assert(s[15] == h[7][0] && s[16] == h[7][1] && s[17] == h[6][0] && s[18] == h[6][1]);
    assert(s[20] == h[8][0] && s[21] == h[8][1] && s[22] == h[9][0] && s[23] == h[9][1]);
    assert(s[25] == h[10][0] && s[26] == h[10][1] && s[27] == h[11][0] && s[28] == h[11][1]);
    assert(s[29] == h[12][0] && s[30] == h[12][1] && s[31] == h[13][0] && s[32] == h[13][1]);
    assert(s[33] == h[14][0] && s[34] == h[14][1] && s[35] == h[15][0] && s[36] == h[15][1]);
    assert forall|i: int| 0 <= i < 16 implies 16 * digit_value(s[digits_of(i)]) + digit_value(
        s[digits_of(i) + 1],
    ) == #[trigger] b[i] by {
        assert(s[digits_of(i)] == h[i][0] && s[digits_of(i) + 1] == h[i][1]);
    }
}

/// Two GUIDs are equal exactly if they have the same bytes.
pub proof fn equal_guids_have_equal_bytes(a: &Guid, b: &Guid, r: bool)
    requires
        call_ensures(Guid::eq, (a, b), r),
    ensures
        r <==> forall|i: int| 0 <= i < 16 ==> #[trigger] a@[i] == b@[i],
{
    a.sixteen_bytes();
    b.sixteen_bytes();
    if forall|i: int| 0 <= i < 16 ==> #[trigger] a@[i] == b@[i] {
        assert(a@ =~= b@);
    }
}

/// The well-known device types, byte for byte.
pub proof fn device_types_are_these(video: Guid, net: Guid, keyboard: Guid, beat: Guid)
    ensures
        call_ensures(synthvid, (), video) ==> video@ == seq![
            0x02u8, 0x78, 0x0A, 0xDA, 0x77, 0xE3, 0xAC, 0x4A, 0x8E, 0x77, 0x05, 0x58, 0xEB, 0x10,
            0x73, 0xF8,
        ],
        call_ensures(netvsc, (), net) ==> net@ == seq![
            0x63u8, 0x51, 0x61, 0xF8, 0x3E, 0xDF, 0xC5, 0x46, 0x91, 0x3F, 0xF2, 0xD2, 0xF9, 0x65,
            0xED, 0x0E,
        ],
        call_ensures(synth_keyboard, (), keyboard) ==> keyboard@ == seq![
            0x6Du8, 0xAD, 0x12, 0xF9, 0x17, 0x2B, 0xEA, 0x48, 0xBD, 0x65, 0xF9, 0x27, 0xA6, 0x1C,
            0x76, 0x84,
        ],
        call_ensures(heartbeat, (), beat) ==> beat@ == seq![
            0x39u8, 0x4F, 0x16, 0x57, 0x15, 0x91, 0x78, 0x4E, 0xAB, 0x55, 0x38, 0x2F, 0x3B, 0xD5,
            0x42, 0x2D,
        ],
        netvsc_bytes() == seq![
            0x63u8, 0x51, 0x61, 0xF8, 0x3E, 0xDF, 0xC5, 0x46, 0x91, 0x3F, 0xF2, 0xD2, 0xF9, 0x65,
            0xED, 0x0E,
        ],
{
    assert(synthvid_bytes() =~= seq![
        0x02u8, 0x78, 0x0A, 0xDA, 0x77, 0xE3, 0xAC, 0x4A, 0x8E, 0x77, 0x05, 0x58, 0xEB, 0x10, 0x73,
        0xF8,
    ]);
    assert(netvsc_bytes() =~= seq![
        0x63u8, 0x51, 0x61, 0xF8, 0x3E, 0xDF, 0xC5, 0x46, 0x91, 0x3F, 0xF2, 0xD2, 0xF9, 0x65, 0xED,
        0x0E,
    ]);
    assert(synth_keyboard_bytes() =~= seq![
        0x6Du8, 0xAD, 0x12, 0xF9, 0x17, 0x2B, 0xEA, 0x48, 0xBD, 0x65, 0xF9, 0x27, 0xA6, 0x1C, 0x76,
        0x84,
    ]);
    assert(heartbeat_bytes() =~= seq![
        0x39u8, 0x4F, 0x16, 0x57, 0x15, 0x91, 0x78, 0x4E, 0xAB, 0x55, 0x38, 0x2F, 0x3B, 0xD5, 0x42,
        0x2D,
    ]);
}

} // verus!
