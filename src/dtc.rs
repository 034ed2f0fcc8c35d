//! Diagnostic trouble codes: two bytes on the wire, five characters as text.
use crate::text::push_char;
use vstd::prelude::*;

verus! {

/// Module letter selected by the top two bits of the first byte.
pub open spec fn module_letter(b0: u8) -> char {
    seq!['P', 'C', 'B', 'U'][(b0 / 64) as int]
}

/// Class digit given by bits 4 and 5 of the first byte.
pub open spec fn class_digit(b0: u8) -> char {
    seq!['0', '1', '2', '3'][((b0 / 16) % 4) as int]
}

/// Upper-case hexadecimal digit of a nibble.
pub open spec fn hex_digit(n: int) -> char {
    seq!['0', '1', '2', '3', '4', '5', '6', '7', '8', '9', 'A', 'B', 'C', 'D', 'E', 'F'][n]
}

/// The text of a trouble code: module letter, class digit, then the low
/// nibble of the first byte and both nibbles of the second, in hexadecimal.
pub open spec fn dtc_text(b0: u8, b1: u8) -> Seq<char> {
    seq![
        module_letter(b0),
        class_digit(b0),
        hex_digit((b0 % 16) as int),
        hex_digit((b1 / 16) as int),
        hex_digit((b1 % 16) as int),
    ]
}

/// For all two bytes, the text of their trouble code is five characters:
/// the module letter `P`, `C`, `B` or `U` chosen by the top two bits, the
/// class digit `0` to `3` given by the next two, then the remaining twelve
/// bits as three upper-case hexadecimal digits, most significant first.
pub proof fn lemma_dtc_text_rule(b0: u8, b1: u8)
    ensures
        dtc_text(b0, b1).len() == 5,
        dtc_text(b0, b1)[0] == seq!['P', 'C', 'B', 'U'][(b0 >> 6) as int],
        dtc_text(b0, b1)[1] == seq!['0', '1', '2', '3'][((b0 >> 4) & 3) as int],
        forall|i: int|
            0 <= i < 3 ==> #[trigger] dtc_text(b0, b1)[2 + i] == hex_digit(
                (((((b0 as u16) << 8u16) | b1 as u16) & 0xFFF) >> (4 * (2 - i)) as u16 & 0xF) as int,
            ),
{
    let w: u16 = ((b0 as u16) << 8u16) | b1 as u16;
    assert(b0 >> 6 == b0 / 64) by (bit_vector);
    assert((b0 >> 4) & 3 == (b0 / 16) % 4) by (bit_vector);
    assert(((((b0 as u16) << 8u16) | b1 as u16) & 0xFFF) >> 8u16 & 0xF == (b0 % 16) as u16)
        by (bit_vector);
    assert(((((b0 as u16) << 8u16) | b1 as u16) & 0xFFF) >> 4u16 & 0xF == (b1 / 16) as u16)
        by (bit_vector);
    assert(((((b0 as u16) << 8u16) | b1 as u16) & 0xFFF) >> 0u16 & 0xF == (b1 % 16) as u16)
        by (bit_vector);
    assert forall|i: int| 0 <= i < 3 implies #[trigger] dtc_text(b0, b1)[2 + i] == hex_digit(
        ((w & 0xFFF) >> (4 * (2 - i)) as u16 & 0xF) as int,
    ) by {
        if i == 0 {
            assert((4 * (2 - i)) as u16 == 8u16);
        } else if i == 1 {
            assert((4 * (2 - i)) as u16 == 4u16);
        } else {
            assert((4 * (2 - i)) as u16 == 0u16);
        }
    }
}

/// Diagnostic trouble code.
#[derive(Clone, Copy, Debug)]
pub struct DTC(pub [u8; 2]);

fn module_char(b0: u8) -> (c: char)
    ensures
        c == module_letter(b0),
{
    let top = b0 / 64;
    if top == 0 {
        'P'
    } else if top == 1 {
        'C'
    } else if top == 2 {
        'B'
    } else {
        'U'
    }
}

fn hex_char(n: u8) -> (c: char)
    requires
        n < 16,
    ensures
        c == hex_digit(n as int),
{
    let digits: [char; 16] = ['0', '1', '2', '3', '4', '5', '6', '7', '8', '9', 'A', 'B', 'C', 'D', 'E', 'F'];
    assert(digits@ == seq!['0', '1', '2', '3', '4', '5', '6', '7', '8', '9', 'A', 'B', 'C', 'D', 'E', 'F']);
    digits[n as usize]
}

impl DTC {
    /// Decodes a trouble code from its two wire bytes.
    pub fn decode(bytes: [u8; 2]) -> (r: DTC)
        ensures
            r.0@ == bytes@,
    {
        DTC(bytes)
    }

    /// The two wire bytes of this code.
    pub fn bytes(&self) -> (r: [u8; 2])
        ensures
            r@ == self.0@,
    {
        self.0
    }

    /// The text of this code, as `dtc_text` gives it.
    pub fn to_string(&self) -> (r: String)
        ensures
            r@ == dtc_text(self.0@[0], self.0@[1]),
            r@.len() == 5,
    {
        let b0 = self.0[0];
        let b1 = self.0[1];
        let mut s = String::new();
        push_char(&mut s, module_char(b0));
        push_char(&mut s, hex_char((b0 / 16) % 4));
        push_char(&mut s, hex_char(b0 % 16));
        push_char(&mut s, hex_char(b1 / 16));
        push_char(&mut s, hex_char(b1 % 16));
        assert(s@ =~= dtc_text(b0, b1));
        s
    }
}

} // verus!
