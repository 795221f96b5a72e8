//! Icon colours and their stored hex text.

use vstd::prelude::*;
use vstd::string::*;

verus! {

/// An sRGB colour with alpha, each channel as it is written in hex text
/// (alpha not multiplied into the colour channels).
#[derive(Clone, Copy, Debug, PartialEq, Eq, Structural)]
pub struct Color {
    pub r: u8,
    pub g: u8,
    pub b: u8,
    pub a: u8,
}

/// The lower-case hex digit for a number below 16.
pub open spec fn hex_digit(n: int) -> char
    recommends
        0 <= n < 16,
{
    if n < 10 {
        (48 + n) as u8 as char
    } else {
        (87 + n) as u8 as char
    }
}

/// The number that a hex digit of either case stands for.
pub open spec fn hex_value(c: char) -> Option<int> {
    if '0' <= c <= '9' {
        Some(c as u8 - 48)
    } else if 'a' <= c <= 'f' {
        Some(c as u8 - 87)
    } else if 'A' <= c <= 'F' {
        Some(c as u8 - 55)
    } else {
        None
    }
}

/// Whether every element of `digits` is a hex digit.
pub open spec fn all_hex(digits: Seq<char>) -> bool {
    forall|i: int| 0 <= i < digits.len() ==> (#[trigger] hex_value(digits[i])) is Some
}

/// The channel written with the one digit `c`: the digit twice.
pub open spec fn short_channel(c: char) -> u8
    recommends
        hex_value(c) is Some,
{
    (17 * hex_value(c).unwrap()) as u8
}

/// The channel written with the two digits `high` and `low`.
pub open spec fn long_channel(high: char, low: char) -> u8
    recommends
        hex_value(high) is Some,
        hex_value(low) is Some,
{
    (16 * hex_value(high).unwrap() + hex_value(low).unwrap()) as u8
}

impl Color {
    /// The colour as `#rrggbbaa`, with lower-case digits.
    pub open spec fn spec_to_hex(self) -> Seq<char> {
        seq![
            '#',
            hex_digit(self.r as int / 16),
            hex_digit(self.r as int % 16),
            hex_digit(self.g as int / 16),
            hex_digit(self.g as int % 16),
            hex_digit(self.b as int / 16),
            hex_digit(self.b as int % 16),
            hex_digit(self.a as int / 16),
            hex_digit(self.a as int % 16),
        ]
    }

    /// The colour that a hex text names: `#` and then `rgb`, `rgba`,
    /// `rrggbb` or `rrggbbaa` in hex digits of either case. A text without
    /// alpha names an opaque colour. Any other text names none.
    pub open spec fn spec_from_hex(hex: Seq<char>) -> Option<Color> {
        if hex.len() == 0 || hex[0] != '#' || !all_hex(hex.subrange(1, hex.len() as int)) {
            None
        } else if hex.len() == 4 {
            Some(
                Color {
                    r: short_channel(hex[1]),
                    g: short_channel(hex[2]),
                    b: short_channel(hex[3]),
                    a: 255,
                },
            )
        } else if hex.len() == 5 {
            Some(
                Color {
                    r: short_channel(hex[1]),
                    g: short_channel(hex[2]),
                    b: short_channel(hex[3]),
                    a: short_channel(hex[4]),
                },
            )
        } else if hex.len() == 7 {
            Some(
                Color {
                    r: long_channel(hex[1], hex[2]),
                    g: long_channel(hex[3], hex[4]),
                    b: long_channel(hex[5], hex[6]),
                    a: 255,
                },
            )
        } else if hex.len() == 9 {
            Some(
                Color {
                    r: long_channel(hex[1], hex[2]),
                    g: long_channel(hex[3], hex[4]),
                    b: long_channel(hex[5], hex[6]),
                    a: long_channel(hex[7], hex[8]),
                },
            )
        } else {
            None
        }
    }

    /// Writes the colour as `#rrggbbaa`, the text under which it is stored.
    pub fn to_hex(&self) -> (hex: String)
        ensures
            hex@ == self.spec_to_hex(),
    {
        let mut hex: String = "#".to_owned();
        proof {
            reveal_strlit("#");
        }
        hex.append(digit_text(self.r / 16));
        hex.append(digit_text(self.r % 16));
        hex.append(digit_text(self.g / 16));
        hex.append(digit_text(self.g % 16));
        hex.append(digit_text(self.b / 16));
        hex.append(digit_text(self.b % 16));
        hex.append(digit_text(self.a / 16));
        hex.append(digit_text(self.a % 16));
        assert(hex@ =~= self.spec_to_hex());
        hex
    }

    /// Reads a colour from hex text, or finds that the text names none.
    pub fn from_hex(hex: &str) -> (color: Option<Color>)
        ensures
            color == Color::spec_from_hex(hex@),
    {
        if !hex.is_ascii() {
            proof {
                lemma_hex_is_ascii(hex@);
            }
            return None;
        }
        let n: usize = hex.unicode_len();
        if n == 0 || hex.get_ascii(0) != 35 {
            return None;
        }
        let mut values: Vec<u8> = Vec::new();
        let mut i: usize = 1;
        while i < n
            invariant
                1 <= i <= n,
                n == hex@.len(),
                is_ascii(hex),
                values@.len() == i - 1,
                forall|k: int|
                    1 <= k < i ==> hex_value(#[trigger] hex@[k]) == Some(values@[k - 1] as int),
            decreases n - i,
        {
            match digit_value(hex.get_ascii(i)) {
                Some(v) => values.push(v),
                None => {
                    assert(hex_value(hex@.subrange(1, n as int)[i - 1]) is None);
                    return None;
                },
            }
            i = i + 1;
        }
        assert(all_hex(hex@.subrange(1, n as int)));
        if n == 4 {
            Some(Color { r: 17 * values[0], g: 17 * values[1], b: 17 * values[2], a: 255 })
        } else if n == 5 {
            Some(
                Color {
                    r: 17 * values[0],
                    g: 17 * values[1],
                    b: 17 * values[2],
                    a: 17 * values[3],
                },
            )
        } else if n == 7 {
            Some(
                Color {
                    r: 16 * values[0] + values[1],
                    g: 16 * values[2] + values[3],
                    b: 16 * values[4] + values[5],
                    a: 255,
                },
            )
        } else if n == 9 {
            Some(
                Color {
                    r: 16 * values[0] + values[1],
                    g: 16 * values[2] + values[3],
                    b: 16 * values[4] + values[5],
                    a: 16 * values[6] + values[7],
                },
            )
        } else {
            None
        }
    }

    /// A colour is read back from its own hex text.
    pub proof fn lemma_hex_round_trip(color: Color)
        ensures
            Color::spec_from_hex(color.spec_to_hex()) == Some(color),
    {
        let hex = color.spec_to_hex();
        assert forall|n: int| 0 <= n < 16 implies hex_value(#[trigger] hex_digit(n)) == Some(
            n,
        ) by {}
        assert(all_hex(hex.subrange(1, 9)));
    }
}

/// The one-character text of a hex digit.
fn digit_text(n: u8) -> (text: &'static str)
    requires
        n < 16,
    ensures
        text@ == seq![hex_digit(n as int)],
{
    proof {
        reveal_strlit("0");
        reveal_strlit("1");
        reveal_strlit("2");
        reveal_strlit("3");
        reveal_strlit("4");
        reveal_strlit("5");
        reveal_strlit("6");
        reveal_strlit("7");
        reveal_strlit("8");
        reveal_strlit("9");
        reveal_strlit("a");
        reveal_strlit("b");
        reveal_strlit("c");
        reveal_strlit("d");
        reveal_strlit("e");
        reveal_strlit("f");
    }
    let text: &'static str = match n {
        0 => "0",
        1 => "1",
        2 => "2",
        3 => "3",
        4 => "4",
        5 => "5",
        6 => "6",
        7 => "7",
        8 => "8",
        9 => "9",
        10 => "a",
        11 => "b",
        12 => "c",
        13 => "d",
        14 => "e",
        _ => "f",
    };
    assert(text@ =~= seq![hex_digit(n as int)]);
    text
}

/// The number that the ASCII byte of a hex digit stands for.
fn digit_value(byte: u8) -> (value: Option<u8>)
    requires
        byte < 128,
    ensures
        match value {
            Some(v) => v < 16 && hex_value(byte as char) == Some(v as int),
            None => hex_value(byte as char) is None,
        },
{
    if 48 <= byte && byte <= 57 {
        Some(byte - 48)
    } else if 97 <= byte && byte <= 102 {
        Some(byte - 87)
    } else if 65 <= byte && byte <= 70 {
        Some(byte - 55)
    } else {
        None
    }
}

/// A text that names a colour is made of ASCII characters.
proof fn lemma_hex_is_ascii(hex: Seq<char>)
    requires
        !vstd::utf8::is_ascii_chars(hex),
    ensures
        Color::spec_from_hex(hex) is None,
{
    if hex.len() > 0 && hex[0] == '#' && all_hex(hex.subrange(1, hex.len() as int)) {
        assert forall|i: int| 0 <= i < hex.len() implies '\0' <= #[trigger] hex[i] <= '\u{7f}' by {
            if i > 0 {
                assert(hex_value(hex.subrange(1, hex.len() as int)[i - 1]) is Some);
            }
        }
    }
}

} // verus!
