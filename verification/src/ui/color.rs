use vstd::prelude::*;
use vstd::string::*;
use vstd::utf8::*;

use crate::text::{lowercase, str_eq, to_lowercase};

verus! {

/// An opaque RGB colour.
#[derive(Clone, Copy, Debug, PartialEq, Eq, Structural)]
pub struct ChalkColor {
    pub r: u8,
    pub g: u8,
    pub b: u8,
}

/// The colour with the given channels.
pub open spec fn rgb(r: u8, g: u8, b: u8) -> ChalkColor {
    ChalkColor { r, g, b }
}

/// The value of a hexadecimal digit (either case), as `char::to_digit(16)` gives it.
pub open spec fn hex_value(b: u8) -> Option<u8> {
    if 48 <= b <= 57 {
        Some((b - 48) as u8)
    } else if 97 <= b <= 102 {
        Some((b - 87) as u8)
    } else if 65 <= b <= 70 {
        Some((b - 55) as u8)
    } else {
        None
    }
}

/// A two-byte field read as a hexadecimal `u8` the way `u8::from_str_radix`
/// reads it: two digits, or a `+` sign and one digit.
pub open spec fn parse_pair(b0: u8, b1: u8) -> Option<u8> {
    if b0 == 43 {
        hex_value(b1)
    } else {
        match (hex_value(b0), hex_value(b1)) {
            (Some(h), Some(l)) => Some((16 * h + l) as u8),
            _ => None,
        }
    }
}

/// The bytes left once every leading `#` is removed.
pub open spec fn trim_hashes(s: Seq<u8>) -> Seq<u8>
    decreases s.len(),
{
    if s.len() > 0 && s[0] == 35 {
        trim_hashes(s.skip(1))
    } else {
        s
    }
}

/// A UTF-8 continuation byte: no character starts there.
pub open spec fn is_continuation(b: u8) -> bool {
    0x80 <= b < 0xC0
}

/// The colour a `#RRGGBB` text (in UTF-8 bytes) denotes: after the leading
/// `#`s exactly six bytes, read as three two-byte hexadecimal fields.
pub open spec fn color_of_hex(bytes: Seq<u8>) -> Option<ChalkColor> {
    let t = trim_hashes(bytes);
    if t.len() != 6 {
        None
    } else {
        match (parse_pair(t[0], t[1]), parse_pair(t[2], t[3]), parse_pair(t[4], t[5])) {
            (Some(r), Some(g), Some(b)) => Some(rgb(r, g, b)),
            _ => None,
        }
    }
}

/// The fields of a six-byte hex text can be cut apart: each cut that is
/// reached falls between two characters.
pub open spec fn hex_fields_cut_cleanly(bytes: Seq<u8>) -> bool {
    let t = trim_hashes(bytes);
    t.len() == 6 ==> {
        &&& !is_continuation(t[2])
        &&& parse_pair(t[0], t[1]) is Some ==> !is_continuation(t[4])
    }
}

/// The uppercase hexadecimal digit of a value below sixteen.
pub open spec fn hex_digit(d: u8) -> char {
    if d < 10 {
        (48 + d) as char
    } else {
        (55 + d) as char
    }
}

/// `#RRGGBB` with uppercase digits.
pub open spec fn hex_text(c: ChalkColor) -> Seq<char> {
    seq![
        '#',
        hex_digit(c.r / 16),
        hex_digit(c.r % 16),
        hex_digit(c.g / 16),
        hex_digit(c.g % 16),
        hex_digit(c.b / 16),
        hex_digit(c.b % 16),
    ]
}

/// The colours that have a name.
pub open spec fn color_of_word(w: Seq<char>) -> Option<ChalkColor> {
    if w == "black"@ {
        Some(rgb(0, 0, 0))
    } else if w == "white"@ {
        Some(rgb(255, 255, 255))
    } else if w == "red"@ {
        Some(rgb(226, 75, 74))
    } else if w == "green"@ {
        Some(rgb(74, 181, 87))
    } else if w == "blue"@ {
        Some(rgb(55, 138, 221))
    } else {
        None
    }
}

fn hex_value_of(b: u8) -> (r: Option<u8>)
    ensures
        r == hex_value(b),
{
    if 48 <= b && b <= 57 {
        Some(b - 48)
    } else if 97 <= b && b <= 102 {
        Some(b - 87)
    } else if 65 <= b && b <= 70 {
        Some(b - 55)
    } else {
        None
    }
}

fn parse_pair_of(b0: u8, b1: u8) -> (r: Option<u8>)
    ensures
        r == parse_pair(b0, b1),
{
    if b0 == 43 {
        hex_value_of(b1)
    } else {
        match (hex_value_of(b0), hex_value_of(b1)) {
            (Some(h), Some(l)) => Some(16 * h + l),
            _ => None,
        }
    }
}

fn hex_digit_str(d: u8) -> (r: &'static str)
    requires
        d < 16,
    ensures
        r@ == seq![hex_digit(d)],
{
    match d {
        0 => { proof { reveal_strlit("0"); } "0" },
        1 => { proof { reveal_strlit("1"); } "1" },
        2 => { proof { reveal_strlit("2"); } "2" },
        3 => { proof { reveal_strlit("3"); } "3" },
        4 => { proof { reveal_strlit("4"); } "4" },
        5 => { proof { reveal_strlit("5"); } "5" },
        6 => { proof { reveal_strlit("6"); } "6" },
        7 => { proof { reveal_strlit("7"); } "7" },
        8 => { proof { reveal_strlit("8"); } "8" },
        9 => { proof { reveal_strlit("9"); } "9" },
        10 => { proof { reveal_strlit("A"); } "A" },
        11 => { proof { reveal_strlit("B"); } "B" },
        12 => { proof { reveal_strlit("C"); } "C" },
        13 => { proof { reveal_strlit("D"); } "D" },
        14 => { proof { reveal_strlit("E"); } "E" },
        _ => { proof { reveal_strlit("F"); } "F" },
    }
}

proof fn lemma_hex_digit_roundtrip(d: u8)
    requires
        d < 16,
    ensures
        hex_digit(d) as u8 != 35,
        hex_digit(d) as u8 != 43,
        '\0' <= hex_digit(d) <= '\u{7f}',
        hex_value(hex_digit(d) as u8) == Some(d),
{
}

/// Printing a colour as hex and parsing it back gives the same colour.
pub proof fn law_hex_roundtrip(c: ChalkColor)
    ensures
        hex_fields_cut_cleanly(encode_utf8(hex_text(c))),
        color_of_hex(encode_utf8(hex_text(c))) == Some(c),
{
    let t = hex_text(c);
    lemma_hex_digit_roundtrip(c.r / 16);
    lemma_hex_digit_roundtrip(c.r % 16);
    lemma_hex_digit_roundtrip(c.g / 16);
    lemma_hex_digit_roundtrip(c.g % 16);
    lemma_hex_digit_roundtrip(c.b / 16);
    lemma_hex_digit_roundtrip(c.b % 16);
    assert(is_ascii_chars(t));
    is_ascii_chars_encode_utf8(t);
    let b = encode_utf8(t);
    assert(b.len() == 7);
    assert(b[0] == 35);
    assert(b.skip(1)[0] == b[1]);
    assert(b[1] != 35);
    assert(trim_hashes(b.skip(1)) == b.skip(1));
    assert(trim_hashes(b) == b.skip(1));
    assert(parse_pair(b[1], b[2]) == Some(c.r));
    assert(parse_pair(b[3], b[4]) == Some(c.g));
    assert(parse_pair(b[5], b[6]) == Some(c.b));
}

impl ChalkColor {
    /// Black.
    pub fn new() -> (r: Self)
        ensures
            r == rgb(0, 0, 0),
    {
        ChalkColor { r: 0, g: 0, b: 0 }
    }

    pub fn from_rgb(r: u8, g: u8, b: u8) -> (c: Self)
        ensures
            c == rgb(r, g, b),
    {
        ChalkColor { r, g, b }
    }

    /// Parses `#RRGGBB` (any number of leading `#`, digits in either case).
    pub fn from_hex(hex: &str) -> (r: Option<Self>)
        requires
            hex_fields_cut_cleanly(hex.spec_bytes()),
        ensures
            r == color_of_hex(hex.spec_bytes()),
    {
        let bytes = hex.as_bytes();
        let ghost all = bytes@;
        assert(all.skip(0) =~= all);
        let mut k: usize = 0;
        while k < bytes.len() && bytes[k] == 35
            invariant
                k <= bytes@.len(),
                bytes@ == all,
                trim_hashes(all) == trim_hashes(all.skip(k as int)),
            decreases bytes@.len() - k,
        {
            proof {
                assert(all.skip(k as int).skip(1) =~= all.skip(k + 1));
            }
            k += 1;
        }
        let ghost t = all.skip(k as int);
        assert(trim_hashes(t) == t);
        if bytes.len() - k != 6 {
            return None;
        }
        let r = match parse_pair_of(bytes[k], bytes[k + 1]) {
            Some(v) => v,
            None => { return None; },
        };
        let g = match parse_pair_of(bytes[k + 2], bytes[k + 3]) {
            Some(v) => v,
            None => { return None; },
        };
        let b = match parse_pair_of(bytes[k + 4], bytes[k + 5]) {
            Some(v) => v,
            None => { return None; },
        };
        Some(ChalkColor { r, g, b })
    }

    /// `#RRGGBB` with uppercase digits.
    pub fn to_hex(&self) -> (s: String)
        ensures
            s@ == hex_text(*self),
    {
        let mut s = String::from_str("#");
        proof { reveal_strlit("#"); }
        s.append(hex_digit_str(self.r / 16));
        s.append(hex_digit_str(self.r % 16));
        s.append(hex_digit_str(self.g / 16));
        s.append(hex_digit_str(self.g % 16));
        s.append(hex_digit_str(self.b / 16));
        s.append(hex_digit_str(self.b % 16));
        assert(s@ =~= hex_text(*self));
        s
    }

    /// The colour named by `word`, in any case: black, white, red, green or blue.
    pub fn from_word(word: &str) -> (r: Option<Self>)
        ensures
            r == color_of_word(lowercase(word@)),
    {
        let lower = to_lowercase(word);
        color_of_lower_word(lower.as_str())
    }
}

/// The colour named by a lowercase word: black, white, red, green or blue.
pub fn color_of_lower_word(w: &str) -> (r: Option<ChalkColor>)
    ensures
        r == color_of_word(w@),
{
    if str_eq(w, "black") {
        Some(ChalkColor::from_rgb(0, 0, 0))
    } else if str_eq(w, "white") {
        Some(ChalkColor::from_rgb(255, 255, 255))
    } else if str_eq(w, "red") {
        Some(ChalkColor::from_rgb(226, 75, 74))
    } else if str_eq(w, "green") {
        Some(ChalkColor::from_rgb(74, 181, 87))
    } else if str_eq(w, "blue") {
        Some(ChalkColor::from_rgb(55, 138, 221))
    } else {
        None
    }
}

/// A colour of the picker and the word that names it.
#[derive(Clone, Copy, Debug)]
pub struct NamedColor {
    pub name: &'static str,
    pub color: ChalkColor,
}

/// The picker's colours, in order, by name.
pub open spec fn named_colors() -> Seq<(Seq<char>, ChalkColor)> {
    seq![
        ("black"@, rgb(0, 0, 0)),
        ("white"@, rgb(255, 255, 255)),
        ("red"@, rgb(226, 75, 74)),
        ("green"@, rgb(74, 181, 87)),
        ("blue"@, rgb(55, 138, 221)),
    ]
}

/// The colours offered by the colour picker, each with its name.
pub fn colors() -> (r: Vec<NamedColor>)
    ensures
        r@.map_values(|e: NamedColor| (e.name@, e.color)) == named_colors(),
{
    let mut v: Vec<NamedColor> = Vec::new();
    v.push(NamedColor { name: "black", color: ChalkColor::from_rgb(0, 0, 0) });
    v.push(NamedColor { name: "white", color: ChalkColor::from_rgb(255, 255, 255) });
    v.push(NamedColor { name: "red", color: ChalkColor::from_rgb(226, 75, 74) });
    v.push(NamedColor { name: "green", color: ChalkColor::from_rgb(74, 181, 87) });
    v.push(NamedColor { name: "blue", color: ChalkColor::from_rgb(55, 138, 221) });
    assert(v@.map_values(|e: NamedColor| (e.name@, e.color)) =~= named_colors());
    v
}

/// Each colour of the picker is the colour its name stands for.
pub proof fn law_named_colors_match_words()
    ensures
        forall|i: int| 0 <= i < named_colors().len() ==> color_of_word(#[trigger] named_colors()[i].0) == Some(named_colors()[i].1),
{
    reveal_strlit("black");
    reveal_strlit("white");
    reveal_strlit("red");
    reveal_strlit("green");
    reveal_strlit("blue");
    assert(("black"@).len() == 5);
    assert(("white"@).len() == 5);
    assert(("red"@).len() == 3);
    assert(("green"@).len() == 5);
    assert(("blue"@).len() == 4);
    assert(("black"@)[0] == 'b' && ("white"@)[0] == 'w' && ("green"@)[0] == 'g');
    assert forall|i: int| 0 <= i < named_colors().len() implies color_of_word(#[trigger] named_colors()[i].0) == Some(named_colors()[i].1) by {
        assert(0 <= i < 5);
    }
}

} // verus!
