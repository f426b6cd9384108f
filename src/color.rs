use vstd::prelude::*;

verus! {

/// The upper-case hexadecimal digit for a value below sixteen.
pub open spec fn hex_char(d: u8) -> char
    recommends
        d < 16,
{
    if d < 10 {
        (('0' as u8) + d) as char
    } else {
        (('A' as u8) + (d - 10)) as char
    }
}

/// The two upper-case hexadecimal digits of a byte, high nibble first.
pub open spec fn hex_byte(b: u8) -> Seq<char> {
    seq![hex_char(b / 16), hex_char(b % 16)]
}

/// The value of an upper-case hexadecimal digit.
pub open spec fn hex_value(c: char) -> int {
    if '0' <= c && c <= '9' {
        (c as int) - ('0' as int)
    } else {
        (c as int) - ('A' as int) + 10
    }
}

/// The colour that `#RRGGBB` text stands for.
pub open spec fn parse_color_text(t: Seq<char>) -> Seq<int> {
    seq![
        hex_value(t[1]) * 16 + hex_value(t[2]),
        hex_value(t[3]) * 16 + hex_value(t[4]),
        hex_value(t[5]) * 16 + hex_value(t[6]),
    ]
}

/// Each digit reads back as its value.
proof fn lemma_hex_digit_round_trip(d: u8)
    requires
        d < 16,
    ensures
        hex_value(hex_char(d)) == d,
{
}

/// Reading the colour text back gives the colour's three bytes.
pub proof fn lemma_color_text_round_trip(rgb: Seq<u8>)
    requires
        rgb.len() == 3,
    ensures
        color_text(rgb).len() == 7,
        parse_color_text(color_text(rgb)) == rgb.map_values(|b: u8| b as int),
{
    let t = color_text(rgb);
    assert forall|i: int| 0 <= i < 3 implies hex_value(#[trigger] hex_byte(rgb[i])[0]) * 16
        + hex_value(hex_byte(rgb[i])[1]) == rgb[i] as int by {
        lemma_hex_digit_round_trip(rgb[i] / 16);
        lemma_hex_digit_round_trip(rgb[i] % 16);
    }
    assert(t[1] == hex_byte(rgb[0])[0] && t[2] == hex_byte(rgb[0])[1]);
    assert(t[3] == hex_byte(rgb[1])[0] && t[4] == hex_byte(rgb[1])[1]);
    assert(t[5] == hex_byte(rgb[2])[0] && t[6] == hex_byte(rgb[2])[1]);
    assert(parse_color_text(t) =~= rgb.map_values(|b: u8| b as int));
}

/// `#RRGGBB` for a colour given as red, green and blue bytes.
pub open spec fn color_text(rgb: Seq<u8>) -> Seq<char>
    recommends
        rgb.len() == 3,
{
    seq!['#'] + hex_byte(rgb[0]) + hex_byte(rgb[1]) + hex_byte(rgb[2])
}

fn hex_digit(d: u8) -> (r: &'static str)
    requires
        d < 16,
    ensures
        r@ == seq![hex_char(d)],
{
    if d == 0 { proof { reveal_strlit("0"); } "0" }
    else if d == 1 { proof { reveal_strlit("1"); } "1" }
    else if d == 2 { proof { reveal_strlit("2"); } "2" }
    else if d == 3 { proof { reveal_strlit("3"); } "3" }
    else if d == 4 { proof { reveal_strlit("4"); } "4" }
    else if d == 5 { proof { reveal_strlit("5"); } "5" }
    else if d == 6 { proof { reveal_strlit("6"); } "6" }
    else if d == 7 { proof { reveal_strlit("7"); } "7" }
    else if d == 8 { proof { reveal_strlit("8"); } "8" }
    else if d == 9 { proof { reveal_strlit("9"); } "9" }
    else if d == 10 { proof { reveal_strlit("A"); } "A" }
    else if d == 11 { proof { reveal_strlit("B"); } "B" }
    else if d == 12 { proof { reveal_strlit("C"); } "C" }
    else if d == 13 { proof { reveal_strlit("D"); } "D" }
    else if d == 14 { proof { reveal_strlit("E"); } "E" }
    else { proof { reveal_strlit("F"); } "F" }
}

fn push_hex_byte(s: &mut String, b: u8)
    ensures
        final(s)@ == old(s)@ + hex_byte(b),
{
    s.append(hex_digit(b / 16));
    s.append(hex_digit(b % 16));
    assert(final(s)@ =~= old(s)@ + hex_byte(b));
}

/// Encodes a colour as `#RRGGBB` with upper-case hexadecimal digits.
pub fn encode_color(rgb: [u8; 3]) -> (r: String)
    ensures
        r@ == color_text(rgb@),
{
    proof { reveal_strlit("#"); }
    let mut s = String::from_str("#");
    push_hex_byte(&mut s, rgb[0]);
    push_hex_byte(&mut s, rgb[1]);
    push_hex_byte(&mut s, rgb[2]);
    assert(s@ =~= color_text(rgb@));
    s
}

/// The fill of a triangle: its colour as `#RRGGBB`, or `none` when it is
/// only outlined.
pub fn fill_attr(color: Option<[u8; 3]>) -> (r: String)
    ensures
        color matches Some(c) ==> r@ == color_text(c@),
        color is None ==> r@ == seq!['n', 'o', 'n', 'e'],
{
    match color {
        Some(c) => encode_color(c),
        None => {
            proof { reveal_strlit("none"); }
            String::from_str("none")
        },
    }
}

/// The stroke of a triangle: `none` for a filled one, solid black for an
/// outline.
pub fn stroke_attr(color: Option<[u8; 3]>) -> (r: String)
    ensures
        color is Some ==> r@ == seq!['n', 'o', 'n', 'e'],
        color is None ==> r@ == color_text(seq![0u8, 0u8, 0u8]),
{
    match color {
        Some(_) => {
            proof { reveal_strlit("none"); }
            String::from_str("none")
        },
        None => encode_color([0u8, 0u8, 0u8]),
    }
}

} // verus!
