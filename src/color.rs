use vstd::prelude::*;
use vstd::string::StringExecFns;

verus! {

/// A color as three 8-bit channels, without alpha.
#[derive(Clone, Copy, Debug, PartialEq, Eq, Structural)]
pub struct Rgb {
    pub red: u8,
    pub green: u8,
    pub blue: u8,
}

/// How much the channel-shift takes off each channel for `amount` percent:
/// `floor(255 * -amount / 100)`. Division by a positive number in spec code
/// rounds toward negative infinity, so this is the floor.
pub open spec fn shift_delta(amount: int) -> int {
    (-255 * amount) / 100
}

/// Clamps an integer into the range of a channel.
pub open spec fn clamp_channel(v: int) -> u8 {
    if v < 0 {
        0
    } else if v > 255 {
        255
    } else {
        v as u8
    }
}

pub open spec fn shift_channel(c: u8, amount: int) -> u8 {
    clamp_channel(c - shift_delta(amount))
}

/// The channel-shift formula applied to each channel: a negative amount
/// darkens, a positive one brightens.
pub open spec fn shifted(c: Rgb, amount: int) -> Rgb {
    Rgb {
        red: shift_channel(c.red, amount),
        green: shift_channel(c.green, amount),
        blue: shift_channel(c.blue, amount),
    }
}

/// Brightening and darkening by the channel-shift formula.
pub trait RgbExt: Sized {
    /// The color after a shift by `amount` percent.
    spec fn brightened(&self, amount: int) -> Self;

    /// Brightens the color by `amount` percent, or darkens it where `amount`
    /// is negative. Unlike an HSL lightness change this moves the three
    /// channels by the same step, so the hue does not drift.
    fn brigthen(&mut self, amount: i32)
        ensures
            *final(self) == old(self).brightened(amount as int),
    ;
}

fn floor_div_100(p: i64) -> (q: i64)
    requires
        -1_000_000_000_000 <= p <= 1_000_000_000_000,
    ensures
        q == p as int / 100,
{
    if p >= 0 {
        p / 100
    } else {
        let n: i64 = -p;
        let q: i64 = -((n + 99) / 100);
        assert(q == p as int / 100) by (nonlinear_arith)
            requires
                n == -p,
                n > 0,
                q == -((n + 99) / 100),
        ;
        q
    }
}

fn shift_one(c: u8, delta: i64) -> (r: u8)
    requires
        -1_000_000_000_000 <= delta <= 1_000_000_000_000,
    ensures
        r == clamp_channel(c - delta),
{
    let v: i64 = c as i64 - delta;
    if v < 0 {
        0
    } else if v > 255 {
        255
    } else {
        v as u8
    }
}

impl RgbExt for Rgb {
    open spec fn brightened(&self, amount: int) -> Rgb {
        shifted(*self, amount)
    }

    fn brigthen(&mut self, amount: i32) {
        let a: i64 = amount as i64;
        assert(-1_000_000_000_000 <= -255 * a <= 1_000_000_000_000) by (nonlinear_arith)
            requires
                i32::MIN <= a <= i32::MAX,
        ;
        let delta = floor_div_100(-255 * a);
        self.red = shift_one(self.red, delta);
        self.green = shift_one(self.green, delta);
        self.blue = shift_one(self.blue, delta);
    }
}

/// Each channel of `n` is below that of `o`, or both are 0.
pub open spec fn darker_or_floor(n: Rgb, o: Rgb) -> bool {
    &&& (n.red < o.red || n.red == o.red == 0)
    &&& (n.green < o.green || n.green == o.green == 0)
    &&& (n.blue < o.blue || n.blue == o.blue == 0)
}

/// Each channel of `n` is above that of `o`, or both are 255.
pub open spec fn brighter_or_ceiling(n: Rgb, o: Rgb) -> bool {
    &&& (n.red > o.red || n.red == o.red == 255)
    &&& (n.green > o.green || n.green == o.green == 255)
    &&& (n.blue > o.blue || n.blue == o.blue == 255)
}

/// Darkening by one percent takes two off every channel, stopping at 0.
pub proof fn lemma_darken_decreases(c: Rgb)
    ensures
        darker_or_floor(shifted(c, -1), c),
        shift_delta(-1) == 2,
{
    assert(shift_delta(-1) == 2);
}

/// Brightening by one percent adds three to every channel, stopping at 255.
pub proof fn lemma_brighten_increases(c: Rgb)
    ensures
        brighter_or_ceiling(shifted(c, 1), c),
        shift_delta(1) == -3,
{
    assert(shift_delta(1) == -3);
}

// ---------------------------------------------------------------------------
// Hexadecimal text

/// The lower-case hex digit for a value below 16.
pub open spec fn hex_char(d: int) -> char {
    if d == 0 { '0' }
    else if d == 1 { '1' }
    else if d == 2 { '2' }
    else if d == 3 { '3' }
    else if d == 4 { '4' }
    else if d == 5 { '5' }
    else if d == 6 { '6' }
    else if d == 7 { '7' }
    else if d == 8 { '8' }
    else if d == 9 { '9' }
    else if d == 10 { 'a' }
    else if d == 11 { 'b' }
    else if d == 12 { 'c' }
    else if d == 13 { 'd' }
    else if d == 14 { 'e' }
    else { 'f' }
}

/// A color as six lower-case hex digits, without a leading `#`.
pub open spec fn hex6(c: Rgb) -> Seq<char> {
    seq![
        hex_char((c.red / 16) as int),
        hex_char((c.red % 16) as int),
        hex_char((c.green / 16) as int),
        hex_char((c.green % 16) as int),
        hex_char((c.blue / 16) as int),
        hex_char((c.blue % 16) as int),
    ]
}

pub open spec fn is_hex_digit(c: char) -> bool {
    ('0' <= c && c <= '9') || ('a' <= c && c <= 'f') || ('A' <= c && c <= 'F')
}

pub open spec fn hex_value(c: char) -> int {
    if '0' <= c && c <= '9' {
        c as int - '0' as int
    } else if 'a' <= c && c <= 'f' {
        c as int - 'a' as int + 10
    } else {
        c as int - 'A' as int + 10
    }
}

/// The text with every `#` taken out.
pub open spec fn strip_hashes(s: Seq<char>) -> Seq<char>
    decreases s.len(),
{
    if s.len() == 0 {
        s
    } else if s.last() == '#' {
        strip_hashes(s.drop_last())
    } else {
        strip_hashes(s.drop_last()).push(s.last())
    }
}

/// Text that reads as a color: only hex digits and `#` marks, with three or
/// six digits, and nothing after the sixth digit.
pub open spec fn well_formed_hex(s: Seq<char>) -> bool {
    let d = strip_hashes(s);
    &&& forall|i: int| 0 <= i < s.len() ==> s[i] == '#' || is_hex_digit(#[trigger] s[i])
    &&& (d.len() == 3 || (d.len() == 6 && is_hex_digit(s.last())))
}

pub open spec fn hex_byte(d: Seq<char>, i: int) -> int {
    16 * hex_value(d[i]) + hex_value(d[i + 1])
}

/// The color that well-formed hex text denotes; three digits stand for six,
/// each digit doubled.
pub open spec fn hex_color(s: Seq<char>) -> Rgb {
    let d = strip_hashes(s);
    if d.len() == 3 {
        Rgb {
            red: (17 * hex_value(d[0])) as u8,
            green: (17 * hex_value(d[1])) as u8,
            blue: (17 * hex_value(d[2])) as u8,
        }
    } else {
        Rgb {
            red: hex_byte(d, 0) as u8,
            green: hex_byte(d, 2) as u8,
            blue: hex_byte(d, 4) as u8,
        }
    }
}

/// The text without one leading `#`, if it has one.
pub open spec fn without_mark(s: Seq<char>) -> Seq<char> {
    if s.len() > 0 && s[0] == '#' {
        s.drop_first()
    } else {
        s
    }
}

/// Text that reads as a color with alpha: an optional `#` and then eight hex
/// digits, red, green, blue and alpha.
pub open spec fn well_formed_alpha_hex(s: Seq<char>) -> bool {
    let d = without_mark(s);
    &&& d.len() == 8
    &&& forall|i: int| 0 <= i < 8 ==> is_hex_digit(#[trigger] d[i])
}

/// The value of an ASCII hex digit, if `c` is one.
pub fn hex_digit_value(c: char) -> (r: Option<u8>)
    ensures
        r is Some <==> is_hex_digit(c),
        r is Some ==> r->0 as int == hex_value(c),
{
    if '0' <= c && c <= '9' {
        Some((c as u32 - '0' as u32) as u8)
    } else if 'a' <= c && c <= 'f' {
        Some((c as u32 - 'a' as u32 + 10) as u8)
    } else if 'A' <= c && c <= 'F' {
        Some((c as u32 - 'A' as u32 + 10) as u8)
    } else {
        None
    }
}

fn hex_digit_str(d: u8) -> (r: &'static str)
    requires
        d < 16,
    ensures
        r@ == seq![hex_char(d as int)],
{
    if d == 0 { proof { reveal_strlit("0"); } "0" }
    else if d == 1 { proof { reveal_strlit("1"); } "1" }
    else if d == 2 { proof { reveal_strlit("2"); } "2" }
    else if d == 3 { proof { reveal_strlit("3"); } "3" }
    else if d == 4 { proof { reveal_strlit("4"); } "4" }
    else if d == 5 { proof { reveal_strlit("5"); } "5" }
    else if d == 6 { proof { reveal_strlit("6"); } "6" }
    else if d == 7 { proof { reveal_strlit("7"); } "7" }
    else if d == 8 { proof { reveal_strlit("8"); } "8" }
    else if d == 9 { proof { reveal_strlit("9"); } "9" }
    else if d == 10 { proof { reveal_strlit("a"); } "a" }
    else if d == 11 { proof { reveal_strlit("b"); } "b" }
    else if d == 12 { proof { reveal_strlit("c"); } "c" }
    else if d == 13 { proof { reveal_strlit("d"); } "d" }
    else if d == 14 { proof { reveal_strlit("e"); } "e" }
    else { proof { reveal_strlit("f"); } "f" }
}

impl Rgb {
    /// The color as six lower-case hex digits, with no leading `#`.
    pub fn to_hex_string(&self) -> (r: String)
        ensures
            r@ == hex6(*self),
    {
        let mut s = String::new();
        s.append(hex_digit_str(self.red / 16));
        s.append(hex_digit_str(self.red % 16));
        s.append(hex_digit_str(self.green / 16));
        s.append(hex_digit_str(self.green % 16));
        s.append(hex_digit_str(self.blue / 16));
        s.append(hex_digit_str(self.blue % 16));
        assert(s@ =~= hex6(*self));
        s
    }
}

} // verus!

verus! {

proof fn lemma_hex_digit_round_trip(d: int)
    requires
        0 <= d < 16,
    ensures
        is_hex_digit(hex_char(d)),
        hex_value(hex_char(d)) == d,
{
}

proof fn lemma_strip_without_hashes(s: Seq<char>)
    requires
        forall|i: int| 0 <= i < s.len() ==> s[i] != '#',
    ensures
        strip_hashes(s) == s,
    decreases s.len(),
{
    if s.len() > 0 {
        lemma_strip_without_hashes(s.drop_last());
        assert(s.drop_last().push(s.last()) =~= s);
    }
}

/// Six hex digits written for a color read back as that same color.
pub proof fn lemma_hex_round_trip(c: Rgb)
    ensures
        well_formed_hex(hex6(c)),
        hex_color(hex6(c)) == c,
{
    let s = hex6(c);
    lemma_hex_digit_round_trip((c.red / 16) as int);
    lemma_hex_digit_round_trip((c.red % 16) as int);
    lemma_hex_digit_round_trip((c.green / 16) as int);
    lemma_hex_digit_round_trip((c.green % 16) as int);
    lemma_hex_digit_round_trip((c.blue / 16) as int);
    lemma_hex_digit_round_trip((c.blue % 16) as int);
    assert(forall|i: int| 0 <= i < s.len() ==> s[i] != '#' && is_hex_digit(#[trigger] s[i]));
    lemma_strip_without_hashes(s);
}

/// Reading well-formed hex text gives the same channels as writing the color
/// it denotes back out as hex and reading that.
pub proof fn lemma_parse_format_parse(s: Seq<char>)
    requires
        well_formed_hex(s),
    ensures
        well_formed_hex(hex6(hex_color(s))),
        hex_color(hex6(hex_color(s))) == hex_color(s),
{
    lemma_hex_round_trip(hex_color(s));
}

} // verus!
