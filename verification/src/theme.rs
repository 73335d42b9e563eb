//! Card colours.
//!
//! The theme is a set of `#rrggbb` / `#rrggbbaa` strings whose defaults are
//! the shipped palette. Colours are parsed to 8-bit
//! channels here; the renderer scales them to its own colour space.

use vstd::prelude::*;
use crate::text::{trim, trim_str};

verus! {

/// Colours as `#rrggbb` or `#rrggbbaa` strings (leading `#` optional).
/// Strings are used rather than numbers so a hand-edited config stays readable.
#[derive(Debug, Clone, PartialEq, Eq)]
pub struct Theme {
    /// Card background behind everything else.
    pub background: String,
    /// Placeholder square shown while a track has no cover art.
    pub art_bg: String,
    /// Track title, and also the transport glyphs.
    pub title: String,
    /// Artist line.
    pub subtitle: String,
    /// Unplayed portion of the progress bar.
    pub bar_bg: String,
    /// Played portion of the progress bar.
    pub bar_fg: String,
}

impl Default for Theme {
    fn default() -> (t: Self)
        ensures
            t.background@ == "#121217"@,
            t.art_bg@ == "#ffffff1a"@,
            t.title@ == "#fffffff5"@,
            t.subtitle@ == "#ffffff99"@,
            t.bar_bg@ == "#ffffff29"@,
            t.bar_fg@ == "#ffffffd9"@,
    {
        // The shipped palette.
        Theme {
            background: String::from_str("#121217"),
            art_bg: String::from_str("#ffffff1a"),
            title: String::from_str("#fffffff5"),
            subtitle: String::from_str("#ffffff99"),
            bar_bg: String::from_str("#ffffff29"),
            bar_fg: String::from_str("#ffffffd9"),
        }
    }
}

/// A colour as four 8-bit channels, alpha last.
#[derive(Debug, Clone, Copy, PartialEq, Eq, Structural)]
pub struct Rgba8 {
    pub r: u8,
    pub g: u8,
    pub b: u8,
    pub a: u8,
}

/// The value of a hexadecimal digit, either case.
pub open spec fn hex_value(c: int) -> Option<u8> {
    if 48 <= c <= 57 {
        Some((c - 48) as u8)
    } else if 97 <= c <= 102 {
        Some((c - 97 + 10) as u8)
    } else if 65 <= c <= 70 {
        Some((c - 65 + 10) as u8)
    } else {
        None
    }
}

pub fn hex_nibble(c: u8) -> (r: Option<u8>)
    ensures
        r == hex_value(c as int),
{
    if 48 <= c && c <= 57 {
        Some(c - 48)
    } else if 97 <= c && c <= 102 {
        Some(c - 97 + 10)
    } else if 65 <= c && c <= 70 {
        Some(c - 65 + 10)
    } else {
        None
    }
}

/// The hexadecimal value of a character.
pub open spec fn hex_of(c: char) -> Option<u8> {
    hex_value(c as u32 as int)
}

fn hex_char(c: char) -> (r: Option<u8>)
    ensures
        r == hex_of(c),
{
    let v: u32 = c as u32;
    if v < 256 {
        hex_nibble(v as u8)
    } else {
        None
    }
}

/// `str::trim_start_matches('#')`.
pub open spec fn strip_hashes(s: Seq<char>) -> Seq<char>
    decreases s.len(),
{
    if s.len() > 0 && s[0] == '#' {
        strip_hashes(s.drop_first())
    } else {
        s
    }
}

pub open spec fn all_hex(s: Seq<char>) -> bool {
    forall|i: int| 0 <= i < s.len() ==> (#[trigger] hex_of(s[i])) is Some
}

/// Two hex digits as one byte.
pub open spec fn byte_at(s: Seq<char>, i: int) -> u8 {
    (hex_of(s[i])->0 * 16 + hex_of(s[i + 1])->0) as u8
}

/// One hex digit doubled (`f` means `ff`).
pub open spec fn short_at(s: Seq<char>, i: int) -> u8 {
    (hex_of(s[i])->0 * 17) as u8
}

/// `#rgb`, `#rrggbb` or `#rrggbbaa`, after trimming whitespace and any
/// leading `#`. Anything else is `None`.
pub open spec fn parse_color_spec(s: Seq<char>) -> Option<Rgba8> {
    let t = strip_hashes(trim(s));
    if !all_hex(t) {
        None
    } else if t.len() == 3 {
        Some(Rgba8 { r: short_at(t, 0), g: short_at(t, 1), b: short_at(t, 2), a: 255 })
    } else if t.len() == 6 {
        Some(Rgba8 { r: byte_at(t, 0), g: byte_at(t, 2), b: byte_at(t, 4), a: 255 })
    } else if t.len() == 8 {
        Some(Rgba8 { r: byte_at(t, 0), g: byte_at(t, 2), b: byte_at(t, 4), a: byte_at(t, 6) })
    } else {
        None
    }
}

/// The value of a hexadecimal digit, 0 to 15.
pub open spec fn digit(c: char) -> int {
    hex_of(c)->0 as int
}

proof fn lemma_hex_digit_small(c: char)
    requires
        hex_of(c) is Some,
    ensures
        0 <= digit(c) < 16,
{
}

/// A colour is read channel by channel from its digits, in the order red,
/// green, blue, alpha: in `#rrggbbaa` and `#rrggbb` each channel is the
/// two-digit hexadecimal number of its own pair, in `#rgb` each digit is
/// doubled (`f` is 255), and a colour written without alpha is opaque.
/// Anything else is not a colour.
pub proof fn colours_read_their_digits_in_order(s: Seq<char>)
    ensures
        ({
            let t = strip_hashes(trim(s));
            let c = parse_color_spec(s);
            if all_hex(t) && t.len() == 8 {
                &&& c is Some
                &&& c->0.r as int == 16 * digit(t[0]) + digit(t[1])
                &&& c->0.g as int == 16 * digit(t[2]) + digit(t[3])
                &&& c->0.b as int == 16 * digit(t[4]) + digit(t[5])
                &&& c->0.a as int == 16 * digit(t[6]) + digit(t[7])
            } else if all_hex(t) && t.len() == 6 {
                &&& c is Some
                &&& c->0.r as int == 16 * digit(t[0]) + digit(t[1])
                &&& c->0.g as int == 16 * digit(t[2]) + digit(t[3])
                &&& c->0.b as int == 16 * digit(t[4]) + digit(t[5])
                &&& c->0.a == 255
            } else if all_hex(t) && t.len() == 3 {
                &&& c is Some
                &&& c->0.r as int == 17 * digit(t[0])
                &&& c->0.g as int == 17 * digit(t[1])
                &&& c->0.b as int == 17 * digit(t[2])
                &&& c->0.a == 255
            } else {
                c is None
            }
        }),
{
    let t = strip_hashes(trim(s));
    if all_hex(t) {
        assert forall|i: int| 0 <= i < t.len() implies 0 <= #[trigger] digit(t[i]) < 16 by {
            assert(hex_of(t[i]) is Some);
            lemma_hex_digit_small(t[i]);
        }
        if t.len() >= 3 {
            assert(0 <= digit(t[0]) < 16 && 0 <= digit(t[1]) < 16 && 0 <= digit(t[2]) < 16);
        }
        if t.len() >= 6 {
            assert(0 <= digit(t[3]) < 16 && 0 <= digit(t[4]) < 16 && 0 <= digit(t[5]) < 16);
        }
        if t.len() >= 8 {
            assert(0 <= digit(t[6]) < 16 && 0 <= digit(t[7]) < 16);
        }
    }
}

fn strip_hashes_str(s: &str) -> (r: String)
    ensures
        r@ == strip_hashes(s@),
{
    let n = s.unicode_len();
    let mut i: usize = 0;
    assert(s@.subrange(0, n as int) =~= s@);
    while i < n && s.get_char(i) == '#'
        invariant
            n == s@.len(),
            i <= n,
            strip_hashes(s@) == strip_hashes(s@.subrange(i as int, n as int)),
        decreases n - i,
    {
        assert(s@.subrange(i as int, n as int).drop_first() =~= s@.subrange(i + 1, n as int));
        i = i + 1;
    }
    crate::text::substring(s, i, n)
}

/// Parses `#rgb`, `#rrggbb` or `#rrggbbaa`. Returns `None` for anything else so
/// callers can fall back to the default instead of showing a wrong colour.
pub fn parse_color(s: &str) -> (r: Option<Rgba8>)
    ensures
        r == parse_color_spec(s@),
{
    let trimmed = trim_str(s);
    let t = strip_hashes_str(trimmed.as_str());
    let n = t.unicode_len();
    let mut digits: Vec<u8> = Vec::new();
    let mut i: usize = 0;
    while i < n
        invariant
            n == t@.len(),
            t@ == strip_hashes(trim(s@)),
            i <= n,
            digits@.len() == i,
            forall|k: int| 0 <= k < i ==> hex_of(t@[k]) == Some(#[trigger] digits@[k]),
        decreases n - i,
    {
        match hex_char(t.get_char(i)) {
            Some(d) => digits.push(d),
            None => {
                assert(hex_of(t@[i as int]) is None);
                assert(!all_hex(t@));
                return None;
            },
        }
        i = i + 1;
    }
    assert forall|k: int| 0 <= k < t@.len() implies (#[trigger] hex_of(t@[k])) is Some by {
        assert(hex_of(t@[k]) == Some(digits@[k]));
    }
    assert(all_hex(t@));
    if n == 3 {
        Some(Rgba8 { r: digits[0] * 17, g: digits[1] * 17, b: digits[2] * 17, a: 255 })
    } else if n == 6 {
        Some(
            Rgba8 {
                r: digits[0] * 16 + digits[1],
                g: digits[2] * 16 + digits[3],
                b: digits[4] * 16 + digits[5],
                a: 255,
            },
        )
    } else if n == 8 {
        Some(
            Rgba8 {
                r: digits[0] * 16 + digits[1],
                g: digits[2] * 16 + digits[3],
                b: digits[4] * 16 + digits[5],
                a: digits[6] * 16 + digits[7],
            },
        )
    } else {
        None
    }
}

/// What the renderer uses when neither a colour nor its default parses.
pub open spec fn white() -> Rgba8 {
    Rgba8 { r: 255, g: 255, b: 255, a: 255 }
}

/// A configured colour, else its default, else opaque white.
pub open spec fn pick_spec(v: Seq<char>, fallback: Seq<char>) -> Rgba8 {
    match parse_color_spec(v) {
        Some(c) => c,
        None => match parse_color_spec(fallback) {
            Some(c) => c,
            None => white(),
        },
    }
}

fn pick(v: &str, fallback: &str) -> (r: Rgba8)
    ensures
        r == pick_spec(v@, fallback@),
{
    match parse_color(v) {
        Some(c) => c,
        None => match parse_color(fallback) {
            Some(c) => c,
            None => Rgba8 { r: 255, g: 255, b: 255, a: 255 },
        },
    }
}

/// A theme with every colour already parsed, ready for the renderer. Invalid
/// entries fall back to the default palette, so a typo degrades to a working
/// card rather than an invisible one.
#[derive(Debug, Clone, Copy, PartialEq, Eq, Structural)]
pub struct Palette {
    pub background: Rgba8,
    pub art_bg: Rgba8,
    pub title: Rgba8,
    pub subtitle: Rgba8,
    pub bar_bg: Rgba8,
    pub bar_fg: Rgba8,
}

impl Palette {
    pub fn resolve(theme: &Theme) -> (p: Self)
        ensures
            p.background == pick_spec(theme.background@, "#121217"@),
            p.art_bg == pick_spec(theme.art_bg@, "#ffffff1a"@),
            p.title == pick_spec(theme.title@, "#fffffff5"@),
            p.subtitle == pick_spec(theme.subtitle@, "#ffffff99"@),
            p.bar_bg == pick_spec(theme.bar_bg@, "#ffffff29"@),
            p.bar_fg == pick_spec(theme.bar_fg@, "#ffffffd9"@),
    {
        let d = Theme::default();
        Palette {
            background: pick(theme.background.as_str(), d.background.as_str()),
            art_bg: pick(theme.art_bg.as_str(), d.art_bg.as_str()),
            title: pick(theme.title.as_str(), d.title.as_str()),
            subtitle: pick(theme.subtitle.as_str(), d.subtitle.as_str()),
            bar_bg: pick(theme.bar_bg.as_str(), d.bar_bg.as_str()),
            bar_fg: pick(theme.bar_fg.as_str(), d.bar_fg.as_str()),
        }
    }
}

impl Default for Palette {
    fn default() -> (p: Self)
        ensures
            p.background == pick_spec("#121217"@, "#121217"@),
            p.art_bg == pick_spec("#ffffff1a"@, "#ffffff1a"@),
            p.title == pick_spec("#fffffff5"@, "#fffffff5"@),
            p.subtitle == pick_spec("#ffffff99"@, "#ffffff99"@),
            p.bar_bg == pick_spec("#ffffff29"@, "#ffffff29"@),
            p.bar_fg == pick_spec("#ffffffd9"@, "#ffffffd9"@),
    {
        Self::resolve(&Theme::default())
    }
}

} // verus!
