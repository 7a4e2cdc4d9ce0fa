use vstd::prelude::*;

use crate::error::Error;
use crate::notification::Urgency;
use crate::text::{all_digits, digits_to_u32, digits_value, is_digit};

verus! {

/// Name of the default configuration file.
pub const DEFAULT_CONFIG: &'static str = "armesto.toml";

/// Window geometry.
#[derive(Debug, Clone, Copy, PartialEq, Eq, Structural)]
pub struct Geometry {
    /// Width of the window.
    pub width: u32,
    /// Height of the window.
    pub height: u32,
    /// X coordinate.
    pub x: u32,
    /// Y coordinate.
    pub y: u32,
}

/// End of the run of digits that starts at `i`.
pub open spec fn digit_run_end(s: Seq<char>, i: int) -> int
    decreases s.len() - i,
{
    if 0 <= i < s.len() && is_digit(s[i]) {
        digit_run_end(s, i + 1)
    } else {
        i
    }
}

/// The number that starts at `p`, with the index after it: an optional plus
/// sign, then one to ten digits whose value fits in 32 bits.
pub open spec fn number_at(s: Seq<char>, p: int) -> Option<(u32, int)> {
    let q = if p < s.len() && s[p] == '+' {
        p + 1
    } else {
        p
    };
    let e = digit_run_end(s, q);
    if 1 <= e - q <= 10 && digits_value(s.subrange(q, e)) <= u32::MAX {
        Some((digits_value(s.subrange(q, e)) as u32, e))
    } else {
        None
    }
}

/// Whether the character at `p` is `c`.
pub open spec fn char_at(s: Seq<char>, p: int, c: char) -> bool {
    0 <= p < s.len() && s[p] == c
}

/// The geometry that a text `WIDTHxHEIGHT+X+Y` denotes.
pub open spec fn geometry_of(s: Seq<char>) -> Option<Geometry> {
    match number_at(s, 0) {
        Some((width, end_w)) => if char_at(s, end_w, 'x') {
            match number_at(s, end_w + 1) {
                Some((height, end_h)) => if char_at(s, end_h, '+') {
                    match number_at(s, end_h + 1) {
                        Some((x, end_x)) => if char_at(s, end_x, '+') {
                            match number_at(s, end_x + 1) {
                                Some((y, end_y)) => if end_y == s.len() {
                                    Some(Geometry { width, height, x, y })
                                } else {
                                    None
                                },
                                None => None,
                            }
                        } else {
                            None
                        },
                        None => None,
                    }
                } else {
                    None
                },
                None => None,
            }
        } else {
            None
        },
        None => None,
    }
}

/// Reads the number that starts at `p`.
fn number_from(s: &str, p: usize) -> (r: Option<(u32, usize)>)
    requires
        p <= s@.len(),
    ensures
        match r {
            Some((v, e)) => number_at(s@, p as int) == Some((v, e as int)) && e <= s@.len(),
            None => number_at(s@, p as int) is None,
        },
{
    let n = s.unicode_len();
    let q = if p < n && s.get_char(p) == '+' {
        p + 1
    } else {
        p
    };
    let mut e: usize = q;
    while e < n && digit_at(s, e)
        invariant
            n == s@.len(),
            q <= e <= n,
            digit_run_end(s@, q as int) == digit_run_end(s@, e as int),
            forall|k: int| q <= k < e ==> is_digit(#[trigger] s@[k]),
        decreases n - e,
    {
        e += 1;
    }
    if e - q < 1 || e - q > 10 {
        return None;
    }
    assert(all_digits(s@.subrange(q as int, e as int)));
    match digits_to_u32(s, q, e) {
        Some(v) => Some((v, e)),
        None => None,
    }
}

/// Whether the character at `p` is an ASCII digit.
fn digit_at(s: &str, p: usize) -> (r: bool)
    requires
        p < s@.len(),
    ensures
        r == is_digit(s@[p as int]),
{
    let c = s.get_char(p);
    '0' <= c && c <= '9'
}

/// Whether the character at `p` is `c`.
fn is_char_at(s: &str, p: usize, c: char) -> (r: bool)
    ensures
        r == char_at(s@, p as int, c),
{
    p < s.unicode_len() && s.get_char(p) == c
}

impl Geometry {
    /// Parses a geometry written `WIDTHxHEIGHT+X+Y`.
    pub fn parse(s: &str) -> (r: Result<Geometry, Error>)
        ensures
            match r {
                Ok(g) => geometry_of(s@) == Some(g),
                Err(e) => geometry_of(s@) is None && e is Geometry && e->Geometry_0@ == s@,
            },
    {
        let n = s.unicode_len();
        let (width, end_w) = match number_from(s, 0) {
            Some(f) => f,
            None => return Err(Error::Geometry(String::from_str(s))),
        };
        if !is_char_at(s, end_w, 'x') {
            return Err(Error::Geometry(String::from_str(s)));
        }
        let (height, end_h) = match number_from(s, end_w + 1) {
            Some(f) => f,
            None => return Err(Error::Geometry(String::from_str(s))),
        };
        if !is_char_at(s, end_h, '+') {
            return Err(Error::Geometry(String::from_str(s)));
        }
        let (x, end_x) = match number_from(s, end_h + 1) {
            Some(f) => f,
            None => return Err(Error::Geometry(String::from_str(s))),
        };
        if !is_char_at(s, end_x, '+') {
            return Err(Error::Geometry(String::from_str(s)));
        }
        let (y, end_y) = match number_from(s, end_x + 1) {
            Some(f) => f,
            None => return Err(Error::Geometry(String::from_str(s))),
        };
        if end_y != n {
            return Err(Error::Geometry(String::from_str(s)));
        }
        Ok(Geometry { width, height, x, y })
    }
}

impl std::str::FromStr for Geometry {
    type Err = Error;

    fn from_str(s: &str) -> (r: Result<Self, Self::Err>)
        ensures
            match r {
                Ok(g) => geometry_of(s@) == Some(g),
                Err(e) => geometry_of(s@) is None && e is Geometry && e->Geometry_0@ == s@,
            },
    {
        Geometry::parse(s)
    }
}

/// Global configuration.
#[derive(Debug)]
pub struct GlobalConfig {
    /// Geometry of the notification window.
    pub geometry: Geometry,
    /// Text font.
    pub font: String,
}

/// An ASCII hexadecimal digit.
pub open spec fn is_hex_digit(c: char) -> bool {
    ('0' <= c && c <= '9') || ('a' <= c && c <= 'f') || ('A' <= c && c <= 'F')
}

/// The value of a hexadecimal digit.
pub open spec fn hex_value(c: char) -> int {
    if '0' <= c && c <= '9' {
        c as int - '0' as int
    } else if 'a' <= c && c <= 'f' {
        c as int - 'a' as int + 10
    } else {
        c as int - 'A' as int + 10
    }
}

/// The digits of a color text: the text without its `#` signs.
pub open spec fn hex_digits(s: Seq<char>) -> Seq<char> {
    s.filter(|c: char| c != '#')
}

/// The red, green and blue channels that a hexadecimal color text denotes:
/// `#` signs anywhere, and three digits (each doubled) or six, the sixth
/// being the last character.
pub open spec fn hex_color(s: Seq<char>) -> Option<(u8, u8, u8)> {
    let d = hex_digits(s);
    if (forall|i: int| 0 <= i < s.len() ==> s[i] == '#' || is_hex_digit(#[trigger] s[i])) && (
    d.len() == 3 || (d.len() == 6 && s.last() != '#')) {
        if d.len() == 3 {
            Some(
                (
                    (17 * hex_value(d[0])) as u8,
                    (17 * hex_value(d[1])) as u8,
                    (17 * hex_value(d[2])) as u8,
                ),
            )
        } else {
            Some(
                (
                    (16 * hex_value(d[0]) + hex_value(d[1])) as u8,
                    (16 * hex_value(d[2]) + hex_value(d[3])) as u8,
                    (16 * hex_value(d[4]) + hex_value(d[5])) as u8,
                ),
            )
        }
    } else {
        None
    }
}

/// Relies on colorsys's `Rgb::from_hex_str` and its conversion to `[u8; 3]`:
/// the channels of a hexadecimal color text, or nothing when it is not one.
#[verifier::external_body]
fn rgb_from_hex(s: &str) -> (r: Option<(u8, u8, u8)>)
    ensures
        r == hex_color(s@),
{
    match colorsys::Rgb::from_hex_str(s) {
        Ok(rgb) => {
            let [red, green, blue]: [u8; 3] = rgb.into();
            Some((red, green, blue))
        },
        Err(_) => None,
    }
}

/// A color, by its red, green and blue channels.
#[derive(Debug, Clone, Copy, PartialEq, Eq, Structural)]
pub struct Color {
    pub red: u8,
    pub green: u8,
    pub blue: u8,
}

impl Color {
    /// Reads a hexadecimal color such as `#1e90ff` or `#fff`.
    pub fn from_hex_str(s: &str) -> (r: Result<Color, Error>)
        ensures
            match hex_color(s@) {
                Some((red, green, blue)) => r == Ok::<Color, Error>(Color { red, green, blue }),
                None => r is Err && r->Err_0 is Color && r->Err_0->Color_0@ == s@,
            },
    {
        match rgb_from_hex(s) {
            Some((red, green, blue)) => Ok(Color { red, green, blue }),
            None => Err(Error::Color(String::from_str(s))),
        }
    }
}

/// Urgency configuration.
#[derive(Debug, Clone, Copy, PartialEq, Eq, Structural)]
pub struct UrgencyConfig {
    /// Background color.
    pub background: Color,
    /// Foreground color.
    pub foreground: Color,
    /// Timeout value.
    pub timeout: u32,
}

/// Configuration.
#[derive(Debug)]
pub struct Config {
    /// Global configuration.
    pub global: GlobalConfig,
    /// Configuration for low urgency.
    pub urgency_low: UrgencyConfig,
    /// Configuration for normal urgency.
    pub urgency_normal: UrgencyConfig,
    /// Configuration for critical urgency.
    pub urgency_critical: UrgencyConfig,
}

impl Config {
    /// Returns the configuration for the given urgency.
    pub fn get_urgency_config(&self, urgency: &Urgency) -> (r: UrgencyConfig)
        ensures
            r == match *urgency {
                Urgency::Low => self.urgency_low,
                Urgency::Normal => self.urgency_normal,
                Urgency::Critical => self.urgency_critical,
            },
    {
        match urgency {
            Urgency::Low => self.urgency_low,
            Urgency::Normal => self.urgency_normal,
            Urgency::Critical => self.urgency_critical,
        }
    }
}

} // verus!
