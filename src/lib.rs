//! Recognizers for the ABNF core rules of RFC 5234, appendix B.1.
//!
//! The classifiers in this file decide membership of one input unit in a
//! character class. The recognizers built on them live in [`rules`], and
//! [`complete`] and [`streaming`] fix the end-of-input policy.
//!
//! See <https://tools.ietf.org/html/rfc5234#appendix-B.1>

pub mod class;
pub mod complete;
pub mod cursor;
pub mod laws;
pub mod rules;
pub mod streaming;

use vstd::prelude::*;

verus! {

/// An input unit (a byte or a character) with its canonical code point.
///
/// Every classifier is written once against the code point, so that byte
/// input and character input share it.
pub trait Unit: Sized + Copy {
    /// The code point this unit stands for.
    spec fn code_point(&self) -> u32;

    /// Returns the code point of this unit.
    fn code(&self) -> (r: u32)
        ensures
            r == self.code_point(),
    ;

    /// Returns this unit as a character.
    fn as_char(&self) -> (r: char)
        ensures
            r as u32 == self.code_point(),
    ;
}

impl Unit for u8 {
    open spec fn code_point(&self) -> u32 {
        *self as u32
    }

    fn code(&self) -> (r: u32) {
        *self as u32
    }

    fn as_char(&self) -> (r: char) {
        *self as char
    }
}

impl Unit for char {
    open spec fn code_point(&self) -> u32 {
        *self as u32
    }

    fn code(&self) -> (r: u32) {
        *self as u32
    }

    fn as_char(&self) -> (r: char) {
        *self
    }
}

/// ALPHA = %x41-5A / %x61-7A
pub open spec fn alpha_code(c: u32) -> bool {
    (0x41 <= c <= 0x5A) || (0x61 <= c <= 0x7A)
}

/// BIT = %x30 / %x31
pub open spec fn bit_code(c: u32) -> bool {
    c == 0x30 || c == 0x31
}

/// CHAR = %x01-7F
pub open spec fn char_code(c: u32) -> bool {
    0x01 <= c <= 0x7F
}

/// CR = %x0D
pub open spec fn cr_code(c: u32) -> bool {
    c == 0x0D
}

/// CTL = %x00-1F / %x7F
pub open spec fn ctl_code(c: u32) -> bool {
    c <= 0x1F || c == 0x7F
}

/// DIGIT = %x30-39
pub open spec fn digit_code(c: u32) -> bool {
    0x30 <= c <= 0x39
}

/// DQUOTE = %x22
pub open spec fn dquote_code(c: u32) -> bool {
    c == 0x22
}

/// HEXDIG = DIGIT / "A" / "B" / "C" / "D" / "E" / "F", where ABNF strings
/// are case-insensitive, so "a" to "f" count as well.
pub open spec fn hexdig_code(c: u32) -> bool {
    digit_code(c) || (0x41 <= c <= 0x46) || (0x61 <= c <= 0x66)
}

/// HTAB = %x09
pub open spec fn htab_code(c: u32) -> bool {
    c == 0x09
}

/// LF = %x0A
pub open spec fn lf_code(c: u32) -> bool {
    c == 0x0A
}

/// OCTET = %x00-FF
pub open spec fn octet_code(c: u32) -> bool {
    c <= 0xFF
}

/// SP = %x20
pub open spec fn sp_code(c: u32) -> bool {
    c == 0x20
}

/// VCHAR = %x21-7E
pub open spec fn vchar_code(c: u32) -> bool {
    0x21 <= c <= 0x7E
}

/// WSP = SP / HTAB
pub open spec fn wsp_code(c: u32) -> bool {
    sp_code(c) || htab_code(c)
}

/// The punctuation that TCHAR admits besides DIGIT and ALPHA:
/// "!" / "#" / "$" / "%" / "&" / "'" / "*" / "+" / "-" / "." / "^" / "_" / "`" / "|" / "~"
pub open spec fn tchar_mark_code(c: u32) -> bool {
    ||| c == 0x21
    ||| (0x23 <= c <= 0x27)
    ||| c == 0x2A
    ||| c == 0x2B
    ||| c == 0x2D
    ||| c == 0x2E
    ||| c == 0x5E
    ||| c == 0x5F
    ||| c == 0x60
    ||| c == 0x7C
    ||| c == 0x7E
}

/// TCHAR = "!" / "#" / "$" / "%" / "&" / "'" / "*" / "+" / "-" / "." / "^" / "_" / "`" / "|" / "~"
///       / DIGIT / ALPHA
pub open spec fn tchar_code(c: u32) -> bool {
    tchar_mark_code(c) || digit_code(c) || alpha_code(c)
}

/// A-Z / a-z
///
/// ALPHA = %x41-5A / %x61-7A
pub fn is_alpha<U: Unit>(c: U) -> (r: bool)
    ensures
        r == alpha_code(c.code_point()),
{
    let x = c.code();
    (0x41 <= x && x <= 0x5A) || (0x61 <= x && x <= 0x7A)
}

/// BIT = "0" / "1"
pub fn is_bit<U: Unit>(c: U) -> (r: bool)
    ensures
        r == bit_code(c.code_point()),
{
    let x = c.code();
    x == 0x30 || x == 0x31
}

/// Any 7-bit US-ASCII character, excluding NUL
///
/// CHAR = %x01-7F
pub fn is_char<U: Unit>(c: U) -> (r: bool)
    ensures
        r == char_code(c.code_point()),
{
    let x = c.code();
    0x01 <= x && x <= 0x7F
}

/// Carriage return
///
/// CR = %x0D
pub fn is_cr<U: Unit>(c: U) -> (r: bool)
    ensures
        r == cr_code(c.code_point()),
{
    c.code() == 0x0D
}

/// Controls
///
/// CTL = %x00-1F / %x7F
pub fn is_ctl<U: Unit>(c: U) -> (r: bool)
    ensures
        r == ctl_code(c.code_point()),
{
    let x = c.code();
    x <= 0x1F || x == 0x7F
}

/// 0-9
///
/// DIGIT = %x30-39
pub fn is_digit<U: Unit>(c: U) -> (r: bool)
    ensures
        r == digit_code(c.code_point()),
{
    let x = c.code();
    0x30 <= x && x <= 0x39
}

/// Double quote
///
/// DQUOTE = %x22
pub fn is_dquote<U: Unit>(c: U) -> (r: bool)
    ensures
        r == dquote_code(c.code_point()),
{
    c.code() == 0x22
}

/// HEXDIG = DIGIT / "A" / "B" / "C" / "D" / "E" / "F"
///
/// ABNF strings are case-insensitive, so "a" to "f" are accepted too.
pub fn is_hexdig<U: Unit>(c: U) -> (r: bool)
    ensures
        r == hexdig_code(c.code_point()),
{
    let x = c.code();
    (0x30 <= x && x <= 0x39) || (0x41 <= x && x <= 0x46) || (0x61 <= x && x <= 0x66)
}

/// Horizontal tab
///
/// HTAB = %x09
pub fn is_htab<U: Unit>(c: U) -> (r: bool)
    ensures
        r == htab_code(c.code_point()),
{
    c.code() == 0x09
}

/// Linefeed
///
/// LF = %x0A
pub fn is_lf<U: Unit>(c: U) -> (r: bool)
    ensures
        r == lf_code(c.code_point()),
{
    c.code() == 0x0A
}

/// 8 bits of data: every byte is one.
///
/// OCTET = %x00-FF
pub fn is_octet(b: u8) -> (r: bool)
    ensures
        r == octet_code(b as u32),
        r,
{
    true
}

/// Space
///
/// SP = %x20
pub fn is_sp<U: Unit>(c: U) -> (r: bool)
    ensures
        r == sp_code(c.code_point()),
{
    c.code() == 0x20
}

/// Visible (printing) characters
///
/// VCHAR = %x21-7E
pub fn is_vchar<U: Unit>(c: U) -> (r: bool)
    ensures
        r == vchar_code(c.code_point()),
{
    let x = c.code();
    0x21 <= x && x <= 0x7E
}

/// White space
///
/// WSP = SP / HTAB
pub fn is_wsp<U: Unit>(c: U) -> (r: bool)
    ensures
        r == wsp_code(c.code_point()),
{
    let x = c.code();
    x == 0x20 || x == 0x09
}

/// Token character
///
/// TCHAR = "!" / "#" / "$" / "%" / "&" / "'" / "*" / "+" / "-" / "." / "^" / "_" / "`" / "|" / "~"
///       / DIGIT / ALPHA
pub fn is_tchar<U: Unit>(c: U) -> (r: bool)
    ensures
        r == tchar_code(c.code_point()),
{
    let x = c.code();
    let mark = x == 0x21 || (0x23 <= x && x <= 0x27) || x == 0x2A || x == 0x2B || x == 0x2D
        || x == 0x2E || x == 0x5E || x == 0x5F || x == 0x60 || x == 0x7C || x == 0x7E;
    mark || is_digit(c) || is_alpha(c)
}

} // verus!
