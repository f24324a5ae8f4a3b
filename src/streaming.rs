//! The core rules on streaming input: a rule that runs into the end of the
//! input before it can decide asks for more.

use vstd::prelude::*;

use crate::class::Class;
use crate::cursor::{Cursor, Mode, Outcome};
use crate::rules::{
    recognize_one, recognized_crlf, recognized_crlf_relaxed, recognized_lwsp, recognized_many1,
    recognized_octet, recognized_one,
};
use crate::Unit;

verus! {

/// ALPHA = %x41-5A / %x61-7A ; A-Z / a-z
pub fn alpha<'a, U: Unit>(input: Cursor<'a, U>) -> (r: Outcome<'a, U, char>)
    ensures
        recognized_one(Class::Alpha, input, Mode::Streaming, r),
{
    recognize_one(Class::Alpha, input, Mode::Streaming)
}

/// BIT = "0" / "1"
pub fn bit<'a, U: Unit>(input: Cursor<'a, U>) -> (r: Outcome<'a, U, char>)
    ensures
        recognized_one(Class::Bit, input, Mode::Streaming, r),
{
    recognize_one(Class::Bit, input, Mode::Streaming)
}

/// CHAR = %x01-7F ; any 7-bit US-ASCII character, excluding NUL
pub fn char<'a, U: Unit>(input: Cursor<'a, U>) -> (r: Outcome<'a, U, char>)
    ensures
        recognized_one(Class::Char, input, Mode::Streaming, r),
{
    recognize_one(Class::Char, input, Mode::Streaming)
}

/// Carriage return
///
/// CR = %x0D
pub fn cr<'a, U: Unit>(input: Cursor<'a, U>) -> (r: Outcome<'a, U, char>)
    ensures
        recognized_one(Class::Cr, input, Mode::Streaming, r),
{
    recognize_one(Class::Cr, input, Mode::Streaming)
}

/// Internet standard newline
///
/// CRLF = CR LF
///
/// This variant expects exactly "\r\n"; [`crlf_relaxed`] accepts "\n" alone too.
pub fn crlf<'a, U: Unit>(input: Cursor<'a, U>) -> (r: Outcome<'a, U, (char, char)>)
    ensures
        recognized_crlf(input, Mode::Streaming, r),
{
    crate::rules::crlf(input, Mode::Streaming)
}

/// Newline, with or without "\r": [CR] LF
pub fn crlf_relaxed<'a, U: Unit>(input: Cursor<'a, U>) -> (r: Outcome<'a, U, (Option<char>, char)>)
    ensures
        recognized_crlf_relaxed(input, Mode::Streaming, r),
{
    crate::rules::crlf_relaxed(input, Mode::Streaming)
}

/// CTL = %x00-1F / %x7F ; controls
pub fn ctl<'a, U: Unit>(input: Cursor<'a, U>) -> (r: Outcome<'a, U, char>)
    ensures
        recognized_one(Class::Ctl, input, Mode::Streaming, r),
{
    recognize_one(Class::Ctl, input, Mode::Streaming)
}

/// DIGIT = %x30-39 ; 0-9
pub fn digit<'a, U: Unit>(input: Cursor<'a, U>) -> (r: Outcome<'a, U, char>)
    ensures
        recognized_one(Class::Digit, input, Mode::Streaming, r),
{
    recognize_one(Class::Digit, input, Mode::Streaming)
}

/// Double quote
///
/// DQUOTE = %x22
pub fn dquote<'a, U: Unit>(input: Cursor<'a, U>) -> (r: Outcome<'a, U, char>)
    ensures
        recognized_one(Class::Dquote, input, Mode::Streaming, r),
{
    recognize_one(Class::Dquote, input, Mode::Streaming)
}

/// HEXDIG = DIGIT / "A" / "B" / "C" / "D" / "E" / "F", in either case
pub fn hexdig<'a, U: Unit>(input: Cursor<'a, U>) -> (r: Outcome<'a, U, char>)
    ensures
        recognized_one(Class::Hexdig, input, Mode::Streaming, r),
{
    recognize_one(Class::Hexdig, input, Mode::Streaming)
}

/// Horizontal tab
///
/// HTAB = %x09
pub fn htab<'a, U: Unit>(input: Cursor<'a, U>) -> (r: Outcome<'a, U, char>)
    ensures
        recognized_one(Class::Htab, input, Mode::Streaming, r),
{
    recognize_one(Class::Htab, input, Mode::Streaming)
}

/// Linefeed
///
/// LF = %x0A
pub fn lf<'a, U: Unit>(input: Cursor<'a, U>) -> (r: Outcome<'a, U, char>)
    ensures
        recognized_one(Class::Lf, input, Mode::Streaming, r),
{
    recognize_one(Class::Lf, input, Mode::Streaming)
}

/// Linear white space. Lines made of white space alone are no longer legal
/// in mail headers and have caused interoperability problems in other
/// contexts: do not use it for mail headers, and use it with caution
/// elsewhere.
///
/// LWSP = *(WSP / CRLF WSP)
pub fn lwsp<'a, U: Unit>(input: Cursor<'a, U>) -> (r: Outcome<'a, U, &'a [U]>)
    ensures
        recognized_lwsp(input, Mode::Streaming, r),
{
    crate::rules::lwsp(input, Mode::Streaming)
}

/// OCTET = %x00-FF ; 8 bits of data
pub fn octet<'a>(input: Cursor<'a, u8>) -> (r: Outcome<'a, u8, u8>)
    ensures
        recognized_octet(input, Mode::Streaming, r),
{
    crate::rules::octet(input, Mode::Streaming)
}

/// Space
///
/// SP = %x20
pub fn sp<'a, U: Unit>(input: Cursor<'a, U>) -> (r: Outcome<'a, U, char>)
    ensures
        recognized_one(Class::Sp, input, Mode::Streaming, r),
{
    recognize_one(Class::Sp, input, Mode::Streaming)
}

/// Token character
///
/// TCHAR = "!" / "#" / "$" / "%" / "&" / "'" / "*" / "+" / "-" / "." / "^" / "_" / "`" / "|" / "~"
///       / DIGIT / ALPHA
pub fn tchar<'a, U: Unit>(input: Cursor<'a, U>) -> (r: Outcome<'a, U, char>)
    ensures
        recognized_one(Class::Tchar, input, Mode::Streaming, r),
{
    recognize_one(Class::Tchar, input, Mode::Streaming)
}

/// TOKEN = 1*TCHAR
pub fn token<'a, U: Unit>(input: Cursor<'a, U>) -> (r: Outcome<'a, U, &'a [U]>)
    ensures
        recognized_many1(Class::Tchar, input, Mode::Streaming, r),
{
    crate::rules::token(input, Mode::Streaming)
}

/// VCHAR = %x21-7E ; visible (printing) characters
pub fn vchar<'a, U: Unit>(input: Cursor<'a, U>) -> (r: Outcome<'a, U, char>)
    ensures
        recognized_one(Class::Vchar, input, Mode::Streaming, r),
{
    recognize_one(Class::Vchar, input, Mode::Streaming)
}

/// WSP = SP / HTAB ; white space
pub fn wsp<'a, U: Unit>(input: Cursor<'a, U>) -> (r: Outcome<'a, U, char>)
    ensures
        recognized_one(Class::Wsp, input, Mode::Streaming, r),
{
    recognize_one(Class::Wsp, input, Mode::Streaming)
}

} // verus!
