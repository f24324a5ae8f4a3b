//! The core rules on complete input: the end of the input is final, and a
//! rule that runs into it is rejected there.

use vstd::prelude::*;

use crate::class::Class;
use crate::cursor::{Cursor, Mode, Outcome};
use crate::rules::{
    recognize_one, recognized_crlf, recognized_crlf_relaxed, recognized_lwsp, recognized_many1,
    recognized_octet, recognized_one,
};
use crate::Unit;

verus! {

/// ALPHA = %x41-5A / %x61-7A ; A-Z / a-z
pub fn alpha<'a, U: Unit>(input: Cursor<'a, U>) -> (r: Outcome<'a, U, char>)
    ensures
        recognized_one(Class::Alpha, input, Mode::Complete, r),
{
    recognize_one(Class::Alpha, input, Mode::Complete)
}

/// BIT = "0" / "1"
pub fn bit<'a, U: Unit>(input: Cursor<'a, U>) -> (r: Outcome<'a, U, char>)
    ensures
        recognized_one(Class::Bit, input, Mode::Complete, r),
{
    recognize_one(Class::Bit, input, Mode::Complete)
}

/// CHAR = %x01-7F ; any 7-bit US-ASCII character, excluding NUL
pub fn char<'a, U: Unit>(input: Cursor<'a, U>) -> (r: Outcome<'a, U, char>)
    ensures
        recognized_one(Class::Char, input, Mode::Complete, r),
{
    recognize_one(Class::Char, input, Mode::Complete)
}

/// Carriage return
///
/// CR = %x0D
pub fn cr<'a, U: Unit>(input: Cursor<'a, U>) -> (r: Outcome<'a, U, char>)
    ensures
        recognized_one(Class::Cr, input, Mode::Complete, r),
{
    recognize_one(Class::Cr, input, Mode::Complete)
}

/// Internet standard newline
///
/// CRLF = CR LF
///
/// This variant expects exactly "\r\n"; [`crlf_relaxed`] accepts "\n" alone too.
pub fn crlf<'a, U: Unit>(input: Cursor<'a, U>) -> (r: Outcome<'a, U, (char, char)>)
    ensures
        recognized_crlf(input, Mode::Complete, r),
{
    crate::rules::crlf(input, Mode::Complete)
}

/// Newline, with or without "\r": [CR] LF
pub fn crlf_relaxed<'a, U: Unit>(input: Cursor<'a, U>) -> (r: Outcome<'a, U, (Option<char>, char)>)
    ensures
        recognized_crlf_relaxed(input, Mode::Complete, r),
{
    crate::rules::crlf_relaxed(input, Mode::Complete)
}

/// CTL = %x00-1F / %x7F ; controls
pub fn ctl<'a, U: Unit>(input: Cursor<'a, U>) -> (r: Outcome<'a, U, char>)
    ensures
        recognized_one(Class::Ctl, input, Mode::Complete, r),
{
    recognize_one(Class::Ctl, input, Mode::Complete)
}

/// DIGIT = %x30-39 ; 0-9
pub fn digit<'a, U: Unit>(input: Cursor<'a, U>) -> (r: Outcome<'a, U, char>)
    ensures
        recognized_one(Class::Digit, input, Mode::Complete, r),
{
    recognize_one(Class::Digit, input, Mode::Complete)
}

/// Double quote
///
/// DQUOTE = %x22
pub fn dquote<'a, U: Unit>(input: Cursor<'a, U>) -> (r: Outcome<'a, U, char>)
    ensures
        recognized_one(Class::Dquote, input, Mode::Complete, r),
{
    recognize_one(Class::Dquote, input, Mode::Complete)
}

/// HEXDIG = DIGIT / "A" / "B" / "C" / "D" / "E" / "F", in either case
pub fn hexdig<'a, U: Unit>(input: Cursor<'a, U>) -> (r: Outcome<'a, U, char>)
    ensures
        recognized_one(Class::Hexdig, input, Mode::Complete, r),
{
    recognize_one(Class::Hexdig, input, Mode::Complete)
}

/// Horizontal tab
///
/// HTAB = %x09
pub fn htab<'a, U: Unit>(input: Cursor<'a, U>) -> (r: Outcome<'a, U, char>)
    ensures
        recognized_one(Class::Htab, input, Mode::Complete, r),
{
    recognize_one(Class::Htab, input, Mode::Complete)
}

/// Linefeed
///
/// LF = %x0A
pub fn lf<'a, U: Unit>(input: Cursor<'a, U>) -> (r: Outcome<'a, U, char>)
    ensures
        recognized_one(Class::Lf, input, Mode::Complete, r),
{
    recognize_one(Class::Lf, input, Mode::Complete)
}

/// Linear white space. Lines made of white space alone are no longer legal
/// in mail headers and have caused interoperability problems in other
/// contexts: do not use it for mail headers, and use it with caution
/// elsewhere.
///
/// LWSP = *(WSP / CRLF WSP)
pub fn lwsp<'a, U: Unit>(input: Cursor<'a, U>) -> (r: Outcome<'a, U, &'a [U]>)
    ensures
        recognized_lwsp(input, Mode::Complete, r),
{
    crate::rules::lwsp(input, Mode::Complete)
}

/// OCTET = %x00-FF ; 8 bits of data
pub fn octet<'a>(input: Cursor<'a, u8>) -> (r: Outcome<'a, u8, u8>)
    ensures
        recognized_octet(input, Mode::Complete, r),
{
    crate::rules::octet(input, Mode::Complete)
}

/// Space
///
/// SP = %x20
pub fn sp<'a, U: Unit>(input: Cursor<'a, U>) -> (r: Outcome<'a, U, char>)
    ensures
        recognized_one(Class::Sp, input, Mode::Complete, r),
{
    recognize_one(Class::Sp, input, Mode::Complete)
}

/// Token character
///
/// TCHAR = "!" / "#" / "$" / "%" / "&" / "'" / "*" / "+" / "-" / "." / "^" / "_" / "`" / "|" / "~"
///       / DIGIT / ALPHA
pub fn tchar<'a, U: Unit>(input: Cursor<'a, U>) -> (r: Outcome<'a, U, char>)
    ensures
        recognized_one(Class::Tchar, input, Mode::Complete, r),
{
    recognize_one(Class::Tchar, input, Mode::Complete)
}

/// TOKEN = 1*TCHAR
pub fn token<'a, U: Unit>(input: Cursor<'a, U>) -> (r: Outcome<'a, U, &'a [U]>)
    ensures
        recognized_many1(Class::Tchar, input, Mode::Complete, r),
{
    crate::rules::token(input, Mode::Complete)
}

/// VCHAR = %x21-7E ; visible (printing) characters
pub fn vchar<'a, U: Unit>(input: Cursor<'a, U>) -> (r: Outcome<'a, U, char>)
    ensures
        recognized_one(Class::Vchar, input, Mode::Complete, r),
{
    recognize_one(Class::Vchar, input, Mode::Complete)
}

/// WSP = SP / HTAB ; white space
pub fn wsp<'a, U: Unit>(input: Cursor<'a, U>) -> (r: Outcome<'a, U, char>)
    ensures
        recognized_one(Class::Wsp, input, Mode::Complete, r),
{
    recognize_one(Class::Wsp, input, Mode::Complete)
}

} // verus!
