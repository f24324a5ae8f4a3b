//! The recognizers, written once for both end-of-input policies.
//!
//! Only [`recognize_one`] and [`octet`] look at whether input is left; every
//! composite rule inherits their policy by delegating to them.

use vstd::prelude::*;

use crate::class::Class;
use crate::cursor::{at_end, Cursor, Mode, Needed, Outcome, Verdict};
use crate::{cr_code, lf_code, wsp_code, Unit};

verus! {

/// One unit of the class `class`.
pub open spec fn one_verdict<U: Unit>(class: Class, s: Seq<U>, mode: Mode) -> Verdict {
    if s.len() == 0 {
        at_end(0, class, mode)
    } else if class.admits(s[0]) {
        Verdict::Match(1)
    } else {
        Verdict::Reject(0, class)
    }
}

/// `r` is what recognizing one unit of `class` at `input` yields.
pub open spec fn recognized_one<'a, U: Unit>(
    class: Class,
    input: Cursor<'a, U>,
    mode: Mode,
    r: Outcome<'a, U, char>,
) -> bool {
    &&& r.carries(input, one_verdict(class, input@, mode))
    &&& r matches Outcome::Matched(c, _) ==> c as u32 == input@[0].code_point()
}

/// Whether `s` starts with a carriage return.
pub open spec fn starts_with_cr<U: Unit>(s: Seq<U>) -> bool {
    s.len() > 0 && cr_code(s[0].code_point())
}

/// CRLF = CR LF
pub open spec fn crlf_verdict<U: Unit>(s: Seq<U>, mode: Mode) -> Verdict {
    if starts_with_cr(s) {
        one_verdict(Class::Lf, s.skip(1), mode).shift(1)
    } else {
        one_verdict(Class::Cr, s, mode)
    }
}

/// `r` is what recognizing CRLF at `input` yields.
pub open spec fn recognized_crlf<'a, U: Unit>(
    input: Cursor<'a, U>,
    mode: Mode,
    r: Outcome<'a, U, (char, char)>,
) -> bool {
    &&& r.carries(input, crlf_verdict(input@, mode))
    &&& r matches Outcome::Matched(v, _) ==> v.0 as u32 == 0x0D && v.1 as u32 == 0x0A
}

/// [CR] LF: a newline with or without the carriage return.
pub open spec fn crlf_relaxed_verdict<U: Unit>(s: Seq<U>, mode: Mode) -> Verdict {
    if starts_with_cr(s) {
        one_verdict(Class::Lf, s.skip(1), mode).shift(1)
    } else {
        one_verdict(Class::Lf, s, mode)
    }
}

/// `r` is what recognizing a relaxed newline at `input` yields.
pub open spec fn recognized_crlf_relaxed<'a, U: Unit>(
    input: Cursor<'a, U>,
    mode: Mode,
    r: Outcome<'a, U, (Option<char>, char)>,
) -> bool {
    &&& r.carries(input, crlf_relaxed_verdict(input@, mode))
    &&& r matches Outcome::Matched(v, _) ==> {
        &&& v.0 is Some == starts_with_cr(input@)
        &&& v.0 matches Some(c) ==> c as u32 == 0x0D
        &&& v.1 as u32 == 0x0A
    }
}

/// The number of leading units of `s` in the class `class`.
pub open spec fn run<U: Unit>(class: Class, s: Seq<U>) -> nat
    decreases s.len(),
{
    if s.len() > 0 && class.admits(s[0]) {
        1 + run(class, s.skip(1))
    } else {
        0
    }
}

/// 1*CLASS: one or more units of the class, as many as there are. In
/// streaming mode a run that reaches the end of the input may go on in
/// input still to come.
pub open spec fn many1_verdict<U: Unit>(class: Class, s: Seq<U>, mode: Mode) -> Verdict {
    let n = run(class, s);
    if n == s.len() && mode == Mode::Streaming {
        Verdict::Incomplete(1)
    } else if n == 0 {
        Verdict::Reject(0, class)
    } else {
        Verdict::Match(n)
    }
}

/// `r` is what recognizing one or more units of `class` at `input` yields.
pub open spec fn recognized_many1<'a, U: Unit>(
    class: Class,
    input: Cursor<'a, U>,
    mode: Mode,
    r: Outcome<'a, U, &'a [U]>,
) -> bool {
    &&& r.carries(input, many1_verdict(class, input@, mode))
    &&& r matches Outcome::Matched(v, _) ==> v@ == input@.take(run(class, input@) as int)
}

/// The length of the leading repetitions of `[CRLF] WSP` in `s`.
pub open spec fn lwsp_run<U: Unit>(s: Seq<U>) -> nat
    decreases s.len(),
{
    if s.len() > 0 && wsp_code(s[0].code_point()) {
        1 + lwsp_run(s.skip(1))
    } else if s.len() > 2 && cr_code(s[0].code_point()) && lf_code(s[1].code_point())
        && wsp_code(s[2].code_point()) {
        3 + lwsp_run(s.skip(3))
    } else {
        0
    }
}

/// Whether `t` is a proper beginning of `[CRLF] WSP`: the empty input, CR,
/// or CR LF.
pub open spec fn lwsp_pending<U: Unit>(t: Seq<U>) -> bool {
    ||| t.len() == 0
    ||| t.len() == 1 && cr_code(t[0].code_point())
    ||| t.len() == 2 && cr_code(t[0].code_point()) && lf_code(t[1].code_point())
}

/// LWSP = *([CRLF] WSP), the same language as *(WSP / CRLF WSP). In
/// streaming mode a repetition cut off by the end of the input asks for
/// more; the empty input is zero repetitions in both modes.
pub open spec fn lwsp_verdict<U: Unit>(s: Seq<U>, mode: Mode) -> Verdict {
    let n = lwsp_run(s);
    if mode == Mode::Streaming && s.len() > 0 && lwsp_pending(s.skip(n as int)) {
        Verdict::Incomplete(1)
    } else {
        Verdict::Match(n)
    }
}

/// `r` is what recognizing LWSP at `input` yields.
pub open spec fn recognized_lwsp<'a, U: Unit>(
    input: Cursor<'a, U>,
    mode: Mode,
    r: Outcome<'a, U, &'a [U]>,
) -> bool {
    &&& r.carries(input, lwsp_verdict(input@, mode))
    &&& r matches Outcome::Matched(v, _) ==> v@ == input@.take(lwsp_run(input@) as int)
}

/// `r` is what recognizing an OCTET at `input` yields.
pub open spec fn recognized_octet<'a>(
    input: Cursor<'a, u8>,
    mode: Mode,
    r: Outcome<'a, u8, u8>,
) -> bool {
    &&& r.carries(input, one_verdict(Class::Octet, input@, mode))
    &&& r matches Outcome::Matched(b, _) ==> b == input@[0]
}

/// The outcome at the end of the input, where a unit of `class` was wanted:
/// a rejection at that position for complete input, a request for one more
/// unit for streaming input.
fn end_of_input<'a, U, T>(input: Cursor<'a, U>, class: Class, mode: Mode) -> (r: Outcome<'a, U, T>)
    ensures
        r.carries(input, at_end(0, class, mode)),
{
    match mode {
        Mode::Complete => Outcome::Rejected(input.offset(), class),
        Mode::Streaming => Outcome::Incomplete(Needed::Size(1)),
    }
}

/// Recognizes one unit of the class `class`.
pub fn recognize_one<'a, U: Unit>(class: Class, input: Cursor<'a, U>, mode: Mode) -> (r: Outcome<
    'a,
    U,
    char,
>)
    ensures
        recognized_one(class, input, mode, r),
{
    match input.first() {
        None => end_of_input(input, class, mode),
        Some(u) => {
            if class.test(u) {
                Outcome::Matched(u.as_char(), input.advance(1))
            } else {
                Outcome::Rejected(input.offset(), class)
            }
        },
    }
}

/// Recognizes any one byte.
pub fn octet<'a>(input: Cursor<'a, u8>, mode: Mode) -> (r: Outcome<'a, u8, u8>)
    ensures
        recognized_octet(input, mode, r),
{
    match input.first() {
        None => end_of_input(input, Class::Octet, mode),
        Some(b) => Outcome::Matched(b, input.advance(1)),
    }
}

/// Recognizes CRLF: a carriage return, then a linefeed.
pub fn crlf<'a, U: Unit>(input: Cursor<'a, U>, mode: Mode) -> (r: Outcome<'a, U, (char, char)>)
    ensures
        recognized_crlf(input, mode, r),
{
    match recognize_one(Class::Cr, input, mode) {
        Outcome::Matched(cr, after_cr) => match recognize_one(Class::Lf, after_cr, mode) {
            Outcome::Matched(lf, rest) => {
                assert(rest@ =~= input@.skip(2));
                Outcome::Matched((cr, lf), rest)
            },
            Outcome::Rejected(at, class) => Outcome::Rejected(at, class),
            Outcome::Incomplete(needed) => Outcome::Incomplete(needed),
        },
        Outcome::Rejected(at, class) => Outcome::Rejected(at, class),
        Outcome::Incomplete(needed) => Outcome::Incomplete(needed),
    }
}

/// Recognizes a newline with or without the carriage return: `[CR] LF`.
pub fn crlf_relaxed<'a, U: Unit>(input: Cursor<'a, U>, mode: Mode) -> (r: Outcome<
    'a,
    U,
    (Option<char>, char),
>)
    ensures
        recognized_crlf_relaxed(input, mode, r),
{
    let (cr, after_cr) = match recognize_one(Class::Cr, input, mode) {
        Outcome::Matched(cr, after_cr) => (Some(cr), after_cr),
        Outcome::Rejected(..) => (None, input),
        Outcome::Incomplete(needed) => {
            return Outcome::Incomplete(needed);
        },
    };
    match recognize_one(Class::Lf, after_cr, mode) {
        Outcome::Matched(lf, rest) => {
            assert(cr is Some ==> rest@ =~= input@.skip(2));
            Outcome::Matched((cr, lf), rest)
        },
        Outcome::Rejected(at, class) => Outcome::Rejected(at, class),
        Outcome::Incomplete(needed) => Outcome::Incomplete(needed),
    }
}

/// Recognizes one or more units of the class `class`, as many as there are.
///
/// A rejection after the first unit ends the run; a request for more input
/// is passed on, since input still to come may extend the run.
pub fn many1<'a, U: Unit>(class: Class, input: Cursor<'a, U>, mode: Mode) -> (r: Outcome<
    'a,
    U,
    &'a [U],
>)
    ensures
        recognized_many1(class, input, mode, r),
{
    let total = input.len();
    let mut cur = input;
    let mut n: usize = 0;
    loop
        invariant
            total == input@.len(),
            cur.spec_source() == input.spec_source(),
            cur.spec_offset() == input.spec_offset() + n,
            n <= input@.len(),
            cur@ == input@.skip(n as int),
            run(class, input@) == n + run(class, cur@),
        ensures
            cur.spec_source() == input.spec_source(),
            cur.spec_offset() == input.spec_offset() + n,
            cur@ == input@.skip(n as int),
            run(class, input@) == n,
            0 < n,
            n < input@.len() || mode == Mode::Complete,
        decreases cur@.len(),
    {
        match recognize_one(class, cur, mode) {
            Outcome::Matched(_, rest) => {
                assert(rest@ =~= input@.skip(n + 1));
                cur = rest;
                n = n + 1;
            },
            Outcome::Rejected(at, expected) => {
                if n == 0 {
                    return Outcome::Rejected(at, expected);
                }
                break ;
            },
            Outcome::Incomplete(needed) => {
                return Outcome::Incomplete(needed);
            },
        }
    }
    Outcome::Matched(input.take(n), cur)
}

/// Recognizes TOKEN = 1*TCHAR.
pub fn token<'a, U: Unit>(input: Cursor<'a, U>, mode: Mode) -> (r: Outcome<'a, U, &'a [U]>)
    ensures
        recognized_many1(Class::Tchar, input, mode, r),
{
    many1(Class::Tchar, input, mode)
}

/// Recognizes LWSP = *([CRLF] WSP), the same language as the RFC's
/// *(WSP / CRLF WSP) without trying WSP alone first and backing up.
///
/// A repetition cut off by the end of streaming input asks for more; the
/// empty input is zero repetitions in both modes.
pub fn lwsp<'a, U: Unit>(input: Cursor<'a, U>, mode: Mode) -> (r: Outcome<'a, U, &'a [U]>)
    ensures
        recognized_lwsp(input, mode, r),
{
    let total = input.len();
    let mut cur = input;
    let mut n: usize = 0;
    loop
        invariant
            total == input@.len(),
            cur.spec_source() == input.spec_source(),
            cur.spec_offset() == input.spec_offset() + n,
            n <= input@.len(),
            cur@ == input@.skip(n as int),
            lwsp_run(input@) == n + lwsp_run(cur@),
        ensures
            cur.spec_source() == input.spec_source(),
            cur.spec_offset() == input.spec_offset() + n,
            cur@ == input@.skip(n as int),
            lwsp_run(input@) == n,
            !(mode == Mode::Streaming && input@.len() > 0 && lwsp_pending(cur@)),
        decreases cur@.len(),
    {
        let (newline, after_newline) = match crlf(cur, mode) {
            Outcome::Matched(_, after) => (2usize, after),
            Outcome::Rejected(..) => (0usize, cur),
            Outcome::Incomplete(needed) => {
                if n == 0 && cur.is_empty() {
                    break ;
                }
                return Outcome::Incomplete(needed);
            },
        };
        match recognize_one(Class::Wsp, after_newline, mode) {
            Outcome::Matched(_, rest) => {
                assert(rest@ =~= input@.skip(n + newline + 1));
                assert(cur@.skip(newline + 1) =~= rest@);
                cur = rest;
                n = n + newline + 1;
            },
            Outcome::Rejected(..) => {
                break ;
            },
            Outcome::Incomplete(needed) => {
                return Outcome::Incomplete(needed);
            },
        }
    }
    Outcome::Matched(input.take(n), cur)
}

} // verus!
