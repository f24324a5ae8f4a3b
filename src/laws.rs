//! Laws of the classifiers and recognizers, proved over the verdicts that
//! the recognizers' contracts carry out.

use vstd::prelude::*;

use crate::class::Class;
use crate::cursor::{Mode, Verdict};
use crate::rules::{
    crlf_relaxed_verdict, crlf_verdict, lwsp_pending, lwsp_run, lwsp_verdict, many1_verdict,
    one_verdict, run,
};
use crate::{char_code, cr_code, lf_code, Unit};

verus! {

/// CHAR admits 0x01 and 0x7F, and neither 0x00 nor any code point from 0x80 on.
pub proof fn lemma_char_bounds()
    ensures
        char_code(0x01),
        char_code(0x7F),
        !char_code(0x00),
        forall|c: u32| c >= 0x80 ==> !char_code(c),
{
}

/// Classifying holds no state: any two calls that classify the same unit by
/// the same class give the same answer.
pub proof fn lemma_classify_deterministic<U: Unit>(class: Class, u: U, a: bool, b: bool)
    requires
        call_ensures(Class::test::<U>, (&class, u), a),
        call_ensures(Class::test::<U>, (&class, u), b),
    ensures
        a == b,
{
}

/// Strict CRLF matches exactly when the input starts with CR LF, and then
/// consumes those two units; in particular "\n" alone never matches.
pub proof fn lemma_crlf_exact<U: Unit>(s: Seq<U>, mode: Mode)
    ensures
        crlf_verdict(s, mode) is Match <==> (s.len() >= 2 && cr_code(s[0].code_point())
            && lf_code(s[1].code_point())),
        crlf_verdict(s, mode) is Match ==> crlf_verdict(s, mode) == Verdict::Match(2),
{
}

/// Relaxed CRLF matches a leading LF, consuming one unit, or a leading
/// CR LF, consuming two, and nothing else.
pub proof fn lemma_crlf_relaxed_exact<U: Unit>(s: Seq<U>, mode: Mode)
    ensures
        s.len() >= 1 && lf_code(s[0].code_point()) ==> crlf_relaxed_verdict(s, mode)
            == Verdict::Match(1),
        s.len() >= 2 && cr_code(s[0].code_point()) && lf_code(s[1].code_point())
            ==> crlf_relaxed_verdict(s, mode) == Verdict::Match(2),
        crlf_relaxed_verdict(s, mode) is Match ==> (s.len() >= 1 && lf_code(s[0].code_point()))
            || (s.len() >= 2 && cr_code(s[0].code_point()) && lf_code(s[1].code_point())),
{
}

/// A repetition of one or more units never matches the empty run; on the
/// empty input it is rejected at once on complete input and asks for one
/// more unit on streaming input.
pub proof fn lemma_many1_never_empty<U: Unit>(class: Class, s: Seq<U>, mode: Mode)
    ensures
        many1_verdict(class, s, mode) matches Verdict::Match(n) ==> 0 < n <= s.len(),
        s.len() == 0 && mode == Mode::Complete ==> many1_verdict(class, s, mode)
            == Verdict::Reject(0, class),
        s.len() == 0 && mode == Mode::Streaming ==> many1_verdict(class, s, mode)
            == Verdict::Incomplete(1),
{
    lemma_run_bounds(class, s);
}

/// LWSP on the empty input is zero repetitions, in both modes.
pub proof fn lemma_lwsp_empty<U: Unit>(s: Seq<U>, mode: Mode)
    requires
        s.len() == 0,
    ensures
        lwsp_verdict(s, mode) == Verdict::Match(0),
{
}

/// The run of a class is at most the input's length.
pub proof fn lemma_run_bounds<U: Unit>(class: Class, s: Seq<U>)
    ensures
        run(class, s) <= s.len(),
    decreases s.len(),
{
    if s.len() > 0 && class.admits(s[0]) {
        lemma_run_bounds(class, s.skip(1));
    }
}

/// A streaming verdict that is not a request for more input is the verdict
/// on complete input, for one unit of a class.
pub proof fn lemma_one_streaming_agrees<U: Unit>(class: Class, s: Seq<U>)
    ensures
        !(one_verdict(class, s, Mode::Streaming) is Incomplete) ==> one_verdict(
            class,
            s,
            Mode::Streaming,
        ) == one_verdict(class, s, Mode::Complete),
{
}

/// Once streaming input decides one unit of a class, more input does not
/// change the verdict.
pub proof fn lemma_one_streaming_extend<U: Unit>(class: Class, s: Seq<U>, t: Seq<U>)
    requires
        !(one_verdict(class, s, Mode::Streaming) is Incomplete),
    ensures
        one_verdict(class, s + t, Mode::Streaming) == one_verdict(class, s, Mode::Streaming),
{
    assert((s + t)[0] == s[0]);
}

/// A streaming verdict on CRLF that is not a request for more input is the
/// verdict on complete input.
pub proof fn lemma_crlf_streaming_agrees<U: Unit>(s: Seq<U>)
    ensures
        !(crlf_verdict(s, Mode::Streaming) is Incomplete) ==> crlf_verdict(s, Mode::Streaming)
            == crlf_verdict(s, Mode::Complete),
{
}

/// Once streaming input decides CRLF, more input does not change the
/// verdict. A lone carriage return is undecided; with its linefeed added,
/// the match is the one on complete input.
pub proof fn lemma_crlf_streaming_extend<U: Unit>(s: Seq<U>, t: Seq<U>)
    requires
        !(crlf_verdict(s, Mode::Streaming) is Incomplete),
    ensures
        crlf_verdict(s + t, Mode::Streaming) == crlf_verdict(s, Mode::Streaming),
{
    assert((s + t)[0] == s[0]);
    assert((s + t).skip(1) =~= s.skip(1) + t);
    if s.len() > 0 && cr_code(s[0].code_point()) {
        lemma_one_streaming_extend(Class::Lf, s.skip(1), t);
    } else {
        lemma_one_streaming_extend(Class::Cr, s, t);
    }
}

/// A streaming verdict on a relaxed newline that is not a request for more
/// input is the verdict on complete input.
pub proof fn lemma_crlf_relaxed_streaming_agrees<U: Unit>(s: Seq<U>)
    ensures
        !(crlf_relaxed_verdict(s, Mode::Streaming) is Incomplete) ==> crlf_relaxed_verdict(
            s,
            Mode::Streaming,
        ) == crlf_relaxed_verdict(s, Mode::Complete),
{
}

/// Once streaming input decides a relaxed newline, more input does not
/// change the verdict.
pub proof fn lemma_crlf_relaxed_streaming_extend<U: Unit>(s: Seq<U>, t: Seq<U>)
    requires
        !(crlf_relaxed_verdict(s, Mode::Streaming) is Incomplete),
    ensures
        crlf_relaxed_verdict(s + t, Mode::Streaming) == crlf_relaxed_verdict(s, Mode::Streaming),
{
    assert((s + t)[0] == s[0]);
    assert((s + t).skip(1) =~= s.skip(1) + t);
    if s.len() > 0 && cr_code(s[0].code_point()) {
        lemma_one_streaming_extend(Class::Lf, s.skip(1), t);
    } else {
        lemma_one_streaming_extend(Class::Lf, s, t);
    }
}

/// A run that stops short of the end of the input stays the same when more
/// input follows.
pub proof fn lemma_run_extend<U: Unit>(class: Class, s: Seq<U>, t: Seq<U>)
    requires
        run(class, s) < s.len(),
    ensures
        run(class, s + t) == run(class, s),
    decreases s.len(),
{
    assert((s + t)[0] == s[0]);
    if class.admits(s[0]) {
        assert((s + t).skip(1) =~= s.skip(1) + t);
        lemma_run_extend(class, s.skip(1), t);
    }
}

/// A streaming verdict on one or more units of a class that is not a
/// request for more input is the verdict on complete input.
pub proof fn lemma_many1_streaming_agrees<U: Unit>(class: Class, s: Seq<U>)
    ensures
        !(many1_verdict(class, s, Mode::Streaming) is Incomplete) ==> many1_verdict(
            class,
            s,
            Mode::Streaming,
        ) == many1_verdict(class, s, Mode::Complete),
{
}

/// Once streaming input decides one or more units of a class, more input
/// does not change the verdict.
pub proof fn lemma_many1_streaming_extend<U: Unit>(class: Class, s: Seq<U>, t: Seq<U>)
    requires
        !(many1_verdict(class, s, Mode::Streaming) is Incomplete),
    ensures
        many1_verdict(class, s + t, Mode::Streaming) == many1_verdict(class, s, Mode::Streaming),
{
    lemma_run_bounds(class, s);
    lemma_run_extend(class, s, t);
}

/// An LWSP run that stops on a unit that cannot begin `[CRLF] WSP` stays the
/// same when more input follows, and still stops there.
pub proof fn lemma_lwsp_run_extend<U: Unit>(s: Seq<U>, t: Seq<U>)
    requires
        !lwsp_pending(s.skip(lwsp_run(s) as int)),
    ensures
        lwsp_run(s + t) == lwsp_run(s),
        !lwsp_pending((s + t).skip(lwsp_run(s) as int)),
    decreases s.len(),
{
    let n = lwsp_run(s);
    if s.len() == 0 {
        assert(s.skip(0) =~= s);
    } else {
        assert((s + t)[0] == s[0]);
        if s.len() > 1 {
            assert((s + t)[1] == s[1]);
        }
        if s.len() > 2 {
            assert((s + t)[2] == s[2]);
        }
        if n == 0 {
            assert(s.skip(0) =~= s);
            assert((s + t).skip(0) =~= s + t);
        } else if wsp_first(s) {
            lemma_lwsp_run_bounds(s.skip(1));
            assert((s + t).skip(1) =~= s.skip(1) + t);
            assert(s.skip(1).skip(lwsp_run(s.skip(1)) as int) =~= s.skip(n as int));
            assert((s + t).skip(1).skip(lwsp_run(s.skip(1)) as int) =~= (s + t).skip(n as int));
            lemma_lwsp_run_extend(s.skip(1), t);
        } else {
            lemma_lwsp_run_bounds(s.skip(3));
            assert((s + t).skip(3) =~= s.skip(3) + t);
            assert(s.skip(3).skip(lwsp_run(s.skip(3)) as int) =~= s.skip(n as int));
            assert((s + t).skip(3).skip(lwsp_run(s.skip(3)) as int) =~= (s + t).skip(n as int));
            lemma_lwsp_run_extend(s.skip(3), t);
        }
    }
}

/// The LWSP run is at most the input's length.
pub proof fn lemma_lwsp_run_bounds<U: Unit>(s: Seq<U>)
    ensures
        lwsp_run(s) <= s.len(),
    decreases s.len(),
{
    if s.len() > 0 && crate::wsp_code(s[0].code_point()) {
        lemma_lwsp_run_bounds(s.skip(1));
    } else if s.len() > 2 {
        lemma_lwsp_run_bounds(s.skip(3));
    }
}

/// Whether `s` starts with WSP.
spec fn wsp_first<U: Unit>(s: Seq<U>) -> bool {
    s.len() > 0 && crate::wsp_code(s[0].code_point())
}

/// A streaming verdict on LWSP that is not a request for more input is the
/// verdict on complete input.
pub proof fn lemma_lwsp_streaming_agrees<U: Unit>(s: Seq<U>)
    ensures
        !(lwsp_verdict(s, Mode::Streaming) is Incomplete) ==> lwsp_verdict(s, Mode::Streaming)
            == lwsp_verdict(s, Mode::Complete),
{
}

/// Once streaming input decides LWSP on a non-empty input, more input does
/// not change the verdict. The empty input is left out: there LWSP matches
/// zero repetitions, which later white space would extend.
pub proof fn lemma_lwsp_streaming_extend<U: Unit>(s: Seq<U>, t: Seq<U>)
    requires
        s.len() > 0,
        !(lwsp_verdict(s, Mode::Streaming) is Incomplete),
    ensures
        lwsp_verdict(s + t, Mode::Streaming) == lwsp_verdict(s, Mode::Streaming),
{
    lemma_lwsp_run_extend(s, t);
}

} // verus!
