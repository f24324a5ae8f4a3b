use abnf_core::class::Class;
use abnf_core::cursor::{Cursor, Mode, Needed, Outcome};
use abnf_core::rules::{crlf, crlf_relaxed, lwsp, recognize_one, token};

fn chars(s: &str) -> Vec<char> {
    s.chars().collect()
}

const MODES: [Mode; 2] = [Mode::Complete, Mode::Streaming];

#[test]
fn strict_crlf_consumes_both_units_and_never_takes_a_bare_linefeed() {
    for mode in MODES {
        let input = chars("\r\n");
        match crlf(Cursor::new(&input), mode) {
            Outcome::Matched(v, rest) => {
                assert_eq!(v, ('\r', '\n'));
                assert_eq!(rest.offset(), 2);
                assert!(rest.is_empty());
            }
            other => panic!("{:?}", other),
        }
        assert!(!crlf(Cursor::new(&chars("\n")), mode).is_matched());
    }
}

#[test]
fn relaxed_crlf_reports_whether_the_carriage_return_was_there() {
    for mode in MODES {
        match crlf_relaxed(Cursor::new(&chars("\n")), mode) {
            Outcome::Matched(v, rest) => {
                assert_eq!(v, (None, '\n'));
                assert!(rest.is_empty());
            }
            other => panic!("{:?}", other),
        }
        match crlf_relaxed(Cursor::new(&chars("\r\n")), mode) {
            Outcome::Matched(v, rest) => {
                assert_eq!(v, (Some('\r'), '\n'));
                assert!(rest.is_empty());
            }
            other => panic!("{:?}", other),
        }
    }
}

#[test]
fn token_on_empty_and_on_a_comma() {
    assert_eq!(token(Cursor::new(&chars("")), Mode::Complete), Outcome::Rejected(0, Class::Tchar));
    assert_eq!(
        token(Cursor::new(&chars("")), Mode::Streaming),
        Outcome::Incomplete(Needed::Size(1))
    );
    for mode in MODES {
        let input = chars("a,");
        match token(Cursor::new(&input), mode) {
            Outcome::Matched(v, rest) => {
                assert_eq!(v, &['a'][..]);
                assert_eq!(rest.rest(), &[','][..]);
            }
            other => panic!("{:?}", other),
        }
    }
}

#[test]
fn lwsp_on_empty_is_zero_repetitions_in_both_modes() {
    for mode in MODES {
        let input = chars("");
        match lwsp(Cursor::new(&input), mode) {
            Outcome::Matched(v, rest) => {
                assert!(v.is_empty());
                assert!(rest.is_empty());
            }
            other => panic!("{:?}", other),
        }
    }
}

#[test]
fn streaming_retry_with_more_input_matches_the_complete_result() {
    let part = chars("\r");
    let whole = chars("\r\n");
    assert_eq!(crlf(Cursor::new(&part), Mode::Streaming), Outcome::Incomplete(Needed::Size(1)));
    let streamed = crlf(Cursor::new(&whole), Mode::Streaming);
    let complete = crlf(Cursor::new(&whole), Mode::Complete);
    assert!(streamed.is_matched());
    assert_eq!(streamed, complete);

    let empty = chars("");
    assert_eq!(
        recognize_one(Class::Cr, Cursor::new(&empty), Mode::Streaming),
        Outcome::Incomplete(Needed::Size(1))
    );
    assert_eq!(
        recognize_one(Class::Cr, Cursor::new(&whole), Mode::Streaming),
        recognize_one(Class::Cr, Cursor::new(&whole), Mode::Complete)
    );

    let some = chars("ab");
    let more = chars("ab;");
    assert!(token(Cursor::new(&some), Mode::Streaming).is_incomplete());
    assert_eq!(
        token(Cursor::new(&more), Mode::Streaming),
        token(Cursor::new(&more), Mode::Complete)
    );
}

#[test]
fn a_decided_streaming_result_survives_more_input() {
    let short = chars(" \tx");
    let long = chars(" \tx \t");
    match (lwsp(Cursor::new(&short), Mode::Streaming), lwsp(Cursor::new(&long), Mode::Streaming)) {
        (Outcome::Matched(a, ra), Outcome::Matched(b, rb)) => {
            assert_eq!(a, b);
            assert_eq!(ra.offset(), rb.offset());
        }
        other => panic!("{:?}", other),
    }
}

#[test]
fn complete_mode_never_asks_for_more() {
    for s in ["", "\r", "\r\n", " ", " \r\n", "ab", "\x7f"] {
        let input = chars(s);
        let c = Cursor::new(&input);
        assert!(!crlf(c, Mode::Complete).is_incomplete());
        assert!(!crlf_relaxed(c, Mode::Complete).is_incomplete());
        assert!(!lwsp(c, Mode::Complete).is_incomplete());
        assert!(!token(c, Mode::Complete).is_incomplete());
        assert!(!recognize_one(Class::Ctl, c, Mode::Complete).is_incomplete());
    }
}
