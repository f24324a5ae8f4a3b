use abnf_core::class::Class;
use abnf_core::cursor::{Cursor, Needed, Outcome};
use abnf_core::streaming::{cr, crlf, crlf_relaxed, lwsp, octet, tchar, token, vchar, wsp};

fn chars(s: &str) -> Vec<char> {
    s.chars().collect()
}

/// The remainder and the value of a match, if it is one.
fn ok<U: Clone, T>(o: Outcome<'_, U, T>) -> Option<(Vec<U>, T)> {
    match o {
        Outcome::Matched(v, rest) => Some((rest.rest().to_vec(), v)),
        _ => None,
    }
}

/// The remainder and the recognized units of a match, if it is one.
fn ok_span<U: Clone>(o: Outcome<'_, U, &[U]>) -> Option<(Vec<U>, Vec<U>)> {
    match o {
        Outcome::Matched(v, rest) => Some((rest.rest().to_vec(), v.to_vec())),
        _ => None,
    }
}

#[test]
fn streaming_test_cr() {
    assert!(!cr(Cursor::new(&chars("\n"))).is_matched());
    assert_eq!(ok(cr(Cursor::new(&chars("\r")))), Some((chars(""), '\r')));

    assert!(!cr(Cursor::new(&b"\n"[..])).is_matched());
    assert_eq!(ok(cr(Cursor::new(&b"\r"[..]))), Some((b"".to_vec(), '\r')));
}

#[test]
fn test_tchar() {
    assert_eq!(tchar(Cursor::new(&chars(""))), Outcome::Incomplete(Needed::Size(1)));
    assert_eq!(ok(tchar(Cursor::new(&chars("mbbb")))), Some((chars("bbb"), 'm')));
    assert_eq!(ok(tchar(Cursor::new(&chars("!aa")))), Some((chars("aa"), '!')));
    assert!(matches!(tchar(Cursor::new(&chars(","))), Outcome::Rejected(..)));
}

#[test]
fn test_token() {
    assert!(matches!(token(Cursor::new(&chars(""))), Outcome::Incomplete(Needed::Size(1))));
    assert_eq!(token(Cursor::new(&chars("mbbb"))), Outcome::Incomplete(Needed::Size(1)));
    assert_eq!(ok_span(token(Cursor::new(&chars("a,")))), Some((chars(","), chars("a"))));
    assert!(matches!(token(Cursor::new(&chars(","))), Outcome::Rejected(..)));
}

#[test]
fn streaming_crlf_cases() {
    assert_eq!(ok(crlf(Cursor::new(&chars("\r\n")))), Some((chars(""), ('\r', '\n'))));
    assert_eq!(crlf(Cursor::new(&chars("\n"))), Outcome::Rejected(0, Class::Cr));
    assert_eq!(crlf(Cursor::new(&chars(""))), Outcome::Incomplete(Needed::Size(1)));
    assert_eq!(crlf(Cursor::new(&chars("\r"))), Outcome::Incomplete(Needed::Size(1)));
    assert_eq!(crlf(Cursor::new(&chars("\r\x0b"))), Outcome::Rejected(1, Class::Lf));
}

#[test]
fn streaming_crlf_relaxed_cases() {
    assert_eq!(ok(crlf_relaxed(Cursor::new(&chars("\n")))), Some((chars(""), (None, '\n'))));
    assert_eq!(
        ok(crlf_relaxed(Cursor::new(&chars("\r\nx")))),
        Some((chars("x"), (Some('\r'), '\n')))
    );
    assert_eq!(crlf_relaxed(Cursor::new(&chars(""))), Outcome::Incomplete(Needed::Size(1)));
    assert_eq!(crlf_relaxed(Cursor::new(&chars("\r"))), Outcome::Incomplete(Needed::Size(1)));
    assert_eq!(crlf_relaxed(Cursor::new(&chars("x"))), Outcome::Rejected(0, Class::Lf));
}

#[test]
fn streaming_lwsp_cases() {
    assert_eq!(ok_span(lwsp(Cursor::new(&chars("")))), Some((chars(""), chars(""))));
    assert_eq!(ok_span(lwsp(Cursor::new(&chars(" \tx")))), Some((chars("x"), chars(" \t"))));
    assert_eq!(
        ok_span(lwsp(Cursor::new(&chars(" \r\n\tx")))),
        Some((chars("x"), chars(" \r\n\t")))
    );
    assert_eq!(ok_span(lwsp(Cursor::new(&chars("\r\nx")))), Some((chars("\r\nx"), chars(""))));
    assert_eq!(lwsp(Cursor::new(&chars("  "))), Outcome::Incomplete(Needed::Size(1)));
    assert_eq!(lwsp(Cursor::new(&chars("\r"))), Outcome::Incomplete(Needed::Size(1)));
    assert_eq!(lwsp(Cursor::new(&chars(" \r\n"))), Outcome::Incomplete(Needed::Size(1)));
}

#[test]
fn streaming_single_units() {
    assert_eq!(wsp(Cursor::new(&chars(""))), Outcome::Incomplete(Needed::Size(1)));
    assert_eq!(vchar(Cursor::new(&chars(" "))), Outcome::Rejected(0, Class::Vchar));
    assert_eq!(ok(vchar(Cursor::new(&chars("~")))), Some((chars(""), '~')));
}

#[test]
fn streaming_octet() {
    assert_eq!(octet(Cursor::new(&[][..])), Outcome::Incomplete(Needed::Size(1)));
    assert_eq!(ok(octet(Cursor::new(&[0x80u8][..]))), Some((vec![], 0x80)));
}
