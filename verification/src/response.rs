//! The fixed payload written to every client after a successful handshake:
//! a minimal HTTP/1.0 response whose 12-byte body is `Hello world!`.

use vstd::prelude::*;

verus! {

/// The two-byte line terminator used between header lines.
pub open spec fn crlf() -> Seq<u8> {
    seq!['\r' as u8, '\n' as u8]
}

/// The status line `HTTP/1.0 200 ok`.
pub open spec fn status_line() -> Seq<u8> {
    seq![
        'H' as u8, 'T' as u8, 'T' as u8, 'P' as u8, '/' as u8, '1' as u8, '.' as u8, '0' as u8,
        ' ' as u8, '2' as u8, '0' as u8, '0' as u8, ' ' as u8, 'o' as u8, 'k' as u8,
    ]
}

/// The header line `Connection: close`.
pub open spec fn connection_close_header() -> Seq<u8> {
    seq![
        'C' as u8, 'o' as u8, 'n' as u8, 'n' as u8, 'e' as u8, 'c' as u8, 't' as u8, 'i' as u8,
        'o' as u8, 'n' as u8, ':' as u8, ' ' as u8, 'c' as u8, 'l' as u8, 'o' as u8, 's' as u8,
        'e' as u8,
    ]
}

/// The body length the response declares to the client.
pub open spec fn declared_content_length() -> int {
    12
}

/// The header line `Content-length: 12`.
pub open spec fn content_length_header() -> Seq<u8> {
    seq![
        'C' as u8, 'o' as u8, 'n' as u8, 't' as u8, 'e' as u8, 'n' as u8, 't' as u8, '-' as u8,
        'l' as u8, 'e' as u8, 'n' as u8, 'g' as u8, 't' as u8, 'h' as u8, ':' as u8, ' ' as u8,
        '1' as u8, '2' as u8,
    ]
}

/// The 12-byte body `Hello world!`.
pub open spec fn body_view() -> Seq<u8> {
    seq![
        'H' as u8, 'e' as u8, 'l' as u8, 'l' as u8, 'o' as u8, ' ' as u8, 'w' as u8, 'o' as u8,
        'r' as u8, 'l' as u8, 'd' as u8, '!' as u8,
    ]
}

/// The whole response: status line, two headers, a blank line, then the body.
pub open spec fn response_view() -> Seq<u8> {
    status_line() + crlf() + connection_close_header() + crlf() + content_length_header() + crlf()
        + crlf() + body_view()
}

/// The response is well formed: it decomposes into status line, headers,
/// blank line and body, and the body's length is exactly the length the
/// `Content-length` header declares.
pub proof fn lemma_response_well_formed()
    ensures
        body_view().len() == declared_content_length(),
        declared_content_length() == 12,
        response_view().len() == 70,
        response_view().subrange(58, 70) == body_view(),
{
    assert(response_view().len() == 70);
    assert(response_view().subrange(58, 70) =~= body_view());
}

/// Builds the response payload as the exact byte sequence `response_view`
/// describes.
pub fn response_bytes() -> (v: Vec<u8>)
    ensures
        v@ == response_view(),
        v@.len() == 70,
{
    let mut v: Vec<u8> = Vec::new();
    v.push('H' as u8);
    v.push('T' as u8);
    v.push('T' as u8);
    v.push('P' as u8);
    v.push('/' as u8);
    v.push('1' as u8);
    v.push('.' as u8);
    v.push('0' as u8);
    v.push(' ' as u8);
    v.push('2' as u8);
    v.push('0' as u8);
    v.push('0' as u8);
    v.push(' ' as u8);
    v.push('o' as u8);
    v.push('k' as u8);
    v.push('\r' as u8);
    v.push('\n' as u8);
    v.push('C' as u8);
    v.push('o' as u8);
    v.push('n' as u8);
    v.push('n' as u8);
    v.push('e' as u8);
    v.push('c' as u8);
    v.push('t' as u8);
    v.push('i' as u8);
    v.push('o' as u8);
    v.push('n' as u8);
    v.push(':' as u8);
    v.push(' ' as u8);
    v.push('c' as u8);
    v.push('l' as u8);
    v.push('o' as u8);
    v.push('s' as u8);
    v.push('e' as u8);
    v.push('\r' as u8);
    v.push('\n' as u8);
    v.push('C' as u8);
    v.push('o' as u8);
    v.push('n' as u8);
    v.push('t' as u8);
    v.push('e' as u8);
    v.push('n' as u8);
    v.push('t' as u8);
    v.push('-' as u8);
    v.push('l' as u8);
    v.push('e' as u8);
    v.push('n' as u8);
    v.push('g' as u8);
    v.push('t' as u8);
    v.push('h' as u8);
    v.push(':' as u8);
    v.push(' ' as u8);
    v.push('1' as u8);
    v.push('2' as u8);
    v.push('\r' as u8);
    v.push('\n' as u8);
    v.push('\r' as u8);
    v.push('\n' as u8);
    v.push('H' as u8);
    v.push('e' as u8);
    v.push('l' as u8);
    v.push('l' as u8);
    v.push('o' as u8);
    v.push(' ' as u8);
    v.push('w' as u8);
    v.push('o' as u8);
    v.push('r' as u8);
    v.push('l' as u8);
    v.push('d' as u8);
    v.push('!' as u8);
    proof {
        assert(v@ =~= response_view());
    }
    v
}

} // verus!
