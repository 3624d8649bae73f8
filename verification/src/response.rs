//! Response framing: one complete, self-contained HTTP/1.1 response, either
//! a success with Content-Type and an exact Content-Length, or a bare
//! not-found status.

use vstd::prelude::*;
use vstd::utf8::encode_utf8;

use crate::classify::{content_type_for, spec_content_type};
use crate::numerals::{dec_digits, dec_value, lemma_dec_digits_value, usize_to_string};

verus! {

/// The head of a success response: status line, Content-Type, the decimal
/// numeral of the body length as Content-Length, and the blank line.
pub open spec fn spec_ok_head(content_type: Seq<char>, len: nat) -> Seq<char> {
    "HTTP/1.1 200 OK\r\nContent-Type: "@ + content_type + "\r\nContent-Length: "@ + dec_digits(
        len,
    ) + "\r\n\r\n"@
}

/// A full success response: the UTF-8 bytes of the head, then the body
/// bytes, exactly as written to the connection.
pub open spec fn spec_ok_response(content_type: Seq<char>, body: Seq<u8>) -> Seq<u8> {
    encode_utf8(spec_ok_head(content_type, body.len())) + body
}

/// A full not-found response: status line only, no headers, no body.
pub open spec fn spec_not_found_response() -> Seq<u8> {
    encode_utf8("HTTP/1.1 404 NOT FOUND\r\n\r\n"@)
}

/// A full internal-error response: status line only, for an I/O failure
/// caught at the connection boundary before any header was sent.
pub open spec fn spec_internal_error_response() -> Seq<u8> {
    encode_utf8("HTTP/1.1 500 INTERNAL SERVER ERROR\r\n\r\n"@)
}

/// Append the bytes of `src` to `dst`.
fn append_bytes(dst: &mut Vec<u8>, src: &[u8])
    ensures
        final(dst)@ == old(dst)@ + src@,
{
    let n = src.len();
    let mut i: usize = 0;
    while i < n
        invariant
            n == src@.len(),
            i <= n,
            dst@ == old(dst)@ + src@.take(i as int),
        decreases n - i,
    {
        dst.push(src[i]);
        proof {
            assert(src@.take(i + 1) =~= src@.take(i as int).push(src@[i as int]));
        }
        i += 1;
    }
    proof {
        assert(src@.take(n as int) =~= src@);
    }
}

/// Frame a success response around the given body with the given content
/// type.
pub fn ok_response(content_type: &str, body: &Vec<u8>) -> (r: Vec<u8>)
    ensures
        r@ == spec_ok_response(content_type@, body@),
{
    let mut head = String::from_str("HTTP/1.1 200 OK\r\nContent-Type: ");
    head.append(content_type);
    head.append("\r\nContent-Length: ");
    let num = usize_to_string(body.len());
    head.append(num.as_str());
    head.append("\r\n\r\n");
    assert(head@ == spec_ok_head(content_type@, body@.len()));
    let mut r = head.as_str().as_bytes_vec();
    append_bytes(&mut r, body.as_slice());
    r
}

/// Frame the response that serves a regular file: its bytes as the body,
/// under the content type sniffed from those bytes.
pub fn file_response(bytes: &Vec<u8>) -> (r: Vec<u8>)
    ensures
        r@ == spec_ok_response(spec_content_type(bytes@), bytes@),
{
    let content_type = content_type_for(bytes);
    ok_response(content_type.as_str(), bytes)
}

/// Frame the not-found response.
pub fn not_found_response() -> (r: Vec<u8>)
    ensures
        r@ == spec_not_found_response(),
{
    "HTTP/1.1 404 NOT FOUND\r\n\r\n".as_bytes_vec()
}

/// Frame the internal-error response.
pub fn internal_error_response() -> (r: Vec<u8>)
    ensures
        r@ == spec_internal_error_response(),
{
    "HTTP/1.1 500 INTERNAL SERVER ERROR\r\n\r\n".as_bytes_vec()
}

/// Law: the Content-Length header equals the exact byte length of the body
/// that follows it. A success response is the head followed by precisely the
/// body bytes, and the numeral framed into the head reads back as the
/// body's length.
pub proof fn lemma_content_length_exact(content_type: Seq<char>, body: Seq<u8>)
    ensures
        spec_ok_response(content_type, body).skip(
            encode_utf8(spec_ok_head(content_type, body.len())).len() as int,
        ) =~= body,
        dec_value(dec_digits(body.len())) == body.len(),
{
    lemma_dec_digits_value(body.len());
}

} // verus!
