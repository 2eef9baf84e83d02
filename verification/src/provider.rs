//! The correlation-id provider: every request leaves it with a non-empty
//! correlation header, reused verbatim when the caller sent one and freshly
//! generated otherwise.

use vstd::prelude::*;
use vstd::string::StrSliceExecFns;
use vstd::utf8::decode_utf8;
use vstd::utf8::encode_utf8;
use vstd::utf8::valid_utf8;

verus! {

/// Characters a generated token is made of: lowercase hexadecimal digits
/// and hyphens.
pub open spec fn is_token_char(c: char) -> bool {
    ||| c == '-'
    ||| '0' <= c <= '9'
    ||| 'a' <= c <= 'f'
}

/// Relies on `uuid::Uuid::new_v4`: a fresh 128-bit random identifier,
/// displayed in the hyphenated form of 36 lowercase hexadecimal digits and
/// hyphens. Nothing relates two calls: each returns an arbitrary such string.
#[verifier::external_body]
pub(crate) fn fresh_token() -> (r: String)
    ensures
        r@.len() == 36,
        forall|i: int| 0 <= i < r@.len() ==> is_token_char(#[trigger] r@[i]),
{
    uuid::Uuid::new_v4().to_string()
}

/// Holds of the header bytes the provider writes when it generates a token:
/// the UTF-8 encoding of 36 token characters.
pub open spec fn generated_header(h: Seq<u8>) -> bool {
    &&& valid_utf8(h)
    &&& h.len() == 36
    &&& decode_utf8(h).len() == 36
    &&& forall|i: int| 0 <= i < decode_utf8(h).len() ==> is_token_char(#[trigger] decode_utf8(h)[i])
}

/// What the provider guarantees of the header value it hands downstream:
/// a non-empty inbound value is kept verbatim, anything else is replaced by
/// a generated token.
pub open spec fn reuses_or_generates(inbound: Option<Seq<u8>>, h: Seq<u8>) -> bool {
    match inbound {
        Option::Some(v) => if v.len() > 0 {
            h == v
        } else {
            generated_header(h)
        },
        Option::None => generated_header(h),
    }
}

/// Produces the correlation header value for a request: the inbound value
/// unmodified when present and non-empty, a freshly generated token
/// otherwise. This step cannot fail, and the value it returns is never
/// empty.
pub fn ensure_request_id(inbound: Option<Vec<u8>>) -> (h: Vec<u8>)
    ensures
        reuses_or_generates(
            match inbound {
                Option::Some(ref v) => Option::Some(v@),
                Option::None => Option::None,
            },
            h@,
        ),
        h@.len() > 0,
{
    match inbound {
        Option::Some(v) => {
            if v.len() > 0 {
                v
            } else {
                generate_header_bytes()
            }
        },
        Option::None => generate_header_bytes(),
    }
}

fn generate_header_bytes() -> (h: Vec<u8>)
    ensures
        generated_header(h@),
{
    let token = fresh_token();
    proof {
        assert(vstd::utf8::is_ascii_chars(token@)) by {
            assert(forall|i: int| 0 <= i < token@.len() ==> '\0' <= #[trigger] token@[i]
                <= '\u{7f}') by {
                assert(forall|i: int|
                    0 <= i < token@.len() ==> is_token_char(#[trigger] token@[i]));
            }
        }
        vstd::utf8::is_ascii_chars_encode_utf8(token@);
        vstd::utf8::encode_utf8_valid_utf8(token@);
        vstd::utf8::encode_utf8_decode_utf8(token@);
    }
    let h = token.as_str().as_bytes_vec();
    proof {
        assert(h@ == encode_utf8(token@));
        assert(h@.len() == 36);
        assert(decode_utf8(h@) == token@);
    }
    h
}

} // verus!
