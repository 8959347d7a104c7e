//! Reading the bearer token from the `Authorization` header.
use vstd::prelude::*;
use vstd::utf8::{encode_utf8, is_ascii_chars, is_ascii_chars_encode_utf8};

use crate::auth::text_result_view;
use crate::error::{spec_status, unauthorized_view, ApiError, ApiErrorView};

verus! {

/// Whether a header byte is visible ASCII (a printable character, space or tab),
/// the bytes a header value must consist of to be read as text.
pub open spec fn is_visible_ascii(b: u8) -> bool {
    (32 <= b && b < 127) || b == 9
}

/// Whether every byte of a header value is visible ASCII.
pub open spec fn all_visible_ascii(bytes: Seq<u8>) -> bool {
    forall|i: int| 0 <= i < bytes.len() ==> is_visible_ascii(#[trigger] bytes[i])
}

/// The scheme prefix of a bearer credential, `Bearer ` (with its space), as bytes.
pub open spec fn bearer_prefix() -> Seq<u8> {
    seq![66u8, 101u8, 97u8, 114u8, 101u8, 114u8, 32u8]
}

/// The characters that a sequence of ASCII bytes spells.
pub open spec fn ascii_text(bytes: Seq<u8>) -> Seq<char> {
    Seq::new(bytes.len(), |i: int| bytes[i] as char)
}

/// What the `Authorization` header (its raw bytes, if present) yields: the
/// bearer token, or the refusal.
pub open spec fn bearer_result(header: Option<Seq<u8>>) -> Result<Seq<char>, ApiErrorView> {
    match header {
        None => Err(unauthorized_view("missing Authorization"@)),
        Some(h) => if !all_visible_ascii(h) {
            Err(unauthorized_view("invalid Authorization"@))
        } else if h.len() < 7 || h.take(7) != bearer_prefix() {
            Err(unauthorized_view("expected Bearer token"@))
        } else {
            Ok(ascii_text(h.skip(7)))
        },
    }
}

/// Calls `String::push`, which the standard library documents as appending
/// the character to the end of the string; trusted to do exactly that.
#[verifier::external_body]
fn push_char(s: &mut String, c: char)
    ensures
        final(s)@ == old(s)@.push(c),
{
    s.push(c)
}

/// Reads the bearer token from the raw bytes of the `Authorization` header,
/// if the request has one: the header must be visible ASCII and start with
/// `Bearer `; the token is the rest of it.
pub fn bearer_token(header: Option<&[u8]>) -> (r: Result<String, ApiError>)
    ensures
        text_result_view(r) == bearer_result(
            match header {
                Some(h) => Some(h@),
                None => None,
            },
        ),
        r matches Ok(t) ==> (header matches Some(h) && h@.len() >= 7 && h@.take(7)
            == bearer_prefix() && t@ == ascii_text(h@.skip(7))),
        header matches Some(h) && all_visible_ascii(h@) && (h@.len() < 7 || h@.take(7)
            != bearer_prefix()) ==> (r matches Err(e) && e@ == unauthorized_view(
            "expected Bearer token"@,
        )),
{
    let h = match header {
        None => {
            return Err(ApiError::unauthorized("missing Authorization"));
        },
        Some(h) => h,
    };
    let n = h.len();
    let mut i: usize = 0;
    while i < n
        invariant
            header == Some(h),
            n == h@.len(),
            i <= n,
            forall|j: int| 0 <= j < i ==> is_visible_ascii(#[trigger] h@[j]),
        decreases n - i,
    {
        let b = h[i];
        if !((32 <= b && b < 127) || b == 9) {
            assert(!is_visible_ascii(h@[i as int]));
            return Err(ApiError::unauthorized("invalid Authorization"));
        }
        i = i + 1;
    }
    if n < 7 || h[0] != 66 || h[1] != 101 || h[2] != 97 || h[3] != 114 || h[4] != 101 || h[5]
        != 114 || h[6] != 32 {
        proof {
            if n >= 7 {
                assert(h@.take(7) != bearer_prefix()) by {
                    if h@.take(7) == bearer_prefix() {
                        assert(h@.take(7)[0] == h@[0]);
                        assert(h@.take(7)[1] == h@[1]);
                        assert(h@.take(7)[2] == h@[2]);
                        assert(h@.take(7)[3] == h@[3]);
                        assert(h@.take(7)[4] == h@[4]);
                        assert(h@.take(7)[5] == h@[5]);
                        assert(h@.take(7)[6] == h@[6]);
                    }
                }
            }
        }
        return Err(ApiError::unauthorized("expected Bearer token"));
    }
    assert(h@.take(7) =~= bearer_prefix());
    let mut token = String::new();
    let mut k: usize = 7;
    while k < n
        invariant
            n == h@.len(),
            7 <= k <= n,
            token@ =~= ascii_text(h@.subrange(7, k as int)),
        decreases n - k,
    {
        let b = h[k];
        push_char(&mut token, b as char);
        k = k + 1;
        assert(token@ =~= ascii_text(h@.subrange(7, k as int)));
    }
    assert(h@.subrange(7, n as int) =~= h@.skip(7));
    Ok(token)
}


/// A token is read only from a header that starts with `Bearer `, and it is
/// the rest of that header.
pub proof fn bearer_token_needs_scheme(header: Seq<u8>)
    ensures
        bearer_result(Some(header)) matches Ok(t) ==> (header.len() >= 7 && header.take(7)
            == bearer_prefix() && t == ascii_text(header.skip(7))),
{
}

/// A header of visible ASCII that does not start with `Bearer ` (including one
/// shorter than that) is refused with 401 "expected Bearer token".
pub proof fn header_without_scheme_is_refused(header: Seq<u8>)
    requires
        all_visible_ascii(header),
        header.len() < 7 || header.take(7) != bearer_prefix(),
    ensures
        bearer_result(Some(header)) == Err::<Seq<char>, ApiErrorView>(
            unauthorized_view("expected Bearer token"@),
        ),
        bearer_result(Some(header)) matches Err(e) && spec_status(e.kind) == 401,
{
}

/// A header of visible ASCII that starts with `Bearer ` yields the rest of
/// it as the token; a header with a byte outside visible ASCII is refused
/// with 401 "invalid Authorization"; no header at all with 401
/// "missing Authorization".
pub proof fn bearer_header_cases(header: Seq<u8>)
    ensures
        all_visible_ascii(header) && header.len() >= 7 && header.take(7) == bearer_prefix()
            ==> bearer_result(Some(header)) == Ok::<Seq<char>, ApiErrorView>(
            ascii_text(header.skip(7)),
        ),
        (exists|i: int| 0 <= i < header.len() && !is_visible_ascii(#[trigger] header[i]))
            ==> bearer_result(Some(header)) == Err::<Seq<char>, ApiErrorView>(
            unauthorized_view("invalid Authorization"@),
        ),
        bearer_result(None) == Err::<Seq<char>, ApiErrorView>(
            unauthorized_view("missing Authorization"@),
        ),
{
}

/// Whether every character of a text is visible ASCII.
pub open spec fn visible_ascii_text(t: Seq<char>) -> bool {
    forall|i: int|
        0 <= i < t.len() ==> (32 <= #[trigger] (t[i] as int) < 127 || t[i] as int == 9)
}

/// A token written into a header as `Bearer ` followed by its UTF-8 bytes is
/// read back unchanged, for every token of visible ASCII characters.
pub proof fn bearer_header_round_trip(token: Seq<char>)
    requires
        visible_ascii_text(token),
    ensures
        bearer_result(Some(bearer_prefix() + encode_utf8(token))) == Ok::<
            Seq<char>,
            ApiErrorView,
        >(token),
{
    assert(is_ascii_chars(token)) by {
        assert forall|i: int| 0 <= i < token.len() implies '\0' <= #[trigger] token[i] <= '\u{7f}' by {
            assert(token[i] as int == token[i] as int);
        }
    }
    is_ascii_chars_encode_utf8(token);
    let bytes = encode_utf8(token);
    let h = bearer_prefix() + bytes;
    assert(h.take(7) =~= bearer_prefix());
    assert(h.skip(7) =~= bytes);
    assert forall|i: int| 0 <= i < h.len() implies is_visible_ascii(#[trigger] h[i]) by {
        if i >= 7 {
            assert(h[i] == bytes[i - 7]);
            assert(token[i - 7] as int == token[i - 7] as int);
            assert(bytes[i - 7] == token[i - 7] as u8);
        }
    }
    assert(ascii_text(bytes) =~= token) by {
        assert forall|i: int| 0 <= i < token.len() implies ascii_text(bytes)[i] == token[i] by {
            assert(token[i] as int == token[i] as int);
            assert(bytes[i] == token[i] as u8);
        }
    }
}

} // verus!
