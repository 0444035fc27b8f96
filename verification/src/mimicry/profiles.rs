//! The impersonation profiles: one module per service, and the helpers
//! they share for dressing a response head with realistic values.

pub mod rutube;
pub mod vk_video;
pub mod yandex_music;

use vstd::prelude::*;

use chrono::Utc;

use super::http::{
    head_append_line, head_partial, lemma_ascii_line_ok, lemma_line_ok_concat, line_ok_bytes,
    push_str_bytes, spec_udec, u64_to_dec, CR, LF,
};
use vstd::string::is_ascii;
use vstd::string::StringSliceAdditionalSpecFns;

verus! {

/// Hex-encode bytes, lowercase.
///
/// Relies on hex's `encode`: two lowercase hex digits for each input byte.
#[verifier::external_body]
pub fn hex_encode(data: &[u8]) -> (r: Vec<u8>)
    ensures
        r@.len() == 2 * data@.len(),
        forall|i: int|
            0 <= i < r@.len() ==> (0x30 <= #[trigger] r@[i] <= 0x39) || (0x61 <= r@[i] <= 0x66),
{
    hex::encode(data).into_bytes()
}

/// The current time formatted for an HTTP `Date` header
/// (`%a, %d %b %Y %H:%M:%S GMT`).
///
/// Relies on chrono's `Utc::now` and `format`: this format string yields
/// printable ASCII — weekday and month names, digits, punctuation — and
/// never a control character.
#[verifier::external_body]
pub fn http_date_now() -> (r: Vec<u8>)
    ensures
        r@.len() >= 1,
        forall|i: int| 0 <= i < r@.len() ==> 0x20 <= #[trigger] r@[i] < 0x7f,
{
    Utc::now().format("%a, %d %b %Y %H:%M:%S GMT").to_string().into_bytes()
}

/// A fresh random session-style token: `2 * n` lowercase hex digits.
pub fn hex_token(n: usize) -> (r: Vec<u8>)
    requires
        n <= 0x1000,
    ensures
        r@.len() == 2 * n,
        line_ok_bytes(r@),
{
    let bytes = crate::crypto::random_bytes(n);
    let token = hex_encode(bytes.as_slice());
    token
}

/// Decimal digits of `n`, line-safe.
pub fn dec_bytes(n: u64) -> (r: Vec<u8>)
    ensures
        r@ == spec_udec(n),
        line_ok_bytes(r@),
        r@.len() >= 1,
{
    proof {
        super::http::lemma_udec_line_ok(n);
    }
    u64_to_dec(n)
}

/// Append a fixed header line to a head under construction.
pub fn append_static_line(head: &mut Vec<u8>, s: &str)
    requires
        head_partial(old(head)@),
        is_ascii(s),
        s@.len() >= 1,
        forall|i: int| 0 <= i < s@.len() ==> s@[i] != '\r' && s@[i] != '\n',
    ensures
        final(head)@ == old(head)@ + s.spec_bytes() + seq![CR, LF],
        head_partial(final(head)@),
        final(head)@.len() > old(head)@.len(),
        s.spec_bytes().len() == s@.len(),
{
    proof {
        lemma_ascii_line_ok(s);
    }
    let mut line: Vec<u8> = Vec::new();
    push_str_bytes(&mut line, s);
    head_append_line(head, line.as_slice());
}

/// Append a header line made of a fixed name prefix and a dynamic value.
pub fn append_prefixed_line(head: &mut Vec<u8>, prefix: &str, value: &[u8])
    requires
        head_partial(old(head)@),
        is_ascii(prefix),
        prefix@.len() >= 1,
        forall|i: int| 0 <= i < prefix@.len() ==> prefix@[i] != '\r' && prefix@[i] != '\n',
        line_ok_bytes(value@),
    ensures
        final(head)@ == old(head)@ + prefix.spec_bytes() + value@ + seq![CR, LF],
        head_partial(final(head)@),
        final(head)@.len() > old(head)@.len(),
        prefix.spec_bytes().len() == prefix@.len(),
{
    proof {
        lemma_ascii_line_ok(prefix);
        lemma_line_ok_concat(prefix.spec_bytes(), value@);
    }
    let mut line: Vec<u8> = Vec::new();
    push_str_bytes(&mut line, prefix);
    line.extend_from_slice(value);
    head_append_line(head, line.as_slice());
    assert(head@ =~= old(head)@ + prefix.spec_bytes() + value@ + seq![CR, LF]);
}

} // verus!
