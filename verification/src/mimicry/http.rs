//! HTTP/1.1 framing for the mimicry wrapper.
//!
//! A wrapped message is `head || body`: the head is a status line and
//! headers, closed by an empty line (`\r\n\r\n`), and the body is the
//! wrapped bytes verbatim. The head never contains the `\r\n\r\n`
//! terminator before its end, so the body starts exactly after the first
//! terminator — that is what makes unwrapping after wrapping the identity,
//! whatever the body holds.

use vstd::prelude::*;
use vstd::slice::{slice_subrange, slice_to_vec};
use vstd::string::is_ascii;
use vstd::string::StringSliceAdditionalSpecFns;

use crate::errors::MimicryError;

verus! {

/// Carriage return.
pub const CR: u8 = 13;

/// Line feed.
pub const LF: u8 = 10;

/// Whether the four bytes at `i` are the head terminator `\r\n\r\n`.
pub open spec fn is_terminator_at(b: Seq<u8>, i: int) -> bool {
    &&& 0 <= i
    &&& i + 4 <= b.len()
    &&& b[i] == CR
    &&& b[i + 1] == LF
    &&& b[i + 2] == CR
    &&& b[i + 3] == LF
}

/// A complete head: it ends with the terminator and contains it nowhere
/// earlier.
pub open spec fn head_wf(h: Seq<u8>) -> bool {
    &&& h.len() >= 4
    &&& is_terminator_at(h, h.len() - 4)
    &&& forall|i: int| 0 <= i < h.len() - 4 ==> !is_terminator_at(h, i)
}

/// A head under construction: either still empty, or ending in one `\r\n`
/// with no terminator anywhere yet.
pub open spec fn head_partial(h: Seq<u8>) -> bool {
    h.len() == 0 || {
        &&& h.len() >= 2
        &&& h[h.len() - 2] == CR
        &&& h[h.len() - 1] == LF
        &&& forall|i: int| 0 <= i ==> !is_terminator_at(h, i)
    }
}

/// Bytes a header line's content may hold: anything but CR and LF.
pub open spec fn line_ok_bytes(b: Seq<u8>) -> bool {
    forall|i: int| 0 <= i < b.len() ==> b[i] != CR && b[i] != LF
}

/// An ASCII string without CR or LF encodes to line-safe bytes, one byte
/// per character.
pub proof fn lemma_ascii_line_ok(s: &str)
    requires
        is_ascii(s),
        forall|i: int| 0 <= i < s@.len() ==> s@[i] != '\r' && s@[i] != '\n',
    ensures
        line_ok_bytes(s.spec_bytes()),
        s.spec_bytes().len() == s@.len(),
{
    broadcast use vstd::string::is_ascii_spec_bytes;

    assert forall|i: int| 0 <= i < s.spec_bytes().len() implies s.spec_bytes()[i] != CR
        && s.spec_bytes()[i] != LF by {
        assert(s.spec_bytes()[i] == s@[i] as u8);
        assert(s@[i] as int != 13 && s@[i] as int != 10);
    }
}

/// Append a string's bytes to a buffer.
pub fn push_str_bytes(out: &mut Vec<u8>, s: &str)
    ensures
        final(out)@ == old(out)@ + s.spec_bytes(),
{
    out.extend_from_slice(s.as_bytes());
}

/// The decimal digits of `n`, most significant first.
pub open spec fn spec_udec(n: u64) -> Seq<u8>
    decreases n,
{
    if n < 10 {
        seq![(0x30 + n) as u8]
    } else {
        spec_udec((n / 10) as u64).push((0x30 + n % 10) as u8)
    }
}

/// Decimal digits are line-safe bytes.
pub proof fn lemma_udec_line_ok(n: u64)
    ensures
        line_ok_bytes(spec_udec(n)),
        spec_udec(n).len() >= 1,
    decreases n,
{
    if n >= 10 {
        lemma_udec_line_ok((n / 10) as u64);
    }
}

/// Write `n` in decimal.
pub fn u64_to_dec(n: u64) -> (r: Vec<u8>)
    ensures
        r@ == spec_udec(n),
    decreases n,
{
    if n < 10 {
        let mut v: Vec<u8> = Vec::new();
        v.push((0x30 + n) as u8);
        assert(v@ =~= spec_udec(n));
        v
    } else {
        let mut v = u64_to_dec(n / 10);
        v.push((0x30 + (n % 10)) as u8);
        v
    }
}

/// Append one header line: its content followed by `\r\n`. The content must
/// be non-empty and free of CR and LF.
pub fn head_append_line(buf: &mut Vec<u8>, content: &[u8])
    requires
        head_partial(old(buf)@),
        line_ok_bytes(content@),
        content@.len() >= 1,
    ensures
        final(buf)@ == old(buf)@ + content@ + seq![CR, LF],
        head_partial(final(buf)@),
        final(buf)@.len() > old(buf)@.len(),
{
    let ghost pre = buf@;
    buf.extend_from_slice(content);
    buf.push(CR);
    buf.push(LF);
    assert(buf@ =~= pre + content@ + seq![CR, LF]);
    proof {
        let new = buf@;
        assert forall|i: int| 0 <= i implies !is_terminator_at(new, i) by {
            if i + 4 <= new.len() {
                if i + 4 <= pre.len() {
                    assert(new[i] == pre[i] && new[i + 1] == pre[i + 1] && new[i + 2] == pre[i + 2]
                        && new[i + 3] == pre[i + 3]);
                    assert(!is_terminator_at(pre, i));
                } else if i >= pre.len() {
                    // the window lies in the line; every byte there but the
                    // final CR LF comes from the content, which has no CR
                    let k = i - pre.len();
                    assert(k + 4 <= content@.len() + 2);
                    assert(new[i] == content@[k]);
                } else if i == pre.len() - 1 {
                    assert(new[i] == pre[pre.len() - 1]);
                } else if i == pre.len() - 2 {
                    assert(new[i + 2] == content@[0]);
                } else {
                    assert(i == pre.len() - 3);
                    assert(new[i + 2] == pre[pre.len() - 1]);
                }
            }
        }
    }
}

/// Close the head with the empty line; the result is a complete head.
pub fn head_finish(buf: &mut Vec<u8>)
    requires
        head_partial(old(buf)@),
        old(buf)@.len() >= 2,
    ensures
        final(buf)@ == old(buf)@ + seq![CR, LF],
        head_wf(final(buf)@),
{
    let ghost pre = buf@;
    buf.push(CR);
    buf.push(LF);
    assert(buf@ =~= pre + seq![CR, LF]);
    proof {
        let new = buf@;
        assert(new[new.len() - 4] == pre[pre.len() - 2]);
        assert(new[new.len() - 3] == pre[pre.len() - 1]);
        assert(is_terminator_at(new, new.len() - 4));
        assert forall|i: int| 0 <= i < new.len() - 4 implies !is_terminator_at(new, i) by {
            if i + 4 <= pre.len() {
                assert(new[i] == pre[i] && new[i + 1] == pre[i + 1] && new[i + 2] == pre[i + 2]
                    && new[i + 3] == pre[i + 3]);
                assert(!is_terminator_at(pre, i));
            } else {
                assert(i == pre.len() - 3);
                assert(new[i + 1] == pre[pre.len() - 2]);
            }
        }
    }
}

/// The position of the first terminator at or after `from`.
pub open spec fn spec_first_terminator_from(b: Seq<u8>, from: int) -> Option<int>
    decreases b.len() - from,
{
    if from < 0 || from + 4 > b.len() {
        None
    } else if is_terminator_at(b, from) {
        Some(from)
    } else {
        spec_first_terminator_from(b, from + 1)
    }
}

/// Where a message's body starts: right after the first terminator.
pub open spec fn spec_body_start(b: Seq<u8>) -> Option<int> {
    match spec_first_terminator_from(b, 0) {
        Some(i) => Some(i + 4),
        None => None,
    }
}

/// The scan finds a terminator that nothing precedes.
pub proof fn lemma_first_terminator_reaches(b: Seq<u8>, from: int, t: int)
    requires
        0 <= from <= t,
        is_terminator_at(b, t),
        forall|i: int| from <= i < t ==> !is_terminator_at(b, i),
    ensures
        spec_first_terminator_from(b, from) == Some(t),
    decreases t - from,
{
    if from < t {
        lemma_first_terminator_reaches(b, from + 1, t);
    }
}

/// Find where the body starts, if the head is complete.
pub fn find_body_start(data: &[u8]) -> (r: Option<usize>)
    ensures
        r is Some <==> spec_body_start(data@) is Some,
        r matches Some(n) ==> Some(n as int) == spec_body_start(data@) && n <= data@.len(),
{
    if data.len() < 4 {
        return None;
    }
    let mut i: usize = 0;
    while i <= data.len() - 4
        invariant
            data@.len() >= 4,
            i <= data@.len() - 3,
            spec_first_terminator_from(data@, 0) == spec_first_terminator_from(data@, i as int),
        decreases data@.len() - i,
    {
        if data[i] == CR && data[i + 1] == LF && data[i + 2] == CR && data[i + 3] == LF {
            assert(is_terminator_at(data@, i as int));
            return Some(i + 4);
        }
        assert(!is_terminator_at(data@, i as int));
        i = i + 1;
    }
    assert(spec_first_terminator_from(data@, i as int) is None);
    None
}

/// Recover the body: everything after the head. An incomplete head is a
/// `ParseError`; a message with an empty body is an `InvalidFormat`.
pub fn unwrap_http(data: &[u8]) -> (r: Result<Vec<u8>, MimicryError>)
    ensures
        spec_body_start(data@) is None ==> r == Err::<Vec<u8>, _>(MimicryError::ParseError),
        spec_body_start(data@) is Some ==> ({
            let n = spec_body_start(data@).unwrap();
            if n >= data@.len() {
                r == Err::<Vec<u8>, MimicryError>(MimicryError::InvalidFormat)
            } else {
                r matches Ok(body) && body@ == data@.skip(n)
            }
        }),
{
    let body_start = match find_body_start(data) {
        Some(n) => n,
        None => {
            return Err(MimicryError::ParseError);
        },
    };
    if body_start >= data.len() {
        return Err(MimicryError::InvalidFormat);
    }
    let body = slice_to_vec(slice_subrange(data, body_start, data.len()));
    assert(body@ =~= data@.skip(spec_body_start(data@).unwrap()));
    Ok(body)
}

/// The round trip at the heart of the wrapper: a complete head followed by
/// any non-empty body parses back to exactly that body — the first
/// terminator of `head + body` is the head's own, wherever `\r\n\r\n` may
/// occur inside the body.
pub proof fn lemma_unwrap_after_wrap(head: Seq<u8>, body: Seq<u8>)
    requires
        head_wf(head),
    ensures
        spec_body_start(head + body) == Some(head.len() as int),
        (head + body).skip(head.len() as int) == body,
{
    let all = head + body;
    let t = head.len() - 4;
    assert(is_terminator_at(all, t)) by {
        assert(all[t] == head[t]);
        assert(all[t + 1] == head[t + 1]);
        assert(all[t + 2] == head[t + 2]);
        assert(all[t + 3] == head[t + 3]);
    }
    assert forall|i: int| 0 <= i < t implies !is_terminator_at(all, i) by {
        assert(all[i] == head[i] && all[i + 1] == head[i + 1] && all[i + 2] == head[i + 2] && all[i
            + 3] == head[i + 3]);
        assert(!is_terminator_at(head, i));
    }
    lemma_first_terminator_reaches(all, 0, t);
    assert(all.skip(head.len() as int) =~= body);
}

/// The bytes of `HTTP/1.1 ` — every response head's first nine bytes.
pub open spec fn spec_http11_prefix() -> Seq<u8> {
    seq![0x48u8, 0x54u8, 0x54u8, 0x50u8, 0x2fu8, 0x31u8, 0x2eu8, 0x31u8, 0x20u8]
}

/// The bytes of `GET ` — every request head's first four bytes.
pub open spec fn spec_get_prefix() -> Seq<u8> {
    seq![0x47u8, 0x45u8, 0x54u8, 0x20u8]
}

/// `sub` occurs in `h` at position `i`.
pub open spec fn seq_contains_at(h: Seq<u8>, sub: Seq<u8>, i: int) -> bool {
    &&& 0 <= i
    &&& i + sub.len() <= h.len()
    &&& h.subrange(i, i + sub.len()) == sub
}

/// The bytes of a `Content-Length` header line announcing `n`.
pub open spec fn spec_content_length_line(n: u64) -> Seq<u8> {
    seq![
        0x43u8, 0x6fu8, 0x6eu8, 0x74u8, 0x65u8, 0x6eu8, 0x74u8, 0x2du8, 0x4cu8, 0x65u8, 0x6eu8,
        0x67u8, 0x74u8, 0x68u8, 0x3au8, 0x20u8,
    ] + spec_udec(n) + seq![CR, LF]
}

/// Line-safe parts concatenate to a line-safe whole.
pub proof fn lemma_line_ok_concat(a: Seq<u8>, b: Seq<u8>)
    requires
        line_ok_bytes(a),
        line_ok_bytes(b),
    ensures
        line_ok_bytes(a + b),
{
    assert forall|i: int| 0 <= i < (a + b).len() implies (a + b)[i] != CR && (a + b)[i] != LF by {
        if i < a.len() {
            assert((a + b)[i] == a[i]);
        } else {
            assert((a + b)[i] == b[i - a.len()]);
        }
    }
}

} // verus!
