//! Byte-exact multipart stream framing.
//!
//! A continuous stream is a sequence of parts, each the literal boundary
//! marker, a content-type and content-length header block, and exactly as
//! many payload bytes as the length header names. The framing is stated
//! as spec functions over byte sequences, the emitter is proved to
//! produce it exactly, and a demuxer is proved to recover from the
//! emitted stream precisely the sequence of payloads that went in.

use vstd::prelude::*;

verus! {

/// `is_digit(b)` holds when `b` is an ASCII decimal digit.
pub open spec fn is_digit(b: u8) -> bool {
    48 <= b <= 57
}

/// The boundary marker emitted before every part:
/// `"\r\n--123456789000000000000987654321\r\n"` as bytes. The boundary
/// token between the dashes is the fixed constant shared with consumers.
pub open spec fn boundary_marker() -> Seq<u8> {
    seq![
        13u8, 10, 45, 45,
        49, 50, 51, 52, 53, 54, 55, 56, 57,
        48, 48, 48, 48, 48, 48, 48, 48, 48, 48, 48, 48,
        57, 56, 55, 54, 53, 52, 51, 50, 49,
        13, 10,
    ]
}

/// The per-part header bytes up to the length value:
/// `"Content-Type: image/jpeg\r\nContent-Length: "`.
pub open spec fn header_prefix() -> Seq<u8> {
    seq![
        67u8, 111, 110, 116, 101, 110, 116, 45, 84, 121, 112, 101, 58, 32,
        105, 109, 97, 103, 101, 47, 106, 112, 101, 103,
        13, 10,
        67, 111, 110, 116, 101, 110, 116, 45, 76, 101, 110, 103, 116, 104, 58, 32,
    ]
}

/// The header terminator: `"\r\n\r\n"`.
pub open spec fn double_crlf() -> Seq<u8> {
    seq![13u8, 10, 13, 10]
}

/// The decimal digits of `n`, most significant first, with no sign and
/// no leading zero (`0` is written as one digit).
pub open spec fn dec_digits(n: nat) -> Seq<u8>
    decreases n,
{
    if n < 10 {
        seq![(48 + n) as u8]
    } else {
        dec_digits(n / 10).push((48 + n % 10) as u8)
    }
}

/// The exact bytes of one stream part carrying `payload`.
pub open spec fn part_for(payload: Seq<u8>) -> Seq<u8> {
    boundary_marker() + header_prefix() + dec_digits(payload.len()) + double_crlf() + payload
}

/// The exact bytes of the whole stream carrying `payloads`, in order.
pub open spec fn stream_for(payloads: Seq<Seq<u8>>) -> Seq<u8>
    decreases payloads.len(),
{
    if payloads.len() == 0 {
        Seq::empty()
    } else {
        part_for(payloads[0]) + stream_for(payloads.drop_first())
    }
}

/// Length of the maximal run of digits at the front of `s`.
pub open spec fn digit_run(s: Seq<u8>) -> nat
    decreases s.len(),
{
    if s.len() == 0 || !is_digit(s[0]) {
        0
    } else {
        1 + digit_run(s.drop_first())
    }
}

/// The value of a sequence of decimal digits, most significant first.
pub open spec fn digits_value(s: Seq<u8>) -> nat
    decreases s.len(),
{
    if s.len() == 0 {
        0
    } else {
        (digits_value(s.drop_last()) * 10 + (s.last() - 48)) as nat
    }
}

/// A conformant demuxer's reading of one part at the front of `s`:
/// the payload it carries and the count of bytes the part occupies, or
/// nothing when `s` does not begin with a well-formed part. The payload
/// is cut by the length header alone, never by searching it for the
/// boundary.
pub open spec fn parse_part(s: Seq<u8>) -> Option<(Seq<u8>, nat)> {
    let head = boundary_marker() + header_prefix();
    if s.len() >= head.len() && s.take(head.len() as int) == head {
        let t = s.skip(head.len() as int);
        let k = digit_run(t);
        if k == 0 {
            None
        } else {
            let n = digits_value(t.take(k as int));
            if t.len() >= k + 4 && t.subrange(k as int, k as int + 4) == double_crlf() && t.len()
                >= k + 4 + n {
                Some((t.subrange(k as int + 4, (k + 4 + n) as int), head.len() + k + 4 + n))
            } else {
                None
            }
        }
    } else {
        None
    }
}

/// A conformant demuxer's reading of a whole stream: the sequence of
/// payloads it carries, or nothing when the bytes are not a whole number
/// of well-formed parts.
pub open spec fn demux(s: Seq<u8>) -> Option<Seq<Seq<u8>>>
    decreases s.len(),
{
    if s.len() == 0 {
        Some(Seq::empty())
    } else {
        match parse_part(s) {
            None => None,
            Some((p, c)) => if 1 <= c <= s.len() {
                match demux(s.skip(c as int)) {
                    None => None,
                    Some(rest) => Some(seq![p] + rest),
                }
            } else {
                None
            },
        }
    }
}

/// Builds the boundary marker bytes.
pub fn boundary_marker_vec() -> (r: Vec<u8>)
    ensures
        r@ == boundary_marker(),
{
    let r: Vec<u8> = vec![
        13u8, 10, 45, 45,
        49, 50, 51, 52, 53, 54, 55, 56, 57,
        48, 48, 48, 48, 48, 48, 48, 48, 48, 48, 48, 48,
        57, 56, 55, 54, 53, 52, 51, 50, 49,
        13, 10,
    ];
    proof {
        assert(r@ =~= boundary_marker());
    }
    r
}

/// Builds the per-part header prefix bytes.
pub fn header_prefix_vec() -> (r: Vec<u8>)
    ensures
        r@ == header_prefix(),
{
    let r: Vec<u8> = vec![
        67u8, 111, 110, 116, 101, 110, 116, 45, 84, 121, 112, 101, 58, 32,
        105, 109, 97, 103, 101, 47, 106, 112, 101, 103,
        13, 10,
        67, 111, 110, 116, 101, 110, 116, 45, 76, 101, 110, 103, 116, 104, 58, 32,
    ];
    proof {
        assert(r@ =~= header_prefix());
    }
    r
}

/// Writes `n` in decimal, for the length header and for the
/// content-length of a single-frame response.
pub fn decimal_bytes(n: u64) -> (r: Vec<u8>)
    ensures
        r@ == dec_digits(n as nat),
    decreases n,
{
    if n < 10 {
        let mut r: Vec<u8> = Vec::new();
        r.push(48 + n as u8);
        proof {
            assert(r@ =~= dec_digits(n as nat));
        }
        r
    } else {
        let mut r = decimal_bytes(n / 10);
        r.push(48 + (n % 10) as u8);
        r
    }
}

/// Emits the exact bytes of one stream part carrying `payload`: the
/// boundary marker, the header block naming the payload's exact byte
/// count, and the payload itself.
pub fn encode_part(payload: &Vec<u8>) -> (r: Vec<u8>)
    ensures
        r@ == part_for(payload@),
{
    let mut r = boundary_marker_vec();
    let mut hdr = header_prefix_vec();
    r.append(&mut hdr);
    let mut dec = decimal_bytes(payload.len() as u64);
    r.append(&mut dec);
    r.push(13);
    r.push(10);
    r.push(13);
    r.push(10);
    let ghost head = boundary_marker() + header_prefix() + dec_digits(payload@.len())
        + double_crlf();
    proof {
        assert(r@ =~= head);
    }
    let mut i: usize = 0;
    while i < payload.len()
        invariant
            i <= payload.len(),
            r@ == head + payload@.take(i as int),
        decreases payload.len() - i,
    {
        r.push(payload[i]);
        proof {
            assert(r@ =~= head + payload@.take(i + 1 as int));
        }
        i += 1;
    }
    proof {
        assert(payload@.take(payload@.len() as int) =~= payload@);
        assert(r@ =~= part_for(payload@));
    }
    r
}

/// Builds the header terminator bytes.
pub fn double_crlf_vec() -> (r: Vec<u8>)
    ensures
        r@ == double_crlf(),
{
    let r: Vec<u8> = vec![13u8, 10, 13, 10];
    proof {
        assert(r@ =~= double_crlf());
    }
    r
}

/// Whether byte `i` of `bytes` exists and is a decimal digit.
fn digit_at(bytes: &[u8], i: usize) -> (r: bool)
    ensures
        r == (i < bytes@.len() && is_digit(bytes@[i as int])),
{
    if i < bytes.len() {
        let b = bytes[i];
        48 <= b && b <= 57
    } else {
        false
    }
}

/// Whether `bytes` continues with exactly `pat` at position `pos`.
fn match_at(bytes: &[u8], pos: usize, pat: &Vec<u8>) -> (r: bool)
    requires
        pos <= bytes@.len(),
    ensures
        r == (bytes@.skip(pos as int).len() >= pat@.len() && bytes@.skip(pos as int).take(
            pat@.len() as int,
        ) == pat@),
{
    if bytes.len() - pos < pat.len() {
        return false;
    }
    let blen = bytes.len();
    let n = pat.len();
    let mut k: usize = 0;
    while k < n
        invariant
            k <= n,
            pos + n <= blen,
            blen == bytes@.len(),
            n == pat@.len(),
            forall|j: int| 0 <= j < k ==> bytes@[pos + j] == pat@[j],
        decreases n - k,
    {
        if bytes[pos + k] != pat[k] {
            proof {
                assert(bytes@.skip(pos as int).take(pat@.len() as int)[k as int] == bytes@[pos + k]);
            }
            return false;
        }
        k += 1;
    }
    proof {
        assert(bytes@.skip(pos as int).take(pat@.len() as int) =~= pat@);
    }
    true
}

/// The digit run of a sequence is `k` exactly when its first `k` bytes
/// are digits and the byte after them, if any, is not.
proof fn lemma_digit_run_char(s: Seq<u8>, k: nat)
    requires
        k <= s.len(),
        forall|j: int| 0 <= j < k ==> is_digit(#[trigger] s[j]),
        k < s.len() ==> !is_digit(s[k as int]),
    ensures
        digit_run(s) == k,
    decreases k,
{
    if k == 0 {
    } else {
        lemma_digit_run_char(s.drop_first(), (k - 1) as nat);
    }
}

/// Scans the digit run at position `pos`: its length, and its value when
/// that value fits a `usize` (`r.2` marks a value too large to fit).
fn scan_digits(bytes: &[u8], pos: usize) -> (r: (usize, usize, bool))
    requires
        pos <= bytes@.len(),
    ensures
        r.0 == digit_run(bytes@.skip(pos as int)),
        r.0 <= bytes@.len() - pos,
        !r.2 ==> r.1 == digits_value(bytes@.skip(pos as int).take(r.0 as int)),
        r.2 ==> digits_value(bytes@.skip(pos as int).take(r.0 as int)) > usize::MAX,
{
    let ghost t = bytes@.skip(pos as int);
    let blen = bytes.len();
    let mut k: usize = 0;
    let mut n: usize = 0;
    let mut big = false;
    while digit_at(bytes, pos + k)
        invariant
            pos + k <= blen,
            blen == bytes@.len(),
            t == bytes@.skip(pos as int),
            forall|j: int| 0 <= j < k ==> is_digit(#[trigger] t[j]),
            !big ==> n == digits_value(t.take(k as int)),
            big ==> digits_value(t.take(k as int)) > usize::MAX,
        decreases bytes@.len() - pos - k,
    {
        let b = bytes[pos + k];
        let d = (b - 48) as usize;
        proof {
            assert(t[k as int] == bytes@[pos + k]);
            assert(t.take(k + 1 as int).drop_last() =~= t.take(k as int));
            assert(t.take(k + 1 as int).last() == t[k as int]);
        }
        if big {
            proof {
                vstd::arithmetic::mul::lemma_mul_inequality(1, 10, digits_value(t.take(k as int)) as int);
            }
        } else if n > (usize::MAX - d) / 10 {
            proof {
                vstd::arithmetic::div_mod::lemma_fundamental_div_mod((usize::MAX - d) as int, 10);
            }
            big = true;
        } else {
            proof {
                vstd::arithmetic::div_mod::lemma_fundamental_div_mod((usize::MAX - d) as int, 10);
            }
            n = n * 10 + d;
        }
        k += 1;
    }
    proof {
        lemma_digit_run_char(t, k as nat);
    }
    (k, n, big)
}

/// Reads an emitted stream back into its payloads, from position `pos`.
fn demux_from(bytes: &[u8], pos: usize, head: &Vec<u8>, dcrlf: &Vec<u8>) -> (r: Option<
    Vec<Vec<u8>>,
>)
    requires
        pos <= bytes@.len(),
        head@ == boundary_marker() + header_prefix(),
        dcrlf@ == double_crlf(),
    ensures
        match r {
            Some(parts) => demux(bytes@.skip(pos as int)) matches Some(ps) && parts.deep_view()
                == ps,
            None => demux(bytes@.skip(pos as int)) is None,
        },
    decreases bytes@.len() - pos,
{
    let ghost s = bytes@.skip(pos as int);
    let blen = bytes.len();
    if bytes.len() - pos == 0 {
        let parts: Vec<Vec<u8>> = Vec::new();
        proof {
            assert(parts.deep_view() =~= Seq::<Seq<u8>>::empty());
        }
        return Some(parts);
    }
    if !match_at(bytes, pos, head) {
        return None;
    }
    let digits_pos = pos + head.len();
    let ghost t = bytes@.skip(digits_pos as int);
    proof {
        assert(t =~= s.skip(head@.len() as int));
        assert(s.take(head@.len() as int) == head@);
    }
    let (k, n, big) = scan_digits(bytes, digits_pos);
    if k == 0 {
        return None;
    }
    let crlf_pos = digits_pos + k;
    if !match_at(bytes, crlf_pos, dcrlf) {
        proof {
            assert(bytes@.skip(crlf_pos as int) =~= t.skip(k as int));
            if t.len() >= k + 4 {
                assert(t.subrange(k as int, k as int + 4) =~= t.skip(k as int).take(4));
            }
        }
        return None;
    }
    proof {
        assert(bytes@.skip(crlf_pos as int) =~= t.skip(k as int));
        assert(t.subrange(k as int, k as int + 4) =~= t.skip(k as int).take(4));
    }
    let body_pos = crlf_pos + 4;
    let rem = bytes.len() - body_pos;
    if big || rem < n {
        proof {
            assert(t.len() < k + 4 + digits_value(t.take(k as int)));
        }
        return None;
    }
    let mut payload: Vec<u8> = Vec::new();
    let mut i: usize = 0;
    while i < n
        invariant
            i <= n,
            body_pos + n <= blen,
            blen == bytes@.len(),
            payload@ =~= bytes@.subrange(body_pos as int, body_pos + i),
        decreases n - i,
    {
        payload.push(bytes[body_pos + i]);
        i += 1;
    }
    proof {
        assert(payload@ =~= t.subrange(k as int + 4, k + 4 + n));
        assert(parse_part(s) == Some((payload@, (head@.len() + k + 4 + n) as nat)));
    }
    let next_pos = body_pos + n;
    proof {
        assert(bytes@.skip(next_pos as int) =~= s.skip((head@.len() + k + 4 + n) as int));
    }
    match demux_from(bytes, next_pos, head, dcrlf) {
        None => None,
        Some(mut rest) => {
            let ghost rest_dv = rest.deep_view();
            let ghost payload_dv = payload@;
            let mut parts: Vec<Vec<u8>> = Vec::new();
            parts.push(payload);
            parts.append(&mut rest);
            proof {
                assert(parts.deep_view() =~~= seq![payload_dv] + rest_dv);
            }
            Some(parts)
        },
    }
}

/// A conformant demuxer over the fixed boundary: reads an emitted stream
/// back into exactly the payloads it carries, or nothing when the bytes
/// are not a whole number of well-formed parts.
pub fn demux_stream(bytes: &[u8]) -> (r: Option<Vec<Vec<u8>>>)
    ensures
        match r {
            Some(parts) => demux(bytes@) matches Some(ps) && parts.deep_view() == ps,
            None => demux(bytes@) is None,
        },
{
    let mut head = boundary_marker_vec();
    let mut hdr = header_prefix_vec();
    head.append(&mut hdr);
    let dcrlf = double_crlf_vec();
    proof {
        assert(bytes@.skip(0) =~= bytes@);
    }
    demux_from(bytes, 0, &head, &dcrlf)
}

/// Every decimal representation is nonempty and made of digits only.
pub proof fn lemma_dec_digits_are_digits(n: nat)
    ensures
        dec_digits(n).len() >= 1,
        forall|i: int| 0 <= i < dec_digits(n).len() ==> is_digit(#[trigger] dec_digits(n)[i]),
    decreases n,
{
    if n >= 10 {
        lemma_dec_digits_are_digits(n / 10);
    }
}

/// A digit run stops exactly at the first non-digit: in front of a
/// non-digit byte, a run of digits is read back as itself.
pub proof fn lemma_digit_run_exact(d: Seq<u8>, rest: Seq<u8>)
    requires
        forall|i: int| 0 <= i < d.len() ==> is_digit(#[trigger] d[i]),
        rest.len() > 0,
        !is_digit(rest[0]),
    ensures
        digit_run(d + rest) == d.len(),
    decreases d.len(),
{
    if d.len() == 0 {
        assert(d + rest =~= rest);
    } else {
        assert((d + rest).drop_first() =~= d.drop_first() + rest);
        lemma_digit_run_exact(d.drop_first(), rest);
    }
}

/// Reading the decimal digits of `n` back as a number yields `n`.
pub proof fn lemma_digits_value_round(n: nat)
    ensures
        digits_value(dec_digits(n)) == n,
    decreases n,
{
    if n < 10 {
        assert(dec_digits(n).drop_last() =~= Seq::<u8>::empty());
        assert(digits_value(Seq::<u8>::empty()) == 0);
        assert(dec_digits(n).last() == (48 + n) as u8);
    } else {
        lemma_digits_value_round(n / 10);
        assert(dec_digits(n).drop_last() =~= dec_digits(n / 10));
        vstd::arithmetic::div_mod::lemma_fundamental_div_mod(n as int, 10);
    }
}

/// A well-formed part followed by anything that does not begin with a
/// digit is parsed back exactly: the payload comes out unchanged and the
/// parse consumes precisely the part.
pub proof fn lemma_parse_part_round(p: Seq<u8>, rest: Seq<u8>)
    requires
        rest.len() > 0 ==> !is_digit(rest[0]),
    ensures
        part_for(p).len() >= 1,
        parse_part(part_for(p) + rest) matches Some(r) && r.0 == p && r.1 == part_for(p).len()
            && (part_for(p) + rest).skip(r.1 as int) == rest,
{
    let head = boundary_marker() + header_prefix();
    let dec = dec_digits(p.len());
    let s = part_for(p) + rest;
    lemma_dec_digits_are_digits(p.len());
    lemma_digits_value_round(p.len());
    assert(s.take(head.len() as int) =~= head);
    let t = s.skip(head.len() as int);
    assert(t =~= dec + (double_crlf() + p + rest));
    assert(!is_digit(double_crlf()[0]));
    assert((double_crlf() + p + rest).len() > 0);
    assert((double_crlf() + p + rest)[0] == 13);
    lemma_digit_run_exact(dec, double_crlf() + p + rest);
    assert(digit_run(t) == dec.len());
    assert(t.take(dec.len() as int) =~= dec);
    assert(t.subrange(dec.len() as int, dec.len() as int + 4) =~= double_crlf());
    assert(t.len() >= dec.len() + 4 + p.len());
    assert(t.subrange(dec.len() as int + 4, (dec.len() + 4 + p.len()) as int) =~= p);
    assert(s.skip((head.len() + dec.len() + 4 + p.len()) as int) =~= rest);
}

/// A nonempty emitted stream begins with the boundary marker's first
/// byte, which is not a digit.
pub proof fn lemma_stream_head(payloads: Seq<Seq<u8>>)
    ensures
        stream_for(payloads).len() > 0 ==> stream_for(payloads)[0] == 13,
        payloads.len() > 0 ==> stream_for(payloads).len() > 0,
{
    if payloads.len() > 0 {
        assert(stream_for(payloads) == part_for(payloads[0]) + stream_for(payloads.drop_first()));
        assert(part_for(payloads[0])[0] == 13);
    }
}

/// Multipart framing is invertible: the stream emitted for any sequence
/// of frame payloads, read by a conformant demuxer using the fixed
/// boundary, yields exactly those payloads, each with its exact byte
/// count and contents.
#[verifier::rlimit(50)]
pub proof fn lemma_stream_round_trip(payloads: Seq<Seq<u8>>)
    ensures
        demux(stream_for(payloads)) == Some(payloads),
    decreases payloads.len(),
{
    if payloads.len() == 0 {
        assert(payloads =~= Seq::<Seq<u8>>::empty());
    } else {
        let p0 = payloads[0];
        let tail = payloads.drop_first();
        let s = stream_for(payloads);
        assert(s == part_for(p0) + stream_for(tail));
        lemma_stream_head(tail);
        if stream_for(tail).len() > 0 {
            assert(!is_digit(stream_for(tail)[0]));
        }
        lemma_parse_part_round(p0, stream_for(tail));
        let c = part_for(p0).len();
        assert(s.len() > 0);
        assert(parse_part(s) == Some((p0, c as nat)));
        assert(s.skip(c as int) == stream_for(tail));
        lemma_stream_round_trip(tail);
        assert(demux(s.skip(c as int)) == Some(tail));
        assert(1 <= c <= s.len());
        assert(demux(s) == Some(seq![p0] + tail));
        assert(seq![p0] + tail =~= payloads);
    }
}

} // verus!
