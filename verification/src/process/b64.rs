use vstd::prelude::*;

use crate::cli::Base64Format;
use crate::process::ProcessError;

verus! {

// ---------------------------------------------------------------------------
// The alphabet.
// ---------------------------------------------------------------------------
/// The byte that stands for the six-bit value `v` in the selected alphabet.
pub open spec fn b64_digit(v: u8, f: Base64Format) -> u8 {
    if v < 26 {
        (v + 65) as u8  // 'A'..'Z'
    } else if v < 52 {
        (v + 71) as u8  // 'a'..'z'
    } else if v < 62 {
        (v - 4) as u8  // '0'..'9'
    } else if v == 62 {
        if f is UrlSafe {
            45u8  // '-'
        } else {
            43u8  // '+'
        }
    } else {
        if f is UrlSafe {
            95u8  // '_'
        } else {
            47u8  // '/'
        }
    }
}

/// The six-bit value of the byte `c`, or `None` when `c` is outside the
/// selected alphabet.
pub open spec fn b64_value(c: u8, f: Base64Format) -> Option<u8> {
    if 65 <= c && c <= 90 {
        Some((c - 65) as u8)
    } else if 97 <= c && c <= 122 {
        Some((c - 71) as u8)
    } else if 48 <= c && c <= 57 {
        Some((c + 4) as u8)
    } else if c == 43 && f is Standard {
        Some(62u8)
    } else if c == 45 && f is UrlSafe {
        Some(62u8)
    } else if c == 47 && f is Standard {
        Some(63u8)
    } else if c == 95 && f is UrlSafe {
        Some(63u8)
    } else {
        None
    }
}

// ---------------------------------------------------------------------------
// Bytes to six-bit groups and back.
// ---------------------------------------------------------------------------
/// The six-bit groups of a byte sequence, three bytes to four groups, with the
/// final one or two bytes spread over two or three groups.
pub open spec fn sextets_of(s: Seq<u8>) -> Seq<u8>
    decreases s.len(),
{
    if s.len() == 0 {
        Seq::empty()
    } else if s.len() == 1 {
        seq![s[0] >> 2, (s[0] & 3) << 4]
    } else if s.len() == 2 {
        seq![s[0] >> 2, ((s[0] & 3) << 4) | (s[1] >> 4), (s[1] & 15) << 2]
    } else {
        seq![
            s[0] >> 2,
            ((s[0] & 3) << 4) | (s[1] >> 4),
            ((s[1] & 15) << 2) | (s[2] >> 6),
            s[2] & 63,
        ] + sextets_of(s.skip(3))
    }
}

/// The bytes encoded by a sequence of six-bit groups, or `None` when the
/// length cannot arise from an encoding or the unused trailing bits are not
/// zero (the canonical form is required).
pub open spec fn bytes_of_sextets(q: Seq<u8>) -> Option<Seq<u8>>
    decreases q.len(),
{
    if q.len() == 0 {
        Some(Seq::empty())
    } else if q.len() == 1 {
        None
    } else if q.len() == 2 {
        if q[1] & 15 == 0 {
            Some(seq![(q[0] << 2) | (q[1] >> 4)])
        } else {
            None
        }
    } else if q.len() == 3 {
        if q[2] & 3 == 0 {
            Some(seq![(q[0] << 2) | (q[1] >> 4), (q[1] << 4) | (q[2] >> 2)])
        } else {
            None
        }
    } else {
        match bytes_of_sextets(q.skip(4)) {
            Some(rest) => Some(
                seq![(q[0] << 2) | (q[1] >> 4), (q[1] << 4) | (q[2] >> 2), (q[2] << 6) | q[3]]
                    + rest,
            ),
            None => None,
        }
    }
}

// ---------------------------------------------------------------------------
// Encoding and decoding, as sequences.
// ---------------------------------------------------------------------------
/// The alphabet bytes of the six-bit groups of `s`.
pub open spec fn b64_digits(s: Seq<u8>, f: Base64Format) -> Seq<u8> {
    sextets_of(s).map_values(|v: u8| b64_digit(v, f))
}

/// The `=` padding that the standard variant appends, by input length mod 3.
pub open spec fn pad_of(rem: int) -> Seq<u8> {
    if rem == 1 {
        seq![61u8, 61u8]
    } else if rem == 2 {
        seq![61u8]
    } else {
        Seq::empty()
    }
}

/// The encoding of `s` under the variant `f`: alphabet bytes, with padding
/// under the standard variant and none under the URL-safe variant.
pub open spec fn b64_encode_seq(s: Seq<u8>, f: Base64Format) -> Seq<u8> {
    match f {
        Base64Format::Standard => b64_digits(s, f) + pad_of(s.len() as int % 3),
        Base64Format::UrlSafe => b64_digits(s, f),
    }
}

/// The six-bit values of every byte of `t`, or `None` when one is outside the
/// alphabet.
pub open spec fn b64_values(t: Seq<u8>, f: Base64Format) -> Option<Seq<u8>>
    decreases t.len(),
{
    if t.len() == 0 {
        Some(Seq::empty())
    } else {
        match b64_value(t[0], f) {
            Some(v) => match b64_values(t.skip(1), f) {
                Some(rest) => Some(seq![v] + rest),
                None => None,
            },
            None => None,
        }
    }
}

/// `t` without its trailing `=` bytes, of which at most two are removed.
pub open spec fn strip_padding(t: Seq<u8>) -> Seq<u8> {
    if t.len() >= 1 && t[t.len() - 1] == 61 {
        if t.len() >= 2 && t[t.len() - 2] == 61 {
            t.take(t.len() - 2)
        } else {
            t.take(t.len() - 1)
        }
    } else {
        t
    }
}

/// The decoding of `t` under the variant `f`: `None` exactly on the inputs
/// that `decode` rejects, otherwise the decoded bytes.
pub open spec fn b64_decode_seq(t: Seq<u8>, f: Base64Format) -> Option<Seq<u8>> {
    match f {
        Base64Format::Standard => if t.len() % 4 != 0 {
            None
        } else {
            match b64_values(strip_padding(t), f) {
                Some(q) => bytes_of_sextets(q),
                None => None,
            }
        },
        Base64Format::UrlSafe => match b64_values(t, f) {
            Some(q) => bytes_of_sextets(q),
            None => None,
        },
    }
}

/// The characters of a sequence of bytes below 128, one per byte.
pub open spec fn ascii_of(s: Seq<u8>) -> Seq<char> {
    s.map_values(|b: u8| b as char)
}

// ---------------------------------------------------------------------------
// Facts about the encoding.
// ---------------------------------------------------------------------------
/// Every six-bit group is below 64.
pub proof fn lemma_sextets_lt64(s: Seq<u8>)
    ensures
        forall|i: int| 0 <= i < sextets_of(s).len() ==> sextets_of(s)[i] < 64,
    decreases s.len(),
{
    if s.len() == 0 {
    } else if s.len() == 1 {
        let b0 = s[0];
        assert((b0 >> 2) < 64 && ((b0 & 3) << 4) < 64) by (bit_vector);
    } else if s.len() == 2 {
        let b0 = s[0];
        let b1 = s[1];
        assert((b0 >> 2) < 64 && (((b0 & 3) << 4) | (b1 >> 4)) < 64 && ((b1 & 15) << 2) < 64)
            by (bit_vector);
    } else {
        let b0 = s[0];
        let b1 = s[1];
        let b2 = s[2];
        assert((b0 >> 2) < 64 && (((b0 & 3) << 4) | (b1 >> 4)) < 64 && (((b1 & 15) << 2) | (b2
            >> 6)) < 64 && (b2 & 63) < 64) by (bit_vector);
        lemma_sextets_lt64(s.skip(3));
        assert forall|i: int| 0 <= i < sextets_of(s).len() implies sextets_of(s)[i] < 64 by {
            if i >= 4 {
                assert(sextets_of(s)[i] == sextets_of(s.skip(3))[i - 4]);
            }
        }
    }
}

/// A six-bit value below 64 maps into the alphabet and back to itself, never
/// to the padding byte, and always below 128.
pub proof fn lemma_digit_props(v: u8, f: Base64Format)
    requires
        v < 64,
    ensures
        b64_value(b64_digit(v, f), f) == Some(v),
        b64_digit(v, f) != 61,
        b64_digit(v, f) < 128,
{
}

/// Pointwise alphabet membership gives the value sequence as a whole.
proof fn lemma_values_pointwise_some(t: Seq<u8>, q: Seq<u8>, f: Base64Format)
    requires
        t.len() == q.len(),
        forall|j: int| 0 <= j < t.len() ==> b64_value(t[j], f) == Some(q[j]),
    ensures
        b64_values(t, f) == Some(q),
    decreases t.len(),
{
    if t.len() == 0 {
        assert(q =~= Seq::<u8>::empty());
    } else {
        lemma_values_pointwise_some(t.skip(1), q.skip(1), f);
        assert(q =~= seq![q[0]] + q.skip(1));
    }
}

/// One byte outside the alphabet fails the value sequence as a whole.
proof fn lemma_values_pointwise_none(t: Seq<u8>, f: Base64Format, j: int)
    requires
        0 <= j < t.len(),
        b64_value(t[j], f) is None,
    ensures
        b64_values(t, f) is None,
    decreases t.len(),
{
    if j > 0 {
        lemma_values_pointwise_none(t.skip(1), f, j - 1);
    }
}

/// Regrouping the six-bit groups of a byte sequence restores it exactly.
pub proof fn lemma_bytes_of_sextets_of(s: Seq<u8>)
    ensures
        bytes_of_sextets(sextets_of(s)) == Some(s),
    decreases s.len(),
{
    if s.len() == 0 {
        assert(s =~= Seq::<u8>::empty());
    } else if s.len() == 1 {
        let b0 = s[0];
        assert(((b0 & 3) << 4) & 15 == 0) by (bit_vector);
        assert(((b0 >> 2) << 2) | (((b0 & 3) << 4) >> 4) == b0) by (bit_vector);
        assert(s =~= seq![b0]);
    } else if s.len() == 2 {
        let b0 = s[0];
        let b1 = s[1];
        assert(((b1 & 15) << 2) & 3 == 0) by (bit_vector);
        assert(((b0 >> 2) << 2) | ((((b0 & 3) << 4) | (b1 >> 4)) >> 4) == b0) by (bit_vector);
        assert(((((b0 & 3) << 4) | (b1 >> 4)) << 4) | (((b1 & 15) << 2) >> 2) == b1)
            by (bit_vector);
        assert(s =~= seq![b0, b1]);
    } else {
        let b0 = s[0];
        let b1 = s[1];
        let b2 = s[2];
        lemma_bytes_of_sextets_of(s.skip(3));
        let q = sextets_of(s);
        assert(q.skip(4) =~= sextets_of(s.skip(3)));
        assert(((b0 >> 2) << 2) | ((((b0 & 3) << 4) | (b1 >> 4)) >> 4) == b0) by (bit_vector);
        assert(((((b0 & 3) << 4) | (b1 >> 4)) << 4) | ((((b1 & 15) << 2) | (b2 >> 6)) >> 2) == b1)
            by (bit_vector);
        assert(((((b1 & 15) << 2) | (b2 >> 6)) << 6) | (b2 & 63) == b2) by (bit_vector);
        assert(s =~= seq![b0, b1, b2] + s.skip(3));
    }
}

/// The number of six-bit groups, by input length.
pub proof fn lemma_sextets_len(s: Seq<u8>)
    ensures
        sextets_of(s).len() == 4 * (s.len() as int / 3) + (if s.len() % 3 == 0 {
            0int
        } else if s.len() % 3 == 1 {
            2int
        } else {
            3int
        }),
    decreases s.len(),
{
    if s.len() >= 3 {
        lemma_sextets_len(s.skip(3));
    }
}

/// Every byte of an encoding is below 128.
pub proof fn lemma_encode_ascii(s: Seq<u8>, f: Base64Format)
    ensures
        forall|i: int| 0 <= i < b64_encode_seq(s, f).len() ==> b64_encode_seq(s, f)[i] < 128,
{
    lemma_sextets_lt64(s);
    let d = b64_digits(s, f);
    assert forall|i: int| 0 <= i < b64_encode_seq(s, f).len() implies b64_encode_seq(s, f)[i]
        < 128 by {
        if i < d.len() {
            assert(d[i] == b64_digit(sextets_of(s)[i], f));
            lemma_digit_props(sextets_of(s)[i], f);
        }
    }
}

/// The round-trip law: decoding an encoding, under either variant, restores
/// the bytes exactly.
pub proof fn lemma_b64_round_trip(s: Seq<u8>, f: Base64Format)
    ensures
        b64_decode_seq(b64_encode_seq(s, f), f) == Some(s),
{
    let q = sextets_of(s);
    let d = b64_digits(s, f);
    lemma_sextets_lt64(s);
    assert forall|j: int| 0 <= j < d.len() implies b64_value(d[j], f) == Some(q[j]) by {
        assert(d[j] == b64_digit(q[j], f));
        lemma_digit_props(q[j], f);
    }
    lemma_values_pointwise_some(d, q, f);
    lemma_bytes_of_sextets_of(s);
    match f {
        Base64Format::UrlSafe => {
        }
        Base64Format::Standard => {
            lemma_sextets_len(s);
            let t = d + pad_of(s.len() as int % 3);
            assert(t.len() % 4 == 0);
            if s.len() % 3 == 0 {
                assert(t =~= d);
                if d.len() > 0 {
                    assert(d[d.len() - 1] == b64_digit(q[q.len() - 1], f));
                    lemma_digit_props(q[q.len() - 1], f);
                }
                assert(strip_padding(t) == d);
            } else if s.len() % 3 == 1 {
                assert(t[t.len() - 1] == 61 && t[t.len() - 2] == 61);
                assert(strip_padding(t) =~= d);
            } else {
                assert(t[t.len() - 1] == 61);
                assert(t[t.len() - 2] == d[d.len() - 1]);
                assert(d[d.len() - 1] == b64_digit(q[q.len() - 1], f));
                lemma_digit_props(q[q.len() - 1], f);
                assert(strip_padding(t) =~= d);
            }
        }
    }
}

/// The encoder is injective: two byte sequences with the same encoding are
/// the same sequence. A corollary of the round-trip law.
pub proof fn lemma_b64_encode_injective(a: Seq<u8>, b: Seq<u8>, f: Base64Format)
    requires
        b64_encode_seq(a, f) == b64_encode_seq(b, f),
    ensures
        a == b,
{
    lemma_b64_round_trip(a, f);
    lemma_b64_round_trip(b, f);
}

// ---------------------------------------------------------------------------
// The executable codec.
// ---------------------------------------------------------------------------
/// The alphabet byte of a six-bit value.
fn digit_char(v: u8, f: Base64Format) -> (r: u8)
    requires
        v < 64,
    ensures
        r == b64_digit(v, f),
{
    if v < 26 {
        v + 65
    } else if v < 52 {
        v + 71
    } else if v < 62 {
        v - 4
    } else if v == 62 {
        match f {
            Base64Format::Standard => 43,
            Base64Format::UrlSafe => 45,
        }
    } else {
        match f {
            Base64Format::Standard => 47,
            Base64Format::UrlSafe => 95,
        }
    }
}

/// The six-bit value of an alphabet byte, or `None` outside the alphabet.
fn value_char(c: u8, f: Base64Format) -> (r: Option<u8>)
    ensures
        r == b64_value(c, f),
{
    if 65 <= c && c <= 90 {
        Some(c - 65)
    } else if 97 <= c && c <= 122 {
        Some(c - 71)
    } else if 48 <= c && c <= 57 {
        Some(c + 4)
    } else {
        match f {
            Base64Format::Standard => if c == 43 {
                Some(62)
            } else if c == 47 {
                Some(63)
            } else {
                None
            },
            Base64Format::UrlSafe => if c == 45 {
                Some(62)
            } else if c == 95 {
                Some(63)
            } else {
                None
            },
        }
    }
}

/// Encodes arbitrary bytes into alphabet bytes under the selected variant.
pub fn encode(data: &[u8], format: Base64Format) -> (r: Vec<u8>)
    ensures
        r@ == b64_encode_seq(data@, format),
{
    let n = data.len();
    let mut q: Vec<u8> = Vec::new();
    let mut i: usize = 0;
    proof {
        assert(data@.skip(0) =~= data@);
        assert(q@ + sextets_of(data@) =~= sextets_of(data@));
    }
    while n - i >= 3
        invariant
            i <= n,
            n == data@.len(),
            sextets_of(data@) == q@ + sextets_of(data@.skip(i as int)),
        decreases n - i,
    {
        let ghost pre_q = q@;
        let ghost ii = i as int;
        let b0 = data[i];
        let b1 = data[i + 1];
        let b2 = data[i + 2];
        q.push(b0 >> 2);
        q.push(((b0 & 3) << 4) | (b1 >> 4));
        q.push(((b1 & 15) << 2) | (b2 >> 6));
        q.push(b2 & 63);
        i = i + 3;
        proof {
            let g = seq![b0 >> 2, ((b0 & 3) << 4) | (b1 >> 4), ((b1 & 15) << 2) | (b2 >> 6), b2
                & 63];
            assert(q@ =~= pre_q + g);
            assert(data@.skip(ii)[0] == b0 && data@.skip(ii)[1] == b1 && data@.skip(ii)[2] == b2);
            assert(data@.skip(ii).skip(3) =~= data@.skip(ii + 3));
            assert(sextets_of(data@.skip(ii)) == g + sextets_of(data@.skip(ii + 3)));
            assert(pre_q + (g + sextets_of(data@.skip(ii + 3))) =~= (pre_q + g) + sextets_of(
                data@.skip(ii + 3)));
        }
    }
    let ghost pre_q = q@;
    let ghost ii = i as int;
    if n - i == 1 {
        let b0 = data[i];
        q.push(b0 >> 2);
        q.push((b0 & 3) << 4);
        proof {
            assert(data@.skip(ii)[0] == b0);
            assert(q@ =~= pre_q + seq![b0 >> 2, (b0 & 3) << 4]);
        }
    } else if n - i == 2 {
        let b0 = data[i];
        let b1 = data[i + 1];
        q.push(b0 >> 2);
        q.push(((b0 & 3) << 4) | (b1 >> 4));
        q.push((b1 & 15) << 2);
        proof {
            assert(data@.skip(ii)[0] == b0 && data@.skip(ii)[1] == b1);
            assert(q@ =~= pre_q + seq![b0 >> 2, ((b0 & 3) << 4) | (b1 >> 4), (b1 & 15) << 2]);
        }
    } else {
        proof {
            assert(sextets_of(data@.skip(ii)) =~= Seq::<u8>::empty());
            assert(q@ =~= pre_q + Seq::<u8>::empty());
        }
    }
    assert(q@ == sextets_of(data@));
    proof {
        lemma_sextets_lt64(data@);
    }
    let m = q.len();
    let mut out: Vec<u8> = Vec::new();
    let mut j: usize = 0;
    while j < m
        invariant
            j <= m,
            m == q@.len(),
            q@ == sextets_of(data@),
            out@.len() == j,
            forall|k: int| 0 <= k < q@.len() ==> q@[k] < 64,
            forall|k: int| 0 <= k < j ==> out@[k] == b64_digit(q@[k], format),
        decreases m - j,
    {
        out.push(digit_char(q[j], format));
        j += 1;
    }
    assert(out@ =~= b64_digits(data@, format));
    match format {
        Base64Format::Standard => {
            let rem = n % 3;
            let ghost digits = out@;
            if rem == 1 {
                out.push(61);
                out.push(61);
            } else if rem == 2 {
                out.push(61);
            }
            proof {
                assert(out@ =~= digits + pad_of(data@.len() as int % 3));
            }
        }
        Base64Format::UrlSafe => {
        }
    }
    out
}

/// Decodes alphabet bytes under the selected variant; every rejected input
/// yields `EncodingError`.
pub fn decode(text: &[u8], format: Base64Format) -> (r: Result<Vec<u8>, ProcessError>)
    ensures
        b64_decode_seq(text@, format) matches Some(v) ==> (r matches Ok(out) && out@ == v),
        b64_decode_seq(text@, format) is None ==> r == Err::<Vec<u8>, ProcessError>(
            ProcessError::EncodingError,
        ),
{
    let n = text.len();
    let mut end = n;
    match format {
        Base64Format::Standard => {
            if n % 4 != 0 {
                return Err(ProcessError::EncodingError);
            }
            if end >= 1 && text[end - 1] == 61 {
                if end >= 2 && text[end - 2] == 61 {
                    end = end - 2;
                } else {
                    end = end - 1;
                }
            }
        }
        Base64Format::UrlSafe => {
        }
    }
    let ghost body = if format is Standard {
        strip_padding(text@)
    } else {
        text@
    };
    proof {
        assert(body =~= text@.take(end as int));
    }
    let mut vals: Vec<u8> = Vec::new();
    let mut k: usize = 0;
    while k < end
        invariant
            k <= end,
            end <= n,
            n == text@.len(),
            body == text@.take(end as int),
            body == (if format is Standard {
                strip_padding(text@)
            } else {
                text@
            }),
            vals@.len() == k,
            forall|j: int| 0 <= j < k ==> b64_value(body[j], format) == Some(vals@[j]),
        decreases end - k,
    {
        match value_char(text[k], format) {
            Some(v) => {
                vals.push(v);
            },
            None => {
                proof {
                    assert(body[k as int] == text@[k as int]);
                    lemma_values_pointwise_none(body, format, k as int);
                }
                return Err(ProcessError::EncodingError);
            },
        }
        k += 1;
    }
    proof {
        lemma_values_pointwise_some(body, vals@, format);
    }
    let m = vals.len();
    let mut out: Vec<u8> = Vec::new();
    let mut i: usize = 0;
    proof {
        assert(vals@.skip(0) =~= vals@);
        match bytes_of_sextets(vals@) {
            Some(rest) => {
                assert(out@ + rest =~= rest);
            },
            None => {
            },
        }
    }
    while m - i >= 4
        invariant
            i <= m,
            m == vals@.len(),
            b64_values(body, format) == Some(vals@),
            body == (if format is Standard {
                strip_padding(text@)
            } else {
                text@
            }),
            n == text@.len(),
            format is Standard ==> n % 4 == 0,
            match bytes_of_sextets(vals@.skip(i as int)) {
                Some(rest) => bytes_of_sextets(vals@) == Some(out@ + rest),
                None => bytes_of_sextets(vals@) is None,
            },
        decreases m - i,
    {
        let ghost pre_out = out@;
        let ghost ii = i as int;
        let q0 = vals[i];
        let q1 = vals[i + 1];
        let q2 = vals[i + 2];
        let q3 = vals[i + 3];
        out.push((q0 << 2) | (q1 >> 4));
        out.push((q1 << 4) | (q2 >> 2));
        out.push((q2 << 6) | q3);
        i += 4;
        proof {
            let g = seq![(q0 << 2) | (q1 >> 4), (q1 << 4) | (q2 >> 2), (q2 << 6) | q3];
            assert(out@ =~= pre_out + g);
            assert(vals@.skip(ii)[0] == q0 && vals@.skip(ii)[1] == q1 && vals@.skip(ii)[2] == q2
                && vals@.skip(ii)[3] == q3);
            assert(vals@.skip(ii).skip(4) =~= vals@.skip(ii + 4));
            match bytes_of_sextets(vals@.skip(ii + 4)) {
                Some(rest) => {
                    assert(bytes_of_sextets(vals@.skip(ii)) == Some(g + rest));
                    assert(pre_out + (g + rest) =~= (pre_out + g) + rest);
                },
                None => {
                    assert(bytes_of_sextets(vals@.skip(ii)) is None);
                },
            }
        }
    }
    let rem = m - i;
    if rem == 1 {
        return Err(ProcessError::EncodingError);
    } else if rem == 2 {
        let q0 = vals[i];
        let q1 = vals[i + 1];
        if q1 & 15 != 0 {
            return Err(ProcessError::EncodingError);
        }
        let ghost pre_out = out@;
        out.push((q0 << 2) | (q1 >> 4));
        proof {
            assert(vals@.skip(i as int)[0] == q0 && vals@.skip(i as int)[1] == q1);
            assert(bytes_of_sextets(vals@.skip(i as int)) == Some(seq![(q0 << 2) | (q1 >> 4)]));
            assert(pre_out + seq![(q0 << 2) | (q1 >> 4)] =~= out@);
        }
        Ok(out)
    } else if rem == 3 {
        let q0 = vals[i];
        let q1 = vals[i + 1];
        let q2 = vals[i + 2];
        if q2 & 3 != 0 {
            return Err(ProcessError::EncodingError);
        }
        let ghost pre_out = out@;
        out.push((q0 << 2) | (q1 >> 4));
        out.push((q1 << 4) | (q2 >> 2));
        proof {
            assert(vals@.skip(i as int)[0] == q0 && vals@.skip(i as int)[1] == q1 && vals@.skip(
                i as int)[2] == q2);
            assert(bytes_of_sextets(vals@.skip(i as int)) == Some(
                seq![(q0 << 2) | (q1 >> 4), (q1 << 4) | (q2 >> 2)],
            ));
            assert(pre_out + seq![(q0 << 2) | (q1 >> 4), (q1 << 4) | (q2 >> 2)] =~= out@);
        }
        Ok(out)
    } else {
        proof {
            assert(bytes_of_sextets(vals@.skip(i as int)) == Some(Seq::<u8>::empty()));
            assert(out@ + Seq::<u8>::empty() =~= out@);
        }
        Ok(out)
    }
}

/// Relies on String::from_utf8: decoding bytes that are all below 128 yields
/// one character per byte, with the same code point values.
#[verifier::external_body]
fn ascii_string(bytes: Vec<u8>) -> (r: String)
    requires
        forall|i: int| 0 <= i < bytes@.len() ==> bytes@[i] < 128,
    ensures
        r@ == ascii_of(bytes@),
{
    String::from_utf8(bytes).unwrap_or_default()
}

/// Encodes bytes and carries the result as text.
pub fn process_encode(input: &[u8], format: Base64Format) -> (r: String)
    ensures
        r@ == ascii_of(b64_encode_seq(input@, format)),
{
    let encoded = encode(input, format);
    proof {
        lemma_encode_ascii(input@, format);
    }
    ascii_string(encoded)
}

/// Decodes base64 text, handed over as its bytes.
pub fn process_decode(input: &[u8], format: Base64Format) -> (r: Result<Vec<u8>, ProcessError>)
    ensures
        b64_decode_seq(input@, format) matches Some(v) ==> (r matches Ok(out) && out@ == v),
        b64_decode_seq(input@, format) is None ==> r == Err::<Vec<u8>, ProcessError>(
            ProcessError::EncodingError,
        ),
{
    decode(input, format)
}

} // verus!
