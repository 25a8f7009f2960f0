use vstd::prelude::*;
use crate::error::PipelineError;
use crate::format::{classify, has_canonical_tags, FormatVerdict};

verus! {

/// Size of the canonical container header that precedes the sample data.
pub const HEADER_LEN: usize = 44;

/// The signed 16-bit value stored little-endian in `lo`, `hi`.
pub open spec fn le_i16(lo: u8, hi: u8) -> i16 {
    let v = lo as int + 256 * (hi as int);
    (if v >= 32768 {
        v - 65536
    } else {
        v
    }) as i16
}

/// Each consecutive non-overlapping pair of bytes read as one sample; a
/// trailing odd byte is dropped.
pub open spec fn spec_samples(data: Seq<u8>) -> Seq<i16> {
    Seq::new(data.len() / 2, |i: int| le_i16(data[2 * i], data[2 * i + 1]))
}

/// The little-endian bytes of a sample sequence.
pub open spec fn le_bytes(s: Seq<i16>) -> Seq<u8> {
    Seq::new(
        2 * s.len(),
        |j: int|
            {
                let u: int = if s[j / 2] < 0 {
                    s[j / 2] + 65536
                } else {
                    s[j / 2] as int
                };
                (if j % 2 == 0 {
                    u % 256
                } else {
                    u / 256
                }) as u8
            },
    )
}

/// Where the sample data starts: after the header when the tags claim one.
pub open spec fn spec_data_start(audio: Seq<u8>) -> int {
    if has_canonical_tags(audio) {
        HEADER_LEN as int
    } else {
        0
    }
}

/// What decoding a buffer gives: its samples, or why there are none.
pub open spec fn spec_decode(audio: Seq<u8>) -> Result<Seq<i16>, PipelineError> {
    let start = spec_data_start(audio);
    if audio.len() == 0 || audio.len() <= start {
        Err(PipelineError::InputTooSmall)
    } else if audio.len() - start < 2 {
        Err(PipelineError::NoAudioData)
    } else {
        Ok(spec_samples(audio.subrange(start, audio.len() as int)))
    }
}

fn read_le_i16(lo: u8, hi: u8) -> (r: i16)
    ensures
        r == le_i16(lo, hi),
{
    let v: i32 = lo as i32 + 256 * (hi as i32);
    if v >= 32768 {
        (v - 65536) as i16
    } else {
        v as i16
    }
}

/// Decodes 16-bit little-endian PCM samples, skipping the canonical header
/// when the buffer's tags claim one.
pub fn bytes_to_samples(audio: &[u8]) -> (r: Result<Vec<i16>, PipelineError>)
    ensures
        match (r, spec_decode(audio@)) {
            (Ok(v), Ok(s)) => v@ == s,
            (Err(e), Err(f)) => e == f,
            _ => false,
        },
{
    let len = audio.len();
    let start: usize = if classify(audio) == FormatVerdict::CanonicalPcm {
        HEADER_LEN
    } else {
        0
    };
    assert(start as int == spec_data_start(audio@));
    if len == 0 || len <= start {
        return Err(PipelineError::InputTooSmall);
    }
    if len - start < 2 {
        return Err(PipelineError::NoAudioData);
    }
    let ghost data = audio@.subrange(start as int, len as int);
    let n = (len - start) / 2;
    let mut out: Vec<i16> = Vec::with_capacity(n);
    let mut k: usize = 0;
    while k < n
        invariant
            n == (len - start) / 2,
            len == audio@.len(),
            start <= len,
            data == audio@.subrange(start as int, len as int),
            k <= n,
            out@ == spec_samples(data).take(k as int),
        decreases n - k,
    {
        let lo = audio[start + 2 * k];
        let hi = audio[start + 2 * k + 1];
        let x = read_le_i16(lo, hi);
        assert(data[2 * k as int] == lo);
        assert(data[2 * k as int + 1] == hi);
        out.push(x);
        assert(out@ =~= spec_samples(data).take(k + 1));
        k = k + 1;
    }
    assert(out@ =~= spec_samples(data));
    Ok(out)
}

/// Decoding a canonical header followed by the little-endian bytes of a
/// non-empty sample sequence gives back exactly that sequence.
pub proof fn lemma_decode_round_trip(header: Seq<u8>, s: Seq<i16>)
    requires
        header.len() == HEADER_LEN,
        header.subrange(0, 4) == crate::format::container_tag(),
        header.subrange(8, 12) == crate::format::format_tag(),
        s.len() > 0,
    ensures
        spec_decode(header + le_bytes(s)) == Ok::<Seq<i16>, PipelineError>(s),
{
    let a = header + le_bytes(s);
    assert(a.subrange(0, 4) =~= header.subrange(0, 4));
    assert(a.subrange(8, 12) =~= header.subrange(8, 12));
    assert(a.subrange(44, a.len() as int) =~= le_bytes(s));
    let d = spec_samples(le_bytes(s));
    assert forall|i: int| 0 <= i < s.len() implies d[i] == s[i] by {
        assert(2 * i / 2 == i);
        assert((2 * i + 1) / 2 == i);
        assert((2 * i) % 2 == 0);
        assert((2 * i + 1) % 2 == 1);
        let u: int = if s[i] < 0 {
            s[i] + 65536
        } else {
            s[i] as int
        };
        assert(0 <= u < 65536);
        assert(le_bytes(s)[2 * i] == (u % 256) as u8);
        assert(le_bytes(s)[2 * i + 1] == (u / 256) as u8);
        assert((u % 256) + 256 * (u / 256) == u);
    }
    assert(d =~= s);
}

/// A buffer with no bytes, or a canonical header with no data after it,
/// fails to decode and never yields an empty sample sequence.
pub proof fn lemma_no_payload_fails(audio: Seq<u8>)
    requires
        audio.len() == 0 || (has_canonical_tags(audio) && audio.len() == HEADER_LEN),
    ensures
        spec_decode(audio) == Err::<Seq<i16>, PipelineError>(PipelineError::InputTooSmall),
{
}

/// Whenever decoding succeeds, the sample sequence is non-empty.
pub proof fn lemma_decoded_non_empty(audio: Seq<u8>)
    ensures
        spec_decode(audio) is Ok ==> spec_decode(audio)->Ok_0.len() > 0,
{
}

} // verus!
