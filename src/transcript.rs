use vstd::prelude::*;
use vstd::utf8::encode_utf8;
use crate::error::PipelineError;

verus! {

/// One span of recognized speech: its index, the engine's timestamps in
/// centiseconds, and the half-open byte range of its text in the full text.
#[derive(Clone, Debug)]
pub struct Segment {
    pub id: i32,
    pub start: i64,
    pub end: i64,
    pub text_start: usize,
    pub text_end: usize,
}

/// A transcript: the segments' texts concatenated in order, and the segments.
#[derive(Clone, Debug)]
pub struct TranscriptionResult {
    pub text: String,
    pub segments: Vec<Segment>,
}

/// What the engine reported for one segment.
#[derive(Clone, Debug)]
pub struct RawSegment {
    pub text: String,
    pub start: i64,
    pub end: i64,
}

/// The outcome of reading one segment from the engine.
#[derive(Clone, Debug)]
pub enum SegmentRead {
    Ready(RawSegment),
    /// The engine had no segment at this index.
    Missing,
    /// The segment's text could not be read; carries the engine's diagnostic.
    BadText(String),
}

/// UTF-8 byte length of a character sequence.
pub open spec fn byte_len(s: Seq<char>) -> nat {
    encode_utf8(s).len()
}

/// The texts of the first `n` segments, concatenated with nothing between them.
pub open spec fn joined_text(segs: Seq<RawSegment>, n: int) -> Seq<char>
    decreases n,
{
    if n <= 0 {
        Seq::empty()
    } else {
        joined_text(segs, n - 1) + segs[n - 1].text@
    }
}

/// The result is the assembly of `segs`: their texts concatenated, and for
/// each one a segment with its index, its timestamps and the byte range its
/// text occupies.
pub open spec fn assembled_from(r: TranscriptionResult, segs: Seq<RawSegment>) -> bool {
    &&& r.text@ == joined_text(segs, segs.len() as int)
    &&& r.segments@.len() == segs.len()
    &&& forall|i: int|
        #![trigger r.segments@[i]]
        0 <= i < segs.len() ==> {
            let g = r.segments@[i];
            &&& g.id as int == i
            &&& g.start == segs[i].start
            &&& g.end == segs[i].end
            &&& g.text_start as int == byte_len(joined_text(segs, i))
            &&& g.text_end as int == byte_len(joined_text(segs, i + 1))
        }
}

/// Whether every read succeeded.
pub open spec fn all_ready(reads: Seq<SegmentRead>) -> bool {
    forall|i: int| 0 <= i < reads.len() ==> (#[trigger] reads[i]) is Ready
}

/// The segments of reads that all succeeded.
pub open spec fn ready_segments(reads: Seq<SegmentRead>) -> Seq<RawSegment> {
    Seq::new(reads.len(), |i: int| reads[i]->Ready_0)
}

/// The index of the first failed read.
pub open spec fn first_failure(reads: Seq<SegmentRead>, i: int) -> bool {
    &&& 0 <= i < reads.len()
    &&& !(reads[i] is Ready)
    &&& forall|j: int| 0 <= j < i ==> (#[trigger] reads[j]) is Ready
}

/// The error that a failed read at index `i` is reported as.
pub open spec fn read_error(read: SegmentRead, i: int) -> PipelineError {
    match read {
        SegmentRead::BadText(e) => PipelineError::SegmentTextFailure(e),
        _ => PipelineError::SegmentMissing(i as usize),
    }
}

pub proof fn lemma_byte_len_concat(a: Seq<char>, b: Seq<char>)
    ensures
        encode_utf8(a + b) == encode_utf8(a) + encode_utf8(b),
    decreases a.len(),
{
    if a.len() == 0 {
        assert(a + b =~= b);
        assert(encode_utf8(a) =~= Seq::<u8>::empty());
        assert(encode_utf8(a) + encode_utf8(b) =~= encode_utf8(b));
    } else {
        assert((a + b).drop_first() =~= a.drop_first() + b);
        lemma_byte_len_concat(a.drop_first(), b);
        assert((a + b)[0] == a[0]);
        assert(encode_utf8(a + b) =~= encode_utf8(a) + encode_utf8(b));
    }
}

proof fn lemma_joined_monotone(segs: Seq<RawSegment>, i: int, j: int)
    requires
        0 <= i <= j,
    ensures
        byte_len(joined_text(segs, i)) <= byte_len(joined_text(segs, j)),
    decreases j - i,
{
    if i < j {
        lemma_joined_monotone(segs, i, j - 1);
        lemma_byte_len_concat(joined_text(segs, j - 1), segs[j - 1].text@);
    }
}

/// Concatenates segment texts in order, recording for each segment the byte
/// offsets just before and just after its text; the first failed read fails
/// the whole assembly.
pub fn assemble(reads: Vec<SegmentRead>) -> (r: Result<TranscriptionResult, PipelineError>)
    requires
        reads@.len() <= i32::MAX,
        all_ready(reads@) ==> byte_len(
            joined_text(ready_segments(reads@), reads@.len() as int),
        ) <= usize::MAX,
    ensures
        r is Ok <==> all_ready(reads@),
        r is Ok ==> assembled_from(r->Ok_0, ready_segments(reads@)),
        r is Err ==> exists|i: int|
            first_failure(reads@, i) && r->Err_0 == read_error(#[trigger] reads@[i], i),
{
    let n = reads.len();
    let mut k: usize = 0;
    while k < n
        invariant
            n == reads@.len(),
            k <= n,
            forall|j: int| 0 <= j < k ==> (#[trigger] reads@[j]) is Ready,
        decreases n - k,
    {
        match &reads[k] {
            SegmentRead::Ready(_) => {},
            SegmentRead::Missing => {
                assert(first_failure(reads@, k as int));
                return Err(PipelineError::SegmentMissing(k));
            },
            SegmentRead::BadText(e) => {
                assert(first_failure(reads@, k as int));
                return Err(PipelineError::SegmentTextFailure(e.clone()));
            },
        }
        k = k + 1;
    }
    assert(all_ready(reads@));
    let ghost segs = ready_segments(reads@);
    let mut text = String::new();
    let mut segments: Vec<Segment> = Vec::new();
    let mut offset: usize = 0;
    let mut i: usize = 0;
    while i < n
        invariant
            n == reads@.len(),
            n <= i32::MAX,
            i <= n,
            segs == ready_segments(reads@),
            all_ready(reads@),
            byte_len(joined_text(segs, n as int)) <= usize::MAX,
            text@ == joined_text(segs, i as int),
            offset as int == byte_len(joined_text(segs, i as int)),
            segments@.len() == i,
            forall|j: int|
                #![trigger segments@[j]]
                0 <= j < i ==> {
                    let g = segments@[j];
                    &&& g.id as int == j
                    &&& g.start == segs[j].start
                    &&& g.end == segs[j].end
                    &&& g.text_start as int == byte_len(joined_text(segs, j))
                    &&& g.text_end as int == byte_len(joined_text(segs, j + 1))
                },
        decreases n - i,
    {
        assert(reads@[i as int] is Ready);
        if let SegmentRead::Ready(seg) = &reads[i] {
            assert(segs[i as int] == *seg);
            let piece = seg.text.as_str();
            proof {
                lemma_byte_len_concat(joined_text(segs, i as int), seg.text@);
                lemma_joined_monotone(segs, i as int + 1, n as int);
            }
            let piece_len = piece.len();
            let text_start = offset;
            text.append(piece);
            offset = offset + piece_len;
            segments.push(
                Segment { id: i as i32, start: seg.start, end: seg.end, text_start, text_end: offset },
            );
        }
        i = i + 1;
    }
    Ok(TranscriptionResult { text, segments })
}

/// Total length of the byte ranges of the first `n` segments.
pub open spec fn span_total(segments: Seq<Segment>, n: int) -> int
    decreases n,
{
    if n <= 0 {
        0
    } else {
        span_total(segments, n - 1) + (segments[n - 1].text_end - segments[n - 1].text_start)
    }
}

proof fn lemma_span_prefix(r: TranscriptionResult, segs: Seq<RawSegment>, k: int)
    requires
        assembled_from(r, segs),
        0 <= k <= segs.len(),
    ensures
        span_total(r.segments@, k) == byte_len(joined_text(segs, k)),
    decreases k,
{
    if k > 0 {
        lemma_span_prefix(r, segs, k - 1);
        let g = r.segments@[k - 1];
    }
}

/// In an assembled transcript the byte length of the full text equals the sum
/// of the segments' range lengths, the segments are numbered 0, 1, 2, ... in
/// order, and each segment's range starts where the previous one ended.
pub proof fn lemma_offsets_cover_text(r: TranscriptionResult, segs: Seq<RawSegment>)
    requires
        assembled_from(r, segs),
    ensures
        byte_len(r.text@) == span_total(r.segments@, r.segments@.len() as int),
        forall|i: int| 0 <= i < r.segments@.len() ==> (#[trigger] r.segments@[i]).id == i,
        r.segments@.len() > 0 ==> r.segments@[0].text_start == 0,
        forall|i: int|
            0 <= i < r.segments@.len() - 1 ==> (#[trigger] r.segments@[i]).text_end
                == r.segments@[i + 1].text_start,
{
    lemma_span_prefix(r, segs, segs.len() as int);
    if r.segments@.len() > 0 {
        let g = r.segments@[0];
        assert(encode_utf8(joined_text(segs, 0)) =~= Seq::<u8>::empty());
    }
    assert forall|i: int| 0 <= i < r.segments@.len() - 1 implies (#[trigger] r.segments@[
        i]).text_end == r.segments@[i + 1].text_start by {
        let g = r.segments@[i];
        let h = r.segments@[i + 1];
    }
}

} // verus!
