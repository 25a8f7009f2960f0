use vstd::prelude::*;

verus! {

/// Container tag in bytes 0..4 of a canonical PCM file: "RIFF".
pub open spec fn container_tag() -> Seq<u8> {
    seq![0x52u8, 0x49u8, 0x46u8, 0x46u8]
}

/// Format tag in bytes 8..12 of a canonical PCM file: "WAVE".
pub open spec fn format_tag() -> Seq<u8> {
    seq![0x57u8, 0x41u8, 0x56u8, 0x45u8]
}

/// Verdict on the container format of an audio buffer.
#[derive(PartialEq, Eq, Structural, Clone, Copy, Debug)]
pub enum FormatVerdict {
    CanonicalPcm,
    OtherContainer,
}

/// Whether the buffer carries both canonical tags in its first twelve bytes.
pub open spec fn has_canonical_tags(b: Seq<u8>) -> bool {
    &&& b.len() >= 12
    &&& b.subrange(0, 4) == container_tag()
    &&& b.subrange(8, 12) == format_tag()
}

pub open spec fn spec_classify(b: Seq<u8>) -> FormatVerdict {
    if has_canonical_tags(b) {
        FormatVerdict::CanonicalPcm
    } else {
        FormatVerdict::OtherContainer
    }
}

/// Classifies a buffer by its leading bytes; any input yields a verdict.
pub fn classify(bytes: &[u8]) -> (r: FormatVerdict)
    ensures
        r == spec_classify(bytes@),
{
    if bytes.len() < 12 {
        return FormatVerdict::OtherContainer;
    }
    let tagged = bytes[0] == 0x52u8 && bytes[1] == 0x49u8 && bytes[2] == 0x46u8 && bytes[3]
        == 0x46u8 && bytes[8] == 0x57u8 && bytes[9] == 0x41u8 && bytes[10] == 0x56u8 && bytes[11]
        == 0x45u8;
    assert(bytes@.subrange(0, 4) == container_tag() <==> (bytes@[0] == 0x52u8 && bytes@[1]
        == 0x49u8 && bytes@[2] == 0x46u8 && bytes@[3] == 0x46u8)) by {
        if bytes@.subrange(0, 4) == container_tag() {
            assert(bytes@.subrange(0, 4)[0] == bytes@[0]);
            assert(bytes@.subrange(0, 4)[1] == bytes@[1]);
            assert(bytes@.subrange(0, 4)[2] == bytes@[2]);
            assert(bytes@.subrange(0, 4)[3] == bytes@[3]);
        }
        if bytes@[0] == 0x52u8 && bytes@[1] == 0x49u8 && bytes@[2] == 0x46u8 && bytes@[3]
            == 0x46u8 {
            assert(bytes@.subrange(0, 4) =~= container_tag());
        }
    }
    assert(bytes@.subrange(8, 12) == format_tag() <==> (bytes@[8] == 0x57u8 && bytes@[9]
        == 0x41u8 && bytes@[10] == 0x56u8 && bytes@[11] == 0x45u8)) by {
        if bytes@.subrange(8, 12) == format_tag() {
            assert(bytes@.subrange(8, 12)[0] == bytes@[8]);
            assert(bytes@.subrange(8, 12)[1] == bytes@[9]);
            assert(bytes@.subrange(8, 12)[2] == bytes@[10]);
            assert(bytes@.subrange(8, 12)[3] == bytes@[11]);
        }
        if bytes@[8] == 0x57u8 && bytes@[9] == 0x41u8 && bytes@[10] == 0x56u8 && bytes@[11]
            == 0x45u8 {
            assert(bytes@.subrange(8, 12) =~= format_tag());
        }
    }
    if tagged {
        FormatVerdict::CanonicalPcm
    } else {
        FormatVerdict::OtherContainer
    }
}

/// A buffer shorter than twelve bytes is never taken for canonical PCM.
pub proof fn lemma_short_buffer_is_other(b: Seq<u8>)
    requires
        b.len() < 12,
    ensures
        spec_classify(b) == FormatVerdict::OtherContainer,
{
}

/// A buffer that carries both tags is canonical PCM, and changing any one
/// byte of either tag makes it another container.
pub proof fn lemma_tags_decide_verdict(b: Seq<u8>, i: int, v: u8)
    requires
        b.len() >= 12,
        b.subrange(0, 4) == container_tag(),
        b.subrange(8, 12) == format_tag(),
        (0 <= i < 4) || (8 <= i < 12),
        v != b[i],
    ensures
        spec_classify(b) == FormatVerdict::CanonicalPcm,
        spec_classify(b.update(i, v)) == FormatVerdict::OtherContainer,
{
    let m = b.update(i, v);
    if i < 4 {
        assert(m.subrange(0, 4)[i] != container_tag()[i]) by {
            assert(b.subrange(0, 4)[i] == b[i]);
        }
    } else {
        assert(m.subrange(8, 12)[i - 8] != format_tag()[i - 8]) by {
            assert(b.subrange(8, 12)[i - 8] == b[i]);
        }
    }
}

/// The verdict depends on the first twelve bytes alone.
pub proof fn lemma_verdict_from_prefix(b: Seq<u8>)
    requires
        b.len() >= 12,
    ensures
        spec_classify(b) == spec_classify(b.take(12)),
{
    assert(b.subrange(0, 4) =~= b.take(12).subrange(0, 4));
    assert(b.subrange(8, 12) =~= b.take(12).subrange(8, 12));
}

} // verus!
