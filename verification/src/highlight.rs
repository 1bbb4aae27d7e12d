//! Match highlighting: split a line into an ordered sequence of plain and
//! highlighted segments along the non-overlapping matches of the active
//! filter. Segments carry the line's UTF-8 bytes, so the span offsets that
//! the regex engine reports apply directly.

use vstd::prelude::*;
use vstd::utf8::encode_utf8;

use crate::pattern::match_spans;
use crate::pattern::spans_wf;

verus! {

/// What highlighting a line under a filter pattern produces: with an empty
/// pattern the whole line as one plain segment (an empty filter never
/// highlights), otherwise the segmentation of the line's UTF-8 bytes along
/// the regex's match spans.
pub open spec fn highlight_model(pattern: Seq<char>, line: Seq<char>) -> Seq<SegmentModel> {
    if pattern.len() == 0 {
        seq![SegmentModel { text: encode_utf8(line), highlighted: false }]
    } else {
        segments_from(encode_utf8(line), match_spans(pattern, line), 0)
    }
}

/// One piece of a line: its bytes and whether they are part of a match.
pub struct Segment {
    pub text: Vec<u8>,
    pub highlighted: bool,
}

/// The abstract form of a `Segment`.
pub ghost struct SegmentModel {
    pub text: Seq<u8>,
    pub highlighted: bool,
}

impl View for Segment {
    type V = SegmentModel;

    open spec fn view(&self) -> SegmentModel {
        SegmentModel { text: self.text@, highlighted: self.highlighted }
    }
}

impl DeepView for Segment {
    type V = SegmentModel;

    open spec fn deep_view(&self) -> SegmentModel {
        self@
    }
}

/// The segmentation of `line` from byte position `pos` on, along the given
/// match spans: the gap before each match becomes a plain segment (omitted
/// when empty), each match a highlighted one, and whatever follows the last
/// match a final plain segment (omitted when empty).
pub open spec fn segments_from(line: Seq<u8>, spans: Seq<(usize, usize)>, pos: int) -> Seq<
    SegmentModel,
>
    decreases spans.len(),
{
    if spans.len() == 0 {
        if pos < line.len() {
            seq![SegmentModel { text: line.subrange(pos, line.len() as int), highlighted: false }]
        } else {
            Seq::empty()
        }
    } else {
        let s = spans.first().0 as int;
        let e = spans.first().1 as int;
        let gap = if pos < s {
            seq![SegmentModel { text: line.subrange(pos, s), highlighted: false }]
        } else {
            Seq::<SegmentModel>::empty()
        };
        gap + seq![SegmentModel { text: line.subrange(s, e), highlighted: true }]
            + segments_from(line, spans.drop_first(), e)
    }
}

/// Copy the bytes of `v` in `[from, to)`.
fn copy_range(v: &Vec<u8>, from: usize, to: usize) -> (out: Vec<u8>)
    requires
        from <= to <= v@.len(),
    ensures
        out@ == v@.subrange(from as int, to as int),
{
    let mut out: Vec<u8> = Vec::new();
    let mut i: usize = from;
    while i < to
        invariant
            from <= i <= to <= v@.len(),
            out@ =~= v@.subrange(from as int, i as int),
        decreases to - i,
    {
        out.push(v[i]);
        proof {
            assert(out@ =~= v@.subrange(from as int, i as int + 1));
        }
        i += 1;
    }
    out
}

/// Split a line of bytes into plain and highlighted segments along the
/// given well-formed match spans.
pub fn segment_bytes(line: &Vec<u8>, spans: &Vec<(usize, usize)>) -> (segs: Vec<Segment>)
    requires
        spans_wf(spans@, line@.len() as int),
    ensures
        segs.deep_view() == segments_from(line@, spans@, 0),
{
    let mut segs: Vec<Segment> = Vec::new();
    let mut pos: usize = 0;
    let mut k: usize = 0;
    proof {
        assert(spans@.skip(0) =~= spans@);
    }
    while k < spans.len()
        invariant
            spans_wf(spans@, line@.len() as int),
            k <= spans.len(),
            pos <= line@.len(),
            k == 0 ==> pos == 0,
            k > 0 ==> pos == spans@[k as int - 1].1,
            segments_from(line@, spans@, 0) =~= segs.deep_view() + segments_from(
                line@,
                spans@.skip(k as int),
                pos as int,
            ),
        decreases spans.len() - k,
    {
        let (s, e) = spans[k];
        proof {
            assert(spans@[k as int].0 == s && spans@[k as int].1 == e);
            assert(pos <= s && s <= e <= line@.len());
            assert(spans@.skip(k as int).first() == spans@[k as int]);
            assert(spans@.skip(k as int).drop_first() =~= spans@.skip(k as int + 1));
            assert(segs.deep_view().len() == segs@.len());
        }
        if pos < s {
            let gap = Segment { text: copy_range(line, pos, s), highlighted: false };
            let ghost pre = segs.deep_view();
            segs.push(gap);
            proof {
                assert(segs.deep_view() =~= pre + seq![
                    SegmentModel { text: line@.subrange(pos as int, s as int), highlighted: false },
                ]);
            }
        }
        let hit = Segment { text: copy_range(line, s, e), highlighted: true };
        let ghost pre = segs.deep_view();
        proof {
            assert(pre.len() == segs@.len());
        }
        segs.push(hit);
        proof {
            assert(segs.deep_view() =~= pre + seq![
                SegmentModel { text: line@.subrange(s as int, e as int), highlighted: true },
            ]);
        }
        pos = e;
        k += 1;
        proof {
            assert(segments_from(line@, spans@, 0) =~= segs.deep_view() + segments_from(
                line@,
                spans@.skip(k as int),
                pos as int,
            ));
        }
    }
    proof {
        assert(spans@.skip(spans@.len() as int) =~= Seq::<(usize, usize)>::empty());
    }
    if pos < line.len() {
        let tail = Segment { text: copy_range(line, pos, line.len()), highlighted: false };
        let ghost pre = segs.deep_view();
        proof {
            assert(pre.len() == segs@.len());
        }
        segs.push(tail);
        proof {
            assert(segs.deep_view() =~= pre + seq![
                SegmentModel {
                    text: line@.subrange(pos as int, line@.len() as int),
                    highlighted: false,
                },
            ]);
            assert(segs.deep_view() =~= segments_from(line@, spans@, 0));
        }
    } else {
        proof {
            assert(segs.deep_view() + Seq::<SegmentModel>::empty() =~= segs.deep_view());
            assert(segs.deep_view() =~= segments_from(line@, spans@, 0));
        }
    }
    segs
}

} // verus!
