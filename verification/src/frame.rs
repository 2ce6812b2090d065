//! Framing: one message per line. A frame on the wire is the payload followed
//! by a line feed. What arrives is cut at the line feeds: each line that is
//! not empty is a frame, in the order of arrival, and what follows the last
//! line feed is the beginning of a frame that has not arrived in full.

use vstd::prelude::*;

verus! {

/// The byte that ends a frame.
pub const LINE_FEED: u8 = 10;

/// The number of bytes before the first line feed of `bytes`, or the length
/// of `bytes` where it holds none.
pub open spec fn line_end(bytes: Seq<u8>) -> nat
    decreases bytes.len(),
{
    if bytes.len() == 0 || bytes[0] == LINE_FEED {
        0
    } else {
        1 + line_end(bytes.drop_first())
    }
}

/// The frames that have arrived in full: the first line, unless it is empty,
/// and then the frames of what follows its line feed. Bytes without a line
/// feed hold no frame yet.
pub open spec fn frames_of(bytes: Seq<u8>) -> Seq<Seq<u8>>
    decreases bytes.len(),
{
    let end = line_end(bytes) as int;
    if end >= bytes.len() {
        Seq::empty()
    } else {
        let rest = frames_of(bytes.subrange(end + 1, bytes.len() as int));
        if end == 0 {
            rest
        } else {
            seq![bytes.subrange(0, end)] + rest
        }
    }
}

/// What has arrived of a frame that is not there in full: the bytes after
/// the last line feed.
pub open spec fn remainder_of(bytes: Seq<u8>) -> Seq<u8>
    decreases bytes.len(),
{
    let end = line_end(bytes) as int;
    if end >= bytes.len() {
        bytes
    } else {
        remainder_of(bytes.subrange(end + 1, bytes.len() as int))
    }
}

/// The bytes that carry `payload` as one frame.
pub open spec fn framed(payload: Seq<u8>) -> Seq<u8> {
    payload.push(LINE_FEED)
}

/// `bytes` holds no line feed.
pub open spec fn single_line(bytes: Seq<u8>) -> bool {
    forall|i: int| 0 <= i < bytes.len() ==> bytes[i] != LINE_FEED
}

/// What each of the frames holds.
pub open spec fn payloads(frames: Seq<Vec<u8>>) -> Seq<Seq<u8>> {
    frames.map_values(|frame: Vec<u8>| frame@)
}

/// The first line ends within the bytes, no line feed stands before its end,
/// and one stands at its end unless the bytes end there.
pub proof fn lemma_line_end(bytes: Seq<u8>)
    ensures
        line_end(bytes) <= bytes.len(),
        forall|i: int| 0 <= i < line_end(bytes) ==> bytes[i] != LINE_FEED,
        line_end(bytes) < bytes.len() ==> bytes[line_end(bytes) as int] == LINE_FEED,
    decreases bytes.len(),
{
    if bytes.len() > 0 && bytes[0] != LINE_FEED {
        let tail = bytes.drop_first();
        lemma_line_end(tail);
        assert forall|i: int| 0 <= i < line_end(bytes) implies bytes[i] != LINE_FEED by {
            if i > 0 {
                assert(bytes[i] == tail[i - 1]);
            }
        }
    }
}

/// A position before which no line feed stands, and which is the end of the
/// bytes or holds a line feed, is the end of the first line.
pub proof fn lemma_line_end_is(bytes: Seq<u8>, end: int)
    requires
        0 <= end <= bytes.len(),
        forall|i: int| 0 <= i < end ==> bytes[i] != LINE_FEED,
        end < bytes.len() ==> bytes[end] == LINE_FEED,
    ensures
        line_end(bytes) == end,
{
    lemma_line_end(bytes);
}

/// A payload that is not empty and holds no line feed travels as exactly one
/// frame: cutting its frame gives back the payload and leaves nothing over.
pub proof fn lemma_one_frame(payload: Seq<u8>)
    requires
        payload.len() > 0,
        single_line(payload),
    ensures
        frames_of(framed(payload)) == seq![payload],
        remainder_of(framed(payload)) == Seq::<u8>::empty(),
{
    let wire = framed(payload);
    let nothing = Seq::<u8>::empty();
    lemma_line_end_is(wire, payload.len() as int);
    assert(wire.subrange(0, payload.len() as int) == payload);
    assert(wire.subrange(payload.len() as int + 1, wire.len() as int) == nothing);
    assert(frames_of(nothing) == Seq::<Seq<u8>>::empty());
    assert(remainder_of(nothing) == nothing);
}

/// No frame is empty and no frame holds a line feed.
pub proof fn lemma_frames_are_lines(bytes: Seq<u8>, i: int)
    requires
        0 <= i < frames_of(bytes).len(),
    ensures
        frames_of(bytes)[i].len() > 0,
        single_line(frames_of(bytes)[i]),
    decreases bytes.len(),
{
    lemma_line_end(bytes);
    let end = line_end(bytes) as int;
    if end == 0 {
        lemma_frames_are_lines(bytes.subrange(end + 1, bytes.len() as int), i);
    } else if i > 0 {
        lemma_frames_are_lines(bytes.subrange(end + 1, bytes.len() as int), i - 1);
    }
}

/// What is left over holds no line feed, and bytes without a line feed are
/// left over whole.
pub proof fn lemma_remainder_is_a_line(bytes: Seq<u8>)
    ensures
        single_line(remainder_of(bytes)),
        single_line(bytes) ==> remainder_of(bytes) == bytes && frames_of(bytes) == Seq::<
            Seq<u8>,
        >::empty(),
    decreases bytes.len(),
{
    lemma_line_end(bytes);
    let end = line_end(bytes) as int;
    if end < bytes.len() {
        lemma_remainder_is_a_line(bytes.subrange(end + 1, bytes.len() as int));
    }
}

/// Reading in pieces loses nothing: the frames of what arrived first, and
/// then the frames of what was left over together with what arrived next,
/// are the frames of all of it; and what is left over in the end is the
/// same.
pub proof fn lemma_frames_resume(first: Seq<u8>, next: Seq<u8>)
    ensures
        frames_of(first + next) == frames_of(first) + frames_of(remainder_of(first) + next),
        remainder_of(first + next) == remainder_of(remainder_of(first) + next),
    decreases first.len(),
{
    lemma_line_end(first);
    let all = first + next;
    let end = line_end(first) as int;
    if end < first.len() {
        let left = first.subrange(end + 1, first.len() as int);
        lemma_line_end_is(all, end);
        lemma_frames_resume(left, next);
        assert(all.subrange(end + 1, all.len() as int) == left + next);
        assert(all.subrange(0, end) == first.subrange(0, end));
    }
}

/// The bytes of `data` from `from` up to `to`.
fn copy_range(data: &[u8], from: usize, to: usize) -> (piece: Vec<u8>)
    requires
        from <= to <= data.len(),
    ensures
        piece@ == data@.subrange(from as int, to as int),
{
    let mut piece: Vec<u8> = Vec::new();
    let mut i: usize = from;
    while i < to
        invariant
            from <= i <= to,
            to <= data.len(),
            piece@ == data@.subrange(from as int, i as int),
        decreases to - i,
    {
        piece.push(data[i]);
        i += 1;
    }
    piece
}

/// The frame that carries `payload`: the payload, then a line feed.
pub fn encode_frame(payload: &[u8]) -> (frame: Vec<u8>)
    ensures
        frame@ == framed(payload@),
{
    let mut frame = copy_range(payload, 0, payload.len());
    frame.push(LINE_FEED);
    frame
}

/// Whether a line feed stands in `bytes`: whether a frame ends there.
pub fn ends_a_frame(bytes: &[u8]) -> (ends: bool)
    ensures
        ends == !single_line(bytes@),
{
    let mut i: usize = 0;
    while i < bytes.len()
        invariant
            i <= bytes.len(),
            forall|j: int| 0 <= j < i ==> bytes@[j] != LINE_FEED,
        decreases bytes.len() - i,
    {
        if bytes[i] == LINE_FEED {
            return true;
        }
        i += 1;
    }
    false
}

/// Whether `payload` can travel as one frame: it is not empty and holds no
/// line feed.
pub fn fits_one_frame(payload: &[u8]) -> (fits: bool)
    ensures
        fits == (payload@.len() > 0 && single_line(payload@)),
{
    payload.len() > 0 && !ends_a_frame(payload)
}

/// Cutting at the first line feed: the frames and the remainder of the
/// bytes from `start` on, where the first line feed after `start` stands at
/// `at`.
proof fn lemma_frames_cut(data: Seq<u8>, start: int, at: int)
    requires
        0 <= start <= at < data.len(),
        forall|j: int| start <= j < at ==> data[j] != LINE_FEED,
        data[at] == LINE_FEED,
    ensures
        frames_of(data.subrange(start, data.len() as int)) == if at == start {
            frames_of(data.subrange(at + 1, data.len() as int))
        } else {
            seq![data.subrange(start, at)] + frames_of(data.subrange(at + 1, data.len() as int))
        },
        remainder_of(data.subrange(start, data.len() as int)) == remainder_of(
            data.subrange(at + 1, data.len() as int),
        ),
{
    let tail = data.subrange(start, data.len() as int);
    lemma_line_end_is(tail, at - start);
    assert(tail.subrange(at - start + 1, tail.len() as int) == data.subrange(
        at + 1,
        data.len() as int,
    ));
    assert(tail.subrange(0, at - start) == data.subrange(start, at));
}

/// The frames that `data` holds in full, in the order in which they stand
/// there, and the bytes after the last of them.
pub fn split_frames(data: &[u8]) -> (cut: (Vec<Vec<u8>>, Vec<u8>))
    ensures
        payloads(cut.0@) == frames_of(data@),
        cut.1@ == remainder_of(data@),
{
    let mut frames: Vec<Vec<u8>> = Vec::new();
    let mut start: usize = 0;
    let mut i: usize = 0;
    assert(data@.subrange(0, data.len() as int) == data@);
    while i < data.len()
        invariant
            start <= i <= data.len(),
            forall|j: int| start <= j < i ==> data@[j] != LINE_FEED,
            payloads(frames@) + frames_of(data@.subrange(start as int, data.len() as int))
                == frames_of(data@),
            remainder_of(data@.subrange(start as int, data.len() as int)) == remainder_of(data@),
        decreases data.len() - i,
    {
        if data[i] == LINE_FEED {
            proof {
                lemma_frames_cut(data@, start as int, i as int);
            }
            if start < i {
                let piece = copy_range(data, start, i);
                frames.push(piece);
            }
            start = i + 1;
        }
        i += 1;
    }
    let rest = copy_range(data, start, data.len());
    proof {
        lemma_remainder_is_a_line(rest@);
    }
    (frames, rest)
}

} // verus!
