//! Laws on recognising the terminal line.
use vstd::prelude::*;
use vstd::utf8::encode_utf8;
use crate::sse::{
    done_at, has_done_line, is_done_line, line_before, open_line, SseDoneDetector,
};

verus! {

/// Whether a line, without its newline, is `data: [DONE]` or `data:[DONE]`, with or
/// without a carriage return behind it.
pub open spec fn is_terminal(line: Seq<u8>) -> bool {
    ||| line == seq![100u8, 97, 116, 97, 58, 32, 91, 68, 79, 78, 69, 93]
    ||| line == seq![100u8, 97, 116, 97, 58, 91, 68, 79, 78, 69, 93]
    ||| line == seq![100u8, 97, 116, 97, 58, 32, 91, 68, 79, 78, 69, 93, 13]
    ||| line == seq![100u8, 97, 116, 97, 58, 91, 68, 79, 78, 69, 93, 13]
}

/// Whether the bytes from `start` up to `end` are a terminal line of a stream.
pub open spec fn is_terminal_at(stream: Seq<u8>, start: int, end: int) -> bool {
    &&& 0 <= start <= end < stream.len()
    &&& stream[end] == 10
    &&& start == 0 || stream[start - 1] == 10
    &&& is_terminal(stream.subrange(start, end))
}

/// Whether a stream holds a complete terminal line.
pub open spec fn has_terminal(stream: Seq<u8>) -> bool {
    exists|start: int, end: int| is_terminal_at(stream, start, end)
}

/// Whether `rest` is what follows the last newline of a stream.
pub open spec fn is_rest(stream: Seq<u8>, rest: Seq<u8>) -> bool {
    &&& rest.len() <= stream.len()
    &&& stream.skip(stream.len() - rest.len()) == rest
    &&& !rest.contains(10)
    &&& rest.len() == stream.len() || stream[stream.len() - rest.len() - 1] == 10
}

proof fn lemma_terminal_forms(line: Seq<u8>)
    ensures
        is_done_line(line) <==> is_terminal(line),
{
    reveal_strlit("data: [DONE]");
    reveal_strlit("data:[DONE]");
    vstd::utf8::is_ascii_chars_encode_utf8("data: [DONE]"@);
    vstd::utf8::is_ascii_chars_encode_utf8("data:[DONE]"@);
    let spaced = seq![100u8, 97, 116, 97, 58, 32, 91, 68, 79, 78, 69, 93];
    let tight = seq![100u8, 97, 116, 97, 58, 91, 68, 79, 78, 69, 93];
    assert(encode_utf8("data: [DONE]"@) =~= spaced);
    assert(encode_utf8("data:[DONE]"@) =~= tight);
    if is_done_line(line) {
        if line.len() > 0 && line.last() == 13 {
            assert(line =~= line.drop_last().push(13));
            assert(spaced.push(13) =~= seq![100u8, 97, 116, 97, 58, 32, 91, 68, 79, 78, 69, 93, 13]);
            assert(tight.push(13) =~= seq![100u8, 97, 116, 97, 58, 91, 68, 79, 78, 69, 93, 13]);
        }
    }
    if is_terminal(line) {
        if line.last() == 13 {
            assert(line.drop_last() =~= spaced || line.drop_last() =~= tight);
        }
    }
}

proof fn lemma_terminal_has_no_newline(line: Seq<u8>)
    requires
        is_terminal(line),
    ensures
        forall|i: int| 0 <= i < line.len() ==> line[i] != 10,
{
    if line.len() == 11 {
        assert(line == seq![100u8, 97, 116, 97, 58, 91, 68, 79, 78, 69, 93]);
    } else if line.len() == 13 {
        assert(line == seq![100u8, 97, 116, 97, 58, 32, 91, 68, 79, 78, 69, 93, 13]);
    } else if line[5] == 32 {
        assert(line == seq![100u8, 97, 116, 97, 58, 32, 91, 68, 79, 78, 69, 93]);
    } else {
        assert(line == seq![100u8, 97, 116, 97, 58, 91, 68, 79, 78, 69, 93, 13]);
    }
}

proof fn lemma_line_before(stream: Seq<u8>, end: int)
    requires
        0 <= end <= stream.len(),
    ensures
        ({
            let line = line_before(stream, end);
            let start = end - line.len();
            &&& 0 <= start <= end
            &&& line == stream.subrange(start, end)
            &&& start == 0 || stream[start - 1] == 10
            &&& forall|i: int| start <= i < end ==> stream[i] != 10
        }),
    decreases end,
{
    if end > 0 && stream[end - 1] != 10 {
        lemma_line_before(stream, end - 1);
        let line = line_before(stream, end);
        assert(line =~= stream.subrange(end - line.len(), end));
    } else {
        assert(stream.subrange(end, end) =~= Seq::empty());
    }
}

proof fn lemma_has_terminal(stream: Seq<u8>)
    ensures
        has_done_line(stream) <==> has_terminal(stream),
{
    if has_done_line(stream) {
        let end = choose|end: int| done_at(stream, end);
        lemma_line_before(stream, end);
        lemma_terminal_forms(line_before(stream, end));
        assert(is_terminal_at(stream, end - line_before(stream, end).len(), end));
    }
    if has_terminal(stream) {
        let (start, end) = choose|start: int, end: int| is_terminal_at(stream, start, end);
        lemma_line_before(stream, end);
        let line = stream.subrange(start, end);
        let kept = line_before(stream, end);
        lemma_terminal_has_no_newline(line);
        assert forall|i: int| start <= i < end implies stream[i] != 10 by {
            assert(line[i - start] == stream[i]);
        }
        let from = end - kept.len();
        assert(from == start) by {
            if from < start {
                assert(stream[start - 1] != 10);
            }
            if start < from {
                assert(stream[from - 1] == 10);
            }
        }
        lemma_terminal_forms(kept);
        assert(done_at(stream, end));
    }
}

proof fn lemma_rest(stream: Seq<u8>, rest: Seq<u8>)
    requires
        is_rest(stream, rest),
    ensures
        open_line(stream) == rest,
{
    let end = stream.len() as int;
    lemma_line_before(stream, end);
    let kept = open_line(stream);
    let from = end - kept.len();
    let start = end - rest.len();
    assert forall|i: int| start <= i < end implies stream[i] != 10 by {
        assert(rest[i - start] == stream.skip(start)[i - start]);
        assert(rest.contains(rest[i - start]));
    }
    assert(from == start) by {
        if from < start {
            assert(stream[start - 1] != 10);
        }
        if start < from {
            assert(stream[from - 1] == 10);
        }
    }
    assert(kept =~= rest);
}

/// A detector at the start of a stream has nothing before it.
pub proof fn law_a_detector_starts_with_nothing(r: SseDoneDetector)
    requires
        call_ensures(SseDoneDetector::default, (), r),
    ensures
        r.wf(),
        r.follows(Seq::empty()),
{
}

/// Behind the open line `pending` a detector answers whether a complete terminal line
/// stands in that line and the chunk together. It goes on behind what follows the
/// last newline, and behind nothing once the terminal line was found.
pub proof fn law_a_detector_finds_the_terminal_line(
    detector: &mut SseDoneDetector,
    chunk: &[u8],
    r: bool,
    pending: Seq<u8>,
    rest: Seq<u8>,
)
    requires
        call_ensures(SseDoneDetector::observe, (detector, chunk), r),
        old(detector).follows(pending),
        is_rest(pending + chunk@, rest),
    ensures
        r <==> has_terminal(pending + chunk@),
        r ==> final(detector).follows(Seq::empty()),
        !r ==> final(detector).follows(rest),
        final(detector).wf(),
{
    lemma_has_terminal(pending + chunk@);
    lemma_rest(pending + chunk@, rest);
}

/// Whatever a stream is, something follows its last newline.
pub proof fn law_every_stream_has_a_rest(stream: Seq<u8>)
    ensures
        exists|rest: Seq<u8>| is_rest(stream, rest),
{
    lemma_line_before(stream, stream.len() as int);
    let rest = open_line(stream);
    assert(stream.skip(stream.len() - rest.len()) =~= rest);
    assert(is_rest(stream, rest));
}

pub(crate) proof fn lemma_terminal_and_rest(stream: Seq<u8>, rest: Seq<u8>)
    requires
        is_rest(stream, rest),
    ensures
        has_done_line(stream) <==> has_terminal(stream),
        open_line(stream) == rest,
{
    lemma_has_terminal(stream);
    lemma_rest(stream, rest);
}

} // verus!
