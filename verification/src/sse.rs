//! Recognising the terminal event of a server-sent event stream.
use vstd::prelude::*;
use vstd::utf8::encode_utf8;

verus! {

/// The byte that ends a line.
pub const NEWLINE: u8 = 10;

/// The byte that may stand before a newline.
pub const CARRIAGE_RETURN: u8 = 13;

/// The terminal line, with a space behind the field name.
pub const SSE_DONE_LINE_WITH_SPACE: &'static str = "data: [DONE]";

/// The terminal line, without a space behind the field name.
pub const SSE_DONE_LINE_WITHOUT_SPACE: &'static str = "data:[DONE]";

/// The length of the longest line that can be terminal: the longer of the two
/// forms and a carriage return.
pub const MAX_CANDIDATE_LINE_LEN: usize = 13;

/// A line without the one carriage return that may end it.
pub open spec fn without_carriage_return(line: Seq<u8>) -> Seq<u8> {
    if line.len() > 0 && line.last() == CARRIAGE_RETURN {
        line.drop_last()
    } else {
        line
    }
}

/// Whether a line, given without its newline, is the terminal event.
pub open spec fn is_done_line(line: Seq<u8>) -> bool {
    let content = without_carriage_return(line);
    content == encode_utf8(SSE_DONE_LINE_WITH_SPACE@) || content == encode_utf8(
        SSE_DONE_LINE_WITHOUT_SPACE@,
    )
}

/// The bytes of the line that is open after the first `end` bytes of a stream:
/// those since the last newline.
pub open spec fn line_before(stream: Seq<u8>, end: int) -> Seq<u8>
    decreases end,
{
    if end <= 0 || stream[end - 1] == NEWLINE {
        Seq::empty()
    } else {
        line_before(stream, end - 1).push(stream[end - 1])
    }
}

/// Whether byte `i` of a stream is the newline that closes a terminal line.
pub open spec fn done_at(stream: Seq<u8>, i: int) -> bool {
    0 <= i < stream.len() && stream[i] == NEWLINE && is_done_line(line_before(stream, i))
}

/// Whether a stream holds a complete terminal line.
pub open spec fn has_done_line(stream: Seq<u8>) -> bool {
    exists|i: int| done_at(stream, i)
}

/// The bytes of a stream that follow its last newline.
pub open spec fn open_line(stream: Seq<u8>) -> Seq<u8> {
    line_before(stream, stream.len() as int)
}

/// Whether bytes hold no newline.
pub open spec fn within_line(bytes: Seq<u8>) -> bool {
    forall|i: int| 0 <= i < bytes.len() ==> #[trigger] bytes[i] != NEWLINE
}

/// Incrementally recognises the terminal event of a server-sent event stream
/// without taking its text inside a longer line for the terminator.
///
/// A line may be split over any number of chunks, so the detector keeps the
/// open line. The buffer is bounded: a line longer than either terminal form
/// can never become terminal.
#[derive(Debug)]
pub struct SseDoneDetector {
    line: Vec<u8>,
    line_too_long: bool,
}

/// The state of a detector.
#[verifier::ext_equal]
pub struct DetectorState {
    /// The bytes that it keeps of the open line.
    pub line: Seq<u8>,
    /// Whether the open line is longer than a terminal one can be.
    pub line_too_long: bool,
}

/// The state at the start of a stream.
pub open spec fn fresh_state() -> DetectorState {
    DetectorState { line: Seq::empty(), line_too_long: false }
}

/// The state behind an open line: the line itself as long as it can still become
/// terminal, and nothing of it from then on.
pub open spec fn state_of(pending: Seq<u8>) -> DetectorState {
    if pending.len() > MAX_CANDIDATE_LINE_LEN {
        DetectorState { line: Seq::empty(), line_too_long: true }
    } else {
        DetectorState { line: pending, line_too_long: false }
    }
}

/// Whether a state is one that observing can reach.
pub open spec fn is_reachable(state: DetectorState) -> bool {
    &&& state.line.len() <= MAX_CANDIDATE_LINE_LEN
    &&& state.line_too_long ==> state.line.len() == 0
    &&& within_line(state.line)
}

/// An open line that a state stands behind.
pub open spec fn pending_of(state: DetectorState) -> Seq<u8> {
    if state.line_too_long {
        Seq::new((MAX_CANDIDATE_LINE_LEN + 1) as nat, |i: int| 0u8)
    } else {
        state.line
    }
}

/// Whether a detector in a given state finds the terminal line in a chunk.
pub open spec fn finds(state: DetectorState, chunk: Seq<u8>) -> bool {
    has_done_line(pending_of(state) + chunk)
}

/// The state of a detector once it has observed a chunk: that behind the new open
/// line, and the one at the start of a stream where the terminal line was found.
pub open spec fn state_after(state: DetectorState, chunk: Seq<u8>) -> DetectorState {
    if finds(state, chunk) {
        fresh_state()
    } else {
        state_of(open_line(pending_of(state) + chunk))
    }
}

/// The state of a detector that has observed chunks from the start of a stream.
pub open spec fn state_after_chunks(chunks: Seq<Seq<u8>>) -> DetectorState
    decreases chunks.len(),
{
    if chunks.len() == 0 {
        fresh_state()
    } else {
        state_after(state_after_chunks(chunks.drop_last()), chunks.last())
    }
}

impl View for SseDoneDetector {
    type V = DetectorState;

    closed spec fn view(&self) -> DetectorState {
        DetectorState { line: self.line@, line_too_long: self.line_too_long }
    }
}

impl SseDoneDetector {
    /// Whether the detector is in a state that observing can reach.
    pub open spec fn wf(&self) -> bool {
        is_reachable(self@)
    }

    /// Whether the detector stands behind the open line `pending`.
    pub open spec fn follows(&self, pending: Seq<u8>) -> bool {
        within_line(pending) && self@ == state_of(pending)
    }

    /// Takes in the next chunk of a stream and says whether it completes the
    /// terminal line. The bytes behind that line are not looked at.
    pub fn observe(&mut self, chunk: &[u8]) -> (done: bool)
        requires
            old(self).wf(),
        ensures
            final(self).wf(),
            done == finds(old(self)@, chunk@),
            final(self)@ == state_after(old(self)@, chunk@),
            forall|pending: Seq<u8>| #[trigger]
                old(self).follows(pending) ==> {
                    &&& done == has_done_line(pending + chunk@)
                    &&& final(self).follows(
                        if done {
                            Seq::empty()
                        } else {
                            open_line(pending + chunk@)
                        },
                    )
                },
    {
        let ghost before = *self;
        let mut i: usize = 0;
        proof {
            lemma_pending_of(before@);
            assert forall|pending: Seq<u8>| #[trigger] before.follows(pending) implies {
                let seen = pending + chunk@.take(0);
                !has_done_line(seen) && self.follows(open_line(seen))
            } by {
                assert(pending + chunk@.take(0) =~= pending);
                lemma_within_line(pending);
            }
        }
        while i < chunk.len()
            invariant
                i <= chunk@.len(),
                before == *old(self),
                before.follows(pending_of(before@)),
                self.wf(),
                forall|pending: Seq<u8>| #[trigger]
                    before.follows(pending) ==> {
                        let seen = pending + chunk@.take(i as int);
                        !has_done_line(seen) && self.follows(open_line(seen))
                    },
            decreases chunk.len() - i,
        {
            let byte = chunk[i];
            let ghost here = *self;
            if byte == NEWLINE {
                let is_done = !self.line_too_long && self.line_is_done();
                self.line.clear();
                self.line_too_long = false;
                proof {
                    assert forall|pending: Seq<u8>| #[trigger] before.follows(pending) implies {
                        let seen = pending + chunk@.take(i + 1);
                        &&& has_done_line(seen) == is_done
                        &&& open_line(seen) == Seq::<u8>::empty()
                        &&& is_done ==> has_done_line(pending + chunk@)
                    } by {
                        let seen = pending + chunk@.take(i as int);
                        assert(pending + chunk@.take(i + 1) =~= seen.push(byte));
                        lemma_push(seen, byte);
                        lemma_long_line_not_done(open_line(seen));
                        if is_done {
                            assert(seen.push(byte) + chunk@.skip(i + 1) =~= pending + chunk@);
                            lemma_done_stays(seen.push(byte), chunk@.skip(i + 1));
                        }
                    }
                }
                assert(self.follows(Seq::empty()));
                if is_done {
                    assert(has_done_line(pending_of(before@) + chunk@));
                    return true;
                }
            } else {
                if !self.line_too_long {
                    if self.line.len() < MAX_CANDIDATE_LINE_LEN {
                        self.line.push(byte);
                    } else {
                        self.line.clear();
                        self.line_too_long = true;
                    }
                }
                proof {
                    assert forall|pending: Seq<u8>| #[trigger] before.follows(pending) implies {
                        let seen = pending + chunk@.take(i + 1);
                        !has_done_line(seen) && self.follows(open_line(seen))
                    } by {
                        let seen = pending + chunk@.take(i as int);
                        assert(pending + chunk@.take(i + 1) =~= seen.push(byte));
                        lemma_push(seen, byte);
                        assert(here.follows(open_line(seen)));
                    }
                }
            }
            i += 1;
        }
        proof {
            assert(chunk@.take(i as int) =~= chunk@);
            assert(!has_done_line(pending_of(before@) + chunk@));
        }
        false
    }

    /// Whether the kept line is terminal.
    fn line_is_done(&self) -> (r: bool)
        ensures
            r == is_done_line(self.line@),
    {
        let mut end: usize = self.line.len();
        if end > 0 && self.line[end - 1] == CARRIAGE_RETURN {
            end -= 1;
        }
        assert(self.line@.take(end as int) =~= without_carriage_return(self.line@));
        starts_and_ends(&self.line, end, SSE_DONE_LINE_WITH_SPACE) || starts_and_ends(
            &self.line,
            end,
            SSE_DONE_LINE_WITHOUT_SPACE,
        )
    }
}

impl Default for SseDoneDetector {
    /// A detector at the start of a stream.
    fn default() -> (r: Self)
        ensures
            r.wf(),
            r@ == fresh_state(),
            r.follows(Seq::empty()),
    {
        SseDoneDetector { line: Vec::new(), line_too_long: false }
    }
}

/// Whether the first `end` bytes of a line are exactly the bytes of a text.
fn starts_and_ends(line: &Vec<u8>, end: usize, text: &str) -> (r: bool)
    requires
        end <= line@.len(),
    ensures
        r == (line@.take(end as int) == encode_utf8(text@)),
{
    let bytes = text.as_bytes();
    if bytes.len() != end {
        return false;
    }
    let mut i: usize = 0;
    while i < end
        invariant
            i <= end <= line@.len(),
            bytes@.len() == end,
            bytes@ == encode_utf8(text@),
            line@.take(i as int) == bytes@.take(i as int),
        decreases end - i,
    {
        if line[i] != bytes[i] {
            assert(line@.take(end as int)[i as int] != bytes@[i as int]);
            return false;
        }
        assert(line@.take(i + 1) =~= line@.take(i as int).push(line@[i as int]));
        assert(bytes@.take(i + 1) =~= bytes@.take(i as int).push(bytes@[i as int]));
        i += 1;
    }
    assert(bytes@.take(end as int) =~= bytes@);
    true
}

/// Without a newline, a stream is all one open line.
proof fn lemma_within_line(stream: Seq<u8>)
    requires
        within_line(stream),
    ensures
        open_line(stream) == stream,
        !has_done_line(stream),
{
    lemma_line_before_within(stream, stream.len() as int);
    assert(stream.take(stream.len() as int) =~= stream);
}

proof fn lemma_line_before_within(stream: Seq<u8>, end: int)
    requires
        within_line(stream),
        0 <= end <= stream.len(),
    ensures
        line_before(stream, end) == stream.take(end),
    decreases end,
{
    if end > 0 {
        lemma_line_before_within(stream, end - 1);
        assert(stream.take(end) =~= stream.take(end - 1).push(stream[end - 1]));
    } else {
        assert(stream.take(end) =~= Seq::empty());
    }
}

/// The open line depends only on the bytes that stand before it.
proof fn lemma_line_before_prefix(a: Seq<u8>, b: Seq<u8>, end: int)
    requires
        0 <= end <= a.len(),
    ensures
        line_before(a + b, end) == line_before(a, end),
    decreases end,
{
    if end > 0 {
        lemma_line_before_prefix(a, b, end - 1);
    }
}

/// What one more byte does to a stream.
proof fn lemma_push(stream: Seq<u8>, byte: u8)
    ensures
        byte == NEWLINE ==> has_done_line(stream.push(byte)) == (has_done_line(stream)
            || is_done_line(open_line(stream))),
        byte == NEWLINE ==> open_line(stream.push(byte)) == Seq::<u8>::empty(),
        byte != NEWLINE ==> has_done_line(stream.push(byte)) == has_done_line(stream),
        byte != NEWLINE ==> open_line(stream.push(byte)) == open_line(stream).push(byte),
{
    let longer = stream.push(byte);
    assert(longer =~= stream + seq![byte]);
    lemma_line_before_prefix(stream, seq![byte], stream.len() as int);
    assert forall|i: int| done_at(longer, i) && i < stream.len() implies done_at(stream, i) by {
        lemma_line_before_prefix(stream, seq![byte], i);
    }
    if has_done_line(stream) {
        lemma_done_stays(stream, seq![byte]);
    }
    if byte == NEWLINE && is_done_line(open_line(stream)) {
        assert(done_at(longer, stream.len() as int));
    }
}

/// A terminal line stays where it is, whatever follows.
proof fn lemma_done_stays(stream: Seq<u8>, more: Seq<u8>)
    requires
        has_done_line(stream),
    ensures
        has_done_line(stream + more),
{
    let i = choose|i: int| done_at(stream, i);
    lemma_line_before_prefix(stream, more, i);
    assert(done_at(stream + more, i));
}

/// A line that is longer than both terminal forms is not terminal.
pub proof fn lemma_long_line_not_done(line: Seq<u8>)
    ensures
        line.len() > MAX_CANDIDATE_LINE_LEN ==> !is_done_line(line),
{
    reveal_strlit("data: [DONE]");
    reveal_strlit("data:[DONE]");
    vstd::utf8::is_ascii_chars_encode_utf8(SSE_DONE_LINE_WITH_SPACE@);
    vstd::utf8::is_ascii_chars_encode_utf8(SSE_DONE_LINE_WITHOUT_SPACE@);
}

proof fn lemma_line_before_split(a: Seq<u8>, b: Seq<u8>, end: int)
    requires
        a.len() <= end <= a.len() + b.len(),
    ensures
        line_before(a + b, end) == line_before(open_line(a) + b, end - a.len() + open_line(a).len()),
    decreases end,
{
    lemma_open_line_within(a);
    let short = open_line(a) + b;
    let at = end - a.len() + open_line(a).len();
    if end > a.len() {
        lemma_line_before_split(a, b, end - 1);
        assert((a + b)[end - 1] == b[end - 1 - a.len()]);
        assert(short[at - 1] == b[end - 1 - a.len()]);
    } else {
        lemma_line_before_prefix(a, b, end);
        lemma_line_before_prefix(open_line(a), b, at);
        lemma_within_line(open_line(a));
    }
}

proof fn lemma_open_line_within(stream: Seq<u8>)
    ensures
        within_line(open_line(stream)),
{
    lemma_line_before_no_newline(stream, stream.len() as int);
}

proof fn lemma_line_before_no_newline(stream: Seq<u8>, end: int)
    requires
        end <= stream.len(),
    ensures
        within_line(line_before(stream, end)),
    decreases end,
{
    if end > 0 {
        lemma_line_before_no_newline(stream, end - 1);
    }
}

/// How a stream is cut into chunks does not matter: looking at `a` and then, if
/// no terminal line was found, at the open line and `b`, finds what looking at
/// the whole stream finds, and leaves the same open line.
pub proof fn law_chunking_does_not_matter(a: Seq<u8>, b: Seq<u8>)
    ensures
        has_done_line(a + b) == (has_done_line(a) || has_done_line(open_line(a) + b)),
        open_line(a + b) == open_line(open_line(a) + b),
{
    let short = open_line(a) + b;
    let shift = a.len() - open_line(a).len();
    lemma_open_line_within(a);
    lemma_line_before_split(a, b, (a + b).len() as int);
    if has_done_line(a) {
        lemma_done_stays(a, b);
    }
    if has_done_line(short) {
        let j = choose|j: int| done_at(short, j);
        assert(j >= open_line(a).len());
        lemma_line_before_split(a, b, j + shift);
        assert(done_at(a + b, j + shift));
    }
    if has_done_line(a + b) {
        let i = choose|i: int| done_at(a + b, i);
        if i < a.len() {
            lemma_line_before_prefix(a, b, i);
            assert(done_at(a, i));
        } else {
            lemma_line_before_split(a, b, i);
            assert(done_at(short, i - shift));
        }
    }
}

/// A state that can be reached stands behind the open line that stands for it.
proof fn lemma_pending_of(state: DetectorState)
    requires
        is_reachable(state),
    ensures
        within_line(pending_of(state)),
        state_of(pending_of(state)) == state,
{
    assert(state_of(pending_of(state)) =~= state);
}

/// Two open lines with the same state behind them are told apart by no chunk.
proof fn lemma_same_state(p: Seq<u8>, q: Seq<u8>, chunk: Seq<u8>)
    requires
        within_line(p),
        within_line(q),
        state_of(p) == state_of(q),
    ensures
        has_done_line(p + chunk) == has_done_line(q + chunk),
        state_of(open_line(p + chunk)) == state_of(open_line(q + chunk)),
    decreases chunk.len(),
{
    if chunk.len() == 0 {
        assert(p + chunk =~= p && q + chunk =~= q);
        lemma_within_line(p);
        lemma_within_line(q);
    } else {
        let shorter = chunk.drop_last();
        lemma_same_state(p, q, shorter);
        assert(p + chunk =~= (p + shorter).push(chunk.last()));
        assert(q + chunk =~= (q + shorter).push(chunk.last()));
        lemma_push(p + shorter, chunk.last());
        lemma_push(q + shorter, chunk.last());
        lemma_long_line_not_done(open_line(p + shorter));
        lemma_long_line_not_done(open_line(q + shorter));
        assert(state_of(open_line(p + shorter)).line_too_long == (open_line(p + shorter).len()
            > MAX_CANDIDATE_LINE_LEN));
    }
}

/// Observing a chunk leads from one state that can be reached to another.
proof fn lemma_state_after_is_reachable(state: DetectorState, chunk: Seq<u8>)
    requires
        is_reachable(state),
    ensures
        is_reachable(state_after(state, chunk)),
{
    lemma_open_line_within(pending_of(state) + chunk);
}

/// How a stream is cut into chunks does not matter to a detector, whatever it has
/// observed before: what it finds in `a` it finds in `a` and `b` as one chunk, and
/// where it does not find it in `a`, the one chunk gives what `b` gives after `a`
/// and leaves the same state.
pub proof fn law_chunking_does_not_matter_to_a_detector(
    state: DetectorState,
    a: Seq<u8>,
    b: Seq<u8>,
)
    requires
        is_reachable(state),
    ensures
        finds(state, a) ==> finds(state, a + b),
        !finds(state, a) ==> finds(state, a + b) == finds(state_after(state, a), b),
        !finds(state, a) ==> state_after(state, a + b) == state_after(state_after(state, a), b),
{
    let pending = pending_of(state);
    let seen = pending + a;
    lemma_pending_of(state);
    assert(pending + (a + b) =~= seen + b);
    if finds(state, a) {
        lemma_done_stays(seen, b);
    } else {
        let next = state_after(state, a);
        lemma_state_after_is_reachable(state, a);
        lemma_pending_of(next);
        lemma_open_line_within(seen);
        law_chunking_does_not_matter(seen, b);
        lemma_same_state(open_line(seen), pending_of(next), b);
    }
}

/// The open line fixes the state: two detectors that stand behind the same open
/// line are in the same state, and every detector stands behind some.
pub proof fn law_the_open_line_fixes_the_state(
    a: SseDoneDetector,
    b: SseDoneDetector,
    pending: Seq<u8>,
)
    requires
        a.wf(),
        b.wf(),
    ensures
        a.follows(pending) && b.follows(pending) ==> a@ == b@,
        a.follows(pending_of(a@)),
{
    lemma_pending_of(a@);
}

/// With the terminal line a detector is back in the state at the start of a
/// stream: whatever stood behind that line is not kept, and the next chunk is
/// answered as a fresh detector answers it.
pub proof fn law_the_terminal_line_makes_a_detector_fresh(
    state: DetectorState,
    chunk: Seq<u8>,
    next: Seq<u8>,
)
    requires
        finds(state, chunk),
    ensures
        state_after(state, chunk) == fresh_state(),
        finds(state_after(state, chunk), next) == has_done_line(next),
{
    assert(pending_of(fresh_state()) + next =~= next);
}

/// Whatever chunks it has observed, a detector keeps no more than a line that can
/// still become terminal, no newline, and nothing of a line that is too long.
pub proof fn law_the_buffer_is_bounded(chunks: Seq<Seq<u8>>)
    ensures
        ({
            let state = state_after_chunks(chunks);
            &&& is_reachable(state)
            &&& state.line.len() <= MAX_CANDIDATE_LINE_LEN
            &&& !state.line.contains(NEWLINE)
            &&& state.line_too_long ==> state.line == Seq::<u8>::empty()
        }),
    decreases chunks.len(),
{
    if chunks.len() > 0 {
        law_the_buffer_is_bounded(chunks.drop_last());
        lemma_state_after_is_reachable(state_after_chunks(chunks.drop_last()), chunks.last());
    }
    let state = state_after_chunks(chunks);
    if state.line_too_long {
        assert(state.line =~= Seq::empty());
    }
}

/// The terminal text inside a longer line ends nothing: with anything before
/// it, or with anything but one carriage return behind it, the line that holds
/// it is not terminal.
pub proof fn law_embedded_marker_is_not_terminal(spaced: bool, before: Seq<u8>, after: Seq<u8>)
    requires
        within_line(before),
        within_line(after),
        before.len() > 0 || (after.len() > 0 && after != seq![CARRIAGE_RETURN]),
    ensures
        !has_done_line(
            before + encode_utf8(
                if spaced {
                    SSE_DONE_LINE_WITH_SPACE@
                } else {
                    SSE_DONE_LINE_WITHOUT_SPACE@
                },
            ) + after + seq![NEWLINE],
        ),
{
    reveal_strlit("data: [DONE]");
    reveal_strlit("data:[DONE]");
    vstd::utf8::is_ascii_chars_encode_utf8(SSE_DONE_LINE_WITH_SPACE@);
    vstd::utf8::is_ascii_chars_encode_utf8(SSE_DONE_LINE_WITHOUT_SPACE@);
    let with_space = encode_utf8(SSE_DONE_LINE_WITH_SPACE@);
    let without_space = encode_utf8(SSE_DONE_LINE_WITHOUT_SPACE@);
    let marker = if spaced { with_space } else { without_space };
    let line = before + marker + after;
    assert(within_line(line));
    assert(line + seq![NEWLINE] =~= line.push(NEWLINE));
    lemma_within_line(line);
    lemma_push(line, NEWLINE);
    if is_done_line(line) {
        let content = without_carriage_return(line);
        lemma_long_line_not_done(line);
        assert(line[before.len() as int] == 'd' as u8);
        assert(line[before.len() + 1int] == 'a' as u8);
        assert(content[0] == 'd' as u8 && content[1] == 'a' as u8);
        if before.len() > 0 {
            assert(content[before.len() as int] == line[before.len() as int]);
            assert(content[before.len() + 1int] == line[before.len() + 1int]);
        } else {
            assert(line[5] == marker[5]);
            assert(content[5] == line[5]);
            if after.len() == 1 {
                assert(line.last() == after[0]);
                assert(after =~= seq![after[0]]);
            } else {
                assert(line[marker.len() as int] == after[0]);
            }
        }
    }
}

} // verus!
