//! Reading a streamed chat answer (server-sent events): splitting the received text into
//! lines, picking the `data: ` payloads, and accumulating the decoded chunks. Receiving
//! bytes and decoding each payload's JSON is the caller's part.
use vstd::prelude::*;
use crate::model::backend::{ChatResponse, StreamChunk};
use crate::text::{chars_of, opt_text, starts_with, starts_with_chars, string_from_chars, trim, trim_chars};

verus! {

/// The complete lines of `s` (each ended by '\n') after `cur`, the text before the first
/// of them, and what follows the last '\n'.
pub open spec fn scan_lines(s: Seq<char>, cur: Seq<char>) -> (Seq<Seq<char>>, Seq<char>)
    decreases s.len(),
{
    if s.len() == 0 {
        (Seq::empty(), cur)
    } else if s[0] == '\n' {
        let (ls, rest) = scan_lines(s.drop_first(), Seq::empty());
        (seq![cur] + ls, rest)
    } else {
        scan_lines(s.drop_first(), cur.push(s[0]))
    }
}

/// The payload a line carries: the text after "data: " of a trimmed line, unless the line
/// is blank or the end marker "data: [DONE]".
pub open spec fn payload_of(line: Seq<char>) -> Option<Seq<char>> {
    let t = trim(line);
    if t.len() == 0 || t == "data: [DONE]"@ {
        None
    } else if starts_with(t, "data: "@) {
        Some(t.skip(6))
    } else {
        None
    }
}

/// The payloads of the lines, in order.
pub open spec fn payloads_of(lines: Seq<Seq<char>>) -> Seq<Seq<char>>
    decreases lines.len(),
{
    if lines.len() == 0 {
        Seq::empty()
    } else {
        match payload_of(lines[0]) {
            Some(p) => seq![p] + payloads_of(lines.drop_first()),
            None => payloads_of(lines.drop_first()),
        }
    }
}

/// The delta of one streamed choice.
#[derive(Debug, Clone)]
pub struct StreamDelta {
    pub content: Option<String>,
    pub reasoning_content: Option<String>,
}

/// One streamed choice.
#[derive(Debug, Clone)]
pub struct StreamChoice {
    pub delta: StreamDelta,
    pub finish_reason: Option<String>,
}

/// A decoded stream payload.
#[derive(Debug, Clone)]
pub struct StreamResponseChunk {
    pub model: Option<String>,
    pub choices: Vec<StreamChoice>,
}

/// The mathematical value of a choice: its thinking, its content, and whether it finished.
pub struct ChoiceView {
    pub reasoning: Option<Seq<char>>,
    pub content: Option<Seq<char>>,
    pub finished: bool,
}

impl View for StreamChoice {
    type V = ChoiceView;

    open spec fn view(&self) -> ChoiceView {
        ChoiceView {
            reasoning: opt_text(self.delta.reasoning_content),
            content: opt_text(self.delta.content),
            finished: self.finish_reason is Some,
        }
    }
}

/// The views of the choices.
pub open spec fn choice_views(v: Seq<StreamChoice>) -> Seq<ChoiceView> {
    Seq::new(v.len(), |i: int| v[i]@)
}

/// A piece emitted while streaming: thinking or answer text.
pub enum PieceView {
    Thinking(Seq<char>),
    Delta(Seq<char>),
}

/// The view of an emitted piece.
pub open spec fn piece_view(c: StreamChunk) -> PieceView {
    match c {
        StreamChunk::Thinking(t) => PieceView::Thinking(t@),
        StreamChunk::Delta(t) => PieceView::Delta(t@),
    }
}

/// The views of the emitted pieces.
pub open spec fn piece_views(v: Seq<StreamChunk>) -> Seq<PieceView> {
    Seq::new(v.len(), |i: int| piece_view(v[i]))
}

/// The thinking and answer text gathered, and the pieces emitted, by the choices: for
/// each, its non-empty thinking, then its non-empty content.
pub open spec fn apply_choices(choices: Seq<ChoiceView>) -> (Seq<char>, Seq<char>, Seq<PieceView>)
    decreases choices.len(),
{
    if choices.len() == 0 {
        (Seq::empty(), Seq::empty(), Seq::empty())
    } else {
        let (thinking, content, pieces) = apply_choices(choices.drop_last());
        let c = choices.last();
        let (thinking1, pieces1) = match c.reasoning {
            Some(r) => if r.len() > 0 { (thinking + r, pieces.push(PieceView::Thinking(r))) } else { (thinking, pieces) },
            None => (thinking, pieces),
        };
        match c.content {
            Some(x) => if x.len() > 0 { (thinking1, content + x, pieces1.push(PieceView::Delta(x))) } else { (thinking1, content, pieces1) },
            None => (thinking1, content, pieces1),
        }
    }
}

/// Whether a chunk ends the answer: it has choices and each of them has finished.
pub open spec fn chunk_finishes(choices: Seq<ChoiceView>) -> bool {
    choices.len() > 0 && forall|i: int| 0 <= i < choices.len() ==> #[trigger] choices[i].finished
}

/// The mathematical value of a `StreamState`.
pub struct StreamView {
    pub pending: Seq<char>,
    pub content: Seq<char>,
    pub thinking: Seq<char>,
    pub model: Seq<char>,
    pub finished: bool,
}

/// What has been received of a streamed answer.
pub struct StreamState {
    pending: Vec<char>,
    content: Vec<char>,
    thinking: Vec<char>,
    model: String,
    finished: bool,
}

impl View for StreamState {
    type V = StreamView;

    closed spec fn view(&self) -> StreamView {
        StreamView {
            pending: self.pending@,
            content: self.content@,
            thinking: self.thinking@,
            model: self.model@,
            finished: self.finished,
        }
    }
}

/// The payload of a line, if it has one.
pub fn line_payload(line: &Vec<char>) -> (r: Option<String>)
    ensures
        opt_text(r) == payload_of(line@),
{
    proof {
        reveal_strlit("data: ");
        reveal_strlit("data: [DONE]");
    }
    let t = trim_chars(line);
    if t.len() == 0 {
        return None;
    }
    let s = string_from_chars(&t);
    if crate::text::str_eq(s.as_str(), "data: [DONE]") {
        return None;
    }
    let prefix = chars_of("data: ");
    if starts_with_chars(&t, &prefix) {
        let rest = crate::text::copy_range(&t, 6, t.len());
        Some(string_from_chars(&rest))
    } else {
        None
    }
}

impl StreamState {
    /// Nothing received yet; the answer's model is the configured one until a chunk names it.
    pub fn new(model: String) -> (r: StreamState)
        ensures
            r@ == (StreamView { pending: Seq::empty(), content: Seq::empty(), thinking: Seq::empty(), model: model@, finished: false }),
    {
        StreamState { pending: Vec::new(), content: Vec::new(), thinking: Vec::new(), model, finished: false }
    }

    /// Whether a chunk has ended the answer.
    pub fn is_finished(&self) -> (r: bool)
        ensures
            r == self@.finished,
    {
        self.finished
    }

    /// Take in received text: the payloads of the lines it completes, in order; the text
    /// after the last line end waits for more.
    pub fn feed(&mut self, text: &str) -> (r: Vec<String>)
        ensures
            ({
                let (ls, rest) = scan_lines(old(self)@.pending + text@, Seq::empty());
                &&& crate::text::texts(r@) == payloads_of(ls)
                &&& final(self)@ == StreamView { pending: rest, ..old(self)@ }
            }),
    {
        let mut all: Vec<char> = Vec::new();
        std::mem::swap(&mut all, &mut self.pending);
        let ghost start = all@;
        crate::text::append_str(&mut all, text);
        let ghost s = all@;
        let n = all.len();
        let mut out: Vec<String> = Vec::new();
        let mut cur: Vec<char> = Vec::new();
        let mut k: usize = 0;
        let ghost lines_done: Seq<Seq<char>> = Seq::empty();
        assert(s.skip(0) =~= s);
        while k < n
            invariant
                n == s.len(),
                all@ == s,
                k <= n,
                ({
                    let (ls, rest) = scan_lines(s, Seq::empty());
                    let (ls2, rest2) = scan_lines(s.skip(k as int), cur@);
                    &&& ls == lines_done + ls2
                    &&& rest == rest2
                }),
                crate::text::texts(out@) == payloads_of(lines_done),
            decreases n - k,
        {
            let c = all[k];
            assert(s.skip(k as int).drop_first() =~= s.skip(k as int + 1));
            assert(s.skip(k as int)[0] == c);
            if c == '\n' {
                let p = line_payload(&cur);
                proof {
                    lemma_payloads_push(lines_done, cur@);
                    let (ls2, rest2) = scan_lines(s.skip(k as int + 1), Seq::empty());
                    assert(lines_done + (seq![cur@] + ls2) =~= lines_done.push(cur@) + ls2);
                    lines_done = lines_done.push(cur@);
                }
                match p {
                    Some(payload) => {
                        let ghost before = out@;
                        out.push(payload);
                        assert(crate::text::texts(out@) =~= crate::text::texts(before).push(out@.last()@));
                    },
                    None => {},
                }
                cur = Vec::new();
            } else {
                cur.push(c);
            }
            k = k + 1;
        }
        proof {
            assert(s.skip(n as int) =~= Seq::<char>::empty());
            assert(lines_done + Seq::<Seq<char>>::empty() =~= lines_done);
        }
        self.pending = cur;
        out
    }

    /// Take in a decoded payload: the model it names, the thinking and answer text of its
    /// choices (each non-empty piece also emitted, in order), and whether it ends the answer.
    pub fn apply_chunk(&mut self, chunk: &StreamResponseChunk) -> (r: Vec<StreamChunk>)
        ensures
            ({
                let (thinking, content, pieces) = apply_choices(choice_views(chunk.choices@));
                &&& piece_views(r@) == pieces
                &&& final(self)@.pending == old(self)@.pending
                &&& final(self)@.thinking == old(self)@.thinking + thinking
                &&& final(self)@.content == old(self)@.content + content
                &&& final(self)@.model == match chunk.model { Some(m) => m@, None => old(self)@.model }
                &&& final(self)@.finished == (old(self)@.finished || chunk_finishes(choice_views(chunk.choices@)))
            }),
    {
        if let Some(m) = &chunk.model {
            self.model = m.clone();
        }
        let ghost cs = choice_views(chunk.choices@);
        let ghost t0 = self.thinking@;
        let ghost c0 = self.content@;
        let ghost p0 = self.pending@;
        let ghost m0 = self.model@;
        let ghost f0 = self.finished;
        let mut out: Vec<StreamChunk> = Vec::new();
        let n = chunk.choices.len();
        let mut i: usize = 0;
        let mut all_finished = true;
        assert(cs.take(0) =~= Seq::<ChoiceView>::empty());
        assert(piece_views(out@) =~= Seq::<PieceView>::empty());
        while i < n
            invariant
                n == chunk.choices@.len(),
                cs == choice_views(chunk.choices@),
                i <= n,
                self.pending@ == p0,
                self.model@ == m0,
                self.finished == f0,
                ({
                    let (th, co, pi) = apply_choices(cs.take(i as int));
                    &&& self.thinking@ == t0 + th
                    &&& self.content@ == c0 + co
                    &&& piece_views(out@) == pi
                }),
                all_finished == (forall|j: int| 0 <= j < i ==> #[trigger] cs[j].finished),
            decreases n - i,
        {
            assert(cs.take(i as int + 1).drop_last() =~= cs.take(i as int));
            assert(cs.take(i as int + 1).last() == cs[i as int]);
            let choice = &chunk.choices[i];
            let ghost th_before = self.thinking@;
            let ghost co_before = self.content@;
            let ghost pi_before = piece_views(out@);
            if let Some(r) = &choice.delta.reasoning_content {
                let rc = chars_of(r.as_str());
                if rc.len() > 0 {
                    crate::text::append_chars(&mut self.thinking, &rc);
                    out.push(StreamChunk::Thinking(r.clone()));
                    assert(piece_views(out@) =~= pi_before.push(PieceView::Thinking(r@)));
                    assert(self.thinking@ =~= t0 + (apply_choices(cs.take(i as int)).0 + r@));
                }
            }
            let ghost pi_mid = piece_views(out@);
            if let Some(x) = &choice.delta.content {
                let xc = chars_of(x.as_str());
                if xc.len() > 0 {
                    crate::text::append_chars(&mut self.content, &xc);
                    out.push(StreamChunk::Delta(x.clone()));
                    assert(piece_views(out@) =~= pi_mid.push(PieceView::Delta(x@)));
                    assert(self.content@ =~= c0 + (apply_choices(cs.take(i as int)).1 + x@));
                }
            }
            assert(cs[i as int].finished == choice.finish_reason.is_some());
            if choice.finish_reason.is_none() {
                all_finished = false;
            }
            i = i + 1;
        }
        assert(cs.take(n as int) =~= cs);
        if n > 0 && all_finished {
            self.finished = true;
        }
        out
    }

    /// The answer gathered: its content and model, without token accounting.
    pub fn finish(self) -> (r: ChatResponse)
        ensures
            r.content@ == self@.content,
            r.model@ == self@.model,
            r.usage is None,
    {
        ChatResponse { content: string_from_chars(&self.content), model: self.model, usage: None }
    }
}

/// The payloads of lines with one more line.
pub proof fn lemma_payloads_push(lines: Seq<Seq<char>>, line: Seq<char>)
    ensures
        payloads_of(lines.push(line)) == payloads_of(lines) + match payload_of(line) {
            Some(p) => seq![p],
            None => Seq::<Seq<char>>::empty(),
        },
    decreases lines.len(),
{
    if lines.len() == 0 {
        assert(lines.push(line).drop_first() =~= Seq::<Seq<char>>::empty());
        assert(payloads_of(Seq::<Seq<char>>::empty()) == Seq::<Seq<char>>::empty());
        assert(seq![line][0] == line);
        assert(lines.push(line) =~= seq![line]);
    } else {
        assert(lines.push(line).drop_first() =~= lines.drop_first().push(line));
        lemma_payloads_push(lines.drop_first(), line);
        assert(lines.push(line)[0] == lines[0]);
        match payload_of(lines[0]) {
            Some(p) => {
                assert(seq![p] + payloads_of(lines.drop_first().push(line)) =~= seq![p] + payloads_of(lines.drop_first()) + match payload_of(line) {
                    Some(q) => seq![q],
                    None => Seq::<Seq<char>>::empty(),
                });
            },
            None => {},
        }
    }
}

/// The answer text of the emitted pieces, in order.
pub open spec fn delta_text(pieces: Seq<PieceView>) -> Seq<char>
    decreases pieces.len(),
{
    if pieces.len() == 0 {
        Seq::empty()
    } else {
        delta_text(pieces.drop_last()) + match pieces.last() {
            PieceView::Delta(t) => t,
            PieceView::Thinking(_) => Seq::empty(),
        }
    }
}

/// The thinking text of the emitted pieces, in order.
pub open spec fn thinking_text(pieces: Seq<PieceView>) -> Seq<char>
    decreases pieces.len(),
{
    if pieces.len() == 0 {
        Seq::empty()
    } else {
        thinking_text(pieces.drop_last()) + match pieces.last() {
            PieceView::Thinking(t) => t,
            PieceView::Delta(_) => Seq::empty(),
        }
    }
}

/// The answer gathered from a chunk is exactly the answer pieces it emits, in order, and
/// likewise for the thinking: what is shown while streaming is what is returned.
pub proof fn law_gathered_is_emitted(choices: Seq<ChoiceView>)
    ensures
        apply_choices(choices).1 == delta_text(apply_choices(choices).2),
        apply_choices(choices).0 == thinking_text(apply_choices(choices).2),
    decreases choices.len(),
{
    if choices.len() > 0 {
        law_gathered_is_emitted(choices.drop_last());
        let (t, c, p) = apply_choices(choices.drop_last());
        let ch = choices.last();
        let (t1, p1) = match ch.reasoning {
            Some(r) => if r.len() > 0 { (t + r, p.push(PieceView::Thinking(r))) } else { (t, p) },
            None => (t, p),
        };
        if let Some(r) = ch.reasoning {
            if r.len() > 0 {
                assert(p.push(PieceView::Thinking(r)).drop_last() =~= p);
                assert(delta_text(p1) =~= delta_text(p) + Seq::<char>::empty());
                assert(thinking_text(p1) == thinking_text(p) + r);
            }
        }
        assert(c =~= delta_text(p1));
        assert(t1 =~= thinking_text(p1));
        if let Some(x) = ch.content {
            if x.len() > 0 {
                assert(p1.push(PieceView::Delta(x)).drop_last() =~= p1);
                assert(thinking_text(p1.push(PieceView::Delta(x))) =~= thinking_text(p1) + Seq::<char>::empty());
            }
        }
    }
}

/// The lines, each followed by a line break.
pub open spec fn with_breaks(ls: Seq<Seq<char>>) -> Seq<char>
    decreases ls.len(),
{
    if ls.len() == 0 {
        Seq::empty()
    } else {
        ls[0].push('\n') + with_breaks(ls.drop_first())
    }
}

/// Cutting received text into lines loses and adds nothing: the complete lines, each with
/// its line break, followed by the unfinished rest, are the pending text followed by what
/// was received; neither a line nor the rest holds a line break.
pub proof fn law_scan_lines(s: Seq<char>, cur: Seq<char>)
    requires
        !cur.contains('\n'),
    ensures
        with_breaks(scan_lines(s, cur).0) + scan_lines(s, cur).1 == cur + s,
        !scan_lines(s, cur).1.contains('\n'),
        forall|i: int| 0 <= i < scan_lines(s, cur).0.len() ==> !(#[trigger] scan_lines(s, cur).0[i]).contains('\n'),
    decreases s.len(),
{
    if s.len() == 0 {
        assert(cur + s =~= cur);
        assert(Seq::<char>::empty() + cur =~= cur);
    } else if s[0] == '\n' {
        law_scan_lines(s.drop_first(), Seq::empty());
        let (ls, rest) = scan_lines(s.drop_first(), Seq::empty());
        let all = seq![cur] + ls;
        assert(all.drop_first() =~= ls);
        assert(with_breaks(all) == cur.push('\n') + with_breaks(ls));
        assert(Seq::<char>::empty() + s.drop_first() =~= s.drop_first());
        assert(with_breaks(ls) + rest == s.drop_first());
        assert(cur.push('\n') + s.drop_first() =~= cur + s);
        assert(cur.push('\n') + with_breaks(ls) + rest =~= cur.push('\n') + (with_breaks(ls) + rest));
        assert forall|i: int| 0 <= i < all.len() implies !(#[trigger] all[i]).contains('\n') by {
            if i > 0 {
                assert(all[i] == ls[i - 1]);
            }
        }
    } else {
        let c2 = cur.push(s[0]);
        assert(!c2.contains('\n')) by {
            if c2.contains('\n') {
                let k = choose|k: int| 0 <= k < c2.len() && c2[k] == '\n';
                if k < cur.len() {
                    assert(cur[k] == '\n');
                }
            }
        }
        law_scan_lines(s.drop_first(), c2);
        assert(c2 + s.drop_first() =~= cur + s);
    }
}

/// A line carries a payload exactly when, trimmed, it is "data: " followed by something
/// other than "[DONE]" (blank lines and the end marker carry none); the payload is what
/// follows "data: ".
pub proof fn law_payload(line: Seq<char>, p: Seq<char>)
    ensures
        payload_of(line) matches Some(q) ==> trim(line) == "data: "@ + q && q != "[DONE]"@,
        (trim(line) == "data: "@ + p && p != "[DONE]"@) ==> payload_of(line) == Some(p),
{
    reveal_strlit("data: ");
    reveal_strlit("data: [DONE]");
    reveal_strlit("[DONE]");
    let t = trim(line);
    if payload_of(line) is Some {
        let q = t.skip(6);
        assert(t =~= "data: "@ + q);
        if q == "[DONE]"@ {
            assert(t =~= "data: [DONE]"@);
        }
    }
    if t == "data: "@ + p && p != "[DONE]"@ {
        assert(t.take(6) =~= "data: "@);
        assert(t.skip(6) =~= p);
        if t == "data: [DONE]"@ {
            assert(p =~= t.skip(6));
            assert("data: [DONE]"@.skip(6) =~= "[DONE]"@);
        }
    }
}

} // verus!
