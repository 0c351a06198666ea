//! Server-sent events of the streaming `generateContent` endpoint, and the summary
//! text accumulated from them.
use vstd::prelude::*;

use crate::clock::{has_elapsed, monotonic_elapsed};
use crate::text::{
    chars_of, first_index_of, lemma_first_index_of, lemma_first_index_of_facts, matches_at, occurs_at, push_all, push_str, starts_with,
    string_from_range, trim, trim_range, trim_spec,
};

verus! {

/// The complete lines of `s`: each piece before a `\n`, in order.
pub open spec fn complete_lines(s: Seq<char>) -> Seq<Seq<char>>
    decreases s.len(),
{
    let k = first_index_of(s, '\n');
    if 0 <= k < s.len() {
        seq![s.take(k)] + complete_lines(s.skip(k + 1))
    } else {
        seq![]
    }
}

/// What follows the last `\n` of `s`: an unfinished line.
pub open spec fn line_tail(s: Seq<char>) -> Seq<char>
    decreases s.len(),
{
    let k = first_index_of(s, '\n');
    if 0 <= k < s.len() {
        line_tail(s.skip(k + 1))
    } else {
        s
    }
}

/// The data payloads of `lines`, in order, up to the `[DONE]` marker, and whether the
/// marker was seen. A data line starts with `data: `; other lines are ignored.
pub open spec fn sse_events(lines: Seq<Seq<char>>) -> (Seq<Seq<char>>, bool)
    decreases lines.len(),
{
    if lines.len() == 0 {
        (seq![], false)
    } else {
        let l = lines[0];
        let rest = sse_events(lines.drop_first());
        if starts_with(l, "data: "@) {
            let data = l.skip(6);
            if trim_spec(data) == "[DONE]"@ {
                (seq![], true)
            } else {
                (seq![data] + rest.0, rest.1)
            }
        } else {
            rest
        }
    }
}

/// Events of what has been decoded so far, followed by those of what comes next.
pub open spec fn chain_events(first: (Seq<Seq<char>>, bool), next: (Seq<Seq<char>>, bool)) -> (Seq<Seq<char>>, bool) {
    if first.1 {
        first
    } else {
        (first.0 + next.0, next.1)
    }
}

/// The payloads of a batch as character sequences.
pub open spec fn strings_view(v: Seq<String>) -> Seq<Seq<char>> {
    v.map_values(|s: String| s@)
}

/// The data payloads that one network chunk completed.
#[derive(Debug, Clone)]
pub struct SseBatch {
    /// Payloads of the completed data lines, in order, before any `[DONE]`.
    pub payloads: Vec<String>,
    /// Whether a `[DONE]` marker was among the completed lines.
    pub done: bool,
}

/// Splits the byte stream into lines across chunk boundaries.
pub struct SseDecoder {
    pending: Vec<char>,
}

impl View for SseDecoder {
    type V = Seq<char>;

    /// The unfinished line carried over from earlier chunks.
    closed spec fn view(&self) -> Seq<char> {
        self.pending@
    }
}

impl SseDecoder {
    /// A decoder with nothing pending.
    pub fn new() -> (d: SseDecoder)
        ensures
            d@ == Seq::<char>::empty(),
    {
        SseDecoder { pending: Vec::new() }
    }

    /// Feeds one chunk: the lines it completes are decoded, the rest stays pending.
    pub fn feed(&mut self, chunk: &str) -> (b: SseBatch)
        ensures
            final(self)@ == line_tail(old(self)@ + chunk@),
            strings_view(b.payloads@) == sse_events(complete_lines(old(self)@ + chunk@)).0,
            b.done == sse_events(complete_lines(old(self)@ + chunk@)).1,
    {
        let mut all: Vec<char> = Vec::new();
        all.append(&mut self.pending);
        let c = chars_of(chunk);
        let mut i: usize = 0;
        while i < c.len()
            invariant
                0 <= i <= c.len(),
                all@ == old(self)@ + c@.take(i as int),
            decreases c.len() - i,
        {
            all.push(c[i]);
            assert(c@.take(i + 1) =~= c@.take(i as int).push(c@[i as int]));
            i = i + 1;
        }
        assert(c@.take(c.len() as int) =~= c@);
        assert(all@ =~= old(self)@ + chunk@);
        proof {
            reveal_strlit("data: ");
            reveal_strlit("[DONE]");
        }
        let data_prefix = chars_of("data: ");
        let done_marker = chars_of("[DONE]");
        let mut payloads: Vec<String> = Vec::new();
        let mut done = false;
        let mut pos: usize = 0;
        let ghost whole = all@;
        let ghost start = old(self)@ + chunk@;
        assert(whole.skip(0) =~= whole);
        loop
            invariant
                all@ == whole,
                whole == start,
                start == old(self)@ + chunk@,
                data_prefix@.len() == 6,
                done_marker@.len() == 6,
                0 <= pos <= all.len(),
                data_prefix@ == "data: "@,
                done_marker@ == "[DONE]"@,
                sse_events(complete_lines(whole)) == chain_events(
                    (strings_view(payloads@), done),
                    sse_events(complete_lines(whole.skip(pos as int))),
                ),
                line_tail(whole) == line_tail(whole.skip(pos as int)),
            decreases all.len() - pos,
        {
            let mut k = pos;
            while k < all.len() && all[k] != '\n'
                invariant
                    pos <= k <= all.len(),
                    forall|m: int| pos <= m < k ==> all@[m] != '\n',
                decreases all.len() - k,
            {
                k = k + 1;
            }
            let ghost t = whole.skip(pos as int);
            proof {
                lemma_first_index_of(t, '\n', k - pos);
            }
            if k == all.len() {
                assert(complete_lines(t) =~= Seq::<Seq<char>>::empty());
                assert(line_tail(t) == t);
                assert(t =~= whole.subrange(pos as int, all.len() as int));
                let mut rest: Vec<char> = Vec::new();
                let mut m = pos;
                while m < all.len()
                    invariant
                        pos <= m <= all.len(),
                        all@ == whole,
                        rest@ == whole.subrange(pos as int, m as int),
                    decreases all.len() - m,
                {
                    rest.push(all[m]);
                    assert(whole.subrange(pos as int, m + 1) =~= whole.subrange(pos as int, m as int).push(whole[m as int]));
                    m = m + 1;
                }
                self.pending = rest;
                assert(sse_events(complete_lines(t)) == (Seq::<Seq<char>>::empty(), false));
                assert(strings_view(payloads@) + Seq::<Seq<char>>::empty() =~= strings_view(payloads@));
                return SseBatch { payloads, done };
            }
            let ghost line = whole.subrange(pos as int, k as int);
            let ghost rest_lines = complete_lines(whole.skip(k + 1));
            assert(t.take(k - pos) =~= line);
            assert(t.skip(k - pos + 1) =~= whole.skip(k + 1));
            assert(complete_lines(t) == seq![line] + rest_lines);
            assert((seq![line] + rest_lines).drop_first() =~= rest_lines);
            assert((seq![line] + rest_lines)[0] == line);
            let ghost next = sse_events(rest_lines);
            assert(line_tail(t) == line_tail(whole.skip(k + 1)));
            proof {
                reveal_strlit("data: ");
                reveal_strlit("[DONE]");
            }
            if k - pos >= 6 && matches_at(&all, &data_prefix, pos) {
                assert(line.take(6) =~= whole.subrange(pos as int, pos + 6));
                assert(line.skip(6) =~= whole.subrange(pos + 6, k as int));
                let (a, b) = trim_range(&all, pos + 6, k);
                let is_done = b - a == 6 && matches_at(&all, &done_marker, a);
                proof {
                    let ts = whole.subrange(a as int, b as int);
                    if is_done {
                        assert(ts =~= whole.subrange(a as int, a + 6));
                    } else if ts == "[DONE]"@ {
                        assert(ts =~= whole.subrange(a as int, a + 6));
                        assert(occurs_at(whole, done_marker@, a as int));
                    }
                }
                if !done {
                    if is_done {
                        done = true;
                        assert(strings_view(payloads@) + Seq::<Seq<char>>::empty() =~= strings_view(payloads@));
                    } else {
                        let p = string_from_range(&all, pos + 6, k);
                        let ghost before = payloads@;
                        payloads.push(p);
                        assert(strings_view(payloads@) =~= strings_view(before).push(p@));
                        assert(strings_view(before) + (seq![p@] + next.0) =~= strings_view(payloads@) + next.0);
                    }
                }
            } else {
                proof {
                    if starts_with(line, "data: "@) {
                        assert(line.take(6) =~= whole.subrange(pos as int, pos + 6));
                        assert(occurs_at(whole, data_prefix@, pos as int));
                    }
                }
            }
            pos = k + 1;
        }
    }
}

/// The concatenated texts of a model turn's parts, in order.
pub open spec fn parts_text(parts: Seq<crate::gemini::ResponsePart>) -> Seq<char>
    decreases parts.len(),
{
    if parts.len() == 0 {
        seq![]
    } else {
        parts_text(parts.drop_last()) + match parts.last().text {
            Some(t) => t@,
            None => seq![],
        }
    }
}

/// A streaming summary request in progress: the line decoder and the text so far.
pub struct SummaryStream {
    pub decoder: SseDecoder,
    pub text: String,
    pub started_at: u64,
}

impl SummaryStream {
    /// A stream that started at monotonic time `now`, with no text yet.
    pub fn start(now: u64) -> (s: SummaryStream)
        ensures
            s.decoder@ == Seq::<char>::empty(),
            s.text@ == Seq::<char>::empty(),
            s.started_at == now,
    {
        SummaryStream { decoder: SseDecoder::new(), text: String::new(), started_at: now }
    }

    /// Appends the texts of one candidate's parts.
    pub fn absorb(&mut self, content: &crate::gemini::ResponseContent)
        ensures
            final(self).text@ == old(self).text@ + parts_text(content.parts@),
            final(self).decoder@ == old(self).decoder@,
            final(self).started_at == old(self).started_at,
    {
        let mut k: usize = 0;
        while k < content.parts.len()
            invariant
                0 <= k <= content.parts.len(),
                self.text@ == old(self).text@ + parts_text(content.parts@.take(k as int)),
                self.decoder@ == old(self).decoder@,
                self.started_at == old(self).started_at,
            decreases content.parts.len() - k,
        {
            let ghost pre = content.parts@.take(k + 1);
            assert(pre.drop_last() =~= content.parts@.take(k as int));
            if let Some(t) = &content.parts[k].text {
                push_str(&mut self.text, t.as_str());
            }
            assert(self.text@ =~= old(self).text@ + parts_text(pre));
            k = k + 1;
        }
        assert(content.parts@.take(content.parts.len() as int) =~= content.parts@);
    }

    /// Whether the stream has run longer than `timeout_secs` at `now`.
    pub fn timed_out(&self, now: u64, timeout_secs: u64) -> (b: bool)
        ensures
            b == (now >= self.started_at && now - self.started_at > timeout_secs * 1_000_000_000),
    {
        if now < self.started_at {
            return false;
        }
        ((now - self.started_at) as u128) > timeout_secs as u128 * 1_000_000_000u128
    }

    /// The summary: the accumulated text, trimmed.
    pub fn finish(&self) -> (r: String)
        ensures
            r@ == trim_spec(self.text@),
    {
        trim(self.text.as_str())
    }
}

/// Splitting text in two and cutting the first part into lines leaves what the whole
/// would give: the first part's complete lines, then those of its unfinished line
/// followed by the second part.
proof fn lemma_lines_concat(s: Seq<char>, t: Seq<char>)
    ensures
        complete_lines(s + t) == complete_lines(s) + complete_lines(line_tail(s) + t),
        line_tail(s + t) == line_tail(line_tail(s) + t),
    decreases s.len(),
{
    lemma_first_index_of_facts(s, '\n');
    let k = first_index_of(s, '\n');
    if k < s.len() {
        let st = s + t;
        lemma_first_index_of(st, '\n', k);
        assert(st.take(k) =~= s.take(k));
        assert(st.skip(k + 1) =~= s.skip(k + 1) + t);
        lemma_lines_concat(s.skip(k + 1), t);
        assert(complete_lines(s + t) =~= complete_lines(s) + complete_lines(line_tail(s) + t));
    } else {
        assert(complete_lines(s) =~= Seq::<Seq<char>>::empty());
        assert(line_tail(s) == s);
        assert(complete_lines(s + t) =~= complete_lines(s) + complete_lines(line_tail(s) + t));
    }
}

/// The events of two runs of lines are those of the first run, then, unless the first
/// ended the stream, those of the second.
proof fn lemma_sse_events_concat(x: Seq<Seq<char>>, y: Seq<Seq<char>>)
    ensures
        sse_events(x + y) == chain_events(sse_events(x), sse_events(y)),
    decreases x.len(),
{
    if x.len() == 0 {
        assert(x + y =~= y);
        assert(Seq::<Seq<char>>::empty() + sse_events(y).0 =~= sse_events(y).0);
    } else {
        assert((x + y)[0] == x[0]);
        assert((x + y).drop_first() =~= x.drop_first() + y);
        lemma_sse_events_concat(x.drop_first(), y);
        let l = x[0];
        if starts_with(l, "data: "@) && trim_spec(l.skip(6)) != "[DONE]"@ {
            let r = sse_events(x.drop_first());
            if !r.1 {
                assert(seq![l.skip(6)] + (r.0 + sse_events(y).0) =~= (seq![l.skip(6)] + r.0) + sse_events(y).0);
            }
        }
    }
}

/// Chunk boundaries do not matter: feeding the decoder `a` and then `b` yields the
/// events that feeding `a + b` at once yields, and leaves the same line pending.
pub proof fn law_chunking_invariant(pending: Seq<char>, a: Seq<char>, b: Seq<char>)
    ensures
        chain_events(
            sse_events(complete_lines(pending + a)),
            sse_events(complete_lines(line_tail(pending + a) + b)),
        ) == sse_events(complete_lines(pending + a + b)),
        line_tail(line_tail(pending + a) + b) == line_tail(pending + a + b),
{
    lemma_lines_concat(pending + a, b);
    lemma_sse_events_concat(complete_lines(pending + a), complete_lines(line_tail(pending + a) + b));
}

} // verus!
