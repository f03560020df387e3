//! Reassembly of server-sent event frames from a chunked byte stream.

use crate::text::{decode_lossy, lossy_text};
use vstd::prelude::*;
use vstd::string::*;

verus! {

/// Index of the first blank-line separator ("\n\n") in `s` at or after `i`,
/// or -1 when there is none.
pub open spec fn break_from(s: Seq<char>, i: int) -> int
    decreases s.len() - i,
{
    if i < 0 || i + 1 >= s.len() {
        -1
    } else if s[i] == '\n' && s[i + 1] == '\n' {
        i
    } else {
        break_from(s, i + 1)
    }
}

/// There is no "\n\n" starting at any index in `[i, k)`.
pub open spec fn no_break_between(s: Seq<char>, i: int, k: int) -> bool {
    forall|j: int| i <= j < k && j + 1 < s.len() ==> !(#[trigger] s[j] == '\n' && s[j + 1] == '\n')
}

proof fn lemma_break_skip(s: Seq<char>, i: int, k: int)
    requires
        0 <= i <= k,
        no_break_between(s, i, k),
    ensures
        break_from(s, i) == break_from(s, k),
    decreases k - i,
{
    if i < k && i + 1 < s.len() {
        lemma_break_skip(s, i + 1, k);
    }
}

/// Finds the first "\n\n" in `s`.
pub fn find_frame_break(s: &str) -> (r: Option<usize>)
    ensures
        r is None ==> break_from(s@, 0) == -1,
        r matches Some(p) ==> break_from(s@, 0) == p,
{
    let mut prev_newline = false;
    let mut idx: usize = 0;
    let n = s.unicode_len();
    let chars = s.chars();
    for c in it: chars
        invariant
            idx == it.index(),
            it.seq() == s@,
            n == s@.len(),
            prev_newline == (idx > 0 && s@[idx - 1] == '\n'),
            no_break_between(s@, 0, idx - 1),
    {
        if c == '\n' && prev_newline {
            proof {
                lemma_break_skip(s@, 0, idx - 1);
            }
            return Some(idx - 1);
        }
        prev_newline = c == '\n';
        idx = idx + 1;
    }
    proof {
        if s@.len() > 0 {
            lemma_break_skip(s@, 0, s@.len() - 1);
        }
    }
    None
}

proof fn lemma_break_bounds(s: Seq<char>, i: int)
    requires
        0 <= i,
    ensures
        break_from(s, i) == -1 || (i <= break_from(s, i) && break_from(s, i) + 1 < s.len()),
        break_from(s, i) >= 0 ==> s[break_from(s, i)] == '\n' && s[break_from(s, i) + 1] == '\n',
    decreases s.len() - i,
{
    if i + 1 < s.len() && !(s[i] == '\n' && s[i + 1] == '\n') {
        lemma_break_bounds(s, i + 1);
    }
}

/// Splits `s` at each blank line: the complete frames, in order, and the
/// unfinished tail that stays buffered.
pub open spec fn split_frames(s: Seq<char>) -> (Seq<Seq<char>>, Seq<char>)
    decreases s.len(),
{
    let p = break_from(s, 0);
    if p < 0 || p + 2 > s.len() {
        (Seq::empty(), s)
    } else {
        let rest = split_frames(s.subrange(p + 2, s.len() as int));
        (seq![s.subrange(0, p)] + rest.0, rest.1)
    }
}

/// The payload of a frame that carries one after a `data: ` prefix.
pub open spec fn data_payload(frame: Seq<char>) -> Option<Seq<char>> {
    if frame.len() >= 6 && frame.subrange(0, 6) == "data: "@ {
        Some(frame.subrange(6, frame.len() as int))
    } else {
        None
    }
}

/// The payloads of the data frames among `frames`, in order.
pub open spec fn payloads(frames: Seq<Seq<char>>) -> Seq<Seq<char>>
    decreases frames.len(),
{
    if frames.len() == 0 {
        Seq::empty()
    } else {
        let init = payloads(frames.drop_last());
        match data_payload(frames.last()) {
            Some(d) => init.push(d),
            None => init,
        }
    }
}

/// The texts of the strings, in order.
pub open spec fn text_views(v: Seq<String>) -> Seq<Seq<char>> {
    v.map_values(|x: String| x@)
}

/// Takes the payload out of one complete frame, if it is a data frame.
pub fn frame_payload(frame: &str) -> (r: Option<String>)
    ensures
        r is Some == data_payload(frame@) is Some,
        r matches Some(d) ==> d@ == data_payload(frame@)->0,
{
    let n = frame.unicode_len();
    if n < 6 {
        return None;
    }
    let head = frame.substring_char(0, 6);
    if crate::text::same_text(head, "data: ") {
        Some(frame.substring_char(6, n).to_owned())
    } else {
        None
    }
}

/// Bytes of an event stream that have arrived but do not yet end a frame.
pub struct EventFrames {
    buffer: String,
}

impl EventFrames {
    /// The text received that does not yet end a frame.
    pub closed spec fn pending(&self) -> Seq<char> {
        self.buffer@
    }

    /// A buffer with nothing pending.
    pub fn new() -> (r: EventFrames)
        ensures
            r.pending() == Seq::<char>::empty(),
    {
        EventFrames { buffer: String::new() }
    }

    /// Appends `chunk` and hands out, in order, the payloads of the data
    /// frames that it completes; other complete frames are dropped.
    pub fn push_text(&mut self, chunk: &str) -> (r: Vec<String>)
        ensures
            final(self).pending() == split_frames(old(self).pending() + chunk@).1,
            text_views(r@) == payloads(split_frames(old(self).pending() + chunk@).0),
    {
        let ghost whole = self.buffer@ + chunk@;
        self.buffer.append(chunk);
        let mut out: Vec<String> = Vec::new();
        let ghost mut done: Seq<Seq<char>> = Seq::empty();
        loop
            invariant
                split_frames(whole).0 == done + split_frames(self.buffer@).0,
                split_frames(whole).1 == split_frames(self.buffer@).1,
                text_views(out@) == payloads(done),
            ensures
                split_frames(whole).0 == done + split_frames(self.buffer@).0,
                split_frames(whole).1 == split_frames(self.buffer@).1,
                text_views(out@) == payloads(done),
                break_from(self.buffer@, 0) == -1,
            decreases self.buffer@.len(),
        {
            let found = find_frame_break(self.buffer.as_str());
            match found {
                None => {
                    break;
                },
                Some(p) => {
                    let ghost b = self.buffer@;
                    proof {
                        lemma_break_bounds(b, 0);
                    }
                    let n = self.buffer.unicode_len();
                    let frame = self.buffer.substring_char(0, p).to_owned();
                    let rest = self.buffer.substring_char(p + 2, n).to_owned();
                    let payload = frame_payload(frame.as_str());
                    proof {
                        let ghost tail = split_frames(rest@);
                        assert(split_frames(b).0 == seq![frame@] + tail.0);
                        assert(done.push(frame@) + tail.0 =~= done + (seq![frame@] + tail.0));
                        assert(done.push(frame@).drop_last() =~= done);
                    }
                    match payload {
                        Some(d) => {
                            out.push(d);
                            assert(text_views(out@) =~= payloads(done).push(data_payload(frame@)->0));
                        },
                        None => {},
                    }
                    proof {
                        done = done.push(frame@);
                    }
                    self.buffer = rest;
                },
            }
        }
        assert(done + split_frames(self.buffer@).0 =~= done);
        out
    }

    /// Appends a chunk of raw bytes, read as UTF-8 with invalid sequences
    /// replaced, and hands out the payloads of the data frames it completes.
    pub fn push_bytes(&mut self, chunk: &[u8]) -> (r: Vec<String>)
        ensures
            final(self).pending() == split_frames(old(self).pending() + lossy_text(chunk@)).1,
            text_views(r@) == payloads(split_frames(old(self).pending() + lossy_text(chunk@)).0),
    {
        let text = decode_lossy(chunk);
        self.push_text(text.as_str())
    }
}

proof fn lemma_break_prefix(s: Seq<char>, b: Seq<char>, i: int)
    requires
        0 <= i,
        break_from(s, i) >= 0,
    ensures
        break_from(s + b, i) == break_from(s, i),
    decreases s.len() - i,
{
    lemma_break_bounds(s, i);
    assert((s + b)[i] == s[i]);
    assert((s + b)[i + 1] == s[i + 1]);
    if !(s[i] == '\n' && s[i + 1] == '\n') {
        lemma_break_prefix(s, b, i + 1);
    }
}

proof fn lemma_split_append(s: Seq<char>, b: Seq<char>)
    ensures
        split_frames(s + b).0 == split_frames(s).0 + split_frames(split_frames(s).1 + b).0,
        split_frames(s + b).1 == split_frames(split_frames(s).1 + b).1,
    decreases s.len(),
{
    let p = break_from(s, 0);
    lemma_break_bounds(s, 0);
    if p < 0 {
        assert(Seq::<Seq<char>>::empty() + split_frames(s + b).0 =~= split_frames(s + b).0);
    } else {
        lemma_break_prefix(s, b, 0);
        let rest = s.subrange(p + 2, s.len() as int);
        assert((s + b).subrange(p + 2, (s + b).len() as int) =~= rest + b);
        assert((s + b).subrange(0, p) =~= s.subrange(0, p));
        lemma_split_append(rest, b);
        let f = seq![s.subrange(0, p)];
        assert(f + split_frames(rest + b).0 =~= f + split_frames(rest).0 + split_frames(
            split_frames(rest).1 + b,
        ).0);
    }
}

proof fn lemma_payloads_concat(f: Seq<Seq<char>>, g: Seq<Seq<char>>)
    ensures
        payloads(f + g) == payloads(f) + payloads(g),
    decreases g.len(),
{
    if g.len() == 0 {
        assert(f + g =~= f);
        assert(payloads(f) + payloads(g) =~= payloads(f));
    } else {
        lemma_payloads_concat(f, g.drop_last());
        assert((f + g).drop_last() =~= f + g.drop_last());
        assert((f + g).last() == g.last());
        let init = payloads(f) + payloads(g.drop_last());
        match data_payload(g.last()) {
            Some(d) => {
                assert(init.push(d) =~= payloads(f) + payloads(g.drop_last()).push(d));
            },
            None => {},
        }
    }
}

/// Where chunk boundaries fall does not matter: pushing `a` and then `b`
/// hands out the same payloads, in the same order, and leaves the same text
/// pending as pushing `a` and `b` together.
pub proof fn chunk_boundaries_do_not_matter(pending: Seq<char>, a: Seq<char>, b: Seq<char>)
    ensures
        ({
            let first = split_frames(pending + a);
            let second = split_frames(first.1 + b);
            let whole = split_frames(pending + a + b);
            &&& payloads(first.0) + payloads(second.0) == payloads(whole.0)
            &&& second.1 == whole.1
        }),
{
    let first = split_frames(pending + a);
    lemma_split_append(pending + a, b);
    lemma_payloads_concat(first.0, split_frames(first.1 + b).0);
}

} // verus!
