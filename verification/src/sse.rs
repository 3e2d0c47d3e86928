//! Framing of the server-sent event stream of a chat completion: the
//! buffer is cut into events at each blank line (`\n\n`), each complete
//! event is read line by line, and the `data:` lines give the payloads up
//! to the `[DONE]` marker.
use vstd::prelude::*;

use crate::text::{chars_of, str_eq, trim, trim_str};

verus! {

/// A blank line (`\n\n`) starts at `i`.
pub open spec fn is_sep_at(s: Seq<char>, i: int) -> bool {
    0 <= i && i + 1 < s.len() && s[i] == '\n' && s[i + 1] == '\n'
}

/// The end of the last complete event, scanning from `i` for the first
/// `\n\n` after the end `start` of the previous event.
pub open spec fn consumed_scan(s: Seq<char>, start: int, i: int) -> int
    decreases s.len() - i,
{
    if i < 0 || i + 1 >= s.len() {
        start
    } else if is_sep_at(s, i) {
        consumed_scan(s, i + 2, i + 2)
    } else {
        consumed_scan(s, start, i + 1)
    }
}

/// The length of the prefix of `s` made of complete events.
pub open spec fn consumed(s: Seq<char>) -> int {
    consumed_scan(s, 0, 0)
}

/// A line without the `\r` of a `\r\n` ending.
pub open spec fn strip_cr(line: Seq<char>) -> Seq<char> {
    if line.len() > 0 && line.last() == '\r' {
        line.drop_last()
    } else {
        line
    }
}

/// The lines of `s` from the line that starts at `start`, scanning from
/// `i`, as `str::lines` splits them.
pub open spec fn lines_scan(s: Seq<char>, start: int, i: int) -> Seq<Seq<char>>
    decreases s.len() - i,
{
    if i < 0 || i >= s.len() {
        if 0 <= start < s.len() {
            seq![s.subrange(start, s.len() as int)]
        } else {
            Seq::empty()
        }
    } else if s[i] == '\n' {
        seq![strip_cr(s.subrange(start, i))] + lines_scan(s, i + 1, i + 1)
    } else {
        lines_scan(s, start, i + 1)
    }
}

/// The payload of a `data:` line, trimmed.
pub open spec fn data_of(line: Seq<char>) -> Option<Seq<char>> {
    if line.len() >= 5 && line.take(5) == "data:"@ {
        Some(trim(line.skip(5)))
    } else {
        None
    }
}

/// The payloads of `lines` in order, and whether `[DONE]` ended them.
pub open spec fn collect(lines: Seq<Seq<char>>) -> (Seq<Seq<char>>, bool)
    decreases lines.len(),
{
    if lines.len() == 0 {
        (Seq::empty(), false)
    } else {
        match data_of(lines[0]) {
            None => collect(lines.drop_first()),
            Some(d) => if d == "[DONE]"@ {
                (Seq::empty(), true)
            } else {
                let rest = collect(lines.drop_first());
                (seq![d] + rest.0, rest.1)
            },
        }
    }
}

/// The payloads and the end marker of the complete events in `s`.
pub open spec fn batch_spec(s: Seq<char>) -> (Seq<Seq<char>>, bool) {
    collect(lines_scan(s.take(consumed(s)), 0, 0))
}

/// What one pass over the receive buffer yields.
pub struct SseBatch {
    /// The `data:` payloads of the complete events, before any `[DONE]`.
    pub payloads: Vec<String>,
    /// Whether a `[DONE]` marker ended the stream.
    pub done: bool,
    /// What stays in the buffer: the start of an event not yet complete.
    pub rest: String,
}

/// The views of a list of strings.
pub open spec fn views(v: Seq<String>) -> Seq<Seq<char>> {
    v.map_values(|s: String| s@)
}

proof fn lemma_consumed_bounds(s: Seq<char>, start: int, i: int)
    requires
        0 <= start <= i,
        i <= s.len() + 1,
        start <= s.len(),
    ensures
        start <= consumed_scan(s, start, i) <= s.len(),
    decreases s.len() - i,
{
    if i < 0 || i + 1 >= s.len() {
    } else if is_sep_at(s, i) {
        lemma_consumed_bounds(s, i + 2, i + 2);
    } else {
        lemma_consumed_bounds(s, start, i + 1);
    }
}

/// The length of the prefix of `v` made of complete events.
fn consumed_len(v: &Vec<char>) -> (c: usize)
    ensures
        c == consumed(v@),
        c <= v@.len(),
{
    let n = v.len();
    let mut start: usize = 0;
    let mut i: usize = 0;
    proof {
        lemma_consumed_bounds(v@, 0, 0);
    }
    while i < n && i + 1 < n
        invariant
            n == v@.len(),
            0 <= start <= i <= n,
            consumed_scan(v@, start as int, i as int) == consumed(v@),
        decreases n - i,
    {
        if v[i] == '\n' && v[i + 1] == '\n' {
            start = i + 2;
            i = i + 2;
        } else {
            i = i + 1;
        }
    }
    start
}

proof fn lemma_collect_cons(line: Seq<char>, rest: Seq<Seq<char>>)
    ensures
        collect(seq![line] + rest) == (match data_of(line) {
            None => collect(rest),
            Some(d) => if d == "[DONE]"@ {
                (Seq::<Seq<char>>::empty(), true)
            } else {
                (seq![d] + collect(rest).0, collect(rest).1)
            },
        }),
{
    assert((seq![line] + rest)[0] == line);
    assert((seq![line] + rest).drop_first() =~= rest);
}

/// Cuts the complete events off the front of `buf` and reads their
/// payloads.
pub fn take_sse_events(buf: &str) -> (r: SseBatch)
    ensures
        views(r.payloads@) == batch_spec(buf@).0,
        r.done == batch_spec(buf@).1,
        r.rest@ == buf@.skip(consumed(buf@)),
{
    proof {
        reveal_strlit("data:");
        reveal_strlit("[DONE]");
    }
    let v = chars_of(buf);
    let c = consumed_len(&v);
    let ghost w = v@.take(c as int);
    let mut payloads: Vec<String> = Vec::new();
    let mut start: usize = 0;
    let mut i: usize = 0;
    while i < c
        invariant
            v@ == buf@,
            c <= v@.len(),
            c == consumed(buf@),
            w == v@.take(c as int),
            0 <= start <= i <= c,
            batch_spec(buf@) == (
                views(payloads@) + collect(lines_scan(w, start as int, i as int)).0,
                collect(lines_scan(w, start as int, i as int)).1,
            ),
        decreases c - i,
    {
        if v[i] == '\n' {
            let line_end: usize = if i > start && v[i - 1] == '\r' {
                i - 1
            } else {
                i
            };
            let ghost line = strip_cr(w.subrange(start as int, i as int));
            proof {
                assert(line =~= v@.subrange(start as int, line_end as int));
                assert(lines_scan(w, start as int, i as int) == seq![line] + lines_scan(
                    w,
                    i + 1,
                    i + 1,
                ));
                lemma_collect_cons(line, lines_scan(w, i + 1, i + 1));
            }
            let is_data = line_end >= start && line_end - start >= 5 && v[start] == 'd' && v[start + 1] == 'a' && v[start
                + 2] == 't' && v[start + 3] == 'a' && v[start + 4] == ':';
            proof {
                reveal_strlit("data:");
                if line.len() >= 5 {
                    let t = line.take(5);
                    assert(t =~= seq![
                        v@[start as int],
                        v@[start + 1],
                        v@[start + 2],
                        v@[start + 3],
                        v@[start + 4],
                    ]);
                    if is_data {
                        assert(t =~= "data:"@);
                    } else if t == "data:"@ {
                        assert(t[0] == 'd' && t[1] == 'a' && t[2] == 't' && t[3] == 'a' && t[4]
                            == ':');
                    }
                }
                assert(is_data == (data_of(line) is Some));
            }
            if is_data {
                let data = trim_str(buf.substring_char(start + 5, line_end));
                proof {
                    assert(line.skip(5) =~= buf@.subrange(start + 5, line_end as int));
                    assert(data_of(line) == Some(data@));
                }
                if str_eq(data, "[DONE]") {
                    proof {
                        reveal_strlit("[DONE]");
                        assert(views(payloads@) + Seq::<Seq<char>>::empty() =~= views(payloads@));
                        assert(buf@.subrange(c as int, v@.len() as int) =~= buf@.skip(c as int));
                    }
                    let rest = buf.substring_char(c, v.len()).to_string();
                    return SseBatch { payloads, done: true, rest };
                }
                let ghost before = payloads@;
                payloads.push(data.to_string());
                proof {
                    assert(views(payloads@) =~= views(before).push(data@));
                    let tail = collect(lines_scan(w, i + 1, i + 1));
                    assert(views(before) + (seq![data@] + tail.0) =~= views(payloads@) + tail.0);
                }
            }
            start = i + 1;
        }
        i = i + 1;
    }
    proof {
        lemma_consumed_bounds(v@, 0, 0);
    }
    if start < c {
        let line = buf.substring_char(start, c);
        let ghost lv = w.subrange(start as int, c as int);
        proof {
            assert(lines_scan(w, start as int, c as int) == seq![lv]);
            assert(seq![lv] =~= seq![lv] + Seq::<Seq<char>>::empty());
            lemma_collect_cons(lv, Seq::empty());
            assert(line@ =~= lv);
        }
        let lc = chars_of(line);
        let is_data = lc.len() >= 5 && lc[0] == 'd' && lc[1] == 'a' && lc[2] == 't' && lc[3] == 'a'
            && lc[4] == ':';
        proof {
            reveal_strlit("data:");
            if lv.len() >= 5 {
                let t = lv.take(5);
                assert(t =~= seq![lc@[0], lc@[1], lc@[2], lc@[3], lc@[4]]);
                if is_data {
                    assert(t =~= "data:"@);
                } else if t == "data:"@ {
                    assert(t[0] == 'd' && t[1] == 'a' && t[2] == 't' && t[3] == 'a' && t[4] == ':');
                }
            }
            assert(is_data == (data_of(lv) is Some));
        }
        if is_data {
            let data = trim_str(line.substring_char(5, lc.len()));
            proof {
                assert(lv.skip(5) =~= line@.subrange(5, lc@.len() as int));
            }
            if str_eq(data, "[DONE]") {
                proof {
                    assert(views(payloads@) + Seq::<Seq<char>>::empty() =~= views(payloads@));
                    assert(buf@.subrange(c as int, v@.len() as int) =~= buf@.skip(c as int));
                }
                let rest = buf.substring_char(c, v.len()).to_string();
                return SseBatch { payloads, done: true, rest };
            }
            let ghost before = payloads@;
            payloads.push(data.to_string());
            proof {
                assert(views(payloads@) =~= views(before).push(data@));
                assert(views(before) + (seq![data@] + Seq::<Seq<char>>::empty())
                    =~= views(payloads@) + Seq::<Seq<char>>::empty());
            }
        } else {
        }
    } else {
        proof {
            assert(lines_scan(w, start as int, c as int) == Seq::<Seq<char>>::empty());
        }
    }
    proof {
        assert(views(payloads@) + Seq::<Seq<char>>::empty() =~= views(payloads@));
        assert(buf@.subrange(c as int, v@.len() as int) =~= buf@.skip(c as int));
    }
    let rest = buf.substring_char(c, v.len()).to_string();
    SseBatch { payloads, done: false, rest }
}


/// The receive buffer of one chat stream: what has arrived but does not
/// yet form a complete event.
pub struct SseReader {
    buf: String,
}

impl View for SseReader {
    type V = Seq<char>;

    closed spec fn view(&self) -> Seq<char> {
        self.buf@
    }
}

impl SseReader {
    /// An empty buffer.
    pub fn new() -> (r: Self)
        ensures
            r@ == Seq::<char>::empty(),
    {
        SseReader { buf: String::new() }
    }

    /// Appends `text` to the buffer and reads the events it completes; what
    /// stays is the start of the next event.
    pub fn feed(&mut self, text: &str) -> (r: (Vec<String>, bool))
        ensures
            views(r.0@) == batch_spec(old(self)@ + text@).0,
            r.1 == batch_spec(old(self)@ + text@).1,
            final(self)@ == (old(self)@ + text@).skip(consumed(old(self)@ + text@)),
    {
        let mut all = self.buf.clone();
        all.append(text);
        let batch = take_sse_events(all.as_str());
        self.buf = batch.rest;
        (batch.payloads, batch.done)
    }
}

/// Scanning from a later start is scanning the rest of the text.
proof fn lemma_scan_shift(s: Seq<char>, c: int, a: int, b: int)
    requires
        0 <= c,
        0 <= a <= b,
        c <= s.len(),
    ensures
        consumed_scan(s, c + a, c + b) == c + consumed_scan(s.skip(c), a, b),
    decreases s.len() - c - b,
{
    let t = s.skip(c);
    if c + b + 1 >= s.len() {
    } else {
        assert(t[b] == s[c + b] && t[b + 1] == s[c + b + 1]);
        if is_sep_at(s, c + b) {
            lemma_scan_shift(s, c, b + 2, b + 2);
        } else {
            lemma_scan_shift(s, c, a, b + 1);
        }
    }
}

/// Stepping over a position that holds no blank line changes nothing.
proof fn lemma_scan_step(s: Seq<char>, st: int, j: int)
    requires
        0 <= j,
        !is_sep_at(s, j),
    ensures
        consumed_scan(s, st, j) == consumed_scan(s, st, j + 1),
{
    if j + 1 >= s.len() {
        assert(consumed_scan(s, st, j + 1) == st);
    }
}

/// With no blank line between `st` and `i`, scanning from `i` is scanning
/// from `st`.
proof fn lemma_scan_restart(s: Seq<char>, st: int, i: int)
    requires
        0 <= st <= i,
        forall|j: int| st <= j < i ==> !#[trigger] is_sep_at(s, j),
    ensures
        consumed_scan(s, st, i) == consumed_scan(s, st, st),
    decreases i - st,
{
    if st < i {
        lemma_scan_restart(s, st, i - 1);
        lemma_scan_step(s, st, i - 1);
    }
}

/// Scanning `s1 + s2` passes through the point where the scan of `s1`
/// stopped, and goes on from there.
proof fn lemma_scan_append(s1: Seq<char>, s2: Seq<char>, st: int, i: int)
    requires
        0 <= st <= i <= s1.len(),
        forall|j: int| st <= j < i ==> !#[trigger] is_sep_at(s1 + s2, j),
    ensures
        consumed_scan(s1 + s2, st, i) == consumed_scan(
            s1 + s2,
            consumed_scan(s1, st, i),
            consumed_scan(s1, st, i),
        ),
        st <= consumed_scan(s1, st, i) <= s1.len(),
    decreases s1.len() - i,
{
    let s = s1 + s2;
    if i + 1 >= s1.len() {
        lemma_scan_restart(s, st, i);
    } else {
        assert(s[i] == s1[i] && s[i + 1] == s1[i + 1]);
        if is_sep_at(s1, i) {
            lemma_scan_append(s1, s2, i + 2, i + 2);
        } else {
            lemma_scan_append(s1, s2, st, i + 1);
        }
    }
}

/// The complete events of `s1 + s2` are those of `s1`, then those of what
/// `s1` left over followed by `s2`.
proof fn lemma_consumed_append(s1: Seq<char>, s2: Seq<char>)
    ensures
        consumed(s1 + s2) == consumed(s1) + consumed(s1.skip(consumed(s1)) + s2),
        0 <= consumed(s1) <= s1.len(),
{
    let c1 = consumed(s1);
    lemma_scan_append(s1, s2, 0, 0);
    lemma_scan_shift(s1 + s2, c1, 0, 0);
    assert((s1 + s2).skip(c1) =~= s1.skip(c1) + s2);
}

/// The lines of a text that ends with a newline, followed by more text.
proof fn lemma_lines_append(p: Seq<char>, q: Seq<char>, st: int, i: int)
    requires
        0 <= st <= i <= p.len(),
        p.len() > 0 ==> p.last() == '\n',
        forall|j: int| st <= j < i ==> #[trigger] p[j] != '\n',
    ensures
        lines_scan(p + q, st, i) == lines_scan(p, st, i) + lines_scan(q, 0, 0),
    decreases p.len() - i,
{
    let s = p + q;
    if i == p.len() {
        if st < p.len() {
            assert(p[p.len() - 1] == '\n');
        }
        assert(st == p.len());
        lemma_lines_shift(s, p.len() as int, 0, 0);
        assert(s.skip(p.len() as int) =~= q);
        assert(lines_scan(p, st, i) =~= Seq::<Seq<char>>::empty());
        assert(lines_scan(p, st, i) + lines_scan(q, 0, 0) =~= lines_scan(q, 0, 0));
    } else {
        assert(s[i] == p[i]);
        if p[i] == '\n' {
            lemma_lines_append(p, q, i + 1, i + 1);
            assert(s.subrange(st, i) =~= p.subrange(st, i));
            assert(seq![strip_cr(p.subrange(st, i))] + (lines_scan(p, i + 1, i + 1) + lines_scan(
                q,
                0,
                0,
            )) =~= (seq![strip_cr(p.subrange(st, i))] + lines_scan(p, i + 1, i + 1))
                + lines_scan(q, 0, 0));
        } else {
            lemma_lines_append(p, q, st, i + 1);
        }
    }
}

/// Splitting into lines from a later start is splitting the rest.
proof fn lemma_lines_shift(s: Seq<char>, c: int, a: int, b: int)
    requires
        0 <= c <= s.len(),
        0 <= a <= b,
    ensures
        lines_scan(s, c + a, c + b) == lines_scan(s.skip(c), a, b),
    decreases s.len() - c - b,
{
    let t = s.skip(c);
    if c + b >= s.len() {
        if c + a < s.len() {
            assert(s.subrange(c + a, s.len() as int) =~= t.subrange(a, t.len() as int));
        }
    } else {
        assert(t[b] == s[c + b]);
        if s[c + b] == '\n' {
            lemma_lines_shift(s, c, b + 1, b + 1);
            assert(s.subrange(c + a, c + b) =~= t.subrange(a, b));
        } else {
            lemma_lines_shift(s, c, a, b + 1);
        }
    }
}

/// Reading payloads from two runs of lines, one after the other.
proof fn lemma_collect_append(a: Seq<Seq<char>>, b: Seq<Seq<char>>)
    ensures
        collect(a).1 ==> collect(a + b) == collect(a),
        !collect(a).1 ==> collect(a + b) == (collect(a).0 + collect(b).0, collect(b).1),
    decreases a.len(),
{
    if a.len() == 0 {
        assert(a + b =~= b);
        assert(Seq::<Seq<char>>::empty() + collect(b).0 =~= collect(b).0);
    } else {
        assert((a + b)[0] == a[0]);
        assert((a + b).drop_first() =~= a.drop_first() + b);
        lemma_collect_append(a.drop_first(), b);
        match data_of(a[0]) {
            None => {},
            Some(d) => {
                if d != "[DONE]"@ {
                    let r = collect(a.drop_first());
                    if !r.1 {
                        assert(seq![d] + (r.0 + collect(b).0) =~= (seq![d] + r.0) + collect(
                            b,
                        ).0);
                    }
                }
            },
        }
    }
}

/// The prefix of complete events is empty or ends with a newline.
proof fn lemma_consumed_ends_line(s: Seq<char>, st: int, i: int)
    requires
        0 <= st <= i,
        st <= s.len(),
        st > 0 ==> s[st - 1] == '\n',
    ensures
        consumed_scan(s, st, i) > 0 ==> s[consumed_scan(s, st, i) - 1] == '\n',
    decreases s.len() - i,
{
    if i < 0 || i + 1 >= s.len() {
    } else if is_sep_at(s, i) {
        lemma_consumed_ends_line(s, i + 2, i + 2);
    } else {
        lemma_consumed_ends_line(s, st, i + 1);
    }
}

/// After one pass, what stays in the buffer holds no complete event.
pub proof fn law_rest_holds_no_event(s: Seq<char>)
    ensures
        consumed(s.skip(consumed(s))) == 0,
        batch_spec(s.skip(consumed(s))) == (Seq::<Seq<char>>::empty(), false),
{
    lemma_consumed_append(s, Seq::empty());
    assert(s + Seq::<char>::empty() =~= s);
    let r = s.skip(consumed(s));
    assert(r + Seq::<char>::empty() =~= r);
    assert(r.take(0) =~= Seq::<char>::empty());
    assert(lines_scan(r.take(0), 0, 0) =~= Seq::<Seq<char>>::empty());
}

/// How the stream arrives in chunks does not change what is read from it:
/// reading a first chunk, then what it left over followed by the next
/// chunk, yields the payloads of reading both at once; once `[DONE]` has
/// been read, later text changes nothing.
pub proof fn law_chunking_invariant(s1: Seq<char>, s2: Seq<char>)
    ensures
        batch_spec(s1).1 ==> batch_spec(s1 + s2) == batch_spec(s1),
        !batch_spec(s1).1 ==> batch_spec(s1 + s2) == (
            batch_spec(s1).0 + batch_spec(s1.skip(consumed(s1)) + s2).0,
            batch_spec(s1.skip(consumed(s1)) + s2).1,
        ),
{
    let c1 = consumed(s1);
    let r2 = s1.skip(c1) + s2;
    let c2 = consumed(r2);
    lemma_consumed_append(s1, s2);
    lemma_consumed_bounds(r2, 0, 0);
    let p = s1.take(c1);
    let q = r2.take(c2);
    assert((s1 + s2).take(c1 + c2) =~= p + q);
    lemma_consumed_ends_line(s1, 0, 0);
    if c1 > 0 {
        assert(p.last() == s1[c1 - 1]);
    }
    lemma_lines_append(p, q, 0, 0);
    lemma_collect_append(lines_scan(p, 0, 0), lines_scan(q, 0, 0));
}
} // verus!
