//! The bounded output sink: the most recent characters a process printed.

use vstd::prelude::*;

verus! {

/// How many characters of each output stream a registry keeps.
pub const OUTPUT_TAIL_CHARS: usize = 8000;

/// The last `n` characters of `s`, or all of `s` when it is no longer.
pub open spec fn tail(s: Seq<char>, n: nat) -> Seq<char> {
    if s.len() <= n {
        s
    } else {
        s.subrange(s.len() - n, s.len() as int)
    }
}

pub open spec fn is_suffix(a: Seq<char>, b: Seq<char>) -> bool {
    a.len() <= b.len() && b.subrange(b.len() - a.len(), b.len() as int) == a
}

/// Everything appended, in order.
pub open spec fn concat_all(chunks: Seq<Seq<char>>) -> Seq<char>
    decreases chunks.len(),
{
    if chunks.len() == 0 {
        seq![]
    } else {
        concat_all(chunks.drop_last()) + chunks.last()
    }
}

/// What a sink with capacity `cap` holds after `chunks` were appended to it, empty at first.
pub open spec fn sink_after(chunks: Seq<Seq<char>>, cap: nat) -> Seq<char>
    decreases chunks.len(),
{
    if chunks.len() == 0 {
        seq![]
    } else {
        tail(sink_after(chunks.drop_last(), cap) + chunks.last(), cap)
    }
}

/// Keeps the last `max_chars` characters of `input`, counted in characters, not bytes.
pub fn truncate_output(input: &str, max_chars: usize) -> (r: String)
    ensures
        r@ == tail(input@, max_chars as nat),
{
    let n = input.unicode_len();
    if n <= max_chars {
        String::from_str(input)
    } else {
        String::from_str(input.substring_char(n - max_chars, n))
    }
}

/// The text held so far (none is empty) with `chunk` appended, cut to its last `cap`
/// characters.
pub fn append_tail(current: &Option<String>, chunk: &str, cap: usize) -> (r: String)
    ensures
        r@ == tail(
            match current {
                Some(c) => c@,
                None => Seq::<char>::empty(),
            } + chunk@,
            cap as nat,
        ),
{
    let next = match current {
        Some(c) => c.clone().concat(chunk),
        None => String::from_str(chunk),
    };
    truncate_output(next.as_str(), cap)
}

/// A text buffer that keeps at most `cap` characters, dropping the oldest first.
pub struct OutputSink {
    text: String,
    cap: usize,
}

impl View for OutputSink {
    type V = Seq<char>;

    closed spec fn view(&self) -> Seq<char> {
        self.text@
    }
}

impl OutputSink {
    pub closed spec fn capacity(&self) -> nat {
        self.cap as nat
    }

    /// An empty sink keeping at most `cap` characters.
    pub fn new(cap: usize) -> (r: OutputSink)
        ensures
            r@ == Seq::<char>::empty(),
            r.capacity() == cap,
    {
        OutputSink { text: String::new(), cap }
    }

    /// Appends `chunk`, then drops the oldest characters beyond the capacity.
    pub fn append(&mut self, chunk: &str)
        ensures
            final(self).capacity() == old(self).capacity(),
            final(self)@ == tail(old(self)@ + chunk@, old(self).capacity()),
    {
        let next = self.text.clone().concat(chunk);
        self.text = truncate_output(next.as_str(), self.cap);
    }

    /// The characters held.
    pub fn contents(&self) -> (r: &str)
        ensures
            r@ == self@,
    {
        self.text.as_str()
    }
}

proof fn lemma_tail_of_suffix(a: Seq<char>, b: Seq<char>, n: nat)
    requires
        is_suffix(a, b),
    ensures
        is_suffix(tail(a, n), b),
        tail(a, n).len() <= n,
{
    if a.len() > n {
        let t = tail(a, n);
        assert(b.subrange(b.len() - t.len(), b.len() as int) =~= t) by {
            assert forall|k: int| 0 <= k < t.len() implies b.subrange(
                b.len() - t.len(),
                b.len() as int,
            )[k] == t[k] by {
                assert(t[k] == a[a.len() - n + k]);
                assert(a[a.len() - n + k] == b.subrange(b.len() - a.len(), b.len() as int)[a.len()
                    - n + k]);
            }
        }
    }
}

/// Whatever was appended to a sink, it holds at most its capacity, and what it holds
/// is a suffix of everything appended, in order.
pub proof fn lemma_sink_bounded_suffix(chunks: Seq<Seq<char>>, cap: nat)
    ensures
        sink_after(chunks, cap).len() <= cap,
        is_suffix(sink_after(chunks, cap), concat_all(chunks)),
    decreases chunks.len(),
{
    if chunks.len() > 0 {
        let prev = sink_after(chunks.drop_last(), cap);
        let whole = concat_all(chunks.drop_last());
        lemma_sink_bounded_suffix(chunks.drop_last(), cap);
        let last = chunks.last();
        assert(is_suffix(prev + last, whole + last)) by {
            let w = whole + last;
            let p = prev + last;
            assert(w.subrange(w.len() - p.len(), w.len() as int) =~= p) by {
                assert forall|k: int| 0 <= k < p.len() implies w.subrange(
                    w.len() - p.len(),
                    w.len() as int,
                )[k] == p[k] by {
                    if k < prev.len() {
                        assert(whole.subrange(whole.len() - prev.len(), whole.len() as int)[k]
                            == prev[k]);
                    }
                }
            }
        }
        lemma_tail_of_suffix(prev + last, whole + last, cap);
    } else {
        assert(concat_all(chunks).subrange(0, 0) =~= Seq::<char>::empty());
    }
}

} // verus!
