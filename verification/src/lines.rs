//! Splitting a byte stream into newline-terminated lines.
//!
//! A stream arrives in chunks whose boundaries carry no meaning. The functions
//! here keep the unfinished tail of the stream in a buffer and hand out every
//! line as soon as its newline has arrived.

use vstd::prelude::*;

verus! {

/// The byte that ends a line.
pub const NEWLINE: u8 = 10;

/// The position of the first newline in `s`, or `s.len()` where `s` holds none.
pub open spec fn first_newline(s: Seq<u8>) -> int
    decreases s.len(),
{
    if s.len() == 0 {
        0
    } else if s[0] == NEWLINE {
        0
    } else {
        1 + first_newline(s.drop_first())
    }
}

/// The lines of `s` that are complete, in order, each with its newline.
pub open spec fn complete_lines(s: Seq<u8>) -> Seq<Seq<u8>>
    decreases s.len(),
{
    let n = first_newline(s);
    if 0 <= n < s.len() {
        seq![s.subrange(0, n + 1)] + complete_lines(s.subrange(n + 1, s.len() as int))
    } else {
        Seq::empty()
    }
}

/// What follows the last newline of `s`: the line that is still open.
pub open spec fn remainder(s: Seq<u8>) -> Seq<u8>
    decreases s.len(),
{
    let n = first_newline(s);
    if 0 <= n < s.len() {
        remainder(s.subrange(n + 1, s.len() as int))
    } else {
        s
    }
}

/// The contents of a vector of lines.
pub open spec fn line_views(lines: Seq<Vec<u8>>) -> Seq<Seq<u8>> {
    Seq::new(lines.len(), |i: int| lines[i]@)
}

/// `first_newline` lies within `s`, nothing before it is a newline, and where it
/// is a position of `s` a newline stands there.
pub proof fn lemma_first_newline(s: Seq<u8>)
    ensures
        0 <= first_newline(s) <= s.len(),
        forall|i: int| 0 <= i < first_newline(s) ==> s[i] != NEWLINE,
        first_newline(s) < s.len() ==> s[first_newline(s)] == NEWLINE,
    decreases s.len(),
{
    if s.len() != 0 && s[0] != NEWLINE {
        let t = s.drop_first();
        lemma_first_newline(t);
        assert forall|i: int| 0 <= i < first_newline(s) implies s[i] != NEWLINE by {
            if i > 0 {
                assert(s[i] == t[i - 1]);
            }
        }
    }
}

/// A newline at `n` with none before it is the first one.
pub proof fn lemma_first_newline_at(s: Seq<u8>, n: int)
    requires
        0 <= n < s.len(),
        s[n] == NEWLINE,
        forall|i: int| 0 <= i < n ==> s[i] != NEWLINE,
    ensures
        first_newline(s) == n,
{
    lemma_first_newline(s);
}

/// A sequence without a newline has no complete line and is its own remainder.
pub proof fn lemma_no_newline(s: Seq<u8>)
    requires
        forall|i: int| 0 <= i < s.len() ==> s[i] != NEWLINE,
    ensures
        first_newline(s) == s.len(),
        complete_lines(s) == Seq::<Seq<u8>>::empty(),
        remainder(s) == s,
{
    lemma_first_newline(s);
}

/// The remainder of any sequence holds no newline.
pub proof fn lemma_remainder_open(s: Seq<u8>)
    ensures
        forall|i: int| 0 <= i < remainder(s).len() ==> remainder(s)[i] != NEWLINE,
        remainder(s).len() <= s.len(),
    decreases s.len(),
{
    lemma_first_newline(s);
    let n = first_newline(s);
    if n < s.len() {
        lemma_remainder_open(s.subrange(n + 1, s.len() as int));
    }
}

/// Splitting is independent of where the stream was cut: the lines of `a + b`
/// are the lines of `a` followed by the lines of what `a` left open with `b`
/// behind it, and the same tail stays open.
pub proof fn lemma_split_append(a: Seq<u8>, b: Seq<u8>)
    ensures
        complete_lines(a + b) == complete_lines(a) + complete_lines(remainder(a) + b),
        remainder(a + b) == remainder(remainder(a) + b),
    decreases a.len(),
{
    lemma_first_newline(a);
    let n = first_newline(a);
    if n < a.len() {
        let ab = a + b;
        lemma_first_newline_at(ab, n);
        let rest = a.subrange(n + 1, a.len() as int);
        assert(ab.subrange(n + 1, ab.len() as int) == rest + b);
        assert(ab.subrange(0, n + 1) == a.subrange(0, n + 1));
        lemma_split_append(rest, b);
    }
}

/// Appends `chunk` to `buffer`, removes every complete line from the front of
/// the buffer and returns those lines in order, each with its newline. The
/// unfinished tail stays in the buffer for the next chunk.
pub fn take_lines(buffer: &mut Vec<u8>, chunk: &[u8]) -> (lines: Vec<Vec<u8>>)
    ensures
        line_views(lines@) == complete_lines(old(buffer)@ + chunk@),
        final(buffer)@ == remainder(old(buffer)@ + chunk@),
{
    let ghost whole = old(buffer)@ + chunk@;
    let mut lines: Vec<Vec<u8>> = Vec::new();
    let mut pending: Vec<u8> = Vec::new();
    let ghost mut start: int = 0;
    let total: usize = buffer.len();
    let mut k: usize = 0;
    proof {
        assert(whole.subrange(0, whole.len() as int) == whole);
    }
    // The bytes carried over come first, then the new chunk.
    while k < total
        invariant
            total == buffer.len(),
            buffer@ == old(buffer)@,
            k <= total,
            0 <= start <= k,
            pending@ == whole.subrange(start, k as int),
            whole == old(buffer)@ + chunk@,
            forall|j: int| 0 <= j < pending@.len() ==> pending@[j] != NEWLINE,
            complete_lines(whole) == line_views(lines@) + complete_lines(
                whole.subrange(start, whole.len() as int),
            ),
            remainder(whole) == remainder(whole.subrange(start, whole.len() as int)),
        decreases total - k,
    {
        let b = buffer[k];
        assert forall|j: int| start <= j < k implies whole[j] != NEWLINE by {
            assert(pending@[j - start] == whole[j]);
        }
        pending.push(b);
        k += 1;
        assert(pending@ == whole.subrange(start, k as int));
        if b == NEWLINE {
            proof {
                lemma_line_found(whole, start, k as int);
            }
            lines.push(pending);
            pending = Vec::new();
            proof {
                start = k as int;
            }
        }
    }
    let mut m: usize = 0;
    while m < chunk.len()
        invariant
            total == old(buffer)@.len(),
            m <= chunk.len(),
            0 <= start <= total + m,
            pending@ == whole.subrange(start, total + m),
            whole == old(buffer)@ + chunk@,
            forall|j: int| 0 <= j < pending@.len() ==> pending@[j] != NEWLINE,
            complete_lines(whole) == line_views(lines@) + complete_lines(
                whole.subrange(start, whole.len() as int),
            ),
            remainder(whole) == remainder(whole.subrange(start, whole.len() as int)),
        decreases chunk.len() - m,
    {
        let b = chunk[m];
        assert forall|j: int| start <= j < total + m implies whole[j] != NEWLINE by {
            assert(pending@[j - start] == whole[j]);
        }
        pending.push(b);
        m += 1;
        assert(pending@ == whole.subrange(start, total + m));
        if b == NEWLINE {
            proof {
                lemma_line_found(whole, start, total + m);
            }
            lines.push(pending);
            pending = Vec::new();
            proof {
                start = total + m;
            }
        }
    }
    proof {
        lemma_no_newline(pending@);
    }
    *buffer = pending;
    lines
}

/// Where the bytes from `start` up to `end - 1` hold no newline and a newline
/// stands at `end - 1`, they are the first complete line of what begins at
/// `start`.
proof fn lemma_line_found(whole: Seq<u8>, start: int, end: int)
    requires
        0 <= start < end <= whole.len(),
        whole[end - 1] == NEWLINE,
        forall|j: int| start <= j < end - 1 ==> whole[j] != NEWLINE,
    ensures
        complete_lines(whole.subrange(start, whole.len() as int)) == seq![
            whole.subrange(start, end),
        ] + complete_lines(whole.subrange(end, whole.len() as int)),
        remainder(whole.subrange(start, whole.len() as int)) == remainder(
            whole.subrange(end, whole.len() as int),
        ),
{
    let tail = whole.subrange(start, whole.len() as int);
    let n = end - 1 - start;
    lemma_first_newline_at(tail, n);
    assert(tail.subrange(0, n + 1) == whole.subrange(start, end));
    assert(tail.subrange(n + 1, tail.len() as int) == whole.subrange(end, whole.len() as int));
}

} // verus!
