//! Searching, replacing and splitting text.

use crate::text::{chars_of, push_char, text_of};
use vstd::prelude::*;
use vstd::string::*;

verus! {

/// Whether `needle` stands in `hay` at position `at`.
pub open spec fn occurs_at(hay: Seq<char>, needle: Seq<char>, at: int) -> bool {
    0 <= at && at + needle.len() <= hay.len() && hay.subrange(at, at + needle.len()) == needle
}

/// Whether `needle` occurs somewhere in `hay`.
pub open spec fn occurs_in(hay: Seq<char>, needle: Seq<char>) -> bool {
    exists|at: int| occurs_at(hay, needle, at)
}

fn matches_at(hay: &Vec<char>, needle: &Vec<char>, at: usize) -> (r: bool)
    requires
        at + needle@.len() <= hay@.len(),
    ensures
        r == occurs_at(hay@, needle@, at as int),
{
    let mut k: usize = 0;
    let size = hay.len();
    while k < needle.len()
        invariant
            size == hay@.len(),
            at + needle@.len() <= hay@.len(),
            k <= needle@.len(),
            forall|j: int| 0 <= j < k ==> hay@[at + j] == needle@[j],
        decreases needle@.len() - k,
    {
        if hay[at + k] != needle[k] {
            assert(hay@.subrange(at as int, at + needle@.len())[k as int] != needle@[k as int]);
            return false;
        }
        k = k + 1;
    }
    assert(hay@.subrange(at as int, at + needle@.len()) =~= needle@);
    true
}

/// Whether `needle` occurs somewhere in `hay`. The empty string occurs in
/// every string.
pub fn contains_text(hay: &str, needle: &str) -> (r: bool)
    ensures
        r == occurs_in(hay@, needle@),
{
    let h = chars_of(hay);
    let n = chars_of(needle);
    if n.len() > h.len() {
        return false;
    }
    let last = h.len() - n.len();
    let mut at: usize = 0;
    loop
        invariant
            h@ == hay@,
            n@ == needle@,
            n@.len() <= h@.len(),
            last == h@.len() - n@.len(),
            at <= last,
            forall|j: int| 0 <= j < at ==> !occurs_at(h@, n@, j),
        decreases last - at,
    {
        if matches_at(&h, &n, at) {
            return true;
        }
        if at == last {
            return false;
        }
        at = at + 1;
    }
}

/// `s` with every occurrence of `from` replaced by `to`, scanning from the
/// left and never overlapping. An empty `from` matches before every
/// character and at the end.
pub open spec fn replaced(s: Seq<char>, from: Seq<char>, to: Seq<char>) -> Seq<char>
    decreases s.len(),
{
    if s.len() == 0 {
        if from.len() == 0 {
            to
        } else {
            s
        }
    } else if from.len() == 0 {
        to + seq![s[0]] + replaced(s.skip(1), from, to)
    } else if occurs_at(s, from, 0) {
        to + replaced(s.skip(from.len() as int), from, to)
    } else {
        seq![s[0]] + replaced(s.skip(1), from, to)
    }
}

/// Replaces every occurrence of `from` in `s` by `to`.
pub fn replace_all(s: &str, from: &str, to: &str) -> (r: String)
    ensures
        r@ == replaced(s@, from@, to@),
{
    let h = chars_of(s);
    let n = chars_of(from);
    let mut out = String::new();
    let mut i: usize = 0;
    proof {
        assert(s@.skip(0) =~= s@);
        assert(out@ + replaced(s@, from@, to@) =~= replaced(s@, from@, to@));
    }
    while i < h.len()
        invariant
            h@ == s@,
            n@ == from@,
            i <= h@.len(),
            replaced(s@, from@, to@) == out@ + replaced(s@.skip(i as int), from@, to@),
        decreases h@.len() - i,
    {
        let ghost rest = s@.skip(i as int);
        let ghost before = out@;
        if n.len() == 0 {
            out.append(to);
            push_char(&mut out, h[i]);
            proof {
                assert(rest.skip(1) =~= s@.skip(i + 1));
                assert(rest[0] == h@[i as int]);
                assert(before + (to@ + seq![rest[0]] + replaced(rest.skip(1), from@, to@)) =~= (
                before + to@).push(rest[0]) + replaced(rest.skip(1), from@, to@));
            }
            i = i + 1;
        } else if n.len() <= h.len() - i && matches_at(&h, &n, i) {
            out.append(to);
            proof {
                assert(rest.subrange(0, n@.len() as int) =~= h@.subrange(
                    i as int,
                    i + n@.len(),
                ));
                assert(occurs_at(rest, from@, 0));
                assert(rest.skip(n@.len() as int) =~= s@.skip(i + n@.len()));
                assert(before + (to@ + replaced(rest.skip(n@.len() as int), from@, to@)) =~= (before
                    + to@) + replaced(rest.skip(n@.len() as int), from@, to@));
            }
            i = i + n.len();
        } else {
            push_char(&mut out, h[i]);
            proof {
                if n@.len() <= h@.len() - i {
                    assert(rest.subrange(0, n@.len() as int) =~= h@.subrange(
                        i as int,
                        i + n@.len(),
                    ));
                }
                assert(!occurs_at(rest, from@, 0));
                assert(rest.skip(1) =~= s@.skip(i + 1));
                assert(rest[0] == h@[i as int]);
                assert(before + (seq![rest[0]] + replaced(rest.skip(1), from@, to@)) =~= before.push(
                    rest[0],
                ) + replaced(rest.skip(1), from@, to@));
            }
            i = i + 1;
        }
    }
    proof {
        assert(s@.skip(i as int).len() == 0);
    }
    if n.len() == 0 {
        out.append(to);
    } else {
        assert(out@ + s@.skip(i as int) =~= out@);
    }
    out
}

/// The number of characters of `s` before its first line feed, or its length
/// where it holds none.
pub open spec fn line_end(s: Seq<char>) -> nat
    decreases s.len(),
{
    if s.len() == 0 || s[0] == '\n' {
        0
    } else {
        1 + line_end(s.skip(1))
    }
}

/// A line without the carriage return that stood before its line feed.
pub open spec fn without_return(line: Seq<char>) -> Seq<char> {
    if line.len() > 0 && line.last() == '\r' {
        line.drop_last()
    } else {
        line
    }
}

/// The lines of `s`. A line ends at a line feed, which is left out together
/// with a carriage return just before it. What follows the last line feed is
/// a line of its own unless it is empty, and keeps a carriage return at its
/// end.
pub open spec fn lines_of(s: Seq<char>) -> Seq<Seq<char>>
    decreases s.len(),
{
    if s.len() == 0 {
        Seq::empty()
    } else if line_end(s) >= s.len() {
        seq![s]
    } else {
        seq![without_return(s.take(line_end(s) as int))] + lines_of(s.skip(line_end(s) as int + 1))
    }
}

/// `n` characters without a line feed, followed by the end or by a line
/// feed, are the first line.
pub proof fn lemma_line_end(s: Seq<char>, n: int)
    requires
        0 <= n <= s.len(),
        forall|k: int| 0 <= k < n ==> #[trigger] s[k] != '\n',
        n == s.len() || s[n] == '\n',
    ensures
        line_end(s) == n,
    decreases n,
{
    if n > 0 {
        let rest = s.skip(1);
        assert forall|k: int| 0 <= k < n - 1 implies #[trigger] rest[k] != '\n' by {
            assert(rest[k] == s[k + 1]);
        }
        lemma_line_end(rest, n - 1);
    }
}

/// The first line of a text ends where its first part ends, if that part
/// ends with a line feed.
proof fn lemma_line_end_of_sum(x: Seq<char>, y: Seq<char>)
    requires
        x.len() > 0,
        x.last() == '\n',
    ensures
        line_end(x + y) == line_end(x),
        line_end(x) < x.len(),
    decreases x.len(),
{
    if x[0] != '\n' {
        assert((x + y).skip(1) =~= x.skip(1) + y);
        assert(x.skip(1).len() > 0);
        assert(x.skip(1).last() == x.last());
        lemma_line_end_of_sum(x.skip(1), y);
    }
}

/// The lines of two texts, one after the other, are the lines of the first
/// and then the lines of the second, if the first is empty or ends with a
/// line feed.
pub proof fn lemma_lines_of_sum(x: Seq<char>, y: Seq<char>)
    requires
        x.len() == 0 || x.last() == '\n',
    ensures
        lines_of(x + y) == lines_of(x) + lines_of(y),
    decreases x.len(),
{
    if x.len() == 0 {
        assert(x + y =~= y);
        assert(lines_of(x) + lines_of(y) =~= lines_of(y));
    } else {
        lemma_line_end_of_sum(x, y);
        let n = line_end(x) as int;
        let rest = x.skip(n + 1);
        assert((x + y).take(n) =~= x.take(n));
        assert((x + y).skip(n + 1) =~= rest + y);
        if rest.len() > 0 {
            assert(rest.last() == x.last());
        }
        lemma_lines_of_sum(rest, y);
        assert(seq![without_return(x.take(n))] + (lines_of(rest) + lines_of(y)) =~= (seq![
            without_return(x.take(n)),
        ] + lines_of(rest)) + lines_of(y));
    }
}

/// Whether a text can stand as one line of a stored list: it holds no line
/// feed and does not end with a carriage return.
pub open spec fn is_line(s: Seq<char>) -> bool {
    !s.contains('\n') && (s.len() == 0 || s.last() != '\r')
}

/// A line and its line feed read back as that line.
proof fn lemma_one_line(s: Seq<char>)
    requires
        is_line(s),
    ensures
        lines_of(s + seq!['\n']) == seq![s],
        s.len() > 0 ==> lines_of(s) == seq![s],
{
    let t = s + seq!['\n'];
    assert forall|k: int| 0 <= k < s.len() implies #[trigger] t[k] != '\n' by {
        assert(t[k] == s[k]);
        assert(s.contains(s[k]));
    }
    lemma_line_end(t, s.len() as int);
    assert(t.take(s.len() as int) =~= s);
    assert(t.skip(s.len() as int + 1) =~= Seq::<char>::empty());
    assert(seq![s] + lines_of(Seq::<char>::empty()) =~= seq![s]);
    if s.len() > 0 {
        assert forall|k: int| 0 <= k < s.len() implies #[trigger] s[k] != '\n' by {
            assert(s.contains(s[k]));
        }
        lemma_line_end(s, s.len() as int);
    }
}

/// Lines that are joined by line feeds and closed by one read back as they
/// were.
proof fn lemma_closed_lines_read_back(entries: Seq<Seq<char>>)
    requires
        entries.len() > 0,
        forall|i: int| 0 <= i < entries.len() ==> is_line(#[trigger] entries[i]),
    ensures
        lines_of(crate::text::joined(entries, seq!['\n']) + seq!['\n']) == entries,
    decreases entries.len(),
{
    let feed = seq!['\n'];
    let last = entries.last();
    lemma_one_line(last);
    if entries.len() == 1 {
        assert(entries =~= seq![last]);
    } else {
        let front = entries.drop_last();
        assert forall|i: int| 0 <= i < front.len() implies is_line(#[trigger] front[i]) by {
            assert(front[i] == entries[i]);
        }
        lemma_closed_lines_read_back(front);
        let head = crate::text::joined(front, feed) + feed;
        assert(crate::text::joined(entries, feed) + feed =~= head + (last + feed));
        lemma_lines_of_sum(head, last + feed);
        assert(front + seq![last] =~= entries);
    }
}

/// A stored list of lines reads back as it was: lines joined by line feeds
/// are the lines of the joined text, if the last line is not empty. An
/// empty last line is lost, as is the difference between no line and one
/// empty line.
pub proof fn law_joined_lines_read_back(entries: Seq<Seq<char>>)
    requires
        forall|i: int| 0 <= i < entries.len() ==> is_line(#[trigger] entries[i]),
        entries.len() == 0 || entries.last().len() > 0,
    ensures
        lines_of(crate::text::joined(entries, seq!['\n'])) == entries,
    decreases entries.len(),
{
    let feed = seq!['\n'];
    if entries.len() == 0 {
        assert(lines_of(crate::text::joined(entries, feed)) =~= entries);
    } else {
        let last = entries.last();
        lemma_one_line(last);
        if entries.len() == 1 {
            assert(entries =~= seq![last]);
        } else {
            let front = entries.drop_last();
            assert forall|i: int| 0 <= i < front.len() implies is_line(#[trigger] front[i]) by {
                assert(front[i] == entries[i]);
            }
            lemma_closed_lines_read_back(front);
            let head = crate::text::joined(front, feed) + feed;
            assert(crate::text::joined(entries, feed) =~= head + last);
            lemma_lines_of_sum(head, last);
            assert(front + seq![last] =~= entries);
        }
    }
}

/// Splits `s` into its lines.
pub fn lines(s: &str) -> (r: Vec<String>)
    ensures
        crate::text::texts(r@) == lines_of(s@),
{
    let v = chars_of(s);
    let n = v.len();
    let mut out: Vec<String> = Vec::new();
    let mut start: usize = 0;
    let mut i: usize = 0;
    proof {
        assert(s@.skip(0) =~= s@);
        assert(crate::text::texts(out@) + lines_of(s@) =~= lines_of(s@));
    }
    while i < n
        invariant
            v@ == s@,
            n == v@.len(),
            start <= i <= n,
            forall|k: int| start <= k < i ==> #[trigger] v@[k] != '\n',
            lines_of(s@) == crate::text::texts(out@) + lines_of(s@.skip(start as int)),
        decreases n - i,
    {
        if v[i] == '\n' {
            let ghost rest = s@.skip(start as int);
            let ghost done = crate::text::texts(out@);
            let stop: usize = if i > start && v[i - 1] == '\r' {
                i - 1
            } else {
                i
            };
            let line = text_of(&v, start, stop);
            proof {
                assert forall|k: int| 0 <= k < i - start implies #[trigger] rest[k] != '\n' by {
                    assert(rest[k] == v@[k + start]);
                }
                assert(rest[i - start] == v@[i as int]);
                lemma_line_end(rest, i - start);
                assert(rest.take(i - start) =~= v@.subrange(start as int, i as int));
                assert(line@ =~= without_return(rest.take(i - start)));
                assert(rest.skip(i - start + 1) =~= s@.skip(i + 1));
            }
            out.push(line);
            proof {
                assert(crate::text::texts(out@) =~= done + seq![line@]);
                assert(done + (seq![line@] + lines_of(s@.skip(i + 1))) =~= (done + seq![line@])
                    + lines_of(s@.skip(i + 1)));
            }
            start = i + 1;
        }
        i = i + 1;
    }
    if start < n {
        let ghost rest = s@.skip(start as int);
        let ghost done = crate::text::texts(out@);
        let line = text_of(&v, start, n);
        proof {
            assert forall|k: int| 0 <= k < n - start implies #[trigger] rest[k] != '\n' by {
                assert(rest[k] == v@[k + start]);
            }
            lemma_line_end(rest, n - start);
            assert(line@ =~= rest);
        }
        out.push(line);
        proof {
            assert(crate::text::texts(out@) =~= done + seq![line@]);
        }
    } else {
        assert(crate::text::texts(out@) + lines_of(s@.skip(start as int)) =~= crate::text::texts(
            out@,
        ));
    }
    out
}

} // verus!
