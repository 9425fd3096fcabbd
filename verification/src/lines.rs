//! Cutting a buffer into lines that keep their terminators.

use vstd::prelude::*;
use vstd::std_specs::iter::IteratorSpec;

verus! {

/// The lines of `s` that a line feed has closed, each with its line feed.
pub open spec fn closed_lines(s: Seq<char>) -> Seq<Seq<char>>
    decreases s.len(),
{
    if s.len() == 0 {
        Seq::empty()
    } else if s.last() == '\n' {
        closed_lines(s.drop_last()).push(open_line(s.drop_last()).push('\n'))
    } else {
        closed_lines(s.drop_last())
    }
}

/// What follows the last line feed of `s`: the line that is still open.
pub open spec fn open_line(s: Seq<char>) -> Seq<char>
    decreases s.len(),
{
    if s.len() == 0 || s.last() == '\n' {
        Seq::empty()
    } else {
        open_line(s.drop_last()).push(s.last())
    }
}

/// The lines of `s`: every closed line, then the open one unless it is empty.
pub open spec fn split_lines(s: Seq<char>) -> Seq<Seq<char>> {
    if open_line(s).len() > 0 {
        closed_lines(s).push(open_line(s))
    } else {
        closed_lines(s)
    }
}

/// A line as this library cuts them: not empty, and with no line feed before
/// its last character.
pub open spec fn is_line(l: Seq<char>) -> bool {
    &&& l.len() > 0
    &&& forall|j: int| 0 <= j < l.len() - 1 ==> l[j] != '\n'
}

/// Appends `c` to `s`.
///
/// Trusted: `String::push` of std appends the one character and leaves the
/// rest as it was.
#[verifier::external_body]
pub(crate) fn push_char(s: &mut String, c: char)
    ensures
        final(s)@ == old(s)@.push(c),
{
    s.push(c);
}

/// The closed lines and the open line spell the text, the closed lines are
/// lines that end in a line feed, and the open line holds none.
pub proof fn lemma_scan(s: Seq<char>)
    ensures
        closed_lines(s).flatten() + open_line(s) == s,
        forall|i: int|
            0 <= i < closed_lines(s).len() ==> is_line(#[trigger] closed_lines(s)[i])
                && closed_lines(s)[i].last() == '\n',
        forall|j: int| 0 <= j < open_line(s).len() ==> open_line(s)[j] != '\n',
    decreases s.len(),
{
    broadcast use Seq::lemma_flatten_push;

    if s.len() > 0 {
        let p = s.drop_last();
        lemma_scan(p);
        assert(s == p.push(s.last()));
        assert(closed_lines(s).flatten() + open_line(s) == s);
    }
}

/// The lines of a text spell it, each of them is a line, and all but the last
/// end in a line feed.
pub proof fn lemma_split_lines(s: Seq<char>)
    ensures
        split_lines(s).flatten() == s,
        forall|i: int| 0 <= i < split_lines(s).len() ==> is_line(#[trigger] split_lines(s)[i]),
        forall|i: int|
            0 <= i < split_lines(s).len() - 1 ==> (#[trigger] split_lines(s)[i]).last() == '\n',
{
    broadcast use Seq::lemma_flatten_push;

    lemma_scan(s);
    if open_line(s).len() > 0 {
        assert(split_lines(s).flatten() == closed_lines(s).flatten() + open_line(s));
        assert forall|i: int| 0 <= i < split_lines(s).len() implies is_line(
            #[trigger] split_lines(s)[i],
        ) by {
            if i < closed_lines(s).len() {
                assert(split_lines(s)[i] == closed_lines(s)[i]);
            }
        }
        assert forall|i: int| 0 <= i < split_lines(s).len() - 1 implies (#[trigger] split_lines(
            s,
        )[i]).last() == '\n' by {
            assert(split_lines(s)[i] == closed_lines(s)[i]);
        }
    } else {
        assert(closed_lines(s).flatten() + open_line(s) == closed_lines(s).flatten());
    }
}

/// Characters without a line feed, put after a text, lengthen its open line
/// and close nothing.
proof fn lemma_scan_open(t: Seq<char>, q: Seq<char>)
    requires
        forall|j: int| 0 <= j < q.len() ==> q[j] != '\n',
    ensures
        closed_lines(t + q) == closed_lines(t),
        open_line(t + q) == open_line(t) + q,
    decreases q.len(),
{
    if q.len() == 0 {
        assert(t + q == t);
        assert(open_line(t) + q == open_line(t));
    } else {
        lemma_scan_open(t, q.drop_last());
        assert((t + q).drop_last() == t + q.drop_last());
        assert(open_line(t) + q == (open_line(t) + q.drop_last()).push(q.last()));
    }
}

/// A line put after a text: where it ends in a line feed, it closes the open
/// line; where it does not, it lengthens it.
proof fn lemma_scan_line(t: Seq<char>, l: Seq<char>)
    requires
        is_line(l),
    ensures
        l.last() == '\n' ==> closed_lines(t + l) == closed_lines(t).push(open_line(t) + l)
            && open_line(t + l) == Seq::<char>::empty(),
        l.last() != '\n' ==> closed_lines(t + l) == closed_lines(t) && open_line(t + l)
            == open_line(t) + l,
{
    if l.last() == '\n' {
        lemma_scan_open(t, l.drop_last());
        assert((t + l).drop_last() == t + l.drop_last());
        assert(open_line(t) + l == (open_line(t) + l.drop_last()).push('\n'));
    } else {
        lemma_scan_open(t, l);
    }
}

/// Lines that all end in a line feed are the closed lines of the text they
/// spell, and leave no line open.
proof fn lemma_scan_closed(parts: Seq<Seq<char>>)
    requires
        forall|i: int| 0 <= i < parts.len() ==> is_line(#[trigger] parts[i]) && parts[i].last() == '\n',
    ensures
        closed_lines(parts.flatten()) == parts,
        open_line(parts.flatten()) == Seq::<char>::empty(),
    decreases parts.len(),
{
    broadcast use Seq::lemma_flatten_push;

    if parts.len() > 0 {
        let rest = parts.drop_last();
        lemma_scan_closed(rest);
        assert(parts == rest.push(parts.last()));
        lemma_scan_line(rest.flatten(), parts.last());
        assert(Seq::<char>::empty() + parts.last() == parts.last());
    }
}

/// There is one way only to cut a text into lines: parts that spell the text,
/// each of them a line, and all but the last ending in a line feed, are the
/// lines of the text.
pub proof fn lemma_split_is_unique(s: Seq<char>, parts: Seq<Seq<char>>)
    requires
        parts.flatten() == s,
        forall|i: int| 0 <= i < parts.len() ==> is_line(#[trigger] parts[i]),
        forall|i: int| 0 <= i < parts.len() - 1 ==> (#[trigger] parts[i]).last() == '\n',
    ensures
        parts == split_lines(s),
{
    broadcast use Seq::lemma_flatten_push;

    if parts.len() > 0 {
        let rest = parts.drop_last();
        let last = parts.last();
        assert forall|i: int| 0 <= i < rest.len() implies is_line(#[trigger] rest[i])
            && rest[i].last() == '\n' by {
            assert(rest[i] == parts[i]);
        }
        lemma_scan_closed(rest);
        assert(parts == rest.push(last));
        lemma_scan_line(rest.flatten(), last);
        assert(Seq::<char>::empty() + last == last);
    }
}

/// Cuts `text` into its lines. Each line keeps its line feed, so the lines
/// spell the text; only the last line may lack one.
pub fn split_lines_of(text: &str) -> (lines: Vec<String>)
    ensures
        lines.deep_view() == split_lines(text@),
        lines.deep_view().flatten() == text@,
        forall|i: int| 0 <= i < lines.len() ==> is_line(#[trigger] lines[i]@),
        forall|i: int| 0 <= i < lines.len() - 1 ==> (#[trigger] lines[i]@).last() == '\n',
{
    let mut lines: Vec<String> = Vec::new();
    let mut cur = String::new();
    let mut it = text.chars();
    let ghost mut seen: Seq<char> = Seq::empty();
    loop
        invariant
            seen + it.remaining() == text@,
            lines.deep_view() == closed_lines(seen),
            cur@ == open_line(seen),
            it.decrease() is Some,
        ensures
            seen == text@,
        decreases it.decrease()->0,
    {
        match it.next() {
            Some(c) => {
                push_char(&mut cur, c);
                proof {
                    let next = seen.push(c);
                    assert(next.drop_last() == seen);
                    assert(next + it.remaining() == text@);
                    seen = next;
                }
                if c == '\n' {
                    lines.push(cur);
                    cur = String::new();
                }
            },
            None => {
                assert(seen + Seq::<char>::empty() == seen);
                break ;
            },
        }
    }
    proof {
        lemma_split_lines(text@);
    }
    if !cur.as_str().is_empty() {
        lines.push(cur);
    }
    proof {
        assert(lines.deep_view() == split_lines(text@));
        assert forall|i: int| 0 <= i < lines.len() implies #[trigger] lines[i]@
            == split_lines(text@)[i] by {
            assert(lines.deep_view()[i] == lines[i]@);
        }
    }
    lines
}

} // verus!
