use vstd::prelude::*;
use vstd::string::*;

verus! {

/// The text of a line once its terminator is taken off: a final `\n` is
/// removed, and then a `\r` that stood right before it. A line that does not
/// end in `\n` is kept whole, a final `\r` included.
pub open spec fn without_line_ending(line: Seq<char>) -> Seq<char> {
    if line.len() > 0 && line.last() == '\n' {
        let body = line.drop_last();
        if body.len() > 0 && body.last() == '\r' {
            body.drop_last()
        } else {
            body
        }
    } else {
        line
    }
}

/// Returns `line` without its line terminator (`\n` or `\r\n`), every other
/// character kept in place.
pub fn trim_line_ending(line: &str) -> (r: String)
    ensures
        r@ == without_line_ending(line@),
{
    let n = line.unicode_len();
    let mut end: usize = n;
    if end > 0 && line.get_char(end - 1) == '\n' {
        end = end - 1;
        if end > 0 && line.get_char(end - 1) == '\r' {
            end = end - 1;
        }
    }
    let kept = line.substring_char(0, end);
    proof {
        assert(kept@ =~= without_line_ending(line@));
    }
    kept.to_owned()
}

/// A line that ends in `\n` comes back as the text before that `\n`, when
/// that text holds no `\n` and does not itself end in `\r`.
pub proof fn lemma_newline_removed(s: Seq<char>)
    requires
        !s.contains('\n'),
        !(s.len() > 0 && s.last() == '\r'),
    ensures
        without_line_ending(s.push('\n')) == s,
{
    assert(s.push('\n').drop_last() =~= s);
}

/// A line that ends in `\r\n` comes back as the text before the `\r\n`, when
/// that text holds neither `\r` nor `\n`.
pub proof fn lemma_crlf_removed(s: Seq<char>)
    requires
        !s.contains('\r'),
        !s.contains('\n'),
    ensures
        without_line_ending(s + seq!['\r', '\n']) == s,
{
    let line = s + seq!['\r', '\n'];
    assert(line.drop_last() =~= s.push('\r'));
    assert(s.push('\r').drop_last() =~= s);
}

/// Text that holds no `\n`, such as the last piece of a stream that ends
/// without one, comes back unchanged.
pub proof fn lemma_unterminated_kept(s: Seq<char>)
    requires
        !s.contains('\n'),
    ensures
        without_line_ending(s) == s,
{
    if s.len() > 0 {
        assert(s.contains(s.last()));
    }
}

/// An empty read gives the empty text.
pub proof fn lemma_empty_kept()
    ensures
        without_line_ending(Seq::<char>::empty()) == Seq::<char>::empty(),
{
}

/// Only the terminator is removed: the line is the result followed by
/// nothing, by `\n`, or by `\r\n`.
pub proof fn lemma_only_terminator_removed(line: Seq<char>)
    ensures
        line == without_line_ending(line) || line == without_line_ending(line).push('\n')
            || line == without_line_ending(line) + seq!['\r', '\n'],
{
    if line.len() > 0 && line.last() == '\n' {
        let body = line.drop_last();
        assert(body.push('\n') =~= line);
        if body.len() > 0 && body.last() == '\r' {
            assert(body.drop_last() + seq!['\r', '\n'] =~= line);
        }
    }
}

/// What one read of a line yields, text whose only `\n` is its last
/// character, comes back with no `\n` left in it.
pub proof fn lemma_no_line_break_left(line: Seq<char>)
    requires
        forall|i: int| 0 <= i < line.len() - 1 ==> line[i] != '\n',
    ensures
        !without_line_ending(line).contains('\n'),
{
    let r = without_line_ending(line);
    assert(r.len() <= line.len());
    assert forall|i: int| 0 <= i < r.len() implies r[i] != '\n' by {
        assert(r[i] == line[i]);
    }
}

} // verus!
