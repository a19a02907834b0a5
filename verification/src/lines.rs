//! Work items from a text: one per line, trimmed, blank lines left out.
use vstd::prelude::*;

verus! {

/// `String::push` appends one character.
pub assume_specification[ String::push ](text: &mut String, c: char)
    ensures
        final(text)@ == old(text)@.push(c),
;

/// White space as Unicode defines it: the characters that it marks
/// `White_Space`.
pub open spec fn is_white_space(c: char) -> bool {
    let n = c as u32;
    ||| 0x09 <= n <= 0x0D
    ||| n == 0x20
    ||| n == 0x85
    ||| n == 0xA0
    ||| n == 0x1680
    ||| 0x2000 <= n <= 0x200A
    ||| n == 0x2028
    ||| n == 0x2029
    ||| n == 0x202F
    ||| n == 0x205F
    ||| n == 0x3000
}

/// A text without the white space at its two ends.
pub open spec fn trimmed(text: Seq<char>) -> Seq<char>
    decreases text.len(),
{
    if text.len() == 0 {
        text
    } else if is_white_space(text.first()) {
        trimmed(text.drop_first())
    } else if is_white_space(text.last()) {
        trimmed(text.drop_last())
    } else {
        text
    }
}

/// Where the last line of a text starts: behind the last line feed, or at
/// the start of a text without one.
pub open spec fn last_line_start(text: Seq<char>) -> int
    decreases text.len(),
{
    if text.len() == 0 {
        0
    } else if text.last() == '\n' {
        text.len() as int
    } else {
        last_line_start(text.drop_last())
    }
}

/// The work items of a text: its lines, split at line feeds, each trimmed,
/// in their order and without the lines that are blank.
pub open spec fn work_items(text: Seq<char>) -> Seq<Seq<char>>
    decreases text.len(),
{
    let start = last_line_start(text);
    let last = trimmed(text.skip(start));
    let before = if 0 < start <= text.len() {
        work_items(text.take(start - 1))
    } else {
        Seq::empty()
    };
    if last.len() == 0 {
        before
    } else {
        before.push(last)
    }
}

/// The last line starts at `start` if a line feed stands before `start`,
/// or the text starts there, and none follows.
pub proof fn lemma_last_line_start(text: Seq<char>, start: int)
    requires
        0 <= start <= text.len(),
        start == 0 || text[start - 1] == '\n',
        forall|k: int| start <= k < text.len() ==> text[k] != '\n',
    ensures
        last_line_start(text) == start,
    decreases text.len(),
{
    if text.len() > start {
        lemma_last_line_start(text.drop_last(), start);
    }
}

/// Trimming takes a piece out of the text that neither starts nor ends with
/// white space, and trimming it again changes nothing.
pub proof fn lemma_trimmed_is_bare(text: Seq<char>)
    ensures
        trimmed(text).len() <= text.len(),
        trimmed(text).len() > 0 ==> !is_white_space(trimmed(text).first()) && !is_white_space(
            trimmed(text).last(),
        ),
        trimmed(trimmed(text)) == trimmed(text),
    decreases text.len(),
{
    if text.len() > 0 {
        if is_white_space(text.first()) {
            lemma_trimmed_is_bare(text.drop_first());
        } else if is_white_space(text.last()) {
            lemma_trimmed_is_bare(text.drop_last());
        }
    }
}

/// A line holds no line feed.
pub open spec fn is_one_line(text: Seq<char>) -> bool {
    forall|i: int| 0 <= i < text.len() ==> text[i] != '\n'
}

/// Trimming a line leaves a line.
pub proof fn lemma_trimmed_line(text: Seq<char>)
    requires
        is_one_line(text),
    ensures
        is_one_line(trimmed(text)),
    decreases text.len(),
{
    if text.len() > 0 {
        if is_white_space(text.first()) {
            let rest = text.drop_first();
            assert forall|i: int| 0 <= i < rest.len() implies rest[i] != '\n' by {
                assert(rest[i] == text[i + 1]);
            }
            lemma_trimmed_line(rest);
        } else if is_white_space(text.last()) {
            let rest = text.drop_last();
            assert forall|i: int| 0 <= i < rest.len() implies rest[i] != '\n' by {
                assert(rest[i] == text[i]);
            }
            lemma_trimmed_line(rest);
        }
    }
}

/// The last line of a text starts inside the text, and holds no line feed.
pub proof fn lemma_last_line(text: Seq<char>)
    ensures
        0 <= last_line_start(text) <= text.len(),
        is_one_line(text.skip(last_line_start(text))),
    decreases text.len(),
{
    if text.len() > 0 && text.last() != '\n' {
        let rest = text.drop_last();
        lemma_last_line(rest);
        let start = last_line_start(text);
        let line = text.skip(start);
        assert forall|i: int| 0 <= i < line.len() implies line[i] != '\n' by {
            if i < line.len() - 1 {
                assert(rest.skip(start)[i] == line[i]);
            }
        }
    }
}

/// Every work item of a text is a line that is not empty and neither
/// starts nor ends with white space.
pub proof fn lemma_work_items_are_bare(text: Seq<char>, at: int)
    requires
        0 <= at < work_items(text).len(),
    ensures
        work_items(text)[at].len() > 0,
        !is_white_space(work_items(text)[at].first()),
        !is_white_space(work_items(text)[at].last()),
        is_one_line(work_items(text)[at]),
    decreases text.len(),
{
    let start = last_line_start(text);
    let last = trimmed(text.skip(start));
    lemma_last_line(text);
    lemma_trimmed_is_bare(text.skip(start));
    lemma_trimmed_line(text.skip(start));
    if 0 < start <= text.len() {
        let before = work_items(text.take(start - 1));
        if at < before.len() {
            lemma_work_items_are_bare(text.take(start - 1), at);
        }
    }
}

/// Whether `c` is white space.
pub fn is_space(c: char) -> (yes: bool)
    ensures
        yes == is_white_space(c),
{
    let n: u32 = c as u32;
    (0x09 <= n && n <= 0x0D) || n == 0x20 || n == 0x85 || n == 0xA0 || n == 0x1680 || (0x2000 <= n
        && n <= 0x200A) || n == 0x2028 || n == 0x2029 || n == 0x202F || n == 0x205F || n == 0x3000
}

/// The characters of a text.
fn chars_of(text: &str) -> (chars: Vec<char>)
    ensures
        chars@ == text@,
{
    broadcast use vstd::string::axiom_spec_iter;

    let mut chars: Vec<char> = Vec::new();
    for c in it: text.chars()
        invariant
            it.seq() == text@,
            chars@ == it.seq().take(it.index() as int),
    {
        chars.push(c);
        assert(chars@ =~= it.seq().take(it.index() + 1));
    }
    assert(chars@ =~= text@);
    chars
}

/// The bounds of `chars[from..to]` without the white space at its ends.
fn trim_bounds(chars: &Vec<char>, from: usize, to: usize) -> (bounds: (usize, usize))
    requires
        from <= to <= chars@.len(),
    ensures
        from <= bounds.0 <= bounds.1 <= to,
        chars@.subrange(bounds.0 as int, bounds.1 as int) == trimmed(
            chars@.subrange(from as int, to as int),
        ),
{
    let mut first: usize = from;
    while first < to && is_space(chars[first])
        invariant
            from <= first <= to <= chars@.len(),
            trimmed(chars@.subrange(first as int, to as int)) == trimmed(
                chars@.subrange(from as int, to as int),
            ),
        decreases to - first,
    {
        proof {
            let rest = chars@.subrange(first as int, to as int);
            assert(rest.first() == chars@[first as int]);
            assert(rest.drop_first() =~= chars@.subrange(first + 1, to as int));
        }
        first += 1;
    }
    let mut end: usize = to;
    while first < end && is_space(chars[end - 1])
        invariant
            first <= end <= to <= chars@.len(),
            first < to ==> !is_white_space(chars@[first as int]),
            trimmed(chars@.subrange(first as int, end as int)) == trimmed(
                chars@.subrange(from as int, to as int),
            ),
        decreases end - first,
    {
        proof {
            let rest = chars@.subrange(first as int, end as int);
            assert(rest.first() == chars@[first as int]);
            assert(rest.last() == chars@[end - 1]);
            assert(rest.drop_last() =~= chars@.subrange(first as int, end - 1));
        }
        end -= 1;
    }
    proof {
        let rest = chars@.subrange(first as int, end as int);
        if first < end {
            assert(rest.first() == chars@[first as int]);
            assert(rest.last() == chars@[end - 1]);
        }
        assert(trimmed(rest) == rest);
    }
    (first, end)
}

/// The text of `chars[from..to]`.
fn text_of(chars: &Vec<char>, from: usize, to: usize) -> (text: String)
    requires
        from <= to <= chars@.len(),
    ensures
        text@ == chars@.subrange(from as int, to as int),
{
    let mut text = String::new();
    let mut i: usize = from;
    while i < to
        invariant
            from <= i <= to <= chars@.len(),
            text@ == chars@.subrange(from as int, i as int),
        decreases to - i,
    {
        text.push(chars[i]);
        assert(text@ =~= chars@.subrange(from as int, i + 1));
        i += 1;
    }
    text
}

/// Adds the line `chars[from..to]` to `urls`, trimmed, unless it is blank.
fn push_line(urls: &mut Vec<String>, chars: &Vec<char>, from: usize, to: usize)
    requires
        from <= to <= chars@.len(),
    ensures
        final(urls).deep_view() == ({
            let item = trimmed(chars@.subrange(from as int, to as int));
            if item.len() == 0 {
                old(urls).deep_view()
            } else {
                old(urls).deep_view().push(item)
            }
        }),
{
    let bounds = trim_bounds(chars, from, to);
    if bounds.0 < bounds.1 {
        let item = text_of(chars, bounds.0, bounds.1);
        urls.push(item);
        assert(urls.deep_view() =~= old(urls).deep_view().push(item@));
    }
}

/// The work items of a text: one per line that is not blank, trimmed.
pub fn urls_from_text(content: &str) -> (urls: Vec<String>)
    ensures
        urls.deep_view() == work_items(content@),
{
    let chars = chars_of(content);
    let n: usize = chars.len();
    let mut urls: Vec<String> = Vec::new();
    let mut start: usize = 0;
    let mut i: usize = 0;
    assert(urls.deep_view() =~= Seq::<Seq<char>>::empty());
    while i < n
        invariant
            n == chars@.len(),
            start <= i <= n,
            start == 0 || chars@[start - 1] == '\n',
            forall|k: int| start <= k < i ==> chars@[k] != '\n',
            urls.deep_view() == (if start == 0 {
                Seq::<Seq<char>>::empty()
            } else {
                work_items(chars@.take(start - 1))
            }),
        decreases n - i,
    {
        if chars[i] == '\n' {
            push_line(&mut urls, &chars, start, i);
            proof {
                let line = chars@.take(i as int);
                lemma_last_line_start(line, start as int);
                assert(line.skip(start as int) =~= chars@.subrange(start as int, i as int));
                if start > 0 {
                    assert(line.take(start - 1) =~= chars@.take(start - 1));
                }
                assert(urls.deep_view() == work_items(line));
            }
            start = i + 1;
        }
        i += 1;
    }
    push_line(&mut urls, &chars, start, n);
    proof {
        lemma_last_line_start(chars@, start as int);
        assert(chars@.skip(start as int) =~= chars@.subrange(start as int, n as int));
        assert(urls.deep_view() == work_items(chars@));
    }
    urls
}

} // verus!
