//! Plain text as sequences of characters: whitespace, trimming, prefixes and
//! line splitting, with executable counterparts on `Vec<char>` and `&str`.

use vstd::prelude::*;
use vstd::std_specs::iter::IteratorSpec;

verus! {

/// The characters with the Unicode property `White_Space`.
pub open spec fn is_whitespace(c: char) -> bool {
    let n = c as u32;
    ||| 0x09 <= n <= 0x0D
    ||| n == 0x20
    ||| n == 0x85
    ||| n == 0xA0
    ||| n == 0x1680
    ||| 0x2000 <= n <= 0x200A
    ||| n == 0x2028
    ||| n == 0x2029
    ||| n == 0x202F
    ||| n == 0x205F
    ||| n == 0x3000
}

/// `s` without its leading whitespace.
pub open spec fn trim_start(s: Seq<char>) -> Seq<char>
    decreases s.len(),
{
    if s.len() > 0 && is_whitespace(s[0]) {
        trim_start(s.drop_first())
    } else {
        s
    }
}

/// `s` without its trailing whitespace.
pub open spec fn trim_end(s: Seq<char>) -> Seq<char>
    decreases s.len(),
{
    if s.len() > 0 && is_whitespace(s.last()) {
        trim_end(s.drop_last())
    } else {
        s
    }
}

/// `s` without leading and trailing whitespace.
pub open spec fn trim(s: Seq<char>) -> Seq<char> {
    trim_end(trim_start(s))
}

/// A line's content once the carriage return of a `\r\n` ending is removed.
pub open spec fn strip_carriage_return(line: Seq<char>) -> Seq<char> {
    if line.len() > 0 && line.last() == '\r' {
        line.drop_last()
    } else {
        line
    }
}

/// The lines of `current + rest`, where `current` is the beginning of a line
/// that has been read already.
pub open spec fn lines_after(rest: Seq<char>, current: Seq<char>) -> Seq<Seq<char>>
    decreases rest.len(),
{
    if rest.len() == 0 {
        if current.len() == 0 {
            Seq::empty()
        } else {
            seq![current]
        }
    } else if rest[0] == '\n' {
        seq![strip_carriage_return(current)] + lines_after(rest.drop_first(), Seq::empty())
    } else {
        lines_after(rest.drop_first(), current.push(rest[0]))
    }
}

/// The lines of a text. A line ends at `\n` or `\r\n`; the ending is not part
/// of the line, and the last line needs none.
pub open spec fn lines(text: Seq<char>) -> Seq<Seq<char>> {
    lines_after(text, Seq::empty())
}

/// No line holds a line feed, whatever was read of the line before.
proof fn lemma_lines_after_hold_no_line_feed(rest: Seq<char>, current: Seq<char>, i: int)
    requires
        !current.contains('\n'),
        0 <= i < lines_after(rest, current).len(),
    ensures
        !lines_after(rest, current)[i].contains('\n'),
    decreases rest.len(),
{
    if rest.len() > 0 {
        if rest[0] != '\n' {
            let longer = current.push(rest[0]);
            if longer.contains('\n') {
                let k = choose|k: int| 0 <= k < longer.len() && longer[k] == '\n';
                assert(current[k] == '\n');
            }
            lemma_lines_after_hold_no_line_feed(rest.drop_first(), longer, i);
        } else if i > 0 {
            lemma_lines_after_hold_no_line_feed(rest.drop_first(), Seq::empty(), i - 1);
        } else {
            let line = strip_carriage_return(current);
            if line.contains('\n') {
                let k = choose|k: int| 0 <= k < line.len() && line[k] == '\n';
                assert(current[k] == '\n');
            }
        }
    }
}

/// No line of a text holds a line feed.
pub proof fn lemma_lines_hold_no_line_feed(text: Seq<char>, i: int)
    requires
        0 <= i < lines(text).len(),
    ensures
        !lines(text)[i].contains('\n'),
{
    lemma_lines_after_hold_no_line_feed(text, Seq::empty(), i);
}

/// A text without a line feed is one line, unless it is empty.
pub proof fn lemma_text_without_line_feed_is_one_line(text: Seq<char>)
    requires
        !text.contains('\n'),
    ensures
        lines(text) == if text.len() == 0 {
            Seq::<Seq<char>>::empty()
        } else {
            seq![text]
        },
{
    lemma_lines_after_without_line_feed(text, Seq::empty());
    assert(Seq::<char>::empty() + text =~= text);
}

/// What is left of a text without a line feed belongs to the line that was
/// begun.
proof fn lemma_lines_after_without_line_feed(rest: Seq<char>, current: Seq<char>)
    requires
        !rest.contains('\n'),
    ensures
        lines_after(rest, current) == if (current + rest).len() == 0 {
            Seq::<Seq<char>>::empty()
        } else {
            seq![current + rest]
        },
    decreases rest.len(),
{
    if rest.len() == 0 {
        assert(current + rest =~= current);
    } else {
        let tail = rest.drop_first();
        assert(rest[0] != '\n');
        if tail.contains('\n') {
            let k = choose|k: int| 0 <= k < tail.len() && tail[k] == '\n';
            assert(rest[k + 1] == '\n');
        }
        lemma_lines_after_without_line_feed(tail, current.push(rest[0]));
        assert(current.push(rest[0]) + tail =~= current + rest);
    }
}

/// Leading whitespace is exactly what `trim_start` removes.
pub proof fn lemma_trim_start_is_skip(s: Seq<char>, k: int)
    requires
        0 <= k <= s.len(),
        forall|j: int| 0 <= j < k ==> is_whitespace(#[trigger] s[j]),
        k == s.len() || !is_whitespace(s[k]),
    ensures
        trim_start(s) == s.skip(k),
    decreases k,
{
    if k > 0 {
        let rest = s.drop_first();
        assert forall|j: int| 0 <= j < k - 1 implies is_whitespace(#[trigger] rest[j]) by {
            assert(rest[j] == s[j + 1]);
        }
        lemma_trim_start_is_skip(rest, k - 1);
        assert(rest.skip(k - 1) =~= s.skip(k));
    } else {
        assert(s.skip(0) =~= s);
    }
}

/// Trailing whitespace is exactly what `trim_end` removes.
pub proof fn lemma_trim_end_is_take(s: Seq<char>, k: int)
    requires
        0 <= k <= s.len(),
        forall|j: int| k <= j < s.len() ==> is_whitespace(#[trigger] s[j]),
        k == 0 || !is_whitespace(s[k - 1]),
    ensures
        trim_end(s) == s.take(k),
    decreases s.len() - k,
{
    if k < s.len() {
        let rest = s.drop_last();
        assert forall|j: int| k <= j < rest.len() implies is_whitespace(#[trigger] rest[j]) by {
            assert(rest[j] == s[j]);
        }
        lemma_trim_end_is_take(rest, k);
        assert(rest.take(k) =~= s.take(k));
    } else {
        assert(s.take(k) =~= s);
    }
}

/// A trimmed text neither begins nor ends with whitespace, and trimming it
/// again changes nothing.
pub proof fn lemma_trim_has_no_outer_whitespace(s: Seq<char>)
    ensures
        trim(s).len() > 0 ==> !is_whitespace(trim(s).first()) && !is_whitespace(trim(s).last()),
        trim(trim(s)) == trim(s),
        trim(s).len() <= s.len(),
{
    let start_trimmed = trim_start(s);
    let trimmed = trim_end(start_trimmed);
    lemma_trim_start_shape(s);
    lemma_trim_end_shape(start_trimmed);
    if trimmed.len() > 0 {
        lemma_trim_start_is_skip(trimmed, 0);
        lemma_trim_end_is_take(trimmed, trimmed.len() as int);
    }
}

proof fn lemma_trim_start_shape(s: Seq<char>)
    ensures
        trim_start(s).len() <= s.len(),
        trim_start(s).len() > 0 ==> !is_whitespace(trim_start(s).first()),
    decreases s.len(),
{
    if s.len() > 0 && is_whitespace(s[0]) {
        lemma_trim_start_shape(s.drop_first());
    }
}

proof fn lemma_trim_end_shape(s: Seq<char>)
    ensures
        trim_end(s).len() <= s.len(),
        trim_end(s).len() > 0 ==> !is_whitespace(trim_end(s).last()),
        trim_end(s).len() > 0 ==> trim_end(s).first() == s.first(),
    decreases s.len(),
{
    if s.len() > 0 && is_whitespace(s.last()) {
        lemma_trim_end_shape(s.drop_last());
    }
}

/// Appends one character to a string. Stands for `String::push`, which adds
/// the character at the end and leaves the rest as it was.
#[verifier::external_body]
fn push_char(s: &mut String, c: char)
    ensures
        final(s)@ == old(s)@.push(c),
{
    s.push(c)
}

/// Decides whether a character is whitespace.
pub fn char_is_whitespace(c: char) -> (b: bool)
    ensures
        b == is_whitespace(c),
{
    let n: u32 = c as u32;
    (0x09 <= n && n <= 0x0D) || n == 0x20 || n == 0x85 || n == 0xA0 || n == 0x1680 || (0x2000 <= n
        && n <= 0x200A) || n == 0x2028 || n == 0x2029 || n == 0x202F || n == 0x205F || n == 0x3000
}

/// The characters of a string, in order.
pub fn chars_of(s: &str) -> (v: Vec<char>)
    ensures
        v@ == s@,
{
    let mut v: Vec<char> = Vec::new();
    let mut it = s.chars();
    loop
        invariant
            it.obeys_prophetic_iter_laws(),
            it.decrease() is Some,
            v@ + it.remaining() == s@,
        ensures
            v@ == s@,
        decreases it.decrease()->0,
    {
        match it.next() {
            Some(c) => {
                v.push(c);
            },
            None => {
                break ;
            },
        }
    }
    v
}

/// The string made of the characters `v[from..to]`.
pub(crate) fn string_of_range(v: &Vec<char>, from: usize, to: usize) -> (s: String)
    requires
        from <= to <= v.len(),
    ensures
        s@ == v@.subrange(from as int, to as int),
{
    let mut s = String::new();
    let mut i: usize = from;
    while i < to
        invariant
            from <= i <= to <= v.len(),
            s@ == v@.subrange(from as int, i as int),
        decreases to - i,
    {
        push_char(&mut s, v[i]);
        i += 1;
    }
    s
}

/// The string made of the characters of `v`.
pub fn string_of(v: &Vec<char>) -> (s: String)
    ensures
        s@ == v@,
{
    let s = string_of_range(v, 0, v.len());
    s
}

/// Decides whether `s` begins with `prefix`.
pub(crate) fn has_prefix(s: &Vec<char>, prefix: &Vec<char>) -> (b: bool)
    ensures
        b == prefix@.is_prefix_of(s@),
{
    if prefix.len() > s.len() {
        return false;
    }
    let mut i: usize = 0;
    while i < prefix.len()
        invariant
            i <= prefix.len() <= s.len(),
            forall|j: int| 0 <= j < i ==> prefix@[j] == s@[j],
        decreases prefix.len() - i,
    {
        if prefix[i] != s[i] {
            return false;
        }
        i += 1;
    }
    true
}

/// The range of `v[from..]` that is left when whitespace is trimmed from both
/// of its ends.
pub(crate) fn trim_bounds(v: &Vec<char>, from: usize) -> (r: (usize, usize))
    requires
        from <= v.len(),
    ensures
        from <= r.0 <= r.1 <= v.len(),
        v@.subrange(r.0 as int, r.1 as int) == trim(v@.skip(from as int)),
{
    let n: usize = v.len();
    let mut a: usize = from;
    while a < n && char_is_whitespace(v[a])
        invariant
            from <= a <= n == v.len(),
            forall|j: int| from <= j < a ==> is_whitespace(#[trigger] v@[j]),
        decreases n - a,
    {
        a += 1;
    }
    let mut b: usize = n;
    while b > a && char_is_whitespace(v[b - 1])
        invariant
            a <= b <= n == v.len(),
            forall|j: int| b <= j < n ==> is_whitespace(#[trigger] v@[j]),
        decreases b,
    {
        b -= 1;
    }
    proof {
        let s = v@.skip(from as int);
        lemma_trim_start_is_skip(s, a - from);
        assert(s.skip(a - from) =~= v@.skip(a as int));
        let t = v@.skip(a as int);
        lemma_trim_end_is_take(t, b - a);
    }
    (a, b)
}

/// A vector of character vectors stands for the rows that its elements hold.
proof fn lemma_rows_deep_view(out: Vec<Vec<char>>, rows: Seq<Seq<char>>)
    requires
        out@.len() == rows.len(),
        forall|j: int| 0 <= j < rows.len() ==> (#[trigger] out@[j])@ == rows[j],
    ensures
        out.deep_view() == rows,
{
    assert forall|j: int| 0 <= j < rows.len() implies #[trigger] out.deep_view()[j] == rows[j] by {
        lemma_row_view(out, j);
    }
}

/// Row `j` of a vector of character vectors, seen as a sequence.
pub(crate) proof fn lemma_row_view(rows: Vec<Vec<char>>, j: int)
    requires
        0 <= j < rows@.len(),
    ensures
        rows.deep_view()[j] == rows@[j]@,
{
}

/// Splits a text into its lines.
pub(crate) fn split_lines(text: &Vec<char>) -> (out: Vec<Vec<char>>)
    ensures
        out.deep_view() == lines(text@),
{
    let mut out: Vec<Vec<char>> = Vec::new();
    let mut current: Vec<char> = Vec::new();
    let mut i: usize = 0;
    let ghost mut done: Seq<Seq<char>> = Seq::empty();
    assert(text@.skip(0) =~= text@);
    while i < text.len()
        invariant
            i <= text.len(),
            out@.len() == done.len(),
            forall|j: int| 0 <= j < done.len() ==> (#[trigger] out@[j])@ == done[j],
            done + lines_after(text@.skip(i as int), current@) == lines(text@),
        decreases text.len() - i,
    {
        let c = text[i];
        let ghost rest = text@.skip(i as int);
        assert(rest.drop_first() =~= text@.skip(i + 1));
        if c == '\n' {
            let n: usize = current.len();
            if n > 0 && current[n - 1] == '\r' {
                current.pop();
            }
            let ghost line = current@;
            out.push(current);
            current = Vec::new();
            proof {
                done = done.push(line);
            }
        } else {
            current.push(c);
        }
        i += 1;
    }
    if current.len() > 0 {
        let ghost line = current@;
        out.push(current);
        proof {
            done = done.push(line);
        }
    }
    proof {
        lemma_rows_deep_view(out, done);
    }
    out
}

/// The lines of a string.
pub fn lines_of(text: &str) -> (out: Vec<String>)
    ensures
        out.deep_view() == lines(text@),
{
    let chars = chars_of(text);
    let parts = split_lines(&chars);
    let mut out: Vec<String> = Vec::new();
    let mut i: usize = 0;
    while i < parts.len()
        invariant
            i <= parts.len(),
            out.len() == i,
            forall|j: int| 0 <= j < i ==> (#[trigger] out@[j])@ == parts@[j]@,
        decreases parts.len() - i,
    {
        out.push(string_of(&parts[i]));
        i += 1;
    }
    assert forall|j: int| 0 <= j < parts@.len() implies #[trigger] out.deep_view()[j]
        == parts.deep_view()[j] by {
        lemma_row_view(parts, j);
    }
    out
}

/// A string without its leading and trailing whitespace.
pub fn trimmed(s: &str) -> (out: String)
    ensures
        out@ == trim(s@),
{
    let chars = chars_of(s);
    let (a, b) = trim_bounds(&chars, 0);
    assert(chars@.skip(0) =~= chars@);
    string_of_range(&chars, a, b)
}

/// Decides whether a string begins with `prefix`.
pub fn starts_with(s: &str, prefix: &str) -> (b: bool)
    ensures
        b == prefix@.is_prefix_of(s@),
{
    let a = chars_of(s);
    let p = chars_of(prefix);
    has_prefix(&a, &p)
}

} // verus!
