//! The HTTP password that the node daemon writes into its configuration file.
//!
//! The file is line-oriented text. The first line that begins with
//! `http-password=` carries the credential: what follows the key, without
//! surrounding whitespace. Every other line is ignored, and a file that is
//! missing, unreadable or without such a line yields the empty credential.

use crate::text::{
    chars_of, has_prefix, lemma_row_view, lines, split_lines, string_of_range, trim, trim_bounds,
};
use vstd::prelude::*;

verus! {

/// The key that introduces the credential.
pub open spec fn password_key() -> Seq<char> {
    "http-password="@
}

/// Whether a line carries the credential.
pub open spec fn is_password_line(line: Seq<char>) -> bool {
    password_key().is_prefix_of(line)
}

/// The credential that a password line carries.
pub open spec fn password_in_line(line: Seq<char>) -> Seq<char> {
    trim(line.skip(password_key().len() as int))
}

/// The credential found in a sequence of lines: that of the first password
/// line, or nothing.
pub open spec fn credential_in(lines: Seq<Seq<char>>) -> Seq<char>
    decreases lines.len(),
{
    if lines.len() == 0 {
        Seq::empty()
    } else if is_password_line(lines[0]) {
        password_in_line(lines[0])
    } else {
        credential_in(lines.drop_first())
    }
}

/// The credential in the content of a configuration file; `None` stands for a
/// file that is missing or could not be read.
pub open spec fn credential_of(content: Option<Seq<char>>) -> Seq<char> {
    match content {
        Some(text) => credential_in(lines(text)),
        None => Seq::empty(),
    }
}

/// The first password line decides: lines before it are ignored because they
/// carry no key, lines after it because the scan has ended.
pub proof fn lemma_first_password_line_wins(lines: Seq<Seq<char>>, i: int)
    requires
        0 <= i < lines.len(),
        is_password_line(lines[i]),
        forall|j: int| 0 <= j < i ==> !is_password_line(#[trigger] lines[j]),
    ensures
        credential_in(lines) == password_in_line(lines[i]),
    decreases i,
{
    if i > 0 {
        let rest = lines.drop_first();
        assert forall|j: int| 0 <= j < i - 1 implies !is_password_line(#[trigger] rest[j]) by {
            assert(rest[j] == lines[j + 1]);
        }
        lemma_first_password_line_wins(rest, i - 1);
    }
}

/// Without a password line the credential is empty.
pub proof fn lemma_no_password_line(lines: Seq<Seq<char>>)
    requires
        forall|j: int| 0 <= j < lines.len() ==> !is_password_line(#[trigger] lines[j]),
    ensures
        credential_in(lines) == Seq::<char>::empty(),
    decreases lines.len(),
{
    if lines.len() > 0 {
        let rest = lines.drop_first();
        assert forall|j: int| 0 <= j < rest.len() implies !is_password_line(#[trigger] rest[j]) by {
            assert(rest[j] == lines[j + 1]);
        }
        lemma_no_password_line(rest);
    }
}

/// Extracts the credential from the content of the configuration file. The
/// caller passes `None` when the file is missing or unreadable; this lookup
/// never fails.
pub fn read_credential(content: Option<&str>) -> (out: String)
    ensures
        out@ == credential_of(
            match content {
                Some(text) => Some(text@),
                None => None,
            },
        ),
{
    let text = match content {
        Some(text) => text,
        None => {
            return String::new();
        },
    };
    let chars = chars_of(text);
    let rows = split_lines(&chars);
    let key = chars_of("http-password=");
    let mut i: usize = 0;
    assert(lines(text@).skip(0) =~= lines(text@));
    while i < rows.len()
        invariant
            i <= rows.len(),
            content == Some(text),
            key@ == password_key(),
            rows.deep_view() == lines(text@),
            credential_in(lines(text@)) == credential_in(lines(text@).skip(i as int)),
        decreases rows.len() - i,
    {
        let row = &rows[i];
        proof {
            lemma_row_view(rows, i as int);
            assert(lines(text@).skip(i as int).drop_first() =~= lines(text@).skip(i + 1));
        }
        if has_prefix(row, &key) {
            let (a, b) = trim_bounds(row, key.len());
            return string_of_range(row, a, b);
        }
        i += 1;
    }
    String::new()
}

} // verus!
