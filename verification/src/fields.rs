//! Splitting a line of text into fields, after trimming white space.

use vstd::prelude::*;
use vstd::string::*;

verus! {

/// Whether a character is white space: the code points with the Unicode
/// property `White_Space`.
pub open spec fn is_space(c: char) -> bool {
    let n = c as u32;
    ||| 0x09 <= n <= 0x0D
    ||| n == 0x20
    ||| n == 0x85
    ||| n == 0xA0
    ||| n == 0x1680
    ||| 0x2000 <= n <= 0x200A
    ||| n == 0x2028
    ||| n == 0x2029
    ||| n == 0x202F
    ||| n == 0x205F
    ||| n == 0x3000
}

/// The number of white-space characters that `s` begins with.
pub open spec fn leading_spaces(s: Seq<char>) -> nat
    decreases s.len(),
{
    if s.len() > 0 && is_space(s[0]) {
        1 + leading_spaces(s.drop_first())
    } else {
        0
    }
}

/// The number of white-space characters that `s` ends with.
pub open spec fn trailing_spaces(s: Seq<char>) -> nat
    decreases s.len(),
{
    if s.len() > 0 && is_space(s.last()) {
        1 + trailing_spaces(s.drop_last())
    } else {
        0
    }
}

/// `s` without the white space that it begins and ends with.
pub open spec fn trimmed(s: Seq<char>) -> Seq<char> {
    let start = leading_spaces(s);
    if start == s.len() {
        Seq::empty()
    } else {
        s.subrange(start as int, s.len() - trailing_spaces(s))
    }
}

/// The fields of `s` between separators. A text without a separator is one
/// field, and a separator at either end borders an empty field.
pub open spec fn split_on(s: Seq<char>, sep: char) -> Seq<Seq<char>>
    decreases s.len(),
{
    if s.len() == 0 {
        seq![Seq::<char>::empty()]
    } else {
        let before = split_on(s.drop_last(), sep);
        if s.last() == sep {
            before.push(Seq::empty())
        } else {
            before.drop_last().push(before.last().push(s.last()))
        }
    }
}

/// The leading white space of `s` ends at `i` if everything before `i` is
/// white space and `i` is the end or no white space.
proof fn lemma_leading_spaces(s: Seq<char>, i: int)
    requires
        0 <= i <= s.len(),
        forall|j: int| 0 <= j < i ==> is_space(#[trigger] s[j]),
        i < s.len() ==> !is_space(s[i]),
    ensures
        leading_spaces(s) == i,
    decreases i,
{
    if i > 0 {
        let rest = s.drop_first();
        assert forall|j: int| 0 <= j < i - 1 implies is_space(#[trigger] rest[j]) by {
            assert(rest[j] == s[j + 1]);
        }
        if i < s.len() {
            assert(rest[i - 1] == s[i]);
        }
        lemma_leading_spaces(rest, i - 1);
    }
}

/// The trailing white space of `s` begins at `i` if everything from `i` on is
/// white space and the character before `i`, if any, is none.
proof fn lemma_trailing_spaces(s: Seq<char>, i: int)
    requires
        0 <= i <= s.len(),
        forall|j: int| i <= j < s.len() ==> is_space(#[trigger] s[j]),
        i > 0 ==> !is_space(s[i - 1]),
    ensures
        trailing_spaces(s) == s.len() - i,
    decreases s.len() - i,
{
    if i < s.len() {
        let rest = s.drop_last();
        assert forall|j: int| i <= j < rest.len() implies is_space(#[trigger] rest[j]) by {
            assert(rest[j] == s[j]);
        }
        if i > 0 {
            assert(rest[i - 1] == s[i - 1]);
        }
        lemma_trailing_spaces(rest, i);
    }
}

/// Whether a character is white space.
pub fn is_space_char(c: char) -> (space: bool)
    ensures
        space == is_space(c),
{
    let n: u32 = c as u32;
    (0x09 <= n && n <= 0x0D) || n == 0x20 || n == 0x85 || n == 0xA0 || n == 0x1680 || (0x2000 <= n
        && n <= 0x200A) || n == 0x2028 || n == 0x2029 || n == 0x202F || n == 0x205F || n == 0x3000
}

/// The characters of a string.
pub fn chars_of(s: &str) -> (chars: Vec<char>)
    ensures
        chars@ == s@,
{
    let n = s.unicode_len();
    let mut chars: Vec<char> = Vec::new();
    let mut i: usize = 0;
    while i < n
        invariant
            i <= n,
            n == s@.len(),
            chars@ == s@.take(i as int),
        decreases n - i,
    {
        chars.push(s.get_char(i));
        i = i + 1;
        assert(chars@ =~= s@.take(i as int));
    }
    assert(s@.take(n as int) =~= s@);
    chars
}

/// Removes leading and trailing white space and splits the rest on `sep`.
pub fn trim_and_split(line: &str, sep: char) -> (fields: Vec<String>)
    ensures
        fields.deep_view() == split_on(trimmed(line@), sep),
{
    let chars = chars_of(line);
    let n = chars.len();
    let mut start: usize = 0;
    while start < n && is_space_char(chars[start])
        invariant
            start <= n,
            n == chars@.len(),
            forall|j: int| 0 <= j < start ==> is_space(#[trigger] chars@[j]),
        decreases n - start,
    {
        start = start + 1;
    }
    proof {
        lemma_leading_spaces(chars@, start as int);
    }
    let mut end: usize = n;
    if start == n {
        end = start;
    } else {
        while end > start && is_space_char(chars[end - 1])
            invariant
                start <= end <= n,
                start < n,
                n == chars@.len(),
                !is_space(chars@[start as int]),
                forall|j: int| end <= j < n ==> is_space(#[trigger] chars@[j]),
            decreases end,
        {
            end = end - 1;
        }
        proof {
            lemma_trailing_spaces(chars@, end as int);
        }
    }
    let ghost text = chars@.subrange(start as int, end as int);
    assert(text =~= trimmed(line@));
    let mut fields: Vec<String> = Vec::new();
    let mut field_start: usize = start;
    let mut i: usize = start;
    assert(text.take(0) =~= Seq::<char>::empty());
    assert(chars@.subrange(start as int, start as int) =~= Seq::<char>::empty());
    assert(fields.deep_view().push(Seq::<char>::empty()) =~= seq![Seq::<char>::empty()]);
    while i < end
        invariant
            start <= field_start <= i <= end <= n,
            n == chars@.len(),
            chars@ == line@,
            text == chars@.subrange(start as int, end as int),
            split_on(text.take(i - start), sep) == fields.deep_view().push(
                chars@.subrange(field_start as int, i as int),
            ),
        decreases end - i,
    {
        let ghost before = text.take(i - start);
        let ghost after = text.take(i + 1 - start);
        assert(after.drop_last() =~= before);
        assert(after.last() == chars@[i as int]);
        let ghost done = fields.deep_view();
        let ghost part = chars@.subrange(field_start as int, i as int);
        if chars[i] == sep {
            let field = String::from_str(line.substring_char(field_start, i));
            fields.push(field);
            field_start = i + 1;
            assert(fields.deep_view() =~= done.push(part));
            assert(chars@.subrange(field_start as int, i + 1) =~= Seq::<char>::empty());
        } else {
            assert(done.push(part).drop_last() =~= done);
            assert(part.push(chars@[i as int]) =~= chars@.subrange(field_start as int, i + 1));
        }
        i = i + 1;
    }
    assert(text.take(end - start) =~= text);
    let ghost done = fields.deep_view();
    let last = String::from_str(line.substring_char(field_start, end));
    fields.push(last);
    assert(fields.deep_view() =~= done.push(chars@.subrange(field_start as int, end as int)));
    fields
}

} // verus!
