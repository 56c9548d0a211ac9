//! Scanning of command output: characters, blanks, lines and words.

use vstd::prelude::*;

verus! {

/// White space as Unicode defines it (the property `White_Space`).
pub open spec fn is_space(c: char) -> bool {
    let u = c as u32;
    ||| 0x09 <= u <= 0x0D
    ||| u == 0x20
    ||| u == 0x85
    ||| u == 0xA0
    ||| u == 0x1680
    ||| 0x2000 <= u <= 0x200A
    ||| u == 0x2028
    ||| u == 0x2029
    ||| u == 0x202F
    ||| u == 0x205F
    ||| u == 0x3000
}

/// Nothing but white space, or nothing at all.
pub open spec fn is_blank(s: Seq<char>) -> bool {
    forall|i: int| 0 <= i < s.len() ==> is_space(#[trigger] s[i])
}

/// Starting at `from`, the end of the run of characters that are white space
/// (`spaces`) or are not (`!spaces`); never beyond `to`.
pub open spec fn run_end(s: Seq<char>, from: int, to: int, spaces: bool) -> int
    decreases to - from,
{
    if from >= to {
        to
    } else if is_space(s[from]) != spaces {
        from
    } else {
        run_end(s, from + 1, to, spaces)
    }
}

/// Going back from `to`, the start of the run of characters that are white
/// space (`spaces`) or are not (`!spaces`); never before `from`.
pub open spec fn run_start(s: Seq<char>, from: int, to: int, spaces: bool) -> int
    decreases to - from,
{
    if to <= from {
        from
    } else if is_space(s[to - 1]) != spaces {
        to
    } else {
        run_start(s, from, to - 1, spaces)
    }
}

/// The position of the first line feed at or after `from`, or the length of
/// `s` where there is none.
pub open spec fn line_end(s: Seq<char>, from: int) -> int
    decreases s.len() - from,
{
    if from >= s.len() {
        s.len() as int
    } else if s[from] == '\n' {
        from
    } else {
        line_end(s, from + 1)
    }
}

/// A run ends within its bounds; all of it is white space, or none of it; and
/// where it ends before `to`, the next character is of the other kind.
pub proof fn lemma_run_end(s: Seq<char>, from: int, to: int, spaces: bool)
    requires
        0 <= from <= to <= s.len(),
    ensures
        from <= run_end(s, from, to, spaces) <= to,
        forall|k: int| from <= k < run_end(s, from, to, spaces) ==> is_space(#[trigger] s[k]) == spaces,
        run_end(s, from, to, spaces) < to ==> is_space(s[run_end(s, from, to, spaces)]) != spaces,
    decreases to - from,
{
    if from < to && is_space(s[from]) == spaces {
        lemma_run_end(s, from + 1, to, spaces);
    }
}

/// A run starts within its bounds; all of it is white space, or none of it;
/// and where it starts after `from`, the character before it is of the other
/// kind.
pub proof fn lemma_run_start(s: Seq<char>, from: int, to: int, spaces: bool)
    requires
        0 <= from <= to <= s.len(),
    ensures
        from <= run_start(s, from, to, spaces) <= to,
        forall|k: int| run_start(s, from, to, spaces) <= k < to ==> is_space(#[trigger] s[k]) == spaces,
        from < run_start(s, from, to, spaces) ==> is_space(s[run_start(s, from, to, spaces) - 1])
            != spaces,
    decreases to - from,
{
    if from < to && is_space(s[to - 1]) == spaces {
        lemma_run_start(s, from, to - 1, spaces);
    }
}

/// A line ends within the text, holds no line feed, and is followed by one
/// unless the text ends with it.
pub proof fn lemma_line_end_bounds(s: Seq<char>, from: int)
    requires
        0 <= from <= s.len(),
    ensures
        from <= line_end(s, from) <= s.len(),
        forall|k: int| from <= k < line_end(s, from) ==> #[trigger] s[k] != '\n',
        line_end(s, from) < s.len() ==> s[line_end(s, from)] == '\n',
    decreases s.len() - from,
{
    if from < s.len() && s[from] != '\n' {
        lemma_line_end_bounds(s, from + 1);
    }
}

/// The characters of `text`, one by one.
pub fn chars_of(text: &str) -> (chars: Vec<char>)
    ensures
        chars@ == text@,
{
    let mut chars: Vec<char> = Vec::new();
    for c in it: text.chars()
        invariant
            chars@ == it.seq().take(it.index() as int),
            it.seq() == text@,
    {
        chars.push(c);
    }
    chars
}

pub fn char_is_space(c: char) -> (space: bool)
    ensures
        space == is_space(c),
{
    let u: u32 = c as u32;
    (0x09 <= u && u <= 0x0D) || u == 0x20 || u == 0x85 || u == 0xA0 || u == 0x1680 || (0x2000 <= u
        && u <= 0x200A) || u == 0x2028 || u == 0x2029 || u == 0x202F || u == 0x205F || u == 0x3000
}

/// Whether `text` holds white space only.
pub fn text_is_blank(text: &str) -> (blank: bool)
    ensures
        blank == is_blank(text@),
{
    let chars = chars_of(text);
    let mut index: usize = 0;
    while index < chars.len()
        invariant
            index <= chars.len(),
            chars@ == text@,
            forall|i: int| 0 <= i < index ==> is_space(#[trigger] chars@[i]),
        decreases chars.len() - index,
    {
        if !char_is_space(chars[index]) {
            assert(!is_space(text@[index as int]));
            return false;
        }
        index = index + 1;
    }
    true
}

pub fn scan_run_end(chars: &Vec<char>, from: usize, to: usize, spaces: bool) -> (end: usize)
    requires
        from <= to <= chars.len(),
    ensures
        end == run_end(chars@, from as int, to as int, spaces),
        from <= end <= to,
{
    let mut index = from;
    while index < to && char_is_space(chars[index]) == spaces
        invariant
            from <= index <= to <= chars.len(),
            run_end(chars@, index as int, to as int, spaces) == run_end(
                chars@,
                from as int,
                to as int,
                spaces,
            ),
        decreases to - index,
    {
        index = index + 1;
    }
    index
}

pub fn scan_run_start(chars: &Vec<char>, from: usize, to: usize, spaces: bool) -> (start: usize)
    requires
        from <= to <= chars.len(),
    ensures
        start == run_start(chars@, from as int, to as int, spaces),
        from <= start <= to,
{
    let mut index = to;
    while index > from && char_is_space(chars[index - 1]) == spaces
        invariant
            from <= index <= to <= chars.len(),
            run_start(chars@, from as int, index as int, spaces) == run_start(
                chars@,
                from as int,
                to as int,
                spaces,
            ),
        decreases index - from,
    {
        index = index - 1;
    }
    index
}

pub fn scan_line_end(chars: &Vec<char>, from: usize) -> (end: usize)
    requires
        from <= chars.len(),
    ensures
        end == line_end(chars@, from as int),
        from <= end <= chars.len(),
{
    let mut index = from;
    while index < chars.len() && chars[index] != '\n'
        invariant
            from <= index <= chars.len(),
            line_end(chars@, index as int) == line_end(chars@, from as int),
        decreases chars.len() - index,
    {
        index = index + 1;
    }
    index
}

/// The decimal digit for `d`, which is below ten.
pub open spec fn digit(d: nat) -> char {
    if d == 0 {
        '0'
    } else if d == 1 {
        '1'
    } else if d == 2 {
        '2'
    } else if d == 3 {
        '3'
    } else if d == 4 {
        '4'
    } else if d == 5 {
        '5'
    } else if d == 6 {
        '6'
    } else if d == 7 {
        '7'
    } else if d == 8 {
        '8'
    } else {
        '9'
    }
}

/// `n` in decimal, without leading zeros.
pub open spec fn decimal(n: nat) -> Seq<char>
    decreases n,
{
    if n < 10 {
        seq![digit(n)]
    } else {
        decimal(n / 10).push(digit(n % 10))
    }
}

/// `v` in decimal, with a minus sign where it is negative.
pub open spec fn signed_decimal(v: int) -> Seq<char> {
    if v < 0 {
        seq!['-'] + decimal((-v) as nat)
    } else {
        decimal(v as nat)
    }
}

/// `parts` joined, with `separator` between each two.
pub open spec fn joined(parts: Seq<Seq<char>>, separator: Seq<char>) -> Seq<char>
    decreases parts.len(),
{
    if parts.len() == 0 {
        Seq::empty()
    } else if parts.len() == 1 {
        parts[0]
    } else {
        joined(parts.drop_last(), separator) + separator + parts.last()
    }
}

fn digit_text(d: u64) -> (text: &'static str)
    requires
        d < 10,
    ensures
        text@ == seq![digit(d as nat)],
{
    proof {
        reveal_strlit("0");
        reveal_strlit("1");
        reveal_strlit("2");
        reveal_strlit("3");
        reveal_strlit("4");
        reveal_strlit("5");
        reveal_strlit("6");
        reveal_strlit("7");
        reveal_strlit("8");
        reveal_strlit("9");
    }
    let text = if d == 0 {
        "0"
    } else if d == 1 {
        "1"
    } else if d == 2 {
        "2"
    } else if d == 3 {
        "3"
    } else if d == 4 {
        "4"
    } else if d == 5 {
        "5"
    } else if d == 6 {
        "6"
    } else if d == 7 {
        "7"
    } else if d == 8 {
        "8"
    } else {
        "9"
    };
    assert(text@ =~= seq![digit(d as nat)]);
    text
}

/// Appends `n` in decimal to `out`.
pub fn push_decimal(out: &mut String, n: u64)
    ensures
        final(out)@ == old(out)@ + decimal(n as nat),
    decreases n,
{
    if n >= 10 {
        push_decimal(out, n / 10);
    }
    out.append(digit_text(n % 10));
    assert(out@ =~= old(out)@ + decimal(n as nat));
}

/// Appends `v` in decimal to `out`, with a minus sign where it is negative.
pub fn push_signed_decimal(out: &mut String, v: i32)
    ensures
        final(out)@ == old(out)@ + signed_decimal(v as int),
{
    let wide: i64 = v as i64;
    if wide < 0 {
        proof {
            reveal_strlit("-");
        }
        out.append("-");
        push_decimal(out, (0 - wide) as u64);
        assert(out@ =~= old(out)@ + signed_decimal(v as int));
    } else {
        push_decimal(out, wide as u64);
    }
}

/// `parts` joined by single spaces or any other `separator`.
pub fn join(parts: &Vec<String>, separator: &str) -> (line: String)
    ensures
        line@ == joined(parts.deep_view(), separator@),
{
    let mut line = String::new();
    let mut index: usize = 0;
    while index < parts.len()
        invariant
            index <= parts.len(),
            line@ == joined(parts.deep_view().take(index as int), separator@),
        decreases parts.len() - index,
    {
        proof {
            let next = parts.deep_view().take(index + 1);
            assert(next.drop_last() =~= parts.deep_view().take(index as int));
            assert(next.last() == parts@[index as int]@);
        }
        if index > 0 {
            line.append(separator);
        }
        line.append(parts[index].as_str());
        proof {
            let next = parts.deep_view().take(index + 1);
            assert(line@ =~= joined(next, separator@));
        }
        index = index + 1;
    }
    assert(parts.deep_view().take(index as int) =~= parts.deep_view());
    line
}

} // verus!
