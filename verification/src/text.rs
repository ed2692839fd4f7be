//! Small operations on text: trimming a character off both ends, joining
//! parts with a separator, and writing a number in decimal.

use vstd::prelude::*;

verus! {

/// `text` without the run of `c` at its start.
pub open spec fn trim_start(text: Seq<char>, c: char) -> Seq<char>
    decreases text.len(),
{
    if text.len() > 0 && text[0] == c {
        trim_start(text.drop_first(), c)
    } else {
        text
    }
}

/// `text` without the run of `c` at its end.
pub open spec fn trim_end(text: Seq<char>, c: char) -> Seq<char>
    decreases text.len(),
{
    if text.len() > 0 && text.last() == c {
        trim_end(text.drop_last(), c)
    } else {
        text
    }
}

/// `text` without the runs of `c` at its start and at its end.
pub open spec fn trimmed(text: Seq<char>, c: char) -> Seq<char> {
    trim_end(trim_start(text, c), c)
}

/// The parts one after another, with `separator` between each two.
pub open spec fn joined(parts: Seq<Seq<char>>, separator: Seq<char>) -> Seq<char>
    decreases parts.len(),
{
    if parts.len() == 0 {
        Seq::empty()
    } else if parts.len() == 1 {
        parts[0]
    } else {
        joined(parts.drop_last(), separator) + separator + parts.last()
    }
}

/// The parts of `parts`, each as the text it holds.
pub open spec fn texts(parts: Seq<String>) -> Seq<Seq<char>> {
    parts.map_values(|part: String| part@)
}

/// Where the run of `c` at the start of `text` ends, what is left starts.
proof fn lemma_trim_start(text: Seq<char>, c: char, k: int)
    requires
        0 <= k <= text.len(),
        forall|i: int| 0 <= i < k ==> text[i] == c,
        k < text.len() ==> text[k] != c,
    ensures
        trim_start(text, c) == text.subrange(k, text.len() as int),
    decreases k,
{
    if k == 0 {
        assert(text.subrange(0, text.len() as int) == text);
    } else {
        let rest = text.drop_first();
        lemma_trim_start(rest, c, k - 1);
        assert(rest.subrange(k - 1, rest.len() as int) == text.subrange(k, text.len() as int));
    }
}

/// Where the run of `c` at the end of `text` starts, what is left ends.
proof fn lemma_trim_end(text: Seq<char>, c: char, k: int)
    requires
        0 <= k <= text.len(),
        forall|i: int| k <= i < text.len() ==> text[i] == c,
        k > 0 ==> text[k - 1] != c,
    ensures
        trim_end(text, c) == text.subrange(0, k),
    decreases text.len() - k,
{
    if k == text.len() {
        assert(text.subrange(0, k) == text);
    } else {
        let rest = text.drop_last();
        lemma_trim_end(rest, c, k);
        assert(rest.subrange(0, k) == text.subrange(0, k));
    }
}

/// Takes the run of `c` off the start and off the end of `text`.
pub fn trim_matches(text: &str, c: char) -> (rest: String)
    ensures
        rest@ == trimmed(text@, c),
{
    let len = text.unicode_len();
    let mut start: usize = 0;
    while start < len && text.get_char(start) == c
        invariant
            start <= len,
            len == text@.len(),
            forall|i: int| 0 <= i < start ==> text@[i] == c,
        decreases len - start,
    {
        start += 1;
    }
    let mut end: usize = len;
    while end > start && text.get_char(end - 1) == c
        invariant
            start <= end <= len,
            len == text@.len(),
            forall|i: int| end <= i < len ==> text@[i] == c,
        decreases end,
    {
        end -= 1;
    }
    proof {
        lemma_trim_start(text@, c, start as int);
        let tail = text@.subrange(start as int, len as int);
        lemma_trim_end(tail, c, end - start);
        assert(tail.subrange(0, end - start) == text@.subrange(start as int, end as int));
    }
    String::from_str(text.substring_char(start, end))
}

/// Puts the parts one after another, with `separator` between each two.
pub fn join(parts: &Vec<String>, separator: &str) -> (whole: String)
    ensures
        whole@ == joined(texts(parts@), separator@),
{
    let mut whole = String::new();
    let mut i: usize = 0;
    while i < parts.len()
        invariant
            i <= parts.len(),
            whole@ == joined(texts(parts@).take(i as int), separator@),
        decreases parts.len() - i,
    {
        assert(texts(parts@).take(i + 1).drop_last() == texts(parts@).take(i as int));
        if i > 0 {
            whole.append(separator);
        }
        whole.append(parts[i].as_str());
        i += 1;
    }
    assert(texts(parts@).take(i as int) == texts(parts@));
    whole
}

/// The character for the decimal digit `d`.
pub open spec fn digit(d: int) -> char {
    if d == 0 {
        '0'
    } else if d == 1 {
        '1'
    } else if d == 2 {
        '2'
    } else if d == 3 {
        '3'
    } else if d == 4 {
        '4'
    } else if d == 5 {
        '5'
    } else if d == 6 {
        '6'
    } else if d == 7 {
        '7'
    } else if d == 8 {
        '8'
    } else {
        '9'
    }
}

/// The decimal digits of `n`, the highest first, without leading zeros.
pub open spec fn digits(n: nat) -> Seq<char>
    decreases n,
{
    if n < 10 {
        seq![digit(n as int)]
    } else {
        digits(n / 10).push(digit((n % 10) as int))
    }
}

/// `n` in decimal, with a minus sign before a negative number.
pub open spec fn decimal(n: int) -> Seq<char> {
    if n < 0 {
        seq!['-'] + digits((-n) as nat)
    } else {
        digits(n as nat)
    }
}

/// The text of one decimal digit.
fn digit_text(d: u32) -> (text: &'static str)
    requires
        d < 10,
    ensures
        text@ == seq![digit(d as int)],
{
    proof {
        reveal_strlit("0");
        reveal_strlit("1");
        reveal_strlit("2");
        reveal_strlit("3");
        reveal_strlit("4");
        reveal_strlit("5");
        reveal_strlit("6");
        reveal_strlit("7");
        reveal_strlit("8");
        reveal_strlit("9");
    }
    let text = if d == 0 {
        "0"
    } else if d == 1 {
        "1"
    } else if d == 2 {
        "2"
    } else if d == 3 {
        "3"
    } else if d == 4 {
        "4"
    } else if d == 5 {
        "5"
    } else if d == 6 {
        "6"
    } else if d == 7 {
        "7"
    } else if d == 8 {
        "8"
    } else {
        "9"
    };
    assert(text@ =~= seq![digit(d as int)]);
    text
}

/// Writes the decimal digits of `n` behind what `out` holds.
fn push_digits(n: u32, out: &mut String)
    ensures
        final(out)@ == old(out)@ + digits(n as nat),
    decreases n,
{
    if n >= 10 {
        push_digits(n / 10, out);
    }
    out.append(digit_text(n % 10));
}

/// Writes `n` in decimal.
pub fn to_decimal(n: i32) -> (text: String)
    ensures
        text@ == decimal(n as int),
{
    let mut text = String::new();
    if n < 0 {
        proof {
            reveal_strlit("-");
        }
        text.append("-");
        assert(text@ =~= seq!['-']);
        let size: u32 = if n == i32::MIN {
            2147483648
        } else {
            (-n) as u32
        };
        push_digits(size, &mut text);
    } else {
        push_digits(n as u32, &mut text);
        assert(text@ =~= digits(n as nat));
    }
    text
}

/// `unit` written `times` times in a row.
pub open spec fn repeated(unit: Seq<char>, times: nat) -> Seq<char>
    decreases times,
{
    if times == 0 {
        Seq::empty()
    } else {
        repeated(unit, (times - 1) as nat) + unit
    }
}

/// Writes `unit` `times` times in a row.
pub fn repeat(unit: &str, times: usize) -> (text: String)
    ensures
        text@ == repeated(unit@, times as nat),
{
    let mut text = String::new();
    let mut i: usize = 0;
    while i < times
        invariant
            i <= times,
            text@ == repeated(unit@, i as nat),
        decreases times - i,
    {
        text.append(unit);
        i += 1;
    }
    text
}

} // verus!
