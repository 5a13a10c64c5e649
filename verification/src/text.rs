//! Text operations of the classifier: ASCII lower case, substring search and
//! decimal rendering, over strings seen as sequences of characters.

use vstd::prelude::*;
use vstd::string::StringExecFns;

verus! {

/// `c` with an ASCII capital replaced by its small letter.
pub open spec fn ascii_lower_char(c: char) -> char {
    if 'A' <= c <= 'Z' {
        (c as int + 32) as char
    } else {
        c
    }
}

/// `s` with every ASCII capital replaced by its small letter.
pub open spec fn ascii_lower(s: Seq<char>) -> Seq<char> {
    s.map_values(|c: char| ascii_lower_char(c))
}

/// `needle` stands in `haystack` from position `at` on.
pub open spec fn occurs_at(needle: Seq<char>, haystack: Seq<char>, at: int) -> bool {
    &&& 0 <= at
    &&& at + needle.len() <= haystack.len()
    &&& haystack.subrange(at, at + needle.len()) == needle
}

/// `needle` is a contiguous part of `haystack`.
pub open spec fn occurs_in(needle: Seq<char>, haystack: Seq<char>) -> bool {
    exists|at: int| occurs_at(needle, haystack, at)
}

/// The decimal digit of value `d`.
pub open spec fn digit(d: int) -> char
    recommends
        0 <= d < 10,
{
    ('0' as int + d) as char
}

/// The decimal digits of `n`, most significant first, without leading zeros.
pub open spec fn digits(n: nat) -> Seq<char>
    decreases n,
{
    if n < 10 {
        seq![digit(n as int)]
    } else {
        digits(n / 10).push(digit((n % 10) as int))
    }
}

/// `n` in decimal, with a minus sign where it is negative.
pub open spec fn decimal(n: int) -> Seq<char> {
    if n < 0 {
        seq!['-'] + digits((-n) as nat)
    } else {
        digits(n as nat)
    }
}

/// What occurs in a text occurs in every text around it.
pub(crate) proof fn lemma_occurs_in_larger(
    needle: Seq<char>,
    before: Seq<char>,
    haystack: Seq<char>,
    after: Seq<char>,
)
    requires
        occurs_in(needle, haystack),
    ensures
        occurs_in(needle, before + haystack + after),
{
    let at = choose|at: int| occurs_at(needle, haystack, at);
    let larger = before + haystack + after;
    let shifted = before.len() + at;
    assert(larger.subrange(shifted, shifted + needle.len()) =~= haystack.subrange(
        at,
        at + needle.len(),
    ));
    assert(occurs_at(needle, larger, shifted));
}

/// A text occurs in itself.
pub(crate) proof fn lemma_occurs_in_itself(s: Seq<char>)
    ensures
        occurs_in(s, s),
{
    assert(s.subrange(0, s.len() as int) =~= s);
    assert(occurs_at(s, s, 0));
}

/// Lower case is taken part by part.
pub(crate) proof fn lemma_ascii_lower_concat(a: Seq<char>, b: Seq<char>)
    ensures
        ascii_lower(a + b) == ascii_lower(a) + ascii_lower(b),
{
    assert(ascii_lower(a + b) =~= ascii_lower(a) + ascii_lower(b));
}

/// Digits have no capitals among them.
pub(crate) proof fn lemma_ascii_lower_digits(n: nat)
    ensures
        ascii_lower(digits(n)) == digits(n),
    decreases n,
{
    if n >= 10 {
        lemma_ascii_lower_digits(n / 10);
        let head = digits(n / 10);
        let tail = seq![digit((n % 10) as int)];
        assert(digits(n) =~= head + tail);
        lemma_ascii_lower_concat(head, tail);
        assert(ascii_lower(tail) =~= tail);
    } else {
        assert(ascii_lower(digits(n)) =~= digits(n));
    }
}

/// The characters of `s`, ASCII capitals made small.
pub fn ascii_lower_chars(s: &str) -> (lowered: Vec<char>)
    ensures
        lowered@ == ascii_lower(s@),
{
    let mut lowered: Vec<char> = Vec::new();
    for c in iter: s.chars()
        invariant
            iter.seq() == s@,
            lowered@ == ascii_lower(s@.take(iter.index() as int)),
    {
        let small = if 'A' <= c && c <= 'Z' {
            (c as u8 + 32) as char
        } else {
            c
        };
        lowered.push(small);
    }
    assert(s@.take(s@.len() as int) =~= s@);
    lowered
}

/// The characters of `s`.
fn chars_of(s: &str) -> (chars: Vec<char>)
    ensures
        chars@ == s@,
{
    let mut chars: Vec<char> = Vec::new();
    for c in iter: s.chars()
        invariant
            iter.seq() == s@,
            chars@ == s@.take(iter.index() as int),
    {
        chars.push(c);
    }
    assert(s@.take(s@.len() as int) =~= s@);
    chars
}

/// Does `needle` stand in `haystack` from position `at` on?
fn stands_at(needle: &Vec<char>, haystack: &Vec<char>, at: usize) -> (found: bool)
    requires
        at + needle@.len() <= haystack@.len(),
    ensures
        found == occurs_at(needle@, haystack@, at as int),
{
    let ghost part = haystack@.subrange(at as int, at + needle@.len());
    for i in 0..needle.len()
        invariant
            at + needle.len() <= haystack.len(),
            part == haystack@.subrange(at as int, at + needle@.len()),
            forall|j: int| 0 <= j < i ==> part[j] == needle@[j],
    {
        if haystack[at + i] != needle[i] {
            return false;
        }
    }
    assert(part =~= needle@);
    true
}

/// Is `needle` a contiguous part of `haystack`?
pub fn contains(haystack: &Vec<char>, needle: &str) -> (found: bool)
    ensures
        found == occurs_in(needle@, haystack@),
{
    let needle_chars = chars_of(needle);
    if needle_chars.len() > haystack.len() {
        return false;
    }
    let last: usize = haystack.len() - needle_chars.len();
    let mut at: usize = 0;
    while at < last
        invariant
            needle_chars@ == needle@,
            at <= last,
            last + needle@.len() == haystack@.len(),
            forall|i: int| 0 <= i < at ==> !occurs_at(needle@, haystack@, i),
        decreases last - at,
    {
        if stands_at(&needle_chars, haystack, at) {
            return true;
        }
        at += 1;
    }
    stands_at(&needle_chars, haystack, last)
}

/// The decimal digit of value `d`, as text.
fn digit_text(d: u32) -> (text: &'static str)
    requires
        d < 10,
    ensures
        text@ == seq![digit(d as int)],
{
    proof {
        reveal_strlit("0");
        reveal_strlit("1");
        reveal_strlit("2");
        reveal_strlit("3");
        reveal_strlit("4");
        reveal_strlit("5");
        reveal_strlit("6");
        reveal_strlit("7");
        reveal_strlit("8");
        reveal_strlit("9");
    }
    match d {
        0 => "0",
        1 => "1",
        2 => "2",
        3 => "3",
        4 => "4",
        5 => "5",
        6 => "6",
        7 => "7",
        8 => "8",
        _ => "9",
    }
}

/// The decimal digits of `n`, as text.
fn digits_text(n: u32) -> (text: String)
    ensures
        text@ == digits(n as nat),
    decreases n,
{
    if n < 10 {
        digit_text(n).to_owned()
    } else {
        let mut text = digits_text(n / 10);
        text.append(digit_text(n % 10));
        text
    }
}

/// `n` in decimal, as text.
pub fn decimal_text(n: i32) -> (text: String)
    ensures
        text@ == decimal(n as int),
{
    if n < 0 {
        proof {
            reveal_strlit("-");
        }
        let mut text = "-".to_owned();
        text.append(digits_text((-(n as i64)) as u32).as_str());
        text
    } else {
        digits_text(n as u32)
    }
}

/// Each of the 26 capitals, code points 65 to 90, becomes the small letter 32 code
/// points above it. Every other character stays as it is and where it is.
pub proof fn law_lower_case_moves_the_capitals_alone(s: &str, lowered: Vec<char>)
    requires
        call_ensures(ascii_lower_chars, (s,), lowered),
    ensures
        lowered@.len() == s@.len(),
        forall|i: int|
            0 <= i < s@.len() && 65 <= s@[i] as int <= 90 ==> (#[trigger] lowered@[i]) as int
                == s@[i] as int + 32,
        forall|i: int|
            0 <= i < s@.len() && !(65 <= s@[i] as int <= 90) ==> #[trigger] lowered@[i] == s@[i],
{
}

/// A text is found if and only if the other is made of something, that text and
/// something more.
pub proof fn law_found_if_and_only_if_the_text_splits_there(
    haystack: &Vec<char>,
    needle: &str,
    found: bool,
)
    requires
        call_ensures(contains, (haystack, needle), found),
    ensures
        found <==> exists|before: Seq<char>, after: Seq<char>|
            haystack@ == #[trigger] (before + needle@ + after),
{
    if found {
        let at = choose|at: int| occurs_at(needle@, haystack@, at);
        let before = haystack@.subrange(0, at);
        let after = haystack@.subrange(at + needle@.len(), haystack@.len() as int);
        assert(haystack@ =~= before + needle@ + after);
    }
    if exists|before: Seq<char>, after: Seq<char>|
        haystack@ == #[trigger] (before + needle@ + after) {
        let (before, after) = choose|before: Seq<char>, after: Seq<char>|
            haystack@ == #[trigger] (before + needle@ + after);
        lemma_occurs_in_itself(needle@);
        lemma_occurs_in_larger(needle@, before, needle@, after);
    }
}

/// A number of one digit is written as that digit, character 48 being zero, with a
/// minus sign, character 45, before it where it is negative.
pub proof fn law_one_digit_is_written_as_itself(n: i32, written: String)
    requires
        call_ensures(decimal_text, (n,), written),
        -10 < n < 10,
    ensures
        0 <= n ==> written@.len() == 1 && written@[0] as int == 48 + n,
        n < 0 ==> written@.len() == 2 && written@[0] as int == 45 && written@[1] as int == 48 - n,
{
}

/// A longer number is written as what its last digit leaves of it, then that digit.
pub proof fn law_the_last_digit_is_written_last(
    n: i32,
    rest: i32,
    last: int,
    written: String,
    rest_written: String,
)
    requires
        call_ensures(decimal_text, (n,), written),
        call_ensures(decimal_text, (rest,), rest_written),
        rest != 0,
        0 <= last < 10,
        n == 10 * rest + (if rest < 0 {
            -last
        } else {
            last
        }),
    ensures
        written@.len() == rest_written@.len() + 1,
        written@.drop_last() == rest_written@,
        written@.last() as int == 48 + last,
{
    let size: nat = if n < 0 {
        (-n) as nat
    } else {
        n as nat
    };
    let rest_size: nat = if rest < 0 {
        (-rest) as nat
    } else {
        rest as nat
    };
    assert(size == 10 * rest_size + last);
    assert(size / 10 == rest_size && size % 10 == last);
    assert(digits(size) == digits(rest_size).push(digit(last)));
    assert(written@.drop_last() =~= rest_written@);
}

} // verus!
