//! Text building blocks shared by the renderers.

use vstd::prelude::*;
use vstd::string::*;

verus! {

/// The texts held by a sequence of strings.
pub open spec fn strings_view(v: Seq<String>) -> Seq<Seq<char>> {
    Seq::new(v.len(), |i: int| v[i]@)
}

/// `parts` written one after another with `sep` between neighbours.
pub open spec fn join_seq(parts: Seq<Seq<char>>, sep: Seq<char>) -> Seq<char>
    decreases parts.len(),
{
    if parts.len() == 0 {
        Seq::empty()
    } else if parts.len() == 1 {
        parts[0]
    } else {
        join_seq(parts.drop_last(), sep) + sep + parts.last()
    }
}

/// Calls `itertools::Itertools::join` on the strings of `parts`.
///
/// Trusted: the result is the first string followed, for every further
/// string, by `sep` and that string; on no strings it is empty. Each element
/// is written through `Display`, which for `String` writes its text.
#[verifier::external_body]
pub(crate) fn join_strings(parts: &Vec<String>, sep: &str) -> (r: String)
    ensures
        r@ == join_seq(strings_view(parts@), sep@),
{
    itertools::Itertools::join(&mut parts.iter(), sep)
}

/// `String::push` appends one character.
pub assume_specification[ String::push ](s: &mut String, c: char)
    ensures
        final(s)@ == old(s)@.push(c),
;

/// The character of the decimal digit `d`.
pub open spec fn digit_char(d: nat) -> char
    recommends
        d < 10,
{
    (48 + d) as char
}

/// Decimal notation of a natural number, without leading zeros.
pub open spec fn decimal(n: nat) -> Seq<char>
    decreases n,
{
    if n < 10 {
        seq![digit_char(n)]
    } else {
        decimal(n / 10).push(digit_char(n % 10))
    }
}

/// The decimal notation of a number has a first digit, and a second one from
/// ten on.
pub proof fn lemma_decimal_len(n: nat)
    ensures
        decimal(n).len() >= 1,
        n >= 10 ==> decimal(n).len() >= 2,
    decreases n,
{
    if n >= 10 {
        lemma_decimal_len(n / 10);
    }
}

/// Different numbers are written differently.
pub proof fn lemma_decimal_is_injective(a: nat, b: nat)
    requires
        decimal(a) == decimal(b),
    ensures
        a == b,
    decreases a,
{
    lemma_decimal_len(a);
    lemma_decimal_len(b);
    if a < 10 && b < 10 {
        assert(decimal(a)[0] == digit_char(a));
        assert(decimal(b)[0] == digit_char(b));
        assert(digit_char(a) as int == 48 + a);
        assert(digit_char(b) as int == 48 + b);
    } else if a >= 10 && b >= 10 {
        let x = decimal(a / 10);
        let y = decimal(b / 10);
        assert(decimal(a).last() == digit_char(a % 10));
        assert(decimal(b).last() == digit_char(b % 10));
        assert(digit_char(a % 10) as int == 48 + a % 10);
        assert(digit_char(b % 10) as int == 48 + b % 10);
        assert(x =~= decimal(a).drop_last());
        assert(y =~= decimal(b).drop_last());
        lemma_decimal_is_injective(a / 10, b / 10);
    } else {
        assert(decimal(a).len() != decimal(b).len());
    }
}

/// Decimal notation of an integer, with `-` in front of a negative one.
pub open spec fn signed_decimal(n: int) -> Seq<char> {
    if n < 0 {
        seq!['-'] + decimal((-n) as nat)
    } else {
        decimal(n as nat)
    }
}

fn digit_to_char(d: u8) -> (c: char)
    requires
        d < 10,
    ensures
        c == digit_char(d as nat),
{
    (48u8 + d) as char
}

/// Writes `n` in decimal notation.
pub fn u128_to_string(n: u128) -> (r: String)
    ensures
        r@ == decimal(n as nat),
    decreases n,
{
    if n < 10 {
        let mut r = String::new();
        r.push(digit_to_char(n as u8));
        assert(r@ =~= seq![digit_char(n as nat)]);
        r
    } else {
        let mut r = u128_to_string(n / 10);
        r.push(digit_to_char((n % 10) as u8));
        r
    }
}

/// Writes `n` in decimal notation.
pub fn u64_to_string(n: u64) -> (r: String)
    ensures
        r@ == decimal(n as nat),
{
    u128_to_string(n as u128)
}

/// Writes `n` in decimal notation, with a leading `-` when it is negative.
pub fn i64_to_string(n: i64) -> (r: String)
    ensures
        r@ == signed_decimal(n as int),
{
    if n >= 0 {
        u64_to_string(n as u64)
    } else {
        let magnitude: u64 = if n == i64::MIN {
            9223372036854775808u64
        } else {
            (-n) as u64
        };
        let digits = u64_to_string(magnitude);
        let mut r = String::new();
        r.push('-');
        r.append(digits.as_str());
        assert(r@ =~= seq!['-'] + decimal((-n) as nat));
        r
    }
}

/// Copies a list of strings.
pub fn clone_strings(v: &Vec<String>) -> (r: Vec<String>)
    ensures
        strings_view(r@) == strings_view(v@),
        r@.len() == v@.len(),
{
    let mut r: Vec<String> = Vec::new();
    let mut i: usize = 0;
    while i < v.len()
        invariant
            i <= v.len(),
            r.len() == i,
            forall|j: int| 0 <= j < i ==> r[j]@ == v[j]@,
        decreases v.len() - i,
    {
        r.push(v[i].clone());
        i += 1;
    }
    assert(strings_view(r@) =~= strings_view(v@));
    r
}

/// Whether two lists of strings hold the same texts in the same order.
pub fn same_strings(a: &Vec<String>, b: &Vec<String>) -> (r: bool)
    ensures
        r == (strings_view(a@) == strings_view(b@)),
{
    if a.len() != b.len() {
        assert(strings_view(a@).len() != strings_view(b@).len());
        return false;
    }
    let mut i: usize = 0;
    while i < a.len()
        invariant
            i <= a.len(),
            a.len() == b.len(),
            forall|j: int| 0 <= j < i ==> a[j]@ == b[j]@,
        decreases a.len() - i,
    {
        if a[i] != b[i] {
            assert(strings_view(a@)[i as int] != strings_view(b@)[i as int]);
            return false;
        }
        i += 1;
    }
    assert(strings_view(a@) =~= strings_view(b@));
    true
}


/// The characters of a string.
pub fn to_chars(s: &str) -> (r: Vec<char>)
    ensures
        r@ == s@,
{
    let mut r: Vec<char> = Vec::new();
    for c in it: s.chars()
        invariant
            it.seq() == s@,
            r@ == s@.subrange(0, it.index() as int),
    {
        let ghost before = r@;
        r.push(c);
        assert(r@ =~= s@.subrange(0, it.index() + 1));
    }
    assert(r@ =~= s@);
    r
}

/// The string made of the characters `chars[from..to]`.
pub fn string_of(chars: &Vec<char>, from: usize, to: usize) -> (r: String)
    requires
        from <= to <= chars.len(),
    ensures
        r@ == chars@.subrange(from as int, to as int),
{
    let mut r = String::new();
    let mut i: usize = from;
    while i < to
        invariant
            from <= i <= to <= chars.len(),
            r@ == chars@.subrange(from as int, i as int),
        decreases to - i,
    {
        r.push(chars[i]);
        assert(r@ =~= chars@.subrange(from as int, i + 1));
        i += 1;
    }
    r
}

/// Whether `pat` stands in `s` at position `i`.
pub open spec fn matches_at(s: Seq<char>, i: int, pat: Seq<char>) -> bool {
    0 <= i && i + pat.len() <= s.len() && s.subrange(i, i + pat.len()) == pat
}

/// The first position at or after `start` where `pat` stands in `s`.
pub open spec fn first_match_from(s: Seq<char>, start: int, pat: Seq<char>) -> Option<int>
    decreases s.len() - start,
{
    if start < 0 || start + pat.len() > s.len() {
        None
    } else if matches_at(s, start, pat) {
        Some(start)
    } else if start >= s.len() {
        None
    } else {
        first_match_from(s, start + 1, pat)
    }
}

/// `first_match_from` finds a position where the pattern stands, and no
/// position between `start` and that one has it; where it finds none there
/// is none.
pub proof fn lemma_first_match(s: Seq<char>, start: int, pat: Seq<char>)
    requires
        0 <= start,
    ensures
        match first_match_from(s, start, pat) {
            Some(i) => start <= i && matches_at(s, i, pat) && forall|j: int|
                start <= j < i ==> !matches_at(s, j, pat),
            None => forall|j: int| start <= j ==> !matches_at(s, j, pat),
        },
    decreases s.len() - start,
{
    if start + pat.len() > s.len() {
    } else if matches_at(s, start, pat) {
    } else if start >= s.len() {
    } else {
        lemma_first_match(s, start + 1, pat);
    }
}

/// The pieces of `s` from `start` on that lie between the occurrences of
/// `sep`, found from left to right without overlap. An empty separator
/// separates nothing.
pub open spec fn split_from(s: Seq<char>, start: int, sep: Seq<char>) -> Seq<Seq<char>>
    decreases s.len() - start,
{
    match first_match_from(s, start, sep) {
        Some(i) => if sep.len() > 0 && start <= i && i + sep.len() <= s.len() {
            seq![s.subrange(start, i)] + split_from(s, i + sep.len(), sep)
        } else {
            seq![s.subrange(start, s.len() as int)]
        },
        None => seq![s.subrange(start, s.len() as int)],
    }
}

/// The pieces of `s` that lie between the occurrences of `sep`.
pub open spec fn split_seq(s: Seq<char>, sep: Seq<char>) -> Seq<Seq<char>> {
    split_from(s, 0, sep)
}

/// `s` from `start` on with every occurrence of `from`, found from left to
/// right without overlap, replaced by `to`. An empty `from` occurs nowhere.
pub open spec fn replace_from(s: Seq<char>, start: int, from: Seq<char>, to: Seq<char>) -> Seq<char>
    decreases s.len() - start,
{
    match first_match_from(s, start, from) {
        Some(i) => if from.len() > 0 && start <= i && i + from.len() <= s.len() {
            s.subrange(start, i) + to + replace_from(s, i + from.len(), from, to)
        } else {
            s.subrange(start, s.len() as int)
        },
        None => s.subrange(start, s.len() as int),
    }
}

/// `s` with every occurrence of `from` replaced by `to`.
pub open spec fn replace_seq(s: Seq<char>, from: Seq<char>, to: Seq<char>) -> Seq<char> {
    replace_from(s, 0, from, to)
}

/// Whether `s` begins with `prefix`.
pub open spec fn starts_with_seq(s: Seq<char>, prefix: Seq<char>) -> bool {
    matches_at(s, 0, prefix)
}

/// Whether `pat` stands in `s` at position `i`.
pub fn has_at(s: &Vec<char>, i: usize, pat: &Vec<char>) -> (r: bool)
    ensures
        r == matches_at(s@, i as int, pat@),
{
    if pat.len() > s.len() || i > s.len() - pat.len() {
        return false;
    }
    let mut k: usize = 0;
    while k < pat.len()
        invariant
            k <= pat.len(),
            i + pat.len() <= s.len(),
            forall|j: int| 0 <= j < k ==> s[i + j] == pat[j],
        decreases pat.len() - k,
    {
        if s[i + k] != pat[k] {
            assert(s@.subrange(i as int, i + pat.len())[k as int] != pat@[k as int]);
            return false;
        }
        k += 1;
    }
    assert(s@.subrange(i as int, i + pat.len()) =~= pat@);
    true
}

/// The first position at or after `start` where `pat` stands in `s`.
pub fn find_from(s: &Vec<char>, start: usize, pat: &Vec<char>) -> (r: Option<usize>)
    ensures
        match r {
            Some(i) => first_match_from(s@, start as int, pat@) == Some(i as int),
            None => first_match_from(s@, start as int, pat@) is None,
        },
{
    if pat.len() > s.len() {
        return None;
    }
    let mut i: usize = start;
    while i <= s.len() - pat.len()
        invariant
            start <= i,
            pat.len() <= s.len(),
            first_match_from(s@, start as int, pat@) == first_match_from(s@, i as int, pat@),
        decreases s.len() - i,
    {
        if has_at(s, i, pat) {
            return Some(i);
        }
        if i >= s.len() {
            return None;
        }
        i += 1;
    }
    None
}

/// Splits `text` at every occurrence of `sep`. An empty separator separates
/// nothing: the text comes back as the one piece.
pub fn split_text(text: &str, sep: &str) -> (r: Vec<String>)
    ensures
        strings_view(r@) == split_seq(text@, sep@),
{
    let s = to_chars(text);
    let pat = to_chars(sep);
    let mut r: Vec<String> = Vec::new();
    if pat.len() == 0 {
        r.push(string_of(&s, 0, s.len()));
        assert(strings_view(r@) =~= seq![s@.subrange(0, s.len() as int)]);
        return r;
    }
    let mut start: usize = 0;
    loop
        invariant
            start <= s.len(),
            pat.len() > 0,
            s@ == text@,
            pat@ == sep@,
            split_seq(text@, sep@) == strings_view(r@) + split_from(s@, start as int, pat@),
        decreases s.len() - start,
    {
        let ghost before = strings_view(r@);
        proof {
            lemma_first_match(s@, start as int, pat@);
        }
        match find_from(&s, start, &pat) {
            Some(i) => {
                r.push(string_of(&s, start, i));
                assert(strings_view(r@) =~= before + seq![s@.subrange(start as int, i as int)]);
                assert(before + (seq![s@.subrange(start as int, i as int)] + split_from(
                    s@,
                    i + pat.len(),
                    pat@,
                )) =~= strings_view(r@) + split_from(s@, i + pat.len(), pat@));
                start = i + pat.len();
            },
            None => {
                r.push(string_of(&s, start, s.len()));
                assert(strings_view(r@) =~= before + seq![s@.subrange(start as int, s.len() as int)]);
                return r;
            },
        }
    }
}

/// Replaces every occurrence of `from` in `text` by `to`. An empty `from`
/// occurs nowhere: the text comes back as it is.
pub fn replace_text(text: &str, from: &str, to: &str) -> (r: String)
    ensures
        r@ == replace_seq(text@, from@, to@),
{
    let s = to_chars(text);
    let pat = to_chars(from);
    if pat.len() == 0 {
        return string_of(&s, 0, s.len());
    }
    let mut r = String::new();
    let mut start: usize = 0;
    loop
        invariant
            start <= s.len(),
            pat.len() > 0,
            s@ == text@,
            pat@ == from@,
            replace_seq(text@, from@, to@) == r@ + replace_from(s@, start as int, pat@, to@),
        decreases s.len() - start,
    {
        let ghost before = r@;
        proof {
            lemma_first_match(s@, start as int, pat@);
        }
        match find_from(&s, start, &pat) {
            Some(i) => {
                let piece = string_of(&s, start, i);
                r.append(piece.as_str());
                r.append(to);
                assert(before + (s@.subrange(start as int, i as int) + to@ + replace_from(
                    s@,
                    i + pat.len(),
                    pat@,
                    to@,
                )) =~= r@ + replace_from(s@, i + pat.len(), pat@, to@));
                start = i + pat.len();
            },
            None => {
                let piece = string_of(&s, start, s.len());
                r.append(piece.as_str());
                return r;
            },
        }
    }
}

/// Whether `text` begins with `prefix`.
pub fn text_starts_with(text: &str, prefix: &str) -> (r: bool)
    ensures
        r == starts_with_seq(text@, prefix@),
{
    let s = to_chars(text);
    let pat = to_chars(prefix);
    has_at(&s, 0, &pat)
}

} // verus!
