use vstd::prelude::*;
use vstd::string::*;

verus! {

/// The character of a decimal digit.
pub open spec fn digit_char(d: nat) -> char {
    if d == 0 { '0' }
    else if d == 1 { '1' }
    else if d == 2 { '2' }
    else if d == 3 { '3' }
    else if d == 4 { '4' }
    else if d == 5 { '5' }
    else if d == 6 { '6' }
    else if d == 7 { '7' }
    else if d == 8 { '8' }
    else { '9' }
}

/// The decimal notation of a natural number, most significant digit first,
/// without leading zeros.
pub open spec fn decimal(n: nat) -> Seq<char>
    decreases n,
{
    if n < 10 {
        seq![digit_char(n)]
    } else {
        decimal(n / 10).push(digit_char(n % 10))
    }
}

fn digit_str(d: u64) -> (s: &'static str)
    requires
        d < 10,
    ensures
        s@ == seq![digit_char(d as nat)],
{
    if d == 0 {
        proof { reveal_strlit("0"); }
        "0"
    } else if d == 1 {
        proof { reveal_strlit("1"); }
        "1"
    } else if d == 2 {
        proof { reveal_strlit("2"); }
        "2"
    } else if d == 3 {
        proof { reveal_strlit("3"); }
        "3"
    } else if d == 4 {
        proof { reveal_strlit("4"); }
        "4"
    } else if d == 5 {
        proof { reveal_strlit("5"); }
        "5"
    } else if d == 6 {
        proof { reveal_strlit("6"); }
        "6"
    } else if d == 7 {
        proof { reveal_strlit("7"); }
        "7"
    } else if d == 8 {
        proof { reveal_strlit("8"); }
        "8"
    } else {
        proof { reveal_strlit("9"); }
        "9"
    }
}

/// Appends the decimal notation of `n` to `out`.
pub fn push_decimal(out: &mut String, n: u64)
    ensures
        final(out)@ == old(out)@ + decimal(n as nat),
    decreases n,
{
    if n < 10 {
        out.append(digit_str(n));
    } else {
        push_decimal(out, n / 10);
        out.append(digit_str(n % 10));
    }
}


/// The decimal notation of an integer, with a leading minus sign when negative.
pub open spec fn signed_decimal(i: int) -> Seq<char> {
    if i < 0 {
        seq!['-'] + decimal((-i) as nat)
    } else {
        decimal(i as nat)
    }
}

/// Appends the decimal notation of a signed integer to `out`.
pub fn push_signed_decimal(out: &mut String, i: i64)
    ensures
        final(out)@ == old(out)@ + signed_decimal(i as int),
{
    if i < 0 {
        proof { reveal_strlit("-"); }
        out.append("-");
        let magnitude: u64 = (0i128 - (i as i128)) as u64;
        push_decimal(out, magnitude);
        assert(final(out)@ =~= old(out)@ + signed_decimal(i as int));
    } else {
        push_decimal(out, i as u64);
    }
}

/// The decimal notation of `n` as a new string.
pub fn decimal_string(n: u64) -> (s: String)
    ensures
        s@ == decimal(n as nat),
{
    let mut s = String::new();
    push_decimal(&mut s, n);
    assert(s@ =~= decimal(n as nat));
    s
}

/// The characters of a string slice, one by one.
pub fn chars_of(s: &str) -> (v: Vec<char>)
    ensures
        v@ == s@,
{
    let n = s.unicode_len();
    let mut v: Vec<char> = Vec::new();
    let mut i: usize = 0;
    while i < n
        invariant
            n == s@.len(),
            i <= n,
            v@ == s@.take(i as int),
        decreases n - i,
    {
        let c = s.get_char(i);
        v.push(c);
        i = i + 1;
        assert(v@ =~= s@.take(i as int));
    }
    assert(s@.take(n as int) =~= s@);
    v
}

/// Whether two strings hold the same characters.
pub fn str_eq(a: &str, b: &str) -> (r: bool)
    ensures
        r == (a@ == b@),
{
    let x = chars_of(a);
    let y = chars_of(b);
    if x.len() != y.len() {
        return false;
    }
    let mut i: usize = 0;
    while i < x.len()
        invariant
            x@ == a@,
            y@ == b@,
            x@.len() == y@.len(),
            i <= x@.len(),
            forall|k: int| 0 <= k < i ==> x@[k] == y@[k],
        decreases x@.len() - i,
    {
        if x[i] != y[i] {
            return false;
        }
        i = i + 1;
    }
    assert(a@ =~= b@);
    true
}

/// `suffix` is a suffix of `s`.
pub open spec fn has_suffix(s: Seq<char>, suffix: Seq<char>) -> bool {
    suffix.len() <= s.len() && s.subrange(s.len() - suffix.len(), s.len() as int) == suffix
}

/// Whether `s` ends with `suffix`.
pub fn ends_with(s: &str, suffix: &str) -> (r: bool)
    ensures
        r == has_suffix(s@, suffix@),
{
    let x = chars_of(s);
    let y = chars_of(suffix);
    if y.len() > x.len() {
        return false;
    }
    let off = x.len() - y.len();
    let mut i: usize = 0;
    while i < y.len()
        invariant
            x@ == s@,
            y@ == suffix@,
            y@.len() <= x@.len(),
            off == x@.len() - y@.len(),
            i <= y@.len(),
            x.len() == x@.len(),
            y.len() == y@.len(),
            forall|k: int| 0 <= k < i ==> x@[off + k] == y@[k],
        decreases y@.len() - i,
    {
        if x[off + i] != y[i] {
            assert(s@.subrange(off as int, s@.len() as int)[i as int] != suffix@[i as int]);
            return false;
        }
        i = i + 1;
    }
    assert(s@.subrange(off as int, s@.len() as int) =~= suffix@);
    true
}

/// `needle` occurs in `hay` at position `i`.
pub open spec fn occurs_at(hay: Seq<char>, needle: Seq<char>, i: int) -> bool {
    0 <= i && i + needle.len() <= hay.len() && hay.subrange(i, i + needle.len()) == needle
}

/// `needle` occurs somewhere in `hay` (the empty string occurs in every string).
pub open spec fn has_substring(hay: Seq<char>, needle: Seq<char>) -> bool {
    exists|i: int| occurs_at(hay, needle, i)
}

fn matches_at(x: &Vec<char>, y: &Vec<char>, start: usize) -> (r: bool)
    requires
        start + y@.len() <= x@.len(),
    ensures
        r == (x@.subrange(start as int, start + y@.len()) == y@),
{
    let mut k: usize = 0;
    while k < y.len()
        invariant
            start + y@.len() <= x@.len(),
            k <= y@.len(),
            x.len() == x@.len(),
            y.len() == y@.len(),
            forall|j: int| 0 <= j < k ==> x@[start + j] == y@[j],
        decreases y@.len() - k,
    {
        if x[start + k] != y[k] {
            assert(x@.subrange(start as int, start + y@.len())[k as int] != y@[k as int]);
            return false;
        }
        k = k + 1;
    }
    assert(x@.subrange(start as int, start + y@.len()) =~= y@);
    true
}

/// Whether `needle` occurs in `hay`.
pub fn contains(hay: &str, needle: &str) -> (r: bool)
    ensures
        r == has_substring(hay@, needle@),
{
    let x = chars_of(hay);
    let y = chars_of(needle);
    if y.len() > x.len() {
        assert forall|i: int| !occurs_at(hay@, needle@, i) by {}
        return false;
    }
    let last = x.len() - y.len();
    let mut i: usize = 0;
    while i <= last
        invariant
            x@ == hay@,
            y@ == needle@,
            y@.len() <= x@.len(),
            last == x@.len() - y@.len(),
            forall|j: int| 0 <= j < i ==> !occurs_at(hay@, needle@, j),
        decreases last + 1 - i,
    {
        if matches_at(&x, &y, i) {
            assert(occurs_at(hay@, needle@, i as int));
            return true;
        }
        if i == last {
            assert forall|j: int| !occurs_at(hay@, needle@, j) by {}
            return false;
        }
        i = i + 1;
    }
    false
}

/// `needle` occurs in `hay` at position `i`, each of its characters in either
/// of two forms: the one in `lower` or the one at the same place in `upper`.
pub open spec fn occurs_at_in_either_case(
    hay: Seq<char>,
    lower: Seq<char>,
    upper: Seq<char>,
    i: int,
) -> bool {
    &&& 0 <= i
    &&& i + lower.len() <= hay.len()
    &&& forall|j: int|
        0 <= j < lower.len() ==> #[trigger] hay[i + j] == lower[j] || hay[i + j] == upper[j]
}

/// The word spelt `lower` in small letters and `upper` in capitals occurs in
/// `hay`, in any mix of the two cases.
pub open spec fn has_word_in_either_case(hay: Seq<char>, lower: Seq<char>, upper: Seq<char>) -> bool {
    exists|i: int| occurs_at_in_either_case(hay, lower, upper, i)
}

fn matches_at_in_either_case(x: &Vec<char>, lo: &Vec<char>, up: &Vec<char>, start: usize) -> (r: bool)
    requires
        start + lo@.len() <= x@.len(),
        lo@.len() == up@.len(),
    ensures
        r == occurs_at_in_either_case(x@, lo@, up@, start as int),
{
    let mut k: usize = 0;
    while k < lo.len()
        invariant
            start + lo@.len() <= x@.len(),
            lo@.len() == up@.len(),
            k <= lo@.len(),
            x.len() == x@.len(),
            lo.len() == lo@.len(),
            up.len() == up@.len(),
            forall|j: int| 0 <= j < k ==> #[trigger] x@[start + j] == lo@[j] || x@[start + j] == up@[j],
        decreases lo@.len() - k,
    {
        let c = x[start + k];
        if c != lo[k] && c != up[k] {
            assert(!(x@[start + k as int] == lo@[k as int] || x@[start + k as int] == up@[k as int]));
            return false;
        }
        k = k + 1;
    }
    true
}

/// Whether the word spelt `lower` in small letters and `upper` in capitals
/// occurs in `hay`, in any mix of the two cases.
pub fn contains_in_either_case(hay: &str, lower: &str, upper: &str) -> (r: bool)
    requires
        lower@.len() == upper@.len(),
    ensures
        r == has_word_in_either_case(hay@, lower@, upper@),
{
    let x = chars_of(hay);
    let lo = chars_of(lower);
    let up = chars_of(upper);
    if lo.len() > x.len() {
        assert forall|i: int| !occurs_at_in_either_case(hay@, lower@, upper@, i) by {}
        return false;
    }
    let last = x.len() - lo.len();
    let mut i: usize = 0;
    while i <= last
        invariant
            x@ == hay@,
            lo@ == lower@,
            up@ == upper@,
            lo@.len() == up@.len(),
            lo@.len() <= x@.len(),
            last == x@.len() - lo@.len(),
            forall|j: int| 0 <= j < i ==> !occurs_at_in_either_case(hay@, lower@, upper@, j),
        decreases last + 1 - i,
    {
        if matches_at_in_either_case(&x, &lo, &up, i) {
            return true;
        }
        if i == last {
            assert forall|j: int| !occurs_at_in_either_case(hay@, lower@, upper@, j) by {}
            return false;
        }
        i = i + 1;
    }
    false
}

/// The characters that carry the Unicode White_Space property.
pub open spec fn is_white_space(c: char) -> bool {
    ||| ('\u{9}' <= c && c <= '\u{d}')
    ||| c == ' '
    ||| c == '\u{85}'
    ||| c == '\u{a0}'
    ||| c == '\u{1680}'
    ||| ('\u{2000}' <= c && c <= '\u{200a}')
    ||| c == '\u{2028}'
    ||| c == '\u{2029}'
    ||| c == '\u{202f}'
    ||| c == '\u{205f}'
    ||| c == '\u{3000}'
}

/// Whether `c` is a white-space character.
pub fn white_space(c: char) -> (r: bool)
    ensures
        r == is_white_space(c),
{
    ('\u{9}' <= c && c <= '\u{d}') || c == ' ' || c == '\u{85}' || c == '\u{a0}' || c == '\u{1680}'
        || ('\u{2000}' <= c && c <= '\u{200a}') || c == '\u{2028}' || c == '\u{2029}' || c
        == '\u{202f}' || c == '\u{205f}' || c == '\u{3000}'
}

/// `s` without its leading white space.
pub open spec fn trim_start(s: Seq<char>) -> Seq<char>
    decreases s.len(),
{
    if s.len() > 0 && is_white_space(s[0]) {
        trim_start(s.drop_first())
    } else {
        s
    }
}

/// `s` without its trailing white space.
pub open spec fn trim_end(s: Seq<char>) -> Seq<char>
    decreases s.len(),
{
    if s.len() > 0 && is_white_space(s.last()) {
        trim_end(s.drop_last())
    } else {
        s
    }
}

/// `s` without leading and trailing white space.
pub open spec fn trimmed(s: Seq<char>) -> Seq<char> {
    trim_end(trim_start(s))
}

/// The string `s` without leading and trailing white space.
pub fn trim(s: &str) -> (r: String)
    ensures
        r@ == trimmed(s@),
{
    let x = chars_of(s);
    let n = x.len();
    let mut a: usize = 0;
    assert(s@.subrange(0, n as int) =~= s@);
    while a < n && white_space(x[a])
        invariant
            x@ == s@,
            n == x@.len(),
            a <= n,
            trim_start(s@) == trim_start(s@.subrange(a as int, n as int)),
        decreases n - a,
    {
        assert(s@.subrange(a as int, n as int).drop_first() =~= s@.subrange(a + 1, n as int));
        a = a + 1;
    }
    assert(trim_start(s@.subrange(a as int, n as int)) == s@.subrange(a as int, n as int));
    let ghost t = s@.subrange(a as int, n as int);
    let mut b: usize = n;
    while b > a && white_space(x[b - 1])
        invariant
            x@ == s@,
            n == x@.len(),
            a <= b <= n,
            t == s@.subrange(a as int, n as int),
            trim_end(t) == trim_end(s@.subrange(a as int, b as int)),
        decreases b - a,
    {
        assert(s@.subrange(a as int, b as int).drop_last() =~= s@.subrange(a as int, b - 1));
        b = b - 1;
    }
    assert(trim_end(s@.subrange(a as int, b as int)) == s@.subrange(a as int, b as int));
    let piece = s.substring_char(a, b);
    piece.to_owned()
}

/// The pieces of `s` between occurrences of `sep`, in order; there is always at
/// least one piece, and two adjacent separators give an empty piece.
pub open spec fn split_on(s: Seq<char>, sep: char) -> Seq<Seq<char>>
    decreases s.len(),
{
    if s.len() == 0 {
        seq![Seq::<char>::empty()]
    } else {
        let rest = split_on(s.drop_last(), sep);
        if s.last() == sep {
            rest.push(Seq::<char>::empty())
        } else {
            rest.update(rest.len() - 1, rest.last().push(s.last()))
        }
    }
}

/// The views of a list of strings.
pub open spec fn views(v: Seq<String>) -> Seq<Seq<char>> {
    v.map_values(|p: String| p@)
}

proof fn lemma_split_step(s: Seq<char>, sep: char, prefix: Seq<Seq<char>>, start: int, i: int)
    requires
        0 <= start <= i < s.len(),
        prefix + seq![s.subrange(start, i)] == split_on(s.take(i), sep),
    ensures
        s[i] == sep ==> (prefix.push(s.subrange(start, i)) + seq![s.subrange(i + 1, i + 1)])
            == split_on(s.take(i + 1), sep),
        s[i] != sep ==> prefix + seq![s.subrange(start, i + 1)] == split_on(s.take(i + 1), sep),
{
    assert(s.take(i + 1).drop_last() =~= s.take(i));
    assert(s.take(i + 1).last() == s[i]);
    let rest = split_on(s.take(i), sep);
    assert(rest.len() == prefix.len() + 1);
    if s[i] == sep {
        assert(s.subrange(i + 1, i + 1) =~= Seq::<char>::empty());
        assert(prefix.push(s.subrange(start, i)) + seq![s.subrange(i + 1, i + 1)] =~= rest.push(
            Seq::<char>::empty(),
        ));
    } else {
        assert(rest.last() == s.subrange(start, i));
        assert(s.subrange(start, i).push(s[i]) =~= s.subrange(start, i + 1));
        assert(prefix + seq![s.subrange(start, i + 1)] =~= rest.update(
            rest.len() - 1,
            rest.last().push(s[i]),
        ));
    }
}

/// The pieces of `s` between occurrences of `sep`.
pub fn split(s: &str, sep: char) -> (pieces: Vec<String>)
    ensures
        views(pieces@) == split_on(s@, sep),
{
    let x = chars_of(s);
    let n = x.len();
    let mut pieces: Vec<String> = Vec::new();
    let mut start: usize = 0;
    let mut i: usize = 0;
    assert(s@.take(0) =~= Seq::<char>::empty());
    assert(s@.subrange(0, 0) =~= Seq::<char>::empty());
    assert(views(pieces@) + seq![s@.subrange(0, 0)] =~= split_on(s@.take(0), sep));
    while i < n
        invariant
            x@ == s@,
            n == x@.len(),
            start <= i <= n,
            views(pieces@) + seq![s@.subrange(start as int, i as int)] == split_on(
                s@.take(i as int),
                sep,
            ),
        decreases n - i,
    {
        let ghost before = views(pieces@);
        proof {
            lemma_split_step(s@, sep, before, start as int, i as int);
        }
        if x[i] == sep {
            let piece = s.substring_char(start, i);
            let owned = piece.to_owned();
            pieces.push(owned);
            assert(views(pieces@) =~= before.push(s@.subrange(start as int, i as int)));
            start = i + 1;
        }
        i = i + 1;
    }
    assert(s@.take(n as int) =~= s@);
    let last = s.substring_char(start, n);
    let ghost before = views(pieces@);
    pieces.push(last.to_owned());
    assert(views(pieces@) =~= before + seq![s@.subrange(start as int, n as int)]);
    pieces
}


/// What `str::to_lowercase` of std returns for a string with these characters.
pub uninterp spec fn lowercase(s: Seq<char>) -> Seq<char>;

/// Calls `str::to_lowercase` of std, which maps every character to its Unicode
/// lowercase form. The contract claims only that the result is a function of the
/// argument's characters (named `lowercase`); which characters come out is not stated.
#[verifier::external_body]
pub(crate) fn to_lowercase(s: &str) -> (r: String)
    ensures
        r@ == lowercase(s@),
{
    s.to_lowercase()
}

} // verus!
