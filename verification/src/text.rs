//! Text building blocks with exact specifications: decimal rendering of
//! integers, joining, repetition, whitespace trimming and equality.

use vstd::prelude::*;

verus! {

/// The character of a decimal digit.
pub open spec fn digit_char(d: nat) -> char {
    if d == 0 { '0' }
    else if d == 1 { '1' }
    else if d == 2 { '2' }
    else if d == 3 { '3' }
    else if d == 4 { '4' }
    else if d == 5 { '5' }
    else if d == 6 { '6' }
    else if d == 7 { '7' }
    else if d == 8 { '8' }
    else { '9' }
}

/// The decimal text of a natural number, without leading zeros.
pub open spec fn decimal(n: nat) -> Seq<char>
    decreases n,
{
    if n < 10 {
        seq![digit_char(n)]
    } else {
        decimal(n / 10).push(digit_char(n % 10))
    }
}

/// The decimal text of an integer, with a leading minus sign when negative.
pub open spec fn int_text(i: int) -> Seq<char> {
    if i < 0 {
        seq!['-'] + decimal((-i) as nat)
    } else {
        decimal(i as nat)
    }
}

fn digit_str(d: u64) -> (r: &'static str)
    requires
        d < 10,
    ensures
        r@ == seq![digit_char(d as nat)],
{
    proof {
        reveal_strlit("0");
        reveal_strlit("1");
        reveal_strlit("2");
        reveal_strlit("3");
        reveal_strlit("4");
        reveal_strlit("5");
        reveal_strlit("6");
        reveal_strlit("7");
        reveal_strlit("8");
        reveal_strlit("9");
    }
    if d == 0 { "0" }
    else if d == 1 { "1" }
    else if d == 2 { "2" }
    else if d == 3 { "3" }
    else if d == 4 { "4" }
    else if d == 5 { "5" }
    else if d == 6 { "6" }
    else if d == 7 { "7" }
    else if d == 8 { "8" }
    else { "9" }
}

/// Decimal text of an unsigned 64-bit integer.
pub fn u64_text(n: u64) -> (r: String)
    ensures
        r@ == decimal(n as nat),
    decreases n,
{
    if n < 10 {
        String::from_str(digit_str(n))
    } else {
        let mut s = u64_text(n / 10);
        s.append(digit_str(n % 10));
        s
    }
}

/// Decimal text of a machine-sized unsigned integer.
pub fn usize_text(n: usize) -> (r: String)
    ensures
        r@ == decimal(n as nat),
{
    u64_text(n as u64)
}

/// Decimal text of a signed 64-bit integer.
pub fn i64_text(n: i64) -> (r: String)
    ensures
        r@ == int_text(n as int),
{
    if n < 0 {
        let m: u64 = if n == i64::MIN { 9223372036854775808u64 } else { (-n) as u64 };
        let digits = u64_text(m);
        let mut s = String::from_str("-");
        proof { reveal_strlit("-"); }
        s.append(digits.as_str());
        s
    } else {
        u64_text(n as u64)
    }
}

/// The concatenation of `list`, with `sep` between neighbours.
pub open spec fn seq_join(list: Seq<Seq<char>>, sep: Seq<char>) -> Seq<char>
    decreases list.len(),
{
    if list.len() == 0 {
        Seq::empty()
    } else if list.len() == 1 {
        list[0]
    } else {
        seq_join(list.drop_last(), sep) + sep + list.last()
    }
}

/// The views of a vector of strings.
pub open spec fn views(list: Seq<String>) -> Seq<Seq<char>> {
    list.map_values(|s: String| s@)
}

/// Joins strings with a separator.
pub fn join(list: &Vec<String>, sep: &str) -> (r: String)
    ensures
        r@ == seq_join(views(list@), sep@),
{
    let mut res = String::new();
    let ghost vs = views(list@);
    let n = list.len();
    let mut i: usize = 0;
    while i < n
        invariant
            n == list@.len(),
            vs == views(list@),
            i <= n,
            res@ == seq_join(vs.take(i as int), sep@),
        decreases n - i,
    {
        assert(vs.take((i + 1) as int).drop_last() =~= vs.take(i as int));
        if i != 0 {
            res.append(sep);
        }
        res.append(list[i].as_str());
        i = i + 1;
    }
    assert(vs.take(n as int) =~= vs);
    res
}

/// `n` copies of `s`, one after another.
pub open spec fn repeat(s: Seq<char>, n: nat) -> Seq<char>
    decreases n,
{
    if n == 0 {
        Seq::empty()
    } else {
        repeat(s, (n - 1) as nat) + s
    }
}

/// Repeats a string `n` times.
pub fn repeat_str(s: &str, n: usize) -> (r: String)
    ensures
        r@ == repeat(s@, n as nat),
{
    let mut res = String::new();
    let mut i: usize = 0;
    while i < n
        invariant
            i <= n,
            res@ == repeat(s@, i as nat),
        decreases n - i,
    {
        res.append(s);
        i = i + 1;
    }
    res
}

/// The characters that Unicode classifies as white space.
pub open spec fn is_ws(c: char) -> bool {
    ||| '\u{9}' <= c <= '\u{d}'
    ||| c == ' '
    ||| c == '\u{85}'
    ||| c == '\u{a0}'
    ||| c == '\u{1680}'
    ||| '\u{2000}' <= c <= '\u{200a}'
    ||| c == '\u{2028}'
    ||| c == '\u{2029}'
    ||| c == '\u{202f}'
    ||| c == '\u{205f}'
    ||| c == '\u{3000}'
}

/// Whether a character is white space.
pub fn char_is_ws(c: char) -> (r: bool)
    ensures
        r == is_ws(c),
{
    ('\u{9}' <= c && c <= '\u{d}') || c == ' ' || c == '\u{85}' || c == '\u{a0}' || c == '\u{1680}'
        || ('\u{2000}' <= c && c <= '\u{200a}') || c == '\u{2028}' || c == '\u{2029}'
        || c == '\u{202f}' || c == '\u{205f}' || c == '\u{3000}'
}

/// `t` is `s` without its leading and trailing white space.
pub open spec fn is_trim_of(t: Seq<char>, s: Seq<char>) -> bool {
    exists|a: int, b: int|
        {
            &&& 0 <= a <= b <= s.len()
            &&& t == s.subrange(a, b)
            &&& forall|k: int| 0 <= k < a ==> is_ws(#[trigger] s[k])
            &&& forall|k: int| b <= k < s.len() ==> is_ws(#[trigger] s[k])
            &&& a < b ==> !is_ws(s[a]) && !is_ws(s[b - 1])
        }
}

/// A text without its leading and trailing white space.
pub open spec fn trimmed(s: Seq<char>) -> Seq<char> {
    choose|t: Seq<char>| is_trim_of(t, s)
}

/// The trimmed form of a text is unique.
pub proof fn lemma_trim_unique(t1: Seq<char>, t2: Seq<char>, s: Seq<char>)
    requires
        is_trim_of(t1, s),
        is_trim_of(t2, s),
    ensures
        t1 == t2,
{
    let (a1, b1) = choose|a: int, b: int|
        {
            &&& 0 <= a <= b <= s.len()
            &&& t1 == s.subrange(a, b)
            &&& forall|k: int| 0 <= k < a ==> is_ws(#[trigger] s[k])
            &&& forall|k: int| b <= k < s.len() ==> is_ws(#[trigger] s[k])
            &&& a < b ==> !is_ws(s[a]) && !is_ws(s[b - 1])
        };
    let (a2, b2) = choose|a: int, b: int|
        {
            &&& 0 <= a <= b <= s.len()
            &&& t2 == s.subrange(a, b)
            &&& forall|k: int| 0 <= k < a ==> is_ws(#[trigger] s[k])
            &&& forall|k: int| b <= k < s.len() ==> is_ws(#[trigger] s[k])
            &&& a < b ==> !is_ws(s[a]) && !is_ws(s[b - 1])
        };
    if a1 < b1 && a2 < b2 {
        assert(!is_ws(s[a1]));
        assert(!is_ws(s[a2]));
        assert(!is_ws(s[b1 - 1]));
        assert(!is_ws(s[b2 - 1]));
        assert(a1 == a2);
        assert(b1 == b2);
    } else if a1 < b1 {
        assert(!is_ws(s[a1]));
        if a1 < a2 {
        } else {
            assert(a1 >= b2);
        }
        assert(false);
    } else if a2 < b2 {
        assert(!is_ws(s[a2]));
        if a2 < a1 {
        } else {
            assert(a2 >= b1);
        }
        assert(false);
    } else {
        assert(t1 =~= Seq::<char>::empty());
        assert(t2 =~= Seq::<char>::empty());
    }
}

/// The first character from `i` on that is not white space, when the ones
/// before `i` are.
proof fn lemma_first_non_ws(s: Seq<char>, i: int) -> (a: int)
    requires
        0 <= i <= s.len(),
        forall|k: int| 0 <= k < i ==> is_ws(#[trigger] s[k]),
        exists|k: int| i <= k < s.len() && !is_ws(#[trigger] s[k]),
    ensures
        i <= a < s.len(),
        !is_ws(s[a]),
        forall|k: int| 0 <= k < a ==> is_ws(#[trigger] s[k]),
    decreases s.len() - i,
{
    if !is_ws(s[i]) {
        i
    } else {
        lemma_first_non_ws(s, i + 1)
    }
}

/// The last character before `j` that is not white space, when the ones
/// from `j` on are.
proof fn lemma_last_non_ws(s: Seq<char>, j: int) -> (b: int)
    requires
        0 <= j <= s.len(),
        forall|k: int| j <= k < s.len() ==> is_ws(#[trigger] s[k]),
        exists|k: int| 0 <= k < j && !is_ws(#[trigger] s[k]),
    ensures
        0 <= b < j,
        !is_ws(s[b]),
        forall|k: int| b < k < s.len() ==> is_ws(#[trigger] s[k]),
    decreases j,
{
    if !is_ws(s[j - 1]) {
        j - 1
    } else {
        lemma_last_non_ws(s, j - 1)
    }
}

/// Every text has a trimmed form.
pub proof fn lemma_trim_exists(s: Seq<char>)
    ensures
        is_trim_of(trimmed(s), s),
{
    if exists|k: int| 0 <= k < s.len() && !is_ws(#[trigger] s[k]) {
        let a = lemma_first_non_ws(s, 0);
        let b = lemma_last_non_ws(s, s.len() as int);
        assert(a <= b) by {
            if b < a {
                assert(is_ws(s[a]));
            }
        }
        assert(is_trim_of(s.subrange(a, b + 1), s));
    } else {
        assert(is_trim_of(s.subrange(0, 0), s));
    }
}

/// White space added around a text does not change its trimmed form.
pub proof fn lemma_trim_padding(p: Seq<char>, s: Seq<char>, q: Seq<char>)
    requires
        forall|k: int| 0 <= k < p.len() ==> is_ws(#[trigger] p[k]),
        forall|k: int| 0 <= k < q.len() ==> is_ws(#[trigger] q[k]),
    ensures
        trimmed(p + s + q) == trimmed(s),
{
    lemma_trim_exists(s);
    let t = trimmed(s);
    let (a, b) = choose|a: int, b: int|
        {
            &&& 0 <= a <= b <= s.len()
            &&& t == s.subrange(a, b)
            &&& forall|k: int| 0 <= k < a ==> is_ws(#[trigger] s[k])
            &&& forall|k: int| b <= k < s.len() ==> is_ws(#[trigger] s[k])
            &&& a < b ==> !is_ws(s[a]) && !is_ws(s[b - 1])
        };
    let w = p + s + q;
    let n = p.len() as int;
    assert forall|k: int| 0 <= k < n + a implies is_ws(#[trigger] w[k]) by {
        if k < n {
            assert(w[k] == p[k]);
        } else {
            assert(w[k] == s[k - n]);
        }
    }
    assert forall|k: int| n + b <= k < w.len() implies is_ws(#[trigger] w[k]) by {
        if k < n + s.len() {
            assert(w[k] == s[k - n]);
        } else {
            assert(w[k] == q[k - n - s.len()]);
        }
    }
    assert(w.subrange(n + a, n + b) =~= t);
    if a < b {
        assert(w[n + a] == s[a]);
        assert(w[n + b - 1] == s[b - 1]);
    }
    assert(is_trim_of(t, w));
    lemma_trim_exists(w);
    lemma_trim_unique(trimmed(w), t, w);
}

/// Removes leading and trailing white space.
pub fn trim(s: &str) -> (r: String)
    ensures
        is_trim_of(r@, s@),
        r@ == trimmed(s@),
{
    let n = s.unicode_len();
    let mut a: usize = 0;
    while a < n && char_is_ws(s.get_char(a))
        invariant
            a <= n,
            n == s@.len(),
            forall|k: int| 0 <= k < a ==> is_ws(#[trigger] s@[k]),
        decreases n - a,
    {
        a = a + 1;
    }
    let mut b: usize = n;
    while b > a && char_is_ws(s.get_char(b - 1))
        invariant
            a <= b <= n,
            n == s@.len(),
            forall|k: int| b <= k < n ==> is_ws(#[trigger] s@[k]),
        decreases b - a,
    {
        b = b - 1;
    }
    let t = s.substring_char(a, b);
    let r = String::from_str(t);
    assert(is_trim_of(r@, s@)) by {
        assert(0 <= a <= b <= s@.len());
    }
    proof {
        lemma_trim_unique(r@, trimmed(s@), s@);
    }
    r
}

/// Whether two strings hold the same characters.
pub fn str_eq(a: &str, b: &str) -> (r: bool)
    ensures
        r == (a@ == b@),
{
    let x = String::from_str(a);
    let y = String::from_str(b);
    x == y
}

/// The text of a single character.
#[verifier::external_body]
pub(crate) fn char_text(c: char) -> (r: String)
    ensures
        r@ == seq![c],
{
    c.to_string()
}


/// The pieces of a text split at every line feed, the last one possibly
/// empty.
pub open spec fn pieces(s: Seq<char>) -> Seq<Seq<char>>
    decreases s.len(),
{
    if s.len() == 0 {
        seq![Seq::empty()]
    } else {
        let p = pieces(s.drop_last());
        if s.last() == '\n' {
            p.push(Seq::empty())
        } else {
            p.update(p.len() - 1, p.last().push(s.last()))
        }
    }
}

/// There is always at least one piece.
pub proof fn lemma_pieces_len(s: Seq<char>)
    ensures
        pieces(s).len() >= 1,
    decreases s.len(),
{
    if s.len() > 0 {
        lemma_pieces_len(s.drop_last());
    }
}

/// A line without the carriage return that ended it.
pub open spec fn strip_cr(l: Seq<char>) -> Seq<char> {
    if l.len() > 0 && l.last() == '\r' { l.drop_last() } else { l }
}

/// The lines of a text: split at line feeds, a carriage return before a
/// line feed removed, and no empty line after a final line feed.
pub open spec fn lines_of(s: Seq<char>) -> Seq<Seq<char>> {
    let p = pieces(s);
    let n = if p.last().len() == 0 { p.len() - 1 } else { p.len() as int };
    Seq::new(n as nat, |k: int| if k < p.len() - 1 { strip_cr(p[k]) } else { p[k] })
}

fn strip_cr_string(l: String) -> (r: String)
    ensures
        r@ == strip_cr(l@),
{
    let n = l.as_str().unicode_len();
    if n > 0 && l.as_str().get_char(n - 1) == '\r' {
        String::from_str(l.as_str().substring_char(0, n - 1))
    } else {
        l
    }
}

/// Splits a text into its lines.
pub fn split_lines(s: &str) -> (r: Vec<String>)
    ensures
        views(r@) == lines_of(s@),
{
    let n = s.unicode_len();
    let mut done: Vec<String> = Vec::new();
    let mut cur = String::new();
    let mut i: usize = 0;
    proof {
        assert(s@.take(0) =~= Seq::<char>::empty());
    }
    while i < n
        invariant
            n == s@.len(),
            i <= n,
            pieces(s@.take(i as int)).len() == done@.len() + 1,
            cur@ == pieces(s@.take(i as int)).last(),
            forall|k: int|
                0 <= k < done@.len() ==> #[trigger] done@[k]@ == strip_cr(
                    pieces(s@.take(i as int))[k],
                ),
        decreases n - i,
    {
        let c = s.get_char(i);
        let ghost t = s@.take(i as int);
        let ghost t1 = s@.take(i + 1);
        assert(t1.drop_last() =~= t);
        assert(t1.last() == c);
        proof {
            lemma_pieces_len(t);
        }
        if c == '\n' {
            let line = strip_cr_string(cur);
            done.push(line);
            cur = String::new();
        } else {
            cur.append(char_text(c).as_str());
        }
        i = i + 1;
    }
    let ghost p = pieces(s@);
    assert(s@.take(n as int) =~= s@);
    if cur.as_str().unicode_len() > 0 {
        done.push(cur);
    }
    assert(views(done@) =~= lines_of(s@));
    done
}

/// Whether a character is an ASCII decimal digit.
pub open spec fn is_digit(c: char) -> bool {
    '0' <= c && c <= '9'
}

/// The value of a decimal digit character.
pub open spec fn digit_value(c: char) -> nat {
    ((c as int) - ('0' as int)) as nat
}

/// The number written by a sequence of decimal digits.
pub open spec fn digits_value(s: Seq<char>) -> nat
    decreases s.len(),
{
    if s.len() == 0 {
        0
    } else {
        digits_value(s.drop_last()) * 10 + digit_value(s.last())
    }
}

/// What parsing a text as an unsigned integer of at most `max` gives: an
/// optional plus sign, then one or more decimal digits whose value is at
/// most `max`; anything else is refused.
pub open spec fn parsed_unsigned(s: Seq<char>, max: nat) -> Option<nat> {
    let d = unsigned_digits(s);
    if d.len() > 0 && all_digits(d) && digits_value(d) <= max {
        Some(digits_value(d))
    } else {
        None
    }
}

/// The text after an optional leading plus sign.
pub open spec fn unsigned_digits(s: Seq<char>) -> Seq<char> {
    if s.len() > 0 && s[0] == '+' { s.drop_first() } else { s }
}

/// Every character is a decimal digit.
pub open spec fn all_digits(d: Seq<char>) -> bool {
    forall|i: int| 0 <= i < d.len() ==> is_digit(#[trigger] d[i])
}

proof fn lemma_digits_grow(s: Seq<char>, i: int)
    requires
        0 <= i <= s.len(),
    ensures
        digits_value(s.take(i)) <= digits_value(s),
    decreases s.len() - i,
{
    if i < s.len() {
        lemma_digits_grow(s, i + 1);
        assert(s.take(i + 1).drop_last() =~= s.take(i));
    } else {
        assert(s.take(i) =~= s);
    }
}

/// Parses a text as an unsigned integer of at most `max`, as the standard
/// library's integer parsing does.
pub fn parse_unsigned(s: &str, max: u64) -> (r: Option<u64>)
    ensures
        match r {
            Some(v) => parsed_unsigned(s@, max as nat) == Some(v as nat),
            None => parsed_unsigned(s@, max as nat) is None,
        },
{
    let n = s.unicode_len();
    let mut start: usize = 0;
    if n > 0 && s.get_char(0) == '+' {
        start = 1;
    }
    let ghost d = unsigned_digits(s@);
    assert(d =~= s@.subrange(start as int, n as int));
    if start >= n {
        return None;
    }
    let mut value: u64 = 0;
    let mut i: usize = start;
    while i < n
        invariant
            start <= i <= n,
            n == s@.len(),
            d == s@.subrange(start as int, n as int),
            d == unsigned_digits(s@),
            value as nat == digits_value(d.take(i - start)),
            value <= max,
            forall|k: int| 0 <= k < i - start ==> is_digit(#[trigger] d[k]),
        decreases n - i,
    {
        let c = s.get_char(i);
        assert(c == d[i - start]);
        if c < '0' || c > '9' {
            assert(!is_digit(d[i - start]));
            assert(!(forall|k: int| 0 <= k < d.len() ==> is_digit(#[trigger] d[k])));
            assert(parsed_unsigned(s@, max as nat) is None);
            return None;
        }
        let digit: u64 = (c as u32 - '0' as u32) as u64;
        assert(d.take(i - start + 1).drop_last() =~= d.take(i - start));
        if digit > max || value > (max - digit) / 10 {
            proof {
                assert(digits_value(d.take(i - start + 1)) == value * 10 + digit);
                assert(value * 10 + digit > max) by (nonlinear_arith)
                    requires
                        digit > max || value > (max - digit) / 10,
                        digit <= max ==> (max - digit) / 10 * 10 <= max - digit,
                        value >= 0,
                ;
                lemma_digits_grow(d, i - start + 1);
                assert(digits_value(d) > max);
                assert(parsed_unsigned(s@, max as nat) is None);
            }
            return None;
        }
        assert(value * 10 + digit <= max) by (nonlinear_arith)
            requires
                value <= (max - digit) / 10,
                digit <= max,
        ;
        value = value * 10 + digit;
        i = i + 1;
    }
    assert(d.take(n - start) =~= d);
    Some(value)
}


/// The pattern occurs in the text starting at position `i`.
pub open spec fn occurs_at(s: Seq<char>, p: Seq<char>, i: int) -> bool {
    0 <= i && i + p.len() <= s.len() && s.subrange(i, i + p.len()) == p
}

/// The pattern occurs somewhere in the text.
pub open spec fn has_substring(s: Seq<char>, p: Seq<char>) -> bool {
    exists|i: int| occurs_at(s, p, i)
}

fn matches_at(s: &str, p: &str, i: usize) -> (r: bool)
    requires
        i + p@.len() <= s@.len(),
    ensures
        r == (s@.subrange(i as int, i + p@.len()) == p@),
{
    let m = p.unicode_len();
    let n = s.unicode_len();
    let mut k: usize = 0;
    while k < m
        invariant
            k <= m,
            m == p@.len(),
            n == s@.len(),
            i + m <= n,
            forall|j: int| 0 <= j < k ==> s@[i + j] == p@[j],
        decreases m - k,
    {
        if s.get_char(i + k) != p.get_char(k) {
            assert(s@.subrange(i as int, i + m)[k as int] != p@[k as int]);
            return false;
        }
        k = k + 1;
    }
    assert(s@.subrange(i as int, i + m) =~= p@);
    true
}

/// Whether the pattern occurs in the text.
pub fn contains_str(s: &str, p: &str) -> (r: bool)
    ensures
        r == has_substring(s@, p@),
{
    let n = s.unicode_len();
    let m = p.unicode_len();
    if m > n {
        return false;
    }
    let last = n - m;
    let mut i: usize = 0;
    loop
        invariant
            i <= last,
            last == s@.len() - p@.len(),
            m == p@.len(),
            forall|j: int| 0 <= j < i ==> !occurs_at(s@, p@, j),
        decreases last - i,
    {
        if matches_at(s, p, i) {
            assert(occurs_at(s@, p@, i as int));
            return true;
        }
        if i == last {
            assert forall|j: int| !occurs_at(s@, p@, j) by {
                if 0 <= j < i {
                } else if j == i {
                } else {
                }
            }
            return false;
        }
        i = i + 1;
    }
}

/// Whether the text begins with the prefix.
pub fn starts_with(s: &str, p: &str) -> (r: bool)
    ensures
        r == p@.is_prefix_of(s@),
{
    if p.unicode_len() > s.unicode_len() {
        return false;
    }
    matches_at(s, p, 0)
}

/// Whether the character occurs in the text.
pub fn contains_char(s: &str, c: char) -> (r: bool)
    ensures
        r == s@.contains(c),
{
    let n = s.unicode_len();
    let mut i: usize = 0;
    while i < n
        invariant
            i <= n,
            n == s@.len(),
            forall|j: int| 0 <= j < i ==> s@[j] != c,
        decreases n - i,
    {
        if s.get_char(i) == c {
            return true;
        }
        i = i + 1;
    }
    false
}

} // verus!
