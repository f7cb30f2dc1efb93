//! Text handling the station needs: whitespace trimming as `str::trim` does
//! it, cutting at a marker, decimal formatting and parsing of `u32`.
use vstd::prelude::*;
use vstd::string::*;

verus! {

/// The characters of a string slice, in order.
pub fn chars_of(s: &str) -> (v: Vec<char>)
    ensures
        v@ == s@,
{
    let n = s.unicode_len();
    let mut v: Vec<char> = Vec::new();
    let mut i: usize = 0;
    while i < n
        invariant
            n == s@.len(),
            i <= n,
            v@ == s@.subrange(0, i as int),
        decreases n - i,
    {
        let c = s.get_char(i);
        v.push(c);
        i = i + 1;
        assert(v@ =~= s@.subrange(0, i as int));
    }
    assert(v@ =~= s@);
    v
}

} // verus!

verus! {

/// The Unicode `White_Space` characters, which `char::is_whitespace` and
/// `str::trim` go by.
pub open spec fn is_whitespace(c: char) -> bool {
    let v = c as u32;
    ||| 0x9 <= v <= 0xd
    ||| v == 0x20
    ||| v == 0x85
    ||| v == 0xa0
    ||| v == 0x1680
    ||| 0x2000 <= v <= 0x200a
    ||| v == 0x2028
    ||| v == 0x2029
    ||| v == 0x202f
    ||| v == 0x205f
    ||| v == 0x3000
}

pub fn char_is_whitespace(c: char) -> (b: bool)
    ensures
        b == is_whitespace(c),
{
    let v = c as u32;
    (0x9 <= v && v <= 0xd) || v == 0x20 || v == 0x85 || v == 0xa0 || v == 0x1680
        || (0x2000 <= v && v <= 0x200a) || v == 0x2028 || v == 0x2029 || v == 0x202f
        || v == 0x205f || v == 0x3000
}

/// Position of the first non-whitespace character at or after `i`.
pub open spec fn skip_whitespace(s: Seq<char>, i: int) -> int
    decreases s.len() - i,
{
    if 0 <= i < s.len() && is_whitespace(s[i]) {
        skip_whitespace(s, i + 1)
    } else {
        i
    }
}

/// End of the text before the whitespace that ends `s.subrange(0, j)`.
pub open spec fn skip_whitespace_back(s: Seq<char>, j: int) -> int
    decreases j,
{
    if 0 < j <= s.len() && is_whitespace(s[j - 1]) {
        skip_whitespace_back(s, j - 1)
    } else {
        j
    }
}

/// `s` without leading and trailing whitespace, as `str::trim` gives it.
pub open spec fn trimmed(s: Seq<char>) -> Seq<char> {
    let start = skip_whitespace(s, 0);
    if start >= s.len() {
        Seq::empty()
    } else {
        s.subrange(start, skip_whitespace_back(s, s.len() as int))
    }
}

proof fn lemma_skip_whitespace_bounds(s: Seq<char>, i: int)
    requires
        0 <= i <= s.len(),
    ensures
        i <= skip_whitespace(s, i) <= s.len(),
        skip_whitespace(s, i) < s.len() ==> !is_whitespace(s[skip_whitespace(s, i)]),
    decreases s.len() - i,
{
    if i < s.len() && is_whitespace(s[i]) {
        lemma_skip_whitespace_bounds(s, i + 1);
    }
}

proof fn lemma_skip_whitespace_back_bounds(s: Seq<char>, j: int, a: int)
    requires
        0 <= a < j <= s.len(),
        !is_whitespace(s[a]),
    ensures
        a < skip_whitespace_back(s, j) <= j,
    decreases j,
{
    if is_whitespace(s[j - 1]) {
        lemma_skip_whitespace_back_bounds(s, j - 1, a);
    }
}

/// Leading and trailing whitespace removed.
pub fn trim(s: &str) -> (t: String)
    ensures
        t@ == trimmed(s@),
{
    let chars = chars_of(s);
    let n = chars.len();
    let mut start: usize = 0;
    while start < n && char_is_whitespace(chars[start])
        invariant
            n == s@.len(),
            chars@ == s@,
            start <= n,
            skip_whitespace(s@, start as int) == skip_whitespace(s@, 0),
        decreases n - start,
    {
        start = start + 1;
    }
    assert(skip_whitespace(s@, start as int) == start as int);
    if start >= n {
        return String::new();
    }
    proof {
        lemma_skip_whitespace_bounds(s@, 0);
        lemma_skip_whitespace_back_bounds(s@, n as int, start as int);
    }
    let mut end: usize = n;
    while char_is_whitespace(chars[end - 1])
        invariant
            n == s@.len(),
            chars@ == s@,
            start < n,
            !is_whitespace(s@[start as int]),
            start < end <= n,
            skip_whitespace_back(s@, end as int) == skip_whitespace_back(s@, n as int),
        decreases end,
    {
        end = end - 1;
    }
    assert(skip_whitespace_back(s@, end as int) == end as int);
    let piece = s.substring_char(start, end);
    String::from_str(piece)
}

} // verus!

verus! {

/// `p` occurs in `s` at position `i`.
pub open spec fn occurs_at(s: Seq<char>, p: Seq<char>, i: int) -> bool {
    0 <= i && i + p.len() <= s.len() && s.subrange(i, i + p.len()) == p
}

/// The leftmost position at or after `i` where `p` occurs in `s`, or -1.
pub open spec fn find_from(s: Seq<char>, p: Seq<char>, i: int) -> int
    decreases s.len() + 1 - i,
{
    if i < 0 || i + p.len() > s.len() {
        -1
    } else if occurs_at(s, p, i) {
        i
    } else {
        find_from(s, p, i + 1)
    }
}

/// The first piece of `s` split at `p`: the text before the leftmost
/// occurrence of `p`, or all of `s`.
pub open spec fn first_piece(s: Seq<char>, p: Seq<char>) -> Seq<char> {
    let f = find_from(s, p, 0);
    if f < 0 {
        s
    } else {
        s.subrange(0, f)
    }
}

fn occurs_at_exec(s: &Vec<char>, p: &Vec<char>, i: usize) -> (b: bool)
    requires
        i + p@.len() <= s@.len(),
    ensures
        b == occurs_at(s@, p@, i as int),
{
    let m = p.len();
    let n = s.len();
    let mut k: usize = 0;
    while k < m
        invariant
            m == p@.len(),
            n == s@.len(),
            i + m <= s@.len(),
            k <= m,
            forall|q: int| 0 <= q < k ==> s@[i + q] == p@[q],
        decreases m - k,
    {
        if s[i + k] != p[k] {
            assert(s@.subrange(i as int, i + m)[k as int] != p@[k as int]);
            return false;
        }
        k = k + 1;
    }
    assert(s@.subrange(i as int, i + m) =~= p@);
    true
}

/// What `s.split(p).next()` gives: the text before the first `p`, or all of `s`.
pub fn first_piece_of(s: &str, p: &str) -> (piece: String)
    ensures
        piece@ == first_piece(s@, p@),
{
    let sc = chars_of(s);
    let pc = chars_of(p);
    let n = sc.len();
    let m = pc.len();
    let mut i: usize = 0;
    while i <= n && m <= n - i
        invariant
            sc@ == s@,
            pc@ == p@,
            n == s@.len(),
            m == p@.len(),
            find_from(s@, p@, i as int) == find_from(s@, p@, 0),
        decreases n + 1 - i,
    {
        if occurs_at_exec(&sc, &pc, i) {
            let prefix = s.substring_char(0, i);
            return String::from_str(prefix);
        }
        if m == 0 {
            assert(s@.subrange(i as int, i as int) =~= p@);
        }
        i = i + 1;
    }
    assert(find_from(s@, p@, i as int) == -1);
    String::from_str(s)
}

/// The decimal digit for `d < 10`.
pub open spec fn decimal_digit(d: nat) -> char {
    if d == 0 { '0' } else if d == 1 { '1' } else if d == 2 { '2' } else if d == 3 { '3' }
    else if d == 4 { '4' } else if d == 5 { '5' } else if d == 6 { '6' } else if d == 7 { '7' }
    else if d == 8 { '8' } else { '9' }
}

/// The decimal text of `n`, as `Display` prints an unsigned integer.
pub open spec fn decimal(n: nat) -> Seq<char>
    decreases n,
{
    if n < 10 {
        seq![decimal_digit(n)]
    } else {
        decimal(n / 10).push(decimal_digit(n % 10))
    }
}

fn digit_text(d: u32) -> (t: &'static str)
    requires
        d < 10,
    ensures
        t@ == seq![decimal_digit(d as nat)],
{
    proof {
        reveal_strlit("0");
        reveal_strlit("1");
        reveal_strlit("2");
        reveal_strlit("3");
        reveal_strlit("4");
        reveal_strlit("5");
        reveal_strlit("6");
        reveal_strlit("7");
        reveal_strlit("8");
        reveal_strlit("9");
    }
    let t = if d == 0 { "0" } else if d == 1 { "1" } else if d == 2 { "2" } else if d == 3 { "3" }
        else if d == 4 { "4" } else if d == 5 { "5" } else if d == 6 { "6" } else if d == 7 { "7" }
        else if d == 8 { "8" } else { "9" };
    assert(t@ =~= seq![decimal_digit(d as nat)]);
    t
}

/// The decimal text of a `u32`.
pub fn u32_to_decimal(n: u32) -> (t: String)
    ensures
        t@ == decimal(n as nat),
    decreases n,
{
    if n < 10 {
        String::from_str(digit_text(n))
    } else {
        let mut t = u32_to_decimal(n / 10);
        t.append(digit_text(n % 10));
        t
    }
}

} // verus!

verus! {

pub open spec fn is_ascii_digit(c: char) -> bool {
    '0' <= c <= '9'
}

/// The number a run of decimal digits spells.
pub open spec fn digits_value(ds: Seq<char>) -> nat
    decreases ds.len(),
{
    if ds.len() == 0 {
        0
    } else {
        digits_value(ds.drop_last()) * 10 + ((ds.last() as u32) - ('0' as u32)) as nat
    }
}

/// The digits `u32::from_str` reads: all of `s`, past one leading `+`.
pub open spec fn unsigned_digits(s: Seq<char>) -> Seq<char> {
    if s.len() > 0 && s[0] == '+' {
        s.drop_first()
    } else {
        s
    }
}

/// What `s.parse::<u32>()` gives, as an option: an optional `+`, then at
/// least one ASCII digit and nothing else, spelling a value that fits.
pub open spec fn parse_u32(s: Seq<char>) -> Option<u32> {
    let ds = unsigned_digits(s);
    if ds.len() > 0 && (forall|i: int| 0 <= i < ds.len() ==> is_ascii_digit(#[trigger] ds[i]))
        && digits_value(ds) <= u32::MAX {
        Some(digits_value(ds) as u32)
    } else {
        None
    }
}

proof fn lemma_digits_value_grows(ds: Seq<char>, k: int)
    requires
        0 <= k <= ds.len(),
        forall|i: int| 0 <= i < ds.len() ==> is_ascii_digit(#[trigger] ds[i]),
    ensures
        digits_value(ds.subrange(0, k)) <= digits_value(ds),
    decreases ds.len() - k,
{
    if k < ds.len() {
        let d = ds.subrange(0, k + 1);
        assert(d.drop_last() =~= ds.subrange(0, k));
        lemma_digits_value_grows(ds, k + 1);
    } else {
        assert(ds.subrange(0, k) =~= ds);
    }
}

/// Parses a `u32` as `str::parse` does, keeping only whether it succeeded and its value.
pub fn parse_u32_text(s: &str) -> (v: Option<u32>)
    ensures
        v == parse_u32(s@),
{
    let chars = chars_of(s);
    let n = chars.len();
    let start: usize = if n > 0 && chars[0] == '+' { 1 } else { 0 };
    let ghost ds = unsigned_digits(s@);
    assert(ds =~= s@.subrange(start as int, n as int));
    if start >= n {
        return None;
    }
    let mut acc: u32 = 0;
    let mut i: usize = start;
    while i < n
        invariant
            chars@ == s@,
            n == s@.len(),
            start <= i <= n,
            ds == s@.subrange(start as int, n as int),
            ds == unsigned_digits(s@),
            forall|q: int| 0 <= q < i - start ==> is_ascii_digit(#[trigger] ds[q]),
            acc == digits_value(ds.subrange(0, i - start)),
        decreases n - i,
    {
        let c = chars[i];
        if !('0' <= c && c <= '9') {
            assert(!is_ascii_digit(ds[i - start]));
            return None;
        }
        let d = (c as u32) - ('0' as u32);
        let ghost k = i - start;
        assert(ds.subrange(0, k + 1).drop_last() =~= ds.subrange(0, k));
        assert(ds.subrange(0, k + 1).last() == c);
        match acc.checked_mul(10) {
            Some(t) => match t.checked_add(d) {
                Some(u) => {
                    acc = u;
                },
                None => {
                    proof {
                        if forall|q: int| 0 <= q < ds.len() ==> is_ascii_digit(#[trigger] ds[q]) {
                            lemma_digits_value_grows(ds, k + 1);
                        }
                    }
                    return None;
                },
            },
            None => {
                proof {
                    if forall|q: int| 0 <= q < ds.len() ==> is_ascii_digit(#[trigger] ds[q]) {
                        lemma_digits_value_grows(ds, k + 1);
                    }
                }
                return None;
            },
        }
        i = i + 1;
    }
    assert(ds.subrange(0, n - start) =~= ds);
    Some(acc)
}

} // verus!
