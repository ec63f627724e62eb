//! Small verified text helpers: equality, lexicographic order, LIKE matching
//! and the rendering of version labels used in precondition errors.

use vstd::prelude::*;
use vstd::string::StrSliceExecFns;
use vstd::string::StringExecFns;

verus! {

/// The decimal digit character of `d` (for `d < 10`).
pub open spec fn digit_char(d: nat) -> char {
    if d == 0 { '0' }
    else if d == 1 { '1' }
    else if d == 2 { '2' }
    else if d == 3 { '3' }
    else if d == 4 { '4' }
    else if d == 5 { '5' }
    else if d == 6 { '6' }
    else if d == 7 { '7' }
    else if d == 8 { '8' }
    else { '9' }
}

/// The decimal spelling of `n`, without leading zeros.
pub open spec fn decimal(n: nat) -> Seq<char>
    decreases n,
{
    if n < 10 {
        seq![digit_char(n)]
    } else {
        decimal(n / 10).push(digit_char(n % 10))
    }
}

/// How a precondition failure names an observed or expected version:
/// `absent`, or `v` followed by the decimal version.
pub open spec fn version_label(v: Option<int>) -> Seq<char> {
    match v {
        None => seq!['a', 'b', 's', 'e', 'n', 't'],
        Some(n) => seq!['v'] + decimal(n as nat),
    }
}

fn digit_str(d: u64) -> (s: &'static str)
    requires
        d < 10,
    ensures
        s@ == seq![digit_char(d as nat)],
{
    proof {
        reveal_strlit("0");
        reveal_strlit("1");
        reveal_strlit("2");
        reveal_strlit("3");
        reveal_strlit("4");
        reveal_strlit("5");
        reveal_strlit("6");
        reveal_strlit("7");
        reveal_strlit("8");
        reveal_strlit("9");
    }
    if d == 0 { "0" }
    else if d == 1 { "1" }
    else if d == 2 { "2" }
    else if d == 3 { "3" }
    else if d == 4 { "4" }
    else if d == 5 { "5" }
    else if d == 6 { "6" }
    else if d == 7 { "7" }
    else if d == 8 { "8" }
    else { "9" }
}

/// Appends the decimal spelling of `n` to `out`.
pub fn push_decimal(out: &mut String, n: u64)
    ensures
        final(out)@ == old(out)@ + decimal(n as nat),
    decreases n,
{
    if n < 10 {
        out.append(digit_str(n));
    } else {
        push_decimal(out, n / 10);
        out.append(digit_str(n % 10));
        assert(decimal(n as nat) == decimal((n / 10) as nat).push(digit_char((n % 10) as nat)));
    }
}

/// Renders a version label: `absent` for `None`, `v<n>` for `Some(n)`.
pub fn render_version_label(v: Option<u64>) -> (s: String)
    ensures
        s@ == version_label(match v { None => None, Some(n) => Some(n as int) }),
{
    match v {
        None => {
            proof { reveal_strlit("absent"); }
            "absent".to_owned()
        },
        Some(n) => {
            proof { reveal_strlit("v"); }
            let mut s = "v".to_owned();
            push_decimal(&mut s, n);
            s
        },
    }
}

/// Whether the two texts are equal.
pub fn same_text(a: &str, b: &str) -> (r: bool)
    ensures
        r == (a@ == b@),
{
    let n = a.unicode_len();
    let m = b.unicode_len();
    if n != m {
        return false;
    }
    let mut i: usize = 0;
    while i < n
        invariant
            n == a@.len(),
            m == b@.len(),
            n == m,
            i <= n,
            forall|j: int| 0 <= j < i ==> a@[j] == b@[j],
        decreases n - i,
    {
        if a.get_char(i) != b.get_char(i) {
            return false;
        }
        i = i + 1;
    }
    assert(a@ =~= b@);
    true
}

/// `a` is strictly before `b` in the order of code points, character by character
/// (a proper prefix comes first).
pub open spec fn text_less(a: Seq<char>, b: Seq<char>) -> bool
    decreases a.len(),
{
    if a.len() == 0 {
        b.len() > 0
    } else if b.len() == 0 {
        false
    } else if a[0] != b[0] {
        (a[0] as u32) < (b[0] as u32)
    } else {
        text_less(a.drop_first(), b.drop_first())
    }
}

/// Text order is asymmetric.
pub proof fn lemma_text_less_asymmetric(a: Seq<char>, b: Seq<char>)
    ensures
        text_less(a, b) ==> !text_less(b, a),
    decreases a.len(),
{
    if a.len() > 0 && b.len() > 0 {
        lemma_text_less_asymmetric(a.drop_first(), b.drop_first());
    }
}

/// Text order is transitive.
pub proof fn lemma_text_less_transitive(a: Seq<char>, b: Seq<char>, c: Seq<char>)
    ensures
        text_less(a, b) && text_less(b, c) ==> text_less(a, c),
    decreases a.len(),
{
    if a.len() > 0 && b.len() > 0 && c.len() > 0 {
        lemma_text_less_transitive(a.drop_first(), b.drop_first(), c.drop_first());
    }
}

proof fn lemma_text_less_skip(a: Seq<char>, b: Seq<char>, i: int)
    requires
        0 <= i <= a.len(),
        i <= b.len(),
        forall|j: int| 0 <= j < i ==> a[j] == b[j],
    ensures
        text_less(a, b) == text_less(a.skip(i), b.skip(i)),
    decreases i,
{
    if i > 0 {
        assert(a.drop_first().skip(i - 1) =~= a.skip(i));
        assert(b.drop_first().skip(i - 1) =~= b.skip(i));
        lemma_text_less_skip(a.drop_first(), b.drop_first(), i - 1);
    } else {
        assert(a.skip(0) =~= a);
        assert(b.skip(0) =~= b);
    }
}

/// Whether `a` sorts strictly before `b`.
pub fn text_precedes(a: &str, b: &str) -> (r: bool)
    ensures
        r == text_less(a@, b@),
{
    let n = a.unicode_len();
    let m = b.unicode_len();
    let mut i: usize = 0;
    while i < n && i < m
        invariant
            n == a@.len(),
            m == b@.len(),
            i <= n,
            i <= m,
            forall|j: int| 0 <= j < i ==> a@[j] == b@[j],
        decreases n - i,
    {
        let x = a.get_char(i);
        let y = b.get_char(i);
        if x != y {
            proof {
                lemma_text_less_skip(a@, b@, i as int);
            }
            return (x as u32) < (y as u32);
        }
        i = i + 1;
    }
    proof {
        lemma_text_less_skip(a@, b@, i as int);
    }
    i < m && i == n
}

/// The code a character is compared by in a LIKE match: ASCII upper-case letters
/// fold to lower case, every other character stands as it is.
pub open spec fn fold_code(c: char) -> u32 {
    if 65 <= (c as u32) && (c as u32) <= 90 {
        ((c as u32) + 32) as u32
    } else {
        c as u32
    }
}

/// Whether `text` matches the LIKE pattern `pattern` (with no escape character):
/// `%` matches any run of characters, `_` matches any one character, and every
/// other character matches itself, ASCII letters in either case.
pub open spec fn like_match(text: Seq<char>, pattern: Seq<char>) -> bool
    decreases text.len() + pattern.len(),
{
    if pattern.len() == 0 {
        text.len() == 0
    } else if pattern[0] == '%' {
        like_match(text, pattern.drop_first()) || (text.len() > 0 && like_match(text.drop_first(), pattern))
    } else if text.len() == 0 {
        false
    } else if pattern[0] == '_' {
        like_match(text.drop_first(), pattern.drop_first())
    } else {
        fold_code(text[0]) == fold_code(pattern[0]) && like_match(text.drop_first(), pattern.drop_first())
    }
}

/// Whether `hay` matches the LIKE pattern `%needle%`: `needle` occurs in it, where
/// a `_` of `needle` stands for any one character, a `%` for any run of them, and
/// ASCII letters match in either case.
pub open spec fn like_contains(hay: Seq<char>, needle: Seq<char>) -> bool {
    like_match(hay, seq!['%'] + needle + seq!['%'])
}

fn fold(c: char) -> (r: u32)
    ensures
        r == fold_code(c),
{
    let x = c as u32;
    if 65 <= x && x <= 90 {
        x + 32
    } else {
        x
    }
}

proof fn lemma_skip_step(x: Seq<char>, k: int)
    requires
        0 <= k < x.len(),
    ensures
        x.skip(k).len() == x.len() - k,
        x.skip(k)[0] == x[k],
        x.skip(k).drop_first() =~= x.skip(k + 1),
{
}

/// Whether the rest of `text` from `i` matches the rest of `pattern` from `j`.
fn like_from(text: &str, n: usize, i: usize, pattern: &str, m: usize, j: usize) -> (r: bool)
    requires
        n == text@.len(),
        m == pattern@.len(),
        i <= n,
        j <= m,
    ensures
        r == like_match(text@.skip(i as int), pattern@.skip(j as int)),
    decreases (n - i) + (m - j),
{
    let ghost t = text@.skip(i as int);
    let ghost q = pattern@.skip(j as int);
    assert(t.len() == n - i);
    assert(q.len() == m - j);
    if j == m {
        return i == n;
    }
    let c = pattern.get_char(j);
    proof { lemma_skip_step(pattern@, j as int); }
    if c == '%' {
        if like_from(text, n, i, pattern, m, j + 1) {
            return true;
        }
        if i == n {
            return false;
        }
        proof { lemma_skip_step(text@, i as int); }
        return like_from(text, n, i + 1, pattern, m, j);
    }
    if i == n {
        return false;
    }
    proof { lemma_skip_step(text@, i as int); }
    if c == '_' {
        return like_from(text, n, i + 1, pattern, m, j + 1);
    }
    let d = text.get_char(i);
    if fold(d) != fold(c) {
        return false;
    }
    like_from(text, n, i + 1, pattern, m, j + 1)
}

/// Whether `hay` matches the LIKE pattern `%needle%`.
pub fn text_like_contains(hay: &str, needle: &str) -> (r: bool)
    ensures
        r == like_contains(hay@, needle@),
{
    proof { reveal_strlit("%"); }
    let mut pattern = "%".to_owned();
    pattern.append(needle);
    pattern.append("%");
    let n = hay.unicode_len();
    let m = pattern.as_str().unicode_len();
    let r = like_from(hay, n, 0, pattern.as_str(), m, 0);
    proof {
        assert(hay@.skip(0) =~= hay@);
        assert(pattern@.skip(0) =~= pattern@);
        assert(pattern@ =~= seq!['%'] + needle@ + seq!['%']);
    }
    r
}

} // verus!
