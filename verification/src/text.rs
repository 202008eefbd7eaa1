use vstd::prelude::*;
use vstd::string::*;

verus! {

/// Calls `String::push`. Claimed: the string afterwards is the one before
/// with `c` added at its end.
#[verifier::external_body]
pub(crate) fn push_char(s: &mut String, c: char)
    ensures
        final(s)@ == old(s)@.push(c),
{
    s.push(c);
}

/// The characters of a string slice, in order.
pub fn chars_of(s: &str) -> (v: Vec<char>)
    ensures
        v@ == s@,
{
    let mut v: Vec<char> = Vec::new();
    for c in it: s.chars()
        invariant
            v@ == it.seq().take(it.index() as int),
            it.seq() == s@,
    {
        v.push(c);
    }
    v
}

/// The decimal digit character for `d < 10`.
pub open spec fn digit_char(d: nat) -> char {
    if d == 0 { '0' } else if d == 1 { '1' } else if d == 2 { '2' } else if d == 3 { '3' }
    else if d == 4 { '4' } else if d == 5 { '5' } else if d == 6 { '6' } else if d == 7 { '7' }
    else if d == 8 { '8' } else { '9' }
}

/// The decimal representation of a natural number, without leading zeros.
pub open spec fn decimal(n: nat) -> Seq<char>
    decreases n,
{
    if n < 10 {
        seq![digit_char(n)]
    } else {
        decimal(n / 10).push(digit_char(n % 10))
    }
}

fn digit(d: u64) -> (c: char)
    requires
        d < 10,
    ensures
        c == digit_char(d as nat),
{
    if d == 0 { '0' } else if d == 1 { '1' } else if d == 2 { '2' } else if d == 3 { '3' }
    else if d == 4 { '4' } else if d == 5 { '5' } else if d == 6 { '6' } else if d == 7 { '7' }
    else if d == 8 { '8' } else { '9' }
}

/// Appends the decimal representation of `n` to `s`.
pub fn push_decimal(s: &mut String, n: u64)
    ensures
        final(s)@ == old(s)@ + decimal(n as nat),
    decreases n,
{
    if n < 10 {
        push_char(s, digit(n));
        assert(decimal(n as nat) == seq![digit_char(n as nat)]);
    } else {
        push_decimal(s, n / 10);
        push_char(s, digit(n % 10));
    }
}

} // verus!

verus! {

/// Whether `p` occurs in `s` starting at index `i`.
pub open spec fn occurs_at(s: Seq<char>, p: Seq<char>, i: int) -> bool {
    0 <= i && i + p.len() <= s.len() && s.subrange(i, i + p.len()) == p
}

/// Whether `p` occurs anywhere in `s`.
pub open spec fn occurs_in(s: Seq<char>, p: Seq<char>) -> bool {
    exists|i: int| occurs_at(s, p, i)
}

/// The first index at or after `i` where `p` occurs in `s`.
pub open spec fn find_from(s: Seq<char>, p: Seq<char>, i: int) -> Option<int>
    decreases s.len() + 1 - i,
{
    if i < 0 || i + p.len() > s.len() {
        None
    } else if occurs_at(s, p, i) {
        Some(i)
    } else {
        find_from(s, p, i + 1)
    }
}

/// The first index where `p` occurs in `s` (what `str::find` returns, counted in characters).
pub open spec fn find(s: Seq<char>, p: Seq<char>) -> Option<int> {
    find_from(s, p, 0)
}

pub proof fn lemma_find_from(s: Seq<char>, p: Seq<char>, i: int)
    requires
        0 <= i,
    ensures
        find_from(s, p, i) matches Some(k) ==> i <= k && occurs_at(s, p, k) && forall|j: int|
            i <= j < k ==> !occurs_at(s, p, j),
        find_from(s, p, i) is None ==> forall|j: int| i <= j ==> !occurs_at(s, p, j),
    decreases s.len() + 1 - i,
{
    if i + p.len() > s.len() {
    } else if occurs_at(s, p, i) {
    } else {
        lemma_find_from(s, p, i + 1);
    }
}

/// `find` gives the least index of an occurrence, and `None` when there is none.
pub proof fn lemma_find(s: Seq<char>, p: Seq<char>)
    ensures
        find(s, p) matches Some(k) ==> occurs_at(s, p, k) && forall|j: int|
            0 <= j < k ==> !occurs_at(s, p, j),
        find(s, p) is None <==> !occurs_in(s, p),
{
    lemma_find_from(s, p, 0);
    if find(s, p) is None {
        assert forall|j: int| !occurs_at(s, p, j) by {
            if j >= 0 {
            }
        }
    }
}

/// An occurrence with none before it is what `find` returns.
pub proof fn lemma_find_is(s: Seq<char>, p: Seq<char>, k: int)
    requires
        occurs_at(s, p, k),
        forall|j: int| 0 <= j < k ==> !occurs_at(s, p, j),
    ensures
        find(s, p) == Some(k),
{
    lemma_find(s, p);
    if let Some(m) = find(s, p) {
        if m < k {
        } else if m > k {
        }
    }
}

/// Finds the first occurrence of `p` in `s`.
pub fn find_chars(s: &Vec<char>, p: &Vec<char>) -> (r: Option<usize>)
    ensures
        r matches Some(k) ==> find(s@, p@) == Some(k as int),
        r is None ==> find(s@, p@) is None,
{
    let n = s.len();
    let m = p.len();
    if m > n {
        proof {
            lemma_find(s@, p@);
        }
        return None;
    }
    let mut i: usize = 0;
    while i <= n - m
        invariant
            n == s.len(),
            m == p.len(),
            m <= n,
            i <= n - m + 1,
            forall|j: int| 0 <= j < i ==> !occurs_at(s@, p@, j),
        decreases n - m + 1 - i,
    {
        let mut k: usize = 0;
        let mut same = true;
        while k < m
            invariant
                n == s.len(),
                m == p.len(),
                i + m <= n,
                k <= m,
                same == forall|t: int| 0 <= t < k ==> s@[i + t] == p@[t],
            decreases m - k,
        {
            if s[i + k] != p[k] {
                same = false;
            }
            k = k + 1;
        }
        if same {
            proof {
                assert(s@.subrange(i as int, i + m) =~= p@);
                lemma_find_is(s@, p@, i as int);
            }
            return Some(i);
        }
        proof {
            assert(!occurs_at(s@, p@, i as int)) by {
                if occurs_at(s@, p@, i as int) {
                    assert forall|t: int| 0 <= t < m implies s@[i + t] == p@[t] by {
                        assert(s@.subrange(i as int, i + m)[t] == s@[i + t]);
                    }
                }
            }
        }
        i = i + 1;
    }
    proof {
        lemma_find(s@, p@);
        assert forall|j: int| !occurs_at(s@, p@, j) by {
            if j >= i {
            }
        }
    }
    None
}

/// Whether `p` occurs in `s` (`str::contains` with a string pattern).
pub fn contains_str(s: &str, p: &str) -> (r: bool)
    ensures
        r == occurs_in(s@, p@),
{
    let sv = chars_of(s);
    let pv = chars_of(p);
    let f = find_chars(&sv, &pv);
    proof {
        lemma_find(s@, p@);
    }
    f.is_some()
}

/// Whether `s` begins with `p`.
pub open spec fn starts_with(s: Seq<char>, p: Seq<char>) -> bool {
    p.len() <= s.len() && s.subrange(0, p.len() as int) == p
}

/// Whether `s` begins with `p` (`str::starts_with` with a string pattern).
pub fn starts_with_str(s: &str, p: &str) -> (r: bool)
    ensures
        r == starts_with(s@, p@),
{
    let sv = chars_of(s);
    let pv = chars_of(p);
    if pv.len() > sv.len() {
        return false;
    }
    let mut k: usize = 0;
    while k < pv.len()
        invariant
            sv@ == s@,
            pv@ == p@,
            pv.len() <= sv.len(),
            k <= pv.len(),
            forall|t: int| 0 <= t < k ==> sv@[t] == pv@[t],
        decreases pv.len() - k,
    {
        if sv[k] != pv[k] {
            assert(s@.subrange(0, p@.len() as int)[k as int] != p@[k as int]);
            return false;
        }
        k = k + 1;
    }
    assert(s@.subrange(0, p@.len() as int) =~= p@);
    true
}

/// Joins a path component onto a base path the way `Path::join` does on Unix:
/// an absolute component replaces the base, otherwise a `/` separates the two
/// unless the base is empty or already ends with one.
pub open spec fn join_path(base: Seq<char>, part: Seq<char>) -> Seq<char> {
    if part.len() > 0 && part[0] == '/' {
        part
    } else if base.len() > 0 && base.last() != '/' {
        base + seq!['/'] + part
    } else {
        base + part
    }
}

/// `Path::new(base).join(part)`, on Unix paths held as strings.
pub fn path_join(base: &str, part: &str) -> (r: String)
    ensures
        r@ == join_path(base@, part@),
{
    let part_len = part.unicode_len();
    if part_len > 0 && part.get_char(0) == '/' {
        return String::from_str(part);
    }
    let base_len = base.unicode_len();
    let mut r = String::from_str(base);
    if base_len > 0 && base.get_char(base_len - 1) != '/' {
        push_char(&mut r, '/');
    }
    r.append(part);
    r
}

} // verus!

verus! {

/// `p` starts with `'#'` and holds no other `'#'`.
pub open spec fn hash_led(p: Seq<char>) -> bool {
    p.len() > 0 && p[0] == '#' && forall|k: int| 0 < k < p.len() ==> p[k] != '#'
}

/// `p` holds no line break.
pub open spec fn single_line(p: Seq<char>) -> bool {
    forall|k: int| 0 <= k < p.len() ==> p[k] != '\n'
}

/// A pattern longer than the text does not occur in it.
pub proof fn lemma_too_long_no_occurrence(s: Seq<char>, p: Seq<char>)
    requires
        p.len() > s.len(),
    ensures
        !occurs_in(s, p),
{
}

/// When `x` does not hold `p` and `p` is `'#'`-led, the first occurrence of `p`
/// in `x + p + z` is the one right after `x`.
pub proof fn lemma_first_occurrence(x: Seq<char>, p: Seq<char>, z: Seq<char>)
    requires
        !occurs_in(x, p),
        hash_led(p),
    ensures
        find(x + p + z, p) == Some(x.len() as int),
{
    let s = x + p + z;
    let n = x.len() as int;
    assert(s.subrange(n, n + p.len()) =~= p);
    assert forall|j: int| 0 <= j < n implies !occurs_at(s, p, j) by {
        if occurs_at(s, p, j) {
            if j + p.len() <= n {
                assert(x.subrange(j, j + p.len()) =~= s.subrange(j, j + p.len()));
                assert(occurs_at(x, p, j));
            } else {
                let k = n - j;
                assert(s.subrange(j, j + p.len())[k] == s[n]);
                assert(s[n] == p[0]);
            }
        }
    }
    lemma_find_is(s, p, n);
}

/// Two texts that do not hold `p` do not hold it together either, when no
/// occurrence can straddle the place where they meet: `b` opens with `'#'`
/// and `p` is `'#'`-led, or a line break stands at the join and `p` is a
/// single line.
pub proof fn lemma_no_occurrence_concat(a: Seq<char>, b: Seq<char>, p: Seq<char>)
    requires
        !occurs_in(a, p),
        !occurs_in(b, p),
        p.len() > 0,
        (b.len() > 0 && b[0] == '#' && hash_led(p)) || (a.len() > 0 && a.last() == '\n'
            && single_line(p)) || (b.len() > 0 && b[0] == '\n' && single_line(p)),
    ensures
        !occurs_in(a + b, p),
{
    let s = a + b;
    let n = a.len() as int;
    assert forall|i: int| !occurs_at(s, p, i) by {
        if occurs_at(s, p, i) {
            if i + p.len() <= n {
                assert(a.subrange(i, i + p.len()) =~= s.subrange(i, i + p.len()));
                assert(occurs_at(a, p, i));
            } else if i >= n {
                assert(b.subrange(i - n, i - n + p.len()) =~= s.subrange(i, i + p.len()));
                assert(occurs_at(b, p, i - n));
            } else {
                if b.len() > 0 && b[0] == '#' && hash_led(p) {
                    assert(s.subrange(i, i + p.len())[n - i] == s[n]);
                } else if a.len() > 0 && a.last() == '\n' && single_line(p) {
                    assert(s.subrange(i, i + p.len())[n - 1 - i] == s[n - 1]);
                } else {
                    assert(s.subrange(i, i + p.len())[n - i] == s[n]);
                }
            }
        }
    }
}

} // verus!

verus! {

/// `a + b` as a new string.
pub fn cat2(a: &str, b: &str) -> (r: String)
    ensures
        r@ == a@ + b@,
{
    let mut r = String::from_str(a);
    r.append(b);
    r
}

/// `a + b + c` as a new string.
pub fn cat3(a: &str, b: &str, c: &str) -> (r: String)
    ensures
        r@ == a@ + b@ + c@,
{
    let mut r = String::from_str(a);
    r.append(b);
    r.append(c);
    r
}

/// `a + b + c + d` as a new string.
pub fn cat4(a: &str, b: &str, c: &str, d: &str) -> (r: String)
    ensures
        r@ == a@ + b@ + c@ + d@,
{
    let mut r = String::from_str(a);
    r.append(b);
    r.append(c);
    r.append(d);
    r
}

} // verus!

verus! {

/// Whether two strings hold the same characters.
pub fn eq_str(a: &str, b: &str) -> (r: bool)
    ensures
        r == (a@ == b@),
{
    let av = chars_of(a);
    let bv = chars_of(b);
    if av.len() != bv.len() {
        return false;
    }
    let mut k: usize = 0;
    while k < av.len()
        invariant
            av@ == a@,
            bv@ == b@,
            av.len() == bv.len(),
            k <= av.len(),
            forall|t: int| 0 <= t < k ==> av@[t] == bv@[t],
        decreases av.len() - k,
    {
        if av[k] != bv[k] {
            return false;
        }
        k = k + 1;
    }
    assert(a@ =~= b@);
    true
}

} // verus!

verus! {

/// The decimal representation of an integer, with a minus sign when negative.
pub open spec fn signed_decimal(n: int) -> Seq<char> {
    if n < 0 {
        seq!['-'] + decimal((-n) as nat)
    } else {
        decimal(n as nat)
    }
}

/// Appends the decimal representation of `n` to `s`.
pub fn push_signed_decimal(s: &mut String, n: i64)
    ensures
        final(s)@ == old(s)@ + signed_decimal(n as int),
{
    if n < 0 {
        push_char(s, '-');
        let magnitude: u64 = if n == i64::MIN {
            9_223_372_036_854_775_808u64
        } else {
            (-n) as u64
        };
        push_decimal(s, magnitude);
    } else {
        push_decimal(s, n as u64);
    }
}

} // verus!
