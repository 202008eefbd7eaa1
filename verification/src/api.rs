use vstd::prelude::*;
use vstd::string::*;
use crate::text::{cat3, chars_of, push_char, starts_with, starts_with_str};

verus! {

/// Size and estimated row count of a table in the `public` schema.
#[derive(Debug, Clone, PartialEq, Eq)]
pub struct TableMeta {
    pub name: String,
    pub bytes: i64,
    pub live_rows_estimate: i64,
}

/// A SQL statement sent to the HTTP API.
#[derive(Debug, Clone, PartialEq, Eq)]
pub struct QueryRequest {
    pub query: String,
}

/// The catalog query behind the table listing of the HTTP API.
pub const TABLES_QUERY: &'static str = "
        SELECT
            c.relname AS name,
            pg_total_relation_size(c.oid) AS bytes,
            pg_stat_get_live_tuples(c.oid) AS live_rows_estimate
        FROM
            pg_class c
            JOIN pg_namespace n ON n.oid = c.relnamespace
        WHERE
            n.nspname = 'public'
            AND c.relkind = 'r'
    ";

/// Whether a character has the Unicode `White_Space` property, which is what
/// `char::is_whitespace` tests: tab through carriage return, space, next
/// line, no-break space, Ogham space mark, the spaces from en quad to hair
/// space, line and paragraph separators, narrow no-break space, medium
/// mathematical space and ideographic space.
pub open spec fn white_space(c: char) -> bool {
    let u = c as u32;
    (0x9 <= u <= 0xd) || u == 0x20 || u == 0x85 || u == 0xa0 || u == 0x1680 || (0x2000 <= u
        <= 0x200a) || u == 0x2028 || u == 0x2029 || u == 0x202f || u == 0x205f || u == 0x3000
}

fn is_white_space(c: char) -> (r: bool)
    ensures
        r == white_space(c),
{
    let u = c as u32;
    (0x9 <= u && u <= 0xd) || u == 0x20 || u == 0x85 || u == 0xa0 || u == 0x1680 || (0x2000 <= u
        && u <= 0x200a) || u == 0x2028 || u == 0x2029 || u == 0x202f || u == 0x205f || u == 0x3000
}

/// The uppercase mapping of a text (`str::to_uppercase`).
pub uninterp spec fn unicode_uppercase(s: Seq<char>) -> Seq<char>;

/// How many characters at the start of `s` are white space.
pub open spec fn leading_space(s: Seq<char>) -> nat
    decreases s.len(),
{
    if s.len() > 0 && white_space(s[0]) {
        1 + leading_space(s.drop_first())
    } else {
        0
    }
}

/// How many characters at the end of `s` are white space.
pub open spec fn trailing_space(s: Seq<char>) -> nat
    decreases s.len(),
{
    if s.len() > 0 && white_space(s.last()) {
        1 + trailing_space(s.drop_last())
    } else {
        0
    }
}

/// `s` without its leading and trailing white space.
pub open spec fn trimmed(s: Seq<char>) -> Seq<char> {
    let front = s.skip(leading_space(s) as int);
    front.take(front.len() - trailing_space(front))
}

proof fn lemma_leading_space(s: Seq<char>, i: int)
    requires
        0 <= i <= s.len(),
        forall|j: int| 0 <= j < i ==> white_space(#[trigger] s[j]),
        i == s.len() || !white_space(s[i]),
    ensures
        leading_space(s) == i,
    decreases i,
{
    if i > 0 {
        let t = s.drop_first();
        assert forall|j: int| 0 <= j < i - 1 implies white_space(#[trigger] t[j]) by {
            assert(t[j] == s[j + 1]);
        }
        if i < s.len() {
            assert(t[i - 1] == s[i]);
        }
        lemma_leading_space(t, i - 1);
    }
}

proof fn lemma_trailing_space(s: Seq<char>, k: int)
    requires
        0 <= k <= s.len(),
        forall|j: int| k <= j < s.len() ==> white_space(#[trigger] s[j]),
        k == 0 || !white_space(s[k - 1]),
    ensures
        trailing_space(s) == s.len() - k,
    decreases s.len() - k,
{
    if k < s.len() {
        let t = s.drop_last();
        assert forall|j: int| k <= j < t.len() implies white_space(#[trigger] t[j]) by {
            assert(t[j] == s[j]);
        }
        if k > 0 {
            assert(t[k - 1] == s[k - 1]);
        }
        lemma_trailing_space(t, k);
    }
}

/// `s` without its leading and trailing white space (what `str::trim` gives).
fn trim(s: &str) -> (r: String)
    ensures
        r@ == trimmed(s@),
        r@.len() > 0 ==> !white_space(r@[0]) && !white_space(r@.last()),
{
    let v = chars_of(s);
    let mut i: usize = 0;
    while i < v.len() && is_white_space(v[i])
        invariant
            i <= v.len(),
            forall|j: int| 0 <= j < i ==> white_space(#[trigger] v@[j]),
        decreases v.len() - i,
    {
        i = i + 1;
    }
    proof {
        lemma_leading_space(v@, i as int);
    }
    let ghost front = v@.skip(i as int);
    let mut k: usize = v.len();
    while k > i && is_white_space(v[k - 1])
        invariant
            i <= k <= v.len(),
            forall|j: int| k <= j < v.len() ==> white_space(#[trigger] v@[j]),
        decreases k - i,
    {
        k = k - 1;
    }
    proof {
        assert forall|j: int| k - i <= j < front.len() implies white_space(#[trigger] front[j]) by {
            assert(front[j] == v@[j + i]);
        }
        if k > i {
            assert(front[k - i - 1] == v@[k - 1]);
        }
        lemma_trailing_space(front, k - i);
    }
    let mut r = String::new();
    let mut m: usize = i;
    while m < k
        invariant
            i <= m <= k <= v.len(),
            r@ == v@.subrange(i as int, m as int),
        decreases k - m,
    {
        push_char(&mut r, v[m]);
        assert(v@.subrange(i as int, m + 1) =~= v@.subrange(i as int, m as int).push(v@[m as int]));
        m = m + 1;
    }
    assert(trimmed(s@) =~= v@.subrange(i as int, k as int));
    r
}

/// Calls `str::to_uppercase`. Claimed: its result is the uppercase mapping
/// `unicode_uppercase` of its argument, which depends on the text alone.
#[verifier::external_body]
fn to_uppercase(s: &str) -> (r: String)
    ensures
        r@ == unicode_uppercase(s@),
{
    s.to_uppercase()
}

/// Whether an uppercased statement reads rows: it starts with `SELECT`,
/// `WITH` or `EXPLAIN`.
pub open spec fn reads_rows(upper: Seq<char>) -> bool {
    starts_with(upper, "SELECT"@) || starts_with(upper, "WITH"@) || starts_with(upper, "EXPLAIN"@)
}

/// Whether an uppercased statement reads rows.
pub fn is_read_query_text(upper: &str) -> (r: bool)
    ensures
        r == reads_rows(upper@),
{
    starts_with_str(upper, "SELECT") || starts_with_str(upper, "WITH") || starts_with_str(
        upper,
        "EXPLAIN",
    )
}

/// Whether a statement sent to the HTTP API reads rows (and is answered with
/// them as JSON) rather than changing data (and is answered with a count).
pub fn is_read_query(query: &str) -> (r: bool)
    ensures
        r == reads_rows(unicode_uppercase(trimmed(query@))),
{
    let t = trim(query);
    let upper = to_uppercase(t.as_str());
    is_read_query_text(upper.as_str())
}

/// `SELECT json_agg(t) as result FROM (<query>) as t`
pub open spec fn json_agg_query_of(query: Seq<char>) -> Seq<char> {
    "SELECT json_agg(t) as result FROM ("@ + query + ") as t"@
}

/// A statement that has the server turn a query's rows into one JSON array.
pub fn json_agg_query(query: &str) -> (r: String)
    ensures
        r@ == json_agg_query_of(query@),
{
    cat3("SELECT json_agg(t) as result FROM (", query, ") as t")
}

} // verus!
