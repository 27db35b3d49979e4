//! Text helpers shared by the validation rules: whitespace trimming, exact
//! comparison, and the small rewrites used when building SQL and URLs.

use vstd::prelude::*;

verus! {

/// The Unicode `White_Space` code points, the set that trimming removes.
pub open spec fn is_white_space(c: char) -> bool {
    let u = c as u32;
    ||| 0x09 <= u <= 0x0d
    ||| u == 0x20
    ||| u == 0x85
    ||| u == 0xa0
    ||| u == 0x1680
    ||| 0x2000 <= u <= 0x200a
    ||| u == 0x2028
    ||| u == 0x2029
    ||| u == 0x202f
    ||| u == 0x205f
    ||| u == 0x3000
}

/// The characters of an optional string.
pub open spec fn text_option(o: Option<String>) -> Option<Seq<char>> {
    match o {
        Some(s) => Some(s@),
        None => None,
    }
}

/// The characters of an optional string slice.
pub open spec fn str_option(o: Option<&str>) -> Option<Seq<char>> {
    match o {
        Some(s) => Some(s@),
        None => None,
    }
}

/// `s` without its leading white space.
pub open spec fn trim_start(s: Seq<char>) -> Seq<char>
    decreases s.len(),
{
    if s.len() > 0 && is_white_space(s[0]) {
        trim_start(s.drop_first())
    } else {
        s
    }
}

/// `s` without its trailing white space.
pub open spec fn trim_end(s: Seq<char>) -> Seq<char>
    decreases s.len(),
{
    if s.len() > 0 && is_white_space(s.last()) {
        trim_end(s.drop_last())
    } else {
        s
    }
}

/// `s` without leading and trailing white space.
pub open spec fn trimmed(s: Seq<char>) -> Seq<char> {
    trim_end(trim_start(s))
}

/// An optional text trimmed, with a blank one taken as absent.
pub open spec fn trimmed_non_blank(o: Option<Seq<char>>) -> Option<Seq<char>> {
    match o {
        Some(s) => if trimmed(s).len() == 0 {
            None
        } else {
            Some(trimmed(s))
        },
        None => None,
    }
}

/// `s` with every trailing `c` removed.
pub open spec fn strip_trailing(s: Seq<char>, c: char) -> Seq<char>
    decreases s.len(),
{
    if s.len() > 0 && s.last() == c {
        strip_trailing(s.drop_last(), c)
    } else {
        s
    }
}

/// `s` with every single quote written twice, as an SQL string literal needs it.
pub open spec fn double_quotes(s: Seq<char>) -> Seq<char>
    decreases s.len(),
{
    if s.len() == 0 {
        Seq::empty()
    } else if s.last() == '\'' {
        double_quotes(s.drop_last()) + seq!['\'', '\'']
    } else {
        double_quotes(s.drop_last()).push(s.last())
    }
}

/// How many single quotes `s` holds.
pub open spec fn quote_count(s: Seq<char>) -> nat
    decreases s.len(),
{
    if s.len() == 0 {
        0
    } else if s.last() == '\'' {
        quote_count(s.drop_last()) + 1
    } else {
        quote_count(s.drop_last())
    }
}

/// The characters of `s` other than single quotes, in order.
pub open spec fn without_quotes(s: Seq<char>) -> Seq<char>
    decreases s.len(),
{
    if s.len() == 0 {
        Seq::empty()
    } else if s.last() == '\'' {
        without_quotes(s.drop_last())
    } else {
        without_quotes(s.drop_last()).push(s.last())
    }
}

/// The body of an SQL string literal read back: each `''` read as one `'`,
/// every other character kept.
pub open spec fn read_sql_literal(t: Seq<char>) -> Seq<char>
    decreases t.len(),
{
    if t.len() >= 2 && t.last() == '\'' && t[t.len() - 2] == '\'' {
        read_sql_literal(t.subrange(0, t.len() - 2)).push('\'')
    } else if t.len() > 0 {
        read_sql_literal(t.drop_last()).push(t.last())
    } else {
        Seq::empty()
    }
}

/// Quoting for SQL changes nothing but single quotes: reading the quoted text
/// back as a string literal gives `s` again, every character other than a
/// single quote comes through unchanged and in order, and the text grows by
/// exactly one character per quote.
pub proof fn lemma_double_quotes_round_trip(s: Seq<char>)
    ensures
        read_sql_literal(double_quotes(s)) == s,
        without_quotes(double_quotes(s)) == without_quotes(s),
        double_quotes(s).len() == s.len() + quote_count(s),
        quote_count(double_quotes(s)) == 2 * quote_count(s),
    decreases s.len(),
{
    if s.len() > 0 {
        let p = s.drop_last();
        let d = double_quotes(p);
        lemma_double_quotes_round_trip(p);
        if s.last() == '\'' {
            let t = d + seq!['\'', '\''];
            assert(t.subrange(0, t.len() - 2) =~= d);
            assert(t.drop_last() =~= d.push('\''));
            assert(d.push('\'').drop_last() =~= d);
            assert(without_quotes(d.push('\'')) == without_quotes(d));
            assert(without_quotes(t) == without_quotes(d.push('\'')));
            assert(quote_count(d.push('\'')) == quote_count(d) + 1);
            assert(quote_count(t) == quote_count(d.push('\'')) + 1);
            assert(p.push('\'') =~= s);
        } else {
            let t = d.push(s.last());
            assert(t.drop_last() =~= d);
            assert(p.push(s.last()) =~= s);
        }
    }
}

proof fn lemma_trim_start_skip(s: Seq<char>, k: int)
    requires
        0 <= k <= s.len(),
        forall|m: int| 0 <= m < k ==> is_white_space(#[trigger] s[m]),
    ensures
        trim_start(s) == trim_start(s.subrange(k, s.len() as int)),
    decreases k,
{
    if k > 0 {
        lemma_trim_start_skip(s.drop_first(), k - 1);
        assert(s.drop_first().subrange(k - 1, s.drop_first().len() as int) =~= s.subrange(
            k,
            s.len() as int,
        ));
    } else {
        assert(s.subrange(0, s.len() as int) =~= s);
    }
}

proof fn lemma_trim_end_skip(s: Seq<char>, k: int)
    requires
        0 <= k <= s.len(),
        forall|m: int| s.len() - k <= m < s.len() ==> is_white_space(#[trigger] s[m]),
    ensures
        trim_end(s) == trim_end(s.subrange(0, s.len() - k)),
    decreases k,
{
    if k > 0 {
        lemma_trim_end_skip(s.drop_last(), k - 1);
        assert(s.drop_last().subrange(0, s.drop_last().len() - (k - 1)) =~= s.subrange(
            0,
            s.len() - k,
        ));
    } else {
        assert(s.subrange(0, s.len() as int) =~= s);
    }
}

proof fn lemma_strip_trailing_skip(s: Seq<char>, c: char, k: int)
    requires
        0 <= k <= s.len(),
        forall|m: int| s.len() - k <= m < s.len() ==> #[trigger] s[m] == c,
    ensures
        strip_trailing(s, c) == strip_trailing(s.subrange(0, s.len() - k), c),
    decreases k,
{
    if k > 0 {
        lemma_strip_trailing_skip(s.drop_last(), c, k - 1);
        assert(s.drop_last().subrange(0, s.drop_last().len() - (k - 1)) =~= s.subrange(
            0,
            s.len() - k,
        ));
    } else {
        assert(s.subrange(0, s.len() as int) =~= s);
    }
}

proof fn lemma_trim_start_shape(s: Seq<char>)
    ensures
        trim_start(s).len() == 0 || !is_white_space(trim_start(s)[0]),
    decreases s.len(),
{
    if s.len() > 0 && is_white_space(s[0]) {
        lemma_trim_start_shape(s.drop_first());
    }
}

proof fn lemma_trim_end_shape(s: Seq<char>)
    ensures
        trim_end(s).len() == 0 || !is_white_space(trim_end(s).last()),
        trim_end(s).len() <= s.len(),
        forall|i: int| 0 <= i < trim_end(s).len() ==> #[trigger] trim_end(s)[i] == s[i],
    decreases s.len(),
{
    if s.len() > 0 && is_white_space(s.last()) {
        lemma_trim_end_shape(s.drop_last());
    }
}

proof fn lemma_trim_start_suffix(s: Seq<char>)
    ensures
        trim_start(s).len() <= s.len(),
        trim_start(s) =~= s.subrange(s.len() - trim_start(s).len(), s.len() as int),
        forall|m: int| 0 <= m < s.len() - trim_start(s).len() ==> is_white_space(#[trigger] s[m]),
    decreases s.len(),
{
    if s.len() > 0 && is_white_space(s[0]) {
        let d = s.drop_first();
        lemma_trim_start_suffix(d);
        assert(d.subrange(d.len() - trim_start(d).len(), d.len() as int) =~= s.subrange(
            s.len() - trim_start(s).len(),
            s.len() as int,
        ));
        assert forall|m: int| 0 <= m < s.len() - trim_start(s).len() implies is_white_space(
            #[trigger] s[m],
        ) by {
            if m > 0 {
                assert(s[m] == d[m - 1]);
            }
        }
    }
}

proof fn lemma_trim_end_prefix(s: Seq<char>)
    ensures
        trim_end(s).len() <= s.len(),
        trim_end(s) =~= s.subrange(0, trim_end(s).len() as int),
        forall|m: int| trim_end(s).len() <= m < s.len() ==> is_white_space(#[trigger] s[m]),
    decreases s.len(),
{
    lemma_trim_end_shape(s);
    if s.len() > 0 && is_white_space(s.last()) {
        let d = s.drop_last();
        lemma_trim_end_prefix(d);
        assert forall|m: int| trim_end(s).len() <= m < s.len() implies is_white_space(
            #[trigger] s[m],
        ) by {
            if m < s.len() - 1 {
                assert(s[m] == d[m]);
            }
        }
    }
}

/// Trimming cuts white space from the two ends and nothing else: the result
/// is the piece `s[i..j]` of `s`, every character outside it is white space,
/// and a non-empty result neither starts nor ends with white space. The
/// returned pair is `(i, j)`.
pub proof fn lemma_trimmed_shape(s: Seq<char>) -> (ij: (int, int))
    ensures
        0 <= ij.0 <= ij.1 <= s.len(),
        trimmed(s) == s.subrange(ij.0, ij.1),
        forall|m: int| 0 <= m < ij.0 ==> is_white_space(#[trigger] s[m]),
        forall|m: int| ij.1 <= m < s.len() ==> is_white_space(#[trigger] s[m]),
        trimmed(s).len() > 0 ==> !is_white_space(trimmed(s)[0]) && !is_white_space(
            trimmed(s).last(),
        ),
{
    let y = trim_start(s);
    let t = trim_end(y);
    lemma_trim_start_suffix(s);
    lemma_trim_end_prefix(y);
    lemma_trim_start_shape(s);
    lemma_trim_end_shape(y);
    let i = s.len() - y.len();
    let j = i + t.len();
    assert(t =~= s.subrange(i, j));
    assert forall|m: int| j <= m < s.len() implies is_white_space(#[trigger] s[m]) by {
        assert(s[m] == y[m - i]);
    }
    if t.len() > 0 {
        assert(t[0] == y[0]);
    }
    (i, j)
}

/// A text trims to nothing exactly when every character of it is white space.
pub proof fn lemma_trimmed_empty_iff_blank(s: Seq<char>)
    ensures
        trimmed(s).len() == 0 <==> forall|k: int| 0 <= k < s.len() ==> is_white_space(#[trigger] s[k]),
{
    let (i, j) = lemma_trimmed_shape(s);
    if trimmed(s).len() == 0 {
        assert forall|k: int| 0 <= k < s.len() implies is_white_space(#[trigger] s[k]) by {
            if k >= i {
                assert(j <= k);
            }
        }
    } else {
        assert(trimmed(s)[0] == s[i]);
    }
}

/// Trimming twice is trimming once.
pub proof fn lemma_trimmed_idempotent(s: Seq<char>)
    ensures
        trimmed(trimmed(s)) == trimmed(s),
{
    let y = trim_start(s);
    let t = trim_end(y);
    lemma_trim_start_shape(s);
    lemma_trim_end_shape(y);
    if t.len() > 0 {
        assert(t[0] == y[0]);
    }
    assert(trim_start(t) == t);
    assert(trim_end(t) == t);
}

/// Whether `c` is Unicode white space.
pub fn is_white_space_char(c: char) -> (r: bool)
    ensures
        r == is_white_space(c),
{
    let u = c as u32;
    (0x09 <= u && u <= 0x0d) || u == 0x20 || u == 0x85 || u == 0xa0 || u == 0x1680 || (0x2000
        <= u && u <= 0x200a) || u == 0x2028 || u == 0x2029 || u == 0x202f || u == 0x205f || u
        == 0x3000
}

/// Appends one character to `s` (`String::push`).
#[verifier::external_body]
pub(crate) fn push_char(s: &mut String, c: char)
    ensures
        final(s)@ == old(s)@.push(c),
{
    s.push(c);
}

/// A copy of `s` as an owned string.
pub fn owned(s: &str) -> (r: String)
    ensures
        r@ == s@,
{
    String::from_str(s)
}

/// `s` without leading and trailing white space.
pub fn trim(s: &str) -> (r: String)
    ensures
        r@ == trimmed(s@),
{
    let n = s.unicode_len();
    let mut i: usize = 0;
    while i < n && is_white_space_char(s.get_char(i))
        invariant
            n == s@.len(),
            i <= n,
            forall|m: int| 0 <= m < i ==> is_white_space(#[trigger] s@[m]),
        decreases n - i,
    {
        i = i + 1;
    }
    let mut j: usize = n;
    while j > i && is_white_space_char(s.get_char(j - 1))
        invariant
            n == s@.len(),
            i <= j <= n,
            forall|m: int| j <= m < n ==> is_white_space(#[trigger] s@[m]),
        decreases j,
    {
        j = j - 1;
    }
    let t = s.substring_char(i, j);
    proof {
        lemma_trim_start_skip(s@, i as int);
        let u = s@.subrange(i as int, n as int);
        assert(trim_start(u) == u);
        assert forall|m: int| u.len() - (n - j) <= m < u.len() implies is_white_space(
            #[trigger] u[m],
        ) by {
            assert(u[m] == s@[i + m]);
        }
        lemma_trim_end_skip(u, (n - j) as int);
        assert(u.subrange(0, u.len() - (n - j)) =~= t@);
        assert(trim_end(t@) == t@);
    }
    owned(t)
}

/// Whether `s` is empty or white space only.
pub fn is_blank(s: &str) -> (r: bool)
    ensures
        r == (trimmed(s@).len() == 0),
{
    let t = trim(s);
    t.as_str().unicode_len() == 0
}

/// `a`, `b` and `c` joined.
pub fn joined3(a: &str, b: &str, c: &str) -> (r: String)
    ensures
        r@ == a@ + b@ + c@,
{
    let mut r = String::from_str(a);
    r.append(b);
    r.append(c);
    r
}

/// Whether `a` and `b` hold the same characters.
pub fn same_text(a: &str, b: &str) -> (r: bool)
    ensures
        r == (a@ == b@),
{
    let n = a.unicode_len();
    if n != b.unicode_len() {
        return false;
    }
    let mut i: usize = 0;
    while i < n
        invariant
            n == a@.len(),
            n == b@.len(),
            i <= n,
            forall|m: int| 0 <= m < i ==> a@[m] == b@[m],
        decreases n - i,
    {
        if a.get_char(i) != b.get_char(i) {
            return false;
        }
        i = i + 1;
    }
    assert(a@ =~= b@);
    true
}

/// `s` with every trailing `c` removed (`trim_end_matches` with one character).
pub fn without_trailing(s: &str, c: char) -> (r: String)
    ensures
        r@ == strip_trailing(s@, c),
{
    let n = s.unicode_len();
    let mut j: usize = n;
    while j > 0 && s.get_char(j - 1) == c
        invariant
            n == s@.len(),
            j <= n,
            forall|m: int| j <= m < n ==> #[trigger] s@[m] == c,
        decreases j,
    {
        j = j - 1;
    }
    let t = s.substring_char(0, j);
    proof {
        lemma_strip_trailing_skip(s@, c, (n - j) as int);
        assert(s@.subrange(0, n - (n - j)) =~= t@);
    }
    owned(t)
}

/// `s` with every single quote doubled.
pub fn with_doubled_quotes(s: &str) -> (r: String)
    ensures
        r@ == double_quotes(s@),
{
    let n = s.unicode_len();
    let mut r = String::new();
    let mut i: usize = 0;
    while i < n
        invariant
            n == s@.len(),
            i <= n,
            r@ == double_quotes(s@.subrange(0, i as int)),
        decreases n - i,
    {
        let c = s.get_char(i);
        proof {
            let p = s@.subrange(0, i + 1);
            assert(p.drop_last() =~= s@.subrange(0, i as int));
            assert(p.last() == c);
        }
        if c == '\'' {
            push_char(&mut r, '\'');
            push_char(&mut r, '\'');
        } else {
            push_char(&mut r, c);
        }
        i = i + 1;
    }
    assert(s@.subrange(0, n as int) =~= s@);
    r
}

} // verus!
