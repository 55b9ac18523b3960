//! Plain-text utilities the pipeline is specified over: whitespace trimming
//! of operator and tool output, and decimal parsing and rendering for the
//! disambiguation index and the catalog identifiers.

use vstd::prelude::*;
use vstd::string::StrSliceExecFns;
use vstd::string::StringExecFns;

verus! {

/// ASCII whitespace, as a console or a tool appends it to a line.
pub open spec fn is_space(c: char) -> bool {
    c == ' ' || c == '\n' || c == '\r' || c == '\t'
}

/// A decimal digit.
pub open spec fn is_digit(c: char) -> bool {
    '0' <= c && c <= '9'
}

/// The numeric value of one digit.
pub open spec fn digit_val(c: char) -> int {
    c as int - '0' as int
}

/// Every character of the sequence is a decimal digit.
pub open spec fn all_digits(s: Seq<char>) -> bool {
    forall|i: int| 0 <= i < s.len() ==> is_digit(s[i])
}

/// The sequence with its leading whitespace removed.
pub open spec fn ltrim(s: Seq<char>) -> Seq<char>
    decreases s.len(),
{
    if s.len() > 0 && is_space(s[0]) {
        ltrim(s.drop_first())
    } else {
        s
    }
}

/// The sequence with its trailing whitespace removed.
pub open spec fn rtrim(s: Seq<char>) -> Seq<char>
    decreases s.len(),
{
    if s.len() > 0 && is_space(s.last()) {
        rtrim(s.drop_last())
    } else {
        s
    }
}

/// The sequence with whitespace removed from both ends.
pub open spec fn trimmed(s: Seq<char>) -> Seq<char> {
    rtrim(ltrim(s))
}

/// The numeric value of a digit string, most significant digit first.
pub open spec fn dec_value(s: Seq<char>) -> int
    decreases s.len(),
{
    if s.len() == 0 {
        0
    } else {
        dec_value(s.drop_last()) * 10 + digit_val(s.last())
    }
}

/// What an operator response denotes: the value of its trimmed digit string,
/// or nothing when the response is not a plain decimal number.
pub open spec fn parsed_index(s: Seq<char>) -> Option<int> {
    if trimmed(s).len() > 0 && all_digits(trimmed(s)) {
        Some(dec_value(trimmed(s)))
    } else {
        None
    }
}

proof fn lemma_ltrim_at(s: Seq<char>, i: int)
    requires
        0 <= i <= s.len(),
        forall|k: int| 0 <= k < i ==> is_space(s[k]),
        i == s.len() || !is_space(s[i]),
    ensures
        ltrim(s) =~= s.subrange(i, s.len() as int),
    decreases i,
{
    if i == 0 {
        assert(ltrim(s) == s);
        assert(s =~= s.subrange(0, s.len() as int));
    } else {
        assert(is_space(s[0]));
        let t = s.drop_first();
        assert(t =~= s.subrange(1, s.len() as int));
        assert(forall|k: int| 0 <= k < i - 1 ==> is_space(t[k]));
        lemma_ltrim_at(t, i - 1);
        assert(t.subrange(i - 1, t.len() as int) =~= s.subrange(i, s.len() as int));
    }
}

proof fn lemma_rtrim_at(s: Seq<char>, j: int)
    requires
        0 <= j <= s.len(),
        forall|k: int| j <= k < s.len() ==> is_space(s[k]),
        j == 0 || !is_space(s[j - 1]),
    ensures
        rtrim(s) =~= s.subrange(0, j),
    decreases s.len() - j,
{
    if j == s.len() {
        if s.len() > 0 {
            assert(!is_space(s.last()));
        }
        assert(rtrim(s) == s);
        assert(s =~= s.subrange(0, s.len() as int));
    } else {
        assert(is_space(s.last()));
        let t = s.drop_last();
        assert(t =~= s.subrange(0, s.len() - 1));
        lemma_rtrim_at(t, j);
    }
}

/// Trimming a sequence with no whitespace at either end leaves it unchanged.
pub proof fn lemma_trim_of_clean(s: Seq<char>)
    requires
        s.len() == 0 || (!is_space(s[0]) && !is_space(s[s.len() - 1])),
    ensures
        trimmed(s) =~= s,
{
    lemma_ltrim_at(s, 0);
    assert(ltrim(s) =~= s);
    lemma_rtrim_at(s, s.len() as int);
    assert(rtrim(s) =~= s.subrange(0, s.len() as int));
    assert(s.subrange(0, s.len() as int) =~= s);
}

/// Removes leading and trailing ASCII whitespace.
pub fn trim_spaces(s: &str) -> (r: String)
    ensures
        r@ == trimmed(s@),
{
    let n = s.unicode_len();
    let mut start: usize = 0;
    loop
        invariant
            start <= n,
            n == s@.len(),
            forall|k: int| 0 <= k < start ==> is_space(s@[k]),
        ensures
            start <= n,
            forall|k: int| 0 <= k < start ==> is_space(s@[k]),
            start == n || !is_space(s@[start as int]),
        decreases n - start,
    {
        if start >= n {
            break ;
        }
        let c = s.get_char(start);
        if !(c == ' ' || c == '\n' || c == '\r' || c == '\t') {
            break ;
        }
        start = start + 1;
    }
    let mut end: usize = n;
    loop
        invariant
            start <= end <= n,
            n == s@.len(),
            start == n || !is_space(s@[start as int]),
            forall|k: int| end <= k < n ==> is_space(s@[k]),
        ensures
            start <= end <= n,
            forall|k: int| end <= k < n ==> is_space(s@[k]),
            end == start || !is_space(s@[end - 1]),
        decreases end,
    {
        if end <= start {
            break ;
        }
        let c = s.get_char(end - 1);
        if !(c == ' ' || c == '\n' || c == '\r' || c == '\t') {
            break ;
        }
        end = end - 1;
    }
    proof {
        lemma_ltrim_at(s@, start as int);
        let u = s@.subrange(start as int, n as int);
        assert(forall|k: int| end - start <= k < u.len() ==> is_space(u[k]));
        lemma_rtrim_at(u, end - start);
        assert(trimmed(s@) =~= s@.subrange(start as int, end as int));
    }
    let piece = s.substring_char(start, end);
    piece.to_owned()
}

proof fn lemma_dec_value_nonneg(s: Seq<char>)
    requires
        all_digits(s),
    ensures
        dec_value(s) >= 0,
    decreases s.len(),
{
    if s.len() > 0 {
        assert(all_digits(s.drop_last()));
        lemma_dec_value_nonneg(s.drop_last());
    }
}

proof fn lemma_dec_value_step(s: Seq<char>, i: int)
    requires
        0 <= i < s.len(),
    ensures
        dec_value(s.subrange(0, i + 1)) == dec_value(s.subrange(0, i)) * 10 + digit_val(s[i]),
{
    let t = s.subrange(0, i + 1);
    assert(t.drop_last() =~= s.subrange(0, i));
    assert(t.last() == s[i]);
}

proof fn lemma_dec_value_mono(s: Seq<char>, i: int, j: int)
    requires
        0 <= i <= j <= s.len(),
        all_digits(s),
    ensures
        dec_value(s.subrange(0, i)) <= dec_value(s.subrange(0, j)),
    decreases j - i,
{
    if i < j {
        lemma_dec_value_mono(s, i, j - 1);
        lemma_dec_value_step(s, j - 1);
        assert(all_digits(s.subrange(0, j - 1)));
        lemma_dec_value_nonneg(s.subrange(0, j - 1));
        assert(is_digit(s[j - 1]));
    }
}

/// Parses an operator response as a decimal index: the trimmed response must
/// be a non-empty digit string whose value fits the machine's index type.
pub fn parse_index(s: &str) -> (r: Option<usize>)
    ensures
        r is Some ==> parsed_index(s@) == Some(r.unwrap() as int),
        r is None ==> (parsed_index(s@) is None || parsed_index(s@).unwrap() > usize::MAX),
{
    let t = trim_spaces(s);
    let body = t.as_str();
    let m = body.unicode_len();
    if m == 0 {
        return None;
    }
    let mut i: usize = 0;
    let mut acc: usize = 0;
    while i < m
        invariant
            i <= m,
            m == body@.len(),
            body@ == trimmed(s@),
            forall|k: int| 0 <= k < i ==> is_digit(body@[k]),
            acc as int == dec_value(body@.subrange(0, i as int)),
        decreases m - i,
    {
        let c = body.get_char(i);
        if !(c >= '0' && c <= '9') {
            assert(!is_digit(body@[i as int]));
            return None;
        }
        let d: usize = ((c as u32) - ('0' as u32)) as usize;
        assert(d as int == digit_val(body@[i as int]));
        if acc > (usize::MAX - d) / 10 {
            proof {
                assert(acc as int * 10 + d as int > usize::MAX) by (nonlinear_arith)
                    requires
                        acc as int > (usize::MAX as int - d as int) / 10,
                        0 <= d as int <= 9,
                ;
                lemma_dec_value_step(body@, i as int);
                if all_digits(body@) {
                    lemma_dec_value_mono(body@, i as int + 1, m as int);
                    assert(body@.subrange(0, m as int) =~= body@);
                    assert(dec_value(body@) > usize::MAX);
                }
            }
            return None;
        }
        proof {
            assert(acc as int * 10 + d as int <= usize::MAX) by (nonlinear_arith)
                requires
                    acc as int <= (usize::MAX as int - d as int) / 10,
                    0 <= d as int <= 9,
                    acc as int >= 0,
            ;
            lemma_dec_value_step(body@, i as int);
        }
        acc = acc * 10 + d;
        i = i + 1;
    }
    proof {
        assert(body@.subrange(0, m as int) =~= body@);
    }
    Some(acc)
}

/// One digit as text.
fn digit_str(d: u64) -> (r: &'static str)
    requires
        d < 10,
    ensures
        r@.len() == 1,
        is_digit(r@[0]),
        digit_val(r@[0]) == d as int,
        r@[0] == '0' <==> d == 0,
{
    proof {
        reveal_strlit("0");
        reveal_strlit("1");
        reveal_strlit("2");
        reveal_strlit("3");
        reveal_strlit("4");
        reveal_strlit("5");
        reveal_strlit("6");
        reveal_strlit("7");
        reveal_strlit("8");
        reveal_strlit("9");
    }
    if d == 0 {
        "0"
    } else if d == 1 {
        "1"
    } else if d == 2 {
        "2"
    } else if d == 3 {
        "3"
    } else if d == 4 {
        "4"
    } else if d == 5 {
        "5"
    } else if d == 6 {
        "6"
    } else if d == 7 {
        "7"
    } else if d == 8 {
        "8"
    } else {
        "9"
    }
}

/// Renders a number as its canonical decimal text: non-empty, all digits, no
/// leading zero, and parsing it back yields the number again.
pub fn u64_to_string(v: u64) -> (r: String)
    ensures
        r@.len() > 0,
        all_digits(r@),
        dec_value(r@) == v as int,
        v > 0 ==> r@[0] != '0',
        parsed_index(r@) == Some(v as int),
    decreases v,
{
    let r: String;
    if v < 10 {
        r = digit_str(v).to_owned();
        proof {
            assert(r@.drop_last() =~= Seq::<char>::empty());
            assert(dec_value(r@.drop_last()) == 0);
            assert(r@.last() == r@[0]);
            assert(dec_value(r@) == digit_val(r@[0]));
        }
    } else {
        let high = u64_to_string(v / 10);
        let low = digit_str(v % 10);
        r = high.concat(low);
        proof {
            assert(r@.drop_last() =~= high@);
            assert(r@.last() == low@[0]);
            assert(dec_value(r@) == dec_value(high@) * 10 + digit_val(low@[0]));
            assert(v as int == (v as int / 10) * 10 + (v as int % 10)) by (nonlinear_arith);
            assert((v / 10) as int == v as int / 10);
            assert((v % 10) as int == v as int % 10);
            assert(dec_value(r@) == v as int);
        }
    }
    proof {
        assert(!is_space(r@[0]));
        assert(!is_space(r@[r@.len() - 1]));
        lemma_trim_of_clean(r@);
    }
    r
}

} // verus!
