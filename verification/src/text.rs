//! String utilities the identity subsystem relies on: ASCII trimming and
//! lowercasing for case-insensitive email keys, locating the local part of an
//! email address, and decimal parsing for duration strings.

use vstd::prelude::*;
use vstd::string::StrSliceExecFns;
use vstd::string::StringExecFns;

verus! {

/// The whitespace characters stripped from both ends of user-supplied keys.
pub open spec fn is_ascii_ws(c: char) -> bool {
    c == ' ' || c == '\t' || c == '\n' || c == '\r'
}

pub open spec fn is_digit_char(c: char) -> bool {
    '0' <= c && c <= '9'
}

pub open spec fn digit_val(c: char) -> int {
    c as int - '0' as int
}

/// ASCII-lowercase a single character; anything outside 'A'..'Z' is kept.
pub open spec fn lower_char(c: char) -> char {
    if 'A' <= c && c <= 'Z' {
        (c as u8 + 32) as char
    } else {
        c
    }
}

pub open spec fn lower_seq(s: Seq<char>) -> Seq<char> {
    s.map_values(|c: char| lower_char(c))
}

/// Index of the first character that is not ASCII whitespace (the length if
/// every character is).
pub open spec fn trim_start_idx(s: Seq<char>) -> int
    decreases s.len(),
{
    if s.len() == 0 || !is_ascii_ws(s[0]) {
        0
    } else {
        1 + trim_start_idx(s.drop_first())
    }
}

/// One past the index of the last character that is not ASCII whitespace
/// (zero if every character is).
pub open spec fn trim_end_idx(s: Seq<char>) -> int
    decreases s.len(),
{
    if s.len() == 0 || !is_ascii_ws(s[s.len() - 1]) {
        s.len() as int
    } else {
        trim_end_idx(s.drop_last())
    }
}

pub open spec fn trim_seq(s: Seq<char>) -> Seq<char> {
    if trim_start_idx(s) <= trim_end_idx(s) {
        s.subrange(trim_start_idx(s), trim_end_idx(s))
    } else {
        Seq::empty()
    }
}

/// The normal form under which emails are stored and compared: trimmed and
/// ASCII-lowercased.
pub open spec fn norm_email(s: Seq<char>) -> Seq<char> {
    lower_seq(trim_seq(s))
}

proof fn lemma_trim_start_idx_bounds(s: Seq<char>)
    ensures
        0 <= trim_start_idx(s) <= s.len(),
        forall|j: int| 0 <= j < trim_start_idx(s) ==> is_ascii_ws(s[j]),
        trim_start_idx(s) < s.len() ==> !is_ascii_ws(s[trim_start_idx(s)]),
    decreases s.len(),
{
    if s.len() == 0 || !is_ascii_ws(s[0]) {
    } else {
        lemma_trim_start_idx_bounds(s.drop_first());
        assert forall|j: int| 0 <= j < trim_start_idx(s) implies is_ascii_ws(s[j]) by {
            if j > 0 {
                assert(s.drop_first()[j - 1] == s[j]);
            }
        }
        if trim_start_idx(s) < s.len() {
            assert(s.drop_first()[trim_start_idx(s) - 1] == s[trim_start_idx(s)]);
        }
    }
}

proof fn lemma_trim_end_idx_bounds(s: Seq<char>)
    ensures
        0 <= trim_end_idx(s) <= s.len(),
        forall|j: int| trim_end_idx(s) <= j < s.len() ==> is_ascii_ws(s[j]),
        trim_end_idx(s) > 0 ==> !is_ascii_ws(s[trim_end_idx(s) - 1]),
    decreases s.len(),
{
    if s.len() == 0 || !is_ascii_ws(s[s.len() - 1]) {
    } else {
        lemma_trim_end_idx_bounds(s.drop_last());
        assert forall|j: int| trim_end_idx(s) <= j < s.len() implies is_ascii_ws(s[j]) by {
            if j < s.len() - 1 {
                assert(s.drop_last()[j] == s[j]);
            }
        }
        if trim_end_idx(s) > 0 {
            assert(s.drop_last()[trim_end_idx(s) - 1] == s[trim_end_idx(s) - 1]);
        }
    }
}

/// The characterisation the exec scan establishes: a prefix of whitespace, a
/// non-whitespace character at the cut (when one exists).
proof fn lemma_trim_start_idx_is(s: Seq<char>, k: int)
    requires
        0 <= k <= s.len(),
        forall|j: int| 0 <= j < k ==> is_ascii_ws(s[j]),
        k < s.len() ==> !is_ascii_ws(s[k]),
    ensures
        trim_start_idx(s) == k,
{
    lemma_trim_start_idx_bounds(s);
    if trim_start_idx(s) < k {
        assert(is_ascii_ws(s[trim_start_idx(s)]));
    } else if k < trim_start_idx(s) {
        assert(is_ascii_ws(s[k]));
    }
}

proof fn lemma_trim_end_idx_is(s: Seq<char>, k: int)
    requires
        0 <= k <= s.len(),
        forall|j: int| k <= j < s.len() ==> is_ascii_ws(s[j]),
        k > 0 ==> !is_ascii_ws(s[k - 1]),
    ensures
        trim_end_idx(s) == k,
{
    lemma_trim_end_idx_bounds(s);
    if trim_end_idx(s) < k {
        assert(is_ascii_ws(s[k - 1]));
    } else if k < trim_end_idx(s) {
        assert(is_ascii_ws(s[trim_end_idx(s) - 1]));
    }
}

/// Strip ASCII whitespace from both ends.
pub fn trim_str(s: &str) -> (r: String)
    ensures
        r@ == trim_seq(s@),
{
    let n = s.unicode_len();
    let mut start: usize = 0;
    while start < n && is_ws(s.get_char(start))
        invariant
            0 <= start <= n,
            n == s@.len(),
            forall|j: int| 0 <= j < start ==> is_ascii_ws(s@[j]),
        decreases n - start,
    {
        start = start + 1;
    }
    let mut end: usize = n;
    while end > start && is_ws(s.get_char(end - 1))
        invariant
            start <= end <= n,
            n == s@.len(),
            forall|j: int| 0 <= j < start ==> is_ascii_ws(s@[j]),
            forall|j: int| end <= j < n ==> is_ascii_ws(s@[j]),
        decreases end,
    {
        end = end - 1;
    }
    proof {
        if start == end {
            // Everything was whitespace: both cuts land inside the
            // whitespace, so the trimmed sequence is empty either way.
            lemma_trim_start_idx_bounds(s@);
            lemma_trim_end_idx_bounds(s@);
            if trim_end_idx(s@) > start {
                assert(is_ascii_ws(s@[trim_end_idx(s@) - 1]));
            }
            if trim_start_idx(s@) <= trim_end_idx(s@) {
                assert(trim_seq(s@) =~= s@.subrange(start as int, end as int));
            }
        } else {
            lemma_trim_start_idx_is(s@, start as int);
            lemma_trim_end_idx_is(s@, end as int);
        }
    }
    let out = s.substring_char(start, end);
    String::from_str(out)
}

/// Relies on `String::push`: appends exactly the given character.
#[verifier::external_body]
fn push_char(s: &mut String, c: char)
    ensures
        final(s)@ == old(s)@.push(c),
{
    s.push(c);
}

/// Exec twin of `is_ascii_ws`.
fn is_ws(c: char) -> (r: bool)
    ensures
        r == is_ascii_ws(c),
{
    c == ' ' || c == '\t' || c == '\n' || c == '\r'
}

/// ASCII-lowercase every character of a string.
pub fn lower_str(s: &str) -> (r: String)
    ensures
        r@ == lower_seq(s@),
{
    let n = s.unicode_len();
    let mut out = String::new();
    let mut i: usize = 0;
    while i < n
        invariant
            0 <= i <= n,
            n == s@.len(),
            out@ == lower_seq(s@.subrange(0, i as int)),
        decreases n - i,
    {
        let c = s.get_char(i);
        let lc: char = if c >= 'A' && c <= 'Z' {
            ((c as u8) + 32) as char
        } else {
            c
        };
        assert(lc == lower_char(c));
        push_char(&mut out, lc);
        proof {
            assert(s@.subrange(0, i + 1) =~= s@.subrange(0, i as int).push(c));
            assert(lower_seq(s@.subrange(0, i + 1)) =~= lower_seq(
                s@.subrange(0, i as int),
            ).push(lower_char(c)));
            assert(out@ =~= lower_seq(s@.subrange(0, i + 1)));
        }
        i = i + 1;
    }
    proof {
        assert(s@.subrange(0, n as int) =~= s@);
    }
    out
}

/// Normalize an email key: trim, then ASCII-lowercase.
pub fn normalize_email(s: &str) -> (r: String)
    ensures
        r@ == norm_email(s@),
{
    let t = trim_str(s);
    lower_str(t.as_str())
}

/// Normalization is idempotent, so stored keys compare stably.
pub proof fn lemma_norm_email_idempotent(s: Seq<char>)
    ensures
        norm_email(norm_email(s)) == norm_email(s),
{
    let t = trim_seq(s);
    let l = lower_seq(t);
    lemma_trim_start_idx_bounds(s);
    lemma_trim_end_idx_bounds(s);
    assert forall|j: int| 0 <= j < l.len() implies is_ascii_ws(l[j]) == is_ascii_ws(t[j]) by {
        assert(l[j] == lower_char(t[j]));
    }
    if t.len() > 0 {
        assert(!is_ascii_ws(t[0]) && !is_ascii_ws(t[t.len() - 1])) by {
            assert(t[0] == s[trim_start_idx(s)]);
            assert(t[t.len() - 1] == s[trim_end_idx(s) - 1]);
        }
        lemma_trim_start_idx_is(l, 0);
        lemma_trim_end_idx_is(l, l.len() as int);
    } else {
        lemma_trim_start_idx_is(l, 0);
        lemma_trim_end_idx_is(l, 0);
    }
    assert(trim_seq(l) =~= l);
    assert forall|j: int| 0 <= j < l.len() implies lower_char(l[j]) == l[j] by {
        assert(l[j] == lower_char(t[j]));
    }
    assert(lower_seq(l) =~= l);
}

/// Character-by-character string equality, exposing the view-level fact.
pub fn str_eq(a: &str, b: &str) -> (r: bool)
    ensures
        r == (a@ == b@),
{
    let n = a.unicode_len();
    let m = b.unicode_len();
    if n != m {
        return false;
    }
    let mut i: usize = 0;
    while i < n
        invariant
            0 <= i <= n,
            n == a@.len(),
            n == b@.len(),
            forall|j: int| 0 <= j < i ==> a@[j] == b@[j],
        decreases n - i,
    {
        if a.get_char(i) != b.get_char(i) {
            return false;
        }
        i = i + 1;
    }
    proof {
        assert(a@ =~= b@);
    }
    true
}

/// Equality of optional strings at the view level.
pub open spec fn opt_str_view(o: Option<String>) -> Option<Seq<char>> {
    match o {
        Option::Some(s) => Option::Some(s@),
        Option::None => Option::None,
    }
}

/// Index of the first occurrence of `c` (the length if there is none).
pub open spec fn first_idx(s: Seq<char>, c: char) -> int
    decreases s.len(),
{
    if s.len() == 0 || s[0] == c {
        0
    } else {
        1 + first_idx(s.drop_first(), c)
    }
}

/// The local part of an email address: everything before the first '@'.
pub open spec fn local_part(s: Seq<char>) -> Seq<char> {
    s.subrange(0, first_idx(s, '@'))
}

pub proof fn lemma_first_idx_bounds(s: Seq<char>, c: char)
    ensures
        0 <= first_idx(s, c) <= s.len(),
    decreases s.len(),
{
    if s.len() == 0 || s[0] == c {
    } else {
        lemma_first_idx_bounds(s.drop_first(), c);
    }
}

pub proof fn lemma_first_idx_is(s: Seq<char>, c: char, k: int)
    requires
        0 <= k <= s.len(),
        forall|j: int| 0 <= j < k ==> s[j] != c,
        k < s.len() ==> s[k] == c,
    ensures
        first_idx(s, c) == k,
    decreases s.len(),
{
    if s.len() == 0 || s[0] == c {
    } else {
        lemma_first_idx_is(s.drop_first(), c, k - 1);
    }
}

/// Everything before the first '@' of the argument.
pub fn email_local_part(s: &str) -> (r: String)
    ensures
        r@ == local_part(s@),
{
    let n = s.unicode_len();
    let mut i: usize = 0;
    while i < n && s.get_char(i) != '@'
        invariant
            0 <= i <= n,
            n == s@.len(),
            forall|j: int| 0 <= j < i ==> s@[j] != '@',
        decreases n - i,
    {
        i = i + 1;
    }
    proof {
        lemma_first_idx_is(s@, '@', i as int);
    }
    let out = s.substring_char(0, i);
    String::from_str(out)
}

/// The numeric value of a digit string, most significant digit first.
pub open spec fn dec_val(s: Seq<char>) -> int
    decreases s.len(),
{
    if s.len() == 0 {
        0
    } else {
        dec_val(s.drop_last()) * 10 + digit_val(s[s.len() - 1])
    }
}

pub open spec fn all_digits(s: Seq<char>) -> bool {
    forall|i: int| 0 <= i < s.len() ==> is_digit_char(#[trigger] s[i])
}

proof fn lemma_dec_val_nonneg(s: Seq<char>)
    requires
        all_digits(s),
    ensures
        dec_val(s) >= 0,
    decreases s.len(),
{
    if s.len() > 0 {
        assert(all_digits(s.drop_last())) by {
            assert(forall|i: int|
                0 <= i < s.len() - 1 ==> s.drop_last()[i] == #[trigger] s[i]);
        }
        lemma_dec_val_nonneg(s.drop_last());
    }
}

/// Extending a digit string can only increase its value.
proof fn lemma_dec_val_prefix(s: Seq<char>, k: int)
    requires
        all_digits(s),
        0 <= k <= s.len(),
    ensures
        dec_val(s.subrange(0, k)) <= dec_val(s),
    decreases s.len() - k,
{
    if k < s.len() {
        lemma_dec_val_prefix(s, k + 1);
        let p = s.subrange(0, k);
        let q = s.subrange(0, k + 1);
        assert(q.drop_last() =~= p);
        assert(dec_val(q) == dec_val(p) * 10 + digit_val(q[k]));
        assert(q[k] == s[k]);
        lemma_dec_val_nonneg_sub(s, k);
    } else {
        assert(s.subrange(0, k) =~= s);
    }
}

proof fn lemma_dec_val_nonneg_sub(s: Seq<char>, k: int)
    requires
        all_digits(s),
        0 <= k <= s.len(),
    ensures
        dec_val(s.subrange(0, k)) >= 0,
{
    let p = s.subrange(0, k);
    assert(all_digits(p));
    lemma_dec_val_nonneg(p);
}

/// Parse an unsigned decimal integer. Returns the value exactly when the
/// string is a non-empty digit string whose value fits in `usize`.
pub fn parse_decimal(s: &str) -> (r: Option<usize>)
    ensures
        match r {
            Option::Some(v) => s@.len() > 0 && all_digits(s@) && v == dec_val(s@),
            Option::None => s@.len() == 0 || !all_digits(s@) || dec_val(s@) > usize::MAX,
        },
{
    let n = s.unicode_len();
    if n == 0 {
        return Option::None;
    }
    let mut acc: usize = 0;
    let mut i: usize = 0;
    while i < n
        invariant
            0 <= i <= n,
            n == s@.len(),
            all_digits(s@.subrange(0, i as int)),
            acc == dec_val(s@.subrange(0, i as int)),
        decreases n - i,
    {
        let c = s.get_char(i);
        if !(c >= '0' && c <= '9') {
            return Option::None;
        }
        let d: usize = ((c as u8) - 48) as usize;
        proof {
            assert(s@.subrange(0, i + 1).drop_last() =~= s@.subrange(0, i as int));
            assert(d == digit_val(s@[i as int]));
        }
        let next = match acc.checked_mul(10) {
            Option::Some(m) => m.checked_add(d),
            Option::None => Option::None,
        };
        match next {
            Option::Some(v) => {
                acc = v;
            },
            Option::None => {
                proof {
                    let p1 = s@.subrange(0, i + 1);
                    assert(dec_val(p1) == acc * 10 + d);
                    if all_digits(s@) {
                        lemma_dec_val_prefix(s@, i + 1);
                    }
                }
                return Option::None;
            },
        }
        i = i + 1;
    }
    proof {
        assert(s@.subrange(0, n as int) =~= s@);
    }
    Option::Some(acc)
}

} // verus!
