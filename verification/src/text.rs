//! Text helpers: comparison of string slices and trimming of white space.
use vstd::prelude::*;

verus! {

/// White space as Unicode defines it (the property `White_Space`).
pub open spec fn is_space(c: char) -> bool {
    let n = c as u32;
    ||| 0x09 <= n <= 0x0D
    ||| n == 0x20
    ||| n == 0x85
    ||| n == 0xA0
    ||| n == 0x1680
    ||| 0x2000 <= n <= 0x200A
    ||| n == 0x2028
    ||| n == 0x2029
    ||| n == 0x202F
    ||| n == 0x205F
    ||| n == 0x3000
}

/// Number of white-space characters at the start of `s`.
pub open spec fn leading_spaces(s: Seq<char>) -> nat
    decreases s.len(),
{
    if s.len() > 0 && is_space(s[0]) {
        1 + leading_spaces(s.drop_first())
    } else {
        0
    }
}

/// Number of white-space characters at the end of `s`.
pub open spec fn trailing_spaces(s: Seq<char>) -> nat
    decreases s.len(),
{
    if s.len() > 0 && is_space(s.last()) {
        1 + trailing_spaces(s.drop_last())
    } else {
        0
    }
}

/// `s` without the white space at its start and at its end.
pub open spec fn trimmed(s: Seq<char>) -> Seq<char> {
    let rest = s.skip(leading_spaces(s) as int);
    rest.take(rest.len() - trailing_spaces(rest))
}

/// Neither the first nor the last character of `s` is white space.
pub open spec fn is_trimmed(s: Seq<char>) -> bool {
    s.len() > 0 ==> !is_space(s[0]) && !is_space(s.last())
}

pub proof fn lemma_leading_spaces(s: Seq<char>)
    ensures
        leading_spaces(s) <= s.len(),
        forall|i: int| 0 <= i < leading_spaces(s) ==> is_space(#[trigger] s[i]),
        leading_spaces(s) < s.len() ==> !is_space(s[leading_spaces(s) as int]),
    decreases s.len(),
{
    if s.len() > 0 && is_space(s[0]) {
        let t = s.drop_first();
        lemma_leading_spaces(t);
        assert forall|i: int| 0 <= i < leading_spaces(s) implies is_space(#[trigger] s[i]) by {
            if i > 0 {
                assert(s[i] == t[i - 1]);
            }
        }
        if leading_spaces(s) < s.len() {
            assert(s[leading_spaces(s) as int] == t[leading_spaces(t) as int]);
        }
    }
}

pub proof fn lemma_trailing_spaces(s: Seq<char>)
    ensures
        trailing_spaces(s) <= s.len(),
        forall|i: int| s.len() - trailing_spaces(s) <= i < s.len() ==> is_space(#[trigger] s[i]),
        trailing_spaces(s) < s.len() ==> !is_space(s[s.len() - trailing_spaces(s) - 1]),
    decreases s.len(),
{
    if s.len() > 0 && is_space(s.last()) {
        let t = s.drop_last();
        lemma_trailing_spaces(t);
        assert forall|i: int| s.len() - trailing_spaces(s) <= i < s.len() implies is_space(
            #[trigger] s[i],
        ) by {
            if i < s.len() - 1 {
                assert(s[i] == t[i]);
            }
        }
        if trailing_spaces(s) < s.len() {
            assert(s[s.len() - trailing_spaces(s) - 1] == t[t.len() - trailing_spaces(t) - 1]);
        }
    }
}

/// A run of `k` white-space characters at the start of `s`, followed by the
/// end of `s` or by another character, is all of its leading white space.
pub proof fn lemma_leading_spaces_is(s: Seq<char>, k: nat)
    requires
        k <= s.len(),
        forall|i: int| 0 <= i < k ==> is_space(#[trigger] s[i]),
        k < s.len() ==> !is_space(s[k as int]),
    ensures
        leading_spaces(s) == k,
    decreases k,
{
    if k > 0 {
        let t = s.drop_first();
        assert(is_space(s[0]));
        assert forall|i: int| 0 <= i < k - 1 implies is_space(#[trigger] t[i]) by {
            assert(t[i] == s[i + 1]);
        }
        if k < s.len() {
            assert(t[k - 1] == s[k as int]);
        }
        lemma_leading_spaces_is(t, (k - 1) as nat);
    }
}

/// The same for a run of `k` white-space characters at the end of `s`.
pub proof fn lemma_trailing_spaces_is(s: Seq<char>, k: nat)
    requires
        k <= s.len(),
        forall|i: int| s.len() - k <= i < s.len() ==> is_space(#[trigger] s[i]),
        k < s.len() ==> !is_space(s[s.len() - k - 1]),
    ensures
        trailing_spaces(s) == k,
    decreases k,
{
    if k > 0 {
        let t = s.drop_last();
        assert(is_space(s[s.len() - 1]));
        assert forall|i: int| t.len() - (k - 1) <= i < t.len() implies is_space(
            #[trigger] t[i],
        ) by {
            assert(t[i] == s[i]);
        }
        if k < s.len() {
            assert(t[t.len() - (k - 1) - 1] == s[s.len() - k - 1]);
        }
        lemma_trailing_spaces_is(t, (k - 1) as nat);
    }
}

/// Trimmed text neither starts nor ends with white space.
pub proof fn lemma_trimmed_is_trimmed(s: Seq<char>)
    ensures
        is_trimmed(trimmed(s)),
        trimmed(s).len() <= s.len(),
{
    lemma_leading_spaces(s);
    let rest = s.skip(leading_spaces(s) as int);
    lemma_trailing_spaces(rest);
    let out = trimmed(s);
    if out.len() > 0 {
        assert(out[0] == rest[0]);
        assert(rest[0] == s[leading_spaces(s) as int]);
        assert(out.last() == rest[rest.len() - trailing_spaces(rest) - 1]);
    }
}

/// Whether `c` is white space.
pub fn is_space_char(c: char) -> (r: bool)
    ensures
        r == is_space(c),
{
    let n: u32 = c as u32;
    (0x09 <= n && n <= 0x0D) || n == 0x20 || n == 0x85 || n == 0xA0 || n == 0x1680 || (0x2000 <= n
        && n <= 0x200A) || n == 0x2028 || n == 0x2029 || n == 0x202F || n == 0x205F || n == 0x3000
}

/// Whether two string slices hold the same characters.
pub fn same_text(a: &str, b: &str) -> (r: bool)
    ensures
        r == (a@ == b@),
{
    let n = a.unicode_len();
    if n != b.unicode_len() {
        return false;
    }
    let mut i: usize = 0;
    while i < n
        invariant
            i <= n,
            n == a@.len(),
            n == b@.len(),
            forall|j: int| 0 <= j < i ==> a@[j] == b@[j],
        decreases n - i,
    {
        if a.get_char(i) != b.get_char(i) {
            return false;
        }
        i += 1;
    }
    assert(a@ =~= b@);
    true
}

/// Returns `s` without the white space at its start and at its end.
pub fn trim(s: &str) -> (r: String)
    ensures
        r@ == trimmed(s@),
        is_trimmed(r@),
{
    let n = s.unicode_len();
    let mut start: usize = 0;
    while start < n && is_space_char(s.get_char(start))
        invariant
            start <= n,
            n == s@.len(),
            forall|j: int| 0 <= j < start ==> is_space(#[trigger] s@[j]),
        decreases n - start,
    {
        start += 1;
    }
    let mut end: usize = n;
    while end > start && is_space_char(s.get_char(end - 1))
        invariant
            start <= end <= n,
            n == s@.len(),
            forall|j: int| end <= j < n ==> is_space(#[trigger] s@[j]),
        decreases end,
    {
        end -= 1;
    }
    let r = String::from_str(s.substring_char(start, end));
    proof {
        lemma_leading_spaces_is(s@, start as nat);
        let rest = s@.skip(start as int);
        assert forall|i: int| rest.len() - (n - end) <= i < rest.len() implies is_space(
            #[trigger] rest[i],
        ) by {
            assert(rest[i] == s@[i + start]);
        }
        if n - end < rest.len() {
            assert(rest[rest.len() - (n - end) - 1] == s@[end - 1]);
        }
        lemma_trailing_spaces_is(rest, (n - end) as nat);
        assert(r@ =~= trimmed(s@));
        lemma_trimmed_is_trimmed(s@);
    }
    r
}

} // verus!
