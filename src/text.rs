use vstd::prelude::*;

verus! {

/// The ten decimal digit characters, by value.
pub open spec fn digit_char(d: nat) -> char {
    seq!['0', '1', '2', '3', '4', '5', '6', '7', '8', '9'][d as int]
}

/// The decimal notation of `n`, without sign or leading zeros.
pub open spec fn decimal(n: nat) -> Seq<char>
    decreases n,
{
    if n < 10 {
        seq![digit_char(n)]
    } else {
        decimal(n / 10).push(digit_char(n % 10))
    }
}

pub open spec fn is_ascii_digit(c: char) -> bool {
    '0' <= c && c <= '9'
}

/// The value of a run of decimal digits; the empty run is worth 0.
pub open spec fn digits_value(s: Seq<char>) -> nat
    decreases s.len(),
{
    if s.len() == 0 {
        0
    } else {
        digits_value(s.drop_last()) * 10 + ((s.last() as int - '0' as int) as nat)
    }
}

/// What std's unsigned integer parsing accepts, and the value it gives: an
/// optional `+`, then one or more ASCII digits, the value at most `max`.
pub open spec fn parsed_unsigned(s: Seq<char>, max: nat) -> Option<nat> {
    let d = if s.len() > 0 && s[0] == '+' { s.drop_first() } else { s };
    if d.len() > 0 && (forall|i: int| 0 <= i < d.len() ==> is_ascii_digit(#[trigger] d[i]))
        && digits_value(d) <= max {
        Some(digits_value(d))
    } else {
        None
    }
}

/// Relies on `str::parse::<u16>` (std's `FromStr` for `u16`): an optional `+`
/// followed by ASCII digits, whose value fits, is accepted; anything else is not.
#[verifier::external_body]
pub(crate) fn parse_u16(s: &str) -> (r: Option<u16>)
    ensures
        r matches Some(v) ==> parsed_unsigned(s@, u16::MAX as nat) == Some(v as nat),
        r is None ==> parsed_unsigned(s@, u16::MAX as nat) is None,
{
    s.parse::<u16>().ok()
}

/// Whether every character of `s` is an ASCII digit.
pub open spec fn all_ascii_digits(s: Seq<char>) -> bool {
    forall|i: int| 0 <= i < s.len() ==> is_ascii_digit(#[trigger] s[i])
}

/// Whether every character of `s` is an ASCII digit.
pub fn is_all_ascii_digits(s: &str) -> (r: bool)
    ensures
        r == all_ascii_digits(s@),
{
    let n = s.unicode_len();
    let mut i: usize = 0;
    while i < n
        invariant
            n == s@.len(),
            i <= n,
            forall|j: int| 0 <= j < i ==> is_ascii_digit(#[trigger] s@[j]),
        decreases n - i,
    {
        let c = s.get_char(i);
        if !('0' <= c && c <= '9') {
            return false;
        }
        i = i + 1;
    }
    true
}

fn digit_text(d: u128) -> (r: &'static str)
    requires
        d < 10,
    ensures
        r@ == seq![digit_char(d as nat)],
{
    proof {
        reveal_strlit("0");
        reveal_strlit("1");
        reveal_strlit("2");
        reveal_strlit("3");
        reveal_strlit("4");
        reveal_strlit("5");
        reveal_strlit("6");
        reveal_strlit("7");
        reveal_strlit("8");
        reveal_strlit("9");
    }
    let r = if d == 0 {
        "0"
    } else if d == 1 {
        "1"
    } else if d == 2 {
        "2"
    } else if d == 3 {
        "3"
    } else if d == 4 {
        "4"
    } else if d == 5 {
        "5"
    } else if d == 6 {
        "6"
    } else if d == 7 {
        "7"
    } else if d == 8 {
        "8"
    } else {
        "9"
    };
    assert(r@ =~= seq![digit_char(d as nat)]);
    r
}

/// Appends the decimal notation of `n` to `s`.
pub fn push_decimal(s: &mut String, n: u128)
    ensures
        final(s)@ == old(s)@ + decimal(n as nat),
    decreases n,
{
    if n >= 10 {
        push_decimal(s, n / 10);
        s.append(digit_text(n % 10));
        assert(decimal(n as nat) == decimal((n / 10) as nat).push(digit_char((n % 10) as nat)));
        assert(final(s)@ =~= old(s)@ + decimal(n as nat));
    } else {
        s.append(digit_text(n));
        assert(final(s)@ =~= old(s)@ + decimal(n as nat));
    }
}

/// Whether `s` begins with `p`.
pub fn has_prefix(s: &str, p: &str) -> (r: bool)
    ensures
        r == (p@.len() <= s@.len() && s@.subrange(0, p@.len() as int) == p@),
{
    let n = s.unicode_len();
    let k = p.unicode_len();
    if k > n {
        return false;
    }
    let mut i: usize = 0;
    while i < k
        invariant
            n == s@.len(),
            k == p@.len(),
            k <= n,
            i <= k,
            forall|j: int| 0 <= j < i ==> s@[j] == p@[j],
        decreases k - i,
    {
        if s.get_char(i) != p.get_char(i) {
            return false;
        }
        i = i + 1;
    }
    assert(s@.subrange(0, k as int) =~= p@);
    true
}

/// Whether `s` ends with `p`.
pub fn has_suffix(s: &str, p: &str) -> (r: bool)
    ensures
        r == (p@.len() <= s@.len() && s@.subrange(s@.len() - p@.len(), s@.len() as int) == p@),
{
    let n = s.unicode_len();
    let k = p.unicode_len();
    if k > n {
        return false;
    }
    let start = n - k;
    let mut i: usize = 0;
    while i < k
        invariant
            n == s@.len(),
            k == p@.len(),
            k <= n,
            start == n - k,
            i <= k,
            forall|j: int| 0 <= j < i ==> s@[start + j] == p@[j],
        decreases k - i,
    {
        if s.get_char(start + i) != p.get_char(i) {
            return false;
        }
        i = i + 1;
    }
    assert(s@.subrange(start as int, n as int) =~= p@);
    true
}

/// Whether `a` and `b` hold the same characters.
pub fn same_text(a: &str, b: &str) -> (r: bool)
    ensures
        r == (a@ == b@),
{
    if a.unicode_len() != b.unicode_len() {
        return false;
    }
    let r = has_prefix(a, b);
    proof {
        assert(a@.subrange(0, b@.len() as int) =~= a@);
    }
    r
}

/// The length of the longest prefix of `s` whose characters are all equal to
/// `c` (when `equal`) or all different from it (when not).
pub open spec fn prefix_run(s: Seq<char>, c: char, equal: bool) -> nat
    decreases s.len(),
{
    if s.len() == 0 || (s[0] == c) != equal {
        0
    } else {
        1 + prefix_run(s.drop_first(), c, equal)
    }
}

/// The length of the longest suffix of `s` whose characters are all equal to
/// `c` (when `equal`) or all different from it (when not).
pub open spec fn suffix_run(s: Seq<char>, c: char, equal: bool) -> nat
    decreases s.len(),
{
    if s.len() == 0 || (s.last() == c) != equal {
        0
    } else {
        1 + suffix_run(s.drop_last(), c, equal)
    }
}

pub proof fn lemma_prefix_run_bound(s: Seq<char>, c: char, equal: bool)
    ensures
        prefix_run(s, c, equal) <= s.len(),
    decreases s.len(),
{
    if s.len() > 0 && (s[0] == c) == equal {
        lemma_prefix_run_bound(s.drop_first(), c, equal);
    }
}

pub proof fn lemma_suffix_run_bound(s: Seq<char>, c: char, equal: bool)
    ensures
        suffix_run(s, c, equal) <= s.len(),
    decreases s.len(),
{
    if s.len() > 0 && (s.last() == c) == equal {
        lemma_suffix_run_bound(s.drop_last(), c, equal);
    }
}

/// `prefix_run` of the characters of `s` from `lo` to `hi`.
pub fn run_from_start(s: &str, lo: usize, hi: usize, c: char, equal: bool) -> (r: usize)
    requires
        lo <= hi <= s@.len(),
    ensures
        r == prefix_run(s@.subrange(lo as int, hi as int), c, equal),
        r <= hi - lo,
{
    let ghost whole = s@.subrange(lo as int, hi as int);
    let mut i: usize = lo;
    while i < hi && (s.get_char(i) == c) == equal
        invariant
            lo <= i <= hi <= s@.len(),
            whole == s@.subrange(lo as int, hi as int),
            prefix_run(whole, c, equal) == (i - lo) + prefix_run(s@.subrange(i as int, hi as int), c, equal),
        decreases hi - i,
    {
        assert(s@.subrange(i as int, hi as int).drop_first() =~= s@.subrange(i + 1, hi as int));
        i = i + 1;
    }
    assert(prefix_run(s@.subrange(i as int, hi as int), c, equal) == 0);
    i - lo
}

/// `suffix_run` of the characters of `s` from `lo` to `hi`.
pub fn run_from_end(s: &str, lo: usize, hi: usize, c: char, equal: bool) -> (r: usize)
    requires
        lo <= hi <= s@.len(),
    ensures
        r == suffix_run(s@.subrange(lo as int, hi as int), c, equal),
        r <= hi - lo,
{
    let ghost whole = s@.subrange(lo as int, hi as int);
    let mut j: usize = hi;
    while j > lo && (s.get_char(j - 1) == c) == equal
        invariant
            lo <= j <= hi <= s@.len(),
            whole == s@.subrange(lo as int, hi as int),
            suffix_run(whole, c, equal) == (hi - j) + suffix_run(s@.subrange(lo as int, j as int), c, equal),
        decreases j - lo,
    {
        assert(s@.subrange(lo as int, j as int).drop_last() =~= s@.subrange(lo as int, j - 1));
        j = j - 1;
    }
    assert(suffix_run(s@.subrange(lo as int, j as int), c, equal) == 0);
    hi - j
}

} // verus!
