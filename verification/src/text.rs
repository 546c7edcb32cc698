//! Character-level text helpers: trimming, token search, and fragment
//! stripping, each specified over the `Seq<char>` view of a string.

use vstd::prelude::*;
use vstd::string::StrSliceExecFns;

verus! {

/// The whitespace characters that trimming removes.
pub open spec fn is_space(c: char) -> bool {
    c == ' ' || c == '\t' || c == '\n' || c == '\r' || c == '\x0b' || c == '\x0c'
}

/// Leading marker characters stripped from an item line before tokenizing.
pub open spec fn is_mark(c: char) -> bool {
    c == '-' || c == ' '
}

/// `s` with every leading whitespace character removed.
pub open spec fn spec_trim_start(s: Seq<char>) -> Seq<char>
    decreases s.len(),
{
    if s.len() > 0 && is_space(s[0]) {
        spec_trim_start(s.drop_first())
    } else {
        s
    }
}

/// `s` with every trailing whitespace character removed.
pub open spec fn spec_trim_end(s: Seq<char>) -> Seq<char>
    decreases s.len(),
{
    if s.len() > 0 && is_space(s[s.len() - 1]) {
        spec_trim_end(s.drop_last())
    } else {
        s
    }
}

/// `s` with surrounding whitespace removed.
pub open spec fn spec_trim(s: Seq<char>) -> Seq<char> {
    spec_trim_end(spec_trim_start(s))
}

/// `s` with every leading `-` or space removed.
pub open spec fn spec_strip_marks(s: Seq<char>) -> Seq<char>
    decreases s.len(),
{
    if s.len() > 0 && is_mark(s[0]) {
        spec_strip_marks(s.drop_first())
    } else {
        s
    }
}

/// `url` without its trailing `#fragment`: everything before the last `#`,
/// or `url` itself when it holds no `#`.
pub open spec fn canonical_of(url: Seq<char>) -> Seq<char> {
    match url.index_of_last('#') {
        Some(i) => url.take(i),
        None => url,
    }
}

/// A URL that holds no `#` is already canonical: stripping the fragment
/// returns it unchanged, so canonicalization is idempotent.
pub proof fn lemma_canonical_no_hash(url: Seq<char>)
    requires
        !url.contains('#'),
    ensures
        canonical_of(url) == url,
{
    url.index_of_last_ensures('#');
}

/// For a URL with exactly one `#`, at position `i`, the canonical URL is the
/// prefix before that `#`.
pub proof fn lemma_canonical_single_hash(url: Seq<char>, i: int)
    requires
        0 <= i < url.len(),
        url[i] == '#',
        forall|j: int| 0 <= j < url.len() && j != i ==> url[j] != '#',
    ensures
        canonical_of(url) == url.take(i),
{
    url.index_of_last_ensures('#');
    assert(url.contains('#'));
}

/// If the first `i` characters of `s` are whitespace and the one at `i` (when
/// there is one) is not, trimming the start of `s` drops exactly those `i`.
proof fn lemma_trim_start_skip(s: Seq<char>, i: int)
    requires
        0 <= i <= s.len(),
        forall|j: int| 0 <= j < i ==> is_space(s[j]),
        i < s.len() ==> !is_space(s[i]),
    ensures
        spec_trim_start(s) == s.skip(i),
    decreases i,
{
    if i == 0 {
        assert(s.skip(0) =~= s);
    } else {
        lemma_trim_start_skip(s.drop_first(), i - 1);
        assert(s.drop_first().skip(i - 1) =~= s.skip(i));
    }
}

/// If the characters of `s` from `i` on are whitespace and the one at `i - 1`
/// (when there is one) is not, trimming the end of `s` keeps exactly the
/// first `i`.
proof fn lemma_trim_end_take(s: Seq<char>, i: int)
    requires
        0 <= i <= s.len(),
        forall|j: int| i <= j < s.len() ==> is_space(s[j]),
        i > 0 ==> !is_space(s[i - 1]),
    ensures
        spec_trim_end(s) == s.take(i),
    decreases s.len(),
{
    if i == s.len() {
        if s.len() > 0 {
            assert(!is_space(s[s.len() - 1]));
        }
        assert(s.take(i) =~= s);
    } else {
        assert(is_space(s[s.len() - 1]));
        lemma_trim_end_take(s.drop_last(), i);
        assert(s.drop_last().take(i) =~= s.take(i));
    }
}

/// As `lemma_trim_start_skip`, for the leading `-` / space markers.
proof fn lemma_strip_marks_skip(s: Seq<char>, i: int)
    requires
        0 <= i <= s.len(),
        forall|j: int| 0 <= j < i ==> is_mark(s[j]),
        i < s.len() ==> !is_mark(s[i]),
    ensures
        spec_strip_marks(s) == s.skip(i),
    decreases i,
{
    if i == 0 {
        assert(s.skip(0) =~= s);
    } else {
        lemma_strip_marks_skip(s.drop_first(), i - 1);
        assert(s.drop_first().skip(i - 1) =~= s.skip(i));
    }
}

/// Whether `c` is one of the whitespace characters that trimming removes.
pub fn is_space_char(c: char) -> (r: bool)
    ensures
        r == is_space(c),
{
    c == ' ' || c == '\t' || c == '\n' || c == '\r' || c == '\x0b' || c == '\x0c'
}

/// Whether `c` is a leading item marker (`-` or space).
pub fn is_mark_char(c: char) -> (r: bool)
    ensures
        r == is_mark(c),
{
    c == '-' || c == ' '
}

/// `s` with surrounding whitespace removed.
pub fn trim_str<'a>(s: &'a str) -> (r: &'a str)
    ensures
        r@ == spec_trim(s@),
{
    let n = s.unicode_len();
    let mut start: usize = 0;
    while start < n
        invariant
            n == s@.len(),
            start <= n,
            forall|j: int| 0 <= j < start ==> is_space(s@[j]),
        ensures
            start <= n,
            forall|j: int| 0 <= j < start ==> is_space(s@[j]),
            start < n ==> !is_space(s@[start as int]),
        decreases n - start,
    {
        if !is_space_char(s.get_char(start)) {
            break;
        }
        start += 1;
    }
    let mut end: usize = n;
    while end > start
        invariant
            n == s@.len(),
            start <= end <= n,
            forall|j: int| end <= j < n ==> is_space(s@[j]),
        ensures
            start <= end <= n,
            forall|j: int| end <= j < n ==> is_space(s@[j]),
            end > start ==> !is_space(s@[end - 1]),
        decreases end,
    {
        if !is_space_char(s.get_char(end - 1)) {
            break;
        }
        end -= 1;
    }
    proof {
        lemma_trim_start_skip(s@, start as int);
        let t = s@.skip(start as int);
        lemma_trim_end_take(t, end - start);
        assert(t.take(end - start) =~= s@.subrange(start as int, end as int));
    }
    s.substring_char(start, end)
}

/// `s` with its leading run of `-` and space characters removed.
pub fn strip_marks<'a>(s: &'a str) -> (r: &'a str)
    ensures
        r@ == spec_strip_marks(s@),
{
    let n = s.unicode_len();
    let mut start: usize = 0;
    while start < n
        invariant
            n == s@.len(),
            start <= n,
            forall|j: int| 0 <= j < start ==> is_mark(s@[j]),
        ensures
            start <= n,
            forall|j: int| 0 <= j < start ==> is_mark(s@[j]),
            start < n ==> !is_mark(s@[start as int]),
        decreases n - start,
    {
        if !is_mark_char(s.get_char(start)) {
            break;
        }
        start += 1;
    }
    proof {
        lemma_strip_marks_skip(s@, start as int);
    }
    s.substring_char(start, n)
}

/// Whether the two strings hold the same characters.
pub fn str_eq(a: &str, b: &str) -> (r: bool)
    ensures
        r == (a@ == b@),
{
    let na = a.unicode_len();
    let nb = b.unicode_len();
    if na != nb {
        return false;
    }
    let mut i: usize = 0;
    while i < na
        invariant
            na == a@.len(),
            na == b@.len(),
            i <= na,
            forall|j: int| 0 <= j < i ==> a@[j] == b@[j],
        decreases na - i,
    {
        if a.get_char(i) != b.get_char(i) {
            return false;
        }
        i += 1;
    }
    proof {
        assert(a@ =~= b@);
    }
    true
}

/// The position of the first occurrence of `c` in `s`, if any.
pub fn find_char(s: &str, c: char) -> (r: Option<usize>)
    ensures
        match r {
            Some(i) => s@.index_of_first(c) == Some(i as int),
            None => s@.index_of_first(c) is None,
        },
{
    let n = s.unicode_len();
    let mut i: usize = 0;
    while i < n
        invariant
            n == s@.len(),
            i <= n,
            forall|j: int| 0 <= j < i ==> s@[j] != c,
        decreases n - i,
    {
        if s.get_char(i) == c {
            proof {
                s@.index_of_first_ensures(c);
                assert(s@.contains(c));
            }
            return Some(i);
        }
        i += 1;
    }
    proof {
        s@.index_of_first_ensures(c);
        if s@.contains(c) {
            let w = choose|j: int| 0 <= j < s@.len() && s@[j] == c;
            assert(s@[w] != c);
        }
    }
    None
}

/// `url` without a trailing `#fragment`: the characters before the last `#`,
/// or all of `url` when it holds none.
pub fn strip_fragment(url: &str) -> (r: String)
    ensures
        r@ == canonical_of(url@),
{
    let n = url.unicode_len();
    let mut j: usize = n;
    while j > 0
        invariant
            n == url@.len(),
            j <= n,
            forall|t: int| j <= t < n ==> url@[t] != '#',
        decreases j,
    {
        if url.get_char(j - 1) == '#' {
            proof {
                url@.index_of_last_ensures('#');
                assert(url@.contains('#'));
            }
            return url.substring_char(0, j - 1).to_owned();
        }
        j -= 1;
    }
    proof {
        url@.index_of_last_ensures('#');
        if url@.contains('#') {
            let w = choose|t: int| 0 <= t < url@.len() && url@[t] == '#';
            assert(url@[w] != '#');
        }
    }
    url.to_owned()
}

/// The character that stands for the decimal digit `d`.
pub open spec fn digit_char(d: nat) -> char {
    if d == 0 {
        '0'
    } else if d == 1 {
        '1'
    } else if d == 2 {
        '2'
    } else if d == 3 {
        '3'
    } else if d == 4 {
        '4'
    } else if d == 5 {
        '5'
    } else if d == 6 {
        '6'
    } else if d == 7 {
        '7'
    } else if d == 8 {
        '8'
    } else {
        '9'
    }
}

/// The decimal rendering of `n`, without sign or leading zeros.
pub open spec fn spec_digits(n: nat) -> Seq<char>
    decreases n,
{
    if n < 10 {
        seq![digit_char(n)]
    } else {
        spec_digits(n / 10).push(digit_char(n % 10))
    }
}

/// The one-character string for the decimal digit `d`.
fn digit_str(d: usize) -> (r: &'static str)
    requires
        d < 10,
    ensures
        r@ == seq![digit_char(d as nat)],
{
    proof {
        reveal_strlit("0");
        reveal_strlit("1");
        reveal_strlit("2");
        reveal_strlit("3");
        reveal_strlit("4");
        reveal_strlit("5");
        reveal_strlit("6");
        reveal_strlit("7");
        reveal_strlit("8");
        reveal_strlit("9");
    }
    let r = if d == 0 {
        "0"
    } else if d == 1 {
        "1"
    } else if d == 2 {
        "2"
    } else if d == 3 {
        "3"
    } else if d == 4 {
        "4"
    } else if d == 5 {
        "5"
    } else if d == 6 {
        "6"
    } else if d == 7 {
        "7"
    } else if d == 8 {
        "8"
    } else {
        "9"
    };
    proof {
        assert(r@ =~= seq![digit_char(d as nat)]);
    }
    r
}

/// The decimal rendering of `n`.
pub fn usize_digits(n: usize) -> (r: String)
    ensures
        r@ == spec_digits(n as nat),
    decreases n,
{
    if n < 10 {
        digit_str(n).to_owned()
    } else {
        let r = vstd::string::StringExecFns::concat(usize_digits(n / 10), digit_str(n % 10));
        proof {
            assert(r@ =~= spec_digits(n as nat));
        }
        r
    }
}

} // verus!
