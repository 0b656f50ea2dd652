use vstd::prelude::*;
use vstd::string::StrSliceExecFns;
use vstd::string::StringExecFns;

verus! {

/// The whitespace sysfs values may carry around their payload.
pub open spec fn spec_is_space(c: char) -> bool {
    c == ' ' || c == '\n' || c == '\t' || c == '\r'
}

/// Ascii lower-casing of one character; anything outside `A..Z` is kept.
pub open spec fn spec_lower_char(c: char) -> char {
    if 65 <= c as u32 && c as u32 <= 90 {
        (((c as u32) + 32) as u8) as char
    } else {
        c
    }
}

/// Ascii lower-casing of a whole string.
pub open spec fn spec_lower(s: Seq<char>) -> Seq<char> {
    s.map_values(|c: char| spec_lower_char(c))
}

/// Leading whitespace removed.
pub open spec fn spec_trim_start(s: Seq<char>) -> Seq<char>
    decreases s.len(),
{
    if s.len() > 0 && spec_is_space(s[0]) {
        spec_trim_start(s.drop_first())
    } else {
        s
    }
}

/// Trailing whitespace removed.
pub open spec fn spec_trim_end(s: Seq<char>) -> Seq<char>
    decreases s.len(),
{
    if s.len() > 0 && spec_is_space(s[s.len() - 1]) {
        spec_trim_end(s.drop_last())
    } else {
        s
    }
}

/// Whitespace removed from both ends.
pub open spec fn spec_trim(s: Seq<char>) -> Seq<char> {
    spec_trim_end(spec_trim_start(s))
}

/// `needle` occurs somewhere in `hay`.
pub open spec fn spec_contains_str(hay: Seq<char>, needle: Seq<char>) -> bool {
    exists|i: int|
        0 <= i && i + needle.len() <= hay.len() && #[trigger] hay.subrange(i, i + needle.len())
            == needle
}

/// `s` begins with `prefix`.
pub open spec fn spec_starts_with(s: Seq<char>, prefix: Seq<char>) -> bool {
    prefix.len() <= s.len() && s.subrange(0, prefix.len() as int) == prefix
}

fn lower_char(c: char) -> (r: char)
    ensures
        r == spec_lower_char(c),
{
    let cu = c as u32;
    if 65 <= cu && cu <= 90 {
        ((cu as u8) + 32) as char
    } else {
        c
    }
}

fn is_space(c: char) -> (r: bool)
    ensures
        r == spec_is_space(c),
{
    c == ' ' || c == '\n' || c == '\t' || c == '\r'
}

/// If the first `k` characters are spaces, trimming the front skips them all.
proof fn lemma_trim_start_subrange(s: Seq<char>, k: int)
    requires
        0 <= k <= s.len(),
        forall|i: int| 0 <= i < k ==> spec_is_space(s[i]),
        k < s.len() ==> !spec_is_space(s[k]),
    ensures
        spec_trim_start(s) =~= s.subrange(k, s.len() as int),
    decreases k,
{
    if k == 0 {
        if s.len() > 0 && spec_is_space(s[0]) {
            assert(false);
        }
        assert(spec_trim_start(s) == s);
    } else {
        assert(spec_is_space(s[0]));
        lemma_trim_start_subrange(s.drop_first(), k - 1);
        assert(s.drop_first().subrange(k - 1, s.drop_first().len() as int)
            =~= s.subrange(k, s.len() as int));
    }
}

/// If the last characters from `k` on are spaces, trimming the back drops them.
proof fn lemma_trim_end_subrange(s: Seq<char>, k: int)
    requires
        0 <= k <= s.len(),
        forall|i: int| k <= i < s.len() ==> spec_is_space(s[i]),
        k > 0 ==> !spec_is_space(s[k - 1]),
    ensures
        spec_trim_end(s) =~= s.subrange(0, k),
    decreases s.len() - k,
{
    if k == s.len() {
        if s.len() > 0 && spec_is_space(s[s.len() - 1]) {
            assert(false);
        }
        assert(spec_trim_end(s) == s);
    } else {
        assert(spec_is_space(s[s.len() - 1]));
        lemma_trim_end_subrange(s.drop_last(), k);
        assert(s.drop_last().subrange(0, k) =~= s.subrange(0, k));
    }
}

/// The characters of `s`, ascii-lower-cased, with whitespace trimmed from
/// both ends.
pub fn normalize_chars(s: &str) -> (r: Vec<char>)
    ensures
        r@ =~= spec_trim(spec_lower(s@)),
{
    let n = s.unicode_len();
    let mut low: Vec<char> = Vec::new();
    let mut i: usize = 0;
    while i < n
        invariant
            i <= n,
            n == s@.len(),
            low@ =~= spec_lower(s@).take(i as int),
        decreases n - i,
    {
        low.push(lower_char(s.get_char(i)));
        i += 1;
        proof {
            assert(low@ =~= spec_lower(s@).take(i as int));
        }
    }
    proof {
        assert(low@ =~= spec_lower(s@));
    }
    trim_vec(low)
}

/// The characters of `s` with whitespace trimmed from both ends.
pub fn trim_chars(s: &str) -> (r: Vec<char>)
    ensures
        r@ =~= spec_trim(s@),
{
    let n = s.unicode_len();
    let mut v: Vec<char> = Vec::new();
    let mut i: usize = 0;
    while i < n
        invariant
            i <= n,
            n == s@.len(),
            v@ =~= s@.take(i as int),
        decreases n - i,
    {
        v.push(s.get_char(i));
        i += 1;
        proof {
            assert(v@ =~= s@.take(i as int));
        }
    }
    proof {
        assert(v@ =~= s@);
    }
    trim_vec(v)
}

/// `low` with whitespace trimmed from both ends.
fn trim_vec(low: Vec<char>) -> (r: Vec<char>)
    ensures
        r@ =~= spec_trim(low@),
{
    let n = low.len();
    let mut start: usize = 0;
    while start < n && is_space(low[start])
        invariant
            start <= n,
            n == low@.len(),
            forall|j: int| 0 <= j < start ==> spec_is_space(low@[j]),
        decreases n - start,
    {
        start += 1;
    }
    let mut end: usize = n;
    while end > start && is_space(low[end - 1])
        invariant
            start <= end <= n,
            n == low@.len(),
            forall|j: int| end <= j < n ==> spec_is_space(low@[j]),
            forall|j: int| 0 <= j < start ==> spec_is_space(low@[j]),
            start < n ==> !spec_is_space(low@[start as int]),
        decreases end,
    {
        end -= 1;
    }

    let mut out: Vec<char> = Vec::new();
    let mut i: usize = start;
    while i < end
        invariant
            start <= i <= end <= n,
            n == low@.len(),
            out@ =~= low@.subrange(start as int, i as int),
        decreases end - i,
    {
        out.push(low[i]);
        i += 1;
    }

    proof {
        let l = low@;
        if start == n {
            lemma_trim_start_subrange(l, n as int);
            assert(spec_trim_start(l) =~= Seq::<char>::empty());
            assert(spec_trim(l) =~= Seq::<char>::empty());
            assert(out@ =~= spec_trim(l));
        } else {
            lemma_trim_start_subrange(l, start as int);
            let t = l.subrange(start as int, n as int);
            // end is the cut for the trailing spaces of the trimmed tail
            assert(forall|j: int|
                end - start <= j < t.len() ==> spec_is_space(t[j]));
            if end > start {
                assert(!spec_is_space(l[end - 1]));
                assert(t[end - start - 1] == l[end - 1]);
            }
            lemma_trim_end_subrange(t, end - start);
            assert(spec_trim_end(t) =~= t.subrange(0, end - start));
            assert(out@ =~= t.subrange(0, end - start));
        }
    }
    out
}

/// The trimmed characters match the given pattern exactly.
pub fn chars_eq_str(v: &Vec<char>, pat: &str) -> (r: bool)
    ensures
        r == (v@ == pat@),
{
    let n = pat.unicode_len();
    if v.len() != n {
        proof {
            assert(v@ != pat@);
        }
        return false;
    }
    let mut i: usize = 0;
    while i < n
        invariant
            i <= n,
            n == pat@.len(),
            n == v@.len(),
            forall|j: int| 0 <= j < i ==> v@[j] == pat@[j],
        decreases n - i,
    {
        if v[i] != pat.get_char(i) {
            proof {
                assert(v@ != pat@);
            }
            return false;
        }
        i += 1;
    }
    proof {
        assert(v@ =~= pat@);
    }
    true
}

/// Whether `needle` occurs anywhere in `hay`.
pub fn str_contains(hay: &str, needle: &str) -> (r: bool)
    ensures
        r == spec_contains_str(hay@, needle@),
{
    let h = hay.unicode_len();
    let n = needle.unicode_len();
    if n > h {
        proof {
            assert(!spec_contains_str(hay@, needle@));
        }
        return false;
    }
    if n == 0 {
        proof {
            assert(hay@.subrange(0, 0 + needle@.len() as int) =~= needle@);
        }
        return true;
    }
    let mut i: usize = 0;
    while i <= h - n
        invariant
            1 <= n <= h,
            h == hay@.len(),
            n == needle@.len(),
            i <= h - n + 1,
            forall|k: int|
                0 <= k < i ==> #[trigger] hay@.subrange(k, k + needle@.len()) != needle@,
        decreases h - n + 1 - i,
    {
        let mut j: usize = 0;
        let mut matched = true;
        while j < n && matched
            invariant
                i + n <= h,
                h == hay@.len(),
                n == needle@.len(),
                j <= n,
                matched ==> forall|k: int|
                    0 <= k < j ==> hay@[i + k] == needle@[k],
                !matched ==> hay@.subrange(i as int, i + needle@.len()) != needle@,
            decreases n - j + (if matched { 1int } else { 0int }),
        {
            if hay.get_char(i + j) != needle.get_char(j) {
                proof {
                    assert(hay@.subrange(i as int, i + needle@.len())[j as int] == hay@[i + j]);
                    assert(hay@.subrange(i as int, i + needle@.len()) != needle@);
                }
                matched = false;
            } else {
                j += 1;
            }
        }
        if matched {
            proof {
                assert(hay@.subrange(i as int, i + needle@.len()) =~= needle@);
            }
            return true;
        }
        proof {
            assert(hay@.subrange(i as int, i + needle@.len()) != needle@);
        }
        i += 1;
    }
    proof {
        assert forall|k: int|
            0 <= k && k + needle@.len() <= hay@.len() implies #[trigger] hay@.subrange(
            k,
            k + needle@.len(),
        ) != needle@ by {
            assert(k < i);
        }
    }
    false
}

/// Whether `s` begins with `prefix`.
pub fn str_starts_with(s: &str, prefix: &str) -> (r: bool)
    ensures
        r == spec_starts_with(s@, prefix@),
{
    let n = prefix.unicode_len();
    let l = s.unicode_len();
    if n > l {
        return false;
    }
    let mut j: usize = 0;
    while j < n
        invariant
            n <= l,
            l == s@.len(),
            n == prefix@.len(),
            j <= n,
            forall|k: int| 0 <= k < j ==> s@[k] == prefix@[k],
        decreases n - j,
    {
        if s.get_char(j) != prefix.get_char(j) {
            proof {
                assert(s@.subrange(0, prefix@.len() as int)[j as int] == s@[j as int]);
            }
            return false;
        }
        j += 1;
    }
    proof {
        assert(s@.subrange(0, prefix@.len() as int) =~= prefix@);
    }
    true
}

/// The string with every trailing character satisfying `p` removed.
pub open spec fn spec_trim_end_by(s: Seq<char>, p: spec_fn(char) -> bool) -> Seq<char>
    decreases s.len(),
{
    if s.len() > 0 && p(s[s.len() - 1]) {
        spec_trim_end_by(s.drop_last(), p)
    } else {
        s
    }
}

/// If the characters from `k` on satisfy `p` and the one before does not,
/// trimming by `p` cuts exactly at `k`.
pub proof fn lemma_trim_end_by_subrange(s: Seq<char>, p: spec_fn(char) -> bool, k: int)
    requires
        0 <= k <= s.len(),
        forall|i: int| k <= i < s.len() ==> p(s[i]),
        k > 0 ==> !p(s[k - 1]),
    ensures
        spec_trim_end_by(s, p) =~= s.subrange(0, k),
    decreases s.len() - k,
{
    if k == s.len() {
        if s.len() > 0 && p(s[s.len() - 1]) {
            assert(false);
        }
        assert(spec_trim_end_by(s, p) == s);
    } else {
        assert(p(s[s.len() - 1]));
        lemma_trim_end_by_subrange(s.drop_last(), p, k);
        assert(s.drop_last().subrange(0, k) =~= s.subrange(0, k));
    }
}

/// The two strings hold the same characters.
pub fn str_eq(a: &str, b: &str) -> (r: bool)
    ensures
        r == (a@ == b@),
{
    let n = a.unicode_len();
    if b.unicode_len() != n {
        proof {
            assert(a@ != b@);
        }
        return false;
    }
    let mut i: usize = 0;
    while i < n
        invariant
            i <= n,
            n == a@.len(),
            n == b@.len(),
            forall|j: int| 0 <= j < i ==> a@[j] == b@[j],
        decreases n - i,
    {
        if a.get_char(i) != b.get_char(i) {
            proof {
                assert(a@ != b@);
            }
            return false;
        }
        i += 1;
    }
    proof {
        assert(a@ =~= b@);
    }
    true
}

/// `a` followed by `b` as a fresh `String`.
pub fn concat_str(a: &str, b: &str) -> (r: String)
    ensures
        r@ == a@ + b@,
{
    let mut r = a.to_owned();
    r.append(b);
    r
}

} // verus!
