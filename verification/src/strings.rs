//! Verified string helpers: substring search, splitting a dotted key, and
//! deriving a binary name from a source path.

use vstd::prelude::*;

verus! {

/// `pat` occurs as a contiguous run somewhere inside `s`.
pub open spec fn is_substring(pat: Seq<char>, s: Seq<char>) -> bool {
    exists|i: int| 0 <= i && i + pat.len() <= s.len() && #[trigger] s.subrange(i, i + pat.len())
        == pat
}

/// The characters of `s` after its last '/'; all of `s` when it has none.
pub open spec fn file_part(s: Seq<char>) -> Seq<char>
    decreases s.len(),
{
    if s.len() == 0 {
        s
    } else if s[s.len() - 1] == '/' {
        Seq::empty()
    } else {
        file_part(s.drop_last()).push(s[s.len() - 1])
    }
}

/// The characters of `s` before its first '.'; all of `s` when it has none.
pub open spec fn before_first_dot(s: Seq<char>) -> Seq<char>
    decreases s.len(),
{
    if s.len() == 0 {
        s
    } else if s[0] == '.' {
        Seq::empty()
    } else {
        seq![s[0]] + before_first_dot(s.drop_first())
    }
}

/// The characters of `s` after its first '.'; empty when it has none.
pub open spec fn after_first_dot(s: Seq<char>) -> Seq<char>
    decreases s.len(),
{
    if s.len() == 0 {
        s
    } else if s[0] == '.' {
        s.drop_first()
    } else {
        after_first_dot(s.drop_first())
    }
}

/// `s` holds at least one '.'.
pub open spec fn has_dot(s: Seq<char>) -> bool {
    exists|i: int| 0 <= i < s.len() && s[i] == '.'
}

/// The name a produced binary resolves to: the file name of the source path
/// (after the last '/'), stripped of everything from its first '.' on.
pub open spec fn bin_name_spec(s: Seq<char>) -> Seq<char> {
    before_first_dot(file_part(s))
}

/// Character-wise string equality.
pub fn str_eq(a: &str, b: &str) -> (r: bool)
    ensures
        r == (a@ == b@),
{
    let alen = a.unicode_len();
    let blen = b.unicode_len();
    if alen != blen {
        return false;
    }
    let mut i: usize = 0;
    while i < alen
        invariant
            alen == a@.len(),
            blen == b@.len(),
            alen == blen,
            0 <= i <= alen,
            forall|j: int| 0 <= j < i ==> a@[j] == b@[j],
        decreases alen - i,
    {
        let ca = a.get_char(i);
        let cb = b.get_char(i);
        if ca != cb {
            return false;
        }
        i = i + 1;
    }
    proof {
        assert(a@ =~= b@);
    }
    true
}

/// The first index at or after `from` where `c` stands in `s`, or the length
/// of `s` when there is none.
pub fn find_char_from(s: &str, from: usize, c: char) -> (r: usize)
    requires
        from <= s@.len(),
    ensures
        from <= r <= s@.len(),
        forall|j: int| from <= j < r ==> s@[j] != c,
        r < s@.len() ==> s@[r as int] == c,
{
    let len = s.unicode_len();
    let mut b = from;
    while b < len
        invariant
            len == s@.len(),
            from <= b <= len,
            forall|j: int| from <= j < b ==> s@[j] != c,
        decreases len - b,
    {
        if s.get_char(b) == c {
            return b;
        }
        b = b + 1;
    }
    len
}

/// One past the index of the last '/' in `s`; 0 when `s` has none.
pub fn index_after_last_slash(s: &str) -> (r: usize)
    ensures
        r <= s@.len(),
        r == 0 || s@[r - 1] == '/',
        forall|j: int| r <= j < s@.len() ==> s@[j] != '/',
{
    let len = s.unicode_len();
    let mut a: usize = 0;
    let mut k: usize = 0;
    while k < len
        invariant
            len == s@.len(),
            0 <= a <= k <= len,
            a == 0 || s@[a - 1] == '/',
            forall|j: int| a <= j < k ==> s@[j] != '/',
        decreases len - k,
    {
        if s.get_char(k) == '/' {
            a = k + 1;
        }
        k = k + 1;
    }
    a
}

proof fn lemma_file_part_is_suffix(s: Seq<char>, a: int)
    requires
        0 <= a <= s.len(),
        a == 0 || s[a - 1] == '/',
        forall|j: int| a <= j < s.len() ==> s[j] != '/',
    ensures
        file_part(s) == s.subrange(a, s.len() as int),
    decreases s.len(),
{
    if a == s.len() {
        if s.len() == 0 {
            assert(file_part(s) =~= s.subrange(a, s.len() as int));
        } else {
            assert(s[s.len() - 1] == '/');
            assert(file_part(s) =~= s.subrange(a, s.len() as int));
        }
    } else {
        assert(s[s.len() - 1] != '/');
        let d = s.drop_last();
        assert(forall|j: int| a <= j < d.len() ==> d[j] == s[j]);
        lemma_file_part_is_suffix(d, a);
        assert(file_part(s) == file_part(d).push(s[s.len() - 1]));
        assert(file_part(s) =~= s.subrange(a, s.len() as int));
    }
}

pub proof fn lemma_before_first_dot_is_prefix(s: Seq<char>, b: int)
    requires
        0 <= b <= s.len(),
        forall|j: int| 0 <= j < b ==> s[j] != '.',
        b == s.len() || s[b] == '.',
    ensures
        before_first_dot(s) == s.subrange(0, b),
    decreases s.len(),
{
    if s.len() == 0 {
        assert(before_first_dot(s) =~= s.subrange(0, b));
    } else if s[0] == '.' {
        assert(b == 0);
        assert(before_first_dot(s) =~= s.subrange(0, b));
    } else {
        assert(b >= 1);
        let d = s.drop_first();
        lemma_before_first_dot_is_prefix(d, b - 1);
        assert(before_first_dot(s) == seq![s[0]] + before_first_dot(d));
        assert(before_first_dot(s) =~= s.subrange(0, b));
    }
}

proof fn lemma_after_first_dot_is_suffix(s: Seq<char>, b: int)
    requires
        0 <= b < s.len(),
        forall|j: int| 0 <= j < b ==> s[j] != '.',
        s[b] == '.',
    ensures
        after_first_dot(s) == s.subrange(b + 1, s.len() as int),
    decreases s.len(),
{
    if s[0] == '.' {
        assert(b == 0);
        assert(after_first_dot(s) =~= s.subrange(b + 1, s.len() as int));
    } else {
        assert(b >= 1);
        let d = s.drop_first();
        lemma_after_first_dot_is_suffix(d, b - 1);
        assert(after_first_dot(s) == after_first_dot(d));
        assert(after_first_dot(s) =~= s.subrange(b + 1, s.len() as int));
    }
}

/// The binary name that `BuildBinAndRun` derives from a source path: strip the
/// directory components, then strip the file name's extension.
pub fn binary_name_of(source: &str) -> (r: String)
    ensures
        r@ == bin_name_spec(source@),
{
    let len = source.unicode_len();
    let a = index_after_last_slash(source);
    let b = find_char_from(source, a, '.');
    let stem = source.substring_char(a, b);
    proof {
        lemma_file_part_is_suffix(source@, a as int);
        let t = source@.subrange(a as int, len as int);
        lemma_before_first_dot_is_prefix(t, b - a);
        assert(t.subrange(0, b - a) =~= source@.subrange(a as int, b as int));
    }
    String::from_str(stem)
}

/// Splits a dotted configuration key into the part before and the part after
/// its first '.'.  `None` exactly when the key has no '.'.
pub fn split_config_key(key: &str) -> (r: Option<(String, String)>)
    ensures
        match r {
            None => !has_dot(key@),
            Some(p) => {
                &&& has_dot(key@)
                &&& p.0@ == before_first_dot(key@)
                &&& p.1@ == after_first_dot(key@)
            },
        },
{
    let len = key.unicode_len();
    let d = find_char_from(key, 0, '.');
    if d == len {
        assert(!has_dot(key@));
        None
    } else {
        let tag = key.substring_char(0, d);
        let rest = key.substring_char(d + 1, len);
        proof {
            assert(has_dot(key@));
            lemma_before_first_dot_is_prefix(key@, d as int);
            lemma_after_first_dot_is_suffix(key@, d as int);
        }
        Some((String::from_str(tag), String::from_str(rest)))
    }
}

/// Substring search, as `str::contains` performs it.
pub fn contains_substring(s: &str, pat: &str) -> (r: bool)
    ensures
        r == is_substring(pat@, s@),
{
    let slen = s.unicode_len();
    let plen = pat.unicode_len();
    if plen > slen {
        return false;
    }
    if plen == 0 {
        proof {
            assert(s@.subrange(0, 0 + pat@.len() as int) =~= pat@);
            assert(is_substring(pat@, s@));
        }
        return true;
    }
    let last = slen - plen;
    let mut i: usize = 0;
    while i <= last
        invariant
            slen == s@.len(),
            plen == pat@.len(),
            1 <= plen <= slen,
            last == slen - plen,
            0 <= i <= last + 1,
            forall|k: int| 0 <= k < i ==> #[trigger] s@.subrange(k, k + plen as int) != pat@,
        decreases last + 1 - i,
    {
        if match_at(s, pat, i) {
            assert(is_substring(pat@, s@));
            return true;
        }
        i = i + 1;
    }
    false
}

/// `pat` matches `s` starting at index `i`.
fn match_at(s: &str, pat: &str, i: usize) -> (r: bool)
    requires
        i + pat@.len() <= s@.len(),
    ensures
        r == (s@.subrange(i as int, i + pat@.len()) == pat@),
{
    let slen = s.unicode_len();
    let plen = pat.unicode_len();
    let mut j: usize = 0;
    while j < plen
        invariant
            slen == s@.len(),
            plen == pat@.len(),
            i + plen <= slen,
            0 <= j <= plen,
            forall|k: int| 0 <= k < j ==> s@[i + k] == pat@[k],
        decreases plen - j,
    {
        if s.get_char(i + j) != pat.get_char(j) {
            assert(s@.subrange(i as int, i + plen as int)[j as int] == s@[i + j]);
            return false;
        }
        j = j + 1;
    }
    proof {
        assert(s@.subrange(i as int, i + plen as int) =~= pat@);
    }
    true
}

/// `v` holds a string whose characters are `s`.
pub open spec fn contains_string(v: Seq<Seq<char>>, s: Seq<char>) -> bool {
    exists|i: int| 0 <= i < v.len() && v[i] == s
}

/// Membership of `s` in a list of strings, by exact match.
pub fn contains_str(v: &Vec<String>, s: &str) -> (r: bool)
    ensures
        r == contains_string(v.deep_view(), s@),
{
    let mut i: usize = 0;
    while i < v.len()
        invariant
            0 <= i <= v.len(),
            forall|j: int| 0 <= j < i ==> v.deep_view()[j] != s@,
        decreases v.len() - i,
    {
        if str_eq(v[i].as_str(), s) {
            assert(v.deep_view()[i as int] == s@);
            return true;
        }
        i = i + 1;
    }
    false
}

/// Appends clones of all of `src` to `dst`.
pub fn append_all(dst: &mut Vec<String>, src: &Vec<String>)
    ensures
        final(dst).deep_view() == old(dst).deep_view() + src.deep_view(),
{
    let mut i: usize = 0;
    while i < src.len()
        invariant
            0 <= i <= src.len(),
            dst.deep_view() =~= old(dst).deep_view() + src.deep_view().take(i as int),
        decreases src.len() - i,
    {
        let ghost pre_dv = dst.deep_view();
        let x = src[i].clone();
        let ghost xv = x@;
        assert(xv == src.deep_view()[i as int]);
        dst.push(x);
        proof {
            assert(dst.deep_view() =~= pre_dv.push(xv));
            assert(src.deep_view().take(i + 1) =~= src.deep_view().take(i as int).push(xv));
            assert(dst.deep_view() =~= old(dst).deep_view() + src.deep_view().take(i + 1));
        }
        i = i + 1;
    }
    assert(dst.deep_view() =~= old(dst).deep_view() + src.deep_view());
}

} // verus!
