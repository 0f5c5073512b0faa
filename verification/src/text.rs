//! Character-level helpers on strings, each stated over `Seq<char>`.
use vstd::prelude::*;
use vstd::string::*;

verus! {

/// The text views of a list of strings.
pub open spec fn strings_view(v: Seq<String>) -> Seq<Seq<char>> {
    v.map_values(|s: String| s@)
}

/// Unicode `White_Space` characters, the ones `str::trim` removes.
pub open spec fn is_whitespace(c: char) -> bool {
    ||| '\u{9}' <= c <= '\u{d}'
    ||| c == ' '
    ||| c == '\u{85}'
    ||| c == '\u{a0}'
    ||| c == '\u{1680}'
    ||| '\u{2000}' <= c <= '\u{200a}'
    ||| c == '\u{2028}'
    ||| c == '\u{2029}'
    ||| c == '\u{202f}'
    ||| c == '\u{205f}'
    ||| c == '\u{3000}'
}

/// Whether `c` is a Unicode `White_Space` character.
pub fn char_is_whitespace(c: char) -> (res: bool)
    ensures
        res == is_whitespace(c),
{
    ('\u{9}' <= c && c <= '\u{d}') || c == ' ' || c == '\u{85}' || c == '\u{a0}' || c == '\u{1680}'
        || ('\u{2000}' <= c && c <= '\u{200a}') || c == '\u{2028}' || c == '\u{2029}' || c == '\u{202f}'
        || c == '\u{205f}' || c == '\u{3000}'
}

/// `s` without its leading and trailing whitespace: the part from the first to the last
/// non-whitespace character (empty if there is none).
pub open spec fn trim_spec(s: Seq<char>) -> Seq<char> {
    if exists|i: int| 0 <= i < s.len() && !is_whitespace(s[i]) {
        let a = choose|a: int| 0 <= a < s.len() && !is_whitespace(s[a]) && forall|j: int| 0 <= j < a ==> is_whitespace(s[j]);
        let b = choose|b: int| 0 <= b < s.len() && !is_whitespace(s[b]) && forall|j: int| b < j < s.len() ==> is_whitespace(s[j]);
        s.subrange(a, b + 1)
    } else {
        Seq::empty()
    }
}

/// `pat` occurs in `s` starting at character index `i`.
pub open spec fn occurs_at(s: Seq<char>, pat: Seq<char>, i: int) -> bool {
    &&& 0 <= i
    &&& i + pat.len() <= s.len()
    &&& s.subrange(i, i + pat.len()) == pat
}

/// The index of the first occurrence of `pat` in `s`, if any.
pub open spec fn first_occurrence(s: Seq<char>, pat: Seq<char>) -> Option<int> {
    if exists|i: int| occurs_at(s, pat, i) {
        Some(choose|i: int| occurs_at(s, pat, i) && forall|j: int| 0 <= j < i ==> !occurs_at(s, pat, j))
    } else {
        None
    }
}

/// What `str::split_once` gives: the text before and after the first occurrence of `pat`.
pub open spec fn split_once_spec(s: Seq<char>, pat: Seq<char>) -> Option<(Seq<char>, Seq<char>)> {
    match first_occurrence(s, pat) {
        Some(i) => Some((s.subrange(0, i), s.subrange(i + pat.len(), s.len() as int))),
        None => None,
    }
}

/// The characters of `s`, one by one.
pub fn chars_of(s: &str) -> (v: Vec<char>)
    ensures
        v@ == s@,
{
    broadcast use vstd::string::group_string_axioms;
    let mut v: Vec<char> = Vec::new();
    for c in it: s.chars()
        invariant
            v@ == it.seq().take(it.index() as int),
            it.seq() == s@,
    {
        v.push(c);
        assert(v@ =~= it.seq().take(it.index() as int + 1));
    }
    assert(v@ =~= s@);
    v
}

/// Whether the two strings hold the same characters.
pub fn str_eq(a: &str, b: &str) -> (res: bool)
    ensures
        res == (a@ == b@),
{
    let av = chars_of(a);
    let bv = chars_of(b);
    if av.len() != bv.len() {
        return false;
    }
    let mut i: usize = 0;
    while i < av.len()
        invariant
            av@ == a@,
            bv@ == b@,
            av@.len() == bv@.len(),
            i <= av@.len(),
            forall|k: int| 0 <= k < i ==> a@[k] == b@[k],
        decreases av.len() - i,
    {
        if av[i] != bv[i] {
            return false;
        }
        i = i + 1;
    }
    assert(a@ =~= b@);
    true
}

/// Whether `pat` occurs in `s` at index `i`.
fn matches_at(s: &Vec<char>, pat: &Vec<char>, i: usize) -> (res: bool)
    ensures
        res == occurs_at(s@, pat@, i as int),
{
    if i > s.len() || pat.len() > s.len() - i {
        return false;
    }
    let n = s.len();
    let mut k: usize = 0;
    while k < pat.len()
        invariant
            n == s@.len(),
            i + pat@.len() <= s@.len(),
            k <= pat@.len(),
            forall|j: int| 0 <= j < k ==> s@[i + j] == pat@[j],
        decreases pat.len() - k,
    {
        if s[i + k] != pat[k] {
            assert(s@.subrange(i as int, i + pat@.len())[k as int] != pat@[k as int]);
            return false;
        }
        k = k + 1;
    }
    assert(s@.subrange(i as int, i + pat@.len()) =~= pat@);
    true
}

/// What the first occurrence is: an occurrence with none before it.
pub proof fn lemma_first_occurrence_props(s: Seq<char>, pat: Seq<char>)
    ensures
        first_occurrence(s, pat) matches Some(i) ==> occurs_at(s, pat, i) && forall|j: int|
            0 <= j < i ==> !occurs_at(s, pat, j),
        first_occurrence(s, pat) is None ==> forall|j: int| !occurs_at(s, pat, j),
{
    if exists|i: int| occurs_at(s, pat, i) {
        let w = choose|i: int| occurs_at(s, pat, i);
        lemma_least_occurrence(s, pat, w);
    }
}

/// Below any occurrence there is a least one.
proof fn lemma_least_occurrence(s: Seq<char>, pat: Seq<char>, w: int)
    requires
        occurs_at(s, pat, w),
    ensures
        exists|i: int| occurs_at(s, pat, i) && forall|j: int| 0 <= j < i ==> !occurs_at(s, pat, j),
    decreases w,
{
    if exists|j: int| 0 <= j < w && occurs_at(s, pat, j) {
        let j = choose|j: int| 0 <= j < w && occurs_at(s, pat, j);
        lemma_least_occurrence(s, pat, j);
    } else {
        assert(occurs_at(s, pat, w) && forall|j: int| 0 <= j < w ==> !occurs_at(s, pat, j));
    }
}

/// A witnessed first occurrence is the first occurrence.
pub proof fn lemma_first_occurrence(s: Seq<char>, pat: Seq<char>, i: int)
    requires
        occurs_at(s, pat, i),
        forall|j: int| 0 <= j < i ==> !occurs_at(s, pat, j),
    ensures
        first_occurrence(s, pat) == Some(i),
{
    let w = choose|w: int| occurs_at(s, pat, w) && forall|j: int| 0 <= j < w ==> !occurs_at(s, pat, j);
    assert(occurs_at(s, pat, w) && forall|j: int| 0 <= j < w ==> !occurs_at(s, pat, j));
    if w < i {
        assert(!occurs_at(s, pat, w));
    } else if w > i {
        assert(!occurs_at(s, pat, i));
    }
}

/// The index of the first occurrence of `pat` in `s`.
pub fn find(s: &Vec<char>, pat: &Vec<char>) -> (res: Option<usize>)
    ensures
        match res {
            Some(i) => first_occurrence(s@, pat@) == Some(i as int),
            None => first_occurrence(s@, pat@) is None,
        },
{
    let mut i: usize = 0;
    loop
        invariant
            i <= s@.len(),
            forall|j: int| 0 <= j < i ==> !occurs_at(s@, pat@, j),
        decreases s@.len() - i,
    {
        if matches_at(s, pat, i) {
            proof {
                lemma_first_occurrence(s@, pat@, i as int);
            }
            return Some(i);
        }
        if i == s.len() {
            assert forall|j: int| !occurs_at(s@, pat@, j) by {
                if 0 <= j && j <= i {
                }
            }
            return None;
        }
        i = i + 1;
    }
}

/// `str::split_once`: the text before and after the first occurrence of `pat`.
pub fn split_once(s: &str, pat: &str) -> (res: Option<(String, String)>)
    ensures
        match res {
            Some((a, b)) => split_once_spec(s@, pat@) == Some((a@, b@)),
            None => split_once_spec(s@, pat@) is None,
        },
{
    let sv = chars_of(s);
    let pv = chars_of(pat);
    match find(&sv, &pv) {
        Some(i) => {
            proof {
                lemma_first_occurrence_props(sv@, pv@);
            }
            let n = sv.len();
            let before = s.substring_char(0, i);
            let after = s.substring_char(i + pv.len(), n);
            Some((String::from_str(before), String::from_str(after)))
        },
        None => None,
    }
}

/// `a` followed by `b`, as a new string.
pub fn concat(a: &str, b: &str) -> (res: String)
    ensures
        res@ == a@ + b@,
{
    let mut r = String::from_str(a);
    r.append(b);
    r
}

/// `str::trim`: `s` without leading and trailing whitespace.
pub fn trim(s: &str) -> (res: String)
    ensures
        res@ == trim_spec(s@),
{
    let v = chars_of(s);
    let n = v.len();
    let mut a: usize = 0;
    while a < n && char_is_whitespace(v[a])
        invariant
            n == v@.len(),
            v@ == s@,
            a <= n,
            forall|j: int| 0 <= j < a ==> is_whitespace(v@[j]),
        decreases n - a,
    {
        a = a + 1;
    }
    if a == n {
        assert(!exists|i: int| 0 <= i < s@.len() && !is_whitespace(s@[i]));
        return String::new();
    }
    let mut b: usize = n - 1;
    while char_is_whitespace(v[b])
        invariant
            n == v@.len(),
            v@ == s@,
            a < n,
            !is_whitespace(v@[a as int]),
            a <= b < n,
            forall|j: int| b < j < n ==> is_whitespace(v@[j]),
        decreases b,
    {
        b = b - 1;
    }
    proof {
        let sv = s@;
        assert(exists|i: int| 0 <= i < sv.len() && !is_whitespace(sv[i])) by {
            assert(0 <= a < sv.len() && !is_whitespace(sv[a as int]));
        }
        let ca = choose|ca: int| 0 <= ca < sv.len() && !is_whitespace(sv[ca]) && forall|j: int| 0 <= j < ca ==> is_whitespace(sv[j]);
        assert(0 <= a < sv.len() && !is_whitespace(sv[a as int]) && forall|j: int| 0 <= j < a ==> is_whitespace(sv[j]));
        assert(0 <= ca < sv.len() && !is_whitespace(sv[ca]) && forall|j: int| 0 <= j < ca ==> is_whitespace(sv[j]));
        if ca < a {
            assert(is_whitespace(sv[ca]));
        } else if ca > a {
            assert(is_whitespace(sv[a as int]));
        }
        let cb = choose|cb: int| 0 <= cb < sv.len() && !is_whitespace(sv[cb]) && forall|j: int| cb < j < sv.len() ==> is_whitespace(sv[j]);
        assert(0 <= b < sv.len() && !is_whitespace(sv[b as int]) && forall|j: int| b < j < sv.len() ==> is_whitespace(sv[j]));
        assert(0 <= cb < sv.len() && !is_whitespace(sv[cb]) && forall|j: int| cb < j < sv.len() ==> is_whitespace(sv[j]));
        if cb < b {
            assert(is_whitespace(sv[b as int]));
        } else if cb > b {
            assert(is_whitespace(sv[cb]));
        }
    }
    String::from_str(s.substring_char(a, b + 1))
}

} // verus!
