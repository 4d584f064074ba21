//! Text primitives over `Seq<char>`: whitespace, trimming, words, substring
//! search, decimal numerals and joining. Every executable function here is
//! proved against a spec function on the string's view.

use vstd::prelude::*;

verus! {

/// Whether `c` carries the Unicode `White_Space` property.
pub open spec fn is_space(c: char) -> bool {
    let n = c as u32;
    (0x09 <= n && n <= 0x0D) || n == 0x20 || n == 0x85 || n == 0xA0 || n == 0x1680 || (0x2000 <= n
        && n <= 0x200A) || n == 0x2028 || n == 0x2029 || n == 0x202F || n == 0x205F || n == 0x3000
}

/// Decides `is_space` for one character.
pub fn char_is_space(c: char) -> (b: bool)
    ensures
        b == is_space(c),
{
    let n: u32 = c as u32;
    (0x09 <= n && n <= 0x0D) || n == 0x20 || n == 0x85 || n == 0xA0 || n == 0x1680 || (0x2000 <= n
        && n <= 0x200A) || n == 0x2028 || n == 0x2029 || n == 0x202F || n == 0x205F || n == 0x3000
}

/// The characters of `s`, in order.
pub fn chars_of(s: &str) -> (v: Vec<char>)
    ensures
        v@ == s@,
{
    let mut v: Vec<char> = Vec::new();
    for c in it: s.chars()
        invariant
            v@ == it.seq().take(it.index() as int),
            it.seq() == s@,
    {
        v.push(c);
    }
    v
}

/// Whether two strings hold the same characters.
pub fn str_eq(a: &str, b: &str) -> (r: bool)
    ensures
        r == (a@ == b@),
{
    let x = a.to_owned();
    let y = b.to_owned();
    x == y
}

/// The first index at or after `i` that holds no whitespace, or the length.
pub open spec fn skip_spaces(s: Seq<char>, i: int) -> int
    decreases s.len() - i,
{
    if 0 <= i < s.len() && is_space(s[i]) {
        skip_spaces(s, i + 1)
    } else {
        i
    }
}

/// The first index at or after `i` that holds whitespace, or the length.
pub open spec fn skip_word(s: Seq<char>, i: int) -> int
    decreases s.len() - i,
{
    if 0 <= i < s.len() && !is_space(s[i]) {
        skip_word(s, i + 1)
    } else {
        i
    }
}

/// The least `k <= j` such that `s[k..j]` is all whitespace.
pub open spec fn back_over_spaces(s: Seq<char>, j: int) -> int
    decreases j,
{
    if 0 < j <= s.len() && is_space(s[j - 1]) {
        back_over_spaces(s, j - 1)
    } else {
        j
    }
}

/// `skip_spaces` stays in range and passes over whitespace only.
pub proof fn lemma_skip_spaces(s: Seq<char>, i: int)
    requires
        0 <= i <= s.len(),
    ensures
        i <= skip_spaces(s, i) <= s.len(),
        forall|k: int| i <= k < skip_spaces(s, i) ==> is_space(#[trigger] s[k]),
        skip_spaces(s, i) < s.len() ==> !is_space(s[skip_spaces(s, i)]),
    decreases s.len() - i,
{
    if i < s.len() && is_space(s[i]) {
        lemma_skip_spaces(s, i + 1);
    }
}

/// `skip_word` stays in range and passes over non-whitespace only.
pub proof fn lemma_skip_word(s: Seq<char>, i: int)
    requires
        0 <= i <= s.len(),
    ensures
        i <= skip_word(s, i) <= s.len(),
        forall|k: int| i <= k < skip_word(s, i) ==> !is_space(#[trigger] s[k]),
        skip_word(s, i) < s.len() ==> is_space(s[skip_word(s, i)]),
    decreases s.len() - i,
{
    if i < s.len() && !is_space(s[i]) {
        lemma_skip_word(s, i + 1);
    }
}

/// `back_over_spaces` stays in range and passes over whitespace only.
pub proof fn lemma_back_over_spaces(s: Seq<char>, j: int)
    requires
        0 <= j <= s.len(),
    ensures
        0 <= back_over_spaces(s, j) <= j,
        forall|k: int| back_over_spaces(s, j) <= k < j ==> is_space(#[trigger] s[k]),
        back_over_spaces(s, j) > 0 ==> !is_space(s[back_over_spaces(s, j) - 1]),
    decreases j,
{
    if 0 < j && is_space(s[j - 1]) {
        lemma_back_over_spaces(s, j - 1);
    }
}

/// Executable `skip_spaces`.
pub fn skip_spaces_exec(chars: &Vec<char>, i: usize) -> (r: usize)
    requires
        i <= chars.len(),
    ensures
        r == skip_spaces(chars@, i as int),
        i <= r <= chars.len(),
{
    let mut k: usize = i;
    while k < chars.len() && char_is_space(chars[k])
        invariant
            i <= k <= chars.len(),
            skip_spaces(chars@, i as int) == skip_spaces(chars@, k as int),
        decreases chars.len() - k,
    {
        k += 1;
    }
    k
}

/// Executable `skip_word`.
pub fn skip_word_exec(chars: &Vec<char>, i: usize) -> (r: usize)
    requires
        i <= chars.len(),
    ensures
        r == skip_word(chars@, i as int),
        i <= r <= chars.len(),
{
    let mut k: usize = i;
    while k < chars.len() && !char_is_space(chars[k])
        invariant
            i <= k <= chars.len(),
            skip_word(chars@, i as int) == skip_word(chars@, k as int),
        decreases chars.len() - k,
    {
        k += 1;
    }
    k
}

/// Executable `back_over_spaces`.
pub fn back_over_spaces_exec(chars: &Vec<char>, j: usize) -> (r: usize)
    requires
        j <= chars.len(),
    ensures
        r == back_over_spaces(chars@, j as int),
        r <= j,
{
    let mut k: usize = j;
    while k > 0 && char_is_space(chars[k - 1])
        invariant
            k <= j <= chars.len(),
            back_over_spaces(chars@, j as int) == back_over_spaces(chars@, k as int),
        decreases k,
    {
        k -= 1;
    }
    k
}

/// `s` without its leading and trailing whitespace.
pub open spec fn trimmed(s: Seq<char>) -> Seq<char> {
    let a = skip_spaces(s, 0);
    let b = back_over_spaces(s, s.len() as int);
    if a < b {
        s.subrange(a, b)
    } else {
        Seq::empty()
    }
}

/// Whether `s` holds whitespace only.
pub open spec fn is_blank(s: Seq<char>) -> bool {
    forall|k: int| 0 <= k < s.len() ==> is_space(#[trigger] s[k])
}

/// What trimming keeps and what it drops: `trimmed(s)` is the stretch of `s`
/// between two runs of whitespace, it neither starts nor ends with
/// whitespace, and it is empty exactly when `s` is blank.
pub proof fn lemma_trimmed(s: Seq<char>)
    ensures
        exists|a: int, b: int|
            0 <= a <= b <= s.len() && #[trigger] s.subrange(a, b) == trimmed(s) && is_blank(
                s.subrange(0, a),
            ) && is_blank(s.subrange(b, s.len() as int)),
        trimmed(s).len() > 0 ==> !is_space(trimmed(s).first()) && !is_space(trimmed(s).last()),
        trimmed(s).len() == 0 <==> is_blank(s),
{
    let a = skip_spaces(s, 0);
    let b = back_over_spaces(s, s.len() as int);
    lemma_skip_spaces(s, 0);
    lemma_back_over_spaces(s, s.len() as int);
    if a < b {
        assert(s.subrange(a, b) == trimmed(s));
        assert(!is_space(s[a]));
        assert(!is_blank(s));
    } else {
        // every index lies before `a` or at or after `b`
        assert(is_blank(s)) by {
            assert forall|k: int| 0 <= k < s.len() implies is_space(#[trigger] s[k]) by {
                if k < a {
                } else {
                    assert(b <= k);
                }
            }
        }
        if a == s.len() {
            assert(s.subrange(a, a) == trimmed(s));
            assert(is_blank(s.subrange(a, s.len() as int)));
        } else {
            assert(!is_space(s[a]));
            assert(false);
        }
    }
}

/// Trims `s`.
pub fn trim(s: &str) -> (r: String)
    ensures
        r@ == trimmed(s@),
{
    let chars = chars_of(s);
    let a = skip_spaces_exec(&chars, 0);
    let b = back_over_spaces_exec(&chars, chars.len());
    if a < b {
        s.substring_char(a, b).to_owned()
    } else {
        String::new()
    }
}

/// Decides `is_blank`.
pub fn str_is_blank(s: &str) -> (r: bool)
    ensures
        r == is_blank(s@),
{
    let chars = chars_of(s);
    let a = skip_spaces_exec(&chars, 0);
    proof {
        lemma_skip_spaces(s@, 0);
    }
    a == chars.len()
}

/// Where the `k`-th whitespace-separated word of `s` starts (the length if
/// there is none).
pub open spec fn word_start(s: Seq<char>, k: nat) -> int
    decreases k,
{
    if k == 0 {
        skip_spaces(s, 0)
    } else {
        skip_spaces(s, skip_word(s, word_start(s, (k - 1) as nat)))
    }
}

/// The `k`-th whitespace-separated word of `s`, counting from zero.
pub open spec fn word(s: Seq<char>, k: nat) -> Option<Seq<char>> {
    let a = word_start(s, k);
    if 0 <= a < s.len() {
        Some(s.subrange(a, skip_word(s, a)))
    } else {
        None
    }
}

/// `word_start` stays in range and never moves back.
pub proof fn lemma_word_start(s: Seq<char>, k: nat)
    ensures
        0 <= word_start(s, k) <= s.len(),
        k > 0 ==> word_start(s, (k - 1) as nat) <= word_start(s, k),
        k > 0 && word_start(s, (k - 1) as nat) == s.len() ==> word_start(s, k) == s.len(),
    decreases k,
{
    if k == 0 {
        lemma_skip_spaces(s, 0);
    } else {
        lemma_word_start(s, (k - 1) as nat);
        let p = word_start(s, (k - 1) as nat);
        lemma_skip_word(s, p);
        lemma_skip_spaces(s, skip_word(s, p));
    }
}

/// A word is never empty and holds no whitespace.
pub proof fn lemma_word(s: Seq<char>, k: nat)
    ensures
        word(s, k) matches Some(w) ==> w.len() > 0 && forall|i: int|
            0 <= i < w.len() ==> !is_space(#[trigger] w[i]),
{
    lemma_word_start(s, k);
    let a = word_start(s, k);
    if a < s.len() {
        lemma_skip_word(s, a);
        if k == 0 {
            lemma_skip_spaces(s, 0);
        } else {
            let p = word_start(s, (k - 1) as nat);
            lemma_word_start(s, (k - 1) as nat);
            lemma_skip_word(s, p);
            lemma_skip_spaces(s, skip_word(s, p));
        }
        assert(!is_space(s[a]));
    }
}

/// The `k`-th whitespace-separated word of `s`, if it has that many.
pub fn nth_word(s: &str, k: usize) -> (r: Option<String>)
    ensures
        r.deep_view() == word(s@, k as nat),
{
    let chars = chars_of(s);
    let mut a = skip_spaces_exec(&chars, 0);
    let mut i: usize = 0;
    while i < k
        invariant
            i <= k,
            chars@ == s@,
            a == word_start(s@, i as nat),
            a <= chars.len(),
        decreases k - i,
    {
        let e = skip_word_exec(&chars, a);
        a = skip_spaces_exec(&chars, e);
        i += 1;
    }
    if a < chars.len() {
        let e = skip_word_exec(&chars, a);
        Some(s.substring_char(a, e).to_owned())
    } else {
        None
    }
}

/// The whitespace-separated words of `s` that start at or after `i`.
pub open spec fn words_from(s: Seq<char>, i: int) -> Seq<Seq<char>>
    decreases s.len() - i,
{
    let a = skip_spaces(s, i);
    let e = skip_word(s, a);
    if 0 <= i <= a < e <= s.len() {
        seq![s.subrange(a, e)] + words_from(s, e)
    } else {
        Seq::empty()
    }
}

/// All the whitespace-separated words of `s`, in order.
pub open spec fn words(s: Seq<char>) -> Seq<Seq<char>> {
    words_from(s, 0)
}

/// Splits `s` at runs of whitespace.
pub fn split_words(s: &str) -> (r: Vec<String>)
    ensures
        r.deep_view() == words(s@),
{
    let chars = chars_of(s);
    let mut out: Vec<String> = Vec::new();
    let mut i: usize = 0;
    loop
        invariant
            chars@ == s@,
            i <= chars.len(),
            words(s@) == out.deep_view() + words_from(s@, i as int),
        ensures
            words(s@) == out.deep_view(),
        decreases chars.len() - i,
    {
        let a = skip_spaces_exec(&chars, i);
        if a >= chars.len() {
            proof {
                lemma_skip_word(s@, a as int);
                assert(words_from(s@, i as int) == Seq::<Seq<char>>::empty());
            }
            break ;
        }
        let e = skip_word_exec(&chars, a);
        proof {
            lemma_skip_spaces(s@, i as int);
            lemma_skip_word(s@, a as int + 1);
            assert(a < e);
        }
        let w = s.substring_char(a, e).to_owned();
        let ghost before = out.deep_view();
        out.push(w);
        proof {
            assert(out.deep_view() == before + seq![s@.subrange(a as int, e as int)]);
        }
        i = e;
    }
    out
}

/// Whether `needle` stands in `hay` at index `i`.
pub open spec fn occurs_at(hay: Seq<char>, needle: Seq<char>, i: int) -> bool {
    0 <= i && i + needle.len() <= hay.len() && hay.subrange(i, i + needle.len()) == needle
}

/// Whether `needle` stands somewhere in `hay`.
pub open spec fn contains(hay: Seq<char>, needle: Seq<char>) -> bool {
    exists|i: int| occurs_at(hay, needle, i)
}

/// Decides `occurs_at` for an index in range.
fn occurs_at_exec(hay: &Vec<char>, needle: &Vec<char>, i: usize) -> (r: bool)
    requires
        i + needle.len() <= hay.len(),
    ensures
        r == occurs_at(hay@, needle@, i as int),
{
    let mut k: usize = 0;
    while k < needle.len()
        invariant
            k <= needle.len(),
            i + needle.len() <= hay.len(),
            forall|j: int| 0 <= j < k ==> hay@[i + j] == needle@[j],
        decreases needle.len() - k,
    {
        if hay[i + k] != needle[k] {
            proof {
                let sub = hay@.subrange(i as int, i + needle.len());
                assert(sub[k as int] == hay@[i + k]);
            }
            return false;
        }
        k += 1;
    }
    proof {
        assert(hay@.subrange(i as int, i + needle.len()) =~= needle@);
    }
    true
}

/// Decides `contains`.
pub fn str_contains(hay: &str, needle: &str) -> (r: bool)
    ensures
        r == contains(hay@, needle@),
{
    let h = chars_of(hay);
    let n = chars_of(needle);
    if n.len() > h.len() {
        return false;
    }
    let last: usize = h.len() - n.len();
    let mut i: usize = 0;
    loop
        invariant
            h@ == hay@,
            n@ == needle@,
            last + n.len() == h.len(),
            i <= last,
            forall|j: int| 0 <= j < i ==> !occurs_at(hay@, needle@, j),
        decreases last - i,
    {
        if occurs_at_exec(&h, &n, i) {
            return true;
        }
        if i == last {
            return false;
        }
        i += 1;
    }
}

/// Whether `c` stands somewhere in `s`.
pub fn str_has_char(s: &str, c: char) -> (r: bool)
    ensures
        r == s@.contains(c),
{
    let chars = chars_of(s);
    let mut i: usize = 0;
    while i < chars.len()
        invariant
            chars@ == s@,
            i <= chars.len(),
            forall|j: int| 0 <= j < i ==> s@[j] != c,
        decreases chars.len() - i,
    {
        if chars[i] == c {
            return true;
        }
        i += 1;
    }
    false
}

/// `parts` written one after another with `sep` between neighbours.
pub open spec fn joined(parts: Seq<Seq<char>>, sep: Seq<char>) -> Seq<char>
    decreases parts.len(),
{
    if parts.len() == 0 {
        Seq::empty()
    } else if parts.len() == 1 {
        parts[0]
    } else {
        joined(parts.drop_last(), sep) + sep + parts.last()
    }
}

/// Joins `parts` with `sep`.
pub fn join(parts: &Vec<String>, sep: &str) -> (r: String)
    ensures
        r@ == joined(parts.deep_view(), sep@),
{
    let mut out = String::new();
    let mut i: usize = 0;
    while i < parts.len()
        invariant
            i <= parts.len(),
            out@ == joined(parts.deep_view().take(i as int), sep@),
        decreases parts.len() - i,
    {
        let ghost done = parts.deep_view().take(i as int);
        let ghost next = parts.deep_view().take(i + 1);
        proof {
            assert(next.drop_last() == done);
            assert(next.last() == parts@[i as int]@);
        }
        if i > 0 {
            out.append(sep);
        }
        out.append(parts[i].as_str());
        i += 1;
    }
    proof {
        assert(parts.deep_view().take(parts.len() as int) == parts.deep_view());
    }
    out
}

/// `s` with every occurrence of `c` written twice.
pub open spec fn doubled(s: Seq<char>, c: char) -> Seq<char>
    decreases s.len(),
{
    if s.len() == 0 {
        Seq::empty()
    } else if s.last() == c {
        doubled(s.drop_last(), c).push(c).push(c)
    } else {
        doubled(s.drop_last(), c).push(s.last())
    }
}

/// Writes every occurrence of `c` in `s` twice.
pub fn double_char(s: &str, c: char) -> (r: String)
    ensures
        r@ == doubled(s@, c),
{
    let chars = chars_of(s);
    let mut out = String::new();
    let mut i: usize = 0;
    while i < chars.len()
        invariant
            chars@ == s@,
            i <= chars.len(),
            out@ == doubled(s@.take(i as int), c),
        decreases chars.len() - i,
    {
        let piece = s.substring_char(i, i + 1);
        proof {
            let next = s@.take(i + 1);
            assert(next.drop_last() == s@.take(i as int));
            assert(next.last() == s@[i as int]);
            assert(piece@ == seq![s@[i as int]]);
        }
        out.append(piece);
        if chars[i] == c {
            out.append(piece);
        }
        i += 1;
    }
    proof {
        assert(s@.take(s@.len() as int) == s@);
    }
    out
}

/// A copy of the first `n` strings of `v`.
pub fn copy_prefix(v: &Vec<String>, n: usize) -> (r: Vec<String>)
    requires
        n <= v.len(),
    ensures
        r.deep_view() == v.deep_view().take(n as int),
{
    let mut out: Vec<String> = Vec::new();
    let mut i: usize = 0;
    while i < n
        invariant
            i <= n <= v.len(),
            out@.len() == i,
            forall|k: int| 0 <= k < i ==> (#[trigger] out@[k])@ == v@[k]@,
        decreases n - i,
    {
        out.push(v[i].clone());
        i += 1;
    }
    proof {
        assert(out.deep_view() =~= v.deep_view().take(n as int));
    }
    out
}

/// A copy of `v`.
pub fn copy_strings(v: &Vec<String>) -> (r: Vec<String>)
    ensures
        r.deep_view() == v.deep_view(),
{
    let r = copy_prefix(v, v.len());
    proof {
        assert(v.deep_view().take(v.len() as int) =~= v.deep_view());
    }
    r
}

/// Adds a copy of `s` at the end of `v`.
pub fn push_str_copy(v: &mut Vec<String>, s: &str)
    ensures
        final(v).deep_view() == old(v).deep_view().push(s@),
{
    let ghost before = v.deep_view();
    v.push(s.to_owned());
    proof {
        assert(v.deep_view() =~= before.push(s@));
    }
}

/// What stands in a text stands in every text that ends with it.
pub proof fn lemma_contains_in_suffix(front: Seq<char>, back: Seq<char>, needle: Seq<char>)
    requires
        contains(back, needle),
    ensures
        contains(front + back, needle),
{
    let i = choose|i: int| occurs_at(back, needle, i);
    let all = front + back;
    assert(all.subrange(front.len() + i, front.len() + i + needle.len()) =~= back.subrange(
        i,
        i + needle.len(),
    ));
    assert(occurs_at(all, needle, front.len() + i));
}

/// The first index at or after `i` that holds `c`, or the length.
pub open spec fn find_char(s: Seq<char>, c: char, i: int) -> int
    decreases s.len() - i,
{
    if 0 <= i < s.len() && s[i] != c {
        find_char(s, c, i + 1)
    } else {
        i
    }
}

/// What stands between the first `c` and the next one, or the end; `None`
/// where `s` holds no `c`.
pub open spec fn second_field(s: Seq<char>, c: char) -> Option<Seq<char>> {
    let a = find_char(s, c, 0);
    if 0 <= a < s.len() {
        Some(s.subrange(a + 1, find_char(s, c, a + 1)))
    } else {
        None
    }
}

/// Executable `find_char`.
pub fn find_char_exec(chars: &Vec<char>, c: char, i: usize) -> (r: usize)
    requires
        i <= chars.len(),
    ensures
        r == find_char(chars@, c, i as int),
        i <= r <= chars.len(),
{
    let mut k: usize = i;
    while k < chars.len() && chars[k] != c
        invariant
            i <= k <= chars.len(),
            find_char(chars@, c, i as int) == find_char(chars@, c, k as int),
        decreases chars.len() - k,
    {
        k += 1;
    }
    k
}

/// Reads `second_field`.
pub fn get_second_field(s: &str, c: char) -> (r: Option<String>)
    ensures
        r.deep_view() == second_field(s@, c),
{
    let chars = chars_of(s);
    let a = find_char_exec(&chars, c, 0);
    if a < chars.len() {
        let b = find_char_exec(&chars, c, a + 1);
        Some(s.substring_char(a + 1, b).to_owned())
    } else {
        None
    }
}

} // verus!
