//! Character-sequence helpers: whitespace trimming, ASCII case folding and
//! substring tests, each stated over `Seq<char>`.

use vstd::prelude::*;

verus! {

/// Unicode `White_Space` (the property `char::is_whitespace` tests).
pub open spec fn is_ws(c: char) -> bool {
    let u = c as u32;
    (9 <= u <= 13) || u == 32 || u == 0x85 || u == 0xA0 || u == 0x1680 || (0x2000 <= u <= 0x200A)
        || u == 0x2028 || u == 0x2029 || u == 0x202F || u == 0x205F || u == 0x3000
}

/// `s` without its leading whitespace.
pub open spec fn trim_start(s: Seq<char>) -> Seq<char>
    decreases s.len(),
{
    if s.len() > 0 && is_ws(s[0]) {
        trim_start(s.drop_first())
    } else {
        s
    }
}

/// `s` without its trailing whitespace.
pub open spec fn trim_end(s: Seq<char>) -> Seq<char>
    decreases s.len(),
{
    if s.len() > 0 && is_ws(s.last()) {
        trim_end(s.drop_last())
    } else {
        s
    }
}

/// `s` without leading and trailing whitespace (what `str::trim` returns).
pub open spec fn trim(s: Seq<char>) -> Seq<char> {
    trim_end(trim_start(s))
}

/// ASCII uppercase letters mapped to lowercase, every other char kept.
pub open spec fn lower_char(c: char) -> char {
    if 'A' <= c && c <= 'Z' {
        ((c as u32) + 32) as char
    } else {
        c
    }
}

/// `s` with ASCII letters lowercased (what `str::to_ascii_lowercase` returns).
pub open spec fn lower(s: Seq<char>) -> Seq<char> {
    s.map_values(|c: char| lower_char(c))
}

/// `k` occurs in `s` starting at index `i`.
pub open spec fn occurs_at(s: Seq<char>, k: Seq<char>, i: int) -> bool {
    0 <= i && i + k.len() <= s.len() && s.subrange(i, i + k.len()) == k
}

/// `k` is a substring of `s`.
pub open spec fn contains(s: Seq<char>, k: Seq<char>) -> bool {
    exists|i: int| occurs_at(s, k, i)
}

/// `s` begins with `k`.
pub open spec fn starts_with(s: Seq<char>, k: Seq<char>) -> bool {
    occurs_at(s, k, 0)
}

/// `s` ends with `k`.
pub open spec fn ends_with(s: Seq<char>, k: Seq<char>) -> bool {
    k.len() <= s.len() && occurs_at(s, k, s.len() - k.len())
}

/// The chars of `s`, in order.
pub fn chars_of(s: &str) -> (v: Vec<char>)
    ensures
        v@ == s@,
{
    let mut v: Vec<char> = Vec::new();
    for c in it: s.chars()
        invariant
            v@ == it.seq().take(it.index() as int),
    {
        v.push(c);
    }
    v
}

/// Whether `c` is Unicode whitespace.
pub fn is_whitespace(c: char) -> (b: bool)
    ensures
        b == is_ws(c),
{
    let u = c as u32;
    (9 <= u && u <= 13) || u == 32 || u == 0x85 || u == 0xA0 || u == 0x1680 || (0x2000 <= u && u
        <= 0x200A) || u == 0x2028 || u == 0x2029 || u == 0x202F || u == 0x205F || u == 0x3000
}

/// The chars of `v` with leading and trailing whitespace removed.
pub fn trim_chars(v: &Vec<char>) -> (t: Vec<char>)
    ensures
        t@ == trim(v@),
{
    let n = v.len();
    let mut lo: usize = 0;
    assert(v@.subrange(0, n as int) =~= v@);
    while lo < n && is_whitespace(v[lo])
        invariant
            n == v.len(),
            lo <= n,
            trim_start(v@) == trim_start(v@.subrange(lo as int, n as int)),
        decreases n - lo,
    {
        assert(v@.subrange(lo as int, n as int).drop_first() =~= v@.subrange(lo + 1, n as int));
        lo = lo + 1;
    }
    assert(trim_start(v@) == v@.subrange(lo as int, n as int));
    let mut hi: usize = n;
    while hi > lo && is_whitespace(v[hi - 1])
        invariant
            n == v.len(),
            lo <= hi <= n,
            trim(v@) == trim_end(v@.subrange(lo as int, hi as int)),
        decreases hi - lo,
    {
        assert(v@.subrange(lo as int, hi as int).drop_last() =~= v@.subrange(lo as int, hi - 1));
        hi = hi - 1;
    }
    let mut t: Vec<char> = Vec::new();
    let mut i: usize = lo;
    while i < hi
        invariant
            n == v.len(),
            lo <= i <= hi <= n,
            t@ == v@.subrange(lo as int, i as int),
            trim(v@) == v@.subrange(lo as int, hi as int),
        decreases hi - i,
    {
        t.push(v[i]);
        assert(v@.subrange(lo as int, i + 1) =~= v@.subrange(lo as int, i as int).push(v@[i as int]));
        i = i + 1;
    }
    t
}

/// `c` with an ASCII uppercase letter lowercased.
pub fn to_lower_char(c: char) -> (r: char)
    ensures
        r == lower_char(c),
{
    if 'A' <= c && c <= 'Z' {
        let b: u8 = (c as u8) + 32;
        b as char
    } else {
        c
    }
}

/// `v` with ASCII letters lowercased.
pub fn lower_chars(v: &Vec<char>) -> (r: Vec<char>)
    ensures
        r@ == lower(v@),
{
    let mut r: Vec<char> = Vec::new();
    let mut i: usize = 0;
    while i < v.len()
        invariant
            i <= v.len(),
            r@ == lower(v@.take(i as int)),
        decreases v.len() - i,
    {
        let c = to_lower_char(v[i]);
        r.push(c);
        assert(lower(v@.take(i + 1)) =~= lower(v@.take(i as int)).push(lower_char(v@[i as int])));
        i = i + 1;
    }
    assert(v@.take(v.len() as int) =~= v@);
    r
}

/// Whether `k` occurs in `s` at index `i`.
pub fn occurs_at_exec(s: &Vec<char>, k: &Vec<char>, i: usize) -> (b: bool)
    ensures
        b == occurs_at(s@, k@, i as int),
{
    if k.len() > s.len() || i > s.len() - k.len() {
        return false;
    }
    let mut j: usize = 0;
    while j < k.len()
        invariant
            i + k.len() <= s.len(),
            j <= k.len(),
            forall|jj: int| 0 <= jj < j ==> s@[i + jj] == k@[jj],
        decreases k.len() - j,
    {
        if s[i + j] != k[j] {
            assert(s@.subrange(i as int, i + k.len())[j as int] != k@[j as int]);
            return false;
        }
        j = j + 1;
    }
    assert(s@.subrange(i as int, i + k.len()) =~= k@);
    true
}

/// Whether `k` is a substring of `s`.
pub fn contains_exec(s: &Vec<char>, k: &Vec<char>) -> (b: bool)
    ensures
        b == contains(s@, k@),
{
    if k.len() > s.len() {
        assert forall|i: int| !occurs_at(s@, k@, i) by {}
        return false;
    }
    let last = s.len() - k.len();
    let mut i: usize = 0;
    while i < last
        invariant
            last == s.len() - k.len(),
            i <= last,
            forall|ii: int| 0 <= ii < i ==> !occurs_at(s@, k@, ii),
        decreases last - i,
    {
        if occurs_at_exec(s, k, i) {
            return true;
        }
        i = i + 1;
    }
    if occurs_at_exec(s, k, last) {
        return true;
    }
    assert forall|ii: int| !occurs_at(s@, k@, ii) by {
        if 0 <= ii < i {
        }
    }
    false
}

/// Whether `s` begins with `k`.
pub fn starts_with_exec(s: &Vec<char>, k: &Vec<char>) -> (b: bool)
    ensures
        b == starts_with(s@, k@),
{
    occurs_at_exec(s, k, 0)
}

/// Whether `s` ends with `k`.
pub fn ends_with_exec(s: &Vec<char>, k: &Vec<char>) -> (b: bool)
    ensures
        b == ends_with(s@, k@),
{
    if k.len() > s.len() {
        return false;
    }
    occurs_at_exec(s, k, s.len() - k.len())
}

/// Whether `a` and `b` are equal up to ASCII case (what `str::eq_ignore_ascii_case` tests).
pub fn eq_ignore_ascii_case_chars(a: &Vec<char>, b: &Vec<char>) -> (r: bool)
    ensures
        r == (lower(a@) == lower(b@)),
{
    if a.len() != b.len() {
        assert(lower(a@).len() != lower(b@).len());
        return false;
    }
    let mut i: usize = 0;
    while i < a.len()
        invariant
            a.len() == b.len(),
            i <= a.len(),
            forall|j: int| 0 <= j < i ==> lower_char(a@[j]) == lower_char(b@[j]),
        decreases a.len() - i,
    {
        if to_lower_char(a[i]) != to_lower_char(b[i]) {
            assert(lower(a@)[i as int] != lower(b@)[i as int]);
            return false;
        }
        i = i + 1;
    }
    assert(lower(a@) =~= lower(b@));
    true
}

/// Appends `c` to `s`: `String::push`.
#[verifier::external_body]
fn push_char(s: &mut String, c: char)
    ensures
        final(s)@ == old(s)@.push(c),
{
    s.push(c);
}

/// A `String` holding the chars of `v`.
pub fn string_of(v: &Vec<char>) -> (s: String)
    ensures
        s@ == v@,
{
    let mut s = String::new();
    let mut i: usize = 0;
    while i < v.len()
        invariant
            i <= v.len(),
            s@ == v@.take(i as int),
        decreases v.len() - i,
    {
        push_char(&mut s, v[i]);
        assert(v@.take(i + 1) =~= v@.take(i as int).push(v@[i as int]));
        i = i + 1;
    }
    assert(v@.take(v.len() as int) =~= v@);
    s
}

/// Whether `a` and `b` hold the same chars.
pub fn equals_exec(a: &Vec<char>, b: &Vec<char>) -> (r: bool)
    ensures
        r == (a@ == b@),
{
    if a.len() != b.len() {
        return false;
    }
    let r = starts_with_exec(a, b);
    assert(a@ =~= a@.subrange(0, b@.len() as int));
    r
}

/// `s` is one of the words of `ws`.
pub open spec fn one_of(s: Seq<char>, ws: Seq<Seq<char>>) -> bool {
    exists|i: int| 0 <= i < ws.len() && s == #[trigger] ws[i]
}

/// Whether `s` is one of the words of `ws`.
pub fn one_of_exec(s: &str, ws: &Vec<&'static str>, Ghost(spec_ws): Ghost<Seq<Seq<char>>>) -> (b: bool)
    requires
        ws@.len() == spec_ws.len(),
        forall|j: int| 0 <= j < ws@.len() ==> #[trigger] ws@[j]@ == spec_ws[j],
    ensures
        b == one_of(s@, spec_ws),
{
    let sc = chars_of(s);
    let mut i: usize = 0;
    while i < ws.len()
        invariant
            sc@ == s@,
            ws@.len() == spec_ws.len(),
            forall|j: int| 0 <= j < ws@.len() ==> #[trigger] ws@[j]@ == spec_ws[j],
            i <= ws.len(),
            forall|j: int| 0 <= j < i ==> s@ != #[trigger] spec_ws[j],
        decreases ws.len() - i,
    {
        let w = chars_of(ws[i]);
        if equals_exec(&sc, &w) {
            assert(s@ == spec_ws[i as int]);
            return true;
        }
        i = i + 1;
    }
    false
}

} // verus!
