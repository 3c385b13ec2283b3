use vstd::prelude::*;
use vstd::string::StringExecFns;

verus! {

/// The text `s` with every occurrence of the character `c` taken out.
pub open spec fn without_char(s: Seq<char>, c: char) -> Seq<char>
    decreases s.len(),
{
    if s.len() == 0 {
        Seq::empty()
    } else if s.last() == c {
        without_char(s.drop_last(), c)
    } else {
        without_char(s.drop_last(), c).push(s.last())
    }
}

/// The text `s` with the non-overlapping occurrences of the non-empty pattern `p` taken
/// out, scanning from left to right (what `str::replace(p, "")` yields).
pub open spec fn without_pattern(s: Seq<char>, p: Seq<char>) -> Seq<char>
    decreases s.len(),
{
    if s.len() == 0 || p.len() == 0 {
        s
    } else if p.is_prefix_of(s) {
        without_pattern(s.skip(p.len() as int), p)
    } else {
        seq![s[0]] + without_pattern(s.skip(1), p)
    }
}

/// The texts of `parts` joined with `sep` between each neighbouring pair.
pub open spec fn joined(parts: Seq<Seq<char>>, sep: Seq<char>) -> Seq<char>
    decreases parts.len(),
{
    if parts.len() == 0 {
        Seq::empty()
    } else if parts.len() == 1 {
        parts[0]
    } else {
        joined(parts.drop_last(), sep) + sep + parts.last()
    }
}

/// Appends one character to a string (std's `String::push`).
#[verifier::external_body]
pub(crate) fn push_char(s: &mut String, c: char)
    ensures
        final(s)@ == old(s)@.push(c),
{
    s.push(c);
}

/// The characters of `s`, in order.
pub fn char_vec(s: &str) -> (v: Vec<char>)
    ensures
        v@ == s@,
{
    let mut v: Vec<char> = Vec::new();
    for ch in it: s.chars()
        invariant
            v@ == it.seq().take(it.index() as int),
            it.seq() == s@,
    {
        v.push(ch);
    }
    v
}

/// A new string that holds `s`.
pub fn owned(s: &str) -> (r: String)
    ensures
        r@ == s@,
{
    s.to_owned()
}

/// A new string that holds `a` followed by `b`.
pub fn concat2(a: &str, b: &str) -> (r: String)
    ensures
        r@ == a@ + b@,
{
    let mut r = a.to_owned();
    r.append(b);
    r
}

/// A new string that holds `a`, `b` and `c` one after the other.
pub fn concat3(a: &str, b: &str, c: &str) -> (r: String)
    ensures
        r@ == a@ + b@ + c@,
{
    let mut r = a.to_owned();
    r.append(b);
    r.append(c);
    r
}

/// Whether two strings hold the same characters.
pub fn same_text(a: &str, b: &str) -> (r: bool)
    ensures
        r == (a@ == b@),
{
    let x = a.to_owned();
    let y = b.to_owned();
    x == y
}

/// Removes every occurrence of `c` from `s`, as `s.replace(c, "")` does.
pub fn remove_char(s: &str, c: char) -> (r: String)
    ensures
        r@ == without_char(s@, c),
{
    let chars = char_vec(s);
    let mut r = String::new();
    let n = chars.len();
    let mut i: usize = 0;
    while i < n
        invariant
            n == chars@.len(),
            chars@ == s@,
            i <= n,
            r@ == without_char(s@.take(i as int), c),
        decreases n - i,
    {
        let ch = chars[i];
        assert(s@.take(i as int + 1).drop_last() == s@.take(i as int));
        if ch != c {
            push_char(&mut r, ch);
        }
        i = i + 1;
    }
    assert(s@.take(n as int) == s@);
    r
}

/// Whether `p` occurs in `s` at position `at`.
fn occurs_at(s: &Vec<char>, p: &Vec<char>, at: usize) -> (r: bool)
    requires
        at <= s@.len(),
    ensures
        r == p@.is_prefix_of(s@.skip(at as int)),
{
    if p.len() > s.len() - at {
        return false;
    }
    let mut k: usize = 0;
    while k < p.len()
        invariant
            at + p@.len() <= s.len(),
            k <= p@.len(),
            forall|j: int| 0 <= j < k ==> p@[j] == s@[at + j],
        decreases p.len() - k,
    {
        if p[k] != s[at + k] {
            return false;
        }
        k = k + 1;
    }
    true
}

/// Removes the non-overlapping occurrences of `pattern` from `s`, scanning from the left,
/// as `s.replace(pattern, "")` does.
pub fn remove_pattern(s: &str, pattern: &str) -> (r: String)
    ensures
        r@ == without_pattern(s@, pattern@),
{
    let chars = char_vec(s);
    let pat = char_vec(pattern);
    if pat.len() == 0 {
        return s.to_owned();
    }
    let mut r = String::new();
    let n = chars.len();
    let mut i: usize = 0;
    assert(s@.skip(0) == s@);
    while i < n
        invariant
            chars@ == s@,
            pat@ == pattern@,
            pat@.len() > 0,
            n == s@.len(),
            i <= n,
            r@ + without_pattern(s@.skip(i as int), pattern@) == without_pattern(s@, pattern@),
        decreases n - i,
    {
        let ghost rest = s@.skip(i as int);
        if occurs_at(&chars, &pat, i) {
            assert(rest.skip(pat@.len() as int) == s@.skip(i + pat@.len()));
            i = i + pat.len();
        } else {
            assert(rest.skip(1) == s@.skip(i + 1));
            assert(rest[0] == chars@[i as int]);
            let ghost before = r@;
            push_char(&mut r, chars[i]);
            assert(r@ + without_pattern(s@.skip(i + 1), pattern@) =~= before + (seq![rest[0]]
                + without_pattern(rest.skip(1), pattern@)));
            i = i + 1;
        }
    }
    assert(s@.skip(n as int) =~= Seq::<char>::empty());
    r
}

/// Joins `parts` with `sep` between neighbouring parts, as `parts.join(sep)` does.
pub fn join_texts(parts: &Vec<String>, sep: &str) -> (r: String)
    ensures
        r@ == joined(parts@.map_values(|p: String| p@), sep@),
{
    let ghost views = parts@.map_values(|p: String| p@);
    let mut r = String::new();
    let n = parts.len();
    let mut i: usize = 0;
    while i < n
        invariant
            n == parts@.len(),
            views == parts@.map_values(|p: String| p@),
            i <= n,
            r@ == joined(views.take(i as int), sep@),
        decreases n - i,
    {
        assert(views.take(i as int + 1).drop_last() == views.take(i as int));
        if i != 0 {
            r.append(sep);
        }
        r.append(parts[i].as_str());
        i = i + 1;
    }
    assert(views.take(n as int) == views);
    r
}

} // verus!

verus! {

/// The lowercase form of `s` under std's `str::to_lowercase` (Unicode lowercase mapping).
pub uninterp spec fn lowercase(s: Seq<char>) -> Seq<char>;

/// The lowercase form of `s`, computed by std's `str::to_lowercase`.
#[verifier::external_body]
pub(crate) fn to_lowercase(s: &str) -> (r: String)
    ensures
        r@ == lowercase(s@),
{
    s.to_lowercase()
}

} // verus!
