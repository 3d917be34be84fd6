//! Text on the level of Unicode scalar values: conversions between `str`
//! and characters, substring search and replacement.
use vstd::prelude::*;

verus! {

/// `needle` occurs in `hay` starting at position `i`.
pub open spec fn occurs_at(hay: Seq<char>, needle: Seq<char>, i: int) -> bool {
    &&& 0 <= i
    &&& i + needle.len() <= hay.len()
    &&& hay.subrange(i, i + needle.len()) == needle
}

/// `needle` is a substring of `hay` (the empty sequence is a substring of every sequence).
pub open spec fn contains_seq(hay: Seq<char>, needle: Seq<char>) -> bool {
    exists|i: int| occurs_at(hay, needle, i)
}

/// The text `s` with every occurrence of `pat` replaced by `rep`, occurrences being
/// taken from left to right without overlapping.
pub open spec fn replace_seq(s: Seq<char>, pat: Seq<char>, rep: Seq<char>) -> Seq<char>
    decreases s.len(),
{
    if pat.len() == 0 || s.len() < pat.len() {
        s
    } else if s.subrange(0, pat.len() as int) == pat {
        rep + replace_seq(s.subrange(pat.len() as int, s.len() as int), pat, rep)
    } else {
        seq![s[0]] + replace_seq(s.subrange(1, s.len() as int), pat, rep)
    }
}

/// The texts of a list of strings.
pub open spec fn views(v: Seq<String>) -> Seq<Seq<char>> {
    v.map_values(|s: String| s@)
}

/// Some text of `terms` is a substring of `text`.
pub open spec fn any_occurs(terms: Seq<Seq<char>>, text: Seq<char>) -> bool {
    exists|i: int| 0 <= i < terms.len() && contains_seq(text, #[trigger] terms[i])
}

/// Appends one character to a `String` (`String::push`).
#[verifier::external_body]
fn push_char(s: &mut String, c: char)
    ensures
        final(s)@ == old(s)@.push(c),
{
    s.push(c);
}

/// The characters of `s`, in order.
pub fn chars_of(s: &str) -> (res: Vec<char>)
    ensures
        res@ == s@,
{
    let mut res: Vec<char> = Vec::new();
    for c in it: s.chars()
        invariant
            res@ == it.seq().take(it.index() as int),
            it.seq() == s@,
    {
        res.push(c);
    }
    res
}

/// The string made of the characters `cs`, in order.
pub fn string_of(cs: &[char]) -> (res: String)
    ensures
        res@ == cs@,
{
    let mut res = String::new();
    let n = cs.len();
    for i in 0..n
        invariant
            n == cs@.len(),
            res@ == cs@.take(i as int),
    {
        push_char(&mut res, cs[i]);
        assert(cs@.take(i + 1) == cs@.take(i as int).push(cs@[i as int]));
    }
    assert(cs@.take(n as int) == cs@);
    res
}

/// Whether `needle` occurs in `hay` at position `i`.
fn occurs_at_exec(hay: &[char], needle: &[char], i: usize) -> (res: bool)
    requires
        i + needle@.len() <= hay@.len(),
    ensures
        res == occurs_at(hay@, needle@, i as int),
{
    let n = needle.len();
    let mut j: usize = 0;
    while j < n
        invariant
            n == needle@.len(),
            i + n <= hay@.len(),
            hay@.len() == hay.len(),
            j <= n,
            forall|k: int| 0 <= k < j ==> hay@[i + k] == needle@[k],
        decreases n - j,
    {
        if hay[i + j] != needle[j] {
            assert(hay@.subrange(i as int, i + n)[j as int] != needle@[j as int]);
            return false;
        }
        j = j + 1;
    }
    assert(hay@.subrange(i as int, i + n) =~= needle@);
    true
}

/// Whether `needle` is a substring of `hay`.
pub fn contains_chars(hay: &[char], needle: &[char]) -> (res: bool)
    ensures
        res == contains_seq(hay@, needle@),
{
    if needle.len() == 0 {
        assert(hay@.subrange(0, 0) =~= needle@);
        assert(occurs_at(hay@, needle@, 0));
        return true;
    }
    if needle.len() > hay.len() {
        assert forall|i: int| !occurs_at(hay@, needle@, i) by {}
        return false;
    }
    let last = hay.len() - needle.len();
    let mut i: usize = 0;
    while i <= last
        invariant
            last == hay@.len() - needle@.len(),
            needle@.len() > 0,
            hay@.len() == hay.len(),
            i <= last + 1,
            forall|k: int| 0 <= k < i ==> !occurs_at(hay@, needle@, k),
        decreases last + 1 - i,
    {
        if occurs_at_exec(hay, needle, i) {
            return true;
        }
        i = i + 1;
    }
    assert forall|k: int| !occurs_at(hay@, needle@, k) by {}
    false
}

/// Whether `needle` is a substring of `hay` (`str::contains` with a string pattern).
pub fn str_contains(hay: &str, needle: &str) -> (res: bool)
    ensures
        res == contains_seq(hay@, needle@),
{
    let h = chars_of(hay);
    let n = chars_of(needle);
    contains_chars(h.as_slice(), n.as_slice())
}

/// One step of `replace_seq` at position `i`.
proof fn lemma_replace_step(s: Seq<char>, pat: Seq<char>, rep: Seq<char>, i: int)
    requires
        pat.len() > 0,
        0 <= i <= s.len(),
    ensures
        s.len() - i < pat.len() ==> replace_seq(s.subrange(i, s.len() as int), pat, rep)
            == s.subrange(i, s.len() as int),
        s.len() - i >= pat.len() && s.subrange(i, i + pat.len()) == pat ==> replace_seq(
            s.subrange(i, s.len() as int),
            pat,
            rep,
        ) == rep + replace_seq(s.subrange(i + pat.len(), s.len() as int), pat, rep),
        s.len() - i >= pat.len() && s.subrange(i, i + pat.len()) != pat ==> replace_seq(
            s.subrange(i, s.len() as int),
            pat,
            rep,
        ) == seq![s[i]] + replace_seq(s.subrange(i + 1, s.len() as int), pat, rep),
{
    let t = s.subrange(i, s.len() as int);
    if t.len() >= pat.len() {
        assert(t.subrange(0, pat.len() as int) == s.subrange(i, i + pat.len()));
        assert(t.subrange(pat.len() as int, t.len() as int) == s.subrange(
            i + pat.len(),
            s.len() as int,
        ));
        assert(t.subrange(1, t.len() as int) == s.subrange(i + 1, s.len() as int));
    }
}

/// `s` with every occurrence of `pat` replaced by `rep`, from left to right
/// (`str::replace` with a non-empty string pattern).
pub fn replace_str(s: &str, pat: &str, rep: &str) -> (res: String)
    requires
        pat@.len() > 0,
    ensures
        res@ == replace_seq(s@, pat@, rep@),
{
    let cs = chars_of(s);
    let ps = chars_of(pat);
    let rs = chars_of(rep);
    let n = cs.len();
    let m = ps.len();
    let mut out: Vec<char> = Vec::new();
    let mut i: usize = 0;
    assert(cs@.subrange(0, n as int) == cs@);
    while i < n
        invariant
            n == cs@.len(),
            m == ps@.len(),
            m > 0,
            i <= n,
            out@ + replace_seq(cs@.subrange(i as int, n as int), ps@, rs@) == replace_seq(
                cs@,
                ps@,
                rs@,
            ),
        decreases n - i,
    {
        proof {
            lemma_replace_step(cs@, ps@, rs@, i as int);
        }
        if n - i >= m && occurs_at_exec(cs.as_slice(), ps.as_slice(), i) {
            let ghost before = out@;
            let k = rs.len();
            for j in 0..k
                invariant
                    k == rs@.len(),
                    out@ == before + rs@.take(j as int),
            {
                out.push(rs[j]);
                assert(rs@.take(j + 1) == rs@.take(j as int).push(rs@[j as int]));
            }
            assert(rs@.take(k as int) == rs@);
            assert(out@ == before + rs@);
            assert(before + (rs@ + replace_seq(cs@.subrange(i + m, n as int), ps@, rs@)) == out@
                + replace_seq(cs@.subrange(i + m, n as int), ps@, rs@));
            i = i + m;
        } else if n - i >= m {
            let ghost before = out@;
            out.push(cs[i]);
            assert(before + (seq![cs@[i as int]] + replace_seq(
                cs@.subrange(i + 1, n as int),
                ps@,
                rs@,
            )) == out@ + replace_seq(cs@.subrange(i + 1, n as int), ps@, rs@));
            i = i + 1;
        } else {
            let ghost before = out@;
            let ghost rest = cs@.subrange(i as int, n as int);
            while i < n
                invariant
                    n == cs@.len(),
                    i <= n,
                    before + rest == out@ + cs@.subrange(i as int, n as int),
                decreases n - i,
            {
                let ghost o = out@;
                out.push(cs[i]);
                assert(cs@.subrange(i as int, n as int) == seq![cs@[i as int]] + cs@.subrange(
                    i + 1,
                    n as int,
                ));
                assert(o + cs@.subrange(i as int, n as int) == out@ + cs@.subrange(
                    i + 1,
                    n as int,
                ));
                i = i + 1;
            }
            assert(cs@.subrange(n as int, n as int) =~= Seq::<char>::empty());
            assert(out@ + cs@.subrange(n as int, n as int) == out@);
            assert(replace_seq(cs@.subrange(n as int, n as int), ps@, rs@) =~= Seq::<char>::empty());
        }
    }
    proof {
        assert(cs@.subrange(n as int, n as int) =~= Seq::<char>::empty());
        assert(replace_seq(cs@.subrange(n as int, n as int), ps@, rs@) =~= Seq::<char>::empty());
        assert(out@ + Seq::<char>::empty() == out@);
    }
    string_of(out.as_slice())
}

/// Whether two strings hold the same characters.
pub fn str_eq(a: &str, b: &str) -> (res: bool)
    ensures
        res == (a@ == b@),
{
    let x = chars_of(a);
    let y = chars_of(b);
    if x.len() != y.len() {
        return false;
    }
    let n = x.len();
    let mut i: usize = 0;
    while i < n
        invariant
            n == x@.len(),
            n == y@.len(),
            x@ == a@,
            y@ == b@,
            i <= n,
            forall|k: int| 0 <= k < i ==> x@[k] == y@[k],
        decreases n - i,
    {
        if x[i] != y[i] {
            assert(x@[i as int] != y@[i as int]);
            return false;
        }
        i = i + 1;
    }
    assert(x@ =~= y@);
    true
}

/// Whether `list` holds a string equal to `x`.
pub fn list_contains(list: &Vec<String>, x: &str) -> (res: bool)
    ensures
        res == views(list@).contains(x@),
{
    let n = list.len();
    let mut i: usize = 0;
    while i < n
        invariant
            n == list@.len(),
            i <= n,
            forall|k: int| 0 <= k < i ==> list@[k]@ != x@,
        decreases n - i,
    {
        if str_eq(list[i].as_str(), x) {
            assert(views(list@)[i as int] == x@);
            return true;
        }
        i = i + 1;
    }
    assert forall|k: int| 0 <= k < views(list@).len() implies views(list@)[k] != x@ by {
        assert(views(list@)[k] == list@[k]@);
    }
    false
}

/// Whether some string of `terms` is a substring of `text`.
pub fn any_term_occurs(terms: &Vec<String>, text: &str) -> (res: bool)
    ensures
        res == any_occurs(views(terms@), text@),
{
    let hay = chars_of(text);
    let n = terms.len();
    let mut i: usize = 0;
    while i < n
        invariant
            n == terms@.len(),
            hay@ == text@,
            i <= n,
            forall|k: int| 0 <= k < i ==> !contains_seq(text@, #[trigger] views(terms@)[k]),
        decreases n - i,
    {
        let needle = chars_of(terms[i].as_str());
        assert(views(terms@)[i as int] == terms@[i as int]@);
        if contains_chars(hay.as_slice(), needle.as_slice()) {
            return true;
        }
        i = i + 1;
    }
    false
}

/// Replacing a pattern that does not occur leaves the text as it is.
pub proof fn lemma_replace_absent(s: Seq<char>, pat: Seq<char>, rep: Seq<char>)
    requires
        !contains_seq(s, pat),
    ensures
        replace_seq(s, pat, rep) == s,
    decreases s.len(),
{
    if pat.len() == 0 || s.len() < pat.len() {
    } else {
        if s.subrange(0, pat.len() as int) == pat {
            assert(occurs_at(s, pat, 0));
        }
        let t = s.subrange(1, s.len() as int);
        assert forall|i: int| !occurs_at(t, pat, i) by {
            if occurs_at(t, pat, i) {
                assert(s.subrange(i + 1, i + 1 + pat.len()) =~= t.subrange(i, i + pat.len()));
                assert(occurs_at(s, pat, i + 1));
            }
        }
        lemma_replace_absent(t, pat, rep);
        assert(seq![s[0]] + t =~= s);
    }
}

/// The empty text occurs in every text.
pub proof fn lemma_empty_occurs(hay: Seq<char>)
    ensures
        contains_seq(hay, Seq::<char>::empty()),
{
    assert(hay.subrange(0, 0) =~= Seq::<char>::empty());
    assert(occurs_at(hay, Seq::<char>::empty(), 0));
}

} // verus!
