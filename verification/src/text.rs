//! Character-level text utilities: whitespace trimming, character and
//! substring removal, and concatenation, each specified over `Seq<char>`.

use vstd::prelude::*;
use vstd::string::StrSliceExecFns;

verus! {

/// The characters with the Unicode `White_Space` property, the set that
/// `str::trim` removes from both ends of a string.
pub open spec fn is_wspace(c: char) -> bool {
    let u = c as u32;
    ||| u == 0x20
    ||| (0x09 <= u && u <= 0x0D)
    ||| u == 0x85
    ||| u == 0xA0
    ||| u == 0x1680
    ||| (0x2000 <= u && u <= 0x200A)
    ||| u == 0x2028
    ||| u == 0x2029
    ||| u == 0x202F
    ||| u == 0x205F
    ||| u == 0x3000
}

/// Executable twin of [`is_wspace`].
pub fn is_space(c: char) -> (r: bool)
    ensures
        r == is_wspace(c),
{
    let u = c as u32;
    u == 0x20 || (0x09 <= u && u <= 0x0D) || u == 0x85 || u == 0xA0 || u == 0x1680
        || (0x2000 <= u && u <= 0x200A) || u == 0x2028 || u == 0x2029 || u == 0x202F
        || u == 0x205F || u == 0x3000
}

/// The characters of a string slice, in order.
pub fn chars_of(s: &str) -> (r: Vec<char>)
    ensures
        r@ == s@,
{
    let n = s.unicode_len();
    let mut r: Vec<char> = Vec::new();
    let mut i: usize = 0;
    while i < n
        invariant
            n == s@.len(),
            i <= n,
            r@ == s@.subrange(0, i as int),
        decreases n - i,
    {
        let c = s.get_char(i);
        r.push(c);
        i = i + 1;
        proof {
            assert(r@ =~= s@.subrange(0, i as int));
        }
    }
    proof {
        assert(s@.subrange(0, n as int) =~= s@);
    }
    r
}

/// Relies on `String::push`: appends the given character to the end of the string.
#[verifier::external_body]
fn push_char(s: &mut String, c: char)
    ensures
        final(s)@ == old(s)@.push(c),
{
    s.push(c)
}

/// A string holding exactly the given characters, in order.
pub fn string_from_chars(cs: &Vec<char>) -> (r: String)
    ensures
        r@ == cs@,
{
    let mut r = String::new();
    let mut i: usize = 0;
    while i < cs.len()
        invariant
            i <= cs@.len(),
            r@ == cs@.subrange(0, i as int),
        decreases cs@.len() - i,
    {
        push_char(&mut r, cs[i]);
        i = i + 1;
        proof {
            assert(r@ =~= cs@.subrange(0, i as int));
        }
    }
    proof {
        assert(cs@.subrange(0, cs@.len() as int) =~= cs@);
    }
    r
}

/// Character-by-character equality of two character vectors.
pub fn eq_chars(a: &Vec<char>, b: &Vec<char>) -> (r: bool)
    ensures
        r == (a@ == b@),
{
    if a.len() != b.len() {
        proof {
            assert(a@.len() != b@.len());
        }
        return false;
    }
    let mut i: usize = 0;
    while i < a.len()
        invariant
            a@.len() == b@.len(),
            i <= a@.len(),
            forall|j: int| 0 <= j < i ==> a@[j] == b@[j],
        decreases a@.len() - i,
    {
        if a[i] != b[i] {
            return false;
        }
        i = i + 1;
    }
    proof {
        assert(a@ =~= b@);
    }
    true
}

/// The sequence with every occurrence of `bad` removed.
pub open spec fn remove_ch(s: Seq<char>, bad: char) -> Seq<char>
    decreases s.len(),
{
    if s.len() == 0 {
        s
    } else {
        let rest = remove_ch(s.drop_last(), bad);
        if s.last() == bad {
            rest
        } else {
            rest.push(s.last())
        }
    }
}

/// Removes every occurrence of `bad` from the characters.
pub fn strip_char(cs: &Vec<char>, bad: char) -> (r: Vec<char>)
    ensures
        r@ == remove_ch(cs@, bad),
{
    let mut r: Vec<char> = Vec::new();
    let mut i: usize = 0;
    while i < cs.len()
        invariant
            i <= cs@.len(),
            r@ == remove_ch(cs@.subrange(0, i as int), bad),
        decreases cs@.len() - i,
    {
        let c = cs[i];
        i = i + 1;
        proof {
            assert(cs@.subrange(0, i as int).drop_last() =~= cs@.subrange(0, i - 1));
            assert(cs@.subrange(0, i as int).last() == c);
        }
        if c != bad {
            r.push(c);
        }
    }
    proof {
        assert(cs@.subrange(0, cs@.len() as int) =~= cs@);
    }
    r
}

/// The sequence with its leading whitespace removed.
pub open spec fn trim_front(s: Seq<char>) -> Seq<char>
    decreases s.len(),
{
    if s.len() > 0 && is_wspace(s[0]) {
        trim_front(s.drop_first())
    } else {
        s
    }
}

/// The sequence with its trailing whitespace removed.
pub open spec fn trim_back(s: Seq<char>) -> Seq<char>
    decreases s.len(),
{
    if s.len() > 0 && is_wspace(s.last()) {
        trim_back(s.drop_last())
    } else {
        s
    }
}

/// The sequence with leading and trailing whitespace removed, as `str::trim`
/// leaves a string.
pub open spec fn trim_spec(s: Seq<char>) -> Seq<char> {
    trim_back(trim_front(s))
}

proof fn lemma_trim_front_skip(s: Seq<char>, i: int)
    requires
        0 <= i <= s.len(),
        forall|j: int| 0 <= j < i ==> is_wspace(s[j]),
        i == s.len() || !is_wspace(s[i]),
    ensures
        trim_front(s) == s.skip(i),
    decreases i,
{
    if i == 0 {
        assert(s.skip(0) =~= s);
    } else {
        assert(is_wspace(s[0]));
        lemma_trim_front_skip(s.drop_first(), i - 1);
        assert(s.drop_first().skip(i - 1) =~= s.skip(i));
    }
}

proof fn lemma_trim_back_take(s: Seq<char>, k: int)
    requires
        0 <= k <= s.len(),
        forall|j: int| k <= j < s.len() ==> is_wspace(s[j]),
        k == 0 || !is_wspace(s[k - 1]),
    ensures
        trim_back(s) == s.take(k),
    decreases s.len(),
{
    if k == s.len() {
        assert(s.take(k) =~= s);
    } else {
        assert(is_wspace(s.last()));
        lemma_trim_back_take(s.drop_last(), k);
        assert(s.drop_last().take(k) =~= s.take(k));
    }
}

/// Removes leading and trailing whitespace from the characters.
pub fn trim_chars(cs: &Vec<char>) -> (r: Vec<char>)
    ensures
        r@ == trim_spec(cs@),
{
    let n = cs.len();
    let mut lo: usize = 0;
    while lo < n && is_space(cs[lo])
        invariant
            n == cs@.len(),
            lo <= n,
            forall|j: int| 0 <= j < lo ==> is_wspace(cs@[j]),
        decreases n - lo,
    {
        lo = lo + 1;
    }
    let mut hi: usize = n;
    while hi > lo && is_space(cs[hi - 1])
        invariant
            n == cs@.len(),
            lo <= hi <= n,
            forall|j: int| hi <= j < n ==> is_wspace(cs@[j]),
        decreases hi,
    {
        hi = hi - 1;
    }
    proof {
        lemma_trim_front_skip(cs@, lo as int);
        let t = cs@.skip(lo as int);
        if hi > lo {
            assert(t[hi - lo - 1] == cs@[hi - 1]);
            assert(forall|j: int| hi - lo <= j < t.len() ==> is_wspace(t[j]) == is_wspace(
                cs@[j + lo],
            ));
            lemma_trim_back_take(t, hi - lo);
        } else {
            assert(forall|j: int| 0 <= j < t.len() ==> is_wspace(t[j]) == is_wspace(cs@[j + lo]));
            lemma_trim_back_take(t, 0);
        }
    }
    let mut r: Vec<char> = Vec::new();
    let mut i: usize = lo;
    while i < hi
        invariant
            lo <= i <= hi <= n,
            n == cs@.len(),
            r@ == cs@.subrange(lo as int, i as int),
        decreases hi - i,
    {
        r.push(cs[i]);
        i = i + 1;
        proof {
            assert(r@ =~= cs@.subrange(lo as int, i as int));
        }
    }
    proof {
        assert(cs@.skip(lo as int).take(hi - lo) =~= cs@.subrange(lo as int, hi as int));
    }
    r
}

/// The sequence with every occurrence of the pattern `p` removed, scanning
/// left to right without overlap, as `str::replace` with an empty replacement
/// leaves a string.
pub open spec fn remove_pat(s: Seq<char>, p: Seq<char>) -> Seq<char>
    decreases s.len(),
{
    if s.len() == 0 {
        s
    } else if p.len() > 0 && s.len() >= p.len() && s.subrange(0, p.len() as int) == p {
        remove_pat(s.skip(p.len() as int), p)
    } else {
        seq![s[0]] + remove_pat(s.skip(1), p)
    }
}

/// Whether the characters at offset `i` of `cs` spell out `p`.
fn matches_at(cs: &Vec<char>, p: &Vec<char>, i: usize) -> (r: bool)
    requires
        i + p@.len() <= cs@.len(),
    ensures
        r == (cs@.subrange(i as int, i + p@.len()) == p@),
{
    let n = cs.len();
    let mut j: usize = 0;
    while j < p.len()
        invariant
            n == cs@.len(),
            i + p@.len() <= cs@.len(),
            j <= p@.len(),
            forall|k: int| 0 <= k < j ==> cs@[i + k] == p@[k],
        decreases p@.len() - j,
    {
        if cs[i + j] != p[j] {
            proof {
                assert(cs@.subrange(i as int, i + p@.len())[j as int] != p@[j as int]);
            }
            return false;
        }
        j = j + 1;
    }
    proof {
        assert(cs@.subrange(i as int, i + p@.len()) =~= p@);
    }
    true
}

/// Removes every occurrence of the pattern `p` from the characters.
pub fn remove_pattern(cs: &Vec<char>, p: &Vec<char>) -> (r: Vec<char>)
    requires
        p@.len() > 0,
    ensures
        r@ == remove_pat(cs@, p@),
{
    let mut r: Vec<char> = Vec::new();
    let mut i: usize = 0;
    proof {
        assert(cs@.skip(0) =~= cs@);
        assert(Seq::<char>::empty() + remove_pat(cs@, p@) =~= remove_pat(cs@, p@));
    }
    while i < cs.len()
        invariant
            p@.len() > 0,
            i <= cs@.len(),
            r@ + remove_pat(cs@.skip(i as int), p@) == remove_pat(cs@, p@),
        decreases cs@.len() - i,
    {
        let ghost rem = cs@.skip(i as int);
        if p.len() <= cs.len() - i && matches_at(cs, p, i) {
            proof {
                assert(rem.subrange(0, p@.len() as int) =~= cs@.subrange(i as int, i + p@.len()));
                assert(rem.skip(p@.len() as int) =~= cs@.skip(i + p@.len()));
            }
            i = i + p.len();
        } else {
            proof {
                if i + p@.len() <= cs@.len() {
                    assert(rem.subrange(0, p@.len() as int) =~= cs@.subrange(
                        i as int,
                        i + p@.len(),
                    ));
                }
                assert(rem[0] == cs@[i as int]);
                assert(rem.skip(1) =~= cs@.skip(i + 1));
                assert(r@.push(cs@[i as int]) + remove_pat(cs@.skip(i + 1), p@) =~= r@ + (seq![
                    rem[0],
                ] + remove_pat(rem.skip(1), p@)));
            }
            r.push(cs[i]);
            i = i + 1;
        }
    }
    proof {
        assert(cs@.skip(cs@.len() as int) =~= Seq::<char>::empty());
        assert(r@ + remove_pat(Seq::<char>::empty(), p@) =~= r@);
    }
    r
}

/// The concatenation of a list of character sequences, in order.
pub open spec fn concat_all(ss: Seq<Seq<char>>) -> Seq<char>
    decreases ss.len(),
{
    if ss.len() == 0 {
        Seq::empty()
    } else {
        concat_all(ss.drop_last()) + ss.last()
    }
}

/// Appends every vector of `parts`, in order, to `acc`.
pub fn append_all(acc: &mut Vec<char>, parts: &Vec<Vec<char>>)
    ensures
        final(acc)@ == old(acc)@ + concat_all(parts.deep_view()),
{
    let mut i: usize = 0;
    while i < parts.len()
        invariant
            i <= parts@.len(),
            acc@ == old(acc)@ + concat_all(parts.deep_view().subrange(0, i as int)),
        decreases parts@.len() - i,
    {
        proof {
            assert(concat_all(parts.deep_view().subrange(0, 0)) =~= Seq::<char>::empty());
            assert(old(acc)@ + Seq::<char>::empty() =~= old(acc)@);
        }
        let part = &parts[i];
        let mut j: usize = 0;
        while j < part.len()
            invariant
                i < parts@.len(),
                j <= part@.len(),
                part == parts@[i as int],
                acc@ == old(acc)@ + concat_all(parts.deep_view().subrange(0, i as int))
                    + part@.subrange(0, j as int),
            decreases part@.len() - j,
        {
            acc.push(part[j]);
            j = j + 1;
            proof {
                assert(acc@ =~= old(acc)@ + concat_all(parts.deep_view().subrange(0, i as int))
                    + part@.subrange(0, j as int));
            }
        }
        i = i + 1;
        proof {
            let dv = parts.deep_view();
            assert(dv.subrange(0, i as int).drop_last() =~= dv.subrange(0, i - 1));
            assert(dv.subrange(0, i as int).last() == dv[i - 1]);
            assert(part@.subrange(0, part@.len() as int) =~= part@);
            assert(part@ == dv[i - 1]);
            assert(old(acc)@ + concat_all(dv.subrange(0, i - 1)) + dv[i - 1] =~= old(acc)@
                + concat_all(dv.subrange(0, i as int)));
        }
    }
    proof {
        assert(parts.deep_view().subrange(0, parts.deep_view().len() as int) =~= parts.deep_view());
    }
}

} // verus!
