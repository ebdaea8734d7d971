//! Verified helpers for working with strings: equality, scanning,
//! trimming, joining, and single-character edits.

use vstd::prelude::*;
use vstd::multiset::Multiset;
use vstd::string::StrSliceExecFns;
use vstd::string::StringExecFns;

verus! {

/// The separator characters the command language recognises.
pub open spec fn is_cmd_space(c: char) -> bool {
    c == ' ' || c == '\t' || c == '\n' || c == '\r'
}

#[verifier::when_used_as_spec(is_cmd_space)]
pub fn is_cmd_space_exec(c: char) -> (r: bool)
    ensures
        r == is_cmd_space(c),
{
    c == ' ' || c == '\t' || c == '\n' || c == '\r'
}

/// Character-wise string equality, so that contracts can speak of `a@ == b@`.
pub fn str_eq(a: &str, b: &str) -> (r: bool)
    ensures
        r == (a@ == b@),
{
    let na = a.unicode_len();
    let nb = b.unicode_len();
    if na != nb {
        return false;
    }
    let mut i: usize = 0;
    while i < na
        invariant
            na == a@.len(),
            na == b@.len(),
            i <= na,
            forall|j: int| 0 <= j < i ==> a@[j] == b@[j],
        decreases na - i,
    {
        if a.get_char(i) != b.get_char(i) {
            return false;
        }
        i = i + 1;
    }
    proof {
        assert(a@ =~= b@);
    }
    true
}

pub open spec fn seq_contains_char(s: Seq<char>, c: char) -> bool {
    exists|i: int| 0 <= i < s.len() && s[i] == c
}

/// Whether the character occurs in the string.
pub fn str_contains_char(s: &str, c: char) -> (r: bool)
    ensures
        r == seq_contains_char(s@, c),
{
    let n = s.unicode_len();
    let mut i: usize = 0;
    while i < n
        invariant
            n == s@.len(),
            i <= n,
            forall|j: int| 0 <= j < i ==> s@[j] != c,
        decreases n - i,
    {
        if s.get_char(i) == c {
            return true;
        }
        i = i + 1;
    }
    false
}

/// An exact copy of a vector of strings, element for element.
pub fn clone_string_vec(v: &Vec<String>) -> (r: Vec<String>)
    ensures
        r@ == v@,
{
    let mut r: Vec<String> = Vec::new();
    let mut i: usize = 0;
    while i < v.len()
        invariant
            i <= v@.len(),
            r@ == v@.subrange(0, i as int),
        decreases v@.len() - i,
    {
        r.push(v[i].clone());
        i = i + 1;
    }
    proof {
        assert(r@ =~= v@);
    }
    r
}

/// Index of the first non-separator character at or after `i`, or the length.
pub open spec fn first_non_space(s: Seq<char>, i: int) -> int
    decreases s.len() - i,
{
    if i < 0 {
        i
    } else if i >= s.len() || !is_cmd_space(s[i]) {
        i
    } else {
        first_non_space(s, i + 1)
    }
}

/// End of the trimmed region: the least `j <= i` such that everything in
/// `s[j..i]` is a separator and `j` is `0` or preceded by a non-separator.
pub open spec fn trim_end_idx(s: Seq<char>, i: int) -> int
    decreases i,
{
    if i <= 0 {
        0
    } else if i > s.len() {
        i
    } else if !is_cmd_space(s[i - 1]) {
        i
    } else {
        trim_end_idx(s, i - 1)
    }
}

pub proof fn lemma_first_non_space_bounds(s: Seq<char>, i: int)
    requires
        0 <= i <= s.len(),
    ensures
        i <= first_non_space(s, i) <= s.len(),
    decreases s.len() - i,
{
    if i < s.len() && is_cmd_space(s[i]) {
        lemma_first_non_space_bounds(s, i + 1);
    }
}

/// The string with leading and trailing separator characters removed.
pub open spec fn trim_spec(s: Seq<char>) -> Seq<char> {
    let a = first_non_space(s, 0);
    let b = trim_end_idx(s, s.len() as int);
    if a <= b {
        s.subrange(a, b)
    } else {
        Seq::empty()
    }
}

/// Trims separator characters from both ends.
pub fn trim(s: &str) -> (r: String)
    ensures
        r@ == trim_spec(s@),
{
    let n = s.unicode_len();
    let mut a: usize = 0;
    while a < n && is_cmd_space_exec(s.get_char(a))
        invariant
            n == s@.len(),
            a <= n,
            forall|j: int| 0 <= j < a ==> is_cmd_space(s@[j]),
            first_non_space(s@, 0) == first_non_space(s@, a as int),
        decreases n - a,
    {
        a = a + 1;
    }
    proof {
        lemma_first_non_space_bounds(s@, a as int);
    }
    if a == n {
        // Every character is a separator, so the trimmed string is empty.
        proof {
            if n > 0 {
                lemma_trim_all_space(s@, n as int);
            }
            assert(trim_spec(s@) =~= Seq::<char>::empty());
        }
        return String::new();
    }
    let mut b: usize = n;
    // `b` stays strictly above `a`: the character at `a` is not a separator.
    while b > a && is_cmd_space_exec(s.get_char(b - 1))
        invariant
            n == s@.len(),
            a < n,
            a < b <= n || (a == b && b == n),
            !is_cmd_space(s@[a as int]),
            trim_end_idx(s@, n as int) == trim_end_idx(s@, b as int),
        decreases b,
    {
        b = b - 1;
    }
    proof {
        assert(first_non_space(s@, a as int) == a as int);
        assert(trim_end_idx(s@, b as int) == b as int);
        assert(trim_spec(s@) == s@.subrange(a as int, b as int));
    }
    s.substring_char(a, b).to_owned()
}

/// In a string whose characters are all separators, the trimmed end is 0.
proof fn lemma_trim_all_space(s: Seq<char>, i: int)
    requires
        0 <= i <= s.len(),
        forall|j: int| 0 <= j < i ==> is_cmd_space(s[j]),
    ensures
        trim_end_idx(s, i) == 0,
    decreases i,
{
    if i > 0 {
        lemma_trim_all_space(s, i - 1);
    }
}

/// The parts joined with the separator between consecutive parts.
pub open spec fn join_spec(parts: Seq<Seq<char>>, sep: Seq<char>) -> Seq<char>
    decreases parts.len(),
{
    if parts.len() == 0 {
        Seq::empty()
    } else if parts.len() == 1 {
        parts[0]
    } else {
        parts[0] + sep + join_spec(parts.drop_first(), sep)
    }
}

pub proof fn lemma_join_push(parts: Seq<Seq<char>>, sep: Seq<char>, x: Seq<char>)
    ensures
        join_spec(parts.push(x), sep) == if parts.len() == 0 {
            x
        } else {
            join_spec(parts, sep) + sep + x
        },
    decreases parts.len(),
{
    if parts.len() == 0 {
        assert(parts.push(x)[0] == x);
        assert(parts.push(x).len() == 1);
    } else {
        lemma_join_push(parts.drop_first(), sep, x);
        assert(parts.push(x).drop_first() =~= parts.drop_first().push(x));
        if parts.len() == 1 {
            assert(parts.drop_first().len() == 0);
            assert(join_spec(parts.push(x), sep) == parts[0] + sep + x);
            assert(join_spec(parts, sep) == parts[0]);
        } else {
            assert(join_spec(parts, sep) + sep + x == parts[0] + sep + (join_spec(
                parts.drop_first(),
                sep,
            ) + sep + x));
        }
    }
}

/// Joins the strings with the separator between consecutive elements.
pub fn join_strings(parts: &Vec<String>, sep: &str) -> (r: String)
    ensures
        r@ == join_spec(parts.deep_view(), sep@),
{
    let mut r = String::new();
    let mut i: usize = 0;
    while i < parts.len()
        invariant
            i <= parts@.len(),
            r@ == join_spec(parts.deep_view().subrange(0, i as int), sep@),
        decreases parts@.len() - i,
    {
        if i > 0 {
            r.append(sep);
        }
        r.append(parts[i].as_str());
        proof {
            let dv = parts.deep_view();
            assert(dv.subrange(0, i as int).push(dv[i as int]) =~= dv.subrange(0, i + 1));
            lemma_join_push(dv.subrange(0, i as int), sep@, dv[i as int]);
        }
        i = i + 1;
    }
    proof {
        assert(parts.deep_view().subrange(0, parts@.len() as int) =~= parts.deep_view());
    }
    r
}

/// Lexicographic order on character sequences, by code point; the order
/// in which cluster names are listed.
pub open spec fn lex_le(a: Seq<char>, b: Seq<char>) -> bool
    decreases a.len(),
{
    if a.len() == 0 {
        true
    } else if b.len() == 0 {
        false
    } else if a[0] == b[0] {
        lex_le(a.drop_first(), b.drop_first())
    } else {
        (a[0] as int) < (b[0] as int)
    }
}

/// Any two sequences are ordered one way or the other.
pub proof fn lemma_lex_total(a: Seq<char>, b: Seq<char>)
    ensures
        lex_le(a, b) || lex_le(b, a),
    decreases a.len(),
{
    if a.len() > 0 && b.len() > 0 && a[0] == b[0] {
        lemma_lex_total(a.drop_first(), b.drop_first());
    }
}

/// The order is transitive.
pub proof fn lemma_lex_trans(a: Seq<char>, b: Seq<char>, c: Seq<char>)
    requires
        lex_le(a, b),
        lex_le(b, c),
    ensures
        lex_le(a, c),
    decreases a.len(),
{
    if a.len() > 0 && b.len() > 0 && c.len() > 0 && a[0] == b[0] && b[0] == c[0] {
        lemma_lex_trans(a.drop_first(), b.drop_first(), c.drop_first());
    }
}

/// Comparing from position `i` on decides the order of sequences whose
/// first `i` characters agree.
proof fn lemma_lex_skip(a: Seq<char>, b: Seq<char>, i: int)
    requires
        0 <= i <= a.len(),
        i <= b.len(),
        forall|j: int| 0 <= j < i ==> a[j] == b[j],
    ensures
        lex_le(a, b) == lex_le(a.skip(i), b.skip(i)),
    decreases i,
{
    if i > 0 {
        assert(a[0] == b[0]);
        assert(lex_le(a, b) == lex_le(a.drop_first(), b.drop_first()));
        assert(forall|j: int|
            0 <= j < i - 1 ==> a.drop_first()[j] == a[j + 1] && b.drop_first()[j] == b[j + 1]);
        lemma_lex_skip(a.drop_first(), b.drop_first(), i - 1);
        assert(a.skip(i) =~= a.drop_first().skip(i - 1));
        assert(b.skip(i) =~= b.drop_first().skip(i - 1));
    } else {
        assert(a.skip(0) =~= a);
        assert(b.skip(0) =~= b);
    }
}

/// Code-point order on strings: `r` holds exactly when `a` sorts at or
/// before `b`.
pub fn str_le(a: &str, b: &str) -> (r: bool)
    ensures
        r == lex_le(a@, b@),
{
    let na = a.unicode_len();
    let nb = b.unicode_len();
    let mut i: usize = 0;
    while i < na && i < nb
        invariant
            na == a@.len(),
            nb == b@.len(),
            i <= na,
            i <= nb,
            forall|j: int| 0 <= j < i ==> a@[j] == b@[j],
        decreases na - i,
    {
        let ca = a.get_char(i);
        let cb = b.get_char(i);
        if ca != cb {
            proof {
                lemma_lex_skip(a@, b@, i as int);
                assert(a@.skip(i as int)[0] == a@[i as int]);
                assert(b@.skip(i as int)[0] == b@[i as int]);
            }
            return (ca as u32) < (cb as u32);
        }
        i = i + 1;
    }
    proof {
        lemma_lex_skip(a@, b@, i as int);
        if i == na {
            assert(a@.skip(i as int).len() == 0);
        } else {
            assert(b@.skip(i as int).len() == 0);
            assert(a@.skip(i as int).len() > 0);
        }
    }
    na <= nb
}

/// Every pair of positions is ordered.
pub open spec fn strings_sorted(s: Seq<Seq<char>>) -> bool {
    forall|i: int, j: int| 0 <= i < j < s.len() ==> lex_le(#[trigger] s[i], #[trigger] s[j])
}

/// Sorts the strings in code-point order by insertion, keeping exactly
/// the same elements.
pub fn sort_strings(v: &Vec<String>) -> (r: Vec<String>)
    ensures
        strings_sorted(r.deep_view()),
        r@.to_multiset() == v@.to_multiset(),
        r.deep_view().to_multiset() == v.deep_view().to_multiset(),
{
    let mut r: Vec<String> = Vec::new();
    let mut i: usize = 0;
    proof {
        broadcast use vstd::seq_lib::group_to_multiset_ensures;

        assert(r@.to_multiset() =~= v@.subrange(0, 0).to_multiset());
        assert(r.deep_view().to_multiset() =~= v.deep_view().subrange(0, 0).to_multiset());
    }
    while i < v.len()
        invariant
            i <= v@.len(),
            strings_sorted(r.deep_view()),
            r@.to_multiset() == v@.subrange(0, i as int).to_multiset(),
            r.deep_view().to_multiset() == v.deep_view().subrange(0, i as int).to_multiset(),
        decreases v@.len() - i,
    {
        let x = v[i].clone();
        let ghost old_r = r@;
        let ghost old_deep = r.deep_view();
        let mut k: usize = 0;
        while k < r.len() && str_le(r[k].as_str(), x.as_str())
            invariant
                r@ == old_r,
                k <= r@.len(),
                forall|j: int| 0 <= j < k ==> lex_le(#[trigger] r.deep_view()[j], x@),
            decreases r@.len() - k,
        {
            k = k + 1;
        }
        proof {
            if k < r@.len() {
                assert(!lex_le(r.deep_view()[k as int], x@));
                lemma_lex_total(r.deep_view()[k as int], x@);
                assert(lex_le(x@, old_deep[k as int]));
            }
        }
        r.insert(k, x);
        proof {
            let new_deep = r.deep_view();
            let kk = k as int;
            assert(r@ == old_r.insert(kk, v@[i as int]));
            assert(new_deep =~= old_deep.insert(kk, v@[i as int]@));
            // Sortedness: entries before `k` are at most `x`, entries from
            // `k` on are at least `x` by totality and transitivity.
            assert forall|p: int, q: int|
                0 <= p < q < new_deep.len() implies lex_le(new_deep[p], new_deep[q]) by {
                let x_view = v@[i as int]@;
                if p < kk && q == kk {
                    assert(new_deep[p] == old_deep[p]);
                } else if p == kk && q > kk {
                    assert(new_deep[q] == old_deep[q - 1]);
                    if q - 1 > kk {
                        lemma_lex_trans(x_view, old_deep[kk], old_deep[q - 1]);
                    }
                } else if p < kk && q > kk {
                    assert(new_deep[p] == old_deep[p]);
                    assert(new_deep[q] == old_deep[q - 1]);
                } else if p > kk && q > kk {
                    assert(new_deep[p] == old_deep[p - 1]);
                    assert(new_deep[q] == old_deep[q - 1]);
                }
            }
            // Multisets: inserting in the middle adds exactly one element.
            lemma_insert_multiset(old_r, kk, v@[i as int]);
            lemma_insert_multiset(old_deep, kk, v@[i as int]@);
            broadcast use vstd::seq_lib::group_to_multiset_ensures;

            assert(v@.subrange(0, i + 1).drop_last() =~= v@.subrange(0, i as int));
            assert(v@.subrange(0, i + 1) =~= v@.subrange(0, i as int).push(v@[i as int]));
            let dv = v.deep_view();
            assert(dv.subrange(0, i + 1) =~= dv.subrange(0, i as int).push(dv[i as int]));
        }
        i = i + 1;
    }
    proof {
        assert(v@.subrange(0, v@.len() as int) =~= v@);
        assert(v.deep_view().subrange(0, v@.len() as int) =~= v.deep_view());
    }
    r
}

/// Inserting anywhere in a sequence adds exactly that element to its
/// multiset.
proof fn lemma_insert_multiset<A>(s: Seq<A>, k: int, x: A)
    requires
        0 <= k <= s.len(),
    ensures
        s.insert(k, x).to_multiset() == s.to_multiset().insert(x),
{
    let left = s.subrange(0, k);
    let right = s.subrange(k, s.len() as int);
    assert(s.insert(k, x) =~= left + (seq![x] + right));
    assert(s =~= left + right);
    vstd::seq_lib::lemma_multiset_commutative(left, seq![x] + right);
    vstd::seq_lib::lemma_multiset_commutative(seq![x], right);
    vstd::seq_lib::lemma_multiset_commutative(left, right);
    broadcast use vstd::seq_lib::group_to_multiset_ensures;

    assert(seq![x].to_multiset() =~= Multiset::<A>::empty().insert(x)) by {
        assert(seq![x] =~= Seq::<A>::empty().push(x));
        assert(Seq::<A>::empty().to_multiset() =~= Multiset::<A>::empty());
    }
    assert(s.insert(k, x).to_multiset() =~= s.to_multiset().insert(x));
}

/// Relies on `String::push`: appends exactly the given character.
#[verifier::external_body]
pub fn push_char(s: &mut String, c: char)
    ensures
        final(s)@ == old(s)@.push(c),
{
    s.push(c);
}

/// The string without its last character; an empty string stays empty.
pub fn backspace(s: &str) -> (r: String)
    ensures
        s@.len() == 0 ==> r@ == s@,
        s@.len() > 0 ==> r@ == s@.take(s@.len() as int - 1),
{
    let n = s.unicode_len();
    if n == 0 {
        proof {
            assert(s@ =~= Seq::<char>::empty());
        }
        String::new()
    } else {
        s.substring_char(0, n - 1).to_owned()
    }
}

} // verus!
