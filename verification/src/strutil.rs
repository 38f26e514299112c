//! Character-level string utilities: the spec-side notions of prefix, suffix
//! and line splitting that the message formatter and parser are specified
//! with, and verified executable counterparts.

use vstd::prelude::*;
use vstd::string::*;

verus! {

/// `p` is a prefix of `s`.
pub open spec fn starts_with(s: Seq<char>, p: Seq<char>) -> bool {
    p.len() <= s.len() && s.subrange(0, p.len() as int) == p
}

/// `p` is a suffix of `s`.
pub open spec fn ends_with(s: Seq<char>, p: Seq<char>) -> bool {
    p.len() <= s.len() && s.subrange(s.len() - p.len(), s.len() as int) == p
}

/// `s` holds no line terminator.
pub open spec fn nl_free(s: Seq<char>) -> bool {
    forall|i: int| 0 <= i < s.len() ==> s[i] != '\n'
}

/// The two strings hold the same characters.
pub fn str_same(a: &str, b: &str) -> (r: bool)
    ensures
        r == (a@ == b@),
{
    let a_len = a.unicode_len();
    let b_len = b.unicode_len();
    if a_len != b_len {
        proof {
            assert(a@ != b@) by {
                assert(a@.len() != b@.len());
            }
        }
        return false;
    }
    let mut i: usize = 0;
    while i < a_len
        invariant
            i <= a_len,
            a_len == a@.len(),
            a_len == b@.len(),
            forall|j: int| 0 <= j < i ==> a@[j] == b@[j],
        decreases a_len - i,
    {
        if a.get_char(i) != b.get_char(i) {
            proof {
                assert(a@ != b@) by {
                    assert(a@[i as int] != b@[i as int]);
                }
            }
            return false;
        }
        i += 1;
    }
    proof {
        assert(a@ =~= b@);
    }
    true
}

/// Whether `s` begins with `p`, as [`starts_with`] states.
pub fn str_starts_with(s: &str, p: &str) -> (r: bool)
    ensures
        r == starts_with(s@, p@),
{
    let s_len = s.unicode_len();
    let p_len = p.unicode_len();
    if p_len > s_len {
        return false;
    }
    let mut i: usize = 0;
    while i < p_len
        invariant
            i <= p_len,
            p_len == p@.len(),
            s_len == s@.len(),
            p_len <= s_len,
            forall|j: int| 0 <= j < i ==> s@[j] == p@[j],
        decreases p_len - i,
    {
        if s.get_char(i) != p.get_char(i) {
            proof {
                assert(!starts_with(s@, p@)) by {
                    assert(s@.subrange(0, p@.len() as int)[i as int] != p@[i as int]);
                }
            }
            return false;
        }
        i += 1;
    }
    proof {
        assert(s@.subrange(0, p@.len() as int) =~= p@);
    }
    true
}

/// Whether `s` ends with `p`, as [`ends_with`] states.
pub fn str_ends_with(s: &str, p: &str) -> (r: bool)
    ensures
        r == ends_with(s@, p@),
{
    let s_len = s.unicode_len();
    let p_len = p.unicode_len();
    if p_len > s_len {
        return false;
    }
    let offset = s_len - p_len;
    let mut i: usize = 0;
    while i < p_len
        invariant
            i <= p_len,
            p_len == p@.len(),
            s_len == s@.len(),
            offset == s_len - p_len,
            forall|j: int| 0 <= j < i ==> s@[offset + j] == p@[j],
        decreases p_len - i,
    {
        if s.get_char(offset + i) != p.get_char(i) {
            proof {
                assert(!ends_with(s@, p@)) by {
                    assert(s@.subrange(s@.len() - p@.len(), s@.len() as int)[i as int]
                        != p@[i as int]);
                }
            }
            return false;
        }
        i += 1;
    }
    proof {
        assert(s@.subrange(s@.len() - p@.len(), s@.len() as int) =~= p@);
    }
    true
}

/// The lines of `s`: the segments between line terminators, in order. A
/// string without a terminator is one line; a terminator at the end yields a
/// final empty line.
pub open spec fn split_lines(s: Seq<char>) -> Seq<Seq<char>> {
    split_sep(s, '\n')
}

/// The lines joined back into one string, one terminator between each pair.
pub open spec fn join_lines(ls: Seq<Seq<char>>) -> Seq<char>
    decreases ls.len(),
{
    if ls.len() == 0 {
        Seq::empty()
    } else if ls.len() == 1 {
        ls[0]
    } else {
        ls[0] + seq!['\n'] + join_lines(ls.skip(1))
    }
}

/// Splitting undoes joining, for a non-empty sequence of terminator-free
/// lines.
pub proof fn lemma_split_join(ls: Seq<Seq<char>>)
    requires
        ls.len() >= 1,
        forall|k: int| 0 <= k < ls.len() ==> nl_free(#[trigger] ls[k]),
    ensures
        split_lines(join_lines(ls)) == ls,
    decreases ls.len(),
{
    if ls.len() == 1 {
        lemma_split_sep_whole(ls[0], '\n');
        assert(seq![ls[0]] =~= ls);
    } else {
        let a = ls[0];
        let rest = ls.skip(1);
        let s = join_lines(ls);
        assert(s == a + seq!['\n'] + join_lines(rest));
        assert(forall|j: int| 0 <= j < a.len() ==> s[j] == a[j]);
        assert(s[a.len() as int] == '\n');
        lemma_split_sep_step(s, '\n', a.len() as int);
        assert(s.take(a.len() as int) =~= a);
        assert(s.skip(a.len() as int + 1) =~= join_lines(rest));
        lemma_split_join(rest);
        assert(seq![a] + rest =~= ls);
    }
}

/// Appending one more line to a join appends a terminator and the line.
pub proof fn lemma_join_push(ls: Seq<Seq<char>>, l: Seq<char>)
    requires
        ls.len() >= 1,
    ensures
        join_lines(ls.push(l)) == join_lines(ls) + seq!['\n'] + l,
    decreases ls.len(),
{
    if ls.len() == 1 {
        assert(ls.push(l).skip(1) =~= seq![l]);
        assert(join_lines(ls.push(l).skip(1)) == l) by {
            assert(join_lines(seq![l]) == l);
        }
        assert(join_lines(ls.push(l)) == ls.push(l)[0] + seq!['\n'] + join_lines(
            ls.push(l).skip(1),
        ));
        assert(ls.push(l)[0] == ls[0]);
    } else {
        assert(ls.push(l).skip(1) =~= ls.skip(1).push(l));
        lemma_join_push(ls.skip(1), l);
        assert(join_lines(ls.push(l)) == ls[0] + seq!['\n'] + (join_lines(ls.skip(1)) + seq![
            '\n',
        ] + l));
        assert(ls[0] + seq!['\n'] + (join_lines(ls.skip(1)) + seq!['\n'] + l) =~= (ls[0] + seq![
            '\n',
        ] + join_lines(ls.skip(1))) + seq!['\n'] + l);
    }
}

/// `s` is never a prefix where the two disagree at some position `i` inside
/// the prefix.
pub proof fn lemma_not_prefix(s: Seq<char>, p: Seq<char>, i: int)
    requires
        0 <= i < p.len(),
        i < s.len() ==> s[i] != p[i],
    ensures
        !starts_with(s, p),
{
    if starts_with(s, p) {
        assert(s.subrange(0, p.len() as int)[i] == s[i]);
    }
}

/// A string starts with its own prefix, and what follows is the rest.
pub proof fn lemma_prefix_concat(p: Seq<char>, v: Seq<char>)
    ensures
        starts_with(p + v, p),
        (p + v).skip(p.len() as int) == v,
{
    assert((p + v).subrange(0, p.len() as int) =~= p);
    assert((p + v).skip(p.len() as int) =~= v);
}

/// The lines of `s`, as owned strings.
pub fn split_lines_str(s: &str) -> (r: Vec<String>)
    ensures
        r.deep_view() == split_lines(s@),
        r.len() >= 1,
{
    split_sep_str(s, '\n')
}

/// The lines joined into one string, one terminator between each pair.
pub fn join_lines_str(lines: &Vec<String>) -> (r: String)
    requires
        lines@.len() >= 1,
    ensures
        r@ == join_lines(lines.deep_view()),
{
    let mut out = lines[0].clone();
    proof {
        assert(lines.deep_view().take(1) =~= seq![lines.deep_view()[0]]);
    }
    let mut i: usize = 1;
    while i < lines.len()
        invariant
            1 <= i <= lines@.len(),
            out@ == join_lines(lines.deep_view().take(i as int)),
        decreases lines@.len() - i,
    {
        out.append("\n");
        out.append(lines[i].as_str());
        proof {
            let lv = lines.deep_view();
            assert(lv.take(i as int).len() == i);
            lemma_join_push(lv.take(i as int), lv[i as int]);
            assert(lv.take(i as int).push(lv[i as int]) =~= lv.take(i as int + 1));
            assert(join_lines(lv.take(i as int)) + "\n"@ + lv[i as int] =~= join_lines(
                lv.take(i as int),
            ) + seq!['\n'] + lv[i as int]) by {
                reveal_strlit("\n");
            }
        }
        i += 1;
    }
    proof {
        assert(lines.deep_view().take(lines@.len() as int) =~= lines.deep_view());
    }
    out
}

/// The rest of `s` after the prefix `p`, or `None` where `s` does not start
/// with `p`.
pub fn strip_prefix_str(s: &str, p: &str) -> (r: Option<String>)
    ensures
        match r {
            Some(rest) => starts_with(s@, p@) && rest@ == s@.skip(p@.len() as int),
            None => !starts_with(s@, p@),
        },
{
    if str_starts_with(s, p) {
        let rest = s.substring_char(p.unicode_len(), s.unicode_len()).to_owned();
        proof {
            assert(s@.subrange(p@.len() as int, s@.len() as int) =~= s@.skip(p@.len() as int));
        }
        Some(rest)
    } else {
        None
    }
}

/// The index of the first occurrence of `sep` in `s`, or `s.len()` where
/// there is none.
pub open spec fn find_sep(s: Seq<char>, sep: char) -> nat
    decreases s.len(),
{
    if s.len() == 0 {
        0
    } else if s[0] == sep {
        0
    } else {
        1 + find_sep(s.skip(1), sep)
    }
}

/// [`find_sep`] is the first occurrence: everything before it differs from
/// `sep`, and it is an occurrence unless it is the length.
pub proof fn lemma_find_sep(s: Seq<char>, sep: char)
    ensures
        find_sep(s, sep) <= s.len(),
        forall|j: int| 0 <= j < find_sep(s, sep) ==> s[j] != sep,
        find_sep(s, sep) < s.len() ==> s[find_sep(s, sep) as int] == sep,
    decreases s.len(),
{
    if s.len() == 0 || s[0] == sep {
    } else {
        lemma_find_sep(s.skip(1), sep);
        assert forall|j: int| 0 <= j < find_sep(s, sep) implies s[j] != sep by {
            if j > 0 {
                assert(s.skip(1)[j - 1] != sep);
                assert(s[j] == s.skip(1)[j - 1]);
            }
        }
        if find_sep(s, sep) < s.len() {
            assert(s[find_sep(s, sep) as int] == s.skip(1)[find_sep(s.skip(1), sep) as int]);
        }
    }
}

/// The segments of `s` between occurrences of `sep`, in order.
pub open spec fn split_sep(s: Seq<char>, sep: char) -> Seq<Seq<char>>
    decreases s.len(),
{
    let i = find_sep(s, sep);
    if i >= s.len() {
        seq![s]
    } else {
        seq![s.take(i as int)] + split_sep(s.skip(i as int + 1), sep)
    }
}

/// A string without the separator splits into itself as its one segment.
pub proof fn lemma_split_sep_whole(t: Seq<char>, sep: char)
    requires
        forall|j: int| 0 <= j < t.len() ==> t[j] != sep,
    ensures
        split_sep(t, sep) == seq![t],
{
    lemma_find_sep(t, sep);
    if find_sep(t, sep) < t.len() {
        assert(false);
    }
}

/// Splitting takes the separator-free prefix as the first segment and recurs
/// past the separator.
pub proof fn lemma_split_sep_step(t: Seq<char>, sep: char, n: int)
    requires
        0 <= n < t.len(),
        t[n] == sep,
        forall|j: int| 0 <= j < n ==> t[j] != sep,
    ensures
        split_sep(t, sep) == seq![t.take(n)] + split_sep(t.skip(n + 1), sep),
{
    lemma_find_sep(t, sep);
    if find_sep(t, sep) < n {
        assert(t[find_sep(t, sep) as int] == sep);
        assert(false);
    }
    if find_sep(t, sep) > n {
        assert(t[n] != sep);
        assert(false);
    }
}

/// The segments of `s` between occurrences of `sep`, as owned strings.
pub fn split_sep_str(s: &str, sep: char) -> (r: Vec<String>)
    ensures
        r.deep_view() == split_sep(s@, sep),
        r.len() >= 1,
{
    let len = s.unicode_len();
    let mut out: Vec<String> = Vec::new();
    proof {
        assert(out.deep_view() =~= Seq::<Seq<char>>::empty());
        assert(s@.skip(0) =~= s@);
        assert(Seq::<Seq<char>>::empty() + split_sep(s@, sep) =~= split_sep(s@, sep));
    }
    let mut start: usize = 0;
    let mut i: usize = 0;
    while i < len
        invariant
            start <= i <= len,
            len == s@.len(),
            forall|j: int| start <= j < i ==> s@[j] != sep,
            split_sep(s@, sep) == out.deep_view() + split_sep(s@.skip(start as int), sep),
        decreases len - i,
    {
        if s.get_char(i) == sep {
            let seg = s.substring_char(start, i).to_owned();
            let ghost old_dv = out.deep_view();
            out.push(seg);
            proof {
                let t = s@.skip(start as int);
                lemma_split_sep_step(t, sep, i - start);
                assert(t.take(i - start) =~= s@.subrange(start as int, i as int));
                assert(t.skip(i - start + 1) =~= s@.skip(i as int + 1));
                assert(out.deep_view() =~= old_dv.push(seg@));
                assert(old_dv.push(seg@) + split_sep(s@.skip(i as int + 1), sep) =~= old_dv + (
                seq![seg@] + split_sep(s@.skip(i as int + 1), sep)));
            }
            start = i + 1;
        }
        i += 1;
    }
    let seg = s.substring_char(start, len).to_owned();
    let ghost old_dv = out.deep_view();
    out.push(seg);
    proof {
        let t = s@.skip(start as int);
        assert(forall|j: int| 0 <= j < t.len() ==> t[j] == s@[start + j]);
        lemma_split_sep_whole(t, sep);
        assert(t =~= s@.subrange(start as int, len as int));
        assert(out.deep_view() =~= old_dv.push(seg@));
        assert(old_dv.push(seg@) =~= old_dv + seq![seg@]);
    }
    out
}

} // verus!
