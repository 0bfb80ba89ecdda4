//! Preset names: the `*.toml` files of the presets directory, by name.

use vstd::prelude::*;
use vstd::multiset::Multiset;

verus! {

broadcast use {vstd::seq_lib::group_to_multiset_ensures, vstd::multiset::group_multiset_axioms};

/// `a` sorts before or equal to `b`: characters compared left to
/// right, a proper prefix first. On UTF-8 text this is the byte order that
/// `String`'s `Ord` uses.
pub open spec fn spec_lex_le(a: Seq<char>, b: Seq<char>) -> bool
    decreases a.len(),
{
    if a.len() == 0 {
        true
    } else if b.len() == 0 {
        false
    } else if a[0] < b[0] {
        true
    } else if a[0] != b[0] {
        false
    } else {
        spec_lex_le(a.subrange(1, a.len() as int), b.subrange(1, b.len() as int))
    }
}

/// Any two names are ordered one way or the other.
pub proof fn lemma_lex_total(a: Seq<char>, b: Seq<char>)
    ensures
        spec_lex_le(a, b) || spec_lex_le(b, a),
    decreases a.len(),
{
    if a.len() > 0 && b.len() > 0 {
        if a[0] == b[0] {
            lemma_lex_total(a.subrange(1, a.len() as int), b.subrange(1, b.len() as int));
        } else {

        }
    }
}

/// The order is transitive.
pub proof fn lemma_lex_trans(a: Seq<char>, b: Seq<char>, c: Seq<char>)
    requires
        spec_lex_le(a, b),
        spec_lex_le(b, c),
    ensures
        spec_lex_le(a, c),
    decreases a.len(),
{
    if a.len() > 0 && b.len() > 0 && c.len() > 0 && a[0] == b[0] && b[0] == c[0] {
        lemma_lex_trans(
            a.subrange(1, a.len() as int),
            b.subrange(1, b.len() as int),
            c.subrange(1, c.len() as int),
        );
    }
}

/// Names that sort each before or equal to the other are equal.
pub proof fn lemma_lex_antisym(a: Seq<char>, b: Seq<char>)
    requires
        spec_lex_le(a, b),
        spec_lex_le(b, a),
    ensures
        a == b,
    decreases a.len(),
{
    if a.len() > 0 {
        lemma_lex_antisym(a.subrange(1, a.len() as int), b.subrange(1, b.len() as int));
        assert(a =~= seq![a[0]] + a.subrange(1, a.len() as int));
        assert(b =~= seq![b[0]] + b.subrange(1, b.len() as int));
    } else {
        assert(b.len() == 0);
        assert(a =~= b);
    }
}

/// Compare two names in the order of [`spec_lex_le`].
pub fn lex_le(a: &str, b: &str) -> (r: bool)
    ensures
        r == spec_lex_le(a@, b@),
{
    let n = a.unicode_len();
    let m = b.unicode_len();
    let mut i: usize = 0;
    assert(a@.subrange(0, n as int) =~= a@);
    assert(b@.subrange(0, m as int) =~= b@);
    while i < n && i < m
        invariant
            n as int == a@.len(),
            m as int == b@.len(),
            i <= n,
            i <= m,
            forall|k: int| 0 <= k < i ==> a@[k] == b@[k],
            spec_lex_le(a@, b@) == spec_lex_le(
                a@.subrange(i as int, n as int),
                b@.subrange(i as int, m as int),
            ),
        decreases n - i,
    {
        let x = a.get_char(i);
        let y = b.get_char(i);
        let ghost sa = a@.subrange(i as int, n as int);
        let ghost sb = b@.subrange(i as int, m as int);
        assert(sa[0] == x && sb[0] == y);
        if x < y {
            return true;
        }
        if x != y {
            return false;
        }
        assert(sa.subrange(1, sa.len() as int) =~= a@.subrange(i + 1, n as int));
        assert(sb.subrange(1, sb.len() as int) =~= b@.subrange(i + 1, m as int));
        i = i + 1;
    }
    i == n
}

/// The views of a list of names.
pub open spec fn spec_views(v: Seq<String>) -> Seq<Seq<char>> {
    v.map_values(|s: String| s@)
}

/// The names are in order.
pub open spec fn spec_sorted(v: Seq<Seq<char>>) -> bool {
    forall|i: int, j: int| 0 <= i < j < v.len() ==> spec_lex_le(#[trigger] v[i], #[trigger] v[j])
}

/// A file name's preset name: the file name without its `.toml` ending.
pub open spec fn spec_preset_name(file: Seq<char>) -> Option<Seq<char>> {
    if file.len() >= 5 && file.subrange(file.len() - 5, file.len() as int) == ".toml"@ {
        Some(file.subrange(0, file.len() - 5))
    } else {
        None
    }
}

/// The preset names of the first `n` file names, in their order.
pub open spec fn spec_kept(files: Seq<Seq<char>>, n: int) -> Seq<Seq<char>>
    decreases n,
{
    if n <= 0 {
        Seq::empty()
    } else {
        match spec_preset_name(files[n - 1]) {
            Some(name) => spec_kept(files, n - 1).push(name),
            None => spec_kept(files, n - 1),
        }
    }
}

/// The preset name of a file name, if it ends in `.toml`.
pub fn preset_name(file: &str) -> (r: Option<String>)
    ensures
        spec_preset_name(file@) matches Some(n) ==> (r matches Some(s) && s@ == n),
        spec_preset_name(file@) is None ==> r is None,
{
    proof { reveal_strlit(".toml"); }
    let n = file.unicode_len();
    if n < 5 {
        return None;
    }
    let tail = file.substring_char(n - 5, n);
    if crate::text::str_eq(tail, ".toml") {
        Some(String::from_str(file.substring_char(0, n - 5)))
    } else {
        None
    }
}

/// Insert a name into a sorted list after every name that sorts before or
/// equal to it.
fn insert_sorted(out: &mut Vec<String>, name: String)
    requires
        spec_sorted(spec_views(old(out)@)),
    ensures
        spec_sorted(spec_views(final(out)@)),
        spec_views(final(out)@).to_multiset() == spec_views(old(out)@).to_multiset().insert(name@),
{
    let ghost before = spec_views(out@);
    let ghost x = name@;
    let mut p: usize = 0;
    while p < out.len() && lex_le(out[p].as_str(), name.as_str())
        invariant
            p <= out@.len(),
            out@ == old(out)@,
            before == spec_views(out@),
            x == name@,
            forall|k: int| 0 <= k < p ==> spec_lex_le(#[trigger] before[k], x),
        decreases out@.len() - p,
    {
        p = p + 1;
    }
    proof {
        if p < out@.len() {
            assert(!spec_lex_le(before[p as int], x));
            lemma_lex_total(before[p as int], x);
        }
    }
    out.insert(p, name);
    proof {
        let after = spec_views(out@);
        assert(after =~= before.insert(p as int, x));
        assert forall|i: int, j: int| 0 <= i < j < after.len() implies spec_lex_le(
            #[trigger] after[i],
            #[trigger] after[j],
        ) by {
            if j < p {
                assert(after[i] == before[i] && after[j] == before[j]);
            } else if j == p {
                assert(after[i] == before[i]);
            } else if i < p {
                assert(after[i] == before[i] && after[j] == before[j - 1]);
                lemma_lex_trans(before[i], x, before[p as int]);
                if j - 1 > p {
                    lemma_lex_trans(before[i], before[p as int], before[j - 1]);
                }
            } else if i == p {
                assert(after[j] == before[j - 1]);
                if j - 1 > p {
                    lemma_lex_trans(x, before[p as int], before[j - 1]);
                }
            } else {
                assert(after[i] == before[i - 1] && after[j] == before[j - 1]);
            }
        }
        assert(after.remove(p as int) =~= before);
        assert(after[p as int] == x);
        assert(after.to_multiset().remove(x) == before.to_multiset());
        assert(after.to_multiset().count(x) > 0);
        assert(after.to_multiset() =~= before.to_multiset().insert(x));
    }
}

/// List the preset names among the file names of the presets directory:
/// the names of the `*.toml` files without that ending, in order.
pub fn preset_names(files: &Vec<String>) -> (names: Vec<String>)
    ensures
        spec_sorted(spec_views(names@)),
        spec_views(names@).to_multiset() == spec_kept(spec_views(files@), files@.len() as int).to_multiset(),
{
    let mut names: Vec<String> = Vec::new();
    let mut i: usize = 0;
    assert(spec_views(names@).to_multiset() =~= Multiset::empty());
    while i < files.len()
        invariant
            i <= files@.len(),
            spec_sorted(spec_views(names@)),
            spec_views(names@).to_multiset() == spec_kept(spec_views(files@), i as int).to_multiset(),
        decreases files@.len() - i,
    {
        assert(spec_views(files@)[i as int] == files@[i as int]@);
        match preset_name(files[i].as_str()) {
            Some(name) => {
                let ghost kept = spec_kept(spec_views(files@), i as int);
                insert_sorted(&mut names, name);
                proof {
                    assert(kept.push(name@).to_multiset() == kept.to_multiset().insert(name@));
                }
            },
            None => {},
        }
        i = i + 1;
    }
    names
}

/// Sort a list of names.
pub fn sort_names(list: &Vec<String>) -> (sorted: Vec<String>)
    ensures
        spec_sorted(spec_views(sorted@)),
        spec_views(sorted@).to_multiset() == spec_views(list@).to_multiset(),
{
    let mut sorted: Vec<String> = Vec::new();
    let mut i: usize = 0;
    assert(spec_views(sorted@).to_multiset() =~= Multiset::empty());
    assert(spec_views(list@).subrange(0, 0).to_multiset() =~= Multiset::empty());
    while i < list.len()
        invariant
            i <= list@.len(),
            spec_sorted(spec_views(sorted@)),
            spec_views(sorted@).to_multiset() == spec_views(list@).subrange(0, i as int).to_multiset(),
        decreases list@.len() - i,
    {
        let ghost part = spec_views(list@).subrange(0, i as int);
        let name = list[i].clone();
        insert_sorted(&mut sorted, name);
        proof {
            assert(spec_views(list@).subrange(0, i + 1) =~= part.push(list@[i as int]@));
        }
        i = i + 1;
    }
    assert(spec_views(list@).subrange(0, list@.len() as int) =~= spec_views(list@));
    sorted
}

} // verus!
