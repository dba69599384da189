//! Human-readable names for the editions' character lists.
use vstd::prelude::*;

use crate::lexer::chars_of;

verus! {

pub open spec fn is_upper(c: char) -> bool {
    'A' <= c && c <= 'Z'
}

pub open spec fn is_digit(c: char) -> bool {
    '0' <= c && c <= '9'
}

/// A new word starts at `i`: a capital after a character that is not one, or a
/// digit after a character that is not one.
pub open spec fn starts_word(s: Seq<char>, i: int) -> bool {
    &&& 0 < i < s.len()
    &&& (is_upper(s[i]) && !is_upper(s[i - 1])) || (is_digit(s[i]) && !is_digit(s[i - 1]))
}

/// `s` with a space put before each position where a new word starts.
pub open spec fn spaced(s: Seq<char>) -> Seq<char>
    decreases s.len(),
{
    if s.len() == 0 {
        Seq::empty()
    } else {
        spaced(s.drop_last()) + (if starts_word(s, s.len() - 1) {
            seq![' ']
        } else {
            Seq::empty()
        }) + seq![s.last()]
    }
}

fn is_upper_exec(c: char) -> (r: bool)
    ensures
        r == is_upper(c),
{
    'A' <= c && c <= 'Z'
}

fn is_digit_exec(c: char) -> (r: bool)
    ensures
        r == is_digit(c),
{
    '0' <= c && c <= '9'
}

/// Splits a joined type name into words: `MarioParty2` becomes `Mario Party 2`.
pub fn fix_enum_name(s: String) -> (r: String)
    ensures
        r@ == spaced(s@),
{
    let text = s.as_str();
    let cs = chars_of(text);
    let n = cs.len();
    let mut out = String::new();
    let mut start: usize = 0;
    let mut i: usize = 0;
    proof {
        reveal_strlit(" ");
        assert(s@.subrange(0, 0) =~= Seq::<char>::empty());
    }
    while i < n
        invariant
            cs@ == s@,
            text@ == s@,
            n == s@.len(),
            start <= i <= n,
            out@ + s@.subrange(start as int, i as int) == spaced(s@.subrange(0, i as int)),
        decreases n - i,
    {
        let ghost prefix = s@.subrange(0, i as int);
        let ghost next = s@.subrange(0, i + 1);
        proof {
            assert(next.drop_last() =~= prefix);
            assert(starts_word(next, i as int) == starts_word(s@, i as int));
        }
        if i > 0 && ((is_upper_exec(cs[i]) && !is_upper_exec(cs[i - 1])) || (is_digit_exec(cs[i])
            && !is_digit_exec(cs[i - 1]))) {
            let ghost before = out@;
            out.append(text.substring_char(start, i));
            out.append(" ");
            proof {
                reveal_strlit(" ");
                assert(out@ + s@.subrange(i as int, i + 1) =~= before + s@.subrange(start as int, i as int)
                    + seq![' '] + seq![s@[i as int]]);
            }
            start = i;
        } else {
            assert(s@.subrange(start as int, i + 1) =~= s@.subrange(start as int, i as int) + seq![s@[i as int]]);
            assert(out@ + s@.subrange(start as int, i + 1) =~= (out@ + s@.subrange(start as int, i as int)) + seq![s@[i as int]]);
        }
        i = i + 1;
    }
    out.append(text.substring_char(start, n));
    proof {
        assert(s@.subrange(0, n as int) =~= s@);
    }
    out
}

/// The edition part of a character type's name: the name without its
/// `Characters` ending, split into words; `None` for a name without that ending.
pub open spec fn edition_label(name: Seq<char>) -> Option<Seq<char>> {
    let suffix = "Characters"@;
    if name.len() >= suffix.len() && name.subrange(name.len() - suffix.len(), name.len() as int)
        == suffix {
        Some(spaced(name.subrange(0, name.len() - suffix.len())))
    } else {
        None
    }
}

/// The edition label of a character type's name, as [`edition_label`] states it.
pub fn character_type_label(name: &str) -> (r: Option<String>)
    ensures
        match r {
            Some(l) => edition_label(name@) == Some(l@),
            None => edition_label(name@) is None,
        },
{
    let suffix = "Characters";
    let k = suffix.unicode_len();
    let n = name.unicode_len();
    if n < k {
        return None;
    }
    let tail = String::from_str(name.substring_char(n - k, n));
    if tail != String::from_str(suffix) {
        return None;
    }
    let head = String::from_str(name.substring_char(0, n - k));
    Some(fix_enum_name(head))
}

/// A grouping of values under labels, in order of first appearance.
pub type Groups = Seq<(Seq<char>, Seq<Seq<char>>)>;

pub open spec fn groups_view(g: Seq<(String, Vec<String>)>) -> Groups {
    g.map_values(|e: (String, Vec<String>)| (e.0@, e.1@.map_values(|v: String| v@)))
}

/// `g` with `v` appended to the group labelled `k`, or a new group `k` holding
/// only `v` when there is none.
pub open spec fn add_to_group(g: Groups, k: Seq<char>, v: Seq<char>) -> Groups {
    if exists|i: int| 0 <= i < g.len() && g[i].0 == k {
        let i = choose|i: int| 0 <= i < g.len() && g[i].0 == k;
        g.update(i, (k, g[i].1.push(v)))
    } else {
        g.push((k, seq![v]))
    }
}

/// The characters of each edition, from rows of (character type name,
/// character), in the order the rows come. Rows whose type name does not end
/// in `Characters` are left out.
pub open spec fn group_rows(rows: Seq<(Seq<char>, Seq<char>)>) -> Groups
    decreases rows.len(),
{
    if rows.len() == 0 {
        Seq::empty()
    } else {
        let rest = group_rows(rows.drop_last());
        match edition_label(rows.last().0) {
            Some(l) => add_to_group(rest, l, rows.last().1),
            None => rest,
        }
    }
}

pub open spec fn has_unique_labels(g: Groups) -> bool {
    forall|i: int, j: int| 0 <= i < j < g.len() ==> g[i].0 != g[j].0
}

pub open spec fn rows_view(rows: Seq<(String, String)>) -> Seq<(Seq<char>, Seq<char>)> {
    rows.map_values(|r: (String, String)| (r.0@, r.1@))
}

/// Groups the characters of each edition under the edition's label.
pub fn group_characters(rows: Vec<(String, String)>) -> (r: Vec<(String, Vec<String>)>)
    ensures
        groups_view(r@) == group_rows(rows_view(rows@)),
        has_unique_labels(groups_view(r@)),
{
    let mut out: Vec<(String, Vec<String>)> = Vec::new();
    let mut i: usize = 0;
    while i < rows.len()
        invariant
            i <= rows@.len(),
            groups_view(out@) == group_rows(rows_view(rows@.subrange(0, i as int))),
            has_unique_labels(groups_view(out@)),
        decreases rows.len() - i,
    {
        proof {
            let next = rows_view(rows@.subrange(0, i + 1));
            assert(next.drop_last() =~= rows_view(rows@.subrange(0, i as int)));
            assert(next.last() == (rows@[i as int].0@, rows@[i as int].1@));
        }
        let label = character_type_label(rows[i].0.as_str());
        match label {
            Some(l) => {
                add_character(&mut out, l, rows[i].1.clone());
            },
            None => {},
        }
        i = i + 1;
    }
    proof {
        assert(rows@.subrange(0, rows@.len() as int) =~= rows@);
    }
    out
}

fn add_character(g: &mut Vec<(String, Vec<String>)>, k: String, v: String)
    requires
        has_unique_labels(groups_view(old(g)@)),
    ensures
        groups_view(final(g)@) == add_to_group(groups_view(old(g)@), k@, v@),
        has_unique_labels(groups_view(final(g)@)),
{
    let ghost old_g = groups_view(g@);
    let mut j: usize = 0;
    while j < g.len()
        invariant
            j <= g@.len(),
            old_g == groups_view(g@),
            old_g == groups_view(old(g)@),
            has_unique_labels(old_g),
            forall|a: int| 0 <= a < j ==> old_g[a].0 != k@,
        decreases g.len() - j,
    {
        if g[j].0 == k {
            assert(old_g[j as int].0 == k@);
            assert(exists|a: int| 0 <= a < old_g.len() && old_g[a].0 == k@);
            let ghost c = choose|a: int| 0 <= a < old_g.len() && old_g[a].0 == k@;
            assert(c == j) by {
                if c < j {
                    assert(old_g[c].0 != old_g[j as int].0);
                } else if c > j {
                    assert(old_g[j as int].0 != old_g[c].0);
                }
            }
            let ghost kv = k@;
            let ghost vv = v@;
            let mut values = g[j].1.clone();
            let ghost vals = g@[j as int].1@;
            assert(values@ == vals);
            values.push(v);
            assert(values@.map_values(|x: String| x@) =~= old_g[j as int].1.push(vv));
            g.set(j, (k, values));
            assert(groups_view(g@)[j as int] == (kv, old_g[j as int].1.push(vv)));
            assert(groups_view(g@) =~= old_g.update(j as int, (kv, old_g[j as int].1.push(vv))));
            return;
        }
        j = j + 1;
    }
    let ghost kv = k@;
    let ghost vv = v@;
    let mut values: Vec<String> = Vec::new();
    values.push(v);
    assert(values@.map_values(|x: String| x@) =~= seq![vv]);
    g.push((k, values));
    assert(groups_view(g@) =~= old_g.push((kv, seq![vv])));
}

} // verus!
