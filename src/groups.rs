//! Window groups listed from a session: ordering by name, numbering, and
//! filtering by a selection list.
use vstd::prelude::*;
use vstd::string::*;
use crate::selection::contains_index;

verus! {

/// Lexicographic order on names, by code point (the order of `str`).
pub open spec fn chars_le(a: Seq<char>, b: Seq<char>) -> bool
    decreases a.len(),
{
    if a.len() == 0 {
        true
    } else if b.len() == 0 {
        false
    } else if (a[0] as u32) != (b[0] as u32) {
        (a[0] as u32) < (b[0] as u32)
    } else {
        chars_le(a.drop_first(), b.drop_first())
    }
}

/// Insert `x` into `s` after every trailing entry whose name is not greater.
pub open spec fn insert_by_name<G>(s: Seq<(String, G)>, x: (String, G)) -> Seq<(String, G)>
    decreases s.len(),
{
    if s.len() == 0 {
        seq![x]
    } else if chars_le(s.last().0@, x.0@) {
        s.push(x)
    } else {
        insert_by_name(s.drop_last(), x).push(s.last())
    }
}

/// Stable sort by name: entries with equal names keep their order.
pub open spec fn sorted_by_name<G>(s: Seq<(String, G)>) -> Seq<(String, G)>
    decreases s.len(),
{
    if s.len() == 0 {
        s
    } else {
        insert_by_name(sorted_by_name(s.drop_last()), s.last())
    }
}

/// The enumeration order of a side: sorted by name or as the source yields it.
pub open spec fn ordered<G>(s: Seq<(String, G)>, sort: bool) -> Seq<(String, G)> {
    if sort {
        sorted_by_name(s)
    } else {
        s
    }
}

/// Whether position `i` passes a selection list (`None` keeps everything).
pub open spec fn index_selected(sel: Option<Seq<u32>>, i: int) -> bool {
    match sel {
        None => true,
        Some(l) => l.contains(i as u32),
    }
}

/// The groups of `s` whose position passes `sel`, in order.
pub open spec fn kept<G>(s: Seq<(String, G)>, sel: Option<Seq<u32>>) -> Seq<G>
    decreases s.len(),
{
    if s.len() == 0 {
        Seq::empty()
    } else if index_selected(sel, s.len() - 1) {
        kept(s.drop_last(), sel).push(s.last().1)
    } else {
        kept(s.drop_last(), sel)
    }
}

/// Numbered listing of a side: entry `i` gets index `i` and its name.
pub open spec fn numbered<G>(s: Seq<(String, G)>) -> Seq<TabGroupView> {
    Seq::new(s.len(), |i: int| TabGroupView { index: i as u32, name: s[i].0@ })
}

/// One window group as listed to the user.
#[derive(Debug, Clone, PartialEq, Eq)]
pub struct TabGroup {
    /// Position of the group within its (open or closed) listing.
    pub index: u32,
    /// Name of the group.
    pub name: String,
}

pub struct TabGroupView {
    pub index: u32,
    pub name: Seq<char>,
}

impl View for TabGroup {
    type V = TabGroupView;

    open spec fn view(&self) -> TabGroupView {
        TabGroupView { index: self.index, name: self.name@ }
    }
}

/// The groups of open windows and of recently closed windows.
#[derive(Debug, Clone, PartialEq, Eq)]
pub struct AllTabGroups {
    pub open: Vec<TabGroup>,
    pub closed: Vec<TabGroup>,
}

impl AllTabGroups {
    pub open spec fn open_view(&self) -> Seq<TabGroupView> {
        self.open@.map_values(|g: TabGroup| g@)
    }

    pub open spec fn closed_view(&self) -> Seq<TabGroupView> {
        self.closed@.map_values(|g: TabGroup| g@)
    }
}

impl Default for AllTabGroups {
    fn default() -> (r: Self)
        ensures
            r.open@.len() == 0,
            r.closed@.len() == 0,
    {
        AllTabGroups { open: Vec::new(), closed: Vec::new() }
    }
}

/// Compare two names by code point.
pub fn name_le(a: &str, b: &str) -> (r: bool)
    ensures
        r == chars_le(a@, b@),
{
    let n = a.unicode_len();
    let m = b.unicode_len();
    let mut i: usize = 0;
    assert(a@.skip(0) =~= a@ && b@.skip(0) =~= b@);
    while i < n && i < m
        invariant
            n == a@.len(),
            m == b@.len(),
            i <= n,
            i <= m,
            chars_le(a@, b@) == chars_le(a@.skip(i as int), b@.skip(i as int)),
        decreases n - i,
    {
        let x = a.get_char(i);
        let y = b.get_char(i);
        assert(a@.skip(i as int)[0] == x && b@.skip(i as int)[0] == y);
        if (x as u32) != (y as u32) {
            return (x as u32) < (y as u32);
        }
        assert(a@.skip(i as int).drop_first() =~= a@.skip(i + 1));
        assert(b@.skip(i as int).drop_first() =~= b@.skip(i + 1));
        i = i + 1;
    }
    assert(a@.skip(i as int).len() == n - i && b@.skip(i as int).len() == m - i);
    i == n
}

proof fn lemma_insert_step<G>(s: Seq<(String, G)>, x: (String, G), j: int)
    requires
        0 < j <= s.len(),
        !chars_le(s[j - 1].0@, x.0@),
    ensures
        insert_by_name(s.take(j), x) + s.skip(j) == insert_by_name(s.take(j - 1), x) + s.skip(
            j - 1,
        ),
{
    assert(s.take(j).drop_last() =~= s.take(j - 1));
    assert(insert_by_name(s.take(j), x) == insert_by_name(s.take(j - 1), x).push(s[j - 1]));
    assert(insert_by_name(s.take(j - 1), x).push(s[j - 1]) + s.skip(j) =~= insert_by_name(
        s.take(j - 1),
        x,
    ) + s.skip(j - 1));
}

fn insert_sorted<G>(out: &mut Vec<(String, G)>, x: (String, G))
    ensures
        final(out)@ == insert_by_name(old(out)@, x),
{
    let ghost s = out@;
    let mut j: usize = out.len();
    assert(s.take(j as int) =~= s);
    assert(s.skip(j as int) =~= Seq::<(String, G)>::empty());
    assert(insert_by_name(s, x) =~= insert_by_name(s.take(j as int), x) + s.skip(j as int));
    while j > 0 && !name_le(out[j - 1].0.as_str(), x.0.as_str())
        invariant
            out@ == s,
            j <= s.len(),
            insert_by_name(s, x) == insert_by_name(s.take(j as int), x) + s.skip(j as int),
        decreases j,
    {
        proof {
            lemma_insert_step(s, x, j as int);
        }
        j = j - 1;
    }
    proof {
        if j == 0 {
            assert(s.take(0) =~= Seq::<(String, G)>::empty());
        } else {
            assert(s.take(j as int).last() == s[j - 1]);
        }
    }
    out.insert(j, x);
    assert(out@ =~= insert_by_name(s.take(j as int), x) + s.skip(j as int));
}

/// Stable sort of named entries by name.
pub fn sort_by_name<G>(v: Vec<(String, G)>) -> (r: Vec<(String, G)>)
    ensures
        r@ == sorted_by_name(v@),
{
    let ghost orig = v@;
    let mut rest = v;
    let mut out: Vec<(String, G)> = Vec::new();
    let mut i: usize = 0;
    let n = rest.len();
    assert(orig.take(0) =~= Seq::<(String, G)>::empty());
    assert(orig.skip(0) =~= orig);
    while rest.len() > 0
        invariant
            n == orig.len(),
            i <= n,
            rest@ == orig.skip(i as int),
            out@ == sorted_by_name(orig.take(i as int)),
        decreases rest.len(),
    {
        let x = rest.remove(0);
        assert(orig.take(i + 1).drop_last() =~= orig.take(i as int));
        assert(rest@ =~= orig.skip(i + 1));
        insert_sorted(&mut out, x);
        i = i + 1;
    }
    assert(orig.take(i as int) =~= orig);
    out
}

/// Order the entries of one side, by name when `sort` is set.
pub fn order_groups<G>(v: Vec<(String, G)>, sort: bool) -> (r: Vec<(String, G)>)
    ensures
        r@ == ordered(v@, sort),
{
    if sort {
        sort_by_name(v)
    } else {
        v
    }
}

/// Number the entries of one side in order, starting at zero.
pub fn number_groups<G>(v: &Vec<(String, G)>) -> (r: Vec<TabGroup>)
    ensures
        r@.map_values(|g: TabGroup| g@) == numbered(v@),
{
    let mut out: Vec<TabGroup> = Vec::new();
    let mut i: usize = 0;
    while i < v.len()
        invariant
            i <= v.len(),
            out@.len() == i,
            forall|k: int| 0 <= k < i ==> #[trigger] out@[k]@ == numbered(v@)[k],
        decreases v.len() - i,
    {
        let name = v[i].0.clone();
        out.push(TabGroup { index: i as u32, name });
        i = i + 1;
    }
    assert(out@.map_values(|g: TabGroup| g@) =~= numbered(v@));
    out
}

/// Keep the groups whose position passes the selection list, in order.
pub fn keep_selected<G>(v: Vec<(String, G)>, sel: &Option<Vec<u32>>) -> (r: Vec<G>)
    ensures
        r@ == kept(v@, match sel {
            Some(l) => Some(l@),
            None => None,
        }),
{
    let ghost orig = v@;
    let ghost sv = match sel {
        Some(l) => Some(l@),
        None => None::<Seq<u32>>,
    };
    let mut rest = v;
    let mut out: Vec<G> = Vec::new();
    let mut i: usize = 0;
    let n = rest.len();
    assert(orig.take(0) =~= Seq::<(String, G)>::empty());
    assert(orig.skip(0) =~= orig);
    while rest.len() > 0
        invariant
            n == orig.len(),
            i <= n,
            sv == match sel {
                Some(l) => Some(l@),
                None => None,
            },
            rest@ == orig.skip(i as int),
            out@ == kept(orig.take(i as int), sv),
        decreases rest.len(),
    {
        let x = rest.remove(0);
        assert(orig.take(i + 1).drop_last() =~= orig.take(i as int));
        assert(rest@ =~= orig.skip(i + 1));
        let keep = match sel {
            None => true,
            Some(l) => contains_index(l, i as u32),
        };
        if keep {
            out.push(x.1);
        }
        i = i + 1;
    }
    assert(orig.take(i as int) =~= orig);
    out
}

/// Names in the sequence never decrease.
pub open spec fn names_sorted<G>(s: Seq<(String, G)>) -> bool {
    forall|i: int, j: int| 0 <= i < j < s.len() ==> chars_le(#[trigger] s[i].0@, #[trigger] s[j].0@)
}

proof fn lemma_chars_le_total(a: Seq<char>, b: Seq<char>)
    ensures
        chars_le(a, b) || chars_le(b, a),
    decreases a.len(),
{
    if a.len() > 0 && b.len() > 0 && (a[0] as u32) == (b[0] as u32) {
        lemma_chars_le_total(a.drop_first(), b.drop_first());
    }
}

proof fn lemma_chars_le_trans(a: Seq<char>, b: Seq<char>, c: Seq<char>)
    requires
        chars_le(a, b),
        chars_le(b, c),
    ensures
        chars_le(a, c),
    decreases a.len(),
{
    if a.len() > 0 && b.len() > 0 && c.len() > 0 && (a[0] as u32) == (b[0] as u32) && (b[0] as u32)
        == (c[0] as u32) {
        lemma_chars_le_trans(a.drop_first(), b.drop_first(), c.drop_first());
    }
}

proof fn lemma_insert_by_name<G>(s: Seq<(String, G)>, x: (String, G))
    requires
        names_sorted(s),
    ensures
        names_sorted(insert_by_name(s, x)),
        insert_by_name(s, x).to_multiset() == s.to_multiset().insert(x),
        insert_by_name(s, x).len() == s.len() + 1,
        forall|k: int|
            0 <= k < insert_by_name(s, x).len() ==> #[trigger] insert_by_name(s, x)[k] == x
                || s.contains(insert_by_name(s, x)[k]),
    decreases s.len(),
{
    broadcast use vstd::seq_lib::group_to_multiset_ensures;

    let r = insert_by_name(s, x);
    if s.len() == 0 {
        assert(r =~= seq![x]);
        assert(seq![x].to_multiset() =~= Seq::<(String, G)>::empty().to_multiset().insert(x)) by {
            assert(seq![x] =~= Seq::<(String, G)>::empty().push(x));
        }
        assert(s =~= Seq::<(String, G)>::empty());
    } else if chars_le(s.last().0@, x.0@) {
        assert forall|i: int, j: int| 0 <= i < j < r.len() implies chars_le(
            #[trigger] r[i].0@,
            #[trigger] r[j].0@,
        ) by {
            if j == s.len() {
                if i < s.len() - 1 {
                    lemma_chars_le_trans(s[i].0@, s.last().0@, x.0@);
                }
            }
        }
        assert forall|k: int| 0 <= k < r.len() implies #[trigger] r[k] == x || s.contains(r[k]) by {
            if k < s.len() {
                assert(r[k] == s[k]);
            }
        }
    } else {
        let d = s.drop_last();
        assert(names_sorted(d));
        lemma_insert_by_name(d, x);
        let m = insert_by_name(d, x);
        lemma_chars_le_total(s.last().0@, x.0@);
        assert forall|k: int| 0 <= k < m.len() implies chars_le(#[trigger] m[k].0@, s.last().0@) by {
            if m[k] != x {
                assert(d.contains(m[k]));
                let i = choose|i: int| 0 <= i < d.len() && d[i] == m[k];
                assert(s[i] == d[i]);
                assert(chars_le(s[i].0@, s[s.len() - 1].0@));
            }
        }
        assert forall|i: int, j: int| 0 <= i < j < r.len() implies chars_le(
            #[trigger] r[i].0@,
            #[trigger] r[j].0@,
        ) by {
            if j == m.len() {
                assert(chars_le(m[i].0@, s.last().0@));
            } else {
                assert(r[i] == m[i] && r[j] == m[j]);
            }
        }
        assert forall|k: int| 0 <= k < r.len() implies #[trigger] r[k] == x || s.contains(r[k]) by {
            if k < m.len() {
                assert(r[k] == m[k]);
                if m[k] != x {
                    let i = choose|i: int| 0 <= i < d.len() && d[i] == m[k];
                    assert(s[i] == m[k]);
                }
            } else {
                assert(r[k] == s[s.len() - 1]);
            }
        }
        assert(s =~= d.push(s.last()));
        assert(r.to_multiset() == m.to_multiset().insert(s.last()));
        assert(s.to_multiset() == d.to_multiset().insert(s.last()));
        assert(r.to_multiset() =~= s.to_multiset().insert(x));
    }
}

/// Sorting by name yields the same entries, ordered so that names never
/// decrease.
pub proof fn lemma_sorted_by_name_is_sorted<G>(s: Seq<(String, G)>)
    ensures
        names_sorted(sorted_by_name(s)),
        sorted_by_name(s).to_multiset() == s.to_multiset(),
        sorted_by_name(s).len() == s.len(),
    decreases s.len(),
{
    broadcast use vstd::seq_lib::group_to_multiset_ensures;

    if s.len() > 0 {
        lemma_sorted_by_name_is_sorted(s.drop_last());
        lemma_insert_by_name(sorted_by_name(s.drop_last()), s.last());
        assert(s =~= s.drop_last().push(s.last()));
    }
}

/// The entries of `s` named `k`, in order.
pub open spec fn named<G>(s: Seq<(String, G)>, k: Seq<char>) -> Seq<(String, G)>
    decreases s.len(),
{
    if s.len() == 0 {
        s
    } else if s.last().0@ == k {
        named(s.drop_last(), k).push(s.last())
    } else {
        named(s.drop_last(), k)
    }
}

proof fn lemma_chars_le_refl(a: Seq<char>)
    ensures
        chars_le(a, a),
    decreases a.len(),
{
    if a.len() > 0 {
        lemma_chars_le_refl(a.drop_first());
    }
}

proof fn lemma_named_insert<G>(s: Seq<(String, G)>, x: (String, G), k: Seq<char>)
    ensures
        named(insert_by_name(s, x), k) == if x.0@ == k {
            named(s, k).push(x)
        } else {
            named(s, k)
        },
    decreases s.len(),
{
    let r = insert_by_name(s, x);
    if s.len() == 0 {
        assert(r.drop_last() =~= s);
    } else if chars_le(s.last().0@, x.0@) {
        assert(r.drop_last() =~= s);
    } else {
        let d = s.drop_last();
        lemma_named_insert(d, x, k);
        assert(r.drop_last() =~= insert_by_name(d, x));
        if x.0@ == k && s.last().0@ == k {
            lemma_chars_le_refl(k);
        }
    }
}

/// Sorting by name is stable: the entries sharing any one name come out in
/// the order they went in.
pub proof fn lemma_sorted_by_name_is_stable<G>(s: Seq<(String, G)>, k: Seq<char>)
    ensures
        named(sorted_by_name(s), k) == named(s, k),
    decreases s.len(),
{
    if s.len() > 0 {
        lemma_sorted_by_name_is_stable(s.drop_last(), k);
        lemma_named_insert(sorted_by_name(s.drop_last()), s.last(), k);
    }
}

} // verus!
