//! Which open and closed window groups are selected for export.
use vstd::prelude::*;

verus! {

/// A selection list: `None` means "every group of this side".
pub open spec fn side_view(o: Option<Vec<u32>>) -> Option<Seq<u32>> {
    match o {
        Some(v) => Some(v@),
        None => None,
    }
}

/// Number of explicitly listed indexes on one side.
pub open spec fn side_len(o: Option<Seq<u32>>) -> nat {
    match o {
        Some(s) => s.len(),
        None => 0,
    }
}

/// A missing list becomes an empty one.
pub open spec fn materialized(o: Option<Seq<u32>>) -> Seq<u32> {
    match o {
        Some(s) => s,
        None => Seq::empty(),
    }
}

/// `s` with every occurrence of `x` removed, order kept.
pub open spec fn without(s: Seq<u32>, x: u32) -> Seq<u32>
    decreases s.len(),
{
    if s.len() == 0 {
        s
    } else if s.last() == x {
        without(s.drop_last(), x)
    } else {
        without(s.drop_last(), x).push(s.last())
    }
}

proof fn lemma_without_same_len(s: Seq<u32>, x: u32)
    ensures
        without(s, x).len() <= s.len(),
        without(s, x).len() == s.len() ==> without(s, x) == s,
    decreases s.len(),
{
    if s.len() > 0 {
        lemma_without_same_len(s.drop_last(), x);
        if without(s, x).len() == s.len() {
            assert(s.drop_last().push(s.last()) =~= s);
        }
    }
}

/// Mathematical view of [`GenerateOptions`].
#[verifier::ext_equal]
pub struct SelectionView {
    pub open: Option<Seq<u32>>,
    pub closed: Option<Seq<u32>>,
    pub sort_groups: bool,
    pub table_of_content: bool,
}

impl SelectionView {
    /// Sum of the lengths of the explicit lists.
    pub open spec fn selected_count(self) -> nat {
        side_len(self.open) + side_len(self.closed)
    }

    /// All open groups, no closed group.
    pub open spec fn is_default_selection(self) -> bool {
        self.open is None && self.closed == Some(Seq::<u32>::empty())
    }

    /// Either an explicit, non-empty selection on both sides, or the default.
    pub open spec fn normalized(self) -> bool {
        ||| (self.open is Some && self.closed is Some && self.selected_count() > 0)
        ||| self.is_default_selection()
    }

    pub open spec fn side(self, open: bool) -> Option<Seq<u32>> {
        if open {
            self.open
        } else {
            self.closed
        }
    }

    /// Replace the two lists, given as (this side, other side).
    pub open spec fn with_sides(
        self,
        open: bool,
        mine: Option<Seq<u32>>,
        other: Option<Seq<u32>>,
    ) -> SelectionView {
        if open {
            SelectionView { open: mine, closed: other, ..self }
        } else {
            SelectionView { open: other, closed: mine, ..self }
        }
    }

    /// Whether a toggle changes the effective selection (and so the preview).
    pub open spec fn toggle_changes(self, open: bool, index: u32, select: bool) -> bool {
        if select {
            !materialized(self.side(open)).contains(index)
        } else {
            match self.side(open) {
                None => false,
                Some(s) => without(s, index).len() != s.len(),
            }
        }
    }

    /// The selection after `toggle(open, index, select)`.
    pub open spec fn toggled(self, open: bool, index: u32, select: bool) -> SelectionView {
        let mine = materialized(self.side(open));
        let other = self.side(!open);
        if select {
            let new_mine = if mine.contains(index) {
                mine
            } else {
                mine.push(index)
            };
            self.with_sides(open, Some(new_mine), Some(materialized(other)))
        } else if !self.toggle_changes(open, index, select) {
            self
        } else {
            let next = self.with_sides(open, Some(without(mine, index)), other);
            if next.selected_count() == 0 {
                SelectionView { open: None, closed: Some(Seq::empty()), ..self }
            } else {
                next
            }
        }
    }
}

/// Which groups to export, and how.
#[derive(Debug, Clone, PartialEq, Eq)]
pub struct GenerateOptions {
    pub open_group_indexes: Option<Vec<u32>>,
    pub closed_group_indexes: Option<Vec<u32>>,
    pub sort_groups: bool,
    pub table_of_content: bool,
}

impl View for GenerateOptions {
    type V = SelectionView;

    open spec fn view(&self) -> SelectionView {
        SelectionView {
            open: side_view(self.open_group_indexes),
            closed: side_view(self.closed_group_indexes),
            sort_groups: self.sort_groups,
            table_of_content: self.table_of_content,
        }
    }
}

/// Whether `x` is in the list.
pub fn contains_index(v: &Vec<u32>, x: u32) -> (r: bool)
    ensures
        r == v@.contains(x),
{
    let mut i: usize = 0;
    while i < v.len()
        invariant
            i <= v.len(),
            forall|j: int| 0 <= j < i ==> v@[j] != x,
        decreases v.len() - i,
    {
        if v[i] == x {
            return true;
        }
        i = i + 1;
    }
    false
}

fn remove_index(v: Vec<u32>, x: u32) -> (r: Vec<u32>)
    ensures
        r@ == without(v@, x),
{
    let mut out: Vec<u32> = Vec::new();
    let mut i: usize = 0;
    while i < v.len()
        invariant
            i <= v.len(),
            out@ == without(v@.take(i as int), x),
        decreases v.len() - i,
    {
        assert(v@.take(i + 1).drop_last() =~= v@.take(i as int));
        if v[i] != x {
            out.push(v[i]);
        }
        i = i + 1;
    }
    assert(v@.take(v.len() as int) =~= v@);
    out
}

fn materialize(o: Option<Vec<u32>>) -> (r: Vec<u32>)
    ensures
        r@ == materialized(side_view(o)),
{
    match o {
        Some(v) => v,
        None => Vec::new(),
    }
}

impl GenerateOptions {
    /// Sum of the lengths of the explicit lists; a `None` side counts 0.
    pub fn selected_groups(&self) -> (r: usize)
        requires
            self@.selected_count() <= usize::MAX,
        ensures
            r == self@.selected_count(),
    {
        let a: usize = match &self.open_group_indexes {
            Some(v) => v.len(),
            None => 0,
        };
        let b: usize = match &self.closed_group_indexes {
            Some(v) => v.len(),
            None => 0,
        };
        a + b
    }

    /// Whether group `index` of the given side is explicitly selected
    /// (a side that lists nothing selects nothing explicitly).
    pub fn is_group_selected(&self, open: bool, index: u32) -> (r: bool)
        ensures
            r == (self@.side(open) matches Some(s) && s.contains(index)),
    {
        let side = if open {
            &self.open_group_indexes
        } else {
            &self.closed_group_indexes
        };
        match side {
            Some(v) => contains_index(v, index),
            None => false,
        }
    }

    /// Select or deselect group `index` of the open (`open`) or closed side.
    ///
    /// Selecting makes both lists explicit and adds the index if absent.
    /// Deselecting removes it; when nothing stays selected the default
    /// selection (all open groups) comes back. Returns whether the
    /// preview has to be regenerated.
    pub fn toggle(&mut self, open: bool, index: u32, select: bool) -> (changed: bool)
        ensures
            final(self)@ == old(self)@.toggled(open, index, select),
            changed == old(self)@.toggle_changes(open, index, select),
    {
        let ghost before = self@;
        let (mine, other) = if open {
            (self.open_group_indexes.take(), self.closed_group_indexes.take())
        } else {
            (self.closed_group_indexes.take(), self.open_group_indexes.take())
        };
        let (new_mine, new_other, changed) = if select {
            let mut m = materialize(mine);
            let o = materialize(other);
            if contains_index(&m, index) {
                (Some(m), Some(o), false)
            } else {
                m.push(index);
                (Some(m), Some(o), true)
            }
        } else {
            match mine {
                None => (None, other, false),
                Some(m) => {
                    let len = m.len();
                    let r = remove_index(m, index);
                    proof {
                        lemma_without_same_len(m@, index);
                    }
                    let changed = r.len() != len;
                    (Some(r), other, changed)
                },
            }
        };
        if open {
            self.open_group_indexes = new_mine;
            self.closed_group_indexes = new_other;
        } else {
            self.closed_group_indexes = new_mine;
            self.open_group_indexes = new_other;
        }
        assert(self@ =~= before.with_sides(open, side_view(new_mine), side_view(new_other)));
        if !select && changed {
            let empty_open = match &self.open_group_indexes {
                Some(v) => v.len() == 0,
                None => true,
            };
            let empty_closed = match &self.closed_group_indexes {
                Some(v) => v.len() == 0,
                None => true,
            };
            if empty_open && empty_closed {
                self.open_group_indexes = None;
                self.closed_group_indexes = Some(Vec::new());
            }
        }
        assert(self@ =~= before.toggled(open, index, select));
        changed
    }
}

impl Default for GenerateOptions {
    fn default() -> (r: Self)
        ensures
            r@.is_default_selection(),
            r@.sort_groups,
            r@.table_of_content,
    {
        GenerateOptions {
            open_group_indexes: None,
            closed_group_indexes: Some(Vec::new()),
            sort_groups: true,
            table_of_content: true,
        }
    }
}

/// Every toggle keeps a normalized selection normalized: either both lists
/// are explicit with at least one index between them, or the selection is
/// the default one (all open groups, no closed group).
pub proof fn lemma_toggle_keeps_normalized(s: SelectionView, open: bool, index: u32, select: bool)
    requires
        s.normalized(),
    ensures
        s.toggled(open, index, select).normalized(),
{
    let t = s.toggled(open, index, select);
    if select {
        let mine = materialized(s.side(open));
        if mine.contains(index) {
            assert(side_len(t.side(open)) > 0);
        } else {
            assert(t.side(open) == Some(mine.push(index)));
        }
    }
}

/// The default selection is normalized and counts no explicit index.
pub proof fn lemma_default_normalized(s: SelectionView)
    requires
        s.is_default_selection(),
    ensures
        s.normalized(),
        s.selected_count() == 0,
{
}

/// The selection after applying each `(open, index, select)` toggle in turn.
pub open spec fn toggled_all(s: SelectionView, ops: Seq<(bool, u32, bool)>) -> SelectionView
    decreases ops.len(),
{
    if ops.len() == 0 {
        s
    } else {
        let prev = toggled_all(s, ops.drop_last());
        prev.toggled(ops.last().0, ops.last().1, ops.last().2)
    }
}

/// Starting from a normalized selection (the default one among them), any
/// sequence of toggles ends in a normalized selection: both lists explicit
/// with at least one index between them, or the default selection.
pub proof fn lemma_toggles_keep_normalized(s: SelectionView, ops: Seq<(bool, u32, bool)>)
    requires
        s.normalized(),
    ensures
        toggled_all(s, ops).normalized(),
    decreases ops.len(),
{
    if ops.len() > 0 {
        lemma_toggles_keep_normalized(s, ops.drop_last());
        lemma_toggle_keeps_normalized(
            toggled_all(s, ops.drop_last()),
            ops.last().0,
            ops.last().1,
            ops.last().2,
        );
    }
}

} // verus!
