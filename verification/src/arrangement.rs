use vstd::prelude::*;

use crate::kind::SectionKind;
use crate::section::{
    bars_total, checked_total_bars, lemma_bars_total_concat, models, new_section, total_bars, Section,
    SectionModel,
};

verus! {

/// `s` with the items at `i` and `j` exchanged.
pub open spec fn swapped<A>(s: Seq<A>, i: int, j: int) -> Seq<A> {
    s.update(i, s[j]).update(j, s[i])
}

/// A request from the section list: select, move one place earlier, move
/// one place later, or delete the section at an index.
#[derive(Clone, Copy, Debug, PartialEq, Eq, Structural)]
pub enum SectionOp {
    Select(usize),
    MoveUp(usize),
    MoveDown(usize),
    Remove(usize),
}

/// The index that an operation names.
pub open spec fn op_index(op: SectionOp) -> usize {
    match op {
        SectionOp::Select(i) => i,
        SectionOp::MoveUp(i) => i,
        SectionOp::MoveDown(i) => i,
        SectionOp::Remove(i) => i,
    }
}

/// Whether an operation can be carried out on a list of `len` sections: a
/// section can move up when one stands before it, down when one stands after
/// it, and can be removed when it exists. Selection is always possible.
pub open spec fn op_fits(op: SectionOp, len: nat) -> bool {
    match op {
        SectionOp::Select(_) => true,
        SectionOp::MoveUp(i) => 0 < i < len,
        SectionOp::MoveDown(i) => i + 1 < len,
        SectionOp::Remove(i) => i < len,
    }
}

/// The selection after toggling index `i`.
pub open spec fn toggled(sel: Option<usize>, i: usize) -> Option<usize> {
    if sel == Some(i) {
        None
    } else {
        Some(i)
    }
}

/// The selection after the section at `from` moved to `to`: it follows the
/// moved section, and stays as it was otherwise.
pub open spec fn followed(sel: Option<usize>, from: usize, to: usize) -> Option<usize> {
    if sel == Some(from) {
        Some(to)
    } else {
        sel
    }
}

/// The sections and selection after an operation.
pub open spec fn after_op(s: Seq<SectionModel>, sel: Option<usize>, op: SectionOp) -> (Seq<SectionModel>, Option<usize>) {
    match op {
        SectionOp::Select(i) => (s, toggled(sel, i)),
        SectionOp::MoveUp(i) => (swapped(s, i - 1, i as int), followed(sel, i, (i - 1) as usize)),
        SectionOp::MoveDown(i) => (swapped(s, i as int, i + 1), followed(sel, i, (i + 1) as usize)),
        SectionOp::Remove(i) => (s.remove(i as int), if sel == Some(i) { None } else { sel }),
    }
}

/// The length of a block resized by `delta` bars from `from` bars: the
/// sum taken as a signed 32-bit number, and never less than one bar.
pub open spec fn resized(from: u32, delta: i32) -> u32 {
    let sum = from as i32 + delta;
    if sum < 1 {
        1
    } else {
        sum as u32
    }
}

/// The length of a block resized by `delta` bars from `from` bars.
pub fn resized_bars(from: u32, delta: i32) -> (b: u32)
    requires
        i32::MIN <= from as i32 + delta <= i32::MAX,
    ensures
        b == resized(from, delta),
        b >= 1,
        from as i32 + delta >= 1 ==> b == from as i32 + delta,
        from as i32 + delta < 1 ==> b == 1,
{
    let sum = from as i32 + delta;
    if sum < 1 {
        1
    } else {
        sum as u32
    }
}

/// The sections of a song being edited, and which of them is selected.
pub struct Arrangement {
    pub sections: Vec<Section>,
    pub selected_section: Option<usize>,
}

impl Arrangement {
    /// The models of the sections.
    pub open spec fn model(&self) -> Seq<SectionModel> {
        models(self.sections@)
    }

    /// An arrangement of the given sections with nothing selected.
    pub fn new(sections: Vec<Section>) -> (a: Arrangement)
        ensures
            a.sections@ == sections@,
            a.selected_section is None,
    {
        Arrangement { sections, selected_section: None }
    }

    /// Puts new sections in place (a template, a reset or a loaded project)
    /// and clears the selection.
    pub fn replace_sections(&mut self, sections: Vec<Section>)
        ensures
            final(self).sections@ == sections@,
            final(self).selected_section is None,
    {
        self.sections = sections;
        self.selected_section = None;
    }

    /// Selects section `i`, or clears the selection when `i` was selected.
    pub fn toggle_selection(&mut self, i: usize)
        ensures
            final(self).sections@ == old(self).sections@,
            final(self).selected_section == toggled(old(self).selected_section, i),
            old(self).selected_section != Some(i) ==> final(self).selected_section == Some(i),
            old(self).selected_section == Some(i) ==> final(self).selected_section is None,
    {
        self.selected_section = if self.selected_section == Some(i) {
            None
        } else {
            Some(i)
        };
    }

    /// Selects section `i` (a block grabbed on the timeline).
    pub fn select(&mut self, i: usize)
        ensures
            final(self).sections@ == old(self).sections@,
            final(self).selected_section == Some(i),
    {
        self.selected_section = Some(i);
    }

    /// Exchanges the sections at `i - 1` and `i`.
    fn swap_with_previous(&mut self, i: usize)
        requires
            0 < i < old(self).sections@.len(),
        ensures
            final(self).sections@ == swapped(old(self).sections@, i - 1, i as int),
            final(self).selected_section == old(self).selected_section,
    {
        let s = self.sections.remove(i);
        self.sections.insert(i - 1, s);
        assert(self.sections@ =~= swapped(old(self).sections@, i - 1, i as int));
    }

    /// Moves section `i` one place earlier; a selection on it follows it.
    pub fn move_up(&mut self, i: usize)
        requires
            0 < i < old(self).sections@.len(),
        ensures
            final(self).sections@ == swapped(old(self).sections@, i - 1, i as int),
            final(self).selected_section == followed(old(self).selected_section, i, (i - 1) as usize),
    {
        self.swap_with_previous(i);
        if self.selected_section == Some(i) {
            self.selected_section = Some(i - 1);
        }
    }

    /// Moves section `i` one place later; a selection on it follows it.
    pub fn move_down(&mut self, i: usize)
        requires
            i + 1 < old(self).sections@.len(),
        ensures
            final(self).sections@ == swapped(old(self).sections@, i as int, i + 1),
            final(self).selected_section == followed(old(self).selected_section, i, (i + 1) as usize),
    {
        let len = self.sections.len();
        assert(i + 1 < len);
        self.swap_with_previous(i + 1);
        proof {
            assert(swapped(old(self).sections@, i as int, i + 1) =~= self.sections@);
        }
        if self.selected_section == Some(i) {
            self.selected_section = Some(i + 1);
        }
    }

    /// Deletes section `i`; a selection on it is cleared, any other stays.
    pub fn remove(&mut self, i: usize)
        requires
            i < old(self).sections@.len(),
        ensures
            final(self).sections@ == old(self).sections@.remove(i as int),
            final(self).selected_section == (if old(self).selected_section == Some(i) {
                None
            } else {
                old(self).selected_section
            }),
    {
        self.sections.remove(i);
        if self.selected_section == Some(i) {
            self.selected_section = None;
        }
    }

    /// Carries out a request from the section list.
    pub fn apply(&mut self, op: SectionOp)
        requires
            op_fits(op, old(self).sections@.len()),
        ensures
            (final(self).model(), final(self).selected_section) == after_op(
                old(self).model(),
                old(self).selected_section,
                op,
            ),
    {
        match op {
            SectionOp::Select(i) => self.toggle_selection(i),
            SectionOp::MoveUp(i) => self.move_up(i),
            SectionOp::MoveDown(i) => self.move_down(i),
            SectionOp::Remove(i) => self.remove(i),
        }
        proof {
            let s = old(self).sections@;
            match op {
                SectionOp::MoveUp(i) => {
                    assert(models(swapped(s, i - 1, i as int)) =~= swapped(models(s), i - 1, i as int));
                },
                SectionOp::MoveDown(i) => {
                    assert(models(swapped(s, i as int, i + 1)) =~= swapped(models(s), i as int, i + 1));
                },
                SectionOp::Remove(i) => {
                    assert(models(s.remove(i as int)) =~= models(s).remove(i as int));
                },
                SectionOp::Select(_) => {},
            }
        }
    }

    /// Appends a new section of the given kind and length (see `new_section`).
    pub fn add_section(&mut self, kind: SectionKind, bars: u32)
        ensures
            final(self).model() == old(self).model().push(new_section(kind, bars)),
            final(self).selected_section == old(self).selected_section,
    {
        let s = Section::new(kind, bars);
        self.sections.push(s);
        assert(self.model() =~= old(self).model().push(new_section(kind, bars)));
    }

    /// Replaces the notes of section `idx`.
    pub fn set_notes(&mut self, idx: usize, notes: String)
        requires
            idx < old(self).sections@.len(),
        ensures
            final(self).model() == old(self).model().update(
                idx as int,
                SectionModel { notes: notes@, ..old(self).model()[idx as int] },
            ),
            final(self).selected_section == old(self).selected_section,
    {
        let mut s = self.sections.remove(idx);
        s.notes = notes;
        self.sections.insert(idx, s);
        assert(self.model() =~= old(self).model().update(
            idx as int,
            SectionModel { notes: notes@, ..old(self).model()[idx as int] },
        ));
    }

    /// Deletes section `i` from the timeline, which clears the selection.
    pub fn delete_block(&mut self, i: usize)
        requires
            i < old(self).sections@.len(),
        ensures
            final(self).sections@ == old(self).sections@.remove(i as int),
            final(self).selected_section is None,
    {
        self.sections.remove(i);
        self.selected_section = None;
    }

    /// Drags section `cur` one place earlier on the timeline and selects it
    /// there; returns its new index.
    pub fn drag_earlier(&mut self, cur: usize) -> (to: usize)
        requires
            0 < cur < old(self).sections@.len(),
        ensures
            to == cur - 1,
            final(self).sections@ == swapped(old(self).sections@, cur - 1, cur as int),
            final(self).selected_section == Some(to),
    {
        self.swap_with_previous(cur);
        self.selected_section = Some(cur - 1);
        cur - 1
    }

    /// Drags section `cur` one place later on the timeline and selects it
    /// there; returns its new index.
    pub fn drag_later(&mut self, cur: usize) -> (to: usize)
        requires
            cur + 1 < old(self).sections@.len(),
        ensures
            to == cur + 1,
            final(self).sections@ == swapped(old(self).sections@, cur as int, cur + 1),
            final(self).selected_section == Some(to),
    {
        let len = self.sections.len();
        assert(cur + 1 < len);
        self.swap_with_previous(cur + 1);
        assert(swapped(old(self).sections@, cur as int, cur + 1) =~= self.sections@);
        self.selected_section = Some(cur + 1);
        cur + 1
    }

    /// Gives section `idx` a new length (a block resized on the timeline).
    pub fn set_bars(&mut self, idx: usize, bars: u32)
        requires
            idx < old(self).sections@.len(),
        ensures
            final(self).model() == old(self).model().update(
                idx as int,
                SectionModel { bars, ..old(self).model()[idx as int] },
            ),
            final(self).selected_section == old(self).selected_section,
    {
        let mut s = self.sections.remove(idx);
        s.bars = bars;
        self.sections.insert(idx, s);
        assert(self.model() =~= old(self).model().update(
            idx as int,
            SectionModel { bars, ..old(self).model()[idx as int] },
        ));
    }

    /// The selected section, where the selection names one that exists.
    pub fn editable_selection(&self) -> (r: Option<usize>)
        ensures
            r == (match self.selected_section {
                Some(i) => if i < self.sections@.len() {
                    Some(i)
                } else {
                    None
                },
                None => None,
            }),
    {
        match self.selected_section {
            Some(i) => if i < self.sections.len() {
                Some(i)
            } else {
                None
            },
            None => None,
        }
    }

    /// The total number of bars, or `None` where it does not fit in a `u32`.
    pub fn checked_total_bars(&self) -> (r: Option<u32>)
        ensures
            r matches Some(t) ==> t == bars_total(self.model()),
            r is None <==> bars_total(self.model()) > u32::MAX,
    {
        checked_total_bars(self.sections.as_slice())
    }

    /// The total number of bars.
    pub fn total_bars(&self) -> (t: u32)
        requires
            bars_total(self.model()) <= u32::MAX,
        ensures
            t == bars_total(self.model()),
    {
        total_bars(self.sections.as_slice())
    }
}

/// The total of a single section is its number of bars.
proof fn lemma_bars_total_single(x: SectionModel)
    ensures
        bars_total(seq![x]) == x.bars,
{
    assert(seq![x].drop_last() =~= Seq::<SectionModel>::empty());
    assert(bars_total(Seq::<SectionModel>::empty()) == 0);
}

/// Exchanging two neighbouring sections keeps the total number of bars.
pub proof fn lemma_swap_keeps_total(s: Seq<SectionModel>, i: int)
    requires
        0 <= i,
        i + 1 < s.len(),
    ensures
        bars_total(swapped(s, i, i + 1)) == bars_total(s),
{
    let p = s.subrange(0, i);
    let q = s.subrange(i + 2, s.len() as int);
    let xy = seq![s[i], s[i + 1]];
    let yx = seq![s[i + 1], s[i]];
    assert(s =~= p + xy + q);
    assert(swapped(s, i, i + 1) =~= p + yx + q);
    lemma_bars_total_concat(p + xy, q);
    lemma_bars_total_concat(p, xy);
    lemma_bars_total_concat(p + yx, q);
    lemma_bars_total_concat(p, yx);
    assert(xy.drop_last() =~= seq![s[i]]);
    assert(yx.drop_last() =~= seq![s[i + 1]]);
    lemma_bars_total_single(s[i]);
    lemma_bars_total_single(s[i + 1]);
    assert(bars_total(xy) == s[i].bars + s[i + 1].bars);
    assert(bars_total(yx) == s[i].bars + s[i + 1].bars);
}

/// Deleting a section takes its bars off the total.
pub proof fn lemma_remove_total(s: Seq<SectionModel>, i: int)
    requires
        0 <= i < s.len(),
    ensures
        bars_total(s.remove(i)) + s[i].bars == bars_total(s),
{
    let p = s.subrange(0, i);
    let q = s.subrange(i + 1, s.len() as int);
    assert(s =~= p + seq![s[i]] + q);
    assert(s.remove(i) =~= p + q);
    lemma_bars_total_concat(p + seq![s[i]], q);
    lemma_bars_total_concat(p, seq![s[i]]);
    lemma_bars_total_concat(p, q);
    lemma_bars_total_single(s[i]);
}

/// Selecting and moving keep the total number of bars and the number of
/// sections; deleting a section takes off its bars and one from the count.
pub proof fn lemma_op_totals(s: Seq<SectionModel>, sel: Option<usize>, op: SectionOp)
    requires
        op_fits(op, s.len()),
    ensures
        op is Remove ==> bars_total(after_op(s, sel, op).0) + s[op_index(op) as int].bars == bars_total(s)
            && after_op(s, sel, op).0.len() + 1 == s.len(),
        !(op is Remove) ==> bars_total(after_op(s, sel, op).0) == bars_total(s)
            && after_op(s, sel, op).0.len() == s.len(),
{
    match op {
        SectionOp::Select(_) => {},
        SectionOp::MoveUp(i) => {
            lemma_swap_keeps_total(s, i - 1);
        },
        SectionOp::MoveDown(i) => {
            lemma_swap_keeps_total(s, i as int);
        },
        SectionOp::Remove(i) => {
            lemma_remove_total(s, i as int);
        },
    }
}

/// Moving a section up and then back down restores the sections, and the
/// selection too unless it was on the section that stood just before.
pub proof fn lemma_up_then_down(s: Seq<SectionModel>, sel: Option<usize>, i: usize)
    requires
        0 < i < s.len(),
    ensures
        ({
            let up = after_op(s, sel, SectionOp::MoveUp(i));
            let back = after_op(up.0, up.1, SectionOp::MoveDown((i - 1) as usize));
            &&& back.0 == s
            &&& sel != Some((i - 1) as usize) ==> back.1 == sel
        }),
{
    let up = after_op(s, sel, SectionOp::MoveUp(i));
    assert(swapped(up.0, i - 1, i as int) =~= s);
}

/// Toggling the same index twice gives back the selection, when it was
/// empty or on that index.
pub proof fn lemma_toggle_twice(sel: Option<usize>, i: usize)
    requires
        sel is None || sel == Some(i),
    ensures
        toggled(toggled(sel, i), i) == sel,
{
}

/// A resized block is exactly `from + delta` bars (the start taken as a
/// signed 32-bit number, as it is read), or one bar where that falls below
/// one; for a start that fits in `i32`, that is the plain sum.
pub proof fn lemma_resized_exact(from: u32, delta: i32)
    requires
        i32::MIN <= from as i32 + delta <= i32::MAX,
    ensures
        from as i32 + delta >= 1 ==> resized(from, delta) == from as i32 + delta,
        from as i32 + delta < 1 ==> resized(from, delta) == 1,
        from <= i32::MAX && from + delta >= 1 ==> resized(from, delta) == from + delta,
        from <= i32::MAX && from + delta < 1 ==> resized(from, delta) == 1,
{
    if from <= i32::MAX {
        assert(from as i32 == from) by (bit_vector)
            requires
                from <= 0x7fff_ffffu32,
        ;
    }
}

/// Selecting a section that is not the selected one makes it the selection;
/// selecting the selected one clears the selection. The sections stay as
/// they are.
pub proof fn lemma_select(s: Seq<SectionModel>, sel: Option<usize>, i: usize)
    ensures
        after_op(s, sel, SectionOp::Select(i)).0 == s,
        sel != Some(i) ==> after_op(s, sel, SectionOp::Select(i)).1 == Some(i),
        sel == Some(i) ==> after_op(s, sel, SectionOp::Select(i)).1 == None::<usize>,
{
}

/// Moving section `i` up puts it at `i - 1` and the one before it at `i`,
/// leaves every other section where it was, and a selection on `i` follows it
/// to `i - 1` while any other selection stays.
pub proof fn lemma_move_up(s: Seq<SectionModel>, sel: Option<usize>, i: usize)
    requires
        0 < i < s.len(),
    ensures
        ({
            let r = after_op(s, sel, SectionOp::MoveUp(i));
            &&& r.0.len() == s.len()
            &&& r.0[i - 1] == s[i as int]
            &&& r.0[i as int] == s[i - 1]
            &&& forall|j: int| 0 <= j < s.len() && j != i && j != i - 1 ==> #[trigger] r.0[j] == s[j]
            &&& sel == Some(i) ==> r.1 == Some((i - 1) as usize)
            &&& sel != Some(i) ==> r.1 == sel
        }),
{
}

/// Moving section `i` down puts it at `i + 1` and the one after it at `i`,
/// leaves every other section where it was, and a selection on `i` follows it
/// to `i + 1` while any other selection stays.
pub proof fn lemma_move_down(s: Seq<SectionModel>, sel: Option<usize>, i: usize)
    requires
        i + 1 < s.len(),
    ensures
        ({
            let r = after_op(s, sel, SectionOp::MoveDown(i));
            &&& r.0.len() == s.len()
            &&& r.0[i + 1] == s[i as int]
            &&& r.0[i as int] == s[i + 1]
            &&& forall|j: int| 0 <= j < s.len() && j != i && j != i + 1 ==> #[trigger] r.0[j] == s[j]
            &&& sel == Some(i) ==> r.1 == Some((i + 1) as usize)
            &&& sel != Some(i) ==> r.1 == sel
        }),
{
}

/// Removing section `i` keeps the sections before it, shifts those after it
/// down by one, and clears a selection on it while any other selection stays.
pub proof fn lemma_remove(s: Seq<SectionModel>, sel: Option<usize>, i: usize)
    requires
        i < s.len(),
    ensures
        ({
            let r = after_op(s, sel, SectionOp::Remove(i));
            &&& r.0.len() + 1 == s.len()
            &&& forall|j: int| 0 <= j < i ==> #[trigger] r.0[j] == s[j]
            &&& forall|j: int| i <= j < r.0.len() ==> #[trigger] r.0[j] == s[j + 1]
            &&& sel == Some(i) ==> r.1 == None::<usize>
            &&& sel != Some(i) ==> r.1 == sel
        }),
{
}

} // verus!
