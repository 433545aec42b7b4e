use vstd::prelude::*;

use crate::color::Color;
use crate::kind::{label_of, rgb_of, SectionKind};

verus! {

broadcast use vstd::string::group_string_axioms;

/// A section of a song: a named run of bars of one kind.
#[derive(Clone, Debug)]
pub struct Section {
    pub name: String,
    pub bars: u32,
    pub kind: SectionKind,
    pub notes: String,
}

/// What a section holds, as plain values.
pub struct SectionModel {
    pub name: Seq<char>,
    pub bars: u32,
    pub kind: SectionKind,
    pub notes: Seq<char>,
}

impl View for Section {
    type V = SectionModel;

    open spec fn view(&self) -> SectionModel {
        SectionModel { name: self.name@, bars: self.bars, kind: self.kind, notes: self.notes@ }
    }
}

/// A new section of a kind: named after its label, with no notes.
pub open spec fn new_section(kind: SectionKind, bars: u32) -> SectionModel {
    SectionModel { name: label_of(kind), bars, kind, notes: Seq::empty() }
}

/// A new section is named after the label of its kind, has the given kind
/// and number of bars, and has no notes.
pub proof fn lemma_new_section(kind: SectionKind, bars: u32)
    ensures
        new_section(kind, bars).name == label_of(kind),
        new_section(kind, bars).kind == kind,
        new_section(kind, bars).bars == bars,
        new_section(kind, bars).notes == Seq::<char>::empty(),
{
}

/// The models of a sequence of sections.
pub open spec fn models(s: Seq<Section>) -> Seq<SectionModel> {
    s.map_values(|x: Section| x@)
}

/// The number of bars of a sequence of sections, all added up.
pub open spec fn bars_total(s: Seq<SectionModel>) -> nat
    decreases s.len(),
{
    if s.len() == 0 {
        0
    } else {
        bars_total(s.drop_last()) + s.last().bars as nat
    }
}

impl Section {
    /// A new section of `bars` bars of the given kind, named after its label,
    /// with no notes.
    pub fn new(kind: SectionKind, bars: u32) -> (s: Section)
        ensures
            s@ == new_section(kind, bars),
    {
        let name = kind.label().to_string();
        Section { name, bars, kind, notes: String::new() }
    }

    /// The colour of the section's kind.
    pub fn color(&self) -> (c: Color)
        ensures
            c == Color::opaque(rgb_of(self.kind).0, rgb_of(self.kind).1, rgb_of(self.kind).2),
    {
        self.kind.color()
    }
}

/// The total number of bars, or `None` where it does not fit in a `u32`.
pub fn checked_total_bars(sections: &[Section]) -> (r: Option<u32>)
    ensures
        r matches Some(t) ==> t == bars_total(models(sections@)),
        r is None <==> bars_total(models(sections@)) > u32::MAX,
{
    let n = sections.len();
    let mut total: u32 = 0;
    let mut i: usize = 0;
    while i < n
        invariant
            n == sections@.len(),
            i <= n,
            total == bars_total(models(sections@.subrange(0, i as int))),
        decreases n - i,
    {
        proof {
            lemma_bars_total_step(sections@, i as int);
        }
        match total.checked_add(sections[i].bars) {
            Some(t) => {
                total = t;
            },
            None => {
                proof {
                    lemma_bars_total_monotone(sections@, i + 1);
                }
                return None;
            },
        }
        i = i + 1;
    }
    assert(sections@.subrange(0, n as int) =~= sections@);
    Some(total)
}

/// The total number of bars of a list of sections.
pub fn total_bars(sections: &[Section]) -> (t: u32)
    requires
        bars_total(models(sections@)) <= u32::MAX,
    ensures
        t == bars_total(models(sections@)),
{
    match checked_total_bars(sections) {
        Some(t) => t,
        None => 0,
    }
}

/// The total of two sequences put together is the sum of their totals.
pub proof fn lemma_bars_total_concat(a: Seq<SectionModel>, b: Seq<SectionModel>)
    ensures
        bars_total(a + b) == bars_total(a) + bars_total(b),
    decreases b.len(),
{
    if b.len() == 0 {
        assert(a + b =~= a);
    } else {
        lemma_bars_total_concat(a, b.drop_last());
        assert((a + b).drop_last() =~= a + b.drop_last());
    }
}

/// Adding the next section to a prefix adds its bars to the total.
proof fn lemma_bars_total_step(s: Seq<Section>, i: int)
    requires
        0 <= i < s.len(),
    ensures
        bars_total(models(s.subrange(0, i + 1))) == bars_total(models(s.subrange(0, i))) + s[i].bars,
{
    assert(models(s.subrange(0, i + 1)).drop_last() =~= models(s.subrange(0, i)));
}

/// The total of a prefix is at most the total of the whole.
proof fn lemma_bars_total_monotone(s: Seq<Section>, i: int)
    requires
        0 <= i <= s.len(),
    ensures
        bars_total(models(s.subrange(0, i))) <= bars_total(models(s)),
    decreases s.len() - i,
{
    if i < s.len() {
        lemma_bars_total_step(s, i);
        lemma_bars_total_monotone(s, i + 1);
    } else {
        assert(s.subrange(0, i) =~= s);
    }
}

} // verus!
