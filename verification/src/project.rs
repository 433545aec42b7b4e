use vstd::prelude::*;
use vstd::string::*;

use crate::kind::{key_of, kind_of_key, lemma_key_round_trip, SectionKind};
use crate::section::{models, Section, SectionModel};

verus! {

broadcast use vstd::string::group_string_axioms;

/// A section as it is written in a saved project: its kind by key.
#[derive(Clone, Debug)]
pub struct SectionSave {
    pub name: String,
    pub kind: String,
    pub bars: u32,
}

/// What a saved section holds, as plain values.
pub struct SaveModel {
    pub name: Seq<char>,
    pub kind: Seq<char>,
    pub bars: u32,
}

impl View for SectionSave {
    type V = SaveModel;

    open spec fn view(&self) -> SaveModel {
        SaveModel { name: self.name@, kind: self.kind@, bars: self.bars }
    }
}

/// A saved project. The tempo is carried as the bit pattern of the
/// single-precision number that the editor uses; nothing here computes with it.
#[derive(Clone, Debug)]
pub struct SongProject {
    pub name: String,
    pub bpm_bits: u32,
    pub genre: String,
    pub sections: Vec<SectionSave>,
}

/// The saved form of a section.
pub open spec fn save_of(m: SectionModel) -> SaveModel {
    SaveModel { name: m.name, kind: key_of(m.kind), bars: m.bars }
}

/// The section that a saved section stands for; notes are not saved, so it
/// has none.
pub open spec fn section_of(m: SaveModel) -> SectionModel {
    SectionModel { name: m.name, bars: m.bars, kind: kind_of_key(m.kind), notes: Seq::empty() }
}

/// A section with its notes cleared.
pub open spec fn without_notes(m: SectionModel) -> SectionModel {
    SectionModel { notes: Seq::empty(), ..m }
}

/// The saved forms of a sequence of sections.
pub open spec fn saves_of(s: Seq<SectionModel>) -> Seq<SaveModel> {
    s.map_values(|m: SectionModel| save_of(m))
}

/// The sections that a sequence of saved sections stands for.
pub open spec fn sections_of(s: Seq<SaveModel>) -> Seq<SectionModel> {
    s.map_values(|m: SaveModel| section_of(m))
}

/// The models of a sequence of saved sections.
pub open spec fn save_models(s: Seq<SectionSave>) -> Seq<SaveModel> {
    s.map_values(|x: SectionSave| x@)
}

/// A key that some kind is written under.
pub open spec fn is_canonical_key(s: Seq<char>) -> bool {
    exists|k: SectionKind| key_of(k) == s
}

impl SongProject {
    /// The project that records the given name, tempo, genre and sections,
    /// each section under the key of its kind.
    pub fn from_parts(name: &str, bpm_bits: u32, genre: &str, sections: &[Section]) -> (p: SongProject)
        ensures
            p.name@ == name@,
            p.bpm_bits == bpm_bits,
            p.genre@ == genre@,
            save_models(p.sections@) == saves_of(models(sections@)),
            p.sections@.len() == sections@.len(),
            forall|i: int|
                #![trigger p.sections@[i]]
                0 <= i < sections@.len() ==> {
                    &&& p.sections@[i].name@ == sections@[i].name@
                    &&& p.sections@[i].bars == sections@[i].bars
                    &&& p.sections@[i].kind@ == key_of(sections@[i].kind)
                },
    {
        let n = sections.len();
        let mut saves: Vec<SectionSave> = Vec::new();
        let mut i: usize = 0;
        while i < n
            invariant
                n == sections@.len(),
                i <= n,
                saves@.len() == i,
                forall|j: int| 0 <= j < i ==> #[trigger] saves@[j]@ == save_of(sections@[j]@),
            decreases n - i,
        {
            let s = &sections[i];
            saves.push(SectionSave { name: s.name.clone(), kind: s.kind.to_key().to_string(), bars: s.bars });
            i = i + 1;
        }
        assert(save_models(saves@) =~= saves_of(models(sections@)));
        proof {
            lemma_saves_keep_fields(models(sections@));
            assert forall|i: int| #![trigger saves@[i]] 0 <= i < sections@.len() implies {
                &&& saves@[i].name@ == sections@[i].name@
                &&& saves@[i].bars == sections@[i].bars
                &&& saves@[i].kind@ == key_of(sections@[i].kind)
            } by {
                assert(save_models(saves@)[i] == saves@[i]@);
                assert(models(sections@)[i] == sections@[i]@);
            }
        }
        SongProject { name: name.to_string(), bpm_bits, genre: genre.to_string(), sections: saves }
    }

    /// The sections of the project, each kind read back from its key.
    pub fn to_sections(&self) -> (v: Vec<Section>)
        ensures
            models(v@) == sections_of(save_models(self.sections@)),
            v@.len() == self.sections@.len(),
            forall|i: int|
                #![trigger v@[i]]
                0 <= i < v@.len() ==> {
                    &&& v@[i].name@ == self.sections@[i].name@
                    &&& v@[i].bars == self.sections@[i].bars
                    &&& v@[i].kind == kind_of_key(self.sections@[i].kind@)
                    &&& v@[i].notes@ == Seq::<char>::empty()
                },
    {
        let n = self.sections.len();
        let mut out: Vec<Section> = Vec::new();
        let mut i: usize = 0;
        while i < n
            invariant
                n == self.sections@.len(),
                i <= n,
                out@.len() == i,
                forall|j: int| 0 <= j < i ==> #[trigger] out@[j]@ == section_of(self.sections@[j]@),
            decreases n - i,
        {
            let s = &self.sections[i];
            let kind = SectionKind::from_key(s.kind.as_str());
            out.push(Section { name: s.name.clone(), bars: s.bars, kind, notes: String::new() });
            i = i + 1;
        }
        assert(models(out@) =~= sections_of(save_models(self.sections@)));
        proof {
            lemma_sections_keep_fields(save_models(self.sections@));
            assert forall|i: int| #![trigger out@[i]] 0 <= i < out@.len() implies {
                &&& out@[i].name@ == self.sections@[i].name@
                &&& out@[i].bars == self.sections@[i].bars
                &&& out@[i].kind == kind_of_key(self.sections@[i].kind@)
                &&& out@[i].notes@ == Seq::<char>::empty()
            } by {
                assert(models(out@)[i] == out@[i]@);
                assert(save_models(self.sections@)[i] == self.sections@[i]@);
            }
        }
        out
    }
}

/// Writing sections keeps, one for one and in order, each section's name and
/// number of bars, and writes its kind under the kind's key.
pub proof fn lemma_saves_keep_fields(s: Seq<SectionModel>)
    ensures
        saves_of(s).len() == s.len(),
        forall|i: int|
            #![trigger saves_of(s)[i]]
            0 <= i < s.len() ==> {
                &&& saves_of(s)[i].name == s[i].name
                &&& saves_of(s)[i].bars == s[i].bars
                &&& saves_of(s)[i].kind == key_of(s[i].kind)
            },
{
}

/// Reading saved sections keeps, one for one and in order, each record's
/// name and number of bars, reads its kind from its key, and starts with no
/// notes.
pub proof fn lemma_sections_keep_fields(s: Seq<SaveModel>)
    ensures
        sections_of(s).len() == s.len(),
        forall|i: int|
            #![trigger sections_of(s)[i]]
            0 <= i < s.len() ==> {
                &&& sections_of(s)[i].name == s[i].name
                &&& sections_of(s)[i].bars == s[i].bars
                &&& sections_of(s)[i].kind == kind_of_key(s[i].kind)
                &&& sections_of(s)[i].notes == Seq::<char>::empty()
            },
{
}

/// The file name offered when a project is saved: the project's name
/// followed by `.songmap.json`.
pub fn project_file_name(name: &str) -> (f: String)
    ensures
        f@ == name@ + ".songmap.json"@,
{
    let mut f = name.to_string();
    f.append(".songmap.json");
    f
}

/// Saving sections and reading them back gives the same sections: names,
/// bars and kinds. Notes are not saved, so they come back empty; sections
/// without notes come back exactly.
pub proof fn lemma_save_load_round_trip(s: Seq<SectionModel>)
    ensures
        sections_of(saves_of(s)) == s.map_values(|m: SectionModel| without_notes(m)),
        (forall|i: int| 0 <= i < s.len() ==> #[trigger] s[i].notes == Seq::<char>::empty())
            ==> sections_of(saves_of(s)) == s,
{
    assert forall|i: int| 0 <= i < s.len() implies #[trigger] sections_of(saves_of(s))[i] == without_notes(
        s[i],
    ) by {
        lemma_key_round_trip(s[i].kind);
    }
    assert(sections_of(saves_of(s)) =~= s.map_values(|m: SectionModel| without_notes(m)));
    if forall|i: int| 0 <= i < s.len() ==> #[trigger] s[i].notes == Seq::<char>::empty() {
        assert forall|i: int| 0 <= i < s.len() implies #[trigger] sections_of(saves_of(s))[i] == s[i] by {
            assert(s[i].notes == Seq::<char>::empty());
            assert(without_notes(s[i]) == s[i]);
        }
        assert(sections_of(saves_of(s)) =~= s);
    }
}

/// Reading saved sections and saving them again gives the same saved
/// sections, when every kind is written under the key of some kind.
pub proof fn lemma_load_save_round_trip(s: Seq<SaveModel>)
    requires
        forall|i: int| 0 <= i < s.len() ==> is_canonical_key(#[trigger] s[i].kind),
    ensures
        saves_of(sections_of(s)) == s,
{
    assert forall|i: int| 0 <= i < s.len() implies #[trigger] saves_of(sections_of(s))[i] == s[i] by {
        let k = choose|k: SectionKind| key_of(k) == s[i].kind;
        lemma_key_round_trip(k);
    }
    assert(saves_of(sections_of(s)) =~= s);
}

} // verus!
