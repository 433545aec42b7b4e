use vstd::prelude::*;

use crate::color::Color;
use crate::text::str_eq;

verus! {

/// The kind of a song section.
#[derive(Clone, Copy, Debug, PartialEq, Eq, Structural)]
pub enum SectionKind {
    Intro,
    Verse,
    PreChorus,
    Chorus,
    Hook,
    Bridge,
    Drop,
    Peak,
    BuildUp,
    Breakdown,
    Solo,
    Outro,
    Interlude,
    Custom,
}

/// The name shown to the user for a kind.
pub open spec fn label_of(k: SectionKind) -> Seq<char> {
    match k {
        SectionKind::Intro => "Intro"@,
        SectionKind::Verse => "Verse"@,
        SectionKind::PreChorus => "Pre-Chorus"@,
        SectionKind::Chorus => "Chorus"@,
        SectionKind::Hook => "Hook"@,
        SectionKind::Bridge => "Bridge"@,
        SectionKind::Drop => "Drop"@,
        SectionKind::Peak => "Peak"@,
        SectionKind::BuildUp => "Build-up"@,
        SectionKind::Breakdown => "Breakdown"@,
        SectionKind::Solo => "Solo"@,
        SectionKind::Outro => "Outro"@,
        SectionKind::Interlude => "Interlude"@,
        SectionKind::Custom => "Custom"@,
    }
}

/// The key under which a kind is written in a saved project.
pub open spec fn key_of(k: SectionKind) -> Seq<char> {
    match k {
        SectionKind::Intro => "Intro"@,
        SectionKind::Verse => "Verse"@,
        SectionKind::PreChorus => "PreChorus"@,
        SectionKind::Chorus => "Chorus"@,
        SectionKind::Hook => "Hook"@,
        SectionKind::Bridge => "Bridge"@,
        SectionKind::Drop => "Drop"@,
        SectionKind::Peak => "Peak"@,
        SectionKind::BuildUp => "BuildUp"@,
        SectionKind::Breakdown => "Breakdown"@,
        SectionKind::Solo => "Solo"@,
        SectionKind::Outro => "Outro"@,
        SectionKind::Interlude => "Interlude"@,
        SectionKind::Custom => "Custom"@,
    }
}

/// The kind that a saved key stands for: each key names its kind, the labels
/// "Pre-Chorus" and "Build-up" are accepted too, and any other text is `Custom`.
pub open spec fn kind_of_key(s: Seq<char>) -> SectionKind {
    if s == "Intro"@ {
        SectionKind::Intro
    } else if s == "Verse"@ {
        SectionKind::Verse
    } else if s == "PreChorus"@ || s == "Pre-Chorus"@ {
        SectionKind::PreChorus
    } else if s == "Chorus"@ {
        SectionKind::Chorus
    } else if s == "Hook"@ {
        SectionKind::Hook
    } else if s == "Bridge"@ {
        SectionKind::Bridge
    } else if s == "Drop"@ {
        SectionKind::Drop
    } else if s == "Peak"@ {
        SectionKind::Peak
    } else if s == "BuildUp"@ || s == "Build-up"@ {
        SectionKind::BuildUp
    } else if s == "Breakdown"@ {
        SectionKind::Breakdown
    } else if s == "Solo"@ {
        SectionKind::Solo
    } else if s == "Outro"@ {
        SectionKind::Outro
    } else if s == "Interlude"@ {
        SectionKind::Interlude
    } else {
        SectionKind::Custom
    }
}

/// The red, green and blue channels of the colour of a kind.
pub open spec fn rgb_of(k: SectionKind) -> (u8, u8, u8) {
    match k {
        SectionKind::Intro => (100, 100, 120),
        SectionKind::Verse => (55, 105, 175),
        SectionKind::PreChorus => (190, 130, 20),
        SectionKind::Chorus => (195, 45, 45),
        SectionKind::Hook => (170, 35, 85),
        SectionKind::Bridge => (45, 140, 65),
        SectionKind::Drop => (130, 40, 195),
        SectionKind::Peak => (180, 20, 120),
        SectionKind::BuildUp => (210, 100, 15),
        SectionKind::Breakdown => (35, 85, 145),
        SectionKind::Solo => (0, 180, 185),
        SectionKind::Outro => (75, 75, 95),
        SectionKind::Interlude => (85, 145, 145),
        SectionKind::Custom => (130, 130, 130),
    }
}

/// Every kind, in the order the editor lists them.
pub open spec fn all_kinds() -> Seq<SectionKind> {
    seq![
        SectionKind::Intro,
        SectionKind::Verse,
        SectionKind::PreChorus,
        SectionKind::Chorus,
        SectionKind::Hook,
        SectionKind::Bridge,
        SectionKind::Drop,
        SectionKind::Peak,
        SectionKind::BuildUp,
        SectionKind::Breakdown,
        SectionKind::Solo,
        SectionKind::Outro,
        SectionKind::Interlude,
        SectionKind::Custom,
    ]
}

/// The key and label texts are pairwise distinct.
proof fn lemma_texts_distinct()
    ensures
        "Intro"@ != "Verse"@,
        "Intro"@ != "PreChorus"@,
        "Intro"@ != "Pre-Chorus"@,
        "Intro"@ != "Chorus"@,
        "Intro"@ != "Hook"@,
        "Intro"@ != "Bridge"@,
        "Intro"@ != "Drop"@,
        "Intro"@ != "Peak"@,
        "Intro"@ != "BuildUp"@,
        "Intro"@ != "Build-up"@,
        "Intro"@ != "Breakdown"@,
        "Intro"@ != "Solo"@,
        "Intro"@ != "Outro"@,
        "Intro"@ != "Interlude"@,
        "Intro"@ != "Custom"@,
        "Verse"@ != "PreChorus"@,
        "Verse"@ != "Pre-Chorus"@,
        "Verse"@ != "Chorus"@,
        "Verse"@ != "Hook"@,
        "Verse"@ != "Bridge"@,
        "Verse"@ != "Drop"@,
        "Verse"@ != "Peak"@,
        "Verse"@ != "BuildUp"@,
        "Verse"@ != "Build-up"@,
        "Verse"@ != "Breakdown"@,
        "Verse"@ != "Solo"@,
        "Verse"@ != "Outro"@,
        "Verse"@ != "Interlude"@,
        "Verse"@ != "Custom"@,
        "PreChorus"@ != "Pre-Chorus"@,
        "PreChorus"@ != "Chorus"@,
        "PreChorus"@ != "Hook"@,
        "PreChorus"@ != "Bridge"@,
        "PreChorus"@ != "Drop"@,
        "PreChorus"@ != "Peak"@,
        "PreChorus"@ != "BuildUp"@,
        "PreChorus"@ != "Build-up"@,
        "PreChorus"@ != "Breakdown"@,
        "PreChorus"@ != "Solo"@,
        "PreChorus"@ != "Outro"@,
        "PreChorus"@ != "Interlude"@,
        "PreChorus"@ != "Custom"@,
        "Pre-Chorus"@ != "Chorus"@,
        "Pre-Chorus"@ != "Hook"@,
        "Pre-Chorus"@ != "Bridge"@,
        "Pre-Chorus"@ != "Drop"@,
        "Pre-Chorus"@ != "Peak"@,
        "Pre-Chorus"@ != "BuildUp"@,
        "Pre-Chorus"@ != "Build-up"@,
        "Pre-Chorus"@ != "Breakdown"@,
        "Pre-Chorus"@ != "Solo"@,
        "Pre-Chorus"@ != "Outro"@,
        "Pre-Chorus"@ != "Interlude"@,
        "Pre-Chorus"@ != "Custom"@,
        "Chorus"@ != "Hook"@,
        "Chorus"@ != "Bridge"@,
        "Chorus"@ != "Drop"@,
        "Chorus"@ != "Peak"@,
        "Chorus"@ != "BuildUp"@,
        "Chorus"@ != "Build-up"@,
        "Chorus"@ != "Breakdown"@,
        "Chorus"@ != "Solo"@,
        "Chorus"@ != "Outro"@,
        "Chorus"@ != "Interlude"@,
        "Chorus"@ != "Custom"@,
        "Hook"@ != "Bridge"@,
        "Hook"@ != "Drop"@,
        "Hook"@ != "Peak"@,
        "Hook"@ != "BuildUp"@,
        "Hook"@ != "Build-up"@,
        "Hook"@ != "Breakdown"@,
        "Hook"@ != "Solo"@,
        "Hook"@ != "Outro"@,
        "Hook"@ != "Interlude"@,
        "Hook"@ != "Custom"@,
        "Bridge"@ != "Drop"@,
        "Bridge"@ != "Peak"@,
        "Bridge"@ != "BuildUp"@,
        "Bridge"@ != "Build-up"@,
        "Bridge"@ != "Breakdown"@,
        "Bridge"@ != "Solo"@,
        "Bridge"@ != "Outro"@,
        "Bridge"@ != "Interlude"@,
        "Bridge"@ != "Custom"@,
        "Drop"@ != "Peak"@,
        "Drop"@ != "BuildUp"@,
        "Drop"@ != "Build-up"@,
        "Drop"@ != "Breakdown"@,
        "Drop"@ != "Solo"@,
        "Drop"@ != "Outro"@,
        "Drop"@ != "Interlude"@,
        "Drop"@ != "Custom"@,
        "Peak"@ != "BuildUp"@,
        "Peak"@ != "Build-up"@,
        "Peak"@ != "Breakdown"@,
        "Peak"@ != "Solo"@,
        "Peak"@ != "Outro"@,
        "Peak"@ != "Interlude"@,
        "Peak"@ != "Custom"@,
        "BuildUp"@ != "Build-up"@,
        "BuildUp"@ != "Breakdown"@,
        "BuildUp"@ != "Solo"@,
        "BuildUp"@ != "Outro"@,
        "BuildUp"@ != "Interlude"@,
        "BuildUp"@ != "Custom"@,
        "Build-up"@ != "Breakdown"@,
        "Build-up"@ != "Solo"@,
        "Build-up"@ != "Outro"@,
        "Build-up"@ != "Interlude"@,
        "Build-up"@ != "Custom"@,
        "Breakdown"@ != "Solo"@,
        "Breakdown"@ != "Outro"@,
        "Breakdown"@ != "Interlude"@,
        "Breakdown"@ != "Custom"@,
        "Solo"@ != "Outro"@,
        "Solo"@ != "Interlude"@,
        "Solo"@ != "Custom"@,
        "Outro"@ != "Interlude"@,
        "Outro"@ != "Custom"@,
        "Interlude"@ != "Custom"@,
{
    reveal_strlit("Intro");
    reveal_strlit("Verse");
    reveal_strlit("PreChorus");
    reveal_strlit("Pre-Chorus");
    reveal_strlit("Chorus");
    reveal_strlit("Hook");
    reveal_strlit("Bridge");
    reveal_strlit("Drop");
    reveal_strlit("Peak");
    reveal_strlit("BuildUp");
    reveal_strlit("Build-up");
    reveal_strlit("Breakdown");
    reveal_strlit("Solo");
    reveal_strlit("Outro");
    reveal_strlit("Interlude");
    reveal_strlit("Custom");
    assert("Intro"@[0] != "Verse"@[0]);
    assert("Intro"@.len() != "PreChorus"@.len());
    assert("Intro"@.len() != "Pre-Chorus"@.len());
    assert("Intro"@.len() != "Chorus"@.len());
    assert("Intro"@.len() != "Hook"@.len());
    assert("Intro"@.len() != "Bridge"@.len());
    assert("Intro"@.len() != "Drop"@.len());
    assert("Intro"@.len() != "Peak"@.len());
    assert("Intro"@.len() != "BuildUp"@.len());
    assert("Intro"@.len() != "Build-up"@.len());
    assert("Intro"@.len() != "Breakdown"@.len());
    assert("Intro"@.len() != "Solo"@.len());
    assert("Intro"@[0] != "Outro"@[0]);
    assert("Intro"@.len() != "Interlude"@.len());
    assert("Intro"@.len() != "Custom"@.len());
    assert("Verse"@.len() != "PreChorus"@.len());
    assert("Verse"@.len() != "Pre-Chorus"@.len());
    assert("Verse"@.len() != "Chorus"@.len());
    assert("Verse"@.len() != "Hook"@.len());
    assert("Verse"@.len() != "Bridge"@.len());
    assert("Verse"@.len() != "Drop"@.len());
    assert("Verse"@.len() != "Peak"@.len());
    assert("Verse"@.len() != "BuildUp"@.len());
    assert("Verse"@.len() != "Build-up"@.len());
    assert("Verse"@.len() != "Breakdown"@.len());
    assert("Verse"@.len() != "Solo"@.len());
    assert("Verse"@[0] != "Outro"@[0]);
    assert("Verse"@.len() != "Interlude"@.len());
    assert("Verse"@.len() != "Custom"@.len());
    assert("PreChorus"@.len() != "Pre-Chorus"@.len());
    assert("PreChorus"@.len() != "Chorus"@.len());
    assert("PreChorus"@.len() != "Hook"@.len());
    assert("PreChorus"@.len() != "Bridge"@.len());
    assert("PreChorus"@.len() != "Drop"@.len());
    assert("PreChorus"@.len() != "Peak"@.len());
    assert("PreChorus"@.len() != "BuildUp"@.len());
    assert("PreChorus"@.len() != "Build-up"@.len());
    assert("PreChorus"@[0] != "Breakdown"@[0]);
    assert("PreChorus"@.len() != "Solo"@.len());
    assert("PreChorus"@.len() != "Outro"@.len());
    assert("PreChorus"@[0] != "Interlude"@[0]);
    assert("PreChorus"@.len() != "Custom"@.len());
    assert("Pre-Chorus"@.len() != "Chorus"@.len());
    assert("Pre-Chorus"@.len() != "Hook"@.len());
    assert("Pre-Chorus"@.len() != "Bridge"@.len());
    assert("Pre-Chorus"@.len() != "Drop"@.len());
    assert("Pre-Chorus"@.len() != "Peak"@.len());
    assert("Pre-Chorus"@.len() != "BuildUp"@.len());
    assert("Pre-Chorus"@.len() != "Build-up"@.len());
    assert("Pre-Chorus"@.len() != "Breakdown"@.len());
    assert("Pre-Chorus"@.len() != "Solo"@.len());
    assert("Pre-Chorus"@.len() != "Outro"@.len());
    assert("Pre-Chorus"@.len() != "Interlude"@.len());
    assert("Pre-Chorus"@.len() != "Custom"@.len());
    assert("Chorus"@.len() != "Hook"@.len());
    assert("Chorus"@[0] != "Bridge"@[0]);
    assert("Chorus"@.len() != "Drop"@.len());
    assert("Chorus"@.len() != "Peak"@.len());
    assert("Chorus"@.len() != "BuildUp"@.len());
    assert("Chorus"@.len() != "Build-up"@.len());
    assert("Chorus"@.len() != "Breakdown"@.len());
    assert("Chorus"@.len() != "Solo"@.len());
    assert("Chorus"@.len() != "Outro"@.len());
    assert("Chorus"@.len() != "Interlude"@.len());
    assert("Chorus"@[1] != "Custom"@[1]);
    assert("Hook"@.len() != "Bridge"@.len());
    assert("Hook"@[0] != "Drop"@[0]);
    assert("Hook"@[0] != "Peak"@[0]);
    assert("Hook"@.len() != "BuildUp"@.len());
    assert("Hook"@.len() != "Build-up"@.len());
    assert("Hook"@.len() != "Breakdown"@.len());
    assert("Hook"@[0] != "Solo"@[0]);
    assert("Hook"@.len() != "Outro"@.len());
    assert("Hook"@.len() != "Interlude"@.len());
    assert("Hook"@.len() != "Custom"@.len());
    assert("Bridge"@.len() != "Drop"@.len());
    assert("Bridge"@.len() != "Peak"@.len());
    assert("Bridge"@.len() != "BuildUp"@.len());
    assert("Bridge"@.len() != "Build-up"@.len());
    assert("Bridge"@.len() != "Breakdown"@.len());
    assert("Bridge"@.len() != "Solo"@.len());
    assert("Bridge"@.len() != "Outro"@.len());
    assert("Bridge"@.len() != "Interlude"@.len());
    assert("Bridge"@[0] != "Custom"@[0]);
    assert("Drop"@[0] != "Peak"@[0]);
    assert("Drop"@.len() != "BuildUp"@.len());
    assert("Drop"@.len() != "Build-up"@.len());
    assert("Drop"@.len() != "Breakdown"@.len());
    assert("Drop"@[0] != "Solo"@[0]);
    assert("Drop"@.len() != "Outro"@.len());
    assert("Drop"@.len() != "Interlude"@.len());
    assert("Drop"@.len() != "Custom"@.len());
    assert("Peak"@.len() != "BuildUp"@.len());
    assert("Peak"@.len() != "Build-up"@.len());
    assert("Peak"@.len() != "Breakdown"@.len());
    assert("Peak"@[0] != "Solo"@[0]);
    assert("Peak"@.len() != "Outro"@.len());
    assert("Peak"@.len() != "Interlude"@.len());
    assert("Peak"@.len() != "Custom"@.len());
    assert("BuildUp"@.len() != "Build-up"@.len());
    assert("BuildUp"@.len() != "Breakdown"@.len());
    assert("BuildUp"@.len() != "Solo"@.len());
    assert("BuildUp"@.len() != "Outro"@.len());
    assert("BuildUp"@.len() != "Interlude"@.len());
    assert("BuildUp"@.len() != "Custom"@.len());
    assert("Build-up"@.len() != "Breakdown"@.len());
    assert("Build-up"@.len() != "Solo"@.len());
    assert("Build-up"@.len() != "Outro"@.len());
    assert("Build-up"@.len() != "Interlude"@.len());
    assert("Build-up"@.len() != "Custom"@.len());
    assert("Breakdown"@.len() != "Solo"@.len());
    assert("Breakdown"@.len() != "Outro"@.len());
    assert("Breakdown"@[0] != "Interlude"@[0]);
    assert("Breakdown"@.len() != "Custom"@.len());
    assert("Solo"@.len() != "Outro"@.len());
    assert("Solo"@.len() != "Interlude"@.len());
    assert("Solo"@.len() != "Custom"@.len());
    assert("Outro"@.len() != "Interlude"@.len());
    assert("Outro"@.len() != "Custom"@.len());
    assert("Interlude"@.len() != "Custom"@.len());
}

/// Every kind is written under its own name: the key of a kind is the name
/// of the kind, its label is that name as shown to the user (with a hyphen in
/// "Pre-Chorus" and "Build-up"), and reading either text gives that kind back.
pub proof fn lemma_kind_names()
    ensures
        key_of(SectionKind::Intro) == "Intro"@,
        key_of(SectionKind::Verse) == "Verse"@,
        key_of(SectionKind::PreChorus) == "PreChorus"@,
        key_of(SectionKind::Chorus) == "Chorus"@,
        key_of(SectionKind::Hook) == "Hook"@,
        key_of(SectionKind::Bridge) == "Bridge"@,
        key_of(SectionKind::Drop) == "Drop"@,
        key_of(SectionKind::Peak) == "Peak"@,
        key_of(SectionKind::BuildUp) == "BuildUp"@,
        key_of(SectionKind::Breakdown) == "Breakdown"@,
        key_of(SectionKind::Solo) == "Solo"@,
        key_of(SectionKind::Outro) == "Outro"@,
        key_of(SectionKind::Interlude) == "Interlude"@,
        key_of(SectionKind::Custom) == "Custom"@,
        label_of(SectionKind::Intro) == "Intro"@,
        label_of(SectionKind::Verse) == "Verse"@,
        label_of(SectionKind::PreChorus) == "Pre-Chorus"@,
        label_of(SectionKind::Chorus) == "Chorus"@,
        label_of(SectionKind::Hook) == "Hook"@,
        label_of(SectionKind::Bridge) == "Bridge"@,
        label_of(SectionKind::Drop) == "Drop"@,
        label_of(SectionKind::Peak) == "Peak"@,
        label_of(SectionKind::BuildUp) == "Build-up"@,
        label_of(SectionKind::Breakdown) == "Breakdown"@,
        label_of(SectionKind::Solo) == "Solo"@,
        label_of(SectionKind::Outro) == "Outro"@,
        label_of(SectionKind::Interlude) == "Interlude"@,
        label_of(SectionKind::Custom) == "Custom"@,
        kind_of_key("Intro"@) == SectionKind::Intro,
        kind_of_key("Verse"@) == SectionKind::Verse,
        kind_of_key("PreChorus"@) == SectionKind::PreChorus,
        kind_of_key("Pre-Chorus"@) == SectionKind::PreChorus,
        kind_of_key("Chorus"@) == SectionKind::Chorus,
        kind_of_key("Hook"@) == SectionKind::Hook,
        kind_of_key("Bridge"@) == SectionKind::Bridge,
        kind_of_key("Drop"@) == SectionKind::Drop,
        kind_of_key("Peak"@) == SectionKind::Peak,
        kind_of_key("BuildUp"@) == SectionKind::BuildUp,
        kind_of_key("Build-up"@) == SectionKind::BuildUp,
        kind_of_key("Breakdown"@) == SectionKind::Breakdown,
        kind_of_key("Solo"@) == SectionKind::Solo,
        kind_of_key("Outro"@) == SectionKind::Outro,
        kind_of_key("Interlude"@) == SectionKind::Interlude,
        kind_of_key("Custom"@) == SectionKind::Custom,
{
    lemma_texts_distinct();
}

/// A kind's label is its key, but for the two kinds whose label is
/// hyphenated.
pub proof fn lemma_label_is_key(k: SectionKind)
    ensures
        k != SectionKind::PreChorus && k != SectionKind::BuildUp ==> label_of(k) == key_of(k),
        k == SectionKind::PreChorus ==> label_of(k) == "Pre-Chorus"@ && key_of(k) == "PreChorus"@,
        k == SectionKind::BuildUp ==> label_of(k) == "Build-up"@ && key_of(k) == "BuildUp"@,
{
}

/// The colour of each kind, and the order in which the editor lists them.
pub proof fn lemma_kind_colours_and_order()
    ensures
        rgb_of(SectionKind::Intro) == (100u8, 100u8, 120u8),
        rgb_of(SectionKind::Verse) == (55u8, 105u8, 175u8),
        rgb_of(SectionKind::PreChorus) == (190u8, 130u8, 20u8),
        rgb_of(SectionKind::Chorus) == (195u8, 45u8, 45u8),
        rgb_of(SectionKind::Hook) == (170u8, 35u8, 85u8),
        rgb_of(SectionKind::Bridge) == (45u8, 140u8, 65u8),
        rgb_of(SectionKind::Drop) == (130u8, 40u8, 195u8),
        rgb_of(SectionKind::Peak) == (180u8, 20u8, 120u8),
        rgb_of(SectionKind::BuildUp) == (210u8, 100u8, 15u8),
        rgb_of(SectionKind::Breakdown) == (35u8, 85u8, 145u8),
        rgb_of(SectionKind::Solo) == (0u8, 180u8, 185u8),
        rgb_of(SectionKind::Outro) == (75u8, 75u8, 95u8),
        rgb_of(SectionKind::Interlude) == (85u8, 145u8, 145u8),
        rgb_of(SectionKind::Custom) == (130u8, 130u8, 130u8),
        all_kinds().len() == 14,
        all_kinds()[0] == SectionKind::Intro,
        all_kinds()[1] == SectionKind::Verse,
        all_kinds()[2] == SectionKind::PreChorus,
        all_kinds()[3] == SectionKind::Chorus,
        all_kinds()[4] == SectionKind::Hook,
        all_kinds()[5] == SectionKind::Bridge,
        all_kinds()[6] == SectionKind::Drop,
        all_kinds()[7] == SectionKind::Peak,
        all_kinds()[8] == SectionKind::BuildUp,
        all_kinds()[9] == SectionKind::Breakdown,
        all_kinds()[10] == SectionKind::Solo,
        all_kinds()[11] == SectionKind::Outro,
        all_kinds()[12] == SectionKind::Interlude,
        all_kinds()[13] == SectionKind::Custom,
{
}

/// Reading back a written key gives the kind that was written: a saved
/// project keeps the kind of every section.
pub proof fn lemma_key_round_trip(k: SectionKind)
    ensures
        kind_of_key(key_of(k)) == k,
{
    lemma_texts_distinct();
}

/// A label read as a key gives its own kind.
pub proof fn lemma_label_read_as_key(k: SectionKind)
    ensures
        kind_of_key(label_of(k)) == k,
{
    lemma_texts_distinct();
}

/// Distinct kinds are written under distinct keys.
pub proof fn lemma_keys_distinct(a: SectionKind, b: SectionKind)
    ensures
        key_of(a) == key_of(b) ==> a == b,
{
    lemma_key_round_trip(a);
    lemma_key_round_trip(b);
}

/// The list of all kinds holds every kind, and each only once.
pub proof fn lemma_all_kinds_complete(k: SectionKind)
    ensures
        all_kinds().contains(k),
        all_kinds().no_duplicates(),
{
    let s = all_kinds();
    let i: int = match k {
        SectionKind::Intro => 0,
        SectionKind::Verse => 1,
        SectionKind::PreChorus => 2,
        SectionKind::Chorus => 3,
        SectionKind::Hook => 4,
        SectionKind::Bridge => 5,
        SectionKind::Drop => 6,
        SectionKind::Peak => 7,
        SectionKind::BuildUp => 8,
        SectionKind::Breakdown => 9,
        SectionKind::Solo => 10,
        SectionKind::Outro => 11,
        SectionKind::Interlude => 12,
        SectionKind::Custom => 13,
    };
    assert(s[i] == k);
}

impl SectionKind {
    /// The colour in which sections of this kind are drawn (opaque).
    pub fn color(&self) -> (c: Color)
        ensures
            c == Color::opaque(rgb_of(*self).0, rgb_of(*self).1, rgb_of(*self).2),
    {
        match self {
            SectionKind::Intro => Color::from_rgb(100, 100, 120),
            SectionKind::Verse => Color::from_rgb(55, 105, 175),
            SectionKind::PreChorus => Color::from_rgb(190, 130, 20),
            SectionKind::Chorus => Color::from_rgb(195, 45, 45),
            SectionKind::Hook => Color::from_rgb(170, 35, 85),
            SectionKind::Bridge => Color::from_rgb(45, 140, 65),
            SectionKind::Drop => Color::from_rgb(130, 40, 195),
            SectionKind::Peak => Color::from_rgb(180, 20, 120),
            SectionKind::BuildUp => Color::from_rgb(210, 100, 15),
            SectionKind::Breakdown => Color::from_rgb(35, 85, 145),
            SectionKind::Solo => Color::from_rgb(0, 180, 185),
            SectionKind::Outro => Color::from_rgb(75, 75, 95),
            SectionKind::Interlude => Color::from_rgb(85, 145, 145),
            SectionKind::Custom => Color::from_rgb(130, 130, 130),
        }
    }

    /// The name shown to the user.
    pub fn label(&self) -> (s: &'static str)
        ensures
            s@ == label_of(*self),
    {
        match self {
            SectionKind::Intro => "Intro",
            SectionKind::Verse => "Verse",
            SectionKind::PreChorus => "Pre-Chorus",
            SectionKind::Chorus => "Chorus",
            SectionKind::Hook => "Hook",
            SectionKind::Bridge => "Bridge",
            SectionKind::Drop => "Drop",
            SectionKind::Peak => "Peak",
            SectionKind::BuildUp => "Build-up",
            SectionKind::Breakdown => "Breakdown",
            SectionKind::Solo => "Solo",
            SectionKind::Outro => "Outro",
            SectionKind::Interlude => "Interlude",
            SectionKind::Custom => "Custom",
        }
    }

    /// The key used in saved projects.
    pub fn to_key(&self) -> (s: &'static str)
        ensures
            s@ == key_of(*self),
    {
        match self {
            SectionKind::Intro => "Intro",
            SectionKind::Verse => "Verse",
            SectionKind::PreChorus => "PreChorus",
            SectionKind::Chorus => "Chorus",
            SectionKind::Hook => "Hook",
            SectionKind::Bridge => "Bridge",
            SectionKind::Drop => "Drop",
            SectionKind::Peak => "Peak",
            SectionKind::BuildUp => "BuildUp",
            SectionKind::Breakdown => "Breakdown",
            SectionKind::Solo => "Solo",
            SectionKind::Outro => "Outro",
            SectionKind::Interlude => "Interlude",
            SectionKind::Custom => "Custom",
        }
    }

    /// The kind named by a saved key (see `kind_of_key`).
    pub fn from_key(s: &str) -> (k: SectionKind)
        ensures
            k == kind_of_key(s@),
    {
        if str_eq(s, "Intro") {
            SectionKind::Intro
        } else if str_eq(s, "Verse") {
            SectionKind::Verse
        } else if str_eq(s, "PreChorus") || str_eq(s, "Pre-Chorus") {
            SectionKind::PreChorus
        } else if str_eq(s, "Chorus") {
            SectionKind::Chorus
        } else if str_eq(s, "Hook") {
            SectionKind::Hook
        } else if str_eq(s, "Bridge") {
            SectionKind::Bridge
        } else if str_eq(s, "Drop") {
            SectionKind::Drop
        } else if str_eq(s, "Peak") {
            SectionKind::Peak
        } else if str_eq(s, "BuildUp") || str_eq(s, "Build-up") {
            SectionKind::BuildUp
        } else if str_eq(s, "Breakdown") {
            SectionKind::Breakdown
        } else if str_eq(s, "Solo") {
            SectionKind::Solo
        } else if str_eq(s, "Outro") {
            SectionKind::Outro
        } else if str_eq(s, "Interlude") {
            SectionKind::Interlude
        } else {
            SectionKind::Custom
        }
    }

    /// Every kind, each once, in the order the editor lists them.
    pub fn all() -> (v: &'static [SectionKind])
        ensures
            v@ == all_kinds(),
    {
        &[
            SectionKind::Intro,
            SectionKind::Verse,
            SectionKind::PreChorus,
            SectionKind::Chorus,
            SectionKind::Hook,
            SectionKind::Bridge,
            SectionKind::Drop,
            SectionKind::Peak,
            SectionKind::BuildUp,
            SectionKind::Breakdown,
            SectionKind::Solo,
            SectionKind::Outro,
            SectionKind::Interlude,
            SectionKind::Custom,
        ]
    }
}

} // verus!
