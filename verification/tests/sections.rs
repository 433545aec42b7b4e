use songmap::arrangement::{resized_bars, Arrangement, SectionOp};
use songmap::kind::SectionKind;
use songmap::project::{project_file_name, SectionSave, SongProject};
use songmap::section::{checked_total_bars, total_bars, Section};
use songmap::tips::tip_columns;
use songmap::{fmt_clock, Color};

fn sec(name: &str, bars: u32, kind: SectionKind) -> Section {
    Section { name: name.to_string(), bars, kind, notes: String::new() }
}

fn names(a: &Arrangement) -> Vec<String> {
    a.sections.iter().map(|s| s.name.clone()).collect()
}

fn sample() -> Arrangement {
    Arrangement::new(vec![
        sec("A", 8, SectionKind::Intro),
        sec("B", 16, SectionKind::Verse),
        sec("C", 8, SectionKind::Chorus),
        sec("D", 4, SectionKind::Outro),
    ])
}

#[test]
fn new_section_is_named_after_its_label() {
    let s = Section::new(SectionKind::PreChorus, 8);
    assert_eq!(s.name, "Pre-Chorus");
    assert_eq!(s.bars, 8);
    assert_eq!(s.kind, SectionKind::PreChorus);
    assert_eq!(s.color(), Color { r: 190, g: 130, b: 20, a: 255 });
    assert_eq!(s.notes, "");
}

#[test]
fn notes_are_kept_in_the_editor_but_not_saved() {
    let mut a = sample();
    a.select(1);
    a.set_notes(1, "pad + 808".to_string());
    assert_eq!(a.sections[1].notes, "pad + 808");
    assert_eq!(a.sections[1].name, "B");
    assert_eq!(a.sections[0].notes, "");
    assert_eq!(a.selected_section, Some(1));
    a.add_section(SectionKind::Peak, 8);
    assert_eq!(a.sections[4].notes, "");
    assert_eq!(a.sections[4].name, "Peak");
    let p = SongProject::from_parts("n", 0, "g", &a.sections);
    let back = p.to_sections();
    assert_eq!(back[1].name, "B");
    assert_eq!(back[1].notes, "");
}

#[test]
fn tip_layout() {
    assert_eq!(tip_columns(0), (1, 0));
    assert_eq!(tip_columns(3), (1, 3));
    assert_eq!(tip_columns(4), (2, 2));
    assert_eq!(tip_columns(5), (2, 3));
    assert_eq!(tip_columns(8), (2, 4));
}

#[test]
fn totals() {
    let a = sample();
    assert_eq!(a.total_bars(), 36);
    assert_eq!(a.checked_total_bars(), Some(36));
    assert_eq!(total_bars(&[]), 0);
    let big = vec![sec("x", u32::MAX, SectionKind::Drop), sec("y", 1, SectionKind::Drop)];
    assert_eq!(checked_total_bars(&big), None);
    let edge = vec![sec("x", u32::MAX - 1, SectionKind::Drop), sec("y", 1, SectionKind::Drop)];
    assert_eq!(checked_total_bars(&edge), Some(u32::MAX));
}

#[test]
fn select_toggles() {
    let mut a = sample();
    a.apply(SectionOp::Select(2));
    assert_eq!(a.selected_section, Some(2));
    a.apply(SectionOp::Select(1));
    assert_eq!(a.selected_section, Some(1));
    a.apply(SectionOp::Select(1));
    assert_eq!(a.selected_section, None);
    assert_eq!(names(&a), vec!["A", "B", "C", "D"]);
}

#[test]
fn move_up_and_down_carry_the_selection() {
    let mut a = sample();
    a.apply(SectionOp::Select(2));
    a.apply(SectionOp::MoveUp(2));
    assert_eq!(names(&a), vec!["A", "C", "B", "D"]);
    assert_eq!(a.selected_section, Some(1));
    a.apply(SectionOp::MoveDown(1));
    assert_eq!(names(&a), vec!["A", "B", "C", "D"]);
    assert_eq!(a.selected_section, Some(2));
    // a selection elsewhere stays where it is
    a.apply(SectionOp::MoveDown(0));
    assert_eq!(names(&a), vec!["B", "A", "C", "D"]);
    assert_eq!(a.selected_section, Some(2));
    assert_eq!(a.total_bars(), 36);
}

#[test]
fn up_then_down_when_the_previous_one_is_selected() {
    let mut a = sample();
    a.apply(SectionOp::Select(1));
    a.apply(SectionOp::MoveUp(2));
    a.apply(SectionOp::MoveDown(1));
    assert_eq!(names(&a), vec!["A", "B", "C", "D"]);
    assert_eq!(a.selected_section, Some(2));
}

#[test]
fn remove_clears_only_its_own_selection() {
    let mut a = sample();
    a.apply(SectionOp::Select(1));
    a.apply(SectionOp::Remove(1));
    assert_eq!(names(&a), vec!["A", "C", "D"]);
    assert_eq!(a.selected_section, None);
    a.apply(SectionOp::Select(2));
    a.apply(SectionOp::Remove(0));
    assert_eq!(names(&a), vec!["C", "D"]);
    assert_eq!(a.selected_section, Some(2));
    assert_eq!(a.editable_selection(), None);
    assert_eq!(a.total_bars(), 12);
}

#[test]
fn add_and_replace() {
    let mut a = sample();
    a.select(3);
    a.add_section(SectionKind::BuildUp, 16);
    assert_eq!(names(&a), vec!["A", "B", "C", "D", "Build-up"]);
    assert_eq!(a.sections[4].bars, 16);
    assert_eq!(a.selected_section, Some(3));
    assert_eq!(a.editable_selection(), Some(3));
    a.replace_sections(vec![sec("Z", 2, SectionKind::Hook)]);
    assert_eq!(names(&a), vec!["Z"]);
    assert_eq!(a.selected_section, None);
}

#[test]
fn timeline_drags() {
    let mut a = sample();
    a.select(1);
    assert_eq!(a.drag_later(1), 2);
    assert_eq!(names(&a), vec!["A", "C", "B", "D"]);
    assert_eq!(a.selected_section, Some(2));
    assert_eq!(a.drag_earlier(2), 1);
    assert_eq!(a.drag_earlier(1), 0);
    assert_eq!(names(&a), vec!["B", "A", "C", "D"]);
    assert_eq!(a.selected_section, Some(0));
    a.delete_block(0);
    assert_eq!(names(&a), vec!["A", "C", "D"]);
    assert_eq!(a.selected_section, None);
    a.toggle_selection(2);
    a.toggle_selection(2);
    assert_eq!(a.selected_section, None);
}

#[test]
fn resizing() {
    assert_eq!(resized_bars(8, 3), 11);
    assert_eq!(resized_bars(8, -7), 1);
    assert_eq!(resized_bars(8, -8), 1);
    assert_eq!(resized_bars(8, -100), 1);
    assert_eq!(resized_bars(3_000_000_000, 0), 1);
    let mut a = sample();
    a.set_bars(2, resized_bars(a.sections[2].bars, 4));
    assert_eq!(a.sections[2].bars, 12);
    assert_eq!(a.sections[2].name, "C");
    assert_eq!(a.total_bars(), 40);
}

#[test]
fn clock_text() {
    assert_eq!(fmt_clock(0, 0), "00:00");
    assert_eq!(fmt_clock(3, 7), "03:07");
    assert_eq!(fmt_clock(12, 45), "12:45");
    assert_eq!(fmt_clock(10, 9), "10:09");
    assert_eq!(fmt_clock(123, 59), "123:59");
    assert_eq!(fmt_clock(4294967295, 1), "4294967295:01");
}

#[test]
fn file_name() {
    assert_eq!(project_file_name("Mon projet"), "Mon projet.songmap.json");
    assert_eq!(project_file_name(""), ".songmap.json");
}

#[test]
fn project_round_trip() {
    let sections = vec![
        sec("Intro", 8, SectionKind::Intro),
        sec("Lift", 4, SectionKind::PreChorus),
        sec("Rise", 16, SectionKind::BuildUp),
        sec("My part", 2, SectionKind::Custom),
    ];
    let p = SongProject::from_parts("Song", 128.0f32.to_bits(), "Techno", &sections);
    assert_eq!(p.name, "Song");
    assert_eq!(f32::from_bits(p.bpm_bits), 128.0);
    assert_eq!(p.genre, "Techno");
    let kinds: Vec<&str> = p.sections.iter().map(|s| s.kind.as_str()).collect();
    assert_eq!(kinds, vec!["Intro", "PreChorus", "BuildUp", "Custom"]);
    let back = p.to_sections();
    assert_eq!(back.len(), 4);
    for (a, b) in back.iter().zip(sections.iter()) {
        assert_eq!(a.name, b.name);
        assert_eq!(a.bars, b.bars);
        assert_eq!(a.kind, b.kind);
    }
}

#[test]
fn loading_reads_keys_and_labels() {
    let p = SongProject {
        name: "x".to_string(),
        bpm_bits: 90.5f32.to_bits(),
        genre: String::new(),
        sections: vec![
            SectionSave { name: "a".to_string(), kind: "Pre-Chorus".to_string(), bars: 4 },
            SectionSave { name: "b".to_string(), kind: "Wobble".to_string(), bars: 7 },
            SectionSave { name: "c".to_string(), kind: "Drop".to_string(), bars: 32 },
        ],
    };
    let s = p.to_sections();
    assert_eq!(s[0].kind, SectionKind::PreChorus);
    assert_eq!(s[1].kind, SectionKind::Custom);
    assert_eq!(s[1].name, "b");
    assert_eq!(s[1].bars, 7);
    assert_eq!(s[2].kind, SectionKind::Drop);
    let again = SongProject::from_parts(&p.name, p.bpm_bits, &p.genre, &s);
    assert_eq!(again.sections[0].kind, "PreChorus");
    assert_eq!(again.sections[1].kind, "Custom");
    assert_eq!(again.sections[2].kind, "Drop");
}
