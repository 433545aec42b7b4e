use songmap::kind::SectionKind;
use songmap::Color;

const KINDS: [SectionKind; 14] = [
    SectionKind::Intro,
    SectionKind::Verse,
    SectionKind::PreChorus,
    SectionKind::Chorus,
    SectionKind::Hook,
    SectionKind::Bridge,
    SectionKind::Drop,
    SectionKind::Peak,
    SectionKind::BuildUp,
    SectionKind::Breakdown,
    SectionKind::Solo,
    SectionKind::Outro,
    SectionKind::Interlude,
    SectionKind::Custom,
];

#[test]
fn labels_are_display_names() {
    assert_eq!(SectionKind::Intro.label(), "Intro");
    assert_eq!(SectionKind::PreChorus.label(), "Pre-Chorus");
    assert_eq!(SectionKind::BuildUp.label(), "Build-up");
    assert_eq!(SectionKind::Breakdown.label(), "Breakdown");
    assert_eq!(SectionKind::Custom.label(), "Custom");
}

#[test]
fn keys_have_no_hyphen() {
    assert_eq!(SectionKind::PreChorus.to_key(), "PreChorus");
    assert_eq!(SectionKind::BuildUp.to_key(), "BuildUp");
    assert_eq!(SectionKind::Interlude.to_key(), "Interlude");
    for k in KINDS {
        assert!(!k.to_key().contains('-'));
    }
}

#[test]
fn every_key_reads_back_as_its_kind() {
    for k in KINDS {
        assert_eq!(SectionKind::from_key(k.to_key()), k);
    }
}

#[test]
fn every_label_reads_back_as_its_kind() {
    for k in KINDS {
        assert_eq!(SectionKind::from_key(k.label()), k);
    }
}

#[test]
fn peak_kind() {
    assert_eq!(SectionKind::Peak.label(), "Peak");
    assert_eq!(SectionKind::Peak.to_key(), "Peak");
    assert_eq!(SectionKind::from_key("Peak"), SectionKind::Peak);
    assert_eq!(SectionKind::Peak.color(), Color { r: 180, g: 20, b: 120, a: 255 });
    assert!(SectionKind::all().iter().any(|k| k.label() == "Peak"));
}

#[test]
fn hyphenated_labels_are_accepted_as_keys() {
    assert_eq!(SectionKind::from_key("Pre-Chorus"), SectionKind::PreChorus);
    assert_eq!(SectionKind::from_key("Build-up"), SectionKind::BuildUp);
}

#[test]
fn unknown_keys_become_custom() {
    assert_eq!(SectionKind::from_key(""), SectionKind::Custom);
    assert_eq!(SectionKind::from_key("intro"), SectionKind::Custom);
    assert_eq!(SectionKind::from_key("peak"), SectionKind::Custom);
    assert_eq!(SectionKind::from_key("Verse "), SectionKind::Custom);
    assert_eq!(SectionKind::from_key("Intr"), SectionKind::Custom);
    assert_eq!(SectionKind::from_key("Intros"), SectionKind::Custom);
    assert_eq!(SectionKind::from_key("Über"), SectionKind::Custom);
}

#[test]
fn all_lists_every_kind_once_in_order() {
    let all = SectionKind::all();
    assert_eq!(all.len(), 14);
    assert_eq!(all[7], SectionKind::Peak);
    assert_eq!(all[6], SectionKind::Drop);
    assert_eq!(all, &KINDS[..]);
}

#[test]
fn kind_colors() {
    assert_eq!(SectionKind::Intro.color(), Color { r: 100, g: 100, b: 120, a: 255 });
    assert_eq!(SectionKind::Verse.color(), Color { r: 55, g: 105, b: 175, a: 255 });
    assert_eq!(SectionKind::Chorus.color(), Color { r: 195, g: 45, b: 45, a: 255 });
    assert_eq!(SectionKind::Solo.color(), Color { r: 0, g: 180, b: 185, a: 255 });
    assert_eq!(SectionKind::Custom.color(), Color { r: 130, g: 130, b: 130, a: 255 });
}

#[test]
fn highlight_saturates() {
    let c = SectionKind::BuildUp.color().highlighted();
    assert_eq!(c, Color { r: 250, g: 140, b: 55, a: 255 });
    let c = SectionKind::Solo.color().highlighted();
    assert_eq!(c, Color { r: 40, g: 220, b: 225, a: 255 });
    let c = Color::from_rgb(216, 215, 255).highlighted();
    assert_eq!(c, Color { r: 255, g: 255, b: 255, a: 255 });
    let c = Color { r: 1, g: 2, b: 3, a: 0 }.highlighted();
    assert_eq!(c, Color { r: 41, g: 42, b: 43, a: 255 });
}
