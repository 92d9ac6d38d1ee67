use egui_chip::Chip;
use egui_chip::ChipEdit;
use egui_chip::ChipEditBuilder;
use egui_chip::ChipEditError;
use egui_chip::ChipEditOutput;
use egui_chip::ChipKind;
use egui_chip::ChipSize;
use egui_chip::Color;
use egui_chip::CursorSpan;
use egui_chip::UnownedChipEdit;

fn strings(parts: &[&str]) -> Vec<String> {
    parts.iter().map(|s| s.to_string()).collect()
}

fn quiet_outputs(n: usize) -> Vec<ChipEditOutput> {
    let mut v = Vec::new();
    for _ in 0..n {
        v.push(ChipEditOutput::quiet());
    }
    v
}

fn widget(texts: &[&str]) -> ChipEdit {
    ChipEditBuilder::new(",").unwrap().texts(strings(texts)).build()
}

fn kinds(ce: &ChipEdit) -> Vec<ChipKind> {
    ce.unowned.units.iter().map(|u| u.kind).collect()
}

#[test]
fn empty_separator_is_rejected() {
    assert_eq!(ChipEditBuilder::new("").err(), Some(ChipEditError::EmptySeparator));
    assert_eq!(ChipEdit::new("").err(), Some(ChipEditError::EmptySeparator));
    assert_eq!(UnownedChipEdit::new("").err(), Some(ChipEditError::EmptySeparator));
}

#[test]
fn icon_must_be_one_character() {
    let b = ChipEditBuilder::new(",").unwrap();
    assert_eq!(b.chip_icon(Some("ab")).err(), Some(ChipEditError::InvalidIconLength));
    let b = ChipEditBuilder::new(",").unwrap();
    assert_eq!(b.chip_icon(Some("")).err(), Some(ChipEditError::InvalidIconLength));
    let b = ChipEditBuilder::new(",").unwrap();
    let built = b.chip_icon(Some("x")).unwrap().texts(strings(&["a"])).build();
    assert_eq!(built.unowned.units[1].icon, Some('x'));
    let b = ChipEditBuilder::new(",").unwrap();
    assert!(b.chip_icon(None).is_ok());
}

#[test]
fn initial_units_pattern() {
    // delimiter ",", texts ["a","b"]: Sep, Text("a"), Sep, Text("b"), Sep
    let ce = widget(&["a", "b"]);
    assert_eq!(ce.values(), strings(&["a", "b"]));
    assert_eq!(
        kinds(&ce),
        vec![
            ChipKind::Separator,
            ChipKind::Text,
            ChipKind::Separator,
            ChipKind::Text,
            ChipKind::Separator,
        ]
    );
    for s in &ce.unowned.separator_text {
        assert_eq!(s, "");
    }
}

#[test]
fn rebuild_unit_counts() {
    let ce = widget(&[]);
    assert_eq!(ce.unowned.units.len(), 1);
    assert!(matches!(ce.unowned.units[0].kind, ChipKind::Separator));
    let ce = widget(&["x"]);
    assert_eq!(ce.unowned.units.len(), 3);
    let ce = widget(&["x", "y", "z"]);
    assert_eq!(ce.unowned.units.len(), 7);
    // a separator always lies between two text chips, and at both ends
    let ks = kinds(&ce);
    assert!(matches!(ks[0], ChipKind::Separator));
    assert!(matches!(ks[ks.len() - 1], ChipKind::Separator));
    for w in ks.windows(2) {
        assert!(!(matches!(w[0], ChipKind::Text) && matches!(w[1], ChipKind::Text)));
    }
}

#[test]
fn set_text_round_trip() {
    let mut ce = widget(&["a"]);
    ce.set_text(strings(&["one", "two", "three"]));
    assert_eq!(ce.values(), strings(&["one", "two", "three"]));
    ce.set_text(strings(&[]));
    assert_eq!(ce.values(), strings(&[]));
    assert_eq!(ce.unowned.units.len(), 1);
}

#[test]
fn quiet_frame_changes_nothing() {
    let mut ce = widget(&["a", "b"]);
    let st = ce.run_frame(&quiet_outputs(5));
    assert_eq!(st.split, None);
    assert_eq!(st.merge, None);
    assert_eq!(st.delete, None);
    assert!(!st.focus_changed);
    assert_eq!(ce.values(), strings(&["a", "b"]));
    assert_eq!(ce.unowned.units.len(), 5);
    assert_eq!(ce.unowned.focused, None);
}

#[test]
fn typing_delimiter_into_leading_separator_splits() {
    // typing "," into the empty leading separator schedules a split at
    // index 0 and moves focus to 1
    let mut ce = widget(&["a", "b"]);
    ce.unowned.separator_text[0] = ",".to_string();
    let mut outputs = quiet_outputs(5);
    outputs[0].changed = true;
    outputs[0].has_focus = true;
    let st = ce.run_frame(&outputs);
    assert_eq!(st.split, Some(0));
    assert_eq!(st.focus, Some(1));
    assert_eq!(ce.unowned.focused, Some(1));
    // the typed delimiter splits into two empty fragments, which join the
    // flat list ahead of the existing chips
    assert_eq!(ce.values(), strings(&["", "", "a", "b"]));
    // focus stays inside the grown unit list
    assert!(ce.unowned.focused.unwrap() < ce.unowned.units.len());
}

#[test]
fn typing_delimiter_inside_chip_splits_it() {
    let mut ce = widget(&["ab", "c"]);
    ce.texts[0] = "a,b".to_string();
    let mut outputs = quiet_outputs(5);
    outputs[1].changed = true;
    outputs[1].has_focus = true;
    let st = ce.run_frame(&outputs);
    assert_eq!(st.split, Some(1));
    assert_eq!(st.focus, Some(1));
    assert_eq!(ce.values(), strings(&["a", "b", "c"]));
    assert_eq!(ce.unowned.units.len(), 7);
}

#[test]
fn splitting_without_delimiter_keeps_values() {
    // a changed chip whose text holds no delimiter schedules nothing, so
    // the values stay as they are
    let mut ce = widget(&["ab", "c"]);
    ce.texts[0] = "axb".to_string();
    let mut outputs = quiet_outputs(5);
    outputs[1].changed = true;
    outputs[1].has_focus = true;
    let st = ce.run_frame(&outputs);
    assert_eq!(st.split, None);
    assert_eq!(ce.values(), strings(&["axb", "c"]));
}

#[test]
fn backspace_at_chip_start_merges_left() {
    // chip at index 3 ("b") with cursor at position 0: Backspace merges
    // (1, 3) and focus lands on 1; values become ["ab"]
    let mut ce = widget(&["a", "b"]);

    // first frame: the chip gains focus with the cursor at its start
    let mut outputs = quiet_outputs(5);
    outputs[3].gained_focus = true;
    outputs[3].has_focus = true;
    outputs[3].cursor = Some(CursorSpan { start: 0, end: 0 });
    let st = ce.run_frame(&outputs);
    assert_eq!(st.focus, Some(3));
    assert_eq!(ce.unowned.focused, Some(3));
    assert!(ce.unowned.units[3].at_start());
    assert!(!ce.unowned.units[3].at_end());

    // second frame: Backspace at the start boundary
    let mut outputs = quiet_outputs(5);
    outputs[3].has_focus = true;
    outputs[3].pressed_backspace = true;
    outputs[3].cursor = Some(CursorSpan { start: 0, end: 0 });
    let st = ce.run_frame(&outputs);
    assert_eq!(st.merge, Some((1, 3)));
    assert_eq!(st.focus, Some(1));
    assert_eq!(ce.values(), strings(&["ab"]));
    assert_eq!(ce.unowned.units.len(), 3);
    assert_eq!(ce.unowned.focused, Some(1));
}

#[test]
fn delete_at_separator_drops_following_chip() {
    // focused empty separator at index 2, Delete at its end boundary:
    // delete = 3 is scheduled and the following chip's content is lost
    let mut ce = widget(&["a", "b"]);

    let mut outputs = quiet_outputs(5);
    outputs[2].gained_focus = true;
    outputs[2].has_focus = true;
    outputs[2].cursor = Some(CursorSpan { start: 0, end: 0 });
    let st = ce.run_frame(&outputs);
    assert_eq!(st.focus, Some(2));

    let mut outputs = quiet_outputs(5);
    outputs[2].has_focus = true;
    outputs[2].pressed_delete = true;
    outputs[2].cursor = Some(CursorSpan { start: 0, end: 0 });
    let st = ce.run_frame(&outputs);
    assert_eq!(st.delete, Some(3));
    assert_eq!(st.merge, None);
    assert_eq!(st.focus, Some(2));
    assert_eq!(ce.values(), strings(&["a"]));
    assert_eq!(ce.unowned.units.len(), 3);
    assert!(ce.unowned.focused.unwrap() < ce.unowned.units.len());
}

#[test]
fn arrows_move_focus_without_structure_change() {
    let mut ce = widget(&["a", "b"]);

    let mut outputs = quiet_outputs(5);
    outputs[1].gained_focus = true;
    outputs[1].has_focus = true;
    outputs[1].cursor = Some(CursorSpan { start: 1, end: 1 });
    ce.run_frame(&outputs);
    assert_eq!(ce.unowned.focused, Some(1));
    assert!(ce.unowned.units[1].at_end());

    let mut outputs = quiet_outputs(5);
    outputs[1].has_focus = true;
    outputs[1].pressed_arrow_right = true;
    outputs[1].cursor = Some(CursorSpan { start: 1, end: 1 });
    let st = ce.run_frame(&outputs);
    assert_eq!(st.focus, Some(2));
    assert_eq!(st.split, None);
    assert_eq!(st.merge, None);
    assert_eq!(st.delete, None);
    assert_eq!(ce.values(), strings(&["a", "b"]));
    assert_eq!(ce.unowned.focused, Some(2));
}

#[test]
fn lost_focus_clears_focus() {
    let mut ce = widget(&["a", "b"]);
    let mut outputs = quiet_outputs(5);
    outputs[1].gained_focus = true;
    outputs[1].has_focus = true;
    ce.run_frame(&outputs);
    assert_eq!(ce.unowned.focused, Some(1));

    let mut outputs = quiet_outputs(5);
    outputs[1].lost_focus = true;
    let st = ce.run_frame(&outputs);
    assert!(st.focus_changed);
    assert_eq!(ce.unowned.focused, None);
}

#[test]
fn unowned_variant_edits_caller_texts() {
    let mut texts = strings(&["a", "b"]);
    let mut w = ChipEditBuilder::new(",").unwrap().texts(texts.clone()).build_unowned();
    assert_eq!(w.units.len(), 5);

    let mut outputs = quiet_outputs(5);
    outputs[3].gained_focus = true;
    outputs[3].has_focus = true;
    outputs[3].cursor = Some(CursorSpan { start: 0, end: 0 });
    w.run_frame(&mut texts, &outputs);

    let mut outputs = quiet_outputs(5);
    outputs[3].has_focus = true;
    outputs[3].pressed_backspace = true;
    outputs[3].cursor = Some(CursorSpan { start: 0, end: 0 });
    let st = w.run_frame(&mut texts, &outputs);
    assert_eq!(st.merge, Some((1, 3)));
    assert_eq!(texts, strings(&["ab"]));
    assert_eq!(w.units.len(), 3);
}

#[test]
fn multichar_delimiter_split_inside_chip() {
    let mut ce = ChipEditBuilder::new(", ").unwrap().texts(strings(&["ab"])).build();
    ce.texts[0] = "a, b".to_string();
    let mut outputs = quiet_outputs(3);
    outputs[1].changed = true;
    outputs[1].has_focus = true;
    let st = ce.run_frame(&outputs);
    assert_eq!(st.split, Some(1));
    assert_eq!(st.focus, Some(1));
    assert_eq!(ce.values(), strings(&["a", "b"]));
    assert_eq!(ce.unowned.units.len(), 5);
}

#[test]
fn unowned_resyncs_through_set_text() {
    let mut w = UnownedChipEdit::new(",").unwrap();
    assert_eq!(w.units.len(), 1);
    let texts = strings(&["a", "b", "c"]);
    w.set_text(&texts);
    assert_eq!(w.texts_len, 3);
    assert_eq!(w.units.len(), 7);
}

#[test]
fn chip_constructors() {
    let sep = Chip::new_separator();
    assert!(sep.is_separator());
    assert!(sep.at_start());
    assert!(sep.at_end());
    let chip = Chip::new_chip(None, Some('x'));
    assert!(!chip.is_separator());
    assert!(!chip.at_start());
    assert!(!chip.at_end());
    assert_eq!(chip.icon, Some('x'));
}

#[test]
fn builder_styles_reach_the_chips() {
    let red = Color { r: 255, g: 0, b: 0, a: 255 };
    let green = Color { r: 0, g: 255, b: 0, a: 255 };
    let ce = ChipEditBuilder::new(",")
        .unwrap()
        .chip_colors(red, green)
        .chip_size(Some(ChipSize { width: 100, height: 50 }))
        .frame(false)
        .texts(strings(&["a"]))
        .build();
    assert_eq!(ce.unowned.units[1].bg_color, Some(red));
    assert_eq!(ce.unowned.units[1].text_color, Some(green));
    assert_eq!(ce.unowned.units[1].size, Some(ChipSize { width: 100, height: 50 }));
    assert!(!ce.unowned.frame);
}
