use vox_core::render::text::{GlyphonLabelId, LabelList};

#[test]
fn labels_get_ids_in_order() {
    let mut labels: LabelList<&str> = LabelList::new();
    assert!(labels.add_label("fps") == GlyphonLabelId(0));
    assert!(labels.add_label("position") == GlyphonLabelId(1));
    assert!(labels.add_label("chunk") == GlyphonLabelId(2));
    assert_eq!(labels.labels().len(), 3);
    assert_eq!(labels.labels()[1].1, "position");
}

#[test]
fn label_found_under_its_id() {
    let mut labels: LabelList<String> = LabelList::new();
    let first = labels.add_label(String::from("a"));
    let second = labels.add_label(String::from("b"));
    assert_eq!(labels.find(first), Some(0));
    assert_eq!(labels.find(second), Some(1));
    assert_eq!(labels.find(GlyphonLabelId(7)), None);
}

#[test]
fn label_changed_in_place_keeps_id() {
    let mut labels: LabelList<String> = LabelList::new();
    labels.add_label(String::from("a"));
    let id = labels.add_label(String::from("b"));
    let index = labels.find(id).unwrap();
    *labels.label_mut(index) = String::from("changed");
    assert!(labels.labels()[1].0 == id);
    assert_eq!(labels.labels()[1].1, "changed");
    assert_eq!(labels.labels()[0].1, "a");
    assert_eq!(labels.find(id), Some(1));
}

#[test]
fn empty_label_list_finds_nothing() {
    let labels: LabelList<u8> = LabelList::new();
    assert_eq!(labels.find(GlyphonLabelId(0)), None);
    assert!(labels.labels().is_empty());
}
