use harborz::merge::{merge_choices, merge_plan, merging_title, pinch_rows, MergeSelection};

#[test]
fn clicks_open_rows_until_merging() {
    let mut selection = MergeSelection::new();
    assert!(!selection.is_merging());
    assert!(selection.click(3, true));
    assert!(!selection.click(3, false));
    assert_eq!(selection.count(), 0);
    assert!(selection.start());
    assert!(!selection.start());
    assert!(!selection.click(3, true));
    assert!(selection.is_selected(3));
    assert!(!selection.merge_enabled());
    assert!(!selection.click(5, true));
    assert!(selection.merge_enabled());
    assert!(!selection.click(3, true));
    assert!(!selection.is_selected(3));
    assert_eq!(selection.count(), 1);
    selection.end();
    assert!(!selection.is_merging());
    assert_eq!(selection.count(), 0);
}

#[test]
fn clicking_twice_restores_selection() {
    let mut selection = MergeSelection::new();
    selection.start();
    selection.select(1);
    selection.click(2, true);
    selection.click(2, true);
    assert!(selection.is_selected(1));
    assert!(!selection.is_selected(2));
    assert_eq!(selection.count(), 1);
}

#[test]
fn subtitles() {
    let mut selection = MergeSelection::new();
    selection.start();
    assert_eq!(selection.selected_subtitle("Artist"), "0 Artists selected");
    selection.select(4);
    assert_eq!(selection.selected_subtitle("Artist"), "1 Artist selected");
    selection.select(6);
    assert_eq!(selection.selected_subtitle("Album"), "2 Albums selected");
    assert_eq!(merging_title("Album"), "Merging Albums");
}

#[test]
fn pinch_selects_top_and_bottom_rows() {
    assert_eq!(pinch_rows(&vec![false, true, false, false], &vec![true, false, false, true]), (Some(1), Some(3)));
    assert_eq!(pinch_rows(&vec![false, false], &vec![true, true]), (None, None));
    assert_eq!(pinch_rows(&vec![true, true], &vec![false, false]), (Some(0), None));
    let mut selection = MergeSelection::new();
    selection.pinch(&vec![false, true, false, false], &vec![true, false, false, true]);
    assert!(selection.is_merging());
    assert!(selection.is_selected(1));
    assert!(!selection.is_selected(2));
    assert!(selection.is_selected(3));
    assert_eq!(selection.count(), 2);
}

#[test]
fn merge_plan_renames_others() {
    let keys = vec![Some(String::from("Opeth")), None, Some(String::from("opeth")), Some(String::from("OPETH"))];
    let plan = merge_plan(&keys, "Opeth");
    assert_eq!(plan.rename_from, vec![String::from("opeth"), String::from("OPETH")]);
    assert!(plan.include_missing);
    let plan = merge_plan(&vec![Some(String::from("A")), Some(String::from("B"))], "B");
    assert_eq!(plan.rename_from, vec![String::from("A")]);
    assert!(!plan.include_missing);
    assert_eq!(merge_choices(&keys), vec![String::from("Opeth"), String::from("opeth"), String::from("OPETH")]);
}
