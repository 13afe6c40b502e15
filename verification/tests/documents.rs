use std::path::PathBuf;

use editor_tabs::documents::DocumentSet;
use editor_tabs::error::IndexError;
use iced::widget::text_editor::{Action, Edit};

fn three_files() -> DocumentSet {
    let mut set = DocumentSet::new();
    set.insert_loaded(PathBuf::from("/tmp/a.txt"), "a", "a.txt".to_string());
    set.insert_loaded(PathBuf::from("/tmp/b.txt"), "b", "b.txt".to_string());
    set.insert_loaded(PathBuf::from("/tmp/c.txt"), "c", "c.txt".to_string());
    set
}

#[test]
fn new_set_is_empty() {
    let set = DocumentSet::new();
    assert_eq!(set.len(), 0);
    assert_eq!(set.active_index(), None);
    assert!(set.active().is_none());
    assert!(set.get(0).is_none());
    assert_eq!(set.find_by_path(&PathBuf::from("/tmp/a.txt")), None);
}

#[test]
fn insert_new_appends_and_activates() {
    let mut set = DocumentSet::new();
    assert_eq!(set.insert_new(), 0);
    assert_eq!(set.len(), 1);
    assert_eq!(set.active_index(), Some(0));
    assert_eq!(set.insert_new(), 1);
    assert_eq!(set.len(), 2);
    assert_eq!(set.active_index(), Some(1));
    let active = set.active().unwrap();
    assert!(active.is_new());
    assert!(!active.is_dirty());
    assert_eq!(active.identity_path(), None);
}

#[test]
fn insert_loaded_appends_and_activates() {
    let mut set = DocumentSet::new();
    set.insert_new();
    let index = set.insert_loaded(PathBuf::from("/tmp/a.txt"), "hello", "a.txt".to_string());
    assert_eq!(index, 1);
    assert_eq!(set.len(), 2);
    assert_eq!(set.active_index(), Some(1));
    let active = set.active().unwrap();
    assert!(!active.is_new());
    assert!(!active.is_dirty());
    assert_eq!(active.identity_path(), Some(&PathBuf::from("/tmp/a.txt")));
    assert_eq!(active.display_name(), "a.txt");
    assert_eq!(active.text(), "hello\n");
    assert!(set.get(0).unwrap().is_new());
}

#[test]
fn find_by_path_gives_the_index() {
    let set = three_files();
    assert_eq!(set.find_by_path(&PathBuf::from("/tmp/a.txt")), Some(0));
    assert_eq!(set.find_by_path(&PathBuf::from("/tmp/b.txt")), Some(1));
    assert_eq!(set.find_by_path(&PathBuf::from("/tmp/c.txt")), Some(2));
    assert_eq!(set.find_by_path(&PathBuf::from("/tmp/d.txt")), None);
}

#[test]
fn find_by_path_prefers_the_first_inserted() {
    let mut set = three_files();
    set.insert_loaded(PathBuf::from("/tmp/b.txt"), "again", "b.txt".to_string());
    assert_eq!(set.len(), 4);
    assert_eq!(set.find_by_path(&PathBuf::from("/tmp/b.txt")), Some(1));
}

#[test]
fn find_by_path_skips_documents_without_a_path() {
    let mut set = DocumentSet::new();
    set.insert_new();
    set.insert_new();
    set.insert_loaded(PathBuf::from("/tmp/a.txt"), "a", "a.txt".to_string());
    assert_eq!(set.find_by_path(&PathBuf::from("/tmp/a.txt")), Some(2));
    assert_eq!(set.find_by_path(&PathBuf::from("")), None);
}

#[test]
fn set_active_takes_a_valid_index() {
    let mut set = three_files();
    assert_eq!(set.set_active(0), Ok(()));
    assert_eq!(set.active_index(), Some(0));
    assert_eq!(set.active().unwrap().display_name(), "a.txt");
    assert_eq!(set.set_active(2), Ok(()));
    assert_eq!(set.active_index(), Some(2));
    assert_eq!(set.set_active(2), Ok(()));
    assert_eq!(set.active_index(), Some(2));
}

#[test]
fn set_active_refuses_an_index_past_the_end() {
    let mut set = three_files();
    set.set_active(1).unwrap();
    assert_eq!(set.set_active(3), Err(IndexError { index: 3, len: 3 }));
    assert_eq!(set.active_index(), Some(1));
    assert_eq!(set.set_active(usize::MAX), Err(IndexError { index: usize::MAX, len: 3 }));
    assert_eq!(set.active_index(), Some(1));
    assert_eq!(set.len(), 3);
}

#[test]
fn set_active_on_an_empty_set_fails() {
    let mut set = DocumentSet::new();
    assert_eq!(set.set_active(0), Err(IndexError { index: 0, len: 0 }));
    assert_eq!(set.active_index(), None);
}

#[test]
fn get_reads_by_index() {
    let set = three_files();
    assert_eq!(set.get(0).unwrap().display_name(), "a.txt");
    assert_eq!(set.get(2).unwrap().display_name(), "c.txt");
    assert!(set.get(3).is_none());
}

#[test]
fn apply_edit_reaches_the_active_document_only() {
    let mut set = three_files();
    set.set_active(1).unwrap();
    assert!(set.apply_edit(Action::Edit(Edit::Insert('!'))));
    assert!(!set.get(0).unwrap().is_dirty());
    assert!(set.get(1).unwrap().is_dirty());
    assert!(!set.get(2).unwrap().is_dirty());
    assert_eq!(set.get(0).unwrap().text(), "a\n");
    assert_eq!(set.get(1).unwrap().text(), "!b\n");
    assert_eq!(set.get(2).unwrap().text(), "c\n");
    assert_eq!(set.active_index(), Some(1));
    assert_eq!(set.len(), 3);
}

#[test]
fn apply_edit_without_documents_does_nothing() {
    let mut set = DocumentSet::new();
    assert!(!set.apply_edit(Action::Edit(Edit::Insert('!'))));
    assert_eq!(set.len(), 0);
    assert_eq!(set.active_index(), None);
}

#[test]
fn mark_saved_changes_the_document_at_the_index() {
    let mut set = three_files();
    set.insert_new();
    set.apply_edit(Action::Edit(Edit::Enter));
    assert_eq!(set.mark_saved(3, PathBuf::from("/home/me/d.txt")), Ok(()));
    let saved = set.get(3).unwrap();
    assert!(!saved.is_new());
    assert!(!saved.is_dirty());
    assert_eq!(saved.display_name(), "d.txt");
    assert_eq!(saved.identity_path(), Some(&PathBuf::from("/home/me/d.txt")));
    assert_eq!(set.find_by_path(&PathBuf::from("/home/me/d.txt")), Some(3));
    assert_eq!(set.get(0).unwrap().display_name(), "a.txt");
    assert_eq!(set.active_index(), Some(3));
}

#[test]
fn mark_saved_refuses_an_index_past_the_end() {
    let mut set = three_files();
    assert_eq!(
        set.mark_saved(7, PathBuf::from("/tmp/z.txt")),
        Err(IndexError { index: 7, len: 3 })
    );
    assert_eq!(set.find_by_path(&PathBuf::from("/tmp/z.txt")), None);
    assert_eq!(set.len(), 3);
}

#[test]
fn remove_before_the_active_shifts_it() {
    let mut set = three_files();
    let gone = set.remove(0).unwrap();
    assert_eq!(gone.display_name(), "a.txt");
    assert_eq!(set.len(), 2);
    assert_eq!(set.active_index(), Some(1));
    assert_eq!(set.active().unwrap().display_name(), "c.txt");
}

#[test]
fn remove_after_the_active_leaves_it() {
    let mut set = three_files();
    set.set_active(0).unwrap();
    let gone = set.remove(2).unwrap();
    assert_eq!(gone.display_name(), "c.txt");
    assert_eq!(set.active_index(), Some(0));
    assert_eq!(set.active().unwrap().display_name(), "a.txt");
}

#[test]
fn remove_the_active_moves_to_its_neighbour() {
    let mut set = three_files();
    set.set_active(1).unwrap();
    set.remove(1).unwrap();
    assert_eq!(set.active_index(), Some(1));
    assert_eq!(set.active().unwrap().display_name(), "c.txt");
    set.remove(1).unwrap();
    assert_eq!(set.active_index(), Some(0));
    assert_eq!(set.active().unwrap().display_name(), "a.txt");
}

#[test]
fn remove_the_last_document_clears_the_active_index() {
    let mut set = DocumentSet::new();
    set.insert_new();
    assert!(set.remove(0).is_ok());
    assert_eq!(set.len(), 0);
    assert_eq!(set.active_index(), None);
    assert!(set.active().is_none());
}

#[test]
fn remove_refuses_an_index_past_the_end() {
    let mut set = three_files();
    match set.remove(3) {
        Err(error) => assert_eq!(error, IndexError { index: 3, len: 3 }),
        Ok(_) => panic!("nothing is at index 3"),
    }
    assert_eq!(set.len(), 3);
    assert_eq!(set.active_index(), Some(2));
}

#[test]
fn sets_made_through_the_interface_are_well_formed() {
    let mut set = DocumentSet::new();
    assert!(set.is_well_formed());
    set.insert_new();
    assert!(set.is_well_formed());
    set.mark_saved(0, PathBuf::from("/tmp/a.txt")).unwrap();
    assert!(set.is_well_formed());
    let mut files = three_files();
    assert!(files.is_well_formed());
    files.remove(2).unwrap();
    assert!(files.is_well_formed());
    files.remove(0).unwrap();
    files.remove(0).unwrap();
    assert!(files.is_well_formed());
    assert_eq!(files.active_index(), None);
}

#[test]
fn active_mut_hands_out_the_active_document() {
    let mut set = three_files();
    set.set_active(1).unwrap();
    set.active_mut().unwrap().mark_saved(PathBuf::from("/tmp/z.txt"));
    assert_eq!(set.get(1).unwrap().display_name(), "z.txt");
    assert_eq!(set.find_by_path(&PathBuf::from("/tmp/z.txt")), Some(1));
    assert_eq!(set.find_by_path(&PathBuf::from("/tmp/b.txt")), None);
    assert_eq!(set.get(0).unwrap().display_name(), "a.txt");
    assert_eq!(set.active_index(), Some(1));
    assert!(DocumentSet::new().active_mut().is_none());
}
