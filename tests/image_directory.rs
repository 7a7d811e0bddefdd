use enchanted_view::image_directory::{Change, ImageDirectory, ImageEntry};

fn entry(name: &str) -> ImageEntry {
    ImageEntry { path: format!("/pictures/{name}"), name: name.to_string() }
}

fn directory(current: &str) -> ImageDirectory {
    let children = vec![entry("a.png"), entry("b.png"), entry("c.png")];
    ImageDirectory::new(children, &format!("/pictures/{current}")).unwrap()
}

#[test]
fn new_finds_current_image() {
    let d = directory("b.png");
    assert_eq!(d.image_index(), 1);
    assert_eq!(d.image_name(), "b.png");
    assert_eq!(d.count(), 3);
    assert_eq!(d.current_image_path(), "/pictures/b.png");
    assert!(ImageDirectory::new(vec![entry("a.png")], &"/pictures/x.png".to_string()).is_none());
}

#[test]
fn next_and_previous_wrap_around() {
    let mut d = directory("c.png");
    assert_eq!(d.next_image(), "/pictures/a.png");
    assert_eq!(d.image_name(), "a.png");
    assert_eq!(d.previous_image(), "/pictures/c.png");
    assert_eq!(d.previous_image(), "/pictures/b.png");
    assert_eq!(d.image_index(), 1);
}

#[test]
fn create_appends_new_file() {
    let mut d = directory("a.png");
    assert!(!d.check_for_changes(Some(Change::Create(entry("d.png")))));
    assert_eq!(d.count(), 4);
    assert!(d.check_for_changes(Some(Change::Create(entry("a.png")))));
    assert_eq!(d.count(), 4);
    assert!(!d.check_for_changes(None));
}

#[test]
fn remove_moves_position_back() {
    let mut d = directory("c.png");
    assert!(!d.check_for_changes(Some(Change::Remove("/pictures/a.png".to_string()))));
    assert_eq!(d.count(), 2);
    assert_eq!(d.image_index(), 1);
    assert_eq!(d.current_image_path(), "/pictures/c.png");
    assert!(d.check_for_changes(Some(Change::Remove("/pictures/c.png".to_string()))));
    assert_eq!(d.image_index(), 0);
    assert_eq!(d.current_image_path(), "/pictures/b.png");
    assert!(!d.check_for_changes(Some(Change::Remove("/pictures/zzz.png".to_string()))));
}

#[test]
fn remove_first_image_keeps_first_place() {
    let mut d = directory("a.png");
    assert!(d.check_for_changes(Some(Change::Remove("/pictures/a.png".to_string()))));
    assert_eq!(d.image_index(), 0);
    assert_eq!(d.current_image_path(), "/pictures/b.png");
}

#[test]
fn file_change_reloads_only_current() {
    let mut d = directory("b.png");
    assert!(d.check_for_changes(Some(Change::FileChange("/pictures/b.png".to_string()))));
    assert!(!d.check_for_changes(Some(Change::FileChange("/pictures/a.png".to_string()))));
    assert!(!d.check_for_changes(Some(Change::FileChange("/elsewhere/b.png".to_string()))));
}

#[test]
fn rename_replaces_entry() {
    let mut d = directory("b.png");
    assert!(!d.check_for_changes(Some(Change::Rename("/pictures/b.png".to_string(), entry("z.png")))));
    assert_eq!(d.image_name(), "z.png");
    assert_eq!(d.current_image_path(), "/pictures/z.png");
    assert!(!d.check_for_changes(Some(Change::Rename("/pictures/a.png".to_string(), entry("y.png")))));
    assert_eq!(d.image_name(), "z.png");
    assert_eq!(d.count(), 3);
}
