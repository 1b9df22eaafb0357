use clanker::walk::{plan_visit, skip_notice, EntryKind, Visit};

#[test]
fn regular_file_is_read() {
    assert_eq!(plan_visit(&EntryKind::File), Visit::Read);
}

#[test]
fn plain_directory_is_walked() {
    assert_eq!(plan_visit(&EntryKind::Directory { name: "src".to_string() }), Visit::Descend);
    assert_eq!(plan_visit(&EntryKind::Directory { name: "a.b".to_string() }), Visit::Descend);
    assert_eq!(plan_visit(&EntryKind::Directory { name: String::new() }), Visit::Descend);
}

#[test]
fn hidden_directory_is_skipped() {
    assert_eq!(plan_visit(&EntryKind::Directory { name: ".git".to_string() }), Visit::Skip);
    assert_eq!(plan_visit(&EntryKind::Directory { name: ".".to_string() }), Visit::Skip);
}

#[test]
fn other_entry_is_ignored() {
    assert_eq!(plan_visit(&EntryKind::Other), Visit::Ignore);
}

#[test]
fn skip_notice_names_the_directory() {
    assert_eq!(skip_notice("svc/.git"), "Skipping hidden directory svc/.git!");
    assert_eq!(skip_notice(""), "Skipping hidden directory !");
}
