use external_localhost::saves::{filter_saves, is_save_file_name, save_file_name, SaveError};

#[test]
fn keys_get_the_save_suffix() {
    assert_eq!(save_file_name("file1"), "file1.rpgsave");
    assert_eq!(save_file_name("global"), "global.rpgsave");
    assert_eq!(save_file_name(""), ".rpgsave");
}

#[test]
fn suffixed_keys_are_kept() {
    assert_eq!(save_file_name("file2.rpgsave"), "file2.rpgsave");
    assert_eq!(save_file_name(&save_file_name("config")), save_file_name("config"));
}

#[test]
fn save_records_are_recognised() {
    assert!(is_save_file_name("file1.rpgsave"));
    assert!(!is_save_file_name("file1.json"));
    assert!(!is_save_file_name(".rpgsave"));
    assert!(!is_save_file_name("notes"));
    assert!(!is_save_file_name("file1.RPGSAVE"));
}

#[test]
fn listing_after_two_writes_holds_both() {
    let entries = vec![
        "config.json".to_string(),
        save_file_name("file1"),
        "backup".to_string(),
        save_file_name("file2"),
    ];
    let listed = filter_saves(entries);
    assert_eq!(listed.len(), 2);
    assert!(listed.contains(&"file1.rpgsave".to_string()));
    assert!(listed.contains(&"file2.rpgsave".to_string()));
}

#[test]
fn error_messages() {
    assert_eq!(SaveError::NotFound.message(), "Save file not found");
    assert_eq!(SaveError::Io("disk full".to_string()).message(), "disk full");
}
