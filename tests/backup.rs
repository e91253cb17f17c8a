use xkeen_ui::backup::{backup_name, backup_name_at, backup_stem, fresh_backup_name, is_taken, Timestamp};

fn ts(year: i32, month: u32, day: u32, hour: u32, minute: u32, second: u32) -> Timestamp {
    Timestamp { year, month, day, hour, minute, second }
}

#[test]
fn stem_is_core_date_and_time_to_the_second() {
    assert_eq!(backup_stem("xray", &ts(2024, 3, 7, 9, 5, 1)), "xray-20240307-090501");
    assert_eq!(backup_stem("mihomo", &ts(1999, 12, 31, 23, 59, 59)), "mihomo-19991231-235959");
    assert_eq!(backup_stem("x", &ts(42, 1, 1, 0, 0, 0)), "x-00420101-000000");
    assert_eq!(backup_stem("x", &ts(12345, 1, 1, 0, 0, 0)), "x-+123450101-000000");
    assert_eq!(backup_stem("x", &ts(-7, 1, 1, 0, 0, 0)), "x--00070101-000000");
}

#[test]
fn free_stem_is_used_as_it_is() {
    let taken = vec!["xray-20240101-000000".to_string()];
    assert_eq!(fresh_backup_name("xray-20240307-090501", &taken), "xray-20240307-090501");
}

#[test]
fn taken_stem_gets_a_counter() {
    let taken = vec!["xray-20240307-090501".to_string(), "xray-20240307-090501-1".to_string()];
    assert_eq!(fresh_backup_name("xray-20240307-090501", &taken), "xray-20240307-090501-2");
}

#[test]
fn two_backups_in_one_second_get_two_names() {
    let mut dir: Vec<String> = Vec::new();
    let first = fresh_backup_name("xray-20240307-090501", &dir);
    dir.push(first.clone());
    let second = fresh_backup_name("xray-20240307-090501", &dir);
    assert_ne!(first, second);
    assert!(is_taken(&dir, &first));
    assert!(!is_taken(&dir, &second));
}

#[test]
fn backup_name_from_the_clock_starts_with_the_core() {
    let taken = Vec::new();
    let name = backup_name("xray", 3, &taken).unwrap();
    assert!(name.starts_with("xray-"));
    assert_eq!(name.len(), "xray-20240307-090501".len());
    assert!(name[5..13].chars().all(|c| c.is_ascii_digit()));
}

#[test]
fn backup_name_uses_the_clock_shifted_by_the_offset() {
    let none: Vec<String> = Vec::new();
    assert_eq!(backup_name_at("xray", 1709802301, 3, &none).unwrap(), "xray-20240307-120501");
    assert_eq!(backup_name_at("mihomo", 1709802301, -12, &none).unwrap(), "mihomo-20240306-210501");
    let taken = vec!["xray-20240307-120501".to_string()];
    assert_eq!(backup_name_at("xray", 1709802301, 3, &taken).unwrap(), "xray-20240307-120501-1");
    assert_eq!(backup_name_at("xray", i64::MAX, 3, &none), None);
}
