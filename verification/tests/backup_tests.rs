use server_watcher::backup::{
    backup_expired, backup_file_name, backup_schedule_tick, format_bytes,
    is_valid_backup_filename, sort_backups_desc,
};
use server_watcher::state::BackupInfo;

#[test]
fn format_bytes_plain() {
    assert_eq!(format_bytes(0), "0 B");
    assert_eq!(format_bytes(512), "512 B");
    assert_eq!(format_bytes(1023), "1023 B");
}

#[test]
fn format_bytes_kilobytes() {
    assert_eq!(format_bytes(1024), "1.00 KB");
    assert_eq!(format_bytes(1536), "1.50 KB");
    assert_eq!(format_bytes(1075), "1.05 KB");
}

#[test]
fn format_bytes_rounding_carries() {
    // 2047 B is 1.999 KB, which rounds up to the next whole value
    assert_eq!(format_bytes(2047), "2.00 KB");
}

#[test]
fn format_bytes_megabytes_and_gigabytes() {
    assert_eq!(format_bytes(1048576), "1.00 MB");
    assert_eq!(format_bytes(2621440), "2.50 MB");
    assert_eq!(format_bytes(1073741824), "1.00 GB");
    assert_eq!(format_bytes(1610612736), "1.50 GB");
}

#[test]
fn backup_file_name_shape() {
    assert_eq!(backup_file_name("20240101_120000"), "backup_20240101_120000.tar.xz");
}

#[test]
fn backup_filename_validation() {
    assert!(is_valid_backup_filename("backup_20240101_120000.tar.xz"));
    assert!(!is_valid_backup_filename("evil.tar.xz"));
    assert!(!is_valid_backup_filename("backup_something.zip"));
    assert!(!is_valid_backup_filename("../backup_x.tar.xz"));
    assert!(!is_valid_backup_filename(""));
}

#[test]
fn retention_expiry_boundary() {
    // ten days of retention: exactly ten days old is kept, one second
    // beyond is expired
    let ten_days = 10 * 86400;
    assert!(!backup_expired(ten_days, 10));
    assert!(backup_expired(ten_days + 1, 10));
    assert!(!backup_expired(0, 0));
    assert!(backup_expired(1, 0));
}

#[test]
fn schedule_tick_countdown() {
    assert_eq!(backup_schedule_tick(0, 14400), (14400, false));
    assert_eq!(backup_schedule_tick(14399, 14400), (1, false));
    assert_eq!(backup_schedule_tick(14400, 14400), (0, true));
    assert_eq!(backup_schedule_tick(20000, 14400), (0, true));
}

#[test]
fn sort_orders_newest_first() {
    let input = vec![
        BackupInfo { filename: "backup_old.tar.xz".to_string(), size_bytes: 1, created_at: 100 },
        BackupInfo { filename: "backup_new.tar.xz".to_string(), size_bytes: 2, created_at: 300 },
        BackupInfo { filename: "backup_mid.tar.xz".to_string(), size_bytes: 3, created_at: 200 },
    ];
    let sorted = sort_backups_desc(input);
    assert_eq!(sorted.len(), 3);
    assert_eq!(sorted[0].filename, "backup_new.tar.xz");
    assert_eq!(sorted[1].filename, "backup_mid.tar.xz");
    assert_eq!(sorted[2].filename, "backup_old.tar.xz");
}

#[test]
fn sort_keeps_equal_timestamps() {
    let input = vec![
        BackupInfo { filename: "backup_a.tar.xz".to_string(), size_bytes: 1, created_at: 5 },
        BackupInfo { filename: "backup_b.tar.xz".to_string(), size_bytes: 2, created_at: 5 },
        BackupInfo { filename: "backup_c.tar.xz".to_string(), size_bytes: 3, created_at: 9 },
    ];
    let sorted = sort_backups_desc(input);
    assert_eq!(sorted.len(), 3);
    assert_eq!(sorted[0].created_at, 9);
    assert_eq!(sorted[1].created_at, 5);
    assert_eq!(sorted[2].created_at, 5);
    // both equal-time records are still present
    let names: Vec<&str> = sorted.iter().map(|b| b.filename.as_str()).collect();
    assert!(names.contains(&"backup_a.tar.xz"));
    assert!(names.contains(&"backup_b.tar.xz"));
}

#[test]
fn sort_empty_listing() {
    let sorted = sort_backups_desc(vec![]);
    assert_eq!(sorted.len(), 0);
}

#[test]
fn format_bytes_largest_value() {
    assert_eq!(format_bytes(u64::MAX), "17179869184.00 GB");
}
