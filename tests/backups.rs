use tes3conv::backup::{backup_path, find_backup_slot, first_free_slot, BACKUP_SLOTS};
use tes3conv::format::ConvertError;

#[test]
fn backup_names_are_zero_padded() {
    assert_eq!(backup_path("data.json", 0), "data.000.json");
    assert_eq!(backup_path("data.json", 3), "data.003.json");
    assert_eq!(backup_path("dir/Plugin.ESP", 42), "dir/Plugin.042.esp");
    assert_eq!(backup_path("data.json", 999), "data.999.json");
}

#[test]
fn lowest_free_slot_is_picked() {
    let taken = vec![true, true, false, false];
    assert_eq!(first_free_slot(&taken), Ok(2));
    assert_eq!(backup_path("data.json", 2), "data.002.json");
    assert_eq!(first_free_slot(&vec![false, true]), Ok(0));
    assert_eq!(first_free_slot(&vec![true, false, true, false]), Ok(1));
}

#[test]
fn all_slots_taken_is_exhausted() {
    let taken = vec![true; BACKUP_SLOTS as usize];
    assert_eq!(first_free_slot(&taken), Err(ConvertError::BackupExhausted));
    let mut longer = vec![true; BACKUP_SLOTS as usize];
    longer.push(false);
    assert_eq!(first_free_slot(&longer), Err(ConvertError::BackupExhausted));
    let mut last_free = vec![true; BACKUP_SLOTS as usize];
    last_free[999] = false;
    assert_eq!(first_free_slot(&last_free), Ok(999));
    assert_eq!(first_free_slot(&Vec::new()), Err(ConvertError::BackupExhausted));
}

#[test]
fn fresh_destination_backs_up_to_slot_zero() {
    assert_eq!(
        find_backup_slot("surely_missing_dir/data.json"),
        Ok((0, "surely_missing_dir/data.000.json".to_string()))
    );
}

#[test]
fn error_messages() {
    assert_eq!(ConvertError::BackupExhausted.message(), "Failed to create backup.");
    assert_eq!(ConvertError::UnrecognizedFormat.message(), "Invalid input.");
}
