use replay_agent::validate::FileMeta;
use replay_agent::validate::MAX_FILE_SIZE;
use replay_agent::validate::size_ok;
use replay_agent::validate::validate_file;
use replay_agent::validate::validate_postcheck;
use replay_agent::validate::validate_precheck;

fn meta(len: u64) -> Option<FileMeta> {
    Some(FileMeta { is_file: true, len })
}

#[test]
fn size_limit_is_strictly_greater_than() {
    // exactly 50 MiB is accepted; one byte more is rejected
    assert_eq!(MAX_FILE_SIZE, 50 * 1024 * 1024);
    assert!(size_ok(MAX_FILE_SIZE));
    assert!(!size_ok(MAX_FILE_SIZE + 1));
}

#[test]
fn oversize_file_is_rejected() {
    let path = "/r/big.replay";
    assert!(!validate_precheck(path, &meta(MAX_FILE_SIZE + 1)));
    assert!(validate_precheck(path, &meta(MAX_FILE_SIZE)));
}

#[test]
fn extension_is_case_insensitive() {
    let m = meta(100);
    assert!(validate_precheck("/r/a.replay", &m));
    assert!(validate_precheck("/r/a.REPLAY", &m));
    assert!(validate_precheck("/r/a.RePlAy", &m));
    assert!(validate_precheck("C:\\Replays\\a.Replay", &m));
}

#[test]
fn wrong_extension_is_rejected() {
    let m = meta(100);
    assert!(!validate_precheck("/r/a.mp4", &m));
    assert!(!validate_precheck("/r/areplay", &m));
    assert!(!validate_precheck("/r/.replay", &m));
    assert!(!validate_precheck("/r/replay", &m));
    assert!(!validate_precheck("/r/a.replays", &m));
}

#[test]
fn directories_and_missing_files_are_rejected() {
    assert!(!validate_precheck("/r/a.replay", &Some(FileMeta { is_file: false, len: 100 })));
    assert!(!validate_precheck("/r/a.replay", &None));
}

#[test]
fn vanished_or_empty_after_settle_delay_is_rejected() {
    assert!(!validate_postcheck(false, &meta(100)));
    assert!(!validate_postcheck(true, &meta(0)));
    assert!(!validate_postcheck(true, &None));
    assert!(validate_postcheck(true, &meta(100)));
}

#[test]
fn full_validation_returns_the_path() {
    let path = "/r/season-finale.replay";
    let validated = validate_file(path, &meta(2048), true, &meta(2048));
    assert_eq!(validated.as_deref(), Some(path));
    assert_eq!(validate_file(path, &meta(2048), false, &meta(2048)), None);
    assert_eq!(validate_file(path, &meta(2048), true, &meta(0)), None);
    assert_eq!(validate_file("/r/x.txt", &meta(2048), true, &meta(2048)), None);
}
