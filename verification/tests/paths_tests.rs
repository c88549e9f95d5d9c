use replay_agent::folders::detect_all_replay_folders;
use replay_agent::folders::detect_replay_folder;
use replay_agent::folders::get_folder_info;
use replay_agent::folders::pick_replay_folder;
use replay_agent::paths::detect_platform;
use replay_agent::paths::extension_of;
use replay_agent::paths::file_name_of;
use replay_agent::paths::is_replay_path;
use replay_agent::paths::truncate_path;
use replay_agent::types::Visibility;

#[test]
fn file_names_come_after_the_last_separator() {
    assert_eq!(file_name_of("/a/b/c.replay").as_deref(), Some("c.replay"));
    assert_eq!(file_name_of("C:\\games\\one.replay").as_deref(), Some("one.replay"));
    assert_eq!(file_name_of("plain.replay").as_deref(), Some("plain.replay"));
    assert_eq!(file_name_of("/a/b/"), None);
    assert_eq!(file_name_of(""), None);
}

#[test]
fn extensions_follow_the_last_dot() {
    assert_eq!(extension_of("/a/b.replay").as_deref(), Some("replay"));
    assert_eq!(extension_of("/a/b.c.replay").as_deref(), Some("replay"));
    assert_eq!(extension_of("/a/b.").as_deref(), Some(""));
    assert_eq!(extension_of("/a/.hidden"), None);
    assert_eq!(extension_of("/a/noext"), None);
    assert_eq!(extension_of("/a/.."), None);
}

#[test]
fn replay_paths_are_matched_case_insensitively() {
    assert!(is_replay_path("/r/a.replay"));
    assert!(is_replay_path("/r/a.Replay"));
    assert!(!is_replay_path("/r/a.replay.bak"));
    assert!(!is_replay_path("/r/a"));
}

#[test]
fn truncation_keeps_the_tail() {
    assert_eq!(truncate_path("short", 40), "short");
    let long = "/home/player/My Games/Rocket League/TAGame/DemosEpic/x.replay";
    let shown = truncate_path(long, 40);
    assert_eq!(shown.chars().count(), 40);
    assert!(shown.starts_with("..."));
    assert!(shown.ends_with("x.replay"));
    let tail: String = long.chars().skip(long.chars().count() - 37).collect();
    assert_eq!(shown, format!("...{}", tail));
}

#[test]
fn platform_comes_from_the_folder_name() {
    assert_eq!(detect_platform("/d/DemosEpic"), "epic");
    assert_eq!(detect_platform("/d/Demos"), "steam");
    assert_eq!(detect_platform("/somewhere/else"), "unknown");
    // the Epic folder name contains the Steam one; Epic wins
    assert_eq!(detect_platform("C:\\RL\\TAGame\\DemosEpic\\sub"), "epic");
}

#[test]
fn folder_detection_prefers_epic() {
    assert_eq!(
        pick_replay_folder(Some(String::from("/e")), Some(String::from("/s"))),
        Some(String::from("/e"))
    );
    assert_eq!(pick_replay_folder(None, Some(String::from("/s"))), Some(String::from("/s")));
    assert_eq!(pick_replay_folder(None, None), None);
    assert_eq!(detect_replay_folder(Some(String::from("/s"))), Ok(String::from("/s")));
    assert_eq!(
        detect_replay_folder(None),
        Err(String::from("Rocket League replay folder not found"))
    );
}

#[test]
fn all_folders_list_steam_first() {
    let folders = detect_all_replay_folders(Some(String::from("/s")), Some(String::from("/e")));
    assert_eq!(folders.len(), 2);
    assert_eq!(folders[0].path, "/s");
    assert_eq!(folders[0].platform, "steam");
    assert_eq!(folders[1].path, "/e");
    assert_eq!(folders[1].platform, "epic");
    assert_eq!(detect_all_replay_folders(None, None).len(), 0);
}

#[test]
fn folder_info_describes_the_configured_path() {
    let info = get_folder_info(String::from("/d/DemosEpic"), true).unwrap();
    assert_eq!(info.path, "/d/DemosEpic");
    assert_eq!(info.display_path, "/d/DemosEpic");
    assert_eq!(info.platform, "epic");
    assert!(info.exists);
    match get_folder_info(String::new(), false) {
        Err(m) => assert_eq!(m, "No replay folder configured"),
        Ok(info) => panic!("expected the not-configured condition, got {:?}", info),
    }
}

#[test]
fn visibility_wire_values() {
    assert_eq!(Visibility::Public.as_str(), "public");
    assert_eq!(Visibility::Unlisted.as_str(), "unlisted");
    assert!(matches!(Visibility::default(), Visibility::Public));
}
