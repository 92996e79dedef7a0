use configurator::history::ConfigData;
use configurator::locate::{config_dir_name, config_file_name, ensure_config_file, LocateEvent, LocateState};
use configurator::store::{BoardAction, Configurator, FileContent};

fn store_in(folder: &str) -> Configurator {
    let mut store =
        Configurator::init("/cfg/config.json".to_string(), FileContent::Document(ConfigData::new()));
    store.set_working_folder(folder.to_string());
    store
}

#[test]
fn write_board_removes_old_board_files_then_writes_the_new_one() {
    let store = store_in("/work");
    let matched = vec!["/work/old.board.xml".to_string(), "/work/Other.BOARD.XML".to_string()];
    let name = "new".to_string();
    let xml = "<xml/>".to_string();
    assert_eq!(
        store.write_board(name.clone(), xml.clone(), &matched, 0),
        BoardAction::Remove("/work/old.board.xml".to_string())
    );
    assert_eq!(
        store.write_board(name.clone(), xml.clone(), &matched, 1),
        BoardAction::Remove("/work/Other.BOARD.XML".to_string())
    );
    assert_eq!(
        store.write_board(name.clone(), xml.clone(), &matched, 2),
        BoardAction::Write {
            folder: "/work".to_string(),
            file_name: "new.board.xml".to_string(),
            contents: "<xml/>".to_string(),
        }
    );
    assert_eq!(
        store.write_board(name, xml, &matched, 7),
        BoardAction::Write {
            folder: "/work".to_string(),
            file_name: "new.board.xml".to_string(),
            contents: "<xml/>".to_string(),
        }
    );
}

#[test]
fn write_board_without_old_files_writes_at_once() {
    let store = store_in("/work");
    assert_eq!(
        store.write_board("b".to_string(), "".to_string(), &vec![], 0),
        BoardAction::Write {
            folder: "/work".to_string(),
            file_name: "b.board.xml".to_string(),
            contents: "".to_string(),
        }
    );
}

#[test]
fn board_pattern_matches_board_files_in_any_case() {
    let store = store_in("/work");
    assert_eq!(store.board_pattern(), "/work/*.board.xml");
    let pattern = glob::Pattern::new(&store.board_pattern()).unwrap();
    let options = glob::MatchOptions {
        case_sensitive: false,
        require_literal_separator: true,
        require_literal_leading_dot: false,
    };
    assert!(pattern.matches_with("/work/old.board.xml", options));
    assert!(pattern.matches_with("/work/Other.BOARD.XML", options));
    assert!(!pattern.matches_with("/work/notes.xml", options));
    assert!(!pattern.matches_with("/work/sub/old.board.xml", options));
}

#[test]
fn removal_failure_message_is_exact() {
    assert_eq!(
        Configurator::removal_failure("/work/old.board.xml", "Permission denied (os error 13)"),
        "Can not delete file:/work/old.board.xml error: Permission denied (os error 13)"
    );
}

#[test]
fn names_of_directory_and_file() {
    assert_eq!(config_dir_name(), ".acrn-configurator");
    assert_eq!(config_file_name(), "config.json");
}

#[test]
fn locate_prefers_the_configuration_directory() {
    let event = LocateEvent::Bases {
        config_dir: Some("/home/u/.config".to_string()),
        home_dir: Some("/home/u".to_string()),
    };
    assert_eq!(
        ensure_config_file(LocateState::FindBase, event),
        LocateState::ProbeDir { base: "/home/u/.config".to_string() }
    );
}

#[test]
fn locate_falls_back_to_the_home_directory() {
    let event = LocateEvent::Bases { config_dir: None, home_dir: Some("/home/u".to_string()) };
    assert_eq!(
        ensure_config_file(LocateState::FindBase, event),
        LocateState::ProbeDir { base: "/home/u".to_string() }
    );
}

#[test]
fn locate_fails_without_any_base() {
    let event = LocateEvent::Bases { config_dir: None, home_dir: None };
    assert_eq!(
        ensure_config_file(LocateState::FindBase, event),
        LocateState::Unavailable { reason: "get config_dir and home_dir error!".to_string() }
    );
}

#[test]
fn locate_creates_what_is_missing() {
    let base = "/b".to_string();
    let s = ensure_config_file(LocateState::ProbeDir { base: base.clone() }, LocateEvent::Exists(false));
    assert_eq!(s, LocateState::CreateDir { base: base.clone() });
    let s = ensure_config_file(s, LocateEvent::Done(Ok(())));
    assert_eq!(s, LocateState::ProbeFile { base: base.clone() });
    let s = ensure_config_file(s, LocateEvent::Exists(false));
    assert_eq!(s, LocateState::CreateFile { base: base.clone() });
    let s = ensure_config_file(s, LocateEvent::Done(Ok(())));
    assert_eq!(s, LocateState::Located { base });
}

#[test]
fn locate_keeps_what_exists() {
    let base = "/b".to_string();
    let s = ensure_config_file(LocateState::ProbeDir { base: base.clone() }, LocateEvent::Exists(true));
    assert_eq!(s, LocateState::ProbeFile { base: base.clone() });
    let s = ensure_config_file(s, LocateEvent::Exists(true));
    assert_eq!(s, LocateState::Located { base });
}

#[test]
fn locate_gives_up_when_creating_fails() {
    let base = "/b".to_string();
    let s = ensure_config_file(
        LocateState::CreateDir { base: base.clone() },
        LocateEvent::Done(Err("denied".to_string())),
    );
    assert_eq!(s, LocateState::Unavailable { reason: "denied".to_string() });
    let s = ensure_config_file(
        LocateState::CreateFile { base },
        LocateEvent::Done(Err("full".to_string())),
    );
    assert_eq!(s, LocateState::Unavailable { reason: "full".to_string() });
}

#[test]
fn locate_ignores_an_event_that_answers_nothing() {
    let s = ensure_config_file(LocateState::FindBase, LocateEvent::Exists(true));
    assert_eq!(s, LocateState::FindBase);
    let s = ensure_config_file(LocateState::Located { base: "/b".to_string() }, LocateEvent::Exists(false));
    assert_eq!(s, LocateState::Located { base: "/b".to_string() });
    let s = ensure_config_file(
        LocateState::ProbeDir { base: "/b".to_string() },
        LocateEvent::Done(Ok(())),
    );
    assert_eq!(s, LocateState::ProbeDir { base: "/b".to_string() });
}
