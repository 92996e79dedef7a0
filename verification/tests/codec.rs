use configurator::codec::{document_text, text_or_empty_list};
use configurator::history::{ConfigData, History};

fn list_at(value: &serde_json::Value, field: &str) -> Vec<String> {
    value["history"][field]
        .as_array()
        .unwrap()
        .iter()
        .map(|item| item.as_str().unwrap().to_string())
        .collect()
}

#[test]
fn empty_document_text_is_exact() {
    assert_eq!(
        ConfigData::new().serialize(),
        "{\"history\":{\"working_folder\":[],\"board_file\":[],\"scenario_file\":[]}}"
    );
}

#[test]
fn document_text_frames_the_three_lists() {
    assert_eq!(
        document_text("[1]", "[2]", "[3]"),
        "{\"history\":{\"working_folder\":[1],\"board_file\":[2],\"scenario_file\":[3]}}"
    );
}

#[test]
fn serialize_escapes_as_json_does() {
    let data = ConfigData {
        history: History {
            working_folder: vec!["C:\\dir\\a \"b\"".to_string()],
            board_file: vec!["/tmp/\u{e9}.xml".to_string(), "line\nbreak".to_string()],
            scenario_file: vec![],
        },
    };
    assert_eq!(
        data.serialize(),
        "{\"history\":{\"working_folder\":[\"C:\\\\dir\\\\a \\\"b\\\"\"],\"board_file\":[\"/tmp/\u{e9}.xml\",\"line\\nbreak\"],\"scenario_file\":[]}}"
    );
}

#[test]
fn serialized_document_parses_back_to_the_same_lists() {
    let data = ConfigData {
        history: History {
            working_folder: vec!["/w1".to_string(), "/w 2".to_string(), "".to_string()],
            board_file: vec!["/b\t\"q\"\\".to_string()],
            scenario_file: vec!["/s/\u{4e2d}\u{6587}.xml".to_string(), "{}".to_string()],
        },
    };
    let value: serde_json::Value = serde_json::from_str(&data.serialize()).unwrap();
    let back = ConfigData {
        history: History {
            working_folder: list_at(&value, "working_folder"),
            board_file: list_at(&value, "board_file"),
            scenario_file: list_at(&value, "scenario_file"),
        },
    };
    assert_eq!(back, data);
    assert_eq!(value.as_object().unwrap().len(), 1);
    assert_eq!(value["history"].as_object().unwrap().len(), 3);
}

#[test]
fn failed_encoding_gives_the_empty_list() {
    let error = serde_json::from_str::<serde_json::Value>("{").unwrap_err();
    assert_eq!(text_or_empty_list(Err(error)), "[]");
    assert_eq!(text_or_empty_list(Ok("[\"a\"]".to_string())), "[\"a\"]");
}
