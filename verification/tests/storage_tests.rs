use quanthelm::storage::{jsonl_records, JsonlStore, StorageError};

#[test]
fn store_keeps_its_path() {
    let store = JsonlStore::new("data/raw.jsonl");
    assert_eq!(store.path(), "data/raw.jsonl");
}

#[test]
fn records_come_back_in_file_order() {
    let records = jsonl_records("1\n2\n");
    assert_eq!(records, vec![(1, "1".to_owned()), (2, "2".to_owned())]);
}

#[test]
fn blank_lines_are_skipped_but_counted() {
    let records = jsonl_records("{\"a\":1}\n\n   \n{\"b\":2}\r\n\t\n{\"c\":3}");
    assert_eq!(
        records,
        vec![
            (1, "{\"a\":1}".to_owned()),
            (4, "{\"b\":2}".to_owned()),
            (6, "{\"c\":3}".to_owned()),
        ]
    );
}

#[test]
fn empty_and_blank_files_have_no_records() {
    assert!(jsonl_records("").is_empty());
    assert!(jsonl_records("\n\n \r\n").is_empty());
}

#[test]
fn lines_follow_std_semantics() {
    let content = "a\r\nb\rc\n\nd\r";
    let expected: Vec<(usize, String)> = content
        .lines()
        .enumerate()
        .filter(|(_, line)| !line.trim().is_empty())
        .map(|(i, line)| (i + 1, line.to_owned()))
        .collect();
    assert_eq!(jsonl_records(content), expected);
    assert_eq!(jsonl_records(content)[0], (1, "a".to_owned()));
}

#[test]
fn storage_error_messages() {
    assert_eq!(StorageError::Io("denied".to_owned()).message(), "storage I/O error: denied");
    assert_eq!(
        StorageError::Serialize("bad".to_owned()).message(),
        "failed to serialize JSONL record: bad"
    );
    assert_eq!(
        StorageError::Deserialize { line: 3, message: "eof".to_owned() }.message(),
        "invalid JSONL at line 3: eof"
    );
}

#[test]
fn appended_values_replay_in_order() {
    let mut content = String::new();
    for value in [1_u64, 2_u64] {
        content.push_str(&serde_json::to_string(&value).expect("encode"));
        content.push('\n');
    }
    let values: Vec<u64> = jsonl_records(&content)
        .into_iter()
        .map(|(_, line)| serde_json::from_str(&line).expect("decode"))
        .collect();
    assert_eq!(values, vec![1, 2]);
}
