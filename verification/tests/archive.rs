use cantrip::archive::record::{
    backup_name, classify_record, corrupt_backup_name, merge, new_record, plan_save, plan_write,
    read_record, RecordRead,
};
use cantrip::archive::{
    check_file, created_at_ms, file_name, final_text, new_id, now_ms, partial, record_name,
    validate_id, ArchiveError, Entry, FileFacts,
};
use cantrip::json::Json;

fn entry(raw: &str, cleaned: Option<&str>) -> Entry {
    Entry {
        take_id: None,
        source: "dictation".to_owned(),
        raw_transcript: raw.to_owned(),
        postprocessed_transcript: cleaned.map(str::to_owned),
        audio_duration_ms: Some(1_500),
        pipeline_elapsed_ms: 49,
        stt_model: "parakeet-test".to_owned(),
        stt_remote: false,
        stt_elapsed_ms: 42,
        stt_api_cost_usd: Some("0.0".to_owned()),
        partial: false,
        cancelled: false,
        postproc_status: if cleaned.is_some() { "applied" } else { "off" }.to_owned(),
        postproc_model: cleaned.map(|_| "cleaner-test".to_owned()),
        postproc_elapsed_ms: cleaned.map(|_| 7),
        postproc_passes: cleaned.map(|_| 1),
        postproc_prompt_version: cleaned.map(|_| 1),
        postproc_instructions: None,
        postproc_prompt_tokens: cleaned.map(|_| 100),
        postproc_completion_tokens: cleaned.map(|_| 20),
        postproc_total_tokens: cleaned.map(|_| 120),
        postproc_reasoning_tokens: cleaned.map(|_| 5),
        postproc_cached_tokens: cleaned.map(|_| 10),
        postproc_reported_cost_usd: cleaned.map(|_| "0.001".to_owned()),
        postproc_usage_requests: cleaned.map(|_| 1),
        postproc_usage_responses: cleaned.map(|_| 1),
    }
}

/// A member of a member of a record.
fn at<'a>(record: &'a Json, path: &[&str]) -> &'a Json {
    path.iter().fold(record, |value, key| {
        value.get(key).unwrap_or_else(|| panic!("{key} is missing"))
    })
}

/// Write a record as its file holds it.
fn encode(value: &Json) -> String {
    let quote = |text: &str| {
        let mut quoted = "\"".to_owned();
        for c in text.chars() {
            match c {
                '"' | '\\' => {
                    quoted.push('\\');
                    quoted.push(c);
                }
                c if (c as u32) < 32 => quoted.push_str(&format!("\\u{:04x}", c as u32)),
                c => quoted.push(c),
            }
        }
        quoted.push('"');
        quoted
    };
    match value {
        Json::Null => "null".to_owned(),
        Json::Bool(value) => format!("{value}"),
        Json::Unsigned(value) => format!("{value}"),
        Json::Negative(value) => format!("{value}"),
        Json::Float(text) => text.clone(),
        Json::Text(text) => quote(text),
        Json::Array(items) => {
            let items: Vec<String> = items.iter().map(encode).collect();
            format!("[{}]", items.join(","))
        }
        Json::Object(members) => {
            let members: Vec<String> = members
                .iter()
                .map(|(key, value)| format!("{}:{}", quote(key), encode(value)))
                .collect();
            format!("{{{}}}", members.join(","))
        }
    }
}

fn read(id: &str, file: &[u8]) -> Json {
    match read_record(id, file) {
        Ok(RecordRead::Record(record)) => record,
        other => panic!("a record was expected, not {other:?}"),
    }
}

/// Save an attempt over a file, and give the file back.
fn save(entry: Entry, id: &str, file: Option<&[u8]>, now: u64) -> Vec<u8> {
    let plan = plan_save(&entry, id, file, now).expect("the attempt is saved");
    encode(&plan.record).into_bytes()
}

#[test]
fn saves_raw_and_cleaned_text() {
    let record = new_record(&entry("raw words", Some("Raw words.")), "session", 1_234);
    let text = |path: &[&str]| at(&record, path).as_text().cloned();
    assert_eq!(text(&["source"]).as_deref(), Some("dictation"));
    assert_eq!(text(&["raw_transcript"]).as_deref(), Some("raw words"));
    assert_eq!(
        text(&["postprocessed_transcript"]).as_deref(),
        Some("Raw words.")
    );
    assert_eq!(text(&["stt", "model"]).as_deref(), Some("parakeet-test"));
    assert_eq!(text(&["postproc", "status"]).as_deref(), Some("applied"));
    assert_eq!(at(&record, &["audio", "duration_ms"]).as_unsigned(), Some(1_500));
    assert_eq!(at(&record, &["pipeline", "elapsed_ms"]).as_unsigned(), Some(49));
    assert_eq!(
        at(&record, &["stt", "api_cost_usd"]),
        &Json::Float("0.0".to_owned())
    );
    assert_eq!(
        at(&record, &["postproc", "usage", "total_tokens"]).as_unsigned(),
        Some(120)
    );
    assert_eq!(
        at(&record, &["postproc", "usage", "reported_cost_usd"]),
        &Json::Float("0.001".to_owned())
    );
    assert_eq!(final_text(&record).map(String::as_str), Some("Raw words."));
    assert_eq!(created_at_ms(&record), 1_234);
    assert!(!partial(&record));
}

#[test]
fn a_save_tells_what_is_incomplete() {
    let id = new_id(1_700_000_000_000_000_000, 4_242, 8);
    let mut cut = entry("first half", None);
    cut.partial = true;
    let file = save(cut, &id, None, 1_000);
    let first = read(&id, &file);
    assert!(partial(&first));
    assert_eq!(
        at(&first, &["recovery", "retry_incomplete"]).as_bool(),
        Some(true)
    );

    let file = save(entry("all of it", Some("All.")), &id, Some(&file), 2_000);
    let whole = read(&id, &file);
    assert!(!partial(&whole));
    assert_eq!(
        at(&whole, &["recovery", "retry_incomplete"]).as_bool(),
        Some(false)
    );

    let mut cancelled = entry("never delivered", None);
    cancelled.cancelled = true;
    let file = save(cancelled, &id, Some(&file), 3_000);
    let kept = read(&id, &file);
    assert!(!partial(&kept), "the whole text still stands");
    assert_eq!(
        at(&kept, &["recovery", "retry_incomplete"]).as_bool(),
        Some(true)
    );
}

#[test]
fn retry_preserves_prior_text_and_metadata_until_a_complete_result_is_ready() {
    let id = new_id(1_700_000_000_000_000_000, 4_242, 7);
    let first = save(entry("first raw", Some("First complete.")), &id, None, 1_000);
    let mut original = read(&id, &first);
    let created_at = created_at_ms(&original);
    let mut recovery = at(&original, &["recovery"]).copy();
    recovery.set("unresolved", Json::Bool(true));
    recovery.set("operator_metadata", Json::text("preserve"));
    original.set("recovery", recovery);
    let file = encode(&original).into_bytes();

    let mut retry = entry("a later incomplete attempt", None);
    retry.source = "recover".to_owned();
    retry.partial = true;
    let file = save(retry, &id, Some(&file), 2_000);
    let preserved = read(&id, &file);
    assert_eq!(
        final_text(&preserved).map(String::as_str),
        Some("First complete.")
    );
    assert_eq!(
        at(&preserved, &["postproc", "usage", "reported_cost_usd"]),
        &Json::Float("0.001".to_owned())
    );
    assert_eq!(
        at(&preserved, &["recovery", "operator_metadata"]),
        &Json::text("preserve")
    );
    assert_eq!(
        at(&preserved, &["recovery", "retry_incomplete"]).as_bool(),
        Some(true)
    );

    let mut cancelled = entry("never delivered", None);
    cancelled.cancelled = true;
    let file = save(cancelled, &id, Some(&file), 3_000);
    assert_eq!(
        final_text(&read(&id, &file)).map(String::as_str),
        Some("First complete.")
    );

    let mut complete = entry("recovered raw", Some("Recovered complete."));
    complete.source = "recover".to_owned();
    let file = save(complete, &id, Some(&file), 4_000);
    let replaced = read(&id, &file);
    assert_eq!(
        final_text(&replaced).map(String::as_str),
        Some("Recovered complete.")
    );
    assert_eq!(created_at_ms(&replaced), created_at);
    assert_eq!(
        at(&replaced, &["recovery", "unresolved"]).as_bool(),
        Some(true)
    );
    assert_eq!(
        at(&replaced, &["recovery", "retry_incomplete"]).as_bool(),
        Some(false)
    );
    assert_eq!(
        at(&replaced, &["recovery", "origin", "source"]),
        &Json::text("dictation")
    );
    assert_eq!(
        at(&replaced, &["recovery", "operator_metadata"]),
        &Json::text("preserve")
    );
}

#[test]
fn complete_archive_repairs_corruption_without_erasing_its_original_bytes() {
    let id = new_id(1_700_000_000_000_000_000, 4_242, 8);
    let corrupt = b"{ malformed private history".as_slice();
    let mut interrupted = entry("returned but cancelled", None);
    interrupted.cancelled = true;
    assert_eq!(
        plan_save(&interrupted, &id, Some(corrupt), 1_000),
        Err(ArchiveError::InvalidRecord)
    );
    let mut complete = entry("new complete words", Some("New complete words."));
    complete.source = "recover".to_owned();
    let plan = plan_save(&complete, &id, Some(corrupt), 2_000).unwrap();
    let record = plan.record;
    assert_eq!(
        final_text(&record).map(String::as_str),
        Some("New complete words.")
    );
    assert_eq!(at(&record, &["source"]), &Json::text("recover"));
    assert_eq!(at(&record, &["stt", "model"]), &Json::text("parakeet-test"));
    // The bytes that could not be read are kept under the name that the record gives.
    let backup = plan.backup.unwrap();
    assert_eq!(
        at(&record, &["recovery", "corrupt_record"]),
        &Json::text(&backup)
    );
    assert_eq!(backup, corrupt_backup_name(&id, corrupt));
}

#[test]
fn a_backup_is_named_by_a_digest() {
    assert_eq!(
        backup_name("take", &vec![0xab, 0x01]),
        "take.json.corrupt-ab01"
    );
    // The digest of three letters, from the standard's own examples.
    assert_eq!(
        corrupt_backup_name("take", b"abc"),
        "take.json.corrupt-ba7816bf8f01cfea414140de5dae2223b00361a396177a9cb410ff61f20015ad"
    );
}

#[test]
fn records_are_told_from_other_documents() {
    let mut record = Json::object();
    record.set("session_id", Json::text("one"));
    assert_eq!(
        classify_record("one", Some(record.copy())),
        Ok(RecordRead::Record(record.copy()))
    );
    assert_eq!(
        classify_record("two", Some(record)),
        Err(ArchiveError::MismatchedId)
    );
    assert_eq!(classify_record("one", None), Ok(RecordRead::Malformed));
    assert_eq!(read_record("one", b"{"), Ok(RecordRead::Malformed));
}

#[test]
fn a_write_plan_follows_what_was_read() {
    let complete = entry("words", None);
    let plan = plan_write(&complete, "one", None, "unused".to_owned(), 5).unwrap();
    assert_eq!(plan.backup, None);
    assert_eq!(
        plan.record,
        merge(None, new_record(&complete, "one", 5), &complete, 5)
    );
    let plan = plan_write(
        &complete,
        "one",
        Some(RecordRead::Malformed),
        "kept-aside".to_owned(),
        5,
    )
    .unwrap();
    assert_eq!(plan.backup.as_deref(), Some("kept-aside"));
}

#[test]
fn merging_into_nothing_dates_the_attempt() {
    let complete = entry("words", None);
    let record = merge(None, new_record(&complete, "one", 5), &complete, 9);
    assert_eq!(final_text(&record).map(String::as_str), Some("words"));
    assert_eq!(created_at_ms(&record), 9);
    assert_eq!(
        at(&record, &["recovery", "origin", "stt_model"]),
        &Json::text("parakeet-test")
    );
}

#[test]
fn identifiers_stay_in_the_directory() {
    let id = new_id(1_700_000_000_123_456_789, 42, 3);
    assert_eq!(validate_id(&id), Ok(()));
    assert_eq!(file_name(&record_name(&id)), Ok(()));
    for bad in ["", ".", "..", "a/b", "a\u{0}b"] {
        assert_eq!(validate_id(bad), Err(ArchiveError::InvalidId), "{bad:?}");
    }
    assert_eq!(
        validate_id(&"x".repeat(129)),
        Err(ArchiveError::InvalidId)
    );
    assert_eq!(file_name("../one.json"), Err(ArchiveError::InvalidName));
    assert_ne!(new_id(1, 2, 3), new_id(1, 2, 4));
    assert_eq!(now_ms(u128::MAX), u64::MAX);
}

#[test]
fn files_must_be_ours_and_private() {
    let facts = FileFacts {
        is_file: true,
        owned: true,
        links: 1,
        mode: 0o100600,
    };
    assert_eq!(check_file(facts, true), Ok(()));
    assert_eq!(
        check_file(FileFacts { owned: false, ..facts }, true),
        Err(ArchiveError::ForeignFile)
    );
    assert_eq!(
        check_file(FileFacts { links: 2, ..facts }, true),
        Err(ArchiveError::ForeignFile)
    );
    let open = FileFacts {
        mode: 0o100644,
        ..facts
    };
    assert_eq!(check_file(open, true), Err(ArchiveError::ExposedFile));
    assert_eq!(check_file(open, false), Ok(()));
}
