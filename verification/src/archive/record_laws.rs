//! What the record of a take tells of the attempts on it.

use crate::archive::laws::{
    lemma_record_members, lemma_recovery_keys_differ, lemma_recovery_members,
};
use crate::archive::record::{
    attempt_summary, backup_file, hex, incoming_record, is_complete, known_recovery, merged_record,
    merged_recovery, optional, origin_summary, postproc_record, stt_record,
    stub_record, usage_record, Members,
};
use crate::archive::{
    file_check, is_file_name, is_valid_id, nested, record_created, record_file, record_partial,
    record_text, ArchiveError, EntryView, FileFacts,
};
use crate::json::{
    first_member_is_read, missing_member_is_not_read, set_member_is_read_back,
    set_member_keeps_the_others, JsonView,
};
use crate::text::{digit_char, is_blank, is_white_space};
use vstd::prelude::*;

verus! {

/// The words of an attempt: cleaned up where they were, else as heard.
pub open spec fn words_of(entry: EntryView) -> Seq<char> {
    match entry.postprocessed_transcript {
        Some(text) => text,
        None => entry.raw_transcript,
    }
}

/// Whether a text says anything.
pub open spec fn says_something(text: Seq<char>) -> bool {
    exists|i: int| 0 <= i < text.len() && !is_white_space(#[trigger] text[i])
}

/// What an attempt writes for a take that has no record yet.
pub open spec fn first_record(entry: EntryView, id: Seq<char>, now: u64) -> JsonView {
    merged_record(None, incoming_record(entry, id, now), entry, now)
}

/// Names in the record differ from each other.
proof fn lemma_record_names_differ()
    ensures
        "schema_version"@ != "session_id"@,
        "schema_version"@ != "completed_at_unix_ms"@,
        "session_id"@ != "completed_at_unix_ms"@,
        "schema_version"@ != "source"@,
        "session_id"@ != "source"@,
        "completed_at_unix_ms"@ != "source"@,
        "schema_version"@ != "audio"@,
        "session_id"@ != "audio"@,
        "completed_at_unix_ms"@ != "audio"@,
        "source"@ != "audio"@,
        "schema_version"@ != "pipeline"@,
        "session_id"@ != "pipeline"@,
        "completed_at_unix_ms"@ != "pipeline"@,
        "source"@ != "pipeline"@,
        "audio"@ != "pipeline"@,
        "schema_version"@ != "stt"@,
        "session_id"@ != "stt"@,
        "completed_at_unix_ms"@ != "stt"@,
        "source"@ != "stt"@,
        "audio"@ != "stt"@,
        "pipeline"@ != "stt"@,
        "schema_version"@ != "postproc"@,
        "session_id"@ != "postproc"@,
        "completed_at_unix_ms"@ != "postproc"@,
        "source"@ != "postproc"@,
        "audio"@ != "postproc"@,
        "pipeline"@ != "postproc"@,
        "stt"@ != "postproc"@,
        "schema_version"@ != "raw_transcript"@,
        "session_id"@ != "raw_transcript"@,
        "completed_at_unix_ms"@ != "raw_transcript"@,
        "source"@ != "raw_transcript"@,
        "audio"@ != "raw_transcript"@,
        "pipeline"@ != "raw_transcript"@,
        "stt"@ != "raw_transcript"@,
        "postproc"@ != "raw_transcript"@,
        "schema_version"@ != "postprocessed_transcript"@,
        "session_id"@ != "postprocessed_transcript"@,
        "completed_at_unix_ms"@ != "postprocessed_transcript"@,
        "source"@ != "postprocessed_transcript"@,
        "audio"@ != "postprocessed_transcript"@,
        "pipeline"@ != "postprocessed_transcript"@,
        "stt"@ != "postprocessed_transcript"@,
        "postproc"@ != "postprocessed_transcript"@,
        "raw_transcript"@ != "postprocessed_transcript"@,
        "schema_version"@ != "recovery"@,
        "session_id"@ != "recovery"@,
        "completed_at_unix_ms"@ != "recovery"@,
        "source"@ != "recovery"@,
        "audio"@ != "recovery"@,
        "pipeline"@ != "recovery"@,
        "stt"@ != "recovery"@,
        "postproc"@ != "recovery"@,
        "raw_transcript"@ != "recovery"@,
        "postprocessed_transcript"@ != "recovery"@,
{
    reveal_strlit("schema_version");
    reveal_strlit("session_id");
    reveal_strlit("completed_at_unix_ms");
    reveal_strlit("source");
    reveal_strlit("audio");
    reveal_strlit("pipeline");
    reveal_strlit("stt");
    reveal_strlit("postproc");
    reveal_strlit("raw_transcript");
    reveal_strlit("postprocessed_transcript");
    reveal_strlit("recovery");
    assert("schema_version"@.len() == 14);
    assert("session_id"@.len() == 10);
    assert("completed_at_unix_ms"@.len() == 20);
    assert("source"@.len() == 6);
    assert("audio"@.len() == 5);
    assert("pipeline"@.len() == 8);
    assert("stt"@.len() == 3);
    assert("postproc"@.len() == 8);
    assert("raw_transcript"@.len() == 14);
    assert("postprocessed_transcript"@.len() == 24);
    assert("recovery"@.len() == 8);
    assert("pipeline"@[1] == 'i');
    assert("postproc"@[1] == 'o');
    assert("schema_version"@[0] == 's');
    assert("raw_transcript"@[0] == 'r');
    assert("pipeline"@[0] == 'p');
    assert("recovery"@[0] == 'r');
    assert("postproc"@[0] == 'p');
    assert("recovery"@[0] == 'r');
}

/// Names in the transcription differ from each other.
proof fn lemma_transcription_names_differ()
    ensures
        "model"@ != "backend"@,
        "model"@ != "elapsed_ms"@,
        "backend"@ != "elapsed_ms"@,
        "model"@ != "partial"@,
        "backend"@ != "partial"@,
        "elapsed_ms"@ != "partial"@,
        "model"@ != "cancelled"@,
        "backend"@ != "cancelled"@,
        "elapsed_ms"@ != "cancelled"@,
        "partial"@ != "cancelled"@,
        "model"@ != "api_cost_usd"@,
        "backend"@ != "api_cost_usd"@,
        "elapsed_ms"@ != "api_cost_usd"@,
        "partial"@ != "api_cost_usd"@,
        "cancelled"@ != "api_cost_usd"@,
{
    reveal_strlit("model");
    reveal_strlit("backend");
    reveal_strlit("elapsed_ms");
    reveal_strlit("partial");
    reveal_strlit("cancelled");
    reveal_strlit("api_cost_usd");
    assert("model"@.len() == 5);
    assert("backend"@.len() == 7);
    assert("elapsed_ms"@.len() == 10);
    assert("partial"@.len() == 7);
    assert("cancelled"@.len() == 9);
    assert("api_cost_usd"@.len() == 12);
    assert("backend"@[0] == 'b');
    assert("partial"@[0] == 'p');
}

/// Names in what was used differ from each other.
proof fn lemma_usage_names_differ()
    ensures
        "prompt_tokens"@ != "completion_tokens"@,
        "prompt_tokens"@ != "total_tokens"@,
        "completion_tokens"@ != "total_tokens"@,
        "prompt_tokens"@ != "reasoning_tokens"@,
        "completion_tokens"@ != "reasoning_tokens"@,
        "total_tokens"@ != "reasoning_tokens"@,
        "prompt_tokens"@ != "cached_tokens"@,
        "completion_tokens"@ != "cached_tokens"@,
        "total_tokens"@ != "cached_tokens"@,
        "reasoning_tokens"@ != "cached_tokens"@,
        "prompt_tokens"@ != "requests"@,
        "completion_tokens"@ != "requests"@,
        "total_tokens"@ != "requests"@,
        "reasoning_tokens"@ != "requests"@,
        "cached_tokens"@ != "requests"@,
        "prompt_tokens"@ != "responses_with_usage"@,
        "completion_tokens"@ != "responses_with_usage"@,
        "total_tokens"@ != "responses_with_usage"@,
        "reasoning_tokens"@ != "responses_with_usage"@,
        "cached_tokens"@ != "responses_with_usage"@,
        "requests"@ != "responses_with_usage"@,
        "prompt_tokens"@ != "reported_cost_usd"@,
        "completion_tokens"@ != "reported_cost_usd"@,
        "total_tokens"@ != "reported_cost_usd"@,
        "reasoning_tokens"@ != "reported_cost_usd"@,
        "cached_tokens"@ != "reported_cost_usd"@,
        "requests"@ != "reported_cost_usd"@,
        "responses_with_usage"@ != "reported_cost_usd"@,
{
    reveal_strlit("prompt_tokens");
    reveal_strlit("completion_tokens");
    reveal_strlit("total_tokens");
    reveal_strlit("reasoning_tokens");
    reveal_strlit("cached_tokens");
    reveal_strlit("requests");
    reveal_strlit("responses_with_usage");
    reveal_strlit("reported_cost_usd");
    assert("prompt_tokens"@.len() == 13);
    assert("completion_tokens"@.len() == 17);
    assert("total_tokens"@.len() == 12);
    assert("reasoning_tokens"@.len() == 16);
    assert("cached_tokens"@.len() == 13);
    assert("requests"@.len() == 8);
    assert("responses_with_usage"@.len() == 20);
    assert("reported_cost_usd"@.len() == 17);
    assert("prompt_tokens"@[0] == 'p');
    assert("cached_tokens"@[0] == 'c');
    assert("completion_tokens"@[0] == 'c');
    assert("reported_cost_usd"@[0] == 'r');
}

/// Names in the cleanup differ from each other.
proof fn lemma_cleanup_names_differ()
    ensures
        "status"@ != "model"@,
        "status"@ != "elapsed_ms"@,
        "model"@ != "elapsed_ms"@,
        "status"@ != "passes"@,
        "model"@ != "passes"@,
        "elapsed_ms"@ != "passes"@,
        "status"@ != "prompt_version"@,
        "model"@ != "prompt_version"@,
        "elapsed_ms"@ != "prompt_version"@,
        "passes"@ != "prompt_version"@,
        "status"@ != "custom_instructions"@,
        "model"@ != "custom_instructions"@,
        "elapsed_ms"@ != "custom_instructions"@,
        "passes"@ != "custom_instructions"@,
        "prompt_version"@ != "custom_instructions"@,
        "status"@ != "usage"@,
        "model"@ != "usage"@,
        "elapsed_ms"@ != "usage"@,
        "passes"@ != "usage"@,
        "prompt_version"@ != "usage"@,
        "custom_instructions"@ != "usage"@,
{
    reveal_strlit("status");
    reveal_strlit("model");
    reveal_strlit("elapsed_ms");
    reveal_strlit("passes");
    reveal_strlit("prompt_version");
    reveal_strlit("custom_instructions");
    reveal_strlit("usage");
    assert("status"@.len() == 6);
    assert("model"@.len() == 5);
    assert("elapsed_ms"@.len() == 10);
    assert("passes"@.len() == 6);
    assert("prompt_version"@.len() == 14);
    assert("custom_instructions"@.len() == 19);
    assert("usage"@.len() == 5);
    assert("status"@[0] == 's');
    assert("passes"@[0] == 'p');
    assert("model"@[0] == 'm');
    assert("usage"@[0] == 'u');
}

/// Names in an attempt differ from each other.
proof fn lemma_attempt_names_differ()
    ensures
        "source"@ != "completed_at_unix_ms"@,
        "source"@ != "partial"@,
        "completed_at_unix_ms"@ != "partial"@,
        "source"@ != "cancelled"@,
        "completed_at_unix_ms"@ != "cancelled"@,
        "partial"@ != "cancelled"@,
        "source"@ != "complete"@,
        "completed_at_unix_ms"@ != "complete"@,
        "partial"@ != "complete"@,
        "cancelled"@ != "complete"@,
{
    reveal_strlit("source");
    reveal_strlit("completed_at_unix_ms");
    reveal_strlit("partial");
    reveal_strlit("cancelled");
    reveal_strlit("complete");
    assert("source"@.len() == 6);
    assert("completed_at_unix_ms"@.len() == 20);
    assert("partial"@.len() == 7);
    assert("cancelled"@.len() == 9);
    assert("complete"@.len() == 8);
}

/// Names in the origin differ from each other.
proof fn lemma_origin_names_differ()
    ensures
        "source"@ != "completed_at_unix_ms"@,
        "source"@ != "stt_model"@,
        "completed_at_unix_ms"@ != "stt_model"@,
        "source"@ != "stt_backend"@,
        "completed_at_unix_ms"@ != "stt_backend"@,
        "stt_model"@ != "stt_backend"@,
{
    reveal_strlit("source");
    reveal_strlit("completed_at_unix_ms");
    reveal_strlit("stt_model");
    reveal_strlit("stt_backend");
    assert("source"@.len() == 6);
    assert("completed_at_unix_ms"@.len() == 20);
    assert("stt_model"@.len() == 9);
    assert("stt_backend"@.len() == 11);
}

/// Names in a stub differ from each other.
proof fn lemma_stub_names_differ()
    ensures
        "created_at_unix_ms"@ != "unresolved"@,
        "created_at_unix_ms"@ != "corrupt_record"@,
        "unresolved"@ != "corrupt_record"@,
{
    reveal_strlit("created_at_unix_ms");
    reveal_strlit("unresolved");
    reveal_strlit("corrupt_record");
    assert("created_at_unix_ms"@.len() == 18);
    assert("unresolved"@.len() == 10);
    assert("corrupt_record"@.len() == 14);
}

/// A new member of an object is read, the others as before.
proof fn lemma_optional(members: Members, key: Seq<char>, value: Option<JsonView>, other: Seq<char>)
    requires
        JsonView::Object(members).get(key) is None,
    ensures
        JsonView::Object(optional(members, key, value)).get(key) == value,
        other != key ==> JsonView::Object(optional(members, key, value)).get(other)
            == JsonView::Object(members).get(other),
{
    if value is Some {
        let object = JsonView::Object(members);
        assert(object.with(key, value->0) == JsonView::Object(optional(members, key, value)));
        set_member_is_read_back(object, key, value->0);
        if other != key {
            set_member_keeps_the_others(object, key, value->0, other);
        }
    }
}

proof fn lemma_says(text: Seq<char>)
    ensures
        is_blank(text) <==> !says_something(text),
{
    if !is_blank(text) {
        let i = choose|i: int| 0 <= i < text.len() && !is_white_space(#[trigger] text[i]);
        assert(!is_white_space(text[i]));
    }
}

proof fn lemma_whole(entry: EntryView, id: Seq<char>, now: u64)
    ensures
        is_complete(entry, incoming_record(entry, id, now)) <==> !entry.partial && !entry.cancelled
            && says_something(words_of(entry)),
{
    lemma_incoming(entry, id, now);
    lemma_says(words_of(entry));
}

proof fn lemma_attempt(entry: EntryView, complete: bool, now: u64)
    ensures
        ({
            let attempt = attempt_summary(entry, complete, now);
            &&& attempt.text_member("source"@) == Some(entry.source)
            &&& attempt.get("completed_at_unix_ms"@) == Some(JsonView::Unsigned(now))
            &&& attempt.bool_member("partial"@) == Some(entry.partial)
            &&& attempt.bool_member("cancelled"@) == Some(entry.cancelled)
            &&& attempt.bool_member("complete"@) == Some(complete)
        }),
{
    lemma_attempt_names_differ();
    let members = attempt_summary(entry, complete, now)->Object_0;
    first_member_is_read(members, 0);
    first_member_is_read(members, 1);
    first_member_is_read(members, 2);
    first_member_is_read(members, 3);
    first_member_is_read(members, 4);
}

proof fn lemma_waited(existing: Option<JsonView>)
    ensures
        known_recovery(existing).bool_member("unresolved"@) == Some(true) <==> existing is Some
            && nested(existing->0, "recovery"@, "unresolved"@) == Some(JsonView::Bool(true)),
{
    missing_member_is_not_read(Seq::empty(), "unresolved"@);
}

proof fn lemma_transcription(entry: EntryView)
    ensures
        ({
            let stt = stt_record(entry);
            &&& stt.get("model"@) == Some(JsonView::Text(entry.stt_model))
            &&& stt.get("backend"@) == Some(
                JsonView::Text(
                    if entry.stt_remote {
                        "cloud"@
                    } else {
                        "local"@
                    },
                ),
            )
            &&& stt.get("elapsed_ms"@) == Some(JsonView::Unsigned(entry.stt_elapsed_ms))
            &&& stt.get("partial"@) == Some(JsonView::Bool(entry.partial))
            &&& stt.get("cancelled"@) == Some(JsonView::Bool(entry.cancelled))
            &&& stt.get("api_cost_usd"@) == match entry.stt_api_cost_usd {
                Some(cost) => Some(JsonView::Float(cost)),
                None => None,
            }
        }),
{
    lemma_transcription_names_differ();
    let backend = if entry.stt_remote {
        "cloud"@
    } else {
        "local"@
    };
    let members: Members = seq![
        ("model"@, JsonView::Text(entry.stt_model)),
        ("backend"@, JsonView::Text(backend)),
        ("elapsed_ms"@, JsonView::Unsigned(entry.stt_elapsed_ms)),
        ("partial"@, JsonView::Bool(entry.partial)),
        ("cancelled"@, JsonView::Bool(entry.cancelled)),
    ];
    let cost = match entry.stt_api_cost_usd {
        Some(cost) => Some(JsonView::Float(cost)),
        None => None,
    };
    assert(stt_record(entry)->Object_0 =~= optional(members, "api_cost_usd"@, cost));
    missing_member_is_not_read(members, "api_cost_usd"@);
    first_member_is_read(members, 0);
    first_member_is_read(members, 1);
    first_member_is_read(members, 2);
    first_member_is_read(members, 3);
    first_member_is_read(members, 4);
    lemma_optional(members, "api_cost_usd"@, cost, "model"@);
    lemma_optional(members, "api_cost_usd"@, cost, "backend"@);
    lemma_optional(members, "api_cost_usd"@, cost, "elapsed_ms"@);
    lemma_optional(members, "api_cost_usd"@, cost, "partial"@);
    lemma_optional(members, "api_cost_usd"@, cost, "cancelled"@);
}

proof fn lemma_incoming(entry: EntryView, id: Seq<char>, now: u64)
    ensures
        ({
            let record = incoming_record(entry, id, now);
            &&& record is Object
            &&& record.get("session_id"@) == Some(JsonView::Text(id))
            &&& record.get("completed_at_unix_ms"@) == Some(JsonView::Unsigned(now))
            &&& record.get("source"@) == Some(JsonView::Text(entry.source))
            &&& nested(record, "audio"@, "duration_ms"@) == match entry.audio_duration_ms {
                Some(duration) => Some(JsonView::Unsigned(duration)),
                None => None,
            }
            &&& nested(record, "pipeline"@, "elapsed_ms"@) == Some(
                JsonView::Unsigned(entry.pipeline_elapsed_ms),
            )
            &&& record.get("stt"@) == Some(stt_record(entry))
            &&& record.get("postproc"@) == Some(postproc_record(entry))
            &&& record.get("raw_transcript"@) == Some(JsonView::Text(entry.raw_transcript))
            &&& record.get("postprocessed_transcript"@) == Some(
                match entry.postprocessed_transcript {
                    Some(text) => JsonView::Text(text),
                    None => JsonView::Null,
                },
            )
        }),
{
    lemma_record_names_differ();
    let members = incoming_record(entry, id, now)->Object_0;
    first_member_is_read(members, 1);
    first_member_is_read(members, 2);
    first_member_is_read(members, 3);
    first_member_is_read(members, 4);
    first_member_is_read(members, 5);
    first_member_is_read(members, 6);
    first_member_is_read(members, 7);
    first_member_is_read(members, 8);
    first_member_is_read(members, 9);
    let duration = match entry.audio_duration_ms {
        Some(duration) => Some(JsonView::Unsigned(duration)),
        None => None,
    };
    missing_member_is_not_read(Seq::empty(), "duration_ms"@);
    lemma_optional(Seq::empty(), "duration_ms"@, duration, Seq::empty());
    assert(members[4].1->Object_0 =~= optional(Seq::empty(), "duration_ms"@, duration));
    first_member_is_read(members[5].1->Object_0, 0);
}

proof fn lemma_first_record(entry: EntryView, id: Seq<char>, now: u64, key: Seq<char>)
    ensures
        first_record(entry, id, now) is Object,
        key != "schema_version"@ && key != "recovery"@ ==> first_record(entry, id, now).get(key)
            == incoming_record(entry, id, now).get(key),
{
    lemma_record_members(None, incoming_record(entry, id, now), entry, now, key);
}

/// A record names its take, tells when it was completed and where the attempt came from, how
/// long the audio is and how long the work took, and holds the text as it was heard and, where
/// there is one, as it was cleaned up.
pub proof fn record_holds_the_take(entry: EntryView, id: Seq<char>, now: u64)
    ensures
        ({
            let record = first_record(entry, id, now);
            &&& record.get("schema_version"@) == Some(JsonView::Unsigned(3))
            &&& record.text_member("session_id"@) == Some(id)
            &&& record.get("completed_at_unix_ms"@) == Some(JsonView::Unsigned(now))
            &&& record.text_member("source"@) == Some(entry.source)
            &&& entry.audio_duration_ms is Some ==> nested(record, "audio"@, "duration_ms"@)
                == Some(JsonView::Unsigned(entry.audio_duration_ms->0))
            &&& entry.audio_duration_ms is None ==> nested(record, "audio"@, "duration_ms"@) is None
            &&& nested(record, "pipeline"@, "elapsed_ms"@) == Some(
                JsonView::Unsigned(entry.pipeline_elapsed_ms),
            )
            &&& record.text_member("raw_transcript"@) == Some(entry.raw_transcript)
            &&& record.text_member("postprocessed_transcript"@) == entry.postprocessed_transcript
        }),
{
    lemma_record_names_differ();
    lemma_incoming(entry, id, now);
    let incoming = incoming_record(entry, id, now);
    lemma_first_record(entry, id, now, "session_id"@);
    lemma_first_record(entry, id, now, "completed_at_unix_ms"@);
    lemma_first_record(entry, id, now, "source"@);
    lemma_first_record(entry, id, now, "audio"@);
    lemma_first_record(entry, id, now, "pipeline"@);
    lemma_first_record(entry, id, now, "raw_transcript"@);
    lemma_first_record(entry, id, now, "postprocessed_transcript"@);
    let complete = is_complete(entry, incoming);
    let recovery = merged_recovery(None, incoming, entry, complete, now).with(
        "partial"@,
        JsonView::Bool(entry.partial || entry.cancelled),
    );
    let versioned = incoming.with("schema_version"@, JsonView::Unsigned(3));
    set_member_is_read_back(incoming, "schema_version"@, JsonView::Unsigned(3));
    set_member_keeps_the_others(versioned, "recovery"@, recovery, "schema_version"@);
}

/// The text that a record stands for is the cleaned-up one where there is one, else the one
/// that was heard, and none where that says nothing.
pub proof fn record_stands_for_its_text(entry: EntryView, id: Seq<char>, now: u64)
    ensures
        ({
            let stands = record_text(first_record(entry, id, now));
            &&& stands is Some <==> says_something(words_of(entry))
            &&& stands is Some ==> stands->0 == words_of(entry)
        }),
{
    record_holds_the_take(entry, id, now);
    lemma_says(words_of(entry));
}

/// A record tells how its take was transcribed: by which model, in the cloud exactly where
/// that was remote and else locally, how long it took, what it cost, and whether it was
/// partial or cancelled.
pub proof fn record_tells_the_transcription(entry: EntryView, id: Seq<char>, now: u64)
    ensures
        ({
            let record = first_record(entry, id, now);
            &&& entry.stt_remote ==> nested(record, "stt"@, "backend"@) == Some(
                JsonView::Text("cloud"@),
            )
            &&& !entry.stt_remote ==> nested(record, "stt"@, "backend"@) == Some(
                JsonView::Text("local"@),
            )
            &&& nested(record, "stt"@, "model"@) == Some(JsonView::Text(entry.stt_model))
            &&& nested(record, "stt"@, "elapsed_ms"@) == Some(
                JsonView::Unsigned(entry.stt_elapsed_ms),
            )
            &&& nested(record, "stt"@, "partial"@) == Some(JsonView::Bool(entry.partial))
            &&& nested(record, "stt"@, "cancelled"@) == Some(JsonView::Bool(entry.cancelled))
            &&& entry.stt_api_cost_usd is Some ==> nested(record, "stt"@, "api_cost_usd"@) == Some(
                JsonView::Float(entry.stt_api_cost_usd->0),
            )
            &&& entry.stt_api_cost_usd is None ==> nested(record, "stt"@, "api_cost_usd"@) is None
        }),
{
    lemma_record_names_differ();
    lemma_transcription(entry);
    lemma_incoming(entry, id, now);
    lemma_first_record(entry, id, now, "stt"@);
}

/// A cloud transcription is never recorded as a local one.
pub proof fn cloud_and_local_are_told_apart(
    entry: EntryView,
    other: EntryView,
    id: Seq<char>,
    now: u64,
)
    ensures
        nested(first_record(entry, id, now), "stt"@, "backend"@) == nested(
            first_record(other, id, now),
            "stt"@,
            "backend"@,
        ) <==> entry.stt_remote == other.stt_remote,
{
    record_tells_the_transcription(entry, id, now);
    record_tells_the_transcription(other, id, now);
    reveal_strlit("cloud");
    reveal_strlit("local");
    assert("cloud"@[0] == 'c');
    assert("local"@[0] == 'l');
}

proof fn lemma_origin(origin: JsonView)
    ensures
        ({
            let summary = origin_summary(origin);
            let told = |value: Option<JsonView>|
                match value {
                    Some(value) => value,
                    None => JsonView::Null,
                };
            &&& summary.get("source"@) == Some(told(origin.get("source"@)))
            &&& summary.get("completed_at_unix_ms"@) == Some(
                told(origin.get("completed_at_unix_ms"@)),
            )
            &&& summary.get("stt_model"@) == Some(told(nested(origin, "stt"@, "model"@)))
            &&& summary.get("stt_backend"@) == Some(told(nested(origin, "stt"@, "backend"@)))
        }),
{
    lemma_origin_names_differ();
    let members = origin_summary(origin)->Object_0;
    first_member_is_read(members, 0);
    first_member_is_read(members, 1);
    first_member_is_read(members, 2);
    first_member_is_read(members, 3);
}

/// The recovery data of what was written, with the mark that the text is partial or not.
proof fn lemma_written_recovery(
    existing: Option<JsonView>,
    entry: EntryView,
    id: Seq<char>,
    now: u64,
    key: Seq<char>,
)
    requires
        existing is Some ==> existing->0 is Object,
        key != "partial"@,
    ensures
        ({
            let incoming = incoming_record(entry, id, now);
            let complete = is_complete(entry, incoming);
            nested(merged_record(existing, incoming, entry, now), "recovery"@, key)
                == merged_recovery(existing, incoming, entry, complete, now).get(key)
        }),
{
    let incoming = incoming_record(entry, id, now);
    let complete = is_complete(entry, incoming);
    let recovery = merged_recovery(existing, incoming, entry, complete, now);
    lemma_record_members(existing, incoming, entry, now, key);
    lemma_recovery_members(existing, incoming, entry, complete, now, key);
    set_member_keeps_the_others(
        recovery,
        "partial"@,
        JsonView::Bool(entry.partial || entry.cancelled),
        key,
    );
}

/// The origin of a new take repeats where it came from, when it was completed, and by which
/// model and where it was transcribed.
pub proof fn origin_repeats_the_first_attempt(entry: EntryView, id: Seq<char>, now: u64)
    ensures
        ({
            let record = first_record(entry, id, now);
            &&& nested(record, "recovery"@, "origin"@) is Some
            &&& ({
                let origin = nested(record, "recovery"@, "origin"@)->0;
                &&& origin.get("stt_backend"@) == nested(record, "stt"@, "backend"@)
                &&& origin.get("stt_model"@) == nested(record, "stt"@, "model"@)
                &&& origin.get("source"@) == record.get("source"@)
                &&& origin.get("completed_at_unix_ms"@) == record.get("completed_at_unix_ms"@)
                &&& entry.stt_remote ==> origin.text_member("stt_backend"@) == Some("cloud"@)
                &&& !entry.stt_remote ==> origin.text_member("stt_backend"@) == Some("local"@)
                &&& origin.text_member("stt_model"@) == Some(entry.stt_model)
                &&& origin.text_member("source"@) == Some(entry.source)
                &&& origin.get("completed_at_unix_ms"@) == Some(JsonView::Unsigned(now))
            })
        }),
{
    lemma_recovery_keys_differ();
    let incoming = incoming_record(entry, id, now);
    let complete = is_complete(entry, incoming);
    lemma_incoming(entry, id, now);
    lemma_transcription(entry);
    lemma_origin(incoming);
    record_holds_the_take(entry, id, now);
    record_tells_the_transcription(entry, id, now);
    lemma_written_recovery(None, entry, id, now, "origin"@);
    lemma_recovery_members(None, incoming, entry, complete, now, "origin"@);
    missing_member_is_not_read(Seq::empty(), "origin"@);
}

/// The first attempt that a later one finds stays the origin: what the record told of its
/// source, its time, its model and its backend.
pub proof fn origin_of_a_known_take_is_its_record(
    old: JsonView,
    entry: EntryView,
    id: Seq<char>,
    now: u64,
)
    requires
        old is Object,
        old.get("stt"@) is Some || record_text(old) is Some || old.text_member("source"@) != Some(
            "recovery"@,
        ),
        nested(old, "recovery"@, "origin"@) is None,
    ensures
        ({
            let record = merged_record(Some(old), incoming_record(entry, id, now), entry, now);
            &&& nested(record, "recovery"@, "origin"@) is Some
            &&& ({
                let origin = nested(record, "recovery"@, "origin"@)->0;
                &&& nested(old, "stt"@, "backend"@) is Some ==> origin.get("stt_backend"@)
                    == nested(old, "stt"@, "backend"@)
                &&& nested(old, "stt"@, "model"@) is Some ==> origin.get("stt_model"@) == nested(
                    old,
                    "stt"@,
                    "model"@,
                )
                &&& old.get("source"@) is Some ==> origin.get("source"@) == old.get("source"@)
                &&& old.get("completed_at_unix_ms"@) is Some ==> origin.get(
                    "completed_at_unix_ms"@,
                ) == old.get("completed_at_unix_ms"@)
            })
        }),
{
    lemma_recovery_keys_differ();
    let incoming = incoming_record(entry, id, now);
    let complete = is_complete(entry, incoming);
    lemma_origin(old);
    lemma_written_recovery(Some(old), entry, id, now, "origin"@);
    lemma_recovery_members(Some(old), incoming, entry, complete, now, "origin"@);
    missing_member_is_not_read(Seq::empty(), "origin"@);
}

/// The recovery data tells of every attempt where it came from, when it ended, whether it was
/// partial or cancelled, and whether it brought the whole text; the take waits for a decision
/// exactly where it did not or did so before.
pub proof fn recovery_data_tells_the_latest_attempt(
    existing: Option<JsonView>,
    entry: EntryView,
    id: Seq<char>,
    now: u64,
)
    requires
        existing is Some ==> existing->0 is Object,
    ensures
        ({
            let record = merged_record(existing, incoming_record(entry, id, now), entry, now);
            let whole = !entry.partial && !entry.cancelled && says_something(words_of(entry));
            let waited = existing is Some && nested(existing->0, "recovery"@, "unresolved"@)
                == Some(JsonView::Bool(true));
            &&& nested(record, "recovery"@, "retry_incomplete"@) == Some(JsonView::Bool(!whole))
            &&& nested(record, "recovery"@, "unresolved"@) == Some(
                JsonView::Bool(!whole || waited),
            )
            &&& nested(record, "recovery"@, "latest_attempt"@) is Some
            &&& ({
                let attempt = nested(record, "recovery"@, "latest_attempt"@)->0;
                &&& attempt.text_member("source"@) == Some(entry.source)
                &&& attempt.get("completed_at_unix_ms"@) == Some(JsonView::Unsigned(now))
                &&& attempt.bool_member("partial"@) == Some(entry.partial)
                &&& attempt.bool_member("cancelled"@) == Some(entry.cancelled)
                &&& attempt.bool_member("complete"@) == Some(whole)
            })
        }),
{
    lemma_recovery_keys_differ();
    let incoming = incoming_record(entry, id, now);
    let complete = is_complete(entry, incoming);
    lemma_whole(entry, id, now);
    lemma_attempt(entry, complete, now);
    lemma_waited(existing);
    lemma_written_recovery(existing, entry, id, now, "retry_incomplete"@);
    lemma_written_recovery(existing, entry, id, now, "unresolved"@);
    lemma_written_recovery(existing, entry, id, now, "latest_attempt"@);
    lemma_recovery_members(existing, incoming, entry, complete, now, "unresolved"@);
}

/// A whole text replaces all that a record told but the recovery data: it reads as one that
/// was written for a new take.
pub proof fn whole_text_is_recorded_as_new(
    existing: JsonView,
    entry: EntryView,
    id: Seq<char>,
    now: u64,
    key: Seq<char>,
)
    requires
        existing is Object,
        !entry.partial,
        !entry.cancelled,
        record_text(first_record(entry, id, now)) is Some,
        key != "recovery"@,
    ensures
        merged_record(Some(existing), incoming_record(entry, id, now), entry, now).get(key)
            == first_record(entry, id, now).get(key),
        !record_partial(
            merged_record(Some(existing), incoming_record(entry, id, now), entry, now),
        ),
{
    lemma_record_names_differ();
    let incoming = incoming_record(entry, id, now);
    lemma_incoming(entry, id, now);
    record_holds_the_take(entry, id, now);
    lemma_record_members(Some(existing), incoming, entry, now, key);
    lemma_record_members(None, incoming, entry, now, key);
    crate::archive::laws::save_tells_what_is_incomplete(Some(existing), incoming, entry, now);
    if key == "schema_version"@ {
        let versioned = incoming.with("schema_version"@, JsonView::Unsigned(3));
        let partial = JsonView::Bool(entry.partial || entry.cancelled);
        let recovery = merged_recovery(Some(existing), incoming, entry, true, now).with(
            "partial"@,
            partial,
        );
        set_member_is_read_back(incoming, "schema_version"@, JsonView::Unsigned(3));
        set_member_keeps_the_others(versioned, "recovery"@, recovery, "schema_version"@);
    }
}

/// A text is recorded as partial exactly where its transcription was partial or cancelled.
pub proof fn partial_text_is_recorded_as_partial(entry: EntryView, id: Seq<char>, now: u64)
    ensures
        record_partial(first_record(entry, id, now)) <==> entry.partial || entry.cancelled,
        nested(first_record(entry, id, now), "recovery"@, "partial"@) == Some(
            JsonView::Bool(entry.partial || entry.cancelled),
        ),
{
    let incoming = incoming_record(entry, id, now);
    crate::archive::laws::save_tells_what_is_incomplete(None, incoming, entry, now);
}

proof fn lemma_cleanup(entry: EntryView)
    ensures
        ({
            let cleanup = postproc_record(entry);
            &&& cleanup.get("status"@) == Some(JsonView::Text(entry.postproc_status))
            &&& cleanup.get("model"@) == match entry.postproc_model {
                Some(model) => Some(JsonView::Text(model)),
                None => None,
            }
            &&& cleanup.get("elapsed_ms"@) == match entry.postproc_elapsed_ms {
                Some(elapsed) => Some(JsonView::Unsigned(elapsed)),
                None => None,
            }
            &&& cleanup.get("passes"@) == match entry.postproc_passes {
                Some(passes) => Some(JsonView::Unsigned(passes as u64)),
                None => None,
            }
            &&& cleanup.get("prompt_version"@) == match entry.postproc_prompt_version {
                Some(version) => Some(JsonView::Unsigned(version as u64)),
                None => None,
            }
            &&& cleanup.get("custom_instructions"@) == match entry.postproc_instructions {
                Some(instructions) => Some(JsonView::Text(instructions)),
                None => None,
            }
            &&& cleanup.get("usage"@) == usage_record(entry)
        }),
{
    lemma_cleanup_names_differ();
    let status: Members = seq![("status"@, JsonView::Text(entry.postproc_status))];
    first_member_is_read(status, 0);
    missing_member_is_not_read(status, "model"@);
    missing_member_is_not_read(status, "elapsed_ms"@);
    missing_member_is_not_read(status, "passes"@);
    missing_member_is_not_read(status, "prompt_version"@);
    missing_member_is_not_read(status, "custom_instructions"@);
    missing_member_is_not_read(status, "usage"@);
    let model_value = crate::archive::record::text_value(entry.postproc_model);
    let model = optional(status, "model"@, model_value);
    lemma_optional(status, "model"@, model_value, "status"@);
    lemma_optional(status, "model"@, model_value, "elapsed_ms"@);
    lemma_optional(status, "model"@, model_value, "passes"@);
    lemma_optional(status, "model"@, model_value, "prompt_version"@);
    lemma_optional(status, "model"@, model_value, "custom_instructions"@);
    lemma_optional(status, "model"@, model_value, "usage"@);
    let elapsed_value = crate::archive::record::unsigned_value(entry.postproc_elapsed_ms);
    let elapsed = optional(model, "elapsed_ms"@, elapsed_value);
    lemma_optional(model, "elapsed_ms"@, elapsed_value, "status"@);
    lemma_optional(model, "elapsed_ms"@, elapsed_value, "model"@);
    lemma_optional(model, "elapsed_ms"@, elapsed_value, "passes"@);
    lemma_optional(model, "elapsed_ms"@, elapsed_value, "prompt_version"@);
    lemma_optional(model, "elapsed_ms"@, elapsed_value, "custom_instructions"@);
    lemma_optional(model, "elapsed_ms"@, elapsed_value, "usage"@);
    let passes_value = match entry.postproc_passes {
        Some(passes) => Some(JsonView::Unsigned(passes as u64)),
        None => None,
    };
    let passes = optional(elapsed, "passes"@, passes_value);
    lemma_optional(elapsed, "passes"@, passes_value, "status"@);
    lemma_optional(elapsed, "passes"@, passes_value, "model"@);
    lemma_optional(elapsed, "passes"@, passes_value, "elapsed_ms"@);
    lemma_optional(elapsed, "passes"@, passes_value, "prompt_version"@);
    lemma_optional(elapsed, "passes"@, passes_value, "custom_instructions"@);
    lemma_optional(elapsed, "passes"@, passes_value, "usage"@);
    let version_value = match entry.postproc_prompt_version {
        Some(version) => Some(JsonView::Unsigned(version as u64)),
        None => None,
    };
    let version = optional(passes, "prompt_version"@, version_value);
    lemma_optional(passes, "prompt_version"@, version_value, "status"@);
    lemma_optional(passes, "prompt_version"@, version_value, "model"@);
    lemma_optional(passes, "prompt_version"@, version_value, "elapsed_ms"@);
    lemma_optional(passes, "prompt_version"@, version_value, "passes"@);
    lemma_optional(passes, "prompt_version"@, version_value, "custom_instructions"@);
    lemma_optional(passes, "prompt_version"@, version_value, "usage"@);
    let instructions_value = crate::archive::record::text_value(entry.postproc_instructions);
    let instructions = optional(version, "custom_instructions"@, instructions_value);
    lemma_optional(version, "custom_instructions"@, instructions_value, "status"@);
    lemma_optional(version, "custom_instructions"@, instructions_value, "model"@);
    lemma_optional(version, "custom_instructions"@, instructions_value, "elapsed_ms"@);
    lemma_optional(version, "custom_instructions"@, instructions_value, "passes"@);
    lemma_optional(version, "custom_instructions"@, instructions_value, "prompt_version"@);
    lemma_optional(version, "custom_instructions"@, instructions_value, "usage"@);
    let usage_value = usage_record(entry);
    lemma_optional(instructions, "usage"@, usage_value, "status"@);
    lemma_optional(instructions, "usage"@, usage_value, "model"@);
    lemma_optional(instructions, "usage"@, usage_value, "elapsed_ms"@);
    lemma_optional(instructions, "usage"@, usage_value, "passes"@);
    lemma_optional(instructions, "usage"@, usage_value, "prompt_version"@);
    lemma_optional(instructions, "usage"@, usage_value, "custom_instructions"@);
    assert(postproc_record(entry) == JsonView::Object(
        optional(instructions, "usage"@, usage_value),
    ));
}

/// A record tells how its text was cleaned up, and of what is not known nothing.
pub proof fn record_tells_the_cleanup(entry: EntryView, id: Seq<char>, now: u64)
    ensures
        ({
            let record = first_record(entry, id, now);
            &&& nested(record, "postproc"@, "status"@) == Some(
                JsonView::Text(entry.postproc_status),
            )
            &&& nested(record, "postproc"@, "model"@) is Some <==> entry.postproc_model is Some
            &&& entry.postproc_model is Some ==> nested(record, "postproc"@, "model"@) == Some(
                JsonView::Text(entry.postproc_model->0),
            )
            &&& nested(record, "postproc"@, "elapsed_ms"@) is Some
                <==> entry.postproc_elapsed_ms is Some
            &&& entry.postproc_elapsed_ms is Some ==> nested(record, "postproc"@, "elapsed_ms"@)
                == Some(JsonView::Unsigned(entry.postproc_elapsed_ms->0))
            &&& nested(record, "postproc"@, "passes"@) is Some <==> entry.postproc_passes is Some
            &&& entry.postproc_passes is Some ==> nested(record, "postproc"@, "passes"@) == Some(
                JsonView::Unsigned(entry.postproc_passes->0 as u64),
            )
            &&& nested(record, "postproc"@, "prompt_version"@) is Some
                <==> entry.postproc_prompt_version is Some
            &&& entry.postproc_prompt_version is Some ==> nested(
                record,
                "postproc"@,
                "prompt_version"@,
            ) == Some(JsonView::Unsigned(entry.postproc_prompt_version->0 as u64))
            &&& nested(record, "postproc"@, "custom_instructions"@) is Some
                <==> entry.postproc_instructions is Some
            &&& entry.postproc_instructions is Some ==> nested(
                record,
                "postproc"@,
                "custom_instructions"@,
            ) == Some(JsonView::Text(entry.postproc_instructions->0))
            &&& nested(record, "postproc"@, "usage"@) is Some
                <==> entry.postproc_prompt_tokens is Some
        }),
{
    lemma_record_names_differ();
    lemma_cleanup(entry);
    lemma_incoming(entry, id, now);
    lemma_first_record(entry, id, now, "postproc"@);
}

/// A record tells what the cleanup used, each count under its own name and zero where it is
/// not known.
pub proof fn record_tells_the_usage(entry: EntryView, id: Seq<char>, now: u64)
    requires
        entry.postproc_prompt_tokens is Some,
    ensures
        ({
            let record = first_record(entry, id, now);
            let usage = nested(record, "postproc"@, "usage"@)->0;
            let counted = |number: Option<u64>|
                Some(
                    JsonView::Unsigned(
                        match number {
                            Some(number) => number,
                            None => 0,
                        },
                    ),
                );
            let times = |number: Option<u8>|
                Some(
                    JsonView::Unsigned(
                        match number {
                            Some(number) => number as u64,
                            None => 0,
                        },
                    ),
                );
            &&& usage.get("prompt_tokens"@) == counted(entry.postproc_prompt_tokens)
            &&& usage.get("completion_tokens"@) == counted(entry.postproc_completion_tokens)
            &&& usage.get("total_tokens"@) == counted(entry.postproc_total_tokens)
            &&& usage.get("reasoning_tokens"@) == counted(entry.postproc_reasoning_tokens)
            &&& usage.get("cached_tokens"@) == counted(entry.postproc_cached_tokens)
            &&& usage.get("requests"@) == times(entry.postproc_usage_requests)
            &&& usage.get("responses_with_usage"@) == times(entry.postproc_usage_responses)
            &&& entry.postproc_reported_cost_usd is Some ==> usage.get("reported_cost_usd"@)
                == Some(JsonView::Float(entry.postproc_reported_cost_usd->0))
            &&& entry.postproc_reported_cost_usd is None ==> usage.get("reported_cost_usd"@) is None
        }),
{
    lemma_record_names_differ();
    lemma_usage_names_differ();
    lemma_cleanup(entry);
    lemma_incoming(entry, id, now);
    lemma_first_record(entry, id, now, "postproc"@);
    let cost = match entry.postproc_reported_cost_usd {
        Some(cost) => Some(JsonView::Float(cost)),
        None => None,
    };
    let all = usage_record(entry)->0->Object_0;
    let members = all.take(7);
    assert(all =~= optional(members, "reported_cost_usd"@, cost));
    missing_member_is_not_read(members, "reported_cost_usd"@);
    first_member_is_read(members, 0);
    first_member_is_read(members, 1);
    first_member_is_read(members, 2);
    first_member_is_read(members, 3);
    first_member_is_read(members, 4);
    first_member_is_read(members, 5);
    first_member_is_read(members, 6);
    lemma_optional(members, "reported_cost_usd"@, cost, "prompt_tokens"@);
    lemma_optional(members, "reported_cost_usd"@, cost, "completion_tokens"@);
    lemma_optional(members, "reported_cost_usd"@, cost, "total_tokens"@);
    lemma_optional(members, "reported_cost_usd"@, cost, "reasoning_tokens"@);
    lemma_optional(members, "reported_cost_usd"@, cost, "cached_tokens"@);
    lemma_optional(members, "reported_cost_usd"@, cost, "requests"@);
    lemma_optional(members, "reported_cost_usd"@, cost, "responses_with_usage"@);
}

/// What takes the place of a malformed record waits for a decision and names the copy that
/// was kept, and a whole text written over it keeps both.
pub proof fn replaced_record_names_its_copy(
    entry: EntryView,
    id: Seq<char>,
    backup: Seq<char>,
    now: u64,
)
    ensures
        ({
            let record = merged_record(
                Some(stub_record(id, backup, now)),
                incoming_record(entry, id, now),
                entry,
                now,
            );
            &&& nested(record, "recovery"@, "corrupt_record"@) == Some(JsonView::Text(backup))
            &&& nested(record, "recovery"@, "unresolved"@) == Some(JsonView::Bool(true))
            &&& nested(record, "recovery"@, "created_at_unix_ms"@) == Some(
                JsonView::Unsigned(now),
            )
        }),
{
    lemma_record_names_differ();
    lemma_stub_names_differ();
    lemma_recovery_keys_differ();
    let stub = stub_record(id, backup, now);
    let members = stub->Object_0;
    first_member_is_read(members, 3);
    let recovery = members[3].1->Object_0;
    first_member_is_read(recovery, 0);
    first_member_is_read(recovery, 1);
    first_member_is_read(recovery, 2);
    reveal_strlit("corrupt_record");
    reveal_strlit("latest_attempt");
    reveal_strlit("retry_incomplete");
    reveal_strlit("origin");
    reveal_strlit("partial");
    assert("corrupt_record"@.len() == 14);
    assert("latest_attempt"@.len() == 14);
    assert("retry_incomplete"@.len() == 16);
    assert("origin"@.len() == 6);
    assert("partial"@.len() == 7);
    assert("corrupt_record"@[0] == 'c');
    assert("latest_attempt"@[0] == 'l');
    let incoming = incoming_record(entry, id, now);
    let complete = is_complete(entry, incoming);
    lemma_written_recovery(Some(stub), entry, id, now, "corrupt_record"@);
    lemma_written_recovery(Some(stub), entry, id, now, "unresolved"@);
    lemma_written_recovery(Some(stub), entry, id, now, "created_at_unix_ms"@);
    lemma_recovery_members(Some(stub), incoming, entry, complete, now, "corrupt_record"@);
}

proof fn lemma_hex_length(bytes: Seq<u8>)
    ensures
        hex(bytes).len() == 2 * bytes.len(),
    decreases bytes.len(),
{
    if bytes.len() > 0 {
        lemma_hex_length(bytes.drop_last());
    }
}

/// A digest is written with two digits for each byte, and two digests alike only where they
/// are the same.
pub proof fn digests_are_told_apart(a: Seq<u8>, b: Seq<u8>)
    ensures
        hex(a).len() == 2 * a.len(),
        hex(a) == hex(b) ==> a == b,
    decreases a.len(),
{
    lemma_hex_length(a);
    lemma_hex_length(b);
    if hex(a) == hex(b) {
        if a.len() > 0 {
            let n = hex(a).len() as int;
            lemma_hex_length(a.drop_last());
            lemma_hex_length(b.drop_last());
            assert(hex(a.drop_last()) =~= hex(a).take(n - 2));
            assert(hex(b.drop_last()) =~= hex(b).take(n - 2));
            digests_are_told_apart(a.drop_last(), b.drop_last());
            assert(hex(a)[n - 2] == digit_char(a.last() as nat / 16));
            assert(hex(b)[n - 2] == digit_char(b.last() as nat / 16));
            assert(hex(a)[n - 1] == digit_char(a.last() as nat % 16));
            assert(hex(b)[n - 1] == digit_char(b.last() as nat % 16));
            assert(a.last() == b.last());
            assert(a =~= a.drop_last().push(a.last()));
            assert(b =~= b.drop_last().push(b.last()));
        } else {
            assert(a =~= b);
        }
    }
}

/// Two takes have two record files.
pub proof fn takes_have_files_of_their_own(a: Seq<char>, b: Seq<char>)
    requires
        record_file(a) == record_file(b),
    ensures
        a == b,
{
    reveal_strlit(".json");
    assert(record_file(a).len() == a.len() + 5);
    assert(record_file(b).len() == b.len() + 5);
    assert(a =~= record_file(a).take(a.len() as int));
    assert(b =~= record_file(b).take(b.len() as int));
}

/// An artifact is trusted exactly where it is a plain file that the user owns under one name,
/// and a private one exactly where nobody else may read, write or run it either.
pub proof fn only_own_files_are_trusted(facts: FileFacts, private: bool)
    ensures
        file_check(facts, private) is Ok <==> facts.is_file && facts.owned && facts.links == 1 && (
        private ==> facts.mode % 8 == 0 && (facts.mode / 8) % 8 == 0),
        file_check(facts, private) == Err::<(), ArchiveError>(ArchiveError::ForeignFile)
            <==> !facts.is_file || !facts.owned || facts.links != 1,
{
}

/// The recording's name is letters, digits, hyphens and underlines, so that it is no path.
pub proof fn names_of_takes_are_plain(id: Seq<char>, at: int)
    requires
        is_valid_id(id),
        0 <= at < id.len(),
    ensures
        0 < id.len() <= 128,
        id[at] != '/' && id[at] != '.' && id[at] != '\0' && id[at] != ' ',
        is_file_name(id),
{
    reveal_strlit(".");
    reveal_strlit("..");
    assert forall|i: int| 0 <= i < id.len() implies #[trigger] id[i] != '/' && id[i] != '\0'
        && id[i] != '.' by {
        assert(crate::archive::is_id_char(id[i]));
    }
    assert(id[0] != '.');
}

/// A recording's name is one to a hundred and twenty-eight letters, digits, hyphens and
/// underlines, and every such text is one.
pub proof fn plain_texts_are_names(id: Seq<char>)
    ensures
        is_valid_id(id) <==> 0 < id.len() <= 128 && forall|i: int|
            0 <= i < id.len() ==> ('a' <= (#[trigger] id[i]) <= 'z') || ('A' <= id[i] <= 'Z') || (
            '0' <= id[i] <= '9') || id[i] == '-' || id[i] == '_',
{
    if is_valid_id(id) {
        assert forall|i: int| 0 <= i < id.len() implies ('a' <= (#[trigger] id[i]) <= 'z') || ('A'
            <= id[i] <= 'Z') || ('0' <= id[i] <= '9') || id[i] == '-' || id[i] == '_' by {
            assert(crate::archive::is_id_char(id[i]));
        }
    }
}

/// A file is named by anything but the two names of directories and what leads out of one.
pub proof fn names_of_files_lead_nowhere(name: Seq<char>, at: int)
    ensures
        is_file_name(name) ==> name.len() > 0 && name != "."@ && name != ".."@,
        is_file_name(name) && 0 <= at < name.len() ==> name[at] != '/' && name[at] != '\0',
        name.len() > 0 && name != "."@ && name != ".."@ && (forall|i: int|
            0 <= i < name.len() ==> #[trigger] name[i] != '/' && name[i] != '\0')
            ==> is_file_name(name),
        record_file(name) == name + ".json"@,
{
}

/// A take keeps the time at which it was made, as its record tells it, and is as old as its
/// first attempt where none does.
pub proof fn takes_keep_their_age(
    existing: Option<JsonView>,
    entry: EntryView,
    id: Seq<char>,
    now: u64,
)
    requires
        existing is Some ==> existing->0 is Object,
    ensures
        ({
            let created = record_created(
                merged_record(existing, incoming_record(entry, id, now), entry, now),
            );
            &&& existing is None ==> created == now
            &&& existing is Some && record_created(existing->0) == 0 ==> created == now
            &&& existing is Some && record_created(existing->0) > 0 ==> created == record_created(
                existing->0,
            )
        }),
{
    let incoming = incoming_record(entry, id, now);
    crate::archive::laws::creation_date_is_kept(existing, incoming, entry, now);
}

/// What stands for a malformed record is one of a recovery, of the same take.
pub proof fn stubs_name_their_take(id: Seq<char>, backup: Seq<char>, now: u64)
    ensures
        ({
            let stub = stub_record(id, backup, now);
            &&& stub is Object
            &&& stub.text_member("session_id"@) == Some(id)
            &&& stub.text_member("source"@) == Some("recovery"@)
            &&& record_text(stub) is None
            &&& stub.get("stt"@) is None
        }),
{
    lemma_record_names_differ();
    let members = stub_record(id, backup, now)->Object_0;
    first_member_is_read(members, 1);
    first_member_is_read(members, 2);
    missing_member_is_not_read(members, "stt"@);
    missing_member_is_not_read(members, "raw_transcript"@);
    missing_member_is_not_read(members, "postprocessed_transcript"@);
}

/// A malformed record is kept under the name of its take and what it held.
pub proof fn malformed_records_are_kept_apart(id: Seq<char>, digest: Seq<u8>, other: Seq<u8>)
    ensures
        backup_file(id, digest) == id + ".json.corrupt-"@ + hex(digest),
        backup_file(id, digest) == backup_file(id, other) ==> digest == other,
        backup_file(id, digest) != record_file(id),
{
    reveal_strlit(".json.corrupt-");
    reveal_strlit(".json");
    let front = id + ".json.corrupt-"@;
    assert(backup_file(id, digest).skip(front.len() as int) =~= hex(digest));
    assert(backup_file(id, other).skip(front.len() as int) =~= hex(other));
    digests_are_told_apart(digest, other);
    assert(backup_file(id, digest).len() > record_file(id).len());
}

} // verus!
