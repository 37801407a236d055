//! What an attempt on a take writes, and how it is merged into the take's record.

use crate::archive::{
    created_at_ms, final_text, nested, record_created, record_text, ArchiveError, Entry, EntryView,
    SCHEMA_VERSION,
};
use crate::json::{member_trees, parse_json, parsed_json, Json, JsonView};
use crate::text::{digit, digit_char, same};
use vstd::prelude::*;
use vstd::string::*;

verus! {

/// Members of an object under construction.
pub type Members = Seq<(Seq<char>, JsonView)>;

/// With one more member, where there is a value for it.
pub open spec fn optional(members: Members, key: Seq<char>, value: Option<JsonView>) -> Members {
    match value {
        Some(value) => members.push((key, value)),
        None => members,
    }
}

/// An optional text as a value.
pub open spec fn text_value(text: Option<Seq<char>>) -> Option<JsonView> {
    match text {
        Some(text) => Some(JsonView::Text(text)),
        None => None,
    }
}

/// An optional number as a value.
pub open spec fn unsigned_value(number: Option<u64>) -> Option<JsonView> {
    match number {
        Some(number) => Some(JsonView::Unsigned(number)),
        None => None,
    }
}

/// An optional cost as a value.
pub open spec fn cost_value(cost: Option<Seq<char>>) -> Option<JsonView> {
    match cost {
        Some(cost) => Some(JsonView::Float(cost)),
        None => None,
    }
}

/// A number, or zero.
pub open spec fn or_zero(number: Option<u64>) -> u64 {
    match number {
        Some(number) => number,
        None => 0,
    }
}

/// A small number as a wide one.
pub open spec fn widened(number: Option<u8>) -> Option<u64> {
    match number {
        Some(number) => Some(number as u64),
        None => None,
    }
}

/// How the take was transcribed.
pub open spec fn stt_record(entry: EntryView) -> JsonView {
    JsonView::Object(
        optional(
            seq![
                ("model"@, JsonView::Text(entry.stt_model)),
                (
                    "backend"@,
                    JsonView::Text(
                        if entry.stt_remote {
                            "cloud"@
                        } else {
                            "local"@
                        },
                    ),
                ),
                ("elapsed_ms"@, JsonView::Unsigned(entry.stt_elapsed_ms)),
                ("partial"@, JsonView::Bool(entry.partial)),
                ("cancelled"@, JsonView::Bool(entry.cancelled)),
            ],
            "api_cost_usd"@,
            cost_value(entry.stt_api_cost_usd),
        ),
    )
}

/// What the cleanup used, where its provider said so.
pub open spec fn usage_record(entry: EntryView) -> Option<JsonView> {
    match entry.postproc_prompt_tokens {
        Some(prompt_tokens) => Some(
            JsonView::Object(
                optional(
                    seq![
                        ("prompt_tokens"@, JsonView::Unsigned(prompt_tokens)),
                        (
                            "completion_tokens"@,
                            JsonView::Unsigned(or_zero(entry.postproc_completion_tokens)),
                        ),
                        (
                            "total_tokens"@,
                            JsonView::Unsigned(or_zero(entry.postproc_total_tokens)),
                        ),
                        (
                            "reasoning_tokens"@,
                            JsonView::Unsigned(or_zero(entry.postproc_reasoning_tokens)),
                        ),
                        (
                            "cached_tokens"@,
                            JsonView::Unsigned(or_zero(entry.postproc_cached_tokens)),
                        ),
                        (
                            "requests"@,
                            JsonView::Unsigned(or_zero(widened(entry.postproc_usage_requests))),
                        ),
                        (
                            "responses_with_usage"@,
                            JsonView::Unsigned(or_zero(widened(entry.postproc_usage_responses))),
                        ),
                    ],
                    "reported_cost_usd"@,
                    cost_value(entry.postproc_reported_cost_usd),
                ),
            ),
        ),
        None => None,
    }
}

/// How the text was cleaned up.
pub open spec fn postproc_record(entry: EntryView) -> JsonView {
    let status = seq![("status"@, JsonView::Text(entry.postproc_status))];
    let model = optional(status, "model"@, text_value(entry.postproc_model));
    let elapsed = optional(model, "elapsed_ms"@, unsigned_value(entry.postproc_elapsed_ms));
    let passes = optional(elapsed, "passes"@, unsigned_value(widened(entry.postproc_passes)));
    let version = optional(
        passes,
        "prompt_version"@,
        match entry.postproc_prompt_version {
            Some(version) => Some(JsonView::Unsigned(version as u64)),
            None => None,
        },
    );
    let instructions = optional(
        version,
        "custom_instructions"@,
        text_value(entry.postproc_instructions),
    );
    JsonView::Object(optional(instructions, "usage"@, usage_record(entry)))
}

/// The record that an attempt would write by itself.
pub open spec fn incoming_record(entry: EntryView, id: Seq<char>, now: u64) -> JsonView {
    JsonView::Object(
        seq![
            ("schema_version"@, JsonView::Unsigned(SCHEMA_VERSION as u64)),
            ("session_id"@, JsonView::Text(id)),
            ("completed_at_unix_ms"@, JsonView::Unsigned(now)),
            ("source"@, JsonView::Text(entry.source)),
            (
                "audio"@,
                JsonView::Object(
                    optional(
                        Seq::empty(),
                        "duration_ms"@,
                        unsigned_value(entry.audio_duration_ms),
                    ),
                ),
            ),
            (
                "pipeline"@,
                JsonView::Object(
                    seq![("elapsed_ms"@, JsonView::Unsigned(entry.pipeline_elapsed_ms))],
                ),
            ),
            ("stt"@, stt_record(entry)),
            ("postproc"@, postproc_record(entry)),
            ("raw_transcript"@, JsonView::Text(entry.raw_transcript)),
            (
                "postprocessed_transcript"@,
                match entry.postprocessed_transcript {
                    Some(text) => JsonView::Text(text),
                    None => JsonView::Null,
                },
            ),
        ],
    )
}

fn add_member(members: &mut Vec<(String, Json)>, key: &str, value: Json)
    ensures
        member_trees(final(members)@) == member_trees(old(members)@).push((key@, value.tree())),
{
    let ghost tree = value.tree();
    members.push((key.to_owned(), value));
    assert(member_trees(members@) =~= member_trees(old(members)@).push((key@, tree)));
}

fn add_unsigned(members: &mut Vec<(String, Json)>, key: &str, value: Option<u64>)
    ensures
        member_trees(final(members)@) == optional(
            member_trees(old(members)@),
            key@,
            unsigned_value(value),
        ),
{
    if let Some(value) = value {
        add_member(members, key, Json::Unsigned(value));
    }
}

fn add_text(members: &mut Vec<(String, Json)>, key: &str, value: &Option<String>)
    ensures
        member_trees(final(members)@) == optional(
            member_trees(old(members)@),
            key@,
            match *value {
                Some(text) => Some(JsonView::Text(text@)),
                None => None,
            },
        ),
{
    if let Some(value) = value {
        add_member(members, key, Json::Text(value.clone()));
    }
}

fn add_cost(members: &mut Vec<(String, Json)>, key: &str, value: &Option<String>)
    ensures
        member_trees(final(members)@) == optional(
            member_trees(old(members)@),
            key@,
            match *value {
                Some(cost) => Some(JsonView::Float(cost@)),
                None => None,
            },
        ),
{
    if let Some(value) = value {
        add_member(members, key, Json::Float(value.clone()));
    }
}

fn no_members() -> (result: Vec<(String, Json)>)
    ensures
        member_trees(result@) == Members::empty(),
{
    let result: Vec<(String, Json)> = Vec::new();
    assert(member_trees(result@) =~= Members::empty());
    result
}

fn object_of(members: Vec<(String, Json)>) -> (result: Json)
    ensures
        result.tree() == JsonView::Object(member_trees(members@)),
{
    let result = Json::Object(members);
    assert(result.tree()->Object_0 =~= member_trees(members@));
    result
}

fn wide(number: Option<u8>) -> (result: Option<u64>)
    ensures
        result == widened(number),
{
    match number {
        Some(number) => Some(number as u64),
        None => None,
    }
}

fn number_or_zero(number: Option<u64>) -> (result: u64)
    ensures
        result == or_zero(number),
{
    match number {
        Some(number) => number,
        None => 0,
    }
}

fn stt_members(entry: &Entry) -> (result: Json)
    ensures
        result.tree() == stt_record(entry@),
{
    let mut members = no_members();
    add_member(&mut members, "model", Json::Text(entry.stt_model.clone()));
    let backend = if entry.stt_remote {
        "cloud"
    } else {
        "local"
    };
    add_member(&mut members, "backend", Json::text(backend));
    add_member(&mut members, "elapsed_ms", Json::Unsigned(entry.stt_elapsed_ms));
    add_member(&mut members, "partial", Json::Bool(entry.partial));
    add_member(&mut members, "cancelled", Json::Bool(entry.cancelled));
    add_cost(&mut members, "api_cost_usd", &entry.stt_api_cost_usd);
    assert(member_trees(members@) =~= stt_record(entry@)->Object_0);
    object_of(members)
}

fn usage_members(entry: &Entry, prompt_tokens: u64) -> (result: Json)
    requires
        entry.postproc_prompt_tokens == Some(prompt_tokens),
    ensures
        usage_record(entry@) == Some(result.tree()),
{
    let mut members = no_members();
    add_member(&mut members, "prompt_tokens", Json::Unsigned(prompt_tokens));
    add_member(
        &mut members,
        "completion_tokens",
        Json::Unsigned(number_or_zero(entry.postproc_completion_tokens)),
    );
    add_member(
        &mut members,
        "total_tokens",
        Json::Unsigned(number_or_zero(entry.postproc_total_tokens)),
    );
    add_member(
        &mut members,
        "reasoning_tokens",
        Json::Unsigned(number_or_zero(entry.postproc_reasoning_tokens)),
    );
    add_member(
        &mut members,
        "cached_tokens",
        Json::Unsigned(number_or_zero(entry.postproc_cached_tokens)),
    );
    add_member(
        &mut members,
        "requests",
        Json::Unsigned(number_or_zero(wide(entry.postproc_usage_requests))),
    );
    add_member(
        &mut members,
        "responses_with_usage",
        Json::Unsigned(number_or_zero(wide(entry.postproc_usage_responses))),
    );
    add_cost(&mut members, "reported_cost_usd", &entry.postproc_reported_cost_usd);
    assert(member_trees(members@) =~= usage_record(entry@)->0->Object_0);
    object_of(members)
}

fn postproc_members(entry: &Entry) -> (result: Json)
    ensures
        result.tree() == postproc_record(entry@),
{
    let mut members = no_members();
    add_member(&mut members, "status", Json::Text(entry.postproc_status.clone()));
    assert(member_trees(members@) =~= seq![
        ("status"@, JsonView::Text(entry@.postproc_status)),
    ]);
    add_text(&mut members, "model", &entry.postproc_model);
    add_unsigned(&mut members, "elapsed_ms", entry.postproc_elapsed_ms);
    add_unsigned(&mut members, "passes", wide(entry.postproc_passes));
    let version: Option<u64> = match entry.postproc_prompt_version {
        Some(version) => Some(version as u64),
        None => None,
    };
    add_unsigned(&mut members, "prompt_version", version);
    add_text(&mut members, "custom_instructions", &entry.postproc_instructions);
    if let Some(prompt_tokens) = entry.postproc_prompt_tokens {
        add_member(&mut members, "usage", usage_members(entry, prompt_tokens));
    }
    object_of(members)
}

/// The record that an attempt would write by itself.
pub fn new_record(entry: &Entry, id: &str, now: u64) -> (result: Json)
    ensures
        result.tree() == incoming_record(entry@, id@, now),
{
    let mut members = no_members();
    add_member(&mut members, "schema_version", Json::Unsigned(SCHEMA_VERSION as u64));
    add_member(&mut members, "session_id", Json::text(id));
    add_member(&mut members, "completed_at_unix_ms", Json::Unsigned(now));
    add_member(&mut members, "source", Json::Text(entry.source.clone()));
    let mut audio = no_members();
    add_unsigned(&mut audio, "duration_ms", entry.audio_duration_ms);
    add_member(&mut members, "audio", object_of(audio));
    let mut pipeline = no_members();
    add_member(&mut pipeline, "elapsed_ms", Json::Unsigned(entry.pipeline_elapsed_ms));
    assert(member_trees(pipeline@) =~= seq![
        ("elapsed_ms"@, JsonView::Unsigned(entry.pipeline_elapsed_ms)),
    ]);
    add_member(&mut members, "pipeline", object_of(pipeline));
    add_member(&mut members, "stt", stt_members(entry));
    add_member(&mut members, "postproc", postproc_members(entry));
    add_member(&mut members, "raw_transcript", Json::Text(entry.raw_transcript.clone()));
    let cleaned = match &entry.postprocessed_transcript {
        Some(text) => Json::Text(text.clone()),
        None => Json::Null,
    };
    add_member(&mut members, "postprocessed_transcript", cleaned);
    assert(member_trees(members@) =~= incoming_record(entry@, id@, now)->Object_0);
    object_of(members)
}

/// Whether an attempt brought a whole text.
pub open spec fn is_complete(entry: EntryView, incoming: JsonView) -> bool {
    !entry.partial && !entry.cancelled && record_text(incoming) is Some
}

/// Where a take came from first: its oldest known record, or this attempt where
/// only a repaired stub is left of it.
pub open spec fn origin_record(existing: Option<JsonView>, incoming: JsonView) -> JsonView {
    match existing {
        Some(old) if old.get("stt"@) is Some || record_text(old) is Some || old.text_member(
            "source"@,
        ) != Some("recovery"@) => old,
        _ => incoming,
    }
}

/// A value, or null.
pub open spec fn or_null(value: Option<JsonView>) -> JsonView {
    match value {
        Some(value) => value,
        None => JsonView::Null,
    }
}

/// What is kept of a take's origin.
pub open spec fn origin_summary(origin: JsonView) -> JsonView {
    JsonView::Object(
        seq![
            ("source"@, or_null(origin.get("source"@))),
            ("completed_at_unix_ms"@, or_null(origin.get("completed_at_unix_ms"@))),
            ("stt_model"@, or_null(nested(origin, "stt"@, "model"@))),
            ("stt_backend"@, or_null(nested(origin, "stt"@, "backend"@))),
        ],
    )
}

/// What is kept of the latest attempt.
pub open spec fn attempt_summary(entry: EntryView, complete: bool, now: u64) -> JsonView {
    JsonView::Object(
        seq![
            ("source"@, JsonView::Text(entry.source)),
            ("completed_at_unix_ms"@, JsonView::Unsigned(now)),
            ("partial"@, JsonView::Bool(entry.partial)),
            ("cancelled"@, JsonView::Bool(entry.cancelled)),
            ("complete"@, JsonView::Bool(complete)),
        ],
    )
}

/// The recovery data that a record has so far.
pub open spec fn known_recovery(existing: Option<JsonView>) -> JsonView {
    match existing {
        Some(old) => match old.get("recovery"@) {
            Some(recovery) if recovery is Object => recovery,
            _ => JsonView::Object(Seq::empty()),
        },
        None => JsonView::Object(Seq::empty()),
    }
}

/// When the take was made: as its record says, else now.
pub open spec fn kept_creation(existing: Option<JsonView>, now: u64) -> u64 {
    match existing {
        Some(old) if record_created(old) > 0 => record_created(old),
        _ => now,
    }
}

/// The recovery data after an attempt.
pub open spec fn merged_recovery(
    existing: Option<JsonView>,
    incoming: JsonView,
    entry: EntryView,
    complete: bool,
    now: u64,
) -> JsonView {
    let known = known_recovery(existing);
    let updated = known.with(
        "created_at_unix_ms"@,
        JsonView::Unsigned(kept_creation(existing, now)),
    ).with("retry_incomplete"@, JsonView::Bool(!complete)).with(
        "unresolved"@,
        JsonView::Bool(!complete || known.bool_member("unresolved"@) == Some(true)),
    ).with("latest_attempt"@, attempt_summary(entry, complete, now));
    if updated.get("origin"@) is None {
        updated.with("origin"@, origin_summary(origin_record(existing, incoming)))
    } else {
        updated
    }
}

/// Whether the record's text stands although the attempt brought another: a retry
/// cannot replace a usable text until its own is whole.
pub open spec fn preserves(existing: Option<JsonView>, complete: bool) -> bool {
    match existing {
        Some(old) => record_text(old) is Some && !complete,
        None => false,
    }
}

/// The record after an attempt.
pub open spec fn merged_record(
    existing: Option<JsonView>,
    incoming: JsonView,
    entry: EntryView,
    now: u64,
) -> JsonView {
    let complete = is_complete(entry, incoming);
    let recovery = merged_recovery(existing, incoming, entry, complete, now);
    if preserves(existing, complete) {
        existing->0.with("schema_version"@, JsonView::Unsigned(SCHEMA_VERSION as u64)).with(
            "recovery"@,
            recovery,
        )
    } else {
        incoming.with("schema_version"@, JsonView::Unsigned(SCHEMA_VERSION as u64)).with(
            "recovery"@,
            recovery.with("partial"@, JsonView::Bool(entry.partial || entry.cancelled)),
        )
    }
}

fn copy_or_null(value: Option<&Json>) -> (result: Json)
    ensures
        result.tree() == or_null(
            match value {
                Some(value) => Some(value.tree()),
                None => None,
            },
        ),
{
    match value {
        Some(value) => value.copy(),
        None => Json::Null,
    }
}

fn summarize_origin(origin: &Json) -> (result: Json)
    ensures
        result.tree() == origin_summary(origin.tree()),
{
    let stt = origin.get("stt");
    let model = match stt {
        Some(stt) => stt.get("model"),
        None => None,
    };
    let backend = match stt {
        Some(stt) => stt.get("backend"),
        None => None,
    };
    let mut members = no_members();
    add_member(&mut members, "source", copy_or_null(origin.get("source")));
    add_member(
        &mut members,
        "completed_at_unix_ms",
        copy_or_null(origin.get("completed_at_unix_ms")),
    );
    add_member(&mut members, "stt_model", copy_or_null(model));
    add_member(&mut members, "stt_backend", copy_or_null(backend));
    assert(member_trees(members@) =~= origin_summary(origin.tree())->Object_0);
    object_of(members)
}

fn summarize_attempt(entry: &Entry, complete: bool, now: u64) -> (result: Json)
    ensures
        result.tree() == attempt_summary(entry@, complete, now),
{
    let mut members = no_members();
    add_member(&mut members, "source", Json::Text(entry.source.clone()));
    add_member(&mut members, "completed_at_unix_ms", Json::Unsigned(now));
    add_member(&mut members, "partial", Json::Bool(entry.partial));
    add_member(&mut members, "cancelled", Json::Bool(entry.cancelled));
    add_member(&mut members, "complete", Json::Bool(complete));
    assert(member_trees(members@) =~= attempt_summary(entry@, complete, now)->Object_0);
    object_of(members)
}

/// What a record holds, where there is one.
pub open spec fn optional_tree(record: Option<Json>) -> Option<JsonView> {
    match record {
        Some(record) => Some(record.tree()),
        None => None,
    }
}

fn merge_recovery(
    existing: &Option<Json>,
    incoming: &Json,
    entry: &Entry,
    complete: bool,
    now: u64,
) -> (result: Json)
    ensures
        result.tree() == merged_recovery(
            optional_tree(*existing),
            incoming.tree(),
            entry@,
            complete,
            now,
        ),
{
    let mut recovery = match existing {
        Some(old) => match old.get("recovery") {
            Some(recovery) => {
                if recovery.is_object() {
                    recovery.copy()
                } else {
                    Json::object()
                }
            },
            None => Json::object(),
        },
        None => Json::object(),
    };
    assert(recovery.tree() == known_recovery(optional_tree(*existing)));
    let known: u64 = match existing {
        Some(old) => created_at_ms(old),
        None => 0,
    };
    let created_at: u64 = if known > 0 {
        known
    } else {
        now
    };
    let unresolved = !complete || match recovery.bool_member("unresolved") {
        Some(unresolved) => unresolved,
        None => false,
    };
    recovery.set("created_at_unix_ms", Json::Unsigned(created_at));
    recovery.set("retry_incomplete", Json::Bool(!complete));
    recovery.set("unresolved", Json::Bool(unresolved));
    recovery.set("latest_attempt", summarize_attempt(entry, complete, now));
    if recovery.get("origin").is_none() {
        let origin = match existing {
            Some(old) => {
                let recovered = match old.text_member("source") {
                    Some(source) => same(source.as_str(), "recovery"),
                    None => false,
                };
                if old.get("stt").is_some() || final_text(old).is_some() || !recovered {
                    old
                } else {
                    incoming
                }
            },
            None => incoming,
        };
        recovery.set("origin", summarize_origin(origin));
    }
    recovery
}

/// Merge an attempt into a take's record.
pub fn merge(existing: Option<Json>, incoming: Json, entry: &Entry, now: u64) -> (result: Json)
    ensures
        result.tree() == merged_record(optional_tree(existing), incoming.tree(), entry@, now),
{
    let complete = !entry.partial && !entry.cancelled && final_text(&incoming).is_some();
    let mut recovery = merge_recovery(&existing, &incoming, entry, complete, now);
    let (mut result, preserve) = match existing {
        Some(old) => {
            if final_text(&old).is_some() && !complete {
                (old, true)
            } else {
                (incoming, false)
            }
        },
        None => (incoming, false),
    };
    if !preserve {
        recovery.set("partial", Json::Bool(entry.partial || entry.cancelled));
    }
    result.set("schema_version", Json::Unsigned(SCHEMA_VERSION as u64));
    result.set("recovery", recovery);
    result
}

/// The digest that `sha2::Sha256` computes.
pub uninterp spec fn sha256_digest(bytes: Seq<u8>) -> Seq<u8>;

/// `Sha256::digest` hashes all bytes into thirty-two.
#[verifier::external_body]
fn sha256(bytes: &[u8]) -> (digest: Vec<u8>)
    ensures
        digest@ == sha256_digest(bytes@),
        digest@.len() == 32,
{
    <sha2::Sha256 as sha2::Digest>::digest(bytes).to_vec()
}

/// Bytes in hexadecimal, two lower-case digits each.
pub open spec fn hex(bytes: Seq<u8>) -> Seq<char>
    decreases bytes.len(),
{
    if bytes.len() == 0 {
        Seq::empty()
    } else {
        hex(bytes.drop_last()).push(digit_char(bytes.last() as nat / 16)).push(
            digit_char(bytes.last() as nat % 16),
        )
    }
}

/// The name under which a malformed record is kept: content addressing avoids a
/// second copy when the same interrupted repair is attempted again.
pub open spec fn backup_file(id: Seq<char>, digest: Seq<u8>) -> Seq<char> {
    id + ".json.corrupt-"@ + hex(digest)
}

/// The name of a copy with the given digest.
pub fn backup_name(id: &str, digest: &Vec<u8>) -> (result: String)
    ensures
        result@ == backup_file(id@, digest@),
{
    let mut name: String = id.to_owned();
    name.append(".json.corrupt-");
    let mut index: usize = 0;
    assert(digest@.take(0) =~= Seq::empty());
    assert(name@ =~= id@ + ".json.corrupt-"@ + hex(digest@.take(0)));
    while index < digest.len()
        invariant
            index <= digest@.len(),
            name@ == id@ + ".json.corrupt-"@ + hex(digest@.take(index as int)),
        decreases digest@.len() - index,
    {
        let byte: u8 = digest[index];
        name.push(digit(byte / 16));
        name.push(digit(byte % 16));
        proof {
            let next = digest@.take(index + 1);
            assert(next.drop_last() =~= digest@.take(index as int));
            assert(name@ =~= id@ + ".json.corrupt-"@ + hex(next));
        }
        index += 1;
    }
    assert(digest@.take(digest@.len() as int) =~= digest@);
    name
}

/// The name under which malformed bytes are kept.
pub fn corrupt_backup_name(id: &str, bytes: &[u8]) -> (result: String)
    ensures
        result@ == backup_file(id@, sha256_digest(bytes@)),
{
    let digest = sha256(bytes);
    backup_name(id, &digest)
}

/// What stands for a malformed record while it is replaced.
pub open spec fn stub_record(id: Seq<char>, backup: Seq<char>, now: u64) -> JsonView {
    JsonView::Object(
        seq![
            ("schema_version"@, JsonView::Unsigned(SCHEMA_VERSION as u64)),
            ("session_id"@, JsonView::Text(id)),
            ("source"@, JsonView::Text("recovery"@)),
            (
                "recovery"@,
                JsonView::Object(
                    seq![
                        ("created_at_unix_ms"@, JsonView::Unsigned(now)),
                        ("unresolved"@, JsonView::Bool(true)),
                        ("corrupt_record"@, JsonView::Text(backup)),
                    ],
                ),
            ),
        ],
    )
}

fn stub(id: &str, backup: &str, now: u64) -> (result: Json)
    ensures
        result.tree() == stub_record(id@, backup@, now),
{
    let mut recovery = no_members();
    add_member(&mut recovery, "created_at_unix_ms", Json::Unsigned(now));
    add_member(&mut recovery, "unresolved", Json::Bool(true));
    add_member(&mut recovery, "corrupt_record", Json::text(backup));
    assert(member_trees(recovery@) =~= seq![
        ("created_at_unix_ms"@, JsonView::Unsigned(now)),
        ("unresolved"@, JsonView::Bool(true)),
        ("corrupt_record"@, JsonView::Text(backup@)),
    ]);
    let mut members = no_members();
    add_member(&mut members, "schema_version", Json::Unsigned(SCHEMA_VERSION as u64));
    add_member(&mut members, "session_id", Json::text(id));
    add_member(&mut members, "source", Json::text("recovery"));
    add_member(&mut members, "recovery", object_of(recovery));
    assert(member_trees(members@) =~= stub_record(id@, backup@, now)->Object_0);
    object_of(members)
}

/// What a record file turned out to be.
#[derive(Debug, PartialEq, Eq)]
pub enum RecordRead {
    /// The take's record.
    Record(Json),
    /// Bytes that are no record of any take.
    Malformed,
}

/// Whether a document is a record, of whatever take.
pub open spec fn names_a_take(document: Option<JsonView>) -> bool {
    document is Some && document->0 is Object && document->0.text_member("session_id"@) is Some
}

/// Tell what a record file holds from the document read from it.
pub fn classify_record(id: &str, document: Option<Json>) -> (result: Result<
    RecordRead,
    ArchiveError,
>)
    ensures
        match result {
            Ok(RecordRead::Record(record)) => document == Some(record)
                && names_a_take(optional_tree(document))
                && record.tree().text_member("session_id"@) == Some(id@),
            Ok(RecordRead::Malformed) => !names_a_take(optional_tree(document)),
            Err(error) => error == ArchiveError::MismatchedId
                && names_a_take(optional_tree(document))
                && optional_tree(document)->0.text_member("session_id"@) != Some(id@),
        },
{
    match document {
        Some(record) => {
            if !record.is_object() {
                return Ok(RecordRead::Malformed);
            }
            let matching = match record.text_member("session_id") {
                Some(session) => Some(same(session.as_str(), id)),
                None => None,
            };
            match matching {
                Some(true) => Ok(RecordRead::Record(record)),
                Some(false) => Err(ArchiveError::MismatchedId),
                None => Ok(RecordRead::Malformed),
            }
        },
        None => Ok(RecordRead::Malformed),
    }
}

/// Tell what a record file holds from its bytes.
pub fn read_record(id: &str, bytes: &[u8]) -> (result: Result<RecordRead, ArchiveError>)
    ensures
        match result {
            Ok(RecordRead::Record(record)) => parsed_json(bytes@) == Some(record.tree())
                && names_a_take(parsed_json(bytes@)) && record.tree().text_member("session_id"@)
                == Some(id@),
            Ok(RecordRead::Malformed) => !names_a_take(parsed_json(bytes@)),
            Err(error) => error == ArchiveError::MismatchedId && names_a_take(
                parsed_json(bytes@),
            ) && parsed_json(bytes@)->0.text_member("session_id"@) != Some(id@),
        },
{
    classify_record(id, parse_json(bytes))
}

/// What is written for an attempt.
#[derive(Debug, PartialEq, Eq)]
pub struct SavePlan {
    /// The take's new record.
    pub record: Json,
    /// The name under which the malformed bytes of its old record are kept first.
    pub backup: Option<String>,
}

/// The record that an attempt is merged into, given what the file turned out to be
/// and the name that a copy of it would have.
pub open spec fn record_before(
    id: Seq<char>,
    read: Option<RecordRead>,
    backup: Seq<char>,
    now: u64,
) -> Option<JsonView> {
    match read {
        Some(RecordRead::Record(record)) => Some(record.tree()),
        Some(RecordRead::Malformed) => Some(stub_record(id, backup, now)),
        None => None,
    }
}

/// Plan what is written for an attempt, given what the take's record file turned
/// out to be, where there is one, and the name that a copy of it would have. Only a
/// whole text may replace a malformed record.
pub fn plan_write(
    entry: &Entry,
    id: &str,
    read: Option<RecordRead>,
    backup: String,
    now: u64,
) -> (result: Result<SavePlan, ArchiveError>)
    ensures
        ({
            let incoming = incoming_record(entry@, id@, now);
            let complete = is_complete(entry@, incoming);
            let malformed = read == Some(RecordRead::Malformed);
            match result {
                Ok(plan) => (malformed ==> complete) && plan.record.tree() == merged_record(
                    record_before(id@, read, backup@, now),
                    incoming,
                    entry@,
                    now,
                ) && plan.backup == if malformed {
                    Some(backup)
                } else {
                    None
                },
                Err(error) => error == ArchiveError::InvalidRecord && malformed && !complete,
            }
        }),
{
    let incoming = new_record(entry, id, now);
    let complete = !entry.partial && !entry.cancelled && final_text(&incoming).is_some();
    match read {
        Some(RecordRead::Record(record)) => Ok(
            SavePlan { record: merge(Some(record), incoming, entry, now), backup: None },
        ),
        Some(RecordRead::Malformed) => {
            if !complete {
                return Err(ArchiveError::InvalidRecord);
            }
            let existing = stub(id, backup.as_str(), now);
            Ok(
                SavePlan {
                    record: merge(Some(existing), incoming, entry, now),
                    backup: Some(backup),
                },
            )
        },
        None => Ok(SavePlan { record: merge(None, incoming, entry, now), backup: None }),
    }
}

/// Plan what is written for an attempt, from the bytes of the take's record file.
pub fn plan_save(entry: &Entry, id: &str, file: Option<&[u8]>, now: u64) -> (result: Result<
    SavePlan,
    ArchiveError,
>)
    ensures
        ({
            let incoming = incoming_record(entry@, id@, now);
            let complete = is_complete(entry@, incoming);
            match file {
                None => result is Ok && result->Ok_0.backup is None
                    && result->Ok_0.record.tree() == merged_record(None, incoming, entry@, now),
                Some(bytes) => {
                    let document = parsed_json(bytes@);
                    let backup = backup_file(id@, sha256_digest(bytes@));
                    if names_a_take(document) {
                        if document->0.text_member("session_id"@) == Some(id@) {
                            result is Ok && result->Ok_0.backup is None
                                && result->Ok_0.record.tree() == merged_record(
                                document,
                                incoming,
                                entry@,
                                now,
                            )
                        } else {
                            result is Err && result->Err_0 == ArchiveError::MismatchedId
                        }
                    } else if complete {
                        result is Ok && result->Ok_0.backup is Some && result->Ok_0.backup->0@
                            == backup && result->Ok_0.record.tree() == merged_record(
                            Some(stub_record(id@, backup, now)),
                            incoming,
                            entry@,
                            now,
                        )
                    } else {
                        result is Err && result->Err_0 == ArchiveError::InvalidRecord
                    }
                },
            }
        }),
{
    match file {
        None => plan_write(entry, id, None, String::new(), now),
        Some(bytes) => match read_record(id, bytes) {
            Ok(RecordRead::Record(record)) => plan_write(
                entry,
                id,
                Some(RecordRead::Record(record)),
                String::new(),
                now,
            ),
            Ok(RecordRead::Malformed) => plan_write(
                entry,
                id,
                Some(RecordRead::Malformed),
                corrupt_backup_name(id, bytes),
                now,
            ),
            Err(error) => Err(error),
        },
    }
}

} // verus!
