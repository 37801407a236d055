//! What holds of a take's record through all attempts on it.

use crate::archive::record::{
    attempt_summary, incoming_record, is_complete, kept_creation, known_recovery, merged_record,
    merged_recovery, names_a_take, origin_record, origin_summary, preserves,
};
use crate::archive::{
    nested, record_created, record_partial, record_text, EntryView, SCHEMA_VERSION,
};
use crate::json::{member_index, set_member_is_read_back, set_member_keeps_the_others, JsonView};
use vstd::prelude::*;

verus! {

/// Keys of a record differ from each other.
proof fn lemma_keys_differ()
    ensures
        "recovery"@ != "schema_version"@,
        "postprocessed_transcript"@ != "schema_version"@,
        "postprocessed_transcript"@ != "recovery"@,
        "raw_transcript"@ != "schema_version"@,
        "raw_transcript"@ != "recovery"@,
        "session_id"@ != "schema_version"@,
        "session_id"@ != "recovery"@,
        "stt"@ != "schema_version"@,
        "stt"@ != "recovery"@,
{
    reveal_strlit("recovery");
    reveal_strlit("schema_version");
    reveal_strlit("postprocessed_transcript");
    reveal_strlit("raw_transcript");
    reveal_strlit("session_id");
    reveal_strlit("stt");
    assert("stt"@.len() == 3);
    assert("recovery"@.len() == 8);
    assert("schema_version"@.len() == 14);
    assert("postprocessed_transcript"@.len() == 24);
    assert("raw_transcript"@.len() == 14);
    assert("session_id"@.len() == 10);
    assert("raw_transcript"@[0] == 'r');
    assert("schema_version"@[0] == 's');
}

/// Keys of the recovery data differ from each other.
pub(crate) proof fn lemma_recovery_keys_differ()
    ensures
        "created_at_unix_ms"@ != "retry_incomplete"@,
        "created_at_unix_ms"@ != "unresolved"@,
        "created_at_unix_ms"@ != "latest_attempt"@,
        "created_at_unix_ms"@ != "origin"@,
        "created_at_unix_ms"@ != "partial"@,
        "unresolved"@ != "retry_incomplete"@,
        "unresolved"@ != "latest_attempt"@,
        "unresolved"@ != "origin"@,
        "unresolved"@ != "partial"@,
        "origin"@ != "retry_incomplete"@,
        "origin"@ != "latest_attempt"@,
        "origin"@ != "partial"@,
        "retry_incomplete"@ != "latest_attempt"@,
        "retry_incomplete"@ != "partial"@,
        "latest_attempt"@ != "partial"@,
{
    reveal_strlit("created_at_unix_ms");
    reveal_strlit("retry_incomplete");
    reveal_strlit("unresolved");
    reveal_strlit("latest_attempt");
    reveal_strlit("origin");
    reveal_strlit("partial");
    assert("created_at_unix_ms"@.len() == 18);
    assert("retry_incomplete"@.len() == 16);
    assert("unresolved"@.len() == 10);
    assert("latest_attempt"@.len() == 14);
    assert("origin"@.len() == 6);
    assert("partial"@.len() == 7);
}

/// A key of the recovery data that an attempt does not write.
pub open spec fn is_foreign_key(key: Seq<char>) -> bool {
    &&& key != "created_at_unix_ms"@
    &&& key != "retry_incomplete"@
    &&& key != "unresolved"@
    &&& key != "latest_attempt"@
    &&& key != "origin"@
    &&& key != "partial"@
}

pub(crate) proof fn lemma_recovery_members(
    existing: Option<JsonView>,
    incoming: JsonView,
    entry: EntryView,
    complete: bool,
    now: u64,
    key: Seq<char>,
)
    ensures
        ({
            let recovery = merged_recovery(existing, incoming, entry, complete, now);
            let known = known_recovery(existing);
            &&& recovery is Object
            &&& recovery.get("created_at_unix_ms"@) == Some(
                JsonView::Unsigned(kept_creation(existing, now)),
            )
            &&& recovery.get("unresolved"@) == Some(
                JsonView::Bool(!complete || known.bool_member("unresolved"@) == Some(true)),
            )
            &&& recovery.get("retry_incomplete"@) == Some(JsonView::Bool(!complete))
            &&& recovery.get("partial"@) == known.get("partial"@)
            &&& recovery.get("latest_attempt"@) == Some(attempt_summary(entry, complete, now))
            &&& recovery.get("origin"@) is Some
            &&& known.get("origin"@) is None ==> recovery.get("origin"@) == Some(
                origin_summary(origin_record(existing, incoming)),
            )
            &&& known.get("origin"@) is Some ==> recovery.get("origin"@) == known.get("origin"@)
            &&& is_foreign_key(key) ==> recovery.get(key) == known.get(key)
        }),
{
    lemma_recovery_keys_differ();
    let known = known_recovery(existing);
    let created = JsonView::Unsigned(kept_creation(existing, now));
    let a = known.with("created_at_unix_ms"@, created);
    let b = a.with("retry_incomplete"@, JsonView::Bool(!complete));
    let unresolved = JsonView::Bool(
        !complete || known.bool_member("unresolved"@) == Some(true),
    );
    let c = b.with("unresolved"@, unresolved);
    let attempt = attempt_summary(entry, complete, now);
    let d = c.with("latest_attempt"@, attempt);
    let summary = origin_summary(
        origin_record(existing, incoming),
    );
    set_member_is_read_back(known, "created_at_unix_ms"@, created);
    set_member_keeps_the_others(a, "retry_incomplete"@, JsonView::Bool(!complete), "created_at_unix_ms"@);
    set_member_keeps_the_others(b, "unresolved"@, unresolved, "created_at_unix_ms"@);
    set_member_keeps_the_others(c, "latest_attempt"@, attempt, "created_at_unix_ms"@);
    set_member_is_read_back(b, "unresolved"@, unresolved);
    set_member_keeps_the_others(c, "latest_attempt"@, attempt, "unresolved"@);
    set_member_keeps_the_others(known, "created_at_unix_ms"@, created, "origin"@);
    set_member_keeps_the_others(a, "retry_incomplete"@, JsonView::Bool(!complete), "origin"@);
    set_member_keeps_the_others(b, "unresolved"@, unresolved, "origin"@);
    set_member_keeps_the_others(c, "latest_attempt"@, attempt, "origin"@);
    set_member_is_read_back(a, "retry_incomplete"@, JsonView::Bool(!complete));
    set_member_keeps_the_others(b, "unresolved"@, unresolved, "retry_incomplete"@);
    set_member_keeps_the_others(c, "latest_attempt"@, attempt, "retry_incomplete"@);
    set_member_keeps_the_others(known, "created_at_unix_ms"@, created, "partial"@);
    set_member_keeps_the_others(a, "retry_incomplete"@, JsonView::Bool(!complete), "partial"@);
    set_member_keeps_the_others(b, "unresolved"@, unresolved, "partial"@);
    set_member_keeps_the_others(c, "latest_attempt"@, attempt, "partial"@);
    set_member_is_read_back(c, "latest_attempt"@, attempt);
    if d.get("origin"@) is None {
        set_member_keeps_the_others(d, "origin"@, summary, "latest_attempt"@);
        set_member_keeps_the_others(d, "origin"@, summary, "retry_incomplete"@);
        set_member_keeps_the_others(d, "origin"@, summary, "partial"@);
        set_member_is_read_back(d, "origin"@, summary);
        set_member_keeps_the_others(d, "origin"@, summary, "created_at_unix_ms"@);
        set_member_keeps_the_others(d, "origin"@, summary, "unresolved"@);
    }
    if is_foreign_key(key) {
        set_member_keeps_the_others(known, "created_at_unix_ms"@, created, key);
        set_member_keeps_the_others(a, "retry_incomplete"@, JsonView::Bool(!complete), key);
        set_member_keeps_the_others(b, "unresolved"@, unresolved, key);
        set_member_keeps_the_others(c, "latest_attempt"@, attempt, key);
        if d.get("origin"@) is None {
            set_member_keeps_the_others(d, "origin"@, summary, key);
        }
    }
}

/// The record's members other than its version and its recovery data come from the
/// record that stands: the old one where it is preserved, else the new one.
pub(crate) proof fn lemma_record_members(
    existing: Option<JsonView>,
    incoming: JsonView,
    entry: EntryView,
    now: u64,
    key: Seq<char>,
)
    requires
        incoming is Object,
        existing is Some ==> existing->0 is Object,
    ensures
        ({
            let merged = merged_record(existing, incoming, entry, now);
            let complete = is_complete(entry, incoming);
            let kept = if preserves(existing, complete) {
                existing->0
            } else {
                incoming
            };
            let recovery = merged_recovery(existing, incoming, entry, complete, now);
            &&& merged is Object
            &&& merged.get("recovery"@) == Some(
                if preserves(existing, complete) {
                    recovery
                } else {
                    recovery.with("partial"@, JsonView::Bool(entry.partial || entry.cancelled))
                },
            )
            &&& key != "schema_version"@ && key != "recovery"@ ==> merged.get(key) == kept.get(key)
        }),
{
    lemma_keys_differ();
    let complete = is_complete(entry, incoming);
    let preserve = preserves(existing, complete);
    let kept = if preserve {
        existing->0
    } else {
        incoming
    };
    let recovery = merged_recovery(existing, incoming, entry, complete, now);
    let written = if preserve {
        recovery
    } else {
        recovery.with("partial"@, JsonView::Bool(entry.partial || entry.cancelled))
    };
    let version = JsonView::Unsigned(SCHEMA_VERSION as u64);
    let versioned = kept.with("schema_version"@, version);
    set_member_is_read_back(versioned, "recovery"@, written);
    if key != "schema_version"@ && key != "recovery"@ {
        set_member_keeps_the_others(kept, "schema_version"@, version, key);
        set_member_keeps_the_others(versioned, "recovery"@, written, key);
    }
}

/// A retry cannot replace a usable text until its own is whole: the text and every
/// other member but the version and the recovery data stay as they are.
pub proof fn incomplete_attempt_preserves_the_record(
    existing: JsonView,
    incoming: JsonView,
    entry: EntryView,
    now: u64,
    key: Seq<char>,
)
    requires
        existing is Object,
        incoming is Object,
        record_text(existing) is Some,
        !is_complete(entry, incoming),
    ensures
        record_text(merged_record(Some(existing), incoming, entry, now)) == record_text(existing),
        key != "schema_version"@ && key != "recovery"@ ==> merged_record(
            Some(existing),
            incoming,
            entry,
            now,
        ).get(key) == existing.get(key),
{
    lemma_keys_differ();
    lemma_record_members(Some(existing), incoming, entry, now, key);
    lemma_record_members(Some(existing), incoming, entry, now, "postprocessed_transcript"@);
    lemma_record_members(Some(existing), incoming, entry, now, "raw_transcript"@);
}

/// A whole text replaces whatever the record held.
pub proof fn complete_attempt_replaces_the_text(
    existing: Option<JsonView>,
    incoming: JsonView,
    entry: EntryView,
    now: u64,
)
    requires
        incoming is Object,
        existing is Some ==> existing->0 is Object,
        is_complete(entry, incoming),
    ensures
        record_text(merged_record(existing, incoming, entry, now)) == record_text(incoming),
        record_text(merged_record(existing, incoming, entry, now)) is Some,
{
    lemma_keys_differ();
    lemma_record_members(existing, incoming, entry, now, "postprocessed_transcript"@);
    lemma_record_members(existing, incoming, entry, now, "raw_transcript"@);
}

/// A take keeps the date at which it was made through every attempt.
pub proof fn creation_date_is_kept(
    existing: Option<JsonView>,
    incoming: JsonView,
    entry: EntryView,
    now: u64,
)
    requires
        incoming is Object,
        existing is Some ==> existing->0 is Object,
    ensures
        record_created(merged_record(existing, incoming, entry, now)) == kept_creation(
            existing,
            now,
        ),
{
    lemma_recovery_keys_differ();
    let complete = is_complete(entry, incoming);
    let recovery = merged_recovery(existing, incoming, entry, complete, now);
    lemma_record_members(existing, incoming, entry, now, Seq::empty());
    lemma_recovery_members(existing, incoming, entry, complete, now, Seq::empty());
    set_member_keeps_the_others(
        recovery,
        "partial"@,
        JsonView::Bool(entry.partial || entry.cancelled),
        "created_at_unix_ms"@,
    );
}

/// A take is unresolved after an attempt that brought no whole text, and stays so
/// through later attempts until it is resolved.
pub proof fn unresolved_takes_stay_unresolved(
    existing: Option<JsonView>,
    incoming: JsonView,
    entry: EntryView,
    now: u64,
)
    requires
        incoming is Object,
        existing is Some ==> existing->0 is Object,
    ensures
        nested(merged_record(existing, incoming, entry, now), "recovery"@, "unresolved"@) == Some(
            JsonView::Bool(
                !is_complete(entry, incoming) || known_recovery(existing).bool_member(
                    "unresolved"@,
                ) == Some(true),
            ),
        ),
{
    lemma_recovery_keys_differ();
    let complete = is_complete(entry, incoming);
    let recovery = merged_recovery(existing, incoming, entry, complete, now);
    lemma_record_members(existing, incoming, entry, now, Seq::empty());
    lemma_recovery_members(existing, incoming, entry, complete, now, Seq::empty());
    set_member_keeps_the_others(
        recovery,
        "partial"@,
        JsonView::Bool(entry.partial || entry.cancelled),
        "unresolved"@,
    );
}

/// A save tells whether its attempt brought a whole text, and whether the text that now
/// stands is partial: the old one as before where it is preserved, else the new one where
/// the attempt was partial or cancelled.
pub proof fn save_tells_what_is_incomplete(
    existing: Option<JsonView>,
    incoming: JsonView,
    entry: EntryView,
    now: u64,
)
    requires
        incoming is Object,
        existing is Some ==> existing->0 is Object,
    ensures
        nested(merged_record(existing, incoming, entry, now), "recovery"@, "retry_incomplete"@)
            == Some(JsonView::Bool(!is_complete(entry, incoming))),
        preserves(existing, is_complete(entry, incoming)) ==> nested(
            merged_record(existing, incoming, entry, now),
            "recovery"@,
            "partial"@,
        ) == known_recovery(existing).get("partial"@) && record_partial(
            merged_record(existing, incoming, entry, now),
        ) == record_partial(existing->0),
        !preserves(existing, is_complete(entry, incoming)) ==> nested(
            merged_record(existing, incoming, entry, now),
            "recovery"@,
            "partial"@,
        ) == Some(JsonView::Bool(entry.partial || entry.cancelled)) && record_partial(
            merged_record(existing, incoming, entry, now),
        ) == (entry.partial || entry.cancelled),
{
    lemma_keys_differ();
    lemma_recovery_keys_differ();
    let complete = is_complete(entry, incoming);
    let recovery = merged_recovery(existing, incoming, entry, complete, now);
    let partial = JsonView::Bool(entry.partial || entry.cancelled);
    lemma_record_members(existing, incoming, entry, now, "stt"@);
    lemma_recovery_members(existing, incoming, entry, complete, now, Seq::empty());
    set_member_is_read_back(recovery, "partial"@, partial);
    set_member_keeps_the_others(recovery, "partial"@, partial, "retry_incomplete"@);
}

/// Recovery data that an attempt does not write itself, and the origin once it is
/// known, outlive every attempt.
pub proof fn foreign_recovery_data_is_kept(
    existing: Option<JsonView>,
    incoming: JsonView,
    entry: EntryView,
    now: u64,
    key: Seq<char>,
)
    requires
        incoming is Object,
        existing is Some ==> existing->0 is Object,
        is_foreign_key(key) || (key == "origin"@ && known_recovery(existing).get(key) is Some),
    ensures
        nested(merged_record(existing, incoming, entry, now), "recovery"@, key) == known_recovery(
            existing,
        ).get(key),
{
    lemma_recovery_keys_differ();
    let complete = is_complete(entry, incoming);
    let recovery = merged_recovery(existing, incoming, entry, complete, now);
    lemma_record_members(existing, incoming, entry, now, key);
    lemma_recovery_members(existing, incoming, entry, complete, now, key);
    set_member_keeps_the_others(
        recovery,
        "partial"@,
        JsonView::Bool(entry.partial || entry.cancelled),
        key,
    );
}

/// What an attempt writes is a record of the same take.
pub proof fn merged_record_names_its_take(
    existing: Option<JsonView>,
    entry: EntryView,
    id: Seq<char>,
    now: u64,
)
    requires
        existing is Some ==> names_a_take(existing) && existing->0.text_member("session_id"@)
            == Some(id),
    ensures
        ({
            let merged = merged_record(existing, incoming_record(entry, id, now), entry, now);
            &&& names_a_take(Some(merged))
            &&& merged.text_member("session_id"@) == Some(id)
        }),
{
    lemma_keys_differ();
    let incoming = incoming_record(entry, id, now);
    lemma_record_members(existing, incoming, entry, now, "session_id"@);
    assert(incoming.get("session_id"@) == Some(JsonView::Text(id))) by {
        reveal_with_fuel(member_index, 3);
        let members = incoming->Object_0;
        assert(members[0].0 == "schema_version"@);
        assert(members[1].0 == "session_id"@);
    }
}

} // verus!
