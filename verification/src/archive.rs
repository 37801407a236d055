//! Transcript history: record contents, identifiers, and how a later attempt on a
//! take is merged into its record.

pub mod laws;
pub mod record;
pub mod record_laws;

use crate::json::{Json, JsonView};
use crate::text::{blank, decimal, digit, is_blank, same};
use vstd::prelude::*;
use vstd::string::*;

verus! {

/// Version of the record's layout.
pub const SCHEMA_VERSION: u32 = 3;

/// Longest identifier of a recording, in bytes.
pub const ID_LIMIT: usize = 128;

/// Why the history cannot be read or written.
#[derive(Clone, Copy, Debug, PartialEq, Eq, Structural)]
pub enum ArchiveError {
    /// The identifier is no recording's.
    InvalidId,
    /// The name is no artifact's.
    InvalidName,
    /// The record belongs to another recording.
    MismatchedId,
    /// The record is malformed, and the attempt brings nothing to replace it with.
    InvalidRecord,
    /// The artifact is no regular file that the user owns alone.
    ForeignFile,
    /// The artifact can be read by others.
    ExposedFile,
}

/// What one attempt on a take brought. Costs are the text of a JSON number.
#[derive(Debug, PartialEq, Eq)]
pub struct Entry {
    pub take_id: Option<String>,
    pub source: String,
    pub raw_transcript: String,
    pub postprocessed_transcript: Option<String>,
    pub audio_duration_ms: Option<u64>,
    pub pipeline_elapsed_ms: u64,
    pub stt_model: String,
    pub stt_remote: bool,
    pub stt_elapsed_ms: u64,
    pub stt_api_cost_usd: Option<String>,
    pub partial: bool,
    pub cancelled: bool,
    pub postproc_status: String,
    pub postproc_model: Option<String>,
    pub postproc_elapsed_ms: Option<u64>,
    pub postproc_passes: Option<u8>,
    pub postproc_prompt_version: Option<u32>,
    pub postproc_instructions: Option<String>,
    pub postproc_prompt_tokens: Option<u64>,
    pub postproc_completion_tokens: Option<u64>,
    pub postproc_total_tokens: Option<u64>,
    pub postproc_reasoning_tokens: Option<u64>,
    pub postproc_cached_tokens: Option<u64>,
    pub postproc_reported_cost_usd: Option<String>,
    pub postproc_usage_requests: Option<u8>,
    pub postproc_usage_responses: Option<u8>,
}

/// What an [`Entry`] holds.
pub struct EntryView {
    pub take_id: Option<Seq<char>>,
    pub source: Seq<char>,
    pub raw_transcript: Seq<char>,
    pub postprocessed_transcript: Option<Seq<char>>,
    pub audio_duration_ms: Option<u64>,
    pub pipeline_elapsed_ms: u64,
    pub stt_model: Seq<char>,
    pub stt_remote: bool,
    pub stt_elapsed_ms: u64,
    pub stt_api_cost_usd: Option<Seq<char>>,
    pub partial: bool,
    pub cancelled: bool,
    pub postproc_status: Seq<char>,
    pub postproc_model: Option<Seq<char>>,
    pub postproc_elapsed_ms: Option<u64>,
    pub postproc_passes: Option<u8>,
    pub postproc_prompt_version: Option<u32>,
    pub postproc_instructions: Option<Seq<char>>,
    pub postproc_prompt_tokens: Option<u64>,
    pub postproc_completion_tokens: Option<u64>,
    pub postproc_total_tokens: Option<u64>,
    pub postproc_reasoning_tokens: Option<u64>,
    pub postproc_cached_tokens: Option<u64>,
    pub postproc_reported_cost_usd: Option<Seq<char>>,
    pub postproc_usage_requests: Option<u8>,
    pub postproc_usage_responses: Option<u8>,
}

impl View for Entry {
    type V = EntryView;

    open spec fn view(&self) -> EntryView {
        EntryView {
            take_id: match self.take_id { Some(inner) => Some(inner@), None => None },
            source: self.source@,
            raw_transcript: self.raw_transcript@,
            postprocessed_transcript: match self.postprocessed_transcript {
                Some(inner) => Some(inner@),
                None => None,
            },
            audio_duration_ms: self.audio_duration_ms,
            pipeline_elapsed_ms: self.pipeline_elapsed_ms,
            stt_model: self.stt_model@,
            stt_remote: self.stt_remote,
            stt_elapsed_ms: self.stt_elapsed_ms,
            stt_api_cost_usd: match self.stt_api_cost_usd {
                Some(inner) => Some(inner@),
                None => None,
            },
            partial: self.partial,
            cancelled: self.cancelled,
            postproc_status: self.postproc_status@,
            postproc_model: match self.postproc_model { Some(inner) => Some(inner@), None => None },
            postproc_elapsed_ms: self.postproc_elapsed_ms,
            postproc_passes: self.postproc_passes,
            postproc_prompt_version: self.postproc_prompt_version,
            postproc_instructions: match self.postproc_instructions {
                Some(inner) => Some(inner@),
                None => None,
            },
            postproc_prompt_tokens: self.postproc_prompt_tokens,
            postproc_completion_tokens: self.postproc_completion_tokens,
            postproc_total_tokens: self.postproc_total_tokens,
            postproc_reasoning_tokens: self.postproc_reasoning_tokens,
            postproc_cached_tokens: self.postproc_cached_tokens,
            postproc_reported_cost_usd: match self.postproc_reported_cost_usd {
                Some(inner) => Some(inner@),
                None => None,
            },
            postproc_usage_requests: self.postproc_usage_requests,
            postproc_usage_responses: self.postproc_usage_responses,
        }
    }
}

impl Clone for Entry {
    fn clone(&self) -> (result: Self)
        ensures
            result@ == self@,
    {
        Entry {
            take_id: self.take_id.clone(),
            source: self.source.clone(),
            raw_transcript: self.raw_transcript.clone(),
            postprocessed_transcript: self.postprocessed_transcript.clone(),
            audio_duration_ms: self.audio_duration_ms,
            pipeline_elapsed_ms: self.pipeline_elapsed_ms,
            stt_model: self.stt_model.clone(),
            stt_remote: self.stt_remote,
            stt_elapsed_ms: self.stt_elapsed_ms,
            stt_api_cost_usd: self.stt_api_cost_usd.clone(),
            partial: self.partial,
            cancelled: self.cancelled,
            postproc_status: self.postproc_status.clone(),
            postproc_model: self.postproc_model.clone(),
            postproc_elapsed_ms: self.postproc_elapsed_ms,
            postproc_passes: self.postproc_passes,
            postproc_prompt_version: self.postproc_prompt_version,
            postproc_instructions: self.postproc_instructions.clone(),
            postproc_prompt_tokens: self.postproc_prompt_tokens,
            postproc_completion_tokens: self.postproc_completion_tokens,
            postproc_total_tokens: self.postproc_total_tokens,
            postproc_reasoning_tokens: self.postproc_reasoning_tokens,
            postproc_cached_tokens: self.postproc_cached_tokens,
            postproc_reported_cost_usd: self.postproc_reported_cost_usd.clone(),
            postproc_usage_requests: self.postproc_usage_requests,
            postproc_usage_responses: self.postproc_usage_responses,
        }
    }
}

/// A character of an identifier.
pub open spec fn is_id_char(c: char) -> bool {
    ('a' <= c <= 'z') || ('A' <= c <= 'Z') || ('0' <= c <= '9') || c == '-' || c == '_'
}

/// Whether a text names a recording: up to [`ID_LIMIT`] letters, digits, hyphens and
/// underscores, and at least one.
pub open spec fn is_valid_id(id: Seq<char>) -> bool {
    &&& 0 < id.len() <= ID_LIMIT
    &&& forall|i: int| 0 <= i < id.len() ==> is_id_char(#[trigger] id[i])
}

/// Check that a text names a recording.
pub fn validate_id(id: &str) -> (result: Result<(), ArchiveError>)
    ensures
        result == if is_valid_id(id@) {
            Ok(())
        } else {
            Err(ArchiveError::InvalidId)
        },
{
    let length: usize = id.unicode_len();
    if length == 0 || length > ID_LIMIT {
        return Err(ArchiveError::InvalidId);
    }
    let mut index: usize = 0;
    while index < length
        invariant
            index <= length == id@.len(),
            forall|i: int| 0 <= i < index ==> is_id_char(#[trigger] id@[i]),
        decreases length - index,
    {
        let c: char = id.get_char(index);
        if !(('a' <= c && c <= 'z') || ('A' <= c && c <= 'Z') || ('0' <= c && c <= '9') || c == '-'
            || c == '_') {
            assert(!is_id_char(id@[index as int]));
            return Err(ArchiveError::InvalidId);
        }
        index += 1;
    }
    Ok(())
}

/// Whether a text names an entry of the history's own directory.
pub open spec fn is_file_name(name: Seq<char>) -> bool {
    &&& name.len() > 0
    &&& name != "."@
    &&& name != ".."@
    &&& forall|i: int| 0 <= i < name.len() ==> #[trigger] name[i] != '/' && name[i] != '\0'
}

/// Check that a text names an entry of the history's own directory.
pub fn file_name(name: &str) -> (result: Result<(), ArchiveError>)
    ensures
        result == if is_file_name(name@) {
            Ok(())
        } else {
            Err(ArchiveError::InvalidName)
        },
{
    if name.is_empty() || same(name, ".") || same(name, "..") {
        return Err(ArchiveError::InvalidName);
    }
    let length: usize = name.unicode_len();
    let mut index: usize = 0;
    while index < length
        invariant
            index <= length == name@.len(),
            forall|i: int| 0 <= i < index ==> #[trigger] name@[i] != '/' && name@[i] != '\0',
        decreases length - index,
    {
        let c: char = name.get_char(index);
        if c == '/' || c == '\0' {
            assert(name@[index as int] == c);
            return Err(ArchiveError::InvalidName);
        }
        index += 1;
    }
    Ok(())
}

/// The record's file name.
pub open spec fn record_file(id: Seq<char>) -> Seq<char> {
    id + ".json"@
}

/// The record's file name.
pub fn record_name(id: &str) -> (result: String)
    ensures
        result@ == record_file(id@),
{
    let mut name: String = id.to_owned();
    name.append(".json");
    name
}

/// A recording's name is that of an entry of the history's directory.
pub proof fn record_names_stay_in_the_directory(id: Seq<char>)
    requires
        is_valid_id(id),
    ensures
        is_file_name(record_file(id)),
{
    reveal_strlit(".json");
    reveal_strlit(".");
    reveal_strlit("..");
    let name = record_file(id);
    assert(name.len() > 5);
    assert forall|i: int| 0 <= i < name.len() implies #[trigger] name[i] != '/' && name[i]
        != '\0' by {
        if i < id.len() {
            assert(name[i] == id[i]);
            assert(is_id_char(id[i]));
        } else {
            assert(name[i] == ".json"@[i - id.len()]);
        }
    }
}

/// The decimal numeral of `n` with zeros in front, at least `width` digits.
pub open spec fn padded_decimal(n: nat, width: nat) -> Seq<char> {
    let digits = decimal(n);
    if digits.len() >= width {
        digits
    } else {
        Seq::new((width - digits.len()) as nat, |i: int| '0') + digits
    }
}

fn decimal_text(n: u128) -> (result: String)
    ensures
        result@ == decimal(n as nat),
    decreases n,
{
    let mut text: String = if n >= 10 {
        decimal_text(n / 10)
    } else {
        String::new()
    };
    text.push(digit((n % 10) as u8));
    assert(text@ =~= decimal(n as nat));
    text
}

/// The identifier of a new recording: the time in nanoseconds, the process and a
/// number that the process has not used.
pub open spec fn generated_id(nanos: nat, process: nat, sequence: nat) -> Seq<char> {
    padded_decimal(nanos, 20) + "-"@ + decimal(process) + "-"@ + decimal(sequence)
}

/// The identifier of a new recording.
pub fn new_id(nanos: u128, process: u32, sequence: u64) -> (result: String)
    ensures
        result@ == generated_id(nanos as nat, process as nat, sequence as nat),
{
    let digits = decimal_text(nanos);
    let length: usize = digits.as_str().unicode_len();
    let mut id: String = String::new();
    let mut width: usize = length;
    while width < 20
        invariant
            length == digits@.len(),
            length <= width,
            width <= 20 || width == length,
            id@ == Seq::new((width - length) as nat, |i: int| '0'),
        decreases 20 - width,
    {
        id.push('0');
        width += 1;
        assert(id@ =~= Seq::new((width - length) as nat, |i: int| '0'));
    }
    id.append(digits.as_str());
    assert(id@ =~= padded_decimal(nanos as nat, 20));
    id.append("-");
    id.append(decimal_text(process as u128).as_str());
    id.append("-");
    id.append(decimal_text(sequence as u128).as_str());
    id
}

/// Ten to the given power.
spec fn ten_power(width: nat) -> nat
    decreases width,
{
    if width == 0 {
        1
    } else {
        10 * ten_power((width - 1) as nat)
    }
}

proof fn lemma_decimal_digits(n: nat, width: nat)
    requires
        width > 0,
        n < ten_power(width),
    ensures
        0 < decimal(n).len() <= width,
        forall|i: int| 0 <= i < decimal(n).len() ==> '0' <= #[trigger] decimal(n)[i] <= '9',
    decreases width,
{
    if n >= 10 {
        reveal_with_fuel(ten_power, 2);
        lemma_decimal_digits(n / 10, (width - 1) as nat);
    }
}

/// A generated identifier names a recording.
pub proof fn generated_ids_are_valid(nanos: u128, process: u32, sequence: u64)
    ensures
        is_valid_id(generated_id(nanos as nat, process as nat, sequence as nat)),
{
    reveal_with_fuel(ten_power, 41);
    lemma_decimal_digits(nanos as nat, 40);
    lemma_decimal_digits(process as nat, 10);
    lemma_decimal_digits(sequence as nat, 20);
    reveal_strlit("-");
    let a = padded_decimal(nanos as nat, 20);
    let b = decimal(process as nat);
    let c = decimal(sequence as nat);
    let id = generated_id(nanos as nat, process as nat, sequence as nat);
    assert(a.len() <= 40);
    assert(id.len() == a.len() + 1 + b.len() + 1 + c.len());
    assert forall|i: int| 0 <= i < a.len() implies is_id_char(#[trigger] a[i]) by {
        let digits = decimal(nanos as nat);
        if digits.len() < 20 && i >= 20 - digits.len() {
            assert(a[i] == digits[i - (20 - digits.len())]);
        }
    }
    assert forall|i: int| 0 <= i < id.len() implies is_id_char(#[trigger] id[i]) by {
        if i < a.len() {
            assert(id[i] == a[i]);
        } else if i == a.len() {
            assert(id[i] == '-');
        } else if i < a.len() + 1 + b.len() {
            assert(id[i] == b[i - a.len() - 1]);
        } else if i == a.len() + 1 + b.len() {
            assert(id[i] == '-');
        } else {
            assert(id[i] == c[i - a.len() - 2 - b.len()]);
        }
    }
}

/// A time in milliseconds; one that does not fit counts as the last one that does.
pub fn now_ms(millis: u128) -> (result: u64)
    ensures
        result == if millis <= u64::MAX {
            millis as u64
        } else {
            u64::MAX
        },
{
    if millis <= u64::MAX as u128 {
        millis as u64
    } else {
        u64::MAX
    }
}

/// What the file system tells of an artifact.
#[derive(Clone, Copy, Debug, PartialEq, Eq, Structural)]
pub struct FileFacts {
    pub is_file: bool,
    pub owned: bool,
    pub links: u64,
    pub mode: u32,
}

/// Whether an artifact can be trusted.
pub open spec fn file_check(facts: FileFacts, private: bool) -> Result<(), ArchiveError> {
    if !(facts.is_file && facts.owned && facts.links == 1) {
        Err(ArchiveError::ForeignFile)
    } else if private && facts.mode % 0o100 != 0 {
        Err(ArchiveError::ExposedFile)
    } else {
        Ok(())
    }
}

/// Check that an artifact is a regular file that the user owns alone, and that a
/// private one is closed to everybody else.
pub fn check_file(facts: FileFacts, private: bool) -> (result: Result<(), ArchiveError>)
    ensures
        result == file_check(facts, private),
{
    if !(facts.is_file && facts.owned && facts.links == 1) {
        return Err(ArchiveError::ForeignFile);
    }
    if private && facts.mode % 0o100 != 0 {
        return Err(ArchiveError::ExposedFile);
    }
    Ok(())
}

/// The text that a record stands for: the cleaned-up one where there is one, else
/// the raw one; none where that is blank.
pub open spec fn record_text(record: JsonView) -> Option<Seq<char>> {
    let text = match record.text_member("postprocessed_transcript"@) {
        Some(text) => Some(text),
        None => record.text_member("raw_transcript"@),
    };
    match text {
        Some(text) if !is_blank(text) => Some(text),
        _ => None,
    }
}

/// The text that a record stands for.
pub fn final_text(record: &Json) -> (result: Option<&String>)
    ensures
        match result {
            Some(text) => record_text(record.tree()) == Some(text@),
            None => record_text(record.tree()) is None,
        },
{
    let text = match record.text_member("postprocessed_transcript") {
        Some(text) => Some(text),
        None => record.text_member("raw_transcript"),
    };
    match text {
        Some(text) => {
            if blank(text.as_str()) {
                None
            } else {
                Some(text)
            }
        },
        None => None,
    }
}

/// A member of a member.
pub open spec fn nested(record: JsonView, outer: Seq<char>, inner: Seq<char>) -> Option<JsonView> {
    match record.get(outer) {
        Some(value) => value.get(inner),
        None => None,
    }
}

fn nested_member<'a>(record: &'a Json, outer: &str, inner: &str) -> (result: Option<&'a Json>)
    ensures
        match result {
            Some(value) => nested(record.tree(), outer@, inner@) == Some(value.tree()),
            None => nested(record.tree(), outer@, inner@) is None,
        },
{
    match record.get(outer) {
        Some(value) => value.get(inner),
        None => None,
    }
}

/// When a recording was made: as its recovery says, else when its record was
/// completed, else unknown.
pub open spec fn record_created(record: JsonView) -> u64 {
    let value = match nested(record, "recovery"@, "created_at_unix_ms"@) {
        Some(value) => Some(value),
        None => record.get("completed_at_unix_ms"@),
    };
    match value {
        Some(JsonView::Unsigned(timestamp)) => timestamp,
        _ => 0,
    }
}

/// When a recording was made, in milliseconds of Unix time; zero where that is
/// unknown.
pub fn created_at_ms(record: &Json) -> (result: u64)
    ensures
        result == record_created(record.tree()),
{
    let value = match nested_member(record, "recovery", "created_at_unix_ms") {
        Some(value) => Some(value),
        None => record.get("completed_at_unix_ms"),
    };
    match value {
        Some(value) => match value.as_unsigned() {
            Some(timestamp) => timestamp,
            None => 0,
        },
        None => 0,
    }
}

/// Whether a record's text is partial: as its recovery says, else as the
/// transcription says.
pub open spec fn record_partial(record: JsonView) -> bool {
    let value = match nested(record, "recovery"@, "partial"@) {
        Some(value) => Some(value),
        None => nested(record, "stt"@, "partial"@),
    };
    value == Some(JsonView::Bool(true))
}

/// Whether a record's text is partial.
pub fn partial(record: &Json) -> (result: bool)
    ensures
        result == record_partial(record.tree()),
{
    let value = match nested_member(record, "recovery", "partial") {
        Some(value) => Some(value),
        None => nested_member(record, "stt", "partial"),
    };
    match value {
        Some(value) => match value.as_bool() {
            Some(partial) => partial,
            None => false,
        },
        None => false,
    }
}

} // verus!
