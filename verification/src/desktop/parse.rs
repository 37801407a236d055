//! What the compositor, logind and the environment say of the desktop.

use crate::archive::is_id_char;
use crate::desktop::{Focus, SafetyError};
use crate::json::{parse_json, parsed_json, Json, JsonView};
use crate::text::{
    blank, chars_of, decimal, digit, digit_char, drop_return, has_prefix, is_blank, numeral,
    parse_numeral, pieces, push_decimal, same, same_bytes, split, strip_prefix, texts, trim,
    trimmed, utf8_text, without_return,
};
use vstd::prelude::*;
use vstd::string::*;
use vstd::utf8::{decode_utf8, valid_utf8};

verus! {

/// The query for the focused window. Its answer names the window, or tells why
/// none can take text; layers that take the keyboard are named too.
pub const FOCUS_QUERY: &'static str = "/repl local w=hl.get_active_window(); if not w or not w.mapped or w.hidden or not w.visible or not w.accepts_input then return 'none' end; for _,l in ipairs(hl.get_layers()) do if type(l.mapped)~='boolean' or type(l.interactivity)~='number' then return 'unknown' end; if l.mapped and l.interactivity~=0 then return 'layer' end end; if w.class=='cantrip-actions' or w.class=='cantrip-settings' or w.class=='cantrip' then return 'cantrip' end; return string.format('focus|%s|%x|%d',w.address,w.stable_id,w.pid)";

/// Largest environment that is read.
pub const ENVIRONMENT_LIMIT: usize = 65_536;

/// The destination that a reply names.
pub open spec fn focus_reply(text: Seq<char>) -> Result<Focus, SafetyError> {
    let fields = pieces(text, '|');
    if text == "layer"@ {
        Err(SafetyError::LayerOpen)
    } else if text == "cantrip"@ {
        Err(SafetyError::OwnWindow)
    } else if text == "none"@ {
        Err(SafetyError::NoDestination)
    } else if fields.len() != 4 || fields[0] != "focus"@ || !has_prefix(fields[1], "0x"@) {
        Err(SafetyError::Unknown)
    } else {
        match (
            numeral(fields[1].skip("0x"@.len() as int), 16, u64::MAX as nat),
            numeral(fields[2], 16, u64::MAX as nat),
            numeral(fields[3], 10, u32::MAX as nat),
        ) {
            (Some(address), Some(stable_id), Some(pid)) => if address == 0 || stable_id == 0 || pid
                == 0 {
                Err(SafetyError::Unknown)
            } else {
                Ok(
                    Focus {
                        address: address as u64,
                        stable_id: stable_id as u64,
                        pid: pid as u32,
                    },
                )
            },
            _ => Err(SafetyError::Unknown),
        }
    }
}

/// Read a reply to the query for the focused window.
pub fn parse_focus(bytes: &[u8]) -> (result: Result<Focus, SafetyError>)
    ensures
        result == if valid_utf8(bytes@) {
            focus_reply(trimmed(decode_utf8(bytes@)))
        } else {
            Err(SafetyError::Unknown)
        },
{
    let Some(decoded) = utf8_text(bytes) else {
        return Err(SafetyError::Unknown);
    };
    let text: &str = trim(decoded.as_str());
    if same(text, "layer") {
        return Err(SafetyError::LayerOpen);
    }
    if same(text, "cantrip") {
        return Err(SafetyError::OwnWindow);
    }
    if same(text, "none") {
        return Err(SafetyError::NoDestination);
    }
    let fields = split(text, '|');
    let ghost views = pieces(text@, '|');
    assert(fields@.len() == views.len());
    assert(forall|i: int| 0 <= i < fields@.len() ==> #[trigger] fields@[i]@ == views[i]) by {
        assert forall|i: int| 0 <= i < fields@.len() implies #[trigger] fields@[i]@ == views[i] by {
            assert(texts(fields@)[i] == fields@[i]@);
        }
    }
    if fields.len() != 4 || !same(fields[0].as_str(), "focus") {
        return Err(SafetyError::Unknown);
    }
    let Some(digits) = strip_prefix(fields[1].as_str(), "0x") else {
        return Err(SafetyError::Unknown);
    };
    let Some(address) = parse_numeral(digits.as_str(), 16, u64::MAX) else {
        return Err(SafetyError::Unknown);
    };
    let Some(stable_id) = parse_numeral(fields[2].as_str(), 16, u64::MAX) else {
        return Err(SafetyError::Unknown);
    };
    let Some(pid) = parse_numeral(fields[3].as_str(), 10, u32::MAX as u64) else {
        return Err(SafetyError::Unknown);
    };
    if address == 0 || stable_id == 0 || pid == 0 {
        return Err(SafetyError::Unknown);
    }
    Ok(Focus { address, stable_id, pid: pid as u32 })
}

/// The values of a setting in a list of lines.
pub open spec fn setting_values(lines: Seq<Seq<char>>, prefix: Seq<char>) -> Seq<Seq<char>>
    decreases lines.len(),
{
    if lines.len() == 0 {
        Seq::empty()
    } else {
        let earlier = setting_values(lines.drop_last(), prefix);
        let line = without_return(lines.last());
        if has_prefix(line, prefix) {
            earlier.push(line.skip(prefix.len() as int))
        } else {
            earlier
        }
    }
}

/// A part of a unique bus name.
pub open spec fn is_name_part(part: Seq<char>) -> bool {
    part.len() > 0 && forall|i: int| 0 <= i < part.len() ==> is_id_char(#[trigger] part[i])
}

/// A unique bus name: a colon, then two or more parts with dots between them.
pub open spec fn is_unique_name(name: Seq<char>) -> bool {
    &&& has_prefix(name, ":"@)
    &&& ({
        let parts = pieces(name.skip(":"@.len() as int), '.');
        &&& parts.len() > 1
        &&& forall|i: int| 0 <= i < parts.len() ==> is_name_part(#[trigger] parts[i])
    })
}

/// The controller that a session's record names: exactly one, in a record whose
/// last line is complete.
pub open spec fn named_controller(text: Seq<char>) -> Option<Seq<char>> {
    let values = setting_values(pieces(text, '\n').drop_last(), "CONTROLLER="@);
    if text.len() > 0 && text.last() == '\n' && values.len() == 1 && is_unique_name(values[0]) {
        Some(values[0])
    } else {
        None
    }
}

fn name_part(part: &str) -> (result: bool)
    ensures
        result == is_name_part(part@),
{
    let chars = chars_of(part);
    if chars.len() == 0 {
        return false;
    }
    let mut index: usize = 0;
    while index < chars.len()
        invariant
            index <= chars@.len(),
            chars@ == part@,
            forall|i: int| 0 <= i < index ==> is_id_char(#[trigger] part@[i]),
        decreases chars@.len() - index,
    {
        let c: char = chars[index];
        if !(('a' <= c && c <= 'z') || ('A' <= c && c <= 'Z') || ('0' <= c && c <= '9') || c == '-'
            || c == '_') {
            assert(!is_id_char(part@[index as int]));
            return false;
        }
        index += 1;
    }
    true
}

fn unique_name(name: &str) -> (result: bool)
    ensures
        result == is_unique_name(name@),
{
    let Some(rest) = strip_prefix(name, ":") else {
        return false;
    };
    let parts = split(rest.as_str(), '.');
    let ghost views = pieces(rest@, '.');
    assert(parts@.len() == views.len());
    if parts.len() < 2 {
        return false;
    }
    let mut index: usize = 0;
    while index < parts.len()
        invariant
            index <= parts@.len() == views.len(),
            texts(parts@) == views,
            views == pieces(name@.skip(":"@.len() as int), '.'),
            forall|i: int| 0 <= i < index ==> is_name_part(#[trigger] views[i]),
        decreases parts@.len() - index,
    {
        assert(texts(parts@)[index as int] == parts@[index as int]@);
        if !name_part(parts[index].as_str()) {
            assert(!is_name_part(views[index as int]));
            return false;
        }
        index += 1;
    }
    true
}

/// Read the controller's bus name from a session's record.
pub fn parse_controller(bytes: &[u8]) -> (result: Result<String, SafetyError>)
    ensures
        match result {
            Ok(name) => valid_utf8(bytes@) && named_controller(decode_utf8(bytes@)) == Some(name@),
            Err(error) => error == SafetyError::Unknown && !(valid_utf8(bytes@)
                && named_controller(decode_utf8(bytes@)) is Some),
        },
{
    let Some(text) = utf8_text(bytes) else {
        return Err(SafetyError::Unknown);
    };
    let length: usize = text.as_str().unicode_len();
    if length == 0 || text.as_str().get_char(length - 1) != '\n' {
        return Err(SafetyError::Unknown);
    }
    let lines = split(text.as_str(), '\n');
    let ghost views = pieces(text@, '\n');
    assert(texts(lines@) == views);
    let mut controller: Option<String> = None;
    let mut count: usize = 0;
    let mut index: usize = 0;
    assert(views.take(0) =~= Seq::empty());
    let last: usize = lines.len() - 1;
    while index < last
        invariant
            index <= last,
            last + 1 == lines@.len() == views.len(),
            texts(lines@) == views,
            count <= index,
            setting_values(views.take(index as int), "CONTROLLER="@).len() == count,
            match controller {
                Some(value) => count > 0 && value@ == setting_values(
                    views.take(index as int),
                    "CONTROLLER="@,
                )[0],
                None => count == 0,
            },
        decreases last - index,
    {
        proof {
            let next = views.take(index + 1);
            assert(next.drop_last() =~= views.take(index as int));
            assert(next.last() == texts(lines@)[index as int]);
        }
        let line = drop_return(lines[index].as_str());
        if let Some(value) = strip_prefix(line.as_str(), "CONTROLLER=") {
            if count == 0 {
                controller = Some(value);
            }
            count += 1;
        }
        index += 1;
    }
    assert(views.take(index as int) =~= views.drop_last());
    let Some(controller) = controller else {
        return Err(SafetyError::Unknown);
    };
    if count != 1 || !unique_name(controller.as_str()) {
        return Err(SafetyError::Unknown);
    }
    Ok(controller)
}

/// The values of a variable in an environment: entries that end in zero bytes.
pub open spec fn variable_values(bytes: Seq<u8>, start: nat, prefix: Seq<u8>) -> Seq<Seq<u8>>
    decreases bytes.len() - start,
    when start <= bytes.len()
    via variable_values_decreases
{
    let end = zero_index(bytes, start);
    let entry = bytes.subrange(start as int, end as int);
    let rest = if end < bytes.len() {
        variable_values(bytes, end + 1, prefix)
    } else {
        Seq::empty()
    };
    if entry.len() >= prefix.len() && entry.take(prefix.len() as int) == prefix {
        seq![entry.skip(prefix.len() as int)] + rest
    } else {
        rest
    }
}

#[via_fn]
proof fn variable_values_decreases(bytes: Seq<u8>, start: nat, prefix: Seq<u8>) {
    lemma_zero_index(bytes, start);
}

/// Index of the first zero byte from `start` on, or the length.
pub open spec fn zero_index(bytes: Seq<u8>, start: nat) -> nat
    decreases bytes.len() - start,
{
    if start < bytes.len() && bytes[start as int] != 0 {
        zero_index(bytes, start + 1)
    } else {
        start
    }
}

proof fn lemma_zero_index(bytes: Seq<u8>, start: nat)
    requires
        start <= bytes.len(),
    ensures
        start <= zero_index(bytes, start) <= bytes.len(),
    decreases bytes.len() - start,
{
    if start < bytes.len() && bytes[start as int] != 0 {
        lemma_zero_index(bytes, start + 1);
    }
}

/// A byte of a session's identifier.
pub open spec fn is_id_byte(byte: u8) -> bool {
    (0x61 <= byte <= 0x7a) || (0x41 <= byte <= 0x5a) || (0x30 <= byte <= 0x39) || byte == 0x2d
        || byte == 0x5f
}

/// A session's identifier.
pub open spec fn is_session_id(id: Seq<u8>) -> bool {
    0 < id.len() <= 128 && forall|i: int| 0 <= i < id.len() ==> is_id_byte(#[trigger] id[i])
}

/// The session that an environment names: exactly once, in an environment that was
/// read whole.
pub open spec fn named_session(bytes: Seq<u8>) -> Option<Seq<u8>> {
    let values = variable_values(bytes, 0, "XDG_SESSION_ID=".spec_bytes());
    if bytes.len() <= ENVIRONMENT_LIMIT && values.len() == 1 && is_session_id(values[0]) {
        Some(values[0])
    } else {
        None
    }
}

fn session_id(id: &[u8]) -> (result: bool)
    ensures
        result == is_session_id(id@),
{
    if id.len() == 0 || id.len() > 128 {
        return false;
    }
    let mut index: usize = 0;
    while index < id.len()
        invariant
            index <= id@.len(),
            forall|i: int| 0 <= i < index ==> is_id_byte(#[trigger] id@[i]),
        decreases id@.len() - index,
    {
        let byte: u8 = id[index];
        if !((0x61 <= byte && byte <= 0x7a) || (0x41 <= byte && byte <= 0x5a) || (0x30 <= byte
            && byte <= 0x39) || byte == 0x2d || byte == 0x5f) {
            assert(!is_id_byte(id@[index as int]));
            return false;
        }
        index += 1;
    }
    true
}

/// Read the session's identifier from the compositor's environment. It only
/// locates a record; the record and the bus give the authority.
pub fn compositor_session_id(bytes: &[u8]) -> (result: Result<String, SafetyError>)
    ensures
        match result {
            Ok(id) => named_session(bytes@) is Some && id@ == ascii_chars(
                named_session(bytes@)->0,
            ),
            Err(error) => error == SafetyError::Unknown && named_session(bytes@) is None,
        },
{
    if bytes.len() > ENVIRONMENT_LIMIT {
        return Err(SafetyError::Unknown);
    }
    let prefix = "XDG_SESSION_ID=".as_bytes();
    let ghost all = variable_values(bytes@, 0, prefix@);
    let mut found: Option<Vec<u8>> = None;
    let mut count: usize = 0;
    let mut start: usize = 0;
    let mut last = false;
    while !last
        invariant
            last || start <= bytes@.len(),
            count <= start,
            start <= bytes@.len() + 1,
            bytes@.len() <= ENVIRONMENT_LIMIT,
            all == variable_values(bytes@, 0, prefix@),
            all.len() == count + if last {
                0
            } else {
                variable_values(bytes@, start as nat, prefix@).len()
            },
            match found {
                Some(value) => count > 0 && all.len() > 0 && value@ == all[0],
                None => count == 0 && !last ==> all == variable_values(
                    bytes@,
                    start as nat,
                    prefix@,
                ),
            },
            found is None ==> count == 0,
        decreases bytes@.len() + 1 - start,
    {
        proof {
            lemma_zero_index(bytes@, start as nat);
        }
        let ghost rest = variable_values(bytes@, start as nat, prefix@);
        let mut end: usize = start;
        while end < bytes.len() && bytes[end] != 0
            invariant
                start <= end <= bytes@.len(),
                zero_index(bytes@, start as nat) == zero_index(bytes@, end as nat),
            decreases bytes@.len() - end,
        {
            end += 1;
        }
        let entry = vstd::slice::slice_subrange(bytes, start, end);
        if entry.len() >= prefix.len() && same_bytes(
            vstd::slice::slice_subrange(entry, 0, prefix.len()),
            prefix,
        ) {
            assert(entry@.subrange(0, prefix@.len() as int) =~= entry@.take(prefix@.len() as int));
            assert(rest[0] == entry@.skip(prefix@.len() as int));
            if count == 0 {
                let value = vstd::slice::slice_subrange(entry, prefix.len(), entry.len());
                assert(value@ =~= entry@.skip(prefix@.len() as int));
                found = Some(vstd::slice::slice_to_vec(value));
            }
            count += 1;
        } else {
            assert(entry@.len() >= prefix@.len() ==> entry@.subrange(0, prefix@.len() as int)
                =~= entry@.take(prefix@.len() as int));
        }
        last = end == bytes.len();
        start = end + 1;
    }
    let Some(id) = found else {
        return Err(SafetyError::Unknown);
    };
    if count != 1 || !session_id(id.as_slice()) {
        return Err(SafetyError::Unknown);
    }
    Ok(ascii_text(&id))
}

/// Bytes as characters of the same codes.
pub open spec fn ascii_chars(bytes: Seq<u8>) -> Seq<char> {
    bytes.map_values(|byte: u8| byte as char)
}

fn ascii_text(bytes: &Vec<u8>) -> (result: String)
    ensures
        result@ == ascii_chars(bytes@),
{
    let mut result: String = String::new();
    let mut index: usize = 0;
    assert(ascii_chars(bytes@.take(0)) =~= Seq::empty());
    while index < bytes.len()
        invariant
            index <= bytes@.len(),
            result@ == ascii_chars(bytes@.take(index as int)),
        decreases bytes@.len() - index,
    {
        result.push(bytes[index] as char);
        index += 1;
        assert(result@ =~= ascii_chars(bytes@.take(index as int)));
    }
    assert(bytes@.take(index as int) =~= bytes@);
    result
}

/// Whether a status describes a desktop of its own with layer metadata.
pub open spec fn direct_desktop(status: JsonView) -> Result<(), SafetyError> {
    if status.text_member("backend"@) != Some("drm"@) {
        Err(SafetyError::Nested)
    } else if status.text_member("configProvider"@) != Some("lua"@) {
        Err(SafetyError::NoLayerMetadata)
    } else {
        Ok(())
    }
}

/// Judge the compositor's status, given the document that it sent.
pub fn judge_desktop(status: Option<Json>) -> (result: Result<(), SafetyError>)
    ensures
        result == match status {
            Some(status) => direct_desktop(status.tree()),
            None => Err(SafetyError::Unknown),
        },
{
    let Some(status) = status else {
        return Err(SafetyError::Unknown);
    };
    let direct = match status.text_member("backend") {
        Some(backend) => same(backend.as_str(), "drm"),
        None => false,
    };
    if !direct {
        return Err(SafetyError::Nested);
    }
    let described = match status.text_member("configProvider") {
        Some(provider) => same(provider.as_str(), "lua"),
        None => false,
    };
    if !described {
        return Err(SafetyError::NoLayerMetadata);
    }
    Ok(())
}

/// Check that the compositor is a desktop of its own with layer metadata.
pub fn check_direct_desktop(bytes: &[u8]) -> (result: Result<(), SafetyError>)
    ensures
        result == match parsed_json(bytes@) {
            Some(status) => direct_desktop(status),
            None => Err(SafetyError::Unknown),
        },
{
    judge_desktop(parse_json(bytes))
}

/// Judge the lock state, given the document that the compositor sent: only an
/// explicit denial proves an unlocked desktop.
pub fn judge_lock(reply: Option<Json>) -> (result: Result<(), SafetyError>)
    ensures
        result == match reply {
            Some(reply) => if reply.tree().bool_member("locked"@) == Some(false) {
                Ok(())
            } else {
                Err(SafetyError::Locked)
            },
            None => Err(SafetyError::Unknown),
        },
{
    let Some(reply) = reply else {
        return Err(SafetyError::Unknown);
    };
    match reply.bool_member("locked") {
        Some(false) => Ok(()),
        _ => Err(SafetyError::Locked),
    }
}

/// Check that the compositor denies being locked.
pub fn check_unlocked(bytes: &[u8]) -> (result: Result<(), SafetyError>)
    ensures
        result == match parsed_json(bytes@) {
            Some(reply) => if reply.bool_member("locked"@) == Some(false) {
                Ok(())
            } else {
                Err(SafetyError::Locked)
            },
            None => Err(SafetyError::Unknown),
        },
{
    judge_lock(parse_json(bytes))
}

/// Whether all values are texts.
pub open spec fn all_texts(items: Seq<JsonView>) -> bool {
    forall|i: int| 0 <= i < items.len() ==> #[trigger] items[i] is Text
}

/// Whether all texts are blank.
pub open spec fn all_blank(items: Seq<JsonView>) -> bool {
    forall|i: int| 0 <= i < items.len() ==> is_blank((#[trigger] items[i])->Text_0)
}

/// What a list of diagnostics comes to: blank entries are no errors.
pub open spec fn diagnostics(reply: JsonView) -> Result<(), SafetyError> {
    match reply {
        JsonView::Array(items) => if !all_texts(items) {
            Err(SafetyError::Unknown)
        } else if !all_blank(items) {
            Err(SafetyError::ConfigErrors)
        } else {
            Ok(())
        },
        _ => Err(SafetyError::Unknown),
    }
}

/// Judge the compositor's diagnostics, given the document that it sent.
pub fn judge_diagnostics(reply: Option<Json>) -> (result: Result<(), SafetyError>)
    ensures
        result == match reply {
            Some(reply) => diagnostics(reply.tree()),
            None => Err(SafetyError::Unknown),
        },
{
    let Some(document) = &reply else {
        return Err(SafetyError::Unknown);
    };
    let Json::Array(items) = document else {
        return Err(SafetyError::Unknown);
    };
    let ghost trees = document.tree()->Array_0;
    let mut clean = true;
    let mut index: usize = 0;
    while index < items.len()
        invariant
            index <= items@.len() == trees.len(),
            reply == Some(*document),
            *document == Json::Array(*items),
            trees == document.tree()->Array_0,
            forall|i: int| 0 <= i < index ==> #[trigger] trees[i] is Text,
            clean == (forall|i: int|
                0 <= i < index ==> is_blank((#[trigger] trees[i])->Text_0)),
        decreases items@.len() - index,
    {
        assert(trees[index as int] == items@[index as int].tree());
        let Some(text) = items[index].as_text() else {
            assert(!(trees[index as int] is Text));
            return Err(SafetyError::Unknown);
        };
        if !blank(text.as_str()) {
            assert(!is_blank(trees[index as int]->Text_0));
            clean = false;
        }
        index += 1;
    }
    if clean {
        Ok(())
    } else {
        Err(SafetyError::ConfigErrors)
    }
}

/// Check that the compositor has no diagnostics that a query would clear.
pub fn check_config_errors(bytes: &[u8]) -> (result: Result<(), SafetyError>)
    ensures
        result == match parsed_json(bytes@) {
            Some(reply) => diagnostics(reply),
            None => Err(SafetyError::Unknown),
        },
{
    judge_diagnostics(parse_json(bytes))
}

/// What logind tells of the session.
pub struct SessionFacts {
    pub active: Option<bool>,
    pub locked: Option<bool>,
    pub remote: Option<bool>,
    pub kind: Option<String>,
    pub state: Option<String>,
}

/// Whether a session may be typed into.
pub open spec fn session_check(session: SessionFacts, sleeping: Option<bool>) -> Result<
    (),
    SafetyError,
> {
    if session.active != Some(true) || session.locked != Some(false)
        || session.remote != Some(false) || !(session.kind is Some && session.kind->0@
        == "wayland"@) || !(session.state is Some && session.state->0@ == "active"@) {
        Err(SafetyError::SessionInactive)
    } else if sleeping is None {
        Err(SafetyError::Unknown)
    } else if sleeping->0 {
        Err(SafetyError::Sleeping)
    } else {
        Ok(())
    }
}

/// Check that the session is the active, local, unlocked one and stays awake.
pub fn check_session(session: &SessionFacts, sleeping: Option<bool>) -> (result: Result<
    (),
    SafetyError,
>)
    ensures
        result == session_check(*session, sleeping),
{
    let wayland = match &session.kind {
        Some(kind) => same(kind.as_str(), "wayland"),
        None => false,
    };
    let active = match &session.state {
        Some(state) => same(state.as_str(), "active"),
        None => false,
    };
    if session.active != Some(true) || session.locked != Some(false) || session.remote != Some(
        false,
    ) || !wayland || !active {
        return Err(SafetyError::SessionInactive);
    }
    match sleeping {
        Some(true) => Err(SafetyError::Sleeping),
        Some(false) => Ok(()),
        None => Err(SafetyError::Unknown),
    }
}

/// The name of a subscription's proof: the process, the time and a number that the
/// process has not used.
pub open spec fn nonce_text(process: nat, boot: nat, serial: nat) -> Seq<char> {
    "cantrip-delivery-ready:"@ + decimal(process) + ":"@ + hexadecimal(boot) + ":"@ + hexadecimal(
        serial,
    )
}

/// The hexadecimal numeral of `n`, without leading zeros.
pub open spec fn hexadecimal(n: nat) -> Seq<char>
    decreases n,
{
    if n < 16 {
        seq![digit_char(n)]
    } else {
        hexadecimal(n / 16).push(digit_char(n % 16))
    }
}

fn push_hexadecimal(out: &mut String, n: u64)
    ensures
        final(out)@ == old(out)@ + hexadecimal(n as nat),
    decreases n,
{
    if n >= 16 {
        push_hexadecimal(out, n / 16);
    }
    out.push(digit((n % 16) as u8));
    assert(out@ =~= old(out)@ + hexadecimal(n as nat));
}

/// The name of a subscription's proof.
pub fn delivery_nonce(process: u32, boot: u64, serial: u64) -> (result: String)
    ensures
        result@ == nonce_text(process as nat, boot as nat, serial as nat),
{
    let mut nonce: String = "cantrip-delivery-ready:".to_owned();
    push_decimal(&mut nonce, process as u64);
    nonce.append(":");
    push_hexadecimal(&mut nonce, boot);
    nonce.append(":");
    push_hexadecimal(&mut nonce, serial);
    nonce
}

/// The command that posts a subscription's proof.
pub fn nonce_command(nonce: &str) -> (result: String)
    ensures
        result@ == "/dispatch hl.dsp.event('"@ + nonce@ + "')"@,
{
    let mut command: String = "/dispatch hl.dsp.event('".to_owned();
    command.append(nonce);
    command.append("')");
    command
}

/// The event by which a subscription's proof arrives.
pub fn nonce_event(nonce: &str) -> (result: String)
    ensures
        result@ == "custom>>"@ + nonce@,
{
    let mut event: String = "custom>>".to_owned();
    event.append(nonce);
    event
}

/// Whether a text names an instance of the compositor.
pub open spec fn is_instance(instance: Seq<char>) -> bool {
    instance.len() > 0 && forall|i: int|
        0 <= i < instance.len() ==> is_id_char(#[trigger] instance[i]) && instance[i] != '-'
}

/// Whether a text names a compositor instance.
pub fn valid_instance(instance: &str) -> (result: bool)
    ensures
        result == is_instance(instance@),
{
    let chars = chars_of(instance);
    if chars.len() == 0 {
        return false;
    }
    let mut index: usize = 0;
    while index < chars.len()
        invariant
            index <= chars@.len(),
            chars@ == instance@,
            forall|i: int|
                0 <= i < index ==> is_id_char(#[trigger] instance@[i]) && instance@[i] != '-',
        decreases chars@.len() - index,
    {
        let c: char = chars[index];
        if !(('a' <= c && c <= 'z') || ('A' <= c && c <= 'Z') || ('0' <= c && c <= '9') || c
            == '_') {
            assert(!is_id_char(instance@[index as int]) || instance@[index as int] == '-');
            return false;
        }
        index += 1;
    }
    true
}

/// What the environment tells of the Wayland socket.
#[derive(Clone, Copy, Debug, PartialEq, Eq, Structural)]
pub struct SocketFacts {
    /// A socket was opened in advance.
    pub preopened: bool,
    /// The display is named: by an absolute path, or by the number of components.
    pub display: bool,
    pub display_absolute: bool,
    pub display_components: usize,
    /// The runtime directory is named, and absolute.
    pub runtime: bool,
    pub runtime_absolute: bool,
}

/// Where the Wayland socket lies.
#[derive(Clone, Copy, Debug, PartialEq, Eq, Structural)]
pub enum SocketPlace {
    /// At the display's own path.
    Display,
    /// In the runtime directory.
    Runtime,
}

/// Why there is no Wayland socket to verify.
#[derive(Clone, Copy, Debug, PartialEq, Eq, Structural)]
pub enum SocketError {
    /// A forwarded connection has no verified target.
    Preopened,
    NoDisplay,
    NoRuntime,
    InvalidPath,
}

/// Where the compositor listens.
pub open spec fn socket_place(facts: SocketFacts) -> Result<SocketPlace, SocketError> {
    if facts.preopened {
        Err(SocketError::Preopened)
    } else if !facts.display {
        Err(SocketError::NoDisplay)
    } else if facts.display_absolute {
        Ok(SocketPlace::Display)
    } else if !facts.runtime {
        Err(SocketError::NoRuntime)
    } else if !facts.runtime_absolute || facts.display_components != 1 {
        Err(SocketError::InvalidPath)
    } else {
        Ok(SocketPlace::Runtime)
    }
}

/// Find the Wayland socket that can be verified.
pub fn wayland_socket(facts: SocketFacts) -> (result: Result<SocketPlace, SocketError>)
    ensures
        result == socket_place(facts),
{
    if facts.preopened {
        return Err(SocketError::Preopened);
    }
    if !facts.display {
        return Err(SocketError::NoDisplay);
    }
    if facts.display_absolute {
        return Ok(SocketPlace::Display);
    }
    if !facts.runtime {
        return Err(SocketError::NoRuntime);
    }
    if !facts.runtime_absolute || facts.display_components != 1 {
        return Err(SocketError::InvalidPath);
    }
    Ok(SocketPlace::Runtime)
}

/// Whether nobody but the system can have written a file.
pub open spec fn is_trusted(expected_kind: bool, owner: u32, mode: u32) -> bool {
    expected_kind && owner == 0 && mode & 0o022 == 0
}

/// Whether a directory or a file can be trusted: of the expected kind, root's own,
/// and writable by nobody else.
pub fn trusted_entry(expected_kind: bool, owner: u32, mode: u32) -> (result: bool)
    ensures
        result == is_trusted(expected_kind, owner, mode),
{
    expected_kind && owner == 0 && mode & 0o022 == 0
}

} // verus!
