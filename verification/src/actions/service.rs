//! How the actions window starts the daemon, and what it makes of answers.

use crate::actions::window::ActionResult;
use crate::actions::{plain_line_of, property, property_value, report_line};
use crate::daemon::{CommandReply, CommandReplyView};
use crate::text::{pieces, same, split, texts, trim, trimmed};
use vstd::prelude::*;
use vstd::string::*;

verus! {

/// Who starts the daemon.
#[derive(Debug, PartialEq, Eq)]
pub enum ServiceDecision {
    /// There is no user service: it is started directly.
    Direct,
    /// The user service does.
    Service,
    /// The user service owns it and cannot: nothing is started beside it.
    Refused(String),
}

/// Why nothing is started beside a service in the given state.
pub open spec fn service_refusal(load_state: Option<Seq<char>>) -> Seq<char> {
    match load_state {
        Some(state) => "Cantrip user service is "@ + state
            + "; repair or unmask that service before starting. No competing daemon was started."@,
        None => "Cantrip service ownership is unknown; no competing daemon was started."@,
    }
}

/// Decide who starts the daemon, from the report on its user service.
pub fn service_owner(properties: &str) -> (result: ServiceDecision)
    ensures
        ({
            let state = property_value(pieces(properties@, '\n'), "LoadState"@, 0);
            match result {
                ServiceDecision::Direct => state == Some("not-found"@),
                ServiceDecision::Service => state == Some("loaded"@),
                ServiceDecision::Refused(words) => state != Some("not-found"@) && state != Some(
                    "loaded"@,
                ) && words@ == service_refusal(state),
            }
        }),
{
    match property(properties, "LoadState") {
        Some(state) => {
            if same(state.as_str(), "not-found") {
                proof {
                    reveal_strlit("not-found");
                    reveal_strlit("loaded");
                    assert("not-found"@.len() == 9);
                    assert("loaded"@.len() == 6);
                }
                ServiceDecision::Direct
            } else if same(state.as_str(), "loaded") {
                ServiceDecision::Service
            } else {
                let mut words: String = "Cantrip user service is ".to_owned();
                words.append(state.as_str());
                words.append(
                    "; repair or unmask that service before starting. No competing daemon was started.",
                );
                ServiceDecision::Refused(words)
            }
        },
        None => ServiceDecision::Refused(
            "Cantrip service ownership is unknown; no competing daemon was started.".to_owned(),
        ),
    }
}

/// Whether a report on the user service can be used: the command succeeded, or said
/// that there is none.
pub open spec fn usable_report(succeeded: bool, properties: Seq<char>) -> bool {
    let lines = pieces(properties, '\n');
    succeeded || exists|i: int|
        0 <= i < lines.len() && #[trigger] report_line(lines, i) == "LoadState=not-found"@
}

/// Whether a report on the user service can be used.
pub fn report_usable(succeeded: bool, properties: &str) -> (result: bool)
    ensures
        result == usable_report(succeeded, properties@),
{
    if succeeded {
        return true;
    }
    let lines = split(properties, '\n');
    let ghost views = pieces(properties@, '\n');
    let mut index: usize = 0;
    while index < lines.len()
        invariant
            index <= lines@.len() == views.len(),
            texts(lines@) == views,
            views == pieces(properties@, '\n'),
            forall|i: int|
                0 <= i < index ==> #[trigger] report_line(views, i) != "LoadState=not-found"@,
        decreases lines@.len() - index,
    {
        assert(texts(lines@)[index as int] == lines@[index as int]@);
        let line = plain_line_of(lines[index].as_str(), index < lines.len() - 1);
        assert(line@ == report_line(views, index as int));
        if same(line.as_str(), "LoadState=not-found") {
            return true;
        }
        index += 1;
    }
    false
}

/// How a start stands.
#[derive(Debug, PartialEq, Eq)]
pub enum StartStep {
    /// Wait on.
    Wait,
    /// The daemon answers.
    Connected,
    /// It failed.
    Failed(String),
}

/// A property, or that it is unknown.
pub open spec fn or_unknown(value: Option<Seq<char>>) -> Seq<char> {
    match value {
        Some(value) => value,
        None => "unknown"@,
    }
}

fn known(value: Option<String>) -> (result: String)
    ensures
        result@ == or_unknown(
            match value {
                Some(value) => Some(value@),
                None => None,
            },
        ),
{
    match value {
        Some(value) => value,
        None => "unknown".to_owned(),
    }
}

/// Why a start through the user service failed.
pub open spec fn service_failure(properties: Seq<char>) -> Seq<char> {
    let lines = pieces(properties, '\n');
    "Cantrip user service failed: result="@ + or_unknown(property_value(lines, "Result"@, 0))
        + ", exit="@ + or_unknown(property_value(lines, "ExecMainStatus"@, 0))
        + ". Open Settings to repair configuration, then try Start again."@
}

/// See how a start through the user service stands.
pub fn service_start(connected: bool, properties: &str, expired: bool) -> (result: StartStep)
    ensures
        ({
            let failed = property_value(pieces(properties@, '\n'), "ActiveState"@, 0) == Some(
                "failed"@,
            );
            match result {
                StartStep::Connected => connected,
                StartStep::Failed(words) => !connected && (failed || expired) && words@
                    == if failed {
                    service_failure(properties@)
                } else {
                    "The user service accepted startup but Cantrip is not reachable yet. The service remains its owner; no second daemon was started."@
                },
                StartStep::Wait => !connected && !failed && !expired,
            }
        }),
{
    if connected {
        return StartStep::Connected;
    }
    let failed = match property(properties, "ActiveState") {
        Some(state) => same(state.as_str(), "failed"),
        None => false,
    };
    if failed {
        let mut words: String = "Cantrip user service failed: result=".to_owned();
        words.append(known(property(properties, "Result")).as_str());
        words.append(", exit=");
        words.append(known(property(properties, "ExecMainStatus")).as_str());
        words.append(". Open Settings to repair configuration, then try Start again.");
        return StartStep::Failed(words);
    }
    if expired {
        return StartStep::Failed(
            "The user service accepted startup but Cantrip is not reachable yet. The service remains its owner; no second daemon was started.".to_owned(),
        );
    }
    StartStep::Wait
}

/// See how a direct start stands, given how the process ended, where it did, and what
/// it printed. A process that ended or is not ready in time has failed.
pub fn direct_start(exited: Option<&str>, connected: bool, expired: bool, printed: &str) -> (result:
    StartStep)
    ensures
        match result {
            StartStep::Connected => exited is None && connected,
            StartStep::Failed(words) => match exited {
                Some(status) => words@ == "Cantrip exited during startup ("@ + status@ + "). "@
                    + trimmed(printed@),
                None => !connected && expired && words@
                    == "The new Cantrip process did not become ready and was stopped. "@ + trimmed(
                    printed@,
                ),
            },
            StartStep::Wait => exited is None && !connected && !expired,
        },
{
    if let Some(status) = exited {
        let mut words: String = "Cantrip exited during startup (".to_owned();
        words.append(status);
        words.append("). ");
        words.append(trim(printed));
        return StartStep::Failed(words);
    }
    if connected {
        return StartStep::Connected;
    }
    if expired {
        let mut words: String =
            "The new Cantrip process did not become ready and was stopped. ".to_owned();
        words.append(trim(printed));
        return StartStep::Failed(words);
    }
    StartStep::Wait
}

/// Why a command was refused: its error, else its message.
pub open spec fn refusal_words(reply: CommandReplyView) -> Seq<char> {
    match (reply.error, reply.message) {
        (Some(error), _) => error,
        (None, Some(message)) => message,
        (None, None) => "Cantrip rejected this action."@,
    }
}

/// What a command's answer comes to.
pub fn command_result(reply: CommandReply) -> (result: Result<ActionResult, String>)
    ensures
        match result {
            Ok(done) => reply.ok && done == ActionResult::CommandAccepted,
            Err(words) => !reply.ok && words@ == refusal_words(reply@),
        },
{
    if reply.ok {
        return Ok(ActionResult::CommandAccepted);
    }
    match (reply.error, reply.message) {
        (Some(error), _) => Err(error),
        (None, Some(message)) => Err(message),
        (None, None) => Err("Cantrip rejected this action.".to_owned()),
    }
}

/// What an installation of the local model comes to.
pub fn installation_result(cancelled: bool, failure: Option<String>, reloaded: bool) -> (result:
    Result<ActionResult, String>)
    ensures
        match result {
            Ok(ActionResult::Message(words)) => cancelled && words@
                == "Model installation cancelled; the previous model is unchanged."@ || !cancelled
                && failure is None && words@ == if reloaded {
                "Local model installed; daemon reloaded."@
            } else {
                "Local model installed. Reload the daemon after the current operation, or start it below."@
            },
            Ok(_) => false,
            Err(words) => !cancelled && failure is Some && words@
                == "Installing the local model: "@ + failure->0@,
        },
{
    if cancelled {
        return Ok(
            ActionResult::Message(
                "Model installation cancelled; the previous model is unchanged.".to_owned(),
            ),
        );
    }
    match failure {
        Some(failure) => {
            let mut words: String = "Installing the local model: ".to_owned();
            words.append(failure.as_str());
            Err(words)
        },
        None => {
            let words = if reloaded {
                "Local model installed; daemon reloaded."
            } else {
                "Local model installed. Reload the daemon after the current operation, or start it below."
            };
            Ok(ActionResult::Message(words.to_owned()))
        },
    }
}

/// What storing a key comes to. Neither the key nor why it was refused is told.
pub fn key_result(stored: bool) -> (result: Result<ActionResult, String>)
    ensures
        match result {
            Ok(ActionResult::Message(words)) => stored && words@
                == "API key saved in the OS keyring. Use this key ID in Settings; the key is not stored in configuration."@,
            Ok(_) => false,
            Err(words) => !stored && words@
                == "Key was not saved. Unlock the desktop keyring and use a nonempty key without whitespace."@,
        },
{
    if stored {
        Ok(
            ActionResult::Message(
                "API key saved in the OS keyring. Use this key ID in Settings; the key is not stored in configuration.".to_owned(),
            ),
        )
    } else {
        Err(
            "Key was not saved. Unlock the desktop keyring and use a nonempty key without whitespace.".to_owned(),
        )
    }
}

/// What a check of the setup comes to.
pub fn check_result(succeeded: bool, printed: String) -> (result: Result<ActionResult, String>)
    ensures
        match result {
            Ok(ActionResult::Diagnosis(diagnosis)) => succeeded && diagnosis@ == printed@,
            Ok(_) => false,
            Err(words) => !succeeded && words@
                == "Setup check could not finish. Check configuration in Settings."@,
        },
{
    if succeeded {
        Ok(ActionResult::Diagnosis(printed))
    } else {
        Err("Setup check could not finish. Check configuration in Settings.".to_owned())
    }
}

} // verus!
