//! Clients of the daemon's socket, and the reader of its history.

use crate::daemon::control::{Readiness, Step};
use crate::daemon::{Command, CommandReply, Daemon};
use crate::hud::{elapsed_since, since};
use crate::ipc::StatusSnapshot;
use crate::text::utf8_text;
use vstd::prelude::*;
use vstd::string::*;
use vstd::utf8::{decode_utf8, valid_utf8};

verus! {

/// Clients that are served at once.
pub const MAX_CLIENTS: usize = 64;

/// Time for a client to send its request.
pub const CLIENT_DEADLINE: u64 = 2_000_000_000;

/// Time for a client to read its answer.
pub const REPLY_DEADLINE: u64 = 8_000_000_000;

/// Bytes of an answer that are written at once.
pub const WRITE_CHUNK: usize = 65_536;

/// Time between two attempts to start the display.
pub const HUD_SPAWN_COOLDOWN: u64 = 30_000_000_000;

/// Why a request is refused.
#[derive(Clone, Copy, Debug, PartialEq, Eq, Structural)]
pub enum RequestError {
    /// It did not come in time.
    TimedOut,
    /// It ended before its line did.
    Incomplete,
    /// It is too long.
    TooLarge,
    /// It is no text.
    Invalid,
    /// It is no request that is known.
    Unknown,
}

impl RequestError {
    /// What is told of the error.
    pub open spec fn words(self) -> Seq<char> {
        match self {
            RequestError::TimedOut => "daemon request timed out"@,
            RequestError::Incomplete => "incomplete daemon request"@,
            RequestError::TooLarge => "daemon request exceeds size limit"@,
            RequestError::Invalid => "invalid daemon request"@,
            RequestError::Unknown => "unknown daemon command"@,
        }
    }

    /// What is told of the error.
    pub fn message(self) -> (result: &'static str)
        ensures
            result@ == self.words(),
    {
        match self {
            RequestError::TimedOut => "daemon request timed out",
            RequestError::Incomplete => "incomplete daemon request",
            RequestError::TooLarge => "daemon request exceeds size limit",
            RequestError::Invalid => "invalid daemon request",
            RequestError::Unknown => "unknown daemon command",
        }
    }
}

/// Read a request's line.
pub fn decode_request(bytes: &[u8]) -> (result: Result<String, RequestError>)
    ensures
        match result {
            Ok(line) => valid_utf8(bytes@) && line@ == decode_utf8(bytes@),
            Err(error) => error == RequestError::Invalid && !valid_utf8(bytes@),
        },
{
    match utf8_text(bytes) {
        Some(line) => Ok(line),
        None => Err(RequestError::Invalid),
    }
}

/// Take a request that was read from its line, where it is one that is known.
pub fn known_request<R>(request: Option<R>) -> (result: Result<R, RequestError>)
    ensures
        result == match request {
            Some(request) => Ok::<R, RequestError>(request),
            None => Err::<R, RequestError>(RequestError::Unknown),
        },
{
    match request {
        Some(request) => Ok(request),
        None => Err(RequestError::Unknown),
    }
}

/// A client of the socket.
#[derive(Debug, PartialEq, Eq)]
pub struct PendingClient {
    /// What of its request has come.
    pub buffer: Vec<u8>,
    /// Its answer.
    pub response: Option<Vec<u8>>,
    /// How much of the answer is written.
    pub written: usize,
    /// It waits for the history.
    pub history_wait: bool,
    pub deadline: u64,
}

/// What a client waits for.
#[derive(Clone, Copy, Debug, PartialEq, Eq, Structural)]
pub enum ClientPlan {
    /// It is done with, or took too long to read.
    Close,
    /// It took too long to ask.
    Refuse(RequestError),
    /// Write a part of the answer.
    Write { start: usize, end: usize },
    /// Wait for the history.
    Wait,
    /// Read a part of the request.
    Read,
}

/// What became of a write.
#[derive(Clone, Copy, Debug, PartialEq, Eq, Structural)]
pub enum WriteResult {
    Wrote(usize),
    /// Nothing could be written for now.
    Blocked,
    Failed,
}

/// What became of a read.
pub enum ReadResult {
    Closed,
    Data(Vec<u8>),
    WouldBlock,
    Interrupted,
    Failed,
}

/// Where a client stands.
#[derive(Debug, PartialEq, Eq)]
pub enum ClientPoll {
    /// Read on.
    Continue,
    /// Nothing further for now.
    Pending,
    /// Its request, or why it is refused.
    Ready(Result<String, RequestError>),
    /// It is gone.
    Closed,
}

/// Index of the first line end, or the length.
pub open spec fn line_length(bytes: Seq<u8>) -> nat
    decreases bytes.len(),
{
    if bytes.len() == 0 || bytes[0] == 0x0a {
        0
    } else {
        1 + line_length(bytes.skip(1))
    }
}

proof fn lemma_line_length(bytes: Seq<u8>, length: nat)
    requires
        length <= bytes.len(),
        forall|i: int| 0 <= i < length ==> bytes[i] != 0x0a,
        length == bytes.len() || bytes[length as int] == 0x0a,
    ensures
        line_length(bytes) == length,
    decreases length,
{
    if length > 0 {
        let rest = bytes.skip(1);
        assert forall|i: int| 0 <= i < length - 1 implies rest[i] != 0x0a by {
            assert(rest[i] == bytes[i + 1]);
        }
        lemma_line_length(rest, (length - 1) as nat);
    }
}

/// Until when a client that came may ask.
pub open spec fn asked_until(now: u64) -> int {
    now + CLIENT_DEADLINE
}

/// Until when a client that asked may wait for and read its answer.
pub open spec fn answered_until(now: u64) -> int {
    now + REPLY_DEADLINE
}

/// What follows a write of a part of an answer of which the given bytes were written before.
pub open spec fn write_poll(result: WriteResult, written: usize, length: nat) -> ClientPoll {
    match result {
        WriteResult::Failed => ClientPoll::Closed,
        WriteResult::Blocked => if written == length {
            ClientPoll::Closed
        } else {
            ClientPoll::Pending
        },
        WriteResult::Wrote(count) => if count == 0 || written + count == length {
            ClientPoll::Closed
        } else {
            ClientPoll::Pending
        },
    }
}

/// A [`ClientPoll`] with the text of its request.
pub enum ToldPoll {
    Continue,
    Pending,
    Refused(RequestError),
    Asked(Seq<char>),
    Closed,
}

/// What a poll tells.
pub open spec fn told_poll(poll: ClientPoll) -> ToldPoll {
    match poll {
        ClientPoll::Continue => ToldPoll::Continue,
        ClientPoll::Pending => ToldPoll::Pending,
        ClientPoll::Ready(Ok(line)) => ToldPoll::Asked(line@),
        ClientPoll::Ready(Err(error)) => ToldPoll::Refused(error),
        ClientPoll::Closed => ToldPoll::Closed,
    }
}

/// What of a request has come, up to the end of its line.
pub open spec fn request_so_far(buffer: Seq<u8>, data: Seq<u8>) -> Seq<u8> {
    buffer + data.take(line_length(data) as int)
}

/// What is kept of a request after a read.
pub open spec fn kept_request(buffer: Seq<u8>, read: ReadResult, limit: usize) -> Seq<u8> {
    match read {
        ReadResult::Data(data) => if request_so_far(buffer, data@).len() >= limit {
            buffer
        } else {
            request_so_far(buffer, data@)
        },
        _ => buffer,
    }
}

/// What follows a read of a part of a request.
pub open spec fn read_poll(buffer: Seq<u8>, read: ReadResult, limit: usize) -> ToldPoll {
    match read {
        ReadResult::Closed => if buffer.len() == 0 {
            ToldPoll::Closed
        } else {
            ToldPoll::Refused(RequestError::Incomplete)
        },
        ReadResult::WouldBlock => ToldPoll::Pending,
        ReadResult::Interrupted => ToldPoll::Continue,
        ReadResult::Failed => ToldPoll::Closed,
        ReadResult::Data(data) => {
            let request = request_so_far(buffer, data@);
            if request.len() >= limit {
                ToldPoll::Refused(RequestError::TooLarge)
            } else if line_length(data@) == data@.len() {
                ToldPoll::Continue
            } else if valid_utf8(request) {
                ToldPoll::Asked(decode_utf8(request))
            } else {
                ToldPoll::Refused(RequestError::Invalid)
            }
        },
    }
}

impl PendingClient {
    /// No more of the answer is written than there is.
    pub open spec fn wf(&self) -> bool {
        match self.response {
            Some(response) => self.written <= response@.len(),
            None => self.written == 0,
        }
    }

    /// A client that has just come.
    pub fn accept(now: u64) -> (result: Self)
        requires
            now + CLIENT_DEADLINE <= u64::MAX,
        ensures
            result.wf(),
            result.buffer@ == Seq::<u8>::empty(),
            result.response is None,
            result.written == 0,
            !result.history_wait,
            result.deadline == asked_until(now),
    {
        PendingClient {
            buffer: Vec::new(),
            response: None,
            written: 0,
            history_wait: false,
            deadline: now + CLIENT_DEADLINE,
        }
    }

    /// Answer the client.
    pub fn respond(&mut self, payload: Vec<u8>, now: u64)
        requires
            now + REPLY_DEADLINE <= u64::MAX,
            old(self).wf(),
            old(self).response is None,
        ensures
            final(self).wf(),
            final(self).buffer == old(self).buffer,
            final(self).response == Some(payload),
            final(self).written == 0,
            !final(self).history_wait,
            final(self).deadline == answered_until(now),
    {
        self.response = Some(payload);
        self.history_wait = false;
        self.deadline = now + REPLY_DEADLINE;
    }

    /// Let the client wait for the history.
    pub fn await_history(&mut self, now: u64)
        requires
            now + REPLY_DEADLINE <= u64::MAX,
        ensures
            final(self).history_wait,
            final(self).deadline == answered_until(now),
            final(self).buffer == old(self).buffer,
            final(self).response == old(self).response,
            final(self).written == old(self).written,
    {
        self.history_wait = true;
        self.deadline = now + REPLY_DEADLINE;
    }

    /// What the client waits for.
    pub open spec fn waits_for(&self, now: u64) -> ClientPlan {
        if now >= self.deadline {
            if self.response is Some {
                ClientPlan::Close
            } else {
                ClientPlan::Refuse(RequestError::TimedOut)
            }
        } else if self.response is Some {
            ClientPlan::Write {
                start: self.written,
                end: if self.response->0@.len() - self.written < WRITE_CHUNK {
                    self.response->0@.len() as usize
                } else {
                    (self.written + WRITE_CHUNK) as usize
                },
            }
        } else if self.history_wait {
            ClientPlan::Wait
        } else {
            ClientPlan::Read
        }
    }

    /// What the client waits for.
    pub fn plan(&self, now: u64) -> (result: ClientPlan)
        requires
            self.wf(),
        ensures
            result == self.waits_for(now),
    {
        if now >= self.deadline {
            return if self.response.is_some() {
                ClientPlan::Close
            } else {
                ClientPlan::Refuse(RequestError::TimedOut)
            };
        }
        if let Some(response) = &self.response {
            let end: usize = if response.len() - self.written < WRITE_CHUNK {
                response.len()
            } else {
                self.written + WRITE_CHUNK
            };
            return ClientPlan::Write { start: self.written, end };
        }
        if self.history_wait {
            ClientPlan::Wait
        } else {
            ClientPlan::Read
        }
    }

    /// Take in a write of a part of the answer.
    pub fn wrote(&mut self, result: WriteResult) -> (poll: ClientPoll)
        requires
            old(self).wf(),
            old(self).response is Some,
            result is Wrote ==> old(self).written + result->Wrote_0
                <= old(self).response->0@.len(),
        ensures
            final(self).wf(),
            final(self).response == old(self).response,
            final(self).buffer == old(self).buffer,
            final(self).history_wait == old(self).history_wait,
            final(self).deadline == old(self).deadline,
            final(self).written == match result {
                WriteResult::Wrote(count) => old(self).written + count,
                _ => old(self).written as int,
            },
            poll == write_poll(result, old(self).written, old(self).response->0@.len()),
    {
        let length: usize = match &self.response {
            Some(response) => response.len(),
            None => 0,
        };
        match result {
            WriteResult::Wrote(0) => return ClientPoll::Closed,
            WriteResult::Wrote(count) => {
                self.written = self.written + count;
            },
            WriteResult::Blocked => {},
            WriteResult::Failed => return ClientPoll::Closed,
        }
        if self.written == length {
            ClientPoll::Closed
        } else {
            ClientPoll::Pending
        }
    }

    /// Take in a read of a part of the request. A request is one line, shorter than
    /// the limit.
    pub fn received(&mut self, read: ReadResult, limit: usize) -> (poll: ClientPoll)
        ensures
            final(self).response == old(self).response,
            final(self).written == old(self).written,
            final(self).history_wait == old(self).history_wait,
            final(self).deadline == old(self).deadline,
            final(self).buffer@ == kept_request(old(self).buffer@, read, limit),
            told_poll(poll) == read_poll(old(self).buffer@, read, limit),
            match read {
                ReadResult::Closed => final(self).buffer == old(self).buffer && poll == if old(self).buffer@.len() == 0 {
                    ClientPoll::Closed
                } else {
                    ClientPoll::Ready(Err(RequestError::Incomplete))
                },
                ReadResult::WouldBlock => final(self).buffer == old(self).buffer && poll
                    == ClientPoll::Pending,
                ReadResult::Interrupted => final(self).buffer == old(self).buffer && poll
                    == ClientPoll::Continue,
                ReadResult::Failed => final(self).buffer == old(self).buffer && poll
                    == ClientPoll::Closed,
                ReadResult::Data(data) => {
                    let length = line_length(data@);
                    let request = old(self).buffer@ + data@.take(length as int);
                    if request.len() >= limit {
                        final(self).buffer == old(self).buffer && poll == ClientPoll::Ready(
                            Err(RequestError::TooLarge),
                        )
                    } else if length == data@.len() {
                        final(self).buffer@ == request && poll == ClientPoll::Continue
                    } else {
                        &&& final(self).buffer@ == request
                        &&& poll is Ready
                        &&& match poll->Ready_0 {
                            Ok(line) => valid_utf8(request) && line@ == decode_utf8(request),
                            Err(error) => error == RequestError::Invalid && !valid_utf8(request),
                        }
                    }
                },
            },
    {
        match read {
            ReadResult::Closed => {
                if self.buffer.len() == 0 {
                    ClientPoll::Closed
                } else {
                    ClientPoll::Ready(Err(RequestError::Incomplete))
                }
            },
            ReadResult::WouldBlock => ClientPoll::Pending,
            ReadResult::Interrupted => ClientPoll::Continue,
            ReadResult::Failed => ClientPoll::Closed,
            ReadResult::Data(data) => {
                let mut end: usize = 0;
                while end < data.len() && data[end] != 0x0a
                    invariant
                        end <= data@.len(),
                        forall|i: int| 0 <= i < end ==> data@[i] != 0x0a,
                    decreases data@.len() - end,
                {
                    end += 1;
                }
                proof {
                    lemma_line_length(data@, end as nat);
                }
                let complete = end < data.len();
                if limit <= end || self.buffer.len() >= limit - end {
                    return ClientPoll::Ready(Err(RequestError::TooLarge));
                }
                let mut index: usize = 0;
                let ghost before = self.buffer@;
                assert(before + data@.take(0) =~= before);
                while index < end
                    invariant
                        index <= end <= data@.len(),
                        self.buffer@ == before + data@.take(index as int),
                        self.response == old(self).response,
                        self.written == old(self).written,
                        self.history_wait == old(self).history_wait,
                        self.deadline == old(self).deadline,
                    decreases end - index,
                {
                    self.buffer.push(data[index]);
                    index += 1;
                    assert(self.buffer@ =~= before + data@.take(index as int));
                }
                if complete {
                    ClientPoll::Ready(decode_request(self.buffer.as_slice()))
                } else {
                    ClientPoll::Continue
                }
            },
        }
    }
}

/// Frame an answer as a line; one that is not shorter than the limit is refused.
pub fn frame_reply(payload: Vec<u8>, limit: usize) -> (result: Option<Vec<u8>>)
    ensures
        match result {
            Some(framed) => payload@.len() < limit && framed@ == payload@.push(0x0a),
            None => payload@.len() >= limit,
        },
{
    if payload.len() >= limit {
        return None;
    }
    let mut framed = payload;
    framed.push(0x0a);
    Some(framed)
}

/// Whether there is room for another client.
pub open spec fn has_room(clients: usize) -> bool {
    clients < MAX_CLIENTS
}

/// Whether another client is served.
pub fn admits_client(clients: usize) -> (result: bool)
    ensures
        result == has_room(clients),
{
    clients < MAX_CLIENTS
}

/// What a read of the history came to.
#[derive(Clone, Copy, Debug, PartialEq, Eq, Structural)]
pub enum HistoryStep {
    /// Nobody waits for it, and it is out of date.
    Ignore,
    /// It is out of date, and somebody waits: read again.
    Again,
    /// It is up to date: take it over, and answer those who wait.
    Answer,
}

/// The reader of the history: one read at a time.
#[derive(Clone, Copy, Debug, PartialEq, Eq, Structural)]
pub struct HistoryReader {
    pub active: bool,
}

/// What is done with a history of the given revision.
pub open spec fn history_step(revision: u64, current: u64, waiting: bool) -> HistoryStep {
    if revision == current {
        HistoryStep::Answer
    } else if waiting {
        HistoryStep::Again
    } else {
        HistoryStep::Ignore
    }
}

impl HistoryReader {
    /// Ask for a read, where none is under way. `sent` tells whether the reader took
    /// the request.
    pub fn request(&mut self, sent: bool) -> (result: Result<(), ()>)
        ensures
            final(self).active == (old(self).active || sent),
            result == if old(self).active || sent {
                Ok(())
            } else {
                Err(())
            },
    {
        if self.active {
            return Ok(());
        }
        if !sent {
            return Err(());
        }
        self.active = true;
        Ok(())
    }

    /// Take in a read of the history of the given revision.
    pub fn received(&mut self, revision: u64, current: u64, waiting: bool) -> (result: HistoryStep)
        ensures
            !final(self).active,
            result == history_step(revision, current, waiting),
    {
        self.active = false;
        if revision == current {
            HistoryStep::Answer
        } else if waiting {
            HistoryStep::Again
        } else {
            HistoryStep::Ignore
        }
    }
}

/// Whether the display may be started again.
pub open spec fn may_spawn(now: u64, last_spawn: u64) -> bool {
    since(now, last_spawn) >= HUD_SPAWN_COOLDOWN
}

/// Whether the display may be started again.
pub fn hud_spawn_due(now: u64, last_spawn: u64) -> (result: bool)
    ensures
        result == may_spawn(now, last_spawn),
{
    elapsed_since(now, last_spawn) >= HUD_SPAWN_COOLDOWN
}

/// Why the runtime directory cannot be used.
#[derive(Clone, Copy, Debug, PartialEq, Eq, Structural)]
pub enum RuntimeError {
    Symlink,
    NoDirectory,
    Foreign,
}

/// Whether a directory can hold the socket, and whether it must be closed to others first.
pub open spec fn runtime_check(
    symlink: bool,
    directory: bool,
    owned: bool,
    mode: u32,
) -> Result<bool, RuntimeError> {
    if symlink {
        Err(RuntimeError::Symlink)
    } else if !directory {
        Err(RuntimeError::NoDirectory)
    } else if !owned {
        Err(RuntimeError::Foreign)
    } else {
        Ok(mode % 0o1000 != 0o700)
    }
}

/// Check the runtime directory; whether its permissions must be closed.
pub fn check_runtime(symlink: bool, directory: bool, owned: bool, mode: u32) -> (result: Result<
    bool,
    RuntimeError,
>)
    ensures
        result == runtime_check(symlink, directory, owned, mode),
{
    if symlink {
        return Err(RuntimeError::Symlink);
    }
    if !directory {
        return Err(RuntimeError::NoDirectory);
    }
    if !owned {
        return Err(RuntimeError::Foreign);
    }
    Ok(mode % 0o1000 != 0o700)
}

/// What a client can send.
#[derive(Debug, PartialEq, Eq)]
pub enum Request {
    Command(Command),
    Status,
    Recordings,
}

/// What a request comes to.
#[derive(Debug, PartialEq, Eq)]
pub enum Answer {
    /// A command: an answer, or what must be done before there is one.
    Step(Step),
    /// The status.
    Status(StatusSnapshot),
    /// The client waits for the history.
    History,
    /// The request is refused.
    Refused(CommandReply),
}

impl Daemon {
    /// Answer a request, or tell what must be done before it is answered.
    pub fn serve_request(
        &mut self,
        request: Result<Request, RequestError>,
        ready: Readiness,
        now: u64,
    ) -> (result: Answer)
        requires
            old(self)@.has_numbers(),
        ensures
            match request {
                Ok(Request::Command(command)) => result is Step && (
                    final(self)@,
                    result->Step_0@,
                ) == old(self)@.executed(command@, ready, now),
                Ok(Request::Status) => result is Status && result->Status_0@ == old(self)@.status(
                    now,
                ) && final(self)@ == old(self)@,
                Ok(Request::Recordings) => result is History && final(self)@ == old(self)@,
                Err(error) => result is Refused && result->Refused_0@ == old(self)@.answer(
                    false,
                    error.words(),
                    Some("protocol"@),
                ) && final(self)@ == old(self)@,
            },
    {
        match request {
            Ok(Request::Command(command)) => Answer::Step(self.execute(command, ready, now)),
            Ok(Request::Status) => Answer::Status(self.snapshot(now)),
            Ok(Request::Recordings) => Answer::History,
            Err(error) => Answer::Refused(self.reply(false, error.message(), Some("protocol"))),
        }
    }

    /// Tell that not every saved recording could be loaded.
    pub fn recordings_incomplete(&mut self)
        requires
            old(self).event_sequence < u64::MAX,
        ensures
            final(self)@ == old(self)@.noticed(
                "Saved recordings could not all be loaded; check storage and refresh."@,
                Some("storage-failed"@),
            ),
    {
        self.notice(
            "Saved recordings could not all be loaded; check storage and refresh.",
            Some("storage-failed"),
        );
    }

    /// The answer to those who wait for a history that cannot be read.
    pub fn history_unavailable(&self) -> (result: CommandReply)
        ensures
            result@ == self@.answer(
                false,
                "Saved recordings could not be refreshed."@,
                Some("storage-failed"@),
            ),
    {
        self.reply(false, "Saved recordings could not be refreshed.", Some("storage-failed"))
    }

    /// The answer to a client too many.
    pub fn too_many_clients(&self) -> (result: CommandReply)
        ensures
            result@ == self@.answer(false, "Too many daemon clients."@, Some("busy"@)),
    {
        self.reply(false, "Too many daemon clients.", Some("busy"))
    }
}

} // verus!
