//! How clients are served.

use crate::daemon::server::{
    answered_until, asked_until, has_room, history_step, kept_request, line_length, may_spawn,
    read_poll, request_so_far, runtime_check, write_poll, ClientPlan, ClientPoll, HistoryStep,
    PendingClient, ReadResult, RequestError, RuntimeError, ToldPoll, WriteResult,
};
use crate::daemon::worker::{early_end, SavedArtifactsView};
use crate::daemon::OperationView;
use crate::ipc::{Completeness, Delivery};
use vstd::prelude::*;
use vstd::utf8::*;

verus! {

/// A client that came has two seconds to ask, and one that asked eight for its answer.
pub proof fn clients_have_their_time(now: u64)
    ensures
        asked_until(now) == now + 2_000_000_000,
        answered_until(now) == now + 8_000_000_000,
{
}

/// A client is read from until it has asked, waits where the history is to be read, and is
/// then written to; one whose time is over is refused where it has not been answered.
pub proof fn clients_are_served_in_turn(client: PendingClient, now: u64)
    requires
        client.wf(),
    ensures
        ({
            let plan = client.waits_for(now);
            let late = now >= client.deadline;
            &&& plan == ClientPlan::Close <==> late && client.response is Some
            &&& plan == ClientPlan::Refuse(RequestError::TimedOut) <==> late && client.response
                is None
            &&& plan == ClientPlan::Wait <==> !late && client.response is None
                && client.history_wait
            &&& plan == ClientPlan::Read <==> !late && client.response is None
                && !client.history_wait
            &&& plan is Write <==> !late && client.response is Some
        }),
{
}

/// What is written goes on where the last write ended, at most sixty-four kibibytes at a
/// time and never beyond the end.
pub proof fn answers_are_written_in_parts(client: PendingClient, now: u64)
    requires
        client.wf(),
        client.waits_for(now) is Write,
        client.response->0@.len() <= usize::MAX,
    ensures
        ({
            let plan = client.waits_for(now);
            let length = client.response->0@.len();
            &&& plan->Write_start == client.written
            &&& plan->Write_start <= plan->Write_end <= length
            &&& plan->Write_end - plan->Write_start <= 65_536
            &&& client.written < length ==> plan->Write_start < plan->Write_end
            &&& length - client.written >= 65_536 ==> plan->Write_end - plan->Write_start
                == 65_536
            &&& length - client.written < 65_536 ==> plan->Write_end == length
        }),
{
}

/// A client is closed when its answer is all written, or nothing can be; else it is written
/// to again.
pub proof fn clients_are_closed_when_answered(count: usize, written: usize, length: nat)
    requires
        written < length,
        written + count <= length,
    ensures
        write_poll(WriteResult::Failed, written, length) == ClientPoll::Closed,
        write_poll(WriteResult::Blocked, written, length) == ClientPoll::Pending,
        write_poll(WriteResult::Wrote(0), written, length) == ClientPoll::Closed,
        count > 0 ==> (write_poll(WriteResult::Wrote(count), written, length)
            == ClientPoll::Closed <==> written + count == length),
        count > 0 && written + count < length ==> write_poll(
            WriteResult::Wrote(count),
            written,
            length,
        ) == ClientPoll::Pending,
{
}

/// A request ends with its line, and what follows is not part of it.
pub proof fn requests_end_with_their_line(line: Seq<u8>, rest: Seq<u8>)
    requires
        forall|i: int| 0 <= i < line.len() ==> #[trigger] line[i] != 0x0a,
    ensures
        line_length(line + seq![0x0au8] + rest) == line.len(),
        line_length(line) == line.len(),
    decreases line.len(),
{
    let bytes = line + seq![0x0au8] + rest;
    if line.len() > 0 {
        assert forall|i: int| 0 <= i < line.skip(1).len() implies #[trigger] line.skip(1)[i]
            != 0x0a by {
            assert(line.skip(1)[i] == line[i + 1]);
        }
        requests_end_with_their_line(line.skip(1), rest);
        assert(bytes.skip(1) =~= line.skip(1) + seq![0x0au8] + rest);
        assert(bytes[0] == line[0]);
    } else {
        assert(bytes[0] == 0x0a);
    }
}

/// A request that comes in parts is the one that was sent: what came before and the part up
/// to the end of the line.
pub proof fn requests_are_taken_as_sent(
    buffer: Seq<u8>,
    line: Seq<u8>,
    rest: Seq<u8>,
    data: Vec<u8>,
    limit: usize,
)
    requires
        forall|i: int| 0 <= i < line.len() ==> #[trigger] line[i] != 0x0a,
        data@ == line + seq![0x0au8] + rest,
    ensures
        ({
            let request = buffer + line;
            let poll = read_poll(buffer, ReadResult::Data(data), limit);
            &&& request.len() >= limit ==> poll == ToldPoll::Refused(RequestError::TooLarge)
            &&& request.len() < limit && valid_utf8(request) ==> poll == ToldPoll::Asked(
                decode_utf8(request),
            )
            &&& request.len() < limit && !valid_utf8(request) ==> poll == ToldPoll::Refused(
                RequestError::Invalid,
            )
            &&& request_so_far(buffer, data@) == request
        }),
{
    requests_end_with_their_line(line, rest);
    assert(data@.take(line.len() as int) =~= line);
}

/// A part of a request without the end of its line is kept, and more is read, as long as it
/// stays below the limit.
pub proof fn unfinished_requests_are_kept(
    buffer: Seq<u8>,
    data: Vec<u8>,
    limit: usize,
)
    requires
        forall|i: int| 0 <= i < data@.len() ==> #[trigger] data@[i] != 0x0a,
    ensures
        buffer.len() + data@.len() < limit ==> read_poll(buffer, ReadResult::Data(data), limit)
            == ToldPoll::Continue && kept_request(buffer, ReadResult::Data(data), limit) == buffer
            + data@,
        buffer.len() + data@.len() >= limit ==> read_poll(buffer, ReadResult::Data(data), limit)
            == ToldPoll::Refused(RequestError::TooLarge) && kept_request(
            buffer,
            ReadResult::Data(data),
            limit,
        ) == buffer,
{
    requests_end_with_their_line(data@, Seq::empty());
    assert(data@.take(data@.len() as int) =~= data@);
}

/// A client that leaves is gone; one that leaves in the middle of its request is told so. A
/// pause or an interruption changes nothing.
pub proof fn leaving_clients_are_told(buffer: Seq<u8>, limit: usize)
    ensures
        buffer.len() == 0 ==> read_poll(buffer, ReadResult::Closed, limit) == ToldPoll::Closed,
        buffer.len() > 0 ==> read_poll(buffer, ReadResult::Closed, limit) == ToldPoll::Refused(
            RequestError::Incomplete,
        ),
        read_poll(buffer, ReadResult::WouldBlock, limit) == ToldPoll::Pending,
        read_poll(buffer, ReadResult::Interrupted, limit) == ToldPoll::Continue,
        read_poll(buffer, ReadResult::Failed, limit) == ToldPoll::Closed,
        kept_request(buffer, ReadResult::Closed, limit) == buffer,
        kept_request(buffer, ReadResult::WouldBlock, limit) == buffer,
        kept_request(buffer, ReadResult::Interrupted, limit) == buffer,
        kept_request(buffer, ReadResult::Failed, limit) == buffer,
{
}

/// A refused request is told why.
pub proof fn refused_requests_are_told_why()
    ensures
        RequestError::TimedOut.words() == "daemon request timed out"@,
        RequestError::Incomplete.words() == "incomplete daemon request"@,
        RequestError::TooLarge.words() == "daemon request exceeds size limit"@,
        RequestError::Invalid.words() == "invalid daemon request"@,
        RequestError::Unknown.words() == "unknown daemon command"@,
{
}

/// A history is answered with only where nothing has changed since it was read; an old one
/// is read again where somebody waits for it.
pub proof fn only_a_current_history_is_answered(revision: u64, current: u64, waiting: bool)
    ensures
        history_step(revision, current, waiting) == HistoryStep::Answer <==> revision == current,
        history_step(revision, current, waiting) == HistoryStep::Again <==> revision != current
            && waiting,
        history_step(revision, current, waiting) == HistoryStep::Ignore <==> revision != current
            && !waiting,
{
}

/// The display is started again at most every half minute, and sixty-four clients are served
/// at a time.
pub proof fn display_and_clients_are_limited(now: u64, last_spawn: u64, clients: usize)
    ensures
        now >= last_spawn ==> (may_spawn(now, last_spawn) <==> now - last_spawn
            >= 30_000_000_000),
        now < last_spawn ==> !may_spawn(now, last_spawn),
        has_room(clients) <==> clients < 64,
{
}

/// The socket's directory is used only where it is a directory of the user's own, and closed
/// to others where it is not yet.
pub proof fn runtime_directory_is_private(symlink: bool, directory: bool, owned: bool, mode: u32)
    ensures
        ({
            let check = runtime_check(symlink, directory, owned, mode);
            &&& check is Ok <==> !symlink && directory && owned
            &&& check is Ok ==> (check->Ok_0 <==> !(mode % 8 == 0 && (mode / 8) % 8 == 0 && (mode
                / 64) % 8 == 7))
            &&& symlink ==> check == Err::<bool, RuntimeError>(RuntimeError::Symlink)
            &&& !symlink && !directory ==> check == Err::<bool, RuntimeError>(
                RuntimeError::NoDirectory,
            )
            &&& !symlink && directory && !owned ==> check == Err::<bool, RuntimeError>(
                RuntimeError::Foreign,
            )
        }),
{
}

/// A recording is not transcribed where its saved audio is another one or it was cancelled:
/// the first is a failure that nothing is delivered of, the second a cancellation.
pub proof fn recordings_that_cannot_be_transcribed_end_early(
    operation: OperationView,
    saved: SavedArtifactsView,
    cancelled: bool,
)
    ensures
        ({
            let end = early_end(operation, saved, cancelled);
            &&& end is Some <==> saved.audio_conflict || cancelled
            &&& saved.audio_conflict ==> end->0.completeness == Completeness::Failed
                && end->0.delivery == Delivery::Nothing && end->0.error == Some(
                "storage-failed"@,
            )
            &&& !saved.audio_conflict && cancelled ==> end->0.completeness
                == Completeness::Cancelled && end->0.delivery == Delivery::Cancelled
            &&& end is Some ==> end->0.artifacts == saved.artifacts && end->0.operation_id
                == Some(operation.identity.operation_id)
        }),
{
}

} // verus!
