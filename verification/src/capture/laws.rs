//! What a recording shows of the sound that it holds.

use crate::capture::{
    bin_levels, bin_maximum, bin_minimum, bin_of, data_start, holds_at, level_of, level_sample,
    live_data, magnitude, peak_of, record_options, sample_value, samples_in, signed_level_of,
    size_at, stderr_words, stop_after, wav_check, CaptureError, SignalMonitor, StopEvent, StopStep,
    LEVEL_CEILINGS,
};
use vstd::prelude::*;
use vstd::string::*;

verus! {

proof fn lemma_ceiling(peak: u16, from: nat)
    requires
        from <= 99,
    ensures
        from <= crate::capture::ceiling_index(peak, from) <= 99,
        crate::capture::ceiling_index(peak, from) < 99 ==> peak
            <= LEVEL_CEILINGS@[crate::capture::ceiling_index(peak, from) as int],
        crate::capture::ceiling_index(peak, from) > from ==> peak
            > LEVEL_CEILINGS@[crate::capture::ceiling_index(peak, from) - 1],
    decreases 99 - from,
{
    if from < 99 && LEVEL_CEILINGS@[from as int] < peak {
        lemma_ceiling(peak, from + 1);
    }
}

/// A level is nothing exactly up to the floor of what counts as a signal; any other is the
/// first whose ceiling the peak does not exceed.
pub proof fn level_is_the_first_that_holds_the_peak(peak: u16)
    ensures
        level_of(peak) == 0 <==> peak <= 32,
        level_of(peak) <= 100,
        0 < level_of(peak) < 100 ==> peak <= LEVEL_CEILINGS@[level_of(peak) - 1],
        1 < level_of(peak) ==> peak > LEVEL_CEILINGS@[level_of(peak) - 2],
{
    lemma_ceiling(peak, 0);
}

/// A sample's level is that of its size, with its sign.
pub proof fn level_keeps_the_sign(sample: i16)
    ensures
        sample >= 0 ==> signed_level_of(sample) >= 0,
        sample <= 0 ==> signed_level_of(sample) <= 0,
        sample >= 0 ==> signed_level_of(sample) == level_of(sample as u16),
        sample < 0 ==> signed_level_of(sample) == -(level_of((-sample) as u16) as int),
        -100 <= signed_level_of(sample) <= 100,
        magnitude(sample) == if sample < 0 {
            -sample
        } else {
            sample as int
        },
{
    level_is_the_first_that_holds_the_peak(magnitude(sample));
}

/// Two bytes are a sample, the low one first, and a high bit makes it negative.
pub proof fn samples_are_read_low_byte_first(bytes: Seq<u8>, index: int)
    requires
        0 <= index < bytes.len() / 2,
    ensures
        samples_in(bytes).len() == bytes.len() / 2,
        ({
            let low = bytes[2 * index];
            let high = bytes[2 * index + 1];
            let sample = samples_in(bytes)[index];
            &&& sample == sample_value(low, high)
            &&& high < 128 ==> sample == high * 256 + low
            &&& high >= 128 ==> sample == high * 256 + low - 65_536
        }),
{
}

/// The peak is the size of the loudest sample.
pub proof fn peak_is_the_loudest_sample(samples: Seq<i16>)
    ensures
        forall|i: int|
            0 <= i < samples.len() ==> magnitude(#[trigger] samples[i]) <= peak_of(samples),
        samples.len() > 0 ==> exists|i: int|
            0 <= i < samples.len() && magnitude(#[trigger] samples[i]) == peak_of(samples),
        samples.len() == 0 ==> peak_of(samples) == 0,
    decreases samples.len(),
{
    if samples.len() > 0 {
        let earlier = samples.drop_last();
        peak_is_the_loudest_sample(earlier);
        let last = samples.len() - 1;
        assert forall|i: int| 0 <= i < samples.len() implies magnitude(#[trigger] samples[i])
            <= peak_of(samples) by {
            if i < last {
                assert(samples[i] == earlier[i]);
            }
        }
        if magnitude(samples.last()) > peak_of(earlier) || earlier.len() == 0 {
            assert(magnitude(samples[last]) == peak_of(samples));
        } else {
            let i = choose|i: int|
                0 <= i < earlier.len() && magnitude(#[trigger] earlier[i]) == peak_of(earlier);
            assert(samples[i] == earlier[i]);
        }
    }
}

/// The samples fall into eleven parts of the same length, in their order.
pub proof fn samples_are_parted_evenly(index: int, total: int)
    requires
        0 <= index < total,
    ensures
        0 <= bin_of(index, total) < 11,
        bin_of(index, total) * total <= index * 11,
        index * 11 < (bin_of(index, total) + 1) * total,
{
    let part = index * 11 / total;
    assert(part * total <= index * 11 < (part + 1) * total && 0 <= part) by (nonlinear_arith)
        requires
            0 <= index < total,
            part == index * 11 / total,
    ;
    assert(part < 11) by (nonlinear_arith)
        requires
            0 <= index < total,
            part * total <= index * 11,
    ;
}

/// A part's bounds are those of the samples in it, and are reached.
pub proof fn part_is_bounded_by_its_samples(samples: Seq<i16>, total: int, bin: int)
    ensures
        forall|i: int|
            0 <= i < samples.len() && bin_of(i, total) == bin ==> bin_minimum(samples, total, bin)
                <= #[trigger] samples[i] <= bin_maximum(samples, total, bin),
        (exists|i: int| 0 <= i < samples.len() && #[trigger] bin_of(i, total) == bin) ==> exists|
            i: int,
            j: int,
        |
            0 <= i < samples.len() && 0 <= j < samples.len() && bin_of(i, total) == bin && bin_of(
                j,
                total,
            ) == bin && #[trigger] samples[i] == bin_minimum(samples, total, bin)
                && #[trigger] samples[j] == bin_maximum(samples, total, bin),
    decreases samples.len(),
{
    if samples.len() > 0 {
        let earlier = samples.drop_last();
        let last = samples.len() - 1;
        part_is_bounded_by_its_samples(earlier, total, bin);
        assert forall|i: int|
            0 <= i < samples.len() && bin_of(i, total) == bin implies bin_minimum(
            samples,
            total,
            bin,
        ) <= #[trigger] samples[i] <= bin_maximum(samples, total, bin) by {
            if i < last {
                assert(samples[i] == earlier[i]);
            }
        }
        if exists|i: int| 0 <= i < samples.len() && #[trigger] bin_of(i, total) == bin {
            let found = choose|i: int| 0 <= i < samples.len() && #[trigger] bin_of(i, total) == bin;
            if exists|i: int| 0 <= i < earlier.len() && #[trigger] bin_of(i, total) == bin {
                let (i, j) = choose|i: int, j: int|
                    0 <= i < earlier.len() && 0 <= j < earlier.len() && bin_of(i, total) == bin
                        && bin_of(j, total) == bin && #[trigger] earlier[i] == bin_minimum(
                        earlier,
                        total,
                        bin,
                    ) && #[trigger] earlier[j] == bin_maximum(earlier, total, bin);
                assert(samples[i] == earlier[i] && samples[j] == earlier[j]);
                let least = if bin_minimum(samples, total, bin) == samples[i] {
                    i
                } else {
                    last
                };
                let greatest = if bin_maximum(samples, total, bin) == samples[j] {
                    j
                } else {
                    last
                };
                assert(samples[least] == bin_minimum(samples, total, bin) && samples[greatest]
                    == bin_maximum(samples, total, bin));
            } else {
                assert(found == last);
                lemma_no_sample(earlier, total, bin);
                assert(samples[last] == bin_minimum(samples, total, bin) && samples[last]
                    == bin_maximum(samples, total, bin));
            }
        }
    }
}

proof fn lemma_no_sample(samples: Seq<i16>, total: int, bin: int)
    requires
        forall|i: int| 0 <= i < samples.len() ==> #[trigger] bin_of(i, total) != bin,
    ensures
        bin_minimum(samples, total, bin) == i16::MAX,
        bin_maximum(samples, total, bin) == i16::MIN,
    decreases samples.len(),
{
    if samples.len() > 0 {
        assert(bin_of(samples.len() - 1, total) != bin);
        lemma_no_sample(samples.drop_last(), total, bin);
    }
}

/// A part is drawn from the level of its least sample to that of its greatest, and one
/// without samples as nothing.
pub proof fn part_is_drawn_between_its_bounds(samples: Seq<i16>, total: int, bin: int)
    ensures
        (forall|i: int| 0 <= i < samples.len() ==> #[trigger] bin_of(i, total) != bin)
            ==> bin_levels(samples, total, bin) == [0i8, 0i8],
        (exists|i: int| 0 <= i < samples.len() && #[trigger] bin_of(i, total) == bin)
            ==> bin_levels(samples, total, bin)@[0] == signed_level_of(
            bin_minimum(samples, total, bin),
        ) && bin_levels(samples, total, bin)@[1] == signed_level_of(
            bin_maximum(samples, total, bin),
        ),
{
    assert(forall|i: int|
        0 <= i < samples.len() ==> #[trigger] bin_of(i, total) != bin || (exists|i: int|
            0 <= i < samples.len() && #[trigger] bin_of(i, total) == bin));
}

/// What was read before is read on: a byte left over is joined to what follows, and a
/// monitor that reads in two parts ends where one that reads at once does.
pub proof fn reading_goes_on_where_it_stopped(
    monitor: SignalMonitor,
    first: Seq<u8>,
    second: Seq<u8>,
    now: u64,
)
    requires
        monitor.cursor + first.len() + second.len() <= u64::MAX,
    ensures
        ({
            let once = monitor.measured(first + second, now);
            let twice = monitor.measured(first, now).measured(second, now);
            &&& once.cursor == twice.cursor
            &&& once.trailing_byte == twice.trailing_byte
            &&& once.data_offset == monitor.data_offset
            &&& monitor.measured(first, now).cursor == monitor.cursor + first.len()
        }),
{
    let joined = monitor.joined(first + second);
    let head = monitor.joined(first);
    assert(joined =~= head + second);
    let middle = monitor.measured(first, now);
    let tail = middle.joined(second);
    if head.len() % 2 == 1 {
        assert(tail =~= seq![head.last()] + second);
    }
    assert(joined.len() % 2 == tail.len() % 2);
    if tail.len() % 2 == 1 {
        if second.len() > 0 {
            assert(joined.last() == second.last());
            assert(tail.last() == second.last());
        } else {
            assert(joined =~= head);
            assert(tail =~= seq![head.last()]);
        }
    }
}

/// A signal is heard when any sample exceeds the floor, and silence is what has lasted three
/// seconds since.
pub proof fn silence_is_counted_from_the_last_signal(
    monitor: SignalMonitor,
    bytes: Seq<u8>,
    at: int,
    now: u64,
)
    ensures
        ({
            let samples = samples_in(monitor.joined(bytes));
            let after = monitor.measured(bytes, now);
            &&& 0 <= at < samples.len() && (samples[at] > 32 || samples[at] < -32)
                ==> after.last_signal_at == now && !after.is_silent(now)
            &&& (forall|i: int| 0 <= i < samples.len() ==> -32 <= #[trigger] samples[i] <= 32)
                ==> after.last_signal_at == monitor.last_signal_at
        }),
        now >= monitor.last_signal_at ==> (monitor.is_silent(now) <==> now
            - monitor.last_signal_at >= 3_000_000_000),
        monitor.trailing_byte is None ==> monitor.joined(bytes) == bytes,
        monitor.trailing_byte is Some ==> monitor.joined(bytes) == seq![monitor.trailing_byte->0]
            + bytes,
{
    let samples = samples_in(monitor.joined(bytes));
    peak_is_the_loudest_sample(samples);
    if samples.len() > 0 {
        let i = choose|i: int|
            0 <= i < samples.len() && magnitude(#[trigger] samples[i]) == peak_of(samples);
        assert(magnitude(samples[i]) == peak_of(samples));
    }
}

/// The monitor reads the newest two tenths of a second, from a whole sample on, and never
/// back.
pub proof fn monitor_reads_the_newest_samples(
    monitor: SignalMonitor,
    data_offset: u64,
    file_length: u64,
)
    requires
        data_offset <= file_length,
    ensures
        ({
            let start = SignalMonitor::window_start(data_offset, file_length);
            let after = monitor.advanced(data_offset, file_length);
            &&& data_offset <= start <= file_length
            &&& (start - data_offset) % 2 == 0
            &&& file_length - start <= 6_401
            &&& file_length - data_offset >= 6_400 ==> file_length - start >= 6_400
            &&& file_length - data_offset < 6_400 ==> start == data_offset
            &&& after.cursor >= monitor.cursor && after.cursor >= start
            &&& monitor.cursor >= start ==> after == monitor
            &&& monitor.cursor < start ==> after.cursor == start && after.trailing_byte is None
            &&& after.last_signal_at == monitor.last_signal_at
        }),
{
}

/// The samples start behind the head of the data, and nowhere else.
pub proof fn samples_start_behind_the_data_head(bytes: Seq<u8>, cursor: int)
    requires
        0 <= cursor,
    ensures
        match data_start(bytes, cursor) {
            Some(offset) => cursor + 8 <= offset <= bytes.len() && holds_at(
                bytes,
                offset - 8,
                "data".spec_bytes(),
            ),
            None => true,
        },
    decreases bytes.len() - cursor,
{
    if cursor + 8 <= bytes.len() && !holds_at(bytes, cursor, "data".spec_bytes()) {
        let size = size_at(bytes, cursor + 4);
        let next = cursor + 8 + size + size % 2;
        if next <= bytes.len() && next > cursor {
            samples_start_behind_the_data_head(bytes, next);
        }
    }
}

/// Any other part of the file is passed over by its length, padded to a whole number of
/// pairs; where it is not all there yet, the samples are not known.
pub proof fn other_parts_are_passed_over(bytes: Seq<u8>, cursor: int)
    requires
        0 <= cursor,
        cursor + 8 <= bytes.len(),
    ensures
        holds_at(bytes, cursor, "data".spec_bytes()) ==> data_start(bytes, cursor) == Some(
            cursor + 8,
        ),
        !holds_at(bytes, cursor, "data".spec_bytes()) ==> {
            let size = bytes[cursor + 4] + 0x100 * bytes[cursor + 5] + 0x1_0000 * bytes[cursor + 6]
                + 0x100_0000 * bytes[cursor + 7];
            let padded = if size % 2 == 0 {
                size
            } else {
                size + 1
            };
            &&& cursor + 8 + padded <= bytes.len() ==> data_start(bytes, cursor) == data_start(
                bytes,
                cursor + 8 + padded,
            )
            &&& cursor + 8 + padded > bytes.len() ==> data_start(bytes, cursor) is None
        },
{
}

/// A file is told from its head: too short to say, no wave file, or one whose samples are
/// looked for behind it.
pub proof fn wave_files_are_told_by_their_head(bytes: Seq<u8>)
    ensures
        bytes.len() < 12 ==> live_data(bytes) == Ok::<Option<int>, CaptureError>(None),
        bytes.len() >= 12 ==> (live_data(bytes) is Err <==> !(holds_at(
            bytes,
            0,
            "RIFF".spec_bytes(),
        ) && holds_at(bytes, 8, "WAVE".spec_bytes()))),
        live_data(bytes) is Err ==> live_data(bytes)->Err_0 == CaptureError::NotWave,
        bytes.len() >= 12 && live_data(bytes) is Ok ==> live_data(bytes)->Ok_0 == data_start(
            bytes,
            12,
        ),
{
}

/// A recording is made of sixteen thousand samples a second, of one channel and sixteen bits,
/// from the source that was named, where one was.
pub proof fn recordings_are_made_as_needed(source: Seq<char>)
    ensures
        record_options(None) == seq![
            "--rate"@,
            "16000"@,
            "--channels"@,
            "1"@,
            "--format"@,
            "s16"@,
        ],
        record_options(Some(source)) == record_options(None).push("--target"@).push(source),
{
    assert(record_options(Some(source)) =~= record_options(None).push("--target"@).push(source));
}

/// A file holds samples exactly where it is longer than its head.
pub proof fn only_files_with_samples_count(length: u64)
    ensures
        wav_check(length) is Ok <==> length > 44,
        wav_check(length) is Err ==> wav_check(length)->Err_0 == CaptureError::Empty,
{
}

/// What a recorder said is shown as it is; where it said nothing, that is shown.
pub proof fn recorder_is_quoted(stderr: Seq<char>)
    ensures
        stderr.len() > 0 ==> stderr_words(stderr) == stderr,
        stderr.len() == 0 ==> stderr_words(stderr) == "(no stderr output)"@,
{
}

/// A recorder that ends by itself has stopped; one that runs is interrupted, waited for, and
/// killed only when it does not end; one that cannot be interrupted is not killed.
pub proof fn recorder_is_stopped_gently(event: StopEvent)
    ensures
        stop_after(StopStep::Check, StopEvent::Exited) == StopStep::Stopped,
        stop_after(StopStep::Recheck, StopEvent::Exited) == StopStep::Stopped,
        stop_after(StopStep::Await, StopEvent::Exited) == StopStep::Stopped,
        event != StopEvent::Exited ==> stop_after(StopStep::Check, event) == StopStep::Interrupt
            && stop_after(StopStep::Await, event) == StopStep::Kill && stop_after(
            StopStep::Recheck,
            event,
        ) == StopStep::Refused,
        stop_after(StopStep::Interrupt, StopEvent::Unsignalled) == StopStep::Recheck,
        event != StopEvent::Unsignalled ==> stop_after(StopStep::Interrupt, event)
            == StopStep::Await,
        stop_after(StopStep::Kill, event) == StopStep::Killed,
        stop_after(StopStep::Stopped, event) == StopStep::Stopped,
        stop_after(StopStep::Refused, event) == StopStep::Refused,
        stop_after(StopStep::Killed, event) == StopStep::Killed,
{
}

/// A level is drawn in proportion, with its sign, and the greatest as the greatest sample.
pub proof fn levels_are_drawn_in_proportion(level: i8)
    ensures
        level_sample(0) == 0,
        level >= 100 ==> level_sample(level) == 32_767,
        level <= -100 ==> level_sample(level) == -32_767,
        0 <= level < 100 ==> level_sample(level) * 100 <= level * 32_767 < (level_sample(level)
            + 1) * 100,
        -100 < level <= 0 ==> -level_sample(level) * 100 <= -level * 32_767 < (-level_sample(level)
            + 1) * 100,
        level != i8::MIN ==> level_sample((-level) as i8) == -level_sample(level),
{
}

/// A mark stands at a place exactly where each of its bytes does.
pub proof fn marks_stand_byte_by_byte(bytes: Seq<u8>, at: int, text: Seq<u8>)
    requires
        0 <= at,
    ensures
        holds_at(bytes, at, text) <==> at + text.len() <= bytes.len() && forall|i: int|
            0 <= i < text.len() ==> bytes[at + i] == #[trigger] text[i],
{
    if at + text.len() <= bytes.len() {
        let part = bytes.subrange(at, at + text.len());
        if part == text {
            assert forall|i: int| 0 <= i < text.len() implies bytes[at + i] == #[trigger] text[i] by {
                assert(part[i] == bytes[at + i]);
            }
        }
        if forall|i: int| 0 <= i < text.len() ==> bytes[at + i] == #[trigger] text[i] {
            assert(part =~= text);
        }
    }
}

/// As many samples are expected as there are pairs of bytes, the one left over among them.
pub proof fn pairs_of_bytes_are_expected(monitor: SignalMonitor, length: usize)
    ensures
        monitor.trailing_byte is None ==> 2 * monitor.expected(length) <= length < 2
            * monitor.expected(length) + 2,
        monitor.trailing_byte is Some ==> 2 * monitor.expected(length) <= length + 1 < 2
            * monitor.expected(length) + 2,
{
}

} // verus!
