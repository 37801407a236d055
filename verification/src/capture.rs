//! Audio capture: the recorder's arguments, the live signal monitor, and how a
//! recorder is stopped.

pub mod laws;

use crate::hud::{elapsed_since, since};
use crate::ipc::{AudioSignal, AudioWaveform};
use crate::text::{same_bytes, texts};
use vstd::prelude::*;
use vstd::string::*;

verus! {

/// How long there may be no signal before it counts as silence.
pub const NO_SIGNAL_GRACE: u64 = 3_000_000_000;

/// Loudest peak that counts as no signal, about sixty decibels below full scale.
pub const SIGNAL_FLOOR: u16 = 32;

/// Bytes of a recording that are searched for its samples.
pub const WAV_HEADER_SCAN_LIMIT: usize = 4_096;

/// Bytes of the newest fifth of a second at sixteen thousand samples a second.
pub const SIGNAL_WINDOW_BYTES: u64 = 6_400;

/// Columns of a measured window.
pub const AUDIO_WAVEFORM_BINS: usize = 11;

/// Chronological minimum and maximum levels of a measured window.
pub type InputWaveform = [[i8; 2]; AUDIO_WAVEFORM_BINS];

/// Shortest recording that holds any sample.
pub const WAV_HEADER_BYTES: u64 = 44;

/// The largest peak of each level. Levels divide the sixty decibels below full scale
/// into a hundred equal steps.
pub const LEVEL_CEILINGS: [u16; 100] = [
    35, 37, 40, 43, 46, 49, 53, 56, 61, 65,
    70, 75, 80, 86, 92, 98, 106, 113, 121, 130,
    139, 149, 160, 171, 184, 197, 211, 226, 242, 260,
    278, 298, 320, 343, 367, 393, 422, 452, 484, 519,
    556, 596, 638, 684, 733, 786, 842, 902, 967, 1036,
    1110, 1189, 1274, 1365, 1463, 1568, 1680, 1800, 1929, 2067,
    2215, 2373, 2543, 2725, 2920, 3129, 3353, 3592, 3849, 4125,
    4420, 4736, 5075, 5437, 5826, 6243, 6690, 7168, 7681, 8230,
    8819, 9450, 10125, 10850, 11626, 12457, 13348, 14303, 15326, 16422,
    17596, 18855, 20203, 21648, 23197, 24856, 26634, 28538, 30579, 32767,
];

/// Why a recording cannot be used or measured.
#[derive(Clone, Copy, Debug, PartialEq, Eq, Structural)]
pub enum CaptureError {
    /// It is no RIFF/WAVE stream.
    NotWave,
    /// It holds no samples.
    Empty,
    /// Its newest samples do not fit into memory.
    WindowOverflow,
}

/// The newest measured window.
#[derive(Clone, Copy, Debug, PartialEq, Eq)]
pub struct InputSignal {
    /// Peak level, from zero to a hundred.
    pub level: u8,
    /// Levels of the window's parts, from minus a hundred to a hundred.
    pub waveform: InputWaveform,
    /// There has been no signal for [`NO_SIGNAL_GRACE`].
    pub silent: bool,
}

/// The first level from `from` on whose ceiling is not below a peak.
pub open spec fn ceiling_index(peak: u16, from: nat) -> nat
    decreases 100 - from,
{
    if from < 99 && LEVEL_CEILINGS@[from as int] < peak {
        ceiling_index(peak, from + 1)
    } else {
        from
    }
}

/// The level of a peak: none at the floor, else the first whose ceiling is not below
/// it.
pub open spec fn level_of(peak: u16) -> u8 {
    if peak <= SIGNAL_FLOOR {
        0
    } else {
        (ceiling_index(peak, 0) + 1) as u8
    }
}

/// The absolute value of a sample.
pub open spec fn magnitude(sample: i16) -> u16 {
    if sample < 0 {
        (-sample) as u16
    } else {
        sample as u16
    }
}

/// The level of a sample, with its sign.
pub open spec fn signed_level_of(sample: i16) -> i8 {
    if sample < 0 {
        (-(level_of(magnitude(sample)) as int)) as i8
    } else {
        level_of(magnitude(sample)) as i8
    }
}

proof fn lemma_ceiling_index(peak: u16, from: nat)
    requires
        from <= 99,
    ensures
        from <= ceiling_index(peak, from) <= 99,
    decreases 99 - from,
{
    if from < 99 && LEVEL_CEILINGS@[from as int] < peak {
        lemma_ceiling_index(peak, from + 1);
    }
}

/// The level of a peak.
pub fn peak_level(peak: u16) -> (result: u8)
    ensures
        result == level_of(peak),
        result <= 100,
{
    if peak <= SIGNAL_FLOOR {
        return 0;
    }
    let mut index: usize = 0;
    while index < 99 && LEVEL_CEILINGS[index] < peak
        invariant
            index <= 99,
            ceiling_index(peak, 0) == ceiling_index(peak, index as nat),
        decreases 99 - index,
    {
        index += 1;
    }
    proof {
        lemma_ceiling_index(peak, 0);
    }
    (index + 1) as u8
}

fn magnitude_of(sample: i16) -> (result: u16)
    ensures
        result == magnitude(sample),
{
    if sample < 0 {
        (-(sample as i32)) as u16
    } else {
        sample as u16
    }
}

/// The level of a sample, with its sign.
pub fn signed_level(sample: i16) -> (result: i8)
    ensures
        result == signed_level_of(sample),
{
    let level: i8 = peak_level(magnitude_of(sample)) as i8;
    if sample < 0 {
        -level
    } else {
        level
    }
}

/// A louder peak never has a lower level.
pub proof fn levels_are_monotone(a: u16, b: u16)
    requires
        a <= b,
    ensures
        level_of(a) <= level_of(b),
{
    lemma_ceiling_index(a, 0);
    lemma_ceiling_index(b, 0);
    lemma_ceiling_index_monotone(a, b, 0);
}

proof fn lemma_ceiling_index_monotone(a: u16, b: u16, from: nat)
    requires
        a <= b,
        from <= 99,
    ensures
        ceiling_index(a, from) <= ceiling_index(b, from),
    decreases 99 - from,
{
    if from < 99 && LEVEL_CEILINGS@[from as int] < b {
        if LEVEL_CEILINGS@[from as int] < a {
            lemma_ceiling_index_monotone(a, b, from + 1);
        } else {
            lemma_ceiling_index(b, from + 1);
        }
    }
}

/// A sample and its opposite have opposite levels.
pub proof fn levels_are_symmetric(sample: i16)
    requires
        sample > i16::MIN,
    ensures
        signed_level_of((-sample) as i16) == -signed_level_of(sample),
{
    lemma_ceiling_index(magnitude(sample), 0);
}

/// A little-endian sample.
pub open spec fn sample_value(low: u8, high: u8) -> i16 {
    if high < 128 {
        (high * 256 + low) as i16
    } else {
        (high * 256 + low - 65_536) as i16
    }
}

fn sample_of(low: u8, high: u8) -> (result: i16)
    ensures
        result == sample_value(low, high),
{
    let unsigned: i32 = (high as i32) * 256 + low as i32;
    if high < 128 {
        unsigned as i16
    } else {
        (unsigned - 65_536) as i16
    }
}

/// The complete samples of a run of bytes.
pub open spec fn samples_in(bytes: Seq<u8>) -> Seq<i16> {
    Seq::new(bytes.len() / 2, |i: int| sample_value(bytes[2 * i], bytes[2 * i + 1]))
}

/// The column of a sample in a window of the given number of samples.
pub open spec fn bin_of(index: int, total: int) -> int {
    if index * AUDIO_WAVEFORM_BINS / total < AUDIO_WAVEFORM_BINS {
        index * AUDIO_WAVEFORM_BINS / total
    } else {
        AUDIO_WAVEFORM_BINS - 1
    }
}

/// The least sample of a column, or the greatest number where it has none.
pub open spec fn bin_minimum(samples: Seq<i16>, total: int, bin: int) -> i16
    decreases samples.len(),
{
    if samples.len() == 0 {
        i16::MAX
    } else {
        let earlier = bin_minimum(samples.drop_last(), total, bin);
        if bin_of(samples.len() - 1, total) == bin && samples.last() < earlier {
            samples.last()
        } else {
            earlier
        }
    }
}

/// The greatest sample of a column, or the least number where it has none.
pub open spec fn bin_maximum(samples: Seq<i16>, total: int, bin: int) -> i16
    decreases samples.len(),
{
    if samples.len() == 0 {
        i16::MIN
    } else {
        let earlier = bin_maximum(samples.drop_last(), total, bin);
        if bin_of(samples.len() - 1, total) == bin && samples.last() > earlier {
            samples.last()
        } else {
            earlier
        }
    }
}

/// The largest absolute value of the samples.
pub open spec fn peak_of(samples: Seq<i16>) -> u16
    decreases samples.len(),
{
    if samples.len() == 0 {
        0
    } else {
        let earlier = peak_of(samples.drop_last());
        if magnitude(samples.last()) > earlier {
            magnitude(samples.last())
        } else {
            earlier
        }
    }
}

/// Whether no sample fell into a column.
pub open spec fn bin_is_empty(samples: Seq<i16>, total: int, bin: int) -> bool {
    forall|i: int| 0 <= i < samples.len() ==> #[trigger] bin_of(i, total) != bin
}

/// The levels of a column's least and greatest sample; rest only where no sample fell
/// into it.
pub open spec fn bin_levels(samples: Seq<i16>, total: int, bin: int) -> [i8; 2] {
    if bin_is_empty(samples, total, bin) {
        [0i8, 0i8]
    } else {
        [
            signed_level_of(bin_minimum(samples, total, bin)),
            signed_level_of(bin_maximum(samples, total, bin)),
        ]
    }
}

proof fn lemma_bin_is_empty(samples: Seq<i16>, total: int, bin: int)
    ensures
        bin_is_empty(samples, total, bin) == (bin_minimum(samples, total, bin) == i16::MAX
            && bin_maximum(samples, total, bin) == i16::MIN),
        !bin_is_empty(samples, total, bin) ==> bin_minimum(samples, total, bin) <= bin_maximum(
            samples,
            total,
            bin,
        ),
    decreases samples.len(),
{
    if samples.len() > 0 {
        let earlier = samples.drop_last();
        let last = samples.len() - 1;
        lemma_bin_is_empty(earlier, total, bin);
        if bin_of(last, total) == bin {
            assert(!bin_is_empty(samples, total, bin));
        } else {
            assert(bin_is_empty(samples, total, bin) == bin_is_empty(earlier, total, bin)) by {
                if !bin_is_empty(samples, total, bin) {
                    let i = choose|i: int| 0 <= i < samples.len() && bin_of(i, total) == bin;
                    assert(0 <= i < earlier.len() && bin_of(i, total) == bin);
                }
            }
        }
    }
}

/// The monitor of a recording that is being written.
#[derive(Clone, Copy, Debug, PartialEq, Eq)]
pub struct SignalMonitor {
    /// Where the samples start, once that is known.
    pub data_offset: Option<u64>,
    /// Where to read on.
    pub cursor: u64,
    /// The first byte of a sample whose second one was not written yet.
    pub trailing_byte: Option<u8>,
    /// When there was a signal last.
    pub last_signal_at: u64,
}

/// A part of the recording that is to be read.
#[derive(Clone, Copy, Debug, PartialEq, Eq, Structural)]
pub struct Window {
    pub start: u64,
    pub length: usize,
}

impl SignalMonitor {
    /// A monitor that has seen nothing.
    pub fn new(started_at: u64) -> (result: Self)
        ensures
            result == (SignalMonitor {
                data_offset: None,
                cursor: 0,
                trailing_byte: None,
                last_signal_at: started_at,
            }),
    {
        SignalMonitor {
            data_offset: None,
            cursor: 0,
            trailing_byte: None,
            last_signal_at: started_at,
        }
    }

    /// Take in where the samples start.
    pub fn locate(&mut self, offset: u64)
        ensures
            *final(self) == (SignalMonitor {
                data_offset: Some(offset),
                cursor: offset,
                ..*old(self)
            }),
    {
        self.data_offset = Some(offset);
        self.cursor = offset;
    }

    /// Start of the newest window of a recording of the given length.
    pub open spec fn window_start(data_offset: u64, file_length: u64) -> int {
        let samples = if file_length >= data_offset {
            file_length - data_offset
        } else {
            0
        };
        let end = data_offset + samples - samples % 2;
        if end - SIGNAL_WINDOW_BYTES > data_offset {
            end - SIGNAL_WINDOW_BYTES
        } else {
            data_offset as int
        }
    }

    /// The monitor before the newest window is read: what lies before that is
    /// skipped.
    pub open spec fn advanced(self, data_offset: u64, file_length: u64) -> SignalMonitor {
        if self.cursor < SignalMonitor::window_start(data_offset, file_length) {
            SignalMonitor {
                cursor: SignalMonitor::window_start(data_offset, file_length) as u64,
                trailing_byte: None,
                ..self
            }
        } else {
            self
        }
    }

    /// Find the part of a recording of the given length that is to be read.
    pub fn window(&mut self, data_offset: u64, file_length: u64) -> (result: Result<
        Window,
        CaptureError,
    >)
        ensures
            *final(self) == old(self).advanced(data_offset, file_length),
            result == if file_length - final(self).cursor > usize::MAX {
                Err(CaptureError::WindowOverflow)
            } else {
                Ok(
                    Window {
                        start: final(self).cursor,
                        length: if file_length >= final(self).cursor {
                            (file_length - final(self).cursor) as usize
                        } else {
                            0
                        },
                    },
                )
            },
    {
        let samples: u64 = if file_length >= data_offset {
            file_length - data_offset
        } else {
            0
        };
        let end: u64 = data_offset + (samples - samples % 2);
        let window_start: u64 = if end > SIGNAL_WINDOW_BYTES && end - SIGNAL_WINDOW_BYTES
            > data_offset {
            end - SIGNAL_WINDOW_BYTES
        } else {
            data_offset
        };
        if self.cursor < window_start {
            self.cursor = window_start;
            self.trailing_byte = None;
        }
        let length: u64 = if file_length >= self.cursor {
            file_length - self.cursor
        } else {
            0
        };
        if length > usize::MAX as u64 {
            return Err(CaptureError::WindowOverflow);
        }
        Ok(Window { start: self.cursor, length: length as usize })
    }

    /// The bytes of the window, with the one that was left over.
    pub open spec fn joined(self, bytes: Seq<u8>) -> Seq<u8> {
        match self.trailing_byte {
            Some(low) => seq![low] + bytes,
            None => bytes,
        }
    }

    /// Samples that the window was expected to hold.
    pub open spec fn expected(self, length: usize) -> int {
        (length + if self.trailing_byte is Some {
            1int
        } else {
            0
        }) / 2
    }

    /// When there was a signal last, once the given bytes have been read.
    pub open spec fn heard_at(self, bytes: Seq<u8>, now: u64) -> u64 {
        if peak_of(samples_in(self.joined(bytes))) > SIGNAL_FLOOR {
            now
        } else {
            self.last_signal_at
        }
    }

    /// After the given bytes have been read.
    pub open spec fn measured(self, bytes: Seq<u8>, now: u64) -> SignalMonitor {
        let joined = self.joined(bytes);
        SignalMonitor {
            cursor: (self.cursor + bytes.len()) as u64,
            trailing_byte: if joined.len() % 2 == 1 {
                Some(joined.last())
            } else {
                None
            },
            last_signal_at: self.heard_at(bytes, now),
            ..self
        }
    }

    /// Whether nothing has been heard for a while.
    pub open spec fn is_silent(self, now: u64) -> bool {
        since(now, self.last_signal_at) >= NO_SIGNAL_GRACE
    }

    /// Measure a window, given the bytes that were read of it.
    pub fn measure(&mut self, bytes: &Vec<u8>, length: usize, now: u64) -> (result: InputSignal)
        requires
            bytes@.len() <= length,
            length < usize::MAX / 16,
            old(self).cursor + bytes@.len() <= u64::MAX,
        ensures
            ({
                let samples = samples_in(old(self).joined(bytes@));
                let total = old(self).expected(length);
                &&& *final(self) == old(self).measured(bytes@, now)
                &&& result.level == level_of(peak_of(samples))
                &&& result.silent == final(self).is_silent(now)
                &&& forall|bin: int|
                    0 <= bin < AUDIO_WAVEFORM_BINS ==> #[trigger] result.waveform@[bin]
                        == bin_levels(samples, total, bin)
            }),
    {
        let ghost joined = self.joined(bytes@);
        let ghost samples = samples_in(joined);
        let ghost total_spec = self.expected(length);
        let left_over: usize = if self.trailing_byte.is_some() {
            1
        } else {
            0
        };
        let total: usize = (length + left_over) / 2;
        let count: usize = (bytes.len() + left_over) / 2;
        let mut minima: Vec<i16> = filled(i16::MAX);
        let mut maxima: Vec<i16> = filled(i16::MIN);
        let mut peak: u16 = 0;
        let mut index: usize = 0;
        assert(joined.len() == bytes@.len() + left_over);
        assert(samples.take(0) =~= Seq::empty());
        while index < count
            invariant
                index <= count <= total,
                count == samples.len(),
                total == total_spec,
                total < usize::MAX / 16,
                bytes@.len() <= length,
                joined == self.joined(bytes@),
                *self == *old(self),
                left_over == if self.trailing_byte is Some {
                    1int
                } else {
                    0
                },
                joined.len() == bytes@.len() + left_over,
                samples == samples_in(joined),
                minima@.len() == AUDIO_WAVEFORM_BINS,
                maxima@.len() == AUDIO_WAVEFORM_BINS,
                peak == peak_of(samples.take(index as int)),
                forall|bin: int|
                    0 <= bin < AUDIO_WAVEFORM_BINS ==> #[trigger] minima@[bin] == bin_minimum(
                        samples.take(index as int),
                        total_spec,
                        bin,
                    ),
                forall|bin: int|
                    0 <= bin < AUDIO_WAVEFORM_BINS ==> #[trigger] maxima@[bin] == bin_maximum(
                        samples.take(index as int),
                        total_spec,
                        bin,
                    ),
            decreases count - index,
        {
            let low: u8 = if index == 0 && left_over == 1 {
                match self.trailing_byte {
                    Some(low) => low,
                    None => 0,
                }
            } else {
                bytes[2 * index - left_over]
            };
            let high: u8 = bytes[2 * index + 1 - left_over];
            assert(low == joined[2 * index]);
            assert(high == joined[2 * index + 1]);
            let sample: i16 = sample_of(low, high);
            assert(sample == samples[index as int]);
            proof {
                let next = samples.take(index + 1);
                assert(next.drop_last() =~= samples.take(index as int));
                assert(next.last() == sample);
            }
            let loud: u16 = magnitude_of(sample);
            if loud > peak {
                peak = loud;
            }
            let scaled: usize = index * AUDIO_WAVEFORM_BINS / total;
            let bucket: usize = if scaled < AUDIO_WAVEFORM_BINS {
                scaled
            } else {
                AUDIO_WAVEFORM_BINS - 1
            };
            assert(bucket == bin_of(index as int, total_spec));
            if sample < minima[bucket] {
                minima[bucket] = sample;
            }
            if sample > maxima[bucket] {
                maxima[bucket] = sample;
            }
            index += 1;
        }
        assert(samples.take(count as int) =~= samples);
        proof {
            assert forall|bin: int| 0 <= bin < AUDIO_WAVEFORM_BINS implies bin_levels(
                samples,
                total_spec,
                bin,
            ) == #[trigger] levels(minima@[bin], maxima@[bin]) by {
                lemma_bin_is_empty(samples, total_spec, bin);
            }
        }
        if peak > SIGNAL_FLOOR {
            self.last_signal_at = now;
        }
        let trailing: Option<u8> = if (bytes.len() + left_over) % 2 == 1 {
            if bytes.len() > 0 {
                Some(bytes[bytes.len() - 1])
            } else {
                self.trailing_byte
            }
        } else {
            None
        };
        assert(joined.len() % 2 == 1 ==> trailing == Some(joined.last()));
        self.trailing_byte = trailing;
        self.cursor = self.cursor + bytes.len() as u64;
        let waveform: InputWaveform = [
            column(&minima, &maxima, 0),
            column(&minima, &maxima, 1),
            column(&minima, &maxima, 2),
            column(&minima, &maxima, 3),
            column(&minima, &maxima, 4),
            column(&minima, &maxima, 5),
            column(&minima, &maxima, 6),
            column(&minima, &maxima, 7),
            column(&minima, &maxima, 8),
            column(&minima, &maxima, 9),
            column(&minima, &maxima, 10),
        ];
        let level: u8 = peak_level(peak);
        InputSignal {
            level,
            waveform,
            silent: elapsed_since(now, self.last_signal_at) >= NO_SIGNAL_GRACE,
        }
    }
}

fn filled(value: i16) -> (result: Vec<i16>)
    ensures
        result@.len() == AUDIO_WAVEFORM_BINS,
        forall|i: int| 0 <= i < AUDIO_WAVEFORM_BINS ==> result@[i] == value,
{
    let mut result: Vec<i16> = Vec::new();
    while result.len() < AUDIO_WAVEFORM_BINS
        invariant
            result@.len() <= AUDIO_WAVEFORM_BINS,
            forall|i: int| 0 <= i < result@.len() ==> result@[i] == value,
        decreases AUDIO_WAVEFORM_BINS - result@.len(),
    {
        result.push(value);
    }
    result
}

/// The levels of a column with the given least and greatest sample. Without a sample
/// the least one still is the greatest number, and the greatest one the least.
spec fn levels(least: i16, greatest: i16) -> [i8; 2] {
    if least == i16::MAX && greatest == i16::MIN {
        [0i8, 0i8]
    } else {
        [signed_level_of(least), signed_level_of(greatest)]
    }
}

fn column(minima: &Vec<i16>, maxima: &Vec<i16>, bin: usize) -> (result: [i8; 2])
    requires
        bin < minima@.len(),
        bin < maxima@.len(),
    ensures
        result == levels(minima@[bin as int], maxima@[bin as int]),
{
    if minima[bin] == i16::MAX && maxima[bin] == i16::MIN {
        [0, 0]
    } else {
        [signed_level(minima[bin]), signed_level(maxima[bin])]
    }
}

/// A little-endian size.
pub open spec fn size_at(bytes: Seq<u8>, at: int) -> int {
    bytes[at] + bytes[at + 1] * 256 + bytes[at + 2] * 65_536 + bytes[at + 3] * 16_777_216
}

/// Whether bytes hold a text at a place.
pub open spec fn holds_at(bytes: Seq<u8>, at: int, text: Seq<u8>) -> bool {
    at + text.len() <= bytes.len() && bytes.subrange(at, at + text.len()) == text
}

/// Where the samples start, from the chunk at `cursor` on. `None` where the part that
/// was read ends before that is known.
pub open spec fn data_start(bytes: Seq<u8>, cursor: int) -> Option<int>
    decreases bytes.len() - cursor,
{
    if cursor < 0 || cursor + 8 > bytes.len() {
        None
    } else if holds_at(bytes, cursor, "data".spec_bytes()) {
        Some(cursor + 8)
    } else {
        let size = size_at(bytes, cursor + 4);
        let next = cursor + 8 + size + size % 2;
        if next > bytes.len() || next <= cursor {
            None
        } else {
            data_start(bytes, next)
        }
    }
}

/// Where the samples of a recording start, from its first bytes. It may have any
/// chunks before them; only the layout counts, for sizes change while it is written.
pub open spec fn live_data(bytes: Seq<u8>) -> Result<Option<int>, CaptureError> {
    if bytes.len() < 12 {
        Ok(None)
    } else if !holds_at(bytes, 0, "RIFF".spec_bytes()) || !holds_at(bytes, 8, "WAVE".spec_bytes()) {
        Err(CaptureError::NotWave)
    } else {
        Ok(data_start(bytes, 12))
    }
}

fn holds(bytes: &Vec<u8>, at: usize, text: &str) -> (result: bool)
    requires
        at <= bytes@.len(),
    ensures
        result == holds_at(bytes@, at as int, text.spec_bytes()),
{
    let expected = text.as_bytes();
    if bytes.len() - at < expected.len() {
        return false;
    }
    let part = vstd::slice::slice_subrange(bytes.as_slice(), at, at + expected.len());
    same_bytes(part, expected)
}

/// Find where the samples of a recording start, from its first bytes.
pub fn find_live_wav_data(header: &Vec<u8>) -> (result: Result<Option<u64>, CaptureError>)
    requires
        header@.len() <= WAV_HEADER_SCAN_LIMIT,
    ensures
        match live_data(header@) {
            Ok(Some(offset)) => result == Ok::<Option<u64>, CaptureError>(Some(offset as u64)),
            Ok(None) => result == Ok::<Option<u64>, CaptureError>(None),
            Err(error) => result == Err::<Option<u64>, CaptureError>(error),
        },
{
    if header.len() < 12 {
        return Ok(None);
    }
    if !holds(header, 0, "RIFF") || !holds(header, 8, "WAVE") {
        return Err(CaptureError::NotWave);
    }
    let mut cursor: usize = 12;
    while cursor + 8 <= header.len()
        invariant
            cursor <= header@.len() <= WAV_HEADER_SCAN_LIMIT,
            live_data(header@) == Ok::<Option<int>, CaptureError>(
                data_start(header@, cursor as int),
            ),
        decreases header@.len() - cursor,
    {
        if holds(header, cursor, "data") {
            return Ok(Some((cursor + 8) as u64));
        }
        let size: u64 = header[cursor + 4] as u64 + (header[cursor + 5] as u64) * 256 + (
        header[cursor + 6] as u64) * 65_536 + (header[cursor + 7] as u64) * 16_777_216;
        let next: u64 = (cursor as u64) + 8 + size + size % 2;
        if next > header.len() as u64 {
            return Ok(None);
        }
        cursor = next as usize;
    }
    Ok(None)
}

/// The recorder's arguments before the path: sixteen thousand samples a second, one
/// channel, sixteen bits, and a source where one is chosen.
pub open spec fn record_options(source: Option<Seq<char>>) -> Seq<Seq<char>> {
    let format = seq!["--rate"@, "16000"@, "--channels"@, "1"@, "--format"@, "s16"@];
    match source {
        Some(source) => format + seq!["--target"@, source],
        None => format,
    }
}

/// The recorder's arguments before the path.
pub fn pw_record_options(source: Option<&str>) -> (result: Vec<String>)
    ensures
        texts(result@) == record_options(
            match source {
                Some(source) => Some(source@),
                None => None,
            },
        ),
{
    let mut args: Vec<String> = vec![
        "--rate".to_owned(),
        "16000".to_owned(),
        "--channels".to_owned(),
        "1".to_owned(),
        "--format".to_owned(),
        "s16".to_owned(),
    ];
    if let Some(source) = source {
        args.push("--target".to_owned());
        args.push(source.to_owned());
    }
    assert(texts(args@) =~= record_options(
        match source {
            Some(source) => Some(source@),
            None => None,
        },
    ));
    args
}

/// The recorder's arguments.
pub fn pw_record_args(wav_path: &str, source: Option<&str>) -> (result: Vec<String>)
    ensures
        texts(result@) == record_options(
            match source {
                Some(source) => Some(source@),
                None => None,
            },
        ).push(wav_path@),
{
    let mut args = pw_record_options(source);
    let ghost options = texts(args@);
    args.push(wav_path.to_owned());
    assert(texts(args@) =~= options.push(wav_path@));
    args
}

/// Whether a file of the given length holds samples.
pub open spec fn wav_check(length: u64) -> Result<(), CaptureError> {
    if length > WAV_HEADER_BYTES {
        Ok(())
    } else {
        Err(CaptureError::Empty)
    }
}

/// Check that a finished recording holds samples.
pub fn verify_wav(length: u64) -> (result: Result<(), CaptureError>)
    ensures
        result == wav_check(length),
{
    if length > WAV_HEADER_BYTES {
        Ok(())
    } else {
        Err(CaptureError::Empty)
    }
}

/// What is shown of what a recorder said.
pub open spec fn stderr_words(stderr: Seq<char>) -> Seq<char> {
    if stderr.len() == 0 {
        "(no stderr output)"@
    } else {
        stderr
    }
}

/// What the recorder printed, or that it printed nothing.
pub fn display_stderr(stderr: &str) -> (result: &str)
    ensures
        result@ == stderr_words(stderr@),
{
    if stderr.is_empty() {
        "(no stderr output)"
    } else {
        stderr
    }
}

/// Where the end of a recorder stands.
#[derive(Clone, Copy, Debug, PartialEq, Eq, Structural)]
pub enum StopStep {
    /// See whether it has ended by itself.
    Check,
    /// Interrupt it.
    Interrupt,
    /// It could not be interrupted: see whether it has ended by itself.
    Recheck,
    /// Wait for its end.
    Await,
    /// Kill it.
    Kill,
    /// It has ended. Its exit status proves nothing: an interrupted recorder fails by
    /// design, and only its file counts.
    Stopped,
    /// It could not be interrupted.
    Refused,
    /// It had to be killed.
    Killed,
}

/// What became of a step.
#[derive(Clone, Copy, Debug, PartialEq, Eq, Structural)]
pub enum StopEvent {
    /// It has ended.
    Exited,
    /// It is still running.
    Running,
    /// The signal was sent.
    Signalled,
    /// The signal could not be sent.
    Unsignalled,
}

/// What follows a step once an event has come.
pub open spec fn stop_after(step: StopStep, event: StopEvent) -> StopStep {
    match (step, event) {
        (StopStep::Check, StopEvent::Exited) => StopStep::Stopped,
        (StopStep::Check, _) => StopStep::Interrupt,
        (StopStep::Interrupt, StopEvent::Unsignalled) => StopStep::Recheck,
        (StopStep::Interrupt, _) => StopStep::Await,
        (StopStep::Recheck, StopEvent::Exited) => StopStep::Stopped,
        (StopStep::Recheck, _) => StopStep::Refused,
        (StopStep::Await, StopEvent::Exited) => StopStep::Stopped,
        (StopStep::Await, _) => StopStep::Kill,
        (StopStep::Kill, _) => StopStep::Killed,
        (ended, _) => ended,
    }
}

/// The step after an event.
pub fn next_stop(step: StopStep, event: StopEvent) -> (result: StopStep)
    ensures
        result == stop_after(step, event),
{
    match (step, event) {
        (StopStep::Check, StopEvent::Exited) => StopStep::Stopped,
        (StopStep::Check, _) => StopStep::Interrupt,
        (StopStep::Interrupt, StopEvent::Unsignalled) => StopStep::Recheck,
        (StopStep::Interrupt, _) => StopStep::Await,
        (StopStep::Recheck, StopEvent::Exited) => StopStep::Stopped,
        (StopStep::Recheck, _) => StopStep::Refused,
        (StopStep::Await, StopEvent::Exited) => StopStep::Stopped,
        (StopStep::Await, _) => StopStep::Kill,
        (StopStep::Kill, _) => StopStep::Killed,
        (ended, _) => ended,
    }
}

/// The sample at full scale that a level stands for.
pub open spec fn level_sample(level: i8) -> i16 {
    if level >= 100 {
        i16::MAX
    } else if level <= -100 {
        (-i16::MAX) as i16
    } else if level >= 0 {
        (level as int * i16::MAX as int / 100) as i16
    } else {
        (-((-level) as int * i16::MAX as int / 100)) as i16
    }
}

fn sample_for(level: i8) -> (result: i16)
    ensures
        result == level_sample(level),
{
    if level >= 100 {
        return i16::MAX;
    }
    if level <= -100 {
        return -i16::MAX;
    }
    let wide: i32 = level as i32;
    if wide >= 0 {
        (wide * 32_767 / 100) as i16
    } else {
        (-((-wide) * 32_767 / 100)) as i16
    }
}

impl InputSignal {
    /// The window as the display draws it: each of its columns shows the part of the
    /// window that lies under it.
    pub fn drawn(&self) -> (result: AudioSignal)
        ensures
            result.level == self.level,
            result.silent == self.silent,
            forall|i: int|
                0 <= i < 60 ==> (#[trigger] result.waveform@[i])@ == seq![
                    level_sample(self.waveform@[i * 11 / 60]@[0]),
                    level_sample(self.waveform@[i * 11 / 60]@[1]),
                ],
    {
        let mut waveform: AudioWaveform = [[0i16, 0i16]; 60];
        let mut index: usize = 0;
        while index < 60
            invariant
                index <= 60,
                forall|i: int|
                    0 <= i < index ==> (#[trigger] waveform@[i])@ == seq![
                        level_sample(self.waveform@[i * 11 / 60]@[0]),
                        level_sample(self.waveform@[i * 11 / 60]@[1]),
                    ],
            decreases 60 - index,
        {
            let bin: usize = index * 11 / 60;
            let pair: [i16; 2] = [
                sample_for(self.waveform[bin][0]),
                sample_for(self.waveform[bin][1]),
            ];
            assert(pair@ =~= seq![
                level_sample(self.waveform@[bin as int]@[0]),
                level_sample(self.waveform@[bin as int]@[1]),
            ]);
            waveform[index] = pair;
            index += 1;
        }
        AudioSignal { level: self.level, silent: self.silent, waveform }
    }
}

/// Samples before the newest window have no influence on what is measured: a
/// monitor that fell behind starts at the window, without what it had left over.
pub proof fn backlog_is_skipped(monitor: SignalMonitor, data_offset: u64, file_length: u64)
    requires
        data_offset <= file_length,
    ensures
        ({
            let after = monitor.advanced(data_offset, file_length);
            &&& file_length - after.cursor <= SIGNAL_WINDOW_BYTES + 1
            &&& after.cursor != monitor.cursor ==> after.trailing_byte is None
        }),
{
}

} // verus!
