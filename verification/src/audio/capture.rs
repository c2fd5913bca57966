//! Limits and rates of microphone capture.
use vstd::prelude::*;

verus! {

/// The rate recordings are stored at.
pub const SAMPLE_RATE: u32 = 48_000;

/// The largest WAV file a recording may produce.
pub const MAX_WAV_BYTES: u64 = 20 * 1024 * 1024;

/// The most 16-bit mono frames that fit in `MAX_WAV_BYTES` after the header.
pub const MAX_PCM16_FRAMES: u64 = (MAX_WAV_BYTES - 44) / 2;

/// Bars in the level meter.
pub const METER_BINS: usize = 48;

/// Meter updates per second.
pub const METER_HOPS_PER_SEC: u32 = 16;

/// How often the capture thread polls, in milliseconds.
pub const CAPTURE_POLL_MS: u64 = 16;

/// How long opening a device may take, in milliseconds.
pub const START_TIMEOUT_MS: u64 = 8_000;

/// How long to wait for a capture thread that may hang, in milliseconds.
pub const HUNG_JOIN_GRACE_MS: u64 = 50;

/// The bound on joining the capture thread, in milliseconds.
pub const JOIN_BOUND_MS: u64 = 8_000;

/// Input frames between two meter updates: a sixteenth of a second, at
/// least one.
pub fn meter_hop(sample_rate: u32) -> (r: u32)
    ensures
        r == if sample_rate / 16 >= 1 { sample_rate / 16 } else { 1 },
{
    let hop = sample_rate / METER_HOPS_PER_SEC;
    if hop >= 1 {
        hop
    } else {
        1
    }
}

/// The longest recording, in milliseconds, that fits the WAV size limit.
pub fn max_duration_ms() -> (r: u64)
    ensures
        r == MAX_PCM16_FRAMES * 1000 / (SAMPLE_RATE as int),
{
    (MAX_PCM16_FRAMES * 1000) / (SAMPLE_RATE as u64)
}

/// Frames at the stored rate that `input_frames` frames at `input_rate`
/// become (rounded down, saturating); unchanged when the rate is unknown or
/// already the stored one.
pub fn output_frames_for_input(input_frames: u64, input_rate: u32) -> (r: u64)
    ensures
        r == if input_rate == 0 || input_rate == SAMPLE_RATE {
            input_frames as int
        } else if input_frames * SAMPLE_RATE > u64::MAX {
            (u64::MAX as int) / (input_rate as int)
        } else {
            input_frames * SAMPLE_RATE / (input_rate as int)
        },
{
    if input_rate == 0 || input_rate == SAMPLE_RATE {
        return input_frames;
    }
    let scaled = match input_frames.checked_mul(SAMPLE_RATE as u64) {
        Some(v) => v,
        None => u64::MAX,
    };
    scaled / (input_rate as u64)
}

/// How many of `available` converted samples still fit in the recording
/// when `written` frames are already in it.
pub fn pcm_frames_to_write(written: u64, available: u64) -> (r: u64)
    ensures
        written >= MAX_PCM16_FRAMES ==> r == 0,
        written < MAX_PCM16_FRAMES ==> r == if available < MAX_PCM16_FRAMES - written {
            available
        } else {
            (MAX_PCM16_FRAMES - written) as u64
        },
        written + r <= MAX_PCM16_FRAMES || r == 0,
{
    if written >= MAX_PCM16_FRAMES {
        0
    } else {
        let room = MAX_PCM16_FRAMES - written;
        if available < room {
            available
        } else {
            room
        }
    }
}

/// The length in milliseconds of `written` frames at the capture rate.
pub fn captured_duration_ms(written: u64) -> (r: u64)
    requires
        written * 1000 <= u64::MAX,
    ensures
        r == written * 1000 / (SAMPLE_RATE as int),
{
    (written * 1000) / (SAMPLE_RATE as u64)
}

/// How the level meter advances after `frames` more frames: the number of
/// completed hops, each of which pushes one bin, and the frames left over
/// toward the next hop. The pending count saturates, and a hop of zero
/// counts as one.
pub fn meter_steps(pending_n: u32, frames: u32, hop: u32) -> (r: (u32, u32))
    ensures
        ({
            let h: int = if hop == 0 {
                1
            } else {
                hop as int
            };
            let n: int = if pending_n + frames > u32::MAX {
                u32::MAX as int
            } else {
                pending_n + frames
            };
            r.0 == n / h && r.1 == n % h
        }),
{
    let h: u32 = if hop == 0 {
        1
    } else {
        hop
    };
    let n: u32 = pending_n.saturating_add(frames);
    (n / h, n % h)
}

} // verus!
