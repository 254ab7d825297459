//! Progress rendering and throttling. The status text shows a percentage, a
//! ten-block progress bar, megabytes done of megabytes total (one decimal),
//! and instantaneous throughput computed from the bytes moved since the
//! previous sample over the seconds elapsed since it — never a cumulative
//! average. A report goes out only when the interval has elapsed and the
//! rendered text differs from the last one delivered.
//!
//! All arithmetic is integer fixed-point (tenths and hundredths); the wider
//! intermediate products are taken in 128 bits.

use vstd::prelude::*;
use crate::numfmt::{hundredths_dec, spec_hundredths, spec_tenths, tenths_dec};

verus! {

/// Seconds that must pass between two delivered progress reports.
pub const PROGRESS_INTERVAL_SECS: u64 = 5;

/// The number of blocks in the progress bar.
pub const BAR_WIDTH: u64 = 10;

/// `n` copies of one character.
pub open spec fn repeat_char(ch: char, n: nat) -> Seq<char>
    decreases n,
{
    if n == 0 {
        Seq::empty()
    } else {
        repeat_char(ch, (n - 1) as nat) + seq![ch]
    }
}

/// Whole megabytes in tenths: `bytes * 10 / 2^20`, rounded down.
pub open spec fn spec_mb_tenths(bytes: u64) -> int {
    bytes * 10 / 1048576
}

/// Percentage done in hundredths (0 when the total is empty).
pub open spec fn spec_pct_hundredths(done: u64, total: u64) -> int {
    if total == 0 {
        0
    } else {
        done * 10000 / (total as int)
    }
}

/// Filled blocks of the bar: `done / total * BAR_WIDTH`, rounded to nearest.
pub open spec fn spec_filled_blocks(done: u64, total: u64) -> int {
    if total == 0 {
        0
    } else {
        (2 * BAR_WIDTH * done + total) / (2 * total as int)
    }
}

/// Throughput in tenths of a MB/s: bytes moved since the previous sample
/// over the seconds elapsed since it.
pub open spec fn spec_speed_tenths(delta_bytes: u64, elapsed_secs: u64) -> int {
    if elapsed_secs == 0 {
        0
    } else {
        delta_bytes * 10 / (1048576 * elapsed_secs)
    }
}

/// The complete status text for one report.
pub open spec fn spec_render(
    name: Seq<char>,
    done: u64,
    total: u64,
    speed_tenths: u64,
) -> Seq<char> {
    "Downloading "@ + name + "\n"@ + spec_tenths(spec_mb_tenths(done) as nat) + " MB of "@
        + spec_tenths(spec_mb_tenths(total) as nat) + " MB done.\n\n["@ + repeat_char(
        '\u{1F7E9}',
        spec_filled_blocks(done, total) as nat,
    ) + repeat_char('\u{2B1C}', (BAR_WIDTH - spec_filled_blocks(done, total)) as nat) + "] "@
        + spec_hundredths(spec_pct_hundredths(done, total) as nat) + "%\nSpeed "@ + spec_tenths(
        speed_tenths as nat,
    ) + " MB/s"@
}

/// Append `n` copies of a one-character string.
fn append_repeat(out: &mut String, block: &str, ch: Ghost<char>, n: u64)
    requires
        block@.len() == 1,
        block@[0] == ch@,
    ensures
        final(out)@ == old(out)@ + repeat_char(ch@, n as nat),
{
    proof {
        assert(block@ =~= seq![ch@]);
    }
    let mut i: u64 = 0;
    while i < n
        invariant
            i <= n,
            block@ =~= seq![ch@],
            out@ == old(out)@ + repeat_char(ch@, i as nat),
        decreases n - i,
    {
        out.append(block);
        i = i + 1;
    }
}

/// Render the status text for a sample.
pub fn render_progress(name: &str, done: u64, total: u64, speed_tenths: u64) -> (r: String)
    requires
        done <= total,
    ensures
        r@ == spec_render(name@, done, total, speed_tenths),
{
    proof {
        reveal_strlit("Downloading ");
        reveal_strlit("\n");
        reveal_strlit(" MB of ");
        reveal_strlit(" MB done.\n\n[");
        reveal_strlit("] ");
        reveal_strlit("%\nSpeed ");
        reveal_strlit(" MB/s");
        reveal_strlit("\u{1F7E9}");
        reveal_strlit("\u{2B1C}");
    }
    let mb_done_wide = (done as u128 * 10) / 1048576;
    let mb_total_wide = (total as u128 * 10) / 1048576;
    proof {
        assert(mb_done_wide <= done && mb_total_wide <= total) by (nonlinear_arith)
            requires
                mb_done_wide as int == (done as int * 10) / 1048576,
                mb_total_wide as int == (total as int * 10) / 1048576,
        ;
    }
    let mb_done = mb_done_wide as u64;
    let mb_total = mb_total_wide as u64;
    let pct: u64 = if total == 0 {
        0
    } else {
        let pct_wide = (done as u128 * 10000) / (total as u128);
        proof {
            assert(pct_wide <= 10000) by (nonlinear_arith)
                requires
                    pct_wide as int == (done as int * 10000) / (total as int),
                    done <= total,
                    total >= 1,
            ;
        }
        pct_wide as u64
    };
    let filled: u64 = if total == 0 {
        0
    } else {
        let filled_wide = (2 * BAR_WIDTH as u128 * done as u128 + total as u128) / (2
            * total as u128);
        proof {
            assert(filled_wide <= 10) by (nonlinear_arith)
                requires
                    filled_wide as int == (20 * done as int + total as int) / (2 * total as int),
                    done <= total,
                    total >= 1,
            ;
        }
        filled_wide as u64
    };
    proof {
        assert(mb_done == spec_mb_tenths(done));
        assert(mb_total == spec_mb_tenths(total));
        assert(pct == spec_pct_hundredths(done, total));
        assert(filled == spec_filled_blocks(done, total));
    }
    let mut r = String::from_str("Downloading ");
    r.append(name);
    r.append("\n");
    let done_text = tenths_dec(mb_done);
    r.append(done_text.as_str());
    r.append(" MB of ");
    let total_text = tenths_dec(mb_total);
    r.append(total_text.as_str());
    r.append(" MB done.\n\n[");
    append_repeat(&mut r, "\u{1F7E9}", Ghost('\u{1F7E9}'), filled);
    append_repeat(&mut r, "\u{2B1C}", Ghost('\u{2B1C}'), BAR_WIDTH - filled);
    r.append("] ");
    let pct_text = hundredths_dec(pct);
    r.append(pct_text.as_str());
    r.append("%\nSpeed ");
    let speed_text = tenths_dec(speed_tenths);
    r.append(speed_text.as_str());
    r.append(" MB/s");
    r
}

/// The stateful throttle in front of the renderer. It samples at most once
/// per interval, and of two consecutive identical texts delivers only the
/// first.
pub struct ProgressReporter {
    /// Seconds between reports.
    pub interval: u64,
    /// When the previous sample was taken (seconds).
    pub last_time: u64,
    /// Bytes done at the previous sample.
    pub last_bytes: u64,
    /// The text most recently delivered.
    pub last_text: String,
}

impl ProgressReporter {
    /// A reporter that has delivered nothing, sampling from `start_time`.
    pub fn new(interval: u64, start_time: u64) -> (r: Self)
        ensures
            r.interval == interval,
            r.last_time == start_time,
            r.last_bytes == 0,
            r.last_text@ == Seq::<char>::empty(),
    {
        ProgressReporter { interval, last_time: start_time, last_bytes: 0, last_text: String::new() }
    }

    /// Observe one received chunk's worth of progress at time `now`. Returns
    /// the text to deliver, or `None` when the interval has not yet elapsed
    /// or the text would repeat the previous report verbatim.
    ///
    /// The throughput inside a delivered text is computed from the bytes and
    /// seconds since the previous sample alone.
    pub fn step(&mut self, now: u64, done: u64, total: u64, name: &str) -> (r: Option<String>)
        requires
            old(self).last_time <= now,
            old(self).last_bytes <= done,
            done <= total,
        ensures
            now - old(self).last_time < old(self).interval ==> r is None && *final(self) == *old(
                self),
            now - old(self).last_time >= old(self).interval ==> {
                let text = spec_render(
                    name@,
                    done,
                    total,
                    spec_speed_tenths(
                        (done - old(self).last_bytes) as u64,
                        (now - old(self).last_time) as u64,
                    ) as u64,
                );
                &&& final(self).interval == old(self).interval
                &&& final(self).last_time == now
                &&& final(self).last_bytes == done
                &&& (text == old(self).last_text@ ==> r is None && final(self).last_text == old(
                    self).last_text)
                &&& (text != old(self).last_text@ ==> (r matches Some(s) && s@ == text && final(
                    self).last_text@ == text))
            },
            r matches Some(text) ==> text@ != old(self).last_text@,
    {
        if now - self.last_time < self.interval {
            return None;
        }
        let elapsed = now - self.last_time;
        let delta = done - self.last_bytes;
        let speed: u64 = if elapsed == 0 {
            0
        } else {
            let speed_wide = (delta as u128 * 10) / (1048576 * elapsed as u128);
            proof {
                assert(speed_wide <= delta) by (nonlinear_arith)
                    requires
                        speed_wide as int == (delta as int * 10) / (1048576 * elapsed as int),
                        elapsed >= 1,
                ;
            }
            speed_wide as u64
        };
        proof {
            assert(speed == spec_speed_tenths(delta, elapsed));
        }
        self.last_time = now;
        self.last_bytes = done;
        let text = render_progress(name, done, total, speed);
        if text == self.last_text {
            return None;
        }
        self.last_text = text.clone();
        Some(text)
    }
}

} // verus!
