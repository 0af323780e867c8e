//! Rate-limited progress reporting for re-encoded streams.
//!
//! A reporter is bound to one transcoder and fed an injected millisecond
//! clock. It emits a status line only when at least `LOG_FRAME_WINDOW` frames
//! have been processed since the last emission and at least `LOG_MS_WINDOW`
//! milliseconds have elapsed since it; otherwise a call is a no-op.
//! Reporting is purely observational: it never touches packets, frames or
//! ordering.

use vstd::prelude::*;

verus! {

/// Frames that must pass between two emissions.
pub const LOG_FRAME_WINDOW: u64 = 100;

/// Milliseconds that must pass between two emissions.
pub const LOG_MS_WINDOW: u64 = 1000;

/// One emitted status line.
#[derive(Clone, Copy, PartialEq, Eq, Structural, Debug)]
pub struct ProgressLine {
    /// Milliseconds since the job started.
    pub elapsed_ms: u64,
    /// Frames processed so far by this transcoder.
    pub frame_count: u64,
    /// Current stream position in milliseconds.
    pub timestamp_ms: i64,
}

/// `a + 1`, stopping at the top of the range.
pub open spec fn sat_inc(a: u64) -> u64 {
    if a < u64::MAX {
        (a + 1) as u64
    } else {
        a
    }
}

/// `a - b`, stopping at zero.
pub open spec fn sat_sub(a: u64, b: u64) -> u64 {
    if a >= b {
        (a - b) as u64
    } else {
        0
    }
}

/// Progress bookkeeping for one transcoder.
#[derive(Clone, Copy, PartialEq, Eq, Structural, Debug)]
pub struct ProgressReporter {
    /// Whether this transcoder reports at all; only the best video stream's
    /// transcoder does.
    pub enabled: bool,
    /// Frames processed since the job started.
    pub frame_count: u64,
    /// `frame_count` at the moment of the last emission.
    pub last_log_frame_count: u64,
    /// Clock reading when the job started.
    pub start_ms: u64,
    /// Clock reading at the last emission.
    pub last_log_ms: u64,
}

impl ProgressReporter {
    /// Whether a call at clock reading `now_ms` emits a line: the reporter is
    /// enabled, at least `LOG_FRAME_WINDOW` frames have been processed since
    /// the last emission, and at least `LOG_MS_WINDOW` milliseconds have
    /// elapsed since it.
    pub open spec fn should_emit(self, now_ms: u64) -> bool {
        &&& self.enabled
        &&& self.frame_count >= self.last_log_frame_count + LOG_FRAME_WINDOW
        &&& now_ms >= self.last_log_ms + LOG_MS_WINDOW
    }

    /// A fresh reporter for a job starting at clock reading `now_ms`.
    pub fn new(enabled: bool, now_ms: u64) -> (r: ProgressReporter)
        ensures
            r.enabled == enabled,
            r.frame_count == 0,
            r.last_log_frame_count == 0,
            r.start_ms == now_ms,
            r.last_log_ms == now_ms,
    {
        ProgressReporter {
            enabled,
            frame_count: 0,
            last_log_frame_count: 0,
            start_ms: now_ms,
            last_log_ms: now_ms,
        }
    }

    /// Count one processed frame.
    pub fn observe_frame(&mut self)
        ensures
            final(self).frame_count == sat_inc(old(self).frame_count),
            final(self).enabled == old(self).enabled,
            final(self).last_log_frame_count == old(self).last_log_frame_count,
            final(self).start_ms == old(self).start_ms,
            final(self).last_log_ms == old(self).last_log_ms,
    {
        if self.frame_count < u64::MAX {
            self.frame_count = self.frame_count + 1;
        }
    }

    /// Emit a status line if the current window allows one; otherwise do
    /// nothing. `timestamp_ms` is the stream position the line reports.
    pub fn maybe_log(&mut self, now_ms: u64, timestamp_ms: i64) -> (line: Option<ProgressLine>)
        ensures
            line is Some <==> old(self).should_emit(now_ms),
            line matches Some(l) ==> l == (ProgressLine {
                elapsed_ms: sat_sub(now_ms, old(self).start_ms),
                frame_count: old(self).frame_count,
                timestamp_ms,
            }),
            old(self).should_emit(now_ms) ==> *final(self) == (ProgressReporter {
                last_log_frame_count: old(self).frame_count,
                last_log_ms: now_ms,
                ..*old(self)
            }),
            !old(self).should_emit(now_ms) ==> *final(self) == *old(self),
    {
        if !self.enabled {
            return None;
        }
        let frames_since = if self.frame_count >= self.last_log_frame_count {
            self.frame_count - self.last_log_frame_count
        } else {
            0
        };
        let ms_since = if now_ms >= self.last_log_ms {
            now_ms - self.last_log_ms
        } else {
            0
        };
        if frames_since < LOG_FRAME_WINDOW || ms_since < LOG_MS_WINDOW {
            return None;
        }
        let line = ProgressLine {
            elapsed_ms: if now_ms >= self.start_ms {
                now_ms - self.start_ms
            } else {
                0
            },
            frame_count: self.frame_count,
            timestamp_ms,
        };
        self.last_log_frame_count = self.frame_count;
        self.last_log_ms = now_ms;
        Some(line)
    }
}

/// The reporter state after counting one frame at clock reading `now_ms` and
/// then emitting if the window allows.
pub open spec fn reporter_after_frame(r: ProgressReporter, now_ms: u64) -> ProgressReporter {
    let counted = ProgressReporter { frame_count: sat_inc(r.frame_count), ..r };
    if counted.should_emit(now_ms) {
        ProgressReporter {
            last_log_frame_count: counted.frame_count,
            last_log_ms: now_ms,
            ..counted
        }
    } else {
        counted
    }
}

/// The line, if any, emitted by counting one frame at clock reading `now_ms`.
pub open spec fn line_after_frame(
    r: ProgressReporter,
    now_ms: u64,
    timestamp_ms: i64,
) -> Option<ProgressLine> {
    let counted = ProgressReporter { frame_count: sat_inc(r.frame_count), ..r };
    if counted.should_emit(now_ms) {
        Some(
            ProgressLine {
                elapsed_ms: sat_sub(now_ms, r.start_ms),
                frame_count: counted.frame_count,
                timestamp_ms,
            },
        )
    } else {
        None
    }
}

/// Law: at most one line per (frame, time) window. If a reporter emits at
/// clock reading `now1` — so `r2` is any later state still carrying that
/// emission's bookkeeping, frames only having been observed since — then a
/// second emission at `now2` is possible only once at least
/// `LOG_FRAME_WINDOW` more frames have been processed and `now2` is at least
/// `LOG_MS_WINDOW` milliseconds after `now1`.
pub proof fn lemma_progress_rate_limited(
    r1: ProgressReporter,
    now1: u64,
    r2: ProgressReporter,
    now2: u64,
)
    requires
        r1.should_emit(now1),
        r2.last_log_ms == now1,
        r2.last_log_frame_count == r1.frame_count,
        r2.should_emit(now2),
    ensures
        now2 >= now1 + LOG_MS_WINDOW,
        r2.frame_count >= r1.frame_count + LOG_FRAME_WINDOW,
{
}

} // verus!
