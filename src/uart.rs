//! Decisions of the two break-framed UART drivers: the generic UART behind a USB
//! bridge, which sees a break as a lone zero byte and times slots with a clock, and
//! the microcontroller UART, which flags breaks and line faults in hardware and
//! times slots with a countdown timer.
//!
//! A driver's I/O loop hands each step what it has just read (and how long it has
//! waited) and performs the action that comes back.

use vstd::prelude::*;

verus! {

/// Baud rate of a DMX line.
pub const DMX_BAUD: u32 = 250_000;

/// Duration of the break that starts a frame, in microseconds.
pub const BREAK_MICROS: u64 = 200;

/// Duration of the mark after break, in microseconds.
pub const MAB_MICROS: u64 = 48;

/// Idle time after which a frame that has begun is complete, in microseconds.
pub const INTER_SLOT_MICROS: u64 = 2_000;

/// Pause before a break on the generic UART, guarding a frame still in flight.
pub const PACKAGE_GUARD_MILLIS: u64 = 50;

/// Idle time after the last slot after which the microcontroller UART ends a
/// frame, in milliseconds.
pub const MAXIMUM_MAB_TIME_MILLIS: u32 = 1;

/// Default latency timer of the generic UART, in microseconds. The standard asks
/// for 2 ms; longer values put less load on the host.
pub const DEFAULT_LATENCY_TIMER_MICROS: u32 = 2_000;

/// Configuration of the generic UART driver.
#[derive(Debug, Clone, Copy, PartialEq, Eq, Structural)]
pub struct FtdiDriverConfig {
    /// The bridge's latency timer (its polling granularity), in microseconds.
    pub latency_timer_us: u32,
}

impl Default for FtdiDriverConfig {
    fn default() -> (r: Self)
        ensures
            r.latency_timer_us == DEFAULT_LATENCY_TIMER_MICROS,
    {
        FtdiDriverConfig { latency_timer_us: DEFAULT_LATENCY_TIMER_MICROS }
    }
}

/// The timeout that a read actually waits: zero stays zero (the read is in the
/// middle of a frame), anything shorter than the latency timer becomes the
/// latency timer, anything else is kept.
pub open spec fn effective_timeout(requested_timeout_us: u32, latency_timer_us: u32) -> u32 {
    if requested_timeout_us == 0 {
        0
    } else if requested_timeout_us < latency_timer_us {
        latency_timer_us
    } else {
        requested_timeout_us
    }
}

impl FtdiDriverConfig {
    /// The timeout that a read requested with `requested_timeout_us` waits.
    pub fn check_timeout(&self, requested_timeout_us: u32) -> (r: u32)
        ensures
            r == effective_timeout(requested_timeout_us, self.latency_timer_us),
            requested_timeout_us != 0 ==> r >= self.latency_timer_us && r
                >= requested_timeout_us,
    {
        if requested_timeout_us == 0 {
            return 0;
        }
        if requested_timeout_us < self.latency_timer_us {
            return self.latency_timer_us;
        }
        requested_timeout_us
    }

    /// Whether a read with the given requested timeout is raised to the latency
    /// timer, which a driver reports as a timing hazard.
    pub fn timeout_raised(&self, requested_timeout_us: u32) -> (r: bool)
        ensures
            r == (requested_timeout_us != 0 && requested_timeout_us < self.latency_timer_us),
    {
        requested_timeout_us != 0 && requested_timeout_us < self.latency_timer_us
    }
}

/// Whether a poll of the generic UART saw a break. A break surfaces there as a
/// single zero byte, so a zero-valued data byte read alone looks the same: the
/// transport cannot tell them apart.
pub fn is_break_byte(bytes_read: usize, byte: u8) -> (r: bool)
    ensures
        r == (bytes_read != 0 && byte == 0),
{
    bytes_read != 0 && byte == 0
}

/// Whether a wait of `elapsed_us` is still within `timeout_us`.
pub fn within_timeout(elapsed_us: u64, timeout_us: u32) -> (r: bool)
    ensures
        r == !(elapsed_us >= timeout_us),
{
    elapsed_us < timeout_us as u64
}

/// What a frame reader does after one read.
#[derive(Debug, Clone, Copy, PartialEq, Eq, Structural)]
pub enum FrameProgress {
    /// Read again; `head` bytes are in the buffer. With `restart_clock` the idle
    /// clock starts over.
    Continue { head: usize, restart_clock: bool },
    /// The frame is complete and holds this many bytes.
    Complete(usize),
    /// Nothing arrived in time.
    TimedOut,
}

/// One step of the generic UART's frame reader. `head` bytes were in the buffer of
/// `capacity` bytes, the read added `bytes_read`, and `elapsed_us` have passed
/// since the idle clock last started. The frame ends when the buffer is full or,
/// once a byte has arrived, when the line has been idle for `INTER_SLOT_MICROS`;
/// with no byte at all the read times out after `timeout_us`.
pub fn no_break_progress(
    head: usize,
    bytes_read: usize,
    capacity: usize,
    elapsed_us: u64,
    timeout_us: u32,
) -> (r: FrameProgress)
    requires
        head + bytes_read <= capacity,
    ensures
        head + bytes_read == capacity ==> r == FrameProgress::Complete(capacity),
        head + bytes_read < capacity && head + bytes_read == 0 && elapsed_us < timeout_us ==> r
            == (FrameProgress::Continue { head: 0, restart_clock: false }),
        head + bytes_read < capacity && head + bytes_read == 0 && elapsed_us >= timeout_us ==> r
            == FrameProgress::TimedOut,
        0 < head + bytes_read < capacity && bytes_read > 0 ==> r == (FrameProgress::Continue {
            head: (head + bytes_read) as usize,
            restart_clock: true,
        }),
        0 < head + bytes_read < capacity && bytes_read == 0 && elapsed_us >= INTER_SLOT_MICROS
            ==> r == FrameProgress::Complete(head),
        0 < head + bytes_read < capacity && bytes_read == 0 && elapsed_us < INTER_SLOT_MICROS
            ==> r == (FrameProgress::Continue { head, restart_clock: false }),
{
    let new_head = head + bytes_read;
    if new_head == capacity {
        return FrameProgress::Complete(new_head);
    }
    if new_head == 0 {
        if elapsed_us < timeout_us as u64 {
            return FrameProgress::Continue { head: 0, restart_clock: false };
        }
        return FrameProgress::TimedOut;
    }
    if bytes_read > 0 {
        FrameProgress::Continue { head: new_head, restart_clock: true }
    } else if elapsed_us >= INTER_SLOT_MICROS {
        FrameProgress::Complete(new_head)
    } else {
        FrameProgress::Continue { head: new_head, restart_clock: false }
    }
}

/// Line faults that the microcontroller UART reports.
#[derive(Debug, Clone, Copy, PartialEq, Eq, Structural)]
pub enum Rp2040DriverError {
    Parity,
    Framing,
    Overflow,
}

impl Rp2040DriverError {
    /// A short description of the fault.
    pub fn message(&self) -> (r: &'static str)
        ensures
            *self == Rp2040DriverError::Parity ==> r@ == "Parity error!"@,
            *self == Rp2040DriverError::Framing ==> r@ == "Framing error!"@,
            *self == Rp2040DriverError::Overflow ==> r@ == "Overflow error!"@,
    {
        match self {
            Rp2040DriverError::Parity => "Parity error!",
            Rp2040DriverError::Framing => "Framing error!",
            Rp2040DriverError::Overflow => "Overflow error!",
        }
    }
}

/// What one non-blocking read of the microcontroller UART reported.
#[derive(Debug, Clone, Copy, PartialEq, Eq, Structural)]
pub enum UartEvent {
    /// This many bytes arrived.
    Received(usize),
    /// The hardware flagged a break.
    Break,
    Overrun,
    Parity,
    Framing,
    /// Nothing was there; `timer_expired` tells whether the countdown has run out.
    WouldBlock { timer_expired: bool },
}

/// What the microcontroller UART does while waiting for a break.
#[derive(Debug, Clone, Copy, PartialEq, Eq, Structural)]
pub enum BreakWait {
    /// Keep waiting; any bytes that arrived belong to an earlier frame and are dropped.
    KeepWaiting,
    /// The break arrived: read the frame.
    BreakDetected,
    TimedOut,
}

/// One step of waiting for a break on the microcontroller UART: only a break ends
/// the wait, only an expired countdown fails it, and bytes or line faults seen
/// meanwhile are dropped.
pub fn break_wait_step(event: UartEvent) -> (r: BreakWait)
    ensures
        event == UartEvent::Break ==> r == BreakWait::BreakDetected,
        event == (UartEvent::WouldBlock { timer_expired: true }) ==> r == BreakWait::TimedOut,
        event != UartEvent::Break && event != (UartEvent::WouldBlock { timer_expired: true })
            ==> r == BreakWait::KeepWaiting,
{
    match event {
        UartEvent::Break => BreakWait::BreakDetected,
        UartEvent::WouldBlock { timer_expired } => if timer_expired {
            BreakWait::TimedOut
        } else {
            BreakWait::KeepWaiting
        },
        _ => BreakWait::KeepWaiting,
    }
}

/// What the microcontroller UART's frame reader does after one read.
#[derive(Debug, Clone, Copy, PartialEq, Eq, Structural)]
pub enum FrameStep {
    /// Read again; `head` bytes are in the buffer. With `restart_timer` the
    /// countdown starts over for `MAXIMUM_MAB_TIME_MILLIS`.
    Continue { head: usize, restart_timer: bool },
    /// The frame is complete and holds this many bytes.
    Complete(usize),
    /// Nothing arrived before the countdown ran out.
    TimedOut,
    /// The line reported a fault.
    Failed(Rp2040DriverError),
}

/// One step of the microcontroller UART's frame reader, with `head` bytes in a
/// buffer of `capacity`. Bytes restart the countdown; a full buffer, a break after
/// at least one byte or an expired countdown after at least one byte end the
/// frame; a break before any byte is noise; an expired countdown before any byte
/// is a timeout; each line fault is reported as itself.
pub fn frame_step(head: usize, capacity: usize, event: UartEvent) -> (r: FrameStep)
    requires
        head < capacity,
        event matches UartEvent::Received(n) ==> head + n <= capacity,
    ensures
        match event {
            UartEvent::Received(n) => if head + n == capacity {
                r == FrameStep::Complete(capacity)
            } else {
                r == (FrameStep::Continue { head: (head + n) as usize, restart_timer: true })
            },
            UartEvent::Break => if head == 0 {
                r == (FrameStep::Continue { head: 0, restart_timer: false })
            } else {
                r == FrameStep::Complete(head)
            },
            UartEvent::Overrun => r == FrameStep::Failed(Rp2040DriverError::Overflow),
            UartEvent::Parity => r == FrameStep::Failed(Rp2040DriverError::Parity),
            UartEvent::Framing => r == FrameStep::Failed(Rp2040DriverError::Framing),
            UartEvent::WouldBlock { timer_expired } => if !timer_expired {
                r == (FrameStep::Continue { head, restart_timer: false })
            } else if head == 0 {
                r == FrameStep::TimedOut
            } else {
                r == FrameStep::Complete(head)
            },
        },
{
    match event {
        UartEvent::Received(n) => {
            let new_head = head + n;
            if new_head == capacity {
                FrameStep::Complete(new_head)
            } else {
                FrameStep::Continue { head: new_head, restart_timer: true }
            }
        },
        UartEvent::Break => if head == 0 {
            FrameStep::Continue { head: 0, restart_timer: false }
        } else {
            FrameStep::Complete(head)
        },
        UartEvent::Overrun => FrameStep::Failed(Rp2040DriverError::Overflow),
        UartEvent::Parity => FrameStep::Failed(Rp2040DriverError::Parity),
        UartEvent::Framing => FrameStep::Failed(Rp2040DriverError::Framing),
        UartEvent::WouldBlock { timer_expired } => if !timer_expired {
            FrameStep::Continue { head, restart_timer: false }
        } else if head == 0 {
            FrameStep::TimedOut
        } else {
            FrameStep::Complete(head)
        },
    }
}

} // verus!
