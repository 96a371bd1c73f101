use vstd::prelude::*;
use crate::error::AppError;
use crate::escape::{assemble_spec, cleaned, clear_home_seq, fragment_ok, is_record, EscapeSequenceCleaner};
use crate::table::ContainerTable;
use crate::text::is_prefix;

verus! {

/// What the ingestion side does with a line it has read.
pub enum LineOutcome {
    /// Cancellation was requested: stop reading.
    Stop,
    /// Nothing to parse in this line.
    Skip,
    /// A candidate record, to be parsed and recorded.
    Candidate(String),
}

/// The decisions of the ingestion side: a line at a time, which records reach
/// the table and when the table starts over.
pub struct Ingestion {
    cleaner: EscapeSequenceCleaner,
}

impl Ingestion {
    /// The start of a record still waiting for its end.
    pub closed spec fn pending(&self) -> Seq<char> {
        self.cleaner.pending()
    }

    pub fn new() -> (r: Self)
        ensures
            r.pending() == Seq::<char>::empty(),
            fragment_ok(r.pending()),
    {
        Ingestion { cleaner: EscapeSequenceCleaner::new() }
    }

    /// Handles one line read from the producer. Unless cancellation was
    /// requested, a redraw signal empties the table, and the line goes through
    /// the cleaner; a candidate that comes out is handed back for parsing.
    pub fn on_line(&mut self, cancelled: bool, table: &mut ContainerTable, line: String) -> (r: LineOutcome)
        requires
            old(table).wf(),
        ensures
            final(table).wf(),
            cancelled ==> r is Stop && final(table).view() == old(table).view()
                && final(self).pending() == old(self).pending(),
            !cancelled && is_prefix(clear_home_seq(), line@) ==> final(table).view().len() == 0,
            !cancelled && !is_prefix(clear_home_seq(), line@) ==> final(table).view() == old(table).view(),
            !cancelled ==> !(r is Stop),
            !cancelled ==> match cleaned(line@) {
                None => r is Skip && final(self).pending() == old(self).pending(),
                Some(c) => {
                    let (p, o) = assemble_spec(old(self).pending(), c);
                    &&& final(self).pending() == p
                    &&& match r {
                        LineOutcome::Candidate(s) => o == Some(s@),
                        _ => o is None,
                    }
                },
            },
            r matches LineOutcome::Candidate(s) ==> is_record(s@),
            fragment_ok(old(self).pending()) ==> fragment_ok(final(self).pending()),
    {
        if cancelled {
            return LineOutcome::Stop;
        }
        if EscapeSequenceCleaner::is_screen_clear_event(line.as_str()) {
            table.clear();
        }
        match self.cleaner.process_line(line) {
            Some(c) => LineOutcome::Candidate(c),
            None => LineOutcome::Skip,
        }
    }
}

/// How the producer's run ends once its output is closed: a failed exit is an
/// error unless the user asked to stop.
pub fn reader_outcome(cancelled: bool, exit_success: bool) -> (r: Result<(), AppError>)
    ensures
        r is Ok <==> (cancelled || exit_success),
        r matches Err(e) ==> e is DockerNotRunning,
{
    if cancelled {
        return Ok(());
    }
    if !exit_success {
        return Err(AppError::DockerNotRunning);
    }
    Ok(())
}

/// What the render side learned from the heartbeat signal since its last tick.
#[derive(Debug, Clone, Copy, PartialEq, Eq, Structural)]
pub enum HeartbeatPoll {
    /// At least one heartbeat arrived.
    Seen,
    /// None arrived.
    Quiet,
    /// The ingestion side is gone.
    Closed,
}

/// What the render side does after a tick.
#[derive(Debug, Clone, Copy, PartialEq, Eq, Structural)]
pub enum TickAction {
    /// Leave the render loop.
    Stop,
    /// Draw the table as it now stands.
    Render,
}

/// Time passed from `since` to `now`, or none where the clock reads earlier.
pub open spec fn elapsed(since: u64, now: u64) -> int {
    if now >= since {
        now - since
    } else {
        0
    }
}

/// Watches the heartbeat and empties the table once the data has gone stale.
pub struct StalenessMonitor {
    last_heartbeat: u64,
    timeout: u64,
}

impl StalenessMonitor {
    /// When the last heartbeat was taken into account.
    pub closed spec fn last(&self) -> u64 {
        self.last_heartbeat
    }

    /// How long the data stays fresh without a heartbeat.
    pub closed spec fn window(&self) -> u64 {
        self.timeout
    }

    /// A monitor started at `now`, with the given staleness window.
    pub fn new(now: u64, timeout: u64) -> (r: Self)
        ensures
            r.last() == now,
            r.window() == timeout,
    {
        StalenessMonitor { last_heartbeat: now, timeout }
    }

    /// One tick at time `now`: a heartbeat refreshes the clock; with none for
    /// longer than the window the table is emptied and the clock reset.
    pub fn tick(&mut self, cancelled: bool, poll: HeartbeatPoll, now: u64, table: &mut ContainerTable) -> (r: TickAction)
        requires
            old(table).wf(),
        ensures
            final(table).wf(),
            final(self).window() == old(self).window(),
            r == (if cancelled || poll == HeartbeatPoll::Closed { TickAction::Stop } else { TickAction::Render }),
            r == TickAction::Stop ==> *final(self) == *old(self) && final(table).view() == old(table).view(),
            !cancelled && poll == HeartbeatPoll::Seen ==> final(self).last() == now
                && final(table).view() == old(table).view(),
            !cancelled && poll == HeartbeatPoll::Quiet && elapsed(old(self).last(), now) > old(self).window()
                ==> final(self).last() == now && final(table).view().len() == 0,
            !cancelled && poll == HeartbeatPoll::Quiet && elapsed(old(self).last(), now) <= old(self).window()
                ==> *final(self) == *old(self) && final(table).view() == old(table).view(),
    {
        if cancelled {
            return TickAction::Stop;
        }
        match poll {
            HeartbeatPoll::Closed => TickAction::Stop,
            HeartbeatPoll::Seen => {
                self.last_heartbeat = now;
                TickAction::Render
            },
            HeartbeatPoll::Quiet => {
                let waited: u64 = if now >= self.last_heartbeat {
                    now - self.last_heartbeat
                } else {
                    0
                };
                if waited > self.timeout {
                    table.clear();
                    self.last_heartbeat = now;
                }
                TickAction::Render
            },
        }
    }
}

} // verus!
