//! The periodic status emitter as a state machine. Each step builds one
//! synthetic status record and the two publications of it; the caller
//! publishes them, waits a second and steps again, until a step yields
//! nothing.
use vstd::prelude::*;

verus! {

/// How many records one run of the emitter produces.
pub const MONITOR_TICKS: u64 = 10;

/// A synthetic process status record.
#[derive(Clone, Copy, Debug, PartialEq, Eq, Structural)]
pub struct ProcessStatus {
    pub id: u64,
    pub memory_usage: u64,
    /// CPU usage in tenths: the fraction is `cpu_usage_tenths / 10`.
    pub cpu_usage_tenths: u64,
    /// Milliseconds since the Unix epoch when the record was built.
    pub timestamp: u128,
}

/// Where a record is published.
#[derive(Clone, Copy, Debug, PartialEq, Eq, Structural)]
pub enum Channel {
    /// To every listener.
    Global,
    /// To the view that started the emitter.
    View,
}

/// One record to publish on one channel.
#[derive(Clone, Copy, Debug, PartialEq, Eq, Structural)]
pub struct Emission {
    pub channel: Channel,
    pub status: ProcessStatus,
}

/// The record of tick `tick`, stamped with `timestamp`.
pub open spec fn status_at(tick: nat, timestamp: u128) -> ProcessStatus {
    ProcessStatus {
        id: tick as u64,
        memory_usage: (100 + tick * 10) as u64,
        cpu_usage_tenths: (tick % 10) as u64,
        timestamp,
    }
}

/// The ticks done after one more step from `ticks`.
pub open spec fn next_ticks(ticks: nat) -> nat {
    if ticks < MONITOR_TICKS {
        ticks + 1
    } else {
        ticks
    }
}

/// What one step from `ticks` publishes: the record on the global channel,
/// then on the view's channel; nothing once the run is over.
pub open spec fn step_emissions(ticks: nat, timestamp: u128) -> Seq<Emission> {
    if ticks < MONITOR_TICKS {
        seq![
            Emission { channel: Channel::Global, status: status_at(ticks, timestamp) },
            Emission { channel: Channel::View, status: status_at(ticks, timestamp) },
        ]
    } else {
        seq![]
    }
}

/// What a run at `ticks` publishes over successive steps, the step at index
/// `k` stamped with `stamps[k]`.
pub open spec fn run_emissions(ticks: nat, stamps: Seq<u128>) -> Seq<Emission>
    decreases stamps.len(),
{
    if stamps.len() == 0 {
        seq![]
    } else {
        step_emissions(ticks, stamps[0]) + run_emissions(next_ticks(ticks), stamps.drop_first())
    }
}

/// The channel of the publication at index `i` of a run: global first, then
/// the view, for each record.
pub open spec fn channel_at(i: int) -> Channel {
    if i % 2 == 0 {
        Channel::Global
    } else {
        Channel::View
    }
}

proof fn lemma_finished_run_is_silent(ticks: nat, stamps: Seq<u128>)
    requires
        ticks >= MONITOR_TICKS,
    ensures
        run_emissions(ticks, stamps) == Seq::<Emission>::empty(),
    decreases stamps.len(),
{
    if stamps.len() > 0 {
        lemma_finished_run_is_silent(ticks, stamps.drop_first());
        assert(run_emissions(ticks, stamps) =~= Seq::<Emission>::empty());
    }
}

proof fn lemma_run_from(ticks: nat, stamps: Seq<u128>)
    requires
        ticks <= MONITOR_TICKS,
        stamps.len() >= MONITOR_TICKS - ticks,
    ensures
        run_emissions(ticks, stamps) == Seq::new(
            (2 * (MONITOR_TICKS - ticks)) as nat,
            |i: int| Emission { channel: channel_at(i), status: status_at((ticks + i / 2) as nat, stamps[i / 2]) },
        ),
    decreases stamps.len(),
{
    let expected = Seq::new(
        (2 * (MONITOR_TICKS - ticks)) as nat,
        |i: int| Emission { channel: channel_at(i), status: status_at((ticks + i / 2) as nat, stamps[i / 2]) },
    );
    if ticks == MONITOR_TICKS {
        lemma_finished_run_is_silent(ticks, stamps);
        assert(run_emissions(ticks, stamps) =~= expected);
    } else {
        let rest = stamps.drop_first();
        lemma_run_from(ticks + 1, rest);
        assert(run_emissions(ticks, stamps) =~= expected);
    }
}

/// A fresh run, stepped at least as many times as it has ticks, publishes
/// exactly two records per tick, on the global channel and then on the view's,
/// with ids 0, 1, ... in order, and nothing after the last tick.
pub proof fn lemma_run_publishes_each_tick_twice(stamps: Seq<u128>)
    requires
        stamps.len() >= MONITOR_TICKS,
    ensures
        run_emissions(0, stamps) == Seq::new(
            (2 * MONITOR_TICKS) as nat,
            |i: int| Emission { channel: channel_at(i), status: status_at((i / 2) as nat, stamps[i / 2]) },
        ),
        run_emissions(0, stamps).len() == 2 * MONITOR_TICKS,
        forall|i: int| 0 <= i < 2 * MONITOR_TICKS ==> #[trigger] run_emissions(0, stamps)[i].status.id == i / 2,
{
    lemma_run_from(0, stamps);
    assert(Seq::new(
        (2 * MONITOR_TICKS) as nat,
        |i: int| Emission { channel: channel_at(i), status: status_at((0 + i / 2) as nat, stamps[i / 2]) },
    ) =~= Seq::new(
        (2 * MONITOR_TICKS) as nat,
        |i: int| Emission { channel: channel_at(i), status: status_at((i / 2) as nat, stamps[i / 2]) },
    ));
}

impl Channel {
    /// The name of the event that carries a record on this channel.
    pub fn event_name(&self) -> (r: String)
        ensures
            r@ == (match self {
                Channel::Global => "process-status"@,
                Channel::View => "window-process-status"@,
            }),
    {
        match self {
            Channel::Global => String::from_str("process-status"),
            Channel::View => String::from_str("window-process-status"),
        }
    }
}

/// The state of one run of the emitter: how many records it has produced.
pub struct Monitor {
    ticks: u64,
}

impl View for Monitor {
    type V = nat;

    closed spec fn view(&self) -> nat {
        self.ticks as nat
    }
}

impl Monitor {
    /// A run that has produced nothing yet.
    pub fn new() -> (r: Monitor)
        ensures
            r@ == 0,
    {
        Monitor { ticks: 0 }
    }

    /// Whether the run is over: every record has been produced.
    pub fn is_finished(&self) -> (r: bool)
        ensures
            r == (self@ >= MONITOR_TICKS),
    {
        self.ticks >= MONITOR_TICKS
    }

    /// Produces the publications of the next record, stamped with
    /// `timestamp`, or nothing once the run is over.
    pub fn step(&mut self, timestamp: u128) -> (r: Vec<Emission>)
        ensures
            final(self)@ == next_ticks(old(self)@),
            r@ == step_emissions(old(self)@, timestamp),
    {
        if self.ticks >= MONITOR_TICKS {
            return Vec::new();
        }
        let tick = self.ticks;
        let status = ProcessStatus {
            id: tick,
            memory_usage: 100 + tick * 10,
            cpu_usage_tenths: tick % 10,
            timestamp,
        };
        let mut r = Vec::new();
        r.push(Emission { channel: Channel::Global, status });
        r.push(Emission { channel: Channel::View, status });
        self.ticks = tick + 1;
        assert(r@ =~= step_emissions(old(self)@, timestamp));
        r
    }
}

} // verus!
