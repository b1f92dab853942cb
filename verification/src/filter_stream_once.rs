//! The polling state machine of one subscription.
//!
//! Each subscription repeats a fixed cycle: wait for the next timer tick,
//! fetch the new log entries matching its server-side filter, and emit the
//! fetched batch one entry at a time.  The machine here decides every
//! transition; the driver around it owns the timer, the pending fetch call
//! and the cancellation receiver, feeds in what it observed, and performs
//! the step the machine hands back.  The cancellation signal is observed
//! only at the top of a wait cycle: a fetch already in flight is never
//! interrupted, and a batch in hand is still delivered; the stream ends at
//! the next return to waiting.  A transport failure ends it too and is
//! never retried here.

use vstd::prelude::*;

verus! {

/// Where a subscription's cycle stands.
pub enum FilterStreamState<I> {
    /// Suspended until the next tick of the periodic timer.
    WaitForInterval,
    /// A get-filter-changes call is in flight.
    GetFilterChanges,
    /// Emitting the fetched batch; the entries not yet delivered.
    NextItem(Vec<I>),
}

/// The mathematical value of a machine state.
pub enum StreamStateModel<I> {
    Wait,
    Fetch,
    Batch(Seq<I>),
}

/// What the driver observed since the machine last decided.
pub enum PollEvent<I> {
    /// The cancellation signal has fired.
    Cancel,
    /// The interval timer has not ticked yet.
    TimerPending,
    /// The interval timer ticked.
    TimerTick,
    /// The pending fetch has not resolved yet.
    FetchPending,
    /// The fetch resolved with a batch of entries, in node-return order.
    FetchDone(Vec<I>),
    /// The fetch failed with a transport error.
    FetchFailed,
    /// The driver asks for the next entry of the current batch.
    Next,
}

/// The mathematical value of an observation.
pub enum PollEventModel<I> {
    Cancel,
    TimerPending,
    TimerTick,
    FetchPending,
    FetchDone(Seq<I>),
    FetchFailed,
    Next,
}

impl<I> View for PollEvent<I> {
    type V = PollEventModel<I>;

    open spec fn view(&self) -> PollEventModel<I> {
        match self {
            PollEvent::Cancel => PollEventModel::Cancel,
            PollEvent::TimerPending => PollEventModel::TimerPending,
            PollEvent::TimerTick => PollEventModel::TimerTick,
            PollEvent::FetchPending => PollEventModel::FetchPending,
            PollEvent::FetchDone(items) => PollEventModel::FetchDone(items@),
            PollEvent::FetchFailed => PollEventModel::FetchFailed,
            PollEvent::Next => PollEventModel::Next,
        }
    }
}

/// What the driver must do after a decision.
pub enum PollStep<I> {
    /// Nothing until an observed source is ready.
    Pending,
    /// Issue the get-filter-changes call now.
    BeginFetch,
    /// Hand this entry to the callback sink, then ask for the next.
    Deliver(I),
    /// The batch is drained: wait for the next timer tick.
    Idle,
    /// The stream is finished; no further entries.
    Ended,
    /// The transport failed; forward the error and end the task.
    Failed,
}

/// The mathematical value of a decision.
pub enum PollStepModel<I> {
    Pending,
    BeginFetch,
    Deliver(I),
    Idle,
    Ended,
    Failed,
}

impl<I> View for PollStep<I> {
    type V = PollStepModel<I>;

    open spec fn view(&self) -> PollStepModel<I> {
        match self {
            PollStep::Pending => PollStepModel::Pending,
            PollStep::BeginFetch => PollStepModel::BeginFetch,
            PollStep::Deliver(item) => PollStepModel::Deliver(*item),
            PollStep::Idle => PollStepModel::Idle,
            PollStep::Ended => PollStepModel::Ended,
            PollStep::Failed => PollStepModel::Failed,
        }
    }
}

/// The state after a decision.  A cancellation, a pending source, a
/// transport failure, and an observation that does not belong to the
/// current state all leave the state as it stands.
pub open spec fn next_state<I>(s: StreamStateModel<I>, ev: PollEventModel<I>) -> StreamStateModel<
    I,
> {
    match ev {
        PollEventModel::Cancel => s,
        PollEventModel::TimerTick => if s is Wait {
            StreamStateModel::Fetch
        } else {
            s
        },
        PollEventModel::FetchDone(items) => if s is Fetch {
            if items.len() > 0 {
                StreamStateModel::Batch(items.subrange(1, items.len() as int))
            } else {
                StreamStateModel::Wait
            }
        } else {
            s
        },
        PollEventModel::Next => if s is Batch {
            if s->Batch_0.len() > 0 {
                StreamStateModel::Batch(s->Batch_0.subrange(1, s->Batch_0.len() as int))
            } else {
                StreamStateModel::Wait
            }
        } else {
            s
        },
        _ => s,
    }
}

/// The step a decision hands back to the driver.
pub open spec fn step_of<I>(s: StreamStateModel<I>, ev: PollEventModel<I>) -> PollStepModel<I> {
    match ev {
        PollEventModel::Cancel => if s is Wait {
            PollStepModel::Ended
        } else {
            PollStepModel::Pending
        },
        PollEventModel::TimerPending => PollStepModel::Pending,
        PollEventModel::TimerTick => if s is Wait {
            PollStepModel::BeginFetch
        } else {
            PollStepModel::Pending
        },
        PollEventModel::FetchPending => PollStepModel::Pending,
        PollEventModel::FetchDone(items) => if s is Fetch {
            if items.len() > 0 {
                PollStepModel::Deliver(items[0])
            } else {
                PollStepModel::Idle
            }
        } else {
            PollStepModel::Pending
        },
        PollEventModel::FetchFailed => if s is Fetch {
            PollStepModel::Failed
        } else {
            PollStepModel::Pending
        },
        PollEventModel::Next => if s is Batch {
            if s->Batch_0.len() > 0 {
                PollStepModel::Deliver(s->Batch_0[0])
            } else {
                PollStepModel::Idle
            }
        } else {
            PollStepModel::Pending
        },
    }
}

/// One subscription's polling state machine.
pub struct FilterStreamOnce<I> {
    state: FilterStreamState<I>,
}

impl<I> View for FilterStreamOnce<I> {
    type V = StreamStateModel<I>;

    closed spec fn view(&self) -> StreamStateModel<I> {
        match &self.state {
            FilterStreamState::WaitForInterval => StreamStateModel::Wait,
            FilterStreamState::GetFilterChanges => StreamStateModel::Fetch,
            FilterStreamState::NextItem(items) => StreamStateModel::Batch(items@),
        }
    }
}

impl<I> FilterStreamOnce<I> {
    /// A fresh machine, waiting for the first timer tick.
    pub fn new() -> (r: Self)
        ensures
            r@ is Wait,
    {
        FilterStreamOnce { state: FilterStreamState::WaitForInterval }
    }

    /// Decides one transition from the driver's observation.
    pub fn poll(&mut self, ev: PollEvent<I>) -> (r: PollStep<I>)
        ensures
            final(self)@ == next_state(old(self)@, ev@),
            r@ == step_of(old(self)@, ev@),
    {
        match ev {
            PollEvent::Cancel => {
                match &self.state {
                    FilterStreamState::WaitForInterval => PollStep::Ended,
                    _ => PollStep::Pending,
                }
            },
            PollEvent::TimerPending => PollStep::Pending,
            PollEvent::TimerTick => {
                match &self.state {
                    FilterStreamState::WaitForInterval => {
                        self.state = FilterStreamState::GetFilterChanges;
                        PollStep::BeginFetch
                    },
                    _ => PollStep::Pending,
                }
            },
            PollEvent::FetchPending => PollStep::Pending,
            PollEvent::FetchDone(mut items) => {
                match &self.state {
                    FilterStreamState::GetFilterChanges => {
                        if items.len() > 0 {
                            let ghost items0 = items@;
                            let first = items.remove(0);
                            proof {
                                assert(items@ =~= items0.subrange(1, items0.len() as int));
                            }
                            self.state = FilterStreamState::NextItem(items);
                            PollStep::Deliver(first)
                        } else {
                            self.state = FilterStreamState::WaitForInterval;
                            PollStep::Idle
                        }
                    },
                    _ => PollStep::Pending,
                }
            },
            PollEvent::FetchFailed => {
                match &self.state {
                    FilterStreamState::GetFilterChanges => PollStep::Failed,
                    _ => PollStep::Pending,
                }
            },
            PollEvent::Next => {
                let mut taken = FilterStreamState::WaitForInterval;
                core::mem::swap(&mut self.state, &mut taken);
                match taken {
                    FilterStreamState::NextItem(mut rest) => {
                        if rest.len() > 0 {
                            let ghost rest0 = rest@;
                            let first = rest.remove(0);
                            proof {
                                assert(rest@ =~= rest0.subrange(1, rest0.len() as int));
                            }
                            self.state = FilterStreamState::NextItem(rest);
                            PollStep::Deliver(first)
                        } else {
                            self.state = FilterStreamState::WaitForInterval;
                            PollStep::Idle
                        }
                    },
                    other => {
                        self.state = other;
                        PollStep::Pending
                    },
                }
            },
        }
    }
}

} // verus!
