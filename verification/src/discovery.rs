//! Device discovery: the sensor answers at one of two bus addresses, so its
//! initialization is tried at the primary address first and at the secondary
//! address if that fails.
//!
//! Discovery is a state machine:
//! `Start -> TryPrimary -> Done | TrySecondary -> Done | Failed`. The firmware
//! carries out each `Probe` on the bus and answers with the outcome.

use vstd::prelude::*;

verus! {

/// The two bus addresses at which the sensor may answer.
#[derive(Debug, Clone, Copy, PartialEq, Eq)]
pub enum SensorAddress {
    Primary,
    Secondary,
}

/// How a device's initialization sequence ended.
#[derive(Debug, Clone, Copy, PartialEq, Eq)]
pub enum InitOutcome {
    /// The device acknowledged the initialization.
    Acknowledged,
    /// The device was reached but did not identify itself.
    Refused,
    /// A transfer failed or the device answered with something unexpected.
    Fault,
}

impl InitOutcome {
    /// Only an acknowledged initialization counts as a success.
    pub open spec fn succeeded(self) -> bool {
        self is Acknowledged
    }
}

/// What the firmware reports back to discovery.
#[derive(Debug, Clone, Copy, PartialEq, Eq)]
pub enum DiscoveryEvent {
    /// Discovery is to begin.
    Begin,
    /// The initialization asked for by the last `Probe` ended this way.
    Initialized(InitOutcome),
}

/// What the firmware has to do next for discovery.
#[derive(Debug, Clone, Copy, PartialEq, Eq)]
pub enum DiscoveryCommand {
    /// Take the endpoint (back from the handle that failed, if there is one),
    /// bind a handle to it at this address and run the device's
    /// initialization. Answer with `Initialized`.
    Probe(SensorAddress),
    /// The handle bound at this address is the sensor handle. Discovery is over.
    Deliver(SensorAddress),
    /// Take the endpoint back from the handle that failed. There is no sensor
    /// handle, and discovery is over.
    GiveUp,
    /// The event did not belong to the state discovery is in.
    Nothing,
}

/// Where discovery stands.
#[derive(Debug, Clone, Copy, PartialEq, Eq)]
pub enum DiscoveryState {
    /// Nothing was tried yet.
    Start,
    /// The initialization at the primary address is in flight.
    TryPrimary,
    /// The initialization at the secondary address is in flight.
    TrySecondary,
    /// The sensor was initialized at this address.
    Done(SensorAddress),
    /// The sensor answered at neither address.
    Failed,
}

/// Why discovery produced no sensor handle.
#[derive(Debug, Clone, Copy, PartialEq, Eq)]
pub enum DiscoveryError {
    /// The sensor acknowledged its initialization at neither address.
    NotFound,
}

/// The address of the sensor handle in `state`: there is one exactly in `Done`.
pub open spec fn handle_of(state: DiscoveryState) -> Option<SensorAddress> {
    match state {
        DiscoveryState::Done(found) => Some(found),
        _ => None,
    }
}

/// How a discovery in `state` ended: with a handle, with an error, or not yet.
pub open spec fn result_of(state: DiscoveryState) -> Option<Result<SensorAddress, DiscoveryError>> {
    match state {
        DiscoveryState::Done(found) => Some(Ok(found)),
        DiscoveryState::Failed => Some(Err(DiscoveryError::NotFound)),
        _ => None,
    }
}

/// One step of discovery: the state and the command that follow from `state`
/// and `event`.
pub open spec fn transition(state: DiscoveryState, event: DiscoveryEvent) -> (
    DiscoveryState,
    DiscoveryCommand,
) {
    match (state, event) {
        (DiscoveryState::Start, DiscoveryEvent::Begin) => (
            DiscoveryState::TryPrimary,
            DiscoveryCommand::Probe(SensorAddress::Primary),
        ),
        (DiscoveryState::TryPrimary, DiscoveryEvent::Initialized(outcome)) => {
            if outcome.succeeded() {
                (
                    DiscoveryState::Done(SensorAddress::Primary),
                    DiscoveryCommand::Deliver(SensorAddress::Primary),
                )
            } else {
                (DiscoveryState::TrySecondary, DiscoveryCommand::Probe(SensorAddress::Secondary))
            }
        },
        (DiscoveryState::TrySecondary, DiscoveryEvent::Initialized(outcome)) => {
            if outcome.succeeded() {
                (
                    DiscoveryState::Done(SensorAddress::Secondary),
                    DiscoveryCommand::Deliver(SensorAddress::Secondary),
                )
            } else {
                (DiscoveryState::Failed, DiscoveryCommand::GiveUp)
            }
        },
        _ => (state, DiscoveryCommand::Nothing),
    }
}

/// What a whole discovery amounts to.
pub struct DiscoveryRun {
    /// The state reached.
    pub state: DiscoveryState,
    /// The addresses probed, in order.
    pub probes: Seq<SensorAddress>,
    /// The command issued last.
    pub last: DiscoveryCommand,
}

/// The probes of a run so far, extended by `command` if it is a probe.
pub open spec fn with_probe(probes: Seq<SensorAddress>, command: DiscoveryCommand) -> Seq<
    SensorAddress,
> {
    match command {
        DiscoveryCommand::Probe(address) => probes.push(address),
        _ => probes,
    }
}

/// Discovery from `Start`, begun and then answered with `outcomes` in order.
pub open spec fn run(outcomes: Seq<InitOutcome>) -> DiscoveryRun
    decreases outcomes.len(),
{
    if outcomes.len() == 0 {
        let first = transition(DiscoveryState::Start, DiscoveryEvent::Begin);
        DiscoveryRun { state: first.0, probes: with_probe(Seq::empty(), first.1), last: first.1 }
    } else {
        let before = run(outcomes.drop_last());
        let next = transition(before.state, DiscoveryEvent::Initialized(outcomes.last()));
        DiscoveryRun { state: next.0, probes: with_probe(before.probes, next.1), last: next.1 }
    }
}

impl DiscoveryState {
    /// Advances discovery by one event and says what the firmware has to do
    /// next.
    pub fn step(self, event: DiscoveryEvent) -> (next: (DiscoveryState, DiscoveryCommand))
        ensures
            next == transition(self, event),
    {
        match (self, event) {
            (DiscoveryState::Start, DiscoveryEvent::Begin) => (
                DiscoveryState::TryPrimary,
                DiscoveryCommand::Probe(SensorAddress::Primary),
            ),
            (DiscoveryState::TryPrimary, DiscoveryEvent::Initialized(outcome)) => {
                match outcome {
                    InitOutcome::Acknowledged => (
                        DiscoveryState::Done(SensorAddress::Primary),
                        DiscoveryCommand::Deliver(SensorAddress::Primary),
                    ),
                    _ => (
                        DiscoveryState::TrySecondary,
                        DiscoveryCommand::Probe(SensorAddress::Secondary),
                    ),
                }
            },
            (DiscoveryState::TrySecondary, DiscoveryEvent::Initialized(outcome)) => {
                match outcome {
                    InitOutcome::Acknowledged => (
                        DiscoveryState::Done(SensorAddress::Secondary),
                        DiscoveryCommand::Deliver(SensorAddress::Secondary),
                    ),
                    _ => (DiscoveryState::Failed, DiscoveryCommand::GiveUp),
                }
            },
            (state, _) => (state, DiscoveryCommand::Nothing),
        }
    }

    /// The address of the sensor handle, if discovery produced one.
    pub fn handle(&self) -> (address: Option<SensorAddress>)
        ensures
            address == handle_of(*self),
    {
        match self {
            DiscoveryState::Done(found) => Some(*found),
            _ => None,
        }
    }

    /// How discovery ended, or `None` while it is not over.
    pub fn result(&self) -> (result: Option<Result<SensorAddress, DiscoveryError>>)
        ensures
            result == result_of(*self),
    {
        match self {
            DiscoveryState::Done(found) => Some(Ok(*found)),
            DiscoveryState::Failed => Some(Err(DiscoveryError::NotFound)),
            _ => None,
        }
    }
}

/// Once discovery is over, no event changes its state or asks for anything.
pub proof fn lemma_over_is_final(state: DiscoveryState, event: DiscoveryEvent)
    requires
        state is Done || state is Failed,
    ensures
        transition(state, event) == (state, DiscoveryCommand::Nothing),
{
}

/// A run that is over stays as it is, whatever outcomes follow.
proof fn lemma_run_settles(outcomes: Seq<InitOutcome>, settled: int)
    requires
        0 <= settled <= outcomes.len(),
        run(outcomes.take(settled)).state is Done || run(outcomes.take(settled)).state is Failed,
    ensures
        run(outcomes).state == run(outcomes.take(settled)).state,
        run(outcomes).probes == run(outcomes.take(settled)).probes,
    decreases outcomes.len() - settled,
{
    if settled == outcomes.len() {
        assert(outcomes.take(settled) == outcomes);
    } else {
        let longer = outcomes.take(settled + 1);
        assert(longer.drop_last() == outcomes.take(settled));
        lemma_run_settles(outcomes, settled + 1);
    }
}

/// Whatever the outcomes, the primary address is probed first and each
/// address at most once.
pub proof fn lemma_probes_in_order(outcomes: Seq<InitOutcome>)
    ensures
        run(outcomes).probes == seq![SensorAddress::Primary] || run(outcomes).probes
            == seq![SensorAddress::Primary, SensorAddress::Secondary],
        run(outcomes).state is TryPrimary ==> run(outcomes).probes == seq![SensorAddress::Primary],
        run(outcomes).state is TrySecondary || run(outcomes).state is Failed ==> run(
            outcomes,
        ).probes == seq![SensorAddress::Primary, SensorAddress::Secondary],
        !(run(outcomes).state is Start),
    decreases outcomes.len(),
{
    if outcomes.len() == 0 {
        assert(run(outcomes).probes == seq![SensorAddress::Primary]);
    } else {
        lemma_probes_in_order(outcomes.drop_last());
        let before = run(outcomes.drop_last());
        if before.state is TryPrimary {
            assert(before.probes.push(SensorAddress::Secondary) == seq![
                SensorAddress::Primary,
                SensorAddress::Secondary,
            ]);
        }
    }
}

/// If the sensor acknowledges at the primary address, discovery ends with the
/// handle at the primary address and the secondary address is never probed.
pub proof fn lemma_primary_success(outcomes: Seq<InitOutcome>)
    requires
        outcomes.len() >= 1,
        outcomes[0].succeeded(),
    ensures
        run(outcomes).state == DiscoveryState::Done(SensorAddress::Primary),
        handle_of(run(outcomes).state) == Some(SensorAddress::Primary),
        run(outcomes).probes == seq![SensorAddress::Primary],
{
    let first = outcomes.take(1);
    assert(first.drop_last() == Seq::<InitOutcome>::empty());
    assert(first.last() == outcomes[0]);
    assert(run(first.drop_last()).probes == seq![SensorAddress::Primary]);
    assert(run(first).probes == seq![SensorAddress::Primary]);
    lemma_run_settles(outcomes, 1);
}

/// If the primary address fails and the sensor acknowledges at the secondary
/// address, discovery ends with the handle at the secondary address.
pub proof fn lemma_secondary_success(outcomes: Seq<InitOutcome>)
    requires
        outcomes.len() >= 2,
        !outcomes[0].succeeded(),
        outcomes[1].succeeded(),
    ensures
        run(outcomes).state == DiscoveryState::Done(SensorAddress::Secondary),
        handle_of(run(outcomes).state) == Some(SensorAddress::Secondary),
        run(outcomes).probes == seq![SensorAddress::Primary, SensorAddress::Secondary],
{
    lemma_two_failures_or_fallback(outcomes);
    lemma_run_settles(outcomes, 2);
}

/// If both addresses fail, discovery ends in `Failed`: there is no handle, and
/// the last command was to give up.
pub proof fn lemma_both_fail(outcomes: Seq<InitOutcome>)
    requires
        outcomes.len() >= 2,
        !outcomes[0].succeeded(),
        !outcomes[1].succeeded(),
    ensures
        run(outcomes).state == DiscoveryState::Failed,
        handle_of(run(outcomes).state) is None,
        result_of(run(outcomes).state) == Some(
            Err::<SensorAddress, DiscoveryError>(DiscoveryError::NotFound),
        ),
        run(outcomes).probes == seq![SensorAddress::Primary, SensorAddress::Secondary],
        run(outcomes.take(2)).last == DiscoveryCommand::GiveUp,
{
    lemma_two_failures_or_fallback(outcomes);
    lemma_run_settles(outcomes, 2);
}

/// After a failure at the primary address the second outcome decides.
proof fn lemma_two_failures_or_fallback(outcomes: Seq<InitOutcome>)
    requires
        outcomes.len() >= 2,
        !outcomes[0].succeeded(),
    ensures
        run(outcomes.take(2)).probes == seq![SensorAddress::Primary, SensorAddress::Secondary],
        outcomes[1].succeeded() ==> run(outcomes.take(2)).state == DiscoveryState::Done(
            SensorAddress::Secondary,
        ),
        !outcomes[1].succeeded() ==> run(outcomes.take(2)).state == DiscoveryState::Failed,
        !outcomes[1].succeeded() ==> run(outcomes.take(2)).last == DiscoveryCommand::GiveUp,
{
    let two = outcomes.take(2);
    let one = two.drop_last();
    assert(one.drop_last() == Seq::<InitOutcome>::empty());
    assert(one.last() == outcomes[0]);
    assert(two.last() == outcomes[1]);
    assert(run(one.drop_last()).probes == seq![SensorAddress::Primary]);
    assert(run(one).state == DiscoveryState::TrySecondary);
    assert(run(one).probes == seq![SensorAddress::Primary, SensorAddress::Secondary]);
    assert(run(two).probes == seq![SensorAddress::Primary, SensorAddress::Secondary]);
}

} // verus!
