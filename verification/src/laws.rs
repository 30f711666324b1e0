//! What holds of every run, stated over the models that the contracts use.

use vstd::prelude::*;
use crate::address::{address_of, lemma_empty_text_is_no_address, Ipv4Address};
use crate::configurator::{echoed_address, validation, ConfiguratorView, Phase, StageView};
use crate::failure::{LookupFailure, ReconcileError};
use crate::lookup::{public_address, published_record, ObservationView};
use crate::reconciler::{outcome, pending, step, ActionView, EventView};
use crate::record::{is_candidate, lemma_selection_exists, DnsRecordView, RecordContent};

verus! {

/// Whatever the event, a stage that obeys what its state says of the two
/// addresses leads to one that does so too.
pub proof fn lemma_step_keeps_stages_well_formed(stage: StageView, event: EventView)
    requires
        stage.wf(),
    ensures
        step(stage, event) matches Ok(next) ==> next.wf(),
{
}

/// Where both reads are good, a validation keeps exactly what was read, and
/// finds the configurator valid where the two addresses are equal, invalid
/// where they differ. What the configurator held before, the configured
/// address and whether the record was rewritten, has no part in it.
pub proof fn lemma_validation_compares_what_was_read(
    configurator: ConfiguratorView,
    observation: ObservationView,
    actual_ip: Ipv4Address,
    configured_ip: Ipv4Address,
    record_id: Seq<char>,
)
    requires
        public_address(observation.public_ip) == Ok::<Ipv4Address, LookupFailure>(actual_ip),
        published_record(observation.records, configurator.site) == Ok::<
            (Ipv4Address, Seq<char>),
            LookupFailure,
        >((configured_ip, record_id)),
    ensures
        validation(configurator, observation) == Ok::<StageView, ReconcileError>(
            StageView {
                phase: if actual_ip == configured_ip {
                    Phase::Valid
                } else {
                    Phase::Invalid
                },
                configurator: ConfiguratorView {
                    actual_ip,
                    configured_ip,
                    record_id,
                    ..configurator
                },
            },
        ),
{
}

/// Whatever the event, a stage in which a write is due only where none has
/// been made leads to one of which this holds too.
pub proof fn lemma_step_keeps_runs_capped(stage: StageView, event: EventView)
    requires
        stage.capped(),
    ensures
        step(stage, event) matches Ok(next) ==> next.capped(),
{
}

/// Over a whole run, a write is due only where none has been made: this holds
/// of every stage that a run of events leads to from a stage of which it holds,
/// as it does of the stage that a run starts in.
pub proof fn lemma_run_stays_capped(stage: StageView, events: Seq<EventView>)
    requires
        stage.capped(),
    ensures
        outcome(stage, events) matches Ok(reached) ==> reached.capped(),
    decreases events.len(),
{
    if events.len() > 0 {
        match step(stage, events.first()) {
            Ok(next) => {
                lemma_run_stays_capped(next, events.drop_first());
            },
            Err(_) => {},
        }
    }
}

/// A valid stage is final: whatever events follow, the stage stays as it is,
/// and the action due stays to finish.
pub proof fn lemma_valid_is_final(valid: StageView, events: Seq<EventView>)
    requires
        valid.phase is Valid,
    ensures
        outcome(valid, events) == Ok::<StageView, ReconcileError>(valid),
        pending(valid) is Finish,
    decreases events.len(),
{
    if events.len() > 0 {
        lemma_valid_is_final(valid, events.drop_first());
    }
}

/// Where the public address already is the published one, the validation
/// finds the configurator valid. Nothing is then to be written: the action due
/// is to finish, and no run of later events changes that.
pub proof fn lemma_agreement_asks_for_no_update(
    configurator: ConfiguratorView,
    observation: ObservationView,
    address: Ipv4Address,
    record_id: Seq<char>,
    later: Seq<EventView>,
)
    requires
        public_address(observation.public_ip) == Ok::<Ipv4Address, LookupFailure>(address),
        published_record(observation.records, configurator.site) == Ok::<
            (Ipv4Address, Seq<char>),
            LookupFailure,
        >((address, record_id)),
    ensures
        ({
            let start = StageView { phase: Phase::Unvalidated, configurator };
            &&& step(start, EventView::Observed(observation)) matches Ok(reached)
            &&& reached.phase is Valid
            &&& reached.configurator.actual_ip == address
            &&& reached.configurator.configured_ip == address
            &&& pending(reached) is Finish
            &&& outcome(reached, later) == Ok::<StageView, ReconcileError>(reached)
        }),
{
    let start = StageView { phase: Phase::Unvalidated, configurator };
    lemma_valid_is_final(step(start, EventView::Observed(observation))->Ok_0, later);
}

/// Whom a run acts for never changes: whatever the event, the stage it leads to
/// holds the credential, the host and the zone that the run began with.
pub proof fn lemma_step_keeps_configuration(stage: StageView, event: EventView)
    ensures
        step(stage, event) matches Ok(next) ==> next.configurator.token == stage.configurator.token,
        step(stage, event) matches Ok(next) ==> next.configurator.site == stage.configurator.site,
        step(stage, event) matches Ok(next) ==> next.configurator.zone == stage.configurator.zone,
{
}

/// Where the addresses differ, the provider accepts the write, and the reads
/// that follow show the written address on both sides, one write and one more
/// validation reach the valid state.
pub proof fn lemma_applied_update_converges(
    invalid: StageView,
    echo: Option<RecordContent>,
    observation: ObservationView,
    record_id: Seq<char>,
)
    requires
        invalid.phase is Invalid,
        invalid.wf(),
        echoed_address(echo) is Ok,
        public_address(observation.public_ip) == Ok::<Ipv4Address, LookupFailure>(
            invalid.configurator.actual_ip,
        ),
        published_record(observation.records, invalid.configurator.site) == Ok::<
            (Ipv4Address, Seq<char>),
            LookupFailure,
        >((invalid.configurator.actual_ip, record_id)),
    ensures
        ({
            &&& pending(invalid) matches ActionView::Update(request)
            &&& request.content == invalid.configurator.actual_ip
            &&& request.identifier == invalid.configurator.record_id
            &&& step(invalid, EventView::Updated(echo)) matches Ok(rewritten)
            &&& rewritten.phase is Unvalidated
            &&& step(rewritten, EventView::Observed(observation)) matches Ok(reached)
            &&& reached.phase is Valid
            &&& pending(reached) is Finish
        }),
{
}

/// Where the provider accepts the write, and the reads that follow still show
/// two different addresses, the run ends with a failure to converge.
pub proof fn lemma_failed_convergence_is_fatal(
    invalid: StageView,
    echo: Option<RecordContent>,
    observation: ObservationView,
    actual_ip: Ipv4Address,
    configured_ip: Ipv4Address,
    record_id: Seq<char>,
)
    requires
        invalid.phase is Invalid,
        invalid.wf(),
        echoed_address(echo) is Ok,
        public_address(observation.public_ip) == Ok::<Ipv4Address, LookupFailure>(actual_ip),
        published_record(observation.records, invalid.configurator.site) == Ok::<
            (Ipv4Address, Seq<char>),
            LookupFailure,
        >((configured_ip, record_id)),
        actual_ip != configured_ip,
    ensures
        ({
            &&& step(invalid, EventView::Updated(echo)) matches Ok(rewritten)
            &&& step(rewritten, EventView::Observed(observation)) == Err::<
                StageView,
                ReconcileError,
            >(ReconcileError::Convergence)
        }),
{
}

/// Once the record has been rewritten, no run of events leads to the invalid
/// state.
pub proof fn lemma_rewritten_is_never_invalid(stage: StageView, events: Seq<EventView>)
    requires
        stage.configurator.reconfigured,
        !(stage.phase is Invalid),
    ensures
        outcome(stage, events) matches Ok(reached) ==> reached.configurator.reconfigured,
        outcome(stage, events) matches Ok(reached) ==> !(reached.phase is Invalid),
    decreases events.len(),
{
    if events.len() > 0 {
        match step(stage, events.first()) {
            Ok(next) => {
                lemma_rewritten_is_never_invalid(next, events.drop_first());
            },
            Err(_) => {},
        }
    }
}

/// A run writes at most once: after the write was answered, no run of events
/// leads to the invalid state, the only one in which a write is due.
pub proof fn lemma_no_second_update(
    invalid: StageView,
    echo: Option<RecordContent>,
    later: Seq<EventView>,
)
    requires
        invalid.phase is Invalid,
        invalid.wf(),
    ensures
        step(invalid, EventView::Updated(echo)) matches Ok(rewritten) ==> !(outcome(
            rewritten,
            later,
        ) matches Ok(reached) && pending(reached) is Update),
{
    match step(invalid, EventView::Updated(echo)) {
        Ok(rewritten) => {
            lemma_rewritten_is_never_invalid(rewritten, later);
        },
        Err(_) => {},
    }
}

/// An answer of the echo service that is no address in dotted-quad form fails
/// the lookup, and with it the run.
pub proof fn lemma_malformed_public_ip_fails_lookup(
    configurator: ConfiguratorView,
    observation: ObservationView,
    body: Seq<u8>,
)
    requires
        observation.public_ip == Some(body),
        address_of(body) is None,
    ensures
        step(
            StageView { phase: Phase::Unvalidated, configurator },
            EventView::Observed(observation),
        ) == Err::<StageView, ReconcileError>(
            ReconcileError::Lookup(LookupFailure::PublicIpMalformed),
        ),
{
}

/// An empty answer of the echo service fails the lookup.
pub proof fn lemma_empty_public_ip_fails_lookup(
    configurator: ConfiguratorView,
    observation: ObservationView,
)
    requires
        observation.public_ip == Some(Seq::<u8>::empty()),
    ensures
        step(
            StageView { phase: Phase::Unvalidated, configurator },
            EventView::Observed(observation),
        ) == Err::<StageView, ReconcileError>(
            ReconcileError::Lookup(LookupFailure::PublicIpMalformed),
        ),
{
    lemma_empty_text_is_no_address();
}

/// Where the zone holds no address record under the host's name, the lookup
/// fails, and the run ends before any write is asked for.
pub proof fn lemma_missing_record_fails_lookup(
    configurator: ConfiguratorView,
    observation: ObservationView,
    records: Seq<DnsRecordView>,
)
    requires
        public_address(observation.public_ip) is Ok,
        observation.records == Some(records),
        forall|at: int|
            0 <= at < records.len() ==> !is_candidate(#[trigger] records[at], configurator.site),
    ensures
        step(
            StageView { phase: Phase::Unvalidated, configurator },
            EventView::Observed(observation),
        ) == Err::<StageView, ReconcileError>(ReconcileError::Lookup(LookupFailure::RecordMissing)),
{
    lemma_selection_exists(records, configurator.site);
}

} // verus!
