//! The configurator and its three states.

use vstd::prelude::*;
use std::marker::PhantomData;
use crate::address::Ipv4Address;
use crate::failure::{LookupFailure, ReconcileError, UpdateFailure};
use crate::lookup::{
    get_actual_ip, get_configured_ip, public_address, published_record, ListRequest,
    ListRequestView, Observation, ObservationView, OrderDirection,
};
use crate::record::RecordContent;

verus! {

/// The time to live that leaves the choice to the provider.
pub const AUTOMATIC_TTL: u32 = 1;

/// The state in which the addresses have not been compared since they were
/// last read or written.
#[derive(Clone, Copy, Debug)]
pub struct Unvalidated;

/// The state in which the last comparison found the two addresses different.
#[derive(Clone, Copy, Debug)]
pub struct Invalid;

/// The state in which the last comparison found the two addresses equal.
#[derive(Clone, Copy, Debug)]
pub struct Valid;

/// The three states as values.
#[derive(Clone, Copy, Debug, PartialEq, Eq, Structural)]
pub enum Phase {
    Unvalidated,
    Invalid,
    Valid,
}

/// A marker type that stands for one of the three states.
pub trait State {
    spec fn phase() -> Phase;
}

impl State for Unvalidated {
    open spec fn phase() -> Phase {
        Phase::Unvalidated
    }
}

impl State for Invalid {
    open spec fn phase() -> Phase {
        Phase::Invalid
    }
}

impl State for Valid {
    open spec fn phase() -> Phase {
        Phase::Valid
    }
}

/// Keeps what a run knows: whom it acts for, and the addresses it last saw.
#[derive(Debug)]
pub struct ServerConfigurator<S: State = Unvalidated> {
    state: PhantomData<S>,
    actual_ip: Ipv4Address,
    configured_ip: Ipv4Address,
    config_token: String,
    config_site: String,
    config_zone: String,
    config_record_id: String,
    reconfigured: bool,
}

/// A configurator as contracts see it.
pub struct ConfiguratorView {
    /// The credential for the provider.
    pub token: Seq<char>,
    /// The host whose record is kept right.
    pub site: Seq<char>,
    /// The zone that the record lies in.
    pub zone: Seq<char>,
    /// The address under which the host was last seen from outside.
    pub actual_ip: Ipv4Address,
    /// The address that the provider last published, or last was told to.
    pub configured_ip: Ipv4Address,
    /// The identifier of the record that holds `configured_ip`.
    pub record_id: Seq<char>,
    /// Whether the record has been rewritten in this run.
    pub reconfigured: bool,
}

/// A configurator together with the state it is in.
pub struct StageView {
    pub phase: Phase,
    pub configurator: ConfiguratorView,
}

impl StageView {
    /// What each state says of the two addresses: equal when valid, different
    /// when invalid.
    pub open spec fn wf(self) -> bool {
        &&& self.phase is Valid ==> self.configurator.actual_ip == self.configurator.configured_ip
        &&& self.phase is Invalid ==> self.configurator.actual_ip
            != self.configurator.configured_ip
    }

    /// What holds of the stages of a run: a write is due only where none has
    /// been made yet.
    pub open spec fn capped(self) -> bool {
        self.phase is Invalid ==> !self.configurator.reconfigured
    }
}

/// The write that brings the record in line with the public address.
#[derive(Debug)]
pub struct UpdateRequest {
    /// The zone that the record lies in.
    pub zone_identifier: String,
    /// The record to overwrite.
    pub identifier: String,
    /// The name that the record stays under.
    pub name: String,
    /// The address that the record is to hold, as an address record.
    pub content: Ipv4Address,
    /// The time to live, in seconds.
    pub ttl: u32,
    /// Whether the provider answers for the host through its own network.
    pub proxied: bool,
}

/// An update request as contracts see it.
pub struct UpdateRequestView {
    pub zone_identifier: Seq<char>,
    pub identifier: Seq<char>,
    pub name: Seq<char>,
    pub content: Ipv4Address,
    pub ttl: u32,
    pub proxied: bool,
}

impl View for UpdateRequest {
    type V = UpdateRequestView;

    open spec fn view(&self) -> UpdateRequestView {
        UpdateRequestView {
            zone_identifier: self.zone_identifier@,
            identifier: self.identifier@,
            name: self.name@,
            content: self.content,
            ttl: self.ttl,
            proxied: self.proxied,
        }
    }
}

/// What a validation found.
#[derive(Debug)]
pub enum ValidationResult {
    Valid(ServerConfigurator<Valid>),
    Invalid(ServerConfigurator<Invalid>),
}

impl<S: State> View for ServerConfigurator<S> {
    type V = ConfiguratorView;

    closed spec fn view(&self) -> ConfiguratorView {
        ConfiguratorView {
            token: self.config_token@,
            site: self.config_site@,
            zone: self.config_zone@,
            actual_ip: self.actual_ip,
            configured_ip: self.configured_ip,
            record_id: self.config_record_id@,
            reconfigured: self.reconfigured,
        }
    }
}

impl View for ValidationResult {
    type V = StageView;

    open spec fn view(&self) -> StageView {
        match *self {
            ValidationResult::Valid(configurator) => StageView {
                phase: Phase::Valid,
                configurator: configurator@,
            },
            ValidationResult::Invalid(configurator) => StageView {
                phase: Phase::Invalid,
                configurator: configurator@,
            },
        }
    }
}

/// The listing that a validation asks the provider for: the records of the
/// configurator's zone, in ascending order.
pub open spec fn listing_for(configurator: ConfiguratorView) -> ListRequestView {
    ListRequestView { zone_identifier: configurator.zone, direction: OrderDirection::Ascending }
}

/// The configurator after both reads of `observation` were taken in: the
/// public address first, then the record published for the host.
pub open spec fn observed(
    configurator: ConfiguratorView,
    observation: ObservationView,
) -> Result<ConfiguratorView, LookupFailure> {
    match public_address(observation.public_ip) {
        Err(failure) => Err(failure),
        Ok(actual_ip) => match published_record(observation.records, configurator.site) {
            Err(failure) => Err(failure),
            Ok((configured_ip, record_id)) => Ok(
                ConfiguratorView { actual_ip, configured_ip, record_id, ..configurator },
            ),
        },
    }
}

/// What a validation on `observation` finds. A failed read is a failure. Where
/// both reads are good, the addresses read are kept and compared: equal ones
/// are valid, different ones invalid.
pub open spec fn validation(
    configurator: ConfiguratorView,
    observation: ObservationView,
) -> Result<StageView, ReconcileError> {
    match observed(configurator, observation) {
        Err(failure) => Err(ReconcileError::Lookup(failure)),
        Ok(seen) => if seen.actual_ip == seen.configured_ip {
            Ok(StageView { phase: Phase::Valid, configurator: seen })
        } else {
            Ok(StageView { phase: Phase::Invalid, configurator: seen })
        },
    }
}

/// The write that an invalid configurator asks for: its record is to hold the
/// public address, with the time to live left to the provider and proxying on.
pub open spec fn update_for(configurator: ConfiguratorView) -> UpdateRequestView {
    UpdateRequestView {
        zone_identifier: configurator.zone,
        identifier: configurator.record_id,
        name: configurator.site,
        content: configurator.actual_ip,
        ttl: AUTOMATIC_TTL,
        proxied: true,
    }
}

/// The address that the provider says the record holds after the write. `None`
/// stands for a request that failed.
pub open spec fn echoed_address(echo: Option<RecordContent>) -> Result<
    Ipv4Address,
    UpdateFailure,
> {
    match echo {
        None => Err(UpdateFailure::Rejected),
        Some(RecordContent::A(address)) => Ok(address),
        Some(RecordContent::Other) => Err(UpdateFailure::NotAnAddress),
    }
}

/// The configurator after the write was answered with `echo`: it holds the
/// echoed address as the configured one, and is to be validated again.
pub open spec fn reconfiguration(
    configurator: ConfiguratorView,
    echo: Option<RecordContent>,
) -> Result<ConfiguratorView, ReconcileError> {
    match echoed_address(echo) {
        Err(failure) => Err(ReconcileError::Update(failure)),
        Ok(address) => Ok(
            ConfiguratorView { configured_ip: address, reconfigured: true, ..configurator },
        ),
    }
}

/// Checks the provider's answer to the write: it has to echo an address record.
pub fn configure_ip(echo: Option<RecordContent>) -> (address: Result<Ipv4Address, UpdateFailure>)
    ensures
        address == echoed_address(echo),
{
    match echo {
        None => Err(UpdateFailure::Rejected),
        Some(RecordContent::A(address)) => Ok(address),
        Some(RecordContent::Other) => Err(UpdateFailure::NotAnAddress),
    }
}

impl ServerConfigurator {
    /// A configurator for the host `site` in the zone `zone`, acting under the
    /// credential `token`. It has seen no address yet.
    pub fn new(token: &str, site: &str, zone: &str) -> (configurator: Self)
        ensures
            configurator@ == (ConfiguratorView {
                token: token@,
                site: site@,
                zone: zone@,
                actual_ip: Ipv4Address { a: 0, b: 0, c: 0, d: 0 },
                configured_ip: Ipv4Address { a: 0, b: 0, c: 0, d: 0 },
                record_id: Seq::<char>::empty(),
                reconfigured: false,
            }),
    {
        ServerConfigurator {
            state: PhantomData,
            actual_ip: Ipv4Address::new(0, 0, 0, 0),
            configured_ip: Ipv4Address::new(0, 0, 0, 0),
            config_token: token.to_owned(),
            config_site: site.to_owned(),
            config_zone: zone.to_owned(),
            config_record_id: String::new(),
            reconfigured: false,
        }
    }

    /// The listing that is to be asked of the provider.
    pub fn list_request(&self) -> (request: ListRequest)
        ensures
            request@ == listing_for(self@),
    {
        ListRequest {
            zone_identifier: self.config_zone.clone(),
            direction: OrderDirection::Ascending,
        }
    }

    /// Takes in what the two reads brought back. Where one of them failed,
    /// nothing is changed.
    pub fn update_ips(&mut self, observation: &Observation) -> (done: Result<(), LookupFailure>)
        ensures
            match observed(old(self)@, observation@) {
                Ok(seen) => done is Ok && final(self)@ == seen,
                Err(failure) => done == Err::<(), LookupFailure>(failure)
                    && final(self)@ == old(self)@,
            },
    {
        let actual_ip = match get_actual_ip(&observation.public_ip) {
            Ok(address) => address,
            Err(failure) => { return Err(failure); },
        };
        let (configured_ip, record_id) = match get_configured_ip(
            &observation.records,
            self.config_site.as_str(),
        ) {
            Ok(found) => found,
            Err(failure) => { return Err(failure); },
        };
        self.actual_ip = actual_ip;
        self.configured_ip = configured_ip;
        self.config_record_id = record_id;
        Ok(())
    }

    /// Compares the public address with the published one, both as
    /// `observation` gives them, whatever the configurator held before.
    pub fn validate(self, observation: &Observation) -> (result: Result<
        ValidationResult,
        ReconcileError,
    >)
        ensures
            match validation(self@, observation@) {
                Ok(stage) => result matches Ok(found) && found@ == stage,
                Err(error) => result matches Err(e) && e == error,
            },
            result matches Ok(found) ==> found@.wf(),
    {
        let mut seen = self;
        if let Err(failure) = seen.update_ips(observation) {
            return Err(ReconcileError::Lookup(failure));
        }
        if seen.actual_ip == seen.configured_ip {
            Ok(
                ValidationResult::Valid(
                    ServerConfigurator {
                        state: PhantomData,
                        actual_ip: seen.actual_ip,
                        configured_ip: seen.configured_ip,
                        config_token: seen.config_token,
                        config_site: seen.config_site,
                        config_zone: seen.config_zone,
                        config_record_id: seen.config_record_id,
                        reconfigured: seen.reconfigured,
                    },
                ),
            )
        } else {
            Ok(
                ValidationResult::Invalid(
                    ServerConfigurator {
                        state: PhantomData,
                        actual_ip: seen.actual_ip,
                        configured_ip: seen.configured_ip,
                        config_token: seen.config_token,
                        config_site: seen.config_site,
                        config_zone: seen.config_zone,
                        config_record_id: seen.config_record_id,
                        reconfigured: seen.reconfigured,
                    },
                ),
            )
        }
    }
}

impl ServerConfigurator<Invalid> {
    /// The write that is to be sent to the provider.
    pub fn update_request(&self) -> (request: UpdateRequest)
        ensures
            request@ == update_for(self@),
    {
        UpdateRequest {
            zone_identifier: self.config_zone.clone(),
            identifier: self.config_record_id.clone(),
            name: self.config_site.clone(),
            content: self.actual_ip,
            ttl: AUTOMATIC_TTL,
            proxied: true,
        }
    }

    /// Takes in the provider's answer to the write, and hands the configurator
    /// back for another validation. An answer that echoes no address record
    /// ends the run.
    pub fn reconfigure(self, echo: Option<RecordContent>) -> (result: Result<
        ServerConfigurator<Unvalidated>,
        ReconcileError,
    >)
        ensures
            match reconfiguration(self@, echo) {
                Ok(configurator) => result matches Ok(next) && next@ == configurator,
                Err(error) => result matches Err(e) && e == error,
            },
    {
        match configure_ip(echo) {
            Err(failure) => Err(ReconcileError::Update(failure)),
            Ok(address) => Ok(
                ServerConfigurator {
                    state: PhantomData,
                    actual_ip: self.actual_ip,
                    configured_ip: address,
                    config_token: self.config_token,
                    config_site: self.config_site,
                    config_zone: self.config_zone,
                    config_record_id: self.config_record_id,
                    reconfigured: true,
                },
            ),
        }
    }
}

impl ServerConfigurator<Valid> {
    /// Ends the run, and gives the address that is both seen and published.
    pub fn complete(self) -> (address: Ipv4Address)
        ensures
            address == self@.actual_ip,
            address == self@.configured_ip,
    {
        proof {
            use_type_invariant(&self);
        }
        self.actual_ip
    }
}

impl<S: State> ServerConfigurator<S> {
    /// A configurator obeys what its state says of the two addresses.
    #[verifier::type_invariant]
    pub open spec fn well_formed(self) -> bool {
        (StageView { phase: S::phase(), configurator: self@ }).wf()
    }

    /// The credential for the provider.
    pub fn token(&self) -> (token: &str)
        ensures
            token@ == self@.token,
    {
        self.config_token.as_str()
    }

    /// The host whose record is kept right.
    pub fn site(&self) -> (site: &str)
        ensures
            site@ == self@.site,
    {
        self.config_site.as_str()
    }

    /// The zone that the record lies in.
    pub fn zone(&self) -> (zone: &str)
        ensures
            zone@ == self@.zone,
    {
        self.config_zone.as_str()
    }

    /// The identifier of the record that holds the configured address.
    pub fn record_id(&self) -> (record_id: &str)
        ensures
            record_id@ == self@.record_id,
    {
        self.config_record_id.as_str()
    }

    /// The address under which the host was last seen from outside.
    pub fn actual_ip(&self) -> (address: Ipv4Address)
        ensures
            address == self@.actual_ip,
    {
        self.actual_ip
    }

    /// The address that the provider last published, or last was told to.
    pub fn configured_ip(&self) -> (address: Ipv4Address)
        ensures
            address == self@.configured_ip,
    {
        self.configured_ip
    }

    /// Whether the record has been rewritten in this run.
    pub fn reconfigured(&self) -> (rewritten: bool)
        ensures
            rewritten == self@.reconfigured,
    {
        self.reconfigured
    }
}

} // verus!
