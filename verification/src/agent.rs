//! The agent: registration of the host at startup, then collection and
//! flushing of samples on two independent timers.
//!
//! The agent neither waits nor talks to the network.  It is told what has
//! happened and says what is to happen next; the program around it runs the
//! timers, performs each action and reports how it went.

use crate::buffer::{drained, retained, MetricBuffer};
use crate::client::{
    ApiClient, ApiError, ResourceRegistration, ResourceRegistrationResponse,
};
use crate::config::{Config, DiskFilter};
use crate::metadata::{InstanceMetadata, SessionInfo};
use crate::metrics::{
    DiskCollector, DiskMetric, DiskReading, MetricBatch, MetricError, MetricService,
};
use crate::state::{ResourceState, StateError};
use crate::text::{concat2, owned};
use vstd::prelude::*;

verus! {

/// The version that the agent registers under.
pub const AGENT_VERSION: &'static str = "0.1.0";

/// The resource id that metrics carry while the agent is not integrated
/// with the platform: no credentials are configured and none was resolved.
pub const SENTINEL_RESOURCE_ID: &'static str = "test-resource-id";

/// Why the agent could not do what it was to do.
#[derive(Debug)]
pub enum AgentError {
    Initialization(String),
    Configuration(String),
    Api(ApiError),
    MetricCollection(String),
}

impl AgentError {
    /// The text that describes the error.
    pub open spec fn message_text(self) -> Seq<char> {
        match self {
            AgentError::Initialization(detail) => "Agent initialization failed: "@ + detail@,
            AgentError::Configuration(detail) => "Configuration error: "@ + detail@,
            AgentError::Api(error) => "API error: "@ + error.message_text(),
            AgentError::MetricCollection(detail) => "Metric collection error: "@ + detail@,
        }
    }

    /// Describes the error in words.
    pub fn message(&self) -> (out: String)
        ensures
            out@ == self.message_text(),
    {
        match self {
            AgentError::Initialization(detail) => concat2(
                "Agent initialization failed: ",
                detail.as_str(),
            ),
            AgentError::Configuration(detail) => concat2("Configuration error: ", detail.as_str()),
            AgentError::Api(error) => {
                let inner: String = error.message();
                concat2("API error: ", inner.as_str())
            },
            AgentError::MetricCollection(detail) => concat2(
                "Metric collection error: ",
                detail.as_str(),
            ),
        }
    }
}

/// Where the agent stands.  It starts idle, registers, and then runs; the
/// phases between `Idle` and `Running` are the steps of the registration.
#[derive(Debug)]
pub enum AgentPhase {
    /// Nothing has happened yet.
    Idle,
    /// Registering: the saved state is being looked for.
    LoadingState,
    /// Registering: the cloud environment is being detected.
    Detecting,
    /// Registering: the platform has been asked to register the host, found
    /// to run on this instance.
    Registering { instance_metadata: InstanceMetadata },
    /// Registering: the new state is being saved.
    SavingState,
    /// Registration is over; samples are collected and flushed.
    Running,
}

impl AgentPhase {
    /// How far the phase lies on the way from `Idle` to `Running`.
    pub open spec fn rank(self) -> nat {
        match self {
            AgentPhase::Idle => 0,
            AgentPhase::LoadingState => 1,
            AgentPhase::Detecting => 2,
            AgentPhase::Registering { .. } => 3,
            AgentPhase::SavingState => 4,
            AgentPhase::Running => 5,
        }
    }
}

/// What the program found out about the host for the registration.
#[derive(Debug)]
pub struct HostFacts {
    pub platform: String,
    pub arch: String,
    pub instance_metadata: InstanceMetadata,
}

/// What has happened during registration.
#[derive(Debug)]
pub enum RegistrationEvent {
    /// The agent was started.
    Begin,
    /// The saved state was looked for.
    StateLoaded(Result<Option<ResourceState>, StateError>),
    /// The cloud environment was detected.
    Detected(HostFacts),
    /// The platform was asked to register the host.
    Registered(Result<ResourceRegistrationResponse, ApiError>),
    /// The new state was saved, or could not be.
    StateSaved(Result<(), StateError>),
}

/// How a registration ended.
#[derive(Debug)]
pub enum RegistrationOutcome {
    /// No credentials are configured: the host is not registered and its
    /// metrics carry the sentinel id.
    Skipped,
    /// A saved state was found and its resource id adopted.
    Adopted,
    /// The host was registered and the new state saved.
    Registered,
    /// The host was registered, but the new state could not be saved: the
    /// resource id serves this run, and the next run registers again.
    RegisteredUnsaved(StateError),
    /// The platform could not register the host: the agent goes on without
    /// a resource id.
    Failed(ApiError),
}

/// What is to happen next during registration.
#[derive(Debug)]
pub enum RegistrationAction {
    /// Look for the saved state.
    LoadState,
    /// Detect the cloud environment and the platform of the host.
    Detect,
    /// Ask the platform to register the host.
    Register(ResourceRegistration),
    /// Save the state.
    SaveState(ResourceState),
    /// Registration is over.
    Complete(RegistrationOutcome),
    /// The event does not belong to the phase that the agent is in: nothing
    /// has changed and nothing is to be done.
    Ignored,
}

/// What a flush leads to.
#[derive(Debug)]
pub enum FlushAction {
    /// The buffer is empty: nothing is sent.
    Idle,
    /// Send this batch.
    Send(MetricBatch),
    /// The flush failed.  The samples had left the buffer before; they are
    /// handed back, and are lost unless the caller keeps them.
    Fail { error: AgentError, dropped: Vec<DiskMetric> },
}

/// What the agent is told.
#[derive(Debug)]
pub enum AgentEvent {
    /// Something happened during registration.
    Registration(RegistrationEvent),
    /// The collection timer fired.
    CollectionTick,
    /// The flush timer fired.
    FlushTick,
}

/// What the agent answers.
#[derive(Debug)]
pub enum AgentAction {
    /// The next step of the registration.
    Registration(RegistrationAction),
    /// A collection took place: this many samples were taken in, or it
    /// failed.
    Collected(Result<usize, AgentError>),
    /// What the flush leads to.
    Flush(FlushAction),
    /// A timer fired while the agent was not running: nothing has changed.
    NotRunning,
}

/// The agent: its settings, the buffer of samples, and what it knows of
/// its registration.
pub struct SentinelAgent {
    config: Config,
    hostname: String,
    api_client: ApiClient,
    metric_service: MetricService,
    buffer: MetricBuffer,
    resource_id: Option<String>,
    session: SessionInfo,
    phase: AgentPhase,
}

impl SentinelAgent {
    /// The buffer and the metric service follow the configuration: the
    /// buffer holds as many samples as the configuration allows, and the
    /// disks are sampled with its filter.
    #[verifier::type_invariant]
    spec fn follows_configuration(self) -> bool {
        &&& self.buffer.capacity() == self.config.batch_size()
        &&& self.metric_service.disk_filter() == self.config.collection.disk@
    }

    pub closed spec fn configuration(&self) -> Config {
        self.config
    }

    /// The name that the host is known by.
    pub closed spec fn host(&self) -> String {
        self.hostname
    }

    pub closed spec fn session_info(&self) -> SessionInfo {
        self.session
    }

    pub closed spec fn phase(&self) -> AgentPhase {
        self.phase
    }

    /// The resource id that was resolved, if one was.
    pub closed spec fn resolved_id(&self) -> Option<String> {
        self.resource_id
    }

    /// The samples in the buffer, oldest first.
    pub closed spec fn buffered(&self) -> Seq<DiskMetric> {
        self.buffer@
    }

    /// The capacity of the buffer.
    pub closed spec fn capacity(&self) -> usize {
        self.buffer.capacity()
    }

    /// The filter that the disks are sampled with.
    pub closed spec fn disk_filter(&self) -> DiskFilter {
        self.metric_service.disk_filter()
    }

    /// The client of the collection API.
    pub closed spec fn client(&self) -> ApiClient {
        self.api_client
    }

    /// The two agents differ at most in phase, resource id and buffer.
    pub closed spec fn same_setup(&self, other: &Self) -> bool {
        &&& self.config == other.config
        &&& self.hostname == other.hostname
        &&& self.api_client == other.api_client
        &&& self.metric_service == other.metric_service
        &&& self.session == other.session
        &&& self.buffer.capacity() == other.buffer.capacity()
    }

    /// What two agents of the same setup have in common.
    pub proof fn lemma_same_setup(&self, other: &Self)
        requires
            self.same_setup(other),
        ensures
            self.configuration() == other.configuration(),
            self.host() == other.host(),
            self.client() == other.client(),
            self.session_info() == other.session_info(),
            self.disk_filter() == other.disk_filter(),
            self.capacity() == other.capacity(),
    {
    }

    /// An agent for `config` on the host `hostname`, observed in `session`,
    /// around the client that was made for it, or the failure to make one.
    pub fn assemble(
        config: Config,
        hostname: String,
        api_client: Result<ApiClient, ApiError>,
        session: SessionInfo,
    ) -> (made: Result<Self, AgentError>)
        ensures
            match api_client {
                Ok(client) => made matches Ok(agent) && agent.configuration() == config
                    && agent.host() == hostname && agent.session_info() == session && agent.phase()
                    is Idle && agent.resolved_id() is None && agent.buffered().len() == 0
                    && agent.capacity() == config.batch_size() && agent.disk_filter()
                    == config.collection.disk@ && agent.client() == client,
                Err(error) => made matches Err(AgentError::Initialization(detail)) && detail@
                    == error.message_text(),
            },
    {
        match api_client {
            Ok(client) => {
                let metric_service: MetricService = MetricService::new(&config);
                let buffer: MetricBuffer = MetricBuffer::new(config.get_batch_size());
                Ok(
                    SentinelAgent {
                        config,
                        hostname,
                        api_client: client,
                        metric_service,
                        buffer,
                        resource_id: None,
                        session,
                        phase: AgentPhase::Idle,
                    },
                )
            },
            Err(error) => Err(AgentError::Initialization(error.message())),
        }
    }

    /// An agent for `config`: idle, unregistered, with an empty buffer of
    /// the configured size.  It fails only where no HTTP client can be
    /// built.
    pub fn new(config: Config) -> (made: Result<Self, AgentError>)
        ensures
            match made {
                Ok(agent) => agent.configuration() == config && agent.phase() is Idle
                    && agent.resolved_id() is None && agent.buffered().len() == 0
                    && agent.capacity() == config.batch_size() && agent.disk_filter()
                    == config.collection.disk@ && agent.client().endpoint_text()
                    == config.api.endpoint@ && agent.client().key() == config.api.api_key && (
                config.agent.hostname is Some ==> agent.host() == config.agent.hostname->0),
                Err(error) => error is Initialization,
            },
    {
        let hostname: String = config.get_hostname();
        let api_client: Result<ApiClient, ApiError> = ApiClient::new(&config);
        let session: SessionInfo = SessionInfo::generate();
        Self::assemble(config, hostname, api_client, session)
    }

    pub fn config(&self) -> (config: &Config)
        ensures
            *config == self.configuration(),
    {
        &self.config
    }

    pub fn hostname(&self) -> (hostname: &str)
        ensures
            hostname@ == self.host()@,
    {
        self.hostname.as_str()
    }

    /// The client of the collection API.
    pub fn api_client(&self) -> (client: &ApiClient)
        ensures
            *client == self.client(),
    {
        &self.api_client
    }

    pub fn session(&self) -> (session: SessionInfo)
        ensures
            session == self.session_info(),
    {
        self.session
    }

    pub fn resource_id(&self) -> (id: &Option<String>)
        ensures
            *id == self.resolved_id(),
    {
        &self.resource_id
    }

    /// The number of samples in the buffer, which never exceeds its
    /// capacity.
    pub fn buffer_len(&self) -> (n: usize)
        ensures
            n == self.buffered().len(),
            n <= self.capacity(),
            self.capacity() == self.configuration().batch_size(),
    {
        proof {
            use_type_invariant(self);
        }
        self.buffer.len()
    }

    /// The most samples that the buffer holds: the batch size of the
    /// configuration.
    pub fn buffer_capacity(&self) -> (capacity: usize)
        ensures
            capacity == self.capacity(),
            capacity == self.configuration().batch_size(),
    {
        proof {
            use_type_invariant(self);
        }
        self.config.get_batch_size()
    }

    /// Whether registration is over.
    pub fn is_running(&self) -> (yes: bool)
        ensures
            yes == (self.phase() is Running),
    {
        match &self.phase {
            AgentPhase::Running => true,
            _ => false,
        }
    }

    /// The seconds between two collections.
    pub fn collection_interval_seconds(&self) -> (seconds: u64)
        ensures
            seconds == self.configuration().collection.interval_seconds,
    {
        self.config.collection.interval_seconds
    }

    /// The seconds between two flushes.
    pub fn flush_interval_seconds(&self) -> (seconds: u64)
        ensures
            seconds == self.configuration().flush_interval_seconds(),
    {
        self.config.get_flush_interval_seconds()
    }

    /// Puts `metrics` into the buffer, behind what it holds; what does not
    /// fit is dropped from the front, oldest first.
    pub fn add_to_buffer(&mut self, metrics: Vec<DiskMetric>)
        ensures
            final(self).buffered() == retained(
                old(self).buffered(),
                metrics@,
                old(self).capacity() as int,
            ),
            final(self).buffered().len() <= final(self).capacity(),
            final(self).capacity() == final(self).configuration().batch_size(),
            old(self).buffered().len() <= old(self).capacity(),
            metrics@.len() == 0 ==> final(self).buffered() == old(self).buffered(),
            final(self).same_setup(old(self)),
            final(self).phase() == old(self).phase(),
            final(self).resolved_id() == old(self).resolved_id(),
    {
        proof {
            use_type_invariant(&*self);
        }
        let mut buffer: MetricBuffer = MetricBuffer::new(self.config.get_batch_size());
        std::mem::swap(&mut self.buffer, &mut buffer);
        buffer.push(metrics);
        std::mem::swap(&mut self.buffer, &mut buffer);
    }

    /// The resource id that a flush goes out under, if there is one: the
    /// id that was resolved; without one, and without credentials, the
    /// sentinel id.
    pub open spec fn flush_identity(&self) -> Option<Seq<char>> {
        match self.resolved_id() {
            Some(id) => Some(id@),
            None => if self.configuration().credentials_configured() {
                None
            } else {
                Some(SENTINEL_RESOURCE_ID@)
            },
        }
    }

    /// What `flush_buffer` does.  An empty buffer is left alone and nothing
    /// is sent.  Otherwise every sample leaves the buffer, and then the
    /// resource id is looked for: with one, the samples go into a batch
    /// under that id and the name of the host, in the order in which they
    /// arrived; without one the flush fails and hands the samples back.
    pub open spec fn flushed(pre: &Self, post: &Self, action: FlushAction) -> bool {
        &&& post.same_setup(pre)
        &&& post.phase() == pre.phase()
        &&& post.resolved_id() == pre.resolved_id()
        &&& if pre.buffered().len() == 0 {
            action is Idle && post.buffered() == pre.buffered()
        } else {
            &&& post.buffered() == drained(pre.buffered()).1
            &&& match pre.flush_identity() {
                Some(id) => action matches FlushAction::Send(batch) && batch.server_id@ == id
                    && batch.hostname@ == pre.host()@ && batch.metrics@ == drained(
                    pre.buffered(),
                ).0,
                None => action matches FlushAction::Fail {
                    error: AgentError::Configuration(detail),
                    dropped,
                } && detail@ == "Resource not registered"@ && dropped@ == drained(
                    pre.buffered(),
                ).0,
            }
        }
    }

    /// Empties the buffer for transmission.
    pub fn flush_buffer(&mut self) -> (action: FlushAction)
        ensures
            Self::flushed(old(self), final(self), action),
    {
        if self.buffer.is_empty() {
            return FlushAction::Idle;
        }
        proof {
            use_type_invariant(&*self);
        }
        let mut buffer: MetricBuffer = MetricBuffer::new(self.config.get_batch_size());
        std::mem::swap(&mut self.buffer, &mut buffer);
        let metrics: Vec<DiskMetric> = buffer.drain_all();
        std::mem::swap(&mut self.buffer, &mut buffer);
        let resource_id: String = match &self.resource_id {
            Some(id) => id.clone(),
            None => {
                if self.config.has_credentials() {
                    return FlushAction::Fail {
                        error: AgentError::Configuration(owned("Resource not registered")),
                        dropped: metrics,
                    };
                }
                owned(SENTINEL_RESOURCE_ID)
            },
        };
        FlushAction::Send(
            self.metric_service.create_batch(
                metrics,
                resource_id.as_str(),
                self.hostname.as_str(),
            ),
        )
    }

    /// The result of a flush whose batch was sent with the outcome `sent`.
    /// A batch that could not be delivered is not sent again.
    pub fn flush_outcome(sent: Result<(), ApiError>) -> (outcome: Result<(), AgentError>)
        ensures
            match sent {
                Ok(_) => outcome is Ok,
                Err(error) => outcome == Err::<(), AgentError>(AgentError::Api(error)),
            },
    {
        match sent {
            Ok(_) => Ok(()),
            Err(error) => Err(AgentError::Api(error)),
        }
    }

    /// The result of a collection as the agent reports it.
    pub fn collection_result(collected: Result<Vec<DiskMetric>, MetricError>) -> (outcome: Result<
        Vec<DiskMetric>,
        AgentError,
    >)
        ensures
            match collected {
                Ok(metrics) => outcome == Ok::<Vec<DiskMetric>, AgentError>(metrics),
                Err(error) => outcome matches Err(AgentError::MetricCollection(detail)) && detail@
                    == error.message_text(),
            },
    {
        match collected {
            Ok(metrics) => Ok(metrics),
            Err(error) => Err(AgentError::MetricCollection(error.message())),
        }
    }

    /// What a collection by the agent gives, the clock having shown `now`
    /// and the machine having listed `disks`: the samples of the disks that
    /// pass the filter, stamped with `now`; nothing where sampling is
    /// switched off; and an error that names the clock where the clock
    /// showed no time.
    pub open spec fn collects(
        &self,
        now: Option<u64>,
        disks: Seq<DiskReading>,
        outcome: Result<Vec<DiskMetric>, AgentError>,
    ) -> bool {
        match DiskCollector::collected(self.disk_filter(), now, disks) {
            Ok(metrics) => outcome is Ok && outcome->Ok_0@ == metrics,
            Err(error) => outcome matches Err(AgentError::MetricCollection(detail)) && detail@
                == error.message_text(),
        }
    }

    /// Samples the disks of the host: the clock and the disks are read, and
    /// the disks that pass the filter are sampled.  Where sampling is
    /// switched off, neither is read, and no sample comes back and no error.
    /// A collection fails only where the clock shows no time.
    pub fn collect_metrics(&self) -> (outcome: Result<Vec<DiskMetric>, AgentError>)
        ensures
            exists|now: Option<u64>, disks: Seq<DiskReading>| self.collects(now, disks, outcome),
            self.disk_filter() == self.configuration().collection.disk@,
            !self.disk_filter().enabled ==> outcome is Ok && outcome->Ok_0@.len() == 0,
            outcome is Err ==> self.disk_filter().enabled && outcome->Err_0 is MetricCollection
                && outcome->Err_0->MetricCollection_0@
                == MetricError::TimestampError.message_text(),
    {
        proof {
            use_type_invariant(self);
        }
        let collected: Result<Vec<DiskMetric>, MetricError> =
            self.metric_service.collect_all_metrics();
        let ghost (now, disks) = choose|now: Option<u64>, disks: Seq<DiskReading>|
            DiskCollector::gave(self.disk_filter(), now, disks, collected);
        let outcome: Result<Vec<DiskMetric>, AgentError> = Self::collection_result(collected);
        assert(self.collects(now, disks, outcome));
        outcome
    }

    /// Takes in what a collection gave: samples go into the buffer, and
    /// their number comes back; a failed collection leaves the buffer as it
    /// was and comes back as it is.
    pub fn record_collection(&mut self, collected: Result<Vec<DiskMetric>, AgentError>) -> (outcome:
        Result<usize, AgentError>)
        ensures
            final(self).same_setup(old(self)),
            final(self).phase() == old(self).phase(),
            final(self).resolved_id() == old(self).resolved_id(),
            match collected {
                Ok(metrics) => outcome matches Ok(count) && count == metrics@.len()
                    && final(self).buffered() == retained(
                    old(self).buffered(),
                    metrics@,
                    old(self).capacity() as int,
                ) && (metrics@.len() == 0 ==> final(self).buffered() == old(self).buffered()),
                Err(error) => outcome == Err::<usize, AgentError>(error) && final(self).buffered()
                    == old(self).buffered(),
            },
    {
        match collected {
            Ok(metrics) => {
                let count: usize = metrics.len();
                self.add_to_buffer(metrics);
                Ok(count)
            },
            Err(error) => Err(error),
        }
    }

    /// What a tick of the collection timer does, the clock having shown
    /// `now` and the machine having listed `disks`.  The samples of the
    /// disks that pass the filter go into the buffer, behind what it holds,
    /// and their number is the result.  Where the clock showed no time,
    /// the collection fails, and the buffer is as it was.  Nothing else
    /// about the agent changes either way.
    pub open spec fn ticked(
        pre: &Self,
        now: Option<u64>,
        disks: Seq<DiskReading>,
        post: &Self,
        outcome: Result<usize, AgentError>,
    ) -> bool {
        &&& post.same_setup(pre)
        &&& post.phase() == pre.phase()
        &&& post.resolved_id() == pre.resolved_id()
        &&& match DiskCollector::collected(pre.disk_filter(), now, disks) {
            Ok(metrics) => outcome matches Ok(count) && count == metrics.len() && post.buffered()
                == retained(pre.buffered(), metrics, pre.capacity() as int),
            Err(error) => outcome matches Err(AgentError::MetricCollection(detail)) && detail@
                == error.message_text() && post.buffered() == pre.buffered(),
        }
    }

    /// One tick of the collection timer: the disks are sampled and the
    /// samples put into the buffer.  A failure is reported and changes
    /// nothing.  With sampling switched off a tick takes in nothing and
    /// does not fail.
    pub fn collection_tick(&mut self) -> (outcome: Result<usize, AgentError>)
        ensures
            exists|now: Option<u64>, disks: Seq<DiskReading>|
                Self::ticked(old(self), now, disks, final(self), outcome),
            !old(self).disk_filter().enabled ==> outcome == Ok::<usize, AgentError>(0)
                && final(self).buffered() == old(self).buffered(),
            outcome is Err ==> old(self).disk_filter().enabled && final(self).buffered() == old(
                self,
            ).buffered(),
    {
        let collected: Result<Vec<DiskMetric>, AgentError> = self.collect_metrics();
        let ghost (now, disks) = choose|now: Option<u64>, disks: Seq<DiskReading>|
            self.collects(now, disks, collected);
        let outcome: Result<usize, AgentError> = self.record_collection(collected);
        proof {
            self.lemma_same_setup(old(self));
            assert(Self::ticked(old(self), now, disks, self, outcome));
        }
        outcome
    }

    /// What `register_resource` does.  Registration is skipped where no
    /// credentials are configured.  Otherwise the saved state is looked for
    /// and, where there is one, its resource id adopted.  Where there is
    /// none, or it cannot be loaded, the host is registered anew: the cloud
    /// environment is detected, the platform asked, and the state that it
    /// answers with saved.  The resource id of the answer is used whether or
    /// not the state could be saved; a refusal leaves the agent without
    /// one.  An event that does not belong to the phase changes nothing.
    pub open spec fn registration_step(
        pre: &Self,
        event: RegistrationEvent,
        post: &Self,
        action: RegistrationAction,
    ) -> bool {
        &&& post.same_setup(pre)
        &&& post.buffered() == pre.buffered()
        &&& match (pre.phase(), event) {
            (AgentPhase::Idle, RegistrationEvent::Begin) => {
                &&& post.resolved_id() == pre.resolved_id()
                &&& if pre.configuration().credentials_configured() {
                    post.phase() is LoadingState && action is LoadState
                } else {
                    post.phase() is Running && action matches RegistrationAction::Complete(
                        RegistrationOutcome::Skipped,
                    )
                }
            },
            (AgentPhase::LoadingState, RegistrationEvent::StateLoaded(Ok(Some(state)))) => {
                &&& post.resolved_id() == Some(state.resource_id)
                &&& post.phase() is Running
                &&& action matches RegistrationAction::Complete(RegistrationOutcome::Adopted)
            },
            (AgentPhase::LoadingState, RegistrationEvent::StateLoaded(_)) => {
                &&& post.resolved_id() == pre.resolved_id()
                &&& post.phase() is Detecting
                &&& action is Detect
            },
            (AgentPhase::Detecting, RegistrationEvent::Detected(facts)) => {
                &&& post.resolved_id() == pre.resolved_id()
                &&& post.phase() == (AgentPhase::Registering {
                    instance_metadata: facts.instance_metadata,
                })
                &&& action matches RegistrationAction::Register(registration)
                &&& registration.hostname == pre.host()
                &&& registration.agent_version@ == AGENT_VERSION@
                &&& registration.platform == facts.platform
                &&& registration.arch == facts.arch
                &&& registration.instance_metadata == facts.instance_metadata
            },
            (
                AgentPhase::Registering { instance_metadata },
                RegistrationEvent::Registered(Ok(response)),
            ) => {
                &&& post.resolved_id() == Some(response.resource_id)
                &&& post.phase() is SavingState
                &&& action matches RegistrationAction::SaveState(state)
                &&& state.resource_id == response.resource_id
                &&& state.agent_version@ == AGENT_VERSION@
                &&& state.instance_metadata == instance_metadata
                &&& state.session == pre.session_info()
            },
            (AgentPhase::Registering { .. }, RegistrationEvent::Registered(Err(error))) => {
                &&& post.resolved_id() == pre.resolved_id()
                &&& post.phase() is Running
                &&& action == RegistrationAction::Complete(RegistrationOutcome::Failed(error))
            },
            (AgentPhase::SavingState, RegistrationEvent::StateSaved(Ok(_))) => {
                &&& post.resolved_id() == pre.resolved_id()
                &&& post.phase() is Running
                &&& action matches RegistrationAction::Complete(RegistrationOutcome::Registered)
            },
            (AgentPhase::SavingState, RegistrationEvent::StateSaved(Err(error))) => {
                &&& post.resolved_id() == pre.resolved_id()
                &&& post.phase() is Running
                &&& action == RegistrationAction::Complete(
                    RegistrationOutcome::RegisteredUnsaved(error),
                )
            },
            _ => {
                &&& post.resolved_id() == pre.resolved_id()
                &&& post.phase() == pre.phase()
                &&& action is Ignored
            },
        }
    }

    /// One step of the registration of the host.
    pub fn register_resource(&mut self, event: RegistrationEvent) -> (action: RegistrationAction)
        ensures
            Self::registration_step(old(self), event, final(self), action),
            old(self).phase().rank() <= final(self).phase().rank(),
            action is Register ==> old(self).phase() is Detecting && final(self).phase()
                is Registering,
    {
        proof {
            use_type_invariant(&*self);
        }
        let mut phase: AgentPhase = AgentPhase::Running;
        std::mem::swap(&mut self.phase, &mut phase);
        match (phase, event) {
            (AgentPhase::Idle, RegistrationEvent::Begin) => {
                if self.config.has_credentials() {
                    self.phase = AgentPhase::LoadingState;
                    RegistrationAction::LoadState
                } else {
                    RegistrationAction::Complete(RegistrationOutcome::Skipped)
                }
            },
            (AgentPhase::LoadingState, RegistrationEvent::StateLoaded(Ok(Some(state)))) => {
                self.resource_id = Some(state.resource_id);
                RegistrationAction::Complete(RegistrationOutcome::Adopted)
            },
            (AgentPhase::LoadingState, RegistrationEvent::StateLoaded(_)) => {
                self.phase = AgentPhase::Detecting;
                RegistrationAction::Detect
            },
            (AgentPhase::Detecting, RegistrationEvent::Detected(facts)) => {
                let registration = ResourceRegistration {
                    hostname: self.hostname.clone(),
                    agent_version: owned(AGENT_VERSION),
                    platform: facts.platform,
                    arch: facts.arch,
                    instance_metadata: facts.instance_metadata.clone(),
                };
                self.phase = AgentPhase::Registering { instance_metadata: facts.instance_metadata };
                RegistrationAction::Register(registration)
            },
            (
                AgentPhase::Registering { instance_metadata },
                RegistrationEvent::Registered(Ok(response)),
            ) => {
                let state: ResourceState = ResourceState::new(
                    response.resource_id.clone(),
                    owned(AGENT_VERSION),
                    instance_metadata,
                    self.session,
                );
                self.resource_id = Some(response.resource_id);
                self.phase = AgentPhase::SavingState;
                RegistrationAction::SaveState(state)
            },
            (AgentPhase::Registering { .. }, RegistrationEvent::Registered(Err(error))) => {
                RegistrationAction::Complete(RegistrationOutcome::Failed(error))
            },
            (AgentPhase::SavingState, RegistrationEvent::StateSaved(Ok(_))) => {
                RegistrationAction::Complete(RegistrationOutcome::Registered)
            },
            (AgentPhase::SavingState, RegistrationEvent::StateSaved(Err(error))) => {
                RegistrationAction::Complete(RegistrationOutcome::RegisteredUnsaved(error))
            },
            (unchanged, _) => {
                self.phase = unchanged;
                RegistrationAction::Ignored
            },
        }
    }

    /// What `run` does.  Registration events drive the registration.  The
    /// timers are served once the agent runs, one tick at a time: a
    /// collection tick samples the disks into the buffer, a flush tick
    /// empties the buffer for transmission.  A failed collection or flush
    /// is reported and leaves the agent running.
    pub open spec fn ran(pre: &Self, event: AgentEvent, post: &Self, action: AgentAction) -> bool {
        match event {
            AgentEvent::Registration(step) => action matches AgentAction::Registration(next)
                && Self::registration_step(pre, step, post, next),
            AgentEvent::CollectionTick => if pre.phase() is Running {
                action matches AgentAction::Collected(outcome) && exists|
                    now: Option<u64>,
                    disks: Seq<DiskReading>,
                | Self::ticked(pre, now, disks, post, outcome)
            } else {
                action is NotRunning && *post == *pre
            },
            AgentEvent::FlushTick => if pre.phase() is Running {
                action matches AgentAction::Flush(flush) && Self::flushed(pre, post, flush)
            } else {
                action is NotRunning && *post == *pre
            },
        }
    }

    /// Advances the agent by one event.
    pub fn run(&mut self, event: AgentEvent) -> (action: AgentAction)
        ensures
            Self::ran(old(self), event, final(self), action),
            old(self).phase().rank() <= final(self).phase().rank(),
    {
        match event {
            AgentEvent::Registration(step) => AgentAction::Registration(
                self.register_resource(step),
            ),
            AgentEvent::CollectionTick => if self.is_running() {
                AgentAction::Collected(self.collection_tick())
            } else {
                AgentAction::NotRunning
            },
            AgentEvent::FlushTick => if self.is_running() {
                AgentAction::Flush(self.flush_buffer())
            } else {
                AgentAction::NotRunning
            },
        }
    }
}

/// An agent that runs keeps running, whatever it is told and however a
/// collection or a flush ends.
pub proof fn lemma_running_agent_keeps_running(
    pre: &SentinelAgent,
    event: AgentEvent,
    post: &SentinelAgent,
    action: AgentAction,
)
    requires
        SentinelAgent::ran(pre, event, post, action),
        pre.phase() is Running,
    ensures
        post.phase() is Running,
        post.resolved_id() == pre.resolved_id(),
        !(action matches AgentAction::Registration(RegistrationAction::Register(_))),
{
}

/// To flush an empty buffer is to do nothing: nothing is sent, nothing
/// fails, and the agent is as it was.
pub proof fn lemma_empty_flush_does_nothing(
    pre: &SentinelAgent,
    post: &SentinelAgent,
    action: FlushAction,
)
    requires
        SentinelAgent::flushed(pre, post, action),
        pre.buffered().len() == 0,
    ensures
        action is Idle,
        post.buffered() == pre.buffered(),
        post.same_setup(pre),
        post.phase() == pre.phase(),
        post.resolved_id() == pre.resolved_id(),
{
}

/// Without a resource id and without credentials, what is in the buffer
/// goes out under the sentinel id, whole and in order.
pub proof fn lemma_flush_falls_back_to_sentinel_id(
    pre: &SentinelAgent,
    post: &SentinelAgent,
    action: FlushAction,
)
    requires
        SentinelAgent::flushed(pre, post, action),
        pre.buffered().len() > 0,
        pre.resolved_id() is None,
        !pre.configuration().credentials_configured(),
    ensures
        action is Send,
        action->Send_0.server_id@ == SENTINEL_RESOURCE_ID@,
        action->Send_0.hostname@ == pre.host()@,
        action->Send_0.metrics@ == pre.buffered(),
        post.buffered().len() == 0,
{
}

/// Without a resource id but with credentials, a flush fails with a
/// configuration error.  The samples have left the buffer by then; the
/// failure carries them, whole and in order.
pub proof fn lemma_flush_without_id_fails(
    pre: &SentinelAgent,
    post: &SentinelAgent,
    action: FlushAction,
)
    requires
        SentinelAgent::flushed(pre, post, action),
        pre.buffered().len() > 0,
        pre.resolved_id() is None,
        pre.configuration().credentials_configured(),
    ensures
        action is Fail,
        action->error is Configuration,
        action->dropped@ == pre.buffered(),
        post.buffered().len() == 0,
{
}

/// The platform is asked to register the host at most once in the life of
/// an agent.  The phases of an agent only move forward, and the request goes
/// out on the one step that leads from `Detecting` to `Registering`: along
/// any run of phases, at most one step is such a step.
pub proof fn lemma_registers_at_most_once(phases: Seq<AgentPhase>, first: int, second: int)
    requires
        forall|i: int|
            0 <= i < phases.len() - 1 ==> (#[trigger] phases[i]).rank() <= phases[i + 1].rank(),
        0 <= first < second < phases.len() - 1,
        phases[first] is Detecting,
        phases[first + 1] is Registering,
    ensures
        !(phases[second] is Detecting && phases[second + 1] is Registering),
{
    lemma_rank_grows(phases, first + 1, second);
}

proof fn lemma_rank_grows(phases: Seq<AgentPhase>, from: int, to: int)
    requires
        forall|i: int|
            0 <= i < phases.len() - 1 ==> (#[trigger] phases[i]).rank() <= phases[i + 1].rank(),
        0 <= from <= to < phases.len(),
    ensures
        phases[from].rank() <= phases[to].rank(),
    decreases to - from,
{
    if from < to {
        lemma_rank_grows(phases, from, to - 1);
    }
}

} // verus!
