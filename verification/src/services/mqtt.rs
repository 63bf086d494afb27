//! The actuation channel: what is published to the broker, under which
//! terms, and the two clients that do it.
//!
//! The status client announces the gateway as online and leaves a last will
//! that has the broker announce it as offline when the connection drops. The
//! action client carries the unlock command. A publish that the client's
//! bounded queue cannot take is refused and reported, never waited for.
//! Queueing is done by `rumqttc`; the messages and the clients' settings are
//! decided here.

use vstd::prelude::*;

verus! {

/// How hard the broker tries to deliver a message.
#[derive(Debug, Clone, Copy, PartialEq, Eq, Structural)]
pub enum Delivery {
    AtMostOnce,
    AtLeastOnce,
    ExactlyOnce,
}

/// A message for the broker.
#[derive(Debug, Clone, PartialEq, Eq)]
pub struct Publication {
    pub topic: String,
    pub delivery: Delivery,
    pub retain: bool,
    pub payload: String,
}

/// How a client connects to the broker.
#[derive(Debug, Clone, PartialEq, Eq)]
pub struct MqttSettings {
    pub id: String,
    pub host: String,
    pub port: u16,
    pub username: String,
    pub password: String,
    pub clean_session: bool,
    pub keep_alive_secs: u64,
    /// What the broker publishes for this client when its connection drops
    /// without a clean disconnect.
    pub last_will: Option<Publication>,
}

/// A publish that did not reach the client's queue.
#[derive(Debug, Clone, PartialEq, Eq)]
pub struct ActuationError {
    /// The topic of the message that was refused.
    pub topic: String,
}

/// How many requests a client's queue holds.
pub const REQUEST_CAPACITY: usize = 10;

/// Seconds of silence after which a client pings the broker.
pub const KEEP_ALIVE_SECS: u64 = 5;

/// Seconds to rest between two polls of a client's event loop.
pub const POLL_PAUSE_SECS: u64 = 1;

impl Publication {
    /// Whether this message is exactly the one described.
    pub open spec fn is(self, topic: Seq<char>, delivery: Delivery, retain: bool, payload: Seq<char>) -> bool {
        &&& self.topic@ == topic
        &&& self.delivery == delivery
        &&& self.retain == retain
        &&& self.payload@ == payload
    }

    /// The announcement that the gateway is online: retained, so that late
    /// subscribers see the current state.
    pub open spec fn is_online_status(self) -> bool {
        self.is("gca/api-gateway/status"@, Delivery::AtLeastOnce, true, "online"@)
    }

    /// The announcement that the gateway is offline, retained likewise.
    pub open spec fn is_offline_status(self) -> bool {
        self.is("gca/api-gateway/status"@, Delivery::AtLeastOnce, true, "offline"@)
    }

    /// The unlock command: not retained, so that a late subscriber does not
    /// unlock again.
    pub open spec fn is_open_door(self) -> bool {
        self.is("gca/api-gateway/unlock"@, Delivery::AtLeastOnce, false, "true"@)
    }
}

/// The status topic.
pub fn status_topic() -> (r: String)
    ensures
        r@ == "gca/api-gateway/status"@,
{
    "gca/api-gateway/status".to_owned()
}

/// The unlock topic.
pub fn unlock_topic() -> (r: String)
    ensures
        r@ == "gca/api-gateway/unlock"@,
{
    "gca/api-gateway/unlock".to_owned()
}

/// The announcement that the gateway is online.
pub fn online_status() -> (r: Publication)
    ensures
        r.is_online_status(),
{
    Publication {
        topic: status_topic(),
        delivery: Delivery::AtLeastOnce,
        retain: true,
        payload: "online".to_owned(),
    }
}

/// The announcement that the gateway is offline.
pub fn offline_status() -> (r: Publication)
    ensures
        r.is_offline_status(),
{
    Publication {
        topic: status_topic(),
        delivery: Delivery::AtLeastOnce,
        retain: true,
        payload: "offline".to_owned(),
    }
}

/// The unlock command.
pub fn open_door() -> (r: Publication)
    ensures
        r.is_open_door(),
{
    Publication {
        topic: unlock_topic(),
        delivery: Delivery::AtLeastOnce,
        retain: false,
        payload: "true".to_owned(),
    }
}

impl MqttSettings {
    /// Settings as [`setup_mqtt_options`] makes them.
    pub open spec fn is_stock(
        self,
        id: Seq<char>,
        host: Seq<char>,
        port: u16,
        user: Seq<char>,
        pass: Seq<char>,
    ) -> bool {
        &&& self.id@ == id
        &&& self.host@ == host
        &&& self.port == port
        &&& self.username@ == user
        &&& self.password@ == pass
        &&& self.clean_session
        &&& self.keep_alive_secs == KEEP_ALIVE_SECS
    }

    /// Settings that `rumqttc` takes: a client without an id must ask for a
    /// clean session.
    pub open spec fn wf(self) -> bool {
        self.id@.len() > 0 || self.clean_session
    }
}

/// The settings every client of the gateway starts from: the given broker
/// and credentials, a clean session, a keep-alive of five seconds, no last
/// will.
pub fn setup_mqtt_options(id: String, host: String, port: u16, user: String, pass: String) -> (r:
    MqttSettings)
    ensures
        r.is_stock(id@, host@, port, user@, pass@),
        r.last_will is None,
        r.wf(),
{
    MqttSettings {
        id,
        host,
        port,
        username: user,
        password: pass,
        clean_session: true,
        keep_alive_secs: KEEP_ALIVE_SECS,
        last_will: None,
    }
}

/// The status client's settings: the stock ones under the id
/// `api-gateway-will`, with the offline announcement as last will.
pub fn main_client_options(host: String, port: u16, user: String, pass: String) -> (r: MqttSettings)
    ensures
        r.is_stock("api-gateway-will"@, host@, port, user@, pass@),
        r.last_will matches Some(will) && will.is_offline_status(),
        r.wf(),
{
    let mut options = setup_mqtt_options("api-gateway-will".to_owned(), host, port, user, pass);
    options.last_will = Some(offline_status());
    options
}

/// The action client's settings: the stock ones under the id
/// `api-gateway-main`.
pub fn route_client_options(host: String, port: u16, user: String, pass: String) -> (r: MqttSettings)
    ensures
        r.is_stock("api-gateway-main"@, host@, port, user@, pass@),
        r.last_will is None,
        r.wf(),
{
    setup_mqtt_options("api-gateway-main".to_owned(), host, port, user, pass)
}

#[verifier::external_type_specification]
#[verifier::external_body]
pub struct ExAsyncClient(rumqttc::AsyncClient);

#[verifier::external_type_specification]
#[verifier::external_body]
pub struct ExEventLoop(rumqttc::EventLoop);

/// Opens a client for settings that leave no last will. Builds
/// `rumqttc::MqttOptions` from the settings (`MqttOptions::new`,
/// `set_credentials`, `set_clean_session`, `set_keep_alive`) and calls
/// `rumqttc::AsyncClient::new` with them and a queue of `cap` requests.
///
/// Trusted: nothing is claimed of the client and its event loop. The first
/// precondition keeps `set_clean_session` from panicking; the second keeps
/// settings with a last will from being opened without it.
#[verifier::external_body]
fn open_client(settings: &MqttSettings, cap: usize) -> (r: (rumqttc::AsyncClient, rumqttc::EventLoop))
    requires
        settings.wf(),
        settings.last_will is None,
{
    let mut options = rumqttc::MqttOptions::new(settings.id.clone(), settings.host.clone(), settings.port);
    options.set_credentials(settings.username.clone(), settings.password.clone());
    options.set_clean_session(settings.clean_session);
    options.set_keep_alive(std::time::Duration::from_secs(settings.keep_alive_secs));
    rumqttc::AsyncClient::new(options, cap)
}

/// Opens a client for settings whose last will is `will`: as
/// [`open_client`], and registers `will` as the client's last will
/// (`rumqttc::LastWill::new`, `MqttOptions::set_last_will`).
///
/// Trusted: nothing is claimed of the client and its event loop. The second
/// precondition keeps any will but the settings' own from being registered.
#[verifier::external_body]
fn open_client_with_will(settings: &MqttSettings, will: &Publication, cap: usize) -> (r: (
    rumqttc::AsyncClient,
    rumqttc::EventLoop,
))
    requires
        settings.wf(),
        settings.last_will == Some(*will),
{
    let mut options = rumqttc::MqttOptions::new(settings.id.clone(), settings.host.clone(), settings.port);
    options.set_credentials(settings.username.clone(), settings.password.clone());
    options.set_clean_session(settings.clean_session);
    options.set_keep_alive(std::time::Duration::from_secs(settings.keep_alive_secs));
    let qos = match will.delivery {
        Delivery::AtMostOnce => rumqttc::QoS::AtMostOnce,
        Delivery::AtLeastOnce => rumqttc::QoS::AtLeastOnce,
        Delivery::ExactlyOnce => rumqttc::QoS::ExactlyOnce,
    };
    options.set_last_will(rumqttc::LastWill::new(will.topic.clone(), will.payload.clone(), qos, will.retain));
    rumqttc::AsyncClient::new(options, cap)
}

/// A topic a message can be published to: one without the wildcards `+`
/// and `#`.
pub open spec fn topic_ok(topic: Seq<char>) -> bool {
    !topic.contains('+') && !topic.contains('#')
}

/// Calls `rumqttc::AsyncClient::try_publish`; `true` where it returned `Ok`.
///
/// Trusted: a message whose topic holds a wildcard is never taken. Whether
/// another message is taken depends on the state of the client's queue.
#[verifier::external_body]
fn try_send(cli: &rumqttc::AsyncClient, message: &Publication) -> (queued: bool)
    ensures
        queued ==> topic_ok(message.topic@),
{
    let qos = match message.delivery {
        Delivery::AtMostOnce => rumqttc::QoS::AtMostOnce,
        Delivery::AtLeastOnce => rumqttc::QoS::AtLeastOnce,
        Delivery::ExactlyOnce => rumqttc::QoS::ExactlyOnce,
    };
    cli.try_publish(message.topic.clone(), qos, message.retain, message.payload.clone()).is_ok()
}

/// A broker client, the event loop that drives it, and the settings it was
/// opened with. The event loop must be polled for the client to make
/// progress.
pub struct Connection {
    pub client: rumqttc::AsyncClient,
    pub event_loop: rumqttc::EventLoop,
    pub settings: MqttSettings,
}

/// Whether the settings are ones `rumqttc` takes.
pub fn check_settings(settings: &MqttSettings) -> (r: bool)
    ensures
        r == settings.wf(),
{
    settings.id.as_str().unicode_len() > 0 || settings.clean_session
}

/// Opens a client with these settings, last will included, and a queue of
/// [`REQUEST_CAPACITY`] requests. Settings that `rumqttc` does not take open
/// nothing.
pub fn connect(settings: MqttSettings) -> (r: Option<Connection>)
    ensures
        r is Some <==> settings.wf(),
        r matches Some(c) ==> c.settings == settings,
{
    if !check_settings(&settings) {
        return None;
    }
    let (client, event_loop) = match &settings.last_will {
        Some(will) => open_client_with_will(&settings, will, REQUEST_CAPACITY),
        None => open_client(&settings, REQUEST_CAPACITY),
    };
    Some(Connection { client, event_loop, settings })
}

/// Opens the status client: the one whose last will has the broker announce
/// the gateway as offline, retained, when the connection drops.
pub fn init_main_client(host: String, port: u16, user: String, pass: String) -> (r: Connection)
    ensures
        r.settings.is_stock("api-gateway-will"@, host@, port, user@, pass@),
        r.settings.last_will matches Some(will) && will.is_offline_status(),
{
    let options = main_client_options(host, port, user, pass);
    connect(options).unwrap()
}

/// Opens the action client: the one that carries the unlock command. It
/// leaves no last will.
pub fn init_route_client(host: String, port: u16, user: String, pass: String) -> (r: Connection)
    ensures
        r.settings.is_stock("api-gateway-main"@, host@, port, user@, pass@),
        r.settings.last_will is None,
{
    let options = route_client_options(host, port, user, pass);
    connect(options).unwrap()
}

/// Hands `message` to the client's queue. A message that the queue does not
/// take, because it is full, closed, or the topic holds a wildcard, is
/// reported with its topic; it is not retried.
///
/// Whether the queue takes a message is the client's to say; what is made
/// of its answer is [`publish_outcome`].
pub fn publish(cli: &rumqttc::AsyncClient, message: &Publication) -> (r: Result<(), ActuationError>)
    ensures
        r matches Err(e) ==> e.topic@ == message.topic@,
        !topic_ok(message.topic@) ==> r is Err,
{
    let queued = try_send(cli, message);
    publish_outcome(message, queued)
}

/// Announces the gateway as online.
pub fn publish_online_status(cli: &rumqttc::AsyncClient) -> (r: Result<(), ActuationError>)
    ensures
        r matches Err(e) ==> e.topic@ == "gca/api-gateway/status"@,
{
    let message = online_status();
    publish(cli, &message)
}

/// Sends the unlock command.
pub fn publish_open_door(cli: &rumqttc::AsyncClient) -> (r: Result<(), ActuationError>)
    ensures
        r matches Err(e) ==> e.topic@ == "gca/api-gateway/unlock"@,
{
    let message = open_door();
    publish(cli, &message)
}

/// What a publish comes to, given the client's answer: done where the
/// queue took the message (`queued`), else the failure that names the
/// message's topic.
pub fn publish_outcome(message: &Publication, queued: bool) -> (r: Result<(), ActuationError>)
    ensures
        queued ==> r is Ok,
        !queued ==> (r matches Err(e) && e.topic@ == message.topic@),
{
    if queued {
        Ok(())
    } else {
        Err(ActuationError { topic: message.topic.clone() })
    }
}

/// How an event-loop poll ended, as far as the gateway cares.
#[derive(Debug, Clone, Copy, PartialEq, Eq, Structural)]
pub enum PollOutcome {
    Notification,
    ConnectionError,
}

/// At which level a poll's outcome is logged.
#[derive(Debug, Clone, Copy, PartialEq, Eq, Structural)]
pub enum LogLevel {
    Info,
    Error,
}

/// What the polling task does after a poll.
#[derive(Debug, Clone, Copy, PartialEq, Eq, Structural)]
pub struct PollStep {
    pub log: LogLevel,
    pub pause_secs: u64,
    pub poll_again: bool,
}

/// Decides what follows a poll of a client's event loop: the outcome is
/// logged, as an error where the connection failed, and after a pause the
/// loop is polled again. A failed poll never ends the task.
pub fn connection_poll(outcome: PollOutcome) -> (r: PollStep)
    ensures
        r.poll_again,
        r.pause_secs == POLL_PAUSE_SECS,
        r.log == (match outcome {
            PollOutcome::Notification => LogLevel::Info,
            PollOutcome::ConnectionError => LogLevel::Error,
        }),
{
    let log = match outcome {
        PollOutcome::Notification => LogLevel::Info,
        PollOutcome::ConnectionError => LogLevel::Error,
    };
    PollStep { log, pause_secs: POLL_PAUSE_SECS, poll_again: true }
}

} // verus!
