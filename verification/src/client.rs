//! The client core: construction from the bootstrap configuration document,
//! topic construction, the action registry, and the action-status reports.
//!
//! The embedding program owns the broker session. Everything here computes
//! exactly what is to be subscribed to or published — topics and payloads —
//! and the program performs the transport calls with what it is handed.

use crate::action::Action;
use crate::encode::{append_escaped, push_char, spec_dec, spec_escape, format_u128};
use crate::json::{obj_get, obj_lookup, parse_json, spec_parse_json, Json};
use crate::registry::HandlerRegistry;
use vstd::prelude::*;
use vstd::string::StringExecFns;

verus! {

// ---------------------------------------------------------------------------
// Bootstrap configuration
// ---------------------------------------------------------------------------

/// The bootstrap document, read once at startup: identity, broker endpoint,
/// and the three PEM credential blobs the broker session and any firmware
/// download present for mutual TLS.
#[derive(Debug)]
pub struct DeviceConfig {
    pub project_id: String,
    pub broker: String,
    pub port: u32,
    pub device_id: String,
    pub ca_certificate: String,
    pub device_certificate: String,
    pub device_private_key: String,
}

/// The mathematical value of a [`DeviceConfig`].
pub struct DeviceConfigView {
    pub project_id: Seq<char>,
    pub broker: Seq<char>,
    pub port: u32,
    pub device_id: Seq<char>,
    pub ca_certificate: Seq<char>,
    pub device_certificate: Seq<char>,
    pub device_private_key: Seq<char>,
}

impl View for DeviceConfig {
    type V = DeviceConfigView;

    open spec fn view(&self) -> DeviceConfigView {
        DeviceConfigView {
            project_id: self.project_id@,
            broker: self.broker@,
            port: self.port,
            device_id: self.device_id@,
            ca_certificate: self.ca_certificate@,
            device_certificate: self.device_certificate@,
            device_private_key: self.device_private_key@,
        }
    }
}

/// Why a configuration document was rejected.
#[derive(Clone, Copy, PartialEq, Eq, Debug)]
pub enum ConfigError {
    /// Not one complete JSON document.
    Syntax,
    /// A JSON document, but not of the configuration's shape.
    Shape,
}

/// The authentication bundle carried by a decoded configuration document:
/// an object whose three credential fields are strings.
pub open spec fn spec_auth_of(j: Json) -> Option<(Seq<char>, Seq<char>, Seq<char>)> {
    match j {
        Json::Obj(entries) => match (
            obj_lookup(entries@, "ca_certificate"@),
            obj_lookup(entries@, "device_certificate"@),
            obj_lookup(entries@, "device_private_key"@),
        ) {
            (Some(Json::Str(ca)), Some(Json::Str(cert)), Some(Json::Str(key))) => Some(
                (ca@, cert@, key@),
            ),
            _ => None,
        },
        _ => None,
    }
}

/// The configuration carried by a decoded JSON document, if any: an object
/// with string `project_id`, `broker` and `device_id`, a `port` that fits a
/// 32-bit unsigned integer, and an `authentication` bundle.
pub open spec fn spec_device_config_of(j: Json) -> Option<DeviceConfigView> {
    match j {
        Json::Obj(entries) => match (
            obj_lookup(entries@, "project_id"@),
            obj_lookup(entries@, "broker"@),
            obj_lookup(entries@, "port"@),
            obj_lookup(entries@, "device_id"@),
            obj_lookup(entries@, "authentication"@),
        ) {
            (
                Some(Json::Str(project)),
                Some(Json::Str(broker)),
                Some(Json::UInt(port)),
                Some(Json::Str(device)),
                Some(auth),
            ) => if port <= u32::MAX as u64 {
                match spec_auth_of(auth) {
                    Some((ca, cert, key)) => Some(
                        DeviceConfigView {
                            project_id: project@,
                            broker: broker@,
                            port: port as u32,
                            device_id: device@,
                            ca_certificate: ca,
                            device_certificate: cert,
                            device_private_key: key,
                        },
                    ),
                    None => None,
                }
            } else {
                None
            },
            _ => None,
        },
        _ => None,
    }
}

impl DeviceConfig {
    /// Decodes the bootstrap document. Succeeds exactly on one complete JSON
    /// document of the configuration's shape; any other input is fatal to
    /// client construction, and the error says which way it failed.
    pub fn decode(doc: &[u8]) -> (r: Result<DeviceConfig, ConfigError>)
        ensures
            match r {
                Ok(cfg) => match spec_parse_json(doc@) {
                    Some(j) => spec_device_config_of(j) == Some(cfg@),
                    None => false,
                },
                Err(ConfigError::Syntax) => spec_parse_json(doc@) is None,
                Err(ConfigError::Shape) => match spec_parse_json(doc@) {
                    Some(j) => spec_device_config_of(j) is None,
                    None => false,
                },
            },
    {
        let j = match parse_json(doc) {
            Some(j) => j,
            None => {
                return Err(ConfigError::Syntax);
            },
        };
        let entries = match &j {
            Json::Obj(entries) => entries,
            _ => {
                return Err(ConfigError::Shape);
            },
        };
        let project_id = match obj_get(entries, "project_id") {
            Some(Json::Str(s)) => s.clone(),
            _ => {
                return Err(ConfigError::Shape);
            },
        };
        let broker = match obj_get(entries, "broker") {
            Some(Json::Str(s)) => s.clone(),
            _ => {
                return Err(ConfigError::Shape);
            },
        };
        let port64 = match obj_get(entries, "port") {
            Some(Json::UInt(n)) => *n,
            _ => {
                return Err(ConfigError::Shape);
            },
        };
        if port64 > u32::MAX as u64 {
            return Err(ConfigError::Shape);
        }
        let device_id = match obj_get(entries, "device_id") {
            Some(Json::Str(s)) => s.clone(),
            _ => {
                return Err(ConfigError::Shape);
            },
        };
        let auth_entries = match obj_get(entries, "authentication") {
            Some(Json::Obj(auth_entries)) => auth_entries,
            _ => {
                return Err(ConfigError::Shape);
            },
        };
        let ca_certificate = match obj_get(auth_entries, "ca_certificate") {
            Some(Json::Str(s)) => s.clone(),
            _ => {
                return Err(ConfigError::Shape);
            },
        };
        let device_certificate = match obj_get(auth_entries, "device_certificate") {
            Some(Json::Str(s)) => s.clone(),
            _ => {
                return Err(ConfigError::Shape);
            },
        };
        let device_private_key = match obj_get(auth_entries, "device_private_key") {
            Some(Json::Str(s)) => s.clone(),
            _ => {
                return Err(ConfigError::Shape);
            },
        };
        Ok(
            DeviceConfig {
                project_id,
                broker,
                port: port64 as u32,
                device_id,
                ca_certificate,
                device_certificate,
                device_private_key,
            },
        )
    }

    /// The broker endpoint as the session library takes it.
    pub fn broker_uri(&self) -> (r: String)
        ensures
            r@ == spec_broker_uri(self.broker@, self.port as int),
    {
        let mut uri = String::new();
        uri.append("mqtts://");
        uri.append(self.broker.as_str());
        uri.append(":");
        let port = format_u128(self.port as u128);
        uri.append(port.as_str());
        proof {
            assert(uri@ =~= spec_broker_uri(self.broker@, self.port as int));
        }
        uri
    }
}

// ---------------------------------------------------------------------------
// Topics
// ---------------------------------------------------------------------------

/// The topic the device subscribes to for inbound actions.
pub open spec fn spec_actions_topic(project: Seq<char>, device: Seq<char>) -> Seq<char> {
    "/tenants/"@ + project + "/devices/"@ + device + "/actions"@
}

/// The topic one telemetry stream is published to.
pub open spec fn spec_stream_topic(
    project: Seq<char>,
    device: Seq<char>,
    stream: Seq<char>,
) -> Seq<char> {
    "/tenants/"@ + project + "/devices/"@ + device + "/events/"@ + stream + "/jsonarray"@
}

/// The topic action-status reports are published to.
pub open spec fn spec_status_topic(project: Seq<char>, device: Seq<char>) -> Seq<char> {
    "/tenants/"@ + project + "/devices/"@ + device + "/action/status"@
}

/// The broker endpoint: an encrypted session to `broker` on `port`.
pub open spec fn spec_broker_uri(broker: Seq<char>, port: int) -> Seq<char> {
    "mqtts://"@ + broker + ":"@ + spec_dec(port)
}

// ---------------------------------------------------------------------------
// The action-status wire payload
// ---------------------------------------------------------------------------

/// A string as a JSON string literal: quoted and escaped.
pub open spec fn spec_quoted(s: Seq<char>) -> Seq<char> {
    seq!['"'] + spec_escape(s) + seq!['"']
}

/// The elements of the `errors` array: each message a string literal,
/// separated by commas.
pub open spec fn spec_errors_array(errors: Seq<Seq<char>>) -> Seq<char>
    decreases errors.len(),
{
    if errors.len() == 0 {
        Seq::empty()
    } else if errors.len() == 1 {
        spec_quoted(errors[0])
    } else {
        spec_quoted(errors[0]) + seq![','] + spec_errors_array(errors.drop_first())
    }
}

/// One action-status report as the wire carries it: a single-element JSON
/// array holding the report object, fields in this order and nothing else.
pub open spec fn spec_status_json(
    id: Seq<char>,
    timestamp: int,
    errors: Seq<Seq<char>>,
    progress: int,
    state: Seq<char>,
) -> Seq<char> {
    "[{\"id\":"@ + spec_quoted(id) + ",\"timestamp\":"@ + spec_dec(timestamp) + ",\"errors\":["@
        + spec_errors_array(errors) + "],\"progress\":"@ + spec_dec(progress) + ",\"state\":"@
        + spec_quoted(state) + "}]"@
}

/// Appending one more message to the `errors` array appends a comma (after
/// a first element) and the message's string literal.
proof fn lemma_errors_array_push(errors: Seq<Seq<char>>, e: Seq<char>)
    ensures
        spec_errors_array(errors.push(e)) == if errors.len() == 0 {
            spec_quoted(e)
        } else {
            spec_errors_array(errors) + seq![','] + spec_errors_array(seq![e])
        },
    decreases errors.len(),
{
    if errors.len() == 0 {
        assert(errors.push(e) =~= seq![e]);
        assert(spec_errors_array(seq![e]) == spec_quoted(e));
    } else {
        assert(errors.push(e).drop_first() =~= errors.drop_first().push(e));
        lemma_errors_array_push(errors.drop_first(), e);
        assert(spec_errors_array(errors.push(e)) =~= spec_errors_array(errors) + seq![',']
            + spec_errors_array(seq![e]));
    }
}

/// Appends a JSON string literal.
fn append_quoted(out: &mut String, s: &str)
    ensures
        final(out)@ == old(out)@ + spec_quoted(s@),
{
    push_char(out, '"');
    append_escaped(out, s);
    push_char(out, '"');
    proof {
        assert(out@ =~= old(out)@ + spec_quoted(s@));
    }
}

// ---------------------------------------------------------------------------
// The client
// ---------------------------------------------------------------------------

/// The delivery level a message is published at.
#[derive(Clone, Copy, PartialEq, Eq, Debug)]
pub enum QoS {
    AtMostOnce,
    AtLeastOnce,
    ExactlyOnce,
}

/// A message for the embedding program to publish: the topic, the bytes,
/// and how to deliver them.
pub struct PublishRequest {
    pub topic: String,
    pub payload: Vec<u8>,
    pub qos: QoS,
    pub retain: bool,
}

/// An action-status report for the embedding program to publish.
pub struct StatusMessage {
    pub topic: String,
    pub body: String,
    pub qos: QoS,
    pub retain: bool,
}

/// The client core: the device's identity, its credential blobs, and the
/// action registry. Handlers are values of the capability type `H` the
/// embedding program dispatches on.
pub struct ByteBeamClient<H> {
    pub device_id: String,
    pub project_id: String,
    pub ca_cert: String,
    pub device_cert: String,
    pub device_key: String,
    pub handlers: HandlerRegistry<H>,
}

impl<H> ByteBeamClient<H> {
    /// The registry's value: which handler each action name has.
    pub open spec fn registered(&self) -> Map<Seq<char>, H> {
        self.handlers@
    }

    /// Builds the client from a decoded configuration: its identity and
    /// credentials are the configuration's, and no action name has a
    /// handler yet.
    pub fn init(config: DeviceConfig) -> (r: ByteBeamClient<H>)
        ensures
            r.device_id == config.device_id,
            r.project_id == config.project_id,
            r.ca_cert == config.ca_certificate,
            r.device_cert == config.device_certificate,
            r.device_key == config.device_private_key,
            r.registered() == Map::<Seq<char>, H>::empty(),
    {
        ByteBeamClient {
            device_id: config.device_id,
            project_id: config.project_id,
            ca_cert: config.ca_certificate,
            device_cert: config.device_certificate,
            device_key: config.device_private_key,
            handlers: HandlerRegistry::new(),
        }
    }

    /// Registers a handler for an action name: an unconditional upsert. A
    /// handler already registered under the name is replaced silently; all
    /// other registrations and the client's identity are untouched.
    pub fn register_action_handle(&mut self, action_name: String, action_function: H)
        ensures
            final(self).registered() == old(self).registered().insert(
                action_name@,
                action_function,
            ),
            final(self).device_id == old(self).device_id,
            final(self).project_id == old(self).project_id,
            final(self).ca_cert == old(self).ca_cert,
            final(self).device_cert == old(self).device_cert,
            final(self).device_key == old(self).device_key,
    {
        self.handlers.register(action_name, action_function);
    }

    /// The handler for one inbound action, by its name: exactly the handler
    /// registered for that name, or nothing when the name has none — the
    /// execution loop then logs and moves on. The action itself is not
    /// touched.
    pub fn dispatch<'a>(&'a self, action: &Action) -> (r: Option<&'a H>)
        ensures
            match r {
                Some(h) => self.registered().contains_key(action.name@) && *h
                    == self.registered()[action.name@],
                None => !self.registered().contains_key(action.name@),
            },
    {
        self.handlers.lookup(action.name.as_str())
    }

    /// The topic the ingress loop (re)subscribes to on every connect event.
    pub fn actions_topic(&self) -> (r: String)
        ensures
            r@ == spec_actions_topic(self.project_id@, self.device_id@),
    {
        let mut t = String::new();
        t.append("/tenants/");
        t.append(self.project_id.as_str());
        t.append("/devices/");
        t.append(self.device_id.as_str());
        t.append("/actions");
        proof {
            assert(t@ =~= spec_actions_topic(self.project_id@, self.device_id@));
        }
        t
    }

    /// The message that publishes caller-supplied telemetry to one stream:
    /// the stream's topic, the payload untouched.
    pub fn publish_to_stream(&self, stream_name: &str, payload: &[u8]) -> (r: PublishRequest)
        ensures
            r.topic@ == spec_stream_topic(self.project_id@, self.device_id@, stream_name@),
            r.payload@ == payload@,
            r.qos == QoS::AtLeastOnce,
            !r.retain,
    {
        let mut t = String::new();
        t.append("/tenants/");
        t.append(self.project_id.as_str());
        t.append("/devices/");
        t.append(self.device_id.as_str());
        t.append("/events/");
        t.append(stream_name);
        t.append("/jsonarray");
        proof {
            assert(t@ =~= spec_stream_topic(self.project_id@, self.device_id@, stream_name@));
        }
        PublishRequest {
            topic: t,
            payload: vstd::slice::slice_to_vec(payload),
            qos: QoS::AtLeastOnce,
            retain: false,
        }
    }

    /// The report that publishes one action's progress: the device's status
    /// topic, and the single-element JSON array of the report — the action's
    /// id, the caller's timestamp, the error messages (an empty array when
    /// there are none), the progress percentage and the state label. Every
    /// message of this client goes out at-least-once and unretained.
    pub fn publish_action_status(
        &self,
        action_id: &str,
        percentage: u32,
        status: &str,
        error_messages: Option<&[&str]>,
        timestamp_ms: u128,
    ) -> (r: StatusMessage)
        ensures
            r.topic@ == spec_status_topic(self.project_id@, self.device_id@),
            r.qos == QoS::AtLeastOnce,
            !r.retain,
            r.body@ == spec_status_json(
                action_id@,
                timestamp_ms as int,
                match error_messages {
                    Some(es) => es@.map_values(|e: &str| e@),
                    None => Seq::empty(),
                },
                percentage as int,
                status@,
            ),
    {
        let mut t = String::new();
        t.append("/tenants/");
        t.append(self.project_id.as_str());
        t.append("/devices/");
        t.append(self.device_id.as_str());
        t.append("/action/status");
        proof {
            assert(t@ =~= spec_status_topic(self.project_id@, self.device_id@));
        }

        let ghost errs: Seq<Seq<char>> = match error_messages {
            Some(es) => es@.map_values(|e: &str| e@),
            None => Seq::empty(),
        };

        let mut body = String::new();
        body.append("[{\"id\":");
        append_quoted(&mut body, action_id);
        body.append(",\"timestamp\":");
        let ts = format_u128(timestamp_ms);
        body.append(ts.as_str());
        body.append(",\"errors\":[");
        let ghost before_errors = body@;
        if let Some(es) = error_messages {
            let mut i: usize = 0;
            proof {
                assert(errs.take(0) =~= Seq::<Seq<char>>::empty());
            }
            while i < es.len()
                invariant
                    i <= es.len(),
                    errs == es@.map_values(|e: &str| e@),
                    errs.len() == es.len(),
                    forall|k: int| 0 <= k < es.len() ==> errs[k] == es@[k]@,
                    body@ == before_errors + spec_errors_array(errs.take(i as int)),
                decreases es.len() - i,
            {
                if i > 0 {
                    push_char(&mut body, ',');
                }
                append_quoted(&mut body, es[i]);
                proof {
                    assert(errs.take(i + 1) =~= errs.take(i as int).push(errs[i as int]));
                    lemma_errors_array_push(errs.take(i as int), errs[i as int]);
                    assert(spec_errors_array(seq![errs[i as int]]) == spec_quoted(errs[i as int]));
                    assert(body@ =~= before_errors + spec_errors_array(errs.take(i + 1)));
                }
                i = i + 1;
            }
            proof {
                assert(errs.take(es.len() as int) =~= errs);
            }
        }
        body.append("],\"progress\":");
        let p = format_u128(percentage as u128);
        body.append(p.as_str());
        body.append(",\"state\":");
        append_quoted(&mut body, status);
        body.append("}]");
        proof {
            assert(body@ =~= spec_status_json(
                action_id@,
                timestamp_ms as int,
                errs,
                percentage as int,
                status@,
            ));
        }

        StatusMessage { topic: t, body, qos: QoS::AtLeastOnce, retain: false }
    }

    /// Enables over-the-air firmware updates: registers the given OTA
    /// capability under the reserved action name `update_firmware`.
    pub fn enable_ota(&mut self, ota_handler: H)
        ensures
            final(self).registered() == old(self).registered().insert(
                "update_firmware"@,
                ota_handler,
            ),
            final(self).device_id == old(self).device_id,
            final(self).project_id == old(self).project_id,
            final(self).ca_cert == old(self).ca_cert,
            final(self).device_cert == old(self).device_cert,
            final(self).device_key == old(self).device_key,
    {
        self.register_action_handle("update_firmware".to_owned(), ota_handler);
    }
}

/// Law: registering a handler and then dispatching an action of that name
/// selects exactly that handler; every other name's handler — or the lack of
/// one — is as it was before the registration.
pub proof fn lemma_register_then_dispatch<H>(
    registered: Map<Seq<char>, H>,
    name: Seq<char>,
    handler: H,
    other: Seq<char>,
)
    ensures
        registered.insert(name, handler).contains_key(name),
        registered.insert(name, handler)[name] == handler,
        other != name ==> registered.insert(name, handler).contains_key(other)
            == registered.contains_key(other),
        other != name && registered.contains_key(other) ==> registered.insert(name, handler)[other]
            == registered[other],
{
}

} // verus!
