//! The appender and its builder.
//!
//! The appender turns one log record into one MQTT message: it renders the
//! record through its encoder, decodes the bytes as UTF-8 (lossily), strips
//! one trailing newline, and packages the text with the configured topic and
//! quality-of-service level. The host application hands the message, together
//! with the `ClientOptions` the builder resolved, to its MQTT client for the
//! actual connect and publish.

use vstd::prelude::*;
use vstd::utf8::decode_utf8;
use vstd::utf8::valid_utf8;

use crate::encode::Encode;
use crate::encode::EncodeError;
use crate::encode::PatternEncoder;
use crate::payload::payload_of;
use crate::payload::prepare_payload;
use crate::payload::strip_newline;
use crate::record::LogRecord;

verus! {

/// Connect timeout applied once at construction, in seconds.
pub const CONNECT_TIMEOUT_SECS: u64 = 5;

/// Initial automatic-reconnect backoff, in seconds.
pub const RECONNECT_MIN_SECS: u64 = 5;

/// Largest automatic-reconnect backoff, in seconds.
pub const RECONNECT_MAX_SECS: u64 = 300;

/// The topic used when none is configured.
pub open spec fn default_topic() -> Seq<char> {
    "logging"@
}

/// The broker URI used when none is configured.
pub open spec fn default_server_uri() -> Seq<char> {
    "mqtt://localhost:1883"@
}

/// One message ready for publishing: destination topic, delivery-quality
/// level, and the text payload.
#[derive(Debug)]
pub struct MqttMessage {
    pub topic: String,
    pub qos: i32,
    pub payload: String,
}

/// Everything the host needs to create and connect the MQTT client: the
/// broker URI, an optional client identity (the client library generates one
/// when it is absent), the one-time connect timeout, the
/// automatic-reconnect backoff bounds, and an optional cap on how long one
/// publish may block the caller. Without the cap, a publish blocks until the
/// client's own internal retry logic gives up or succeeds — an operational
/// hazard when the broker is unreachable.
#[derive(Debug)]
pub struct ClientOptions {
    pub server_uri: String,
    pub client_id: Option<String>,
    pub connect_timeout_secs: u64,
    pub reconnect_min_secs: u64,
    pub reconnect_max_secs: u64,
    pub publish_timeout_secs: Option<u64>,
}

/// The MQTT appender: a topic, a delivery-quality level, and an encoder.
#[derive(Debug)]
pub struct MqttAppender<E> {
    pub topic: String,
    pub qos: i32,
    pub encoder: E,
}

impl MqttAppender<PatternEncoder> {
    /// Creates a new builder with every option unset and the default pattern
    /// encoder.
    pub fn builder() -> (r: MqttAppenderBuilder<PatternEncoder>)
        ensures
            r.topic is None,
            r.qos is None,
            r.encoder == (PatternEncoder {}),
            r.mqtt_server is None,
            r.mqtt_client_id is None,
            r.publish_timeout_secs is None,
    {
        MqttAppenderBuilder {
            topic: None,
            qos: None,
            encoder: PatternEncoder::new(),
            mqtt_server: None,
            mqtt_client_id: None,
            publish_timeout_secs: None,
        }
    }
}

impl<E: Encode> MqttAppender<E> {
    /// Builds the message for one record.
    ///
    /// On success the message carries the appender's topic and
    /// delivery-quality level, and its payload is the record's rendering,
    /// decoded as UTF-8 with invalid sequences replaced, with exactly one
    /// trailing newline removed. Rendered text without a trailing newline is
    /// published unchanged. The only failure is the encoder's.
    pub fn append(&self, record: &LogRecord) -> (r: Result<MqttMessage, EncodeError>)
        ensures
            r is Ok <==> self.encoder.spec_can_encode(*record),
            r is Ok ==> r->Ok_0.topic@ == self.topic@,
            r is Ok ==> r->Ok_0.qos == self.qos,
            r is Ok ==> r->Ok_0.payload@ == payload_of(self.encoder.spec_rendered(*record)),
            r is Ok && valid_utf8(self.encoder.spec_rendered(*record)) ==> r->Ok_0.payload@
                == strip_newline(decode_utf8(self.encoder.spec_rendered(*record))),
    {
        let rendered = self.encoder.encode(record)?;
        let payload = prepare_payload(&rendered);
        Ok(MqttMessage { topic: self.topic.clone(), qos: self.qos, payload })
    }

    /// Does nothing: delivery is synchronous per record, so there is nothing
    /// buffered to flush. The function performs no call that could fail or
    /// block, and verification shows it cannot panic.
    pub fn flush(&self) {
    }
}

/// Fluent configuration for `MqttAppender`. Every field is optional; `build`
/// fills in the defaults.
#[derive(Debug)]
pub struct MqttAppenderBuilder<E> {
    pub topic: Option<String>,
    pub qos: Option<i32>,
    pub encoder: E,
    pub mqtt_server: Option<String>,
    pub mqtt_client_id: Option<String>,
    pub publish_timeout_secs: Option<u64>,
}

impl<E: Encode> MqttAppenderBuilder<E> {
    /// The topic the built appender will publish to.
    pub open spec fn resolved_topic(self) -> Seq<char> {
        if self.topic is Some {
            self.topic->0@
        } else {
            default_topic()
        }
    }

    /// The delivery-quality level the built appender will use.
    pub open spec fn resolved_qos(self) -> i32 {
        if self.qos is Some {
            self.qos->0
        } else {
            0
        }
    }

    /// The broker URI the host's client will connect to.
    pub open spec fn resolved_server(self) -> Seq<char> {
        if self.mqtt_server is Some {
            self.mqtt_server->0@
        } else {
            default_server_uri()
        }
    }

    /// Sets the output encoder for the `MqttAppender`.
    pub fn encoder<F: Encode>(self, encoder: F) -> (r: MqttAppenderBuilder<F>)
        ensures
            r.topic == self.topic,
            r.qos == self.qos,
            r.encoder == encoder,
            r.mqtt_server == self.mqtt_server,
            r.mqtt_client_id == self.mqtt_client_id,
            r.publish_timeout_secs == self.publish_timeout_secs,
    {
        MqttAppenderBuilder {
            topic: self.topic,
            qos: self.qos,
            encoder,
            mqtt_server: self.mqtt_server,
            mqtt_client_id: self.mqtt_client_id,
            publish_timeout_secs: self.publish_timeout_secs,
        }
    }

    /// Sets the MQTT topic to send logs to. Defaults to "logging".
    pub fn topic(self, topic: &str) -> (r: MqttAppenderBuilder<E>)
        ensures
            r.topic is Some && r.topic->0@ == topic@,
            r.qos == self.qos,
            r.encoder == self.encoder,
            r.mqtt_server == self.mqtt_server,
            r.mqtt_client_id == self.mqtt_client_id,
            r.publish_timeout_secs == self.publish_timeout_secs,
    {
        MqttAppenderBuilder { topic: Some(topic.to_owned()), ..self }
    }

    /// Sets the MQTT quality-of-service level to use when sending logs.
    /// Defaults to 0.
    pub fn qos(self, qos: i32) -> (r: MqttAppenderBuilder<E>)
        ensures
            r.qos == Some(qos),
            r.topic == self.topic,
            r.encoder == self.encoder,
            r.mqtt_server == self.mqtt_server,
            r.mqtt_client_id == self.mqtt_client_id,
            r.publish_timeout_secs == self.publish_timeout_secs,
    {
        MqttAppenderBuilder { qos: Some(qos), ..self }
    }

    /// Sets the MQTT server URI. Defaults to "mqtt://localhost:1883".
    pub fn mqtt_server(self, host: &str) -> (r: MqttAppenderBuilder<E>)
        ensures
            r.mqtt_server is Some && r.mqtt_server->0@ == host@,
            r.topic == self.topic,
            r.qos == self.qos,
            r.encoder == self.encoder,
            r.mqtt_client_id == self.mqtt_client_id,
            r.publish_timeout_secs == self.publish_timeout_secs,
    {
        MqttAppenderBuilder { mqtt_server: Some(host.to_owned()), ..self }
    }

    /// Sets the MQTT client identity. Defaults to a client-library-generated
    /// name.
    pub fn mqtt_client_id(self, client_id: &str) -> (r: MqttAppenderBuilder<E>)
        ensures
            r.mqtt_client_id is Some && r.mqtt_client_id->0@ == client_id@,
            r.topic == self.topic,
            r.qos == self.qos,
            r.encoder == self.encoder,
            r.mqtt_server == self.mqtt_server,
            r.publish_timeout_secs == self.publish_timeout_secs,
    {
        MqttAppenderBuilder { mqtt_client_id: Some(client_id.to_owned()), ..self }
    }

    /// Caps how long one publish may block the caller, in seconds. Without a
    /// cap, a publish blocks until the client's own internal timeout or retry
    /// logic resolves.
    pub fn publish_timeout(self, secs: u64) -> (r: MqttAppenderBuilder<E>)
        ensures
            r.publish_timeout_secs == Some(secs),
            r.topic == self.topic,
            r.qos == self.qos,
            r.encoder == self.encoder,
            r.mqtt_server == self.mqtt_server,
            r.mqtt_client_id == self.mqtt_client_id,
    {
        MqttAppenderBuilder { publish_timeout_secs: Some(secs), ..self }
    }

    /// Consumes the builder, producing the appender and the options for the
    /// host's MQTT client. Unset fields take their defaults: topic "logging",
    /// quality-of-service 0, broker URI "mqtt://localhost:1883", and a
    /// client-library-generated identity.
    pub fn build(self) -> (r: (MqttAppender<E>, ClientOptions))
        ensures
            r.0.topic@ == self.resolved_topic(),
            r.0.qos == self.resolved_qos(),
            r.0.encoder == self.encoder,
            r.1.server_uri@ == self.resolved_server(),
            r.1.client_id == self.mqtt_client_id,
            r.1.connect_timeout_secs == CONNECT_TIMEOUT_SECS,
            r.1.reconnect_min_secs == RECONNECT_MIN_SECS,
            r.1.reconnect_max_secs == RECONNECT_MAX_SECS,
            r.1.publish_timeout_secs == self.publish_timeout_secs,
    {
        let topic = match self.topic {
            Some(t) => t,
            None => "logging".to_owned(),
        };
        let qos = match self.qos {
            Some(q) => q,
            None => 0,
        };
        let server_uri = match self.mqtt_server {
            Some(s) => s,
            None => "mqtt://localhost:1883".to_owned(),
        };
        let appender = MqttAppender { topic, qos, encoder: self.encoder };
        let options = ClientOptions {
            server_uri,
            client_id: self.mqtt_client_id,
            connect_timeout_secs: CONNECT_TIMEOUT_SECS,
            reconnect_min_secs: RECONNECT_MIN_SECS,
            reconnect_max_secs: RECONNECT_MAX_SECS,
            publish_timeout_secs: self.publish_timeout_secs,
        };
        (appender, options)
    }
}

/// Law: two builders that agree on everything but the client identity
/// resolve to the same topic, the same delivery-quality level and the same
/// broker URI, and keep the same encoder. The client identity is the only
/// distinction between the two resulting publishers, so each produces its
/// messages independently of the other.
pub proof fn lemma_client_id_independence<E: Encode>(
    a: MqttAppenderBuilder<E>,
    b: MqttAppenderBuilder<E>,
)
    requires
        a.topic == b.topic,
        a.qos == b.qos,
        a.encoder == b.encoder,
        a.mqtt_server == b.mqtt_server,
        a.publish_timeout_secs == b.publish_timeout_secs,
    ensures
        a.resolved_topic() == b.resolved_topic(),
        a.resolved_qos() == b.resolved_qos(),
        a.resolved_server() == b.resolved_server(),
{
}

} // verus!
