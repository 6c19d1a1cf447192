//! An MQTT appender for a logging framework.
//!
//! Each log record is rendered to bytes by a pluggable encoder, decoded as
//! UTF-8 (lossily), stripped of one trailing newline, and packaged as an MQTT
//! message for a configured topic and quality-of-service level. The crate
//! models the appender, its builder, its configuration schema, and the
//! deserializer registry; the host application owns the network client and
//! performs the actual connect and publish calls.
//!
//! # Warning
//! Never route the MQTT client's own diagnostic log targets back through this
//! appender: a publish would then trigger further log records and the client's
//! internal synchronization can deadlock.

pub mod appender;
pub mod config;
pub mod encode;
pub mod payload;
pub mod record;
pub mod registry;

pub use appender::ClientOptions;
pub use appender::MqttAppender;
pub use appender::MqttAppenderBuilder;
pub use appender::MqttMessage;
pub use config::ConfigError;
pub use config::ConfigValue;
pub use config::EncoderConfig;
pub use config::MqttAppenderConfig;
pub use config::MqttAppenderDeserializer;
pub use encode::Encode;
pub use encode::EncodeError;
pub use encode::PatternEncoder;
pub use payload::prepare_payload;
pub use payload::strip_trailing_newline;
pub use record::Level;
pub use record::LogRecord;
pub use registry::register;
pub use registry::Deserializers;
