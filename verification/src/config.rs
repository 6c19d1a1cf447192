//! The configuration record and its adapter.
//!
//! A configuration record arrives from the host as key/value entries. The
//! schema is strict: the recognized keys are `topic`, `qos`, `encoder`,
//! `mqtt_server` and `mqtt_client_id`; an unknown key, a repeated key, or a
//! value of the wrong type rejects the whole record. The deserializer then
//! maps an accepted record onto a builder, handing the nested encoder
//! specification back to the host, whose own encoder registry resolves it.

use vstd::prelude::*;
use vstd::string::StringExecFns;

use crate::appender::MqttAppender;
use crate::appender::MqttAppenderBuilder;
use crate::encode::PatternEncoder;

verus! {

/// The nested encoder specification: the kind under which the host's
/// registry finds the encoder deserializer.
#[derive(Debug)]
pub struct EncoderConfig {
    pub kind: String,
}

/// Configuration for the MQTT appender. Every field is optional; the builder
/// fills in the defaults for fields left unset.
#[derive(Debug)]
pub struct MqttAppenderConfig {
    pub topic: Option<String>,
    pub qos: Option<i32>,
    pub encoder: Option<EncoderConfig>,
    pub mqtt_server: Option<String>,
    pub mqtt_client_id: Option<String>,
}

/// One value of an external configuration record.
#[derive(Debug)]
pub enum ConfigValue {
    Text(String),
    Int(i32),
    Nested(EncoderConfig),
}

/// Why a configuration record was rejected; each variant carries the
/// offending key.
#[derive(Debug)]
pub enum ConfigError {
    UnknownKey(String),
    DuplicateKey(String),
    WrongType(String),
}

/// Whether `k` is one of the five recognized configuration keys.
pub open spec fn recognized_key(k: Seq<char>) -> bool {
    ||| k == "topic"@
    ||| k == "qos"@
    ||| k == "encoder"@
    ||| k == "mqtt_server"@
    ||| k == "mqtt_client_id"@
}

/// A configuration with every field unset.
pub open spec fn spec_empty_config() -> MqttAppenderConfig {
    MqttAppenderConfig {
        topic: None,
        qos: None,
        encoder: None,
        mqtt_server: None,
        mqtt_client_id: None,
    }
}

/// The effect of one configuration entry on a partial configuration: the
/// field named by `k` is set to `v`, unless the key is unknown, already set,
/// or `v` has the wrong type.
pub open spec fn spec_apply_entry(
    c: MqttAppenderConfig,
    k: String,
    v: ConfigValue,
) -> Result<MqttAppenderConfig, ConfigError> {
    if k@ == "topic"@ {
        if c.topic is Some {
            Err(ConfigError::DuplicateKey(k))
        } else {
            match v {
                ConfigValue::Text(s) => Ok(MqttAppenderConfig { topic: Some(s), ..c }),
                _ => Err(ConfigError::WrongType(k)),
            }
        }
    } else if k@ == "qos"@ {
        if c.qos is Some {
            Err(ConfigError::DuplicateKey(k))
        } else {
            match v {
                ConfigValue::Int(q) => Ok(MqttAppenderConfig { qos: Some(q), ..c }),
                _ => Err(ConfigError::WrongType(k)),
            }
        }
    } else if k@ == "encoder"@ {
        if c.encoder is Some {
            Err(ConfigError::DuplicateKey(k))
        } else {
            match v {
                ConfigValue::Nested(e) => Ok(MqttAppenderConfig { encoder: Some(e), ..c }),
                _ => Err(ConfigError::WrongType(k)),
            }
        }
    } else if k@ == "mqtt_server"@ {
        if c.mqtt_server is Some {
            Err(ConfigError::DuplicateKey(k))
        } else {
            match v {
                ConfigValue::Text(s) => Ok(MqttAppenderConfig { mqtt_server: Some(s), ..c }),
                _ => Err(ConfigError::WrongType(k)),
            }
        }
    } else if k@ == "mqtt_client_id"@ {
        if c.mqtt_client_id is Some {
            Err(ConfigError::DuplicateKey(k))
        } else {
            match v {
                ConfigValue::Text(s) => Ok(
                    MqttAppenderConfig { mqtt_client_id: Some(s), ..c },
                ),
                _ => Err(ConfigError::WrongType(k)),
            }
        }
    } else {
        Err(ConfigError::UnknownKey(k))
    }
}

/// The configuration that the entries, applied in order to `c`, produce, or
/// the first rejection.
pub open spec fn spec_parse_entries(
    c: MqttAppenderConfig,
    entries: Seq<(String, ConfigValue)>,
) -> Result<MqttAppenderConfig, ConfigError>
    decreases entries.len(),
{
    if entries.len() == 0 {
        Ok(c)
    } else {
        match spec_apply_entry(c, entries[0].0, entries[0].1) {
            Ok(c2) => spec_parse_entries(c2, entries.drop_first()),
            Err(e) => Err(e),
        }
    }
}

/// Applies one entry to a partial configuration.
fn apply_entry(c: MqttAppenderConfig, k: String, v: ConfigValue) -> (r: Result<
    MqttAppenderConfig,
    ConfigError,
>)
    ensures
        r == spec_apply_entry(c, k, v),
{
    if k == String::from_str("topic") {
        if c.topic.is_some() {
            Err(ConfigError::DuplicateKey(k))
        } else {
            match v {
                ConfigValue::Text(s) => Ok(MqttAppenderConfig { topic: Some(s), ..c }),
                _ => Err(ConfigError::WrongType(k)),
            }
        }
    } else if k == String::from_str("qos") {
        if c.qos.is_some() {
            Err(ConfigError::DuplicateKey(k))
        } else {
            match v {
                ConfigValue::Int(q) => Ok(MqttAppenderConfig { qos: Some(q), ..c }),
                _ => Err(ConfigError::WrongType(k)),
            }
        }
    } else if k == String::from_str("encoder") {
        if c.encoder.is_some() {
            Err(ConfigError::DuplicateKey(k))
        } else {
            match v {
                ConfigValue::Nested(e) => Ok(MqttAppenderConfig { encoder: Some(e), ..c }),
                _ => Err(ConfigError::WrongType(k)),
            }
        }
    } else if k == String::from_str("mqtt_server") {
        if c.mqtt_server.is_some() {
            Err(ConfigError::DuplicateKey(k))
        } else {
            match v {
                ConfigValue::Text(s) => Ok(MqttAppenderConfig { mqtt_server: Some(s), ..c }),
                _ => Err(ConfigError::WrongType(k)),
            }
        }
    } else if k == String::from_str("mqtt_client_id") {
        if c.mqtt_client_id.is_some() {
            Err(ConfigError::DuplicateKey(k))
        } else {
            match v {
                ConfigValue::Text(s) => Ok(MqttAppenderConfig { mqtt_client_id: Some(s), ..c }),
                _ => Err(ConfigError::WrongType(k)),
            }
        }
    } else {
        Err(ConfigError::UnknownKey(k))
    }
}

impl MqttAppenderConfig {
    /// A configuration with every field unset.
    pub fn new() -> (r: MqttAppenderConfig)
        ensures
            r == spec_empty_config(),
    {
        MqttAppenderConfig {
            topic: None,
            qos: None,
            encoder: None,
            mqtt_server: None,
            mqtt_client_id: None,
        }
    }

    /// Builds a configuration from the key/value entries of an external
    /// configuration record, applied in order. The schema is strict: the
    /// first unknown key, repeated key, or value of the wrong type rejects
    /// the record.
    pub fn from_pairs(entries: Vec<(String, ConfigValue)>) -> (r: Result<
        MqttAppenderConfig,
        ConfigError,
    >)
        ensures
            r == spec_parse_entries(spec_empty_config(), entries@),
    {
        let ghost all_entries = entries@;
        let mut cfg = MqttAppenderConfig::new();
        let mut rest = entries;
        loop
            invariant
                all_entries == entries@,
                spec_parse_entries(spec_empty_config(), all_entries) == spec_parse_entries(
                    cfg,
                    rest@,
                ),
            decreases rest@.len(),
        {
            if rest.len() == 0 {
                return Ok(cfg);
            }
            let ghost rest_before = rest@;
            let kv = rest.remove(0);
            proof {
                assert(kv == rest_before[0]);
                assert(rest@ =~= rest_before.drop_first());
            }
            match apply_entry(cfg, kv.0, kv.1) {
                Ok(c2) => {
                    cfg = c2;
                },
                Err(e) => {
                    return Err(e);
                },
            }
        }
    }
}

impl Default for MqttAppenderConfig {
    /// A configuration with every field unset.
    fn default() -> (r: Self)
        ensures
            r == spec_empty_config(),
    {
        MqttAppenderConfig::new()
    }
}

/// Law: a configuration record with an unrecognized key among its entries is
/// rejected, whatever the other entries hold.
pub proof fn lemma_unknown_key_rejected(
    c: MqttAppenderConfig,
    entries: Seq<(String, ConfigValue)>,
    i: int,
)
    requires
        0 <= i < entries.len(),
        !recognized_key(entries[i].0@),
    ensures
        spec_parse_entries(c, entries) is Err,
    decreases entries.len(),
{
    if i == 0 {
        assert(spec_apply_entry(c, entries[0].0, entries[0].1) is Err);
    } else {
        match spec_apply_entry(c, entries[0].0, entries[0].1) {
            Ok(c2) => {
                assert(entries.drop_first()[i - 1] == entries[i]);
                lemma_unknown_key_rejected(c2, entries.drop_first(), i - 1);
            },
            Err(e) => {
            },
        }
    }
}

/// The deserializer for the MQTT appender: maps an accepted configuration
/// record onto a builder.
#[derive(Copy, Clone, PartialEq, Eq, Structural, Hash, Debug, Default)]
pub struct MqttAppenderDeserializer;

impl MqttAppenderDeserializer {
    /// Maps a configuration record onto a builder: each set field becomes
    /// the corresponding builder option, unset fields stay unset. The nested
    /// encoder specification is handed back so that the host's own encoder
    /// registry can resolve it and install the result with
    /// `MqttAppenderBuilder::encoder`; until then the builder carries the
    /// default pattern encoder.
    pub fn deserialize(&self, config: MqttAppenderConfig) -> (r: (
        MqttAppenderBuilder<PatternEncoder>,
        Option<EncoderConfig>,
    ))
        ensures
            r.0.topic == config.topic,
            r.0.qos == config.qos,
            r.0.encoder == (PatternEncoder {}),
            r.0.mqtt_server == config.mqtt_server,
            r.0.mqtt_client_id == config.mqtt_client_id,
            r.1 == config.encoder,
    {
        let builder = MqttAppender::builder();
        let builder = MqttAppenderBuilder {
            topic: config.topic,
            qos: config.qos,
            mqtt_server: config.mqtt_server,
            mqtt_client_id: config.mqtt_client_id,
            ..builder
        };
        (builder, config.encoder)
    }
}

} // verus!
