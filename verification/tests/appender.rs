use mqtt_appender::ConfigError;
use mqtt_appender::ConfigValue;
use mqtt_appender::Deserializers;
use mqtt_appender::Encode;
use mqtt_appender::EncoderConfig;
use mqtt_appender::Level;
use mqtt_appender::LogRecord;
use mqtt_appender::MqttAppender;
use mqtt_appender::MqttAppenderConfig;
use mqtt_appender::MqttAppenderDeserializer;
use mqtt_appender::PatternEncoder;
use mqtt_appender::register;

fn record(level: Level, message: &str) -> LogRecord {
    LogRecord::new(level, "app".to_string(), message.to_string())
}

#[test]
fn pattern_encoder_renders_level_space_message_newline() {
    let enc = PatternEncoder::new();
    let rendered = enc.encode(&record(Level::Info, "hello")).unwrap();
    assert_eq!(rendered, b"INFO hello\n".to_vec());
}

#[test]
fn level_names() {
    assert_eq!(Level::Error.as_str(), "ERROR");
    assert_eq!(Level::Warn.as_str(), "WARN");
    assert_eq!(Level::Info.as_str(), "INFO");
    assert_eq!(Level::Debug.as_str(), "DEBUG");
    assert_eq!(Level::Trace.as_str(), "TRACE");
}

#[test]
fn append_strips_exactly_one_trailing_newline() {
    let (appender, _options) = MqttAppender::builder().topic("logs").qos(1).build();
    let message = appender.append(&record(Level::Info, "hello")).unwrap();
    assert_eq!(message.topic, "logs");
    assert_eq!(message.qos, 1);
    assert_eq!(message.payload, "INFO hello");
}

#[test]
fn append_keeps_inner_newlines() {
    let (appender, _options) = MqttAppender::builder().build();
    let message = appender.append(&record(Level::Warn, "a\nb")).unwrap();
    assert_eq!(message.payload, "WARN a\nb");
}

#[test]
fn defaults_when_nothing_is_configured() {
    let (appender, options) = MqttAppender::builder().build();
    assert_eq!(appender.topic, "logging");
    assert_eq!(appender.qos, 0);
    assert_eq!(appender.encoder, PatternEncoder::new());
    assert_eq!(options.server_uri, "mqtt://localhost:1883");
    assert!(options.client_id.is_none());
    assert_eq!(options.connect_timeout_secs, 5);
    assert_eq!(options.reconnect_min_secs, 5);
    assert_eq!(options.reconnect_max_secs, 300);
    assert!(options.publish_timeout_secs.is_none());
}

#[test]
fn publish_timeout_is_passed_through() {
    let (_appender, options) = MqttAppender::builder().publish_timeout(10).build();
    assert_eq!(options.publish_timeout_secs, Some(10));
}

#[test]
fn default_append_uses_default_topic_and_qos() {
    let (appender, _options) = MqttAppender::builder().build();
    let message = appender.append(&record(Level::Debug, "x")).unwrap();
    assert_eq!(message.topic, "logging");
    assert_eq!(message.qos, 0);
}

#[test]
fn flush_returns_without_error() {
    let (appender, _options) = MqttAppender::builder().build();
    appender.flush();
    appender.flush();
}

#[test]
fn builders_differing_only_in_client_id_are_independent() {
    let (a1, o1) = MqttAppender::builder().topic("t").qos(2).mqtt_client_id("one").build();
    let (a2, o2) = MqttAppender::builder().topic("t").qos(2).mqtt_client_id("two").build();
    assert_eq!(o1.server_uri, o2.server_uri);
    assert_eq!(o1.client_id.as_deref(), Some("one"));
    assert_eq!(o2.client_id.as_deref(), Some("two"));
    // Producing a message on one appender leaves the other's output unchanged.
    let m1 = a1.append(&record(Level::Info, "first")).unwrap();
    let m2 = a2.append(&record(Level::Info, "second")).unwrap();
    assert_eq!(m1.topic, m2.topic);
    assert_eq!(m1.qos, m2.qos);
    assert_eq!(m1.payload, "INFO first");
    assert_eq!(m2.payload, "INFO second");
}

#[test]
fn builder_setters_record_each_option() {
    let builder = MqttAppender::builder()
        .topic("logs")
        .qos(1)
        .mqtt_server("mqtt://broker.local:1883")
        .mqtt_client_id("app_logger");
    let (appender, options) = builder.build();
    assert_eq!(appender.topic, "logs");
    assert_eq!(appender.qos, 1);
    assert_eq!(options.server_uri, "mqtt://broker.local:1883");
    assert_eq!(options.client_id.as_deref(), Some("app_logger"));
}

#[test]
fn payload_with_no_trailing_newline_is_published_unchanged() {
    // Chosen policy: absence of a trailing newline is a no-op trim, not an
    // error and not a crash.
    let text = mqtt_appender::strip_trailing_newline("INFO hello");
    assert_eq!(text, "INFO hello");
    let payload = mqtt_appender::prepare_payload(&b"INFO hello".to_vec());
    assert_eq!(payload, "INFO hello");
}

#[test]
fn empty_rendering_gives_empty_payload() {
    let payload = mqtt_appender::prepare_payload(&Vec::new());
    assert_eq!(payload, "");
    let newline_only = mqtt_appender::prepare_payload(&b"\n".to_vec());
    assert_eq!(newline_only, "");
}

#[test]
fn invalid_utf8_is_replaced_not_rejected() {
    let payload = mqtt_appender::prepare_payload(&vec![b'h', 0xFF, b'\n']);
    assert_eq!(payload, "h\u{FFFD}");
}

#[test]
fn only_the_last_newline_is_stripped() {
    let payload = mqtt_appender::prepare_payload(&b"a\n\n".to_vec());
    assert_eq!(payload, "a\n");
}

#[test]
fn config_from_pairs_accepts_the_full_schema() {
    let entries = vec![
        ("topic".to_string(), ConfigValue::Text("logs".to_string())),
        ("qos".to_string(), ConfigValue::Int(1)),
        (
            "encoder".to_string(),
            ConfigValue::Nested(EncoderConfig { kind: "pattern".to_string() }),
        ),
        (
            "mqtt_server".to_string(),
            ConfigValue::Text("mqtt://broker.local:1883".to_string()),
        ),
        (
            "mqtt_client_id".to_string(),
            ConfigValue::Text("app_logger".to_string()),
        ),
    ];
    let config = MqttAppenderConfig::from_pairs(entries).unwrap();
    assert_eq!(config.topic.as_deref(), Some("logs"));
    assert_eq!(config.qos, Some(1));
    assert_eq!(config.encoder.as_ref().map(|e| e.kind.as_str()), Some("pattern"));
    assert_eq!(config.mqtt_server.as_deref(), Some("mqtt://broker.local:1883"));
    assert_eq!(config.mqtt_client_id.as_deref(), Some("app_logger"));
}

#[test]
fn unknown_configuration_key_is_rejected() {
    let entries = vec![
        ("topic".to_string(), ConfigValue::Text("logs".to_string())),
        ("bogus".to_string(), ConfigValue::Text("x".to_string())),
    ];
    let err = MqttAppenderConfig::from_pairs(entries).unwrap_err();
    assert!(matches!(err, ConfigError::UnknownKey(k) if k == "bogus"));
}

#[test]
fn repeated_configuration_key_is_rejected() {
    let entries = vec![
        ("qos".to_string(), ConfigValue::Int(1)),
        ("qos".to_string(), ConfigValue::Int(2)),
    ];
    let err = MqttAppenderConfig::from_pairs(entries).unwrap_err();
    assert!(matches!(err, ConfigError::DuplicateKey(k) if k == "qos"));
}

#[test]
fn wrongly_typed_configuration_value_is_rejected() {
    let entries = vec![("topic".to_string(), ConfigValue::Int(3))];
    let err = MqttAppenderConfig::from_pairs(entries).unwrap_err();
    assert!(matches!(err, ConfigError::WrongType(k) if k == "topic"));
}

#[test]
fn empty_configuration_record_sets_nothing() {
    let config = MqttAppenderConfig::from_pairs(Vec::new()).unwrap();
    assert!(config.topic.is_none());
    assert!(config.qos.is_none());
    assert!(config.encoder.is_none());
    assert!(config.mqtt_server.is_none());
    assert!(config.mqtt_client_id.is_none());
}

#[test]
fn deserializer_maps_config_onto_builder() {
    let mut config = MqttAppenderConfig::new();
    config.topic = Some("logs".to_string());
    config.qos = Some(1);
    config.encoder = Some(EncoderConfig { kind: "pattern".to_string() });
    let (builder, encoder_request) = MqttAppenderDeserializer.deserialize(config);
    assert_eq!(encoder_request.map(|e| e.kind), Some("pattern".to_string()));
    let (appender, options) = builder.build();
    assert_eq!(appender.topic, "logs");
    assert_eq!(appender.qos, 1);
    assert_eq!(options.server_uri, "mqtt://localhost:1883");
}

#[test]
fn registering_the_same_kind_twice_changes_nothing() {
    let mut deserializers = Deserializers::new();
    register(&mut deserializers);
    assert!(deserializers.is_registered("mqtt"));
    assert_eq!(deserializers.kinds.len(), 1);
    register(&mut deserializers);
    assert!(deserializers.is_registered("mqtt"));
    assert_eq!(deserializers.kinds.len(), 1);
    assert!(!deserializers.is_registered("file"));
}

#[test]
fn encode_error_carries_its_description() {
    let err = mqtt_appender::EncodeError { message: "broken record".to_string() };
    assert_eq!(err.description(), "broken record");
}
