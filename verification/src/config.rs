//! Connection configuration for one broker cluster, with validation.
//!
//! `Config` is the aggregate the application loads at startup: the
//! connection parameters of the currently configured cluster plus UI and
//! logging preferences. Reading and writing the configuration file is done
//! outside this crate; everything here is plain data and verified logic.

use vstd::prelude::*;
use vstd::string::StrSliceExecFns;
use vstd::string::StringExecFns;
use crate::error::KafkaEyeError;
use crate::error::SpecError;
use crate::strutil::seq_contains_char;
use crate::strutil::str_contains_char;
use crate::strutil::str_eq;

verus! {

#[derive(Debug, Clone)]
pub struct SaslConfig {
    pub mechanism: String,
    pub username: Option<String>,
    pub password: Option<String>,
}

#[derive(Debug, Clone)]
pub struct SslConfig {
    pub ca_location: Option<String>,
    pub certificate_location: Option<String>,
    pub key_location: Option<String>,
    pub key_password: Option<String>,
}

#[derive(Debug, Clone)]
pub struct SecurityConfig {
    pub protocol: String,
    pub sasl: Option<SaslConfig>,
    pub ssl: Option<SslConfig>,
}

#[derive(Debug, Clone)]
pub struct ProducerConfig {
    pub acks: String,
    pub compression_type: String,
    pub batch_size: u32,
    pub linger_ms: u32,
}

#[derive(Debug, Clone)]
pub struct ConsumerConfig {
    pub auto_offset_reset: String,
    pub enable_auto_commit: bool,
    pub auto_commit_interval_ms: u32,
    pub session_timeout_ms: u32,
    pub heartbeat_interval_ms: u32,
}

#[derive(Debug, Clone)]
pub struct KafkaConfig {
    pub brokers: Vec<String>,
    pub client_id: String,
    pub security: Option<SecurityConfig>,
    pub producer: ProducerConfig,
    pub consumer: ConsumerConfig,
}

#[derive(Debug, Clone)]
pub struct UiConfig {
    pub theme: String,
    pub refresh_interval_ms: u64,
    pub max_messages: usize,
    pub vim_mode: bool,
}

#[derive(Debug, Clone)]
pub struct LoggingConfig {
    pub level: String,
    pub file: Option<String>,
}

#[derive(Debug, Clone)]
pub struct Config {
    pub kafka: KafkaConfig,
    pub ui: UiConfig,
    pub logging: LoggingConfig,
}

// Mathematical views of the configuration types: the same shapes over
// character sequences.

pub struct SpecSaslConfig {
    pub mechanism: Seq<char>,
    pub username: Option<Seq<char>>,
    pub password: Option<Seq<char>>,
}

pub struct SpecSslConfig {
    pub ca_location: Option<Seq<char>>,
    pub certificate_location: Option<Seq<char>>,
    pub key_location: Option<Seq<char>>,
    pub key_password: Option<Seq<char>>,
}

pub struct SpecSecurityConfig {
    pub protocol: Seq<char>,
    pub sasl: Option<SpecSaslConfig>,
    pub ssl: Option<SpecSslConfig>,
}

pub struct SpecProducerConfig {
    pub acks: Seq<char>,
    pub compression_type: Seq<char>,
    pub batch_size: u32,
    pub linger_ms: u32,
}

pub struct SpecConsumerConfig {
    pub auto_offset_reset: Seq<char>,
    pub enable_auto_commit: bool,
    pub auto_commit_interval_ms: u32,
    pub session_timeout_ms: u32,
    pub heartbeat_interval_ms: u32,
}

pub struct SpecKafkaConfig {
    pub brokers: Seq<Seq<char>>,
    pub client_id: Seq<char>,
    pub security: Option<SpecSecurityConfig>,
    pub producer: SpecProducerConfig,
    pub consumer: SpecConsumerConfig,
}

pub struct SpecUiConfig {
    pub theme: Seq<char>,
    pub refresh_interval_ms: u64,
    pub max_messages: usize,
    pub vim_mode: bool,
}

pub struct SpecLoggingConfig {
    pub level: Seq<char>,
    pub file: Option<Seq<char>>,
}

pub struct SpecConfig {
    pub kafka: SpecKafkaConfig,
    pub ui: SpecUiConfig,
    pub logging: SpecLoggingConfig,
}

impl View for SaslConfig {
    type V = SpecSaslConfig;

    open spec fn view(&self) -> SpecSaslConfig {
        SpecSaslConfig {
            mechanism: self.mechanism@,
            username: self.username.deep_view(),
            password: self.password.deep_view(),
        }
    }
}

impl DeepView for SaslConfig {
    type V = SpecSaslConfig;

    open spec fn deep_view(&self) -> SpecSaslConfig {
        self.view()
    }
}

impl View for SslConfig {
    type V = SpecSslConfig;

    open spec fn view(&self) -> SpecSslConfig {
        SpecSslConfig {
            ca_location: self.ca_location.deep_view(),
            certificate_location: self.certificate_location.deep_view(),
            key_location: self.key_location.deep_view(),
            key_password: self.key_password.deep_view(),
        }
    }
}

impl DeepView for SslConfig {
    type V = SpecSslConfig;

    open spec fn deep_view(&self) -> SpecSslConfig {
        self.view()
    }
}

impl View for SecurityConfig {
    type V = SpecSecurityConfig;

    open spec fn view(&self) -> SpecSecurityConfig {
        SpecSecurityConfig {
            protocol: self.protocol@,
            sasl: self.sasl.deep_view(),
            ssl: self.ssl.deep_view(),
        }
    }
}

impl DeepView for SecurityConfig {
    type V = SpecSecurityConfig;

    open spec fn deep_view(&self) -> SpecSecurityConfig {
        self.view()
    }
}

impl View for ProducerConfig {
    type V = SpecProducerConfig;

    open spec fn view(&self) -> SpecProducerConfig {
        SpecProducerConfig {
            acks: self.acks@,
            compression_type: self.compression_type@,
            batch_size: self.batch_size,
            linger_ms: self.linger_ms,
        }
    }
}

impl DeepView for ProducerConfig {
    type V = SpecProducerConfig;

    open spec fn deep_view(&self) -> SpecProducerConfig {
        self.view()
    }
}

impl View for ConsumerConfig {
    type V = SpecConsumerConfig;

    open spec fn view(&self) -> SpecConsumerConfig {
        SpecConsumerConfig {
            auto_offset_reset: self.auto_offset_reset@,
            enable_auto_commit: self.enable_auto_commit,
            auto_commit_interval_ms: self.auto_commit_interval_ms,
            session_timeout_ms: self.session_timeout_ms,
            heartbeat_interval_ms: self.heartbeat_interval_ms,
        }
    }
}

impl DeepView for ConsumerConfig {
    type V = SpecConsumerConfig;

    open spec fn deep_view(&self) -> SpecConsumerConfig {
        self.view()
    }
}

impl View for KafkaConfig {
    type V = SpecKafkaConfig;

    open spec fn view(&self) -> SpecKafkaConfig {
        SpecKafkaConfig {
            brokers: self.brokers.deep_view(),
            client_id: self.client_id@,
            security: self.security.deep_view(),
            producer: self.producer@,
            consumer: self.consumer@,
        }
    }
}

impl DeepView for KafkaConfig {
    type V = SpecKafkaConfig;

    open spec fn deep_view(&self) -> SpecKafkaConfig {
        self.view()
    }
}

impl View for UiConfig {
    type V = SpecUiConfig;

    open spec fn view(&self) -> SpecUiConfig {
        SpecUiConfig {
            theme: self.theme@,
            refresh_interval_ms: self.refresh_interval_ms,
            max_messages: self.max_messages,
            vim_mode: self.vim_mode,
        }
    }
}

impl DeepView for UiConfig {
    type V = SpecUiConfig;

    open spec fn deep_view(&self) -> SpecUiConfig {
        self.view()
    }
}

impl View for LoggingConfig {
    type V = SpecLoggingConfig;

    open spec fn view(&self) -> SpecLoggingConfig {
        SpecLoggingConfig { level: self.level@, file: self.file.deep_view() }
    }
}

impl DeepView for LoggingConfig {
    type V = SpecLoggingConfig;

    open spec fn deep_view(&self) -> SpecLoggingConfig {
        self.view()
    }
}

impl View for Config {
    type V = SpecConfig;

    open spec fn view(&self) -> SpecConfig {
        SpecConfig { kafka: self.kafka@, ui: self.ui@, logging: self.logging@ }
    }
}

impl DeepView for Config {
    type V = SpecConfig;

    open spec fn deep_view(&self) -> SpecConfig {
        self.view()
    }
}

// Well-formedness: what `validate` accepts.

/// A broker address must contain a colon separating host and port.
pub open spec fn broker_ok(b: Seq<char>) -> bool {
    seq_contains_char(b, ':')
}

pub open spec fn protocol_valid(p: Seq<char>) -> bool {
    p == "PLAINTEXT"@ || p == "SSL"@ || p == "SASL_PLAINTEXT"@ || p == "SASL_SSL"@
}

pub open spec fn protocol_needs_sasl(p: Seq<char>) -> bool {
    p == "SASL_PLAINTEXT"@ || p == "SASL_SSL"@
}

pub open spec fn protocol_needs_ssl(p: Seq<char>) -> bool {
    p == "SSL"@ || p == "SASL_SSL"@
}

/// The result is a configuration error carrying exactly this detail text.
pub open spec fn is_config_err(r: Result<(), KafkaEyeError>, m: Seq<char>) -> bool {
    match r {
        Err(e) => e@ == SpecError::Config(m),
        Ok(u) => false,
    }
}

/// When brokers and client id are fine, the security block decides: each
/// possible violation maps to its exact error.
pub open spec fn security_errors_exact(
    r: Result<(), KafkaEyeError>,
    sec: Option<SpecSecurityConfig>,
) -> bool {
    match sec {
        Some(s) => {
            &&& (!protocol_valid(s.protocol) ==> is_config_err(
                r,
                "Invalid security protocol: "@ + s.protocol,
            ))
            &&& (protocol_valid(s.protocol) && protocol_needs_sasl(s.protocol) && s.sasl is None
                ==> is_config_err(r, "SASL configuration is required when using SASL protocol"@))
            &&& (protocol_valid(s.protocol) && !(protocol_needs_sasl(s.protocol) && s.sasl is None)
                && protocol_needs_ssl(s.protocol) && s.ssl is None ==> is_config_err(
                r,
                "SSL configuration is required when using SSL protocol"@,
            ))
        },
        None => true,
    }
}

pub open spec fn security_wf(s: SpecSecurityConfig) -> bool {
    &&& protocol_valid(s.protocol)
    &&& protocol_needs_sasl(s.protocol) ==> s.sasl is Some
    &&& protocol_needs_ssl(s.protocol) ==> s.ssl is Some
}

/// What a valid cluster configuration looks like: at least one broker, every
/// broker in host:port shape, a non-empty client id, and a coherent security
/// block when one is present.
pub open spec fn kafka_config_wf(k: SpecKafkaConfig) -> bool {
    &&& k.brokers.len() > 0
    &&& forall|i: int| 0 <= i < k.brokers.len() ==> broker_ok(#[trigger] k.brokers[i])
    &&& k.client_id.len() > 0
    &&& match k.security {
        Some(s) => security_wf(s),
        None => true,
    }
}

impl SaslConfig {
    /// An exact copy.
    pub fn duplicate(&self) -> (r: Self)
        ensures
            r == *self,
    {
        SaslConfig {
            mechanism: self.mechanism.clone(),
            username: match &self.username {
                Some(u) => Some(u.clone()),
                None => None,
            },
            password: match &self.password {
                Some(p) => Some(p.clone()),
                None => None,
            },
        }
    }
}

impl SslConfig {
    /// An exact copy.
    pub fn duplicate(&self) -> (r: Self)
        ensures
            r == *self,
    {
        SslConfig {
            ca_location: match &self.ca_location {
                Some(v) => Some(v.clone()),
                None => None,
            },
            certificate_location: match &self.certificate_location {
                Some(v) => Some(v.clone()),
                None => None,
            },
            key_location: match &self.key_location {
                Some(v) => Some(v.clone()),
                None => None,
            },
            key_password: match &self.key_password {
                Some(v) => Some(v.clone()),
                None => None,
            },
        }
    }
}

impl SecurityConfig {
    /// An exact copy.
    pub fn duplicate(&self) -> (r: Self)
        ensures
            r == *self,
    {
        SecurityConfig {
            protocol: self.protocol.clone(),
            sasl: match &self.sasl {
                Some(s) => Some(s.duplicate()),
                None => None,
            },
            ssl: match &self.ssl {
                Some(s) => Some(s.duplicate()),
                None => None,
            },
        }
    }
}

impl ProducerConfig {
    /// An exact copy.
    pub fn duplicate(&self) -> (r: Self)
        ensures
            r == *self,
    {
        ProducerConfig {
            acks: self.acks.clone(),
            compression_type: self.compression_type.clone(),
            batch_size: self.batch_size,
            linger_ms: self.linger_ms,
        }
    }
}

impl ConsumerConfig {
    /// An exact copy.
    pub fn duplicate(&self) -> (r: Self)
        ensures
            r == *self,
    {
        ConsumerConfig {
            auto_offset_reset: self.auto_offset_reset.clone(),
            enable_auto_commit: self.enable_auto_commit,
            auto_commit_interval_ms: self.auto_commit_interval_ms,
            session_timeout_ms: self.session_timeout_ms,
            heartbeat_interval_ms: self.heartbeat_interval_ms,
        }
    }
}

impl KafkaConfig {
    /// A copy equal to the original in every observable field.
    pub fn duplicate(&self) -> (r: Self)
        ensures
            r@ == self@,
    {
        KafkaConfig {
            brokers: crate::strutil::clone_string_vec(&self.brokers),
            client_id: self.client_id.clone(),
            security: match &self.security {
                Some(s) => Some(s.duplicate()),
                None => None,
            },
            producer: self.producer.duplicate(),
            consumer: self.consumer.duplicate(),
        }
    }
}

/// The default producer settings.
pub open spec fn producer_default() -> SpecProducerConfig {
    SpecProducerConfig {
        acks: "all"@,
        compression_type: "none"@,
        batch_size: 16384u32,
        linger_ms: 0u32,
    }
}

/// The default consumer settings.
pub open spec fn consumer_default() -> SpecConsumerConfig {
    SpecConsumerConfig {
        auto_offset_reset: "earliest"@,
        enable_auto_commit: true,
        auto_commit_interval_ms: 5000u32,
        session_timeout_ms: 30000u32,
        heartbeat_interval_ms: 3000u32,
    }
}

/// The default UI settings.
pub open spec fn ui_default() -> SpecUiConfig {
    SpecUiConfig {
        theme: "default"@,
        refresh_interval_ms: 1000u64,
        max_messages: 1000usize,
        vim_mode: true,
    }
}

impl Default for ProducerConfig {
    fn default() -> (r: Self)
        ensures
            r@ == producer_default(),
    {
        ProducerConfig {
            acks: "all".to_owned(),
            compression_type: "none".to_owned(),
            batch_size: 16384,
            linger_ms: 0,
        }
    }
}

impl Default for ConsumerConfig {
    fn default() -> (r: Self)
        ensures
            r@ == consumer_default(),
    {
        ConsumerConfig {
            auto_offset_reset: "earliest".to_owned(),
            enable_auto_commit: true,
            auto_commit_interval_ms: 5000,
            session_timeout_ms: 30000,
            heartbeat_interval_ms: 3000,
        }
    }
}

impl Default for UiConfig {
    fn default() -> (r: Self)
        ensures
            r@ == ui_default(),
    {
        UiConfig {
            theme: "default".to_owned(),
            refresh_interval_ms: 1000,
            max_messages: 1000,
            vim_mode: true,
        }
    }
}

/// The kafka block of the out-of-the-box configuration.
pub open spec fn kafka_default() -> SpecKafkaConfig {
    SpecKafkaConfig {
        brokers: seq!["localhost:9092"@],
        client_id: "kafka-eye"@,
        security: None,
        producer: producer_default(),
        consumer: consumer_default(),
    }
}

impl Default for Config {
    fn default() -> (r: Self)
        ensures
            r@.kafka == kafka_default(),
            r@.ui == ui_default(),
            r@.logging == (SpecLoggingConfig { level: "info"@, file: None }),
    {
        let brokers: Vec<String> = vec!["localhost:9092".to_owned()];
        proof {
            assert(brokers.deep_view() =~= seq!["localhost:9092"@]);
        }
        Config {
            kafka: KafkaConfig {
                brokers,
                client_id: "kafka-eye".to_owned(),
                security: None,
                producer: ProducerConfig::default(),
                consumer: ConsumerConfig::default(),
            },
            ui: UiConfig::default(),
            logging: LoggingConfig { level: "info".to_owned(), file: None },
        }
    }
}

impl Config {
    /// Replaces the broker list with the single given address.
    pub fn set_default_broker(&mut self, broker: String)
        ensures
            final(self).kafka.brokers@ == seq![broker],
            final(self).kafka.client_id == old(self).kafka.client_id,
            final(self).kafka.security == old(self).kafka.security,
            final(self).kafka.producer == old(self).kafka.producer,
            final(self).kafka.consumer == old(self).kafka.consumer,
            final(self).ui == old(self).ui,
            final(self).logging == old(self).logging,
    {
        let brokers: Vec<String> = vec![broker];
        self.kafka.brokers = brokers;
        proof {
            assert(final(self).kafka.brokers@ =~= seq![broker]);
        }
    }

    /// Appends a broker address unless an equal one is already present.
    pub fn add_broker(&mut self, broker: String)
        ensures
            old(self).kafka.brokers.deep_view().contains(broker@) ==> *final(self) == *old(self),
            !old(self).kafka.brokers.deep_view().contains(broker@) ==> {
                &&& final(self).kafka.brokers@ == old(self).kafka.brokers@.push(broker)
                &&& final(self).kafka.client_id == old(self).kafka.client_id
                &&& final(self).kafka.security == old(self).kafka.security
                &&& final(self).kafka.producer == old(self).kafka.producer
                &&& final(self).kafka.consumer == old(self).kafka.consumer
                &&& final(self).ui == old(self).ui
                &&& final(self).logging == old(self).logging
            },
    {
        let mut found = false;
        let mut i: usize = 0;
        let ghost dv = self.kafka.brokers.deep_view();
        while i < self.kafka.brokers.len()
            invariant
                *self == *old(self),
                dv == self.kafka.brokers.deep_view(),
                i <= dv.len(),
                !found ==> forall|j: int| 0 <= j < i ==> dv[j] != broker@,
                found ==> dv.contains(broker@),
            decreases dv.len() - i,
        {
            if str_eq(self.kafka.brokers[i].as_str(), broker.as_str()) {
                found = true;
                proof {
                    assert(dv[i as int] == broker@);
                }
            }
            i = i + 1;
        }
        if !found {
            self.kafka.brokers.push(broker);
        }
    }

    /// Removes every broker address equal to the given one.
    pub fn remove_broker(&mut self, broker: &str)
        ensures
            final(self).kafka.brokers.deep_view() == old(self).kafka.brokers.deep_view().filter(
                |b: Seq<char>| b != broker@,
            ),
            final(self).kafka.client_id == old(self).kafka.client_id,
            final(self).kafka.security == old(self).kafka.security,
            final(self).kafka.producer == old(self).kafka.producer,
            final(self).kafka.consumer == old(self).kafka.consumer,
            final(self).ui == old(self).ui,
            final(self).logging == old(self).logging,
    {
        let ghost dv = self.kafka.brokers.deep_view();
        let mut kept: Vec<String> = Vec::new();
        let mut i: usize = 0;
        while i < self.kafka.brokers.len()
            invariant
                *self == *old(self),
                dv == self.kafka.brokers.deep_view(),
                i <= dv.len(),
                kept.deep_view() == dv.subrange(0, i as int).filter(|b: Seq<char>| b != broker@),
            decreases dv.len() - i,
        {
            let keep = !str_eq(self.kafka.brokers[i].as_str(), broker);
            proof {
                let pre = dv.subrange(0, i as int);
                let cur = dv.subrange(0, i + 1);
                assert(cur.drop_last() =~= pre);
                assert(cur.last() == dv[i as int]);
                reveal(Seq::filter);
            }
            if keep {
                kept.push(self.kafka.brokers[i].clone());
                proof {
                    assert(kept.deep_view() =~= dv.subrange(0, i as int).filter(
                        |b: Seq<char>| b != broker@,
                    ).push(dv[i as int]));
                }
            }
            i = i + 1;
        }
        proof {
            assert(dv.subrange(0, dv.len() as int) =~= dv);
        }
        self.kafka.brokers = kept;
    }

    /// Installs the given security block.
    pub fn set_security_config(&mut self, security: SecurityConfig)
        ensures
            final(self).kafka.security == Some(security),
            final(self).kafka.brokers == old(self).kafka.brokers,
            final(self).kafka.client_id == old(self).kafka.client_id,
            final(self).kafka.producer == old(self).kafka.producer,
            final(self).kafka.consumer == old(self).kafka.consumer,
            final(self).ui == old(self).ui,
            final(self).logging == old(self).logging,
    {
        self.kafka.security = Some(security);
    }

    /// Removes the security block.
    pub fn clear_security_config(&mut self)
        ensures
            final(self).kafka.security is None,
            final(self).kafka.brokers == old(self).kafka.brokers,
            final(self).kafka.client_id == old(self).kafka.client_id,
            final(self).kafka.producer == old(self).kafka.producer,
            final(self).kafka.consumer == old(self).kafka.consumer,
            final(self).ui == old(self).ui,
            final(self).logging == old(self).logging,
    {
        self.kafka.security = None;
    }

    /// Checks the invariants of the cluster configuration and reports the
    /// first violation, if any.
    pub fn validate(&self) -> (r: Result<(), KafkaEyeError>)
        ensures
            r is Ok <==> kafka_config_wf(self@.kafka),
            ({
                let k = self@.kafka;
                let brokers_ok = (forall|i: int|
                    0 <= i < k.brokers.len() ==> broker_ok(#[trigger] k.brokers[i]));
                &&& (k.brokers.len() == 0 ==> is_config_err(
                    r,
                    "At least one Kafka broker must be configured"@,
                ))
                &&& (k.brokers.len() > 0 && !brokers_ok ==> (exists|i: int|
                    {
                        &&& 0 <= i < k.brokers.len()
                        &&& !broker_ok(#[trigger] k.brokers[i])
                        &&& (forall|j: int| 0 <= j < i ==> broker_ok(#[trigger] k.brokers[j]))
                        &&& is_config_err(
                            r,
                            "Invalid broker format: "@ + k.brokers[i]
                                + ". Expected format: host:port"@,
                        )
                    }))
                &&& (k.brokers.len() > 0 && brokers_ok && k.client_id.len() == 0 ==> is_config_err(
                    r,
                    "Client ID cannot be empty"@,
                ))
                &&& (k.brokers.len() > 0 && brokers_ok && k.client_id.len() > 0
                    ==> security_errors_exact(r, k.security))
            }),
    {
        if self.kafka.brokers.len() == 0 {
            return Err(
                KafkaEyeError::Config("At least one Kafka broker must be configured".to_owned()),
            );
        }
        let mut i: usize = 0;
        while i < self.kafka.brokers.len()
            invariant
                forall|j: int|
                    0 <= j < i ==> broker_ok(#[trigger] self.kafka.brokers.deep_view()[j]),
                i <= self.kafka.brokers@.len(),
            decreases self.kafka.brokers@.len() - i,
        {
            if !str_contains_char(self.kafka.brokers[i].as_str(), ':') {
                let mut m = "Invalid broker format: ".to_owned();
                m.append(self.kafka.brokers[i].as_str());
                m.append(". Expected format: host:port");
                proof {
                    let k = self@.kafka;
                    assert(k.brokers[i as int] == self.kafka.brokers@[i as int]@);
                    assert(!broker_ok(k.brokers[i as int]));
                    assert(!kafka_config_wf(k));
                }
                return Err(KafkaEyeError::Config(m));
            }
            i = i + 1;
        }
        if self.kafka.client_id.unicode_len() == 0 {
            return Err(KafkaEyeError::Config("Client ID cannot be empty".to_owned()));
        }
        match &self.kafka.security {
            Some(sec) => {
                let p = sec.protocol.as_str();
                let valid = str_eq(p, "PLAINTEXT") || str_eq(p, "SSL") || str_eq(
                    p,
                    "SASL_PLAINTEXT",
                ) || str_eq(p, "SASL_SSL");
                if !valid {
                    let mut m = "Invalid security protocol: ".to_owned();
                    m.append(p);
                    return Err(KafkaEyeError::Config(m));
                }
                let needs_sasl = str_eq(p, "SASL_PLAINTEXT") || str_eq(p, "SASL_SSL");
                if needs_sasl && matches!(&sec.sasl, None) {
                    return Err(
                        KafkaEyeError::Config(
                            "SASL configuration is required when using SASL protocol".to_owned(),
                        ),
                    );
                }
                let needs_ssl = str_eq(p, "SSL") || str_eq(p, "SASL_SSL");
                if needs_ssl && matches!(&sec.ssl, None) {
                    return Err(
                        KafkaEyeError::Config(
                            "SSL configuration is required when using SSL protocol".to_owned(),
                        ),
                    );
                }
            },
            None => {},
        }
        Ok(())
    }

    /// The configuration used when developing locally.
    pub fn development() -> (r: Self)
        ensures
            r@.kafka == (SpecKafkaConfig {
                brokers: seq!["localhost:9092"@],
                client_id: "kafka-eye-dev"@,
                security: None,
                producer: producer_default(),
                consumer: consumer_default(),
            }),
            r@.ui == ui_default(),
            r@.logging == (SpecLoggingConfig { level: "debug"@, file: Some("kafka-eye-dev.log"@) }),
    {
        let brokers: Vec<String> = vec!["localhost:9092".to_owned()];
        proof {
            assert(brokers.deep_view() =~= seq!["localhost:9092"@]);
        }
        Config {
            kafka: KafkaConfig {
                brokers,
                client_id: "kafka-eye-dev".to_owned(),
                security: None,
                producer: ProducerConfig::default(),
                consumer: ConsumerConfig::default(),
            },
            ui: UiConfig::default(),
            logging: LoggingConfig {
                level: "debug".to_owned(),
                file: Some("kafka-eye-dev.log".to_owned()),
            },
        }
    }

    /// A template for a hardened production configuration.
    pub fn production() -> (r: Self)
        ensures
            r@.kafka.brokers == seq!["broker1:9092"@, "broker2:9092"@, "broker3:9092"@],
            r@.kafka.client_id == "kafka-eye-prod"@,
            r@.kafka.security == Some(
                SpecSecurityConfig {
                    protocol: "SASL_SSL"@,
                    sasl: Some(
                        SpecSaslConfig {
                            mechanism: "SCRAM-SHA-256"@,
                            username: Some("kafka-user"@),
                            password: None,
                        },
                    ),
                    ssl: Some(
                        SpecSslConfig {
                            ca_location: Some("/etc/ssl/certs/ca-certificates.crt"@),
                            certificate_location: None,
                            key_location: None,
                            key_password: None,
                        },
                    ),
                },
            ),
            r@.kafka.producer == producer_default(),
            r@.kafka.consumer == consumer_default(),
            r@.ui == ui_default(),
            r@.logging == (SpecLoggingConfig {
                level: "info"@,
                file: Some("/var/log/kafka-eye.log"@),
            }),
    {
        let brokers: Vec<String> = vec![
            "broker1:9092".to_owned(),
            "broker2:9092".to_owned(),
            "broker3:9092".to_owned(),
        ];
        proof {
            assert(brokers.deep_view() =~= seq!["broker1:9092"@, "broker2:9092"@, "broker3:9092"@]);
        }
        Config {
            kafka: KafkaConfig {
                brokers,
                client_id: "kafka-eye-prod".to_owned(),
                security: Some(
                    SecurityConfig {
                        protocol: "SASL_SSL".to_owned(),
                        sasl: Some(
                            SaslConfig {
                                mechanism: "SCRAM-SHA-256".to_owned(),
                                username: Some("kafka-user".to_owned()),
                                // The credential itself comes from the
                                // environment at run time, never from here.
                                password: None,
                            },
                        ),
                        ssl: Some(
                            SslConfig {
                                ca_location: Some("/etc/ssl/certs/ca-certificates.crt".to_owned()),
                                certificate_location: None,
                                key_location: None,
                                key_password: None,
                            },
                        ),
                    },
                ),
                producer: ProducerConfig::default(),
                consumer: ConsumerConfig::default(),
            },
            ui: UiConfig::default(),
            logging: LoggingConfig {
                level: "info".to_owned(),
                file: Some("/var/log/kafka-eye.log".to_owned()),
            },
        }
    }
}

} // verus!
