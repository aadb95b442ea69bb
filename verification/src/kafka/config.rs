//! The client configurations for the Kafka producer and consumer.
use vstd::prelude::*;
use vstd::string::*;
use rdkafka::config::ClientConfig;

verus! {

#[verifier::external_type_specification]
#[verifier::external_body]
pub struct ExClientConfig(ClientConfig);

/// The parameters that a client configuration holds, by name.
pub uninterp spec fn client_config_entries(config: ClientConfig) -> Map<Seq<char>, Seq<char>>;

/// `rdkafka::config::ClientConfig::new`: a configuration that holds no parameter.
/// (Its log level, taken from the global logger, is not stated.)
#[verifier::external_body]
fn new_client_config() -> (c: ClientConfig)
    ensures
        client_config_entries(c).dom() == Set::<Seq<char>>::empty(),
{
    ClientConfig::new()
}

/// `rdkafka::config::ClientConfig::set`: stores `value` under `key`, replacing an
/// earlier value of that key.
#[verifier::external_body]
fn set_parameter(config: &mut ClientConfig, key: &str, value: &str)
    ensures
        client_config_entries(*final(config)) == client_config_entries(*old(config)).insert(
            key@,
            value@,
        ),
{
    config.set(key, value);
}

/// Where the Kafka brokers are and which consumer group this service joins.
pub struct KafkaConfig {
    bootstrap_servers: String,
    group_id: String,
}

impl KafkaConfig {
    pub closed spec fn bootstrap_servers_of(self) -> Seq<char> {
        self.bootstrap_servers@
    }

    pub closed spec fn group_id_of(self) -> Seq<char> {
        self.group_id@
    }

    /// The parameters of the producer's client.
    pub open spec fn producer_parameters(self) -> Map<Seq<char>, Seq<char>> {
        map![
            "bootstrap.servers"@ => self.bootstrap_servers_of(),
            "message.timeout.ms"@ => "5000"@,
        ]
    }

    /// The parameters of the consumer's client.
    pub open spec fn consumer_parameters(self) -> Map<Seq<char>, Seq<char>> {
        map![
            "bootstrap.servers"@ => self.bootstrap_servers_of(),
            "group.id"@ => self.group_id_of(),
            "enable.auto.commit"@ => "true"@,
            "auto.offset.reset"@ => "earliest"@,
            "session.timeout.ms"@ => "6000"@,
        ]
    }

    pub fn new(bootstrap_servers: String, group_id: String) -> (c: Self)
        ensures
            c.bootstrap_servers_of() == bootstrap_servers@,
            c.group_id_of() == group_id@,
    {
        KafkaConfig { bootstrap_servers, group_id }
    }

    /// The client configuration of the producer: the brokers, and a message
    /// timeout of five seconds.
    pub fn producer_config(&self) -> (c: ClientConfig)
        ensures
            client_config_entries(c) == self.producer_parameters(),
    {
        let mut c = new_client_config();
        set_parameter(&mut c, "bootstrap.servers", self.bootstrap_servers.as_str());
        set_parameter(&mut c, "message.timeout.ms", "5000");
        c
    }

    /// The client configuration of the consumer: the brokers, the group,
    /// automatic offset commits, reading from the earliest offset, and a
    /// session timeout of six seconds.
    pub fn consumer_config(&self) -> (c: ClientConfig)
        ensures
            client_config_entries(c) == self.consumer_parameters(),
    {
        let mut c = new_client_config();
        set_parameter(&mut c, "bootstrap.servers", self.bootstrap_servers.as_str());
        set_parameter(&mut c, "group.id", self.group_id.as_str());
        set_parameter(&mut c, "enable.auto.commit", "true");
        set_parameter(&mut c, "auto.offset.reset", "earliest");
        set_parameter(&mut c, "session.timeout.ms", "6000");
        c
    }
}

} // verus!
