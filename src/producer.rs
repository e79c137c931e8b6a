//! The message sink that the accountant sends through, an in-memory sink,
//! and the configuration of a Kafka producer.
use vstd::prelude::*;
use vstd::slice::slice_to_vec;

verus! {

#[verifier::external_type_specification]
#[verifier::external_body]
pub struct ExKafkaError(rdkafka::error::KafkaError);

#[verifier::external_type_specification]
#[verifier::external_body]
pub struct ExClientConfig(rdkafka::config::ClientConfig);

/// The key under which the brokers to connect to are given.
pub open spec fn bootstrap_servers_key() -> Seq<char> {
    "bootstrap.servers"@
}

/// The map that results from setting the parameters of `params` in order
/// over `m`: a later value for a key replaces an earlier one.
pub open spec fn with_params(m: Map<Seq<char>, Seq<char>>, params: Seq<(String, String)>) -> Map<
    Seq<char>,
    Seq<char>,
>
    decreases params.len(),
{
    if params.len() == 0 {
        m
    } else {
        with_params(m, params.drop_last()).insert(params.last().0@, params.last().1@)
    }
}

/// Two lists of parameters with the same names and values, in the same
/// order.
pub open spec fn same_params(a: Seq<(String, String)>, b: Seq<(String, String)>) -> bool {
    &&& a.len() == b.len()
    &&& forall|j: int| 0 <= j < a.len() ==> a[j].0@ == b[j].0@ && a[j].1@ == b[j].1@
}

proof fn lemma_same_params(a: Seq<(String, String)>, b: Seq<(String, String)>)
    requires
        same_params(a, b),
    ensures
        forall|m: Map<Seq<char>, Seq<char>>| with_params(m, a) == with_params(m, b),
    decreases a.len(),
{
    if a.len() > 0 {
        assert forall|j: int| 0 <= j < a.len() - 1 implies a.drop_last()[j].0@ == b.drop_last()[j].0@
            && a.drop_last()[j].1@ == b.drop_last()[j].1@ by {
            assert(a.drop_last()[j] == a[j]);
            assert(b.drop_last()[j] == b[j]);
        }
        lemma_same_params(a.drop_last(), b.drop_last());
        assert forall|m: Map<Seq<char>, Seq<char>>| with_params(m, a) == with_params(m, b) by {
            assert(with_params(m, a.drop_last()) == with_params(m, b.drop_last()));
        }
    } else {
        assert forall|m: Map<Seq<char>, Seq<char>>| with_params(m, a) == with_params(m, b) by {}
    }
}

/// A map without parameters.
pub open spec fn no_params() -> Map<Seq<char>, Seq<char>> {
    Map::empty()
}

/// The parameters that a configuration holds.
pub open spec fn params_of(params: Seq<(String, String)>) -> Map<Seq<char>, Seq<char>> {
    with_params(Map::empty(), params)
}

proof fn lemma_with_params_push(
    m: Map<Seq<char>, Seq<char>>,
    params: Seq<(String, String)>,
    p: (String, String),
)
    ensures
        with_params(m, params.push(p)) == with_params(m, params).insert(p.0@, p.1@),
{
    assert(params.push(p).drop_last() =~= params);
}

proof fn lemma_with_params_append(
    m: Map<Seq<char>, Seq<char>>,
    a: Seq<(String, String)>,
    b: Seq<(String, String)>,
)
    ensures
        with_params(m, a + b) == with_params(with_params(m, a), b),
    decreases b.len(),
{
    if b.len() == 0 {
        assert(a + b =~= a);
    } else {
        assert((a + b).drop_last() =~= a + b.drop_last());
        lemma_with_params_append(m, a, b.drop_last());
    }
}

/// The parameters of a Kafka producer: a map from names to values.
#[derive(Debug, Clone)]
pub struct KafkaConfig {
    config_map: Vec<(String, String)>,
}

impl View for KafkaConfig {
    type V = Map<Seq<char>, Seq<char>>;

    closed spec fn view(&self) -> Map<Seq<char>, Seq<char>> {
        params_of(self.config_map@)
    }
}

impl KafkaConfig {
    /// A configuration that connects to `bootstrap_servers`, with the
    /// parameters of `override_params` set over it in order (these may
    /// replace the brokers too).
    pub fn new_producer_config(
        bootstrap_servers: &str,
        override_params: Option<Vec<(String, String)>>,
    ) -> (r: KafkaConfig)
        ensures
            r@ == with_params(
                map![bootstrap_servers_key() => bootstrap_servers@],
                match override_params {
                    Some(p) => p@,
                    None => Seq::empty(),
                },
            ),
    {
        let mut config_map: Vec<(String, String)> = Vec::new();
        config_map.push(("bootstrap.servers".to_owned(), bootstrap_servers.to_owned()));
        let config = KafkaConfig { config_map };
        proof {
            reveal_strlit("bootstrap.servers");
            lemma_with_params_push(Map::empty(), Seq::empty(), config.config_map@[0]);
            assert(config.config_map@ =~= Seq::<(String, String)>::empty().push(
                config.config_map@[0],
            ));
            assert(config@ =~= map![bootstrap_servers_key() => bootstrap_servers@]);
        }
        apply_override_params(config, override_params)
    }
}

/// Sets each parameter of `override_params`, in order, over `config`.
fn apply_override_params(mut config: KafkaConfig, override_params: Option<Vec<(String, String)>>) -> (r:
    KafkaConfig)
    ensures
        r@ == with_params(
            config@,
            match override_params {
                Some(p) => p@,
                None => Seq::empty(),
            },
        ),
{
    match override_params {
        Some(params) => {
            let ghost start = config.config_map@;
            let mut i: usize = 0;
            while i < params.len()
                invariant
                    i <= params.len(),
                    same_params(config.config_map@, start + params@.take(i as int)),
                decreases params.len() - i,
            {
                let name = params[i].0.clone();
                let value = params[i].1.clone();
                config.config_map.push((name, value));
                proof {
                    lemma_same_params(config.config_map@, start + params@.take(i + 1));
                }
                i = i + 1;
            }
            proof {
                assert(params@.take(params.len() as int) =~= params@);
                lemma_same_params(config.config_map@, start + params@);
                lemma_with_params_append(Map::empty(), start, params@);
            }
            config
        },
        None => config,
    }
}

} // verus!

verus! {

/// The parameters that a Kafka client configuration holds.
pub uninterp spec fn client_config_params(c: rdkafka::config::ClientConfig) -> Map<
    Seq<char>,
    Seq<char>,
>;

/// Relies on rdkafka's `ClientConfig::new`: a configuration without
/// parameters.
#[verifier::external_body]
fn new_client_config() -> (r: rdkafka::config::ClientConfig)
    ensures
        client_config_params(r) == no_params(),
{
    rdkafka::config::ClientConfig::new()
}

/// Relies on rdkafka's `ClientConfig::set`: it sets `key` to `value`,
/// replacing an earlier value.
#[verifier::external_body]
fn set_client_param(c: rdkafka::config::ClientConfig, key: &str, value: &str) -> (r:
    rdkafka::config::ClientConfig)
    ensures
        client_config_params(r) == client_config_params(c).insert(key@, value@),
{
    let mut c = c;
    c.set(key, value);
    c
}

impl KafkaConfig {
    /// The Kafka client configuration with these parameters.
    pub fn to_client_config(&self) -> (r: rdkafka::config::ClientConfig)
        ensures
            client_config_params(r) == self@,
    {
        let mut c = new_client_config();
        let mut i: usize = 0;
        while i < self.config_map.len()
            invariant
                i <= self.config_map.len(),
                client_config_params(c) == params_of(self.config_map@.take(i as int)),
            decreases self.config_map.len() - i,
        {
            c = set_client_param(c, self.config_map[i].0.as_str(), self.config_map[i].1.as_str());
            proof {
                let s = self.config_map@;
                assert(s.take(i + 1) =~= s.take(i as int).push(s[i as int]));
                lemma_with_params_push(Map::empty(), s.take(i as int), s[i as int]);
            }
            i = i + 1;
        }
        assert(self.config_map@.take(i as int) =~= self.config_map@);
        c
    }
}

impl From<KafkaConfig> for rdkafka::config::ClientConfig {
    fn from(item: KafkaConfig) -> (r: rdkafka::config::ClientConfig) {
        item.to_client_config()
    }
}

impl vstd::std_specs::convert::FromSpecImpl<KafkaConfig> for rdkafka::config::ClientConfig {
    open spec fn obeys_from_spec() -> bool {
        false
    }

    open spec fn from_spec(v: KafkaConfig) -> rdkafka::config::ClientConfig {
        arbitrary()
    }
}

/// Errors of a message sink.
#[derive(Debug)]
pub enum ClientError {
    /// A message could not be handed to the broker.
    SendFailed(rdkafka::error::KafkaError),
    /// A producer could not be created from its configuration.
    InvalidConfig(rdkafka::error::KafkaError),
}

/// One call of a sink: the topic, the payload, and whether the sink
/// accepted the message.
pub type SendRecord = (Seq<char>, Seq<u8>, bool);

/// A sink for messages: each call hands one payload over for delivery to a
/// topic. Success means that the sink accepted the message for delivery,
/// not that it was delivered.
///
/// `calls` is the sink's record of the calls made on it. An implementation
/// that is verified defines it and proves the contract of `send` against
/// it, as `DummyProducer` does; one written outside verified code is taken
/// to keep that contract.
pub trait Producer {
    /// Every call made on the sink, oldest first, each with its answer.
    open spec fn calls(&self) -> Seq<SendRecord> {
        Seq::empty()
    }

    /// Hands `payload` over for delivery to `topic_name`; the call joins the
    /// sink's calls, with whether it succeeded.
    fn send(&mut self, topic_name: &str, payload: &[u8]) -> (r: Result<(), ClientError>)
        ensures
            final(self).calls() == old(self).calls().push((topic_name@, payload@, r is Ok)),
    ;
}

/// The messages of a list, each as a call that succeeded.
pub open spec fn accepted_messages(m: Seq<(String, Vec<u8>)>) -> Seq<SendRecord> {
    m.map_values(|e: (String, Vec<u8>)| (e.0@, e.1@, true))
}

/// A sink that keeps every message in memory, in the order of the calls,
/// and never fails.
pub struct DummyProducer {
    pub messages: Vec<(String, Vec<u8>)>,
}

impl DummyProducer {
    /// A sink that holds no message yet.
    pub fn new() -> (r: DummyProducer)
        ensures
            r.messages@.len() == 0,
    {
        DummyProducer { messages: Vec::new() }
    }
}

impl Producer for DummyProducer {
    open spec fn calls(&self) -> Seq<SendRecord> {
        accepted_messages(self.messages@)
    }

    fn send(&mut self, topic_name: &str, payload: &[u8]) -> (r: Result<(), ClientError>)
        ensures
            r is Ok,
            final(self).messages@.len() == old(self).messages@.len() + 1,
            final(self).messages@.drop_last() == old(self).messages@,
            final(self).messages@.last().0@ == topic_name@,
            final(self).messages@.last().1@ == payload@,
    {
        self.messages.push((topic_name.to_owned(), slice_to_vec(payload)));
        assert(self.messages@.drop_last() =~= old(self).messages@);
        assert(accepted_messages(self.messages@) =~= accepted_messages(old(self).messages@).push(
            (topic_name@, payload@, true),
        ));
        Ok(())
    }
}

} // verus!
