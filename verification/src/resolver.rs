//! Resolution of a public key to the address of its homeserver.

use crate::error::Error;
use crate::keys::PublicKey;
use crate::transport::{is_not_found, is_success};
use vstd::prelude::*;

verus! {

/// Where a homeserver can be reached.
#[derive(Debug, PartialEq, Eq)]
pub struct HomeserverAddress {
    pub host: String,
    pub port: u16,
}

impl View for HomeserverAddress {
    type V = (Seq<char>, u16);

    open spec fn view(&self) -> (Seq<char>, u16) {
        (self.host@, self.port)
    }
}

impl Clone for HomeserverAddress {
    fn clone(&self) -> (copy: HomeserverAddress)
        ensures
            copy@ == self@,
    {
        HomeserverAddress { host: self.host.clone(), port: self.port }
    }
}

/// An address can be used when it names a host.
pub open spec fn usable(address: (Seq<char>, u16)) -> bool {
    address.0.len() > 0
}

impl HomeserverAddress {
    /// Whether the address names a host.
    pub fn is_usable(&self) -> (yes: bool)
        ensures
            yes == usable(self@),
    {
        self.host.as_str().unicode_len() > 0
    }
}

/// What a relay answered when it was asked for a key's record.
#[derive(Debug, PartialEq, Eq)]
pub enum RelayAnswer {
    /// The relay holds a record, which names this address.
    Record(HomeserverAddress),
    /// The relay holds no record for the key.
    NotFound,
    /// Anything else: no answer, or one that cannot be read.
    Unusable,
}

/// The address that an answer yields: that of a record which can be used.
pub open spec fn record_of(answer: RelayAnswer) -> Option<(Seq<char>, u16)> {
    match answer {
        RelayAnswer::Record(address) => if usable(address@) {
            Some(address@)
        } else {
            None
        },
        _ => None,
    }
}

/// The records that a run of answers yields, one by one.
pub open spec fn records_of(answers: Seq<RelayAnswer>) -> Seq<Option<(Seq<char>, u16)>> {
    Seq::new(answers.len(), |i: int| record_of(answers[i]))
}

/// The first address among the records, in the order of the relays.
pub open spec fn first_record(records: Seq<Option<(Seq<char>, u16)>>) -> Option<(Seq<char>, u16)>
    decreases records.len(),
{
    if records.len() == 0 {
        None
    } else if records[0] is Some {
        records[0]
    } else {
        first_record(records.drop_first())
    }
}

/// The next thing to do in a lookup, or how it ended.
#[derive(Debug, PartialEq, Eq)]
pub enum Lookup {
    /// Ask the relay with this number, at this URL.
    Ask { relay: usize, url: String },
    /// The lookup has ended, and this is what the resolution gives: the
    /// address of the key's homeserver, or the failure to find one.
    Done(Result<HomeserverAddress, Error>),
}

/// A lookup's next step as plain values.
pub enum Step {
    Ask(int),
    Resolved((Seq<char>, u16)),
    Failed,
}

/// The step that a [`Lookup`] stands for.
pub open spec fn step_of(lookup: Lookup) -> Step {
    match lookup {
        Lookup::Ask { relay, url } => Step::Ask(relay as int),
        Lookup::Done(Ok(address)) => Step::Resolved(address@),
        Lookup::Done(Err(_)) => Step::Failed,
    }
}

/// The first step with `count` relays: ask the first one, if there is one.
pub open spec fn first_step(count: nat) -> Step {
    if count == 0 {
        Step::Failed
    } else {
        Step::Ask(0)
    }
}

/// The step after relay `asked` gave `record`: a record ends the lookup,
/// and without one the next relay is asked, if there is one.
pub open spec fn next_step(count: nat, asked: int, record: Option<(Seq<char>, u16)>) -> Step {
    match record {
        Some(address) => Step::Resolved(address),
        None => if asked + 1 < count {
            Step::Ask(asked + 1)
        } else {
            Step::Failed
        },
    }
}

/// Where a lookup ends that stands at `step`, when relay `i` would answer
/// with `records[i]`.
pub open spec fn outcome(count: nat, records: Seq<Option<(Seq<char>, u16)>>, step: Step) -> Step
    decreases
            (match step {
                Step::Ask(asked) => if 0 <= asked < count {
                    count - asked
                } else {
                    0
                },
                _ => 0,
            }),
{
    match step {
        Step::Ask(asked) => if 0 <= asked < count {
            outcome(count, records, next_step(count, asked, records[asked]))
        } else {
            Step::Failed
        },
        _ => step,
    }
}

/// The URL at which a relay is asked for a key: the relay's own URL, a
/// slash, and the key's z-base-32 text.
pub open spec fn relay_url(relay: Seq<char>, key: Seq<char>) -> Seq<char> {
    relay + "/"@ + key
}

/// The texts of a list of relays.
pub open spec fn relay_texts(relays: Seq<String>) -> Seq<Seq<char>> {
    Seq::new(relays.len(), |i: int| relays[i]@)
}

/// The relay of the public network.
pub open spec fn default_relay() -> Seq<char> {
    "https://relay.pkarr.org"@
}

/// The relay of a local test network.
pub open spec fn testnet_relay() -> Seq<char> {
    "http://localhost:15411/pkarr"@
}

/// The network that a client works in, chosen when the client is made.
#[derive(Clone, Copy, Debug, PartialEq, Eq, Structural)]
pub enum Environment {
    /// The public network: homeservers are reached over HTTPS.
    Production,
    /// A local test network: homeservers are reached over plain HTTP.
    Testnet,
}

/// Whether homeservers of an environment are reached over HTTPS.
pub open spec fn is_secure(environment: Environment) -> bool {
    environment == Environment::Production
}

/// The port of a homeserver whose record names none: that of the
/// environment's scheme.
pub open spec fn default_port(environment: Environment) -> u16 {
    match environment {
        Environment::Production => 443,
        Environment::Testnet => 80,
    }
}

/// A service record of a relay's payload, as far as the client reads it.
#[derive(Debug, PartialEq, Eq)]
pub struct ServiceRecord {
    pub target: String,
    pub port: Option<u16>,
}

impl View for ServiceRecord {
    type V = (Seq<char>, Option<u16>);

    open spec fn view(&self) -> (Seq<char>, Option<u16>) {
        (self.target@, self.port)
    }
}

/// The service records of a payload as plain values; none where the payload
/// could not be read.
pub open spec fn records_view(records: Option<Vec<ServiceRecord>>) -> Option<
    Seq<(Seq<char>, Option<u16>)>,
> {
    match records {
        Some(list) => Some(Seq::new(list@.len(), |i: int| list@[i]@)),
        None => None,
    }
}

/// A relay's answer as plain values.
pub enum Reading {
    Record((Seq<char>, u16)),
    NotFound,
    Unusable,
}

/// The reading that a [`RelayAnswer`] stands for.
pub open spec fn reading_of(answer: RelayAnswer) -> Reading {
    match answer {
        RelayAnswer::Record(address) => Reading::Record(address@),
        RelayAnswer::NotFound => Reading::NotFound,
        RelayAnswer::Unusable => Reading::Unusable,
    }
}

/// What a relay's response means.  Status 404 is not-found.  Any other
/// status outside the success class is unusable, and so is a success whose
/// payload cannot be read.  A payload without a service record is
/// not-found.  Otherwise the first service record is the record: its target
/// is the host, and its port is the one it names or else the environment's.
pub open spec fn relay_reading(
    environment: Environment,
    status: u16,
    records: Option<Seq<(Seq<char>, Option<u16>)>>,
) -> Reading {
    if is_not_found(status) {
        Reading::NotFound
    } else if !is_success(status) {
        Reading::Unusable
    } else {
        match records {
            None => Reading::Unusable,
            Some(list) => if list.len() == 0 {
                Reading::NotFound
            } else {
                Reading::Record(
                    (
                        list[0].0,
                        match list[0].1 {
                            Some(port) => port,
                            None => default_port(environment),
                        },
                    ),
                )
            },
        }
    }
}

/// Asks relays, in the order given, for the homeserver of a key.
#[derive(Debug)]
pub struct Resolver {
    pub relays: Vec<String>,
    pub environment: Environment,
}

impl View for Resolver {
    type V = Seq<Seq<char>>;

    open spec fn view(&self) -> Seq<Seq<char>> {
        relay_texts(self.relays@)
    }
}

impl Resolver {
    /// A resolver that asks the relay of the public network.
    pub fn production() -> (resolver: Resolver)
        ensures
            resolver@ == seq![default_relay()],
            resolver.environment == Environment::Production,
    {
        let mut relays: Vec<String> = Vec::new();
        relays.push(String::from_str("https://relay.pkarr.org"));
        let resolver = Resolver { relays, environment: Environment::Production };
        assert(resolver@ =~= seq![default_relay()]);
        resolver
    }

    /// A resolver that asks the relay of a local test network.
    pub fn testnet() -> (resolver: Resolver)
        ensures
            resolver@ == seq![testnet_relay()],
            resolver.environment == Environment::Testnet,
    {
        let mut relays: Vec<String> = Vec::new();
        relays.push(String::from_str("http://localhost:15411/pkarr"));
        let resolver = Resolver { relays, environment: Environment::Testnet };
        assert(resolver@ =~= seq![testnet_relay()]);
        resolver
    }

    /// Reads a relay's response: its status, and the service records of its
    /// payload in their order, or none where the payload cannot be read.
    pub fn read_answer(&self, status: u16, records: &Option<Vec<ServiceRecord>>) -> (answer:
        RelayAnswer)
        ensures
            reading_of(answer) == relay_reading(self.environment, status, records_view(*records)),
    {
        if status == 404 {
            return RelayAnswer::NotFound;
        }
        if !(200 <= status && status < 300) {
            return RelayAnswer::Unusable;
        }
        match records {
            None => RelayAnswer::Unusable,
            Some(list) => {
                if list.len() == 0 {
                    RelayAnswer::NotFound
                } else {
                    let port = match list[0].port {
                        Some(port) => port,
                        None => match self.environment {
                            Environment::Production => 443,
                            Environment::Testnet => 80,
                        },
                    };
                    RelayAnswer::Record(HomeserverAddress { host: list[0].target.clone(), port })
                }
            },
        }
    }

    /// The URLs at which a record for `pubky` is published: one per relay,
    /// in the order of the relays, each the URL at which that relay is asked.
    pub fn publish_urls(&self, pubky: &PublicKey) -> (urls: Vec<String>)
        ensures
            urls@.len() == self@.len(),
            forall|i: int|
                0 <= i < urls@.len() ==> (#[trigger] urls@[i])@ == relay_url(
                    self@[i],
                    pubky.z32_spec(),
                ),
    {
        let mut urls: Vec<String> = Vec::new();
        let mut i: usize = 0;
        while i < self.relays.len()
            invariant
                i <= self.relays@.len(),
                urls@.len() == i,
                forall|j: int|
                    0 <= j < i ==> (#[trigger] urls@[j])@ == relay_url(self@[j], pubky.z32_spec()),
            decreases self.relays@.len() - i,
        {
            urls.push(self.url_for(i, pubky));
            i += 1;
        }
        urls
    }

    /// The URL at which relay `relay` is asked for `pubky`.
    fn url_for(&self, relay: usize, pubky: &PublicKey) -> (url: String)
        requires
            relay < self.relays@.len(),
        ensures
            url@ == relay_url(self@[relay as int], pubky.z32_spec()),
    {
        let mut url = self.relays[relay].clone();
        url.append("/");
        let key = pubky.z32();
        url.append(key.as_str());
        url
    }

    /// Starts a lookup: the first relay is asked, and with no relay at all
    /// the resolution has failed.
    pub fn begin(&self, pubky: &PublicKey) -> (lookup: Lookup)
        ensures
            step_of(lookup) == first_step(self@.len()),
            lookup matches Lookup::Done(Err(error)) ==> error == Error::ResolutionFailed,
            lookup matches Lookup::Ask { relay, url } ==> url@ == relay_url(
                self@[relay as int],
                pubky.z32_spec(),
            ),
    {
        if self.relays.len() == 0 {
            Lookup::Done(Err(Error::ResolutionFailed))
        } else {
            Lookup::Ask { relay: 0, url: self.url_for(0, pubky) }
        }
    }

    /// Goes on with a lookup after relay `asked` has answered: a usable
    /// record ends it with the address, and without one the next relay is
    /// asked; after the last relay the resolution has failed.  A relay that
    /// is not of this resolver ends the lookup as failed.
    pub fn advance(&self, pubky: &PublicKey, asked: usize, answer: RelayAnswer) -> (lookup: Lookup)
        ensures
            asked < self@.len() ==> step_of(lookup) == next_step(
                self@.len(),
                asked as int,
                record_of(answer),
            ),
            asked >= self@.len() ==> step_of(lookup) == Step::Failed,
            lookup matches Lookup::Done(Err(error)) ==> error == Error::ResolutionFailed,
            lookup matches Lookup::Ask { relay, url } ==> relay < self@.len() && url@ == relay_url(
                self@[relay as int],
                pubky.z32_spec(),
            ),
    {
        if asked >= self.relays.len() {
            return Lookup::Done(Err(Error::ResolutionFailed));
        }
        match answer {
            RelayAnswer::Record(address) => {
                if address.is_usable() {
                    return Lookup::Done(Ok(address));
                }
            },
            _ => {},
        }
        if asked + 1 < self.relays.len() {
            Lookup::Ask { relay: asked + 1, url: self.url_for(asked + 1, pubky) }
        } else {
            Lookup::Done(Err(Error::ResolutionFailed))
        }
    }

    /// The homeserver's address, from the answers that the relays gave:
    /// `answers[i]` is the answer of relay `i`, and answers beyond the last
    /// relay are not read.  The first usable record wins.  Without one the
    /// resolution fails.
    pub fn resolve(&self, answers: &Vec<RelayAnswer>) -> (found: Result<HomeserverAddress, Error>)
        ensures
            match first_record(records_of(answers@).take(consulted(self@.len(), answers@.len()))) {
                Some(address) => found matches Ok(a) && a@ == address,
                None => found == Err::<HomeserverAddress, Error>(Error::ResolutionFailed),
            },
    {
        let count = if answers.len() < self.relays.len() {
            answers.len()
        } else {
            self.relays.len()
        };
        let ghost records = records_of(answers@).take(count as int);
        let mut i: usize = 0;
        assert(records.skip(0) =~= records);
        while i < count
            invariant
                i <= count,
                count <= answers@.len(),
                count == consulted(self@.len(), answers@.len()),
                records == records_of(answers@).take(count as int),
                first_record(records) == first_record(records.skip(i as int)),
            decreases count - i,
        {
            proof {
                let rest = records.skip(i as int);
                assert(rest.len() > 0);
                assert(rest[0] == record_of(answers@[i as int]));
                assert(rest.drop_first() =~= records.skip(i + 1));
                assert(first_record(rest) == if rest[0] is Some {
                    rest[0]
                } else {
                    first_record(records.skip(i + 1))
                });
            }
            match &answers[i] {
                RelayAnswer::Record(address) => {
                    if address.is_usable() {
                        return Ok(address.clone());
                    }
                },
                _ => {},
            }
            i += 1;
        }
        assert(records.skip(count as int).len() == 0);
        Err(Error::ResolutionFailed)
    }
}

/// How many answers a resolution reads: one per relay, as far as there are
/// answers.
pub open spec fn consulted(relays: nat, answers: nat) -> int {
    if answers < relays {
        answers as int
    } else {
        relays as int
    }
}

/// A lookup that asks relay after relay ends with the first usable record,
/// and fails exactly when no relay has one.
pub proof fn lemma_lookup_finds_first(records: Seq<Option<(Seq<char>, u16)>>)
    ensures
        outcome(records.len(), records, first_step(records.len())) == match first_record(records) {
            Some(address) => Step::Resolved(address),
            None => Step::Failed,
        },
{
    if records.len() > 0 {
        lemma_outcome_from(records, 0);
        assert(records.skip(0) =~= records);
    }
}

/// From relay `asked` on, the lookup ends with the first usable record among
/// the relays not yet asked.
proof fn lemma_outcome_from(records: Seq<Option<(Seq<char>, u16)>>, asked: int)
    requires
        0 <= asked < records.len(),
    ensures
        outcome(records.len(), records, Step::Ask(asked)) == match first_record(
            records.skip(asked),
        ) {
            Some(address) => Step::Resolved(address),
            None => Step::Failed,
        },
    decreases records.len() - asked,
{
    let count = records.len();
    let rest = records.skip(asked);
    assert(rest.len() > 0);
    assert(rest[0] == records[asked]);
    assert(rest.drop_first() =~= records.skip(asked + 1));
    let next = next_step(count, asked, records[asked]);
    assert(outcome(count, records, Step::Ask(asked)) == outcome(count, records, next));
    assert(!(next is Ask) ==> outcome(count, records, next) == next);
    if records[asked] is None {
        if asked + 1 < records.len() {
            lemma_outcome_from(records, asked + 1);
        } else {
            assert(records.skip(asked + 1).len() == 0);
        }
    }
}

} // verus!
