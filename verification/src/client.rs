//! The protocol client: which request each operation sends, and what the
//! homeserver's answer means for the caller and for the session store.
//!
//! Every operation is one exchange.  The caller resolves the homeserver
//! with the client's [`Resolver`], takes the request from the operation's
//! `*_request` function, sends it once, and hands what came back to the
//! function that bears the operation's name.  Only that function touches
//! the session store, and it does so in one step: an exchange that is given
//! up before its answer is handed over leaves the store as it was.
//!
//! A credential is evicted whenever the homeserver refuses authentication,
//! whatever the operation.  Signing out evicts it also when the homeserver
//! confirms the signout, and keeps it on every other answer.

use crate::auth::{rejection, sign_assertion, signable, validate_rejection};
use crate::auth::{AuthReason, Intent};
use crate::bytes::copy_bytes;
use crate::error::{Error, ErrorView};
use crate::keys::{ed25519_signature, z32_decoding, Keypair, PublicKey};
use crate::resolver::{
    default_relay, is_secure, relay_texts, testnet_relay, Environment, HomeserverAddress, Resolver,
};
use crate::session_store::{admitted, SessionStore, Strategy};
use crate::transport::{delivery_view, is_not_found, is_success};
use crate::transport::{Delivery, Method, Request, RequestView, Response, ResponseView};
use vstd::prelude::*;

verus! {

/// What a homeserver reports about an identity's session.
#[derive(Debug, PartialEq, Eq)]
pub struct Session {
    pub payload: Vec<u8>,
}

impl View for Session {
    type V = Seq<u8>;

    open spec fn view(&self) -> Seq<u8> {
        self.payload@
    }
}

/// What kind of answer a response is.
#[derive(Clone, Copy, Debug, PartialEq, Eq, Structural)]
pub enum Disposition {
    Success,
    NotFound,
    Rejected(AuthReason),
    Unexpected,
}

/// The kind of an answer: success for the 2xx statuses; else a refusal of
/// authentication, where it is one; else not-found for 404; else unexpected.
pub open spec fn disposition(response: ResponseView) -> Disposition {
    if is_success(response.status) {
        Disposition::Success
    } else if rejection(response.status, response.body) is Some {
        Disposition::Rejected(rejection(response.status, response.body)->Some_0)
    } else if is_not_found(response.status) {
        Disposition::NotFound
    } else {
        Disposition::Unexpected
    }
}

/// The kind of an answer.
pub fn classify(response: &Response) -> (kind: Disposition)
    ensures
        kind == disposition(response@),
{
    if response.succeeded() {
        Disposition::Success
    } else {
        match validate_rejection(response) {
            Some(refusal) => Disposition::Rejected(refusal.reason),
            None => if response.not_found() {
                Disposition::NotFound
            } else {
                Disposition::Unexpected
            },
        }
    }
}

/// The path under which an identity signs up.
pub open spec fn identity_path(key: Seq<char>) -> Seq<char> {
    "/"@ + key
}

/// The path of an identity's session.
pub open spec fn session_path(key: Seq<char>) -> Seq<char> {
    "/"@ + key + "/session"@
}

/// The path of a piece of content in an identity's namespace.
pub open spec fn content_path(key: Seq<char>, path: Seq<char>) -> Seq<char> {
    "/"@ + key + "/"@ + path
}

/// An assertion as it is sent: the signature, then the signed message.
pub open spec fn assertion_wire(
    secret: Seq<u8>,
    identity: Seq<u8>,
    homeserver: Seq<u8>,
    intent: Intent,
    freshness: u64,
) -> Seq<u8> {
    ed25519_signature(secret, signable(identity, homeserver, intent, freshness)) + signable(
        identity,
        homeserver,
        intent,
        freshness,
    )
}

/// The store after a homeserver issued `credential` to `key`: an explicit
/// store files it, a delegated store leaves it to the transport.
pub open spec fn issued(
    strategy: Strategy,
    store: Map<Seq<u8>, Seq<char>>,
    key: Seq<u8>,
    credential: Option<Seq<char>>,
) -> Map<Seq<u8>, Seq<char>> {
    if strategy == Strategy::Explicit && credential is Some {
        store.insert(key, credential->Some_0)
    } else {
        store
    }
}

/// The error for an answer with a status that the operation does not
/// expect: it carries the status and the body as they came.
pub open spec fn remote(response: ResponseView) -> ErrorView {
    ErrorView::Remote { status: response.status, detail: response.body }
}

/// The error for a refusal of authentication: the reason, and the status
/// and the body as they came.
pub open spec fn refused(reason: AuthReason, response: ResponseView) -> ErrorView {
    ErrorView::Auth { reason, status: response.status, detail: response.body }
}

/// The store after an answer that is neither a success nor a not-found:
/// a refusal evicts the identity's credential, anything else changes
/// nothing.
pub open spec fn after_failure(
    store: Map<Seq<u8>, Seq<char>>,
    key: Seq<u8>,
    response: ResponseView,
) -> Map<Seq<u8>, Seq<char>> {
    if disposition(response) is Rejected {
        store.remove(key)
    } else {
        store
    }
}

/// Signup: success files the issued credential; every other answer is a
/// failed signup and leaves the store alone.
pub open spec fn after_signup(
    strategy: Strategy,
    store: Map<Seq<u8>, Seq<char>>,
    key: Seq<u8>,
    delivery: Result<ResponseView, Seq<char>>,
) -> (Result<(), ErrorView>, Map<Seq<u8>, Seq<char>>) {
    match delivery {
        Err(cause) => (Err(ErrorView::Transport { cause }), store),
        Ok(response) => if is_success(response.status) {
            (Ok(()), issued(strategy, store, key, response.credential))
        } else {
            (
                Err(ErrorView::SignupFailed { status: response.status, detail: response.body }),
                store,
            )
        },
    }
}

/// Signin: success files the issued credential; a refusal is an
/// authentication error and evicts whatever credential the identity had;
/// other answers are remote errors and leave the store alone.
pub open spec fn after_signin(
    strategy: Strategy,
    store: Map<Seq<u8>, Seq<char>>,
    key: Seq<u8>,
    delivery: Result<ResponseView, Seq<char>>,
) -> (Result<(), ErrorView>, Map<Seq<u8>, Seq<char>>) {
    match delivery {
        Err(cause) => (Err(ErrorView::Transport { cause }), store),
        Ok(response) => match disposition(response) {
            Disposition::Success => (Ok(()), issued(strategy, store, key, response.credential)),
            Disposition::Rejected(reason) => (Err(refused(reason, response)), store.remove(key)),
            _ => (Err(remote(response)), store),
        },
    }
}

/// Session check: success gives the session, not-found gives none, and
/// neither is an error.  Every other answer is an error that carries the
/// status and the body; where it is a refusal, the credential is evicted.
pub open spec fn after_session(
    store: Map<Seq<u8>, Seq<char>>,
    key: Seq<u8>,
    delivery: Result<ResponseView, Seq<char>>,
) -> (Result<Option<Seq<u8>>, ErrorView>, Map<Seq<u8>, Seq<char>>) {
    match delivery {
        Err(cause) => (Err(ErrorView::Transport { cause }), store),
        Ok(response) => match disposition(response) {
            Disposition::Success => (Ok(Some(response.body)), store),
            Disposition::NotFound => (Ok(None), store),
            _ => (Err(remote(response)), after_failure(store, key, response)),
        },
    }
}

/// Signout: the credential is evicted when the homeserver confirms the
/// signout and when it refuses the credential; otherwise it stays.  Every
/// answer but a success is an error that carries the status and the body.
pub open spec fn after_signout(
    store: Map<Seq<u8>, Seq<char>>,
    key: Seq<u8>,
    delivery: Result<ResponseView, Seq<char>>,
) -> (Result<(), ErrorView>, Map<Seq<u8>, Seq<char>>) {
    match delivery {
        Err(cause) => (Err(ErrorView::Transport { cause }), store),
        Ok(response) => match disposition(response) {
            Disposition::Success => (Ok(()), store.remove(key)),
            _ => (Err(remote(response)), after_failure(store, key, response)),
        },
    }
}

/// Put: success changes nothing here; a refusal is an authentication error
/// and evicts the credential; other answers are remote errors.
pub open spec fn after_put(
    store: Map<Seq<u8>, Seq<char>>,
    key: Seq<u8>,
    delivery: Result<ResponseView, Seq<char>>,
) -> (Result<(), ErrorView>, Map<Seq<u8>, Seq<char>>) {
    match delivery {
        Err(cause) => (Err(ErrorView::Transport { cause }), store),
        Ok(response) => match disposition(response) {
            Disposition::Success => (Ok(()), store),
            Disposition::Rejected(reason) => (Err(refused(reason, response)), store.remove(key)),
            _ => (Err(remote(response)), store),
        },
    }
}

/// Get: success gives the body as it came, not-found gives none, and
/// neither is an error.  Every other answer is an error that carries the
/// status and the body; where it is a refusal, the credential is evicted.
pub open spec fn after_get(
    store: Map<Seq<u8>, Seq<char>>,
    key: Seq<u8>,
    delivery: Result<ResponseView, Seq<char>>,
) -> (Result<Option<Seq<u8>>, ErrorView>, Map<Seq<u8>, Seq<char>>) {
    match delivery {
        Err(cause) => (Err(ErrorView::Transport { cause }), store),
        Ok(response) => match disposition(response) {
            Disposition::Success => (Ok(Some(response.body)), store),
            Disposition::NotFound => (Ok(None), store),
            _ => (Err(remote(response)), after_failure(store, key, response)),
        },
    }
}

/// The credential that a store holds for a key.
pub open spec fn held(store: Map<Seq<u8>, Seq<char>>, key: Seq<u8>) -> Option<Seq<char>> {
    if store.contains_key(key) {
        Some(store[key])
    } else {
        None
    }
}

/// The request that a put sends, or the refusal to send one: nothing is
/// sent for an identity that the store does not admit.
pub open spec fn put_plan(
    strategy: Strategy,
    store: Map<Seq<u8>, Seq<char>>,
    environment: Environment,
    key: Seq<u8>,
    key_text: Seq<char>,
    path: Seq<char>,
    content: Seq<u8>,
    address: (Seq<char>, u16),
) -> Result<RequestView, ErrorView> {
    if !admitted(strategy, store, key) {
        Err(ErrorView::Unauthenticated)
    } else {
        Ok(
            RequestView {
                method: Method::Put,
                secure: is_secure(environment),
                address,
                path: content_path(key_text, path),
                body: content,
                credential: held(store, key),
            },
        )
    }
}

/// The freshness of the next assertion: the caller's clock where it has
/// moved on since the last assertion, and else the next value after the
/// last one.  It is greater than the last one as long as that was below the
/// greatest value there is.
pub open spec fn fresh(last: u64, now: u64) -> u64 {
    if now > last {
        now
    } else if last < u64::MAX {
        (last + 1) as u64
    } else {
        last
    }
}

/// The homeserver that a signin is addressed to: the one whose key the
/// resolved host names; where the host names no key, the identity is its
/// own homeserver.
pub open spec fn signin_target(identity: Seq<u8>, host: Seq<char>) -> Seq<u8> {
    match z32_decoding(host) {
        Some(key) => key,
        None => identity,
    }
}

/// A result without a value, as plain values.
pub open spec fn done_view(result: Result<(), Error>) -> Result<(), ErrorView> {
    match result {
        Ok(_) => Ok(()),
        Err(e) => Err(e@),
    }
}

/// A result with bytes that may be absent, as plain values.
pub open spec fn bytes_view(result: Result<Option<Vec<u8>>, Error>) -> Result<
    Option<Seq<u8>>,
    ErrorView,
> {
    match result {
        Ok(Some(bytes)) => Ok(Some(bytes@)),
        Ok(None) => Ok(None),
        Err(e) => Err(e@),
    }
}

/// A result with a session that may be absent, as plain values.
pub open spec fn session_view(result: Result<Option<Session>, Error>) -> Result<
    Option<Seq<u8>>,
    ErrorView,
> {
    match result {
        Ok(Some(session)) => Ok(Some(session@)),
        Ok(None) => Ok(None),
        Err(e) => Err(e@),
    }
}

/// A request built or refused, as plain values.
pub open spec fn plan_view(plan: Result<Request, Error>) -> Result<RequestView, ErrorView> {
    match plan {
        Ok(request) => Ok(request@),
        Err(e) => Err(e@),
    }
}

/// The relay texts among a list of values, in their order: what is no text
/// is left out.
pub open spec fn texts_among(values: Seq<Option<String>>) -> Seq<Seq<char>>
    decreases values.len(),
{
    if values.len() == 0 {
        Seq::empty()
    } else {
        match values.last() {
            Some(text) => texts_among(values.drop_last()).push(text@),
            None => texts_among(values.drop_last()),
        }
    }
}

/// A client of the Pubky network: the relays it asks, the sessions it
/// holds, and the freshness of the last assertion it signed.
#[derive(Debug)]
pub struct PubkyClient {
    pub resolver: Resolver,
    pub sessions: SessionStore,
    pub moment: u64,
}

impl PubkyClient {
    /// A client of the public network that keeps its credentials itself.
    pub fn new() -> (client: PubkyClient)
        ensures
            client.resolver@ == seq![default_relay()],
            client.resolver.environment == Environment::Production,
            client.sessions.strategy_spec() == Strategy::Explicit,
            client.sessions@ == Map::<Seq<u8>, Seq<char>>::empty(),
            client.moment == 0,
    {
        PubkyClient { resolver: Resolver::production(), sessions: SessionStore::explicit(), moment: 0 }
    }

    /// A client of a local test network that keeps its credentials itself.
    pub fn testnet() -> (client: PubkyClient)
        ensures
            client.resolver@ == seq![testnet_relay()],
            client.resolver.environment == Environment::Testnet,
            client.sessions.strategy_spec() == Strategy::Explicit,
            client.sessions@ == Map::<Seq<u8>, Seq<char>>::empty(),
            client.moment == 0,
    {
        PubkyClient { resolver: Resolver::testnet(), sessions: SessionStore::explicit(), moment: 0 }
    }

    /// A client made of a resolver and a session store of the caller's
    /// choice.
    pub fn with_parts(resolver: Resolver, sessions: SessionStore) -> (client: PubkyClient)
        ensures
            client.resolver == resolver,
            client.sessions == sessions,
            client.moment == 0,
    {
        PubkyClient { resolver, sessions, moment: 0 }
    }

    /// Replaces the relays by the texts among `relays`, in their order.
    /// Everything else stays.
    pub fn set_pkarr_relays(self, relays: Vec<Option<String>>) -> (client: PubkyClient)
        ensures
            client.resolver@ == texts_among(relays@),
            client.resolver.environment == self.resolver.environment,
            client.sessions == self.sessions,
            client.moment == self.moment,
    {
        let mut kept: Vec<String> = Vec::new();
        let mut i: usize = 0;
        assert(relays@.take(0) =~= Seq::<Option<String>>::empty());
        assert(relay_texts(kept@) =~= texts_among(relays@.take(0)));
        while i < relays.len()
            invariant
                i <= relays@.len(),
                relay_texts(kept@) == texts_among(relays@.take(i as int)),
            decreases relays@.len() - i,
        {
            let ghost before = kept@;
            proof {
                let next = relays@.take(i + 1);
                assert(next.drop_last() =~= relays@.take(i as int));
                assert(next.last() == relays@[i as int]);
            }
            match &relays[i] {
                Some(text) => {
                    kept.push(text.clone());
                    assert(relay_texts(kept@) =~= relay_texts(before).push(text@));
                },
                None => {},
            }
            i += 1;
        }
        assert(relays@.take(relays@.len() as int) =~= relays@);
        PubkyClient {
            resolver: Resolver { relays: kept, environment: self.resolver.environment },
            sessions: self.sessions,
            moment: self.moment,
        }
    }

    /// The relays that the client asks, in their order.
    pub fn get_pkarr_relays(&self) -> (relays: Vec<String>)
        ensures
            relay_texts(relays@) == self.resolver@,
    {
        let mut relays: Vec<String> = Vec::new();
        let mut i: usize = 0;
        while i < self.resolver.relays.len()
            invariant
                i <= self.resolver.relays@.len(),
                relays@.len() == i,
                forall|j: int| 0 <= j < i ==> (#[trigger] relays@[j])@ == self.resolver.relays@[j]@,
            decreases self.resolver.relays@.len() - i,
        {
            relays.push(self.resolver.relays[i].clone());
            i += 1;
        }
        assert(relay_texts(relays@) =~= self.resolver@);
        relays
    }

    /// Whether the client's requests go over HTTPS.
    fn secure(&self) -> (yes: bool)
        ensures
            yes == is_secure(self.resolver.environment),
    {
        match self.resolver.environment {
            Environment::Production => true,
            Environment::Testnet => false,
        }
    }

    /// Takes the freshness of the next assertion and remembers it.
    fn next_moment(&mut self, now: u64) -> (freshness: u64)
        ensures
            freshness == fresh(old(self).moment, now),
            final(self).moment == freshness,
            final(self).resolver == old(self).resolver,
            final(self).sessions == old(self).sessions,
    {
        let freshness = if now > self.moment {
            now
        } else if self.moment < u64::MAX {
            self.moment + 1
        } else {
            self.moment
        };
        self.moment = freshness;
        freshness
    }
}

impl Default for PubkyClient {
    /// The client of the public network.
    fn default() -> (client: PubkyClient)
        ensures
            client.resolver@ == seq![default_relay()],
            client.resolver.environment == Environment::Production,
            client.sessions.strategy_spec() == Strategy::Explicit,
            client.sessions@ == Map::<Seq<u8>, Seq<char>>::empty(),
            client.moment == 0,
    {
        PubkyClient::new()
    }
}

/// The path of an identity's session, as text.
fn session_path_of(pubky: &PublicKey) -> (path: String)
    ensures
        path@ == session_path(pubky.z32_spec()),
{
    let mut path = String::from_str("/");
    let key = pubky.z32();
    path.append(key.as_str());
    path.append("/session");
    path
}

/// The path of a piece of content, as text.
fn content_path_of(pubky: &PublicKey, rest: &str) -> (path: String)
    ensures
        path@ == content_path(pubky.z32_spec(), rest@),
{
    let mut path = String::from_str("/");
    let key = pubky.z32();
    path.append(key.as_str());
    path.append("/");
    path.append(rest);
    path
}

/// The error for an answer with a status that the operation does not expect.
fn remote_error(response: Response) -> (error: Error)
    ensures
        error@ == remote(response@),
{
    Error::Remote { status: response.status, detail: response.body }
}

impl PubkyClient {
    /// Evicts the credential of `pubky` where the answer is a refusal, and
    /// gives the error that carries the answer's status and body.
    fn fail(&mut self, pubky: &PublicKey, response: Response) -> (error: Error)
        ensures
            error@ == remote(response@),
            final(self).resolver == old(self).resolver,
            final(self).moment == old(self).moment,
            final(self).sessions.strategy_spec() == old(self).sessions.strategy_spec(),
            final(self).sessions@ == after_failure(old(self).sessions@, pubky@, response@),
    {
        match classify(&response) {
            Disposition::Rejected(_) => self.sessions.remove(pubky),
            _ => {},
        }
        remote_error(response)
    }

    /// The request that signs `keypair`'s identity up at a homeserver: the
    /// signed assertion, put under the identity's own path.  No credential
    /// goes with it.  `now` is the caller's clock; the assertion's freshness
    /// is taken from it so that it exceeds that of the client's last
    /// assertion.
    pub fn signup_request(
        &mut self,
        keypair: &Keypair,
        homeserver: &PublicKey,
        address: &HomeserverAddress,
        now: u64,
    ) -> (request: Request)
        ensures
            final(self).resolver == old(self).resolver,
            final(self).sessions == old(self).sessions,
            final(self).moment == fresh(old(self).moment, now),
            request@ == (RequestView {
                method: Method::Put,
                secure: is_secure(old(self).resolver.environment),
                address: address@,
                path: identity_path(keypair.public_spec().z32_spec()),
                body: assertion_wire(
                    keypair.secret_spec(),
                    keypair.public_spec()@,
                    homeserver@,
                    Intent::Signup,
                    fresh(old(self).moment, now),
                ),
                credential: None,
            }),
    {
        let freshness = self.next_moment(now);
        let assertion = sign_assertion(keypair, homeserver, Intent::Signup, freshness);
        let mut path = String::from_str("/");
        let key = keypair.public_key().z32();
        path.append(key.as_str());
        Request {
            method: Method::Put,
            secure: self.secure(),
            address: address.clone(),
            path,
            body: assertion.to_bytes(),
            credential: None,
        }
    }

    /// Takes the answer to a signup.  On success the credential that the
    /// homeserver issued is filed under the identity; on any other answer
    /// the signup has failed and the store stays as it was.
    pub fn signup(&mut self, keypair: &Keypair, delivery: Delivery) -> (result: Result<(), Error>)
        ensures
            final(self).resolver == old(self).resolver,
            final(self).moment == old(self).moment,
            final(self).sessions.strategy_spec() == old(self).sessions.strategy_spec(),
            (done_view(result), final(self).sessions@) == after_signup(
                old(self).sessions.strategy_spec(),
                old(self).sessions@,
                keypair.public_spec()@,
                delivery_view(delivery),
            ),
    {
        match delivery {
            Delivery::Failed { cause } => Err(Error::Transport { cause }),
            Delivery::Answered(response) => {
                if response.succeeded() {
                    match response.credential {
                        Some(credential) => self.sessions.put(keypair.public_key(), credential),
                        None => {},
                    }
                    Ok(())
                } else {
                    Err(Error::SignupFailed { status: response.status, detail: response.body })
                }
            },
        }
    }

    /// The request that signs `keypair`'s identity in at the homeserver
    /// resolved for it: the signed assertion, posted to the identity's
    /// session.  The assertion is addressed to the homeserver whose key the
    /// resolved host names, and to the identity itself where the host names
    /// no key.  No credential goes with it.
    pub fn signin_request(&mut self, keypair: &Keypair, address: &HomeserverAddress, now: u64) -> (
        request: Request)
        ensures
            final(self).resolver == old(self).resolver,
            final(self).sessions == old(self).sessions,
            final(self).moment == fresh(old(self).moment, now),
            request@ == (RequestView {
                method: Method::Post,
                secure: is_secure(old(self).resolver.environment),
                address: address@,
                path: session_path(keypair.public_spec().z32_spec()),
                body: assertion_wire(
                    keypair.secret_spec(),
                    keypair.public_spec()@,
                    signin_target(keypair.public_spec()@, address.host@),
                    Intent::Signin,
                    fresh(old(self).moment, now),
                ),
                credential: None,
            }),
    {
        let freshness = self.next_moment(now);
        let homeserver = match PublicKey::from_z32(address.host.as_str()) {
            Some(key) => key,
            None => keypair.public_key().clone(),
        };
        let assertion = sign_assertion(keypair, &homeserver, Intent::Signin, freshness);
        Request {
            method: Method::Post,
            secure: self.secure(),
            address: address.clone(),
            path: session_path_of(keypair.public_key()),
            body: assertion.to_bytes(),
            credential: None,
        }
    }

    /// Takes the answer to a signin.  On success the issued credential is
    /// filed; on a refusal no credential of the identity remains.
    pub fn signin(&mut self, keypair: &Keypair, delivery: Delivery) -> (result: Result<(), Error>)
        ensures
            final(self).resolver == old(self).resolver,
            final(self).moment == old(self).moment,
            final(self).sessions.strategy_spec() == old(self).sessions.strategy_spec(),
            (done_view(result), final(self).sessions@) == after_signin(
                old(self).sessions.strategy_spec(),
                old(self).sessions@,
                keypair.public_spec()@,
                delivery_view(delivery),
            ),
    {
        match delivery {
            Delivery::Failed { cause } => Err(Error::Transport { cause }),
            Delivery::Answered(response) => {
                match classify(&response) {
                    Disposition::Success => {
                        match response.credential {
                            Some(credential) => self.sessions.put(keypair.public_key(), credential),
                            None => {},
                        }
                        Ok(())
                    },
                    Disposition::Rejected(reason) => {
                        self.sessions.remove(keypair.public_key());
                        Err(Error::Auth { reason, status: response.status, detail: response.body })
                    },
                    _ => Err(remote_error(response)),
                }
            },
        }
    }

    /// The request that asks a homeserver for an identity's session.  It
    /// carries the credential that the store holds for that identity, and
    /// none of any other.
    pub fn session_request(&self, pubky: &PublicKey, address: &HomeserverAddress) -> (request:
        Request)
        ensures
            request@ == (RequestView {
                method: Method::Get,
                secure: is_secure(self.resolver.environment),
                address: address@,
                path: session_path(pubky.z32_spec()),
                body: Seq::empty(),
                credential: held(self.sessions@, pubky@),
            }),
    {
        Request {
            method: Method::Get,
            secure: self.secure(),
            address: address.clone(),
            path: session_path_of(pubky),
            body: Vec::new(),
            credential: self.sessions.get(pubky),
        }
    }

    /// Takes the answer to a session check: the session on success, none
    /// where the homeserver reports not-found, and for every other answer an
    /// error with the status and the body.
    pub fn session(&mut self, pubky: &PublicKey, delivery: Delivery) -> (result: Result<
        Option<Session>,
        Error,
    >)
        ensures
            final(self).resolver == old(self).resolver,
            final(self).moment == old(self).moment,
            final(self).sessions.strategy_spec() == old(self).sessions.strategy_spec(),
            (session_view(result), final(self).sessions@) == after_session(
                old(self).sessions@,
                pubky@,
                delivery_view(delivery),
            ),
    {
        match delivery {
            Delivery::Failed { cause } => Err(Error::Transport { cause }),
            Delivery::Answered(response) => {
                match classify(&response) {
                    Disposition::Success => Ok(Some(Session { payload: response.body })),
                    Disposition::NotFound => Ok(None),
                    _ => Err(self.fail(pubky, response)),
                }
            },
        }
    }

    /// The request that signs an identity out.  It carries the credential
    /// that the store holds for that identity.
    pub fn signout_request(&self, pubky: &PublicKey, address: &HomeserverAddress) -> (request:
        Request)
        ensures
            request@ == (RequestView {
                method: Method::Delete,
                secure: is_secure(self.resolver.environment),
                address: address@,
                path: session_path(pubky.z32_spec()),
                body: Seq::empty(),
                credential: held(self.sessions@, pubky@),
            }),
    {
        Request {
            method: Method::Delete,
            secure: self.secure(),
            address: address.clone(),
            path: session_path_of(pubky),
            body: Vec::new(),
            credential: self.sessions.get(pubky),
        }
    }

    /// Takes the answer to a signout.  The credential is evicted when the
    /// homeserver confirms, and when it refuses the credential.
    pub fn signout(&mut self, pubky: &PublicKey, delivery: Delivery) -> (result: Result<(), Error>)
        ensures
            final(self).resolver == old(self).resolver,
            final(self).moment == old(self).moment,
            final(self).sessions.strategy_spec() == old(self).sessions.strategy_spec(),
            (done_view(result), final(self).sessions@) == after_signout(
                old(self).sessions@,
                pubky@,
                delivery_view(delivery),
            ),
    {
        match delivery {
            Delivery::Failed { cause } => Err(Error::Transport { cause }),
            Delivery::Answered(response) => {
                match classify(&response) {
                    Disposition::Success => {
                        self.sessions.remove(pubky);
                        Ok(())
                    },
                    _ => Err(self.fail(pubky, response)),
                }
            },
        }
    }

    /// The request that stores `content` at a path of an identity, with the
    /// identity's credential.  No request is built for an identity that the
    /// store does not admit.
    pub fn put_request(
        &self,
        pubky: &PublicKey,
        path: &str,
        content: &[u8],
        address: &HomeserverAddress,
    ) -> (plan: Result<Request, Error>)
        ensures
            plan_view(plan) == put_plan(
                self.sessions.strategy_spec(),
                self.sessions@,
                self.resolver.environment,
                pubky@,
                pubky.z32_spec(),
                path@,
                content@,
                address@,
            ),
    {
        if !self.sessions.admits(pubky) {
            return Err(Error::Unauthenticated);
        }
        Ok(
            Request {
                method: Method::Put,
                secure: self.secure(),
                address: address.clone(),
                path: content_path_of(pubky, path),
                body: copy_bytes(content),
                credential: self.sessions.get(pubky),
            },
        )
    }

    /// Takes the answer to a put.  A refusal evicts the credential.
    pub fn put(&mut self, pubky: &PublicKey, delivery: Delivery) -> (result: Result<(), Error>)
        ensures
            final(self).resolver == old(self).resolver,
            final(self).moment == old(self).moment,
            final(self).sessions.strategy_spec() == old(self).sessions.strategy_spec(),
            (done_view(result), final(self).sessions@) == after_put(
                old(self).sessions@,
                pubky@,
                delivery_view(delivery),
            ),
    {
        match delivery {
            Delivery::Failed { cause } => Err(Error::Transport { cause }),
            Delivery::Answered(response) => {
                match classify(&response) {
                    Disposition::Success => Ok(()),
                    Disposition::Rejected(reason) => {
                        self.sessions.remove(pubky);
                        Err(Error::Auth { reason, status: response.status, detail: response.body })
                    },
                    _ => Err(remote_error(response)),
                }
            },
        }
    }

    /// The request that reads the content at a path of an identity.  A read
    /// needs no session, so the request is always built; it carries the
    /// credential that the store holds for the identity, if it holds one.
    pub fn get_request(&self, pubky: &PublicKey, path: &str, address: &HomeserverAddress) -> (
        request: Request)
        ensures
            request@ == (RequestView {
                method: Method::Get,
                secure: is_secure(self.resolver.environment),
                address: address@,
                path: content_path(pubky.z32_spec(), path@),
                body: Seq::empty(),
                credential: held(self.sessions@, pubky@),
            }),
    {
        Request {
            method: Method::Get,
            secure: self.secure(),
            address: address.clone(),
            path: content_path_of(pubky, path),
            body: Vec::new(),
            credential: self.sessions.get(pubky),
        }
    }

    /// Takes the answer to a get: the bytes as they came on success, none
    /// where the homeserver reports not-found, and for every other answer an
    /// error with the status and the body.
    pub fn get(&mut self, pubky: &PublicKey, delivery: Delivery) -> (result: Result<
        Option<Vec<u8>>,
        Error,
    >)
        ensures
            final(self).resolver == old(self).resolver,
            final(self).moment == old(self).moment,
            final(self).sessions.strategy_spec() == old(self).sessions.strategy_spec(),
            (bytes_view(result), final(self).sessions@) == after_get(
                old(self).sessions@,
                pubky@,
                delivery_view(delivery),
            ),
    {
        match delivery {
            Delivery::Failed { cause } => Err(Error::Transport { cause }),
            Delivery::Answered(response) => {
                match classify(&response) {
                    Disposition::Success => Ok(Some(response.body)),
                    Disposition::NotFound => Ok(None),
                    _ => Err(self.fail(pubky, response)),
                }
            },
        }
    }
}

} // verus!
