use std::collections::HashMap;

use pubky::client::PubkyClient;
use pubky::error::Error;
use pubky::keys::Keypair;
use pubky::resolver::{HomeserverAddress, Lookup, RelayAnswer};
use pubky::session_store::SessionCredential;
use pubky::transport::{Delivery, Method, Request, Response};

/// A homeserver in memory: one session per identity, content by path.
struct Homeserver {
    sessions: HashMap<String, String>,
    content: HashMap<String, Vec<u8>>,
    issued: u32,
}

fn plain(status: u16, body: Vec<u8>) -> Delivery {
    Delivery::Answered(Response { status, body, credential: None })
}

impl Homeserver {
    fn new() -> Self {
        Homeserver { sessions: HashMap::new(), content: HashMap::new(), issued: 0 }
    }

    fn owner_of(path: &str) -> String {
        path.trim_start_matches('/').split('/').next().unwrap_or("").to_string()
    }

    fn honours(&self, request: &Request) -> bool {
        match (&request.credential, self.sessions.get(&Self::owner_of(&request.path))) {
            (Some(attached), Some(held)) => &attached.token == held,
            _ => false,
        }
    }

    fn serve(&mut self, request: Request) -> Delivery {
        let owner = Self::owner_of(&request.path);
        let is_session = request.path == format!("/{}/session", owner);
        let is_identity = request.path == format!("/{}", owner);
        match request.method {
            Method::Put if is_identity => self.issue(owner),
            Method::Post if is_session => self.issue(owner),
            Method::Get if is_session => {
                if self.honours(&request) {
                    plain(200, owner.into_bytes())
                } else {
                    plain(404, Vec::new())
                }
            }
            Method::Delete if is_session => {
                if self.honours(&request) {
                    self.sessions.remove(&owner);
                    plain(200, Vec::new())
                } else {
                    plain(401, Vec::new())
                }
            }
            Method::Put => {
                if self.honours(&request) {
                    self.content.insert(request.path, request.body);
                    plain(200, Vec::new())
                } else {
                    plain(401, Vec::new())
                }
            }
            Method::Get => match self.content.get(&request.path) {
                Some(bytes) => plain(200, bytes.clone()),
                None => plain(404, Vec::new()),
            },
            _ => plain(405, Vec::new()),
        }
    }

    fn issue(&mut self, owner: String) -> Delivery {
        self.issued += 1;
        let token = format!("session-{}", self.issued);
        self.sessions.insert(owner, token.clone());
        Delivery::Answered(Response {
            status: 200,
            body: Vec::new(),
            credential: Some(SessionCredential { token }),
        })
    }
}

fn at_home() -> HomeserverAddress {
    HomeserverAddress { host: "home.example".to_string(), port: 443 }
}

fn enrolled(server: &mut Homeserver, keypair: &Keypair) -> PubkyClient {
    let homeserver = Keypair::from_secret([200u8; 32]);
    let mut client = PubkyClient::new();
    let request = client.signup_request(keypair, homeserver.public_key(), &at_home(), 1);
    let delivery = server.serve(request);
    assert_eq!(client.signup(keypair, delivery), Ok(()));
    client
}

#[test]
fn session_follows_signup_and_ends_with_signout() {
    let keypair = Keypair::from_secret([71u8; 32]);
    let mut server = Homeserver::new();
    let mut client = enrolled(&mut server, &keypair);
    let key = keypair.public_key();

    let delivery = server.serve(client.session_request(key, &at_home()));
    let session = client.session(key, delivery).expect("a session check is no error");
    assert!(session.is_some());

    let delivery = server.serve(client.signout_request(key, &at_home()));
    assert_eq!(client.signout(key, delivery), Ok(()));

    let delivery = server.serve(client.session_request(key, &at_home()));
    assert_eq!(client.session(key, delivery), Ok(None));
}

#[test]
fn session_of_a_stranger_is_none() {
    let keypair = Keypair::from_secret([72u8; 32]);
    let mut server = Homeserver::new();
    let mut client = PubkyClient::new();
    let delivery = server.serve(client.session_request(keypair.public_key(), &at_home()));
    assert_eq!(client.session(keypair.public_key(), delivery), Ok(None));
}

#[test]
fn get_returns_what_put_wrote() {
    let keypair = Keypair::from_secret([73u8; 32]);
    let mut server = Homeserver::new();
    let mut client = enrolled(&mut server, &keypair);
    let key = keypair.public_key();
    let content = vec![0u8, 1, 2, 253, 254, 255];

    let request = client.put_request(key, "pub/data.bin", &content, &at_home()).unwrap();
    let delivery = server.serve(request);
    assert_eq!(client.put(key, delivery), Ok(()));

    let delivery = server.serve(client.get_request(key, "pub/data.bin", &at_home()));
    assert_eq!(client.get(key, delivery), Ok(Some(content)));

    let delivery = server.serve(client.get_request(key, "pub/other.bin", &at_home()));
    assert_eq!(client.get(key, delivery), Ok(None));
}

#[test]
fn putting_twice_is_putting_once() {
    let keypair = Keypair::from_secret([74u8; 32]);
    let mut server = Homeserver::new();
    let mut client = enrolled(&mut server, &keypair);
    let key = keypair.public_key();

    let request = client.put_request(key, "pub/a", b"same", &at_home()).unwrap();
    let delivery = server.serve(request);
    assert_eq!(client.put(key, delivery), Ok(()));
    let delivery = server.serve(client.get_request(key, "pub/a", &at_home()));
    let once = client.get(key, delivery);

    let request = client.put_request(key, "pub/a", b"same", &at_home()).unwrap();
    let delivery = server.serve(request);
    assert_eq!(client.put(key, delivery), Ok(()));
    let delivery = server.serve(client.get_request(key, "pub/a", &at_home()));
    let twice = client.get(key, delivery);

    assert_eq!(once, Ok(Some(b"same".to_vec())));
    assert_eq!(twice, once);
    assert_eq!(server.content.len(), 1);
}

#[test]
fn put_before_signup_sends_nothing() {
    let keypair = Keypair::from_secret([75u8; 32]);
    let server = Homeserver::new();
    let client = PubkyClient::new();
    let plan = client.put_request(keypair.public_key(), "pub/a", b"data", &at_home());
    assert_eq!(plan, Err(Error::Unauthenticated));
    assert!(server.content.is_empty());
}

#[test]
fn put_after_signout_is_unauthenticated() {
    let keypair = Keypair::from_secret([76u8; 32]);
    let mut server = Homeserver::new();
    let mut client = enrolled(&mut server, &keypair);
    let key = keypair.public_key();
    let delivery = server.serve(client.signout_request(key, &at_home()));
    assert_eq!(client.signout(key, delivery), Ok(()));
    assert_eq!(client.put_request(key, "pub/a", b"data", &at_home()), Err(Error::Unauthenticated));
}

#[test]
fn signin_renews_the_session() {
    let keypair = Keypair::from_secret([77u8; 32]);
    let homeserver = Keypair::from_secret([200u8; 32]);
    let mut server = Homeserver::new();
    let mut client = enrolled(&mut server, &keypair);
    let key = keypair.public_key();
    let before = client.sessions.get(key);

    let address = HomeserverAddress { host: homeserver.public_key().z32(), port: 443 };
    let request = client.signin_request(&keypair, &address, 2);
    let delivery = server.serve(request);
    assert_eq!(client.signin(&keypair, delivery), Ok(()));
    let after = client.sessions.get(key);
    assert!(after.is_some());
    assert_ne!(before, after);

    let delivery = server.serve(client.session_request(key, &at_home()));
    assert!(matches!(client.session(key, delivery), Ok(Some(_))));
}

#[test]
fn stale_credential_is_evicted_when_refused() {
    let keypair = Keypair::from_secret([78u8; 32]);
    let mut server = Homeserver::new();
    let mut client = enrolled(&mut server, &keypair);
    let key = keypair.public_key();
    server.sessions.clear();

    let request = client.put_request(key, "pub/a", b"data", &at_home()).unwrap();
    let delivery = server.serve(request);
    assert!(matches!(client.put(key, delivery), Err(Error::Auth { .. })));
    assert_eq!(client.sessions.get(key), None);
}

#[test]
fn lookup_asks_each_relay_once_until_a_record_comes() {
    let keypair = Keypair::from_secret([79u8; 32]);
    let key = keypair.public_key();
    let client = PubkyClient::new().set_pkarr_relays(vec![
        Some("https://one".to_string()),
        Some("https://two".to_string()),
        Some("https://three".to_string()),
    ]);
    let answers = [
        RelayAnswer::Unusable,
        RelayAnswer::Record(at_home()),
        RelayAnswer::Record(HomeserverAddress { host: "late".to_string(), port: 1 }),
    ];
    let mut asked = Vec::new();
    let mut lookup = client.resolver.begin(key);
    let mut answers = answers.into_iter();
    let found = loop {
        match lookup {
            Lookup::Ask { relay, url } => {
                asked.push(url);
                lookup = client.resolver.advance(key, relay, answers.next().unwrap());
            }
            Lookup::Done(end) => break end,
        }
    };
    assert_eq!(found, Ok(at_home()));
    assert_eq!(
        asked,
        vec![format!("https://one/{}", key.z32()), format!("https://two/{}", key.z32())]
    );
}

#[test]
fn lookup_fails_when_every_relay_has_nothing() {
    let keypair = Keypair::from_secret([80u8; 32]);
    let key = keypair.public_key();
    let client = PubkyClient::testnet();
    let mut asked = 0;
    let mut lookup = client.resolver.begin(key);
    let found = loop {
        match lookup {
            Lookup::Ask { relay, .. } => {
                asked += 1;
                lookup = client.resolver.advance(key, relay, RelayAnswer::NotFound);
            }
            Lookup::Done(end) => break end,
        }
    };
    assert_eq!(found, Err(Error::ResolutionFailed));
    assert_eq!(asked, 1);
}
