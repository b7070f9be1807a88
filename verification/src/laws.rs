//! What holds of the client as a whole.
//!
//! Some laws speak of the client alone.  Others speak of a client and a
//! homeserver together; for those, [`Homeserver`] describes a homeserver
//! that keeps its side of the interface: it remembers the credential it
//! issued to an identity, honours exactly that credential, and stores
//! content under the path it was put at.

use crate::auth::{lemma_signable_binds, rejection, signable, Intent};
use crate::client::{
    after_failure, after_get, after_put, after_session, after_signin, after_signout, after_signup,
    content_path, disposition, fresh, held, issued, put_plan, refused, remote, Disposition,
};
use crate::error::ErrorView;
use crate::resolver::{
    first_record, first_step, lemma_lookup_finds_first, outcome, Environment, Step,
};
use crate::session_store::{admitted, Strategy};
use crate::transport::{is_not_found, is_success, RequestView, ResponseView};
use vstd::prelude::*;

verus! {

/// Where no relay has a usable record for a key, the lookup fails, however
/// many relays there are.
pub proof fn law_unresolved_key_fails(records: Seq<Option<(Seq<char>, u16)>>)
    requires
        forall|i: int| 0 <= i < records.len() ==> records[i] is None,
    ensures
        first_record(records) is None,
        outcome(records.len(), records, first_step(records.len())) == Step::Failed,
    decreases records.len(),
{
    if records.len() > 0 {
        let rest = records.drop_first();
        assert forall|i: int| 0 <= i < rest.len() implies rest[i] is None by {
            assert(rest[i] == records[i + 1]);
        }
        law_unresolved_key_fails(rest);
    }
    lemma_lookup_finds_first(records);
}

/// A session check gives no session exactly when the homeserver reports
/// not-found, and a session exactly when it reports success; neither is an
/// error, and neither changes the store.  Every other answer is an error
/// that carries the status and the body of the answer.
pub proof fn law_session_answers(
    store: Map<Seq<u8>, Seq<char>>,
    key: Seq<u8>,
    response: ResponseView,
)
    ensures
        after_session(store, key, Ok(response)).0 == Ok::<Option<Seq<u8>>, ErrorView>(None)
            <==> is_not_found(response.status),
        after_session(store, key, Ok(response)).0 == Ok::<Option<Seq<u8>>, ErrorView>(
            Some(response.body),
        ) <==> is_success(response.status),
        !is_success(response.status) && !is_not_found(response.status) <==> after_session(
            store,
            key,
            Ok(response),
        ).0 == Err::<Option<Seq<u8>>, ErrorView>(
            ErrorView::Remote { status: response.status, detail: response.body },
        ),
        after_session(store, key, Ok(response)).0 is Ok ==> after_session(
            store,
            key,
            Ok(response),
        ).1 == store,
{
}

/// No request to put content is built for an identity that the store does
/// not admit: the put is refused as unauthenticated.  A store that keeps
/// the credentials itself admits no identity without a credential.  And
/// whoever keeps the credentials, a request for an identity without one
/// carries none.
pub proof fn law_put_needs_session(
    strategy: Strategy,
    store: Map<Seq<u8>, Seq<char>>,
    environment: Environment,
    key: Seq<u8>,
    key_text: Seq<char>,
    path: Seq<char>,
    content: Seq<u8>,
    address: (Seq<char>, u16),
)
    requires
        !store.contains_key(key),
    ensures
        !admitted(Strategy::Explicit, store, key),
        !admitted(strategy, store, key) ==> put_plan(
            strategy,
            store,
            environment,
            key,
            key_text,
            path,
            content,
            address,
        ) == Err::<RequestView, ErrorView>(ErrorView::Unauthenticated),
        put_plan(strategy, store, environment, key, key_text, path, content, address) matches Ok(
            request,
        ) ==> request.credential is None,
{
}

/// A request to put content carries the credential of the identity it is
/// for and of no other, the content as given, and the address it was built
/// for.
pub proof fn law_put_carries_own_credential(
    strategy: Strategy,
    store: Map<Seq<u8>, Seq<char>>,
    environment: Environment,
    key: Seq<u8>,
    key_text: Seq<char>,
    path: Seq<char>,
    content: Seq<u8>,
    address: (Seq<char>, u16),
)
    ensures
        put_plan(strategy, store, environment, key, key_text, path, content, address) matches Ok(
            request,
        ) ==> {
            &&& request.credential == held(store, key)
            &&& request.body == content
            &&& request.address == address
        },
{
}

/// Once a homeserver has confirmed a signout, the store holds no credential
/// for that identity, and the credentials of all others are as before.
pub proof fn law_confirmed_signout_evicts(
    store: Map<Seq<u8>, Seq<char>>,
    key: Seq<u8>,
    response: ResponseView,
)
    requires
        is_success(response.status),
    ensures
        after_signout(store, key, Ok(response)).0 == Ok::<(), ErrorView>(()),
        !after_signout(store, key, Ok(response)).1.contains_key(key),
        held(after_signout(store, key, Ok(response)).1, key) is None,
        forall|other: Seq<u8>|
            other != key ==> held(after_signout(store, key, Ok(response)).1, other) == held(
                store,
                other,
            ),
{
}

/// The answer to a get never files a credential.  So when a signout and a
/// get of one identity are under way together, the store holds no
/// credential for it once both answers are taken and the signout was
/// confirmed, in whichever order they are taken.
pub proof fn law_signout_beside_get(
    store: Map<Seq<u8>, Seq<char>>,
    key: Seq<u8>,
    confirmed: ResponseView,
    got: Result<ResponseView, Seq<char>>,
)
    requires
        is_success(confirmed.status),
    ensures
        forall|other: Seq<u8>|
            after_get(store, key, got).1.contains_key(other) ==> store.contains_key(other),
        !after_get(after_signout(store, key, Ok(confirmed)).1, key, got).1.contains_key(key),
        !after_signout(after_get(store, key, got).1, key, Ok(confirmed)).1.contains_key(key),
{
}

/// An answer that is lost changes no store, whatever the operation, and
/// the cause of the loss reaches the caller as it came.
pub proof fn law_lost_answer_changes_nothing(
    strategy: Strategy,
    store: Map<Seq<u8>, Seq<char>>,
    key: Seq<u8>,
    cause: Seq<char>,
)
    ensures
        after_signup(strategy, store, key, Err(cause)) == (
            Err::<(), ErrorView>(ErrorView::Transport { cause }),
            store,
        ),
        after_signin(strategy, store, key, Err(cause)) == (
            Err::<(), ErrorView>(ErrorView::Transport { cause }),
            store,
        ),
        after_session(store, key, Err(cause)) == (
            Err::<Option<Seq<u8>>, ErrorView>(ErrorView::Transport { cause }),
            store,
        ),
        after_signout(store, key, Err(cause)) == (
            Err::<(), ErrorView>(ErrorView::Transport { cause }),
            store,
        ),
        after_put(store, key, Err(cause)) == (
            Err::<(), ErrorView>(ErrorView::Transport { cause }),
            store,
        ),
        after_get(store, key, Err(cause)) == (
            Err::<Option<Seq<u8>>, ErrorView>(ErrorView::Transport { cause }),
            store,
        ),
{
}

/// A failed signup changes no store.
pub proof fn law_failed_signup_changes_nothing(
    strategy: Strategy,
    store: Map<Seq<u8>, Seq<char>>,
    key: Seq<u8>,
    response: ResponseView,
)
    requires
        !is_success(response.status),
    ensures
        after_signup(strategy, store, key, Ok(response)) == (
            Err::<(), ErrorView>(
                ErrorView::SignupFailed { status: response.status, detail: response.body },
            ),
            store,
        ),
{
}

/// When a homeserver refuses authentication, no credential of the identity
/// remains, whatever the operation but a signup, and the credentials of
/// all other identities stay.  A signin and a put report the refusal with
/// its reason; a session check, a signout and a get report the answer.
/// Each error carries the status and the body.
pub proof fn law_refusal_evicts(
    strategy: Strategy,
    store: Map<Seq<u8>, Seq<char>>,
    key: Seq<u8>,
    response: ResponseView,
    reason: crate::auth::AuthReason,
)
    requires
        rejection(response.status, response.body) == Some(reason),
    ensures
        after_signin(strategy, store, key, Ok(response)) == (
            Err::<(), ErrorView>(refused(reason, response)),
            store.remove(key),
        ),
        after_put(store, key, Ok(response)) == (
            Err::<(), ErrorView>(refused(reason, response)),
            store.remove(key),
        ),
        after_session(store, key, Ok(response)) == (
            Err::<Option<Seq<u8>>, ErrorView>(remote(response)),
            store.remove(key),
        ),
        after_signout(store, key, Ok(response)) == (
            Err::<(), ErrorView>(remote(response)),
            store.remove(key),
        ),
        after_get(store, key, Ok(response)) == (
            Err::<Option<Seq<u8>>, ErrorView>(remote(response)),
            store.remove(key),
        ),
        after_failure(store, key, response) == store.remove(key),
{
    assert(disposition(response) == Disposition::Rejected(reason));
}

/// A client never signs the same message twice: the freshness of an
/// assertion exceeds that of the one before, as long as that was below the
/// greatest value, and then its signed message differs from that of every
/// earlier assertion, whatever identity, homeserver and intent those had.
pub proof fn law_assertions_never_repeat(
    last: u64,
    now: u64,
    earlier: u64,
    identity: Seq<u8>,
    homeserver: Seq<u8>,
    intent: Intent,
    earlier_identity: Seq<u8>,
    earlier_homeserver: Seq<u8>,
    earlier_intent: Intent,
)
    requires
        last < u64::MAX,
        earlier <= last,
        identity.len() == 32,
        homeserver.len() == 32,
        earlier_identity.len() == 32,
        earlier_homeserver.len() == 32,
    ensures
        fresh(last, now) > last,
        fresh(last, now) >= now,
        signable(identity, homeserver, intent, fresh(last, now)) != signable(
            earlier_identity,
            earlier_homeserver,
            earlier_intent,
            earlier,
        ),
{
    if signable(identity, homeserver, intent, fresh(last, now)) == signable(
        earlier_identity,
        earlier_homeserver,
        earlier_intent,
        earlier,
    ) {
        lemma_signable_binds(
            identity,
            homeserver,
            intent,
            fresh(last, now),
            earlier_identity,
            earlier_homeserver,
            earlier_intent,
            earlier,
        );
    }
}

/// A homeserver that keeps its side of the interface, as far as a client
/// can tell: the credential it issued to each identity, and the content at
/// each path.
pub struct Homeserver {
    pub sessions: Map<Seq<char>, Seq<char>>,
    pub content: Map<Seq<char>, Seq<u8>>,
}

/// Whether a request with this credential attached is of the session that
/// the homeserver holds for the identity.
pub open spec fn honoured(server: Homeserver, key_text: Seq<char>, attached: Option<Seq<char>>) -> bool {
    server.sessions.contains_key(key_text) && attached == Some(server.sessions[key_text])
}

/// An answer with a status and nothing else.
pub open spec fn bare(status: u16) -> ResponseView {
    ResponseView { status, body: Seq::empty(), credential: None }
}

/// The homeserver accepts a signup and issues `credential`.
pub open spec fn serve_signup(server: Homeserver, key_text: Seq<char>, credential: Seq<char>) -> (
    Homeserver,
    ResponseView,
) {
    (
        Homeserver { sessions: server.sessions.insert(key_text, credential), ..server },
        ResponseView { status: 200, body: Seq::empty(), credential: Some(credential) },
    )
}

/// The homeserver answers a session check: success for the identity's own
/// credential, not-found otherwise.
pub open spec fn serve_session(
    server: Homeserver,
    key_text: Seq<char>,
    attached: Option<Seq<char>>,
) -> ResponseView {
    if honoured(server, key_text, attached) {
        bare(200)
    } else {
        bare(404)
    }
}

/// The homeserver answers a signout: it ends the session and confirms, or
/// refuses a credential that is not the identity's.
pub open spec fn serve_signout(
    server: Homeserver,
    key_text: Seq<char>,
    attached: Option<Seq<char>>,
) -> (Homeserver, ResponseView) {
    if honoured(server, key_text, attached) {
        (Homeserver { sessions: server.sessions.remove(key_text), ..server }, bare(200))
    } else {
        (server, bare(401))
    }
}

/// The homeserver answers a put: it stores the content and confirms, or
/// refuses a credential that is not the identity's.
pub open spec fn serve_put(
    server: Homeserver,
    key_text: Seq<char>,
    path: Seq<char>,
    content: Seq<u8>,
    attached: Option<Seq<char>>,
) -> (Homeserver, ResponseView) {
    if honoured(server, key_text, attached) {
        (
            Homeserver {
                content: server.content.insert(content_path(key_text, path), content),
                ..server
            },
            bare(200),
        )
    } else {
        (server, bare(401))
    }
}

/// The homeserver answers a get: the content at the path, or not-found.
pub open spec fn serve_get(server: Homeserver, key_text: Seq<char>, path: Seq<char>) -> ResponseView {
    if server.content.contains_key(content_path(key_text, path)) {
        ResponseView {
            status: 200,
            body: server.content[content_path(key_text, path)],
            credential: None,
        }
    } else {
        bare(404)
    }
}

/// After a successful signup, a session check finds the session; after a
/// signout that follows, it finds none.  This holds of a client that keeps
/// its credentials itself.
pub proof fn law_signup_session_signout(
    server: Homeserver,
    store: Map<Seq<u8>, Seq<char>>,
    key: Seq<u8>,
    key_text: Seq<char>,
    credential: Seq<char>,
)
    ensures
        ({
            let (server1, answer1) = serve_signup(server, key_text, credential);
            let (result1, store1) = after_signup(Strategy::Explicit, store, key, Ok(answer1));
            let answer2 = serve_session(server1, key_text, held(store1, key));
            let (result2, store2) = after_session(store1, key, Ok(answer2));
            let (server3, answer3) = serve_signout(server1, key_text, held(store2, key));
            let (result3, store3) = after_signout(store2, key, Ok(answer3));
            let answer4 = serve_session(server3, key_text, held(store3, key));
            let (result4, store4) = after_session(store3, key, Ok(answer4));
            &&& result1 is Ok
            &&& result2 matches Ok(Some(_))
            &&& result3 is Ok
            &&& result4 == Ok::<Option<Seq<u8>>, ErrorView>(None)
            &&& !store4.contains_key(key)
        }),
{
    let (server1, answer1) = serve_signup(server, key_text, credential);
    let (result1, store1) = after_signup(Strategy::Explicit, store, key, Ok(answer1));
    assert(store1 == store.insert(key, credential));
    assert(held(store1, key) == Some(credential));
    let answer2 = serve_session(server1, key_text, held(store1, key));
    assert(honoured(server1, key_text, held(store1, key)));
    assert(disposition(answer2) == Disposition::Success);
    let (result2, store2) = after_session(store1, key, Ok(answer2));
    assert(store2 == store1);
    let (server3, answer3) = serve_signout(server1, key_text, held(store2, key));
    assert(disposition(answer3) == Disposition::Success);
    let (result3, store3) = after_signout(store2, key, Ok(answer3));
    assert(held(store3, key) is None);
    let answer4 = serve_session(server3, key_text, held(store3, key));
    assert(rejection(404, Seq::<u8>::empty()) is None);
    assert(disposition(answer4) == Disposition::NotFound);
}

/// Under one identity, different paths are different places.
pub proof fn law_paths_apart(key_text: Seq<char>, path1: Seq<char>, path2: Seq<char>)
    requires
        path1 != path2,
    ensures
        content_path(key_text, path1) != content_path(key_text, path2),
{
    let head = "/"@ + key_text + "/"@;
    let place1 = content_path(key_text, path1);
    let place2 = content_path(key_text, path2);
    assert(place1 =~= head + path1);
    assert(place2 =~= head + path2);
    if place1 == place2 {
        assert(place1.subrange(head.len() as int, place1.len() as int) =~= path1);
        assert(place2.subrange(head.len() as int, place2.len() as int) =~= path2);
    }
}

/// Content that was put comes back from a get at the same path, byte for
/// byte, and a get at a path that holds nothing gives none.
pub proof fn law_put_then_get(
    server: Homeserver,
    store: Map<Seq<u8>, Seq<char>>,
    environment: Environment,
    key: Seq<u8>,
    key_text: Seq<char>,
    path: Seq<char>,
    content: Seq<u8>,
    address: (Seq<char>, u16),
    elsewhere: Seq<char>,
)
    requires
        honoured(server, key_text, held(store, key)),
        !server.content.contains_key(content_path(key_text, elsewhere)),
        elsewhere != path,
    ensures
        ({
            let plan = put_plan(
                Strategy::Explicit,
                store,
                environment,
                key,
                key_text,
                path,
                content,
                address,
            );
            let (server1, answer1) = serve_put(
                server,
                key_text,
                path,
                plan->Ok_0.body,
                plan->Ok_0.credential,
            );
            &&& plan is Ok
            &&& after_put(store, key, Ok(answer1)) == (Ok::<(), ErrorView>(()), store)
            &&& after_get(store, key, Ok(serve_get(server1, key_text, path))) == (
                Ok::<Option<Seq<u8>>, ErrorView>(Some(content)),
                store,
            )
            &&& after_get(store, key, Ok(serve_get(server1, key_text, elsewhere))) == (
                Ok::<Option<Seq<u8>>, ErrorView>(None),
                store,
            )
        }),
{
    law_paths_apart(key_text, path, elsewhere);
    let plan = put_plan(
        Strategy::Explicit,
        store,
        environment,
        key,
        key_text,
        path,
        content,
        address,
    );
    assert(plan is Ok);
    let (server1, answer1) = serve_put(
        server,
        key_text,
        path,
        plan->Ok_0.body,
        plan->Ok_0.credential,
    );
    assert(disposition(answer1) == Disposition::Success);
    let found = serve_get(server1, key_text, path);
    assert(disposition(found) == Disposition::Success);
    let missing = serve_get(server1, key_text, elsewhere);
    assert(rejection(404, Seq::<u8>::empty()) is None);
    assert(disposition(missing) == Disposition::NotFound);
}

/// Putting the same content twice leaves the homeserver and the client as
/// putting it once: the second put builds the same request, and a get
/// returns the same bytes.
pub proof fn law_put_twice(
    server: Homeserver,
    store: Map<Seq<u8>, Seq<char>>,
    environment: Environment,
    key: Seq<u8>,
    key_text: Seq<char>,
    path: Seq<char>,
    content: Seq<u8>,
    address: (Seq<char>, u16),
)
    requires
        honoured(server, key_text, held(store, key)),
    ensures
        ({
            let plan = put_plan(
                Strategy::Explicit,
                store,
                environment,
                key,
                key_text,
                path,
                content,
                address,
            );
            let (server1, answer1) = serve_put(
                server,
                key_text,
                path,
                plan->Ok_0.body,
                plan->Ok_0.credential,
            );
            let (result1, store1) = after_put(store, key, Ok(answer1));
            let again = put_plan(
                Strategy::Explicit,
                store1,
                environment,
                key,
                key_text,
                path,
                content,
                address,
            );
            let (server2, answer2) = serve_put(
                server1,
                key_text,
                path,
                again->Ok_0.body,
                again->Ok_0.credential,
            );
            let (result2, store2) = after_put(store1, key, Ok(answer2));
            &&& again == plan
            &&& result2 == result1
            &&& store2 == store
            &&& server2 == server1
            &&& after_get(store2, key, Ok(serve_get(server2, key_text, path))) == after_get(
                store1,
                key,
                Ok(serve_get(server1, key_text, path)),
            )
        }),
{
    let plan = put_plan(
        Strategy::Explicit,
        store,
        environment,
        key,
        key_text,
        path,
        content,
        address,
    );
    let (server1, answer1) = serve_put(
        server,
        key_text,
        path,
        plan->Ok_0.body,
        plan->Ok_0.credential,
    );
    assert(disposition(answer1) == Disposition::Success);
    let spot = content_path(key_text, path);
    assert(server1.content.insert(spot, content) =~= server1.content);
}

/// A client that leaves the credentials to the transport holds none, so it
/// attaches none to any request and refuses no put by itself.
pub proof fn law_delegated_attaches_nothing(
    environment: Environment,
    key: Seq<u8>,
    key_text: Seq<char>,
    path: Seq<char>,
    content: Seq<u8>,
    address: (Seq<char>, u16),
    credential: Option<Seq<char>>,
)
    ensures
        issued(Strategy::Delegated, Map::empty(), key, credential) == Map::<
            Seq<u8>,
            Seq<char>,
        >::empty(),
        put_plan(
            Strategy::Delegated,
            Map::empty(),
            environment,
            key,
            key_text,
            path,
            content,
            address,
        ) matches Ok(request) && request.credential is None,
{
}

} // verus!
