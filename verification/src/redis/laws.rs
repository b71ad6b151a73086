//! What holds of every run of the pool.

use vstd::prelude::*;
use vstd::utf8::{encode_utf8, encode_utf8_decode_utf8, encode_utf8_valid_utf8};
use crate::http::{Error, StoreFailure};
use crate::redis::command::Command;
use crate::redis::pool::{
    auth_words, decoded, Action, Decoded, Event, Expect, Outcome, Phase, PoolState, Purpose,
};
use crate::redis::reply::Reply;

verus! {

/// Whether `action` starts a round trip to the store.
pub open spec fn starts_round_trip(action: Action) -> bool {
    action is Probe || action is Open || action is Authenticate || action is Send
}

/// Mutual exclusion at the start of a cycle: a cycle begins only in a pool
/// with no round trip in flight, and then starts exactly one. A pool with a
/// round trip in flight refuses, starts nothing and stays as it is.
pub proof fn one_cycle_at_a_time(
    pre: PoolState,
    purpose: Purpose,
    command: Option<Command>,
    expect: Option<Expect>,
    post: PoolState,
    action: Action,
)
    requires
        pre.begins(purpose, command, expect, post, action),
    ensures
        post.in_flight() <= 1,
        pre.in_flight() == 0 ==> starts_round_trip(action) && post.in_flight() == 1,
        pre.in_flight() == 1 ==> action is Refused && post == pre,
{
}

/// Mutual exclusion within a cycle: a step is accepted only as the end of
/// the one round trip in flight, and starts at most one new round trip, so
/// that never more than one is in flight. The count after the step is the
/// count before it, less the round trip that ended, plus the one that
/// started. A step that is refused starts nothing and changes nothing.
pub proof fn one_round_trip_in_flight(pre: PoolState, event: Event, post: PoolState, action: Action)
    requires
        pre.wf(),
        pre.steps(event, post, action),
    ensures
        post.in_flight() <= 1,
        action is Refused ==> post == pre,
        !(action is Refused) ==> pre.in_flight() == 1 && post.in_flight() == (if starts_round_trip(
            action,
        ) {
            1nat
        } else {
            0nat
        }),
{
}

/// Self-healing, first half: a connection that fails its probe is not an
/// error. The cycle goes on to open a new session, and still holds the
/// command and the way to read its reply.
pub proof fn failed_probe_reopens(
    pre: PoolState,
    failure: StoreFailure,
    post: PoolState,
    action: Action,
)
    requires
        pre.wf(),
        pre.phase is Probing,
        pre.steps(Event::ProbeFailed(failure), post, action),
    ensures
        action == (Action::Open { url: pre.config.url }),
        post.phase is Opening,
        post.slot is None,
        post.purpose == pre.purpose,
        post.command == pre.command,
        post.expect == pre.expect,
        post.wf(),
{
}

/// Self-healing, second half: once the new session is usable, the command
/// goes out on it, and a reply that can be read ends the cycle with success
/// and the new connection in the slot.
pub proof fn fresh_connection_serves(
    pre: PoolState,
    conn: u64,
    sent: PoolState,
    first: Action,
    reply: Reply,
    post: PoolState,
    last: Action,
)
    requires
        pre.wf(),
        pre.purpose is Run,
        pre.phase is Opening && auth_words(pre.config) is None && pre.steps(
            Event::Opened(conn),
            sent,
            first,
        ) || pre.phase == (Phase::Authenticating { conn }) && pre.steps(
            Event::Authenticated,
            sent,
            first,
        ),
        sent.steps(Event::Replied(reply), post, last),
        exists|value: Decoded| decoded(pre.expect->0, reply, Ok(value)),
    ensures
        first matches Action::Send { conn: used, command } && used == conn && pre.command == Some(
            command,
        ),
        last matches Action::Finish(Ok(Outcome::Value(value))) && decoded(
            pre.expect->0,
            reply,
            Ok(value),
        ),
        post.slot == Some(conn),
        post.phase is Idle,
{
    let expect = pre.expect->0;
    let value = choose|value: Decoded| decoded(expect, reply, Ok(value));
    match last {
        Action::Finish(Err(error)) => {
            assert(decoded(expect, reply, Err(error)));
            assert(false);
        },
        _ => {},
    }
}

/// Self-healing, from end to end, for a store that asks for no credentials:
/// a request that finds a dead connection in the slot probes it, opens a new
/// session instead, sends its command there, and, the reply being readable,
/// succeeds with the new connection in the slot. The staleness never shows
/// as an error.
pub proof fn stale_connection_heals(
    idle: PoolState,
    stale: u64,
    command: Command,
    expect: Expect,
    probing: PoolState,
    probe: Action,
    failure: StoreFailure,
    opening: PoolState,
    reopen: Action,
    fresh: u64,
    executing: PoolState,
    send: Action,
    reply: Reply,
    done: PoolState,
    finish: Action,
)
    requires
        idle.wf(),
        idle.phase is Idle,
        idle.slot == Some(stale),
        auth_words(idle.config) is None,
        idle.begins(Purpose::Run, Some(command), Some(expect), probing, probe),
        probing.steps(Event::ProbeFailed(failure), opening, reopen),
        opening.steps(Event::Opened(fresh), executing, send),
        executing.steps(Event::Replied(reply), done, finish),
        exists|value: Decoded| decoded(expect, reply, Ok(value)),
    ensures
        probe matches Action::Probe { conn, .. } && conn == stale,
        reopen == (Action::Open { url: idle.config.url }),
        send == (Action::Send { conn: fresh, command }),
        finish matches Action::Finish(Ok(Outcome::Value(value))) && decoded(
            expect,
            reply,
            Ok(value),
        ),
        done.slot == Some(fresh),
        done.phase is Idle,
{
    failed_probe_reopens(probing, failure, opening, reopen);
    fresh_connection_serves(opening, fresh, executing, send, reply, done, finish);
}

/// Credential precedence: a session that has just been opened authenticates
/// with user name and password where both are configured, with the password
/// alone where only the password is, and not at all without a password.
pub proof fn credentials_decide_authentication(
    pre: PoolState,
    conn: u64,
    post: PoolState,
    action: Action,
)
    requires
        pre.wf(),
        pre.phase is Opening,
        pre.steps(Event::Opened(conn), post, action),
    ensures
        match (pre.config.username, pre.config.password) {
            (Some(username), Some(password)) => action matches Action::Authenticate {
                conn: used,
                command,
            } && used == conn && command@ == seq!["AUTH"@, username@, password@],
            (None, Some(password)) => action matches Action::Authenticate { conn: used, command }
                && used == conn && command@ == seq!["AUTH"@, password@],
            (_, None) => !(action is Authenticate),
        },
{
}

/// Authentication that fails ends the cycle with the authentication error,
/// and the session is never kept.
pub proof fn rejected_credentials_drop_the_session(
    pre: PoolState,
    failure: StoreFailure,
    post: PoolState,
    action: Action,
)
    requires
        pre.wf(),
        pre.phase is Authenticating,
        pre.steps(Event::AuthFailed(failure), post, action),
    ensures
        action == Action::Finish(Err(Error::RedisAuthentication(failure.detail))),
        post.slot is None,
        post.phase is Idle,
{
}

/// A command that fails, on the wire or in reading its reply, leaves the
/// slot empty, so that the next cycle opens a new session.
pub proof fn failed_command_empties_the_slot(
    pre: PoolState,
    event: Event,
    post: PoolState,
    action: Action,
)
    requires
        pre.wf(),
        pre.phase is Executing,
        pre.steps(event, post, action),
        action matches Action::Finish(Err(_)),
    ensures
        post.slot is None,
        post.phase is Idle,
{
}

/// The closed taxonomy: whatever ends a round trip, an error that ends the
/// cycle is one of the five kinds of the store layer: the store could not be
/// reached, the credentials were rejected, the command failed, the key is
/// missing, or the reply could not be read.
pub proof fn errors_stay_in_the_taxonomy(
    pre: PoolState,
    event: Event,
    post: PoolState,
    action: Action,
)
    requires
        pre.wf(),
        pre.steps(event, post, action),
    ensures
        action matches Action::Finish(Err(error)) ==> error.is_store_error(),
{
}

/// Rejected credentials are an authentication error wherever the client
/// library reports them, and no class of failure leaves the five kinds.
pub proof fn classification_is_closed(failure: StoreFailure)
    ensures
        Error::classified(failure).is_store_error(),
        failure.kind is Authentication ==> Error::classified(failure)
            == Error::RedisAuthentication(failure.detail),
{
}

/// Idempotent delete: an operation that reads its reply as nothing, as
/// delete does, succeeds on every reply, whether or not the key was there,
/// and the connection goes back to the slot.
pub proof fn delete_accepts_every_reply(
    pre: PoolState,
    conn: u64,
    reply: Reply,
    post: PoolState,
    action: Action,
)
    requires
        pre.wf(),
        pre.phase == (Phase::Executing { conn }),
        pre.expect == Some(Expect::Unit),
        pre.steps(Event::Replied(reply), post, action),
    ensures
        action == Action::Finish(Ok(Outcome::Value(Decoded::Unit))),
        post.slot == Some(conn),
{
}

/// Round trip, on this side of the wire: a stored text that comes back as
/// the UTF-8 bytes it was sent as is read as the same text.
pub proof fn stored_text_reads_back(
    text: Seq<char>,
    key: String,
    reply: Reply,
    result: Result<Decoded, Error>,
)
    requires
        reply matches Reply::Data(bytes) && bytes@ == encode_utf8(text),
        decoded(Expect::Stored { key }, reply, result),
    ensures
        result matches Ok(Decoded::Text(read)) && read@ == text,
{
    encode_utf8_valid_utf8(text);
    encode_utf8_decode_utf8(text);
}

/// A read that finds no value reports the missing key, and neither a parse
/// error nor an empty text.
pub proof fn missing_value_is_a_missing_key(key: String, result: Result<Decoded, Error>)
    requires
        decoded(Expect::Stored { key }, Reply::Nil, result),
    ensures
        result == Err::<Decoded, Error>(Error::RedisKeyNotFound(key)),
{
}

/// An existence check never reports a missing key: it reads no value as
/// false and an integer as true unless it is zero.
pub proof fn existence_is_a_truth_value(reply: Reply, result: Result<Decoded, Error>)
    requires
        decoded(Expect::Flag, reply, result),
    ensures
        !(result matches Err(Error::RedisKeyNotFound(_))),
        reply is Nil ==> result == Ok::<Decoded, Error>(Decoded::Flag(false)),
        reply matches Reply::Int(n) ==> result == Ok::<Decoded, Error>(Decoded::Flag(n != 0)),
{
}

/// One call on a pool: the beginning of a cycle, or the end of a round trip.
pub enum Call {
    Begin { purpose: Purpose, command: Option<Command>, expect: Option<Expect> },
    End(Event),
}

/// Whether `call` takes the pool from `pre` to `post` and answers `action`.
pub open spec fn takes(pre: PoolState, call: Call, post: PoolState, action: Action) -> bool {
    match call {
        Call::Begin { purpose, command, expect } => pre.begins(
            purpose,
            command,
            expect,
            post,
            action,
        ),
        Call::End(event) => pre.steps(event, post, action),
    }
}

/// Whether `states`, `calls` and `actions` record the life of a pool from a
/// state with nothing in flight: call `i` takes state `i` to state `i + 1`
/// and answers action `i`.
pub open spec fn is_history(states: Seq<PoolState>, calls: Seq<Call>, actions: Seq<Action>) -> bool {
    &&& states.len() == calls.len() + 1
    &&& actions.len() == calls.len()
    &&& states[0].in_flight() == 0
    &&& forall|i: int|
        0 <= i < calls.len() ==> takes(states[i], #[trigger] calls[i], states[i + 1], actions[i])
}

/// The number of round trips that the first `n` actions started.
pub open spec fn started(actions: Seq<Action>, n: int) -> int
    decreases n,
{
    if n <= 0 {
        0
    } else {
        started(actions, n - 1) + if starts_round_trip(actions[n - 1]) {
            1int
        } else {
            0int
        }
    }
}

/// The number of round trips whose end the pool accepted among the first
/// `n` calls.
pub open spec fn ended(calls: Seq<Call>, actions: Seq<Action>, n: int) -> int
    decreases n,
{
    if n <= 0 {
        0
    } else {
        ended(calls, actions, n - 1) + if calls[n - 1] is End && !(actions[n - 1] is Refused) {
            1int
        } else {
            0int
        }
    }
}

/// Mutual exclusion over the whole life of a pool: after any number of
/// calls, in any order and with any arguments, the round trips started and
/// not yet ended are those that the state counts as in flight, and that is
/// never more than one.
pub proof fn never_two_in_flight(
    states: Seq<PoolState>,
    calls: Seq<Call>,
    actions: Seq<Action>,
    n: int,
)
    requires
        is_history(states, calls, actions),
        0 <= n <= calls.len(),
    ensures
        started(actions, n) - ended(calls, actions, n) == states[n].in_flight(),
        started(actions, n) - ended(calls, actions, n) <= 1,
    decreases n,
{
    if n > 0 {
        never_two_in_flight(states, calls, actions, n - 1);
        assert(takes(states[n - 1], calls[n - 1], states[n], actions[n - 1]));
    }
}

} // verus!
