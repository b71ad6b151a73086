//! The pool of one connection. It owns no socket: it decides what has to
//! happen next on the wire, and is told what happened.
//!
//! One cycle serves one request: take whatever is in the slot, probe it,
//! open and authenticate a new session where there was none or the probe
//! failed, send the command, read the reply, and put the connection back if
//! and only if everything succeeded.

use vstd::prelude::*;
use crate::http::{Error, StoreFailure};
use crate::redis::command::Command;
use crate::redis::config::{text_of_setting, RedisConfig};
use crate::redis::reply::{
    flag_fault, flag_of, read_flag, read_text, text_fault, text_of, Reply,
};

verus! {

/// Where a cycle stands. Every phase but `Idle` waits for exactly one round
/// trip to end.
#[derive(Debug, Clone, Copy, PartialEq, Eq, Structural)]
pub enum Phase {
    /// No cycle is running.
    Idle,
    /// The connection taken from the slot is being probed.
    Probing { conn: u64 },
    /// A new session is being opened.
    Opening,
    /// The new session is presenting the credentials.
    Authenticating { conn: u64 },
    /// The first connection of a new pool is being probed.
    Testing { conn: u64 },
    /// The command is on its way.
    Executing { conn: u64 },
}

/// What a cycle is for.
#[derive(Debug, Clone, Copy, PartialEq, Eq, Structural)]
pub enum Purpose {
    /// Run one command and read its reply.
    Run,
    /// Hand a checked connection to the caller, who keeps it.
    Lend,
    /// Seed the slot of a new pool.
    Warm,
}

/// How the reply to a command is to be read.
#[derive(Debug)]
pub enum Expect {
    /// As it is.
    Raw,
    /// Not at all: any reply will do.
    Unit,
    /// As a truth value.
    Flag,
    /// As text.
    Text,
    /// As the text stored under `key`, where no value means no such key.
    Stored { key: String },
}

/// A command together with the way to read its reply.
#[derive(Debug)]
pub struct Request {
    pub command: Command,
    pub expect: Expect,
}

/// A reply, read.
#[derive(Debug)]
pub enum Decoded {
    Raw(Reply),
    Unit,
    Flag(bool),
    Text(String),
}

/// What a cycle ends with when it succeeds.
#[derive(Debug)]
pub enum Outcome {
    /// The reply to the command.
    Value(Decoded),
    /// The connection that is lent out.
    Connection(u64),
    /// The slot of the new pool is seeded.
    Ready,
}

/// What the driver has to do next. All but the last two start one round
/// trip, whose end the driver reports as an [`Event`].
#[derive(Debug)]
pub enum Action {
    /// Send the liveness probe on `conn`.
    Probe { conn: u64, command: Command },
    /// Drop any connection still held for this pool and open a session to
    /// `url`.
    Open { url: String },
    /// Send the credentials on `conn`.
    Authenticate { conn: u64, command: Command },
    /// Send the command on `conn`.
    Send { conn: u64, command: Command },
    /// The cycle is over. On an error, drop the connection it used.
    Finish(Result<Outcome, Error>),
    /// The call did not fit the phase of the pool; nothing changed.
    Refused,
}

/// How a round trip ended.
#[derive(Debug)]
pub enum Event {
    ProbeSucceeded,
    ProbeFailed(StoreFailure),
    /// The new session is open; the driver knows it by this number.
    Opened(u64),
    OpenFailed(StoreFailure),
    Authenticated,
    AuthFailed(StoreFailure),
    Replied(Reply),
    CommandFailed(StoreFailure),
}

/// The text of the parse error for a reply that is not text: for a list
/// the pool's own, for any other reply the client library's.
pub open spec fn not_text(reply: Reply) -> Seq<char> {
    if reply is Bulk {
        "a list is not text"@
    } else {
        text_fault(reply)
    }
}

/// The text of the parse error for a reply that is no truth value: for a
/// list the pool's own, for any other reply the client library's.
pub open spec fn not_a_flag(reply: Reply) -> Seq<char> {
    if reply is Bulk {
        "a list is not a truth value"@
    } else {
        flag_fault(reply)
    }
}

/// Whether `result` is `reply` read as text.
pub open spec fn read_as_text(reply: Reply, result: Result<Decoded, Error>) -> bool {
    match text_of(reply) {
        Some(text) => result matches Ok(Decoded::Text(read)) && read@ == text,
        None => result matches Err(Error::RedisParseError(detail)) && detail@ == not_text(reply),
    }
}

/// Whether `result` is `reply` read as `expect` asks.
pub open spec fn decoded(expect: Expect, reply: Reply, result: Result<Decoded, Error>) -> bool {
    match expect {
        Expect::Raw => result == Ok::<Decoded, Error>(Decoded::Raw(reply)),
        Expect::Unit => result == Ok::<Decoded, Error>(Decoded::Unit),
        Expect::Flag => match flag_of(reply) {
            Some(flag) => result == Ok::<Decoded, Error>(Decoded::Flag(flag)),
            None => result matches Err(Error::RedisParseError(detail)) && detail@ == not_a_flag(
                reply,
            ),
        },
        Expect::Text => read_as_text(reply, result),
        Expect::Stored { key } => if reply is Nil {
            result == Err::<Decoded, Error>(Error::RedisKeyNotFound(key))
        } else {
            read_as_text(reply, result)
        },
    }
}

fn text_from(reply: Reply) -> (result: Result<Decoded, Error>)
    ensures
        read_as_text(reply, result),
{
    match reply {
        Reply::Bulk(_) => Err(Error::RedisParseError("a list is not text".to_owned())),
        _ => match read_text(&reply) {
            Ok(text) => Ok(Decoded::Text(text)),
            Err(detail) => Err(Error::RedisParseError(detail)),
        },
    }
}

/// Reads `reply` as `expect` asks: a reply that does not have the shape
/// asked for is a parse error, and no value where a stored text was asked
/// for is a missing key.
pub fn decode(expect: Expect, reply: Reply) -> (result: Result<Decoded, Error>)
    ensures
        decoded(expect, reply, result),
{
    match expect {
        Expect::Raw => Ok(Decoded::Raw(reply)),
        Expect::Unit => Ok(Decoded::Unit),
        Expect::Flag => match reply {
            Reply::Bulk(_) => Err(Error::RedisParseError("a list is not a truth value".to_owned())),
            _ => match read_flag(&reply) {
                Ok(flag) => Ok(Decoded::Flag(flag)),
                Err(detail) => Err(Error::RedisParseError(detail)),
            },
        },
        Expect::Text => text_from(reply),
        Expect::Stored { key } => match reply {
            Reply::Nil => Err(Error::RedisKeyNotFound(key)),
            _ => text_from(reply),
        },
    }
}

/// The words of the liveness probe.
pub open spec fn ping_words() -> Seq<Seq<char>> {
    seq!["PING"@]
}

/// The words of the authentication that `config` calls for, if it calls for
/// one: with user name and password where both are set, with the password
/// alone where only it is set, none otherwise.
pub open spec fn auth_words(config: RedisConfig) -> Option<Seq<Seq<char>>> {
    match (config.username, config.password) {
        (Some(username), Some(password)) => Some(seq!["AUTH"@, username@, password@]),
        (None, Some(password)) => Some(seq!["AUTH"@, password@]),
        _ => None,
    }
}

/// The authentication command that `config` calls for, if any.
pub fn auth_command(config: &RedisConfig) -> (command: Option<Command>)
    ensures
        match command {
            Some(c) => auth_words(*config) == Some(c@),
            None => auth_words(*config) is None,
        },
{
    match &config.password {
        Some(password) => match &config.username {
            Some(username) => Some(Command::auth_as(username.as_str(), password.as_str())),
            None => Some(Command::auth(password.as_str())),
        },
        None => None,
    }
}

/// The state of a pool as contracts see it.
pub struct PoolState {
    pub config: RedisConfig,
    /// The connection that waits for the next cycle, if any.
    pub slot: Option<u64>,
    pub phase: Phase,
    pub purpose: Purpose,
    /// The command that the running cycle has still to send.
    pub command: Option<Command>,
    /// How the running cycle will read its reply.
    pub expect: Option<Expect>,
}

impl PoolState {
    /// The invariant of a pool: while a cycle runs the slot is empty; a
    /// cycle that is to run a command holds the command until it is sent,
    /// and the way to read the reply until the end; no other state holds
    /// either.
    pub open spec fn wf(self) -> bool {
        &&& !(self.phase is Idle) ==> self.slot is None
        &&& match self.phase {
            Phase::Idle => self.command is None && self.expect is None,
            Phase::Probing { .. } | Phase::Opening | Phase::Authenticating { .. } => if self.purpose
                is Run {
                self.command is Some && self.expect is Some
            } else {
                self.command is None && self.expect is None
            },
            Phase::Testing { .. } => self.purpose is Warm && self.command is None && self.expect
                is None,
            Phase::Executing { .. } => self.purpose is Run && self.command is None && self.expect
                is Some,
        }
    }

    /// The number of round trips that have been started and have not ended.
    pub open spec fn in_flight(self) -> nat {
        if self.phase is Idle {
            0
        } else {
            1
        }
    }

    /// The state in which a cycle ends without a connection to keep.
    pub open spec fn emptied(self) -> PoolState {
        PoolState { phase: Phase::Idle, slot: None, command: None, expect: None, ..self }
    }

    /// The state in which a cycle ends with `conn` back in the slot.
    pub open spec fn restored(self, conn: u64) -> PoolState {
        PoolState { phase: Phase::Idle, slot: Some(conn), command: None, expect: None, ..self }
    }

    /// A cycle for `purpose` begins: the slot is emptied, and what was in it
    /// is probed; with nothing in it a new session is opened. A pool that is
    /// not idle refuses.
    pub open spec fn begins(
        self,
        purpose: Purpose,
        command: Option<Command>,
        expect: Option<Expect>,
        post: PoolState,
        action: Action,
    ) -> bool {
        if self.phase is Idle {
            match self.slot {
                Some(conn) => {
                    &&& action matches Action::Probe { conn: probed, command: probe }
                    &&& probed == conn
                    &&& probe@ == ping_words()
                    &&& post == PoolState {
                        phase: Phase::Probing { conn },
                        slot: None,
                        purpose,
                        command,
                        expect,
                        ..self
                    }
                },
                None => {
                    &&& action == Action::Open { url: self.config.url }
                    &&& post == PoolState { phase: Phase::Opening, purpose, command, expect, ..self }
                },
            }
        } else {
            post == self && action == Action::Refused
        }
    }

    /// A checked connection is in hand: the command goes out on it, or it is
    /// lent out, or, in a new pool, it is probed once.
    pub open spec fn acquires(self, conn: u64, post: PoolState, action: Action) -> bool {
        match self.purpose {
            Purpose::Run => {
                &&& action matches Action::Send { conn: used, command }
                &&& used == conn
                &&& self.command == Some(command)
                &&& post == PoolState { phase: Phase::Executing { conn }, command: None, ..self }
            },
            Purpose::Lend => {
                &&& action == Action::Finish(Ok(Outcome::Connection(conn)))
                &&& post == self.emptied()
            },
            Purpose::Warm => {
                &&& action matches Action::Probe { conn: probed, command: probe }
                &&& probed == conn
                &&& probe@ == ping_words()
                &&& post == PoolState { phase: Phase::Testing { conn }, ..self }
            },
        }
    }

    /// A new session is open: it presents the credentials where the
    /// configuration holds any, and counts as checked where it holds none.
    pub open spec fn opens(self, conn: u64, post: PoolState, action: Action) -> bool {
        match auth_words(self.config) {
            Some(words) => {
                &&& action matches Action::Authenticate { conn: used, command }
                &&& used == conn
                &&& command@ == words
                &&& post == PoolState { phase: Phase::Authenticating { conn }, ..self }
            },
            None => self.acquires(conn, post, action),
        }
    }

    /// The cycle ends with an error, whose text is `prefix` followed by
    /// `detail`, and the slot stays empty.
    pub open spec fn fails_to_connect(
        self,
        prefix: Seq<char>,
        detail: Seq<char>,
        post: PoolState,
        action: Action,
    ) -> bool {
        &&& action matches Action::Finish(Err(Error::RedisConnection(text)))
        &&& text@ == prefix + detail
        &&& post == self.emptied()
    }

    /// The reply is in: read as the request asked, it ends the cycle. The
    /// connection goes back to the slot if the reply could be read, and is
    /// dropped if not.
    pub open spec fn replies(self, conn: u64, reply: Reply, post: PoolState, action: Action) -> bool {
        &&& self.expect matches Some(expect)
        &&& match action {
            Action::Finish(Ok(Outcome::Value(value))) => {
                &&& decoded(expect, reply, Ok(value))
                &&& post == self.restored(conn)
            },
            Action::Finish(Err(error)) => {
                &&& decoded(expect, reply, Err(error))
                &&& post == self.emptied()
            },
            _ => false,
        }
    }

    /// What the pool makes of the end of a round trip: the transition from
    /// `self` on `event` to `post`, with `action` for the driver. An event
    /// that does not end the round trip of the current phase is refused.
    pub open spec fn steps(self, event: Event, post: PoolState, action: Action) -> bool {
        match (self.phase, event) {
            (Phase::Probing { conn }, Event::ProbeSucceeded) => self.acquires(conn, post, action),
            (Phase::Probing { .. }, Event::ProbeFailed(_)) => {
                &&& action == Action::Open { url: self.config.url }
                &&& post == PoolState { phase: Phase::Opening, ..self }
            },
            (Phase::Opening, Event::Opened(conn)) => self.opens(conn, post, action),
            (Phase::Opening, Event::OpenFailed(failure)) => self.fails_to_connect(
                "Failed to connect to Redis: "@,
                failure.detail@,
                post,
                action,
            ),
            (Phase::Authenticating { conn }, Event::Authenticated) => self.acquires(
                conn,
                post,
                action,
            ),
            (Phase::Authenticating { .. }, Event::AuthFailed(failure)) => {
                &&& action == Action::Finish(Err(Error::RedisAuthentication(failure.detail)))
                &&& post == self.emptied()
            },
            (Phase::Testing { conn }, Event::ProbeSucceeded) => {
                &&& action == Action::Finish(Ok(Outcome::Ready))
                &&& post == self.restored(conn)
            },
            (Phase::Testing { .. }, Event::ProbeFailed(failure)) => self.fails_to_connect(
                "Redis connection test failed: "@,
                failure.detail@,
                post,
                action,
            ),
            (Phase::Executing { conn }, Event::Replied(reply)) => self.replies(
                conn,
                reply,
                post,
                action,
            ),
            (Phase::Executing { .. }, Event::CommandFailed(failure)) => {
                &&& action == Action::Finish(Err(Error::classified(failure)))
                &&& post == self.emptied()
            },
            _ => post == self && action == Action::Refused,
        }
    }
}

/// The text of the error with which `redis::Client::open` refuses an
/// endpoint, if it refuses it.
pub uninterp spec fn endpoint_refusal(url: Seq<char>) -> Option<Seq<char>>;

/// `redis::Client::open` on an endpoint: the text of the error where the
/// client library refuses the URL, nothing where it accepts it. No session is
/// opened by this. The verdict rests on the URL alone, and the contract only
/// names it.
#[verifier::external_body]
fn endpoint_fault(url: &str) -> (fault: Option<String>)
    ensures
        text_of_setting(fault) == endpoint_refusal(url@),
{
    match ::redis::Client::open(url) {
        Ok(_) => None,
        Err(error) => Some(error.to_string()),
    }
}

/// A pool of at most one connection to the store.
#[derive(Debug)]
pub struct RedisPool {
    config: RedisConfig,
    slot: Option<u64>,
    phase: Phase,
    purpose: Purpose,
    command: Option<Command>,
    expect: Option<Expect>,
}

impl View for RedisPool {
    type V = PoolState;

    closed spec fn view(&self) -> PoolState {
        PoolState {
            config: self.config,
            slot: self.slot,
            phase: self.phase,
            purpose: self.purpose,
            command: self.command,
            expect: self.expect,
        }
    }
}

impl RedisPool {
    /// What [`RedisPool::checked`] returns for a configuration and the
    /// client library's verdict on its endpoint: the text of its refusal, or
    /// none.
    pub open spec fn made(
        config: RedisConfig,
        fault: Option<Seq<char>>,
        result: Result<RedisPool, Error>,
    ) -> bool {
        match fault {
            None => {
                &&& result matches Ok(pool)
                &&& pool@ == PoolState {
                    config,
                    slot: None,
                    phase: Phase::Idle,
                    purpose: Purpose::Run,
                    command: None,
                    expect: None,
                }
            },
            Some(detail) => {
                &&& result matches Err(Error::RedisConnection(text))
                &&& text@ == "Failed to create Redis client: "@ + detail
            },
        }
    }

    /// A pool for `config`, idle and with an empty slot, where the client
    /// library accepts the endpoint; the connection error with the text of
    /// its refusal where it does not.
    pub fn new(config: RedisConfig) -> (result: Result<RedisPool, Error>)
        ensures
            RedisPool::made(config, endpoint_refusal(config.url@), result),
            result matches Ok(pool) ==> pool@.wf(),
    {
        let fault = endpoint_fault(config.url.as_str());
        Self::checked(config, fault)
    }

    /// A pool for `config`, idle and with an empty slot, where the endpoint
    /// was accepted; the connection error with the text of `fault` where it
    /// was not.
    pub fn checked(config: RedisConfig, fault: Option<String>) -> (result: Result<RedisPool, Error>)
        ensures
            RedisPool::made(config, text_of_setting(fault), result),
            result matches Ok(pool) ==> pool@.wf(),
    {
        match fault {
            None => Ok(
                RedisPool {
                    config,
                    slot: None,
                    phase: Phase::Idle,
                    purpose: Purpose::Run,
                    command: None,
                    expect: None,
                },
            ),
            Some(detail) => Err(
                Error::RedisConnection(
                    "Failed to create Redis client: ".to_owned().concat(detail.as_str()),
                ),
            ),
        }
    }

    /// Whether the pool is in a valid state. A pool made by this module is,
    /// and stays so.
    pub fn is_well_formed(&self) -> (valid: bool)
        ensures
            valid == self@.wf(),
    {
        let idle = match self.phase {
            Phase::Idle => true,
            _ => false,
        };
        let holds_both = self.command.is_some() && self.expect.is_some();
        let holds_none = self.command.is_none() && self.expect.is_none();
        let running = match self.purpose {
            Purpose::Run => true,
            _ => false,
        };
        let warming = match self.purpose {
            Purpose::Warm => true,
            _ => false,
        };
        (idle || self.slot.is_none()) && match self.phase {
            Phase::Idle => holds_none,
            Phase::Probing { .. } | Phase::Opening | Phase::Authenticating { .. } => if running {
                holds_both
            } else {
                holds_none
            },
            Phase::Testing { .. } => warming && holds_none,
            Phase::Executing { .. } => running && self.command.is_none() && self.expect.is_some(),
        }
    }

    /// The connection that waits in the slot, if any.
    pub fn slot(&self) -> (slot: Option<u64>)
        ensures
            slot == self@.slot,
    {
        self.slot
    }

    /// Where the running cycle stands.
    pub fn phase(&self) -> (phase: Phase)
        ensures
            phase == self@.phase,
    {
        self.phase
    }

    /// The configuration that the pool was made with.
    pub fn config(&self) -> (config: &RedisConfig)
        ensures
            *config == self@.config,
    {
        &self.config
    }

    fn begin(
        &mut self,
        purpose: Purpose,
        command: Option<Command>,
        expect: Option<Expect>,
    ) -> (action: Action)
        requires
            old(self)@.wf(),
            purpose is Run ==> command is Some && expect is Some,
            !(purpose is Run) ==> command is None && expect is None,
            !(purpose is Warm),
        ensures
            old(self)@.begins(purpose, command, expect, final(self)@, action),
            final(self)@.wf(),
    {
        match self.phase {
            Phase::Idle => {
                self.purpose = purpose;
                self.command = command;
                self.expect = expect;
                match self.slot.take() {
                    Some(conn) => {
                        self.phase = Phase::Probing { conn };
                        Action::Probe { conn, command: Command::ping() }
                    },
                    None => {
                        self.phase = Phase::Opening;
                        Action::Open { url: self.config.url.clone() }
                    },
                }
            },
            _ => Action::Refused,
        }
    }

    /// Begins a cycle that runs `request`: the first step towards a checked
    /// connection. The reply arrives with the `Finish` of a later step.
    pub fn execute_command(&mut self, request: Request) -> (action: Action)
        requires
            old(self)@.wf(),
        ensures
            old(self)@.begins(
                Purpose::Run,
                Some(request.command),
                Some(request.expect),
                final(self)@,
                action,
            ),
            final(self)@.wf(),
    {
        self.begin(Purpose::Run, Some(request.command), Some(request.expect))
    }

    /// Begins a cycle that lends a checked connection to the caller. The
    /// connection arrives with the `Finish` of a later step, and does not
    /// come back to the slot.
    pub fn get_connection(&mut self) -> (action: Action)
        requires
            old(self)@.wf(),
        ensures
            old(self)@.begins(Purpose::Lend, None, None, final(self)@, action),
            final(self)@.wf(),
    {
        self.begin(Purpose::Lend, None, None)
    }

    /// What [`RedisPool::init_checked`] returns for a configuration and the
    /// client library's verdict on its endpoint: the text of its refusal, or
    /// none.
    pub open spec fn started(
        config: RedisConfig,
        fault: Option<Seq<char>>,
        result: Result<(RedisPool, Action), Error>,
    ) -> bool {
        match fault {
            None => {
                &&& result matches Ok((pool, action))
                &&& action == Action::Open { url: config.url }
                &&& pool@ == PoolState {
                    config,
                    slot: None,
                    phase: Phase::Opening,
                    purpose: Purpose::Warm,
                    command: None,
                    expect: None,
                }
            },
            Some(detail) => {
                &&& result matches Err(Error::RedisConnection(text))
                &&& text@ == "Failed to create Redis client: "@ + detail
            },
        }
    }

    /// A new pool for `config` in its warm-up cycle: a session is opened and
    /// authenticated, then probed once, and seeds the slot if all of it
    /// succeeds. Any failure ends the cycle with a connection or
    /// authentication error and leaves the slot empty. Where the client
    /// library refuses the endpoint there is no pool, but the connection
    /// error with the text of the refusal.
    pub fn init(config: RedisConfig) -> (result: Result<(RedisPool, Action), Error>)
        ensures
            RedisPool::started(config, endpoint_refusal(config.url@), result),
            result matches Ok((pool, _)) ==> pool@.wf(),
    {
        let fault = endpoint_fault(config.url.as_str());
        Self::init_checked(config, fault)
    }

    /// A new pool for `config` in its warm-up cycle, with the opening of a
    /// session as its first step, where the endpoint was accepted; the
    /// connection error with the text of `fault` where it was not.
    pub fn init_checked(
        config: RedisConfig,
        fault: Option<String>,
    ) -> (result: Result<(RedisPool, Action), Error>)
        ensures
            RedisPool::started(config, text_of_setting(fault), result),
            result matches Ok((pool, _)) ==> pool@.wf(),
    {
        match Self::checked(config, fault) {
            Ok(pool) => {
                let mut pool = pool;
                pool.purpose = Purpose::Warm;
                pool.phase = Phase::Opening;
                let action = Action::Open { url: pool.config.url.clone() };
                Ok((pool, action))
            },
            Err(error) => Err(error),
        }
    }

    fn give_up(&mut self, error: Error) -> (action: Action)
        ensures
            action == Action::Finish(Err(error)),
            final(self)@ == old(self)@.emptied(),
            final(self)@.wf(),
    {
        self.phase = Phase::Idle;
        self.slot = None;
        self.command = None;
        self.expect = None;
        Action::Finish(Err(error))
    }

    fn give_back(&mut self, conn: u64, outcome: Outcome) -> (action: Action)
        ensures
            action == Action::Finish(Ok(outcome)),
            final(self)@ == old(self)@.restored(conn),
            final(self)@.wf(),
    {
        self.phase = Phase::Idle;
        self.slot = Some(conn);
        self.command = None;
        self.expect = None;
        Action::Finish(Ok(outcome))
    }

    fn acquired(&mut self, conn: u64) -> (action: Action)
        requires
            old(self)@.wf(),
            old(self)@.phase is Probing || old(self)@.phase is Opening || old(self)@.phase
                is Authenticating,
        ensures
            old(self)@.acquires(conn, final(self)@, action),
            final(self)@.wf(),
    {
        match self.purpose {
            Purpose::Run => match self.command.take() {
                Some(command) => {
                    self.phase = Phase::Executing { conn };
                    Action::Send { conn, command }
                },
                None => {
                    proof {
                        // A cycle that runs a command holds it until here.
                        assert(false);
                    }
                    Action::Refused
                },
            },
            Purpose::Lend => {
                self.phase = Phase::Idle;
                self.slot = None;
                self.command = None;
                self.expect = None;
                Action::Finish(Ok(Outcome::Connection(conn)))
            },
            Purpose::Warm => {
                self.phase = Phase::Testing { conn };
                Action::Probe { conn, command: Command::ping() }
            },
        }
    }

    fn opened(&mut self, conn: u64) -> (action: Action)
        requires
            old(self)@.wf(),
            old(self)@.phase is Opening,
        ensures
            old(self)@.opens(conn, final(self)@, action),
            final(self)@.wf(),
    {
        match auth_command(&self.config) {
            Some(command) => {
                self.phase = Phase::Authenticating { conn };
                Action::Authenticate { conn, command }
            },
            None => self.acquired(conn),
        }
    }

    fn replied(&mut self, conn: u64, reply: Reply) -> (action: Action)
        requires
            old(self)@.wf(),
            old(self)@.phase is Executing,
        ensures
            old(self)@.replies(conn, reply, final(self)@, action),
            final(self)@.wf(),
    {
        match self.expect.take() {
            Some(expect) => match decode(expect, reply) {
                Ok(value) => self.give_back(conn, Outcome::Value(value)),
                Err(error) => self.give_up(error),
            },
            None => {
                proof {
                    // A command that is on its way has a way to read its reply.
                    assert(false);
                }
                Action::Refused
            },
        }
    }

    /// Takes the end of a round trip and says what comes next: the
    /// transition of [`PoolState::steps`].
    pub fn step(&mut self, event: Event) -> (action: Action)
        requires
            old(self)@.wf(),
        ensures
            old(self)@.steps(event, final(self)@, action),
            final(self)@.wf(),
    {
        let phase = self.phase;
        match (phase, event) {
            (Phase::Probing { conn }, Event::ProbeSucceeded) => self.acquired(conn),
            (Phase::Probing { .. }, Event::ProbeFailed(_)) => {
                self.phase = Phase::Opening;
                Action::Open { url: self.config.url.clone() }
            },
            (Phase::Opening, Event::Opened(conn)) => self.opened(conn),
            (Phase::Opening, Event::OpenFailed(failure)) => self.give_up(
                Error::RedisConnection(
                    "Failed to connect to Redis: ".to_owned().concat(failure.detail.as_str()),
                ),
            ),
            (Phase::Authenticating { conn }, Event::Authenticated) => self.acquired(conn),
            (Phase::Authenticating { .. }, Event::AuthFailed(failure)) => self.give_up(
                Error::RedisAuthentication(failure.detail),
            ),
            (Phase::Testing { conn }, Event::ProbeSucceeded) => self.give_back(
                conn,
                Outcome::Ready,
            ),
            (Phase::Testing { .. }, Event::ProbeFailed(failure)) => self.give_up(
                Error::RedisConnection(
                    "Redis connection test failed: ".to_owned().concat(failure.detail.as_str()),
                ),
            ),
            (Phase::Executing { conn }, Event::Replied(reply)) => self.replied(conn, reply),
            (Phase::Executing { .. }, Event::CommandFailed(failure)) => self.give_up(
                Error::from_redis_error(failure),
            ),
            _ => Action::Refused,
        }
    }
}

} // verus!
