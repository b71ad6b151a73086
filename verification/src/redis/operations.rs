//! The five everyday operations on the store, each one request to the pool.

use vstd::prelude::*;
use crate::http::Error;
use crate::redis::command::Command;
use crate::redis::pool::{Action, Expect, Purpose, RedisPool, Request};
use crate::text::decimal;

verus! {

/// Get, set, set with expiry, delete and existence check. Each call begins
/// one cycle of the pool and returns its first step; the result of the
/// operation arrives with the `Finish` of a later step.
pub trait RedisOperations: Sized {
    /// Whether the pool is in a valid state.
    spec fn usable(&self) -> bool;

    /// Whether the call took the pool from `pre` to `post` by beginning a
    /// cycle that runs `command` and reads the reply as `expect` asks, with
    /// `action` as its first step.
    spec fn submits(pre: Self, command: Command, expect: Expect, post: Self, action: Action) -> bool;

    /// Reads the text stored under `key`. No value under the key ends the
    /// cycle with the missing-key error.
    fn get(&mut self, key: &str) -> (action: Action)
        requires
            old(self).usable(),
        ensures
            final(self).usable(),
            exists|command: Command, stored: String|
                command@ == seq!["GET"@, key@] && stored@ == key@ && #[trigger] Self::submits(
                    *old(self),
                    command,
                    Expect::Stored { key: stored },
                    *final(self),
                    action,
                ),
    ;

    /// Stores `value` under `key`. Any reply counts as success.
    fn set(&mut self, key: &str, value: &str) -> (action: Action)
        requires
            old(self).usable(),
        ensures
            final(self).usable(),
            exists|command: Command|
                command@ == seq!["SET"@, key@, value@] && #[trigger] Self::submits(
                    *old(self),
                    command,
                    Expect::Unit,
                    *final(self),
                    action,
                ),
    ;

    /// Stores `value` under `key` for `ttl_seconds` seconds, in one round
    /// trip. A time to live of zero is refused at once with a command error,
    /// and nothing is sent.
    fn set_ex(&mut self, key: &str, value: &str, ttl_seconds: u64) -> (action: Action)
        requires
            old(self).usable(),
        ensures
            final(self).usable(),
            ttl_seconds == 0 ==> *final(self) == *old(self) && (action matches Action::Finish(
                Err(Error::RedisCommand(text)),
            ) && text@ == "invalid expire time in 'setex' command"@),
            ttl_seconds > 0 ==> exists|command: Command|
                command@ == seq!["SETEX"@, key@, decimal(ttl_seconds as nat), value@]
                    && #[trigger] Self::submits(
                    *old(self),
                    command,
                    Expect::Unit,
                    *final(self),
                    action,
                ),
    ;

    /// Removes `key`. Any reply counts as success, so removing a key that is
    /// not there succeeds too.
    fn del(&mut self, key: &str) -> (action: Action)
        requires
            old(self).usable(),
        ensures
            final(self).usable(),
            exists|command: Command|
                command@ == seq!["DEL"@, key@] && #[trigger] Self::submits(
                    *old(self),
                    command,
                    Expect::Unit,
                    *final(self),
                    action,
                ),
    ;

    /// Asks whether `key` is present. The reply is read as a truth value, so
    /// this never ends with the missing-key error.
    fn exists_key(&mut self, key: &str) -> (action: Action)
        requires
            old(self).usable(),
        ensures
            final(self).usable(),
            exists|command: Command|
                command@ == seq!["EXISTS"@, key@] && #[trigger] Self::submits(
                    *old(self),
                    command,
                    Expect::Flag,
                    *final(self),
                    action,
                ),
    ;
}

impl RedisOperations for RedisPool {
    open spec fn usable(&self) -> bool {
        self@.wf()
    }

    open spec fn submits(
        pre: RedisPool,
        command: Command,
        expect: Expect,
        post: RedisPool,
        action: Action,
    ) -> bool {
        pre@.begins(Purpose::Run, Some(command), Some(expect), post@, action)
    }

    fn get(&mut self, key: &str) -> (action: Action) {
        let command = Command::get(key);
        let expect = Expect::Stored { key: key.to_owned() };
        let action = self.execute_command(Request { command, expect });
        assert(Self::submits(*old(self), command, expect, *self, action));
        action
    }

    fn set(&mut self, key: &str, value: &str) -> (action: Action) {
        let command = Command::set(key, value);
        let action = self.execute_command(Request { command, expect: Expect::Unit });
        assert(Self::submits(*old(self), command, Expect::Unit, *self, action));
        action
    }

    fn set_ex(&mut self, key: &str, value: &str, ttl_seconds: u64) -> (action: Action) {
        if ttl_seconds == 0 {
            return Action::Finish(
                Err(Error::RedisCommand("invalid expire time in 'setex' command".to_owned())),
            );
        }
        let command = Command::set_ex(key, value, ttl_seconds);
        let action = self.execute_command(Request { command, expect: Expect::Unit });
        assert(Self::submits(*old(self), command, Expect::Unit, *self, action));
        action
    }

    fn del(&mut self, key: &str) -> (action: Action) {
        let command = Command::del(key);
        let action = self.execute_command(Request { command, expect: Expect::Unit });
        assert(Self::submits(*old(self), command, Expect::Unit, *self, action));
        action
    }

    fn exists_key(&mut self, key: &str) -> (action: Action) {
        let command = Command::exists_key(key);
        let action = self.execute_command(Request { command, expect: Expect::Flag });
        assert(Self::submits(*old(self), command, Expect::Flag, *self, action));
        action
    }
}

} // verus!
