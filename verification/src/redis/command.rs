//! Store commands as plain lists of words.

use vstd::prelude::*;
use crate::text::{decimal, decimal_string, texts};

verus! {

/// One command for the store: its name followed by its arguments.
#[derive(Debug)]
pub struct Command {
    pub words: Vec<String>,
}

impl View for Command {
    type V = Seq<Seq<char>>;

    open spec fn view(&self) -> Seq<Seq<char>> {
        texts(self.words@)
    }
}

impl Command {
    fn one(name: &str) -> (command: Command)
        ensures
            command@ == seq![name@],
    {
        let mut words: Vec<String> = Vec::new();
        words.push(name.to_owned());
        let command = Command { words };
        assert(command@ =~= seq![name@]);
        command
    }

    fn with(self, word: String) -> (command: Command)
        ensures
            command@ == self@.push(word@),
    {
        let mut words = self.words;
        words.push(word);
        let command = Command { words };
        assert(command@ =~= self@.push(word@));
        command
    }

    /// The liveness probe.
    pub fn ping() -> (command: Command)
        ensures
            command@ == seq!["PING"@],
    {
        Command::one("PING")
    }

    /// Authentication with a password alone.
    pub fn auth(password: &str) -> (command: Command)
        ensures
            command@ == seq!["AUTH"@, password@],
    {
        Command::one("AUTH").with(password.to_owned())
    }

    /// Authentication with a user name and a password.
    pub fn auth_as(username: &str, password: &str) -> (command: Command)
        ensures
            command@ == seq!["AUTH"@, username@, password@],
    {
        Command::one("AUTH").with(username.to_owned()).with(password.to_owned())
    }

    /// Reads the value under `key`.
    pub fn get(key: &str) -> (command: Command)
        ensures
            command@ == seq!["GET"@, key@],
    {
        Command::one("GET").with(key.to_owned())
    }

    /// Stores `value` under `key`.
    pub fn set(key: &str, value: &str) -> (command: Command)
        ensures
            command@ == seq!["SET"@, key@, value@],
    {
        Command::one("SET").with(key.to_owned()).with(value.to_owned())
    }

    /// Stores `value` under `key` for `ttl_seconds` seconds, in one step.
    pub fn set_ex(key: &str, value: &str, ttl_seconds: u64) -> (command: Command)
        ensures
            command@ == seq!["SETEX"@, key@, decimal(ttl_seconds as nat), value@],
    {
        Command::one("SETEX").with(key.to_owned()).with(decimal_string(ttl_seconds)).with(
            value.to_owned(),
        )
    }

    /// Removes `key`.
    pub fn del(key: &str) -> (command: Command)
        ensures
            command@ == seq!["DEL"@, key@],
    {
        Command::one("DEL").with(key.to_owned())
    }

    /// Asks whether `key` is present.
    pub fn exists_key(key: &str) -> (command: Command)
        ensures
            command@ == seq!["EXISTS"@, key@],
    {
        Command::one("EXISTS").with(key.to_owned())
    }
}

} // verus!
