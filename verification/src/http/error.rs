//! The service's closed error vocabulary, and the one place where a failure
//! reported by the store client is classified into it.

use vstd::prelude::*;
use crate::text::{contains_text, has_substring, texts};

verus! {

/// One field name together with the messages collected for it.
#[derive(Debug)]
struct FieldEntry {
    key: String,
    messages: Vec<String>,
}

/// Validation messages grouped by field name. A field name occurs at most
/// once; the messages of a field keep the order in which they were added.
///
/// The fields are kept in a list and found by comparing names: a handful of
/// fields at most, which can then be printed and listed as they are.
#[derive(Debug)]
pub struct FieldErrors {
    entries: Vec<FieldEntry>,
}

/// The map that results from appending `message` to the messages of `key`.
pub open spec fn with_message(
    m: Map<Seq<char>, Seq<Seq<char>>>,
    key: Seq<char>,
    message: Seq<char>,
) -> Map<Seq<char>, Seq<Seq<char>>> {
    if m.contains_key(key) {
        m.insert(key, m[key].push(message))
    } else {
        m.insert(key, seq![message])
    }
}

/// The map collected from a list of (field, message) pairs, taken in order.
pub open spec fn collected(pairs: Seq<(String, String)>) -> Map<Seq<char>, Seq<Seq<char>>>
    decreases pairs.len(),
{
    if pairs.len() == 0 {
        Map::empty()
    } else {
        with_message(collected(pairs.drop_last()), pairs.last().0@, pairs.last().1@)
    }
}

impl View for FieldErrors {
    type V = Map<Seq<char>, Seq<Seq<char>>>;

    closed spec fn view(&self) -> Map<Seq<char>, Seq<Seq<char>>> {
        Map::new(
            |k: Seq<char>| self.holds(k),
            |k: Seq<char>| texts(self.entries[self.index_of(k)].messages@),
        )
    }
}

impl FieldErrors {
    /// The invariant of the collection: no field name is stored twice.
    pub closed spec fn well_formed(&self) -> bool {
        forall|i: int, j: int|
            0 <= i < j < self.entries.len() ==> self.entries[i].key@ != self.entries[j].key@
    }

    spec fn holds(self, k: Seq<char>) -> bool {
        exists|i: int| 0 <= i < self.entries.len() && #[trigger] self.entries[i].key@ == k
    }

    spec fn first_at(self, k: Seq<char>, i: int) -> bool {
        &&& 0 <= i < self.entries.len()
        &&& self.entries[i].key@ == k
        &&& forall|j: int| 0 <= j < i ==> self.entries[j].key@ != k
    }

    spec fn index_of(self, k: Seq<char>) -> int {
        choose|i: int| self.first_at(k, i)
    }

    proof fn first_exists(self, k: Seq<char>, upto: int)
        requires
            0 <= upto < self.entries.len(),
            self.entries[upto].key@ == k,
        ensures
            self.first_at(k, self.index_of(k)),
        decreases upto,
    {
        if exists|j: int| 0 <= j < upto && self.entries[j].key@ == k {
            let j = choose|j: int| 0 <= j < upto && self.entries[j].key@ == k;
            self.first_exists(k, j);
        } else {
            assert(self.first_at(k, upto));
        }
    }

    proof fn first_of_held(self, k: Seq<char>)
        requires
            self.holds(k),
        ensures
            self.first_at(k, self.index_of(k)),
    {
        let i = choose|i: int| 0 <= i < self.entries.len() && #[trigger] self.entries[i].key@ == k;
        self.first_exists(k, i);
    }

    /// No field has a message yet.
    pub fn new() -> (errors: FieldErrors)
        ensures
            errors@ == Map::<Seq<char>, Seq<Seq<char>>>::empty(),
            errors.well_formed(),
    {
        let errors = FieldErrors { entries: Vec::new() };
        assert(errors@ =~= Map::<Seq<char>, Seq<Seq<char>>>::empty());
        errors
    }

    fn position(&self, key: &String) -> (found: Option<usize>)
        ensures
            match found {
                Some(i) => self.first_at(key@, i as int),
                None => !self.holds(key@),
            },
    {
        let mut i: usize = 0;
        while i < self.entries.len()
            invariant
                i <= self.entries.len(),
                forall|j: int| 0 <= j < i ==> self.entries[j].key@ != key@,
            decreases self.entries.len() - i,
        {
            if self.entries[i].key == *key {
                return Some(i);
            }
            i += 1;
        }
        None
    }

    /// Appends `message` to the messages of field `key`, which is created if
    /// it had none.
    pub fn add(&mut self, key: String, message: String)
        ensures
            final(self)@ == with_message(old(self)@, key@, message@),
            old(self).well_formed() ==> final(self).well_formed(),
    {
        let ghost before = *self;
        match self.position(&key) {
            Some(i) => {
                let mut entry = self.entries.remove(i);
                entry.messages.push(message);
                self.entries.insert(i, entry);
                proof {
                    assert(self.entries@.len() == before.entries@.len());
                    assert forall|j: int| 0 <= j < self.entries.len() implies #[trigger] self.entries[j].key@
                        == before.entries[j].key@ by {}
                    assert forall|k: Seq<char>| self.holds(k) == before.holds(k) by {
                        if before.holds(k) {
                            before.first_of_held(k);
                            let j = before.index_of(k);
                            assert(self.entries[j].key@ == k);
                        }
                        if self.holds(k) {
                            self.first_of_held(k);
                            let j = self.index_of(k);
                            assert(before.entries[j].key@ == k);
                        }
                    }
                    assert forall|k: Seq<char>| self.holds(k) implies self.index_of(k)
                        == before.index_of(k) by {
                        self.first_of_held(k);
                        before.first_of_held(k);
                        let a = self.index_of(k);
                        let b = before.index_of(k);
                        assert(before.entries[a].key@ == k);
                        assert(self.entries[b].key@ == k);
                        assert(before.first_at(k, a));
                    }
                    assert(before.holds(key@));
                    before.first_of_held(key@);
                    assert(before.index_of(key@) == i);
                    assert(texts(self.entries[i as int].messages@) =~= texts(
                        before.entries[i as int].messages@,
                    ).push(message@));
                    let target = with_message(before@, key@, message@);
                    assert forall|k: Seq<char>| self@.contains_key(k) implies #[trigger] self@[k]
                        == target[k] by {
                        self.first_of_held(k);
                        let j = self.index_of(k);
                        if j != i {
                            assert(self.entries[j] == before.entries[j]);
                        }
                    }
                    assert(self@ =~= target);
                }
            },
            None => {
                let mut messages: Vec<String> = Vec::new();
                messages.push(message);
                self.entries.push(FieldEntry { key, messages });
                proof {
                    let n = before.entries.len() as int;
                    assert forall|k: Seq<char>| self.holds(k) == (before.holds(k) || k == key@) by {
                        if before.holds(k) {
                            before.first_of_held(k);
                            let j = before.index_of(k);
                            assert(self.entries[j].key@ == k);
                        }
                        if k == key@ {
                            assert(self.entries[n].key@ == k);
                        }
                        if self.holds(k) {
                            self.first_of_held(k);
                            let j = self.index_of(k);
                            if j < n {
                                assert(before.entries[j].key@ == k);
                            }
                        }
                    }
                    assert forall|k: Seq<char>| before.holds(k) implies self.index_of(k)
                        == before.index_of(k) by {
                        before.first_of_held(k);
                        let b = before.index_of(k);
                        assert(self.entries[b].key@ == k);
                        self.first_of_held(k);
                        let a = self.index_of(k);
                        assert(self.first_at(k, b));
                        assert(a == b);
                    }
                    assert(self.entries[n].key@ == key@);
                    self.first_of_held(key@);
                    assert(self.first_at(key@, n));
                    assert(self.index_of(key@) == n);
                    assert(texts(self.entries[n].messages@) =~= seq![message@]);
                    let target = with_message(before@, key@, message@);
                    assert forall|k: Seq<char>| self@.contains_key(k) implies #[trigger] self@[k]
                        == target[k] by {
                        if k != key@ {
                            assert(before.holds(k));
                            before.first_of_held(k);
                            let j = before.index_of(k);
                            assert(self.entries[j] == before.entries[j]);
                        }
                    }
                    assert(self@ =~= target);
                }
            },
        }
    }

    /// Whether field `key` has at least one message.
    pub fn contains_key(&self, key: &str) -> (found: bool)
        ensures
            found == self@.contains_key(key@),
    {
        let owned = key.to_owned();
        self.position(&owned).is_some()
    }

    /// The messages of field `key`, in the order in which they were added,
    /// if it has any.
    pub fn messages(&self, key: &str) -> (found: Option<Vec<String>>)
        ensures
            match found {
                Some(list) => self@.contains_key(key@) && texts(list@) == self@[key@],
                None => !self@.contains_key(key@),
            },
    {
        let owned = key.to_owned();
        match self.position(&owned) {
            Some(i) => {
                proof {
                    assert(self.holds(key@));
                    self.first_of_held(key@);
                }
                let stored = &self.entries[i].messages;
                let mut list: Vec<String> = Vec::new();
                let mut j: usize = 0;
                while j < stored.len()
                    invariant
                        j <= stored.len(),
                        list@ == stored@.subrange(0, j as int),
                    decreases stored.len() - j,
                {
                    list.push(stored[j].clone());
                    proof {
                        assert(list@ =~= stored@.subrange(0, j + 1));
                    }
                    j += 1;
                }
                proof {
                    assert(list@ =~= stored@);
                }
                Some(list)
            },
            None => None,
        }
    }

    /// The names of the fields that have a message. In a collection that
    /// meets its invariant each name is listed once.
    pub fn keys(&self) -> (names: Vec<String>)
        ensures
            forall|k: Seq<char>|
                self@.contains_key(k) <==> exists|i: int|
                    0 <= i < names.len() && #[trigger] names[i]@ == k,
            self.well_formed() ==> forall|i: int, j: int|
                0 <= i < j < names.len() ==> names[i]@ != names[j]@,
    {
        let mut names: Vec<String> = Vec::new();
        let mut i: usize = 0;
        while i < self.entries.len()
            invariant
                i <= self.entries.len(),
                names.len() == i,
                forall|j: int| 0 <= j < i ==> #[trigger] names[j]@ == self.entries[j].key@,
            decreases self.entries.len() - i,
        {
            names.push(self.entries[i].key.clone());
            i += 1;
        }
        proof {
            assert forall|k: Seq<char>| self@.contains_key(k) <==> exists|i: int|
                0 <= i < names.len() && #[trigger] names[i]@ == k by {
                if self@.contains_key(k) {
                    self.first_of_held(k);
                    assert(names[self.index_of(k)]@ == k);
                }
                if exists|i: int| 0 <= i < names.len() && #[trigger] names[i]@ == k {
                    let i = choose|i: int| 0 <= i < names.len() && #[trigger] names[i]@ == k;
                    assert(self.entries[i].key@ == k);
                }
            }
        }
        names
    }

    /// Whether no field has a message.
    pub fn is_empty(&self) -> (empty: bool)
        ensures
            empty == (self@ == Map::<Seq<char>, Seq<Seq<char>>>::empty()),
    {
        let empty = self.entries.len() == 0;
        proof {
            if empty {
                assert(self@ =~= Map::<Seq<char>, Seq<Seq<char>>>::empty());
            } else {
                assert(self.entries[0].key@ == self.entries[0].key@);
                assert(self.holds(self.entries[0].key@));
                assert(self@.contains_key(self.entries[0].key@));
            }
        }
        empty
    }
}

/// How the store client classified a failure, as far as this service tells
/// the classes apart.
#[derive(Debug, Clone, Copy, PartialEq, Eq, Structural)]
pub enum FailureKind {
    /// The network or the handshake failed.
    Io,
    /// The store answered with an error of its own.
    Response,
    /// The reply could not be read as the type asked for.
    Type,
    /// The client refused the request before sending it.
    Client,
    /// The store rejected the credentials.
    Authentication,
    /// Any other class.
    Other,
}

/// A failure reported by the store client: its class and its full text.
#[derive(Debug)]
pub struct StoreFailure {
    pub kind: FailureKind,
    pub detail: String,
}

impl StoreFailure {
    /// The failure that stands for a reply of a shape that this service
    /// does not read, described by `shown`: a failure of class `Type`.
    pub fn unsupported_reply(shown: &str) -> (failure: StoreFailure)
        ensures
            failure.kind == FailureKind::Type,
            failure.detail@ == "unsupported reply: "@ + shown@,
    {
        StoreFailure {
            kind: FailureKind::Type,
            detail: "unsupported reply: ".to_owned().concat(shown),
        }
    }
}

/// Everything that can go wrong in the service.
#[derive(Debug)]
pub enum Error {
    /// Answered with `401 Unauthorized`.
    Unauthorized,
    /// Answered with `403 Forbidden`.
    Forbidden,
    /// Answered with `404 Not Found`.
    NotFound,
    /// Answered with `422 Unprocessable Entity`.
    UnprocessableEntity { errors: FieldErrors },
    /// The store could not be reached.
    RedisConnection(String),
    /// The store rejected the credentials.
    RedisAuthentication(String),
    /// The store answered a well-formed command with an error.
    RedisCommand(String),
    /// A read found no value under the key.
    RedisKeyNotFound(String),
    /// The reply did not have the shape of the type asked for.
    RedisParseError(String),
    /// Any other failure inside the service. The store layer never reports
    /// it.
    Internal(String),
}

/// The three characters by which a store error is recognised as reporting a
/// missing value.
pub open spec fn nil_marker() -> Seq<char> {
    seq!['n', 'i', 'l']
}

impl Error {
    /// The validation error that holds the given (field, message) pairs:
    /// several messages for one field are collected, in order, under that
    /// field.
    pub fn unprocessable_entity(errors: Vec<(String, String)>) -> (error: Error)
        ensures
            error matches Error::UnprocessableEntity { errors: collected_errors }
                && collected_errors@ == collected(errors@) && collected_errors.well_formed(),
    {
        let mut error_map = FieldErrors::new();
        let mut i: usize = 0;
        while i < errors.len()
            invariant
                i <= errors.len(),
                error_map@ == collected(errors@.subrange(0, i as int)),
                error_map.well_formed(),
            decreases errors.len() - i,
        {
            proof {
                let prefix = errors@.subrange(0, i + 1);
                assert(prefix.drop_last() =~= errors@.subrange(0, i as int));
                assert(prefix.last() == errors@[i as int]);
            }
            error_map.add(errors[i].0.clone(), errors[i].1.clone());
            i += 1;
        }
        proof {
            assert(errors@.subrange(0, errors@.len() as int) =~= errors@);
        }
        Error::UnprocessableEntity { errors: error_map }
    }

    /// The error that a failure of the store client is classified as.
    pub open spec fn classified(err: StoreFailure) -> Error {
        match err.kind {
            FailureKind::Io => Error::RedisConnection(err.detail),
            FailureKind::Response => if has_substring(err.detail@, nil_marker()) {
                Error::RedisKeyNotFound(err.detail)
            } else {
                Error::RedisCommand(err.detail)
            },
            FailureKind::Type | FailureKind::Client => Error::RedisParseError(err.detail),
            FailureKind::Authentication => Error::RedisAuthentication(err.detail),
            FailureKind::Other => Error::RedisCommand(err.detail),
        }
    }

    /// Whether this is one of the five kinds of error that the store layer
    /// hands to its callers.
    pub open spec fn is_store_error(self) -> bool {
        self is RedisConnection || self is RedisAuthentication || self is RedisCommand
            || self is RedisKeyNotFound || self is RedisParseError
    }

    /// Classifies a failure of the store client: an I/O failure is a
    /// connection error; rejected credentials are an authentication error;
    /// an error answered by the store is a missing key where its text
    /// mentions `nil`, else a command error; a type or client error is a
    /// parse error; any other class is a command error. The result is always
    /// one of these five kinds.
    pub fn from_redis_error(err: StoreFailure) -> (error: Error)
        ensures
            error == Error::classified(err),
            error.is_store_error(),
    {
        match err.kind {
            FailureKind::Io => Error::RedisConnection(err.detail),
            FailureKind::Response => {
                proof {
                    reveal_strlit("nil");
                    assert("nil"@ =~= nil_marker());
                }
                if contains_text(err.detail.as_str(), "nil") {
                    Error::RedisKeyNotFound(err.detail)
                } else {
                    Error::RedisCommand(err.detail)
                }
            },
            FailureKind::Type | FailureKind::Client => Error::RedisParseError(err.detail),
            FailureKind::Authentication => Error::RedisAuthentication(err.detail),
            FailureKind::Other => Error::RedisCommand(err.detail),
        }
    }

    /// The HTTP status that answers this error.
    pub fn status_code(&self) -> (code: u16)
        ensures
            code == match *self {
                Error::Unauthorized => 401u16,
                Error::Forbidden => 403u16,
                Error::NotFound | Error::RedisKeyNotFound(_) => 404u16,
                Error::UnprocessableEntity { .. } => 422u16,
                Error::RedisConnection(_)
                | Error::RedisAuthentication(_)
                | Error::RedisCommand(_)
                | Error::RedisParseError(_)
                | Error::Internal(_) => 500u16,
            },
    {
        match self {
            Error::Unauthorized => 401,
            Error::Forbidden => 403,
            Error::NotFound | Error::RedisKeyNotFound(_) => 404,
            Error::UnprocessableEntity { .. } => 422,
            Error::RedisConnection(_)
            | Error::RedisAuthentication(_)
            | Error::RedisCommand(_)
            | Error::RedisParseError(_)
            | Error::Internal(_) => 500,
        }
    }

    /// The text of this error as shown to a client.
    pub open spec fn message_text(self) -> Seq<char> {
        match self {
            Error::Unauthorized => "authentication required"@,
            Error::Forbidden => "user may not perform that action"@,
            Error::NotFound => "request path not found"@,
            Error::UnprocessableEntity { .. } => "error in the request body"@,
            Error::RedisConnection(detail) => "failed to connect to Redis: "@ + detail@,
            Error::RedisAuthentication(detail) => "Redis authentication failed: "@ + detail@,
            Error::RedisCommand(detail) => "Redis command failed: "@ + detail@,
            Error::RedisKeyNotFound(detail) => "Redis key not found: "@ + detail@,
            Error::RedisParseError(detail) => "failed to parse Redis data: "@ + detail@,
            Error::Internal(_) => "an internal server error occurred"@,
        }
    }

    /// The text of this error as shown to a client.
    pub fn message(&self) -> (text: String)
        ensures
            text@ == self.message_text(),
    {
        match self {
            Error::Unauthorized => "authentication required".to_owned(),
            Error::Forbidden => "user may not perform that action".to_owned(),
            Error::NotFound => "request path not found".to_owned(),
            Error::UnprocessableEntity { .. } => "error in the request body".to_owned(),
            Error::RedisConnection(detail) => "failed to connect to Redis: ".to_owned().concat(
                detail.as_str(),
            ),
            Error::RedisAuthentication(detail) => "Redis authentication failed: ".to_owned().concat(
                detail.as_str(),
            ),
            Error::RedisCommand(detail) => "Redis command failed: ".to_owned().concat(
                detail.as_str(),
            ),
            Error::RedisKeyNotFound(detail) => "Redis key not found: ".to_owned().concat(
                detail.as_str(),
            ),
            Error::RedisParseError(detail) => "failed to parse Redis data: ".to_owned().concat(
                detail.as_str(),
            ),
            Error::Internal(_) => "an internal server error occurred".to_owned(),
        }
    }
}

} // verus!
