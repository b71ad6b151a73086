//! Replies of the store, and how the client library reads them as text or as
//! a truth value.

use vstd::prelude::*;
use vstd::utf8::{decode_utf8, valid_utf8};
use crate::text::signed_decimal;

verus! {

/// One reply of the store.
#[derive(Debug)]
pub enum Reply {
    /// No value.
    Nil,
    /// An integer.
    Int(i64),
    /// Binary-safe data.
    Data(Vec<u8>),
    /// Several replies in one.
    Bulk(Vec<Reply>),
    /// A short status line.
    Status(String),
    /// The status `OK`.
    Okay,
}

/// The truth value that the client library reads from a reply, if it reads
/// one: nil is false, an integer is true unless it is zero, `OK` is true, and
/// a status or data reads as true or false where it is exactly `1` or `0`.
pub open spec fn flag_of(reply: Reply) -> Option<bool> {
    match reply {
        Reply::Nil => Some(false),
        Reply::Int(n) => Some(n != 0),
        Reply::Data(bytes) => if bytes@ == seq![49u8] {
            Some(true)
        } else if bytes@ == seq![48u8] {
            Some(false)
        } else {
            None
        },
        Reply::Status(line) => if line@ == seq!['1'] {
            Some(true)
        } else if line@ == seq!['0'] {
            Some(false)
        } else {
            None
        },
        Reply::Okay => Some(true),
        Reply::Bulk(_) => None,
    }
}

/// The text that the client library reads from a reply, if it reads one:
/// data is decoded as UTF-8, a status line is taken as it is, `OK` reads as
/// the two letters, and an integer reads as its decimal notation.
pub open spec fn text_of(reply: Reply) -> Option<Seq<char>> {
    match reply {
        Reply::Data(bytes) => if valid_utf8(bytes@) {
            Some(decode_utf8(bytes@))
        } else {
            None
        },
        Reply::Status(line) => Some(line@),
        Reply::Okay => Some(seq!['O', 'K']),
        Reply::Int(n) => Some(signed_decimal(n as int)),
        Reply::Nil | Reply::Bulk(_) => None,
    }
}

/// The text of the error with which `redis::from_redis_value::<String>`
/// refuses a reply that is not a bulk of replies: one text for no value, and
/// one for data that is not UTF-8, which are the two replies that it
/// refuses.
pub open spec fn text_fault(reply: Reply) -> Seq<char> {
    if reply is Nil {
        "Response was of incompatible type - TypeError: \"Response type not string compatible.\" (response was nil)"@
    } else {
        "Invalid UTF-8- TypeError"@
    }
}

/// The text of the error with which `redis::from_redis_value::<bool>`
/// refuses a reply.
pub uninterp spec fn flag_fault(reply: Reply) -> Seq<char>;

/// `redis::from_redis_value::<String>` on a reply that is not a bulk of
/// replies: the text of [`text_of`] where there is one, else the text of the
/// client library's type error, which is [`text_fault`]. The bulk arm is
/// never taken.
#[verifier::external_body]
pub(crate) fn read_text(reply: &Reply) -> (result: Result<String, String>)
    requires
        !(reply is Bulk),
    ensures
        match result {
            Ok(text) => text_of(*reply) == Some(text@),
            Err(detail) => text_of(*reply) is None && detail@ == text_fault(*reply),
        },
{
    let value = match reply {
        Reply::Nil => ::redis::Value::Nil,
        Reply::Int(n) => ::redis::Value::Int(*n),
        Reply::Data(bytes) => ::redis::Value::BulkString(bytes.clone()),
        Reply::Status(line) => ::redis::Value::SimpleString(line.clone()),
        Reply::Okay => ::redis::Value::Okay,
        Reply::Bulk(_) => ::redis::Value::Array(Vec::new()),
    };
    match ::redis::from_redis_value::<String>(&value) {
        Ok(text) => Ok(text),
        Err(error) => Err(error.to_string()),
    }
}

/// `redis::from_redis_value::<bool>` on a reply that is not a bulk of
/// replies: the truth value of [`flag_of`] where there is one, else the text
/// of the client library's type error, which the contract only names. The
/// bulk arm is never taken.
#[verifier::external_body]
pub(crate) fn read_flag(reply: &Reply) -> (result: Result<bool, String>)
    requires
        !(reply is Bulk),
    ensures
        match result {
            Ok(flag) => flag_of(*reply) == Some(flag),
            Err(detail) => flag_of(*reply) is None && detail@ == flag_fault(*reply),
        },
{
    let value = match reply {
        Reply::Nil => ::redis::Value::Nil,
        Reply::Int(n) => ::redis::Value::Int(*n),
        Reply::Data(bytes) => ::redis::Value::BulkString(bytes.clone()),
        Reply::Status(line) => ::redis::Value::SimpleString(line.clone()),
        Reply::Okay => ::redis::Value::Okay,
        Reply::Bulk(_) => ::redis::Value::Array(Vec::new()),
    };
    match ::redis::from_redis_value::<bool>(&value) {
        Ok(flag) => Ok(flag),
        Err(error) => Err(error.to_string()),
    }
}

} // verus!
