use vstd::prelude::*;

use crate::codec::{decimal_of, parse_decimal};
use crate::json::Json;
use vstd::utf8::encode_utf8;

verus! {

/// Why a handler could not take its arguments.
#[derive(Clone, Copy, Debug, PartialEq, Eq, Structural)]
pub enum ExtractError {
    /// The handler takes `expected` arguments; the message held `found`.
    Arity { expected: usize, found: usize },
    /// The argument at `index` is absent.
    Missing { index: usize },
    /// The argument at `index` does not have the shape the handler declared.
    WrongType { index: usize },
}

pub open spec fn arity_check(args: Seq<Json>, expected: usize) -> Result<(), ExtractError> {
    if args.len() == expected {
        Ok(())
    } else {
        Err(ExtractError::Arity { expected, found: args.len() as usize })
    }
}

/// The string argument at `index`.
pub open spec fn str_arg(args: Seq<Json>, index: usize) -> Result<Seq<char>, ExtractError> {
    if index >= args.len() {
        Err(ExtractError::Missing { index })
    } else {
        match args[index as int] {
            Json::Str(s) => Ok(s@),
            _ => Err(ExtractError::WrongType { index }),
        }
    }
}

/// The boolean argument at `index`.
pub open spec fn bool_arg(args: Seq<Json>, index: usize) -> Result<bool, ExtractError> {
    if index >= args.len() {
        Err(ExtractError::Missing { index })
    } else {
        match args[index as int] {
            Json::Bool(b) => Ok(b),
            _ => Err(ExtractError::WrongType { index }),
        }
    }
}

/// The unsigned integer argument at `index`: a JSON number written as
/// decimal digits alone that fits in a `u64`.
pub open spec fn u64_arg(args: Seq<Json>, index: usize) -> Result<u64, ExtractError> {
    if index >= args.len() {
        Err(ExtractError::Missing { index })
    } else {
        match args[index as int] {
            Json::Number(t) => match decimal_of(encode_utf8(t@)) {
                Some(v) => Ok(v),
                None => Err(ExtractError::WrongType { index }),
            },
            _ => Err(ExtractError::WrongType { index }),
        }
    }
}

pub open spec fn string_result_view(r: Result<String, ExtractError>) -> Result<
    Seq<char>,
    ExtractError,
> {
    match r {
        Ok(s) => Ok(s@),
        Err(e) => Err(e),
    }
}

/// Checks that a message carries exactly the number of arguments a handler
/// takes.
pub fn expect_arity(args: &Vec<Json>, expected: usize) -> (r: Result<(), ExtractError>)
    ensures
        r == arity_check(args@, expected),
{
    if args.len() == expected {
        Ok(())
    } else {
        Err(ExtractError::Arity { expected, found: args.len() })
    }
}

pub fn arg_str(args: &Vec<Json>, index: usize) -> (r: Result<String, ExtractError>)
    ensures
        string_result_view(r) == str_arg(args@, index),
{
    if index >= args.len() {
        return Err(ExtractError::Missing { index });
    }
    match &args[index] {
        Json::Str(s) => Ok(s.clone()),
        _ => Err(ExtractError::WrongType { index }),
    }
}

pub fn arg_bool(args: &Vec<Json>, index: usize) -> (r: Result<bool, ExtractError>)
    ensures
        r == bool_arg(args@, index),
{
    if index >= args.len() {
        return Err(ExtractError::Missing { index });
    }
    match &args[index] {
        Json::Bool(b) => Ok(*b),
        _ => Err(ExtractError::WrongType { index }),
    }
}

pub fn arg_u64(args: &Vec<Json>, index: usize) -> (r: Result<u64, ExtractError>)
    ensures
        r == u64_arg(args@, index),
{
    if index >= args.len() {
        return Err(ExtractError::Missing { index });
    }
    match &args[index] {
        Json::Number(t) => match parse_decimal(t.as_str().as_bytes()) {
            Some(v) => Ok(v),
            None => Err(ExtractError::WrongType { index }),
        },
        _ => Err(ExtractError::WrongType { index }),
    }
}

/// A handler bound to an event: it takes the message's arguments, decodes
/// the ones it declares, and produces the text sent back to the peer.
pub trait WsHandler {
    /// What the handler replies to the given arguments.
    spec fn reply(&self, args: Seq<Json>) -> Result<Seq<char>, ExtractError>;

    fn call(&self, args: &Vec<Json>) -> (r: Result<String, ExtractError>)
        ensures
            string_result_view(r) == self.reply(args@),
    ;
}

/// Replies with its single string argument.
#[derive(Clone, Copy, Debug, PartialEq, Eq, Structural)]
pub struct EchoHandler;

impl WsHandler for EchoHandler {
    open spec fn reply(&self, args: Seq<Json>) -> Result<Seq<char>, ExtractError> {
        match arity_check(args, 1) {
            Err(e) => Err(e),
            Ok(_) => str_arg(args, 0),
        }
    }

    fn call(&self, args: &Vec<Json>) -> (r: Result<String, ExtractError>) {
        expect_arity(args, 1)?;
        arg_str(args, 0)
    }
}

/// Replies with a fixed text, whatever the arguments.
#[derive(Debug)]
pub struct ReplyHandler {
    pub text: String,
}

impl WsHandler for ReplyHandler {
    open spec fn reply(&self, args: Seq<Json>) -> Result<Seq<char>, ExtractError> {
        Ok(self.text@)
    }

    fn call(&self, args: &Vec<Json>) -> (r: Result<String, ExtractError>) {
        Ok(self.text.clone())
    }
}

/// A registered handler.
#[derive(Debug)]
pub struct HandlerWrapper<H> {
    pub hnd: H,
}

impl<H: WsHandler> HandlerWrapper<H> {
    pub fn new(hnd: H) -> (r: HandlerWrapper<H>)
        ensures
            r.hnd == hnd,
    {
        HandlerWrapper { hnd }
    }

    pub fn call(&self, args: &Vec<Json>) -> (r: Result<String, ExtractError>)
        ensures
            string_result_view(r) == self.hnd.reply(args@),
    {
        self.hnd.call(args)
    }
}

} // verus!
