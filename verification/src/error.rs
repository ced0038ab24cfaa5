use vstd::prelude::*;

use crate::kind::BuiltinKind;
use crate::number::{decimal_i64, decimal_usize, int_decimal, nat_decimal};

verus! {

/// Why a builtin call fails.
#[derive(Clone, Debug, PartialEq, Eq)]
pub enum CallError {
    /// The builtin does not take this number of arguments.
    ArgCount(BuiltinKind, usize),
    /// The builtin does not take an argument of this type (its type's name).
    WrongType(BuiltinKind, String),
    /// This string is no number.
    NotNumber(String),
    /// This integer lies outside the range of a byte.
    ByteRange(i64),
    /// An iterator was asked for an element past its end.
    EndedIterator,
    /// The platform could not tell the time.
    UnixTimeUnavailable,
    /// `EndMark` was called, which is no builtin.
    InvalidBuiltin,
    /// Work done outside the library failed with this message.
    Failed(String),
}

/// The message for a wrong number of arguments, `n`, given to a builtin.
/// `println()` and `EndMark` take any number of arguments, so `exec` never
/// fails with a count for them (see `law_arity`); their texts here only
/// complete the function.
pub open spec fn arity_message(k: BuiltinKind, n: nat) -> Seq<char> {
    match k {
        BuiltinKind::Print => "print() takes atleast one argument, 0 provided"@,
        BuiltinKind::Truthy => "is_true() takes one argument, "@ + nat_decimal(n) + " provided."@,
        BuiltinKind::Println => "println() takes any number of arguments, "@ + nat_decimal(n) + " provided"@,
        BuiltinKind::Length => "len() takes one argument, "@ + nat_decimal(n) + " provided"@,
        BuiltinKind::Builtins => "builtins() takes zero arguments, "@ + nat_decimal(n) + " provided"@,
        BuiltinKind::TimeUnix => "unix_time() takes zero arguments, "@ + nat_decimal(n) + " provided"@,
        BuiltinKind::Eval => "eval() takes one argument, "@ + nat_decimal(n) + " provided"@,
        BuiltinKind::Disasm => "disasm() takes 1 argument, "@ + nat_decimal(n) + " provided"@,
        BuiltinKind::Args => "args() takes zero arguments, "@ + nat_decimal(n) + " provided"@,
        BuiltinKind::Exit => "exit() takes 1 argument, "@ + nat_decimal(n) + " provided"@,
        BuiltinKind::Env => "get_env() takes atleast one argument, 0 provided"@,
        BuiltinKind::Envs => "envs() takes zero arguments, "@ + nat_decimal(n) + " provided"@,
        BuiltinKind::Platform => "arch() takes zero arguments, "@ + nat_decimal(n) + " provided"@,
        BuiltinKind::String => "string() takes 1 argument, "@ + nat_decimal(n) + " provided"@,
        BuiltinKind::Int => "string() takes 1 argument, "@ + nat_decimal(n) + " provided"@,
        BuiltinKind::Float => "string() takes 1 argument, "@ + nat_decimal(n) + " provided"@,
        BuiltinKind::Bool => "string() takes 1 argument, "@ + nat_decimal(n) + " provided"@,
        BuiltinKind::Byte => "string() takes 1 argument, "@ + nat_decimal(n) + " provided"@,
        BuiltinKind::Char => "exec() expects atleast one argument, zero provided."@,
        BuiltinKind::Iter => "iter() expects one argument, "@ + nat_decimal(n) + " provided."@,
        BuiltinKind::Next => "next() expects one argument, "@ + nat_decimal(n) + " provided."@,
        BuiltinKind::HasNext => "has_next() expects one argument, "@ + nat_decimal(n) + " provided."@,
        BuiltinKind::Bytes => "bytes() takes atleast one argument, zero provided"@,
        BuiltinKind::TypeOf => "type_of() takes 1 argument, "@ + nat_decimal(n) + " provided"@,
        BuiltinKind::CreateArray => "create_array() takes one or two arguments, provided "@ + nat_decimal(n) + "."@,
        BuiltinKind::Exec => "exec() expects atleast one argument, zero provided."@,
        BuiltinKind::ExecRaw => "exec_raw() expects atleast one argument, zero provided."@,
        BuiltinKind::EndMark => "undef() takes any number of arguments, "@ + nat_decimal(n) + " provided"@,
    }
}

/// The message for an argument of type `t` that a builtin does not take.
/// `exec` rejects argument types only for the builtins listed by name
/// (see `law_wrong_type_kinds`); the last text only completes the function.
pub open spec fn type_message(k: BuiltinKind, t: Seq<char>) -> Seq<char> {
    match k {
        BuiltinKind::Length => "len() cannot be applied on "@ + t + ""@,
        BuiltinKind::Eval => "eval() takes string as argument, "@ + t + " provided"@,
        BuiltinKind::Disasm => "eval() takes string as argument, "@ + t + " provided"@,
        BuiltinKind::Exit => "exit() takes int as an argument, "@ + t + " provided"@,
        BuiltinKind::Env => "env() takes string as first argument, "@ + t + " provided"@,
        BuiltinKind::CreateArray => "create_array() expects int as first argument, provided "@ + t + "."@,
        BuiltinKind::Int => "Object of type "@ + t + " cannot be converted to int"@,
        BuiltinKind::Byte => "Object of type "@ + t + " cannot be converted to byte"@,
        BuiltinKind::Float => "Object of type "@ + t + " cannot be converted to float"@,
        BuiltinKind::Bytes => "Object of type "@ + t + " cannot be converted to bytes"@,
        BuiltinKind::Char => "Object of type "@ + t + " cannot be converted to bytes"@,
        BuiltinKind::HasNext => "has_next() can be applied only on iter, but got "@ + t + ""@,
        BuiltinKind::Next => "has_next() can be applied only on iter, but got "@ + t + ""@,
        _ => "Object of type "@ + t + " cannot be passed to this builtin"@,
    }
}

/// The message of an error.
pub open spec fn spec_message(e: CallError) -> Seq<char> {
    match e {
        CallError::ArgCount(k, n) => arity_message(k, n as nat),
        CallError::WrongType(k, t) => type_message(k, t@),
        CallError::NotNumber(s) => "String "@ + s@ + " cannot be converted to integer."@,
        CallError::ByteRange(i) => "Integer "@ + int_decimal(i as int) + " cannot be casted to raw"@,
        CallError::EndedIterator => "next() called on ended iterator"@,
        CallError::UnixTimeUnavailable => "Failed to fetch UNIX epoch time."@,
        CallError::InvalidBuiltin => "Trying to invoke invalid builtin"@,
        CallError::Failed(m) => m@,
    }
}

/// `prefix + middle + suffix` as a new string.
fn surround(prefix: &str, middle: &str, suffix: &str) -> (res: String)
    ensures
        res@ == prefix@ + middle@ + suffix@,
{
    let mut s = String::from_str(prefix);
    s.append(middle);
    s.append(suffix);
    s
}

impl CallError {
    /// The message that the interpreter reports for this error.
    pub fn message(&self) -> (res: String)
        ensures
            res@ == spec_message(*self),
    {
        match self {
            CallError::ArgCount(k, n) => arity_text(*k, *n),
            CallError::WrongType(k, t) => wrong_type_text(*k, t.as_str()),
            CallError::NotNumber(s) => surround("String ", s.as_str(), " cannot be converted to integer."),
            CallError::ByteRange(i) => {
                let digits = decimal_i64(*i);
                surround("Integer ", digits.as_str(), " cannot be casted to raw")
            },
            CallError::EndedIterator => String::from_str("next() called on ended iterator"),
            CallError::UnixTimeUnavailable => String::from_str("Failed to fetch UNIX epoch time."),
            CallError::InvalidBuiltin => String::from_str("Trying to invoke invalid builtin"),
            CallError::Failed(m) => m.clone(),
        }
    }
}

/// The message for a wrong number of arguments.
fn arity_text(k: BuiltinKind, n: usize) -> (res: String)
    ensures
        res@ == arity_message(k, n as nat),
{
    let count = decimal_usize(n);
    let c = count.as_str();
    match k {
        BuiltinKind::Print => String::from_str("print() takes atleast one argument, 0 provided"),
        BuiltinKind::Truthy => surround("is_true() takes one argument, ", c, " provided."),
        BuiltinKind::Println => surround("println() takes any number of arguments, ", c, " provided"),
        BuiltinKind::Length => surround("len() takes one argument, ", c, " provided"),
        BuiltinKind::Builtins => surround("builtins() takes zero arguments, ", c, " provided"),
        BuiltinKind::TimeUnix => surround("unix_time() takes zero arguments, ", c, " provided"),
        BuiltinKind::Eval => surround("eval() takes one argument, ", c, " provided"),
        BuiltinKind::Disasm => surround("disasm() takes 1 argument, ", c, " provided"),
        BuiltinKind::Args => surround("args() takes zero arguments, ", c, " provided"),
        BuiltinKind::Exit => surround("exit() takes 1 argument, ", c, " provided"),
        BuiltinKind::Env => String::from_str("get_env() takes atleast one argument, 0 provided"),
        BuiltinKind::Envs => surround("envs() takes zero arguments, ", c, " provided"),
        BuiltinKind::Platform => surround("arch() takes zero arguments, ", c, " provided"),
        BuiltinKind::String => surround("string() takes 1 argument, ", c, " provided"),
        BuiltinKind::Int => surround("string() takes 1 argument, ", c, " provided"),
        BuiltinKind::Float => surround("string() takes 1 argument, ", c, " provided"),
        BuiltinKind::Bool => surround("string() takes 1 argument, ", c, " provided"),
        BuiltinKind::Byte => surround("string() takes 1 argument, ", c, " provided"),
        BuiltinKind::Char => String::from_str("exec() expects atleast one argument, zero provided."),
        BuiltinKind::Iter => surround("iter() expects one argument, ", c, " provided."),
        BuiltinKind::Next => surround("next() expects one argument, ", c, " provided."),
        BuiltinKind::HasNext => surround("has_next() expects one argument, ", c, " provided."),
        BuiltinKind::Bytes => String::from_str("bytes() takes atleast one argument, zero provided"),
        BuiltinKind::TypeOf => surround("type_of() takes 1 argument, ", c, " provided"),
        BuiltinKind::CreateArray => surround("create_array() takes one or two arguments, provided ", c, "."),
        BuiltinKind::Exec => String::from_str("exec() expects atleast one argument, zero provided."),
        BuiltinKind::ExecRaw => String::from_str("exec_raw() expects atleast one argument, zero provided."),
        BuiltinKind::EndMark => surround("undef() takes any number of arguments, ", c, " provided"),
    }
}

/// The message for an argument of a type that the builtin does not take.
fn wrong_type_text(k: BuiltinKind, t: &str) -> (res: String)
    ensures
        res@ == type_message(k, t@),
{
    match k {
        BuiltinKind::Length => surround("len() cannot be applied on ", t, ""),
        BuiltinKind::Eval => surround("eval() takes string as argument, ", t, " provided"),
        BuiltinKind::Disasm => surround("eval() takes string as argument, ", t, " provided"),
        BuiltinKind::Exit => surround("exit() takes int as an argument, ", t, " provided"),
        BuiltinKind::Env => surround("env() takes string as first argument, ", t, " provided"),
        BuiltinKind::CreateArray => surround("create_array() expects int as first argument, provided ", t, "."),
        BuiltinKind::Int => surround("Object of type ", t, " cannot be converted to int"),
        BuiltinKind::Byte => surround("Object of type ", t, " cannot be converted to byte"),
        BuiltinKind::Float => surround("Object of type ", t, " cannot be converted to float"),
        BuiltinKind::Bytes => surround("Object of type ", t, " cannot be converted to bytes"),
        BuiltinKind::Char => surround("Object of type ", t, " cannot be converted to bytes"),
        BuiltinKind::HasNext => surround("has_next() can be applied only on iter, but got ", t, ""),
        BuiltinKind::Next => surround("has_next() can be applied only on iter, but got ", t, ""),
        _ => surround("Object of type ", t, " cannot be passed to this builtin"),
    }
}

} // verus!
