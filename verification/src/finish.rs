use vstd::prelude::*;

use crate::error::CallError;
use crate::object::Produced;
use vstd::utf8::{decode_utf8, valid_utf8};

verus! {

/// The message with which the standard library's `String::from_utf8`
/// rejects these bytes.
pub uninterp spec fn utf8_error_text(bytes: Seq<u8>) -> Seq<char>;

/// Calls `String::from_utf8`. Trusted: it succeeds exactly on valid UTF-8
/// and then holds the characters that the bytes encode; on failure it gives
/// the text of the error, a function of the bytes that is left unnamed here.
#[verifier::external_body]
fn string_from_utf8(bytes: Vec<u8>) -> (res: Result<String, String>)
    ensures
        res is Ok <==> valid_utf8(bytes@),
        res matches Ok(s) ==> s@ == decode_utf8(bytes@),
        res matches Err(m) ==> m@ == utf8_error_text(bytes@),
{
    match String::from_utf8(bytes) {
        Ok(s) => Ok(s),
        Err(e) => Err(format!("{}", e)),
    }
}

/// Finishes `print()` and `println()` once the text was printed: they give noval.
pub fn finish_print() -> (res: Produced)
    ensures
        res == Produced::Noval,
{
    Produced::Noval
}

/// Finishes `args()` from the program's arguments: an array of them as
/// strings, in order.
pub fn finish_program_args(args: Vec<String>) -> (res: Produced)
    ensures
        res matches Produced::Array(v) && v@.len() == args@.len() && forall|i: int|
            0 <= i < v@.len() ==> #[trigger] v@[i] == Produced::Str(args@[i]),
{
    let mut elements: Vec<Produced> = Vec::new();
    let mut i: usize = 0;
    while i < args.len()
        invariant
            i <= args@.len(),
            elements@.len() == i,
            forall|j: int| 0 <= j < i ==> #[trigger] elements@[j] == Produced::Str(args@[j]),
        decreases args@.len() - i,
    {
        elements.push(Produced::Str(args[i].clone()));
        i = i + 1;
    }
    Produced::Array(elements)
}

/// Finishes `envs()` from the environment's variables: a table of them, in
/// the order given.
pub fn finish_envs(vars: Vec<(String, String)>) -> (res: Produced)
    ensures
        res == Produced::Table(vars),
{
    Produced::Table(vars)
}

/// Finishes `unix_time()` once the platform was asked for the time (as the
/// bit pattern of a float, or nothing when it could not tell).
pub fn finish_unix_time(time: Option<u64>) -> (res: Result<Produced, CallError>)
    ensures
        res == (match time {
            Some(bits) => Ok(Produced::Float(bits)),
            None => Err(CallError::UnixTimeUnavailable),
        }),
{
    match time {
        Some(bits) => Ok(Produced::Float(bits)),
        None => Err(CallError::UnixTimeUnavailable),
    }
}

/// Finishes `env()` once the variable was looked up: its value, else the
/// default that the call supplied, else noval.
pub fn finish_env(value: Option<String>, has_default: bool) -> (res: Produced)
    ensures
        res == (match value {
            Some(v) => Produced::Str(v),
            None => if has_default {
                Produced::Argument(1)
            } else {
                Produced::Noval
            },
        }),
{
    match value {
        Some(v) => Produced::Str(v),
        None => if has_default {
            Produced::Argument(1)
        } else {
            Produced::Noval
        },
    }
}

/// Finishes `platform()` from the platform's architecture, family and OS,
/// in this order: a table from "arch", "family" and "os" to them.
pub fn finish_platform(info: &Vec<String>) -> (res: Produced)
    requires
        info.len() >= 3,
    ensures
        res matches Produced::Table(entries) && entries@.len() == 3 && entries@[0].0@ == "arch"@
            && entries@[0].1 == info@[0] && entries@[1].0@ == "family"@ && entries@[1].1
            == info@[1] && entries@[2].0@ == "os"@ && entries@[2].1 == info@[2],
{
    let mut entries: Vec<(String, String)> = Vec::new();
    entries.push((String::from_str("arch"), info[0].clone()));
    entries.push((String::from_str("family"), info[1].clone()));
    entries.push((String::from_str("os"), info[2].clone()));
    Produced::Table(entries)
}

/// Finishes `disasm()` from the disassembly, if there was one.
pub fn finish_disasm(output: Option<String>) -> (res: Produced)
    ensures
        res == (match output {
            Some(text) => Produced::Str(text),
            None => Produced::Noval,
        }),
{
    match output {
        Some(text) => Produced::Str(text),
        None => Produced::Noval,
    }
}

/// Finishes `exec()` (`raw` false) and `exec_raw()` (`raw` true) from what
/// running the process gave: its exit code and output, or a failure. The
/// result pairs the exit code with the output, as text or as raw bytes;
/// output that is no valid UTF-8 fails `exec()`.
pub fn finish_process(raw: bool, outcome: Result<(i32, Vec<u8>), String>) -> (res: Result<
    Produced,
    CallError,
>)
    ensures
        match outcome {
            Err(m) => res == Err::<Produced, CallError>(CallError::Failed(m)),
            Ok((code, out)) => if raw {
                res matches Ok(Produced::Array(v)) && v@ == seq![
                    Produced::Int(code as i64),
                    Produced::Buffer(out),
                ]
            } else if valid_utf8(out@) {
                res matches Ok(Produced::Array(v)) && v@.len() == 2 && v@[0] == Produced::Int(
                    code as i64,
                ) && (v@[1] matches Produced::Str(s) && s@ == decode_utf8(out@))
            } else {
                res matches Err(CallError::Failed(m)) && m@ == utf8_error_text(out@)
            },
        },
{
    match outcome {
        Err(m) => Err(CallError::Failed(m)),
        Ok((exit_code, op_data)) => {
            if raw {
                let mut op_array: Vec<Produced> = Vec::new();
                op_array.push(Produced::Int(exit_code as i64));
                op_array.push(Produced::Buffer(op_data));
                Ok(Produced::Array(op_array))
            } else {
                match string_from_utf8(op_data) {
                    Err(m) => Err(CallError::Failed(m)),
                    Ok(text) => {
                        let mut op_array: Vec<Produced> = Vec::new();
                        op_array.push(Produced::Int(exit_code as i64));
                        op_array.push(Produced::Str(text));
                        Ok(Produced::Array(op_array))
                    },
                }
            }
        },
    }
}

/// Finishes `eval()` from what evaluation gave: its value, or noval when
/// it gave none.
pub fn finish_eval<T>(result: Option<T>, noval: T) -> (res: T)
    ensures
        res == (match result {
            Some(v) => v,
            None => noval,
        }),
{
    match result {
        Some(v) => v,
        None => noval,
    }
}

/// Finishes `next()` from what the iterator gave: an element, or an error
/// when it had ended.
pub fn finish_next<T>(next: Option<T>) -> (res: Result<T, CallError>)
    ensures
        res == (match next {
            Some(x) => Ok(x),
            None => Err(CallError::EndedIterator),
        }),
{
    match next {
        Some(x) => Ok(x),
        None => Err(CallError::EndedIterator),
    }
}

} // verus!
