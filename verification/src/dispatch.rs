use vstd::prelude::*;

use crate::error::CallError;
use crate::kind::{builtin_count, kind_at, spec_name, BuiltinKind};
use crate::number::{parse_i64, spec_parse_i64};
use crate::object::{Arg, Payload, Produced, Request, Step};

verus! {

/// The IEEE-754 bit pattern of the float `1.0`.
pub open spec fn float_one_bits() -> u64 {
    0x3FF0_0000_0000_0000u64
}

/// Whether a builtin takes `n` arguments (those past what it reads are ignored).
pub open spec fn count_accepted(k: BuiltinKind, n: int) -> bool {
    match k {
        BuiltinKind::Print | BuiltinKind::Env | BuiltinKind::Bytes | BuiltinKind::Char
        | BuiltinKind::Exec | BuiltinKind::ExecRaw => n >= 1,
        BuiltinKind::Println | BuiltinKind::EndMark => true,
        BuiltinKind::Builtins | BuiltinKind::TimeUnix | BuiltinKind::Args | BuiltinKind::Envs
        | BuiltinKind::Platform => n == 0,
        BuiltinKind::CreateArray => 1 <= n <= 2,
        _ => n == 1,
    }
}

/// Texts joined with single spaces between them.
pub open spec fn joined(texts: Seq<Seq<char>>) -> Seq<char>
    decreases texts.len(),
{
    if texts.len() == 0 {
        Seq::empty()
    } else if texts.len() == 1 {
        texts[0]
    } else {
        joined(texts.drop_last()) + seq![' '] + texts.last()
    }
}

/// The texts of the arguments, in order.
pub open spec fn arg_texts(args: Seq<Arg>) -> Seq<Seq<char>> {
    Seq::new(args.len(), |i: int| args[i].text@)
}

/// Whether a call asks for big-endian bytes: a second argument that is a
/// true `bool`.
pub open spec fn big_endian_requested(args: Seq<Arg>) -> bool {
    args.len() == 2 && args[1].type_label@ == "bool"@ && args[1].truthy
}

/// Whether an argument's type is `string`.
pub open spec fn is_string_typed(a: Arg) -> bool {
    a.type_label@ == "string"@
}

/// The number of bytes of a string's UTF-8 encoding.
pub open spec fn utf8_len(s: Seq<char>) -> nat {
    vstd::utf8::encode_utf8(s).len()
}

/// Whether `v` lists the names of all positions of the list of builtins.
pub open spec fn lists_all_names(v: Seq<Produced>) -> bool {
    &&& v.len() == builtin_count() + 1
    &&& forall|i: int|
        0 <= i < v.len() ==> (#[trigger] v[i] matches Produced::Str(s) && s@ == spec_name(
            kind_at(i),
        ))
}

/// What `int()` comes to on one argument.
pub open spec fn int_outcome(a: Arg) -> Result<Step, CallError> {
    match a.payload {
        Payload::Int(i) => Ok(Step::Done(Produced::Int(i))),
        Payload::Str(s) => match spec_parse_i64(s@) {
            Some(v) => Ok(Step::Done(Produced::Int(v))),
            None => Err(CallError::NotNumber(s)),
        },
        Payload::Byte(b) => Ok(Step::Done(Produced::Int(b as i64))),
        Payload::Float(f) => Ok(Step::Call(Request::FloatToInt(f))),
        Payload::ByteBuffer => Ok(Step::Call(Request::BufferToInt)),
        Payload::Char(c) => Ok(Step::Done(Produced::Int(c as i64))),
        Payload::Bool(b) => Ok(Step::Done(Produced::Int(if b { 1 } else { 0 }))),
        _ => Err(CallError::WrongType(BuiltinKind::Int, a.type_label)),
    }
}

/// What `byte()` comes to on one argument.
pub open spec fn byte_outcome(a: Arg) -> Result<Step, CallError> {
    match a.payload {
        Payload::Byte(b) => Ok(Step::Done(Produced::Byte(b))),
        Payload::Int(i) => if i < 0 || i > 255 {
            Err(CallError::ByteRange(i))
        } else {
            Ok(Step::Done(Produced::Byte(i as u8)))
        },
        Payload::Char(c) => Ok(Step::Done(Produced::Byte(c as u8))),
        Payload::Bool(b) => Ok(Step::Done(Produced::Byte(if b { 1 } else { 0 }))),
        _ => Err(CallError::WrongType(BuiltinKind::Byte, a.type_label)),
    }
}

/// What `float()` comes to on one argument.
pub open spec fn float_outcome(a: Arg) -> Result<Step, CallError> {
    match a.payload {
        Payload::Int(i) => Ok(Step::Call(Request::IntToFloat(i))),
        Payload::Str(s) => Ok(Step::Call(Request::StrToFloat(s))),
        Payload::Float(f) => Ok(Step::Done(Produced::Float(f))),
        Payload::Char(c) => Ok(Step::Call(Request::IntToFloat(c as i64))),
        Payload::Bool(b) => Ok(Step::Done(Produced::Float(if b { float_one_bits() } else { 0 }))),
        Payload::ByteBuffer => Ok(Step::Call(Request::BufferToFloat)),
        _ => Err(CallError::WrongType(BuiltinKind::Float, a.type_label)),
    }
}

/// What `bytes()` comes to, given all its arguments.
pub open spec fn bytes_outcome(args: Seq<Arg>, res: Result<Step, CallError>) -> bool {
    let little = !big_endian_requested(args);
    match args[0].payload {
        Payload::Int(i) => res == Ok::<Step, CallError>(Step::Call(Request::IntToBytes(i, little))),
        Payload::Float(f) => res == Ok::<Step, CallError>(
            Step::Call(Request::FloatToBytes(f, little)),
        ),
        Payload::Char(c) => res matches Ok(Step::Done(Produced::Buffer(v))) && v@ == seq![c as u8],
        Payload::Str(s) => res == Ok::<Step, CallError>(Step::Call(Request::StrToBytes(s))),
        _ => res == Err::<Step, CallError>(CallError::WrongType(BuiltinKind::Bytes, args[0].type_label)),
    }
}

/// What `len()` comes to on one argument.
pub open spec fn length_outcome(a: Arg) -> Result<Step, CallError> {
    match a.payload {
        Payload::Str(s) => Ok(Step::Done(Produced::Int((utf8_len(s@) as usize) as i64))),
        Payload::Array(n) => Ok(Step::Done(Produced::Int(n as i64))),
        Payload::HashTable(n) => Ok(Step::Done(Produced::Int(n as i64))),
        _ => Err(CallError::WrongType(BuiltinKind::Length, a.type_label)),
    }
}

/// What a builtin that reads one iterator argument comes to.
pub open spec fn iterator_outcome(k: BuiltinKind, a: Arg, r: Request) -> Result<Step, CallError> {
    match a.payload {
        Payload::Iter => Ok(Step::Call(r)),
        _ => Err(CallError::WrongType(k, a.type_label)),
    }
}

/// What a builtin that reads one string-typed argument comes to.
pub open spec fn string_arg_outcome(k: BuiltinKind, a: Arg, r: Request) -> Result<Step, CallError> {
    if is_string_typed(a) {
        Ok(Step::Call(r))
    } else {
        Err(CallError::WrongType(k, a.type_label))
    }
}

/// What a call of builtin `k` on `args` comes to, once the number of
/// arguments is accepted.
pub open spec fn call_outcome(k: BuiltinKind, args: Seq<Arg>, res: Result<Step, CallError>) -> bool {
    let n = args.len();
    match k {
        BuiltinKind::Print => res matches Ok(Step::Call(Request::Print(t))) && t@ == joined(
            arg_texts(args),
        ),
        BuiltinKind::Println => res matches Ok(Step::Call(Request::Print(t))) && t@ == joined(
            arg_texts(args),
        ) + seq!['\n'],
        BuiltinKind::Truthy | BuiltinKind::Bool => res == Ok::<Step, CallError>(
            Step::Done(Produced::Bool(args[0].truthy)),
        ),
        BuiltinKind::Length => res == length_outcome(args[0]),
        BuiltinKind::Builtins => res matches Ok(Step::Done(Produced::Array(v))) && lists_all_names(
            v@,
        ),
        BuiltinKind::TimeUnix => res == Ok::<Step, CallError>(Step::Call(Request::UnixTime)),
        BuiltinKind::Eval => res == string_arg_outcome(k, args[0], Request::Eval(args[0].text)),
        BuiltinKind::Disasm => res == string_arg_outcome(k, args[0], Request::Disasm(args[0].text)),
        BuiltinKind::Args => res == Ok::<Step, CallError>(Step::Call(Request::ProgramArgs)),
        BuiltinKind::Exit => res == (match args[0].payload {
            Payload::Int(i) => Ok(Step::Call(Request::Exit(i as i32))),
            _ => Err(CallError::WrongType(k, args[0].type_label)),
        }),
        BuiltinKind::Env => res == string_arg_outcome(
            k,
            args[0],
            Request::GetEnv(args[0].text, n == 2),
        ),
        BuiltinKind::Envs => res == Ok::<Step, CallError>(Step::Call(Request::AllEnvs)),
        BuiltinKind::Platform => res == Ok::<Step, CallError>(Step::Call(Request::PlatformInfo)),
        BuiltinKind::CreateArray => res == (match args[0].payload {
            Payload::Int(i) => Ok(
                Step::Done(
                    Produced::Repeated(
                        i as usize,
                        Box::new(
                            if n == 1 {
                                Produced::Noval
                            } else {
                                Produced::Argument(1)
                            },
                        ),
                    ),
                ),
            ),
            _ => Err(CallError::WrongType(k, args[0].type_label)),
        }),
        BuiltinKind::TypeOf => res == Ok::<Step, CallError>(
            Step::Done(Produced::Str(args[0].type_label)),
        ),
        BuiltinKind::String => res == Ok::<Step, CallError>(
            match args[0].payload {
                Payload::ByteBuffer => Step::Call(Request::BufferToString),
                _ => Step::Done(Produced::Str(args[0].text)),
            },
        ),
        BuiltinKind::Int => res == int_outcome(args[0]),
        BuiltinKind::Byte => res == byte_outcome(args[0]),
        BuiltinKind::Float => res == float_outcome(args[0]),
        BuiltinKind::Bytes => bytes_outcome(args, res),
        BuiltinKind::Char => res == (match args[0].payload {
            Payload::Byte(b) => Ok(Step::Done(Produced::Char(b as char))),
            _ => Err(CallError::WrongType(k, args[0].type_label)),
        }),
        BuiltinKind::Exec => res == Ok::<Step, CallError>(Step::Call(Request::RunProcess(false))),
        BuiltinKind::ExecRaw => res == Ok::<Step, CallError>(Step::Call(Request::RunProcess(true))),
        BuiltinKind::Iter => res == Ok::<Step, CallError>(Step::Call(Request::MakeIter)),
        BuiltinKind::HasNext => res == iterator_outcome(k, args[0], Request::HasNext),
        BuiltinKind::Next => res == iterator_outcome(k, args[0], Request::Next),
        BuiltinKind::EndMark => res == Err::<Step, CallError>(CallError::InvalidBuiltin),
    }
}

/// What a call of builtin `k` on `args` comes to.
pub open spec fn exec_outcome(k: BuiltinKind, args: Seq<Arg>, res: Result<Step, CallError>) -> bool {
    if !count_accepted(k, args.len() as int) {
        res == Err::<Step, CallError>(CallError::ArgCount(k, args.len() as usize))
    } else {
        call_outcome(k, args, res)
    }
}

/// Whether a builtin takes this number of arguments.
fn accepts_count(k: BuiltinKind, n: usize) -> (res: bool)
    ensures
        res == count_accepted(k, n as int),
{
    match k {
        BuiltinKind::Print | BuiltinKind::Env | BuiltinKind::Bytes | BuiltinKind::Char
        | BuiltinKind::Exec | BuiltinKind::ExecRaw => n >= 1,
        BuiltinKind::Println | BuiltinKind::EndMark => true,
        BuiltinKind::Builtins | BuiltinKind::TimeUnix | BuiltinKind::Args | BuiltinKind::Envs
        | BuiltinKind::Platform => n == 0,
        BuiltinKind::CreateArray => 1 <= n && n <= 2,
        _ => n == 1,
    }
}

/// Whether the call asks for big-endian bytes: exactly two arguments, the
/// second a `bool` that is true.
pub fn repr_is_big_endian(args: &Vec<Arg>) -> (res: bool)
    ensures
        res == big_endian_requested(args@),
{
    if args.len() == 2 && args[1].type_label == String::from_str("bool") && args[1].truthy {
        true
    } else {
        false
    }
}

/// Whether an argument's type is `string`.
fn string_typed(a: &Arg) -> (res: bool)
    ensures
        res == is_string_typed(*a),
{
    a.type_label == String::from_str("string")
}

/// The texts of the arguments joined with spaces, and a line break after
/// them when `newline` is set.
fn print_text(args: &Vec<Arg>, newline: bool) -> (res: String)
    ensures
        res@ == joined(arg_texts(args@)) + (if newline {
            seq!['\n']
        } else {
            Seq::empty()
        }),
{
    let ghost texts = arg_texts(args@);
    let length = args.len();
    let mut fmt_string = String::new();
    proof {
        reveal_strlit(" ");
        reveal_strlit("\n");
    }
    if length > 0 {
        let mut idx: usize = 0;
        while idx < length - 1
            invariant
                length == args.len(),
                length > 0,
                texts == arg_texts(args@),
                idx <= length - 1,
                idx == 0 ==> fmt_string@ == Seq::<char>::empty(),
                idx > 0 ==> fmt_string@ == joined(texts.take(idx as int)) + seq![' '],
            decreases length - 1 - idx,
        {
            let ghost before = fmt_string@;
            fmt_string.append(args[idx].text.as_str());
            fmt_string.append(" ");
            proof {
                reveal_strlit(" ");
                let t = texts.take(idx as int + 1);
                assert(t.drop_last() =~= texts.take(idx as int));
                assert(t.last() == args@[idx as int].text@);
                if idx == 0 {
                    assert(joined(t) == t[0]);
                }
            }
            idx = idx + 1;
        }
        fmt_string.append(args[length - 1].text.as_str());
        proof {
            assert(texts.take(length as int) =~= texts);
            let t = texts.take(length as int);
            assert(t.drop_last() =~= texts.take(length - 1));
        }
    }
    if newline {
        fmt_string.append("\n");
    }
    fmt_string
}

/// The names of all positions of the list of builtins, as string objects.
fn builtin_names() -> (res: Vec<Produced>)
    ensures
        lists_all_names(res@),
{
    let all_builtins = BuiltinKind::get_names();
    let mut strings: Vec<Produced> = Vec::new();
    let mut idx: usize = 0;
    while idx < all_builtins.len()
        invariant
            all_builtins.len() == builtin_count() + 1,
            forall|i: int|
                0 <= i < all_builtins.len() ==> #[trigger] all_builtins[i]@ == spec_name(kind_at(i)),
            idx <= all_builtins.len(),
            strings.len() == idx,
            forall|i: int|
                0 <= i < idx ==> (#[trigger] strings@[i] matches Produced::Str(s) && s@ == spec_name(
                    kind_at(i),
                )),
        decreases all_builtins.len() - idx,
    {
        strings.push(Produced::Str(all_builtins[idx].clone()));
        idx = idx + 1;
    }
    strings
}

/// `int()` on one argument.
fn int_call(a: &Arg) -> (res: Result<Step, CallError>)
    ensures
        res == int_outcome(*a),
{
    match &a.payload {
        Payload::Int(i) => Ok(Step::Done(Produced::Int(*i))),
        Payload::Str(st) => match parse_i64(st.as_str()) {
            Some(v) => Ok(Step::Done(Produced::Int(v))),
            None => Err(CallError::NotNumber(st.clone())),
        },
        Payload::Byte(byte) => Ok(Step::Done(Produced::Int(*byte as i64))),
        Payload::Float(f) => Ok(Step::Call(Request::FloatToInt(*f))),
        Payload::ByteBuffer => Ok(Step::Call(Request::BufferToInt)),
        Payload::Char(c) => Ok(Step::Done(Produced::Int(*c as i64))),
        Payload::Bool(b) => {
            let i_for_b: i64 = if *b {
                1
            } else {
                0
            };
            Ok(Step::Done(Produced::Int(i_for_b)))
        },
        _ => Err(CallError::WrongType(BuiltinKind::Int, a.type_label.clone())),
    }
}

/// `byte()` on one argument.
fn byte_call(a: &Arg) -> (res: Result<Step, CallError>)
    ensures
        res == byte_outcome(*a),
{
    match &a.payload {
        Payload::Byte(byte) => Ok(Step::Done(Produced::Byte(*byte))),
        Payload::Int(i) => {
            if *i < 0 || *i > 255 {
                Err(CallError::ByteRange(*i))
            } else {
                Ok(Step::Done(Produced::Byte(*i as u8)))
            }
        },
        Payload::Char(c) => Ok(Step::Done(Produced::Byte(*c as u8))),
        Payload::Bool(b) => Ok(Step::Done(Produced::Byte(if *b { 1u8 } else { 0u8 }))),
        _ => Err(CallError::WrongType(BuiltinKind::Byte, a.type_label.clone())),
    }
}

/// `float()` on one argument.
fn float_call(a: &Arg) -> (res: Result<Step, CallError>)
    ensures
        res == float_outcome(*a),
{
    match &a.payload {
        Payload::Int(i) => Ok(Step::Call(Request::IntToFloat(*i))),
        Payload::Str(st) => Ok(Step::Call(Request::StrToFloat(st.clone()))),
        Payload::Float(f) => Ok(Step::Done(Produced::Float(*f))),
        Payload::Char(c) => Ok(Step::Call(Request::IntToFloat(*c as i64))),
        Payload::Bool(b) => {
            let f_for_b: u64 = if *b {
                0x3FF0_0000_0000_0000u64
            } else {
                0
            };
            Ok(Step::Done(Produced::Float(f_for_b)))
        },
        Payload::ByteBuffer => Ok(Step::Call(Request::BufferToFloat)),
        _ => Err(CallError::WrongType(BuiltinKind::Float, a.type_label.clone())),
    }
}

/// `bytes()` on its arguments.
fn bytes_call(args: &Vec<Arg>) -> (res: Result<Step, CallError>)
    requires
        args.len() >= 1,
    ensures
        bytes_outcome(args@, res),
{
    match &args[0].payload {
        Payload::Int(i) => {
            let is_bg = repr_is_big_endian(args);
            Ok(Step::Call(Request::IntToBytes(*i, !is_bg)))
        },
        Payload::Float(f) => {
            let is_bg = repr_is_big_endian(args);
            Ok(Step::Call(Request::FloatToBytes(*f, !is_bg)))
        },
        Payload::Char(c) => {
            let mut raw: Vec<u8> = Vec::new();
            raw.push(*c as u8);
            Ok(Step::Done(Produced::Buffer(raw)))
        },
        Payload::Str(st) => Ok(Step::Call(Request::StrToBytes(st.clone()))),
        _ => Err(CallError::WrongType(BuiltinKind::Bytes, args[0].type_label.clone())),
    }
}

/// `len()` on one argument.
fn length_call(a: &Arg) -> (res: Result<Step, CallError>)
    ensures
        res == length_outcome(*a),
{
    match &a.payload {
        Payload::Str(st) => Ok(Step::Done(Produced::Int(st.as_str().len() as i64))),
        Payload::Array(n) => Ok(Step::Done(Produced::Int(*n as i64))),
        Payload::HashTable(n) => Ok(Step::Done(Produced::Int(*n as i64))),
        _ => Err(CallError::WrongType(BuiltinKind::Length, a.type_label.clone())),
    }
}

impl BuiltinKind {
    /// Calls this builtin on its arguments. The call either fails, gives an
    /// object, or names the work that must be done outside the library to
    /// finish it (see the `finish_` functions for what follows that work).
    pub fn exec(&self, args: &Vec<Arg>) -> (res: Result<Step, CallError>)
        ensures
            exec_outcome(*self, args@, res),
    {
        let n = args.len();
        if !accepts_count(*self, n) {
            return Err(CallError::ArgCount(*self, n));
        }
        match self {
            BuiltinKind::Print => Ok(Step::Call(Request::Print(print_text(args, false)))),
            BuiltinKind::Println => Ok(Step::Call(Request::Print(print_text(args, true)))),
            BuiltinKind::Truthy | BuiltinKind::Bool => Ok(Step::Done(Produced::Bool(args[0].truthy))),
            BuiltinKind::Length => length_call(&args[0]),
            BuiltinKind::Builtins => Ok(Step::Done(Produced::Array(builtin_names()))),
            BuiltinKind::TimeUnix => Ok(Step::Call(Request::UnixTime)),
            BuiltinKind::Eval => {
                if string_typed(&args[0]) {
                    Ok(Step::Call(Request::Eval(args[0].text.clone())))
                } else {
                    Err(CallError::WrongType(*self, args[0].type_label.clone()))
                }
            },
            BuiltinKind::Disasm => {
                if string_typed(&args[0]) {
                    Ok(Step::Call(Request::Disasm(args[0].text.clone())))
                } else {
                    Err(CallError::WrongType(*self, args[0].type_label.clone()))
                }
            },
            BuiltinKind::Args => Ok(Step::Call(Request::ProgramArgs)),
            BuiltinKind::Exit => match &args[0].payload {
                Payload::Int(exit_code) => Ok(Step::Call(Request::Exit(*exit_code as i32))),
                _ => Err(CallError::WrongType(*self, args[0].type_label.clone())),
            },
            BuiltinKind::Env => {
                if string_typed(&args[0]) {
                    Ok(Step::Call(Request::GetEnv(args[0].text.clone(), n == 2)))
                } else {
                    Err(CallError::WrongType(*self, args[0].type_label.clone()))
                }
            },
            BuiltinKind::Envs => Ok(Step::Call(Request::AllEnvs)),
            BuiltinKind::Platform => Ok(Step::Call(Request::PlatformInfo)),
            BuiltinKind::CreateArray => match &args[0].payload {
                Payload::Int(i) => {
                    let to_fill = if n == 1 {
                        Produced::Noval
                    } else {
                        Produced::Argument(1)
                    };
                    Ok(Step::Done(Produced::Repeated(*i as usize, Box::new(to_fill))))
                },
                _ => Err(CallError::WrongType(*self, args[0].type_label.clone())),
            },
            BuiltinKind::TypeOf => Ok(Step::Done(Produced::Str(args[0].type_label.clone()))),
            BuiltinKind::String => match &args[0].payload {
                Payload::ByteBuffer => Ok(Step::Call(Request::BufferToString)),
                _ => Ok(Step::Done(Produced::Str(args[0].text.clone()))),
            },
            BuiltinKind::Int => int_call(&args[0]),
            BuiltinKind::Byte => byte_call(&args[0]),
            BuiltinKind::Float => float_call(&args[0]),
            BuiltinKind::Bytes => bytes_call(args),
            BuiltinKind::Char => match &args[0].payload {
                Payload::Byte(b) => Ok(Step::Done(Produced::Char(*b as char))),
                _ => Err(CallError::WrongType(*self, args[0].type_label.clone())),
            },
            BuiltinKind::Exec => Ok(Step::Call(Request::RunProcess(false))),
            BuiltinKind::ExecRaw => Ok(Step::Call(Request::RunProcess(true))),
            BuiltinKind::Iter => Ok(Step::Call(Request::MakeIter)),
            BuiltinKind::HasNext => match &args[0].payload {
                Payload::Iter => Ok(Step::Call(Request::HasNext)),
                _ => Err(CallError::WrongType(*self, args[0].type_label.clone())),
            },
            BuiltinKind::Next => match &args[0].payload {
                Payload::Iter => Ok(Step::Call(Request::Next)),
                _ => Err(CallError::WrongType(*self, args[0].type_label.clone())),
            },
            BuiltinKind::EndMark => Err(CallError::InvalidBuiltin),
        }
    }
}

} // verus!
