use vstd::prelude::*;

use crate::dispatch::{count_accepted, exec_outcome};
use crate::error::CallError;
use crate::kind::BuiltinKind;
use crate::object::{Arg, Payload, Produced, Request, Step};

verus! {

/// A call fails for its number of arguments exactly when the builtin does
/// not take that many; every other outcome, failure or not, comes after
/// the count was accepted.
pub proof fn law_arity(k: BuiltinKind, args: Seq<Arg>, res: Result<Step, CallError>)
    requires
        args.len() <= usize::MAX,
        exec_outcome(k, args, res),
    ensures
        (res matches Err(CallError::ArgCount(kk, n)) && kk == k && n == args.len()) <==> !count_accepted(
            k,
            args.len() as int,
        ),
        (res matches Err(CallError::ArgCount(_, _))) <==> !count_accepted(k, args.len() as int),
{
}

/// `println()` prints what `print()` prints on the same arguments, and a
/// line break after it.
pub proof fn law_println_extends_print(args: Seq<Arg>, printed: Result<Step, CallError>, line: Result<Step, CallError>)
    requires
        args.len() >= 1,
        exec_outcome(BuiltinKind::Print, args, printed),
        exec_outcome(BuiltinKind::Println, args, line),
    ensures
        printed matches Ok(Step::Call(Request::Print(p))) && (line matches Ok(
            Step::Call(Request::Print(l)),
        ) && l@ == p@ + seq!['\n']),
{
}

/// `int()` of a byte, handed to `byte()`, gives the same byte back.
pub proof fn law_byte_int_byte(a: Arg, b: Arg, to_int: Result<Step, CallError>, back: Result<Step, CallError>)
    requires
        a.payload is Byte,
        exec_outcome(BuiltinKind::Int, seq![a], to_int),
        to_int matches Ok(Step::Done(Produced::Int(i))) && b.payload == Payload::Int(i),
        exec_outcome(BuiltinKind::Byte, seq![b], back),
    ensures
        back == Ok::<Step, CallError>(Step::Done(Produced::Byte(a.payload->Byte_0))),
{
}

/// `byte()` of an integer from 0 to 255, handed to `int()`, gives the same
/// integer back.
pub proof fn law_int_byte_int(a: Arg, b: Arg, to_byte: Result<Step, CallError>, back: Result<Step, CallError>)
    requires
        a.payload matches Payload::Int(i) && 0 <= i <= 255,
        exec_outcome(BuiltinKind::Byte, seq![a], to_byte),
        to_byte matches Ok(Step::Done(Produced::Byte(x))) && b.payload == Payload::Byte(x),
        exec_outcome(BuiltinKind::Int, seq![b], back),
    ensures
        back == Ok::<Step, CallError>(Step::Done(Produced::Int(a.payload->Int_0))),
{
}

/// `char()` of a byte, handed to `byte()`, gives the same byte back.
pub proof fn law_byte_char_byte(a: Arg, b: Arg, to_char: Result<Step, CallError>, back: Result<Step, CallError>)
    requires
        a.payload is Byte,
        exec_outcome(BuiltinKind::Char, seq![a], to_char),
        to_char matches Ok(Step::Done(Produced::Char(c))) && b.payload == Payload::Char(c),
        exec_outcome(BuiltinKind::Byte, seq![b], back),
    ensures
        back == Ok::<Step, CallError>(Step::Done(Produced::Byte(a.payload->Byte_0))),
{
}

/// A call fails for an argument's type only under a builtin that reads a
/// typed argument, and names that builtin.
pub proof fn law_wrong_type_kinds(k: BuiltinKind, args: Seq<Arg>, res: Result<Step, CallError>)
    requires
        exec_outcome(k, args, res),
    ensures
        res matches Err(CallError::WrongType(kk, _)) ==> kk == k && (k == BuiltinKind::Length
            || k == BuiltinKind::Eval || k == BuiltinKind::Disasm || k == BuiltinKind::Exit
            || k == BuiltinKind::Env || k == BuiltinKind::CreateArray || k == BuiltinKind::Int
            || k == BuiltinKind::Byte || k == BuiltinKind::Float || k == BuiltinKind::Bytes
            || k == BuiltinKind::Char || k == BuiltinKind::HasNext || k == BuiltinKind::Next),
{
}

/// `print()` of one argument prints exactly that argument's text;
/// `println()` of it prints the text and a line break; `println()` of
/// nothing prints a line break alone.
pub proof fn law_print_one(
    a: Arg,
    printed: Result<Step, CallError>,
    line: Result<Step, CallError>,
    blank: Result<Step, CallError>,
)
    requires
        exec_outcome(BuiltinKind::Print, seq![a], printed),
        exec_outcome(BuiltinKind::Println, seq![a], line),
        exec_outcome(BuiltinKind::Println, Seq::<Arg>::empty(), blank),
    ensures
        printed matches Ok(Step::Call(Request::Print(t))) && t@ == a.text@,
        line matches Ok(Step::Call(Request::Print(t))) && t@ == a.text@ + seq!['\n'],
        blank matches Ok(Step::Call(Request::Print(t))) && t@ == seq!['\n'],
{
    assert(crate::dispatch::arg_texts(seq![a]) =~= seq![a.text@]);
}

/// Printing one more argument prints what the others print, a single
/// space, and the last argument's text.
pub proof fn law_print_one_more(
    args: Seq<Arg>,
    all: Result<Step, CallError>,
    init: Result<Step, CallError>,
)
    requires
        args.len() >= 2,
        exec_outcome(BuiltinKind::Print, args, all),
        exec_outcome(BuiltinKind::Print, args.drop_last(), init),
    ensures
        all matches Ok(Step::Call(Request::Print(t))) && (init matches Ok(
            Step::Call(Request::Print(u)),
        ) && t@ == u@ + seq![' '] + args.last().text@),
{
    assert(crate::dispatch::arg_texts(args).drop_last() =~= crate::dispatch::arg_texts(
        args.drop_last(),
    ));
}

/// `int()` always comes to an integer: an `Int`, or the rounding of a
/// float or the reading of a byte buffer as an integer. A char gives its
/// Unicode code point; a byte buffer is read as an integer, and a float is
/// rounded.
pub proof fn law_int_results(a: Arg, r: Result<Step, CallError>)
    requires
        exec_outcome(BuiltinKind::Int, seq![a], r),
    ensures
        r is Ok ==> (r matches Ok(Step::Done(Produced::Int(_))) || r matches Ok(
            Step::Call(Request::FloatToInt(_)),
        ) || r == Ok::<Step, CallError>(Step::Call(Request::BufferToInt))),
        a.payload matches Payload::Char(c) ==> (r matches Ok(Step::Done(Produced::Int(i))) && i
            as int == (c as u32) as int),
        a.payload matches Payload::Int(n) ==> r == Ok::<Step, CallError>(
            Step::Done(Produced::Int(n)),
        ),
        a.payload matches Payload::Byte(x) ==> (r matches Ok(Step::Done(Produced::Int(i))) && i
            as int == x as int),
        a.payload matches Payload::Float(f) ==> r == Ok::<Step, CallError>(
            Step::Call(Request::FloatToInt(f)),
        ),
        a.payload is ByteBuffer ==> r == Ok::<Step, CallError>(Step::Call(Request::BufferToInt)),
{
}

/// `float()` always comes to a float: a `Float`, or the conversion of an
/// integer, the parsing of a string, or the reading of a byte buffer as a
/// float. A float is kept bit for bit; a char converts its code point.
pub proof fn law_float_results(a: Arg, r: Result<Step, CallError>)
    requires
        exec_outcome(BuiltinKind::Float, seq![a], r),
    ensures
        r is Ok ==> (r matches Ok(Step::Done(Produced::Float(_))) || r matches Ok(
            Step::Call(Request::IntToFloat(_)),
        ) || r matches Ok(Step::Call(Request::StrToFloat(_))) || r == Ok::<Step, CallError>(
            Step::Call(Request::BufferToFloat),
        )),
        a.payload is ByteBuffer ==> r == Ok::<Step, CallError>(Step::Call(Request::BufferToFloat)),
        a.payload matches Payload::Float(f) ==> r == Ok::<Step, CallError>(
            Step::Done(Produced::Float(f)),
        ),
        a.payload matches Payload::Int(n) ==> r == Ok::<Step, CallError>(
            Step::Call(Request::IntToFloat(n)),
        ),
        a.payload matches Payload::Char(c) ==> (r matches Ok(Step::Call(Request::IntToFloat(i)))
            && i as int == (c as u32) as int),
        a.payload matches Payload::Str(s) ==> r == Ok::<Step, CallError>(
            Step::Call(Request::StrToFloat(s)),
        ),
{
}

/// `byte()` always comes to a byte, and `char()` to a char. An integer
/// gives the byte of the same value when it lies in 0..=255 and fails with
/// it otherwise; a char gives its code point modulo 256; a byte is kept; and
/// `char()` of a byte is the character with that code point.
pub proof fn law_byte_results(a: Arg, r: Result<Step, CallError>, c: Result<Step, CallError>)
    requires
        exec_outcome(BuiltinKind::Byte, seq![a], r),
        exec_outcome(BuiltinKind::Char, seq![a], c),
    ensures
        r is Ok ==> r matches Ok(Step::Done(Produced::Byte(_))),
        c is Ok ==> c matches Ok(Step::Done(Produced::Char(_))),
        a.payload matches Payload::Int(n) ==> (if 0 <= n <= 255 {
            r matches Ok(Step::Done(Produced::Byte(x))) && x as int == n as int
        } else {
            r == Err::<Step, CallError>(CallError::ByteRange(n))
        }),
        a.payload matches Payload::Byte(x) ==> r == Ok::<Step, CallError>(
            Step::Done(Produced::Byte(x)),
        ),
        a.payload matches Payload::Char(ch) ==> (r matches Ok(Step::Done(Produced::Byte(x))) && x
            as int == ((ch as u32) as int) % 256),
        a.payload matches Payload::Byte(x) ==> (c matches Ok(Step::Done(Produced::Char(ch))) && (
        ch as u32) as int == x as int),
{
    if let Payload::Char(ch) = a.payload {
        let v = ch as u32;
        assert((v as u8) as int == (v as int) % 256) by (bit_vector);
    }
}

/// A bool counts as one when true and zero when false, whether it becomes
/// an integer, a byte or a float (whose bits are those of 1.0 or 0.0), and
/// it becomes those numbers in agreement with each other.
pub proof fn law_bool_numbers(
    a: Arg,
    as_int: Result<Step, CallError>,
    as_byte: Result<Step, CallError>,
    as_float: Result<Step, CallError>,
)
    requires
        a.payload is Bool,
        exec_outcome(BuiltinKind::Int, seq![a], as_int),
        exec_outcome(BuiltinKind::Byte, seq![a], as_byte),
        exec_outcome(BuiltinKind::Float, seq![a], as_float),
    ensures
        a.payload->Bool_0 ==> (as_int == Ok::<Step, CallError>(Step::Done(Produced::Int(1)))
            && as_byte == Ok::<Step, CallError>(Step::Done(Produced::Byte(1))) && as_float == Ok::<
            Step,
            CallError,
        >(Step::Done(Produced::Float(0x3FF0_0000_0000_0000u64)))),
        !a.payload->Bool_0 ==> (as_int == Ok::<Step, CallError>(Step::Done(Produced::Int(0)))
            && as_byte == Ok::<Step, CallError>(Step::Done(Produced::Byte(0))) && as_float == Ok::<
            Step,
            CallError,
        >(Step::Done(Produced::Float(0)))),
{
}

/// `string()` reads a byte buffer as a string, and gives any other object's
/// text; `type_of()` gives the object's type name; `is_true()` and `bool()`
/// give its truth.
pub proof fn law_text_results(
    a: Arg,
    s: Result<Step, CallError>,
    t: Result<Step, CallError>,
    truthy: Result<Step, CallError>,
    b: Result<Step, CallError>,
)
    requires
        exec_outcome(BuiltinKind::String, seq![a], s),
        exec_outcome(BuiltinKind::TypeOf, seq![a], t),
        exec_outcome(BuiltinKind::Truthy, seq![a], truthy),
        exec_outcome(BuiltinKind::Bool, seq![a], b),
    ensures
        a.payload is ByteBuffer ==> s == Ok::<Step, CallError>(Step::Call(Request::BufferToString)),
        !(a.payload is ByteBuffer) ==> s == Ok::<Step, CallError>(Step::Done(Produced::Str(a.text))),
        t == Ok::<Step, CallError>(Step::Done(Produced::Str(a.type_label))),
        truthy == Ok::<Step, CallError>(Step::Done(Produced::Bool(a.truthy))),
        b == truthy,
{
}

/// `len()` counts an array's elements and a hash table's entries.
pub proof fn law_length_of_collections(a: Arg, r: Result<Step, CallError>)
    requires
        exec_outcome(BuiltinKind::Length, seq![a], r),
    ensures
        a.payload matches Payload::Array(n) ==> (n <= i64::MAX ==> (r matches Ok(
            Step::Done(Produced::Int(i)),
        ) && i as int == n as int)),
        a.payload matches Payload::HashTable(n) ==> (n <= i64::MAX ==> (r matches Ok(
            Step::Done(Produced::Int(i)),
        ) && i as int == n as int)),
        r is Ok ==> r matches Ok(Step::Done(Produced::Int(_))),
{
}

/// `env()` of a string looks up that string's text, and asks for the
/// call's default (its second argument) exactly when the call has two
/// arguments.
pub proof fn law_env(args: Seq<Arg>, r: Result<Step, CallError>)
    requires
        args.len() >= 1,
        args[0].type_label@ == "string"@,
        exec_outcome(BuiltinKind::Env, args, r),
    ensures
        r matches Ok(Step::Call(Request::GetEnv(key, with_default))) && key == args[0].text && (
        with_default <==> args.len() == 2),
{
}

/// `exit()` ends the process with the integer's value when it fits an
/// `i32`.
pub proof fn law_exit(a: Arg, r: Result<Step, CallError>)
    requires
        a.payload is Int,
        exec_outcome(BuiltinKind::Exit, seq![a], r),
    ensures
        r matches Ok(Step::Call(Request::Exit(code))) && (i32::MIN <= a.payload->Int_0 <= i32::MAX
            ==> code as int == a.payload->Int_0 as int),
{
}

/// `create_array(n)` makes `n` copies of noval, and `create_array(n, x)`
/// makes `n` copies of `x` (the count is `n` wherever `n` fits a `usize`).
pub proof fn law_create_array(args: Seq<Arg>, r: Result<Step, CallError>)
    requires
        1 <= args.len() <= 2,
        args[0].payload is Int,
        args[0].payload->Int_0 >= 0,
        exec_outcome(BuiltinKind::CreateArray, args, r),
    ensures
        r matches Ok(Step::Done(Produced::Repeated(count, item))) && (args[0].payload->Int_0
            <= usize::MAX ==> count as int == args[0].payload->Int_0 as int) && (args.len() == 1 ==> *item == Produced::Noval) && (
        args.len() == 2 ==> *item == Produced::Argument(1)),
{
}

/// `bytes()` encodes little-endian unless the call's second argument is a
/// true `bool`; a char becomes the one byte of its code point modulo 256,
/// and a string its encoding.
pub proof fn law_bytes(args: Seq<Arg>, r: Result<Step, CallError>)
    requires
        args.len() >= 1,
        exec_outcome(BuiltinKind::Bytes, args, r),
    ensures
        args[0].payload matches Payload::Int(n) ==> (r matches Ok(
            Step::Call(Request::IntToBytes(m, little)),
        ) && m == n && (!little <==> (args.len() == 2 && args[1].type_label@ == "bool"@
            && args[1].truthy))),
        args[0].payload matches Payload::Float(f) ==> (r matches Ok(
            Step::Call(Request::FloatToBytes(g, little)),
        ) && g == f && (!little <==> (args.len() == 2 && args[1].type_label@ == "bool"@
            && args[1].truthy))),
        args[0].payload matches Payload::Char(c) ==> (r matches Ok(
            Step::Done(Produced::Buffer(v)),
        ) && v@.len() == 1 && v@[0] as int == ((c as u32) as int) % 256),
        args[0].payload matches Payload::Str(t) ==> r == Ok::<Step, CallError>(
            Step::Call(Request::StrToBytes(t)),
        ),
{
    if let Payload::Char(c) = args[0].payload {
        let v = c as u32;
        assert((v as u8) as int == (v as int) % 256) by (bit_vector);
    }
}

/// `len()` of a string counts the bytes of its UTF-8 encoding, which for a
/// string of ASCII characters is its number of characters.
pub proof fn law_length_of_ascii(a: Arg, r: Result<Step, CallError>)
    requires
        exec_outcome(BuiltinKind::Length, seq![a], r),
    ensures
        a.payload matches Payload::Str(t) ==> (vstd::utf8::is_ascii_chars(t@) && t@.len()
            <= i64::MAX && t@.len() <= usize::MAX ==> (r matches Ok(Step::Done(Produced::Int(i))) && i as int == t@.len())),
{
    if let Payload::Str(t) = a.payload {
        if vstd::utf8::is_ascii_chars(t@) {
            vstd::utf8::is_ascii_chars_encode_utf8(t@);
        }
    }
}

} // verus!
