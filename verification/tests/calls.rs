use boson::dispatch::repr_is_big_endian;
use boson::error::CallError;
use boson::finish::{finish_disasm, finish_env, finish_envs, finish_eval, finish_next, finish_print, finish_program_args, finish_platform, finish_process, finish_unix_time};
use boson::kind::BuiltinKind;
use boson::object::{Arg, Payload, Produced, Request, Step};

fn arg(payload: Payload, type_label: &str, text: &str, truthy: bool) -> Arg {
    Arg { payload, type_label: type_label.to_string(), text: text.to_string(), truthy }
}

fn int_arg(i: i64) -> Arg {
    arg(Payload::Int(i), "int", &i.to_string(), i != 0)
}

fn string(s: &str) -> Arg {
    arg(Payload::Str(s.to_string()), "string", s, !s.is_empty())
}

fn boolean(b: bool) -> Arg {
    arg(Payload::Bool(b), "bool", if b { "true" } else { "false" }, b)
}

fn byte(b: u8) -> Arg {
    arg(Payload::Byte(b), "byte", &b.to_string(), b != 0)
}

fn character(c: char) -> Arg {
    arg(Payload::Char(c), "char", &c.to_string(), true)
}

fn float(f: f64) -> Arg {
    arg(Payload::Float(f.to_bits()), "float", &f.to_string(), f != 0.0)
}

fn call(kind: BuiltinKind, args: Vec<Arg>) -> Result<Step, CallError> {
    kind.exec(&args)
}

fn message(kind: BuiltinKind, args: Vec<Arg>) -> String {
    call(kind, args).unwrap_err().message()
}

#[test]
fn print_joins_texts_with_spaces() {
    assert_eq!(
        call(BuiltinKind::Print, vec![string("a"), int_arg(5), boolean(true)]),
        Ok(Step::Call(Request::Print("a 5 true".to_string())))
    );
    assert_eq!(message(BuiltinKind::Print, vec![]), "print() takes atleast one argument, 0 provided");
}

#[test]
fn println_adds_line_break() {
    assert_eq!(call(BuiltinKind::Println, vec![]), Ok(Step::Call(Request::Print("\n".to_string()))));
    assert_eq!(
        call(BuiltinKind::Println, vec![string("x"), string("y")]),
        Ok(Step::Call(Request::Print("x y\n".to_string())))
    );
}

#[test]
fn truthy_and_bool_read_truth() {
    assert_eq!(call(BuiltinKind::Truthy, vec![int_arg(0)]), Ok(Step::Done(Produced::Bool(false))));
    assert_eq!(call(BuiltinKind::Bool, vec![string("x")]), Ok(Step::Done(Produced::Bool(true))));
    assert_eq!(message(BuiltinKind::Truthy, vec![]), "is_true() takes one argument, 0 provided.");
    assert_eq!(message(BuiltinKind::Bool, vec![int_arg(1), int_arg(2)]), "string() takes 1 argument, 2 provided");
}

#[test]
fn length_of_strings_arrays_tables() {
    assert_eq!(call(BuiltinKind::Length, vec![string("héllo")]), Ok(Step::Done(Produced::Int(6))));
    assert_eq!(
        call(BuiltinKind::Length, vec![arg(Payload::Array(4), "array", "[...]", true)]),
        Ok(Step::Done(Produced::Int(4)))
    );
    assert_eq!(
        call(BuiltinKind::Length, vec![arg(Payload::HashTable(2), "hashtable", "{...}", true)]),
        Ok(Step::Done(Produced::Int(2)))
    );
    assert_eq!(message(BuiltinKind::Length, vec![int_arg(3)]), "len() cannot be applied on int");
    assert_eq!(message(BuiltinKind::Length, vec![int_arg(3), int_arg(4)]), "len() takes one argument, 2 provided");
}

#[test]
fn builtins_lists_all_names() {
    match call(BuiltinKind::Builtins, vec![]) {
        Ok(Step::Done(Produced::Array(v))) => {
            assert_eq!(v.len(), 28);
            assert_eq!(v[0], Produced::Str("print".to_string()));
            assert_eq!(v[27], Produced::Str("undef".to_string()));
        }
        other => panic!("unexpected {:?}", other),
    }
    assert_eq!(message(BuiltinKind::Builtins, vec![int_arg(1)]), "builtins() takes zero arguments, 1 provided");
}

#[test]
fn eval_and_disasm_need_strings() {
    assert_eq!(call(BuiltinKind::Eval, vec![string("1 + 2")]), Ok(Step::Call(Request::Eval("1 + 2".to_string()))));
    assert_eq!(call(BuiltinKind::Disasm, vec![string("x")]), Ok(Step::Call(Request::Disasm("x".to_string()))));
    assert_eq!(message(BuiltinKind::Eval, vec![int_arg(1)]), "eval() takes string as argument, int provided");
    assert_eq!(message(BuiltinKind::Disasm, vec![int_arg(1)]), "eval() takes string as argument, int provided");
    assert_eq!(message(BuiltinKind::Disasm, vec![]), "disasm() takes 1 argument, 0 provided");
    assert_eq!(message(BuiltinKind::Eval, vec![]), "eval() takes one argument, 0 provided");
}

#[test]
fn platform_requests() {
    assert_eq!(call(BuiltinKind::TimeUnix, vec![]), Ok(Step::Call(Request::UnixTime)));
    assert_eq!(call(BuiltinKind::Args, vec![]), Ok(Step::Call(Request::ProgramArgs)));
    assert_eq!(call(BuiltinKind::Envs, vec![]), Ok(Step::Call(Request::AllEnvs)));
    assert_eq!(call(BuiltinKind::Platform, vec![]), Ok(Step::Call(Request::PlatformInfo)));
    assert_eq!(message(BuiltinKind::TimeUnix, vec![int_arg(1)]), "unix_time() takes zero arguments, 1 provided");
    assert_eq!(message(BuiltinKind::Args, vec![int_arg(1)]), "args() takes zero arguments, 1 provided");
    assert_eq!(message(BuiltinKind::Envs, vec![int_arg(1), int_arg(1)]), "envs() takes zero arguments, 2 provided");
    assert_eq!(message(BuiltinKind::Platform, vec![int_arg(1)]), "arch() takes zero arguments, 1 provided");
}

#[test]
fn exit_takes_an_int() {
    assert_eq!(call(BuiltinKind::Exit, vec![int_arg(3)]), Ok(Step::Call(Request::Exit(3))));
    assert_eq!(call(BuiltinKind::Exit, vec![int_arg(4294967298)]), Ok(Step::Call(Request::Exit(2))));
    assert_eq!(message(BuiltinKind::Exit, vec![string("x")]), "exit() takes int as an argument, string provided");
    assert_eq!(message(BuiltinKind::Exit, vec![]), "exit() takes 1 argument, 0 provided");
}

#[test]
fn env_lookup_and_default() {
    assert_eq!(call(BuiltinKind::Env, vec![string("HOME")]), Ok(Step::Call(Request::GetEnv("HOME".to_string(), false))));
    assert_eq!(
        call(BuiltinKind::Env, vec![string("HOME"), int_arg(1)]),
        Ok(Step::Call(Request::GetEnv("HOME".to_string(), true)))
    );
    assert_eq!(
        call(BuiltinKind::Env, vec![string("HOME"), int_arg(1), int_arg(2)]),
        Ok(Step::Call(Request::GetEnv("HOME".to_string(), false)))
    );
    assert_eq!(message(BuiltinKind::Env, vec![]), "get_env() takes atleast one argument, 0 provided");
    assert_eq!(message(BuiltinKind::Env, vec![int_arg(1)]), "env() takes string as first argument, int provided");
    assert_eq!(finish_env(Some("/root".to_string()), true), Produced::Str("/root".to_string()));
    assert_eq!(finish_env(None, true), Produced::Argument(1));
    assert_eq!(finish_env(None, false), Produced::Noval);
}

#[test]
fn create_array_fills() {
    assert_eq!(
        call(BuiltinKind::CreateArray, vec![int_arg(3)]),
        Ok(Step::Done(Produced::Repeated(3, Box::new(Produced::Noval))))
    );
    assert_eq!(
        call(BuiltinKind::CreateArray, vec![int_arg(2), string("x")]),
        Ok(Step::Done(Produced::Repeated(2, Box::new(Produced::Argument(1)))))
    );
    assert_eq!(message(BuiltinKind::CreateArray, vec![]), "create_array() takes one or two arguments, provided 0.");
    assert_eq!(
        message(BuiltinKind::CreateArray, vec![int_arg(1), int_arg(1), int_arg(1)]),
        "create_array() takes one or two arguments, provided 3."
    );
    assert_eq!(
        message(BuiltinKind::CreateArray, vec![string("x")]),
        "create_array() expects int as first argument, provided string."
    );
}

#[test]
fn type_of_and_string() {
    assert_eq!(call(BuiltinKind::TypeOf, vec![int_arg(1)]), Ok(Step::Done(Produced::Str("int".to_string()))));
    assert_eq!(call(BuiltinKind::String, vec![int_arg(12)]), Ok(Step::Done(Produced::Str("12".to_string()))));
    assert_eq!(
        call(BuiltinKind::String, vec![arg(Payload::ByteBuffer, "bytes", "", true)]),
        Ok(Step::Call(Request::BufferToString))
    );
    assert_eq!(message(BuiltinKind::TypeOf, vec![]), "type_of() takes 1 argument, 0 provided");
    assert_eq!(message(BuiltinKind::String, vec![]), "string() takes 1 argument, 0 provided");
}

#[test]
fn int_conversions() {
    assert_eq!(call(BuiltinKind::Int, vec![int_arg(-7)]), Ok(Step::Done(Produced::Int(-7))));
    assert_eq!(call(BuiltinKind::Int, vec![string("-42")]), Ok(Step::Done(Produced::Int(-42))));
    assert_eq!(call(BuiltinKind::Int, vec![byte(200)]), Ok(Step::Done(Produced::Int(200))));
    assert_eq!(call(BuiltinKind::Int, vec![character('A')]), Ok(Step::Done(Produced::Int(65))));
    assert_eq!(call(BuiltinKind::Int, vec![boolean(true)]), Ok(Step::Done(Produced::Int(1))));
    assert_eq!(call(BuiltinKind::Int, vec![boolean(false)]), Ok(Step::Done(Produced::Int(0))));
    assert_eq!(call(BuiltinKind::Int, vec![float(2.5)]), Ok(Step::Call(Request::FloatToInt(2.5f64.to_bits()))));
    assert_eq!(
        call(BuiltinKind::Int, vec![arg(Payload::ByteBuffer, "bytes", "", true)]),
        Ok(Step::Call(Request::BufferToInt))
    );
    assert_eq!(message(BuiltinKind::Int, vec![string("4x")]), "String 4x cannot be converted to integer.");
    assert_eq!(
        message(BuiltinKind::Int, vec![arg(Payload::Noval, "noval", "noval", false)]),
        "Object of type noval cannot be converted to int"
    );
}

#[test]
fn byte_conversions() {
    assert_eq!(call(BuiltinKind::Byte, vec![int_arg(255)]), Ok(Step::Done(Produced::Byte(255))));
    assert_eq!(call(BuiltinKind::Byte, vec![int_arg(0)]), Ok(Step::Done(Produced::Byte(0))));
    assert_eq!(message(BuiltinKind::Byte, vec![int_arg(256)]), "Integer 256 cannot be casted to raw");
    assert_eq!(message(BuiltinKind::Byte, vec![int_arg(-1)]), "Integer -1 cannot be casted to raw");
    assert_eq!(call(BuiltinKind::Byte, vec![character('\u{141}')]), Ok(Step::Done(Produced::Byte(0x41))));
    assert_eq!(call(BuiltinKind::Byte, vec![boolean(true)]), Ok(Step::Done(Produced::Byte(1))));
    assert_eq!(call(BuiltinKind::Byte, vec![byte(9)]), Ok(Step::Done(Produced::Byte(9))));
    assert_eq!(message(BuiltinKind::Byte, vec![string("1")]), "Object of type string cannot be converted to byte");
}

#[test]
fn float_conversions() {
    assert_eq!(call(BuiltinKind::Float, vec![int_arg(3)]), Ok(Step::Call(Request::IntToFloat(3))));
    assert_eq!(call(BuiltinKind::Float, vec![character('a')]), Ok(Step::Call(Request::IntToFloat(97))));
    assert_eq!(
        call(BuiltinKind::Float, vec![string("1.5")]),
        Ok(Step::Call(Request::StrToFloat("1.5".to_string())))
    );
    assert_eq!(
        call(BuiltinKind::Float, vec![float(-0.25)]),
        Ok(Step::Done(Produced::Float((-0.25f64).to_bits())))
    );
    assert_eq!(call(BuiltinKind::Float, vec![boolean(true)]), Ok(Step::Done(Produced::Float(1.0f64.to_bits()))));
    assert_eq!(call(BuiltinKind::Float, vec![boolean(false)]), Ok(Step::Done(Produced::Float(0.0f64.to_bits()))));
    assert_eq!(message(BuiltinKind::Float, vec![byte(1)]), "Object of type byte cannot be converted to float");
}

#[test]
fn bytes_conversions() {
    assert_eq!(call(BuiltinKind::Bytes, vec![int_arg(1)]), Ok(Step::Call(Request::IntToBytes(1, true))));
    assert_eq!(
        call(BuiltinKind::Bytes, vec![int_arg(1), boolean(true)]),
        Ok(Step::Call(Request::IntToBytes(1, false)))
    );
    assert_eq!(
        call(BuiltinKind::Bytes, vec![int_arg(1), boolean(false)]),
        Ok(Step::Call(Request::IntToBytes(1, true)))
    );
    assert_eq!(
        call(BuiltinKind::Bytes, vec![float(1.0), boolean(true)]),
        Ok(Step::Call(Request::FloatToBytes(1.0f64.to_bits(), false)))
    );
    assert_eq!(call(BuiltinKind::Bytes, vec![character('z')]), Ok(Step::Done(Produced::Buffer(vec![b'z']))));
    assert_eq!(
        call(BuiltinKind::Bytes, vec![string("ab")]),
        Ok(Step::Call(Request::StrToBytes("ab".to_string())))
    );
    assert_eq!(message(BuiltinKind::Bytes, vec![]), "bytes() takes atleast one argument, zero provided");
    assert_eq!(message(BuiltinKind::Bytes, vec![boolean(true)]), "Object of type bool cannot be converted to bytes");
    assert!(repr_is_big_endian(&vec![int_arg(1), boolean(true)]));
    assert!(!repr_is_big_endian(&vec![int_arg(1), int_arg(1)]));
    assert!(!repr_is_big_endian(&vec![int_arg(1), boolean(true), boolean(true)]));
}

#[test]
fn char_from_byte() {
    assert_eq!(call(BuiltinKind::Char, vec![byte(65)]), Ok(Step::Done(Produced::Char('A'))));
    assert_eq!(call(BuiltinKind::Char, vec![byte(233)]), Ok(Step::Done(Produced::Char('\u{e9}'))));
    assert_eq!(message(BuiltinKind::Char, vec![]), "exec() expects atleast one argument, zero provided.");
    assert_eq!(message(BuiltinKind::Char, vec![int_arg(65)]), "Object of type int cannot be converted to bytes");
}

#[test]
fn process_requests_and_results() {
    assert_eq!(call(BuiltinKind::Exec, vec![string("ls")]), Ok(Step::Call(Request::RunProcess(false))));
    assert_eq!(call(BuiltinKind::ExecRaw, vec![string("ls")]), Ok(Step::Call(Request::RunProcess(true))));
    assert_eq!(message(BuiltinKind::Exec, vec![]), "exec() expects atleast one argument, zero provided.");
    assert_eq!(message(BuiltinKind::ExecRaw, vec![]), "exec_raw() expects atleast one argument, zero provided.");
    assert_eq!(
        finish_process(false, Ok((0, b"hi\n".to_vec()))),
        Ok(Produced::Array(vec![Produced::Int(0), Produced::Str("hi\n".to_string())]))
    );
    assert_eq!(
        finish_process(true, Ok((1, vec![0xff, 0]))),
        Ok(Produced::Array(vec![Produced::Int(1), Produced::Buffer(vec![0xff, 0])]))
    );
    let bad = vec![0x61, 0xff];
    let expected = format!("{}", String::from_utf8(bad.clone()).unwrap_err());
    assert_eq!(finish_process(false, Ok((0, bad))), Err(CallError::Failed(expected)));
    assert_eq!(
        finish_process(false, Err("no such program".to_string())),
        Err(CallError::Failed("no such program".to_string()))
    );
}

#[test]
fn iterator_requests() {
    let it = arg(Payload::Iter, "iter", "iter", true);
    assert_eq!(call(BuiltinKind::Iter, vec![int_arg(1)]), Ok(Step::Call(Request::MakeIter)));
    assert_eq!(call(BuiltinKind::HasNext, vec![it.clone()]), Ok(Step::Call(Request::HasNext)));
    assert_eq!(call(BuiltinKind::Next, vec![it]), Ok(Step::Call(Request::Next)));
    assert_eq!(message(BuiltinKind::Iter, vec![]), "iter() expects one argument, 0 provided.");
    assert_eq!(message(BuiltinKind::HasNext, vec![]), "has_next() expects one argument, 0 provided.");
    assert_eq!(message(BuiltinKind::Next, vec![]), "next() expects one argument, 0 provided.");
    assert_eq!(message(BuiltinKind::Next, vec![int_arg(1)]), "has_next() can be applied only on iter, but got int");
    assert_eq!(message(BuiltinKind::HasNext, vec![int_arg(1)]), "has_next() can be applied only on iter, but got int");
    assert_eq!(finish_next(Some(5)), Ok(5));
    assert_eq!(finish_next::<i32>(None).unwrap_err().message(), "next() called on ended iterator");
}

#[test]
fn finishing_platform_work() {
    assert_eq!(finish_unix_time(Some(7)), Ok(Produced::Float(7)));
    assert_eq!(finish_unix_time(None).unwrap_err().message(), "Failed to fetch UNIX epoch time.");
    assert_eq!(finish_disasm(Some("x".to_string())), Produced::Str("x".to_string()));
    assert_eq!(finish_disasm(None), Produced::Noval);
    let info = vec!["x86_64".to_string(), "unix".to_string(), "linux".to_string()];
    assert_eq!(
        finish_platform(&info),
        Produced::Table(vec![
            ("arch".to_string(), "x86_64".to_string()),
            ("family".to_string(), "unix".to_string()),
            ("os".to_string(), "linux".to_string()),
        ])
    );
}

#[test]
fn end_mark_is_no_builtin() {
    assert_eq!(call(BuiltinKind::EndMark, vec![]), Err(CallError::InvalidBuiltin));
    assert_eq!(message(BuiltinKind::EndMark, vec![int_arg(1)]), "Trying to invoke invalid builtin");
}

#[test]
fn arity_law_on_values() {
    for i in 0..27 {
        let kind = BuiltinKind::get_by_index(i).unwrap();
        for n in 0..4 {
            let args: Vec<Arg> = (0..n).map(|_| string("s")).collect();
            let rejected = matches!(kind.exec(&args), Err(CallError::ArgCount(_, _)));
            let expected_reject = match kind {
                BuiltinKind::Print | BuiltinKind::Env | BuiltinKind::Bytes | BuiltinKind::Char
                | BuiltinKind::Exec | BuiltinKind::ExecRaw => n < 1,
                BuiltinKind::Println => false,
                BuiltinKind::Builtins | BuiltinKind::TimeUnix | BuiltinKind::Args | BuiltinKind::Envs
                | BuiltinKind::Platform => n != 0,
                BuiltinKind::CreateArray => !(1..=2).contains(&n),
                _ => n != 1,
            };
            assert_eq!(rejected, expected_reject, "{:?} with {} arguments", kind, n);
        }
    }
}

#[test]
fn round_trips_on_values() {
    for b in [0u8, 1, 65, 127, 200, 255] {
        let as_int = match call(BuiltinKind::Int, vec![byte(b)]) {
            Ok(Step::Done(Produced::Int(i))) => i,
            other => panic!("unexpected {:?}", other),
        };
        assert_eq!(call(BuiltinKind::Byte, vec![int_arg(as_int)]), Ok(Step::Done(Produced::Byte(b))));
        let as_char = match call(BuiltinKind::Char, vec![byte(b)]) {
            Ok(Step::Done(Produced::Char(c))) => c,
            other => panic!("unexpected {:?}", other),
        };
        assert_eq!(call(BuiltinKind::Byte, vec![character(as_char)]), Ok(Step::Done(Produced::Byte(b))));
    }
    let printed = call(BuiltinKind::Print, vec![string("a"), string("b")]);
    let line = call(BuiltinKind::Println, vec![string("a"), string("b")]);
    match (printed, line) {
        (Ok(Step::Call(Request::Print(p))), Ok(Step::Call(Request::Print(l)))) => assert_eq!(l, p + "\n"),
        other => panic!("unexpected {:?}", other),
    }
}

#[test]
fn eval_gives_value_or_noval() {
    assert_eq!(finish_eval(Some(Produced::Int(3)), Produced::Noval), Produced::Int(3));
    assert_eq!(finish_eval(None, Produced::Noval), Produced::Noval);
}

#[test]
fn wrong_type_only_under_typed_builtins() {
    let typed = [
        BuiltinKind::Length, BuiltinKind::Eval, BuiltinKind::Disasm, BuiltinKind::Exit,
        BuiltinKind::Env, BuiltinKind::CreateArray, BuiltinKind::Int, BuiltinKind::Byte,
        BuiltinKind::Float, BuiltinKind::Bytes, BuiltinKind::Char, BuiltinKind::HasNext,
        BuiltinKind::Next,
    ];
    let odd = arg(Payload::Other, "function", "fn", true);
    for i in 0..28 {
        let kind = if i < 27 { BuiltinKind::get_by_index(i).unwrap() } else { BuiltinKind::EndMark };
        for n in 0..3 {
            let args: Vec<Arg> = (0..n).map(|_| odd.clone()).collect();
            if let Err(CallError::WrongType(k, _)) = kind.exec(&args) {
                assert_eq!(k, kind);
                assert!(typed.contains(&kind), "{:?}", kind);
            }
        }
    }
}

#[test]
fn finishing_print_args_envs() {
    assert_eq!(finish_print(), Produced::Noval);
    assert_eq!(
        finish_program_args(vec!["prog".to_string(), "x".to_string()]),
        Produced::Array(vec![Produced::Str("prog".to_string()), Produced::Str("x".to_string())])
    );
    assert_eq!(finish_program_args(vec![]), Produced::Array(vec![]));
    let vars = vec![("A".to_string(), "1".to_string())];
    assert_eq!(finish_envs(vars.clone()), Produced::Table(vars));
}
