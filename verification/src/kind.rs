use vstd::prelude::*;

verus! {

/// The builtin functions of the interpreter, in their fixed order.
/// `EndMark` closes the list: its position is the number of builtins,
/// and it stands for no builtin.
#[derive(PartialEq, Eq, Structural, Clone, Copy, Debug)]
pub enum BuiltinKind {
    Print,
    Truthy,
    Println,
    Length,
    Builtins,
    TimeUnix,
    Eval,
    Disasm,
    Args,
    Exit,
    Env,
    Envs,
    Platform,
    String,
    Int,
    Float,
    Bool,
    Byte,
    Char,
    Iter,
    Next,
    HasNext,
    Bytes,
    TypeOf,
    CreateArray,
    Exec,
    ExecRaw,
    EndMark,
}

/// The number of builtins: the position of `EndMark`.
pub open spec fn builtin_count() -> int {
    27
}

/// The position of a kind in the list of builtins.
pub open spec fn spec_index(k: BuiltinKind) -> int {
    match k {
        BuiltinKind::Print => 0,
        BuiltinKind::Truthy => 1,
        BuiltinKind::Println => 2,
        BuiltinKind::Length => 3,
        BuiltinKind::Builtins => 4,
        BuiltinKind::TimeUnix => 5,
        BuiltinKind::Eval => 6,
        BuiltinKind::Disasm => 7,
        BuiltinKind::Args => 8,
        BuiltinKind::Exit => 9,
        BuiltinKind::Env => 10,
        BuiltinKind::Envs => 11,
        BuiltinKind::Platform => 12,
        BuiltinKind::String => 13,
        BuiltinKind::Int => 14,
        BuiltinKind::Float => 15,
        BuiltinKind::Bool => 16,
        BuiltinKind::Byte => 17,
        BuiltinKind::Char => 18,
        BuiltinKind::Iter => 19,
        BuiltinKind::Next => 20,
        BuiltinKind::HasNext => 21,
        BuiltinKind::Bytes => 22,
        BuiltinKind::TypeOf => 23,
        BuiltinKind::CreateArray => 24,
        BuiltinKind::Exec => 25,
        BuiltinKind::ExecRaw => 26,
        BuiltinKind::EndMark => 27,
    }
}

/// The kind at a position of the list; positions past the list give `EndMark`.
pub open spec fn kind_at(i: int) -> BuiltinKind {
    if i == 0 {
        BuiltinKind::Print
    }     else if i == 1 {
        BuiltinKind::Truthy
    }     else if i == 2 {
        BuiltinKind::Println
    }     else if i == 3 {
        BuiltinKind::Length
    }     else if i == 4 {
        BuiltinKind::Builtins
    }     else if i == 5 {
        BuiltinKind::TimeUnix
    }     else if i == 6 {
        BuiltinKind::Eval
    }     else if i == 7 {
        BuiltinKind::Disasm
    }     else if i == 8 {
        BuiltinKind::Args
    }     else if i == 9 {
        BuiltinKind::Exit
    }     else if i == 10 {
        BuiltinKind::Env
    }     else if i == 11 {
        BuiltinKind::Envs
    }     else if i == 12 {
        BuiltinKind::Platform
    }     else if i == 13 {
        BuiltinKind::String
    }     else if i == 14 {
        BuiltinKind::Int
    }     else if i == 15 {
        BuiltinKind::Float
    }     else if i == 16 {
        BuiltinKind::Bool
    }     else if i == 17 {
        BuiltinKind::Byte
    }     else if i == 18 {
        BuiltinKind::Char
    }     else if i == 19 {
        BuiltinKind::Iter
    }     else if i == 20 {
        BuiltinKind::Next
    }     else if i == 21 {
        BuiltinKind::HasNext
    }     else if i == 22 {
        BuiltinKind::Bytes
    }     else if i == 23 {
        BuiltinKind::TypeOf
    }     else if i == 24 {
        BuiltinKind::CreateArray
    }     else if i == 25 {
        BuiltinKind::Exec
    }     else if i == 26 {
        BuiltinKind::ExecRaw
    } else {
        BuiltinKind::EndMark
    }
}

/// The name under which a builtin is called; `EndMark` is named "undef".
pub open spec fn spec_name(k: BuiltinKind) -> Seq<char> {
    match k {
        BuiltinKind::Print => seq!['p', 'r', 'i', 'n', 't'],
        BuiltinKind::Truthy => seq!['i', 's', '_', 't', 'r', 'u', 'e'],
        BuiltinKind::Println => seq!['p', 'r', 'i', 'n', 't', 'l', 'n'],
        BuiltinKind::Length => seq!['l', 'e', 'n'],
        BuiltinKind::Builtins => seq!['b', 'u', 'i', 'l', 't', 'i', 'n', 's'],
        BuiltinKind::TimeUnix => seq!['u', 'n', 'i', 'x', '_', 't', 'i', 'm', 'e'],
        BuiltinKind::Eval => seq!['e', 'v', 'a', 'l'],
        BuiltinKind::Disasm => seq!['d', 'i', 's', 'a', 's', 'm'],
        BuiltinKind::Args => seq!['a', 'r', 'g', 's'],
        BuiltinKind::Exit => seq!['e', 'x', 'i', 't'],
        BuiltinKind::Env => seq!['e', 'n', 'v'],
        BuiltinKind::Envs => seq!['e', 'n', 'v', 's'],
        BuiltinKind::Platform => seq!['p', 'l', 'a', 't', 'f', 'o', 'r', 'm'],
        BuiltinKind::String => seq!['s', 't', 'r', 'i', 'n', 'g'],
        BuiltinKind::Int => seq!['i', 'n', 't'],
        BuiltinKind::Float => seq!['f', 'l', 'o', 'a', 't'],
        BuiltinKind::Bool => seq!['b', 'o', 'o', 'l'],
        BuiltinKind::Byte => seq!['b', 'y', 't', 'e'],
        BuiltinKind::Char => seq!['c', 'h', 'a', 'r'],
        BuiltinKind::Iter => seq!['i', 't', 'e', 'r'],
        BuiltinKind::Next => seq!['n', 'e', 'x', 't'],
        BuiltinKind::HasNext => seq!['h', 'a', 's', '_', 'n', 'e', 'x', 't'],
        BuiltinKind::Bytes => seq!['b', 'y', 't', 'e', 's'],
        BuiltinKind::TypeOf => seq!['t', 'y', 'p', 'e', '_', 'o', 'f'],
        BuiltinKind::CreateArray => seq!['c', 'r', 'e', 'a', 't', 'e', '_', 'a', 'r', 'r', 'a', 'y'],
        BuiltinKind::Exec => seq!['e', 'x', 'e', 'c'],
        BuiltinKind::ExecRaw => seq!['e', 'x', 'e', 'c', '_', 'r', 'a', 'w'],
        BuiltinKind::EndMark => seq!['u', 'n', 'd', 'e', 'f'],
    }
}

/// The kind that a name's length, first and last letter single out among
/// the names of the builtins (`EndMark` where none does).
spec fn kind_by_outline(s: Seq<char>) -> BuiltinKind {
    let (n, a, z) = (s.len(), s[0], s[s.len() - 1]);
    if n == 5 && a == 'p' && z == 't' {
        BuiltinKind::Print
    }     else if n == 7 && a == 'i' && z == 'e' {
        BuiltinKind::Truthy
    }     else if n == 7 && a == 'p' && z == 'n' {
        BuiltinKind::Println
    }     else if n == 3 && a == 'l' && z == 'n' {
        BuiltinKind::Length
    }     else if n == 8 && a == 'b' && z == 's' {
        BuiltinKind::Builtins
    }     else if n == 9 && a == 'u' && z == 'e' {
        BuiltinKind::TimeUnix
    }     else if n == 4 && a == 'e' && z == 'l' {
        BuiltinKind::Eval
    }     else if n == 6 && a == 'd' && z == 'm' {
        BuiltinKind::Disasm
    }     else if n == 4 && a == 'a' && z == 's' {
        BuiltinKind::Args
    }     else if n == 4 && a == 'e' && z == 't' {
        BuiltinKind::Exit
    }     else if n == 3 && a == 'e' && z == 'v' {
        BuiltinKind::Env
    }     else if n == 4 && a == 'e' && z == 's' {
        BuiltinKind::Envs
    }     else if n == 8 && a == 'p' && z == 'm' {
        BuiltinKind::Platform
    }     else if n == 6 && a == 's' && z == 'g' {
        BuiltinKind::String
    }     else if n == 3 && a == 'i' && z == 't' {
        BuiltinKind::Int
    }     else if n == 5 && a == 'f' && z == 't' {
        BuiltinKind::Float
    }     else if n == 4 && a == 'b' && z == 'l' {
        BuiltinKind::Bool
    }     else if n == 4 && a == 'b' && z == 'e' {
        BuiltinKind::Byte
    }     else if n == 4 && a == 'c' && z == 'r' {
        BuiltinKind::Char
    }     else if n == 4 && a == 'i' && z == 'r' {
        BuiltinKind::Iter
    }     else if n == 4 && a == 'n' && z == 't' {
        BuiltinKind::Next
    }     else if n == 8 && a == 'h' && z == 't' {
        BuiltinKind::HasNext
    }     else if n == 5 && a == 'b' && z == 's' {
        BuiltinKind::Bytes
    }     else if n == 7 && a == 't' && z == 'f' {
        BuiltinKind::TypeOf
    }     else if n == 12 && a == 'c' && z == 'y' {
        BuiltinKind::CreateArray
    }     else if n == 4 && a == 'e' && z == 'c' {
        BuiltinKind::Exec
    }     else if n == 8 && a == 'e' && z == 'w' {
        BuiltinKind::ExecRaw
    } else {
        BuiltinKind::EndMark
    }
}

/// A builtin's name singles it out.
proof fn lemma_outline_of_name(k: BuiltinKind)
    ensures
        kind_by_outline(spec_name(k)) == k,
{
}

/// Distinct builtins have distinct names.
pub proof fn lemma_names_distinct(a: BuiltinKind, b: BuiltinKind)
    ensures
        a != b ==> spec_name(a) != spec_name(b),
{
    lemma_outline_of_name(a);
    lemma_outline_of_name(b);
}

/// Positions and kinds correspond one to one.
pub proof fn lemma_index_kind(k: BuiltinKind, i: int)
    ensures
        0 <= spec_index(k) <= builtin_count(),
        kind_at(spec_index(k)) == k,
        0 <= i <= builtin_count() ==> spec_index(kind_at(i)) == i,
{
}

/// The name of a builtin as a string.
fn name_string(k: BuiltinKind) -> (res: String)
    ensures
        res@ == spec_name(k),
{
    match k {
        BuiltinKind::Print => {
            let s = String::from_str("print");
            proof {
                reveal_strlit("print");
            }
            s
        },
        BuiltinKind::Truthy => {
            let s = String::from_str("is_true");
            proof {
                reveal_strlit("is_true");
            }
            s
        },
        BuiltinKind::Println => {
            let s = String::from_str("println");
            proof {
                reveal_strlit("println");
            }
            s
        },
        BuiltinKind::Length => {
            let s = String::from_str("len");
            proof {
                reveal_strlit("len");
            }
            s
        },
        BuiltinKind::Builtins => {
            let s = String::from_str("builtins");
            proof {
                reveal_strlit("builtins");
            }
            s
        },
        BuiltinKind::TimeUnix => {
            let s = String::from_str("unix_time");
            proof {
                reveal_strlit("unix_time");
            }
            s
        },
        BuiltinKind::Eval => {
            let s = String::from_str("eval");
            proof {
                reveal_strlit("eval");
            }
            s
        },
        BuiltinKind::Disasm => {
            let s = String::from_str("disasm");
            proof {
                reveal_strlit("disasm");
            }
            s
        },
        BuiltinKind::Args => {
            let s = String::from_str("args");
            proof {
                reveal_strlit("args");
            }
            s
        },
        BuiltinKind::Exit => {
            let s = String::from_str("exit");
            proof {
                reveal_strlit("exit");
            }
            s
        },
        BuiltinKind::Env => {
            let s = String::from_str("env");
            proof {
                reveal_strlit("env");
            }
            s
        },
        BuiltinKind::Envs => {
            let s = String::from_str("envs");
            proof {
                reveal_strlit("envs");
            }
            s
        },
        BuiltinKind::Platform => {
            let s = String::from_str("platform");
            proof {
                reveal_strlit("platform");
            }
            s
        },
        BuiltinKind::String => {
            let s = String::from_str("string");
            proof {
                reveal_strlit("string");
            }
            s
        },
        BuiltinKind::Int => {
            let s = String::from_str("int");
            proof {
                reveal_strlit("int");
            }
            s
        },
        BuiltinKind::Float => {
            let s = String::from_str("float");
            proof {
                reveal_strlit("float");
            }
            s
        },
        BuiltinKind::Bool => {
            let s = String::from_str("bool");
            proof {
                reveal_strlit("bool");
            }
            s
        },
        BuiltinKind::Byte => {
            let s = String::from_str("byte");
            proof {
                reveal_strlit("byte");
            }
            s
        },
        BuiltinKind::Char => {
            let s = String::from_str("char");
            proof {
                reveal_strlit("char");
            }
            s
        },
        BuiltinKind::Iter => {
            let s = String::from_str("iter");
            proof {
                reveal_strlit("iter");
            }
            s
        },
        BuiltinKind::Next => {
            let s = String::from_str("next");
            proof {
                reveal_strlit("next");
            }
            s
        },
        BuiltinKind::HasNext => {
            let s = String::from_str("has_next");
            proof {
                reveal_strlit("has_next");
            }
            s
        },
        BuiltinKind::Bytes => {
            let s = String::from_str("bytes");
            proof {
                reveal_strlit("bytes");
            }
            s
        },
        BuiltinKind::TypeOf => {
            let s = String::from_str("type_of");
            proof {
                reveal_strlit("type_of");
            }
            s
        },
        BuiltinKind::CreateArray => {
            let s = String::from_str("create_array");
            proof {
                reveal_strlit("create_array");
            }
            s
        },
        BuiltinKind::Exec => {
            let s = String::from_str("exec");
            proof {
                reveal_strlit("exec");
            }
            s
        },
        BuiltinKind::ExecRaw => {
            let s = String::from_str("exec_raw");
            proof {
                reveal_strlit("exec_raw");
            }
            s
        },
        BuiltinKind::EndMark => {
            let s = String::from_str("undef");
            proof {
                reveal_strlit("undef");
            }
            s
        },
    }
}

/// The kind at a position of the list.
fn kind_at_position(idx: usize) -> (res: BuiltinKind)
    requires
        idx <= builtin_count(),
    ensures
        res == kind_at(idx as int),
{
    match idx {
        0 => BuiltinKind::Print,
        1 => BuiltinKind::Truthy,
        2 => BuiltinKind::Println,
        3 => BuiltinKind::Length,
        4 => BuiltinKind::Builtins,
        5 => BuiltinKind::TimeUnix,
        6 => BuiltinKind::Eval,
        7 => BuiltinKind::Disasm,
        8 => BuiltinKind::Args,
        9 => BuiltinKind::Exit,
        10 => BuiltinKind::Env,
        11 => BuiltinKind::Envs,
        12 => BuiltinKind::Platform,
        13 => BuiltinKind::String,
        14 => BuiltinKind::Int,
        15 => BuiltinKind::Float,
        16 => BuiltinKind::Bool,
        17 => BuiltinKind::Byte,
        18 => BuiltinKind::Char,
        19 => BuiltinKind::Iter,
        20 => BuiltinKind::Next,
        21 => BuiltinKind::HasNext,
        22 => BuiltinKind::Bytes,
        23 => BuiltinKind::TypeOf,
        24 => BuiltinKind::CreateArray,
        25 => BuiltinKind::Exec,
        26 => BuiltinKind::ExecRaw,
        _ => BuiltinKind::EndMark,
    }
}

impl BuiltinKind {
    /// The number of builtins.
    pub fn get_size() -> (res: usize)
        ensures
            res == builtin_count(),
            res == spec_index(BuiltinKind::EndMark),
    {
        27
    }

    /// The name under which this builtin is called ("undef" for `EndMark`).
    pub fn desribe(&self) -> (res: String)
        ensures
            res@ == spec_name(*self),
    {
        name_string(*self)
    }

    /// The builtin at a position, if the position is that of a builtin.
    pub fn get_by_index(idx: usize) -> (res: Option<BuiltinKind>)
        ensures
            res == (if idx < builtin_count() {
                Some(kind_at(idx as int))
            } else {
                None::<BuiltinKind>
            }),
    {
        if idx >= BuiltinKind::get_size() {
            return None;
        }
        Some(kind_at_position(idx))
    }

    /// The builtin called by a name; "undef" and unknown names give `None`.
    pub fn get_by_name(name: &String) -> (res: Option<BuiltinKind>)
        ensures
            res == find_by_name(name@, 0),
    {
        let builtin_size = BuiltinKind::get_size();
        let mut idx: usize = 0;
        while idx < builtin_size
            invariant
                builtin_size == builtin_count(),
                idx <= builtin_size,
                find_by_name(name@, 0) == find_by_name(name@, idx as int),
            decreases builtin_size - idx,
        {
            let builtin_kind = kind_at_position(idx);
            let candidate = builtin_kind.desribe();
            if candidate == *name {
                return Some(builtin_kind);
            }
            idx = idx + 1;
        }
        None
    }

    /// The names of all positions of the list, `EndMark`'s "undef" included.
    pub fn get_names() -> (res: Vec<String>)
        ensures
            res.len() == builtin_count() + 1,
            forall|i: int| 0 <= i < res.len() ==> #[trigger] res[i]@ == spec_name(kind_at(i)),
    {
        let builtin_size = BuiltinKind::get_size();
        let mut names: Vec<String> = Vec::new();
        let mut idx: usize = 0;
        while idx < builtin_size + 1
            invariant
                builtin_size == builtin_count(),
                idx <= builtin_size + 1,
                names.len() == idx,
                forall|i: int| 0 <= i < names.len() ==> #[trigger] names[i]@ == spec_name(kind_at(i)),
            decreases builtin_size + 1 - idx,
        {
            let builtin_kind = kind_at_position(idx);
            names.push(builtin_kind.desribe());
            idx = idx + 1;
        }
        names
    }
}

/// The first builtin, from position `i` on, that is called `s`.
pub open spec fn find_by_name(s: Seq<char>, i: int) -> Option<BuiltinKind>
    decreases builtin_count() - i,
{
    if i < 0 || i >= builtin_count() {
        None
    } else if spec_name(kind_at(i)) == s {
        Some(kind_at(i))
    } else {
        find_by_name(s, i + 1)
    }
}

/// Searching from any position up to a builtin's own finds that builtin.
proof fn lemma_find_reaches(k: BuiltinKind, i: int)
    requires
        k != BuiltinKind::EndMark,
        0 <= i <= spec_index(k),
    ensures
        find_by_name(spec_name(k), i) == Some(k),
    decreases spec_index(k) - i,
{
    lemma_index_kind(k, i);
    if i < spec_index(k) {
        lemma_names_distinct(kind_at(i), k);
        lemma_find_reaches(k, i + 1);
    }
}

/// What a search by name finds is called by that name, and is a builtin.
proof fn lemma_find_sound(s: Seq<char>, i: int)
    ensures
        find_by_name(s, i) matches Some(k) ==> spec_name(k) == s && k != BuiltinKind::EndMark
            && i <= spec_index(k),
    decreases builtin_count() - i,
{
    if 0 <= i < builtin_count() && spec_name(kind_at(i)) != s {
        lemma_find_sound(s, i + 1);
    }
    if 0 <= i < builtin_count() {
        lemma_index_kind(kind_at(i), i);
    }
}

/// Looking a builtin up by its own name gives it back, and looking up a
/// name gives a builtin of that name or nothing: `get_by_name` undoes
/// `desribe` on every builtin, and "undef" names none.
pub proof fn law_lookup_by_name(k: BuiltinKind, s: Seq<char>)
    ensures
        k != BuiltinKind::EndMark ==> find_by_name(spec_name(k), 0) == Some(k),
        find_by_name(s, 0) matches Some(found) ==> spec_name(found) == s,
        find_by_name(spec_name(BuiltinKind::EndMark), 0) is None,
{
    if k != BuiltinKind::EndMark {
        lemma_index_kind(k, 0);
        lemma_find_reaches(k, 0);
    }
    lemma_find_sound(s, 0);
    lemma_find_sound(spec_name(BuiltinKind::EndMark), 0);
}

/// The names listed at the positions of the builtins look up the builtins
/// at those positions: `get_by_name(get_names()[i]) == get_by_index(i)`.
pub proof fn law_names_and_positions(i: int)
    requires
        0 <= i < builtin_count(),
    ensures
        find_by_name(spec_name(kind_at(i)), 0) == Some(kind_at(i)),
{
    lemma_index_kind(kind_at(i), i);
    law_lookup_by_name(kind_at(i), spec_name(kind_at(i)));
}

/// Feeds a name to a hasher with `<String as Hash>::hash`. Trusted, with
/// nothing stated: vstd gives string hashing and hashers no specification.
#[verifier::external_body]
fn hash_name<H: core::hash::Hasher>(name: &String, state: &mut H) {
    core::hash::Hash::hash(name, state);
}

/// Builtins hash by their names.
impl core::hash::Hash for BuiltinKind {
    fn hash<H: core::hash::Hasher>(&self, state: &mut H) {
        let name = self.desribe();
        hash_name(&name, state);
    }
}

/// Each builtin is named by its call name in the language: `print`,
/// `is_true`, `println`, `len`, and so on; `EndMark` by "undef".
pub proof fn law_call_names()
    ensures
        spec_name(BuiltinKind::Print) == "print"@,
        spec_name(BuiltinKind::Truthy) == "is_true"@,
        spec_name(BuiltinKind::Println) == "println"@,
        spec_name(BuiltinKind::Length) == "len"@,
        spec_name(BuiltinKind::Builtins) == "builtins"@,
        spec_name(BuiltinKind::TimeUnix) == "unix_time"@,
        spec_name(BuiltinKind::Eval) == "eval"@,
        spec_name(BuiltinKind::Disasm) == "disasm"@,
        spec_name(BuiltinKind::Args) == "args"@,
        spec_name(BuiltinKind::Exit) == "exit"@,
        spec_name(BuiltinKind::Env) == "env"@,
        spec_name(BuiltinKind::Envs) == "envs"@,
        spec_name(BuiltinKind::Platform) == "platform"@,
        spec_name(BuiltinKind::String) == "string"@,
        spec_name(BuiltinKind::Int) == "int"@,
        spec_name(BuiltinKind::Float) == "float"@,
        spec_name(BuiltinKind::Bool) == "bool"@,
        spec_name(BuiltinKind::Byte) == "byte"@,
        spec_name(BuiltinKind::Char) == "char"@,
        spec_name(BuiltinKind::Iter) == "iter"@,
        spec_name(BuiltinKind::Next) == "next"@,
        spec_name(BuiltinKind::HasNext) == "has_next"@,
        spec_name(BuiltinKind::Bytes) == "bytes"@,
        spec_name(BuiltinKind::TypeOf) == "type_of"@,
        spec_name(BuiltinKind::CreateArray) == "create_array"@,
        spec_name(BuiltinKind::Exec) == "exec"@,
        spec_name(BuiltinKind::ExecRaw) == "exec_raw"@,
        spec_name(BuiltinKind::EndMark) == "undef"@,
{
    reveal_strlit("print");
    assert(spec_name(BuiltinKind::Print) =~= "print"@);
    reveal_strlit("is_true");
    assert(spec_name(BuiltinKind::Truthy) =~= "is_true"@);
    reveal_strlit("println");
    assert(spec_name(BuiltinKind::Println) =~= "println"@);
    reveal_strlit("len");
    assert(spec_name(BuiltinKind::Length) =~= "len"@);
    reveal_strlit("builtins");
    assert(spec_name(BuiltinKind::Builtins) =~= "builtins"@);
    reveal_strlit("unix_time");
    assert(spec_name(BuiltinKind::TimeUnix) =~= "unix_time"@);
    reveal_strlit("eval");
    assert(spec_name(BuiltinKind::Eval) =~= "eval"@);
    reveal_strlit("disasm");
    assert(spec_name(BuiltinKind::Disasm) =~= "disasm"@);
    reveal_strlit("args");
    assert(spec_name(BuiltinKind::Args) =~= "args"@);
    reveal_strlit("exit");
    assert(spec_name(BuiltinKind::Exit) =~= "exit"@);
    reveal_strlit("env");
    assert(spec_name(BuiltinKind::Env) =~= "env"@);
    reveal_strlit("envs");
    assert(spec_name(BuiltinKind::Envs) =~= "envs"@);
    reveal_strlit("platform");
    assert(spec_name(BuiltinKind::Platform) =~= "platform"@);
    reveal_strlit("string");
    assert(spec_name(BuiltinKind::String) =~= "string"@);
    reveal_strlit("int");
    assert(spec_name(BuiltinKind::Int) =~= "int"@);
    reveal_strlit("float");
    assert(spec_name(BuiltinKind::Float) =~= "float"@);
    reveal_strlit("bool");
    assert(spec_name(BuiltinKind::Bool) =~= "bool"@);
    reveal_strlit("byte");
    assert(spec_name(BuiltinKind::Byte) =~= "byte"@);
    reveal_strlit("char");
    assert(spec_name(BuiltinKind::Char) =~= "char"@);
    reveal_strlit("iter");
    assert(spec_name(BuiltinKind::Iter) =~= "iter"@);
    reveal_strlit("next");
    assert(spec_name(BuiltinKind::Next) =~= "next"@);
    reveal_strlit("has_next");
    assert(spec_name(BuiltinKind::HasNext) =~= "has_next"@);
    reveal_strlit("bytes");
    assert(spec_name(BuiltinKind::Bytes) =~= "bytes"@);
    reveal_strlit("type_of");
    assert(spec_name(BuiltinKind::TypeOf) =~= "type_of"@);
    reveal_strlit("create_array");
    assert(spec_name(BuiltinKind::CreateArray) =~= "create_array"@);
    reveal_strlit("exec");
    assert(spec_name(BuiltinKind::Exec) =~= "exec"@);
    reveal_strlit("exec_raw");
    assert(spec_name(BuiltinKind::ExecRaw) =~= "exec_raw"@);
    reveal_strlit("undef");
    assert(spec_name(BuiltinKind::EndMark) =~= "undef"@);
}

/// Every call name finds its builtin, and "undef" finds none.
pub proof fn law_lookup_call_names()
    ensures
        find_by_name("print"@, 0) == Some(BuiltinKind::Print),
        find_by_name("is_true"@, 0) == Some(BuiltinKind::Truthy),
        find_by_name("println"@, 0) == Some(BuiltinKind::Println),
        find_by_name("len"@, 0) == Some(BuiltinKind::Length),
        find_by_name("builtins"@, 0) == Some(BuiltinKind::Builtins),
        find_by_name("unix_time"@, 0) == Some(BuiltinKind::TimeUnix),
        find_by_name("eval"@, 0) == Some(BuiltinKind::Eval),
        find_by_name("disasm"@, 0) == Some(BuiltinKind::Disasm),
        find_by_name("args"@, 0) == Some(BuiltinKind::Args),
        find_by_name("exit"@, 0) == Some(BuiltinKind::Exit),
        find_by_name("env"@, 0) == Some(BuiltinKind::Env),
        find_by_name("envs"@, 0) == Some(BuiltinKind::Envs),
        find_by_name("platform"@, 0) == Some(BuiltinKind::Platform),
        find_by_name("string"@, 0) == Some(BuiltinKind::String),
        find_by_name("int"@, 0) == Some(BuiltinKind::Int),
        find_by_name("float"@, 0) == Some(BuiltinKind::Float),
        find_by_name("bool"@, 0) == Some(BuiltinKind::Bool),
        find_by_name("byte"@, 0) == Some(BuiltinKind::Byte),
        find_by_name("char"@, 0) == Some(BuiltinKind::Char),
        find_by_name("iter"@, 0) == Some(BuiltinKind::Iter),
        find_by_name("next"@, 0) == Some(BuiltinKind::Next),
        find_by_name("has_next"@, 0) == Some(BuiltinKind::HasNext),
        find_by_name("bytes"@, 0) == Some(BuiltinKind::Bytes),
        find_by_name("type_of"@, 0) == Some(BuiltinKind::TypeOf),
        find_by_name("create_array"@, 0) == Some(BuiltinKind::CreateArray),
        find_by_name("exec"@, 0) == Some(BuiltinKind::Exec),
        find_by_name("exec_raw"@, 0) == Some(BuiltinKind::ExecRaw),
        find_by_name("undef"@, 0) is None,
{
    law_call_names();
    law_lookup_by_name(BuiltinKind::Print, "print"@);
    law_lookup_by_name(BuiltinKind::Truthy, "is_true"@);
    law_lookup_by_name(BuiltinKind::Println, "println"@);
    law_lookup_by_name(BuiltinKind::Length, "len"@);
    law_lookup_by_name(BuiltinKind::Builtins, "builtins"@);
    law_lookup_by_name(BuiltinKind::TimeUnix, "unix_time"@);
    law_lookup_by_name(BuiltinKind::Eval, "eval"@);
    law_lookup_by_name(BuiltinKind::Disasm, "disasm"@);
    law_lookup_by_name(BuiltinKind::Args, "args"@);
    law_lookup_by_name(BuiltinKind::Exit, "exit"@);
    law_lookup_by_name(BuiltinKind::Env, "env"@);
    law_lookup_by_name(BuiltinKind::Envs, "envs"@);
    law_lookup_by_name(BuiltinKind::Platform, "platform"@);
    law_lookup_by_name(BuiltinKind::String, "string"@);
    law_lookup_by_name(BuiltinKind::Int, "int"@);
    law_lookup_by_name(BuiltinKind::Float, "float"@);
    law_lookup_by_name(BuiltinKind::Bool, "bool"@);
    law_lookup_by_name(BuiltinKind::Byte, "byte"@);
    law_lookup_by_name(BuiltinKind::Char, "char"@);
    law_lookup_by_name(BuiltinKind::Iter, "iter"@);
    law_lookup_by_name(BuiltinKind::Next, "next"@);
    law_lookup_by_name(BuiltinKind::HasNext, "has_next"@);
    law_lookup_by_name(BuiltinKind::Bytes, "bytes"@);
    law_lookup_by_name(BuiltinKind::TypeOf, "type_of"@);
    law_lookup_by_name(BuiltinKind::CreateArray, "create_array"@);
    law_lookup_by_name(BuiltinKind::Exec, "exec"@);
    law_lookup_by_name(BuiltinKind::ExecRaw, "exec_raw"@);
    law_lookup_by_name(BuiltinKind::EndMark, "undef"@);
}

/// The builtins stand in the list in this order, `EndMark` last at the
/// position that counts them.
pub proof fn law_positions()
    ensures
        builtin_count() == 27,
        kind_at(0) == BuiltinKind::Print,
        kind_at(1) == BuiltinKind::Truthy,
        kind_at(2) == BuiltinKind::Println,
        kind_at(3) == BuiltinKind::Length,
        kind_at(4) == BuiltinKind::Builtins,
        kind_at(5) == BuiltinKind::TimeUnix,
        kind_at(6) == BuiltinKind::Eval,
        kind_at(7) == BuiltinKind::Disasm,
        kind_at(8) == BuiltinKind::Args,
        kind_at(9) == BuiltinKind::Exit,
        kind_at(10) == BuiltinKind::Env,
        kind_at(11) == BuiltinKind::Envs,
        kind_at(12) == BuiltinKind::Platform,
        kind_at(13) == BuiltinKind::String,
        kind_at(14) == BuiltinKind::Int,
        kind_at(15) == BuiltinKind::Float,
        kind_at(16) == BuiltinKind::Bool,
        kind_at(17) == BuiltinKind::Byte,
        kind_at(18) == BuiltinKind::Char,
        kind_at(19) == BuiltinKind::Iter,
        kind_at(20) == BuiltinKind::Next,
        kind_at(21) == BuiltinKind::HasNext,
        kind_at(22) == BuiltinKind::Bytes,
        kind_at(23) == BuiltinKind::TypeOf,
        kind_at(24) == BuiltinKind::CreateArray,
        kind_at(25) == BuiltinKind::Exec,
        kind_at(26) == BuiltinKind::ExecRaw,
        kind_at(27) == BuiltinKind::EndMark,
{
}

} // verus!
