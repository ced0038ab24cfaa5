use vstd::prelude::*;

verus! {

/// The variant of an interpreter object, with the contents that the
/// builtins read of it. A float travels as its IEEE-754 bit pattern; arrays
/// and hash tables as their number of elements and entries.
#[derive(Clone, Debug, PartialEq, Eq)]
pub enum Payload {
    Noval,
    Bool(bool),
    Str(String),
    Int(i64),
    Float(u64),
    Byte(u8),
    Char(char),
    Array(usize),
    HashTable(usize),
    ByteBuffer,
    Iter,
    Other,
}

/// An argument handed to a builtin: its variant and contents, the name of
/// its type, its text, and whether it counts as true, as the object itself
/// reports them.
#[derive(Clone, Debug, PartialEq, Eq)]
pub struct Arg {
    pub payload: Payload,
    pub type_label: String,
    pub text: String,
    pub truthy: bool,
}

/// An object that a builtin gives back.
#[derive(Debug, PartialEq, Eq)]
pub enum Produced {
    Noval,
    Bool(bool),
    Int(i64),
    Str(String),
    Byte(u8),
    Char(char),
    /// A float, as its IEEE-754 bit pattern.
    Float(u64),
    /// The argument at this position, as it was handed in.
    Argument(usize),
    /// An array of these elements.
    Array(Vec<Produced>),
    /// An array of this many copies of one object.
    Repeated(usize, Box<Produced>),
    /// A byte buffer holding these bytes.
    Buffer(Vec<u8>),
    /// A hash table from strings to strings, in this order of insertion.
    Table(Vec<(String, String)>),
}

/// Work that a builtin needs done outside the library: on the platform
/// (printing, time, environment, processes, exiting), by the interpreter
/// (evaluation, disassembly, iterators, byte buffers), or in floating point.
#[derive(Clone, Debug, PartialEq, Eq)]
pub enum Request {
    /// Print this text.
    Print(String),
    /// Fetch the UNIX time as a float.
    UnixTime,
    /// Fetch the program's arguments as an array.
    ProgramArgs,
    /// End the process with this exit code.
    Exit(i32),
    /// Look up an environment variable; `true` when the call supplied a default.
    GetEnv(String, bool),
    /// Fetch all environment variables as a hash table.
    AllEnvs,
    /// Fetch the platform's architecture, family and OS.
    PlatformInfo,
    /// Evaluate this source text.
    Eval(String),
    /// Disassemble this source text.
    Disasm(String),
    /// Run the arguments as a process; `true` to keep its output as raw bytes.
    RunProcess(bool),
    /// Read the first argument's byte buffer as a string.
    BufferToString,
    /// Read the first argument's byte buffer as an integer.
    BufferToInt,
    /// Read the first argument's byte buffer as a float.
    BufferToFloat,
    /// Encode an integer as a byte buffer; `true` for little-endian.
    IntToBytes(i64, bool),
    /// Encode a float (bit pattern) as a byte buffer; `true` for little-endian.
    FloatToBytes(u64, bool),
    /// Encode a string as a byte buffer.
    StrToBytes(String),
    /// Convert an integer to a float.
    IntToFloat(i64),
    /// Round a float (bit pattern) to an integer.
    FloatToInt(u64),
    /// Parse a string as a float.
    StrToFloat(String),
    /// Make an iterator over the first argument.
    MakeIter,
    /// Ask the first argument, an iterator, whether it has a next element.
    HasNext,
    /// Take the next element of the first argument, an iterator.
    Next,
}

/// What a builtin call comes to: an object, or work to be done outside.
#[derive(Debug, PartialEq, Eq)]
pub enum Step {
    Done(Produced),
    Call(Request),
}

} // verus!
