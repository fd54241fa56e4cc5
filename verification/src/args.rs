//! The arguments of the command line tool: which of the three commands was
//! asked for, and with what.

use vstd::prelude::*;

use crate::text::str_eq;

verus! {

/// A command with its arguments.
#[derive(Debug)]
pub enum PngMeArgs {
    Encode(EncodeArgs),
    Decode(DecodeArgs),
    Remove(RemoveArgs),
}

/// Why a command line was refused.
#[derive(PartialEq, Debug)]
pub enum ArgErr {
    /// The command is none of `encode`, `decode` and `remove`; it is held.
    InvalidCommand(String),
    /// An argument that the command needs is absent; its name is held.
    MissingArgs(String),
}

/// The arguments of `encode`: put a payload into a file, in a chunk of the
/// given type.
#[derive(Debug)]
pub struct EncodeArgs {
    file: String,
    chunk_type: String,
    payload: String,
}

/// The arguments of `decode`: read the payload of the chunk of the given
/// type from a file.
#[derive(Debug)]
pub struct DecodeArgs {
    file: String,
    chunk_type: String,
}

/// The arguments of `remove`: take the chunk of the given type out of a
/// file.
#[derive(Debug)]
pub struct RemoveArgs {
    file: String,
    chunk_type: String,
}

/// What a set of encode arguments holds.
pub struct EncodeArgsView {
    pub file: Seq<char>,
    pub chunk_type: Seq<char>,
    pub payload: Seq<char>,
}

/// What a set of decode or remove arguments holds.
pub struct TargetArgsView {
    pub file: Seq<char>,
    pub chunk_type: Seq<char>,
}

impl View for EncodeArgs {
    type V = EncodeArgsView;

    closed spec fn view(&self) -> EncodeArgsView {
        EncodeArgsView { file: self.file@, chunk_type: self.chunk_type@, payload: self.payload@ }
    }
}

impl View for DecodeArgs {
    type V = TargetArgsView;

    closed spec fn view(&self) -> TargetArgsView {
        TargetArgsView { file: self.file@, chunk_type: self.chunk_type@ }
    }
}

impl View for RemoveArgs {
    type V = TargetArgsView;

    closed spec fn view(&self) -> TargetArgsView {
        TargetArgsView { file: self.file@, chunk_type: self.chunk_type@ }
    }
}

impl EncodeArgs {
    /// The path of the file to change.
    pub fn file(&self) -> (r: &str)
        ensures
            r@ == self@.file,
    {
        self.file.as_str()
    }

    /// The type of the chunk to add, as text.
    pub fn chunk_type(&self) -> (r: &str)
        ensures
            r@ == self@.chunk_type,
    {
        self.chunk_type.as_str()
    }

    /// The payload to store.
    pub fn payload(&self) -> (r: &str)
        ensures
            r@ == self@.payload,
    {
        self.payload.as_str()
    }
}

impl DecodeArgs {
    /// The path of the file to read.
    pub fn file(&self) -> (r: &str)
        ensures
            r@ == self@.file,
    {
        self.file.as_str()
    }

    /// The type of the chunk to look for, as text.
    pub fn chunk_type(&self) -> (r: &str)
        ensures
            r@ == self@.chunk_type,
    {
        self.chunk_type.as_str()
    }
}

impl RemoveArgs {
    /// The path of the file to change.
    pub fn file(&self) -> (r: &str)
        ensures
            r@ == self@.file,
    {
        self.file.as_str()
    }

    /// The type of the chunk to take out, as text.
    pub fn chunk_type(&self) -> (r: &str)
        ensures
            r@ == self@.chunk_type,
    {
        self.chunk_type.as_str()
    }
}

/// The text held by an optional argument that is present.
pub open spec fn given(arg: Option<&str>) -> Seq<char> {
    arg->0@
}

/// Reads a command and its arguments.
///
/// `encode` needs a chunk type and a payload, `decode` and `remove` need a
/// chunk type and ignore a payload. Of two absent arguments the chunk type
/// is the one reported. Any other command is refused, whatever comes with
/// it.
pub fn generate_args(
    command: &str,
    filepath: &str,
    chunk_type: Option<&str>,
    payload: Option<&str>,
) -> (r: Result<PngMeArgs, ArgErr>)
    ensures
        match r {
            Ok(PngMeArgs::Encode(a)) => {
                &&& command@ == "encode"@
                &&& chunk_type is Some
                &&& payload is Some
                &&& a@ == (EncodeArgsView {
                    file: filepath@,
                    chunk_type: given(chunk_type),
                    payload: given(payload),
                })
            },
            Ok(PngMeArgs::Decode(a)) => {
                &&& command@ == "decode"@
                &&& chunk_type is Some
                &&& a@ == (TargetArgsView { file: filepath@, chunk_type: given(chunk_type) })
            },
            Ok(PngMeArgs::Remove(a)) => {
                &&& command@ == "remove"@
                &&& chunk_type is Some
                &&& a@ == (TargetArgsView { file: filepath@, chunk_type: given(chunk_type) })
            },
            Err(ArgErr::MissingArgs(what)) => {
                &&& command@ == "encode"@ || command@ == "decode"@ || command@ == "remove"@
                &&& if chunk_type is None {
                    what@ == "chunk type"@
                } else {
                    command@ == "encode"@ && payload is None && what@ == "payload"@
                }
            },
            Err(ArgErr::InvalidCommand(name)) => {
                &&& command@ != "encode"@
                &&& command@ != "decode"@
                &&& command@ != "remove"@
                &&& name@ == command@
            },
        },
{
    if str_eq(command, "encode") {
        match (chunk_type, payload) {
            (None, _) => Err(ArgErr::MissingArgs(String::from_str("chunk type"))),
            (Some(_), None) => Err(ArgErr::MissingArgs(String::from_str("payload"))),
            (Some(t), Some(p)) => Ok(
                PngMeArgs::Encode(
                    EncodeArgs {
                        file: String::from_str(filepath),
                        chunk_type: String::from_str(t),
                        payload: String::from_str(p),
                    },
                ),
            ),
        }
    } else if str_eq(command, "decode") {
        match chunk_type {
            None => Err(ArgErr::MissingArgs(String::from_str("chunk type"))),
            Some(t) => Ok(
                PngMeArgs::Decode(
                    DecodeArgs { file: String::from_str(filepath), chunk_type: String::from_str(t) },
                ),
            ),
        }
    } else if str_eq(command, "remove") {
        match chunk_type {
            None => Err(ArgErr::MissingArgs(String::from_str("chunk type"))),
            Some(t) => Ok(
                PngMeArgs::Remove(
                    RemoveArgs { file: String::from_str(filepath), chunk_type: String::from_str(t) },
                ),
            ),
        }
    } else {
        Err(ArgErr::InvalidCommand(String::from_str(command)))
    }
}

} // verus!
