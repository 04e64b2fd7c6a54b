//! Error values carried by the pipeline: each one names the file it is
//! about and holds a human-readable message.

use vstd::prelude::*;

verus! {

/// An error parsing prober output or other input concerning one file.
#[derive(Debug)]
pub struct InputParseError {
    path: String,
    msg: String,
}

impl InputParseError {
    /// The file the error is about.
    pub closed spec fn spec_path(&self) -> Seq<char> {
        self.path@
    }

    /// The error's message.
    pub closed spec fn spec_message(&self) -> Seq<char> {
        self.msg@
    }

    /// Builds the error for the given file and message.
    pub fn for_file(path: &String, msg: &str) -> (r: Self)
        ensures
            r.spec_path() == path@,
            r.spec_message() == msg@,
    {
        InputParseError { path: path.clone(), msg: msg.to_owned() }
    }

    /// The file the error is about.
    pub fn path(&self) -> (r: &String)
        ensures
            r@ == self.spec_path(),
    {
        &self.path
    }

    /// The error's message.
    pub fn message(&self) -> (r: &String)
        ensures
            r@ == self.spec_message(),
    {
        &self.msg
    }
}

/// An error from driving the external compressor for one file.
#[derive(Debug)]
pub struct CompressorError {
    path: String,
    msg: String,
}

impl CompressorError {
    /// The file the error is about.
    pub closed spec fn spec_path(&self) -> Seq<char> {
        self.path@
    }

    /// The error's message.
    pub closed spec fn spec_message(&self) -> Seq<char> {
        self.msg@
    }

    /// Builds the error for the given file and message.
    pub fn for_file(path: &String, msg: &str) -> (r: Self)
        ensures
            r.spec_path() == path@,
            r.spec_message() == msg@,
    {
        CompressorError { path: path.clone(), msg: msg.to_owned() }
    }

    /// The file the error is about.
    pub fn path(&self) -> (r: &String)
        ensures
            r@ == self.spec_path(),
    {
        &self.path
    }

    /// The error's message.
    pub fn message(&self) -> (r: &String)
        ensures
            r@ == self.spec_message(),
    {
        &self.msg
    }
}

/// An error while walking or dispatching a file path.
#[derive(Debug)]
pub struct FilePathHandlerError {
    path: String,
    msg: String,
}

impl FilePathHandlerError {
    /// The file path the error is about.
    pub closed spec fn spec_path(&self) -> Seq<char> {
        self.path@
    }

    /// The error's message.
    pub closed spec fn spec_message(&self) -> Seq<char> {
        self.msg@
    }

    /// Builds the error for the given file path and message.
    pub fn for_file_path(path: &String, msg: &str) -> (r: Self)
        ensures
            r.spec_path() == path@,
            r.spec_message() == msg@,
    {
        FilePathHandlerError { path: path.clone(), msg: msg.to_owned() }
    }

    /// The file path the error is about.
    pub fn path(&self) -> (r: &String)
        ensures
            r@ == self.spec_path(),
    {
        &self.path
    }

    /// The error's message.
    pub fn message(&self) -> (r: &String)
        ensures
            r@ == self.spec_message(),
    {
        &self.msg
    }
}

} // verus!
