//! The files of a built index: as the engine produces them, with a path in
//! raw bytes, and as the host receives them, with a filename in text.
use vstd::prelude::*;
use vstd::utf8::{decode_utf8, encode_utf8, valid_utf8};

verus! {

/// What an [`EngineFile`] holds.
pub struct EngineFileView {
    pub filename: Seq<u8>,
    pub contents: Seq<u8>,
}

/// One file of the built index as the engine hands it over: the bytes of its
/// path and the bytes of its contents.
#[derive(Debug)]
pub struct EngineFile {
    pub filename: Vec<u8>,
    pub contents: Vec<u8>,
}

impl View for EngineFile {
    type V = EngineFileView;

    open spec fn view(&self) -> EngineFileView {
        EngineFileView { filename: self.filename@, contents: self.contents@ }
    }
}

/// What a [`PhpPagefindFile`] holds.
pub struct FileView {
    pub filename: Seq<char>,
    pub contents: Seq<u8>,
}

/// One file of the built index as the host receives it.
#[derive(Debug)]
pub struct PhpPagefindFile {
    filename: String,
    contents: Vec<u8>,
}

impl View for PhpPagefindFile {
    type V = FileView;

    closed spec fn view(&self) -> FileView {
        FileView { filename: self.filename@, contents: self.contents@ }
    }
}

/// The host's file for an engine file whose path is valid UTF-8: the path
/// read as text, the contents byte for byte.
pub open spec fn host_file(file: EngineFileView) -> FileView
    recommends
        valid_utf8(file.filename),
{
    FileView { filename: decode_utf8(file.filename), contents: file.contents }
}

/// `String::from_utf8` of std. The bytes become a string exactly when they
/// are valid UTF-8, and the string is then made of those very bytes.
#[verifier::external_body]
fn text_from_utf8(bytes: Vec<u8>) -> (text: Option<String>)
    ensures
        text is Some <==> valid_utf8(bytes@),
        text matches Some(s) ==> encode_utf8(s@) == bytes@,
{
    match String::from_utf8(bytes) {
        Ok(s) => Some(s),
        Err(_) => None,
    }
}

impl PhpPagefindFile {
    /// A file with the given name and contents.
    pub fn __construct(filename: String, contents: Vec<u8>) -> (file: Self)
        ensures
            file@ == (FileView { filename: filename@, contents: contents@ }),
    {
        PhpPagefindFile { filename, contents }
    }

    /// The host's file for a file of the engine, or `None` where the bytes of
    /// its path are not valid UTF-8. The contents are moved, not copied.
    pub fn from_engine(file: EngineFile) -> (made: Option<Self>)
        ensures
            made is Some <==> valid_utf8(file@.filename),
            made matches Some(f) ==> f@ == host_file(file@),
            made matches Some(f) ==> encode_utf8(f@.filename) == file@.filename,
    {
        let EngineFile { filename, contents } = file;
        match text_from_utf8(filename) {
            Some(name) => {
                proof {
                    vstd::utf8::encode_utf8_decode_utf8(name@);
                }
                Some(PhpPagefindFile { filename: name, contents })
            },
            None => None,
        }
    }

    /// The name and the contents, handed over without a copy.
    pub fn into_parts(self) -> (parts: (String, Vec<u8>))
        ensures
            parts.0@ == self@.filename,
            parts.1@ == self@.contents,
    {
        (self.filename, self.contents)
    }

    pub fn get_filename(&self) -> (filename: String)
        ensures
            filename@ == self@.filename,
    {
        self.filename.clone()
    }

    pub fn get_contents(&self) -> (contents: Vec<u8>)
        ensures
            contents@ == self@.contents,
    {
        self.contents.clone()
    }
}

} // verus!
