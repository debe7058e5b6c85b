//! Records and transfer values of the file store.

use vstd::prelude::*;

verus! {

/// The persisted description of a stored file.
#[derive(Debug, Clone)]
pub struct FileInfo {
    /// The file name that the uploader gave.
    pub name: String,
    /// The MIME type detected from the content.
    pub mime: String,
    /// Who uploaded the file.
    pub owner: String,
    /// The key of the file: the text form of the blob's identifier.
    pub key: String,
    /// When the record was made, as an ISO-8601 text.
    pub create_at: String,
}

/// A `FileInfo` in contracts.
pub struct FileInfoView {
    pub name: Seq<char>,
    pub mime: Seq<char>,
    pub owner: Seq<char>,
    pub key: Seq<char>,
    pub create_at: Seq<char>,
}

impl View for FileInfo {
    type V = FileInfoView;

    open spec fn view(&self) -> FileInfoView {
        FileInfoView {
            name: self.name@,
            mime: self.mime@,
            owner: self.owner@,
            key: self.key@,
            create_at: self.create_at@,
        }
    }
}

/// What an upload request carries once its form has been decoded.
#[derive(Debug, Clone)]
pub struct FileInput {
    pub name: String,
    pub bytes: Vec<u8>,
    pub owner: String,
}

/// A `FileInput` in contracts.
pub struct FileInputView {
    pub name: Seq<char>,
    pub bytes: Seq<u8>,
    pub owner: Seq<char>,
}

impl View for FileInput {
    type V = FileInputView;

    open spec fn view(&self) -> FileInputView {
        FileInputView { name: self.name@, bytes: self.bytes@, owner: self.owner@ }
    }
}

/// The input of a form in which no field has been seen: no name, no owner, no bytes.
pub open spec fn empty_input() -> FileInputView {
    FileInputView { name: Seq::empty(), bytes: Seq::empty(), owner: Seq::empty() }
}

impl FileInput {
    /// The input before any form field has been seen.
    pub fn empty() -> (input: FileInput)
        ensures
            input@ == empty_input(),
    {
        FileInput { name: String::new(), bytes: Vec::new(), owner: String::new() }
    }
}

/// A stored file with its content: the description and the bytes in one value.
#[derive(Debug)]
pub struct FileOutput {
    pub name: String,
    /// The detected MIME type of the content.
    pub ext: String,
    pub owner: String,
    pub key: String,
    pub create_at: String,
    pub bytes: Vec<u8>,
}

/// The chunks of a download laid end to end, in the order in which they came.
pub open spec fn joined(chunks: Seq<Vec<u8>>) -> Seq<u8>
    decreases chunks.len(),
{
    if chunks.len() == 0 {
        Seq::empty()
    } else {
        joined(chunks.drop_last()) + chunks.last()@
    }
}

/// Lays the chunks of a download end to end, keeping their order.
pub fn join_chunks(chunks: &Vec<Vec<u8>>) -> (bytes: Vec<u8>)
    ensures
        bytes@ == joined(chunks@),
{
    let mut bytes: Vec<u8> = Vec::new();
    let mut i: usize = 0;
    while i < chunks.len()
        invariant
            i <= chunks.len(),
            bytes@ == joined(chunks@.take(i as int)),
        decreases chunks.len() - i,
    {
        assert(chunks@.take(i + 1).drop_last() == chunks@.take(i as int));
        bytes.extend_from_slice(chunks[i].as_slice());
        i = i + 1;
    }
    assert(chunks@.take(i as int) == chunks@);
    bytes
}

impl FileOutput {
    /// The description of a file together with its content.
    pub fn new(info: FileInfo, bytes: Vec<u8>) -> (out: FileOutput)
        ensures
            out.info_view() == info@,
            out.bytes@ == bytes@,
    {
        FileOutput {
            name: info.name,
            ext: info.mime,
            owner: info.owner,
            key: info.key,
            create_at: info.create_at,
            bytes,
        }
    }

    /// The description part of this value, in contracts.
    pub open spec fn info_view(&self) -> FileInfoView {
        FileInfoView {
            name: self.name@,
            mime: self.ext@,
            owner: self.owner@,
            key: self.key@,
            create_at: self.create_at@,
        }
    }
}

/// The answer to a successful upload: the key that the file was given.
#[derive(Debug)]
pub struct PutResponse {
    id: String,
}

impl PutResponse {
    /// The answer that carries `id`.
    pub fn new(id: String) -> (response: PutResponse)
        ensures
            response.spec_id() == id@,
    {
        PutResponse { id }
    }

    /// The key in this answer, in contracts.
    pub closed spec fn spec_id(&self) -> Seq<char> {
        self.id@
    }

    /// The key in this answer.
    pub fn id(&self) -> (id: &str)
        ensures
            id@ == self.spec_id(),
    {
        self.id.as_str()
    }
}

} // verus!
