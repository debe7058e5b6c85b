//! The decisions of the storage adapter. The blob store and the document store are
//! asked by the caller; what to ask of them, in which order, and what their answers
//! mean is decided here.
//!
//! A put takes two decisions: `begin_put` classifies the content and yields the upload
//! to write; once the blob store has given the blob an identifier, `record_upload`
//! yields the record to insert and the key to answer with. A get starts with
//! `BlobId::parse`; where the blob store cannot open the blob, `open_failure` says
//! what to report. An info asks for the record that `info_filter` selects. Whatever
//! either store answers passes through `backend_answer`.

use vstd::prelude::*;
use chrono::Utc;
use crate::error::{Error, ErrorKind};
use crate::key::{key_text, BlobId};
use crate::sniff::{detected_mime, infer_mime};
use crate::types::{FileInfo, FileInfoView, FileInput, FileInputView};

verus! {

/// An upload whose content has been classified and that waits to be written. There is
/// none but what `begin_put` or `plan_upload` has made.
#[derive(Debug)]
pub struct PendingUpload {
    name: String,
    owner: String,
    mime: String,
    bytes: Vec<u8>,
}

/// A `PendingUpload` in contracts.
pub struct PendingUploadView {
    /// The name under which the blob is written.
    pub name: Seq<char>,
    pub owner: Seq<char>,
    /// The MIME type detected from the content.
    pub mime: Seq<char>,
    /// The content to write, unchanged.
    pub bytes: Seq<u8>,
}

impl View for PendingUpload {
    type V = PendingUploadView;

    closed spec fn view(&self) -> PendingUploadView {
        PendingUploadView {
            name: self.name@,
            owner: self.owner@,
            mime: self.mime@,
            bytes: self.bytes@,
        }
    }
}

impl PendingUpload {
    /// The name under which the blob is to be written.
    pub fn name(&self) -> (name: &str)
        ensures
            name@ == self@.name,
    {
        self.name.as_str()
    }

    /// The content to write to the blob store.
    pub fn bytes(&self) -> (bytes: &[u8])
        ensures
            bytes@ == self@.bytes,
    {
        self.bytes.as_slice()
    }

    /// The MIME type detected from the content.
    pub fn mime(&self) -> (mime: &str)
        ensures
            mime@ == self@.mime,
    {
        self.mime.as_str()
    }

    /// Who uploads the file.
    pub fn owner(&self) -> (owner: &str)
        ensures
            owner@ == self@.owner,
    {
        self.owner.as_str()
    }
}

/// The upload that an input leads to, given what the detection found: none where it
/// found no type, else the input's name, owner and bytes with the type found.
pub open spec fn planned(input: FileInputView, mime: Option<Seq<char>>) -> Option<
    PendingUploadView,
> {
    match mime {
        None => None,
        Some(m) => Some(
            PendingUploadView { name: input.name, owner: input.owner, mime: m, bytes: input.bytes },
        ),
    }
}

/// The record of an upload that was written under the identifier `id` at the time
/// `created_at`: its key is the identifier's text form.
pub open spec fn record_of(upload: PendingUploadView, id: Seq<u8>, created_at: Seq<char>) -> FileInfoView {
    FileInfoView {
        name: upload.name,
        mime: upload.mime,
        owner: upload.owner,
        key: key_text(id),
        create_at: created_at,
    }
}

/// The first step of a put, given what the detection found for the input's bytes.
/// Where it found no type the put fails here, and there is no upload to write.
pub fn plan_upload(input: FileInput, mime: Option<String>) -> (plan: Result<PendingUpload, Error>)
    ensures
        match mime {
            Some(m) => plan matches Ok(upload) && Some(upload@) == planned(input@, Some(m@)),
            None => plan matches Err(e) && e.kind() == ErrorKind::UnknownFileType
                && e.spec_message() == "unknown file type"@,
        },
{
    match mime {
        Some(m) => Ok(
            PendingUpload { name: input.name, owner: input.owner, mime: m, bytes: input.bytes },
        ),
        None => Err(Error::unknown_file_type()),
    }
}

/// The first step of a put: classifies the content. The upload that comes back holds
/// the input's name, owner and bytes and the type detected; where no type is detected
/// the put fails before anything is written.
pub fn begin_put(input: FileInput) -> (plan: Result<PendingUpload, Error>)
    ensures
        plan is Ok <==> detected_mime(input.bytes@) is Some,
        plan matches Ok(upload) ==> Some(upload@) == planned(input@, detected_mime(input.bytes@)),
        plan matches Err(e) ==> e.kind() == ErrorKind::UnknownFileType && e.spec_message()
            == "unknown file type"@,
{
    let mime = infer_mime(input.bytes.as_slice());
    plan_upload(input, mime)
}

/// `chrono::Utc::now` rendered by `DateTime::to_rfc3339`: the time of the call, which
/// no contract can foretell.
#[verifier::external_body]
fn utc_now_rfc3339() -> (stamp: String) {
    Utc::now().to_rfc3339()
}

/// The second step of a put, at a given time: the record to insert for an upload that
/// the blob store wrote under `id`, and the key to answer with once it is inserted.
pub fn record_at(upload: PendingUpload, id: BlobId, created_at: String) -> (out: (FileInfo, String))
    ensures
        out.0@ == record_of(upload@, id@, created_at@),
        out.1@ == key_text(id@),
{
    let key = id.to_key();
    let info = FileInfo {
        name: upload.name,
        mime: upload.mime,
        owner: upload.owner,
        key: key.clone(),
        create_at: created_at,
    };
    (info, key)
}

/// The second step of a put: the record to insert for an upload that the blob store
/// wrote under `id`, stamped with the current UTC time, and the key to answer with
/// once it is inserted.
pub fn record_upload(upload: PendingUpload, id: BlobId) -> (out: (FileInfo, String))
    ensures
        out.0@ == record_of(upload@, id@, out.0.create_at@),
        out.1@ == key_text(id@),
{
    record_at(upload, id, utc_now_rfc3339())
}

/// Why the blob store could not open a blob for reading.
#[derive(Debug)]
pub enum OpenFailure {
    /// The blob store knows no blob of that identifier.
    Missing { message: String },
    /// The blob store failed otherwise.
    Other { message: String },
}

/// The error of a get whose blob could not be opened: an unknown blob is reported as
/// not found, any other failure as a failure of the backend, each with the blob
/// store's message.
pub fn open_failure(failure: OpenFailure) -> (e: Error)
    ensures
        match failure {
            OpenFailure::Missing { message } => e.kind() == ErrorKind::NotFound
                && e.spec_message() == message@,
            OpenFailure::Other { message } => e.kind() == ErrorKind::BackendError
                && e.spec_message() == message@,
        },
{
    match failure {
        OpenFailure::Missing { message } => Error::new(ErrorKind::NotFound, message),
        OpenFailure::Other { message } => Error::new(ErrorKind::BackendError, message),
    }
}

/// An equality condition on one field of the stored records.
#[derive(Debug)]
pub struct KeyFilter {
    pub field: String,
    pub value: String,
}

/// The condition by which an info finds its record: the field `key` equals the key
/// asked for, taken as it is.
pub fn info_filter(key: &str) -> (filter: KeyFilter)
    ensures
        filter.field@ == "key"@,
        filter.value@ == key@,
{
    KeyFilter { field: "key".to_owned(), value: key.to_owned() }
}

/// Takes an answer of the blob store or the document store: what it found is handed
/// on as it is, and a failure becomes an error of the backend with the store's message.
pub fn backend_answer<T>(answer: Result<T, String>) -> (taken: Result<T, Error>)
    ensures
        match answer {
            Ok(found) => taken == Ok::<T, Error>(found),
            Err(message) => taken matches Err(e) && e.kind() == ErrorKind::BackendError
                && e.spec_message() == message@,
        },
{
    match answer {
        Ok(found) => Ok(found),
        Err(message) => Err(Error::new(ErrorKind::BackendError, message)),
    }
}

} // verus!
