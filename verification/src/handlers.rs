//! The decisions of the request handlers: how an upload form becomes a `FileInput`,
//! and under which status an error is reported.

use vstd::prelude::*;
use vstd::slice::slice_to_vec;
use vstd::utf8::{decode_utf8, valid_utf8};
use bytes::BytesMut;
use crate::buffer::{buffer_put, buffer_slice, buffer_with_capacity, buffered};
use crate::error::{Error, ErrorKind};
use crate::types::{empty_input, joined, FileInput, FileInputView};

verus! {

/// Whether the content of a field with this name is read as text.
pub open spec fn is_text_field(name: Seq<char>) -> bool {
    name == "name"@ || name == "owner"@
}

/// Whether a field with this name and content can be taken into the input: the content
/// of a text field has to be UTF-8.
pub open spec fn field_accepted(name: Seq<char>, content: Seq<u8>) -> bool {
    is_text_field(name) ==> valid_utf8(content)
}

/// The input after a field has been taken into it. The fields `name` and `owner` set the
/// text of that name, `bytes` sets the content, and a field of any other name changes nothing.
pub open spec fn with_field(input: FileInputView, name: Seq<char>, content: Seq<u8>) -> FileInputView {
    if name == "name"@ {
        FileInputView { name: decode_utf8(content), ..input }
    } else if name == "owner"@ {
        FileInputView { owner: decode_utf8(content), ..input }
    } else if name == "bytes"@ {
        FileInputView { bytes: content, ..input }
    } else {
        input
    }
}

/// Reads an upload form field by field, and the content of each field chunk by chunk.
pub struct FormReader {
    input: FileInput,
    buffer: BytesMut,
}

impl FormReader {
    /// What the fields read so far have made of the input.
    pub closed spec fn input(&self) -> FileInputView {
        self.input@
    }

    /// The content gathered for the field that is being read.
    pub closed spec fn pending(&self) -> Seq<u8> {
        buffered(self.buffer)
    }

    /// A reader that has seen no field: its input has no name, no owner and no bytes.
    pub fn new() -> (reader: FormReader)
        ensures
            reader.input() == empty_input(),
            reader.pending() == Seq::<u8>::empty(),
    {
        FormReader { input: FileInput::empty(), buffer: buffer_with_capacity(1024) }
    }

    /// Turns to the next field: nothing is gathered for it yet.
    pub fn start_field(&mut self)
        ensures
            final(self).input() == old(self).input(),
            final(self).pending() == Seq::<u8>::empty(),
    {
        self.buffer = buffer_with_capacity(1024);
    }

    /// How many bytes are gathered for the field that is being read.
    pub fn pending_len(&self) -> (len: usize)
        ensures
            len == self.pending().len(),
    {
        buffer_slice(&self.buffer).len()
    }

    /// Adds a chunk behind what is gathered for the field that is being read.
    pub fn push_chunk(&mut self, chunk: &[u8])
        requires
            old(self).pending().len() + chunk@.len() <= isize::MAX,
        ensures
            final(self).input() == old(self).input(),
            final(self).pending() == old(self).pending() + chunk@,
    {
        buffer_put(&mut self.buffer, chunk);
    }

    /// Ends the field that is being read, whose name is `name`, and takes it into the
    /// input. A text field whose content is not UTF-8 is refused and leaves the input
    /// as it was.
    pub fn end_field(&mut self, name: &str) -> (done: Result<(), Error>)
        ensures
            final(self).pending() == old(self).pending(),
            done is Ok <==> field_accepted(name@, old(self).pending()),
            done is Ok ==> final(self).input() == with_field(
                old(self).input(),
                name@,
                old(self).pending(),
            ),
            done matches Err(e) ==> e.kind() == ErrorKind::DecodeError && final(self).input() == old(
                self,
            ).input(),
    {
        let content = buffer_slice(&self.buffer);
        if name.eq("name") {
            match core::str::from_utf8(content) {
                Ok(text) => {
                    self.input.name = text.to_owned();
                    Ok(())
                },
                Err(e) => Err(Error::new(ErrorKind::DecodeError, e.to_string())),
            }
        } else if name.eq("owner") {
            match core::str::from_utf8(content) {
                Ok(text) => {
                    self.input.owner = text.to_owned();
                    Ok(())
                },
                Err(e) => Err(Error::new(ErrorKind::DecodeError, e.to_string())),
            }
        } else if name.eq("bytes") {
            self.input.bytes = slice_to_vec(content);
            Ok(())
        } else {
            Ok(())
        }
    }

    /// The input that the fields read have made.
    pub fn finish(self) -> (input: FileInput)
        ensures
            input@ == self.input(),
    {
        self.input
    }
}

/// One field of an upload form as it was received: its name, and its content in chunks.
#[derive(Debug)]
pub struct FormField {
    pub name: String,
    pub chunks: Vec<Vec<u8>>,
}

/// The input that a form makes, field by field from an input without name, owner and
/// bytes; of two fields of one name the later one counts. There is none where a text
/// field is not UTF-8.
pub open spec fn form_input(fields: Seq<FormField>) -> Option<FileInputView>
    decreases fields.len(),
{
    if fields.len() == 0 {
        Some(empty_input())
    } else {
        let field = fields.last();
        match form_input(fields.drop_last()) {
            Some(input) if field_accepted(field.name@, joined(field.chunks@)) => Some(
                with_field(input, field.name@, joined(field.chunks@)),
            ),
            _ => None,
        }
    }
}

/// The parts of a download or of a field that have come so far are no longer than all
/// of them together.
proof fn lemma_joined_grows(chunks: Seq<Vec<u8>>, n: int)
    requires
        0 <= n <= chunks.len(),
    ensures
        joined(chunks.take(n)).len() <= joined(chunks).len(),
    decreases chunks.len(),
{
    if n == chunks.len() {
        assert(chunks.take(n) == chunks);
    } else {
        assert(chunks.drop_last().take(n) == chunks.take(n));
        lemma_joined_grows(chunks.drop_last(), n);
    }
}

/// Reads a whole upload form: each field's chunks are gathered in order and the field
/// is taken into the input. The first text field that is not UTF-8 fails the form.
pub fn read_form(fields: &Vec<FormField>) -> (read: Result<FileInput, Error>)
    requires
        forall|i: int|
            0 <= i < fields.len() ==> joined((#[trigger] fields[i]).chunks@).len() <= isize::MAX,
    ensures
        match form_input(fields@) {
            Some(input) => read matches Ok(got) && got@ == input,
            None => read matches Err(e) && e.kind() == ErrorKind::DecodeError,
        },
{
    let mut reader = FormReader::new();
    let mut i: usize = 0;
    while i < fields.len()
        invariant
            i <= fields.len(),
            form_input(fields@.take(i as int)) == Some(reader.input()),
            forall|k: int|
                0 <= k < fields.len() ==> joined((#[trigger] fields[k]).chunks@).len()
                    <= isize::MAX,
        decreases fields.len() - i,
    {
        let field = &fields[i];
        reader.start_field();
        let mut j: usize = 0;
        while j < field.chunks.len()
            invariant
                j <= field.chunks.len(),
                reader.pending() == joined(field.chunks@.take(j as int)),
                form_input(fields@.take(i as int)) == Some(reader.input()),
                joined(field.chunks@).len() <= isize::MAX,
            decreases field.chunks.len() - j,
        {
            proof {
                lemma_joined_grows(field.chunks@, j + 1);
                assert(field.chunks@.take(j + 1).drop_last() == field.chunks@.take(j as int));
            }
            reader.push_chunk(field.chunks[j].as_slice());
            j = j + 1;
        }
        proof {
            assert(field.chunks@.take(j as int) == field.chunks@);
            assert(fields@.take(i + 1).drop_last() == fields@.take(i as int));
            assert(fields@.take(i + 1).last() == *field);
        }
        match reader.end_field(field.name.as_str()) {
            Ok(()) => {},
            Err(e) => {
                proof {
                    lemma_form_fails_on(fields@, i + 1);
                }
                return Err(e);
            },
        }
        i = i + 1;
    }
    proof {
        assert(fields@.take(i as int) == fields@);
    }
    Ok(reader.finish())
}

/// A form of which a beginning makes no input makes no input.
proof fn lemma_form_fails_on(fields: Seq<FormField>, n: int)
    requires
        0 <= n <= fields.len(),
        form_input(fields.take(n)) is None,
    ensures
        form_input(fields) is None,
    decreases fields.len(),
{
    if n == fields.len() {
        assert(fields.take(n) == fields);
    } else {
        assert(fields.drop_last().take(n) == fields.take(n));
        lemma_form_fails_on(fields.drop_last(), n);
    }
}

/// The error of an upload whose form could not be read to its end: the request fails
/// as one that cannot be decoded, with the reader's message.
pub fn form_failure(message: String) -> (e: Error)
    ensures
        e.kind() == ErrorKind::DecodeError,
        e.spec_message() == message@,
{
    Error::new(ErrorKind::DecodeError, message)
}

/// Whether an error of this kind is the client's: the key it gave is malformed or
/// names nothing.
pub open spec fn is_client_error(kind: ErrorKind) -> bool {
    kind == ErrorKind::NotFound || kind == ErrorKind::InvalidKey
}

/// The HTTP status under which a get reports an error: 404 where nothing is stored
/// under the key, 400 where the key is malformed, and 500 for every other failure.
pub fn get_status(error: &Error) -> (status: u16)
    ensures
        error.kind() == ErrorKind::NotFound ==> status == 404,
        error.kind() == ErrorKind::InvalidKey ==> status == 400,
        !is_client_error(error.kind()) ==> status == 500,
{
    match error.kind() {
        ErrorKind::NotFound => 404,
        ErrorKind::InvalidKey => 400,
        _ => 500,
    }
}

} // verus!
