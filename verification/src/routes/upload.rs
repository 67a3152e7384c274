//! Uploads: the body of a new upload, the multipart form that carries one
//! chunk of a file, and the header that names a downloaded file.

use vstd::prelude::*;
use vstd::string::StringExecFns;
use vstd::utf8::encode_utf8;

use crate::codec::percent_encode;
use crate::error::{ServerError, ServerExceptionCode};
use crate::codec::parse_i32;
use crate::codec::parse_i32_spec;
use crate::session::{parse_uuid, uuid_from_text};
use crate::utils::encode_url;

verus! {

/// The body of a request to start an upload.
#[derive(Debug)]
pub struct CreateUploadDto {
    /// The file's name.
    pub name: String,
    /// The file's hash.
    pub hash: String,
    /// The file's size in bytes.
    pub size: i64,
    /// The size of its chunks in bytes.
    pub chunk_size: i32,
}

/// What the upload service is asked to create for a new upload.
#[derive(Debug)]
pub struct CreateUploadParams {
    /// The file's name.
    pub name: String,
    /// The file's hash.
    pub hash: String,
    /// The file's size in bytes.
    pub size: i64,
    /// The size of its chunks in bytes.
    pub chunk_size: i32,
}

impl CreateUploadDto {
    /// The parameters for the upload service, field by field.
    pub fn into_params(self) -> (res: CreateUploadParams)
        ensures
            res.name == self.name,
            res.hash == self.hash,
            res.size == self.size,
            res.chunk_size == self.chunk_size,
    {
        CreateUploadParams {
            name: self.name,
            hash: self.hash,
            size: self.size,
            chunk_size: self.chunk_size,
        }
    }
}

/// One chunk of an upload, as the upload service stores it.
#[derive(Debug)]
pub struct CreateUploadChunkParams {
    /// The upload the chunk belongs to.
    pub upload_id: u128,
    /// The chunk's position in the file.
    pub index: i32,
    /// The chunk's bytes.
    pub chunk: Vec<u8>,
}

/// The fields of the multipart form of a chunk.
#[derive(Debug, Clone, Copy, PartialEq, Eq, Structural)]
pub enum ChunkField {
    /// `uploadId`: the upload's id as text.
    UploadId,
    /// `index`: the chunk's position as decimal text.
    Index,
    /// `chunk`: the chunk's bytes.
    Chunk,
    /// Any other field, which is ignored.
    Other,
}

/// Which field a form field's name denotes.
pub open spec fn spec_chunk_field(name: Option<Seq<char>>) -> ChunkField {
    match name {
        Some(n) => if n == "uploadId"@ {
            ChunkField::UploadId
        } else if n == "index"@ {
            ChunkField::Index
        } else if n == "chunk"@ {
            ChunkField::Chunk
        } else {
            ChunkField::Other
        },
        None => ChunkField::Other,
    }
}

/// Which field a form field's name denotes; the handler reads `uploadId` and
/// `index` as text and `chunk` as bytes.
pub fn classify_chunk_field(name: Option<&str>) -> (res: ChunkField)
    ensures
        res == spec_chunk_field(
            match name {
                Some(n) => Some(n@),
                None => None,
            },
        ),
{
    match name {
        None => ChunkField::Other,
        Some(n) => {
            let owned = n.to_owned();
            if owned == "uploadId".to_owned() {
                ChunkField::UploadId
            } else if owned == "index".to_owned() {
                ChunkField::Index
            } else if owned == "chunk".to_owned() {
                ChunkField::Chunk
            } else {
                ChunkField::Other
            }
        },
    }
}

/// Why the form of a chunk was refused.
#[derive(Debug)]
pub enum UploadFormError {
    /// The `uploadId` field could not be read as text.
    InvalidUuid,
    /// The `uploadId` text is not a UUID.
    UuidSyntax,
    /// The `index` field could not be read from the request.
    Multipart,
    /// The `index` text is not an `i32`.
    InvalidI32,
    /// The `chunk` field could not be read as bytes.
    InvalidBytes,
    /// A required field is missing; the name of the field.
    MissingField(String),
}

/// The fields of a chunk's form read so far; a field that comes again
/// replaces the earlier one.
#[derive(Debug)]
pub struct ChunkForm {
    upload_id: Option<u128>,
    index: Option<i32>,
    chunk: Option<Vec<u8>>,
}

impl ChunkForm {
    /// The upload id read so far.
    pub closed spec fn spec_upload_id(&self) -> Option<u128> {
        self.upload_id
    }

    /// The index read so far.
    pub closed spec fn spec_index(&self) -> Option<i32> {
        self.index
    }

    /// The chunk read so far.
    pub closed spec fn spec_chunk(&self) -> Option<Seq<u8>> {
        match self.chunk {
            Some(c) => Some(c@),
            None => None,
        }
    }

    /// A form with nothing read.
    pub fn new() -> (res: ChunkForm)
        ensures
            res.spec_upload_id() is None,
            res.spec_index() is None,
            res.spec_chunk() is None,
    {
        ChunkForm { upload_id: None, index: None, chunk: None }
    }

    /// Takes the text of an `uploadId` field, or `None` when it could not be
    /// read.
    pub fn accept_upload_id(&mut self, text: Option<&str>) -> (res: Result<(), UploadFormError>)
        ensures
            final(self).spec_index() == old(self).spec_index(),
            final(self).spec_chunk() == old(self).spec_chunk(),
            match text {
                None => res == Err::<(), UploadFormError>(UploadFormError::InvalidUuid),
                Some(t) => match uuid_from_text(t@) {
                    None => res == Err::<(), UploadFormError>(UploadFormError::UuidSyntax),
                    Some(id) => res is Ok && final(self).spec_upload_id() == Some(id),
                },
            },
            res is Err ==> final(self).spec_upload_id() == old(self).spec_upload_id(),
    {
        match text {
            None => Err(UploadFormError::InvalidUuid),
            Some(t) => match parse_uuid(t) {
                None => Err(UploadFormError::UuidSyntax),
                Some(id) => {
                    self.upload_id = Some(id);
                    Ok(())
                },
            },
        }
    }

    /// Takes the text of an `index` field, or `None` when it could not be
    /// read.
    pub fn accept_index(&mut self, text: Option<&str>) -> (res: Result<(), UploadFormError>)
        ensures
            final(self).spec_upload_id() == old(self).spec_upload_id(),
            final(self).spec_chunk() == old(self).spec_chunk(),
            match text {
                None => res == Err::<(), UploadFormError>(UploadFormError::Multipart),
                Some(t) => match parse_i32_spec(t@) {
                    None => res == Err::<(), UploadFormError>(UploadFormError::InvalidI32),
                    Some(n) => res is Ok && final(self).spec_index() == Some(n),
                },
            },
            res is Err ==> final(self).spec_index() == old(self).spec_index(),
    {
        match text {
            None => Err(UploadFormError::Multipart),
            Some(t) => match parse_i32(t) {
                None => Err(UploadFormError::InvalidI32),
                Some(n) => {
                    self.index = Some(n);
                    Ok(())
                },
            },
        }
    }

    /// Takes the bytes of a `chunk` field, or `None` when they could not be
    /// read.
    pub fn accept_chunk(&mut self, bytes: Option<Vec<u8>>) -> (res: Result<(), UploadFormError>)
        ensures
            final(self).spec_upload_id() == old(self).spec_upload_id(),
            final(self).spec_index() == old(self).spec_index(),
            match bytes {
                None => res == Err::<(), UploadFormError>(UploadFormError::InvalidBytes)
                    && final(self).spec_chunk() == old(self).spec_chunk(),
                Some(b) => res is Ok && final(self).spec_chunk() == Some(b@),
            },
    {
        match bytes {
            None => Err(UploadFormError::InvalidBytes),
            Some(b) => {
                self.chunk = Some(b);
                Ok(())
            },
        }
    }

    /// The chunk once the form has been read: refused, naming the first
    /// missing field of `uploadId`, `index` and `chunk`, unless all three
    /// were read.
    pub fn finish(self) -> (res: Result<CreateUploadChunkParams, UploadFormError>)
        ensures
            match (self.spec_upload_id(), self.spec_index(), self.spec_chunk()) {
                (Some(id), Some(index), Some(chunk)) => res matches Ok(p) && p.upload_id == id
                    && p.index == index && p.chunk@ == chunk,
                (None, _, _) => res matches Err(UploadFormError::MissingField(f)) && f@
                    == "uploadId"@,
                (Some(_), None, _) => res matches Err(UploadFormError::MissingField(f)) && f@
                    == "index"@,
                (Some(_), Some(_), None) => res matches Err(UploadFormError::MissingField(f))
                    && f@ == "chunk"@,
            },
    {
        let upload_id = match self.upload_id {
            Some(id) => id,
            None => return Err(UploadFormError::MissingField("uploadId".to_owned())),
        };
        let index = match self.index {
            Some(i) => i,
            None => return Err(UploadFormError::MissingField("index".to_owned())),
        };
        let chunk = match self.chunk {
            Some(c) => c,
            None => return Err(UploadFormError::MissingField("chunk".to_owned())),
        };
        Ok(CreateUploadChunkParams { upload_id, index, chunk })
    }
}

/// The `Content-Disposition` header of a downloaded file: an attachment
/// whose UTF-8 file name is percent-encoded.
pub fn content_disposition(file_name: &str) -> (res: String)
    ensures
        res@ == "attachment; filename*=UTF-8''"@ + percent_encode(encode_utf8(file_name@)),
{
    let mut res = String::new();
    res.append("attachment; filename*=UTF-8''");
    let encoded = encode_url(file_name);
    res.append(encoded.as_str());
    res
}

/// What a download answers once the upload record has been looked up and,
/// when there is one, its file opened: `NotFound` when there is no record
/// with the id or its file could not be opened, otherwise the
/// `Content-Disposition` header that names the file.
pub fn download_disposition(upload_name: Option<&str>, file_opened: bool) -> (res: Result<String, ServerError>)
    ensures
        match upload_name {
            Some(name) if file_opened => res matches Ok(h) && h@ == "attachment; filename*=UTF-8''"@
                + percent_encode(encode_utf8(name@)),
            _ => res matches Err(ServerError::Exception(x)) && x.spec_code()
                == ServerExceptionCode::NotFound,
        },
{
    match upload_name {
        None => Err(ServerError::from_code(ServerExceptionCode::NotFound)),
        Some(name) => {
            if !file_opened {
                return Err(ServerError::from_code(ServerExceptionCode::NotFound));
            }
            Ok(content_disposition(name))
        },
    }
}

} // verus!
