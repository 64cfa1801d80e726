use vstd::prelude::*;

verus! {

/// Why a submission or a feed read failed. Client mistakes (a malformed
/// submission, an avatar URL that could not be fetched) are kept apart
/// from server-side faults (blob writes, storage), because they surface
/// with different status classes.
#[derive(Debug)]
pub enum AppError {
    /// The multipart structure or a field's text decoding is invalid.
    MalformedSubmission(String),
    /// The outbound avatar retrieval failed (network, non-success response).
    MediaFetchError(String),
    /// A local blob write failed.
    MediaWriteError(String),
    /// Schema or connection setup failed at startup.
    StorageInitError(String),
    /// A record insert failed.
    StorageWriteError(String),
    /// A record query failed.
    StorageReadError(String),
}

impl AppError {
    /// The status code the failure surfaces with: 400 for errors the
    /// client caused, 500 for everything the server is answerable for.
    pub open spec fn spec_status(&self) -> u16 {
        match self {
            AppError::MalformedSubmission(_) => 400,
            AppError::MediaFetchError(_) => 400,
            AppError::MediaWriteError(_) => 500,
            AppError::StorageInitError(_) => 500,
            AppError::StorageWriteError(_) => 500,
            AppError::StorageReadError(_) => 500,
        }
    }

    pub open spec fn is_client_error(&self) -> bool {
        self.spec_status() == 400
    }

    pub open spec fn spec_detail(&self) -> Seq<char> {
        match self {
            AppError::MalformedSubmission(s) => s@,
            AppError::MediaFetchError(s) => s@,
            AppError::MediaWriteError(s) => s@,
            AppError::StorageInitError(s) => s@,
            AppError::StorageWriteError(s) => s@,
            AppError::StorageReadError(s) => s@,
        }
    }

    pub fn status_code(&self) -> (r: u16)
        ensures
            r == self.spec_status(),
    {
        match self {
            AppError::MalformedSubmission(_) => 400,
            AppError::MediaFetchError(_) => 400,
            AppError::MediaWriteError(_) => 500,
            AppError::StorageInitError(_) => 500,
            AppError::StorageWriteError(_) => 500,
            AppError::StorageReadError(_) => 500,
        }
    }

    /// The human-readable detail the failure carries.
    pub fn detail(&self) -> (r: &String)
        ensures
            r@ == self.spec_detail(),
    {
        match self {
            AppError::MalformedSubmission(s) => s,
            AppError::MediaFetchError(s) => s,
            AppError::MediaWriteError(s) => s,
            AppError::StorageInitError(s) => s,
            AppError::StorageWriteError(s) => s,
            AppError::StorageReadError(s) => s,
        }
    }
}

} // verus!
