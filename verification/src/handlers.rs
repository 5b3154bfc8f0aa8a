//! What each request is answered with, given what was found on disk.

use crate::checksum::calculate_file_checksum;
use crate::checksum::checksum_matches;
use crate::checksum::checksum_text;
use crate::clock::Instant;
use crate::metadata::client_entry;
use crate::metadata::ClientKernelEntry;
use crate::metadata::ClientKernelInfo;
use crate::metadata::KernelEntry;
use crate::metadata::KernelInfo;
use crate::metadata_manager::ImageState;
use crate::metadata_manager::ingestion;
use crate::metadata_manager::StoredCatalog;
use crate::text::check_safe_file_name;
use crate::text::is_safe_file_name;
use vstd::prelude::*;

verus! {

/// The path of the health check.
pub const HEALTH_ROUTE: &'static str = "health";

/// The path under which the latest version is asked for.
pub const VERSION_ROUTE: &'static str = "version";

/// The path under which images are fetched, each by its file name.
pub const KERNELS_ROUTE: &'static str = "kernels";

/// The status of a successful reply.
pub const STATUS_OK: u16 = 200;

/// The status of a reply to a request for something that is not there.
pub const STATUS_NOT_FOUND: u16 = 404;

/// The status of a reply to a request that failed inside the server.
pub const STATUS_INTERNAL_ERROR: u16 = 500;

/// The header that carries the checksum of a served image.
pub const CHECKSUM_HEADER: &'static str = "x-checksum";

/// The header that carries the content type of a served image.
pub const CONTENT_TYPE_HEADER: &'static str = "content-type";

/// The body of a reply that reports an error.
#[derive(Debug, PartialEq, Eq)]
pub struct ErrorResponse {
    pub error: String,
}

/// The body of the reply to a health check.
#[derive(Debug, PartialEq, Eq)]
pub struct HealthStatus {
    pub status: String,
}

/// How a request ended: with what was asked for, or with one of two kinds of
/// error. No request ends in any other way.
#[derive(Debug, PartialEq, Eq)]
pub enum Reply<T> {
    Success(T),
    NotFound(ErrorResponse),
    InternalError(ErrorResponse),
}

/// What a `Reply` stands for; an error by its message.
pub enum Outcome<V> {
    Success(V),
    NotFound(Seq<char>),
    InternalError(Seq<char>),
}

impl<T: View> View for Reply<T> {
    type V = Outcome<T::V>;

    open spec fn view(&self) -> Outcome<T::V> {
        match self {
            Reply::Success(payload) => Outcome::Success(payload@),
            Reply::NotFound(body) => Outcome::NotFound(body.error@),
            Reply::InternalError(body) => Outcome::InternalError(body.error@),
        }
    }
}

/// The status that belongs to an outcome.
pub open spec fn status_of<V>(outcome: Outcome<V>) -> u16 {
    match outcome {
        Outcome::Success(_) => STATUS_OK,
        Outcome::NotFound(_) => STATUS_NOT_FOUND,
        Outcome::InternalError(_) => STATUS_INTERNAL_ERROR,
    }
}

impl<T: View> Reply<T> {
    /// The status to send.
    pub fn status_code(&self) -> (code: u16)
        ensures
            code == status_of(self@),
    {
        match self {
            Reply::Success(_) => STATUS_OK,
            Reply::NotFound(_) => STATUS_NOT_FOUND,
            Reply::InternalError(_) => STATUS_INTERNAL_ERROR,
        }
    }
}

/// What was found where the record of the latest kernel is kept.
#[derive(Debug, PartialEq, Eq)]
pub enum LatestRecord {
    /// No record exists: nothing has been ingested yet.
    Missing,
    /// A record exists, and reading it failed.
    Unreadable,
    /// A record exists, and what it holds is no kernel record: it is no
    /// text, or text that does not decode.
    Malformed,
    /// The record.
    Parsed(KernelInfo),
}

/// What a `LatestRecord` stands for.
pub enum LatestState {
    Missing,
    Unreadable,
    Malformed,
    Parsed(KernelEntry),
}

impl View for LatestRecord {
    type V = LatestState;

    open spec fn view(&self) -> LatestState {
        match self {
            LatestRecord::Missing => LatestState::Missing,
            LatestRecord::Unreadable => LatestState::Unreadable,
            LatestRecord::Malformed => LatestState::Malformed,
            LatestRecord::Parsed(info) => LatestState::Parsed(info@),
        }
    }
}

/// What was found of a requested image.
#[derive(Debug, PartialEq, Eq)]
pub enum KernelFile {
    /// No such file in the image directory.
    Missing,
    /// The file is there, and its checksum could not be computed.
    ChecksumFailed,
    /// The file is there, and reading it failed.
    ReadFailed,
    /// The bytes of the file as they are now.
    Loaded(Vec<u8>),
}

/// What a `KernelFile` stands for.
pub enum KernelFileState {
    Missing,
    ChecksumFailed,
    ReadFailed,
    Loaded(Seq<u8>),
}

impl View for KernelFile {
    type V = KernelFileState;

    open spec fn view(&self) -> KernelFileState {
        match self {
            KernelFile::Missing => KernelFileState::Missing,
            KernelFile::ChecksumFailed => KernelFileState::ChecksumFailed,
            KernelFile::ReadFailed => KernelFileState::ReadFailed,
            KernelFile::Loaded(contents) => KernelFileState::Loaded(contents@),
        }
    }
}

/// An image on its way to a client: the bytes, their content type, and the
/// checksum sent in the `x-checksum` header.
#[derive(Debug, PartialEq, Eq)]
pub struct KernelDownload {
    pub contents: Vec<u8>,
    pub content_type: String,
    pub checksum: String,
}

/// What a `KernelDownload` stands for.
#[verifier::ext_equal]
pub struct Download {
    pub contents: Seq<u8>,
    pub content_type: Seq<char>,
    pub checksum: Seq<char>,
}

impl View for KernelDownload {
    type V = Download;

    open spec fn view(&self) -> Download {
        Download {
            contents: self.contents@,
            content_type: self.content_type@,
            checksum: self.checksum@,
        }
    }
}

/// The answer to a request for the latest version. Only where no record
/// exists is it "not found"; a record that exists and cannot be read or
/// decoded is an error inside the server.
pub open spec fn latest_version_outcome(record: LatestState) -> Outcome<ClientKernelEntry> {
    match record {
        LatestState::Missing => Outcome::NotFound("No version information available"@),
        LatestState::Unreadable => Outcome::InternalError("Invalid metadata format"@),
        LatestState::Malformed => Outcome::InternalError("Invalid metadata format"@),
        LatestState::Parsed(entry) => Outcome::Success(client_entry(entry)),
    }
}

/// The download that serves `contents`: the bytes as they are, with the
/// checksum of exactly these bytes.
pub open spec fn download_of(contents: Seq<u8>) -> Download {
    Download {
        contents,
        content_type: "application/octet-stream"@,
        checksum: checksum_text(contents),
    }
}

/// The answer to a request for the image named `file_name`. A name that
/// would lead out of the image directory is answered like a file that is not
/// there, whatever was found.
pub open spec fn kernel_file_outcome(file_name: Seq<char>, file: KernelFileState) -> Outcome<
    Download,
> {
    if !is_safe_file_name(file_name) {
        Outcome::NotFound("File not found"@)
    } else {
        match file {
            KernelFileState::Missing => Outcome::NotFound("File not found"@),
            KernelFileState::ChecksumFailed => Outcome::InternalError(
                "Error calculating checksum"@,
            ),
            KernelFileState::ReadFailed => Outcome::InternalError("Error reading file"@),
            KernelFileState::Loaded(contents) => Outcome::Success(download_of(contents)),
        }
    }
}

fn not_found<T>(message: &str) -> (reply: Reply<T>)
    ensures
        reply matches Reply::NotFound(body) && body.error@ == message@,
{
    Reply::NotFound(ErrorResponse { error: message.to_owned() })
}

fn internal_error<T>(message: &str) -> (reply: Reply<T>)
    ensures
        reply matches Reply::InternalError(body) && body.error@ == message@,
{
    Reply::InternalError(ErrorResponse { error: message.to_owned() })
}

/// Answers a health check.
pub fn health() -> (body: HealthStatus)
    ensures
        body.status@ == "healthy"@,
{
    HealthStatus { status: String::from_str("healthy") }
}

/// Answers a request for the latest version.
pub fn get_latest_version(record: LatestRecord) -> (reply: Reply<ClientKernelInfo>)
    ensures
        reply@ == latest_version_outcome(record@),
{
    match record {
        LatestRecord::Missing => not_found("No version information available"),
        LatestRecord::Unreadable => internal_error("Invalid metadata format"),
        LatestRecord::Malformed => internal_error("Invalid metadata format"),
        LatestRecord::Parsed(info) => Reply::Success(info.to_client_format()),
    }
}

/// Answers a request for the image named `file_name`, of which `file` was
/// found. The checksum sent is computed here, from the bytes that are sent.
pub fn serve_kernel_file(file_name: &str, file: KernelFile) -> (reply: Reply<KernelDownload>)
    ensures
        reply@ == kernel_file_outcome(file_name@, file@),
{
    if !check_safe_file_name(file_name) {
        return not_found("File not found");
    }
    match file {
        KernelFile::Missing => not_found("File not found"),
        KernelFile::ChecksumFailed => internal_error("Error calculating checksum"),
        KernelFile::ReadFailed => internal_error("Error reading file"),
        KernelFile::Loaded(contents) => {
            let checksum = calculate_file_checksum(contents.as_slice());
            Reply::Success(
                KernelDownload {
                    contents,
                    content_type: String::from_str("application/octet-stream"),
                    checksum,
                },
            )
        },
    }
}

/// A request for the latest version is answered "not found" exactly where no
/// record exists, with success exactly where the record was decoded, and as
/// an error inside the server in every other case.
pub proof fn lemma_latest_version_classes(record: LatestState)
    ensures
        status_of(latest_version_outcome(record)) == STATUS_NOT_FOUND <==> record is Missing,
        status_of(latest_version_outcome(record)) == STATUS_OK <==> record is Parsed,
        status_of(latest_version_outcome(record)) == STATUS_INTERNAL_ERROR <==> (record is Unreadable
            || record is Malformed),
{
}

/// Before anything is ingested no record of the latest kernel exists, and
/// the request is answered with "not found". Once a version is ingested, its
/// record answers the request: with success, and under the ingested version.
pub proof fn lemma_latest_version_follows_ingestion(
    version: Seq<char>,
    kernel_file: Seq<char>,
    description: Seq<char>,
    image: ImageState,
    stored: StoredCatalog,
    release_date: Instant,
)
    ensures
        status_of(latest_version_outcome(LatestState::Missing)) == STATUS_NOT_FOUND,
        ingestion(version, kernel_file, description, image, stored, release_date) matches Ok(
            change,
        ) ==> {
            &&& latest_version_outcome(LatestState::Parsed(change.latest)) matches Outcome::Success(
                client,
            )
            &&& client.latest_version == version
            &&& client.kernel_file == kernel_file
            &&& client == client_entry(change.latest)
        },
{
}

/// The checksum sent with an image is the checksum of the bytes sent: it
/// verifies against them, whatever the catalog says of the image.
pub proof fn lemma_served_checksum_verifies(file_name: Seq<char>, file: KernelFileState)
    ensures
        kernel_file_outcome(file_name, file) matches Outcome::Success(download) ==> {
            &&& file == KernelFileState::Loaded(download.contents)
            &&& checksum_matches(download.contents, download.checksum)
        },
{
}

/// A request for an image that is not there, or for a name that is no file
/// name, is answered with "not found".
pub proof fn lemma_missing_file_not_found(file_name: Seq<char>, file: KernelFileState)
    requires
        file is Missing || !is_safe_file_name(file_name),
    ensures
        status_of(kernel_file_outcome(file_name, file)) == STATUS_NOT_FOUND,
{
}

} // verus!
