//! Ingestion: what recording a new kernel version changes in the catalog.

use crate::catalog::Catalog;
use crate::catalog::consistent;
use crate::catalog::empty_catalog;
use crate::catalog::lemma_both_versions_kept;
use crate::catalog::lemma_lookup_recorded;
use crate::catalog::lemma_record_consistent;
use crate::catalog::lemma_record_in_empty;
use crate::catalog::lemma_same_version_replaced;
use crate::catalog::lookup;
use crate::catalog::occurs_once;
use crate::catalog::record;
use crate::catalog::versions_unique;
use crate::checksum::calculate_file_checksum;
use crate::checksum::checksum_matches;
use crate::checksum::checksum_text;
use crate::clock::Instant;
use crate::clock::Timestamp;
use crate::config::kernel_path_of;
use crate::config::Paths;
use crate::metadata::kernel_entry;
use crate::metadata::KernelEntry;
use crate::metadata::KernelInfo;
use crate::metadata::VersionHistory;
use crate::text::check_safe_file_name;
use crate::text::is_safe_file_name;
use crate::text::joined_path;
use vstd::prelude::*;

verus! {

/// Why the catalog could not be read or changed.
#[derive(Debug, PartialEq, Eq)]
pub enum CatalogError {
    /// The image to ingest does not exist in the image directory.
    NotFound(String),
    /// What is stored cannot be understood, or its two records differ.
    InvalidState,
    /// Reading or writing failed, be it an image, a record or the system
    /// clock, and the stored records are as they were.
    IoFailure,
}

/// What a `CatalogError` stands for.
pub enum CatalogFault {
    NotFound(Seq<char>),
    InvalidState,
    IoFailure,
}

impl View for CatalogError {
    type V = CatalogFault;

    open spec fn view(&self) -> CatalogFault {
        match self {
            CatalogError::NotFound(file) => CatalogFault::NotFound(file@),
            CatalogError::InvalidState => CatalogFault::InvalidState,
            CatalogError::IoFailure => CatalogFault::IoFailure,
        }
    }
}

/// The text of an error, as shown to the operator.
pub open spec fn fault_message(fault: CatalogFault) -> Seq<char> {
    match fault {
        CatalogFault::NotFound(file) => "Kernel file not found: "@ + file,
        CatalogFault::InvalidState => "Stored metadata is invalid"@,
        CatalogFault::IoFailure => "Reading or writing failed"@,
    }
}

impl CatalogError {
    /// The text of the error, as shown to the operator.
    pub fn message(&self) -> (text: String)
        ensures
            text@ == fault_message(self@),
    {
        match self {
            CatalogError::NotFound(file) => {
                let mut text = String::from_str("Kernel file not found: ");
                text.append(file.as_str());
                text
            },
            CatalogError::InvalidState => String::from_str("Stored metadata is invalid"),
            CatalogError::IoFailure => String::from_str("Reading or writing failed"),
        }
    }
}

/// What was found where the version history is kept.
#[derive(Debug, PartialEq, Eq)]
pub enum StoredHistory {
    /// Nothing has been stored yet.
    Absent,
    /// Something is stored, and reading it failed.
    Unreadable,
    /// Something is stored that is no version history.
    Corrupt,
    /// The stored history.
    Parsed(VersionHistory),
}

/// What a `StoredHistory` stands for.
pub enum StoredCatalog {
    Absent,
    Unreadable,
    Corrupt,
    Parsed(Catalog),
}

impl View for StoredHistory {
    type V = StoredCatalog;

    open spec fn view(&self) -> StoredCatalog {
        match self {
            StoredHistory::Absent => StoredCatalog::Absent,
            StoredHistory::Unreadable => StoredCatalog::Unreadable,
            StoredHistory::Corrupt => StoredCatalog::Corrupt,
            StoredHistory::Parsed(history) => StoredCatalog::Parsed(history@),
        }
    }
}

/// What was found of the image that is to be ingested.
#[derive(Debug, PartialEq, Eq)]
pub enum ImageProbe {
    /// No such file in the image directory.
    Missing,
    /// The file is there, and reading it failed.
    Unreadable,
    /// The file's length in bytes and the checksum of its contents.
    Found { file_size: u64, checksum: String },
}

/// What an `ImageProbe` stands for.
pub enum ImageState {
    Missing,
    Unreadable,
    Found { file_size: u64, checksum: Seq<char> },
}

impl View for ImageProbe {
    type V = ImageState;

    open spec fn view(&self) -> ImageState {
        match self {
            ImageProbe::Missing => ImageState::Missing,
            ImageProbe::Unreadable => ImageState::Unreadable,
            ImageProbe::Found { file_size, checksum } => ImageState::Found {
                file_size: *file_size,
                checksum: checksum@,
            },
        }
    }
}

/// What is found of an image whose whole content is `contents`.
pub open spec fn image_of(contents: Seq<u8>) -> ImageState {
    ImageState::Found { file_size: contents.len() as u64, checksum: checksum_text(contents) }
}

impl ImageProbe {
    /// What is found of an image that has been read whole: its length and
    /// the checksum of its bytes.
    pub fn from_contents(contents: &[u8]) -> (probe: ImageProbe)
        ensures
            probe@ == image_of(contents@),
    {
        ImageProbe::Found {
            file_size: contents.len() as u64,
            checksum: calculate_file_checksum(contents),
        }
    }
}

/// The two records to store after an ingestion. They are written together:
/// `latest` is the record of the ingested version, and `history` holds that
/// same record under the version it names as the latest.
#[derive(Debug, PartialEq, Eq)]
pub struct CatalogUpdate {
    pub latest: KernelInfo,
    pub history: VersionHistory,
}

/// What a `CatalogUpdate` stands for.
#[verifier::ext_equal]
pub struct CatalogChange {
    pub latest: KernelEntry,
    pub history: Catalog,
}

impl View for CatalogUpdate {
    type V = CatalogChange;

    open spec fn view(&self) -> CatalogChange {
        CatalogChange { latest: self.latest@, history: self.history@ }
    }
}

/// What listing gives for what is stored: the stored history, or the empty
/// catalog where nothing is stored yet.
pub open spec fn listed(stored: StoredCatalog) -> Result<Catalog, CatalogFault> {
    match stored {
        StoredCatalog::Absent => Ok(empty_catalog()),
        StoredCatalog::Unreadable => Err(CatalogFault::IoFailure),
        StoredCatalog::Corrupt => Err(CatalogFault::InvalidState),
        StoredCatalog::Parsed(catalog) => Ok(catalog),
    }
}

/// The history after `entry` is recorded in what is stored. A stored history
/// that cannot be understood is left as it is: recording in it is an error,
/// and nothing takes its place.
pub open spec fn history_after(stored: StoredCatalog, entry: KernelEntry) -> Result<
    Catalog,
    CatalogFault,
> {
    match stored {
        StoredCatalog::Absent => Ok(record(empty_catalog(), entry)),
        StoredCatalog::Unreadable => Err(CatalogFault::IoFailure),
        StoredCatalog::Corrupt => Err(CatalogFault::InvalidState),
        StoredCatalog::Parsed(catalog) => Ok(record(catalog, entry)),
    }
}

/// What ingesting an image at the instant `release_date` gives. The image
/// must lie in the image directory under a name that stays inside it; its
/// record then becomes the latest and enters the history.
pub open spec fn ingestion(
    version: Seq<char>,
    kernel_file: Seq<char>,
    description: Seq<char>,
    image: ImageState,
    stored: StoredCatalog,
    release_date: Instant,
) -> Result<CatalogChange, CatalogFault> {
    if !is_safe_file_name(kernel_file) {
        Err(CatalogFault::NotFound(kernel_file))
    } else {
        match image {
            ImageState::Missing => Err(CatalogFault::NotFound(kernel_file)),
            ImageState::Unreadable => Err(CatalogFault::IoFailure),
            ImageState::Found { file_size, checksum } => {
                let entry = kernel_entry(
                    version,
                    kernel_file,
                    file_size,
                    checksum,
                    description,
                    release_date,
                );
                match history_after(stored, entry) {
                    Ok(history) => Ok(CatalogChange { latest: entry, history }),
                    Err(fault) => Err(fault),
                }
            },
        }
    }
}

/// The error with which an ingestion fails whatever the time is: the image is
/// not there under a name that stays inside the image directory, or it cannot
/// be read, or what is stored of the history cannot be read or understood.
/// `None` where the ingestion succeeds.
pub open spec fn ingestion_fault(
    kernel_file: Seq<char>,
    image: ImageState,
    stored: StoredCatalog,
) -> Option<CatalogFault> {
    if !is_safe_file_name(kernel_file) {
        Some(CatalogFault::NotFound(kernel_file))
    } else {
        match image {
            ImageState::Missing => Some(CatalogFault::NotFound(kernel_file)),
            ImageState::Unreadable => Some(CatalogFault::IoFailure),
            ImageState::Found { .. } => match stored {
                StoredCatalog::Unreadable => Some(CatalogFault::IoFailure),
                StoredCatalog::Corrupt => Some(CatalogFault::InvalidState),
                _ => None,
            },
        }
    }
}

/// What ingesting an image gives for a reading of the system clock. With a
/// time it is the ingestion at that time. Without one, an ingestion that
/// would succeed fails as an I/O failure, and one that would fail fails as it
/// would.
pub open spec fn ingestion_at_reading(
    version: Seq<char>,
    kernel_file: Seq<char>,
    description: Seq<char>,
    image: ImageState,
    stored: StoredCatalog,
    now: Option<Instant>,
) -> Result<CatalogChange, CatalogFault> {
    match now {
        Some(release_date) => ingestion(
            version,
            kernel_file,
            description,
            image,
            stored,
            release_date,
        ),
        None => match ingestion_fault(kernel_file, image, stored) {
            Some(fault) => Err(fault),
            None => Err(CatalogFault::IoFailure),
        },
    }
}

/// The view of a reading of the clock.
pub open spec fn reading_view(now: Option<Timestamp>) -> Option<Instant> {
    match now {
        Some(timestamp) => Some(timestamp@),
        None => None,
    }
}

/// How an ingestion ends, given which of the two records were written. Only
/// with both written has it succeeded. With neither written nothing has
/// changed; with one written the stored records differ, which is an error
/// of its own and never a success.
pub open spec fn stored_outcome(latest_written: bool, history_written: bool) -> Result<
    (),
    CatalogFault,
> {
    if latest_written && history_written {
        Ok(())
    } else if !latest_written && !history_written {
        Err(CatalogFault::IoFailure)
    } else {
        Err(CatalogFault::InvalidState)
    }
}

/// The view of a result.
pub open spec fn stored_view(result: Result<(), CatalogError>) -> Result<(), CatalogFault> {
    match result {
        Ok(_) => Ok(()),
        Err(error) => Err(error@),
    }
}

/// The view of a result.
pub open spec fn change_view(result: Result<CatalogUpdate, CatalogError>) -> Result<
    CatalogChange,
    CatalogFault,
> {
    match result {
        Ok(update) => Ok(update@),
        Err(error) => Err(error@),
    }
}

/// The view of a result.
pub open spec fn history_view(result: Result<VersionHistory, CatalogError>) -> Result<
    Catalog,
    CatalogFault,
> {
    match result {
        Ok(history) => Ok(history@),
        Err(error) => Err(error@),
    }
}

/// Whether an ingestion fails, and with which error, does not depend on the
/// time: it fails exactly where `ingestion_fault` names an error, and with
/// that error.
pub proof fn lemma_ingestion_fails_with_its_fault(
    version: Seq<char>,
    kernel_file: Seq<char>,
    description: Seq<char>,
    image: ImageState,
    stored: StoredCatalog,
    release_date: Instant,
)
    ensures
        ingestion_fault(kernel_file, image, stored) matches Some(fault) ==> ingestion(
            version,
            kernel_file,
            description,
            image,
            stored,
            release_date,
        ) == Err::<CatalogChange, CatalogFault>(fault),
        ingestion_fault(kernel_file, image, stored) is None ==> ingestion(
            version,
            kernel_file,
            description,
            image,
            stored,
            release_date,
        ) is Ok,
{
}

/// A stored history that cannot be understood is never written over: every
/// ingestion into it fails, as an invalid state or with the error of its
/// image.
pub proof fn lemma_corrupt_history_is_kept(
    version: Seq<char>,
    kernel_file: Seq<char>,
    description: Seq<char>,
    image: ImageState,
    now: Option<Instant>,
)
    ensures
        ingestion_at_reading(
            version,
            kernel_file,
            description,
            image,
            StoredCatalog::Corrupt,
            now,
        ) is Err,
        image is Found && is_safe_file_name(kernel_file) ==> ingestion_at_reading(
            version,
            kernel_file,
            description,
            image,
            StoredCatalog::Corrupt,
            now,
        ) == Err::<CatalogChange, CatalogFault>(CatalogFault::InvalidState),
{
}

/// The first ingestion: into a store that holds no history yet. The history
/// is then the one new record.
pub proof fn lemma_first_ingestion(
    version: Seq<char>,
    kernel_file: Seq<char>,
    description: Seq<char>,
    image: ImageState,
    stored: StoredCatalog,
    release_date: Instant,
)
    requires
        stored is Absent,
    ensures
        ingestion(version, kernel_file, description, image, stored, release_date) matches Ok(
            change,
        ) ==> {
            &&& change.history.versions == seq![change.latest]
            &&& change.history.latest == version
            &&& change.latest.version == version
        },
{
    if let ImageState::Found { file_size, checksum } = image {
        lemma_record_in_empty(
            kernel_entry(version, kernel_file, file_size, checksum, description, release_date),
        );
    }
}

/// An ingestion that succeeds stores the record it was asked to make: the
/// version, file, size, checksum and description given, the URL that follows
/// from the file's name, and itself as the latest. A catalog without
/// duplicates stays consistent.
pub proof fn lemma_ingestion_records_the_image(
    version: Seq<char>,
    kernel_file: Seq<char>,
    description: Seq<char>,
    image: ImageState,
    stored: StoredCatalog,
    release_date: Instant,
)
    ensures
        ingestion(version, kernel_file, description, image, stored, release_date) matches Ok(
            change,
        ) ==> {
            &&& image matches ImageState::Found { file_size, checksum }
            &&& is_safe_file_name(kernel_file)
            &&& change.latest == kernel_entry(
                version,
                kernel_file,
                file_size,
                checksum,
                description,
                release_date,
            )
            &&& change.history.latest == version
            &&& lookup(change.history.versions, version) == Some(change.latest)
            &&& (stored matches StoredCatalog::Parsed(before) ==> (versions_unique(before.versions)
                ==> consistent(change.history)))
            &&& (!(stored is Parsed) ==> consistent(change.history))
        },
{
    if let ImageState::Found { file_size, checksum } = image {
        let entry = kernel_entry(
            version,
            kernel_file,
            file_size,
            checksum,
            description,
            release_date,
        );
        match stored {
            StoredCatalog::Parsed(before) => {
                lemma_lookup_recorded(before.versions, entry);
                if versions_unique(before.versions) {
                    lemma_record_consistent(before, entry);
                }
            },
            _ => {
                lemma_lookup_recorded(empty_catalog().versions, entry);
                lemma_record_consistent(empty_catalog(), entry);
            },
        }
    }
}

/// The record of an image that was read whole carries the checksum of its
/// bytes and their number: the checksum verifies against the image.
pub proof fn lemma_ingested_checksum_verifies(
    version: Seq<char>,
    kernel_file: Seq<char>,
    description: Seq<char>,
    contents: Seq<u8>,
    stored: StoredCatalog,
    release_date: Instant,
)
    requires
        contents.len() <= u64::MAX,
    ensures
        ingestion(
            version,
            kernel_file,
            description,
            image_of(contents),
            stored,
            release_date,
        ) matches Ok(change) ==> {
            &&& change.latest.file_size == contents.len()
            &&& checksum_matches(contents, change.latest.checksum)
        },
{
}

/// Ingesting two different versions, the second into what the first left,
/// leaves both to be found in the history, with the second as the latest.
pub proof fn lemma_two_ingestions_keep_both(
    stored: StoredCatalog,
    first: CatalogChange,
    second: CatalogChange,
    first_file: Seq<char>,
    first_description: Seq<char>,
    first_image: ImageState,
    first_date: Instant,
    second_file: Seq<char>,
    second_description: Seq<char>,
    second_image: ImageState,
    second_date: Instant,
)
    requires
        first.latest.version != second.latest.version,
        ingestion(
            first.latest.version,
            first_file,
            first_description,
            first_image,
            stored,
            first_date,
        ) == Ok::<CatalogChange, CatalogFault>(first),
        ingestion(
            second.latest.version,
            second_file,
            second_description,
            second_image,
            StoredCatalog::Parsed(first.history),
            second_date,
        ) == Ok::<CatalogChange, CatalogFault>(second),
    ensures
        lookup(second.history.versions, first.latest.version) == Some(first.latest),
        lookup(second.history.versions, second.latest.version) == Some(second.latest),
        second.history.latest == second.latest.version,
{
    let base = match stored {
        StoredCatalog::Parsed(catalog) => catalog,
        _ => empty_catalog(),
    };
    lemma_both_versions_kept(base, first.latest, second.latest);
}

/// Ingesting the same version twice, the second time into what the first
/// left, leaves one record of that version: the second, whatever it says of
/// file and description. The history is no longer than after the first time.
pub proof fn lemma_reingestion_replaces(
    stored: StoredCatalog,
    first: CatalogChange,
    second: CatalogChange,
    first_file: Seq<char>,
    first_description: Seq<char>,
    first_image: ImageState,
    first_date: Instant,
    second_file: Seq<char>,
    second_description: Seq<char>,
    second_image: ImageState,
    second_date: Instant,
)
    requires
        stored matches StoredCatalog::Parsed(before) ==> versions_unique(before.versions),
        first.latest.version == second.latest.version,
        ingestion(
            first.latest.version,
            first_file,
            first_description,
            first_image,
            stored,
            first_date,
        ) == Ok::<CatalogChange, CatalogFault>(first),
        ingestion(
            second.latest.version,
            second_file,
            second_description,
            second_image,
            StoredCatalog::Parsed(first.history),
            second_date,
        ) == Ok::<CatalogChange, CatalogFault>(second),
    ensures
        occurs_once(second.history.versions, second.latest.version),
        lookup(second.history.versions, second.latest.version) == Some(second.latest),
        second.history.versions.len() == first.history.versions.len(),
        second.history.latest == second.latest.version,
        consistent(second.history),
{
    let base = match stored {
        StoredCatalog::Parsed(catalog) => catalog,
        _ => empty_catalog(),
    };
    lemma_same_version_replaced(base, first.latest, second.latest);
}

/// Keeps the catalog of the images in one directory, with its records in
/// another.
#[derive(Debug, PartialEq, Eq)]
pub struct MetadataManager {
    paths: Paths,
}

impl MetadataManager {
    /// The directory of the images.
    pub closed spec fn kernels_dir(&self) -> Seq<char> {
        self.paths.kernels_dir@
    }

    /// The directory of the records.
    pub closed spec fn metadata_dir(&self) -> Seq<char> {
        self.paths.metadata_dir@
    }

    /// A manager for the two directories.
    pub fn new(kernels_dir: String, metadata_dir: String) -> (manager: Self)
        ensures
            manager.kernels_dir() == kernels_dir@,
            manager.metadata_dir() == metadata_dir@,
    {
        MetadataManager { paths: Paths { kernels_dir, metadata_dir } }
    }

    /// The two directories.
    pub fn paths(&self) -> (paths: &Paths)
        ensures
            paths.kernels_dir@ == self.kernels_dir(),
            paths.metadata_dir@ == self.metadata_dir(),
    {
        &self.paths
    }

    /// Where the image named `kernel_file` lies, or `None` for a name that
    /// would lead out of the image directory.
    pub fn kernel_path(&self, kernel_file: &str) -> (path: Option<String>)
        ensures
            path is Some <==> is_safe_file_name(kernel_file@),
            path matches Some(p) ==> Some(p@) == kernel_path_of(self.kernels_dir(), kernel_file@),
    {
        self.paths.kernel_path(kernel_file)
    }

    /// Ingests an image now. `image` says what was found under
    /// `kernel_path(kernel_file)`, and `stored` what was found of the
    /// history. An error means that nothing is to be stored. Where image and
    /// history allow the ingestion, it fails only if the system clock gives
    /// no time, and then as an I/O failure.
    pub fn add_kernel(
        &self,
        version: String,
        kernel_file: String,
        description: String,
        image: ImageProbe,
        stored: StoredHistory,
    ) -> (result: Result<CatalogUpdate, CatalogError>)
        ensures
            ingestion_fault(kernel_file@, image@, stored@) matches Some(fault) ==> change_view(
                result,
            ) == Err::<CatalogChange, CatalogFault>(fault),
            ingestion_fault(kernel_file@, image@, stored@) is None ==> match result {
                Ok(update) => change_view(result) == ingestion(
                    version@,
                    kernel_file@,
                    description@,
                    image@,
                    stored@,
                    update.latest.release_date@,
                ),
                Err(error) => error@ == CatalogFault::IoFailure,
            },
            result matches Ok(update) ==> {
                &&& update.history@.latest == version@
                &&& lookup(update.history@.versions, version@) == Some(update.latest@)
            },
    {
        self.add_kernel_with(version, kernel_file, description, image, stored, Timestamp::now())
    }

    /// Ingests an image at the time that the clock gave, if it gave one.
    pub fn add_kernel_with(
        &self,
        version: String,
        kernel_file: String,
        description: String,
        image: ImageProbe,
        stored: StoredHistory,
        now: Option<Timestamp>,
    ) -> (result: Result<CatalogUpdate, CatalogError>)
        ensures
            change_view(result) == ingestion_at_reading(
                version@,
                kernel_file@,
                description@,
                image@,
                stored@,
                reading_view(now),
            ),
            result matches Ok(update) ==> {
                &&& now matches Some(release_date)
                &&& update.latest.release_date@ == release_date@
                &&& update.history@.latest == version@
                &&& lookup(update.history@.versions, version@) == Some(update.latest@)
            },
    {
        match now {
            Some(release_date) => self.add_kernel_at(
                version,
                kernel_file,
                description,
                image,
                stored,
                release_date,
            ),
            None => {
                if !check_safe_file_name(kernel_file.as_str()) {
                    return Err(CatalogError::NotFound(kernel_file));
                }
                match image {
                    ImageProbe::Missing => Err(CatalogError::NotFound(kernel_file)),
                    ImageProbe::Unreadable => Err(CatalogError::IoFailure),
                    ImageProbe::Found { .. } => match stored {
                        StoredHistory::Corrupt => Err(CatalogError::InvalidState),
                        _ => Err(CatalogError::IoFailure),
                    },
                }
            },
        }
    }

    /// Ingests an image as released at `release_date`.
    pub fn add_kernel_at(
        &self,
        version: String,
        kernel_file: String,
        description: String,
        image: ImageProbe,
        stored: StoredHistory,
        release_date: Timestamp,
    ) -> (result: Result<CatalogUpdate, CatalogError>)
        ensures
            change_view(result) == ingestion(
                version@,
                kernel_file@,
                description@,
                image@,
                stored@,
                release_date@,
            ),
            result is Err ==> forall|other: Instant|
                change_view(result) == #[trigger] ingestion(
                    version@,
                    kernel_file@,
                    description@,
                    image@,
                    stored@,
                    other,
                ),
            result matches Ok(update) ==> {
                &&& update.latest.release_date@ == release_date@
                &&& update.history@.latest == version@
                &&& lookup(update.history@.versions, version@) == Some(update.latest@)
            },
    {
        if !check_safe_file_name(kernel_file.as_str()) {
            return Err(CatalogError::NotFound(kernel_file));
        }
        match image {
            ImageProbe::Missing => Err(CatalogError::NotFound(kernel_file)),
            ImageProbe::Unreadable => Err(CatalogError::IoFailure),
            ImageProbe::Found { file_size, checksum } => {
                let latest = KernelInfo::released_at(
                    version,
                    kernel_file,
                    file_size,
                    checksum,
                    description,
                    release_date,
                );
                match self.update_history(stored, &latest) {
                    Ok(history) => Ok(CatalogUpdate { latest, history }),
                    Err(error) => Err(error),
                }
            },
        }
    }

    /// The history after `kernel_info` is recorded in what is stored. A
    /// stored history that cannot be read or understood is an error, and
    /// stays as it is.
    pub fn update_history(&self, stored: StoredHistory, kernel_info: &KernelInfo) -> (result:
        Result<VersionHistory, CatalogError>)
        ensures
            history_view(result) == history_after(stored@, kernel_info@),
            result matches Ok(history) ==> {
                &&& history@.latest == kernel_info@.version
                &&& lookup(history@.versions, kernel_info@.version) == Some(kernel_info@)
            },
    {
        let mut history = match stored {
            StoredHistory::Absent => VersionHistory::new(),
            StoredHistory::Unreadable => {
                return Err(CatalogError::IoFailure);
            },
            StoredHistory::Corrupt => {
                return Err(CatalogError::InvalidState);
            },
            StoredHistory::Parsed(history) => history,
        };
        proof {
            lemma_lookup_recorded(history@.versions, kernel_info@);
        }
        history.record(kernel_info);
        Ok(history)
    }

    /// Every known version and the latest one. Where nothing is stored yet,
    /// that is the empty history, and no error.
    pub fn list_versions(&self, stored: StoredHistory) -> (result: Result<
        VersionHistory,
        CatalogError,
    >)
        ensures
            history_view(result) == listed(stored@),
    {
        match stored {
            StoredHistory::Absent => Ok(VersionHistory::new()),
            StoredHistory::Unreadable => Err(CatalogError::IoFailure),
            StoredHistory::Corrupt => Err(CatalogError::InvalidState),
            StoredHistory::Parsed(history) => Ok(history),
        }
    }

    /// How an ingestion ends once the writing of its two records has been
    /// tried.
    pub fn store_outcome(&self, latest_written: bool, history_written: bool) -> (result: Result<
        (),
        CatalogError,
    >)
        ensures
            stored_view(result) == stored_outcome(latest_written, history_written),
    {
        if latest_written && history_written {
            Ok(())
        } else if !latest_written && !history_written {
            Err(CatalogError::IoFailure)
        } else {
            Err(CatalogError::InvalidState)
        }
    }

    /// Where the record of the latest kernel lies.
    pub fn latest_path(&self) -> (path: String)
        ensures
            path@ == joined_path(self.metadata_dir(), crate::config::latest_file_name()),
    {
        self.paths.latest_path()
    }

    /// Where the record of all versions lies.
    pub fn history_path(&self) -> (path: String)
        ensures
            path@ == joined_path(self.metadata_dir(), crate::config::history_file_name()),
    {
        self.paths.history_path()
    }
}

} // verus!
