//! The records of the kernel catalog and the form in which clients see them.

use crate::catalog::Catalog;
use crate::catalog::consistent;
use crate::catalog::empty_catalog;
use crate::catalog::has_version;
use crate::catalog::is_first_match;
use crate::catalog::lemma_first_match_unique;
use crate::catalog::lemma_record_consistent;
use crate::catalog::lookup;
use crate::catalog::versions_unique;
use crate::clock::Instant;
use crate::clock::rfc3339_text;
use crate::clock::Timestamp;
use vstd::prelude::*;

verus! {

/// One published kernel version, as the catalog stores it.
#[derive(Debug, PartialEq, Eq)]
pub struct KernelInfo {
    pub version: String,
    pub kernel_file: String,
    pub file_size: u64,
    pub checksum: String,
    pub release_date: Timestamp,
    pub description: String,
    pub download_url: String,
}

/// What a `KernelInfo` stands for.
#[verifier::ext_equal]
pub struct KernelEntry {
    pub version: Seq<char>,
    pub kernel_file: Seq<char>,
    pub file_size: u64,
    pub checksum: Seq<char>,
    pub release_date: Instant,
    pub description: Seq<char>,
    pub download_url: Seq<char>,
}

impl View for KernelInfo {
    type V = KernelEntry;

    open spec fn view(&self) -> KernelEntry {
        KernelEntry {
            version: self.version@,
            kernel_file: self.kernel_file@,
            file_size: self.file_size,
            checksum: self.checksum@,
            release_date: self.release_date@,
            description: self.description@,
            download_url: self.download_url@,
        }
    }
}

/// The latest kernel as clients expect it: the version under the name
/// `latest_version`, and the release date as text.
#[derive(Debug, PartialEq, Eq)]
pub struct ClientKernelInfo {
    pub latest_version: String,
    pub kernel_file: String,
    pub file_size: u64,
    pub checksum: String,
    pub release_date: String,
    pub description: String,
    pub download_url: String,
}

/// What a `ClientKernelInfo` stands for.
#[verifier::ext_equal]
pub struct ClientKernelEntry {
    pub latest_version: Seq<char>,
    pub kernel_file: Seq<char>,
    pub file_size: u64,
    pub checksum: Seq<char>,
    pub release_date: Seq<char>,
    pub description: Seq<char>,
    pub download_url: Seq<char>,
}

impl View for ClientKernelInfo {
    type V = ClientKernelEntry;

    open spec fn view(&self) -> ClientKernelEntry {
        ClientKernelEntry {
            latest_version: self.latest_version@,
            kernel_file: self.kernel_file@,
            file_size: self.file_size,
            checksum: self.checksum@,
            release_date: self.release_date@,
            description: self.description@,
            download_url: self.download_url@,
        }
    }
}

/// The latest version together with its catalog record.
#[derive(Debug, PartialEq, Eq)]
pub struct VersionResponse {
    pub latest_version: String,
    pub kernel_info: KernelInfo,
}

/// Every known version and the version recorded last.
#[derive(Debug, PartialEq, Eq)]
pub struct VersionHistory {
    pub versions: Vec<KernelInfo>,
    pub latest: String,
}

/// What a sequence of records stands for.
pub open spec fn entries_of(versions: Seq<KernelInfo>) -> Seq<KernelEntry> {
    versions.map_values(|info: KernelInfo| info@)
}

impl View for VersionHistory {
    type V = Catalog;

    open spec fn view(&self) -> Catalog {
        Catalog { versions: entries_of(self.versions@), latest: self.latest@ }
    }
}

/// Where clients fetch an image from: `/kernels/` and the file's name.
pub open spec fn download_url_of(kernel_file: Seq<char>) -> Seq<char> {
    "/kernels/"@ + kernel_file
}

/// The catalog record for an image released at `release_date`.
pub open spec fn kernel_entry(
    version: Seq<char>,
    kernel_file: Seq<char>,
    file_size: u64,
    checksum: Seq<char>,
    description: Seq<char>,
    release_date: Instant,
) -> KernelEntry {
    KernelEntry {
        version,
        kernel_file,
        file_size,
        checksum,
        release_date,
        description,
        download_url: download_url_of(kernel_file),
    }
}

/// The client's form of a record whose release date reads `release_date`.
pub open spec fn client_entry_dated(entry: KernelEntry, release_date: Seq<char>) -> ClientKernelEntry {
    ClientKernelEntry {
        latest_version: entry.version,
        kernel_file: entry.kernel_file,
        file_size: entry.file_size,
        checksum: entry.checksum,
        release_date,
        description: entry.description,
        download_url: entry.download_url,
    }
}

/// The client's form of a record: the same fields, with the release date
/// written as RFC 3339 text.
pub open spec fn client_entry(entry: KernelEntry) -> ClientKernelEntry {
    client_entry_dated(entry, rfc3339_text(entry.release_date.secs, entry.release_date.nanos))
}

impl Clone for KernelInfo {
    fn clone(&self) -> (copy: Self)
        ensures
            copy == *self,
    {
        KernelInfo {
            version: self.version.clone(),
            kernel_file: self.kernel_file.clone(),
            file_size: self.file_size,
            checksum: self.checksum.clone(),
            release_date: self.release_date,
            description: self.description.clone(),
            download_url: self.download_url.clone(),
        }
    }
}

impl Clone for ClientKernelInfo {
    fn clone(&self) -> (copy: Self)
        ensures
            copy == *self,
    {
        ClientKernelInfo {
            latest_version: self.latest_version.clone(),
            kernel_file: self.kernel_file.clone(),
            file_size: self.file_size,
            checksum: self.checksum.clone(),
            release_date: self.release_date.clone(),
            description: self.description.clone(),
            download_url: self.download_url.clone(),
        }
    }
}

impl KernelInfo {
    /// The record for an image released now; `None` where the system clock
    /// gives no time.
    pub fn new(
        version: String,
        kernel_file: String,
        file_size: u64,
        checksum: String,
        description: String,
    ) -> (info: Option<Self>)
        ensures
            info matches Some(made) ==> made@ == kernel_entry(
                version@,
                kernel_file@,
                file_size,
                checksum@,
                description@,
                made.release_date@,
            ),
    {
        match Timestamp::now() {
            Some(release_date) => Some(
                Self::released_at(
                    version,
                    kernel_file,
                    file_size,
                    checksum,
                    description,
                    release_date,
                ),
            ),
            None => None,
        }
    }

    /// The record for an image released at `release_date`.
    pub fn released_at(
        version: String,
        kernel_file: String,
        file_size: u64,
        checksum: String,
        description: String,
        release_date: Timestamp,
    ) -> (info: Self)
        ensures
            info@ == kernel_entry(
                version@,
                kernel_file@,
                file_size,
                checksum@,
                description@,
                release_date@,
            ),
    {
        let mut download_url = String::from_str("/kernels/");
        download_url.append(kernel_file.as_str());
        KernelInfo {
            version,
            kernel_file,
            file_size,
            checksum,
            release_date,
            description,
            download_url,
        }
    }

    /// The record as clients see it.
    pub fn to_client_format(&self) -> (client: ClientKernelInfo)
        ensures
            client@ == client_entry(self@),
    {
        self.to_client_format_dated(self.release_date.to_rfc3339())
    }

    /// The record as clients see it, with the release date already written
    /// out as `release_date`.
    pub fn to_client_format_dated(&self, release_date: String) -> (client: ClientKernelInfo)
        ensures
            client@ == client_entry_dated(self@, release_date@),
    {
        ClientKernelInfo {
            latest_version: self.version.clone(),
            kernel_file: self.kernel_file.clone(),
            file_size: self.file_size,
            checksum: self.checksum.clone(),
            release_date,
            description: self.description.clone(),
            download_url: self.download_url.clone(),
        }
    }
}

impl Clone for VersionHistory {
    fn clone(&self) -> (copy: Self)
        ensures
            copy@ == self@,
    {
        let mut versions: Vec<KernelInfo> = Vec::new();
        let mut i: usize = 0;
        while i < self.versions.len()
            invariant
                i <= self.versions.len(),
                versions@ == self.versions@.take(i as int),
            decreases self.versions.len() - i,
        {
            versions.push(self.versions[i].clone());
            assert(self.versions@.take(i as int).push(self.versions@[i as int])
                =~= self.versions@.take(i + 1));
            i += 1;
        }
        assert(self.versions@.take(self.versions.len() as int) =~= self.versions@);
        VersionHistory { versions, latest: self.latest.clone() }
    }
}

impl VersionHistory {
    /// The history before anything is recorded: no versions, and `none` as
    /// the latest.
    pub fn new() -> (history: Self)
        ensures
            history@ == empty_catalog(),
    {
        let history = VersionHistory { versions: Vec::new(), latest: String::from_str("none") };
        assert(history@.versions =~= Seq::<KernelEntry>::empty());
        history
    }

    /// The place of the first record that carries `version`.
    pub fn position(&self, version: &str) -> (place: Option<usize>)
        ensures
            place is Some <==> has_version(self@.versions, version@),
            place matches Some(i) ==> is_first_match(self@.versions, version@, i as int),
    {
        let wanted = version.to_owned();
        let mut i: usize = 0;
        while i < self.versions.len()
            invariant
                i <= self.versions.len(),
                wanted@ == version@,
                forall|j: int| 0 <= j < i ==> (#[trigger] self@.versions[j]).version != version@,
            decreases self.versions.len() - i,
        {
            if self.versions[i].version == wanted {
                assert(self@.versions[i as int].version == version@);
                return Some(i);
            }
            i += 1;
        }
        None
    }

    /// The record found under `version`.
    pub fn find(&self, version: &str) -> (found: Option<&KernelInfo>)
        ensures
            found is Some <==> has_version(self@.versions, version@),
            found matches Some(info) ==> Some(info@) == lookup(self@.versions, version@),
    {
        match self.position(version) {
            Some(i) => {
                proof {
                    lemma_first_match_unique(self@.versions, version@, i as int);
                }
                Some(&self.versions[i])
            },
            None => None,
        }
    }

    /// Records `kernel_info`: it replaces the record of its version, or is
    /// added where the version is new, and its version becomes the latest.
    pub fn record(&mut self, kernel_info: &KernelInfo)
        ensures
            final(self)@ == crate::catalog::record(old(self)@, kernel_info@),
            versions_unique(old(self)@.versions) ==> consistent(final(self)@),
    {
        let ghost before = self@;
        proof {
            if versions_unique(before.versions) {
                lemma_record_consistent(before, kernel_info@);
            }
        }
        match self.position(kernel_info.version.as_str()) {
            Some(i) => {
                proof {
                    lemma_first_match_unique(before.versions, kernel_info@.version, i as int);
                }
                self.versions.set(i, kernel_info.clone());
                assert(entries_of(self.versions@) =~= before.versions.update(
                    i as int,
                    kernel_info@,
                ));
            },
            None => {
                self.versions.push(kernel_info.clone());
                assert(entries_of(self.versions@) =~= before.versions.push(kernel_info@));
            },
        }
        self.latest = kernel_info.version.clone();
    }

    /// Whether no version occurs twice and `latest` names a record or reads
    /// `none`.
    pub fn is_consistent(&self) -> (ok: bool)
        ensures
            ok == consistent(self@),
    {
        let n = self.versions.len();
        let mut i: usize = 0;
        while i < n
            invariant
                n == self.versions.len(),
                i <= n,
                forall|a: int, b: int|
                    #![trigger self@.versions[a], self@.versions[b]]
                    0 <= a < b < n && a < i ==> self@.versions[a].version
                        != self@.versions[b].version,
            decreases n - i,
        {
            let mut j: usize = i + 1;
            while j < n
                invariant
                    n == self.versions.len(),
                    i < j <= n,
                    forall|b: int|
                        #![trigger self@.versions[b]]
                        i < b < j ==> self@.versions[i as int].version
                            != self@.versions[b].version,
                decreases n - j,
            {
                if self.versions[i].version == self.versions[j].version {
                    assert(self@.versions[i as int].version == self@.versions[j as int].version);
                    return false;
                }
                j += 1;
            }
            i += 1;
        }
        assert(versions_unique(self@.versions));
        let none = String::from_str("none");
        if self.latest == none {
            return true;
        }
        self.position(self.latest.as_str()).is_some()
    }
}

} // verus!
