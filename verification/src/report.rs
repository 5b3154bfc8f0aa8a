//! What the command line shows to the operator.

use crate::catalog::Catalog;
use crate::clock::display_text;
use crate::config::ServerConfig;
use crate::metadata::entries_of;
use crate::metadata::KernelEntry;
use crate::metadata::KernelInfo;
use crate::metadata::VersionHistory;
use crate::text::decimal_text;
use crate::text::push_decimal;
use vstd::prelude::*;

verus! {

/// What lines of text stand for.
pub open spec fn texts_of(lines: Seq<String>) -> Seq<Seq<char>> {
    lines.map_values(|line: String| line@)
}

/// The lines that show one version whose release date reads `date`; the
/// last one is empty.
pub open spec fn entry_lines_dated(entry: KernelEntry, date: Seq<char>) -> Seq<Seq<char>> {
    seq![
        "Version: "@ + entry.version,
        "  File: "@ + entry.kernel_file,
        "  Size: "@ + decimal_text(entry.file_size as nat) + " bytes"@,
        "  Date: "@ + date,
        "  Description: "@ + entry.description,
        Seq::<char>::empty(),
    ]
}

/// The lines that show one version, with its release date as date and time
/// of day in UTC.
pub open spec fn entry_lines(entry: KernelEntry) -> Seq<Seq<char>> {
    entry_lines_dated(entry, display_text(entry.release_date.secs, entry.release_date.nanos))
}

/// The lines that show the given versions, one after the other.
pub open spec fn entries_lines(entries: Seq<KernelEntry>) -> Seq<Seq<char>>
    decreases entries.len(),
{
    if entries.len() == 0 {
        Seq::empty()
    } else {
        entries_lines(entries.drop_last()) + entry_lines(entries.last())
    }
}

/// The listing of a catalog: a heading, the latest version, an empty line,
/// then every version in the catalog's order.
pub open spec fn listing_lines(catalog: Catalog) -> Seq<Seq<char>> {
    seq!["Available kernel versions:"@, "Latest: "@ + catalog.latest, Seq::<char>::empty()]
        + entries_lines(catalog.versions)
}

/// What is shown when the server starts.
pub open spec fn banner_lines(
    host: Seq<char>,
    port: u16,
    kernels_dir: Seq<char>,
    metadata_dir: Seq<char>,
) -> Seq<Seq<char>> {
    seq![
        "OTA Server running on http://"@ + host + ":"@ + decimal_text(port as nat),
        "Kernels directory: "@ + kernels_dir,
        "Metadata directory: "@ + metadata_dir,
    ]
}

fn labelled(label: &str, value: &str) -> (line: String)
    ensures
        line@ == label@ + value@,
{
    let mut line = label.to_owned();
    line.append(value);
    line
}

/// Appends the lines that show one version, with its release date already
/// written out as `date`.
pub fn push_entry_lines(lines: &mut Vec<String>, info: &KernelInfo, date: &str)
    ensures
        texts_of(final(lines)@) == texts_of(old(lines)@) + entry_lines_dated(info@, date@),
{
    let ghost before = texts_of(lines@);
    lines.push(labelled("Version: ", info.version.as_str()));
    lines.push(labelled("  File: ", info.kernel_file.as_str()));
    let mut size = String::from_str("  Size: ");
    push_decimal(&mut size, info.file_size);
    size.append(" bytes");
    lines.push(size);
    lines.push(labelled("  Date: ", date));
    lines.push(labelled("  Description: ", info.description.as_str()));
    lines.push(String::new());
    assert(texts_of(lines@) =~= before + entry_lines_dated(info@, date@));
}

/// The listing of all versions, line by line.
pub fn list_versions_report(history: &VersionHistory) -> (lines: Vec<String>)
    ensures
        texts_of(lines@) == listing_lines(history@),
{
    let mut lines: Vec<String> = Vec::new();
    lines.push(String::from_str("Available kernel versions:"));
    lines.push(labelled("Latest: ", history.latest.as_str()));
    lines.push(String::new());
    let ghost heading = texts_of(lines@);
    assert(heading =~= seq![
        "Available kernel versions:"@,
        "Latest: "@ + history@.latest,
        Seq::<char>::empty(),
    ]);
    let mut i: usize = 0;
    assert(entries_of(history.versions@).take(0) =~= Seq::<KernelEntry>::empty());
    while i < history.versions.len()
        invariant
            i <= history.versions.len(),
            texts_of(lines@) == heading + entries_lines(
                entries_of(history.versions@).take(i as int),
            ),
        decreases history.versions.len() - i,
    {
        proof {
            let all = entries_of(history.versions@);
            assert(all.take(i + 1).drop_last() =~= all.take(i as int));
            assert(all.take(i + 1).last() == history.versions@[i as int]@);
        }
        let date = history.versions[i].release_date.to_display();
        push_entry_lines(&mut lines, &history.versions[i], date.as_str());
        i += 1;
    }
    assert(entries_of(history.versions@).take(history.versions.len() as int) =~= entries_of(
        history.versions@,
    ));
    lines
}

/// What is shown when the server starts, line by line.
pub fn startup_banner(config: &ServerConfig) -> (lines: Vec<String>)
    ensures
        texts_of(lines@) == banner_lines(
            config.server.host@,
            config.server.port,
            config.paths.kernels_dir@,
            config.paths.metadata_dir@,
        ),
{
    let mut first = labelled("OTA Server running on http://", config.server.host.as_str());
    first.append(":");
    push_decimal(&mut first, config.server.port as u64);
    let mut lines: Vec<String> = Vec::new();
    lines.push(first);
    lines.push(labelled("Kernels directory: ", config.paths.kernels_dir.as_str()));
    lines.push(labelled("Metadata directory: ", config.paths.metadata_dir.as_str()));
    assert(texts_of(lines@) =~= banner_lines(
        config.server.host@,
        config.server.port,
        config.paths.kernels_dir@,
        config.paths.metadata_dir@,
    ));
    lines
}

/// What is shown after a version was added.
pub fn added_message(version: &str) -> (line: String)
    ensures
        line@ == "Successfully added kernel version: "@ + version@,
{
    labelled("Successfully added kernel version: ", version)
}

} // verus!
