//! Unpacking the archive of a toolchain.
//!
//! The archive is a zip file, read from memory by the `zip` crate. What the
//! crate finds in the bytes is not specified here: it has a name,
//! [`zip_entries`], and the contracts say what is done with it. Every entry
//! is opened, and becomes one step, to create a directory or to write a
//! file, which the caller carries out below the directory it unpacks into.
//! The first entry that cannot be opened or read ends the unpacking.

use crate::text::chars_of;
use vstd::prelude::*;
use vstd::string::*;

verus! {

/// `zip::ZipArchive`, the reader of an archive, taken as it is: nothing is
/// known of a value but what the functions below say of its entries.
#[verifier::external_type_specification]
#[verifier::external_body]
#[verifier::reject_recursive_types(R)]
pub struct ExZipArchive<R>(zip::ZipArchive<R>);

/// `std::io::Cursor`, through which the reader reads bytes that lie in
/// memory, taken as it is.
#[verifier::external_type_specification]
#[verifier::external_body]
#[verifier::reject_recursive_types(T)]
pub struct ExCursor<T>(std::io::Cursor<T>);

/// `zip::result::ZipError`, the error of the reader, taken as it is.
#[verifier::external_type_specification]
#[verifier::external_body]
pub struct ExZipError(zip::result::ZipError);

/// An entry of an archive as it can be read: whether it can be opened, its
/// name, and its content, the last two `None` where reading them fails.
pub type Entry = (bool, Option<Seq<char>>, Option<Seq<u8>>);

/// The entries of an open archive, in the order of its central directory.
pub uninterp spec fn archive_entries(archive: zip::ZipArchive<std::io::Cursor<Vec<u8>>>) -> Seq<
    (bool, Option<Seq<char>>, Option<Seq<u8>>),
>;

/// The entries of the archive that `bytes` hold, or `None` where they hold
/// no archive that can be opened.
pub uninterp spec fn zip_entries(bytes: Seq<u8>) -> Option<
    Seq<(bool, Option<Seq<char>>, Option<Seq<u8>>)>,
>;

/// Opens the archive in `bytes`.
///
/// Calls `ZipArchive::new` on a cursor over the bytes, which reads the
/// central directory and nothing else. The archive that comes back holds the
/// entries that the bytes hold; an error means that they hold no archive.
#[verifier::external_body]
fn open_zip(bytes: Vec<u8>) -> (r: Result<
    zip::ZipArchive<std::io::Cursor<Vec<u8>>>,
    zip::result::ZipError,
>)
    ensures
        match r {
            Ok(archive) => zip_entries(bytes@) == Some(archive_entries(archive)),
            Err(_) => zip_entries(bytes@) is None,
        },
{
    zip::ZipArchive::new(std::io::Cursor::new(bytes))
}

/// The number of entries of an archive.
///
/// Calls `ZipArchive::len`, the number of files in the central directory.
#[verifier::external_body]
fn zip_len(archive: &zip::ZipArchive<std::io::Cursor<Vec<u8>>>) -> (n: usize)
    ensures
        n == archive_entries(*archive).len(),
{
    archive.len()
}

/// The name of the entry at `index`.
///
/// Calls `ZipArchive::name_for_index`, which gives `None` for an index that
/// is out of range, and else the decoded name or the error of decoding it.
#[verifier::external_body]
fn zip_entry_name(archive: &zip::ZipArchive<std::io::Cursor<Vec<u8>>>, index: usize) -> (r: Option<
    Result<String, zip::result::ZipError>,
>)
    ensures
        r is Some <==> index < archive_entries(*archive).len(),
        r matches Some(Ok(name)) ==> archive_entries(*archive)[index as int].1 == Some(name@),
        r matches Some(Err(_)) ==> archive_entries(*archive)[index as int].1 is None,
{
    match archive.name_for_index(index) {
        Some(Ok(name)) => Some(Ok(name.into_owned())),
        Some(Err(e)) => Some(Err(e)),
        None => None,
    }
}

/// Opens the entry at `index` and lets go of it unread.
///
/// Calls `ZipArchive::by_index`, which looks the entry up, finds its content
/// by its local header and sets up a reader for its compression method. An
/// index that is out of range is an error, and so is an entry whose header
/// is damaged, whose method is not supported, or which is encrypted. Opening
/// moves the cursor of the archive and changes nothing in its entries.
#[verifier::external_body]
fn zip_entry_opens(archive: &mut zip::ZipArchive<std::io::Cursor<Vec<u8>>>, index: usize) -> (r:
    Result<(), zip::result::ZipError>)
    ensures
        archive_entries(*final(archive)) == archive_entries(*old(archive)),
        match r {
            Ok(_) => index < archive_entries(*old(archive)).len() && archive_entries(
                *old(archive),
            )[index as int].0,
            Err(_) => index >= archive_entries(*old(archive)).len() || !archive_entries(
                *old(archive),
            )[index as int].0,
        },
{
    match archive.by_index(index) {
        Ok(_) => Ok(()),
        Err(e) => Err(e),
    }
}

/// The content of the entry at `index`, decompressed.
///
/// Calls `ZipArchive::by_index` and reads what it gives to the end. An index
/// that is out of range is an error, and so is content that cannot be
/// decompressed or fails its checksum. Reading moves the cursor of the
/// archive and changes nothing in its entries.
#[verifier::external_body]
fn zip_entry_data(archive: &mut zip::ZipArchive<std::io::Cursor<Vec<u8>>>, index: usize) -> (r:
    Result<Vec<u8>, zip::result::ZipError>)
    ensures
        archive_entries(*final(archive)) == archive_entries(*old(archive)),
        match r {
            Ok(data) => index < archive_entries(*old(archive)).len() && archive_entries(
                *old(archive),
            )[index as int].2 == Some(data@),
            Err(_) => index >= archive_entries(*old(archive)).len() || archive_entries(
                *old(archive),
            )[index as int].2 is None,
        },
{
    let mut file = archive.by_index(index)?;
    let mut data = Vec::new();
    std::io::Read::read_to_end(&mut file, &mut data)?;
    Ok(data)
}

/// The text of an error of the `zip` crate.
///
/// Calls the error's `to_string`. Nothing is claimed of the text.
#[verifier::external_body]
fn zip_error_text(error: &zip::result::ZipError) -> String {
    error.to_string()
}

/// What is wrong with an archive.
#[derive(Debug, Clone, Copy, PartialEq, Eq, Hash, Structural)]
pub enum ArchiveFault {
    /// The bytes hold no archive that can be opened.
    NotAnArchive,
    /// The archive has no entry at this index.
    NoSuchEntry(usize),
    /// The entry at this index cannot be opened.
    CannotOpen(usize),
    /// The name of the entry at this index cannot be read.
    UnreadableName(usize),
    /// The content of the entry at this index cannot be read.
    UnreadableData(usize),
}

/// An archive that cannot be unpacked: the fault, and what the reader of the
/// archive said of it.
#[derive(Debug, Clone, PartialEq, Eq)]
pub struct ArchiveError {
    pub fault: ArchiveFault,
    pub reason: String,
}

/// One step of unpacking an archive. Paths are those of the archive, taken
/// as they are.
#[derive(Debug, Clone, PartialEq, Eq)]
pub enum ExtractStep {
    /// Create the directory `path` and the directories above it.
    CreateDir { path: String },
    /// Create the directories above `path` and write `data` to the file `path`.
    WriteFile { path: String, data: Vec<u8> },
}

/// A step over views.
pub enum StepView {
    CreateDir { path: Seq<char> },
    WriteFile { path: Seq<char>, data: Seq<u8> },
}

impl View for ExtractStep {
    type V = StepView;

    open spec fn view(&self) -> StepView {
        match self {
            ExtractStep::CreateDir { path } => StepView::CreateDir { path: path@ },
            ExtractStep::WriteFile { path, data } => StepView::WriteFile {
                path: path@,
                data: data@,
            },
        }
    }
}

/// The name of an entry is that of a directory: it ends with a slash.
pub open spec fn is_directory(name: Seq<char>) -> bool {
    name.len() > 0 && name.last() == '/'
}

/// The step that unpacks the entry at `index`. Every entry is opened first,
/// and one that cannot be opened is a fault whatever its name. A directory
/// is then created and its content is not read; anything else is written as
/// a file.
pub open spec fn step_of(entry: Entry, index: usize) -> Result<StepView, ArchiveFault> {
    if !entry.0 {
        Err(ArchiveFault::CannotOpen(index))
    } else {
        match entry.1 {
            None => Err(ArchiveFault::UnreadableName(index)),
            Some(path) => if is_directory(path) {
                Ok(StepView::CreateDir { path })
            } else {
                match entry.2 {
                    Some(data) => Ok(StepView::WriteFile { path, data }),
                    None => Err(ArchiveFault::UnreadableData(index)),
                }
            },
        }
    }
}

/// Whether `name` is the name of a directory.
pub fn names_directory(name: &str) -> (r: bool)
    ensures
        r == is_directory(name@),
{
    let chars = chars_of(name);
    chars.len() > 0 && chars[chars.len() - 1] == '/'
}

/// An open archive.
pub struct Archive {
    inner: zip::ZipArchive<std::io::Cursor<Vec<u8>>>,
}

impl Archive {
    /// The entries of the archive.
    pub closed spec fn entries(&self) -> Seq<Entry> {
        archive_entries(self.inner)
    }

    /// Opens the archive that `bytes` hold.
    pub fn open(bytes: Vec<u8>) -> (r: Result<Archive, ArchiveError>)
        ensures
            match r {
                Ok(archive) => zip_entries(bytes@) == Some(archive.entries()),
                Err(e) => zip_entries(bytes@) is None && e.fault == ArchiveFault::NotAnArchive,
            },
    {
        match open_zip(bytes) {
            Ok(inner) => Ok(Archive { inner }),
            Err(e) => Err(
                ArchiveError { fault: ArchiveFault::NotAnArchive, reason: zip_error_text(&e) },
            ),
        }
    }

    /// The number of entries.
    pub fn len(&self) -> (n: usize)
        ensures
            n == self.entries().len(),
    {
        zip_len(&self.inner)
    }

    /// The step that unpacks the entry at `index`. The archive keeps its
    /// entries.
    pub fn extract_entry(&mut self, index: usize) -> (r: Result<ExtractStep, ArchiveError>)
        ensures
            final(self).entries() == old(self).entries(),
            match r {
                Ok(step) => index < old(self).entries().len() && step_of(
                    old(self).entries()[index as int],
                    index,
                ) == Ok::<StepView, ArchiveFault>(step@),
                Err(e) => if index < old(self).entries().len() {
                    step_of(old(self).entries()[index as int], index) == Err::<
                        StepView,
                        ArchiveFault,
                    >(e.fault)
                } else {
                    e.fault == ArchiveFault::NoSuchEntry(index)
                },
            },
    {
        let named = match zip_entry_name(&self.inner, index) {
            None => {
                return Err(
                    ArchiveError {
                        fault: ArchiveFault::NoSuchEntry(index),
                        reason: "no such entry".to_owned(),
                    },
                );
            },
            Some(named) => named,
        };
        if let Err(e) = zip_entry_opens(&mut self.inner, index) {
            return Err(
                ArchiveError { fault: ArchiveFault::CannotOpen(index), reason: zip_error_text(&e) },
            );
        }
        let path = match named {
            Err(e) => {
                return Err(
                    ArchiveError {
                        fault: ArchiveFault::UnreadableName(index),
                        reason: zip_error_text(&e),
                    },
                );
            },
            Ok(name) => name,
        };
        if names_directory(path.as_str()) {
            return Ok(ExtractStep::CreateDir { path });
        }
        match zip_entry_data(&mut self.inner, index) {
            Ok(data) => Ok(ExtractStep::WriteFile { path, data }),
            Err(e) => Err(
                ArchiveError {
                    fault: ArchiveFault::UnreadableData(index),
                    reason: zip_error_text(&e),
                },
            ),
        }
    }
}

/// What unpacking an archive comes to: the steps of the entries that could
/// be read, in order, and the error that ended the reading, if one did.
#[derive(Debug, Clone, PartialEq, Eq)]
pub struct Extraction {
    pub steps: Vec<ExtractStep>,
    pub failure: Option<ArchiveError>,
}

/// `steps` and `fault` are what unpacking `entries` comes to: one step for
/// each entry up to the first that cannot be opened or read, and the fault
/// of that one.
pub open spec fn unpacks(entries: Seq<Entry>, steps: Seq<ExtractStep>, fault: Option<ArchiveFault>)
    -> bool {
    &&& steps.len() <= entries.len()
    &&& forall|i: int|
        0 <= i < steps.len() ==> step_of(entries[i], i as usize) == Ok::<StepView, ArchiveFault>(
            (#[trigger] steps[i])@,
        )
    &&& match fault {
        None => steps.len() == entries.len(),
        Some(f) => steps.len() < entries.len() && step_of(
            entries[steps.len() as int],
            steps.len() as usize,
        ) == Err::<StepView, ArchiveFault>(f),
    }
}

/// An entry that cannot be opened ends the unpacking with a fault, whether
/// it is a directory or a file, and only entries before it give steps.
pub proof fn lemma_closed_entry_ends_unpacking(
    entries: Seq<Entry>,
    steps: Seq<ExtractStep>,
    fault: Option<ArchiveFault>,
    index: int,
)
    requires
        unpacks(entries, steps, fault),
        0 <= index < entries.len(),
        !entries[index].0,
    ensures
        fault is Some,
        steps.len() <= index,
{
    if steps.len() > index {
        assert(step_of(entries[index], index as usize) == Ok::<StepView, ArchiveFault>(
            steps[index]@,
        ));
    }
}

/// The fault of an extraction, if it has one.
pub open spec fn fault_of(failure: Option<ArchiveError>) -> Option<ArchiveFault> {
    match failure {
        Some(e) => Some(e.fault),
        None => None,
    }
}

/// Unpacks the archive that `bytes` hold.
///
/// Unpacking is not all or nothing: the steps of the entries before a faulty
/// one are handed out with the error, as the files they stand for would be
/// on disk by the time the fault is met.
pub fn unzip_archive(bytes: Vec<u8>) -> (r: Extraction)
    ensures
        match zip_entries(bytes@) {
            Some(entries) => unpacks(entries, r.steps@, fault_of(r.failure)),
            None => r.steps@.len() == 0 && fault_of(r.failure) == Some(ArchiveFault::NotAnArchive),
        },
{
    let mut steps: Vec<ExtractStep> = Vec::new();
    let mut archive = match Archive::open(bytes) {
        Ok(archive) => archive,
        Err(e) => {
            return Extraction { steps, failure: Some(e) };
        },
    };
    let ghost entries = archive.entries();
    let n = archive.len();
    for i in 0..n
        invariant
            zip_entries(bytes@) == Some(entries),
            archive.entries() == entries,
            n == entries.len(),
            steps.len() == i,
            forall|k: int|
                0 <= k < i ==> step_of(entries[k], k as usize) == Ok::<StepView, ArchiveFault>(
                    (#[trigger] steps[k])@,
                ),
    {
        match archive.extract_entry(i) {
            Ok(step) => {
                steps.push(step);
            },
            Err(e) => {
                return Extraction { steps, failure: Some(e) };
            },
        }
    }
    Extraction { steps, failure: None }
}

} // verus!
