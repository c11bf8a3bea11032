//! Unpacking an artifact: which files and directories to make, none of
//! them outside the destination.

use crate::error::{ErrorKind, UpdateError};
use crate::paths::{inside, is_enclosed, join_path, join_path_text};
use crate::text::prefixed;
use vstd::prelude::*;
use vstd::string::*;

verus! {

/// The archive reader of the `zip` crate, carried through unread.
#[verifier::external_type_specification]
#[verifier::external_body]
#[verifier::reject_recursive_types(R)]
pub struct ExZipArchive<R>(zip::ZipArchive<R>);

/// The standard library's reader over bytes in memory, carried through
/// unread.
#[verifier::external_type_specification]
#[verifier::external_body]
#[verifier::reject_recursive_types(T)]
pub struct ExCursor<T>(std::io::Cursor<T>);

/// The name is that of a directory: it ends with a separator.
pub open spec fn names_directory(name: Seq<char>) -> bool {
    name.len() > 0 && (name.last() == '/' || name.last() == '\\')
}

/// One entry of an archive, as it was read.
#[derive(Clone, Debug, PartialEq, Eq)]
pub struct ArchiveEntry {
    /// The name as the archive has it.
    pub name: String,
    /// The name again, where it is safe to unpack.
    pub enclosed_name: Option<String>,
    pub is_dir: bool,
    /// The permission bits, where the archive records them.
    pub unix_mode: Option<u32>,
    pub contents: Vec<u8>,
}

impl ArchiveEntry {
    /// What the entry says of its name follows from the name.
    pub open spec fn consistent(self) -> bool {
        &&& self.is_dir == names_directory(self.name@)
        &&& match self.enclosed_name {
            Some(enclosed) => is_enclosed(self.name@) && enclosed@ == self.name@,
            None => !is_enclosed(self.name@),
        }
    }

    /// The name, the mode and the contents.
    pub open spec fn record(self) -> (Seq<char>, Option<u32>, Seq<u8>) {
        (self.name@, self.unix_mode, self.contents@)
    }
}

/// What an archive holds, entry by entry: name, mode and contents, or the
/// reason why the entry cannot be read.
pub uninterp spec fn archive_entries(archive: zip::ZipArchive<std::io::Cursor<Vec<u8>>>) -> Seq<
    Result<(Seq<char>, Option<u32>, Seq<u8>), Seq<char>>,
>;

/// What the bytes of an archive hold, or the reason why they are no
/// archive.
pub uninterp spec fn zip_listing(bytes: Seq<u8>) -> Result<
    Seq<Result<(Seq<char>, Option<u32>, Seq<u8>), Seq<char>>>,
    Seq<char>,
>;

/// `zip::ZipArchive::new` on the bytes in memory: the archive holds what
/// the bytes hold; a refusal is given as the text of the crate's error.
#[verifier::external_body]
fn open_archive(bytes: Vec<u8>) -> (r: Result<zip::ZipArchive<std::io::Cursor<Vec<u8>>>, String>)
    ensures
        match zip_listing(bytes@) {
            Ok(entries) => r matches Ok(archive) && archive_entries(archive) == entries,
            Err(reason) => r matches Err(text) && text@ == reason,
        },
{
    zip::ZipArchive::new(std::io::Cursor::new(bytes)).map_err(|e| e.to_string())
}

/// `zip::ZipArchive::len`: the number of entries.
#[verifier::external_body]
fn archive_len(archive: &zip::ZipArchive<std::io::Cursor<Vec<u8>>>) -> (n: usize)
    ensures
        n == archive_entries(*archive).len(),
{
    archive.len()
}

/// `zip::ZipArchive::by_index_decrypt` with an empty password, and the
/// entry read to its end. (Asked with a password, the crate reports an
/// entry that carries an AES field without being marked as encrypted;
/// `by_index` panics on it.) The archive holds afterwards what it held. An
/// index past the last entry is refused. Of an entry that can be read,
/// `name` is `ZipFile::name`, `unix_mode` is `ZipFile::unix_mode`, `is_dir`
/// is `ZipFile::is_dir` (the name ends with `/` or `\`) and
/// `enclosed_name` is `ZipFile::enclosed_name`: the name where it has no
/// NUL, no root and no way above its start, taken as a path whose parts
/// `/` separates.
#[verifier::external_body]
fn read_entry(archive: &mut zip::ZipArchive<std::io::Cursor<Vec<u8>>>, index: usize) -> (r: Result<
    ArchiveEntry,
    String,
>)
    ensures
        archive_entries(*final(archive)) == archive_entries(*old(archive)),
        index >= archive_entries(*old(archive)).len() ==> r is Err,
        index < archive_entries(*old(archive)).len() ==> match archive_entries(*old(archive))[index as int] {
            Ok(record) => r matches Ok(entry) && entry.record() == record && entry.consistent(),
            Err(reason) => r matches Err(text) && text@ == reason,
        },
{
    let opened = archive.by_index_decrypt(index, &[]).map_err(|e| e.to_string())?;
    let mut file = opened.map_err(|e| e.to_string())?;
    let mut contents = Vec::new();
    std::io::Read::read_to_end(&mut file, &mut contents).map_err(|e| e.to_string())?;
    Ok(
        ArchiveEntry {
            name: file.name().to_string(),
            enclosed_name: file.enclosed_name().map(|p| p.to_string_lossy().into_owned()),
            is_dir: file.is_dir(),
            unix_mode: file.unix_mode(),
            contents,
        },
    )
}

/// One thing to do to unpack an archive.
#[derive(Clone, Debug, PartialEq, Eq)]
pub enum ExtractStep {
    /// Make the directory at `path` and those above it, and give it `mode`
    /// where one is recorded.
    MakeDir { path: String, mode: Option<u32> },
    /// Make the directories above `path`, write `contents` to the file at
    /// `path`, and give it `mode` where one is recorded.
    WriteFile { path: String, contents: Vec<u8>, mode: Option<u32> },
}

/// A step with its texts and bytes as sequences.
pub enum ExtractStepView {
    MakeDir { path: Seq<char>, mode: Option<u32> },
    WriteFile { path: Seq<char>, contents: Seq<u8>, mode: Option<u32> },
}

impl View for ExtractStep {
    type V = ExtractStepView;

    open spec fn view(&self) -> ExtractStepView {
        match self {
            ExtractStep::MakeDir { path, mode } => ExtractStepView::MakeDir {
                path: path@,
                mode: *mode,
            },
            ExtractStep::WriteFile { path, contents, mode } => ExtractStepView::WriteFile {
                path: path@,
                contents: contents@,
                mode: *mode,
            },
        }
    }
}

impl ExtractStepView {
    /// The path that the step makes or writes.
    pub open spec fn path(self) -> Seq<char> {
        match self {
            ExtractStepView::MakeDir { path, .. } => path,
            ExtractStepView::WriteFile { path, .. } => path,
        }
    }
}

/// Each step as its view.
pub open spec fn step_views(steps: Seq<ExtractStep>) -> Seq<ExtractStepView> {
    steps.map_values(|step: ExtractStep| step@)
}

/// The step that unpacks one entry into `destination`; none for an entry
/// whose name is not safe.
pub open spec fn step_of(destination: Seq<char>, record: (Seq<char>, Option<u32>, Seq<u8>)) -> Option<
    ExtractStepView,
> {
    if !is_enclosed(record.0) {
        None
    } else if names_directory(record.0) {
        Some(
            ExtractStepView::MakeDir {
                path: join_path_text(destination, record.0),
                mode: record.1,
            },
        )
    } else {
        Some(
            ExtractStepView::WriteFile {
                path: join_path_text(destination, record.0),
                contents: record.2,
                mode: record.1,
            },
        )
    }
}

/// The steps that unpack `entries` into `destination`, in the archive's
/// order, or the reason of the first entry that cannot be read.
pub open spec fn steps_of(
    destination: Seq<char>,
    entries: Seq<Result<(Seq<char>, Option<u32>, Seq<u8>), Seq<char>>>,
) -> Result<Seq<ExtractStepView>, Seq<char>>
    decreases entries.len(),
{
    if entries.len() == 0 {
        Ok(Seq::empty())
    } else {
        match steps_of(destination, entries.drop_last()) {
            Err(reason) => Err(reason),
            Ok(steps) => match entries.last() {
                Err(reason) => Err(reason),
                Ok(record) => match step_of(destination, record) {
                    Some(step) => Ok(steps.push(step)),
                    None => Ok(steps),
                },
            },
        }
    }
}

proof fn lemma_failure_stays(
    destination: Seq<char>,
    entries: Seq<Result<(Seq<char>, Option<u32>, Seq<u8>), Seq<char>>>,
    k: int,
)
    requires
        0 <= k <= entries.len(),
        steps_of(destination, entries.take(k)) is Err,
    ensures
        steps_of(destination, entries) == steps_of(destination, entries.take(k)),
    decreases entries.len() - k,
{
    if k == entries.len() {
        assert(entries.take(k) =~= entries);
    } else {
        assert(entries.take(k + 1).drop_last() =~= entries.take(k));
        lemma_failure_stays(destination, entries, k + 1);
    }
}

/// The step that unpacks `entry` into `destination`; none for an entry
/// that has no safe name.
pub fn entry_step(destination: &str, entry: ArchiveEntry) -> (step: Option<ExtractStep>)
    ensures
        match entry.enclosed_name {
            None => step is None,
            Some(name) => step matches Some(s) && s@ == (if entry.is_dir {
                ExtractStepView::MakeDir {
                    path: join_path_text(destination@, name@),
                    mode: entry.unix_mode,
                }
            } else {
                ExtractStepView::WriteFile {
                    path: join_path_text(destination@, name@),
                    contents: entry.contents@,
                    mode: entry.unix_mode,
                }
            }),
        },
{
    match entry.enclosed_name {
        None => None,
        Some(name) => {
            let path = join_path(destination, name.as_str());
            if entry.is_dir {
                Some(ExtractStep::MakeDir { path, mode: entry.unix_mode })
            } else {
                Some(ExtractStep::WriteFile { path, contents: entry.contents, mode: entry.unix_mode })
            }
        },
    }
}

/// What reading the artifact gave.
#[derive(Clone, Debug, PartialEq, Eq)]
pub enum ArchiveSource {
    /// The file could not be read.
    Unreadable(String),
    /// All bytes of the file.
    Bytes(Vec<u8>),
}

/// The error of an archive that cannot be unpacked, for `reason`.
pub open spec fn is_archive_failure(e: UpdateError, reason: Seq<char>) -> bool {
    e.has(ErrorKind::Archive, "Failed to extract zipped files: "@ + reason)
}

/// The error of an archive that cannot be unpacked, for `reason`; also for
/// a step that could not be carried out.
pub fn archive_failure(reason: &str) -> (e: UpdateError)
    ensures
        is_archive_failure(e, reason@),
{
    UpdateError::ArchiveError(prefixed("Failed to extract zipped files: ", reason))
}

/// What `unzip_update` makes of an artifact.
pub open spec fn unpacked(
    source: ArchiveSource,
    destination: Seq<char>,
    r: Result<Vec<ExtractStep>, UpdateError>,
) -> bool {
    match source {
        ArchiveSource::Unreadable(reason) => r matches Err(e) && e.has(
            ErrorKind::Archive,
            "Failed to open zipped files: "@ + reason@,
        ),
        ArchiveSource::Bytes(bytes) => match zip_listing(bytes@) {
            Err(reason) => r matches Err(e) && is_archive_failure(e, reason),
            Ok(entries) => match steps_of(destination, entries) {
                Err(reason) => r matches Err(e) && is_archive_failure(e, reason),
                Ok(steps) => r matches Ok(v) && step_views(v@) == steps,
            },
        },
    }
}

/// The steps that unpack an artifact into `destination`: one for each entry
/// with a safe name, in the archive's order. Every step's path is an
/// enclosed name resolved against `destination`. Nothing is to be done
/// unless every entry can be read, and whatever keeps the artifact from
/// being unpacked is an archive error.
pub fn unzip_update(source: ArchiveSource, destination: &str) -> (r: Result<
    Vec<ExtractStep>,
    UpdateError,
>)
    ensures
        r matches Err(e) ==> e.kind() == ErrorKind::Archive,
        unpacked(source, destination@, r),
        r matches Ok(v) ==> forall|i: int|
            0 <= i < v.len() ==> inside(destination@, (#[trigger] v[i])@.path()),
{
    let bytes = match source {
        ArchiveSource::Unreadable(reason) => {
            return Err(
                UpdateError::ArchiveError(
                    prefixed("Failed to open zipped files: ", reason.as_str()),
                ),
            );
        },
        ArchiveSource::Bytes(bytes) => bytes,
    };
    let mut archive = match open_archive(bytes) {
        Ok(archive) => archive,
        Err(reason) => {
            return Err(archive_failure(reason.as_str()));
        },
    };
    let ghost entries = archive_entries(archive);
    let n = archive_len(&archive);
    let mut steps: Vec<ExtractStep> = Vec::new();
    let mut i: usize = 0;
    assert(entries.take(0) =~= Seq::empty());
    assert(step_views(steps@) =~= Seq::empty());
    while i < n
        invariant
            i <= n == entries.len(),
            archive_entries(archive) == entries,
            source matches ArchiveSource::Bytes(b) && zip_listing(b@) == Ok::<
                Seq<Result<(Seq<char>, Option<u32>, Seq<u8>), Seq<char>>>,
                Seq<char>,
            >(entries),
            steps_of(destination@, entries.take(i as int)) == Ok::<Seq<ExtractStepView>, Seq<char>>(
                step_views(steps@),
            ),
            forall|k: int| 0 <= k < steps.len() ==> inside(destination@, (#[trigger] steps[k])@.path()),
        decreases n - i,
    {
        let ghost before = steps@;
        assert(entries.take(i + 1).drop_last() =~= entries.take(i as int));
        assert(entries.take(i + 1).last() == entries[i as int]);
        match read_entry(&mut archive, i) {
            Err(reason) => {
                proof {
                    assert(steps_of(destination@, entries.take(i + 1)) == Err::<
                        Seq<ExtractStepView>,
                        Seq<char>,
                    >(reason@));
                    lemma_failure_stays(destination@, entries, i + 1);
                }
                return Err(archive_failure(reason.as_str()));
            },
            Ok(entry) => {
                let ghost record = entry.record();
                match entry_step(destination, entry) {
                    Some(step) => {
                        assert(step@ == step_of(destination@, record).unwrap());
                        assert(step@.path() == join_path_text(destination@, record.0));
                        steps.push(step);
                        assert(step_views(steps@) =~= step_views(before).push(step@));
                    },
                    None => {},
                }
            },
        }
        i += 1;
    }
    assert(entries.take(n as int) =~= entries);
    Ok(steps)
}

} // verus!
