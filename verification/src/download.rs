//! The resumable fetch of an artifact, as a machine that the caller drives:
//! it performs each action and reports the event that came of it.

use crate::api_client::{
    describe_status, is_success, status_is_success, status_line, ApiClient, STATUS_OK,
};
use crate::decimal::{decimal_text, parse_u64, render_u64, spec_parse_u64};
use crate::error::{ErrorKind, UpdateError};
use crate::paths::{path_debug, quoted_path};
use crate::text::{contains, contains_text, prefixed};
use vstd::prelude::*;
use vstd::string::*;

verus! {

/// What is known of a transfer before any byte of it is asked for.
#[derive(Clone, Copy, Debug, PartialEq, Eq)]
pub struct DownloadState {
    /// The artifact's size, where the probe told it.
    pub total_size: Option<u64>,
    /// Whether the server said that it serves byte ranges.
    pub range_supported: bool,
    /// The size of what is already at the destination: the resume cursor.
    pub local_offset: u64,
}

impl DownloadState {
    /// The destination already holds the whole artifact.
    pub open spec fn is_complete(self) -> bool {
        self.total_size matches Some(total) && total > 0 && self.local_offset >= total
    }

    pub fn complete(&self) -> (b: bool)
        ensures
            b == self.is_complete(),
    {
        match self.total_size {
            Some(total) => total > 0 && self.local_offset >= total,
            None => false,
        }
    }
}

/// How the destination is opened for the bytes of an answer.
#[derive(Clone, Copy, Debug, PartialEq, Eq, Structural)]
pub enum WriteMode {
    /// Empty the file first: the answer holds the artifact from its start.
    Truncate,
    /// Keep the file: the answer holds what follows it.
    Append,
}

/// Where a transfer stands.
#[derive(Clone, Copy, Debug, PartialEq, Eq)]
pub enum DownloadStage {
    PreparingDirectory,
    Probing,
    Measuring { total_size: Option<u64>, range_supported: bool },
    Requesting { state: DownloadState },
    Opening { mode: WriteMode },
    Receiving,
    Writing,
    Finished,
}

/// What came of the last action.
#[derive(Clone, Debug, PartialEq, Eq)]
pub enum DownloadEvent {
    /// The destination's directory is there.
    DirectoryReady,
    /// The destination's directory could not be made.
    DirectoryFailed(String),
    /// The probe was answered; the two header values are given where they
    /// are present and are text.
    ProbeAnswered { status: u16, content_length: Option<String>, accept_ranges: Option<String> },
    /// A request got no answer.
    RequestFailed(String),
    /// The size of the file at the destination; `None` where there is none.
    LocalSize(Option<u64>),
    /// The file at the destination could not be examined.
    LocalSizeFailed(String),
    /// The fetch was answered.
    FetchAnswered { status: u16 },
    Opened,
    OpenFailed(String),
    /// A chunk of the body arrived.
    ChunkReceived,
    /// The body broke off.
    StreamFailed(String),
    /// The body is complete.
    StreamEnded,
    ChunkWritten,
    WriteFailed(String),
}

/// What the caller is to do next.
#[derive(Debug, PartialEq, Eq)]
pub enum DownloadAction {
    /// Make the destination's directory unless it is there.
    EnsureDirectory,
    /// Ask for the artifact's headers only.
    Probe,
    /// Look up the size of the file at the destination.
    MeasureLocal,
    /// Ask for the artifact, with this `Range` header where one is given.
    Fetch { range: Option<String> },
    /// Open the destination, creating it where it is missing.
    Open(WriteMode),
    /// Wait for the next chunk of the body.
    AwaitChunk,
    /// Write the chunk that arrived to the end of the open file.
    WriteChunk,
    /// The transfer is over.
    Finish(Result<(), UpdateError>),
}

/// The `Range` header that asks for everything from `offset` on.
pub open spec fn range_header_text(offset: u64) -> Seq<char> {
    "bytes="@ + decimal_text(offset as nat) + "-"@
}

/// The size that a probe's size header gives, where it is a decimal number.
pub open spec fn announced_size(content_length: Option<String>) -> Option<u64> {
    match content_length {
        Some(text) => match spec_parse_u64(text@) {
            Ok(size) => Some(size),
            Err(_) => None,
        },
        None => None,
    }
}

/// The probe's range header names the unit `bytes`.
pub open spec fn announces_ranges(accept_ranges: Option<String>) -> bool {
    accept_ranges matches Some(text) && contains_text(text@, "bytes"@)
}

/// The transfer ends in an error of `kind` that carries `text`.
pub open spec fn fails_with(
    next: DownloadStage,
    action: DownloadAction,
    kind: ErrorKind,
    text: Seq<char>,
) -> bool {
    &&& next == DownloadStage::Finished
    &&& action matches DownloadAction::Finish(Err(e))
    &&& e.has(kind, text)
}

/// The transfer ends well.
pub open spec fn succeeds(next: DownloadStage, action: DownloadAction) -> bool {
    next == DownloadStage::Finished && action == DownloadAction::Finish(Ok(()))
}

/// An event that the stage does not wait for ends the transfer.
pub open spec fn out_of_order(next: DownloadStage, action: DownloadAction) -> bool {
    fails_with(next, action, ErrorKind::Download, "Download event out of order"@)
}

/// The machine: from `stage`, on `event`, the transfer goes to `next` and the
/// caller is told `action`. `destination` is the path that is written to.
pub open spec fn download_step(
    destination: Seq<char>,
    stage: DownloadStage,
    event: DownloadEvent,
    next: DownloadStage,
    action: DownloadAction,
) -> bool {
    match stage {
        DownloadStage::PreparingDirectory => match event {
            DownloadEvent::DirectoryReady => next == DownloadStage::Probing && action
                == DownloadAction::Probe,
            DownloadEvent::DirectoryFailed(reason) => fails_with(
                next,
                action,
                ErrorKind::FileSystem,
                "Failed to create parent directory for download: "@ + reason@,
            ),
            _ => out_of_order(next, action),
        },
        DownloadStage::Probing => match event {
            DownloadEvent::ProbeAnswered { status, content_length, accept_ranges } => if is_success(
                status,
            ) {
                next == (DownloadStage::Measuring {
                    total_size: announced_size(content_length),
                    range_supported: announces_ranges(accept_ranges),
                }) && action == DownloadAction::MeasureLocal
            } else {
                fails_with(
                    next,
                    action,
                    ErrorKind::Head,
                    "Head request failed with status: "@ + status_line(status),
                )
            },
            DownloadEvent::RequestFailed(reason) => fails_with(
                next,
                action,
                ErrorKind::ApiClient,
                reason@,
            ),
            _ => out_of_order(next, action),
        },
        DownloadStage::Measuring { total_size, range_supported } => match event {
            DownloadEvent::LocalSize(size) => {
                let local_offset = match size {
                    Some(n) => n,
                    None => 0,
                };
                let state = DownloadState { total_size, range_supported, local_offset };
                if state.is_complete() {
                    succeeds(next, action)
                } else {
                    &&& next == DownloadStage::Requesting { state }
                    &&& action matches DownloadAction::Fetch { range }
                    &&& match range {
                        Some(value) => local_offset > 0 && value@ == range_header_text(
                            local_offset,
                        ),
                        None => local_offset == 0,
                    }
                }
            },
            DownloadEvent::LocalSizeFailed(reason) => fails_with(
                next,
                action,
                ErrorKind::FileSystem,
                "Failed to get metadata for existing file "@ + destination + ": "@ + reason@,
            ),
            _ => out_of_order(next, action),
        },
        DownloadStage::Requesting { .. } => match event {
            DownloadEvent::FetchAnswered { status } => if !is_success(status) {
                fails_with(
                    next,
                    action,
                    ErrorKind::Download,
                    "Download request failed with status: "@ + status_line(status),
                )
            } else if status == STATUS_OK {
                next == (DownloadStage::Opening { mode: WriteMode::Truncate }) && action
                    == DownloadAction::Open(WriteMode::Truncate)
            } else {
                next == (DownloadStage::Opening { mode: WriteMode::Append }) && action
                    == DownloadAction::Open(WriteMode::Append)
            },
            DownloadEvent::RequestFailed(reason) => fails_with(
                next,
                action,
                ErrorKind::ApiClient,
                reason@,
            ),
            _ => out_of_order(next, action),
        },
        DownloadStage::Opening { .. } => match event {
            DownloadEvent::Opened => next == DownloadStage::Receiving && action
                == DownloadAction::AwaitChunk,
            DownloadEvent::OpenFailed(reason) => fails_with(
                next,
                action,
                ErrorKind::FileIo,
                "Failed to create destination file "@ + path_debug(destination) + ": "@ + reason@,
            ),
            _ => out_of_order(next, action),
        },
        DownloadStage::Receiving => match event {
            DownloadEvent::ChunkReceived => next == DownloadStage::Writing && action
                == DownloadAction::WriteChunk,
            DownloadEvent::StreamEnded => succeeds(next, action),
            DownloadEvent::StreamFailed(reason) => if reason@ == "error decoding response body"@ {
                fails_with(next, action, ErrorKind::Timeout, Seq::empty())
            } else {
                fails_with(
                    next,
                    action,
                    ErrorKind::Download,
                    "Error reading download stream: "@ + reason@,
                )
            },
            _ => out_of_order(next, action),
        },
        DownloadStage::Writing => match event {
            DownloadEvent::ChunkWritten => next == DownloadStage::Receiving && action
                == DownloadAction::AwaitChunk,
            DownloadEvent::WriteFailed(reason) => fails_with(
                next,
                action,
                ErrorKind::FileIo,
                "Failed to write chunk to file: "@ + reason@,
            ),
            _ => out_of_order(next, action),
        },
        DownloadStage::Finished => out_of_order(next, action),
    }
}

fn fail(error: UpdateError) -> (r: (DownloadStage, DownloadAction))
    ensures
        r.0 == DownloadStage::Finished,
        r.1 == DownloadAction::Finish(Err(error)),
{
    (DownloadStage::Finished, DownloadAction::Finish(Err(error)))
}

fn reject() -> (r: (DownloadStage, DownloadAction))
    ensures
        out_of_order(r.0, r.1),
{
    fail(UpdateError::DownloadError(String::from_str("Download event out of order")))
}

/// The size that a probe's size header gives, where it is a decimal number.
pub fn read_announced_size(content_length: &Option<String>) -> (size: Option<u64>)
    ensures
        size == announced_size(*content_length),
{
    match content_length {
        Some(text) => match parse_u64(text.as_str()) {
            Ok(size) => Some(size),
            Err(_) => None,
        },
        None => None,
    }
}

/// Whether a probe's range header names the unit `bytes`.
pub fn read_announces_ranges(accept_ranges: &Option<String>) -> (b: bool)
    ensures
        b == announces_ranges(*accept_ranges),
{
    match accept_ranges {
        Some(text) => contains(text.as_str(), "bytes"),
        None => false,
    }
}

/// The `Range` header that asks for everything from `offset` on.
pub fn range_header(offset: u64) -> (value: String)
    ensures
        value@ == range_header_text(offset),
{
    let mut value = String::from_str("bytes=");
    let digits = render_u64(offset);
    value.append(digits.as_str());
    value.append("-");
    value
}

impl DownloadStage {
    /// The stage and the action that every transfer starts with.
    pub fn start() -> (r: (DownloadStage, DownloadAction))
        ensures
            r.0 == DownloadStage::PreparingDirectory,
            r.1 == DownloadAction::EnsureDirectory,
    {
        (DownloadStage::PreparingDirectory, DownloadAction::EnsureDirectory)
    }
}

impl ApiClient {
    /// One step of the fetch of an artifact to `destination_path`: takes the
    /// stage that the transfer is in and the event that the last action
    /// led to, and gives the next stage and the next action.
    pub fn download_update(
        &self,
        destination_path: &str,
        stage: DownloadStage,
        event: DownloadEvent,
    ) -> (next: (DownloadStage, DownloadAction))
        ensures
            download_step(destination_path@, stage, event, next.0, next.1),
    {
        match stage {
            DownloadStage::PreparingDirectory => match event {
                DownloadEvent::DirectoryReady => (DownloadStage::Probing, DownloadAction::Probe),
                DownloadEvent::DirectoryFailed(reason) => fail(
                    UpdateError::FileSystemError(
                        prefixed(
                            "Failed to create parent directory for download: ",
                            reason.as_str(),
                        ),
                    ),
                ),
                _ => reject(),
            },
            DownloadStage::Probing => match event {
                DownloadEvent::ProbeAnswered { status, content_length, accept_ranges } => {
                    if status_is_success(status) {
                        let total_size = read_announced_size(&content_length);
                        let range_supported = read_announces_ranges(&accept_ranges);
                        (
                            DownloadStage::Measuring { total_size, range_supported },
                            DownloadAction::MeasureLocal,
                        )
                    } else {
                        let line = describe_status(status);
                        fail(
                            UpdateError::HeadError(
                                prefixed("Head request failed with status: ", line.as_str()),
                            ),
                        )
                    }
                },
                DownloadEvent::RequestFailed(reason) => fail(UpdateError::ApiClientError(reason)),
                _ => reject(),
            },
            DownloadStage::Measuring { total_size, range_supported } => match event {
                DownloadEvent::LocalSize(size) => {
                    let local_offset: u64 = match size {
                        Some(n) => n,
                        None => 0,
                    };
                    let state = DownloadState { total_size, range_supported, local_offset };
                    if state.complete() {
                        (DownloadStage::Finished, DownloadAction::Finish(Ok(())))
                    } else {
                        let range = if local_offset > 0 {
                            Some(range_header(local_offset))
                        } else {
                            None
                        };
                        (DownloadStage::Requesting { state }, DownloadAction::Fetch { range })
                    }
                },
                DownloadEvent::LocalSizeFailed(reason) => {
                    let mut text = prefixed(
                        "Failed to get metadata for existing file ",
                        destination_path,
                    );
                    text.append(": ");
                    text.append(reason.as_str());
                    fail(UpdateError::FileSystemError(text))
                },
                _ => reject(),
            },
            DownloadStage::Requesting { .. } => match event {
                DownloadEvent::FetchAnswered { status } => {
                    if !status_is_success(status) {
                        let line = describe_status(status);
                        fail(
                            UpdateError::DownloadError(
                                prefixed("Download request failed with status: ", line.as_str()),
                            ),
                        )
                    } else if status == STATUS_OK {
                        (
                            DownloadStage::Opening { mode: WriteMode::Truncate },
                            DownloadAction::Open(WriteMode::Truncate),
                        )
                    } else {
                        (
                            DownloadStage::Opening { mode: WriteMode::Append },
                            DownloadAction::Open(WriteMode::Append),
                        )
                    }
                },
                DownloadEvent::RequestFailed(reason) => fail(UpdateError::ApiClientError(reason)),
                _ => reject(),
            },
            DownloadStage::Opening { .. } => match event {
                DownloadEvent::Opened => (DownloadStage::Receiving, DownloadAction::AwaitChunk),
                DownloadEvent::OpenFailed(reason) => {
                    let quoted = quoted_path(destination_path);
                    let mut text = prefixed("Failed to create destination file ", quoted.as_str());
                    text.append(": ");
                    text.append(reason.as_str());
                    fail(UpdateError::FileIOError(text))
                },
                _ => reject(),
            },
            DownloadStage::Receiving => match event {
                DownloadEvent::ChunkReceived => (DownloadStage::Writing, DownloadAction::WriteChunk),
                DownloadEvent::StreamEnded => (
                    DownloadStage::Finished,
                    DownloadAction::Finish(Ok(())),
                ),
                DownloadEvent::StreamFailed(reason) => {
                    let signature = String::from_str("error decoding response body");
                    if reason == signature {
                        fail(UpdateError::TimeoutError)
                    } else {
                        fail(
                            UpdateError::DownloadError(
                                prefixed("Error reading download stream: ", reason.as_str()),
                            ),
                        )
                    }
                },
                _ => reject(),
            },
            DownloadStage::Writing => match event {
                DownloadEvent::ChunkWritten => (DownloadStage::Receiving, DownloadAction::AwaitChunk),
                DownloadEvent::WriteFailed(reason) => fail(
                    UpdateError::FileIOError(
                        prefixed("Failed to write chunk to file: ", reason.as_str()),
                    ),
                ),
                _ => reject(),
            },
            DownloadStage::Finished => reject(),
        }
    }
}

/// The action asks the server for something.
pub open spec fn uses_network(action: DownloadAction) -> bool {
    action is Probe || action is Fetch || action is AwaitChunk
}

/// A destination that already holds the whole artifact is left as it is:
/// once the probe told a positive size and the file is at least that long,
/// the transfer ends well without a fetch.
pub proof fn lemma_complete_file_is_not_fetched(
    destination: Seq<char>,
    total_size: u64,
    range_supported: bool,
    local_offset: u64,
    next: DownloadStage,
    action: DownloadAction,
)
    requires
        total_size > 0,
        local_offset >= total_size,
        download_step(
            destination,
            DownloadStage::Measuring { total_size: Some(total_size), range_supported },
            DownloadEvent::LocalSize(Some(local_offset)),
            next,
            action,
        ),
    ensures
        succeeds(next, action),
        !uses_network(action),
{
}

/// A transfer that is over stays over: whatever is reported to it, it asks
/// for nothing more.
pub proof fn lemma_finished_is_final(
    destination: Seq<char>,
    event: DownloadEvent,
    next: DownloadStage,
    action: DownloadAction,
)
    requires
        download_step(destination, DownloadStage::Finished, event, next, action),
    ensures
        next == DownloadStage::Finished,
        action is Finish,
        !uses_network(action),
{
}

/// The bytes of a file right after it was opened in `mode`.
pub open spec fn file_after_open(before: Seq<u8>, mode: WriteMode) -> Seq<u8> {
    match mode {
        WriteMode::Truncate => Seq::empty(),
        WriteMode::Append => before,
    }
}

/// All the chunks, one after the other.
pub open spec fn joined(chunks: Seq<Seq<u8>>) -> Seq<u8>
    decreases chunks.len(),
{
    if chunks.len() == 0 {
        Seq::empty()
    } else {
        joined(chunks.drop_last()) + chunks.last()
    }
}

/// The bytes of an open file after each of `chunks` was written to its end.
pub open spec fn file_after_chunks(opened: Seq<u8>, chunks: Seq<Seq<u8>>) -> Seq<u8>
    decreases chunks.len(),
{
    if chunks.len() == 0 {
        opened
    } else {
        file_after_chunks(opened, chunks.drop_last()) + chunks.last()
    }
}

/// Writing chunks to the end of a file leaves what it held and adds the
/// chunks behind it.
pub proof fn lemma_chunks_follow(opened: Seq<u8>, chunks: Seq<Seq<u8>>)
    ensures
        file_after_chunks(opened, chunks) == opened + joined(chunks),
    decreases chunks.len(),
{
    if chunks.len() == 0 {
        assert(opened + joined(chunks) =~= opened);
    } else {
        lemma_chunks_follow(opened, chunks.drop_last());
        assert(file_after_chunks(opened, chunks) =~= opened + joined(chunks));
    }
}

/// An answer with the whole content has the destination emptied first:
/// whatever it held and however far the transfer had come, the file ends
/// up holding the body and nothing else.
pub proof fn lemma_full_content_truncates(
    destination: Seq<char>,
    state: DownloadState,
    next: DownloadStage,
    action: DownloadAction,
    before: Seq<u8>,
    chunks: Seq<Seq<u8>>,
)
    requires
        download_step(
            destination,
            DownloadStage::Requesting { state },
            DownloadEvent::FetchAnswered { status: STATUS_OK },
            next,
            action,
        ),
    ensures
        action == DownloadAction::Open(WriteMode::Truncate),
        next == (DownloadStage::Opening { mode: WriteMode::Truncate }),
        file_after_chunks(file_after_open(before, WriteMode::Truncate), chunks) == joined(chunks),
{
    lemma_chunks_follow(Seq::empty(), chunks);
    assert(Seq::<u8>::empty() + joined(chunks) =~= joined(chunks));
}

/// An answer with a part of the content has the destination kept: the
/// bytes of the body go behind what the file held, the first of them at
/// the place that was the file's length.
pub proof fn lemma_partial_content_appends(
    destination: Seq<char>,
    state: DownloadState,
    status: u16,
    next: DownloadStage,
    action: DownloadAction,
    before: Seq<u8>,
    chunks: Seq<Seq<u8>>,
)
    requires
        is_success(status),
        status != STATUS_OK,
        download_step(
            destination,
            DownloadStage::Requesting { state },
            DownloadEvent::FetchAnswered { status },
            next,
            action,
        ),
    ensures
        action == DownloadAction::Open(WriteMode::Append),
        next == (DownloadStage::Opening { mode: WriteMode::Append }),
        ({
            let after = file_after_chunks(file_after_open(before, WriteMode::Append), chunks);
            &&& after.len() == before.len() + joined(chunks).len()
            &&& after.take(before.len() as int) == before
            &&& after.skip(before.len() as int) == joined(chunks)
        }),
{
    lemma_chunks_follow(before, chunks);
    let after = before + joined(chunks);
    assert(after.take(before.len() as int) =~= before);
    assert(after.skip(before.len() as int) =~= joined(chunks));
}

/// The order of a transfer: the artifact is asked for only after the local
/// file was measured, the destination is opened only after the answer
/// came, and a chunk is written only to a destination that was opened.
pub proof fn lemma_download_order(
    destination: Seq<char>,
    stage: DownloadStage,
    event: DownloadEvent,
    next: DownloadStage,
    action: DownloadAction,
)
    requires
        download_step(destination, stage, event, next, action),
    ensures
        action is Probe ==> stage is PreparingDirectory,
        action is MeasureLocal ==> stage is Probing,
        action is Fetch ==> stage is Measuring,
        action is Open ==> stage is Requesting,
        action is AwaitChunk ==> stage is Opening || stage is Writing,
        action is WriteChunk ==> stage is Receiving,
        action matches DownloadAction::Open(mode) ==> next == (DownloadStage::Opening { mode }),
{
}

} // verus!
