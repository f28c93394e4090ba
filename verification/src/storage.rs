//! Object storage: request shapes, the reading of replies, content-type
//! validation and the order of steps of a download to a local directory.
use vstd::prelude::*;
use vstd::string::*;
use crate::text::{opt_str, opt_text, prefixed, same_text};
use crate::{unit_outcome, bytes_outcome, NimbusError, NimbusErrorView};

verus! {

/// What can go wrong while an object is stored, fetched or checked.
#[derive(Debug, Clone, PartialEq, Eq)]
pub enum Error {
    /// The object store did not accept the caller's credentials.
    StorageAuth(String),
    /// The object store refused the request; the text is its own.
    Storage(String),
    /// The local file system failed; the text is its own.
    IO(String),
    /// The content is not of the expected type.
    InvalidFileType(String),
    /// Any other failure, in words.
    Other(String),
}

/// An [`Error`] with its texts as character sequences.
pub enum ErrorView {
    StorageAuth(Seq<char>),
    Storage(Seq<char>),
    IO(Seq<char>),
    InvalidFileType(Seq<char>),
    Other(Seq<char>),
}

impl View for Error {
    type V = ErrorView;

    open spec fn view(&self) -> ErrorView {
        match *self {
            Error::StorageAuth(m) => ErrorView::StorageAuth(m@),
            Error::Storage(m) => ErrorView::Storage(m@),
            Error::IO(m) => ErrorView::IO(m@),
            Error::InvalidFileType(m) => ErrorView::InvalidFileType(m@),
            Error::Other(m) => ErrorView::Other(m@),
        }
    }
}

impl ErrorView {
    /// The text shown for this error.
    pub open spec fn text(self) -> Seq<char> {
        match self {
            ErrorView::StorageAuth(m) => "Storage auth error: "@ + m,
            ErrorView::Storage(m) => "Storage error: "@ + m,
            ErrorView::IO(m) => "IO error: "@ + m,
            ErrorView::InvalidFileType(m) => "File Type Validation Error: "@ + m,
            ErrorView::Other(m) => "Error: "@ + m,
        }
    }
}

impl Error {
    /// The text shown for this error.
    pub fn message(&self) -> (s: String)
        ensures
            s@ == self@.text(),
    {
        match self {
            Error::StorageAuth(m) => prefixed("Storage auth error: ", m.as_str()),
            Error::Storage(m) => prefixed("Storage error: ", m.as_str()),
            Error::IO(m) => prefixed("IO error: ", m.as_str()),
            Error::InvalidFileType(m) => prefixed("File Type Validation Error: ", m.as_str()),
            Error::Other(m) => prefixed("Error: ", m.as_str()),
        }
    }
}

/// The request that stores an object.
#[derive(Debug, Clone, PartialEq, Eq)]
pub struct UploadRequest {
    /// The bucket that receives the object.
    pub bucket: String,
    /// The object's key within the bucket.
    pub name: String,
    /// The object's MIME type, if it is to be recorded.
    pub content_type: Option<String>,
    /// The object's content.
    pub data: Vec<u8>,
}

/// The request that names one object, to fetch or to delete it.
#[derive(Debug, Clone, PartialEq, Eq)]
pub struct ObjectRequest {
    /// The bucket that holds the object.
    pub bucket: String,
    /// The object's key within the bucket.
    pub object: String,
}

/// An [`UploadRequest`] over character and byte sequences.
pub struct UploadRequestView {
    pub bucket: Seq<char>,
    pub name: Seq<char>,
    pub content_type: Option<Seq<char>>,
    pub data: Seq<u8>,
}

impl View for UploadRequest {
    type V = UploadRequestView;

    open spec fn view(&self) -> UploadRequestView {
        UploadRequestView {
            bucket: self.bucket@,
            name: self.name@,
            content_type: opt_text(self.content_type),
            data: self.data@,
        }
    }
}

/// An [`ObjectRequest`] over character sequences.
pub struct ObjectRequestView {
    pub bucket: Seq<char>,
    pub object: Seq<char>,
}

impl View for ObjectRequest {
    type V = ObjectRequestView;

    open spec fn view(&self) -> ObjectRequestView {
        ObjectRequestView { bucket: self.bucket@, object: self.object@ }
    }
}

/// The request that stores `data` under `key` in `bucket`, with the MIME
/// type `mime` if one is given.
pub fn upload_request(bucket: &str, key: &str, mime: Option<String>, data: Vec<u8>) -> (request:
    UploadRequest)
    ensures
        request@ == (UploadRequestView {
            bucket: bucket@,
            name: key@,
            content_type: opt_text(mime),
            data: data@,
        }),
{
    UploadRequest {
        bucket: String::from_str(bucket),
        name: String::from_str(key),
        content_type: mime,
        data,
    }
}

/// The request that names the object `key` of `bucket`.
pub fn object_request(bucket: &str, key: &str) -> (request: ObjectRequest)
    ensures
        request@ == (ObjectRequestView { bucket: bucket@, object: key@ }),
{
    ObjectRequest { bucket: String::from_str(bucket), object: String::from_str(key) }
}

/// The error for a request that the object store refused with `message`.
pub fn refused(message: String) -> (e: NimbusError)
    ensures
        e@ == NimbusErrorView::StorageClient(ErrorView::Storage(message@)),
{
    NimbusError::StorageClient(Error::Storage(message))
}

/// The error for a file operation that failed with `message`.
pub fn io_failed(message: String) -> (e: NimbusError)
    ensures
        e@ == NimbusErrorView::StorageClient(ErrorView::IO(message@)),
{
    NimbusError::StorageClient(Error::IO(message))
}

/// Reads the store's reply to an upload or a deletion: success, or the
/// refusal as [`Error::Storage`] with the store's text.
pub fn read_done(reply: Result<(), String>) -> (r: Result<(), NimbusError>)
    ensures
        unit_outcome(r) == match reply {
            Ok(_) => Ok(()),
            Err(message) => Err(NimbusErrorView::StorageClient(ErrorView::Storage(message@))),
        },
{
    match reply {
        Ok(_) => Ok(()),
        Err(message) => Err(refused(message)),
    }
}

/// Reads the store's reply to a download: the object's bytes, or the
/// refusal as [`Error::Storage`] with the store's text.
pub fn read_bytes(reply: Result<Vec<u8>, String>) -> (r: Result<Vec<u8>, NimbusError>)
    ensures
        bytes_outcome(r) == match reply {
            Ok(data) => Ok(data@),
            Err(message) => Err(NimbusErrorView::StorageClient(ErrorView::Storage(message@))),
        },
{
    match reply {
        Ok(data) => Ok(data),
        Err(message) => Err(refused(message)),
    }
}

/// Takes in the next reply of a streamed download.
///
/// A chunk is added at the end of `data`, and more may follow. The end of
/// the stream leaves `data` as it is and says that nothing follows. A
/// failure of the stream is an error, [`Error::Storage`] with the stream's
/// text: the bytes taken so far are not the object.
pub fn take_chunk(data: &mut Vec<u8>, reply: Result<Option<Vec<u8>>, String>) -> (r: Result<
    bool,
    NimbusError,
>)
    ensures
        match reply {
            Ok(Some(chunk)) => r == Ok::<bool, NimbusError>(true) && final(data)@ == old(data)@
                + chunk@,
            Ok(None) => r == Ok::<bool, NimbusError>(false) && final(data)@ == old(data)@,
            Err(message) => r matches Err(e) && e@ == NimbusErrorView::StorageClient(
                ErrorView::Storage(message@),
            ) && final(data)@ == old(data)@,
        },
{
    match reply {
        Ok(Some(chunk)) => {
            data.extend_from_slice(chunk.as_slice());
            Ok(true)
        },
        Ok(None) => Ok(false),
        Err(message) => Err(refused(message)),
    }
}

/// The file extension that the signature table of the `infer` crate gives
/// for content that starts with these bytes, or `None` where no signature
/// matches.
pub uninterp spec fn detected_extension(file: Seq<u8>) -> Option<Seq<char>>;

/// The greatest number of skippable frames at the start of content whose
/// type is looked for.
pub const MAX_SKIPPABLE_FRAMES: usize = 64;

/// Whether the bytes start with the header of a Zstandard skippable frame:
/// eight bytes, of which the first four are one of the sixteen magic numbers
/// `0x184D2A50` to `0x184D2A5F`, the lowest byte first.
pub open spec fn starts_skippable_frame(bytes: Seq<u8>) -> bool {
    &&& bytes.len() >= 8
    &&& 0x50 <= bytes[0] <= 0x5F
    &&& bytes[1] == 0x2A
    &&& bytes[2] == 0x4D
    &&& bytes[3] == 0x18
}

/// The length that the header of a skippable frame gives for the frame's
/// data: bytes four to seven, the lowest byte first.
pub open spec fn skippable_data_len(bytes: Seq<u8>) -> nat
    recommends
        bytes.len() >= 8,
{
    (bytes[4] as nat) + (bytes[5] as nat) * 0x100 + (bytes[6] as nat) * 0x1_0000 + (
    bytes[7] as nat) * 0x100_0000
}

/// The number of whole skippable frames that the bytes start with, one
/// behind the other.
pub open spec fn leading_skippable_frames(bytes: Seq<u8>) -> nat
    decreases bytes.len(),
{
    if starts_skippable_frame(bytes) && 8 + skippable_data_len(bytes) <= bytes.len() {
        1 + leading_skippable_frames(bytes.skip(8 + skippable_data_len(bytes) as int))
    } else {
        0
    }
}

/// Whether the type of this content can be looked for: addresses have 64
/// bits, and the content starts with no more than
/// [`MAX_SKIPPABLE_FRAMES`] skippable frames.
pub open spec fn sniffable(file: Seq<u8>) -> bool {
    usize::BITS >= 64 && leading_skippable_frames(file) <= MAX_SKIPPABLE_FRAMES
}

/// Tests whether the type of this content can be looked for.
pub fn can_sniff(file: &[u8]) -> (ok: bool)
    ensures
        ok == sniffable(file@),
{
    if usize::BITS < 64 {
        return false;
    }
    let mut pos: usize = 0;
    let mut frames: usize = 0;
    assert(file@.skip(0) =~= file@);
    while frames <= MAX_SKIPPABLE_FRAMES
        invariant
            pos <= file.len(),
            frames <= MAX_SKIPPABLE_FRAMES + 1,
            usize::BITS >= 64,
            leading_skippable_frames(file@) == frames + leading_skippable_frames(
                file@.skip(pos as int),
            ),
        decreases MAX_SKIPPABLE_FRAMES + 1 - frames,
    {
        let ghost rest = file@.skip(pos as int);
        if file.len() - pos < 8 {
            return true;
        }
        let magic = 0x50 <= file[pos] && file[pos] <= 0x5F && file[pos + 1] == 0x2A && file[pos
            + 2] == 0x4D && file[pos + 3] == 0x18;
        assert(magic == starts_skippable_frame(rest));
        if !magic {
            return true;
        }
        let len: u64 = (file[pos + 4] as u64) + (file[pos + 5] as u64) * 0x100 + (file[pos
            + 6] as u64) * 0x1_0000 + (file[pos + 7] as u64) * 0x100_0000;
        assert(len == skippable_data_len(rest));
        if len > (file.len() - pos - 8) as u64 {
            return true;
        }
        proof {
            assert(rest.skip(8 + len as int) =~= file@.skip(pos + 8 + len as int));
        }
        pos = pos + 8 + len as usize;
        frames = frames + 1;
    }
    false
}

/// Calls `infer::get` on the bytes and `infer::Type::extension` on what it
/// finds.
///
/// Nothing is proved of the call. The contract claims that the result is
/// the extension of the first signature of the crate's table that matches
/// the bytes, and `None` where none matches: a function of the bytes alone.
/// For content that starts with the OLE2 signature the call goes on into
/// `cfb::CompoundFile::open`, which reads the same bytes and nothing else.
///
/// The contract also claims that the call returns, and `requires` leaves
/// out the content on which it may not. The matchers test lengths before
/// they index. Two of them add a 32-bit length read from the content to an
/// offset in `usize`, which can overflow where `usize` has 32 bits. The
/// matcher for Zstandard calls itself once for each skippable frame that
/// the content starts with, so that its stack grows with their number.
#[verifier::external_body]
fn sniff_extension(file: &[u8]) -> (extension: Option<&'static str>)
    requires
        sniffable(file@),
    ensures
        match extension {
            Some(found) => detected_extension(file@) == Some(found@),
            None => detected_extension(file@) is None,
        },
{
    match infer::get(file) {
        Some(kind) => Some(kind.extension()),
        None => None,
    }
}

/// The error for content whose type is not the expected one.
pub open spec fn invalid_file_type(message: Seq<char>) -> NimbusErrorView {
    NimbusErrorView::StorageClient(ErrorView::InvalidFileType(message))
}

/// Whether content detected as `detected` passes for `expected`: it does
/// where the two extensions are the same. Content of no known type fails,
/// and so does content of another type, which the error names.
pub open spec fn file_type_verdict(detected: Option<Seq<char>>, expected: Seq<char>) -> Result<
    (),
    NimbusErrorView,
> {
    match detected {
        None => Err(invalid_file_type("Failed to get file type"@)),
        Some(found) => if found == expected {
            Ok(())
        } else {
            Err(
                invalid_file_type(
                    "File type is not valid. Expected: "@ + expected + ", got: "@ + found,
                ),
            )
        },
    }
}

/// Holds the extension that was detected for some content against the
/// expected one.
pub fn check_file_type(detected: Option<&str>, expected: &str) -> (r: Result<(), NimbusError>)
    ensures
        unit_outcome(r) == file_type_verdict(opt_str(detected), expected@),
{
    match detected {
        None => Err(
            NimbusError::StorageClient(
                Error::InvalidFileType(String::from_str("Failed to get file type")),
            ),
        ),
        Some(found) => {
            if same_text(found, expected) {
                Ok(())
            } else {
                let mut message = String::from_str("File type is not valid. Expected: ");
                message.append(expected);
                message.append(", got: ");
                message.append(found);
                Err(NimbusError::StorageClient(Error::InvalidFileType(message)))
            }
        },
    }
}

/// Checks that `file` holds content of the type with the extension
/// `expected`, going by the signature at its start.
///
/// The content is one whose type can be looked for, as [`can_sniff`]
/// tests.
pub fn valid_file_type(file: &[u8], expected: &str) -> (r: Result<(), NimbusError>)
    requires
        sniffable(file@),
    ensures
        unit_outcome(r) == file_type_verdict(detected_extension(file@), expected@),
{
    check_file_type(sniff_extension(file), expected)
}

/// Checks the type of `file` as [`valid_file_type`] does, where the type of
/// the content can be looked for; gives `None` where it cannot.
pub fn try_valid_file_type(file: &[u8], expected: &str) -> (r: Option<Result<(), NimbusError>>)
    ensures
        match r {
            Some(verdict) => sniffable(file@) && unit_outcome(verdict) == file_type_verdict(
                detected_extension(file@),
                expected@,
            ),
            None => !sniffable(file@),
        },
{
    if can_sniff(file) {
        Some(valid_file_type(file, expected))
    } else {
        None
    }
}

/// Where the download of an object into a local directory stands.
#[derive(Debug, Clone, Copy, PartialEq, Eq, Structural)]
pub enum DownloadStage {
    /// Nothing was done yet.
    Start,
    /// The caller looks whether the directory exists.
    Probing,
    /// The caller creates the directory.
    Creating,
    /// The caller looks whether the path is a directory.
    Checking,
    /// The caller fetches the object.
    Fetching,
    /// The caller writes the file.
    Writing,
    /// The download has ended.
    Finished,
}

/// What happened since the last step of a download.
#[derive(Debug, PartialEq, Eq)]
pub enum DownloadEvent {
    /// The caller starts the download.
    Begin,
    /// Whether the directory exists.
    Exists(bool),
    /// Whether the path is a directory.
    IsDir(bool),
    /// The file operation last asked for was done.
    Done,
    /// The file operation last asked for failed; the text is the file
    /// system's own.
    Failed(String),
    /// How the fetch of the object ended.
    Fetched(Result<Vec<u8>, NimbusError>),
}

/// What the caller is to do next in a download.
#[derive(Debug, PartialEq, Eq)]
pub enum DownloadAction {
    /// Look whether the directory exists.
    ProbeExists,
    /// Create the directory and the directories above it.
    CreateDir,
    /// Look whether the path is a directory.
    ProbeIsDir,
    /// Fetch this object.
    Fetch(ObjectRequest),
    /// Write these bytes to the file named by the object's key below the
    /// directory, after creating the directory that is to hold the file.
    Write(Vec<u8>),
    /// Stop, with this outcome.
    Finish(Result<(), NimbusError>),
}

/// A [`DownloadEvent`] over character and byte sequences.
pub enum DownloadEventView {
    Begin,
    Exists(bool),
    IsDir(bool),
    Done,
    Failed(Seq<char>),
    Fetched(Result<Seq<u8>, NimbusErrorView>),
}

impl View for DownloadEvent {
    type V = DownloadEventView;

    open spec fn view(&self) -> DownloadEventView {
        match *self {
            DownloadEvent::Begin => DownloadEventView::Begin,
            DownloadEvent::Exists(yes) => DownloadEventView::Exists(yes),
            DownloadEvent::IsDir(yes) => DownloadEventView::IsDir(yes),
            DownloadEvent::Done => DownloadEventView::Done,
            DownloadEvent::Failed(m) => DownloadEventView::Failed(m@),
            DownloadEvent::Fetched(outcome) => DownloadEventView::Fetched(bytes_outcome(outcome)),
        }
    }
}

/// A [`DownloadAction`] over character and byte sequences.
pub enum DownloadActionView {
    ProbeExists,
    CreateDir,
    ProbeIsDir,
    Fetch(ObjectRequestView),
    Write(Seq<u8>),
    Finish(Result<(), NimbusErrorView>),
}

impl View for DownloadAction {
    type V = DownloadActionView;

    open spec fn view(&self) -> DownloadActionView {
        match *self {
            DownloadAction::ProbeExists => DownloadActionView::ProbeExists,
            DownloadAction::CreateDir => DownloadActionView::CreateDir,
            DownloadAction::ProbeIsDir => DownloadActionView::ProbeIsDir,
            DownloadAction::Fetch(request) => DownloadActionView::Fetch(request@),
            DownloadAction::Write(data) => DownloadActionView::Write(data@),
            DownloadAction::Finish(outcome) => DownloadActionView::Finish(unit_outcome(outcome)),
        }
    }
}

/// The end of a download with the error `e`.
pub open spec fn download_fails(e: NimbusErrorView) -> Option<
    (DownloadStage, DownloadActionView),
> {
    Some((DownloadStage::Finished, DownloadActionView::Finish(Err(e))))
}

/// The error for a destination that exists and is no directory; `shown` is
/// the path as it is shown to the user.
pub open spec fn not_a_directory(shown: Seq<char>) -> NimbusErrorView {
    NimbusErrorView::StorageClient(ErrorView::Other("Path "@ + shown + " is not a directory"@))
}

/// The step of a download: the next stage and what to do, or `None` where
/// the event cannot follow the stage.
///
/// A directory that does not exist is created. A path that then is no
/// directory ends the download with an error that names it. Else the
/// object is fetched and its bytes are written. A failed file operation
/// ends the download with [`Error::IO`], a failed fetch with the error of
/// the fetch.
pub open spec fn download_next(
    stage: DownloadStage,
    event: DownloadEventView,
    bucket: Seq<char>,
    key: Seq<char>,
    shown: Seq<char>,
) -> Option<(DownloadStage, DownloadActionView)> {
    match (stage, event) {
        (DownloadStage::Start, DownloadEventView::Begin) => Some(
            (DownloadStage::Probing, DownloadActionView::ProbeExists),
        ),
        (DownloadStage::Probing, DownloadEventView::Exists(yes)) => if yes {
            Some((DownloadStage::Checking, DownloadActionView::ProbeIsDir))
        } else {
            Some((DownloadStage::Creating, DownloadActionView::CreateDir))
        },
        (DownloadStage::Creating, DownloadEventView::Done) => Some(
            (DownloadStage::Checking, DownloadActionView::ProbeIsDir),
        ),
        (DownloadStage::Creating, DownloadEventView::Failed(m)) => download_fails(
            NimbusErrorView::StorageClient(ErrorView::IO(m)),
        ),
        (DownloadStage::Checking, DownloadEventView::IsDir(yes)) => if yes {
            Some(
                (
                    DownloadStage::Fetching,
                    DownloadActionView::Fetch(ObjectRequestView { bucket, object: key }),
                ),
            )
        } else {
            download_fails(not_a_directory(shown))
        },
        (DownloadStage::Fetching, DownloadEventView::Fetched(Ok(data))) => Some(
            (DownloadStage::Writing, DownloadActionView::Write(data)),
        ),
        (DownloadStage::Fetching, DownloadEventView::Fetched(Err(e))) => download_fails(e),
        (DownloadStage::Writing, DownloadEventView::Done) => Some(
            (DownloadStage::Finished, DownloadActionView::Finish(Ok(()))),
        ),
        (DownloadStage::Writing, DownloadEventView::Failed(m)) => download_fails(
            NimbusErrorView::StorageClient(ErrorView::IO(m)),
        ),
        _ => None,
    }
}

/// A step's result over views.
pub open spec fn download_step_view(step: Option<(DownloadStage, DownloadAction)>) -> Option<
    (DownloadStage, DownloadActionView),
> {
    match step {
        Some((stage, action)) => Some((stage, action@)),
        None => None,
    }
}

/// Decides the next step of downloading the object `key` of `bucket` into
/// a local directory; `shown` is the directory's path as it is shown to the
/// user.
///
/// The caller starts with [`DownloadStage::Start`] and
/// [`DownloadEvent::Begin`], performs each action it is handed and reports
/// what came of it, until the action is [`DownloadAction::Finish`].
pub fn download_file_step(
    stage: DownloadStage,
    event: DownloadEvent,
    bucket: &str,
    key: &str,
    shown: &str,
) -> (step: Option<(DownloadStage, DownloadAction)>)
    ensures
        download_step_view(step) == download_next(stage, event@, bucket@, key@, shown@),
{
    let finished = DownloadStage::Finished;
    match stage {
        DownloadStage::Start => match event {
            DownloadEvent::Begin => Some((DownloadStage::Probing, DownloadAction::ProbeExists)),
            _ => None,
        },
        DownloadStage::Probing => match event {
            DownloadEvent::Exists(true) => Some(
                (DownloadStage::Checking, DownloadAction::ProbeIsDir),
            ),
            DownloadEvent::Exists(false) => Some(
                (DownloadStage::Creating, DownloadAction::CreateDir),
            ),
            _ => None,
        },
        DownloadStage::Creating => match event {
            DownloadEvent::Done => Some((DownloadStage::Checking, DownloadAction::ProbeIsDir)),
            DownloadEvent::Failed(m) => Some((finished, DownloadAction::Finish(Err(io_failed(m))))),
            _ => None,
        },
        DownloadStage::Checking => match event {
            DownloadEvent::IsDir(true) => Some(
                (DownloadStage::Fetching, DownloadAction::Fetch(object_request(bucket, key))),
            ),
            DownloadEvent::IsDir(false) => {
                let mut message = String::from_str("Path ");
                message.append(shown);
                message.append(" is not a directory");
                let e = NimbusError::StorageClient(Error::Other(message));
                Some((finished, DownloadAction::Finish(Err(e))))
            },
            _ => None,
        },
        DownloadStage::Fetching => match event {
            DownloadEvent::Fetched(Ok(data)) => Some(
                (DownloadStage::Writing, DownloadAction::Write(data)),
            ),
            DownloadEvent::Fetched(Err(e)) => Some((finished, DownloadAction::Finish(Err(e)))),
            _ => None,
        },
        DownloadStage::Writing => match event {
            DownloadEvent::Done => Some((finished, DownloadAction::Finish(Ok(())))),
            DownloadEvent::Failed(m) => Some((finished, DownloadAction::Finish(Err(io_failed(m))))),
            _ => None,
        },
        DownloadStage::Finished => None,
    }
}

/// Content passes for `expected` exactly when that is the extension that
/// was detected for it.
pub proof fn lemma_verdict_ok_iff_same(detected: Option<Seq<char>>, expected: Seq<char>)
    ensures
        file_type_verdict(detected, expected) is Ok <==> detected == Some(expected),
{
}

/// How far a download has come: a number that grows with every step.
pub open spec fn download_rank(stage: DownloadStage) -> nat {
    match stage {
        DownloadStage::Start => 0,
        DownloadStage::Probing => 1,
        DownloadStage::Creating => 2,
        DownloadStage::Checking => 3,
        DownloadStage::Fetching => 4,
        DownloadStage::Writing => 5,
        DownloadStage::Finished => 6,
    }
}

/// Every step of a download moves to a later stage, so a download ends
/// after at most six steps; a step ends the download exactly when its
/// action is to finish; a download ends well only when the file was
/// written; and nothing is fetched before the destination was seen to be a
/// directory.
pub proof fn lemma_download_progress(
    stage: DownloadStage,
    event: DownloadEventView,
    bucket: Seq<char>,
    key: Seq<char>,
    shown: Seq<char>,
)
    ensures
        download_next(stage, event, bucket, key, shown) matches Some((next, action)) ==> {
            &&& download_rank(next) > download_rank(stage)
            &&& next == DownloadStage::Finished <==> action is Finish
            &&& action == DownloadActionView::Finish(Ok(())) ==> stage == DownloadStage::Writing
                && event is Done
            &&& action is Fetch ==> stage == DownloadStage::Checking
                && event == DownloadEventView::IsDir(true)
        },
        stage == DownloadStage::Finished ==> download_next(stage, event, bucket, key, shown) is None,
{
}

} // verus!
