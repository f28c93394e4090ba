//! Secret retrieval and creation: resource names, request payloads and the
//! reading of what the secret store answered.
use vstd::prelude::*;
use vstd::string::*;
use crate::text::{opt_str, opt_text, prefixed};
use vstd::utf8::encode_utf8;
use crate::{bytes_outcome, unit_outcome, NimbusError, NimbusErrorView};

verus! {

/// What can go wrong while reading or creating a secret.
#[derive(Debug, Clone, PartialEq, Eq)]
pub enum Error {
    /// The answer carried a payload without data.
    NoData,
    /// The answer carried no payload.
    NoPayload,
    /// Any other failure, in words.
    Other(String),
    /// The secret store refused the request; the text is its own.
    SecretManager(String),
}

/// An [`Error`] with its texts as character sequences.
pub enum ErrorView {
    NoData,
    NoPayload,
    Other(Seq<char>),
    SecretManager(Seq<char>),
}

impl View for Error {
    type V = ErrorView;

    open spec fn view(&self) -> ErrorView {
        match *self {
            Error::NoData => ErrorView::NoData,
            Error::NoPayload => ErrorView::NoPayload,
            Error::Other(m) => ErrorView::Other(m@),
            Error::SecretManager(m) => ErrorView::SecretManager(m@),
        }
    }
}

impl ErrorView {
    /// The text shown for this error.
    pub open spec fn text(self) -> Seq<char> {
        match self {
            ErrorView::NoData => "No data in payload from AccessSecretVersionResponse"@,
            ErrorView::NoPayload => "No payload in AccessSecretVersionResponse"@,
            ErrorView::Other(m) => "Error: "@ + m,
            ErrorView::SecretManager(m) => "SecretManager error: "@ + m,
        }
    }
}

impl Error {
    /// The text shown for this error.
    pub fn message(&self) -> (s: String)
        ensures
            s@ == self@.text(),
    {
        match self {
            Error::NoData => String::from_str("No data in payload from AccessSecretVersionResponse"),
            Error::NoPayload => String::from_str("No payload in AccessSecretVersionResponse"),
            Error::Other(m) => prefixed("Error: ", m.as_str()),
            Error::SecretManager(m) => prefixed("SecretManager error: ", m.as_str()),
        }
    }
}

/// The payload of a secret version.
#[derive(Debug, Clone, PartialEq, Eq)]
pub struct SecretPayload {
    /// The secret's bytes.
    pub data: Option<Vec<u8>>,
}

/// What the secret store answers when a secret version is read.
#[derive(Debug, Clone, PartialEq, Eq)]
pub struct AccessSecretVersionResponse {
    /// The resource name of the version.
    pub name: Option<String>,
    /// The version's payload.
    pub payload: Option<SecretPayload>,
}

/// The request that adds a version to a secret.
#[derive(Debug, Clone, PartialEq, Eq)]
pub struct AddSecretVersionRequest {
    /// The payload of the new version.
    pub payload: Option<SecretPayload>,
}

/// The request that creates an empty secret.
#[derive(Debug, Clone, PartialEq, Eq)]
pub struct NewSecret {
    /// The project under which the secret is created.
    pub parent: String,
    /// The secret's name within the project.
    pub secret_id: String,
    /// Whether the store chooses where the secret is replicated.
    pub automatic_replication: bool,
}

/// The resource name of a project: `projects/{project}`.
pub open spec fn project_path(project: Seq<char>) -> Seq<char> {
    "projects/"@ + project
}

/// The resource name of a secret: `projects/{project}/secrets/{secret}`.
pub open spec fn secret_path(project: Seq<char>, secret: Seq<char>) -> Seq<char> {
    project_path(project) + "/secrets/"@ + secret
}

/// The resource name of a secret version:
/// `projects/{project}/secrets/{secret}/versions/{version}`.
pub open spec fn version_path(project: Seq<char>, secret: Seq<char>, version: Seq<char>) -> Seq<
    char,
> {
    secret_path(project, secret) + "/versions/"@ + version
}

/// The resource name of a project.
pub fn project_name(project: &str) -> (name: String)
    ensures
        name@ == project_path(project@),
{
    prefixed("projects/", project)
}

/// The resource name of a secret.
pub fn secret_name(project: &str, secret: &str) -> (name: String)
    ensures
        name@ == secret_path(project@, secret@),
{
    let mut name = project_name(project);
    name.append("/secrets/");
    name.append(secret);
    name
}

/// The resource name of one version of a secret.
pub fn secret_version_name(project: &str, secret: &str, version: &str) -> (name: String)
    ensures
        name@ == version_path(project@, secret@, version@),
{
    let mut name = secret_name(project, secret);
    name.append("/versions/");
    name.append(version);
    name
}

/// The resource name of the latest version of a secret.
pub fn latest_secret_name(project: &str, secret: &str) -> (name: String)
    ensures
        name@ == version_path(project@, secret@, "latest"@),
{
    secret_version_name(project, secret, "latest")
}

/// The error for a request that the secret store refused with `message`.
pub fn refused(message: String) -> (e: NimbusError)
    ensures
        e@ == NimbusErrorView::SecretManager(ErrorView::SecretManager(message@)),
{
    NimbusError::SecretManager(Error::SecretManager(message))
}

/// What a version answer holds: its data, or the reason why there is none.
pub open spec fn payload_of(response: AccessSecretVersionResponse) -> Result<
    Seq<u8>,
    NimbusErrorView,
> {
    match response.payload {
        None => Err(NimbusErrorView::SecretManager(ErrorView::NoPayload)),
        Some(payload) => match payload.data {
            None => Err(NimbusErrorView::SecretManager(ErrorView::NoData)),
            Some(data) => Ok(data@),
        },
    }
}

/// Reads the secret's bytes out of the store's reply to a version request.
///
/// A refusal becomes [`Error::SecretManager`] with the store's text, an
/// answer without payload [`Error::NoPayload`], a payload without data
/// [`Error::NoData`].
pub fn read_secret(reply: Result<AccessSecretVersionResponse, String>) -> (r: Result<
    Vec<u8>,
    NimbusError,
>)
    ensures
        bytes_outcome(r) == match reply {
            Ok(response) => payload_of(response),
            Err(message) => Err(NimbusErrorView::SecretManager(ErrorView::SecretManager(message@))),
        },
{
    match reply {
        Err(message) => Err(refused(message)),
        Ok(response) => match response.payload {
            None => Err(NimbusError::SecretManager(Error::NoPayload)),
            Some(payload) => match payload.data {
                None => Err(NimbusError::SecretManager(Error::NoData)),
                Some(data) => Ok(data),
            },
        },
    }
}

/// The error for an answer that lacks the kind of value asked for.
pub open spec fn invalid_secret() -> NimbusErrorView {
    NimbusErrorView::SecretManager(ErrorView::SecretManager("invalid secret"@))
}

/// Reads a secret kept as text: the UTF-8 bytes of the string in the reply.
pub fn read_secret_string(reply: Result<Option<String>, String>) -> (r: Result<
    Vec<u8>,
    NimbusError,
>)
    ensures
        bytes_outcome(r) == match reply {
            Ok(Some(text)) => Ok(encode_utf8(text@)),
            Ok(None) => Err(invalid_secret()),
            Err(message) => Err(NimbusErrorView::SecretManager(ErrorView::SecretManager(message@))),
        },
{
    match reply {
        Ok(Some(text)) => Ok(text.as_str().as_bytes_vec()),
        Ok(None) => Err(refused(String::from_str("invalid secret"))),
        Err(message) => Err(refused(message)),
    }
}

/// The request that reads a secret's value from a store that knows no
/// projects: the secret, and the stage of the version that is asked for,
/// if one is.
#[derive(Debug, Clone, PartialEq, Eq)]
pub struct SecretValueRequest {
    /// The secret's name.
    pub secret_id: String,
    /// The stage of the version; without one the store gives the current
    /// version.
    pub version_stage: Option<String>,
}

/// The request that reads the secret `secret`, at the stage `version` if
/// one is given.
pub fn secret_value_request(secret: &str, version: Option<&str>) -> (request: SecretValueRequest)
    ensures
        request.secret_id@ == secret@,
        opt_text(request.version_stage) == opt_str(version),
{
    let version_stage = match version {
        Some(stage) => Some(String::from_str(stage)),
        None => None,
    };
    SecretValueRequest { secret_id: String::from_str(secret), version_stage }
}

/// The request that creates a secret with a text as its value, in a store
/// that knows no projects.
#[derive(Debug, Clone, PartialEq, Eq)]
pub struct NewSecretText {
    /// The secret's name.
    pub name: String,
    /// The secret's value.
    pub secret_string: String,
}

/// The request that creates the secret `secret_name` with the value
/// `secret_val`.
pub fn new_secret_text(secret_name: &str, secret_val: &str) -> (request: NewSecretText)
    ensures
        request.name@ == secret_name@,
        request.secret_string@ == secret_val@,
{
    NewSecretText {
        name: String::from_str(secret_name),
        secret_string: String::from_str(secret_val),
    }
}

/// What the store answers when one version of a secret is read: the value
/// as bytes where it was stored as bytes, as text where it was stored as
/// text.
#[derive(Debug, Clone, PartialEq, Eq)]
pub struct SecretValue {
    /// The value, stored as bytes.
    pub secret_binary: Option<Vec<u8>>,
    /// The value, stored as text.
    pub secret_string: Option<String>,
}

/// The bytes of a secret value: the bytes it was stored as, else the UTF-8
/// bytes of the text it was stored as; a value that is neither is invalid.
pub open spec fn value_of(value: SecretValue) -> Result<Seq<u8>, NimbusErrorView> {
    match value.secret_binary {
        Some(data) => Ok(data@),
        None => match value.secret_string {
            Some(text) => Ok(encode_utf8(text@)),
            None => Err(invalid_secret()),
        },
    }
}

/// Reads one version of a secret out of the reply, whichever way the value
/// was stored.
pub fn read_secret_version(reply: Result<SecretValue, String>) -> (r: Result<Vec<u8>, NimbusError>)
    ensures
        bytes_outcome(r) == match reply {
            Ok(value) => value_of(value),
            Err(message) => Err(NimbusErrorView::SecretManager(ErrorView::SecretManager(message@))),
        },
{
    match reply {
        Err(message) => Err(refused(message)),
        Ok(value) => match value.secret_binary {
            Some(data) => Ok(data),
            None => match value.secret_string {
                Some(text) => Ok(text.as_str().as_bytes_vec()),
                None => Err(refused(String::from_str("invalid secret"))),
            },
        },
    }
}

/// A secret that was stored as text and comes back as it was stored reads
/// by version as the UTF-8 bytes of the text, which are the bytes that
/// reading the latest version gives.
pub proof fn lemma_text_secret_reads_by_version(value: SecretValue, text: String)
    requires
        value.secret_binary is None,
        value.secret_string == Some(text),
    ensures
        value_of(value) == Ok::<Seq<u8>, NimbusErrorView>(encode_utf8(text@)),
{
}

/// Reads the reply to a request that yields nothing but success or refusal.
pub fn read_done(reply: Result<(), String>) -> (r: Result<(), NimbusError>)
    ensures
        unit_outcome(r) == match reply {
            Ok(_) => Ok(()),
            Err(message) => Err(NimbusErrorView::SecretManager(ErrorView::SecretManager(message@))),
        },
{
    match reply {
        Ok(_) => Ok(()),
        Err(message) => Err(refused(message)),
    }
}

/// What a version request carries: its payload, and in it the data.
pub open spec fn version_data(request: AddSecretVersionRequest) -> Option<Option<Seq<u8>>> {
    match request.payload {
        Some(payload) => Some(crate::text::opt_bytes(payload.data)),
        None => None,
    }
}

/// The request that stores `secret_val` as a new version: its UTF-8 bytes.
pub fn new_version(secret_val: &str) -> (request: AddSecretVersionRequest)
    ensures
        version_data(request) == Some(Some(encode_utf8(secret_val@))),
{
    AddSecretVersionRequest {
        payload: Some(SecretPayload { data: Some(secret_val.as_bytes_vec()) }),
    }
}

/// Where the creation of a secret stands.
#[derive(Debug, Clone, Copy, PartialEq, Eq, Structural)]
pub enum CreateStage {
    /// Nothing was asked of the store yet.
    Start,
    /// The store was asked to create the secret.
    CreatingSecret,
    /// The store was asked to add the first version.
    AddingVersion,
    /// The creation has ended.
    Finished,
}

/// What happened since the last step of a creation.
#[derive(Debug, Clone, PartialEq, Eq)]
pub enum CreateEvent {
    /// The caller starts the creation.
    Begin,
    /// The store did what it was last asked.
    Accepted,
    /// The store refused what it was last asked; the text is its own.
    Refused(String),
}

/// A [`CreateEvent`] over character sequences.
pub enum CreateEventView {
    Begin,
    Accepted,
    Refused(Seq<char>),
}

impl View for CreateEvent {
    type V = CreateEventView;

    open spec fn view(&self) -> CreateEventView {
        match *self {
            CreateEvent::Begin => CreateEventView::Begin,
            CreateEvent::Accepted => CreateEventView::Accepted,
            CreateEvent::Refused(m) => CreateEventView::Refused(m@),
        }
    }
}

/// What the caller is to do next in a creation.
#[derive(Debug, PartialEq, Eq)]
pub enum CreateAction {
    /// Ask the store to create the secret.
    CreateSecret(NewSecret),
    /// Ask the store to add a version under the secret named `parent`.
    AddVersion { parent: String, request: AddSecretVersionRequest },
    /// Stop, with this outcome.
    Finish(Result<(), NimbusError>),
}

/// A [`CreateAction`] over character and byte sequences.
pub enum CreateActionView {
    CreateSecret { parent: Seq<char>, secret_id: Seq<char>, automatic_replication: bool },
    AddVersion { parent: Seq<char>, payload: Option<Option<Seq<u8>>> },
    Finish(Result<(), NimbusErrorView>),
}

impl View for CreateAction {
    type V = CreateActionView;

    open spec fn view(&self) -> CreateActionView {
        match *self {
            CreateAction::CreateSecret(secret) => CreateActionView::CreateSecret {
                parent: secret.parent@,
                secret_id: secret.secret_id@,
                automatic_replication: secret.automatic_replication,
            },
            CreateAction::AddVersion { parent, request } => CreateActionView::AddVersion {
                parent: parent@,
                payload: version_data(request),
            },
            CreateAction::Finish(outcome) => CreateActionView::Finish(unit_outcome(outcome)),
        }
    }
}

/// The step of a creation: the next stage and what to do, or `None` where
/// the event cannot follow the stage.
///
/// The secret is created first, under the project and with automatic
/// replication; once that is accepted its value is added as the first
/// version; once that is accepted the creation ends well. The first refusal
/// ends it with the store's text.
pub open spec fn create_secret_next(
    stage: CreateStage,
    event: CreateEventView,
    project: Seq<char>,
    secret_name: Seq<char>,
    secret_val: Seq<char>,
) -> Option<(CreateStage, CreateActionView)> {
    match (stage, event) {
        (CreateStage::Start, CreateEventView::Begin) => Some(
            (
                CreateStage::CreatingSecret,
                CreateActionView::CreateSecret {
                    parent: project_path(project),
                    secret_id: secret_name,
                    automatic_replication: true,
                },
            ),
        ),
        (CreateStage::CreatingSecret, CreateEventView::Accepted) => Some(
            (
                CreateStage::AddingVersion,
                CreateActionView::AddVersion {
                    parent: secret_path(project, secret_name),
                    payload: Some(Some(encode_utf8(secret_val))),
                },
            ),
        ),
        (CreateStage::AddingVersion, CreateEventView::Accepted) => Some(
            (CreateStage::Finished, CreateActionView::Finish(Ok(()))),
        ),
        (CreateStage::CreatingSecret, CreateEventView::Refused(message)) => Some(
            (
                CreateStage::Finished,
                CreateActionView::Finish(
                    Err(NimbusErrorView::SecretManager(ErrorView::SecretManager(message))),
                ),
            ),
        ),
        (CreateStage::AddingVersion, CreateEventView::Refused(message)) => Some(
            (
                CreateStage::Finished,
                CreateActionView::Finish(
                    Err(NimbusErrorView::SecretManager(ErrorView::SecretManager(message))),
                ),
            ),
        ),
        _ => None,
    }
}

/// A step's result over views.
pub open spec fn create_step_view(step: Option<(CreateStage, CreateAction)>) -> Option<
    (CreateStage, CreateActionView),
> {
    match step {
        Some((stage, action)) => Some((stage, action@)),
        None => None,
    }
}

/// Decides the next step of creating the secret `secret_name` with the value
/// `secret_val` under `project`.
///
/// The caller starts with [`CreateStage::Start`] and [`CreateEvent::Begin`],
/// performs each action it is handed and reports how the store answered,
/// until the action is [`CreateAction::Finish`].
pub fn create_secret_step(
    stage: CreateStage,
    event: CreateEvent,
    project: &str,
    secret_name: &str,
    secret_val: &str,
) -> (step: Option<(CreateStage, CreateAction)>)
    ensures
        create_step_view(step) == create_secret_next(
            stage,
            event@,
            project@,
            secret_name@,
            secret_val@,
        ),
{
    match stage {
        CreateStage::Start => match event {
            CreateEvent::Begin => {
                let secret = NewSecret {
                    parent: project_name(project),
                    secret_id: String::from_str(secret_name),
                    automatic_replication: true,
                };
                Some((CreateStage::CreatingSecret, CreateAction::CreateSecret(secret)))
            },
            _ => None,
        },
        CreateStage::CreatingSecret => match event {
            CreateEvent::Accepted => {
                let parent = self::secret_name(project, secret_name);
                let request = new_version(secret_val);
                Some((CreateStage::AddingVersion, CreateAction::AddVersion { parent, request }))
            },
            CreateEvent::Refused(message) => Some(
                (CreateStage::Finished, CreateAction::Finish(Err(refused(message)))),
            ),
            CreateEvent::Begin => None,
        },
        CreateStage::AddingVersion => match event {
            CreateEvent::Accepted => Some((CreateStage::Finished, CreateAction::Finish(Ok(())))),
            CreateEvent::Refused(message) => Some(
                (CreateStage::Finished, CreateAction::Finish(Err(refused(message)))),
            ),
            CreateEvent::Begin => None,
        },
        CreateStage::Finished => None,
    }
}

/// How far a creation has come: a number that grows with every step.
pub open spec fn create_rank(stage: CreateStage) -> nat {
    match stage {
        CreateStage::Start => 0,
        CreateStage::CreatingSecret => 1,
        CreateStage::AddingVersion => 2,
        CreateStage::Finished => 3,
    }
}

/// Every step of a creation moves to a later stage, so a creation ends
/// after at most three steps; a step ends the creation exactly when its
/// action is to finish; and a creation ends well only when the version was
/// accepted.
pub proof fn lemma_create_secret_progress(
    stage: CreateStage,
    event: CreateEventView,
    project: Seq<char>,
    secret_name: Seq<char>,
    secret_val: Seq<char>,
)
    ensures
        create_secret_next(stage, event, project, secret_name, secret_val) matches Some(
            (next, action),
        ) ==> {
            &&& create_rank(next) > create_rank(stage)
            &&& next == CreateStage::Finished <==> action is Finish
            &&& action == CreateActionView::Finish(Ok(())) ==> stage == CreateStage::AddingVersion
                && event is Accepted
        },
        stage == CreateStage::Finished ==> create_secret_next(
            stage,
            event,
            project,
            secret_name,
            secret_val,
        ) is None,
{
}

} // verus!
