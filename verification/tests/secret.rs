use nimbus::secret::{
    create_secret_step, latest_secret_name, new_version, project_name, read_done, read_secret,
    new_secret_text, read_secret_string, read_secret_version, refused, secret_name,
    secret_value_request, secret_version_name, AccessSecretVersionResponse,
    AddSecretVersionRequest, CreateAction, CreateEvent, CreateStage, Error, NewSecret,
    NewSecretText, SecretPayload, SecretValue, SecretValueRequest,
};
use nimbus::NimbusError;

fn store_error(text: &str) -> NimbusError {
    NimbusError::SecretManager(Error::SecretManager(text.to_owned()))
}

#[test]
fn project_name_has_prefix() {
    assert_eq!(project_name("acme"), "projects/acme");
    assert_eq!(project_name(""), "projects/");
}

#[test]
fn secret_name_joins_project_and_secret() {
    assert_eq!(secret_name("acme", "db-password"), "projects/acme/secrets/db-password");
}

#[test]
fn secret_version_name_joins_all_three() {
    assert_eq!(
        secret_version_name("acme", "db-password", "7"),
        "projects/acme/secrets/db-password/versions/7"
    );
}

#[test]
fn latest_secret_name_ends_in_latest() {
    assert_eq!(
        latest_secret_name("acme", "db-password"),
        "projects/acme/secrets/db-password/versions/latest"
    );
    assert_eq!(
        latest_secret_name("acme", "db-password"),
        secret_version_name("acme", "db-password", "latest")
    );
}

#[test]
fn names_keep_non_ascii_text() {
    assert_eq!(secret_name("prøve", "nøgle"), "projects/prøve/secrets/nøgle");
}

#[test]
fn read_secret_gives_the_data() {
    let response = AccessSecretVersionResponse {
        name: Some("projects/acme/secrets/s/versions/1".to_owned()),
        payload: Some(SecretPayload { data: Some(vec![1, 2, 3]) }),
    };
    assert_eq!(read_secret(Ok(response)), Ok(vec![1, 2, 3]));
}

#[test]
fn read_secret_gives_empty_data() {
    let response =
        AccessSecretVersionResponse { name: None, payload: Some(SecretPayload { data: Some(vec![]) }) };
    assert_eq!(read_secret(Ok(response)), Ok(vec![]));
}

#[test]
fn read_secret_without_payload() {
    let response = AccessSecretVersionResponse { name: None, payload: None };
    assert_eq!(read_secret(Ok(response)), Err(NimbusError::SecretManager(Error::NoPayload)));
}

#[test]
fn read_secret_without_data() {
    let response =
        AccessSecretVersionResponse { name: None, payload: Some(SecretPayload { data: None }) };
    assert_eq!(read_secret(Ok(response)), Err(NimbusError::SecretManager(Error::NoData)));
}

#[test]
fn read_secret_refused() {
    assert_eq!(read_secret(Err("permission denied".to_owned())), Err(store_error("permission denied")));
}

#[test]
fn read_secret_string_gives_utf8_bytes() {
    assert_eq!(read_secret_string(Ok(Some("hé".to_owned()))), Ok(vec![0x68, 0xC3, 0xA9]));
}

#[test]
fn read_secret_string_without_text() {
    assert_eq!(read_secret_string(Ok(None)), Err(store_error("invalid secret")));
}

#[test]
fn read_secret_string_refused() {
    assert_eq!(read_secret_string(Err("throttled".to_owned())), Err(store_error("throttled")));
}

#[test]
fn read_secret_version_gives_the_bytes() {
    let value = SecretValue { secret_binary: Some(vec![0, 255, 7]), secret_string: None };
    assert_eq!(read_secret_version(Ok(value)), Ok(vec![0, 255, 7]));
}

#[test]
fn read_secret_version_gives_the_bytes_of_a_text() {
    let value = SecretValue { secret_binary: None, secret_string: Some("hé".to_owned()) };
    assert_eq!(read_secret_version(Ok(value)), Ok(vec![0x68, 0xC3, 0xA9]));
}

#[test]
fn read_secret_version_reads_what_the_latest_version_reads() {
    let value = SecretValue { secret_binary: None, secret_string: Some("s3cr3t".to_owned()) };
    assert_eq!(read_secret_version(Ok(value)), read_secret_string(Ok(Some("s3cr3t".to_owned()))));
}

#[test]
fn read_secret_version_takes_the_bytes_where_both_are_there() {
    let value = SecretValue { secret_binary: Some(vec![1]), secret_string: Some("a".to_owned()) };
    assert_eq!(read_secret_version(Ok(value)), Ok(vec![1]));
}

#[test]
fn read_secret_version_without_a_value() {
    let value = SecretValue { secret_binary: None, secret_string: None };
    assert_eq!(read_secret_version(Ok(value)), Err(store_error("invalid secret")));
}

#[test]
fn read_secret_version_refused() {
    assert_eq!(read_secret_version(Err("throttled".to_owned())), Err(store_error("throttled")));
}

#[test]
fn secret_read_done_passes_success_and_maps_refusal() {
    assert_eq!(read_done(Ok(())), Ok(()));
    assert_eq!(read_done(Err("exists".to_owned())), Err(store_error("exists")));
}

#[test]
fn refused_wraps_the_text() {
    assert_eq!(refused("quota".to_owned()), store_error("quota"));
}

#[test]
fn new_version_holds_the_value_bytes() {
    assert_eq!(
        new_version("s3cr3t"),
        AddSecretVersionRequest { payload: Some(SecretPayload { data: Some(b"s3cr3t".to_vec()) }) }
    );
}

#[test]
fn create_secret_runs_in_two_requests() {
    let first = create_secret_step(CreateStage::Start, CreateEvent::Begin, "acme", "token", "abc");
    assert_eq!(
        first,
        Some((
            CreateStage::CreatingSecret,
            CreateAction::CreateSecret(NewSecret {
                parent: "projects/acme".to_owned(),
                secret_id: "token".to_owned(),
                automatic_replication: true,
            })
        ))
    );
    let second =
        create_secret_step(CreateStage::CreatingSecret, CreateEvent::Accepted, "acme", "token", "abc");
    assert_eq!(
        second,
        Some((
            CreateStage::AddingVersion,
            CreateAction::AddVersion {
                parent: "projects/acme/secrets/token".to_owned(),
                request: AddSecretVersionRequest {
                    payload: Some(SecretPayload { data: Some(vec![0x61, 0x62, 0x63]) }),
                },
            }
        ))
    );
    let third =
        create_secret_step(CreateStage::AddingVersion, CreateEvent::Accepted, "acme", "token", "abc");
    assert_eq!(third, Some((CreateStage::Finished, CreateAction::Finish(Ok(())))));
}

#[test]
fn create_secret_stops_at_first_refusal() {
    let step = create_secret_step(
        CreateStage::CreatingSecret,
        CreateEvent::Refused("already exists".to_owned()),
        "acme",
        "token",
        "abc",
    );
    assert_eq!(
        step,
        Some((CreateStage::Finished, CreateAction::Finish(Err(store_error("already exists")))))
    );
}

#[test]
fn create_secret_stops_when_version_is_refused() {
    let step = create_secret_step(
        CreateStage::AddingVersion,
        CreateEvent::Refused("too large".to_owned()),
        "acme",
        "token",
        "abc",
    );
    assert_eq!(
        step,
        Some((CreateStage::Finished, CreateAction::Finish(Err(store_error("too large")))))
    );
}

#[test]
fn create_secret_rejects_events_out_of_turn() {
    assert_eq!(create_secret_step(CreateStage::Start, CreateEvent::Accepted, "p", "s", "v"), None);
    assert_eq!(
        create_secret_step(CreateStage::Start, CreateEvent::Refused("x".to_owned()), "p", "s", "v"),
        None
    );
    assert_eq!(create_secret_step(CreateStage::CreatingSecret, CreateEvent::Begin, "p", "s", "v"), None);
    assert_eq!(create_secret_step(CreateStage::AddingVersion, CreateEvent::Begin, "p", "s", "v"), None);
    assert_eq!(create_secret_step(CreateStage::Finished, CreateEvent::Begin, "p", "s", "v"), None);
    assert_eq!(create_secret_step(CreateStage::Finished, CreateEvent::Accepted, "p", "s", "v"), None);
}

#[test]
fn secret_error_messages() {
    assert_eq!(Error::NoData.message(), "No data in payload from AccessSecretVersionResponse");
    assert_eq!(Error::NoPayload.message(), "No payload in AccessSecretVersionResponse");
    assert_eq!(Error::Other("boom".to_owned()).message(), "Error: boom");
    assert_eq!(Error::SecretManager("denied".to_owned()).message(), "SecretManager error: denied");
}

#[test]
fn secret_value_request_for_the_current_version() {
    assert_eq!(
        secret_value_request("db-password", None),
        SecretValueRequest { secret_id: "db-password".to_owned(), version_stage: None }
    );
}

#[test]
fn secret_value_request_for_a_stage() {
    assert_eq!(
        secret_value_request("db-password", Some("AWSPREVIOUS")),
        SecretValueRequest {
            secret_id: "db-password".to_owned(),
            version_stage: Some("AWSPREVIOUS".to_owned()),
        }
    );
}

#[test]
fn new_secret_text_holds_name_and_value() {
    assert_eq!(
        new_secret_text("token", "s3cr3t"),
        NewSecretText { name: "token".to_owned(), secret_string: "s3cr3t".to_owned() }
    );
}
