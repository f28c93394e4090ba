use chrono::Utc;
use nimbus::task::{
    create_task_request, push_request, read_pushed, refused, CreateTaskRequest, Error, HttpRequest,
    OidcToken, Task, TaskHelper, Timestamp,
};
use nimbus::text::{prefixed, same_text};
use nimbus::NimbusError;
use std::collections::HashMap;

fn json_headers() -> HashMap<String, String> {
    let mut h = HashMap::new();
    h.insert("Content-Type".to_owned(), "application/json; charset=UTF-8".to_owned());
    h
}

fn json_body() -> Vec<u8> {
    let body = "\
        {
            \"title\": \"foo task\",
            \"body\": \"bar task\",
            \"userId\": 1
        }";
    body.as_bytes().to_vec()
}

#[test]
fn test_new_http_task() {
    let now = Utc::now();
    let date = Timestamp { seconds: now.timestamp(), nanos: now.timestamp_subsec_nanos() };
    let task = Task::new_task(
        "https://example.com",
        "POST",
        None,
        Some(HashMap::new()),
        Some("test".to_owned()),
        Some(date),
        None,
    );

    assert_eq!(task.clone().http_request.unwrap().url.unwrap(), "https://example.com");
    assert_eq!(task.clone().http_request.unwrap().http_method.unwrap(), "POST");
    assert_eq!(task.clone().name.unwrap(), "test");
    assert_eq!(task.clone().schedule_time.unwrap(), date);
}

#[test]
fn new_task_carries_every_argument() {
    let token = OidcToken {
        audience: Some("https://example.com".to_owned()),
        service_account_email: Some("runner@example.iam".to_owned()),
    };
    let when = Timestamp { seconds: 1_700_000_000, nanos: 250 };
    let task = Task::new_task(
        "https://jsonplaceholder.typicode.com/posts",
        "POST",
        Some(json_body()),
        Some(json_headers()),
        Some("queue/tasks/test_task_1".to_owned()),
        Some(when),
        Some(token.clone()),
    );
    assert_eq!(
        task,
        Task {
            name: Some("queue/tasks/test_task_1".to_owned()),
            http_request: Some(HttpRequest {
                body: Some(json_body()),
                headers: Some(json_headers()),
                http_method: Some("POST".to_owned()),
                oauth_token: None,
                oidc_token: Some(token),
                url: Some("https://jsonplaceholder.typicode.com/posts".to_owned()),
            }),
            schedule_time: Some(when),
        }
    );
}

#[test]
fn new_task_with_nothing_optional() {
    let task = Task::new_task("https://example.com", "GET", None, None, None, None, None);
    assert_eq!(
        task,
        Task {
            name: None,
            http_request: Some(HttpRequest {
                body: None,
                headers: None,
                http_method: Some("GET".to_owned()),
                oauth_token: None,
                oidc_token: None,
                url: Some("https://example.com".to_owned()),
            }),
            schedule_time: None,
        }
    );
}

#[test]
fn create_task_request_wraps_the_task() {
    let task = Task::new_task("https://example.com", "GET", None, None, None, None, None);
    let request = create_task_request(task.clone(), Some("FULL".to_owned()));
    assert_eq!(request, CreateTaskRequest { response_view: Some("FULL".to_owned()), task: Some(task) });
}

#[test]
fn push_request_builds_the_task_it_pushes() {
    let request = push_request(
        "https://jsonplaceholder.typicode.com/posts",
        "POST",
        Some(json_body()),
        Some(json_headers()),
        None,
        None,
        None,
        None,
    );
    let task = Task::new_task(
        "https://jsonplaceholder.typicode.com/posts",
        "POST",
        Some(json_body()),
        Some(json_headers()),
        None,
        None,
        None,
    );
    assert_eq!(request, CreateTaskRequest { response_view: None, task: Some(task) });
    let sent = request.task.unwrap().http_request.unwrap();
    assert_eq!(sent.url.unwrap(), "https://jsonplaceholder.typicode.com/posts");
    assert_eq!(sent.http_method.unwrap(), "POST");
    assert_eq!(sent.body.unwrap(), json_body());
    assert_eq!(
        sent.headers.unwrap().get("Content-Type").unwrap(),
        "application/json; charset=UTF-8"
    );
}

#[test]
fn read_pushed_passes_the_answer_and_maps_refusal() {
    assert_eq!(read_pushed(Ok::<u16, String>(200)), Ok(200));
    assert_eq!(
        read_pushed::<u16>(Err("queue not found".to_owned())),
        Err(NimbusError::TasksClient(Error::CloudTasks("queue not found".to_owned())))
    );
    assert_eq!(
        refused("nope".to_owned()),
        NimbusError::TasksClient(Error::CloudTasks("nope".to_owned()))
    );
}

#[test]
fn task_error_messages() {
    assert_eq!(Error::Other("a".to_owned()).message(), "Error: a");
    assert_eq!(Error::CloudTasks("b".to_owned()).message(), "CloudTasks error: b");
}

#[test]
fn nimbus_error_messages() {
    assert_eq!(
        NimbusError::SecretManager(nimbus::secret::Error::NoData).message(),
        "SecretManager error: No data in payload from AccessSecretVersionResponse"
    );
    assert_eq!(
        NimbusError::StorageClient(nimbus::storage::Error::IO("gone".to_owned())).message(),
        "Storage error: IO error: gone"
    );
    assert_eq!(
        NimbusError::TasksClient(Error::CloudTasks("late".to_owned())).message(),
        "CloudTasks error: CloudTasks error: late"
    );
    assert_eq!(NimbusError::Other("plain".to_owned()).message(), "Error: plain");
}

#[test]
fn nimbus_error_from_each_area() {
    assert_eq!(
        NimbusError::from(nimbus::secret::Error::NoPayload),
        NimbusError::SecretManager(nimbus::secret::Error::NoPayload)
    );
    assert_eq!(
        NimbusError::from(nimbus::storage::Error::Other("x".to_owned())),
        NimbusError::StorageClient(nimbus::storage::Error::Other("x".to_owned()))
    );
    let e: NimbusError = Error::Other("y".to_owned()).into();
    assert_eq!(e, NimbusError::TasksClient(Error::Other("y".to_owned())));
}

#[test]
fn same_text_compares_characters() {
    assert!(same_text("jpg", "jpg"));
    assert!(same_text("", ""));
    assert!(!same_text("jpg", "jpeg"));
    assert!(!same_text("jpg", "jpG"));
    assert!(!same_text("", "a"));
    assert!(same_text("é", "\u{e9}"));
    assert!(!same_text("e\u{301}", "\u{e9}"));
}

#[test]
fn prefixed_puts_the_prefix_first() {
    assert_eq!(prefixed("Error: ", "boom"), "Error: boom");
    assert_eq!(prefixed("", ""), "");
}
