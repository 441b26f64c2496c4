use meilisearch_wrapper::headers::Header;
use meilisearch_wrapper::proxy::{
    render, step, BodyError, HandlerAction, HandlerEvent, HandlerState, HttpResponse,
    UpstreamResponse,
};
use meilisearch_wrapper::task::{poll_step, PollEvent, PollStep, WaitForTaskError};

fn header(name: &str, value: &str) -> Header {
    Header { name: name.to_string(), value: value.as_bytes().to_vec() }
}

fn header_pairs(headers: &[Header]) -> Vec<(String, Vec<u8>)> {
    headers.iter().map(|h| (h.name.clone(), h.value.clone())).collect()
}

fn json(text: &str) -> serde_json::Value {
    serde_json::from_str(text).expect("test JSON")
}

/// What Meilisearch's answer body announces, read as the server reads it.
fn enqueued_task_uid(body: &[u8]) -> Option<u64> {
    let value: serde_json::Value = serde_json::from_slice(body).ok()?;
    value.get("taskUid")?.as_u64()
}

fn upstream(status: u16, headers: Vec<Header>, body: &str) -> Result<(UpstreamResponse, Option<u64>), String> {
    let body = body.as_bytes().to_vec();
    let uid = enqueued_task_uid(&body);
    Ok((UpstreamResponse { status, headers, body }, uid))
}

fn answered(status: u16, body: &str) -> PollEvent {
    let task_status = match serde_json::from_str::<serde_json::Value>(body) {
        Ok(v) => match v.get("status").and_then(|s| s.as_str()) {
            Some(s) => Ok(s.to_string()),
            None => Err("missing field `status`".to_string()),
        },
        Err(e) => Err(e.to_string()),
    };
    PollEvent::Answered { status, body: body.as_bytes().to_vec(), task_status }
}

struct Sent {
    method: String,
    url: String,
    headers: Vec<(String, Vec<u8>)>,
    body: Vec<u8>,
}

struct Outcome {
    response: HttpResponse,
    sent: Option<Sent>,
    waited_for: Option<u64>,
    polled_with: Option<Vec<(String, Vec<u8>)>>,
}

fn wait(task_uid: u64, polls: &mut std::vec::IntoIter<PollEvent>) -> Result<Vec<u8>, WaitForTaskError> {
    loop {
        let event = polls.next().unwrap_or(PollEvent::DeadlinePassed);
        match poll_step(task_uid, event) {
            PollStep::Retry => continue,
            PollStep::Finish(result) => return result,
        }
    }
}

fn drive(
    method: &str,
    uri: &str,
    headers: Vec<Header>,
    body: Result<Vec<u8>, BodyError>,
    answer: Result<(UpstreamResponse, Option<u64>), String>,
    polls: Vec<PollEvent>,
) -> Outcome {
    let mut body = Some(body);
    let mut answer = Some(answer);
    let mut polls = polls.into_iter();
    let mut state = HandlerState::Idle;
    let mut event = HandlerEvent::Request { method: method.to_string(), uri: uri.to_string(), headers };
    let mut sent = None;
    let mut waited_for = None;
    let mut polled_with = None;
    loop {
        let (next, action) = step(state, event);
        state = next;
        event = match action {
            HandlerAction::ReadBody => HandlerEvent::BodyRead(body.take().expect("body read once")),
            HandlerAction::Forward { method, url, body } => {
                let headers = header_pairs(state.upstream_headers().expect("headers decided"));
                sent = Some(Sent { method, url, headers, body });
                HandlerEvent::Answered(answer.take().expect("forwarded once"))
            }
            HandlerAction::WaitForTask { task_uid } => {
                waited_for = Some(task_uid);
                polled_with = Some(header_pairs(state.upstream_headers().expect("headers decided")));
                HandlerEvent::TaskWaited(wait(task_uid, &mut polls))
            }
            HandlerAction::Respond(reply) => {
                return Outcome { response: render(reply), sent, waited_for, polled_with };
            }
        };
    }
}

fn auth() -> Vec<Header> {
    vec![header("authorization", "Bearer masterKey")]
}

fn body_json(response: &HttpResponse) -> serde_json::Value {
    serde_json::from_slice(&response.body).expect("JSON body")
}

// ---- forwarding of plain requests ----

#[test]
fn get_keys() {
    let out = drive(
        "GET",
        "/keys",
        auth(),
        Ok(Vec::new()),
        upstream(
            200,
            vec![header("content-type", "application/json")],
            r#"{"results":[{"name":"Default Search API Key","actions":["search"]}],"offset":0,"limit":20,"total":1}"#,
        ),
        Vec::new(),
    );
    assert_eq!(out.response.status, 200, "Get keys failed with status {}", out.response.status);
    let data = body_json(&out.response);
    assert!(!data["results"].as_array().unwrap().is_empty(), "Expected at least one key in results");
    assert!(out.waited_for.is_none());
}

#[test]
fn get_indexes() {
    let out = drive(
        "GET",
        "/indexes",
        auth(),
        Ok(Vec::new()),
        upstream(200, Vec::new(), r#"{"results":[],"offset":0,"limit":20,"total":0}"#),
        Vec::new(),
    );
    assert_eq!(out.response.status, 200, "Get indexes failed with status {}", out.response.status);
    let data = body_json(&out.response);
    assert_eq!(data["offset"], 0, "Expected offset to be 0");
    assert!(data["limit"].as_u64().unwrap() > 0, "Expected limit to be greater than 0");
}

// ---- writes are waited for ----

#[test]
fn seed_and_verify_documents() {
    let csv = "id,title\n1,Carol\n2,Wonder Woman\n".as_bytes().to_vec();
    let finished = r#"{"uid":0,"indexUid":"movies","status":"succeeded","type":"documentAdditionOrUpdate","canceledBy":null,"details":{"receivedDocuments":31944,"indexedDocuments":31944},"error":null}"#;
    let out = drive(
        "POST",
        "/indexes/movies/documents?primaryKey=id",
        vec![header("authorization", "Bearer masterKey"), header("content-type", "text/csv")],
        Ok(csv.clone()),
        upstream(
            202,
            Vec::new(),
            r#"{"taskUid":0,"indexUid":"movies","status":"enqueued","type":"documentAdditionOrUpdate","enqueuedAt":"2024-01-01T00:00:00Z"}"#,
        ),
        vec![
            answered(200, r#"{"uid":0,"status":"enqueued"}"#),
            answered(200, r#"{"uid":0,"status":"processing"}"#),
            answered(200, finished),
        ],
    );
    let sent = out.sent.expect("forwarded");
    assert_eq!(sent.method, "POST");
    assert_eq!(sent.url, "http://localhost:7700/indexes/movies/documents?primaryKey=id");
    assert_eq!(sent.body, csv);
    assert_eq!(out.response.status, 200, "Seed request failed with status {}", out.response.status);
    let task = body_json(&out.response);
    assert_eq!(task["status"], "succeeded", "Expected proxy to return completed task, got '{}'. If 'enqueued', the proxy is not polling.", task["status"]);
    assert_eq!(task["details"]["receivedDocuments"], 31944);
    assert_eq!(task["details"]["indexedDocuments"], 31944);

    let out = drive(
        "GET",
        "/indexes",
        auth(),
        Ok(Vec::new()),
        upstream(200, Vec::new(), r#"{"results":[{"uid":"movies","primaryKey":"id"}],"offset":0,"limit":20,"total":1}"#),
        Vec::new(),
    );
    assert_eq!(out.response.status, 200);
    let data = body_json(&out.response);
    assert!(data["total"].as_u64().unwrap() >= 1, "Expected at least one index to exist");
    let movies = data["results"]
        .as_array()
        .unwrap()
        .iter()
        .find(|index| index["uid"] == "movies")
        .expect("Expected a 'movies' index to exist");
    assert_eq!(movies["primaryKey"].as_str(), Some("id"));

    let tasks_body = format!(r#"{{"results":[{}],"total":1}}"#, finished);
    let out = drive("GET", "/tasks", auth(), Ok(Vec::new()), upstream(200, Vec::new(), &tasks_body), Vec::new());
    assert_eq!(out.response.status, 200);
    let data = body_json(&out.response);
    let results = data["results"].as_array().unwrap();
    assert!(!results.is_empty(), "Expected at least one task");
    let task = results
        .iter()
        .find(|t| t["indexUid"] == "movies" && t["type"] == "documentAdditionOrUpdate")
        .expect("Expected a documentAdditionOrUpdate task for the 'movies' index");
    assert_eq!(task["status"], "succeeded");
    assert!(task["canceledBy"].is_null(), "Expected canceledBy to be null");
    assert!(task["error"].is_null(), "Expected error to be null");
    assert_eq!(task["details"]["receivedDocuments"], 31944);
    assert_eq!(task["details"]["indexedDocuments"], 31944);
}

#[test]
fn patch_settings_is_synchronous() {
    let out = drive(
        "POST",
        "/indexes",
        auth(),
        Ok(br#"{"uid":"async_settings_test","primaryKey":"id"}"#.to_vec()),
        upstream(202, Vec::new(), r#"{"taskUid":1,"indexUid":"async_settings_test","status":"enqueued","type":"indexCreation"}"#),
        vec![answered(200, r#"{"uid":1,"status":"succeeded","type":"indexCreation"}"#)],
    );
    assert_eq!(out.response.status, 200);
    assert_eq!(body_json(&out.response)["status"], "succeeded");

    let out = drive(
        "PATCH",
        "/indexes/async_settings_test/settings",
        auth(),
        Ok(br#"{"searchableAttributes":["title"]}"#.to_vec()),
        upstream(202, Vec::new(), r#"{"taskUid":2,"indexUid":"async_settings_test","status":"enqueued","type":"settingsUpdate"}"#),
        vec![
            answered(200, r#"{"uid":2,"status":"processing","type":"settingsUpdate"}"#),
            answered(200, r#"{"uid":2,"status":"succeeded","type":"settingsUpdate"}"#),
        ],
    );
    assert_eq!(out.waited_for, Some(2));
    assert_eq!(out.response.status, 200, "PATCH settings failed with status {}", out.response.status);
    let task = body_json(&out.response);
    assert_eq!(task["status"], "succeeded", "Expected proxy to wait for the settings update task, got '{}'", task["status"]);
    assert_eq!(task["type"], "settingsUpdate");
}

#[test]
fn put_documents_and_delete_document_are_synchronous() {
    let out = drive(
        "POST",
        "/indexes",
        auth(),
        Ok(br#"{"uid":"async_docs_test","primaryKey":"id"}"#.to_vec()),
        upstream(202, Vec::new(), r#"{"taskUid":3,"status":"enqueued","type":"indexCreation"}"#),
        vec![answered(200, r#"{"uid":3,"status":"succeeded","type":"indexCreation"}"#)],
    );
    assert_eq!(out.response.status, 200);

    let out = drive(
        "PUT",
        "/indexes/async_docs_test/documents",
        auth(),
        Ok(br#"[{"id":1,"title":"a"}]"#.to_vec()),
        upstream(202, Vec::new(), r#"{"taskUid":4,"status":"enqueued","type":"documentAdditionOrUpdate"}"#),
        vec![answered(200, r#"{"uid":4,"status":"succeeded","type":"documentAdditionOrUpdate"}"#)],
    );
    assert_eq!(out.response.status, 200, "PUT documents failed with status {}", out.response.status);
    let task = body_json(&out.response);
    assert_eq!(task["status"], "succeeded");
    assert_eq!(task["type"], "documentAdditionOrUpdate");

    let out = drive(
        "DELETE",
        "/indexes/async_docs_test/documents/1",
        auth(),
        Ok(Vec::new()),
        upstream(202, Vec::new(), r#"{"taskUid":5,"status":"enqueued","type":"documentDeletion"}"#),
        vec![answered(200, r#"{"uid":5,"status":"succeeded","type":"documentDeletion"}"#)],
    );
    assert_eq!(out.response.status, 200, "DELETE document failed with status {}", out.response.status);
    let task = body_json(&out.response);
    assert_eq!(task["status"], "succeeded", "Expected proxy to wait for the document deletion task, got '{}'", task["status"]);
    assert_eq!(task["type"], "documentDeletion");
}

#[test]
fn delete_tasks_is_synchronous() {
    // Task deletion is enqueued with status 200, not 202.
    let out = drive(
        "DELETE",
        "/tasks?statuses=succeeded,failed,canceled",
        auth(),
        Ok(Vec::new()),
        upstream(200, Vec::new(), r#"{"taskUid":6,"status":"enqueued","type":"taskDeletion"}"#),
        vec![answered(200, r#"{"uid":6,"status":"succeeded","type":"taskDeletion"}"#)],
    );
    assert_eq!(out.waited_for, Some(6));
    assert_eq!(out.response.status, 200, "DELETE tasks failed with status {}", out.response.status);
    let task = body_json(&out.response);
    assert_eq!(task["status"], "succeeded", "Expected proxy to wait for the task deletion task, got '{}'", task["status"]);
    assert_eq!(task["type"], "taskDeletion");
}

#[test]
fn search_is_not_intercepted() {
    let out = drive(
        "POST",
        "/indexes/async_search_test/search",
        auth(),
        Ok(br#"{"q":""}"#.to_vec()),
        upstream(200, Vec::new(), r#"{"hits":[],"query":"","processingTimeMs":0,"limit":20,"offset":0,"estimatedTotalHits":0}"#),
        vec![answered(200, r#"{"uid":9,"status":"succeeded"}"#)],
    );
    assert_eq!(out.waited_for, None);
    assert_eq!(out.response.status, 200, "Search failed with status {}", out.response.status);
    let body = body_json(&out.response);
    assert!(body.get("hits").is_some(), "Expected search response to contain 'hits'");
    assert!(body.get("taskUid").is_none(), "Search response should never contain a taskUid");
}

// ---- the rest of the request flow ----

#[test]
fn options_is_answered_without_forwarding() {
    let out = drive("OPTIONS", "/indexes", auth(), Ok(Vec::new()), Err("unused".to_string()), Vec::new());
    assert!(out.sent.is_none());
    assert_eq!(out.response.status, 200);
    assert!(out.response.body.is_empty());
    assert_eq!(header_pairs(&out.response.headers), vec![("content-length".to_string(), b"0".to_vec())]);
}

#[test]
fn hop_by_hop_headers_are_dropped_both_ways() {
    let out = drive(
        "GET",
        "/version",
        vec![
            header("authorization", "Bearer k"),
            header("content-length", "12"),
            header("transfer-encoding", "chunked"),
            header("connection", "keep-alive"),
            header("accept", "application/json"),
        ],
        Ok(Vec::new()),
        upstream(
            200,
            vec![
                header("content-type", "application/json"),
                header("transfer-encoding", "chunked"),
                header("content-length", "40"),
                header("connection", "close"),
                header("x-request-id", "abc"),
            ],
            r#"{"pkgVersion":"1.42.1"}"#,
        ),
        Vec::new(),
    );
    let sent = out.sent.expect("forwarded");
    assert_eq!(
        sent.headers,
        vec![
            ("authorization".to_string(), b"Bearer k".to_vec()),
            ("accept".to_string(), b"application/json".to_vec()),
        ]
    );
    assert_eq!(
        header_pairs(&out.response.headers),
        vec![
            ("content-type".to_string(), b"application/json".to_vec()),
            ("x-request-id".to_string(), b"abc".to_vec()),
        ]
    );
    assert_eq!(out.response.body, br#"{"pkgVersion":"1.42.1"}"#.to_vec());
}

#[test]
fn oversized_and_unreadable_bodies_are_refused() {
    let out = drive("POST", "/indexes", auth(), Err(BodyError::TooLarge), Err("unused".to_string()), Vec::new());
    assert!(out.sent.is_none());
    assert_eq!(out.response.status, 413);
    assert_eq!(out.response.body, b"request body too large".to_vec());

    let out = drive(
        "POST",
        "/indexes",
        auth(),
        Err(BodyError::Unreadable("connection reset".to_string())),
        Err("unused".to_string()),
        Vec::new(),
    );
    assert_eq!(out.response.status, 400);
    assert_eq!(out.response.body, b"failed to read request body: connection reset".to_vec());
}

#[test]
fn unreachable_meilisearch_is_a_bad_gateway() {
    let out = drive("GET", "/health", auth(), Ok(Vec::new()), Err("connection refused".to_string()), Vec::new());
    assert_eq!(out.response.status, 502);
    assert_eq!(out.response.body, b"proxy error: connection refused".to_vec());
    assert!(out.response.headers.is_empty());
}

#[test]
fn enqueued_answer_is_returned_when_tasks_cannot_be_read() {
    let enqueued = r#"{"taskUid":7,"status":"enqueued","type":"documentAdditionOrUpdate"}"#;
    let out = drive(
        "POST",
        "/indexes/books/documents",
        vec![header("authorization", "Bearer writeOnlyKey")],
        Ok(b"[]".to_vec()),
        upstream(202, vec![header("content-type", "application/json"), header("content-length", "70")], enqueued),
        vec![answered(403, r#"{"message":"forbidden","code":"invalid_api_key"}"#)],
    );
    assert_eq!(out.polled_with, Some(vec![("authorization".to_string(), b"Bearer writeOnlyKey".to_vec())]));
    assert_eq!(out.response.status, 202);
    assert_eq!(out.response.body, enqueued.as_bytes().to_vec());
    assert_eq!(header_pairs(&out.response.headers), vec![("content-type".to_string(), b"application/json".to_vec())]);
}

#[test]
fn failed_task_is_a_server_error() {
    let out = drive(
        "POST",
        "/indexes",
        auth(),
        Ok(b"{}".to_vec()),
        upstream(202, Vec::new(), r#"{"taskUid":8,"status":"enqueued"}"#),
        vec![answered(200, r#"{"uid":8,"status":"failed"}"#)],
    );
    assert_eq!(out.response.status, 500);
    assert_eq!(out.response.body, b"task polling error: task 8 terminal state: failed".to_vec());
}

#[test]
fn task_that_never_ends_times_out() {
    let out = drive(
        "POST",
        "/indexes",
        auth(),
        Ok(b"{}".to_vec()),
        upstream(202, Vec::new(), r#"{"taskUid":12345,"status":"enqueued"}"#),
        vec![answered(200, r#"{"uid":12345,"status":"processing"}"#), PollEvent::RequestFailed],
    );
    assert_eq!(out.response.status, 500);
    assert_eq!(out.response.body, b"task polling error: timed out waiting for task 12345".to_vec());
}

#[test]
fn error_status_while_polling_is_a_server_error() {
    let out = drive(
        "POST",
        "/indexes",
        auth(),
        Ok(b"{}".to_vec()),
        upstream(202, Vec::new(), r#"{"taskUid":3,"status":"enqueued"}"#),
        vec![answered(404, r#"{"message":"task not found"}"#)],
    );
    assert_eq!(out.response.status, 500);
    assert_eq!(out.response.body, b"task polling error: error fetching task 3: 404 Not Found".to_vec());
}

#[test]
fn each_request_is_answered_once_in_at_most_four_steps() {
    let events = vec![
        HandlerEvent::Request { method: "POST".to_string(), uri: "/indexes".to_string(), headers: auth() },
        HandlerEvent::BodyRead(Ok(b"{}".to_vec())),
        HandlerEvent::Answered(upstream(202, Vec::new(), r#"{"taskUid":1,"status":"enqueued"}"#)),
        HandlerEvent::TaskWaited(Ok(br#"{"uid":1,"status":"succeeded"}"#.to_vec())),
    ];
    let mut state = HandlerState::Idle;
    let mut replies = 0;
    let mut steps = 0;
    for event in events {
        let (next, action) = step(state, event);
        steps += 1;
        let finished = matches!(next, HandlerState::Finished);
        if let HandlerAction::Respond(reply) = action {
            replies += 1;
            assert!(finished);
            assert_eq!(render(reply).status, 200);
        } else {
            assert!(!finished);
        }
        state = next;
        if finished {
            break;
        }
    }
    assert_eq!(steps, 4);
    assert_eq!(replies, 1);
}
