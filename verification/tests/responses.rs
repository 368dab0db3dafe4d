use oasgen_core::responses::{json_extractor_responses, OperationExt};
use openapiv3::{Operation, RefOr, Response, StatusCode};

fn description(op: &Operation, code: u16) -> Option<String> {
    match op.responses.responses.get(&StatusCode::Code(code)) {
        Some(RefOr::Item(r)) => Some(r.description.clone()),
        _ => None,
    }
}

fn codes(op: &Operation) -> Vec<StatusCode> {
    op.responses.responses.keys().cloned().collect()
}

#[test]
fn add_response_if_absent_documents_a_new_status() {
    let mut op = Operation::default();
    op.add_response_if_absent(404, "Not found".to_string());
    assert_eq!(description(&op, 404), Some("Not found".to_string()));
    assert_eq!(codes(&op), vec![StatusCode::Code(404)]);
    let r = &op.responses.responses[&StatusCode::Code(404)];
    assert_eq!(
        r,
        &RefOr::Item(Response { description: "Not found".to_string(), ..Response::default() })
    );
}

#[test]
fn add_response_if_absent_keeps_the_handler_description() {
    let mut op = Operation::default();
    op.add_response_if_absent(422, "Task title cannot be empty".to_string());
    op.add_response_if_absent(
        422,
        "The request body is valid JSON but does not match the expected schema.".to_string(),
    );
    assert_eq!(description(&op, 422), Some("Task title cannot be empty".to_string()));
    assert_eq!(codes(&op), vec![StatusCode::Code(422)]);
}

#[test]
fn add_response_if_absent_keeps_a_referenced_response() {
    let mut op = Operation::default();
    op.responses
        .responses
        .insert(StatusCode::Code(400), RefOr::Reference { reference: "#/x".to_string() });
    op.add_response_if_absent(400, "Bad".to_string());
    assert_eq!(
        op.responses.responses[&StatusCode::Code(400)],
        RefOr::Reference { reference: "#/x".to_string() }
    );
}

#[test]
fn add_response_if_absent_appends_after_existing_entries() {
    let mut op = Operation::default();
    op.add_response_if_absent(200, "OK".to_string());
    op.add_response_if_absent(400, "Bad".to_string());
    op.add_response_if_absent(200, "Other".to_string());
    assert_eq!(codes(&op), vec![StatusCode::Code(200), StatusCode::Code(400)]);
    assert_eq!(description(&op, 200), Some("OK".to_string()));
}

#[test]
fn add_response_if_absent_ignores_a_status_range_key() {
    let mut op = Operation::default();
    op.responses.responses.insert(
        StatusCode::Range(4),
        RefOr::Item(Response { description: "Client error".to_string(), ..Response::default() }),
    );
    op.add_response_if_absent(400, "Bad".to_string());
    assert_eq!(codes(&op), vec![StatusCode::Range(4), StatusCode::Code(400)]);
}

#[test]
fn add_response_success_empty_documents_ok() {
    let mut op = Operation::default();
    op.add_response_success_empty();
    assert_eq!(
        op.responses.responses[&StatusCode::Code(200)],
        RefOr::Item(Response { description: "OK".to_string(), ..Response::default() })
    );
}

#[test]
fn add_response_success_empty_keeps_a_documented_200() {
    let mut op = Operation::default();
    op.add_response_if_absent(200, "Something".to_string());
    op.add_response_if_absent(404, "Not found".to_string());
    let before = op.clone();
    op.add_response_success_empty();
    assert_eq!(op, before);
    assert_eq!(description(&op, 200), Some("Something".to_string()));
}

#[test]
fn add_response_success_empty_is_add_if_absent_of_ok() {
    let mut a = Operation::default();
    a.add_response_if_absent(404, "Not found".to_string());
    let mut b = a.clone();
    a.add_response_success_empty();
    b.add_response_if_absent(200, "OK".to_string());
    assert_eq!(a, b);
    assert_eq!(codes(&a), vec![StatusCode::Code(404), StatusCode::Code(200)]);
}

#[test]
fn add_response_if_absent_keeps_the_default_response() {
    let mut op = Operation::default();
    op.add_response_if_absent(400, "A".to_string());
    op.add_response_if_absent(422, "B".to_string());
    op.add_response_if_absent(400, "C".to_string());
    assert_eq!(codes(&op), vec![StatusCode::Code(400), StatusCode::Code(422)]);
    assert_eq!(description(&op, 400), Some("A".to_string()));
    assert_eq!(description(&op, 422), Some("B".to_string()));
    assert_eq!(op.responses.default, None);
    let fallback = RefOr::Item(Response { description: "Error".to_string(), ..Response::default() });
    op.responses.default = Some(fallback.clone());
    op.add_response_if_absent(500, "Server".to_string());
    assert_eq!(op.responses.default, Some(fallback));
}

#[test]
fn json_extractor_responses_are_400_and_422() {
    let r = json_extractor_responses();
    assert_eq!(
        r,
        vec![
            (400, "The request body could not be parsed as JSON.".to_string()),
            (
                422,
                "The request body is valid JSON but does not match the expected schema."
                    .to_string()
            ),
        ]
    );
}

#[test]
fn json_rejections_do_not_clobber_a_documented_422() {
    let mut op = Operation::default();
    op.add_response_if_absent(422, "Task title cannot be empty".to_string());
    for (code, text) in json_extractor_responses() {
        op.add_response_if_absent(code, text);
    }
    assert_eq!(codes(&op), vec![StatusCode::Code(422), StatusCode::Code(400)]);
    assert_eq!(description(&op, 422), Some("Task title cannot be empty".to_string()));
    assert_eq!(
        description(&op, 400),
        Some("The request body could not be parsed as JSON.".to_string())
    );
}

#[test]
fn success_empty_survives_a_later_add_if_absent() {
    let mut op = Operation::default();
    op.add_response_success_empty();
    op.add_response_if_absent(200, "Something else".to_string());
    assert_eq!(description(&op, 200), Some("OK".to_string()));
    op.add_response_success_empty();
    assert_eq!(description(&op, 200), Some("OK".to_string()));
    assert_eq!(codes(&op), vec![StatusCode::Code(200)]);
}

fn documented_with_content(text: &str) -> RefOr<Response> {
    let mut r = Response { description: text.to_string(), ..Response::default() };
    r.content.insert("application/json".to_string(), openapiv3::MediaType::default());
    RefOr::Item(r)
}

#[test]
fn add_response_if_absent_keeps_other_entries_in_full() {
    let mut op = Operation::default();
    op.responses.responses.insert(StatusCode::Code(200), documented_with_content("Task"));
    op.responses.responses.insert(StatusCode::Range(4), documented_with_content("Client"));
    let before = op.responses.responses.clone();
    op.add_response_if_absent(404, "Not found".to_string());
    assert_eq!(op.responses.responses.len(), before.len() + 1);
    for (k, v) in before.iter() {
        assert_eq!(op.responses.responses.get(k), Some(v));
    }
    assert_eq!(
        op.responses.responses.get_index(2),
        Some((
            &StatusCode::Code(404),
            &RefOr::Item(Response { description: "Not found".to_string(), ..Response::default() })
        ))
    );
}

#[test]
fn add_response_if_absent_in_either_order_documents_the_same_pairs() {
    let mut a = Operation::default();
    a.add_response_if_absent(400, "Bad".to_string());
    let mut b = a.clone();
    a.add_response_if_absent(404, "Not found".to_string());
    a.add_response_if_absent(422, "Invalid".to_string());
    b.add_response_if_absent(422, "Invalid".to_string());
    b.add_response_if_absent(404, "Not found".to_string());
    assert_eq!(a.responses.responses.len(), b.responses.responses.len());
    for (k, v) in a.responses.responses.iter() {
        assert_eq!(b.responses.responses.get(k), Some(v));
    }
}
