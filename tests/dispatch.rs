use create_routes::create::{complete_create_route, handle_create_routes};
use create_routes::{BasicMessage, CreateAction, CreateData, CreateRoutes, EnvelopeError, Message};

fn alice_row() -> serde_json::Value {
    serde_json::from_str("{\"name\":\"alice\"}").unwrap()
}

fn alice_request() -> CreateData {
    CreateData {
        connection_id: "conn-1".to_string(),
        table_name: "users".to_string(),
        data: alice_row(),
    }
}

fn created() -> CreateRoutes {
    CreateRoutes::Create(Message::Receive(BasicMessage { message: "Created".to_string() }))
}

/// Runs both steps of dispatch with a handler double that records its calls.
fn dispatch(
    message: CreateRoutes,
    outcome: Result<(), String>,
    calls: &mut Vec<CreateData>,
) -> Result<CreateRoutes, String> {
    match handle_create_routes(message) {
        CreateAction::CallCreate(data) => {
            calls.push(data);
            complete_create_route(outcome)
        }
        CreateAction::Respond(r) => r,
    }
}

#[test]
fn create_succeeds_with_confirmation() {
    let message = CreateRoutes::Create(Message::package_send(alice_request()));
    let mut calls = Vec::new();
    let r = dispatch(message, Ok(()), &mut calls);
    assert_eq!(r, Ok(created()));
    assert_eq!(calls, vec![alice_request()]);
}

#[test]
fn create_handler_failure_is_returned() {
    let message = CreateRoutes::Create(Message::package_send(alice_request()));
    let mut calls = Vec::new();
    let r = dispatch(message, Err("table not found".to_string()), &mut calls);
    assert_eq!(r, Err("table not found".to_string()));
    assert_eq!(calls.len(), 1);
}

#[test]
fn first_step_hands_request_fields_to_handler() {
    let message = CreateRoutes::Create(Message::package_send(alice_request()));
    match handle_create_routes(message) {
        CreateAction::CallCreate(d) => {
            assert_eq!(d.connection_id, "conn-1");
            assert_eq!(d.table_name, "users");
            assert_eq!(d.data, alice_row());
        }
        CreateAction::Respond(_) => panic!("the handler was not asked for"),
    }
}

#[test]
fn response_envelope_is_not_dispatched() {
    let message = CreateRoutes::Create(Message::package_receive(BasicMessage {
        message: "Created".to_string(),
    }));
    let mut calls = Vec::new();
    let r = dispatch(message, Ok(()), &mut calls);
    assert_eq!(r, Err("message is in the wrong state".to_string()));
    assert!(calls.is_empty());
}

#[test]
fn success_keeps_the_create_route() {
    let r = complete_create_route(Ok(())).unwrap();
    match r {
        CreateRoutes::Create(m) => {
            assert_eq!(m.handle_receive(), Ok(BasicMessage { message: "Created".to_string() }));
        }
    }
}

#[test]
fn handler_error_builds_no_response() {
    let r = complete_create_route(Err(String::new()));
    assert_eq!(r, Err(String::new()));
}

#[test]
fn send_envelope_round_trip() {
    let m: Message<u32, String> = Message::package_send(7);
    assert_eq!(m, Message::Send(7));
    assert_eq!(m.handle_send(), Ok(7));
}

#[test]
fn receive_envelope_yields_no_request() {
    let m: Message<u32, String> = Message::package_receive("done".to_string());
    assert_eq!(m.handle_send(), Err(EnvelopeError::WrongState));
}

#[test]
fn receive_envelope_round_trip() {
    let m: Message<u32, String> = Message::package_receive("done".to_string());
    assert_eq!(m, Message::Receive("done".to_string()));
    assert_eq!(m.handle_receive(), Ok("done".to_string()));
}

#[test]
fn send_envelope_yields_no_response() {
    let m: Message<u32, String> = Message::package_send(7);
    assert_eq!(m.handle_receive(), Err(EnvelopeError::WrongState));
}

#[test]
fn envelope_error_text() {
    assert_eq!(EnvelopeError::WrongState.message(), "message is in the wrong state");
}
