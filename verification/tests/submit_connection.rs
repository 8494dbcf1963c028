use std::sync::mpsc::{channel, Receiver, Sender, TryRecvError};

use captive_portal::{
    connect, connect_request, find, get_param, ssid, Command, CommandResult, ConnectRequest,
    ErrorKind, ExitSignal, Failure, FieldValue, FormField, Gateway, RequestSharedState, Response,
    StringError,
};

fn queues() -> (RequestSharedState, Receiver<Command>, Sender<CommandResult>, Receiver<ExitSignal>) {
    let (network_tx, commands) = channel::<Command>();
    let (answers, server_rx) = channel::<CommandResult>();
    let (exit_tx, notices) = channel::<ExitSignal>();
    let state = RequestSharedState::new(Gateway::new(192, 168, 42, 1), server_rx, network_tx, exit_tx);
    (state, commands, answers, notices)
}

fn home_form() -> Vec<FormField> {
    vec![
        FormField::text("ssid", "Home"),
        FormField::text("passphrase", "secret1"),
        FormField::text("API", "http://a"),
        FormField::text("WS", "ws://b"),
        FormField::text("serial", "S1"),
        FormField::text("secret", "K1"),
    ]
}

fn without(form: Vec<FormField>, name: &str) -> Vec<FormField> {
    form.into_iter().filter(|field| field.name != name).collect()
}

fn refused(message: &str) -> Failure {
    Failure { error: StringError(message.to_string()), status: 500 }
}

const HOME_DOCUMENT: &str = "{\n    \"api\": {\n        \"root\": \"http://a\"\n    },\n    \"websockets\": {\n        \"url\": \"ws://b\"\n    },\n    \"auth\": {\n        \"serial\": \"S1\",\n        \"secret\": \"K1\"\n    },\n    \"debug\": {\n\t\t\"level\": \"INFO\",\n\t\t\"peripheral_display\": {\n\t\t    \"module_name\": \"astroplant_peripheral_device_library.lcd\",\n\t\t    \"class_name\": \"LCD\",\n\t\t    \"parameters\": {\n\t\t        \"i2c_address\": \"0x3f\"\n\t\t    }\n\t\t}\n\t    }\n\t}";

#[test]
fn connect_stores_the_identity_and_sends_one_command() {
    let (mut state, commands, _answers, notices) = queues();
    let request = connect_request(&home_form()).unwrap();
    assert_eq!(
        request,
        ConnectRequest {
            ssid: "Home".to_string(),
            passphrase: "secret1".to_string(),
            api: "http://a".to_string(),
            ws: "ws://b".to_string(),
            serial: "S1".to_string(),
            secret: "K1".to_string(),
        }
    );
    assert_eq!(request.document(), HOME_DOCUMENT);
    let outcome = connect(&mut state, request);
    assert_eq!(outcome, Ok(Response { status: 200, body: String::new(), location: None }));
    assert_eq!(
        commands.try_recv(),
        Ok(Command::Connect { ssid: "Home".to_string(), passphrase: "secret1".to_string() })
    );
    assert_eq!(commands.try_recv(), Err(TryRecvError::Empty));
    assert_eq!(notices.try_recv(), Err(TryRecvError::Empty));
}

#[test]
fn connect_does_not_wait_for_the_worker() {
    let (mut state, commands, answers, _notices) = queues();
    answers.send(CommandResult::NetworkList(vec!["left alone".to_string()])).unwrap();
    let outcome = connect(&mut state, connect_request(&home_form()).unwrap());
    assert_eq!(outcome, Ok(Response { status: 200, body: String::new(), location: None }));
    assert!(commands.try_recv().is_ok());
    assert_eq!(
        ssid(&mut state),
        Ok(Response { status: 200, body: "[\"left alone\"]".to_string(), location: None })
    );
}

#[test]
fn connect_escalates_a_command_queue_that_is_closed() {
    let (mut state, commands, _answers, notices) = queues();
    drop(commands);
    let outcome = connect(&mut state, connect_request(&home_form()).unwrap());
    assert_eq!(outcome, Err(refused("Sending Command::Connect failed")));
    let notice = notices.try_recv().unwrap();
    assert_eq!(notice.kind, ErrorKind::SendNetworkCommandConnect);
    assert!(notice.cause.is_some());
    assert_eq!(notices.try_recv(), Err(TryRecvError::Empty));
}

#[test]
fn connect_without_secret_is_refused_and_nothing_is_sent() {
    let (state, commands, _answers, notices) = queues();
    let form = without(home_form(), "secret");
    assert_eq!(connect_request(&form), Err(refused("'secret' not found in request params")));
    assert_eq!(commands.try_recv(), Err(TryRecvError::Empty));
    assert_eq!(notices.try_recv(), Err(TryRecvError::Empty));
    drop(state);
    assert_eq!(commands.try_recv(), Err(TryRecvError::Disconnected));
    assert_eq!(notices.try_recv(), Err(TryRecvError::Disconnected));
}

#[test]
fn connect_request_names_each_missing_field() {
    for name in ["ssid", "passphrase", "API", "WS", "serial", "secret"] {
        let form = without(home_form(), name);
        let message = format!("'{}' not found in request params", name);
        assert_eq!(connect_request(&form), Err(refused(&message)));
    }
}

#[test]
fn connect_request_names_each_field_that_is_no_text() {
    for name in ["ssid", "passphrase", "API", "WS", "serial", "secret"] {
        let mut form = without(home_form(), name);
        form.push(FormField::other(name));
        let message = format!("Unexpected type for '{}'", name);
        assert_eq!(connect_request(&form), Err(refused(&message)));
    }
}

#[test]
fn connect_request_reports_the_first_field_that_fails() {
    let form = vec![
        FormField::text("ssid", "Home"),
        FormField::other("API"),
        FormField::text("serial", "S1"),
    ];
    assert_eq!(connect_request(&form), Err(refused("'passphrase' not found in request params")));
    let form = vec![
        FormField::text("ssid", "Home"),
        FormField::text("passphrase", "secret1"),
        FormField::other("API"),
    ];
    assert_eq!(connect_request(&form), Err(refused("Unexpected type for 'API'")));
    assert_eq!(connect_request(&Vec::new()), Err(refused("'ssid' not found in request params")));
}

#[test]
fn connect_request_ignores_order_and_extra_fields() {
    let mut form = home_form();
    form.reverse();
    form.insert(0, FormField::text("extra", "x"));
    form.push(FormField::other("more"));
    assert_eq!(connect_request(&form), connect_request(&home_form()));
    assert!(connect_request(&form).is_ok());
}

#[test]
fn connect_request_takes_field_names_as_they_are_written() {
    let mut form = without(home_form(), "API");
    form.push(FormField::text("api", "http://a"));
    assert_eq!(connect_request(&form), Err(refused("'API' not found in request params")));
}

#[test]
fn connect_request_accepts_empty_texts() {
    let form = vec![
        FormField::text("ssid", ""),
        FormField::text("passphrase", ""),
        FormField::text("API", ""),
        FormField::text("WS", ""),
        FormField::text("serial", ""),
        FormField::text("secret", ""),
    ];
    let request = connect_request(&form).unwrap();
    assert_eq!(request.ssid, "");
    assert!(request.document().contains("\"root\": \"\"\n"));
}

#[test]
fn document_embeds_the_fields_without_escaping() {
    let request = ConnectRequest {
        ssid: "n".to_string(),
        passphrase: "p".to_string(),
        api: "a\"b".to_string(),
        ws: "{}".to_string(),
        serial: "\\".to_string(),
        secret: "two\nlines".to_string(),
    };
    let document = request.document();
    assert!(document.starts_with("{\n    \"api\": {\n        \"root\": \"a\"b\"\n    },\n"));
    assert!(document.contains("        \"url\": \"{}\"\n"));
    assert!(document.contains("        \"serial\": \"\\\",\n        \"secret\": \"two\nlines\"\n"));
    assert!(document.ends_with("\t\t}\n\t    }\n\t}"));
    assert_eq!(document.len(), HOME_DOCUMENT.len() - "http://aws://bS1K1".len() + "a\"b{}\\two\nlines".len());
}

#[test]
fn document_has_a_fixed_place() {
    assert_eq!(captive_portal::config::CONFIG_PATH, "/data/kit_config.json");
    assert_eq!(
        captive_portal::config::document("http://a", "ws://b", "S1", "K1"),
        HOME_DOCUMENT
    );
}

#[test]
fn find_returns_the_first_field_of_the_name() {
    let form = vec![
        FormField::text("a", "1"),
        FormField::other("b"),
        FormField::text("b", "2"),
        FormField::text("a", "3"),
    ];
    assert_eq!(find(&form, "a"), Some(&FieldValue::Text("1".to_string())));
    assert_eq!(find(&form, "b"), Some(&FieldValue::Other));
    assert_eq!(find(&form, "c"), None);
    assert_eq!(find(&Vec::new(), "a"), None);
}

#[test]
fn get_param_reads_text_only() {
    let form = vec![FormField::text("a", "1"), FormField::other("b")];
    assert_eq!(get_param(&form, "a"), Ok("1".to_string()));
    assert_eq!(get_param(&form, "b"), Err(refused("Unexpected type for 'b'")));
    assert_eq!(get_param(&form, "c"), Err(refused("'c' not found in request params")));
    assert_eq!(get_param(&form, ""), Err(refused("'' not found in request params")));
}

#[test]
fn requests_on_one_state_follow_one_another() {
    let (mut state, commands, answers, notices) = queues();
    answers.send(CommandResult::NetworkList(vec!["Home".to_string()])).unwrap();
    assert!(ssid(&mut state).is_ok());
    assert!(connect(&mut state, connect_request(&home_form()).unwrap()).is_ok());
    answers.send(CommandResult::NetworkList(vec!["Cafe".to_string()])).unwrap();
    assert_eq!(
        ssid(&mut state),
        Ok(Response { status: 200, body: "[\"Cafe\"]".to_string(), location: None })
    );
    assert_eq!(commands.try_recv(), Ok(Command::Activate));
    assert_eq!(
        commands.try_recv(),
        Ok(Command::Connect { ssid: "Home".to_string(), passphrase: "secret1".to_string() })
    );
    assert_eq!(commands.try_recv(), Ok(Command::Activate));
    assert_eq!(commands.try_recv(), Err(TryRecvError::Empty));
    assert_eq!(notices.try_recv(), Err(TryRecvError::Empty));
}
