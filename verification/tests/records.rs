use sync_manager::clients::record::{Client, ClientCommand, ClientDocument, CommandDocument};

fn text(s: &str) -> Option<String> {
    Some(s.to_string())
}

fn bare_document() -> ClientDocument {
    ClientDocument {
        id: "abc".to_string(),
        name: "Laptop".to_string(),
        typ: None,
        commands: None,
        fxa_device_id: None,
        version: None,
        protocols: None,
        form_factor: None,
        os: None,
        app_package: None,
        application: None,
        device: None,
    }
}

#[test]
fn command_without_arguments_keeps_its_array() {
    let c = ClientCommand { name: "wipeAll".to_string(), args: vec![], flow_id: None };
    let d = c.to_document();
    assert_eq!(d, CommandDocument { command: "wipeAll".to_string(), args: Some(vec![]), flow_id: None });
    assert_eq!(ClientCommand::from_document(&d), c);
}

#[test]
fn command_round_trip() {
    let c = ClientCommand {
        name: "someFutureCommand".to_string(),
        args: vec!["a".to_string(), "b".to_string()],
        flow_id: text("flow"),
    };
    let d = c.to_document();
    assert_eq!(d.command, "someFutureCommand");
    assert_eq!(d.args, Some(vec!["a".to_string(), "b".to_string()]));
    assert_eq!(d.flow_id, text("flow"));
    assert_eq!(ClientCommand::from_document(&d), c);
}

#[test]
fn command_document_without_arguments_decodes_to_none() {
    let d = CommandDocument { command: "resetAll".to_string(), args: None, flow_id: None };
    let c = ClientCommand::from_document(&d);
    assert_eq!(c.args, Vec::<String>::new());
    assert_eq!(c.to_document().args, Some(vec![]));
}

#[test]
fn bare_document_round_trip() {
    let d = bare_document();
    let c = Client::from_document(&d);
    assert_eq!(c.commands, vec![]);
    assert_eq!(c.protocols, Vec::<String>::new());
    assert_eq!(c.typ, None);
    assert_eq!(c.to_document(), d);
}

#[test]
fn legacy_fields_round_trip() {
    let mut d = bare_document();
    d.typ = text("vr-headset");
    d.fxa_device_id = text("device-1");
    d.version = text("68.0");
    d.protocols = Some(vec!["1.5".to_string()]);
    d.form_factor = text("largetablet");
    d.os = text("Darwin");
    d.app_package = text("org.example.app");
    d.application = text("Example");
    d.device = text("iPhone");
    let c = Client::from_document(&d);
    assert_eq!(c.typ, text("vr-headset"));
    assert_eq!(c.form_factor, text("largetablet"));
    assert_eq!(c.protocols, vec!["1.5".to_string()]);
    assert_eq!(c.to_document(), d);
}

#[test]
fn commands_round_trip() {
    let mut d = bare_document();
    d.commands = Some(vec![
        CommandDocument { command: "wipeEngine".to_string(), args: Some(vec!["history".to_string()]), flow_id: None },
        CommandDocument { command: "logout".to_string(), args: Some(vec![]), flow_id: text("f") },
    ]);
    let c = Client::from_document(&d);
    assert_eq!(c.commands.len(), 2);
    assert_eq!(c.commands[0].name, "wipeEngine");
    assert_eq!(c.commands[1].flow_id, text("f"));
    assert_eq!(c.to_document(), d);
}

#[test]
fn empty_lists_are_left_out() {
    let mut d = bare_document();
    d.commands = Some(vec![]);
    d.protocols = Some(vec![]);
    let again = Client::from_document(&d).to_document();
    assert_eq!(again.commands, None);
    assert_eq!(again.protocols, None);
    assert_eq!(again, bare_document());
}

#[test]
fn record_round_trip() {
    let c = Client {
        id: "r1".to_string(),
        name: "Phone".to_string(),
        typ: text("mobile"),
        commands: vec![ClientCommand { name: "displayURI".to_string(), args: vec!["u".to_string()], flow_id: None }],
        fxa_device_id: None,
        version: None,
        protocols: vec![],
        form_factor: None,
        os: text("Android"),
        app_package: None,
        application: None,
        device: None,
    };
    let d = c.to_document();
    assert_eq!(d.protocols, None);
    assert_eq!(d.os, text("Android"));
    assert_eq!(Client::from_document(&d), c);
}
