//! Records of the device registry, and the documents that carry them.
//!
//! A record is what this device works with; a document is the JSON object
//! that other devices read and write, with each key either present or
//! absent. Encoding never writes a key that decoding would not have found:
//! an absent optional field stays absent, and an empty list of commands or
//! protocols is left out. The arguments of a command are always written,
//! also when there are none.

use crate::text::{clone_names, clone_text, names, text_of};
use vstd::prelude::*;

verus! {

/// A command addressed to a device.
#[derive(Clone, Debug, PartialEq, Eq, Hash)]
pub struct ClientCommand {
    /// The command's name. Not an enumeration: names that are not known here
    /// pass through.
    pub name: String,
    pub args: Vec<String>,
    /// A token that lets other devices correlate their telemetry.
    pub flow_id: Option<String>,
}

/// A device's record.
#[derive(Clone, Debug, PartialEq, Eq, Hash)]
pub struct Client {
    pub id: String,
    pub name: String,
    pub typ: Option<String>,
    pub commands: Vec<ClientCommand>,
    pub fxa_device_id: Option<String>,
    pub version: Option<String>,
    pub protocols: Vec<String>,
    pub form_factor: Option<String>,
    pub os: Option<String>,
    pub app_package: Option<String>,
    pub application: Option<String>,
    /// The model of the device. Neither the record id nor the account's device id.
    pub device: Option<String>,
}

/// A command as a document: the keys `command`, `args` and `flowId`.
#[derive(Clone, Debug, PartialEq, Eq)]
pub struct CommandDocument {
    pub command: String,
    pub args: Option<Vec<String>>,
    pub flow_id: Option<String>,
}

/// A record as a document: the keys `id`, `name`, `type`, `commands`,
/// `fxaDeviceId`, `version`, `protocols`, `formFactor`, `os`, `appPackage`,
/// `application` and `device`.
#[derive(Clone, Debug, PartialEq, Eq)]
pub struct ClientDocument {
    pub id: String,
    pub name: String,
    pub typ: Option<String>,
    pub commands: Option<Vec<CommandDocument>>,
    pub fxa_device_id: Option<String>,
    pub version: Option<String>,
    pub protocols: Option<Vec<String>>,
    pub form_factor: Option<String>,
    pub os: Option<String>,
    pub app_package: Option<String>,
    pub application: Option<String>,
    pub device: Option<String>,
}

pub struct ClientCommandView {
    pub name: Seq<char>,
    pub args: Seq<Seq<char>>,
    pub flow_id: Option<Seq<char>>,
}

pub struct CommandDocumentView {
    pub command: Seq<char>,
    pub args: Option<Seq<Seq<char>>>,
    pub flow_id: Option<Seq<char>>,
}

pub struct ClientView {
    pub id: Seq<char>,
    pub name: Seq<char>,
    pub typ: Option<Seq<char>>,
    pub commands: Seq<ClientCommandView>,
    pub fxa_device_id: Option<Seq<char>>,
    pub version: Option<Seq<char>>,
    pub protocols: Seq<Seq<char>>,
    pub form_factor: Option<Seq<char>>,
    pub os: Option<Seq<char>>,
    pub app_package: Option<Seq<char>>,
    pub application: Option<Seq<char>>,
    pub device: Option<Seq<char>>,
}

pub struct ClientDocumentView {
    pub id: Seq<char>,
    pub name: Seq<char>,
    pub typ: Option<Seq<char>>,
    pub commands: Option<Seq<CommandDocumentView>>,
    pub fxa_device_id: Option<Seq<char>>,
    pub version: Option<Seq<char>>,
    pub protocols: Option<Seq<Seq<char>>>,
    pub form_factor: Option<Seq<char>>,
    pub os: Option<Seq<char>>,
    pub app_package: Option<Seq<char>>,
    pub application: Option<Seq<char>>,
    pub device: Option<Seq<char>>,
}

impl View for ClientCommand {
    type V = ClientCommandView;

    open spec fn view(&self) -> ClientCommandView {
        ClientCommandView { name: self.name@, args: names(self.args@), flow_id: text_of(self.flow_id) }
    }
}

impl View for CommandDocument {
    type V = CommandDocumentView;

    open spec fn view(&self) -> CommandDocumentView {
        CommandDocumentView {
            command: self.command@,
            args: match self.args {
                Some(a) => Some(names(a@)),
                None => None,
            },
            flow_id: text_of(self.flow_id),
        }
    }
}

impl View for Client {
    type V = ClientView;

    open spec fn view(&self) -> ClientView {
        ClientView {
            id: self.id@,
            name: self.name@,
            typ: text_of(self.typ),
            commands: self.commands@.map_values(|c: ClientCommand| c@),
            fxa_device_id: text_of(self.fxa_device_id),
            version: text_of(self.version),
            protocols: names(self.protocols@),
            form_factor: text_of(self.form_factor),
            os: text_of(self.os),
            app_package: text_of(self.app_package),
            application: text_of(self.application),
            device: text_of(self.device),
        }
    }
}

impl View for ClientDocument {
    type V = ClientDocumentView;

    open spec fn view(&self) -> ClientDocumentView {
        ClientDocumentView {
            id: self.id@,
            name: self.name@,
            typ: text_of(self.typ),
            commands: match self.commands {
                Some(c) => Some(c@.map_values(|d: CommandDocument| d@)),
                None => None,
            },
            fxa_device_id: text_of(self.fxa_device_id),
            version: text_of(self.version),
            protocols: match self.protocols {
                Some(p) => Some(names(p@)),
                None => None,
            },
            form_factor: text_of(self.form_factor),
            os: text_of(self.os),
            app_package: text_of(self.app_package),
            application: text_of(self.application),
            device: text_of(self.device),
        }
    }
}

/// A list as a document holds it: left out when empty.
pub open spec fn omit_empty<T>(s: Seq<T>) -> Option<Seq<T>> {
    if s.len() == 0 {
        None
    } else {
        Some(s)
    }
}

/// A list as a record holds it: empty where the document has none.
pub open spec fn or_empty<T>(s: Option<Seq<T>>) -> Seq<T> {
    match s {
        Some(v) => v,
        None => Seq::empty(),
    }
}

/// The document of a command. Its arguments are always there.
pub open spec fn encode_command(c: ClientCommandView) -> CommandDocumentView {
    CommandDocumentView { command: c.name, args: Some(c.args), flow_id: c.flow_id }
}

/// The command that a document holds. Arguments that are absent are none.
pub open spec fn decode_command(d: CommandDocumentView) -> ClientCommandView {
    ClientCommandView { name: d.command, args: or_empty(d.args), flow_id: d.flow_id }
}

/// The document of a record.
pub open spec fn encode_client(c: ClientView) -> ClientDocumentView {
    ClientDocumentView {
        id: c.id,
        name: c.name,
        typ: c.typ,
        commands: omit_empty(c.commands.map_values(|m: ClientCommandView| encode_command(m))),
        fxa_device_id: c.fxa_device_id,
        version: c.version,
        protocols: omit_empty(c.protocols),
        form_factor: c.form_factor,
        os: c.os,
        app_package: c.app_package,
        application: c.application,
        device: c.device,
    }
}

/// The record that a document holds.
pub open spec fn decode_client(d: ClientDocumentView) -> ClientView {
    ClientView {
        id: d.id,
        name: d.name,
        typ: d.typ,
        commands: or_empty(d.commands).map_values(|m: CommandDocumentView| decode_command(m)),
        fxa_device_id: d.fxa_device_id,
        version: d.version,
        protocols: or_empty(d.protocols),
        form_factor: d.form_factor,
        os: d.os,
        app_package: d.app_package,
        application: d.application,
        device: d.device,
    }
}

/// A document as encoding writes it: no list that is present and empty, and
/// every command with its arguments.
pub open spec fn is_canonical(d: ClientDocumentView) -> bool {
    &&& d.commands matches Some(c) ==> c.len() > 0
    &&& d.protocols matches Some(p) ==> p.len() > 0
    &&& forall|i: int|
        0 <= i < or_empty(d.commands).len() ==> (#[trigger] or_empty(d.commands)[i]).args is Some
}

impl ClientCommand {
    pub fn to_document(&self) -> (r: CommandDocument)
        ensures
            r@ == encode_command(self@),
            r.args is Some,
    {
        CommandDocument {
            command: self.name.clone(),
            args: Some(clone_names(&self.args)),
            flow_id: clone_text(&self.flow_id),
        }
    }

    pub fn from_document(d: &CommandDocument) -> (r: ClientCommand)
        ensures
            r@ == decode_command(d@),
    {
        let args = match &d.args {
            Some(a) => clone_names(a),
            None => Vec::new(),
        };
        assert(d.args is None ==> names(args@) =~= Seq::empty());
        ClientCommand { name: d.command.clone(), args, flow_id: clone_text(&d.flow_id) }
    }
}

fn encode_commands(v: &Vec<ClientCommand>) -> (r: Vec<CommandDocument>)
    ensures
        r@.map_values(|d: CommandDocument| d@) == v@.map_values(|c: ClientCommand| c@).map_values(
            |m: ClientCommandView| encode_command(m),
        ),
{
    let mut out: Vec<CommandDocument> = Vec::new();
    let mut i: usize = 0;
    while i < v.len()
        invariant
            i <= v.len(),
            out@.len() == i,
            forall|j: int| 0 <= j < i ==> out@[j]@ == encode_command(v@[j]@),
        decreases v.len() - i,
    {
        out.push(v[i].to_document());
        i += 1;
    }
    assert(out@.map_values(|d: CommandDocument| d@) =~= v@.map_values(
        |c: ClientCommand| c@,
    ).map_values(|m: ClientCommandView| encode_command(m)));
    out
}

fn decode_commands(v: &Vec<CommandDocument>) -> (r: Vec<ClientCommand>)
    ensures
        r@.map_values(|c: ClientCommand| c@) == v@.map_values(|d: CommandDocument| d@).map_values(
            |m: CommandDocumentView| decode_command(m),
        ),
{
    let mut out: Vec<ClientCommand> = Vec::new();
    let mut i: usize = 0;
    while i < v.len()
        invariant
            i <= v.len(),
            out@.len() == i,
            forall|j: int| 0 <= j < i ==> out@[j]@ == decode_command(v@[j]@),
        decreases v.len() - i,
    {
        out.push(ClientCommand::from_document(&v[i]));
        i += 1;
    }
    assert(out@.map_values(|c: ClientCommand| c@) =~= v@.map_values(
        |d: CommandDocument| d@,
    ).map_values(|m: CommandDocumentView| decode_command(m)));
    out
}

impl Client {
    /// The document that carries this record.
    pub fn to_document(&self) -> (r: ClientDocument)
        ensures
            r@ == encode_client(self@),
    {
        let commands = if self.commands.len() == 0 {
            None
        } else {
            Some(encode_commands(&self.commands))
        };
        let protocols = if self.protocols.len() == 0 {
            None
        } else {
            Some(clone_names(&self.protocols))
        };
        ClientDocument {
            id: self.id.clone(),
            name: self.name.clone(),
            typ: clone_text(&self.typ),
            commands,
            fxa_device_id: clone_text(&self.fxa_device_id),
            version: clone_text(&self.version),
            protocols,
            form_factor: clone_text(&self.form_factor),
            os: clone_text(&self.os),
            app_package: clone_text(&self.app_package),
            application: clone_text(&self.application),
            device: clone_text(&self.device),
        }
    }

    /// The record that a document carries.
    pub fn from_document(d: &ClientDocument) -> (r: Client)
        ensures
            r@ == decode_client(d@),
    {
        let commands = match &d.commands {
            Some(c) => decode_commands(c),
            None => Vec::new(),
        };
        let protocols = match &d.protocols {
            Some(p) => clone_names(p),
            None => Vec::new(),
        };
        assert(d.commands is None ==> commands@.map_values(|c: ClientCommand| c@) =~= Seq::empty().map_values(
            |m: CommandDocumentView| decode_command(m),
        ));
        assert(d.protocols is None ==> names(protocols@) =~= Seq::empty());
        Client {
            id: d.id.clone(),
            name: d.name.clone(),
            typ: clone_text(&d.typ),
            commands,
            fxa_device_id: clone_text(&d.fxa_device_id),
            version: clone_text(&d.version),
            protocols,
            form_factor: clone_text(&d.form_factor),
            os: clone_text(&d.os),
            app_package: clone_text(&d.app_package),
            application: clone_text(&d.application),
            device: clone_text(&d.device),
        }
    }
}

/// Encoding a command and decoding the document gives the command back, and
/// the document holds the arguments also where there are none.
pub proof fn lemma_command_round_trip(c: ClientCommandView)
    ensures
        decode_command(encode_command(c)) == c,
        encode_command(c).args == Some(c.args),
{
}

/// Encoding a record and decoding the document gives the record back.
pub proof fn lemma_record_round_trip(c: ClientView)
    ensures
        decode_client(encode_client(c)) == c,
{
    let docs = c.commands.map_values(|m: ClientCommandView| encode_command(m));
    let back = or_empty(omit_empty(docs)).map_values(|m: CommandDocumentView| decode_command(m));
    assert(back =~= c.commands) by {
        assert forall|i: int| 0 <= i < c.commands.len() implies back[i] == c.commands[i] by {
            lemma_command_round_trip(c.commands[i]);
        }
    }
    assert(or_empty(omit_empty(c.protocols)) =~= c.protocols);
}

/// Decoding a canonical document and encoding the record gives the document
/// back: what was absent stays absent, what was present stays as it was.
pub proof fn lemma_document_round_trip(d: ClientDocumentView)
    requires
        is_canonical(d),
    ensures
        encode_client(decode_client(d)) == d,
{
    let recs = or_empty(d.commands).map_values(|m: CommandDocumentView| decode_command(m));
    let again = recs.map_values(|m: ClientCommandView| encode_command(m));
    assert(again =~= or_empty(d.commands)) by {
        assert forall|i: int| 0 <= i < again.len() implies again[i] == or_empty(d.commands)[i] by {
            let x = or_empty(d.commands)[i];
            assert(x.args is Some);
            assert(or_empty(x.args) == x.args.unwrap());
        }
    }
    assert(omit_empty(again) == d.commands);
    assert(omit_empty(or_empty(d.protocols)) == d.protocols);
}

} // verus!
