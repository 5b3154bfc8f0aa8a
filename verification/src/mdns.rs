//! What the server announces of itself on the local network.

use vstd::prelude::*;

verus! {

/// One attribute of the announcement's TXT record.
#[derive(Debug, PartialEq, Eq)]
pub struct TxtAttribute {
    pub key: String,
    pub value: String,
}

/// The service as it is announced: a service of type `_ota._tcp`, with the
/// port it listens on and the attributes that tell a client how to ask.
#[derive(Debug, PartialEq, Eq)]
pub struct ServiceAnnouncement {
    pub service: String,
    pub protocol: String,
    pub name: String,
    pub port: u16,
    pub txt: Vec<TxtAttribute>,
}

/// What the announcement of a server on `port` holds.
pub open spec fn announces(announcement: ServiceAnnouncement, port: u16) -> bool {
    &&& announcement.service@ == "ota"@
    &&& announcement.protocol@ == "tcp"@
    &&& announcement.name@ == "OTA Server"@
    &&& announcement.port == port
    &&& announcement.txt@.len() == 3
    &&& announcement.txt@[0].key@ == "version"@
    &&& announcement.txt@[0].value@ == "1.0"@
    &&& announcement.txt@[1].key@ == "path"@
    &&& announcement.txt@[1].value@ == "/version"@
    &&& announcement.txt@[2].key@ == "description"@
    &&& announcement.txt@[2].value@ == "OTA Update Server"@
}

/// The name under which the service was registered, once it is known.
#[derive(Debug, PartialEq, Eq)]
pub struct ServiceContext {
    service_name: String,
}

impl View for ServiceContext {
    type V = Seq<char>;

    closed spec fn view(&self) -> Seq<char> {
        self.service_name@
    }
}

impl Default for ServiceContext {
    fn default() -> (context: Self)
        ensures
            context@ == Seq::<char>::empty(),
    {
        ServiceContext { service_name: String::new() }
    }
}

impl ServiceContext {
    /// Notes the name under which the service was registered.
    pub fn registered(&mut self, name: &str)
        ensures
            final(self)@ == name@,
    {
        self.service_name = name.to_owned();
    }

    /// The name under which the service was registered; empty before.
    pub fn service_name(&self) -> (name: &String)
        ensures
            name@ == self@,
    {
        &self.service_name
    }
}

/// The announcement of a server that listens on one port.
#[derive(Debug, PartialEq, Eq)]
pub struct MdnsServiceWrapper {
    port: u16,
}

impl View for MdnsServiceWrapper {
    type V = u16;

    closed spec fn view(&self) -> u16 {
        self.port
    }
}

fn attribute(key: &str, value: &str) -> (attribute: TxtAttribute)
    ensures
        attribute.key@ == key@,
        attribute.value@ == value@,
{
    TxtAttribute { key: key.to_owned(), value: value.to_owned() }
}

impl MdnsServiceWrapper {
    /// For a server on `port`. The host is not announced: clients learn the
    /// address from the network.
    pub fn new(port: u16, _host: &str) -> (wrapper: Self)
        ensures
            wrapper@ == port,
    {
        MdnsServiceWrapper { port }
    }

    /// The port announced.
    pub fn port(&self) -> (port: u16)
        ensures
            port == self@,
    {
        self.port
    }

    /// What to register.
    pub fn announcement(&self) -> (announcement: ServiceAnnouncement)
        ensures
            announces(announcement, self@),
    {
        let mut txt: Vec<TxtAttribute> = Vec::new();
        txt.push(attribute("version", "1.0"));
        txt.push(attribute("path", "/version"));
        txt.push(attribute("description", "OTA Update Server"));
        ServiceAnnouncement {
            service: String::from_str("ota"),
            protocol: String::from_str("tcp"),
            name: String::from_str("OTA Server"),
            port: self.port,
            txt,
        }
    }
}

} // verus!
