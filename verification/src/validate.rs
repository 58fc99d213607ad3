//! Validation: from a document to a configuration, or to the reason why the
//! document is refused.
//!
//! The sections are judged in the order `service`, `sync`, `dns`, the keys of
//! a section in the order in which they are documented, and the first fault is
//! the one reported. Keys that are left out take their defaults: no arguments,
//! output to the log file, the current directory as the repository.

use crate::config::{
    texts, Config, ConfigView, Dns, DnsView, Service, ServiceView, Sync, SyncView,
};
use crate::document::{error_message, parse_table, table_nodes, toml_document, Node};
use crate::error::{ConfigError, ConfigErrorView, Key};
use crate::raw::{
    dns_at, dns_field, fields_of, service_at, service_field, sync_at, sync_field, Field, RawConfig,
    RawConfigView, RawDns, RawDnsView, RawService, RawServiceView, RawSync, RawSyncView,
};
use vstd::prelude::*;

verus! {

/// The arguments of a service that names none.
pub open spec fn default_args() -> Seq<Seq<char>> {
    Seq::empty()
}

/// The repository path of a `sync` section that names none: the current directory.
pub open spec fn default_path() -> Seq<char> {
    "."@
}

/// The judgement on a `service` section. `exec_exists` says whether the path
/// under `service.exec` names a file; it is consulted only where that key
/// holds a string.
pub open spec fn checked_service(raw: Field<RawServiceView>, exec_exists: bool) -> Result<
    ServiceView,
    ConfigErrorView,
> {
    match raw {
        Field::Absent => Err(ConfigErrorView::MissingSection(Key::Service)),
        Field::Invalid => Err(ConfigErrorView::WrongType(Key::Service)),
        Field::Present(section) => match section.program {
            Field::Absent => Err(ConfigErrorView::MissingKey(Key::ServiceExec)),
            Field::Invalid => Err(ConfigErrorView::WrongType(Key::ServiceExec)),
            Field::Present(program) => if !exec_exists {
                Err(ConfigErrorView::NotFound(program))
            } else if section.args is Invalid {
                Err(ConfigErrorView::WrongType(Key::ServiceArgs))
            } else if section.log is Invalid {
                Err(ConfigErrorView::WrongType(Key::ServiceLog))
            } else {
                Ok(
                    ServiceView {
                        program,
                        args: match section.args {
                            Field::Present(args) => args,
                            _ => default_args(),
                        },
                        log: match section.log {
                            Field::Present(log) => log,
                            _ => true,
                        },
                    },
                )
            },
        },
    }
}

/// The judgement on a `sync` section. The section may be left out; where it is
/// there, `origin` and a non-empty `targets` are required.
pub open spec fn checked_sync(raw: Field<RawSyncView>) -> Result<Option<SyncView>, ConfigErrorView> {
    match raw {
        Field::Absent => Ok(None),
        Field::Invalid => Err(ConfigErrorView::WrongType(Key::Sync)),
        Field::Present(section) => match section.origin {
            Field::Absent => Err(ConfigErrorView::MissingKey(Key::SyncOrigin)),
            Field::Invalid => Err(ConfigErrorView::WrongType(Key::SyncOrigin)),
            Field::Present(origin) => if section.path is Invalid {
                Err(ConfigErrorView::WrongType(Key::SyncPath))
            } else {
                match section.targets {
                    Field::Absent => Err(ConfigErrorView::MissingKey(Key::SyncTargets)),
                    Field::Invalid => Err(ConfigErrorView::WrongType(Key::SyncTargets)),
                    Field::Present(targets) => if targets.len() == 0 {
                        Err(ConfigErrorView::Empty(Key::SyncTargets))
                    } else {
                        Ok(
                            Some(
                                SyncView {
                                    origin,
                                    path: match section.path {
                                        Field::Present(path) => path,
                                        _ => default_path(),
                                    },
                                    targets,
                                },
                            ),
                        )
                    },
                }
            },
        },
    }
}

/// The judgement on a `dns` section. The section may be left out; where it is
/// there, `code` is required.
pub open spec fn checked_dns(raw: Field<RawDnsView>) -> Result<Option<DnsView>, ConfigErrorView> {
    match raw {
        Field::Absent => Ok(None),
        Field::Invalid => Err(ConfigErrorView::WrongType(Key::Dns)),
        Field::Present(section) => match section.code {
            Field::Absent => Err(ConfigErrorView::MissingKey(Key::DnsCode)),
            Field::Invalid => Err(ConfigErrorView::WrongType(Key::DnsCode)),
            Field::Present(code) => Ok(Some(DnsView { code })),
        },
    }
}

/// The judgement on a whole document: the first fault among those of
/// `service`, `sync` and `dns`, or the configuration.
pub open spec fn checked_config(raw: RawConfigView, exec_exists: bool) -> Result<
    ConfigView,
    ConfigErrorView,
> {
    match checked_service(raw.service, exec_exists) {
        Err(error) => Err(error),
        Ok(service) => match checked_sync(raw.sync) {
            Err(error) => Err(error),
            Ok(sync) => match checked_dns(raw.dns) {
                Err(error) => Err(error),
                Ok(dns) => Ok(ConfigView { service, dns, sync }),
            },
        },
    }
}

/// What loading a document gives, by what it holds and by whether the
/// service's executable exists.
pub open spec fn loaded(doc: Map<Seq<char>, Node>, exec_exists: bool) -> Result<
    ConfigView,
    ConfigErrorView,
> {
    checked_config(fields_of(doc), exec_exists)
}

/// The view of a judgement on a `service` section.
pub open spec fn service_outcome(outcome: Result<Service, ConfigError>) -> Result<
    ServiceView,
    ConfigErrorView,
> {
    match outcome {
        Ok(service) => Ok(service@),
        Err(error) => Err(error@),
    }
}

/// The view of a judgement on a `sync` section.
pub open spec fn sync_outcome(outcome: Result<Option<Sync>, ConfigError>) -> Result<
    Option<SyncView>,
    ConfigErrorView,
> {
    match outcome {
        Ok(Some(sync)) => Ok(Some(sync@)),
        Ok(None) => Ok(None),
        Err(error) => Err(error@),
    }
}

/// The view of a judgement on a `dns` section.
pub open spec fn dns_outcome(outcome: Result<Option<Dns>, ConfigError>) -> Result<
    Option<DnsView>,
    ConfigErrorView,
> {
    match outcome {
        Ok(Some(dns)) => Ok(Some(dns@)),
        Ok(None) => Ok(None),
        Err(error) => Err(error@),
    }
}

/// The view of a judgement on a whole document.
pub open spec fn config_outcome(outcome: Result<Config, ConfigError>) -> Result<
    ConfigView,
    ConfigErrorView,
> {
    match outcome {
        Ok(config) => Ok(config@),
        Err(error) => Err(error@),
    }
}

/// Judges a `service` section as written. `exec_exists` is the answer of the
/// file system for the path under `service.exec`.
pub fn check_service(raw: Field<RawService>, exec_exists: bool) -> (outcome: Result<
    Service,
    ConfigError,
>)
    ensures
        service_outcome(outcome) == checked_service(service_field(raw), exec_exists),
{
    match raw {
        Field::Absent => Err(ConfigError::MissingSection(Key::Service)),
        Field::Invalid => Err(ConfigError::WrongType(Key::Service)),
        Field::Present(section) => {
            let RawService { program, args, log } = section;
            match program {
                Field::Absent => Err(ConfigError::MissingKey(Key::ServiceExec)),
                Field::Invalid => Err(ConfigError::WrongType(Key::ServiceExec)),
                Field::Present(program) => {
                    if !exec_exists {
                        return Err(ConfigError::NotFound(program));
                    }
                    let args = match args {
                        Field::Invalid => {
                            return Err(ConfigError::WrongType(Key::ServiceArgs));
                        },
                        Field::Absent => Vec::new(),
                        Field::Present(args) => args,
                    };
                    let log = match log {
                        Field::Invalid => {
                            return Err(ConfigError::WrongType(Key::ServiceLog));
                        },
                        Field::Absent => true,
                        Field::Present(log) => log,
                    };
                    assert(texts(Seq::<String>::empty()) =~= default_args());
                    Ok(Service::new(program, args, log))
                },
            }
        },
    }
}

/// Judges a `sync` section as written.
pub fn check_sync(raw: Field<RawSync>) -> (outcome: Result<Option<Sync>, ConfigError>)
    ensures
        sync_outcome(outcome) == checked_sync(sync_field(raw)),
{
    match raw {
        Field::Absent => Ok(None),
        Field::Invalid => Err(ConfigError::WrongType(Key::Sync)),
        Field::Present(section) => {
            let RawSync { origin, path, targets } = section;
            let origin = match origin {
                Field::Absent => {
                    return Err(ConfigError::MissingKey(Key::SyncOrigin));
                },
                Field::Invalid => {
                    return Err(ConfigError::WrongType(Key::SyncOrigin));
                },
                Field::Present(origin) => origin,
            };
            let path = match path {
                Field::Invalid => {
                    return Err(ConfigError::WrongType(Key::SyncPath));
                },
                Field::Absent => ".".to_owned(),
                Field::Present(path) => path,
            };
            let targets = match targets {
                Field::Absent => {
                    return Err(ConfigError::MissingKey(Key::SyncTargets));
                },
                Field::Invalid => {
                    return Err(ConfigError::WrongType(Key::SyncTargets));
                },
                Field::Present(targets) => targets,
            };
            match Sync::new(origin, path, targets) {
                Some(sync) => Ok(Some(sync)),
                None => Err(ConfigError::Empty(Key::SyncTargets)),
            }
        },
    }
}

/// Judges a `dns` section as written.
pub fn check_dns(raw: Field<RawDns>) -> (outcome: Result<Option<Dns>, ConfigError>)
    ensures
        dns_outcome(outcome) == checked_dns(dns_field(raw)),
{
    match raw {
        Field::Absent => Ok(None),
        Field::Invalid => Err(ConfigError::WrongType(Key::Dns)),
        Field::Present(section) => match section.code {
            Field::Absent => Err(ConfigError::MissingKey(Key::DnsCode)),
            Field::Invalid => Err(ConfigError::WrongType(Key::DnsCode)),
            Field::Present(code) => Ok(Some(Dns::new(code))),
        },
    }
}

/// Judges a whole document as written. `exec_exists` is the answer of the file
/// system for the path under `service.exec`.
pub fn check_config(raw: RawConfig, exec_exists: bool) -> (outcome: Result<Config, ConfigError>)
    ensures
        config_outcome(outcome) == checked_config(raw@, exec_exists),
{
    let RawConfig { service, sync, dns } = raw;
    let service = match check_service(service, exec_exists) {
        Ok(service) => service,
        Err(error) => {
            return Err(error);
        },
    };
    let sync = match check_sync(sync) {
        Ok(sync) => sync,
        Err(error) => {
            return Err(error);
        },
    };
    let dns = match check_dns(dns) {
        Ok(dns) => dns,
        Err(error) => {
            return Err(error);
        },
    };
    Ok(Config::new(service, dns, sync))
}

/// `std::path::Path::exists`: whether the path names something on disk at the
/// moment of the call. Nothing is claimed of the answer.
#[verifier::external_body]
fn path_exists(path: &str) -> bool {
    std::path::Path::new(path).exists()
}

/// The path that the file system is asked about before a `service` section
/// is judged: the string under `service.exec`, where the section holds one.
pub fn probed_path(service: &Field<RawService>) -> (path: Option<&String>)
    ensures
        match path {
            Some(path) => service_field(*service) matches Field::Present(section)
                && section.program == Field::Present(path@),
            None => !(service_field(*service) matches Field::Present(section)
                && section.program is Present),
        },
{
    match service {
        Field::Present(section) => match &section.program {
            Field::Present(program) => Some(program),
            _ => None,
        },
        _ => None,
    }
}

/// Asks the file system whether the service's executable exists, where the
/// section names one; `false` where it names none.
fn probe(service: &Field<RawService>) -> (found: bool)
    ensures
        found ==> (service_field(*service) matches Field::Present(section)
            && section.program is Present),
{
    match probed_path(service) {
        Some(path) => path_exists(path.as_str()),
        None => false,
    }
}

/// Parses the text of a configuration file: the document that the text
/// denotes, or a syntax error with the parser's message.
pub fn get_config(text: &str) -> (parsed: Result<toml::Table, ConfigError>)
    ensures
        match parsed {
            Ok(doc) => toml_document(text@) == Ok::<Map<Seq<char>, Node>, Seq<char>>(
                table_nodes(doc),
            ),
            Err(error) => toml_document(text@) matches Err(message) && error@
                == ConfigErrorView::Syntax(message),
        },
{
    match parse_table(text) {
        Ok(doc) => Ok(doc),
        Err(error) => Err(ConfigError::Syntax(error_message(&error))),
    }
}

/// Reads and judges the `service` section of a parsed document. The file
/// system is asked once whether the executable exists; the outcome is the
/// judgement for the answer it gave.
pub fn get_service(config: &toml::Table) -> (outcome: Result<Service, ConfigError>)
    ensures
        service_outcome(outcome) == checked_service(service_at(table_nodes(*config)), true)
            || service_outcome(outcome) == checked_service(
            service_at(table_nodes(*config)),
            false,
        ),
{
    let raw = RawService::read(config);
    let exec_exists = probe(&raw);
    check_service(raw, exec_exists)
}

/// Reads and judges the `sync` section of a parsed document.
pub fn get_sync(config: &toml::Table) -> (outcome: Result<Option<Sync>, ConfigError>)
    ensures
        sync_outcome(outcome) == checked_sync(sync_at(table_nodes(*config))),
{
    check_sync(RawSync::read(config))
}

/// Reads and judges the `dns` section of a parsed document.
pub fn get_dns(config: &toml::Table) -> (outcome: Result<Option<Dns>, ConfigError>)
    ensures
        dns_outcome(outcome) == checked_dns(dns_at(table_nodes(*config))),
{
    check_dns(RawDns::read(config))
}

impl Config {
    /// Reads and judges a parsed document. The file system is asked once
    /// whether the executable exists; the outcome is the judgement for the
    /// answer it gave.
    pub fn from_table(doc: &toml::Table) -> (outcome: Result<Config, ConfigError>)
        ensures
            config_outcome(outcome) == loaded(table_nodes(*doc), true) || config_outcome(outcome)
                == loaded(table_nodes(*doc), false),
    {
        let raw = RawConfig::read(doc);
        let exec_exists = probe(&raw.service);
        check_config(raw, exec_exists)
    }

    /// Loads a configuration from the text of a file: the syntax error with
    /// the parser's message where the text is not TOML, else the judgement on
    /// the document that it denotes.
    pub fn from_str(text: &str) -> (outcome: Result<Config, ConfigError>)
        ensures
            match toml_document(text@) {
                Err(message) => config_outcome(outcome) == Err::<ConfigView, ConfigErrorView>(
                    ConfigErrorView::Syntax(message),
                ),
                Ok(doc) => config_outcome(outcome) == loaded(doc, true) || config_outcome(outcome)
                    == loaded(doc, false),
            },
    {
        match get_config(text) {
            Ok(doc) => Config::from_table(&doc),
            Err(error) => Err(error),
        }
    }
}

/// A document without a `service` section is refused for that reason,
/// whatever else it holds and whatever is on disk.
pub proof fn lemma_missing_service_is_refused(doc: Map<Seq<char>, Node>, exec_exists: bool)
    requires
        !doc.contains_key("service"@),
    ensures
        loaded(doc, exec_exists) == Err::<ConfigView, ConfigErrorView>(
            ConfigErrorView::MissingSection(Key::Service),
        ),
{
}

/// A document whose `service.exec` names a file that does not exist is
/// refused for that reason, whatever else it holds.
pub proof fn lemma_missing_executable_is_refused(doc: Map<Seq<char>, Node>, path: Seq<char>)
    requires
        service_at(doc) matches Field::Present(section) && section.program == Field::Present(path),
    ensures
        loaded(doc, false) == Err::<ConfigView, ConfigErrorView>(ConfigErrorView::NotFound(path)),
{
}

/// A document with a `sync` section whose `targets` is left out or empty is
/// refused, whatever else it holds and whatever is on disk.
pub proof fn lemma_sync_without_targets_is_refused(doc: Map<Seq<char>, Node>, exec_exists: bool)
    requires
        sync_at(doc) matches Field::Present(section) && (section.targets is Absent
            || section.targets == Field::Present(Seq::<Seq<char>>::empty())),
    ensures
        checked_sync(sync_at(doc)) is Err,
        loaded(doc, exec_exists) is Err,
{
}

/// The answer of the file system matters only where `service.exec` holds a
/// string, and then only an answer of "no" can turn a judgement: it gives the
/// error that quotes the path.
pub proof fn lemma_existence_is_consulted_for_a_path_only(raw: RawConfigView)
    ensures
        !(raw.service matches Field::Present(section) && section.program is Present)
            ==> checked_config(raw, true) == checked_config(raw, false),
        raw.service matches Field::Present(section) ==> (section.program matches Field::Present(
            path,
        ) ==> checked_config(raw, false) == Err::<ConfigView, ConfigErrorView>(
            ConfigErrorView::NotFound(path),
        )),
{
}

/// What holds of every configuration that was accepted: its executable was
/// found on disk when the document was judged, each section is the one that
/// was written, and a repository names at least one target.
pub proof fn lemma_accepted_configuration_is_sound(raw: RawConfigView, exec_exists: bool)
    requires
        checked_config(raw, exec_exists) is Ok,
    ensures
        exec_exists,
        raw.service matches Field::Present(section) && section.program == Field::Present(
            checked_config(raw, exec_exists)->Ok_0.service.program,
        ),
        checked_config(raw, exec_exists)->Ok_0.sync is Some <==> raw.sync is Present,
        checked_config(raw, exec_exists)->Ok_0.dns is Some <==> raw.dns is Present,
        checked_config(raw, exec_exists)->Ok_0.sync matches Some(sync) ==> sync.targets.len() > 0,
{
}

/// Keys that the launcher does not know are ignored: a document with one
/// more top-level key of another name is judged like the document without it.
pub proof fn lemma_unknown_keys_are_ignored(
    doc: Map<Seq<char>, Node>,
    key: Seq<char>,
    node: Node,
    exec_exists: bool,
)
    requires
        key != "service"@,
        key != "sync"@,
        key != "dns"@,
    ensures
        loaded(doc.insert(key, node), exec_exists) == loaded(doc, exec_exists),
{
}

/// Keys that the launcher does not know are ignored inside the sections too:
/// one more key of another name in `service` changes no judgement.
pub proof fn lemma_unknown_service_keys_are_ignored(
    doc: Map<Seq<char>, Node>,
    entries: Map<Seq<char>, Node>,
    key: Seq<char>,
    node: Node,
    exec_exists: bool,
)
    requires
        doc.contains_key("service"@),
        doc["service"@] == Node::Table(entries),
        key != "exec"@,
        key != "args"@,
        key != "log"@,
    ensures
        loaded(doc.insert("service"@, Node::Table(entries.insert(key, node))), exec_exists)
            == loaded(doc, exec_exists),
{
    reveal_strlit("service");
    reveal_strlit("sync");
    reveal_strlit("dns");
    assert("service"@.len() == 7 && "sync"@.len() == 4 && "dns"@.len() == 3);
}

} // verus!
