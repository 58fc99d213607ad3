//! The configuration as the document gives it, before any judgement: for each
//! key that the launcher knows, whether it is there and whether it holds a
//! value of the right kind. Keys that the launcher does not know are ignored.

use crate::config::texts;
use crate::document::{
    item_nodes, table_get, table_nodes, value_as_array, value_as_bool, value_as_str,
    value_as_table, value_node, Node,
};
use vstd::prelude::*;

verus! {

/// One key of a document.
#[derive(Debug, PartialEq, Eq)]
pub enum Field<T> {
    /// The document has no such key.
    Absent,
    /// The key holds a value of another kind than the launcher expects.
    Invalid,
    /// The key holds this value.
    Present(T),
}

/// The `service` section as written.
#[derive(Debug, PartialEq, Eq)]
pub struct RawService {
    /// `service.exec`, a string.
    pub program: Field<String>,
    /// `service.args`, an array of strings.
    pub args: Field<Vec<String>>,
    /// `service.log`, a boolean.
    pub log: Field<bool>,
}

/// The `sync` section as written.
#[derive(Debug, PartialEq, Eq)]
pub struct RawSync {
    /// `sync.origin`, a string.
    pub origin: Field<String>,
    /// `sync.path`, a string.
    pub path: Field<String>,
    /// `sync.targets`, an array of strings.
    pub targets: Field<Vec<String>>,
}

/// The `dns` section as written.
#[derive(Debug, PartialEq, Eq)]
pub struct RawDns {
    /// `dns.code`, a string.
    pub code: Field<String>,
}

/// A whole document as written.
#[derive(Debug, PartialEq, Eq)]
pub struct RawConfig {
    pub service: Field<RawService>,
    pub sync: Field<RawSync>,
    pub dns: Field<RawDns>,
}

/// The mathematical content of a [`RawService`].
pub struct RawServiceView {
    pub program: Field<Seq<char>>,
    pub args: Field<Seq<Seq<char>>>,
    pub log: Field<bool>,
}

/// The mathematical content of a [`RawSync`].
pub struct RawSyncView {
    pub origin: Field<Seq<char>>,
    pub path: Field<Seq<char>>,
    pub targets: Field<Seq<Seq<char>>>,
}

/// The mathematical content of a [`RawDns`].
pub struct RawDnsView {
    pub code: Field<Seq<char>>,
}

/// The mathematical content of a [`RawConfig`].
pub struct RawConfigView {
    pub service: Field<RawServiceView>,
    pub sync: Field<RawSyncView>,
    pub dns: Field<RawDnsView>,
}

/// The view of a string field.
pub open spec fn text_field(field: Field<String>) -> Field<Seq<char>> {
    match field {
        Field::Absent => Field::Absent,
        Field::Invalid => Field::Invalid,
        Field::Present(text) => Field::Present(text@),
    }
}

/// The view of a field that holds an array of strings.
pub open spec fn list_field(field: Field<Vec<String>>) -> Field<Seq<Seq<char>>> {
    match field {
        Field::Absent => Field::Absent,
        Field::Invalid => Field::Invalid,
        Field::Present(items) => Field::Present(texts(items@)),
    }
}

impl View for RawService {
    type V = RawServiceView;

    open spec fn view(&self) -> RawServiceView {
        RawServiceView {
            program: text_field(self.program),
            args: list_field(self.args),
            log: self.log,
        }
    }
}

impl View for RawSync {
    type V = RawSyncView;

    open spec fn view(&self) -> RawSyncView {
        RawSyncView {
            origin: text_field(self.origin),
            path: text_field(self.path),
            targets: list_field(self.targets),
        }
    }
}

impl View for RawDns {
    type V = RawDnsView;

    open spec fn view(&self) -> RawDnsView {
        RawDnsView { code: text_field(self.code) }
    }
}

/// The view of the `service` section.
pub open spec fn service_field(field: Field<RawService>) -> Field<RawServiceView> {
    match field {
        Field::Absent => Field::Absent,
        Field::Invalid => Field::Invalid,
        Field::Present(section) => Field::Present(section@),
    }
}

/// The view of the `sync` section.
pub open spec fn sync_field(field: Field<RawSync>) -> Field<RawSyncView> {
    match field {
        Field::Absent => Field::Absent,
        Field::Invalid => Field::Invalid,
        Field::Present(section) => Field::Present(section@),
    }
}

/// The view of the `dns` section.
pub open spec fn dns_field(field: Field<RawDns>) -> Field<RawDnsView> {
    match field {
        Field::Absent => Field::Absent,
        Field::Invalid => Field::Invalid,
        Field::Present(section) => Field::Present(section@),
    }
}

impl View for RawConfig {
    type V = RawConfigView;

    open spec fn view(&self) -> RawConfigView {
        RawConfigView {
            service: service_field(self.service),
            sync: sync_field(self.sync),
            dns: dns_field(self.dns),
        }
    }
}

/// What a table holds under `key`, read as a string.
pub open spec fn text_at(entries: Map<Seq<char>, Node>, key: Seq<char>) -> Field<Seq<char>> {
    if !entries.contains_key(key) {
        Field::Absent
    } else {
        match entries[key] {
            Node::String(text) => Field::Present(text),
            _ => Field::Invalid,
        }
    }
}

/// What a table holds under `key`, read as a boolean.
pub open spec fn flag_at(entries: Map<Seq<char>, Node>, key: Seq<char>) -> Field<bool> {
    if !entries.contains_key(key) {
        Field::Absent
    } else {
        match entries[key] {
            Node::Boolean(flag) => Field::Present(flag),
            _ => Field::Invalid,
        }
    }
}

/// Whether every item is a string.
pub open spec fn all_strings(items: Seq<Node>) -> bool {
    forall|i: int| 0 <= i < items.len() ==> (#[trigger] items[i]) is String
}

/// The text of a string item; empty for an item of another kind.
pub open spec fn node_text(node: Node) -> Seq<char> {
    match node {
        Node::String(text) => text,
        _ => Seq::empty(),
    }
}

/// What a table holds under `key`, read as an array of strings. An array with
/// an item of another kind is invalid as a whole.
pub open spec fn list_at(entries: Map<Seq<char>, Node>, key: Seq<char>) -> Field<Seq<Seq<char>>> {
    if !entries.contains_key(key) {
        Field::Absent
    } else {
        match entries[key] {
            Node::Array(items) => if all_strings(items) {
                Field::Present(items.map_values(|item: Node| node_text(item)))
            } else {
                Field::Invalid
            },
            _ => Field::Invalid,
        }
    }
}

/// What a document holds under `key`, read as a section.
pub open spec fn section_at(doc: Map<Seq<char>, Node>, key: Seq<char>) -> Field<
    Map<Seq<char>, Node>,
> {
    if !doc.contains_key(key) {
        Field::Absent
    } else {
        match doc[key] {
            Node::Table(entries) => Field::Present(entries),
            _ => Field::Invalid,
        }
    }
}

/// The `service` section of a document.
pub open spec fn service_at(doc: Map<Seq<char>, Node>) -> Field<RawServiceView> {
    match section_at(doc, "service"@) {
        Field::Absent => Field::Absent,
        Field::Invalid => Field::Invalid,
        Field::Present(entries) => Field::Present(
            RawServiceView {
                program: text_at(entries, "exec"@),
                args: list_at(entries, "args"@),
                log: flag_at(entries, "log"@),
            },
        ),
    }
}

/// The `sync` section of a document.
pub open spec fn sync_at(doc: Map<Seq<char>, Node>) -> Field<RawSyncView> {
    match section_at(doc, "sync"@) {
        Field::Absent => Field::Absent,
        Field::Invalid => Field::Invalid,
        Field::Present(entries) => Field::Present(
            RawSyncView {
                origin: text_at(entries, "origin"@),
                path: text_at(entries, "path"@),
                targets: list_at(entries, "targets"@),
            },
        ),
    }
}

/// The `dns` section of a document.
pub open spec fn dns_at(doc: Map<Seq<char>, Node>) -> Field<RawDnsView> {
    match section_at(doc, "dns"@) {
        Field::Absent => Field::Absent,
        Field::Invalid => Field::Invalid,
        Field::Present(entries) => Field::Present(RawDnsView { code: text_at(entries, "code"@) }),
    }
}

/// Everything that the launcher reads from a document.
pub open spec fn fields_of(doc: Map<Seq<char>, Node>) -> RawConfigView {
    RawConfigView { service: service_at(doc), sync: sync_at(doc), dns: dns_at(doc) }
}

fn read_text(table: &toml::Table, key: &str) -> (field: Field<String>)
    ensures
        text_field(field) == text_at(table_nodes(*table), key@),
{
    match table_get(table, key) {
        None => Field::Absent,
        Some(value) => match value_as_str(value) {
            Some(text) => Field::Present(text.to_owned()),
            None => Field::Invalid,
        },
    }
}

fn read_flag(table: &toml::Table, key: &str) -> (field: Field<bool>)
    ensures
        field == flag_at(table_nodes(*table), key@),
{
    match table_get(table, key) {
        None => Field::Absent,
        Some(value) => match value_as_bool(value) {
            Some(flag) => Field::Present(flag),
            None => Field::Invalid,
        },
    }
}

fn read_list(table: &toml::Table, key: &str) -> (field: Field<Vec<String>>)
    ensures
        list_field(field) == list_at(table_nodes(*table), key@),
{
    match table_get(table, key) {
        None => Field::Absent,
        Some(value) => match value_as_array(value) {
            None => Field::Invalid,
            Some(items) => {
                let ghost nodes = item_nodes(items@);
                let mut out: Vec<String> = Vec::new();
                let mut i: usize = 0;
                while i < items.len()
                    invariant
                        i <= items.len(),
                        nodes == item_nodes(items@),
                        table_nodes(*table).contains_key(key@),
                        table_nodes(*table)[key@] == Node::Array(nodes),
                        out@.len() == i,
                        forall|j: int| 0 <= j < i ==> (#[trigger] nodes[j]) == Node::String(out@[j]@),
                    decreases items.len() - i,
                {
                    assert(nodes[i as int] == value_node(items@[i as int]));
                    match value_as_str(&items[i]) {
                        None => {
                            assert(!all_strings(nodes));
                            return Field::Invalid;
                        },
                        Some(text) => {
                            out.push(text.to_owned());
                        },
                    }
                    i += 1;
                }
                assert(all_strings(nodes));
                assert(texts(out@) =~= nodes.map_values(|item: Node| node_text(item)));
                Field::Present(out)
            },
        },
    }
}

fn read_section<'a>(doc: &'a toml::Table, key: &str) -> (field: Field<&'a toml::Table>)
    ensures
        match field {
            Field::Absent => section_at(table_nodes(*doc), key@) is Absent,
            Field::Invalid => section_at(table_nodes(*doc), key@) is Invalid,
            Field::Present(section) => section_at(table_nodes(*doc), key@) == Field::Present(
                table_nodes(*section),
            ),
        },
{
    match table_get(doc, key) {
        None => Field::Absent,
        Some(value) => match value_as_table(value) {
            Some(section) => Field::Present(section),
            None => Field::Invalid,
        },
    }
}

impl RawService {
    /// Reads the `service` section of a parsed document.
    pub fn read(doc: &toml::Table) -> (field: Field<RawService>)
        ensures
            service_field(field) == service_at(table_nodes(*doc)),
    {
        match read_section(doc, "service") {
            Field::Absent => Field::Absent,
            Field::Invalid => Field::Invalid,
            Field::Present(section) => Field::Present(
                RawService {
                    program: read_text(section, "exec"),
                    args: read_list(section, "args"),
                    log: read_flag(section, "log"),
                },
            ),
        }
    }
}

impl RawSync {
    /// Reads the `sync` section of a parsed document.
    pub fn read(doc: &toml::Table) -> (field: Field<RawSync>)
        ensures
            sync_field(field) == sync_at(table_nodes(*doc)),
    {
        match read_section(doc, "sync") {
            Field::Absent => Field::Absent,
            Field::Invalid => Field::Invalid,
            Field::Present(section) => Field::Present(
                RawSync {
                    origin: read_text(section, "origin"),
                    path: read_text(section, "path"),
                    targets: read_list(section, "targets"),
                },
            ),
        }
    }
}

impl RawDns {
    /// Reads the `dns` section of a parsed document.
    pub fn read(doc: &toml::Table) -> (field: Field<RawDns>)
        ensures
            dns_field(field) == dns_at(table_nodes(*doc)),
    {
        match read_section(doc, "dns") {
            Field::Absent => Field::Absent,
            Field::Invalid => Field::Invalid,
            Field::Present(section) => Field::Present(RawDns { code: read_text(section, "code") }),
        }
    }
}

impl RawConfig {
    /// Reads every section of a parsed document.
    pub fn read(doc: &toml::Table) -> (raw: RawConfig)
        ensures
            raw@ == fields_of(table_nodes(*doc)),
    {
        RawConfig {
            service: RawService::read(doc),
            sync: RawSync::read(doc),
            dns: RawDns::read(doc),
        }
    }
}

} // verus!
