//! The validated configuration: one service, an optional DNS record, an
//! optional synchronised repository.
//!
//! Values of these types are immutable. They come out of the validation of a
//! document (see [`crate::validate`]) or are built from parts.

use vstd::prelude::*;

verus! {

/// The views of a sequence of strings.
pub open spec fn texts(items: Seq<String>) -> Seq<Seq<char>> {
    items.map_values(|item: String| item@)
}

/// A copy of a sequence of strings.
pub fn copy_texts(items: &Vec<String>) -> (copy: Vec<String>)
    ensures
        copy@ == items@,
{
    let mut copy: Vec<String> = Vec::new();
    let mut i: usize = 0;
    while i < items.len()
        invariant
            i <= items.len(),
            copy@ == items@.take(i as int),
        decreases items.len() - i,
    {
        copy.push(items[i].clone());
        assert(items@.take(i + 1) == items@.take(i as int).push(items@[i as int]));
        i += 1;
    }
    assert(items@.take(items.len() as int) == items@);
    copy
}

/// The service to launch.
#[derive(Debug, PartialEq, Eq)]
pub struct Service {
    program: String,
    args: Vec<String>,
    log: bool,
}

/// The mathematical content of a [`Service`].
pub struct ServiceView {
    /// Path to the executable.
    pub program: Seq<char>,
    /// Arguments handed to the executable, in order.
    pub args: Seq<Seq<char>>,
    /// Whether the output goes to a log file rather than to the terminal.
    pub log: bool,
}

impl View for Service {
    type V = ServiceView;

    closed spec fn view(&self) -> ServiceView {
        ServiceView { program: self.program@, args: texts(self.args@), log: self.log }
    }
}

impl Service {
    /// A service from its parts.
    pub fn new(program: String, args: Vec<String>, log: bool) -> (service: Service)
        ensures
            service@ == (ServiceView { program: program@, args: texts(args@), log }),
    {
        Service { program, args, log }
    }

    /// Path to the executable.
    pub fn exec(&self) -> (program: &String)
        ensures
            program@ == self@.program,
    {
        &self.program
    }

    /// Arguments handed to the executable, in order.
    pub fn args(&self) -> (args: &Vec<String>)
        ensures
            texts(args@) == self@.args,
    {
        &self.args
    }

    /// Whether the output goes to a log file (`true`) or to the terminal (`false`).
    pub fn log(&self) -> (log: bool)
        ensures
            log == self@.log,
    {
        self.log
    }
}

/// The dynamic-DNS record to refresh.
#[derive(Debug, PartialEq, Eq)]
pub struct Dns {
    code: String,
}

/// The mathematical content of a [`Dns`].
pub struct DnsView {
    /// The update code issued by the DNS provider.
    pub code: Seq<char>,
}

impl View for Dns {
    type V = DnsView;

    closed spec fn view(&self) -> DnsView {
        DnsView { code: self.code@ }
    }
}

impl Dns {
    /// A DNS record from its update code.
    pub fn new(code: String) -> (dns: Dns)
        ensures
            dns@ == (DnsView { code: code@ }),
    {
        Dns { code }
    }

    /// The update code issued by the DNS provider.
    pub fn code(&self) -> (code: &String)
        ensures
            code@ == self@.code,
    {
        &self.code
    }
}

/// The repository to keep in step with its remote. It always names at least
/// one target to stage.
#[derive(Debug, PartialEq, Eq)]
pub struct Sync {
    origin: String,
    path: String,
    targets: Vec<String>,
}

/// The mathematical content of a [`Sync`].
pub struct SyncView {
    /// URL of the remote repository.
    pub origin: Seq<char>,
    /// Path to the local clone.
    pub path: Seq<char>,
    /// Paths to stage, relative to the clone.
    pub targets: Seq<Seq<char>>,
}

impl View for Sync {
    type V = SyncView;

    closed spec fn view(&self) -> SyncView {
        SyncView { origin: self.origin@, path: self.path@, targets: texts(self.targets@) }
    }
}

impl Sync {
    #[verifier::type_invariant]
    spec fn has_targets(self) -> bool {
        self.targets@.len() > 0
    }

    /// A repository from its parts, or `None` where `targets` is empty.
    pub fn new(origin: String, path: String, targets: Vec<String>) -> (sync: Option<Sync>)
        ensures
            match sync {
                Some(sync) => targets@.len() > 0 && sync@ == (SyncView {
                    origin: origin@,
                    path: path@,
                    targets: texts(targets@),
                }),
                None => targets@.len() == 0,
            },
    {
        if targets.len() == 0 {
            None
        } else {
            Some(Sync { origin, path, targets })
        }
    }

    /// URL of the remote repository.
    pub fn origin(&self) -> (origin: &String)
        ensures
            origin@ == self@.origin,
    {
        &self.origin
    }

    /// Path to the local clone.
    pub fn path(&self) -> (path: &String)
        ensures
            path@ == self@.path,
    {
        &self.path
    }

    /// Paths to stage, relative to the clone: never empty.
    pub fn targets(&self) -> (targets: &Vec<String>)
        ensures
            texts(targets@) == self@.targets,
            targets@.len() > 0,
    {
        proof {
            use_type_invariant(self);
        }
        &self.targets
    }
}

/// A whole configuration.
#[derive(Debug, PartialEq, Eq)]
pub struct Config {
    service: Service,
    dns: Option<Dns>,
    sync: Option<Sync>,
}

/// The mathematical content of a [`Config`].
pub struct ConfigView {
    pub service: ServiceView,
    pub dns: Option<DnsView>,
    pub sync: Option<SyncView>,
}

/// The view of an optional DNS record.
pub open spec fn dns_view(dns: Option<Dns>) -> Option<DnsView> {
    match dns {
        Some(dns) => Some(dns@),
        None => None,
    }
}

/// The view of an optional repository.
pub open spec fn sync_view(sync: Option<Sync>) -> Option<SyncView> {
    match sync {
        Some(sync) => Some(sync@),
        None => None,
    }
}

impl View for Config {
    type V = ConfigView;

    closed spec fn view(&self) -> ConfigView {
        ConfigView { service: self.service@, dns: dns_view(self.dns), sync: sync_view(self.sync) }
    }
}

impl Config {
    /// A configuration from its sections.
    pub fn new(service: Service, dns: Option<Dns>, sync: Option<Sync>) -> (config: Config)
        ensures
            config@ == (ConfigView {
                service: service@,
                dns: dns_view(dns),
                sync: sync_view(sync),
            }),
    {
        Config { service, dns, sync }
    }

    /// The service section.
    pub fn service(&self) -> (service: &Service)
        ensures
            service@ == self@.service,
    {
        &self.service
    }

    /// The DNS section, if the document has one.
    pub fn dns(&self) -> (dns: Option<&Dns>)
        ensures
            match dns {
                Some(dns) => self@.dns == Some(dns@),
                None => self@.dns is None,
            },
    {
        self.dns.as_ref()
    }

    /// The sync section, if the document has one.
    pub fn sync(&self) -> (sync: Option<&Sync>)
        ensures
            match sync {
                Some(sync) => self@.sync == Some(sync@),
                None => self@.sync is None,
            },
    {
        self.sync.as_ref()
    }
}

} // verus!
