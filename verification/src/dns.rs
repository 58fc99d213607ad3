//! Refreshing the dynamic-DNS record: one HTTP GET to the provider, whose
//! answer is handed back as a diagnostic.

use crate::config::{Config, Dns};
use vstd::prelude::*;

verus! {

/// Why the record was not refreshed. Such an error never stops a run.
#[derive(Debug, PartialEq, Eq)]
pub enum DnsError {
    /// The configuration has no `dns` section.
    NotConfigured,
    /// The request failed, or its answer was not text; the payload says how.
    Transport(String),
}

impl DnsError {
    /// The diagnostic for this error.
    pub open spec fn spec_message(self) -> Seq<char> {
        match self {
            DnsError::NotConfigured => "no value was provided for 'dns.code'"@,
            DnsError::Transport(cause) => "while updating DNS: "@ + cause@,
        }
    }

    /// The diagnostic for this error.
    pub fn message(&self) -> (text: String)
        ensures
            text@ == self.spec_message(),
    {
        match self {
            DnsError::NotConfigured => "no value was provided for 'dns.code'".to_owned(),
            DnsError::Transport(cause) => {
                let mut text = "while updating DNS: ".to_owned();
                text.append(cause.as_str());
                text
            },
        }
    }
}

/// The address that refreshes the record with the given update code.
pub open spec fn update_url(code: Seq<char>) -> Seq<char> {
    "http://sync.afraid.org/u/"@ + code + "/"@
}

/// An answer without its final newline, if it ends in one. Only one newline is
/// taken off, and no other white space.
pub open spec fn trimmed(body: Seq<char>) -> Seq<char> {
    if body.len() > 0 && body.last() == '\n' {
        body.drop_last()
    } else {
        body
    }
}

impl Dns {
    /// The address to request in order to refresh this record.
    pub fn update_ip(&self) -> (url: String)
        ensures
            url@ == update_url(self@.code),
    {
        let mut url = "http://sync.afraid.org/u/".to_owned();
        url.append(self.code().as_str());
        url.append("/");
        url
    }
}

/// The address to request for a configuration, or the error where it has no
/// `dns` section.
pub fn update_dns(config: &Config) -> (request: Result<String, DnsError>)
    ensures
        match config@.dns {
            Some(dns) => request matches Ok(url) && url@ == update_url(dns.code),
            None => request == Err::<String, DnsError>(DnsError::NotConfigured),
        },
{
    match config.dns() {
        Some(dns) => Ok(dns.update_ip()),
        None => Err(DnsError::NotConfigured),
    }
}

/// The provider's answer as it is reported: the body of the response without
/// its final newline.
pub fn trim_response(body: String) -> (text: String)
    ensures
        text@ == trimmed(body@),
{
    let length = body.as_str().unicode_len();
    if length > 0 && body.as_str().get_char(length - 1) == '\n' {
        let kept = body.as_str().substring_char(0, length - 1);
        assert(body@.subrange(0, length - 1) == body@.drop_last());
        kept.to_owned()
    } else {
        body
    }
}

} // verus!
