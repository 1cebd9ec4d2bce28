//! The sources that tell the public address.

use crate::domain::entities::{ErrorKind, UpdateError};
use vstd::prelude::*;

verus! {

/// How long a source is waited for, in seconds.
pub const ENDPOINT_TIMEOUT_SECS: u64 = 9;

/// How long a host is waited for when it is asked whether it can be reached,
/// in seconds.
pub const REACHABLE_TIMEOUT_SECS: u64 = 5;

/// The `i`-th source of the public address, in the order in which the
/// sources are asked.
pub open spec fn endpoint(i: int) -> Option<Seq<char>> {
    if i == 0 {
        Some("https://api.ipify.org"@)
    } else if i == 1 {
        Some("https://ipinfo.io/ip"@)
    } else if i == 2 {
        Some("https://icanhazip.com"@)
    } else {
        None
    }
}

/// The message of a search that no source was asked in.
pub open spec fn exhausted_message() -> Seq<char> {
    "Failed to get public IP from all endpoints"@
}

/// The search for the public address: the sources are asked in order, and
/// the first that gives an address ends the search.
#[derive(Debug)]
pub struct HttpNetworkService {
    next: usize,
    last_error: Option<String>,
}

/// What the search does next.
#[derive(Debug)]
pub enum Lookup {
    /// Ask the source at this address, and wait for it no longer than the
    /// timeout.
    Fetch { url: String, timeout_secs: u64 },
    /// The public address.
    Found(String),
    /// No source gave an address; the error tells what the last one said.
    Exhausted(UpdateError),
}

impl HttpNetworkService {
    /// The number of the source that is asked next.
    pub closed spec fn next_spec(&self) -> int {
        self.next as int
    }

    /// What the source asked last said of its failure, where one failed.
    pub closed spec fn last_error_spec(&self) -> Option<Seq<char>> {
        match self.last_error {
            Some(e) => Some(e@),
            None => None,
        }
    }

    #[verifier::type_invariant]
    spec fn well_formed(self) -> bool {
        self.next <= 3
    }

    /// A search that has asked no source yet.
    pub fn new() -> (service: HttpNetworkService)
        ensures
            service.next_spec() == 0,
            service.last_error_spec() is None,
    {
        HttpNetworkService { next: 0, last_error: None }
    }

    /// The first move of the search, and every move after a source failed:
    /// the next source is asked, or the search ends where none is left, with
    /// what the last source said, or, where no source was asked, with a
    /// message of its own.
    pub fn get_public_ip(self) -> (r: (HttpNetworkService, Lookup))
        ensures
            match endpoint(self.next_spec()) {
                Some(url) => r.0.next_spec() == self.next_spec() + 1 && r.0.last_error_spec()
                    == self.last_error_spec() && (r.1 matches Lookup::Fetch { url: u, timeout_secs }
                    && u@ == url && timeout_secs == ENDPOINT_TIMEOUT_SECS),
                None => r.0.next_spec() == self.next_spec() && (r.1 matches Lookup::Exhausted(e)
                    && e.kind == ErrorKind::AddressSourceExhausted && e.message@ == (
                match self.last_error_spec() {
                    Some(text) => text,
                    None => exhausted_message(),
                })),
            },
    {
        proof {
            use_type_invariant(&self);
        }
        let url = if self.next == 0 {
            "https://api.ipify.org"
        } else if self.next == 1 {
            "https://ipinfo.io/ip"
        } else if self.next == 2 {
            "https://icanhazip.com"
        } else {
            let message = match &self.last_error {
                Some(text) => text.clone(),
                None => "Failed to get public IP from all endpoints".to_owned(),
            };
            let e = UpdateError::reported(ErrorKind::AddressSourceExhausted, message);
            return (self, Lookup::Exhausted(e));
        };
        let next = self.next + 1;
        (
            HttpNetworkService { next, last_error: self.last_error },
            Lookup::Fetch { url: url.to_owned(), timeout_secs: ENDPOINT_TIMEOUT_SECS },
        )
    }

    /// The move after a source answered: with an address the search ends;
    /// with a failure, or a text that is no address, the next source is
    /// asked, and what went wrong is kept in case it was the last.
    pub fn answered(self, answer: Result<String, String>) -> (r: (HttpNetworkService, Lookup))
        ensures
            match answer {
                Ok(ip) => r.1 matches Lookup::Found(found) && found@ == ip@ && r.0.next_spec()
                    == self.next_spec(),
                Err(text) => match endpoint(self.next_spec()) {
                    Some(url) => r.0.next_spec() == self.next_spec() + 1 && r.0.last_error_spec()
                        == Some(text@) && (r.1 matches Lookup::Fetch { url: u, timeout_secs }
                        && u@ == url && timeout_secs == ENDPOINT_TIMEOUT_SECS),
                    None => r.0.next_spec() == self.next_spec() && (r.1 matches Lookup::Exhausted(
                        e,
                    ) && e.kind == ErrorKind::AddressSourceExhausted && e.message@ == text@),
                },
            },
    {
        proof {
            use_type_invariant(&self);
        }
        match answer {
            Ok(ip) => (self, Lookup::Found(ip)),
            Err(text) => {
                let failed = HttpNetworkService { next: self.next, last_error: Some(text) };
                failed.get_public_ip()
            },
        }
    }
}

impl Default for HttpNetworkService {
    fn default() -> (service: HttpNetworkService)
        ensures
            service.next_spec() == 0,
            service.last_error_spec() is None,
    {
        HttpNetworkService::new()
    }
}

} // verus!
