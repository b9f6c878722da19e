use vstd::prelude::*;

use crate::text::{contains, contains_spec, trim, trimmed};

verus! {

/// The service that reports whether a request arrived through Tor.
pub const TOR_CHECK_URL: &'static str = "https://check.torproject.org/api/ip";

/// What the Tor check service's body holds when the request came through Tor.
pub open spec fn tor_marker() -> Seq<char> {
    "\"IsTor\":true"@
}

/// A response as the probe sees it: the body, or nothing when the request
/// failed.
pub open spec fn response_view(r: Option<String>) -> Option<Seq<char>> {
    match r {
        Some(b) => Some(b@),
        None => None,
    }
}

/// The detected address after the given responses, in the order the
/// services were queried: the first body received, trimmed.
pub open spec fn first_answer(rs: Seq<Option<Seq<char>>>) -> Option<Seq<char>>
    decreases rs.len(),
{
    if rs.len() == 0 {
        None
    } else {
        match first_answer(rs.drop_last()) {
            Some(a) => Some(a),
            None => match rs.last() {
                Some(b) => Some(trimmed(b)),
                None => None,
            },
        }
    }
}

/// The services that echo the caller's public address, in order of
/// preference.
pub fn ip_services() -> (r: Vec<String>)
    ensures
        r@.len() == 3,
        r@[0]@ == "https://api.ipify.org"@,
        r@[1]@ == "https://checkip.amazonaws.com"@,
        r@[2]@ == "https://ifconfig.me/ip"@,
{
    vec![
        "https://api.ipify.org".to_string(),
        "https://checkip.amazonaws.com".to_string(),
        "https://ifconfig.me/ip".to_string(),
    ]
}

/// Whether the Tor check service's response confirms a Tor connection; a
/// failed request confirms nothing.
pub fn tor_confirmed(body: Option<String>) -> (r: bool)
    ensures
        r == match body {
            Some(b) => contains_spec(b@, tor_marker()),
            None => false,
        },
{
    match body {
        Some(b) => contains(b.as_str(), "\"IsTor\":true"),
        None => false,
    }
}

/// The queries of the public-address probe: the services are asked in order
/// until one answers.
pub struct IpProbe {
    services: Vec<String>,
    asked: usize,
    answer: Option<String>,
    seen: Ghost<Seq<Option<Seq<char>>>>,
}

impl IpProbe {
    pub closed spec fn services(&self) -> Seq<Seq<char>> {
        self.services@.map_values(|s: String| s@)
    }

    /// The responses recorded so far, in order.
    pub closed spec fn responses(&self) -> Seq<Option<Seq<char>>> {
        self.seen@
    }

    pub closed spec fn answer(&self) -> Option<Seq<char>> {
        response_view(self.answer)
    }

    pub closed spec fn wf(&self) -> bool {
        &&& self.asked == self.seen@.len()
        &&& self.asked <= self.services@.len()
        &&& response_view(self.answer) == first_answer(self.seen@)
    }

    /// Whether a query is still to be made: no answer yet and a service left.
    pub open spec fn pending(&self) -> bool {
        self.answer() is None && self.responses().len() < self.services().len()
    }

    pub fn new(services: Vec<String>) -> (r: Self)
        ensures
            r.wf(),
            r.services() == services@.map_values(|s: String| s@),
            r.responses() == Seq::<Option<Seq<char>>>::empty(),
            r.answer() is None,
    {
        IpProbe { services, asked: 0, answer: None, seen: Ghost(Seq::empty()) }
    }

    /// The service to query next, if any.
    pub fn next_service(&self) -> (r: Option<&str>)
        requires
            self.wf(),
        ensures
            self.pending() ==> (r matches Some(u) && u@ == self.services()[self.responses().len() as int]),
            !self.pending() ==> r is None,
    {
        if self.answer.is_none() && self.asked < self.services.len() {
            Some(self.services[self.asked].as_str())
        } else {
            None
        }
    }

    /// Records the response of the service that `next_service` named: its
    /// body, or nothing when the request failed.
    pub fn record(&mut self, response: Option<String>)
        requires
            old(self).wf(),
            old(self).pending(),
        ensures
            final(self).wf(),
            final(self).services() == old(self).services(),
            final(self).responses() == old(self).responses().push(response_view(response)),
            final(self).answer() == first_answer(final(self).responses()),
            final(self).answer() == match response {
                Some(b) => Some(trimmed(b@)),
                None => None,
            },
    {
        let ghost prev = self.seen@;
        let ghost next = prev.push(response_view(response));
        assert(next.drop_last() =~= prev);
        let n = self.services.len();
        assert(self.asked < n);
        match response {
            Some(body) => {
                self.answer = Some(trim(body.as_str()));
            },
            None => {},
        }
        self.asked = self.asked + 1;
        self.seen = Ghost(next);
    }

    /// The detected public address, or "unknown" when no service answered.
    pub fn detected_ip(&self) -> (r: String)
        requires
            self.wf(),
        ensures
            match first_answer(self.responses()) {
                Some(a) => r@ == a,
                None => r@ == "unknown"@,
            },
    {
        match &self.answer {
            Some(a) => a.clone(),
            None => "unknown".to_string(),
        }
    }
}

} // verus!
