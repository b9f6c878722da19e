use vstd::prelude::*;

use crate::text::chars_of;

verus! {

/// What `str::to_lowercase` returns for a text.
pub uninterp spec fn lower_of(s: Seq<char>) -> Seq<char>;

/// Relies on `str::to_lowercase`: the lowercase form of a text, which depends
/// on its characters alone.
#[verifier::external_body]
fn lowercase(s: &str) -> (r: String)
    ensures
        r@ == lower_of(s@),
{
    s.to_lowercase()
}

/// Relies on `fastrand::usize` over `..n`: a value below `n`; it panics only
/// on an empty range, which `n > 0` rules out.
#[verifier::external_body]
fn random_below(n: usize) -> (r: usize)
    requires
        n > 0,
    ensures
        r < n,
{
    fastrand::usize(..n)
}

/// The anonymity profiles.
#[derive(PartialEq, Eq, Structural, Clone, Copy, Debug)]
pub enum ProfileKind {
    Paranoid,
    Stealth,
    Basic,
}

/// The profile that a lowercase mode name selects; any other name, `custom`
/// among them, selects the stealth profile.
pub open spec fn kind_of(m: Seq<char>) -> ProfileKind {
    if m == "paranoid"@ {
        ProfileKind::Paranoid
    } else if m == "basic"@ {
        ProfileKind::Basic
    } else {
        ProfileKind::Stealth
    }
}

pub open spec fn mode_name(k: ProfileKind) -> Seq<char> {
    match k {
        ProfileKind::Paranoid => "paranoid"@,
        ProfileKind::Stealth => "stealth"@,
        ProfileKind::Basic => "basic"@,
    }
}

pub open spec fn user_agents_of(k: ProfileKind) -> Seq<Seq<char>> {
    match k {
        ProfileKind::Paranoid => seq![
            "Mozilla/5.0 (Windows NT 10.0; Win64; x64) AppleWebKit/537.36 (KHTML, like Gecko) Chrome/120.0.0.0 Safari/537.36"@,
            "Mozilla/5.0 (Macintosh; Intel Mac OS X 14_3) AppleWebKit/605.1.15 (KHTML, like Gecko) Version/17.2 Safari/605.1.15"@,
            "Mozilla/5.0 (X11; Linux x86_64; rv:122.0) Gecko/20100101 Firefox/122.0"@,
        ],
        ProfileKind::Stealth => seq![
            "Mozilla/5.0 (Windows NT 10.0; Win64; x64) AppleWebKit/537.36 (KHTML, like Gecko) Chrome/118.0.0.0 Safari/537.36"@,
            "Mozilla/5.0 (Macintosh; Intel Mac OS X 14_1) AppleWebKit/605.1.15 (KHTML, like Gecko) Version/17.1 Safari/605.1.15"@,
        ],
        ProfileKind::Basic => seq![
            "Mozilla/5.0 (Windows NT 10.0; Win64; x64) AppleWebKit/537.36 (KHTML, like Gecko) Chrome/120.0.0.0 Safari/537.36"@,
        ],
    }
}

/// The default request headers, as (name, value) pairs.
pub open spec fn headers_of(k: ProfileKind) -> Seq<(Seq<char>, Seq<char>)> {
    match k {
        ProfileKind::Paranoid => seq![
            ("accept-language"@, "en-US,en;q=0.9"@),
            ("referer"@, "https://www.google.com/"@),
            ("dnt"@, "1"@),
        ],
        ProfileKind::Stealth => seq![("accept-language"@, "en-US,en;q=0.5"@)],
        ProfileKind::Basic => Seq::empty(),
    }
}

pub open spec fn cipher_suites_of(k: ProfileKind) -> Seq<Seq<char>> {
    match k {
        ProfileKind::Paranoid => seq![
            "TLS_AES_128_GCM_SHA256"@,
            "TLS_AES_256_GCM_SHA384"@,
            "TLS_CHACHA20_POLY1305_SHA256"@,
        ],
        ProfileKind::Stealth => seq!["TLS_AES_256_GCM_SHA384"@, "TLS_CHACHA20_POLY1305_SHA256"@],
        ProfileKind::Basic => seq!["TLS_AES_256_GCM_SHA384"@],
    }
}

pub open spec fn extensions_of(k: ProfileKind) -> Seq<Seq<char>> {
    match k {
        ProfileKind::Paranoid => seq![
            "server_name"@,
            "extended_master_secret"@,
            "supported_groups"@,
        ],
        ProfileKind::Stealth => seq!["server_name"@, "supported_groups"@],
        ProfileKind::Basic => seq!["server_name"@],
    }
}

pub open spec fn strings_view(v: Seq<String>) -> Seq<Seq<char>> {
    v.map_values(|s: String| s@)
}

pub open spec fn pairs_view(v: Seq<(String, String)>) -> Seq<(Seq<char>, Seq<char>)> {
    v.map_values(|p: (String, String)| (p.0@, p.1@))
}

/// The TLS fingerprint a profile presents.
pub struct TlsProfile {
    pub cipher_suites: Vec<String>,
    pub extensions: Vec<String>,
}

/// An anonymity profile: its name, the user agents it picks from, its
/// default headers and its TLS fingerprint.
pub struct SecurityProfile {
    kind: ProfileKind,
    mode: String,
    user_agents: Vec<String>,
    headers: Vec<(String, String)>,
    tls_settings: TlsProfile,
}

/// Whether two texts are equal.
fn same_text(a: &str, b: &str) -> (r: bool)
    ensures
        r == (a@ == b@),
{
    let x = chars_of(a);
    let y = chars_of(b);
    if x.len() != y.len() {
        return false;
    }
    let mut i: usize = 0;
    while i < x.len()
        invariant
            x@ == a@,
            y@ == b@,
            x@.len() == y@.len(),
            i <= x@.len(),
            forall|k: int| 0 <= k < i ==> x@[k] == y@[k],
        decreases x@.len() - i,
    {
        if x[i] != y[i] {
            return false;
        }
        i = i + 1;
    }
    assert(a@ =~= b@);
    true
}

impl SecurityProfile {
    pub closed spec fn kind_spec(&self) -> ProfileKind {
        self.kind
    }

    /// The profile's contents are those of its kind.
    pub closed spec fn wf(&self) -> bool {
        &&& self.mode@ == mode_name(self.kind)
        &&& strings_view(self.user_agents@) == user_agents_of(self.kind)
        &&& pairs_view(self.headers@) == headers_of(self.kind)
        &&& strings_view(self.tls_settings.cipher_suites@) == cipher_suites_of(self.kind)
        &&& strings_view(self.tls_settings.extensions@) == extensions_of(self.kind)
    }

    /// The profile that `mode` names, whatever its case.
    pub fn new(mode: &str) -> (r: Self)
        ensures
            r.wf(),
            r.kind_spec() == kind_of(lower_of(mode@)),
    {
        let lowered = lowercase(mode);
        Self::for_lowercase_mode(lowered.as_str())
    }

    /// The profile that a lowercase mode name selects.
    pub fn for_lowercase_mode(mode: &str) -> (r: Self)
        ensures
            r.wf(),
            r.kind_spec() == kind_of(mode@),
    {
        proof {
            reveal_strlit("paranoid");
            reveal_strlit("stealth");
            reveal_strlit("basic");
            assert("stealth"@.len() != "paranoid"@.len());
            assert("stealth"@.len() != "basic"@.len());
        }
        if same_text(mode, "paranoid") {
            Self::paranoid()
        } else if same_text(mode, "stealth") {
            Self::stealth()
        } else if same_text(mode, "basic") {
            Self::basic()
        } else {
            Self::custom()
        }
    }

    pub fn paranoid() -> (r: Self)
        ensures
            r.wf(),
            r.kind_spec() == ProfileKind::Paranoid,
    {
        let r = SecurityProfile {
            kind: ProfileKind::Paranoid,
            mode: "paranoid".to_string(),
            user_agents: vec![
                "Mozilla/5.0 (Windows NT 10.0; Win64; x64) AppleWebKit/537.36 (KHTML, like Gecko) Chrome/120.0.0.0 Safari/537.36".to_string(),
                "Mozilla/5.0 (Macintosh; Intel Mac OS X 14_3) AppleWebKit/605.1.15 (KHTML, like Gecko) Version/17.2 Safari/605.1.15".to_string(),
                "Mozilla/5.0 (X11; Linux x86_64; rv:122.0) Gecko/20100101 Firefox/122.0".to_string(),
            ],
            headers: vec![
                ("accept-language".to_string(), "en-US,en;q=0.9".to_string()),
                ("referer".to_string(), "https://www.google.com/".to_string()),
                ("dnt".to_string(), "1".to_string()),
            ],
            tls_settings: TlsProfile {
                cipher_suites: vec![
                    "TLS_AES_128_GCM_SHA256".to_string(),
                    "TLS_AES_256_GCM_SHA384".to_string(),
                    "TLS_CHACHA20_POLY1305_SHA256".to_string(),
                ],
                extensions: vec![
                    "server_name".to_string(),
                    "extended_master_secret".to_string(),
                    "supported_groups".to_string(),
                ],
            },
        };
        assert(strings_view(r.user_agents@) =~= user_agents_of(ProfileKind::Paranoid));
        assert(pairs_view(r.headers@) =~= headers_of(ProfileKind::Paranoid));
        assert(strings_view(r.tls_settings.cipher_suites@) =~= cipher_suites_of(ProfileKind::Paranoid));
        assert(strings_view(r.tls_settings.extensions@) =~= extensions_of(ProfileKind::Paranoid));
        r
    }

    pub fn stealth() -> (r: Self)
        ensures
            r.wf(),
            r.kind_spec() == ProfileKind::Stealth,
    {
        let r = SecurityProfile {
            kind: ProfileKind::Stealth,
            mode: "stealth".to_string(),
            user_agents: vec![
                "Mozilla/5.0 (Windows NT 10.0; Win64; x64) AppleWebKit/537.36 (KHTML, like Gecko) Chrome/118.0.0.0 Safari/537.36".to_string(),
                "Mozilla/5.0 (Macintosh; Intel Mac OS X 14_1) AppleWebKit/605.1.15 (KHTML, like Gecko) Version/17.1 Safari/605.1.15".to_string(),
            ],
            headers: vec![("accept-language".to_string(), "en-US,en;q=0.5".to_string())],
            tls_settings: TlsProfile {
                cipher_suites: vec![
                    "TLS_AES_256_GCM_SHA384".to_string(),
                    "TLS_CHACHA20_POLY1305_SHA256".to_string(),
                ],
                extensions: vec!["server_name".to_string(), "supported_groups".to_string()],
            },
        };
        assert(strings_view(r.user_agents@) =~= user_agents_of(ProfileKind::Stealth));
        assert(pairs_view(r.headers@) =~= headers_of(ProfileKind::Stealth));
        assert(strings_view(r.tls_settings.cipher_suites@) =~= cipher_suites_of(ProfileKind::Stealth));
        assert(strings_view(r.tls_settings.extensions@) =~= extensions_of(ProfileKind::Stealth));
        r
    }

    pub fn basic() -> (r: Self)
        ensures
            r.wf(),
            r.kind_spec() == ProfileKind::Basic,
    {
        let r = SecurityProfile {
            kind: ProfileKind::Basic,
            mode: "basic".to_string(),
            user_agents: vec![
                "Mozilla/5.0 (Windows NT 10.0; Win64; x64) AppleWebKit/537.36 (KHTML, like Gecko) Chrome/120.0.0.0 Safari/537.36".to_string(),
            ],
            headers: Vec::new(),
            tls_settings: TlsProfile {
                cipher_suites: vec!["TLS_AES_256_GCM_SHA384".to_string()],
                extensions: vec!["server_name".to_string()],
            },
        };
        assert(strings_view(r.user_agents@) =~= user_agents_of(ProfileKind::Basic));
        assert(pairs_view(r.headers@) =~= headers_of(ProfileKind::Basic));
        assert(strings_view(r.tls_settings.cipher_suites@) =~= cipher_suites_of(ProfileKind::Basic));
        assert(strings_view(r.tls_settings.extensions@) =~= extensions_of(ProfileKind::Basic));
        r
    }

    /// The custom profile, which currently is the stealth profile.
    pub fn custom() -> (r: Self)
        ensures
            r.wf(),
            r.kind_spec() == ProfileKind::Stealth,
    {
        Self::stealth()
    }

    /// The profile's kind.
    pub fn kind(&self) -> (r: ProfileKind)
        ensures
            r == self.kind_spec(),
    {
        self.kind
    }

    /// The profile's name.
    pub fn mode(&self) -> (r: &str)
        requires
            self.wf(),
        ensures
            r@ == mode_name(self.kind_spec()),
    {
        self.mode.as_str()
    }

    /// The default headers, as (name, value) pairs.
    pub fn headers(&self) -> (r: &Vec<(String, String)>)
        requires
            self.wf(),
        ensures
            pairs_view(r@) == headers_of(self.kind_spec()),
    {
        &self.headers
    }

    /// The TLS fingerprint.
    pub fn tls_settings(&self) -> (r: &TlsProfile)
        requires
            self.wf(),
        ensures
            strings_view(r.cipher_suites@) == cipher_suites_of(self.kind_spec()),
            strings_view(r.extensions@) == extensions_of(self.kind_spec()),
    {
        &self.tls_settings
    }

    /// One of the profile's user agents, picked at random.
    pub fn random_user_agent(&self) -> (r: &str)
        requires
            self.wf(),
        ensures
            exists|i: int| 0 <= i < user_agents_of(self.kind_spec()).len() && r@ == user_agents_of(self.kind_spec())[i],
    {
        assert(user_agents_of(self.kind_spec()).len() > 0);
        let idx = random_below(self.user_agents.len());
        let r = self.user_agents[idx].as_str();
        assert(r@ == strings_view(self.user_agents@)[idx as int]);
        r
    }
}

} // verus!
