use vstd::prelude::*;

pub mod clock;
pub mod github;
pub mod resolver;
pub mod storage;
pub mod text;
pub mod util;

use crate::text::{before_first, chars_of, find_char, index_of, lemma_index_of_at, string_of};

verus! {

/// An error raised while resolving or acquiring a credential.
#[derive(Debug)]
pub struct CredentialError(pub String);

/// A persisted token bundle, stored under its client identity.
#[derive(Debug)]
pub struct Credential {
    pub client_id: String,
    pub token: String,
    pub expiry: String,
    pub refresh_token: String,
}

impl Clone for Credential {
    fn clone(&self) -> (r: Self)
        ensures
            r == *self,
    {
        Credential {
            client_id: self.client_id.clone(),
            token: self.token.clone(),
            expiry: self.expiry.clone(),
            refresh_token: self.refresh_token.clone(),
        }
    }
}

impl Credential {
    /// A bundle whose fields are all empty.
    pub fn empty() -> (r: Credential)
        ensures
            r.client_id@.len() == 0,
            r.token@.len() == 0,
            r.expiry@.len() == 0,
            r.refresh_token@.len() == 0,
    {
        Credential {
            client_id: String::new(),
            token: String::new(),
            expiry: String::new(),
            refresh_token: String::new(),
        }
    }
}

/// An application binding: requests whose path starts with `path` use `client_id`.
#[derive(Debug)]
pub struct AppConfig {
    pub path: String,
    pub client_id: String,
}

impl Clone for AppConfig {
    fn clone(&self) -> (r: Self)
        ensures
            r == *self,
    {
        AppConfig { path: self.path.clone(), client_id: self.client_id.clone() }
    }
}

/// The paths of a list of bindings, in order.
pub open spec fn paths(s: Seq<AppConfig>) -> Seq<Seq<char>> {
    s.map_values(|a: AppConfig| a.path@)
}

/// The client identities of a list of bundles, in order.
pub open spec fn ids(s: Seq<Credential>) -> Seq<Seq<char>> {
    s.map_values(|c: Credential| c.client_id@)
}

/// The first binding whose path is `key`.
pub open spec fn find_app(s: Seq<AppConfig>, key: Seq<char>) -> Option<AppConfig> {
    if index_of(paths(s), key) < s.len() {
        Some(s[index_of(paths(s), key)])
    } else {
        None
    }
}

/// The first bundle stored under `id`.
pub open spec fn find_credential(s: Seq<Credential>, id: Seq<char>) -> Option<Credential> {
    if index_of(ids(s), id) < s.len() {
        Some(s[index_of(ids(s), id)])
    } else {
        None
    }
}

/// `s` without its first bundle stored under `id`.
pub open spec fn without_id(s: Seq<Credential>, id: Seq<char>) -> Seq<Credential> {
    if index_of(ids(s), id) < s.len() {
        s.remove(index_of(ids(s), id))
    } else {
        s
    }
}

/// No two bundles of `s` share a client identity.
pub open spec fn unique_ids(s: Seq<Credential>) -> bool {
    forall|i: int, j: int|
        0 <= i < j < s.len() ==> #[trigger] s[i].client_id@ != #[trigger] s[j].client_id@
}

/// The word that selects a binding: `gist` on the gist host, else the first path segment.
pub open spec fn binding_key(host: Seq<char>, path: Seq<char>) -> Seq<char> {
    if host == "gist.github.com"@ {
        "gist"@
    } else {
        before_first(path, '/')
    }
}

fn app_position(s: &Vec<AppConfig>, key: &String) -> (r: usize)
    ensures
        r == index_of(paths(s@), key@),
{
    let mut i: usize = 0;
    while i < s.len() && !(s[i].path == *key)
        invariant
            i <= s@.len(),
            forall|j: int| 0 <= j < i ==> s@[j].path@ != key@,
        decreases s@.len() - i,
    {
        i = i + 1;
    }
    proof {
        lemma_index_of_at(paths(s@), key@, i as int);
    }
    i
}

fn credential_position(s: &Vec<Credential>, id: &String) -> (r: usize)
    ensures
        r == index_of(ids(s@), id@),
{
    let mut i: usize = 0;
    while i < s.len() && !(s[i].client_id == *id)
        invariant
            i <= s@.len(),
            forall|j: int| 0 <= j < i ==> s@[j].client_id@ != id@,
        decreases s@.len() - i,
    {
        i = i + 1;
    }
    proof {
        lemma_index_of_at(ids(s@), id@, i as int);
    }
    i
}

fn copy_apps(s: &Vec<AppConfig>) -> (r: Vec<AppConfig>)
    ensures
        r@ == s@,
{
    let mut out: Vec<AppConfig> = Vec::new();
    let mut i: usize = 0;
    while i < s.len()
        invariant
            i <= s@.len(),
            out@ == s@.take(i as int),
        decreases s@.len() - i,
    {
        out.push(s[i].clone());
        assert(s@.take(i + 1) =~= s@.take(i as int).push(s@[i as int]));
        i = i + 1;
    }
    assert(s@.take(s@.len() as int) =~= s@);
    out
}

fn copy_credentials(s: &Vec<Credential>) -> (r: Vec<Credential>)
    ensures
        r@ == s@,
{
    let mut out: Vec<Credential> = Vec::new();
    let mut i: usize = 0;
    while i < s.len()
        invariant
            i <= s@.len(),
            out@ == s@.take(i as int),
        decreases s@.len() - i,
    {
        out.push(s[i].clone());
        assert(s@.take(i + 1) =~= s@.take(i as int).push(s@[i as int]));
        i = i + 1;
    }
    assert(s@.take(s@.len() as int) =~= s@);
    out
}

/// The persisted configuration: bindings, fallback helper and file-backed bundles.
#[derive(Debug)]
pub struct GithubKeychainConfig {
    pub version: u8,
    pub fallback: String,
    pub app_configs: Option<Vec<AppConfig>>,
    pub credentials: Option<Vec<Credential>>,
}

/// What a configuration holds, as values.
pub struct ConfigView {
    pub version: u8,
    pub fallback: Seq<char>,
    pub app_configs: Option<Seq<AppConfig>>,
    pub credentials: Option<Seq<Credential>>,
}

impl View for GithubKeychainConfig {
    type V = ConfigView;

    open spec fn view(&self) -> ConfigView {
        ConfigView {
            version: self.version,
            fallback: self.fallback@,
            app_configs: match self.app_configs {
                Some(v) => Some(v@),
                None => None,
            },
            credentials: match self.credentials {
                Some(v) => Some(v@),
                None => None,
            },
        }
    }
}

impl Clone for GithubKeychainConfig {
    fn clone(&self) -> (r: Self)
        ensures
            r@ == self@,
    {
        let app_configs = match &self.app_configs {
            Some(v) => Some(copy_apps(v)),
            None => None,
        };
        let credentials = match &self.credentials {
            Some(v) => Some(copy_credentials(v)),
            None => None,
        };
        GithubKeychainConfig {
            version: self.version,
            fallback: self.fallback.clone(),
            app_configs,
            credentials,
        }
    }
}

impl GithubKeychainConfig {
    /// The configured bindings, in order (none when the list is absent).
    pub open spec fn app_seq(&self) -> Seq<AppConfig> {
        match self.app_configs {
            Some(v) => v@,
            None => Seq::empty(),
        }
    }

    /// The file-backed bundles, in order (none when the list is absent).
    pub open spec fn cred_seq(&self) -> Seq<Credential> {
        match self.credentials {
            Some(v) => v@,
            None => Seq::empty(),
        }
    }

    /// At most one file-backed bundle per client identity.
    pub open spec fn wf(&self) -> bool {
        unique_ids(self.cred_seq())
    }

    /// An empty configuration: no bindings, no bundles, no fallback helper.
    pub fn new() -> (r: GithubKeychainConfig)
        ensures
            r.version == 0,
            r.fallback@.len() == 0,
            r.app_configs is None,
            r.credentials is None,
            r.wf(),
    {
        GithubKeychainConfig { version: 0, fallback: String::new(), app_configs: None, credentials: None }
    }

    /// The binding that applies to `request`, if any.
    pub fn config_for(&self, request: &CredentialRequest) -> (r: Option<AppConfig>)
        ensures
            r == find_app(self.app_seq(), binding_key(request.host@, request.path@)),
    {
        let configs = match &self.app_configs {
            None => {
                return None;
            },
            Some(v) => v,
        };
        let criterion = if request.host == "gist.github.com".to_owned() {
            "gist".to_owned()
        } else {
            let v = chars_of(request.path.as_str());
            let k = find_char(&v, 0, '/');
            assert(v@.skip(0) =~= v@);
            string_of(&v, 0, k)
        };
        assert(criterion@ == binding_key(request.host@, request.path@));
        let i = app_position(configs, &criterion);
        if i < configs.len() {
            Some(configs[i].clone())
        } else {
            None
        }
    }

    /// The file-backed bundle stored under `client_id`, if any.
    pub fn credential_for(&self, client_id: String) -> (r: Option<Credential>)
        ensures
            r == find_credential(self.cred_seq(), client_id@),
    {
        match &self.credentials {
            None => None,
            Some(creds) => {
                let i = credential_position(creds, &client_id);
                if i < creds.len() {
                    Some(creds[i].clone())
                } else {
                    None
                }
            },
        }
    }

    /// Puts `credential` among the file-backed bundles, replacing the one with its identity.
    pub fn store_credential(&mut self, credential: &Credential)
        ensures
            final(self).credentials is Some,
            final(self).cred_seq() == without_id(old(self).cred_seq(), credential.client_id@).push(
                *credential,
            ),
            final(self).version == old(self).version,
            final(self).fallback == old(self).fallback,
            final(self).app_configs == old(self).app_configs,
    {
        let mut creds = match &self.credentials {
            Some(v) => copy_credentials(v),
            None => Vec::new(),
        };
        assert(creds@ == old(self).cred_seq());
        let i = credential_position(&creds, &credential.client_id);
        if i < creds.len() {
            creds.remove(i);
        }
        creds.push(credential.clone());
        self.credentials = Some(creds);
    }

    /// Removes the file-backed bundle stored under the identity of `request`.
    pub fn delete_credential(&mut self, request: &CredentialRequest)
        requires
            self.credentials is Some ==> request.identity_known(),
        ensures
            old(self).credentials is None ==> *final(self) == *old(self),
            old(self).credentials is Some ==> {
                &&& final(self).cred_seq() == without_id(old(self).cred_seq(), request.identity())
                &&& (final(self).credentials is None <==> final(self).cred_seq().len() == 0)
            },
            final(self).version == old(self).version,
            final(self).fallback == old(self).fallback,
            final(self).app_configs == old(self).app_configs,
    {
        let mut creds = match &self.credentials {
            Some(v) => copy_credentials(v),
            None => {
                return;
            },
        };
        let client_id = request.client_id();
        let i = credential_position(&creds, &client_id);
        if i < creds.len() {
            creds.remove(i);
        }
        if creds.len() == 0 {
            self.credentials = None;
        } else {
            self.credentials = Some(creds);
        }
    }

    /// The binding whose path is `default`, if any.
    pub fn default_config(&self) -> (r: Option<AppConfig>)
        requires
            self.app_configs is Some,
        ensures
            r == find_app(self.app_seq(), "default"@),
    {
        let configs = match &self.app_configs {
            Some(v) => v,
            None => {
                return None;
            },
        };
        let i = app_position(configs, &"default".to_owned());
        if i < configs.len() {
            Some(configs[i].clone())
        } else {
            None
        }
    }
}

impl Default for GithubKeychainConfig {
    fn default() -> (r: Self)
        ensures
            r.version == 0,
            r.fallback@.len() == 0,
            r.app_configs is None,
            r.credentials is None,
    {
        GithubKeychainConfig::new()
    }
}

/// A parsed credential request, with the configuration it is resolved against.
#[derive(Debug)]
pub struct CredentialRequest {
    pub username: String,
    pub host: String,
    pub protocol: String,
    pub path: String,
    pub port: String,
    pub config: GithubKeychainConfig,
}

/// What a request holds, as values.
pub struct RequestView {
    pub username: Seq<char>,
    pub host: Seq<char>,
    pub protocol: Seq<char>,
    pub path: Seq<char>,
    pub port: Seq<char>,
    pub config: ConfigView,
}

impl View for CredentialRequest {
    type V = RequestView;

    open spec fn view(&self) -> RequestView {
        RequestView {
            username: self.username@,
            host: self.host@,
            protocol: self.protocol@,
            path: self.path@,
            port: self.port@,
            config: self.config@,
        }
    }
}

impl Clone for CredentialRequest {
    fn clone(&self) -> (r: Self)
        ensures
            r@ == self@,
    {
        CredentialRequest {
            username: self.username.clone(),
            host: self.host.clone(),
            protocol: self.protocol.clone(),
            path: self.path.clone(),
            port: self.port.clone(),
            config: self.config.clone(),
        }
    }
}

impl CredentialRequest {
    /// The binding that applies to this request.
    pub open spec fn binding(&self) -> Option<AppConfig> {
        find_app(self.config.app_seq(), binding_key(self.host@, self.path@))
    }

    /// The request names its own identity: a username that is not the token placeholder.
    pub open spec fn names_identity(&self) -> bool {
        self.username@.len() > 0 && self.username@ != "x-oauth-token"@
    }

    /// The storage identity can be told: named by the request, or given by its binding.
    pub open spec fn identity_known(&self) -> bool {
        self.names_identity() || self.binding() is Some
    }

    /// The storage identity: the username when it names one, else the binding's client id.
    pub open spec fn identity(&self) -> Seq<char> {
        if self.names_identity() {
            self.username@
        } else {
            self.binding()->0.client_id@
        }
    }

    /// A request for `github.com` with every other field empty.
    pub fn empty(config: GithubKeychainConfig) -> (r: CredentialRequest)
        ensures
            r.username@.len() == 0,
            r.host@ == "github.com"@,
            r.protocol@.len() == 0,
            r.path@.len() == 0,
            r.port@.len() == 0,
            r.config == config,
    {
        CredentialRequest {
            username: String::new(),
            host: "github.com".to_owned(),
            protocol: String::new(),
            path: String::new(),
            port: String::new(),
            config,
        }
    }

    /// Whether a binding applies to this request.
    pub fn is_configured(&self) -> (r: bool)
        ensures
            r == self.binding() is Some,
    {
        self.app_config().is_some()
    }

    /// The binding that applies to this request, if any.
    pub fn app_config(&self) -> (r: Option<AppConfig>)
        ensures
            r == self.binding(),
    {
        self.config.config_for(self)
    }

    /// The identity under which this request's bundle is stored.
    pub fn client_id(&self) -> (r: String)
        requires
            self.identity_known(),
        ensures
            r@ == self.identity(),
    {
        if self.username.as_str().is_empty() || self.username == "x-oauth-token".to_owned() {
            match self.app_config() {
                Some(app) => app.client_id,
                None => String::new(),
            }
        } else {
            self.username.clone()
        }
    }

    /// A copy of the configuration without the file-backed bundle of this request.
    pub fn delete_credential(&self) -> (r: GithubKeychainConfig)
        requires
            self.config.credentials is Some ==> self.identity_known(),
        ensures
            self.config.credentials is None ==> r@ == self.config@,
            self.config.credentials is Some ==> {
                &&& r.cred_seq() == without_id(self.config.cred_seq(), self.identity())
                &&& (r.credentials is None <==> r.cred_seq().len() == 0)
            },
            r@.version == self.config@.version,
            r@.fallback == self.config@.fallback,
            r@.app_configs == self.config@.app_configs,
    {
        let mut conf = self.config.clone();
        conf.delete_credential(self);
        conf
    }
}

/// A request line that could not be parsed.
#[derive(Debug)]
pub struct ParseError {
    pub reason: String,
}

} // verus!
