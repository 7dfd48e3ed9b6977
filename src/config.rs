//! Local settings: the program's configuration and the stored accounts.

use vstd::prelude::*;
use base64::Engine;
use crate::text::{concat, str_eq};

verus! {

/// The settings directory under a home directory: `{home}/.ogk`.
pub open spec fn root_path_of(home: Seq<char>) -> Seq<char> {
    home + "/.ogk"@
}

/// What an unset setting is shown as.
pub open spec fn unset_text() -> Seq<char> {
    "⚠️  NOT CONFIGURED ⚠️"@
}

pub open spec fn shown(v: Option<String>, otherwise: Seq<char>) -> Seq<char> {
    match v {
        Some(s) => s@,
        None => otherwise,
    }
}

/// The program's configuration.
#[derive(Debug, Clone, PartialEq, Eq)]
pub struct Config {
    pub local_file_repository: Option<String>,
    pub remote_file_repository: Option<String>,
    pub supabase_host: Option<String>,
    pub supabase_api_key: Option<String>,
    pub slack_webhook_url: Option<String>,
}

fn shown_exec(v: &Option<String>, otherwise: &str) -> (r: String)
    ensures
        r@ == shown(*v, otherwise@),
{
    match v {
        Some(s) => s.clone(),
        None => otherwise.to_owned(),
    }
}

impl Config {
    /// `{home}/.ogk`.
    pub fn root_path(home: &str) -> (r: String)
        ensures
            r@ == root_path_of(home@),
    {
        concat(home, "/.ogk")
    }

    /// `{home}/.ogk/config`.
    pub fn file_path(home: &str) -> (r: String)
        ensures
            r@ == root_path_of(home@) + "/config"@,
    {
        let root = Config::root_path(home);
        concat(root.as_str(), "/config")
    }

    /// `{home}/.ogk/.data`, where files are kept unless configured otherwise.
    pub fn default_local_repository(home: &str) -> (r: String)
        ensures
            r@ == root_path_of(home@) + "/.data"@,
    {
        let root = Config::root_path(home);
        concat(root.as_str(), "/.data")
    }

    /// A configuration with the default local repository and nothing else set.
    pub fn new(home: &str) -> (r: Config)
        ensures
            r.local_file_repository matches Some(l) && l@ == root_path_of(home@) + "/.data"@,
            r.remote_file_repository is None,
            r.supabase_host is None,
            r.supabase_api_key is None,
            r.slack_webhook_url is None,
    {
        Config {
            local_file_repository: Some(Config::default_local_repository(home)),
            remote_file_repository: None,
            supabase_host: None,
            supabase_api_key: None,
            slack_webhook_url: None,
        }
    }

    /// The configuration as shown to the user; an unset local repository is
    /// shown as the default one, any other unset setting as not configured.
    pub fn describe(&self, home: &str) -> (r: String)
        ensures
            r@ == "🗄  FILES:\nlocal file repository: "@ + shown(
                self.local_file_repository,
                root_path_of(home@) + "/.data"@,
            ) + "\nremote file repository(github): "@ + shown(self.remote_file_repository, unset_text())
                + "\n\n💾 DATABASE(supabase)\nhost: "@ + shown(self.supabase_host, unset_text())
                + "\napi_key: "@ + shown(self.supabase_api_key, unset_text())
                + "\n\n🔌 INTEGRATION\nSLACK WEBHOOK URL: "@ + shown(self.slack_webhook_url, unset_text()),
    {
        let default_local = Config::default_local_repository(home);
        let unset = "⚠️  NOT CONFIGURED ⚠️";
        let local = shown_exec(&self.local_file_repository, default_local.as_str());
        let remote = shown_exec(&self.remote_file_repository, unset);
        let host = shown_exec(&self.supabase_host, unset);
        let key = shown_exec(&self.supabase_api_key, unset);
        let slack = shown_exec(&self.slack_webhook_url, unset);
        let s = concat("🗄  FILES:\nlocal file repository: ", local.as_str());
        let s = concat(s.as_str(), "\nremote file repository(github): ");
        let s = concat(s.as_str(), remote.as_str());
        let s = concat(s.as_str(), "\n\n💾 DATABASE(supabase)\nhost: ");
        let s = concat(s.as_str(), host.as_str());
        let s = concat(s.as_str(), "\napi_key: ");
        let s = concat(s.as_str(), key.as_str());
        let s = concat(s.as_str(), "\n\n🔌 INTEGRATION\nSLACK WEBHOOK URL: ");
        concat(s.as_str(), slack.as_str())
    }
}

/// The standard, padded base64 encoding of a text's UTF-8 bytes.
pub uninterp spec fn base64_of(s: Seq<char>) -> Seq<char>;

/// Relies on base64's `general_purpose::STANDARD.encode`: the padded
/// standard encoding of the bytes. (Its only panic is on an encoded length
/// past `usize::MAX`, which no string's bytes reach.)
#[verifier::external_body]
fn encode_base64(text: &str) -> (r: String)
    ensures
        r@ == base64_of(text@),
{
    base64::engine::general_purpose::STANDARD.encode(text.as_bytes())
}

/// Relies on base64's `general_purpose::STANDARD.decode` and on
/// `String::from_utf8`: what `encode` made of a text decodes back to it.
#[verifier::external_body]
fn decode_base64(encoded: &str) -> (r: Option<String>)
    ensures
        r is Some || forall|p: Seq<char>| encoded@ != #[trigger] base64_of(p),
        r matches Some(d) ==> forall|p: Seq<char>| encoded@ == #[trigger] base64_of(p) ==> d@ == p,
{
    match base64::engine::general_purpose::STANDARD.decode(encoded.as_bytes()) {
        Ok(bytes) => String::from_utf8(bytes).ok(),
        Err(_) => None,
    }
}

fn copy_opt(v: &Option<String>) -> (r: Option<String>)
    ensures
        r == *v,
{
    match v {
        Some(s) => Some(s.clone()),
        None => None,
    }
}

/// One stored account; the password is kept base64-encoded.
#[derive(Debug, Clone, PartialEq, Eq)]
pub struct AuthUser {
    pub org: String,
    pub username: String,
    pub password: String,
    pub local_repository: Option<String>,
    pub remote_repository: Option<String>,
    pub slack_webhook_url: Option<String>,
}

/// `u` is the account that `AuthUser::new(org, username, password)` makes.
pub open spec fn is_new_user(u: AuthUser, org: Seq<char>, username: Seq<char>, password: Seq<char>) -> bool {
    &&& u.org@ == org
    &&& u.username@ == username
    &&& u.password@ == base64_of(password)
    &&& u.local_repository is None
    &&& u.remote_repository is None
    &&& u.slack_webhook_url is None
}

/// The per-account settings that can be set after login.
#[derive(Debug, Clone, Copy, PartialEq, Eq, Structural)]
pub enum Setting {
    RemoteRepository,
    LocalRepository,
    SlackWebhookUrl,
}

/// `v` is `u` with `setting` set to `value`.
pub open spec fn is_set(u: AuthUser, setting: Setting, value: Seq<char>, v: AuthUser) -> bool {
    &&& v.org == u.org
    &&& v.username == u.username
    &&& v.password == u.password
    &&& if setting == Setting::LocalRepository {
        v.local_repository matches Some(x) && x@ == value
    } else {
        v.local_repository == u.local_repository
    }
    &&& if setting == Setting::RemoteRepository {
        v.remote_repository matches Some(x) && x@ == value
    } else {
        v.remote_repository == u.remote_repository
    }
    &&& if setting == Setting::SlackWebhookUrl {
        v.slack_webhook_url matches Some(x) && x@ == value
    } else {
        v.slack_webhook_url == u.slack_webhook_url
    }
}

impl AuthUser {
    /// A new account; the password is stored base64-encoded.
    pub fn new(org: &str, username: &str, password: &str) -> (r: AuthUser)
        ensures
            is_new_user(r, org@, username@, password@),
    {
        AuthUser {
            org: org.to_owned(),
            username: username.to_owned(),
            password: encode_base64(password),
            remote_repository: None,
            local_repository: None,
            slack_webhook_url: None,
        }
    }

    /// The password as it was given, or `None` when the stored text is not
    /// the encoding of a text.
    pub fn get_decoded_password(&self) -> (r: Option<String>)
        ensures
            forall|p: Seq<char>| self.password@ == #[trigger] base64_of(p) ==> (r matches Some(d) && d@ == p),
    {
        decode_base64(self.password.as_str())
    }

    /// A field-for-field copy.
    pub fn copy(&self) -> (r: AuthUser)
        ensures
            r == *self,
    {
        AuthUser {
            org: self.org.clone(),
            username: self.username.clone(),
            password: self.password.clone(),
            local_repository: copy_opt(&self.local_repository),
            remote_repository: copy_opt(&self.remote_repository),
            slack_webhook_url: copy_opt(&self.slack_webhook_url),
        }
    }

    /// This account with one setting set.
    pub fn with_setting(&self, setting: Setting, value: &str) -> (r: AuthUser)
        ensures
            is_set(*self, setting, value@, r),
    {
        let mut r = self.copy();
        match setting {
            Setting::RemoteRepository => {
                r.remote_repository = Some(value.to_owned());
            },
            Setting::LocalRepository => {
                r.local_repository = Some(value.to_owned());
            },
            Setting::SlackWebhookUrl => {
                r.slack_webhook_url = Some(value.to_owned());
            },
        }
        r
    }
}

/// The account recorded last under `key` in `entries`.
pub open spec fn lookup(entries: Seq<(String, AuthUser)>, key: Seq<char>) -> Option<AuthUser>
    decreases entries.len(),
{
    if entries.len() == 0 {
        None
    } else if entries.last().0@ == key {
        Some(entries.last().1)
    } else {
        lookup(entries.drop_last(), key)
    }
}

/// The stored accounts, keyed by organisation, plus `default`, which holds
/// the first account ever added.
#[derive(Debug, Clone, PartialEq, Eq)]
pub struct AuthConfig {
    accounts: Vec<(String, AuthUser)>,
}

impl AuthConfig {
    /// The account stored under `key`.
    pub closed spec fn account(&self, key: Seq<char>) -> Option<AuthUser> {
        lookup(self.accounts@, key)
    }

    /// Whether no account is stored.
    pub closed spec fn is_empty(&self) -> bool {
        self.accounts@.len() == 0
    }

    /// Whether setting something for `org` reaches the entry under `key`:
    /// the entry of `org` itself, and `default` when it is `org`'s account.
    pub open spec fn reaches(&self, org: Seq<char>, key: Seq<char>) -> bool {
        ||| key == org
        ||| key == "default"@ && (self.account(key) matches Some(d) && d.org@ == org)
    }

    pub fn new() -> (r: AuthConfig)
        ensures
            r.is_empty(),
            forall|k: Seq<char>| #[trigger] r.account(k) is None,
    {
        AuthConfig { accounts: Vec::new() }
    }

    /// Records `user` under `key`, replacing what was there.
    pub fn insert(&mut self, key: &str, user: AuthUser)
        ensures
            !final(self).is_empty(),
            forall|k: Seq<char>| #[trigger] final(self).account(k) == if k == key@ {
                Some(user)
            } else {
                old(self).account(k)
            },
    {
        self.accounts.push((key.to_owned(), user));
        assert forall|k: Seq<char>| #[trigger] self.account(k) == if k == key@ {
            Some(user)
        } else {
            old(self).account(k)
        } by {
            assert(self.accounts@.drop_last() == old(self).accounts@);
        }
    }

    /// The entries in the order they were recorded; for a key recorded more
    /// than once the last entry holds.
    pub fn entries(&self) -> (r: &Vec<(String, AuthUser)>)
        ensures
            forall|k: Seq<char>| lookup(r@, k) == #[trigger] self.account(k),
    {
        &self.accounts
    }

    /// The account stored for `org`.
    pub fn find_org(&self, org: &str) -> (r: Option<&AuthUser>)
        ensures
            self.account(org@) is None ==> r is None,
            self.account(org@) matches Some(u) ==> (r matches Some(x) && *x == u),
    {
        let n = self.accounts.len();
        let mut i = n;
        assert(self.accounts@.subrange(0, n as int) == self.accounts@);
        while i > 0
            invariant
                i <= n == self.accounts@.len(),
                lookup(self.accounts@, org@) == lookup(self.accounts@.subrange(0, i as int), org@),
            decreases i,
        {
            let ghost pre = self.accounts@.subrange(0, i as int);
            assert(pre.drop_last() == self.accounts@.subrange(0, i - 1));
            if str_eq(self.accounts[i - 1].0.as_str(), org) {
                return Some(&self.accounts[i - 1].1);
            }
            i = i - 1;
        }
        None
    }

    fn copy(&self) -> (r: AuthConfig)
        ensures
            r.accounts@ == self.accounts@,
    {
        let mut out: Vec<(String, AuthUser)> = Vec::new();
        let mut i: usize = 0;
        while i < self.accounts.len()
            invariant
                i <= self.accounts@.len(),
                out@ == self.accounts@.subrange(0, i as int),
            decreases self.accounts@.len() - i,
        {
            let e = &self.accounts[i];
            out.push((e.0.clone(), e.1.copy()));
            assert(out@ == self.accounts@.subrange(0, i + 1));
            i = i + 1;
        }
        assert(out@ == self.accounts@);
        AuthConfig { accounts: out }
    }

    /// These accounts with a new one for `org`; the very first account is
    /// also recorded as `default`.
    pub fn add_account(&self, org: &str, username: &str, password: &str) -> (r: AuthConfig)
        ensures
            r.account(org@) matches Some(u) && is_new_user(u, org@, username@, password@),
            self.is_empty() ==> (r.account("default"@) matches Some(u) && is_new_user(u, org@, username@, password@)),
            forall|k: Seq<char>| k != org@ && !(self.is_empty() && k == "default"@) ==> #[trigger] r.account(k) == self.account(k),
    {
        let mut r = self.copy();
        if self.accounts.len() == 0 {
            r.insert("default", AuthUser::new(org, username, password));
        }
        r.insert(org, AuthUser::new(org, username, password));
        r
    }

    fn set_setting(&self, org: &str, setting: Setting, value: &str) -> (r: AuthConfig)
        ensures
            forall|k: Seq<char>| #[trigger] self.reaches(org@, k) ==> (match self.account(k) {
                None => r.account(k) is None,
                Some(u) => r.account(k) matches Some(v) && is_set(u, setting, value@, v),
            }),
            forall|k: Seq<char>| !self.reaches(org@, k) ==> #[trigger] r.account(k) == self.account(k),
    {
        proof {
            reveal_strlit("default");
        }
        let mut r = self.copy();
        if let Some(u) = self.find_org(org) {
            r.insert(org, u.with_setting(setting, value));
        }
        let ghost mid = r;
        let found = match r.find_org("default") {
            Some(d) => if str_eq(d.org.as_str(), org) {
                Some(d.with_setting(setting, value))
            } else {
                None
            },
            None => None,
        };
        if let Some(v) = found {
            r.insert("default", v);
        }
        assert forall|k: Seq<char>| #[trigger] self.reaches(org@, k) implies (match self.account(k) {
            None => r.account(k) is None,
            Some(u) => r.account(k) matches Some(v) && is_set(u, setting, value@, v),
        }) by {
            if k == "default"@ && k != org@ {
                assert(mid.account(k) == self.account(k));
            }
        }
        r
    }

    /// These accounts with `org`'s remote repository set, also under
    /// `default` when that is `org`'s account.
    pub fn set_remote_repository_path(&self, org: &str, remote_repository: &str) -> (r: AuthConfig)
        ensures
            forall|k: Seq<char>| #[trigger] self.reaches(org@, k) ==> (match self.account(k) {
                None => r.account(k) is None,
                Some(u) => r.account(k) matches Some(v) && is_set(u, Setting::RemoteRepository, remote_repository@, v),
            }),
            forall|k: Seq<char>| !self.reaches(org@, k) ==> #[trigger] r.account(k) == self.account(k),
    {
        self.set_setting(org, Setting::RemoteRepository, remote_repository)
    }

    /// These accounts with `org`'s local repository set, also under
    /// `default` when that is `org`'s account.
    pub fn set_local_repository_path(&self, org: &str, local_repository: &str) -> (r: AuthConfig)
        ensures
            forall|k: Seq<char>| #[trigger] self.reaches(org@, k) ==> (match self.account(k) {
                None => r.account(k) is None,
                Some(u) => r.account(k) matches Some(v) && is_set(u, Setting::LocalRepository, local_repository@, v),
            }),
            forall|k: Seq<char>| !self.reaches(org@, k) ==> #[trigger] r.account(k) == self.account(k),
    {
        self.set_setting(org, Setting::LocalRepository, local_repository)
    }

    /// These accounts with `org`'s webhook address set, also under `default`
    /// when that is `org`'s account.
    pub fn set_slack_webhook_url(&self, org: &str, url: &str) -> (r: AuthConfig)
        ensures
            forall|k: Seq<char>| #[trigger] self.reaches(org@, k) ==> (match self.account(k) {
                None => r.account(k) is None,
                Some(u) => r.account(k) matches Some(v) && is_set(u, Setting::SlackWebhookUrl, url@, v),
            }),
            forall|k: Seq<char>| !self.reaches(org@, k) ==> #[trigger] r.account(k) == self.account(k),
    {
        self.set_setting(org, Setting::SlackWebhookUrl, url)
    }

    /// `{home}/.ogk/credentials`, where the accounts are stored.
    pub fn credential_file_path(home: &str) -> (r: String)
        ensures
            r@ == root_path_of(home@) + "/credentials"@,
    {
        let root = Config::root_path(home);
        concat(root.as_str(), "/credentials")
    }
}

} // verus!
