//! The configuration file's values and the precedence between command-line
//! flags, environment variables, the configuration file and defaults.

use vstd::prelude::*;
use crate::error::SentryCliError;
use crate::text::{owned, slice_chars, text_eq};

verus! {

#[derive(Debug)]
pub struct Config {
    pub default_org: Option<String>,
    pub server_url: Option<String>,
    pub auth_token: Option<String>,
    pub default_project: Option<String>,
}

impl Default for Config {
    fn default() -> (r: Config)
        ensures
            r.default_org is None,
            r.server_url is None,
            r.auth_token is None,
            r.default_project is None,
    {
        Config { default_org: None, server_url: None, auth_token: None, default_project: None }
    }
}

/// The first of three optional texts that is present.
pub open spec fn first_present(a: Option<Seq<char>>, b: Option<Seq<char>>, c: Option<Seq<char>>) -> Option<Seq<char>> {
    match a {
        Some(x) => Some(x),
        None => match b {
            Some(x) => Some(x),
            None => c,
        },
    }
}

/// The text that an optional string slice holds.
pub open spec fn opt_str(o: Option<&str>) -> Option<Seq<char>> {
    match o {
        Some(s) => Some(s@),
        None => None,
    }
}

/// The text that an optional string holds.
pub open spec fn opt_text(o: Option<String>) -> Option<Seq<char>> {
    match o {
        Some(s) => Some(s@),
        None => None,
    }
}

/// The first present of a flag, an environment value and a configured value.
fn pick(cli_override: Option<&str>, env_value: Option<String>, configured: &Option<String>) -> (r: Option<String>)
    ensures
        opt_text(r) == first_present(opt_str(cli_override), opt_text(env_value), opt_text(*configured)),
{
    match cli_override {
        Some(s) => Some(owned(s)),
        None => match env_value {
            Some(v) => Some(v),
            None => match configured {
                Some(c) => Some(c.clone()),
                None => None,
            },
        },
    }
}

/// The position of a configuration key among the values of `config_texts`:
/// `default_org`, `server_url`, `auth_token`, `default_project`.
pub open spec fn config_field(key: Seq<char>) -> Option<int> {
    if key == "default_org"@ {
        Some(0)
    } else if key == "server_url"@ {
        Some(1)
    } else if key == "auth_token"@ {
        Some(2)
    } else if key == "default_project"@ {
        Some(3)
    } else {
        None
    }
}

/// The configuration's values, in the order of `config_field`.
pub open spec fn config_texts(c: Config) -> Seq<Option<Seq<char>>> {
    seq![opt_text(c.default_org), opt_text(c.server_url), opt_text(c.auth_token), opt_text(c.default_project)]
}

impl Config {
    /// Sets the value of the key `key` (`config set KEY VALUE`); the other values
    /// stay. A key that names no value is a validation error that names it.
    pub fn set_value(&mut self, key: &str, value: &str) -> (r: Result<(), SentryCliError>)
        ensures
            match config_field(key@) {
                Some(f) => r is Ok && config_texts(*final(self)) == config_texts(*old(self)).update(f, Some(value@)),
                None => {
                    &&& r matches Err(SentryCliError::Validation(m))
                    &&& m@ == "Unknown config key: "@ + key@
                    &&& config_texts(*final(self)) == config_texts(*old(self))
                },
            },
    {
        if text_eq(key, "default_org") {
            self.default_org = Some(owned(value));
        } else if text_eq(key, "server_url") {
            self.server_url = Some(owned(value));
        } else if text_eq(key, "auth_token") {
            self.auth_token = Some(owned(value));
        } else if text_eq(key, "default_project") {
            self.default_project = Some(owned(value));
        } else {
            let mut m = owned("Unknown config key: ");
            m.append(key);
            return Err(SentryCliError::Validation(m));
        }
        assert(config_texts(*self) =~= config_texts(*old(self)).update(config_field(key@)->0, Some(value@)));
        Ok(())
    }

    /// Get auth token with priority: CLI flag > env var (`env_token`, the value of
    /// `SENTRY_AUTH_TOKEN`) > config file; an authentication error when none is set.
    pub fn get_auth_token(&self, cli_override: Option<&str>, env_token: Option<String>) -> (r: Result<String, SentryCliError>)
        ensures
            match first_present(opt_str(cli_override), opt_text(env_token), opt_text(self.auth_token)) {
                Some(t) => r matches Ok(x) && x@ == t,
                None => r matches Err(SentryCliError::Auth(m))
                    && m@ == "No auth token found. Set SENTRY_AUTH_TOKEN or configure in config file"@,
            },
    {
        match pick(cli_override, env_token, &self.auth_token) {
            Some(t) => Ok(t),
            None => Err(SentryCliError::Auth(
                owned("No auth token found. Set SENTRY_AUTH_TOKEN or configure in config file"),
            )),
        }
    }

    /// Get server URL with priority: CLI flag > env var (`env_url`, the value of
    /// `SENTRY_SERVER_URL`) > config file > `https://sentry.io`.
    pub fn get_server_url(&self, cli_override: Option<&str>, env_url: Option<String>) -> (r: String)
        ensures
            r@ == match first_present(opt_str(cli_override), opt_text(env_url), opt_text(self.server_url)) {
                Some(u) => u,
                None => "https://sentry.io"@,
            },
    {
        match pick(cli_override, env_url, &self.server_url) {
            Some(u) => u,
            None => owned("https://sentry.io"),
        }
    }

    /// Get organization with priority: CLI flag > env var (`env_org`, the value of
    /// `SENTRY_ORG`) > config file; a configuration error when none is set.
    pub fn get_org(&self, cli_override: Option<&str>, env_org: Option<String>) -> (r: Result<String, SentryCliError>)
        ensures
            match first_present(opt_str(cli_override), opt_text(env_org), opt_text(self.default_org)) {
                Some(o) => r matches Ok(x) && x@ == o,
                None => r matches Err(SentryCliError::Config(m))
                    && m@ == "No organization specified. Use --org or configure default_org"@,
            },
    {
        match pick(cli_override, env_org, &self.default_org) {
            Some(o) => Ok(o),
            None => Err(SentryCliError::Config(
                owned("No organization specified. Use --org or configure default_org"),
            )),
        }
    }
}

/// A value stored with `set_value` is what the getters read back when neither
/// a flag nor the environment gives one: the organization and the token for
/// their keys, and the server for `server_url`.
pub proof fn lemma_set_value_read_back(before: Config, after: Config, key: Seq<char>, value: Seq<char>)
    requires
        config_field(key) is Some,
        config_texts(after) == config_texts(before).update(config_field(key)->0, Some(value)),
    ensures
        key == "default_org"@ ==> first_present(None, None, opt_text(after.default_org)) == Some(value),
        key == "auth_token"@ ==> first_present(None, None, opt_text(after.auth_token)) == Some(value),
        key == "server_url"@ ==> first_present(None, None, opt_text(after.server_url)) == Some(value),
{
    assert(config_texts(after)[0] == opt_text(after.default_org));
    assert(config_texts(after)[1] == opt_text(after.server_url));
    assert(config_texts(after)[2] == opt_text(after.auth_token));
    reveal_strlit("default_org");
    reveal_strlit("server_url");
    reveal_strlit("auth_token");
    assert("auth_token"@.len() != "default_org"@.len());
    assert("server_url"@.len() != "default_org"@.len());
    assert("auth_token"@[0] != "server_url"@[0]);
}

/// A URL without its trailing `/`.
pub open spec fn strip_trailing_slashes(s: Seq<char>) -> Seq<char>
    decreases s.len(),
{
    if s.len() > 0 && s.last() == '/' {
        strip_trailing_slashes(s.drop_last())
    } else {
        s
    }
}

/// The server URL that API paths are appended to: the URL without its trailing
/// `/` (`str::trim_end_matches('/')`).
pub fn server_base(url: &str) -> (r: String)
    ensures
        r@ == strip_trailing_slashes(url@),
{
    let n = url.unicode_len();
    let mut j: usize = n;
    assert(url@.take(n as int) =~= url@);
    while j > 0 && url.get_char(j - 1) == '/'
        invariant
            n == url@.len(),
            j <= n,
            strip_trailing_slashes(url@) == strip_trailing_slashes(url@.take(j as int)),
        decreases j,
    {
        let ghost t = url@.take(j as int);
        assert(t.last() == '/');
        assert(t.drop_last() =~= url@.take(j - 1));
        j = j - 1;
    }
    proof {
        let t = url@.take(j as int);
        if j > 0 {
            assert(t.last() == url@[j - 1]);
        }
        assert(url@.subrange(0, j as int) =~= t);
    }
    slice_chars(url, 0, j)
}

} // verus!
