//! The stack's construction-time settings, and the setter calls they make.
use vstd::prelude::*;
use vstd::string::StrSliceExecFns;

use crate::error::{BridgeError, ConfigField};

verus! {

/// Settings for a new stack; a field left unset keeps the stack's default.
pub struct Config {
    pub dir: Option<String>,
    pub hostname: Option<String>,
    pub auth_key: Option<String>,
    pub control_url: Option<String>,
    pub ephemeral: Option<bool>,
}

/// One setter call to make on a freshly created stack.
#[derive(PartialEq, Eq, Debug)]
pub enum Setting {
    Dir(String),
    Hostname(String),
    AuthKey(String),
    ControlUrl(String),
    Ephemeral(bool),
}

/// A string that the native string boundary can carry: one without a zero character.
pub open spec fn passable(s: Seq<char>) -> bool {
    !s.contains('\0')
}

pub open spec fn field_ok(o: Option<String>) -> bool {
    match o {
        Some(s) => passable(s@),
        None => true,
    }
}

/// The first field, in declaration order, that cannot be passed on.
pub open spec fn first_bad_field(c: Config) -> Option<ConfigField> {
    if !field_ok(c.dir) {
        Some(ConfigField::Dir)
    } else if !field_ok(c.hostname) {
        Some(ConfigField::Hostname)
    } else if !field_ok(c.auth_key) {
        Some(ConfigField::AuthKey)
    } else if !field_ok(c.control_url) {
        Some(ConfigField::ControlUrl)
    } else {
        None
    }
}

pub open spec fn one_if<T>(o: Option<T>, f: spec_fn(T) -> Setting) -> Seq<Setting> {
    match o {
        Some(x) => seq![f(x)],
        None => Seq::empty(),
    }
}

/// The setter calls for a configuration: one per field that is set, in
/// declaration order.
pub open spec fn settings_of(c: Config) -> Seq<Setting> {
    one_if(c.dir, |s: String| Setting::Dir(s))
        + one_if(c.hostname, |s: String| Setting::Hostname(s))
        + one_if(c.auth_key, |s: String| Setting::AuthKey(s))
        + one_if(c.control_url, |s: String| Setting::ControlUrl(s))
        + one_if(c.ephemeral, |b: bool| Setting::Ephemeral(b))
}

/// Whether the string holds a zero character.
pub fn has_terminator(s: &str) -> (r: bool)
    ensures
        r == !passable(s@),
{
    let n = s.unicode_len();
    let mut i: usize = 0;
    while i < n
        invariant
            n == s@.len(),
            0 <= i <= n,
            forall|j: int| 0 <= j < i ==> s@[j] != '\0',
        decreases n - i,
    {
        if s.get_char(i) == '\0' {
            assert(s@.contains('\0'));
            return true;
        }
        i = i + 1;
    }
    false
}

fn check_field(o: &Option<String>) -> (r: bool)
    ensures
        r == field_ok(*o),
{
    match o {
        Some(s) => !has_terminator(s.as_str()),
        None => true,
    }
}

impl Config {
    /// A configuration with every field unset.
    pub fn empty() -> (r: Config)
        ensures
            r.dir is None,
            r.hostname is None,
            r.auth_key is None,
            r.control_url is None,
            r.ephemeral is None,
    {
        Config { dir: None, hostname: None, auth_key: None, control_url: None, ephemeral: None }
    }

    /// The setter calls that apply this configuration, or the first field
    /// that cannot be passed to the stack.
    pub fn settings(self) -> (r: Result<Vec<Setting>, BridgeError>)
        ensures
            match first_bad_field(self) {
                Some(f) => r == Err::<Vec<Setting>, BridgeError>(BridgeError::ConfigurationError(f)),
                None => r is Ok && r->Ok_0@ == settings_of(self),
            },
    {
        if !check_field(&self.dir) {
            return Err(BridgeError::ConfigurationError(ConfigField::Dir));
        }
        if !check_field(&self.hostname) {
            return Err(BridgeError::ConfigurationError(ConfigField::Hostname));
        }
        if !check_field(&self.auth_key) {
            return Err(BridgeError::ConfigurationError(ConfigField::AuthKey));
        }
        if !check_field(&self.control_url) {
            return Err(BridgeError::ConfigurationError(ConfigField::ControlUrl));
        }
        let ghost c = self;
        let mut v: Vec<Setting> = Vec::new();
        if let Some(s) = self.dir {
            v.push(Setting::Dir(s));
        }
        assert(v@ =~= one_if(c.dir, |s: String| Setting::Dir(s)));
        if let Some(s) = self.hostname {
            v.push(Setting::Hostname(s));
        }
        assert(v@ =~= one_if(c.dir, |s: String| Setting::Dir(s))
            + one_if(c.hostname, |s: String| Setting::Hostname(s)));
        if let Some(s) = self.auth_key {
            v.push(Setting::AuthKey(s));
        }
        assert(v@ =~= one_if(c.dir, |s: String| Setting::Dir(s))
            + one_if(c.hostname, |s: String| Setting::Hostname(s))
            + one_if(c.auth_key, |s: String| Setting::AuthKey(s)));
        if let Some(s) = self.control_url {
            v.push(Setting::ControlUrl(s));
        }
        assert(v@ =~= one_if(c.dir, |s: String| Setting::Dir(s))
            + one_if(c.hostname, |s: String| Setting::Hostname(s))
            + one_if(c.auth_key, |s: String| Setting::AuthKey(s))
            + one_if(c.control_url, |s: String| Setting::ControlUrl(s)));
        if let Some(b) = self.ephemeral {
            v.push(Setting::Ephemeral(b));
        }
        assert(v@ =~= settings_of(c));
        Ok(v)
    }
}

/// A configuration with every field unset passes the stack's string boundary
/// and makes no setter call, so construction from it always succeeds.
pub proof fn lemma_empty_config_constructs(c: Config)
    requires
        c.dir is None,
        c.hostname is None,
        c.auth_key is None,
        c.control_url is None,
        c.ephemeral is None,
    ensures
        first_bad_field(c) is None,
        settings_of(c) =~= Seq::<Setting>::empty(),
{
}

} // verus!
