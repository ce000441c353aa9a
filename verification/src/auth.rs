//! The rules of user authentication that Core decides itself: which
//! password a user logs in with, what a new user may do, and which
//! third-party logins may be linked.
use crate::connection::optional_str;
use crate::paging::{timelength_in_ms, timelength_ms};
use vstd::prelude::*;

verus! {

/// The login providers.
#[derive(Clone, Copy, Debug, PartialEq, Eq, Hash, Structural)]
pub enum LoginProvider {
    Local,
    Github,
    Google,
    Oidc,
}

/// How a user logs in.
#[derive(Debug)]
pub enum UserConfig {
    Local { password: String },
    Github { github_id: String, avatar: String },
    Google { google_id: String, avatar: String },
    Oidc { provider: String, user_id: String },
    Service { description: String },
}

/// The provider of a login configuration; service users have none.
pub open spec fn provider_of(config: UserConfig) -> Option<LoginProvider> {
    match config {
        UserConfig::Local { .. } => Some(LoginProvider::Local),
        UserConfig::Github { .. } => Some(LoginProvider::Github),
        UserConfig::Google { .. } => Some(LoginProvider::Google),
        UserConfig::Oidc { .. } => Some(LoginProvider::Oidc),
        UserConfig::Service { .. } => None,
    }
}

/// What authentication reads of a user.
#[derive(Debug)]
pub struct AuthUser {
    pub id: String,
    pub username: String,
    /// The primary login.
    pub config: UserConfig,
    /// The local login linked beside another primary login, if any.
    pub linked_local: Option<UserConfig>,
    pub totp_secret: String,
    pub external_skip_2fa: bool,
}

/// The local password hash of a login configuration, if it is local
/// and the hash is set.
pub open spec fn local_password(config: UserConfig) -> Option<Seq<char>> {
    match config {
        UserConfig::Local { password } => if password@.len() == 0 {
            None
        } else {
            Some(password@)
        },
        _ => None,
    }
}

/// The view of an optional borrowed string.
pub open spec fn opt_view(s: Option<&str>) -> Option<Seq<char>> {
    match s {
        Some(s) => Some(s@),
        None => None,
    }
}

impl AuthUser {
    /// The hashed password the user logs in with: that of a local
    /// primary login, else that of a linked local login; unset when
    /// empty.
    pub fn hashed_password(&self) -> (p: Option<&str>)
        ensures
            opt_view(p) == match self.config {
                UserConfig::Local { .. } => local_password(self.config),
                _ => match self.linked_local {
                    Some(linked) => local_password(linked),
                    None => None,
                },
            },
    {
        match &self.config {
            UserConfig::Local { password } => optional_str(password.as_str()),
            _ => match &self.linked_local {
                Some(UserConfig::Local { password }) => optional_str(password.as_str()),
                _ => None,
            },
        }
    }

    /// The user's TOTP secret, unset when empty.
    pub fn totp_secret(&self) -> (s: Option<&str>)
        ensures
            self.totp_secret@.len() == 0 ==> s is None,
            self.totp_secret@.len() != 0 ==> opt_view(s) == Some(self.totp_secret@),
    {
        optional_str(self.totp_secret.as_str())
    }
}

/// What a newly signed-up user may do.
#[derive(Clone, Copy, Debug, PartialEq, Eq, Structural)]
pub struct NewUserFlags {
    pub enabled: bool,
    pub admin: bool,
    pub super_admin: bool,
}

/// Why linking a login was refused.
#[derive(Clone, Copy, Debug, PartialEq, Eq, Structural)]
pub enum LinkError {
    /// The user's primary login already uses this provider.
    PrimaryProvider(LoginProvider),
}

impl LoginProvider {
    /// The provider's name.
    pub open spec fn spec_name(self) -> Seq<char> {
        match self {
            LoginProvider::Local => "Local"@,
            LoginProvider::Github => "Github"@,
            LoginProvider::Google => "Google"@,
            LoginProvider::Oidc => "Oidc"@,
        }
    }

    /// The provider's name.
    pub fn name(&self) -> (n: &'static str)
        ensures
            n@ == self.spec_name(),
    {
        match self {
            LoginProvider::Local => "Local",
            LoginProvider::Github => "Github",
            LoginProvider::Google => "Google",
            LoginProvider::Oidc => "Oidc",
        }
    }
}

impl LinkError {
    /// The message shown for the error.
    pub fn message(&self) -> (m: String)
        ensures
            match *self {
                LinkError::PrimaryProvider(p) => m@ == "User is primary "@ + p.spec_name() + " user, cannot link another "@
                    + p.spec_name() + " login."@,
            },
    {
        match self {
            LinkError::PrimaryProvider(p) => {
                let name = p.name();
                "User is primary ".to_owned().concat(name).concat(" user, cannot link another ").concat(name).concat(
                    " login.",
                )
            },
        }
    }
}

/// Core's implementation of the authentication rules.
pub struct KomodoAuthImpl;

impl KomodoAuthImpl {
    /// The implementation.
    pub fn new() -> (a: KomodoAuthImpl) {
        KomodoAuthImpl
    }

    /// The name shown by authenticator apps and passkeys.
    pub fn app_name(&self) -> (name: &'static str)
        ensures
            name@ == "Komodo"@,
    {
        "Komodo"
    }

    /// Where a user lands after linking a login: the profile page.
    pub fn post_link_redirect(&self, host: &str) -> (url: String)
        ensures
            url@ == host@ + "/profile"@,
    {
        host.to_owned().concat("/profile")
    }

    /// The first user to sign up becomes an enabled super admin; later
    /// users are enabled only when the configuration enables new users.
    pub fn new_user_flags(&self, no_users_exist: bool, enable_new_users: bool) -> (flags: NewUserFlags)
        ensures
            flags == (NewUserFlags {
                enabled: no_users_exist || enable_new_users,
                admin: no_users_exist,
                super_admin: no_users_exist,
            }),
    {
        NewUserFlags { enabled: no_users_exist || enable_new_users, admin: no_users_exist, super_admin: no_users_exist }
    }

    /// Whether a third-party login may be linked to a user: not when
    /// the user's primary login already uses the same provider.
    pub fn check_link(&self, primary: &UserConfig, provider: LoginProvider) -> (r: Result<(), LinkError>)
        ensures
            provider_of(*primary) == Some(provider) ==> r == Err::<(), LinkError>(LinkError::PrimaryProvider(provider)),
            provider_of(*primary) != Some(provider) ==> r is Ok,
    {
        let same = match (primary, provider) {
            (UserConfig::Local { .. }, LoginProvider::Local) => true,
            (UserConfig::Github { .. }, LoginProvider::Github) => true,
            (UserConfig::Google { .. }, LoginProvider::Google) => true,
            (UserConfig::Oidc { .. }, LoginProvider::Oidc) => true,
            _ => false,
        };
        if same {
            Err(LinkError::PrimaryProvider(provider))
        } else {
            Ok(())
        }
    }
}

/// The secret login tokens are signed with: the configured one, else
/// the random one supplied.
pub fn jwt_secret(configured: &str, random: &str) -> (secret: String)
    ensures
        secret@ == if configured@.len() == 0 {
            random@
        } else {
            configured@
        },
{
    if configured.unicode_len() == 0 {
        random.to_owned()
    } else {
        configured.to_owned()
    }
}

/// How long a login token lives, in milliseconds: the configured
/// timelength, one day where it names none.
pub fn jwt_ttl_ms(jwt_ttl: &str) -> (ms: u128)
    ensures
        ms as int == match timelength_ms(jwt_ttl@) {
            Some(m) => m,
            None => 86_400_000,
        },
{
    match timelength_in_ms(jwt_ttl) {
        Some(ms) => ms,
        None => match timelength_in_ms("1-day") {
            Some(ms) => ms,
            None => 86_400_000,
        },
    }
}

} // verus!
