//! Single sign-on: which providers there are, what each is asked for, and
//! how the profile that a provider returns becomes a [`UserInfo`].
//!
//! The exchange with a provider is a series of requests to an outside
//! service and is not made here.

use crate::server::auth::{UserInfo, UserInfoView};
use vstd::prelude::*;

verus! {

/// The providers that users can sign in with.
#[derive(Debug, Clone, Copy, PartialEq, Eq, Hash, Structural)]
pub enum SsoProviderKind {
    Google,
    Microsoft,
}

/// The provider that goes by `name`, if there is one.
pub open spec fn provider_spec(name: Seq<char>) -> Option<SsoProviderKind> {
    if name == "google"@ {
        Some(SsoProviderKind::Google)
    } else if name == "microsoft"@ {
        Some(SsoProviderKind::Microsoft)
    } else {
        None
    }
}

/// The scopes that are asked of each provider, in the order in which they
/// are asked.
pub open spec fn scopes_spec(provider: SsoProviderKind) -> Seq<Seq<char>> {
    match provider {
        SsoProviderKind::Google => seq!["openid"@, "profile"@, "email"@],
        SsoProviderKind::Microsoft => seq!["openid"@, "profile"@, "email"@, "User.Read"@],
    }
}

/// The scopes of a list, as a mathematical value.
pub open spec fn scope_views(scopes: Seq<&'static str>) -> Seq<Seq<char>> {
    Seq::new(scopes.len(), |i: int| scopes[i]@)
}

/// Finds a provider by the name under which it appears in addresses.
pub fn provider_named(name: &str) -> (provider: Option<SsoProviderKind>)
    ensures
        provider == provider_spec(name@),
{
    let name = name.to_owned();
    if name == "google".to_owned() {
        Some(SsoProviderKind::Google)
    } else if name == "microsoft".to_owned() {
        Some(SsoProviderKind::Microsoft)
    } else {
        None
    }
}

impl SsoProviderKind {
    /// The name under which the provider appears in addresses.
    pub fn name(&self) -> (name: &'static str)
        ensures
            provider_spec(name@) == Some(*self),
    {
        match self {
            SsoProviderKind::Google => "google",
            SsoProviderKind::Microsoft => {
                proof {
                    reveal_strlit("google");
                    reveal_strlit("microsoft");
                    assert("microsoft"@.len() != "google"@.len());
                }
                "microsoft"
            },
        }
    }

    /// Where users are sent to sign in.
    pub fn auth_url(&self) -> (url: &'static str)
        ensures
            url@ == match *self {
                SsoProviderKind::Google => "https://accounts.google.com/o/oauth2/v2/auth"@,
                SsoProviderKind::Microsoft => "https://login.microsoftonline.com/common/oauth2/v2.0/authorize"@,
            },
    {
        match self {
            SsoProviderKind::Google => "https://accounts.google.com/o/oauth2/v2/auth",
            SsoProviderKind::Microsoft => "https://login.microsoftonline.com/common/oauth2/v2.0/authorize",
        }
    }

    /// Where an authorization code is exchanged for a token.
    pub fn token_url(&self) -> (url: &'static str)
        ensures
            url@ == match *self {
                SsoProviderKind::Google => "https://www.googleapis.com/oauth2/v4/token"@,
                SsoProviderKind::Microsoft => "https://login.microsoftonline.com/common/oauth2/v2.0/token"@,
            },
    {
        match self {
            SsoProviderKind::Google => "https://www.googleapis.com/oauth2/v4/token",
            SsoProviderKind::Microsoft => "https://login.microsoftonline.com/common/oauth2/v2.0/token",
        }
    }

    /// Where the profile of the signed-in user is fetched.
    pub fn user_info_url(&self) -> (url: &'static str)
        ensures
            url@ == match *self {
                SsoProviderKind::Google => "https://www.googleapis.com/oauth2/v3/userinfo"@,
                SsoProviderKind::Microsoft => "https://graph.microsoft.com/v1.0/me"@,
            },
    {
        match self {
            SsoProviderKind::Google => "https://www.googleapis.com/oauth2/v3/userinfo",
            SsoProviderKind::Microsoft => "https://graph.microsoft.com/v1.0/me",
        }
    }

    /// The scopes that are asked of the provider.
    pub fn scopes(&self) -> (scopes: Vec<&'static str>)
        ensures
            scope_views(scopes@) == scopes_spec(*self),
    {
        let mut scopes: Vec<&'static str> = Vec::new();
        scopes.push("openid");
        scopes.push("profile");
        scopes.push("email");
        match self {
            SsoProviderKind::Google => {},
            SsoProviderKind::Microsoft => {
                scopes.push("User.Read");
            },
        }
        assert(scope_views(scopes@) =~= scopes_spec(*self));
        scopes
    }
}

/// The profile that Google returns.
#[derive(Debug)]
pub struct GoogleUserInfo {
    pub sub: String,
    pub name: String,
    pub email: String,
}

/// The profile that Microsoft returns.
#[derive(Debug)]
pub struct MicrosoftUserInfo {
    pub id: String,
    pub display_name: String,
    pub mail: Option<String>,
    pub user_principal_name: Option<String>,
}

/// The address under which a Microsoft user is known: the mail address where
/// the profile has one, else the principal name, else nothing.
pub open spec fn microsoft_email(
    mail: Option<Seq<char>>,
    user_principal_name: Option<Seq<char>>,
) -> Seq<char> {
    match mail {
        Some(mail) => mail,
        None => match user_principal_name {
            Some(name) => name,
            None => Seq::empty(),
        },
    }
}

/// The view of a text that may be missing.
pub open spec fn text_view(text: Option<String>) -> Option<Seq<char>> {
    match text {
        Some(text) => Some(text@),
        None => None,
    }
}

impl GoogleUserInfo {
    /// What the application learns about the user: the subject as id, the
    /// name and the email address as they are.
    pub fn user_info(self) -> (info: UserInfo)
        ensures
            info@ == (UserInfoView { id: self.sub@, name: self.name@, email: self.email@ }),
    {
        UserInfo { id: self.sub, name: self.name, email: self.email }
    }
}

impl MicrosoftUserInfo {
    /// What the application learns about the user: the id, the display name,
    /// and as email address the first that the profile has of mail address
    /// and principal name.
    pub fn user_info(self) -> (info: UserInfo)
        ensures
            info@ == (UserInfoView {
                id: self.id@,
                name: self.display_name@,
                email: microsoft_email(
                    text_view(self.mail),
                    text_view(self.user_principal_name),
                ),
            }),
    {
        let email = match self.mail {
            Some(mail) => mail,
            None => match self.user_principal_name {
                Some(name) => name,
                None => String::new(),
            },
        };
        UserInfo { id: self.id, name: self.display_name, email }
    }
}

} // verus!
