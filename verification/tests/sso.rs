use hudwiz::server::auth::UserInfo;
use hudwiz::server::sso::{provider_named, GoogleUserInfo, MicrosoftUserInfo, SsoProviderKind};

#[test]
fn providers_are_found_by_name() {
    assert_eq!(provider_named("google"), Some(SsoProviderKind::Google));
    assert_eq!(provider_named("microsoft"), Some(SsoProviderKind::Microsoft));
    assert_eq!(provider_named("apple"), None);
    assert_eq!(provider_named("Google"), None);
    assert_eq!(provider_named(""), None);
    for kind in [SsoProviderKind::Google, SsoProviderKind::Microsoft] {
        assert_eq!(provider_named(kind.name()), Some(kind));
    }
}

#[test]
fn google_is_asked_for_three_scopes() {
    let google = SsoProviderKind::Google;
    assert_eq!(google.scopes(), vec!["openid", "profile", "email"]);
    assert_eq!(google.auth_url(), "https://accounts.google.com/o/oauth2/v2/auth");
    assert_eq!(google.token_url(), "https://www.googleapis.com/oauth2/v4/token");
    assert_eq!(google.user_info_url(), "https://www.googleapis.com/oauth2/v3/userinfo");
}

#[test]
fn microsoft_is_asked_for_the_profile_too() {
    let microsoft = SsoProviderKind::Microsoft;
    assert_eq!(microsoft.scopes(), vec!["openid", "profile", "email", "User.Read"]);
    assert_eq!(
        microsoft.auth_url(),
        "https://login.microsoftonline.com/common/oauth2/v2.0/authorize"
    );
    assert_eq!(
        microsoft.token_url(),
        "https://login.microsoftonline.com/common/oauth2/v2.0/token"
    );
    assert_eq!(microsoft.user_info_url(), "https://graph.microsoft.com/v1.0/me");
}

#[test]
fn google_profile_becomes_user_info() {
    let profile = GoogleUserInfo {
        sub: "1234567890".to_string(),
        name: "Ada Lovelace".to_string(),
        email: "ada@example.test".to_string(),
    };
    assert_eq!(
        profile.user_info(),
        UserInfo {
            id: "1234567890".to_string(),
            name: "Ada Lovelace".to_string(),
            email: "ada@example.test".to_string(),
        }
    );
}

#[test]
fn microsoft_email_falls_back_to_the_principal_name() {
    let profile = |mail: Option<&str>, upn: Option<&str>| MicrosoftUserInfo {
        id: "id-7".to_string(),
        display_name: "Grace Hopper".to_string(),
        mail: mail.map(str::to_string),
        user_principal_name: upn.map(str::to_string),
    };
    let email = |mail, upn| profile(mail, upn).user_info().email;
    assert_eq!(email(Some("grace@example.test"), Some("ghopper@corp.test")), "grace@example.test");
    assert_eq!(email(Some("grace@example.test"), None), "grace@example.test");
    assert_eq!(email(None, Some("ghopper@corp.test")), "ghopper@corp.test");
    assert_eq!(email(None, None), "");
    let info = profile(None, None).user_info();
    assert_eq!((info.id.as_str(), info.name.as_str()), ("id-7", "Grace Hopper"));
}
