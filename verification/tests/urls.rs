use slashook::structs::members::{GuildMember, GuildMemberFlags};
use slashook::structs::users::User;
use slashook::structs::Emoji;
use slashook::structs::guilds::GuildOnboardingPrompt;

fn user(id: &str, discriminator: &str, avatar: Option<&str>) -> User {
    User {
        id: String::from(id),
        username: String::from("someone"),
        discriminator: String::from(discriminator),
        global_name: None,
        avatar: avatar.map(String::from),
        bot: None,
        system: None,
        mfa_enabled: None,
        banner: None,
        accent_color: None,
        locale: None,
        verified: None,
        email: None,
        flags: None,
        premium_type: None,
        public_flags: None,
        avatar_decoration_data: None,
    }
}

fn member(u: Option<User>, avatar: Option<&str>) -> GuildMember {
    GuildMember {
        user: u,
        nick: None,
        avatar: avatar.map(String::from),
        banner: None,
        roles: Vec::new(),
        joined_at: String::from("2024-01-01T00:00:00Z"),
        premium_since: None,
        deaf: None,
        mute: None,
        flags: GuildMemberFlags::empty(),
        pending: None,
        permissions: None,
        communication_disabled_until: None,
        avatar_decoration_data: None,
    }
}

#[test]
fn user_avatar_urls() {
    let u = user("80351110224678912", "1337", Some("8342729096ea3675442027381ff50dfe"));
    assert_eq!(
        u.avatar_url("png", "128"),
        Some(String::from("https://cdn.discordapp.com/avatars/80351110224678912/8342729096ea3675442027381ff50dfe.png?size=128"))
    );
    assert_eq!(u.default_avatar_url(), "https://cdn.discordapp.com/embed/avatars/2.png");
    assert_eq!(u.mention(), "<@80351110224678912>");
}

#[test]
fn default_avatar_from_id() {
    let u = user("80351110224678912", "0", None);
    assert_eq!(u.default_avatar_url(), format!("https://cdn.discordapp.com/embed/avatars/{}.png", (80351110224678912u64 >> 22) % 6));
    assert_eq!(u.display_avatar_url("png", "64"), u.default_avatar_url());
    let bad = user("not-a-number", "0", None);
    assert_eq!(bad.default_avatar_url(), "https://cdn.discordapp.com/embed/avatars/0.png");
    let bad = user("1", "xyz", None);
    assert_eq!(bad.default_avatar_url(), "https://cdn.discordapp.com/embed/avatars/0.png");
}

#[test]
fn member_avatar_urls() {
    let m = member(Some(user("5", "0", Some("userhash"))), Some("a_memberhash"));
    assert_eq!(
        m.avatar_url("9", "5", "png", Some("gif"), "256"),
        Some(String::from("https://cdn.discordapp.com/guilds/9/users/5/avatars/a_memberhash.gif?size=256&animated=true"))
    );
    assert_eq!(
        m.display_avatar_url("9", "png", None, "256"),
        Some(String::from("https://cdn.discordapp.com/guilds/9/users/5/avatars/a_memberhash.png?size=256&animated=false"))
    );
    let plain = member(Some(user("5", "0", Some("userhash"))), None);
    assert_eq!(
        plain.display_avatar_url("9", "png", None, "256"),
        Some(String::from("https://cdn.discordapp.com/avatars/5/userhash.png?size=256"))
    );
    assert_eq!(member(None, Some("x")).display_avatar_url("9", "png", None, "256"), None);
    let u = user("5", "0", None);
    assert_eq!(
        u.display_avatar_url_with_member("png", "64", "9", member(None, Some("mh"))),
        "https://cdn.discordapp.com/guilds/9/users/5/avatars/mh.png?size=64&animated=false"
    );
}

#[test]
fn emoji_url_format() {
    assert_eq!(Emoji::new_custom_emoji("1", "x", false).to_url_format(), "x:1");
    assert_eq!(Emoji::new_standard_emoji("👍").to_url_format(), "👍");
}

#[test]
fn onboarding_prompt_gets_time_id() {
    let p = GuildOnboardingPrompt::new();
    assert!(p.id.parse::<i64>().is_ok());
    assert!(p.in_onboarding);
}

#[test]
fn default_avatar_small_id() {
    let u = user("4194304", "0", None);
    assert_eq!(u.default_avatar_url(), "https://cdn.discordapp.com/embed/avatars/1.png");
}
