//! The routes of Discord's API that the library's resources are read and changed at.
//! Each is a path below [`API_URL`](super::API_URL); ids are written as given, `@me` names the current user.

use vstd::prelude::*;
use crate::structs::Emoji;
use crate::structs::emoji_url_format;
use crate::text::{int_text, i64_to_string, push_str, string_of};

verus! {

/// The global commands of an application, overwritten in bulk: `/applications/{application_id}/commands`
pub fn application_commands(application_id: &str) -> (r: String)
    ensures
        r@ == "/applications/"@ + application_id@ + "/commands"@,
{
    let mut s = string_of("/applications/");
    push_str(&mut s, application_id);
    push_str(&mut s, "/commands");
    s
}

/// The commands of an application in a guild, overwritten in bulk: `/applications/{application_id}/guilds/{guild_id}/commands`
pub fn application_guild_commands(application_id: &str, guild_id: &str) -> (r: String)
    ensures
        r@ == "/applications/"@ + application_id@ + "/guilds/"@ + guild_id@ + "/commands"@,
{
    let mut s = string_of("/applications/");
    push_str(&mut s, application_id);
    push_str(&mut s, "/guilds/");
    push_str(&mut s, guild_id);
    push_str(&mut s, "/commands");
    s
}

/// The entitlements of an application: `applications/{application_id}/entitlements`
pub fn application_entitlements(application_id: &str) -> (r: String)
    ensures
        r@ == "applications/"@ + application_id@ + "/entitlements"@,
{
    let mut s = string_of("applications/");
    push_str(&mut s, application_id);
    push_str(&mut s, "/entitlements");
    s
}

/// One entitlement of an application: `applications/{application_id}/entitlements/{entitlement_id}`
pub fn application_entitlement(application_id: &str, entitlement_id: &str) -> (r: String)
    ensures
        r@ == "applications/"@ + application_id@ + "/entitlements/"@ + entitlement_id@,
{
    let mut s = string_of("applications/");
    push_str(&mut s, application_id);
    push_str(&mut s, "/entitlements/");
    push_str(&mut s, entitlement_id);
    s
}

/// The SKUs of an application: `applications/{application_id}/skus`
pub fn application_skus(application_id: &str) -> (r: String)
    ensures
        r@ == "applications/"@ + application_id@ + "/skus"@,
{
    let mut s = string_of("applications/");
    push_str(&mut s, application_id);
    push_str(&mut s, "/skus");
    s
}

/// A channel: `channels/{channel_id}`
pub fn channel(channel_id: &str) -> (r: String)
    ensures
        r@ == "channels/"@ + channel_id@,
{
    let mut s = string_of("channels/");
    push_str(&mut s, channel_id);
    s
}

/// The followers of an announcement channel: `channels/{channel_id}/followers`
pub fn channel_followers(channel_id: &str) -> (r: String)
    ensures
        r@ == "channels/"@ + channel_id@ + "/followers"@,
{
    let mut s = string_of("channels/");
    push_str(&mut s, channel_id);
    push_str(&mut s, "/followers");
    s
}

/// The invites of a channel: `channels/{channel_id}/invites`
pub fn channel_invites(channel_id: &str) -> (r: String)
    ensures
        r@ == "channels/"@ + channel_id@ + "/invites"@,
{
    let mut s = string_of("channels/");
    push_str(&mut s, channel_id);
    push_str(&mut s, "/invites");
    s
}

/// The messages of a channel: `channels/{channel_id}/messages`
pub fn channel_messages(channel_id: &str) -> (r: String)
    ensures
        r@ == "channels/"@ + channel_id@ + "/messages"@,
{
    let mut s = string_of("channels/");
    push_str(&mut s, channel_id);
    push_str(&mut s, "/messages");
    s
}

/// The bulk deletion of messages in a channel: `channels/{channel_id}/messages/bulk-delete`
pub fn channel_bulk_delete(channel_id: &str) -> (r: String)
    ensures
        r@ == "channels/"@ + channel_id@ + "/messages/bulk-delete"@,
{
    let mut s = string_of("channels/");
    push_str(&mut s, channel_id);
    push_str(&mut s, "/messages/bulk-delete");
    s
}

/// A message in a channel: `channels/{channel_id}/messages/{message_id}`
pub fn channel_message(channel_id: &str, message_id: &str) -> (r: String)
    ensures
        r@ == "channels/"@ + channel_id@ + "/messages/"@ + message_id@,
{
    let mut s = string_of("channels/");
    push_str(&mut s, channel_id);
    push_str(&mut s, "/messages/");
    push_str(&mut s, message_id);
    s
}

/// The crossposting of a message: `channels/{channel_id}/messages/{message_id}/crosspost`
pub fn message_crosspost(channel_id: &str, message_id: &str) -> (r: String)
    ensures
        r@ == "channels/"@ + channel_id@ + "/messages/"@ + message_id@ + "/crosspost"@,
{
    let mut s = string_of("channels/");
    push_str(&mut s, channel_id);
    push_str(&mut s, "/messages/");
    push_str(&mut s, message_id);
    push_str(&mut s, "/crosspost");
    s
}

/// All reactions on a message: `channels/{channel_id}/messages/{message_id}/reactions`
pub fn message_reactions(channel_id: &str, message_id: &str) -> (r: String)
    ensures
        r@ == "channels/"@ + channel_id@ + "/messages/"@ + message_id@ + "/reactions"@,
{
    let mut s = string_of("channels/");
    push_str(&mut s, channel_id);
    push_str(&mut s, "/messages/");
    push_str(&mut s, message_id);
    push_str(&mut s, "/reactions");
    s
}

/// The reactions with one emoji on a message: `channels/{channel_id}/messages/{message_id}/reactions/{emoji}`
pub fn message_emoji_reactions(channel_id: &str, message_id: &str, emoji: &Emoji) -> (r: String)
    ensures
        r@ == "channels/"@ + channel_id@ + "/messages/"@ + message_id@ + "/reactions/"@ + emoji_url_format(*emoji),
{
    let mut s = string_of("channels/");
    push_str(&mut s, channel_id);
    push_str(&mut s, "/messages/");
    push_str(&mut s, message_id);
    push_str(&mut s, "/reactions/");
    let e = emoji.to_url_format();
    push_str(&mut s, e.as_str());
    s
}

/// The current user's reaction with one emoji on a message: `channels/{channel_id}/messages/{message_id}/reactions/{emoji}/@me`
pub fn message_own_reaction(channel_id: &str, message_id: &str, emoji: &Emoji) -> (r: String)
    ensures
        r@ == "channels/"@ + channel_id@ + "/messages/"@ + message_id@ + "/reactions/"@ + emoji_url_format(*emoji) + "/@me"@,
{
    let mut s = string_of("channels/");
    push_str(&mut s, channel_id);
    push_str(&mut s, "/messages/");
    push_str(&mut s, message_id);
    push_str(&mut s, "/reactions/");
    let e = emoji.to_url_format();
    push_str(&mut s, e.as_str());
    push_str(&mut s, "/@me");
    s
}

/// A user's reaction with one emoji on a message: `channels/{channel_id}/messages/{message_id}/reactions/{emoji}/{user_id}`
pub fn message_user_reaction(channel_id: &str, message_id: &str, emoji: &Emoji, user_id: &str) -> (r: String)
    ensures
        r@ == "channels/"@ + channel_id@ + "/messages/"@ + message_id@ + "/reactions/"@ + emoji_url_format(*emoji) + "/"@ + user_id@,
{
    let mut s = string_of("channels/");
    push_str(&mut s, channel_id);
    push_str(&mut s, "/messages/");
    push_str(&mut s, message_id);
    push_str(&mut s, "/reactions/");
    let e = emoji.to_url_format();
    push_str(&mut s, e.as_str());
    push_str(&mut s, "/");
    push_str(&mut s, user_id);
    s
}

/// The thread started from a message: `channels/{channel_id}/messages/{message_id}/threads`
pub fn message_threads(channel_id: &str, message_id: &str) -> (r: String)
    ensures
        r@ == "channels/"@ + channel_id@ + "/messages/"@ + message_id@ + "/threads"@,
{
    let mut s = string_of("channels/");
    push_str(&mut s, channel_id);
    push_str(&mut s, "/messages/");
    push_str(&mut s, message_id);
    push_str(&mut s, "/threads");
    s
}

/// A permission overwrite of a channel: `channels/{channel_id}/permissions/{overwrite_id}`
pub fn channel_permission(channel_id: &str, overwrite_id: &str) -> (r: String)
    ensures
        r@ == "channels/"@ + channel_id@ + "/permissions/"@ + overwrite_id@,
{
    let mut s = string_of("channels/");
    push_str(&mut s, channel_id);
    push_str(&mut s, "/permissions/");
    push_str(&mut s, overwrite_id);
    s
}

/// The pinned messages of a channel: `channels/{channel_id}/pins`
pub fn channel_pins(channel_id: &str) -> (r: String)
    ensures
        r@ == "channels/"@ + channel_id@ + "/pins"@,
{
    let mut s = string_of("channels/");
    push_str(&mut s, channel_id);
    push_str(&mut s, "/pins");
    s
}

/// A pinned message of a channel: `channels/{channel_id}/pins/{message_id}`
pub fn channel_pin(channel_id: &str, message_id: &str) -> (r: String)
    ensures
        r@ == "channels/"@ + channel_id@ + "/pins/"@ + message_id@,
{
    let mut s = string_of("channels/");
    push_str(&mut s, channel_id);
    push_str(&mut s, "/pins/");
    push_str(&mut s, message_id);
    s
}

/// The voters for one answer of a poll: `channels/{channel_id}/polls/{message_id}/answers/{answer_id}`
pub fn poll_answer_voters(channel_id: &str, message_id: &str, answer_id: i64) -> (r: String)
    ensures
        r@ == "channels/"@ + channel_id@ + "/polls/"@ + message_id@ + "/answers/"@ + int_text(answer_id as int),
{
    let mut s = string_of("channels/");
    push_str(&mut s, channel_id);
    push_str(&mut s, "/polls/");
    push_str(&mut s, message_id);
    push_str(&mut s, "/answers/");
    let a = i64_to_string(answer_id);
    push_str(&mut s, a.as_str());
    s
}

/// The ending of a poll: `channels/{channel_id}/polls/{message_id}/expire`
pub fn poll_expire(channel_id: &str, message_id: &str) -> (r: String)
    ensures
        r@ == "channels/"@ + channel_id@ + "/polls/"@ + message_id@ + "/expire"@,
{
    let mut s = string_of("channels/");
    push_str(&mut s, channel_id);
    push_str(&mut s, "/polls/");
    push_str(&mut s, message_id);
    push_str(&mut s, "/expire");
    s
}

/// The members of a thread: `channels/{channel_id}/thread-members`
pub fn channel_thread_members(channel_id: &str) -> (r: String)
    ensures
        r@ == "channels/"@ + channel_id@ + "/thread-members"@,
{
    let mut s = string_of("channels/");
    push_str(&mut s, channel_id);
    push_str(&mut s, "/thread-members");
    s
}

/// A member of a thread; `@me` names the current user: `channels/{channel_id}/thread-members/{user_id}`
pub fn channel_thread_member(channel_id: &str, user_id: &str) -> (r: String)
    ensures
        r@ == "channels/"@ + channel_id@ + "/thread-members/"@ + user_id@,
{
    let mut s = string_of("channels/");
    push_str(&mut s, channel_id);
    push_str(&mut s, "/thread-members/");
    push_str(&mut s, user_id);
    s
}

/// The threads started in a channel without a message: `channels/{channel_id}/threads`
pub fn channel_threads(channel_id: &str) -> (r: String)
    ensures
        r@ == "channels/"@ + channel_id@ + "/threads"@,
{
    let mut s = string_of("channels/");
    push_str(&mut s, channel_id);
    push_str(&mut s, "/threads");
    s
}

/// The archived private threads of a channel: `channels/{channel_id}/threads/archived/private`
pub fn channel_private_archived_threads(channel_id: &str) -> (r: String)
    ensures
        r@ == "channels/"@ + channel_id@ + "/threads/archived/private"@,
{
    let mut s = string_of("channels/");
    push_str(&mut s, channel_id);
    push_str(&mut s, "/threads/archived/private");
    s
}

/// The archived public threads of a channel: `channels/{channel_id}/threads/archived/public`
pub fn channel_public_archived_threads(channel_id: &str) -> (r: String)
    ensures
        r@ == "channels/"@ + channel_id@ + "/threads/archived/public"@,
{
    let mut s = string_of("channels/");
    push_str(&mut s, channel_id);
    push_str(&mut s, "/threads/archived/public");
    s
}

/// The typing indicator of a channel: `channels/{channel_id}/typing`
pub fn channel_typing(channel_id: &str) -> (r: String)
    ensures
        r@ == "channels/"@ + channel_id@ + "/typing"@,
{
    let mut s = string_of("channels/");
    push_str(&mut s, channel_id);
    push_str(&mut s, "/typing");
    s
}

/// The archived private threads of a channel that the current user has joined: `channels/{channel_id}/users/@me/threads/archived/private`
pub fn channel_joined_private_archived_threads(channel_id: &str) -> (r: String)
    ensures
        r@ == "channels/"@ + channel_id@ + "/users/@me/threads/archived/private"@,
{
    let mut s = string_of("channels/");
    push_str(&mut s, channel_id);
    push_str(&mut s, "/users/@me/threads/archived/private");
    s
}

/// A guild: `guilds/{guild_id}`
pub fn guild(guild_id: &str) -> (r: String)
    ensures
        r@ == "guilds/"@ + guild_id@,
{
    let mut s = string_of("guilds/");
    push_str(&mut s, guild_id);
    s
}

/// The bans of a guild: `guilds/{guild_id}/bans`
pub fn guild_bans(guild_id: &str) -> (r: String)
    ensures
        r@ == "guilds/"@ + guild_id@ + "/bans"@,
{
    let mut s = string_of("guilds/");
    push_str(&mut s, guild_id);
    push_str(&mut s, "/bans");
    s
}

/// The ban of a user in a guild: `guilds/{guild_id}/bans/{user_id}`
pub fn guild_ban(guild_id: &str, user_id: &str) -> (r: String)
    ensures
        r@ == "guilds/"@ + guild_id@ + "/bans/"@ + user_id@,
{
    let mut s = string_of("guilds/");
    push_str(&mut s, guild_id);
    push_str(&mut s, "/bans/");
    push_str(&mut s, user_id);
    s
}

/// The banning of many users of a guild at once: `guilds/{guild_id}/bulk-ban`
pub fn guild_bulk_ban(guild_id: &str) -> (r: String)
    ensures
        r@ == "guilds/"@ + guild_id@ + "/bulk-ban"@,
{
    let mut s = string_of("guilds/");
    push_str(&mut s, guild_id);
    push_str(&mut s, "/bulk-ban");
    s
}

/// The channels of a guild: `guilds/{guild_id}/channels`
pub fn guild_channels(guild_id: &str) -> (r: String)
    ensures
        r@ == "guilds/"@ + guild_id@ + "/channels"@,
{
    let mut s = string_of("guilds/");
    push_str(&mut s, guild_id);
    push_str(&mut s, "/channels");
    s
}

/// The incident actions of a guild: `guilds/{guild_id}/incident-actions`
pub fn guild_incident_actions(guild_id: &str) -> (r: String)
    ensures
        r@ == "guilds/"@ + guild_id@ + "/incident-actions"@,
{
    let mut s = string_of("guilds/");
    push_str(&mut s, guild_id);
    push_str(&mut s, "/incident-actions");
    s
}

/// The integrations of a guild: `guilds/{guild_id}/integrations`
pub fn guild_integrations(guild_id: &str) -> (r: String)
    ensures
        r@ == "guilds/"@ + guild_id@ + "/integrations"@,
{
    let mut s = string_of("guilds/");
    push_str(&mut s, guild_id);
    push_str(&mut s, "/integrations");
    s
}

/// An integration of a guild: `guilds/{guild_id}/integrations/{integration_id}`
pub fn guild_integration(guild_id: &str, integration_id: &str) -> (r: String)
    ensures
        r@ == "guilds/"@ + guild_id@ + "/integrations/"@ + integration_id@,
{
    let mut s = string_of("guilds/");
    push_str(&mut s, guild_id);
    push_str(&mut s, "/integrations/");
    push_str(&mut s, integration_id);
    s
}

/// The invites of a guild: `guilds/{guild_id}/invites`
pub fn guild_invites(guild_id: &str) -> (r: String)
    ensures
        r@ == "guilds/"@ + guild_id@ + "/invites"@,
{
    let mut s = string_of("guilds/");
    push_str(&mut s, guild_id);
    push_str(&mut s, "/invites");
    s
}

/// The members of a guild: `guilds/{guild_id}/members`
pub fn guild_members(guild_id: &str) -> (r: String)
    ensures
        r@ == "guilds/"@ + guild_id@ + "/members"@,
{
    let mut s = string_of("guilds/");
    push_str(&mut s, guild_id);
    push_str(&mut s, "/members");
    s
}

/// A member of a guild; `@me` names the current user: `guilds/{guild_id}/members/{user_id}`
pub fn guild_member(guild_id: &str, user_id: &str) -> (r: String)
    ensures
        r@ == "guilds/"@ + guild_id@ + "/members/"@ + user_id@,
{
    let mut s = string_of("guilds/");
    push_str(&mut s, guild_id);
    push_str(&mut s, "/members/");
    push_str(&mut s, user_id);
    s
}

/// The onboarding of a guild: `guilds/{guild_id}/onboarding`
pub fn guild_onboarding(guild_id: &str) -> (r: String)
    ensures
        r@ == "guilds/"@ + guild_id@ + "/onboarding"@,
{
    let mut s = string_of("guilds/");
    push_str(&mut s, guild_id);
    push_str(&mut s, "/onboarding");
    s
}

/// The preview of a guild: `guilds/{guild_id}/preview`
pub fn guild_preview(guild_id: &str) -> (r: String)
    ensures
        r@ == "guilds/"@ + guild_id@ + "/preview"@,
{
    let mut s = string_of("guilds/");
    push_str(&mut s, guild_id);
    push_str(&mut s, "/preview");
    s
}

/// The pruning of a guild's inactive members: `guilds/{guild_id}/prune`
pub fn guild_prune(guild_id: &str) -> (r: String)
    ensures
        r@ == "guilds/"@ + guild_id@ + "/prune"@,
{
    let mut s = string_of("guilds/");
    push_str(&mut s, guild_id);
    push_str(&mut s, "/prune");
    s
}

/// The roles of a guild: `guilds/{guild_id}/roles`
pub fn guild_roles(guild_id: &str) -> (r: String)
    ensures
        r@ == "guilds/"@ + guild_id@ + "/roles"@,
{
    let mut s = string_of("guilds/");
    push_str(&mut s, guild_id);
    push_str(&mut s, "/roles");
    s
}

/// The number of members of each role of a guild: `guilds/{guild_id}/roles/member-counts`
pub fn guild_role_member_counts(guild_id: &str) -> (r: String)
    ensures
        r@ == "guilds/"@ + guild_id@ + "/roles/member-counts"@,
{
    let mut s = string_of("guilds/");
    push_str(&mut s, guild_id);
    push_str(&mut s, "/roles/member-counts");
    s
}

/// A role of a guild: `guilds/{guild_id}/roles/{role_id}`
pub fn guild_role(guild_id: &str, role_id: &str) -> (r: String)
    ensures
        r@ == "guilds/"@ + guild_id@ + "/roles/"@ + role_id@,
{
    let mut s = string_of("guilds/");
    push_str(&mut s, guild_id);
    push_str(&mut s, "/roles/");
    push_str(&mut s, role_id);
    s
}

/// The active threads of a guild: `guilds/{guild_id}/threads/active`
pub fn guild_active_threads(guild_id: &str) -> (r: String)
    ensures
        r@ == "guilds/"@ + guild_id@ + "/threads/active"@,
{
    let mut s = string_of("guilds/");
    push_str(&mut s, guild_id);
    push_str(&mut s, "/threads/active");
    s
}

/// The vanity invite of a guild: `guilds/{guild_id}/vanity-url`
pub fn guild_vanity_url(guild_id: &str) -> (r: String)
    ensures
        r@ == "guilds/"@ + guild_id@ + "/vanity-url"@,
{
    let mut s = string_of("guilds/");
    push_str(&mut s, guild_id);
    push_str(&mut s, "/vanity-url");
    s
}

/// The welcome screen of a guild: `guilds/{guild_id}/welcome-screen`
pub fn guild_welcome_screen(guild_id: &str) -> (r: String)
    ensures
        r@ == "guilds/"@ + guild_id@ + "/welcome-screen"@,
{
    let mut s = string_of("guilds/");
    push_str(&mut s, guild_id);
    push_str(&mut s, "/welcome-screen");
    s
}

/// The widget settings of a guild: `guilds/{guild_id}/widget`
pub fn guild_widget_settings(guild_id: &str) -> (r: String)
    ensures
        r@ == "guilds/"@ + guild_id@ + "/widget"@,
{
    let mut s = string_of("guilds/");
    push_str(&mut s, guild_id);
    push_str(&mut s, "/widget");
    s
}

/// The widget of a guild: `guilds/{guild_id}/widget.json`
pub fn guild_widget(guild_id: &str) -> (r: String)
    ensures
        r@ == "guilds/"@ + guild_id@ + "/widget.json"@,
{
    let mut s = string_of("guilds/");
    push_str(&mut s, guild_id);
    push_str(&mut s, "/widget.json");
    s
}

/// An invite: `invites/{code}`
pub fn invite(code: &str) -> (r: String)
    ensures
        r@ == "invites/"@ + code@,
{
    let mut s = string_of("invites/");
    push_str(&mut s, code);
    s
}

/// The users an invite is meant for: `invites/{code}/target-users`
pub fn invite_target_users(code: &str) -> (r: String)
    ensures
        r@ == "invites/"@ + code@ + "/target-users"@,
{
    let mut s = string_of("invites/");
    push_str(&mut s, code);
    push_str(&mut s, "/target-users");
    s
}

/// The processing of an invite's target users: `invites/{code}/target-users/job-status`
pub fn invite_target_users_job_status(code: &str) -> (r: String)
    ensures
        r@ == "invites/"@ + code@ + "/target-users/job-status"@,
{
    let mut s = string_of("invites/");
    push_str(&mut s, code);
    push_str(&mut s, "/target-users/job-status");
    s
}

/// The current user: `users/@me`
pub fn current_user() -> (r: String)
    ensures
        r@ == "users/@me"@,
{
    let mut s = string_of("users/@me");
    s
}

/// The DM channels of the current user: `users/@me/channels`
pub fn current_user_channels() -> (r: String)
    ensures
        r@ == "users/@me/channels"@,
{
    let mut s = string_of("users/@me/channels");
    s
}

/// The guilds of the current user: `users/@me/guilds`
pub fn current_user_guilds() -> (r: String)
    ensures
        r@ == "users/@me/guilds"@,
{
    let mut s = string_of("users/@me/guilds");
    s
}

/// The current user's membership of a guild: `users/@me/guilds/{guild_id}`
pub fn current_user_guild(guild_id: &str) -> (r: String)
    ensures
        r@ == "users/@me/guilds/"@ + guild_id@,
{
    let mut s = string_of("users/@me/guilds/");
    push_str(&mut s, guild_id);
    s
}

/// A user: `users/{user_id}`
pub fn user(user_id: &str) -> (r: String)
    ensures
        r@ == "users/"@ + user_id@,
{
    let mut s = string_of("users/");
    push_str(&mut s, user_id);
    s
}

} // verus!
