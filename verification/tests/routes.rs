use slashook::rest::routes;
use slashook::structs::Emoji;

#[test]
fn channel_routes() {
  assert_eq!(routes::channel("613430047285706767"), "channels/613430047285706767");
  assert_eq!(routes::channel_messages("1"), "channels/1/messages");
  assert_eq!(routes::channel_message("1", "2"), "channels/1/messages/2");
  assert_eq!(routes::channel_bulk_delete("1"), "channels/1/messages/bulk-delete");
  assert_eq!(routes::channel_permission("1", "53908232506183680"), "channels/1/permissions/53908232506183680");
  assert_eq!(routes::channel_joined_private_archived_threads("9"), "channels/9/users/@me/threads/archived/private");
}

#[test]
fn thread_member_route_of_current_user() {
  assert_eq!(routes::channel_thread_member("5", "@me"), "channels/5/thread-members/@me");
}

#[test]
fn reaction_routes_write_the_emoji_in_url_format() {
  let standard = Emoji::new_standard_emoji("👍");
  assert_eq!(routes::message_own_reaction("1", "2", &standard), "channels/1/messages/2/reactions/👍/@me");
  let custom = Emoji::new_custom_emoji("123", "blob", false);
  assert_eq!(routes::message_emoji_reactions("1", "2", &custom), "channels/1/messages/2/reactions/blob:123");
  assert_eq!(routes::message_user_reaction("1", "2", &custom, "7"), "channels/1/messages/2/reactions/blob:123/7");
}

#[test]
fn poll_voter_route_writes_the_answer_number() {
  assert_eq!(routes::poll_answer_voters("1", "2", 3), "channels/1/polls/2/answers/3");
  assert_eq!(routes::poll_answer_voters("1", "2", -12), "channels/1/polls/2/answers/-12");
  assert_eq!(routes::poll_expire("1", "2"), "channels/1/polls/2/expire");
}

#[test]
fn guild_and_user_routes() {
  assert_eq!(routes::guild("81384788765712384"), "guilds/81384788765712384");
  assert_eq!(routes::guild_member("1", "@me"), "guilds/1/members/@me");
  assert_eq!(routes::guild_widget("1"), "guilds/1/widget.json");
  assert_eq!(routes::guild_widget_settings("1"), "guilds/1/widget");
  assert_eq!(routes::guild_role_member_counts("1"), "guilds/1/roles/member-counts");
  assert_eq!(routes::current_user(), "users/@me");
  assert_eq!(routes::current_user_guild("4"), "users/@me/guilds/4");
  assert_eq!(routes::user("8"), "users/8");
}

#[test]
fn application_and_invite_routes() {
  assert_eq!(routes::application_commands("1"), "/applications/1/commands");
  assert_eq!(routes::application_guild_commands("1", "2"), "/applications/1/guilds/2/commands");
  assert_eq!(routes::application_entitlement("1", "3"), "applications/1/entitlements/3");
  assert_eq!(routes::invite("abc"), "invites/abc");
  assert_eq!(routes::invite_target_users_job_status("abc"), "invites/abc/target-users/job-status");
}
