use lasim::apply::Action;
use lasim::apply::ApplyRun;
use lasim::apply::Event;
use lasim::apply::GlobalSettings;
use lasim::apply::Operation;
use lasim::apply::RemoteState;
use lasim::apply::Subscription;
use lasim::profile::ProfileChanges;
use lasim::profile::ProfileConfiguration;
use lasim::profile::ProfileSettings;
use lasim::upload::plan_upload;

fn settings() -> ProfileSettings {
    ProfileSettings {
        show_nsfw: false,
        blur_nsfw: true,
        auto_expand: false,
        show_scores: true,
        theme: "browser".to_string(),
        default_sort_type: "Active".to_string(),
        default_listing_type: "All".to_string(),
        interface_language: "en".to_string(),
        show_avatars: true,
        send_notifications_to_email: false,
        bot_account: false,
        show_bot_accounts: true,
        show_read_posts: true,
        show_new_post_notifs: false,
        discussion_languages: vec![],
        open_links_in_new_tab: false,
        infinite_scroll_enabled: false,
    }
}

fn names(v: &[&str]) -> Vec<String> {
    v.iter().map(|s| s.to_string()).collect()
}

fn changes() -> ProfileChanges {
    ProfileChanges {
        users_to_block: names(&["u1@h"]),
        users_to_unblock: names(&["u2@h"]),
        communities_to_block: names(&["c1@h"]),
        communities_to_unblock: names(&["c2@h"]),
        communities_to_follow: names(&["f1@h", "f2@h", "f3@h"]),
        communities_to_unfollow: names(&["f4@h"]),
        instances_to_block: vec![],
        instances_to_unblock: vec![],
        posts_to_save: vec![],
        posts_to_unsave: vec![],
        profile_settings: settings(),
    }
}

fn only_follows() -> GlobalSettings {
    GlobalSettings {
        upload_profile_settings: false,
        upload_community_subs: true,
        upload_community_blocks: false,
        upload_user_blocks: false,
        upload_user_saved_posts: false,
        sync_removals: false,
        confirm_uploads: false,
        write_api_profiles: false,
    }
}

fn resolve_target(a: &Action) -> (bool, String) {
    match a {
        Action::Resolve { user, identity, .. } => (*user, identity.clone()),
        other => panic!("expected a lookup, got {:?}", other),
    }
}

#[test]
fn failed_lookup_does_not_stop_the_batch() {
    let mut run = ApplyRun::new(changes(), &only_follows(), 5);
    assert_eq!(run.planned_len(), 3);

    assert_eq!(resolve_target(&run.next_action()), (false, "f1@h".to_string()));
    assert!(run.handle(Event::Resolved(Ok(11))).is_none());
    assert!(matches!(
        run.next_action(),
        Action::Mutate { operation: Operation::FollowCommunity, enable: true, id: 11, pause_ms: 5 }
    ));
    assert!(run.handle(Event::Mutated(Ok(RemoteState::Subscription(Subscription::Subscribed)))).is_none());

    assert_eq!(resolve_target(&run.next_action()), (false, "f2@h".to_string()));
    let line = run.handle(Event::Resolved(Err("404 Not Found".to_string())));
    assert_eq!(line, Some("Cannot find community f2@h, got exception 404 Not Found".to_string()));

    assert_eq!(resolve_target(&run.next_action()), (false, "f3@h".to_string()));
    assert!(run.handle(Event::Resolved(Ok(13))).is_none());
    assert!(run.handle(Event::Mutated(Ok(RemoteState::Subscription(Subscription::Pending)))).is_none());

    assert!(matches!(run.next_action(), Action::Finish));
    assert!(run.is_done());
    assert_eq!(run.applied(), 2);
    assert_eq!(run.failed(), 1);
}

#[test]
fn categories_run_in_fixed_order() {
    let mut options = GlobalSettings::default();
    options.sync_removals = true;
    let mut run = ApplyRun::new(changes(), &options, 0);
    assert_eq!(run.planned_len(), 8);
    let mut seen = vec![];
    let mut id = 0;
    loop {
        match run.next_action() {
            Action::Resolve { user, identity, .. } => {
                seen.push((user, identity));
                id += 1;
                run.handle(Event::Resolved(Ok(id)));
            }
            Action::Mutate { operation, enable, .. } => {
                let state = match operation {
                    Operation::FollowCommunity => RemoteState::Subscription(if enable {
                        Subscription::Subscribed
                    } else {
                        Subscription::NotSubscribed
                    }),
                    _ => RemoteState::Blocked(enable),
                };
                assert!(run.handle(Event::Mutated(Ok(state))).is_none());
            }
            Action::SaveSettings(update) => {
                assert_eq!(update.theme, "browser");
                assert!(run.handle(Event::SettingsSaved(Ok(()))).is_none());
            }
            Action::Finish => break,
        }
    }
    let order: Vec<(bool, String)> = vec![
        (true, "u1@h".to_string()),
        (true, "u2@h".to_string()),
        (false, "c1@h".to_string()),
        (false, "c2@h".to_string()),
        (false, "f1@h".to_string()),
        (false, "f2@h".to_string()),
        (false, "f3@h".to_string()),
        (false, "f4@h".to_string()),
    ];
    assert_eq!(seen, order);
    assert_eq!(run.applied(), 8);
    assert_eq!(run.failed(), 0);
    assert!(!run.settings_failed());
}

#[test]
fn removals_only_when_synced() {
    let run = ApplyRun::new(changes(), &GlobalSettings::default(), 0);
    assert_eq!(run.planned_len(), 5);
}

#[test]
fn refusals_and_call_failures_are_counted() {
    let mut options = only_follows();
    options.upload_user_blocks = true;
    options.sync_removals = true;
    let mut run = ApplyRun::new(changes(), &options, 0);
    run.handle(Event::Resolved(Ok(1)));
    assert!(matches!(run.next_action(), Action::Mutate { operation: Operation::BlockUser, enable: true, id: 1, .. }));
    let line = run.handle(Event::Mutated(Ok(RemoteState::Blocked(false))));
    assert_eq!(line, Some("Server refused to block user u1@h".to_string()));
    run.handle(Event::Resolved(Ok(2)));
    assert!(matches!(run.next_action(), Action::Mutate { operation: Operation::BlockUser, enable: false, id: 2, .. }));
    let line = run.handle(Event::Mutated(Err("timed out".to_string())));
    assert_eq!(line, Some("Got exception unblocking user u2@h: timed out".to_string()));
    assert_eq!(run.failed(), 2);
    assert_eq!(run.applied(), 0);
    assert_eq!(resolve_target(&run.next_action()), (false, "f1@h".to_string()));
}

#[test]
fn unexpected_events_change_nothing() {
    let mut run = ApplyRun::new(changes(), &only_follows(), 0);
    assert!(run.handle(Event::Mutated(Ok(RemoteState::Blocked(true)))).is_none());
    assert!(run.handle(Event::SettingsSaved(Ok(()))).is_none());
    assert_eq!(resolve_target(&run.next_action()), (false, "f1@h".to_string()));
    assert_eq!(run.applied() + run.failed(), 0);
}

#[test]
fn settings_save_failure_is_reported() {
    let mut options = only_follows();
    options.upload_community_subs = false;
    options.upload_profile_settings = true;
    let mut run = ApplyRun::new(changes(), &options, 0);
    assert_eq!(run.planned_len(), 0);
    match run.next_action() {
        Action::SaveSettings(update) => assert_eq!(update.interface_language, "en"),
        other => panic!("expected a save, got {:?}", other),
    }
    let line = run.handle(Event::SettingsSaved(Err("500".to_string())));
    assert_eq!(line, Some("Cannot save profile settings, got exception 500".to_string()));
    assert!(run.settings_failed());
    assert!(run.is_done());
}

#[test]
fn nothing_chosen_finishes_at_once() {
    let mut options = only_follows();
    options.upload_community_subs = false;
    let run = ApplyRun::new(changes(), &options, 0);
    assert!(run.is_done());
    assert!(matches!(run.next_action(), Action::Finish));
}

fn snapshot(users: &[&str], follows: &[&str]) -> ProfileConfiguration {
    ProfileConfiguration {
        blocked_users: names(users),
        blocked_communities: vec![],
        followed_communities: names(follows),
        blocked_instances: vec![],
        saved_posts: vec![],
        profile_settings: settings(),
    }
}

#[test]
fn upload_plan_announces_counts_and_time() {
    let original = snapshot(&["a@x", "b@x"], &["f@y", "g@y", "h@y"]);
    let current = snapshot(&["b@x", "c@x"], &["g@y"]);
    let mut options = GlobalSettings::default();
    options.sync_removals = true;
    let plan = plan_upload(&original, &current, &options, 3, 60);
    assert_eq!(plan.delay_ms, 20000);
    assert_eq!(plan.calls, 9);
    assert_eq!(plan.run.planned_len(), 4);
    assert_eq!(
        plan.announcements,
        vec![
            "All profile settings from the original profile will be applied.".to_string(),
            "1 new users will be blocked".to_string(),
            "1 users will be unblocked".to_string(),
            "0 new communities will be blocked".to_string(),
            "0 communities will be unblocked".to_string(),
            "2 new communities will be followed".to_string(),
            "0 communities will be unfollowed".to_string(),
            "Estimated Upload Time: 3m 0s".to_string(),
        ]
    );
}

#[test]
fn upload_plan_without_removals() {
    let original = snapshot(&["a@x"], &[]);
    let current = snapshot(&[], &[]);
    let mut options = only_follows();
    options.upload_user_blocks = true;
    let plan = plan_upload(&original, &current, &options, 0, 0);
    assert_eq!(plan.delay_ms, 1000);
    assert_eq!(plan.calls, 2);
    assert_eq!(
        plan.announcements,
        vec![
            "1 new users will be blocked".to_string(),
            "0 new communities will be followed".to_string(),
            "Estimated Upload Time: 2s".to_string(),
        ]
    );
}

#[test]
fn block_lookup_failures_name_the_change() {
    let mut options = only_follows();
    options.upload_community_subs = false;
    options.upload_user_blocks = true;
    options.sync_removals = true;
    let mut run = ApplyRun::new(changes(), &options, 0);
    let line = run.handle(Event::Resolved(Err("gone".to_string())));
    assert_eq!(line, Some("Cannot find user u1@h to block, got exception gone".to_string()));
    let line = run.handle(Event::Resolved(Err("gone".to_string())));
    assert_eq!(line, Some("Cannot find user u2@h to unblock, got exception gone".to_string()));
}

#[test]
fn replies_that_show_no_change_are_refusals() {
    let mut run = ApplyRun::new(changes(), &only_follows(), 0);
    run.handle(Event::Resolved(Ok(1)));
    let line = run.handle(Event::Mutated(Ok(RemoteState::Subscription(Subscription::NotSubscribed))));
    assert_eq!(line, Some("Server refused to follow community f1@h".to_string()));
    run.handle(Event::Resolved(Ok(2)));
    let line = run.handle(Event::Mutated(Ok(RemoteState::Blocked(true))));
    assert_eq!(line, Some("Server refused to follow community f2@h".to_string()));
    assert_eq!(run.failed(), 2);
    assert_eq!(run.applied(), 0);
}
