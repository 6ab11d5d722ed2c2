use lasim::profile::calculate_changes;
use lasim::profile::ProfileConfiguration;
use lasim::profile::ProfileSettings;

fn settings(theme: &str) -> ProfileSettings {
    ProfileSettings {
        show_nsfw: false,
        blur_nsfw: true,
        auto_expand: false,
        show_scores: true,
        theme: theme.to_string(),
        default_sort_type: "Hot".to_string(),
        default_listing_type: "Local".to_string(),
        interface_language: "en".to_string(),
        show_avatars: true,
        send_notifications_to_email: false,
        bot_account: false,
        show_bot_accounts: true,
        show_read_posts: true,
        show_new_post_notifs: false,
        discussion_languages: vec![0, 37],
        open_links_in_new_tab: false,
        infinite_scroll_enabled: true,
    }
}

fn names(v: &[&str]) -> Vec<String> {
    v.iter().map(|s| s.to_string()).collect()
}

fn profile(users: &[&str], blocked: &[&str], followed: &[&str], theme: &str) -> ProfileConfiguration {
    ProfileConfiguration {
        blocked_users: names(users),
        blocked_communities: names(blocked),
        followed_communities: names(followed),
        blocked_instances: vec![],
        saved_posts: vec![],
        profile_settings: settings(theme),
    }
}

#[test]
fn users_to_block_from_source_only() {
    let source = profile(&["a@x", "b@x"], &[], &[], "dark");
    let target = profile(&["b@x"], &[], &[], "light");
    let changes = calculate_changes(&source, &target);
    assert_eq!(changes.users_to_block, vec!["a@x".to_string()]);
    assert!(changes.users_to_unblock.is_empty());
}

#[test]
fn diff_with_itself_is_empty() {
    let a = profile(&["a@x", "b@y"], &["c@z", "c@z"], &["f@w"], "dark");
    let changes = calculate_changes(&a, &a);
    assert!(changes.users_to_block.is_empty());
    assert!(changes.users_to_unblock.is_empty());
    assert!(changes.communities_to_block.is_empty());
    assert!(changes.communities_to_unblock.is_empty());
    assert!(changes.communities_to_follow.is_empty());
    assert!(changes.communities_to_unfollow.is_empty());
}

#[test]
fn diff_directions_swap() {
    let a = profile(&["a@x", "b@x"], &["c1@h", "c2@h"], &["f1@h"], "dark");
    let b = profile(&["b@x", "z@y"], &["c2@h"], &["f2@h", "f1@h"], "light");
    let ab = calculate_changes(&a, &b);
    let ba = calculate_changes(&b, &a);
    assert_eq!(ab.users_to_block, ba.users_to_unblock);
    assert_eq!(ab.users_to_unblock, ba.users_to_block);
    assert_eq!(ab.communities_to_block, ba.communities_to_unblock);
    assert_eq!(ab.communities_to_unblock, ba.communities_to_block);
    assert_eq!(ab.communities_to_follow, ba.communities_to_unfollow);
    assert_eq!(ab.communities_to_unfollow, ba.communities_to_follow);
    assert_eq!(ab.users_to_block, vec!["a@x".to_string()]);
    assert_eq!(ab.users_to_unblock, vec!["z@y".to_string()]);
    assert_eq!(ab.communities_to_block, vec!["c1@h".to_string()]);
    assert_eq!(ab.communities_to_unfollow, vec!["f2@h".to_string()]);
}

#[test]
fn duplicates_in_source_each_give_an_entry() {
    let source = profile(&[], &["c@h", "d@h", "c@h"], &[], "dark");
    let target = profile(&[], &["d@h"], &[], "dark");
    let changes = calculate_changes(&source, &target);
    assert_eq!(changes.communities_to_block, vec!["c@h".to_string(), "c@h".to_string()]);
    assert!(changes.communities_to_unblock.is_empty());
}

#[test]
fn reserved_lists_stay_empty_and_source_settings_win() {
    let mut source = profile(&["a@x"], &[], &[], "dark");
    source.blocked_instances = names(&["bad.example"]);
    source.saved_posts = names(&["post"]);
    let target = profile(&[], &[], &[], "light");
    let changes = calculate_changes(&source, &target);
    assert!(changes.instances_to_block.is_empty());
    assert!(changes.instances_to_unblock.is_empty());
    assert!(changes.posts_to_save.is_empty());
    assert!(changes.posts_to_unsave.is_empty());
    assert_eq!(changes.profile_settings.theme, "dark");
    assert_eq!(changes.profile_settings.discussion_languages, vec![0, 37]);
    assert_eq!(changes.profile_settings.default_sort_type, "Hot");
}

#[test]
fn comparison_is_exact() {
    let source = profile(&["A@x", "a@x "], &[], &[], "dark");
    let target = profile(&["a@x"], &[], &[], "dark");
    let changes = calculate_changes(&source, &target);
    assert_eq!(changes.users_to_block, names(&["A@x", "a@x "]));
    assert_eq!(changes.users_to_unblock, names(&["a@x"]));
}

#[test]
fn empty_snapshots_give_no_changes() {
    let a = profile(&[], &[], &[], "");
    let changes = calculate_changes(&a, &a);
    assert!(changes.users_to_block.is_empty());
    assert!(changes.communities_to_follow.is_empty());
}
