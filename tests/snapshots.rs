use lasim::migrations::migrate_v1_to_v2;
use lasim::migrations::migrate_v1_to_v2::ProfileConfigurationV1;
use lasim::migrations::migrate_v1_to_v2::ProfileSettingsV1;
use lasim::migrations::migrate_v2_to_v3;
use lasim::migrations::profile_migrate::get_latest_profile_name;
use lasim::migrations::profile_migrate::latest_profile_version;
use lasim::migrations::profile_migrate::migrate_to_current;
use lasim::migrations::profile_migrate::profile_file_name;
use lasim::migrations::profile_migrate::profile_version_of;
use lasim::migrations::profile_migrate::resolve_latest;
use lasim::migrations::profile_migrate::SnapshotError;
use lasim::migrations::profile_migrate::SnapshotSchema;
use lasim::migrations::profile_migrate::StoredProfile;

fn v1_profile(languages: Vec<i32>) -> ProfileConfigurationV1 {
    ProfileConfigurationV1 {
        blocked_users: vec!["a@x".to_string()],
        blocked_communities: vec!["c@y".to_string()],
        followed_communities: vec!["f@z".to_string(), "g@z".to_string()],
        profile_settings: ProfileSettingsV1 {
            show_nsfw: true,
            show_scores: false,
            theme: "darkly".to_string(),
            default_sort_type: "New".to_string(),
            default_listing_type: "All".to_string(),
            interface_language: "de".to_string(),
            show_avatars: false,
            send_notifications_to_email: true,
            bot_account: false,
            show_bot_accounts: false,
            show_read_posts: true,
            show_new_post_notifs: true,
            discussion_languages: languages,
            open_links_in_new_tab: true,
        },
    }
}

fn names(v: &[&str]) -> Vec<String> {
    v.iter().map(|s| s.to_string()).collect()
}

#[test]
fn first_schema_chain_keeps_languages_and_sets_defaults() {
    let current = migrate_to_current(StoredProfile::V1(v1_profile(vec![37])));
    let s = &current.profile_settings;
    assert_eq!(s.discussion_languages, vec![37]);
    assert!(!s.infinite_scroll_enabled);
    assert!(s.blur_nsfw);
    assert!(!s.auto_expand);
    assert!(s.show_nsfw);
    assert_eq!(s.theme, "darkly");
    assert_eq!(s.default_sort_type, "New");
    assert_eq!(current.blocked_users, names(&["a@x"]));
    assert_eq!(current.followed_communities, names(&["f@z", "g@z"]));
    assert!(current.blocked_instances.is_empty());
    assert!(current.saved_posts.is_empty());
}

#[test]
fn each_step_on_its_own() {
    let v2 = migrate_v1_to_v2::convert_profile(v1_profile(vec![1, 2]));
    assert!(!v2.profile_settings.infinite_scroll_enabled);
    assert_eq!(v2.profile_settings.discussion_languages, vec![1, 2]);
    let mut v2 = v2;
    v2.profile_settings.infinite_scroll_enabled = true;
    let v3 = migrate_v2_to_v3::convert_profile(v2);
    assert!(v3.profile_settings.infinite_scroll_enabled);
    assert!(v3.profile_settings.blur_nsfw);
    assert!(!v3.profile_settings.auto_expand);
    assert_eq!(v3.blocked_communities, names(&["c@y"]));
}

#[test]
fn current_snapshot_is_kept_as_is() {
    let current = migrate_to_current(StoredProfile::V1(v1_profile(vec![])));
    let again = migrate_to_current(StoredProfile::Current(current.clone()));
    assert_eq!(again.blocked_users, current.blocked_users);
    assert_eq!(again.profile_settings.theme, current.profile_settings.theme);
}

#[test]
fn snapshot_file_names() {
    assert_eq!(get_latest_profile_name(), "profile_v2.json");
    assert_eq!(profile_file_name(1), "profile_v1.json");
    assert_eq!(profile_file_name(305), "profile_v305.json");
    assert_eq!(profile_file_name(65535), "profile_v65535.json");
}

#[test]
fn versions_in_file_names() {
    assert_eq!(profile_version_of("profile_v1.json"), Some(1));
    assert_eq!(profile_version_of("profile_v12.json"), Some(12));
    assert_eq!(profile_version_of("profile_v+3.json"), Some(3));
    assert_eq!(profile_version_of("profile_v0.json"), None);
    assert_eq!(profile_version_of("profile_v.json"), None);
    assert_eq!(profile_version_of("profile_vx.json"), None);
    assert_eq!(profile_version_of("profile_v1.json.bak"), None);
    assert_eq!(profile_version_of("profile_v70000.json"), None);
    assert_eq!(profile_version_of("other.txt"), None);
    assert_eq!(profile_version_of("profile_v.jso"), None);
}

#[test]
fn greatest_version_wins() {
    let found = latest_profile_version(&names(&["notes.txt", "profile_v1.json", "profile_v2.json", "profile_vx.json"]));
    assert_eq!(found, Some(2));
    assert_eq!(latest_profile_version(&names(&["profile_v2.json", "profile_v1.json"])), Some(2));
    assert_eq!(latest_profile_version(&names(&["a", "b"])), None);
}

#[test]
fn empty_directory_has_no_snapshot() {
    let r = resolve_latest(&vec![]);
    assert!(matches!(r, Err(SnapshotError::NoSnapshot)));
    let message = r.unwrap_err().message();
    assert_eq!(message, "ERROR: No saved profiles found. Use download option first!");
}

#[test]
fn resolve_picks_schema() {
    assert!(matches!(resolve_latest(&names(&["profile_v1.json"])), Ok((1, SnapshotSchema::V1))));
    assert!(matches!(
        resolve_latest(&names(&["profile_v1.json", "profile_v2.json"])),
        Ok((2, SnapshotSchema::Current))
    ));
    assert!(matches!(
        resolve_latest(&names(&["profile_v2.json", "profile_v3.json"])),
        Err(SnapshotError::Unsupported { version: 3 })
    ));
}

#[test]
fn snapshot_error_messages_name_the_file() {
    let unreadable = SnapshotError::Unreadable { file: "profile_v2.json".to_string() };
    assert_eq!(unreadable.message(), "ERROR: Failed to open profile_v2.json");
    let unparsable = SnapshotError::Unparsable {
        file: "profile_v1.json".to_string(),
        cause: "EOF while parsing".to_string(),
    };
    assert_eq!(unparsable.message(), "ERROR: Failed to parse profile_v1.json JSON - EOF while parsing");
    let newer = SnapshotError::Unsupported { version: 3 };
    assert_eq!(newer.message(), "ERROR: profile_v3.json is newer than this program can read");
}
