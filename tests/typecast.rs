use lasim::lemmy::typecast::FromAPI;
use lasim::lemmy::typecast::ListingType;
use lasim::lemmy::typecast::RemoteAccount;
use lasim::lemmy::typecast::SortType;
use lasim::lemmy::typecast::ToAPI;

#[test]
fn actor_ids_become_identities() {
    assert_eq!(FromAPI::parse_url("https://lemmy.world/c/fakecommunity"), "fakecommunity@lemmy.world");
    assert_eq!(FromAPI::parse_url("https://kbin.social/m/fakecommunity"), "fakecommunity@kbin.social");
    assert_eq!(FromAPI::parse_url("https://chirp.social/@fakecommunity"), "fakecommunity@chirp.social");
    assert_eq!(FromAPI::parse_url("https://lemmy.ml/u/someone"), "someone@lemmy.ml");
}

#[test]
fn any_leading_scheme_is_dropped() {
    assert_eq!(FromAPI::parse_url("http://lemmy.ml/u/bob"), "bob@lemmy.ml");
    assert_eq!(FromAPI::parse_url("https://lemmy.ml/u/bob"), "bob@lemmy.ml");
    assert_eq!(FromAPI::parse_url("ftp://files.example/c/docs"), "docs@files.example");
}

#[test]
fn actor_id_edge_cases() {
    assert_eq!(FromAPI::parse_url("host"), "host@host");
    assert_eq!(FromAPI::parse_url("https://host/"), "@host");
    assert_eq!(FromAPI::parse_url("https://host/@@name@@"), "name@host");
    assert_eq!(FromAPI::parse_url("http://host/u/name"), "name@host");
    assert_eq!(FromAPI::parse_url("://host/u/name"), "name@:");
    assert_eq!(FromAPI::parse_url("a/b://host/c"), "c@a");
    assert_eq!(FromAPI::parse_url(""), "@");
    assert_eq!(FromAPI::parse_url("https://ex.org/c/gr\u{fc}n"), "gr\u{fc}n@ex.org");
}

#[test]
fn sort_names() {
    assert_eq!(ToAPI::cast_sort_type("Active"), SortType::Active);
    assert_eq!(ToAPI::cast_sort_type("TopSixHour"), SortType::TopSixHour);
    assert_eq!(ToAPI::cast_sort_type("Scaled"), SortType::Scaled);
    assert_eq!(ToAPI::cast_sort_type("Controversial"), SortType::Controversial);
    assert_eq!(ToAPI::cast_sort_type("Bogus"), SortType::TopDay);
    assert_eq!(ToAPI::cast_sort_type("hot"), SortType::TopDay);
    assert_eq!(FromAPI::cast_sort_type(SortType::TopNineMonths), "TopNineMonths");
    assert_eq!(FromAPI::cast_sort_type(SortType::MostComments), "MostComments");
}

#[test]
fn listing_names() {
    assert_eq!(ToAPI::cast_listing_type("All"), ListingType::All);
    assert_eq!(ToAPI::cast_listing_type("ModeratorView"), ListingType::ModeratorView);
    assert_eq!(ToAPI::cast_listing_type("Everything"), ListingType::Subscribed);
    assert_eq!(FromAPI::cast_listing_type(ListingType::Local), "Local");
}

#[test]
fn sort_and_listing_names_round_trip() {
    let sorts = [
        SortType::Active,
        SortType::Hot,
        SortType::New,
        SortType::Old,
        SortType::TopDay,
        SortType::TopWeek,
        SortType::TopMonth,
        SortType::TopYear,
        SortType::TopAll,
        SortType::MostComments,
        SortType::NewComments,
        SortType::TopHour,
        SortType::TopSixHour,
        SortType::TopTwelveHour,
        SortType::TopThreeMonths,
        SortType::TopSixMonths,
        SortType::TopNineMonths,
        SortType::Controversial,
        SortType::Scaled,
    ];
    for s in sorts {
        assert_eq!(ToAPI::cast_sort_type(FromAPI::cast_sort_type(s)), s);
    }
    let listings = [ListingType::All, ListingType::Local, ListingType::Subscribed, ListingType::ModeratorView];
    for l in listings {
        assert_eq!(ToAPI::cast_listing_type(FromAPI::cast_listing_type(l)), l);
    }
}

fn account() -> RemoteAccount {
    RemoteAccount {
        blocked_user_actors: vec!["https://a.org/u/troll".to_string()],
        blocked_community_actors: vec!["https://b.org/c/spam".to_string(), "https://c.org/m/ads".to_string()],
        followed_community_actors: vec!["https://d.org/c/rust".to_string()],
        show_nsfw: false,
        blur_nsfw: true,
        auto_expand: true,
        show_scores: false,
        theme: "litely".to_string(),
        default_sort_type: SortType::TopWeek,
        default_listing_type: ListingType::Local,
        interface_language: "fr".to_string(),
        show_avatars: true,
        send_notifications_to_email: false,
        bot_account: true,
        show_bot_accounts: false,
        show_read_posts: false,
        show_new_post_notifs: true,
        discussion_languages: vec![3, 37],
        open_links_in_new_tab: true,
        infinite_scroll_enabled: false,
    }
}

#[test]
fn remote_account_to_snapshot() {
    let p = FromAPI::construct_profile(&account());
    assert_eq!(p.blocked_users, vec!["troll@a.org".to_string()]);
    assert_eq!(p.blocked_communities, vec!["spam@b.org".to_string(), "ads@c.org".to_string()]);
    assert_eq!(p.followed_communities, vec!["rust@d.org".to_string()]);
    assert!(p.blocked_instances.is_empty());
    assert!(p.saved_posts.is_empty());
    let s = &p.profile_settings;
    assert_eq!(s.default_sort_type, "TopWeek");
    assert_eq!(s.default_listing_type, "Local");
    assert_eq!(s.theme, "litely");
    assert!(s.bot_account);
    assert!(s.auto_expand);
    assert_eq!(s.discussion_languages, vec![3, 37]);
}

#[test]
fn snapshot_settings_to_update() {
    let p = FromAPI::construct_profile(&account());
    let mut settings = p.profile_settings.clone();
    let update = ToAPI::construct_settings(&settings);
    assert_eq!(update.default_sort_type, SortType::TopWeek);
    assert_eq!(update.default_listing_type, ListingType::Local);
    assert_eq!(update.theme, "litely");
    assert_eq!(update.interface_language, "fr");
    assert_eq!(update.discussion_languages, vec![3, 37]);
    assert!(update.open_links_in_new_tab);
    settings.default_sort_type = "Unknown".to_string();
    settings.default_listing_type = "".to_string();
    let update = ToAPI::construct_settings(&settings);
    assert_eq!(update.default_sort_type, SortType::TopDay);
    assert_eq!(update.default_listing_type, ListingType::Subscribed);
}
