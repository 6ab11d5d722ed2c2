use vstd::prelude::*;

use crate::profile::ProfileConfiguration;
use crate::profile::ProfileConfigurationView;
use crate::profile::ProfileSettings;
use crate::profile::ProfileSettingsView;

verus! {

/// Settings as the second snapshot schema stored them: the first schema's,
/// with infinite scrolling added.
#[derive(Debug, Clone)]
pub struct ProfileSettingsV2 {
    pub show_nsfw: bool,
    pub show_scores: bool,
    pub theme: String,
    pub default_sort_type: String,
    pub default_listing_type: String,
    pub interface_language: String,
    pub show_avatars: bool,
    pub send_notifications_to_email: bool,
    pub bot_account: bool,
    pub show_bot_accounts: bool,
    pub show_read_posts: bool,
    pub show_new_post_notifs: bool,
    pub discussion_languages: Vec<i32>,
    pub open_links_in_new_tab: bool,
    pub infinite_scroll_enabled: bool,
}

pub ghost struct ProfileSettingsV2View {
    pub show_nsfw: bool,
    pub show_scores: bool,
    pub theme: Seq<char>,
    pub default_sort_type: Seq<char>,
    pub default_listing_type: Seq<char>,
    pub interface_language: Seq<char>,
    pub show_avatars: bool,
    pub send_notifications_to_email: bool,
    pub bot_account: bool,
    pub show_bot_accounts: bool,
    pub show_read_posts: bool,
    pub show_new_post_notifs: bool,
    pub discussion_languages: Seq<i32>,
    pub open_links_in_new_tab: bool,
    pub infinite_scroll_enabled: bool,
}

impl View for ProfileSettingsV2 {
    type V = ProfileSettingsV2View;

    open spec fn view(&self) -> ProfileSettingsV2View {
        ProfileSettingsV2View {
            show_nsfw: self.show_nsfw,
            show_scores: self.show_scores,
            theme: self.theme@,
            default_sort_type: self.default_sort_type@,
            default_listing_type: self.default_listing_type@,
            interface_language: self.interface_language@,
            show_avatars: self.show_avatars,
            send_notifications_to_email: self.send_notifications_to_email,
            bot_account: self.bot_account,
            show_bot_accounts: self.show_bot_accounts,
            show_read_posts: self.show_read_posts,
            show_new_post_notifs: self.show_new_post_notifs,
            discussion_languages: self.discussion_languages@,
            open_links_in_new_tab: self.open_links_in_new_tab,
            infinite_scroll_enabled: self.infinite_scroll_enabled,
        }
    }
}

/// A snapshot in the second schema.
#[derive(Debug, Clone)]
pub struct ProfileConfigurationV2 {
    pub blocked_users: Vec<String>,
    pub blocked_communities: Vec<String>,
    pub followed_communities: Vec<String>,
    pub profile_settings: ProfileSettingsV2,
}

pub ghost struct ProfileConfigurationV2View {
    pub blocked_users: Seq<Seq<char>>,
    pub blocked_communities: Seq<Seq<char>>,
    pub followed_communities: Seq<Seq<char>>,
    pub profile_settings: ProfileSettingsV2View,
}

impl View for ProfileConfigurationV2 {
    type V = ProfileConfigurationV2View;

    open spec fn view(&self) -> ProfileConfigurationV2View {
        ProfileConfigurationV2View {
            blocked_users: self.blocked_users.deep_view(),
            blocked_communities: self.blocked_communities.deep_view(),
            followed_communities: self.followed_communities.deep_view(),
            profile_settings: self.profile_settings@,
        }
    }
}

/// The current schema's reading of a second-schema snapshot: everything is
/// kept; NSFW blurring is on, auto-expansion is off, and the lists of blocked
/// instances and saved posts start empty.
pub open spec fn upgrade_v2(old: ProfileConfigurationV2View) -> ProfileConfigurationView {
    ProfileConfigurationView {
        blocked_users: old.blocked_users,
        blocked_communities: old.blocked_communities,
        followed_communities: old.followed_communities,
        blocked_instances: Seq::empty(),
        saved_posts: Seq::empty(),
        profile_settings: ProfileSettingsView {
            show_nsfw: old.profile_settings.show_nsfw,
            blur_nsfw: true,
            auto_expand: false,
            show_scores: old.profile_settings.show_scores,
            theme: old.profile_settings.theme,
            default_sort_type: old.profile_settings.default_sort_type,
            default_listing_type: old.profile_settings.default_listing_type,
            interface_language: old.profile_settings.interface_language,
            show_avatars: old.profile_settings.show_avatars,
            send_notifications_to_email: old.profile_settings.send_notifications_to_email,
            bot_account: old.profile_settings.bot_account,
            show_bot_accounts: old.profile_settings.show_bot_accounts,
            show_read_posts: old.profile_settings.show_read_posts,
            show_new_post_notifs: old.profile_settings.show_new_post_notifs,
            discussion_languages: old.profile_settings.discussion_languages,
            open_links_in_new_tab: old.profile_settings.open_links_in_new_tab,
            infinite_scroll_enabled: old.profile_settings.infinite_scroll_enabled,
        },
    }
}

/// Upgrades a second-schema snapshot to the current schema.
pub fn convert_profile(old_profile: ProfileConfigurationV2) -> (r: ProfileConfiguration)
    ensures
        r@ == upgrade_v2(old_profile@),
{
    let settings = old_profile.profile_settings;
    let r = ProfileConfiguration {
        blocked_users: old_profile.blocked_users,
        blocked_communities: old_profile.blocked_communities,
        followed_communities: old_profile.followed_communities,
        blocked_instances: Vec::new(),
        saved_posts: Vec::new(),
        profile_settings: ProfileSettings {
            show_nsfw: settings.show_nsfw,
            blur_nsfw: true,
            auto_expand: false,
            show_scores: settings.show_scores,
            theme: settings.theme,
            default_sort_type: settings.default_sort_type,
            default_listing_type: settings.default_listing_type,
            interface_language: settings.interface_language,
            show_avatars: settings.show_avatars,
            send_notifications_to_email: settings.send_notifications_to_email,
            bot_account: settings.bot_account,
            show_bot_accounts: settings.show_bot_accounts,
            show_read_posts: settings.show_read_posts,
            show_new_post_notifs: settings.show_new_post_notifs,
            discussion_languages: settings.discussion_languages,
            open_links_in_new_tab: settings.open_links_in_new_tab,
            infinite_scroll_enabled: settings.infinite_scroll_enabled,
        },
    };
    assert(r@.blocked_instances =~= Seq::<Seq<char>>::empty());
    assert(r@.saved_posts =~= Seq::<Seq<char>>::empty());
    r
}

} // verus!
