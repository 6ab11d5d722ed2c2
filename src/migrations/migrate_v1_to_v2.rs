use vstd::prelude::*;

use crate::migrations::migrate_v2_to_v3::ProfileConfigurationV2;
use crate::migrations::migrate_v2_to_v3::ProfileConfigurationV2View;
use crate::migrations::migrate_v2_to_v3::ProfileSettingsV2;
use crate::migrations::migrate_v2_to_v3::ProfileSettingsV2View;

verus! {

/// Settings as the first snapshot schema stored them.
#[derive(Debug, Clone)]
pub struct ProfileSettingsV1 {
    pub show_nsfw: bool,
    pub show_scores: bool,
    pub theme: String,
    pub default_sort_type: String,
    pub default_listing_type: String,
    pub interface_language: String,
    pub show_avatars: bool,
    pub send_notifications_to_email: bool,
    pub bot_account: bool,
    pub show_bot_accounts: bool,
    pub show_read_posts: bool,
    pub show_new_post_notifs: bool,
    pub discussion_languages: Vec<i32>,
    pub open_links_in_new_tab: bool,
}

pub ghost struct ProfileSettingsV1View {
    pub show_nsfw: bool,
    pub show_scores: bool,
    pub theme: Seq<char>,
    pub default_sort_type: Seq<char>,
    pub default_listing_type: Seq<char>,
    pub interface_language: Seq<char>,
    pub show_avatars: bool,
    pub send_notifications_to_email: bool,
    pub bot_account: bool,
    pub show_bot_accounts: bool,
    pub show_read_posts: bool,
    pub show_new_post_notifs: bool,
    pub discussion_languages: Seq<i32>,
    pub open_links_in_new_tab: bool,
}

impl View for ProfileSettingsV1 {
    type V = ProfileSettingsV1View;

    open spec fn view(&self) -> ProfileSettingsV1View {
        ProfileSettingsV1View {
            show_nsfw: self.show_nsfw,
            show_scores: self.show_scores,
            theme: self.theme@,
            default_sort_type: self.default_sort_type@,
            default_listing_type: self.default_listing_type@,
            interface_language: self.interface_language@,
            show_avatars: self.show_avatars,
            send_notifications_to_email: self.send_notifications_to_email,
            bot_account: self.bot_account,
            show_bot_accounts: self.show_bot_accounts,
            show_read_posts: self.show_read_posts,
            show_new_post_notifs: self.show_new_post_notifs,
            discussion_languages: self.discussion_languages@,
            open_links_in_new_tab: self.open_links_in_new_tab,
        }
    }
}

/// A snapshot in the first schema.
#[derive(Debug, Clone)]
pub struct ProfileConfigurationV1 {
    pub blocked_users: Vec<String>,
    pub blocked_communities: Vec<String>,
    pub followed_communities: Vec<String>,
    pub profile_settings: ProfileSettingsV1,
}

pub ghost struct ProfileConfigurationV1View {
    pub blocked_users: Seq<Seq<char>>,
    pub blocked_communities: Seq<Seq<char>>,
    pub followed_communities: Seq<Seq<char>>,
    pub profile_settings: ProfileSettingsV1View,
}

impl View for ProfileConfigurationV1 {
    type V = ProfileConfigurationV1View;

    open spec fn view(&self) -> ProfileConfigurationV1View {
        ProfileConfigurationV1View {
            blocked_users: self.blocked_users.deep_view(),
            blocked_communities: self.blocked_communities.deep_view(),
            followed_communities: self.followed_communities.deep_view(),
            profile_settings: self.profile_settings@,
        }
    }
}

/// The second schema's reading of a first-schema snapshot: everything is
/// kept, and infinite scrolling, which the first schema lacked, is off.
pub open spec fn upgrade_v1(old: ProfileConfigurationV1View) -> ProfileConfigurationV2View {
    ProfileConfigurationV2View {
        blocked_users: old.blocked_users,
        blocked_communities: old.blocked_communities,
        followed_communities: old.followed_communities,
        profile_settings: ProfileSettingsV2View {
            show_nsfw: old.profile_settings.show_nsfw,
            show_scores: old.profile_settings.show_scores,
            theme: old.profile_settings.theme,
            default_sort_type: old.profile_settings.default_sort_type,
            default_listing_type: old.profile_settings.default_listing_type,
            interface_language: old.profile_settings.interface_language,
            show_avatars: old.profile_settings.show_avatars,
            send_notifications_to_email: old.profile_settings.send_notifications_to_email,
            bot_account: old.profile_settings.bot_account,
            show_bot_accounts: old.profile_settings.show_bot_accounts,
            show_read_posts: old.profile_settings.show_read_posts,
            show_new_post_notifs: old.profile_settings.show_new_post_notifs,
            discussion_languages: old.profile_settings.discussion_languages,
            open_links_in_new_tab: old.profile_settings.open_links_in_new_tab,
            infinite_scroll_enabled: false,
        },
    }
}

/// Upgrades a first-schema snapshot to the second schema.
pub fn convert_profile(old_profile: ProfileConfigurationV1) -> (r: ProfileConfigurationV2)
    ensures
        r@ == upgrade_v1(old_profile@),
{
    let settings = old_profile.profile_settings;
    ProfileConfigurationV2 {
        blocked_users: old_profile.blocked_users,
        blocked_communities: old_profile.blocked_communities,
        followed_communities: old_profile.followed_communities,
        profile_settings: ProfileSettingsV2 {
            show_nsfw: settings.show_nsfw,
            show_scores: settings.show_scores,
            theme: settings.theme,
            default_sort_type: settings.default_sort_type,
            default_listing_type: settings.default_listing_type,
            interface_language: settings.interface_language,
            show_avatars: settings.show_avatars,
            send_notifications_to_email: settings.send_notifications_to_email,
            bot_account: settings.bot_account,
            show_bot_accounts: settings.show_bot_accounts,
            show_read_posts: settings.show_read_posts,
            show_new_post_notifs: settings.show_new_post_notifs,
            discussion_languages: settings.discussion_languages,
            open_links_in_new_tab: settings.open_links_in_new_tab,
            infinite_scroll_enabled: false,
        },
    }
}

} // verus!
