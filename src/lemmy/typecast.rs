use vstd::prelude::*;

use crate::profile::copy_ids;
use crate::profile::ProfileConfiguration;
use crate::profile::ProfileConfigurationView;
use crate::profile::ProfileSettings;
use crate::profile::ProfileSettingsView;
use crate::text::has_prefix;
use crate::text::lemma_prefix_run_bound;
use crate::text::lemma_suffix_run_bound;
use crate::text::prefix_run;
use crate::text::run_from_end;
use crate::text::run_from_start;
use crate::text::same_text;
use crate::text::suffix_run;

verus! {

/// How a user's post listings are sorted by default.
#[derive(Debug, Clone, Copy, PartialEq, Eq, Structural)]
pub enum SortType {
    Active,
    Hot,
    New,
    Old,
    TopDay,
    TopWeek,
    TopMonth,
    TopYear,
    TopAll,
    MostComments,
    NewComments,
    TopHour,
    TopSixHour,
    TopTwelveHour,
    TopThreeMonths,
    TopSixMonths,
    TopNineMonths,
    Controversial,
    Scaled,
}

/// Which posts a user's listings show by default.
#[derive(Debug, Clone, Copy, PartialEq, Eq, Structural)]
pub enum ListingType {
    All,
    Local,
    Subscribed,
    ModeratorView,
}

/// The stored name of a sort mode.
pub open spec fn sort_type_name(t: SortType) -> Seq<char> {
    match t {
        SortType::Active => "Active"@,
        SortType::Hot => "Hot"@,
        SortType::New => "New"@,
        SortType::Old => "Old"@,
        SortType::TopDay => "TopDay"@,
        SortType::TopWeek => "TopWeek"@,
        SortType::TopMonth => "TopMonth"@,
        SortType::TopYear => "TopYear"@,
        SortType::TopAll => "TopAll"@,
        SortType::MostComments => "MostComments"@,
        SortType::NewComments => "NewComments"@,
        SortType::TopHour => "TopHour"@,
        SortType::TopSixHour => "TopSixHour"@,
        SortType::TopTwelveHour => "TopTwelveHour"@,
        SortType::TopThreeMonths => "TopThreeMonths"@,
        SortType::TopSixMonths => "TopSixMonths"@,
        SortType::TopNineMonths => "TopNineMonths"@,
        SortType::Controversial => "Controversial"@,
        SortType::Scaled => "Scaled"@,
    }
}

/// The stored name of a listing mode.
pub open spec fn listing_type_name(t: ListingType) -> Seq<char> {
    match t {
        ListingType::All => "All"@,
        ListingType::Local => "Local"@,
        ListingType::Subscribed => "Subscribed"@,
        ListingType::ModeratorView => "ModeratorView"@,
    }
}

/// The sort mode a stored name stands for; an unknown name means `TopDay`.
pub open spec fn sort_type_of_name(n: Seq<char>) -> SortType {
    if n == "Active"@ {
        SortType::Active
    } else if n == "Hot"@ {
        SortType::Hot
    } else if n == "New"@ {
        SortType::New
    } else if n == "Old"@ {
        SortType::Old
    } else if n == "TopDay"@ {
        SortType::TopDay
    } else if n == "TopWeek"@ {
        SortType::TopWeek
    } else if n == "TopMonth"@ {
        SortType::TopMonth
    } else if n == "TopYear"@ {
        SortType::TopYear
    } else if n == "TopAll"@ {
        SortType::TopAll
    } else if n == "MostComments"@ {
        SortType::MostComments
    } else if n == "NewComments"@ {
        SortType::NewComments
    } else if n == "TopHour"@ {
        SortType::TopHour
    } else if n == "TopSixHour"@ {
        SortType::TopSixHour
    } else if n == "TopTwelveHour"@ {
        SortType::TopTwelveHour
    } else if n == "TopThreeMonths"@ {
        SortType::TopThreeMonths
    } else if n == "TopSixMonths"@ {
        SortType::TopSixMonths
    } else if n == "TopNineMonths"@ {
        SortType::TopNineMonths
    } else if n == "Controversial"@ {
        SortType::Controversial
    } else if n == "Scaled"@ {
        SortType::Scaled
    } else {
        SortType::TopDay
    }
}

/// The listing mode a stored name stands for; an unknown name means `Subscribed`.
pub open spec fn listing_type_of_name(n: Seq<char>) -> ListingType {
    if n == "All"@ {
        ListingType::All
    } else if n == "Local"@ {
        ListingType::Local
    } else if n == "Subscribed"@ {
        ListingType::Subscribed
    } else if n == "ModeratorView"@ {
        ListingType::ModeratorView
    } else {
        ListingType::Subscribed
    }
}

/// The settings as the remote API takes them on a save: the stored settings,
/// with sort and listing modes resolved from their names.
#[derive(Debug, Clone)]
pub struct SettingsUpdate {
    pub show_nsfw: bool,
    pub blur_nsfw: bool,
    pub auto_expand: bool,
    pub show_scores: bool,
    pub theme: String,
    pub default_sort_type: SortType,
    pub default_listing_type: ListingType,
    pub interface_language: String,
    pub show_avatars: bool,
    pub send_notifications_to_email: bool,
    pub bot_account: bool,
    pub show_bot_accounts: bool,
    pub show_read_posts: bool,
    pub show_new_post_notifs: bool,
    pub discussion_languages: Vec<i32>,
    pub open_links_in_new_tab: bool,
    pub infinite_scroll_enabled: bool,
}

/// The update that saves settings `s`.
pub open spec fn settings_update_of(s: ProfileSettingsView, u: SettingsUpdate) -> bool {
    &&& u.show_nsfw == s.show_nsfw
    &&& u.blur_nsfw == s.blur_nsfw
    &&& u.auto_expand == s.auto_expand
    &&& u.show_scores == s.show_scores
    &&& u.theme@ == s.theme
    &&& u.default_sort_type == sort_type_of_name(s.default_sort_type)
    &&& u.default_listing_type == listing_type_of_name(s.default_listing_type)
    &&& u.interface_language@ == s.interface_language
    &&& u.show_avatars == s.show_avatars
    &&& u.send_notifications_to_email == s.send_notifications_to_email
    &&& u.bot_account == s.bot_account
    &&& u.show_bot_accounts == s.show_bot_accounts
    &&& u.show_read_posts == s.show_read_posts
    &&& u.show_new_post_notifs == s.show_new_post_notifs
    &&& u.discussion_languages@ == s.discussion_languages
    &&& u.open_links_in_new_tab == s.open_links_in_new_tab
    &&& u.infinite_scroll_enabled == s.infinite_scroll_enabled
}

/// Conversions from stored values to what the remote API takes.
pub struct ToAPI {}

impl ToAPI {
    /// The settings update that makes an account's settings those of `profile_settings`.
    pub fn construct_settings(profile_settings: &ProfileSettings) -> (r: SettingsUpdate)
        ensures
            settings_update_of(profile_settings@, r),
    {
        SettingsUpdate {
            show_nsfw: profile_settings.show_nsfw,
            blur_nsfw: profile_settings.blur_nsfw,
            auto_expand: profile_settings.auto_expand,
            show_scores: profile_settings.show_scores,
            theme: profile_settings.theme.clone(),
            default_sort_type: Self::cast_sort_type(profile_settings.default_sort_type.as_str()),
            default_listing_type: Self::cast_listing_type(profile_settings.default_listing_type.as_str()),
            interface_language: profile_settings.interface_language.clone(),
            show_avatars: profile_settings.show_avatars,
            send_notifications_to_email: profile_settings.send_notifications_to_email,
            bot_account: profile_settings.bot_account,
            show_bot_accounts: profile_settings.show_bot_accounts,
            show_read_posts: profile_settings.show_read_posts,
            show_new_post_notifs: profile_settings.show_new_post_notifs,
            discussion_languages: copy_ids(&profile_settings.discussion_languages),
            open_links_in_new_tab: profile_settings.open_links_in_new_tab,
            infinite_scroll_enabled: profile_settings.infinite_scroll_enabled,
        }
    }

    /// The sort mode a stored name stands for; an unknown name means `TopDay`.
    pub fn cast_sort_type(name: &str) -> (r: SortType)
        ensures
            r == sort_type_of_name(name@),
    {
        if same_text(name, "Active") {
            SortType::Active
        } else if same_text(name, "Hot") {
            SortType::Hot
        } else if same_text(name, "New") {
            SortType::New
        } else if same_text(name, "Old") {
            SortType::Old
        } else if same_text(name, "TopDay") {
            SortType::TopDay
        } else if same_text(name, "TopWeek") {
            SortType::TopWeek
        } else if same_text(name, "TopMonth") {
            SortType::TopMonth
        } else if same_text(name, "TopYear") {
            SortType::TopYear
        } else if same_text(name, "TopAll") {
            SortType::TopAll
        } else if same_text(name, "MostComments") {
            SortType::MostComments
        } else if same_text(name, "NewComments") {
            SortType::NewComments
        } else if same_text(name, "TopHour") {
            SortType::TopHour
        } else if same_text(name, "TopSixHour") {
            SortType::TopSixHour
        } else if same_text(name, "TopTwelveHour") {
            SortType::TopTwelveHour
        } else if same_text(name, "TopThreeMonths") {
            SortType::TopThreeMonths
        } else if same_text(name, "TopSixMonths") {
            SortType::TopSixMonths
        } else if same_text(name, "TopNineMonths") {
            SortType::TopNineMonths
        } else if same_text(name, "Controversial") {
            SortType::Controversial
        } else if same_text(name, "Scaled") {
            SortType::Scaled
        } else {
            SortType::TopDay
        }
    }

    /// The listing mode a stored name stands for; an unknown name means `Subscribed`.
    pub fn cast_listing_type(name: &str) -> (r: ListingType)
        ensures
            r == listing_type_of_name(name@),
    {
        if same_text(name, "All") {
            ListingType::All
        } else if same_text(name, "Local") {
            ListingType::Local
        } else if same_text(name, "Subscribed") {
            ListingType::Subscribed
        } else if same_text(name, "ModeratorView") {
            ListingType::ModeratorView
        } else {
            ListingType::Subscribed
        }
    }
}

/// What the account part of the remote site description holds that a
/// snapshot is made of. Users and communities appear by actor id, the URL
/// under which their home instance publishes them.
#[derive(Debug, Clone)]
pub struct RemoteAccount {
    pub blocked_user_actors: Vec<String>,
    pub blocked_community_actors: Vec<String>,
    pub followed_community_actors: Vec<String>,
    pub show_nsfw: bool,
    pub blur_nsfw: bool,
    pub auto_expand: bool,
    pub show_scores: bool,
    pub theme: String,
    pub default_sort_type: SortType,
    pub default_listing_type: ListingType,
    pub interface_language: String,
    pub show_avatars: bool,
    pub send_notifications_to_email: bool,
    pub bot_account: bool,
    pub show_bot_accounts: bool,
    pub show_read_posts: bool,
    pub show_new_post_notifs: bool,
    pub discussion_languages: Vec<i32>,
    pub open_links_in_new_tab: bool,
    pub infinite_scroll_enabled: bool,
}

/// The length of a leading `<scheme>://` of `s`, such as `https://` or
/// `http://`, or 0 when it has none; a scheme is one or more characters
/// other than `:` and `/`.
pub open spec fn scheme_len(s: Seq<char>) -> nat {
    let k = prefix_run(s, ':', false);
    if 0 < k && k < prefix_run(s, '/', false) && k + 3 <= s.len() && s.subrange(k as int, k + 3int)
        == "://"@ {
        k + 3
    } else {
        0
    }
}

/// `s` without a leading `<scheme>://`.
pub open spec fn without_scheme(s: Seq<char>) -> Seq<char> {
    s.subrange(scheme_len(s) as int, s.len() as int)
}

/// `s` without the characters `c` at either end.
pub open spec fn trim_char(s: Seq<char>, c: char) -> Seq<char> {
    let t = s.subrange(prefix_run(s, c, true) as int, s.len() as int);
    t.subrange(0, t.len() - suffix_run(t, c, true))
}

/// The identity `name@host` of an actor id such as `https://host/c/name` or
/// `https://host/@name`: a leading `<scheme>://` is dropped, the host is the part before the
/// first `/`, the name the part after the last `/`, without `@` at its ends.
pub open spec fn identity_of(actor_id: Seq<char>) -> Seq<char> {
    let rest = without_scheme(actor_id);
    let host = rest.subrange(0, prefix_run(rest, '/', false) as int);
    let last = rest.subrange(rest.len() - suffix_run(rest, '/', false), rest.len() as int);
    trim_char(last, '@') + "@"@ + host
}

pub open spec fn identities_of(actor_ids: Seq<Seq<char>>) -> Seq<Seq<char>> {
    Seq::new(actor_ids.len(), |i: int| identity_of(actor_ids[i]))
}

/// The snapshot of the account that `a` describes.
pub open spec fn profile_of(a: RemoteAccount) -> ProfileConfigurationView {
    ProfileConfigurationView {
        blocked_users: identities_of(a.blocked_user_actors.deep_view()),
        blocked_communities: identities_of(a.blocked_community_actors.deep_view()),
        followed_communities: identities_of(a.followed_community_actors.deep_view()),
        blocked_instances: Seq::empty(),
        saved_posts: Seq::empty(),
        profile_settings: ProfileSettingsView {
            show_nsfw: a.show_nsfw,
            blur_nsfw: a.blur_nsfw,
            auto_expand: a.auto_expand,
            show_scores: a.show_scores,
            theme: a.theme@,
            default_sort_type: sort_type_name(a.default_sort_type),
            default_listing_type: listing_type_name(a.default_listing_type),
            interface_language: a.interface_language@,
            show_avatars: a.show_avatars,
            send_notifications_to_email: a.send_notifications_to_email,
            bot_account: a.bot_account,
            show_bot_accounts: a.show_bot_accounts,
            show_read_posts: a.show_read_posts,
            show_new_post_notifs: a.show_new_post_notifs,
            discussion_languages: a.discussion_languages@,
            open_links_in_new_tab: a.open_links_in_new_tab,
            infinite_scroll_enabled: a.infinite_scroll_enabled,
        },
    }
}

/// Conversions from what the remote API returns to stored values.
pub struct FromAPI {}

impl FromAPI {
    /// The identity `name@host` of an actor id; see `identity_of`.
    pub fn parse_url(actor_id: &str) -> (r: String)
        ensures
            r@ == identity_of(actor_id@),
    {
        let n = actor_id.unicode_len();
        proof {
            reveal_strlit("://");
            assert(actor_id@.subrange(0, n as int) =~= actor_id@);
        }
        let k = run_from_start(actor_id, 0, n, ':', false);
        let j = run_from_start(actor_id, 0, n, '/', false);
        let start: usize = if 0 < k && k < j && 3 <= n - k && has_prefix(
            actor_id.substring_char(k, n),
            "://",
        ) {
            assert(actor_id@.subrange(k as int, n as int).subrange(0, 3) =~= actor_id@.subrange(
                k as int,
                k + 3,
            ));
            k + 3
        } else {
            proof {
                if 0 < k && k < j && 3 <= n - k {
                    assert(actor_id@.subrange(k as int, n as int).subrange(0, 3) =~= actor_id@.subrange(
                        k as int,
                        k + 3,
                    ));
                }
            }
            0
        };
        let ghost rest = actor_id@.subrange(start as int, n as int);
        assert(rest == without_scheme(actor_id@));
        let host_end = start + run_from_start(actor_id, start, n, '/', false);
        let name_start = n - run_from_end(actor_id, start, n, '/', false);
        let ghost last = actor_id@.subrange(name_start as int, n as int);
        assert(last =~= rest.subrange(rest.len() - suffix_run(rest, '/', false), rest.len() as int));
        let lo = name_start + run_from_start(actor_id, name_start, n, '@', true);
        let hi = n - run_from_end(actor_id, lo, n, '@', true);
        proof {
            lemma_prefix_run_bound(last, '@', true);
            let t = last.subrange(prefix_run(last, '@', true) as int, last.len() as int);
            assert(t =~= actor_id@.subrange(lo as int, n as int));
            lemma_suffix_run_bound(t, '@', true);
            assert(trim_char(last, '@') =~= actor_id@.subrange(lo as int, hi as int));
            assert(rest.subrange(0, prefix_run(rest, '/', false) as int) =~= actor_id@.subrange(
                start as int,
                host_end as int,
            ));
        }
        let mut r = String::from_str(actor_id.substring_char(lo, hi));
        r.append("@");
        r.append(actor_id.substring_char(start, host_end));
        r
    }

    fn identities(actor_ids: &Vec<String>) -> (r: Vec<String>)
        ensures
            r.deep_view() == identities_of(actor_ids.deep_view()),
    {
        let mut r: Vec<String> = Vec::new();
        for i in 0..actor_ids.len()
            invariant
                r.deep_view() =~= identities_of(actor_ids.deep_view()).subrange(0, i as int),
        {
            let id = Self::parse_url(actor_ids[i].as_str());
            assert(actor_ids.deep_view()[i as int] == actor_ids@[i as int]@);
            let ghost before = r.deep_view();
            r.push(id);
            assert(r.deep_view() =~= before.push(identity_of(actor_ids.deep_view()[i as int])));
        }
        assert(identities_of(actor_ids.deep_view()).subrange(0, actor_ids.len() as int) =~= identities_of(
            actor_ids.deep_view(),
        ));
        r
    }

    fn construct_blocked_users(account: &RemoteAccount) -> (r: Vec<String>)
        ensures
            r.deep_view() == identities_of(account.blocked_user_actors.deep_view()),
    {
        Self::identities(&account.blocked_user_actors)
    }

    fn construct_blocked_communities(account: &RemoteAccount) -> (r: Vec<String>)
        ensures
            r.deep_view() == identities_of(account.blocked_community_actors.deep_view()),
    {
        Self::identities(&account.blocked_community_actors)
    }

    fn construct_followed_communities(account: &RemoteAccount) -> (r: Vec<String>)
        ensures
            r.deep_view() == identities_of(account.followed_community_actors.deep_view()),
    {
        Self::identities(&account.followed_community_actors)
    }

    /// The snapshot of a remote account, in the current schema.
    pub fn construct_profile(account: &RemoteAccount) -> (r: ProfileConfiguration)
        ensures
            r@ == profile_of(*account),
    {
        let r = ProfileConfiguration {
            blocked_users: Self::construct_blocked_users(account),
            blocked_communities: Self::construct_blocked_communities(account),
            followed_communities: Self::construct_followed_communities(account),
            blocked_instances: Vec::new(),
            saved_posts: Vec::new(),
            profile_settings: ProfileSettings {
                show_nsfw: account.show_nsfw,
                blur_nsfw: account.blur_nsfw,
                auto_expand: account.auto_expand,
                show_scores: account.show_scores,
                theme: account.theme.clone(),
                default_sort_type: String::from_str(Self::cast_sort_type(account.default_sort_type)),
                default_listing_type: String::from_str(
                    Self::cast_listing_type(account.default_listing_type),
                ),
                interface_language: account.interface_language.clone(),
                show_avatars: account.show_avatars,
                send_notifications_to_email: account.send_notifications_to_email,
                bot_account: account.bot_account,
                show_bot_accounts: account.show_bot_accounts,
                show_read_posts: account.show_read_posts,
                show_new_post_notifs: account.show_new_post_notifs,
                discussion_languages: copy_ids(&account.discussion_languages),
                open_links_in_new_tab: account.open_links_in_new_tab,
                infinite_scroll_enabled: account.infinite_scroll_enabled,
            },
        };
        assert(r@.blocked_instances =~= Seq::<Seq<char>>::empty());
        assert(r@.saved_posts =~= Seq::<Seq<char>>::empty());
        r
    }

    /// The stored name of a sort mode.
    pub fn cast_sort_type(mode: SortType) -> (r: &'static str)
        ensures
            r@ == sort_type_name(mode),
    {
        match mode {
            SortType::Active => "Active",
            SortType::Hot => "Hot",
            SortType::New => "New",
            SortType::Old => "Old",
            SortType::TopDay => "TopDay",
            SortType::TopWeek => "TopWeek",
            SortType::TopMonth => "TopMonth",
            SortType::TopYear => "TopYear",
            SortType::TopAll => "TopAll",
            SortType::MostComments => "MostComments",
            SortType::NewComments => "NewComments",
            SortType::TopHour => "TopHour",
            SortType::TopSixHour => "TopSixHour",
            SortType::TopTwelveHour => "TopTwelveHour",
            SortType::TopThreeMonths => "TopThreeMonths",
            SortType::TopSixMonths => "TopSixMonths",
            SortType::TopNineMonths => "TopNineMonths",
            SortType::Controversial => "Controversial",
            SortType::Scaled => "Scaled",
        }
    }

    /// The stored name of a listing mode.
    pub fn cast_listing_type(mode: ListingType) -> (r: &'static str)
        ensures
            r@ == listing_type_name(mode),
    {
        match mode {
            ListingType::All => "All",
            ListingType::Local => "Local",
            ListingType::Subscribed => "Subscribed",
            ListingType::ModeratorView => "ModeratorView",
        }
    }
}

/// Every sort mode survives being stored by name and read back.
pub proof fn lemma_sort_type_name_round_trip(t: SortType)
    ensures
        sort_type_of_name(sort_type_name(t)) == t,
{
    reveal_strlit("Active");
    assert("Active"@.len() == 6);
    assert("Active"@[0] == 'A');
    assert("Active"@[3] == 'i');
    reveal_strlit("Hot");
    assert("Hot"@.len() == 3);
    assert("Hot"@[0] == 'H');
    reveal_strlit("New");
    assert("New"@.len() == 3);
    assert("New"@[0] == 'N');
    reveal_strlit("Old");
    assert("Old"@.len() == 3);
    assert("Old"@[0] == 'O');
    reveal_strlit("TopDay");
    assert("TopDay"@.len() == 6);
    assert("TopDay"@[0] == 'T');
    assert("TopDay"@[3] == 'D');
    reveal_strlit("TopWeek");
    assert("TopWeek"@.len() == 7);
    assert("TopWeek"@[0] == 'T');
    assert("TopWeek"@[3] == 'W');
    reveal_strlit("TopMonth");
    assert("TopMonth"@.len() == 8);
    assert("TopMonth"@[0] == 'T');
    assert("TopMonth"@[3] == 'M');
    reveal_strlit("TopYear");
    assert("TopYear"@.len() == 7);
    assert("TopYear"@[0] == 'T');
    assert("TopYear"@[3] == 'Y');
    reveal_strlit("TopAll");
    assert("TopAll"@.len() == 6);
    assert("TopAll"@[0] == 'T');
    assert("TopAll"@[3] == 'A');
    reveal_strlit("MostComments");
    assert("MostComments"@.len() == 12);
    assert("MostComments"@[0] == 'M');
    assert("MostComments"@[3] == 't');
    reveal_strlit("NewComments");
    assert("NewComments"@.len() == 11);
    assert("NewComments"@[0] == 'N');
    assert("NewComments"@[3] == 'C');
    reveal_strlit("TopHour");
    assert("TopHour"@.len() == 7);
    assert("TopHour"@[0] == 'T');
    assert("TopHour"@[3] == 'H');
    reveal_strlit("TopSixHour");
    assert("TopSixHour"@.len() == 10);
    assert("TopSixHour"@[0] == 'T');
    assert("TopSixHour"@[3] == 'S');
    reveal_strlit("TopTwelveHour");
    assert("TopTwelveHour"@.len() == 13);
    assert("TopTwelveHour"@[0] == 'T');
    assert("TopTwelveHour"@[3] == 'T');
    reveal_strlit("TopThreeMonths");
    assert("TopThreeMonths"@.len() == 14);
    assert("TopThreeMonths"@[0] == 'T');
    assert("TopThreeMonths"@[3] == 'T');
    reveal_strlit("TopSixMonths");
    assert("TopSixMonths"@.len() == 12);
    assert("TopSixMonths"@[0] == 'T');
    assert("TopSixMonths"@[3] == 'S');
    reveal_strlit("TopNineMonths");
    assert("TopNineMonths"@.len() == 13);
    assert("TopNineMonths"@[0] == 'T');
    assert("TopNineMonths"@[3] == 'N');
    reveal_strlit("Controversial");
    assert("Controversial"@.len() == 13);
    assert("Controversial"@[0] == 'C');
    assert("Controversial"@[3] == 't');
    reveal_strlit("Scaled");
    assert("Scaled"@.len() == 6);
    assert("Scaled"@[0] == 'S');
    assert("Scaled"@[3] == 'l');
}

/// Every listing mode survives being stored by name and read back.
pub proof fn lemma_listing_type_name_round_trip(t: ListingType)
    ensures
        listing_type_of_name(listing_type_name(t)) == t,
{
    reveal_strlit("All");
    assert("All"@.len() == 3);
    assert("All"@[0] == 'A');
    reveal_strlit("Local");
    assert("Local"@.len() == 5);
    assert("Local"@[0] == 'L');
    assert("Local"@[3] == 'a');
    reveal_strlit("Subscribed");
    assert("Subscribed"@.len() == 10);
    assert("Subscribed"@[0] == 'S');
    assert("Subscribed"@[3] == 's');
    reveal_strlit("ModeratorView");
    assert("ModeratorView"@.len() == 13);
    assert("ModeratorView"@[0] == 'M');
    assert("ModeratorView"@[3] == 'e');
}

} // verus!
