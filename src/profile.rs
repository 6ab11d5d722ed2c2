use vstd::prelude::*;

verus! {

/// Display and behaviour preferences of an account. The sort and listing
/// modes are stored by name; see `lemmy::typecast` for how names map to modes.
#[derive(Debug, Clone)]
pub struct ProfileSettings {
    pub show_nsfw: bool,
    pub blur_nsfw: bool,
    pub auto_expand: bool,
    pub show_scores: bool,
    pub theme: String,
    pub default_sort_type: String,
    pub default_listing_type: String,
    pub interface_language: String,
    pub show_avatars: bool,
    pub send_notifications_to_email: bool,
    pub bot_account: bool,
    pub show_bot_accounts: bool,
    pub show_read_posts: bool,
    pub show_new_post_notifs: bool,
    pub discussion_languages: Vec<i32>,
    pub open_links_in_new_tab: bool,
    pub infinite_scroll_enabled: bool,
}

/// The mathematical value of a `ProfileSettings`.
pub ghost struct ProfileSettingsView {
    pub show_nsfw: bool,
    pub blur_nsfw: bool,
    pub auto_expand: bool,
    pub show_scores: bool,
    pub theme: Seq<char>,
    pub default_sort_type: Seq<char>,
    pub default_listing_type: Seq<char>,
    pub interface_language: Seq<char>,
    pub show_avatars: bool,
    pub send_notifications_to_email: bool,
    pub bot_account: bool,
    pub show_bot_accounts: bool,
    pub show_read_posts: bool,
    pub show_new_post_notifs: bool,
    pub discussion_languages: Seq<i32>,
    pub open_links_in_new_tab: bool,
    pub infinite_scroll_enabled: bool,
}

impl View for ProfileSettings {
    type V = ProfileSettingsView;

    open spec fn view(&self) -> ProfileSettingsView {
        ProfileSettingsView {
            show_nsfw: self.show_nsfw,
            blur_nsfw: self.blur_nsfw,
            auto_expand: self.auto_expand,
            show_scores: self.show_scores,
            theme: self.theme@,
            default_sort_type: self.default_sort_type@,
            default_listing_type: self.default_listing_type@,
            interface_language: self.interface_language@,
            show_avatars: self.show_avatars,
            send_notifications_to_email: self.send_notifications_to_email,
            bot_account: self.bot_account,
            show_bot_accounts: self.show_bot_accounts,
            show_read_posts: self.show_read_posts,
            show_new_post_notifs: self.show_new_post_notifs,
            discussion_languages: self.discussion_languages@,
            open_links_in_new_tab: self.open_links_in_new_tab,
            infinite_scroll_enabled: self.infinite_scroll_enabled,
        }
    }
}

impl ProfileSettings {
    /// A field-by-field copy, with the same view.
    pub fn duplicate(&self) -> (r: ProfileSettings)
        ensures
            r@ == self@,
    {
        ProfileSettings {
            show_nsfw: self.show_nsfw,
            blur_nsfw: self.blur_nsfw,
            auto_expand: self.auto_expand,
            show_scores: self.show_scores,
            theme: self.theme.clone(),
            default_sort_type: self.default_sort_type.clone(),
            default_listing_type: self.default_listing_type.clone(),
            interface_language: self.interface_language.clone(),
            show_avatars: self.show_avatars,
            send_notifications_to_email: self.send_notifications_to_email,
            bot_account: self.bot_account,
            show_bot_accounts: self.show_bot_accounts,
            show_read_posts: self.show_read_posts,
            show_new_post_notifs: self.show_new_post_notifs,
            discussion_languages: copy_ids(&self.discussion_languages),
            open_links_in_new_tab: self.open_links_in_new_tab,
            infinite_scroll_enabled: self.infinite_scroll_enabled,
        }
    }
}

/// A snapshot of an account: its settings and the lists of users and
/// communities it blocks or follows, each entry an identity `name@host`.
/// The order of each list carries no meaning.
#[derive(Debug, Clone)]
pub struct ProfileConfiguration {
    pub blocked_users: Vec<String>,
    pub blocked_communities: Vec<String>,
    pub followed_communities: Vec<String>,
    pub blocked_instances: Vec<String>,
    pub saved_posts: Vec<String>,
    pub profile_settings: ProfileSettings,
}

pub ghost struct ProfileConfigurationView {
    pub blocked_users: Seq<Seq<char>>,
    pub blocked_communities: Seq<Seq<char>>,
    pub followed_communities: Seq<Seq<char>>,
    pub blocked_instances: Seq<Seq<char>>,
    pub saved_posts: Seq<Seq<char>>,
    pub profile_settings: ProfileSettingsView,
}

impl View for ProfileConfiguration {
    type V = ProfileConfigurationView;

    open spec fn view(&self) -> ProfileConfigurationView {
        ProfileConfigurationView {
            blocked_users: self.blocked_users.deep_view(),
            blocked_communities: self.blocked_communities.deep_view(),
            followed_communities: self.followed_communities.deep_view(),
            blocked_instances: self.blocked_instances.deep_view(),
            saved_posts: self.saved_posts.deep_view(),
            profile_settings: self.profile_settings@,
        }
    }
}

impl ProfileConfiguration {
    /// A copy, with the same view.
    pub fn duplicate(&self) -> (r: ProfileConfiguration)
        ensures
            r@ == self@,
    {
        ProfileConfiguration {
            blocked_users: copy_names(&self.blocked_users),
            blocked_communities: copy_names(&self.blocked_communities),
            followed_communities: copy_names(&self.followed_communities),
            blocked_instances: copy_names(&self.blocked_instances),
            saved_posts: copy_names(&self.saved_posts),
            profile_settings: self.profile_settings.duplicate(),
        }
    }
}

/// What must change on a target account for it to match a source snapshot.
/// The settings are the source's, copied whole.
#[derive(Debug, Clone)]
pub struct ProfileChanges {
    pub users_to_block: Vec<String>,
    pub users_to_unblock: Vec<String>,
    pub communities_to_block: Vec<String>,
    pub communities_to_unblock: Vec<String>,
    pub communities_to_follow: Vec<String>,
    pub communities_to_unfollow: Vec<String>,
    pub instances_to_block: Vec<String>,
    pub instances_to_unblock: Vec<String>,
    pub posts_to_save: Vec<String>,
    pub posts_to_unsave: Vec<String>,
    pub profile_settings: ProfileSettings,
}

pub ghost struct ProfileChangesView {
    pub users_to_block: Seq<Seq<char>>,
    pub users_to_unblock: Seq<Seq<char>>,
    pub communities_to_block: Seq<Seq<char>>,
    pub communities_to_unblock: Seq<Seq<char>>,
    pub communities_to_follow: Seq<Seq<char>>,
    pub communities_to_unfollow: Seq<Seq<char>>,
    pub instances_to_block: Seq<Seq<char>>,
    pub instances_to_unblock: Seq<Seq<char>>,
    pub posts_to_save: Seq<Seq<char>>,
    pub posts_to_unsave: Seq<Seq<char>>,
    pub profile_settings: ProfileSettingsView,
}

impl View for ProfileChanges {
    type V = ProfileChangesView;

    open spec fn view(&self) -> ProfileChangesView {
        ProfileChangesView {
            users_to_block: self.users_to_block.deep_view(),
            users_to_unblock: self.users_to_unblock.deep_view(),
            communities_to_block: self.communities_to_block.deep_view(),
            communities_to_unblock: self.communities_to_unblock.deep_view(),
            communities_to_follow: self.communities_to_follow.deep_view(),
            communities_to_unfollow: self.communities_to_unfollow.deep_view(),
            instances_to_block: self.instances_to_block.deep_view(),
            instances_to_unblock: self.instances_to_unblock.deep_view(),
            posts_to_save: self.posts_to_save.deep_view(),
            posts_to_unsave: self.posts_to_unsave.deep_view(),
            profile_settings: self.profile_settings@,
        }
    }
}

/// The entries of `a`, in order and with repetitions, that do not occur in `b`.
pub open spec fn difference(a: Seq<Seq<char>>, b: Seq<Seq<char>>) -> Seq<Seq<char>>
    decreases a.len(),
{
    if a.len() == 0 {
        Seq::empty()
    } else {
        let rest = difference(a.drop_last(), b);
        if b.contains(a.last()) {
            rest
        } else {
            rest.push(a.last())
        }
    }
}

/// The change set that brings `target` to the state of `source`.
pub open spec fn diff(source: ProfileConfigurationView, target: ProfileConfigurationView) -> ProfileChangesView {
    ProfileChangesView {
        users_to_block: difference(source.blocked_users, target.blocked_users),
        users_to_unblock: difference(target.blocked_users, source.blocked_users),
        communities_to_block: difference(source.blocked_communities, target.blocked_communities),
        communities_to_unblock: difference(target.blocked_communities, source.blocked_communities),
        communities_to_follow: difference(source.followed_communities, target.followed_communities),
        communities_to_unfollow: difference(target.followed_communities, source.followed_communities),
        instances_to_block: Seq::empty(),
        instances_to_unblock: Seq::empty(),
        posts_to_save: Seq::empty(),
        posts_to_unsave: Seq::empty(),
        profile_settings: source.profile_settings,
    }
}

/// A copy of a list of language ids.
pub fn copy_ids(v: &Vec<i32>) -> (r: Vec<i32>)
    ensures
        r@ == v@,
{
    let mut r: Vec<i32> = Vec::new();
    for i in 0..v.len()
        invariant
            r@ == v@.subrange(0, i as int),
    {
        r.push(v[i]);
        assert(r@ =~= v@.subrange(0, i + 1));
    }
    assert(r@ =~= v@);
    r
}

/// A copy of a list of identities.
pub fn copy_names(v: &Vec<String>) -> (r: Vec<String>)
    ensures
        r.deep_view() == v.deep_view(),
{
    let mut r: Vec<String> = Vec::new();
    for i in 0..v.len()
        invariant
            r.deep_view() == v.deep_view().subrange(0, i as int),
    {
        let s = v[i].clone();
        assert(s@ == v.deep_view()[i as int]);
        let ghost before = r.deep_view();
        r.push(s);
        assert(r.deep_view() =~= before.push(v.deep_view()[i as int]));
        assert(r.deep_view() =~= v.deep_view().subrange(0, i + 1));
    }
    assert(r.deep_view() =~= v.deep_view());
    r
}

/// The entries of `a` that `b` lacks, compared by exact string equality.
fn entries_missing_from(a: &Vec<String>, b: &Vec<String>) -> (r: Vec<String>)
    ensures
        r.deep_view() == difference(a.deep_view(), b.deep_view()),
{
    let ghost av = a.deep_view();
    let ghost bv = b.deep_view();
    let mut r: Vec<String> = Vec::new();
    for i in 0..a.len()
        invariant
            av == a.deep_view(),
            bv == b.deep_view(),
            r.deep_view() == difference(av.subrange(0, i as int), bv),
    {
        let mut found = false;
        for j in 0..b.len()
            invariant
                av == a.deep_view(),
                bv == b.deep_view(),
                0 <= i < av.len(),
                found == (exists|k: int| 0 <= k < j && bv[k] == av[i as int]),
        {
            assert(bv[j as int] == b@[j as int]@ && av[i as int] == a@[i as int]@);
            if !found && a[i] == b[j] {
                found = true;
            }
        }
        assert(found == bv.contains(av[i as int]));
        let ghost prefix = av.subrange(0, i + 1);
        assert(prefix.drop_last() =~= av.subrange(0, i as int));
        assert(prefix.last() == av[i as int]);
        if !found {
            let s = a[i].clone();
            assert(s@ == av[i as int]);
            r.push(s);
            assert(r.deep_view() =~= difference(av.subrange(0, i as int), bv).push(av[i as int]));
        }
    }
    assert(av.subrange(0, a.len() as int) =~= av);
    r
}

fn calculate_users_to_block(original_profile: &ProfileConfiguration, new_profile: &ProfileConfiguration) -> (r: Vec<String>)
    ensures
        r.deep_view() == difference(original_profile@.blocked_users, new_profile@.blocked_users),
{
    entries_missing_from(&original_profile.blocked_users, &new_profile.blocked_users)
}

fn calculate_communities_to_block(original_profile: &ProfileConfiguration, new_profile: &ProfileConfiguration) -> (r: Vec<String>)
    ensures
        r.deep_view() == difference(original_profile@.blocked_communities, new_profile@.blocked_communities),
{
    entries_missing_from(&original_profile.blocked_communities, &new_profile.blocked_communities)
}

fn calculate_communities_to_follow(original_profile: &ProfileConfiguration, new_profile: &ProfileConfiguration) -> (r: Vec<String>)
    ensures
        r.deep_view() == difference(original_profile@.followed_communities, new_profile@.followed_communities),
{
    entries_missing_from(&original_profile.followed_communities, &new_profile.followed_communities)
}

/// The changes that make the account of `new_profile` match `original_profile`:
/// what the source has and the target lacks is to be applied, what the target
/// has and the source lacks is to be removed, and the source's settings win.
pub fn calculate_changes(original_profile: &ProfileConfiguration, new_profile: &ProfileConfiguration) -> (r: ProfileChanges)
    ensures
        r@ == diff(original_profile@, new_profile@),
{
    let r = ProfileChanges {
        users_to_block: calculate_users_to_block(original_profile, new_profile),
        users_to_unblock: calculate_users_to_block(new_profile, original_profile),
        communities_to_block: calculate_communities_to_block(original_profile, new_profile),
        communities_to_unblock: calculate_communities_to_block(new_profile, original_profile),
        communities_to_follow: calculate_communities_to_follow(original_profile, new_profile),
        communities_to_unfollow: calculate_communities_to_follow(new_profile, original_profile),
        instances_to_block: Vec::new(),
        instances_to_unblock: Vec::new(),
        posts_to_save: Vec::new(),
        posts_to_unsave: Vec::new(),
        profile_settings: original_profile.profile_settings.duplicate(),
    };
    assert(r@.instances_to_block =~= Seq::<Seq<char>>::empty());
    assert(r@.instances_to_unblock =~= Seq::<Seq<char>>::empty());
    assert(r@.posts_to_save =~= Seq::<Seq<char>>::empty());
    assert(r@.posts_to_unsave =~= Seq::<Seq<char>>::empty());
    r
}

/// When every entry of `a` occurs in `b`, nothing of `a` is missing from `b`.
pub proof fn lemma_difference_of_subset(a: Seq<Seq<char>>, b: Seq<Seq<char>>)
    requires
        forall|i: int| 0 <= i < a.len() ==> b.contains(#[trigger] a[i]),
    ensures
        difference(a, b) == Seq::<Seq<char>>::empty(),
    decreases a.len(),
{
    if a.len() > 0 {
        let d = a.drop_last();
        assert forall|i: int| 0 <= i < d.len() implies b.contains(#[trigger] d[i]) by {
            assert(d[i] == a[i]);
        }
        lemma_difference_of_subset(d, b);
        assert(b.contains(a[a.len() - 1]));
    }
}

/// Comparing a snapshot with itself asks for no change at all: all six
/// change lists of users and communities are empty.
pub proof fn lemma_diff_with_itself_is_empty(a: ProfileConfiguration)
    ensures
        diff(a@, a@).users_to_block.len() == 0,
        diff(a@, a@).users_to_unblock.len() == 0,
        diff(a@, a@).communities_to_block.len() == 0,
        diff(a@, a@).communities_to_unblock.len() == 0,
        diff(a@, a@).communities_to_follow.len() == 0,
        diff(a@, a@).communities_to_unfollow.len() == 0,
{
    let v = a@;
    assert forall|i: int| 0 <= i < v.blocked_users.len() implies v.blocked_users.contains(#[trigger] v.blocked_users[i]) by {}
    assert forall|i: int| 0 <= i < v.blocked_communities.len() implies v.blocked_communities.contains(#[trigger] v.blocked_communities[i]) by {}
    assert forall|i: int| 0 <= i < v.followed_communities.len() implies v.followed_communities.contains(#[trigger] v.followed_communities[i]) by {}
    lemma_difference_of_subset(v.blocked_users, v.blocked_users);
    lemma_difference_of_subset(v.blocked_communities, v.blocked_communities);
    lemma_difference_of_subset(v.followed_communities, v.followed_communities);
}

/// Swapping source and target swaps the directions: what one comparison
/// applies, the reverse comparison removes, and the other way round.
pub proof fn lemma_diff_swaps_directions(a: ProfileConfiguration, b: ProfileConfiguration)
    ensures
        diff(a@, b@).users_to_block == diff(b@, a@).users_to_unblock,
        diff(a@, b@).users_to_unblock == diff(b@, a@).users_to_block,
        diff(a@, b@).communities_to_block == diff(b@, a@).communities_to_unblock,
        diff(a@, b@).communities_to_unblock == diff(b@, a@).communities_to_block,
        diff(a@, b@).communities_to_follow == diff(b@, a@).communities_to_unfollow,
        diff(a@, b@).communities_to_unfollow == diff(b@, a@).communities_to_follow,
{
}

} // verus!
