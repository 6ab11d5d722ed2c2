use vstd::prelude::*;

use crate::lemmy::typecast::settings_update_of;
use crate::lemmy::typecast::SettingsUpdate;
use crate::lemmy::typecast::ToAPI;
use crate::profile::ProfileChanges;
use crate::profile::ProfileChangesView;
use crate::profile::ProfileSettings;
use crate::profile::ProfileSettingsView;

verus! {

/// The user's choice of what an upload applies to the target account.
#[derive(Debug, Clone, Copy)]
pub struct GlobalSettings {
    pub upload_profile_settings: bool,
    pub upload_community_subs: bool,
    pub upload_community_blocks: bool,
    pub upload_user_blocks: bool,
    pub upload_user_saved_posts: bool,
    /// Also unblock and unfollow what the target has and the source lacks.
    pub sync_removals: bool,
    pub confirm_uploads: bool,
    pub write_api_profiles: bool,
}

impl Default for GlobalSettings {
    /// Everything is uploaded but saved posts; nothing is removed; uploads
    /// are confirmed; remote profiles are not written out.
    fn default() -> (r: GlobalSettings)
        ensures
            r.upload_profile_settings && r.upload_community_subs && r.upload_community_blocks
                && r.upload_user_blocks,
            !r.upload_user_saved_posts && !r.sync_removals && r.confirm_uploads
                && !r.write_api_profiles,
    {
        GlobalSettings {
            upload_profile_settings: true,
            upload_community_subs: true,
            upload_community_blocks: true,
            upload_user_blocks: true,
            upload_user_saved_posts: false,
            sync_removals: false,
            confirm_uploads: true,
            write_api_profiles: false,
        }
    }
}

/// One kind of change to a target account, in the order in which an upload
/// applies them.
#[derive(Debug, Clone, Copy, PartialEq, Eq, Structural)]
pub enum Category {
    BlockUser,
    UnblockUser,
    BlockCommunity,
    UnblockCommunity,
    FollowCommunity,
    UnfollowCommunity,
}

/// The remote call that makes a change of some category.
#[derive(Debug, Clone, Copy, PartialEq, Eq, Structural)]
pub enum Operation {
    BlockUser,
    BlockCommunity,
    FollowCommunity,
}

impl Category {
    pub open spec fn spec_operation(self) -> Operation {
        match self {
            Category::BlockUser | Category::UnblockUser => Operation::BlockUser,
            Category::BlockCommunity | Category::UnblockCommunity => Operation::BlockCommunity,
            Category::FollowCommunity | Category::UnfollowCommunity => Operation::FollowCommunity,
        }
    }

    /// Whether the change sets its flag (block, follow) rather than clearing it.
    pub open spec fn spec_enable(self) -> bool {
        match self {
            Category::BlockUser | Category::BlockCommunity | Category::FollowCommunity => true,
            _ => false,
        }
    }

    pub open spec fn spec_is_user(self) -> bool {
        self.spec_operation() == Operation::BlockUser
    }

    pub open spec fn noun(self) -> Seq<char> {
        if self.spec_is_user() {
            "user"@
        } else {
            "community"@
        }
    }

    pub open spec fn verb(self) -> Seq<char> {
        match self {
            Category::BlockUser | Category::BlockCommunity => "block"@,
            Category::UnblockUser | Category::UnblockCommunity => "unblock"@,
            Category::FollowCommunity => "follow"@,
            Category::UnfollowCommunity => "unfollow"@,
        }
    }

    #[verifier::when_used_as_spec(spec_operation)]
    pub fn operation(self) -> (r: Operation)
        ensures
            r == self.spec_operation(),
    {
        match self {
            Category::BlockUser | Category::UnblockUser => Operation::BlockUser,
            Category::BlockCommunity | Category::UnblockCommunity => Operation::BlockCommunity,
            Category::FollowCommunity | Category::UnfollowCommunity => Operation::FollowCommunity,
        }
    }

    #[verifier::when_used_as_spec(spec_enable)]
    pub fn enable(self) -> (r: bool)
        ensures
            r == self.spec_enable(),
    {
        match self {
            Category::BlockUser | Category::BlockCommunity | Category::FollowCommunity => true,
            _ => false,
        }
    }

    #[verifier::when_used_as_spec(spec_is_user)]
    pub fn is_user(self) -> (r: bool)
        ensures
            r == self.spec_is_user(),
    {
        match self {
            Category::BlockUser | Category::UnblockUser => true,
            _ => false,
        }
    }

    fn noun_text(self) -> (r: &'static str)
        ensures
            r@ == self.noun(),
    {
        if self.is_user() {
            "user"
        } else {
            "community"
        }
    }

    fn verb_text(self) -> (r: &'static str)
        ensures
            r@ == self.verb(),
    {
        match self {
            Category::BlockUser | Category::BlockCommunity => "block",
            Category::UnblockUser | Category::UnblockCommunity => "unblock",
            Category::FollowCommunity => "follow",
            Category::UnfollowCommunity => "unfollow",
        }
    }
}

/// One planned change: a category and the identity it applies to.
#[derive(Debug, Clone)]
pub struct ApplyTask {
    pub category: Category,
    pub identity: String,
}

impl View for ApplyTask {
    type V = (Category, Seq<char>);

    open spec fn view(&self) -> (Category, Seq<char>) {
        (self.category, self.identity@)
    }
}

pub open spec fn tagged(c: Category, names: Seq<Seq<char>>) -> Seq<(Category, Seq<char>)> {
    Seq::new(names.len(), |i: int| (c, names[i]))
}

/// `names` tagged with `apply` when `on`, followed, when removals are synced
/// too, by `names_out` tagged with `remove`.
pub open spec fn pair_plan(
    on: bool,
    sync: bool,
    apply: Category,
    names: Seq<Seq<char>>,
    remove: Category,
    names_out: Seq<Seq<char>>,
) -> Seq<(Category, Seq<char>)> {
    if !on {
        Seq::empty()
    } else if sync {
        tagged(apply, names) + tagged(remove, names_out)
    } else {
        tagged(apply, names)
    }
}

/// The changes an upload makes, in order: users blocked, then unblocked;
/// communities blocked, then unblocked; communities followed, then unfollowed.
/// Each category is taken only when chosen, and removals only when synced.
pub open spec fn planned(ch: ProfileChangesView, o: GlobalSettings) -> Seq<(Category, Seq<char>)> {
    pair_plan(
        o.upload_user_blocks,
        o.sync_removals,
        Category::BlockUser,
        ch.users_to_block,
        Category::UnblockUser,
        ch.users_to_unblock,
    ) + pair_plan(
        o.upload_community_blocks,
        o.sync_removals,
        Category::BlockCommunity,
        ch.communities_to_block,
        Category::UnblockCommunity,
        ch.communities_to_unblock,
    ) + pair_plan(
        o.upload_community_subs,
        o.sync_removals,
        Category::FollowCommunity,
        ch.communities_to_follow,
        Category::UnfollowCommunity,
        ch.communities_to_unfollow,
    )
}

pub open spec fn tasks_view(tasks: Seq<ApplyTask>) -> Seq<(Category, Seq<char>)> {
    Seq::new(tasks.len(), |i: int| tasks[i]@)
}

fn push_tagged(tasks: &mut Vec<ApplyTask>, c: Category, names: &Vec<String>)
    ensures
        tasks_view(final(tasks)@) == tasks_view(old(tasks)@) + tagged(c, names.deep_view()),
{
    let ghost start = tasks_view(tasks@);
    for i in 0..names.len()
        invariant
            tasks_view(tasks@) == start + tagged(c, names.deep_view()).subrange(0, i as int),
    {
        let task = ApplyTask { category: c, identity: names[i].clone() };
        assert(task@ == (c, names.deep_view()[i as int]));
        let ghost before = tasks_view(tasks@);
        tasks.push(task);
        assert(tasks_view(tasks@) =~= before.push((c, names.deep_view()[i as int])));
        assert(tasks_view(tasks@) =~= start + tagged(c, names.deep_view()).subrange(0, i + 1));
    }
    assert(tagged(c, names.deep_view()).subrange(0, names.len() as int) =~= tagged(c, names.deep_view()));
}

fn push_pair(
    tasks: &mut Vec<ApplyTask>,
    on: bool,
    sync: bool,
    apply: Category,
    names: &Vec<String>,
    remove: Category,
    names_out: &Vec<String>,
)
    ensures
        tasks_view(final(tasks)@) == tasks_view(old(tasks)@) + pair_plan(
            on,
            sync,
            apply,
            names.deep_view(),
            remove,
            names_out.deep_view(),
        ),
{
    let ghost start = tasks_view(tasks@);
    if on {
        push_tagged(tasks, apply, names);
        if sync {
            push_tagged(tasks, remove, names_out);
            assert(tasks_view(tasks@) =~= start + (tagged(apply, names.deep_view()) + tagged(
                remove,
                names_out.deep_view(),
            )));
        }
    } else {
        assert(tasks_view(tasks@) =~= start + Seq::<(Category, Seq<char>)>::empty());
    }
}

/// The list of changes an upload makes, in the order it makes them.
pub fn plan_tasks(changes: &ProfileChanges, options: &GlobalSettings) -> (r: Vec<ApplyTask>)
    ensures
        tasks_view(r@) == planned(changes@, *options),
{
    let mut tasks: Vec<ApplyTask> = Vec::new();
    assert(tasks_view(tasks@) =~= Seq::<(Category, Seq<char>)>::empty());
    push_pair(
        &mut tasks,
        options.upload_user_blocks,
        options.sync_removals,
        Category::BlockUser,
        &changes.users_to_block,
        Category::UnblockUser,
        &changes.users_to_unblock,
    );
    push_pair(
        &mut tasks,
        options.upload_community_blocks,
        options.sync_removals,
        Category::BlockCommunity,
        &changes.communities_to_block,
        Category::UnblockCommunity,
        &changes.communities_to_unblock,
    );
    push_pair(
        &mut tasks,
        options.upload_community_subs,
        options.sync_removals,
        Category::FollowCommunity,
        &changes.communities_to_follow,
        Category::UnfollowCommunity,
        &changes.communities_to_unfollow,
    );
    assert(tasks_view(tasks@) =~= planned(changes@, *options));
    tasks
}

/// What the target account reports after a block or follow call.
#[derive(Debug, Clone, Copy, PartialEq, Eq, Structural)]
pub enum RemoteState {
    /// The block flag as it now stands.
    Blocked(bool),
    /// The subscription as it now stands.
    Subscription(Subscription),
}

#[derive(Debug, Clone, Copy, PartialEq, Eq, Structural)]
pub enum Subscription {
    Subscribed,
    NotSubscribed,
    Pending,
}

/// Whether a reply shows that a change of category `c` took effect. A follow
/// counts as done once it is subscribed or pending; any other change, once the
/// reported flag is the one asked for.
pub open spec fn took_effect(c: Category, s: RemoteState) -> bool {
    match s {
        RemoteState::Blocked(b) => c.spec_operation() != Operation::FollowCommunity && b == c.spec_enable(),
        RemoteState::Subscription(sub) => c.spec_operation() == Operation::FollowCommunity && if c.spec_enable() {
            sub != Subscription::NotSubscribed
        } else {
            sub == Subscription::NotSubscribed
        },
    }
}

fn reply_took_effect(c: Category, s: RemoteState) -> (r: bool)
    ensures
        r == took_effect(c, s),
{
    match s {
        RemoteState::Blocked(b) => c.operation() != Operation::FollowCommunity && b == c.enable(),
        RemoteState::Subscription(sub) => {
            if c.operation() != Operation::FollowCommunity {
                false
            } else if c.enable() {
                sub != Subscription::NotSubscribed
            } else {
                sub == Subscription::NotSubscribed
            }
        },
    }
}

/// The line for a change whose identity could not be resolved. Block and
/// unblock lines name the change; follow and unfollow lines do not.
pub open spec fn lookup_failure_text(t: (Category, Seq<char>), cause: Seq<char>) -> Seq<char> {
    if t.0.spec_operation() == Operation::FollowCommunity {
        "Cannot find "@ + t.0.noun() + " "@ + t.1 + ", got exception "@ + cause
    } else {
        "Cannot find "@ + t.0.noun() + " "@ + t.1 + " to "@ + t.0.verb() + ", got exception "@ + cause
    }
}

pub open spec fn refused_text(t: (Category, Seq<char>)) -> Seq<char> {
    "Server refused to "@ + t.0.verb() + " "@ + t.0.noun() + " "@ + t.1
}

pub open spec fn mutation_failure_text(t: (Category, Seq<char>), cause: Seq<char>) -> Seq<char> {
    "Got exception "@ + t.0.verb() + "ing "@ + t.0.noun() + " "@ + t.1 + ": "@ + cause
}

pub open spec fn save_failure_text(cause: Seq<char>) -> Seq<char> {
    "Cannot save profile settings, got exception "@ + cause
}

fn lookup_failure_message(t: &ApplyTask, cause: &String) -> (r: String)
    ensures
        r@ == lookup_failure_text(t@, cause@),
{
    let mut r = String::from_str("Cannot find ");
    r.append(t.category.noun_text());
    r.append(" ");
    r.append(t.identity.as_str());
    if t.category.operation() != Operation::FollowCommunity {
        r.append(" to ");
        r.append(t.category.verb_text());
    }
    r.append(", got exception ");
    r.append(cause.as_str());
    r
}

fn refused_message(t: &ApplyTask) -> (r: String)
    ensures
        r@ == refused_text(t@),
{
    let mut r = String::from_str("Server refused to ");
    r.append(t.category.verb_text());
    r.append(" ");
    r.append(t.category.noun_text());
    r.append(" ");
    r.append(t.identity.as_str());
    r
}

fn mutation_failure_message(t: &ApplyTask, cause: &String) -> (r: String)
    ensures
        r@ == mutation_failure_text(t@, cause@),
{
    let mut r = String::from_str("Got exception ");
    r.append(t.category.verb_text());
    r.append("ing ");
    r.append(t.category.noun_text());
    r.append(" ");
    r.append(t.identity.as_str());
    r.append(": ");
    r.append(cause.as_str());
    r
}

/// Where an upload run stands.
#[derive(Debug, Clone, Copy, PartialEq, Eq, Structural)]
pub enum Stage {
    /// The current change waits for its identity to be resolved to an id.
    Lookup,
    /// The current change waits for its call, on the resolved id.
    Mutate { id: i32 },
    /// Every change has had its outcome; the settings wait to be saved.
    SaveSettings,
    Done,
}

/// An outcome of the remote work that an action asked for.
#[derive(Debug)]
pub enum Event {
    /// A lookup gave the remote id, or failed with the cause.
    Resolved(Result<i32, String>),
    /// A block or follow call gave the reported state, or failed with the cause.
    Mutated(Result<RemoteState, String>),
    /// The settings save succeeded, or failed with the cause.
    SettingsSaved(Result<(), String>),
}

/// The remote work an upload run asks for next.
#[derive(Debug, Clone)]
pub enum Action {
    /// Look up the id of a user (when `user`) or community, then pause.
    Resolve { user: bool, identity: String, pause_ms: u64 },
    /// Set (when `enable`) or clear a flag on the resolved id, then pause.
    Mutate { operation: Operation, enable: bool, id: i32, pause_ms: u64 },
    /// Save the settings.
    SaveSettings(SettingsUpdate),
    /// Nothing is left to do.
    Finish,
}

/// The apply phase of an upload: the planned changes, taken one at a time,
/// each resolved and then applied, and the settings saved last. A failure
/// belongs to its change alone: the run records it and goes on.
pub struct ApplyRun {
    tasks: Vec<ApplyTask>,
    settings: Option<ProfileSettings>,
    delay_ms: u64,
    progress: Progress,
}

#[derive(Clone, Copy)]
struct Progress {
    next: usize,
    stage: Stage,
    applied: u64,
    failed: u64,
    settings_failed: bool,
}

pub ghost struct ApplyRunView {
    pub tasks: Seq<(Category, Seq<char>)>,
    pub settings: Option<ProfileSettingsView>,
    pub delay_ms: nat,
    /// The index of the current change; those before it have their outcome.
    pub next: nat,
    pub stage: Stage,
    /// How many changes took effect.
    pub applied: nat,
    /// How many changes failed: lookup failures, call failures and refusals.
    pub failed: nat,
    pub settings_failed: bool,
}

/// The stage once the changes before `next` have their outcome.
pub open spec fn stage_after(next: nat, len: nat, has_settings: bool) -> Stage {
    if next < len {
        Stage::Lookup
    } else if has_settings {
        Stage::SaveSettings
    } else {
        Stage::Done
    }
}

impl View for ApplyRun {
    type V = ApplyRunView;

    closed spec fn view(&self) -> ApplyRunView {
        ApplyRunView {
            tasks: tasks_view(self.tasks@),
            settings: match self.settings {
                Some(s) => Some(s@),
                None => None,
            },
            delay_ms: self.delay_ms as nat,
            next: self.progress.next as nat,
            stage: self.progress.stage,
            applied: self.progress.applied as nat,
            failed: self.progress.failed as nat,
            settings_failed: self.progress.settings_failed,
        }
    }
}

/// A run that has not started yet.
pub open spec fn fresh_run(ch: ProfileChangesView, o: GlobalSettings, delay_ms: nat) -> ApplyRunView {
    let tasks = planned(ch, o);
    let settings = if o.upload_profile_settings {
        Some(ch.profile_settings)
    } else {
        None
    };
    ApplyRunView {
        tasks,
        settings,
        delay_ms,
        next: 0,
        stage: stage_after(0, tasks.len(), settings is Some),
        applied: 0,
        failed: 0,
        settings_failed: false,
    }
}

/// The current change has its outcome: it took effect or not.
pub open spec fn advanced(v: ApplyRunView, took: bool) -> ApplyRunView {
    ApplyRunView {
        next: v.next + 1,
        stage: stage_after(v.next + 1, v.tasks.len(), v.settings is Some),
        applied: if took { v.applied + 1 } else { v.applied },
        failed: if took { v.failed } else { v.failed + 1 },
        ..v
    }
}

/// The run after event `e`. An event that the stage does not wait for
/// changes nothing.
pub open spec fn stepped(v: ApplyRunView, e: Event) -> ApplyRunView {
    match v.stage {
        Stage::Lookup => match e {
            Event::Resolved(Ok(id)) => ApplyRunView { stage: Stage::Mutate { id }, ..v },
            Event::Resolved(Err(_)) => advanced(v, false),
            _ => v,
        },
        Stage::Mutate { .. } => match e {
            Event::Mutated(Ok(s)) => advanced(v, took_effect(v.tasks[v.next as int].0, s)),
            Event::Mutated(Err(_)) => advanced(v, false),
            _ => v,
        },
        Stage::SaveSettings => match e {
            Event::SettingsSaved(r) => ApplyRunView { stage: Stage::Done, settings_failed: r is Err, ..v },
            _ => v,
        },
        Stage::Done => v,
    }
}

/// The line that event `e` has reported, if any.
pub open spec fn reported(v: ApplyRunView, e: Event) -> Option<Seq<char>> {
    match v.stage {
        Stage::Lookup => match e {
            Event::Resolved(Err(cause)) => Some(lookup_failure_text(v.tasks[v.next as int], cause@)),
            _ => None,
        },
        Stage::Mutate { .. } => match e {
            Event::Mutated(Ok(s)) => if took_effect(v.tasks[v.next as int].0, s) {
                None
            } else {
                Some(refused_text(v.tasks[v.next as int]))
            },
            Event::Mutated(Err(cause)) => Some(mutation_failure_text(v.tasks[v.next as int], cause@)),
            _ => None,
        },
        Stage::SaveSettings => match e {
            Event::SettingsSaved(Err(cause)) => Some(save_failure_text(cause@)),
            _ => None,
        },
        Stage::Done => None,
    }
}

/// Whether `a` is the action that a run in state `v` asks for.
pub open spec fn asks_for(v: ApplyRunView, a: Action) -> bool {
    match v.stage {
        Stage::Lookup => a matches Action::Resolve { user, identity, pause_ms } && user
            == v.tasks[v.next as int].0.spec_is_user() && identity@ == v.tasks[v.next as int].1
            && pause_ms == v.delay_ms,
        Stage::Mutate { id } => a matches Action::Mutate { operation, enable, id: i, pause_ms }
            && operation == v.tasks[v.next as int].0.spec_operation() && enable
            == v.tasks[v.next as int].0.spec_enable() && i == id && pause_ms == v.delay_ms,
        Stage::SaveSettings => a matches Action::SaveSettings(u) && v.settings matches Some(s)
            && settings_update_of(s, u),
        Stage::Done => a is Finish,
    }
}

/// A failed lookup never ends the batch: the change is counted as failed,
/// and while changes remain the run goes on to resolve the next one.
pub proof fn lemma_failed_lookup_moves_on(v: ApplyRunView, cause: String)
    requires
        v.stage is Lookup,
    ensures
        stepped(v, Event::Resolved(Err(cause))).next == v.next + 1,
        stepped(v, Event::Resolved(Err(cause))).failed == v.failed + 1,
        stepped(v, Event::Resolved(Err(cause))).applied == v.applied,
        v.next + 1 < v.tasks.len() ==> stepped(v, Event::Resolved(Err(cause))).stage is Lookup,
{
}

impl ApplyRun {
    #[verifier::type_invariant]
    closed spec fn inv(self) -> bool {
        let p = self.progress;
        &&& p.next <= self.tasks.len()
        &&& p.applied + p.failed == p.next
        &&& p.next < self.tasks.len() ==> (p.stage is Lookup || p.stage is Mutate)
        &&& p.next == self.tasks.len() ==> p.stage == stage_after(
            p.next as nat,
            self.tasks.len() as nat,
            self.settings is Some,
        ) || p.stage is Done
        &&& p.settings_failed ==> p.stage is Done
    }

    /// A run that applies `changes` as `options` choose, pausing `delay_ms`
    /// milliseconds after each remote call. It saves the settings only when
    /// they are chosen.
    pub fn new(changes: ProfileChanges, options: &GlobalSettings, delay_ms: u64) -> (r: ApplyRun)
        ensures
            r@ == fresh_run(changes@, *options, delay_ms as nat),
    {
        let tasks = plan_tasks(&changes, options);
        let settings = if options.upload_profile_settings {
            Some(changes.profile_settings)
        } else {
            None
        };
        let stage = if tasks.len() > 0 {
            Stage::Lookup
        } else if settings.is_some() {
            Stage::SaveSettings
        } else {
            Stage::Done
        };
        ApplyRun {
            tasks,
            settings,
            delay_ms,
            progress: Progress { next: 0, stage, applied: 0, failed: 0, settings_failed: false },
        }
    }

    /// What the run asks for next. Once it asks to save the settings or to
    /// finish, every planned change has its outcome.
    pub fn next_action(&self) -> (r: Action)
        ensures
            asks_for(self@, r),
            (r is SaveSettings || r is Finish) ==> self@.applied + self@.failed == self@.tasks.len()
                && self@.next == self@.tasks.len(),
    {
        proof {
            use_type_invariant(self);
        }
        let next = self.progress.next;
        match self.progress.stage {
            Stage::Lookup => {
                let t = &self.tasks[next];
                assert(t@ == self@.tasks[self@.next as int]);
                Action::Resolve { user: t.category.is_user(), identity: t.identity.clone(), pause_ms: self.delay_ms }
            },
            Stage::Mutate { id } => {
                let t = &self.tasks[next];
                assert(t@ == self@.tasks[self@.next as int]);
                Action::Mutate {
                    operation: t.category.operation(),
                    enable: t.category.enable(),
                    id,
                    pause_ms: self.delay_ms,
                }
            },
            Stage::SaveSettings => {
                match &self.settings {
                    Some(s) => Action::SaveSettings(ToAPI::construct_settings(s)),
                    None => Action::Finish,
                }
            },
            Stage::Done => Action::Finish,
        }
    }

    fn finish_item(&mut self, took: bool)
        requires
            old(self).progress.stage is Lookup || old(self).progress.stage is Mutate,
        ensures
            final(self)@ == advanced(old(self)@, took),
    {
        proof {
            use_type_invariant(&*self);
        }
        let p = self.progress;
        let next = p.next + 1;
        let stage = if next < self.tasks.len() {
            Stage::Lookup
        } else if self.settings.is_some() {
            Stage::SaveSettings
        } else {
            Stage::Done
        };
        let (applied, failed) = if took {
            (p.applied + 1, p.failed)
        } else {
            (p.applied, p.failed + 1)
        };
        self.progress = Progress { next, stage, applied, failed, settings_failed: p.settings_failed };
    }

    /// Takes in the outcome of the last action, and returns the line to
    /// report, if any. Failures are recorded against their change and the
    /// run goes on with the next one.
    pub fn handle(&mut self, event: Event) -> (r: Option<String>)
        ensures
            final(self)@ == stepped(old(self)@, event),
            r matches Some(line) ==> reported(old(self)@, event) == Some(line@),
            r is None ==> reported(old(self)@, event) is None,
    {
        proof {
            use_type_invariant(&*self);
        }
        let next = self.progress.next;
        match self.progress.stage {
            Stage::Lookup => match event {
                Event::Resolved(Ok(id)) => {
                    self.progress = Progress { stage: Stage::Mutate { id }, ..self.progress };
                    None
                },
                Event::Resolved(Err(cause)) => {
                    let line = lookup_failure_message(&self.tasks[next], &cause);
                    assert(self.tasks@[next as int]@ == self@.tasks[self@.next as int]);
                    self.finish_item(false);
                    Some(line)
                },
                _ => None,
            },
            Stage::Mutate { .. } => match event {
                Event::Mutated(Ok(state)) => {
                    let category = self.tasks[next].category;
                    assert(self.tasks@[next as int]@ == self@.tasks[self@.next as int]);
                    if reply_took_effect(category, state) {
                        self.finish_item(true);
                        None
                    } else {
                        let line = refused_message(&self.tasks[next]);
                        self.finish_item(false);
                        Some(line)
                    }
                },
                Event::Mutated(Err(cause)) => {
                    let line = mutation_failure_message(&self.tasks[next], &cause);
                    assert(self.tasks@[next as int]@ == self@.tasks[self@.next as int]);
                    self.finish_item(false);
                    Some(line)
                },
                _ => None,
            },
            Stage::SaveSettings => match event {
                Event::SettingsSaved(Ok(())) => {
                    self.progress = Progress { stage: Stage::Done, ..self.progress };
                    None
                },
                Event::SettingsSaved(Err(cause)) => {
                    self.progress = Progress { stage: Stage::Done, settings_failed: true, ..self.progress };
                    let mut line = String::from_str("Cannot save profile settings, got exception ");
                    line.append(cause.as_str());
                    Some(line)
                },
                _ => None,
            },
            Stage::Done => None,
        }
    }

    /// How many planned changes took effect so far.
    pub fn applied(&self) -> (r: u64)
        ensures
            r == self@.applied,
    {
        self.progress.applied
    }

    /// How many planned changes failed so far.
    pub fn failed(&self) -> (r: u64)
        ensures
            r == self@.failed,
    {
        self.progress.failed
    }

    /// How many changes the run has planned.
    pub fn planned_len(&self) -> (r: usize)
        ensures
            r == self@.tasks.len(),
    {
        self.tasks.len()
    }

    /// Whether the run has nothing left to do.
    pub fn is_done(&self) -> (r: bool)
        ensures
            r == (self@.stage is Done),
    {
        self.progress.stage == Stage::Done
    }

    /// Whether saving the settings failed.
    pub fn settings_failed(&self) -> (r: bool)
        ensures
            r == self@.settings_failed,
    {
        self.progress.settings_failed
    }
}

} // verus!
