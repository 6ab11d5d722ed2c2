use vstd::prelude::*;

use crate::apply::fresh_run;
use crate::apply::ApplyRun;
use crate::apply::GlobalSettings;
use crate::profile::calculate_changes;
use crate::profile::diff;
use crate::profile::ProfileChangesView;
use crate::profile::ProfileConfiguration;
use crate::rate_limit::compute_delay;
use crate::rate_limit::delay_millis;
use crate::text::decimal;
use crate::text::push_decimal;

verus! {

/// Remote calls an upload makes: a lookup and a change for each planned
/// change, and one more to save the settings when they are chosen.
pub open spec fn calls_needed(tasks: nat, save_settings: bool) -> nat {
    2 * tasks + if save_settings { 1nat } else { 0nat }
}

/// Whole seconds that `calls` calls take with a pause of `delay_ms` after each.
pub open spec fn estimate_secs(delay_ms: nat, calls: nat) -> nat {
    delay_ms * calls / 1000
}

pub open spec fn estimate_text(secs: nat) -> Seq<char> {
    if secs > 60 {
        "Estimated Upload Time: "@ + decimal(secs / 60) + "m "@ + decimal(secs % 60) + "s"@
    } else {
        "Estimated Upload Time: "@ + decimal(secs) + "s"@
    }
}

/// The count lines of one pair of categories.
pub open spec fn count_lines(
    on: bool,
    sync: bool,
    n: nat,
    text: Seq<char>,
    n_out: nat,
    text_out: Seq<char>,
) -> Seq<Seq<char>> {
    if !on {
        Seq::empty()
    } else if sync {
        seq![decimal(n) + text, decimal(n_out) + text_out]
    } else {
        seq![decimal(n) + text]
    }
}

/// What an upload announces before it starts: whether the settings are
/// applied, how many changes of each chosen category it makes, and how long
/// it is expected to take.
pub open spec fn announcement(ch: ProfileChangesView, o: GlobalSettings, secs: nat) -> Seq<Seq<char>> {
    (if o.upload_profile_settings {
        seq!["All profile settings from the original profile will be applied."@]
    } else {
        Seq::empty()
    }) + count_lines(
        o.upload_user_blocks,
        o.sync_removals,
        ch.users_to_block.len(),
        " new users will be blocked"@,
        ch.users_to_unblock.len(),
        " users will be unblocked"@,
    ) + count_lines(
        o.upload_community_blocks,
        o.sync_removals,
        ch.communities_to_block.len(),
        " new communities will be blocked"@,
        ch.communities_to_unblock.len(),
        " communities will be unblocked"@,
    ) + count_lines(
        o.upload_community_subs,
        o.sync_removals,
        ch.communities_to_follow.len(),
        " new communities will be followed"@,
        ch.communities_to_unfollow.len(),
        " communities will be unfollowed"@,
    ) + seq![estimate_text(secs)]
}

pub open spec fn lines_view(v: Seq<String>) -> Seq<Seq<char>> {
    Seq::new(v.len(), |i: int| v[i]@)
}

/// Seconds an upload of `calls` calls is expected to take.
pub fn estimated_seconds(delay_ms: u64, calls: u128) -> (r: u128)
    requires
        delay_ms as int * calls as int <= u128::MAX,
    ensures
        r == estimate_secs(delay_ms as nat, calls as nat),
{
    (delay_ms as u128) * calls / 1000
}

/// The line that announces the expected duration.
pub fn estimate_line(secs: u128) -> (r: String)
    ensures
        r@ == estimate_text(secs as nat),
{
    let mut r = String::from_str("Estimated Upload Time: ");
    if secs > 60 {
        push_decimal(&mut r, secs / 60);
        r.append("m ");
        push_decimal(&mut r, secs % 60);
        r.append("s");
    } else {
        push_decimal(&mut r, secs);
        r.append("s");
    }
    r
}

fn count_line(n: usize, text: &str) -> (r: String)
    ensures
        r@ == decimal(n as nat) + text@,
{
    let mut r = String::new();
    push_decimal(&mut r, n as u128);
    r.append(text);
    assert(r@ =~= decimal(n as nat) + text@);
    r
}

fn push_count_lines(
    lines: &mut Vec<String>,
    on: bool,
    sync: bool,
    n: usize,
    text: &str,
    n_out: usize,
    text_out: &str,
)
    ensures
        lines_view(final(lines)@) == lines_view(old(lines)@) + count_lines(
            on,
            sync,
            n as nat,
            text@,
            n_out as nat,
            text_out@,
        ),
{
    let ghost start = lines_view(lines@);
    if on {
        lines.push(count_line(n, text));
        if sync {
            lines.push(count_line(n_out, text_out));
        }
    }
    assert(lines_view(lines@) =~= start + count_lines(on, sync, n as nat, text@, n_out as nat, text_out@));
}

/// Everything an upload needs once both snapshots are at hand.
pub struct UploadPlan {
    /// The apply phase, ready to run.
    pub run: ApplyRun,
    /// The pause after each remote call.
    pub delay_ms: u64,
    /// The remote calls the run will make.
    pub calls: u128,
    /// The lines to report before the run starts.
    pub announcements: Vec<String>,
}

/// Plans the upload of snapshot `source` onto an account whose current
/// snapshot is `current`, as `options` choose, on a server that allows
/// `messages` calls in each window of `window_seconds` seconds.
pub fn plan_upload(
    source: &ProfileConfiguration,
    current: &ProfileConfiguration,
    options: &GlobalSettings,
    messages: i32,
    window_seconds: i32,
) -> (r: UploadPlan)
    ensures
        r.delay_ms == delay_millis(messages as int, window_seconds as int),
        r.run@ == fresh_run(diff(source@, current@), *options, r.delay_ms as nat),
        r.calls == calls_needed(r.run@.tasks.len(), options.upload_profile_settings),
        lines_view(r.announcements@) == announcement(
            diff(source@, current@),
            *options,
            estimate_secs(r.delay_ms as nat, r.calls as nat),
        ),
{
    let changes = calculate_changes(source, current);
    let delay_ms = compute_delay(messages, window_seconds);
    let mut lines: Vec<String> = Vec::new();
    if options.upload_profile_settings {
        lines.push(String::from_str("All profile settings from the original profile will be applied."));
    }
    let ghost ch = changes@;
    let ghost head: Seq<Seq<char>> = if options.upload_profile_settings {
        seq!["All profile settings from the original profile will be applied."@]
    } else {
        Seq::empty()
    };
    assert(lines_view(lines@) =~= head);
    push_count_lines(
        &mut lines,
        options.upload_user_blocks,
        options.sync_removals,
        changes.users_to_block.len(),
        " new users will be blocked",
        changes.users_to_unblock.len(),
        " users will be unblocked",
    );
    push_count_lines(
        &mut lines,
        options.upload_community_blocks,
        options.sync_removals,
        changes.communities_to_block.len(),
        " new communities will be blocked",
        changes.communities_to_unblock.len(),
        " communities will be unblocked",
    );
    push_count_lines(
        &mut lines,
        options.upload_community_subs,
        options.sync_removals,
        changes.communities_to_follow.len(),
        " new communities will be followed",
        changes.communities_to_unfollow.len(),
        " communities will be unfollowed",
    );
    let run = ApplyRun::new(changes, options, delay_ms);
    let n = run.planned_len();
    let calls: u128 = 2 * (n as u128) + if options.upload_profile_settings { 1 } else { 0 };
    assert(delay_ms as int * calls as int <= u128::MAX) by (nonlinear_arith)
        requires
            delay_ms <= 1000 * i32::MAX,
            calls <= 2 * (usize::MAX as int) + 1,
    ;
    let secs = estimated_seconds(delay_ms, calls);
    let ghost before = lines_view(lines@);
    lines.push(estimate_line(secs));
    assert(lines_view(lines@) =~= before.push(estimate_text(secs as nat)));
    assert(lines_view(lines@) =~= announcement(ch, *options, estimate_secs(delay_ms as nat, calls as nat)));
    UploadPlan { run, delay_ms, calls, announcements: lines }
}

} // verus!
