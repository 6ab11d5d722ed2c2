use vstd::prelude::*;

use crate::apply::fresh_run;
use crate::apply::reported;
use crate::apply::stepped;
use crate::apply::Action;
use crate::apply::ApplyRun;
use crate::apply::ApplyRunView;
use crate::apply::Event;
use crate::apply::GlobalSettings;
use crate::apply::Stage;
use crate::input::evaluate_two_factor_token;
use crate::input::instance_address;
use crate::input::instance_url;
use crate::input::token_length_text;
use crate::input::token_number_text;
use crate::input::url_accepts;
use crate::input::with_scheme;
use crate::input::TOKEN_LENGTH;
use crate::lemmy::typecast::profile_of;
use crate::lemmy::typecast::FromAPI;
use crate::lemmy::typecast::RemoteAccount;
use crate::migrations::profile_migrate::snapshot_error_text;
use crate::migrations::profile_migrate::SnapshotError;
use crate::profile::diff;
use crate::profile::ProfileConfiguration;
use crate::profile::ProfileConfigurationView;
use crate::rate_limit::delay_millis;
use crate::text::decimal;
use crate::text::all_ascii_digits;
use crate::text::push_decimal;
use crate::upload::announcement;
use crate::upload::calls_needed;
use crate::upload::estimate_secs;
use crate::upload::lines_view;
use crate::upload::plan_upload;

verus! {

/// What a run does: copy an account into a local snapshot, or apply the
/// newest local snapshot to an account.
#[derive(Debug, Clone, Copy, PartialEq, Eq, Structural)]
pub enum Mode {
    Download,
    Upload,
}

/// What the site description of an instance holds that a run needs: the
/// logged-in account, if any, and the message quota of `rate_limit_messages`
/// calls in each window of `rate_limit_window` seconds.
#[derive(Debug, Clone)]
pub struct RemoteSite {
    pub account: Option<RemoteAccount>,
    pub rate_limit_messages: i32,
    pub rate_limit_window: i32,
}

/// Why connecting to an instance failed.
#[derive(Debug, Clone)]
pub enum ConnectError {
    /// No HTTP client could be made for the instance; with the cause.
    Client(String),
    /// The login was refused or failed; with the cause.
    Login(String),
}

/// The remote or local work a run asks for next.
#[derive(Debug)]
pub enum SessionAction {
    /// Read the newest local snapshot.
    ReadSnapshot,
    /// Log in at the instance at `address`.
    Connect { address: String, username: String, password: String, two_factor_token: Option<String> },
    /// Fetch the site description with the logged-in account.
    FetchRemoteState,
    /// A step of the apply phase.
    Apply(Action),
    /// Write this snapshot under the current snapshot file name.
    WriteSnapshot(ProfileConfiguration),
    /// The run is over.
    Finish,
}

/// An outcome of the work that a session action asked for.
#[derive(Debug)]
pub enum SessionEvent {
    SnapshotRead(Result<ProfileConfiguration, SnapshotError>),
    Connected(Result<(), ConnectError>),
    RemoteFetched(Result<RemoteSite, String>),
    Applied(Event),
    SnapshotWritten,
}

#[derive(Debug, Clone, Copy, PartialEq, Eq, Structural)]
pub enum Phase {
    ReadingSnapshot,
    Authenticating,
    FetchingRemoteState,
    Applying,
    WritingSnapshot,
    Done,
    Aborted,
}

enum SessionStage {
    ReadingSnapshot,
    /// `source` is the snapshot to upload; none on a download.
    Authenticating { source: Option<ProfileConfiguration> },
    FetchingRemoteState { source: Option<ProfileConfiguration> },
    Applying(ApplyRun),
    WritingSnapshot(ProfileConfiguration),
    Done,
    Aborted,
}

/// One download or upload run, from its input to its end. Every decision of
/// the run is taken here; the caller performs the actions it asks for and
/// hands back their outcomes. A failure to read the snapshot, to log in or to
/// fetch the account ends the run; a failure of one change does not.
pub struct Session {
    address: String,
    username: String,
    password: String,
    two_factor_token: Option<String>,
    options: GlobalSettings,
    stage: SessionStage,
}

pub ghost struct SessionView {
    pub address: Seq<char>,
    pub username: Seq<char>,
    pub password: Seq<char>,
    pub two_factor_token: Option<Seq<char>>,
    pub options: GlobalSettings,
    pub phase: Phase,
    /// The snapshot to upload, while the run waits to log in and fetch.
    pub source: Option<ProfileConfigurationView>,
    pub run: Option<ApplyRunView>,
    /// The snapshot to write, on a download.
    pub download: Option<ProfileConfigurationView>,
}

pub open spec fn opt_profile(p: Option<ProfileConfiguration>) -> Option<ProfileConfigurationView> {
    match p {
        Some(p) => Some(p@),
        None => None,
    }
}

impl View for Session {
    type V = SessionView;

    closed spec fn view(&self) -> SessionView {
        let base = SessionView {
            address: self.address@,
            username: self.username@,
            password: self.password@,
            two_factor_token: match self.two_factor_token {
                Some(t) => Some(t@),
                None => None,
            },
            options: self.options,
            phase: Phase::Done,
            source: None,
            run: None,
            download: None,
        };
        match self.stage {
            SessionStage::ReadingSnapshot => SessionView { phase: Phase::ReadingSnapshot, ..base },
            SessionStage::Authenticating { source } => SessionView {
                phase: Phase::Authenticating,
                source: opt_profile(source),
                ..base
            },
            SessionStage::FetchingRemoteState { source } => SessionView {
                phase: Phase::FetchingRemoteState,
                source: opt_profile(source),
                ..base
            },
            SessionStage::Applying(run) => SessionView { phase: Phase::Applying, run: Some(run@), ..base },
            SessionStage::WritingSnapshot(p) => SessionView {
                phase: Phase::WritingSnapshot,
                download: Some(p@),
                ..base
            },
            SessionStage::Done => base,
            SessionStage::Aborted => SessionView { phase: Phase::Aborted, ..base },
        }
    }
}

pub open spec fn login_text(username: Seq<char>) -> Seq<char> {
    "Logging in as "@ + username
}

pub open spec fn summary_text(run: ApplyRunView) -> Seq<char> {
    decimal(run.applied) + " changes applied, "@ + decimal(run.failed) + " failed."@
}

/// The lines that close an upload whose apply phase is over.
pub open spec fn closing_lines(run: ApplyRunView) -> Seq<Seq<char>> {
    if run.stage is Done {
        seq![summary_text(run), "Finished!"@]
    } else {
        Seq::empty()
    }
}

/// The phase of a run whose apply phase is in `run`.
pub open spec fn applying_phase(run: ApplyRunView) -> Phase {
    if run.stage is Done {
        Phase::Done
    } else {
        Phase::Applying
    }
}

/// The apply phase that an upload of `source` starts with, once the account
/// is known.
pub open spec fn upload_run(source: ProfileConfigurationView, site: RemoteSite, a: RemoteAccount, o: GlobalSettings) -> ApplyRunView {
    fresh_run(
        diff(source, profile_of(a)),
        o,
        delay_millis(site.rate_limit_messages as int, site.rate_limit_window as int) as nat,
    )
}

/// The session after event `e`. An event that the phase does not wait for
/// changes nothing.
pub open spec fn session_stepped(v: SessionView, e: SessionEvent) -> SessionView {
    let at_end = SessionView { phase: Phase::Done, source: None, run: None, download: None, ..v };
    let aborted = SessionView { phase: Phase::Aborted, source: None, run: None, download: None, ..v };
    match v.phase {
        Phase::ReadingSnapshot => match e {
            SessionEvent::SnapshotRead(Ok(p)) => SessionView {
                phase: Phase::Authenticating,
                source: Some(p@),
                ..v
            },
            SessionEvent::SnapshotRead(Err(_)) => aborted,
            _ => v,
        },
        Phase::Authenticating => match e {
            SessionEvent::Connected(Ok(())) => SessionView { phase: Phase::FetchingRemoteState, ..v },
            SessionEvent::Connected(Err(_)) => aborted,
            _ => v,
        },
        Phase::FetchingRemoteState => match e {
            SessionEvent::RemoteFetched(Ok(site)) => match site.account {
                Some(a) => match v.source {
                    Some(s) => {
                        let run = upload_run(s, site, a, v.options);
                        SessionView {
                            phase: applying_phase(run),
                            source: None,
                            run: if run.stage is Done {
                                None
                            } else {
                                Some(run)
                            },
                            ..v
                        }
                    },
                    None => SessionView {
                        phase: Phase::WritingSnapshot,
                        download: Some(profile_of(a)),
                        ..v
                    },
                },
                None => aborted,
            },
            SessionEvent::RemoteFetched(Err(_)) => aborted,
            _ => v,
        },
        Phase::Applying => match e {
            SessionEvent::Applied(ev) => {
                let run = stepped(v.run->Some_0, ev);
                if run.stage is Done {
                    at_end
                } else {
                    SessionView { run: Some(run), ..v }
                }
            },
            _ => v,
        },
        Phase::WritingSnapshot => match e {
            SessionEvent::SnapshotWritten => at_end,
            _ => v,
        },
        _ => v,
    }
}

/// The lines that event `e` has reported.
pub open spec fn session_reported(v: SessionView, e: SessionEvent) -> Seq<Seq<char>> {
    match v.phase {
        Phase::ReadingSnapshot => match e {
            SessionEvent::SnapshotRead(Ok(_)) => seq![login_text(v.username)],
            SessionEvent::SnapshotRead(Err(err)) => seq![snapshot_error_text(err)],
            _ => Seq::empty(),
        },
        Phase::Authenticating => match e {
            SessionEvent::Connected(Ok(())) => seq!["Login Successful."@],
            SessionEvent::Connected(Err(ConnectError::Client(cause))) => seq![
                "ERROR: Invalid Instance URL (or instance is down) - "@ + cause@,
            ],
            SessionEvent::Connected(Err(ConnectError::Login(cause))) => seq![
                "ERROR: Failed Login - "@ + cause@,
            ],
            _ => Seq::empty(),
        },
        Phase::FetchingRemoteState => match e {
            SessionEvent::RemoteFetched(Ok(site)) => match site.account {
                Some(a) => match v.source {
                    Some(s) => {
                        let run = upload_run(s, site, a, v.options);
                        seq!["Existing Settings Downloaded. Calculating delta..."@] + announcement(
                            diff(s, profile_of(a)),
                            v.options,
                            estimate_secs(
                                run.delay_ms,
                                calls_needed(run.tasks.len(), v.options.upload_profile_settings),
                            ),
                        ) + closing_lines(run)
                    },
                    None => seq!["Profile retrieved!"@],
                },
                None => seq!["ERROR: Failed to fetch Profile - no logged-in user in the reply"@],
            },
            SessionEvent::RemoteFetched(Err(cause)) => seq!["ERROR: Failed to fetch Profile - "@ + cause@],
            _ => Seq::empty(),
        },
        Phase::Applying => match e {
            SessionEvent::Applied(ev) => {
                let run = v.run->Some_0;
                (match reported(run, ev) {
                    Some(line) => seq![line],
                    None => Seq::empty(),
                }) + closing_lines(stepped(run, ev))
            },
            _ => Seq::empty(),
        },
        _ => Seq::empty(),
    }
}

/// Whether `a` is the action that a session in state `v` asks for.
pub open spec fn session_asks_for(v: SessionView, a: SessionAction) -> bool {
    match v.phase {
        Phase::ReadingSnapshot => a is ReadSnapshot,
        Phase::Authenticating => a matches SessionAction::Connect {
            address,
            username,
            password,
            two_factor_token,
        } && address@ == v.address && username@ == v.username && password@ == v.password
            && match two_factor_token {
            Some(t) => v.two_factor_token == Some(t@),
            None => v.two_factor_token is None,
        },
        Phase::FetchingRemoteState => a is FetchRemoteState,
        Phase::Applying => a matches SessionAction::Apply(step) && crate::apply::asks_for(
            v.run->Some_0,
            step,
        ),
        Phase::WritingSnapshot => a matches SessionAction::WriteSnapshot(p) && v.download == Some(p@),
        Phase::Done | Phase::Aborted => a is Finish,
    }
}

/// How a run starts: the input is checked before anything else, and a bad
/// one-time token or instance address ends it at once.
pub open spec fn start_phase(mode: Mode, instance: Seq<char>, token: Seq<char>) -> Phase {
    if token.len() != 0 && (token.len() != TOKEN_LENGTH || !all_ascii_digits(token)) {
        Phase::Aborted
    } else if !url_accepts(with_scheme(instance)) {
        Phase::Aborted
    } else if mode == Mode::Upload {
        Phase::ReadingSnapshot
    } else {
        Phase::Authenticating
    }
}

pub open spec fn start_lines(mode: Mode, instance: Seq<char>, username: Seq<char>, token: Seq<char>) -> Seq<Seq<char>> {
    if token.len() != 0 && token.len() != TOKEN_LENGTH {
        seq!["ERROR: Invalid 2FA Token - "@ + token_length_text()]
    } else if token.len() != 0 && !all_ascii_digits(token) {
        seq!["ERROR: Invalid 2FA Token - "@ + token_number_text()]
    } else if !url_accepts(with_scheme(instance)) {
        seq!["ERROR: Invalid Instance URL"@]
    } else if mode == Mode::Upload {
        Seq::empty()
    } else {
        seq![login_text(username)]
    }
}

fn login_line(username: &String) -> (r: String)
    ensures
        r@ == login_text(username@),
{
    let mut r = String::from_str("Logging in as ");
    r.append(username.as_str());
    r
}

fn text_line(prefix: &str, cause: &String) -> (r: String)
    ensures
        r@ == prefix@ + cause@,
{
    let mut r = String::from_str(prefix);
    r.append(cause.as_str());
    r
}

fn push_closing_lines(lines: &mut Vec<String>, run: &ApplyRun)
    ensures
        lines_view(final(lines)@) == lines_view(old(lines)@) + closing_lines(run@),
{
    let ghost start = lines_view(lines@);
    if run.is_done() {
        let mut summary = String::new();
        push_decimal(&mut summary, run.applied() as u128);
        summary.append(" changes applied, ");
        push_decimal(&mut summary, run.failed() as u128);
        summary.append(" failed.");
        lines.push(summary);
        lines.push(String::from_str("Finished!"));
        assert(summary@ =~= summary_text(run@));
    }
    assert(lines_view(lines@) =~= start + closing_lines(run@));
}

impl Session {
    /// A run of `mode` at the instance typed as `instance`, as `username`
    /// with `password` and the one-time token typed as `two_factor_token`
    /// (empty when none), applying what `options` choose; with the lines to
    /// report at once.
    pub fn new(
        mode: Mode,
        instance: &str,
        username: &str,
        password: &str,
        two_factor_token: &str,
        options: GlobalSettings,
    ) -> (r: (Session, Vec<String>))
        ensures
            r.0@.phase == start_phase(mode, instance@, two_factor_token@),
            r.0@.address == with_scheme(instance@),
            r.0@.username == username@,
            r.0@.password == password@,
            r.0@.two_factor_token == (if two_factor_token@.len() == 0 {
                None::<Seq<char>>
            } else {
                Some(two_factor_token@)
            }),
            r.0@.options == options,
            r.0@.source is None && r.0@.run is None && r.0@.download is None,
            lines_view(r.1@) == start_lines(mode, instance@, username@, two_factor_token@),
    {
        let address = instance_address(instance);
        let username = String::from_str(username);
        let mut lines: Vec<String> = Vec::new();
        let (token, token_ok) = match evaluate_two_factor_token(two_factor_token) {
            Ok(t) => (t, true),
            Err(m) => {
                let mut line = String::from_str("ERROR: Invalid 2FA Token - ");
                line.append(m);
                lines.push(line);
                (None, false)
            },
        };
        let stage = if !token_ok {
            SessionStage::Aborted
        } else if instance_url(instance).is_none() {
            lines.push(String::from_str("ERROR: Invalid Instance URL"));
            SessionStage::Aborted
        } else if mode == Mode::Upload {
            SessionStage::ReadingSnapshot
        } else {
            lines.push(login_line(&username));
            SessionStage::Authenticating { source: None }
        };
        let token = if two_factor_token.unicode_len() == 0 {
            None
        } else {
            Some(String::from_str(two_factor_token))
        };
        let r = Session { address, username, password: String::from_str(password), two_factor_token: token, options, stage };
        assert(lines_view(lines@) =~= start_lines(mode, instance@, r.username@, two_factor_token@));
        (r, lines)
    }

    /// What the run asks for next. A run that has ended asks for nothing
    /// more, whatever made it end.
    pub fn next_action(&self) -> (r: SessionAction)
        ensures
            session_asks_for(self@, r),
    {
        match &self.stage {
            SessionStage::ReadingSnapshot => SessionAction::ReadSnapshot,
            SessionStage::Authenticating { .. } => SessionAction::Connect {
                address: self.address.clone(),
                username: self.username.clone(),
                password: self.password.clone(),
                two_factor_token: match &self.two_factor_token {
                    Some(t) => Some(t.clone()),
                    None => None,
                },
            },
            SessionStage::FetchingRemoteState { .. } => SessionAction::FetchRemoteState,
            SessionStage::Applying(run) => SessionAction::Apply(run.next_action()),
            SessionStage::WritingSnapshot(p) => SessionAction::WriteSnapshot(p.duplicate()),
            SessionStage::Done | SessionStage::Aborted => SessionAction::Finish,
        }
    }

    /// Takes in the outcome of the last action, and returns the lines to report.
    pub fn handle(&mut self, event: SessionEvent) -> (r: Vec<String>)
        ensures
            final(self)@ == session_stepped(old(self)@, event),
            lines_view(r@) == session_reported(old(self)@, event),
    {
        match self.phase() {
            Phase::ReadingSnapshot => self.handle_reading(event),
            Phase::Authenticating => self.handle_authenticating(event),
            Phase::FetchingRemoteState => self.handle_fetching(event),
            Phase::Applying => self.handle_applying(event),
            Phase::WritingSnapshot => self.handle_writing(event),
            Phase::Done | Phase::Aborted => {
                let lines: Vec<String> = Vec::new();
                assert(lines_view(lines@) =~= Seq::<Seq<char>>::empty());
                lines
            },
        }
    }

    fn handle_reading(&mut self, event: SessionEvent) -> (r: Vec<String>)
        requires
            old(self)@.phase == Phase::ReadingSnapshot,
        ensures
            final(self)@ == session_stepped(old(self)@, event),
            lines_view(r@) == session_reported(old(self)@, event),
    {
        let ghost v = self@;
        let mut lines: Vec<String> = Vec::new();
        match event {
            SessionEvent::SnapshotRead(Ok(p)) => {
                lines.push(login_line(&self.username));
                self.stage = SessionStage::Authenticating { source: Some(p) };
            },
            SessionEvent::SnapshotRead(Err(e)) => {
                lines.push(e.message());
                self.stage = SessionStage::Aborted;
            },
            _ => {},
        }
        assert(self@ =~= session_stepped(v, event));
        assert(lines_view(lines@) =~= session_reported(v, event));
        lines
    }

    fn handle_authenticating(&mut self, event: SessionEvent) -> (r: Vec<String>)
        requires
            old(self)@.phase == Phase::Authenticating,
        ensures
            final(self)@ == session_stepped(old(self)@, event),
            lines_view(r@) == session_reported(old(self)@, event),
    {
        let ghost v = self@;
        let mut stage = SessionStage::Done;
        std::mem::swap(&mut self.stage, &mut stage);
        let mut lines: Vec<String> = Vec::new();
        let next = match stage {
            SessionStage::Authenticating { source } => match event {
                SessionEvent::Connected(Ok(())) => {
                    lines.push(String::from_str("Login Successful."));
                    SessionStage::FetchingRemoteState { source }
                },
                SessionEvent::Connected(Err(ConnectError::Client(cause))) => {
                    lines.push(text_line("ERROR: Invalid Instance URL (or instance is down) - ", &cause));
                    SessionStage::Aborted
                },
                SessionEvent::Connected(Err(ConnectError::Login(cause))) => {
                    lines.push(text_line("ERROR: Failed Login - ", &cause));
                    SessionStage::Aborted
                },
                _ => SessionStage::Authenticating { source },
            },
            other => other,
        };
        self.stage = next;
        assert(self@ =~= session_stepped(v, event));
        assert(lines_view(lines@) =~= session_reported(v, event));
        lines
    }

    fn start_upload(&self, source: ProfileConfiguration, site: &RemoteSite, account: &RemoteAccount) -> (r: (
        SessionStage,
        Vec<String>,
    ))
        ensures
            ({
                let run = upload_run(source@, *site, *account, self@.options);
                &&& r.0 matches SessionStage::Applying(a) ==> !(run.stage is Done) && a@ == run
                &&& (r.0 is Done && run.stage is Done) || r.0 is Applying
                &&& lines_view(r.1@) == seq!["Existing Settings Downloaded. Calculating delta..."@]
                    + announcement(
                    diff(source@, profile_of(*account)),
                    self@.options,
                    estimate_secs(
                        run.delay_ms,
                        calls_needed(run.tasks.len(), self@.options.upload_profile_settings),
                    ),
                ) + closing_lines(run)
            }),
    {
        let current = FromAPI::construct_profile(account);
        let mut lines: Vec<String> = Vec::new();
        lines.push(String::from_str("Existing Settings Downloaded. Calculating delta..."));
        let plan = plan_upload(&source, &current, &self.options, site.rate_limit_messages, site.rate_limit_window);
        let ghost head = lines_view(lines@);
        let mut announced = plan.announcements;
        let ghost told = lines_view(announced@);
        lines.append(&mut announced);
        assert(lines_view(lines@) =~= head + told);
        let run = plan.run;
        push_closing_lines(&mut lines, &run);
        let stage = if run.is_done() {
            SessionStage::Done
        } else {
            SessionStage::Applying(run)
        };
        (stage, lines)
    }

    fn handle_fetching(&mut self, event: SessionEvent) -> (r: Vec<String>)
        requires
            old(self)@.phase == Phase::FetchingRemoteState,
        ensures
            final(self)@ == session_stepped(old(self)@, event),
            lines_view(r@) == session_reported(old(self)@, event),
    {
        let ghost v = self@;
        let mut stage = SessionStage::Done;
        std::mem::swap(&mut self.stage, &mut stage);
        let mut lines: Vec<String> = Vec::new();
        let next = match stage {
            SessionStage::FetchingRemoteState { source } => match event {
                SessionEvent::RemoteFetched(Ok(site)) => match &site.account {
                    Some(account) => match source {
                        Some(s) => {
                            let (next, told) = self.start_upload(s, &site, account);
                            lines = told;
                            next
                        },
                        None => {
                            lines.push(String::from_str("Profile retrieved!"));
                            SessionStage::WritingSnapshot(FromAPI::construct_profile(account))
                        },
                    },
                    None => {
                        lines.push(String::from_str("ERROR: Failed to fetch Profile - no logged-in user in the reply"));
                        SessionStage::Aborted
                    },
                },
                SessionEvent::RemoteFetched(Err(cause)) => {
                    lines.push(text_line("ERROR: Failed to fetch Profile - ", &cause));
                    SessionStage::Aborted
                },
                _ => SessionStage::FetchingRemoteState { source },
            },
            other => other,
        };
        self.stage = next;
        assert(self@ =~= session_stepped(v, event));
        assert(lines_view(lines@) =~= session_reported(v, event));
        lines
    }

    fn handle_applying(&mut self, event: SessionEvent) -> (r: Vec<String>)
        requires
            old(self)@.phase == Phase::Applying,
        ensures
            final(self)@ == session_stepped(old(self)@, event),
            lines_view(r@) == session_reported(old(self)@, event),
    {
        let ghost v = self@;
        let mut stage = SessionStage::Done;
        std::mem::swap(&mut self.stage, &mut stage);
        let mut lines: Vec<String> = Vec::new();
        let next = match stage {
            SessionStage::Applying(run) => match event {
                SessionEvent::Applied(ev) => {
                    let mut run = run;
                    match run.handle(ev) {
                        Some(line) => lines.push(line),
                        None => {},
                    }
                    push_closing_lines(&mut lines, &run);
                    if run.is_done() {
                        SessionStage::Done
                    } else {
                        SessionStage::Applying(run)
                    }
                },
                _ => SessionStage::Applying(run),
            },
            other => other,
        };
        self.stage = next;
        assert(self@ =~= session_stepped(v, event));
        assert(lines_view(lines@) =~= session_reported(v, event));
        lines
    }

    fn handle_writing(&mut self, event: SessionEvent) -> (r: Vec<String>)
        requires
            old(self)@.phase == Phase::WritingSnapshot,
        ensures
            final(self)@ == session_stepped(old(self)@, event),
            lines_view(r@) == session_reported(old(self)@, event),
    {
        let ghost v = self@;
        match event {
            SessionEvent::SnapshotWritten => {
                self.stage = SessionStage::Done;
            },
            _ => {},
        }
        let lines: Vec<String> = Vec::new();
        assert(self@ =~= session_stepped(v, event));
        assert(lines_view(lines@) =~= session_reported(v, event));
        lines
    }

    /// The phase the run is in.
    pub fn phase(&self) -> (r: Phase)
        ensures
            r == self@.phase,
    {
        match &self.stage {
            SessionStage::ReadingSnapshot => Phase::ReadingSnapshot,
            SessionStage::Authenticating { .. } => Phase::Authenticating,
            SessionStage::FetchingRemoteState { .. } => Phase::FetchingRemoteState,
            SessionStage::Applying(_) => Phase::Applying,
            SessionStage::WritingSnapshot(_) => Phase::WritingSnapshot,
            SessionStage::Done => Phase::Done,
            SessionStage::Aborted => Phase::Aborted,
        }
    }
}

/// A run ends in failure only when reading the snapshot, logging in or
/// fetching the account fails: every other outcome keeps it going.
pub proof fn lemma_abort_causes(v: SessionView, e: SessionEvent)
    requires
        v.phase != Phase::Aborted,
        session_stepped(v, e).phase == Phase::Aborted,
    ensures
        e matches SessionEvent::SnapshotRead(Err(_)) || e matches SessionEvent::Connected(Err(_))
            || e matches SessionEvent::RemoteFetched(Err(_)) || (e matches SessionEvent::RemoteFetched(
            Ok(site),
        ) && site.account is None),
{
}

} // verus!
