//! Carrying a presentation to every community, and the sweep that does so
//! for every linked user, again and again.
//!
//! Both are machines that name the next call and are told its answer. A call
//! that fails costs the community or the user it was made for, and nobody
//! else: the machine goes on with the next one. Between two remote calls it
//! asks for a pause.

use crate::database::{LinkRow, LinkedUser};
use crate::discord::{
    cleared_presentation, presentation_of, reconcile_plan, DiscordBot, Guild, GuildView, Member,
    MemberEdit, MemberEditView, MemberView, Presentation, PresentationView, ReconcilePlan,
    ReconcilePlanView,
};
use crate::faceit::{Player, Resolution, ResolutionView};
use crate::text::{decimal_id, parse_id};
use vstd::prelude::*;

verus! {

/// Pause after each community of a pass, in milliseconds.
pub const GUILD_PAUSE_MS: u64 = 30;

/// Pause after each user of a sweep, in milliseconds.
pub const USER_PAUSE_MS: u64 = 70;

/// Pause before the list of users is asked for again after a failure, in
/// milliseconds.
pub const RETRY_PAUSE_MS: u64 = 2000;

/// Pause between two sweeps, in milliseconds.
pub const SWEEP_REST_MS: u64 = 10000;

/// The most communities that one pass asks for.
pub const GUILD_LIMIT: u64 = 100;

/// One more, up to the largest count.
pub open spec fn counted(n: u64) -> u64 {
    if n < u64::MAX {
        (n + 1) as u64
    } else {
        n
    }
}

/// One more, up to the largest count.
pub fn count(n: u64) -> (m: u64)
    ensures
        m == counted(n),
{
    if n < u64::MAX {
        n + 1
    } else {
        n
    }
}

/// How many communities of a pass ended in which way.
#[derive(Clone, Copy, Debug, PartialEq, Eq, Structural)]
pub struct PassReport {
    /// The member was edited.
    pub applied: u64,
    /// There was nothing to do.
    pub skipped: u64,
    /// The community could not be fetched, or the edit was refused.
    pub failed: u64,
}

/// What a pass waits for.
#[derive(Clone, Copy, Debug, PartialEq, Eq, Structural)]
pub enum PassPhase {
    /// The list of communities.
    Listing,
    /// The community at the position, and the member in it.
    Inspecting,
    /// The answer to the edit in the community at the position.
    Editing,
    /// The end of the pause after the community at the position.
    Pausing,
    /// Nothing: the pass is over.
    Finished,
}

/// A community and the user's membership in it, as fetched for a pass.
pub struct GuildSnapshot {
    pub guild: Guild,
    /// `None`: the user is no member of the community.
    pub member: Option<Member>,
}

/// What a [`GuildSnapshot`] holds.
pub struct GuildSnapshotView {
    pub guild: GuildView,
    pub member: Option<MemberView>,
}

impl View for GuildSnapshot {
    type V = GuildSnapshotView;

    open spec fn view(&self) -> GuildSnapshotView {
        GuildSnapshotView {
            guild: self.guild@,
            member: match self.member {
                Some(member) => Some(member@),
                None => None,
            },
        }
    }
}

/// One user's pass over the communities.
pub struct GuildPass {
    pub phase: PassPhase,
    pub user_id: u64,
    pub presentation: Presentation,
    pub guilds: Vec<u64>,
    pub position: usize,
    pub report: PassReport,
}

/// What a [`GuildPass`] holds.
pub struct GuildPassView {
    pub phase: PassPhase,
    pub user_id: u64,
    pub presentation: PresentationView,
    pub guilds: Seq<u64>,
    pub position: usize,
    pub report: PassReport,
}

impl View for GuildPass {
    type V = GuildPassView;

    open spec fn view(&self) -> GuildPassView {
        GuildPassView {
            phase: self.phase,
            user_id: self.user_id,
            presentation: self.presentation@,
            guilds: self.guilds@,
            position: self.position,
            report: self.report,
        }
    }
}

/// An answer to a call that a pass asked for.
pub enum PassEvent {
    /// The communities; `None`: the call failed.
    Listed(Option<Vec<u64>>),
    /// The community and the member; `None`: the community could not be
    /// fetched.
    Inspected(Option<GuildSnapshot>),
    /// Whether the platform accepted the edit.
    Edited(bool),
    /// The pause is over.
    Resumed,
}

/// What a [`PassEvent`] holds.
pub enum PassEventView {
    Listed(Option<Seq<u64>>),
    Inspected(Option<GuildSnapshotView>),
    Edited(bool),
    Resumed,
}

impl View for PassEvent {
    type V = PassEventView;

    open spec fn view(&self) -> PassEventView {
        match self {
            PassEvent::Listed(Some(guilds)) => PassEventView::Listed(Some(guilds@)),
            PassEvent::Listed(None) => PassEventView::Listed(None),
            PassEvent::Inspected(Some(snapshot)) => PassEventView::Inspected(Some(snapshot@)),
            PassEvent::Inspected(None) => PassEventView::Inspected(None),
            PassEvent::Edited(accepted) => PassEventView::Edited(*accepted),
            PassEvent::Resumed => PassEventView::Resumed,
        }
    }
}

/// The next call of a pass.
pub enum PassAction {
    /// List the communities, `limit` at most.
    ListGuilds { limit: u64 },
    /// Fetch the community, and the user as a member of it.
    Inspect { guild_id: u64, user_id: u64 },
    /// Edit the member, nickname and roles in one call.
    Edit { guild_id: u64, user_id: u64, edit: MemberEdit },
    /// Wait.
    Pause { millis: u64 },
    /// Nothing more: the pass ended so.
    Finish(PassReport),
}

/// What a [`PassAction`] holds.
pub enum PassActionView {
    ListGuilds { limit: u64 },
    Inspect { guild_id: u64, user_id: u64 },
    Edit { guild_id: u64, user_id: u64, edit: MemberEditView },
    Pause { millis: u64 },
    Finish(PassReport),
}

impl View for PassAction {
    type V = PassActionView;

    open spec fn view(&self) -> PassActionView {
        match self {
            PassAction::ListGuilds { limit } => PassActionView::ListGuilds { limit: *limit },
            PassAction::Inspect { guild_id, user_id } => PassActionView::Inspect {
                guild_id: *guild_id,
                user_id: *user_id,
            },
            PassAction::Edit { guild_id, user_id, edit } => PassActionView::Edit {
                guild_id: *guild_id,
                user_id: *user_id,
                edit: edit@,
            },
            PassAction::Pause { millis } => PassActionView::Pause { millis: *millis },
            PassAction::Finish(report) => PassActionView::Finish(*report),
        }
    }
}

/// A pass that has seen nothing yet.
pub open spec fn pass_start(user_id: u64, presentation: PresentationView) -> (
    GuildPassView,
    PassActionView,
) {
    (
        GuildPassView {
            phase: PassPhase::Listing,
            user_id,
            presentation,
            guilds: Seq::empty(),
            position: 0,
            report: PassReport { applied: 0, skipped: 0, failed: 0 },
        },
        PassActionView::ListGuilds { limit: GUILD_LIMIT },
    )
}

/// The pass turns to the community at `position`, or ends where there is
/// none.
pub open spec fn pass_turn(pass: GuildPassView, position: usize) -> (GuildPassView, PassActionView) {
    if position < pass.guilds.len() {
        (
            GuildPassView { phase: PassPhase::Inspecting, position, ..pass },
            PassActionView::Inspect {
                guild_id: pass.guilds[position as int],
                user_id: pass.user_id,
            },
        )
    } else {
        (
            GuildPassView { phase: PassPhase::Finished, position, ..pass },
            PassActionView::Finish(pass.report),
        )
    }
}

/// The pass is done with the community at the position, with this report.
pub open spec fn pass_pause(pass: GuildPassView, report: PassReport) -> (
    GuildPassView,
    PassActionView,
) {
    (
        GuildPassView { phase: PassPhase::Pausing, report, ..pass },
        PassActionView::Pause { millis: GUILD_PAUSE_MS },
    )
}

/// The pass ends here.
pub open spec fn pass_end(pass: GuildPassView) -> (GuildPassView, PassActionView) {
    (GuildPassView { phase: PassPhase::Finished, ..pass }, PassActionView::Finish(pass.report))
}

/// The position after `position` in a list of `len`.
pub open spec fn following(position: usize, len: nat) -> usize {
    if position < len {
        (position + 1) as usize
    } else {
        position
    }
}

/// The step of a pass. Without the list of communities the pass ends. A
/// community that cannot be fetched, a refused edit and a skipped member
/// each count in the report and lead to the pause, never to the end. After
/// the pause comes the next community. An answer that the phase does not
/// wait for ends the pass.
pub open spec fn pass_next(pass: GuildPassView, event: PassEventView) -> (
    GuildPassView,
    PassActionView,
) {
    match (pass.phase, event) {
        (PassPhase::Listing, PassEventView::Listed(Some(guilds))) => pass_turn(
            GuildPassView { guilds, ..pass },
            0,
        ),
        (PassPhase::Inspecting, PassEventView::Inspected(None)) => pass_pause(
            pass,
            PassReport { failed: counted(pass.report.failed), ..pass.report },
        ),
        (PassPhase::Inspecting, PassEventView::Inspected(Some(snapshot))) => match reconcile_plan(
            snapshot.guild,
            pass.user_id,
            snapshot.member,
            pass.presentation,
        ) {
            ReconcilePlanView::Skipped(_) => pass_pause(
                pass,
                PassReport { skipped: counted(pass.report.skipped), ..pass.report },
            ),
            ReconcilePlanView::Refused => pass_pause(
                pass,
                PassReport { failed: counted(pass.report.failed), ..pass.report },
            ),
            ReconcilePlanView::Edit(edit) => (
                GuildPassView { phase: PassPhase::Editing, ..pass },
                PassActionView::Edit {
                    guild_id: snapshot.guild.id,
                    user_id: pass.user_id,
                    edit,
                },
            ),
        },
        (PassPhase::Editing, PassEventView::Edited(accepted)) => pass_pause(
            pass,
            if accepted {
                PassReport { applied: counted(pass.report.applied), ..pass.report }
            } else {
                PassReport { failed: counted(pass.report.failed), ..pass.report }
            },
        ),
        (PassPhase::Pausing, PassEventView::Resumed) => pass_turn(
            pass,
            following(pass.position, pass.guilds.len()),
        ),
        _ => pass_end(pass),
    }
}

/// What the fetch of one community and the platform's word on an edit there
/// come to, for the laws of a pass.
pub struct GuildAnswer {
    /// The community and the member; `None`: the fetch failed.
    pub inspected: Option<GuildSnapshotView>,
    /// Whether the platform accepts an edit in this community.
    pub accepted: bool,
}

/// The pass after one community: the answer to the inspection, the answer to
/// the edit where one was asked for, and the end of the pause.
pub open spec fn pass_after_guild(pass: GuildPassView, answer: GuildAnswer) -> (
    GuildPassView,
    PassActionView,
) {
    let asked = pass_next(pass, PassEventView::Inspected(answer.inspected));
    let paused = if asked.1 is Edit {
        pass_next(asked.0, PassEventView::Edited(answer.accepted))
    } else {
        asked
    };
    pass_next(paused.0, PassEventView::Resumed)
}

/// The pass after the communities that `answers` speak of, one by one, and
/// the edits that it asked for on the way.
pub open spec fn pass_run(pass: GuildPassView, answers: Seq<GuildAnswer>) -> (
    GuildPassView,
    Seq<PassActionView>,
)
    decreases answers.len(),
{
    if answers.len() == 0 {
        (pass, Seq::empty())
    } else {
        let asked = pass_next(pass, PassEventView::Inspected(answers[0].inspected));
        let rest = pass_run(pass_after_guild(pass, answers[0]).0, answers.drop_first());
        if asked.1 is Edit {
            (rest.0, seq![asked.1] + rest.1)
        } else {
            rest
        }
    }
}

/// The edit that one community is due: the one that [`reconcile_plan`] plans
/// for what the inspection showed, and none where it showed nothing.
pub open spec fn due_edit(user_id: u64, presentation: PresentationView, answer: GuildAnswer) -> Option<
    PassActionView,
> {
    match answer.inspected {
        Some(snapshot) => match reconcile_plan(
            snapshot.guild,
            user_id,
            snapshot.member,
            presentation,
        ) {
            ReconcilePlanView::Edit(edit) => Some(
                PassActionView::Edit { guild_id: snapshot.guild.id, user_id, edit },
            ),
            _ => None,
        },
        None => None,
    }
}

/// The edits that the communities are due, each by itself, in their order.
pub open spec fn due_edits(
    user_id: u64,
    presentation: PresentationView,
    answers: Seq<GuildAnswer>,
) -> Seq<PassActionView>
    decreases answers.len(),
{
    if answers.len() == 0 {
        Seq::empty()
    } else {
        let rest = due_edits(user_id, presentation, answers.drop_first());
        match due_edit(user_id, presentation, answers[0]) {
            Some(edit) => seq![edit] + rest,
            None => rest,
        }
    }
}

/// Whatever one community answers, the pass goes on to the next: it keeps
/// its list, moves one position on, and inspects the community there or, past
/// the last, ends.
pub proof fn lemma_pass_goes_on(pass: GuildPassView, answer: GuildAnswer)
    requires
        pass.phase == PassPhase::Inspecting,
        pass.position < pass.guilds.len() <= usize::MAX,
    ensures
        pass_after_guild(pass, answer).0.guilds == pass.guilds,
        pass_after_guild(pass, answer).0.user_id == pass.user_id,
        pass_after_guild(pass, answer).0.presentation == pass.presentation,
        pass_after_guild(pass, answer).0.position == pass.position + 1,
        pass.position + 1 < pass.guilds.len() ==> pass_after_guild(pass, answer).0.phase
            == PassPhase::Inspecting && pass_after_guild(pass, answer).1 == (
            PassActionView::Inspect {
                guild_id: pass.guilds[pass.position + 1],
                user_id: pass.user_id,
            }),
        pass.position + 1 == pass.guilds.len() ==> pass_after_guild(pass, answer).0.phase
            == PassPhase::Finished,
{
}

/// A pass asks for exactly the edits that its communities are due, each
/// decided by what that community showed and by nothing else, and then ends:
/// no failure in one community keeps the pass from the others.
pub proof fn lemma_pass_visits_all(pass: GuildPassView, answers: Seq<GuildAnswer>)
    requires
        pass.guilds.len() <= usize::MAX,
        pass.position + answers.len() == pass.guilds.len(),
        answers.len() > 0 ==> pass.phase == PassPhase::Inspecting,
    ensures
        pass_run(pass, answers).1 == due_edits(pass.user_id, pass.presentation, answers),
        pass_run(pass, answers).0.guilds == pass.guilds,
        answers.len() > 0 ==> pass_run(pass, answers).0.phase == PassPhase::Finished,
    decreases answers.len(),
{
    if answers.len() > 0 {
        lemma_pass_goes_on(pass, answers[0]);
        lemma_pass_visits_all(pass_after_guild(pass, answers[0]).0, answers.drop_first());
    }
}

/// A pass never asks to edit the owner of a community.
pub proof fn lemma_pass_spares_owner(user_id: u64, presentation: PresentationView, answer: GuildAnswer)
    requires
        answer.inspected matches Some(snapshot) && snapshot.guild.owner_id == user_id,
    ensures
        due_edit(user_id, presentation, answer) is None,
{
}

impl GuildPass {
    /// The pass that brings the user `user_id` to `presentation` in every
    /// community, and its first call.
    pub fn start(user_id: u64, presentation: Presentation) -> (first: (GuildPass, PassAction))
        ensures
            (first.0@, first.1@) == pass_start(user_id, presentation@),
    {
        (
            GuildPass {
                phase: PassPhase::Listing,
                user_id,
                presentation,
                guilds: Vec::new(),
                position: 0,
                report: PassReport { applied: 0, skipped: 0, failed: 0 },
            },
            PassAction::ListGuilds { limit: GUILD_LIMIT },
        )
    }

    fn turn(self, position: usize) -> (next: (GuildPass, PassAction))
        ensures
            (next.0@, next.1@) == pass_turn(self@, position),
    {
        if position < self.guilds.len() {
            let guild_id = self.guilds[position];
            let user_id = self.user_id;
            (
                GuildPass { phase: PassPhase::Inspecting, position, ..self },
                PassAction::Inspect { guild_id, user_id },
            )
        } else {
            let report = self.report;
            (GuildPass { phase: PassPhase::Finished, position, ..self }, PassAction::Finish(report))
        }
    }

    fn pause(self, report: PassReport) -> (next: (GuildPass, PassAction))
        ensures
            (next.0@, next.1@) == pass_pause(self@, report),
    {
        (
            GuildPass { phase: PassPhase::Pausing, report, ..self },
            PassAction::Pause { millis: GUILD_PAUSE_MS },
        )
    }

    fn end(self) -> (next: (GuildPass, PassAction))
        ensures
            (next.0@, next.1@) == pass_end(self@),
    {
        let report = self.report;
        (GuildPass { phase: PassPhase::Finished, ..self }, PassAction::Finish(report))
    }

    /// Takes the answer to the last call and names the next one.
    pub fn step(self, event: PassEvent) -> (next: (GuildPass, PassAction))
        ensures
            (next.0@, next.1@) == pass_next(self@, event@),
    {
        let report = self.report;
        match self.phase {
            PassPhase::Listing => match event {
                PassEvent::Listed(Some(guilds)) => {
                    let listed = GuildPass { guilds, ..self };
                    listed.turn(0)
                },
                _ => self.end(),
            },
            PassPhase::Inspecting => match event {
                PassEvent::Inspected(None) => self.pause(
                    PassReport { failed: count(report.failed), ..report },
                ),
                PassEvent::Inspected(Some(snapshot)) => {
                    let plan = DiscordBot::reconcile(
                        &snapshot.guild,
                        self.user_id,
                        snapshot.member.as_ref(),
                        &self.presentation,
                    );
                    match plan {
                        ReconcilePlan::Skipped(_) => self.pause(
                            PassReport { skipped: count(report.skipped), ..report },
                        ),
                        ReconcilePlan::Refused => self.pause(
                            PassReport { failed: count(report.failed), ..report },
                        ),
                        ReconcilePlan::Edit(edit) => {
                            let guild_id = snapshot.guild.id;
                            let user_id = self.user_id;
                            (
                                GuildPass { phase: PassPhase::Editing, ..self },
                                PassAction::Edit { guild_id, user_id, edit },
                            )
                        },
                    }
                },
                _ => self.end(),
            },
            PassPhase::Editing => match event {
                PassEvent::Edited(accepted) => {
                    if accepted {
                        self.pause(PassReport { applied: count(report.applied), ..report })
                    } else {
                        self.pause(PassReport { failed: count(report.failed), ..report })
                    }
                },
                _ => self.end(),
            },
            PassPhase::Pausing => match event {
                PassEvent::Resumed => {
                    let position = if self.position < self.guilds.len() {
                        self.position + 1
                    } else {
                        self.position
                    };
                    self.turn(position)
                },
                _ => self.end(),
            },
            PassPhase::Finished => self.end(),
        }
    }
}

impl DiscordBot {
    /// The pass that shows `player` on the user `user_id` in every
    /// community; `None` where the account has no rank to show, and the
    /// user is left as they are.
    pub fn parse_user(user_id: u64, player: &Player) -> (first: Option<(GuildPass, PassAction)>)
        ensures
            first is Some <==> presentation_of(player@) is Some,
            first matches Some(pair) ==> (pair.0@, pair.1@) == pass_start(
                user_id,
                presentation_of(player@)->0,
            ),
    {
        match DiscordBot::desired_presentation(player) {
            Some(presentation) => Some(GuildPass::start(user_id, presentation)),
            None => None,
        }
    }

    /// The pass that takes nickname and tier role away from the user
    /// `user_id` in every community.
    pub fn clear_user(user_id: u64) -> (first: (GuildPass, PassAction))
        ensures
            (first.0@, first.1@) == pass_start(user_id, cleared_presentation()),
    {
        GuildPass::start(user_id, DiscordBot::cleared())
    }
}

/// What a sweep waits for.
#[derive(Clone, Copy, Debug, PartialEq, Eq, Structural)]
pub enum SweepPhase {
    /// The list of links.
    Fetching,
    /// The end of the pause after the list could not be had.
    Backoff,
    /// The lookup of the account of the user at the position.
    Resolving,
    /// The end of the pass of the user at the position.
    Syncing,
    /// The end of the pause after the user at the position.
    Pausing,
    /// The end of the rest after the last user.
    Resting,
    /// Nothing: the sweep was told to stop, and has stopped.
    Stopped,
}

/// The sweep over all linked users.
pub struct Sweep {
    pub phase: SweepPhase,
    pub users: Vec<LinkedUser>,
    pub position: usize,
    /// The sweep was told to stop: it turns to no further user and asks for
    /// no further list.
    pub stopping: bool,
}

/// What a [`Sweep`] holds.
pub struct SweepView {
    pub phase: SweepPhase,
    pub users: Seq<LinkRow>,
    pub position: usize,
    pub stopping: bool,
}

impl View for Sweep {
    type V = SweepView;

    open spec fn view(&self) -> SweepView {
        SweepView {
            phase: self.phase,
            users: self.users@.map_values(|user: LinkedUser| user@),
            position: self.position,
            stopping: self.stopping,
        }
    }
}

/// An answer to a call that the sweep asked for.
pub enum SweepEvent {
    /// The links; `None`: the call failed.
    Fetched(Option<Vec<LinkedUser>>),
    /// The lookup of the account by its identifier ended.
    Resolved(Resolution),
    /// The user's pass over the communities is over.
    Synced,
    /// The pause is over.
    Resumed,
}

/// What a [`SweepEvent`] holds.
pub enum SweepEventView {
    Fetched(Option<Seq<LinkRow>>),
    Resolved(ResolutionView),
    Synced,
    Resumed,
}

impl View for SweepEvent {
    type V = SweepEventView;

    open spec fn view(&self) -> SweepEventView {
        match self {
            SweepEvent::Fetched(Some(users)) => SweepEventView::Fetched(
                Some(users@.map_values(|user: LinkedUser| user@)),
            ),
            SweepEvent::Fetched(None) => SweepEventView::Fetched(None),
            SweepEvent::Resolved(resolution) => SweepEventView::Resolved(resolution@),
            SweepEvent::Synced => SweepEventView::Synced,
            SweepEvent::Resumed => SweepEventView::Resumed,
        }
    }
}

/// The next call of the sweep.
pub enum SweepAction {
    /// Fetch all links.
    FetchUsers,
    /// Look the account up by its identifier.
    Resolve { faceit_id: String },
    /// Run a pass that brings the user to the presentation.
    Sync { user_id: u64, presentation: Presentation },
    /// Wait.
    Pause { millis: u64 },
    /// Nothing more: the sweep has stopped.
    Stop,
}

/// What a [`SweepAction`] holds.
pub enum SweepActionView {
    FetchUsers,
    Resolve { faceit_id: Seq<char> },
    Sync { user_id: u64, presentation: PresentationView },
    Pause { millis: u64 },
    Stop,
}

impl View for SweepAction {
    type V = SweepActionView;

    open spec fn view(&self) -> SweepActionView {
        match self {
            SweepAction::FetchUsers => SweepActionView::FetchUsers,
            SweepAction::Resolve { faceit_id } => SweepActionView::Resolve { faceit_id: faceit_id@ },
            SweepAction::Sync { user_id, presentation } => SweepActionView::Sync {
                user_id: *user_id,
                presentation: presentation@,
            },
            SweepAction::Pause { millis } => SweepActionView::Pause { millis: *millis },
            SweepAction::Stop => SweepActionView::Stop,
        }
    }
}

/// The pass that a link and the answer to its lookup call for: one where the
/// account was found and has a rank to show, and the chat user's identifier
/// is a decimal number other than zero; else none.
pub open spec fn sync_job(row: LinkRow, resolution: ResolutionView) -> Option<(u64, PresentationView)> {
    match resolution {
        ResolutionView::Found(player) => match (
            decimal_id(row.discord_id),
            presentation_of(player),
        ) {
            (Some(user_id), Some(presentation)) => Some((user_id, presentation)),
            _ => None,
        },
        _ => None,
    }
}

/// A sweep that has seen nothing yet.
pub open spec fn sweep_start() -> (SweepView, SweepActionView) {
    (
        SweepView {
            phase: SweepPhase::Fetching,
            users: Seq::empty(),
            position: 0,
            stopping: false,
        },
        SweepActionView::FetchUsers,
    )
}

/// The sweep stops.
pub open spec fn sweep_stop(sweep: SweepView) -> (SweepView, SweepActionView) {
    (SweepView { phase: SweepPhase::Stopped, ..sweep }, SweepActionView::Stop)
}

/// The sweep asks for the links anew, unless it was told to stop.
pub open spec fn sweep_fetch(sweep: SweepView) -> (SweepView, SweepActionView) {
    if sweep.stopping {
        sweep_stop(sweep)
    } else {
        (SweepView { phase: SweepPhase::Fetching, ..sweep }, SweepActionView::FetchUsers)
    }
}

/// The sweep turns to the user at `position`, or rests where there is none,
/// unless it was told to stop.
pub open spec fn sweep_turn(sweep: SweepView, position: usize) -> (SweepView, SweepActionView) {
    if sweep.stopping {
        sweep_stop(SweepView { position, ..sweep })
    } else if position < sweep.users.len() {
        (
            SweepView { phase: SweepPhase::Resolving, position, ..sweep },
            SweepActionView::Resolve { faceit_id: sweep.users[position as int].faceit_id },
        )
    } else {
        (
            SweepView { phase: SweepPhase::Resting, position, ..sweep },
            SweepActionView::Pause { millis: SWEEP_REST_MS },
        )
    }
}

/// The sweep is done with the user at the position: it pauses, unless it was
/// told to stop.
pub open spec fn sweep_pause(sweep: SweepView) -> (SweepView, SweepActionView) {
    if sweep.stopping {
        sweep_stop(sweep)
    } else {
        (
            SweepView { phase: SweepPhase::Pausing, ..sweep },
            SweepActionView::Pause { millis: USER_PAUSE_MS },
        )
    }
}

/// The step of the sweep. Without the list of links it waits and asks again.
/// Whatever the lookup of a user answers, the sweep comes to the pause after
/// that user, by way of the user's pass where [`sync_job`] calls for one,
/// and then turns to the next user. After the last user it rests and begins
/// anew. An answer that the phase does not wait for makes it begin anew at
/// once.
///
/// A sweep that was told to stop lets the user at hand finish: a lookup
/// under way still leads to that user's pass. It then stops, instead of
/// pausing, turning to another user or asking for the links. A sweep that
/// has stopped stays so.
pub open spec fn sweep_next(sweep: SweepView, event: SweepEventView) -> (
    SweepView,
    SweepActionView,
) {
    match (sweep.phase, event) {
        (SweepPhase::Stopped, _) => sweep_stop(sweep),
        (SweepPhase::Fetching, SweepEventView::Fetched(Some(users))) => sweep_turn(
            SweepView { users, ..sweep },
            0,
        ),
        (SweepPhase::Fetching, SweepEventView::Fetched(None)) => if sweep.stopping {
            sweep_stop(sweep)
        } else {
            (
                SweepView { phase: SweepPhase::Backoff, ..sweep },
                SweepActionView::Pause { millis: RETRY_PAUSE_MS },
            )
        },
        (SweepPhase::Backoff, SweepEventView::Resumed) => sweep_fetch(sweep),
        (SweepPhase::Resolving, SweepEventView::Resolved(resolution)) => if sweep.position
            < sweep.users.len() {
            match sync_job(sweep.users[sweep.position as int], resolution) {
                Some((user_id, presentation)) => (
                    SweepView { phase: SweepPhase::Syncing, ..sweep },
                    SweepActionView::Sync { user_id, presentation },
                ),
                None => sweep_pause(sweep),
            }
        } else {
            sweep_fetch(sweep)
        },
        (SweepPhase::Syncing, SweepEventView::Synced) => sweep_pause(sweep),
        (SweepPhase::Pausing, SweepEventView::Resumed) => sweep_turn(
            sweep,
            following(sweep.position, sweep.users.len()),
        ),
        (SweepPhase::Resting, SweepEventView::Resumed) => sweep_fetch(sweep),
        _ => sweep_fetch(sweep),
    }
}

/// The sweep after one user: the answer to the lookup, the end of the pass
/// where one was asked for, and the end of the pause.
pub open spec fn sweep_after_user(sweep: SweepView, resolution: ResolutionView) -> (
    SweepView,
    SweepActionView,
) {
    let asked = sweep_next(sweep, SweepEventView::Resolved(resolution));
    let paused = if asked.1 is Sync {
        sweep_next(asked.0, SweepEventView::Synced)
    } else {
        asked
    };
    sweep_next(paused.0, SweepEventView::Resumed)
}

/// The sweep after the users that `answers` speak of, one by one, and the
/// passes that it asked for on the way.
pub open spec fn sweep_run(sweep: SweepView, answers: Seq<ResolutionView>) -> (
    SweepView,
    Seq<(u64, PresentationView)>,
)
    decreases answers.len(),
{
    if answers.len() == 0 {
        (sweep, Seq::empty())
    } else {
        let asked = sweep_next(sweep, SweepEventView::Resolved(answers[0]));
        let rest = sweep_run(sweep_after_user(sweep, answers[0]).0, answers.drop_first());
        match asked.1 {
            SweepActionView::Sync { user_id, presentation } => (
                rest.0,
                seq![(user_id, presentation)] + rest.1,
            ),
            _ => rest,
        }
    }
}

/// The passes that the users are due, each by itself, in their order.
pub open spec fn due_jobs(users: Seq<LinkRow>, answers: Seq<ResolutionView>) -> Seq<
    (u64, PresentationView),
>
    decreases answers.len(),
{
    if answers.len() == 0 || users.len() == 0 {
        Seq::empty()
    } else {
        let rest = due_jobs(users.drop_first(), answers.drop_first());
        match sync_job(users[0], answers[0]) {
            Some(job) => seq![job] + rest,
            None => rest,
        }
    }
}

/// The sweep once the links `users` have been fetched.
pub open spec fn sweep_fetched(users: Seq<LinkRow>) -> SweepView {
    sweep_next(sweep_start().0, SweepEventView::Fetched(Some(users))).0
}

/// Whatever the lookup of one user answers, the sweep goes on to the next:
/// it keeps its list, moves one position on, and looks up the user there or,
/// past the last, rests.
pub proof fn lemma_sweep_goes_on(sweep: SweepView, resolution: ResolutionView)
    requires
        sweep.phase == SweepPhase::Resolving,
        !sweep.stopping,
        sweep.position < sweep.users.len() <= usize::MAX,
    ensures
        sweep_after_user(sweep, resolution).0.users == sweep.users,
        !sweep_after_user(sweep, resolution).0.stopping,
        sweep_after_user(sweep, resolution).0.position == sweep.position + 1,
        sweep.position + 1 < sweep.users.len() ==> sweep_after_user(sweep, resolution).0.phase
            == SweepPhase::Resolving && sweep_after_user(sweep, resolution).1 == (
            SweepActionView::Resolve { faceit_id: sweep.users[sweep.position + 1].faceit_id }),
        sweep.position + 1 == sweep.users.len() ==> sweep_after_user(sweep, resolution).0.phase
            == SweepPhase::Resting && sweep_after_user(sweep, resolution).1 == (
            SweepActionView::Pause { millis: SWEEP_REST_MS }),
{
}

/// A sweep asks for exactly the passes that its users are due, each decided
/// by that user's link and lookup and by nothing else, and then rests.
pub proof fn lemma_sweep_visits_all(sweep: SweepView, answers: Seq<ResolutionView>)
    requires
        !sweep.stopping,
        sweep.users.len() <= usize::MAX,
        sweep.position + answers.len() == sweep.users.len(),
        answers.len() > 0 ==> sweep.phase == SweepPhase::Resolving,
    ensures
        sweep_run(sweep, answers).1 == due_jobs(sweep.users.skip(sweep.position as int), answers),
        sweep_run(sweep, answers).0.users == sweep.users,
        answers.len() > 0 ==> sweep_run(sweep, answers).0.phase == SweepPhase::Resting,
    decreases answers.len(),
{
    let rest = sweep.users.skip(sweep.position as int);
    if answers.len() > 0 {
        lemma_sweep_goes_on(sweep, answers[0]);
        lemma_sweep_visits_all(sweep_after_user(sweep, answers[0]).0, answers.drop_first());
        assert(rest[0] == sweep.users[sweep.position as int]);
        assert(rest.drop_first() =~= sweep.users.skip(sweep.position + 1));
    }
}

/// The pass that a user is due is among the passes that the users are due.
pub proof fn lemma_due_job_is_among(users: Seq<LinkRow>, answers: Seq<ResolutionView>, at: int)
    requires
        users.len() == answers.len(),
        0 <= at < users.len(),
        sync_job(users[at], answers[at]) is Some,
    ensures
        due_jobs(users, answers).contains(sync_job(users[at], answers[at])->0),
    decreases answers.len(),
{
    let job = sync_job(users[at], answers[at])->0;
    let rest = due_jobs(users.drop_first(), answers.drop_first());
    let all = due_jobs(users, answers);
    if at == 0 {
        assert(all[0] == job);
    } else {
        lemma_due_job_is_among(users.drop_first(), answers.drop_first(), at - 1);
        let inside = choose|k: int| 0 <= k < rest.len() && rest[k] == job;
        if sync_job(users[0], answers[0]) is Some {
            assert(all[inside + 1] == job);
        } else {
            assert(all[inside] == job);
        }
    }
}

/// A sweep in which the lookup of one user fails still asks for the pass of
/// every other user that is due one.
pub proof fn lemma_failed_lookup_spares_others(
    users: Seq<LinkRow>,
    answers: Seq<ResolutionView>,
    failed: int,
    other: int,
)
    requires
        0 < users.len() <= usize::MAX,
        users.len() == answers.len(),
        0 <= failed < users.len(),
        answers[failed] == ResolutionView::Failed,
        0 <= other < users.len(),
        other != failed,
        sync_job(users[other], answers[other]) is Some,
    ensures
        sweep_run(sweep_fetched(users), answers).1.contains(
            sync_job(users[other], answers[other])->0,
        ),
        sweep_run(sweep_fetched(users), answers).0.phase == SweepPhase::Resting,
{
    let sweep = sweep_fetched(users);
    assert(sweep.users.skip(0) =~= users);
    lemma_sweep_visits_all(sweep, answers);
    lemma_due_job_is_among(users, answers, other);
}

/// A sweep that was told to stop keeps to it, and asks for nothing more but
/// the pass of the user whose lookup was under way: never for a list, a
/// lookup or a pause.
pub proof fn lemma_stopping_sweep_stops(sweep: SweepView, event: SweepEventView)
    requires
        sweep.stopping,
    ensures
        sweep_next(sweep, event).0.stopping,
        sweep_next(sweep, event).1 is Stop || (sweep.phase == SweepPhase::Resolving && event
            is Resolved && sweep_next(sweep, event).1 is Sync),
        sweep_next(sweep, event).1 is Stop <==> sweep_next(sweep, event).0.phase
            == SweepPhase::Stopped,
        sweep.phase == SweepPhase::Syncing ==> sweep_next(sweep, event).1 is Stop,
{
}

impl Sweep {
    /// The sweep and its first call.
    pub fn start() -> (first: (Sweep, SweepAction))
        ensures
            (first.0@, first.1@) == sweep_start(),
    {
        let sweep = Sweep {
            phase: SweepPhase::Fetching,
            users: Vec::new(),
            position: 0,
            stopping: false,
        };
        assert(sweep@.users =~= Seq::<LinkRow>::empty());
        (sweep, SweepAction::FetchUsers)
    }

    /// Tells the sweep to stop. It stops once the user at hand is done.
    pub fn shutdown(self) -> (sweep: Sweep)
        ensures
            sweep@ == (SweepView { stopping: true, ..self@ }),
    {
        Sweep { stopping: true, ..self }
    }

    fn stop(self) -> (next: (Sweep, SweepAction))
        ensures
            (next.0@, next.1@) == sweep_stop(self@),
    {
        (Sweep { phase: SweepPhase::Stopped, ..self }, SweepAction::Stop)
    }

    fn fetch(self) -> (next: (Sweep, SweepAction))
        ensures
            (next.0@, next.1@) == sweep_fetch(self@),
    {
        if self.stopping {
            self.stop()
        } else {
            (Sweep { phase: SweepPhase::Fetching, ..self }, SweepAction::FetchUsers)
        }
    }

    fn turn(self, position: usize) -> (next: (Sweep, SweepAction))
        ensures
            (next.0@, next.1@) == sweep_turn(self@, position),
    {
        if self.stopping {
            let moved = Sweep { position, ..self };
            moved.stop()
        } else if position < self.users.len() {
            let faceit_id = self.users[position].faceit_id.clone();
            (
                Sweep { phase: SweepPhase::Resolving, position, ..self },
                SweepAction::Resolve { faceit_id },
            )
        } else {
            (
                Sweep { phase: SweepPhase::Resting, position, ..self },
                SweepAction::Pause { millis: SWEEP_REST_MS },
            )
        }
    }

    fn pause(self) -> (next: (Sweep, SweepAction))
        ensures
            (next.0@, next.1@) == sweep_pause(self@),
    {
        if self.stopping {
            self.stop()
        } else {
            (
                Sweep { phase: SweepPhase::Pausing, ..self },
                SweepAction::Pause { millis: USER_PAUSE_MS },
            )
        }
    }

    /// The pass that the user at the position is due, given the answer to
    /// their lookup.
    fn job(&self, resolution: Resolution) -> (job: Option<(u64, Presentation)>)
        requires
            self.position < self.users@.len(),
        ensures
            job is Some <==> sync_job(self@.users[self.position as int], resolution@) is Some,
            job matches Some(pair) ==> Some((pair.0, pair.1@)) == sync_job(
                self@.users[self.position as int],
                resolution@,
            ),
    {
        let player = match resolution {
            Resolution::Found(player) => player,
            _ => {
                return None;
            },
        };
        let user_id = match parse_id(self.users[self.position].discord_id.as_str()) {
            Some(user_id) => user_id,
            None => {
                return None;
            },
        };
        match DiscordBot::desired_presentation(&player) {
            Some(presentation) => Some((user_id, presentation)),
            None => None,
        }
    }

    /// Takes the answer to the last call and names the next one.
    pub fn step(self, event: SweepEvent) -> (next: (Sweep, SweepAction))
        ensures
            (next.0@, next.1@) == sweep_next(self@, event@),
    {
        match self.phase {
            SweepPhase::Stopped => self.stop(),
            SweepPhase::Fetching => match event {
                SweepEvent::Fetched(Some(users)) => {
                    let fetched = Sweep { users, ..self };
                    fetched.turn(0)
                },
                SweepEvent::Fetched(None) => {
                    if self.stopping {
                        self.stop()
                    } else {
                        (
                            Sweep { phase: SweepPhase::Backoff, ..self },
                            SweepAction::Pause { millis: RETRY_PAUSE_MS },
                        )
                    }
                },
                _ => self.fetch(),
            },
            SweepPhase::Backoff => self.fetch(),
            SweepPhase::Resolving => match event {
                SweepEvent::Resolved(resolution) => {
                    if self.position < self.users.len() {
                        match self.job(resolution) {
                            Some((user_id, presentation)) => (
                                Sweep { phase: SweepPhase::Syncing, ..self },
                                SweepAction::Sync { user_id, presentation },
                            ),
                            None => self.pause(),
                        }
                    } else {
                        self.fetch()
                    }
                },
                _ => self.fetch(),
            },
            SweepPhase::Syncing => match event {
                SweepEvent::Synced => self.pause(),
                _ => self.fetch(),
            },
            SweepPhase::Pausing => match event {
                SweepEvent::Resumed => {
                    let position = if self.position < self.users.len() {
                        self.position + 1
                    } else {
                        self.position
                    };
                    self.turn(position)
                },
                _ => self.fetch(),
            },
            SweepPhase::Resting => self.fetch(),
        }
    }
}

} // verus!
