//! What a member should look like in one community, and the edit that gets
//! them there: the nickname that shows the score, the role that shows the
//! tier, and the other roles left as they are.

use crate::faceit::{Player, PlayerView};
use crate::seqs::{lemma_filter_drops_one, lemma_filter_within};
use crate::text::{decimal_text, str_equal};
use crate::tiers::{is_tier_label, label_of, tier_label, tier_of_label, valid_tier};
use vstd::prelude::*;
use vstd::string::*;

verus! {

/// Longest nickname, in characters, that the chat platform accepts.
pub const NICKNAME_LIMIT: usize = 32;

/// A role of a community.
pub struct Role {
    pub id: u64,
    pub name: String,
}

/// What a [`Role`] holds.
pub struct RoleView {
    pub id: u64,
    pub name: Seq<char>,
}

impl View for Role {
    type V = RoleView;

    open spec fn view(&self) -> RoleView {
        RoleView { id: self.id, name: self.name@ }
    }
}

/// A community as one fetch showed it: its owner and its roles.
pub struct Guild {
    pub id: u64,
    pub owner_id: u64,
    pub roles: Vec<Role>,
}

/// What a [`Guild`] holds.
pub struct GuildView {
    pub id: u64,
    pub owner_id: u64,
    pub roles: Seq<RoleView>,
}

impl View for Guild {
    type V = GuildView;

    open spec fn view(&self) -> GuildView {
        GuildView {
            id: self.id,
            owner_id: self.owner_id,
            roles: self.roles@.map_values(|role: Role| role@),
        }
    }
}

/// A member of a community as one fetch showed them.
pub struct Member {
    pub user_id: u64,
    pub nick: Option<String>,
    pub roles: Vec<u64>,
}

/// What a [`Member`] holds.
pub struct MemberView {
    pub user_id: u64,
    pub nick: Option<Seq<char>>,
    pub roles: Seq<u64>,
}

impl View for Member {
    type V = MemberView;

    open spec fn view(&self) -> MemberView {
        MemberView {
            user_id: self.user_id,
            nick: match self.nick {
                Some(nick) => Some(nick@),
                None => None,
            },
            roles: self.roles@,
        }
    }
}

/// The nickname and tier that a member should show.
pub struct Presentation {
    pub nickname: String,
    /// The tier whose role the member should have; `None` for no tier role.
    pub tier: Option<usize>,
}

/// What a [`Presentation`] holds.
pub struct PresentationView {
    pub nickname: Seq<char>,
    pub tier: Option<usize>,
}

impl View for Presentation {
    type V = PresentationView;

    open spec fn view(&self) -> PresentationView {
        PresentationView { nickname: self.nickname@, tier: self.tier }
    }
}

/// One edit of a member: the nickname to set and the whole list of roles to
/// set, in a single call.
pub struct MemberEdit {
    pub nickname: String,
    pub roles: Vec<u64>,
}

/// What a [`MemberEdit`] holds.
pub struct MemberEditView {
    pub nickname: Seq<char>,
    pub roles: Seq<u64>,
}

impl View for MemberEdit {
    type V = MemberEditView;

    open spec fn view(&self) -> MemberEditView {
        MemberEditView { nickname: self.nickname@, roles: self.roles@ }
    }
}

/// Why a member is left as they are.
#[derive(Clone, Copy, Debug, PartialEq, Eq, Structural)]
pub enum SkipReason {
    /// The user is no member of the community.
    NotMember,
    /// The member owns the community: the platform lets nobody rename them.
    Owner,
    /// The account has no rank in the tracked game.
    Ineligible,
}

/// What to do about one member in one community.
pub enum ReconcilePlan {
    /// Nothing: the member is left as they are, and no call is made.
    Skipped(SkipReason),
    /// Nothing, because the nickname is longer than the platform accepts.
    /// No call is made; the reconciliation counts as failed.
    Refused,
    /// Make this edit.
    Edit(MemberEdit),
}

/// What a [`ReconcilePlan`] holds.
pub enum ReconcilePlanView {
    Skipped(SkipReason),
    Refused,
    Edit(MemberEditView),
}

impl View for ReconcilePlan {
    type V = ReconcilePlanView;

    open spec fn view(&self) -> ReconcilePlanView {
        match self {
            ReconcilePlan::Skipped(reason) => ReconcilePlanView::Skipped(*reason),
            ReconcilePlan::Refused => ReconcilePlanView::Refused,
            ReconcilePlan::Edit(edit) => ReconcilePlanView::Edit(edit@),
        }
    }
}

/// How the reconciliation of one member in one community ended.
#[derive(Clone, Copy, Debug, PartialEq, Eq, Structural)]
pub enum ReconcileOutcome {
    /// The edit was made.
    Applied,
    /// There was nothing to do.
    Skipped,
    /// The edit was refused, here or by the platform.
    Error,
}

/// The view of an optional member.
pub open spec fn member_view(member: Option<&Member>) -> Option<MemberView> {
    match member {
        Some(m) => Some(m@),
        None => None,
    }
}

/// The first role of `roles` that is called `name`.
pub open spec fn role_named(roles: Seq<RoleView>, name: Seq<char>) -> Option<u64>
    decreases roles.len(),
{
    if roles.len() == 0 {
        None
    } else if roles[0].name == name {
        Some(roles[0].id)
    } else {
        role_named(roles.drop_first(), name)
    }
}

/// `id` is a role of the community that carries the label of some tier.
pub open spec fn is_tier_role(roles: Seq<RoleView>, id: u64) -> bool {
    exists|i: int|
        0 <= i < roles.len() && (#[trigger] roles[i]).id == id && is_tier_label(roles[i].name)
}

/// The roles that an edit keeps: all but the tier roles other than `desired`.
pub open spec fn keeps(roles: Seq<RoleView>, desired: Option<u64>) -> spec_fn(u64) -> bool {
    |id: u64| !is_tier_role(roles, id) || desired == Some(id)
}

/// The roles of a member after reconciliation: the current roles without the
/// tier roles other than `desired`, in their order, and `desired` at the end
/// where the member did not have it.
pub open spec fn reconciled_roles(roles: Seq<RoleView>, current: Seq<u64>, desired: Option<u64>) -> Seq<
    u64,
> {
    let kept = current.filter(keeps(roles, desired));
    match desired {
        Some(role) => if kept.contains(role) {
            kept
        } else {
            kept.push(role)
        },
        None => kept,
    }
}

/// The plan for one member: nothing for a user who is no member and for the
/// owner, a refusal for a nickname over the limit, else one edit.
pub open spec fn edit_plan(
    guild: GuildView,
    member_id: u64,
    member: Option<MemberView>,
    new_name: Seq<char>,
    role: Option<u64>,
) -> ReconcilePlanView {
    match member {
        None => ReconcilePlanView::Skipped(SkipReason::NotMember),
        Some(m) => if guild.owner_id == member_id {
            ReconcilePlanView::Skipped(SkipReason::Owner)
        } else if new_name.len() > NICKNAME_LIMIT {
            ReconcilePlanView::Refused
        } else {
            ReconcilePlanView::Edit(
                MemberEditView {
                    nickname: new_name,
                    roles: reconciled_roles(guild.roles, m.roles, role),
                },
            )
        },
    }
}

/// The nickname that shows a score before a display name.
pub open spec fn nickname_for(elo: Seq<char>, name: Seq<char>) -> Seq<char> {
    "("@ + elo + " ELO) "@ + name
}

/// What a player should show: nothing where the record lacks the level or the
/// score; else the nickname with the score in decimal digits, and the tier
/// that is the level.
pub open spec fn presentation_of(player: PlayerView) -> Option<PresentationView> {
    match (player.skill_level, player.elo) {
        (Some(level), Some(elo)) => Some(
            PresentationView {
                nickname: nickname_for(decimal_text(elo as nat), player.nickname),
                tier: Some(level),
            },
        ),
        _ => None,
    }
}

/// What a user without a link shows: no nickname and no tier role.
pub open spec fn cleared_presentation() -> PresentationView {
    PresentationView { nickname: Seq::empty(), tier: None }
}

/// The role of a community that shows a tier: the first role named by the
/// tier's label. A community without such a role has none to show.
pub open spec fn tier_role(roles: Seq<RoleView>, tier: Option<usize>) -> Option<u64> {
    match tier {
        Some(index) => if valid_tier(index as int) {
            role_named(roles, label_of(index as int))
        } else {
            None
        },
        None => None,
    }
}

/// The plan that brings a member to a presentation. Where the community has
/// no role for the tier, the edit still sets the nickname and still takes
/// stale tier roles away; it adds none.
pub open spec fn reconcile_plan(
    guild: GuildView,
    member_id: u64,
    member: Option<MemberView>,
    presentation: PresentationView,
) -> ReconcilePlanView {
    edit_plan(
        guild,
        member_id,
        member,
        presentation.nickname,
        tier_role(guild.roles, presentation.tier),
    )
}

/// The plan that brings a member to what a player should show: nothing for
/// a player without rank in the tracked game, who is left as they are.
pub open spec fn player_plan(
    guild: GuildView,
    member_id: u64,
    member: Option<MemberView>,
    player: PlayerView,
) -> ReconcilePlanView {
    match presentation_of(player) {
        Some(presentation) => reconcile_plan(guild, member_id, member, presentation),
        None => ReconcilePlanView::Skipped(SkipReason::Ineligible),
    }
}

/// The outcome of a plan, given whether the platform accepted the edit where
/// one was made.
pub open spec fn outcome_of(plan: ReconcilePlanView, edit_accepted: bool) -> ReconcileOutcome {
    match plan {
        ReconcilePlanView::Skipped(_) => ReconcileOutcome::Skipped,
        ReconcilePlanView::Refused => ReconcileOutcome::Error,
        ReconcilePlanView::Edit(_) => if edit_accepted {
            ReconcileOutcome::Applied
        } else {
            ReconcileOutcome::Error
        },
    }
}

/// Reconciliation leaves the roles that carry no tier's label as they are,
/// each in its place among the others.
pub proof fn lemma_other_roles_preserved(
    roles: Seq<RoleView>,
    current: Seq<u64>,
    desired: Option<u64>,
)
    requires
        desired matches Some(role) ==> is_tier_role(roles, role),
    ensures
        reconciled_roles(roles, current, desired).filter(|id: u64| !is_tier_role(roles, id))
            == current.filter(|id: u64| !is_tier_role(roles, id)),
{
    let other = |id: u64| !is_tier_role(roles, id);
    let kept = current.filter(keeps(roles, desired));
    lemma_filter_within(current, keeps(roles, desired), other);
    if let Some(role) = desired {
        if !kept.contains(role) {
            reveal(Seq::filter);
            assert(kept.push(role).drop_last() =~= kept);
        }
    }
}

/// After reconciliation the member has the role to show, and no other role
/// that carries a tier's label.
pub proof fn lemma_single_tier_role(roles: Seq<RoleView>, current: Seq<u64>, desired: Option<u64>)
    ensures
        desired matches Some(role) ==> reconciled_roles(roles, current, desired).contains(role),
        forall|i: int|
            0 <= i < reconciled_roles(roles, current, desired).len() && is_tier_role(
                roles,
                #[trigger] reconciled_roles(roles, current, desired)[i],
            ) ==> desired == Some(reconciled_roles(roles, current, desired)[i]),
{
    let kept = current.filter(keeps(roles, desired));
    let result = reconciled_roles(roles, current, desired);
    assert forall|i: int| 0 <= i < kept.len() implies keeps(roles, desired)(
        #[trigger] kept[i],
    ) by {
        current.lemma_filter_pred(keeps(roles, desired), i);
    }
    if let Some(role) = desired {
        if !kept.contains(role) {
            assert(result[result.len() - 1] == role);
        }
    }
    assert forall|i: int| 0 <= i < result.len() && is_tier_role(
        roles,
        #[trigger] result[i],
    ) implies desired == Some(result[i]) by {
        if i < kept.len() {
            assert(result[i] == kept[i]);
        }
    }
}

/// A member whose one tier role is not the one to show loses exactly that
/// role and gains exactly the one to show; every other role stays where it
/// was.
pub proof fn lemma_tier_role_replaced(
    roles: Seq<RoleView>,
    current: Seq<u64>,
    at: int,
    fresh: u64,
)
    requires
        0 <= at < current.len(),
        is_tier_role(roles, current[at]),
        forall|i: int| 0 <= i < current.len() && i != at ==> !is_tier_role(roles, #[trigger] current[i]),
        is_tier_role(roles, fresh),
        current[at] != fresh,
    ensures
        reconciled_roles(roles, current, Some(fresh)) == current.remove(at).push(fresh),
{
    let keep = keeps(roles, Some(fresh));
    lemma_filter_drops_one(current, keep, at);
    let kept = current.remove(at);
    assert forall|i: int| 0 <= i < kept.len() implies kept[i] != fresh by {
        let from = if i < at { i } else { i + 1 };
        assert(kept[i] == current[from]);
    }
}

/// The owner of a community is left alone, whatever they should show and
/// whatever the platform would answer: no edit is planned.
pub proof fn lemma_owner_is_skipped(
    guild: GuildView,
    member: Option<MemberView>,
    presentation: PresentationView,
    player: PlayerView,
    edit_accepted: bool,
)
    ensures
        reconcile_plan(guild, guild.owner_id, member, presentation) is Skipped,
        player_plan(guild, guild.owner_id, member, player) is Skipped,
        outcome_of(reconcile_plan(guild, guild.owner_id, member, presentation), edit_accepted)
            == ReconcileOutcome::Skipped,
        outcome_of(player_plan(guild, guild.owner_id, member, player), edit_accepted)
            == ReconcileOutcome::Skipped,
{
}

impl Guild {
    /// The first role called `name`.
    pub fn role_by_name(&self, name: &str) -> (role: Option<u64>)
        ensures
            role == role_named(self@.roles, name@),
    {
        let ghost all = self@.roles;
        let mut i: usize = 0;
        assert(all.skip(0) =~= all);
        while i < self.roles.len()
            invariant
                i <= self.roles@.len(),
                all == self@.roles,
                role_named(all, name@) == role_named(all.skip(i as int), name@),
            decreases self.roles@.len() - i,
        {
            proof {
                let rest = all.skip(i as int);
                assert(rest[0] == self.roles@[i as int]@);
                assert(rest.drop_first() =~= all.skip(i + 1));
            }
            if str_equal(self.roles[i].name.as_str(), name) {
                return Some(self.roles[i].id);
            }
            i += 1;
        }
        None
    }

    /// Whether `id` is a role of this community that carries a tier's label.
    pub fn is_tier_role(&self, id: u64) -> (found: bool)
        ensures
            found == is_tier_role(self@.roles, id),
    {
        let mut i: usize = 0;
        while i < self.roles.len()
            invariant
                i <= self.roles@.len(),
                forall|k: int|
                    0 <= k < i ==> !((#[trigger] self@.roles[k]).id == id && is_tier_label(
                        self@.roles[k].name,
                    )),
            decreases self.roles@.len() - i,
        {
            assert(self@.roles[i as int] == self.roles@[i as int]@);
            if self.roles[i].id == id && tier_of_label(self.roles[i].name.as_str()).is_some() {
                return true;
            }
            i += 1;
        }
        false
    }
}

/// Entry points of the presentation logic.
pub struct DiscordBot;

impl DiscordBot {
    /// What `player` should show; `None` where the account has no rank in the
    /// tracked game.
    pub fn desired_presentation(player: &Player) -> (presentation: Option<Presentation>)
        ensures
            presentation is Some <==> presentation_of(player@) is Some,
            presentation matches Some(p) ==> Some(p@) == presentation_of(player@),
    {
        let level = match player.get_player_skill_level() {
            Some(level) => level,
            None => {
                return None;
            },
        };
        let elo = match player.get_player_elo() {
            Some(elo) => elo,
            None => {
                return None;
            },
        };
        let nickname = String::from_str("(").concat(elo.as_str()).concat(" ELO) ").concat(
            player.nickname.as_str(),
        );
        Some(Presentation { nickname, tier: Some(level) })
    }

    /// What a user shows once their link is gone.
    pub fn cleared() -> (presentation: Presentation)
        ensures
            presentation@ == cleared_presentation(),
    {
        Presentation { nickname: String::new(), tier: None }
    }

    /// The roles of a member after reconciliation.
    fn reconcile_roles(guild: &Guild, current: &Vec<u64>, desired: Option<u64>) -> (roles: Vec<u64>)
        ensures
            roles@ == reconciled_roles(guild@.roles, current@, desired),
    {
        let ghost keep = keeps(guild@.roles, desired);
        let mut roles: Vec<u64> = Vec::new();
        let mut present = false;
        let mut i: usize = 0;
        proof {
            reveal(Seq::filter);
            assert(current@.take(0) =~= Seq::<u64>::empty());
        }
        while i < current.len()
            invariant
                i <= current@.len(),
                keep == keeps(guild@.roles, desired),
                roles@ == current@.take(i as int).filter(keep),
                desired matches Some(role) ==> present == roles@.contains(role),
            decreases current@.len() - i,
        {
            let id = current[i];
            let stale = guild.is_tier_role(id) && match desired {
                Some(role) => role != id,
                None => true,
            };
            proof {
                reveal(Seq::filter);
                let next = current@.take(i + 1);
                assert(next.drop_last() =~= current@.take(i as int));
                assert(next.last() == id);
                assert(keep(id) == !stale);
            }
            if !stale {
                let ghost before = roles@;
                roles.push(id);
                proof {
                    if let Some(role) = desired {
                        if role == id {
                            assert(roles@[roles@.len() - 1] == role);
                        } else if before.contains(role) {
                            let at = choose|k: int| 0 <= k < before.len() && before[k] == role;
                            assert(roles@[at] == role);
                        } else {
                            assert forall|k: int| 0 <= k < roles@.len() implies roles@[k]
                                != role by {
                                if k < before.len() {
                                    assert(before[k] == roles@[k]);
                                }
                            }
                        }
                    }
                }
                match desired {
                    Some(role) => {
                        if role == id {
                            present = true;
                        }
                    },
                    None => {},
                }
            }
            i += 1;
        }
        assert(current@.take(i as int) =~= current@);
        match desired {
            Some(role) => {
                if !present {
                    roles.push(role);
                }
            },
            None => {},
        }
        roles
    }

    /// Plans the edit of one member: the new nickname, and the member's roles
    /// with the tier roles other than `role` taken away and `role` added
    /// where it is missing. `member` is what the fetch of the member gave.
    pub fn edit_member(
        guild: &Guild,
        member_id: u64,
        member: Option<&Member>,
        new_name: &str,
        role: Option<u64>,
    ) -> (plan: ReconcilePlan)
        ensures
            plan@ == edit_plan(guild@, member_id, member_view(member), new_name@, role),
    {
        let target = match member {
            Some(target) => target,
            None => {
                return ReconcilePlan::Skipped(SkipReason::NotMember);
            },
        };
        if guild.owner_id == member_id {
            return ReconcilePlan::Skipped(SkipReason::Owner);
        }
        if new_name.unicode_len() > NICKNAME_LIMIT {
            return ReconcilePlan::Refused;
        }
        let roles = DiscordBot::reconcile_roles(guild, &target.roles, role);
        ReconcilePlan::Edit(MemberEdit { nickname: String::from_str(new_name), roles })
    }

    /// Plans the step that brings one member of one community to
    /// `presentation`.
    pub fn reconcile(
        guild: &Guild,
        member_id: u64,
        member: Option<&Member>,
        presentation: &Presentation,
    ) -> (plan: ReconcilePlan)
        ensures
            plan@ == reconcile_plan(guild@, member_id, member_view(member), presentation@),
    {
        let role = match presentation.tier {
            Some(index) => match tier_label(index) {
                Some(label) => guild.role_by_name(label),
                None => None,
            },
            None => None,
        };
        DiscordBot::edit_member(guild, member_id, member, presentation.nickname.as_str(), role)
    }

    /// Plans the step that brings one member of one community to what
    /// `player` should show.
    pub fn reconcile_player(
        guild: &Guild,
        member_id: u64,
        member: Option<&Member>,
        player: &Player,
    ) -> (plan: ReconcilePlan)
        ensures
            plan@ == player_plan(guild@, member_id, member_view(member), player@),
    {
        match DiscordBot::desired_presentation(player) {
            Some(presentation) => DiscordBot::reconcile(guild, member_id, member, &presentation),
            None => ReconcilePlan::Skipped(SkipReason::Ineligible),
        }
    }

    /// How a plan ended; `edit_accepted` says whether the platform accepted
    /// the edit, and is not read where the plan made no call.
    pub fn outcome(plan: &ReconcilePlan, edit_accepted: bool) -> (outcome: ReconcileOutcome)
        ensures
            outcome == outcome_of(plan@, edit_accepted),
    {
        match plan {
            ReconcilePlan::Skipped(_) => ReconcileOutcome::Skipped,
            ReconcilePlan::Refused => ReconcileOutcome::Error,
            ReconcilePlan::Edit(_) => if edit_accepted {
                ReconcileOutcome::Applied
            } else {
                ReconcileOutcome::Error
            },
        }
    }
}

} // verus!
