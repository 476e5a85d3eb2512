//! Making sure that a community has one role for each tier.
//!
//! The tiers are gone through in ascending order. A tier whose label names a
//! role of the community is done; for any other a role is created, with a
//! pause after each creation. The first creation that fails ends the work
//! for this community; asking again later picks up where roles are missing.

use crate::discord::{role_named, DiscordBot, Guild, RoleView};
use crate::tiers::{colour_of, label_of, tier_style, valid_tier, TIER_COUNT};
use vstd::prelude::*;
use vstd::string::*;

verus! {

/// Pause after each role that was created, in milliseconds.
pub const ROLE_PAUSE_MS: u64 = 40;

/// A role to create.
pub struct RoleSpec {
    pub name: String,
    /// 24-bit RGB.
    pub colour: u32,
    /// Members with the role are listed apart from the others.
    pub hoist: bool,
    /// Everybody may mention the role.
    pub mentionable: bool,
}

/// What a [`RoleSpec`] holds.
pub struct RoleSpecView {
    pub name: Seq<char>,
    pub colour: u32,
    pub hoist: bool,
    pub mentionable: bool,
}

impl View for RoleSpec {
    type V = RoleSpecView;

    open spec fn view(&self) -> RoleSpecView {
        RoleSpecView {
            name: self.name@,
            colour: self.colour,
            hoist: self.hoist,
            mentionable: self.mentionable,
        }
    }
}

/// The role that shows a tier in one community.
#[derive(Clone, Copy, Debug, PartialEq, Eq, Structural)]
pub struct TierRole {
    pub tier: usize,
    pub role_id: u64,
}

/// What the work on a community waits for.
#[derive(Clone, Copy, Debug, PartialEq, Eq, Structural)]
pub enum ProvisionPhase {
    /// The answer to the creation of the role of the tier at hand.
    Creating,
    /// The end of the pause after that creation.
    Pausing,
    /// Nothing: every tier has its role.
    Done,
    /// Nothing: a creation failed.
    Failed,
}

/// The work on one community: the tier at hand, and the roles of the tiers
/// below it.
pub struct Provisioning {
    pub phase: ProvisionPhase,
    pub tier: usize,
    pub roles: Vec<TierRole>,
}

/// What a [`Provisioning`] holds.
pub struct ProvisioningView {
    pub phase: ProvisionPhase,
    pub tier: usize,
    pub roles: Seq<TierRole>,
}

impl View for Provisioning {
    type V = ProvisioningView;

    open spec fn view(&self) -> ProvisioningView {
        ProvisioningView { phase: self.phase, tier: self.tier, roles: self.roles@ }
    }
}

/// An answer to a call that the work asked for.
#[derive(Clone, Copy, Debug, PartialEq, Eq, Structural)]
pub enum ProvisionEvent {
    /// The role was created with this identifier; `None`: the call failed.
    Created(Option<u64>),
    /// The pause is over.
    Resumed,
}

/// The next call of the work.
pub enum ProvisionAction {
    /// Create this role.
    Create(RoleSpec),
    /// Wait.
    Pause { millis: u64 },
    /// Nothing more: these are the roles of the tiers, in ascending order.
    Finish(Vec<TierRole>),
    /// Nothing more: a creation failed.
    Fail,
}

/// What a [`ProvisionAction`] holds.
pub enum ProvisionActionView {
    Create(RoleSpecView),
    Pause { millis: u64 },
    Finish(Seq<TierRole>),
    Fail,
}

impl View for ProvisionAction {
    type V = ProvisionActionView;

    open spec fn view(&self) -> ProvisionActionView {
        match self {
            ProvisionAction::Create(role) => ProvisionActionView::Create(role@),
            ProvisionAction::Pause { millis } => ProvisionActionView::Pause { millis: *millis },
            ProvisionAction::Finish(roles) => ProvisionActionView::Finish(roles@),
            ProvisionAction::Fail => ProvisionActionView::Fail,
        }
    }
}

/// The role to create for a tier: named by the tier's label, in the tier's
/// colour, listed apart and open to mention.
pub open spec fn role_for_tier(tier: int) -> RoleSpecView {
    RoleSpecView { name: label_of(tier), colour: colour_of(tier), hoist: true, mentionable: true }
}

/// Going through the tiers from `tier` up: each tier whose label names a
/// role joins `found`; the first that has none is to be created; past the
/// last tier the work is done.
pub open spec fn provision_scan(roles: Seq<RoleView>, found: Seq<TierRole>, tier: usize) -> (
    ProvisioningView,
    ProvisionActionView,
)
    decreases 11 - tier,
{
    if !valid_tier(tier as int) {
        (
            ProvisioningView { phase: ProvisionPhase::Done, tier, roles: found },
            ProvisionActionView::Finish(found),
        )
    } else {
        match role_named(roles, label_of(tier as int)) {
            Some(role_id) => provision_scan(
                roles,
                found.push(TierRole { tier, role_id }),
                (tier + 1) as usize,
            ),
            None => (
                ProvisioningView { phase: ProvisionPhase::Creating, tier, roles: found },
                ProvisionActionView::Create(role_for_tier(tier as int)),
            ),
        }
    }
}

/// The work on a community begins with its first tier.
pub open spec fn provision_start(roles: Seq<RoleView>) -> (ProvisioningView, ProvisionActionView) {
    provision_scan(roles, Seq::empty(), 1)
}

/// The work ends in failure.
pub open spec fn provision_fail(work: ProvisioningView) -> (ProvisioningView, ProvisionActionView) {
    (ProvisioningView { phase: ProvisionPhase::Failed, ..work }, ProvisionActionView::Fail)
}

/// The step of the work. A role that was created joins the roles found, and
/// a pause follows; after the pause the tiers above are gone through. A
/// creation that failed ends the work, and so does an answer that the phase
/// does not wait for. Work that is over stays as it is.
pub open spec fn provision_next(
    roles: Seq<RoleView>,
    work: ProvisioningView,
    event: ProvisionEvent,
) -> (ProvisioningView, ProvisionActionView) {
    match (work.phase, event) {
        (ProvisionPhase::Done, _) => (work, ProvisionActionView::Finish(work.roles)),
        (ProvisionPhase::Creating, ProvisionEvent::Created(Some(role_id))) => (
            ProvisioningView {
                phase: ProvisionPhase::Pausing,
                roles: work.roles.push(TierRole { tier: work.tier, role_id }),
                ..work
            },
            ProvisionActionView::Pause { millis: ROLE_PAUSE_MS },
        ),
        (ProvisionPhase::Pausing, ProvisionEvent::Resumed) => if valid_tier(work.tier as int) {
            provision_scan(roles, work.roles, (work.tier + 1) as usize)
        } else {
            provision_fail(work)
        },
        _ => provision_fail(work),
    }
}

/// In a community that has a role for every tier from `tier` up, the work
/// is done at once: it creates nothing, and finds for each tier the first
/// role that its label names.
pub proof fn lemma_scan_of_provisioned(roles: Seq<RoleView>, found: Seq<TierRole>, tier: usize)
    requires
        1 <= tier <= 11,
        forall|k: int| tier <= k <= 10 ==> role_named(roles, #[trigger] label_of(k)) is Some,
    ensures
        provision_scan(roles, found, tier).0.phase == ProvisionPhase::Done,
        provision_scan(roles, found, tier).1 == ProvisionActionView::Finish(
            provision_scan(roles, found, tier).0.roles,
        ),
        provision_scan(roles, found, tier).0.roles.len() == found.len() + 11 - tier,
        forall|i: int|
            0 <= i < found.len() ==> #[trigger] provision_scan(roles, found, tier).0.roles[i]
                == found[i],
        forall|k: int|
            tier <= k <= 10 ==> #[trigger] provision_scan(roles, found, tier).0.roles[found.len()
                + k - tier] == (TierRole {
                tier: k as usize,
                role_id: role_named(roles, label_of(k))->0,
            }),
    decreases 11 - tier,
{
    if tier <= 10 {
        assert(role_named(roles, label_of(tier as int)) is Some);
        let role_id = role_named(roles, label_of(tier as int))->0;
        let more = found.push(TierRole { tier, role_id });
        lemma_scan_of_provisioned(roles, more, (tier + 1) as usize);
        let all = provision_scan(roles, found, tier).0.roles;
        assert(all == provision_scan(roles, more, (tier + 1) as usize).0.roles);
        assert forall|i: int| 0 <= i < found.len() implies #[trigger] all[i] == found[i] by {
            assert(more[i] == found[i]);
        }
        assert forall|k: int| tier <= k <= 10 implies #[trigger] all[found.len() + k - tier] == (
        TierRole { tier: k as usize, role_id: role_named(roles, label_of(k))->0 }) by {
            if k == tier {
                assert(all[found.len() as int] == more[found.len() as int]);
            } else {
                assert(all[more.len() + k - (tier + 1)] == (TierRole {
                    tier: k as usize,
                    role_id: role_named(roles, label_of(k))->0,
                }));
            }
        }
    }
}

/// Provisioning a community that has a role for every tier creates nothing
/// and gives the same ten roles each time.
pub proof fn lemma_provisioned_is_done(roles: Seq<RoleView>)
    requires
        forall|k: int| 1 <= k <= 10 ==> role_named(roles, #[trigger] label_of(k)) is Some,
    ensures
        provision_start(roles).0.phase == ProvisionPhase::Done,
        provision_start(roles).1 == ProvisionActionView::Finish(provision_start(roles).0.roles),
        provision_start(roles).0.roles.len() == 10,
        forall|k: int|
            1 <= k <= 10 ==> #[trigger] provision_start(roles).0.roles[k - 1] == (TierRole {
                tier: k as usize,
                role_id: role_named(roles, label_of(k))->0,
            }),
{
    lemma_scan_of_provisioned(roles, Seq::empty(), 1);
    assert forall|k: int| 1 <= k <= 10 implies #[trigger] provision_start(roles).0.roles[k - 1]
        == (TierRole { tier: k as usize, role_id: role_named(roles, label_of(k))->0 }) by {
        assert(provision_scan(roles, Seq::empty(), 1).0.roles[0 + k - 1] == (TierRole {
            tier: k as usize,
            role_id: role_named(roles, label_of(k))->0,
        }));
    }
}

/// The tiers from `tier` up whose label names no role of the community, in
/// ascending order: the tiers for which a role is to be created.
pub open spec fn missing_tiers(roles: Seq<RoleView>, tier: usize) -> Seq<usize>
    decreases 11 - tier,
{
    if !valid_tier(tier as int) {
        Seq::empty()
    } else if role_named(roles, label_of(tier as int)) is Some {
        missing_tiers(roles, (tier + 1) as usize)
    } else {
        seq![tier] + missing_tiers(roles, (tier + 1) as usize)
    }
}

/// The roles of the tiers from `tier` up once the missing ones exist: for a
/// tier whose label names a role, that role; for any other, the next of the
/// roles `created`, which come in the order of their creation.
pub open spec fn provisioned_roles(roles: Seq<RoleView>, created: Seq<u64>, tier: usize) -> Seq<
    TierRole,
>
    decreases 11 - tier,
{
    if !valid_tier(tier as int) {
        Seq::empty()
    } else {
        match role_named(roles, label_of(tier as int)) {
            Some(role_id) => seq![TierRole { tier, role_id }] + provisioned_roles(
                roles,
                created,
                (tier + 1) as usize,
            ),
            None => seq![TierRole { tier, role_id: created[0] }] + provisioned_roles(
                roles,
                created.drop_first(),
                (tier + 1) as usize,
            ),
        }
    }
}

/// The work after the creations that `created` answers, one role each, every
/// creation followed by its pause; and the roles that were asked for on the
/// way, in their order.
pub open spec fn provision_run(
    roles: Seq<RoleView>,
    work: ProvisioningView,
    action: ProvisionActionView,
    created: Seq<u64>,
) -> (ProvisioningView, ProvisionActionView, Seq<RoleSpecView>)
    decreases created.len(),
{
    match action {
        ProvisionActionView::Create(role) => if created.len() > 0 {
            let made = provision_next(roles, work, ProvisionEvent::Created(Some(created[0])));
            let resumed = provision_next(roles, made.0, ProvisionEvent::Resumed);
            let rest = provision_run(roles, resumed.0, resumed.1, created.drop_first());
            (rest.0, rest.1, seq![role] + rest.2)
        } else {
            (work, action, Seq::empty())
        },
        _ => (work, action, Seq::empty()),
    }
}

/// The missing tiers are exactly the tiers whose label names no role, each
/// once, in ascending order.
pub proof fn lemma_missing_tiers(roles: Seq<RoleView>, tier: usize)
    requires
        1 <= tier <= 11,
    ensures
        forall|i: int|
            0 <= i < missing_tiers(roles, tier).len() ==> tier <= (#[trigger] missing_tiers(
                roles,
                tier,
            )[i]) <= 10 && role_named(roles, label_of(missing_tiers(roles, tier)[i] as int))
                is None,
        forall|i: int, j: int|
            0 <= i < j < missing_tiers(roles, tier).len() ==> (#[trigger] missing_tiers(
                roles,
                tier,
            )[i]) < (#[trigger] missing_tiers(roles, tier)[j]),
        forall|k: usize|
            tier <= k <= 10 && role_named(roles, label_of(k as int)) is None ==> (
            #[trigger] missing_tiers(roles, tier).contains(k)),
    decreases 11 - tier,
{
    if tier <= 10 {
        let rest = missing_tiers(roles, (tier + 1) as usize);
        let all = missing_tiers(roles, tier);
        lemma_missing_tiers(roles, (tier + 1) as usize);
        if role_named(roles, label_of(tier as int)) is Some {
            assert(all == rest);
        } else {
            assert(all =~= seq![tier] + rest);
            assert forall|i: int| 0 <= i < all.len() implies tier <= (#[trigger] all[i]) <= 10
                && role_named(roles, label_of(all[i] as int)) is None by {
                if i > 0 {
                    assert(all[i] == rest[i - 1]);
                }
            }
            assert forall|i: int, j: int| 0 <= i < j < all.len() implies (#[trigger] all[i]) < (
            #[trigger] all[j]) by {
                assert(all[j] == rest[j - 1]);
                if i > 0 {
                    assert(all[i] == rest[i - 1]);
                }
            }
            assert forall|k: usize|
                tier <= k <= 10 && role_named(roles, label_of(k as int)) is None implies (
            #[trigger] all.contains(k)) by {
                if k == tier {
                    assert(all[0] == k);
                } else {
                    assert(rest.contains(k));
                    let at = choose|i: int| 0 <= i < rest.len() && rest[i] == k;
                    assert(all[at + 1] == k);
                }
            }
        }
    }
}

/// The roles of the tiers from `tier` up hold each of these tiers once, in
/// ascending order, and for a tier whose label names a role they hold that
/// role.
pub proof fn lemma_provisioned_roles(roles: Seq<RoleView>, created: Seq<u64>, tier: usize)
    requires
        1 <= tier <= 11,
    ensures
        provisioned_roles(roles, created, tier).len() == 11 - tier,
        forall|k: int|
            tier <= k <= 10 ==> (#[trigger] provisioned_roles(roles, created, tier)[k - tier]).tier
                == k,
        forall|k: int|
            tier <= k <= 10 && role_named(roles, label_of(k)) is Some ==> (
            #[trigger] provisioned_roles(roles, created, tier)[k - tier]).role_id == role_named(
                roles,
                label_of(k),
            )->0,
    decreases 11 - tier,
{
    if tier <= 10 {
        let all = provisioned_roles(roles, created, tier);
        let next = (tier + 1) as usize;
        let rest = match role_named(roles, label_of(tier as int)) {
            Some(_) => provisioned_roles(roles, created, next),
            None => provisioned_roles(roles, created.drop_first(), next),
        };
        match role_named(roles, label_of(tier as int)) {
            Some(_) => lemma_provisioned_roles(roles, created, next),
            None => lemma_provisioned_roles(roles, created.drop_first(), next),
        }
        assert(all.len() == 1 + rest.len());
        assert forall|k: int| tier <= k <= 10 implies (#[trigger] all[k - tier]).tier == k by {
            if k > tier {
                assert(all[k - tier] == rest[k - next]);
            }
        }
        assert forall|k: int|
            tier <= k <= 10 && role_named(roles, label_of(k)) is Some implies (#[trigger] all[k
                - tier]).role_id == role_named(roles, label_of(k))->0 by {
            if k > tier {
                assert(all[k - tier] == rest[k - next]);
            }
        }
    }
}

/// Going through the tiers from `tier` up with every creation answered: a
/// role is asked for each missing tier and for no other, in ascending order;
/// then the work is done, and its roles are the roles found before and the
/// roles of the tiers from `tier` up.
pub proof fn lemma_scan_creates_missing(
    roles: Seq<RoleView>,
    found: Seq<TierRole>,
    tier: usize,
    created: Seq<u64>,
)
    requires
        1 <= tier <= 11,
        created.len() == missing_tiers(roles, tier).len(),
    ensures
        ({
            let start = provision_scan(roles, found, tier);
            let end = provision_run(roles, start.0, start.1, created);
            &&& end.0.phase == ProvisionPhase::Done
            &&& end.1 == ProvisionActionView::Finish(end.0.roles)
            &&& end.0.roles == found + provisioned_roles(roles, created, tier)
            &&& end.2 == missing_tiers(roles, tier).map_values(
                |missing: usize| role_for_tier(missing as int),
            )
        }),
    decreases 11 - tier,
{
    let start = provision_scan(roles, found, tier);
    let end = provision_run(roles, start.0, start.1, created);
    let wanted = |missing: usize| role_for_tier(missing as int);
    if tier > 10 {
        assert(end.0.roles =~= found + provisioned_roles(roles, created, tier));
        assert(end.2 =~= missing_tiers(roles, tier).map_values(wanted));
    } else {
        let next = (tier + 1) as usize;
        match role_named(roles, label_of(tier as int)) {
            Some(role_id) => {
                let more = found.push(TierRole { tier, role_id });
                lemma_scan_creates_missing(roles, more, next, created);
                assert(more + provisioned_roles(roles, created, next) =~= found
                    + provisioned_roles(roles, created, tier));
            },
            None => {
                let more = found.push(TierRole { tier, role_id: created[0] });
                let made = provision_next(
                    roles,
                    start.0,
                    ProvisionEvent::Created(Some(created[0])),
                );
                let resumed = provision_next(roles, made.0, ProvisionEvent::Resumed);
                assert(made.0.roles == more);
                assert(resumed == provision_scan(roles, more, next));
                lemma_scan_creates_missing(roles, more, next, created.drop_first());
                assert(more + provisioned_roles(roles, created.drop_first(), next) =~= found
                    + provisioned_roles(roles, created, tier));
                let rest = provision_run(roles, resumed.0, resumed.1, created.drop_first());
                assert(end.2 == seq![role_for_tier(tier as int)] + rest.2);
                assert(end.2 =~= missing_tiers(roles, tier).map_values(wanted));
            },
        }
    }
}

/// Provisioning a community with every creation answered asks for a role
/// exactly for the tiers whose label names none, in ascending order, and
/// ends with ten roles: one for each tier, in ascending order, the one that
/// the community had where it had one.
pub proof fn lemma_provision_creates_missing(roles: Seq<RoleView>, created: Seq<u64>)
    requires
        created.len() == missing_tiers(roles, 1).len(),
    ensures
        ({
            let start = provision_start(roles);
            let end = provision_run(roles, start.0, start.1, created);
            &&& end.0.phase == ProvisionPhase::Done
            &&& end.1 == ProvisionActionView::Finish(end.0.roles)
            &&& end.2 == missing_tiers(roles, 1).map_values(
                |missing: usize| role_for_tier(missing as int),
            )
            &&& end.0.roles == provisioned_roles(roles, created, 1)
            &&& end.0.roles.len() == 10
            &&& forall|k: int| 1 <= k <= 10 ==> (#[trigger] end.0.roles[k - 1]).tier == k
            &&& forall|k: int|
                1 <= k <= 10 && role_named(roles, label_of(k)) is Some ==> (
                #[trigger] end.0.roles[k - 1]).role_id == role_named(roles, label_of(k))->0
        }),
{
    lemma_scan_creates_missing(roles, Seq::empty(), 1, created);
    lemma_provisioned_roles(roles, created, 1);
    assert(Seq::<TierRole>::empty() + provisioned_roles(roles, created, 1) =~= provisioned_roles(
        roles,
        created,
        1,
    ));
}

/// A creation that fails ends the work at once: nothing more is asked for.
pub proof fn lemma_failed_creation_ends(roles: Seq<RoleView>, work: ProvisioningView)
    requires
        work.phase == ProvisionPhase::Creating,
    ensures
        provision_next(roles, work, ProvisionEvent::Created(None)).0.phase
            == ProvisionPhase::Failed,
        provision_next(roles, work, ProvisionEvent::Created(None)).1 == ProvisionActionView::Fail,
        provision_next(roles, work, ProvisionEvent::Created(None)).0.roles == work.roles,
{
}

impl Provisioning {
    fn scan(guild: &Guild, found: Vec<TierRole>, tier: usize) -> (next: (
        Provisioning,
        ProvisionAction,
    ))
        requires
            tier >= 1,
        ensures
            (next.0@, next.1@) == provision_scan(guild@.roles, found@, tier),
    {
        let ghost goal = provision_scan(guild@.roles, found@, tier);
        let mut roles = found;
        let mut at = tier;
        while at <= TIER_COUNT
            invariant
                at >= 1,
                goal == provision_scan(guild@.roles, found@, tier),
                goal == provision_scan(guild@.roles, roles@, at),
            decreases TIER_COUNT + 1 - at,
        {
            let (label, colour) = tier_style(at);
            match guild.role_by_name(label) {
                Some(role_id) => {
                    roles.push(TierRole { tier: at, role_id });
                    at += 1;
                },
                None => {
                    let role = RoleSpec {
                        name: String::from_str(label),
                        colour,
                        hoist: true,
                        mentionable: true,
                    };
                    return (
                        Provisioning { phase: ProvisionPhase::Creating, tier: at, roles },
                        ProvisionAction::Create(role),
                    );
                },
            }
        }
        let all = roles.clone();
        assert(all@ =~= roles@);
        (Provisioning { phase: ProvisionPhase::Done, tier: at, roles }, ProvisionAction::Finish(all))
    }

    fn fail(self) -> (next: (Provisioning, ProvisionAction))
        ensures
            (next.0@, next.1@) == provision_fail(self@),
    {
        (Provisioning { phase: ProvisionPhase::Failed, ..self }, ProvisionAction::Fail)
    }

    /// Takes the answer to the last call and names the next one. `guild` is
    /// the community as it was fetched when the work began.
    pub fn step(self, guild: &Guild, event: ProvisionEvent) -> (next: (
        Provisioning,
        ProvisionAction,
    ))
        ensures
            (next.0@, next.1@) == provision_next(guild@.roles, self@, event),
    {
        match self.phase {
            ProvisionPhase::Done => {
                let roles = self.roles.clone();
                assert(roles@ =~= self.roles@);
                (self, ProvisionAction::Finish(roles))
            },
            ProvisionPhase::Creating => match event {
                ProvisionEvent::Created(Some(role_id)) => {
                    let tier = self.tier;
                    let mut roles = self.roles;
                    roles.push(TierRole { tier, role_id });
                    (
                        Provisioning { phase: ProvisionPhase::Pausing, tier, roles },
                        ProvisionAction::Pause { millis: ROLE_PAUSE_MS },
                    )
                },
                _ => self.fail(),
            },
            ProvisionPhase::Pausing => match event {
                ProvisionEvent::Resumed => {
                    if 1 <= self.tier && self.tier <= TIER_COUNT {
                        Provisioning::scan(guild, self.roles, self.tier + 1)
                    } else {
                        self.fail()
                    }
                },
                _ => self.fail(),
            },
            ProvisionPhase::Failed => self.fail(),
        }
    }
}

impl DiscordBot {
    /// Begins to make sure that `guild` has a role for every tier, and names
    /// the first call.
    pub fn prepare_guild(guild: &Guild) -> (first: (Provisioning, ProvisionAction))
        ensures
            (first.0@, first.1@) == provision_start(guild@.roles),
    {
        Provisioning::scan(guild, Vec::new(), 1)
    }
}

} // verus!
