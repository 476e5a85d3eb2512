//! Linking a chat user to an account of the ranking service, and taking the
//! link away again.
//!
//! Each operation is a small machine: it names the next call to make, and is
//! told what the call answered. The machine makes no call itself, so the same
//! decisions drive a remote store and the table in memory.

use crate::database::{has_user, unique_users, without_user, Database, LinkRow};
use crate::discord::DiscordBot;
use crate::faceit::{
    class_of, resolution_of, Player, PlayerView, Resolution, ResolutionView, StatusClass,
};
use vstd::prelude::*;
use vstd::string::*;

verus! {

/// How a request to link ended.
#[derive(Clone, Copy, Debug, PartialEq, Eq, Structural)]
pub enum LinkOutcome {
    /// The link is stored.
    Linked,
    /// The chat user has a link already; nothing was stored.
    AlreadyLinked,
    /// The ranking service knows no such account.
    AccountNotFound,
    /// The account has no rank in the tracked game; nothing was stored.
    Ineligible,
    /// A call failed, or the store took no row.
    Error,
}

/// How a request to unlink ended.
#[derive(Clone, Copy, Debug, PartialEq, Eq, Structural)]
pub enum UnlinkOutcome {
    /// The link is gone.
    Unlinked,
    /// The chat user had no link; nothing was removed.
    NotLinked,
    /// The store could not say whether the chat user has a link; nothing was
    /// removed.
    Unavailable,
    /// The removal failed, or the store removed no row.
    Error,
}

/// Where a request to link stands: the answer it waits for.
pub enum LinkState {
    /// Waits for the lookup of the account by name.
    Resolving,
    /// Waits for the store to say whether the user has a link.
    Checking(Player),
    /// Waits for the store to say whether it took the row.
    Inserting(Player),
    /// Waits for the end of the member's reconciliation; the flag says
    /// whether the store took the row.
    Reconciling(bool),
    /// Over.
    Done(LinkOutcome),
}

/// What a [`LinkState`] holds.
pub enum LinkStateView {
    Resolving,
    Checking(PlayerView),
    Inserting(PlayerView),
    Reconciling(bool),
    Done(LinkOutcome),
}

impl View for LinkState {
    type V = LinkStateView;

    open spec fn view(&self) -> LinkStateView {
        match self {
            LinkState::Resolving => LinkStateView::Resolving,
            LinkState::Checking(player) => LinkStateView::Checking(player@),
            LinkState::Inserting(player) => LinkStateView::Inserting(player@),
            LinkState::Reconciling(stored) => LinkStateView::Reconciling(*stored),
            LinkState::Done(outcome) => LinkStateView::Done(*outcome),
        }
    }
}

/// An answer to a call that a request to link asked for.
pub enum LinkEvent {
    /// The lookup by name ended.
    Resolved(Resolution),
    /// The store said whether the user has a link; `None`: the call failed.
    Exists(Option<bool>),
    /// The store said whether it took the row; `None`: the call failed.
    Inserted(Option<bool>),
    /// The member's reconciliation is over.
    Reconciled,
}

/// What a [`LinkEvent`] holds.
pub enum LinkEventView {
    Resolved(ResolutionView),
    Exists(Option<bool>),
    Inserted(Option<bool>),
    Reconciled,
}

impl View for LinkEvent {
    type V = LinkEventView;

    open spec fn view(&self) -> LinkEventView {
        match self {
            LinkEvent::Resolved(resolution) => LinkEventView::Resolved(resolution@),
            LinkEvent::Exists(answer) => LinkEventView::Exists(*answer),
            LinkEvent::Inserted(answer) => LinkEventView::Inserted(*answer),
            LinkEvent::Reconciled => LinkEventView::Reconciled,
        }
    }
}

/// The next call of a request to link.
pub enum LinkAction {
    /// Look the account up by the name that was given.
    Resolve,
    /// Ask the store whether the chat user has a link.
    CheckExists,
    /// Store a link from the chat user to this account.
    Insert { faceit_id: String },
    /// Reconcile the chat user with this player in every community.
    Reconcile(Player),
    /// Nothing more: the request ended so.
    Finish(LinkOutcome),
}

/// What a [`LinkAction`] holds.
pub enum LinkActionView {
    Resolve,
    CheckExists,
    Insert { faceit_id: Seq<char> },
    Reconcile(PlayerView),
    Finish(LinkOutcome),
}

impl View for LinkAction {
    type V = LinkActionView;

    open spec fn view(&self) -> LinkActionView {
        match self {
            LinkAction::Resolve => LinkActionView::Resolve,
            LinkAction::CheckExists => LinkActionView::CheckExists,
            LinkAction::Insert { faceit_id } => LinkActionView::Insert { faceit_id: faceit_id@ },
            LinkAction::Reconcile(player) => LinkActionView::Reconcile(player@),
            LinkAction::Finish(outcome) => LinkActionView::Finish(*outcome),
        }
    }
}

/// A request that ended with `outcome`.
pub open spec fn link_over(outcome: LinkOutcome) -> (LinkStateView, LinkActionView) {
    (LinkStateView::Done(outcome), LinkActionView::Finish(outcome))
}

/// The step of a request to link. The account is looked up first; a user who
/// has a link is turned away before the rank is looked at; an account
/// without rank is turned away before anything is stored; the member is
/// reconciled once the store answered, and a failed reconciliation does not
/// take the link back. An answer that the state does not wait for ends the
/// request with an error.
pub open spec fn link_next(state: LinkStateView, event: LinkEventView) -> (
    LinkStateView,
    LinkActionView,
) {
    match (state, event) {
        (LinkStateView::Done(outcome), _) => link_over(outcome),
        (LinkStateView::Resolving, LinkEventView::Resolved(ResolutionView::Found(player))) => (
            LinkStateView::Checking(player),
            LinkActionView::CheckExists,
        ),
        (LinkStateView::Resolving, LinkEventView::Resolved(ResolutionView::NotFound)) => link_over(
            LinkOutcome::AccountNotFound,
        ),
        (LinkStateView::Checking(player), LinkEventView::Exists(Some(exists))) => if exists {
            link_over(LinkOutcome::AlreadyLinked)
        } else if player.skill_level is None {
            link_over(LinkOutcome::Ineligible)
        } else {
            (
                LinkStateView::Inserting(player),
                LinkActionView::Insert { faceit_id: player.player_id },
            )
        },
        (LinkStateView::Inserting(player), LinkEventView::Inserted(Some(stored))) => (
            LinkStateView::Reconciling(stored),
            LinkActionView::Reconcile(player),
        ),
        (LinkStateView::Reconciling(stored), LinkEventView::Reconciled) => if stored {
            link_over(LinkOutcome::Linked)
        } else {
            link_over(LinkOutcome::Error)
        },
        _ => link_over(LinkOutcome::Error),
    }
}

/// Where a request to unlink stands: the answer it waits for.
#[derive(Clone, Copy, Debug, PartialEq, Eq, Structural)]
pub enum UnlinkState {
    /// Waits for the store to say whether the user has a link.
    Checking,
    /// Waits for the store to say whether it removed the row.
    Removing,
    /// Waits for the end of the clearing of the member's presentation.
    Clearing,
    /// Over.
    Done(UnlinkOutcome),
}

/// An answer to a call that a request to unlink asked for.
#[derive(Clone, Copy, Debug, PartialEq, Eq, Structural)]
pub enum UnlinkEvent {
    /// The store said whether the user has a link; `None`: the call failed.
    Exists(Option<bool>),
    /// The store said whether it removed a row; `None`: the call failed.
    Removed(Option<bool>),
    /// The member's presentation is cleared in every community.
    Cleared,
}

/// The next call of a request to unlink.
#[derive(Clone, Copy, Debug, PartialEq, Eq, Structural)]
pub enum UnlinkAction {
    /// Ask the store whether the chat user has a link.
    CheckExists,
    /// Remove the chat user's link from the store.
    Remove,
    /// Clear the chat user's nickname and tier role in every community.
    Clear,
    /// Nothing more: the request ended so.
    Finish(UnlinkOutcome),
}

/// A request that ended with `outcome`.
pub open spec fn unlink_over(outcome: UnlinkOutcome) -> (UnlinkState, UnlinkAction) {
    (UnlinkState::Done(outcome), UnlinkAction::Finish(outcome))
}

/// The step of a request to unlink. A user without a link is turned away
/// before anything is removed, and so is every user while the store cannot
/// say who has a link; the presentation is cleared only once the store
/// removed the row. An answer that the state does not wait for ends the
/// request with an error.
pub open spec fn unlink_next(state: UnlinkState, event: UnlinkEvent) -> (UnlinkState, UnlinkAction) {
    match (state, event) {
        (UnlinkState::Done(outcome), _) => unlink_over(outcome),
        (UnlinkState::Checking, UnlinkEvent::Exists(Some(exists))) => if exists {
            (UnlinkState::Removing, UnlinkAction::Remove)
        } else {
            unlink_over(UnlinkOutcome::NotLinked)
        },
        (UnlinkState::Checking, UnlinkEvent::Exists(None)) => unlink_over(
            UnlinkOutcome::Unavailable,
        ),
        (UnlinkState::Removing, UnlinkEvent::Removed(Some(removed))) => if removed {
            (UnlinkState::Clearing, UnlinkAction::Clear)
        } else {
            unlink_over(UnlinkOutcome::Error)
        },
        (UnlinkState::Clearing, UnlinkEvent::Cleared) => unlink_over(UnlinkOutcome::Unlinked),
        _ => unlink_over(UnlinkOutcome::Error),
    }
}

/// What a request to link comes to on a table that answers truthfully: the
/// outcome, and the table afterwards.
pub open spec fn link_result(rows: Seq<LinkRow>, resolution: ResolutionView, discord_id: Seq<char>) -> (
    LinkOutcome,
    Seq<LinkRow>,
) {
    match resolution {
        ResolutionView::NotFound => (LinkOutcome::AccountNotFound, rows),
        ResolutionView::Failed => (LinkOutcome::Error, rows),
        ResolutionView::Found(player) => if has_user(rows, discord_id) {
            (LinkOutcome::AlreadyLinked, rows)
        } else if player.skill_level is None {
            (LinkOutcome::Ineligible, rows)
        } else {
            (
                LinkOutcome::Linked,
                rows.push(LinkRow { faceit_id: player.player_id, discord_id: discord_id }),
            )
        },
    }
}

/// What a request to unlink comes to on a table that answers truthfully.
pub open spec fn unlink_result(rows: Seq<LinkRow>, discord_id: Seq<char>) -> (
    UnlinkOutcome,
    Seq<LinkRow>,
) {
    if has_user(rows, discord_id) {
        (UnlinkOutcome::Unlinked, without_user(rows, discord_id))
    } else {
        (UnlinkOutcome::NotLinked, rows)
    }
}

/// Linking a user who has a link, to an account that the service knows,
/// answers `AlreadyLinked` and leaves the table as it was.
pub proof fn lemma_link_twice(rows: Seq<LinkRow>, player: PlayerView, discord_id: Seq<char>)
    requires
        has_user(rows, discord_id),
    ensures
        link_result(rows, ResolutionView::Found(player), discord_id) == (
            LinkOutcome::AlreadyLinked,
            rows,
        ),
{
}

/// Whatever the lookup answered, a request to link changes nothing in the
/// table of a user who has a link, and stores nothing unless it ends in
/// `Linked`.
pub proof fn lemma_link_changes(rows: Seq<LinkRow>, resolution: ResolutionView, discord_id: Seq<char>)
    ensures
        has_user(rows, discord_id) ==> link_result(rows, resolution, discord_id).1 == rows,
        link_result(rows, resolution, discord_id).0 != LinkOutcome::Linked ==> link_result(
            rows,
            resolution,
            discord_id,
        ).1 == rows,
        link_result(rows, resolution, discord_id).0 == LinkOutcome::Linked ==> has_user(
            link_result(rows, resolution, discord_id).1,
            discord_id,
        ),
{
    if link_result(rows, resolution, discord_id).0 == LinkOutcome::Linked {
        let after = link_result(rows, resolution, discord_id).1;
        assert(after[after.len() - 1].discord_id == discord_id);
    }
}

/// Unlinking a user without a link answers `NotLinked` and leaves the table
/// as it was. Unlinking a user with a link answers `Unlinked`, takes exactly
/// one row away, and leaves the user without a link.
pub proof fn lemma_unlink(rows: Seq<LinkRow>, discord_id: Seq<char>)
    requires
        unique_users(rows),
    ensures
        !has_user(rows, discord_id) ==> unlink_result(rows, discord_id) == (
            UnlinkOutcome::NotLinked,
            rows,
        ),
        has_user(rows, discord_id) ==> unlink_result(rows, discord_id).0 == UnlinkOutcome::Unlinked
            && unlink_result(rows, discord_id).1.len() + 1 == rows.len(),
        !has_user(unlink_result(rows, discord_id).1, discord_id),
{
    if has_user(rows, discord_id) {
        let at = choose|i: int| 0 <= i < rows.len() && (#[trigger] rows[i]).discord_id == discord_id;
        crate::database::lemma_without_present_user(rows, at);
        let after = rows.remove(at);
        assert forall|i: int| 0 <= i < after.len() implies (#[trigger] after[i]).discord_id
            != discord_id by {
            let from = if i < at { i } else { i + 1 };
            assert(after[i] == rows[from]);
            if from < at {
                assert(rows[from].discord_id != rows[at].discord_id);
            } else {
                assert(rows[at].discord_id != rows[from].discord_id);
            }
        }
    }
}

/// A link that was accepted holds the identifier of the account that it was
/// accepted for, so the next lookup by identifier asks for that very
/// account; and where the service then answers with the record that it gave
/// at the time of linking, the lookup finds a player of the same skill
/// level, who still has a rank to show.
pub proof fn lemma_link_round_trip(
    rows: Seq<LinkRow>,
    player: PlayerView,
    discord_id: Seq<char>,
    status: u16,
)
    requires
        link_result(rows, ResolutionView::Found(player), discord_id).0 == LinkOutcome::Linked,
        class_of(status) == StatusClass::Success,
    ensures
        link_result(rows, ResolutionView::Found(player), discord_id).1.last() == (LinkRow {
            faceit_id: player.player_id,
            discord_id: discord_id,
        }),
        resolution_of(status, Some(player)) == ResolutionView::Found(player),
        resolution_of(status, Some(player))->Found_0.skill_level == player.skill_level,
        player.skill_level is Some,
{
}

/// A request to link.
pub struct LinkFlow;

impl LinkFlow {
    /// The first state and call of a request to link.
    pub fn start() -> (first: (LinkState, LinkAction))
        ensures
            first.0@ == LinkStateView::Resolving,
            first.1@ == LinkActionView::Resolve,
    {
        (LinkState::Resolving, LinkAction::Resolve)
    }

    fn over(outcome: LinkOutcome) -> (next: (LinkState, LinkAction))
        ensures
            (next.0@, next.1@) == link_over(outcome),
    {
        (LinkState::Done(outcome), LinkAction::Finish(outcome))
    }

    /// Takes the answer to the last call and names the next one.
    pub fn step(state: LinkState, event: LinkEvent) -> (next: (LinkState, LinkAction))
        ensures
            (next.0@, next.1@) == link_next(state@, event@),
    {
        match state {
            LinkState::Done(outcome) => LinkFlow::over(outcome),
            LinkState::Resolving => match event {
                LinkEvent::Resolved(Resolution::Found(player)) => (
                    LinkState::Checking(player),
                    LinkAction::CheckExists,
                ),
                LinkEvent::Resolved(Resolution::NotFound) => LinkFlow::over(
                    LinkOutcome::AccountNotFound,
                ),
                _ => LinkFlow::over(LinkOutcome::Error),
            },
            LinkState::Checking(player) => match event {
                LinkEvent::Exists(Some(exists)) => {
                    if exists {
                        LinkFlow::over(LinkOutcome::AlreadyLinked)
                    } else if player.get_player_skill_level().is_none() {
                        LinkFlow::over(LinkOutcome::Ineligible)
                    } else {
                        let faceit_id = player.player_id.clone();
                        (LinkState::Inserting(player), LinkAction::Insert { faceit_id })
                    }
                },
                _ => LinkFlow::over(LinkOutcome::Error),
            },
            LinkState::Inserting(player) => match event {
                LinkEvent::Inserted(Some(stored)) => (
                    LinkState::Reconciling(stored),
                    LinkAction::Reconcile(player),
                ),
                _ => LinkFlow::over(LinkOutcome::Error),
            },
            LinkState::Reconciling(stored) => match event {
                LinkEvent::Reconciled => if stored {
                    LinkFlow::over(LinkOutcome::Linked)
                } else {
                    LinkFlow::over(LinkOutcome::Error)
                },
                _ => LinkFlow::over(LinkOutcome::Error),
            },
        }
    }
}

impl DiscordBot {
    /// Links the chat user `discord_id` in `db`, given what the lookup of the
    /// account answered: runs the request to its end with `db` as the store.
    /// Returns the outcome, and the player to reconcile the member with where
    /// the request got that far.
    pub fn link_user(db: &mut Database, resolution: Resolution, discord_id: &str) -> (result: (
        LinkOutcome,
        Option<Player>,
    ))
        ensures
            (result.0, final(db)@) == link_result(old(db)@, resolution@, discord_id@),
            result.1 is Some <==> result.0 == LinkOutcome::Linked,
            result.1 matches Some(player) ==> resolution@ == ResolutionView::Found(player@),
    {
        let (state, first) = LinkFlow::start();
        let (state, action) = match first {
            LinkAction::Resolve => LinkFlow::step(state, LinkEvent::Resolved(resolution)),
            _ => LinkFlow::over(LinkOutcome::Error),
        };
        let (state, action) = match action {
            LinkAction::CheckExists => {
                let exists = db.user_exists(discord_id);
                LinkFlow::step(state, LinkEvent::Exists(Some(exists)))
            },
            LinkAction::Finish(outcome) => {
                return (outcome, None);
            },
            _ => {
                return (LinkOutcome::Error, None);
            },
        };
        let (state, action) = match action {
            LinkAction::Insert { faceit_id } => {
                let stored = db.add_user(faceit_id, String::from_str(discord_id));
                LinkFlow::step(state, LinkEvent::Inserted(Some(stored)))
            },
            LinkAction::Finish(outcome) => {
                return (outcome, None);
            },
            _ => {
                return (LinkOutcome::Error, None);
            },
        };
        match action {
            LinkAction::Reconcile(player) => {
                let (_, last) = LinkFlow::step(state, LinkEvent::Reconciled);
                match last {
                    LinkAction::Finish(outcome) => (outcome, Some(player)),
                    _ => (LinkOutcome::Error, None),
                }
            },
            LinkAction::Finish(outcome) => (outcome, None),
            _ => (LinkOutcome::Error, None),
        }
    }
}

/// A request to unlink.
pub struct UnlinkFlow;

impl UnlinkFlow {
    /// The first state and call of a request to unlink.
    pub fn start() -> (first: (UnlinkState, UnlinkAction))
        ensures
            first == (UnlinkState::Checking, UnlinkAction::CheckExists),
    {
        (UnlinkState::Checking, UnlinkAction::CheckExists)
    }

    /// Takes the answer to the last call and names the next one.
    pub fn step(state: UnlinkState, event: UnlinkEvent) -> (next: (UnlinkState, UnlinkAction))
        ensures
            next == unlink_next(state, event),
    {
        match state {
            UnlinkState::Done(outcome) => (UnlinkState::Done(outcome), UnlinkAction::Finish(outcome)),
            UnlinkState::Checking => match event {
                UnlinkEvent::Exists(Some(true)) => (UnlinkState::Removing, UnlinkAction::Remove),
                UnlinkEvent::Exists(Some(false)) => (
                    UnlinkState::Done(UnlinkOutcome::NotLinked),
                    UnlinkAction::Finish(UnlinkOutcome::NotLinked),
                ),
                UnlinkEvent::Exists(None) => (
                    UnlinkState::Done(UnlinkOutcome::Unavailable),
                    UnlinkAction::Finish(UnlinkOutcome::Unavailable),
                ),
                _ => (
                    UnlinkState::Done(UnlinkOutcome::Error),
                    UnlinkAction::Finish(UnlinkOutcome::Error),
                ),
            },
            UnlinkState::Removing => match event {
                UnlinkEvent::Removed(Some(true)) => (UnlinkState::Clearing, UnlinkAction::Clear),
                _ => (
                    UnlinkState::Done(UnlinkOutcome::Error),
                    UnlinkAction::Finish(UnlinkOutcome::Error),
                ),
            },
            UnlinkState::Clearing => match event {
                UnlinkEvent::Cleared => (
                    UnlinkState::Done(UnlinkOutcome::Unlinked),
                    UnlinkAction::Finish(UnlinkOutcome::Unlinked),
                ),
                _ => (
                    UnlinkState::Done(UnlinkOutcome::Error),
                    UnlinkAction::Finish(UnlinkOutcome::Error),
                ),
            },
        }
    }

    /// Unlinks the chat user `discord_id` in `db`: runs the request to its
    /// end with `db` as the store. Where the outcome is `Unlinked`, the
    /// member's presentation is to be cleared.
    pub fn unlink_user(db: &mut Database, discord_id: &str) -> (outcome: UnlinkOutcome)
        ensures
            (outcome, final(db)@) == unlink_result(old(db)@, discord_id@),
            outcome == UnlinkOutcome::Unlinked ==> final(db)@.len() + 1 == old(db)@.len(),
            !has_user(final(db)@, discord_id@),
            unique_users(final(db)@),
    {
        let (state, action) = UnlinkFlow::start();
        let (state, action) = match action {
            UnlinkAction::CheckExists => {
                let exists = db.user_exists(discord_id);
                UnlinkFlow::step(state, UnlinkEvent::Exists(Some(exists)))
            },
            _ => UnlinkFlow::step(state, UnlinkEvent::Exists(None)),
        };
        let (state, action) = match action {
            UnlinkAction::Remove => {
                let removed = db.unlink_user(discord_id);
                UnlinkFlow::step(state, UnlinkEvent::Removed(Some(removed)))
            },
            UnlinkAction::Finish(outcome) => {
                return outcome;
            },
            _ => {
                return UnlinkOutcome::Error;
            },
        };
        match action {
            UnlinkAction::Clear => {
                let (_, last) = UnlinkFlow::step(state, UnlinkEvent::Cleared);
                match last {
                    UnlinkAction::Finish(outcome) => outcome,
                    _ => UnlinkOutcome::Error,
                }
            },
            UnlinkAction::Finish(outcome) => outcome,
            _ => UnlinkOutcome::Error,
        }
    }
}

} // verus!
