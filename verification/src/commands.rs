//! What the commands answer, and the recovery of links from nicknames.
//!
//! The commands themselves are received and answered elsewhere; here is what
//! each of them says for each way it can end, and how a nickname that this
//! library once wrote is read back into the display name of an account.

use crate::link::{LinkOutcome, UnlinkOutcome};
use crate::sync::{count, counted};
use crate::text::{decimal_text, ends_with, format_u64, has_suffix};
use vstd::prelude::*;
use vstd::string::*;

verus! {

/// What a search with a regular expression found.
pub enum Capture {
    /// The pattern is no regular expression.
    BadPattern,
    /// The text has no match.
    NoMatch,
    /// The text has a match, in which the group took no part.
    NoGroup,
    /// The text has a match; this is what the group matched.
    Group(String),
}

/// What a [`Capture`] holds.
pub enum CaptureView {
    BadPattern,
    NoMatch,
    NoGroup,
    Group(Seq<char>),
}

impl View for Capture {
    type V = CaptureView;

    open spec fn view(&self) -> CaptureView {
        match self {
            Capture::BadPattern => CaptureView::BadPattern,
            Capture::NoMatch => CaptureView::NoMatch,
            Capture::NoGroup => CaptureView::NoGroup,
            Capture::Group(text) => CaptureView::Group(text@),
        }
    }
}

/// What the leftmost match of the regular expression `pattern` in `haystack`
/// holds in its capture group number `group`, by the rules of the `regex`
/// crate.
pub uninterp spec fn regex_capture(pattern: Seq<char>, haystack: Seq<char>, group: usize) -> CaptureView;

/// Compiles `pattern` with `regex::Regex::new`, searches `haystack` with
/// `Regex::captures`, and takes group `group` of the match with
/// `Captures::get`. The contract only names the result: the search is a
/// function of the three arguments.
#[verifier::external_body]
fn capture(pattern: &str, haystack: &str, group: usize) -> (found: Capture)
    ensures
        found@ == regex_capture(pattern@, haystack@, group),
{
    match regex::Regex::new(pattern) {
        Err(_) => Capture::BadPattern,
        Ok(expression) => match expression.captures(haystack) {
            None => Capture::NoMatch,
            Some(captures) => match captures.get(group) {
                None => Capture::NoGroup,
                Some(found) => Capture::Group(found.as_str().to_string()),
            },
        },
    }
}

/// The shape of a nickname that shows a score: the score in brackets, then
/// the display name, which is the first group.
pub open spec fn nickname_pattern() -> Seq<char> {
    "\\(\\d+ ELO\\)\\s+([A-Za-z0-9-_]+)"@
}

/// What to do about one member when links are recovered.
pub enum RestoreStep {
    /// Nothing: the member has no nickname, or not one that shows a score.
    Skip,
    /// Nothing: the search gave no display name.
    Broken,
    /// Nothing: the nickname does not end with the display name that was
    /// found, so the name was not read whole. This counts as an error.
    Mismatch,
    /// Link the member to the account of this display name.
    Link(String),
}

/// What a [`RestoreStep`] holds.
pub enum RestoreStepView {
    Skip,
    Broken,
    Mismatch,
    Link(Seq<char>),
}

impl View for RestoreStep {
    type V = RestoreStepView;

    open spec fn view(&self) -> RestoreStepView {
        match self {
            RestoreStep::Skip => RestoreStepView::Skip,
            RestoreStep::Broken => RestoreStepView::Broken,
            RestoreStep::Mismatch => RestoreStepView::Mismatch,
            RestoreStep::Link(name) => RestoreStepView::Link(name@),
        }
    }
}

/// The step for a nickname and what the search in it found.
pub open spec fn restore_step(nickname: Seq<char>, found: CaptureView) -> RestoreStepView {
    match found {
        CaptureView::NoMatch => RestoreStepView::Skip,
        CaptureView::BadPattern => RestoreStepView::Broken,
        CaptureView::NoGroup => RestoreStepView::Broken,
        CaptureView::Group(name) => if has_suffix(nickname, name) {
            RestoreStepView::Link(name)
        } else {
            RestoreStepView::Mismatch
        },
    }
}

/// The step for a member with this nickname, if they have one.
pub open spec fn member_step(nick: Option<Seq<char>>) -> RestoreStepView {
    match nick {
        Some(nickname) => restore_step(nickname, regex_capture(nickname_pattern(), nickname, 1)),
        None => RestoreStepView::Skip,
    }
}

/// The counts of a recovery.
#[derive(Clone, Copy, Debug, PartialEq, Eq, Structural)]
pub struct RestoreTally {
    /// Members seen.
    pub total: u64,
    /// Members whose nickname gave a display name.
    pub assumed: u64,
    /// Members that were linked.
    pub added: u64,
    /// Names that were not read whole, and links that failed.
    pub errors: u64,
}

/// The counts after one more member, for whom `step` was decided.
pub open spec fn tally_member(tally: RestoreTally, step: RestoreStepView) -> RestoreTally {
    let seen = RestoreTally { total: counted(tally.total), ..tally };
    match step {
        RestoreStepView::Skip => seen,
        RestoreStepView::Broken => seen,
        RestoreStepView::Mismatch => RestoreTally {
            assumed: counted(seen.assumed),
            errors: counted(seen.errors),
            ..seen
        },
        RestoreStepView::Link(_) => RestoreTally { assumed: counted(seen.assumed), ..seen },
    }
}

/// The counts after a link that was asked for ended with `outcome`.
pub open spec fn tally_link(tally: RestoreTally, outcome: LinkOutcome) -> RestoreTally {
    match outcome {
        LinkOutcome::Linked => RestoreTally { added: counted(tally.added), ..tally },
        LinkOutcome::Error => RestoreTally { errors: counted(tally.errors), ..tally },
        _ => tally,
    }
}

impl RestoreTally {
    /// No member seen yet.
    pub fn new() -> (tally: RestoreTally)
        ensures
            tally == (RestoreTally { total: 0, assumed: 0, added: 0, errors: 0 }),
    {
        RestoreTally { total: 0, assumed: 0, added: 0, errors: 0 }
    }

    /// Counts one member, for whom `step` was decided.
    pub fn member(self, step: &RestoreStep) -> (tally: RestoreTally)
        ensures
            tally == tally_member(self, step@),
    {
        let seen = RestoreTally { total: count(self.total), ..self };
        match step {
            RestoreStep::Skip => seen,
            RestoreStep::Broken => seen,
            RestoreStep::Mismatch => RestoreTally {
                assumed: count(seen.assumed),
                errors: count(seen.errors),
                ..seen
            },
            RestoreStep::Link(_) => RestoreTally { assumed: count(seen.assumed), ..seen },
        }
    }

    /// Counts the end of a link that a step asked for.
    pub fn link(self, outcome: LinkOutcome) -> (tally: RestoreTally)
        ensures
            tally == tally_link(self, outcome),
    {
        match outcome {
            LinkOutcome::Linked => RestoreTally { added: count(self.added), ..self },
            LinkOutcome::Error => RestoreTally { errors: count(self.errors), ..self },
            _ => self,
        }
    }
}

/// Decides the step for a nickname, given what the search in it found.
pub fn restore_candidate(nickname: &str, found: Capture) -> (step: RestoreStep)
    ensures
        step@ == restore_step(nickname@, found@),
{
    match found {
        Capture::NoMatch => RestoreStep::Skip,
        Capture::BadPattern => RestoreStep::Broken,
        Capture::NoGroup => RestoreStep::Broken,
        Capture::Group(name) => if ends_with(nickname, name.as_str()) {
            RestoreStep::Link(name)
        } else {
            RestoreStep::Mismatch
        },
    }
}

/// Decides the step for a member with this nickname, if they have one: reads
/// the display name out of a nickname that shows a score.
pub fn restore_member(nick: Option<&str>) -> (step: RestoreStep)
    ensures
        step@ == member_step(
            match nick {
                Some(nickname) => Some(nickname@),
                None => None,
            },
        ),
{
    match nick {
        Some(nickname) => {
            let found = capture("\\(\\d+ ELO\\)\\s+([A-Za-z0-9-_]+)", nickname, 1);
            restore_candidate(nickname, found)
        },
        None => RestoreStep::Skip,
    }
}

/// A community as the list of communities names it.
pub struct GuildInfo {
    pub id: u64,
    pub name: String,
}

/// What a [`GuildInfo`] holds.
pub struct GuildInfoView {
    pub id: u64,
    pub name: Seq<char>,
}

impl View for GuildInfo {
    type V = GuildInfoView;

    open spec fn view(&self) -> GuildInfoView {
        GuildInfoView { id: self.id, name: self.name@ }
    }
}

/// How a request to leave a community ended.
#[derive(Clone, Copy, Debug, PartialEq, Eq, Structural)]
pub enum LeaveOutcome {
    /// The identifier is no decimal number other than zero.
    InvalidId,
    /// There is no such community.
    NotFound,
    /// The community is left.
    Left,
    /// The call failed.
    Failed,
}

/// The answer to a call that failed for no reason of the user's.
pub open spec fn trouble_text() -> Seq<char> {
    "Whops! Something went wrong."@
}

/// The answer of `link`.
pub open spec fn link_text(outcome: LinkOutcome, author: Seq<char>, username: Seq<char>) -> Seq<char> {
    match outcome {
        LinkOutcome::Linked => "Successfully linked Discord user '"@ + author
            + "' to Faceit account '"@ + username + "'."@,
        LinkOutcome::AlreadyLinked => "User already linked, unlink using '!unlink'."@,
        LinkOutcome::AccountNotFound => "Faceit account not found."@,
        LinkOutcome::Ineligible => "User has not played CS2 on Faceit."@,
        LinkOutcome::Error => "Error when attempting to link Discord user '"@ + author
            + "' to Faceit account '"@ + username + "'."@,
    }
}

/// The answer to a user identifier that is none.
pub open spec fn invalid_user_text() -> Seq<char> {
    "User ID not in valid format."@
}

/// The answer of `forcelink`; no outcome: the user identifier was none, and
/// nothing was tried.
pub open spec fn forcelink_text(
    outcome: Option<LinkOutcome>,
    user_id: Seq<char>,
    username: Seq<char>,
) -> Seq<char> {
    match outcome {
        None => invalid_user_text(),
        Some(LinkOutcome::Linked) => "Successfully force linked Discord user '"@ + user_id
            + "' to Faceit account '"@ + username + "'."@,
        Some(LinkOutcome::Error) => "Error when attempting to forcefully link Discord user '"@
            + user_id + "' to Faceit account '"@ + username + "'."@,
        Some(other) => link_text(other, user_id, username),
    }
}

/// The answer of `unlink`.
pub open spec fn unlink_text(outcome: UnlinkOutcome, author: Seq<char>) -> Seq<char> {
    match outcome {
        UnlinkOutcome::Unlinked => "Successfully unlinked user '"@ + author + "'."@,
        UnlinkOutcome::NotLinked => "User not linked. Please link using '!link *faceitUsername*'"@,
        UnlinkOutcome::Unavailable => trouble_text(),
        UnlinkOutcome::Error => "Error when attempting to unlink user '"@ + author + "'."@,
    }
}

/// The answer of `forceunlink`; no outcome: the user identifier was none,
/// and nothing was tried.
pub open spec fn forceunlink_text(outcome: Option<UnlinkOutcome>, user_id: Seq<char>) -> Seq<char> {
    match outcome {
        None => invalid_user_text(),
        Some(UnlinkOutcome::Unlinked) => "Successfully force unlinked user '"@ + user_id
            + "'."@,
        Some(UnlinkOutcome::NotLinked) => "User not linked."@,
        Some(UnlinkOutcome::Unavailable) => trouble_text(),
        Some(UnlinkOutcome::Error) => "Error when attempting to force unlink user '"@ + user_id
            + "'."@,
    }
}

/// The answer of `status`, for the number of communities and of links where
/// both could be had.
pub open spec fn status_text(guilds: Option<u64>, users: Option<u64>) -> Seq<char> {
    match (guilds, users) {
        (Some(g), Some(u)) => "Connected to "@ + decimal_text(g as nat) + " guilds. Total of "@
            + decimal_text(u as nat) + " users linked."@,
        _ => trouble_text(),
    }
}

/// One line of the answer of `guilds`.
pub open spec fn guild_line(guild: GuildInfoView) -> Seq<char> {
    "**Guild**: '"@ + guild.name + "', **ID**: '"@ + decimal_text(guild.id as nat) + "'.\n"@
}

/// The lines of the answer of `guilds`.
pub open spec fn guild_lines(guilds: Seq<GuildInfoView>) -> Seq<char>
    decreases guilds.len(),
{
    if guilds.len() == 0 {
        Seq::empty()
    } else {
        guild_lines(guilds.drop_last()) + guild_line(guilds.last())
    }
}

/// The answer of `guilds`, for the communities where they could be had.
pub open spec fn guilds_text(guilds: Option<Seq<GuildInfoView>>) -> Seq<char> {
    match guilds {
        Some(list) => "# Guilds \n"@ + guild_lines(list),
        None => trouble_text(),
    }
}

/// The answer of `leave`.
pub open spec fn leave_text(outcome: LeaveOutcome) -> Seq<char> {
    match outcome {
        LeaveOutcome::InvalidId => "Guild ID not in valid format."@,
        LeaveOutcome::NotFound => "Guild not found."@,
        LeaveOutcome::Left => "Left guild."@,
        LeaveOutcome::Failed => "Error when leaving guild."@,
    }
}

/// The answer of `restore`.
pub open spec fn restore_text(tally: RestoreTally) -> Seq<char> {
    "Restore complete. Total: "@ + decimal_text(tally.total as nat) + ", Assumed: "@
        + decimal_text(tally.assumed as nat) + ", Added: "@ + decimal_text(tally.added as nat)
        + ", Errors: "@ + decimal_text(tally.errors as nat)
}

/// What `link` answers to the user `author` who asked for the account
/// `username`.
pub fn link(outcome: LinkOutcome, author: &str, username: &str) -> (reply: String)
    ensures
        reply@ == link_text(outcome, author@, username@),
{
    match outcome {
        LinkOutcome::Linked => String::from_str("Successfully linked Discord user '").concat(
            author,
        ).concat("' to Faceit account '").concat(username).concat("'."),
        LinkOutcome::AlreadyLinked => String::from_str(
            "User already linked, unlink using '!unlink'.",
        ),
        LinkOutcome::AccountNotFound => String::from_str("Faceit account not found."),
        LinkOutcome::Ineligible => String::from_str("User has not played CS2 on Faceit."),
        LinkOutcome::Error => String::from_str(
            "Error when attempting to link Discord user '",
        ).concat(author).concat("' to Faceit account '").concat(username).concat("'."),
    }
}

/// What `forcelink` answers for the user `user_id` and the account
/// `username`; `outcome` is `None` where `user_id` is no identifier and
/// nothing was tried.
pub fn forcelink(outcome: Option<LinkOutcome>, user_id: &str, username: &str) -> (reply: String)
    ensures
        reply@ == forcelink_text(outcome, user_id@, username@),
{
    match outcome {
        None => String::from_str("User ID not in valid format."),
        Some(LinkOutcome::Linked) => String::from_str(
            "Successfully force linked Discord user '",
        ).concat(user_id).concat("' to Faceit account '").concat(username).concat("'."),
        Some(LinkOutcome::Error) => String::from_str(
            "Error when attempting to forcefully link Discord user '",
        ).concat(user_id).concat("' to Faceit account '").concat(username).concat("'."),
        Some(other) => link(other, user_id, username),
    }
}

/// What `unlink` answers to the user `author`.
pub fn unlink(outcome: UnlinkOutcome, author: &str) -> (reply: String)
    ensures
        reply@ == unlink_text(outcome, author@),
{
    match outcome {
        UnlinkOutcome::Unlinked => String::from_str("Successfully unlinked user '").concat(
            author,
        ).concat("'."),
        UnlinkOutcome::NotLinked => String::from_str(
            "User not linked. Please link using '!link *faceitUsername*'",
        ),
        UnlinkOutcome::Unavailable => String::from_str("Whops! Something went wrong."),
        UnlinkOutcome::Error => String::from_str("Error when attempting to unlink user '").concat(
            author,
        ).concat("'."),
    }
}

/// What `forceunlink` answers for the user `user_id`; `outcome` is `None`
/// where `user_id` is no identifier and nothing was tried.
pub fn forceunlink(outcome: Option<UnlinkOutcome>, user_id: &str) -> (reply: String)
    ensures
        reply@ == forceunlink_text(outcome, user_id@),
{
    match outcome {
        None => String::from_str("User ID not in valid format."),
        Some(UnlinkOutcome::Unlinked) => String::from_str(
            "Successfully force unlinked user '",
        ).concat(user_id).concat("'."),
        Some(UnlinkOutcome::NotLinked) => String::from_str("User not linked."),
        Some(UnlinkOutcome::Unavailable) => String::from_str("Whops! Something went wrong."),
        Some(UnlinkOutcome::Error) => String::from_str(
            "Error when attempting to force unlink user '",
        ).concat(user_id).concat("'."),
    }
}

/// What `status` answers: `guilds` and `users` are the numbers of
/// communities and of links, `None` where the call for one failed.
pub fn status(guilds: Option<u64>, users: Option<u64>) -> (reply: String)
    ensures
        reply@ == status_text(guilds, users),
{
    match (guilds, users) {
        (Some(g), Some(u)) => String::from_str("Connected to ").concat(
            format_u64(g).as_str(),
        ).concat(" guilds. Total of ").concat(format_u64(u).as_str()).concat(" users linked."),
        _ => String::from_str("Whops! Something went wrong."),
    }
}

/// What `guilds` answers: one line for each community, `None` where the
/// call for the communities failed.
pub fn guilds(listed: Option<&Vec<GuildInfo>>) -> (reply: String)
    ensures
        reply@ == guilds_text(
            match listed {
                Some(list) => Some(list@.map_values(|guild: GuildInfo| guild@)),
                None => None,
            },
        ),
{
    let list = match listed {
        Some(list) => list,
        None => {
            return String::from_str("Whops! Something went wrong.");
        },
    };
    let ghost all = list@.map_values(|guild: GuildInfo| guild@);
    let mut reply = String::from_str("# Guilds \n");
    let mut i: usize = 0;
    assert(all.take(0) =~= Seq::<GuildInfoView>::empty());
    while i < list.len()
        invariant
            i <= list@.len(),
            all == list@.map_values(|guild: GuildInfo| guild@),
            reply@ == "# Guilds \n"@ + guild_lines(all.take(i as int)),
        decreases list@.len() - i,
    {
        let guild = &list[i];
        proof {
            let next = all.take(i + 1);
            assert(next.drop_last() =~= all.take(i as int));
            assert(next.last() == guild@);
        }
        let ghost before = reply@;
        reply = reply.concat("**Guild**: '").concat(guild.name.as_str()).concat(
            "', **ID**: '",
        ).concat(format_u64(guild.id).as_str()).concat("'.\n");
        assert(reply@ =~= before + guild_line(guild@));
        assert(reply@ =~= "# Guilds \n"@ + guild_lines(all.take(i + 1)));
        i += 1;
    }
    assert(all.take(i as int) =~= all);
    reply
}

/// What `leave` answers.
pub fn leave(outcome: LeaveOutcome) -> (reply: &'static str)
    ensures
        reply@ == leave_text(outcome),
{
    match outcome {
        LeaveOutcome::InvalidId => "Guild ID not in valid format.",
        LeaveOutcome::NotFound => "Guild not found.",
        LeaveOutcome::Left => "Left guild.",
        LeaveOutcome::Failed => "Error when leaving guild.",
    }
}

/// What `restore` answers once every member was seen.
pub fn restore(tally: RestoreTally) -> (reply: String)
    ensures
        reply@ == restore_text(tally),
{
    String::from_str("Restore complete. Total: ").concat(format_u64(tally.total).as_str()).concat(
        ", Assumed: ",
    ).concat(format_u64(tally.assumed).as_str()).concat(", Added: ").concat(
        format_u64(tally.added).as_str(),
    ).concat(", Errors: ").concat(format_u64(tally.errors).as_str())
}

} // verus!
