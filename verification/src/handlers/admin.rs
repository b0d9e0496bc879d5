use crate::error::{lookup_view, ApiError, Lookup};
use crate::models::{
    NewTag, NewTagView, NewTicket, NewTicketView, NewUser, NewUserView, Tag, Ticket, TicketTag,
    Timestamp, User, UserView,
};
use crate::policy::{admin_role, is_admin};
use crate::utils::auth::{caller_of, resolve_caller};
use crate::utils::jwt::{Claims, ClaimsView};
use crate::utils::password::{hash_password, password_matches};
use vstd::prelude::*;
use vstd::string::StringExecFns;

verus! {

/// Who may reset the data: the caller that the token resolves to, where
/// that caller is an admin. Anybody else is `Forbidden`.
pub open spec fn reset_access(claims: ClaimsView, found_user: Lookup<UserView>) -> Result<(), ApiError> {
    match caller_of(claims, found_user) {
        Err(e) => Err(e),
        Ok(caller) => if caller.role == admin_role() {
            Ok(())
        } else {
            Err(ApiError::Forbidden)
        },
    }
}

/// Decides whether the caller may reset the data. A reset destroys every
/// row, so it is for admins alone; `found_user` is what the lookup of the
/// token's subject returned.
pub fn authorize_reset(claims: &Claims, found_user: Lookup<User>) -> (r: Result<(), ApiError>)
    ensures
        r == reset_access(claims@, lookup_view(found_user)),
{
    let caller = match resolve_caller(claims, found_user) {
        Ok(u) => u,
        Err(e) => { return Err(e); },
    };
    if is_admin(caller.role.as_str()) {
        Ok(())
    } else {
        Err(ApiError::Forbidden)
    }
}

/// The password that every seeded user gets.
pub open spec fn seed_password() -> Seq<char> {
    "devpass123"@
}

/// One seeded user.
pub open spec fn seed_user(
    email: Seq<char>,
    name: Seq<char>,
    role: Seq<char>,
    digest: Seq<char>,
    now: Timestamp,
) -> NewUserView {
    NewUserView { email, name, password: digest, role, created_at: Some(now) }
}

/// The three seeded users, in the order in which they are stored: an
/// agent, an admin and an agent, all with the same digest.
pub open spec fn seeded_users(digest: Seq<char>, now: Timestamp) -> Seq<NewUserView> {
    seq![
        seed_user("zoya@tagblaze.dev"@, "Zoya"@, "agent"@, digest, now),
        seed_user("ankit@tagblaze.dev"@, "Ankit"@, "admin"@, digest, now),
        seed_user("divya@tagblaze.dev"@, "Divya Singh"@, "agent"@, digest, now),
    ]
}

/// One seeded tag.
pub open spec fn seed_tag(name: Seq<char>, now: Timestamp) -> NewTagView {
    NewTagView { name, created_at: Some(now), updated_at: Some(now) }
}

/// The three seeded tags.
pub open spec fn seeded_tags(now: Timestamp) -> Seq<NewTagView> {
    seq![seed_tag("Bug"@, now), seed_tag("Feature"@, now), seed_tag("Urgent"@, now)]
}

/// One seeded ticket. Its status is left to the persistence layer.
pub open spec fn seed_ticket(
    title: Seq<char>,
    description: Seq<char>,
    owner: i32,
    now: Timestamp,
) -> NewTicketView {
    NewTicketView {
        title,
        description: Some(description),
        status: None,
        user_id: Some(owner),
        created_at: Some(now),
        updated_at: Some(now),
    }
}

/// The two seeded tickets: the first belongs to the first stored user,
/// the second to the second.
pub open spec fn seeded_tickets(users: Seq<User>, now: Timestamp) -> Seq<NewTicketView>
    recommends
        users.len() >= 2,
{
    seq![
        seed_ticket(
            "Fix navbar overflow bug"@,
            "Navbar overlaps on mobile screens"@,
            users[0].id,
            now,
        ),
        seed_ticket(
            "Add dark mode toggle"@,
            "Users should be able to switch themes"@,
            users[1].id,
            now,
        ),
    ]
}

/// The three seeded relations: the first ticket carries the first and the
/// third tag, the second ticket the second tag.
pub open spec fn seeded_relations(tickets: Seq<Ticket>, tags: Seq<Tag>) -> Seq<TicketTag>
    recommends
        tickets.len() >= 2,
        tags.len() >= 3,
{
    seq![
        TicketTag { ticket_id: tickets[0].id, tag_id: tags[0].id },
        TicketTag { ticket_id: tickets[0].id, tag_id: tags[2].id },
        TicketTag { ticket_id: tickets[1].id, tag_id: tags[1].id },
    ]
}

/// What a list of new users holds.
pub open spec fn user_views(rows: Seq<NewUser>) -> Seq<NewUserView> {
    rows.map_values(|u: NewUser| u@)
}

/// What a list of new tags holds.
pub open spec fn tag_views(rows: Seq<NewTag>) -> Seq<NewTagView> {
    rows.map_values(|t: NewTag| t@)
}

/// What a list of new tickets holds.
pub open spec fn ticket_views(rows: Seq<NewTicket>) -> Seq<NewTicketView> {
    rows.map_values(|t: NewTicket| t@)
}

fn user_row(email: &str, name: &str, role: &str, digest: &str, now: Timestamp) -> (r: NewUser)
    ensures
        r@ == seed_user(email@, name@, role@, digest@, now),
{
    NewUser {
        email: email.to_owned(),
        name: name.to_owned(),
        password: digest.to_owned(),
        role: role.to_owned(),
        created_at: Some(now),
    }
}

fn tag_row(name: &str, now: Timestamp) -> (r: NewTag)
    ensures
        r@ == seed_tag(name@, now),
{
    NewTag { name: name.to_owned(), created_at: Some(now), updated_at: Some(now) }
}

fn ticket_row(title: &str, description: &str, owner: i32, now: Timestamp) -> (r: NewTicket)
    ensures
        r@ == seed_ticket(title@, description@, owner, now),
{
    NewTicket {
        title: title.to_owned(),
        description: Some(description.to_owned()),
        status: None,
        user_id: Some(owner),
        created_at: Some(now),
        updated_at: Some(now),
    }
}

/// The seeded users, given the digest of the seed password.
pub fn seed_user_rows(digest: &str, now: Timestamp) -> (r: Vec<NewUser>)
    ensures
        user_views(r@) == seeded_users(digest@, now),
{
    let mut rows: Vec<NewUser> = Vec::new();
    rows.push(user_row("zoya@tagblaze.dev", "Zoya", "agent", digest, now));
    rows.push(user_row("ankit@tagblaze.dev", "Ankit", "admin", digest, now));
    rows.push(user_row("divya@tagblaze.dev", "Divya Singh", "agent", digest, now));
    proof {
        assert(user_views(rows@) =~= seeded_users(digest@, now));
    }
    rows
}

/// The users to store after a reset. They share one digest, which
/// verifies against the seed password. The only error is `InternalError`,
/// where hashing failed.
pub fn seed_users(now: Timestamp) -> (r: Result<Vec<NewUser>, ApiError>)
    ensures
        match r {
            Ok(rows) => rows@.len() == 3 && password_matches(seed_password(), rows@[0].password@)
                && user_views(rows@) == seeded_users(rows@[0].password@, now),
            Err(e) => e == ApiError::InternalError,
        },
{
    match hash_password("devpass123") {
        Ok(digest) => {
            let rows = seed_user_rows(digest.as_str(), now);
            proof {
                assert(user_views(rows@).len() == 3);
                assert(user_views(rows@)[0] == rows@[0]@);
            }
            Ok(rows)
        },
        Err(e) => Err(e),
    }
}

/// The tags to store after a reset.
pub fn seed_tags(now: Timestamp) -> (r: Vec<NewTag>)
    ensures
        tag_views(r@) == seeded_tags(now),
{
    let mut rows: Vec<NewTag> = Vec::new();
    rows.push(tag_row("Bug", now));
    rows.push(tag_row("Feature", now));
    rows.push(tag_row("Urgent", now));
    proof {
        assert(tag_views(rows@) =~= seeded_tags(now));
    }
    rows
}

/// The tickets to store after a reset, given the users as they were
/// stored. With fewer than two users there is nobody to own them:
/// `InternalError`.
pub fn seed_tickets(users: &Vec<User>, now: Timestamp) -> (r: Result<Vec<NewTicket>, ApiError>)
    ensures
        match r {
            Ok(rows) => users@.len() >= 2 && ticket_views(rows@) == seeded_tickets(users@, now),
            Err(e) => users@.len() < 2 && e == ApiError::InternalError,
        },
{
    if users.len() < 2 {
        return Err(ApiError::InternalError);
    }
    let mut rows: Vec<NewTicket> = Vec::new();
    rows.push(
        ticket_row("Fix navbar overflow bug", "Navbar overlaps on mobile screens", users[0].id, now),
    );
    rows.push(
        ticket_row("Add dark mode toggle", "Users should be able to switch themes", users[1].id, now),
    );
    proof {
        assert(ticket_views(rows@) =~= seeded_tickets(users@, now));
    }
    Ok(rows)
}

/// The relations to store after a reset, given the tickets and tags as
/// they were stored. With fewer than two tickets or three tags there is
/// nothing to relate: `InternalError`.
pub fn seed_relations(tickets: &Vec<Ticket>, tags: &Vec<Tag>) -> (r: Result<Vec<TicketTag>, ApiError>)
    ensures
        match r {
            Ok(rows) => tickets@.len() >= 2 && tags@.len() >= 3 && rows@ == seeded_relations(
                tickets@,
                tags@,
            ),
            Err(e) => (tickets@.len() < 2 || tags@.len() < 3) && e == ApiError::InternalError,
        },
{
    if tickets.len() < 2 || tags.len() < 3 {
        return Err(ApiError::InternalError);
    }
    let mut rows: Vec<TicketTag> = Vec::new();
    rows.push(TicketTag { ticket_id: tickets[0].id, tag_id: tags[0].id });
    rows.push(TicketTag { ticket_id: tickets[0].id, tag_id: tags[2].id });
    rows.push(TicketTag { ticket_id: tickets[1].id, tag_id: tags[1].id });
    proof {
        assert(rows@ =~= seeded_relations(tickets@, tags@));
    }
    Ok(rows)
}

/// Every seeded user has one of the two roles a user can have.
pub proof fn law_seeded_roles_are_known(digest: Seq<char>, now: Timestamp)
    ensures
        forall|i: int|
            0 <= i < seeded_users(digest, now).len() ==> crate::policy::is_role(
                (#[trigger] seeded_users(digest, now)[i]).role,
            ),
{
}

/// What the second half of the seeding has stored so far: `None` for a
/// stage that has not been stored yet.
#[derive(Clone, Debug, PartialEq, Eq)]
pub struct SeedProgress {
    pub tags: Option<Vec<Tag>>,
    pub tickets: Option<Vec<Ticket>>,
    pub relations: Option<Vec<TicketTag>>,
}

/// What the seeding asks for next.
#[derive(Clone, Debug, PartialEq, Eq)]
pub enum SeedStep {
    /// Store these tags and come back with them.
    InsertTags(Vec<NewTag>),
    /// Store these tickets and come back with them.
    InsertTickets(Vec<NewTicket>),
    /// Store these relations and come back with them.
    InsertRelations(Vec<TicketTag>),
    /// Everything is stored: the numbers of tags, tickets and relations.
    Done(usize, usize, usize),
}

/// What a `SeedStep` holds.
pub ghost enum SeedStepView {
    InsertTags(Seq<NewTagView>),
    InsertTickets(Seq<NewTicketView>),
    InsertRelations(Seq<TicketTag>),
    Done(usize, usize, usize),
}

impl View for SeedStep {
    type V = SeedStepView;

    open spec fn view(&self) -> SeedStepView {
        match *self {
            SeedStep::InsertTags(rows) => SeedStepView::InsertTags(tag_views(rows@)),
            SeedStep::InsertTickets(rows) => SeedStepView::InsertTickets(ticket_views(rows@)),
            SeedStep::InsertRelations(rows) => SeedStepView::InsertRelations(rows@),
            SeedStep::Done(a, b, c) => SeedStepView::Done(a, b, c),
        }
    }
}

/// The next step of the seeding of tags, tickets and relations: the first
/// stage, in this order, that has not been stored yet, with the rows it
/// stores; the three counts once all are stored. A stage that lacks the
/// rows it builds on is an `InternalError`.
pub open spec fn next_seed_step(users: Seq<User>, saved: SeedProgress, now: Timestamp) -> Result<
    SeedStepView,
    ApiError,
> {
    match saved.tags {
        None => Ok(SeedStepView::InsertTags(seeded_tags(now))),
        Some(tags) => match saved.tickets {
            None => if users.len() >= 2 {
                Ok(SeedStepView::InsertTickets(seeded_tickets(users, now)))
            } else {
                Err(ApiError::InternalError)
            },
            Some(tickets) => match saved.relations {
                None => if tickets@.len() >= 2 && tags@.len() >= 3 {
                    Ok(SeedStepView::InsertRelations(seeded_relations(tickets@, tags@)))
                } else {
                    Err(ApiError::InternalError)
                },
                Some(relations) => Ok(
                    SeedStepView::Done(tags@.len() as usize, tickets@.len() as usize, relations@.len() as usize),
                ),
            },
        },
    }
}

/// Decides the next step of the seeding of tags, tickets and relations,
/// given the stored users and what was stored since. The caller stores
/// what a step asks for, records it in `saved` and asks again, until the
/// answer is `Done`; it stops at the first stage whose storing fails.
pub fn seed_tags_and_tickets(users: &Vec<User>, saved: &SeedProgress, now: Timestamp) -> (r: Result<
    SeedStep,
    ApiError,
>)
    ensures
        match r {
            Ok(step) => next_seed_step(users@, *saved, now) == Ok::<SeedStepView, ApiError>(step@),
            Err(e) => next_seed_step(users@, *saved, now) == Err::<SeedStepView, ApiError>(e),
        },
{
    match &saved.tags {
        None => Ok(SeedStep::InsertTags(seed_tags(now))),
        Some(tags) => match &saved.tickets {
            None => match seed_tickets(users, now) {
                Ok(rows) => Ok(SeedStep::InsertTickets(rows)),
                Err(e) => Err(e),
            },
            Some(tickets) => match &saved.relations {
                None => match seed_relations(tickets, tags) {
                    Ok(rows) => Ok(SeedStep::InsertRelations(rows)),
                    Err(e) => Err(e),
                },
                Some(relations) => Ok(SeedStep::Done(tags.len(), tickets.len(), relations.len())),
            },
        },
    }
}

/// The stages of a reset that can fail.
#[derive(Clone, Copy, Debug, PartialEq, Eq, Structural)]
pub enum ResetStage {
    /// Emptying the tables.
    Truncate,
    /// Storing the users.
    Users,
    /// Storing the tags, the tickets and their relations.
    TagsAndTickets,
}

/// The summary that answers a reset.
#[derive(Clone, Copy, Debug, PartialEq, Eq, Structural)]
pub struct ResetReport {
    /// Whether every stage went through.
    pub reset: bool,
    /// The stage that failed, if one did.
    pub failed: Option<ResetStage>,
    pub users_seeded: usize,
    pub tags_seeded: usize,
    pub tickets_seeded: usize,
    pub relations_seeded: usize,
}

/// The summary of a reset. `truncated` says whether the tables were
/// emptied, `users` how many users were stored (`None` where that failed),
/// `rest` how many tags, tickets and relations (`None` where that failed).
/// The first stage that failed is reported, with the counts of the stages
/// before it; nothing is rolled back.
pub open spec fn reset_report(
    truncated: bool,
    users: Option<usize>,
    rest: Option<(usize, usize, usize)>,
) -> ResetReport {
    if !truncated {
        ResetReport {
            reset: false,
            failed: Some(ResetStage::Truncate),
            users_seeded: 0,
            tags_seeded: 0,
            tickets_seeded: 0,
            relations_seeded: 0,
        }
    } else {
        match users {
            None => ResetReport {
                reset: false,
                failed: Some(ResetStage::Users),
                users_seeded: 0,
                tags_seeded: 0,
                tickets_seeded: 0,
                relations_seeded: 0,
            },
            Some(n) => match rest {
                None => ResetReport {
                    reset: false,
                    failed: Some(ResetStage::TagsAndTickets),
                    users_seeded: n,
                    tags_seeded: 0,
                    tickets_seeded: 0,
                    relations_seeded: 0,
                },
                Some((tags, tickets, relations)) => ResetReport {
                    reset: true,
                    failed: None,
                    users_seeded: n,
                    tags_seeded: tags,
                    tickets_seeded: tickets,
                    relations_seeded: relations,
                },
            },
        }
    }
}

/// The status that answers a reset with this summary.
pub open spec fn reset_status(report: ResetReport) -> u16 {
    if report.reset {
        200
    } else {
        500
    }
}

/// The label under which a failed stage is reported. Emptying the tables
/// has none: its failure is reported as it came.
pub open spec fn stage_label(stage: ResetStage) -> Seq<char> {
    match stage {
        ResetStage::Truncate => Seq::<char>::empty(),
        ResetStage::Users => "users"@,
        ResetStage::TagsAndTickets => "tags & tickets"@,
    }
}

impl ResetStage {
    /// The label under which this stage is reported.
    pub fn label(&self) -> (r: String)
        ensures
            r@ == stage_label(*self),
    {
        match self {
            ResetStage::Truncate => String::new(),
            ResetStage::Users => "users".to_owned(),
            ResetStage::TagsAndTickets => "tags & tickets".to_owned(),
        }
    }
}

impl ResetReport {
    /// The HTTP status of this summary: 200 after a full reset, 500
    /// otherwise.
    pub fn status_code(&self) -> (code: u16)
        ensures
            code == reset_status(*self),
    {
        if self.reset {
            200
        } else {
            500
        }
    }
}

/// Decides the summary of a reset from what each stage reported. Whether
/// the caller may reset at all is decided before, by `authorize_reset`.
pub fn reset_db(truncated: bool, users: Option<usize>, rest: Option<(usize, usize, usize)>) -> (r:
    ResetReport)
    ensures
        r == reset_report(truncated, users, rest),
{
    if !truncated {
        return ResetReport {
            reset: false,
            failed: Some(ResetStage::Truncate),
            users_seeded: 0,
            tags_seeded: 0,
            tickets_seeded: 0,
            relations_seeded: 0,
        };
    }
    let n = match users {
        Some(n) => n,
        None => {
            return ResetReport {
                reset: false,
                failed: Some(ResetStage::Users),
                users_seeded: 0,
                tags_seeded: 0,
                tickets_seeded: 0,
                relations_seeded: 0,
            };
        },
    };
    match rest {
        None => ResetReport {
            reset: false,
            failed: Some(ResetStage::TagsAndTickets),
            users_seeded: n,
            tags_seeded: 0,
            tickets_seeded: 0,
            relations_seeded: 0,
        },
        Some((tags, tickets, relations)) => ResetReport {
            reset: true,
            failed: None,
            users_seeded: n,
            tags_seeded: tags,
            tickets_seeded: tickets,
            relations_seeded: relations,
        },
    }
}

/// The message that reports a failed seeding stage: the label, the words
/// `" seeding error: "` and the detail.
pub fn db_error_response(label: &str, detail: &str) -> (r: String)
    ensures
        r@ == label@ + " seeding error: "@ + detail@,
{
    label.to_owned().concat(" seeding error: ").concat(detail)
}

} // verus!
