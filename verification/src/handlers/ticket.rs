use crate::error::{lookup_view, ApiError, Lookup, StoreFailure};
use crate::models::{text_of, NewTicket, NewTicketView, Ticket, TicketView, Timestamp, User, UserView};
use crate::policy::{can_access, permits};
use crate::utils::auth::{caller_of, resolve_caller};
use crate::utils::jwt::{Claims, ClaimsView};
use vstd::prelude::*;

verus! {

/// The body of a request that creates a ticket.
#[derive(Clone, Debug, PartialEq, Eq)]
pub struct CreateTicket {
    pub title: String,
    pub description: Option<String>,
    pub status: Option<String>,
}

/// What a `CreateTicket` holds.
pub ghost struct CreateTicketView {
    pub title: Seq<char>,
    pub description: Option<Seq<char>>,
    pub status: Option<Seq<char>>,
}

impl View for CreateTicket {
    type V = CreateTicketView;

    open spec fn view(&self) -> CreateTicketView {
        CreateTicketView {
            title: self.title@,
            description: text_of(self.description),
            status: text_of(self.status),
        }
    }
}

/// The body of a request that changes a ticket. Only the fields that are
/// present are changed.
#[derive(Clone, Debug, PartialEq, Eq)]
pub struct UpdateTicket {
    pub title: Option<String>,
    pub description: Option<String>,
    pub status: Option<String>,
}

/// What an `UpdateTicket` holds.
pub ghost struct UpdateTicketView {
    pub title: Option<Seq<char>>,
    pub description: Option<Seq<char>>,
    pub status: Option<Seq<char>>,
}

impl View for UpdateTicket {
    type V = UpdateTicketView;

    open spec fn view(&self) -> UpdateTicketView {
        UpdateTicketView {
            title: text_of(self.title),
            description: text_of(self.description),
            status: text_of(self.status),
        }
    }
}

/// The status of a ticket that was created without one.
pub open spec fn default_status() -> Seq<char> {
    "open"@
}

/// The ticket that `caller` creates from `payload` at `now`: owned by the
/// caller, with the default status where the payload gives none, and with
/// both timestamps set to `now`.
pub open spec fn drafted(caller: UserView, payload: CreateTicketView, now: Timestamp) -> NewTicketView {
    NewTicketView {
        title: payload.title,
        description: payload.description,
        status: Some(
            match payload.status {
                Some(s) => s,
                None => default_status(),
            },
        ),
        user_id: Some(caller.id),
        created_at: Some(now),
        updated_at: Some(now),
    }
}

/// Whether `caller` may read, change or delete `ticket`.
pub open spec fn may_touch(caller: UserView, ticket: TicketView) -> bool {
    permits(caller.role, caller.id, ticket.user_id)
}

/// The outcome of reaching for one ticket. The caller is resolved first;
/// then a lookup of the ticket that failed is an `InternalError` and a
/// ticket that does not exist is `NotFound`; then a caller who neither
/// owns the ticket nor is an admin is `Forbidden`. The ticket otherwise.
pub open spec fn ticket_access(
    claims: ClaimsView,
    found_user: Lookup<UserView>,
    found_ticket: Lookup<TicketView>,
) -> Result<TicketView, ApiError> {
    match caller_of(claims, found_user) {
        Err(e) => Err(e),
        Ok(caller) => match found_ticket {
            Err(_) => Err(ApiError::InternalError),
            Ok(None) => Err(ApiError::NotFound),
            Ok(Some(ticket)) => if may_touch(caller, ticket) {
                Ok(ticket)
            } else {
                Err(ApiError::Forbidden)
            },
        },
    }
}

/// `ticket` after `payload` was applied at `now`: each field that the
/// payload holds replaces the stored one, every other field stays, and
/// `updated_at` becomes `now` in any case.
pub open spec fn patched(ticket: TicketView, payload: UpdateTicketView, now: Timestamp) -> TicketView {
    TicketView {
        title: match payload.title {
            Some(t) => t,
            None => ticket.title,
        },
        description: match payload.description {
            Some(d) => Some(d),
            None => ticket.description,
        },
        status: match payload.status {
            Some(s) => Some(s),
            None => ticket.status,
        },
        updated_at: Some(now),
        ..ticket
    }
}

/// The rows of `rows` that `caller` is shown: all of them for an admin,
/// those the caller owns for anybody else, in the order they came in.
pub open spec fn listed(caller: UserView, rows: Seq<Ticket>) -> Seq<Ticket> {
    rows.filter(|t: Ticket| may_touch(caller, t@))
}

/// Decides the creation of a ticket. `found_user` is what the lookup of
/// the token's subject returned. The ticket that comes back has no id yet
/// and belongs to the caller.
pub fn create_ticket(
    claims: &Claims,
    found_user: Lookup<User>,
    payload: CreateTicket,
    now: Timestamp,
) -> (r: Result<NewTicket, ApiError>)
    ensures
        match r {
            Ok(t) => caller_of(claims@, lookup_view(found_user)) is Ok && t@ == drafted(
                caller_of(claims@, lookup_view(found_user))->Ok_0,
                payload@,
                now,
            ),
            Err(e) => caller_of(claims@, lookup_view(found_user)) == Err::<UserView, ApiError>(e),
        },
{
    let caller = match resolve_caller(claims, found_user) {
        Ok(u) => u,
        Err(e) => { return Err(e); },
    };
    let status = match payload.status {
        Some(s) => s,
        None => "open".to_owned(),
    };
    Ok(
        NewTicket {
            title: payload.title,
            description: payload.description,
            status: Some(status),
            user_id: Some(caller.id),
            created_at: Some(now),
            updated_at: Some(now),
        },
    )
}

/// The outcome of listing: the caller is resolved first; then rows that
/// could not be read are an `InternalError`; the rows shown to the caller
/// otherwise.
pub open spec fn listing(
    claims: ClaimsView,
    found_user: Lookup<UserView>,
    rows: Result<Vec<Ticket>, StoreFailure>,
) -> Result<Seq<Ticket>, ApiError> {
    match caller_of(claims, found_user) {
        Err(e) => Err(e),
        Ok(caller) => match rows {
            Err(_) => Err(ApiError::InternalError),
            Ok(all) => Ok(listed(caller, all@)),
        },
    }
}

/// Decides the listing of tickets. `rows` are the stored tickets; the
/// answer holds those the caller may see, in their stored order.
pub fn get_tickets(claims: &Claims, found_user: Lookup<User>, rows: Result<Vec<Ticket>, StoreFailure>) -> (r:
    Result<Vec<Ticket>, ApiError>)
    ensures
        match r {
            Ok(list) => listing(claims@, lookup_view(found_user), rows) == Ok::<
                Seq<Ticket>,
                ApiError,
            >(list@),
            Err(e) => listing(claims@, lookup_view(found_user), rows) == Err::<
                Seq<Ticket>,
                ApiError,
            >(e),
        },
{
    let caller = match resolve_caller(claims, found_user) {
        Ok(u) => u,
        Err(e) => { return Err(e); },
    };
    let rows = match rows {
        Ok(all) => all,
        Err(_) => { return Err(ApiError::InternalError); },
    };
    let ghost shown = |t: Ticket| may_touch(caller@, t@);
    let mut list: Vec<Ticket> = Vec::new();
    let mut i: usize = 0;
    proof {
        reveal(Seq::filter);
        assert(rows@.take(0) =~= Seq::<Ticket>::empty());
    }
    while i < rows.len()
        invariant
            i <= rows.len(),
            shown == (|t: Ticket| may_touch(caller@, t@)),
            list@ == rows@.take(i as int).filter(shown),
        decreases rows.len() - i,
    {
        let row = &rows[i];
        proof {
            reveal(Seq::filter);
            assert(rows@.take(i + 1).drop_last() =~= rows@.take(i as int));
            assert(rows@.take(i + 1).last() == rows@[i as int]);
        }
        if can_access(caller.role.as_str(), caller.id, row.user_id) {
            list.push(row.duplicate());
        }
        i += 1;
    }
    proof {
        assert(rows@.take(i as int) =~= rows@);
    }
    Ok(list)
}

/// Decides the reading of one ticket. `found_ticket` is what the lookup of
/// the requested id returned.
pub fn get_ticket_by_id(claims: &Claims, found_user: Lookup<User>, found_ticket: Lookup<Ticket>) -> (r:
    Result<Ticket, ApiError>)
    ensures
        match r {
            Ok(t) => found_ticket == Ok::<Option<Ticket>, StoreFailure>(Some(t)) && ticket_access(
                claims@,
                lookup_view(found_user),
                lookup_view(found_ticket),
            ) == Ok::<TicketView, ApiError>(t@),
            Err(e) => ticket_access(claims@, lookup_view(found_user), lookup_view(found_ticket))
                == Err::<TicketView, ApiError>(e),
        },
{
    let caller = match resolve_caller(claims, found_user) {
        Ok(u) => u,
        Err(e) => { return Err(e); },
    };
    match found_ticket {
        Err(_) => Err(ApiError::InternalError),
        Ok(None) => Err(ApiError::NotFound),
        Ok(Some(ticket)) => {
            if can_access(caller.role.as_str(), caller.id, ticket.user_id) {
                Ok(ticket)
            } else {
                Err(ApiError::Forbidden)
            }
        },
    }
}

/// Decides the deletion of one ticket: the id of the row to delete, where
/// the caller may delete it.
pub fn delete_ticket_by_id(claims: &Claims, found_user: Lookup<User>, found_ticket: Lookup<Ticket>) -> (r:
    Result<i32, ApiError>)
    ensures
        match r {
            Ok(id) => ticket_access(claims@, lookup_view(found_user), lookup_view(found_ticket))
                is Ok && id == found_ticket->Ok_0->Some_0.id,
            Err(e) => ticket_access(claims@, lookup_view(found_user), lookup_view(found_ticket))
                == Err::<TicketView, ApiError>(e),
        },
{
    match get_ticket_by_id(claims, found_user, found_ticket) {
        Ok(ticket) => Ok(ticket.id),
        Err(e) => Err(e),
    }
}

/// Decides the update of one ticket: the row to store, where the caller
/// may change it. A payload without any field is accepted; it changes
/// nothing but `updated_at`.
pub fn update_ticket_by_id(
    claims: &Claims,
    found_user: Lookup<User>,
    found_ticket: Lookup<Ticket>,
    payload: UpdateTicket,
    now: Timestamp,
) -> (r: Result<Ticket, ApiError>)
    ensures
        match r {
            Ok(t) => ticket_access(claims@, lookup_view(found_user), lookup_view(found_ticket))
                is Ok && t@ == patched(found_ticket->Ok_0->Some_0@, payload@, now),
            Err(e) => ticket_access(claims@, lookup_view(found_user), lookup_view(found_ticket))
                == Err::<TicketView, ApiError>(e),
        },
{
    let stored = match get_ticket_by_id(claims, found_user, found_ticket) {
        Ok(ticket) => ticket,
        Err(e) => { return Err(e); },
    };
    let title = match payload.title {
        Some(t) => t,
        None => stored.title,
    };
    let description = match payload.description {
        Some(d) => Some(d),
        None => stored.description,
    };
    let status = match payload.status {
        Some(s) => Some(s),
        None => stored.status,
    };
    Ok(
        Ticket {
            id: stored.id,
            title,
            description,
            status,
            user_id: stored.user_id,
            created_at: stored.created_at,
            updated_at: Some(now),
        },
    )
}

/// A caller who is no admin reaches the tickets they own and is refused
/// on every other ticket, for reading, changing and deleting alike.
pub proof fn law_owner_reaches_own_tickets_only(
    claims: ClaimsView,
    found_user: Lookup<UserView>,
    own: TicketView,
    other: TicketView,
)
    requires
        caller_of(claims, found_user) is Ok,
        caller_of(claims, found_user)->Ok_0.role != crate::policy::admin_role(),
        own.user_id == Some(caller_of(claims, found_user)->Ok_0.id),
        other.user_id != Some(caller_of(claims, found_user)->Ok_0.id),
    ensures
        ticket_access(claims, found_user, Ok(Some(own))) == Ok::<TicketView, ApiError>(own),
        ticket_access(claims, found_user, Ok(Some(other))) == Err::<TicketView, ApiError>(
            ApiError::Forbidden,
        ),
{
}

/// An admin reaches every ticket, owned by anybody or by nobody.
pub proof fn law_admin_reaches_every_ticket(
    claims: ClaimsView,
    found_user: Lookup<UserView>,
    ticket: TicketView,
)
    requires
        caller_of(claims, found_user) is Ok,
        caller_of(claims, found_user)->Ok_0.role == crate::policy::admin_role(),
    ensures
        ticket_access(claims, found_user, Ok(Some(ticket))) == Ok::<TicketView, ApiError>(ticket),
{
}

/// The listing shown to an admin is the whole list. The listing shown to
/// anybody else holds tickets of that caller only, and holds each stored
/// ticket of that caller.
pub proof fn law_listing_by_role(caller: UserView, rows: Seq<Ticket>)
    ensures
        caller.role == crate::policy::admin_role() ==> listed(caller, rows) == rows,
        caller.role != crate::policy::admin_role() ==> forall|i: int|
            0 <= i < listed(caller, rows).len() ==> (#[trigger] listed(caller, rows)[i]).user_id
                == Some(caller.id),
        caller.role != crate::policy::admin_role() ==> forall|i: int|
            0 <= i < rows.len() && (#[trigger] rows[i]).user_id == Some(caller.id) ==> listed(
                caller,
                rows,
            ).contains(rows[i]),
    decreases rows.len(),
{
    broadcast use vstd::seq_lib::group_filter_ensures;

    if caller.role == crate::policy::admin_role() {
        reveal(Seq::filter);
        if rows.len() > 0 {
            law_listing_by_role(caller, rows.drop_last());
            assert(rows.drop_last().push(rows.last()) =~= rows);
        }
    }
}

/// An update without any field leaves every stored field as it was and
/// still refreshes `updated_at`.
pub proof fn law_empty_update_refreshes_only(ticket: TicketView, now: Timestamp)
    ensures
        patched(ticket, (UpdateTicketView { title: None, description: None, status: None }), now)
            == (TicketView { updated_at: Some(now), ..ticket }),
{
}

/// No update moves a ticket: its id, its owner and its time of creation
/// stay, whatever the payload.
pub proof fn law_update_keeps_identity_and_owner(
    ticket: TicketView,
    payload: UpdateTicketView,
    now: Timestamp,
)
    ensures
        patched(ticket, payload, now).id == ticket.id,
        patched(ticket, payload, now).user_id == ticket.user_id,
        patched(ticket, payload, now).created_at == ticket.created_at,
{
}

/// Listing and reading agree: a stored ticket is listed to a caller
/// exactly if that caller may read it.
pub proof fn law_listing_agrees_with_access(caller: UserView, rows: Seq<Ticket>, ticket: Ticket)
    requires
        rows.contains(ticket),
    ensures
        listed(caller, rows).contains(ticket) <==> may_touch(caller, ticket@),
{
    broadcast use vstd::seq_lib::group_filter_ensures;

    let shown = |t: Ticket| may_touch(caller, t@);
    if listed(caller, rows).contains(ticket) {
        let i = choose|i: int| 0 <= i < rows.filter(shown).len() && rows.filter(shown)[i] == ticket;
        assert(shown(rows.filter(shown)[i]));
    }
    if may_touch(caller, ticket@) {
        let j = choose|j: int| 0 <= j < rows.len() && rows[j] == ticket;
        assert(shown(rows[j]));
        assert(rows.filter(shown).contains(rows[j]));
    }
}

} // verus!
