use crate::error::{ApiError, InsertFailure, Lookup, StoreFailure};
use crate::models::{Tag, TicketTag};
use crate::utils::jwt::Claims;
use vstd::prelude::*;

verus! {

/// The outcome of attaching the tag `tag_id` to the ticket `ticket_id`,
/// where `existing` is what the lookup of that pair returned: an
/// `InternalError` where the lookup failed, a `Conflict` where the
/// relation exists already, the row to insert otherwise.
pub open spec fn attached(existing: Lookup<TicketTag>, ticket_id: i32, tag_id: i32) -> Result<
    TicketTag,
    ApiError,
> {
    match existing {
        Err(_) => Err(ApiError::InternalError),
        Ok(Some(_)) => Err(ApiError::Conflict),
        Ok(None) => Ok(TicketTag { ticket_id, tag_id }),
    }
}

/// The answer after the insert of a relation: the stored row; a
/// `Conflict` where the persistence layer refused the row as a duplicate,
/// and only there; an `InternalError` where the insert failed otherwise.
pub open spec fn attach_stored(outcome: Result<TicketTag, InsertFailure>) -> Result<TicketTag, ApiError> {
    match outcome {
        Ok(row) => Ok(row),
        Err(InsertFailure::Duplicate) => Err(ApiError::Conflict),
        Err(InsertFailure::Failed) => Err(ApiError::InternalError),
    }
}

/// The invariant of the join: no pair of ids has two rows.
pub open spec fn pairs_unique(rows: Seq<TicketTag>) -> bool {
    forall|i: int, j: int| 0 <= i < j < rows.len() ==> rows[i] != rows[j]
}

/// The relation between the ticket `ticket_id` and the tag `tag_id` among
/// `rows`, where there is one.
pub open spec fn relation_of(rows: Seq<TicketTag>, ticket_id: i32, tag_id: i32) -> Option<TicketTag> {
    if rows.contains(TicketTag { ticket_id, tag_id }) {
        Some(TicketTag { ticket_id, tag_id })
    } else {
        None
    }
}

/// Whether a row of the join, with the tag that the join found for it,
/// contributes a tag to the listing for `ticket_id`.
pub open spec fn contributes(ticket_id: i32, pair: (TicketTag, Option<Tag>)) -> bool {
    pair.0.ticket_id == ticket_id && pair.1 is Some
}

/// The tags of the ticket `ticket_id` among the joined rows, in the order
/// of the rows. A row whose tag is missing contributes nothing.
pub open spec fn tags_of(ticket_id: i32, pairs: Seq<(TicketTag, Option<Tag>)>) -> Seq<Tag> {
    pairs.filter(|p: (TicketTag, Option<Tag>)| contributes(ticket_id, p)).map_values(
        |p: (TicketTag, Option<Tag>)| p.1->Some_0,
    )
}

/// Looks a pair up among the rows of the join.
pub fn find_relation(rows: &Vec<TicketTag>, ticket_id: i32, tag_id: i32) -> (r: Option<TicketTag>)
    ensures
        r == relation_of(rows@, ticket_id, tag_id),
{
    let mut i: usize = 0;
    while i < rows.len()
        invariant
            i <= rows.len(),
            forall|k: int| 0 <= k < i ==> rows@[k] != (TicketTag { ticket_id, tag_id }),
        decreases rows.len() - i,
    {
        if rows[i].ticket_id == ticket_id && rows[i].tag_id == tag_id {
            return Some(TicketTag { ticket_id, tag_id });
        }
        i += 1;
    }
    None
}

/// Decides the attaching of a tag to a ticket. Holding claims is all it
/// takes. No second row is ever asked for a pair that has one.
pub fn attach_tag(claims: &Claims, existing: Lookup<TicketTag>, ticket_id: i32, tag_id: i32) -> (r:
    Result<TicketTag, ApiError>)
    ensures
        r == attached(existing, ticket_id, tag_id),
{
    match existing {
        Err(_) => Err(ApiError::InternalError),
        Ok(Some(_)) => Err(ApiError::Conflict),
        Ok(None) => Ok(TicketTag { ticket_id, tag_id }),
    }
}

/// Decides the answer after the insert of a relation. Two attaches of one
/// pair may both pass the lookup; the uniqueness constraint of the
/// persistence layer then refuses one of them, which is a `Conflict` like
/// any other duplicate. A store that failed is an `InternalError`.
pub fn attach_tag_stored(outcome: Result<TicketTag, InsertFailure>) -> (r: Result<TicketTag, ApiError>)
    ensures
        r == attach_stored(outcome),
{
    match outcome {
        Ok(row) => Ok(row),
        Err(InsertFailure::Duplicate) => Err(ApiError::Conflict),
        Err(InsertFailure::Failed) => Err(ApiError::InternalError),
    }
}

/// Decides the answer to a detach, given how many rows the delete removed.
/// Relations have no owner, so nobody is asked who they are. Detaching is
/// idempotent: removing nothing is a success like removing a
/// row. Only a failure of the persistence layer is an error.
pub fn detach_tag(outcome: Result<u64, StoreFailure>) -> (r: Result<(), ApiError>)
    ensures
        r == match outcome {
            Ok(_) => Ok::<(), ApiError>(()),
            Err(_) => Err::<(), ApiError>(ApiError::InternalError),
        },
{
    match outcome {
        Ok(_) => Ok(()),
        Err(_) => Err(ApiError::InternalError),
    }
}

/// Decides the listing of the tags of one ticket from the joined rows.
pub fn get_tags_for_ticket(ticket_id: i32, pairs: Result<Vec<(TicketTag, Option<Tag>)>, StoreFailure>) -> (r:
    Result<Vec<Tag>, ApiError>)
    ensures
        match r {
            Ok(tags) => pairs is Ok && tags@ == tags_of(ticket_id, pairs->Ok_0@),
            Err(e) => pairs is Err && e == ApiError::InternalError,
        },
{
    let rows = match pairs {
        Ok(rows) => rows,
        Err(_) => { return Err(ApiError::InternalError); },
    };
    let ghost keep = |p: (TicketTag, Option<Tag>)| contributes(ticket_id, p);
    let ghost pick = |p: (TicketTag, Option<Tag>)| p.1->Some_0;
    let mut tags: Vec<Tag> = Vec::new();
    let mut i: usize = 0;
    proof {
        reveal(Seq::filter);
        assert(rows@.take(0) =~= Seq::<(TicketTag, Option<Tag>)>::empty());
        assert(rows@.take(0).filter(keep).map_values(pick) =~= Seq::<Tag>::empty());
    }
    while i < rows.len()
        invariant
            i <= rows.len(),
            keep == (|p: (TicketTag, Option<Tag>)| contributes(ticket_id, p)),
            pick == (|p: (TicketTag, Option<Tag>)| p.1->Some_0),
            tags@ == rows@.take(i as int).filter(keep).map_values(pick),
        decreases rows.len() - i,
    {
        let row = &rows[i];
        proof {
            reveal(Seq::filter);
            assert(rows@.take(i + 1).drop_last() =~= rows@.take(i as int));
            assert(rows@.take(i + 1).last() == rows@[i as int]);
            let before = rows@.take(i as int).filter(keep);
            assert(before.push(rows@[i as int]).map_values(pick) =~= before.map_values(pick).push(
                pick(rows@[i as int]),
            ));
        }
        if row.0.ticket_id == ticket_id {
            match &row.1 {
                Some(tag) => {
                    tags.push(tag.duplicate());
                },
                None => {},
            }
        }
        i += 1;
    }
    proof {
        assert(rows@.take(i as int) =~= rows@);
    }
    Ok(tags)
}

/// Attaching keeps the join free of doubles: where no pair has two rows
/// and an attach is granted, the rows with the granted one added still hold
/// no pair twice, and attaching the same pair to them is a conflict.
pub proof fn law_attach_keeps_pairs_unique(rows: Seq<TicketTag>, ticket_id: i32, tag_id: i32)
    requires
        pairs_unique(rows),
        attached(Ok(relation_of(rows, ticket_id, tag_id)), ticket_id, tag_id) is Ok,
    ensures
        pairs_unique(rows.push(TicketTag { ticket_id, tag_id })),
        attached(
            Ok(relation_of(rows.push(TicketTag { ticket_id, tag_id }), ticket_id, tag_id)),
            ticket_id,
            tag_id,
        ) == Err::<TicketTag, ApiError>(ApiError::Conflict),
{
    let row = TicketTag { ticket_id, tag_id };
    let after = rows.push(row);
    assert(after[rows.len() as int] == row);
    assert forall|i: int, j: int| 0 <= i < j < after.len() implies after[i] != after[j] by {
        if j == rows.len() {
            assert(rows[i] == after[i]);
            assert(!rows.contains(row));
        }
    }
}

/// Attaching a pair that has no relation yet gives the row for that pair;
/// attaching the same pair again, once that row is stored, is a conflict.
pub proof fn law_second_attach_conflicts(ticket_id: i32, tag_id: i32)
    ensures
        attached(Ok(None), ticket_id, tag_id) == Ok::<TicketTag, ApiError>(
            (TicketTag { ticket_id, tag_id }),
        ),
        attached(Ok(Some(attached(Ok(None), ticket_id, tag_id)->Ok_0)), ticket_id, tag_id) == Err::<
            TicketTag,
            ApiError,
        >(ApiError::Conflict),
{
}

/// An attach is answered with a conflict for a duplicate and for nothing
/// else: neither a lookup nor an insert that failed is a conflict.
pub proof fn law_conflict_means_duplicate(
    existing: Lookup<TicketTag>,
    outcome: Result<TicketTag, InsertFailure>,
    ticket_id: i32,
    tag_id: i32,
)
    ensures
        attached(existing, ticket_id, tag_id) == Err::<TicketTag, ApiError>(ApiError::Conflict)
            <==> (existing is Ok && existing->Ok_0 is Some),
        attach_stored(outcome) == Err::<TicketTag, ApiError>(ApiError::Conflict) <==> outcome
            == Err::<TicketTag, InsertFailure>(InsertFailure::Duplicate),
{
}

} // verus!
