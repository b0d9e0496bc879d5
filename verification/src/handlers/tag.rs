use crate::error::{ApiError, Lookup, StoreFailure};
use crate::models::{text_of, NewTag, NewTagView, Tag, TagView, Timestamp};
use crate::utils::jwt::Claims;
use vstd::prelude::*;

verus! {

/// The body of a request that creates a tag.
#[derive(Clone, Debug, PartialEq, Eq)]
pub struct CreateTag {
    pub name: String,
}

impl View for CreateTag {
    type V = Seq<char>;

    open spec fn view(&self) -> Seq<char> {
        self.name@
    }
}

/// The body of a request that changes a tag. The name is the only field
/// that can change.
#[derive(Clone, Debug, PartialEq, Eq)]
pub struct UpdateTag {
    pub name: Option<String>,
}

impl View for UpdateTag {
    type V = Option<Seq<char>>;

    open spec fn view(&self) -> Option<Seq<char>> {
        text_of(self.name)
    }
}

/// What a lookup by id returned, as the rules see it.
pub open spec fn looked_up(found: Lookup<Tag>) -> Result<Tag, ApiError> {
    match found {
        Ok(Some(tag)) => Ok(tag),
        Ok(None) => Err(ApiError::NotFound),
        Err(_) => Err(ApiError::InternalError),
    }
}

/// The outcome of renaming a tag at `now`. The lookup is judged first;
/// then a payload without a name is a `BadRequest`; else the tag carries
/// the new name and `now` as `updated_at`.
pub open spec fn renamed(
    found: Lookup<Tag>,
    payload: Option<Seq<char>>,
    now: Timestamp,
) -> Result<TagView, ApiError> {
    match looked_up(found) {
        Err(e) => Err(e),
        Ok(tag) => match payload {
            None => Err(ApiError::BadRequest),
            Some(name) => Ok(TagView { name, updated_at: Some(now), ..tag@ }),
        },
    }
}

/// Decides the creation of a tag. Holding claims is all it takes: tags
/// have no owner. The tag that comes back has no id yet.
pub fn create_tag(claims: &Claims, payload: CreateTag, now: Timestamp) -> (r: NewTag)
    ensures
        r@ == (NewTagView { name: payload@, created_at: Some(now), updated_at: Some(now) }),
{
    NewTag { name: payload.name, created_at: Some(now), updated_at: Some(now) }
}

/// Decides the listing of tags, which is open to everybody: all rows, or
/// `InternalError` where they could not be read.
pub fn get_tags(rows: Result<Vec<Tag>, StoreFailure>) -> (r: Result<Vec<Tag>, ApiError>)
    ensures
        r == match rows {
            Ok(list) => Ok::<Vec<Tag>, ApiError>(list),
            Err(_) => Err::<Vec<Tag>, ApiError>(ApiError::InternalError),
        },
{
    crate::error::persisted(rows)
}

/// Decides the reading of one tag. Reading is open: nobody is asked who
/// they are.
pub fn get_tag_by_id(found: Lookup<Tag>) -> (r: Result<Tag, ApiError>)
    ensures
        r == looked_up(found),
{
    match found {
        Ok(Some(tag)) => Ok(tag),
        Ok(None) => Err(ApiError::NotFound),
        Err(_) => Err(ApiError::InternalError),
    }
}

/// Decides the renaming of one tag: the row to store. Holding claims is
/// all it takes: tags have no owner, so no policy stands between an
/// authenticated caller and the change.
pub fn update_tag_by_id(claims: &Claims, found: Lookup<Tag>, payload: UpdateTag, now: Timestamp) -> (r:
    Result<Tag, ApiError>)
    ensures
        match r {
            Ok(tag) => renamed(found, payload@, now) == Ok::<TagView, ApiError>(tag@),
            Err(e) => renamed(found, payload@, now) == Err::<TagView, ApiError>(e),
        },
{
    let stored = match get_tag_by_id(found) {
        Ok(tag) => tag,
        Err(e) => { return Err(e); },
    };
    match payload.name {
        None => Err(ApiError::BadRequest),
        Some(name) => Ok(
            Tag { id: stored.id, name, created_at: stored.created_at, updated_at: Some(now) },
        ),
    }
}

/// Decides the deletion of one tag: the id of the row to delete. Nobody
/// is asked who they are, and tags have no owner: whoever reaches this may
/// delete. That is a known gap, kept as it is and to be closed in front of
/// this function.
pub fn delete_tag_by_id(found: Lookup<Tag>) -> (r: Result<i32, ApiError>)
    ensures
        match r {
            Ok(id) => looked_up(found) is Ok && id == looked_up(found)->Ok_0.id,
            Err(e) => looked_up(found) == Err::<Tag, ApiError>(e),
        },
{
    match get_tag_by_id(found) {
        Ok(tag) => Ok(tag.id),
        Err(e) => Err(e),
    }
}

/// A rename without a name is refused and stores nothing, whatever the tag.
pub proof fn law_rename_needs_a_name(tag: Tag, now: Timestamp)
    ensures
        renamed(Ok(Some(tag)), None, now) == Err::<TagView, ApiError>(ApiError::BadRequest),
{
}

} // verus!
