use vstd::prelude::*;

verus! {

/// An instant as the persistence layer stores it: microseconds since the
/// epoch, without a zone.
pub type Timestamp = i64;

/// The text of an optional string.
pub open spec fn text_of(o: Option<String>) -> Option<Seq<char>> {
    match o {
        Some(s) => Some(s@),
        None => None,
    }
}

/// The text of an optional string slice.
pub open spec fn text_of_str(o: Option<&str>) -> Option<Seq<char>> {
    match o {
        Some(s) => Some(s@),
        None => None,
    }
}

/// A copy of an optional string.
pub fn copy_text(o: &Option<String>) -> (r: Option<String>)
    ensures
        r == *o,
{
    match o {
        Some(s) => Some(s.clone()),
        None => None,
    }
}

/// A registered user. `password` holds the digest, never the plaintext.
#[derive(Clone, Debug, PartialEq, Eq)]
pub struct User {
    pub id: i32,
    pub email: String,
    pub name: String,
    pub password: String,
    pub role: String,
    pub created_at: Option<Timestamp>,
}

/// What a `User` holds.
pub ghost struct UserView {
    pub id: i32,
    pub email: Seq<char>,
    pub name: Seq<char>,
    pub password: Seq<char>,
    pub role: Seq<char>,
    pub created_at: Option<Timestamp>,
}

impl View for User {
    type V = UserView;

    open spec fn view(&self) -> UserView {
        UserView {
            id: self.id,
            email: self.email@,
            name: self.name@,
            password: self.password@,
            role: self.role@,
            created_at: self.created_at,
        }
    }
}

/// A user that has no id yet: the row handed to the persistence layer.
#[derive(Clone, Debug, PartialEq, Eq)]
pub struct NewUser {
    pub email: String,
    pub name: String,
    pub password: String,
    pub role: String,
    pub created_at: Option<Timestamp>,
}

/// What a `NewUser` holds.
pub ghost struct NewUserView {
    pub email: Seq<char>,
    pub name: Seq<char>,
    pub password: Seq<char>,
    pub role: Seq<char>,
    pub created_at: Option<Timestamp>,
}

impl View for NewUser {
    type V = NewUserView;

    open spec fn view(&self) -> NewUserView {
        NewUserView {
            email: self.email@,
            name: self.name@,
            password: self.password@,
            role: self.role@,
            created_at: self.created_at,
        }
    }
}

/// A ticket. `user_id` is the owner; a ticket may have none.
#[derive(Clone, Debug, PartialEq, Eq)]
pub struct Ticket {
    pub id: i32,
    pub title: String,
    pub description: Option<String>,
    pub status: Option<String>,
    pub user_id: Option<i32>,
    pub created_at: Option<Timestamp>,
    pub updated_at: Option<Timestamp>,
}

/// What a `Ticket` holds.
pub ghost struct TicketView {
    pub id: i32,
    pub title: Seq<char>,
    pub description: Option<Seq<char>>,
    pub status: Option<Seq<char>>,
    pub user_id: Option<i32>,
    pub created_at: Option<Timestamp>,
    pub updated_at: Option<Timestamp>,
}

impl View for Ticket {
    type V = TicketView;

    open spec fn view(&self) -> TicketView {
        TicketView {
            id: self.id,
            title: self.title@,
            description: text_of(self.description),
            status: text_of(self.status),
            user_id: self.user_id,
            created_at: self.created_at,
            updated_at: self.updated_at,
        }
    }
}

impl Ticket {
    /// A copy of this ticket, field by field.
    pub fn duplicate(&self) -> (r: Ticket)
        ensures
            r == *self,
    {
        Ticket {
            id: self.id,
            title: self.title.clone(),
            description: copy_text(&self.description),
            status: copy_text(&self.status),
            user_id: self.user_id,
            created_at: self.created_at,
            updated_at: self.updated_at,
        }
    }
}

/// A ticket that has no id yet.
#[derive(Clone, Debug, PartialEq, Eq)]
pub struct NewTicket {
    pub title: String,
    pub description: Option<String>,
    pub status: Option<String>,
    pub user_id: Option<i32>,
    pub created_at: Option<Timestamp>,
    pub updated_at: Option<Timestamp>,
}

/// What a `NewTicket` holds.
pub ghost struct NewTicketView {
    pub title: Seq<char>,
    pub description: Option<Seq<char>>,
    pub status: Option<Seq<char>>,
    pub user_id: Option<i32>,
    pub created_at: Option<Timestamp>,
    pub updated_at: Option<Timestamp>,
}

impl View for NewTicket {
    type V = NewTicketView;

    open spec fn view(&self) -> NewTicketView {
        NewTicketView {
            title: self.title@,
            description: text_of(self.description),
            status: text_of(self.status),
            user_id: self.user_id,
            created_at: self.created_at,
            updated_at: self.updated_at,
        }
    }
}

/// A label. Tags have no owner.
#[derive(Clone, Debug, PartialEq, Eq)]
pub struct Tag {
    pub id: i32,
    pub name: String,
    pub created_at: Option<Timestamp>,
    pub updated_at: Option<Timestamp>,
}

/// What a `Tag` holds.
pub ghost struct TagView {
    pub id: i32,
    pub name: Seq<char>,
    pub created_at: Option<Timestamp>,
    pub updated_at: Option<Timestamp>,
}

impl View for Tag {
    type V = TagView;

    open spec fn view(&self) -> TagView {
        TagView {
            id: self.id,
            name: self.name@,
            created_at: self.created_at,
            updated_at: self.updated_at,
        }
    }
}

impl Tag {
    /// A copy of this tag, field by field.
    pub fn duplicate(&self) -> (r: Tag)
        ensures
            r == *self,
    {
        Tag {
            id: self.id,
            name: self.name.clone(),
            created_at: self.created_at,
            updated_at: self.updated_at,
        }
    }
}

/// A tag that has no id yet.
#[derive(Clone, Debug, PartialEq, Eq)]
pub struct NewTag {
    pub name: String,
    pub created_at: Option<Timestamp>,
    pub updated_at: Option<Timestamp>,
}

/// What a `NewTag` holds.
pub ghost struct NewTagView {
    pub name: Seq<char>,
    pub created_at: Option<Timestamp>,
    pub updated_at: Option<Timestamp>,
}

impl View for NewTag {
    type V = NewTagView;

    open spec fn view(&self) -> NewTagView {
        NewTagView { name: self.name@, created_at: self.created_at, updated_at: self.updated_at }
    }
}

/// One row of the join between tickets and tags, identified by its pair of
/// ids. At most one row exists for a pair.
#[derive(Clone, Copy, Debug, PartialEq, Eq, Structural)]
pub struct TicketTag {
    pub ticket_id: i32,
    pub tag_id: i32,
}

} // verus!
