//! The resource records of the system.
//!
//! One struct per stored concept.  Record keys are typed prefixed
//! identifiers; timestamps are unix seconds.  Constructors pair fresh
//! identifiers with the given field values and stamp both timestamps with
//! the same moment of creation.

use vstd::prelude::*;
use crate::ids::{PrefixedUuid, ResourceTag};
use crate::roles::UserRole;

verus! {

/// Relies on chrono::Utc::now, read as its unix timestamp in seconds.
/// Nothing is promised of the value.
#[verifier::external_body]
pub(crate) fn now_timestamp() -> i64 {
    chrono::Utc::now().timestamp()
}

/// An account, created on first login and unique per email address.
#[derive(Debug, PartialEq, Eq)]
pub struct User {
    pub id: PrefixedUuid,
    pub email: String,
    pub created_at: i64,
    pub updated_at: i64,
    pub name: Option<String>,
}

impl User {
    /// A fresh user record with a newly generated identifier.
    pub fn from_details(email: String, name: Option<String>) -> (u: User)
        ensures
            u.id.prefix == ResourceTag::User,
            u.email == email,
            u.name == name,
            u.created_at == u.updated_at,
    {
        let now = now_timestamp();
        User {
            id: PrefixedUuid::create(ResourceTag::User),
            email,
            created_at: now,
            updated_at: now,
            name,
        }
    }

    /// A fresh user record under an identifier the caller already holds,
    /// as when the identity provider names the account.
    pub fn from_details_with_id(id: PrefixedUuid, email: String, name: Option<String>) -> (u: User)
        requires
            id.prefix == ResourceTag::User,
        ensures
            u.id == id,
            u.email == email,
            u.name == name,
            u.created_at == u.updated_at,
    {
        let now = now_timestamp();
        User { id, email, created_at: now, updated_at: now, name }
    }
}

/// An organization; every other resource is scoped to one.
#[derive(Debug, PartialEq, Eq)]
pub struct Org {
    pub id: PrefixedUuid,
    pub name: String,
    pub created_at: i64,
    pub updated_at: i64,
}

impl Org {
    /// A fresh organization with a newly generated identifier.
    pub fn from_details(name: String) -> (o: Org)
        ensures
            o.id.prefix == ResourceTag::Org,
            o.name == name,
            o.created_at == o.updated_at,
    {
        let now = now_timestamp();
        Org { id: PrefixedUuid::create(ResourceTag::Org), name, created_at: now, updated_at: now }
    }

    /// A fresh organization record under a given identifier.
    pub fn from_details_with_id(id: PrefixedUuid, name: String) -> (o: Org)
        requires
            id.prefix == ResourceTag::Org,
        ensures
            o.id == id,
            o.name == name,
            o.created_at == o.updated_at,
    {
        let now = now_timestamp();
        Org { id, name, created_at: now, updated_at: now }
    }
}

/// The membership record linking one user to one organization with a
/// role, stored as a small integer.  Unique per `(user_id, org_id)` pair.
#[derive(Clone, Copy, Debug, PartialEq, Eq)]
pub struct OrgUserLink {
    pub id: PrefixedUuid,
    pub user_id: PrefixedUuid,
    pub org_id: PrefixedUuid,
    pub role: i32,
}

impl OrgUserLink {
    /// A fresh membership record with a newly generated identifier.
    pub fn from_details(user_id: PrefixedUuid, org_id: PrefixedUuid, role: UserRole) -> (l:
        OrgUserLink)
        ensures
            l.id.prefix == ResourceTag::OrgUser,
            l.user_id == user_id,
            l.org_id == org_id,
            l.role == crate::roles::role_level(role),
    {
        OrgUserLink {
            id: PrefixedUuid::create(ResourceTag::OrgUser),
            user_id,
            org_id,
            role: role.as_i32(),
        }
    }
}

/// An API key: the key text itself is shown once and only its hash is
/// kept, so authentication recomputes the hash and compares.
#[derive(Debug, PartialEq, Eq)]
pub struct ApiKey {
    pub id: u128,
    pub user_id: PrefixedUuid,
    pub name: String,
    pub blake3_hash: String,
    pub created_at: i64,
    pub updated_at: i64,
}

impl ApiKey {
    /// A fresh key record for the stored hash of a generated key.
    pub fn from_details(user_id: PrefixedUuid, name: String, blake3_hash: String) -> (k: ApiKey)
        ensures
            k.user_id == user_id,
            k.name == name,
            k.blake3_hash == blake3_hash,
            k.created_at == k.updated_at,
    {
        let now = now_timestamp();
        ApiKey {
            id: crate::ids::fresh_raw_id(),
            user_id,
            name,
            blake3_hash,
            created_at: now,
            updated_at: now,
        }
    }
}

/// A sales deal.  The size is kept as the bit pattern of the reported
/// 32-bit floating-point figure; the edges of the system convert.
#[derive(Debug, PartialEq, Eq)]
pub struct Deal {
    pub id: PrefixedUuid,
    pub name: Option<String>,
    pub org_id: PrefixedUuid,
    pub size_bits: Option<u32>,
    pub active: bool,
    pub created_at: i64,
    pub updated_at: i64,
}

/// A note with a title and a free-form body.
#[derive(Debug, PartialEq, Eq)]
pub struct Note {
    pub id: PrefixedUuid,
    pub title: String,
    pub body: String,
    pub org_id: PrefixedUuid,
    pub created_at: i64,
    pub updated_at: i64,
}

/// A person attached to an organization's book.
#[derive(Debug, PartialEq, Eq)]
pub struct Contact {
    pub id: PrefixedUuid,
    pub org_id: PrefixedUuid,
    pub first_name: String,
    pub last_name: String,
    pub created_at: i64,
    pub updated_at: i64,
}

/// A stored hyperlink.
#[derive(Debug, PartialEq, Eq)]
pub struct Link {
    pub id: PrefixedUuid,
    pub link: String,
    pub org_id: PrefixedUuid,
    pub created_at: i64,
    pub updated_at: i64,
}

/// A stored email address.
#[derive(Debug, PartialEq, Eq)]
pub struct Email {
    pub id: PrefixedUuid,
    pub email: String,
    pub org_id: PrefixedUuid,
    pub created_at: i64,
    pub updated_at: i64,
}

/// A stored phone number.
#[derive(Debug, PartialEq, Eq)]
pub struct Phone {
    pub id: PrefixedUuid,
    pub number: String,
    pub org_id: PrefixedUuid,
    pub created_at: i64,
    pub updated_at: i64,
}

/// A task, optionally tied to a contact and carrying a deadline.
#[derive(Debug, PartialEq, Eq)]
pub struct Task {
    pub id: PrefixedUuid,
    pub deadline: Option<i64>,
    pub description: Option<String>,
    pub contact_id: Option<PrefixedUuid>,
    pub org_id: PrefixedUuid,
    pub created_at: i64,
    pub updated_at: i64,
}

impl Deal {
    /// A fresh deal with a newly generated identifier.
    pub fn from_details(org_id: PrefixedUuid, name: Option<String>, size_bits: Option<u32>,
        active: bool) -> (d: Deal)
        ensures
            d.id.prefix == ResourceTag::Deal,
            d.org_id == org_id,
            d.name == name,
            d.size_bits == size_bits,
            d.active == active,
            d.created_at == d.updated_at,
    {
        let now = now_timestamp();
        Deal {
            id: PrefixedUuid::create(ResourceTag::Deal),
            name,
            org_id,
            size_bits,
            active,
            created_at: now,
            updated_at: now,
        }
    }
}

impl Note {
    /// A fresh note with the given title and an empty body.
    pub fn from_title(title: String, org_id: PrefixedUuid) -> (n: Note)
        ensures
            n.id.prefix == ResourceTag::Note,
            n.title == title,
            n.body@ == Seq::<char>::empty(),
            n.org_id == org_id,
            n.created_at == n.updated_at,
    {
        let now = now_timestamp();
        Note {
            id: PrefixedUuid::create(ResourceTag::Note),
            title,
            body: String::new(),
            org_id,
            created_at: now,
            updated_at: now,
        }
    }
}

impl Contact {
    /// A fresh contact with a newly generated identifier.
    pub fn from_details(org_id: PrefixedUuid, first_name: String, last_name: String) -> (c:
        Contact)
        ensures
            c.id.prefix == ResourceTag::Contact,
            c.org_id == org_id,
            c.first_name == first_name,
            c.last_name == last_name,
            c.created_at == c.updated_at,
    {
        let now = now_timestamp();
        Contact {
            id: PrefixedUuid::create(ResourceTag::Contact),
            org_id,
            first_name,
            last_name,
            created_at: now,
            updated_at: now,
        }
    }
}

impl Link {
    /// A fresh stored hyperlink.
    pub fn from_details(link: String, org_id: PrefixedUuid) -> (l: Link)
        ensures
            l.id.prefix == ResourceTag::Link,
            l.link == link,
            l.org_id == org_id,
            l.created_at == l.updated_at,
    {
        let now = now_timestamp();
        Link {
            id: PrefixedUuid::create(ResourceTag::Link),
            link,
            org_id,
            created_at: now,
            updated_at: now,
        }
    }
}

impl Email {
    /// A fresh stored email address.
    pub fn from_details(email: String, org_id: PrefixedUuid) -> (e: Email)
        ensures
            e.id.prefix == ResourceTag::Email,
            e.email == email,
            e.org_id == org_id,
            e.created_at == e.updated_at,
    {
        let now = now_timestamp();
        Email {
            id: PrefixedUuid::create(ResourceTag::Email),
            email,
            org_id,
            created_at: now,
            updated_at: now,
        }
    }
}

impl Phone {
    /// A fresh stored phone number.
    pub fn from_details(org_id: PrefixedUuid, number: String) -> (p: Phone)
        ensures
            p.id.prefix == ResourceTag::Phone,
            p.number == number,
            p.org_id == org_id,
            p.created_at == p.updated_at,
    {
        let now = now_timestamp();
        Phone {
            id: PrefixedUuid::create(ResourceTag::Phone),
            number,
            org_id,
            created_at: now,
            updated_at: now,
        }
    }
}

impl Task {
    /// A fresh task with a newly generated identifier.
    pub fn from_details(org_id: PrefixedUuid, deadline: Option<i64>, description: Option<String>,
        contact_id: Option<PrefixedUuid>) -> (t: Task)
        ensures
            t.id.prefix == ResourceTag::Task,
            t.org_id == org_id,
            t.deadline == deadline,
            t.description == description,
            t.contact_id == contact_id,
            t.created_at == t.updated_at,
    {
        let now = now_timestamp();
        Task {
            id: PrefixedUuid::create(ResourceTag::Task),
            deadline,
            description,
            contact_id,
            org_id,
            created_at: now,
            updated_at: now,
        }
    }
}

/// An association of a task with a deal.
#[derive(Clone, Copy, Debug, PartialEq, Eq)]
pub struct TaskDeal {
    pub id: u128,
    pub task_id: PrefixedUuid,
    pub deal_id: PrefixedUuid,
    pub created_at: i64,
    pub updated_at: i64,
}

/// An association of a task with a link.
#[derive(Clone, Copy, Debug, PartialEq, Eq)]
pub struct TaskLink {
    pub id: u128,
    pub task_id: PrefixedUuid,
    pub link_id: PrefixedUuid,
    pub created_at: i64,
    pub updated_at: i64,
}

/// An association of a task with a user.
#[derive(Clone, Copy, Debug, PartialEq, Eq)]
pub struct TaskUser {
    pub id: u128,
    pub task_id: PrefixedUuid,
    pub user_id: PrefixedUuid,
    pub created_at: i64,
    pub updated_at: i64,
}

impl TaskDeal {
    /// A fresh association of a task with a deal.
    pub fn from_details(task_id: PrefixedUuid, deal_id: PrefixedUuid) -> (a: TaskDeal)
        ensures
            a.task_id == task_id,
            a.deal_id == deal_id,
            a.created_at == a.updated_at,
    {
        let now = now_timestamp();
        TaskDeal {
            id: crate::ids::fresh_raw_id(),
            task_id,
            deal_id,
            created_at: now,
            updated_at: now,
        }
    }
}

impl TaskLink {
    /// A fresh association of a task with a link.
    pub fn from_details(task_id: PrefixedUuid, link_id: PrefixedUuid) -> (a: TaskLink)
        ensures
            a.task_id == task_id,
            a.link_id == link_id,
            a.created_at == a.updated_at,
    {
        let now = now_timestamp();
        TaskLink {
            id: crate::ids::fresh_raw_id(),
            task_id,
            link_id,
            created_at: now,
            updated_at: now,
        }
    }
}

impl TaskUser {
    /// A fresh association of a task with a user.
    pub fn from_details(task_id: PrefixedUuid, user_id: PrefixedUuid) -> (a: TaskUser)
        ensures
            a.task_id == task_id,
            a.user_id == user_id,
            a.created_at == a.updated_at,
    {
        let now = now_timestamp();
        TaskUser {
            id: crate::ids::fresh_raw_id(),
            task_id,
            user_id,
            created_at: now,
            updated_at: now,
        }
    }
}

/// A pending invitation of an email address into an organization.
#[derive(Debug, PartialEq, Eq)]
pub struct Invitation {
    pub id: u128,
    pub email: String,
    pub organization_id: PrefixedUuid,
    pub used: bool,
    pub created_at: i64,
    pub updated_at: i64,
    pub role: i32,
}

impl Invitation {
    /// A fresh, unused invitation.
    pub fn from_details(email: String, organization_id: PrefixedUuid, role: i32) -> (i: Invitation)
        ensures
            i.email == email,
            i.organization_id == organization_id,
            i.role == role,
            !i.used,
            i.created_at == i.updated_at,
    {
        let now = now_timestamp();
        Invitation {
            id: crate::ids::fresh_raw_id(),
            email,
            organization_id,
            used: false,
            created_at: now,
            updated_at: now,
            role,
        }
    }
}

/// A subscription plan.
#[derive(Debug, PartialEq, Eq)]
pub struct Plan {
    pub id: u128,
    pub stripe_id: String,
    pub num_users: i32,
    pub num_deals: i32,
    pub price_per_month: i32,
    pub created_at: i64,
    pub updated_at: i64,
}

impl Plan {
    /// A fresh plan record.
    pub fn from_details(stripe_id: String, num_users: i32, num_deals: i32, price_per_month: i32)
        -> (p: Plan)
        ensures
            p.stripe_id == stripe_id,
            p.num_users == num_users,
            p.num_deals == num_deals,
            p.price_per_month == price_per_month,
            p.created_at == p.updated_at,
    {
        let now = now_timestamp();
        Plan {
            id: crate::ids::fresh_raw_id(),
            stripe_id,
            num_users,
            num_deals,
            price_per_month,
            created_at: now,
            updated_at: now,
        }
    }
}


impl Clone for User {
    fn clone(&self) -> (r: Self)
        ensures
            r == *self,
    {
        User {
            id: self.id,
            email: self.email.clone(),
            created_at: self.created_at,
            updated_at: self.updated_at,
            name: match &self.name { Some(v) => Some(v.clone()), None => None },
        }
    }
}

impl Clone for Org {
    fn clone(&self) -> (r: Self)
        ensures
            r == *self,
    {
        Org {
            id: self.id,
            name: self.name.clone(),
            created_at: self.created_at,
            updated_at: self.updated_at,
        }
    }
}

impl Clone for ApiKey {
    fn clone(&self) -> (r: Self)
        ensures
            r == *self,
    {
        ApiKey {
            id: self.id,
            user_id: self.user_id,
            name: self.name.clone(),
            blake3_hash: self.blake3_hash.clone(),
            created_at: self.created_at,
            updated_at: self.updated_at,
        }
    }
}

impl Clone for Deal {
    fn clone(&self) -> (r: Self)
        ensures
            r == *self,
    {
        Deal {
            id: self.id,
            name: match &self.name { Some(v) => Some(v.clone()), None => None },
            org_id: self.org_id,
            size_bits: self.size_bits,
            active: self.active,
            created_at: self.created_at,
            updated_at: self.updated_at,
        }
    }
}

impl Clone for Note {
    fn clone(&self) -> (r: Self)
        ensures
            r == *self,
    {
        Note {
            id: self.id,
            title: self.title.clone(),
            body: self.body.clone(),
            org_id: self.org_id,
            created_at: self.created_at,
            updated_at: self.updated_at,
        }
    }
}

impl Clone for Contact {
    fn clone(&self) -> (r: Self)
        ensures
            r == *self,
    {
        Contact {
            id: self.id,
            org_id: self.org_id,
            first_name: self.first_name.clone(),
            last_name: self.last_name.clone(),
            created_at: self.created_at,
            updated_at: self.updated_at,
        }
    }
}

impl Clone for Link {
    fn clone(&self) -> (r: Self)
        ensures
            r == *self,
    {
        Link {
            id: self.id,
            link: self.link.clone(),
            org_id: self.org_id,
            created_at: self.created_at,
            updated_at: self.updated_at,
        }
    }
}

impl Clone for Email {
    fn clone(&self) -> (r: Self)
        ensures
            r == *self,
    {
        Email {
            id: self.id,
            email: self.email.clone(),
            org_id: self.org_id,
            created_at: self.created_at,
            updated_at: self.updated_at,
        }
    }
}

impl Clone for Phone {
    fn clone(&self) -> (r: Self)
        ensures
            r == *self,
    {
        Phone {
            id: self.id,
            number: self.number.clone(),
            org_id: self.org_id,
            created_at: self.created_at,
            updated_at: self.updated_at,
        }
    }
}

impl Clone for Task {
    fn clone(&self) -> (r: Self)
        ensures
            r == *self,
    {
        Task {
            id: self.id,
            deadline: self.deadline,
            description: match &self.description { Some(v) => Some(v.clone()), None => None },
            contact_id: self.contact_id,
            org_id: self.org_id,
            created_at: self.created_at,
            updated_at: self.updated_at,
        }
    }
}

impl Clone for Invitation {
    fn clone(&self) -> (r: Self)
        ensures
            r == *self,
    {
        Invitation {
            id: self.id,
            email: self.email.clone(),
            organization_id: self.organization_id,
            used: self.used,
            created_at: self.created_at,
            updated_at: self.updated_at,
            role: self.role,
        }
    }
}

impl Clone for Plan {
    fn clone(&self) -> (r: Self)
        ensures
            r == *self,
    {
        Plan {
            id: self.id,
            stripe_id: self.stripe_id.clone(),
            num_users: self.num_users,
            num_deals: self.num_deals,
            price_per_month: self.price_per_month,
            created_at: self.created_at,
            updated_at: self.updated_at,
        }
    }
}

} // verus!
