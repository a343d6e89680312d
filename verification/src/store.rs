//! The relational state of the service, modelled in memory.
//!
//! One vector per table.  The well-formedness invariant carries exactly
//! what the relational schema enforces: primary keys are unique in every
//! table, a user's email address is unique, the `(user, organization)`
//! membership pair is unique, and every stored identifier bears the tag
//! of its table.  Each operation mirrors one data-access function of the
//! service, mapping constraint violations to the same errors.

use vstd::prelude::*;
use crate::errors::ServiceError;
use crate::ids::{PrefixedUuid, ResourceTag};
use crate::models::{
    ApiKey, Contact, Deal, Email, Invitation, Link, Note, Org, OrgUserLink, Phone, Plan, Task,
    TaskDeal, TaskLink, TaskUser, User,
};
use crate::roles::UserRole;
use crate::text::str_eq;

verus! {

/// The whole stored state.
pub struct Backend {
    pub users: Vec<User>,
    pub orgs: Vec<Org>,
    pub org_users: Vec<OrgUserLink>,
    pub api_keys: Vec<ApiKey>,
    pub notes: Vec<Note>,
    pub contacts: Vec<Contact>,
    pub deals: Vec<Deal>,
    pub links: Vec<Link>,
    pub emails: Vec<Email>,
    pub phones: Vec<Phone>,
    pub tasks: Vec<Task>,
    pub task_deals: Vec<TaskDeal>,
    pub task_links: Vec<TaskLink>,
    pub task_users: Vec<TaskUser>,
    pub invitations: Vec<Invitation>,
    pub plans: Vec<Plan>,
}

pub open spec fn has_user_id(s: Seq<User>, id: PrefixedUuid) -> bool {
    exists|i: int| 0 <= i < s.len() && #[trigger] s[i].id == id
}

pub open spec fn has_user_email(s: Seq<User>, email: Seq<char>) -> bool {
    exists|i: int| 0 <= i < s.len() && #[trigger] s[i].email@ == email
}

pub open spec fn has_org_id(s: Seq<Org>, id: PrefixedUuid) -> bool {
    exists|i: int| 0 <= i < s.len() && #[trigger] s[i].id == id
}

pub open spec fn has_link_id(s: Seq<OrgUserLink>, id: PrefixedUuid) -> bool {
    exists|i: int| 0 <= i < s.len() && #[trigger] s[i].id == id
}

pub open spec fn has_link_pair(s: Seq<OrgUserLink>, user_id: PrefixedUuid, org_id: PrefixedUuid)
    -> bool {
    exists|i: int| 0 <= i < s.len()
        && #[trigger] s[i].user_id == user_id && s[i].org_id == org_id
}

pub open spec fn has_api_key_id(s: Seq<ApiKey>, id: u128) -> bool {
    exists|i: int| 0 <= i < s.len() && #[trigger] s[i].id == id
}

pub open spec fn users_wf(s: Seq<User>) -> bool {
    &&& forall|i: int, j: int| #![trigger s[i], s[j]]
        0 <= i < j < s.len() ==> s[i].id != s[j].id && s[i].email@ != s[j].email@
    &&& forall|i: int| 0 <= i < s.len() ==> (#[trigger] s[i].id).prefix == ResourceTag::User
}

pub open spec fn orgs_wf(s: Seq<Org>) -> bool {
    &&& forall|i: int, j: int| #![trigger s[i], s[j]] 0 <= i < j < s.len() ==> s[i].id != s[j].id
    &&& forall|i: int| 0 <= i < s.len() ==> (#[trigger] s[i].id).prefix == ResourceTag::Org
}

pub open spec fn org_users_wf(s: Seq<OrgUserLink>) -> bool {
    &&& forall|i: int, j: int| #![trigger s[i], s[j]]
        0 <= i < j < s.len()
            ==> s[i].id != s[j].id && !(s[i].user_id == s[j].user_id && s[i].org_id == s[j].org_id)
    &&& forall|i: int| 0 <= i < s.len() ==> (#[trigger] s[i].id).prefix == ResourceTag::OrgUser
        && s[i].user_id.prefix == ResourceTag::User && s[i].org_id.prefix == ResourceTag::Org
}

pub open spec fn api_keys_wf(s: Seq<ApiKey>) -> bool {
    &&& forall|i: int, j: int| #![trigger s[i], s[j]] 0 <= i < j < s.len() ==> s[i].id != s[j].id
    &&& forall|i: int| 0 <= i < s.len()
        ==> (#[trigger] s[i].user_id).prefix == ResourceTag::User
}

pub open spec fn notes_wf(s: Seq<Note>) -> bool {
    &&& forall|i: int, j: int| #![trigger s[i], s[j]] 0 <= i < j < s.len() ==> s[i].id != s[j].id
    &&& forall|i: int| 0 <= i < s.len() ==> (#[trigger] s[i].id).prefix == ResourceTag::Note
        && s[i].org_id.prefix == ResourceTag::Org
}

pub open spec fn contacts_wf(s: Seq<Contact>) -> bool {
    &&& forall|i: int, j: int| #![trigger s[i], s[j]] 0 <= i < j < s.len() ==> s[i].id != s[j].id
    &&& forall|i: int| 0 <= i < s.len() ==> (#[trigger] s[i].id).prefix == ResourceTag::Contact
        && s[i].org_id.prefix == ResourceTag::Org
}

pub open spec fn deals_wf(s: Seq<Deal>) -> bool {
    &&& forall|i: int, j: int| #![trigger s[i], s[j]] 0 <= i < j < s.len() ==> s[i].id != s[j].id
    &&& forall|i: int| 0 <= i < s.len() ==> (#[trigger] s[i].id).prefix == ResourceTag::Deal
        && s[i].org_id.prefix == ResourceTag::Org
}

pub open spec fn links_wf(s: Seq<Link>) -> bool {
    &&& forall|i: int, j: int| #![trigger s[i], s[j]] 0 <= i < j < s.len() ==> s[i].id != s[j].id
    &&& forall|i: int| 0 <= i < s.len() ==> (#[trigger] s[i].id).prefix == ResourceTag::Link
        && s[i].org_id.prefix == ResourceTag::Org
}

pub open spec fn emails_wf(s: Seq<Email>) -> bool {
    &&& forall|i: int, j: int| #![trigger s[i], s[j]] 0 <= i < j < s.len() ==> s[i].id != s[j].id
    &&& forall|i: int| 0 <= i < s.len() ==> (#[trigger] s[i].id).prefix == ResourceTag::Email
        && s[i].org_id.prefix == ResourceTag::Org
}

pub open spec fn phones_wf(s: Seq<Phone>) -> bool {
    &&& forall|i: int, j: int| #![trigger s[i], s[j]] 0 <= i < j < s.len() ==> s[i].id != s[j].id
    &&& forall|i: int| 0 <= i < s.len() ==> (#[trigger] s[i].id).prefix == ResourceTag::Phone
        && s[i].org_id.prefix == ResourceTag::Org
}

pub open spec fn tasks_wf(s: Seq<Task>) -> bool {
    &&& forall|i: int, j: int| #![trigger s[i], s[j]] 0 <= i < j < s.len() ==> s[i].id != s[j].id
    &&& forall|i: int| 0 <= i < s.len() ==> (#[trigger] s[i].id).prefix == ResourceTag::Task
        && s[i].org_id.prefix == ResourceTag::Org
}

pub open spec fn task_deals_wf(s: Seq<TaskDeal>) -> bool {
    forall|i: int, j: int| #![trigger s[i], s[j]] 0 <= i < j < s.len() ==> s[i].id != s[j].id
}

pub open spec fn task_links_wf(s: Seq<TaskLink>) -> bool {
    forall|i: int, j: int| #![trigger s[i], s[j]] 0 <= i < j < s.len() ==> s[i].id != s[j].id
}

pub open spec fn task_users_wf(s: Seq<TaskUser>) -> bool {
    forall|i: int, j: int| #![trigger s[i], s[j]] 0 <= i < j < s.len() ==> s[i].id != s[j].id
}

pub open spec fn invitations_wf(s: Seq<Invitation>) -> bool {
    &&& forall|i: int, j: int| #![trigger s[i], s[j]] 0 <= i < j < s.len() ==> s[i].id != s[j].id
    &&& forall|i: int| 0 <= i < s.len()
        ==> (#[trigger] s[i].organization_id).prefix == ResourceTag::Org
}

pub open spec fn plans_wf(s: Seq<Plan>) -> bool {
    forall|i: int, j: int| #![trigger s[i], s[j]] 0 <= i < j < s.len() ==> s[i].id != s[j].id
}

impl Backend {
    /// What the relational schema enforces of the stored state.
    pub open spec fn wf(self) -> bool {
        &&& users_wf(self.users@)
        &&& orgs_wf(self.orgs@)
        &&& org_users_wf(self.org_users@)
        &&& api_keys_wf(self.api_keys@)
        &&& notes_wf(self.notes@)
        &&& contacts_wf(self.contacts@)
        &&& deals_wf(self.deals@)
        &&& links_wf(self.links@)
        &&& emails_wf(self.emails@)
        &&& phones_wf(self.phones@)
        &&& tasks_wf(self.tasks@)
        &&& task_deals_wf(self.task_deals@)
        &&& task_links_wf(self.task_links@)
        &&& task_users_wf(self.task_users@)
        &&& invitations_wf(self.invitations@)
        &&& plans_wf(self.plans@)
    }

    /// An empty store.
    pub fn new() -> (s: Backend)
        ensures
            s.wf(),
            s.users@ =~= Seq::<User>::empty(),
            s.orgs@ =~= Seq::<Org>::empty(),
            s.org_users@ =~= Seq::<OrgUserLink>::empty(),
            s.api_keys@ =~= Seq::<ApiKey>::empty(),
            s.notes@ =~= Seq::<Note>::empty(),
            s.contacts@ =~= Seq::<Contact>::empty(),
            s.deals@ =~= Seq::<Deal>::empty(),
            s.links@ =~= Seq::<Link>::empty(),
            s.emails@ =~= Seq::<Email>::empty(),
            s.phones@ =~= Seq::<Phone>::empty(),
            s.tasks@ =~= Seq::<Task>::empty(),
            s.task_deals@ =~= Seq::<TaskDeal>::empty(),
            s.task_links@ =~= Seq::<TaskLink>::empty(),
            s.task_users@ =~= Seq::<TaskUser>::empty(),
            s.invitations@ =~= Seq::<Invitation>::empty(),
            s.plans@ =~= Seq::<Plan>::empty(),
    {
        Backend {
            users: Vec::new(),
            orgs: Vec::new(),
            org_users: Vec::new(),
            api_keys: Vec::new(),
            notes: Vec::new(),
            contacts: Vec::new(),
            deals: Vec::new(),
            links: Vec::new(),
            emails: Vec::new(),
            phones: Vec::new(),
            tasks: Vec::new(),
            task_deals: Vec::new(),
            task_links: Vec::new(),
            task_users: Vec::new(),
            invitations: Vec::new(),
            plans: Vec::new(),
        }
    }

    /// Everything but the user table is as in `other`.
    pub open spec fn same_except_users(self, other: Backend) -> bool {
        &&& self.orgs@ == other.orgs@
        &&& self.org_users@ == other.org_users@
        &&& self.api_keys@ == other.api_keys@
        &&& self.notes@ == other.notes@
        &&& self.contacts@ == other.contacts@
        &&& self.deals@ == other.deals@
        &&& self.links@ == other.links@
        &&& self.emails@ == other.emails@
        &&& self.phones@ == other.phones@
        &&& self.tasks@ == other.tasks@
        &&& self.task_deals@ == other.task_deals@
        &&& self.task_links@ == other.task_links@
        &&& self.task_users@ == other.task_users@
        &&& self.invitations@ == other.invitations@
        &&& self.plans@ == other.plans@
    }
}

/// The index of the user with the given identifier.
pub(crate) fn find_user_by_id(users: &Vec<User>, id: PrefixedUuid) -> (r: Option<usize>)
    ensures
        match r {
            Some(i) => i < users@.len() && users@[i as int].id == id,
            None => !has_user_id(users@, id),
        },
{
    let n = users.len();
    let mut i: usize = 0;
    while i < n
        invariant
            0 <= i <= n,
            n == users@.len(),
            forall|j: int| 0 <= j < i ==> (#[trigger] users@[j]).id != id,
        decreases n - i,
    {
        if users[i].id == id {
            return Some(i);
        }
        i = i + 1;
    }
    None
}

/// The index of the user with the given email address.
fn find_user_by_email(users: &Vec<User>, email: &str) -> (r: Option<usize>)
    ensures
        match r {
            Some(i) => i < users@.len() && users@[i as int].email@ == email@,
            None => !has_user_email(users@, email@),
        },
{
    let n = users.len();
    let mut i: usize = 0;
    while i < n
        invariant
            0 <= i <= n,
            n == users@.len(),
            forall|j: int| 0 <= j < i ==> (#[trigger] users@[j]).email@ != email@,
        decreases n - i,
    {
        if str_eq(users[i].email.as_str(), email) {
            return Some(i);
        }
        i = i + 1;
    }
    None
}

impl Backend {
    /// Inserts a user record under an identifier the caller supplies.
    /// Rejected, and the state left unchanged, exactly when the
    /// identifier or the email address is already taken.
    pub fn create_user_query(&mut self, user_id: PrefixedUuid, email: String, name: Option<
        String>) -> (r: Result<User, ServiceError>)
        requires
            old(self).wf(),
            user_id.prefix == ResourceTag::User,
        ensures
            final(self).wf(),
            final(self).same_except_users(*old(self)),
            (has_user_id(old(self).users@, user_id) || has_user_email(old(self).users@, email@))
                ==> (r matches Err(ServiceError::BadRequest(m))
                    && m@ == "Error creating user for create_user_query"@
                    && final(self).users@ == old(self).users@),
            !(has_user_id(old(self).users@, user_id) || has_user_email(old(self).users@, email@))
                ==> (r matches Ok(u) && u.id == user_id && u.email@ == email@ && u.name == name
                    && final(self).users@ == old(self).users@.push(u)),
    {
        if find_user_by_id(&self.users, user_id).is_some()
            || find_user_by_email(&self.users, email.as_str()).is_some() {
            return Err(ServiceError::BadRequest(String::from_str(
                "Error creating user for create_user_query")));
        }
        let user = User::from_details_with_id(user_id, email, name);
        let stored = user.clone();
        self.users.push(stored);
        Ok(user)
    }

    /// The user with the given identifier; `BadRequest` when no such
    /// user exists.
    pub fn get_user_by_id_query(&self, user_id: PrefixedUuid) -> (r: Result<User, ServiceError>)
        requires
            self.wf(),
        ensures
            (r matches Ok(u) ==> has_user_id(self.users@, u.id) && u.id == user_id
                && exists|i: int| 0 <= i < self.users@.len() && #[trigger] self.users@[i] == u),
            (r matches Err(e) ==> !has_user_id(self.users@, user_id)
                && (e matches ServiceError::BadRequest(m)
                    && m@ == "Error loading user for get_user_by_id_query"@)),
    {
        match find_user_by_id(&self.users, user_id) {
            Some(i) => Ok(self.users[i].clone()),
            None => Err(ServiceError::BadRequest(String::from_str(
                "Error loading user for get_user_by_id_query"))),
        }
    }

    /// The user with the given email address; `BadRequest` when no such
    /// user exists.
    pub fn get_user_by_email_query(&self, email: &str) -> (r: Result<User, ServiceError>)
        requires
            self.wf(),
        ensures
            (r matches Ok(u) ==> u.email@ == email@
                && exists|i: int| 0 <= i < self.users@.len() && #[trigger] self.users@[i] == u),
            (r matches Err(e) ==> !has_user_email(self.users@, email@)
                && (e matches ServiceError::BadRequest(m)
                    && m@ == "Error loading user for get_user_by_email_query"@)),
    {
        match find_user_by_email(&self.users, email) {
            Some(i) => Ok(self.users[i].clone()),
            None => Err(ServiceError::BadRequest(String::from_str(
                "Error loading user for get_user_by_email_query"))),
        }
    }
}

/// One step of building a filtered sequence left to right.
proof fn lemma_filter_step<A>(s: Seq<A>, pred: spec_fn(A) -> bool, i: int)
    requires
        0 <= i < s.len(),
    ensures
        s.take(i + 1).filter(pred) == (if pred(s[i]) {
            s.take(i).filter(pred).push(s[i])
        } else {
            s.take(i).filter(pred)
        }),
{
    reveal(Seq::filter);
    let t = s.take(i + 1);
    assert(t.drop_last() =~= s.take(i));
    assert(t.last() == s[i]);
}

/// Taking the whole sequence changes nothing about its filtered form.
proof fn lemma_filter_full<A>(s: Seq<A>, pred: spec_fn(A) -> bool)
    ensures
        s.take(s.len() as int).filter(pred) == s.filter(pred),
{
    assert(s.take(s.len() as int) =~= s);
}

/// The index of the org with the given identifier.
fn find_org_by_id(orgs: &Vec<Org>, id: PrefixedUuid) -> (r: Option<usize>)
    ensures
        match r {
            Some(i) => i < orgs@.len() && orgs@[i as int].id == id,
            None => !has_org_id(orgs@, id),
        },
{
    let n = orgs.len();
    let mut i: usize = 0;
    while i < n
        invariant
            0 <= i <= n,
            n == orgs@.len(),
            forall|j: int| 0 <= j < i ==> (#[trigger] orgs@[j]).id != id,
        decreases n - i,
    {
        if orgs[i].id == id {
            return Some(i);
        }
        i = i + 1;
    }
    None
}

/// The index of the membership record for the given pair.
fn find_link_by_pair(links: &Vec<OrgUserLink>, user_id: PrefixedUuid, org_id: PrefixedUuid) -> (r:
    Option<usize>)
    ensures
        match r {
            Some(i) => i < links@.len() && links@[i as int].user_id == user_id
                && links@[i as int].org_id == org_id,
            None => !has_link_pair(links@, user_id, org_id),
        },
{
    let n = links.len();
    let mut i: usize = 0;
    while i < n
        invariant
            0 <= i <= n,
            n == links@.len(),
            forall|j: int| 0 <= j < i
                ==> !((#[trigger] links@[j]).user_id == user_id && links@[j].org_id == org_id),
        decreases n - i,
    {
        if links[i].user_id == user_id && links[i].org_id == org_id {
            return Some(i);
        }
        i = i + 1;
    }
    None
}

/// Whether some membership record carries the given link identifier.
fn link_id_taken(links: &Vec<OrgUserLink>, id: PrefixedUuid) -> (r: bool)
    ensures
        r == has_link_id(links@, id),
{
    let n = links.len();
    let mut i: usize = 0;
    while i < n
        invariant
            0 <= i <= n,
            n == links@.len(),
            forall|j: int| 0 <= j < i ==> (#[trigger] links@[j]).id != id,
        decreases n - i,
    {
        if links[i].id == id {
            return true;
        }
        i = i + 1;
    }
    false
}

impl Backend {
    /// Everything but organizations and org-scoped tables is as in
    /// `other`.
    pub open spec fn same_except_org_scoped(self, other: Backend) -> bool {
        &&& self.users@ == other.users@
        &&& self.api_keys@ == other.api_keys@
        &&& self.task_deals@ == other.task_deals@
        &&& self.task_links@ == other.task_links@
        &&& self.task_users@ == other.task_users@
        &&& self.plans@ == other.plans@
    }

    /// Everything but the API-key table is as in `other`.
    pub open spec fn same_except_api_keys(self, other: Backend) -> bool {
        &&& self.users@ == other.users@
        &&& self.orgs@ == other.orgs@
        &&& self.org_users@ == other.org_users@
        &&& self.notes@ == other.notes@
        &&& self.contacts@ == other.contacts@
        &&& self.deals@ == other.deals@
        &&& self.links@ == other.links@
        &&& self.emails@ == other.emails@
        &&& self.phones@ == other.phones@
        &&& self.tasks@ == other.tasks@
        &&& self.task_deals@ == other.task_deals@
        &&& self.task_links@ == other.task_links@
        &&& self.task_users@ == other.task_users@
        &&& self.invitations@ == other.invitations@
        &&& self.plans@ == other.plans@
    }

    /// Everything but the note table is as in `other`.
    pub open spec fn same_except_notes(self, other: Backend) -> bool {
        &&& self.users@ == other.users@
        &&& self.orgs@ == other.orgs@
        &&& self.org_users@ == other.org_users@
        &&& self.api_keys@ == other.api_keys@
        &&& self.contacts@ == other.contacts@
        &&& self.deals@ == other.deals@
        &&& self.links@ == other.links@
        &&& self.emails@ == other.emails@
        &&& self.phones@ == other.phones@
        &&& self.tasks@ == other.tasks@
        &&& self.task_deals@ == other.task_deals@
        &&& self.task_links@ == other.task_links@
        &&& self.task_users@ == other.task_users@
        &&& self.invitations@ == other.invitations@
        &&& self.plans@ == other.plans@
    }

    /// Everything but the contact table is as in `other`.
    pub open spec fn same_except_contacts(self, other: Backend) -> bool {
        &&& self.users@ == other.users@
        &&& self.orgs@ == other.orgs@
        &&& self.org_users@ == other.org_users@
        &&& self.api_keys@ == other.api_keys@
        &&& self.notes@ == other.notes@
        &&& self.deals@ == other.deals@
        &&& self.links@ == other.links@
        &&& self.emails@ == other.emails@
        &&& self.phones@ == other.phones@
        &&& self.tasks@ == other.tasks@
        &&& self.task_deals@ == other.task_deals@
        &&& self.task_links@ == other.task_links@
        &&& self.task_users@ == other.task_users@
        &&& self.invitations@ == other.invitations@
        &&& self.plans@ == other.plans@
    }

    /// Everything but the deal table is as in `other`.
    pub open spec fn same_except_deals(self, other: Backend) -> bool {
        &&& self.users@ == other.users@
        &&& self.orgs@ == other.orgs@
        &&& self.org_users@ == other.org_users@
        &&& self.api_keys@ == other.api_keys@
        &&& self.notes@ == other.notes@
        &&& self.contacts@ == other.contacts@
        &&& self.links@ == other.links@
        &&& self.emails@ == other.emails@
        &&& self.phones@ == other.phones@
        &&& self.tasks@ == other.tasks@
        &&& self.task_deals@ == other.task_deals@
        &&& self.task_links@ == other.task_links@
        &&& self.task_users@ == other.task_users@
        &&& self.invitations@ == other.invitations@
        &&& self.plans@ == other.plans@
    }

    /// Everything but the link table is as in `other`.
    pub open spec fn same_except_links(self, other: Backend) -> bool {
        &&& self.users@ == other.users@
        &&& self.orgs@ == other.orgs@
        &&& self.org_users@ == other.org_users@
        &&& self.api_keys@ == other.api_keys@
        &&& self.notes@ == other.notes@
        &&& self.contacts@ == other.contacts@
        &&& self.deals@ == other.deals@
        &&& self.emails@ == other.emails@
        &&& self.phones@ == other.phones@
        &&& self.tasks@ == other.tasks@
        &&& self.task_deals@ == other.task_deals@
        &&& self.task_links@ == other.task_links@
        &&& self.task_users@ == other.task_users@
        &&& self.invitations@ == other.invitations@
        &&& self.plans@ == other.plans@
    }

    /// Everything but the email table is as in `other`.
    pub open spec fn same_except_emails(self, other: Backend) -> bool {
        &&& self.users@ == other.users@
        &&& self.orgs@ == other.orgs@
        &&& self.org_users@ == other.org_users@
        &&& self.api_keys@ == other.api_keys@
        &&& self.notes@ == other.notes@
        &&& self.contacts@ == other.contacts@
        &&& self.deals@ == other.deals@
        &&& self.links@ == other.links@
        &&& self.phones@ == other.phones@
        &&& self.tasks@ == other.tasks@
        &&& self.task_deals@ == other.task_deals@
        &&& self.task_links@ == other.task_links@
        &&& self.task_users@ == other.task_users@
        &&& self.invitations@ == other.invitations@
        &&& self.plans@ == other.plans@
    }

    /// Everything but the phone table is as in `other`.
    pub open spec fn same_except_phones(self, other: Backend) -> bool {
        &&& self.users@ == other.users@
        &&& self.orgs@ == other.orgs@
        &&& self.org_users@ == other.org_users@
        &&& self.api_keys@ == other.api_keys@
        &&& self.notes@ == other.notes@
        &&& self.contacts@ == other.contacts@
        &&& self.deals@ == other.deals@
        &&& self.links@ == other.links@
        &&& self.emails@ == other.emails@
        &&& self.tasks@ == other.tasks@
        &&& self.task_deals@ == other.task_deals@
        &&& self.task_links@ == other.task_links@
        &&& self.task_users@ == other.task_users@
        &&& self.invitations@ == other.invitations@
        &&& self.plans@ == other.plans@
    }

    /// Everything but the task table is as in `other`.
    pub open spec fn same_except_tasks(self, other: Backend) -> bool {
        &&& self.users@ == other.users@
        &&& self.orgs@ == other.orgs@
        &&& self.org_users@ == other.org_users@
        &&& self.api_keys@ == other.api_keys@
        &&& self.notes@ == other.notes@
        &&& self.contacts@ == other.contacts@
        &&& self.deals@ == other.deals@
        &&& self.links@ == other.links@
        &&& self.emails@ == other.emails@
        &&& self.phones@ == other.phones@
        &&& self.task_deals@ == other.task_deals@
        &&& self.task_links@ == other.task_links@
        &&& self.task_users@ == other.task_users@
        &&& self.invitations@ == other.invitations@
        &&& self.plans@ == other.plans@
    }

    /// Everything but the task-deal associations is as in `other`.
    pub open spec fn same_except_task_deals(self, other: Backend) -> bool {
        &&& self.users@ == other.users@
        &&& self.orgs@ == other.orgs@
        &&& self.org_users@ == other.org_users@
        &&& self.api_keys@ == other.api_keys@
        &&& self.notes@ == other.notes@
        &&& self.contacts@ == other.contacts@
        &&& self.deals@ == other.deals@
        &&& self.links@ == other.links@
        &&& self.emails@ == other.emails@
        &&& self.phones@ == other.phones@
        &&& self.tasks@ == other.tasks@
        &&& self.task_links@ == other.task_links@
        &&& self.task_users@ == other.task_users@
        &&& self.invitations@ == other.invitations@
        &&& self.plans@ == other.plans@
    }

    /// Everything but the task-link associations is as in `other`.
    pub open spec fn same_except_task_links(self, other: Backend) -> bool {
        &&& self.users@ == other.users@
        &&& self.orgs@ == other.orgs@
        &&& self.org_users@ == other.org_users@
        &&& self.api_keys@ == other.api_keys@
        &&& self.notes@ == other.notes@
        &&& self.contacts@ == other.contacts@
        &&& self.deals@ == other.deals@
        &&& self.links@ == other.links@
        &&& self.emails@ == other.emails@
        &&& self.phones@ == other.phones@
        &&& self.tasks@ == other.tasks@
        &&& self.task_deals@ == other.task_deals@
        &&& self.task_users@ == other.task_users@
        &&& self.invitations@ == other.invitations@
        &&& self.plans@ == other.plans@
    }

    /// Everything but the task-user associations is as in `other`.
    pub open spec fn same_except_task_users(self, other: Backend) -> bool {
        &&& self.users@ == other.users@
        &&& self.orgs@ == other.orgs@
        &&& self.org_users@ == other.org_users@
        &&& self.api_keys@ == other.api_keys@
        &&& self.notes@ == other.notes@
        &&& self.contacts@ == other.contacts@
        &&& self.deals@ == other.deals@
        &&& self.links@ == other.links@
        &&& self.emails@ == other.emails@
        &&& self.phones@ == other.phones@
        &&& self.tasks@ == other.tasks@
        &&& self.task_deals@ == other.task_deals@
        &&& self.task_links@ == other.task_links@
        &&& self.invitations@ == other.invitations@
        &&& self.plans@ == other.plans@
    }

    /// Everything but the invitation table is as in `other`.
    pub open spec fn same_except_invitations(self, other: Backend) -> bool {
        &&& self.users@ == other.users@
        &&& self.orgs@ == other.orgs@
        &&& self.org_users@ == other.org_users@
        &&& self.api_keys@ == other.api_keys@
        &&& self.notes@ == other.notes@
        &&& self.contacts@ == other.contacts@
        &&& self.deals@ == other.deals@
        &&& self.links@ == other.links@
        &&& self.emails@ == other.emails@
        &&& self.phones@ == other.phones@
        &&& self.tasks@ == other.tasks@
        &&& self.task_deals@ == other.task_deals@
        &&& self.task_links@ == other.task_links@
        &&& self.task_users@ == other.task_users@
        &&& self.plans@ == other.plans@
    }

    /// Everything but the plan table is as in `other`.
    pub open spec fn same_except_plans(self, other: Backend) -> bool {
        &&& self.users@ == other.users@
        &&& self.orgs@ == other.orgs@
        &&& self.org_users@ == other.org_users@
        &&& self.api_keys@ == other.api_keys@
        &&& self.notes@ == other.notes@
        &&& self.contacts@ == other.contacts@
        &&& self.deals@ == other.deals@
        &&& self.links@ == other.links@
        &&& self.emails@ == other.emails@
        &&& self.phones@ == other.phones@
        &&& self.tasks@ == other.tasks@
        &&& self.task_deals@ == other.task_deals@
        &&& self.task_links@ == other.task_links@
        &&& self.task_users@ == other.task_users@
        &&& self.invitations@ == other.invitations@
    }

    /// Everything but the organization table is as in `other`.
    pub open spec fn same_except_orgs(self, other: Backend) -> bool {
        &&& self.users@ == other.users@
        &&& self.org_users@ == other.org_users@
        &&& self.api_keys@ == other.api_keys@
        &&& self.notes@ == other.notes@
        &&& self.contacts@ == other.contacts@
        &&& self.deals@ == other.deals@
        &&& self.links@ == other.links@
        &&& self.emails@ == other.emails@
        &&& self.phones@ == other.phones@
        &&& self.tasks@ == other.tasks@
        &&& self.task_deals@ == other.task_deals@
        &&& self.task_links@ == other.task_links@
        &&& self.task_users@ == other.task_users@
        &&& self.invitations@ == other.invitations@
        &&& self.plans@ == other.plans@
    }

    /// Everything but the membership table is as in `other`.
    pub open spec fn same_except_org_users(self, other: Backend) -> bool {
        &&& self.users@ == other.users@
        &&& self.orgs@ == other.orgs@
        &&& self.api_keys@ == other.api_keys@
        &&& self.notes@ == other.notes@
        &&& self.contacts@ == other.contacts@
        &&& self.deals@ == other.deals@
        &&& self.links@ == other.links@
        &&& self.emails@ == other.emails@
        &&& self.phones@ == other.phones@
        &&& self.tasks@ == other.tasks@
        &&& self.task_deals@ == other.task_deals@
        &&& self.task_links@ == other.task_links@
        &&& self.task_users@ == other.task_users@
        &&& self.invitations@ == other.invitations@
        &&& self.plans@ == other.plans@
    }

    /// Stores the given organization record; rejected, and the state
    /// left unchanged, exactly when its identifier is already taken.
    pub fn insert_org(&mut self, org: Org) -> (r: Result<(), ServiceError>)
        requires
            old(self).wf(),
            org.id.prefix == ResourceTag::Org,
        ensures
            final(self).wf(),
            final(self).same_except_orgs(*old(self)),
            has_org_id(old(self).orgs@, org.id)
                ==> (r matches Err(ServiceError::InternalServerError(m))
                    && m@ == "Error creating org for create_org_query"@
                    && final(self).orgs@ == old(self).orgs@),
            !has_org_id(old(self).orgs@, org.id)
                ==> r is Ok && final(self).orgs@ == old(self).orgs@.push(org),
    {
        if find_org_by_id(&self.orgs, org.id).is_some() {
            return Err(ServiceError::InternalServerError(String::from_str(
                "Error creating org for create_org_query")));
        }
        self.orgs.push(org);
        Ok(())
    }

    /// Stores the given membership record; rejected with the service's
    /// "already linked" error, and the state left unchanged, exactly
    /// when the `(user, organization)` pair is already a membership or
    /// the record's identifier is already taken.
    pub fn insert_org_user_link(&mut self, link: OrgUserLink) -> (r: Result<(), ServiceError>)
        requires
            old(self).wf(),
            link.id.prefix == ResourceTag::OrgUser,
            link.user_id.prefix == ResourceTag::User,
            link.org_id.prefix == ResourceTag::Org,
        ensures
            final(self).wf(),
            final(self).same_except_org_users(*old(self)),
            (has_link_pair(old(self).org_users@, link.user_id, link.org_id)
                || has_link_id(old(self).org_users@, link.id))
                ==> (r matches Err(ServiceError::BadRequest(m))
                    && m@ == "User and organization already linked"@
                    && final(self).org_users@ == old(self).org_users@),
            !(has_link_pair(old(self).org_users@, link.user_id, link.org_id)
                || has_link_id(old(self).org_users@, link.id))
                ==> r is Ok && final(self).org_users@ == old(self).org_users@.push(link),
    {
        if find_link_by_pair(&self.org_users, link.user_id, link.org_id).is_some()
            || link_id_taken(&self.org_users, link.id) {
            return Err(ServiceError::BadRequest(String::from_str(
                "User and organization already linked")));
        }
        self.org_users.push(link);
        Ok(())
    }

    /// Links `user_id` into `org_id` with the given role.  Fails with the
    /// service's "already linked" error, leaving the state unchanged,
    /// when the pair is already a membership — or, rarely, when the fresh
    /// link identifier collides with a stored one.
    pub fn add_user_to_org_query(&mut self, user_id: PrefixedUuid, org_id: PrefixedUuid, role:
        UserRole) -> (r: Result<OrgUserLink, ServiceError>)
        requires
            old(self).wf(),
            user_id.prefix == ResourceTag::User,
            org_id.prefix == ResourceTag::Org,
        ensures
            final(self).wf(),
            final(self).same_except_org_users(*old(self)),
            has_link_pair(old(self).org_users@, user_id, org_id)
                ==> (r matches Err(ServiceError::BadRequest(m))
                    && m@ == "User and organization already linked"@),
            (r matches Err(e) ==> final(self).org_users@ == old(self).org_users@
                && (e matches ServiceError::BadRequest(m)
                    && m@ == "User and organization already linked"@)),
            (r matches Err(_) ==> has_link_pair(old(self).org_users@, user_id, org_id)
                || old(self).org_users@.len() > 0),
            (r matches Ok(l) ==> !has_link_pair(old(self).org_users@, user_id, org_id)
                && l.user_id == user_id && l.org_id == org_id
                && l.role == crate::roles::role_level(role)
                && final(self).org_users@ == old(self).org_users@.push(l)),
    {
        let link = OrgUserLink::from_details(user_id, org_id, role);
        self.insert_org_user_link(link)?;
        Ok(link)
    }

    /// Creates an organization and makes the caller its owner.  The two
    /// inserts are sequential, not atomic: when linking the owner fails,
    /// the error is returned with the organization already stored.
    pub fn create_org_query(&mut self, name: String, authed_user: &User) -> (r: Result<Org,
        ServiceError>)
        requires
            old(self).wf(),
            authed_user.id.prefix == ResourceTag::User,
        ensures
            final(self).wf(),
            final(self).same_except_org_scoped(*old(self)),
            final(self).notes@ == old(self).notes@,
            final(self).contacts@ == old(self).contacts@,
            final(self).deals@ == old(self).deals@,
            final(self).links@ == old(self).links@,
            final(self).emails@ == old(self).emails@,
            final(self).phones@ == old(self).phones@,
            final(self).tasks@ == old(self).tasks@,
            final(self).invitations@ == old(self).invitations@,
            (r matches Ok(o) ==> o.name@ == name@ && o.id.prefix == ResourceTag::Org
                && final(self).orgs@ == old(self).orgs@.push(o)
                && (exists|l: OrgUserLink|
                    final(self).org_users@ == old(self).org_users@.push(l)
                    && #[trigger] l.user_id == authed_user.id && l.org_id == o.id
                    && l.role == crate::roles::role_level(UserRole::Owner))),
            (r matches Err(_) ==> final(self).org_users@ == old(self).org_users@
                && (final(self).orgs@ == old(self).orgs@
                    || exists|o: Org| final(self).orgs@ == old(self).orgs@.push(o))),
            (r matches Err(_) ==> old(self).orgs@.len() > 0 || old(self).org_users@.len() > 0),
    {
        let org = Org::from_details(name);
        let ret = org.clone();
        self.insert_org(org)?;
        match self.add_user_to_org_query(authed_user.id, ret.id, UserRole::Owner) {
            Ok(_) => Ok(ret),
            Err(e) => {
                proof {
                    assert(final(self).orgs@ == old(self).orgs@.push(ret));
                }
                Err(e)
            }
        }
    }

    /// The organization, if the user is one of its members.
    pub fn user_in_org_query(&self, org_id: PrefixedUuid, user_id: PrefixedUuid) -> (r: Result<
        Option<Org>, ServiceError>)
        requires
            self.wf(),
        ensures
            (r matches Ok(Some(o)) <==> has_link_pair(self.org_users@, user_id, org_id)
                && has_org_id(self.orgs@, org_id)),
            (r matches Ok(Some(o)) ==> o.id == org_id
                && exists|i: int| 0 <= i < self.orgs@.len() && #[trigger] self.orgs@[i] == o),
            (r matches Err(_) ==> false),
    {
        if find_link_by_pair(&self.org_users, user_id, org_id).is_some() {
            match find_org_by_id(&self.orgs, org_id) {
                Some(i) => Ok(Some(self.orgs[i].clone())),
                None => Ok(None),
            }
        } else {
            Ok(None)
        }
    }

    /// The membership record for the pair; `NotFound` when the user is
    /// not a member of the organization.
    pub fn get_org_user_link_query(&self, user_id: PrefixedUuid, org_id: PrefixedUuid) -> (r:
        Result<OrgUserLink, ServiceError>)
        requires
            self.wf(),
        ensures
            (r matches Ok(l) <==> has_link_pair(self.org_users@, user_id, org_id)),
            (r matches Ok(l) ==> l.user_id == user_id && l.org_id == org_id
                && exists|i: int| 0 <= i < self.org_users@.len()
                    && #[trigger] self.org_users@[i] == l),
            (r matches Err(e) ==> e == ServiceError::NotFound),
    {
        match find_link_by_pair(&self.org_users, user_id, org_id) {
            Some(i) => Ok(self.org_users[i]),
            None => Err(ServiceError::NotFound),
        }
    }

    /// Unlinks the user from the organization.  Removing an absent
    /// membership succeeds and changes nothing, as a deletion by filter
    /// does.
    pub fn remove_user_from_org_query(&mut self, org_id: PrefixedUuid, user_id: PrefixedUuid)
        -> (r: Result<(), ServiceError>)
        requires
            old(self).wf(),
        ensures
            final(self).wf(),
            final(self).same_except_org_users(*old(self)),
            r matches Ok(_),
            !has_link_pair(final(self).org_users@, user_id, org_id),
            !has_link_pair(old(self).org_users@, user_id, org_id)
                ==> final(self).org_users@ == old(self).org_users@,
            has_link_pair(old(self).org_users@, user_id, org_id)
                ==> exists|i: int| 0 <= i < old(self).org_users@.len()
                    && (#[trigger] old(self).org_users@[i]).user_id == user_id
                    && old(self).org_users@[i].org_id == org_id
                    && final(self).org_users@ == old(self).org_users@.remove(i),
    {
        match find_link_by_pair(&self.org_users, user_id, org_id) {
            Some(i) => {
                self.org_users.remove(i);
                proof {
                    let pre = old(self).org_users@;
                    let post = final(self).org_users@;
                    assert forall|k: int| 0 <= k < post.len()
                        implies !((#[trigger] post[k]).user_id == user_id
                            && post[k].org_id == org_id) by {
                        if k < i {
                            assert(post[k] == pre[k]);
                        } else {
                            assert(post[k] == pre[k + 1]);
                        }
                    }
                }
                Ok(())
            }
            None => Ok(()),
        }
    }
}

/// The organizations the user is a member of, in stored order.
pub open spec fn orgs_of_user(orgs: Seq<Org>, links: Seq<OrgUserLink>, user_id: PrefixedUuid)
    -> Seq<Org>
    decreases orgs.len(),
{
    if orgs.len() == 0 {
        orgs
    } else {
        let rest = orgs_of_user(orgs.drop_last(), links, user_id);
        if has_link_pair(links, user_id, orgs.last().id) {
            rest.push(orgs.last())
        } else {
            rest
        }
    }
}

/// The page of a listing: `limit` rows starting at `offset`, clamped to
/// the listing's bounds; a negative offset reads from the start and a
/// negative limit yields nothing.
pub open spec fn page<A>(s: Seq<A>, limit: i64, offset: i64) -> Seq<A> {
    let o = if offset < 0 { 0 } else if offset > s.len() { s.len() as int } else { offset as int };
    let e = if limit < 0 { o } else if o + limit > s.len() { s.len() as int } else { o + limit };
    s.subrange(o, e)
}

/// The default page of a listing: ten rows from the start.
pub open spec fn page_opt<A>(s: Seq<A>, limit: Option<i64>, offset: Option<i64>) -> Seq<A> {
    page(s, match limit { Some(l) => l, None => 10 }, match offset { Some(o) => o, None => 0 })
}

impl Backend {
    /// Deletes the organization and, as the schema's foreign keys force,
    /// every org-scoped row with it: memberships, notes, contacts,
    /// deals, links, emails, phones, tasks and invitations of that
    /// organization.  Deleting an absent organization succeeds and
    /// changes nothing else.
    pub fn delete_org_query(&mut self, org_id: PrefixedUuid) -> (r: Result<(), ServiceError>)
        requires
            old(self).wf(),
        ensures
            final(self).wf(),
            r matches Ok(_),
            final(self).same_except_org_scoped(*old(self)),
            !has_org_id(final(self).orgs@, org_id),
            !has_org_id(old(self).orgs@, org_id) ==> final(self).orgs@ == old(self).orgs@,
            has_org_id(old(self).orgs@, org_id)
                ==> exists|i: int| 0 <= i < old(self).orgs@.len()
                    && (#[trigger] old(self).orgs@[i]).id == org_id
                    && final(self).orgs@ == old(self).orgs@.remove(i),
            final(self).org_users@ == links_without_org(old(self).org_users@, org_id),
            forall|k: int| 0 <= k < final(self).org_users@.len()
                ==> (#[trigger] final(self).org_users@[k]).org_id != org_id,
            final(self).notes@ == notes_without_org(old(self).notes@, org_id),
            final(self).contacts@ == contacts_without_org(old(self).contacts@, org_id),
            final(self).deals@ == deals_without_org(old(self).deals@, org_id),
            final(self).links@ == weblinks_without_org(old(self).links@, org_id),
            final(self).emails@ == emails_without_org(old(self).emails@, org_id),
            final(self).phones@ == phones_without_org(old(self).phones@, org_id),
            final(self).tasks@ == tasks_without_org(old(self).tasks@, org_id),
            final(self).invitations@ == invitations_without_org(old(self).invitations@, org_id),
    {
        match find_org_by_id(&self.orgs, org_id) {
            Some(i) => {
                self.orgs.remove(i);
                proof {
                    let pre = old(self).orgs@;
                    let post = self.orgs@;
                    assert forall|k: int| 0 <= k < post.len()
                        implies (#[trigger] post[k]).id != org_id && post[k].id.prefix
                            == ResourceTag::Org by {
                        if k < i {
                            assert(post[k] == pre[k]);
                        } else {
                            assert(post[k] == pre[k + 1]);
                        }
                    }
                    assert forall|a: int, b: int| #![trigger post[a], post[b]]
                        0 <= a < b < post.len() implies post[a].id != post[b].id by {
                        let pa: int = if a < i { a } else { a + 1 };
                        let pb: int = if b < i { b } else { b + 1 };
                        assert(post[a] == pre[pa]);
                        assert(post[b] == pre[pb]);
                    }
                }
            }
            None => {}
        }
        retain_links_except_org(&mut self.org_users, org_id);
        retain_notes_except_org(&mut self.notes, org_id);
        retain_contacts_except_org(&mut self.contacts, org_id);
        retain_deals_except_org(&mut self.deals, org_id);
        retain_weblinks_except_org(&mut self.links, org_id);
        retain_emails_except_org(&mut self.emails, org_id);
        retain_phones_except_org(&mut self.phones, org_id);
        retain_tasks_except_org(&mut self.tasks, org_id);
        retain_invitations_except_org(&mut self.invitations, org_id);
        proof {
            lemma_links_without_org_props(old(self).org_users@, org_id);
            lemma_notes_without_org_props(old(self).notes@, org_id);
            lemma_contacts_without_org_props(old(self).contacts@, org_id);
            lemma_deals_without_org_props(old(self).deals@, org_id);
            lemma_weblinks_without_org_props(old(self).links@, org_id);
            lemma_emails_without_org_props(old(self).emails@, org_id);
            lemma_phones_without_org_props(old(self).phones@, org_id);
            lemma_tasks_without_org_props(old(self).tasks@, org_id);
            lemma_invitations_without_org_props(old(self).invitations@, org_id);
        }
        Ok(())
    }

    /// Replaces the stored organization record that shares the given
    /// record's identifier; `NotFound` when there is none.
    pub fn update_org_query(&mut self, org: Org) -> (r: Result<Org, ServiceError>)
        requires
            old(self).wf(),
            org.id.prefix == ResourceTag::Org,
        ensures
            final(self).wf(),
            final(self).same_except_org_scoped(*old(self)),
            final(self).org_users@ == old(self).org_users@,
            final(self).notes@ == old(self).notes@,
            final(self).contacts@ == old(self).contacts@,
            final(self).deals@ == old(self).deals@,
            final(self).links@ == old(self).links@,
            final(self).emails@ == old(self).emails@,
            final(self).phones@ == old(self).phones@,
            final(self).tasks@ == old(self).tasks@,
            final(self).invitations@ == old(self).invitations@,
            !has_org_id(old(self).orgs@, org.id)
                ==> r == Err::<Org, ServiceError>(ServiceError::NotFound)
                    && final(self).orgs@ == old(self).orgs@,
            has_org_id(old(self).orgs@, org.id)
                ==> (r matches Ok(o) && o == org
                    && exists|i: int| 0 <= i < old(self).orgs@.len()
                        && (#[trigger] old(self).orgs@[i]).id == org.id
                        && final(self).orgs@ == old(self).orgs@.update(i, org)),
    {
        match find_org_by_id(&self.orgs, org.id) {
            Some(i) => {
                let ret = org.clone();
                self.orgs[i] = org;
                proof {
                    let pre = old(self).orgs@;
                    let post = self.orgs@;
                    assert forall|a: int, b: int| #![trigger post[a], post[b]]
                        0 <= a < b < post.len() implies post[a].id != post[b].id by {
                        assert(pre[a].id != pre[b].id);
                    }
                }
                Ok(ret)
            }
            None => Err(ServiceError::NotFound),
        }
    }

    /// One page of the organizations the user belongs to, ten from the
    /// start when no bounds are given.
    pub fn get_orgs_for_user_query(&self, user_id: PrefixedUuid, limit: Option<i64>, offset:
        Option<i64>) -> (r: Result<Vec<Org>, ServiceError>)
        requires
            self.wf(),
        ensures
            (r matches Ok(v)
                && v@ == page_opt(orgs_of_user(self.orgs@, self.org_users@, user_id), limit,
                offset)),
    {
        let ghost all_spec = orgs_of_user(self.orgs@, self.org_users@, user_id);
        let n = self.orgs.len();
        let mut all: Vec<Org> = Vec::new();
        let mut i: usize = 0;
        while i < n
            invariant
                0 <= i <= n,
                n == self.orgs@.len(),
                self.wf(),
                all@ == orgs_of_user(self.orgs@.take(i as int), self.org_users@, user_id),
            decreases n - i,
        {
            proof {
                assert(self.orgs@.take(i + 1).drop_last() =~= self.orgs@.take(i as int));
                assert(self.orgs@.take(i + 1).last() == self.orgs@[i as int]);
            }
            if find_link_by_pair(&self.org_users, user_id, self.orgs[i].id).is_some() {
                let kept = self.orgs[i].clone();
                all.push(kept);
            }
            i = i + 1;
        }
        proof {
            assert(self.orgs@.take(n as int) =~= self.orgs@);
            assert(all@ == all_spec);
        }
        let out = page_vec(all, limit, offset);
        Ok(out)
    }
}


/// One page of a listing, taking the rows from the given vector.
pub fn page_vec<T>(all: Vec<T>, limit: Option<i64>, offset: Option<i64>) -> (r: Vec<T>)
    ensures
        r@ == page_opt(all@, limit, offset),
{
    let ghost all_spec = all@;
    let lim: i64 = match limit {
        Some(l) => l,
        None => 10,
    };
    let off: i64 = match offset {
        Some(o) => o,
        None => 0,
    };
    let len = all.len();
    let start: usize = if off < 0 {
        0
    } else if (off as u64) > (len as u64) {
        len
    } else {
        off as usize
    };
    let end: usize = if lim < 0 {
        start
    } else if (lim as u64) > ((len - start) as u64) {
        len
    } else {
        start + (lim as usize)
    };
    let mut head = all;
    let mut out = head.split_off(start);
    out.truncate(end - start);
    proof {
        let o: int = if off < 0 { 0 } else if off > all_spec.len() {
            all_spec.len() as int
        } else { off as int };
        let e: int = if lim < 0 { o } else if o + lim > all_spec.len() {
            all_spec.len() as int
        } else { o + lim };
        assert(start as int == o);
        assert(end as int == e);
        assert(page_opt(all_spec, limit, offset) == all_spec.subrange(o, e));
        assert(out@ =~= page_opt(all_spec, limit, offset));
    }
    out
}

/// The membership records not belonging to the given organization, in
/// stored order.
pub open spec fn links_without_org(s: Seq<OrgUserLink>, org_id: PrefixedUuid) -> Seq<OrgUserLink>
    decreases s.len(),
{
    if s.len() == 0 {
        s
    } else {
        let rest = links_without_org(s.drop_last(), org_id);
        if s.last().org_id != org_id {
            rest.push(s.last())
        } else {
            rest
        }
    }
}

/// The notes not belonging to the given organization, in stored order.
pub open spec fn notes_without_org(s: Seq<Note>, org_id: PrefixedUuid) -> Seq<Note>
    decreases s.len(),
{
    if s.len() == 0 {
        s
    } else {
        let rest = notes_without_org(s.drop_last(), org_id);
        if s.last().org_id != org_id {
            rest.push(s.last())
        } else {
            rest
        }
    }
}

/// The contacts not belonging to the given organization, in stored order.
pub open spec fn contacts_without_org(s: Seq<Contact>, org_id: PrefixedUuid) -> Seq<Contact>
    decreases s.len(),
{
    if s.len() == 0 {
        s
    } else {
        let rest = contacts_without_org(s.drop_last(), org_id);
        if s.last().org_id != org_id {
            rest.push(s.last())
        } else {
            rest
        }
    }
}

/// The deals not belonging to the given organization, in stored order.
pub open spec fn deals_without_org(s: Seq<Deal>, org_id: PrefixedUuid) -> Seq<Deal>
    decreases s.len(),
{
    if s.len() == 0 {
        s
    } else {
        let rest = deals_without_org(s.drop_last(), org_id);
        if s.last().org_id != org_id {
            rest.push(s.last())
        } else {
            rest
        }
    }
}

/// The links not belonging to the given organization, in stored order.
pub open spec fn weblinks_without_org(s: Seq<Link>, org_id: PrefixedUuid) -> Seq<Link>
    decreases s.len(),
{
    if s.len() == 0 {
        s
    } else {
        let rest = weblinks_without_org(s.drop_last(), org_id);
        if s.last().org_id != org_id {
            rest.push(s.last())
        } else {
            rest
        }
    }
}

/// The email records not belonging to the given organization, in stored
/// order.
pub open spec fn emails_without_org(s: Seq<Email>, org_id: PrefixedUuid) -> Seq<Email>
    decreases s.len(),
{
    if s.len() == 0 {
        s
    } else {
        let rest = emails_without_org(s.drop_last(), org_id);
        if s.last().org_id != org_id {
            rest.push(s.last())
        } else {
            rest
        }
    }
}

/// The phone records not belonging to the given organization, in stored
/// order.
pub open spec fn phones_without_org(s: Seq<Phone>, org_id: PrefixedUuid) -> Seq<Phone>
    decreases s.len(),
{
    if s.len() == 0 {
        s
    } else {
        let rest = phones_without_org(s.drop_last(), org_id);
        if s.last().org_id != org_id {
            rest.push(s.last())
        } else {
            rest
        }
    }
}

/// The tasks not belonging to the given organization, in stored order.
pub open spec fn tasks_without_org(s: Seq<Task>, org_id: PrefixedUuid) -> Seq<Task>
    decreases s.len(),
{
    if s.len() == 0 {
        s
    } else {
        let rest = tasks_without_org(s.drop_last(), org_id);
        if s.last().org_id != org_id {
            rest.push(s.last())
        } else {
            rest
        }
    }
}

/// The invitations not belonging to the given organization, in stored
/// order.
pub open spec fn invitations_without_org(s: Seq<Invitation>, org_id: PrefixedUuid) -> Seq<
    Invitation>
    decreases s.len(),
{
    if s.len() == 0 {
        s
    } else {
        let rest = invitations_without_org(s.drop_last(), org_id);
        if s.last().organization_id != org_id {
            rest.push(s.last())
        } else {
            rest
        }
    }
}

/// Filtering a table keeps its rows, order and constraints: every kept
/// row comes from the original table, none belongs to the dropped
/// organization, and well-formedness carries over.
proof fn lemma_links_without_org_props(s: Seq<OrgUserLink>, org_id: PrefixedUuid)
    ensures
        links_without_org(s, org_id).len() <= s.len(),
        forall|k: int| 0 <= k < links_without_org(s, org_id).len()
            ==> (#[trigger] links_without_org(s, org_id)[k]).org_id != org_id,
        forall|k: int| 0 <= k < links_without_org(s, org_id).len()
            ==> exists|i: int| 0 <= i < s.len()
                && s[i] == #[trigger] links_without_org(s, org_id)[k],
        org_users_wf(s) ==> org_users_wf(links_without_org(s, org_id)),
    decreases s.len(),
{
    if s.len() > 0 {
        let t = s.drop_last();
        lemma_links_without_org_props(t, org_id);
        assert(forall|i: int| 0 <= i < t.len() ==> #[trigger] t[i] == s[i]);
    }
}

proof fn lemma_notes_without_org_props(s: Seq<Note>, org_id: PrefixedUuid)
    ensures
        notes_without_org(s, org_id).len() <= s.len(),
        forall|k: int| 0 <= k < notes_without_org(s, org_id).len()
            ==> (#[trigger] notes_without_org(s, org_id)[k]).org_id != org_id,
        forall|k: int| 0 <= k < notes_without_org(s, org_id).len()
            ==> exists|i: int| 0 <= i < s.len()
                && s[i] == #[trigger] notes_without_org(s, org_id)[k],
        notes_wf(s) ==> notes_wf(notes_without_org(s, org_id)),
    decreases s.len(),
{
    if s.len() > 0 {
        let t = s.drop_last();
        lemma_notes_without_org_props(t, org_id);
        assert(forall|i: int| 0 <= i < t.len() ==> #[trigger] t[i] == s[i]);
    }
}

proof fn lemma_contacts_without_org_props(s: Seq<Contact>, org_id: PrefixedUuid)
    ensures
        contacts_without_org(s, org_id).len() <= s.len(),
        forall|k: int| 0 <= k < contacts_without_org(s, org_id).len()
            ==> (#[trigger] contacts_without_org(s, org_id)[k]).org_id != org_id,
        forall|k: int| 0 <= k < contacts_without_org(s, org_id).len()
            ==> exists|i: int| 0 <= i < s.len()
                && s[i] == #[trigger] contacts_without_org(s, org_id)[k],
        contacts_wf(s) ==> contacts_wf(contacts_without_org(s, org_id)),
    decreases s.len(),
{
    if s.len() > 0 {
        let t = s.drop_last();
        lemma_contacts_without_org_props(t, org_id);
        assert(forall|i: int| 0 <= i < t.len() ==> #[trigger] t[i] == s[i]);
    }
}

proof fn lemma_deals_without_org_props(s: Seq<Deal>, org_id: PrefixedUuid)
    ensures
        deals_without_org(s, org_id).len() <= s.len(),
        forall|k: int| 0 <= k < deals_without_org(s, org_id).len()
            ==> (#[trigger] deals_without_org(s, org_id)[k]).org_id != org_id,
        forall|k: int| 0 <= k < deals_without_org(s, org_id).len()
            ==> exists|i: int| 0 <= i < s.len()
                && s[i] == #[trigger] deals_without_org(s, org_id)[k],
        deals_wf(s) ==> deals_wf(deals_without_org(s, org_id)),
    decreases s.len(),
{
    if s.len() > 0 {
        let t = s.drop_last();
        lemma_deals_without_org_props(t, org_id);
        assert(forall|i: int| 0 <= i < t.len() ==> #[trigger] t[i] == s[i]);
    }
}

proof fn lemma_weblinks_without_org_props(s: Seq<Link>, org_id: PrefixedUuid)
    ensures
        weblinks_without_org(s, org_id).len() <= s.len(),
        forall|k: int| 0 <= k < weblinks_without_org(s, org_id).len()
            ==> (#[trigger] weblinks_without_org(s, org_id)[k]).org_id != org_id,
        forall|k: int| 0 <= k < weblinks_without_org(s, org_id).len()
            ==> exists|i: int| 0 <= i < s.len()
                && s[i] == #[trigger] weblinks_without_org(s, org_id)[k],
        links_wf(s) ==> links_wf(weblinks_without_org(s, org_id)),
    decreases s.len(),
{
    if s.len() > 0 {
        let t = s.drop_last();
        lemma_weblinks_without_org_props(t, org_id);
        assert(forall|i: int| 0 <= i < t.len() ==> #[trigger] t[i] == s[i]);
    }
}

proof fn lemma_emails_without_org_props(s: Seq<Email>, org_id: PrefixedUuid)
    ensures
        emails_without_org(s, org_id).len() <= s.len(),
        forall|k: int| 0 <= k < emails_without_org(s, org_id).len()
            ==> (#[trigger] emails_without_org(s, org_id)[k]).org_id != org_id,
        forall|k: int| 0 <= k < emails_without_org(s, org_id).len()
            ==> exists|i: int| 0 <= i < s.len()
                && s[i] == #[trigger] emails_without_org(s, org_id)[k],
        emails_wf(s) ==> emails_wf(emails_without_org(s, org_id)),
    decreases s.len(),
{
    if s.len() > 0 {
        let t = s.drop_last();
        lemma_emails_without_org_props(t, org_id);
        assert(forall|i: int| 0 <= i < t.len() ==> #[trigger] t[i] == s[i]);
    }
}

proof fn lemma_phones_without_org_props(s: Seq<Phone>, org_id: PrefixedUuid)
    ensures
        phones_without_org(s, org_id).len() <= s.len(),
        forall|k: int| 0 <= k < phones_without_org(s, org_id).len()
            ==> (#[trigger] phones_without_org(s, org_id)[k]).org_id != org_id,
        forall|k: int| 0 <= k < phones_without_org(s, org_id).len()
            ==> exists|i: int| 0 <= i < s.len()
                && s[i] == #[trigger] phones_without_org(s, org_id)[k],
        phones_wf(s) ==> phones_wf(phones_without_org(s, org_id)),
    decreases s.len(),
{
    if s.len() > 0 {
        let t = s.drop_last();
        lemma_phones_without_org_props(t, org_id);
        assert(forall|i: int| 0 <= i < t.len() ==> #[trigger] t[i] == s[i]);
    }
}

proof fn lemma_tasks_without_org_props(s: Seq<Task>, org_id: PrefixedUuid)
    ensures
        tasks_without_org(s, org_id).len() <= s.len(),
        forall|k: int| 0 <= k < tasks_without_org(s, org_id).len()
            ==> (#[trigger] tasks_without_org(s, org_id)[k]).org_id != org_id,
        forall|k: int| 0 <= k < tasks_without_org(s, org_id).len()
            ==> exists|i: int| 0 <= i < s.len()
                && s[i] == #[trigger] tasks_without_org(s, org_id)[k],
        tasks_wf(s) ==> tasks_wf(tasks_without_org(s, org_id)),
    decreases s.len(),
{
    if s.len() > 0 {
        let t = s.drop_last();
        lemma_tasks_without_org_props(t, org_id);
        assert(forall|i: int| 0 <= i < t.len() ==> #[trigger] t[i] == s[i]);
    }
}

proof fn lemma_invitations_without_org_props(s: Seq<Invitation>, org_id: PrefixedUuid)
    ensures
        invitations_without_org(s, org_id).len() <= s.len(),
        forall|k: int| 0 <= k < invitations_without_org(s, org_id).len()
            ==> (#[trigger] invitations_without_org(s, org_id)[k]).organization_id != org_id,
        forall|k: int| 0 <= k < invitations_without_org(s, org_id).len()
            ==> exists|i: int| 0 <= i < s.len()
                && s[i] == #[trigger] invitations_without_org(s, org_id)[k],
        invitations_wf(s) ==> invitations_wf(invitations_without_org(s, org_id)),
    decreases s.len(),
{
    if s.len() > 0 {
        let t = s.drop_last();
        lemma_invitations_without_org_props(t, org_id);
        assert(forall|i: int| 0 <= i < t.len() ==> #[trigger] t[i] == s[i]);
    }
}

fn retain_links_except_org(v: &mut Vec<OrgUserLink>, org_id: PrefixedUuid)
    ensures
        final(v)@ == links_without_org(old(v)@, org_id),
{
    let ghost orig = v@;
    let n = v.len();
    let mut out: Vec<OrgUserLink> = Vec::new();
    let mut i: usize = 0;
    while i < n
        invariant
            0 <= i <= n,
            n == orig.len(),
            v@ == orig,
            out@ == links_without_org(orig.take(i as int), org_id),
        decreases n - i,
    {
        proof {
            assert(orig.take(i + 1).drop_last() =~= orig.take(i as int));
            assert(orig.take(i + 1).last() == orig[i as int]);
        }
        if !(v[i].org_id == org_id) {
            let kept = v[i];
            out.push(kept);
        }
        i = i + 1;
    }
    proof {
        assert(orig.take(n as int) =~= orig);
    }
    *v = out;
}

fn retain_notes_except_org(v: &mut Vec<Note>, org_id: PrefixedUuid)
    ensures
        final(v)@ == notes_without_org(old(v)@, org_id),
{
    let ghost orig = v@;
    let n = v.len();
    let mut out: Vec<Note> = Vec::new();
    let mut i: usize = 0;
    while i < n
        invariant
            0 <= i <= n,
            n == orig.len(),
            v@ == orig,
            out@ == notes_without_org(orig.take(i as int), org_id),
        decreases n - i,
    {
        proof {
            assert(orig.take(i + 1).drop_last() =~= orig.take(i as int));
            assert(orig.take(i + 1).last() == orig[i as int]);
        }
        if !(v[i].org_id == org_id) {
            let kept = v[i].clone();
            out.push(kept);
        }
        i = i + 1;
    }
    proof {
        assert(orig.take(n as int) =~= orig);
    }
    *v = out;
}

fn retain_contacts_except_org(v: &mut Vec<Contact>, org_id: PrefixedUuid)
    ensures
        final(v)@ == contacts_without_org(old(v)@, org_id),
{
    let ghost orig = v@;
    let n = v.len();
    let mut out: Vec<Contact> = Vec::new();
    let mut i: usize = 0;
    while i < n
        invariant
            0 <= i <= n,
            n == orig.len(),
            v@ == orig,
            out@ == contacts_without_org(orig.take(i as int), org_id),
        decreases n - i,
    {
        proof {
            assert(orig.take(i + 1).drop_last() =~= orig.take(i as int));
            assert(orig.take(i + 1).last() == orig[i as int]);
        }
        if !(v[i].org_id == org_id) {
            let kept = v[i].clone();
            out.push(kept);
        }
        i = i + 1;
    }
    proof {
        assert(orig.take(n as int) =~= orig);
    }
    *v = out;
}

fn retain_deals_except_org(v: &mut Vec<Deal>, org_id: PrefixedUuid)
    ensures
        final(v)@ == deals_without_org(old(v)@, org_id),
{
    let ghost orig = v@;
    let n = v.len();
    let mut out: Vec<Deal> = Vec::new();
    let mut i: usize = 0;
    while i < n
        invariant
            0 <= i <= n,
            n == orig.len(),
            v@ == orig,
            out@ == deals_without_org(orig.take(i as int), org_id),
        decreases n - i,
    {
        proof {
            assert(orig.take(i + 1).drop_last() =~= orig.take(i as int));
            assert(orig.take(i + 1).last() == orig[i as int]);
        }
        if !(v[i].org_id == org_id) {
            let kept = v[i].clone();
            out.push(kept);
        }
        i = i + 1;
    }
    proof {
        assert(orig.take(n as int) =~= orig);
    }
    *v = out;
}

fn retain_weblinks_except_org(v: &mut Vec<Link>, org_id: PrefixedUuid)
    ensures
        final(v)@ == weblinks_without_org(old(v)@, org_id),
{
    let ghost orig = v@;
    let n = v.len();
    let mut out: Vec<Link> = Vec::new();
    let mut i: usize = 0;
    while i < n
        invariant
            0 <= i <= n,
            n == orig.len(),
            v@ == orig,
            out@ == weblinks_without_org(orig.take(i as int), org_id),
        decreases n - i,
    {
        proof {
            assert(orig.take(i + 1).drop_last() =~= orig.take(i as int));
            assert(orig.take(i + 1).last() == orig[i as int]);
        }
        if !(v[i].org_id == org_id) {
            let kept = v[i].clone();
            out.push(kept);
        }
        i = i + 1;
    }
    proof {
        assert(orig.take(n as int) =~= orig);
    }
    *v = out;
}

fn retain_emails_except_org(v: &mut Vec<Email>, org_id: PrefixedUuid)
    ensures
        final(v)@ == emails_without_org(old(v)@, org_id),
{
    let ghost orig = v@;
    let n = v.len();
    let mut out: Vec<Email> = Vec::new();
    let mut i: usize = 0;
    while i < n
        invariant
            0 <= i <= n,
            n == orig.len(),
            v@ == orig,
            out@ == emails_without_org(orig.take(i as int), org_id),
        decreases n - i,
    {
        proof {
            assert(orig.take(i + 1).drop_last() =~= orig.take(i as int));
            assert(orig.take(i + 1).last() == orig[i as int]);
        }
        if !(v[i].org_id == org_id) {
            let kept = v[i].clone();
            out.push(kept);
        }
        i = i + 1;
    }
    proof {
        assert(orig.take(n as int) =~= orig);
    }
    *v = out;
}

fn retain_phones_except_org(v: &mut Vec<Phone>, org_id: PrefixedUuid)
    ensures
        final(v)@ == phones_without_org(old(v)@, org_id),
{
    let ghost orig = v@;
    let n = v.len();
    let mut out: Vec<Phone> = Vec::new();
    let mut i: usize = 0;
    while i < n
        invariant
            0 <= i <= n,
            n == orig.len(),
            v@ == orig,
            out@ == phones_without_org(orig.take(i as int), org_id),
        decreases n - i,
    {
        proof {
            assert(orig.take(i + 1).drop_last() =~= orig.take(i as int));
            assert(orig.take(i + 1).last() == orig[i as int]);
        }
        if !(v[i].org_id == org_id) {
            let kept = v[i].clone();
            out.push(kept);
        }
        i = i + 1;
    }
    proof {
        assert(orig.take(n as int) =~= orig);
    }
    *v = out;
}

fn retain_tasks_except_org(v: &mut Vec<Task>, org_id: PrefixedUuid)
    ensures
        final(v)@ == tasks_without_org(old(v)@, org_id),
{
    let ghost orig = v@;
    let n = v.len();
    let mut out: Vec<Task> = Vec::new();
    let mut i: usize = 0;
    while i < n
        invariant
            0 <= i <= n,
            n == orig.len(),
            v@ == orig,
            out@ == tasks_without_org(orig.take(i as int), org_id),
        decreases n - i,
    {
        proof {
            assert(orig.take(i + 1).drop_last() =~= orig.take(i as int));
            assert(orig.take(i + 1).last() == orig[i as int]);
        }
        if !(v[i].org_id == org_id) {
            let kept = v[i].clone();
            out.push(kept);
        }
        i = i + 1;
    }
    proof {
        assert(orig.take(n as int) =~= orig);
    }
    *v = out;
}

fn retain_invitations_except_org(v: &mut Vec<Invitation>, org_id: PrefixedUuid)
    ensures
        final(v)@ == invitations_without_org(old(v)@, org_id),
{
    let ghost orig = v@;
    let n = v.len();
    let mut out: Vec<Invitation> = Vec::new();
    let mut i: usize = 0;
    while i < n
        invariant
            0 <= i <= n,
            n == orig.len(),
            v@ == orig,
            out@ == invitations_without_org(orig.take(i as int), org_id),
        decreases n - i,
    {
        proof {
            assert(orig.take(i + 1).drop_last() =~= orig.take(i as int));
            assert(orig.take(i + 1).last() == orig[i as int]);
        }
        if !(v[i].organization_id == org_id) {
            let kept = v[i].clone();
            out.push(kept);
        }
        i = i + 1;
    }
    proof {
        assert(orig.take(n as int) =~= orig);
    }
    *v = out;
}

} // verus!
