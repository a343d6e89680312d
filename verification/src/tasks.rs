//! Tasks and their associations with deals, links and users.
//!
//! A task belongs to an organization and may point at a contact.
//! Association rows tie a task to any number of deals, links and users;
//! they carry their own identifiers and are created and deleted
//! independently of the task.  Listing a task's deals, links or users
//! joins the association rows with the owning tables, so an association
//! row whose far end no longer exists yields nothing.

use vstd::prelude::*;
use crate::errors::ServiceError;
use crate::ids::{PrefixedUuid, ResourceTag};
use crate::models::{Deal, Link, Task, TaskDeal, TaskLink, TaskUser, User};
use crate::store::{page_opt, page_vec, Backend};

verus! {

pub open spec fn has_task_id(s: Seq<Task>, id: PrefixedUuid) -> bool {
    exists|i: int| 0 <= i < s.len() && #[trigger] s[i].id == id
}

/// The index of the task with the given identifier.
fn find_task_by_id(v: &Vec<Task>, id: PrefixedUuid) -> (r: Option<usize>)
    ensures
        match r {
            Some(i) => i < v@.len() && v@[i as int].id == id,
            None => !has_task_id(v@, id),
        },
{
    let n = v.len();
    let mut i: usize = 0;
    while i < n
        invariant
            0 <= i <= n,
            n == v@.len(),
            forall|j: int| 0 <= j < i ==> (#[trigger] v@[j]).id != id,
        decreases n - i,
    {
        if v[i].id == id {
            return Some(i);
        }
        i = i + 1;
    }
    None
}

pub open spec fn has_task_deal(s: Seq<TaskDeal>, task_id: PrefixedUuid, deal_id: PrefixedUuid)
    -> bool {
    exists|i: int| 0 <= i < s.len()
        && (#[trigger] s[i]).task_id == task_id && s[i].deal_id == deal_id
}

pub open spec fn has_task_link(s: Seq<TaskLink>, task_id: PrefixedUuid, link_id: PrefixedUuid)
    -> bool {
    exists|i: int| 0 <= i < s.len()
        && (#[trigger] s[i]).task_id == task_id && s[i].link_id == link_id
}

pub open spec fn has_task_user(s: Seq<TaskUser>, task_id: PrefixedUuid, user_id: PrefixedUuid)
    -> bool {
    exists|i: int| 0 <= i < s.len()
        && (#[trigger] s[i]).task_id == task_id && s[i].user_id == user_id
}

/// The task-deal rows other than those tying `task_id` to `deal_id`,
/// in stored order.
pub open spec fn task_deals_without_pair(s: Seq<TaskDeal>, task_id: PrefixedUuid, deal_id:
    PrefixedUuid) -> Seq<TaskDeal>
    decreases s.len(),
{
    if s.len() == 0 {
        s
    } else {
        let rest = task_deals_without_pair(s.drop_last(), task_id, deal_id);
        if !(s.last().task_id == task_id && s.last().deal_id == deal_id) {
            rest.push(s.last())
        } else {
            rest
        }
    }
}

/// The task-link rows other than those tying `task_id` to `link_id`,
/// in stored order.
pub open spec fn task_links_without_pair(s: Seq<TaskLink>, task_id: PrefixedUuid, link_id:
    PrefixedUuid) -> Seq<TaskLink>
    decreases s.len(),
{
    if s.len() == 0 {
        s
    } else {
        let rest = task_links_without_pair(s.drop_last(), task_id, link_id);
        if !(s.last().task_id == task_id && s.last().link_id == link_id) {
            rest.push(s.last())
        } else {
            rest
        }
    }
}

/// The task-user rows other than those tying `task_id` to `user_id`,
/// in stored order.
pub open spec fn task_users_without_pair(s: Seq<TaskUser>, task_id: PrefixedUuid, user_id:
    PrefixedUuid) -> Seq<TaskUser>
    decreases s.len(),
{
    if s.len() == 0 {
        s
    } else {
        let rest = task_users_without_pair(s.drop_last(), task_id, user_id);
        if !(s.last().task_id == task_id && s.last().user_id == user_id) {
            rest.push(s.last())
        } else {
            rest
        }
    }
}

/// The deals associated with the task, in deal-table order.
pub open spec fn deals_of_task(deals: Seq<Deal>, assoc: Seq<TaskDeal>, task_id: PrefixedUuid)
    -> Seq<Deal>
    decreases deals.len(),
{
    if deals.len() == 0 {
        deals
    } else {
        let rest = deals_of_task(deals.drop_last(), assoc, task_id);
        if has_task_deal(assoc, task_id, deals.last().id) {
            rest.push(deals.last())
        } else {
            rest
        }
    }
}

/// The links associated with the task, in link-table order.
pub open spec fn links_of_task(links: Seq<Link>, assoc: Seq<TaskLink>, task_id: PrefixedUuid)
    -> Seq<Link>
    decreases links.len(),
{
    if links.len() == 0 {
        links
    } else {
        let rest = links_of_task(links.drop_last(), assoc, task_id);
        if has_task_link(assoc, task_id, links.last().id) {
            rest.push(links.last())
        } else {
            rest
        }
    }
}

/// The users associated with the task, in user-table order.
pub open spec fn users_of_task(users: Seq<User>, assoc: Seq<TaskUser>, task_id: PrefixedUuid)
    -> Seq<User>
    decreases users.len(),
{
    if users.len() == 0 {
        users
    } else {
        let rest = users_of_task(users.drop_last(), assoc, task_id);
        if has_task_user(assoc, task_id, users.last().id) {
            rest.push(users.last())
        } else {
            rest
        }
    }
}

impl Backend {
    /// Stores the given task record; rejected, and the state left
    /// unchanged, exactly when its identifier is already taken.
    pub fn insert_task(&mut self, task: Task) -> (r: Result<(), ServiceError>)
        requires
            old(self).wf(),
            task.id.prefix == ResourceTag::Task,
            task.org_id.prefix == ResourceTag::Org,
        ensures
            final(self).wf(),
            final(self).same_except_tasks(*old(self)),
            has_task_id(old(self).tasks@, task.id)
                ==> (r matches Err(ServiceError::InternalServerError(m))
                    && m@ == "Error creating task"@
                    && final(self).tasks@ == old(self).tasks@),
            !has_task_id(old(self).tasks@, task.id)
                ==> r is Ok && final(self).tasks@ == old(self).tasks@.push(task),
    {
        if find_task_by_id(&self.tasks, task.id).is_some() {
            return Err(ServiceError::InternalServerError(String::from_str(
                "Error creating task")));
        }
        self.tasks.push(task);
        Ok(())
    }

    /// Stores a fresh task under the organization.
    pub fn create_task_query(&mut self, org_id: PrefixedUuid, contact_id: Option<PrefixedUuid>,
        description: Option<String>, deadline: Option<i64>) -> (r: Result<Task, ServiceError>)
        requires
            old(self).wf(),
            org_id.prefix == ResourceTag::Org,
        ensures
            final(self).wf(),
            final(self).same_except_tasks(*old(self)),
            (r matches Ok(x) ==> x.org_id == org_id && x.contact_id == contact_id
                && x.description == description && x.deadline == deadline
                && final(self).tasks@ == old(self).tasks@.push(x)),
            (r matches Err(e) ==> final(self).tasks@ == old(self).tasks@
                && (e matches ServiceError::InternalServerError(m)
                    && m@ == "Error creating task"@)),
            (r matches Err(_) ==> old(self).tasks@.len() > 0),
    {
        let task = Task::from_details(org_id, deadline, description, contact_id);
        let ret = task.clone();
        self.insert_task(task)?;
        Ok(ret)
    }

    /// The task with the given identifier; `NotFound` otherwise.
    pub fn get_task_by_id(&self, task_id: PrefixedUuid) -> (r: Result<Task, ServiceError>)
        requires
            self.wf(),
        ensures
            (r matches Ok(x) <==> has_task_id(self.tasks@, task_id)),
            (r matches Ok(x) ==> x.id == task_id
                && exists|i: int| 0 <= i < self.tasks@.len() && #[trigger] self.tasks@[i] == x),
            (r matches Err(e) ==> e == ServiceError::NotFound),
    {
        match find_task_by_id(&self.tasks, task_id) {
            Some(i) => Ok(self.tasks[i].clone()),
            None => Err(ServiceError::NotFound),
        }
    }

    /// Deletes the task; its association rows stay and are simply never
    /// joined again.  Deleting an absent task succeeds and changes
    /// nothing.
    pub fn delete_task_query(&mut self, task_id: PrefixedUuid) -> (r: Result<(), ServiceError>)
        requires
            old(self).wf(),
        ensures
            final(self).wf(),
            final(self).same_except_tasks(*old(self)),
            r matches Ok(_),
            !has_task_id(final(self).tasks@, task_id),
            !has_task_id(old(self).tasks@, task_id) ==> final(self).tasks@ == old(self).tasks@,
            has_task_id(old(self).tasks@, task_id)
                ==> exists|i: int| 0 <= i < old(self).tasks@.len()
                    && (#[trigger] old(self).tasks@[i]).id == task_id
                    && final(self).tasks@ == old(self).tasks@.remove(i),
    {
        match find_task_by_id(&self.tasks, task_id) {
            Some(i) => {
                self.tasks.remove(i);
                proof {
                    let pre = old(self).tasks@;
                    let post = self.tasks@;
                    assert forall|k: int| 0 <= k < post.len()
                        implies (#[trigger] post[k]).id != task_id
                            && post[k].id.prefix == ResourceTag::Task
                            && post[k].org_id.prefix == ResourceTag::Org by {
                        if k < i {
                            assert(post[k] == pre[k]);
                        } else {
                            assert(post[k] == pre[k + 1]);
                        }
                    }
                    assert forall|a: int, b: int| #![trigger post[a], post[b]]
                        0 <= a < b < post.len() implies post[a].id != post[b].id by {
                        let pa: int = if a < i { a } else { a + 1 };
                        let pb: int = if b < i { b } else { b + 1 };
                        assert(post[a] == pre[pa]);
                        assert(post[b] == pre[pb]);
                    }
                }
                Ok(())
            }
            None => Ok(()),
        }
    }

    /// Replaces the task's supplied fields, keeping the rest; the
    /// service's updating error when the task does not exist.
    pub fn update_task_query(&mut self, task_id: PrefixedUuid, description: Option<String>,
        deadline: Option<i64>, contact_id: Option<PrefixedUuid>) -> (r: Result<Task,
        ServiceError>)
        requires
            old(self).wf(),
        ensures
            final(self).wf(),
            final(self).same_except_tasks(*old(self)),
            !has_task_id(old(self).tasks@, task_id)
                ==> final(self).tasks@ == old(self).tasks@
                    && (r matches Err(e) && (e matches ServiceError::InternalServerError(m)
                        && m@ == "Error updating task"@)),
            has_task_id(old(self).tasks@, task_id)
                ==> (r matches Ok(x) && x.id == task_id
                    && exists|i: int| 0 <= i < old(self).tasks@.len()
                        && (#[trigger] old(self).tasks@[i]).id == task_id
                        && x.description == (match description {
                            Some(d) => Some(d),
                            None => old(self).tasks@[i].description,
                        })
                        && x.deadline == (match deadline {
                            Some(d) => Some(d),
                            None => old(self).tasks@[i].deadline,
                        })
                        && x.contact_id == (match contact_id {
                            Some(c) => Some(c),
                            None => old(self).tasks@[i].contact_id,
                        })
                        && x.org_id == old(self).tasks@[i].org_id
                        && x.created_at == old(self).tasks@[i].created_at
                        && x.updated_at == old(self).tasks@[i].updated_at
                        && final(self).tasks@ == old(self).tasks@.update(i, x)),
    {
        match find_task_by_id(&self.tasks, task_id) {
            Some(i) => {
                let mut rec = self.tasks[i].clone();
                match description {
                    Some(d) => {
                        rec.description = Some(d);
                    }
                    None => {}
                }
                match deadline {
                    Some(d) => {
                        rec.deadline = Some(d);
                    }
                    None => {}
                }
                match contact_id {
                    Some(c) => {
                        rec.contact_id = Some(c);
                    }
                    None => {}
                }
                let ret = rec.clone();
                self.tasks[i] = rec;
                proof {
                    let pre = old(self).tasks@;
                    let post = self.tasks@;
                    assert forall|a: int, b: int| #![trigger post[a], post[b]]
                        0 <= a < b < post.len() implies post[a].id != post[b].id by {
                        assert(pre[a].id != pre[b].id);
                    }
                }
                Ok(ret)
            }
            None => Err(ServiceError::InternalServerError(String::from_str(
                "Error updating task"))),
        }
    }
}

/// The index of a task_deal row for the given pair.
fn find_task_deal_pair(v: &Vec<TaskDeal>, task_id: PrefixedUuid, deal_id: PrefixedUuid) -> (r:
    Option<usize>)
    ensures
        match r {
            Some(i) => i < v@.len() && v@[i as int].task_id == task_id
                && v@[i as int].deal_id == deal_id,
            None => !has_task_deal(v@, task_id, deal_id),
        },
{
    let n = v.len();
    let mut i: usize = 0;
    while i < n
        invariant
            0 <= i <= n,
            n == v@.len(),
            forall|j: int| 0 <= j < i
                ==> !((#[trigger] v@[j]).task_id == task_id && v@[j].deal_id == deal_id),
        decreases n - i,
    {
        if v[i].task_id == task_id && v[i].deal_id == deal_id {
            return Some(i);
        }
        i = i + 1;
    }
    None
}

/// Whether some task_deal row carries the given row identifier.
fn task_deal_id_taken(v: &Vec<TaskDeal>, id: u128) -> (r: bool)
    ensures
        r == exists|i: int| 0 <= i < v@.len() && (#[trigger] v@[i]).id == id,
{
    let n = v.len();
    let mut i: usize = 0;
    while i < n
        invariant
            0 <= i <= n,
            n == v@.len(),
            forall|j: int| 0 <= j < i ==> (#[trigger] v@[j]).id != id,
        decreases n - i,
    {
        if v[i].id == id {
            return true;
        }
        i = i + 1;
    }
    false
}

/// Filtering the task_deal rows keeps rows of other pairs only, drawn
/// from the original table, with uniqueness of row identifiers intact.
proof fn lemma_task_deals_without_pair_props(s: Seq<TaskDeal>, task_id: PrefixedUuid, deal_id:
    PrefixedUuid)
    ensures
        task_deals_without_pair(s, task_id, deal_id).len() <= s.len(),
        forall|k: int| 0 <= k < task_deals_without_pair(s, task_id, deal_id).len()
            ==> !((#[trigger] task_deals_without_pair(s, task_id, deal_id)[k]).task_id == task_id
                && task_deals_without_pair(s, task_id, deal_id)[k].deal_id == deal_id),
        forall|k: int| 0 <= k < task_deals_without_pair(s, task_id, deal_id).len()
            ==> exists|i: int| 0 <= i < s.len()
                && s[i] == #[trigger] task_deals_without_pair(s, task_id, deal_id)[k],
        crate::store::task_deals_wf(s)
            ==> crate::store::task_deals_wf(task_deals_without_pair(s, task_id, deal_id)),
    decreases s.len(),
{
    if s.len() > 0 {
        let t = s.drop_last();
        lemma_task_deals_without_pair_props(t, task_id, deal_id);
        assert(forall|i: int| 0 <= i < t.len() ==> #[trigger] t[i] == s[i]);
    }
}

impl Backend {
    /// Stores the given task deal row; rejected, and the state left
    /// unchanged, exactly when its row identifier is already taken.
    pub fn insert_task_deal(&mut self, row: TaskDeal) -> (r: Result<(), ServiceError>)
        requires
            old(self).wf(),
        ensures
            final(self).wf(),
            final(self).same_except_task_deals(*old(self)),
            (exists|i: int| 0 <= i < old(self).task_deals@.len()
                && (#[trigger] old(self).task_deals@[i]).id == row.id)
                ==> (r matches Err(ServiceError::InternalServerError(m))
                    && m@ == "Error creating task deal"@
                    && final(self).task_deals@ == old(self).task_deals@),
            !(exists|i: int| 0 <= i < old(self).task_deals@.len()
                && (#[trigger] old(self).task_deals@[i]).id == row.id)
                ==> r is Ok && final(self).task_deals@ == old(self).task_deals@.push(row),
    {
        if task_deal_id_taken(&self.task_deals, row.id) {
            return Err(ServiceError::InternalServerError(String::from_str(
                "Error creating task deal")));
        }
        self.task_deals.push(row);
        Ok(())
    }

    /// Associates the deal with the task.
    pub fn create_deal_for_task_query(&mut self, task_id: PrefixedUuid, deal_id: PrefixedUuid)
        -> (r: Result<TaskDeal, ServiceError>)
        requires
            old(self).wf(),
        ensures
            final(self).wf(),
            final(self).same_except_task_deals(*old(self)),
            (r matches Ok(x) ==> x.task_id == task_id && x.deal_id == deal_id
                && final(self).task_deals@ == old(self).task_deals@.push(x)),
            (r matches Err(e) ==> final(self).task_deals@ == old(self).task_deals@
                && (e matches ServiceError::InternalServerError(m)
                    && m@ == "Error creating task deal"@)),
            (r matches Err(_) ==> old(self).task_deals@.len() > 0),
    {
        let row = TaskDeal::from_details(task_id, deal_id);
        self.insert_task_deal(row)?;
        Ok(row)
    }

    /// Drops every association of the deal with the task; dropping an
    /// absent association succeeds and changes nothing.
    pub fn delete_deal_from_task_query(&mut self, task_id: PrefixedUuid, deal_id: PrefixedUuid)
        -> (r: Result<(), ServiceError>)
        requires
            old(self).wf(),
        ensures
            final(self).wf(),
            final(self).same_except_task_deals(*old(self)),
            r matches Ok(_),
            final(self).task_deals@ == task_deals_without_pair(old(self).task_deals@, task_id, deal_id),
            !has_task_deal(final(self).task_deals@, task_id, deal_id),
    {
        let ghost orig = self.task_deals@;
        let n = self.task_deals.len();
        let mut out: Vec<TaskDeal> = Vec::new();
        let mut i: usize = 0;
        while i < n
            invariant
                0 <= i <= n,
                n == orig.len(),
                self.task_deals@ == orig,
                out@ == task_deals_without_pair(orig.take(i as int), task_id, deal_id),
            decreases n - i,
        {
            proof {
                assert(orig.take(i + 1).drop_last() =~= orig.take(i as int));
                assert(orig.take(i + 1).last() == orig[i as int]);
            }
            if !(self.task_deals[i].task_id == task_id && self.task_deals[i].deal_id == deal_id) {
                let kept = self.task_deals[i];
                out.push(kept);
            }
            i = i + 1;
        }
        proof {
            assert(orig.take(n as int) =~= orig);
        }
        self.task_deals = out;
        proof {
            lemma_task_deals_without_pair_props(orig, task_id, deal_id);
        }
        Ok(())
    }
}

/// The index of a task_link row for the given pair.
fn find_task_link_pair(v: &Vec<TaskLink>, task_id: PrefixedUuid, link_id: PrefixedUuid) -> (r:
    Option<usize>)
    ensures
        match r {
            Some(i) => i < v@.len() && v@[i as int].task_id == task_id
                && v@[i as int].link_id == link_id,
            None => !has_task_link(v@, task_id, link_id),
        },
{
    let n = v.len();
    let mut i: usize = 0;
    while i < n
        invariant
            0 <= i <= n,
            n == v@.len(),
            forall|j: int| 0 <= j < i
                ==> !((#[trigger] v@[j]).task_id == task_id && v@[j].link_id == link_id),
        decreases n - i,
    {
        if v[i].task_id == task_id && v[i].link_id == link_id {
            return Some(i);
        }
        i = i + 1;
    }
    None
}

/// Whether some task_link row carries the given row identifier.
fn task_link_id_taken(v: &Vec<TaskLink>, id: u128) -> (r: bool)
    ensures
        r == exists|i: int| 0 <= i < v@.len() && (#[trigger] v@[i]).id == id,
{
    let n = v.len();
    let mut i: usize = 0;
    while i < n
        invariant
            0 <= i <= n,
            n == v@.len(),
            forall|j: int| 0 <= j < i ==> (#[trigger] v@[j]).id != id,
        decreases n - i,
    {
        if v[i].id == id {
            return true;
        }
        i = i + 1;
    }
    false
}

/// Filtering the task_link rows keeps rows of other pairs only, drawn
/// from the original table, with uniqueness of row identifiers intact.
proof fn lemma_task_links_without_pair_props(s: Seq<TaskLink>, task_id: PrefixedUuid, link_id:
    PrefixedUuid)
    ensures
        task_links_without_pair(s, task_id, link_id).len() <= s.len(),
        forall|k: int| 0 <= k < task_links_without_pair(s, task_id, link_id).len()
            ==> !((#[trigger] task_links_without_pair(s, task_id, link_id)[k]).task_id == task_id
                && task_links_without_pair(s, task_id, link_id)[k].link_id == link_id),
        forall|k: int| 0 <= k < task_links_without_pair(s, task_id, link_id).len()
            ==> exists|i: int| 0 <= i < s.len()
                && s[i] == #[trigger] task_links_without_pair(s, task_id, link_id)[k],
        crate::store::task_links_wf(s)
            ==> crate::store::task_links_wf(task_links_without_pair(s, task_id, link_id)),
    decreases s.len(),
{
    if s.len() > 0 {
        let t = s.drop_last();
        lemma_task_links_without_pair_props(t, task_id, link_id);
        assert(forall|i: int| 0 <= i < t.len() ==> #[trigger] t[i] == s[i]);
    }
}

impl Backend {
    /// Stores the given task link row; rejected, and the state left
    /// unchanged, exactly when its row identifier is already taken.
    pub fn insert_task_link(&mut self, row: TaskLink) -> (r: Result<(), ServiceError>)
        requires
            old(self).wf(),
        ensures
            final(self).wf(),
            final(self).same_except_task_links(*old(self)),
            (exists|i: int| 0 <= i < old(self).task_links@.len()
                && (#[trigger] old(self).task_links@[i]).id == row.id)
                ==> (r matches Err(ServiceError::InternalServerError(m))
                    && m@ == "Error creating task link"@
                    && final(self).task_links@ == old(self).task_links@),
            !(exists|i: int| 0 <= i < old(self).task_links@.len()
                && (#[trigger] old(self).task_links@[i]).id == row.id)
                ==> r is Ok && final(self).task_links@ == old(self).task_links@.push(row),
    {
        if task_link_id_taken(&self.task_links, row.id) {
            return Err(ServiceError::InternalServerError(String::from_str(
                "Error creating task link")));
        }
        self.task_links.push(row);
        Ok(())
    }

    /// Associates the link with the task.
    pub fn create_link_for_task_query(&mut self, task_id: PrefixedUuid, link_id: PrefixedUuid)
        -> (r: Result<TaskLink, ServiceError>)
        requires
            old(self).wf(),
        ensures
            final(self).wf(),
            final(self).same_except_task_links(*old(self)),
            (r matches Ok(x) ==> x.task_id == task_id && x.link_id == link_id
                && final(self).task_links@ == old(self).task_links@.push(x)),
            (r matches Err(e) ==> final(self).task_links@ == old(self).task_links@
                && (e matches ServiceError::InternalServerError(m)
                    && m@ == "Error creating task link"@)),
            (r matches Err(_) ==> old(self).task_links@.len() > 0),
    {
        let row = TaskLink::from_details(task_id, link_id);
        self.insert_task_link(row)?;
        Ok(row)
    }

    /// Drops every association of the link with the task; dropping an
    /// absent association succeeds and changes nothing.
    pub fn delete_link_from_task_query(&mut self, task_id: PrefixedUuid, link_id: PrefixedUuid)
        -> (r: Result<(), ServiceError>)
        requires
            old(self).wf(),
        ensures
            final(self).wf(),
            final(self).same_except_task_links(*old(self)),
            r matches Ok(_),
            final(self).task_links@ == task_links_without_pair(old(self).task_links@, task_id, link_id),
            !has_task_link(final(self).task_links@, task_id, link_id),
    {
        let ghost orig = self.task_links@;
        let n = self.task_links.len();
        let mut out: Vec<TaskLink> = Vec::new();
        let mut i: usize = 0;
        while i < n
            invariant
                0 <= i <= n,
                n == orig.len(),
                self.task_links@ == orig,
                out@ == task_links_without_pair(orig.take(i as int), task_id, link_id),
            decreases n - i,
        {
            proof {
                assert(orig.take(i + 1).drop_last() =~= orig.take(i as int));
                assert(orig.take(i + 1).last() == orig[i as int]);
            }
            if !(self.task_links[i].task_id == task_id && self.task_links[i].link_id == link_id) {
                let kept = self.task_links[i];
                out.push(kept);
            }
            i = i + 1;
        }
        proof {
            assert(orig.take(n as int) =~= orig);
        }
        self.task_links = out;
        proof {
            lemma_task_links_without_pair_props(orig, task_id, link_id);
        }
        Ok(())
    }
}

/// The index of a task_user row for the given pair.
fn find_task_user_pair(v: &Vec<TaskUser>, task_id: PrefixedUuid, user_id: PrefixedUuid) -> (r:
    Option<usize>)
    ensures
        match r {
            Some(i) => i < v@.len() && v@[i as int].task_id == task_id
                && v@[i as int].user_id == user_id,
            None => !has_task_user(v@, task_id, user_id),
        },
{
    let n = v.len();
    let mut i: usize = 0;
    while i < n
        invariant
            0 <= i <= n,
            n == v@.len(),
            forall|j: int| 0 <= j < i
                ==> !((#[trigger] v@[j]).task_id == task_id && v@[j].user_id == user_id),
        decreases n - i,
    {
        if v[i].task_id == task_id && v[i].user_id == user_id {
            return Some(i);
        }
        i = i + 1;
    }
    None
}

/// Whether some task_user row carries the given row identifier.
fn task_user_id_taken(v: &Vec<TaskUser>, id: u128) -> (r: bool)
    ensures
        r == exists|i: int| 0 <= i < v@.len() && (#[trigger] v@[i]).id == id,
{
    let n = v.len();
    let mut i: usize = 0;
    while i < n
        invariant
            0 <= i <= n,
            n == v@.len(),
            forall|j: int| 0 <= j < i ==> (#[trigger] v@[j]).id != id,
        decreases n - i,
    {
        if v[i].id == id {
            return true;
        }
        i = i + 1;
    }
    false
}

/// Filtering the task_user rows keeps rows of other pairs only, drawn
/// from the original table, with uniqueness of row identifiers intact.
proof fn lemma_task_users_without_pair_props(s: Seq<TaskUser>, task_id: PrefixedUuid, user_id:
    PrefixedUuid)
    ensures
        task_users_without_pair(s, task_id, user_id).len() <= s.len(),
        forall|k: int| 0 <= k < task_users_without_pair(s, task_id, user_id).len()
            ==> !((#[trigger] task_users_without_pair(s, task_id, user_id)[k]).task_id == task_id
                && task_users_without_pair(s, task_id, user_id)[k].user_id == user_id),
        forall|k: int| 0 <= k < task_users_without_pair(s, task_id, user_id).len()
            ==> exists|i: int| 0 <= i < s.len()
                && s[i] == #[trigger] task_users_without_pair(s, task_id, user_id)[k],
        crate::store::task_users_wf(s)
            ==> crate::store::task_users_wf(task_users_without_pair(s, task_id, user_id)),
    decreases s.len(),
{
    if s.len() > 0 {
        let t = s.drop_last();
        lemma_task_users_without_pair_props(t, task_id, user_id);
        assert(forall|i: int| 0 <= i < t.len() ==> #[trigger] t[i] == s[i]);
    }
}

impl Backend {
    /// Stores the given task user row; rejected, and the state left
    /// unchanged, exactly when its row identifier is already taken.
    pub fn insert_task_user(&mut self, row: TaskUser) -> (r: Result<(), ServiceError>)
        requires
            old(self).wf(),
        ensures
            final(self).wf(),
            final(self).same_except_task_users(*old(self)),
            (exists|i: int| 0 <= i < old(self).task_users@.len()
                && (#[trigger] old(self).task_users@[i]).id == row.id)
                ==> (r matches Err(ServiceError::InternalServerError(m))
                    && m@ == "Error creating task user"@
                    && final(self).task_users@ == old(self).task_users@),
            !(exists|i: int| 0 <= i < old(self).task_users@.len()
                && (#[trigger] old(self).task_users@[i]).id == row.id)
                ==> r is Ok && final(self).task_users@ == old(self).task_users@.push(row),
    {
        if task_user_id_taken(&self.task_users, row.id) {
            return Err(ServiceError::InternalServerError(String::from_str(
                "Error creating task user")));
        }
        self.task_users.push(row);
        Ok(())
    }

    /// Associates the user with the task.
    pub fn create_user_for_task_query(&mut self, task_id: PrefixedUuid, user_id: PrefixedUuid)
        -> (r: Result<TaskUser, ServiceError>)
        requires
            old(self).wf(),
        ensures
            final(self).wf(),
            final(self).same_except_task_users(*old(self)),
            (r matches Ok(x) ==> x.task_id == task_id && x.user_id == user_id
                && final(self).task_users@ == old(self).task_users@.push(x)),
            (r matches Err(e) ==> final(self).task_users@ == old(self).task_users@
                && (e matches ServiceError::InternalServerError(m)
                    && m@ == "Error creating task user"@)),
            (r matches Err(_) ==> old(self).task_users@.len() > 0),
    {
        let row = TaskUser::from_details(task_id, user_id);
        self.insert_task_user(row)?;
        Ok(row)
    }

    /// Drops every association of the user with the task; dropping an
    /// absent association succeeds and changes nothing.
    pub fn delete_user_from_task_query(&mut self, task_id: PrefixedUuid, user_id: PrefixedUuid)
        -> (r: Result<(), ServiceError>)
        requires
            old(self).wf(),
        ensures
            final(self).wf(),
            final(self).same_except_task_users(*old(self)),
            r matches Ok(_),
            final(self).task_users@ == task_users_without_pair(old(self).task_users@, task_id, user_id),
            !has_task_user(final(self).task_users@, task_id, user_id),
    {
        let ghost orig = self.task_users@;
        let n = self.task_users.len();
        let mut out: Vec<TaskUser> = Vec::new();
        let mut i: usize = 0;
        while i < n
            invariant
                0 <= i <= n,
                n == orig.len(),
                self.task_users@ == orig,
                out@ == task_users_without_pair(orig.take(i as int), task_id, user_id),
            decreases n - i,
        {
            proof {
                assert(orig.take(i + 1).drop_last() =~= orig.take(i as int));
                assert(orig.take(i + 1).last() == orig[i as int]);
            }
            if !(self.task_users[i].task_id == task_id && self.task_users[i].user_id == user_id) {
                let kept = self.task_users[i];
                out.push(kept);
            }
            i = i + 1;
        }
        proof {
            assert(orig.take(n as int) =~= orig);
        }
        self.task_users = out;
        proof {
            lemma_task_users_without_pair_props(orig, task_id, user_id);
        }
        Ok(())
    }
}

impl Backend {
    /// One page of the deals associated with the task, with the total
    /// number of associated deals; `NotFound` when the task does not
    /// exist.
    pub fn list_deals_by_task_id(&self, task_id: PrefixedUuid, offset: Option<i64>, limit:
        Option<i64>) -> (r: Result<(Vec<Deal>, usize), ServiceError>)
        requires
            self.wf(),
        ensures
            !has_task_id(self.tasks@, task_id)
                ==> r == Err::<(Vec<Deal>, usize), ServiceError>(ServiceError::NotFound),
            has_task_id(self.tasks@, task_id)
                ==> (r matches Ok(p)
                    && p.0@ == page_opt(deals_of_task(self.deals@, self.task_deals@, task_id),
                        limit, offset)
                    && p.1 == deals_of_task(self.deals@, self.task_deals@, task_id).len()),
    {
        if find_task_by_id(&self.tasks, task_id).is_none() {
            return Err(ServiceError::NotFound);
        }
        let ghost all_spec = deals_of_task(self.deals@, self.task_deals@, task_id);
        let n = self.deals.len();
        let mut all: Vec<Deal> = Vec::new();
        let mut i: usize = 0;
        while i < n
            invariant
                0 <= i <= n,
                n == self.deals@.len(),
                all@ == deals_of_task(self.deals@.take(i as int), self.task_deals@, task_id),
            decreases n - i,
        {
            proof {
                assert(self.deals@.take(i + 1).drop_last() =~= self.deals@.take(i as int));
                assert(self.deals@.take(i + 1).last() == self.deals@[i as int]);
            }
            if find_task_deal_pair(&self.task_deals, task_id, self.deals[i].id).is_some() {
                let kept = self.deals[i].clone();
                all.push(kept);
            }
            i = i + 1;
        }
        proof {
            assert(self.deals@.take(n as int) =~= self.deals@);
            assert(all@ == all_spec);
        }
        let total = all.len();
        let page = page_vec(all, limit, offset);
        Ok((page, total))
    }
}

impl Backend {
    /// One page of the links associated with the task, with the total
    /// number of associated links; `NotFound` when the task does not
    /// exist.
    pub fn list_links_by_task_id(&self, task_id: PrefixedUuid, offset: Option<i64>, limit:
        Option<i64>) -> (r: Result<(Vec<Link>, usize), ServiceError>)
        requires
            self.wf(),
        ensures
            !has_task_id(self.tasks@, task_id)
                ==> r == Err::<(Vec<Link>, usize), ServiceError>(ServiceError::NotFound),
            has_task_id(self.tasks@, task_id)
                ==> (r matches Ok(p)
                    && p.0@ == page_opt(links_of_task(self.links@, self.task_links@, task_id),
                        limit, offset)
                    && p.1 == links_of_task(self.links@, self.task_links@, task_id).len()),
    {
        if find_task_by_id(&self.tasks, task_id).is_none() {
            return Err(ServiceError::NotFound);
        }
        let ghost all_spec = links_of_task(self.links@, self.task_links@, task_id);
        let n = self.links.len();
        let mut all: Vec<Link> = Vec::new();
        let mut i: usize = 0;
        while i < n
            invariant
                0 <= i <= n,
                n == self.links@.len(),
                all@ == links_of_task(self.links@.take(i as int), self.task_links@, task_id),
            decreases n - i,
        {
            proof {
                assert(self.links@.take(i + 1).drop_last() =~= self.links@.take(i as int));
                assert(self.links@.take(i + 1).last() == self.links@[i as int]);
            }
            if find_task_link_pair(&self.task_links, task_id, self.links[i].id).is_some() {
                let kept = self.links[i].clone();
                all.push(kept);
            }
            i = i + 1;
        }
        proof {
            assert(self.links@.take(n as int) =~= self.links@);
            assert(all@ == all_spec);
        }
        let total = all.len();
        let page = page_vec(all, limit, offset);
        Ok((page, total))
    }
}

impl Backend {
    /// One page of the users associated with the task, with the total
    /// number of associated users; `NotFound` when the task does not
    /// exist.
    pub fn list_users_by_task_id(&self, task_id: PrefixedUuid, offset: Option<i64>, limit:
        Option<i64>) -> (r: Result<(Vec<User>, usize), ServiceError>)
        requires
            self.wf(),
        ensures
            !has_task_id(self.tasks@, task_id)
                ==> r == Err::<(Vec<User>, usize), ServiceError>(ServiceError::NotFound),
            has_task_id(self.tasks@, task_id)
                ==> (r matches Ok(p)
                    && p.0@ == page_opt(users_of_task(self.users@, self.task_users@, task_id),
                        limit, offset)
                    && p.1 == users_of_task(self.users@, self.task_users@, task_id).len()),
    {
        if find_task_by_id(&self.tasks, task_id).is_none() {
            return Err(ServiceError::NotFound);
        }
        let ghost all_spec = users_of_task(self.users@, self.task_users@, task_id);
        let n = self.users.len();
        let mut all: Vec<User> = Vec::new();
        let mut i: usize = 0;
        while i < n
            invariant
                0 <= i <= n,
                n == self.users@.len(),
                all@ == users_of_task(self.users@.take(i as int), self.task_users@, task_id),
            decreases n - i,
        {
            proof {
                assert(self.users@.take(i + 1).drop_last() =~= self.users@.take(i as int));
                assert(self.users@.take(i + 1).last() == self.users@[i as int]);
            }
            if find_task_user_pair(&self.task_users, task_id, self.users[i].id).is_some() {
                let kept = self.users[i].clone();
                all.push(kept);
            }
            i = i + 1;
        }
        proof {
            assert(self.users@.take(n as int) =~= self.users@);
            assert(all@ == all_spec);
        }
        let total = all.len();
        let page = page_vec(all, limit, offset);
        Ok((page, total))
    }
}


} // verus!
