//! The organization-scoped CRM resources: notes, contacts, deals,
//! links, emails and phones.
//!
//! One set of operations per resource, each mirroring a data-access
//! function of the service: creation stores a fresh record under the
//! organization, reads find by identifier, deletion by identifier is
//! idempotent, and updates replace named fields of the stored record.
//! Email addresses and phone numbers are validated before they are
//! stored.

use vstd::prelude::*;
use crate::errors::ServiceError;
use crate::ids::{PrefixedUuid, ResourceTag};
use crate::models::{Contact, Deal, Email, Link, Note, Phone};
use crate::store::{page_opt, Backend};
use crate::validate::{is_valid_email, is_valid_phone, valid_email, valid_phone};

verus! {

pub open spec fn has_note_id(s: Seq<Note>, id: PrefixedUuid) -> bool {
    exists|i: int| 0 <= i < s.len() && #[trigger] s[i].id == id
}

/// The index of the note record with the given identifier.
fn find_note_by_id(v: &Vec<Note>, id: PrefixedUuid) -> (r: Option<usize>)
    ensures
        match r {
            Some(i) => i < v@.len() && v@[i as int].id == id,
            None => !has_note_id(v@, id),
        },
{
    let n = v.len();
    let mut i: usize = 0;
    while i < n
        invariant
            0 <= i <= n,
            n == v@.len(),
            forall|j: int| 0 <= j < i ==> (#[trigger] v@[j]).id != id,
        decreases n - i,
    {
        if v[i].id == id {
            return Some(i);
        }
        i = i + 1;
    }
    None
}

/// The notes of one organization, in stored order.
pub open spec fn notes_of_org(s: Seq<Note>, org_id: PrefixedUuid) -> Seq<Note>
    decreases s.len(),
{
    if s.len() == 0 {
        s
    } else {
        let rest = notes_of_org(s.drop_last(), org_id);
        if s.last().org_id == org_id {
            rest.push(s.last())
        } else {
            rest
        }
    }
}

impl Backend {
    /// Stores the given note record; rejected, and the state left
    /// unchanged, exactly when its identifier is already taken.
    pub fn insert_note(&mut self, note: Note) -> (r: Result<(), ServiceError>)
        requires
            old(self).wf(),
            note.id.prefix == ResourceTag::Note,
            note.org_id.prefix == ResourceTag::Org,
        ensures
            final(self).wf(),
            final(self).same_except_notes(*old(self)),
            has_note_id(old(self).notes@, note.id)
                ==> (r matches Err(ServiceError::InternalServerError(m))
                    && m@ == "Error creating note for create_note_query"@
                    && final(self).notes@ == old(self).notes@),
            !has_note_id(old(self).notes@, note.id)
                ==> r is Ok && final(self).notes@ == old(self).notes@.push(note),
    {
        if find_note_by_id(&self.notes, note.id).is_some() {
            return Err(ServiceError::InternalServerError(String::from_str(
                "Error creating note for create_note_query")));
        }
        self.notes.push(note);
        Ok(())
    }

    /// Stores a fresh note with the given title and an empty body under
    /// the organization.
    pub fn create_note_query(&mut self, title: String, org_id: PrefixedUuid) -> (r: Result<Note,
        ServiceError>)
        requires
            old(self).wf(),
            org_id.prefix == ResourceTag::Org,
        ensures
            final(self).wf(),
            final(self).same_except_notes(*old(self)),
            (r matches Ok(x) ==> x.org_id == org_id && x.title@ == title@
                && x.body@ == Seq::<char>::empty()
                && final(self).notes@ == old(self).notes@.push(x)),
            (r matches Err(e) ==> final(self).notes@ == old(self).notes@
                && (e matches ServiceError::InternalServerError(m)
                    && m@ == "Error creating note for create_note_query"@)),
            (r matches Err(_) ==> old(self).notes@.len() > 0),
    {
        let note = Note::from_title(title, org_id);
        let ret = note.clone();
        self.insert_note(note)?;
        Ok(ret)
    }

    /// The note with the given identifier; `NotFound` otherwise.
    pub fn get_note_by_id_query(&self, note_id: PrefixedUuid) -> (r: Result<Note, ServiceError>)
        requires
            self.wf(),
        ensures
            (r matches Ok(x) <==> has_note_id(self.notes@, note_id)),
            (r matches Ok(x) ==> x.id == note_id
                && exists|i: int| 0 <= i < self.notes@.len() && #[trigger] self.notes@[i] == x),
            (r matches Err(e) ==> e == ServiceError::NotFound),
    {
        match find_note_by_id(&self.notes, note_id) {
            Some(i) => Ok(self.notes[i].clone()),
            None => Err(ServiceError::NotFound),
        }
    }

    /// Deletes the note; deleting an absent record succeeds and
    /// changes nothing.
    pub fn delete_note_query(&mut self, note_id: PrefixedUuid) -> (r: Result<(), ServiceError>)
        requires
            old(self).wf(),
        ensures
            final(self).wf(),
            final(self).same_except_notes(*old(self)),
            r matches Ok(_),
            !has_note_id(final(self).notes@, note_id),
            !has_note_id(old(self).notes@, note_id)
                ==> final(self).notes@ == old(self).notes@,
            has_note_id(old(self).notes@, note_id)
                ==> exists|i: int| 0 <= i < old(self).notes@.len()
                    && (#[trigger] old(self).notes@[i]).id == note_id
                    && final(self).notes@ == old(self).notes@.remove(i),
    {
        match find_note_by_id(&self.notes, note_id) {
            Some(i) => {
                self.notes.remove(i);
                proof {
                    let pre = old(self).notes@;
                    let post = self.notes@;
                    assert forall|k: int| 0 <= k < post.len()
                        implies (#[trigger] post[k]).id != note_id
                            && post[k].id.prefix == ResourceTag::Note
                            && post[k].org_id.prefix == ResourceTag::Org by {
                        if k < i {
                            assert(post[k] == pre[k]);
                        } else {
                            assert(post[k] == pre[k + 1]);
                        }
                    }
                    assert forall|a: int, b: int| #![trigger post[a], post[b]]
                        0 <= a < b < post.len() implies post[a].id != post[b].id by {
                        let pa: int = if a < i { a } else { a + 1 };
                        let pb: int = if b < i { b } else { b + 1 };
                        assert(post[a] == pre[pa]);
                        assert(post[b] == pre[pb]);
                    }
                }
                Ok(())
            }
            None => Ok(()),
        }
    }

    /// Replaces the note's body, leaving its other fields as stored;
    /// the service's updating error when the note does not exist.
    pub fn update_note_body_query(&mut self, note_id: PrefixedUuid, new_body: String) -> (r:
        Result<Note, ServiceError>)
        requires
            old(self).wf(),
        ensures
            final(self).wf(),
            final(self).same_except_notes(*old(self)),
            !has_note_id(old(self).notes@, note_id)
                ==> final(self).notes@ == old(self).notes@
                    && (r matches Err(e) && (e matches ServiceError::InternalServerError(m)
                        && m@ == "Error updating note body"@)),
            has_note_id(old(self).notes@, note_id)
                ==> (r matches Ok(x) && x.id == note_id && x.body@ == new_body@
                    && exists|i: int| 0 <= i < old(self).notes@.len()
                        && (#[trigger] old(self).notes@[i]).id == note_id
                        && x.title == old(self).notes@[i].title
                        && x.org_id == old(self).notes@[i].org_id
                        && x.created_at == old(self).notes@[i].created_at
                        && x.updated_at == old(self).notes@[i].updated_at
                        && final(self).notes@ == old(self).notes@.update(i, x)),
    {
        match find_note_by_id(&self.notes, note_id) {
            Some(i) => {
                let mut rec = self.notes[i].clone();
                rec.body = new_body;
                let ret = rec.clone();
                self.notes[i] = rec;
                proof {
                    let pre = old(self).notes@;
                    let post = self.notes@;
                    assert forall|a: int, b: int| #![trigger post[a], post[b]]
                        0 <= a < b < post.len() implies post[a].id != post[b].id by {
                        assert(pre[a].id != pre[b].id);
                    }
                }
                Ok(ret)
            }
            None => Err(ServiceError::InternalServerError(String::from_str(
                "Error updating note body"))),
        }
    }

    /// One page of the organization's notes, ten from the start when no
    /// bounds are given.
    pub fn get_notes_for_org_query(&self, org_id: PrefixedUuid, limit: Option<i64>, offset:
        Option<i64>) -> (r: Result<Vec<Note>, ServiceError>)
        requires
            self.wf(),
        ensures
            (r matches Ok(v) && v@ == page_opt(notes_of_org(self.notes@, org_id), limit, offset)),
    {
        let ghost all_spec = notes_of_org(self.notes@, org_id);
        let n = self.notes.len();
        let mut all: Vec<Note> = Vec::new();
        let mut i: usize = 0;
        while i < n
            invariant
                0 <= i <= n,
                n == self.notes@.len(),
                all@ == notes_of_org(self.notes@.take(i as int), org_id),
            decreases n - i,
        {
            proof {
                assert(self.notes@.take(i + 1).drop_last() =~= self.notes@.take(i as int));
                assert(self.notes@.take(i + 1).last() == self.notes@[i as int]);
            }
            if self.notes[i].org_id == org_id {
                let kept = self.notes[i].clone();
                all.push(kept);
            }
            i = i + 1;
        }
        proof {
            assert(self.notes@.take(n as int) =~= self.notes@);
            assert(all@ == all_spec);
        }
        let page = crate::store::page_vec(all, limit, offset);
        Ok(page)
    }
}

pub open spec fn has_contact_id(s: Seq<Contact>, id: PrefixedUuid) -> bool {
    exists|i: int| 0 <= i < s.len() && #[trigger] s[i].id == id
}

/// The index of the contact record with the given identifier.
fn find_contact_by_id(v: &Vec<Contact>, id: PrefixedUuid) -> (r: Option<usize>)
    ensures
        match r {
            Some(i) => i < v@.len() && v@[i as int].id == id,
            None => !has_contact_id(v@, id),
        },
{
    let n = v.len();
    let mut i: usize = 0;
    while i < n
        invariant
            0 <= i <= n,
            n == v@.len(),
            forall|j: int| 0 <= j < i ==> (#[trigger] v@[j]).id != id,
        decreases n - i,
    {
        if v[i].id == id {
            return Some(i);
        }
        i = i + 1;
    }
    None
}

impl Backend {
    /// Stores the given contact record; rejected, and the state left
    /// unchanged, exactly when its identifier is already taken.
    pub fn insert_contact(&mut self, contact: Contact) -> (r: Result<(), ServiceError>)
        requires
            old(self).wf(),
            contact.id.prefix == ResourceTag::Contact,
            contact.org_id.prefix == ResourceTag::Org,
        ensures
            final(self).wf(),
            final(self).same_except_contacts(*old(self)),
            has_contact_id(old(self).contacts@, contact.id)
                ==> (r matches Err(ServiceError::InternalServerError(m))
                    && m@ == "Error creating contact"@
                    && final(self).contacts@ == old(self).contacts@),
            !has_contact_id(old(self).contacts@, contact.id)
                ==> r is Ok && final(self).contacts@ == old(self).contacts@.push(contact),
    {
        if find_contact_by_id(&self.contacts, contact.id).is_some() {
            return Err(ServiceError::InternalServerError(String::from_str(
                "Error creating contact")));
        }
        self.contacts.push(contact);
        Ok(())
    }

    /// Stores a fresh contact under the organization.
    pub fn create_contact_query(&mut self, org_id: PrefixedUuid, first_name: String, last_name:
        String) -> (r: Result<Contact, ServiceError>)
        requires
            old(self).wf(),
            org_id.prefix == ResourceTag::Org,
        ensures
            final(self).wf(),
            final(self).same_except_contacts(*old(self)),
            (r matches Ok(x) ==> x.org_id == org_id && x.first_name@ == first_name@
                && x.last_name@ == last_name@
                && final(self).contacts@ == old(self).contacts@.push(x)),
            (r matches Err(e) ==> final(self).contacts@ == old(self).contacts@
                && (e matches ServiceError::InternalServerError(m)
                    && m@ == "Error creating contact"@)),
            (r matches Err(_) ==> old(self).contacts@.len() > 0),
    {
        let contact = Contact::from_details(org_id, first_name, last_name);
        let ret = contact.clone();
        self.insert_contact(contact)?;
        Ok(ret)
    }

    /// The contact with the given identifier; `NotFound` otherwise.
    pub fn get_contact_by_id(&self, contact_id: PrefixedUuid) -> (r: Result<Contact, ServiceError>)
        requires
            self.wf(),
        ensures
            (r matches Ok(x) <==> has_contact_id(self.contacts@, contact_id)),
            (r matches Ok(x) ==> x.id == contact_id
                && exists|i: int| 0 <= i < self.contacts@.len() && #[trigger] self.contacts@[i] == x),
            (r matches Err(e) ==> e == ServiceError::NotFound),
    {
        match find_contact_by_id(&self.contacts, contact_id) {
            Some(i) => Ok(self.contacts[i].clone()),
            None => Err(ServiceError::NotFound),
        }
    }

    /// Deletes the contact; deleting an absent record succeeds and
    /// changes nothing.
    pub fn delete_contact_query(&mut self, contact_id: PrefixedUuid) -> (r: Result<(), ServiceError>)
        requires
            old(self).wf(),
        ensures
            final(self).wf(),
            final(self).same_except_contacts(*old(self)),
            r matches Ok(_),
            !has_contact_id(final(self).contacts@, contact_id),
            !has_contact_id(old(self).contacts@, contact_id)
                ==> final(self).contacts@ == old(self).contacts@,
            has_contact_id(old(self).contacts@, contact_id)
                ==> exists|i: int| 0 <= i < old(self).contacts@.len()
                    && (#[trigger] old(self).contacts@[i]).id == contact_id
                    && final(self).contacts@ == old(self).contacts@.remove(i),
    {
        match find_contact_by_id(&self.contacts, contact_id) {
            Some(i) => {
                self.contacts.remove(i);
                proof {
                    let pre = old(self).contacts@;
                    let post = self.contacts@;
                    assert forall|k: int| 0 <= k < post.len()
                        implies (#[trigger] post[k]).id != contact_id
                            && post[k].id.prefix == ResourceTag::Contact
                            && post[k].org_id.prefix == ResourceTag::Org by {
                        if k < i {
                            assert(post[k] == pre[k]);
                        } else {
                            assert(post[k] == pre[k + 1]);
                        }
                    }
                    assert forall|a: int, b: int| #![trigger post[a], post[b]]
                        0 <= a < b < post.len() implies post[a].id != post[b].id by {
                        let pa: int = if a < i { a } else { a + 1 };
                        let pb: int = if b < i { b } else { b + 1 };
                        assert(post[a] == pre[pa]);
                        assert(post[b] == pre[pb]);
                    }
                }
                Ok(())
            }
            None => Ok(()),
        }
    }

    /// Replaces the contact's given names, keeping any name that is
    /// not supplied; the service's updating error when the contact does
    /// not exist.
    pub fn update_contact_query(&mut self, contact_id: PrefixedUuid, first_name: Option<String>,
        last_name: Option<String>) -> (r: Result<Contact, ServiceError>)
        requires
            old(self).wf(),
        ensures
            final(self).wf(),
            final(self).same_except_contacts(*old(self)),
            !has_contact_id(old(self).contacts@, contact_id)
                ==> final(self).contacts@ == old(self).contacts@
                    && (r matches Err(e) && (e matches ServiceError::InternalServerError(m)
                        && m@ == "Error updating contact"@)),
            has_contact_id(old(self).contacts@, contact_id)
                ==> (r matches Ok(x) && x.id == contact_id
                    && exists|i: int| 0 <= i < old(self).contacts@.len()
                        && (#[trigger] old(self).contacts@[i]).id == contact_id
                        && x.first_name == (match first_name {
                            Some(f) => f,
                            None => old(self).contacts@[i].first_name,
                        })
                        && x.last_name == (match last_name {
                            Some(l) => l,
                            None => old(self).contacts@[i].last_name,
                        })
                        && x.org_id == old(self).contacts@[i].org_id
                        && x.created_at == old(self).contacts@[i].created_at
                        && x.updated_at == old(self).contacts@[i].updated_at
                        && final(self).contacts@ == old(self).contacts@.update(i, x)),
    {
        match find_contact_by_id(&self.contacts, contact_id) {
            Some(i) => {
                let mut rec = self.contacts[i].clone();
                match first_name {
                    Some(f) => {
                        rec.first_name = f;
                    }
                    None => {}
                }
                match last_name {
                    Some(l) => {
                        rec.last_name = l;
                    }
                    None => {}
                }
                let ret = rec.clone();
                self.contacts[i] = rec;
                proof {
                    let pre = old(self).contacts@;
                    let post = self.contacts@;
                    assert forall|a: int, b: int| #![trigger post[a], post[b]]
                        0 <= a < b < post.len() implies post[a].id != post[b].id by {
                        assert(pre[a].id != pre[b].id);
                    }
                }
                Ok(ret)
            }
            None => Err(ServiceError::InternalServerError(String::from_str(
                "Error updating contact"))),
        }
    }
}

pub open spec fn has_deal_id(s: Seq<Deal>, id: PrefixedUuid) -> bool {
    exists|i: int| 0 <= i < s.len() && #[trigger] s[i].id == id
}

/// The index of the deal record with the given identifier.
fn find_deal_by_id(v: &Vec<Deal>, id: PrefixedUuid) -> (r: Option<usize>)
    ensures
        match r {
            Some(i) => i < v@.len() && v@[i as int].id == id,
            None => !has_deal_id(v@, id),
        },
{
    let n = v.len();
    let mut i: usize = 0;
    while i < n
        invariant
            0 <= i <= n,
            n == v@.len(),
            forall|j: int| 0 <= j < i ==> (#[trigger] v@[j]).id != id,
        decreases n - i,
    {
        if v[i].id == id {
            return Some(i);
        }
        i = i + 1;
    }
    None
}

impl Backend {
    /// Stores the given deal record; rejected, and the state left
    /// unchanged, exactly when its identifier is already taken.
    pub fn insert_deal(&mut self, deal: Deal) -> (r: Result<(), ServiceError>)
        requires
            old(self).wf(),
            deal.id.prefix == ResourceTag::Deal,
            deal.org_id.prefix == ResourceTag::Org,
        ensures
            final(self).wf(),
            final(self).same_except_deals(*old(self)),
            has_deal_id(old(self).deals@, deal.id)
                ==> (r matches Err(ServiceError::InternalServerError(m))
                    && m@ == "Error creating deal"@
                    && final(self).deals@ == old(self).deals@),
            !has_deal_id(old(self).deals@, deal.id)
                ==> r is Ok && final(self).deals@ == old(self).deals@.push(deal),
    {
        if find_deal_by_id(&self.deals, deal.id).is_some() {
            return Err(ServiceError::InternalServerError(String::from_str(
                "Error creating deal")));
        }
        self.deals.push(deal);
        Ok(())
    }

    /// Stores a fresh deal under the organization.  The size, when
    /// given, is the bit pattern of the reported 32-bit floating-point
    /// figure.
    pub fn create_deal_query(&mut self, org_id: PrefixedUuid, name: Option<String>, size_bits:
        Option<u32>, active: bool) -> (r: Result<Deal, ServiceError>)
        requires
            old(self).wf(),
            org_id.prefix == ResourceTag::Org,
        ensures
            final(self).wf(),
            final(self).same_except_deals(*old(self)),
            (r matches Ok(x) ==> x.org_id == org_id && x.name == name
                && x.size_bits == size_bits && x.active == active
                && final(self).deals@ == old(self).deals@.push(x)),
            (r matches Err(e) ==> final(self).deals@ == old(self).deals@
                && (e matches ServiceError::InternalServerError(m)
                    && m@ == "Error creating deal"@)),
            (r matches Err(_) ==> old(self).deals@.len() > 0),
    {
        let deal = Deal::from_details(org_id, name, size_bits, active);
        let ret = deal.clone();
        self.insert_deal(deal)?;
        Ok(ret)
    }

    /// The deal with the given identifier; `NotFound` otherwise.
    pub fn get_deal_by_id(&self, deal_id: PrefixedUuid) -> (r: Result<Deal, ServiceError>)
        requires
            self.wf(),
        ensures
            (r matches Ok(x) <==> has_deal_id(self.deals@, deal_id)),
            (r matches Ok(x) ==> x.id == deal_id
                && exists|i: int| 0 <= i < self.deals@.len() && #[trigger] self.deals@[i] == x),
            (r matches Err(e) ==> e == ServiceError::NotFound),
    {
        match find_deal_by_id(&self.deals, deal_id) {
            Some(i) => Ok(self.deals[i].clone()),
            None => Err(ServiceError::NotFound),
        }
    }

    /// Deletes the deal; deleting an absent record succeeds and
    /// changes nothing.
    pub fn delete_deal_query(&mut self, deal_id: PrefixedUuid) -> (r: Result<(), ServiceError>)
        requires
            old(self).wf(),
        ensures
            final(self).wf(),
            final(self).same_except_deals(*old(self)),
            r matches Ok(_),
            !has_deal_id(final(self).deals@, deal_id),
            !has_deal_id(old(self).deals@, deal_id)
                ==> final(self).deals@ == old(self).deals@,
            has_deal_id(old(self).deals@, deal_id)
                ==> exists|i: int| 0 <= i < old(self).deals@.len()
                    && (#[trigger] old(self).deals@[i]).id == deal_id
                    && final(self).deals@ == old(self).deals@.remove(i),
    {
        match find_deal_by_id(&self.deals, deal_id) {
            Some(i) => {
                self.deals.remove(i);
                proof {
                    let pre = old(self).deals@;
                    let post = self.deals@;
                    assert forall|k: int| 0 <= k < post.len()
                        implies (#[trigger] post[k]).id != deal_id
                            && post[k].id.prefix == ResourceTag::Deal
                            && post[k].org_id.prefix == ResourceTag::Org by {
                        if k < i {
                            assert(post[k] == pre[k]);
                        } else {
                            assert(post[k] == pre[k + 1]);
                        }
                    }
                    assert forall|a: int, b: int| #![trigger post[a], post[b]]
                        0 <= a < b < post.len() implies post[a].id != post[b].id by {
                        let pa: int = if a < i { a } else { a + 1 };
                        let pb: int = if b < i { b } else { b + 1 };
                        assert(post[a] == pre[pa]);
                        assert(post[b] == pre[pb]);
                    }
                }
                Ok(())
            }
            None => Ok(()),
        }
    }

    /// Replaces the deal's supplied fields, keeping the rest; the
    /// service's updating error when the deal does not exist.
    pub fn update_deal_query(&mut self, deal_id: PrefixedUuid, name: Option<String>, size_bits:
        Option<u32>, active: Option<bool>) -> (r: Result<Deal, ServiceError>)
        requires
            old(self).wf(),
        ensures
            final(self).wf(),
            final(self).same_except_deals(*old(self)),
            !has_deal_id(old(self).deals@, deal_id)
                ==> final(self).deals@ == old(self).deals@
                    && (r matches Err(e) && (e matches ServiceError::InternalServerError(m)
                        && m@ == "Error updating deal"@)),
            has_deal_id(old(self).deals@, deal_id)
                ==> (r matches Ok(x) && x.id == deal_id
                    && exists|i: int| 0 <= i < old(self).deals@.len()
                        && (#[trigger] old(self).deals@[i]).id == deal_id
                        && x.name == (match name {
                            Some(v) => Some(v),
                            None => old(self).deals@[i].name,
                        })
                        && x.size_bits == (match size_bits {
                            Some(v) => Some(v),
                            None => old(self).deals@[i].size_bits,
                        })
                        && x.active == (match active {
                            Some(v) => v,
                            None => old(self).deals@[i].active,
                        })
                        && x.org_id == old(self).deals@[i].org_id
                        && x.created_at == old(self).deals@[i].created_at
                        && x.updated_at == old(self).deals@[i].updated_at
                        && final(self).deals@ == old(self).deals@.update(i, x)),
    {
        match find_deal_by_id(&self.deals, deal_id) {
            Some(i) => {
                let mut rec = self.deals[i].clone();
                match name {
                    Some(v) => {
                        rec.name = Some(v);
                    }
                    None => {}
                }
                match size_bits {
                    Some(v) => {
                        rec.size_bits = Some(v);
                    }
                    None => {}
                }
                match active {
                    Some(v) => {
                        rec.active = v;
                    }
                    None => {}
                }
                let ret = rec.clone();
                self.deals[i] = rec;
                proof {
                    let pre = old(self).deals@;
                    let post = self.deals@;
                    assert forall|a: int, b: int| #![trigger post[a], post[b]]
                        0 <= a < b < post.len() implies post[a].id != post[b].id by {
                        assert(pre[a].id != pre[b].id);
                    }
                }
                Ok(ret)
            }
            None => Err(ServiceError::InternalServerError(String::from_str(
                "Error updating deal"))),
        }
    }
}

pub open spec fn has_link_id(s: Seq<Link>, id: PrefixedUuid) -> bool {
    exists|i: int| 0 <= i < s.len() && #[trigger] s[i].id == id
}

/// The index of the link record with the given identifier.
fn find_link_by_id(v: &Vec<Link>, id: PrefixedUuid) -> (r: Option<usize>)
    ensures
        match r {
            Some(i) => i < v@.len() && v@[i as int].id == id,
            None => !has_link_id(v@, id),
        },
{
    let n = v.len();
    let mut i: usize = 0;
    while i < n
        invariant
            0 <= i <= n,
            n == v@.len(),
            forall|j: int| 0 <= j < i ==> (#[trigger] v@[j]).id != id,
        decreases n - i,
    {
        if v[i].id == id {
            return Some(i);
        }
        i = i + 1;
    }
    None
}

impl Backend {
    /// Stores the given link record; rejected, and the state left
    /// unchanged, exactly when its identifier is already taken.
    pub fn insert_link(&mut self, link: Link) -> (r: Result<(), ServiceError>)
        requires
            old(self).wf(),
            link.id.prefix == ResourceTag::Link,
            link.org_id.prefix == ResourceTag::Org,
        ensures
            final(self).wf(),
            final(self).same_except_links(*old(self)),
            has_link_id(old(self).links@, link.id)
                ==> (r matches Err(ServiceError::InternalServerError(m))
                    && m@ == "Error creating links"@
                    && final(self).links@ == old(self).links@),
            !has_link_id(old(self).links@, link.id)
                ==> r is Ok && final(self).links@ == old(self).links@.push(link),
    {
        if find_link_by_id(&self.links, link.id).is_some() {
            return Err(ServiceError::InternalServerError(String::from_str(
                "Error creating links")));
        }
        self.links.push(link);
        Ok(())
    }

    /// Stores a fresh hyperlink under the organization.
    pub fn create_link_query(&mut self, link: String, org_id: PrefixedUuid) -> (r: Result<Link,
        ServiceError>)
        requires
            old(self).wf(),
            org_id.prefix == ResourceTag::Org,
        ensures
            final(self).wf(),
            final(self).same_except_links(*old(self)),
            (r matches Ok(x) ==> x.org_id == org_id && x.link@ == link@
                && final(self).links@ == old(self).links@.push(x)),
            (r matches Err(e) ==> final(self).links@ == old(self).links@
                && (e matches ServiceError::InternalServerError(m)
                    && m@ == "Error creating links"@)),
            (r matches Err(_) ==> old(self).links@.len() > 0),
    {
        let rec = Link::from_details(link, org_id);
        let ret = rec.clone();
        self.insert_link(rec)?;
        Ok(ret)
    }

    /// The link with the given identifier; `NotFound` otherwise.
    pub fn get_link_by_id(&self, link_id: PrefixedUuid) -> (r: Result<Link, ServiceError>)
        requires
            self.wf(),
        ensures
            (r matches Ok(x) <==> has_link_id(self.links@, link_id)),
            (r matches Ok(x) ==> x.id == link_id
                && exists|i: int| 0 <= i < self.links@.len() && #[trigger] self.links@[i] == x),
            (r matches Err(e) ==> e == ServiceError::NotFound),
    {
        match find_link_by_id(&self.links, link_id) {
            Some(i) => Ok(self.links[i].clone()),
            None => Err(ServiceError::NotFound),
        }
    }

    /// Deletes the link; deleting an absent record succeeds and
    /// changes nothing.
    pub fn delete_link_query(&mut self, link_id: PrefixedUuid) -> (r: Result<(), ServiceError>)
        requires
            old(self).wf(),
        ensures
            final(self).wf(),
            final(self).same_except_links(*old(self)),
            r matches Ok(_),
            !has_link_id(final(self).links@, link_id),
            !has_link_id(old(self).links@, link_id)
                ==> final(self).links@ == old(self).links@,
            has_link_id(old(self).links@, link_id)
                ==> exists|i: int| 0 <= i < old(self).links@.len()
                    && (#[trigger] old(self).links@[i]).id == link_id
                    && final(self).links@ == old(self).links@.remove(i),
    {
        match find_link_by_id(&self.links, link_id) {
            Some(i) => {
                self.links.remove(i);
                proof {
                    let pre = old(self).links@;
                    let post = self.links@;
                    assert forall|k: int| 0 <= k < post.len()
                        implies (#[trigger] post[k]).id != link_id
                            && post[k].id.prefix == ResourceTag::Link
                            && post[k].org_id.prefix == ResourceTag::Org by {
                        if k < i {
                            assert(post[k] == pre[k]);
                        } else {
                            assert(post[k] == pre[k + 1]);
                        }
                    }
                    assert forall|a: int, b: int| #![trigger post[a], post[b]]
                        0 <= a < b < post.len() implies post[a].id != post[b].id by {
                        let pa: int = if a < i { a } else { a + 1 };
                        let pb: int = if b < i { b } else { b + 1 };
                        assert(post[a] == pre[pa]);
                        assert(post[b] == pre[pb]);
                    }
                }
                Ok(())
            }
            None => Ok(()),
        }
    }

    /// Replaces the stored hyperlink's text; the service's updating
    /// error when the record does not exist.
    pub fn update_link_query(&mut self, link_id: PrefixedUuid, link: String) -> (r: Result<Link,
        ServiceError>)
        requires
            old(self).wf(),
        ensures
            final(self).wf(),
            final(self).same_except_links(*old(self)),
            !has_link_id(old(self).links@, link_id)
                ==> final(self).links@ == old(self).links@
                    && (r matches Err(e) && (e matches ServiceError::InternalServerError(m)
                        && m@ == "Error updating link"@)),
            has_link_id(old(self).links@, link_id)
                ==> (r matches Ok(x) && x.id == link_id && x.link@ == link@
                    && exists|i: int| 0 <= i < old(self).links@.len()
                        && (#[trigger] old(self).links@[i]).id == link_id
                        && x.org_id == old(self).links@[i].org_id
                        && x.created_at == old(self).links@[i].created_at
                        && x.updated_at == old(self).links@[i].updated_at
                        && final(self).links@ == old(self).links@.update(i, x)),
    {
        match find_link_by_id(&self.links, link_id) {
            Some(i) => {
                let mut rec = self.links[i].clone();
                rec.link = link;
                let ret = rec.clone();
                self.links[i] = rec;
                proof {
                    let pre = old(self).links@;
                    let post = self.links@;
                    assert forall|a: int, b: int| #![trigger post[a], post[b]]
                        0 <= a < b < post.len() implies post[a].id != post[b].id by {
                        assert(pre[a].id != pre[b].id);
                    }
                }
                Ok(ret)
            }
            None => Err(ServiceError::InternalServerError(String::from_str(
                "Error updating link"))),
        }
    }
}

pub open spec fn has_email_id(s: Seq<Email>, id: PrefixedUuid) -> bool {
    exists|i: int| 0 <= i < s.len() && #[trigger] s[i].id == id
}

/// The index of the email record with the given identifier.
fn find_email_by_id(v: &Vec<Email>, id: PrefixedUuid) -> (r: Option<usize>)
    ensures
        match r {
            Some(i) => i < v@.len() && v@[i as int].id == id,
            None => !has_email_id(v@, id),
        },
{
    let n = v.len();
    let mut i: usize = 0;
    while i < n
        invariant
            0 <= i <= n,
            n == v@.len(),
            forall|j: int| 0 <= j < i ==> (#[trigger] v@[j]).id != id,
        decreases n - i,
    {
        if v[i].id == id {
            return Some(i);
        }
        i = i + 1;
    }
    None
}

impl Backend {
    /// Stores the given email record; rejected, and the state left
    /// unchanged, exactly when its identifier is already taken.
    pub fn insert_email(&mut self, email: Email) -> (r: Result<(), ServiceError>)
        requires
            old(self).wf(),
            email.id.prefix == ResourceTag::Email,
            email.org_id.prefix == ResourceTag::Org,
        ensures
            final(self).wf(),
            final(self).same_except_emails(*old(self)),
            has_email_id(old(self).emails@, email.id)
                ==> (r matches Err(ServiceError::InternalServerError(m))
                    && m@ == "Error creating emails"@
                    && final(self).emails@ == old(self).emails@),
            !has_email_id(old(self).emails@, email.id)
                ==> r is Ok && final(self).emails@ == old(self).emails@.push(email),
    {
        if find_email_by_id(&self.emails, email.id).is_some() {
            return Err(ServiceError::InternalServerError(String::from_str(
                "Error creating emails")));
        }
        self.emails.push(email);
        Ok(())
    }

    /// Validates and stores a fresh email address under the
    /// organization; `BadRequest` when the address fails the email
    /// rule.
    pub fn create_email_query(&mut self, org_id: PrefixedUuid, email: String) -> (r: Result<Email,
        ServiceError>)
        requires
            old(self).wf(),
            org_id.prefix == ResourceTag::Org,
        ensures
            final(self).wf(),
            final(self).same_except_emails(*old(self)),
            !valid_email(email@)
                ==> final(self).emails@ == old(self).emails@
                    && (r matches Err(e) && (e matches ServiceError::BadRequest(m)
                        && m@ == "Invalid email"@)),
            (r matches Ok(x) ==> valid_email(email@) && x.org_id == org_id && x.email@ == email@
                && final(self).emails@ == old(self).emails@.push(x)),
            valid_email(email@)
                ==> (r matches Err(e) ==> final(self).emails@ == old(self).emails@
                    && (e matches ServiceError::InternalServerError(m)
                        && m@ == "Error creating emails"@)),
            valid_email(email@) ==> (r matches Err(_) ==> old(self).emails@.len() > 0),
    {
        if !is_valid_email(email.as_str()) {
            return Err(ServiceError::BadRequest(String::from_str("Invalid email")));
        }
        let rec = Email::from_details(email, org_id);
        let ret = rec.clone();
        self.insert_email(rec)?;
        Ok(ret)
    }

    /// The email with the given identifier; `NotFound` otherwise.
    pub fn get_email_by_id(&self, email_id: PrefixedUuid) -> (r: Result<Email, ServiceError>)
        requires
            self.wf(),
        ensures
            (r matches Ok(x) <==> has_email_id(self.emails@, email_id)),
            (r matches Ok(x) ==> x.id == email_id
                && exists|i: int| 0 <= i < self.emails@.len() && #[trigger] self.emails@[i] == x),
            (r matches Err(e) ==> e == ServiceError::NotFound),
    {
        match find_email_by_id(&self.emails, email_id) {
            Some(i) => Ok(self.emails[i].clone()),
            None => Err(ServiceError::NotFound),
        }
    }

    /// Deletes the email; deleting an absent record succeeds and
    /// changes nothing.
    pub fn delete_email_query(&mut self, email_id: PrefixedUuid) -> (r: Result<(), ServiceError>)
        requires
            old(self).wf(),
        ensures
            final(self).wf(),
            final(self).same_except_emails(*old(self)),
            r matches Ok(_),
            !has_email_id(final(self).emails@, email_id),
            !has_email_id(old(self).emails@, email_id)
                ==> final(self).emails@ == old(self).emails@,
            has_email_id(old(self).emails@, email_id)
                ==> exists|i: int| 0 <= i < old(self).emails@.len()
                    && (#[trigger] old(self).emails@[i]).id == email_id
                    && final(self).emails@ == old(self).emails@.remove(i),
    {
        match find_email_by_id(&self.emails, email_id) {
            Some(i) => {
                self.emails.remove(i);
                proof {
                    let pre = old(self).emails@;
                    let post = self.emails@;
                    assert forall|k: int| 0 <= k < post.len()
                        implies (#[trigger] post[k]).id != email_id
                            && post[k].id.prefix == ResourceTag::Email
                            && post[k].org_id.prefix == ResourceTag::Org by {
                        if k < i {
                            assert(post[k] == pre[k]);
                        } else {
                            assert(post[k] == pre[k + 1]);
                        }
                    }
                    assert forall|a: int, b: int| #![trigger post[a], post[b]]
                        0 <= a < b < post.len() implies post[a].id != post[b].id by {
                        let pa: int = if a < i { a } else { a + 1 };
                        let pb: int = if b < i { b } else { b + 1 };
                        assert(post[a] == pre[pa]);
                        assert(post[b] == pre[pb]);
                    }
                }
                Ok(())
            }
            None => Ok(()),
        }
    }

    /// Validates and replaces the stored address; `BadRequest` when
    /// the new address fails the email rule, the service's updating
    /// error when the record does not exist.
    pub fn update_email_query(&mut self, email_id: PrefixedUuid, email: String) -> (r: Result<
        Email, ServiceError>)
        requires
            old(self).wf(),
        ensures
            final(self).wf(),
            final(self).same_except_emails(*old(self)),
            !valid_email(email@)
                ==> final(self).emails@ == old(self).emails@
                    && (r matches Err(e) && (e matches ServiceError::BadRequest(m)
                        && m@ == "Invalid email"@)),
            valid_email(email@) && !has_email_id(old(self).emails@, email_id)
                ==> final(self).emails@ == old(self).emails@
                    && (r matches Err(e) && (e matches ServiceError::InternalServerError(m)
                        && m@ == "Error updating email"@)),
            valid_email(email@) && has_email_id(old(self).emails@, email_id)
                ==> (r matches Ok(x) && x.id == email_id && x.email@ == email@
                    && exists|i: int| 0 <= i < old(self).emails@.len()
                        && (#[trigger] old(self).emails@[i]).id == email_id
                        && x.org_id == old(self).emails@[i].org_id
                        && x.created_at == old(self).emails@[i].created_at
                        && x.updated_at == old(self).emails@[i].updated_at
                        && final(self).emails@ == old(self).emails@.update(i, x)),
    {
        if !is_valid_email(email.as_str()) {
            return Err(ServiceError::BadRequest(String::from_str("Invalid email")));
        }
        match find_email_by_id(&self.emails, email_id) {
            Some(i) => {
                let mut rec = self.emails[i].clone();
                rec.email = email;
                let ret = rec.clone();
                self.emails[i] = rec;
                proof {
                    let pre = old(self).emails@;
                    let post = self.emails@;
                    assert forall|a: int, b: int| #![trigger post[a], post[b]]
                        0 <= a < b < post.len() implies post[a].id != post[b].id by {
                        assert(pre[a].id != pre[b].id);
                    }
                }
                Ok(ret)
            }
            None => Err(ServiceError::InternalServerError(String::from_str(
                "Error updating email"))),
        }
    }
}

pub open spec fn has_phone_id(s: Seq<Phone>, id: PrefixedUuid) -> bool {
    exists|i: int| 0 <= i < s.len() && #[trigger] s[i].id == id
}

/// The index of the phone record with the given identifier.
fn find_phone_by_id(v: &Vec<Phone>, id: PrefixedUuid) -> (r: Option<usize>)
    ensures
        match r {
            Some(i) => i < v@.len() && v@[i as int].id == id,
            None => !has_phone_id(v@, id),
        },
{
    let n = v.len();
    let mut i: usize = 0;
    while i < n
        invariant
            0 <= i <= n,
            n == v@.len(),
            forall|j: int| 0 <= j < i ==> (#[trigger] v@[j]).id != id,
        decreases n - i,
    {
        if v[i].id == id {
            return Some(i);
        }
        i = i + 1;
    }
    None
}

impl Backend {
    /// Stores the given phone record; rejected, and the state left
    /// unchanged, exactly when its identifier is already taken.
    pub fn insert_phone(&mut self, phone: Phone) -> (r: Result<(), ServiceError>)
        requires
            old(self).wf(),
            phone.id.prefix == ResourceTag::Phone,
            phone.org_id.prefix == ResourceTag::Org,
        ensures
            final(self).wf(),
            final(self).same_except_phones(*old(self)),
            has_phone_id(old(self).phones@, phone.id)
                ==> (r matches Err(ServiceError::InternalServerError(m))
                    && m@ == "Error creating phone"@
                    && final(self).phones@ == old(self).phones@),
            !has_phone_id(old(self).phones@, phone.id)
                ==> r is Ok && final(self).phones@ == old(self).phones@.push(phone),
    {
        if find_phone_by_id(&self.phones, phone.id).is_some() {
            return Err(ServiceError::InternalServerError(String::from_str(
                "Error creating phone")));
        }
        self.phones.push(phone);
        Ok(())
    }

    /// Validates and stores a fresh phone number under the
    /// organization; `BadRequest` when the number fails the phone rule.
    pub fn create_phone_query(&mut self, org_id: PrefixedUuid, phone: String) -> (r: Result<Phone,
        ServiceError>)
        requires
            old(self).wf(),
            org_id.prefix == ResourceTag::Org,
        ensures
            final(self).wf(),
            final(self).same_except_phones(*old(self)),
            !valid_phone(phone@)
                ==> final(self).phones@ == old(self).phones@
                    && (r matches Err(e) && (e matches ServiceError::BadRequest(m)
                        && m@ == "Invalid phone number"@)),
            (r matches Ok(x) ==> valid_phone(phone@) && x.org_id == org_id && x.number@ == phone@
                && final(self).phones@ == old(self).phones@.push(x)),
            valid_phone(phone@)
                ==> (r matches Err(e) ==> final(self).phones@ == old(self).phones@
                    && (e matches ServiceError::InternalServerError(m)
                        && m@ == "Error creating phone"@)),
            valid_phone(phone@) ==> (r matches Err(_) ==> old(self).phones@.len() > 0),
    {
        let rec = Phone::from_details(org_id, phone);
        if !is_valid_phone(rec.number.as_str()) {
            return Err(ServiceError::BadRequest(String::from_str("Invalid phone number")));
        }
        let ret = rec.clone();
        self.insert_phone(rec)?;
        Ok(ret)
    }

    /// The phone with the given identifier; `NotFound` otherwise.
    pub fn get_phone_by_id(&self, phone_id: PrefixedUuid) -> (r: Result<Phone, ServiceError>)
        requires
            self.wf(),
        ensures
            (r matches Ok(x) <==> has_phone_id(self.phones@, phone_id)),
            (r matches Ok(x) ==> x.id == phone_id
                && exists|i: int| 0 <= i < self.phones@.len() && #[trigger] self.phones@[i] == x),
            (r matches Err(e) ==> e == ServiceError::NotFound),
    {
        match find_phone_by_id(&self.phones, phone_id) {
            Some(i) => Ok(self.phones[i].clone()),
            None => Err(ServiceError::NotFound),
        }
    }

    /// Deletes the phone; deleting an absent record succeeds and
    /// changes nothing.
    pub fn delete_phone_query(&mut self, phone_id: PrefixedUuid) -> (r: Result<(), ServiceError>)
        requires
            old(self).wf(),
        ensures
            final(self).wf(),
            final(self).same_except_phones(*old(self)),
            r matches Ok(_),
            !has_phone_id(final(self).phones@, phone_id),
            !has_phone_id(old(self).phones@, phone_id)
                ==> final(self).phones@ == old(self).phones@,
            has_phone_id(old(self).phones@, phone_id)
                ==> exists|i: int| 0 <= i < old(self).phones@.len()
                    && (#[trigger] old(self).phones@[i]).id == phone_id
                    && final(self).phones@ == old(self).phones@.remove(i),
    {
        match find_phone_by_id(&self.phones, phone_id) {
            Some(i) => {
                self.phones.remove(i);
                proof {
                    let pre = old(self).phones@;
                    let post = self.phones@;
                    assert forall|k: int| 0 <= k < post.len()
                        implies (#[trigger] post[k]).id != phone_id
                            && post[k].id.prefix == ResourceTag::Phone
                            && post[k].org_id.prefix == ResourceTag::Org by {
                        if k < i {
                            assert(post[k] == pre[k]);
                        } else {
                            assert(post[k] == pre[k + 1]);
                        }
                    }
                    assert forall|a: int, b: int| #![trigger post[a], post[b]]
                        0 <= a < b < post.len() implies post[a].id != post[b].id by {
                        let pa: int = if a < i { a } else { a + 1 };
                        let pb: int = if b < i { b } else { b + 1 };
                        assert(post[a] == pre[pa]);
                        assert(post[b] == pre[pb]);
                    }
                }
                Ok(())
            }
            None => Ok(()),
        }
    }

    /// Validates and replaces the stored number; `BadRequest` when the
    /// new number fails the phone rule, the service's updating error
    /// when the record does not exist.
    pub fn update_phone_query(&mut self, phone_id: PrefixedUuid, number: String) -> (r: Result<
        Phone, ServiceError>)
        requires
            old(self).wf(),
        ensures
            final(self).wf(),
            final(self).same_except_phones(*old(self)),
            !valid_phone(number@)
                ==> final(self).phones@ == old(self).phones@
                    && (r matches Err(e) && (e matches ServiceError::BadRequest(m)
                        && m@ == "Invalid phone number"@)),
            valid_phone(number@) && !has_phone_id(old(self).phones@, phone_id)
                ==> final(self).phones@ == old(self).phones@
                    && (r matches Err(e) && (e matches ServiceError::InternalServerError(m)
                        && m@ == "Error updating phone"@)),
            valid_phone(number@) && has_phone_id(old(self).phones@, phone_id)
                ==> (r matches Ok(x) && x.id == phone_id && x.number@ == number@
                    && exists|i: int| 0 <= i < old(self).phones@.len()
                        && (#[trigger] old(self).phones@[i]).id == phone_id
                        && x.org_id == old(self).phones@[i].org_id
                        && x.created_at == old(self).phones@[i].created_at
                        && x.updated_at == old(self).phones@[i].updated_at
                        && final(self).phones@ == old(self).phones@.update(i, x)),
    {
        if !is_valid_phone(number.as_str()) {
            return Err(ServiceError::BadRequest(String::from_str("Invalid phone number")));
        }
        match find_phone_by_id(&self.phones, phone_id) {
            Some(i) => {
                let mut rec = self.phones[i].clone();
                rec.number = number;
                let ret = rec.clone();
                self.phones[i] = rec;
                proof {
                    let pre = old(self).phones@;
                    let post = self.phones@;
                    assert forall|a: int, b: int| #![trigger post[a], post[b]]
                        0 <= a < b < post.len() implies post[a].id != post[b].id by {
                        assert(pre[a].id != pre[b].id);
                    }
                }
                Ok(ret)
            }
            None => Err(ServiceError::InternalServerError(String::from_str(
                "Error updating phone"))),
        }
    }
}

} // verus!
