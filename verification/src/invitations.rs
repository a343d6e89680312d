//! Invitations: pending offers of organization membership.
//!
//! An invitation records an email address, the organization, the role
//! the invitee will hold, and whether it has been used.

use vstd::prelude::*;
use crate::errors::ServiceError;
use crate::ids::{PrefixedUuid, ResourceTag};
use crate::models::Invitation;
use crate::store::Backend;

verus! {

pub open spec fn has_invitation_id(s: Seq<Invitation>, id: u128) -> bool {
    exists|i: int| 0 <= i < s.len() && (#[trigger] s[i]).id == id
}

/// The index of the invitation with the given identifier.
fn find_invitation_by_id(v: &Vec<Invitation>, id: u128) -> (r: Option<usize>)
    ensures
        match r {
            Some(i) => i < v@.len() && v@[i as int].id == id,
            None => !has_invitation_id(v@, id),
        },
{
    let n = v.len();
    let mut i: usize = 0;
    while i < n
        invariant
            0 <= i <= n,
            n == v@.len(),
            forall|j: int| 0 <= j < i ==> (#[trigger] v@[j]).id != id,
        decreases n - i,
    {
        if v[i].id == id {
            return Some(i);
        }
        i = i + 1;
    }
    None
}

/// The invitations of one organization, in stored order.
pub open spec fn invitations_of_org(s: Seq<Invitation>, org_id: PrefixedUuid) -> Seq<Invitation>
    decreases s.len(),
{
    if s.len() == 0 {
        s
    } else {
        let rest = invitations_of_org(s.drop_last(), org_id);
        if s.last().organization_id == org_id {
            rest.push(s.last())
        } else {
            rest
        }
    }
}

impl Backend {
    /// Stores the given invitation record; rejected, and the state
    /// left unchanged, exactly when its identifier is already taken.
    pub fn insert_invitation(&mut self, invitation: Invitation) -> (r: Result<(), ServiceError>)
        requires
            old(self).wf(),
            invitation.organization_id.prefix == ResourceTag::Org,
        ensures
            final(self).wf(),
            final(self).same_except_invitations(*old(self)),
            has_invitation_id(old(self).invitations@, invitation.id)
                ==> (r matches Err(ServiceError::InternalServerError(m))
                    && m@ == "Error creating invitation"@
                    && final(self).invitations@ == old(self).invitations@),
            !has_invitation_id(old(self).invitations@, invitation.id)
                ==> r is Ok
                    && final(self).invitations@ == old(self).invitations@.push(invitation),
    {
        if find_invitation_by_id(&self.invitations, invitation.id).is_some() {
            return Err(ServiceError::InternalServerError(String::from_str(
                "Error creating invitation")));
        }
        self.invitations.push(invitation);
        Ok(())
    }

    /// Stores a fresh, unused invitation of the email address into the
    /// organization with the given role.
    pub fn create_invitation_query(&mut self, email: String, organization_id: PrefixedUuid, role:
        i32) -> (r: Result<Invitation, ServiceError>)
        requires
            old(self).wf(),
            organization_id.prefix == ResourceTag::Org,
        ensures
            final(self).wf(),
            final(self).same_except_invitations(*old(self)),
            (r matches Ok(x) ==> x.email@ == email@ && x.organization_id == organization_id
                && x.role == role && !x.used
                && final(self).invitations@ == old(self).invitations@.push(x)),
            (r matches Err(e) ==> final(self).invitations@ == old(self).invitations@
                && (e matches ServiceError::InternalServerError(m)
                    && m@ == "Error creating invitation"@)),
            (r matches Err(_) ==> old(self).invitations@.len() > 0),
    {
        let inv = Invitation::from_details(email, organization_id, role);
        let ret = inv.clone();
        self.insert_invitation(inv)?;
        Ok(ret)
    }

    /// The invitation with the given identifier; `NotFound` otherwise.
    pub fn get_invitation_by_id_query(&self, invitation_id: u128) -> (r: Result<Invitation,
        ServiceError>)
        requires
            self.wf(),
        ensures
            (r matches Ok(x) <==> has_invitation_id(self.invitations@, invitation_id)),
            (r matches Ok(x) ==> x.id == invitation_id
                && exists|i: int| 0 <= i < self.invitations@.len()
                    && #[trigger] self.invitations@[i] == x),
            (r matches Err(e) ==> e == ServiceError::NotFound),
    {
        match find_invitation_by_id(&self.invitations, invitation_id) {
            Some(i) => Ok(self.invitations[i].clone()),
            None => Err(ServiceError::NotFound),
        }
    }

    /// Every invitation of the organization, in stored order.
    pub fn get_invitations_for_organization_query(&self, org_id: PrefixedUuid) -> (r: Result<Vec<
        Invitation>, ServiceError>)
        requires
            self.wf(),
        ensures
            (r matches Ok(v) && v@ == invitations_of_org(self.invitations@, org_id)),
    {
        let ghost all_spec = invitations_of_org(self.invitations@, org_id);
        let n = self.invitations.len();
        let mut all: Vec<Invitation> = Vec::new();
        let mut i: usize = 0;
        while i < n
            invariant
                0 <= i <= n,
                n == self.invitations@.len(),
                all@ == invitations_of_org(self.invitations@.take(i as int), org_id),
            decreases n - i,
        {
            proof {
                assert(self.invitations@.take(i + 1).drop_last()
                    =~= self.invitations@.take(i as int));
                assert(self.invitations@.take(i + 1).last() == self.invitations@[i as int]);
            }
            if self.invitations[i].organization_id == org_id {
                let kept = self.invitations[i].clone();
                all.push(kept);
            }
            i = i + 1;
        }
        proof {
            assert(self.invitations@.take(n as int) =~= self.invitations@);
        }
        Ok(all)
    }

    /// Deletes the invitation; deleting an absent invitation succeeds
    /// and changes nothing.
    pub fn delete_invitation_by_id_query(&mut self, invitation_id: u128) -> (r: Result<(),
        ServiceError>)
        requires
            old(self).wf(),
        ensures
            final(self).wf(),
            final(self).same_except_invitations(*old(self)),
            r matches Ok(_),
            !has_invitation_id(final(self).invitations@, invitation_id),
            !has_invitation_id(old(self).invitations@, invitation_id)
                ==> final(self).invitations@ == old(self).invitations@,
            has_invitation_id(old(self).invitations@, invitation_id)
                ==> exists|i: int| 0 <= i < old(self).invitations@.len()
                    && (#[trigger] old(self).invitations@[i]).id == invitation_id
                    && final(self).invitations@ == old(self).invitations@.remove(i),
    {
        match find_invitation_by_id(&self.invitations, invitation_id) {
            Some(i) => {
                self.invitations.remove(i);
                proof {
                    let pre = old(self).invitations@;
                    let post = self.invitations@;
                    assert forall|k: int| 0 <= k < post.len()
                        implies (#[trigger] post[k]).id != invitation_id
                            && post[k].organization_id.prefix == ResourceTag::Org by {
                        if k < i {
                            assert(post[k] == pre[k]);
                        } else {
                            assert(post[k] == pre[k + 1]);
                        }
                    }
                    assert forall|a: int, b: int| #![trigger post[a], post[b]]
                        0 <= a < b < post.len() implies post[a].id != post[b].id by {
                        let pa: int = if a < i { a } else { a + 1 };
                        let pb: int = if b < i { b } else { b + 1 };
                        assert(post[a] == pre[pa]);
                        assert(post[b] == pre[pb]);
                    }
                }
                Ok(())
            }
            None => Ok(()),
        }
    }
}

} // verus!
