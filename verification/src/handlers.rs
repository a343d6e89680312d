//! The HTTP surface: request payloads and one verified function per
//! endpoint.
//!
//! Each handler receives what the middleware extracted — the signed-in
//! user, or the caller's membership of the organization named by the
//! request — beside the request payload, and returns either a reply
//! carrying the HTTP status code and body, or a service error that the
//! HTTP layer renders by `ServiceError::status_code`.  Every read,
//! update and deletion of an org-scoped resource verifies, through one
//! shared guard, that the resource belongs to the caller's
//! organization.

use vstd::prelude::*;
use crate::errors::ServiceError;
use crate::ids::{IdParseError, PrefixedUuid, ResourceTag};
use crate::models::{Deal, Link, Note, Org, OrgUserLink, Task, TaskDeal, TaskLink, TaskUser, User};
use crate::roles::{role_level, role_of_i32};
use crate::store::{has_link_pair, has_org_id, Backend};
use crate::validate::{is_valid_email, valid_email};

verus! {

/// A successful response: the HTTP status code and the body.
#[derive(Debug, PartialEq, Eq)]
pub struct Reply<T> {
    pub status: u16,
    pub body: T,
}

/// The body of a request creating an organization.
pub struct CreateOrgReqPayload {
    pub name: String,
}

/// The body of a request renaming an organization.
pub struct UpdateOrgReqPayload {
    pub name: String,
}

/// The paging bounds of the caller's organization listing.
pub struct GetMyOrgsReqQuery {
    pub limit: Option<i64>,
    pub offset: Option<i64>,
}

/// The body of a request creating an API key.
pub struct CreateApiKeyReqPayload {
    pub name: String,
}

/// The one-time reply carrying a freshly created API key.
#[derive(Debug, PartialEq, Eq)]
pub struct CreateApiKeyRespPayload {
    pub api_key: String,
}

/// The query parameters of the identity provider's callback.
pub struct OpCallback {
    pub state: String,
    pub session_state: String,
    pub code: String,
}

/// The logout request: where to send the browser afterwards.
pub struct LogoutRequest {
    pub redirect_uri: Option<String>,
}

/// What a pending login stores across the provider round trip.
pub struct LoginState {
    pub redirect_uri: String,
}

/// The body of a request sending an invitation.
pub struct InvitationData {
    pub organization_id: PrefixedUuid,
    pub user_role: i32,
    pub email: String,
    pub app_url: String,
    pub redirect_uri: String,
}

/// The reply to a sent invitation: where the invitee registers.
#[derive(Debug, PartialEq, Eq)]
pub struct InvitationResponse {
    pub registration_url: String,
}

/// An invitation together with the address where it is redeemed.
pub struct InvitationWithUrl {
    pub invitation: crate::models::Invitation,
    pub registration_url: String,
}

impl Backend {
    /// `POST /api/orgs`: creates an organization owned by the caller;
    /// replies 201 with the organization.
    pub fn create_org(&mut self, req_payload: CreateOrgReqPayload, authed_user: &User) -> (r:
        Result<Reply<Org>, ServiceError>)
        requires
            old(self).wf(),
            authed_user.id.prefix == ResourceTag::User,
        ensures
            final(self).wf(),
            (r matches Ok(reply) ==> reply.status == 201
                && reply.body.name@ == req_payload.name@
                && reply.body.id.prefix == ResourceTag::Org
                && final(self).orgs@ == old(self).orgs@.push(reply.body)
                && (exists|l: OrgUserLink|
                    final(self).org_users@ == old(self).org_users@.push(l)
                    && #[trigger] l.user_id == authed_user.id && l.org_id == reply.body.id
                    && l.role == role_level(crate::roles::UserRole::Owner))),
            (r matches Err(_) ==> final(self).org_users@ == old(self).org_users@
                && (final(self).orgs@ == old(self).orgs@
                    || exists|o: Org| final(self).orgs@ == old(self).orgs@.push(o))),
            (r matches Err(_) ==> old(self).orgs@.len() > 0 || old(self).org_users@.len() > 0),
    {
        let org = self.create_org_query(req_payload.name, authed_user)?;
        Ok(Reply { status: 201, body: org })
    }

    /// `DELETE /api/orgs/{org_id}`: deletes the organization when the
    /// caller is one of its members, replying 204; replies 401 and
    /// changes nothing when the caller is not.
    pub fn delete_org(&mut self, authed_user: &User, org_id: PrefixedUuid) -> (r: Result<Reply<
        ()>, ServiceError>)
        requires
            old(self).wf(),
        ensures
            final(self).wf(),
            !(has_link_pair(old(self).org_users@, authed_user.id, org_id)
                && has_org_id(old(self).orgs@, org_id))
                ==> *final(self) == *old(self)
                    && (r matches Ok(reply) && reply.status == 401),
            has_link_pair(old(self).org_users@, authed_user.id, org_id)
                && has_org_id(old(self).orgs@, org_id)
                ==> (r matches Ok(reply) && reply.status == 204
                    && !has_org_id(final(self).orgs@, org_id)
                    && !has_link_pair(final(self).org_users@, authed_user.id, org_id)),
    {
        match self.user_in_org_query(org_id, authed_user.id)? {
            Some(org) => {
                self.delete_org_query(org.id)?;
                Ok(Reply { status: 204, body: () })
            }
            None => Ok(Reply { status: 401, body: () }),
        }
    }

    /// `GET /api/orgs/{org_id}`: the organization when the caller is
    /// one of its members, with 200; 401 otherwise.
    pub fn get_org(&self, org_id: PrefixedUuid, authed_user: &User) -> (r: Result<Reply<Option<
        Org>>, ServiceError>)
        requires
            self.wf(),
        ensures
            (r matches Ok(reply) ==> (reply.status == 200
                <==> has_link_pair(self.org_users@, authed_user.id, org_id)
                    && has_org_id(self.orgs@, org_id))),
            (r matches Ok(reply) ==> (reply.status == 200 ==> (reply.body matches Some(o)
                && o.id == org_id
                && exists|i: int| 0 <= i < self.orgs@.len() && #[trigger] self.orgs@[i] == o))),
            (r matches Ok(reply) ==> reply.status == 200 || reply.status == 401),
            (r matches Ok(reply) ==> (reply.status != 200 ==> reply.body is None)),
            (r matches Err(_) ==> false),
    {
        match self.user_in_org_query(org_id, authed_user.id)? {
            Some(org) => Ok(Reply { status: 200, body: Some(org) }),
            None => Ok(Reply { status: 401, body: None }),
        }
    }

    /// `PUT /api/orgs/{org_id}`: renames the organization when the
    /// caller is one of its members, keeping its creation time, with
    /// 200; 401 and no change otherwise.
    pub fn update_org(&mut self, req_payload: UpdateOrgReqPayload, org_id: PrefixedUuid,
        authed_user: &User) -> (r: Result<Reply<Option<Org>>, ServiceError>)
        requires
            old(self).wf(),
            org_id.prefix == ResourceTag::Org,
        ensures
            final(self).wf(),
            !(has_link_pair(old(self).org_users@, authed_user.id, org_id)
                && has_org_id(old(self).orgs@, org_id))
                ==> *final(self) == *old(self)
                    && (r matches Ok(reply) && reply.status == 401 && reply.body is None),
            has_link_pair(old(self).org_users@, authed_user.id, org_id)
                && has_org_id(old(self).orgs@, org_id)
                ==> (r matches Ok(reply) && reply.status == 200
                    && (reply.body matches Some(o) && o.id == org_id
                        && o.name@ == req_payload.name@
                        && exists|i: int| 0 <= i < old(self).orgs@.len()
                            && (#[trigger] old(self).orgs@[i]).id == org_id
                            && o.created_at == old(self).orgs@[i].created_at
                            && final(self).orgs@ == old(self).orgs@.update(i, o))),
    {
        match self.user_in_org_query(org_id, authed_user.id)? {
            Some(prev_org) => {
                let mut org = Org::from_details_with_id(org_id, req_payload.name);
                org.created_at = prev_org.created_at;
                let updated = self.update_org_query(org)?;
                Ok(Reply { status: 200, body: Some(updated) })
            }
            None => Ok(Reply { status: 401, body: None }),
        }
    }

    /// `GET /api/orgs`: one page of the caller's organizations, 200.
    pub fn get_orgs_for_authed_user(&self, query: GetMyOrgsReqQuery, authed_user: &User) -> (r:
        Result<Reply<Vec<Org>>, ServiceError>)
        requires
            self.wf(),
        ensures
            (r matches Ok(reply) ==> reply.status == 200
                && reply.body@ == crate::store::page_opt(
                    crate::store::orgs_of_user(self.orgs@, self.org_users@, authed_user.id),
                    query.limit, query.offset)),
    {
        let user_orgs = self.get_orgs_for_user_query(authed_user.id, query.limit, query.offset)?;
        Ok(Reply { status: 200, body: user_orgs })
    }

    /// `POST /api/api_key`: creates an API key for the caller and
    /// replies 201 with the raw key, the one time it is shown.
    pub fn create_api_key(&mut self, authed_user: &User, req_payload: CreateApiKeyReqPayload)
        -> (r: Result<Reply<CreateApiKeyRespPayload>, ServiceError>)
        requires
            old(self).wf(),
            authed_user.id.prefix == ResourceTag::User,
        ensures
            final(self).wf(),
            final(self).same_except_api_keys(*old(self)),
            (r matches Ok(reply) ==> reply.status == 201
                && (exists|k: crate::models::ApiKey|
                    final(self).api_keys@ == old(self).api_keys@.push(k)
                    && #[trigger] k.user_id == authed_user.id
                    && k.name@ == req_payload.name@
                    && k.blake3_hash@ == crate::api_keys::blake3_hex_of(reply.body.api_key@))),
            (r matches Err(_) ==> final(self).api_keys@ == old(self).api_keys@
                && old(self).api_keys@.len() > 0),
    {
        let api_key = self.create_api_key_query(authed_user.id, req_payload.name)?;
        Ok(Reply { status: 201, body: CreateApiKeyRespPayload { api_key } })
    }

    /// `POST /api/invitation`: invites an email address into the
    /// caller's organization.  The address must pass the email rule;
    /// the caller may not grant a role above their own; the invitee
    /// must already have an account and not be a member yet.  On
    /// success the invitee is linked with the requested role, an
    /// invitation is stored, and the reply carries the registration
    /// address, with 204.
    pub fn post_invitation(&mut self, invitation_data: InvitationData, user: &OrgUserLink) -> (r:
        Result<Reply<InvitationResponse>, ServiceError>)
        requires
            old(self).wf(),
            invitation_data.organization_id.prefix == ResourceTag::Org,
        ensures
            final(self).wf(),
            !valid_email(invitation_data.email@)
                ==> *final(self) == *old(self)
                    && (r matches Err(e) && (e matches ServiceError::BadRequest(m)
                        && m@ == "Invalid email"@)),
            valid_email(invitation_data.email@)
                && role_level(role_of_i32(user.role))
                    < role_level(role_of_i32(invitation_data.user_role))
                ==> *final(self) == *old(self)
                    && (r matches Err(e) && (e matches ServiceError::BadRequest(m)
                        && m@ == "Can not invite user with higher role than yours"@)),
            (r matches Ok(reply) ==> reply.status == 204
                && valid_email(invitation_data.email@)
                && role_level(role_of_i32(user.role))
                    >= role_level(role_of_i32(invitation_data.user_role))
                && crate::store::has_user_email(old(self).users@, invitation_data.email@)
                && (exists|l: OrgUserLink|
                    final(self).org_users@ == old(self).org_users@.push(l)
                    && (#[trigger] l.org_id) == invitation_data.organization_id
                    && l.role == role_level(role_of_i32(invitation_data.user_role))
                    && (exists|j: int| 0 <= j < old(self).users@.len()
                        && (#[trigger] old(self).users@[j]).email@ == invitation_data.email@
                        && old(self).users@[j].id == l.user_id))),
            valid_email(invitation_data.email@)
                && role_level(role_of_i32(user.role))
                    >= role_level(role_of_i32(invitation_data.user_role))
                && !crate::store::has_user_email(old(self).users@, invitation_data.email@)
                ==> *final(self) == *old(self)
                    && (r matches Err(e) && e matches ServiceError::BadRequest(_)),
            (r matches Ok(reply) ==> exists|inv: crate::models::Invitation|
                final(self).invitations@ == old(self).invitations@.push(inv)
                && (#[trigger] inv.email@) == invitation_data.email@
                && inv.organization_id == invitation_data.organization_id
                && inv.role == invitation_data.user_role && !inv.used
                && reply.body.registration_url@ == invitation_data.app_url@
                    + "/auth?inv_code="@ + crate::ids::uuid_text(inv.id)
                    + "&organization_id="@
                    + crate::ids::id_text(ResourceTag::Org, invitation_data.organization_id.raw)
                    + "&redirect_uri="@ + invitation_data.redirect_uri@),
            (valid_email(invitation_data.email@)
                && role_level(role_of_i32(user.role))
                    >= role_level(role_of_i32(invitation_data.user_role))
                && crate::store::has_user_email(old(self).users@, invitation_data.email@)
                && (forall|j: int| 0 <= j < old(self).users@.len()
                    && (#[trigger] old(self).users@[j]).email@ == invitation_data.email@
                    ==> !has_link_pair(old(self).org_users@, old(self).users@[j].id,
                        invitation_data.organization_id)))
                ==> (r matches Err(_) ==> old(self).org_users@.len() > 0
                    || old(self).invitations@.len() > 0),
            (r matches Ok(_) ==> final(self).users@ == old(self).users@),
    {
        let email = invitation_data.email;
        if !is_valid_email(email.as_str()) {
            return Err(ServiceError::BadRequest(String::from_str("Invalid email")));
        }
        let caller_role = crate::roles::UserRole::from_i32(user.role);
        let invited_role = crate::roles::UserRole::from_i32(invitation_data.user_role);
        if !caller_role.at_least(&invited_role) {
            return Err(ServiceError::BadRequest(String::from_str(
                "Can not invite user with higher role than yours")));
        }
        let db_user = self.get_user_by_email_query(email.as_str())?;
        self.add_user_to_org_query(db_user.id, invitation_data.organization_id, invited_role)?;
        let invitation = self.create_invitation(invitation_data.app_url, email,
            invitation_data.organization_id, invitation_data.redirect_uri,
            invitation_data.user_role)?;
        Ok(Reply {
            status: 204,
            body: InvitationResponse { registration_url: invitation.registration_url },
        })
    }

    /// Stores an invitation and renders the address where the invitee
    /// registers.
    pub fn create_invitation(&mut self, app_url: String, email: String, organization_id:
        PrefixedUuid, redirect_uri: String, user_role: i32) -> (r: Result<InvitationWithUrl,
        ServiceError>)
        requires
            old(self).wf(),
            organization_id.prefix == ResourceTag::Org,
        ensures
            final(self).wf(),
            final(self).same_except_invitations(*old(self)),
            (r matches Ok(x) ==> x.invitation.email@ == email@
                && x.invitation.organization_id == organization_id
                && x.invitation.role == user_role && !x.invitation.used
                && final(self).invitations@ == old(self).invitations@.push(x.invitation)
                && x.registration_url@ == app_url@ + "/auth?inv_code="@
                    + crate::ids::uuid_text(x.invitation.id) + "&organization_id="@
                    + crate::ids::id_text(ResourceTag::Org, organization_id.raw)
                    + "&redirect_uri="@ + redirect_uri@),
            (r matches Err(_) ==> final(self).invitations@ == old(self).invitations@
                && old(self).invitations@.len() > 0),
    {
        let invitation = self.create_invitation_query(email, organization_id, user_role)?;
        let mut registration_url = app_url;
        registration_url.append("/auth?inv_code=");
        let inv_code = crate::ids::format_uuid(invitation.id);
        registration_url.append(inv_code.as_str());
        registration_url.append("&organization_id=");
        let org_text = organization_id.format();
        registration_url.append(org_text.as_str());
        registration_url.append("&redirect_uri=");
        registration_url.append(redirect_uri.as_str());
        Ok(InvitationWithUrl { invitation, registration_url })
    }

    /// `GET /api/invitation/{organization_id}`: every invitation of the
    /// organization, 200.
    pub fn get_invitations(&self, org_id: PrefixedUuid) -> (r: Result<Reply<Vec<
        crate::models::Invitation>>, ServiceError>)
        requires
            self.wf(),
        ensures
            (r matches Ok(reply) ==> reply.status == 200
                && reply.body@ == crate::invitations::invitations_of_org(self.invitations@,
                    org_id)),
    {
        let invitations = self.get_invitations_for_organization_query(org_id)?;
        Ok(Reply { status: 200, body: invitations })
    }

    /// `DELETE /api/invitation/{invitation_id}`: deletes the invitation
    /// after checking it exists, 204.
    pub fn delete_invitation(&mut self, invitation_id: u128) -> (r: Result<Reply<()>,
        ServiceError>)
        requires
            old(self).wf(),
        ensures
            final(self).wf(),
            final(self).same_except_invitations(*old(self)),
            !crate::invitations::has_invitation_id(old(self).invitations@, invitation_id)
                ==> final(self).invitations@ == old(self).invitations@
                    && r == Err::<Reply<()>, ServiceError>(ServiceError::NotFound),
            crate::invitations::has_invitation_id(old(self).invitations@, invitation_id)
                ==> (r matches Ok(reply) && reply.status == 204
                    && !crate::invitations::has_invitation_id(final(self).invitations@,
                        invitation_id)),
    {
        let _invite = self.get_invitation_by_id_query(invitation_id)?;
        self.delete_invitation_by_id_query(invitation_id)?;
        Ok(Reply { status: 204, body: () })
    }
}

/// `GET /api/auth/whoami`: the signed-in caller, 200.
pub fn whoami(user: User) -> (r: Result<Reply<User>, ServiceError>)
    ensures
        (r matches Ok(reply) && reply.status == 200 && reply.body == user),
{
    Ok(Reply { status: 200, body: user })
}

/// `GET /api/health`: the service is up, 200.
pub fn health_check() -> (r: Result<Reply<()>, ServiceError>)
    ensures
        (r matches Ok(reply) && reply.status == 200),
{
    Ok(Reply { status: 200, body: () })
}

/// The body of a request creating a contact.
pub struct CreateContactReqPayload {
    pub first_name: String,
    pub last_name: String,
}

/// The body of a request updating a contact's names.
pub struct UpdateContactReqPayload {
    pub first_name: Option<String>,
    pub last_name: Option<String>,
}

/// The body of a request creating a deal.  The size carries the bit
/// pattern of the reported 32-bit floating-point figure.
pub struct CreateDealReqPayload {
    pub size_bits: Option<u32>,
    pub name: Option<String>,
    pub active: Option<bool>,
}

/// The body of a request updating a deal.
pub struct UpdateDealReqPayload {
    pub name: Option<String>,
    pub size_bits: Option<u32>,
    pub active: Option<bool>,
}

/// The body of a request storing an email address.
pub struct CreateEmailReqPayload {
    pub email: String,
}

/// The body of a request replacing a stored email address.
pub struct UpdateEmailReqPayload {
    pub email: String,
}

/// The body of a request storing a hyperlink.
pub struct CreateLinkReqPayload {
    pub link: String,
}

/// The body of a request replacing a stored hyperlink.
pub struct UpdateLinkReqPayload {
    pub link: String,
}

/// The body of a request creating a note.
pub struct CreateNoteReqPayload {
    pub title: String,
}

/// The body of a request replacing a note's body.
pub struct UpdateNoteReqPayload {
    pub body: String,
}

/// The paging bounds of an organization's note listing.
pub struct GetNotesForOrgReqQuery {
    pub limit: Option<i64>,
    pub offset: Option<i64>,
}

/// The body of a request storing a phone number.
pub struct CreatePhoneReqPayload {
    pub number: String,
}

/// The body of a request replacing a stored phone number.
pub struct UpdatePhoneReqPayload {
    pub number: String,
}

/// The body of a request creating a task.
pub struct CreateTaskReqPayload {
    pub description: Option<String>,
    pub deadline: Option<i64>,
    pub contact_id: Option<PrefixedUuid>,
}

/// The body of a request updating a task.
pub struct UpdateTaskReqPayload {
    pub description: Option<String>,
    pub deadline: Option<i64>,
    pub contact_id: Option<PrefixedUuid>,
}

/// The kind of resource a task-association request names.
#[derive(Debug, PartialEq, Eq)]
pub enum TaskResType {
    Link,
    Deal,
    User,
}

/// One stored task association, of whichever kind was asked for.
#[derive(Debug, PartialEq, Eq)]
pub enum TaskResource {
    Link(TaskLink),
    Deal(TaskDeal),
    User(TaskUser),
}

/// One page of a task's associated resources.
#[derive(Debug, PartialEq, Eq)]
pub enum TaskResourceList {
    Link(Vec<Link>),
    Deal(Vec<Deal>),
    User(Vec<User>),
}

/// A page of a task's associated resources with the total count.
#[derive(Debug, PartialEq, Eq)]
pub struct TaskResourceListWithPagination {
    pub data: TaskResourceList,
    pub total: usize,
}

/// The paging bounds of a task's resource listing.
pub struct GetTaskResourceQuery {
    pub limit: Option<i64>,
    pub offset: Option<i64>,
}

impl Backend {
    /// `POST /api/notes`: creates a note under the member's
    /// organization, 201.
    pub fn create_note(&mut self, req_payload: CreateNoteReqPayload, org_member: &OrgUserLink)
        -> (r: Result<Reply<Note>, ServiceError>)
        requires
            old(self).wf(),
            org_member.org_id.prefix == ResourceTag::Org,
        ensures
            final(self).wf(),
            (r matches Ok(reply) ==> reply.status == 201
                && reply.body.org_id == org_member.org_id
                && reply.body.title@ == req_payload.title@
                && final(self).notes@ == old(self).notes@.push(reply.body)),
            (r matches Err(_) ==> final(self).notes@ == old(self).notes@
                && old(self).notes@.len() > 0),
    {
        let note = self.create_note_query(req_payload.title, org_member.org_id)?;
        Ok(Reply { status: 201, body: note })
    }

    /// `DELETE /api/notes/{note_id}`: deletes the note when it
    /// belongs to the member's organization, 204; `Unauthorized` when
    /// it belongs to another organization.  Deleting an absent record
    /// succeeds and changes nothing.
    pub fn delete_note(&mut self, org_user: &OrgUserLink, note_id: PrefixedUuid) -> (r: Result<
        Reply<()>, ServiceError>)
        requires
            old(self).wf(),
        ensures
            final(self).wf(),
            (exists|i: int| 0 <= i < old(self).notes@.len()
                && (#[trigger] old(self).notes@[i]).id == note_id
                && old(self).notes@[i].org_id != org_user.org_id)
                ==> r == Err::<Reply<()>, ServiceError>(ServiceError::Unauthorized)
                    && *final(self) == *old(self),
            !(exists|i: int| 0 <= i < old(self).notes@.len()
                && (#[trigger] old(self).notes@[i]).id == note_id
                && old(self).notes@[i].org_id != org_user.org_id)
                ==> (r matches Ok(reply) && reply.status == 204
                    && final(self).same_except_notes(*old(self))
                    && !crate::crm::has_note_id(final(self).notes@, note_id)),
            !crate::crm::has_note_id(old(self).notes@, note_id)
                ==> final(self).notes@ == old(self).notes@,
    {
        match self.get_note_by_id_query(note_id) {
            Ok(found) => {
                crate::auth::require_same_org(found.org_id, org_user)?;
                self.delete_note_query(note_id)?;
                Ok(Reply { status: 204, body: () })
            }
            Err(_) => Ok(Reply { status: 204, body: () }),
        }
    }

    /// `PUT /api/notes/{note_id}`: replaces the note's body when the
    /// note belongs to the member's organization, 200; `Unauthorized`
    /// when it belongs to another organization.
    pub fn update_note(&mut self, req_payload: UpdateNoteReqPayload, note_id: PrefixedUuid,
        org_member: &OrgUserLink) -> (r: Result<Reply<Note>, ServiceError>)
        requires
            old(self).wf(),
        ensures
            final(self).wf(),
            (exists|i: int| 0 <= i < old(self).notes@.len()
                && (#[trigger] old(self).notes@[i]).id == note_id
                && old(self).notes@[i].org_id != org_member.org_id)
                ==> r == Err::<Reply<Note>, ServiceError>(ServiceError::Unauthorized)
                    && *final(self) == *old(self),
            (r matches Ok(reply) ==> reply.status == 200 && reply.body.id == note_id
                && reply.body.org_id == org_member.org_id
                && reply.body.body@ == req_payload.body@),
            (r matches Ok(_) <==> (exists|i: int| 0 <= i < old(self).notes@.len()
                && (#[trigger] old(self).notes@[i]).id == note_id
                && old(self).notes@[i].org_id == org_member.org_id)),
            !crate::crm::has_note_id(old(self).notes@, note_id)
                ==> (r matches Err(e) && (e matches ServiceError::InternalServerError(m)
                    && m@ == "Error updating note body"@)),
            (r matches Err(_) ==> final(self).notes@ == old(self).notes@),
    {
        match self.get_note_by_id_query(note_id) {
            Ok(found) => {
                crate::auth::require_same_org(found.org_id, org_member)?;
            }
            Err(_) => {}
        }
        let new_note = self.update_note_body_query(note_id, req_payload.body)?;
        Ok(Reply { status: 200, body: new_note })
    }

    /// `GET /api/notes`: one page of the member organization's notes,
    /// 200.
    pub fn get_notes_for_org(&self, query: GetNotesForOrgReqQuery, authed_user: &OrgUserLink)
        -> (r: Result<Reply<Vec<Note>>, ServiceError>)
        requires
            self.wf(),
        ensures
            (r matches Ok(reply) ==> reply.status == 200
                && reply.body@ == crate::store::page_opt(
                    crate::crm::notes_of_org(self.notes@, authed_user.org_id),
                    query.limit, query.offset)),
    {
        let org_notes = self.get_notes_for_org_query(authed_user.org_id, query.limit,
            query.offset)?;
        Ok(Reply { status: 200, body: org_notes })
    }

    /// `GET /api/notes/{note_id}`: the note when it belongs to the
    /// member's organization, 200; 401 when it belongs to another
    /// organization; `NotFound` when it does not exist.
    pub fn get_note_by_id(&self, note_id: PrefixedUuid, org_member: &OrgUserLink) -> (r: Result<
        Reply<Option<Note>>, ServiceError>)
        requires
            self.wf(),
        ensures
            !crate::crm::has_note_id(self.notes@, note_id)
                ==> r == Err::<Reply<Option<Note>>, ServiceError>(ServiceError::NotFound),
            (r matches Ok(reply) ==> (reply.status == 200 || reply.status == 401)),
            (r matches Ok(reply) ==> (reply.status == 200 <==> (reply.body matches Some(x)
                && x.id == note_id && x.org_id == org_member.org_id
                && exists|i: int| 0 <= i < self.notes@.len()
                    && #[trigger] self.notes@[i] == x))),
            (r matches Ok(reply) ==> (reply.status != 200 ==> reply.body is None)),
    {
        let note = self.get_note_by_id_query(note_id)?;
        if note.org_id != org_member.org_id {
            return Ok(Reply { status: 401, body: None });
        }
        Ok(Reply { status: 200, body: Some(note) })
    }

    /// `POST /api/contacts`: creates a contact under the member's
    /// organization, 201.
    pub fn create_contact(&mut self, req_payload: CreateContactReqPayload, org_user:
        &OrgUserLink) -> (r: Result<Reply<crate::models::Contact>, ServiceError>)
        requires
            old(self).wf(),
            org_user.org_id.prefix == ResourceTag::Org,
        ensures
            final(self).wf(),
            (r matches Ok(reply) ==> reply.status == 201
                && reply.body.org_id == org_user.org_id
                && reply.body.first_name@ == req_payload.first_name@
                && reply.body.last_name@ == req_payload.last_name@
                && final(self).contacts@ == old(self).contacts@.push(reply.body)),
            (r matches Err(_) ==> final(self).contacts@ == old(self).contacts@
                && old(self).contacts@.len() > 0),
    {
        let contact = self.create_contact_query(org_user.org_id, req_payload.first_name,
            req_payload.last_name)?;
        Ok(Reply { status: 201, body: contact })
    }

    /// `DELETE /api/contacts/{contact_id}`: deletes the contact when it
    /// belongs to the member's organization, 204; `Unauthorized` when
    /// it belongs to another organization.  Deleting an absent record
    /// succeeds and changes nothing.
    pub fn delete_contact(&mut self, org_user: &OrgUserLink, contact_id: PrefixedUuid) -> (r: Result<
        Reply<()>, ServiceError>)
        requires
            old(self).wf(),
        ensures
            final(self).wf(),
            (exists|i: int| 0 <= i < old(self).contacts@.len()
                && (#[trigger] old(self).contacts@[i]).id == contact_id
                && old(self).contacts@[i].org_id != org_user.org_id)
                ==> r == Err::<Reply<()>, ServiceError>(ServiceError::Unauthorized)
                    && *final(self) == *old(self),
            !(exists|i: int| 0 <= i < old(self).contacts@.len()
                && (#[trigger] old(self).contacts@[i]).id == contact_id
                && old(self).contacts@[i].org_id != org_user.org_id)
                ==> (r matches Ok(reply) && reply.status == 204
                    && final(self).same_except_contacts(*old(self))
                    && !crate::crm::has_contact_id(final(self).contacts@, contact_id)),
            !crate::crm::has_contact_id(old(self).contacts@, contact_id)
                ==> final(self).contacts@ == old(self).contacts@,
    {
        match self.get_contact_by_id(contact_id) {
            Ok(found) => {
                crate::auth::require_same_org(found.org_id, org_user)?;
                self.delete_contact_query(contact_id)?;
                Ok(Reply { status: 204, body: () })
            }
            Err(_) => Ok(Reply { status: 204, body: () }),
        }
    }

    /// `GET /api/contacts/{contact_id}`: the contact when it belongs to the
    /// member's organization, 200; 401 with an empty body when it
    /// belongs to another organization; 404 when it does not exist.
    pub fn get_contact(&self, contact_id: PrefixedUuid, org_user: &OrgUserLink) -> (r: Result<Reply<
        Option<crate::models::Contact>>, ServiceError>)
        requires
            self.wf(),
        ensures
            (r matches Ok(reply) ==> (reply.status == 200
                <==> exists|i: int| 0 <= i < self.contacts@.len()
                    && (#[trigger] self.contacts@[i]).id == contact_id
                    && self.contacts@[i].org_id == org_user.org_id)),
            (r matches Ok(reply) ==> (reply.status == 404
                <==> !crate::crm::has_contact_id(self.contacts@, contact_id))),
            (r matches Ok(reply) ==> (reply.status == 200 || reply.status == 401
                || reply.status == 404)),
            (r matches Ok(reply) ==> (reply.status == 200 ==> (reply.body matches Some(x)
                && x.id == contact_id && x.org_id == org_user.org_id))),
            (r matches Ok(reply) ==> (reply.status != 200 ==> reply.body is None)),
            (r matches Err(_) ==> false),
    {
        match self.get_contact_by_id(contact_id) {
            Ok(found) => {
                if found.org_id != org_user.org_id {
                    return Ok(Reply { status: 401, body: None });
                }
                Ok(Reply { status: 200, body: Some(found) })
            }
            Err(_) => Ok(Reply { status: 404, body: None }),
        }
    }

    /// `PUT /api/contacts/{contact_id}`: replaces the contact's
    /// supplied names when the contact belongs to the member's
    /// organization, 200; `Unauthorized` when it belongs to another
    /// organization.
    pub fn update_contact(&mut self, req_payload: UpdateContactReqPayload, contact_id:
        PrefixedUuid, org_user: &OrgUserLink) -> (r: Result<Reply<crate::models::Contact>,
        ServiceError>)
        requires
            old(self).wf(),
        ensures
            final(self).wf(),
            (exists|i: int| 0 <= i < old(self).contacts@.len()
                && (#[trigger] old(self).contacts@[i]).id == contact_id
                && old(self).contacts@[i].org_id != org_user.org_id)
                ==> r == Err::<Reply<crate::models::Contact>, ServiceError>(
                    ServiceError::Unauthorized) && *final(self) == *old(self),
            (r matches Ok(reply) ==> reply.status == 200 && reply.body.id == contact_id
                && reply.body.org_id == org_user.org_id),
            (r matches Ok(_) <==> (exists|i: int| 0 <= i < old(self).contacts@.len()
                && (#[trigger] old(self).contacts@[i]).id == contact_id
                && old(self).contacts@[i].org_id == org_user.org_id)),
            !crate::crm::has_contact_id(old(self).contacts@, contact_id)
                ==> (r matches Err(e) && (e matches ServiceError::InternalServerError(m)
                    && m@ == "Error updating contact"@)),
            (r matches Err(_) ==> final(self).contacts@ == old(self).contacts@),
    {
        match self.get_contact_by_id(contact_id) {
            Ok(found) => {
                crate::auth::require_same_org(found.org_id, org_user)?;
            }
            Err(_) => {}
        }
        let contact = self.update_contact_query(contact_id, req_payload.first_name,
            req_payload.last_name)?;
        Ok(Reply { status: 200, body: contact })
    }

    /// `POST /api/deals`: creates a deal under the member's
    /// organization, 201; a missing activity flag means inactive.
    pub fn create_deal(&mut self, req_payload: CreateDealReqPayload, org_user: &OrgUserLink)
        -> (r: Result<Reply<Deal>, ServiceError>)
        requires
            old(self).wf(),
            org_user.org_id.prefix == ResourceTag::Org,
        ensures
            final(self).wf(),
            (r matches Ok(reply) ==> reply.status == 201
                && reply.body.org_id == org_user.org_id
                && reply.body.name == req_payload.name
                && reply.body.size_bits == req_payload.size_bits
                && reply.body.active == (req_payload.active matches Some(true))
                && final(self).deals@ == old(self).deals@.push(reply.body)),
            (r matches Err(_) ==> final(self).deals@ == old(self).deals@
                && old(self).deals@.len() > 0),
    {
        let active: bool = match req_payload.active {
            Some(a) => a,
            None => false,
        };
        let deal = self.create_deal_query(org_user.org_id, req_payload.name,
            req_payload.size_bits, active)?;
        Ok(Reply { status: 201, body: deal })
    }

    /// `DELETE /api/deals/{deal_id}`: deletes the deal when it
    /// belongs to the member's organization, 204; `Unauthorized` when
    /// it belongs to another organization.  Deleting an absent record
    /// succeeds and changes nothing.
    pub fn delete_deal(&mut self, org_user: &OrgUserLink, deal_id: PrefixedUuid) -> (r: Result<
        Reply<()>, ServiceError>)
        requires
            old(self).wf(),
        ensures
            final(self).wf(),
            (exists|i: int| 0 <= i < old(self).deals@.len()
                && (#[trigger] old(self).deals@[i]).id == deal_id
                && old(self).deals@[i].org_id != org_user.org_id)
                ==> r == Err::<Reply<()>, ServiceError>(ServiceError::Unauthorized)
                    && *final(self) == *old(self),
            !(exists|i: int| 0 <= i < old(self).deals@.len()
                && (#[trigger] old(self).deals@[i]).id == deal_id
                && old(self).deals@[i].org_id != org_user.org_id)
                ==> (r matches Ok(reply) && reply.status == 204
                    && final(self).same_except_deals(*old(self))
                    && !crate::crm::has_deal_id(final(self).deals@, deal_id)),
            !crate::crm::has_deal_id(old(self).deals@, deal_id)
                ==> final(self).deals@ == old(self).deals@,
    {
        match self.get_deal_by_id(deal_id) {
            Ok(found) => {
                crate::auth::require_same_org(found.org_id, org_user)?;
                self.delete_deal_query(deal_id)?;
                Ok(Reply { status: 204, body: () })
            }
            Err(_) => Ok(Reply { status: 204, body: () }),
        }
    }

    /// `GET /api/deals/{deal_id}`: the deal when it belongs to the
    /// member's organization, 200; 401 with an empty body when it
    /// belongs to another organization; 404 when it does not exist.
    pub fn get_deal(&self, deal_id: PrefixedUuid, org_user: &OrgUserLink) -> (r: Result<Reply<
        Option<Deal>>, ServiceError>)
        requires
            self.wf(),
        ensures
            (r matches Ok(reply) ==> (reply.status == 200
                <==> exists|i: int| 0 <= i < self.deals@.len()
                    && (#[trigger] self.deals@[i]).id == deal_id
                    && self.deals@[i].org_id == org_user.org_id)),
            (r matches Ok(reply) ==> (reply.status == 404
                <==> !crate::crm::has_deal_id(self.deals@, deal_id))),
            (r matches Ok(reply) ==> (reply.status == 200 || reply.status == 401
                || reply.status == 404)),
            (r matches Ok(reply) ==> (reply.status == 200 ==> (reply.body matches Some(x)
                && x.id == deal_id && x.org_id == org_user.org_id))),
            (r matches Ok(reply) ==> (reply.status != 200 ==> reply.body is None)),
            (r matches Err(_) ==> false),
    {
        match self.get_deal_by_id(deal_id) {
            Ok(found) => {
                if found.org_id != org_user.org_id {
                    return Ok(Reply { status: 401, body: None });
                }
                Ok(Reply { status: 200, body: Some(found) })
            }
            Err(_) => Ok(Reply { status: 404, body: None }),
        }
    }

    /// `PUT /api/deals/{deal_id}`: replaces the deal's supplied
    /// fields when the deal belongs to the member's organization, 200;
    /// `Unauthorized` when it belongs to another organization.
    pub fn update_deal(&mut self, req_payload: UpdateDealReqPayload, deal_id: PrefixedUuid,
        org_user: &OrgUserLink) -> (r: Result<Reply<Deal>, ServiceError>)
        requires
            old(self).wf(),
        ensures
            final(self).wf(),
            (exists|i: int| 0 <= i < old(self).deals@.len()
                && (#[trigger] old(self).deals@[i]).id == deal_id
                && old(self).deals@[i].org_id != org_user.org_id)
                ==> r == Err::<Reply<Deal>, ServiceError>(ServiceError::Unauthorized)
                    && *final(self) == *old(self),
            (r matches Ok(reply) ==> reply.status == 200 && reply.body.id == deal_id
                && reply.body.org_id == org_user.org_id),
            (r matches Ok(_) <==> (exists|i: int| 0 <= i < old(self).deals@.len()
                && (#[trigger] old(self).deals@[i]).id == deal_id
                && old(self).deals@[i].org_id == org_user.org_id)),
            !crate::crm::has_deal_id(old(self).deals@, deal_id)
                ==> (r matches Err(e) && (e matches ServiceError::InternalServerError(m)
                    && m@ == "Error updating deal"@)),
            (r matches Err(_) ==> final(self).deals@ == old(self).deals@),
    {
        match self.get_deal_by_id(deal_id) {
            Ok(found) => {
                crate::auth::require_same_org(found.org_id, org_user)?;
            }
            Err(_) => {}
        }
        let deal = self.update_deal_query(deal_id, req_payload.name, req_payload.size_bits,
            req_payload.active)?;
        Ok(Reply { status: 200, body: deal })
    }

    /// `POST /api/emails`: validates and stores an email address under
    /// the member's organization, 201.
    pub fn create_email(&mut self, req_payload: CreateEmailReqPayload, org_user: &OrgUserLink)
        -> (r: Result<Reply<crate::models::Email>, ServiceError>)
        requires
            old(self).wf(),
            org_user.org_id.prefix == ResourceTag::Org,
        ensures
            final(self).wf(),
            !valid_email(req_payload.email@)
                ==> final(self).emails@ == old(self).emails@
                    && (r matches Err(e) && (e matches ServiceError::BadRequest(m)
                        && m@ == "Invalid email"@)),
            (r matches Ok(reply) ==> reply.status == 201
                && reply.body.org_id == org_user.org_id
                && reply.body.email@ == req_payload.email@
                && final(self).emails@ == old(self).emails@.push(reply.body)),
            (r matches Err(_) ==> final(self).emails@ == old(self).emails@),
            valid_email(req_payload.email@)
                ==> (r matches Err(_) ==> old(self).emails@.len() > 0),
    {
        let email = self.create_email_query(org_user.org_id, req_payload.email)?;
        Ok(Reply { status: 201, body: email })
    }

    /// `DELETE /api/emails/{email_id}`: deletes the email when it
    /// belongs to the member's organization, 204; `Unauthorized` when
    /// it belongs to another organization.  Deleting an absent record
    /// succeeds and changes nothing.
    pub fn delete_email(&mut self, org_user: &OrgUserLink, email_id: PrefixedUuid) -> (r: Result<
        Reply<()>, ServiceError>)
        requires
            old(self).wf(),
        ensures
            final(self).wf(),
            (exists|i: int| 0 <= i < old(self).emails@.len()
                && (#[trigger] old(self).emails@[i]).id == email_id
                && old(self).emails@[i].org_id != org_user.org_id)
                ==> r == Err::<Reply<()>, ServiceError>(ServiceError::Unauthorized)
                    && *final(self) == *old(self),
            !(exists|i: int| 0 <= i < old(self).emails@.len()
                && (#[trigger] old(self).emails@[i]).id == email_id
                && old(self).emails@[i].org_id != org_user.org_id)
                ==> (r matches Ok(reply) && reply.status == 204
                    && final(self).same_except_emails(*old(self))
                    && !crate::crm::has_email_id(final(self).emails@, email_id)),
            !crate::crm::has_email_id(old(self).emails@, email_id)
                ==> final(self).emails@ == old(self).emails@,
    {
        match self.get_email_by_id(email_id) {
            Ok(found) => {
                crate::auth::require_same_org(found.org_id, org_user)?;
                self.delete_email_query(email_id)?;
                Ok(Reply { status: 204, body: () })
            }
            Err(_) => Ok(Reply { status: 204, body: () }),
        }
    }

    /// `GET /api/emails/{email_id}`: the email when it belongs to the
    /// member's organization, 200; 401 with an empty body when it
    /// belongs to another organization; 404 when it does not exist.
    pub fn get_email(&self, email_id: PrefixedUuid, org_user: &OrgUserLink) -> (r: Result<Reply<
        Option<crate::models::Email>>, ServiceError>)
        requires
            self.wf(),
        ensures
            (r matches Ok(reply) ==> (reply.status == 200
                <==> exists|i: int| 0 <= i < self.emails@.len()
                    && (#[trigger] self.emails@[i]).id == email_id
                    && self.emails@[i].org_id == org_user.org_id)),
            (r matches Ok(reply) ==> (reply.status == 404
                <==> !crate::crm::has_email_id(self.emails@, email_id))),
            (r matches Ok(reply) ==> (reply.status == 200 || reply.status == 401
                || reply.status == 404)),
            (r matches Ok(reply) ==> (reply.status == 200 ==> (reply.body matches Some(x)
                && x.id == email_id && x.org_id == org_user.org_id))),
            (r matches Ok(reply) ==> (reply.status != 200 ==> reply.body is None)),
            (r matches Err(_) ==> false),
    {
        match self.get_email_by_id(email_id) {
            Ok(found) => {
                if found.org_id != org_user.org_id {
                    return Ok(Reply { status: 401, body: None });
                }
                Ok(Reply { status: 200, body: Some(found) })
            }
            Err(_) => Ok(Reply { status: 404, body: None }),
        }
    }

    /// `PUT /api/emails/{email_id}`: validates and replaces the
    /// stored address when it belongs to the member's organization,
    /// 200; `Unauthorized` when it belongs to another organization.
    pub fn update_email(&mut self, req_payload: UpdateEmailReqPayload, email_id: PrefixedUuid,
        org_user: &OrgUserLink) -> (r: Result<Reply<crate::models::Email>, ServiceError>)
        requires
            old(self).wf(),
        ensures
            final(self).wf(),
            (exists|i: int| 0 <= i < old(self).emails@.len()
                && (#[trigger] old(self).emails@[i]).id == email_id
                && old(self).emails@[i].org_id != org_user.org_id)
                ==> r == Err::<Reply<crate::models::Email>, ServiceError>(
                    ServiceError::Unauthorized) && *final(self) == *old(self),
            !(exists|i: int| 0 <= i < old(self).emails@.len()
                && (#[trigger] old(self).emails@[i]).id == email_id
                && old(self).emails@[i].org_id != org_user.org_id) && !valid_email(req_payload.email@)
                ==> (r matches Err(e) && (e matches ServiceError::BadRequest(m)
                    && m@ == "Invalid email"@)),
            (r matches Ok(reply) ==> reply.status == 200 && reply.body.id == email_id
                && reply.body.org_id == org_user.org_id
                && reply.body.email@ == req_payload.email@),
            (r matches Ok(_) <==> valid_email(req_payload.email@)
                && (exists|i: int| 0 <= i < old(self).emails@.len()
                && (#[trigger] old(self).emails@[i]).id == email_id
                && old(self).emails@[i].org_id == org_user.org_id)),
            (r matches Err(_) ==> final(self).emails@ == old(self).emails@),
    {
        match self.get_email_by_id(email_id) {
            Ok(found) => {
                crate::auth::require_same_org(found.org_id, org_user)?;
            }
            Err(_) => {}
        }
        let email = self.update_email_query(email_id, req_payload.email)?;
        Ok(Reply { status: 200, body: email })
    }

    /// `POST /api/links`: stores a hyperlink under the member's
    /// organization, 201.
    pub fn create_link(&mut self, req_payload: CreateLinkReqPayload, org_user: &OrgUserLink)
        -> (r: Result<Reply<Link>, ServiceError>)
        requires
            old(self).wf(),
            org_user.org_id.prefix == ResourceTag::Org,
        ensures
            final(self).wf(),
            (r matches Ok(reply) ==> reply.status == 201
                && reply.body.org_id == org_user.org_id
                && reply.body.link@ == req_payload.link@
                && final(self).links@ == old(self).links@.push(reply.body)),
            (r matches Err(_) ==> final(self).links@ == old(self).links@
                && old(self).links@.len() > 0),
    {
        let link = self.create_link_query(req_payload.link, org_user.org_id)?;
        Ok(Reply { status: 201, body: link })
    }

    /// `DELETE /api/links/{link_id}`: deletes the link when it
    /// belongs to the member's organization, 204; `Unauthorized` when
    /// it belongs to another organization.  Deleting an absent record
    /// succeeds and changes nothing.
    pub fn delete_link(&mut self, org_user: &OrgUserLink, link_id: PrefixedUuid) -> (r: Result<
        Reply<()>, ServiceError>)
        requires
            old(self).wf(),
        ensures
            final(self).wf(),
            (exists|i: int| 0 <= i < old(self).links@.len()
                && (#[trigger] old(self).links@[i]).id == link_id
                && old(self).links@[i].org_id != org_user.org_id)
                ==> r == Err::<Reply<()>, ServiceError>(ServiceError::Unauthorized)
                    && *final(self) == *old(self),
            !(exists|i: int| 0 <= i < old(self).links@.len()
                && (#[trigger] old(self).links@[i]).id == link_id
                && old(self).links@[i].org_id != org_user.org_id)
                ==> (r matches Ok(reply) && reply.status == 204
                    && final(self).same_except_links(*old(self))
                    && !crate::crm::has_link_id(final(self).links@, link_id)),
            !crate::crm::has_link_id(old(self).links@, link_id)
                ==> final(self).links@ == old(self).links@,
    {
        match self.get_link_by_id(link_id) {
            Ok(found) => {
                crate::auth::require_same_org(found.org_id, org_user)?;
                self.delete_link_query(link_id)?;
                Ok(Reply { status: 204, body: () })
            }
            Err(_) => Ok(Reply { status: 204, body: () }),
        }
    }

    /// `GET /api/links/{link_id}`: the link when it belongs to the
    /// member's organization, 200; 401 with an empty body when it
    /// belongs to another organization; 404 when it does not exist.
    pub fn get_link(&self, link_id: PrefixedUuid, org_user: &OrgUserLink) -> (r: Result<Reply<
        Option<Link>>, ServiceError>)
        requires
            self.wf(),
        ensures
            (r matches Ok(reply) ==> (reply.status == 200
                <==> exists|i: int| 0 <= i < self.links@.len()
                    && (#[trigger] self.links@[i]).id == link_id
                    && self.links@[i].org_id == org_user.org_id)),
            (r matches Ok(reply) ==> (reply.status == 404
                <==> !crate::crm::has_link_id(self.links@, link_id))),
            (r matches Ok(reply) ==> (reply.status == 200 || reply.status == 401
                || reply.status == 404)),
            (r matches Ok(reply) ==> (reply.status == 200 ==> (reply.body matches Some(x)
                && x.id == link_id && x.org_id == org_user.org_id))),
            (r matches Ok(reply) ==> (reply.status != 200 ==> reply.body is None)),
            (r matches Err(_) ==> false),
    {
        match self.get_link_by_id(link_id) {
            Ok(found) => {
                if found.org_id != org_user.org_id {
                    return Ok(Reply { status: 401, body: None });
                }
                Ok(Reply { status: 200, body: Some(found) })
            }
            Err(_) => Ok(Reply { status: 404, body: None }),
        }
    }

    /// `PUT /api/links/{link_id}`: replaces the stored hyperlink's
    /// text when it belongs to the member's organization, 200;
    /// `Unauthorized` when it belongs to another organization.
    pub fn update_link(&mut self, req_payload: UpdateLinkReqPayload, link_id: PrefixedUuid,
        org_user: &OrgUserLink) -> (r: Result<Reply<Link>, ServiceError>)
        requires
            old(self).wf(),
        ensures
            final(self).wf(),
            (exists|i: int| 0 <= i < old(self).links@.len()
                && (#[trigger] old(self).links@[i]).id == link_id
                && old(self).links@[i].org_id != org_user.org_id)
                ==> r == Err::<Reply<Link>, ServiceError>(ServiceError::Unauthorized)
                    && *final(self) == *old(self),
            (r matches Ok(reply) ==> reply.status == 200 && reply.body.id == link_id
                && reply.body.org_id == org_user.org_id
                && reply.body.link@ == req_payload.link@),
            (r matches Ok(_) <==> (exists|i: int| 0 <= i < old(self).links@.len()
                && (#[trigger] old(self).links@[i]).id == link_id
                && old(self).links@[i].org_id == org_user.org_id)),
            !crate::crm::has_link_id(old(self).links@, link_id)
                ==> (r matches Err(e) && (e matches ServiceError::InternalServerError(m)
                    && m@ == "Error updating link"@)),
            (r matches Err(_) ==> final(self).links@ == old(self).links@),
    {
        match self.get_link_by_id(link_id) {
            Ok(found) => {
                crate::auth::require_same_org(found.org_id, org_user)?;
            }
            Err(_) => {}
        }
        let link = self.update_link_query(link_id, req_payload.link)?;
        Ok(Reply { status: 200, body: link })
    }

    /// `POST /api/phones`: validates and stores a phone number under
    /// the member's organization, 201.
    pub fn create_phone(&mut self, req_payload: CreatePhoneReqPayload, org_user: &OrgUserLink)
        -> (r: Result<Reply<crate::models::Phone>, ServiceError>)
        requires
            old(self).wf(),
            org_user.org_id.prefix == ResourceTag::Org,
        ensures
            final(self).wf(),
            !crate::validate::valid_phone(req_payload.number@)
                ==> final(self).phones@ == old(self).phones@
                    && (r matches Err(e) && (e matches ServiceError::BadRequest(m)
                        && m@ == "Invalid phone number"@)),
            (r matches Ok(reply) ==> reply.status == 201
                && reply.body.org_id == org_user.org_id
                && reply.body.number@ == req_payload.number@
                && final(self).phones@ == old(self).phones@.push(reply.body)),
            (r matches Err(_) ==> final(self).phones@ == old(self).phones@),
            crate::validate::valid_phone(req_payload.number@)
                ==> (r matches Err(_) ==> old(self).phones@.len() > 0),
    {
        let phone = self.create_phone_query(org_user.org_id, req_payload.number)?;
        Ok(Reply { status: 201, body: phone })
    }

    /// `DELETE /api/phones/{phone_id}`: deletes the phone when it
    /// belongs to the member's organization, 204; `Unauthorized` when
    /// it belongs to another organization.  Deleting an absent record
    /// succeeds and changes nothing.
    pub fn delete_phone(&mut self, org_user: &OrgUserLink, phone_id: PrefixedUuid) -> (r: Result<
        Reply<()>, ServiceError>)
        requires
            old(self).wf(),
        ensures
            final(self).wf(),
            (exists|i: int| 0 <= i < old(self).phones@.len()
                && (#[trigger] old(self).phones@[i]).id == phone_id
                && old(self).phones@[i].org_id != org_user.org_id)
                ==> r == Err::<Reply<()>, ServiceError>(ServiceError::Unauthorized)
                    && *final(self) == *old(self),
            !(exists|i: int| 0 <= i < old(self).phones@.len()
                && (#[trigger] old(self).phones@[i]).id == phone_id
                && old(self).phones@[i].org_id != org_user.org_id)
                ==> (r matches Ok(reply) && reply.status == 204
                    && final(self).same_except_phones(*old(self))
                    && !crate::crm::has_phone_id(final(self).phones@, phone_id)),
            !crate::crm::has_phone_id(old(self).phones@, phone_id)
                ==> final(self).phones@ == old(self).phones@,
    {
        match self.get_phone_by_id(phone_id) {
            Ok(found) => {
                crate::auth::require_same_org(found.org_id, org_user)?;
                self.delete_phone_query(phone_id)?;
                Ok(Reply { status: 204, body: () })
            }
            Err(_) => Ok(Reply { status: 204, body: () }),
        }
    }

    /// `GET /api/phones/{phone_id}`: the phone when it belongs to the
    /// member's organization, 200; 401 with an empty body when it
    /// belongs to another organization; 404 when it does not exist.
    pub fn get_phone(&self, phone_id: PrefixedUuid, org_user: &OrgUserLink) -> (r: Result<Reply<
        Option<crate::models::Phone>>, ServiceError>)
        requires
            self.wf(),
        ensures
            (r matches Ok(reply) ==> (reply.status == 200
                <==> exists|i: int| 0 <= i < self.phones@.len()
                    && (#[trigger] self.phones@[i]).id == phone_id
                    && self.phones@[i].org_id == org_user.org_id)),
            (r matches Ok(reply) ==> (reply.status == 404
                <==> !crate::crm::has_phone_id(self.phones@, phone_id))),
            (r matches Ok(reply) ==> (reply.status == 200 || reply.status == 401
                || reply.status == 404)),
            (r matches Ok(reply) ==> (reply.status == 200 ==> (reply.body matches Some(x)
                && x.id == phone_id && x.org_id == org_user.org_id))),
            (r matches Ok(reply) ==> (reply.status != 200 ==> reply.body is None)),
            (r matches Err(_) ==> false),
    {
        match self.get_phone_by_id(phone_id) {
            Ok(found) => {
                if found.org_id != org_user.org_id {
                    return Ok(Reply { status: 401, body: None });
                }
                Ok(Reply { status: 200, body: Some(found) })
            }
            Err(_) => Ok(Reply { status: 404, body: None }),
        }
    }

    /// `PUT /api/phones/{phone_id}`: validates and replaces the
    /// stored number when it belongs to the member's organization,
    /// 200; `Unauthorized` when it belongs to another organization.
    pub fn update_phone(&mut self, req_payload: UpdatePhoneReqPayload, phone_id: PrefixedUuid,
        org_user: &OrgUserLink) -> (r: Result<Reply<crate::models::Phone>, ServiceError>)
        requires
            old(self).wf(),
        ensures
            final(self).wf(),
            (exists|i: int| 0 <= i < old(self).phones@.len()
                && (#[trigger] old(self).phones@[i]).id == phone_id
                && old(self).phones@[i].org_id != org_user.org_id)
                ==> r == Err::<Reply<crate::models::Phone>, ServiceError>(
                    ServiceError::Unauthorized) && *final(self) == *old(self),
            !(exists|i: int| 0 <= i < old(self).phones@.len()
                && (#[trigger] old(self).phones@[i]).id == phone_id
                && old(self).phones@[i].org_id != org_user.org_id)
                && !crate::validate::valid_phone(req_payload.number@)
                ==> (r matches Err(e) && (e matches ServiceError::BadRequest(m)
                    && m@ == "Invalid phone number"@)),
            (r matches Ok(reply) ==> reply.status == 200 && reply.body.id == phone_id
                && reply.body.org_id == org_user.org_id
                && reply.body.number@ == req_payload.number@),
            (r matches Ok(_) <==> crate::validate::valid_phone(req_payload.number@)
                && (exists|i: int| 0 <= i < old(self).phones@.len()
                && (#[trigger] old(self).phones@[i]).id == phone_id
                && old(self).phones@[i].org_id == org_user.org_id)),
            (r matches Err(_) ==> final(self).phones@ == old(self).phones@),
    {
        match self.get_phone_by_id(phone_id) {
            Ok(found) => {
                crate::auth::require_same_org(found.org_id, org_user)?;
            }
            Err(_) => {}
        }
        let phone = self.update_phone_query(phone_id, req_payload.number)?;
        Ok(Reply { status: 200, body: phone })
    }

    /// `POST /api/tasks`: creates a task under the member's
    /// organization, 201.
    pub fn create_task(&mut self, req_payload: CreateTaskReqPayload, org_user: &OrgUserLink)
        -> (r: Result<Reply<Task>, ServiceError>)
        requires
            old(self).wf(),
            org_user.org_id.prefix == ResourceTag::Org,
        ensures
            final(self).wf(),
            (r matches Ok(reply) ==> reply.status == 201
                && reply.body.org_id == org_user.org_id
                && reply.body.description == req_payload.description
                && reply.body.deadline == req_payload.deadline
                && reply.body.contact_id == req_payload.contact_id
                && final(self).tasks@ == old(self).tasks@.push(reply.body)),
            (r matches Err(_) ==> final(self).tasks@ == old(self).tasks@
                && old(self).tasks@.len() > 0),
    {
        let task = self.create_task_query(org_user.org_id, req_payload.contact_id,
            req_payload.description, req_payload.deadline)?;
        Ok(Reply { status: 201, body: task })
    }

    /// `DELETE /api/tasks/{task_id}`: deletes the task when it
    /// belongs to the member's organization, 204; `Unauthorized` when
    /// it belongs to another organization.  Deleting an absent record
    /// succeeds and changes nothing.
    pub fn delete_task(&mut self, org_user: &OrgUserLink, task_id: PrefixedUuid) -> (r: Result<
        Reply<()>, ServiceError>)
        requires
            old(self).wf(),
        ensures
            final(self).wf(),
            (exists|i: int| 0 <= i < old(self).tasks@.len()
                && (#[trigger] old(self).tasks@[i]).id == task_id
                && old(self).tasks@[i].org_id != org_user.org_id)
                ==> r == Err::<Reply<()>, ServiceError>(ServiceError::Unauthorized)
                    && *final(self) == *old(self),
            !(exists|i: int| 0 <= i < old(self).tasks@.len()
                && (#[trigger] old(self).tasks@[i]).id == task_id
                && old(self).tasks@[i].org_id != org_user.org_id)
                ==> (r matches Ok(reply) && reply.status == 204
                    && final(self).same_except_tasks(*old(self))
                    && !crate::tasks::has_task_id(final(self).tasks@, task_id)),
            !crate::tasks::has_task_id(old(self).tasks@, task_id)
                ==> final(self).tasks@ == old(self).tasks@,
    {
        match self.get_task_by_id(task_id) {
            Ok(found) => {
                crate::auth::require_same_org(found.org_id, org_user)?;
                self.delete_task_query(task_id)?;
                Ok(Reply { status: 204, body: () })
            }
            Err(_) => Ok(Reply { status: 204, body: () }),
        }
    }

    /// `GET /api/tasks/{task_id}`: the task when it belongs to the
    /// member's organization, 200; 401 with an empty body when it
    /// belongs to another organization; 404 when it does not exist.
    pub fn get_task(&self, task_id: PrefixedUuid, org_user: &OrgUserLink) -> (r: Result<Reply<
        Option<Task>>, ServiceError>)
        requires
            self.wf(),
        ensures
            (r matches Ok(reply) ==> (reply.status == 200
                <==> exists|i: int| 0 <= i < self.tasks@.len()
                    && (#[trigger] self.tasks@[i]).id == task_id
                    && self.tasks@[i].org_id == org_user.org_id)),
            (r matches Ok(reply) ==> (reply.status == 404
                <==> !crate::tasks::has_task_id(self.tasks@, task_id))),
            (r matches Ok(reply) ==> (reply.status == 200 || reply.status == 401
                || reply.status == 404)),
            (r matches Ok(reply) ==> (reply.status == 200 ==> (reply.body matches Some(x)
                && x.id == task_id && x.org_id == org_user.org_id))),
            (r matches Ok(reply) ==> (reply.status != 200 ==> reply.body is None)),
            (r matches Err(_) ==> false),
    {
        match self.get_task_by_id(task_id) {
            Ok(found) => {
                if found.org_id != org_user.org_id {
                    return Ok(Reply { status: 401, body: None });
                }
                Ok(Reply { status: 200, body: Some(found) })
            }
            Err(_) => Ok(Reply { status: 404, body: None }),
        }
    }

    /// `PUT /api/tasks/{task_id}`: replaces the task's supplied
    /// fields when the task belongs to the member's organization, 200;
    /// `Unauthorized` when it belongs to another organization.
    pub fn update_task(&mut self, req_payload: UpdateTaskReqPayload, task_id: PrefixedUuid,
        org_user: &OrgUserLink) -> (r: Result<Reply<Task>, ServiceError>)
        requires
            old(self).wf(),
        ensures
            final(self).wf(),
            (exists|i: int| 0 <= i < old(self).tasks@.len()
                && (#[trigger] old(self).tasks@[i]).id == task_id
                && old(self).tasks@[i].org_id != org_user.org_id)
                ==> r == Err::<Reply<Task>, ServiceError>(ServiceError::Unauthorized)
                    && *final(self) == *old(self),
            (r matches Ok(reply) ==> reply.status == 200 && reply.body.id == task_id
                && reply.body.org_id == org_user.org_id),
            (r matches Ok(_) <==> (exists|i: int| 0 <= i < old(self).tasks@.len()
                && (#[trigger] old(self).tasks@[i]).id == task_id
                && old(self).tasks@[i].org_id == org_user.org_id)),
            !crate::tasks::has_task_id(old(self).tasks@, task_id)
                ==> (r matches Err(e) && (e matches ServiceError::InternalServerError(m)
                    && m@ == "Error updating task"@)),
            (r matches Err(_) ==> final(self).tasks@ == old(self).tasks@),
    {
        match self.get_task_by_id(task_id) {
            Ok(found) => {
                crate::auth::require_same_org(found.org_id, org_user)?;
            }
            Err(_) => {}
        }
        let task = self.update_task_query(task_id, req_payload.description,
            req_payload.deadline, req_payload.contact_id)?;
        Ok(Reply { status: 200, body: task })
    }

    /// `POST /api/tasks/{task_id}/{resource_type}/{resource_id}`:
    /// associates the named resource with the task, 201.  The resource
    /// identifier must parse under the tag of the named kind.
    pub fn create_task_resource(&mut self, task_id: PrefixedUuid, resource: TaskResType,
        resource_id: &str) -> (r: Result<Reply<TaskResource>, ServiceError>)
        requires
            old(self).wf(),
        ensures
            final(self).wf(),
            (r matches Ok(reply) ==> reply.status == 201),
            (r matches Ok(reply) ==> match resource {
                TaskResType::Link => (reply.body matches TaskResource::Link(row)
                    && row.task_id == task_id
                    && crate::ids::is_id_text(ResourceTag::Link, resource_id@, row.link_id.raw)
                    && final(self).task_links@ == old(self).task_links@.push(row)),
                TaskResType::Deal => (reply.body matches TaskResource::Deal(row)
                    && row.task_id == task_id
                    && crate::ids::is_id_text(ResourceTag::Deal, resource_id@, row.deal_id.raw)
                    && final(self).task_deals@ == old(self).task_deals@.push(row)),
                TaskResType::User => (reply.body matches TaskResource::User(row)
                    && row.task_id == task_id
                    && crate::ids::is_id_text(ResourceTag::User, resource_id@, row.user_id.raw)
                    && final(self).task_users@ == old(self).task_users@.push(row)),
            }),
            (r matches Err(e)
                ==> (e matches ServiceError::BadRequest(m) && m@ == "Invalid UUID"@)
                    || (e matches ServiceError::InternalServerError(_))),
            (r matches Err(e) ==> (e matches ServiceError::InternalServerError(_)
                ==> match resource {
                    TaskResType::Link => old(self).task_links@.len() > 0,
                    TaskResType::Deal => old(self).task_deals@.len() > 0,
                    TaskResType::User => old(self).task_users@.len() > 0,
                })),
            (r matches Err(e) ==> (e matches ServiceError::BadRequest(_)
                ==> forall|v: u128| match resource {
                    TaskResType::Link => !crate::ids::is_id_text(ResourceTag::Link,
                        resource_id@, v),
                    TaskResType::Deal => !crate::ids::is_id_text(ResourceTag::Deal,
                        resource_id@, v),
                    TaskResType::User => !crate::ids::is_id_text(ResourceTag::User,
                        resource_id@, v),
                })),
    {
        match resource {
            TaskResType::Link => {
                let link_id = match PrefixedUuid::parse(ResourceTag::Link, resource_id) {
                    Ok(id) => id,
                    Err(e) => {
                        return Err(crate::auth::id_error_response(e));
                    }
                };
                let task_link = self.create_link_for_task_query(task_id, link_id)?;
                Ok(Reply { status: 201, body: TaskResource::Link(task_link) })
            }
            TaskResType::Deal => {
                let deal_id = match PrefixedUuid::parse(ResourceTag::Deal, resource_id) {
                    Ok(id) => id,
                    Err(e) => {
                        return Err(crate::auth::id_error_response(e));
                    }
                };
                let task_deal = self.create_deal_for_task_query(task_id, deal_id)?;
                Ok(Reply { status: 201, body: TaskResource::Deal(task_deal) })
            }
            TaskResType::User => {
                let user_id = match PrefixedUuid::parse(ResourceTag::User, resource_id) {
                    Ok(id) => id,
                    Err(e) => {
                        return Err(crate::auth::id_error_response(e));
                    }
                };
                let task_user = self.create_user_for_task_query(task_id, user_id)?;
                Ok(Reply { status: 201, body: TaskResource::User(task_user) })
            }
        }
    }

    /// `DELETE /api/tasks/{task_id}/{resource_type}/{resource_id}`:
    /// drops the association of the named resource with the task, 204.
    pub fn delete_task_resource(&mut self, task_id: PrefixedUuid, resource: TaskResType,
        resource_id: &str) -> (r: Result<Reply<()>, ServiceError>)
        requires
            old(self).wf(),
        ensures
            final(self).wf(),
            (r matches Ok(reply) ==> reply.status == 204),
            (r matches Ok(_) ==> match resource {
                TaskResType::Link => exists|v: u128|
                    #[trigger] crate::ids::is_id_text(ResourceTag::Link, resource_id@, v)
                    && final(self).task_links@ == crate::tasks::task_links_without_pair(
                        old(self).task_links@, task_id,
                        PrefixedUuid { prefix: ResourceTag::Link, raw: v }),
                TaskResType::Deal => exists|v: u128|
                    #[trigger] crate::ids::is_id_text(ResourceTag::Deal, resource_id@, v)
                    && final(self).task_deals@ == crate::tasks::task_deals_without_pair(
                        old(self).task_deals@, task_id,
                        PrefixedUuid { prefix: ResourceTag::Deal, raw: v }),
                TaskResType::User => exists|v: u128|
                    #[trigger] crate::ids::is_id_text(ResourceTag::User, resource_id@, v)
                    && final(self).task_users@ == crate::tasks::task_users_without_pair(
                        old(self).task_users@, task_id,
                        PrefixedUuid { prefix: ResourceTag::User, raw: v }),
            }),
            (r matches Err(e)
                ==> (e matches ServiceError::BadRequest(m) && m@ == "Invalid UUID"@)
                    && *final(self) == *old(self)),
    {
        match resource {
            TaskResType::Link => {
                let link_id = match PrefixedUuid::parse(ResourceTag::Link, resource_id) {
                    Ok(id) => id,
                    Err(e) => {
                        return Err(crate::auth::id_error_response(e));
                    }
                };
                self.delete_link_from_task_query(task_id, link_id)?;
            }
            TaskResType::Deal => {
                let deal_id = match PrefixedUuid::parse(ResourceTag::Deal, resource_id) {
                    Ok(id) => id,
                    Err(e) => {
                        return Err(crate::auth::id_error_response(e));
                    }
                };
                self.delete_deal_from_task_query(task_id, deal_id)?;
            }
            TaskResType::User => {
                let user_id = match PrefixedUuid::parse(ResourceTag::User, resource_id) {
                    Ok(id) => id,
                    Err(e) => {
                        return Err(crate::auth::id_error_response(e));
                    }
                };
                self.delete_user_from_task_query(task_id, user_id)?;
            }
        }
        Ok(Reply { status: 204, body: () })
    }

    /// `GET /api/tasks/{task_id}/{resource_type}`: one page of the
    /// task's associated resources of the named kind, with the total
    /// count, 200; `NotFound` when the task does not exist.
    pub fn list_task_resource(&self, task_id: PrefixedUuid, resource: TaskResType, query:
        GetTaskResourceQuery) -> (r: Result<Reply<TaskResourceListWithPagination>, ServiceError>)
        requires
            self.wf(),
        ensures
            (r matches Err(e) <==> !crate::tasks::has_task_id(self.tasks@, task_id)),
            (r matches Err(e) ==> e == ServiceError::NotFound),
            (r matches Ok(reply) ==> reply.status == 200),
            (r matches Ok(reply) ==> match resource {
                TaskResType::Link => (reply.body.data matches TaskResourceList::Link(v)
                    && v@ == crate::store::page_opt(
                        crate::tasks::links_of_task(self.links@, self.task_links@, task_id),
                        query.limit, query.offset)
                    && reply.body.total == crate::tasks::links_of_task(self.links@,
                        self.task_links@, task_id).len()),
                TaskResType::Deal => (reply.body.data matches TaskResourceList::Deal(v)
                    && v@ == crate::store::page_opt(
                        crate::tasks::deals_of_task(self.deals@, self.task_deals@, task_id),
                        query.limit, query.offset)
                    && reply.body.total == crate::tasks::deals_of_task(self.deals@,
                        self.task_deals@, task_id).len()),
                TaskResType::User => (reply.body.data matches TaskResourceList::User(v)
                    && v@ == crate::store::page_opt(
                        crate::tasks::users_of_task(self.users@, self.task_users@, task_id),
                        query.limit, query.offset)
                    && reply.body.total == crate::tasks::users_of_task(self.users@,
                        self.task_users@, task_id).len()),
            }),
    {
        match resource {
            TaskResType::Link => {
                let (links, count) = self.list_links_by_task_id(task_id, query.offset,
                    query.limit)?;
                Ok(Reply {
                    status: 200,
                    body: TaskResourceListWithPagination {
                        data: TaskResourceList::Link(links),
                        total: count,
                    },
                })
            }
            TaskResType::Deal => {
                let (deals, count) = self.list_deals_by_task_id(task_id, query.offset,
                    query.limit)?;
                Ok(Reply {
                    status: 200,
                    body: TaskResourceListWithPagination {
                        data: TaskResourceList::Deal(deals),
                        total: count,
                    },
                })
            }
            TaskResType::User => {
                let (users, count) = self.list_users_by_task_id(task_id, query.offset,
                    query.limit)?;
                Ok(Reply {
                    status: 200,
                    body: TaskResourceListWithPagination {
                        data: TaskResourceList::User(users),
                        total: count,
                    },
                })
            }
        }
    }
}


} // verus!
