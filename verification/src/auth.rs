//! Authentication resolution and authorization guards.
//!
//! Per request, identity is resolved in a fixed order: a user carried by
//! the signed session wins; otherwise the `Authorization` header is
//! taken as a raw API key and resolved by its stored digest; otherwise
//! nobody is signed in.  Independently, an `Organization` header naming
//! a valid organization identifier attaches the caller's membership of
//! that organization when there is one — a missing or malformed header
//! attaches nothing and fails nothing by itself.  Handlers then fail
//! closed through the guards below.

use vstd::prelude::*;
use crate::api_keys::{api_key_resolves, blake3_hex_of};
use crate::errors::ServiceError;
use crate::ids::{is_id_text, IdParseError, PrefixedUuid, ResourceTag};
use crate::models::{OrgUserLink, User};
use crate::roles::{role_level, role_of_i32, UserRole};
use crate::store::{has_link_pair, Backend};

verus! {

/// The identity the middleware attaches to a request: session first,
/// then API key, else nobody.
pub fn resolve_user(store: &Backend, session_user: Option<User>, auth_header: Option<&str>) -> (r:
    Option<User>)
    requires
        store.wf(),
    ensures
        (session_user matches Some(u) ==> r == Some(u)),
        session_user is None && auth_header is None ==> r is None,
        session_user is None ==> (auth_header matches Some(h) ==> ((r is Some)
            <==> api_key_resolves(store.api_keys@, store.users@, blake3_hex_of(h@)))),
        session_user is None ==> (auth_header matches Some(h) ==> (r matches Some(u)
            ==> exists|i: int, j: int|
                0 <= i < store.api_keys@.len() && 0 <= j < store.users@.len()
                && (#[trigger] store.api_keys@[i]).blake3_hash@ == blake3_hex_of(h@)
                && #[trigger] store.users@[j] == u && u.id == store.api_keys@[i].user_id)),
{
    match session_user {
        Some(u) => Some(u),
        None => match auth_header {
            Some(h) => match store.get_user_from_api_key_query(h) {
                Ok(u) => Some(u),
                Err(_) => None,
            },
            None => None,
        },
    }
}

/// The membership the middleware attaches to a request: the caller's
/// link to the organization the `Organization` header names, when the
/// header holds a well-formed organization identifier and the link
/// exists; nothing otherwise.
pub fn resolve_membership(store: &Backend, user_id: PrefixedUuid, org_header: Option<&str>) -> (r:
    Option<OrgUserLink>)
    requires
        store.wf(),
    ensures
        org_header is None ==> r is None,
        (org_header matches Some(h) ==> (r matches Some(l)
            ==> l.user_id == user_id && is_id_text(ResourceTag::Org, h@, l.org_id.raw)
                && l.org_id.prefix == ResourceTag::Org
                && exists|i: int| 0 <= i < store.org_users@.len()
                    && #[trigger] store.org_users@[i] == l)),
        (org_header matches Some(h) ==> ((r is None)
            <==> forall|v: u128| is_id_text(ResourceTag::Org, h@, v)
                ==> !has_link_pair(store.org_users@,
                    user_id, PrefixedUuid { prefix: ResourceTag::Org, raw: v }))),
{
    match org_header {
        None => None,
        Some(h) => match PrefixedUuid::parse(ResourceTag::Org, h) {
            Ok(org_id) => match store.get_org_user_link_query(user_id, org_id) {
                Ok(l) => Some(l),
                Err(_) => None,
            },
            Err(_) => {
                proof {
                    assert forall|v: u128| !is_id_text(ResourceTag::Org, h@, v) by {
                        if is_id_text(ResourceTag::Org, h@, v) {
                            assert(false);
                        }
                    }
                }
                None
            }
        },
    }
}

/// Fails closed when no user was resolved: the guard of every handler
/// that needs a signed-in caller.
pub fn require_user(user: Option<User>) -> (r: Result<User, ServiceError>)
    ensures
        (user matches Some(u) ==> r == Ok::<User, ServiceError>(u)),
        user is None ==> r == Err::<User, ServiceError>(ServiceError::Unauthorized),
{
    match user {
        Some(u) => Ok(u),
        None => Err(ServiceError::Unauthorized),
    }
}

/// Fails closed when no membership was attached: the guard of every
/// handler that operates inside an organization.
pub fn require_member(membership: Option<OrgUserLink>) -> (r: Result<OrgUserLink, ServiceError>)
    ensures
        (membership matches Some(l) ==> r == Ok::<OrgUserLink, ServiceError>(l)),
        membership is None ==> r == Err::<OrgUserLink, ServiceError>(ServiceError::Unauthorized),
{
    match membership {
        Some(l) => Ok(l),
        None => Err(ServiceError::Unauthorized),
    }
}

/// Fails closed when no membership was attached, and forbids a caller
/// whose role ranks below the required one.
pub fn require_role(membership: Option<OrgUserLink>, at_least: UserRole) -> (r: Result<
    OrgUserLink, ServiceError>)
    ensures
        membership is None ==> r == Err::<OrgUserLink, ServiceError>(ServiceError::Unauthorized),
        (membership matches Some(l)
            ==> (role_level(role_of_i32(l.role)) >= role_level(at_least)
                ==> r == Ok::<OrgUserLink, ServiceError>(l))),
        (membership matches Some(l)
            ==> (role_level(role_of_i32(l.role)) < role_level(at_least)
                ==> r == Err::<OrgUserLink, ServiceError>(ServiceError::Forbidden))),
{
    match membership {
        Some(l) => {
            let role = UserRole::from_i32(l.role);
            if role.at_least(&at_least) {
                Ok(l)
            } else {
                Err(ServiceError::Forbidden)
            }
        }
        None => Err(ServiceError::Unauthorized),
    }
}

/// The organization-scope check every org-scoped read, update and
/// deletion makes: the resource must belong to the organization the
/// caller's membership names.
pub fn require_same_org(resource_org: PrefixedUuid, member: &OrgUserLink) -> (r: Result<(),
    ServiceError>)
    ensures
        resource_org == member.org_id <==> r is Ok,
        (r matches Err(e) ==> e == ServiceError::Unauthorized),
{
    if resource_org == member.org_id {
        Ok(())
    } else {
        Err(ServiceError::Unauthorized)
    }
}

/// Looks the account up by the identity provider's subject identifier,
/// creating it from the provider's claims on first login.
pub fn login_callback_user(store: &mut Backend, user_id: PrefixedUuid, email: String, name:
    String) -> (r: Result<User, ServiceError>)
    requires
        old(store).wf(),
        user_id.prefix == ResourceTag::User,
    ensures
        final(store).wf(),
        final(store).same_except_users(*old(store)),
        crate::store::has_user_id(old(store).users@, user_id)
            ==> final(store).users@ == old(store).users@
                && (r matches Ok(u) && u.id == user_id
                    && exists|i: int| 0 <= i < old(store).users@.len()
                        && #[trigger] old(store).users@[i] == u),
        !crate::store::has_user_id(old(store).users@, user_id)
            && !crate::store::has_user_email(old(store).users@, email@)
            ==> (r matches Ok(u) && u.id == user_id && u.email@ == email@
                && u.name == Some(name)
                && final(store).users@ == old(store).users@.push(u)),
        !crate::store::has_user_id(old(store).users@, user_id)
            && crate::store::has_user_email(old(store).users@, email@)
            ==> final(store).users@ == old(store).users@
                && (r matches Err(e) && e matches ServiceError::BadRequest(_)),
{
    match store.get_user_by_id_query(user_id) {
        Ok(u) => Ok(u),
        Err(_) => create_account(store, email, name, user_id),
    }
}

/// Creates the account that the identity provider's claims describe.
pub fn create_account(store: &mut Backend, email: String, name: String, user_id: PrefixedUuid)
    -> (r: Result<User, ServiceError>)
    requires
        old(store).wf(),
        user_id.prefix == ResourceTag::User,
    ensures
        final(store).wf(),
        final(store).same_except_users(*old(store)),
        (crate::store::has_user_id(old(store).users@, user_id)
            || crate::store::has_user_email(old(store).users@, email@))
            ==> (r matches Err(e) && e matches ServiceError::BadRequest(_))
                && final(store).users@ == old(store).users@,
        !(crate::store::has_user_id(old(store).users@, user_id)
            || crate::store::has_user_email(old(store).users@, email@))
            ==> (r matches Ok(u) && u.id == user_id && u.email@ == email@
                && u.name == Some(name)
                && final(store).users@ == old(store).users@.push(u)),
{
    store.create_user_query(user_id, email, Some(name))
}

/// The error a malformed identifier surfaces as at the HTTP boundary.
pub fn id_error_response(e: IdParseError) -> (r: ServiceError)
    ensures
        r matches ServiceError::BadRequest(m) && m@ == "Invalid UUID"@,
{
    ServiceError::from_id_parse_error(e)
}

/// The address the browser is sent back to after login: the requested
/// redirect when one was given, else the referring page, else the
/// root.
pub fn choose_redirect(requested: Option<String>, referer: Option<String>) -> (r: String)
    ensures
        (requested matches Some(u) ==> r@ == u@),
        requested is None ==> (referer matches Some(h) ==> r@ == h@),
        requested is None && referer is None ==> r@ == "/"@,
{
    match requested {
        Some(u) => u,
        None => match referer {
            Some(h) => h,
            None => String::from_str("/"),
        },
    }
}

/// The identity provider's logout address for this client and
/// post-logout redirect.
pub fn logout_url(issuer_url: &str, client_id: &str, redirect_uri: &str) -> (r: String)
    ensures
        r@ == issuer_url@ + "/protocol/openid-connect/logout?post_logout_redirect_uri="@
            + redirect_uri@ + "&client_id="@ + client_id@,
{
    let mut out = String::from_str(issuer_url);
    out.append("/protocol/openid-connect/logout?post_logout_redirect_uri=");
    out.append(redirect_uri);
    out.append("&client_id=");
    out.append(client_id);
    out
}

} // verus!
