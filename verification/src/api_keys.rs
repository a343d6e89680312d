//! API keys: generation, hashing, storage and resolution.
//!
//! A key is a short random text shown to its owner once.  Only its
//! digest is stored; authenticating with a key recomputes the digest
//! and resolves the user owning a stored key with that digest.

use vstd::prelude::*;
use rand::Rng;
use crate::errors::ServiceError;
use crate::ids::{PrefixedUuid, ResourceTag};
use crate::models::{ApiKey, User};
use crate::store::{find_user_by_id, has_api_key_id, Backend};
use crate::text::{is_ascii_alphanumeric_char, str_eq};

verus! {

/// The lowercase hexadecimal digest that blake3 assigns to a text.
pub uninterp spec fn blake3_hex_of(s: Seq<char>) -> Seq<char>;

/// Relies on blake3::hash and the hexadecimal rendering of its digest:
/// 64 lowercase hexadecimal digits, a function of the input characters
/// alone.
#[verifier::external_body]
fn blake3_hex(s: &str) -> (r: String)
    ensures
        r@ == blake3_hex_of(s@),
        r@.len() == 64,
{
    blake3::hash(s.as_bytes()).to_string()
}

/// Relies on rand's thread rng sampling the Alphanumeric distribution:
/// `n` characters drawn from a-z, A-Z and 0-9.  Which characters come
/// back is random; only their number and alphabet are promised.
#[verifier::external_body]
fn random_alphanumeric(n: usize) -> (r: String)
    ensures
        r@.len() == n,
        forall|i: int| 0 <= i < r@.len() ==> is_ascii_alphanumeric_char(#[trigger] r@[i]),
{
    rand::thread_rng()
        .sample_iter(&rand::distributions::Alphanumeric)
        .take(n)
        .map(char::from)
        .collect()
}

/// A fresh raw API key: `"tr-"` followed by 32 random alphanumeric
/// characters.
pub fn generate_api_key() -> (r: String)
    ensures
        r@.len() == 35,
        r@.subrange(0, 3) == "tr-"@,
        forall|i: int| 3 <= i < 35 ==> is_ascii_alphanumeric_char(#[trigger] r@[i]),
{
    proof {
        reveal_strlit("tr-");
    }
    let mut out = String::from_str("tr-");
    let tail = random_alphanumeric(32);
    out.append(tail.as_str());
    proof {
        assert(out@.subrange(0, 3) =~= "tr-"@);
    }
    out
}

/// The digest under which a raw API key is stored and looked up.
pub fn hash_api_key(password: &str) -> (r: String)
    ensures
        r@ == blake3_hex_of(password@),
        r@.len() == 64,
{
    blake3_hex(password)
}

/// Whether a raw key with this digest resolves a user: some stored key
/// carries the digest and its owning user exists.
pub open spec fn api_key_resolves(keys: Seq<ApiKey>, users: Seq<User>, digest: Seq<char>) -> bool {
    exists|i: int, j: int|
        0 <= i < keys.len() && 0 <= j < users.len()
        && (#[trigger] keys[i]).blake3_hash@ == digest
        && (#[trigger] users[j]).id == keys[i].user_id
}

impl Backend {
    /// Stores the given key record; rejected, and the state left
    /// unchanged, exactly when its identifier is already taken.
    pub fn insert_api_key(&mut self, key: ApiKey) -> (r: Result<(), ServiceError>)
        requires
            old(self).wf(),
            key.user_id.prefix == ResourceTag::User,
        ensures
            final(self).wf(),
            final(self).same_except_api_keys(*old(self)),
            has_api_key_id(old(self).api_keys@, key.id)
                ==> (r matches Err(ServiceError::BadRequest(m))
                    && m@ == "Error creating api key for create_api_key_query"@
                    && final(self).api_keys@ == old(self).api_keys@),
            !has_api_key_id(old(self).api_keys@, key.id)
                ==> r is Ok && final(self).api_keys@ == old(self).api_keys@.push(key),
    {
        if api_key_id_taken(&self.api_keys, key.id) {
            return Err(ServiceError::BadRequest(String::from_str(
                "Error creating api key for create_api_key_query")));
        }
        self.api_keys.push(key);
        Ok(())
    }

    /// Generates a fresh key for the user, stores its digest, and hands
    /// the raw key back — the one time it is visible.
    pub fn create_api_key_query(&mut self, user_id: PrefixedUuid, name: String) -> (r: Result<
        String, ServiceError>)
        requires
            old(self).wf(),
            user_id.prefix == ResourceTag::User,
        ensures
            final(self).wf(),
            final(self).same_except_api_keys(*old(self)),
            (r matches Ok(raw) ==> raw@.len() == 35 && raw@.subrange(0, 3) == "tr-"@
                && (exists|k: ApiKey|
                    final(self).api_keys@ == old(self).api_keys@.push(k)
                    && #[trigger] k.user_id == user_id && k.name@ == name@
                    && k.blake3_hash@ == blake3_hex_of(raw@))),
            (r matches Err(e) ==> final(self).api_keys@ == old(self).api_keys@
                && (e matches ServiceError::BadRequest(m)
                    && m@ == "Error creating api key for create_api_key_query"@)),
            (r matches Err(_) ==> old(self).api_keys@.len() > 0),
    {
        let raw_api_key = generate_api_key();
        let digest = hash_api_key(raw_api_key.as_str());
        let key = ApiKey::from_details(user_id, name, digest);
        self.insert_api_key(key)?;
        Ok(raw_api_key)
    }

    /// The user owning a stored key whose digest is the raw key's; the
    /// service's loading error when no stored key resolves.
    pub fn get_user_from_api_key_query(&self, api_key: &str) -> (r: Result<User, ServiceError>)
        requires
            self.wf(),
        ensures
            (r matches Ok(u)
                <==> api_key_resolves(self.api_keys@, self.users@, blake3_hex_of(api_key@))),
            (r matches Ok(u) ==> exists|i: int, j: int|
                0 <= i < self.api_keys@.len() && 0 <= j < self.users@.len()
                && (#[trigger] self.api_keys@[i]).blake3_hash@ == blake3_hex_of(api_key@)
                && #[trigger] self.users@[j] == u && u.id == self.api_keys@[i].user_id),
            (r matches Err(e) ==> (e matches ServiceError::BadRequest(m)
                && m@ == "Error loading user for get_user_from_api_key_query"@)),
    {
        let digest = hash_api_key(api_key);
        let n = self.api_keys.len();
        let mut i: usize = 0;
        while i < n
            invariant
                0 <= i <= n,
                n == self.api_keys@.len(),
                self.wf(),
                digest@ == blake3_hex_of(api_key@),
                forall|a: int| 0 <= a < i
                    ==> (#[trigger] self.api_keys@[a]).blake3_hash@ != digest@
                        || !crate::store::has_user_id(self.users@, self.api_keys@[a].user_id),
            decreases n - i,
        {
            if str_eq(self.api_keys[i].blake3_hash.as_str(), digest.as_str()) {
                match find_user_by_id(&self.users, self.api_keys[i].user_id) {
                    Some(j) => {
                        return Ok(self.users[j].clone());
                    }
                    None => {}
                }
            }
            i = i + 1;
        }
        Err(ServiceError::BadRequest(String::from_str(
            "Error loading user for get_user_from_api_key_query")))
    }
}

/// Whether some stored key carries the given key identifier.
fn api_key_id_taken(keys: &Vec<ApiKey>, id: u128) -> (r: bool)
    ensures
        r == has_api_key_id(keys@, id),
{
    let n = keys.len();
    let mut i: usize = 0;
    while i < n
        invariant
            0 <= i <= n,
            n == keys@.len(),
            forall|j: int| 0 <= j < i ==> (#[trigger] keys@[j]).id != id,
        decreases n - i,
    {
        if keys[i].id == id {
            return true;
        }
        i = i + 1;
    }
    false
}

} // verus!
