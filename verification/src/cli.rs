//! The command-line companion's configuration and profile handling.
//!
//! The tool keeps named profiles, each holding the server address, an
//! API key, and a chosen organization; exactly one profile is selected
//! at a time.  The rules for switching, deleting and saving profiles
//! are here; the prompts and the configuration file around them are
//! not.

use vstd::prelude::*;
use crate::text::concat_str;

verus! {

/// The command-line tool's error: one message.
#[derive(Debug, PartialEq, Eq)]
pub struct DefaultError {
    pub message: String,
}

impl DefaultError {
    /// An error carrying the given message.
    pub fn new(message: &str) -> (r: DefaultError)
        ensures
            r.message@ == message@,
    {
        DefaultError { message: String::from_str(message) }
    }
}

impl Clone for DefaultError {
    fn clone(&self) -> (r: Self)
        ensures
            r == *self,
    {
        DefaultError { message: self.message.clone() }
    }
}

/// One profile's settings: where the server is and how to talk to it.
#[derive(Debug, PartialEq, Eq)]
pub struct ActixTemplateConfiguration {
    pub api_key: String,
    pub org_id: String,
    pub api_url: String,
}

impl Clone for ActixTemplateConfiguration {
    fn clone(&self) -> (r: Self)
        ensures
            r == *self,
    {
        ActixTemplateConfiguration {
            api_key: self.api_key.clone(),
            org_id: self.org_id.clone(),
            api_url: self.api_url.clone(),
        }
    }
}

impl Default for ActixTemplateConfiguration {
    /// Empty credentials against the local development server.
    fn default() -> (r: Self)
        ensures
            r.api_key@ == Seq::<char>::empty(),
            r.org_id@ == Seq::<char>::empty(),
            r.api_url@ == "http://localhost:8090"@,
    {
        ActixTemplateConfiguration {
            api_key: String::new(),
            org_id: String::new(),
            api_url: String::from_str("http://localhost:8090"),
        }
    }
}

/// One named profile.
#[derive(Debug, PartialEq, Eq)]
pub struct ActixTemplateProfileInner {
    pub name: String,
    pub settings: ActixTemplateConfiguration,
    pub selected: bool,
}

impl Clone for ActixTemplateProfileInner {
    fn clone(&self) -> (r: Self)
        ensures
            r == *self,
    {
        ActixTemplateProfileInner {
            name: self.name.clone(),
            settings: self.settings.clone(),
            selected: self.selected,
        }
    }
}

impl Default for ActixTemplateProfileInner {
    /// The unselected profile named `default`.
    fn default() -> (r: Self)
        ensures
            r.name@ == "default"@,
            !r.selected,
            r.settings.api_url@ == "http://localhost:8090"@,
    {
        ActixTemplateProfileInner {
            name: String::from_str("default"),
            settings: ActixTemplateConfiguration::default(),
            selected: false,
        }
    }
}

/// The stored set of profiles.
#[derive(Debug, PartialEq, Eq)]
pub struct ActixTemplateProfile {
    pub inner: Vec<ActixTemplateProfileInner>,
}

impl Default for ActixTemplateProfile {
    /// One default profile.
    fn default() -> (r: Self)
        ensures
            r.inner@.len() == 1,
            r.inner@[0].name@ == "default"@,
            !r.inner@[0].selected,
    {
        let mut inner: Vec<ActixTemplateProfileInner> = Vec::new();
        inner.push(ActixTemplateProfileInner::default());
        ActixTemplateProfile { inner }
    }
}

/// Whether some profile carries the given name.
pub open spec fn has_profile_named(s: Seq<ActixTemplateProfileInner>, name: Seq<char>) -> bool {
    exists|i: int| 0 <= i < s.len() && (#[trigger] s[i]).name@ == name
}

/// The profiles not carrying the given name, in stored order.
pub open spec fn profiles_without_name(s: Seq<ActixTemplateProfileInner>, name: Seq<char>)
    -> Seq<ActixTemplateProfileInner>
    decreases s.len(),
{
    if s.len() == 0 {
        s
    } else {
        let rest = profiles_without_name(s.drop_last(), name);
        if s.last().name@ != name {
            rest.push(s.last())
        } else {
            rest
        }
    }
}

/// The message reported when a named profile is missing.
pub open spec fn profile_not_found_message(name: Seq<char>) -> Seq<char> {
    "Profile '"@ + name + "' not found."@
}

/// The index of the first profile with the given name.
fn find_profile_by_name(v: &Vec<ActixTemplateProfileInner>, name: &str) -> (r: Option<usize>)
    ensures
        match r {
            Some(i) => i < v@.len() && v@[i as int].name@ == name@
                && forall|j: int| 0 <= j < i ==> (#[trigger] v@[j]).name@ != name@,
            None => !has_profile_named(v@, name@),
        },
{
    let n = v.len();
    let mut i: usize = 0;
    while i < n
        invariant
            0 <= i <= n,
            n == v@.len(),
            forall|j: int| 0 <= j < i ==> (#[trigger] v@[j]).name@ != name@,
        decreases n - i,
    {
        if crate::text::str_eq(v[i].name.as_str(), name) {
            return Some(i);
        }
        i = i + 1;
    }
    None
}

/// The error reported when a named profile is missing.
fn profile_not_found(name: &str) -> (r: DefaultError)
    ensures
        r.message@ == profile_not_found_message(name@),
{
    let head = concat_str("Profile '", name);
    let message = concat_str(head.as_str(), "' not found.");
    DefaultError { message }
}

/// Switching profiles: every profile keeps its name and settings, and
/// exactly those named as asked become selected.  Fails when no stored
/// profile carries the name.
pub fn switch_profile(profiles: Vec<ActixTemplateProfileInner>, profile_name: &str) -> (r:
    Result<Vec<ActixTemplateProfileInner>, DefaultError>)
    ensures
        !has_profile_named(profiles@, profile_name@)
            ==> (r matches Err(e) && e.message@ == profile_not_found_message(profile_name@)),
        has_profile_named(profiles@, profile_name@)
            ==> (r matches Ok(v) && v@.len() == profiles@.len()
                && (forall|k: int| 0 <= k < v@.len()
                    ==> (#[trigger] v@[k]).name == profiles@[k].name
                        && v@[k].settings == profiles@[k].settings
                        && v@[k].selected == (profiles@[k].name@ == profile_name@))),
{
    if find_profile_by_name(&profiles, profile_name).is_none() {
        return Err(profile_not_found(profile_name));
    }
    let n = profiles.len();
    let mut out: Vec<ActixTemplateProfileInner> = Vec::new();
    let mut i: usize = 0;
    while i < n
        invariant
            0 <= i <= n,
            n == profiles@.len(),
            out@.len() == i,
            forall|k: int| 0 <= k < i
                ==> (#[trigger] out@[k]).name == profiles@[k].name
                    && out@[k].settings == profiles@[k].settings
                    && out@[k].selected == (profiles@[k].name@ == profile_name@),
        decreases n - i,
    {
        let selected = crate::text::str_eq(profiles[i].name.as_str(), profile_name);
        let entry = ActixTemplateProfileInner {
            name: profiles[i].name.clone(),
            settings: profiles[i].settings.clone(),
            selected,
        };
        out.push(entry);
        i = i + 1;
    }
    Ok(out)
}

/// Deleting a profile: every profile of that name goes; when the first
/// of them was the selected one, the first remaining profile becomes
/// selected.  Fails when no stored profile carries the name, and when
/// deleting the selected profile would leave none.
pub fn delete_profile(profiles: Vec<ActixTemplateProfileInner>, profile_name: &str) -> (r:
    Result<Vec<ActixTemplateProfileInner>, DefaultError>)
    ensures
        !has_profile_named(profiles@, profile_name@)
            ==> (r matches Err(e) && e.message@ == profile_not_found_message(profile_name@)),
        (r matches Ok(v) ==> {
            let remaining = profiles_without_name(profiles@, profile_name@);
            has_profile_named(profiles@, profile_name@)
            && (v@.len() == remaining.len())
            && (forall|k: int| 0 <= k < v@.len()
                ==> (#[trigger] v@[k]).name == remaining[k].name
                    && v@[k].settings == remaining[k].settings)
            && (forall|k: int| 1 <= k < v@.len()
                ==> (#[trigger] v@[k]).selected == remaining[k].selected)
        }),
        has_profile_named(profiles@, profile_name@)
            ==> (r matches Err(e) ==> e.message@ == "Cannot delete the last profile."@
                && profiles_without_name(profiles@, profile_name@).len() == 0),
{
    let found = match find_profile_by_name(&profiles, profile_name) {
        Some(i) => i,
        None => {
            return Err(profile_not_found(profile_name));
        }
    };
    let was_selected = profiles[found].selected;
    let ghost orig = profiles@;
    let n = profiles.len();
    let mut out: Vec<ActixTemplateProfileInner> = Vec::new();
    let mut i: usize = 0;
    while i < n
        invariant
            0 <= i <= n,
            n == orig.len(),
            profiles@ == orig,
            out@ == profiles_without_name(orig.take(i as int), profile_name@),
        decreases n - i,
    {
        proof {
            assert(orig.take(i + 1).drop_last() =~= orig.take(i as int));
            assert(orig.take(i + 1).last() == orig[i as int]);
        }
        if !crate::text::str_eq(profiles[i].name.as_str(), profile_name) {
            let kept = profiles[i].clone();
            out.push(kept);
        }
        i = i + 1;
    }
    proof {
        assert(orig.take(n as int) =~= orig);
    }
    if was_selected {
        if out.len() == 0 {
            return Err(DefaultError::new("Cannot delete the last profile."));
        }
        let mut first = out[0].clone();
        first.selected = true;
        let ghost before = out@;
        out[0] = first;
        proof {
            assert forall|k: int| 1 <= k < out@.len()
                implies (#[trigger] out@[k]) == before[k] by {}
        }
    }
    Ok(out)
}

/// Saving a profile: any stored profile of the same name goes, every
/// other profile is deselected, and the new profile is appended
/// selected.
pub fn upsert_profile(profiles: Vec<ActixTemplateProfileInner>, profile_name: String, settings:
    ActixTemplateConfiguration) -> (r: Vec<ActixTemplateProfileInner>)
    ensures
        ({
            let remaining = profiles_without_name(profiles@, profile_name@);
            r@.len() == remaining.len() + 1
            && (forall|k: int| 0 <= k < remaining.len()
                ==> (#[trigger] r@[k]).name == remaining[k].name
                    && r@[k].settings == remaining[k].settings
                    && !r@[k].selected)
            && r@.last().name == profile_name
            && r@.last().settings == settings
            && r@.last().selected
        }),
{
    let ghost orig = profiles@;
    let n = profiles.len();
    let mut out: Vec<ActixTemplateProfileInner> = Vec::new();
    let mut i: usize = 0;
    while i < n
        invariant
            0 <= i <= n,
            n == orig.len(),
            profiles@ == orig,
            out@.len() == profiles_without_name(orig.take(i as int), profile_name@).len(),
            forall|k: int| 0 <= k < out@.len()
                ==> (#[trigger] out@[k]).name
                        == profiles_without_name(orig.take(i as int), profile_name@)[k].name
                    && out@[k].settings
                        == profiles_without_name(orig.take(i as int), profile_name@)[k].settings
                    && !out@[k].selected,
        decreases n - i,
    {
        proof {
            assert(orig.take(i + 1).drop_last() =~= orig.take(i as int));
            assert(orig.take(i + 1).last() == orig[i as int]);
        }
        if !crate::text::str_eq(profiles[i].name.as_str(), profile_name.as_str()) {
            let mut kept = profiles[i].clone();
            kept.selected = false;
            out.push(kept);
        }
        i = i + 1;
    }
    proof {
        assert(orig.take(n as int) =~= orig);
    }
    let entry = ActixTemplateProfileInner { name: profile_name, settings, selected: true };
    out.push(entry);
    out
}

/// Wraps a present value one level deeper, as the generated client's
/// doubly-optional fields want.
pub fn transform_option<T>(opt: Option<T>) -> (r: Option<Option<T>>)
    ensures
        (opt matches Some(v) ==> r == Some(Some(v))),
        opt is None ==> r is None,
{
    match opt {
        Some(v) => Some(Some(v)),
        None => None,
    }
}

/// Flattens a doubly-optional text to the text or nothing.
pub fn reduce_option(opt: Option<Option<String>>) -> (r: String)
    ensures
        (opt matches Some(inner) ==> (inner matches Some(s) ==> r == s)),
        (opt matches Some(inner) ==> (inner is None ==> r@ == Seq::<char>::empty())),
        opt is None ==> r@ == Seq::<char>::empty(),
{
    match opt {
        Some(Some(s)) => s,
        Some(None) => String::new(),
        None => String::new(),
    }
}

/// Why selecting an organization interactively can fail.
#[derive(Clone, Copy, Debug, PartialEq, Eq, Structural)]
pub enum OrgSelectError {
    NoOrgs,
    OrgFetchFailure,
    CancelInput,
}

/// The organization subcommands the tool accepts.
pub enum OrgCommands {
    Create(CreateOrg),
    Delete,
    Rename,
    Invite(InviteToOrg),
    Leave(LeaveOrg),
}

/// The name of an organization to create.
pub struct CreateOrg {
    pub name: Option<String>,
}

/// The identifier of an organization to leave.
pub struct LeaveOrg {
    pub id: Option<String>,
}

/// The email address of a user to invite.
pub struct InviteToOrg {
    pub email: Option<String>,
}

/// The note subcommands the tool accepts.
pub enum NoteCommands {
    Create(CreateNote),
    Delete(DeleteNote),
    Edit(EditNote),
    List,
    View(ViewNote),
}

/// The title of a note to create.
pub struct CreateNote {
    pub title: Option<String>,
}

/// The identifier of a note to delete.
pub struct DeleteNote {
    pub id: Option<String>,
}

/// The identifier of a note to edit.
pub struct EditNote {
    pub id: Option<String>,
}

/// The identifier of a note to view.
pub struct ViewNote {
    pub id: Option<String>,
}

/// The deal subcommands the tool accepts.
pub enum DealCommands {
    Create,
    Delete(DeleteDeal),
    Edit(EditDeal),
    View(ViewDeal),
}

/// The identifier of a deal to delete.
pub struct DeleteDeal {
    pub id: Option<String>,
}

/// The identifier of a deal to edit.
pub struct EditDeal {
    pub id: String,
}

/// The identifier of a deal to view.
pub struct ViewDeal {
    pub id: String,
}

/// The task subcommands the tool accepts.
pub enum TaskCommands {
    Create,
    Delete(DeleteTask),
    Edit(EditTask),
    View(ViewTask),
}

/// The identifier of a task to delete.
pub struct DeleteTask {
    pub id: Option<String>,
}

/// The identifier of a task to edit.
pub struct EditTask {
    pub id: String,
}

/// The identifier of a task to view.
pub struct ViewTask {
    pub id: String,
}

} // verus!
