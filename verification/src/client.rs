//! The HTTP client's parameter and model shapes.
//!
//! The command-line tool talks to the service through a thin client;
//! these are the values it passes per call.  Identifiers and the
//! organization header travel as text here and are parsed at the
//! server's boundary.

use vstd::prelude::*;

verus! {

/// Parameters of the callback call.
pub struct CallbackParams {
    pub state: String,
    pub session_state: String,
    pub code: String,
}

/// Parameters of the login call.
pub struct LoginParams {
    pub redirect_uri: Option<String>,
    pub inv_code: Option<String>,
}

/// Parameters of the logout call.
pub struct LogoutParams {
    pub redirect_uri: Option<String>,
}

/// Parameters of the contact-creation call.
pub struct CreateContactParams {
    pub organization: String,
    pub create_contact_req_payload: crate::handlers::CreateContactReqPayload,
}

/// Parameters of the contact-deletion call.
pub struct DeleteContactParams {
    pub contact_id: String,
    pub organization: String,
}

/// Parameters of the contact-read call.
pub struct GetContactParams {
    pub contact_id: String,
    pub organization: String,
}

/// Parameters of the contact-update call.
pub struct UpdateContactParams {
    pub contact_id: String,
    pub organization: String,
    pub update_contact_req_payload: crate::handlers::UpdateContactReqPayload,
}

/// Parameters of the deal-creation call.
pub struct CreateDealParams {
    pub organization: String,
    pub create_deal_req_payload: crate::handlers::CreateDealReqPayload,
}

/// Parameters of the deal-deletion call.
pub struct DeleteDealParams {
    pub deal_id: String,
    pub organization: String,
}

/// Parameters of the deal-read call.
pub struct GetDealParams {
    pub deal_id: String,
    pub organization: String,
}

/// Parameters of the deal-update call.
pub struct UpdateDealParams {
    pub deal_id: String,
    pub organization: String,
    pub update_deal_req_payload: crate::handlers::UpdateDealReqPayload,
}

/// Parameters of the task-creation call.
pub struct CreateTaskParams {
    pub organization: String,
    pub create_task_req_payload: crate::handlers::CreateTaskReqPayload,
}

/// Parameters of the task-deletion call.
pub struct DeleteTaskParams {
    pub task_id: String,
    pub organization: String,
}

/// Parameters of the task-read call.
pub struct GetTaskParams {
    pub task_id: String,
    pub organization: String,
}

/// Parameters of the task-update call.
pub struct UpdateTaskParams {
    pub task_id: String,
    pub organization: String,
    pub update_task_req_payload: crate::handlers::UpdateTaskReqPayload,
}

/// A task-deal association as the client reads it off the wire: every
/// field still text.
#[derive(Debug, PartialEq, Eq)]
pub struct TaskDeal {
    pub created_at: String,
    pub deal_id: String,
    pub id: String,
    pub task_id: String,
    pub updated_at: String,
}

impl TaskDeal {
    /// A wire-shaped task-deal association from its fields.
    pub fn new(created_at: String, deal_id: String, id: String, task_id: String, updated_at:
        String) -> (r: TaskDeal)
        ensures
            r.created_at == created_at,
            r.deal_id == deal_id,
            r.id == id,
            r.task_id == task_id,
            r.updated_at == updated_at,
    {
        TaskDeal { created_at, deal_id, id, task_id, updated_at }
    }
}

impl Clone for TaskDeal {
    fn clone(&self) -> (r: Self)
        ensures
            r == *self,
    {
        TaskDeal {
            created_at: self.created_at.clone(),
            deal_id: self.deal_id.clone(),
            id: self.id.clone(),
            task_id: self.task_id.clone(),
            updated_at: self.updated_at.clone(),
        }
    }
}

} // verus!
