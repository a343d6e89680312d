//! Subscription plans.

use vstd::prelude::*;
use crate::errors::ServiceError;
use crate::models::Plan;
use crate::store::Backend;

verus! {

pub open spec fn has_plan_id(s: Seq<Plan>, id: u128) -> bool {
    exists|i: int| 0 <= i < s.len() && (#[trigger] s[i]).id == id
}

/// The index of the plan with the given identifier.
fn find_plan_by_id(v: &Vec<Plan>, id: u128) -> (r: Option<usize>)
    ensures
        match r {
            Some(i) => i < v@.len() && v@[i as int].id == id,
            None => !has_plan_id(v@, id),
        },
{
    let n = v.len();
    let mut i: usize = 0;
    while i < n
        invariant
            0 <= i <= n,
            n == v@.len(),
            forall|j: int| 0 <= j < i ==> (#[trigger] v@[j]).id != id,
        decreases n - i,
    {
        if v[i].id == id {
            return Some(i);
        }
        i = i + 1;
    }
    None
}

impl Backend {
    /// Stores the given plan record; rejected, and the state left
    /// unchanged, exactly when its identifier is already taken.
    pub fn insert_plan(&mut self, plan: Plan) -> (r: Result<(), ServiceError>)
        requires
            old(self).wf(),
        ensures
            final(self).wf(),
            final(self).same_except_plans(*old(self)),
            has_plan_id(old(self).plans@, plan.id)
                ==> (r matches Err(ServiceError::InternalServerError(m))
                    && m@ == "Error creating plan"@
                    && final(self).plans@ == old(self).plans@),
            !has_plan_id(old(self).plans@, plan.id)
                ==> r is Ok && final(self).plans@ == old(self).plans@.push(plan),
    {
        if find_plan_by_id(&self.plans, plan.id).is_some() {
            return Err(ServiceError::InternalServerError(String::from_str(
                "Error creating plan")));
        }
        self.plans.push(plan);
        Ok(())
    }

    /// Stores a fresh plan.
    pub fn create_plan_query(&mut self, stripe_id: String, num_users: i32, num_deals: i32,
        price_per_month: i32) -> (r: Result<Plan, ServiceError>)
        requires
            old(self).wf(),
        ensures
            final(self).wf(),
            final(self).same_except_plans(*old(self)),
            (r matches Ok(x) ==> x.stripe_id@ == stripe_id@ && x.num_users == num_users
                && x.num_deals == num_deals && x.price_per_month == price_per_month
                && final(self).plans@ == old(self).plans@.push(x)),
            (r matches Err(e) ==> final(self).plans@ == old(self).plans@
                && (e matches ServiceError::InternalServerError(m)
                    && m@ == "Error creating plan"@)),
            (r matches Err(_) ==> old(self).plans@.len() > 0),
    {
        let plan = Plan::from_details(stripe_id, num_users, num_deals, price_per_month);
        let ret = plan.clone();
        self.insert_plan(plan)?;
        Ok(ret)
    }

    /// The plan with the given identifier; `NotFound` otherwise.
    pub fn get_plan_by_id(&self, plan_id: u128) -> (r: Result<Plan, ServiceError>)
        requires
            self.wf(),
        ensures
            (r matches Ok(x) <==> has_plan_id(self.plans@, plan_id)),
            (r matches Ok(x) ==> x.id == plan_id
                && exists|i: int| 0 <= i < self.plans@.len() && #[trigger] self.plans@[i] == x),
            (r matches Err(e) ==> e == ServiceError::NotFound),
    {
        match find_plan_by_id(&self.plans, plan_id) {
            Some(i) => Ok(self.plans[i].clone()),
            None => Err(ServiceError::NotFound),
        }
    }

    /// Deletes the plan; deleting an absent plan succeeds and changes
    /// nothing.
    pub fn delete_plan_query(&mut self, plan_id: u128) -> (r: Result<(), ServiceError>)
        requires
            old(self).wf(),
        ensures
            final(self).wf(),
            final(self).same_except_plans(*old(self)),
            r matches Ok(_),
            !has_plan_id(final(self).plans@, plan_id),
            !has_plan_id(old(self).plans@, plan_id)
                ==> final(self).plans@ == old(self).plans@,
            has_plan_id(old(self).plans@, plan_id)
                ==> exists|i: int| 0 <= i < old(self).plans@.len()
                    && (#[trigger] old(self).plans@[i]).id == plan_id
                    && final(self).plans@ == old(self).plans@.remove(i),
    {
        match find_plan_by_id(&self.plans, plan_id) {
            Some(i) => {
                self.plans.remove(i);
                proof {
                    let pre = old(self).plans@;
                    let post = self.plans@;
                    assert forall|k: int| 0 <= k < post.len()
                        implies (#[trigger] post[k]).id != plan_id by {
                        if k < i {
                            assert(post[k] == pre[k]);
                        } else {
                            assert(post[k] == pre[k + 1]);
                        }
                    }
                    assert forall|a: int, b: int| #![trigger post[a], post[b]]
                        0 <= a < b < post.len() implies post[a].id != post[b].id by {
                        let pa: int = if a < i { a } else { a + 1 };
                        let pb: int = if b < i { b } else { b + 1 };
                        assert(post[a] == pre[pa]);
                        assert(post[b] == pre[pb]);
                    }
                }
                Ok(())
            }
            None => Ok(()),
        }
    }

    /// Replaces the plan's supplied fields, keeping the rest; the
    /// service's updating error when the plan does not exist.
    pub fn update_plan_query(&mut self, plan_id: u128, stripe_id: Option<String>, num_users:
        Option<i32>, num_deals: Option<i32>, price_per_month: Option<i32>) -> (r: Result<Plan,
        ServiceError>)
        requires
            old(self).wf(),
        ensures
            final(self).wf(),
            final(self).same_except_plans(*old(self)),
            !has_plan_id(old(self).plans@, plan_id)
                ==> final(self).plans@ == old(self).plans@
                    && (r matches Err(e) && (e matches ServiceError::InternalServerError(m)
                        && m@ == "Error updating plan"@)),
            has_plan_id(old(self).plans@, plan_id)
                ==> (r matches Ok(x) && x.id == plan_id
                    && exists|i: int| 0 <= i < old(self).plans@.len()
                        && (#[trigger] old(self).plans@[i]).id == plan_id
                        && x.stripe_id == (match stripe_id {
                            Some(v) => v,
                            None => old(self).plans@[i].stripe_id,
                        })
                        && x.num_users == (match num_users {
                            Some(v) => v,
                            None => old(self).plans@[i].num_users,
                        })
                        && x.num_deals == (match num_deals {
                            Some(v) => v,
                            None => old(self).plans@[i].num_deals,
                        })
                        && x.price_per_month == (match price_per_month {
                            Some(v) => v,
                            None => old(self).plans@[i].price_per_month,
                        })
                        && x.created_at == old(self).plans@[i].created_at
                        && x.updated_at == old(self).plans@[i].updated_at
                        && final(self).plans@ == old(self).plans@.update(i, x)),
    {
        match find_plan_by_id(&self.plans, plan_id) {
            Some(i) => {
                let mut rec = self.plans[i].clone();
                match stripe_id {
                    Some(v) => {
                        rec.stripe_id = v;
                    }
                    None => {}
                }
                match num_users {
                    Some(v) => {
                        rec.num_users = v;
                    }
                    None => {}
                }
                match num_deals {
                    Some(v) => {
                        rec.num_deals = v;
                    }
                    None => {}
                }
                match price_per_month {
                    Some(v) => {
                        rec.price_per_month = v;
                    }
                    None => {}
                }
                let ret = rec.clone();
                self.plans[i] = rec;
                proof {
                    let pre = old(self).plans@;
                    let post = self.plans@;
                    assert forall|a: int, b: int| #![trigger post[a], post[b]]
                        0 <= a < b < post.len() implies post[a].id != post[b].id by {
                        assert(pre[a].id != pre[b].id);
                    }
                }
                Ok(ret)
            }
            None => Err(ServiceError::InternalServerError(String::from_str(
                "Error updating plan"))),
        }
    }
}

} // verus!
