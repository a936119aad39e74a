//! Subscription plans and subscription lifecycle.
//!
//! At most one active subscription per account ever exists: activating
//! a new one first deactivates whatever was active for that account.

use vstd::prelude::*;

use crate::errors::ErrorMessage;
use crate::model::Subscription;
use crate::model::SubscriptionPlan;
use crate::store::Store;
use crate::store::coalesce;
use crate::store::coalesce_opt;
use crate::webhook::WebhookEvent;

verus! {

/// The subscriptions of one account, in record order.
pub open spec fn subscriptions_of(subs: Seq<Subscription>, user_id: u64) -> Seq<Subscription>
    decreases subs.len(),
{
    if subs.len() == 0 {
        Seq::<Subscription>::empty()
    } else {
        let prefix = subscriptions_of(subs.drop_last(), user_id);
        if subs.last().user_id == user_id {
            prefix.push(subs.last())
        } else {
            prefix
        }
    }
}

/// A subscription row with its active flag withdrawn.
pub open spec fn deactivated(s: Subscription, now: i64) -> Subscription {
    Subscription { status: false, updated_at: now, ..s }
}

impl Store {
    /// The index of the subscription with this id, if any.
    pub fn find_subscription_by_id(&self, id: u64) -> (r: Option<usize>)
        ensures
            match r {
                Some(i) => i < self.subscriptions@.len() && self.subscriptions@[i as int].id == id,
                None => forall|j: int|
                    0 <= j < self.subscriptions@.len() ==> self.subscriptions@[j].id != id,
            },
    {
        let mut i: usize = 0;
        while i < self.subscriptions.len()
            invariant
                i <= self.subscriptions@.len(),
                forall|j: int| 0 <= j < i ==> self.subscriptions@[j].id != id,
            decreases self.subscriptions@.len() - i,
        {
            if self.subscriptions[i].id == id {
                return Some(i);
            }
            i = i + 1;
        }
        None
    }

    /// Creates a subscription plan.
    pub fn create_subscription_plan(
        &mut self,
        name: String,
        description: Option<String>,
        price_cents: u64,
        duration_months: u64,
        features: Option<String>,
        paypal_plan_id: Option<String>,
    ) -> (r: SubscriptionPlan)
        requires
            old(self).wf(),
            old(self).next_id < u64::MAX,
        ensures
            final(self).wf(),
            crate::store::same_but_plans(*old(self), *final(self)),
            final(self).next_id == old(self).next_id + 1,
            r == (SubscriptionPlan {
                id: old(self).next_id,
                name,
                description,
                price_cents,
                duration_months,
                features,
                paypal_plan_id,
                active: true,
            }),
            final(self).subscription_plans@ == old(self).subscription_plans@.push(r),
    {
        let plan = SubscriptionPlan {
            id: self.next_id,
            name,
            description,
            price_cents,
            duration_months,
            features,
            paypal_plan_id,
            active: true,
        };
        self.next_id = self.next_id + 1;
        let out = plan.clone();
        self.subscription_plans.push(plan);
        out
    }

    /// Every stored subscription plan, in record order.
    pub fn get_subscription_plans(&self) -> (r: Vec<SubscriptionPlan>)
        ensures
            r@ == self.subscription_plans@,
    {
        let mut r: Vec<SubscriptionPlan> = Vec::new();
        let mut i: usize = 0;
        while i < self.subscription_plans.len()
            invariant
                i <= self.subscription_plans@.len(),
                r@.len() == i as int,
                forall|j: int| 0 <= j < i ==> #[trigger] r@[j] == self.subscription_plans@[j],
            decreases self.subscription_plans@.len() - i,
        {
            r.push(self.subscription_plans[i].clone());
            i = i + 1;
        }
        proof {
            assert(r@ =~= self.subscription_plans@);
        }
        r
    }

    /// Applies a partial update to a subscription plan.
    pub fn update_subscription_plan(
        &mut self,
        plan_id: u64,
        name: Option<String>,
        description: Option<String>,
        price_cents: Option<u64>,
        duration_months: Option<u64>,
        features: Option<String>,
        paypal_plan_id: Option<String>,
        active: Option<bool>,
    ) -> (r: Result<SubscriptionPlan, ErrorMessage>)
        requires
            old(self).wf(),
        ensures
            final(self).wf(),
            crate::store::same_but_plans(*old(self), *final(self)),
            final(self).next_id == old(self).next_id,
            r is Err ==> r == Err::<SubscriptionPlan, ErrorMessage>(ErrorMessage::NotFound)
                && *final(self) == *old(self) && (forall|j: int|
                0 <= j < old(self).subscription_plans@.len() ==> old(
                    self,
                ).subscription_plans@[j].id != plan_id),
            r matches Ok(p) ==> exists|i: int|
                {
                    &&& 0 <= i < old(self).subscription_plans@.len()
                    &&& #[trigger] old(self).subscription_plans@[i].id == plan_id
                    &&& p == SubscriptionPlan {
                        name: coalesce(name, old(self).subscription_plans@[i].name),
                        description: coalesce_opt(
                            description,
                            old(self).subscription_plans@[i].description,
                        ),
                        price_cents: coalesce(
                            price_cents,
                            old(self).subscription_plans@[i].price_cents,
                        ),
                        duration_months: coalesce(
                            duration_months,
                            old(self).subscription_plans@[i].duration_months,
                        ),
                        features: coalesce_opt(
                            features,
                            old(self).subscription_plans@[i].features,
                        ),
                        paypal_plan_id: coalesce_opt(
                            paypal_plan_id,
                            old(self).subscription_plans@[i].paypal_plan_id,
                        ),
                        active: coalesce(active, old(self).subscription_plans@[i].active),
                        ..old(self).subscription_plans@[i]
                    }
                    &&& final(self).subscription_plans@ == old(
                        self,
                    ).subscription_plans@.update(i, p)
                },
    {
        let mut i: usize = 0;
        let n = self.subscription_plans.len();
        while i < n
            invariant
                old(self).wf(),
                *self == *old(self),
                n == self.subscription_plans@.len(),
                i <= n,
                forall|j: int| 0 <= j < i ==> self.subscription_plans@[j].id != plan_id,
            decreases n - i,
        {
            if self.subscription_plans[i].id == plan_id {
                proof {
                    assert(old(self).subscription_plans@[i as int].id == plan_id);
                }
                let mut row = self.subscription_plans[i].clone();
                row.name = match name {
                    Some(x) => x,
                    None => row.name,
                };
                row.description = match description {
                    Some(x) => Some(x),
                    None => row.description,
                };
                row.price_cents = match price_cents {
                    Some(x) => x,
                    None => row.price_cents,
                };
                row.duration_months = match duration_months {
                    Some(x) => x,
                    None => row.duration_months,
                };
                row.features = match features {
                    Some(x) => Some(x),
                    None => row.features,
                };
                row.paypal_plan_id = match paypal_plan_id {
                    Some(x) => Some(x),
                    None => row.paypal_plan_id,
                };
                row.active = match active {
                    Some(x) => x,
                    None => row.active,
                };
                self.subscription_plans[i] = row.clone();
                return Ok(row);
            }
            i = i + 1;
        }
        Err(ErrorMessage::NotFound)
    }

    /// Deletes a subscription plan; deleting a missing one is a no-op.
    pub fn delete_subscription_plan(&mut self, plan_id: u64) -> (r: Result<(), ErrorMessage>)
        requires
            old(self).wf(),
        ensures
            final(self).wf(),
            crate::store::same_but_plans(*old(self), *final(self)),
            final(self).next_id == old(self).next_id,
            r is Ok,
            (forall|j: int|
                0 <= j < old(self).subscription_plans@.len() ==> old(
                    self,
                ).subscription_plans@[j].id != plan_id) ==> *final(self) == *old(self),
            (exists|j: int|
                0 <= j < old(self).subscription_plans@.len() && #[trigger] old(
                    self,
                ).subscription_plans@[j].id == plan_id) ==> exists|i: int|
                {
                    &&& 0 <= i < old(self).subscription_plans@.len()
                    &&& #[trigger] old(self).subscription_plans@[i].id == plan_id
                    &&& final(self).subscription_plans@ == old(self).subscription_plans@.remove(i)
                },
    {
        let mut i: usize = 0;
        let n = self.subscription_plans.len();
        while i < n
            invariant
                old(self).wf(),
                *self == *old(self),
                n == self.subscription_plans@.len(),
                i <= n,
                forall|j: int| 0 <= j < i ==> self.subscription_plans@[j].id != plan_id,
            decreases n - i,
        {
            if self.subscription_plans[i].id == plan_id {
                proof {
                    assert(old(self).subscription_plans@[i as int].id == plan_id);
                }
                self.subscription_plans.remove(i);
                return Ok(());
            }
            i = i + 1;
        }
        Ok(())
    }

    /// The account's subscriptions, in record order.
    pub fn get_user_subscriptions(&self, user_id: u64) -> (r: Vec<Subscription>)
        ensures
            r@ == subscriptions_of(self.subscriptions@, user_id),
    {
        let mut r: Vec<Subscription> = Vec::new();
        let mut i: usize = 0;
        while i < self.subscriptions.len()
            invariant
                i <= self.subscriptions@.len(),
                r@ == subscriptions_of(self.subscriptions@.take(i as int), user_id),
            decreases self.subscriptions@.len() - i,
        {
            proof {
                assert(self.subscriptions@.take(i + 1).drop_last() =~= self.subscriptions@.take(
                    i as int,
                ));
                assert(self.subscriptions@.take(i + 1).last() == self.subscriptions@[i as int]);
            }
            if self.subscriptions[i].user_id == user_id {
                r.push(self.subscriptions[i].clone());
            }
            i = i + 1;
        }
        proof {
            assert(self.subscriptions@.take(self.subscriptions@.len() as int)
                =~= self.subscriptions@);
        }
        r
    }

    /// Activates a subscription for an account: any subscription of
    /// that account that is still flagged active is deactivated first,
    /// then the new one is recorded active, so that at most one active
    /// subscription per account ever exists.
    pub fn activate_subscription(
        &mut self,
        user_id: u64,
        provider_subscription_id: String,
        plan_id: Option<String>,
        start_time: i64,
        end_time: Option<i64>,
        now: i64,
    ) -> (r: Subscription)
        requires
            old(self).wf(),
            old(self).next_id < u64::MAX,
        ensures
            final(self).wf(),
            crate::store::same_but_subscriptions(*old(self), *final(self)),
            final(self).next_id == old(self).next_id + 1,
            r == (Subscription {
                id: old(self).next_id,
                user_id,
                provider_subscription_id,
                status: true,
                plan_id,
                start_time,
                end_time,
                created_at: now,
                updated_at: now,
            }),
            final(self).subscriptions@.len() == old(self).subscriptions@.len() + 1,
            final(self).subscriptions@.last() == r,
            forall|j: int|
                0 <= j < old(self).subscriptions@.len() ==> final(self).subscriptions@[j] == (
                if old(self).subscriptions@[j].user_id == user_id && old(
                    self,
                ).subscriptions@[j].status {
                    deactivated(old(self).subscriptions@[j], now)
                } else {
                    old(self).subscriptions@[j]
                }),
    {
        // Deactivate whatever is still active for this account.
        let n = self.subscriptions.len();
        let mut i: usize = 0;
        while i < n
            invariant
                old(self).wf(),
                n == old(self).subscriptions@.len(),
                i <= n,
                self.next_id == old(self).next_id,
                crate::store::same_but_subscriptions(*old(self), *self),
                self.subscriptions@.len() == n,
                forall|j: int|
                    0 <= j < i ==> self.subscriptions@[j] == (if old(
                        self,
                    ).subscriptions@[j].user_id == user_id && old(self).subscriptions@[j].status {
                        deactivated(old(self).subscriptions@[j], now)
                    } else {
                        old(self).subscriptions@[j]
                    }),
                forall|j: int| i <= j < n ==> self.subscriptions@[j] == old(self).subscriptions@[j],
            decreases n - i,
        {
            if self.subscriptions[i].user_id == user_id && self.subscriptions[i].status {
                let mut row = self.subscriptions[i].clone();
                row.status = false;
                row.updated_at = now;
                self.subscriptions[i] = row;
            }
            i = i + 1;
        }
        // Record the new active subscription.
        let sub = Subscription {
            id: self.next_id,
            user_id,
            provider_subscription_id,
            status: true,
            plan_id,
            start_time,
            end_time,
            created_at: now,
            updated_at: now,
        };
        self.next_id = self.next_id + 1;
        let out = sub.clone();
        self.subscriptions.push(sub);
        proof {
            assert(forall|a: int, b: int|
                0 <= a < b < self.subscriptions@.len() ==> self.subscriptions@[a].id
                    != self.subscriptions@[b].id && !(self.subscriptions@[a].user_id
                    == self.subscriptions@[b].user_id && self.subscriptions@[a].status
                    && self.subscriptions@[b].status));
        }
        out
    }

    /// Marks a subscription cancelled: its active flag is withdrawn.
    pub fn cancel_subscription(&mut self, subscription_id: u64, now: i64) -> (r: Result<
        (),
        ErrorMessage,
    >)
        requires
            old(self).wf(),
        ensures
            final(self).wf(),
            crate::store::same_but_subscriptions(*old(self), *final(self)),
            final(self).next_id == old(self).next_id,
            r is Err ==> r == Err::<(), ErrorMessage>(ErrorMessage::NotFound) && *final(self)
                == *old(self) && (forall|j: int|
                0 <= j < old(self).subscriptions@.len() ==> old(self).subscriptions@[j].id
                    != subscription_id),
            r is Ok ==> exists|i: int|
                {
                    &&& 0 <= i < old(self).subscriptions@.len()
                    &&& #[trigger] old(self).subscriptions@[i].id == subscription_id
                    &&& final(self).subscriptions@ == old(self).subscriptions@.update(
                        i,
                        deactivated(old(self).subscriptions@[i], now),
                    )
                },
    {
        match self.find_subscription_by_id(subscription_id) {
            None => Err(ErrorMessage::NotFound),
            Some(i) => {
                let mut row = self.subscriptions[i].clone();
                row.status = false;
                row.updated_at = now;
                self.subscriptions[i] = row;
                Ok(())
            },
        }
    }
}

/// The provider events that end a subscription's active life:
/// cancellation, expiry and suspension all withdraw the active flag.
pub open spec fn deactivating_event(event: WebhookEvent) -> bool {
    ||| event is SubscriptionCancelled
    ||| event is SubscriptionExpired
    ||| event is SubscriptionSuspended
}

/// How one verified provider event moves the subscription table,
/// keyed by the provider's subscription id.
/// A deactivating event withdraws the active flag from every
/// subscription carrying the id; an activation makes one carrier the
/// account's sole active subscription; every other event leaves the
/// store untouched, as does an id no stored subscription carries.
pub open spec fn subscription_event_post(
    pre: Store,
    post: Store,
    event: WebhookEvent,
    pid: Seq<char>,
    now: i64,
) -> bool {
    &&& crate::store::same_but_subscriptions(pre, post)
    &&& post.next_id == pre.next_id
    &&& (deactivating_event(event) ==> {
        &&& post.subscriptions@.len() == pre.subscriptions@.len()
        &&& (forall|j: int|
            0 <= j < pre.subscriptions@.len() ==> post.subscriptions@[j] == (
            if pre.subscriptions@[j].provider_subscription_id@ == pid {
                deactivated(pre.subscriptions@[j], now)
            } else {
                pre.subscriptions@[j]
            }))
    })
    &&& (event is SubscriptionActivated ==> {
        &&& ((forall|j: int|
            0 <= j < pre.subscriptions@.len()
                ==> pre.subscriptions@[j].provider_subscription_id@ != pid) ==> post == pre)
        &&& ((exists|j: int|
            0 <= j < pre.subscriptions@.len()
                && #[trigger] pre.subscriptions@[j].provider_subscription_id@ == pid) ==> exists|
            i: int,
        |
            {
                &&& 0 <= i < pre.subscriptions@.len()
                &&& #[trigger] pre.subscriptions@[i].provider_subscription_id@ == pid
                &&& post.subscriptions@.len() == pre.subscriptions@.len()
                &&& post.subscriptions@[i] == Subscription {
                    status: true,
                    updated_at: now,
                    ..pre.subscriptions@[i]
                }
                &&& (forall|j: int|
                    0 <= j < pre.subscriptions@.len() && j != i ==> post.subscriptions@[j] == (
                    if pre.subscriptions@[j].user_id == pre.subscriptions@[i].user_id
                        && pre.subscriptions@[j].status {
                        deactivated(pre.subscriptions@[j], now)
                    } else {
                        pre.subscriptions@[j]
                    }))
            })
    })
    &&& (!deactivating_event(event) && !(event is SubscriptionActivated) ==> post == pre)
}

impl Store {
    /// Applies one verified provider event to the subscription table:
    /// the dispatch target of the webhook verifier, with the
    /// provider's subscription id handed in as a plain value.
    pub fn apply_subscription_event(
        &mut self,
        event: WebhookEvent,
        provider_subscription_id: &str,
        now: i64,
    )
        requires
            old(self).wf(),
        ensures
            final(self).wf(),
            subscription_event_post(
                *old(self),
                *final(self),
                event,
                provider_subscription_id@,
                now,
            ),
    {
        let deactivating = match event {
            WebhookEvent::SubscriptionCancelled => true,
            WebhookEvent::SubscriptionExpired => true,
            WebhookEvent::SubscriptionSuspended => true,
            _ => false,
        };
        if deactivating {
            let n = self.subscriptions.len();
            let mut j: usize = 0;
            while j < n
                invariant
                    old(self).wf(),
                    n == old(self).subscriptions@.len(),
                    j <= n,
                    self.next_id == old(self).next_id,
                    crate::store::same_but_subscriptions(*old(self), *self),
                    self.subscriptions@.len() == n,
                    forall|k: int|
                        0 <= k < j ==> self.subscriptions@[k] == (if old(
                            self,
                        ).subscriptions@[k].provider_subscription_id@
                            == provider_subscription_id@ {
                            deactivated(old(self).subscriptions@[k], now)
                        } else {
                            old(self).subscriptions@[k]
                        }),
                    forall|k: int|
                        j <= k < n ==> self.subscriptions@[k] == old(self).subscriptions@[k],
                decreases n - j,
            {
                let hit = crate::strutil::str_eq(
                    self.subscriptions[j].provider_subscription_id.as_str(),
                    provider_subscription_id,
                );
                if hit {
                    let mut row = self.subscriptions[j].clone();
                    row.status = false;
                    row.updated_at = now;
                    self.subscriptions[j] = row;
                }
                j = j + 1;
            }
            proof {
                assert(forall|a: int, b: int|
                    0 <= a < b < self.subscriptions@.len() ==> self.subscriptions@[a].id
                        != self.subscriptions@[b].id && !(self.subscriptions@[a].user_id
                        == self.subscriptions@[b].user_id && self.subscriptions@[a].status
                        && self.subscriptions@[b].status));
            }
            return ;
        }
        let activating = match event {
            WebhookEvent::SubscriptionActivated => true,
            _ => false,
        };
        if !activating {
            return ;
        }
        // Find a subscription carrying the provider's id.
        let n = self.subscriptions.len();
        let mut i: usize = 0;
        while i < n
            invariant
                old(self).wf(),
                *self == *old(self),
                n == self.subscriptions@.len(),
                i <= n,
                forall|k: int|
                    0 <= k < i ==> self.subscriptions@[k].provider_subscription_id@
                        != provider_subscription_id@,
            ensures
                old(self).wf(),
                *self == *old(self),
                n == self.subscriptions@.len(),
                i <= n,
                forall|k: int|
                    0 <= k < i ==> self.subscriptions@[k].provider_subscription_id@
                        != provider_subscription_id@,
                i < n ==> self.subscriptions@[i as int].provider_subscription_id@
                    == provider_subscription_id@,
            decreases n - i,
        {
            if crate::strutil::str_eq(
                self.subscriptions[i].provider_subscription_id.as_str(),
                provider_subscription_id,
            ) {
                break ;
            }
            i = i + 1;
        }
        if i == n {
            return ;
        }
        proof {
            assert(old(self).subscriptions@[i as int].provider_subscription_id@
                == provider_subscription_id@);
        }
        let owner = self.subscriptions[i].user_id;
        // Whatever else the account had active gives way.
        let mut j: usize = 0;
        while j < n
            invariant
                old(self).wf(),
                n == old(self).subscriptions@.len(),
                i < n,
                j <= n,
                self.next_id == old(self).next_id,
                crate::store::same_but_subscriptions(*old(self), *self),
                self.subscriptions@.len() == n,
                owner == old(self).subscriptions@[i as int].user_id,
                forall|k: int|
                    0 <= k < j && k != i ==> self.subscriptions@[k] == (if old(
                        self,
                    ).subscriptions@[k].user_id == owner && old(self).subscriptions@[k].status {
                        deactivated(old(self).subscriptions@[k], now)
                    } else {
                        old(self).subscriptions@[k]
                    }),
                forall|k: int|
                    (j <= k < n || k == i) ==> self.subscriptions@[k] == old(
                        self,
                    ).subscriptions@[k],
            decreases n - j,
        {
            if j != i && self.subscriptions[j].user_id == owner && self.subscriptions[j].status {
                let mut row = self.subscriptions[j].clone();
                row.status = false;
                row.updated_at = now;
                self.subscriptions[j] = row;
            }
            j = j + 1;
        }
        // The carrier becomes the account's sole active subscription.
        let mut row = self.subscriptions[i].clone();
        row.status = true;
        row.updated_at = now;
        self.subscriptions[i] = row;
        proof {
            assert(forall|a: int, b: int|
                0 <= a < b < self.subscriptions@.len() ==> self.subscriptions@[a].id
                    != self.subscriptions@[b].id && !(self.subscriptions@[a].user_id
                    == self.subscriptions@[b].user_id && self.subscriptions@[a].status
                    && self.subscriptions@[b].status));
        }
    }
}

} // verus!
