//! Notifications shown to accounts: simple rows the serving layer
//! creates, lists and marks read.

use vstd::prelude::*;

use crate::errors::ErrorMessage;
use crate::model::Notification;
use crate::store::Store;

verus! {

/// The notifications of one account, in record order.
pub open spec fn notifications_of(rows: Seq<Notification>, user_id: u64) -> Seq<Notification>
    decreases rows.len(),
{
    if rows.len() == 0 {
        Seq::<Notification>::empty()
    } else {
        let prefix = notifications_of(rows.drop_last(), user_id);
        if rows.last().user_id == user_id {
            prefix.push(rows.last())
        } else {
            prefix
        }
    }
}

impl Store {
    /// Creates a notification for an account.
    pub fn create_notification(
        &mut self,
        user_id: u64,
        title: String,
        message: String,
        sent_via: String,
        now: i64,
    ) -> (r: Notification)
        requires
            old(self).wf(),
            old(self).next_id < u64::MAX,
        ensures
            final(self).wf(),
            crate::store::same_but_notifications(*old(self), *final(self)),
            final(self).next_id == old(self).next_id + 1,
            r == (Notification {
                id: old(self).next_id,
                user_id,
                title,
                message,
                sent_via,
                sent_at: now,
                read: false,
            }),
            final(self).notifications@ == old(self).notifications@.push(r),
    {
        let row = Notification {
            id: self.next_id,
            user_id,
            title,
            message,
            sent_via,
            sent_at: now,
            read: false,
        };
        self.next_id = self.next_id + 1;
        let out = row.clone();
        self.notifications.push(row);
        out
    }

    /// The account's notifications, in record order.
    pub fn get_user_notifications(&self, user_id: u64) -> (r: Vec<Notification>)
        ensures
            r@ == notifications_of(self.notifications@, user_id),
    {
        let mut r: Vec<Notification> = Vec::new();
        let mut i: usize = 0;
        while i < self.notifications.len()
            invariant
                i <= self.notifications@.len(),
                r@ == notifications_of(self.notifications@.take(i as int), user_id),
            decreases self.notifications@.len() - i,
        {
            proof {
                assert(self.notifications@.take(i + 1).drop_last() =~= self.notifications@.take(
                    i as int,
                ));
                assert(self.notifications@.take(i + 1).last() == self.notifications@[i as int]);
            }
            if self.notifications[i].user_id == user_id {
                r.push(self.notifications[i].clone());
            }
            i = i + 1;
        }
        proof {
            assert(self.notifications@.take(self.notifications@.len() as int)
                =~= self.notifications@);
        }
        r
    }

    /// Marks a notification read; marking a missing one is a no-op.
    pub fn mark_notification_read(&mut self, notification_id: u64) -> (r: Result<
        (),
        ErrorMessage,
    >)
        requires
            old(self).wf(),
        ensures
            final(self).wf(),
            crate::store::same_but_notifications(*old(self), *final(self)),
            final(self).next_id == old(self).next_id,
            r is Ok,
            (forall|j: int|
                0 <= j < old(self).notifications@.len() ==> old(self).notifications@[j].id
                    != notification_id) ==> *final(self) == *old(self),
            (exists|j: int|
                0 <= j < old(self).notifications@.len() && #[trigger] old(
                    self,
                ).notifications@[j].id == notification_id) ==> exists|i: int|
                {
                    &&& 0 <= i < old(self).notifications@.len()
                    &&& #[trigger] old(self).notifications@[i].id == notification_id
                    &&& final(self).notifications@ == old(self).notifications@.update(
                        i,
                        Notification { read: true, ..old(self).notifications@[i] },
                    )
                },
    {
        let mut i: usize = 0;
        let n = self.notifications.len();
        while i < n
            invariant
                old(self).wf(),
                *self == *old(self),
                n == self.notifications@.len(),
                i <= n,
                forall|j: int| 0 <= j < i ==> self.notifications@[j].id != notification_id,
            decreases n - i,
        {
            if self.notifications[i].id == notification_id {
                proof {
                    assert(old(self).notifications@[i as int].id == notification_id);
                }
                let mut row = self.notifications[i].clone();
                row.read = true;
                self.notifications[i] = row;
                return Ok(());
            }
            i = i + 1;
        }
        Ok(())
    }
}

} // verus!
