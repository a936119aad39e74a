//! The entitlement resolver and the purchase path that feeds it.
//!
//! Access to paid content is decided by a fixed precedence of rules:
//! an administrative role grants access outright, then a live
//! subscription, then a recorded purchase of the specific course;
//! anything else is denied. The resolver is read-only.

use vstd::prelude::*;

use crate::errors::ErrorMessage;
use crate::model::CourseProgress;
use crate::model::Payment;
use crate::model::Subscription;
use crate::model::User;
use crate::model::UserCourse;
use crate::progress::count_course_lessons;
use crate::progress::cp_lookup;
use crate::progress::cp_matches;
use crate::progress::lemma_count_bounds;
use crate::store::Store;
use crate::store::wf_course_progress_row;

verus! {

/// The account holds the administrative role.
pub open spec fn is_admin(users: Seq<User>, user_id: u64) -> bool {
    exists|k: int|
        0 <= k < users.len() && #[trigger] users[k].id == user_id && users[k].role
            is Admin
}

/// The account has an active subscription: its flag is set and its end
/// is unset or still in the future.
pub open spec fn has_active_subscription(subs: Seq<Subscription>, user_id: u64, now: i64) -> bool {
    exists|k: int|
        0 <= k < subs.len() && #[trigger] subs[k].user_id == user_id && subs[k].status && (match
        subs[k].end_time {
            Some(e) => e > now,
            None => true,
        })
}

/// The account bought this course.
pub open spec fn purchased(uc: Seq<UserCourse>, user_id: u64, course_id: u64) -> bool {
    exists|k: int|
        0 <= k < uc.len() && #[trigger] uc[k].user_id == user_id && uc[k].course_id == course_id
}

/// The entitlement rule: administrative role, else live subscription,
/// else a recorded purchase of the course; otherwise denied.
pub open spec fn has_access(s: Store, user_id: u64, course_id: u64, now: i64) -> bool {
    ||| is_admin(s.users@, user_id)
    ||| has_active_subscription(s.subscriptions@, user_id, now)
    ||| purchased(s.user_courses@, user_id, course_id)
}

/// The course ids of the account's entitlement records, in record
/// order.
pub open spec fn purchased_course_ids(uc: Seq<UserCourse>, user_id: u64) -> Seq<u64>
    decreases uc.len(),
{
    if uc.len() == 0 {
        Seq::<u64>::empty()
    } else {
        let prefix = purchased_course_ids(uc.drop_last(), user_id);
        if uc.last().user_id == user_id {
            prefix.push(uc.last().course_id)
        } else {
            prefix
        }
    }
}

impl Store {
    /// The index of the entitlement record for (account, course).
    pub(crate) fn find_user_course(&self, user_id: u64, course_id: u64) -> (r: Option<usize>)
        ensures
            match r {
                Some(i) => i < self.user_courses@.len() && self.user_courses@[i as int].user_id
                    == user_id && self.user_courses@[i as int].course_id == course_id,
                None => !purchased(self.user_courses@, user_id, course_id),
            },
    {
        let mut i: usize = 0;
        while i < self.user_courses.len()
            invariant
                i <= self.user_courses@.len(),
                forall|j: int|
                    0 <= j < i ==> !(#[trigger] self.user_courses@[j].user_id == user_id
                        && self.user_courses@[j].course_id == course_id),
            decreases self.user_courses@.len() - i,
        {
            if self.user_courses[i].user_id == user_id && self.user_courses[i].course_id
                == course_id {
                return Some(i);
            }
            i = i + 1;
        }
        None
    }

    /// The index of the course with this id, if any.
    pub fn find_course_by_id(&self, id: u64) -> (r: Option<usize>)
        ensures
            match r {
                Some(i) => i < self.courses@.len() && self.courses@[i as int].id == id,
                None => forall|j: int| 0 <= j < self.courses@.len() ==> self.courses@[j].id != id,
            },
    {
        let mut i: usize = 0;
        while i < self.courses.len()
            invariant
                i <= self.courses@.len(),
                forall|j: int| 0 <= j < i ==> self.courses@[j].id != id,
            decreases self.courses@.len() - i,
        {
            if self.courses[i].id == id {
                return Some(i);
            }
            i = i + 1;
        }
        None
    }

    /// Whether the account holds a subscription that is live now.
    fn has_live_subscription(&self, user_id: u64, now: i64) -> (r: bool)
        ensures
            r == has_active_subscription(self.subscriptions@, user_id, now),
    {
        let mut i: usize = 0;
        while i < self.subscriptions.len()
            invariant
                i <= self.subscriptions@.len(),
                forall|j: int|
                    0 <= j < i ==> !(#[trigger] self.subscriptions@[j].user_id == user_id
                        && self.subscriptions@[j].status && (match self.subscriptions@[j].end_time {
                        Some(e) => e > now,
                        None => true,
                    })),
            decreases self.subscriptions@.len() - i,
        {
            if self.subscriptions[i].user_id == user_id && self.subscriptions[i].status {
                let live = match self.subscriptions[i].end_time {
                    Some(e) => e > now,
                    None => true,
                };
                if live {
                    return true;
                }
            }
            i = i + 1;
        }
        false
    }

    /// The entitlement resolver: answers whether the account may view
    /// the course's paid content, by the fixed precedence of rules.
    /// Read-only; no rule is reported to the caller, only the verdict.
    pub fn check_user_course_access(&self, user_id: u64, course_id: u64, now: i64) -> (r: bool)
        requires
            self.wf(),
        ensures
            r == has_access(*self, user_id, course_id, now),
    {
        // Rule one: administrative bypass.
        match self.find_user_by_id(user_id) {
            Some(i) => {
                if matches!(self.users[i].role, crate::model::UserRole::Admin) {
                    return true;
                }
                proof {
                    assert(!is_admin(self.users@, user_id));
                }
            },
            None => {
                proof {
                    assert(!is_admin(self.users@, user_id));
                }
            },
        }
        // Rule two: a live subscription.
        if self.has_live_subscription(user_id, now) {
            return true;
        }
        // Rule three: a purchase of this very course.
        match self.find_user_course(user_id, course_id) {
            Some(_) => true,
            None => false,
        }
    }

    /// The course ids the account has bought, in record order.
    pub fn get_user_purchased_courses(&self, user_id: u64) -> (r: Vec<u64>)
        ensures
            r@ == purchased_course_ids(self.user_courses@, user_id),
    {
        let mut r: Vec<u64> = Vec::new();
        let mut i: usize = 0;
        while i < self.user_courses.len()
            invariant
                i <= self.user_courses@.len(),
                r@ == purchased_course_ids(self.user_courses@.take(i as int), user_id),
            decreases self.user_courses@.len() - i,
        {
            proof {
                assert(self.user_courses@.take(i + 1).drop_last() =~= self.user_courses@.take(
                    i as int,
                ));
                assert(self.user_courses@.take(i + 1).last() == self.user_courses@[i as int]);
            }
            if self.user_courses[i].user_id == user_id {
                r.push(self.user_courses[i].course_id);
            }
            i = i + 1;
        }
        proof {
            assert(self.user_courses@.take(self.user_courses@.len() as int)
                =~= self.user_courses@);
        }
        r
    }

    /// The stored aggregate for (account, course), if any.
    pub fn get_user_course_progress(&self, user_id: u64, course_id: u64) -> (r: Option<
        CourseProgress,
    >)
        requires
            self.wf(),
        ensures
            r == cp_lookup(self.course_progress@, user_id, course_id),
    {
        let mut i: usize = 0;
        while i < self.course_progress.len()
            invariant
                self.wf(),
                i <= self.course_progress@.len(),
                forall|j: int|
                    0 <= j < i ==> !cp_matches(self.course_progress@[j], user_id, course_id),
            decreases self.course_progress@.len() - i,
        {
            if self.course_progress[i].user_id == user_id && self.course_progress[i].course_id
                == course_id {
                proof {
                    assert(cp_matches(self.course_progress@[i as int], user_id, course_id));
                    let q = choose|q: int|
                        0 <= q < self.course_progress@.len() && #[trigger] cp_matches(
                            self.course_progress@[q],
                            user_id,
                            course_id,
                        );
                    assert(q == i as int);
                }
                return Some(self.course_progress[i]);
            }
            i = i + 1;
        }
        None
    }

    /// Registers a successful purchase: records the payment, creates
    /// the entitlement record if it is the first purchase of this
    /// course by this account (counting the course's student), and
    /// seeds an empty progress aggregate if none exists yet. The
    /// entitlement record is never duplicated.
    pub fn register_course_purchase(
        &mut self,
        user_id: u64,
        course_id: u64,
        transaction_id: String,
        amount_cents: u64,
        payment_method: String,
        status: String,
        now: i64,
    ) -> (r: Result<(), ErrorMessage>)
        requires
            old(self).wf(),
            old(self).next_id < u64::MAX - 1,
        ensures
            final(self).wf(),
            final(self).users == old(self).users,
            final(self).modules == old(self).modules,
            final(self).lessons == old(self).lessons,
            final(self).lesson_progress == old(self).lesson_progress,
            final(self).achievements == old(self).achievements,
            final(self).user_achievements == old(self).user_achievements,
            final(self).subscriptions == old(self).subscriptions,
            final(self).subscription_plans == old(self).subscription_plans,
            final(self).notifications == old(self).notifications,
            final(self).stats == old(self).stats,
            r is Err <==> (forall|j: int|
                0 <= j < old(self).courses@.len() ==> old(self).courses@[j].id != course_id),
            r is Err ==> r == Err::<(), ErrorMessage>(ErrorMessage::CourseNotFound) && *final(self)
                == *old(self),
            r is Ok ==> {
                &&& final(self).payments@ == old(self).payments@.push(
                    Payment {
                        id: old(self).next_id,
                        user_id,
                        course_id,
                        amount_cents,
                        payment_method,
                        transaction_id,
                        status,
                        created_at: now,
                    },
                )
                &&& (purchased(old(self).user_courses@, user_id, course_id) ==> {
                    &&& final(self).user_courses == old(self).user_courses
                    &&& final(self).courses == old(self).courses
                    &&& final(self).next_id == old(self).next_id + 1
                })
                &&& (!purchased(old(self).user_courses@, user_id, course_id) ==> {
                    &&& final(self).user_courses@ == old(self).user_courses@.push(
                        UserCourse {
                            id: (old(self).next_id + 1) as u64,
                            user_id,
                            course_id,
                            purchased_at: now,
                        },
                    )
                    &&& exists|ci: int|
                        {
                            &&& 0 <= ci < old(self).courses@.len()
                            &&& #[trigger] old(self).courses@[ci].id == course_id
                            &&& final(self).courses@ == old(self).courses@.update(
                                ci,
                                crate::model::Course {
                                    students: (if old(self).courses@[ci].students < u64::MAX {
                                        (old(self).courses@[ci].students + 1) as u64
                                    } else {
                                        old(self).courses@[ci].students
                                    }),
                                    ..old(self).courses@[ci]
                                },
                            )
                        }
                    &&& final(self).next_id == old(self).next_id + 2
                })
                &&& (cp_lookup(old(self).course_progress@, user_id, course_id) is Some ==> final(self).course_progress == old(self).course_progress)
                &&& (cp_lookup(old(self).course_progress@, user_id, course_id) is None ==> final(self).course_progress@ == old(self).course_progress@.push(
                    CourseProgress {
                        user_id,
                        course_id,
                        total_lessons: count_course_lessons(
                            old(self).lessons@,
                            old(self).modules@,
                            course_id,
                        ) as u64,
                        completed_lessons: 0,
                        percentage: 0,
                        completed_at: None,
                        last_accessed: now,
                        created_at: now,
                        updated_at: now,
                    },
                ))
            },
    {
        let ci = match self.find_course_by_id(course_id) {
            Some(ci) => ci,
            None => {
                return Err(ErrorMessage::CourseNotFound);
            },
        };

        // Record the payment itself.
        let payment = Payment {
            id: self.next_id,
            user_id,
            course_id,
            amount_cents,
            payment_method,
            transaction_id,
            status,
            created_at: now,
        };
        self.next_id = self.next_id + 1;
        self.payments.push(payment);

        // First purchase of this course by this account: create the
        // entitlement record, exactly once, and count the student.
        if self.find_user_course(user_id, course_id).is_none() {
            let uc = UserCourse { id: self.next_id, user_id, course_id, purchased_at: now };
            self.next_id = self.next_id + 1;
            self.user_courses.push(uc);
            let mut course = self.courses[ci].clone();
            if course.students < u64::MAX {
                course.students = course.students + 1;
            }
            self.courses[ci] = course;
        }

        // Seed the aggregate so progress queries start from zero.
        let seed = self.locate_course_progress(user_id, course_id);
        if seed.is_none() {
            let (total, _done) = self.course_lesson_counts(user_id, course_id);
            proof {
                lemma_count_bounds(
                    self.lessons@,
                    self.modules@,
                    self.lesson_progress@,
                    user_id,
                    course_id,
                );
            }
            let row = CourseProgress {
                user_id,
                course_id,
                total_lessons: total,
                completed_lessons: 0,
                percentage: 0,
                completed_at: None,
                last_accessed: now,
                created_at: now,
                updated_at: now,
            };
            self.course_progress.push(row);
        }
        Ok(())
    }

    /// The index of the aggregate row keyed (account, course), with
    /// the lookup pinned to the spec-level table lookup.
    fn locate_course_progress(&self, user_id: u64, course_id: u64) -> (r: Option<usize>)
        requires
            self.wf(),
        ensures
            r is Some <==> cp_lookup(self.course_progress@, user_id, course_id) is Some,
            match r {
                Some(i) => i < self.course_progress@.len() && cp_matches(
                    self.course_progress@[i as int],
                    user_id,
                    course_id,
                ),
                None => forall|j: int|
                    0 <= j < self.course_progress@.len() ==> !cp_matches(
                        self.course_progress@[j],
                        user_id,
                        course_id,
                    ),
            },
    {
        let mut i: usize = 0;
        while i < self.course_progress.len()
            invariant
                i <= self.course_progress@.len(),
                forall|j: int|
                    0 <= j < i ==> !cp_matches(self.course_progress@[j], user_id, course_id),
            decreases self.course_progress@.len() - i,
        {
            if self.course_progress[i].user_id == user_id && self.course_progress[i].course_id
                == course_id {
                proof {
                    assert(cp_matches(self.course_progress@[i as int], user_id, course_id));
                }
                return Some(i);
            }
            i = i + 1;
        }
        None
    }

    /// Overwrites the stored aggregate's completed count, recomputing
    /// its percentage from the stored total (clamping the count to the
    /// total first). A missing row is left missing.
    pub fn update_course_progress(
        &mut self,
        user_id: u64,
        course_id: u64,
        completed_lessons: u64,
        now: i64,
    ) -> (r: Result<(), ErrorMessage>)
        requires
            old(self).wf(),
        ensures
            final(self).wf(),
            r is Ok,
            final(self).next_id == old(self).next_id,
            final(self).users == old(self).users,
            final(self).courses == old(self).courses,
            final(self).modules == old(self).modules,
            final(self).lessons == old(self).lessons,
            final(self).user_courses == old(self).user_courses,
            final(self).payments == old(self).payments,
            final(self).lesson_progress == old(self).lesson_progress,
            final(self).achievements == old(self).achievements,
            final(self).user_achievements == old(self).user_achievements,
            final(self).subscriptions == old(self).subscriptions,
            final(self).subscription_plans == old(self).subscription_plans,
            final(self).notifications == old(self).notifications,
            final(self).stats == old(self).stats,
            cp_lookup(old(self).course_progress@, user_id, course_id) is None ==> *final(self)
                == *old(self),
            (match cp_lookup(old(self).course_progress@, user_id, course_id) {
                Some(prev) => exists|i: int|
                    {
                        &&& 0 <= i < old(self).course_progress@.len()
                        &&& cp_matches(#[trigger] old(self).course_progress@[i], user_id, course_id)
                        &&& final(self).course_progress@ == old(self).course_progress@.update(
                            i,
                            CourseProgress {
                                completed_lessons: (if completed_lessons <= prev.total_lessons {
                                    completed_lessons
                                } else {
                                    prev.total_lessons
                                }),
                                percentage: crate::progress::percentage_of(
                                    (if completed_lessons <= prev.total_lessons {
                                        completed_lessons as int
                                    } else {
                                        prev.total_lessons as int
                                    }),
                                    prev.total_lessons as int,
                                ) as u8,
                                last_accessed: now,
                                updated_at: now,
                                ..prev
                            },
                        )
                    },
                None => true,
            }),
    {
        match self.locate_course_progress(user_id, course_id) {
            None => Ok(()),
            Some(i) => {
                let mut row = self.course_progress[i];
                proof {
                    let q = choose|q: int|
                        0 <= q < self.course_progress@.len() && #[trigger] cp_matches(
                            self.course_progress@[q],
                            user_id,
                            course_id,
                        );
                    assert(q == i as int);
                }
                let total = row.total_lessons;
                let done = if completed_lessons <= total {
                    completed_lessons
                } else {
                    total
                };
                proof {
                    crate::progress::lemma_percentage_bounds(done as int, total as int);
                }
                let pct: u8 = if total == 0 {
                    0
                } else {
                    ((done as u128) * 100 / (total as u128)) as u8
                };
                row.completed_lessons = done;
                row.percentage = pct;
                row.last_accessed = now;
                row.updated_at = now;
                self.course_progress[i] = row;
                proof {
                    assert(wf_course_progress_row(row));
                }
                Ok(())
            },
        }
    }
}

/// Precedence, first half: an administrative account is granted access
/// to any course, with or without subscriptions or purchases.
pub proof fn lemma_admin_always_granted(s: Store, user_id: u64, course_id: u64, now: i64)
    requires
        is_admin(s.users@, user_id),
    ensures
        has_access(s, user_id, course_id, now),
{
}

/// Precedence, second half: a non-administrative account whose every
/// subscription has already ended and which never bought the course is
/// denied, whatever the subscriptions' status flags still say.
pub proof fn lemma_expired_subscription_denied(s: Store, user_id: u64, course_id: u64, now: i64)
    requires
        !is_admin(s.users@, user_id),
        forall|k: int|
            0 <= k < s.subscriptions@.len() && #[trigger] s.subscriptions@[k].user_id == user_id
                ==> (match s.subscriptions@[k].end_time {
                Some(e) => e <= now,
                None => false,
            }),
        !purchased(s.user_courses@, user_id, course_id),
    ensures
        !has_access(s, user_id, course_id, now),
{
}

} // verus!