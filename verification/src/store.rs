//! The engine's backing store, modelled in memory.
//!
//! Each table is a vector of rows; `wf` states the uniqueness rules the
//! relational schema enforces (unique identifiers, unique account
//! emails, one row per (account, lesson), one per (account,
//! achievement), one entitlement per (account, course), at most one
//! active subscription per account) and the derived-aggregate bounds of
//! course progress. Every operation preserves `wf`.

use vstd::prelude::*;

use crate::errors::ErrorMessage;
use crate::model::Achievement;
use crate::model::Course;
use crate::model::CourseProgress;
use crate::model::EngagementStats;
use crate::model::Lesson;
use crate::model::LessonProgress;
use crate::model::Module;
use crate::model::Notification;
use crate::model::Payment;
use crate::model::Subscription;
use crate::model::SubscriptionPlan;
use crate::model::User;
use crate::model::UserAchievement;
use crate::model::UserCourse;
use crate::model::UserRole;

verus! {

pub struct Store {
    pub users: Vec<User>,
    pub courses: Vec<Course>,
    pub modules: Vec<Module>,
    pub lessons: Vec<Lesson>,
    pub user_courses: Vec<UserCourse>,
    pub payments: Vec<Payment>,
    pub lesson_progress: Vec<LessonProgress>,
    pub course_progress: Vec<CourseProgress>,
    pub achievements: Vec<Achievement>,
    pub user_achievements: Vec<UserAchievement>,
    pub subscriptions: Vec<Subscription>,
    pub subscription_plans: Vec<SubscriptionPlan>,
    pub notifications: Vec<Notification>,
    pub stats: Vec<EngagementStats>,
    pub next_id: u64,
}

impl Store {
    pub open spec fn wf_users(self) -> bool {
        &&& forall|i: int, j: int|
            0 <= i < j < self.users@.len() ==> self.users@[i].id != self.users@[j].id
                && self.users@[i].email@ != self.users@[j].email@
        &&& forall|i: int| 0 <= i < self.users@.len() ==> self.users@[i].id < self.next_id
    }

    pub open spec fn wf_catalog(self) -> bool {
        &&& forall|i: int, j: int|
            0 <= i < j < self.courses@.len() ==> self.courses@[i].id != self.courses@[j].id
        &&& forall|i: int| 0 <= i < self.courses@.len() ==> self.courses@[i].id < self.next_id
        &&& forall|i: int, j: int|
            0 <= i < j < self.modules@.len() ==> self.modules@[i].id != self.modules@[j].id
        &&& forall|i: int| 0 <= i < self.modules@.len() ==> self.modules@[i].id < self.next_id
        &&& forall|i: int, j: int|
            0 <= i < j < self.lessons@.len() ==> self.lessons@[i].id != self.lessons@[j].id
        &&& forall|i: int| 0 <= i < self.lessons@.len() ==> self.lessons@[i].id < self.next_id
    }

    pub open spec fn wf_entitlements(self) -> bool {
        &&& forall|i: int, j: int|
            0 <= i < j < self.user_courses@.len() ==> self.user_courses@[i].id
                != self.user_courses@[j].id && !(self.user_courses@[i].user_id
                == self.user_courses@[j].user_id && self.user_courses@[i].course_id
                == self.user_courses@[j].course_id)
        &&& forall|i: int|
            0 <= i < self.user_courses@.len() ==> self.user_courses@[i].id < self.next_id
        &&& forall|i: int, j: int|
            0 <= i < j < self.payments@.len() ==> self.payments@[i].id != self.payments@[j].id
        &&& forall|i: int| 0 <= i < self.payments@.len() ==> self.payments@[i].id < self.next_id
    }

    pub open spec fn wf_progress(self) -> bool {
        &&& forall|i: int, j: int|
            0 <= i < j < self.lesson_progress@.len() ==> !(self.lesson_progress@[i].user_id
                == self.lesson_progress@[j].user_id && self.lesson_progress@[i].lesson_id
                == self.lesson_progress@[j].lesson_id)
        &&& forall|i: int|
            0 <= i < self.lesson_progress@.len() ==> self.lesson_progress@[i].progress <= 100
        &&& forall|i: int, j: int|
            0 <= i < j < self.course_progress@.len() ==> !(self.course_progress@[i].user_id
                == self.course_progress@[j].user_id && self.course_progress@[i].course_id
                == self.course_progress@[j].course_id)
        &&& forall|i: int|
            0 <= i < self.course_progress@.len() ==> wf_course_progress_row(
                self.course_progress@[i],
            )
    }

    pub open spec fn wf_achievements(self) -> bool {
        &&& forall|i: int, j: int|
            0 <= i < j < self.achievements@.len() ==> self.achievements@[i].id
                != self.achievements@[j].id
        &&& forall|i: int|
            0 <= i < self.achievements@.len() ==> self.achievements@[i].id < self.next_id
        &&& forall|i: int, j: int|
            0 <= i < j < self.user_achievements@.len() ==> !(self.user_achievements@[i].user_id
                == self.user_achievements@[j].user_id && self.user_achievements@[i].achievement_id
                == self.user_achievements@[j].achievement_id)
        &&& forall|i: int|
            0 <= i < self.user_achievements@.len() ==> (self.user_achievements@[i].earned
                <==> self.user_achievements@[i].earned_at is Some)
    }

    pub open spec fn wf_billing(self) -> bool {
        &&& forall|i: int, j: int|
            0 <= i < j < self.subscriptions@.len() ==> self.subscriptions@[i].id
                != self.subscriptions@[j].id && !(self.subscriptions@[i].user_id
                == self.subscriptions@[j].user_id && self.subscriptions@[i].status
                && self.subscriptions@[j].status)
        &&& forall|i: int|
            0 <= i < self.subscriptions@.len() ==> self.subscriptions@[i].id < self.next_id
        &&& forall|i: int, j: int|
            0 <= i < j < self.subscription_plans@.len() ==> self.subscription_plans@[i].id
                != self.subscription_plans@[j].id
        &&& forall|i: int|
            0 <= i < self.subscription_plans@.len() ==> self.subscription_plans@[i].id
                < self.next_id
    }

    pub open spec fn wf_misc(self) -> bool {
        &&& forall|i: int, j: int|
            0 <= i < j < self.notifications@.len() ==> self.notifications@[i].id
                != self.notifications@[j].id
        &&& forall|i: int|
            0 <= i < self.notifications@.len() ==> self.notifications@[i].id < self.next_id
        &&& forall|i: int, j: int|
            0 <= i < j < self.stats@.len() ==> self.stats@[i].user_id != self.stats@[j].user_id
    }

    /// The store's full well-formedness invariant.
    pub open spec fn wf(self) -> bool {
        &&& self.wf_users()
        &&& self.wf_catalog()
        &&& self.wf_entitlements()
        &&& self.wf_progress()
        &&& self.wf_achievements()
        &&& self.wf_billing()
        &&& self.wf_misc()
    }

    /// An empty store.
    pub fn new() -> (r: Store)
        ensures
            r.wf(),
            r.users@.len() == 0,
            r.courses@.len() == 0,
            r.modules@.len() == 0,
            r.lessons@.len() == 0,
            r.user_courses@.len() == 0,
            r.payments@.len() == 0,
            r.lesson_progress@.len() == 0,
            r.course_progress@.len() == 0,
            r.achievements@.len() == 0,
            r.user_achievements@.len() == 0,
            r.subscriptions@.len() == 0,
            r.subscription_plans@.len() == 0,
            r.notifications@.len() == 0,
            r.stats@.len() == 0,
            r.next_id == 1,
    {
        Store {
            users: Vec::new(),
            courses: Vec::new(),
            modules: Vec::new(),
            lessons: Vec::new(),
            user_courses: Vec::new(),
            payments: Vec::new(),
            lesson_progress: Vec::new(),
            course_progress: Vec::new(),
            achievements: Vec::new(),
            user_achievements: Vec::new(),
            subscriptions: Vec::new(),
            subscription_plans: Vec::new(),
            notifications: Vec::new(),
            stats: Vec::new(),
            next_id: 1,
        }
    }
}

/// Bounds every course-progress aggregate keeps: the completed count
/// never exceeds the total, the percentage never exceeds one hundred,
/// and it is exactly one hundred just when a nonempty course is fully
/// completed.
pub open spec fn wf_course_progress_row(p: CourseProgress) -> bool {
    &&& p.completed_lessons <= p.total_lessons
    &&& p.percentage <= 100
    &&& (p.percentage == 100 <==> (p.completed_lessons == p.total_lessons && p.total_lessons > 0))
}

/// Equality of everything but the course, module and lesson tables.
pub open spec fn same_but_courses_modules_lessons(a: Store, b: Store) -> bool {
    &&& a.users == b.users
    &&& a.user_courses == b.user_courses
    &&& a.payments == b.payments
    &&& a.lesson_progress == b.lesson_progress
    &&& a.course_progress == b.course_progress
    &&& a.achievements == b.achievements
    &&& a.user_achievements == b.user_achievements
    &&& a.subscriptions == b.subscriptions
    &&& a.subscription_plans == b.subscription_plans
    &&& a.notifications == b.notifications
    &&& a.stats == b.stats
}

/// Equality of everything but the subscription-plan table.
pub open spec fn same_but_plans(a: Store, b: Store) -> bool {
    &&& a.users == b.users
    &&& a.courses == b.courses
    &&& a.modules == b.modules
    &&& a.lessons == b.lessons
    &&& a.user_courses == b.user_courses
    &&& a.payments == b.payments
    &&& a.lesson_progress == b.lesson_progress
    &&& a.course_progress == b.course_progress
    &&& a.achievements == b.achievements
    &&& a.user_achievements == b.user_achievements
    &&& a.subscriptions == b.subscriptions
    &&& a.notifications == b.notifications
    &&& a.stats == b.stats
}

/// Equality of everything but the subscription table.
pub open spec fn same_but_subscriptions(a: Store, b: Store) -> bool {
    &&& a.users == b.users
    &&& a.courses == b.courses
    &&& a.modules == b.modules
    &&& a.lessons == b.lessons
    &&& a.user_courses == b.user_courses
    &&& a.payments == b.payments
    &&& a.lesson_progress == b.lesson_progress
    &&& a.course_progress == b.course_progress
    &&& a.achievements == b.achievements
    &&& a.user_achievements == b.user_achievements
    &&& a.subscription_plans == b.subscription_plans
    &&& a.notifications == b.notifications
    &&& a.stats == b.stats
}

/// Equality of everything but the notification table.
pub open spec fn same_but_notifications(a: Store, b: Store) -> bool {
    &&& a.users == b.users
    &&& a.courses == b.courses
    &&& a.modules == b.modules
    &&& a.lessons == b.lessons
    &&& a.user_courses == b.user_courses
    &&& a.payments == b.payments
    &&& a.lesson_progress == b.lesson_progress
    &&& a.course_progress == b.course_progress
    &&& a.achievements == b.achievements
    &&& a.user_achievements == b.user_achievements
    &&& a.subscriptions == b.subscriptions
    &&& a.subscription_plans == b.subscription_plans
    &&& a.stats == b.stats
}

/// Equality of everything but the achievement catalog.
pub open spec fn same_but_achievements(a: Store, b: Store) -> bool {
    &&& a.users == b.users
    &&& a.courses == b.courses
    &&& a.modules == b.modules
    &&& a.lessons == b.lessons
    &&& a.user_courses == b.user_courses
    &&& a.payments == b.payments
    &&& a.lesson_progress == b.lesson_progress
    &&& a.course_progress == b.course_progress
    &&& a.user_achievements == b.user_achievements
    &&& a.subscriptions == b.subscriptions
    &&& a.subscription_plans == b.subscription_plans
    &&& a.notifications == b.notifications
    &&& a.stats == b.stats
}

/// Equality of everything but the engagement counters.
pub open spec fn same_but_stats(a: Store, b: Store) -> bool {
    &&& a.users == b.users
    &&& a.courses == b.courses
    &&& a.modules == b.modules
    &&& a.lessons == b.lessons
    &&& a.user_courses == b.user_courses
    &&& a.payments == b.payments
    &&& a.lesson_progress == b.lesson_progress
    &&& a.course_progress == b.course_progress
    &&& a.achievements == b.achievements
    &&& a.user_achievements == b.user_achievements
    &&& a.subscriptions == b.subscriptions
    &&& a.subscription_plans == b.subscription_plans
    &&& a.notifications == b.notifications
}

/// Equality of everything but the award table.
pub open spec fn same_but_user_achievements(a: Store, b: Store) -> bool {
    &&& a.users == b.users
    &&& a.courses == b.courses
    &&& a.modules == b.modules
    &&& a.lessons == b.lessons
    &&& a.user_courses == b.user_courses
    &&& a.payments == b.payments
    &&& a.lesson_progress == b.lesson_progress
    &&& a.course_progress == b.course_progress
    &&& a.achievements == b.achievements
    &&& a.subscriptions == b.subscriptions
    &&& a.subscription_plans == b.subscription_plans
    &&& a.notifications == b.notifications
    &&& a.stats == b.stats
}

/// Equality of everything but the user table and the id counter.
pub open spec fn same_but_users(a: Store, b: Store) -> bool {
    &&& a.courses == b.courses
    &&& a.modules == b.modules
    &&& a.lessons == b.lessons
    &&& a.user_courses == b.user_courses
    &&& a.payments == b.payments
    &&& a.lesson_progress == b.lesson_progress
    &&& a.course_progress == b.course_progress
    &&& a.achievements == b.achievements
    &&& a.user_achievements == b.user_achievements
    &&& a.subscriptions == b.subscriptions
    &&& a.subscription_plans == b.subscription_plans
    &&& a.notifications == b.notifications
    &&& a.stats == b.stats
}

impl Store {
    /// The index of the account with this id, if any.
    pub fn find_user_by_id(&self, id: u64) -> (r: Option<usize>)
        ensures
            match r {
                Some(i) => i < self.users@.len() && self.users@[i as int].id == id,
                None => forall|j: int| 0 <= j < self.users@.len() ==> self.users@[j].id != id,
            },
    {
        let mut i: usize = 0;
        while i < self.users.len()
            invariant
                i <= self.users@.len(),
                forall|j: int| 0 <= j < i ==> self.users@[j].id != id,
            decreases self.users@.len() - i,
        {
            if self.users[i].id == id {
                return Some(i);
            }
            i = i + 1;
        }
        None
    }

    /// The index of the account with this email, if any.
    pub fn find_user_by_email(&self, email: &str) -> (r: Option<usize>)
        ensures
            match r {
                Some(i) => i < self.users@.len() && self.users@[i as int].email@ == email@,
                None => forall|j: int|
                    0 <= j < self.users@.len() ==> self.users@[j].email@ != email@,
            },
    {
        let mut i: usize = 0;
        while i < self.users.len()
            invariant
                i <= self.users@.len(),
                forall|j: int| 0 <= j < i ==> self.users@[j].email@ != email@,
            decreases self.users@.len() - i,
        {
            if crate::strutil::str_eq(self.users[i].email.as_str(), email) {
                return Some(i);
            }
            i = i + 1;
        }
        None
    }

    /// The index of the first account with this name, if any.
    pub fn find_user_by_name(&self, name: &str) -> (r: Option<usize>)
        ensures
            match r {
                Some(i) => i < self.users@.len() && self.users@[i as int].name@ == name@,
                None => forall|j: int|
                    0 <= j < self.users@.len() ==> self.users@[j].name@ != name@,
            },
    {
        let mut i: usize = 0;
        while i < self.users.len()
            invariant
                i <= self.users@.len(),
                forall|j: int| 0 <= j < i ==> self.users@[j].name@ != name@,
            decreases self.users@.len() - i,
        {
            if crate::strutil::str_eq(self.users[i].name.as_str(), name) {
                return Some(i);
            }
            i = i + 1;
        }
        None
    }

    /// The index of the first account holding this verification token.
    pub fn find_user_by_token(&self, token: &str) -> (r: Option<usize>)
        ensures
            match r {
                Some(i) => i < self.users@.len() && user_has_token(
                    self.users@[i as int],
                    token@,
                ),
                None => forall|j: int|
                    0 <= j < self.users@.len() ==> !user_has_token(self.users@[j], token@),
            },
    {
        let mut i: usize = 0;
        while i < self.users.len()
            invariant
                i <= self.users@.len(),
                forall|j: int| 0 <= j < i ==> !user_has_token(self.users@[j], token@),
            decreases self.users@.len() - i,
        {
            match &self.users[i].verification_token {
                Some(t) => {
                    if crate::strutil::str_eq(t.as_str(), token) {
                        return Some(i);
                    }
                },
                None => {},
            }
            i = i + 1;
        }
        None
    }
}

/// Whether this account currently holds the given verification token.
pub open spec fn user_has_token(u: User, token: Seq<char>) -> bool {
    match u.verification_token {
        Some(t) => t@ == token,
        None => false,
    }
}

/// Some account in `users` already uses `email`.
pub open spec fn email_taken(users: Seq<User>, email: Seq<char>) -> bool {
    exists|j: int| 0 <= j < users.len() && #[trigger] users[j].email@ == email
}

impl Store {
    /// Registers a new account. The email must be unused: a second
    /// account with the same email is refused, which is the uniqueness
    /// rule the schema puts on the account table.
    pub fn save_user(
        &mut self,
        name: String,
        email: String,
        password: String,
        verification_token: String,
        token_expiry: Option<i64>,
        role: Option<UserRole>,
        now: i64,
    ) -> (r: Result<User, ErrorMessage>)
        requires
            old(self).wf(),
            old(self).next_id < u64::MAX,
        ensures
            final(self).wf(),
            same_but_users(*old(self), *final(self)),
            r is Err <==> email_taken(old(self).users@, email@),
            r is Err ==> r == Err::<User, ErrorMessage>(ErrorMessage::EmailExist) && *final(self)
                == *old(self),
            r matches Ok(u) ==> {
                &&& u.id == old(self).next_id
                &&& u.name == name
                &&& u.email == email
                &&& u.password == password
                &&& u.verified == false
                &&& u.verification_token == Some(verification_token)
                &&& u.token_expiry == token_expiry
                &&& u.role == (match role {
                    Some(x) => x,
                    None => UserRole::User,
                })
                &&& u.created_at == now
                &&& u.updated_at == now
                &&& u.subscription_expires_at is None
                &&& final(self).users@ == old(self).users@.push(u)
                &&& final(self).next_id == old(self).next_id + 1
            },
    {
        if self.find_user_by_email(email.as_str()).is_some() {
            return Err(ErrorMessage::EmailExist);
        }
        let u = User {
            id: self.next_id,
            name,
            email,
            phone: None,
            location: None,
            bio: None,
            birth_date: None,
            verified: false,
            password,
            role: match role {
                Some(x) => x,
                None => UserRole::User,
            },
            verification_token: Some(verification_token),
            token_expiry,
            profile_image_url: None,
            created_at: now,
            updated_at: now,
            subscription_expires_at: None,
        };
        self.next_id = self.next_id + 1;
        let out = u.clone();
        self.users.push(u);
        Ok(out)
    }

    /// Looks an account up by the first key given, in the fixed
    /// precedence id, name, email, verification token.
    pub fn get_user(
        &self,
        user_id: Option<u64>,
        name: Option<&str>,
        email: Option<&str>,
        token: Option<&str>,
    ) -> (r: Option<User>)
        ensures
            match r {
                Some(u) => exists|i: int|
                    0 <= i < self.users@.len() && #[trigger] self.users@[i] == u,
                None => true,
            },
            match user_id {
                Some(id) => match r {
                    Some(u) => u.id == id,
                    None => forall|j: int|
                        0 <= j < self.users@.len() ==> self.users@[j].id != id,
                },
                None => true,
            },
            match name {
                Some(nm) => user_id is None ==> match r {
                    Some(u) => u.name@ == nm@,
                    None => forall|j: int|
                        0 <= j < self.users@.len() ==> self.users@[j].name@ != nm@,
                },
                None => true,
            },
            match email {
                Some(em) => user_id is None && name is None ==> match r {
                    Some(u) => u.email@ == em@,
                    None => forall|j: int|
                        0 <= j < self.users@.len() ==> self.users@[j].email@ != em@,
                },
                None => true,
            },
            match token {
                Some(tk) => user_id is None && name is None && email is None ==> match r {
                    Some(u) => user_has_token(u, tk@),
                    None => forall|j: int|
                        0 <= j < self.users@.len() ==> !user_has_token(self.users@[j], tk@),
                },
                None => true,
            },
            user_id is None && name is None && email is None && token is None ==> r is None,
    {
        if let Some(id) = user_id {
            match self.find_user_by_id(id) {
                Some(i) => Some(self.users[i].clone()),
                None => None,
            }
        } else if let Some(nm) = name {
            match self.find_user_by_name(nm) {
                Some(i) => Some(self.users[i].clone()),
                None => None,
            }
        } else if let Some(em) = email {
            match self.find_user_by_email(em) {
                Some(i) => Some(self.users[i].clone()),
                None => None,
            }
        } else if let Some(tk) = token {
            match self.find_user_by_token(tk) {
                Some(i) => Some(self.users[i].clone()),
                None => None,
            }
        } else {
            None
        }
    }

    /// One page of accounts, newest first; pages are one-based.
    pub fn get_users(&self, page: u32, limit: usize) -> (r: Vec<User>)
        requires
            page >= 1,
        ensures
            ({
                let len = self.users@.len() as int;
                let off = (page - 1) as int * limit as int;
                &&& r@.len() == (if off >= len {
                    0int
                } else if off + limit as int <= len {
                    limit as int
                } else {
                    len - off
                })
                &&& forall|k: int|
                    0 <= k < r@.len() ==> #[trigger] r@[k] == self.users@[len - 1 - off - k]
            }),
    {
        let len = self.users.len();
        proof {
            assert((page - 1) as int * limit as int <= 0xFFFF_FFFFint * 0xFFFF_FFFF_FFFF_FFFFint)
                by (nonlinear_arith)
                requires
                    0 <= (page - 1) as int <= 0xFFFF_FFFFint,
                    0 <= limit as int <= 0xFFFF_FFFF_FFFF_FFFFint,
            ;
        }
        let off128: u128 = (page - 1) as u128 * limit as u128;
        let mut r: Vec<User> = Vec::new();
        if off128 >= len as u128 {
            return r;
        }
        let off: usize = off128 as usize;
        let count: usize = if limit <= len - off {
            limit
        } else {
            len - off
        };
        let mut k: usize = 0;
        while k < count
            invariant
                count <= len - off,
                len == self.users@.len(),
                off == (page - 1) as int * limit as int,
                k <= count,
                r@.len() == k as int,
                forall|j: int|
                    0 <= j < k ==> #[trigger] r@[j] == self.users@[len as int - 1 - off - j],
            decreases count - k,
        {
            r.push(self.users[len - 1 - off - k].clone());
            k = k + 1;
        }
        r
    }

    /// How many accounts exist.
    pub fn get_user_count(&self) -> (r: u64)
        ensures
            r == self.users@.len(),
    {
        self.users.len() as u64
    }

    /// Renames an account.
    pub fn update_user_name(&mut self, user_id: u64, new_name: String, now: i64) -> (r: Result<
        User,
        ErrorMessage,
    >)
        requires
            old(self).wf(),
        ensures
            final(self).wf(),
            same_but_users(*old(self), *final(self)),
            final(self).next_id == old(self).next_id,
            r is Err ==> r == Err::<User, ErrorMessage>(ErrorMessage::UserNoLongerExist)
                && *final(self) == *old(self) && (forall|j: int|
                0 <= j < old(self).users@.len() ==> old(self).users@[j].id != user_id),
            r matches Ok(u) ==> exists|i: int|
                {
                    &&& 0 <= i < old(self).users@.len()
                    &&& old(self).users@[i].id == user_id
                    &&& u == User {
                        name: new_name,
                        updated_at: now,
                        ..old(self).users@[i]
                    }
                    &&& final(self).users@ == old(self).users@.update(i, u)
                },
    {
        match self.find_user_by_id(user_id) {
            None => Err(ErrorMessage::UserNoLongerExist),
            Some(i) => {
                let mut row = self.users[i].clone();
                row.name = new_name;
                row.updated_at = now;
                self.users[i] = row.clone();
                proof {
                    assert(final(self).users@[i as int] == row);
                }
                Ok(row)
            },
        }
    }
}

/// The value an optional update leaves in a field: the new value if one
/// was sent, else the stored one.
pub open spec fn coalesce<T>(new: Option<T>, stored: T) -> T {
    match new {
        Some(x) => x,
        None => stored,
    }
}

/// The value an optional update leaves in an optional field: set when a
/// new value was sent, else whatever was stored.
pub open spec fn coalesce_opt<T>(new: Option<T>, stored: Option<T>) -> Option<T> {
    match new {
        Some(x) => Some(x),
        None => stored,
    }
}

/// An account row after its verification token was consumed.
pub open spec fn user_token_consumed(u: User, now: i64) -> User {
    User { verified: true, verification_token: None, token_expiry: None, updated_at: now, ..u }
}

impl Store {
    /// Changes an account's role.
    pub fn update_user_role(&mut self, user_id: u64, new_role: UserRole, now: i64) -> (r: Result<
        User,
        ErrorMessage,
    >)
        requires
            old(self).wf(),
        ensures
            final(self).wf(),
            same_but_users(*old(self), *final(self)),
            final(self).next_id == old(self).next_id,
            r is Err ==> r == Err::<User, ErrorMessage>(ErrorMessage::UserNoLongerExist)
                && *final(self) == *old(self) && (forall|j: int|
                0 <= j < old(self).users@.len() ==> old(self).users@[j].id != user_id),
            r matches Ok(u) ==> exists|i: int|
                {
                    &&& 0 <= i < old(self).users@.len()
                    &&& old(self).users@[i].id == user_id
                    &&& u == User { role: new_role, updated_at: now, ..old(self).users@[i] }
                    &&& final(self).users@ == old(self).users@.update(i, u)
                },
    {
        match self.find_user_by_id(user_id) {
            None => Err(ErrorMessage::UserNoLongerExist),
            Some(i) => {
                let mut row = self.users[i].clone();
                row.role = new_role;
                row.updated_at = now;
                self.users[i] = row.clone();
                Ok(row)
            },
        }
    }

    /// Replaces an account's stored password hash.
    pub fn update_user_password(&mut self, user_id: u64, new_password: String, now: i64) -> (r:
        Result<User, ErrorMessage>)
        requires
            old(self).wf(),
        ensures
            final(self).wf(),
            same_but_users(*old(self), *final(self)),
            final(self).next_id == old(self).next_id,
            r is Err ==> r == Err::<User, ErrorMessage>(ErrorMessage::UserNoLongerExist)
                && *final(self) == *old(self) && (forall|j: int|
                0 <= j < old(self).users@.len() ==> old(self).users@[j].id != user_id),
            r matches Ok(u) ==> exists|i: int|
                {
                    &&& 0 <= i < old(self).users@.len()
                    &&& old(self).users@[i].id == user_id
                    &&& u == User {
                        password: new_password,
                        updated_at: now,
                        ..old(self).users@[i]
                    }
                    &&& final(self).users@ == old(self).users@.update(i, u)
                },
    {
        match self.find_user_by_id(user_id) {
            None => Err(ErrorMessage::UserNoLongerExist),
            Some(i) => {
                let mut row = self.users[i].clone();
                row.password = new_password;
                row.updated_at = now;
                self.users[i] = row.clone();
                Ok(row)
            },
        }
    }

    /// Applies a partial profile update: a field is overwritten exactly
    /// when a new value was sent for it.
    pub fn update_user_profile(
        &mut self,
        user_id: u64,
        name: Option<String>,
        phone: Option<String>,
        location: Option<String>,
        bio: Option<String>,
        birth_date: Option<i64>,
        profile_image_url: Option<String>,
        now: i64,
    ) -> (r: Result<User, ErrorMessage>)
        requires
            old(self).wf(),
        ensures
            final(self).wf(),
            same_but_users(*old(self), *final(self)),
            final(self).next_id == old(self).next_id,
            r is Err ==> r == Err::<User, ErrorMessage>(ErrorMessage::UserNoLongerExist)
                && *final(self) == *old(self) && (forall|j: int|
                0 <= j < old(self).users@.len() ==> old(self).users@[j].id != user_id),
            r matches Ok(u) ==> exists|i: int|
                {
                    &&& 0 <= i < old(self).users@.len()
                    &&& old(self).users@[i].id == user_id
                    &&& u == User {
                        name: coalesce(name, old(self).users@[i].name),
                        phone: coalesce_opt(phone, old(self).users@[i].phone),
                        location: coalesce_opt(location, old(self).users@[i].location),
                        bio: coalesce_opt(bio, old(self).users@[i].bio),
                        birth_date: coalesce_opt(birth_date, old(self).users@[i].birth_date),
                        profile_image_url: coalesce_opt(
                            profile_image_url,
                            old(self).users@[i].profile_image_url,
                        ),
                        updated_at: now,
                        ..old(self).users@[i]
                    }
                    &&& final(self).users@ == old(self).users@.update(i, u)
                },
    {
        match self.find_user_by_id(user_id) {
            None => Err(ErrorMessage::UserNoLongerExist),
            Some(i) => {
                let mut row = self.users[i].clone();
                row.name = match name {
                    Some(x) => x,
                    None => row.name,
                };
                row.phone = match phone {
                    Some(x) => Some(x),
                    None => row.phone,
                };
                row.location = match location {
                    Some(x) => Some(x),
                    None => row.location,
                };
                row.bio = match bio {
                    Some(x) => Some(x),
                    None => row.bio,
                };
                row.birth_date = match birth_date {
                    Some(x) => Some(x),
                    None => row.birth_date,
                };
                row.profile_image_url = match profile_image_url {
                    Some(x) => Some(x),
                    None => row.profile_image_url,
                };
                row.updated_at = now;
                self.users[i] = row.clone();
                Ok(row)
            },
        }
    }

    /// Consumes a verification token: every account holding it becomes
    /// verified and the token is cleared.
    pub fn verifed_token(&mut self, token: &str, now: i64) -> (r: Result<(), ErrorMessage>)
        requires
            old(self).wf(),
        ensures
            final(self).wf(),
            same_but_users(*old(self), *final(self)),
            final(self).next_id == old(self).next_id,
            r is Ok,
            final(self).users@.len() == old(self).users@.len(),
            forall|i: int|
                0 <= i < old(self).users@.len() ==> final(self).users@[i] == (if user_has_token(
                    old(self).users@[i],
                    token@,
                ) {
                    user_token_consumed(old(self).users@[i], now)
                } else {
                    old(self).users@[i]
                }),
    {
        let n = self.users.len();
        let mut i: usize = 0;
        while i < n
            invariant
                old(self).wf(),
                n == old(self).users@.len(),
                i <= n,
                self.next_id == old(self).next_id,
                same_but_users(*old(self), *self),
                self.users@.len() == n,
                forall|j: int|
                    0 <= j < i ==> self.users@[j] == (if user_has_token(
                        old(self).users@[j],
                        token@,
                    ) {
                        user_token_consumed(old(self).users@[j], now)
                    } else {
                        old(self).users@[j]
                    }),
                forall|j: int| i <= j < n ==> self.users@[j] == old(self).users@[j],
            decreases n - i,
        {
            let hit = match &self.users[i].verification_token {
                Some(t) => crate::strutil::str_eq(t.as_str(), token),
                None => false,
            };
            if hit {
                let mut row = self.users[i].clone();
                row.verified = true;
                row.verification_token = None;
                row.token_expiry = None;
                row.updated_at = now;
                self.users[i] = row;
            }
            i = i + 1;
        }
        proof {
            assert(forall|a: int, b: int|
                0 <= a < b < self.users@.len() ==> self.users@[a].id != self.users@[b].id
                    && self.users@[a].email@ != self.users@[b].email@);
        }
        Ok(())
    }

    /// Stores a fresh verification token on an account, for email
    /// verification or password reset.
    pub fn add_verifed_token(
        &mut self,
        user_id: u64,
        token: String,
        token_expiry: i64,
        now: i64,
    ) -> (r: Result<(), ErrorMessage>)
        requires
            old(self).wf(),
        ensures
            final(self).wf(),
            same_but_users(*old(self), *final(self)),
            final(self).next_id == old(self).next_id,
            r is Ok,
            (forall|j: int| 0 <= j < old(self).users@.len() ==> old(self).users@[j].id != user_id)
                ==> *final(self) == *old(self),
            (exists|j: int|
                0 <= j < old(self).users@.len() && old(self).users@[j].id == user_id) ==> exists|
                i: int,
            |
                {
                    &&& 0 <= i < old(self).users@.len()
                    &&& old(self).users@[i].id == user_id
                    &&& final(self).users@ == old(self).users@.update(
                        i,
                        User {
                            verification_token: Some(token),
                            token_expiry: Some(token_expiry),
                            updated_at: now,
                            ..old(self).users@[i]
                        },
                    )
                },
    {
        match self.find_user_by_id(user_id) {
            None => Ok(()),
            Some(i) => {
                let mut row = self.users[i].clone();
                row.verification_token = Some(token);
                row.token_expiry = Some(token_expiry);
                row.updated_at = now;
                self.users[i] = row;
                Ok(())
            },
        }
    }
}

} // verus!
