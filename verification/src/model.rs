//! Rows of the engine's relational model.
//!
//! Identifiers are plain 64-bit integers and instants are unix seconds,
//! so that every invariant of the store can be stated and checked over
//! plain values.

use vstd::prelude::*;

verus! {

/// Role attached to every account.
#[derive(Debug, Clone, Copy, PartialEq, Eq, Structural)]
pub enum UserRole {
    Admin,
    User,
}

impl UserRole {
    /// Stable lowercase tag used to persist and transmit the role.
    pub fn to_str(&self) -> (r: &'static str)
        ensures
            self is Admin ==> r@ == "admin"@,
            self is User ==> r@ == "user"@,
    {
        match self {
            UserRole::Admin => "admin",
            UserRole::User => "user",
        }
    }
}

/// Every role the model knows is storable; mirrors the check that the
/// role field of an update request must pass before it is applied.
pub fn validate_user_role(role: &UserRole) -> (r: Result<(), ()>)
    ensures
        r is Ok,
{
    match role {
        UserRole::Admin | UserRole::User => Ok(()),
    }
}

/// An account. `subscription_expires_at` caches the end of the newest
/// subscription for quick premium checks.
#[derive(Debug, PartialEq)]
pub struct User {
    pub id: u64,
    pub name: String,
    pub email: String,
    pub phone: Option<String>,
    pub location: Option<String>,
    pub bio: Option<String>,
    pub birth_date: Option<i64>,
    pub verified: bool,
    pub password: String,
    pub role: UserRole,
    pub verification_token: Option<String>,
    pub token_expiry: Option<i64>,
    pub profile_image_url: Option<String>,
    pub created_at: i64,
    pub updated_at: i64,
    pub subscription_expires_at: Option<i64>,
}

/// A catalog course. Prices are kept in cents so that money arithmetic
/// stays exact; `paypal_product_id` correlates provider events.
#[derive(Debug, PartialEq)]
pub struct Course {
    pub id: u64,
    pub title: String,
    pub description: String,
    pub long_description: Option<String>,
    pub level: String,
    pub price_cents: u64,
    pub duration: Option<String>,
    pub students: u64,
    pub rating_tenths: u64,
    pub image: Option<String>,
    pub category: String,
    pub features: Option<String>,
    pub paypal_product_id: Option<String>,
    pub created_at: i64,
    pub updated_at: i64,
}

/// A module groups lessons inside a course; `order` is its position.
#[derive(Debug, PartialEq)]
pub struct Module {
    pub id: u64,
    pub course_id: u64,
    pub title: String,
    pub order: u64,
}

/// A lesson belongs to a module; `kind` is video, exercise or quiz.
#[derive(Debug, PartialEq)]
pub struct Lesson {
    pub id: u64,
    pub module_id: u64,
    pub title: String,
    pub duration: Option<String>,
    pub kind: String,
    pub content_url: Option<String>,
    pub description: Option<String>,
    pub order: u64,
}

/// An entitlement record: the account bought this course. At most one
/// row per (user, course) pair ever exists.
#[derive(Debug, Clone, Copy, PartialEq)]
pub struct UserCourse {
    pub id: u64,
    pub user_id: u64,
    pub course_id: u64,
    pub purchased_at: i64,
}

/// A payment registered for a course purchase.
#[derive(Debug, PartialEq)]
pub struct Payment {
    pub id: u64,
    pub user_id: u64,
    pub course_id: u64,
    pub amount_cents: u64,
    pub payment_method: String,
    pub transaction_id: String,
    pub status: String,
    pub created_at: i64,
}

/// Per-lesson completion state of one account; one row per
/// (user, lesson), upserted on every progress update.
#[derive(Debug, Clone, Copy, PartialEq)]
pub struct LessonProgress {
    pub user_id: u64,
    pub lesson_id: u64,
    pub completed: bool,
    pub progress: u8,
    pub completed_at: Option<i64>,
    pub last_accessed: i64,
}

/// The derived per-course aggregate; recomputed from lesson rows, never
/// patched incrementally.
#[derive(Debug, Clone, Copy, PartialEq)]
pub struct CourseProgress {
    pub user_id: u64,
    pub course_id: u64,
    pub total_lessons: u64,
    pub completed_lessons: u64,
    pub percentage: u8,
    pub completed_at: Option<i64>,
    pub last_accessed: i64,
    pub created_at: i64,
    pub updated_at: i64,
}

/// The metric category an achievement definition is measured against.
#[derive(Debug, Clone, Copy, PartialEq, Eq, Structural)]
pub enum TriggerKind {
    CourseCompletedCount,
    LessonCompletedCount,
    EnrollmentCount,
    CommentCount,
    LoginStreakCount,
    Generic,
}

/// An achievement definition: granted when the account's metric for
/// `trigger` reaches `threshold`, if `active`.
#[derive(Debug, PartialEq)]
pub struct Achievement {
    pub id: u64,
    pub name: String,
    pub description: Option<String>,
    pub icon: Option<String>,
    pub trigger: TriggerKind,
    pub threshold: u64,
    pub active: bool,
    pub created_at: i64,
}

/// Whether an account has earned an achievement; `earned` only ever
/// moves from false to true, and at most one row per pair exists.
#[derive(Debug, Clone, Copy, PartialEq)]
pub struct UserAchievement {
    pub user_id: u64,
    pub achievement_id: u64,
    pub earned: bool,
    pub earned_at: Option<i64>,
}

/// A provider-backed subscription; `status` is the active flag. At most
/// one active subscription per account exists at any time.
#[derive(Debug, PartialEq)]
pub struct Subscription {
    pub id: u64,
    pub user_id: u64,
    pub provider_subscription_id: String,
    pub status: bool,
    pub plan_id: Option<String>,
    pub start_time: i64,
    pub end_time: Option<i64>,
    pub created_at: i64,
    pub updated_at: i64,
}

/// A purchasable subscription plan.
#[derive(Debug, PartialEq)]
pub struct SubscriptionPlan {
    pub id: u64,
    pub name: String,
    pub description: Option<String>,
    pub price_cents: u64,
    pub duration_months: u64,
    pub features: Option<String>,
    pub paypal_plan_id: Option<String>,
    pub active: bool,
}

/// A notification shown to an account.
#[derive(Debug, PartialEq)]
pub struct Notification {
    pub id: u64,
    pub user_id: u64,
    pub title: String,
    pub message: String,
    pub sent_via: String,
    pub sent_at: i64,
    pub read: bool,
}

/// Stored per-account counters that some achievement triggers read.
#[derive(Debug, Clone, Copy, PartialEq)]
pub struct EngagementStats {
    pub user_id: u64,
    pub comments_authored: u64,
    pub login_streak: u64,
}

/// Copies an optional string; the copy is equal to the original.
pub fn clone_opt_string(o: &Option<String>) -> (r: Option<String>)
    ensures
        r == *o,
{
    match o {
        Some(s) => Some(s.clone()),
        None => None,
    }
}

impl Clone for User {
    /// A clone is equal to the original row.
    fn clone(&self) -> (r: Self)
        ensures
            r == *self,
    {
        User {
            id: self.id,
            name: self.name.clone(),
            email: self.email.clone(),
            phone: clone_opt_string(&self.phone),
            location: clone_opt_string(&self.location),
            bio: clone_opt_string(&self.bio),
            birth_date: self.birth_date,
            verified: self.verified,
            password: self.password.clone(),
            role: self.role,
            verification_token: clone_opt_string(&self.verification_token),
            token_expiry: self.token_expiry,
            profile_image_url: clone_opt_string(&self.profile_image_url),
            created_at: self.created_at,
            updated_at: self.updated_at,
            subscription_expires_at: self.subscription_expires_at,
        }
    }
}

impl Clone for Course {
    /// A clone is equal to the original row.
    fn clone(&self) -> (r: Self)
        ensures
            r == *self,
    {
        Course {
            id: self.id,
            title: self.title.clone(),
            description: self.description.clone(),
            long_description: clone_opt_string(&self.long_description),
            level: self.level.clone(),
            price_cents: self.price_cents,
            duration: clone_opt_string(&self.duration),
            students: self.students,
            rating_tenths: self.rating_tenths,
            image: clone_opt_string(&self.image),
            category: self.category.clone(),
            features: clone_opt_string(&self.features),
            paypal_product_id: clone_opt_string(&self.paypal_product_id),
            created_at: self.created_at,
            updated_at: self.updated_at,
        }
    }
}

impl Clone for Module {
    /// A clone is equal to the original row.
    fn clone(&self) -> (r: Self)
        ensures
            r == *self,
    {
        Module {
            id: self.id,
            course_id: self.course_id,
            title: self.title.clone(),
            order: self.order,
        }
    }
}

impl Clone for Lesson {
    /// A clone is equal to the original row.
    fn clone(&self) -> (r: Self)
        ensures
            r == *self,
    {
        Lesson {
            id: self.id,
            module_id: self.module_id,
            title: self.title.clone(),
            duration: clone_opt_string(&self.duration),
            kind: self.kind.clone(),
            content_url: clone_opt_string(&self.content_url),
            description: clone_opt_string(&self.description),
            order: self.order,
        }
    }
}

impl Clone for Payment {
    /// A clone is equal to the original row.
    fn clone(&self) -> (r: Self)
        ensures
            r == *self,
    {
        Payment {
            id: self.id,
            user_id: self.user_id,
            course_id: self.course_id,
            amount_cents: self.amount_cents,
            payment_method: self.payment_method.clone(),
            transaction_id: self.transaction_id.clone(),
            status: self.status.clone(),
            created_at: self.created_at,
        }
    }
}

impl Clone for Achievement {
    /// A clone is equal to the original row.
    fn clone(&self) -> (r: Self)
        ensures
            r == *self,
    {
        Achievement {
            id: self.id,
            name: self.name.clone(),
            description: clone_opt_string(&self.description),
            icon: clone_opt_string(&self.icon),
            trigger: self.trigger,
            threshold: self.threshold,
            active: self.active,
            created_at: self.created_at,
        }
    }
}

impl Clone for Subscription {
    /// A clone is equal to the original row.
    fn clone(&self) -> (r: Self)
        ensures
            r == *self,
    {
        Subscription {
            id: self.id,
            user_id: self.user_id,
            provider_subscription_id: self.provider_subscription_id.clone(),
            status: self.status,
            plan_id: clone_opt_string(&self.plan_id),
            start_time: self.start_time,
            end_time: self.end_time,
            created_at: self.created_at,
            updated_at: self.updated_at,
        }
    }
}

impl Clone for SubscriptionPlan {
    /// A clone is equal to the original row.
    fn clone(&self) -> (r: Self)
        ensures
            r == *self,
    {
        SubscriptionPlan {
            id: self.id,
            name: self.name.clone(),
            description: clone_opt_string(&self.description),
            price_cents: self.price_cents,
            duration_months: self.duration_months,
            features: clone_opt_string(&self.features),
            paypal_plan_id: clone_opt_string(&self.paypal_plan_id),
            active: self.active,
        }
    }
}

impl Clone for Notification {
    /// A clone is equal to the original row.
    fn clone(&self) -> (r: Self)
        ensures
            r == *self,
    {
        Notification {
            id: self.id,
            user_id: self.user_id,
            title: self.title.clone(),
            message: self.message.clone(),
            sent_via: self.sent_via.clone(),
            sent_at: self.sent_at,
            read: self.read,
        }
    }
}

} // verus!
