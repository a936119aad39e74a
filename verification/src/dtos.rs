//! Request and response shapes of the serving layer, with the
//! engine's own validation rules, and the filters that strip stored
//! rows down to what a client may see.

use vstd::prelude::*;
use vstd::string::StrSliceExecFns;

use crate::model::Achievement;
use crate::model::Course;
use crate::model::User;
use crate::model::UserRole;
use crate::model::validate_user_role;
use crate::strutil::dec_str;
use crate::strutil::u64_to_string;

verus! {

/// A registration request.
#[derive(Debug, PartialEq)]
pub struct RegisterDTO {
    pub name: String,
    pub email: String,
    pub password: String,
    pub confirm_password: String,
}

impl RegisterDTO {
    /// The registration rules: every field present, the password at
    /// least six bytes, and the confirmation equal to the password.
    pub fn validate(&self) -> (r: Result<(), ()>)
        ensures
            r is Ok <==> (self.name@.len() > 0 && self.email@.len() > 0 && self.password@.len() >= 6
                && self.confirm_password@ == self.password@),
    {
        if self.name.as_str().is_empty() || self.email.as_str().is_empty() {
            return Err(());
        }
        if self.password.as_str().unicode_len() < 6 {
            return Err(());
        }
        if !crate::strutil::str_eq(self.confirm_password.as_str(), self.password.as_str()) {
            return Err(());
        }
        Ok(())
    }
}

/// A login request.
#[derive(Debug, PartialEq)]
pub struct LoginDTO {
    pub email: String,
    pub password: String,
}

impl LoginDTO {
    /// The login rules: an email present and a password of at least
    /// six bytes.
    pub fn validate(&self) -> (r: Result<(), ()>)
        ensures
            r is Ok <==> (self.email@.len() > 0 && self.password@.len() >= 6),
    {
        if self.email.as_str().is_empty() || self.password.as_str().unicode_len() < 6 {
            Err(())
        } else {
            Ok(())
        }
    }
}

/// Pagination of a listing request; pages are one-based and a page
/// holds at most fifty rows.
#[derive(Debug, PartialEq)]
pub struct RequestQueryDto {
    pub page: Option<usize>,
    pub limit: Option<usize>,
}

impl RequestQueryDto {
    /// The pagination bounds.
    pub fn validate(&self) -> (r: Result<(), ()>)
        ensures
            r is Ok <==> ((match self.page {
                Some(p) => p >= 1,
                None => true,
            }) && (match self.limit {
                Some(l) => 1 <= l <= 50,
                None => true,
            })),
    {
        let page_ok = match self.page {
            Some(p) => p >= 1,
            None => true,
        };
        let limit_ok = match self.limit {
            Some(l) => 1 <= l && l <= 50,
            None => true,
        };
        if page_ok && limit_ok {
            Ok(())
        } else {
            Err(())
        }
    }
}

/// Pagination of a course listing.
#[derive(Debug, PartialEq)]
pub struct ListQuery {
    pub page: Option<u32>,
    pub limit: Option<usize>,
}

/// What a client may see of an account.
#[derive(Debug, PartialEq)]
pub struct FilterUserDto {
    pub id: Option<String>,
    pub name: Option<String>,
    pub email: Option<String>,
    pub phone: Option<String>,
    pub location: Option<String>,
    pub bio: Option<String>,
    pub birth_date: Option<i64>,
    pub role: Option<UserRole>,
    pub verified: Option<bool>,
    pub created_at: Option<i64>,
    pub updated_at: Option<i64>,
}

/// Equality of a built filter and its spec shape, field by field over
/// the string views.
pub open spec fn filter_user_matches(r: FilterUserDto, u: User) -> bool {
    &&& (match r.id {
        Some(s) => s@ == dec_str(u.id as int),
        None => false,
    })
    &&& (match r.name {
        Some(s) => s@ == u.name@,
        None => false,
    })
    &&& (match r.email {
        Some(s) => s@ == u.email@,
        None => false,
    })
    &&& (match (r.phone, u.phone) {
        (Some(a), Some(b)) => a@ == b@,
        (None, None) => true,
        _ => false,
    })
    &&& (match (r.location, u.location) {
        (Some(a), Some(b)) => a@ == b@,
        (None, None) => true,
        _ => false,
    })
    &&& (match (r.bio, u.bio) {
        (Some(a), Some(b)) => a@ == b@,
        (None, None) => true,
        _ => false,
    })
    &&& r.birth_date == u.birth_date
    &&& r.role == Some(u.role)
    &&& r.verified == Some(u.verified)
    &&& r.created_at == Some(u.created_at)
    &&& r.updated_at == Some(u.updated_at)
}

impl FilterUserDto {
    /// Strips an account row to its visible fields.
    pub fn filter_user(user: &User) -> (r: FilterUserDto)
        ensures
            filter_user_matches(r, *user),
    {
        FilterUserDto {
            id: Some(u64_to_string(user.id)),
            name: Some(user.name.clone()),
            email: Some(user.email.clone()),
            phone: crate::model::clone_opt_string(&user.phone),
            location: crate::model::clone_opt_string(&user.location),
            bio: crate::model::clone_opt_string(&user.bio),
            birth_date: user.birth_date,
            role: Some(user.role),
            verified: Some(user.verified),
            created_at: Some(user.created_at),
            updated_at: Some(user.updated_at),
        }
    }

    /// Strips a listing of account rows.
    pub fn filter_users(users: &Vec<User>) -> (r: Vec<FilterUserDto>)
        ensures
            r@.len() == users@.len(),
            forall|k: int|
                0 <= k < users@.len() ==> filter_user_matches(#[trigger] r@[k], users@[k]),
    {
        let mut r: Vec<FilterUserDto> = Vec::new();
        let mut i: usize = 0;
        while i < users.len()
            invariant
                i <= users@.len(),
                r@.len() == i as int,
                forall|k: int| 0 <= k < i ==> filter_user_matches(#[trigger] r@[k], users@[k]),
            decreases users@.len() - i,
        {
            r.push(FilterUserDto::filter_user(&users[i]));
            i = i + 1;
        }
        r
    }
}

/// An account inside a response envelope.
#[derive(Debug, PartialEq)]
pub struct UserData {
    pub user: FilterUserDto,
}

/// The envelope of a single-account response.
#[derive(Debug, PartialEq)]
pub struct UserResponseDto {
    pub status: String,
    pub data: UserData,
}

/// The envelope of an account listing.
#[derive(Debug, PartialEq)]
pub struct UserListResponseDto {
    pub status: String,
    pub users: Vec<FilterUserDto>,
    pub results: u64,
}

/// The body of a successful login.
#[derive(Debug, PartialEq)]
pub struct UserLoginResponseDto {
    pub status: String,
}

/// A plain status/message response.
#[derive(Debug, PartialEq)]
pub struct Response {
    pub status: &'static str,
    pub message: String,
}

/// A rename request.
#[derive(Debug, PartialEq)]
pub struct NameUpdateDTO {
    pub name: String,
}

impl NameUpdateDTO {
    /// The rename rule: a name must be present.
    pub fn validate(&self) -> (r: Result<(), ()>)
        ensures
            r is Ok <==> self.name@.len() > 0,
    {
        if self.name.as_str().is_empty() {
            Err(())
        } else {
            Ok(())
        }
    }
}

/// A role-change request.
#[derive(Debug, PartialEq)]
pub struct RoleUpdateDTO {
    pub role: UserRole,
}

impl RoleUpdateDTO {
    /// The role rule: the role must be one the model stores.
    pub fn validate(&self) -> (r: Result<(), ()>)
        ensures
            r is Ok,
    {
        validate_user_role(&self.role)
    }
}

/// A password-change request.
#[derive(Debug, PartialEq)]
pub struct UserPasswordUpdateDTO {
    pub old_password: String,
    pub new_password: String,
    pub confirm_new_password: String,
}

impl UserPasswordUpdateDTO {
    /// The password-change rules: both passwords at least six bytes
    /// and the confirmation equal to the new password.
    pub fn validate(&self) -> (r: Result<(), ()>)
        ensures
            r is Ok <==> (self.old_password@.len() >= 6 && self.new_password@.len() >= 6
                && self.confirm_new_password@ == self.new_password@),
    {
        if self.old_password.as_str().unicode_len() < 6 || self.new_password.as_str().unicode_len() < 6 {
            return Err(());
        }
        if !crate::strutil::str_eq(self.confirm_new_password.as_str(), self.new_password.as_str())
        {
            return Err(());
        }
        Ok(())
    }
}

/// The query of an email-verification link.
#[derive(Debug, PartialEq)]
pub struct VerifyEmailQueryDTO {
    pub token: String,
}

impl VerifyEmailQueryDTO {
    /// The token must be present.
    pub fn validate(&self) -> (r: Result<(), ()>)
        ensures
            r is Ok <==> self.token@.len() > 0,
    {
        if self.token.as_str().is_empty() {
            Err(())
        } else {
            Ok(())
        }
    }
}

/// A forgotten-password request.
#[derive(Debug, PartialEq)]
pub struct ForgotPasswordRequestDTO {
    pub email: String,
}

impl ForgotPasswordRequestDTO {
    /// The email must be present.
    pub fn validate(&self) -> (r: Result<(), ()>)
        ensures
            r is Ok <==> self.email@.len() > 0,
    {
        if self.email.as_str().is_empty() {
            Err(())
        } else {
            Ok(())
        }
    }
}

/// A password-reset request carrying the emailed token.
#[derive(Debug, PartialEq)]
pub struct ResetPasswordRequestDTO {
    pub token: String,
    pub new_password: String,
    pub confirm_new_password: String,
}

impl ResetPasswordRequestDTO {
    /// The reset rules: token present, new password at least six
    /// bytes, confirmation equal to it.
    pub fn validate(&self) -> (r: Result<(), ()>)
        ensures
            r is Ok <==> (self.token@.len() > 0 && self.new_password@.len() >= 6
                && self.confirm_new_password@ == self.new_password@),
    {
        if self.token.as_str().is_empty() || self.new_password.as_str().unicode_len() < 6 {
            return Err(());
        }
        if !crate::strutil::str_eq(self.confirm_new_password.as_str(), self.new_password.as_str())
        {
            return Err(());
        }
        Ok(())
    }
}

/// A lesson inside a course-creation request.
#[derive(Debug, PartialEq)]
pub struct CreateLessonDTO {
    pub title: String,
    pub duration: Option<String>,
    pub completed: bool,
    pub kind: String,
    pub content_url: Option<String>,
    pub description: Option<String>,
    pub order: Option<u64>,
}

/// A module inside a course-creation request.
#[derive(Debug, PartialEq)]
pub struct CreateModuleDTO {
    pub title: String,
    pub order: Option<u64>,
    pub lessons: Vec<CreateLessonDTO>,
}

/// A course-creation request.
#[derive(Debug, PartialEq)]
pub struct CreateCourseDTO {
    pub title: String,
    pub description: String,
    pub long_description: Option<String>,
    pub level: String,
    pub price_cents: u64,
    pub duration: Option<String>,
    pub students: Option<u64>,
    pub rating_tenths: Option<u64>,
    pub image: Option<String>,
    pub category: String,
    pub features: Option<String>,
    pub paypal_product_id: Option<String>,
    pub modules: Vec<CreateModuleDTO>,
}

impl CreateCourseDTO {
    /// The creation rules: title, description, level and category all
    /// present.
    pub fn validate(&self) -> (r: Result<(), ()>)
        ensures
            r is Ok <==> (self.title@.len() > 0 && self.description@.len() > 0
                && self.level@.len() > 0 && self.category@.len() > 0),
    {
        if self.title.as_str().is_empty() || self.description.as_str().is_empty() || self.level.as_str().is_empty()
            || self.category.as_str().is_empty() {
            Err(())
        } else {
            Ok(())
        }
    }
}

/// A lesson inside a course update; present ids update rows, absent
/// ids create them.
#[derive(Debug, PartialEq)]
pub struct UpdateLessonDTO {
    pub id: Option<u64>,
    pub title: Option<String>,
    pub duration: Option<String>,
    pub completed: Option<bool>,
    pub kind: Option<String>,
    pub content_url: Option<String>,
    pub description: Option<String>,
    pub order: Option<u64>,
}

/// A module inside a course update.
#[derive(Debug, PartialEq)]
pub struct UpdateModuleDTO {
    pub id: Option<u64>,
    pub title: Option<String>,
    pub order: Option<u64>,
    pub lessons: Option<Vec<UpdateLessonDTO>>,
}

/// A partial course update.
#[derive(Debug, PartialEq)]
pub struct UpdateCourseDTO {
    pub title: Option<String>,
    pub description: Option<String>,
    pub long_description: Option<String>,
    pub level: Option<String>,
    pub price_cents: Option<u64>,
    pub duration: Option<String>,
    pub students: Option<u64>,
    pub rating_tenths: Option<u64>,
    pub image: Option<String>,
    pub category: Option<String>,
    pub features: Option<String>,
    pub modules: Option<Vec<UpdateModuleDTO>>,
}

/// Equality of two optional strings over their views.
pub open spec fn opt_str_eqv(a: Option<String>, b: Option<String>) -> bool {
    match (a, b) {
        (Some(x), Some(y)) => x@ == y@,
        (None, None) => true,
        _ => false,
    }
}

/// Decides equality of two optional strings over their views.
pub fn opt_str_eq(a: &Option<String>, b: &Option<String>) -> (r: bool)
    ensures
        r == opt_str_eqv(*a, *b),
{
    match (a, b) {
        (Some(x), Some(y)) => crate::strutil::str_eq(x.as_str(), y.as_str()),
        (None, None) => true,
        _ => false,
    }
}

/// The update request describes exactly this stored course: every
/// field it could set is present and equal to the stored one, and the
/// optional fields agree.
pub open spec fn update_matches_course(d: UpdateCourseDTO, c: Course) -> bool {
    &&& (match d.title {
        Some(t) => t@ == c.title@,
        None => false,
    })
    &&& (match d.description {
        Some(t) => t@ == c.description@,
        None => false,
    })
    &&& opt_str_eqv(d.long_description, c.long_description)
    &&& (match d.level {
        Some(t) => t@ == c.level@,
        None => false,
    })
    &&& d.price_cents == Some(c.price_cents)
    &&& opt_str_eqv(d.duration, c.duration)
    &&& d.students == Some(c.students)
    &&& d.rating_tenths == Some(c.rating_tenths)
    &&& opt_str_eqv(d.image, c.image)
    &&& (match d.category {
        Some(t) => t@ == c.category@,
        None => false,
    })
}

impl UpdateCourseDTO {
    /// Whether this update describes exactly the stored course.
    pub fn matches_course(&self, other: &Course) -> (r: bool)
        ensures
            r == update_matches_course(*self, *other),
    {
        let title_ok = match &self.title {
            Some(t) => crate::strutil::str_eq(t.as_str(), other.title.as_str()),
            None => false,
        };
        let description_ok = match &self.description {
            Some(t) => crate::strutil::str_eq(t.as_str(), other.description.as_str()),
            None => false,
        };
        let level_ok = match &self.level {
            Some(t) => crate::strutil::str_eq(t.as_str(), other.level.as_str()),
            None => false,
        };
        let category_ok = match &self.category {
            Some(t) => crate::strutil::str_eq(t.as_str(), other.category.as_str()),
            None => false,
        };
        let price_ok = match self.price_cents {
            Some(p) => p == other.price_cents,
            None => false,
        };
        let students_ok = match self.students {
            Some(x) => x == other.students,
            None => false,
        };
        let rating_ok = match self.rating_tenths {
            Some(x) => x == other.rating_tenths,
            None => false,
        };
        title_ok && description_ok && opt_str_eq(&self.long_description, &other.long_description)
            && level_ok && price_ok && opt_str_eq(&self.duration, &other.duration) && students_ok
            && rating_ok && opt_str_eq(&self.image, &other.image) && category_ok
    }
}

/// A lesson as served inside a course listing.
#[derive(Debug, PartialEq)]
pub struct LessonDto {
    pub id: u64,
    pub title: String,
    pub duration: Option<String>,
    pub completed: Option<bool>,
    pub kind: String,
    pub content_url: Option<String>,
    pub description: Option<String>,
    pub order: u64,
}

/// A module with its lessons, as served.
#[derive(Debug, PartialEq)]
pub struct ModuleWithLessonsDto {
    pub id: u64,
    pub title: String,
    pub order: u64,
    pub lessons: Vec<LessonDto>,
}

/// A course with its modules and lessons, as served.
#[derive(Debug, PartialEq)]
pub struct CourseWithModulesDto {
    pub id: u64,
    pub title: String,
    pub description: String,
    pub long_description: Option<String>,
    pub price_cents: u64,
    pub level: String,
    pub duration: Option<String>,
    pub students: u64,
    pub rating_tenths: u64,
    pub image: Option<String>,
    pub category: String,
    pub features: Option<String>,
    pub created_at: i64,
    pub updated_at: i64,
    pub modules: Vec<ModuleWithLessonsDto>,
}

/// A provider catalog product to create.
#[derive(Debug, PartialEq)]
pub struct ProductDTO {
    pub name: String,
    pub description: String,
    pub type_: String,
    pub category: String,
    pub image_url: Option<String>,
    pub home_url: Option<String>,
}

/// A payment-verification request.
#[derive(Debug, PartialEq)]
pub struct VerifyPaymentDTO {
    pub payment_id: Option<String>,
    pub transaction_id: Option<String>,
}

/// What a client may see of a course.
#[derive(Debug, PartialEq)]
pub struct FilterCourseDto {
    pub id: Option<String>,
    pub title: Option<String>,
    pub description: Option<String>,
    pub long_description: Option<String>,
    pub price_cents: Option<u64>,
    pub level: Option<String>,
    pub duration: Option<String>,
    pub students: Option<u64>,
    pub rating_tenths: Option<u64>,
    pub image: Option<String>,
    pub category: Option<String>,
    pub features: Option<Vec<String>>,
    pub paypal_product_id: Option<String>,
    pub created_at: Option<i64>,
    pub updated_at: Option<i64>,
}

/// Equality of a built course filter and the row it came from: every
/// scalar field copied, and the stored features text parsed as a JSON
/// string list, degrading to nothing when it does not parse so.
pub open spec fn filter_course_matches(r: FilterCourseDto, c: Course) -> bool {
    &&& (match r.id {
        Some(s) => s@ == dec_str(c.id as int),
        None => false,
    })
    &&& (match r.title {
        Some(s) => s@ == c.title@,
        None => false,
    })
    &&& (match r.description {
        Some(s) => s@ == c.description@,
        None => false,
    })
    &&& (match (r.long_description, c.long_description) {
        (Some(a), Some(b)) => a@ == b@,
        (None, None) => true,
        _ => false,
    })
    &&& r.price_cents == Some(c.price_cents)
    &&& (match r.level {
        Some(s) => s@ == c.level@,
        None => false,
    })
    &&& (match (r.duration, c.duration) {
        (Some(a), Some(b)) => a@ == b@,
        (None, None) => true,
        _ => false,
    })
    &&& r.students == Some(c.students)
    &&& r.rating_tenths == Some(c.rating_tenths)
    &&& (match (r.image, c.image) {
        (Some(a), Some(b)) => a@ == b@,
        (None, None) => true,
        _ => false,
    })
    &&& (match r.category {
        Some(s) => s@ == c.category@,
        None => false,
    })
    &&& (match c.features {
        Some(text) => (match crate::jsonfields::json_string_list(text@) {
            Some(l) => (match r.features {
                Some(v) => v.deep_view() == l,
                None => false,
            }),
            None => r.features is None,
        }),
        None => r.features is None,
    })
    &&& (match (r.paypal_product_id, c.paypal_product_id) {
        (Some(a), Some(b)) => a@ == b@,
        (None, None) => true,
        _ => false,
    })
    &&& r.created_at == Some(c.created_at)
    &&& r.updated_at == Some(c.updated_at)
}

impl FilterCourseDto {
    /// Strips a course row to its visible fields.
    pub fn filter_course(course: &Course) -> (r: FilterCourseDto)
        ensures
            filter_course_matches(r, *course),
    {
        FilterCourseDto {
            id: Some(u64_to_string(course.id)),
            title: Some(course.title.clone()),
            description: Some(course.description.clone()),
            long_description: crate::model::clone_opt_string(&course.long_description),
            price_cents: Some(course.price_cents),
            level: Some(course.level.clone()),
            duration: crate::model::clone_opt_string(&course.duration),
            students: Some(course.students),
            rating_tenths: Some(course.rating_tenths),
            image: crate::model::clone_opt_string(&course.image),
            category: Some(course.category.clone()),
            features: match &course.features {
                Some(text) => crate::jsonfields::get_json_string_list(text.as_str()),
                None => None,
            },
            paypal_product_id: crate::model::clone_opt_string(&course.paypal_product_id),
            created_at: Some(course.created_at),
            updated_at: Some(course.updated_at),
        }
    }

    /// Strips a listing of course rows.
    pub fn filter_courses(courses: &Vec<Course>) -> (r: Vec<FilterCourseDto>)
        ensures
            r@.len() == courses@.len(),
            forall|k: int|
                0 <= k < courses@.len() ==> filter_course_matches(#[trigger] r@[k], courses@[k]),
    {
        let mut r: Vec<FilterCourseDto> = Vec::new();
        let mut i: usize = 0;
        while i < courses.len()
            invariant
                i <= courses@.len(),
                r@.len() == i as int,
                forall|k: int| 0 <= k < i ==> filter_course_matches(#[trigger] r@[k], courses@[k]),
            decreases courses@.len() - i,
        {
            r.push(FilterCourseDto::filter_course(&courses[i]));
            i = i + 1;
        }
        r
    }
}

/// What a client may see of an achievement.
#[derive(Debug, PartialEq)]
pub struct FilterAchievementDto {
    pub id: Option<String>,
    pub title: Option<String>,
    pub description: Option<String>,
    pub created_at: Option<i64>,
}

/// Equality of a built achievement filter and the row it came from.
pub open spec fn filter_achievement_matches(r: FilterAchievementDto, a: Achievement) -> bool {
    &&& (match r.id {
        Some(s) => s@ == dec_str(a.id as int),
        None => false,
    })
    &&& (match r.title {
        Some(s) => s@ == a.name@,
        None => false,
    })
    &&& (match (r.description, a.description) {
        (Some(x), Some(y)) => x@ == y@,
        (None, None) => true,
        _ => false,
    })
    &&& r.created_at == Some(a.created_at)
}

impl FilterAchievementDto {
    /// Strips an achievement row to its visible fields.
    pub fn filter_achievement(a: &Achievement) -> (r: FilterAchievementDto)
        ensures
            filter_achievement_matches(r, *a),
    {
        FilterAchievementDto {
            id: Some(u64_to_string(a.id)),
            title: Some(a.name.clone()),
            description: crate::model::clone_opt_string(&a.description),
            created_at: Some(a.created_at),
        }
    }

    /// Strips a listing of achievement rows.
    pub fn filter_achievements(list: &Vec<Achievement>) -> (r: Vec<FilterAchievementDto>)
        ensures
            r@.len() == list@.len(),
            forall|k: int|
                0 <= k < list@.len() ==> filter_achievement_matches(#[trigger] r@[k], list@[k]),
    {
        let mut r: Vec<FilterAchievementDto> = Vec::new();
        let mut i: usize = 0;
        while i < list.len()
            invariant
                i <= list@.len(),
                r@.len() == i as int,
                forall|k: int|
                    0 <= k < i ==> filter_achievement_matches(#[trigger] r@[k], list@[k]),
            decreases list@.len() - i,
        {
            r.push(FilterAchievementDto::filter_achievement(&list[i]));
            i = i + 1;
        }
        r
    }
}

/// The profile payload: the account with its courses and earned
/// achievements.
#[derive(Debug, PartialEq)]
pub struct UserProfileData {
    pub user: FilterUserDto,
    pub courses: Vec<FilterCourseDto>,
    pub achievements: Vec<FilterAchievementDto>,
}

/// The envelope of a profile response.
#[derive(Debug, PartialEq)]
pub struct UserProfileResponse {
    pub status: String,
    pub data: UserProfileData,
}

/// A partial profile update.
#[derive(Debug, PartialEq)]
pub struct UpdateUserProfileDto {
    pub name: Option<String>,
    pub phone: Option<String>,
    pub location: Option<String>,
    pub bio: Option<String>,
    pub birth_date: Option<i64>,
    pub profile_image_url: Option<String>,
}

/// A new achievement definition.
#[derive(Debug, PartialEq)]
pub struct CreateAchievementRequest {
    pub name: String,
    pub description: Option<String>,
    pub icon: Option<String>,
    pub trigger_type: String,
    pub trigger_value: u64,
    pub active: Option<bool>,
}

/// A partial achievement-definition update.
#[derive(Debug, PartialEq)]
pub struct UpdateAchievementRequest {
    pub name: Option<String>,
    pub description: Option<String>,
    pub icon: Option<String>,
    pub trigger_type: Option<String>,
    pub trigger_value: Option<u64>,
    pub active: Option<bool>,
}

/// Assigns an achievement to an account without earning it.
#[derive(Debug, PartialEq)]
pub struct AssignAchievementRequest {
    pub user_id: u64,
    pub achievement_id: u64,
}

/// Marks an achievement earned by an account.
#[derive(Debug, PartialEq)]
pub struct EarnAchievementRequest {
    pub user_id: u64,
    pub achievement_id: u64,
}

/// Asks the engine to evaluate triggers for an account.
#[derive(Debug, PartialEq)]
pub struct CheckAchievementsRequest {
    pub action: String,
    pub value: Option<u64>,
}

/// Asks for an account's achievement state.
#[derive(Debug, PartialEq)]
pub struct DebugAchievementsRequest {
    pub user_id: u64,
}

/// A new notification.
#[derive(Debug, PartialEq)]
pub struct CreateNotificationRequest {
    pub user_id: u64,
    pub title: String,
    pub message: String,
    pub sent_via: String,
}

/// Marks a notification read or unread.
#[derive(Debug, PartialEq)]
pub struct MarkAsReadRequest {
    pub read: bool,
}

/// A new subscription plan.
#[derive(Debug, PartialEq)]
pub struct CreateSubscriptionPlanRequest {
    pub name: String,
    pub description: Option<String>,
    pub price_cents: u64,
    pub duration_months: u64,
    pub features: Option<String>,
    pub paypal_plan_id: Option<String>,
}

/// A subscription request for an account and a provider plan.
#[derive(Debug, PartialEq)]
pub struct SubscribeRequest {
    pub user_id: u64,
    pub plan_id: String,
}

/// A partial subscription-plan update.
#[derive(Debug, PartialEq)]
pub struct UpdateSubscriptionPlanRequest {
    pub name: Option<String>,
    pub description: Option<String>,
    pub price_cents: Option<u64>,
    pub duration_months: Option<u64>,
    pub features: Option<String>,
    pub paypal_plan_id: Option<String>,
    pub active: Option<bool>,
}

} // verus!
