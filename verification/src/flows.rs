//! Request flows: what each endpoint decides once its inputs are
//! plain values. The serving layer parses the request, hands the
//! values in, performs whatever network sending remains, and maps the
//! returned error to a response; every decision in between is here
//! and verified.

use vstd::prelude::*;

use crate::achievements::count_completed_courses;
use crate::achievements::count_enrollments;
use crate::achievements::count_lessons_done;
use crate::achievements::run_awards;
use crate::dtos::FilterAchievementDto;
use crate::dtos::FilterCourseDto;
use crate::dtos::FilterUserDto;
use crate::dtos::ForgotPasswordRequestDTO;
use crate::dtos::LoginDTO;
use crate::dtos::RegisterDTO;
use crate::dtos::ResetPasswordRequestDTO;
use crate::dtos::UserPasswordUpdateDTO;
use crate::dtos::UserProfileData;
use crate::dtos::UserProfileResponse;
use crate::dtos::VerifyEmailQueryDTO;
use crate::errors::ErrorMessage;
use crate::errors::HttpError;
use crate::errors::spec_message;
use crate::jsonfields::get_json_str_field;
use crate::jsonfields::json_str_field;
use crate::model::Course;
use crate::model::CourseProgress;
use crate::model::TriggerKind;
use crate::model::User;
use crate::password::hash_password;
use crate::password::password_matches;
use crate::password::phc_hash_ok;
use crate::password::within_password_cap;
use crate::password::verify_password;
use crate::progress::lp_after_upsert;
use crate::store::Store;
use crate::store::email_taken;
use crate::store::user_has_token;
use crate::webhook::WebhookEvent;
use crate::webhook::WebhookRejection;
use crate::strutil::dec_str;
use crate::strutil::usd_str;

verus! {

/// Registers an account: the request is validated, the password is
/// hashed, and the account is stored with its email-verification
/// token, unless the email is already taken.
pub fn register_user_flow(
    store: &mut Store,
    body: &RegisterDTO,
    verification_token: String,
    token_expiry: i64,
    now: i64,
) -> (r: Result<User, HttpError>)
    requires
        old(store).wf(),
        old(store).next_id < u64::MAX,
    ensures
        final(store).wf(),
        r is Ok || *final(store) == *old(store),
        !(body.name@.len() > 0 && body.email@.len() > 0 && body.password@.len() >= 6
            && body.confirm_password@ == body.password@) ==> (r matches Err(e) && e.status == 400),
        (match r {
            Err(e) => e.status == 409 ==> email_taken(old(store).users@, body.email@)
                && e.message@ == spec_message(ErrorMessage::EmailExist),
            Ok(_) => true,
        }),
        r matches Ok(u) ==> {
            &&& u.email == body.email
            &&& u.name == body.name
            &&& password_matches(body.password@, u.password@)
            &&& u.verification_token == Some(verification_token)
            &&& u.token_expiry == Some(token_expiry)
            &&& u.verified == false
            &&& final(store).users@ == old(store).users@.push(u)
            &&& crate::store::same_but_users(*old(store), *final(store))
        },
        (body.name@.len() > 0 && body.email@.len() > 0 && body.password@.len() >= 6
            && body.confirm_password@ == body.password@ && within_password_cap(body.password@)
            && !email_taken(old(store).users@, body.email@)) ==> (r is Ok || (r matches Err(e)
            && e.status == 500)),
{
    if body.validate().is_err() {
        return Err(HttpError::bad_request("Invalid registration data".to_owned()));
    }
    let password_hash = match hash_password(body.password.as_str()) {
        Ok(h) => h,
        Err(e) => {
            return Err(HttpError::server_error(e.to_str()));
        },
    };
    match store.save_user(
        body.name.clone(),
        body.email.clone(),
        password_hash,
        verification_token,
        Some(token_expiry),
        None,
        now,
    ) {
        Ok(u) => Ok(u),
        Err(e) => Err(HttpError::unique_constraint_violation(e.to_str())),
    }
}

/// Logs an account in: the stored account under the email must exist
/// and its stored hash must match the password.
pub fn login_user_flow(store: &Store, body: &LoginDTO) -> (r: Result<User, HttpError>)
    requires
        store.wf(),
    ensures
        !(body.email@.len() > 0 && body.password@.len() >= 6) ==> (r matches Err(e) && e.status
            == 400),
        r matches Ok(u) ==> {
            &&& exists|i: int| 0 <= i < store.users@.len() && #[trigger] store.users@[i] == u
            &&& u.email@ == body.email@
            &&& password_matches(body.password@, u.password@)
        },
        (body.email@.len() > 0 && body.password@.len() >= 6 && within_password_cap(body.password@)
            && (exists|i: int|
            {
                &&& 0 <= i < store.users@.len()
                &&& #[trigger] store.users@[i].email@ == body.email@
                &&& phc_hash_ok(store.users@[i].password@)
                &&& password_matches(body.password@, store.users@[i].password@)
            })) ==> r is Ok,
{
    if body.validate().is_err() {
        return Err(HttpError::bad_request("Invalid login data".to_owned()));
    }
    let user = match store.get_user(None, None, Some(body.email.as_str()), None) {
        Some(u) => u,
        None => {
            return Err(HttpError::bad_request("User not found".to_owned()));
        },
    };
    proof {
        // Emails are unique, so any stored account under this email
        // is the one that was found.
        let j = choose|j: int|
            0 <= j < store.users@.len() && #[trigger] store.users@[j] == user;
        assert forall|i: int|
            0 <= i < store.users@.len() && #[trigger] store.users@[i].email@ == body.email@
            implies store.users@[i] == user by {
            assert(store.users@[j] == user);
        }
    }
    match verify_password(body.password.as_str(), user.password.as_str()) {
        Ok(true) => Ok(user),
        Ok(false) => Err(
            HttpError::bad_request(ErrorMessage::WrongCredentials.to_str()),
        ),
        Err(_) => Err(HttpError::bad_request(ErrorMessage::WrongCredentials.to_str())),
    }
}

/// Verifies an email address: the token must name an account and must
/// not have expired; on success every account holding the token
/// becomes verified and the token is cleared.
pub fn verify_email_flow(store: &mut Store, query: &VerifyEmailQueryDTO, now: i64) -> (r: Result<
    User,
    HttpError,
>)
    requires
        old(store).wf(),
    ensures
        final(store).wf(),
        r is Err ==> *final(store) == *old(store),
        query.token@.len() == 0 ==> (r matches Err(e) && e.status == 400),
        r matches Ok(u) ==> {
            &&& user_has_token(u, query.token@)
            &&& (u.token_expiry matches Some(exp) && now <= exp)
            &&& final(store).users@.len() == old(store).users@.len()
            &&& (forall|i: int|
                0 <= i < old(store).users@.len() ==> final(store).users@[i] == (
                if user_has_token(old(store).users@[i], query.token@) {
                    crate::store::user_token_consumed(old(store).users@[i], now)
                } else {
                    old(store).users@[i]
                }))
            &&& crate::store::same_but_users(*old(store), *final(store))
        },
        (query.token@.len() > 0 && (exists|i: int|
            0 <= i < old(store).users@.len() && user_has_token(
                #[trigger] old(store).users@[i],
                query.token@,
            )) && (forall|i: int|
            0 <= i < old(store).users@.len() && user_has_token(
                #[trigger] old(store).users@[i],
                query.token@,
            ) ==> (old(store).users@[i].token_expiry matches Some(exp) && now <= exp))) ==> r
            is Ok,
{
    if query.validate().is_err() {
        return Err(HttpError::bad_request("The token is required".to_owned()));
    }
    let user = match store.get_user(None, None, None, Some(query.token.as_str())) {
        Some(u) => u,
        None => {
            return Err(HttpError::unauthorized(ErrorMessage::InvalidToken.to_str()));
        },
    };
    proof {
        // The found account is one of the token's holders.
        let j = choose|j: int|
            0 <= j < store.users@.len() && #[trigger] store.users@[j] == user;
        assert(user_has_token(store.users@[j], query.token@));
    }
    match user.token_expiry {
        Some(expires_at) => {
            if now > expires_at {
                return Err(HttpError::bad_request("The verification token has expired".to_owned()));
            }
        },
        None => {
            return Err(HttpError::bad_request("Invalid token".to_owned()));
        },
    }
    match store.verifed_token(query.token.as_str(), now) {
        Ok(_) => Ok(user),
        Err(e) => Err(HttpError::server_error(e.to_str())),
    }
}

/// Starts a password reset: the email must name an account, which is
/// then given the fresh reset token, expiring half an hour on.
pub fn forgot_password_flow(
    store: &mut Store,
    body: &ForgotPasswordRequestDTO,
    reset_token: String,
    now: i64,
) -> (r: Result<User, HttpError>)
    requires
        old(store).wf(),
    ensures
        final(store).wf(),
        r is Err ==> *final(store) == *old(store),
        body.email@.len() == 0 ==> (r matches Err(e) && e.status == 400),
        r matches Ok(u) ==> {
            &&& u.email@ == body.email@
            &&& exists|i: int|
                {
                    &&& 0 <= i < old(store).users@.len()
                    &&& #[trigger] old(store).users@[i].id == u.id
                    &&& final(store).users@ == old(store).users@.update(
                        i,
                        User {
                            verification_token: Some(reset_token),
                            token_expiry: Some((now + 1800) as i64),
                            updated_at: now,
                            ..old(store).users@[i]
                        },
                    )
                }
            &&& crate::store::same_but_users(*old(store), *final(store))
        },
        (body.email@.len() > 0 && now <= i64::MAX - 1800 && (exists|i: int|
            0 <= i < old(store).users@.len() && #[trigger] old(store).users@[i].email@
                == body.email@)) ==> r is Ok,
{
    if body.validate().is_err() {
        return Err(HttpError::bad_request("The email is required".to_owned()));
    }
    if now > i64::MAX - 1800 {
        return Err(HttpError::server_error(ErrorMessage::ServerError.to_str()));
    }
    let user = match store.get_user(None, None, Some(body.email.as_str()), None) {
        Some(u) => u,
        None => {
            return Err(HttpError::bad_request("Email not found".to_owned()));
        },
    };
    match store.add_verifed_token(user.id, reset_token, now + 1800, now) {
        Ok(_) => Ok(user),
        Err(e) => Err(HttpError::server_error(e.to_str())),
    }
}

/// Finishes a password reset: the token must name an account and be
/// unexpired; the new password is hashed and stored, and the token is
/// consumed.
pub fn reset_password_flow(store: &mut Store, body: &ResetPasswordRequestDTO, now: i64) -> (r:
    Result<(), HttpError>)
    requires
        old(store).wf(),
    ensures
        final(store).wf(),
        r is Err ==> *final(store) == *old(store),
        !(body.token@.len() > 0 && body.new_password@.len() >= 6 && body.confirm_new_password@
            == body.new_password@) ==> (r matches Err(e) && e.status == 400),
        r is Ok ==> exists|i: int|
            {
                &&& 0 <= i < old(store).users@.len()
                &&& user_has_token(#[trigger] old(store).users@[i], body.token@)
                &&& (old(store).users@[i].token_expiry matches Some(exp) && now <= exp)
                &&& password_matches(body.new_password@, final(store).users@[i].password@)
                &&& final(store).users@[i].verified
                &&& final(store).users@[i].verification_token is None
            },
        (body.token@.len() > 0 && body.new_password@.len() >= 6 && body.confirm_new_password@
            == body.new_password@ && within_password_cap(body.new_password@) && (exists|i: int|
            0 <= i < old(store).users@.len() && user_has_token(
                #[trigger] old(store).users@[i],
                body.token@,
            )) && (forall|i: int|
            0 <= i < old(store).users@.len() && user_has_token(
                #[trigger] old(store).users@[i],
                body.token@,
            ) ==> (old(store).users@[i].token_expiry matches Some(exp) && now <= exp))) ==> (r
            is Ok || (r matches Err(e) && e.status == 500)),
{
    if body.validate().is_err() {
        return Err(HttpError::bad_request("Invalid reset data".to_owned()));
    }
    let user = match store.get_user(None, None, None, Some(body.token.as_str())) {
        Some(u) => u,
        None => {
            return Err(HttpError::bad_request("Invalid token".to_owned()));
        },
    };
    proof {
        // The found account is one of the token's holders.
        let j = choose|j: int|
            0 <= j < store.users@.len() && #[trigger] store.users@[j] == user;
        assert(user_has_token(store.users@[j], body.token@));
    }
    match user.token_expiry {
        Some(expires_at) => {
            if now > expires_at {
                return Err(HttpError::bad_request("The reset token has expired".to_owned()));
            }
        },
        None => {
            return Err(HttpError::bad_request("Invalid token".to_owned()));
        },
    }
    let new_hash = match hash_password(body.new_password.as_str()) {
        Ok(h) => h,
        Err(e) => {
            return Err(HttpError::server_error(e.to_str()));
        },
    };
    let ghost pre = *old(store);
    let updated = match store.update_user_password(user.id, new_hash, now) {
        Ok(u) => u,
        Err(e) => {
            return Err(HttpError::server_error(e.to_str()));
        },
    };
    let ghost mid2 = *store;
    match store.verifed_token(body.token.as_str(), now) {
        Ok(_) => {
            proof {
                // The token named exactly one account; the password
                // write landed on it, and consuming the token marked
                // that same account verified.
                let q = choose|i: int|
                    0 <= i < pre.users@.len() && #[trigger] pre.users@[i] == user;
                let i1 = choose|i: int|
                    {
                        &&& 0 <= i < pre.users@.len()
                        &&& #[trigger] pre.users@[i].id == user.id
                        &&& updated == User {
                            password: updated.password,
                            updated_at: now,
                            ..pre.users@[i]
                        }
                        &&& mid2.users@ == pre.users@.update(i, updated)
                    };
                assert(i1 == q);
                assert(user_has_token(mid2.users@[q], body.token@));
                assert(store.users@[q] == crate::store::user_token_consumed(
                    mid2.users@[q],
                    now,
                ));
                assert(password_matches(body.new_password@, store.users@[q].password@));
            }
            Ok(())
        },
        Err(e) => Err(HttpError::server_error(e.to_str())),
    }
}

/// The account's profile: its visible fields, its courses and its
/// earned achievements.
pub fn get_user_profile_flow(store: &Store, user: &User) -> (r: UserProfileResponse)
    requires
        store.wf(),
    ensures
        r.status@ == "success"@,
        crate::dtos::filter_user_matches(r.data.user, *user),
        ({
            let courses = crate::courses::user_courses_list(
                store.user_courses@,
                store.courses@,
                user.id,
            );
            &&& r.data.courses@.len() == courses.len()
            &&& forall|k: int|
                0 <= k < courses.len() ==> crate::dtos::filter_course_matches(
                    #[trigger] r.data.courses@[k],
                    courses[k],
                )
        }),
        ({
            let achievements = crate::achievements::earned_achievements(
                store.achievements@,
                store.user_achievements@,
                user.id,
            );
            &&& r.data.achievements@.len() == achievements.len()
            &&& forall|k: int|
                0 <= k < achievements.len() ==> crate::dtos::filter_achievement_matches(
                    #[trigger] r.data.achievements@[k],
                    achievements[k],
                )
        }),
{
    let courses = store.get_user_courses(user.id);
    let achievements = store.get_user_achievements(user.id);
    UserProfileResponse {
        status: "success".to_owned(),
        data: UserProfileData {
            user: FilterUserDto::filter_user(user),
            courses: FilterCourseDto::filter_courses(&courses),
            achievements: FilterAchievementDto::filter_achievements(&achievements),
        },
    }
}

/// Changes an account's password: the old one must match the stored
/// hash, and the new one is hashed and stored.
pub fn change_password_flow(
    store: &mut Store,
    user_id: u64,
    body: &UserPasswordUpdateDTO,
    now: i64,
) -> (r: Result<(), HttpError>)
    requires
        old(store).wf(),
    ensures
        final(store).wf(),
        r is Err ==> *final(store) == *old(store),
        !(body.old_password@.len() >= 6 && body.new_password@.len() >= 6
            && body.confirm_new_password@ == body.new_password@) ==> (r matches Err(e) && e.status
            == 400),
        r is Ok ==> exists|i: int|
            {
                &&& 0 <= i < old(store).users@.len()
                &&& #[trigger] old(store).users@[i].id == user_id
                &&& password_matches(body.old_password@, old(store).users@[i].password@)
                &&& password_matches(body.new_password@, final(store).users@[i].password@)
            },
        (body.old_password@.len() >= 6 && body.new_password@.len() >= 6
            && body.confirm_new_password@ == body.new_password@ && within_password_cap(
            body.old_password@,
        ) && within_password_cap(body.new_password@) && (exists|i: int|
            {
                &&& 0 <= i < old(store).users@.len()
                &&& #[trigger] old(store).users@[i].id == user_id
                &&& phc_hash_ok(old(store).users@[i].password@)
                &&& password_matches(body.old_password@, old(store).users@[i].password@)
            })) ==> (r is Ok || (r matches Err(e) && e.status == 500)),
{
    if body.validate().is_err() {
        return Err(HttpError::bad_request("Invalid password data".to_owned()));
    }
    let user = match store.get_user(Some(user_id), None, None, None) {
        Some(u) => u,
        None => {
            return Err(HttpError::unauthorized(ErrorMessage::InvalidToken.to_str()));
        },
    };
    proof {
        // Identifiers are unique, so any stored account under this id
        // is the one that was found.
        let j = choose|j: int|
            0 <= j < store.users@.len() && #[trigger] store.users@[j] == user;
        assert forall|i: int|
            0 <= i < store.users@.len() && #[trigger] store.users@[i].id == user_id
            implies store.users@[i] == user by {
            assert(store.users@[j] == user);
        }
    }
    let matched = match verify_password(body.old_password.as_str(), user.password.as_str()) {
        Ok(b) => b,
        Err(e) => {
            return Err(HttpError::server_error(e.to_str()));
        },
    };
    if !matched {
        return Err(HttpError::bad_request("Old password is incorrect".to_owned()));
    }
    let new_hash = match hash_password(body.new_password.as_str()) {
        Ok(h) => h,
        Err(e) => {
            return Err(HttpError::server_error(e.to_str()));
        },
    };
    match store.update_user_password(user_id, new_hash, now) {
        Ok(_) => Ok(()),
        Err(e) => Err(HttpError::server_error(e.to_str())),
    }
}

/// What an order-creation call sends the payment provider for one
/// course: the course as invoice, the buyer as custom id, and the
/// price rendered as a dollar amount.
#[derive(Debug, PartialEq)]
pub struct OrderRequest {
    pub invoice_id: String,
    pub custom_id: String,
    pub amount_value: String,
    pub item_name: String,
    pub sku: Option<String>,
}

/// Builds the order request for a course purchase.
pub fn build_order_request(course: &Course, user_id: u64) -> (r: OrderRequest)
    ensures
        r.invoice_id@ == dec_str(course.id as int),
        r.custom_id@ == dec_str(user_id as int),
        r.amount_value@ == usd_str(course.price_cents as int),
        r.item_name@ == course.title@,
        r.sku == course.paypal_product_id,
{
    OrderRequest {
        invoice_id: crate::strutil::u64_to_string(course.id),
        custom_id: crate::strutil::u64_to_string(user_id),
        amount_value: crate::strutil::format_usd(course.price_cents),
        item_name: course.title.clone(),
        sku: crate::model::clone_opt_string(&course.paypal_product_id),
    }
}

/// Reads the provider's product-creation response: the created
/// product's id, or a provider failure when the response has none.
pub fn product_id_of_response(body: &[u8]) -> (r: Result<String, ErrorMessage>)
    ensures
        r is Err <==> json_str_field(body@, "id"@) is None,
        r is Err ==> r == Err::<String, ErrorMessage>(ErrorMessage::ProviderUnavailable),
        r matches Ok(id) ==> json_str_field(body@, "id"@) == Some(id@),
{
    match get_json_str_field(body, "id") {
        Some(id) => Ok(id),
        None => Err(ErrorMessage::ProviderUnavailable),
    }
}

/// The webhook endpoint's whole decision once the provider's
/// signature answer is in: the verdict of `verify_and_dispatch`, and,
/// on acceptance, the event applied to the subscription table, keyed
/// by the provider subscription id the serving layer read from the
/// payload. A rejected delivery never touches a row.
pub fn handle_webhook_event(
    store: &mut Store,
    verified: bool,
    body: &[u8],
    provider_subscription_id: Option<&str>,
    now: i64,
) -> (r: Result<WebhookEvent, WebhookRejection>)
    requires
        old(store).wf(),
    ensures
        final(store).wf(),
        r is Err ==> *final(store) == *old(store),
        !verified ==> r == Err::<WebhookEvent, WebhookRejection>(
            WebhookRejection::InvalidSignature,
        ),
        verified ==> (match json_str_field(body@, "event_type"@) {
            None => r == Err::<WebhookEvent, WebhookRejection>(WebhookRejection::InvalidPayload),
            Some(t) => (match crate::webhook::event_kind_of(t) {
                Some(k) => r == Ok::<WebhookEvent, WebhookRejection>(k),
                None => r == Err::<WebhookEvent, WebhookRejection>(
                    WebhookRejection::UnsupportedEventType,
                ),
            }),
        }),
        r matches Ok(kind) ==> (match provider_subscription_id {
            Some(pid) => crate::subscriptions::subscription_event_post(
                *old(store),
                *final(store),
                kind,
                pid@,
                now,
            ),
            None => *final(store) == *old(store),
        }),
{
    let kind = match crate::webhook::verify_and_dispatch(verified, body) {
        Ok(k) => k,
        Err(e) => {
            return Err(e);
        },
    };
    match provider_subscription_id {
        Some(pid) => store.apply_subscription_event(kind, pid, now),
        None => {},
    }
    Ok(kind)
}

/// Registers a successful course purchase and then re-checks the
/// enrollment-triggered achievements against the fresh entitlement
/// rows, returning what was newly awarded.
pub fn purchase_course_flow(
    store: &mut Store,
    user_id: u64,
    course_id: u64,
    transaction_id: String,
    amount_cents: u64,
    payment_method: String,
    status: String,
    now: i64,
) -> (r: Result<Vec<u64>, ErrorMessage>)
    requires
        old(store).wf(),
        old(store).next_id < u64::MAX - 1,
    ensures
        final(store).wf(),
        r is Err ==> r == Err::<Vec<u64>, ErrorMessage>(ErrorMessage::CourseNotFound)
            && *final(store) == *old(store) && (forall|j: int|
            0 <= j < old(store).courses@.len() ==> old(store).courses@[j].id != course_id),
        r matches Ok(awards) ==> ({
            let uc2 = if crate::purchases::purchased(
                old(store).user_courses@,
                user_id,
                course_id,
            ) {
                old(store).user_courses@
            } else {
                old(store).user_courses@.push(
                    crate::model::UserCourse {
                        id: (old(store).next_id + 1) as u64,
                        user_id,
                        course_id,
                        purchased_at: now,
                    },
                )
            };
            let m = crate::achievements::count_enrollments(uc2, user_id);
            let out = run_awards(
                old(store).achievements@,
                old(store).user_achievements@,
                user_id,
                TriggerKind::EnrollmentCount,
                m,
                now,
            );
            &&& final(store).user_courses@ == uc2
            &&& final(store).user_achievements@ == out.0
            &&& awards@ == out.1
            &&& crate::purchases::purchased(final(store).user_courses@, user_id, course_id)
        }),
{
    match store.register_course_purchase(
        user_id,
        course_id,
        transaction_id,
        amount_cents,
        payment_method,
        status,
        now,
    ) {
        Ok(_) => {},
        Err(e) => {
            return Err(e);
        },
    }
    proof {
        if !crate::purchases::purchased(old(store).user_courses@, user_id, course_id) {
            let n = store.user_courses@.len() - 1;
            assert(store.user_courses@[n].user_id == user_id && store.user_courses@[n].course_id
                == course_id);
        }
        assert(crate::purchases::purchased(store.user_courses@, user_id, course_id));
    }
    let awards = store.check_and_award_achievements(
        user_id,
        TriggerKind::EnrollmentCount,
        None,
        now,
    );
    Ok(awards)
}

/// Records one lesson-progress update and then evaluates achievement
/// triggers on the fresh rows: the lesson-completed trigger always,
/// the course-completed trigger only when the course just reached one
/// hundred percent. The progress write stands whatever the trigger
/// evaluation adds; in this engine the evaluation itself cannot fail.
pub fn record_progress_and_check_awards(
    store: &mut Store,
    user_id: u64,
    lesson_id: u64,
    is_completed: bool,
    progress: u8,
    now: i64,
) -> (r: Result<(CourseProgress, Vec<u64>, Vec<u64>), ErrorMessage>)
    requires
        old(store).wf(),
        progress <= 100,
    ensures
        final(store).wf(),
        r is Err ==> r == Err::<(CourseProgress, Vec<u64>, Vec<u64>), ErrorMessage>(
            ErrorMessage::NotFound,
        ) && *final(store) == *old(store) && !crate::progress::lesson_resolvable(
            *old(store),
            lesson_id,
        ),
        r matches Ok((cp, lesson_awards, course_awards)) ==> ({
            let lp2 = lp_after_upsert(
                old(store).lesson_progress@,
                user_id,
                lesson_id,
                is_completed,
                progress,
                now,
            );
            let m1 = count_lessons_done(old(store).lessons@, lp2, user_id);
            let first = run_awards(
                old(store).achievements@,
                old(store).user_achievements@,
                user_id,
                TriggerKind::LessonCompletedCount,
                m1,
                now,
            );
            &&& final(store).lesson_progress@ == lp2
            &&& lesson_awards@ == first.1
            &&& (cp.percentage >= 100 ==> ({
                let m2 = count_completed_courses(
                    old(store).courses@,
                    old(store).lessons@,
                    old(store).modules@,
                    lp2,
                    user_id,
                );
                let second = run_awards(
                    old(store).achievements@,
                    first.0,
                    user_id,
                    TriggerKind::CourseCompletedCount,
                    m2,
                    now,
                );
                &&& course_awards@ == second.1
                &&& final(store).user_achievements@ == second.0
            }))
            &&& (cp.percentage < 100 ==> course_awards@.len() == 0
                && final(store).user_achievements@ == first.0)
        }),
{
    let cp = match store.record_lesson_progress(user_id, lesson_id, is_completed, progress, now) {
        Ok(cp) => cp,
        Err(e) => {
            return Err(e);
        },
    };
    let lesson_awards = store.check_and_award_achievements(
        user_id,
        TriggerKind::LessonCompletedCount,
        None,
        now,
    );
    let course_awards = if cp.percentage >= 100 {
        store.check_and_award_achievements(user_id, TriggerKind::CourseCompletedCount, None, now)
    } else {
        Vec::new()
    };
    Ok((cp, lesson_awards, course_awards))
}

} // verus!
