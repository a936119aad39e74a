//! The progress tracker, the achievement engine and the entitlement
//! resolver, exercised end to end over concrete stores.

use course_engine::dtos::{CreateCourseDTO, CreateLessonDTO, CreateModuleDTO};
use course_engine::flows::record_progress_and_check_awards;
use course_engine::model::{TriggerKind, UserRole};
use course_engine::store::Store;

fn lesson(title: &str) -> CreateLessonDTO {
    CreateLessonDTO {
        title: title.to_string(),
        duration: None,
        completed: false,
        kind: "video".to_string(),
        content_url: None,
        description: None,
        order: None,
    }
}

fn course_dto(title: &str, lessons: Vec<CreateLessonDTO>) -> CreateCourseDTO {
    CreateCourseDTO {
        title: title.to_string(),
        description: "a course".to_string(),
        long_description: None,
        level: "beginner".to_string(),
        price_cents: 19_99,
        duration: None,
        students: None,
        rating_tenths: None,
        image: None,
        category: "premium".to_string(),
        features: None,
        paypal_product_id: Some("PROD-1".to_string()),
        modules: vec![CreateModuleDTO {
            title: "module one".to_string(),
            order: None,
            lessons,
        }],
    }
}

/// A store with one account and one course of four lessons; returns
/// the store, the account id, the course id and the four lesson ids.
fn four_lesson_course() -> (Store, u64, u64, Vec<u64>) {
    let mut store = Store::new();
    let user = store
        .save_user(
            "U".to_string(),
            "u@example.com".to_string(),
            "pw".to_string(),
            "tok".to_string(),
            None,
            None,
            100,
        )
        .unwrap();
    let dto = course_dto("Course", vec![lesson("l1"), lesson("l2"), lesson("l3"), lesson("l4")]);
    let cid = store.create_course(dto, 200).unwrap();
    let tree = store.get_course_with_videos(cid).unwrap();
    let lesson_ids: Vec<u64> =
        tree.modules.iter().flat_map(|m| m.lessons.iter().map(|l| l.id)).collect();
    assert_eq!(lesson_ids.len(), 4);
    (store, user.id, cid, lesson_ids)
}

#[test]
fn percentage_rises_to_one_hundred() {
    let (mut store, uid, cid, lessons) = four_lesson_course();
    for (i, lid) in lessons.iter().take(3).enumerate() {
        let cp = store
            .record_lesson_progress(uid, *lid, true, 100, 300 + i as i64)
            .unwrap();
        assert_eq!(cp.course_id, cid);
        assert_eq!(cp.total_lessons, 4);
        assert_eq!(cp.completed_lessons, 1 + i as u64);
    }
    let cp = store.get_user_course_progress(uid, cid).unwrap();
    assert_eq!(cp.percentage, 75);
    assert!(cp.completed_at.is_none());
    let cp = store.record_lesson_progress(uid, lessons[3], true, 100, 400).unwrap();
    assert_eq!(cp.percentage, 100);
    assert_eq!(cp.completed_lessons, 4);
    assert_eq!(cp.completed_at, Some(400));
}

#[test]
fn completing_the_course_awards_first_course_once() {
    let (mut store, uid, _cid, lessons) = four_lesson_course();
    let first_course = store.create_achievement(
        "First Course".to_string(),
        None,
        None,
        TriggerKind::CourseCompletedCount,
        1,
        true,
        250,
    );
    for (i, lid) in lessons.iter().take(3).enumerate() {
        let (cp, _lesson_awards, course_awards) =
            record_progress_and_check_awards(&mut store, uid, *lid, true, 100, 300 + i as i64)
                .unwrap();
        assert!(cp.percentage < 100);
        assert!(course_awards.is_empty());
        assert!(!store.has_user_earned(uid, first_course.id));
    }
    let (cp, _lesson_awards, course_awards) =
        record_progress_and_check_awards(&mut store, uid, lessons[3], true, 100, 400).unwrap();
    assert_eq!(cp.percentage, 75 + 25);
    assert_eq!(course_awards, vec![first_course.id]);
    assert!(store.has_user_earned(uid, first_course.id));
    // Completing again awards nothing further: exactly one record.
    let (_cp, _la, course_awards2) =
        record_progress_and_check_awards(&mut store, uid, lessons[3], true, 100, 500).unwrap();
    assert!(course_awards2.is_empty());
}

#[test]
fn recording_identical_progress_twice_changes_nothing() {
    let (mut store, uid, cid, lessons) = four_lesson_course();
    let cp1 = store.record_lesson_progress(uid, lessons[0], true, 100, 300).unwrap();
    let cp2 = store.record_lesson_progress(uid, lessons[0], true, 100, 300).unwrap();
    assert_eq!(cp1, cp2);
    assert_eq!(store.get_user_course_progress(uid, cid).unwrap(), cp1);
}

#[test]
fn unknown_lesson_is_not_found() {
    let (mut store, uid, _cid, _lessons) = four_lesson_course();
    let r = store.record_lesson_progress(uid, 9_999, true, 50, 300);
    assert_eq!(r.unwrap_err(), course_engine::errors::ErrorMessage::NotFound);
}

#[test]
fn check_and_award_is_exactly_once() {
    let mut store = Store::new();
    let user = store
        .save_user(
            "A".to_string(),
            "a@example.com".to_string(),
            "pw".to_string(),
            "t".to_string(),
            None,
            None,
            10,
        )
        .unwrap();
    let streak = store.create_achievement(
        "Seven Days".to_string(),
        None,
        None,
        TriggerKind::LoginStreakCount,
        7,
        true,
        20,
    );
    store.set_engagement_stats(user.id, 0, 9);
    let first = store.check_and_award_achievements(user.id, TriggerKind::LoginStreakCount, None, 30);
    assert_eq!(first, vec![streak.id]);
    let second =
        store.check_and_award_achievements(user.id, TriggerKind::LoginStreakCount, None, 40);
    assert!(second.is_empty());
    assert!(store.has_user_earned(user.id, streak.id));
}

#[test]
fn inactive_or_unreached_definitions_are_not_awarded() {
    let mut store = Store::new();
    let user = store
        .save_user(
            "A".to_string(),
            "a@example.com".to_string(),
            "pw".to_string(),
            "t".to_string(),
            None,
            None,
            10,
        )
        .unwrap();
    let inactive = store.create_achievement(
        "Dormant".to_string(),
        None,
        None,
        TriggerKind::CommentCount,
        1,
        false,
        20,
    );
    let high = store.create_achievement(
        "Century".to_string(),
        None,
        None,
        TriggerKind::CommentCount,
        100,
        true,
        21,
    );
    store.set_engagement_stats(user.id, 5, 0);
    let awarded = store.check_and_award_achievements(user.id, TriggerKind::CommentCount, None, 30);
    assert!(awarded.is_empty());
    assert!(!store.has_user_earned(user.id, inactive.id));
    assert!(!store.has_user_earned(user.id, high.id));
}

#[test]
fn generic_trigger_falls_back_to_caller_value() {
    let mut store = Store::new();
    let user = store
        .save_user(
            "A".to_string(),
            "a@example.com".to_string(),
            "pw".to_string(),
            "t".to_string(),
            None,
            None,
            10,
        )
        .unwrap();
    assert_eq!(
        course_engine::achievements::trigger_kind_from_str("something_else"),
        TriggerKind::Generic
    );
    assert_eq!(
        course_engine::achievements::trigger_kind_from_str("login_streak"),
        TriggerKind::LoginStreakCount
    );
    let five = store.create_achievement(
        "Five".to_string(),
        None,
        None,
        TriggerKind::Generic,
        5,
        true,
        20,
    );
    // Default value is one: not reached.
    assert!(store
        .check_and_award_achievements(user.id, TriggerKind::Generic, None, 30)
        .is_empty());
    // The caller-supplied value decides.
    let awarded = store.check_and_award_achievements(user.id, TriggerKind::Generic, Some(6), 31);
    assert_eq!(awarded, vec![five.id]);
}

#[test]
fn entitlement_precedence() {
    let mut store = Store::new();
    let admin = store
        .save_user(
            "Admin".to_string(),
            "admin@example.com".to_string(),
            "pw".to_string(),
            "t1".to_string(),
            None,
            Some(UserRole::Admin),
            10,
        )
        .unwrap();
    let standard = store
        .save_user(
            "Std".to_string(),
            "std@example.com".to_string(),
            "pw".to_string(),
            "t2".to_string(),
            None,
            Some(UserRole::User),
            11,
        )
        .unwrap();
    let cid = store.create_course(course_dto("C", vec![lesson("l1")]), 20).unwrap();
    let now = 1_000;

    // An administrator with no subscription and no purchase is granted.
    assert!(store.check_user_course_access(admin.id, cid, now));

    // A standard account with an expired subscription and no purchase
    // is denied.
    store.activate_subscription(standard.id, "SUB-1".to_string(), None, 0, Some(500), 30);
    assert!(!store.check_user_course_access(standard.id, cid, now));

    // A live subscription grants access to any course.
    store.activate_subscription(standard.id, "SUB-2".to_string(), None, 0, Some(2_000), 40);
    assert!(store.check_user_course_access(standard.id, cid, now));

    // After cancellation, a recorded purchase is what remains.
    let subs = store.get_user_subscriptions(standard.id);
    let live = subs.iter().find(|s| s.status).unwrap();
    store.cancel_subscription(live.id, 50).unwrap();
    assert!(!store.check_user_course_access(standard.id, cid, now));
    store
        .register_course_purchase(
            standard.id,
            cid,
            "TX-1".to_string(),
            19_99,
            "paypal".to_string(),
            "completed".to_string(),
            60,
        )
        .unwrap();
    assert!(store.check_user_course_access(standard.id, cid, now));
}

#[test]
fn purchase_registers_payment_entitlement_and_progress_seed() {
    let mut store = Store::new();
    let user = store
        .save_user(
            "B".to_string(),
            "b@example.com".to_string(),
            "pw".to_string(),
            "t".to_string(),
            None,
            None,
            10,
        )
        .unwrap();
    let cid = store
        .create_course(course_dto("C", vec![lesson("l1"), lesson("l2")]), 20)
        .unwrap();
    store
        .register_course_purchase(
            user.id,
            cid,
            "TX-1".to_string(),
            19_99,
            "paypal".to_string(),
            "completed".to_string(),
            30,
        )
        .unwrap();
    assert_eq!(store.get_user_purchased_courses(user.id), vec![cid]);
    let seeded = store.get_user_course_progress(user.id, cid).unwrap();
    assert_eq!(seeded.total_lessons, 2);
    assert_eq!(seeded.completed_lessons, 0);
    assert_eq!(seeded.percentage, 0);
    let course = store.get_course(cid).unwrap();
    assert_eq!(course.students, 1);

    // Buying again records the payment but never duplicates the
    // entitlement or counts the student twice.
    store
        .register_course_purchase(
            user.id,
            cid,
            "TX-2".to_string(),
            19_99,
            "paypal".to_string(),
            "completed".to_string(),
            40,
        )
        .unwrap();
    assert_eq!(store.get_user_purchased_courses(user.id), vec![cid]);
    assert_eq!(store.get_course(cid).unwrap().students, 1);

    // A purchase of an unknown course is refused.
    let r = store.register_course_purchase(
        user.id,
        9_999,
        "TX-3".to_string(),
        1,
        "paypal".to_string(),
        "completed".to_string(),
        50,
    );
    assert_eq!(r.unwrap_err(), course_engine::errors::ErrorMessage::CourseNotFound);
}

#[test]
fn empty_course_stays_at_zero_percent() {
    let mut store = Store::new();
    let user = store
        .save_user(
            "B".to_string(),
            "b@example.com".to_string(),
            "pw".to_string(),
            "t".to_string(),
            None,
            None,
            10,
        )
        .unwrap();
    let mut dto = course_dto("Empty", vec![]);
    dto.modules.clear();
    let cid = store.create_course(dto, 20).unwrap();
    store
        .register_course_purchase(
            user.id,
            cid,
            "TX".to_string(),
            1,
            "paypal".to_string(),
            "completed".to_string(),
            30,
        )
        .unwrap();
    let cp = store.get_user_course_progress(user.id, cid).unwrap();
    assert_eq!(cp.total_lessons, 0);
    assert_eq!(cp.percentage, 0);
}

#[test]
fn manual_progress_update_clamps_and_recomputes() {
    let (mut store, uid, cid, _lessons) = four_lesson_course();
    store
        .register_course_purchase(
            uid,
            cid,
            "TX".to_string(),
            1,
            "paypal".to_string(),
            "completed".to_string(),
            30,
        )
        .unwrap();
    store.update_course_progress(uid, cid, 3, 40).unwrap();
    let cp = store.get_user_course_progress(uid, cid).unwrap();
    assert_eq!(cp.completed_lessons, 3);
    assert_eq!(cp.percentage, 75);
    // A count beyond the total is clamped to it.
    store.update_course_progress(uid, cid, 10, 50).unwrap();
    let cp = store.get_user_course_progress(uid, cid).unwrap();
    assert_eq!(cp.completed_lessons, 4);
    assert_eq!(cp.percentage, 100);
}

#[test]
fn user_stats_aggregate_all_metrics() {
    let (mut store, uid, cid, lessons) = four_lesson_course();
    store
        .register_course_purchase(
            uid,
            cid,
            "TX".to_string(),
            1,
            "paypal".to_string(),
            "completed".to_string(),
            30,
        )
        .unwrap();
    for lid in &lessons {
        store.record_lesson_progress(uid, *lid, true, 100, 40).unwrap();
    }
    store.set_engagement_stats(uid, 12, 3);
    let stats = store.get_user_stats(uid);
    assert_eq!(stats.courses_completed, 1);
    assert_eq!(stats.lessons_completed, 4);
    assert_eq!(stats.enrollments, 1);
    assert_eq!(stats.comments_authored, 12);
    assert_eq!(stats.login_streak, 3);
}

#[test]
fn purchase_rechecks_enrollment_achievements() {
    let mut store = Store::new();
    let user = store
        .save_user(
            "E".to_string(),
            "e@example.com".to_string(),
            "pw".to_string(),
            "t".to_string(),
            None,
            None,
            10,
        )
        .unwrap();
    let cid = store.create_course(course_dto("C", vec![lesson("l1")]), 20).unwrap();
    let joined = store.create_achievement(
        "Enrolled".to_string(),
        None,
        None,
        TriggerKind::EnrollmentCount,
        1,
        true,
        25,
    );
    let awards = course_engine::flows::purchase_course_flow(
        &mut store,
        user.id,
        cid,
        "TX-1".to_string(),
        19_99,
        "paypal".to_string(),
        "completed".to_string(),
        30,
    )
    .unwrap();
    assert_eq!(awards, vec![joined.id]);
    // A repeat purchase records the payment and awards nothing anew.
    let awards2 = course_engine::flows::purchase_course_flow(
        &mut store,
        user.id,
        cid,
        "TX-2".to_string(),
        19_99,
        "paypal".to_string(),
        "completed".to_string(),
        40,
    )
    .unwrap();
    assert!(awards2.is_empty());
}

#[test]
fn assign_then_earn_achievement() {
    let mut store = Store::new();
    let user = store
        .save_user(
            "A".to_string(),
            "a@example.com".to_string(),
            "pw".to_string(),
            "t".to_string(),
            None,
            None,
            10,
        )
        .unwrap();
    let a = store.create_achievement(
        "Badge".to_string(),
        Some("desc".to_string()),
        None,
        TriggerKind::Generic,
        1,
        true,
        20,
    );
    // Earning an unassigned pair is refused; assigning twice is too.
    assert!(store.earn_achievement(user.id, a.id, 30).is_err());
    let row = store.assign_achievement_to_user(user.id, a.id).unwrap();
    assert!(!row.earned);
    assert!(store.assign_achievement_to_user(user.id, a.id).is_err());
    let (earned, newly) = store.earn_achievement(user.id, a.id, 40).unwrap();
    assert!(newly);
    assert!(earned.earned);
    assert_eq!(earned.earned_at, Some(40));
    assert!(store.has_user_earned(user.id, a.id));
    // Earning again is a no-op: the instant stands and nothing is
    // newly earned.
    let (again, newly2) = store.earn_achievement(user.id, a.id, 99).unwrap();
    assert!(!newly2);
    assert_eq!(again.earned_at, Some(40));
    let list = store.get_user_achievements(user.id);
    assert_eq!(list.len(), 1);
    assert_eq!(list[0].name, "Badge");
    let detailed = store.get_user_achievements_with_details(user.id);
    assert_eq!(detailed.len(), 1);
    assert_eq!(detailed[0].0.earned_at, Some(40));
    assert_eq!(detailed[0].1.name, "Badge");
}
