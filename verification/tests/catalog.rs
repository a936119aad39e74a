//! The course catalog, the serving shapes, notifications and the
//! small string utilities.

use course_engine::dtos::{
    CreateCourseDTO, CreateLessonDTO, CreateModuleDTO, FilterCourseDto, FilterUserDto,
    UpdateCourseDTO,
};
use course_engine::flows::{build_order_request, get_user_profile_flow, product_id_of_response};
use course_engine::store::Store;
use course_engine::errors::{ErrorMessage, HttpError};
use course_engine::strutil::{
    auth_header_value, create_verification_link, format_usd, str_eq, u64_to_string,
};
use course_engine::dtos::{NameUpdateDTO, RequestQueryDto};

fn lesson(title: &str) -> CreateLessonDTO {
    CreateLessonDTO {
        title: title.to_string(),
        duration: Some("5m".to_string()),
        completed: false,
        kind: "video".to_string(),
        content_url: None,
        description: None,
        order: None,
    }
}

fn two_module_course() -> CreateCourseDTO {
    CreateCourseDTO {
        title: "Shipbuilding".to_string(),
        description: "hulls and rigging".to_string(),
        long_description: None,
        level: "intermediate".to_string(),
        price_cents: 125_50,
        duration: Some("6 weeks".to_string()),
        students: None,
        rating_tenths: None,
        image: None,
        category: "premium".to_string(),
        features: Some("[\"keel\",\"mast\"]".to_string()),
        paypal_product_id: Some("PROD-7".to_string()),
        modules: vec![
            CreateModuleDTO {
                title: "Hulls".to_string(),
                order: None,
                lessons: vec![lesson("planking"), lesson("caulking")],
            },
            CreateModuleDTO {
                title: "Rigging".to_string(),
                order: None,
                lessons: vec![lesson("knots")],
            },
        ],
    }
}

#[test]
fn created_course_serves_its_full_tree() {
    let mut store = Store::new();
    let cid = store.create_course(two_module_course(), 500).unwrap();
    let tree = store.get_course_with_videos(cid).unwrap();
    assert_eq!(tree.title, "Shipbuilding");
    assert_eq!(tree.students, 0);
    assert_eq!(tree.rating_tenths, 50);
    assert_eq!(tree.modules.len(), 2);
    assert_eq!(tree.modules[0].title, "Hulls");
    assert_eq!(tree.modules[0].order, 1);
    assert_eq!(tree.modules[0].lessons.len(), 2);
    assert_eq!(tree.modules[0].lessons[0].title, "planking");
    assert_eq!(tree.modules[0].lessons[0].order, 1);
    assert_eq!(tree.modules[0].lessons[1].order, 2);
    assert_eq!(tree.modules[1].title, "Rigging");
    assert_eq!(tree.modules[1].order, 2);
    assert_eq!(tree.modules[1].lessons.len(), 1);
    // A second course under the same title is refused.
    let dup = store.create_course(two_module_course(), 600);
    assert_eq!(
        dup.unwrap_err(),
        course_engine::errors::ErrorMessage::CourseAlreadyExists
    );
    assert_eq!(store.get_course_count(), 1);
}

#[test]
fn course_listing_and_update() {
    let mut store = Store::new();
    let cid = store.create_course(two_module_course(), 500).unwrap();
    let all = store.get_all_courses_with_modules();
    assert_eq!(all.len(), 1);
    assert_eq!(all[0].id, cid);

    let update = UpdateCourseDTO {
        title: None,
        description: None,
        long_description: None,
        level: None,
        price_cents: Some(99_00),
        duration: None,
        students: None,
        rating_tenths: Some(47),
        image: None,
        category: None,
        features: None,
        modules: None,
    };
    let served = store.update_course(cid, update, 900).unwrap();
    assert_eq!(served.price_cents, 99_00);
    assert_eq!(served.rating_tenths, 47);
    assert_eq!(served.title, "Shipbuilding");
    assert_eq!(served.updated_at, 900);
    assert_eq!(served.modules.len(), 2);

    let missing = UpdateCourseDTO {
        title: None,
        description: None,
        long_description: None,
        level: None,
        price_cents: None,
        duration: None,
        students: None,
        rating_tenths: None,
        image: None,
        category: None,
        features: None,
        modules: None,
    };
    assert_eq!(
        store.update_course(9_999, missing, 901).unwrap_err(),
        course_engine::errors::ErrorMessage::CourseNotFound
    );
}

#[test]
fn update_request_describes_a_course() {
    let mut store = Store::new();
    let cid = store.create_course(two_module_course(), 500).unwrap();
    let course = store.get_course(cid).unwrap();
    let echo = UpdateCourseDTO {
        title: Some(course.title.clone()),
        description: Some(course.description.clone()),
        long_description: course.long_description.clone(),
        level: Some(course.level.clone()),
        price_cents: Some(course.price_cents),
        duration: course.duration.clone(),
        students: Some(course.students),
        rating_tenths: Some(course.rating_tenths),
        image: course.image.clone(),
        category: Some(course.category.clone()),
        features: course.features.clone(),
        modules: None,
    };
    assert!(echo.matches_course(&course));
    let mut other = echo;
    other.price_cents = Some(1);
    assert!(!other.matches_course(&course));
}

#[test]
fn deleting_a_course_drops_its_tree() {
    let mut store = Store::new();
    let cid = store.create_course(two_module_course(), 500).unwrap();
    let mut second = two_module_course();
    second.title = "Navigation".to_string();
    let other = store.create_course(second, 600).unwrap();
    store.delete_course(cid).unwrap();
    assert!(store.get_course(cid).is_none());
    assert!(store.get_course_with_videos(cid).is_none());
    // The other course's tree is untouched.
    let tree = store.get_course_with_videos(other).unwrap();
    assert_eq!(tree.modules.len(), 2);
    assert_eq!(tree.modules[0].lessons.len(), 2);
}

#[test]
fn profile_gathers_courses_and_achievements() {
    let mut store = Store::new();
    let user = store
        .save_user(
            "P".to_string(),
            "p@example.com".to_string(),
            "pw".to_string(),
            "t".to_string(),
            None,
            None,
            10,
        )
        .unwrap();
    let cid = store.create_course(two_module_course(), 20).unwrap();
    store
        .register_course_purchase(
            user.id,
            cid,
            "TX".to_string(),
            125_50,
            "paypal".to_string(),
            "completed".to_string(),
            30,
        )
        .unwrap();
    let a = store.create_achievement(
        "Joined".to_string(),
        None,
        None,
        course_engine::model::TriggerKind::EnrollmentCount,
        1,
        true,
        40,
    );
    store.check_and_award_achievements(
        user.id,
        course_engine::model::TriggerKind::EnrollmentCount,
        None,
        50,
    );
    let profile = get_user_profile_flow(&store, &user);
    assert_eq!(profile.status, "success");
    assert_eq!(profile.data.user.email.as_deref(), Some("p@example.com"));
    assert_eq!(profile.data.courses.len(), 1);
    assert_eq!(profile.data.courses[0].title.as_deref(), Some("Shipbuilding"));
    assert_eq!(
        profile.data.courses[0].features,
        Some(vec!["keel".to_string(), "mast".to_string()])
    );
    assert_eq!(profile.data.achievements.len(), 1);
    assert_eq!(profile.data.achievements[0].title.as_deref(), Some("Joined"));
    assert_eq!(profile.data.achievements[0].id.as_deref(), Some(u64_to_string(a.id).as_str()));
}

#[test]
fn course_filter_parses_features_and_degrades() {
    let mut store = Store::new();
    let cid = store.create_course(two_module_course(), 500).unwrap();
    let course = store.get_course(cid).unwrap();
    let f = FilterCourseDto::filter_course(&course);
    assert_eq!(f.features, Some(vec!["keel".to_string(), "mast".to_string()]));

    // A stored features text that is not a JSON string list degrades
    // to nothing rather than an error.
    let mut broken = two_module_course();
    broken.title = "Sailmaking".to_string();
    broken.features = Some("not json".to_string());
    let cid2 = store.create_course(broken, 600).unwrap();
    let course2 = store.get_course(cid2).unwrap();
    let f2 = FilterCourseDto::filter_course(&course2);
    assert_eq!(f2.features, None);

    // Absent features stay absent.
    let mut bare = two_module_course();
    bare.title = "Caulking".to_string();
    bare.features = None;
    let cid3 = store.create_course(bare, 700).unwrap();
    let f3 = FilterCourseDto::filter_course(&store.get_course(cid3).unwrap());
    assert_eq!(f3.features, None);
}

#[test]
fn order_request_carries_exact_amount() {
    let mut store = Store::new();
    let cid = store.create_course(two_module_course(), 500).unwrap();
    let course = store.get_course(cid).unwrap();
    let order = build_order_request(&course, 42);
    assert_eq!(order.amount_value, "125.50");
    assert_eq!(order.custom_id, "42");
    assert_eq!(order.invoice_id, u64_to_string(cid));
    assert_eq!(order.item_name, "Shipbuilding");
    assert_eq!(order.sku.as_deref(), Some("PROD-7"));
}

#[test]
fn product_response_yields_its_id() {
    assert_eq!(
        product_id_of_response(br#"{"id":"PROD-99","name":"x"}"#).unwrap(),
        "PROD-99"
    );
    assert_eq!(
        product_id_of_response(br#"{"name":"x"}"#).unwrap_err(),
        course_engine::errors::ErrorMessage::ProviderUnavailable
    );
}

#[test]
fn decimal_rendering_is_exact() {
    assert_eq!(u64_to_string(0), "0");
    assert_eq!(u64_to_string(7), "7");
    assert_eq!(u64_to_string(1234567890), "1234567890");
    assert_eq!(u64_to_string(u64::MAX), "18446744073709551615");
    assert_eq!(format_usd(5), "0.05");
    assert_eq!(format_usd(1999), "19.99");
    assert_eq!(format_usd(120000), "1200.00");
}

#[test]
fn small_string_builders() {
    assert_eq!(
        create_verification_link("https://example.test/verify", "abc123"),
        "https://example.test/verify?token=abc123"
    );
    assert_eq!(auth_header_value("tok"), "Bearer tok");
    assert!(str_eq("same", "same"));
    assert!(!str_eq("same", "other"));
}

#[test]
fn error_messages_read_as_documented() {
    assert_eq!(ErrorMessage::WrongCredentials.to_str(), "Email or password is wrong");
    assert_eq!(
        ErrorMessage::UserNoLongerExist.to_str(),
        "User belonging to this token no longer exists"
    );
    assert_eq!(ErrorMessage::CourseNotFound.to_str(), "Course not found");
    let e = HttpError::not_found("gone".to_string());
    assert_eq!(e.status, 404);
    let body = e.to_error_response();
    assert_eq!(body.status, "fail");
    assert_eq!(body.message, "gone");
    assert_eq!(HttpError::unauthorized("no".to_string()).status, 401);
}

#[test]
fn notifications_lifecycle() {
    let mut store = Store::new();
    let user = store
        .save_user(
            "N".to_string(),
            "n@example.com".to_string(),
            "pw".to_string(),
            "t".to_string(),
            None,
            None,
            10,
        )
        .unwrap();
    let n = store.create_notification(
        user.id,
        "Welcome".to_string(),
        "hello".to_string(),
        "email".to_string(),
        20,
    );
    assert!(!n.read);
    store.mark_notification_read(n.id).unwrap();
    let list = store.get_user_notifications(user.id);
    assert_eq!(list.len(), 1);
    assert!(list[0].read);
}

#[test]
fn subscription_plan_lifecycle() {
    let mut store = Store::new();
    let plan = store.create_subscription_plan(
        "Monthly".to_string(),
        None,
        9_99,
        1,
        None,
        Some("P-1".to_string()),
    );
    assert!(plan.active);
    let updated = store
        .update_subscription_plan(plan.id, None, None, Some(14_99), None, None, None, Some(false))
        .unwrap();
    assert_eq!(updated.price_cents, 14_99);
    assert!(!updated.active);
    store.delete_subscription_plan(plan.id).unwrap();
    assert!(store.get_subscription_plans().is_empty());
}

#[test]
fn dto_validation_rules() {
    let bad = course_engine::dtos::LoginDTO { email: String::new(), password: "secret".to_string() };
    assert!(bad.validate().is_err());
    let short =
        course_engine::dtos::LoginDTO { email: "a@b.c".to_string(), password: "12345".to_string() };
    assert!(short.validate().is_err());
    let good = course_engine::dtos::LoginDTO {
        email: "a@b.c".to_string(),
        password: "123456".to_string(),
    };
    assert!(good.validate().is_ok());
    assert!(NameUpdateDTO { name: String::new() }.validate().is_err());
    assert!(RequestQueryDto { page: Some(0), limit: None }.validate().is_err());
    assert!(RequestQueryDto { page: Some(1), limit: Some(50) }.validate().is_ok());
    assert!(RequestQueryDto { page: None, limit: Some(51) }.validate().is_err());
}

#[test]
fn filtered_user_hides_credentials() {
    let mut store = Store::new();
    let user = store
        .save_user(
            "F".to_string(),
            "f@example.com".to_string(),
            "hash".to_string(),
            "tok".to_string(),
            None,
            None,
            10,
        )
        .unwrap();
    let f: FilterUserDto = FilterUserDto::filter_user(&user);
    assert_eq!(f.id.as_deref(), Some(u64_to_string(user.id).as_str()));
    assert_eq!(f.email.as_deref(), Some("f@example.com"));
    assert_eq!(f.verified, Some(false));
}
