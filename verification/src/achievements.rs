//! The achievement engine: evaluates numeric triggers against the
//! catalog of achievement definitions and grants each achievement to an
//! account at most once.
//!
//! The award itself is an atomic conditional upsert
//! (`ua_after_award`): it marks a pair earned only if it was not
//! already, and reports whether it did. Across any sequence of calls
//! for one (account, achievement) pair, exactly the first call that
//! finds the pair unearned reports "newly awarded"; the proofs at the
//! bottom state that, and that `earned` only ever moves from false to
//! true.

use vstd::prelude::*;

use crate::errors::ErrorMessage;
use crate::model::Achievement;
use crate::model::EngagementStats;
use crate::model::TriggerKind;
use crate::model::UserAchievement;
use crate::progress::count_completed_lessons;
use crate::progress::count_course_lessons;
use crate::progress::lesson_completed_by;
use crate::store::Store;

verus! {

/// Whether an award row is keyed by this (account, achievement).
pub open spec fn ua_matches(row: UserAchievement, user_id: u64, achievement_id: u64) -> bool {
    row.user_id == user_id && row.achievement_id == achievement_id
}

/// The stored award row of this pair, if one exists.
pub open spec fn ua_lookup(ua: Seq<UserAchievement>, user_id: u64, achievement_id: u64) -> Option<
    UserAchievement,
> {
    if exists|p: int| 0 <= p < ua.len() && #[trigger] ua_matches(ua[p], user_id, achievement_id) {
        Some(
            ua[choose|p: int|
                0 <= p < ua.len() && #[trigger] ua_matches(ua[p], user_id, achievement_id)],
        )
    } else {
        None
    }
}

/// The account has earned the achievement.
pub open spec fn earned(ua: Seq<UserAchievement>, user_id: u64, achievement_id: u64) -> bool {
    exists|p: int|
        0 <= p < ua.len() && #[trigger] ua_matches(ua[p], user_id, achievement_id) && ua[p].earned
}

/// The award row after one conditional award: an already-earned row is
/// left exactly as it is, anything else becomes earned now.
pub open spec fn award_row_after(
    prev: Option<UserAchievement>,
    user_id: u64,
    achievement_id: u64,
    now: i64,
) -> UserAchievement {
    match prev {
        Some(r) => if r.earned {
            r
        } else {
            UserAchievement { user_id, achievement_id, earned: true, earned_at: Some(now) }
        },
        None => UserAchievement { user_id, achievement_id, earned: true, earned_at: Some(now) },
    }
}

/// The award table after one atomic conditional award of the pair.
pub open spec fn ua_after_award(
    ua: Seq<UserAchievement>,
    user_id: u64,
    achievement_id: u64,
    now: i64,
) -> Seq<UserAchievement> {
    let row = award_row_after(ua_lookup(ua, user_id, achievement_id), user_id, achievement_id, now);
    if exists|p: int| 0 <= p < ua.len() && #[trigger] ua_matches(ua[p], user_id, achievement_id) {
        ua.update(
            choose|p: int|
                0 <= p < ua.len() && #[trigger] ua_matches(ua[p], user_id, achievement_id),
            row,
        )
    } else {
        ua.push(row)
    }
}

/// An achievement definition that the metric satisfies.
pub open spec fn candidate(a: Achievement, kind: TriggerKind, metric: int) -> bool {
    a.active && a.trigger == kind && a.threshold <= metric
}

/// The whole engine pass over a catalog: each satisfied definition is
/// conditionally awarded in catalog order, and the identifiers of the
/// definitions that were newly awarded are collected in order.
pub open spec fn run_awards(
    achs: Seq<Achievement>,
    ua: Seq<UserAchievement>,
    user_id: u64,
    kind: TriggerKind,
    metric: int,
    now: i64,
) -> (Seq<UserAchievement>, Seq<u64>)
    decreases achs.len(),
{
    if achs.len() == 0 {
        (ua, Seq::<u64>::empty())
    } else {
        let prev = run_awards(achs.drop_last(), ua, user_id, kind, metric, now);
        let a = achs.last();
        if candidate(a, kind, metric) {
            (
                ua_after_award(prev.0, user_id, a.id, now),
                if !earned(prev.0, user_id, a.id) {
                    prev.1.push(a.id)
                } else {
                    prev.1
                },
            )
        } else {
            prev
        }
    }
}

impl Store {
    /// The index of the award row keyed (account, achievement), if any.
    fn find_user_achievement(&self, user_id: u64, achievement_id: u64) -> (r: Option<usize>)
        ensures
            match r {
                Some(i) => i < self.user_achievements@.len() && ua_matches(
                    self.user_achievements@[i as int],
                    user_id,
                    achievement_id,
                ),
                None => forall|j: int|
                    0 <= j < self.user_achievements@.len() ==> !ua_matches(
                        self.user_achievements@[j],
                        user_id,
                        achievement_id,
                    ),
            },
    {
        let mut i: usize = 0;
        while i < self.user_achievements.len()
            invariant
                i <= self.user_achievements@.len(),
                forall|j: int|
                    0 <= j < i ==> !ua_matches(
                        self.user_achievements@[j],
                        user_id,
                        achievement_id,
                    ),
            decreases self.user_achievements@.len() - i,
        {
            if self.user_achievements[i].user_id == user_id
                && self.user_achievements[i].achievement_id == achievement_id {
                return Some(i);
            }
            i = i + 1;
        }
        None
    }

    /// The index of the achievement definition with this id, if any.
    pub fn find_achievement_by_id(&self, id: u64) -> (r: Option<usize>)
        ensures
            match r {
                Some(i) => i < self.achievements@.len() && self.achievements@[i as int].id == id,
                None => forall|j: int|
                    0 <= j < self.achievements@.len() ==> self.achievements@[j].id != id,
            },
    {
        let mut i: usize = 0;
        while i < self.achievements.len()
            invariant
                i <= self.achievements@.len(),
                forall|j: int| 0 <= j < i ==> self.achievements@[j].id != id,
            decreases self.achievements@.len() - i,
        {
            if self.achievements[i].id == id {
                return Some(i);
            }
            i = i + 1;
        }
        None
    }

    /// Whether the account has earned the achievement.
    pub fn has_user_earned(&self, user_id: u64, achievement_id: u64) -> (r: bool)
        requires
            self.wf(),
        ensures
            r == earned(self.user_achievements@, user_id, achievement_id),
    {
        match self.find_user_achievement(user_id, achievement_id) {
            Some(i) => {
                let e = self.user_achievements[i].earned;
                proof {
                    if !e {
                        assert(!earned(self.user_achievements@, user_id, achievement_id));
                    }
                }
                e
            },
            None => false,
        }
    }

    /// The atomic conditional award: marks the pair earned unless it
    /// already was, and reports whether this call newly awarded it.
    /// This is the write on which the at-most-once guarantee rests.
    pub fn award_achievement(&mut self, user_id: u64, achievement_id: u64, now: i64) -> (newly:
        bool)
        requires
            old(self).wf(),
        ensures
            final(self).wf(),
            crate::store::same_but_user_achievements(*old(self), *final(self)),
            final(self).next_id == old(self).next_id,
            newly == !earned(old(self).user_achievements@, user_id, achievement_id),
            final(self).user_achievements@ == ua_after_award(
                old(self).user_achievements@,
                user_id,
                achievement_id,
                now,
            ),
            earned(final(self).user_achievements@, user_id, achievement_id),
    {
        let prev_idx = self.find_user_achievement(user_id, achievement_id);
        match prev_idx {
            Some(p) => {
                let prev = self.user_achievements[p];
                let newly = !prev.earned;
                let row = if prev.earned {
                    prev
                } else {
                    UserAchievement { user_id, achievement_id, earned: true, earned_at: Some(now) }
                };
                self.user_achievements[p] = row;
                proof {
                    let q = choose|q: int|
                        0 <= q < old(self).user_achievements@.len() && #[trigger] ua_matches(
                            old(self).user_achievements@[q],
                            user_id,
                            achievement_id,
                        );
                    assert(q == p as int);
                    assert(self.user_achievements@ =~= ua_after_award(
                        old(self).user_achievements@,
                        user_id,
                        achievement_id,
                        now,
                    ));
                    assert(ua_matches(self.user_achievements@[p as int], user_id, achievement_id)
                        && self.user_achievements@[p as int].earned);
                    if !newly {
                        assert(earned(old(self).user_achievements@, user_id, achievement_id));
                    } else {
                        assert(!earned(old(self).user_achievements@, user_id, achievement_id));
                    }
                }
                newly
            },
            None => {
                let row = UserAchievement {
                    user_id,
                    achievement_id,
                    earned: true,
                    earned_at: Some(now),
                };
                self.user_achievements.push(row);
                proof {
                    assert(self.user_achievements@ =~= ua_after_award(
                        old(self).user_achievements@,
                        user_id,
                        achievement_id,
                        now,
                    ));
                    let p = self.user_achievements@.len() - 1;
                    assert(ua_matches(self.user_achievements@[p], user_id, achievement_id)
                        && self.user_achievements@[p].earned);
                    assert(!earned(old(self).user_achievements@, user_id, achievement_id));
                }
                true
            },
        }
    }
}

/// The course counts as fully completed by the account: it has lessons
/// and every one of them is completed.
pub open spec fn course_fully_completed(
    lessons: Seq<crate::model::Lesson>,
    modules: Seq<crate::model::Module>,
    lp: Seq<crate::model::LessonProgress>,
    user_id: u64,
    course_id: u64,
) -> bool {
    let total = count_course_lessons(lessons, modules, course_id);
    total > 0 && count_completed_lessons(lessons, modules, lp, user_id, course_id) == total
}

/// How many distinct courses the account has fully completed.
pub open spec fn count_completed_courses(
    courses: Seq<crate::model::Course>,
    lessons: Seq<crate::model::Lesson>,
    modules: Seq<crate::model::Module>,
    lp: Seq<crate::model::LessonProgress>,
    user_id: u64,
) -> int
    decreases courses.len(),
{
    if courses.len() == 0 {
        0
    } else {
        count_completed_courses(courses.drop_last(), lessons, modules, lp, user_id) + (
        if course_fully_completed(lessons, modules, lp, user_id, courses.last().id) {
            1int
        } else {
            0int
        })
    }
}

/// How many lessons the account has completed, across all courses.
pub open spec fn count_lessons_done(
    lessons: Seq<crate::model::Lesson>,
    lp: Seq<crate::model::LessonProgress>,
    user_id: u64,
) -> int
    decreases lessons.len(),
{
    if lessons.len() == 0 {
        0
    } else {
        count_lessons_done(lessons.drop_last(), lp, user_id) + (
        if lesson_completed_by(lp, user_id, lessons.last().id) {
            1int
        } else {
            0int
        })
    }
}

/// How many distinct courses the account is enrolled in.
pub open spec fn count_enrollments(uc: Seq<crate::model::UserCourse>, user_id: u64) -> int
    decreases uc.len(),
{
    if uc.len() == 0 {
        0
    } else {
        count_enrollments(uc.drop_last(), user_id) + (
        if uc.last().user_id == user_id {
            1int
        } else {
            0int
        })
    }
}

/// The stored engagement counters of the account, if any.
pub open spec fn stats_lookup(stats: Seq<EngagementStats>, user_id: u64) -> Option<
    EngagementStats,
> {
    if exists|p: int| 0 <= p < stats.len() && #[trigger] stats[p].user_id == user_id {
        Some(stats[choose|p: int| 0 <= p < stats.len() && #[trigger] stats[p].user_id == user_id])
    } else {
        None
    }
}

/// The account's current metric for a trigger kind: a dedicated
/// aggregate per kind, with the generic fallback taking the caller's
/// value and defaulting to one.
pub open spec fn metric_of(s: Store, user_id: u64, kind: TriggerKind, value: Option<u64>) -> int {
    match kind {
        TriggerKind::CourseCompletedCount => count_completed_courses(
            s.courses@,
            s.lessons@,
            s.modules@,
            s.lesson_progress@,
            user_id,
        ),
        TriggerKind::LessonCompletedCount => count_lessons_done(
            s.lessons@,
            s.lesson_progress@,
            user_id,
        ),
        TriggerKind::EnrollmentCount => count_enrollments(s.user_courses@, user_id),
        TriggerKind::CommentCount => match stats_lookup(s.stats@, user_id) {
            Some(st) => st.comments_authored as int,
            None => 0,
        },
        TriggerKind::LoginStreakCount => match stats_lookup(s.stats@, user_id) {
            Some(st) => st.login_streak as int,
            None => 0,
        },
        TriggerKind::Generic => match value {
            Some(v) => v as int,
            None => 1,
        },
    }
}

impl Store {
    /// The index of the engagement counters of the account, if any.
    fn find_stats(&self, user_id: u64) -> (r: Option<usize>)
        ensures
            match r {
                Some(i) => i < self.stats@.len() && self.stats@[i as int].user_id == user_id,
                None => forall|j: int|
                    0 <= j < self.stats@.len() ==> self.stats@[j].user_id != user_id,
            },
    {
        let mut i: usize = 0;
        while i < self.stats.len()
            invariant
                i <= self.stats@.len(),
                forall|j: int| 0 <= j < i ==> self.stats@[j].user_id != user_id,
            decreases self.stats@.len() - i,
        {
            if self.stats[i].user_id == user_id {
                return Some(i);
            }
            i = i + 1;
        }
        None
    }

    /// How many lessons the account has completed, across all courses.
    pub fn lessons_done_count(&self, user_id: u64) -> (r: u64)
        requires
            self.wf(),
        ensures
            r == count_lessons_done(self.lessons@, self.lesson_progress@, user_id),
    {
        let mut done: u64 = 0;
        let mut i: usize = 0;
        while i < self.lessons.len()
            invariant
                self.wf(),
                i <= self.lessons@.len(),
                done == count_lessons_done(
                    self.lessons@.take(i as int),
                    self.lesson_progress@,
                    user_id,
                ),
                done <= i,
            decreases self.lessons@.len() - i,
        {
            let ghost prefix = self.lessons@.take(i as int);
            let lesson_id = self.lessons[i].id;
            let is_done = match self.find_lesson_progress(user_id, lesson_id) {
                Some(p) => self.lesson_progress[p].completed,
                None => false,
            };
            proof {
                assert(self.lessons@.take(i + 1).drop_last() =~= prefix);
                assert(self.lessons@.take(i + 1).last() == self.lessons@[i as int]);
                if is_done {
                    assert(lesson_completed_by(
                        self.lesson_progress@,
                        user_id,
                        self.lessons@[i as int].id,
                    ));
                } else {
                    assert(!lesson_completed_by(
                        self.lesson_progress@,
                        user_id,
                        self.lessons@[i as int].id,
                    ));
                }
            }
            if is_done {
                done = done + 1;
            }
            i = i + 1;
        }
        proof {
            assert(self.lessons@.take(self.lessons@.len() as int) =~= self.lessons@);
        }
        done
    }

    /// How many distinct courses the account has fully completed.
    pub fn completed_courses_count(&self, user_id: u64) -> (r: u64)
        requires
            self.wf(),
        ensures
            r == count_completed_courses(
                self.courses@,
                self.lessons@,
                self.modules@,
                self.lesson_progress@,
                user_id,
            ),
    {
        let mut n: u64 = 0;
        let mut i: usize = 0;
        while i < self.courses.len()
            invariant
                self.wf(),
                i <= self.courses@.len(),
                n == count_completed_courses(
                    self.courses@.take(i as int),
                    self.lessons@,
                    self.modules@,
                    self.lesson_progress@,
                    user_id,
                ),
                n <= i,
            decreases self.courses@.len() - i,
        {
            let ghost prefix = self.courses@.take(i as int);
            let course_id = self.courses[i].id;
            let (total, done) = self.course_lesson_counts(user_id, course_id);
            proof {
                assert(self.courses@.take(i + 1).drop_last() =~= prefix);
                assert(self.courses@.take(i + 1).last() == self.courses@[i as int]);
            }
            if total > 0 && done == total {
                n = n + 1;
            }
            i = i + 1;
        }
        proof {
            assert(self.courses@.take(self.courses@.len() as int) =~= self.courses@);
        }
        n
    }

    /// How many distinct courses the account is enrolled in.
    pub fn enrollment_count(&self, user_id: u64) -> (r: u64)
        requires
            self.wf(),
        ensures
            r == count_enrollments(self.user_courses@, user_id),
    {
        let mut n: u64 = 0;
        let mut i: usize = 0;
        while i < self.user_courses.len()
            invariant
                i <= self.user_courses@.len(),
                n == count_enrollments(self.user_courses@.take(i as int), user_id),
                n <= i,
            decreases self.user_courses@.len() - i,
        {
            proof {
                assert(self.user_courses@.take(i + 1).drop_last() =~= self.user_courses@.take(
                    i as int,
                ));
                assert(self.user_courses@.take(i + 1).last() == self.user_courses@[i as int]);
            }
            if self.user_courses[i].user_id == user_id {
                n = n + 1;
            }
            i = i + 1;
        }
        proof {
            assert(self.user_courses@.take(self.user_courses@.len() as int)
                =~= self.user_courses@);
        }
        n
    }

    /// The account's current metric for a trigger kind.
    pub fn compute_metric(&self, user_id: u64, kind: TriggerKind, value: Option<u64>) -> (r: u64)
        requires
            self.wf(),
        ensures
            r == metric_of(*self, user_id, kind, value),
    {
        match kind {
            TriggerKind::CourseCompletedCount => self.completed_courses_count(user_id),
            TriggerKind::LessonCompletedCount => self.lessons_done_count(user_id),
            TriggerKind::EnrollmentCount => self.enrollment_count(user_id),
            TriggerKind::CommentCount => match self.find_stats(user_id) {
                Some(i) => self.stats[i].comments_authored,
                None => 0,
            },
            TriggerKind::LoginStreakCount => match self.find_stats(user_id) {
                Some(i) => self.stats[i].login_streak,
                None => 0,
            },
            TriggerKind::Generic => match value {
                Some(v) => v,
                None => 1,
            },
        }
    }

    /// One engine pass: computes the account's metric for the trigger
    /// kind, conditionally awards every active definition of that kind
    /// whose threshold the metric reaches, and returns exactly the
    /// identifiers of the definitions this call newly awarded.
    pub fn check_and_award_achievements(
        &mut self,
        user_id: u64,
        kind: TriggerKind,
        value: Option<u64>,
        now: i64,
    ) -> (r: Vec<u64>)
        requires
            old(self).wf(),
        ensures
            final(self).wf(),
            crate::store::same_but_user_achievements(*old(self), *final(self)),
            final(self).next_id == old(self).next_id,
            ({
                let out = run_awards(
                    old(self).achievements@,
                    old(self).user_achievements@,
                    user_id,
                    kind,
                    metric_of(*old(self), user_id, kind, value),
                    now,
                );
                &&& final(self).user_achievements@ == out.0
                &&& r@ == out.1
            }),
    {
        let metric = self.compute_metric(user_id, kind, value);
        let ghost m = metric_of(*old(self), user_id, kind, value);
        let mut ids: Vec<u64> = Vec::new();
        let n = self.achievements.len();
        let mut i: usize = 0;
        while i < n
            invariant
                old(self).wf(),
                self.wf(),
                crate::store::same_but_user_achievements(*old(self), *self),
                self.next_id == old(self).next_id,
                n == self.achievements@.len(),
                i <= n,
                metric == m,
                ({
                    let out = run_awards(
                        old(self).achievements@.take(i as int),
                        old(self).user_achievements@,
                        user_id,
                        kind,
                        m,
                        now,
                    );
                    &&& self.user_achievements@ == out.0
                    &&& ids@ == out.1
                }),
            decreases n - i,
        {
            let ghost prefix = old(self).achievements@.take(i as int);
            let a_id = self.achievements[i].id;
            let a_active = self.achievements[i].active;
            let a_trigger = self.achievements[i].trigger;
            let a_threshold = self.achievements[i].threshold;
            proof {
                assert(old(self).achievements@.take(i + 1).drop_last() =~= prefix);
                assert(old(self).achievements@.take(i + 1).last() == old(self).achievements@[
                    i as int]);
                assert(self.achievements@[i as int] == old(self).achievements@[i as int]);
            }
            if a_active && a_trigger == kind && a_threshold <= metric {
                let newly = self.award_achievement(user_id, a_id, now);
                if newly {
                    ids.push(a_id);
                }
            }
            i = i + 1;
        }
        proof {
            assert(old(self).achievements@.take(n as int) =~= old(self).achievements@);
        }
        ids
    }
}

/// The achievement definition with this id, if any.
pub open spec fn ach_by_id(achs: Seq<Achievement>, id: u64) -> Option<Achievement> {
    if exists|p: int| 0 <= p < achs.len() && #[trigger] achs[p].id == id {
        Some(achs[choose|p: int| 0 <= p < achs.len() && #[trigger] achs[p].id == id])
    } else {
        None
    }
}

/// The achievements of a catalog that the account has earned, in
/// catalog order.
pub open spec fn earned_achievements(
    achs: Seq<Achievement>,
    ua: Seq<UserAchievement>,
    user_id: u64,
) -> Seq<Achievement>
    decreases achs.len(),
{
    if achs.len() == 0 {
        Seq::<Achievement>::empty()
    } else {
        let prefix = earned_achievements(achs.drop_last(), ua, user_id);
        if earned(ua, user_id, achs.last().id) {
            prefix.push(achs.last())
        } else {
            prefix
        }
    }
}

/// The trigger kind a request tag names; anything unknown falls back
/// to the generic kind, which takes the caller-supplied value.
pub open spec fn trigger_kind_of(s: Seq<char>) -> TriggerKind {
    if s == "course_completed"@ {
        TriggerKind::CourseCompletedCount
    } else if s == "lesson_completed"@ {
        TriggerKind::LessonCompletedCount
    } else if s == "enrollment"@ {
        TriggerKind::EnrollmentCount
    } else if s == "comment"@ {
        TriggerKind::CommentCount
    } else if s == "login_streak"@ {
        TriggerKind::LoginStreakCount
    } else {
        TriggerKind::Generic
    }
}

/// Parses a trigger tag.
pub fn trigger_kind_from_str(s: &str) -> (r: TriggerKind)
    ensures
        r == trigger_kind_of(s@),
{
    if crate::strutil::str_eq(s, "course_completed") {
        TriggerKind::CourseCompletedCount
    } else if crate::strutil::str_eq(s, "lesson_completed") {
        TriggerKind::LessonCompletedCount
    } else if crate::strutil::str_eq(s, "enrollment") {
        TriggerKind::EnrollmentCount
    } else if crate::strutil::str_eq(s, "comment") {
        TriggerKind::CommentCount
    } else if crate::strutil::str_eq(s, "login_streak") {
        TriggerKind::LoginStreakCount
    } else {
        TriggerKind::Generic
    }
}

/// An account's aggregated achievement-relevant counters.
#[derive(Debug, Clone, Copy, PartialEq)]
pub struct UserStats {
    pub courses_completed: u64,
    pub lessons_completed: u64,
    pub enrollments: u64,
    pub comments_authored: u64,
    pub login_streak: u64,
}

impl Store {
    /// Creates an achievement definition.
    pub fn create_achievement(
        &mut self,
        name: String,
        description: Option<String>,
        icon: Option<String>,
        trigger: TriggerKind,
        threshold: u64,
        active: bool,
        now: i64,
    ) -> (r: Achievement)
        requires
            old(self).wf(),
            old(self).next_id < u64::MAX,
        ensures
            final(self).wf(),
            crate::store::same_but_achievements(*old(self), *final(self)),
            final(self).next_id == old(self).next_id + 1,
            r == (Achievement {
                id: old(self).next_id,
                name,
                description,
                icon,
                trigger,
                threshold,
                active,
                created_at: now,
            }),
            final(self).achievements@ == old(self).achievements@.push(r),
    {
        let a = Achievement {
            id: self.next_id,
            name,
            description,
            icon,
            trigger,
            threshold,
            active,
            created_at: now,
        };
        self.next_id = self.next_id + 1;
        let out = a.clone();
        self.achievements.push(a);
        out
    }

    /// One page of achievement definitions, newest first.
    pub fn get_achievements(&self, page: u32, limit: usize) -> (r: Vec<Achievement>)
        requires
            page >= 1,
        ensures
            ({
                let len = self.achievements@.len() as int;
                let off = (page - 1) as int * limit as int;
                &&& r@.len() == (if off >= len {
                    0int
                } else if off + limit as int <= len {
                    limit as int
                } else {
                    len - off
                })
                &&& forall|k: int|
                    0 <= k < r@.len() ==> #[trigger] r@[k] == self.achievements@[len - 1 - off - k]
            }),
    {
        let len = self.achievements.len();
        proof {
            assert((page - 1) as int * limit as int <= 0xFFFF_FFFFint * 0xFFFF_FFFF_FFFF_FFFFint)
                by (nonlinear_arith)
                requires
                    0 <= (page - 1) as int <= 0xFFFF_FFFFint,
                    0 <= limit as int <= 0xFFFF_FFFF_FFFF_FFFFint,
            ;
        }
        let off128: u128 = (page - 1) as u128 * limit as u128;
        let mut r: Vec<Achievement> = Vec::new();
        if off128 >= len as u128 {
            return r;
        }
        let off: usize = off128 as usize;
        let count: usize = if limit <= len - off {
            limit
        } else {
            len - off
        };
        let mut k: usize = 0;
        while k < count
            invariant
                count <= len - off,
                len == self.achievements@.len(),
                off == (page - 1) as int * limit as int,
                k <= count,
                r@.len() == k as int,
                forall|j: int|
                    0 <= j < k ==> #[trigger] r@[j] == self.achievements@[len as int - 1 - off - j],
            decreases count - k,
        {
            r.push(self.achievements[len - 1 - off - k].clone());
            k = k + 1;
        }
        r
    }

    /// The achievement definition with this id.
    pub fn get_achievement(&self, achievement_id: u64) -> (r: Option<Achievement>)
        requires
            self.wf(),
        ensures
            r == ach_by_id(self.achievements@, achievement_id),
    {
        match self.find_achievement_by_id(achievement_id) {
            Some(i) => {
                proof {
                    let q = choose|p: int|
                        0 <= p < self.achievements@.len() && #[trigger] self.achievements@[p].id
                            == achievement_id;
                    assert(q == i as int);
                }
                Some(self.achievements[i].clone())
            },
            None => None,
        }
    }

    /// Applies a partial update to an achievement definition.
    pub fn update_achievement(
        &mut self,
        achievement_id: u64,
        name: Option<String>,
        description: Option<String>,
        icon: Option<String>,
        trigger: Option<TriggerKind>,
        threshold: Option<u64>,
        active: Option<bool>,
    ) -> (r: Result<Achievement, ErrorMessage>)
        requires
            old(self).wf(),
        ensures
            final(self).wf(),
            crate::store::same_but_achievements(*old(self), *final(self)),
            final(self).next_id == old(self).next_id,
            r is Err ==> r == Err::<Achievement, ErrorMessage>(ErrorMessage::NotFound)
                && *final(self) == *old(self) && ach_by_id(old(self).achievements@, achievement_id)
                is None,
            r matches Ok(a) ==> exists|i: int|
                {
                    &&& 0 <= i < old(self).achievements@.len()
                    &&& #[trigger] old(self).achievements@[i].id == achievement_id
                    &&& a == Achievement {
                        name: crate::store::coalesce(name, old(self).achievements@[i].name),
                        description: crate::store::coalesce_opt(
                            description,
                            old(self).achievements@[i].description,
                        ),
                        icon: crate::store::coalesce_opt(icon, old(self).achievements@[i].icon),
                        trigger: crate::store::coalesce(
                            trigger,
                            old(self).achievements@[i].trigger,
                        ),
                        threshold: crate::store::coalesce(
                            threshold,
                            old(self).achievements@[i].threshold,
                        ),
                        active: crate::store::coalesce(active, old(self).achievements@[i].active),
                        ..old(self).achievements@[i]
                    }
                    &&& final(self).achievements@ == old(self).achievements@.update(i, a)
                },
    {
        match self.find_achievement_by_id(achievement_id) {
            None => Err(ErrorMessage::NotFound),
            Some(i) => {
                let mut row = self.achievements[i].clone();
                row.name = match name {
                    Some(x) => x,
                    None => row.name,
                };
                row.description = match description {
                    Some(x) => Some(x),
                    None => row.description,
                };
                row.icon = match icon {
                    Some(x) => Some(x),
                    None => row.icon,
                };
                row.trigger = match trigger {
                    Some(x) => x,
                    None => row.trigger,
                };
                row.threshold = match threshold {
                    Some(x) => x,
                    None => row.threshold,
                };
                row.active = match active {
                    Some(x) => x,
                    None => row.active,
                };
                self.achievements[i] = row.clone();
                Ok(row)
            },
        }
    }

    /// Deletes an achievement definition; deleting a missing one is a
    /// no-op.
    pub fn delete_achievement(&mut self, achievement_id: u64) -> (r: Result<(), ErrorMessage>)
        requires
            old(self).wf(),
        ensures
            final(self).wf(),
            crate::store::same_but_achievements(*old(self), *final(self)),
            final(self).next_id == old(self).next_id,
            r is Ok,
            ach_by_id(old(self).achievements@, achievement_id) is None ==> *final(self) == *old(
                self,
            ),
            ach_by_id(old(self).achievements@, achievement_id) is Some ==> exists|i: int|
                {
                    &&& 0 <= i < old(self).achievements@.len()
                    &&& #[trigger] old(self).achievements@[i].id == achievement_id
                    &&& final(self).achievements@ == old(self).achievements@.remove(i)
                },
    {
        match self.find_achievement_by_id(achievement_id) {
            None => Ok(()),
            Some(i) => {
                proof {
                    assert(exists|p: int|
                        0 <= p < self.achievements@.len() && #[trigger] self.achievements@[p].id
                            == achievement_id);
                }
                self.achievements.remove(i);
                Ok(())
            },
        }
    }

    /// Assigns an achievement to an account without earning it; a
    /// second assignment of the same pair is refused by the pair's
    /// uniqueness rule.
    pub fn assign_achievement_to_user(&mut self, user_id: u64, achievement_id: u64) -> (r: Result<
        UserAchievement,
        ErrorMessage,
    >)
        requires
            old(self).wf(),
        ensures
            final(self).wf(),
            crate::store::same_but_user_achievements(*old(self), *final(self)),
            final(self).next_id == old(self).next_id,
            r is Err <==> ua_lookup(old(self).user_achievements@, user_id, achievement_id)
                is Some,
            r is Err ==> r == Err::<UserAchievement, ErrorMessage>(ErrorMessage::ServerError)
                && *final(self) == *old(self),
            r matches Ok(row) ==> row == (UserAchievement {
                user_id,
                achievement_id,
                earned: false,
                earned_at: None,
            }) && final(self).user_achievements@ == old(self).user_achievements@.push(row),
    {
        match self.find_user_achievement(user_id, achievement_id) {
            Some(_) => {
                proof {
                    assert(ua_lookup(self.user_achievements@, user_id, achievement_id) is Some);
                }
                Err(ErrorMessage::ServerError)
            },
            None => {
                let row = UserAchievement { user_id, achievement_id, earned: false, earned_at: None };
                self.user_achievements.push(row);
                Ok(row)
            },
        }
    }

    /// Marks an assigned achievement earned. An already-earned pair is
    /// a no-op that keeps its earning instant and reports "not newly
    /// earned"; awards are never re-stamped or reversed. A pair never
    /// assigned cannot be earned this way.
    pub fn earn_achievement(&mut self, user_id: u64, achievement_id: u64, now: i64) -> (r: Result<
        (UserAchievement, bool),
        ErrorMessage,
    >)
        requires
            old(self).wf(),
        ensures
            final(self).wf(),
            crate::store::same_but_user_achievements(*old(self), *final(self)),
            final(self).next_id == old(self).next_id,
            r is Err <==> ua_lookup(old(self).user_achievements@, user_id, achievement_id)
                is None,
            r is Err ==> r == Err::<(UserAchievement, bool), ErrorMessage>(ErrorMessage::NotFound)
                && *final(self) == *old(self),
            r matches Ok((row, newly)) ==> {
                &&& (ua_lookup(old(self).user_achievements@, user_id, achievement_id) matches Some(
                    prev,
                ) && row == award_row_after(Some(prev), user_id, achievement_id, now))
                &&& newly == !earned(old(self).user_achievements@, user_id, achievement_id)
                &&& final(self).user_achievements@ == ua_after_award(
                    old(self).user_achievements@,
                    user_id,
                    achievement_id,
                    now,
                )
                &&& earned(final(self).user_achievements@, user_id, achievement_id)
            },
    {
        match self.find_user_achievement(user_id, achievement_id) {
            None => Err(ErrorMessage::NotFound),
            Some(i) => {
                proof {
                    assert(ua_matches(
                        self.user_achievements@[i as int],
                        user_id,
                        achievement_id,
                    ));
                    let q = choose|q: int|
                        0 <= q < old(self).user_achievements@.len() && #[trigger] ua_matches(
                            old(self).user_achievements@[q],
                            user_id,
                            achievement_id,
                        );
                    assert(q == i as int);
                }
                let prev = self.user_achievements[i];
                if prev.earned {
                    // Already earned: the write is a no-op.
                    proof {
                        assert(earned(old(self).user_achievements@, user_id, achievement_id));
                        lemma_award_earned_is_noop(
                            old(self).user_achievements@,
                            user_id,
                            achievement_id,
                            now,
                        );
                    }
                    Ok((prev, false))
                } else {
                    let row = UserAchievement {
                        user_id,
                        achievement_id,
                        earned: true,
                        earned_at: Some(now),
                    };
                    self.user_achievements[i] = row;
                    proof {
                        let q = choose|q: int|
                            0 <= q < old(self).user_achievements@.len() && #[trigger] ua_matches(
                                old(self).user_achievements@[q],
                                user_id,
                                achievement_id,
                            );
                        assert(q == i as int);
                        assert(self.user_achievements@ =~= ua_after_award(
                            old(self).user_achievements@,
                            user_id,
                            achievement_id,
                            now,
                        ));
                        assert(ua_matches(self.user_achievements@[i as int], user_id,
                            achievement_id) && self.user_achievements@[i as int].earned);
                        if earned(old(self).user_achievements@, user_id, achievement_id) {
                            let p = choose|p: int|
                                0 <= p < old(self).user_achievements@.len() && #[trigger] ua_matches(
                                    old(self).user_achievements@[p],
                                    user_id,
                                    achievement_id,
                                ) && old(self).user_achievements@[p].earned;
                            assert(p == i as int);
                            assert(false);
                        }
                    }
                    Ok((row, true))
                }
            },
        }
    }

    /// The achievements the account has earned, in catalog order.
    pub fn get_user_achievements(&self, user_id: u64) -> (r: Vec<Achievement>)
        requires
            self.wf(),
        ensures
            r@ == earned_achievements(self.achievements@, self.user_achievements@, user_id),
    {
        let mut r: Vec<Achievement> = Vec::new();
        let mut i: usize = 0;
        while i < self.achievements.len()
            invariant
                self.wf(),
                i <= self.achievements@.len(),
                r@ == earned_achievements(
                    self.achievements@.take(i as int),
                    self.user_achievements@,
                    user_id,
                ),
            decreases self.achievements@.len() - i,
        {
            proof {
                assert(self.achievements@.take(i + 1).drop_last() =~= self.achievements@.take(
                    i as int,
                ));
                assert(self.achievements@.take(i + 1).last() == self.achievements@[i as int]);
            }
            let aid = self.achievements[i].id;
            if self.has_user_earned(user_id, aid) {
                r.push(self.achievements[i].clone());
            }
            i = i + 1;
        }
        proof {
            assert(self.achievements@.take(self.achievements@.len() as int)
                =~= self.achievements@);
        }
        r
    }

    /// The account's aggregated counters, one per trigger kind.
    pub fn get_user_stats(&self, user_id: u64) -> (r: UserStats)
        requires
            self.wf(),
        ensures
            r.courses_completed == metric_of(
                *self,
                user_id,
                TriggerKind::CourseCompletedCount,
                None,
            ),
            r.lessons_completed == metric_of(
                *self,
                user_id,
                TriggerKind::LessonCompletedCount,
                None,
            ),
            r.enrollments == metric_of(*self, user_id, TriggerKind::EnrollmentCount, None),
            r.comments_authored == metric_of(*self, user_id, TriggerKind::CommentCount, None),
            r.login_streak == metric_of(*self, user_id, TriggerKind::LoginStreakCount, None),
    {
        UserStats {
            courses_completed: self.compute_metric(
                user_id,
                TriggerKind::CourseCompletedCount,
                None,
            ),
            lessons_completed: self.compute_metric(
                user_id,
                TriggerKind::LessonCompletedCount,
                None,
            ),
            enrollments: self.compute_metric(user_id, TriggerKind::EnrollmentCount, None),
            comments_authored: self.compute_metric(user_id, TriggerKind::CommentCount, None),
            login_streak: self.compute_metric(user_id, TriggerKind::LoginStreakCount, None),
        }
    }

    /// Stores an account's engagement counters, replacing any previous
    /// ones.
    pub fn set_engagement_stats(
        &mut self,
        user_id: u64,
        comments_authored: u64,
        login_streak: u64,
    )
        requires
            old(self).wf(),
        ensures
            final(self).wf(),
            crate::store::same_but_stats(*old(self), *final(self)),
            final(self).next_id == old(self).next_id,
            crate::achievements::stats_lookup(final(self).stats@, user_id) == Some(
                EngagementStats { user_id, comments_authored, login_streak },
            ),
            forall|u2: u64|
                u2 != user_id ==> #[trigger] stats_lookup(final(self).stats@, u2) == stats_lookup(
                    old(self).stats@,
                    u2,
                ),
    {
        let row = EngagementStats { user_id, comments_authored, login_streak };
        match self.find_stats(user_id) {
            Some(i) => {
                self.stats[i] = row;
                proof {
                    assert(forall|a: int, b: int|
                        0 <= a < b < self.stats@.len() ==> self.stats@[a].user_id
                            != self.stats@[b].user_id);
                    assert(self.stats@[i as int].user_id == user_id);
                    let q = choose|p: int|
                        0 <= p < self.stats@.len() && #[trigger] self.stats@[p].user_id == user_id;
                    assert(q == i as int);
                    assert forall|u2: u64| u2 != user_id implies #[trigger] stats_lookup(
                        self.stats@,
                        u2,
                    ) == stats_lookup(old(self).stats@, u2) by {
                        lemma_stats_lookup_framed(old(self).stats@, self.stats@, user_id, u2);
                    }
                }
            },
            None => {
                self.stats.push(row);
                proof {
                    assert(forall|a: int, b: int|
                        0 <= a < b < self.stats@.len() ==> self.stats@[a].user_id
                            != self.stats@[b].user_id);
                    assert(self.stats@[self.stats@.len() - 1].user_id == user_id);
                    let q = choose|p: int|
                        0 <= p < self.stats@.len() && #[trigger] self.stats@[p].user_id == user_id;
                    assert(q == self.stats@.len() - 1);
                    assert forall|u2: u64| u2 != user_id implies #[trigger] stats_lookup(
                        self.stats@,
                        u2,
                    ) == stats_lookup(old(self).stats@, u2) by {
                        lemma_stats_lookup_framed(old(self).stats@, self.stats@, user_id, u2);
                    }
                }
            },
        }
    }
}

/// Rewriting or appending the counters of one account leaves every
/// other account's lookup unchanged, when each account has at most one
/// row.
proof fn lemma_stats_lookup_framed(
    pre: Seq<EngagementStats>,
    post: Seq<EngagementStats>,
    user_id: u64,
    u2: u64,
)
    requires
        u2 != user_id,
        forall|a: int, b: int| 0 <= a < b < pre.len() ==> pre[a].user_id != pre[b].user_id,
        post.len() >= pre.len(),
        forall|j: int| 0 <= j < pre.len() ==> #[trigger] post[j].user_id == pre[j].user_id,
        forall|j: int|
            0 <= j < pre.len() && pre[j].user_id != user_id ==> #[trigger] post[j] == pre[j],
        forall|j: int| pre.len() <= j < post.len() ==> #[trigger] post[j].user_id == user_id,
    ensures
        stats_lookup(post, u2) == stats_lookup(pre, u2),
{
    if exists|p: int| 0 <= p < pre.len() && #[trigger] pre[p].user_id == u2 {
        let p = choose|p: int| 0 <= p < pre.len() && #[trigger] pre[p].user_id == u2;
        assert(post[p].user_id == u2);
        let q = choose|q: int| 0 <= q < post.len() && #[trigger] post[q].user_id == u2;
        if q < pre.len() {
            assert(pre[q].user_id == u2);
            assert(q == p);
            assert(post[q] == pre[q]);
        } else {
            assert(post[q].user_id == user_id);
            assert(false);
        }
    } else {
        if exists|q: int| 0 <= q < post.len() && #[trigger] post[q].user_id == u2 {
            let q = choose|q: int| 0 <= q < post.len() && #[trigger] post[q].user_id == u2;
            if q < pre.len() {
                assert(pre[q].user_id == u2);
            }
            assert(false);
        }
    }
}

/// The account's award rows paired with their definitions, in award
/// order; a row whose definition was deleted is skipped.
pub open spec fn ua_with_details(
    ua: Seq<UserAchievement>,
    achs: Seq<Achievement>,
    user_id: u64,
) -> Seq<(UserAchievement, Achievement)>
    decreases ua.len(),
{
    if ua.len() == 0 {
        Seq::<(UserAchievement, Achievement)>::empty()
    } else {
        let prefix = ua_with_details(ua.drop_last(), achs, user_id);
        if ua.last().user_id == user_id {
            match ach_by_id(achs, ua.last().achievement_id) {
                Some(a) => prefix.push((ua.last(), a)),
                None => prefix,
            }
        } else {
            prefix
        }
    }
}

impl Store {
    /// The account's award rows, each with its full definition.
    pub fn get_user_achievements_with_details(&self, user_id: u64) -> (r: Vec<
        (UserAchievement, Achievement),
    >)
        requires
            self.wf(),
        ensures
            r@ == ua_with_details(self.user_achievements@, self.achievements@, user_id),
    {
        let mut r: Vec<(UserAchievement, Achievement)> = Vec::new();
        let mut i: usize = 0;
        while i < self.user_achievements.len()
            invariant
                self.wf(),
                i <= self.user_achievements@.len(),
                r@ == ua_with_details(
                    self.user_achievements@.take(i as int),
                    self.achievements@,
                    user_id,
                ),
            decreases self.user_achievements@.len() - i,
        {
            proof {
                assert(self.user_achievements@.take(i + 1).drop_last()
                    =~= self.user_achievements@.take(i as int));
                assert(self.user_achievements@.take(i + 1).last() == self.user_achievements@[
                    i as int]);
            }
            if self.user_achievements[i].user_id == user_id {
                let aid = self.user_achievements[i].achievement_id;
                match self.find_achievement_by_id(aid) {
                    Some(ai) => {
                        proof {
                            let q = choose|p: int|
                                0 <= p < self.achievements@.len()
                                    && #[trigger] self.achievements@[p].id == aid;
                            assert(q == ai as int);
                        }
                        r.push((self.user_achievements[i], self.achievements[ai].clone()));
                    },
                    None => {},
                }
            }
            i = i + 1;
        }
        proof {
            assert(self.user_achievements@.take(self.user_achievements@.len() as int)
                =~= self.user_achievements@);
        }
        r
    }
}

/// At most one award row per (account, achievement) pair: the
/// uniqueness rule the schema enforces on the award table.
pub open spec fn ua_pairs_unique(ua: Seq<UserAchievement>) -> bool {
    forall|i: int, j: int|
        0 <= i < j < ua.len() ==> !(ua[i].user_id == ua[j].user_id && ua[i].achievement_id
            == ua[j].achievement_id)
}

/// The ratchet: an award never takes any earned flag back. Whatever
/// pair is awarded, every pair that was earned stays earned.
pub proof fn lemma_award_preserves_earned(
    ua: Seq<UserAchievement>,
    user_id: u64,
    achievement_id: u64,
    now: i64,
    u2: u64,
    a2: u64,
)
    requires
        earned(ua, u2, a2),
    ensures
        earned(ua_after_award(ua, user_id, achievement_id, now), u2, a2),
{
    let ua2 = ua_after_award(ua, user_id, achievement_id, now);
    let p = choose|p: int| 0 <= p < ua.len() && #[trigger] ua_matches(ua[p], u2, a2) && ua[p].earned;
    if exists|q: int| 0 <= q < ua.len() && #[trigger] ua_matches(ua[q], user_id, achievement_id) {
        let q = choose|q: int|
            0 <= q < ua.len() && #[trigger] ua_matches(ua[q], user_id, achievement_id);
        if p == q {
            assert(ua_matches(ua2[q], u2, a2) && ua2[q].earned);
        } else {
            assert(ua_matches(ua2[p], u2, a2) && ua2[p].earned);
        }
    } else {
        assert(ua_matches(ua2[p], u2, a2) && ua2[p].earned);
    }
}

/// Awarding an already-earned pair changes nothing: the write is a
/// no-op, which is what lets it report "not newly awarded" safely.
pub proof fn lemma_award_earned_is_noop(
    ua: Seq<UserAchievement>,
    user_id: u64,
    achievement_id: u64,
    now: i64,
)
    requires
        ua_pairs_unique(ua),
        earned(ua, user_id, achievement_id),
    ensures
        ua_after_award(ua, user_id, achievement_id, now) == ua,
{
    let p = choose|p: int|
        0 <= p < ua.len() && #[trigger] ua_matches(ua[p], user_id, achievement_id) && ua[p].earned;
    let q = choose|q: int|
        0 <= q < ua.len() && #[trigger] ua_matches(ua[q], user_id, achievement_id);
    assert(q == p);
    assert(ua_lookup(ua, user_id, achievement_id) == Some(ua[p]));
    assert(ua_after_award(ua, user_id, achievement_id, now) =~= ua);
}

/// One conditional award leaves the pair uniqueness intact.
pub proof fn lemma_award_preserves_unique(
    ua: Seq<UserAchievement>,
    user_id: u64,
    achievement_id: u64,
    now: i64,
)
    requires
        ua_pairs_unique(ua),
    ensures
        ua_pairs_unique(ua_after_award(ua, user_id, achievement_id, now)),
{
    let ua2 = ua_after_award(ua, user_id, achievement_id, now);
    if exists|q: int| 0 <= q < ua.len() && #[trigger] ua_matches(ua[q], user_id, achievement_id) {
        let q = choose|q: int|
            0 <= q < ua.len() && #[trigger] ua_matches(ua[q], user_id, achievement_id);
        // The rewritten row keeps the key the old row at q had, so
        // every key stands where it stood.
        assert forall|i: int, j: int|
            0 <= i < j < ua2.len() implies !(ua2[i].user_id == ua2[j].user_id
            && ua2[i].achievement_id == ua2[j].achievement_id) by {
            assert(ua2[i].user_id == ua[i].user_id && ua2[i].achievement_id
                == ua[i].achievement_id);
            assert(ua2[j].user_id == ua[j].user_id && ua2[j].achievement_id
                == ua[j].achievement_id);
        }
    } else {
        // The appended row carries a key no old row has.
        assert forall|i: int, j: int|
            0 <= i < j < ua2.len() implies !(ua2[i].user_id == ua2[j].user_id
            && ua2[i].achievement_id == ua2[j].achievement_id) by {
            if j == ua2.len() - 1 {
                assert(!ua_matches(ua[i], user_id, achievement_id));
            }
        }
    }
}

/// The at-most-once guarantee at the level of one pair: after an
/// award, the pair is earned, and a later award of the same pair is a
/// no-op that no longer reports "newly awarded".
pub proof fn lemma_award_at_most_once(
    ua: Seq<UserAchievement>,
    user_id: u64,
    achievement_id: u64,
    t1: i64,
    t2: i64,
)
    requires
        ua_pairs_unique(ua),
    ensures
        ({
            let ua1 = ua_after_award(ua, user_id, achievement_id, t1);
            &&& earned(ua1, user_id, achievement_id)
            &&& ua_after_award(ua1, user_id, achievement_id, t2) == ua1
        }),
{
    let ua1 = ua_after_award(ua, user_id, achievement_id, t1);
    if exists|q: int| 0 <= q < ua.len() && #[trigger] ua_matches(ua[q], user_id, achievement_id) {
        let q = choose|q: int|
            0 <= q < ua.len() && #[trigger] ua_matches(ua[q], user_id, achievement_id);
        assert(ua_matches(ua1[q], user_id, achievement_id) && ua1[q].earned);
    } else {
        assert(ua_matches(ua1[ua1.len() - 1], user_id, achievement_id) && ua1[ua1.len()
            - 1].earned);
    }
    lemma_award_preserves_unique(ua, user_id, achievement_id, t1);
    lemma_award_earned_is_noop(ua1, user_id, achievement_id, t2);
}

/// A whole engine pass keeps every earned pair earned.
pub proof fn lemma_run_preserves_earned(
    achs: Seq<Achievement>,
    ua: Seq<UserAchievement>,
    user_id: u64,
    kind: TriggerKind,
    metric: int,
    now: i64,
    u2: u64,
    a2: u64,
)
    requires
        earned(ua, u2, a2),
    ensures
        earned(run_awards(achs, ua, user_id, kind, metric, now).0, u2, a2),
    decreases achs.len(),
{
    if achs.len() > 0 {
        lemma_run_preserves_earned(achs.drop_last(), ua, user_id, kind, metric, now, u2, a2);
        let prev = run_awards(achs.drop_last(), ua, user_id, kind, metric, now);
        let a = achs.last();
        if candidate(a, kind, metric) {
            lemma_award_preserves_earned(prev.0, user_id, a.id, now, u2, a2);
        }
    }
}

/// A whole engine pass keeps the pair uniqueness intact.
pub proof fn lemma_run_preserves_unique(
    achs: Seq<Achievement>,
    ua: Seq<UserAchievement>,
    user_id: u64,
    kind: TriggerKind,
    metric: int,
    now: i64,
)
    requires
        ua_pairs_unique(ua),
    ensures
        ua_pairs_unique(run_awards(achs, ua, user_id, kind, metric, now).0),
    decreases achs.len(),
{
    if achs.len() > 0 {
        lemma_run_preserves_unique(achs.drop_last(), ua, user_id, kind, metric, now);
        let prev = run_awards(achs.drop_last(), ua, user_id, kind, metric, now);
        let a = achs.last();
        if candidate(a, kind, metric) {
            lemma_award_preserves_unique(prev.0, user_id, a.id, now);
        }
    }
}

/// After one engine pass, every satisfied definition is earned.
pub proof fn lemma_run_awards_all_candidates(
    achs: Seq<Achievement>,
    ua: Seq<UserAchievement>,
    user_id: u64,
    kind: TriggerKind,
    metric: int,
    now: i64,
)
    ensures
        forall|k: int|
            0 <= k < achs.len() && candidate(#[trigger] achs[k], kind, metric) ==> earned(
                run_awards(achs, ua, user_id, kind, metric, now).0,
                user_id,
                achs[k].id,
            ),
    decreases achs.len(),
{
    if achs.len() > 0 {
        let d = achs.drop_last();
        lemma_run_awards_all_candidates(d, ua, user_id, kind, metric, now);
        let prev = run_awards(d, ua, user_id, kind, metric, now);
        let a = achs.last();
        assert forall|k: int|
            0 <= k < achs.len() && candidate(#[trigger] achs[k], kind, metric) implies earned(
            run_awards(achs, ua, user_id, kind, metric, now).0,
            user_id,
            achs[k].id,
        ) by {
            if k < achs.len() - 1 {
                assert(d[k] == achs[k]);
                assert(earned(prev.0, user_id, achs[k].id));
                if candidate(a, kind, metric) {
                    lemma_award_preserves_earned(
                        prev.0,
                        user_id,
                        a.id,
                        now,
                        user_id,
                        achs[k].id,
                    );
                }
            } else {
                assert(achs[k] == a);
                if exists|q: int|
                    0 <= q < prev.0.len() && #[trigger] ua_matches(prev.0[q], user_id, a.id) {
                    let q = choose|q: int|
                        0 <= q < prev.0.len() && #[trigger] ua_matches(prev.0[q], user_id, a.id);
                    let after = ua_after_award(prev.0, user_id, a.id, now);
                    assert(ua_matches(after[q], user_id, a.id) && after[q].earned);
                } else {
                    let after = ua_after_award(prev.0, user_id, a.id, now);
                    assert(ua_matches(after[after.len() - 1], user_id, a.id) && after[after.len()
                        - 1].earned);
                }
            }
        }
    }
}

/// A pass over a table where every satisfied definition is already
/// earned awards nothing and changes nothing.
pub proof fn lemma_run_awards_saturated(
    achs: Seq<Achievement>,
    ua: Seq<UserAchievement>,
    user_id: u64,
    kind: TriggerKind,
    metric: int,
    now: i64,
)
    requires
        ua_pairs_unique(ua),
        forall|k: int|
            0 <= k < achs.len() && candidate(#[trigger] achs[k], kind, metric) ==> earned(
                ua,
                user_id,
                achs[k].id,
            ),
    ensures
        run_awards(achs, ua, user_id, kind, metric, now) == (ua, Seq::<u64>::empty()),
    decreases achs.len(),
{
    if achs.len() > 0 {
        let d = achs.drop_last();
        assert(forall|k: int|
            0 <= k < d.len() && candidate(#[trigger] d[k], kind, metric) ==> earned(
                ua,
                user_id,
                d[k].id,
            ));
        lemma_run_awards_saturated(d, ua, user_id, kind, metric, now);
        let a = achs.last();
        if candidate(a, kind, metric) {
            assert(earned(ua, user_id, a.id));
            lemma_award_earned_is_noop(ua, user_id, a.id, now);
        }
    }
}

/// Every identifier an engine pass reports newly awarded is earned in
/// the state the pass leaves.
pub proof fn lemma_reported_ids_are_earned(
    achs: Seq<Achievement>,
    ua: Seq<UserAchievement>,
    user_id: u64,
    kind: TriggerKind,
    metric: int,
    now: i64,
)
    ensures
        ({
            let out = run_awards(achs, ua, user_id, kind, metric, now);
            forall|x: int| 0 <= x < out.1.len() ==> earned(out.0, user_id, #[trigger] out.1[x])
        }),
    decreases achs.len(),
{
    if achs.len() > 0 {
        let d = achs.drop_last();
        lemma_reported_ids_are_earned(d, ua, user_id, kind, metric, now);
        let prev = run_awards(d, ua, user_id, kind, metric, now);
        let a = achs.last();
        let out = run_awards(achs, ua, user_id, kind, metric, now);
        if candidate(a, kind, metric) {
            assert forall|x: int| 0 <= x < out.1.len() implies earned(
                out.0,
                user_id,
                #[trigger] out.1[x],
            ) by {
                if x < prev.1.len() {
                    lemma_award_preserves_earned(prev.0, user_id, a.id, now, user_id, prev.1[x]);
                } else {
                    if exists|q: int|
                        0 <= q < prev.0.len() && #[trigger] ua_matches(prev.0[q], user_id, a.id) {
                        let q = choose|q: int|
                            0 <= q < prev.0.len() && #[trigger] ua_matches(prev.0[q], user_id, a.id);
                        assert(ua_matches(out.0[q], user_id, a.id) && out.0[q].earned);
                    } else {
                        assert(ua_matches(out.0[out.0.len() - 1], user_id, a.id) && out.0[out.0.len()
                            - 1].earned);
                    }
                }
            }
        }
    }
}

/// One engine pass never reports the same achievement twice: the
/// newly-awarded list is duplicate free.
pub proof fn lemma_reported_ids_distinct(
    achs: Seq<Achievement>,
    ua: Seq<UserAchievement>,
    user_id: u64,
    kind: TriggerKind,
    metric: int,
    now: i64,
)
    ensures
        ({
            let out = run_awards(achs, ua, user_id, kind, metric, now);
            forall|x: int, y: int| 0 <= x < y < out.1.len() ==> out.1[x] != out.1[y]
        }),
    decreases achs.len(),
{
    if achs.len() > 0 {
        let d = achs.drop_last();
        lemma_reported_ids_distinct(d, ua, user_id, kind, metric, now);
        lemma_reported_ids_are_earned(d, ua, user_id, kind, metric, now);
        let prev = run_awards(d, ua, user_id, kind, metric, now);
        let a = achs.last();
        let out = run_awards(achs, ua, user_id, kind, metric, now);
        if candidate(a, kind, metric) && !earned(prev.0, user_id, a.id) {
            // The id just reported cannot be among the earlier ones:
            // those are already earned, this one was not.
            assert forall|x: int, y: int| 0 <= x < y < out.1.len() implies out.1[x] != out.1[y] by {
                if y == prev.1.len() {
                    assert(earned(prev.0, user_id, prev.1[x]));
                }
            }
        }
    }
}

/// Exactly-once across repeated engine passes: whatever the first pass
/// newly awarded, a second pass over the same catalog, the same
/// account and the same metric awards nothing further and leaves the
/// award table untouched. Together with the per-call meaning of the
/// returned list, any number of serialized passes yields each award
/// exactly once.
pub proof fn lemma_check_and_award_exactly_once(
    achs: Seq<Achievement>,
    ua: Seq<UserAchievement>,
    user_id: u64,
    kind: TriggerKind,
    metric: int,
    t1: i64,
    t2: i64,
)
    requires
        ua_pairs_unique(ua),
    ensures
        ({
            let first = run_awards(achs, ua, user_id, kind, metric, t1);
            let second = run_awards(achs, first.0, user_id, kind, metric, t2);
            &&& second.0 == first.0
            &&& second.1 == Seq::<u64>::empty()
        }),
{
    let first = run_awards(achs, ua, user_id, kind, metric, t1);
    lemma_run_preserves_unique(achs, ua, user_id, kind, metric, t1);
    lemma_run_awards_all_candidates(achs, ua, user_id, kind, metric, t1);
    lemma_run_awards_saturated(achs, first.0, user_id, kind, metric, t2);
}

} // verus!
