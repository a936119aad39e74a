//! The progress tracker: records per-lesson completion and recomputes
//! the owning course's aggregate from the rows, never patching it
//! incrementally.
//!
//! The whole update is described by spec-level transition functions
//! (`lp_after_upsert`, `cp_row_after`, `cp_after_upsert`), so that the
//! idempotence of recording the same progress twice is a theorem over
//! the model, proved below.

use vstd::prelude::*;

use crate::errors::ErrorMessage;
use crate::model::CourseProgress;
use crate::model::Lesson;
use crate::model::LessonProgress;
use crate::model::Module;
use crate::store::Store;
use crate::store::wf_course_progress_row;

verus! {

/// Some module row gives this module id membership in the course.
pub open spec fn module_in_course(modules: Seq<Module>, module_id: u64, course_id: u64) -> bool {
    exists|k: int|
        0 <= k < modules.len() && #[trigger] modules[k].id == module_id && modules[k].course_id
            == course_id
}

/// The lesson belongs to the course through its module.
pub open spec fn is_course_lesson(modules: Seq<Module>, l: Lesson, course_id: u64) -> bool {
    module_in_course(modules, l.module_id, course_id)
}

/// A stored progress row marks this lesson completed by this account.
pub open spec fn lesson_completed_by(
    lp: Seq<LessonProgress>,
    user_id: u64,
    lesson_id: u64,
) -> bool {
    exists|k: int|
        0 <= k < lp.len() && #[trigger] lp[k].user_id == user_id && lp[k].lesson_id == lesson_id
            && lp[k].completed
}

/// How many lessons the course has.
pub open spec fn count_course_lessons(
    lessons: Seq<Lesson>,
    modules: Seq<Module>,
    course_id: u64,
) -> int
    decreases lessons.len(),
{
    if lessons.len() == 0 {
        0
    } else {
        count_course_lessons(lessons.drop_last(), modules, course_id) + (
        if is_course_lesson(modules, lessons.last(), course_id) {
            1int
        } else {
            0int
        })
    }
}

/// How many of the course's lessons the account has completed.
pub open spec fn count_completed_lessons(
    lessons: Seq<Lesson>,
    modules: Seq<Module>,
    lp: Seq<LessonProgress>,
    user_id: u64,
    course_id: u64,
) -> int
    decreases lessons.len(),
{
    if lessons.len() == 0 {
        0
    } else {
        count_completed_lessons(lessons.drop_last(), modules, lp, user_id, course_id) + (
        if is_course_lesson(modules, lessons.last(), course_id) && lesson_completed_by(
            lp,
            user_id,
            lessons.last().id,
        ) {
            1int
        } else {
            0int
        })
    }
}

/// Both counts are non-negative, bounded by the lesson count, and the
/// completed count never exceeds the total.
pub proof fn lemma_count_bounds(
    lessons: Seq<Lesson>,
    modules: Seq<Module>,
    lp: Seq<LessonProgress>,
    user_id: u64,
    course_id: u64,
)
    ensures
        0 <= count_course_lessons(lessons, modules, course_id) <= lessons.len(),
        0 <= count_completed_lessons(lessons, modules, lp, user_id, course_id)
            <= count_course_lessons(lessons, modules, course_id),
    decreases lessons.len(),
{
    if lessons.len() > 0 {
        lemma_count_bounds(lessons.drop_last(), modules, lp, user_id, course_id);
    }
}

/// The aggregate percentage: completed over total, scaled to hundred,
/// with an empty course counting as zero rather than a division fault.
pub open spec fn percentage_of(completed: int, total: int) -> int {
    if total == 0 {
        0
    } else {
        completed * 100 / total
    }
}

/// The percentage stays between zero and one hundred, and reaches one
/// hundred exactly when a nonempty course is fully completed.
pub proof fn lemma_percentage_bounds(completed: int, total: int)
    requires
        0 <= completed <= total,
    ensures
        0 <= percentage_of(completed, total) <= 100,
        percentage_of(completed, total) == 100 <==> (completed == total && total > 0),
{
    if total > 0 {
        assert(0 <= completed * 100 / total) by (nonlinear_arith)
            requires
                0 <= completed,
                total > 0,
        ;
        assert(completed * 100 / total <= 100) by (nonlinear_arith)
            requires
                0 <= completed <= total,
                total > 0,
        ;
        if completed == total {
            assert(total * 100 / total == 100) by (nonlinear_arith)
                requires
                    total > 0,
            ;
        } else {
            assert(completed * 100 / total < 100) by (nonlinear_arith)
                requires
                    0 <= completed < total,
                    total > 0,
            ;
        }
    }
}

/// Whether a lesson-progress row is keyed by this (account, lesson).
pub open spec fn lp_matches(row: LessonProgress, user_id: u64, lesson_id: u64) -> bool {
    row.user_id == user_id && row.lesson_id == lesson_id
}

/// The stored progress row of this (account, lesson), if one exists.
pub open spec fn lp_lookup(lp: Seq<LessonProgress>, user_id: u64, lesson_id: u64) -> Option<
    LessonProgress,
> {
    if exists|p: int| 0 <= p < lp.len() && #[trigger] lp_matches(lp[p], user_id, lesson_id) {
        Some(lp[choose|p: int| 0 <= p < lp.len() && #[trigger] lp_matches(lp[p], user_id, lesson_id)])
    } else {
        None
    }
}

/// The lesson-progress row as one upsert leaves it: completion and
/// fractional progress overwritten, access instant refreshed, and the
/// completion instant set only on the transition into completed, kept
/// while the lesson stays completed, and cleared when completion is
/// explicitly taken back.
pub open spec fn lp_row_after(
    prev: Option<LessonProgress>,
    user_id: u64,
    lesson_id: u64,
    is_completed: bool,
    progress: u8,
    now: i64,
) -> LessonProgress {
    let was_completed = match prev {
        Some(r) => r.completed,
        None => false,
    };
    let prev_completed_at = match prev {
        Some(r) => r.completed_at,
        None => None,
    };
    LessonProgress {
        user_id,
        lesson_id,
        completed: is_completed,
        progress,
        completed_at: if is_completed {
            if was_completed {
                prev_completed_at
            } else {
                Some(now)
            }
        } else {
            None
        },
        last_accessed: now,
    }
}

/// The lesson-progress table after one upsert: the keyed row replaced
/// in place if it exists, else the new row appended.
pub open spec fn lp_after_upsert(
    lp: Seq<LessonProgress>,
    user_id: u64,
    lesson_id: u64,
    is_completed: bool,
    progress: u8,
    now: i64,
) -> Seq<LessonProgress> {
    let row = lp_row_after(
        lp_lookup(lp, user_id, lesson_id),
        user_id,
        lesson_id,
        is_completed,
        progress,
        now,
    );
    if exists|p: int| 0 <= p < lp.len() && #[trigger] lp_matches(lp[p], user_id, lesson_id) {
        lp.update(
            choose|p: int| 0 <= p < lp.len() && #[trigger] lp_matches(lp[p], user_id, lesson_id),
            row,
        )
    } else {
        lp.push(row)
    }
}

/// Whether a course-progress row is keyed by this (account, course).
pub open spec fn cp_matches(row: CourseProgress, user_id: u64, course_id: u64) -> bool {
    row.user_id == user_id && row.course_id == course_id
}

/// The stored aggregate row of this (account, course), if one exists.
pub open spec fn cp_lookup(cp: Seq<CourseProgress>, user_id: u64, course_id: u64) -> Option<
    CourseProgress,
> {
    if exists|p: int| 0 <= p < cp.len() && #[trigger] cp_matches(cp[p], user_id, course_id) {
        Some(cp[choose|p: int| 0 <= p < cp.len() && #[trigger] cp_matches(cp[p], user_id, course_id)])
    } else {
        None
    }
}

/// The aggregate row as one recomputation leaves it. The completion
/// instant is set the first time the percentage reaches one hundred
/// and never cleared afterwards.
pub open spec fn cp_row_after(
    prev: Option<CourseProgress>,
    user_id: u64,
    course_id: u64,
    total: u64,
    completed: u64,
    pct: u8,
    now: i64,
) -> CourseProgress {
    let prev_completed_at = match prev {
        Some(r) => r.completed_at,
        None => None,
    };
    CourseProgress {
        user_id,
        course_id,
        total_lessons: total,
        completed_lessons: completed,
        percentage: pct,
        completed_at: if pct == 100 && prev_completed_at is None {
            Some(now)
        } else {
            prev_completed_at
        },
        last_accessed: now,
        created_at: match prev {
            Some(r) => r.created_at,
            None => now,
        },
        updated_at: now,
    }
}

/// The course-progress table after one upsert of the row keyed
/// (account, course).
pub open spec fn cp_after_upsert(
    cp: Seq<CourseProgress>,
    user_id: u64,
    course_id: u64,
    row: CourseProgress,
) -> Seq<CourseProgress> {
    if exists|p: int| 0 <= p < cp.len() && #[trigger] cp_matches(cp[p], user_id, course_id) {
        cp.update(
            choose|p: int| 0 <= p < cp.len() && #[trigger] cp_matches(cp[p], user_id, course_id),
            row,
        )
    } else {
        cp.push(row)
    }
}

impl Store {
    /// The index of the module with this id, if any.
    pub fn find_module_by_id(&self, id: u64) -> (r: Option<usize>)
        ensures
            match r {
                Some(i) => i < self.modules@.len() && self.modules@[i as int].id == id,
                None => forall|j: int| 0 <= j < self.modules@.len() ==> self.modules@[j].id != id,
            },
    {
        let mut i: usize = 0;
        while i < self.modules.len()
            invariant
                i <= self.modules@.len(),
                forall|j: int| 0 <= j < i ==> self.modules@[j].id != id,
            decreases self.modules@.len() - i,
        {
            if self.modules[i].id == id {
                return Some(i);
            }
            i = i + 1;
        }
        None
    }

    /// The index of the lesson with this id, if any.
    pub fn find_lesson_by_id(&self, id: u64) -> (r: Option<usize>)
        ensures
            match r {
                Some(i) => i < self.lessons@.len() && self.lessons@[i as int].id == id,
                None => forall|j: int| 0 <= j < self.lessons@.len() ==> self.lessons@[j].id != id,
            },
    {
        let mut i: usize = 0;
        while i < self.lessons.len()
            invariant
                i <= self.lessons@.len(),
                forall|j: int| 0 <= j < i ==> self.lessons@[j].id != id,
            decreases self.lessons@.len() - i,
        {
            if self.lessons[i].id == id {
                return Some(i);
            }
            i = i + 1;
        }
        None
    }

    /// The index of the progress row keyed (account, lesson), if any.
    pub(crate) fn find_lesson_progress(&self, user_id: u64, lesson_id: u64) -> (r: Option<usize>)
        ensures
            match r {
                Some(i) => i < self.lesson_progress@.len() && lp_matches(
                    self.lesson_progress@[i as int],
                    user_id,
                    lesson_id,
                ),
                None => forall|j: int|
                    0 <= j < self.lesson_progress@.len() ==> !lp_matches(
                        self.lesson_progress@[j],
                        user_id,
                        lesson_id,
                    ),
            },
    {
        let mut i: usize = 0;
        while i < self.lesson_progress.len()
            invariant
                i <= self.lesson_progress@.len(),
                forall|j: int|
                    0 <= j < i ==> !lp_matches(self.lesson_progress@[j], user_id, lesson_id),
            decreases self.lesson_progress@.len() - i,
        {
            if self.lesson_progress[i].user_id == user_id && self.lesson_progress[i].lesson_id
                == lesson_id {
                return Some(i);
            }
            i = i + 1;
        }
        None
    }

    /// The index of the aggregate row keyed (account, course), if any.
    fn find_course_progress(&self, user_id: u64, course_id: u64) -> (r: Option<usize>)
        ensures
            match r {
                Some(i) => i < self.course_progress@.len() && cp_matches(
                    self.course_progress@[i as int],
                    user_id,
                    course_id,
                ),
                None => forall|j: int|
                    0 <= j < self.course_progress@.len() ==> !cp_matches(
                        self.course_progress@[j],
                        user_id,
                        course_id,
                    ),
            },
    {
        let mut i: usize = 0;
        while i < self.course_progress.len()
            invariant
                i <= self.course_progress@.len(),
                forall|j: int|
                    0 <= j < i ==> !cp_matches(self.course_progress@[j], user_id, course_id),
            decreases self.course_progress@.len() - i,
        {
            if self.course_progress[i].user_id == user_id && self.course_progress[i].course_id
                == course_id {
                return Some(i);
            }
            i = i + 1;
        }
        None
    }

    /// Counts the course's lessons and how many of them the account
    /// has completed, from the current rows.
    pub fn course_lesson_counts(&self, user_id: u64, course_id: u64) -> (r: (u64, u64))
        requires
            self.wf(),
        ensures
            r.0 == count_course_lessons(self.lessons@, self.modules@, course_id),
            r.1 == count_completed_lessons(
                self.lessons@,
                self.modules@,
                self.lesson_progress@,
                user_id,
                course_id,
            ),
            r.1 <= r.0 <= self.lessons@.len(),
    {
        let mut total: u64 = 0;
        let mut done: u64 = 0;
        let mut i: usize = 0;
        while i < self.lessons.len()
            invariant
                self.wf(),
                i <= self.lessons@.len(),
                total == count_course_lessons(self.lessons@.take(i as int), self.modules@, course_id),
                done == count_completed_lessons(
                    self.lessons@.take(i as int),
                    self.modules@,
                    self.lesson_progress@,
                    user_id,
                    course_id,
                ),
                done <= total <= i,
            decreases self.lessons@.len() - i,
        {
            let ghost prefix = self.lessons@.take(i as int);
            let module_id = self.lessons[i].module_id;
            let in_course = match self.find_module_by_id(module_id) {
                Some(k) => self.modules[k].course_id == course_id,
                None => false,
            };
            proof {
                assert(self.lessons@.take(i + 1).drop_last() =~= prefix);
                assert(self.lessons@.take(i + 1).last() == self.lessons@[i as int]);
                if in_course {
                    assert(is_course_lesson(self.modules@, self.lessons@[i as int], course_id));
                } else {
                    // Module ids are unique, so a found module that sits in
                    // another course rules membership out.
                    assert(!is_course_lesson(self.modules@, self.lessons@[i as int], course_id));
                }
            }
            if in_course {
                total = total + 1;
                let lesson_id = self.lessons[i].id;
                let is_done = match self.find_lesson_progress(user_id, lesson_id) {
                    Some(p) => self.lesson_progress[p].completed,
                    None => false,
                };
                proof {
                    if is_done {
                        assert(lesson_completed_by(
                            self.lesson_progress@,
                            user_id,
                            self.lessons@[i as int].id,
                        ));
                    } else {
                        // Progress rows are unique per (account, lesson), so
                        // a found incomplete row rules completion out.
                        assert(!lesson_completed_by(
                            self.lesson_progress@,
                            user_id,
                            self.lessons@[i as int].id,
                        ));
                    }
                }
                if is_done {
                    done = done + 1;
                }
            }
            i = i + 1;
        }
        proof {
            assert(self.lessons@.take(self.lessons@.len() as int) =~= self.lessons@);
        }
        (total, done)
    }

    /// Records one lesson-progress update and recomputes the owning
    /// course's aggregate from the freshly stored rows.
    pub fn record_lesson_progress(
        &mut self,
        user_id: u64,
        lesson_id: u64,
        is_completed: bool,
        progress: u8,
        now: i64,
    ) -> (r: Result<CourseProgress, ErrorMessage>)
        requires
            old(self).wf(),
            progress <= 100,
        ensures
            record_progress_post(
                *old(self),
                *final(self),
                r,
                user_id,
                lesson_id,
                is_completed,
                progress,
                now,
            ),
            final(self).wf(),
    {
        let li = match self.find_lesson_by_id(lesson_id) {
            Some(li) => li,
            None => {
                return Err(ErrorMessage::NotFound);
            },
        };
        let module_id = self.lessons[li].module_id;
        let mi = match self.find_module_by_id(module_id) {
            Some(mi) => mi,
            None => {
                return Err(ErrorMessage::NotFound);
            },
        };
        let course_id = self.modules[mi].course_id;

        // Upsert the lesson-progress row.
        let prev_idx = self.find_lesson_progress(user_id, lesson_id);
        let prev: Option<LessonProgress> = match prev_idx {
            Some(p) => Some(self.lesson_progress[p]),
            None => None,
        };
        let was_completed = match prev {
            Some(r) => r.completed,
            None => false,
        };
        let prev_completed_at = match prev {
            Some(r) => r.completed_at,
            None => None,
        };
        let row = LessonProgress {
            user_id,
            lesson_id,
            completed: is_completed,
            progress,
            completed_at: if is_completed {
                if was_completed {
                    prev_completed_at
                } else {
                    Some(now)
                }
            } else {
                None
            },
            last_accessed: now,
        };
        match prev_idx {
            Some(p) => {
                self.lesson_progress[p] = row;
                proof {
                    let q = choose|q: int|
                        0 <= q < old(self).lesson_progress@.len() && #[trigger] lp_matches(
                            old(self).lesson_progress@[q],
                            user_id,
                            lesson_id,
                        );
                    assert(q == p as int);
                }
            },
            None => {
                self.lesson_progress.push(row);
            },
        }
        proof {
            assert(self.lesson_progress@ =~= lp_after_upsert(
                old(self).lesson_progress@,
                user_id,
                lesson_id,
                is_completed,
                progress,
                now,
            ));
        }

        // Recompute the aggregate from the rows just stored.
        let (total, done) = self.course_lesson_counts(user_id, course_id);
        proof {
            lemma_count_bounds(
                self.lessons@,
                self.modules@,
                self.lesson_progress@,
                user_id,
                course_id,
            );
            lemma_percentage_bounds(done as int, total as int);
        }
        let pct: u8 = if total == 0 {
            0
        } else {
            ((done as u128) * 100 / (total as u128)) as u8
        };

        // Upsert the aggregate row.
        let cp_idx = self.find_course_progress(user_id, course_id);
        let cprev: Option<CourseProgress> = match cp_idx {
            Some(p) => Some(self.course_progress[p]),
            None => None,
        };
        let prev_cp_completed_at = match cprev {
            Some(r) => r.completed_at,
            None => None,
        };
        let cp_row = CourseProgress {
            user_id,
            course_id,
            total_lessons: total,
            completed_lessons: done,
            percentage: pct,
            completed_at: if pct == 100 && prev_cp_completed_at.is_none() {
                Some(now)
            } else {
                prev_cp_completed_at
            },
            last_accessed: now,
            created_at: match cprev {
                Some(r) => r.created_at,
                None => now,
            },
            updated_at: now,
        };
        match cp_idx {
            Some(p) => {
                self.course_progress[p] = cp_row;
                proof {
                    let q = choose|q: int|
                        0 <= q < old(self).course_progress@.len() && #[trigger] cp_matches(
                            old(self).course_progress@[q],
                            user_id,
                            course_id,
                        );
                    assert(q == p as int);
                }
            },
            None => {
                self.course_progress.push(cp_row);
            },
        }
        proof {
            assert(self.course_progress@ =~= cp_after_upsert(
                old(self).course_progress@,
                user_id,
                course_id,
                cp_row,
            ));
            assert(wf_course_progress_row(cp_row));
        }
        Ok(cp_row)
    }
}

/// Everything `record_lesson_progress` does, as one predicate over the
/// store before and after the call: the failure is exactly a lesson
/// whose course cannot be resolved, and on success the two tables move
/// by the transition functions above while all else stands still.
pub open spec fn record_progress_post(
    pre: Store,
    post: Store,
    r: Result<CourseProgress, ErrorMessage>,
    user_id: u64,
    lesson_id: u64,
    is_completed: bool,
    progress: u8,
    now: i64,
) -> bool {
    &&& post.users == pre.users
    &&& post.courses == pre.courses
    &&& post.modules == pre.modules
    &&& post.lessons == pre.lessons
    &&& post.user_courses == pre.user_courses
    &&& post.payments == pre.payments
    &&& post.achievements == pre.achievements
    &&& post.user_achievements == pre.user_achievements
    &&& post.subscriptions == pre.subscriptions
    &&& post.subscription_plans == pre.subscription_plans
    &&& post.notifications == pre.notifications
    &&& post.stats == pre.stats
    &&& post.next_id == pre.next_id
    &&& (r is Err ==> r == Err::<CourseProgress, ErrorMessage>(ErrorMessage::NotFound) && post
        == pre && !lesson_resolvable(pre, lesson_id))
    &&& (r matches Ok(cp) ==> {
        &&& lesson_resolvable(pre, lesson_id)
        &&& exists|li: int, mi: int|
            {
                &&& 0 <= li < pre.lessons@.len()
                &&& #[trigger] pre.lessons@[li].id == lesson_id
                &&& 0 <= mi < pre.modules@.len()
                &&& #[trigger] pre.modules@[mi].id == pre.lessons@[li].module_id
                &&& record_progress_outcome(
                    pre,
                    post,
                    cp,
                    user_id,
                    lesson_id,
                    is_completed,
                    progress,
                    now,
                    pre.modules@[mi].course_id,
                )
            }
    })
}

/// The lesson exists and leads through its module to a course id.
pub open spec fn lesson_resolvable(s: Store, lesson_id: u64) -> bool {
    exists|li: int, mi: int|
        {
            &&& 0 <= li < s.lessons@.len()
            &&& #[trigger] s.lessons@[li].id == lesson_id
            &&& 0 <= mi < s.modules@.len()
            &&& #[trigger] s.modules@[mi].id == s.lessons@[li].module_id
        }
}

/// The successful outcome of one progress update for a resolved course.
pub open spec fn record_progress_outcome(
    pre: Store,
    post: Store,
    cp: CourseProgress,
    user_id: u64,
    lesson_id: u64,
    is_completed: bool,
    progress: u8,
    now: i64,
    course_id: u64,
) -> bool {
    let lp2 = lp_after_upsert(
        pre.lesson_progress@,
        user_id,
        lesson_id,
        is_completed,
        progress,
        now,
    );
    let total = count_course_lessons(pre.lessons@, pre.modules@, course_id);
    let done = count_completed_lessons(pre.lessons@, pre.modules@, lp2, user_id, course_id);
    let pct = percentage_of(done, total);
    &&& post.lesson_progress@ == lp2
    &&& cp == cp_row_after(
        cp_lookup(pre.course_progress@, user_id, course_id),
        user_id,
        course_id,
        total as u64,
        done as u64,
        pct as u8,
        now,
    )
    &&& post.course_progress@ == cp_after_upsert(pre.course_progress@, user_id, course_id, cp)
}

/// Every stored course aggregate keeps its percentage between zero and
/// one hundred, reaching one hundred exactly on a fully completed,
/// nonempty course: the bound holds of each row of a well-formed store.
pub proof fn lemma_stored_percentage_bounded(s: Store, i: int)
    requires
        s.wf(),
        0 <= i < s.course_progress@.len(),
    ensures
        s.course_progress@[i].percentage <= 100,
        s.course_progress@[i].completed_lessons <= s.course_progress@[i].total_lessons,
        s.course_progress@[i].percentage == 100 <==> (s.course_progress@[i].completed_lessons
            == s.course_progress@[i].total_lessons && s.course_progress@[i].total_lessons > 0),
{
}

/// Idempotence of the progress tracker: recording the same lesson
/// progress twice with identical inputs leaves both progress tables,
/// and the returned aggregate, exactly as the first call left them.
pub proof fn lemma_record_progress_idempotent(
    pre: Store,
    mid: Store,
    post: Store,
    r1: Result<CourseProgress, ErrorMessage>,
    r2: Result<CourseProgress, ErrorMessage>,
    user_id: u64,
    lesson_id: u64,
    is_completed: bool,
    progress: u8,
    now: i64,
)
    requires
        pre.wf(),
        mid.wf(),
        record_progress_post(pre, mid, r1, user_id, lesson_id, is_completed, progress, now),
        record_progress_post(mid, post, r2, user_id, lesson_id, is_completed, progress, now),
    ensures
        r2 == r1,
        post.lesson_progress@ == mid.lesson_progress@,
        post.course_progress@ == mid.course_progress@,
{
    if r1 is Err {
        assert(mid == pre);
        assert(!lesson_resolvable(mid, lesson_id));
        assert(r2 is Err);
        assert(post == mid);
    } else {
        let cp1 = r1->Ok_0;
        assert(lesson_resolvable(pre, lesson_id));
        assert(lesson_resolvable(mid, lesson_id));
        assert(r2 is Ok);
        let cp2 = r2->Ok_0;
        let (li1, mi1) = choose|li: int, mi: int|
            {
                &&& 0 <= li < pre.lessons@.len()
                &&& #[trigger] pre.lessons@[li].id == lesson_id
                &&& 0 <= mi < pre.modules@.len()
                &&& #[trigger] pre.modules@[mi].id == pre.lessons@[li].module_id
                &&& record_progress_outcome(
                    pre,
                    mid,
                    cp1,
                    user_id,
                    lesson_id,
                    is_completed,
                    progress,
                    now,
                    pre.modules@[mi].course_id,
                )
            };
        let (li2, mi2) = choose|li: int, mi: int|
            {
                &&& 0 <= li < mid.lessons@.len()
                &&& #[trigger] mid.lessons@[li].id == lesson_id
                &&& 0 <= mi < mid.modules@.len()
                &&& #[trigger] mid.modules@[mi].id == mid.lessons@[li].module_id
                &&& record_progress_outcome(
                    mid,
                    post,
                    cp2,
                    user_id,
                    lesson_id,
                    is_completed,
                    progress,
                    now,
                    mid.modules@[mi].course_id,
                )
            };
        // Lesson and module ids are unique, so both calls resolve the
        // same course.
        assert(li2 == li1);
        assert(mi2 == mi1);
        let cid = pre.modules@[mi1].course_id;

        // The second upsert of the lesson row rewrites the row the
        // first upsert stored.
        let lp1 = mid.lesson_progress@;
        let row1 = lp_row_after(
            lp_lookup(pre.lesson_progress@, user_id, lesson_id),
            user_id,
            lesson_id,
            is_completed,
            progress,
            now,
        );
        let p1 =
            if exists|p: int|
                0 <= p < pre.lesson_progress@.len() && #[trigger] lp_matches(
                    pre.lesson_progress@[p],
                    user_id,
                    lesson_id,
                ) {
                choose|p: int|
                    0 <= p < pre.lesson_progress@.len() && #[trigger] lp_matches(
                        pre.lesson_progress@[p],
                        user_id,
                        lesson_id,
                    )
            } else {
                pre.lesson_progress@.len() as int
            };
        assert(lp1[p1] == row1);
        assert(lp_matches(lp1[p1], user_id, lesson_id));
        assert(lp_lookup(lp1, user_id, lesson_id) == Some(row1)) by {
            let q = choose|p: int|
                0 <= p < lp1.len() && #[trigger] lp_matches(lp1[p], user_id, lesson_id);
            assert(q == p1);
        }
        let row2 = lp_row_after(Some(row1), user_id, lesson_id, is_completed, progress, now);
        assert(row2 == row1);
        assert(post.lesson_progress@ =~= lp1) by {
            let q = choose|p: int|
                0 <= p < lp1.len() && #[trigger] lp_matches(lp1[p], user_id, lesson_id);
            assert(q == p1);
        }

        // Same rows, same counts, same percentage.
        let total = count_course_lessons(pre.lessons@, pre.modules@, cid);
        let done = count_completed_lessons(pre.lessons@, pre.modules@, lp1, user_id, cid);

        // The second aggregate row rewrites the first.
        let cpt = mid.course_progress@;
        let c1 =
            if exists|p: int|
                0 <= p < pre.course_progress@.len() && #[trigger] cp_matches(
                    pre.course_progress@[p],
                    user_id,
                    cid,
                ) {
                choose|p: int|
                    0 <= p < pre.course_progress@.len() && #[trigger] cp_matches(
                        pre.course_progress@[p],
                        user_id,
                        cid,
                    )
            } else {
                pre.course_progress@.len() as int
            };
        assert(cpt[c1] == cp1);
        assert(cp_matches(cpt[c1], user_id, cid));
        assert(cp_lookup(cpt, user_id, cid) == Some(cp1)) by {
            let q = choose|p: int|
                0 <= p < cpt.len() && #[trigger] cp_matches(cpt[p], user_id, cid);
            assert(q == c1);
        }
        assert(cp2 == cp1);
        assert(post.course_progress@ =~= cpt) by {
            let q = choose|p: int|
                0 <= p < cpt.len() && #[trigger] cp_matches(cpt[p], user_id, cid);
            assert(q == c1);
        }
    }
}

} // verus!
