//! The course catalog: creating a course with its nested modules and
//! lessons in one transaction, listing courses flat or with their full
//! module tree, updating and deleting them.

use vstd::prelude::*;

use crate::dtos::CreateCourseDTO;
use crate::dtos::CreateModuleDTO;
use crate::errors::ErrorMessage;
use crate::model::Course;
use crate::model::Lesson;
use crate::model::Module;
use crate::store::Store;

verus! {

/// How many lessons the first `k` modules of a creation request hold.
pub open spec fn lessons_before(mods: Seq<CreateModuleDTO>, k: int) -> int
    decreases k,
{
    if k <= 0 {
        0
    } else {
        lessons_before(mods, k - 1) + mods[k - 1].lessons@.len()
    }
}

/// The lesson count prefix sums are non-negative and monotone.
pub proof fn lemma_lessons_before_mono(mods: Seq<CreateModuleDTO>, a: int, b: int)
    requires
        0 <= a <= b,
    ensures
        0 <= lessons_before(mods, a) <= lessons_before(mods, b),
    decreases b,
{
    if b > a {
        lemma_lessons_before_mono(mods, a, b - 1);
    } else if b > 0 {
        lemma_lessons_before_mono(mods, a - 1, b - 1);
    }
}

/// The course row a creation request produces, with the id the store
/// hands out.
pub open spec fn created_course_row(dto: CreateCourseDTO, base: int, now: i64) -> Course {
    Course {
        id: base as u64,
        title: dto.title,
        description: dto.description,
        long_description: dto.long_description,
        level: dto.level,
        price_cents: dto.price_cents,
        duration: dto.duration,
        students: match dto.students {
            Some(s) => s,
            None => 0,
        },
        rating_tenths: match dto.rating_tenths {
            Some(x) => x,
            None => 50,
        },
        image: dto.image,
        category: dto.category,
        features: dto.features,
        paypal_product_id: dto.paypal_product_id,
        created_at: now,
        updated_at: now,
    }
}

/// The row of the `k`-th module of a creation request: identifiers are
/// handed out depth first, the course first, then each module followed
/// by its lessons, and the order is the one-based position.
pub open spec fn created_module_row(mods: Seq<CreateModuleDTO>, base: int, k: int) -> Module {
    Module {
        id: (base + 1 + k + lessons_before(mods, k)) as u64,
        course_id: base as u64,
        title: mods[k].title,
        order: (k + 1) as u64,
    }
}

/// The row of lesson `j` inside module `k` of a creation request.
pub open spec fn created_lesson_row(mods: Seq<CreateModuleDTO>, base: int, k: int, j: int) -> Lesson {
    let mid = base + 1 + k + lessons_before(mods, k);
    Lesson {
        id: (mid + 1 + j) as u64,
        module_id: mid as u64,
        title: mods[k].lessons@[j].title,
        duration: mods[k].lessons@[j].duration,
        kind: mods[k].lessons@[j].kind,
        content_url: mods[k].lessons@[j].content_url,
        description: mods[k].lessons@[j].description,
        order: (j + 1) as u64,
    }
}

/// Some stored course already uses this title.
pub open spec fn course_title_taken(courses: Seq<Course>, title: Seq<char>) -> bool {
    exists|j: int| 0 <= j < courses.len() && #[trigger] courses[j].title@ == title
}

impl Store {
    /// Creates a course together with its modules and lessons, as one
    /// transaction: either everything is inserted — the course row,
    /// one module row per request module in order, one lesson row per
    /// request lesson in order, with orders forced to the one-based
    /// positions — or, when the title is already taken, nothing is.
    pub fn create_course(&mut self, dto: CreateCourseDTO, now: i64) -> (r: Result<
        u64,
        ErrorMessage,
    >)
        requires
            old(self).wf(),
            old(self).next_id + 1 + dto.modules@.len() + lessons_before(
                dto.modules@,
                dto.modules@.len() as int,
            ) <= u64::MAX,
        ensures
            final(self).wf(),
            crate::store::same_but_courses_modules_lessons(*old(self), *final(self)),
            r is Err <==> course_title_taken(old(self).courses@, dto.title@),
            r is Err ==> r == Err::<u64, ErrorMessage>(ErrorMessage::CourseAlreadyExists)
                && *final(self) == *old(self),
            r matches Ok(cid) ==> ({
                let base = old(self).next_id as int;
                let mods = dto.modules@;
                let mlen = mods.len() as int;
                let llen = lessons_before(mods, mlen);
                &&& cid == old(self).next_id
                &&& final(self).courses@ == old(self).courses@.push(
                    created_course_row(dto, base, now),
                )
                &&& final(self).modules@.len() == old(self).modules@.len() + mlen
                &&& (forall|k: int|
                    0 <= k < mlen ==> final(self).modules@[old(self).modules@.len() + k]
                        == created_module_row(mods, base, k))
                &&& (forall|j: int|
                    0 <= j < old(self).modules@.len() ==> final(self).modules@[j] == old(
                        self,
                    ).modules@[j])
                &&& final(self).lessons@.len() == old(self).lessons@.len() + llen
                &&& (forall|k: int, j: int|
                    0 <= k < mlen && 0 <= j < mods[k].lessons@.len() ==> final(self).lessons@[old(
                        self,
                    ).lessons@.len() + lessons_before(mods, k) + j] == created_lesson_row(
                        mods,
                        base,
                        k,
                        j,
                    ))
                &&& (forall|j: int|
                    0 <= j < old(self).lessons@.len() ==> final(self).lessons@[j] == old(
                        self,
                    ).lessons@[j])
                &&& final(self).next_id == base + 1 + mlen + llen
            }),
    {
        let ghost mods = dto.modules@;
        let ghost base = old(self).next_id as int;
        let ghost old_mlen = old(self).modules@.len() as int;
        let ghost old_llen = old(self).lessons@.len() as int;

        // A second course under the same title is refused.
        let mut t: usize = 0;
        while t < self.courses.len()
            invariant
                old(self).wf(),
                *self == *old(self),
                t <= self.courses@.len(),
                forall|j: int| 0 <= j < t ==> self.courses@[j].title@ != dto.title@,
            decreases self.courses@.len() - t,
        {
            if crate::strutil::str_eq(self.courses[t].title.as_str(), dto.title.as_str()) {
                proof {
                    assert(old(self).courses@[t as int].title@ == dto.title@);
                }
                return Err(ErrorMessage::CourseAlreadyExists);
            }
            t = t + 1;
        }

        // The course row itself.
        let course = Course {
            id: self.next_id,
            title: dto.title.clone(),
            description: dto.description.clone(),
            long_description: crate::model::clone_opt_string(&dto.long_description),
            level: dto.level.clone(),
            price_cents: dto.price_cents,
            duration: crate::model::clone_opt_string(&dto.duration),
            students: match dto.students {
                Some(s) => s,
                None => 0,
            },
            rating_tenths: match dto.rating_tenths {
                Some(x) => x,
                None => 50,
            },
            image: crate::model::clone_opt_string(&dto.image),
            category: dto.category.clone(),
            features: crate::model::clone_opt_string(&dto.features),
            paypal_product_id: crate::model::clone_opt_string(&dto.paypal_product_id),
            created_at: now,
            updated_at: now,
        };
        let cid = self.next_id;
        proof {
            lemma_lessons_before_mono(mods, 0, mods.len() as int);
        }
        self.next_id = self.next_id + 1;
        self.courses.push(course);

        // Modules and lessons, depth first, orders forced to the
        // one-based positions.
        let m = dto.modules.len();
        let mut k: usize = 0;
        while k < m
            invariant
                old(self).wf(),
                self.wf(),
                crate::store::same_but_courses_modules_lessons(*old(self), *self),
                m == mods.len(),
                mods == dto.modules@,
                base == old(self).next_id as int,
                old_mlen == old(self).modules@.len() as int,
                old_llen == old(self).lessons@.len() as int,
                base + 1 + mods.len() + lessons_before(mods, mods.len() as int) <= u64::MAX,
                cid == base as u64,
                k <= m,
                self.courses@ == old(self).courses@.push(created_course_row(dto, base, now)),
                self.modules@.len() == old_mlen + k,
                forall|kk: int|
                    0 <= kk < k ==> self.modules@[old_mlen + kk] == created_module_row(
                        mods,
                        base,
                        kk,
                    ),
                forall|j: int| 0 <= j < old_mlen ==> self.modules@[j] == old(self).modules@[j],
                self.lessons@.len() == old_llen + lessons_before(mods, k as int),
                forall|kk: int, j: int|
                    0 <= kk < k && 0 <= j < mods[kk].lessons@.len() ==> self.lessons@[old_llen
                        + lessons_before(mods, kk) + j] == created_lesson_row(mods, base, kk, j),
                forall|j: int| 0 <= j < old_llen ==> self.lessons@[j] == old(self).lessons@[j],
                self.next_id == base + 1 + k + lessons_before(mods, k as int),
            decreases m - k,
        {
            proof {
                lemma_lessons_before_mono(mods, k as int, mods.len() as int);
                lemma_lessons_before_mono(mods, k + 1, mods.len() as int);
            }
            let mid = self.next_id;
            let module_row = Module {
                id: mid,
                course_id: cid,
                title: dto.modules[k].title.clone(),
                order: (k as u64) + 1,
            };
            self.next_id = self.next_id + 1;
            self.modules.push(module_row);

            let lcount = dto.modules[k].lessons.len();
            let mut j: usize = 0;
            while j < lcount
                invariant
                    old(self).wf(),
                    self.wf(),
                    crate::store::same_but_courses_modules_lessons(*old(self), *self),
                    m == mods.len(),
                    mods == dto.modules@,
                    base == old(self).next_id as int,
                    old_mlen == old(self).modules@.len() as int,
                    old_llen == old(self).lessons@.len() as int,
                    base + 1 + mods.len() + lessons_before(mods, mods.len() as int) <= u64::MAX,
                    cid == base as u64,
                    k < m,
                    lcount == mods[k as int].lessons@.len(),
                    mid == base + 1 + k + lessons_before(mods, k as int),
                    j <= lcount,
                    self.courses@ == old(self).courses@.push(created_course_row(dto, base, now)),
                    self.modules@.len() == old_mlen + k + 1,
                    forall|kk: int|
                        0 <= kk < k + 1 ==> self.modules@[old_mlen + kk] == created_module_row(
                            mods,
                            base,
                            kk,
                        ),
                    forall|jj: int| 0 <= jj < old_mlen ==> self.modules@[jj] == old(self).modules@[jj],
                    self.lessons@.len() == old_llen + lessons_before(mods, k as int) + j,
                    forall|kk: int, jj: int|
                        0 <= kk < k && 0 <= jj < mods[kk].lessons@.len() ==> self.lessons@[old_llen
                            + lessons_before(mods, kk) + jj] == created_lesson_row(
                            mods,
                            base,
                            kk,
                            jj,
                        ),
                    forall|jj: int|
                        0 <= jj < j ==> self.lessons@[old_llen + lessons_before(mods, k as int)
                            + jj] == created_lesson_row(mods, base, k as int, jj),
                    forall|jj: int|
                        0 <= jj < old_llen ==> self.lessons@[jj] == old(self).lessons@[jj],
                    self.next_id == mid + 1 + j,
                decreases lcount - j,
            {
                proof {
                    lemma_lessons_before_mono(mods, k + 1, mods.len() as int);
                }
                let lesson_row = Lesson {
                    id: self.next_id,
                    module_id: mid,
                    title: dto.modules[k].lessons[j].title.clone(),
                    duration: crate::model::clone_opt_string(&dto.modules[k].lessons[j].duration),
                    kind: dto.modules[k].lessons[j].kind.clone(),
                    content_url: crate::model::clone_opt_string(
                        &dto.modules[k].lessons[j].content_url,
                    ),
                    description: crate::model::clone_opt_string(
                        &dto.modules[k].lessons[j].description,
                    ),
                    order: (j as u64) + 1,
                };
                self.next_id = self.next_id + 1;
                let ghost pre_push = self.lessons@;
                proof {
                    assert(pre_push.len() == old_llen + lessons_before(mods, k as int) + j);
                    assert(lesson_row == created_lesson_row(mods, base, k as int, j as int));
                }
                self.lessons.push(lesson_row);
                proof {
                    assert(self.lessons@[old_llen + lessons_before(mods, k as int) + j as int]
                        == created_lesson_row(mods, base, k as int, j as int));
                    // Rows of earlier modules sit strictly below the
                    // pushed position.
                    assert forall|kk: int, jj: int|
                        0 <= kk < k && 0 <= jj < mods[kk].lessons@.len() implies self.lessons@[
                        old_llen + lessons_before(mods, kk) + jj] == created_lesson_row(
                        mods,
                        base,
                        kk,
                        jj,
                    ) by {
                        lemma_lessons_before_mono(mods, kk + 1, k as int);
                        lemma_lessons_before_mono(mods, 0, kk);
                        assert(lessons_before(mods, kk + 1) == lessons_before(mods, kk)
                            + mods[kk].lessons@.len());
                        assert(lessons_before(mods, kk) + jj < lessons_before(mods, kk + 1));
                        assert(old_llen + lessons_before(mods, kk) + jj < old_llen
                            + lessons_before(mods, k as int) + j);
                        assert(old_llen + lessons_before(mods, kk) + jj < pre_push.len());
                        assert(self.lessons@[old_llen + lessons_before(mods, kk) + jj]
                            == pre_push[old_llen + lessons_before(mods, kk) + jj]);
                    }
                    // The rows that predate this course are untouched.
                    assert forall|jj: int| 0 <= jj < old_llen implies self.lessons@[jj]
                        == pre_push[jj] by {
                        lemma_lessons_before_mono(mods, 0, k as int);
                        assert(jj < pre_push.len());
                    }
                    // Rows of this module written so far, plus the one
                    // just pushed.
                    assert forall|jj: int|
                        0 <= jj < j + 1 implies self.lessons@[old_llen + lessons_before(
                        mods,
                        k as int,
                    ) + jj] == created_lesson_row(mods, base, k as int, jj) by {
                        lemma_lessons_before_mono(mods, 0, k as int);
                        if jj < j {
                            assert(old_llen + lessons_before(mods, k as int) + jj
                                < pre_push.len());
                            assert(self.lessons@[old_llen + lessons_before(mods, k as int) + jj]
                                == pre_push[old_llen + lessons_before(mods, k as int) + jj]);
                        }
                    }
                }
                j = j + 1;
            }
            k = k + 1;
            proof {
                // One unrolling of the prefix sum at the new bound.
                assert(lessons_before(mods, k as int) == lessons_before(mods, k as int - 1)
                    + mods[k as int - 1].lessons@.len());
            }
        }
        Ok(cid)
    }
}

/// The course with this id, if any.
pub open spec fn course_by_id(courses: Seq<Course>, id: u64) -> Option<Course> {
    if exists|p: int| 0 <= p < courses.len() && #[trigger] courses[p].id == id {
        Some(courses[choose|p: int| 0 <= p < courses.len() && #[trigger] courses[p].id == id])
    } else {
        None
    }
}

/// The modules of one course, in table order.
pub open spec fn modules_of(modules: Seq<Module>, course_id: u64) -> Seq<Module>
    decreases modules.len(),
{
    if modules.len() == 0 {
        Seq::<Module>::empty()
    } else {
        let prefix = modules_of(modules.drop_last(), course_id);
        if modules.last().course_id == course_id {
            prefix.push(modules.last())
        } else {
            prefix
        }
    }
}

/// The lessons of one module, in table order.
pub open spec fn lessons_of(lessons: Seq<Lesson>, module_id: u64) -> Seq<Lesson>
    decreases lessons.len(),
{
    if lessons.len() == 0 {
        Seq::<Lesson>::empty()
    } else {
        let prefix = lessons_of(lessons.drop_last(), module_id);
        if lessons.last().module_id == module_id {
            prefix.push(lessons.last())
        } else {
            prefix
        }
    }
}

/// Every module but those of one course, in table order.
pub open spec fn modules_except(modules: Seq<Module>, course_id: u64) -> Seq<Module>
    decreases modules.len(),
{
    if modules.len() == 0 {
        Seq::<Module>::empty()
    } else {
        let prefix = modules_except(modules.drop_last(), course_id);
        if modules.last().course_id != course_id {
            prefix.push(modules.last())
        } else {
            prefix
        }
    }
}

/// Every lesson but those reached from one course, in table order.
pub open spec fn lessons_except(lessons: Seq<Lesson>, modules: Seq<Module>, course_id: u64) -> Seq<
    Lesson,
>
    decreases lessons.len(),
{
    if lessons.len() == 0 {
        Seq::<Lesson>::empty()
    } else {
        let prefix = lessons_except(lessons.drop_last(), modules, course_id);
        if !crate::progress::is_course_lesson(modules, lessons.last(), course_id) {
            prefix.push(lessons.last())
        } else {
            prefix
        }
    }
}

/// Every element a module filter keeps comes from its input.
proof fn lemma_modules_except_mem(modules: Seq<Module>, course_id: u64)
    ensures
        forall|x: int|
            0 <= x < modules_except(modules, course_id).len() ==> modules.contains(
                #[trigger] modules_except(modules, course_id)[x],
            ),
    decreases modules.len(),
{
    if modules.len() > 0 {
        lemma_modules_except_mem(modules.drop_last(), course_id);
        assert forall|x: int|
            0 <= x < modules_except(modules, course_id).len() implies modules.contains(
            #[trigger] modules_except(modules, course_id)[x],
        ) by {
            let r = modules_except(modules, course_id);
            let rp = modules_except(modules.drop_last(), course_id);
            if x < rp.len() {
                let y = choose|y: int| 0 <= y < modules.drop_last().len() && modules.drop_last()[y]
                    == rp[x];
                assert(modules[y] == r[x]);
            } else {
                assert(modules[modules.len() - 1] == r[x]);
            }
        }
    }
}

/// The module filter keeps identifiers pairwise distinct and bounded.
proof fn lemma_modules_except_distinct(modules: Seq<Module>, course_id: u64, bound: u64)
    requires
        forall|i: int, j: int| 0 <= i < j < modules.len() ==> modules[i].id != modules[j].id,
        forall|i: int| 0 <= i < modules.len() ==> modules[i].id < bound,
    ensures
        forall|i: int, j: int|
            0 <= i < j < modules_except(modules, course_id).len() ==> modules_except(
                modules,
                course_id,
            )[i].id != modules_except(modules, course_id)[j].id,
        forall|i: int|
            0 <= i < modules_except(modules, course_id).len() ==> modules_except(
                modules,
                course_id,
            )[i].id < bound,
    decreases modules.len(),
{
    if modules.len() > 0 {
        let d = modules.drop_last();
        lemma_modules_except_distinct(d, course_id, bound);
        lemma_modules_except_mem(d, course_id);
        let r = modules_except(modules, course_id);
        let rp = modules_except(d, course_id);
        assert forall|i: int, j: int| 0 <= i < j < r.len() implies r[i].id != r[j].id by {
            if j == rp.len() {
                // The appended row is the input's last; every earlier
                // kept row comes from the input's front.
                let y = choose|y: int| 0 <= y < d.len() && d[y] == rp[i];
                assert(modules[y] == rp[i]);
                assert(modules[y].id != modules[modules.len() - 1].id);
            }
        }
        assert forall|i: int| 0 <= i < r.len() implies r[i].id < bound by {
            if i < rp.len() {
                let y = choose|y: int| 0 <= y < d.len() && d[y] == rp[i];
                assert(modules[y] == rp[i]);
            }
        }
    }
}

/// Every element a lesson filter keeps comes from its input.
proof fn lemma_lessons_except_mem(lessons: Seq<Lesson>, modules: Seq<Module>, course_id: u64)
    ensures
        forall|x: int|
            0 <= x < lessons_except(lessons, modules, course_id).len() ==> lessons.contains(
                #[trigger] lessons_except(lessons, modules, course_id)[x],
            ),
    decreases lessons.len(),
{
    if lessons.len() > 0 {
        lemma_lessons_except_mem(lessons.drop_last(), modules, course_id);
        assert forall|x: int|
            0 <= x < lessons_except(lessons, modules, course_id).len() implies lessons.contains(
            #[trigger] lessons_except(lessons, modules, course_id)[x],
        ) by {
            let r = lessons_except(lessons, modules, course_id);
            let rp = lessons_except(lessons.drop_last(), modules, course_id);
            if x < rp.len() {
                let y = choose|y: int| 0 <= y < lessons.drop_last().len() && lessons.drop_last()[y]
                    == rp[x];
                assert(lessons[y] == r[x]);
            } else {
                assert(lessons[lessons.len() - 1] == r[x]);
            }
        }
    }
}

/// The lesson filter keeps identifiers pairwise distinct and bounded.
proof fn lemma_lessons_except_distinct(
    lessons: Seq<Lesson>,
    modules: Seq<Module>,
    course_id: u64,
    bound: u64,
)
    requires
        forall|i: int, j: int| 0 <= i < j < lessons.len() ==> lessons[i].id != lessons[j].id,
        forall|i: int| 0 <= i < lessons.len() ==> lessons[i].id < bound,
    ensures
        forall|i: int, j: int|
            0 <= i < j < lessons_except(lessons, modules, course_id).len() ==> lessons_except(
                lessons,
                modules,
                course_id,
            )[i].id != lessons_except(lessons, modules, course_id)[j].id,
        forall|i: int|
            0 <= i < lessons_except(lessons, modules, course_id).len() ==> lessons_except(
                lessons,
                modules,
                course_id,
            )[i].id < bound,
    decreases lessons.len(),
{
    if lessons.len() > 0 {
        let d = lessons.drop_last();
        lemma_lessons_except_distinct(d, modules, course_id, bound);
        lemma_lessons_except_mem(d, modules, course_id);
        let r = lessons_except(lessons, modules, course_id);
        let rp = lessons_except(d, modules, course_id);
        assert forall|i: int, j: int| 0 <= i < j < r.len() implies r[i].id != r[j].id by {
            if j == rp.len() {
                let y = choose|y: int| 0 <= y < d.len() && d[y] == rp[i];
                assert(lessons[y] == rp[i]);
                assert(lessons[y].id != lessons[lessons.len() - 1].id);
            }
        }
        assert forall|i: int| 0 <= i < r.len() implies r[i].id < bound by {
            if i < rp.len() {
                let y = choose|y: int| 0 <= y < d.len() && d[y] == rp[i];
                assert(lessons[y] == rp[i]);
            }
        }
    }
}

/// The courses an account bought, resolved against the catalog in
/// record order; a dangling entitlement is skipped.
pub open spec fn user_courses_list(
    uc: Seq<crate::model::UserCourse>,
    courses: Seq<Course>,
    user_id: u64,
) -> Seq<Course>
    decreases uc.len(),
{
    if uc.len() == 0 {
        Seq::<Course>::empty()
    } else {
        let prefix = user_courses_list(uc.drop_last(), courses, user_id);
        if uc.last().user_id == user_id {
            match course_by_id(courses, uc.last().course_id) {
                Some(c) => prefix.push(c),
                None => prefix,
            }
        } else {
            prefix
        }
    }
}

/// A served lesson mirrors its row, with no per-account completion
/// attached.
pub open spec fn lesson_dto_matches(d: crate::dtos::LessonDto, l: Lesson) -> bool {
    &&& d.id == l.id
    &&& d.title@ == l.title@
    &&& (match (d.duration, l.duration) {
        (Some(a), Some(b)) => a@ == b@,
        (None, None) => true,
        _ => false,
    })
    &&& d.completed is None
    &&& d.kind@ == l.kind@
    &&& (match (d.content_url, l.content_url) {
        (Some(a), Some(b)) => a@ == b@,
        (None, None) => true,
        _ => false,
    })
    &&& (match (d.description, l.description) {
        (Some(a), Some(b)) => a@ == b@,
        (None, None) => true,
        _ => false,
    })
    &&& d.order == l.order
}

/// A served module mirrors its row and carries exactly its lessons,
/// in table order.
pub open spec fn module_dto_matches(
    d: crate::dtos::ModuleWithLessonsDto,
    m: Module,
    lessons: Seq<Lesson>,
) -> bool {
    &&& d.id == m.id
    &&& d.title@ == m.title@
    &&& d.order == m.order
    &&& d.lessons@.len() == lessons_of(lessons, m.id).len()
    &&& (forall|j: int|
        0 <= j < d.lessons@.len() ==> lesson_dto_matches(
            #[trigger] d.lessons@[j],
            lessons_of(lessons, m.id)[j],
        ))
}

/// A served course mirrors its row and carries exactly its modules,
/// in table order, each with its lessons.
pub open spec fn course_dto_matches(
    d: crate::dtos::CourseWithModulesDto,
    c: Course,
    modules: Seq<Module>,
    lessons: Seq<Lesson>,
) -> bool {
    &&& d.id == c.id
    &&& d.title@ == c.title@
    &&& d.description@ == c.description@
    &&& (match (d.long_description, c.long_description) {
        (Some(a), Some(b)) => a@ == b@,
        (None, None) => true,
        _ => false,
    })
    &&& d.price_cents == c.price_cents
    &&& d.level@ == c.level@
    &&& (match (d.duration, c.duration) {
        (Some(a), Some(b)) => a@ == b@,
        (None, None) => true,
        _ => false,
    })
    &&& d.students == c.students
    &&& d.rating_tenths == c.rating_tenths
    &&& (match (d.image, c.image) {
        (Some(a), Some(b)) => a@ == b@,
        (None, None) => true,
        _ => false,
    })
    &&& d.category@ == c.category@
    &&& (match (d.features, c.features) {
        (Some(a), Some(b)) => a@ == b@,
        (None, None) => true,
        _ => false,
    })
    &&& d.created_at == c.created_at
    &&& d.updated_at == c.updated_at
    &&& d.modules@.len() == modules_of(modules, c.id).len()
    &&& (forall|k: int|
        0 <= k < d.modules@.len() ==> module_dto_matches(
            #[trigger] d.modules@[k],
            modules_of(modules, c.id)[k],
            lessons,
        ))
}

impl Store {
    /// The course with this id, if any.
    pub fn get_course(&self, course_id: u64) -> (r: Option<Course>)
        requires
            self.wf(),
        ensures
            r == course_by_id(self.courses@, course_id),
    {
        match self.find_course_by_id(course_id) {
            Some(i) => {
                proof {
                    let q = choose|p: int|
                        0 <= p < self.courses@.len() && #[trigger] self.courses@[p].id
                            == course_id;
                    assert(q == i as int);
                }
                Some(self.courses[i].clone())
            },
            None => None,
        }
    }

    /// One page of courses, newest first; pages are one-based.
    pub fn get_courses(&self, page: u32, limit: usize) -> (r: Vec<Course>)
        requires
            page >= 1,
        ensures
            ({
                let len = self.courses@.len() as int;
                let off = (page - 1) as int * limit as int;
                &&& r@.len() == (if off >= len {
                    0int
                } else if off + limit as int <= len {
                    limit as int
                } else {
                    len - off
                })
                &&& forall|k: int|
                    0 <= k < r@.len() ==> #[trigger] r@[k] == self.courses@[len - 1 - off - k]
            }),
    {
        let len = self.courses.len();
        proof {
            assert((page - 1) as int * limit as int <= 0xFFFF_FFFFint * 0xFFFF_FFFF_FFFF_FFFFint)
                by (nonlinear_arith)
                requires
                    0 <= (page - 1) as int <= 0xFFFF_FFFFint,
                    0 <= limit as int <= 0xFFFF_FFFF_FFFF_FFFFint,
            ;
        }
        let off128: u128 = (page - 1) as u128 * limit as u128;
        let mut r: Vec<Course> = Vec::new();
        if off128 >= len as u128 {
            return r;
        }
        let off: usize = off128 as usize;
        let count: usize = if limit <= len - off {
            limit
        } else {
            len - off
        };
        let mut k: usize = 0;
        while k < count
            invariant
                count <= len - off,
                len == self.courses@.len(),
                off == (page - 1) as int * limit as int,
                k <= count,
                r@.len() == k as int,
                forall|j: int|
                    0 <= j < k ==> #[trigger] r@[j] == self.courses@[len as int - 1 - off - j],
            decreases count - k,
        {
            r.push(self.courses[len - 1 - off - k].clone());
            k = k + 1;
        }
        r
    }

    /// How many courses exist.
    pub fn get_course_count(&self) -> (r: u64)
        ensures
            r == self.courses@.len(),
    {
        self.courses.len() as u64
    }

    /// The courses the account bought, in record order.
    pub fn get_user_courses(&self, user_id: u64) -> (r: Vec<Course>)
        requires
            self.wf(),
        ensures
            r@ == user_courses_list(self.user_courses@, self.courses@, user_id),
    {
        let mut r: Vec<Course> = Vec::new();
        let mut i: usize = 0;
        while i < self.user_courses.len()
            invariant
                self.wf(),
                i <= self.user_courses@.len(),
                r@ == user_courses_list(
                    self.user_courses@.take(i as int),
                    self.courses@,
                    user_id,
                ),
            decreases self.user_courses@.len() - i,
        {
            proof {
                assert(self.user_courses@.take(i + 1).drop_last() =~= self.user_courses@.take(
                    i as int,
                ));
                assert(self.user_courses@.take(i + 1).last() == self.user_courses@[i as int]);
            }
            if self.user_courses[i].user_id == user_id {
                let course_id = self.user_courses[i].course_id;
                match self.find_course_by_id(course_id) {
                    Some(ci) => {
                        proof {
                            let q = choose|p: int|
                                0 <= p < self.courses@.len() && #[trigger] self.courses@[p].id
                                    == course_id;
                            assert(q == ci as int);
                        }
                        r.push(self.courses[ci].clone());
                    },
                    None => {},
                }
            }
            i = i + 1;
        }
        proof {
            assert(self.user_courses@.take(self.user_courses@.len() as int)
                =~= self.user_courses@);
        }
        r
    }

    /// Serves one course with its module tree: the modules of the
    /// course in table order, each with its lessons in table order.
    fn course_with_modules(&self, ci: usize) -> (r: crate::dtos::CourseWithModulesDto)
        requires
            self.wf(),
            ci < self.courses@.len(),
        ensures
            course_dto_matches(r, self.courses@[ci as int], self.modules@, self.lessons@),
    {
        let c = &self.courses[ci];
        let cid = c.id;
        let mut module_dtos: Vec<crate::dtos::ModuleWithLessonsDto> = Vec::new();
        let mut k: usize = 0;
        while k < self.modules.len()
            invariant
                self.wf(),
                ci < self.courses@.len(),
                cid == self.courses@[ci as int].id,
                k <= self.modules@.len(),
                module_dtos@.len() == modules_of(self.modules@.take(k as int), cid).len(),
                forall|kk: int|
                    0 <= kk < module_dtos@.len() ==> module_dto_matches(
                        #[trigger] module_dtos@[kk],
                        modules_of(self.modules@.take(k as int), cid)[kk],
                        self.lessons@,
                    ),
            decreases self.modules@.len() - k,
        {
            proof {
                assert(self.modules@.take(k + 1).drop_last() =~= self.modules@.take(k as int));
                assert(self.modules@.take(k + 1).last() == self.modules@[k as int]);
            }
            if self.modules[k].course_id == cid {
                let mid = self.modules[k].id;
                let mut lesson_dtos: Vec<crate::dtos::LessonDto> = Vec::new();
                let mut t: usize = 0;
                while t < self.lessons.len()
                    invariant
                        self.wf(),
                        k < self.modules@.len(),
                        mid == self.modules@[k as int].id,
                        t <= self.lessons@.len(),
                        lesson_dtos@.len() == lessons_of(self.lessons@.take(t as int), mid).len(),
                        forall|jj: int|
                            0 <= jj < lesson_dtos@.len() ==> lesson_dto_matches(
                                #[trigger] lesson_dtos@[jj],
                                lessons_of(self.lessons@.take(t as int), mid)[jj],
                            ),
                    decreases self.lessons@.len() - t,
                {
                    proof {
                        assert(self.lessons@.take(t + 1).drop_last() =~= self.lessons@.take(
                            t as int,
                        ));
                        assert(self.lessons@.take(t + 1).last() == self.lessons@[t as int]);
                    }
                    if self.lessons[t].module_id == mid {
                        lesson_dtos.push(
                            crate::dtos::LessonDto {
                                id: self.lessons[t].id,
                                title: self.lessons[t].title.clone(),
                                duration: crate::model::clone_opt_string(
                                    &self.lessons[t].duration,
                                ),
                                completed: None,
                                kind: self.lessons[t].kind.clone(),
                                content_url: crate::model::clone_opt_string(
                                    &self.lessons[t].content_url,
                                ),
                                description: crate::model::clone_opt_string(
                                    &self.lessons[t].description,
                                ),
                                order: self.lessons[t].order,
                            },
                        );
                    }
                    t = t + 1;
                }
                proof {
                    assert(self.lessons@.take(self.lessons@.len() as int) =~= self.lessons@);
                }
                module_dtos.push(
                    crate::dtos::ModuleWithLessonsDto {
                        id: mid,
                        title: self.modules[k].title.clone(),
                        order: self.modules[k].order,
                        lessons: lesson_dtos,
                    },
                );
            }
            k = k + 1;
        }
        proof {
            assert(self.modules@.take(self.modules@.len() as int) =~= self.modules@);
        }
        crate::dtos::CourseWithModulesDto {
            id: c.id,
            title: c.title.clone(),
            description: c.description.clone(),
            long_description: crate::model::clone_opt_string(&c.long_description),
            price_cents: c.price_cents,
            level: c.level.clone(),
            duration: crate::model::clone_opt_string(&c.duration),
            students: c.students,
            rating_tenths: c.rating_tenths,
            image: crate::model::clone_opt_string(&c.image),
            category: c.category.clone(),
            features: crate::model::clone_opt_string(&c.features),
            created_at: c.created_at,
            updated_at: c.updated_at,
            modules: module_dtos,
        }
    }

    /// Serves every course with its module tree, in catalog order.
    pub fn get_all_courses_with_modules(&self) -> (r: Vec<crate::dtos::CourseWithModulesDto>)
        requires
            self.wf(),
        ensures
            r@.len() == self.courses@.len(),
            forall|i: int|
                0 <= i < r@.len() ==> course_dto_matches(
                    #[trigger] r@[i],
                    self.courses@[i],
                    self.modules@,
                    self.lessons@,
                ),
    {
        let mut r: Vec<crate::dtos::CourseWithModulesDto> = Vec::new();
        let mut i: usize = 0;
        while i < self.courses.len()
            invariant
                self.wf(),
                i <= self.courses@.len(),
                r@.len() == i as int,
                forall|j: int|
                    0 <= j < i ==> course_dto_matches(
                        #[trigger] r@[j],
                        self.courses@[j],
                        self.modules@,
                        self.lessons@,
                    ),
            decreases self.courses@.len() - i,
        {
            let dto = self.course_with_modules(i);
            r.push(dto);
            i = i + 1;
        }
        r
    }

    /// Serves one course with its module tree, by id.
    pub fn get_course_with_videos(&self, course_id: u64) -> (r: Option<
        crate::dtos::CourseWithModulesDto,
    >)
        requires
            self.wf(),
        ensures
            r is Some <==> (exists|i: int|
                0 <= i < self.courses@.len() && #[trigger] self.courses@[i].id == course_id),
            r matches Some(d) ==> exists|i: int|
                {
                    &&& 0 <= i < self.courses@.len()
                    &&& #[trigger] self.courses@[i].id == course_id
                    &&& course_dto_matches(d, self.courses@[i], self.modules@, self.lessons@)
                },
    {
        match self.find_course_by_id(course_id) {
            Some(i) => Some(self.course_with_modules(i)),
            None => None,
        }
    }

    /// Applies a partial update to a course's own fields: a field is
    /// overwritten exactly when a new value was sent for it. The
    /// module tree is left as it stands; the updated course is served
    /// with it.
    pub fn update_course(&mut self, course_id: u64, dto: crate::dtos::UpdateCourseDTO, now: i64)
        -> (r: Result<crate::dtos::CourseWithModulesDto, ErrorMessage>)
        requires
            old(self).wf(),
        ensures
            final(self).wf(),
            crate::store::same_but_courses_modules_lessons(*old(self), *final(self)),
            final(self).modules == old(self).modules,
            final(self).lessons == old(self).lessons,
            final(self).next_id == old(self).next_id,
            r is Err ==> r == Err::<crate::dtos::CourseWithModulesDto, ErrorMessage>(
                ErrorMessage::CourseNotFound,
            ) && *final(self) == *old(self) && (forall|j: int|
                0 <= j < old(self).courses@.len() ==> old(self).courses@[j].id != course_id),
            r matches Ok(d) ==> exists|i: int|
                {
                    &&& 0 <= i < old(self).courses@.len()
                    &&& #[trigger] old(self).courses@[i].id == course_id
                    &&& final(self).courses@ == old(self).courses@.update(
                        i,
                        updated_course_row(old(self).courses@[i], dto, now),
                    )
                    &&& course_dto_matches(
                        d,
                        updated_course_row(old(self).courses@[i], dto, now),
                        old(self).modules@,
                        old(self).lessons@,
                    )
                },
    {
        let ci = match self.find_course_by_id(course_id) {
            Some(ci) => ci,
            None => {
                return Err(ErrorMessage::CourseNotFound);
            },
        };
        let mut row = self.courses[ci].clone();
        row.title = match dto.title {
            Some(x) => x,
            None => row.title,
        };
        row.description = match dto.description {
            Some(x) => x,
            None => row.description,
        };
        row.long_description = match dto.long_description {
            Some(x) => Some(x),
            None => row.long_description,
        };
        row.level = match dto.level {
            Some(x) => x,
            None => row.level,
        };
        row.price_cents = match dto.price_cents {
            Some(x) => x,
            None => row.price_cents,
        };
        row.duration = match dto.duration {
            Some(x) => Some(x),
            None => row.duration,
        };
        row.students = match dto.students {
            Some(x) => x,
            None => row.students,
        };
        row.rating_tenths = match dto.rating_tenths {
            Some(x) => x,
            None => row.rating_tenths,
        };
        row.image = match dto.image {
            Some(x) => Some(x),
            None => row.image,
        };
        row.category = match dto.category {
            Some(x) => x,
            None => row.category,
        };
        row.features = match dto.features {
            Some(x) => Some(x),
            None => row.features,
        };
        row.updated_at = now;
        self.courses[ci] = row;
        Ok(self.course_with_modules(ci))
    }

    /// Deletes a course and everything under it: the course row, its
    /// modules, and their lessons all go; everything else stands.
    pub fn delete_course(&mut self, course_id: u64) -> (r: Result<(), ErrorMessage>)
        requires
            old(self).wf(),
        ensures
            final(self).wf(),
            crate::store::same_but_courses_modules_lessons(*old(self), *final(self)),
            final(self).next_id == old(self).next_id,
            r is Ok,
            (forall|j: int|
                0 <= j < old(self).courses@.len() ==> old(self).courses@[j].id != course_id)
                ==> final(self).courses == old(self).courses,
            (exists|j: int|
                0 <= j < old(self).courses@.len() && #[trigger] old(self).courses@[j].id
                    == course_id) ==> exists|i: int|
                {
                    &&& 0 <= i < old(self).courses@.len()
                    &&& #[trigger] old(self).courses@[i].id == course_id
                    &&& final(self).courses@ == old(self).courses@.remove(i)
                },
            final(self).modules@ == modules_except(old(self).modules@, course_id),
            final(self).lessons@ == lessons_except(
                old(self).lessons@,
                old(self).modules@,
                course_id,
            ),
    {
        // Drop the course row itself.
        match self.find_course_by_id(course_id) {
            Some(i) => {
                proof {
                    assert(exists|p: int|
                        0 <= p < self.courses@.len() && #[trigger] self.courses@[p].id
                            == course_id);
                }
                self.courses.remove(i);
            },
            None => {},
        }
        let ghost old_modules = self.modules@;
        let ghost old_lessons = self.lessons@;

        // Drop its modules.
        let mut kept_modules: Vec<Module> = Vec::new();
        let mut k: usize = 0;
        while k < self.modules.len()
            invariant
                k <= self.modules@.len(),
                self.modules@ == old_modules,
                kept_modules@ == modules_except(self.modules@.take(k as int), course_id),
            decreases self.modules@.len() - k,
        {
            proof {
                assert(self.modules@.take(k + 1).drop_last() =~= self.modules@.take(k as int));
                assert(self.modules@.take(k + 1).last() == self.modules@[k as int]);
            }
            if self.modules[k].course_id != course_id {
                kept_modules.push(self.modules[k].clone());
            }
            k = k + 1;
        }
        proof {
            assert(self.modules@.take(self.modules@.len() as int) =~= self.modules@);
        }

        // Drop the lessons of those modules.
        let mut kept_lessons: Vec<Lesson> = Vec::new();
        let mut t: usize = 0;
        while t < self.lessons.len()
            invariant
                self.wf_catalog(),
                t <= self.lessons@.len(),
                self.modules@ == old_modules,
                self.lessons@ == old_lessons,
                kept_lessons@ == lessons_except(
                    self.lessons@.take(t as int),
                    old_modules,
                    course_id,
                ),
            decreases self.lessons@.len() - t,
        {
            proof {
                assert(self.lessons@.take(t + 1).drop_last() =~= self.lessons@.take(t as int));
                assert(self.lessons@.take(t + 1).last() == self.lessons@[t as int]);
            }
            let module_id = self.lessons[t].module_id;
            let in_course = match self.find_module_by_id(module_id) {
                Some(mi) => self.modules[mi].course_id == course_id,
                None => false,
            };
            proof {
                if in_course {
                    assert(crate::progress::is_course_lesson(
                        old_modules,
                        self.lessons@[t as int],
                        course_id,
                    ));
                } else {
                    assert(!crate::progress::is_course_lesson(
                        old_modules,
                        self.lessons@[t as int],
                        course_id,
                    ));
                }
            }
            if !in_course {
                kept_lessons.push(self.lessons[t].clone());
            }
            t = t + 1;
        }
        proof {
            assert(self.lessons@.take(self.lessons@.len() as int) =~= self.lessons@);
        }

        self.modules = kept_modules;
        self.lessons = kept_lessons;
        proof {
            lemma_modules_except_distinct(old_modules, course_id, self.next_id);
            lemma_lessons_except_distinct(old_lessons, old_modules, course_id, self.next_id);
        }
        Ok(())
    }
}

/// A course row after a partial update: each field overwritten exactly
/// when a new value was sent.
pub open spec fn updated_course_row(c: Course, dto: crate::dtos::UpdateCourseDTO, now: i64) -> Course {
    Course {
        title: crate::store::coalesce(dto.title, c.title),
        description: crate::store::coalesce(dto.description, c.description),
        long_description: crate::store::coalesce_opt(dto.long_description, c.long_description),
        level: crate::store::coalesce(dto.level, c.level),
        price_cents: crate::store::coalesce(dto.price_cents, c.price_cents),
        duration: crate::store::coalesce_opt(dto.duration, c.duration),
        students: crate::store::coalesce(dto.students, c.students),
        rating_tenths: crate::store::coalesce(dto.rating_tenths, c.rating_tenths),
        image: crate::store::coalesce_opt(dto.image, c.image),
        category: crate::store::coalesce(dto.category, c.category),
        features: crate::store::coalesce_opt(dto.features, c.features),
        updated_at: now,
        ..c
    }
}

} // verus!
