use vstd::prelude::*;
use crate::key::Pubkey;
use crate::error::{Constraint, ErrorCode, InstructionError};
use crate::state::{Config, Course, Enrollment};
use crate::history::{fresh_lifecycle, lifecycle, step_allowed, take_step, Step};
use crate::progress::{
    completed_count, is_lesson_done, lemma_count_no_lessons, lemma_count_with_lesson, lemma_with_lesson_done, lesson_done,
    no_lessons, progress_within, with_lesson, LESSON_CAPACITY,
};

verus! {

/// The least time (in seconds) between enrolling and closing an incomplete enrollment.
pub const UNENROLL_COOLDOWN: i64 = 86400;

/// The accounts of `enroll`: a fresh enrollment, and the learner's enrollment
/// in the prerequisite course when one is handed in.
pub struct Enroll {
    pub learner: Pubkey,
    pub course: Course,
    /// The address of the course account.
    pub course_key: Pubkey,
    pub enrollment: Enrollment,
    pub enrollment_bump: u8,
    pub prerequisite_enrollment: Option<Enrollment>,
}

/// The learner may take the course as far as prerequisites go: either it has
/// none, or the learner's completed enrollment in it is handed in.
pub open spec fn prerequisite_met(ctx: Enroll) -> bool {
    match ctx.course.prerequisite {
        None => true,
        Some(prereq_course) => match ctx.prerequisite_enrollment {
            None => false,
            Some(prereq) => {
                &&& prereq.learner == ctx.learner
                &&& prereq.course == prereq_course
                &&& prereq.completed_at is Some
            },
        },
    }
}

/// Why `enroll` refuses, if it does.
pub open spec fn enroll_rejection(ctx: Enroll) -> Option<InstructionError> {
    if !ctx.course.is_active {
        Some(InstructionError::Program(ErrorCode::CourseNotActive))
    } else if !prerequisite_met(ctx) {
        Some(InstructionError::Program(ErrorCode::PrerequisiteNotMet))
    } else {
        None
    }
}

/// The enrollment that `enroll` writes: no lesson completed, no credential.
pub open spec fn fresh_enrollment(ctx: Enroll, now: i64) -> Enrollment {
    Enrollment {
        course: ctx.course_key,
        learner: ctx.learner,
        lesson_flags: [0u64, 0u64, 0u64, 0u64],
        enrolled_at: now,
        completed_at: None,
        credential_asset: None,
        bump: ctx.enrollment_bump,
    }
}

/// The event announcing an enrollment.
#[derive(Clone, Copy, Debug, PartialEq, Eq)]
pub struct Enrolled {
    pub course: Pubkey,
    pub learner: Pubkey,
    pub enrolled_at: i64,
}

/// A learner enrolls in an active course whose prerequisite (if any) they have
/// completed; the enrollment starts at `now` with no lesson done, and the
/// result is the event that announces it.
pub fn enroll(ctx: &mut Enroll, now: i64) -> (r: Result<Enrolled, InstructionError>)
    ensures
        r is Err <==> enroll_rejection(*old(ctx)) is Some,
        r matches Err(e) ==> enroll_rejection(*old(ctx)) == Some(e),
        r is Err ==> *final(ctx) == *old(ctx),
        r is Ok ==> r == Ok::<Enrolled, InstructionError>(
            Enrolled { course: old(ctx).course_key, learner: old(ctx).learner, enrolled_at: now },
        ),
        r is Ok ==> final(ctx).enrollment.credential_after_completion(),
        r is Ok ==> lifecycle(final(ctx).enrollment) == fresh_lifecycle(),
        r is Ok ==> {
            &&& final(ctx).enrollment.course == old(ctx).course_key
            &&& final(ctx).enrollment.learner == old(ctx).learner
            &&& final(ctx).enrollment.enrolled_at == now
            &&& final(ctx).enrollment.completed_at is None
            &&& final(ctx).enrollment.credential_asset is None
            &&& final(ctx).enrollment.bump == old(ctx).enrollment_bump
            &&& forall|j: int| !lesson_done(final(ctx).enrollment.lesson_flags@, j)
        },
        !old(ctx).course.is_active ==> r == Err::<Enrolled, InstructionError>(
            InstructionError::Program(ErrorCode::CourseNotActive),
        ),
        r is Ok <==> old(ctx).course.is_active && (old(ctx).course.prerequisite matches Some(p)
            ==> (old(ctx).prerequisite_enrollment matches Some(pe) && pe.learner == old(ctx).learner
            && pe.course == p && pe.completed_at is Some)),
        r is Ok ==> final(ctx).enrollment == fresh_enrollment(*old(ctx), now),
        r is Ok ==> final(ctx).enrollment.lesson_flags@ == no_lessons(),
        r is Ok ==> completed_count(final(ctx).enrollment.lesson_flags@) == 0,
        final(ctx).learner == old(ctx).learner,
        final(ctx).course == old(ctx).course,
        final(ctx).course_key == old(ctx).course_key,
        final(ctx).enrollment_bump == old(ctx).enrollment_bump,
        final(ctx).prerequisite_enrollment == old(ctx).prerequisite_enrollment,
{
    if !ctx.course.is_active {
        return Err(InstructionError::Program(ErrorCode::CourseNotActive));
    }
    if let Some(prereq_course) = ctx.course.prerequisite {
        let prereq = match &ctx.prerequisite_enrollment {
            Some(p) => p,
            None => {
                return Err(InstructionError::Program(ErrorCode::PrerequisiteNotMet));
            },
        };
        if prereq.learner != ctx.learner {
            return Err(InstructionError::Program(ErrorCode::PrerequisiteNotMet));
        }
        if prereq.course != prereq_course {
            return Err(InstructionError::Program(ErrorCode::PrerequisiteNotMet));
        }
        if prereq.completed_at.is_none() {
            return Err(InstructionError::Program(ErrorCode::PrerequisiteNotMet));
        }
    }
    ctx.enrollment.course = ctx.course_key;
    ctx.enrollment.learner = ctx.learner;
    ctx.enrollment.lesson_flags = [0u64, 0u64, 0u64, 0u64];
    ctx.enrollment.enrolled_at = now;
    ctx.enrollment.completed_at = None;
    ctx.enrollment.credential_asset = None;
    ctx.enrollment.bump = ctx.enrollment_bump;
    assert(ctx.enrollment.lesson_flags@ =~= no_lessons());
    assert(ctx.enrollment.lesson_flags =~= [0u64, 0u64, 0u64, 0u64]);
    proof {
        lemma_count_no_lessons(256);
        assert forall|j: int| !lesson_done(ctx.enrollment.lesson_flags@, j) by {
            crate::progress::lemma_no_lessons_done(j);
        }
    }
    Ok(Enrolled { course: ctx.course_key, learner: ctx.learner, enrolled_at: now })
}

/// The accounts of `complete_lesson`.
pub struct CompleteLesson {
    pub backend_signer: Pubkey,
    pub config: Config,
    pub course: Course,
    /// The address of the course account.
    pub course_key: Pubkey,
    pub enrollment: Enrollment,
    /// The address of the XP token account handed in.
    pub xp_mint: Pubkey,
    /// The owner of the XP account that receives the lesson's XP.
    pub learner_ata_owner: Pubkey,
}

/// The event announcing a completed lesson; `xp` is minted to the learner's
/// XP account.
#[derive(Clone, Copy, Debug, PartialEq, Eq)]
pub struct LessonCompleted {
    pub course: Pubkey,
    pub learner: Pubkey,
    pub lesson_index: u16,
    pub xp: u64,
}

/// Why `complete_lesson` refuses, if it does.
pub open spec fn complete_lesson_rejection(ctx: CompleteLesson, lesson_index: u16) -> Option<
    InstructionError,
> {
    if ctx.enrollment.course != ctx.course_key {
        Some(InstructionError::Constraint(Constraint::Raw))
    } else if ctx.xp_mint != ctx.config.xp_mint {
        Some(InstructionError::Constraint(Constraint::Address))
    } else if ctx.learner_ata_owner != ctx.enrollment.learner {
        Some(InstructionError::Constraint(Constraint::TokenOwner))
    } else if ctx.backend_signer != ctx.config.backend_signer {
        Some(InstructionError::Program(ErrorCode::Unauthorized))
    } else if ctx.enrollment.completed_at is Some {
        Some(InstructionError::Program(ErrorCode::CourseAlreadyFinalized))
    } else if lesson_index >= ctx.course.lesson_count {
        Some(InstructionError::Program(ErrorCode::LessonOutOfBounds))
    } else if lesson_done(ctx.enrollment.lesson_flags@, lesson_index as int) {
        Some(InstructionError::Program(ErrorCode::LessonAlreadyCompleted))
    } else {
        None
    }
}

/// The bitmap has a slot for the lesson whenever the checks before it pass.
/// This holds for every well-formed course (at most 256 lessons); a course
/// declaring more could not record the lessons beyond the bitmap.
pub open spec fn bitmap_holds_lesson(ctx: CompleteLesson, lesson_index: u16) -> bool {
    complete_lesson_rejection(ctx, lesson_index) is None ==> lesson_index < LESSON_CAPACITY
}

/// Every lesson of a well-formed course has a slot in the bitmap.
pub proof fn well_formed_course_fits_bitmap(ctx: CompleteLesson, lesson_index: u16)
    requires
        ctx.course.well_formed(),
    ensures
        bitmap_holds_lesson(ctx, lesson_index),
{
}

/// The backend records that the learner completed lesson `lesson_index`; the
/// result is the event that announces it, with the XP (the course's XP per
/// lesson) to mint to the learner's XP account.
pub fn complete_lesson(ctx: &mut CompleteLesson, lesson_index: u16) -> (r: Result<
    LessonCompleted,
    InstructionError,
>)
    requires
        bitmap_holds_lesson(*old(ctx), lesson_index),
    ensures
        r is Ok <==> {
            &&& old(ctx).enrollment.course == old(ctx).course_key
            &&& old(ctx).xp_mint == old(ctx).config.xp_mint
            &&& old(ctx).learner_ata_owner == old(ctx).enrollment.learner
            &&& old(ctx).backend_signer == old(ctx).config.backend_signer
            &&& old(ctx).enrollment.completed_at is None
            &&& lesson_index < old(ctx).course.lesson_count
            &&& !lesson_done(old(ctx).enrollment.lesson_flags@, lesson_index as int)
        },
        r is Err <==> complete_lesson_rejection(*old(ctx), lesson_index) is Some,
        r matches Err(e) ==> complete_lesson_rejection(*old(ctx), lesson_index) == Some(e),
        r is Err ==> *final(ctx) == *old(ctx),
        r is Ok ==> {
            &&& r == Ok::<LessonCompleted, InstructionError>(
                LessonCompleted {
                    course: old(ctx).course_key,
                    learner: old(ctx).enrollment.learner,
                    lesson_index,
                    xp: old(ctx).course.xp_per_lesson,
                },
            )
            &&& old(ctx).learner_ata_owner == old(ctx).enrollment.learner
            &&& step_allowed(lifecycle(old(ctx).enrollment), Step::Lesson)
            &&& lifecycle(final(ctx).enrollment) == take_step(
                lifecycle(old(ctx).enrollment),
                Step::Lesson,
            )
            &&& final(ctx).enrollment.lesson_flags@ == with_lesson(
                old(ctx).enrollment.lesson_flags@,
                lesson_index as int,
            )
            &&& *final(ctx) == (CompleteLesson {
                enrollment: Enrollment {
                    lesson_flags: final(ctx).enrollment.lesson_flags,
                    ..old(ctx).enrollment
                },
                ..*old(ctx)
            })
            &&& completed_count(final(ctx).enrollment.lesson_flags@) == completed_count(
                old(ctx).enrollment.lesson_flags@,
            ) + 1
            &&& progress_within(
                old(ctx).enrollment.lesson_flags@,
                old(ctx).course.lesson_count as int,
            ) ==> progress_within(
                final(ctx).enrollment.lesson_flags@,
                old(ctx).course.lesson_count as int,
            )
        },
{
    if ctx.enrollment.course != ctx.course_key {
        return Err(InstructionError::Constraint(Constraint::Raw));
    }
    if ctx.xp_mint != ctx.config.xp_mint {
        return Err(InstructionError::Constraint(Constraint::Address));
    }
    if ctx.learner_ata_owner != ctx.enrollment.learner {
        return Err(InstructionError::Constraint(Constraint::TokenOwner));
    }
    if ctx.backend_signer != ctx.config.backend_signer {
        return Err(InstructionError::Program(ErrorCode::Unauthorized));
    }
    if ctx.enrollment.completed_at.is_some() {
        return Err(InstructionError::Program(ErrorCode::CourseAlreadyFinalized));
    }
    if lesson_index >= ctx.course.lesson_count {
        return Err(InstructionError::Program(ErrorCode::LessonOutOfBounds));
    }
    if is_lesson_done(&ctx.enrollment.lesson_flags, lesson_index) {
        return Err(InstructionError::Program(ErrorCode::LessonAlreadyCompleted));
    }
    let word_index = (lesson_index / 64) as usize;
    let mask = 1u64 << ((lesson_index % 64) as u64);
    let word = ctx.enrollment.lesson_flags[word_index];
    ctx.enrollment.lesson_flags[word_index] = word | mask;
    let ghost before = old(ctx).enrollment.lesson_flags@;
    assert(ctx.enrollment.lesson_flags@ =~= with_lesson(before, lesson_index as int));
    proof {
        lemma_count_with_lesson(before, lesson_index as int, 256);
        assert forall|j: int| #[trigger]
            lesson_done(with_lesson(before, lesson_index as int), j) implies j == lesson_index
            || lesson_done(before, j) by {
            lemma_with_lesson_done(before, lesson_index as int, j);
        }
    }
    Ok(LessonCompleted {
        course: ctx.course_key,
        learner: ctx.enrollment.learner,
        lesson_index,
        xp: ctx.course.xp_per_lesson,
    })
}

/// The accounts of `close_enrollment`.
pub struct CloseEnrollment {
    pub learner: Pubkey,
    pub course: Course,
    pub enrollment: Enrollment,
}

/// `now` is far enough from the enrollment time that the distance fits an `i64`.
pub open spec fn elapsed_fits(enrollment: Enrollment, now: i64) -> bool {
    i64::MIN <= now - enrollment.enrolled_at <= i64::MAX
}

/// A learner closes their enrollment (and gets its rent back): at once when
/// the course is completed, otherwise only a day or more after enrolling.
pub fn close_enrollment(ctx: &CloseEnrollment, now: i64) -> (r: Result<(), InstructionError>)
    requires
        ctx.enrollment.completed_at is None ==> elapsed_fits(ctx.enrollment, now),
    ensures
        r is Ok <==> (ctx.enrollment.completed_at is Some || now - ctx.enrollment.enrolled_at
            >= UNENROLL_COOLDOWN),
        r is Err ==> r == Err::<(), InstructionError>(
            InstructionError::Program(ErrorCode::UnenrollCooldown),
        ),
{
    if ctx.enrollment.completed_at.is_some() {
        return Ok(());
    }
    if now - ctx.enrollment.enrolled_at >= UNENROLL_COOLDOWN {
        Ok(())
    } else {
        Err(InstructionError::Program(ErrorCode::UnenrollCooldown))
    }
}

} // verus!
