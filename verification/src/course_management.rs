use vstd::prelude::*;
use crate::key::Pubkey;
use crate::error::{Constraint, ErrorCode, InstructionError};
use crate::state::{valid_difficulty, Config, Course, Enrollment};
use crate::history::{lifecycle, step_allowed, take_step, Step};
use crate::progress::{completed_count, count_completed, LESSON_CAPACITY};

verus! {

/// The accounts of `create_course`: a fresh course account.
pub struct CreateCourse {
    pub authority: Pubkey,
    pub course: Course,
    pub config: Config,
    pub course_bump: u8,
}

/// Why `create_course` refuses, if it does.
pub open spec fn create_course_rejection(
    ctx: CreateCourse,
    course_id: Seq<char>,
    lesson_count: u16,
    difficulty: u8,
) -> Option<InstructionError> {
    if ctx.config.authority != ctx.authority {
        Some(InstructionError::Constraint(Constraint::HasOne))
    } else if course_id.len() == 0 {
        Some(InstructionError::Program(ErrorCode::CourseIdEmpty))
    } else if lesson_count == 0 || lesson_count > LESSON_CAPACITY {
        Some(InstructionError::Program(ErrorCode::InvalidLessonCount))
    } else if !valid_difficulty(difficulty) {
        Some(InstructionError::Program(ErrorCode::InvalidDifficulty))
    } else {
        None
    }
}

/// The authority publishes a course of 1 to 256 lessons. It starts active,
/// with no completions.
pub fn create_course(
    ctx: &mut CreateCourse,
    course_id: String,
    creator_wallet: Pubkey,
    xp_per_lesson: u64,
    lesson_count: u16,
    creator_reward_xp: u64,
    min_completions_for_reward: u32,
    track: String,
    prerequisite: Option<Pubkey>,
    difficulty: u8,
) -> (r: Result<(), InstructionError>)
    ensures
        r is Err <==> create_course_rejection(*old(ctx), course_id@, lesson_count, difficulty) is Some,
        r matches Err(e) ==> create_course_rejection(*old(ctx), course_id@, lesson_count, difficulty)
            == Some(e),
        r is Err ==> *final(ctx) == *old(ctx),
        r is Ok ==> {
            &&& final(ctx).course.course_id@ == course_id@
            &&& final(ctx).course.creator_wallet == creator_wallet
            &&& final(ctx).course.xp_per_lesson == xp_per_lesson
            &&& final(ctx).course.lesson_count == lesson_count
            &&& final(ctx).course.creator_reward_xp == creator_reward_xp
            &&& final(ctx).course.min_completions_for_reward == min_completions_for_reward
            &&& final(ctx).course.total_completions == 0
            &&& final(ctx).course.track@ == track@
            &&& final(ctx).course.prerequisite == prerequisite
            &&& final(ctx).course.difficulty == difficulty
            &&& final(ctx).course.is_active
            &&& final(ctx).course.bump == old(ctx).course_bump
            &&& final(ctx).course.well_formed()
        },
        final(ctx).authority == old(ctx).authority,
        final(ctx).config == old(ctx).config,
        final(ctx).course_bump == old(ctx).course_bump,
{
    if ctx.config.authority != ctx.authority {
        return Err(InstructionError::Constraint(Constraint::HasOne));
    }
    if course_id.as_str().is_empty() {
        return Err(InstructionError::Program(ErrorCode::CourseIdEmpty));
    }
    if lesson_count == 0 || lesson_count > LESSON_CAPACITY {
        return Err(InstructionError::Program(ErrorCode::InvalidLessonCount));
    }
    if !(difficulty >= 1 && difficulty <= 3) {
        return Err(InstructionError::Program(ErrorCode::InvalidDifficulty));
    }
    ctx.course.course_id = course_id;
    ctx.course.creator_wallet = creator_wallet;
    ctx.course.xp_per_lesson = xp_per_lesson;
    ctx.course.lesson_count = lesson_count;
    ctx.course.creator_reward_xp = creator_reward_xp;
    ctx.course.min_completions_for_reward = min_completions_for_reward;
    ctx.course.total_completions = 0;
    ctx.course.track = track;
    ctx.course.prerequisite = prerequisite;
    ctx.course.difficulty = difficulty;
    ctx.course.is_active = true;
    ctx.course.bump = ctx.course_bump;
    Ok(())
}

/// The accounts of `update_course`.
pub struct UpdateCourse {
    pub authority: Pubkey,
    pub config: Config,
    pub course: Course,
}

/// Why `update_course` refuses, if it does.
pub open spec fn update_course_rejection(ctx: UpdateCourse, new_difficulty: Option<u8>) -> Option<
    InstructionError,
> {
    if ctx.config.authority != ctx.authority {
        Some(InstructionError::Constraint(Constraint::HasOne))
    } else if new_difficulty matches Some(d) && !valid_difficulty(d) {
        Some(InstructionError::Program(ErrorCode::InvalidDifficulty))
    } else {
        None
    }
}

/// `new` where it is given, else `current`.
pub open spec fn updated<T>(current: T, new: Option<T>) -> T {
    match new {
        Some(v) => v,
        None => current,
    }
}

/// The course after `update_course` with the given changes.
pub open spec fn course_after_update(
    course: Course,
    new_xp_per_lesson: Option<u64>,
    new_creator_reward_xp: Option<u64>,
    new_min_completions: Option<u32>,
    new_difficulty: Option<u8>,
    new_prerequisite: Option<Option<Pubkey>>,
    new_is_active: Option<bool>,
) -> Course {
    Course {
        xp_per_lesson: updated(course.xp_per_lesson, new_xp_per_lesson),
        creator_reward_xp: updated(course.creator_reward_xp, new_creator_reward_xp),
        min_completions_for_reward: updated(course.min_completions_for_reward, new_min_completions),
        difficulty: updated(course.difficulty, new_difficulty),
        prerequisite: updated(course.prerequisite, new_prerequisite),
        is_active: updated(course.is_active, new_is_active),
        ..course
    }
}

/// The authority changes a course's parameters: each `Some` replaces the
/// current value, each `None` leaves it (`Some(None)` removes the prerequisite).
pub fn update_course(
    ctx: &mut UpdateCourse,
    new_xp_per_lesson: Option<u64>,
    new_creator_reward_xp: Option<u64>,
    new_min_completions: Option<u32>,
    new_difficulty: Option<u8>,
    new_prerequisite: Option<Option<Pubkey>>,
    new_is_active: Option<bool>,
) -> (r: Result<(), InstructionError>)
    ensures
        r is Err <==> update_course_rejection(*old(ctx), new_difficulty) is Some,
        r matches Err(e) ==> update_course_rejection(*old(ctx), new_difficulty) == Some(e),
        r is Err ==> *final(ctx) == *old(ctx),
        r is Ok ==> final(ctx).course == course_after_update(
            old(ctx).course,
            new_xp_per_lesson,
            new_creator_reward_xp,
            new_min_completions,
            new_difficulty,
            new_prerequisite,
            new_is_active,
        ),
        r is Ok ==> final(ctx).course.xp_per_lesson == (match new_xp_per_lesson {
            Some(v) => v,
            None => old(ctx).course.xp_per_lesson,
        }),
        r is Ok ==> final(ctx).course.creator_reward_xp == (match new_creator_reward_xp {
            Some(v) => v,
            None => old(ctx).course.creator_reward_xp,
        }),
        r is Ok ==> final(ctx).course.min_completions_for_reward == (match new_min_completions {
            Some(v) => v,
            None => old(ctx).course.min_completions_for_reward,
        }),
        r is Ok ==> final(ctx).course.difficulty == (match new_difficulty {
            Some(v) => v,
            None => old(ctx).course.difficulty,
        }),
        r is Ok ==> final(ctx).course.prerequisite == (match new_prerequisite {
            Some(v) => v,
            None => old(ctx).course.prerequisite,
        }),
        r is Ok ==> final(ctx).course.is_active == (match new_is_active {
            Some(v) => v,
            None => old(ctx).course.is_active,
        }),
        r is Ok ==> final(ctx).course.course_id == old(ctx).course.course_id
            && final(ctx).course.creator_wallet == old(ctx).course.creator_wallet
            && final(ctx).course.lesson_count == old(ctx).course.lesson_count
            && final(ctx).course.total_completions == old(ctx).course.total_completions
            && final(ctx).course.track == old(ctx).course.track
            && final(ctx).course.bump == old(ctx).course.bump,
        old(ctx).course.well_formed() ==> final(ctx).course.well_formed(),
        final(ctx).authority == old(ctx).authority,
        final(ctx).config == old(ctx).config,
{
    if ctx.config.authority != ctx.authority {
        return Err(InstructionError::Constraint(Constraint::HasOne));
    }
    if let Some(diff) = new_difficulty {
        if !(diff >= 1 && diff <= 3) {
            return Err(InstructionError::Program(ErrorCode::InvalidDifficulty));
        }
    }
    if let Some(xp) = new_xp_per_lesson {
        ctx.course.xp_per_lesson = xp;
    }
    if let Some(reward) = new_creator_reward_xp {
        ctx.course.creator_reward_xp = reward;
    }
    if let Some(min) = new_min_completions {
        ctx.course.min_completions_for_reward = min;
    }
    if let Some(diff) = new_difficulty {
        ctx.course.difficulty = diff;
    }
    if let Some(prereq) = new_prerequisite {
        ctx.course.prerequisite = prereq;
    }
    if let Some(active) = new_is_active {
        ctx.course.is_active = active;
    }
    Ok(())
}

/// The accounts of `finalize_course`.
pub struct FinalizeCourse {
    pub backend_signer: Pubkey,
    pub config: Config,
    pub course: Course,
    /// The address of the course account.
    pub course_key: Pubkey,
    pub enrollment: Enrollment,
    /// The address of the XP token account handed in.
    pub xp_mint: Pubkey,
    /// The owner of the XP account that receives the completion bonus.
    pub learner_xp_owner: Pubkey,
    /// The owner of the XP account that receives the creator's reward.
    pub creator_xp_owner: Pubkey,
}

/// The XP that a finalized course pays out.
#[derive(Clone, Copy, Debug, PartialEq, Eq, Structural)]
pub struct CompletionRewards {
    /// Completion bonus minted to the learner's XP account.
    pub learner_bonus: u64,
    /// Reward minted to the course creator's XP account, when one is due.
    pub creator_reward: Option<u64>,
}

/// All XP that the course's lessons pay together.
pub open spec fn total_lesson_xp(course: Course) -> int {
    course.xp_per_lesson * course.lesson_count
}

/// Why `finalize_course` refuses, if it does.
pub open spec fn finalize_course_rejection(ctx: FinalizeCourse) -> Option<InstructionError> {
    if ctx.enrollment.course != ctx.course_key {
        Some(InstructionError::Constraint(Constraint::Raw))
    } else if ctx.xp_mint != ctx.config.xp_mint {
        Some(InstructionError::Constraint(Constraint::Address))
    } else if ctx.learner_xp_owner != ctx.enrollment.learner {
        Some(InstructionError::Constraint(Constraint::TokenOwner))
    } else if ctx.backend_signer != ctx.config.backend_signer {
        Some(InstructionError::Program(ErrorCode::Unauthorized))
    } else if ctx.enrollment.completed_at is Some {
        Some(InstructionError::Program(ErrorCode::CourseAlreadyFinalized))
    } else if completed_count(ctx.enrollment.lesson_flags@) != ctx.course.lesson_count {
        Some(InstructionError::Program(ErrorCode::CourseNotCompleted))
    } else if total_lesson_xp(ctx.course) > u64::MAX {
        Some(InstructionError::Program(ErrorCode::Overflow))
    } else if ctx.course.total_completions == u32::MAX {
        Some(InstructionError::Program(ErrorCode::Overflow))
    } else if creator_reward_due(ctx.course) && ctx.creator_xp_owner != ctx.course.creator_wallet {
        Some(InstructionError::Constraint(Constraint::TokenOwner))
    } else {
        None
    }
}

/// The creator is rewarded by this completion: the completions reach the
/// threshold and the reward is not zero.
pub open spec fn creator_reward_due(course: Course) -> bool {
    course.total_completions + 1 >= course.min_completions_for_reward && course.creator_reward_xp > 0
}

/// The rewards of a successful `finalize_course`.
pub open spec fn completion_rewards(course: Course) -> CompletionRewards {
    CompletionRewards {
        learner_bonus: (total_lesson_xp(course) / 2) as u64,
        creator_reward: if creator_reward_due(course) {
            Some(course.creator_reward_xp)
        } else {
            None
        },
    }
}

/// The backend closes a learner's course once every lesson is recorded: the
/// learner earns half of the course's lesson XP as a bonus, the course counts
/// one more completion, the creator is rewarded once the completions reach the
/// threshold, and the enrollment is marked completed at `now`. The bonus goes
/// to an XP account of the enrolled learner; a reward, when one is paid, goes
/// to an XP account of the course's creator wallet (the creator's account is
/// not looked at otherwise).
pub fn finalize_course(ctx: &mut FinalizeCourse, now: i64) -> (r: Result<
    CompletionRewards,
    InstructionError,
>)
    ensures
        r is Err <==> finalize_course_rejection(*old(ctx)) is Some,
        r matches Err(e) ==> finalize_course_rejection(*old(ctx)) == Some(e),
        r is Err ==> *final(ctx) == *old(ctx),
        r is Ok ==> {
            &&& r == Ok::<CompletionRewards, InstructionError>(completion_rewards(old(ctx).course))
            &&& r->Ok_0.learner_bonus == (old(ctx).course.xp_per_lesson * old(ctx).course.lesson_count)
                / 2
            &&& r->Ok_0.creator_reward == if old(ctx).course.total_completions + 1
                >= old(ctx).course.min_completions_for_reward && old(ctx).course.creator_reward_xp
                > 0 {
                Some(old(ctx).course.creator_reward_xp)
            } else {
                None
            }
            &&& old(ctx).learner_xp_owner == old(ctx).enrollment.learner
            &&& step_allowed(lifecycle(old(ctx).enrollment), Step::Finalize(now))
            &&& lifecycle(final(ctx).enrollment) == take_step(
                lifecycle(old(ctx).enrollment),
                Step::Finalize(now),
            )
            &&& creator_reward_due(old(ctx).course) ==> old(ctx).creator_xp_owner
                == old(ctx).course.creator_wallet
            &&& final(ctx).course == (Course {
                total_completions: (old(ctx).course.total_completions + 1) as u32,
                ..old(ctx).course
            })
            &&& final(ctx).enrollment == (Enrollment {
                completed_at: Some(now),
                ..old(ctx).enrollment
            })
        },
        old(ctx).course.well_formed() ==> final(ctx).course.well_formed(),
        old(ctx).enrollment.credential_after_completion()
            ==> final(ctx).enrollment.credential_after_completion(),
        final(ctx).backend_signer == old(ctx).backend_signer,
        final(ctx).config == old(ctx).config,
        final(ctx).course_key == old(ctx).course_key,
        final(ctx).xp_mint == old(ctx).xp_mint,
        final(ctx).learner_xp_owner == old(ctx).learner_xp_owner,
        final(ctx).creator_xp_owner == old(ctx).creator_xp_owner,
{
    if ctx.enrollment.course != ctx.course_key {
        return Err(InstructionError::Constraint(Constraint::Raw));
    }
    if ctx.xp_mint != ctx.config.xp_mint {
        return Err(InstructionError::Constraint(Constraint::Address));
    }
    if ctx.learner_xp_owner != ctx.enrollment.learner {
        return Err(InstructionError::Constraint(Constraint::TokenOwner));
    }
    if ctx.backend_signer != ctx.config.backend_signer {
        return Err(InstructionError::Program(ErrorCode::Unauthorized));
    }
    if ctx.enrollment.completed_at.is_some() {
        return Err(InstructionError::Program(ErrorCode::CourseAlreadyFinalized));
    }
    let completed = count_completed(&ctx.enrollment.lesson_flags);
    if completed != ctx.course.lesson_count as u32 {
        return Err(InstructionError::Program(ErrorCode::CourseNotCompleted));
    }
    let total_xp = match ctx.course.xp_per_lesson.checked_mul(ctx.course.lesson_count as u64) {
        Some(v) => v,
        None => {
            return Err(InstructionError::Program(ErrorCode::Overflow));
        },
    };
    let learner_bonus = total_xp / 2;
    let completions = match ctx.course.total_completions.checked_add(1) {
        Some(v) => v,
        None => {
            return Err(InstructionError::Program(ErrorCode::Overflow));
        },
    };
    let creator_reward = if completions >= ctx.course.min_completions_for_reward
        && ctx.course.creator_reward_xp > 0 {
        if ctx.creator_xp_owner != ctx.course.creator_wallet {
            return Err(InstructionError::Constraint(Constraint::TokenOwner));
        }
        Some(ctx.course.creator_reward_xp)
    } else {
        None
    };
    ctx.course.total_completions = completions;
    ctx.enrollment.completed_at = Some(now);
    Ok(CompletionRewards { learner_bonus, creator_reward })
}

} // verus!
