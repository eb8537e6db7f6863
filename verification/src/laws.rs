use vstd::prelude::*;
use crate::error::{ErrorCode, InstructionError};
use crate::key::Pubkey;
use crate::history::{lemma_credential_has_finalize_then_issue, lifecycle, run, valid_history, Step};
use crate::state::{Config, Enrollment};
use crate::progress::{
    completed_count, lemma_count_at_most, lemma_count_full, lemma_count_no_lessons,
    lemma_count_stable, lemma_count_with_lesson, lemma_no_lessons_done, lemma_with_lesson_done,
    lesson_done, no_lessons, progress_within, with_lesson,
};
use crate::state::{byte_len, Course};
use crate::platform::{
    register_minter_rejection, update_config_rejection, RegisterMinter, UpdateConfig,
};
use crate::course_management::{
    completion_rewards, course_after_update, create_course_rejection, finalize_course_rejection,
    update_course_rejection, CreateCourse, FinalizeCourse, UpdateCourse,
};
use crate::learning::{complete_lesson_rejection, enroll_rejection, CompleteLesson, Enroll};
use crate::credentials::{
    issue_credential_rejection, upgrade_credential_rejection, IssueCredential, UpgradeCredential,
};

verus! {

/// Recording a lesson that was not yet recorded records it, changes no other
/// lesson, and raises the completed count by exactly one.
pub proof fn completing_a_lesson_counts_one_more(flags: Seq<u64>, i: int)
    requires
        flags.len() == 4,
        0 <= i < 256,
        !lesson_done(flags, i),
    ensures
        lesson_done(with_lesson(flags, i), i),
        forall|j: int| j != i ==> lesson_done(with_lesson(flags, i), j) == lesson_done(flags, j),
        completed_count(with_lesson(flags, i)) == completed_count(flags) + 1,
{
    lemma_with_lesson_done(flags, i, i);
    assert forall|j: int| j != i implies lesson_done(with_lesson(flags, i), j) == lesson_done(
        flags,
        j,
    ) by {
        lemma_with_lesson_done(flags, i, j);
    }
    lemma_count_with_lesson(flags, i, 256);
}

/// A fresh enrollment has no lesson completed, counts none, and is within the
/// lessons of any course.
pub proof fn fresh_enrollment_has_no_progress(lesson_count: int)
    ensures
        forall|j: int| !lesson_done(no_lessons(), j),
        completed_count(no_lessons()) == 0,
        lesson_count >= 0 ==> progress_within(no_lessons(), lesson_count),
{
    assert forall|j: int| !lesson_done(no_lessons(), j) by {
        lemma_no_lessons_done(j);
    }
    lemma_count_no_lessons(256);
}

/// Recording one of the course's lessons keeps every recorded lesson within
/// the course.
pub proof fn progress_stays_within_course(flags: Seq<u64>, lesson_count: int, i: int)
    requires
        flags.len() == 4,
        progress_within(flags, lesson_count),
        0 <= i < 256,
        i < lesson_count,
    ensures
        progress_within(with_lesson(flags, i), lesson_count),
{
    assert forall|j: int| #[trigger] lesson_done(with_lesson(flags, i), j) implies j
        < lesson_count by {
        lemma_with_lesson_done(flags, i, j);
    }
}

/// When every recorded lesson belongs to the course, the completed count
/// equals the course's lesson count exactly when every lesson of the course
/// is recorded: finalization asks for nothing less and nothing more.
pub proof fn full_count_means_every_lesson_done(flags: Seq<u64>, lesson_count: nat)
    requires
        progress_within(flags, lesson_count as int),
    ensures
        (completed_count(flags) == lesson_count) <==> (forall|j: int|
            0 <= j < lesson_count ==> #[trigger] lesson_done(flags, j)),
{
    if lesson_count <= 256 {
        lemma_count_stable(flags, lesson_count, 256);
        lemma_count_full(flags, lesson_count);
    } else {
        lemma_count_at_most(flags, 256);
        assert(!lesson_done(flags, 256));
    }
}

/// `finalize_course` accepts an enrollment whose recorded lessons all belong
/// to the course only when the learner completed every lesson of the course.
pub proof fn finalization_follows_every_lesson(ctx: FinalizeCourse)
    requires
        finalize_course_rejection(ctx) is None,
        progress_within(ctx.enrollment.lesson_flags@, ctx.course.lesson_count as int),
    ensures
        forall|j: int| 0 <= j < ctx.course.lesson_count ==> #[trigger] lesson_done(
            ctx.enrollment.lesson_flags@,
            j,
        ),
{
    full_count_means_every_lesson_done(ctx.enrollment.lesson_flags@, ctx.course.lesson_count as nat);
}

/// A lesson that `complete_lesson` recorded is refused the second time, and
/// nothing else about the request changes.
pub proof fn completed_lesson_cannot_repeat(
    before: CompleteLesson,
    after: CompleteLesson,
    lesson_index: u16,
)
    requires
        complete_lesson_rejection(before, lesson_index) is None,
        lesson_index < 256,
        after.enrollment.lesson_flags@ == with_lesson(
            before.enrollment.lesson_flags@,
            lesson_index as int,
        ),
        after == (CompleteLesson {
            enrollment: Enrollment { lesson_flags: after.enrollment.lesson_flags, ..before.enrollment },
            ..before
        }),
    ensures
        complete_lesson_rejection(after, lesson_index) == Some(
            InstructionError::Program(ErrorCode::LessonAlreadyCompleted),
        ),
{
    lemma_with_lesson_done(before.enrollment.lesson_flags@, lesson_index as int, lesson_index as int);
}

/// Once an enrollment is finalized, the backend can neither record more
/// lessons in it nor finalize it again.
pub proof fn finalized_enrollment_is_closed(
    lesson: CompleteLesson,
    lesson_index: u16,
    finalize: FinalizeCourse,
)
    requires
        lesson.enrollment.completed_at is Some,
        lesson.enrollment.course == lesson.course_key,
        lesson.xp_mint == lesson.config.xp_mint,
        lesson.learner_ata_owner == lesson.enrollment.learner,
        lesson.backend_signer == lesson.config.backend_signer,
        finalize.enrollment.completed_at is Some,
        finalize.enrollment.course == finalize.course_key,
        finalize.xp_mint == finalize.config.xp_mint,
        finalize.learner_xp_owner == finalize.enrollment.learner,
        finalize.backend_signer == finalize.config.backend_signer,
    ensures
        complete_lesson_rejection(lesson, lesson_index) == Some(
            InstructionError::Program(ErrorCode::CourseAlreadyFinalized),
        ),
        finalize_course_rejection(finalize) == Some(
            InstructionError::Program(ErrorCode::CourseAlreadyFinalized),
        ),
{
}

/// After `issue_credential` creates a credential, issuing again for the same
/// enrollment and asset is accepted (and, the asset being recorded, updates
/// it rather than creating another), issuing for any other asset is refused,
/// and an upgrade of the recorded asset is accepted.
pub proof fn credential_is_created_once(
    before: IssueCredential,
    after: IssueCredential,
    name: Seq<char>,
    uri: Seq<char>,
    again_name: Seq<char>,
    again_uri: Seq<char>,
    other_asset: Pubkey,
)
    requires
        issue_credential_rejection(before, name, uri) is None,
        before.enrollment.credential_asset is None,
        after == (IssueCredential {
            enrollment: Enrollment { credential_asset: Some(before.asset), ..before.enrollment },
            ..before
        }),
        again_name.len() > 0,
        again_uri.len() > 0,
        other_asset != before.asset,
    ensures
        issue_credential_rejection(after, again_name, again_uri) is None,
        after.enrollment.credential_asset is Some,
        issue_credential_rejection(IssueCredential { asset: other_asset, ..after }, again_name, again_uri)
            == Some(InstructionError::Program(ErrorCode::CredentialAlreadyIssued)),
        upgrade_credential_rejection(
            UpgradeCredential {
                backend_signer: after.backend_signer,
                config: after.config,
                course: after.course,
                course_key: after.course_key,
                enrollment: after.enrollment,
                asset: before.asset,
            },
        ) is None,
{
}

/// An upgrade is accepted only for a finalized enrollment that records the
/// very asset being upgraded, which only `issue_credential` writes (every
/// other instruction keeps the enrollment's credential, and `enroll` starts
/// without one).
pub proof fn upgrade_needs_finalized_and_issued(ctx: UpgradeCredential)
    requires
        upgrade_credential_rejection(ctx) is None,
    ensures
        ctx.enrollment.completed_at is Some,
        ctx.enrollment.credential_asset == Some(ctx.asset),
        ctx.enrollment.credential_after_completion(),
{
}

/// An accepted upgrade comes after the enrollment was finalized and then
/// issued a credential for the very asset being upgraded: for any history of
/// accepted instructions since `enroll` that leads to the enrollment's
/// standing (each instruction's contract says how it moves that standing).
pub proof fn upgrade_follows_finalize_then_issue(ctx: UpgradeCredential, steps: Seq<Step>)
    requires
        upgrade_credential_rejection(ctx) is None,
        valid_history(steps),
        lifecycle(ctx.enrollment) == run(steps),
    ensures
        exists|i: int, j: int|
            0 <= i < j < steps.len() && #[trigger] steps[i] is Finalize && #[trigger] steps[j]
                == Step::Issue(ctx.asset),
{
    lemma_credential_has_finalize_then_issue(steps, ctx.asset);
}

/// Once the configuration names a new backend signer, the old one can no
/// longer record lessons.
pub proof fn replaced_backend_loses_authority(
    old_config: Config,
    new_config: Config,
    lesson: CompleteLesson,
    lesson_index: u16,
)
    requires
        new_config == (Config { backend_signer: new_config.backend_signer, ..old_config }),
        new_config.backend_signer != old_config.backend_signer,
        lesson.config == new_config,
        lesson.backend_signer == old_config.backend_signer,
        lesson.enrollment.course == lesson.course_key,
        lesson.xp_mint == lesson.config.xp_mint,
        lesson.learner_ata_owner == lesson.enrollment.learner,
    ensures
        complete_lesson_rejection(lesson, lesson_index) == Some(
            InstructionError::Program(ErrorCode::Unauthorized),
        ),
{
}

/// `register_minter` is accepted exactly when the authority signs and the
/// label takes at most 32 bytes.
pub proof fn register_minter_accepts(ctx: RegisterMinter, label: Seq<char>)
    ensures
        register_minter_rejection(ctx, label) is None <==> (ctx.config.authority == ctx.authority
            && byte_len(label) <= 32),
{
}

/// `update_config` is accepted exactly when the authority signs and the old
/// role handed in, if any, is the current backend signer's.
pub proof fn update_config_accepts(ctx: UpdateConfig)
    ensures
        update_config_rejection(ctx) is None <==> (ctx.config.authority == ctx.authority && (
        ctx.old_minter_role matches Some(role) ==> role.minter == ctx.config.backend_signer)),
{
}

/// `create_course` is accepted exactly when the authority signs, the id is not
/// empty, the course has 1 to 256 lessons and its difficulty is 1, 2 or 3.
pub proof fn create_course_accepts(
    ctx: CreateCourse,
    course_id: Seq<char>,
    lesson_count: u16,
    difficulty: u8,
)
    ensures
        create_course_rejection(ctx, course_id, lesson_count, difficulty) is None <==> {
            &&& ctx.config.authority == ctx.authority
            &&& course_id.len() > 0
            &&& 1 <= lesson_count <= 256
            &&& 1 <= difficulty <= 3
        },
{
}

/// `update_course` is accepted exactly when the authority signs and a new
/// difficulty, if given, is 1, 2 or 3.
pub proof fn update_course_accepts(ctx: UpdateCourse, new_difficulty: Option<u8>)
    ensures
        update_course_rejection(ctx, new_difficulty) is None <==> (ctx.config.authority
            == ctx.authority && (new_difficulty matches Some(d) ==> 1 <= d <= 3)),
{
}

/// Each value given to `update_course` replaces its field, each one left out
/// keeps it, and the fields it does not manage never change: in particular a
/// course can be deactivated and reactivated at will.
pub proof fn update_course_sets_given_fields(
    course: Course,
    new_xp_per_lesson: Option<u64>,
    new_creator_reward_xp: Option<u64>,
    new_min_completions: Option<u32>,
    new_difficulty: Option<u8>,
    new_prerequisite: Option<Option<Pubkey>>,
    new_is_active: Option<bool>,
)
    ensures
        ({
            let after = course_after_update(
                course,
                new_xp_per_lesson,
                new_creator_reward_xp,
                new_min_completions,
                new_difficulty,
                new_prerequisite,
                new_is_active,
            );
            &&& (new_xp_per_lesson matches Some(v) ==> after.xp_per_lesson == v)
            &&& (new_xp_per_lesson is None ==> after.xp_per_lesson == course.xp_per_lesson)
            &&& (new_creator_reward_xp matches Some(v) ==> after.creator_reward_xp == v)
            &&& (new_creator_reward_xp is None ==> after.creator_reward_xp
                == course.creator_reward_xp)
            &&& (new_min_completions matches Some(v) ==> after.min_completions_for_reward == v)
            &&& (new_min_completions is None ==> after.min_completions_for_reward
                == course.min_completions_for_reward)
            &&& (new_difficulty matches Some(v) ==> after.difficulty == v)
            &&& (new_difficulty is None ==> after.difficulty == course.difficulty)
            &&& (new_prerequisite matches Some(v) ==> after.prerequisite == v)
            &&& (new_prerequisite is None ==> after.prerequisite == course.prerequisite)
            &&& (new_is_active matches Some(v) ==> after.is_active == v)
            &&& (new_is_active is None ==> after.is_active == course.is_active)
            &&& after.course_id == course.course_id
            &&& after.creator_wallet == course.creator_wallet
            &&& after.lesson_count == course.lesson_count
            &&& after.total_completions == course.total_completions
            &&& after.track == course.track
            &&& after.bump == course.bump
        }),
{
}

/// `finalize_course` is accepted exactly when the accounts belong together,
/// the backend signs, the enrollment is not finalized, every one of the
/// course's lessons is counted, the lesson XP and the completion count fit,
/// and, when the creator is paid, the creator's account is the creator's.
pub proof fn finalize_course_accepts(ctx: FinalizeCourse)
    ensures
        finalize_course_rejection(ctx) is None <==> {
            &&& ctx.enrollment.course == ctx.course_key
            &&& ctx.xp_mint == ctx.config.xp_mint
            &&& ctx.learner_xp_owner == ctx.enrollment.learner
            &&& ctx.backend_signer == ctx.config.backend_signer
            &&& ctx.enrollment.completed_at is None
            &&& completed_count(ctx.enrollment.lesson_flags@) == ctx.course.lesson_count
            &&& ctx.course.xp_per_lesson * ctx.course.lesson_count <= u64::MAX
            &&& ctx.course.total_completions < u32::MAX
            &&& (ctx.course.total_completions + 1 >= ctx.course.min_completions_for_reward
                && ctx.course.creator_reward_xp > 0 ==> ctx.creator_xp_owner
                == ctx.course.creator_wallet)
        },
{
}

/// A finalization pays the learner half of the course's lesson XP, and pays
/// the creator the reward on every completion from the threshold on (never
/// before it, and never a reward of zero).
pub proof fn creator_paid_from_threshold_on(course: Course)
    requires
        course.xp_per_lesson * course.lesson_count <= u64::MAX,
    ensures
        completion_rewards(course).learner_bonus == (course.xp_per_lesson * course.lesson_count)
            / 2,
        course.total_completions + 1 >= course.min_completions_for_reward
            && course.creator_reward_xp > 0 ==> completion_rewards(course).creator_reward == Some(
            course.creator_reward_xp,
        ),
        course.total_completions + 1 < course.min_completions_for_reward
            ==> completion_rewards(course).creator_reward is None,
        course.creator_reward_xp == 0 ==> completion_rewards(course).creator_reward is None,
{
}

/// `enroll` is accepted exactly when the course is active and, if it has a
/// prerequisite, the learner's completed enrollment in it is handed in; an
/// inactive course is always refused as such, whatever its prerequisite.
pub proof fn enroll_accepts(ctx: Enroll)
    ensures
        enroll_rejection(ctx) is None <==> (ctx.course.is_active && (ctx.course.prerequisite matches Some(
            p,
        ) ==> (ctx.prerequisite_enrollment matches Some(pe) && pe.learner == ctx.learner
            && pe.course == p && pe.completed_at is Some))),
        !ctx.course.is_active ==> enroll_rejection(ctx) == Some(
            InstructionError::Program(ErrorCode::CourseNotActive),
        ),
{
}

/// `complete_lesson` is accepted exactly when the accounts belong together,
/// the backend signs, the enrollment is not finalized, and the lesson is one
/// of the course's and not yet done; whether the course still accepts
/// enrollments plays no part.
pub proof fn complete_lesson_accepts(ctx: CompleteLesson, lesson_index: u16, is_active: bool)
    ensures
        complete_lesson_rejection(ctx, lesson_index) is None <==> {
            &&& ctx.enrollment.course == ctx.course_key
            &&& ctx.xp_mint == ctx.config.xp_mint
            &&& ctx.learner_ata_owner == ctx.enrollment.learner
            &&& ctx.backend_signer == ctx.config.backend_signer
            &&& ctx.enrollment.completed_at is None
            &&& lesson_index < ctx.course.lesson_count
            &&& !lesson_done(ctx.enrollment.lesson_flags@, lesson_index as int)
        },
        complete_lesson_rejection(
            CompleteLesson { course: Course { is_active, ..ctx.course }, ..ctx },
            lesson_index,
        ) == complete_lesson_rejection(ctx, lesson_index),
{
}

/// `issue_credential` is accepted exactly when the accounts belong together,
/// the backend signs for the enrolled learner, the course is completed, the
/// name and URI are not empty, and no other asset is recorded; whether the
/// course still accepts enrollments plays no part.
pub proof fn issue_credential_accepts(
    ctx: IssueCredential,
    name: Seq<char>,
    uri: Seq<char>,
    is_active: bool,
)
    ensures
        issue_credential_rejection(ctx, name, uri) is None <==> {
            &&& ctx.enrollment.course == ctx.course_key
            &&& ctx.backend_signer == ctx.config.backend_signer
            &&& ctx.enrollment.learner == ctx.learner
            &&& ctx.enrollment.completed_at is Some
            &&& name.len() > 0
            &&& uri.len() > 0
            &&& (ctx.enrollment.credential_asset is None || ctx.enrollment.credential_asset == Some(
                ctx.asset,
            ))
        },
        issue_credential_rejection(
            IssueCredential { course: Course { is_active, ..ctx.course }, ..ctx },
            name,
            uri,
        ) == issue_credential_rejection(ctx, name, uri),
{
}

/// `upgrade_credential` is accepted exactly when the course key matches, the
/// backend signs, the course is completed and the enrollment records the
/// asset being upgraded.
pub proof fn upgrade_credential_accepts(ctx: UpgradeCredential)
    ensures
        upgrade_credential_rejection(ctx) is None <==> {
            &&& ctx.enrollment.course == ctx.course_key
            &&& ctx.backend_signer == ctx.config.backend_signer
            &&& ctx.enrollment.completed_at is Some
            &&& ctx.enrollment.credential_asset == Some(ctx.asset)
        },
{
}

} // verus!
