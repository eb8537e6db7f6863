use academy::progress::{count_completed, is_lesson_done};
use academy::{
    close_enrollment, complete_lesson, CredentialAction, CredentialAttribute, Enrolled,
    LessonCompleted, create_course, enroll, finalize_course, initialize,
    issue_credential, register_minter, revoke_minter, update_config, update_course,
    upgrade_credential, CloseEnrollment, CompleteLesson, CompletionRewards, Config, Constraint,
    Course, CreateCourse, CredentialMint, CredentialUpdate, Enroll, Enrollment, ErrorCode,
    FinalizeCourse, Initialize, InstructionError, IssueCredential, MinterRole, Pubkey,
    RegisterMinter, RevokeMinter, UpdateConfig, UpdateCourse, UpgradeCredential,
};

fn key(b: u8) -> Pubkey {
    Pubkey([b; 32])
}

const AUTHORITY: u8 = 1;
const BACKEND: u8 = 2;
const MINT: u8 = 3;
const LEARNER: u8 = 4;
const COURSE: u8 = 5;
const CREATOR: u8 = 6;
const ASSET: u8 = 7;
const OTHER: u8 = 9;

fn program(e: ErrorCode) -> InstructionError {
    InstructionError::Program(e)
}

fn config() -> Config {
    Config { authority: key(AUTHORITY), backend_signer: key(BACKEND), xp_mint: key(MINT), bump: 254 }
}

fn blank_role() -> MinterRole {
    MinterRole {
        minter: key(0),
        label: String::new(),
        max_xp_per_call: 0,
        total_xp_minted: 0,
        is_active: false,
        bump: 0,
    }
}

fn blank_course() -> Course {
    Course {
        course_id: String::new(),
        creator_wallet: key(0),
        xp_per_lesson: 0,
        lesson_count: 0,
        creator_reward_xp: 0,
        min_completions_for_reward: 0,
        total_completions: 0,
        track: String::new(),
        prerequisite: None,
        difficulty: 0,
        is_active: false,
        bump: 0,
    }
}

fn course(lessons: u16, xp: u64) -> Course {
    Course {
        course_id: String::from("solana-101"),
        creator_wallet: key(CREATOR),
        xp_per_lesson: xp,
        lesson_count: lessons,
        creator_reward_xp: 500,
        min_completions_for_reward: 2,
        total_completions: 0,
        track: String::from("anchor"),
        prerequisite: None,
        difficulty: 1,
        is_active: true,
        bump: 250,
    }
}

fn blank_enrollment() -> Enrollment {
    Enrollment {
        course: key(0),
        learner: key(0),
        lesson_flags: [0; 4],
        enrolled_at: 0,
        completed_at: None,
        credential_asset: None,
        bump: 0,
    }
}

fn enrollment() -> Enrollment {
    Enrollment {
        course: key(COURSE),
        learner: key(LEARNER),
        lesson_flags: [0; 4],
        enrolled_at: 1_000,
        completed_at: None,
        credential_asset: None,
        bump: 253,
    }
}

fn lesson_ctx(lessons: u16, xp: u64) -> CompleteLesson {
    CompleteLesson {
        backend_signer: key(BACKEND),
        config: config(),
        course: course(lessons, xp),
        course_key: key(COURSE),
        enrollment: enrollment(),
        xp_mint: key(MINT),
        learner_ata_owner: key(LEARNER),
    }
}

fn finalize_ctx(c: Course, e: Enrollment) -> FinalizeCourse {
    FinalizeCourse {
        backend_signer: key(BACKEND),
        config: config(),
        course: c,
        course_key: key(COURSE),
        enrollment: e,
        xp_mint: key(MINT),
        learner_xp_owner: key(LEARNER),
        creator_xp_owner: key(CREATOR),
    }
}

fn completed_enrollment() -> Enrollment {
    Enrollment { completed_at: Some(5_000), ..enrollment() }
}

fn issue_ctx(e: Enrollment) -> IssueCredential {
    IssueCredential {
        backend_signer: key(BACKEND),
        config: config(),
        course: course(3, 10),
        course_key: key(COURSE),
        enrollment: e,
        asset: key(ASSET),
        learner: key(LEARNER),
    }
}

fn upgrade_ctx(e: Enrollment) -> UpgradeCredential {
    UpgradeCredential {
        backend_signer: key(BACKEND),
        config: config(),
        course: course(3, 10),
        course_key: key(COURSE),
        enrollment: e,
        asset: key(ASSET),
    }
}

// ---------------------------------------------------------------- platform

#[test]
fn initialize_registers_backend_as_unlimited_minter() {
    let mut ctx = Initialize {
        authority: key(AUTHORITY),
        config: Config { authority: key(0), backend_signer: key(0), xp_mint: key(0), bump: 0 },
        xp_mint: key(MINT),
        backend_signer: key(BACKEND),
        minter_role: blank_role(),
        config_bump: 254,
        minter_role_bump: 252,
    };
    assert_eq!(initialize(&mut ctx), Ok(()));
    assert_eq!(ctx.config, config());
    assert_eq!(
        ctx.minter_role,
        MinterRole {
            minter: key(BACKEND),
            label: String::from("Backend"),
            max_xp_per_call: 0,
            total_xp_minted: 0,
            is_active: true,
            bump: 252,
        }
    );
}

fn register_ctx(authority: u8) -> RegisterMinter {
    RegisterMinter {
        authority: key(authority),
        config: config(),
        minter: key(OTHER),
        minter_role: blank_role(),
        minter_role_bump: 200,
    }
}

#[test]
fn register_minter_creates_active_role() {
    let mut ctx = register_ctx(AUTHORITY);
    assert_eq!(register_minter(&mut ctx, String::from("Seasonal Event"), 1_000), Ok(()));
    assert_eq!(
        ctx.minter_role,
        MinterRole {
            minter: key(OTHER),
            label: String::from("Seasonal Event"),
            max_xp_per_call: 1_000,
            total_xp_minted: 0,
            is_active: true,
            bump: 200,
        }
    );
}

#[test]
fn register_minter_accepts_label_of_32_bytes() {
    let mut ctx = register_ctx(AUTHORITY);
    let label = "a".repeat(32);
    assert_eq!(register_minter(&mut ctx, label.clone(), 0), Ok(()));
    assert_eq!(ctx.minter_role.label, label);
}

#[test]
fn register_minter_rejects_label_of_33_bytes() {
    let mut ctx = register_ctx(AUTHORITY);
    let before_role = ctx.minter_role.clone();
    assert_eq!(
        register_minter(&mut ctx, "a".repeat(33), 0),
        Err(program(ErrorCode::LabelTooLong))
    );
    assert_eq!(ctx.minter_role, before_role);
}

#[test]
fn register_minter_counts_label_bytes_not_characters() {
    // 17 characters, 34 bytes.
    let mut ctx = register_ctx(AUTHORITY);
    let label = "é".repeat(17);
    assert_eq!(label.chars().count(), 17);
    assert_eq!(register_minter(&mut ctx, label, 0), Err(program(ErrorCode::LabelTooLong)));
}

#[test]
fn register_minter_requires_authority() {
    let mut ctx = register_ctx(OTHER);
    assert_eq!(
        register_minter(&mut ctx, String::from("x"), 0),
        Err(InstructionError::Constraint(Constraint::HasOne))
    );
    assert!(!ctx.minter_role.is_active);
}

#[test]
fn revoke_minter_only_by_authority() {
    let ok = RevokeMinter { authority: key(AUTHORITY), config: config(), minter_role: blank_role() };
    assert_eq!(revoke_minter(&ok), Ok(()));
    let bad = RevokeMinter { authority: key(OTHER), config: config(), minter_role: blank_role() };
    assert_eq!(revoke_minter(&bad), Err(InstructionError::Constraint(Constraint::HasOne)));
}

fn backend_role(minter: u8) -> MinterRole {
    MinterRole {
        minter: key(minter),
        label: String::from("Backend"),
        max_xp_per_call: 0,
        total_xp_minted: 42,
        is_active: true,
        bump: 7,
    }
}

#[test]
fn update_config_hands_backend_role_to_new_key() {
    let mut ctx = UpdateConfig {
        authority: key(AUTHORITY),
        config: config(),
        new_backend_signer: key(OTHER),
        old_minter_role: Some(backend_role(BACKEND)),
        new_minter_role: blank_role(),
        new_minter_role_bump: 201,
    };
    assert_eq!(update_config(&mut ctx), Ok(()));
    assert_eq!(ctx.config, Config { backend_signer: key(OTHER), ..config() });
    assert_eq!(ctx.old_minter_role, Some(MinterRole { is_active: false, ..backend_role(BACKEND) }));
    assert_eq!(ctx.new_minter_role.minter, key(OTHER));
    assert_eq!(ctx.new_minter_role.label, "Backend");
    assert_eq!(ctx.new_minter_role.max_xp_per_call, 0);
    assert!(ctx.new_minter_role.is_active);
    assert_eq!(ctx.new_minter_role.bump, 201);
    // the instruction does not write the minted total of the fresh role
    assert_eq!(ctx.new_minter_role.total_xp_minted, 0);
}

#[test]
fn update_config_without_old_role() {
    let mut ctx = UpdateConfig {
        authority: key(AUTHORITY),
        config: config(),
        new_backend_signer: key(OTHER),
        old_minter_role: None,
        new_minter_role: blank_role(),
        new_minter_role_bump: 201,
    };
    assert_eq!(update_config(&mut ctx), Ok(()));
    assert_eq!(ctx.config.backend_signer, key(OTHER));
    assert_eq!(ctx.old_minter_role, None);
}

#[test]
fn update_config_rejects_role_of_another_key() {
    let mut ctx = UpdateConfig {
        authority: key(AUTHORITY),
        config: config(),
        new_backend_signer: key(OTHER),
        old_minter_role: Some(backend_role(CREATOR)),
        new_minter_role: blank_role(),
        new_minter_role_bump: 201,
    };
    assert_eq!(update_config(&mut ctx), Err(program(ErrorCode::Unauthorized)));
    assert_eq!(ctx.config, config());
    assert_eq!(ctx.old_minter_role, Some(backend_role(CREATOR)));
    assert!(!ctx.new_minter_role.is_active);
}

#[test]
fn update_config_requires_authority() {
    let mut ctx = UpdateConfig {
        authority: key(OTHER),
        config: config(),
        new_backend_signer: key(OTHER),
        old_minter_role: None,
        new_minter_role: blank_role(),
        new_minter_role_bump: 201,
    };
    assert_eq!(update_config(&mut ctx), Err(InstructionError::Constraint(Constraint::HasOne)));
}

// ---------------------------------------------------------------- courses

fn create(ctx: &mut CreateCourse, id: &str, lessons: u16, difficulty: u8) -> Result<(), InstructionError> {
    create_course(
        ctx,
        String::from(id),
        key(CREATOR),
        25,
        lessons,
        500,
        2,
        String::from("defi"),
        Some(key(OTHER)),
        difficulty,
    )
}

fn create_ctx(authority: u8) -> CreateCourse {
    CreateCourse { authority: key(authority), course: blank_course(), config: config(), course_bump: 249 }
}

#[test]
fn create_course_starts_active_without_completions() {
    let mut ctx = create_ctx(AUTHORITY);
    assert_eq!(create(&mut ctx, "defi-201", 12, 2), Ok(()));
    assert_eq!(
        ctx.course,
        Course {
            course_id: String::from("defi-201"),
            creator_wallet: key(CREATOR),
            xp_per_lesson: 25,
            lesson_count: 12,
            creator_reward_xp: 500,
            min_completions_for_reward: 2,
            total_completions: 0,
            track: String::from("defi"),
            prerequisite: Some(key(OTHER)),
            difficulty: 2,
            is_active: true,
            bump: 249,
        }
    );
}

#[test]
fn create_course_errors() {
    let mut ctx = create_ctx(OTHER);
    assert_eq!(create(&mut ctx, "x", 1, 1), Err(InstructionError::Constraint(Constraint::HasOne)));
    let mut ctx = create_ctx(AUTHORITY);
    assert_eq!(create(&mut ctx, "", 1, 1), Err(program(ErrorCode::CourseIdEmpty)));
    assert_eq!(create(&mut ctx, "x", 0, 1), Err(program(ErrorCode::InvalidLessonCount)));
    assert_eq!(create(&mut ctx, "x", 257, 1), Err(program(ErrorCode::InvalidLessonCount)));
    assert_eq!(create(&mut ctx, "x", u16::MAX, 1), Err(program(ErrorCode::InvalidLessonCount)));
    assert_eq!(create(&mut ctx, "x", 1, 0), Err(program(ErrorCode::InvalidDifficulty)));
    assert_eq!(create(&mut ctx, "x", 1, 4), Err(program(ErrorCode::InvalidDifficulty)));
    assert_eq!(ctx.course, blank_course());
    // the first failing check decides the error
    assert_eq!(create(&mut ctx, "", 0, 9), Err(program(ErrorCode::CourseIdEmpty)));
    assert_eq!(create(&mut ctx, "x", 1, 3), Ok(()));
    assert_eq!(create(&mut ctx, "x", 256, 3), Ok(()));
    assert_eq!(ctx.course.lesson_count, 256);
}

#[test]
fn update_course_changes_only_given_fields() {
    let mut ctx = UpdateCourse { authority: key(AUTHORITY), config: config(), course: course(5, 10) };
    let before = ctx.course.clone();
    assert_eq!(update_course(&mut ctx, Some(40), None, Some(7), Some(3), None, Some(false)), Ok(()));
    assert_eq!(
        ctx.course,
        Course {
            xp_per_lesson: 40,
            min_completions_for_reward: 7,
            difficulty: 3,
            is_active: false,
            ..before
        }
    );
}

#[test]
fn update_course_sets_and_removes_prerequisite() {
    let mut ctx = UpdateCourse { authority: key(AUTHORITY), config: config(), course: course(5, 10) };
    assert_eq!(update_course(&mut ctx, None, None, None, None, Some(Some(key(OTHER))), None), Ok(()));
    assert_eq!(ctx.course.prerequisite, Some(key(OTHER)));
    assert_eq!(update_course(&mut ctx, None, Some(9), None, None, Some(None), None), Ok(()));
    assert_eq!(ctx.course.prerequisite, None);
    assert_eq!(ctx.course.creator_reward_xp, 9);
}

#[test]
fn update_course_invalid_difficulty_changes_nothing() {
    let mut ctx = UpdateCourse { authority: key(AUTHORITY), config: config(), course: course(5, 10) };
    let before = ctx.course.clone();
    assert_eq!(
        update_course(&mut ctx, Some(40), Some(1), Some(7), Some(0), None, Some(false)),
        Err(program(ErrorCode::InvalidDifficulty))
    );
    assert_eq!(ctx.course, before);
    let mut ctx = UpdateCourse { authority: key(OTHER), config: config(), course: course(5, 10) };
    assert_eq!(
        update_course(&mut ctx, Some(40), None, None, None, None, None),
        Err(InstructionError::Constraint(Constraint::HasOne))
    );
    assert_eq!(ctx.course, before);
}

// ---------------------------------------------------------------- enrollment

fn enroll_ctx(c: Course, prereq: Option<Enrollment>) -> Enroll {
    Enroll {
        learner: key(LEARNER),
        course: c,
        course_key: key(COURSE),
        enrollment: blank_enrollment(),
        enrollment_bump: 253,
        prerequisite_enrollment: prereq,
    }
}

#[test]
fn enroll_writes_fresh_enrollment() {
    let mut ctx = enroll_ctx(course(3, 10), None);
    assert_eq!(enroll(&mut ctx, 1_000).map(|_| ()), Ok(()));
    assert_eq!(ctx.enrollment, enrollment());
    assert_eq!(count_completed(&ctx.enrollment.lesson_flags), 0);
}

#[test]
fn enroll_announces_the_enrollment() {
    let mut ctx = enroll_ctx(course(3, 10), None);
    assert_eq!(
        enroll(&mut ctx, 4_242),
        Ok(Enrolled { course: key(COURSE), learner: key(LEARNER), enrolled_at: 4_242 })
    );
}

#[test]
fn enroll_refuses_inactive_course() {
    let mut ctx = enroll_ctx(Course { is_active: false, ..course(3, 10) }, None);
    assert_eq!(enroll(&mut ctx, 1_000).map(|_| ()), Err(program(ErrorCode::CourseNotActive)));
    assert_eq!(ctx.enrollment, blank_enrollment());
}

#[test]
fn enroll_checks_prerequisite() {
    let with_prereq = Course { prerequisite: Some(key(OTHER)), ..course(3, 10) };
    let done = Enrollment { course: key(OTHER), completed_at: Some(10), ..enrollment() };

    let mut ctx = enroll_ctx(with_prereq.clone(), None);
    assert_eq!(enroll(&mut ctx, 1_000).map(|_| ()), Err(program(ErrorCode::PrerequisiteNotMet)));

    let mut ctx = enroll_ctx(with_prereq.clone(), Some(Enrollment { learner: key(OTHER), ..done }));
    assert_eq!(enroll(&mut ctx, 1_000).map(|_| ()), Err(program(ErrorCode::PrerequisiteNotMet)));

    let mut ctx = enroll_ctx(with_prereq.clone(), Some(Enrollment { course: key(CREATOR), ..done }));
    assert_eq!(enroll(&mut ctx, 1_000).map(|_| ()), Err(program(ErrorCode::PrerequisiteNotMet)));

    let mut ctx = enroll_ctx(with_prereq.clone(), Some(Enrollment { completed_at: None, ..done }));
    assert_eq!(enroll(&mut ctx, 1_000).map(|_| ()), Err(program(ErrorCode::PrerequisiteNotMet)));

    let mut ctx = enroll_ctx(with_prereq, Some(done));
    assert_eq!(enroll(&mut ctx, 1_000).map(|_| ()), Ok(()));
    assert_eq!(ctx.enrollment, enrollment());
}

#[test]
fn enroll_ignores_prerequisite_enrollment_when_course_has_none() {
    let stranger = Enrollment { learner: key(OTHER), ..enrollment() };
    let mut ctx = enroll_ctx(course(3, 10), Some(stranger));
    assert_eq!(enroll(&mut ctx, 77).map(|_| ()), Ok(()));
    assert_eq!(ctx.enrollment.enrolled_at, 77);
}

// ---------------------------------------------------------------- lessons

#[test]
fn complete_lesson_marks_bit_and_pays_xp() {
    let mut ctx = lesson_ctx(10, 30);
    assert_eq!(complete_lesson(&mut ctx, 3).map(|e| e.xp), Ok(30));
    assert_eq!(ctx.enrollment.lesson_flags, [1 << 3, 0, 0, 0]);
    assert!(is_lesson_done(&ctx.enrollment.lesson_flags, 3));
    assert!(!is_lesson_done(&ctx.enrollment.lesson_flags, 2));
    assert_eq!(count_completed(&ctx.enrollment.lesson_flags), 1);
    assert_eq!(ctx.course, course(10, 30));
}

#[test]
fn complete_lesson_announces_the_lesson() {
    let mut ctx = lesson_ctx(10, 30);
    assert_eq!(
        complete_lesson(&mut ctx, 7),
        Ok(LessonCompleted { course: key(COURSE), learner: key(LEARNER), lesson_index: 7, xp: 30 })
    );
}

#[test]
fn complete_lesson_uses_later_words() {
    let mut ctx = lesson_ctx(256, 1);
    assert_eq!(complete_lesson(&mut ctx, 64).map(|e| e.xp), Ok(1));
    assert_eq!(complete_lesson(&mut ctx, 255).map(|e| e.xp), Ok(1));
    assert_eq!(complete_lesson(&mut ctx, 130).map(|e| e.xp), Ok(1));
    assert_eq!(ctx.enrollment.lesson_flags, [0, 1, 1 << 2, 1 << 63]);
    assert_eq!(count_completed(&ctx.enrollment.lesson_flags), 3);
}

#[test]
fn complete_lesson_refuses_repeat() {
    let mut ctx = lesson_ctx(10, 30);
    assert_eq!(complete_lesson(&mut ctx, 9).map(|e| e.xp), Ok(30));
    let flags = ctx.enrollment.lesson_flags;
    assert_eq!(complete_lesson(&mut ctx, 9).map(|e| e.xp), Err(program(ErrorCode::LessonAlreadyCompleted)));
    assert_eq!(ctx.enrollment.lesson_flags, flags);
}

#[test]
fn complete_lesson_errors_in_order() {
    let mut ctx = lesson_ctx(10, 30);
    assert_eq!(complete_lesson(&mut ctx, 10).map(|e| e.xp), Err(program(ErrorCode::LessonOutOfBounds)));

    let mut ctx = CompleteLesson { backend_signer: key(OTHER), ..lesson_ctx(10, 30) };
    assert_eq!(complete_lesson(&mut ctx, 1).map(|e| e.xp), Err(program(ErrorCode::Unauthorized)));

    let mut ctx = CompleteLesson { enrollment: completed_enrollment(), ..lesson_ctx(10, 30) };
    assert_eq!(complete_lesson(&mut ctx, 1).map(|e| e.xp), Err(program(ErrorCode::CourseAlreadyFinalized)));

    let mut ctx = CompleteLesson { course_key: key(OTHER), backend_signer: key(OTHER), ..lesson_ctx(10, 30) };
    assert_eq!(complete_lesson(&mut ctx, 1).map(|e| e.xp), Err(InstructionError::Constraint(Constraint::Raw)));

    let mut ctx = CompleteLesson { learner_ata_owner: key(OTHER), ..lesson_ctx(10, 30) };
    assert_eq!(complete_lesson(&mut ctx, 1).map(|e| e.xp), Err(InstructionError::Constraint(Constraint::TokenOwner)));

    let mut ctx = CompleteLesson { xp_mint: key(OTHER), ..lesson_ctx(10, 30) };
    assert_eq!(complete_lesson(&mut ctx, 1).map(|e| e.xp), Err(InstructionError::Constraint(Constraint::Address)));
    assert_eq!(ctx.enrollment, enrollment());
}

// ---------------------------------------------------------------- finalize

fn all_done(n: u16) -> Enrollment {
    let mut ctx = lesson_ctx(n, 0);
    for i in 0..n {
        assert_eq!(complete_lesson(&mut ctx, i).map(|e| e.xp), Ok(0));
    }
    ctx.enrollment
}

#[test]
fn finalize_pays_half_of_lesson_xp() {
    let mut ctx = finalize_ctx(course(3, 25), all_done(3));
    assert_eq!(
        finalize_course(&mut ctx, 9_000),
        Ok(CompletionRewards { learner_bonus: 37, creator_reward: None })
    );
    assert_eq!(ctx.course.total_completions, 1);
    assert_eq!(ctx.enrollment.completed_at, Some(9_000));
}

#[test]
fn finalize_rewards_creator_from_threshold_on() {
    let c = Course { total_completions: 1, ..course(2, 10) };
    let mut ctx = finalize_ctx(c, all_done(2));
    assert_eq!(
        finalize_course(&mut ctx, 1),
        Ok(CompletionRewards { learner_bonus: 10, creator_reward: Some(500) })
    );
    assert_eq!(ctx.course.total_completions, 2);

    let c = Course { total_completions: 0, ..course(2, 10) };
    let mut ctx = finalize_ctx(c, all_done(2));
    assert_eq!(
        finalize_course(&mut ctx, 1),
        Ok(CompletionRewards { learner_bonus: 10, creator_reward: None })
    );

    let c = Course { total_completions: 40, creator_reward_xp: 0, ..course(2, 10) };
    let mut ctx = finalize_ctx(c, all_done(2));
    assert_eq!(
        finalize_course(&mut ctx, 1),
        Ok(CompletionRewards { learner_bonus: 10, creator_reward: None })
    );
}

#[test]
fn finalize_requires_every_lesson() {
    let mut ctx = finalize_ctx(course(3, 25), all_done(2));
    assert_eq!(finalize_course(&mut ctx, 1), Err(program(ErrorCode::CourseNotCompleted)));
    assert_eq!(ctx.enrollment.completed_at, None);
    assert_eq!(ctx.course.total_completions, 0);
}

#[test]
fn finalize_refuses_twice() {
    let mut ctx = finalize_ctx(course(3, 25), all_done(3));
    assert!(finalize_course(&mut ctx, 1).is_ok());
    assert_eq!(finalize_course(&mut ctx, 2), Err(program(ErrorCode::CourseAlreadyFinalized)));
    assert_eq!(ctx.course.total_completions, 1);
    assert_eq!(ctx.enrollment.completed_at, Some(1));
}

#[test]
fn finalize_overflows() {
    let mut ctx = finalize_ctx(course(2, u64::MAX / 2 + 1), all_done(2));
    assert_eq!(finalize_course(&mut ctx, 1), Err(program(ErrorCode::Overflow)));
    let mut ctx = finalize_ctx(course(2, u64::MAX / 2), all_done(2));
    assert_eq!(
        finalize_course(&mut ctx, 1),
        Ok(CompletionRewards { learner_bonus: u64::MAX / 2, creator_reward: None })
    );
    let c = Course { total_completions: u32::MAX, ..course(2, 1) };
    let mut ctx = finalize_ctx(c, all_done(2));
    assert_eq!(finalize_course(&mut ctx, 1), Err(program(ErrorCode::Overflow)));
    assert_eq!(ctx.enrollment.completed_at, None);
}

#[test]
fn finalize_checks_creator_account_only_when_rewarding() {
    // no reward due yet (threshold 2, no completions): the creator's account is not looked at
    let mut ctx = FinalizeCourse { creator_xp_owner: key(OTHER), ..finalize_ctx(course(2, 1), all_done(2)) };
    assert_eq!(
        finalize_course(&mut ctx, 1),
        Ok(CompletionRewards { learner_bonus: 1, creator_reward: None })
    );
    assert_eq!(ctx.enrollment.completed_at, Some(1));
    // a second finalize is answered as such, whatever the creator's account
    assert_eq!(finalize_course(&mut ctx, 2), Err(program(ErrorCode::CourseAlreadyFinalized)));
    let mut ctx = FinalizeCourse {
        creator_xp_owner: key(OTHER),
        backend_signer: key(OTHER),
        ..finalize_ctx(course(2, 1), all_done(2))
    };
    assert_eq!(finalize_course(&mut ctx, 1), Err(program(ErrorCode::Unauthorized)));
    // a reward of zero is never paid
    let c = Course { total_completions: 5, creator_reward_xp: 0, ..course(2, 1) };
    let mut ctx = FinalizeCourse { creator_xp_owner: key(OTHER), ..finalize_ctx(c, all_done(2)) };
    assert!(finalize_course(&mut ctx, 1).is_ok());
    // a reward due must go to the creator wallet
    let c = Course { total_completions: 1, ..course(2, 1) };
    let mut ctx = FinalizeCourse { creator_xp_owner: key(OTHER), ..finalize_ctx(c, all_done(2)) };
    assert_eq!(finalize_course(&mut ctx, 1), Err(InstructionError::Constraint(Constraint::TokenOwner)));
    assert_eq!(ctx.enrollment.completed_at, None);
    assert_eq!(ctx.course.total_completions, 1);
}

#[test]
fn finalize_checks_accounts_and_signer() {
    let mut ctx = FinalizeCourse { backend_signer: key(OTHER), ..finalize_ctx(course(2, 1), all_done(2)) };
    assert_eq!(finalize_course(&mut ctx, 1), Err(program(ErrorCode::Unauthorized)));
    let mut ctx = FinalizeCourse { course_key: key(OTHER), ..finalize_ctx(course(2, 1), all_done(2)) };
    assert_eq!(finalize_course(&mut ctx, 1), Err(InstructionError::Constraint(Constraint::Raw)));
    let mut ctx = FinalizeCourse { learner_xp_owner: key(OTHER), ..finalize_ctx(course(2, 1), all_done(2)) };
    assert_eq!(finalize_course(&mut ctx, 1), Err(InstructionError::Constraint(Constraint::TokenOwner)));
    let mut ctx = FinalizeCourse { xp_mint: key(OTHER), ..finalize_ctx(course(2, 1), all_done(2)) };
    assert_eq!(finalize_course(&mut ctx, 1), Err(InstructionError::Constraint(Constraint::Address)));
}

// ---------------------------------------------------------------- closing

#[test]
fn close_enrollment_waits_a_day_unless_completed() {
    let ctx = CloseEnrollment { learner: key(LEARNER), course: course(3, 1), enrollment: enrollment() };
    assert_eq!(close_enrollment(&ctx, 1_000 + 86_399), Err(program(ErrorCode::UnenrollCooldown)));
    assert_eq!(close_enrollment(&ctx, 1_000 + 86_400), Ok(()));
    assert_eq!(close_enrollment(&ctx, 0), Err(program(ErrorCode::UnenrollCooldown)));
    let done = CloseEnrollment { enrollment: completed_enrollment(), ..ctx };
    assert_eq!(close_enrollment(&done, 1_000), Ok(()));
}

// ---------------------------------------------------------------- credentials

fn attr(key: &str, value: &str) -> CredentialAttribute {
    CredentialAttribute { key: String::from(key), value: String::from(value) }
}

#[test]
fn issue_credential_creates_frozen_asset_with_attributes() {
    let mut ctx = issue_ctx(completed_enrollment());
    assert_eq!(
        issue_credential(&mut ctx, String::from("Solana 101"), String::from("https://x/1.json"), 4, 1200),
        Ok(CredentialAction::Create(CredentialMint {
            owner: key(LEARNER),
            name: String::from("Solana 101"),
            uri: String::from("https://x/1.json"),
            frozen: true,
            attributes: vec![
                attr("track", "anchor"),
                attr("courses_completed", "4"),
                attr("total_xp", "1200"),
            ],
        }))
    );
    assert_eq!(ctx.enrollment.credential_asset, Some(key(ASSET)));
}

#[test]
fn issue_credential_writes_counts_in_decimal() {
    let mut ctx = issue_ctx(completed_enrollment());
    let action = issue_credential(&mut ctx, String::from("n"), String::from("u"), 0, u64::MAX);
    match action {
        Ok(CredentialAction::Create(mint)) => {
            assert_eq!(mint.attributes[1], attr("courses_completed", "0"));
            assert_eq!(mint.attributes[2], attr("total_xp", "18446744073709551615"));
        }
        other => panic!("expected a new credential, got {:?}", other),
    }
    let mut ctx = issue_ctx(completed_enrollment());
    match issue_credential(&mut ctx, String::from("n"), String::from("u"), u32::MAX, 10) {
        Ok(CredentialAction::Create(mint)) => {
            assert_eq!(mint.attributes[1], attr("courses_completed", "4294967295"));
            assert_eq!(mint.attributes[2], attr("total_xp", "10"));
        }
        other => panic!("expected a new credential, got {:?}", other),
    }
}

#[test]
fn issue_credential_again_updates_the_same_asset() {
    let mut ctx = issue_ctx(completed_enrollment());
    assert!(matches!(
        issue_credential(&mut ctx, String::from("Solana 101"), String::from("u1"), 4, 1200),
        Ok(CredentialAction::Create(_))
    ));
    let recorded = ctx.enrollment;
    assert_eq!(
        issue_credential(&mut ctx, String::from("Solana 102"), String::from("u2"), 5, 1300),
        Ok(CredentialAction::Update(CredentialUpdate {
            name: String::from("Solana 102"),
            uri: String::from("u2"),
        }))
    );
    assert_eq!(ctx.enrollment, recorded);
    let mut other = IssueCredential { asset: key(OTHER), ..issue_ctx(recorded) };
    assert_eq!(
        issue_credential(&mut other, String::from("again"), String::from("u"), 5, 1300),
        Err(program(ErrorCode::CredentialAlreadyIssued))
    );
    assert_eq!(other.enrollment.credential_asset, Some(key(ASSET)));
}

#[test]
fn issue_credential_errors() {
    let mut ctx = issue_ctx(enrollment());
    assert_eq!(
        issue_credential(&mut ctx, String::from("n"), String::from("u"), 1, 1),
        Err(program(ErrorCode::CourseNotFinalized))
    );
    let mut ctx = IssueCredential { learner: key(OTHER), ..issue_ctx(completed_enrollment()) };
    assert_eq!(
        issue_credential(&mut ctx, String::from("n"), String::from("u"), 1, 1),
        Err(program(ErrorCode::Unauthorized))
    );
    let mut ctx = IssueCredential { backend_signer: key(OTHER), ..issue_ctx(completed_enrollment()) };
    assert_eq!(
        issue_credential(&mut ctx, String::from("n"), String::from("u"), 1, 1),
        Err(program(ErrorCode::Unauthorized))
    );
    let mut ctx = issue_ctx(completed_enrollment());
    assert_eq!(
        issue_credential(&mut ctx, String::new(), String::from("u"), 1, 1),
        Err(program(ErrorCode::InvalidAmount))
    );
    assert_eq!(
        issue_credential(&mut ctx, String::from("n"), String::new(), 1, 1),
        Err(program(ErrorCode::InvalidAmount))
    );
    assert_eq!(ctx.enrollment.credential_asset, None);
    let mut ctx = IssueCredential { course_key: key(OTHER), ..issue_ctx(completed_enrollment()) };
    assert_eq!(
        issue_credential(&mut ctx, String::from("n"), String::from("u"), 1, 1),
        Err(InstructionError::Constraint(Constraint::Raw))
    );
}

#[test]
fn upgrade_credential_updates_recorded_asset_only() {
    let issued = Enrollment { credential_asset: Some(key(ASSET)), ..completed_enrollment() };
    let ctx = upgrade_ctx(issued);
    assert_eq!(
        upgrade_credential(&ctx, String::from("Solana 102"), String::from("https://x/2.json"), 9, 9),
        Ok(CredentialUpdate { name: String::from("Solana 102"), uri: String::from("https://x/2.json") })
    );
    let other = UpgradeCredential { asset: key(OTHER), ..upgrade_ctx(issued) };
    assert_eq!(
        upgrade_credential(&other, String::from("n"), String::from("u"), 0, 0),
        Err(program(ErrorCode::CredentialAssetMismatch))
    );
    let none = upgrade_ctx(completed_enrollment());
    assert_eq!(
        upgrade_credential(&none, String::from("n"), String::from("u"), 0, 0),
        Err(program(ErrorCode::CredentialAssetMismatch))
    );
    let open = upgrade_ctx(Enrollment { credential_asset: Some(key(ASSET)), ..enrollment() });
    assert_eq!(
        upgrade_credential(&open, String::from("n"), String::from("u"), 0, 0),
        Err(program(ErrorCode::CourseNotFinalized))
    );
    let stranger = UpgradeCredential { backend_signer: key(OTHER), ..upgrade_ctx(issued) };
    assert_eq!(
        upgrade_credential(&stranger, String::from("n"), String::from("u"), 0, 0),
        Err(program(ErrorCode::Unauthorized))
    );
}

// ---------------------------------------------------------------- whole journey

#[test]
fn learner_journey_from_enrollment_to_credential() {
    let mut e = enroll_ctx(course(4, 50), None);
    assert_eq!(enroll(&mut e, 1_000).map(|_| ()), Ok(()));

    let mut l = lesson_ctx(4, 50);
    l.enrollment = e.enrollment;
    let mut earned = 0;
    for i in [2u16, 0, 3, 1] {
        earned += complete_lesson(&mut l, i).unwrap().xp;
    }
    assert_eq!(earned, 200);
    assert_eq!(count_completed(&l.enrollment.lesson_flags), 4);

    let mut f = finalize_ctx(course(4, 50), l.enrollment);
    assert_eq!(
        finalize_course(&mut f, 2_000),
        Ok(CompletionRewards { learner_bonus: 100, creator_reward: None })
    );

    let mut l2 = CompleteLesson { enrollment: f.enrollment, ..lesson_ctx(4, 50) };
    assert_eq!(complete_lesson(&mut l2, 0).map(|e| e.xp), Err(program(ErrorCode::CourseAlreadyFinalized)));

    let mut i = issue_ctx(f.enrollment);
    assert!(issue_credential(&mut i, String::from("n"), String::from("u"), 1, 300).is_ok());
    let u = upgrade_ctx(i.enrollment);
    assert!(upgrade_credential(&u, String::from("n2"), String::from("u2"), 2, 600).is_ok());

    let c = CloseEnrollment { learner: key(LEARNER), course: course(4, 50), enrollment: i.enrollment };
    assert_eq!(close_enrollment(&c, 2_001), Ok(()));
}

#[test]
fn replaced_backend_cannot_record_lessons() {
    let mut u = UpdateConfig {
        authority: key(AUTHORITY),
        config: config(),
        new_backend_signer: key(OTHER),
        old_minter_role: Some(backend_role(BACKEND)),
        new_minter_role: blank_role(),
        new_minter_role_bump: 201,
    };
    assert_eq!(update_config(&mut u), Ok(()));
    let mut l = CompleteLesson { config: u.config, ..lesson_ctx(4, 50) };
    assert_eq!(complete_lesson(&mut l, 0).map(|e| e.xp), Err(program(ErrorCode::Unauthorized)));
    let mut l = CompleteLesson { config: u.config, backend_signer: key(OTHER), ..lesson_ctx(4, 50) };
    assert_eq!(complete_lesson(&mut l, 0).map(|e| e.xp), Ok(50));
}
