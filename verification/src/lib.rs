//! Verified core of a learning platform whose progress, rewards and
//! credentials live in on-chain accounts.
//!
//! Each instruction of the platform is a function from the accounts it reads
//! (as plain values) and its arguments to the new account contents and the
//! outside work that remains to be done (token mints, credential creation).
//! The functions check everything the instruction checks, in the same order,
//! and say in their contracts exactly when each error comes. Beyond that they
//! hold a course to at most 256 lessons (the capacity of the completion
//! bitmap) and check that XP goes to accounts of the wallets that earn it:
//! the learner's, and the creator's when a creator reward is paid.
pub mod key;
pub mod error;
pub mod state;
pub mod progress;
pub mod history;
pub mod platform;
pub mod course_management;
pub mod learning;
pub mod credentials;
pub mod laws;

pub use key::Pubkey;
pub use error::{Constraint, ErrorCode, InstructionError};
pub use state::{AchievementReceipt, AchievementType, Config, Course, Enrollment, MinterRole};
pub use platform::{
    initialize, register_minter, revoke_minter, update_config, Initialize, RegisterMinter,
    RevokeMinter, UpdateConfig,
};
pub use course_management::{
    create_course, finalize_course, update_course, CompletionRewards, CreateCourse, FinalizeCourse,
    UpdateCourse,
};
pub use learning::{
    close_enrollment, complete_lesson, enroll, CloseEnrollment, CompleteLesson, Enroll, Enrolled,
    LessonCompleted,
};
pub use credentials::{
    issue_credential, upgrade_credential, CredentialAction, CredentialAttribute, CredentialMint,
    CredentialUpdate, IssueCredential, UpgradeCredential,
};
