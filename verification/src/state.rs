use vstd::prelude::*;
use crate::key::Pubkey;
use crate::progress::LESSON_CAPACITY;

verus! {

/// Platform-wide settings, kept in a single account.
#[derive(Clone, Copy, Debug, PartialEq, Eq)]
pub struct Config {
    /// The administrator of the platform.
    pub authority: Pubkey,
    /// The server key that vouches for learners' progress.
    pub backend_signer: Pubkey,
    /// The token in which experience points are counted.
    pub xp_mint: Pubkey,
    pub bump: u8,
}

/// A course and its reward parameters.
#[derive(Clone, Debug, PartialEq, Eq)]
pub struct Course {
    /// Unique course identifier (slug-like).
    pub course_id: String,
    /// Creator wallet (receives `creator_reward_xp`).
    pub creator_wallet: Pubkey,
    /// XP per lesson.
    pub xp_per_lesson: u64,
    /// Number of lessons (1 to 256: the capacity of an enrollment's bitmap).
    pub lesson_count: u16,
    /// XP given to the creator once the threshold is met.
    pub creator_reward_xp: u64,
    /// Minimum completions required before the creator reward activates.
    pub min_completions_for_reward: u32,
    /// Total times the course was completed.
    pub total_completions: u32,
    /// Track identifier (e.g. "anchor", "defi").
    pub track: String,
    /// Optional prerequisite course.
    pub prerequisite: Option<Pubkey>,
    /// Difficulty: 1 = beginner, 2 = intermediate, 3 = advanced.
    pub difficulty: u8,
    /// Whether the course accepts enrollments.
    pub is_active: bool,
    pub bump: u8,
}

impl Course {
    /// What every course that `create_course` makes satisfies, and what the
    /// other instructions keep.
    pub open spec fn well_formed(&self) -> bool {
        &&& self.course_id@.len() > 0
        &&& 0 < self.lesson_count <= LESSON_CAPACITY
        &&& valid_difficulty(self.difficulty)
    }
}

/// The number of bytes that `s` takes in UTF-8.
pub open spec fn byte_len(s: Seq<char>) -> nat {
    vstd::utf8::encode_utf8(s).len()
}

/// The longest label that a minter role may carry, in bytes.
pub const MAX_LABEL_LEN: usize = 32;

/// Difficulties are 1 (beginner), 2 (intermediate) and 3 (advanced).
pub open spec fn valid_difficulty(d: u8) -> bool {
    1 <= d <= 3
}

/// A learner's progress record in one course.
#[derive(Clone, Copy, Debug, PartialEq, Eq)]
pub struct Enrollment {
    /// The course this enrollment belongs to.
    pub course: Pubkey,
    /// Learner wallet.
    pub learner: Pubkey,
    /// 256-bit lesson completion bitmap (4 x 64 bits): lesson `i` is bit
    /// `i % 64` of word `i / 64`.
    pub lesson_flags: [u64; 4],
    /// Time of enrollment (Unix seconds).
    pub enrolled_at: i64,
    /// Time of completion (`None` while incomplete).
    pub completed_at: Option<i64>,
    /// The credential asset (`None` until issued).
    pub credential_asset: Option<Pubkey>,
    pub bump: u8,
}

impl Enrollment {
    /// A credential is recorded only for a completed course.
    pub open spec fn credential_after_completion(&self) -> bool {
        self.credential_asset is Some ==> self.completed_at is Some
    }
}

/// A key that may mint experience points.
#[derive(Clone, Debug, PartialEq, Eq)]
pub struct MinterRole {
    /// Minter wallet.
    pub minter: Pubkey,
    /// Human-readable label (e.g. "Backend", "Seasonal Event"), at most 32 bytes.
    pub label: String,
    /// Max XP allowed per reward call (0 = unlimited).
    pub max_xp_per_call: u64,
    /// Total XP minted by this minter.
    pub total_xp_minted: u64,
    /// Whether this minter is active.
    pub is_active: bool,
    pub bump: u8,
}

/// A kind of achievement badge.
#[derive(Clone, Debug, PartialEq, Eq)]
pub struct AchievementType {
    /// Unique achievement ID (at most 32 bytes).
    pub achievement_id: String,
    /// Display name (at most 64 bytes).
    pub name: String,
    /// Metadata URI for the badge (at most 200 bytes).
    pub metadata_uri: String,
    /// Collection address of the badges.
    pub collection: Pubkey,
    /// Max supply (0 = unlimited).
    pub max_supply: u32,
    /// Current number minted.
    pub current_supply: u32,
    /// XP reward granted when awarded.
    pub xp_reward: u64,
    /// Whether the achievement can be awarded.
    pub is_active: bool,
    pub bump: u8,
}

/// Proof that a recipient was awarded an achievement.
#[derive(Clone, Debug, PartialEq, Eq)]
pub struct AchievementReceipt {
    /// Achievement ID (at most 32 bytes).
    pub achievement_id: String,
    /// Recipient wallet.
    pub recipient: Pubkey,
    pub bump: u8,
}

} // verus!
