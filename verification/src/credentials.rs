use vstd::prelude::*;
use crate::key::Pubkey;
use crate::error::{Constraint, ErrorCode, InstructionError};
use crate::state::{Config, Course, Enrollment};
use crate::history::{lifecycle, step_allowed, take_step, Step};

verus! {

/// The accounts of `issue_credential`.
pub struct IssueCredential {
    pub backend_signer: Pubkey,
    pub config: Config,
    pub course: Course,
    /// The address of the course account.
    pub course_key: Pubkey,
    pub enrollment: Enrollment,
    /// The address of the credential asset: where it is created, or the one
    /// already issued.
    pub asset: Pubkey,
    /// The wallet that receives the credential.
    pub learner: Pubkey,
}

/// A `(key, value)` attribute carried by a credential.
#[derive(Clone, Debug, PartialEq, Eq)]
pub struct CredentialAttribute {
    pub key: String,
    pub value: String,
}

/// The credential asset to create in the wallet `owner`, named `name` and
/// described at `uri`. `frozen` asks for it to be frozen for good (it cannot
/// leave the wallet), and it carries `attributes` in this order.
#[derive(Clone, Debug, PartialEq, Eq)]
pub struct CredentialMint {
    pub owner: Pubkey,
    pub name: String,
    pub uri: String,
    pub frozen: bool,
    pub attributes: Vec<CredentialAttribute>,
}

/// What `issue_credential` leaves to do: create the credential asset, or,
/// when the enrollment already holds one, update that same asset.
#[derive(Clone, Debug, PartialEq, Eq)]
pub enum CredentialAction {
    Create(CredentialMint),
    Update(CredentialUpdate),
}

/// The decimal digit `d` (`0 <= d < 10`).
pub open spec fn digit_char(d: nat) -> char {
    seq!['0', '1', '2', '3', '4', '5', '6', '7', '8', '9'][d as int]
}

/// `n` written in decimal, without sign or leading zeros.
pub open spec fn decimal_text(n: nat) -> Seq<char>
    decreases n,
{
    if n < 10 {
        seq![digit_char(n)]
    } else {
        decimal_text(n / 10).push(digit_char(n % 10))
    }
}

/// `n` in decimal, as `u64`'s `Display` (through `ToString::to_string`)
/// writes it: the digits without sign or leading zeros. The contract states
/// that documented behaviour of std; nothing here proves it.
#[verifier::external_body]
fn decimal_string(n: u64) -> (s: String)
    ensures
        s@ == decimal_text(n as nat),
{
    n.to_string()
}

/// The key of the credential's track attribute.
pub open spec fn track_key() -> Seq<char> {
    seq!['t', 'r', 'a', 'c', 'k']
}

/// The key of the credential's count of completed courses.
pub open spec fn courses_completed_key() -> Seq<char> {
    seq![
        'c', 'o', 'u', 'r', 's', 'e', 's', '_', 'c', 'o', 'm', 'p', 'l', 'e', 't', 'e', 'd'
    ]
}

/// The key of the credential's XP total.
pub open spec fn total_xp_key() -> Seq<char> {
    seq!['t', 'o', 't', 'a', 'l', '_', 'x', 'p']
}

/// `attributes` are, in order, the track, the number of completed courses and
/// the XP total, each value in text.
pub open spec fn credential_attributes(
    attributes: Seq<CredentialAttribute>,
    track: Seq<char>,
    courses_completed: u32,
    total_xp: u64,
) -> bool {
    &&& attributes.len() == 3
    &&& attributes[0].key@ == track_key()
    &&& attributes[0].value@ == track
    &&& attributes[1].key@ == courses_completed_key()
    &&& attributes[1].value@ == decimal_text(courses_completed as nat)
    &&& attributes[2].key@ == total_xp_key()
    &&& attributes[2].value@ == decimal_text(total_xp as nat)
}

fn attribute(key: &str, value: String) -> (a: CredentialAttribute)
    ensures
        a.key@ == key@,
        a.value@ == value@,
{
    CredentialAttribute { key: String::from_str(key), value }
}

fn credential_attribute_list(track: String, courses_completed: u32, total_xp: u64) -> (v: Vec<
    CredentialAttribute,
>)
    ensures
        credential_attributes(v@, track@, courses_completed, total_xp),
{
    let mut v: Vec<CredentialAttribute> = Vec::new();
    let track_attr = attribute("track", track);
    let courses_attr = attribute("courses_completed", decimal_string(courses_completed as u64));
    let xp_attr = attribute("total_xp", decimal_string(total_xp));
    proof {
        reveal_strlit("track");
        reveal_strlit("courses_completed");
        reveal_strlit("total_xp");
    }
    assert(track_attr.key@ =~= track_key());
    assert(courses_attr.key@ =~= courses_completed_key());
    assert(xp_attr.key@ =~= total_xp_key());
    v.push(track_attr);
    v.push(courses_attr);
    v.push(xp_attr);
    v
}

/// Why `issue_credential` refuses, if it does.
pub open spec fn issue_credential_rejection(
    ctx: IssueCredential,
    credential_name: Seq<char>,
    metadata_uri: Seq<char>,
) -> Option<InstructionError> {
    if ctx.enrollment.course != ctx.course_key {
        Some(InstructionError::Constraint(Constraint::Raw))
    } else if ctx.backend_signer != ctx.config.backend_signer {
        Some(InstructionError::Program(ErrorCode::Unauthorized))
    } else if ctx.enrollment.learner != ctx.learner {
        Some(InstructionError::Program(ErrorCode::Unauthorized))
    } else if ctx.enrollment.completed_at is None {
        Some(InstructionError::Program(ErrorCode::CourseNotFinalized))
    } else if credential_name.len() == 0 {
        Some(InstructionError::Program(ErrorCode::InvalidAmount))
    } else if metadata_uri.len() == 0 {
        Some(InstructionError::Program(ErrorCode::InvalidAmount))
    } else if ctx.enrollment.credential_asset is Some && ctx.enrollment.credential_asset != Some(
        ctx.asset,
    ) {
        Some(InstructionError::Program(ErrorCode::CredentialAlreadyIssued))
    } else {
        None
    }
}

/// The backend issues the credential of a completed course. The first time,
/// a frozen credential asset is created at `asset` for the learner and the
/// enrollment records it; when the enrollment already records `asset`, that
/// same asset is renamed and pointed at the new metadata instead, and no new
/// asset is made. A different asset is refused.
pub fn issue_credential(
    ctx: &mut IssueCredential,
    credential_name: String,
    metadata_uri: String,
    courses_completed: u32,
    total_xp: u64,
) -> (r: Result<CredentialAction, InstructionError>)
    ensures
        r is Ok <==> {
            &&& old(ctx).enrollment.course == old(ctx).course_key
            &&& old(ctx).backend_signer == old(ctx).config.backend_signer
            &&& old(ctx).enrollment.learner == old(ctx).learner
            &&& old(ctx).enrollment.completed_at is Some
            &&& credential_name@.len() > 0
            &&& metadata_uri@.len() > 0
            &&& (old(ctx).enrollment.credential_asset is None
                || old(ctx).enrollment.credential_asset == Some(old(ctx).asset))
        },
        r is Err <==> issue_credential_rejection(*old(ctx), credential_name@, metadata_uri@) is Some,
        r matches Err(e) ==> issue_credential_rejection(*old(ctx), credential_name@, metadata_uri@)
            == Some(e),
        r is Err ==> *final(ctx) == *old(ctx),
        r is Ok ==> (r matches Ok(CredentialAction::Create(_))) == (
        old(ctx).enrollment.credential_asset is None),
        r matches Ok(CredentialAction::Create(mint)) ==> {
            &&& mint.owner == old(ctx).learner
            &&& mint.owner == old(ctx).enrollment.learner
            &&& mint.name@ == credential_name@
            &&& mint.uri@ == metadata_uri@
            &&& mint.frozen
            &&& credential_attributes(
                mint.attributes@,
                old(ctx).course.track@,
                courses_completed,
                total_xp,
            )
            &&& *final(ctx) == (IssueCredential {
                enrollment: Enrollment {
                    credential_asset: Some(old(ctx).asset),
                    ..old(ctx).enrollment
                },
                ..*old(ctx)
            })
        },
        r matches Ok(CredentialAction::Update(update)) ==> {
            &&& update.name@ == credential_name@
            &&& update.uri@ == metadata_uri@
            &&& old(ctx).enrollment.credential_asset == Some(old(ctx).asset)
            &&& *final(ctx) == *old(ctx)
        },
        r is Ok ==> final(ctx).enrollment.credential_asset == Some(old(ctx).asset),
        r is Ok ==> final(ctx).enrollment.credential_after_completion(),
        r is Ok ==> step_allowed(lifecycle(old(ctx).enrollment), Step::Issue(old(ctx).asset)),
        r is Ok ==> lifecycle(final(ctx).enrollment) == take_step(
            lifecycle(old(ctx).enrollment),
            Step::Issue(old(ctx).asset),
        ),
{
    if ctx.enrollment.course != ctx.course_key {
        return Err(InstructionError::Constraint(Constraint::Raw));
    }
    if ctx.backend_signer != ctx.config.backend_signer {
        return Err(InstructionError::Program(ErrorCode::Unauthorized));
    }
    if ctx.enrollment.learner != ctx.learner {
        return Err(InstructionError::Program(ErrorCode::Unauthorized));
    }
    if ctx.enrollment.completed_at.is_none() {
        return Err(InstructionError::Program(ErrorCode::CourseNotFinalized));
    }
    if credential_name.as_str().is_empty() {
        return Err(InstructionError::Program(ErrorCode::InvalidAmount));
    }
    if metadata_uri.as_str().is_empty() {
        return Err(InstructionError::Program(ErrorCode::InvalidAmount));
    }
    match ctx.enrollment.credential_asset {
        Some(existing) => {
            if existing != ctx.asset {
                return Err(InstructionError::Program(ErrorCode::CredentialAlreadyIssued));
            }
            Ok(CredentialAction::Update(CredentialUpdate { name: credential_name, uri: metadata_uri }))
        },
        None => {
            let attributes = credential_attribute_list(
                ctx.course.track.clone(),
                courses_completed,
                total_xp,
            );
            ctx.enrollment.credential_asset = Some(ctx.asset);
            Ok(
                CredentialAction::Create(
                    CredentialMint {
                        owner: ctx.learner,
                        name: credential_name,
                        uri: metadata_uri,
                        frozen: true,
                        attributes,
                    },
                ),
            )
        },
    }
}

/// The accounts of `upgrade_credential`.
pub struct UpgradeCredential {
    pub backend_signer: Pubkey,
    pub config: Config,
    pub course: Course,
    /// The address of the course account.
    pub course_key: Pubkey,
    pub enrollment: Enrollment,
    /// The address of the credential asset to update.
    pub asset: Pubkey,
}

/// The new name and metadata URI of an issued credential.
#[derive(Clone, Debug, PartialEq, Eq)]
pub struct CredentialUpdate {
    pub name: String,
    pub uri: String,
}

/// Why `upgrade_credential` refuses, if it does.
pub open spec fn upgrade_credential_rejection(ctx: UpgradeCredential) -> Option<InstructionError> {
    if ctx.enrollment.course != ctx.course_key {
        Some(InstructionError::Constraint(Constraint::Raw))
    } else if ctx.backend_signer != ctx.config.backend_signer {
        Some(InstructionError::Program(ErrorCode::Unauthorized))
    } else if ctx.enrollment.completed_at is None {
        Some(InstructionError::Program(ErrorCode::CourseNotFinalized))
    } else if ctx.enrollment.credential_asset != Some(ctx.asset) {
        Some(InstructionError::Program(ErrorCode::CredentialAssetMismatch))
    } else {
        None
    }
}

/// The backend renames an issued credential and points it at new metadata;
/// only the asset that the enrollment records can be updated. The counts
/// passed in are not used.
pub fn upgrade_credential(
    ctx: &UpgradeCredential,
    credential_name: String,
    metadata_uri: String,
    _courses_completed: u32,
    _total_xp: u64,
) -> (r: Result<CredentialUpdate, InstructionError>)
    ensures
        r is Err <==> upgrade_credential_rejection(*ctx) is Some,
        r matches Err(e) ==> upgrade_credential_rejection(*ctx) == Some(e),
        r matches Ok(update) ==> update.name@ == credential_name@ && update.uri@ == metadata_uri@,
{
    if ctx.enrollment.course != ctx.course_key {
        return Err(InstructionError::Constraint(Constraint::Raw));
    }
    if ctx.backend_signer != ctx.config.backend_signer {
        return Err(InstructionError::Program(ErrorCode::Unauthorized));
    }
    if ctx.enrollment.completed_at.is_none() {
        return Err(InstructionError::Program(ErrorCode::CourseNotFinalized));
    }
    let stored_asset = match ctx.enrollment.credential_asset {
        Some(a) => a,
        None => {
            return Err(InstructionError::Program(ErrorCode::CredentialAssetMismatch));
        },
    };
    if stored_asset != ctx.asset {
        return Err(InstructionError::Program(ErrorCode::CredentialAssetMismatch));
    }
    Ok(CredentialUpdate { name: credential_name, uri: metadata_uri })
}

} // verus!
