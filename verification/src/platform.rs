use vstd::prelude::*;
use crate::key::Pubkey;
use crate::error::{Constraint, ErrorCode, InstructionError};
use crate::state::{byte_len, Config, MinterRole, MAX_LABEL_LEN};

verus! {

/// The label under which the backend signer holds its minter role.
pub open spec fn backend_label() -> Seq<char> {
    seq!['B', 'a', 'c', 'k', 'e', 'n', 'd']
}

fn backend_label_string() -> (s: String)
    ensures
        s@ == backend_label(),
{
    let s = String::from_str("Backend");
    proof {
        reveal_strlit("Backend");
    }
    assert(s@ =~= backend_label());
    s
}

/// The accounts of `initialize`: a fresh configuration and a fresh minter role.
pub struct Initialize {
    pub authority: Pubkey,
    pub config: Config,
    pub xp_mint: Pubkey,
    pub backend_signer: Pubkey,
    pub minter_role: MinterRole,
    pub config_bump: u8,
    pub minter_role_bump: u8,
}

/// Sets up the platform: records the authority, the backend signer and the XP
/// token, and registers the backend signer as an active minter without a
/// per-call limit.
pub fn initialize(ctx: &mut Initialize) -> (r: Result<(), InstructionError>)
    ensures
        r is Ok,
        final(ctx).config == (Config {
            authority: old(ctx).authority,
            backend_signer: old(ctx).backend_signer,
            xp_mint: old(ctx).xp_mint,
            bump: old(ctx).config_bump,
        }),
        final(ctx).minter_role.minter == old(ctx).backend_signer,
        final(ctx).minter_role.label@ == backend_label(),
        final(ctx).minter_role.max_xp_per_call == 0,
        final(ctx).minter_role.total_xp_minted == 0,
        final(ctx).minter_role.is_active,
        final(ctx).minter_role.bump == old(ctx).minter_role_bump,
        final(ctx).authority == old(ctx).authority,
        final(ctx).xp_mint == old(ctx).xp_mint,
        final(ctx).backend_signer == old(ctx).backend_signer,
        final(ctx).config_bump == old(ctx).config_bump,
        final(ctx).minter_role_bump == old(ctx).minter_role_bump,
{
    ctx.config.authority = ctx.authority;
    ctx.config.backend_signer = ctx.backend_signer;
    ctx.config.xp_mint = ctx.xp_mint;
    ctx.config.bump = ctx.config_bump;

    ctx.minter_role.minter = ctx.backend_signer;
    ctx.minter_role.label = backend_label_string();
    ctx.minter_role.max_xp_per_call = 0;
    ctx.minter_role.total_xp_minted = 0;
    ctx.minter_role.is_active = true;
    ctx.minter_role.bump = ctx.minter_role_bump;
    Ok(())
}

/// The accounts of `register_minter`.
pub struct RegisterMinter {
    pub authority: Pubkey,
    pub config: Config,
    pub minter: Pubkey,
    pub minter_role: MinterRole,
    pub minter_role_bump: u8,
}

/// Why `register_minter` refuses, if it does.
pub open spec fn register_minter_rejection(ctx: RegisterMinter, label: Seq<char>) -> Option<
    InstructionError,
> {
    if ctx.config.authority != ctx.authority {
        Some(InstructionError::Constraint(Constraint::HasOne))
    } else if byte_len(label) > MAX_LABEL_LEN {
        Some(InstructionError::Program(ErrorCode::LabelTooLong))
    } else {
        None
    }
}

/// The authority grants `minter` the right to mint XP, up to
/// `max_xp_per_call` per call (0 = unlimited).
pub fn register_minter(ctx: &mut RegisterMinter, label: String, max_xp_per_call: u64) -> (r:
    Result<(), InstructionError>)
    requires
        byte_len(label@) <= usize::MAX,
    ensures
        r is Err <==> register_minter_rejection(*old(ctx), label@) is Some,
        r matches Err(e) ==> register_minter_rejection(*old(ctx), label@) == Some(e),
        r is Err ==> *final(ctx) == *old(ctx),
        r is Ok ==> {
            &&& final(ctx).minter_role.minter == old(ctx).minter
            &&& final(ctx).minter_role.label@ == label@
            &&& final(ctx).minter_role.max_xp_per_call == max_xp_per_call
            &&& final(ctx).minter_role.total_xp_minted == 0
            &&& final(ctx).minter_role.is_active
            &&& final(ctx).minter_role.bump == old(ctx).minter_role_bump
        },
        final(ctx).authority == old(ctx).authority,
        final(ctx).config == old(ctx).config,
        final(ctx).minter == old(ctx).minter,
        final(ctx).minter_role_bump == old(ctx).minter_role_bump,
{
    if ctx.config.authority != ctx.authority {
        return Err(InstructionError::Constraint(Constraint::HasOne));
    }
    if label.as_str().len() > MAX_LABEL_LEN {
        return Err(InstructionError::Program(ErrorCode::LabelTooLong));
    }
    ctx.minter_role.minter = ctx.minter;
    ctx.minter_role.label = label;
    ctx.minter_role.max_xp_per_call = max_xp_per_call;
    ctx.minter_role.total_xp_minted = 0;
    ctx.minter_role.is_active = true;
    ctx.minter_role.bump = ctx.minter_role_bump;
    Ok(())
}

/// The accounts of `revoke_minter`.
pub struct RevokeMinter {
    pub authority: Pubkey,
    pub config: Config,
    pub minter_role: MinterRole,
}

/// The authority withdraws a minter role; the role's account is then closed
/// and its rent returned to the authority.
pub fn revoke_minter(ctx: &RevokeMinter) -> (r: Result<(), InstructionError>)
    ensures
        r is Ok <==> ctx.config.authority == ctx.authority,
        r is Err ==> r == Err::<(), InstructionError>(InstructionError::Constraint(Constraint::HasOne)),
{
    if ctx.config.authority != ctx.authority {
        return Err(InstructionError::Constraint(Constraint::HasOne));
    }
    Ok(())
}

/// The accounts of `update_config`: the role of the current backend signer, if
/// it is handed in, and a fresh role for the new one.
pub struct UpdateConfig {
    pub authority: Pubkey,
    pub config: Config,
    pub new_backend_signer: Pubkey,
    pub old_minter_role: Option<MinterRole>,
    pub new_minter_role: MinterRole,
    pub new_minter_role_bump: u8,
}

/// Why `update_config` refuses, if it does.
pub open spec fn update_config_rejection(ctx: UpdateConfig) -> Option<InstructionError> {
    if ctx.config.authority != ctx.authority {
        Some(InstructionError::Constraint(Constraint::HasOne))
    } else if ctx.old_minter_role matches Some(role) && role.minter != ctx.config.backend_signer {
        Some(InstructionError::Program(ErrorCode::Unauthorized))
    } else {
        None
    }
}

/// The authority hands the backend role to a new key: the old backend's minter
/// role (when given) is deactivated, the configuration names the new key, and
/// the new key gets an active, unlimited minter role.
pub fn update_config(ctx: &mut UpdateConfig) -> (r: Result<(), InstructionError>)
    ensures
        r is Err <==> update_config_rejection(*old(ctx)) is Some,
        r matches Err(e) ==> update_config_rejection(*old(ctx)) == Some(e),
        r is Err ==> *final(ctx) == *old(ctx),
        r is Ok ==> {
            &&& final(ctx).config == (Config {
                backend_signer: old(ctx).new_backend_signer,
                ..old(ctx).config
            })
            &&& final(ctx).old_minter_role is Some == old(ctx).old_minter_role is Some
            &&& (old(ctx).old_minter_role matches Some(role) ==> final(ctx).old_minter_role
                == Some(MinterRole { is_active: false, ..role }))
            &&& final(ctx).new_minter_role.minter == old(ctx).new_backend_signer
            &&& final(ctx).new_minter_role.label@ == backend_label()
            &&& final(ctx).new_minter_role.max_xp_per_call == 0
            &&& final(ctx).new_minter_role.is_active
            &&& final(ctx).new_minter_role.total_xp_minted
                == old(ctx).new_minter_role.total_xp_minted
            &&& final(ctx).new_minter_role.bump == old(ctx).new_minter_role_bump
        },
        final(ctx).authority == old(ctx).authority,
        final(ctx).new_backend_signer == old(ctx).new_backend_signer,
        final(ctx).new_minter_role_bump == old(ctx).new_minter_role_bump,
{
    if ctx.config.authority != ctx.authority {
        return Err(InstructionError::Constraint(Constraint::HasOne));
    }
    let old_backend_signer = ctx.config.backend_signer;
    match &mut ctx.old_minter_role {
        Some(role) => {
            if role.minter != old_backend_signer {
                return Err(InstructionError::Program(ErrorCode::Unauthorized));
            }
            role.is_active = false;
        },
        None => {},
    }
    ctx.config.backend_signer = ctx.new_backend_signer;
    ctx.new_minter_role.minter = ctx.new_backend_signer;
    ctx.new_minter_role.label = backend_label_string();
    ctx.new_minter_role.max_xp_per_call = 0;
    ctx.new_minter_role.is_active = true;
    ctx.new_minter_role.bump = ctx.new_minter_role_bump;
    Ok(())
}

} // verus!
