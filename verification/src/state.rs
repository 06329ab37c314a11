//! The configuration record of a mint and its layout in the record's
//! account.

use crate::error::{ProgramError, TokenAclError};
use crate::pubkey::Pubkey;
use vstd::prelude::*;

verus! {

/// First seed of the address of a mint's configuration record:
/// `MINT_CONFIG`. The second seed is the mint's address.
pub const MINT_CONFIG_SEED_PREFIX: [u8; 11] = [77, 73, 78, 84, 95, 67, 79, 78, 70, 73, 71];

/// First seed of the address of a token account's flag account:
/// `FLAG_ACCOUNT`. The second seed is the token account's address.
pub const FLAG_ACCOUNT_SEED_PREFIX: [u8; 12] = [70, 76, 65, 71, 95, 65, 67, 67, 79, 85, 78, 84];

/// A boolean as one byte of a record: 0 is false, every other byte is true.
#[derive(Clone, Copy, Debug, PartialEq, Eq, Structural)]
pub struct PodBool(pub u8);

/// Calls `PodBool::from_bool` of spl-pod, which gives the byte 1 for true
/// and the byte 0 for false.
#[verifier::external_body]
fn pod_bool_byte(value: bool) -> (r: u8)
    ensures
        r == (if value { 1u8 } else { 0u8 }),
{
    spl_pod::primitives::PodBool::from_bool(value).0
}

/// Calls the conversion of spl-pod from `PodBool` to `bool`, which is true
/// for every byte but 0.
#[verifier::external_body]
fn pod_bool_value(byte: u8) -> (r: bool)
    ensures
        r == (byte != 0),
{
    bool::from(spl_pod::primitives::PodBool(byte))
}

impl PodBool {
    /// What the byte means.
    pub open spec fn spec_value(self) -> bool {
        self.0 != 0
    }

    /// The byte for a boolean: 1 for true, 0 for false.
    pub fn from_bool(value: bool) -> (r: PodBool)
        ensures
            r.0 == (if value { 1u8 } else { 0u8 }),
            r.spec_value() == value,
    {
        PodBool(pod_bool_byte(value))
    }

    /// What the byte means.
    pub fn value(&self) -> (r: bool)
        ensures
            r == self.spec_value(),
    {
        pod_bool_value(self.0)
    }
}

/// The configuration record of one mint.
#[derive(Clone, Copy, Debug, PartialEq, Eq)]
pub struct MintConfig {
    /// Tells an initialized record from other memory.
    pub discriminator: u8,
    /// The mint that the record governs.
    pub mint: Pubkey,
    /// Who may change the record, and freeze and thaw directly.
    pub freeze_authority: Pubkey,
    /// The program that decides on permissionless calls; the default address
    /// where none is configured.
    pub gating_program: Pubkey,
    /// The bump seed of the record's address.
    pub bump: u8,
    pub enable_permissionless_thaw: PodBool,
    pub enable_permissionless_freeze: PodBool,
}

impl MintConfig {
    /// The discriminator of an initialized record.
    pub const DISCRIMINATOR: u8 = 1;

    /// The size of a record in bytes.
    pub const LEN: usize = 100;

    /// The record as it lies in its account: the discriminator, the mint,
    /// the authority, the gating program, the bump seed, the thaw flag and
    /// the freeze flag, with nothing between them.
    pub open spec fn spec_pack(self) -> Seq<u8> {
        seq![self.discriminator] + self.mint.bytes() + self.freeze_authority.bytes()
            + self.gating_program.bytes() + seq![
            self.bump,
            self.enable_permissionless_thaw.0,
            self.enable_permissionless_freeze.0,
        ]
    }

    /// Whether the record is an initialized one.
    pub open spec fn spec_is_initialized(self) -> bool {
        self.discriminator == 1
    }

    pub open spec fn spec_is_permissionless_thaw_enabled(self) -> bool {
        self.enable_permissionless_thaw.spec_value()
    }

    pub open spec fn spec_is_permissionless_freeze_enabled(self) -> bool {
        self.enable_permissionless_freeze.spec_value()
    }

    /// Whether anybody may thaw, once the gating program allows it.
    pub fn is_permissionless_thaw_enabled(&self) -> (r: bool)
        ensures
            r == self.spec_is_permissionless_thaw_enabled(),
    {
        self.enable_permissionless_thaw.value()
    }

    /// Whether anybody may freeze, once the gating program allows it.
    pub fn is_permissionless_freeze_enabled(&self) -> (r: bool)
        ensures
            r == self.spec_is_permissionless_freeze_enabled(),
    {
        self.enable_permissionless_freeze.value()
    }

    /// The record of a mint at its creation: both flags off.
    pub open spec fn spec_new(mint: Pubkey, authority: Pubkey, gating_program: Pubkey, bump: u8) -> MintConfig {
        MintConfig {
            discriminator: 1,
            mint,
            freeze_authority: authority,
            gating_program,
            bump,
            enable_permissionless_thaw: PodBool(0),
            enable_permissionless_freeze: PodBool(0),
        }
    }

    /// The record of a mint at its creation: both flags off.
    pub fn new(mint: Pubkey, authority: Pubkey, gating_program: Pubkey, bump: u8) -> (r: MintConfig)
        ensures
            r == MintConfig::spec_new(mint, authority, gating_program, bump),
    {
        MintConfig {
            discriminator: MintConfig::DISCRIMINATOR,
            mint,
            freeze_authority: authority,
            gating_program,
            bump,
            enable_permissionless_thaw: PodBool::from_bool(false),
            enable_permissionless_freeze: PodBool::from_bool(false),
        }
    }

    /// A record takes 100 bytes.
    pub proof fn lemma_pack_len(self)
        ensures
            self.spec_pack().len() == 100,
            self.spec_pack()[0] == self.discriminator,
            self.spec_pack().subrange(1, 33) == self.mint.bytes(),
            self.spec_pack().subrange(33, 65) == self.freeze_authority.bytes(),
            self.spec_pack().subrange(65, 97) == self.gating_program.bytes(),
            self.spec_pack()[97] == self.bump,
            self.spec_pack()[98] == self.enable_permissionless_thaw.0,
            self.spec_pack()[99] == self.enable_permissionless_freeze.0,
    {
        Pubkey::lemma_same_bytes(self.mint, self.mint);
        Pubkey::lemma_same_bytes(self.freeze_authority, self.freeze_authority);
        Pubkey::lemma_same_bytes(self.gating_program, self.gating_program);
        assert(self.spec_pack().subrange(1, 33) =~= self.mint.bytes());
        assert(self.spec_pack().subrange(33, 65) =~= self.freeze_authority.bytes());
        assert(self.spec_pack().subrange(65, 97) =~= self.gating_program.bytes());
    }

    /// Two records that lie in their accounts as the same bytes are the same
    /// record.
    pub proof fn lemma_pack_injective(a: MintConfig, b: MintConfig)
        requires
            a.spec_pack() == b.spec_pack(),
        ensures
            a == b,
    {
        a.lemma_pack_len();
        b.lemma_pack_len();
        Pubkey::lemma_same_bytes(a.mint, b.mint);
        Pubkey::lemma_same_bytes(a.freeze_authority, b.freeze_authority);
        Pubkey::lemma_same_bytes(a.gating_program, b.gating_program);
    }

    /// The record as it lies in its account.
    pub fn pack(&self) -> (r: Vec<u8>)
        ensures
            r@ == self.spec_pack(),
            r@.len() == 100,
    {
        let mut out: Vec<u8> = Vec::with_capacity(MintConfig::LEN);
        out.push(self.discriminator);
        out.extend_from_slice(self.mint.0.as_slice());
        out.extend_from_slice(self.freeze_authority.0.as_slice());
        out.extend_from_slice(self.gating_program.0.as_slice());
        out.push(self.bump);
        out.push(self.enable_permissionless_thaw.0);
        out.push(self.enable_permissionless_freeze.0);
        proof {
            self.lemma_pack_len();
            assert(out@ =~= self.spec_pack());
        }
        out
    }

    /// Writes the record over what `data` held.
    pub fn store(&self, data: &mut Vec<u8>)
        ensures
            final(data)@ == self.spec_pack(),
    {
        *data = self.pack();
    }
}

/// The record whose fields lie at their places in `data`.
pub open spec fn spec_unpack(data: Seq<u8>) -> MintConfig {
    MintConfig {
        discriminator: data[0],
        mint: Pubkey::spec_from_bytes(data.subrange(1, 33)),
        freeze_authority: Pubkey::spec_from_bytes(data.subrange(33, 65)),
        gating_program: Pubkey::spec_from_bytes(data.subrange(65, 97)),
        bump: data[97],
        enable_permissionless_thaw: PodBool(data[98]),
        enable_permissionless_freeze: PodBool(data[99]),
    }
}

/// The record that `data` holds, if `data` is an initialized record: exactly
/// one record long, and beginning with the discriminator of an initialized
/// record. Everything else is an invalid record.
pub open spec fn spec_load_mint_config(data: Seq<u8>) -> Result<MintConfig, ProgramError> {
    if data.len() == 100 && data[0] == 1 {
        Ok(spec_unpack(data))
    } else {
        Err(TokenAclError::InvalidMintConfig.spec_program_error())
    }
}

/// The record that is read from 100 bytes lies in its account as these
/// bytes.
pub proof fn lemma_pack_after_unpack(data: Seq<u8>)
    requires
        data.len() == 100,
    ensures
        spec_unpack(data).spec_pack() == data,
{
    Pubkey::lemma_from_bytes(data.subrange(1, 33));
    Pubkey::lemma_from_bytes(data.subrange(33, 65));
    Pubkey::lemma_from_bytes(data.subrange(65, 97));
    assert(spec_unpack(data).spec_pack() =~= data);
}

/// Reads a record.
///
/// The data must be exactly one record long and begin with the discriminator
/// of an initialized record. Everything else is `InvalidMintConfig`.
pub fn load_mint_config(data: &[u8]) -> (r: Result<MintConfig, ProgramError>)
    ensures
        r == spec_load_mint_config(data@),
        r is Ok <==> data@.len() == 100 && data@[0] == 1,
        r matches Ok(config) ==> config.spec_pack() == data@ && config.spec_is_initialized(),
{
    if data.len() != MintConfig::LEN {
        return Err(ProgramError::Custom(TokenAclError::InvalidMintConfig.code()));
    }
    if data[0] != MintConfig::DISCRIMINATOR {
        return Err(ProgramError::Custom(TokenAclError::InvalidMintConfig.code()));
    }
    let mint = Pubkey::try_from_slice(vstd::slice::slice_subrange(data, 1, 33)).unwrap();
    let freeze_authority = Pubkey::try_from_slice(vstd::slice::slice_subrange(data, 33, 65)).unwrap();
    let gating_program = Pubkey::try_from_slice(vstd::slice::slice_subrange(data, 65, 97)).unwrap();
    let config = MintConfig {
        discriminator: data[0],
        mint,
        freeze_authority,
        gating_program,
        bump: data[97],
        enable_permissionless_thaw: PodBool(data[98]),
        enable_permissionless_freeze: PodBool(data[99]),
    };
    proof {
        config.lemma_pack_len();
        assert(config.spec_pack() =~= data@);
        lemma_pack_after_unpack(data@);
        MintConfig::lemma_pack_injective(spec_unpack(data@), config);
    }
    Ok(config)
}

/// Reads a record that is about to be changed. It accepts what
/// `load_mint_config` accepts; `MintConfig::store` writes the changed record
/// back.
pub fn load_mint_config_mut(data: &Vec<u8>) -> (r: Result<MintConfig, ProgramError>)
    ensures
        r == spec_load_mint_config(data@),
        r is Ok <==> data@.len() == 100 && data@[0] == 1,
        r matches Ok(config) ==> config.spec_pack() == data@ && config.spec_is_initialized(),
{
    load_mint_config(data.as_slice())
}

/// A record that was written is read back as it was.
pub proof fn lemma_load_after_pack(config: MintConfig)
    requires
        config.spec_is_initialized(),
    ensures
        spec_load_mint_config(config.spec_pack()) == Ok::<MintConfig, ProgramError>(config),
{
    config.lemma_pack_len();
    lemma_pack_after_unpack(config.spec_pack());
    MintConfig::lemma_pack_injective(spec_unpack(config.spec_pack()), config);
}

} // verus!
