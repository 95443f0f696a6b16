use vstd::prelude::*;

use solana_sdk::pubkey::Pubkey;

use mpl_token_metadata::instructions::{
    CreateMasterEditionV3, CreateMasterEditionV3InstructionArgs, CreateMetadataAccountV3,
    CreateMetadataAccountV3InstructionArgs,
};
use mpl_token_metadata::types::DataV2;

use vstd::bytes::{spec_u16_to_le_bytes, spec_u64_to_le_bytes};
use vstd::utf8::encode_utf8;

use crate::addr::Address;
use crate::codec::{spec_borsh_bytes, spec_borsh_option_u64};
use crate::instruction::{is_account, AccountRole, Instruction};
use crate::pda::spec_associated_token_address;
use crate::programs::{
    spec_ata_program_id, spec_metadata_program_id, spec_rent_sysvar_id, spec_system_program_id,
    spec_token_program_id,
};

verus! {

/// Payload of the system program's create-account instruction: the variant
/// tag as 4 little-endian bytes, the funding lamports, the account size,
/// and the owning program.
pub open spec fn spec_create_account_data(lamports: u64, space: u64, owner: Seq<u8>) -> Seq<u8> {
    seq![0u8, 0u8, 0u8, 0u8] + spec_u64_to_le_bytes(lamports) + spec_u64_to_le_bytes(space)
        + owner
}

/// Payload of the token program's initialize-mint instruction: tag 0, the
/// decimals, the mint authority, and a present freeze authority.
pub open spec fn spec_initialize_mint_data(
    decimals: u8,
    authority: Seq<u8>,
    freeze_authority: Seq<u8>,
) -> Seq<u8> {
    seq![0u8, decimals] + authority + seq![1u8] + freeze_authority
}

/// Payload of the token program's mint-to instruction: tag 7 and the amount
/// as 8 little-endian bytes.
pub open spec fn spec_mint_to_data(amount: u64) -> Seq<u8> {
    seq![7u8] + spec_u64_to_le_bytes(amount)
}

/// Payload of the associated-token program's create instruction: the single
/// byte of its create variant.
pub open spec fn spec_create_ata_data() -> Seq<u8> {
    seq![0u8]
}

/// Payload of the metadata program's create-metadata instruction: its
/// discriminator, the borsh-encoded {name, symbol, uri, royalty basis
/// points, no creators, no collection, no uses}, the mutability flag, and an
/// absent collection-details option.
pub open spec fn spec_create_metadata_data(
    name: Seq<u8>,
    symbol: Seq<u8>,
    uri: Seq<u8>,
    seller_fee_basis_points: u16,
    is_mutable: bool,
) -> Seq<u8> {
    seq![33u8] + spec_borsh_bytes(name) + spec_borsh_bytes(symbol) + spec_borsh_bytes(uri)
        + spec_u16_to_le_bytes(seller_fee_basis_points) + seq![0u8, 0u8, 0u8] + seq![
        if is_mutable {
            1u8
        } else {
            0u8
        },
    ] + seq![0u8]
}

/// Payload of the metadata program's create-master-edition instruction: its
/// discriminator and the borsh-encoded optional maximum supply.
pub open spec fn spec_create_master_edition_data(max_supply: Option<u64>) -> Seq<u8> {
    seq![17u8] + spec_borsh_option_u64(max_supply)
}


/// Shape of a create-account instruction of the system program.
pub open spec fn spec_create_account_ix(
    ix: Instruction,
    from: Seq<u8>,
    to: Seq<u8>,
    lamports: u64,
    space: u64,
    owner: Seq<u8>,
) -> bool {
    &&& ix.program@ == spec_system_program_id()
    &&& ix.accounts@.len() == 2
    &&& is_account(ix.accounts@[0], from, true, true)
    &&& is_account(ix.accounts@[1], to, true, true)
    &&& ix.data@ == spec_create_account_data(lamports, space, owner)
}

/// Shape of an initialize-mint instruction of the token program.
pub open spec fn spec_initialize_mint_ix(
    ix: Instruction,
    mint: Seq<u8>,
    authority: Seq<u8>,
    freeze_authority: Seq<u8>,
    decimals: u8,
) -> bool {
    &&& ix.program@ == spec_token_program_id()
    &&& ix.accounts@.len() == 2
    &&& is_account(ix.accounts@[0], mint, false, true)
    &&& is_account(ix.accounts@[1], spec_rent_sysvar_id(), false, false)
    &&& ix.data@ == spec_initialize_mint_data(decimals, authority, freeze_authority)
}

/// Shape of a create instruction of the associated-token program.
pub open spec fn spec_create_ata_ix(
    ix: Instruction,
    funding: Seq<u8>,
    wallet: Seq<u8>,
    mint: Seq<u8>,
) -> bool {
    &&& ix.program@ == spec_ata_program_id()
    &&& ix.accounts@.len() == 6
    &&& is_account(ix.accounts@[0], funding, true, true)
    &&& is_account(
        ix.accounts@[1],
        spec_associated_token_address(wallet, mint, spec_token_program_id()),
        false,
        true,
    )
    &&& is_account(ix.accounts@[2], wallet, false, false)
    &&& is_account(ix.accounts@[3], mint, false, false)
    &&& is_account(ix.accounts@[4], spec_system_program_id(), false, false)
    &&& is_account(ix.accounts@[5], spec_token_program_id(), false, false)
    &&& ix.data@ == spec_create_ata_data()
}

/// Shape of a mint-to instruction of the token program.
pub open spec fn spec_mint_to_ix(
    ix: Instruction,
    mint: Seq<u8>,
    destination: Seq<u8>,
    authority: Seq<u8>,
    amount: u64,
) -> bool {
    &&& ix.program@ == spec_token_program_id()
    &&& ix.accounts@.len() == 3
    &&& is_account(ix.accounts@[0], mint, false, true)
    &&& is_account(ix.accounts@[1], destination, false, true)
    &&& is_account(ix.accounts@[2], authority, true, false)
    &&& ix.data@ == spec_mint_to_data(amount)
}

/// Shape of a create-metadata instruction of the metadata program, with one
/// authority standing as mint authority, payer and update authority.
pub open spec fn spec_create_metadata_ix(
    ix: Instruction,
    metadata: Seq<u8>,
    mint: Seq<u8>,
    authority: Seq<u8>,
    name: Seq<char>,
    symbol: Seq<char>,
    uri: Seq<char>,
    seller_fee_basis_points: u16,
    is_mutable: bool,
) -> bool {
    &&& ix.program@ == spec_metadata_program_id()
    &&& ix.accounts@.len() == 7
    &&& is_account(ix.accounts@[0], metadata, false, true)
    &&& is_account(ix.accounts@[1], mint, false, false)
    &&& is_account(ix.accounts@[2], authority, true, false)
    &&& is_account(ix.accounts@[3], authority, true, true)
    &&& is_account(ix.accounts@[4], authority, true, false)
    &&& is_account(ix.accounts@[5], spec_system_program_id(), false, false)
    &&& is_account(ix.accounts@[6], spec_rent_sysvar_id(), false, false)
    &&& ix.data@ == spec_create_metadata_data(
        encode_utf8(name),
        encode_utf8(symbol),
        encode_utf8(uri),
        seller_fee_basis_points,
        is_mutable,
    )
}

/// Shape of a create-master-edition instruction of the metadata program,
/// with one authority standing as update authority, mint authority and
/// payer.
pub open spec fn spec_create_master_edition_ix(
    ix: Instruction,
    edition: Seq<u8>,
    mint: Seq<u8>,
    authority: Seq<u8>,
    metadata: Seq<u8>,
    max_supply: Option<u64>,
) -> bool {
    &&& ix.program@ == spec_metadata_program_id()
    &&& ix.accounts@.len() == 9
    &&& is_account(ix.accounts@[0], edition, false, true)
    &&& is_account(ix.accounts@[1], mint, false, true)
    &&& is_account(ix.accounts@[2], authority, true, false)
    &&& is_account(ix.accounts@[3], authority, true, false)
    &&& is_account(ix.accounts@[4], authority, true, true)
    &&& is_account(ix.accounts@[5], metadata, false, true)
    &&& is_account(ix.accounts@[6], spec_token_program_id(), false, false)
    &&& is_account(ix.accounts@[7], spec_system_program_id(), false, false)
    &&& is_account(ix.accounts@[8], spec_rent_sysvar_id(), false, false)
    &&& ix.data@ == spec_create_master_edition_data(max_supply)
}

/// Relies on solana_sdk's system_instruction::create_account: one
/// instruction of the system program over the funding account and the new
/// account (both writable signers), whose payload is the bincode encoding of
/// its create-account variant.
#[verifier::external_body]
pub fn build_create_account(
    from: &Address,
    to: &Address,
    lamports: u64,
    space: u64,
    owner: &Address,
) -> (r: Instruction)
    requires
        from.wf(),
        to.wf(),
        owner.wf(),
    ensures
        r.wf(),
        spec_create_account_ix(r, from@, to@, lamports, space, owner@),
{
    let k = |a: &Address| Pubkey::try_from(a.bytes.as_slice()).unwrap();
    let ix = solana_sdk::system_instruction::create_account(
        &k(from), &k(to), lamports, space, &k(owner),
    );
    Instruction { program: Address { bytes: ix.program_id.to_bytes().to_vec() },
        accounts: ix.accounts.into_iter().map(|a| AccountRole {
            address: Address { bytes: a.pubkey.to_bytes().to_vec() },
            is_signer: a.is_signer, is_writable: a.is_writable }).collect(),
        data: ix.data }
}

/// Relies on spl_token's instruction::initialize_mint, called for the SPL
/// token program: one instruction over the writable mint and the rent
/// sysvar, whose payload packs tag 0, the decimals, the mint authority and
/// the (present) freeze authority.
#[verifier::external_body]
pub fn build_initialize_mint(
    mint: &Address,
    authority: &Address,
    freeze_authority: &Address,
    decimals: u8,
) -> (r: Instruction)
    requires
        mint.wf(),
        authority.wf(),
        freeze_authority.wf(),
    ensures
        r.wf(),
        spec_initialize_mint_ix(r, mint@, authority@, freeze_authority@, decimals),
{
    let k = |a: &Address| Pubkey::try_from(a.bytes.as_slice()).unwrap();
    let ix = spl_token::instruction::initialize_mint(
        &spl_token::id(), &k(mint), &k(authority), Some(&k(freeze_authority)), decimals,
    ).unwrap();
    Instruction { program: Address { bytes: ix.program_id.to_bytes().to_vec() },
        accounts: ix.accounts.into_iter().map(|a| AccountRole {
            address: Address { bytes: a.pubkey.to_bytes().to_vec() },
            is_signer: a.is_signer, is_writable: a.is_writable }).collect(),
        data: ix.data }
}

/// Relies on spl_associated_token_account's
/// instruction::create_associated_token_account, called for the SPL token
/// program: one instruction of the associated-token program whose second
/// account is the canonical associated account of (wallet, mint). The
/// ledger treats it as idempotent creation for a fresh pair.
#[verifier::external_body]
pub fn build_create_associated_token_account(
    funding: &Address,
    wallet: &Address,
    mint: &Address,
) -> (r: Instruction)
    requires
        funding.wf(),
        wallet.wf(),
        mint.wf(),
    ensures
        r.wf(),
        spec_create_ata_ix(r, funding@, wallet@, mint@),
{
    let k = |a: &Address| Pubkey::try_from(a.bytes.as_slice()).unwrap();
    let ix = spl_associated_token_account::instruction::create_associated_token_account(
        &k(funding), &k(wallet), &k(mint), &spl_token::id(),
    );
    Instruction { program: Address { bytes: ix.program_id.to_bytes().to_vec() },
        accounts: ix.accounts.into_iter().map(|a| AccountRole {
            address: Address { bytes: a.pubkey.to_bytes().to_vec() },
            is_signer: a.is_signer, is_writable: a.is_writable }).collect(),
        data: ix.data }
}

/// Relies on spl_token's instruction::mint_to, called for the SPL token
/// program with no multisig signers: one instruction over the writable mint,
/// the writable destination account, and the signing mint authority, whose
/// payload is tag 7 and the amount.
#[verifier::external_body]
pub fn build_mint_to(
    mint: &Address,
    destination: &Address,
    authority: &Address,
    amount: u64,
) -> (r: Instruction)
    requires
        mint.wf(),
        destination.wf(),
        authority.wf(),
    ensures
        r.wf(),
        spec_mint_to_ix(r, mint@, destination@, authority@, amount),
{
    let k = |a: &Address| Pubkey::try_from(a.bytes.as_slice()).unwrap();
    let ix = spl_token::instruction::mint_to(
        &spl_token::id(), &k(mint), &k(destination), &k(authority), &[], amount,
    ).unwrap();
    Instruction { program: Address { bytes: ix.program_id.to_bytes().to_vec() },
        accounts: ix.accounts.into_iter().map(|a| AccountRole {
            address: Address { bytes: a.pubkey.to_bytes().to_vec() },
            is_signer: a.is_signer, is_writable: a.is_writable }).collect(),
        data: ix.data }
}

/// Relies on mpl_token_metadata's CreateMetadataAccountV3 builder for the
/// instruction payload, which depends only on the arguments given here
/// (creators, collection and uses are passed absent); the accounts handed to
/// the builder do not enter the payload and stand as placeholders.
#[verifier::external_body]
fn metadata_instruction_data(
    name: String,
    symbol: String,
    uri: String,
    seller_fee_basis_points: u16,
    is_mutable: bool,
) -> (r: Vec<u8>)
    requires
        encode_utf8(name@).len() <= u32::MAX,
        encode_utf8(symbol@).len() <= u32::MAX,
        encode_utf8(uri@).len() <= u32::MAX,
    ensures
        r@ == spec_create_metadata_data(
            encode_utf8(name@),
            encode_utf8(symbol@),
            encode_utf8(uri@),
            seller_fee_basis_points,
            is_mutable,
        ),
{
    let ph = Pubkey::new_from_array([0u8; 32]);
    let ix = CreateMetadataAccountV3 {
        metadata: ph, mint: ph, mint_authority: ph, payer: ph,
        update_authority: (ph, true), system_program: ph, rent: Some(ph),
    }.instruction(CreateMetadataAccountV3InstructionArgs {
        data: DataV2 { name, symbol, uri, seller_fee_basis_points,
            creators: None, collection: None, uses: None },
        is_mutable, collection_details: None,
    });
    ix.data
}

/// Assembles the create-metadata instruction of the metadata program: the
/// payload from the metadata crate's own builder, against the account list
/// that the metadata program expects — the writable metadata account, the
/// mint, the service authority as signing mint authority, paying payer and
/// signing update authority, the system program, and the rent sysvar.
pub fn build_create_metadata(
    metadata: &Address,
    mint: &Address,
    authority: &Address,
    name: String,
    symbol: String,
    uri: String,
    seller_fee_basis_points: u16,
    is_mutable: bool,
) -> (r: Instruction)
    requires
        metadata.wf(),
        mint.wf(),
        authority.wf(),
        encode_utf8(name@).len() <= u32::MAX,
        encode_utf8(symbol@).len() <= u32::MAX,
        encode_utf8(uri@).len() <= u32::MAX,
    ensures
        r.wf(),
        spec_create_metadata_ix(
            r,
            metadata@,
            mint@,
            authority@,
            name@,
            symbol@,
            uri@,
            seller_fee_basis_points,
            is_mutable,
        ),
{
    let data = metadata_instruction_data(name, symbol, uri, seller_fee_basis_points, is_mutable);
    let mut accounts: Vec<AccountRole> = Vec::new();
    accounts.push(AccountRole::writable(metadata.clone()));
    accounts.push(AccountRole::readonly(mint.clone()));
    accounts.push(AccountRole::readonly_signer(authority.clone()));
    accounts.push(AccountRole::writable_signer(authority.clone()));
    accounts.push(AccountRole::readonly_signer(authority.clone()));
    accounts.push(AccountRole::readonly(crate::programs::system_program_id()));
    accounts.push(AccountRole::readonly(crate::programs::rent_sysvar_id()));
    Instruction { program: crate::programs::metadata_program_id(), accounts, data }
}

/// Relies on mpl_token_metadata's CreateMasterEditionV3 builder for the
/// instruction payload, which depends only on the optional maximum supply;
/// the accounts handed to the builder do not enter the payload and stand as
/// placeholders.
#[verifier::external_body]
fn master_edition_instruction_data(max_supply: Option<u64>) -> (r: Vec<u8>)
    ensures
        r@ == spec_create_master_edition_data(max_supply),
{
    let ph = Pubkey::new_from_array([0u8; 32]);
    let ix = CreateMasterEditionV3 {
        edition: ph, mint: ph, update_authority: ph, mint_authority: ph,
        payer: ph, metadata: ph, token_program: ph, system_program: ph,
        rent: Some(ph),
    }.instruction(CreateMasterEditionV3InstructionArgs { max_supply });
    ix.data
}

/// Assembles the create-master-edition instruction of the metadata program:
/// the payload from the metadata crate's own builder, against the account
/// list that the metadata program expects — the writable edition and mint,
/// the service authority as signing update authority, signing mint authority
/// and paying payer, the writable metadata account, and the token, system
/// and rent references.
pub fn build_create_master_edition(
    edition: &Address,
    mint: &Address,
    authority: &Address,
    metadata: &Address,
    max_supply: Option<u64>,
) -> (r: Instruction)
    requires
        edition.wf(),
        mint.wf(),
        authority.wf(),
        metadata.wf(),
    ensures
        r.wf(),
        spec_create_master_edition_ix(r, edition@, mint@, authority@, metadata@, max_supply),
{
    let data = master_edition_instruction_data(max_supply);
    let mut accounts: Vec<AccountRole> = Vec::new();
    accounts.push(AccountRole::writable(edition.clone()));
    accounts.push(AccountRole::writable(mint.clone()));
    accounts.push(AccountRole::readonly_signer(authority.clone()));
    accounts.push(AccountRole::readonly_signer(authority.clone()));
    accounts.push(AccountRole::writable_signer(authority.clone()));
    accounts.push(AccountRole::writable(metadata.clone()));
    accounts.push(AccountRole::readonly(crate::programs::token_program_id()));
    accounts.push(AccountRole::readonly(crate::programs::system_program_id()));
    accounts.push(AccountRole::readonly(crate::programs::rent_sysvar_id()));
    Instruction { program: crate::programs::metadata_program_id(), accounts, data }
}

} // verus!
