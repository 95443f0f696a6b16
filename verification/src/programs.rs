use vstd::prelude::*;

use crate::addr::Address;

verus! {

/// The SPL token program id (base58 `TokenkegQfeZyiNwAJbNbGKPFXCWuBvf9Ss623VQ5DA`).
pub open spec fn spec_token_program_id() -> Seq<u8> {
    seq![
        6u8, 221u8, 246u8, 225u8, 215u8, 101u8, 161u8, 147u8, 217u8, 203u8, 225u8, 70u8, 206u8,
        235u8, 121u8, 172u8, 28u8, 180u8, 133u8, 237u8, 95u8, 91u8, 55u8, 145u8, 58u8, 140u8,
        245u8, 133u8, 126u8, 255u8, 0u8, 169u8,
    ]
}

/// The associated-token-account program id
/// (base58 `ATokenGPvbdGVxr1b2hvZbsiqW5xWH25efTNsLJA8knL`).
pub open spec fn spec_ata_program_id() -> Seq<u8> {
    seq![
        140u8, 151u8, 37u8, 143u8, 78u8, 36u8, 137u8, 241u8, 187u8, 61u8, 16u8, 41u8, 20u8, 142u8,
        13u8, 131u8, 11u8, 90u8, 19u8, 153u8, 218u8, 255u8, 16u8, 132u8, 4u8, 142u8, 123u8, 216u8,
        219u8, 233u8, 248u8, 89u8,
    ]
}

/// The system program id (base58 `11111111111111111111111111111111`).
pub open spec fn spec_system_program_id() -> Seq<u8> {
    seq![
        0u8, 0u8, 0u8, 0u8, 0u8, 0u8, 0u8, 0u8, 0u8, 0u8, 0u8, 0u8, 0u8, 0u8, 0u8, 0u8, 0u8, 0u8,
        0u8, 0u8, 0u8, 0u8, 0u8, 0u8, 0u8, 0u8, 0u8, 0u8, 0u8, 0u8, 0u8, 0u8,
    ]
}

/// The rent sysvar id (base58 `SysvarRent111111111111111111111111111111111`).
pub open spec fn spec_rent_sysvar_id() -> Seq<u8> {
    seq![
        6u8, 167u8, 213u8, 23u8, 25u8, 44u8, 92u8, 81u8, 33u8, 140u8, 201u8, 76u8, 61u8, 74u8,
        241u8, 127u8, 88u8, 218u8, 238u8, 8u8, 155u8, 161u8, 253u8, 68u8, 227u8, 219u8, 217u8,
        138u8, 0u8, 0u8, 0u8, 0u8,
    ]
}

/// The token metadata program id
/// (base58 `metaqbxxUerdq28cj1RbAWkYQm3ybzjb6a8bt518x1s`).
pub open spec fn spec_metadata_program_id() -> Seq<u8> {
    seq![
        11u8, 112u8, 101u8, 177u8, 227u8, 209u8, 124u8, 69u8, 56u8, 157u8, 82u8, 127u8, 107u8,
        4u8, 195u8, 205u8, 88u8, 184u8, 108u8, 115u8, 26u8, 160u8, 253u8, 181u8, 73u8, 182u8,
        209u8, 188u8, 3u8, 248u8, 41u8, 70u8,
    ]
}

/// The escrow marketplace program id
/// (base58 `Fg6PaFpoGXkYsidMpWTK6W2BeZ7FEfcYkg476zPFsLnS`).
pub open spec fn spec_escrow_program_id() -> Seq<u8> {
    seq![
        218u8, 7u8, 92u8, 178u8, 255u8, 94u8, 198u8, 129u8, 118u8, 19u8, 222u8, 83u8, 11u8, 105u8,
        42u8, 135u8, 53u8, 71u8, 119u8, 105u8, 218u8, 71u8, 67u8, 12u8, 189u8, 129u8, 84u8, 51u8,
        92u8, 74u8, 131u8, 39u8,
    ]
}

pub fn token_program_id() -> (r: Address)
    ensures
        r.wf(),
        r@ == spec_token_program_id(),
{
    let bytes: Vec<u8> = vec![
        6u8, 221u8, 246u8, 225u8, 215u8, 101u8, 161u8, 147u8, 217u8, 203u8, 225u8, 70u8, 206u8,
        235u8, 121u8, 172u8, 28u8, 180u8, 133u8, 237u8, 95u8, 91u8, 55u8, 145u8, 58u8, 140u8,
        245u8, 133u8, 126u8, 255u8, 0u8, 169u8,
    ];
    assert(bytes@ =~= spec_token_program_id());
    Address { bytes }
}

pub fn ata_program_id() -> (r: Address)
    ensures
        r.wf(),
        r@ == spec_ata_program_id(),
{
    let bytes: Vec<u8> = vec![
        140u8, 151u8, 37u8, 143u8, 78u8, 36u8, 137u8, 241u8, 187u8, 61u8, 16u8, 41u8, 20u8, 142u8,
        13u8, 131u8, 11u8, 90u8, 19u8, 153u8, 218u8, 255u8, 16u8, 132u8, 4u8, 142u8, 123u8, 216u8,
        219u8, 233u8, 248u8, 89u8,
    ];
    assert(bytes@ =~= spec_ata_program_id());
    Address { bytes }
}

pub fn system_program_id() -> (r: Address)
    ensures
        r.wf(),
        r@ == spec_system_program_id(),
{
    let bytes: Vec<u8> = vec![
        0u8, 0u8, 0u8, 0u8, 0u8, 0u8, 0u8, 0u8, 0u8, 0u8, 0u8, 0u8, 0u8, 0u8, 0u8, 0u8, 0u8, 0u8,
        0u8, 0u8, 0u8, 0u8, 0u8, 0u8, 0u8, 0u8, 0u8, 0u8, 0u8, 0u8, 0u8, 0u8,
    ];
    assert(bytes@ =~= spec_system_program_id());
    Address { bytes }
}

pub fn rent_sysvar_id() -> (r: Address)
    ensures
        r.wf(),
        r@ == spec_rent_sysvar_id(),
{
    let bytes: Vec<u8> = vec![
        6u8, 167u8, 213u8, 23u8, 25u8, 44u8, 92u8, 81u8, 33u8, 140u8, 201u8, 76u8, 61u8, 74u8,
        241u8, 127u8, 88u8, 218u8, 238u8, 8u8, 155u8, 161u8, 253u8, 68u8, 227u8, 219u8, 217u8,
        138u8, 0u8, 0u8, 0u8, 0u8,
    ];
    assert(bytes@ =~= spec_rent_sysvar_id());
    Address { bytes }
}

pub fn metadata_program_id() -> (r: Address)
    ensures
        r.wf(),
        r@ == spec_metadata_program_id(),
{
    let bytes: Vec<u8> = vec![
        11u8, 112u8, 101u8, 177u8, 227u8, 209u8, 124u8, 69u8, 56u8, 157u8, 82u8, 127u8, 107u8,
        4u8, 195u8, 205u8, 88u8, 184u8, 108u8, 115u8, 26u8, 160u8, 253u8, 181u8, 73u8, 182u8,
        209u8, 188u8, 3u8, 248u8, 41u8, 70u8,
    ];
    assert(bytes@ =~= spec_metadata_program_id());
    Address { bytes }
}

pub fn escrow_program_id() -> (r: Address)
    ensures
        r.wf(),
        r@ == spec_escrow_program_id(),
{
    let bytes: Vec<u8> = vec![
        218u8, 7u8, 92u8, 178u8, 255u8, 94u8, 198u8, 129u8, 118u8, 19u8, 222u8, 83u8, 11u8, 105u8,
        42u8, 135u8, 53u8, 71u8, 119u8, 105u8, 218u8, 71u8, 67u8, 12u8, 189u8, 129u8, 84u8, 51u8,
        92u8, 74u8, 131u8, 39u8,
    ];
    assert(bytes@ =~= spec_escrow_program_id());
    Address { bytes }
}

/// The seed literal `"listing"` for deriving a listing address.
pub open spec fn spec_listing_seed() -> Seq<u8> {
    seq![108u8, 105u8, 115u8, 116u8, 105u8, 110u8, 103u8]
}

/// The seed literal `"metadata"` for deriving metadata addresses.
pub open spec fn spec_metadata_seed() -> Seq<u8> {
    seq![109u8, 101u8, 116u8, 97u8, 100u8, 97u8, 116u8, 97u8]
}

/// The seed literal `"edition"` for deriving a master edition address.
pub open spec fn spec_edition_seed() -> Seq<u8> {
    seq![101u8, 100u8, 105u8, 116u8, 105u8, 111u8, 110u8]
}

pub fn listing_seed() -> (r: Vec<u8>)
    ensures
        r@ == spec_listing_seed(),
{
    let bytes: Vec<u8> = vec![108u8, 105u8, 115u8, 116u8, 105u8, 110u8, 103u8];
    assert(bytes@ =~= spec_listing_seed());
    bytes
}

pub fn metadata_seed() -> (r: Vec<u8>)
    ensures
        r@ == spec_metadata_seed(),
{
    let bytes: Vec<u8> = vec![109u8, 101u8, 116u8, 97u8, 100u8, 97u8, 116u8, 97u8];
    assert(bytes@ =~= spec_metadata_seed());
    bytes
}

pub fn edition_seed() -> (r: Vec<u8>)
    ensures
        r@ == spec_edition_seed(),
{
    let bytes: Vec<u8> = vec![101u8, 100u8, 105u8, 116u8, 105u8, 111u8, 110u8];
    assert(bytes@ =~= spec_edition_seed());
    bytes
}

} // verus!
