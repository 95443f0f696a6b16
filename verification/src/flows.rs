use vstd::prelude::*;

use vstd::bytes::spec_u64_to_le_bytes;
use vstd::utf8::encode_utf8;

use crate::addr::{
    parse_address, parse_signature_bytes, spec_base58_decode, spec_base58_encode, Address,
};
use crate::builders::{
    build_create_account, build_create_associated_token_account, build_create_master_edition,
    build_create_metadata, build_initialize_mint, build_mint_to, spec_create_account_ix,
    spec_create_ata_ix, spec_create_master_edition_ix, spec_create_metadata_ix,
    spec_initialize_mint_ix, spec_mint_to_ix,
};
use crate::codec::{encode_price, push_all};
use crate::errors::MarketError;
use crate::instruction::{is_account, AccountRole, Instruction};
use crate::listing::{
    decode_listing, spec_listing_active, spec_listing_mint, spec_listing_price,
    spec_listing_seller, Listing, LISTING_ACCOUNT_LEN,
};
use crate::pda::{
    associated_token_address, derive_listing_address, derive_master_edition_address,
    derive_metadata_address, spec_associated_token_address, spec_edition_seeds,
    spec_find_program_address, spec_listing_seeds, spec_metadata_seeds,
};
use crate::programs::{
    escrow_program_id, spec_ata_program_id, spec_escrow_program_id, spec_metadata_program_id,
    spec_rent_sysvar_id, spec_system_program_id, spec_token_program_id,
};
use crate::requests::{
    BuyNftRequest, FeeBreakdown, GenerateAndMintNftRequest, ListNftRequest, MintNftRequest,
    MintNftResponse,
};
use crate::sigverify::{spec_ed25519_verify, verify_signature};

verus! {

/// Size in bytes of a mint account, per the token program's state layout.
pub const MINT_ACCOUNT_SPACE: u64 = 82;

/// The token is non-fungible: zero decimals, and exactly one unit minted.
pub const NFT_DECIMALS: u8 = 0;

/// Whether the textual inputs of a mint request are acceptable: name and
/// symbol non-empty and within 32 and 10 bytes, content locator non-empty
/// (and small enough for the wire format's 4-byte length).
pub open spec fn spec_mint_inputs_ok(name: Seq<char>, symbol: Seq<char>, uri: Seq<char>) -> bool {
    &&& 1 <= encode_utf8(name).len() <= 32
    &&& 1 <= encode_utf8(symbol).len() <= 10
    &&& 1 <= encode_utf8(uri).len() <= u32::MAX
}

/// Validates the textual inputs of a mint request.
pub fn check_mint_inputs(name: &String, symbol: &String, uri: &String) -> (r: Result<
    (),
    MarketError,
>)
    ensures
        r is Ok <==> spec_mint_inputs_ok(name@, symbol@, uri@),
        r matches Err(e) ==> e == MarketError::InvalidInput,
{
    let name_len = name.as_str().as_bytes().len();
    let symbol_len = symbol.as_str().as_bytes().len();
    let uri_len = uri.as_str().as_bytes().len();
    if name_len < 1 || name_len > 32 {
        return Err(MarketError::InvalidInput);
    }
    if symbol_len < 1 || symbol_len > 10 {
        return Err(MarketError::InvalidInput);
    }
    if uri_len < 1 || uri_len > u32::MAX as usize {
        return Err(MarketError::InvalidInput);
    }
    Ok(())
}

/// Whether a wire-form authorization is acceptable for the holder of `pk`:
/// either verification is explicitly disabled by the test-mode flag, or the
/// signature decodes to the required 64 bytes and verifies over the
/// message's UTF-8 bytes.
pub open spec fn spec_authorized(
    pk: Seq<u8>,
    message: Seq<char>,
    signature: Seq<char>,
    skip_verification: bool,
) -> bool {
    ||| skip_verification
    ||| match spec_base58_decode(signature) {
        Some(sig) => sig.len() == 64 && spec_ed25519_verify(pk, encode_utf8(message), sig),
        None => false,
    }
}

/// Checks that the claimed creator authorized the request. Verification is
/// bypassed only by the explicit `skip_verification` flag (an
/// environment-gated test mode), never keyed off the claimed identity
/// itself.
pub fn authorize(
    creator: &Address,
    message: &String,
    signature: &String,
    skip_verification: bool,
) -> (r: Result<(), MarketError>)
    requires
        creator.wf(),
    ensures
        r is Ok <==> spec_authorized(creator@, message@, signature@, skip_verification),
        r matches Err(e) ==> e == MarketError::SignatureInvalid,
{
    if skip_verification {
        return Ok(());
    }
    let sig = match parse_signature_bytes(signature.as_str()) {
        Ok(s) => s,
        Err(_) => {
            return Err(MarketError::SignatureInvalid);
        },
    };
    if verify_signature(message.as_str().as_bytes(), sig.as_slice(), creator) {
        Ok(())
    } else {
        Err(MarketError::SignatureInvalid)
    }
}

/// Everything the mint flow derives and assembles: the mint and its
/// associated, metadata and master edition addresses, and the six
/// instructions of the single atomic transaction.
#[derive(Debug)]
pub struct MintPlan {
    pub mint: Address,
    pub token_account: Address,
    pub metadata: Address,
    pub metadata_bump: u8,
    pub master_edition: Address,
    pub edition_bump: u8,
    pub instructions: Vec<Instruction>,
}

impl MintPlan {
    pub open spec fn wf(&self) -> bool {
        &&& self.mint.wf()
        &&& self.token_account.wf()
        &&& self.metadata.wf()
        &&& self.master_edition.wf()
        &&& forall|i: int|
            0 <= i < self.instructions@.len() ==> (#[trigger] self.instructions@[i]).wf()
    }
}

/// The exact content of a correct mint plan: the derived addresses match
/// their seed derivations, and the six instructions are, in order, create
/// mint account (rent-funded, sized to the mint layout), initialize mint
/// (zero decimals, service authority), create the creator's associated
/// token account, mint exactly one unit to it, create metadata (no
/// royalties, mutable), and create the master edition with zero maximum
/// supply.
pub open spec fn spec_mint_plan_ok(
    p: MintPlan,
    payer: Seq<u8>,
    creator: Seq<u8>,
    mint: Seq<u8>,
    mint_rent: u64,
    name: Seq<char>,
    symbol: Seq<char>,
    uri: Seq<char>,
) -> bool {
    &&& p.mint@ == mint
    &&& p.token_account@ == spec_associated_token_address(
        creator,
        mint,
        spec_token_program_id(),
    )
    &&& spec_find_program_address(spec_metadata_seeds(mint), spec_metadata_program_id())
        == Some((p.metadata@, p.metadata_bump))
    &&& spec_find_program_address(spec_edition_seeds(mint), spec_metadata_program_id())
        == Some((p.master_edition@, p.edition_bump))
    &&& p.instructions@.len() == 6
    &&& spec_create_account_ix(
        p.instructions@[0],
        payer,
        mint,
        mint_rent,
        MINT_ACCOUNT_SPACE,
        spec_token_program_id(),
    )
    &&& spec_initialize_mint_ix(p.instructions@[1], mint, payer, payer, NFT_DECIMALS)
    &&& spec_create_ata_ix(p.instructions@[2], payer, creator, mint)
    &&& spec_mint_to_ix(p.instructions@[3], mint, p.token_account@, payer, 1)
    &&& spec_create_metadata_ix(
        p.instructions@[4],
        p.metadata@,
        mint,
        payer,
        name,
        symbol,
        uri,
        0,
        true,
    )
    &&& spec_create_master_edition_ix(
        p.instructions@[5],
        p.master_edition@,
        mint,
        payer,
        p.metadata@,
        Some(0),
    )
}

/// Assembles the six-instruction mint transaction for a fresh mint whose
/// public key the caller generated, funded at the rent-exemption minimum the
/// caller queried from the ledger.
pub fn plan_mint(
    payer: &Address,
    creator: &Address,
    mint: &Address,
    mint_rent: u64,
    name: &String,
    symbol: &String,
    uri: &String,
) -> (r: Result<MintPlan, MarketError>)
    requires
        payer.wf(),
        creator.wf(),
        mint.wf(),
    ensures
        match r {
            Ok(p) => {
                &&& spec_mint_inputs_ok(name@, symbol@, uri@)
                &&& p.wf()
                &&& spec_mint_plan_ok(p, payer@, creator@, mint@, mint_rent, name@, symbol@, uri@)
            },
            Err(e) => {
                &&& (e == MarketError::InvalidInput || e == MarketError::DerivationFailure)
                &&& (e == MarketError::InvalidInput <==> !spec_mint_inputs_ok(
                    name@,
                    symbol@,
                    uri@,
                ))
                &&& (e == MarketError::DerivationFailure <==> spec_mint_inputs_ok(
                    name@,
                    symbol@,
                    uri@,
                ) && (spec_find_program_address(
                    spec_metadata_seeds(mint@),
                    spec_metadata_program_id(),
                ) is None || spec_find_program_address(
                    spec_edition_seeds(mint@),
                    spec_metadata_program_id(),
                ) is None))
            },
        },
{
    check_mint_inputs(name, symbol, uri)?;
    let (metadata, metadata_bump) = match derive_metadata_address(mint) {
        Ok(p) => p,
        Err(e) => {
            return Err(e);
        },
    };
    let (master_edition, edition_bump) = match derive_master_edition_address(mint) {
        Ok(p) => p,
        Err(e) => {
            return Err(e);
        },
    };
    let token_account = associated_token_address(creator, mint);

    let mut instructions: Vec<Instruction> = Vec::new();
    instructions.push(
        build_create_account(payer, mint, mint_rent, MINT_ACCOUNT_SPACE, &token_program_owner()),
    );
    instructions.push(build_initialize_mint(mint, payer, payer, NFT_DECIMALS));
    instructions.push(build_create_associated_token_account(payer, creator, mint));
    instructions.push(build_mint_to(mint, &token_account, payer, 1));
    instructions.push(
        build_create_metadata(
            &metadata,
            mint,
            payer,
            name.clone(),
            symbol.clone(),
            uri.clone(),
            0,
            true,
        ),
    );
    instructions.push(
        build_create_master_edition(&master_edition, mint, payer, &metadata, Some(0)),
    );

    Ok(MintPlan {
        mint: mint.clone(),
        token_account,
        metadata,
        metadata_bump,
        master_edition,
        edition_bump,
        instructions,
    })
}

/// The token program, as the owner of a fresh mint account.
fn token_program_owner() -> (r: Address)
    ensures
        r.wf(),
        r@ == spec_token_program_id(),
{
    crate::programs::token_program_id()
}

/// What the creator's public key string yields: the 32 decoded bytes, or
/// nothing when it is not base58 or not an address.
pub open spec fn spec_parsed_address(s: Seq<char>) -> Option<Seq<u8>> {
    match spec_base58_decode(s) {
        Some(b) => if b.len() == 32 {
            Some(b)
        } else {
            None
        },
        None => None,
    }
}

/// The mint orchestrator's decision core: validates the request's inputs,
/// parses the claimed creator, checks the creator's authorization, and
/// assembles the six-instruction transaction. The caller supplies what only
/// the outside world can: the fresh mint public key, the rent-exemption
/// minimum, and the explicit test-mode flag.
pub fn plan_mint_request(
    req: &MintNftRequest,
    payer: &Address,
    mint: &Address,
    mint_rent: u64,
    skip_verification: bool,
) -> (r: Result<MintPlan, MarketError>)
    requires
        payer.wf(),
        mint.wf(),
    ensures
        match r {
            Ok(p) => {
                &&& spec_mint_inputs_ok(req.name@, req.symbol@, req.uri@)
                &&& spec_parsed_address(req.creator_pubkey@) matches Some(creator)
                    && spec_authorized(creator, req.message@, req.signature@, skip_verification)
                    && spec_mint_plan_ok(
                    p,
                    payer@,
                    creator,
                    mint@,
                    mint_rent,
                    req.name@,
                    req.symbol@,
                    req.uri@,
                )
                &&& p.wf()
            },
            Err(e) => {
                &&& (e == MarketError::InvalidInput || e == MarketError::SignatureInvalid
                    || e == MarketError::DerivationFailure)
                &&& (e == MarketError::InvalidInput <==> (!spec_mint_inputs_ok(
                    req.name@,
                    req.symbol@,
                    req.uri@,
                ) || spec_parsed_address(req.creator_pubkey@) is None))
                &&& (e == MarketError::SignatureInvalid <==> (spec_mint_inputs_ok(
                    req.name@,
                    req.symbol@,
                    req.uri@,
                ) && (spec_parsed_address(req.creator_pubkey@) matches Some(creator)
                    && !spec_authorized(
                    creator,
                    req.message@,
                    req.signature@,
                    skip_verification,
                ))))
                &&& (e == MarketError::DerivationFailure ==> (spec_find_program_address(
                    spec_metadata_seeds(mint@),
                    spec_metadata_program_id(),
                ) is None || spec_find_program_address(
                    spec_edition_seeds(mint@),
                    spec_metadata_program_id(),
                ) is None))
            },
        },
{
    check_mint_inputs(&req.name, &req.symbol, &req.uri)?;
    let creator = match parse_address(req.creator_pubkey.as_str()) {
        Ok(a) => a,
        Err(_) => {
            return Err(MarketError::InvalidInput);
        },
    };
    match authorize(&creator, &req.message, &req.signature, skip_verification) {
        Ok(_) => (),
        Err(e) => {
            return Err(e);
        },
    }
    plan_mint(payer, &creator, mint, mint_rent, &req.name, &req.symbol, &req.uri)
}

/// Turns a generate-and-mint request into the mint request it implies once
/// the image provider has delivered: the same fields, with the delivered
/// content locator standing as the token's locator.
pub fn mint_request_from_generated(
    req: &GenerateAndMintNftRequest,
    image_url: String,
) -> (r: MintNftRequest)
    ensures
        r.name@ == req.name@,
        r.symbol@ == req.symbol@,
        r.uri@ == image_url@,
        r.creator_pubkey@ == req.creator_pubkey@,
        r.signature@ == req.signature@,
        r.message@ == req.message@,
{
    MintNftRequest {
        name: req.name.clone(),
        symbol: req.symbol.clone(),
        uri: image_url,
        creator_pubkey: req.creator_pubkey.clone(),
        signature: req.signature.clone(),
        message: req.message.clone(),
    }
}

/// Renders the mint flow's success payload: the mint address in its base58
/// wire form beside the confirmed transaction signature text.
pub fn mint_response(mint: &Address, transaction_signature: String) -> (r: MintNftResponse)
    ensures
        r.nft_address@ == spec_base58_encode(mint@),
        r.transaction_signature@ == transaction_signature@,
{
    MintNftResponse { nft_address: mint.to_base58(), transaction_signature }
}

/// Totals the lamport costs of a mint: the rent-exemption funding of the
/// mint account plus the network's transaction fee.
pub fn fee_breakdown(mint_rent: u64, transaction_fee: u64) -> (r: FeeBreakdown)
    requires
        mint_rent + transaction_fee <= u64::MAX,
    ensures
        r.mint_rent == mint_rent,
        r.transaction_fee == transaction_fee,
        r.total == mint_rent + transaction_fee,
{
    FeeBreakdown { mint_rent, transaction_fee, total: mint_rent + transaction_fee }
}

/// Shape of the escrow program's list instruction: opcode 1 with the price
/// as 8 little-endian bytes, against its nine accounts in fixed order.
pub open spec fn spec_list_instruction_ok(
    ix: Instruction,
    listing: Seq<u8>,
    mint: Seq<u8>,
    seller_token: Seq<u8>,
    escrow_token: Seq<u8>,
    seller: Seq<u8>,
    price: u64,
) -> bool {
    &&& ix.program@ == spec_escrow_program_id()
    &&& ix.data@ == seq![1u8] + spec_u64_to_le_bytes(price)
    &&& ix.accounts@.len() == 9
    &&& is_account(ix.accounts@[0], listing, false, true)
    &&& is_account(ix.accounts@[1], mint, false, false)
    &&& is_account(ix.accounts@[2], seller_token, false, true)
    &&& is_account(ix.accounts@[3], escrow_token, false, true)
    &&& is_account(ix.accounts@[4], seller, true, true)
    &&& is_account(ix.accounts@[5], spec_token_program_id(), false, false)
    &&& is_account(ix.accounts@[6], spec_ata_program_id(), false, false)
    &&& is_account(ix.accounts@[7], spec_system_program_id(), false, false)
    &&& is_account(ix.accounts@[8], spec_rent_sysvar_id(), false, false)
}

/// Everything the list flow derives and assembles.
#[derive(Debug)]
pub struct ListPlan {
    pub listing: Address,
    pub bump: u8,
    pub seller_token: Address,
    pub escrow_token: Address,
    pub instruction: Instruction,
}

impl ListPlan {
    pub open spec fn wf(&self) -> bool {
        &&& self.listing.wf()
        &&& self.seller_token.wf()
        &&& self.escrow_token.wf()
        &&& self.instruction.wf()
    }
}

/// The exact content of a correct list plan: the listing address derived
/// from `["listing", mint]` under the escrow program, the seller's and the
/// escrow's associated token accounts, and the single list instruction.
pub open spec fn spec_list_plan_ok(p: ListPlan, mint: Seq<u8>, seller: Seq<u8>, price: u64) -> bool {
    &&& spec_find_program_address(spec_listing_seeds(mint), spec_escrow_program_id()) == Some(
        (p.listing@, p.bump),
    )
    &&& p.seller_token@ == spec_associated_token_address(seller, mint, spec_token_program_id())
    &&& p.escrow_token@ == spec_associated_token_address(
        p.listing@,
        mint,
        spec_token_program_id(),
    )
    &&& spec_list_instruction_ok(
        p.instruction,
        p.listing@,
        mint,
        p.seller_token@,
        p.escrow_token@,
        seller,
        price,
    )
}

/// Assembles the list transaction: derives the listing and escrow
/// addresses for the mint and builds the escrow program's list instruction.
pub fn plan_list(mint: &Address, seller: &Address, price: u64) -> (r: Result<
    ListPlan,
    MarketError,
>)
    requires
        mint.wf(),
        seller.wf(),
    ensures
        match r {
            Ok(p) => {
                &&& p.wf()
                &&& spec_list_plan_ok(p, mint@, seller@, price)
            },
            Err(e) => {
                &&& e == MarketError::DerivationFailure
                &&& spec_find_program_address(
                    spec_listing_seeds(mint@),
                    spec_escrow_program_id(),
                ) is None
            },
        },
{
    let program = escrow_program_id();
    let (listing, bump) = match derive_listing_address(mint, &program) {
        Ok(p) => p,
        Err(e) => {
            return Err(e);
        },
    };
    let seller_token = associated_token_address(seller, mint);
    let escrow_token = associated_token_address(&listing, mint);

    let mut data: Vec<u8> = Vec::new();
    data.push(1u8);
    let price_bytes = encode_price(price);
    push_all(&mut data, price_bytes.as_slice());
    assert(data@ =~= seq![1u8] + spec_u64_to_le_bytes(price));

    let mut accounts: Vec<AccountRole> = Vec::new();
    accounts.push(AccountRole::writable(listing.clone()));
    accounts.push(AccountRole::readonly(mint.clone()));
    accounts.push(AccountRole::writable(seller_token.clone()));
    accounts.push(AccountRole::writable(escrow_token.clone()));
    accounts.push(AccountRole::writable_signer(seller.clone()));
    accounts.push(AccountRole::readonly(crate::programs::token_program_id()));
    accounts.push(AccountRole::readonly(crate::programs::ata_program_id()));
    accounts.push(AccountRole::readonly(crate::programs::system_program_id()));
    accounts.push(AccountRole::readonly(crate::programs::rent_sysvar_id()));

    let instruction = Instruction { program, accounts, data };
    Ok(ListPlan { listing, bump, seller_token, escrow_token, instruction })
}

/// The list orchestrator's decision core: parses the request's addresses
/// and assembles the list transaction.
pub fn plan_list_request(req: &ListNftRequest) -> (r: Result<ListPlan, MarketError>)
    ensures
        match r {
            Ok(p) => {
                &&& spec_parsed_address(req.nft_address@) matches Some(mint)
                    && spec_parsed_address(req.seller_pubkey@) matches Some(seller)
                    && spec_list_plan_ok(p, mint, seller, req.price)
                &&& p.wf()
            },
            Err(e) => {
                &&& (e == MarketError::InvalidInput || e == MarketError::DerivationFailure)
                &&& (e == MarketError::InvalidInput <==> (spec_parsed_address(
                    req.nft_address@,
                ) is None || spec_parsed_address(req.seller_pubkey@) is None))
                &&& (e == MarketError::DerivationFailure ==> (spec_parsed_address(
                    req.nft_address@,
                ) matches Some(mint) && spec_find_program_address(
                    spec_listing_seeds(mint),
                    spec_escrow_program_id(),
                ) is None))
            },
        },
{
    let mint = match parse_address(req.nft_address.as_str()) {
        Ok(a) => a,
        Err(_) => {
            return Err(MarketError::InvalidInput);
        },
    };
    let seller = match parse_address(req.seller_pubkey.as_str()) {
        Ok(a) => a,
        Err(_) => {
            return Err(MarketError::InvalidInput);
        },
    };
    plan_list(&mint, &seller, req.price)
}

/// Shape of the escrow program's buy instruction: opcode 2 with an empty
/// payload tail, against its nine accounts in fixed order.
pub open spec fn spec_buy_instruction_ok(
    ix: Instruction,
    listing: Seq<u8>,
    mint: Seq<u8>,
    escrow_token: Seq<u8>,
    buyer_token: Seq<u8>,
    seller: Seq<u8>,
    buyer: Seq<u8>,
) -> bool {
    &&& ix.program@ == spec_escrow_program_id()
    &&& ix.data@ == seq![2u8]
    &&& ix.accounts@.len() == 9
    &&& is_account(ix.accounts@[0], listing, false, true)
    &&& is_account(ix.accounts@[1], mint, false, false)
    &&& is_account(ix.accounts@[2], escrow_token, false, true)
    &&& is_account(ix.accounts@[3], buyer_token, false, true)
    &&& is_account(ix.accounts@[4], seller, false, true)
    &&& is_account(ix.accounts@[5], buyer, true, true)
    &&& is_account(ix.accounts@[6], spec_token_program_id(), false, false)
    &&& is_account(ix.accounts@[7], spec_ata_program_id(), false, false)
    &&& is_account(ix.accounts@[8], spec_system_program_id(), false, false)
}

/// Everything the buy flow recovers and assembles: the listing state read
/// back from the raw account bytes, the two token accounts, and the single
/// buy instruction.
#[derive(Debug)]
pub struct BuyPlan {
    pub listing_state: Listing,
    pub escrow_token: Address,
    pub buyer_token: Address,
    pub instruction: Instruction,
}

impl BuyPlan {
    pub open spec fn wf(&self) -> bool {
        &&& self.listing_state.wf()
        &&& self.escrow_token.wf()
        &&& self.buyer_token.wf()
        &&& self.instruction.wf()
    }
}

/// The exact content of a correct buy plan, relative to the raw listing
/// account image the ledger returned.
pub open spec fn spec_buy_plan_ok(
    p: BuyPlan,
    listing: Seq<u8>,
    data: Seq<u8>,
    buyer: Seq<u8>,
) -> bool {
    &&& p.listing_state.nft_mint@ == spec_listing_mint(data)
    &&& p.listing_state.seller@ == spec_listing_seller(data)
    &&& p.listing_state.price == spec_listing_price(data)
    &&& p.listing_state.is_active
    &&& p.escrow_token@ == spec_associated_token_address(
        listing,
        spec_listing_mint(data),
        spec_token_program_id(),
    )
    &&& p.buyer_token@ == spec_associated_token_address(
        buyer,
        spec_listing_mint(data),
        spec_token_program_id(),
    )
    &&& spec_buy_instruction_ok(
        p.instruction,
        listing,
        spec_listing_mint(data),
        p.escrow_token@,
        p.buyer_token@,
        spec_listing_seller(data),
        buyer,
    )
}

/// The buy orchestrator's decision core over the raw listing account bytes
/// the caller read from the ledger. An account shorter than the 81-byte
/// layout is rejected before any field parse, and a listing whose active
/// flag is down is rejected — both as state violations — so a settled or
/// malformed listing can never produce a buy instruction.
pub fn plan_buy(listing_address: &Address, buyer: &Address, account_data: &[u8]) -> (r: Result<
    BuyPlan,
    MarketError,
>)
    requires
        listing_address.wf(),
        buyer.wf(),
    ensures
        match r {
            Ok(p) => {
                &&& account_data@.len() >= LISTING_ACCOUNT_LEN
                &&& spec_listing_active(account_data@)
                &&& p.wf()
                &&& spec_buy_plan_ok(p, listing_address@, account_data@, buyer@)
            },
            Err(e) => {
                &&& e == MarketError::StateViolation
                &&& (account_data@.len() < LISTING_ACCOUNT_LEN || !spec_listing_active(
                    account_data@,
                ))
            },
        },
{
    let listing_state = decode_listing(account_data)?;
    if !listing_state.is_active {
        return Err(MarketError::StateViolation);
    }
    let escrow_token = associated_token_address(listing_address, &listing_state.nft_mint);
    let buyer_token = associated_token_address(buyer, &listing_state.nft_mint);

    let data: Vec<u8> = vec![2u8];
    assert(data@ =~= seq![2u8]);

    let mut accounts: Vec<AccountRole> = Vec::new();
    accounts.push(AccountRole::writable(listing_address.clone()));
    accounts.push(AccountRole::readonly(listing_state.nft_mint.clone()));
    accounts.push(AccountRole::writable(escrow_token.clone()));
    accounts.push(AccountRole::writable(buyer_token.clone()));
    accounts.push(AccountRole::writable(listing_state.seller.clone()));
    accounts.push(AccountRole::writable_signer(buyer.clone()));
    accounts.push(AccountRole::readonly(crate::programs::token_program_id()));
    accounts.push(AccountRole::readonly(crate::programs::ata_program_id()));
    accounts.push(AccountRole::readonly(crate::programs::system_program_id()));

    let instruction = Instruction { program: escrow_program_id(), accounts, data };
    Ok(BuyPlan { listing_state, escrow_token, buyer_token, instruction })
}

/// The buy orchestrator's wire-form entry: parses the request's addresses,
/// then decides over the raw listing account bytes.
pub fn plan_buy_request(req: &BuyNftRequest, account_data: &[u8]) -> (r: Result<
    BuyPlan,
    MarketError,
>)
    ensures
        match r {
            Ok(p) => {
                &&& spec_parsed_address(req.listing_address@) matches Some(listing)
                    && spec_parsed_address(req.buyer_pubkey@) matches Some(buyer)
                    && spec_buy_plan_ok(p, listing, account_data@, buyer)
                &&& account_data@.len() >= LISTING_ACCOUNT_LEN
                &&& spec_listing_active(account_data@)
                &&& p.wf()
            },
            Err(e) => {
                &&& (e == MarketError::InvalidInput || e == MarketError::StateViolation)
                &&& (e == MarketError::InvalidInput <==> (spec_parsed_address(
                    req.listing_address@,
                ) is None || spec_parsed_address(req.buyer_pubkey@) is None))
                &&& (e == MarketError::StateViolation <==> (spec_parsed_address(
                    req.listing_address@,
                ) is Some && spec_parsed_address(req.buyer_pubkey@) is Some && (
                account_data@.len() < LISTING_ACCOUNT_LEN || !spec_listing_active(
                    account_data@,
                ))))
            },
        },
{
    let listing_address = match parse_address(req.listing_address.as_str()) {
        Ok(a) => a,
        Err(_) => {
            return Err(MarketError::InvalidInput);
        },
    };
    let buyer = match parse_address(req.buyer_pubkey.as_str()) {
        Ok(a) => a,
        Err(_) => {
            return Err(MarketError::InvalidInput);
        },
    };
    plan_buy(&listing_address, &buyer, account_data)
}

} // verus!
