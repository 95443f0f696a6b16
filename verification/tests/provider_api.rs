use nft_marketplace::addr::Address;
use nft_marketplace::flows::{fee_breakdown, mint_request_from_generated, mint_response};
use nft_marketplace::requests::GenerateAndMintNftRequest;
use nft_marketplace::provider::{
    poll_step, PollDecision, PollReport, ProviderFailure, ProviderStatus, POLL_INTERVAL_SECS,
};

#[test]
fn completed_report_delivers_its_first_image() {
    let report = PollReport {
        status: ProviderStatus::Completed,
        image_urls: vec!["https://img/1.png".to_string(), "https://img/2.png".to_string()],
    };
    match poll_step(&report, 0, 5) {
        PollDecision::Deliver(url) => assert_eq!(url, "https://img/1.png"),
        _ => panic!("expected delivery"),
    }
}

#[test]
fn completed_report_without_result_fails() {
    let report = PollReport { status: ProviderStatus::Completed, image_urls: vec![] };
    match poll_step(&report, 0, 5) {
        PollDecision::Abort(f) => assert_eq!(f, ProviderFailure::NoImage),
        _ => panic!("expected abort"),
    }
}

#[test]
fn failed_report_aborts() {
    let report = PollReport { status: ProviderStatus::Failed, image_urls: vec![] };
    match poll_step(&report, 3, 5) {
        PollDecision::Abort(f) => assert_eq!(f, ProviderFailure::GenerationFailed),
        _ => panic!("expected abort"),
    }
}

#[test]
fn pending_report_waits_the_fixed_interval() {
    let report = PollReport { status: ProviderStatus::Pending, image_urls: vec![] };
    match poll_step(&report, 0, 5) {
        PollDecision::Wait(secs) => assert_eq!(secs, POLL_INTERVAL_SECS),
        _ => panic!("expected wait"),
    }
}

#[test]
fn pending_report_times_out_when_the_budget_is_spent() {
    let report = PollReport { status: ProviderStatus::Pending, image_urls: vec![] };
    match poll_step(&report, 4, 5) {
        PollDecision::Abort(f) => assert_eq!(f, ProviderFailure::TimedOut),
        _ => panic!("expected timeout"),
    }
}

#[test]
fn polling_loop_is_bounded() {
    // Drive the loop as a runner would, against a provider that never
    // finishes: it must end, within the budget, in the timeout failure.
    let max_attempts = 7u32;
    let mut attempt = 0u32;
    let mut steps = 0u32;
    let outcome = loop {
        let report = PollReport { status: ProviderStatus::Pending, image_urls: vec![] };
        match poll_step(&report, attempt, max_attempts) {
            PollDecision::Wait(_) => {
                attempt += 1;
                steps += 1;
                assert!(steps <= max_attempts);
            }
            PollDecision::Abort(f) => break f,
            PollDecision::Deliver(_) => panic!("cannot deliver while pending"),
        }
    };
    assert_eq!(outcome, ProviderFailure::TimedOut);
    assert_eq!(attempt, max_attempts - 1);
}

#[test]
fn mint_response_renders_the_mint_in_base58() {
    let mint = Address { bytes: vec![0u8; 32] };
    let resp = mint_response(&mint, "sig".to_string());
    assert_eq!(resp.nft_address, "11111111111111111111111111111111");
    assert_eq!(resp.transaction_signature, "sig");
}

#[test]
fn generated_image_becomes_the_tokens_locator() {
    let req = GenerateAndMintNftRequest {
        name: "Art#1".to_string(),
        symbol: "ART".to_string(),
        prompt: "a red fox".to_string(),
        style: Some("digital-art".to_string()),
        creator_pubkey: "creator".to_string(),
        signature: "sig".to_string(),
        message: "msg".to_string(),
    };
    let mint_req = mint_request_from_generated(&req, "https://img/fox.png".to_string());
    assert_eq!(mint_req.name, "Art#1");
    assert_eq!(mint_req.symbol, "ART");
    assert_eq!(mint_req.uri, "https://img/fox.png");
    assert_eq!(mint_req.creator_pubkey, "creator");
    assert_eq!(mint_req.signature, "sig");
    assert_eq!(mint_req.message, "msg");
}

#[test]
fn fee_breakdown_totals_its_parts() {
    let fees = fee_breakdown(1_461_600, 5_000);
    assert_eq!(fees.mint_rent, 1_461_600);
    assert_eq!(fees.transaction_fee, 5_000);
    assert_eq!(fees.total, 1_466_600);
}
