use vstd::prelude::*;

verus! {

/// A request to the image provider: a text prompt and an optional style.
pub struct GenerateImageRequest {
    pub prompt: String,
    pub style: Option<String>,
}

/// The image provider's final answer: where the image lives, and its data
/// when the provider inlines it.
pub struct GenerateImageResponse {
    pub image_url: String,
    pub image_data: Option<String>,
}

/// Seconds between two polls of the image provider.
pub const POLL_INTERVAL_SECS: u32 = 2;

/// What the image provider reports for a submitted task.
#[derive(Clone, Copy, Debug, PartialEq, Eq, Structural)]
pub enum ProviderStatus {
    Pending,
    Completed,
    Failed,
}

/// One poll answer from the image provider: the task status and whatever
/// result locations it produced so far.
pub struct PollReport {
    pub status: ProviderStatus,
    pub image_urls: Vec<String>,
}

/// How a provider interaction ends.
#[derive(Clone, Copy, Debug, PartialEq, Eq, Structural)]
pub enum ProviderFailure {
    /// The provider reported completion with no result.
    NoImage,
    /// The provider reported the task failed.
    GenerationFailed,
    /// The bounded retry budget ran out while the task stayed pending.
    TimedOut,
}

/// The next move of the polling loop.
pub enum PollDecision {
    /// The task finished; this is its result location.
    Deliver(String),
    /// The interaction is over with a terminal failure.
    Abort(ProviderFailure),
    /// Wait this many seconds and poll again.
    Wait(u32),
}

/// Decides one step of the bounded polling loop against the image provider.
/// A completed report delivers its first result (or fails when there is
/// none), a failed report aborts, and a pending report either waits the
/// fixed interval or — once the attempt budget is spent — aborts with the
/// distinguishable timeout failure, so the loop can never run unboundedly.
pub fn poll_step(report: &PollReport, attempt: u32, max_attempts: u32) -> (r: PollDecision)
    requires
        attempt < max_attempts,
    ensures
        match report.status {
            ProviderStatus::Completed => {
                if report.image_urls@.len() == 0 {
                    r matches PollDecision::Abort(f) && f == ProviderFailure::NoImage
                } else {
                    r matches PollDecision::Deliver(u) && u@ == report.image_urls@[0]@
                }
            },
            ProviderStatus::Failed => r matches PollDecision::Abort(f) && f
                == ProviderFailure::GenerationFailed,
            ProviderStatus::Pending => {
                if attempt + 1 < max_attempts {
                    r matches PollDecision::Wait(s) && s == POLL_INTERVAL_SECS
                } else {
                    r matches PollDecision::Abort(f) && f == ProviderFailure::TimedOut
                }
            },
        },
{
    match report.status {
        ProviderStatus::Completed => {
            if report.image_urls.len() == 0 {
                PollDecision::Abort(ProviderFailure::NoImage)
            } else {
                PollDecision::Deliver(report.image_urls[0].clone())
            }
        },
        ProviderStatus::Failed => PollDecision::Abort(ProviderFailure::GenerationFailed),
        ProviderStatus::Pending => {
            if attempt + 1 < max_attempts {
                PollDecision::Wait(POLL_INTERVAL_SECS)
            } else {
                PollDecision::Abort(ProviderFailure::TimedOut)
            }
        },
    }
}

} // verus!
