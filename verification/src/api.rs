//! Plain request and response records exchanged with the HTTP boundary and
//! the transaction relay. The boundary itself (routing, authentication,
//! serialization) lives in the embedding program; these are the values it
//! hands across.

use vstd::prelude::*;

verus! {

/// Body of a magic-link sign-in request.
#[derive(Debug)]
pub struct MagicLinkRequest {
    pub email: String,
}

/// Query of the magic-link verification endpoint.
#[derive(Debug)]
pub struct VerifyQuery {
    pub token: String,
}

/// Body of a token refresh request.
#[derive(Debug)]
pub struct RefreshRequest {
    pub refresh_token: String,
}

/// Token pair answered to a verified or refreshed sign-in.
#[derive(Debug)]
pub struct TokenResponse {
    pub access_token: String,
    pub refresh_token: String,
    pub expires_in: i64,
}

/// One catalogue row of the shop listing.
#[derive(Debug)]
pub struct ShopEntry {
    pub item_id: i32,
    pub name: String,
    pub description: Option<String>,
    pub price: i32,
}

/// One row of a player's inventory listing.
#[derive(Debug)]
pub struct InventoryEntry {
    pub item_id: i32,
    pub name: String,
    pub quantity: i32,
}

/// Body of the use-item endpoint.
#[derive(Debug, Clone, Copy, PartialEq, Eq, Structural)]
pub struct UseReq {
    pub item_id: i32,
    pub quantity: i32,
}

/// Query of the chat history endpoint.
#[derive(Debug, Clone, Copy, PartialEq, Eq, Structural)]
pub struct HistoryParams {
    pub limit: i64,
}

/// The history page size used when the query names none.
pub fn default_limit() -> (n: i64)
    ensures
        n == 50,
{
    50
}

/// Query of the leaderboard endpoint.
#[derive(Debug, Clone, Copy, PartialEq, Eq, Structural)]
pub struct LeaderboardParams {
    /// Maximum number of entries to return.
    pub limit: i64,
}

/// Raw BCS-encoded transaction payload sent by the client, as a hex string
/// (`0x` prefix optional).
#[derive(Debug, Clone)]
pub struct RawPayload {
    pub payload_hex: String,
}

/// JSON body expected by the sponsored-transaction endpoint.
#[derive(Debug)]
pub struct SponsoredTxRequest {
    /// Hex string (with or without `0x`) of the BCS-encoded payload.
    pub payload_hex: String,
}

/// JSON response of the sponsored-transaction endpoint on success.
#[derive(Debug)]
pub struct SponsoredTxResponse {
    /// On-chain transaction hash (`0x` prefixed).
    pub tx_hash: String,
}

} // verus!
