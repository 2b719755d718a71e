//! Client-side core of a BitGo REST API binding.
//!
//! The library turns typed wallet, webhook and transfer operations into fully
//! formed HTTP requests (URL, headers, JSON body) and classifies HTTP
//! responses into results or errors. The network transport itself lives
//! outside the library; everything that decides *what* is sent and *how* a
//! response is interpreted is verified here.

use vstd::prelude::*;

pub mod bitgo_api;
pub mod client;
pub mod config;
pub mod error;
pub mod json;
pub mod request;
pub mod tls;
pub mod transfer;
pub mod wallet;
pub mod webhook;

use crate::transfer::BitGoTransferAPI;
use crate::wallet::BitGoWallet;
use crate::webhook::BitGoWebhookAPI;

verus! {

/// Everything the webhook, wallet and transfer surfaces offer, for a client
/// that may be shared across threads.
pub trait BitGoAPI: BitGoWebhookAPI + BitGoWallet + BitGoTransferAPI + Sync + Send + 'static {

}

impl<T: BitGoWebhookAPI + BitGoWallet + BitGoTransferAPI + Sync + Send + 'static> BitGoAPI for T {

}

} // verus!
