//! Addresses of the backend's websocket endpoints.

use crate::text::{joined, replace_all, replaced};
use vstd::prelude::*;

verus! {

/// The websocket address that stands for an HTTP base address: `http://`
/// becomes `ws://` and `https://` becomes `wss://`, wherever they occur.
pub open spec fn websocket_url(base_url: Seq<char>) -> Seq<char> {
    replaced(replaced(base_url, "http://"@, "ws://"@), "https://"@, "wss://"@)
}

/// The websocket side of a backend.
#[derive(Debug)]
pub struct WebSocketClient {
    base_url: String,
}

impl WebSocketClient {
    /// The websocket base address.
    pub closed spec fn url(&self) -> Seq<char> {
        self.base_url@
    }

    /// A client for the backend at the HTTP address `base_url`.
    pub fn new(base_url: String) -> (client: WebSocketClient)
        ensures
            client.url() == websocket_url(base_url@),
    {
        proof {
            reveal_strlit("http://");
            reveal_strlit("https://");
        }
        let plain = replace_all(base_url.as_str(), "http://", "ws://");
        let ws_url = replace_all(plain.as_str(), "https://", "wss://");
        WebSocketClient { base_url: ws_url }
    }

    /// The websocket base address.
    pub fn base_url(&self) -> (url: String)
        ensures
            url@ == self.url(),
    {
        self.base_url.clone()
    }

    /// The address of the endpoint of one device.
    pub fn device_url(&self, device_id: &str) -> (url: String)
        ensures
            url@ == self.url() + "/ws/device/"@ + device_id@,
    {
        let head = joined(self.base_url.as_str(), "/ws/device/");
        joined(head.as_str(), device_id)
    }
}

} // verus!
