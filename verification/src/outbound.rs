//! The outbound client: the single configured destination on the messaging
//! platform. Its channel target and credential are set exactly once, before
//! requests are served, and are read-only after that; a second
//! initialisation fails loudly and changes nothing. The network calls
//! themselves are made outside this crate; here each send is prepared and
//! checked against the initialisation state.

use vstd::prelude::*;
use vstd::string::*;
use crate::decimal::{decimal_value, is_decimal_string, parse_u64};
use crate::notification::NotificationMessage;

verus! {

/// A plain-text message prepared for dispatch to the configured channel.
pub struct PreparedMessage {
    pub channel_id: u64,
    pub content: String,
}

/// A rich message prepared for dispatch to the configured channel.
pub struct PreparedEmbed {
    pub channel_id: u64,
    pub embed: NotificationMessage,
}

/// The process-wide outbound destination: a channel identifier and the
/// credential the platform client is built from.
pub struct OutboundClient {
    channel_id: Option<u64>,
    token: Option<String>,
}

impl OutboundClient {
    /// The stored channel target, if initialised.
    pub closed spec fn spec_channel_id(&self) -> Option<u64> {
        self.channel_id
    }

    /// The stored credential, if initialised.
    pub closed spec fn spec_token(&self) -> Option<Seq<char>> {
        match self.token {
            Some(t) => Some(t@),
            None => None,
        }
    }

    pub closed spec fn channel_initialized(&self) -> bool {
        self.channel_id is Some
    }

    pub closed spec fn client_initialized(&self) -> bool {
        self.token is Some
    }

    /// Both halves of the destination are set.
    pub open spec fn is_initialized(&self) -> bool {
        self.channel_initialized() && self.client_initialized()
    }

    /// A fresh, uninitialised client.
    pub fn new() -> (c: Self)
        ensures
            !c.channel_initialized(),
            !c.client_initialized(),
    {
        OutboundClient { channel_id: None, token: None }
    }

    /// Sets the channel target from its textual configuration value, once.
    /// Rejects text that is not a decimal number fitting the identifier
    /// type, and rejects a second initialisation without altering the
    /// stored target.
    pub fn init_channel_id(&mut self, raw: &str) -> (r: Result<(), String>)
        ensures
            !(is_decimal_string(raw@) && decimal_value(raw@) <= u64::MAX) ==> (r matches Err(m)
                && m@ == "DISCORD_CHANNEL_ID must be a valid number"@ && *final(self) == *old(self)),
            is_decimal_string(raw@) && decimal_value(raw@) <= u64::MAX && old(
                self,
            ).channel_initialized() ==> (r matches Err(m) && m@ == "Channel ID already initialized"@
                && *final(self) == *old(self)),
            is_decimal_string(raw@) && decimal_value(raw@) <= u64::MAX && !old(
                self,
            ).channel_initialized() ==> r is Ok && final(self).channel_initialized()
                && final(self).spec_channel_id() == Some(decimal_value(raw@) as u64)
                && final(self).spec_token() == old(self).spec_token()
                && final(self).client_initialized() == old(self).client_initialized(),
    {
        let parsed = parse_u64(raw);
        match parsed {
            None => Err(String::from_str("DISCORD_CHANNEL_ID must be a valid number")),
            Some(id) => {
                if self.channel_id.is_some() {
                    Err(String::from_str("Channel ID already initialized"))
                } else {
                    self.channel_id = Some(id);
                    Ok(())
                }
            },
        }
    }

    /// Stores the credential the platform client is built from, once. A
    /// second initialisation fails without altering the stored credential.
    pub fn init_http_client(&mut self, token: String) -> (r: Result<(), String>)
        ensures
            old(self).client_initialized() ==> (r matches Err(m) && m@
                == "HTTP client already initialized"@ && *final(self) == *old(self)),
            !old(self).client_initialized() ==> r is Ok && final(self).client_initialized()
                && final(self).spec_token() == Some(token@)
                && final(self).spec_channel_id() == old(self).spec_channel_id()
                && final(self).channel_initialized() == old(self).channel_initialized(),
    {
        if self.token.is_some() {
            Err(String::from_str("HTTP client already initialized"))
        } else {
            self.token = Some(token);
            Ok(())
        }
    }

    /// The configured channel target, or the failure a caller sees before
    /// initialisation.
    pub fn get_channel_id(&self) -> (r: Result<u64, String>)
        ensures
            self.channel_initialized() ==> (r matches Ok(id) && Some(id)
                == self.spec_channel_id()),
            !self.channel_initialized() ==> (r matches Err(m) && m@
                == "Channel ID not initialized"@),
    {
        match self.channel_id {
            Some(id) => Ok(id),
            None => Err(String::from_str("Channel ID not initialized")),
        }
    }

    /// The stored credential, or the failure a caller sees before
    /// initialisation.
    pub fn get_http_client(&self) -> (r: Result<String, String>)
        ensures
            self.client_initialized() ==> (r matches Ok(t) && Some(t@) == self.spec_token()),
            !self.client_initialized() ==> (r matches Err(m) && m@
                == "HTTP client not initialized"@),
    {
        match &self.token {
            Some(t) => Ok(t.clone()),
            None => Err(String::from_str("HTTP client not initialized")),
        }
    }

    /// Prepares one plain-text message for the configured channel. Requires
    /// prior initialisation of both halves, checked in the same order a
    /// send performs it: channel target first, then client.
    pub fn send_message(&self, content: String) -> (r: Result<PreparedMessage, String>)
        ensures
            !self.channel_initialized() ==> (r matches Err(m) && m@
                == "Channel ID not initialized"@),
            self.channel_initialized() && !self.client_initialized() ==> (r matches Err(m) && m@
                == "HTTP client not initialized"@),
            self.is_initialized() ==> (r matches Ok(p) && Some(p.channel_id)
                == self.spec_channel_id() && p.content@ == content@),
    {
        let channel_id = match self.get_channel_id() {
            Ok(id) => id,
            Err(m) => {
                return Err(m);
            },
        };
        match self.get_http_client() {
            Ok(_) => Ok(PreparedMessage { channel_id, content }),
            Err(m) => Err(m),
        }
    }

    /// Prepares one rich message for the configured channel, under the same
    /// preconditions as a plain one.
    pub fn send_embed(&self, embed: NotificationMessage) -> (r: Result<PreparedEmbed, String>)
        ensures
            !self.channel_initialized() ==> (r matches Err(m) && m@
                == "Channel ID not initialized"@),
            self.channel_initialized() && !self.client_initialized() ==> (r matches Err(m) && m@
                == "HTTP client not initialized"@),
            self.is_initialized() ==> (r matches Ok(p) && Some(p.channel_id)
                == self.spec_channel_id() && p.embed == embed),
    {
        let channel_id = match self.get_channel_id() {
            Ok(id) => id,
            Err(m) => {
                return Err(m);
            },
        };
        match self.get_http_client() {
            Ok(_) => Ok(PreparedEmbed { channel_id, embed }),
            Err(m) => Err(m),
        }
    }
}

/// What the presence connection's event stream yielded once: an event, a
/// recoverable per-event failure, or the end of the stream.
pub enum GatewayItem {
    Event,
    RecoverableError { message: String },
    StreamEnd,
}

/// What the receive loop does next with one yielded item.
pub enum GatewayAction {
    /// Hand the event to an independent task that discards it; the loop's
    /// only purpose is to keep the connection drained and alive.
    DiscardEvent,
    /// Log the recoverable failure and keep receiving.
    LogAndContinue,
    /// The stream ended: the loop exits. No reconnection is attempted.
    Stop,
}

/// The decision of the presence loop for one yielded item.
pub fn gateway_step(item: &GatewayItem) -> (a: GatewayAction)
    ensures
        item is Event ==> a is DiscardEvent,
        item is RecoverableError ==> a is LogAndContinue,
        item is StreamEnd ==> a is Stop,
{
    match item {
        GatewayItem::Event => GatewayAction::DiscardEvent,
        GatewayItem::RecoverableError { .. } => GatewayAction::LogAndContinue,
        GatewayItem::StreamEnd => GatewayAction::Stop,
    }
}

} // verus!
