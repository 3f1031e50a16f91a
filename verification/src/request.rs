//! The closed set of operations the dispatch worker can perform, and the
//! subscription worker's decision rule: which request a server-pushed
//! change notification turns into.

use vstd::prelude::*;

use crate::cache::default_after_server_reply;
use crate::volume::ChannelLevels;

verus! {

/// One operation for the dispatch worker. The worker owning the protocol
/// connection executes these strictly one at a time, in submission order.
/// Completion signalling travels beside the request, outside this library.
pub enum ClientRequest {
    /// Ask the server for its info and record the default-sink name.
    GetDefaultDevice,
    /// Refresh the cache entry for the sink with this server-side index.
    GetSinkInfoByIndex(u32),
    /// Refresh the cache entry for the sink with this name.
    GetSinkInfoByName(String),
    /// Push these channel levels to the named sink.
    SetSinkVolumeByName(String, ChannelLevels),
    /// Set the named sink's mute flag.
    SetSinkMuteByName(String, bool),
}

impl ClientRequest {
    /// Mutation calls carry no reply payload, so their completion signal
    /// fires right after submission; a query's signal fires from its
    /// reply callback instead.
    pub fn signals_on_submit(&self) -> (r: bool)
        ensures
            r == (self matches ClientRequest::SetSinkVolumeByName(_, _)
                || self matches ClientRequest::SetSinkMuteByName(_, _)),
    {
        match self {
            ClientRequest::SetSinkVolumeByName(_, _) => true,
            ClientRequest::SetSinkMuteByName(_, _) => true,
            _ => false,
        }
    }
}

/// The category of server-side object a change notification is about.
/// Anything other than the server itself or a sink is ignored here.
pub enum SubscriptionFacility {
    Server,
    Sink,
    Other,
}

/// The request a change notification turns into: a "server" notification
/// asks for the default device again, a "sink" notification refreshes the
/// sink with the notified index, anything else is dropped.
pub open spec fn spec_subscribe_decision(
    facility: Option<SubscriptionFacility>,
    index: u32,
) -> Option<ClientRequest> {
    match facility {
        Some(SubscriptionFacility::Server) => Some(ClientRequest::GetDefaultDevice),
        Some(SubscriptionFacility::Sink) => Some(ClientRequest::GetSinkInfoByIndex(index)),
        _ => None,
    }
}

/// The subscription worker's whole decision rule. Neither refresh carries
/// a completion signal; nobody is waiting on them.
pub fn subscribe_decision(facility: Option<SubscriptionFacility>, index: u32) -> (r: Option<
    ClientRequest,
>)
    ensures
        r == spec_subscribe_decision(facility, index),
{
    match facility {
        Some(SubscriptionFacility::Server) => Some(ClientRequest::GetDefaultDevice),
        Some(SubscriptionFacility::Sink) => Some(ClientRequest::GetSinkInfoByIndex(index)),
        _ => None,
    }
}

/// A change notification for the server facility refreshes the cached
/// default-device name: the notification turns into a get-default-device
/// request, and once that request's server-info reply reaches the cache,
/// the cache's default-sink name is exactly the name the server reported,
/// whatever it was before.
pub proof fn lemma_server_event_refreshes_default(
    prev_default: Seq<char>,
    reported: Seq<char>,
    index: u32,
)
    ensures
        spec_subscribe_decision(Some(SubscriptionFacility::Server), index) == Some(
            ClientRequest::GetDefaultDevice,
        ),
        default_after_server_reply(prev_default, Some(reported)) == reported,
{
}

} // verus!
