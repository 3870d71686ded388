use vstd::prelude::*;

use twilight_model::channel::ChannelType;

use crate::cache::Error;
use crate::store::WebhookHandle;

verus! {

#[verifier::external_type_specification]
pub struct ExChannelType(ChannelType);

/// Whether channels of this kind are threads.
pub open spec fn is_thread_kind(kind: ChannelType) -> bool {
    kind is GuildNewsThread || kind is GuildPublicThread || kind is GuildPrivateThread
}

/// Relies on `ChannelType::is_thread`: news, public and private threads are
/// the thread kinds.
pub assume_specification[ ChannelType::is_thread ](kind: ChannelType) -> (r: bool)
    ensures
        r == is_thread_kind(kind),
;

/// What one execution of a webhook is sent with: which webhook, under which
/// display identity, into which thread if any.
#[derive(Debug, Clone, PartialEq, Eq)]
pub struct Execution {
    /// The webhook to execute
    pub webhook_id: u64,
    /// The webhook's token
    pub token: String,
    /// The thread to post into, instead of the webhook's own channel
    pub thread_id: Option<u64>,
    /// The name to post under
    pub username: String,
    /// The avatar to post with, if any
    pub avatar_url: Option<String>,
}

impl Execution {
    /// Prepares an execution of `webhook` under the given name and avatar,
    /// into the webhook's own channel
    ///
    /// # Errors
    /// Returns [`Error::NoToken`] if the webhook has no token
    pub fn new(webhook: WebhookHandle, username: String, avatar_url: Option<String>) -> (r: Result<Execution, Error>)
        ensures
            match webhook.token {
                Some(token) => r == Ok::<Execution, Error>(
                    Execution { webhook_id: webhook.id, token, thread_id: None, username, avatar_url },
                ),
                None => r is Err && r->Err_0 is NoToken,
            },
    {
        match webhook.token {
            Some(token) => Ok(Execution { webhook_id: webhook.id, token, thread_id: None, username, avatar_url }),
            None => Err(Error::NoToken),
        }
    }

    /// If the channel is a thread channel, execute the webhook in it
    pub fn in_channel(self, channel_id: u64, kind: ChannelType) -> (r: Execution)
        ensures
            r == (if is_thread_kind(kind) { Execution { thread_id: Some(channel_id), ..self } } else { self }),
    {
        if kind.is_thread() {
            Execution { thread_id: Some(channel_id), ..self }
        } else {
            self
        }
    }
}

} // verus!
