use vstd::prelude::*;

use dashmap::DashMap;
use twilight_http::response::DeserializeBodyError;
use twilight_http::Error as HttpError;
use twilight_validate::request::ValidationError;

use crate::store::{
    entries_of, map_contains_key, map_get, map_insert, map_new, map_remove,
    map_retain_outside_guild, without_guild, WebhookHandle,
};

verus! {

/// An error occurred when trying to update the cache or use one of its
/// webhooks
#[derive(Debug)]
pub enum Error {
    /// An error was returned by Twilight's HTTP client while making the request
    Http(HttpError),
    /// An error was returned by Twilight's HTTP client while deserializing the
    /// response
    Deserialize(DeserializeBodyError),
    /// An error was returned by Twilight while validating a request
    Validation(ValidationError),
    /// The webhook has no token, so it cannot be executed
    NoToken,
}

/// What happened last while looking up (or creating) a channel's webhook.
#[derive(Debug)]
pub enum LookupEvent {
    /// A caller asks for the channel's webhook
    Start,
    /// The remote listing of the channel's webhooks came back
    Listed(Result<Vec<WebhookHandle>, Error>),
    /// The remote creation of a webhook in the channel came back
    Created(Result<WebhookHandle, Error>),
}

/// What to do next while looking up (or creating) a channel's webhook.
#[derive(Debug)]
pub enum LookupAction {
    /// Hand this webhook to the caller: the lookup is over
    Done(WebhookHandle),
    /// List the webhooks of this channel and report `LookupEvent::Listed`
    List(u64),
    /// Create a webhook in this channel, under the caller's name, and report
    /// `LookupEvent::Created`
    Create(u64),
    /// Hand this error to the caller: the lookup is over
    Fail(Error),
}

/// What happened last while validating a channel's cached webhook.
#[derive(Debug)]
pub enum ValidateEvent {
    /// A caller asks for the channel's entry to be validated
    Start,
    /// The remote listing of the channel's webhooks came back
    Listed(Result<Vec<WebhookHandle>, Error>),
}

/// What to do next while validating a channel's cached webhook.
#[derive(Debug)]
pub enum ValidateAction {
    /// The validation is over
    Done,
    /// List the webhooks of this channel and report `ValidateEvent::Listed`
    List(u64),
    /// Hand this error to the caller: the validation is over
    Fail(Error),
}

/// A notification of the gateway, as far as the cache cares about it.
#[derive(Debug, Clone, Copy, PartialEq, Eq)]
pub enum Notification {
    /// A channel was deleted
    ChannelDelete { channel_id: u64, guild_id: Option<u64> },
    /// The bot left a guild, or the guild was deleted
    GuildDelete { guild_id: u64 },
    /// A webhook of the channel was created, changed or deleted
    WebhooksUpdate { channel_id: u64 },
    /// Anything else
    Other,
}

/// The first webhook of a listing that carries a token, if any does.
pub open spec fn first_usable(list: Seq<WebhookHandle>) -> Option<WebhookHandle>
    decreases list.len(),
{
    if list.len() == 0 {
        None
    } else if list[0].token is Some {
        Some(list[0])
    } else {
        first_usable(list.drop_first())
    }
}

/// One step of a lookup of `channel_id`'s webhook: the cache's entries after
/// `event`, and what to do next.
pub open spec fn lookup_step(m: Map<u64, WebhookHandle>, channel_id: u64, event: LookupEvent) -> (
    Map<u64, WebhookHandle>,
    LookupAction,
) {
    match event {
        LookupEvent::Start => if m.contains_key(channel_id) {
            (m, LookupAction::Done(m[channel_id]))
        } else {
            (m, LookupAction::List(channel_id))
        },
        LookupEvent::Listed(Ok(list)) => match first_usable(list@) {
            Some(w) => (m.insert(channel_id, w), LookupAction::Done(w)),
            None => (m, LookupAction::Create(channel_id)),
        },
        LookupEvent::Listed(Err(e)) => (m, LookupAction::Fail(e)),
        LookupEvent::Created(Ok(w)) => (m.insert(channel_id, w), LookupAction::Done(w)),
        LookupEvent::Created(Err(e)) => (m, LookupAction::Fail(e)),
    }
}

/// One step of a validation of `channel_id`'s entry: the cache's entries
/// after `event`, and what to do next.
pub open spec fn validate_step(m: Map<u64, WebhookHandle>, channel_id: u64, event: ValidateEvent) -> (
    Map<u64, WebhookHandle>,
    ValidateAction,
) {
    match event {
        ValidateEvent::Start => if m.contains_key(channel_id) {
            (m, ValidateAction::List(channel_id))
        } else {
            (m, ValidateAction::Done)
        },
        ValidateEvent::Listed(Ok(list)) => if first_usable(list@) is Some {
            (m, ValidateAction::Done)
        } else {
            (m.remove(channel_id), ValidateAction::Done)
        },
        ValidateEvent::Listed(Err(e)) => (m, ValidateAction::Fail(e)),
    }
}

/// The cache's entries after a notification.
pub open spec fn after_notification(m: Map<u64, WebhookHandle>, n: Notification) -> Map<
    u64,
    WebhookHandle,
> {
    match n {
        Notification::ChannelDelete { channel_id, .. } => m.remove(channel_id),
        Notification::GuildDelete { guild_id } => without_guild(m, guild_id),
        _ => m,
    }
}

/// Cache to hold webhooks, keyed by channel ids
#[derive(Debug)]
pub struct Cache {
    map: DashMap<u64, WebhookHandle>,
}

impl View for Cache {
    type V = Map<u64, WebhookHandle>;

    closed spec fn view(&self) -> Map<u64, WebhookHandle> {
        entries_of(self.map)
    }
}

impl Default for Cache {
    fn default() -> (r: Cache)
        ensures
            r@.dom() == Set::<u64>::empty(),
    {
        Cache::new()
    }
}

impl Cache {
    /// Creates a new, empty webhook cache
    ///
    /// # Invalidation warning
    /// Make sure you receive `ChannelDelete` and `GuildDelete` notifications
    /// and call [`Cache::update`] on them to remove inaccessible webhooks
    /// from the cache
    ///
    /// Also make sure you run [`Cache::validate`] on `WebhooksUpdate`
    /// notifications to remove manually deleted webhooks from the cache
    pub fn new() -> (r: Cache)
        ensures
            r@.dom() == Set::<u64>::empty(),
    {
        Cache { map: map_new() }
    }

    /// Returns the webhook cached for the given `channel_id`, if there is one
    pub fn get(&self, channel_id: u64) -> (r: Option<WebhookHandle>)
        ensures
            r == self@.get(channel_id),
    {
        map_get(&self.map, channel_id)
    }

    /// Caches a webhook that was just created, under its own channel,
    /// replacing whatever was cached for that channel
    pub fn create(&mut self, webhook: WebhookHandle)
        ensures
            final(self)@ == old(self)@.insert(webhook.channel_id, webhook),
    {
        let channel_id = webhook.channel_id;
        map_insert(&mut self.map, channel_id, webhook);
    }

    /// One step of getting the webhook of `channel_id`: from the cache if it
    /// is there, else the first webhook of the channel's listing that has a
    /// token, else a newly created one; what is found or created is cached
    ///
    /// Start with [`LookupEvent::Start`], do what the returned action says
    /// and report its outcome as the next event, until the action is `Done`
    /// or `Fail`. Listed webhooks without a token are skipped and never
    /// cached: when all of them lack one, a webhook is created. Errors are
    /// handed back unchanged and leave the cache as it is. Two lookups of one channel that both miss may both create a
    /// webhook; the one cached last stays.
    pub fn get_infallible(&mut self, channel_id: u64, event: LookupEvent) -> (r: LookupAction)
        ensures
            final(self)@ == lookup_step(old(self)@, channel_id, event).0,
            r == lookup_step(old(self)@, channel_id, event).1,
    {
        match event {
            LookupEvent::Start => match self.get(channel_id) {
                Some(w) => LookupAction::Done(w),
                None => LookupAction::List(channel_id),
            },
            LookupEvent::Listed(Ok(list)) => match first_usable_index(&list) {
                Some(i) => {
                    let w = list[i].clone();
                    map_insert(&mut self.map, channel_id, list[i].clone());
                    LookupAction::Done(w)
                },
                None => LookupAction::Create(channel_id),
            },
            LookupEvent::Listed(Err(e)) => LookupAction::Fail(e),
            LookupEvent::Created(Ok(w)) => {
                map_insert(&mut self.map, channel_id, w.clone());
                LookupAction::Done(w)
            },
            LookupEvent::Created(Err(e)) => LookupAction::Fail(e),
        }
    }

    /// One step of validating the entry of `channel_id` against the remote
    /// listing, which is needed because the gateway does not tell what
    /// changed about a channel's webhooks
    ///
    /// Nothing is listed when the channel has no entry. Otherwise the entry
    /// is evicted when none of the listed webhooks has a token, and kept
    /// when one does. Errors are handed back unchanged and leave the cache as
    /// it is.
    pub fn validate(&mut self, channel_id: u64, event: ValidateEvent) -> (r: ValidateAction)
        ensures
            final(self)@ == validate_step(old(self)@, channel_id, event).0,
            r == validate_step(old(self)@, channel_id, event).1,
    {
        match event {
            ValidateEvent::Start => if map_contains_key(&self.map, channel_id) {
                ValidateAction::List(channel_id)
            } else {
                ValidateAction::Done
            },
            ValidateEvent::Listed(Ok(list)) => {
                if first_usable_index(&list).is_none() {
                    map_remove(&mut self.map, channel_id);
                }
                ValidateAction::Done
            },
            ValidateEvent::Listed(Err(e)) => ValidateAction::Fail(e),
        }
    }

    /// Removes the cached webhooks of the notification's channel or guild if
    /// it is a `ChannelDelete` or `GuildDelete`, and does nothing otherwise
    pub fn update(&mut self, notification: &Notification)
        ensures
            final(self)@ == after_notification(old(self)@, *notification),
    {
        match notification {
            Notification::ChannelDelete { channel_id, .. } => {
                map_remove(&mut self.map, *channel_id);
            },
            Notification::GuildDelete { guild_id } => {
                map_retain_outside_guild(&mut self.map, *guild_id);
            },
            _ => {},
        }
    }
}

/// The position in `list` of the first webhook that has a token, if any does.
pub fn first_usable_index(list: &Vec<WebhookHandle>) -> (r: Option<usize>)
    ensures
        match r {
            Some(i) => i < list@.len() && first_usable(list@) == Some(list@[i as int]),
            None => first_usable(list@) is None,
        },
{
    let mut i: usize = 0;
    assert(list@.subrange(0, list@.len() as int) =~= list@);
    while i < list.len()
        invariant
            i <= list@.len(),
            first_usable(list@) == first_usable(list@.subrange(i as int, list@.len() as int)),
        decreases list@.len() - i,
    {
        let ghost rest = list@.subrange(i as int, list@.len() as int);
        if list[i].token.is_some() {
            return Some(i);
        }
        assert(rest.drop_first() =~= list@.subrange(i + 1, list@.len() as int));
        i = i + 1;
    }
    None
}

} // verus!
