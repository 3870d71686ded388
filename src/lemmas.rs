use vstd::prelude::*;

use crate::cache::{
    after_notification, first_usable, lookup_step, validate_step, LookupAction, LookupEvent,
    Notification, ValidateAction, ValidateEvent,
};
use crate::store::WebhookHandle;

verus! {

/// A listing has a first usable webhook exactly when one of its webhooks
/// has a token.
pub proof fn lemma_first_usable_exists(list: Seq<WebhookHandle>)
    ensures
        first_usable(list) is Some <==> exists|i: int| 0 <= i < list.len() && (#[trigger] list[i]).token is Some,
    decreases list.len(),
{
    if list.len() > 0 {
        lemma_first_usable_exists(list.drop_first());
        if first_usable(list.drop_first()) is Some {
            let i = choose|i: int| 0 <= i < list.drop_first().len() && (#[trigger] list.drop_first()[i]).token is Some;
            assert(list[i + 1] == list.drop_first()[i]);
        }
        if exists|i: int| 0 <= i < list.len() && (#[trigger] list[i]).token is Some {
            let i = choose|i: int| 0 <= i < list.len() && (#[trigger] list[i]).token is Some;
            if i > 0 {
                assert(list.drop_first()[i - 1] == list[i]);
            }
        }
    }
}

/// A channel that no step puts into the cache stays out of it: evictions,
/// validations, lookups of other channels and creations in other channels
/// never add it, so `get` keeps returning nothing for it (a new cache holds
/// no channel at all).
pub proof fn lemma_untouched_channel_absent(m: Map<u64, WebhookHandle>, channel_id: u64)
    requires
        !m.contains_key(channel_id),
    ensures
        forall|n: Notification| !(#[trigger] after_notification(m, n)).contains_key(channel_id),
        forall|c: u64, event: ValidateEvent|
            !(#[trigger] validate_step(m, c, event)).0.contains_key(channel_id),
        forall|c: u64, event: LookupEvent|
            c != channel_id ==> !(#[trigger] lookup_step(m, c, event)).0.contains_key(channel_id),
        forall|w: WebhookHandle|
            w.channel_id != channel_id ==> !(#[trigger] m.insert(w.channel_id, w)).contains_key(channel_id),
{
}

/// Once a creation is cached, or a lookup of a channel ends with a webhook,
/// `get` on that channel returns that very webhook (and keeps returning it,
/// since `get` does not change the cache).
pub proof fn lemma_success_is_cached(m: Map<u64, WebhookHandle>, channel_id: u64, event: LookupEvent, w: WebhookHandle)
    ensures
        m.insert(w.channel_id, w).get(w.channel_id) == Some(w),
        lookup_step(m, channel_id, event).1 == LookupAction::Done(w) ==> lookup_step(
            m,
            channel_id,
            event,
        ).0.get(channel_id) == Some(w),
{
}

/// A channel deletion evicts that channel's entry and leaves every other
/// entry as it was.
pub proof fn lemma_channel_delete_evicts(m: Map<u64, WebhookHandle>, channel_id: u64, guild_id: Option<u64>)
    ensures
        after_notification(m, Notification::ChannelDelete { channel_id, guild_id }).get(channel_id) is None,
        forall|c: u64|
            c != channel_id ==> (#[trigger] after_notification(
                m,
                Notification::ChannelDelete { channel_id, guild_id },
            ).get(c)) == m.get(c),
{
}

/// A guild deletion evicts exactly the entries whose webhook names that
/// guild; entries of other guilds, or of none, are left as they were.
pub proof fn lemma_guild_delete_evicts(m: Map<u64, WebhookHandle>, guild_id: u64)
    ensures
        forall|c: u64|
            (#[trigger] after_notification(m, Notification::GuildDelete { guild_id }).get(c)) == if m.contains_key(c)
                && m[c].guild_id == Some(guild_id) {
                None
            } else {
                m.get(c)
            },
{
}

/// Validating a channel that has no entry lists nothing and changes
/// nothing.
pub proof fn lemma_validate_uncached(m: Map<u64, WebhookHandle>, channel_id: u64)
    requires
        !m.contains_key(channel_id),
    ensures
        validate_step(m, channel_id, ValidateEvent::Start) == (m, ValidateAction::Done),
        forall|event: ValidateEvent| (#[trigger] validate_step(m, channel_id, event)).0 == m,
{
    assert(m.remove(channel_id) =~= m);
}

/// Validating a cached channel evicts its entry when the listing has no
/// webhook with a token, and leaves the cache as it was when it has one.
pub proof fn lemma_validate_cached(m: Map<u64, WebhookHandle>, channel_id: u64, list: Vec<WebhookHandle>)
    requires
        m.contains_key(channel_id),
    ensures
        validate_step(m, channel_id, ValidateEvent::Start) == (m, ValidateAction::List(channel_id)),
        (forall|i: int| 0 <= i < list@.len() ==> (#[trigger] list@[i]).token is None) ==> validate_step(
            m,
            channel_id,
            ValidateEvent::Listed(Ok(list)),
        ) == (m.remove(channel_id), ValidateAction::Done),
        (exists|i: int| 0 <= i < list@.len() && (#[trigger] list@[i]).token is Some) ==> validate_step(
            m,
            channel_id,
            ValidateEvent::Listed(Ok(list)),
        ) == (m, ValidateAction::Done),
{
    lemma_first_usable_exists(list@);
}

} // verus!
