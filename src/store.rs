use vstd::prelude::*;

use dashmap::DashMap;

verus! {

/// A usable or unusable webhook, as the cache keeps it: only what the cache's
/// rules read.
#[derive(Debug, PartialEq, Eq)]
pub struct WebhookHandle {
    /// The webhook's own id
    pub id: u64,
    /// The channel the webhook posts into
    pub channel_id: u64,
    /// The guild of that channel, absent for channel-only webhooks
    pub guild_id: Option<u64>,
    /// The secret needed to execute the webhook, absent when it cannot be used
    pub token: Option<String>,
}

impl Clone for WebhookHandle {
    fn clone(&self) -> (r: WebhookHandle)
        ensures
            r == *self,
    {
        let token = match &self.token {
            Some(t) => Some(t.clone()),
            None => None,
        };
        WebhookHandle { id: self.id, channel_id: self.channel_id, guild_id: self.guild_id, token }
    }
}

#[verifier::external_type_specification]
#[verifier::external_body]
#[verifier::reject_recursive_types(K)]
#[verifier::reject_recursive_types(V)]
#[verifier::reject_recursive_types(S)]
pub struct ExDashMap<K, V, S>(DashMap<K, V, S>);

/// What a map of webhooks holds: one handle per channel id.
pub uninterp spec fn entries_of(m: DashMap<u64, WebhookHandle>) -> Map<u64, WebhookHandle>;

/// Relies on `DashMap::new`: the map starts empty.
#[verifier::external_body]
pub(crate) fn map_new() -> (r: DashMap<u64, WebhookHandle>)
    ensures
        entries_of(r).dom() == Set::<u64>::empty(),
{
    DashMap::new()
}

/// The entries of `m` whose handle does not name guild `guild_id`: what is
/// left once that guild is gone.
pub open spec fn without_guild(m: Map<u64, WebhookHandle>, guild_id: u64) -> Map<u64, WebhookHandle> {
    Map::new(|k: u64| m.contains_key(k) && m[k].guild_id != Some(guild_id), |k: u64| m[k])
}

/// Whether an entry holding `webhook` survives the removal of guild
/// `guild_id`.
pub fn outside_guild(webhook: &WebhookHandle, guild_id: u64) -> (r: bool)
    ensures
        r == (webhook.guild_id != Some(guild_id)),
{
    match webhook.guild_id {
        Some(g) => g != guild_id,
        None => true,
    }
}

/// Relies on `DashMap::get`: the entry under `channel_id`, if there is one,
/// handed out as a copy of the stored handle.
#[verifier::external_body]
pub(crate) fn map_get(m: &DashMap<u64, WebhookHandle>, channel_id: u64) -> (r: Option<WebhookHandle>)
    ensures
        r == entries_of(*m).get(channel_id),
{
    m.get(&channel_id).map(|entry| entry.value().clone())
}

/// Relies on `DashMap::contains_key`: whether an entry is stored under
/// `channel_id`.
#[verifier::external_body]
pub(crate) fn map_contains_key(m: &DashMap<u64, WebhookHandle>, channel_id: u64) -> (r: bool)
    ensures
        r == entries_of(*m).contains_key(channel_id),
{
    m.contains_key(&channel_id)
}

/// Relies on `DashMap::insert`: the entry under `channel_id` becomes
/// `webhook`, whatever was there before; no other entry changes.
#[verifier::external_body]
pub(crate) fn map_insert(m: &mut DashMap<u64, WebhookHandle>, channel_id: u64, webhook: WebhookHandle)
    ensures
        entries_of(*final(m)) == entries_of(*old(m)).insert(channel_id, webhook),
{
    m.insert(channel_id, webhook);
}

/// Relies on `DashMap::remove`: the entry under `channel_id` goes, if there
/// is one; no other entry changes.
#[verifier::external_body]
pub(crate) fn map_remove(m: &mut DashMap<u64, WebhookHandle>, channel_id: u64)
    ensures
        entries_of(*final(m)) == entries_of(*old(m)).remove(channel_id),
{
    m.remove(&channel_id);
}

/// Relies on `DashMap::retain`: exactly the entries for which the predicate
/// holds stay, unchanged; here the predicate is `outside_guild`.
#[verifier::external_body]
pub(crate) fn map_retain_outside_guild(m: &mut DashMap<u64, WebhookHandle>, guild_id: u64)
    ensures
        entries_of(*final(m)) == without_guild(entries_of(*old(m)), guild_id),
{
    m.retain(|_, webhook| outside_guild(webhook, guild_id));
}

} // verus!
