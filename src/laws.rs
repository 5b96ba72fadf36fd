use vstd::prelude::*;

use crate::cache::{obtain_step, ActionView, EventView};
use crate::token::{
    declared_lifetime, entry_serves, expiry_of, fresh_entry, slot_serves, TokenEntryView,
    TokenError, REFRESH_SKEW,
};

verus! {

/// An in-memory entry that serves the request is handed out at once: the slot
/// is kept and neither the disk nor the endpoint is consulted.
pub proof fn lemma_memory_hit(mem: Option<TokenEntryView>, appid: Seq<char>, now: u64)
    requires
        slot_serves(mem, appid, now),
    ensures
        obtain_step(mem, appid, now, EventView::Begin) == (mem, ActionView::Deliver(mem->0.token)),
{
}

/// Validity needs strictly more than sixty seconds left: an entry expiring
/// exactly sixty seconds from now is refused, one expiring sixty-one seconds
/// from now is accepted.
pub proof fn lemma_expiry_boundary(e: TokenEntryView, now: u64)
    requires
        now + 61 <= u64::MAX,
    ensures
        e.expires_at == now + 60 ==> !entry_serves(e, e.appid, now),
        e.expires_at == now + 61 ==> entry_serves(e, e.appid, now),
{
}

/// With no serving entry in memory and a serving entry on disk, the request
/// reads the disk, hands out the disk token and promotes the entry; a later
/// request that the entry still serves is then answered from memory alone.
pub proof fn lemma_disk_promotion(
    mem: Option<TokenEntryView>,
    disk: TokenEntryView,
    appid: Seq<char>,
    now: u64,
    later: u64,
)
    requires
        !slot_serves(mem, appid, now),
        entry_serves(disk, appid, now),
        entry_serves(disk, appid, later),
    ensures
        obtain_step(mem, appid, now, EventView::Begin) == (mem, ActionView::ReadDisk),
        obtain_step(mem, appid, now, EventView::DiskRead(Some(disk))) == (
            Some(disk),
            ActionView::Deliver(disk.token),
        ),
        obtain_step(Some(disk), appid, later, EventView::Begin) == (
            Some(disk),
            ActionView::Deliver(disk.token),
        ),
{
}

/// An entry for one application never serves a request for another: with
/// such entries in memory and on disk, the request goes to the endpoint.
pub proof fn lemma_appid_mismatch_fetches(
    cached: TokenEntryView,
    disk: Option<TokenEntryView>,
    requested: Seq<char>,
    now: u64,
)
    requires
        cached.appid != requested,
        disk is Some ==> disk->0.appid != requested,
    ensures
        obtain_step(Some(cached), requested, now, EventView::Begin).1 == ActionView::ReadDisk,
        obtain_step(Some(cached), requested, now, EventView::DiskRead(disk)).1 == ActionView::Fetch,
{
}

/// A grant declaring a lifetime of 7200 seconds at time `t` expires at
/// `t + 7140`, in the slot and in what is written to disk; in general a
/// declared lifetime of at least the skew expires `REFRESH_SKEW` seconds
/// early, and a response without a lifetime counts as 7200 seconds.
pub proof fn lemma_refresh_skew(
    mem: Option<TokenEntryView>,
    appid: Seq<char>,
    token: Seq<char>,
    t: u64,
    lifetime: u64,
)
    requires
        t + 7140 <= u64::MAX,
    ensures
        declared_lifetime(Some(7200)) == 7200,
        declared_lifetime(None) == 7200,
        expiry_of(t, 7200) == t + 7140,
        obtain_step(mem, appid, t, EventView::Fetched(Ok((token, 7200)))).0 == Some(
            TokenEntryView { appid, token, expires_at: (t + 7140) as u64 },
        ),
        obtain_step(mem, appid, t, EventView::Fetched(Ok((token, 7200)))).1 == ActionView::Persist(
            TokenEntryView { appid, token, expires_at: (t + 7140) as u64 },
        ),
        lifetime >= REFRESH_SKEW && t + lifetime - REFRESH_SKEW <= u64::MAX ==> expiry_of(
            t,
            lifetime,
        ) == t + lifetime - REFRESH_SKEW,
{
}

/// A failed fetch reports its error and leaves the slot untouched, so no
/// entry for the failed request appears: a retry for the same application
/// again reads the disk and, finding nothing that serves it, fetches; a
/// successful fetch then fills the slot with exactly the new entry.
pub proof fn lemma_fetch_failure_keeps_cache(
    mem: Option<TokenEntryView>,
    disk: Option<TokenEntryView>,
    appid: Seq<char>,
    now: u64,
    err: TokenError,
    later: u64,
    token: Seq<char>,
    lifetime: u64,
)
    requires
        !slot_serves(mem, appid, later),
        !slot_serves(disk, appid, later),
    ensures
        obtain_step(mem, appid, now, EventView::Fetched(Err(err))) == (mem, ActionView::Fail(err)),
        obtain_step(mem, appid, later, EventView::Begin) == (mem, ActionView::ReadDisk),
        obtain_step(mem, appid, later, EventView::DiskRead(disk)) == (mem, ActionView::Fetch),
        obtain_step(mem, appid, later, EventView::Fetched(Ok((token, lifetime)))) == (
            Some(fresh_entry(appid, token, lifetime, later)),
            ActionView::Persist(fresh_entry(appid, token, lifetime, later)),
        ),
        fresh_entry(appid, token, lifetime, later).appid == appid,
        fresh_entry(appid, token, lifetime, later).token == token,
{
}

/// When the disk yields no entry (absent or unparsable file), the request
/// goes on to the endpoint and the slot is kept.
pub proof fn lemma_missing_disk_entry_fetches(
    mem: Option<TokenEntryView>,
    appid: Seq<char>,
    now: u64,
)
    ensures
        obtain_step(mem, appid, now, EventView::DiskRead(None)) == (mem, ActionView::Fetch),
{
}

} // verus!
