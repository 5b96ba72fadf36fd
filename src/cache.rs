use vstd::prelude::*;

use crate::token::{
    entry_serves, expires_at_for, fresh_entry, opt_entry_view, slot_serves, TokenEntry,
    TokenEntryView, TokenError, TokenGrant,
};

verus! {

/// What happened since the cache last decided: a request for a token begins,
/// the on-disk entry was read (`None` when the file is absent or unreadable),
/// or the token endpoint answered.
pub enum ObtainEvent {
    Begin,
    DiskRead(Option<TokenEntry>),
    Fetched(Result<TokenGrant, TokenError>),
}

/// What the caller does next: hand out the token, read the on-disk entry,
/// ask the token endpoint, write the new entry to disk and then hand out its
/// token (a failed write is ignored), or report the error.
pub enum ObtainAction {
    Deliver(String),
    ReadDisk,
    Fetch,
    Persist(TokenEntry),
    Fail(TokenError),
}

pub ghost enum EventView {
    Begin,
    DiskRead(Option<TokenEntryView>),
    Fetched(Result<(Seq<char>, u64), TokenError>),
}

pub ghost enum ActionView {
    Deliver(Seq<char>),
    ReadDisk,
    Fetch,
    Persist(TokenEntryView),
    Fail(TokenError),
}

impl View for ObtainEvent {
    type V = EventView;

    open spec fn view(&self) -> EventView {
        match self {
            ObtainEvent::Begin => EventView::Begin,
            ObtainEvent::DiskRead(d) => EventView::DiskRead(opt_entry_view(*d)),
            ObtainEvent::Fetched(Ok(g)) => EventView::Fetched(Ok((g.token@, g.lifetime))),
            ObtainEvent::Fetched(Err(e)) => EventView::Fetched(Err(*e)),
        }
    }
}

impl View for ObtainAction {
    type V = ActionView;

    open spec fn view(&self) -> ActionView {
        match self {
            ObtainAction::Deliver(t) => ActionView::Deliver(t@),
            ObtainAction::ReadDisk => ActionView::ReadDisk,
            ObtainAction::Fetch => ActionView::Fetch,
            ObtainAction::Persist(e) => ActionView::Persist(e@),
            ObtainAction::Fail(e) => ActionView::Fail(*e),
        }
    }
}

/// One decision of the cache: from the in-memory slot `mem`, the requested
/// `appid`, the time `now` and the event, the next in-memory slot and action.
/// A request is served from memory when the slot serves it, else the disk is
/// read; a disk entry that serves it is promoted into memory, else the endpoint
/// is asked; a grant replaces the slot wholesale, an error leaves it as it was.
pub open spec fn obtain_step(
    mem: Option<TokenEntryView>,
    appid: Seq<char>,
    now: u64,
    event: EventView,
) -> (Option<TokenEntryView>, ActionView) {
    match event {
        EventView::Begin => if slot_serves(mem, appid, now) {
            (mem, ActionView::Deliver(mem->0.token))
        } else {
            (mem, ActionView::ReadDisk)
        },
        EventView::DiskRead(disk) => if slot_serves(disk, appid, now) {
            (disk, ActionView::Deliver(disk->0.token))
        } else {
            (mem, ActionView::Fetch)
        },
        EventView::Fetched(Ok((token, lifetime))) => {
            let e = fresh_entry(appid, token, lifetime, now);
            (Some(e), ActionView::Persist(e))
        },
        EventView::Fetched(Err(err)) => (mem, ActionView::Fail(err)),
    }
}

/// The single-slot in-memory tier of the token cache.
pub struct TokenCache {
    entry: Option<TokenEntry>,
}

impl View for TokenCache {
    type V = Option<TokenEntryView>;

    closed spec fn view(&self) -> Option<TokenEntryView> {
        opt_entry_view(self.entry)
    }
}

impl TokenCache {
    /// An empty cache.
    pub fn new() -> (r: TokenCache)
        ensures
            r@ is None,
    {
        TokenCache { entry: None }
    }

    /// A cache whose slot holds `entry`.
    pub fn with_entry(entry: Option<TokenEntry>) -> (r: TokenCache)
        ensures
            r@ == opt_entry_view(entry),
    {
        TokenCache { entry }
    }

    /// A copy of the entry in the slot.
    pub fn entry(&self) -> (r: Option<TokenEntry>)
        ensures
            opt_entry_view(r) == self@,
    {
        match &self.entry {
            Some(e) => Some(e.duplicate()),
            None => None,
        }
    }

    /// The cached token for `appid` at `now`, if the slot serves it.
    pub fn lookup(&self, appid: &String, now: u64) -> (r: Option<String>)
        ensures
            r is Some <==> slot_serves(self@, appid@, now),
            r is Some ==> r->0@ == self@->0.token,
    {
        match &self.entry {
            Some(e) => if e.serves(appid, now) {
                Some(e.token.clone())
            } else {
                None
            },
            None => None,
        }
    }

    /// Takes `disk` into the slot and returns its token when it serves `appid`
    /// at `now`; otherwise leaves the slot as it was and returns `None`.
    pub fn promote(&mut self, disk: Option<TokenEntry>, appid: &String, now: u64) -> (r: Option<
        String,
    >)
        ensures
            r is Some <==> slot_serves(opt_entry_view(disk), appid@, now),
            r is Some ==> final(self)@ == opt_entry_view(disk) && r->0@ == disk->0.token@,
            r is None ==> final(self)@ == old(self)@,
    {
        match disk {
            Some(d) => if d.serves(appid, now) {
                let token = d.token.clone();
                self.entry = Some(d);
                Some(token)
            } else {
                None
            },
            None => None,
        }
    }

    /// Replaces the slot wholesale with the entry for `grant` to `appid` at
    /// `now`, and returns a copy of that entry.
    pub fn install(&mut self, appid: &String, grant: TokenGrant, now: u64) -> (r: TokenEntry)
        ensures
            r@ == fresh_entry(appid@, grant.token@, grant.lifetime, now),
            final(self)@ == Some(r@),
    {
        let e = TokenEntry {
            appid: appid.clone(),
            token: grant.token,
            expires_at: expires_at_for(now, grant.lifetime),
        };
        let r = e.duplicate();
        self.entry = Some(e);
        r
    }

    /// Takes one decision for a request of a token for `appid` at `now`.
    pub fn step(&mut self, appid: &String, now: u64, event: ObtainEvent) -> (r: ObtainAction)
        ensures
            (final(self)@, r@) == obtain_step(old(self)@, appid@, now, event@),
    {
        match event {
            ObtainEvent::Begin => match self.lookup(appid, now) {
                Some(t) => ObtainAction::Deliver(t),
                None => ObtainAction::ReadDisk,
            },
            ObtainEvent::DiskRead(disk) => match self.promote(disk, appid, now) {
                Some(t) => ObtainAction::Deliver(t),
                None => ObtainAction::Fetch,
            },
            ObtainEvent::Fetched(Ok(grant)) => ObtainAction::Persist(self.install(appid, grant, now)),
            ObtainEvent::Fetched(Err(err)) => ObtainAction::Fail(err),
        }
    }
}

} // verus!
