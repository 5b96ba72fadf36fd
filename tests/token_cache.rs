use tata_tool::cache::{ObtainAction, ObtainEvent, TokenCache};
use tata_tool::token::{
    classify_token_response, expires_at_for, TokenEntry, TokenError, DEFAULT_LIFETIME,
};

struct World {
    disk: Option<TokenEntry>,
    disk_reads: u32,
    fetches: u32,
    answer: (Option<String>, Option<u64>, Option<String>),
}

impl World {
    fn new(token: &str, expires_in: u64) -> World {
        World {
            disk: None,
            disk_reads: 0,
            fetches: 0,
            answer: (Some(token.to_string()), Some(expires_in), None),
        }
    }
}

fn entry(appid: &str, token: &str, expires_at: u64) -> TokenEntry {
    TokenEntry { appid: appid.to_string(), token: token.to_string(), expires_at }
}

fn obtain(cache: &mut TokenCache, w: &mut World, appid: &str, now: u64) -> Result<String, TokenError> {
    let appid = appid.to_string();
    let mut action = cache.step(&appid, now, ObtainEvent::Begin);
    loop {
        action = match action {
            ObtainAction::Deliver(t) => return Ok(t),
            ObtainAction::ReadDisk => {
                w.disk_reads += 1;
                let d = w.disk.as_ref().map(|e| e.duplicate());
                cache.step(&appid, now, ObtainEvent::DiskRead(d))
            }
            ObtainAction::Fetch => {
                w.fetches += 1;
                let (t, e, m) = w.answer.clone();
                cache.step(&appid, now, ObtainEvent::Fetched(classify_token_response(t, e, m)))
            }
            ObtainAction::Persist(e) => {
                let t = e.token.clone();
                w.disk = Some(e);
                return Ok(t);
            }
            ObtainAction::Fail(e) => return Err(e),
        };
    }
}

fn slot(cache: &TokenCache) -> (String, String, u64) {
    let e = cache.entry().expect("slot holds an entry");
    (e.appid, e.token, e.expires_at)
}

#[test]
fn memory_hit_skips_fetch_and_disk() {
    let mut cache = TokenCache::with_entry(Some(entry("A", "cached", 5000)));
    let mut w = World::new("fresh", 7200);
    assert_eq!(obtain(&mut cache, &mut w, "A", 1000).ok(), Some("cached".to_string()));
    assert_eq!(w.fetches, 0);
    assert_eq!(w.disk_reads, 0);
}

#[test]
fn expiry_boundary_is_strict() {
    let now: u64 = 1000;
    assert!(!entry("A", "t", now + 60).serves(&"A".to_string(), now));
    assert!(entry("A", "t", now + 61).serves(&"A".to_string(), now));
    let mut cache = TokenCache::with_entry(Some(entry("A", "old", now + 60)));
    let mut w = World::new("new", 7200);
    assert_eq!(obtain(&mut cache, &mut w, "A", now).ok(), Some("new".to_string()));
    assert_eq!(w.fetches, 1);
}

#[test]
fn expiry_check_near_largest_time() {
    let now = u64::MAX - 10;
    assert!(!entry("A", "t", u64::MAX).serves(&"A".to_string(), now));
}

#[test]
fn disk_entry_is_promoted() {
    let mut cache = TokenCache::new();
    let mut w = World::new("fresh", 7200);
    w.disk = Some(entry("A", "disk", 9000));
    assert_eq!(obtain(&mut cache, &mut w, "A", 1000).ok(), Some("disk".to_string()));
    assert_eq!(w.disk_reads, 1);
    assert_eq!(slot(&cache), ("A".to_string(), "disk".to_string(), 9000));
    assert_eq!(obtain(&mut cache, &mut w, "A", 2000).ok(), Some("disk".to_string()));
    assert_eq!(w.disk_reads, 1);
    assert_eq!(w.fetches, 0);
}

#[test]
fn appid_mismatch_forces_fetch() {
    let mut cache = TokenCache::with_entry(Some(entry("A", "tokA", 9000)));
    let mut w = World::new("tokB", 7200);
    w.disk = Some(entry("A", "tokA", 9000));
    assert_eq!(obtain(&mut cache, &mut w, "B", 1000).ok(), Some("tokB".to_string()));
    assert_eq!(w.fetches, 1);
    assert_eq!(slot(&cache), ("B".to_string(), "tokB".to_string(), 8140));
}

#[test]
fn refresh_skew_arithmetic() {
    assert_eq!(expires_at_for(5000, 7200), 12140);
    assert_eq!(expires_at_for(5000, 30), 5000);
    assert_eq!(expires_at_for(u64::MAX - 5, 7200), u64::MAX);
    let mut cache = TokenCache::new();
    let mut w = World::new("t", 7200);
    obtain(&mut cache, &mut w, "A", 5000).ok();
    assert_eq!(slot(&cache).2, 12140);
    assert_eq!(w.disk.as_ref().map(|e| e.expires_at), Some(12140));
}

#[test]
fn fetch_failure_leaves_cache_unchanged() {
    let mut cache = TokenCache::with_entry(Some(entry("A", "stale", 500)));
    let mut w = World::new("x", 7200);
    w.answer = (None, None, Some("invalid appsecret".to_string()));
    let err = obtain(&mut cache, &mut w, "B", 1000).err().expect("fetch fails");
    assert_eq!(err.message(), "获取 token 失败: invalid appsecret");
    assert_eq!(slot(&cache), ("A".to_string(), "stale".to_string(), 500));
    assert!(w.disk.is_none());
    w.answer = (Some("good".to_string()), Some(7200), None);
    assert_eq!(obtain(&mut cache, &mut w, "B", 1000).ok(), Some("good".to_string()));
    assert_eq!(slot(&cache), ("B".to_string(), "good".to_string(), 8140));
}

#[test]
fn missing_disk_entry_fetches() {
    let mut cache = TokenCache::new();
    let a = "A".to_string();
    assert!(matches!(cache.step(&a, 10, ObtainEvent::Begin), ObtainAction::ReadDisk));
    assert!(matches!(cache.step(&a, 10, ObtainEvent::DiskRead(None)), ObtainAction::Fetch));
    assert!(cache.entry().is_none());
}

#[test]
fn concrete_scenario() {
    let mut cache = TokenCache::new();
    let mut w = World::new("tokA", 7200);
    assert_eq!(obtain(&mut cache, &mut w, "wx123", 1000).ok(), Some("tokA".to_string()));
    assert_eq!(slot(&cache), ("wx123".to_string(), "tokA".to_string(), 8140));
    assert_eq!(w.fetches, 1);
    assert_eq!(obtain(&mut cache, &mut w, "wx123", 8000).ok(), Some("tokA".to_string()));
    assert_eq!(w.fetches, 1);
    w.answer = (Some("tokB".to_string()), Some(7200), None);
    assert_eq!(obtain(&mut cache, &mut w, "wx123", 8100).ok(), Some("tokB".to_string()));
    assert_eq!(w.fetches, 2);
}

#[test]
fn classify_defaults_and_errors() {
    let g = classify_token_response(Some("t".to_string()), None, None).ok().unwrap();
    assert_eq!(g.token, "t");
    assert_eq!(g.lifetime, DEFAULT_LIFETIME);
    let g = classify_token_response(Some("t".to_string()), Some(300), Some("x".to_string()))
        .ok()
        .unwrap();
    assert_eq!(g.lifetime, 300);
    let e = classify_token_response(None, Some(300), None).err().unwrap();
    assert!(matches!(&e, TokenError::Credential(m) if m == "未知错误"));
    assert_eq!(e.message(), "获取 token 失败: 未知错误");
}

#[test]
fn error_messages_name_the_stage() {
    assert_eq!(
        TokenError::Transport("timeout".to_string()).message(),
        "请求 token 失败: timeout"
    );
    assert_eq!(
        TokenError::Protocol("eof".to_string()).message(),
        "解析 token 响应失败: eof"
    );
    assert_eq!(
        TokenError::ResponseRead("reset".to_string()).message(),
        "读取 token 响应失败: reset"
    );
}
