use vstd::prelude::*;
use vstd::string::StringExecFns;

verus! {

/// Seconds of lifetime an entry must still have to be handed out.
pub const MIN_REMAINING: u64 = 60;

/// Seconds taken off the lifetime the server declares, so that a token is
/// renewed before it really runs out.
pub const REFRESH_SKEW: u64 = 60;

/// Lifetime assumed when the server does not declare one.
pub const DEFAULT_LIFETIME: u64 = 7200;

/// One cached credential: the application it belongs to, the bearer value and
/// the instant (unix seconds) after which it is no longer used.
pub struct TokenEntry {
    pub appid: String,
    pub token: String,
    pub expires_at: u64,
}

pub ghost struct TokenEntryView {
    pub appid: Seq<char>,
    pub token: Seq<char>,
    pub expires_at: u64,
}

impl View for TokenEntry {
    type V = TokenEntryView;

    open spec fn view(&self) -> TokenEntryView {
        TokenEntryView { appid: self.appid@, token: self.token@, expires_at: self.expires_at }
    }
}

/// What the token endpoint granted: the bearer value and its declared lifetime.
pub struct TokenGrant {
    pub token: String,
    pub lifetime: u64,
}

/// Why no token could be obtained.
pub enum TokenError {
    /// The endpoint could not be reached.
    Transport(String),
    /// The endpoint was reached but its answer could not be read.
    ResponseRead(String),
    /// The endpoint answered with something that is not a token response.
    Protocol(String),
    /// The platform declined to issue a token; carries its message.
    Credential(String),
}

pub open spec fn opt_entry_view(o: Option<TokenEntry>) -> Option<TokenEntryView> {
    match o {
        Some(e) => Some(e@),
        None => None,
    }
}

/// An entry serves `appid` at `now` when it was issued for that application and
/// has strictly more than `MIN_REMAINING` seconds left.
pub open spec fn entry_serves(e: TokenEntryView, appid: Seq<char>, now: u64) -> bool {
    e.appid == appid && e.expires_at > now + MIN_REMAINING
}

/// A slot (memory or disk) holds an entry that serves `appid` at `now`.
pub open spec fn slot_serves(s: Option<TokenEntryView>, appid: Seq<char>, now: u64) -> bool {
    s is Some && entry_serves(s->0, appid, now)
}

/// Expiry instant of a token granted at `now` with the declared `lifetime`:
/// `now + max(0, lifetime - REFRESH_SKEW)`, saturated at the largest `u64`.
pub open spec fn expiry_of(now: u64, lifetime: u64) -> u64 {
    let remaining: int = if lifetime > REFRESH_SKEW { lifetime - REFRESH_SKEW } else { 0 };
    if now + remaining > u64::MAX { u64::MAX } else { (now + remaining) as u64 }
}

/// The entry recorded for a grant of `token` with `lifetime` to `appid` at `now`.
pub open spec fn fresh_entry(appid: Seq<char>, token: Seq<char>, lifetime: u64, now: u64) -> TokenEntryView {
    TokenEntryView { appid, token, expires_at: expiry_of(now, lifetime) }
}

impl TokenEntry {
    /// Whether this entry may be handed out for `appid` at `now`.
    pub fn serves(&self, appid: &String, now: u64) -> (r: bool)
        ensures
            r == entry_serves(self@, appid@, now),
    {
        self.appid == *appid && now <= u64::MAX - MIN_REMAINING && self.expires_at > now + MIN_REMAINING
    }

    /// A copy of this entry.
    pub fn duplicate(&self) -> (r: TokenEntry)
        ensures
            r@ == self@,
    {
        TokenEntry { appid: self.appid.clone(), token: self.token.clone(), expires_at: self.expires_at }
    }
}

/// Expiry instant of a token granted at `now` with the declared `lifetime`.
pub fn expires_at_for(now: u64, lifetime: u64) -> (r: u64)
    ensures
        r == expiry_of(now, lifetime),
{
    now.saturating_add(lifetime.saturating_sub(REFRESH_SKEW))
}

/// The lifetime a token response declares, `DEFAULT_LIFETIME` when it declares none.
pub open spec fn declared_lifetime(expires_in: Option<u64>) -> u64 {
    match expires_in {
        Some(n) => n,
        None => DEFAULT_LIFETIME,
    }
}

/// Classifies the fields of a token response: a grant when `access_token` is
/// present, otherwise a credential error carrying `errmsg`, or
/// `"未知错误"` when the platform gave no message.
pub fn classify_token_response(
    access_token: Option<String>,
    expires_in: Option<u64>,
    errmsg: Option<String>,
) -> (r: Result<TokenGrant, TokenError>)
    ensures
        r is Ok <==> access_token is Some,
        r is Ok ==> r->Ok_0.token == access_token->0 && r->Ok_0.lifetime == declared_lifetime(
            expires_in,
        ),
        r is Err && errmsg is Some ==> r->Err_0 == TokenError::Credential(errmsg->0),
        r is Err && errmsg is None ==> r->Err_0 is Credential && r->Err_0->Credential_0@
            == "未知错误"@,
{
    match access_token {
        Some(token) => {
            let lifetime = match expires_in {
                Some(n) => n,
                None => DEFAULT_LIFETIME,
            };
            Ok(TokenGrant { token, lifetime })
        },
        None => match errmsg {
            Some(m) => Err(TokenError::Credential(m)),
            None => Err(TokenError::Credential("未知错误".to_string())),
        },
    }
}

/// The text shown to the caller for an error: a prefix naming the stage that
/// failed, then the underlying cause or the platform's message.
pub open spec fn error_text(e: TokenError) -> Seq<char> {
    match e {
        TokenError::Transport(c) => "请求 token 失败: "@ + c@,
        TokenError::ResponseRead(c) => "读取 token 响应失败: "@ + c@,
        TokenError::Protocol(c) => "解析 token 响应失败: "@ + c@,
        TokenError::Credential(m) => "获取 token 失败: "@ + m@,
    }
}

impl TokenError {
    /// The descriptive text of this error.
    pub fn message(&self) -> (r: String)
        ensures
            r@ == error_text(*self),
    {
        match self {
            TokenError::Transport(c) => String::from_str("请求 token 失败: ").concat(c.as_str()),
            TokenError::ResponseRead(c) => String::from_str("读取 token 响应失败: ").concat(
                c.as_str(),
            ),
            TokenError::Protocol(c) => String::from_str("解析 token 响应失败: ").concat(c.as_str()),
            TokenError::Credential(m) => String::from_str("获取 token 失败: ").concat(m.as_str()),
        }
    }
}

} // verus!
