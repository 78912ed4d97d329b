//! The token registry: one hub per token, looked up by the token's value and
//! usable while the token is valid.
use vstd::prelude::*;
use crate::error::ApiError;
use crate::keyed::KeyedTable;
use crate::clock::is_url_safe_char;
use crate::token::{expiry_for, Token, TokenResponse, TokenValidateResponse, TOKEN_LEN};
use crate::text::owned;

verus! {

/// What the registry keeps for a token: its expiry and its hub.
pub struct TokenEntry<H> {
    pub expires_at: i64,
    pub hub: H,
}

/// One line of the registry's status report.
#[derive(Clone, Debug)]
pub struct TokenInfo {
    pub token: String,
    pub expires_at: i64,
    pub sessions: usize,
    pub is_valid: bool,
}

/// Totals over the whole registry.
#[derive(Clone, Copy, Debug)]
pub struct StatusSummary {
    pub total_tokens: usize,
    pub valid_tokens: usize,
    pub total_sessions: usize,
}

/// The registry's status report.
#[derive(Clone, Debug)]
pub struct StatusResponse {
    pub tokens: Vec<TokenInfo>,
    pub summary: StatusSummary,
}

/// How many of the reported tokens are valid.
pub open spec fn count_valid(infos: Seq<TokenInfo>) -> nat
    decreases infos.len(),
{
    if infos.len() == 0 {
        0
    } else {
        count_valid(infos.drop_last()) + if infos.last().is_valid { 1nat } else { 0nat }
    }
}

/// The sum of a list of session counts.
pub open spec fn sum_counts(counts: Seq<usize>) -> nat
    decreases counts.len(),
{
    if counts.len() == 0 {
        0
    } else {
        sum_counts(counts.drop_last()) + counts.last() as nat
    }
}

/// The sessions of the reported tokens, in all.
pub open spec fn sum_sessions(infos: Seq<TokenInfo>) -> nat
    decreases infos.len(),
{
    if infos.len() == 0 {
        0
    } else {
        sum_sessions(infos.drop_last()) + infos.last().sessions as nat
    }
}

proof fn lemma_sum_counts_prefix(counts: Seq<usize>, i: int)
    requires
        0 <= i <= counts.len(),
    ensures
        sum_counts(counts.subrange(0, i)) <= sum_counts(counts),
    decreases counts.len() - i,
{
    if i < counts.len() {
        lemma_sum_counts_prefix(counts, i + 1);
        assert(counts.subrange(0, i + 1).drop_last() =~= counts.subrange(0, i));
    } else {
        assert(counts.subrange(0, i) =~= counts);
    }
}

/// Tokens and their hubs. A token's hub stays as long as the registry does;
/// expiry only stops new use of it.
pub struct TokenRegistry<H> {
    pub tokens: KeyedTable<TokenEntry<H>>,
}

impl<H> TokenRegistry<H> {
    pub open spec fn wf(&self) -> bool {
        self.tokens.wf()
    }

    /// The registry as a map from token values to entries.
    pub open spec fn view(&self) -> Map<Seq<char>, TokenEntry<H>> {
        self.tokens.view()
    }

    /// `value` names a token of this registry that is valid at `now`.
    pub open spec fn valid_token(&self, value: Seq<char>, now: i64) -> bool {
        self.view().contains_key(value) && now < self.view()[value].expires_at
    }

    /// A registry with no token.
    pub fn new() -> (r: Self)
        ensures
            r.wf(),
            r.view() == Map::<Seq<char>, TokenEntry<H>>::empty(),
    {
        TokenRegistry { tokens: KeyedTable::new() }
    }

    /// Stores `hub` as the hub of `token`.
    pub fn add(&mut self, token: &Token, hub: H)
        requires
            old(self).wf(),
        ensures
            final(self).wf(),
            final(self).view() == old(self).view().insert(
                token.value@,
                (TokenEntry { expires_at: token.expires_at, hub }),
            ),
    {
        self.tokens.insert(token.value.clone(), TokenEntry { expires_at: token.expires_at, hub });
    }

    /// Creates a fresh token that owns `hub`, and returns it.
    pub fn create_token(&mut self, hub: H) -> (r: Token)
        requires
            old(self).wf(),
        ensures
            r.value@.len() == TOKEN_LEN,
            forall|i: int| 0 <= i < r.value@.len() ==> is_url_safe_char(#[trigger] r.value@[i]),
            exists|issued_at: i64| r.expires_at == expiry_for(issued_at),
            final(self).wf(),
            final(self).view() == old(self).view().insert(
                r.value@,
                (TokenEntry { expires_at: r.expires_at, hub }),
            ),
    {
        let token = Token::generate();
        self.add(&token, hub);
        token
    }

    /// Creates a fresh token that owns `hub` and returns what the creation
    /// endpoint answers: the token, its expiry, the address of the producer
    /// endpoint `ws_path` on `host` with the token, and the connect command
    /// ending in `command_tail`.
    pub fn issue_token(&mut self, hub: H, host: &str, ws_path: &str, command_tail: &str) -> (r: TokenResponse)
        requires
            old(self).wf(),
        ensures
            r.token@.len() == TOKEN_LEN,
            forall|i: int| 0 <= i < r.token@.len() ==> is_url_safe_char(#[trigger] r.token@[i]),
            exists|issued_at: i64| r.expires_at == expiry_for(issued_at),
            final(self).wf(),
            final(self).view() == old(self).view().insert(
                r.token@,
                (TokenEntry { expires_at: r.expires_at, hub }),
            ),
            (r.ws_url@, r.command_hint@) == spec_token_response_text(host@, r.token@, ws_path@, command_tail@),
    {
        let token = self.create_token(hub);
        token_response(host, &token, ws_path, command_tail)
    }

    /// Whether `value` is a valid token at `now`, with its expiry when it is.
    pub fn validate(&self, value: &str, now: i64) -> (r: TokenValidateResponse)
        requires
            self.wf(),
        ensures
            r.valid == self.valid_token(value@, now),
            r.expires_at == if r.valid { Some(self.view()[value@].expires_at) } else { None::<i64> },
    {
        match self.tokens.get(value) {
            Some(e) => {
                if now < e.expires_at {
                    TokenValidateResponse { valid: true, expires_at: Some(e.expires_at) }
                } else {
                    TokenValidateResponse { valid: false, expires_at: None }
                }
            },
            None => TokenValidateResponse { valid: false, expires_at: None },
        }
    }

    /// The hub of `value` if that token is valid at `now`, else `Unauthorized`.
    pub fn get_valid(&self, value: &str, now: i64) -> (r: Result<&H, ApiError>)
        requires
            self.wf(),
        ensures
            match r {
                Ok(h) => self.valid_token(value@, now) && *h == self.view()[value@].hub,
                Err(e) => e == ApiError::Unauthorized && !self.valid_token(value@, now),
            },
    {
        match self.tokens.get(value) {
            Some(e) => {
                if now < e.expires_at {
                    Ok(&e.hub)
                } else {
                    Err(ApiError::Unauthorized)
                }
            },
            None => Err(ApiError::Unauthorized),
        }
    }

    /// The hub of `value`, valid or not.
    pub fn get(&self, value: &str) -> (r: Option<&H>)
        requires
            self.wf(),
        ensures
            match r {
                Some(h) => self.view().contains_key(value@) && *h == self.view()[value@].hub,
                None => !self.view().contains_key(value@),
            },
    {
        match self.tokens.get(value) {
            Some(e) => Some(&e.hub),
            None => None,
        }
    }

    /// The hubs in registry order.
    pub open spec fn hub_at(&self, i: int) -> H {
        self.tokens.entries@[i].1.hub
    }

    /// How many tokens the registry holds.
    pub fn len(&self) -> (r: usize)
        ensures
            r == self.tokens.entries@.len(),
    {
        self.tokens.len()
    }

    /// The hub at position `i` of the registry.
    pub fn hub(&self, i: usize) -> (r: &H)
        requires
            i < self.tokens.entries@.len(),
        ensures
            *r == self.hub_at(i as int),
    {
        &self.tokens.entries[i].1.hub
    }

    /// The status report, given the session count of each token's hub in
    /// registry order: one line per token, and the totals.
    pub fn status(&self, session_counts: &Vec<usize>, now: i64) -> (r: StatusResponse)
        requires
            session_counts@.len() == self.tokens.entries@.len(),
            sum_counts(session_counts@) <= usize::MAX,
        ensures
            r.tokens@.len() == self.tokens.entries@.len(),
            forall|i: int|
                0 <= i < r.tokens@.len() ==> {
                    let info = #[trigger] r.tokens@[i];
                    let e = self.tokens.entries@[i];
                    &&& info.token@ == e.0@
                    &&& info.expires_at == e.1.expires_at
                    &&& info.sessions == session_counts@[i]
                    &&& info.is_valid == (now < e.1.expires_at)
                },
            r.summary.total_tokens == r.tokens@.len(),
            r.summary.valid_tokens == count_valid(r.tokens@),
            r.summary.total_sessions == sum_sessions(r.tokens@),
    {
        let n = self.tokens.len();
        let mut infos: Vec<TokenInfo> = Vec::new();
        let mut valid_tokens: usize = 0;
        let mut total_sessions: usize = 0;
        let mut i: usize = 0;
        while i < n
            invariant
                n == self.tokens.entries@.len(),
                session_counts@.len() == n,
                sum_counts(session_counts@) <= usize::MAX,
                i <= n,
                infos@.len() == i,
                forall|k: int|
                    0 <= k < i ==> {
                        let info = #[trigger] infos@[k];
                        let e = self.tokens.entries@[k];
                        &&& info.token@ == e.0@
                        &&& info.expires_at == e.1.expires_at
                        &&& info.sessions == session_counts@[k]
                        &&& info.is_valid == (now < e.1.expires_at)
                    },
                valid_tokens == count_valid(infos@),
                valid_tokens <= i,
                total_sessions == sum_sessions(infos@),
                total_sessions == sum_counts(session_counts@.subrange(0, i as int)),
            decreases n - i,
        {
            let e = &self.tokens.entries[i];
            let is_valid = now < e.1.expires_at;
            let sessions = session_counts[i];
            proof {
                lemma_sum_counts_prefix(session_counts@, i + 1);
                assert(session_counts@.subrange(0, i + 1).drop_last() =~= session_counts@.subrange(0, i as int));
            }
            let info = TokenInfo { token: e.0.clone(), expires_at: e.1.expires_at, sessions, is_valid };
            let ghost before = infos@;
            infos.push(info);
            assert(infos@.drop_last() =~= before);
            if is_valid {
                valid_tokens = valid_tokens + 1;
            }
            total_sessions = total_sessions + sessions;
            i = i + 1;
        }
        StatusResponse {
            tokens: infos,
            summary: StatusSummary { total_tokens: n, valid_tokens, total_sessions },
        }
    }
}

/// A token created at `issued_at` validates at that instant, and from 24
/// hours later on it no longer does: over the registry's view, which is what
/// `validate` reports on.
pub proof fn lemma_created_token_validity<H>(reg: TokenRegistry<H>, value: Seq<char>, issued_at: i64, now: i64)
    requires
        reg.view().contains_key(value),
        reg.view()[value].expires_at == expiry_for(issued_at),
        issued_at <= i64::MAX - crate::token::TOKEN_TTL_MILLIS,
    ensures
        reg.valid_token(value, issued_at),
        now >= issued_at + crate::token::TOKEN_TTL_MILLIS ==> !reg.valid_token(value, now),
{
}

/// The response to a token creation: the producer endpoint's address with the
/// token, and the command a user runs to connect a producer.
pub open spec fn spec_token_response_text(host: Seq<char>, value: Seq<char>, ws_path: Seq<char>, command_tail: Seq<char>) -> (Seq<char>, Seq<char>) {
    (
        host + ws_path + "?token="@ + value,
        "teeclaude --server="@ + host + " --token="@ + value + " "@ + command_tail,
    )
}

/// Builds the response to the creation of `token`, for the producer endpoint
/// `ws_path` and a connect command ending in `command_tail`.
pub fn token_response(host: &str, token: &Token, ws_path: &str, command_tail: &str) -> (r: TokenResponse)
    ensures
        r.token@ == token.value@,
        r.expires_at == token.expires_at,
        (r.ws_url@, r.command_hint@) == spec_token_response_text(host@, token.value@, ws_path@, command_tail@),
{
    let mut ws_url = owned(host);
    ws_url.append(ws_path);
    ws_url.append("?token=");
    ws_url.append(token.value.as_str());
    let mut hint = owned("teeclaude --server=");
    hint.append(host);
    hint.append(" --token=");
    hint.append(token.value.as_str());
    hint.append(" ");
    hint.append(command_tail);
    TokenResponse { token: token.value.clone(), expires_at: token.expires_at, ws_url, command_hint: hint }
}

} // verus!
