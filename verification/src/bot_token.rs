//! Hosted FerrFlow bot OIDC exchange: the decisions of the exchange.
//!
//! The runner's request URL and bearer token, the OIDC reply and the bot
//! service's reply are handed in as plain values; these functions decide
//! what to request next, which error each failure becomes, and what is
//! announced once a token was issued.

use vstd::prelude::*;
use vstd::string::StringSliceAdditionalSpecFns;
use vstd::utf8::encode_utf8;
use crate::text::{
    ascii_lowercase, ascii_lowercase_chars, chars_of, contains, contains_str, decimal, push_all,
    push_decimal, same_chars, trim, trim_chars, trim_start, is_white_space, white_space, string_of,
    lemma_trim_start_skip, opt_str_view, opt_view, views,
};

verus! {

/// The bot service endpoint used when no override is configured.
pub open spec fn default_endpoint() -> Seq<char> {
    "https://api.ferrlabs.com/api/v1/ferrflow/token"@
}

/// The OIDC audience used when no override is configured.
pub open spec fn default_audience() -> Seq<char> {
    "ferrflow.ferrlabs.com"@
}

/// `FERRFLOW_BOT` switches bot mode on when, trimmed and with ASCII letters
/// lowered, it reads `true` or `1`.
pub open spec fn bot_mode_value(value: Option<Seq<char>>) -> bool {
    match value {
        Some(v) => {
            let t = ascii_lowercase(trim(v));
            t == "true"@ || t == "1"@
        },
        None => false,
    }
}

/// Whether bot mode is on, given the value of `FERRFLOW_BOT` (`None` when
/// the variable is unset).
pub fn bot_mode_enabled(value: Option<&str>) -> (res: bool)
    ensures
        res == bot_mode_value(opt_str_view(value)),
{
    match value {
        Some(v) => {
            let chars = chars_of(v);
            let trimmed = trim_chars(chars.as_slice());
            let lowered = ascii_lowercase_chars(trimmed.as_slice());
            same_chars(lowered.as_slice(), "true") || same_chars(lowered.as_slice(), "1")
        },
        None => false,
    }
}

/// Where the exchange is sent and which audience the OIDC token is for.
pub struct BotTokenExchange {
    pub endpoint: String,
    pub audience: String,
}

/// A configured override counts only when it is set and not empty.
pub open spec fn override_or(setting: Option<Seq<char>>, fallback: Seq<char>) -> Seq<char> {
    match setting {
        Some(s) => if s.len() > 0 {
            s
        } else {
            fallback
        },
        None => fallback,
    }
}

fn override_or_default(setting: Option<String>, fallback: &str) -> (res: String)
    ensures
        res@ == override_or(opt_view(setting), fallback@),
{
    match setting {
        Some(s) => if !s.as_str().is_empty() {
            s
        } else {
            fallback.to_owned()
        },
        None => fallback.to_owned(),
    }
}

impl BotTokenExchange {
    /// The exchange configured by the `FERRFLOW_BOT_ENDPOINT` and
    /// `FERRFLOW_BOT_AUDIENCE` settings; an unset or empty setting falls back
    /// to the hosted endpoint and audience.
    pub fn from_overrides(endpoint: Option<String>, audience: Option<String>) -> (res: Self)
        ensures
            res.endpoint@ == override_or(opt_view(endpoint), default_endpoint()),
            res.audience@ == override_or(opt_view(audience), default_audience()),
    {
        BotTokenExchange {
            endpoint: override_or_default(endpoint, "https://api.ferrlabs.com/api/v1/ferrflow/token"),
            audience: override_or_default(audience, "ferrflow.ferrlabs.com"),
        }
    }
}

/// The installation token handed out by the bot service.
pub struct IssuedToken {
    pub token: String,
    pub expires_at: String,
    pub repository: String,
}

/// Why the exchange failed.
pub enum BotError {
    /// `ACTIONS_ID_TOKEN_REQUEST_URL` is not set.
    MissingRequestUrl,
    /// `ACTIONS_ID_TOKEN_REQUEST_TOKEN` is not set.
    MissingRequestToken,
    /// The runner could not be asked for an OIDC token; holds the cause.
    OidcRequestFailed(String),
    /// The runner's reply was not JSON; holds the cause.
    OidcNotJson(String),
    /// The runner's reply carried an empty `value`.
    OidcValueMissing,
    /// The bot service answered 401.
    VerificationFailed,
    /// The bot service answered 404.
    AppNotInstalled,
    /// The bot service answered 429.
    RateLimited,
    /// The bot service answered with a 5xx status.
    ServiceUnavailable(u16),
    /// The bot service answered with any other failing status.
    UnexpectedStatus(u16),
    /// The bot service could not be reached; holds the cause.
    Unreachable(String),
    /// The bot service's reply was not JSON; holds the cause.
    ResponseNotJson(String),
    /// The bot service's reply carried an empty token.
    NoToken,
}

/// The error that a failing HTTP status of the bot service stands for.
pub open spec fn status_error(code: u16) -> BotError {
    if code == 401 {
        BotError::VerificationFailed
    } else if code == 404 {
        BotError::AppNotInstalled
    } else if code == 429 {
        BotError::RateLimited
    } else if 500 <= code <= 599 {
        BotError::ServiceUnavailable(code)
    } else {
        BotError::UnexpectedStatus(code)
    }
}

/// Maps a failing HTTP status of the bot service to the error reported.
pub fn map_status_error(code: u16) -> (res: BotError)
    ensures
        res == status_error(code),
{
    if code == 401 {
        BotError::VerificationFailed
    } else if code == 404 {
        BotError::AppNotInstalled
    } else if code == 429 {
        BotError::RateLimited
    } else if 500 <= code && code <= 599 {
        BotError::ServiceUnavailable(code)
    } else {
        BotError::UnexpectedStatus(code)
    }
}

/// How the bot service's failing statuses are reported: 401 as a failed
/// verification, 404 as a missing app installation, 429 as a rate limit,
/// every 5xx as the service being unavailable (with its code), and any
/// other status as unexpected (with its code).
pub proof fn status_errors_by_class(code: u16)
    ensures
        code == 401 ==> status_error(code) is VerificationFailed,
        code == 404 ==> status_error(code) is AppNotInstalled,
        code == 429 ==> status_error(code) is RateLimited,
        500 <= code <= 599 ==> status_error(code) == BotError::ServiceUnavailable(code),
        code != 401 && code != 404 && code != 429 && !(500 <= code <= 599) ==> status_error(code)
            == BotError::UnexpectedStatus(code),
{
}

/// The text of each error, as reported to the user.
pub open spec fn error_text(e: BotError) -> Seq<char> {
    match e {
        BotError::MissingRequestUrl =>
            "bot mode requires `permissions: id-token: write` in your workflow — ACTIONS_ID_TOKEN_REQUEST_URL not set"@,
        BotError::MissingRequestToken =>
            "bot mode requires `permissions: id-token: write` in your workflow — ACTIONS_ID_TOKEN_REQUEST_TOKEN not set"@,
        BotError::OidcRequestFailed(_) =>
            "failed to request OIDC token from GitHub Actions runner"@,
        BotError::OidcNotJson(_) => "OIDC response from runner was not valid JSON"@,
        BotError::OidcValueMissing =>
            "OIDC response from GitHub Actions runner was missing the `value` field"@,
        BotError::VerificationFailed =>
            "FerrFlow OIDC verification failed (401). The runner's OIDC token was rejected by the hosted bot service."@,
        BotError::AppNotInstalled =>
            "FerrFlow App not installed on this repository's owner. Install at https://github.com/apps/ferrflow"@,
        BotError::RateLimited =>
            "FerrFlow hosted bot rate limit hit (429). Retry shortly or use `token:` with a PAT."@,
        BotError::ServiceUnavailable(code) => "FerrFlow hosted bot service unavailable ("@ + decimal(
            code as nat,
        ) + "). Check https://status.ferrlabs.com"@,
        BotError::UnexpectedStatus(code) => "FerrFlow hosted bot returned unexpected HTTP status "@
            + decimal(code as nat),
        BotError::Unreachable(cause) => "FerrFlow hosted bot unavailable: "@ + cause@
            + ". Check https://status.ferrlabs.com or fall back to a PAT via `token:`."@,
        BotError::ResponseNotJson(_) => "FerrFlow bot service response was not valid JSON"@,
        BotError::NoToken => "FerrFlow bot service response did not contain a token"@,
    }
}

impl BotError {
    /// The message reported for this error. Errors that wrap a cause report
    /// the cause separately, below this message.
    pub fn message(&self) -> (res: String)
        ensures
            res@ == error_text(*self),
    {
        match self {
            BotError::MissingRequestUrl =>
                "bot mode requires `permissions: id-token: write` in your workflow — ACTIONS_ID_TOKEN_REQUEST_URL not set".to_owned(),
            BotError::MissingRequestToken =>
                "bot mode requires `permissions: id-token: write` in your workflow — ACTIONS_ID_TOKEN_REQUEST_TOKEN not set".to_owned(),
            BotError::OidcRequestFailed(_) =>
                "failed to request OIDC token from GitHub Actions runner".to_owned(),
            BotError::OidcNotJson(_) => "OIDC response from runner was not valid JSON".to_owned(),
            BotError::OidcValueMissing =>
                "OIDC response from GitHub Actions runner was missing the `value` field".to_owned(),
            BotError::VerificationFailed =>
                "FerrFlow OIDC verification failed (401). The runner's OIDC token was rejected by the hosted bot service.".to_owned(),
            BotError::AppNotInstalled =>
                "FerrFlow App not installed on this repository's owner. Install at https://github.com/apps/ferrflow".to_owned(),
            BotError::RateLimited =>
                "FerrFlow hosted bot rate limit hit (429). Retry shortly or use `token:` with a PAT.".to_owned(),
            BotError::ServiceUnavailable(code) => {
                let mut out = "FerrFlow hosted bot service unavailable (".to_owned();
                push_decimal(&mut out, *code as u64);
                push_all(&mut out, "). Check https://status.ferrlabs.com");
                out
            },
            BotError::UnexpectedStatus(code) => {
                let mut out = "FerrFlow hosted bot returned unexpected HTTP status ".to_owned();
                push_decimal(&mut out, *code as u64);
                out
            },
            BotError::Unreachable(cause) => {
                let mut out = "FerrFlow hosted bot unavailable: ".to_owned();
                push_all(&mut out, cause.as_str());
                push_all(
                    &mut out,
                    ". Check https://status.ferrlabs.com or fall back to a PAT via `token:`.",
                );
                out
            },
            BotError::ResponseNotJson(_) =>
                "FerrFlow bot service response was not valid JSON".to_owned(),
            BotError::NoToken => "FerrFlow bot service response did not contain a token".to_owned(),
        }
    }

    /// The underlying cause that this error wraps, if any.
    pub fn cause(&self) -> (res: Option<String>)
        ensures
            res == match *self {
                BotError::OidcRequestFailed(c) => Some(c),
                BotError::OidcNotJson(c) => Some(c),
                BotError::ResponseNotJson(c) => Some(c),
                _ => None::<String>,
            },
    {
        match self {
            BotError::OidcRequestFailed(c) => Some(c.clone()),
            BotError::OidcNotJson(c) => Some(c.clone()),
            BotError::ResponseNotJson(c) => Some(c.clone()),
            _ => None,
        }
    }
}


/// Bytes that a query component carries as they are: ASCII letters and
/// digits and `-`, `_`, `.`, `~`.
pub open spec fn is_unreserved(b: u8) -> bool {
    ||| 48 <= b <= 57
    ||| 65 <= b <= 90
    ||| 97 <= b <= 122
    ||| b == 45
    ||| b == 95
    ||| b == 46
    ||| b == 126
}

/// The upper-case hexadecimal digit for `n` (`n < 16`).
pub open spec fn hex_digit(n: int) -> char {
    if n < 10 {
        ((n + 48) as u32) as char
    } else {
        ((n + 55) as u32) as char
    }
}

/// How one byte of the input appears in the encoded component.
pub open spec fn encode_byte(b: u8) -> Seq<char> {
    if is_unreserved(b) {
        seq![(b as u32) as char]
    } else {
        seq!['%', hex_digit((b / 16) as int), hex_digit((b % 16) as int)]
    }
}

/// The percent-encoding of a byte sequence.
pub open spec fn encode_bytes(bs: Seq<u8>) -> Seq<char>
    decreases bs.len(),
{
    if bs.len() == 0 {
        seq![]
    } else {
        encode_byte(bs[0]) + encode_bytes(bs.drop_first())
    }
}

proof fn lemma_encode_push(bs: Seq<u8>, b: u8)
    ensures
        encode_bytes(bs.push(b)) == encode_bytes(bs) + encode_byte(b),
    decreases bs.len(),
{
    if bs.len() == 0 {
        assert(bs.push(b).drop_first() =~= Seq::<u8>::empty());
        assert(encode_bytes(bs.push(b).drop_first()) =~= Seq::<char>::empty());
        assert(encode_bytes(bs) =~= Seq::<char>::empty());
        assert(bs.push(b)[0] == b);
        assert(encode_bytes(bs.push(b)) =~= encode_bytes(bs) + encode_byte(b));
    } else {
        lemma_encode_push(bs.drop_first(), b);
        assert(bs.push(b).drop_first() =~= bs.drop_first().push(b));
        assert(encode_bytes(bs.push(b)) =~= encode_bytes(bs) + encode_byte(b));
    }
}

fn hex_digit_exec(n: u8) -> (res: char)
    requires
        n < 16,
    ensures
        res == hex_digit(n as int),
{
    if n < 10 {
        (n + 48) as char
    } else {
        (n + 55) as char
    }
}

/// Percent-encodes `input` for use as a URL query component (RFC 3986):
/// unreserved bytes are kept, every other byte of its UTF-8 encoding
/// becomes `%` and two upper-case hex digits.
pub fn encode_query_component(input: &str) -> (res: String)
    ensures
        res@ == encode_bytes(input.spec_bytes()),
{
    let bytes = input.as_bytes();
    let mut out = String::new();
    let mut i: usize = 0;
    while i < bytes.len()
        invariant
            i <= bytes@.len(),
            bytes@ == input.spec_bytes(),
            out@ == encode_bytes(bytes@.take(i as int)),
        decreases bytes@.len() - i,
    {
        let b = bytes[i];
        let safe = (48 <= b && b <= 57) || (65 <= b && b <= 90) || (97 <= b && b <= 122) || b
            == 45 || b == 95 || b == 46 || b == 126;
        if safe {
            out.push(b as char);
        } else {
            out.push('%');
            out.push(hex_digit_exec(b / 16));
            out.push(hex_digit_exec(b % 16));
        }
        proof {
            lemma_encode_push(bytes@.take(i as int), b);
            assert(bytes@.take(i + 1) =~= bytes@.take(i as int).push(b));
        }
        i = i + 1;
        assert(out@ =~= encode_bytes(bytes@.take(i as int)));
    }
    assert(bytes@.take(bytes@.len() as int) =~= bytes@);
    out
}

/// Text made of unreserved bytes only is carried as it is: its encoding
/// is its bytes, read as characters.
pub proof fn encode_query_component_keeps_unreserved(bs: Seq<u8>)
    requires
        forall|i: int| 0 <= i < bs.len() ==> is_unreserved(#[trigger] bs[i]),
    ensures
        encode_bytes(bs) == bs.map_values(|b: u8| (b as u32) as char),
    decreases bs.len(),
{
    if bs.len() > 0 {
        assert(is_unreserved(bs[0]));
        assert forall|i: int| 0 <= i < bs.drop_first().len() implies is_unreserved(
            #[trigger] bs.drop_first()[i],
        ) by {
            assert(bs.drop_first()[i] == bs[i + 1]);
        }
        encode_query_component_keeps_unreserved(bs.drop_first());
        assert(encode_bytes(bs) =~= bs.map_values(|b: u8| (b as u32) as char));
    } else {
        assert(encode_bytes(bs) =~= bs.map_values(|b: u8| (b as u32) as char));
    }
}

/// `c` is an upper-case hexadecimal digit.
pub open spec fn is_hex_upper(c: char) -> bool {
    ('0' <= c <= '9') || ('A' <= c <= 'F')
}

/// The value of an upper-case hexadecimal digit.
pub open spec fn hex_value(c: char) -> int {
    if '0' <= c <= '9' {
        c as int - 48
    } else {
        c as int - 55
    }
}

/// Percent-decoding: `%` and two upper-case hex digits stand for one byte,
/// any other character for its own code (as a byte).
pub open spec fn percent_decode(s: Seq<char>) -> Seq<u8>
    decreases s.len(),
{
    if s.len() == 0 {
        seq![]
    } else if s.len() >= 3 && s[0] == '%' && is_hex_upper(s[1]) && is_hex_upper(s[2]) {
        seq![(hex_value(s[1]) * 16 + hex_value(s[2])) as u8] + percent_decode(s.skip(3))
    } else {
        seq![(s[0] as u32) as u8] + percent_decode(s.drop_first())
    }
}

/// Encoding loses nothing: percent-decoding the encoded component gives
/// back exactly the bytes that were encoded.
pub proof fn encode_query_component_round_trips(bs: Seq<u8>)
    ensures
        percent_decode(encode_bytes(bs)) == bs,
    decreases bs.len(),
{
    if bs.len() > 0 {
        let b = bs[0];
        let rest = encode_bytes(bs.drop_first());
        encode_query_component_round_trips(bs.drop_first());
        let all = encode_byte(b) + rest;
        assert(encode_bytes(bs) == all);
        if is_unreserved(b) {
            assert(all[0] == (b as u32) as char);
            assert(((b as u32) as char) as u32 == b as u32);
            assert(all.drop_first() =~= rest);
            assert(percent_decode(all) =~= seq![b] + bs.drop_first());
        } else {
            let hi = b / 16;
            let lo = b % 16;
            assert(all[0] == '%');
            assert(all[1] == hex_digit(hi as int));
            assert(all[2] == hex_digit(lo as int));
            assert(is_hex_upper(hex_digit(hi as int)) && hex_value(hex_digit(hi as int)) == hi);
            assert(is_hex_upper(hex_digit(lo as int)) && hex_value(hex_digit(lo as int)) == lo);
            assert(all.skip(3) =~= rest);
            assert(percent_decode(all) =~= seq![b] + bs.drop_first());
        }
        assert(seq![b] + bs.drop_first() =~= bs);
    }
}


/// The GET request that asks the runner for an OIDC token.
pub struct OidcRequest {
    /// The runner's request URL with the `audience` query parameter added.
    pub url: String,
    /// The value of the `Authorization` header.
    pub authorization: String,
}

/// The runner's request URL with `audience=<encoded audience>` appended,
/// after `&` when the URL already has a query and after `?` otherwise.
pub open spec fn oidc_url(request_url: Seq<char>, audience: Seq<char>) -> Seq<char> {
    request_url + (if contains(request_url, "?"@) {
        "&"@
    } else {
        "?"@
    }) + "audience="@ + encode_bytes(encode_utf8(audience))
}

/// The runner request URL is the runner's URL unchanged, then `&` when
/// it already has a query and `?` otherwise, then `audience=`, then a
/// component that percent-decodes back to exactly the audience's UTF-8
/// bytes.
pub proof fn oidc_url_carries_the_audience(request_url: Seq<char>, audience: Seq<char>)
    ensures
        ({
            let url = oidc_url(request_url, audience);
            let n = request_url.len() as int;
            &&& url.take(n) == request_url
            &&& url[n] == (if contains(request_url, "?"@) {
                '&'
            } else {
                '?'
            })
            &&& url.subrange(n + 1, n + 10) == "audience="@
            &&& percent_decode(url.skip(n + 10)) == encode_utf8(audience)
        }),
{
    reveal_strlit("&");
    reveal_strlit("?");
    reveal_strlit("audience=");
    let url = oidc_url(request_url, audience);
    let n = request_url.len() as int;
    let sep = if contains(request_url, "?"@) {
        "&"@
    } else {
        "?"@
    };
    let enc = encode_bytes(encode_utf8(audience));
    assert(url == request_url + sep + "audience="@ + enc);
    assert(url.take(n) =~= request_url);
    assert(url.subrange(n + 1, n + 10) =~= "audience="@);
    assert(url.skip(n + 10) =~= enc);
    encode_query_component_round_trips(encode_utf8(audience));
}

impl BotTokenExchange {
    /// First step of the exchange: given `ACTIONS_ID_TOKEN_REQUEST_URL` and
    /// `ACTIONS_ID_TOKEN_REQUEST_TOKEN` (`None` when unset), the request to
    /// send to the runner, or the error for the first one missing.
    pub fn oidc_request(&self, request_url: Option<String>, request_token: Option<String>) -> (res:
        Result<OidcRequest, BotError>)
        ensures
            request_url is None ==> res == Err::<OidcRequest, BotError>(
                BotError::MissingRequestUrl,
            ),
            request_url is Some && request_token is None ==> res == Err::<OidcRequest, BotError>(
                BotError::MissingRequestToken,
            ),
            request_url is Some && request_token is Some ==> (res matches Ok(req) && req.url@
                == oidc_url(request_url->0@, self.audience@) && req.authorization@ == "Bearer "@
                + request_token->0@),
    {
        let url = match request_url {
            Some(u) => u,
            None => {
                return Err(BotError::MissingRequestUrl);
            },
        };
        let token = match request_token {
            Some(t) => t,
            None => {
                return Err(BotError::MissingRequestToken);
            },
        };
        let url_chars = chars_of(url.as_str());
        let has_query = contains_str(url_chars.as_slice(), "?");
        let mut full = url.clone();
        if has_query {
            push_all(&mut full, "&");
        } else {
            push_all(&mut full, "?");
        }
        push_all(&mut full, "audience=");
        let encoded = encode_query_component(self.audience.as_str());
        push_all(&mut full, encoded.as_str());
        let mut authorization = "Bearer ".to_owned();
        push_all(&mut authorization, token.as_str());
        Ok(OidcRequest { url: full, authorization })
    }
}

/// Second step: the `value` field of the runner's reply is the OIDC token
/// to exchange; an empty one is an error.
pub fn accept_oidc_value(value: String) -> (res: Result<String, BotError>)
    ensures
        value@.len() == 0 ==> res == Err::<String, BotError>(BotError::OidcValueMissing),
        value@.len() > 0 ==> res == Ok::<String, BotError>(value),
{
    if value.as_str().is_empty() {
        Err(BotError::OidcValueMissing)
    } else {
        Ok(value)
    }
}

/// How posting the OIDC token to the bot service failed.
pub enum ServiceFailure {
    /// The service answered with a failing HTTP status.
    Status(u16),
    /// The service could not be reached; holds the cause.
    Transport(String),
}

/// The error that a failed post to the bot service is reported as.
pub fn service_failure_error(failure: ServiceFailure) -> (res: BotError)
    ensures
        failure matches ServiceFailure::Status(code) ==> res == status_error(code),
        failure matches ServiceFailure::Transport(cause) ==> res == BotError::Unreachable(cause),
{
    match failure {
        ServiceFailure::Status(code) => map_status_error(code),
        ServiceFailure::Transport(cause) => BotError::Unreachable(cause),
    }
}

/// Last step: the service's reply becomes the issued token, unless its
/// token is empty.
pub fn issued_token(token: String, expires_at: String, repository: String) -> (res: Result<
    IssuedToken,
    BotError,
>)
    ensures
        token@.len() == 0 ==> res == Err::<IssuedToken, BotError>(BotError::NoToken),
        token@.len() > 0 ==> res == Ok::<IssuedToken, BotError>(
            IssuedToken { token, expires_at, repository },
        ),
{
    if token.as_str().is_empty() {
        Err(BotError::NoToken)
    } else {
        Ok(IssuedToken { token, expires_at, repository })
    }
}

/// Whether this process has run the exchange already.
#[derive(Debug, Clone, Copy)]
pub struct BotSession {
    pub exchanged: bool,
}

/// Whether a call runs the exchange: only in bot mode, and only when no
/// earlier call ran it.
pub open spec fn runs_exchange(session: BotSession, bot_mode: bool) -> bool {
    bot_mode && !session.exchanged
}

/// The session after a call: a call that runs the exchange marks it done,
/// whatever the exchange then returns.
pub open spec fn after_call(session: BotSession, bot_mode: bool) -> BotSession {
    BotSession { exchanged: session.exchanged || runs_exchange(session, bot_mode) }
}

impl BotSession {
    /// A process in which no exchange ran yet.
    pub fn new() -> (res: Self)
        ensures
            !res.exchanged,
    {
        BotSession { exchanged: false }
    }

    /// Decides whether this call runs the exchange, and records it.
    pub fn start_exchange(&mut self, bot_mode: bool) -> (run: bool)
        ensures
            run == runs_exchange(*old(self), bot_mode),
            *final(self) == after_call(*old(self), bot_mode),
    {
        let run = bot_mode && !self.exchanged;
        if run {
            self.exchanged = true;
        }
        run
    }
}

/// How many of a series of calls run the exchange, given whether bot mode
/// is on at each.
pub open spec fn exchanges_run(session: BotSession, calls: Seq<bool>) -> nat
    decreases calls.len(),
{
    if calls.len() == 0 {
        0
    } else {
        (if runs_exchange(session, calls[0]) {
            1nat
        } else {
            0nat
        }) + exchanges_run(after_call(session, calls[0]), calls.drop_first())
    }
}

proof fn lemma_no_exchange_after(session: BotSession, calls: Seq<bool>)
    requires
        session.exchanged,
    ensures
        exchanges_run(session, calls) == 0,
    decreases calls.len(),
{
    if calls.len() > 0 {
        lemma_no_exchange_after(after_call(session, calls[0]), calls.drop_first());
    }
}

/// Safe to call more than once: however often it is called, the exchange
/// runs at most once per process, on the first call in bot mode.
pub proof fn exchange_runs_at_most_once(calls: Seq<bool>)
    ensures
        exchanges_run(BotSession { exchanged: false }, calls) <= 1,
    decreases calls.len(),
{
    if calls.len() > 0 {
        let s0 = BotSession { exchanged: false };
        if runs_exchange(s0, calls[0]) {
            lemma_no_exchange_after(after_call(s0, calls[0]), calls.drop_first());
        } else {
            assert(after_call(s0, calls[0]) == s0);
            exchange_runs_at_most_once(calls.drop_first());
        }
    }
}

/// The workflow command that masks the token in later log output.
pub open spec fn mask_line(issued: IssuedToken) -> Seq<char> {
    "::add-mask::"@ + issued.token@
}

/// The line announcing who the run is authenticated as, naming the
/// repository and the expiry when the service gave them.
pub open spec fn authenticated_line(issued: IssuedToken) -> Seq<char> {
    "Authenticated as ferrflow[bot]"@ + (if issued.repository@.len() == 0 {
        Seq::<char>::empty()
    } else {
        " on "@ + issued.repository@
    }) + (if issued.expires_at@.len() == 0 {
        Seq::<char>::empty()
    } else {
        " (expires at "@ + issued.expires_at@ + ")"@
    }) + "."@
}

/// The two lines printed once a token was issued: the mask command, then
/// the announcement.
pub fn announcements(issued: &IssuedToken) -> (res: (String, String))
    ensures
        res.0@ == mask_line(*issued),
        res.1@ == authenticated_line(*issued),
{
    let mut mask = "::add-mask::".to_owned();
    push_all(&mut mask, issued.token.as_str());
    let mut line = "Authenticated as ferrflow[bot]".to_owned();
    if !issued.repository.as_str().is_empty() {
        push_all(&mut line, " on ");
        push_all(&mut line, issued.repository.as_str());
    }
    if !issued.expires_at.as_str().is_empty() {
        push_all(&mut line, " (expires at ");
        push_all(&mut line, issued.expires_at.as_str());
        push_all(&mut line, ")");
    }
    push_all(&mut line, ".");
    (mask, line)
}


/// The lines of `s`: the pieces between `\n` characters (the last piece is
/// empty when `s` ends with `\n`).
pub open spec fn split_lines(s: Seq<char>) -> Seq<Seq<char>>
    decreases s.len(),
{
    if s.len() == 0 {
        seq![Seq::<char>::empty()]
    } else {
        let init = split_lines(s.drop_last());
        if s.last() == '\n' {
            init.push(Seq::<char>::empty())
        } else {
            init.update(init.len() - 1, init.last().push(s.last()))
        }
    }
}

proof fn lemma_split_lines_nonempty(s: Seq<char>)
    ensures
        split_lines(s).len() >= 1,
    decreases s.len(),
{
    if s.len() > 0 {
        lemma_split_lines_nonempty(s.drop_last());
    }
}

/// The characters of `t` up to its first white space.
pub open spec fn leading_token(t: Seq<char>) -> Seq<char>
    decreases t.len(),
{
    if t.len() == 0 || is_white_space(t[0]) {
        Seq::<char>::empty()
    } else {
        seq![t[0]] + leading_token(t.drop_first())
    }
}

/// The first white-space-delimited word of a line, if it has one.
pub open spec fn first_word(line: Seq<char>) -> Option<Seq<char>> {
    let t = trim_start(line);
    if t.len() == 0 {
        None
    } else {
        Some(leading_token(t))
    }
}

/// The first word of every line that has one, in order.
pub open spec fn first_words(lines: Seq<Seq<char>>) -> Seq<Seq<char>>
    decreases lines.len(),
{
    if lines.len() == 0 {
        Seq::<Seq<char>>::empty()
    } else {
        let init = first_words(lines.drop_last());
        match first_word(lines.last()) {
            Some(w) => init.push(w),
            None => init,
        }
    }
}

proof fn lemma_leading_token_cut(t: Seq<char>, k: int)
    requires
        0 <= k <= t.len(),
        forall|j: int| 0 <= j < k ==> !is_white_space(#[trigger] t[j]),
        k == t.len() || is_white_space(t[k]),
    ensures
        leading_token(t) == t.take(k),
    decreases k,
{
    if k == 0 {
        assert(t.take(0) =~= Seq::<char>::empty());
    } else {
        lemma_leading_token_cut(t.drop_first(), k - 1);
        assert(t.take(k) =~= seq![t[0]] + t.drop_first().take(k - 1));
    }
}

proof fn lemma_trim_start_stops(s: Seq<char>)
    requires
        s.len() == 0 || !is_white_space(s[0]),
    ensures
        trim_start(s) == s,
{
}

/// The first word of a line, if it has one.
fn first_word_of(line: &[char]) -> (res: Option<Vec<char>>)
    ensures
        match res {
            Some(w) => first_word(line@) == Some(w@),
            None => first_word(line@) is None,
        },
{
    let mut i: usize = 0;
    while i < line.len() && white_space(line[i])
        invariant
            i <= line@.len(),
            forall|j: int| 0 <= j < i ==> is_white_space(#[trigger] line@[j]),
        decreases line@.len() - i,
    {
        i = i + 1;
    }
    let ghost t = line@.subrange(i as int, line@.len() as int);
    proof {
        lemma_trim_start_skip(line@, i as int);
        if t.len() > 0 {
            assert(t[0] == line@[i as int]);
        }
        lemma_trim_start_stops(t);
    }
    if i == line.len() {
        return None;
    }
    let mut word: Vec<char> = Vec::new();
    let mut k: usize = i;
    while k < line.len() && !white_space(line[k])
        invariant
            i <= k <= line@.len(),
            t == line@.subrange(i as int, line@.len() as int),
            word@ == line@.subrange(i as int, k as int),
            forall|j: int| i <= j < k ==> !is_white_space(#[trigger] line@[j]),
        decreases line@.len() - k,
    {
        word.push(line[k]);
        k = k + 1;
        assert(word@ =~= line@.subrange(i as int, k as int));
    }
    proof {
        assert forall|j: int| 0 <= j < k - i implies !is_white_space(#[trigger] t[j]) by {
            assert(t[j] == line@[j + i]);
        }
        if k < line@.len() {
            assert(t[k - i] == line@[k as int]);
        }
        lemma_leading_token_cut(t, k - i);
        assert(t.take(k - i) =~= word@);
    }
    Some(word)
}

/// The keys of a `git config --get-regexp` listing: the first
/// white-space-delimited word of each line that has one, in order.
pub fn listed_config_keys(listing: &str) -> (res: Vec<String>)
    ensures
        views(res@) == first_words(split_lines(listing@)),
{
    let mut keys: Vec<String> = Vec::new();
    let mut current: Vec<char> = Vec::new();
    let ghost mut done: Seq<Seq<char>> = Seq::empty();
    for c in it: listing.chars()
        invariant
            it.seq() == listing@,
            split_lines(listing@.take(it.index() as int)) == done.push(current@),
            views(keys@) == first_words(done),
    {
        let ghost before = listing@.take(it.index() as int);
        proof {
            assert(listing@.take(it.index() + 1).drop_last() =~= before);
            lemma_split_lines_nonempty(before);
        }
        if c == '\n' {
            match first_word_of(current.as_slice()) {
                Some(w) => {
                    keys.push(string_of(w.as_slice()));
                },
                None => {},
            }
            proof {
                assert(done.push(current@).drop_last() =~= done);
                assert(views(keys@) =~= first_words(done.push(current@)));
                done = done.push(current@);
            }
            current = Vec::new();
        } else {
            current.push(c);
            proof {
                assert(split_lines(listing@.take(it.index() + 1)) =~= done.push(current@));
            }
        }
    }
    assert(listing@.take(listing@.len() as int) =~= listing@);
    match first_word_of(current.as_slice()) {
        Some(w) => {
            keys.push(string_of(w.as_slice()));
        },
        None => {},
    }
    assert(done.push(current@).drop_last() =~= done);
    assert(views(keys@) =~= first_words(done.push(current@)));
    keys
}


/// Keys that `actions/checkout` installs to point git at a credentials
/// file: `includeIf.gitdir:…` entries (git prints the section name in
/// lower case; it is compared without regard to ASCII case).
pub open spec fn is_gitdir_include(key: Seq<char>) -> bool {
    key.len() >= 17 && ascii_lowercase(key.take(17)) == "includeif.gitdir:"@
}

/// The keys among `keys` that are `includeIf.gitdir:` entries, in order.
pub open spec fn gitdir_includes(keys: Seq<Seq<char>>) -> Seq<Seq<char>>
    decreases keys.len(),
{
    if keys.len() == 0 {
        Seq::<Seq<char>>::empty()
    } else if is_gitdir_include(keys.last()) {
        gitdir_includes(keys.drop_last()).push(keys.last())
    } else {
        gitdir_includes(keys.drop_last())
    }
}

fn gitdir_include_key(key: &String) -> (res: bool)
    ensures
        res == is_gitdir_include(key@),
{
    let chars = chars_of(key.as_str());
    if chars.len() < 17 {
        return false;
    }
    let mut head: Vec<char> = Vec::new();
    let mut i: usize = 0;
    while i < 17
        invariant
            i <= 17 <= chars@.len(),
            head@ == chars@.take(i as int),
        decreases 17 - i,
    {
        head.push(chars[i]);
        i = i + 1;
        assert(head@ =~= chars@.take(i as int));
    }
    let lowered = ascii_lowercase_chars(head.as_slice());
    same_chars(lowered.as_slice(), "includeif.gitdir:")
}

/// The `includeIf.gitdir:` keys of a `git config --get-regexp` listing:
/// those among [`listed_config_keys`] that name such an entry.
pub fn gitdir_include_keys(listing: &str) -> (res: Vec<String>)
    ensures
        views(res@) == gitdir_includes(first_words(split_lines(listing@))),
{
    let keys = listed_config_keys(listing);
    let mut out: Vec<String> = Vec::new();
    let mut i: usize = 0;
    while i < keys.len()
        invariant
            i <= keys@.len(),
            views(out@) == gitdir_includes(views(keys@.take(i as int))),
        decreases keys@.len() - i,
    {
        let keep = gitdir_include_key(&keys[i]);
        let ghost prev = out@;
        if keep {
            out.push(keys[i].clone());
        }
        proof {
            assert(views(keys@.take(i + 1)).drop_last() =~= views(keys@.take(i as int)));
            assert(views(keys@.take(i + 1)).last() == keys@[i as int]@);
            if keep {
                assert(views(out@) =~= views(prev).push(keys@[i as int]@));
            }
        }
        i = i + 1;
    }
    assert(keys@.take(keys@.len() as int) =~= keys@);
    out
}

} // verus!
