use vstd::prelude::*;

use crate::bridge::bearer_header;
use crate::cloud::TokenPermission;
use crate::error::AppError;

verus! {

/// What `str::to_lowercase` makes of a text.
pub uninterp spec fn lower_of(s: Seq<char>) -> Seq<char>;

/// Relies on `str::to_lowercase`: the lowercase form, which depends on the
/// characters alone; an empty text stays empty.
#[verifier::external_body]
fn lowercase(s: &str) -> (r: String)
    ensures
        r@ == lower_of(s@),
        s@.len() == 0 ==> r@.len() == 0,
{
    s.to_lowercase()
}

/// `needle` occurs in `hay` as a contiguous run (the empty text occurs everywhere).
pub open spec fn has_substring(hay: Seq<char>, needle: Seq<char>) -> bool {
    exists|k: int|
        0 <= k && k + needle.len() <= hay.len() && #[trigger] hay.subrange(k, k + needle.len())
            == needle
}

/// Whether `needle` occurs in `hay`.
pub fn contains_text(hay: &str, needle: &str) -> (r: bool)
    ensures
        r == has_substring(hay@, needle@),
{
    let n = hay.unicode_len();
    let m = needle.unicode_len();
    if m > n {
        return false;
    }
    let target = String::from_str(needle);
    let mut k: usize = 0;
    while k < n - m
        invariant
            n == hay@.len(),
            m == needle@.len(),
            m <= n,
            k <= n - m,
            target@ == needle@,
            forall|j: int| 0 <= j < k ==> #[trigger] hay@.subrange(j, j + m) != needle@,
        decreases n - m - k,
    {
        let piece = String::from_str(hay.substring_char(k, k + m));
        if piece == target {
            return true;
        }
        k = k + 1;
    }
    let last = String::from_str(hay.substring_char(n - m, n));
    if last == target {
        assert(hay@.subrange((n - m) as int, (n - m) as int + needle@.len()) == needle@);
        return true;
    }
    proof {
        if has_substring(hay@, needle@) {
            let j = choose|j: int|
                0 <= j && j + needle@.len() <= hay@.len() && #[trigger] hay@.subrange(
                    j,
                    j + needle@.len(),
                ) == needle@;
            assert(hay@.subrange(j, j + m) != needle@);
        }
    }
    false
}

/// A policy grants `group` when it allows and one of its permission group
/// names, lowercased, contains the lowercased `group`.
pub open spec fn grants(p: TokenPermission, group: Seq<char>) -> bool {
    &&& p.effect@ == "allow"@
    &&& exists|j: int|
        0 <= j < p.permission_groups@.len() && has_substring(
            lower_of(#[trigger] p.permission_groups@[j]@),
            lower_of(group),
        )
}

/// Client state of the remote management API: the credentials and the
/// proxy settings that the HTTP client is built from.
pub struct CFApi {
    api_token: String,
    account_id: String,
    proxy_url: Option<String>,
    proxy_no_verify: bool,
}

impl CFApi {
    pub closed spec fn token(&self) -> Seq<char> {
        self.api_token@
    }

    pub closed spec fn account(&self) -> Seq<char> {
        self.account_id@
    }

    pub closed spec fn proxy(&self) -> Option<Seq<char>> {
        match self.proxy_url {
            Some(u) => Some(u@),
            None => None,
        }
    }

    pub closed spec fn skips_tls_check(&self) -> bool {
        self.proxy_no_verify
    }

    /// A client with no credentials and no proxy.
    pub fn new() -> (r: CFApi)
        ensures
            r.token().len() == 0,
            r.account().len() == 0,
            r.proxy() is None,
            !r.skips_tls_check(),
    {
        CFApi { api_token: String::new(), account_id: String::new(), proxy_url: None, proxy_no_verify: false }
    }

    /// A client with no credentials and the given proxy settings.
    pub fn with_proxy(proxy_url: Option<String>, proxy_no_verify: bool) -> (r: CFApi)
        ensures
            r.token().len() == 0,
            r.account().len() == 0,
            r.proxy() == match proxy_url {
                Some(u) => Some(u@),
                None => None::<Seq<char>>,
            },
            r.skips_tls_check() == proxy_no_verify,
    {
        CFApi { api_token: String::new(), account_id: String::new(), proxy_url, proxy_no_verify }
    }

    /// Replaces the proxy settings; the HTTP client is rebuilt from them.
    pub fn set_proxy(&mut self, proxy_url: Option<String>, proxy_no_verify: bool)
        ensures
            final(self).token() == old(self).token(),
            final(self).account() == old(self).account(),
            final(self).proxy() == match proxy_url {
                Some(u) => Some(u@),
                None => None::<Seq<char>>,
            },
            final(self).skips_tls_check() == proxy_no_verify,
    {
        self.proxy_url = proxy_url;
        self.proxy_no_verify = proxy_no_verify;
    }

    pub fn get_proxy_url(&self) -> (r: Option<&str>)
        ensures
            match (r, self.proxy()) {
                (Some(u), Some(p)) => u@ == p,
                (None, None) => true,
                _ => false,
            },
    {
        match &self.proxy_url {
            Some(u) => Some(u.as_str()),
            None => None,
        }
    }

    /// The proxy that the HTTP client should use: a configured, non-empty address.
    pub fn client_proxy(&self) -> (r: Option<&str>)
        ensures
            match (r, self.proxy()) {
                (Some(u), Some(p)) => u@ == p && p.len() > 0,
                (None, Some(p)) => p.len() == 0,
                (None, None) => true,
                _ => false,
            },
    {
        match &self.proxy_url {
            Some(u) => if u.as_str().is_empty() {
                None
            } else {
                Some(u.as_str())
            },
            None => None,
        }
    }

    /// Whether the HTTP client should accept any certificate.
    pub fn proxy_no_verify(&self) -> (r: bool)
        ensures
            r == self.skips_tls_check(),
    {
        self.proxy_no_verify
    }

    pub fn set_credentials(&mut self, token: String, account_id: String)
        ensures
            final(self).token() == token@,
            final(self).account() == account_id@,
            final(self).proxy() == old(self).proxy(),
            final(self).skips_tls_check() == old(self).skips_tls_check(),
    {
        self.api_token = token;
        self.account_id = account_id;
    }

    /// Both a token and an account id are set.
    pub fn has_credentials(&self) -> (r: bool)
        ensures
            r == (self.token().len() > 0 && self.account().len() > 0),
    {
        !self.api_token.as_str().is_empty() && !self.account_id.as_str().is_empty()
    }

    pub fn get_token(&self) -> (r: &str)
        ensures
            r@ == self.token(),
    {
        self.api_token.as_str()
    }

    pub fn get_account_id(&self) -> (r: &str)
        ensures
            r@ == self.account(),
    {
        self.account_id.as_str()
    }

    /// The authorization header, or `Unauthorized` when no token is set.
    pub fn auth_header(&self) -> (r: Result<String, AppError>)
        ensures
            self.token().len() == 0 ==> (r matches Err(AppError::Unauthorized)),
            self.token().len() > 0 ==> (r matches Ok(h) && h@ == "Bearer "@ + self.token()),
    {
        if self.api_token.as_str().is_empty() {
            return Err(AppError::Unauthorized);
        }
        Ok(bearer_header(self.api_token.as_str()))
    }

    /// Whether some policy allows a permission group whose name contains
    /// `group_name`, ignoring case.
    pub fn check_permission(permissions: &[TokenPermission], group_name: &str) -> (r: bool)
        ensures
            r == exists|i: int| 0 <= i < permissions@.len() && grants(#[trigger] permissions@[i], group_name@),
    {
        let needle = lowercase(group_name);
        let allow = String::from_str("allow");
        let mut i: usize = 0;
        while i < permissions.len()
            invariant
                i <= permissions@.len(),
                needle@ == lower_of(group_name@),
                allow@ == "allow"@,
                forall|k: int| 0 <= k < i ==> !grants(#[trigger] permissions@[k], group_name@),
            decreases permissions@.len() - i,
        {
            let p = &permissions[i];
            if p.effect == allow {
                let mut j: usize = 0;
                while j < p.permission_groups.len()
                    invariant
                        j <= p.permission_groups@.len(),
                        i < permissions@.len(),
                        *p == permissions@[i as int],
                        p.effect@ == "allow"@,
                        needle@ == lower_of(group_name@),
                        forall|k: int|
                            0 <= k < j ==> !has_substring(
                                lower_of(#[trigger] p.permission_groups@[k]@),
                                lower_of(group_name@),
                            ),
                    decreases p.permission_groups@.len() - j,
                {
                    let g = lowercase(p.permission_groups[j].as_str());
                    if contains_text(g.as_str(), needle.as_str()) {
                        assert(grants(permissions@[i as int], group_name@));
                        return true;
                    }
                    j = j + 1;
                }
            }
            i = i + 1;
        }
        false
    }
}

/// How a request to the remote API failed before any answer came.
#[derive(Debug, Clone, Copy, PartialEq, Eq, Structural)]
pub enum NetworkFailure {
    Timeout,
    Connect,
    Other,
}

/// The error reported for a failed request: fixed advice for a time-out or
/// a refused connection, the transport's own text otherwise.
pub fn network_error(kind: NetworkFailure, detail: String) -> (r: AppError)
    ensures
        r matches AppError::NetworkError(m) && m@ == match kind {
            NetworkFailure::Timeout => "request timed out, check the network or try a proxy"@,
            NetworkFailure::Connect => "cannot reach the Cloudflare API, check the network"@,
            NetworkFailure::Other => detail@,
        },
{
    match kind {
        NetworkFailure::Timeout => AppError::NetworkError(
            String::from_str("request timed out, check the network or try a proxy"),
        ),
        NetworkFailure::Connect => AppError::NetworkError(
            String::from_str("cannot reach the Cloudflare API, check the network"),
        ),
        NetworkFailure::Other => AppError::NetworkError(detail),
    }
}

/// The text of an error answer: its first error message, or a fixed text
/// where it has none.
pub fn answer_error_text(first_message: Option<String>) -> (r: String)
    ensures
        r@ == match first_message {
            Some(m) => m@,
            None => "Unknown error"@,
        },
{
    match first_message {
        Some(m) => m,
        None => String::from_str("Unknown error"),
    }
}

} // verus!
