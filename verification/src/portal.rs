//! The portal client's logic: the fixed addresses and headers, the login form
//! body, the success marker search, and the four-step login sequence (fetch,
//! extract, submit, verify) as a state machine. The caller performs each
//! `Action` over the network and feeds the outcome back as an `Event`.

use vstd::prelude::*;
use crate::config::Values;
use crate::html::inputs_of;
use crate::html::parse_html;
use crate::html::token_of;

verus! {

/// The portal's site origin.
pub const QUANTIC_DOMAIN: &'static str = "https://www.quantic-telecom.net";

/// The path of the login form on the site.
pub const QUANTIC_ENDPOINT: &'static str = "/connexion-reseau";

/// The login form's full address: login page fetch and credential submission.
pub const QUANTIC_PORTAL: &'static str = "https://www.quantic-telecom.net/connexion-reseau";

/// The account page whose body tells a successful login apart.
pub const QUANTIC_ACCOUNT: &'static str = "https://www.quantic-telecom.net/compte";

/// The browser identity presented on every request: the server gates by this
/// header.
pub const USER_AGENT: &'static str =
    "Mozilla/5.0 (X11; Linux x86_64; rv:91.0) Gecko/20100101 Firefox/91.0";

/// The literal whose presence on the account page is taken as proof of a
/// logged-in session. Brittle by nature: it is tied to the site's markup.
pub const MARKER: &'static str = "Static sidebar for desktop";

/// `needle` occurs contiguously somewhere in `hay`.
pub open spec fn contains_seq(hay: Seq<u8>, needle: Seq<u8>) -> bool {
    exists|k: int|
        0 <= k <= hay.len() - needle.len() && #[trigger] hay.subrange(k, k + needle.len())
            == needle
}

/// Substring search: whether `needle` occurs contiguously in `hay`.
pub fn contains_bytes(hay: &[u8], needle: &[u8]) -> (r: bool)
    ensures
        r == contains_seq(hay@, needle@),
{
    let h: usize = hay.len();
    let n: usize = needle.len();
    if n > h {
        return false;
    }
    if n == 0 {
        proof {
            assert(hay@.subrange(0, 0 + needle@.len() as int) =~= needle@);
            assert(contains_seq(hay@, needle@));
        }
        return true;
    }
    let mut k: usize = 0;
    while k <= h - n
        invariant
            1 <= n <= h,
            h == hay@.len(),
            n == needle@.len(),
            k <= h - n + 1,
            forall|t: int| 0 <= t < k ==> #[trigger] hay@.subrange(t, t + n as int) != needle@,
        decreases h - n - k + 1,
    {
        let mut j: usize = 0;
        let mut ok = true;
        while ok && j < n
            invariant
                k + n <= h,
                h == hay@.len(),
                n == needle@.len(),
                j <= n,
                ok ==> forall|t: int| 0 <= t < j ==> hay@[k + t] == needle@[t],
                !ok ==> hay@.subrange(k as int, k + n as int) != needle@,
            decreases n - j + (if ok {
                1int
            } else {
                0int
            }),
        {
            if hay[k + j] != needle[j] {
                proof {
                    assert(hay@.subrange(k as int, k + n as int)[j as int] == hay@[k + j]);
                }
                ok = false;
            } else {
                j = j + 1;
            }
        }
        if ok {
            proof {
                assert(hay@.subrange(k as int, k + n as int) =~= needle@);
            }
            return true;
        }
        k = k + 1;
    }
    false
}

/// The account page counts as verified when its body holds the marker.
pub open spec fn page_verified(body: Seq<char>) -> bool {
    contains_seq(
        vstd::utf8::encode_utf8(body),
        vstd::utf8::encode_utf8("Static sidebar for desktop"@),
    )
}

/// Whether the account page's body holds the success marker.
pub fn contains_marker(body: &str) -> (r: bool)
    ensures
        r == page_verified(body@),
{
    contains_bytes(body.as_bytes(), MARKER.as_bytes())
}

/// The literal form value the force flag maps to: `on` when set, `off` when
/// not — never `true`/`false`.
pub open spec fn force_value(force: bool) -> Seq<char> {
    if force {
        "on"@
    } else {
        "off"@
    }
}

/// The exact form body of the login submission: four fields, in this order.
pub open spec fn form_fields_spec(
    token: Seq<char>,
    user: Seq<char>,
    pass: Seq<char>,
    force: bool,
) -> Seq<(Seq<char>, Seq<char>)> {
    seq![
        ("_token"@, token),
        ("email"@, user),
        ("password"@, pass),
        ("confirm_other_connections"@, force_value(force)),
    ]
}

/// Builds the login form's field list from the extracted token and the
/// resolved credentials.
pub fn form_fields(token: &str, creds: &Values) -> (r: Vec<(String, String)>)
    ensures
        r.deep_view() == form_fields_spec(token@, creds.user@, creds.pass@, creds.force),
{
    let mut v: Vec<(String, String)> = Vec::new();
    v.push(("_token".to_owned(), token.to_owned()));
    v.push(("email".to_owned(), creds.user.clone()));
    v.push(("password".to_owned(), creds.pass.clone()));
    let fv: &str = if creds.force {
        "on"
    } else {
        "off"
    };
    v.push(("confirm_other_connections".to_owned(), fv.to_owned()));
    proof {
        assert(v.deep_view() =~= form_fields_spec(
            token@,
            creds.user@,
            creds.pass@,
            creds.force,
        ));
    }
    v
}

/// The extra headers of the credential submission, in this order. The
/// `Filename` header mirrors the site's own client fingerprint; the server
/// may reject a submission without it.
pub open spec fn post_headers_spec() -> Seq<(Seq<char>, Seq<char>)> {
    seq![
        ("Connection"@, "close"@),
        ("Referer"@, "https://www.quantic-telecom.net/connexion-reseau"@),
        ("Origin"@, "https://www.quantic-telecom.net"@),
        ("Filename"@, "/connexion-reseau"@),
    ]
}

/// Builds the headers the credential submission carries.
pub fn post_headers() -> (r: Vec<(String, String)>)
    ensures
        r.deep_view() == post_headers_spec(),
{
    let mut v: Vec<(String, String)> = Vec::new();
    v.push(("Connection".to_owned(), "close".to_owned()));
    v.push(("Referer".to_owned(), QUANTIC_PORTAL.to_owned()));
    v.push(("Origin".to_owned(), QUANTIC_DOMAIN.to_owned()));
    v.push(("Filename".to_owned(), QUANTIC_ENDPOINT.to_owned()));
    proof {
        assert(v.deep_view() =~= post_headers_spec());
    }
    v
}

/// How a whole login run ends: verified success, a well-formed run the site
/// refused, a login page without a usable token, or a failure of transport.
#[derive(Debug, PartialEq, Eq)]
pub enum ConnectionResult {
    Success,
    Rejected,
    TokenNotFound,
    TransportError(String),
}

/// What the caller's transport hands back after performing an action: a page
/// body, the status of a completed submission, or a transport failure with
/// its cause.
#[derive(Debug, PartialEq, Eq)]
pub enum Event {
    Fetched(String),
    PostDone(u16),
    Failed(String),
}

/// What the caller is to do next: fetch a page, submit a form with the given
/// fields and extra headers, or stop with the run's outcome.
#[derive(Debug, PartialEq, Eq)]
pub enum Action {
    Get(String),
    Post(String, Vec<(String, String)>, Vec<(String, String)>),
    Finish(ConnectionResult),
}

/// Where in the four-step sequence a session stands.
#[derive(Debug, Clone, Copy, PartialEq, Eq)]
pub enum Phase {
    AwaitingLoginPage,
    AwaitingPostResult,
    AwaitingAccountPage,
    Done,
}

/// The token a login page yields for submission: the first `_token` input's
/// value, and only where it is non-empty — an empty token means the site's
/// layout changed, and the run must stop before any submission.
pub open spec fn usable_token(page: Seq<char>) -> Option<Seq<char>> {
    match token_of(inputs_of(page)) {
        Option::Some(t) => if t.len() > 0 {
            Some(t)
        } else {
            None
        },
        Option::None => None,
    }
}

/// One login run over one cookie-sharing client: strictly sequential, no
/// retries, any transport failure terminal.
pub struct Session {
    pub creds: Values,
    pub phase: Phase,
}

/// Which events a phase can be handed: page bodies while a page is awaited,
/// a submission status while one is outstanding, a transport failure any time
/// before the run is done.
pub open spec fn accepts(phase: Phase, event: Event) -> bool {
    match (phase, event) {
        (Phase::AwaitingLoginPage, Event::Fetched(_)) => true,
        (Phase::AwaitingPostResult, Event::PostDone(_)) => true,
        (Phase::AwaitingAccountPage, Event::Fetched(_)) => true,
        (Phase::Done, _) => false,
        (_, Event::Failed(_)) => true,
        _ => false,
    }
}

impl Session {
    /// Opens a login run for the given credentials; the first action is to
    /// fetch the login page.
    pub fn start(creds: Values) -> (r: (Session, Action))
        ensures
            r.0.phase == Phase::AwaitingLoginPage,
            r.0.creds == creds,
            r.1 matches Action::Get(url) && url@ == QUANTIC_PORTAL@,
    {
        (
            Session { creds, phase: Phase::AwaitingLoginPage },
            Action::Get(QUANTIC_PORTAL.to_owned()),
        )
    }

    /// Advances the run by one step on the outcome of the previous action.
    ///
    /// From the login page, a usable token leads to the submission of exactly
    /// the four form fields with the fixed headers; a page without one ends
    /// the run with `TokenNotFound` before anything is submitted. A completed
    /// submission leads to fetching the account page whatever its status was.
    /// The account page's body decides `Success` against `Rejected` by the
    /// marker alone. A transport failure at any step ends the run at once
    /// with `TransportError`, no retries.
    pub fn step(&mut self, event: Event) -> (r: Action)
        requires
            accepts(old(self).phase, event),
        ensures
            final(self).creds == old(self).creds,
            match old(self).phase {
                Phase::AwaitingLoginPage => match event {
                    Event::Fetched(page) => match usable_token(page@) {
                        Option::Some(tok) => {
                            &&& final(self).phase == Phase::AwaitingPostResult
                            &&& r matches Action::Post(url, fields, headers) && url@
                                == QUANTIC_PORTAL@ && fields.deep_view() == form_fields_spec(
                                tok,
                                old(self).creds.user@,
                                old(self).creds.pass@,
                                old(self).creds.force,
                            ) && headers.deep_view() == post_headers_spec()
                        },
                        Option::None => {
                            &&& final(self).phase == Phase::Done
                            &&& r == Action::Finish(ConnectionResult::TokenNotFound)
                        },
                    },
                    Event::Failed(cause) => {
                        &&& final(self).phase == Phase::Done
                        &&& r == Action::Finish(ConnectionResult::TransportError(cause))
                    },
                    Event::PostDone(_) => true,
                },
                Phase::AwaitingPostResult => match event {
                    Event::PostDone(_) => {
                        &&& final(self).phase == Phase::AwaitingAccountPage
                        &&& r matches Action::Get(url) && url@ == QUANTIC_ACCOUNT@
                    },
                    Event::Failed(cause) => {
                        &&& final(self).phase == Phase::Done
                        &&& r == Action::Finish(ConnectionResult::TransportError(cause))
                    },
                    Event::Fetched(_) => true,
                },
                Phase::AwaitingAccountPage => match event {
                    Event::Fetched(body) => {
                        &&& final(self).phase == Phase::Done
                        &&& r == Action::Finish(
                            if page_verified(body@) {
                                ConnectionResult::Success
                            } else {
                                ConnectionResult::Rejected
                            },
                        )
                    },
                    Event::Failed(cause) => {
                        &&& final(self).phase == Phase::Done
                        &&& r == Action::Finish(ConnectionResult::TransportError(cause))
                    },
                    Event::PostDone(_) => true,
                },
                Phase::Done => true,
            },
    {
        match (self.phase, event) {
            (Phase::AwaitingLoginPage, Event::Fetched(page)) => {
                match parse_html(page.as_str()) {
                    Some(tok) => {
                        if tok.as_str().is_empty() {
                            self.phase = Phase::Done;
                            Action::Finish(ConnectionResult::TokenNotFound)
                        } else {
                            self.phase = Phase::AwaitingPostResult;
                            let fields = form_fields(tok.as_str(), &self.creds);
                            Action::Post(QUANTIC_PORTAL.to_owned(), fields, post_headers())
                        }
                    },
                    None => {
                        self.phase = Phase::Done;
                        Action::Finish(ConnectionResult::TokenNotFound)
                    },
                }
            },
            (Phase::AwaitingPostResult, Event::PostDone(_status)) => {
                self.phase = Phase::AwaitingAccountPage;
                Action::Get(QUANTIC_ACCOUNT.to_owned())
            },
            (Phase::AwaitingAccountPage, Event::Fetched(body)) => {
                self.phase = Phase::Done;
                if contains_marker(body.as_str()) {
                    Action::Finish(ConnectionResult::Success)
                } else {
                    Action::Finish(ConnectionResult::Rejected)
                }
            },
            (_, Event::Failed(cause)) => {
                self.phase = Phase::Done;
                Action::Finish(ConnectionResult::TransportError(cause))
            },
            _ => vstd::pervasive::unreached(),
        }
    }
}

/// The process's exit code for an outcome: zero exactly on verified success.
pub fn exit_code(result: &ConnectionResult) -> (r: i32)
    ensures
        r == (if result is Success {
            0int
        } else {
            1int
        }),
{
    match result {
        ConnectionResult::Success => 0,
        _ => 1,
    }
}

} // verus!
