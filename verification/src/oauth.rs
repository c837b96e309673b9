//! The OAuth window controller. The host owns one browser window for the
//! flow; the controller decides every move of it: show it and navigate it
//! when a flow starts, watch each navigation for a callback URL, emit the
//! callback event and hide the window when one arrives, and turn a close
//! request into a hide so that the window is never destroyed.
//!
//! URL inspection and script building work on the URL's UTF-8 bytes. The
//! navigation instruction embeds the URL as a quoted string literal with the
//! quote, backslash and line-break bytes escaped, so that the URL stays data
//! even though the navigation channel evaluates script.
use vstd::prelude::*;
use vstd::string::StringSliceAdditionalSpecFns;

verus! {

/// The bytes of the fragment marker `#access_token=`.
pub open spec fn marker_token() -> Seq<u8> {
    seq![35u8, 97u8, 99u8, 99u8, 101u8, 115u8, 115u8, 95u8, 116u8, 111u8, 107u8, 101u8, 110u8, 61u8]
}

/// The bytes of the query marker `?code=`.
pub open spec fn marker_code() -> Seq<u8> {
    seq![63u8, 99u8, 111u8, 100u8, 101u8, 61u8]
}

/// The bytes of the query marker `&state=`.
pub open spec fn marker_state() -> Seq<u8> {
    seq![38u8, 115u8, 116u8, 97u8, 116u8, 101u8, 61u8]
}

pub open spec fn is_match_at(h: Seq<u8>, n: Seq<u8>, i: int) -> bool {
    0 <= i && i + n.len() <= h.len() && h.subrange(i, i + n.len()) == n
}

pub open spec fn contains_seq(h: Seq<u8>, n: Seq<u8>) -> bool {
    exists|i: int| is_match_at(h, n, i)
}

/// A URL counts as a completed callback when it carries an access-token
/// fragment marker, an authorization-code query marker, or a state query
/// marker anywhere in its text.
pub open spec fn is_callback_spec(u: Seq<u8>) -> bool {
    contains_seq(u, marker_token()) || contains_seq(u, marker_code()) || contains_seq(
        u,
        marker_state(),
    )
}

fn marker_token_vec() -> (v: Vec<u8>)
    ensures
        v@ == marker_token(),
{
    let mut v: Vec<u8> = Vec::new();
    v.push(35);
    v.push(97);
    v.push(99);
    v.push(99);
    v.push(101);
    v.push(115);
    v.push(115);
    v.push(95);
    v.push(116);
    v.push(111);
    v.push(107);
    v.push(101);
    v.push(110);
    v.push(61);
    proof {
        assert(v@ =~= marker_token());
    }
    v
}

fn marker_code_vec() -> (v: Vec<u8>)
    ensures
        v@ == marker_code(),
{
    let mut v: Vec<u8> = Vec::new();
    v.push(63);
    v.push(99);
    v.push(111);
    v.push(100);
    v.push(101);
    v.push(61);
    proof {
        assert(v@ =~= marker_code());
    }
    v
}

fn marker_state_vec() -> (v: Vec<u8>)
    ensures
        v@ == marker_state(),
{
    let mut v: Vec<u8> = Vec::new();
    v.push(38);
    v.push(115);
    v.push(116);
    v.push(97);
    v.push(116);
    v.push(101);
    v.push(61);
    proof {
        assert(v@ =~= marker_state());
    }
    v
}

/// Substring search over bytes.
fn contains_bytes(h: &[u8], n: &[u8]) -> (r: bool)
    requires
        n@.len() >= 1,
    ensures
        r == contains_seq(h@, n@),
{
    let hl: usize = h.len();
    let nl: usize = n.len();
    if nl > hl {
        return false;
    }
    let mut i: usize = 0;
    while i <= hl - nl
        invariant
            nl >= 1,
            nl <= hl,
            hl == h@.len(),
            nl == n@.len(),
            i <= hl - nl + 1,
            forall|k: int| 0 <= k < i ==> !is_match_at(h@, n@, k),
        decreases hl - nl + 1 - i,
    {
        let mut j: usize = 0;
        let mut mismatch: bool = false;
        while j < nl && !mismatch
            invariant
                nl <= hl,
                hl == h@.len(),
                nl == n@.len(),
                i + nl <= hl,
                j <= nl,
                !mismatch ==> (forall|t: int| 0 <= t < j ==> h@[i as int + t] == n@[t]),
                mismatch ==> !is_match_at(h@, n@, i as int),
            decreases nl - j,
        {
            if h[i + j] != n[j] {
                proof {
                    if is_match_at(h@, n@, i as int) {
                        let sub = h@.subrange(i as int, i as int + n@.len());
                        assert(sub[j as int] == n@[j as int]);
                        assert(sub[j as int] == h@[i as int + j as int]);
                    }
                }
                mismatch = true;
            }
            j += 1;
        }
        if !mismatch {
            proof {
                assert(h@.subrange(i as int, i as int + n@.len()) =~= n@);
                assert(is_match_at(h@, n@, i as int));
            }
            return true;
        }
        i += 1;
    }
    proof {
        assert forall|k: int| !is_match_at(h@, n@, k) by {
            if 0 <= k < i {
            }
        }
    }
    false
}

/// Whether a navigation URL is a completed OAuth callback.
pub fn is_callback_url(url: &str) -> (r: bool)
    ensures
        r == is_callback_spec(url.spec_bytes()),
{
    let u = url.as_bytes();
    let m1 = marker_token_vec();
    if contains_bytes(u, m1.as_slice()) {
        return true;
    }
    let m2 = marker_code_vec();
    if contains_bytes(u, m2.as_slice()) {
        return true;
    }
    let m3 = marker_state_vec();
    contains_bytes(u, m3.as_slice())
}

/// How one byte of the URL appears inside the quoted script literal: the
/// quote, the backslash and the two line-break bytes are escaped, every
/// other byte stands unchanged.
pub open spec fn esc_byte(b: u8) -> Seq<u8> {
    if b == 34 {
        seq![92u8, 34u8]
    } else if b == 92 {
        seq![92u8, 92u8]
    } else if b == 10 {
        seq![92u8, 110u8]
    } else if b == 13 {
        seq![92u8, 114u8]
    } else {
        seq![b]
    }
}

pub open spec fn js_escape(s: Seq<u8>) -> Seq<u8>
    decreases s.len(),
{
    if s.len() == 0 {
        Seq::empty()
    } else {
        js_escape(s.drop_last()) + esc_byte(s.last())
    }
}

/// The bytes of `window.location.replace("`.
pub open spec fn script_prefix() -> Seq<u8> {
    seq![119u8, 105u8, 110u8, 100u8, 111u8, 119u8, 46u8, 108u8, 111u8, 99u8, 97u8, 116u8, 105u8, 111u8, 110u8, 46u8, 114u8, 101u8, 112u8, 108u8, 97u8, 99u8, 101u8, 40u8, 34u8]
}

/// The bytes of `");`.
pub open spec fn script_suffix() -> Seq<u8> {
    seq![34u8, 41u8, 59u8]
}

/// The navigation instruction for a URL: the replace call around the URL as
/// an escaped string literal.
pub open spec fn nav_script_spec(u: Seq<u8>) -> Seq<u8> {
    script_prefix() + js_escape(u) + script_suffix()
}

/// Builds the navigation instruction, escaping the URL byte for byte.
pub fn navigation_script(url: &str) -> (r: Vec<u8>)
    ensures
        r@ == nav_script_spec(url.spec_bytes()),
{
    let u = url.as_bytes();
    let mut out: Vec<u8> = Vec::new();
    out.push(119);
    out.push(105);
    out.push(110);
    out.push(100);
    out.push(111);
    out.push(119);
    out.push(46);
    out.push(108);
    out.push(111);
    out.push(99);
    out.push(97);
    out.push(116);
    out.push(105);
    out.push(111);
    out.push(110);
    out.push(46);
    out.push(114);
    out.push(101);
    out.push(112);
    out.push(108);
    out.push(97);
    out.push(99);
    out.push(101);
    out.push(40);
    out.push(34);
    proof {
        assert(out@ =~= script_prefix());
        assert(u@.subrange(0, 0) =~= Seq::<u8>::empty());
    }
    let mut i: usize = 0;
    while i < u.len()
        invariant
            u@ == url.spec_bytes(),
            i <= u@.len(),
            out@ == script_prefix() + js_escape(u@.subrange(0, i as int)),
        decreases u@.len() - i,
    {
        let b = u[i];
        if b == 34 {
            out.push(92);
            out.push(34);
        } else if b == 92 {
            out.push(92);
            out.push(92);
        } else if b == 10 {
            out.push(92);
            out.push(110);
        } else if b == 13 {
            out.push(92);
            out.push(114);
        } else {
            out.push(b);
        }
        proof {
            let sub1 = u@.subrange(0, i as int + 1);
            assert(sub1.drop_last() =~= u@.subrange(0, i as int));
            assert(sub1.last() == u@[i as int]);
            assert(js_escape(sub1) == js_escape(u@.subrange(0, i as int)) + esc_byte(
                u@[i as int],
            ));
            assert(out@ =~= script_prefix() + js_escape(sub1));
        }
        i += 1;
    }
    proof {
        assert(u@.subrange(0, u@.len() as int) =~= u@);
    }
    out.push(34);
    out.push(41);
    out.push(59);
    proof {
        assert(out@ =~= script_prefix() + js_escape(u@) + script_suffix());
    }
    out
}

/// Whether the OAuth window exists and is shown. `Absent` stands for a host
/// that never created the window; the controller itself never creates nor
/// destroys it.
#[derive(Clone, Copy, Debug, PartialEq, Eq, Structural)]
pub enum WindowState {
    Absent,
    Hidden,
    Visible,
}

/// Where an open request leaves the window.
pub open spec fn open_next(s: WindowState) -> WindowState {
    if s is Absent {
        WindowState::Absent
    } else {
        WindowState::Visible
    }
}

/// Where a navigation leaves the window: a callback hides it, anything else
/// moves nothing.
pub open spec fn nav_next(s: WindowState, callback: bool) -> WindowState {
    if s is Absent {
        WindowState::Absent
    } else if callback {
        WindowState::Hidden
    } else {
        s
    }
}

/// Where a close request leaves the window: hidden, never gone.
pub open spec fn close_next(s: WindowState) -> WindowState {
    if s is Absent {
        WindowState::Absent
    } else {
        WindowState::Hidden
    }
}

/// The payload of the `auth-callback` event: the full URL that completed
/// the flow.
pub struct AuthUrlPayload {
    pub url: String,
}

/// What an open request decided: the window is missing, or show it and
/// evaluate this navigation instruction in it.
pub enum OpenPlan {
    MissingWindow,
    Proceed(Vec<u8>),
}

/// What a navigation decided: nothing, or emit this callback event once and
/// hide the window.
pub enum NavPlan {
    Ignore,
    Callback(AuthUrlPayload),
}

/// Starts an OAuth flow: with no window the request fails and nothing else
/// happens; otherwise the window is shown and navigated to the URL.
pub fn open_oauth_window(state: WindowState, auth_url: &str) -> (r: (WindowState, OpenPlan))
    ensures
        r.0 == open_next(state),
        state is Absent ==> r.1 matches OpenPlan::MissingWindow,
        !(state is Absent) ==> (r.1 matches OpenPlan::Proceed(script)
            && script@ == nav_script_spec(auth_url.spec_bytes())),
{
    match state {
        WindowState::Absent => (WindowState::Absent, OpenPlan::MissingWindow),
        _ => (WindowState::Visible, OpenPlan::Proceed(navigation_script(auth_url))),
    }
}

/// Reacts to one navigation inside the OAuth window. Exactly the URLs with
/// a callback marker produce an event, carrying the full URL, and hide the
/// window; every other navigation leaves state and world alone, however
/// often it fires.
pub fn on_navigation(state: WindowState, url: &str) -> (r: (WindowState, NavPlan))
    ensures
        r.0 == nav_next(state, is_callback_spec(url.spec_bytes())),
        is_callback_spec(url.spec_bytes()) ==> (r.1 matches NavPlan::Callback(p) && p.url@
            == url@),
        !is_callback_spec(url.spec_bytes()) ==> r.1 matches NavPlan::Ignore,
{
    if is_callback_url(url) {
        let payload = AuthUrlPayload { url: url.to_owned() };
        match state {
            WindowState::Absent => (WindowState::Absent, NavPlan::Callback(payload)),
            _ => (WindowState::Hidden, NavPlan::Callback(payload)),
        }
    } else {
        (state, NavPlan::Ignore)
    }
}

/// Reacts to a user close request: the close is always cancelled (the second
/// component) and the window is hidden instead.
pub fn on_close_requested(state: WindowState) -> (r: (WindowState, bool))
    ensures
        r.0 == close_next(state),
        r.1 == true,
{
    match state {
        WindowState::Absent => (WindowState::Absent, true),
        _ => (WindowState::Hidden, true),
    }
}

/// A close request never destroys the window: afterwards it is still there,
/// and a later open request shows it again.
pub proof fn lemma_close_never_destroys(s: WindowState)
    requires
        !(s is Absent),
    ensures
        !(close_next(s) is Absent),
        open_next(close_next(s)) is Visible,
{
}

/// A navigation without a callback marker leaves the window state alone,
/// whatever that state was.
pub proof fn lemma_plain_navigation_is_idle(s: WindowState, u: Seq<u8>)
    requires
        !is_callback_spec(u),
    ensures
        nav_next(s, is_callback_spec(u)) == s,
{
}

/// A completed flow ends hidden: opening shows the window, the callback
/// navigation hides it again.
pub proof fn lemma_flow_ends_hidden(s: WindowState, u: Seq<u8>)
    requires
        !(s is Absent),
        is_callback_spec(u),
    ensures
        nav_next(open_next(s), is_callback_spec(u)) is Hidden,
{
}

} // verus!
