//! Authentication method selection.
//!
//! The server selects one method from the client's offered list: if it is
//! configured to require credentials and username/password is offered, that
//! method is selected; otherwise, if no-auth is permitted and offered, no
//! authentication is selected; otherwise no method is acceptable and the
//! session is refused.

use vstd::prelude::*;
use crate::socks::AuthMethod;

verus! {

/// The selection rule: `UserPass` when credentials are required and offered,
/// else `NoAuth` when permitted and offered, else `NoMethods`.
pub open spec fn spec_select_method(
    offered: Seq<AuthMethod>,
    allow_no_auth: bool,
    require_user_pass: bool,
) -> AuthMethod {
    if require_user_pass && offered.contains(AuthMethod::UserPass) {
        AuthMethod::UserPass
    } else if allow_no_auth && offered.contains(AuthMethod::NoAuth) {
        AuthMethod::NoAuth
    } else {
        AuthMethod::NoMethods
    }
}

/// Whether `offered` holds the method `m`.
fn contains_method(offered: &Vec<AuthMethod>, m: AuthMethod) -> (r: bool)
    ensures
        r == offered@.contains(m),
{
    let mut i: usize = 0;
    while i < offered.len()
        invariant
            i <= offered@.len(),
            forall|j: int| 0 <= j < i ==> offered@[j] != m,
        decreases offered@.len() - i,
    {
        if offered[i] == m {
            return true;
        }
        i = i + 1;
    }
    false
}

/// Selects the authentication method for a session, per the selection rule.
pub fn select_method(
    offered: &Vec<AuthMethod>,
    allow_no_auth: bool,
    require_user_pass: bool,
) -> (r: AuthMethod)
    ensures
        r == spec_select_method(offered@, allow_no_auth, require_user_pass),
{
    if require_user_pass && contains_method(offered, AuthMethod::UserPass) {
        AuthMethod::UserPass
    } else if allow_no_auth && contains_method(offered, AuthMethod::NoAuth) {
        AuthMethod::NoAuth
    } else {
        AuthMethod::NoMethods
    }
}

/// Method selection is deterministic — it is a function of the offered set
/// and the configuration alone — and each outcome is exactly characterized:
/// `NoMethods` is selected if and only if no configured method is offered.
pub proof fn lemma_method_selection(
    offered: Seq<AuthMethod>,
    allow_no_auth: bool,
    require_user_pass: bool,
)
    ensures
        (spec_select_method(offered, allow_no_auth, require_user_pass) == AuthMethod::UserPass)
            <==> (require_user_pass && offered.contains(AuthMethod::UserPass)),
        (spec_select_method(offered, allow_no_auth, require_user_pass) == AuthMethod::NoAuth)
            <==> (!(require_user_pass && offered.contains(AuthMethod::UserPass)) && allow_no_auth
            && offered.contains(AuthMethod::NoAuth)),
        (spec_select_method(offered, allow_no_auth, require_user_pass) == AuthMethod::NoMethods)
            <==> (!(require_user_pass && offered.contains(AuthMethod::UserPass)) && !(allow_no_auth
            && offered.contains(AuthMethod::NoAuth))),
{
}

} // verus!
