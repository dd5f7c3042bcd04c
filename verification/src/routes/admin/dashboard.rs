//! The admin dashboard.

use vstd::prelude::*;
use vstd::string::StringExecFns;
use uuid::Uuid;

verus! {

/// What the dashboard handler does for a session.
#[derive(Debug)]
pub enum DashboardAction {
    /// Look up the name of this user and greet them.
    FetchUsername { user_id: Uuid },
    /// Send the visitor elsewhere (`303 See Other`).
    RedirectTo { location: String },
}

/// The dashboard is for logged-in users only: with a user id in the
/// session it looks the user up, without one it redirects to `/login`.
pub fn admin_dashboard(user_id: Option<Uuid>) -> (r: DashboardAction)
    ensures
        user_id matches Some(id) ==> (r == (DashboardAction::FetchUsername { user_id: id })),
        user_id is None ==> (r matches DashboardAction::RedirectTo { location } && location@
            == "/login"@),
{
    match user_id {
        Some(id) => DashboardAction::FetchUsername { user_id: id },
        None => DashboardAction::RedirectTo { location: String::from_str("/login") },
    }
}

} // verus!
