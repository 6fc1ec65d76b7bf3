//! Where the user is in the application, and how it looks.

use vstd::prelude::*;
use crate::user::UserData;

verus! {

/// The colour scheme of the interface.
#[derive(Debug, Clone, Copy, PartialEq, Eq, Structural)]
pub enum Theme {
    Light,
    Blue,
    Dark,
    Terminal,
}

impl Default for Theme {
    fn default() -> (r: Theme)
        ensures
            r == Theme::Light,
    {
        Theme::Light
    }
}

/// Which presentation of the events the dashboard shows.
#[derive(Debug, Clone, Copy, PartialEq, Eq, Structural)]
pub enum DashboardView {
    MapView,
    DataList,
}

impl Default for DashboardView {
    fn default() -> (r: DashboardView)
        ensures
            r == DashboardView::DataList,
    {
        DashboardView::DataList
    }
}

/// Signed out, or signed in with the given credentials.
#[derive(Debug, Clone, PartialEq)]
pub enum AppState {
    Login,
    Dashboard(UserData),
}

} // verus!
