//! Messages exchanged with the search backend.

use vstd::prelude::*;

verus! {

/// Where an icon comes from: a symbolic icon name or a MIME type.
#[derive(Debug, Clone, PartialEq, Eq)]
pub enum IconRef {
    Name(String),
    Mime(String),
}

/// One ranked candidate reported by the backend.
#[derive(Debug, Clone, PartialEq, Eq)]
pub struct ResultItem {
    /// Backend-assigned identifier, unique within one result list.
    pub id: u32,
    pub name: String,
    pub description: String,
    pub icon: Option<IconRef>,
    pub category_icon: Option<IconRef>,
}

/// A secondary action that the backend offers for one item.
#[derive(Debug, Clone, PartialEq, Eq)]
pub struct ContextOption {
    pub id: u32,
    pub name: String,
}

/// Which graphics device a launched entry should prefer.
#[derive(Debug, Clone, Copy, PartialEq, Eq, Structural)]
pub enum GpuPreference {
    Default,
    NonDefault,
    SpecificIdx(u32),
}

/// A request sent to the backend.
#[derive(Debug, Clone, PartialEq, Eq)]
pub enum LauncherRequest {
    Search(String),
    Activate(u32),
}

/// The mathematical value of a [`LauncherRequest`].
pub enum RequestModel {
    Search(Seq<char>),
    Activate(u32),
}

impl View for LauncherRequest {
    type V = RequestModel;

    open spec fn view(&self) -> RequestModel {
        match self {
            LauncherRequest::Search(q) => RequestModel::Search(q@),
            LauncherRequest::Activate(id) => RequestModel::Activate(*id),
        }
    }
}

/// A response received from the backend.
#[derive(Debug, Clone, PartialEq, Eq)]
pub enum LauncherResponse {
    /// The whole application should terminate.
    Close,
    /// Secondary actions for one item.
    Context { id: u32, options: Vec<ContextOption> },
    /// A desktop entry that the launcher should start.
    DesktopEntry { path: String, gpu_preference: GpuPreference },
    /// The new result list, replacing the previous one.
    Update(Vec<ResultItem>),
    /// Text that replaces the query.
    Fill(String),
}

/// What the backend session driver reports to the orchestrator.
#[derive(Debug, Clone, PartialEq, Eq)]
pub enum LauncherEvent {
    /// A session is established and accepts requests.
    Started,
    /// The backend answered.
    Response(LauncherResponse),
    /// The session failed or ended; it accepts no more requests.
    Error(String),
}

} // verus!
