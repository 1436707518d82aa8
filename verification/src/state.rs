//! What the applet knows at a given moment: its settings, the latest news and
//! the latest results of the update checks.
use crate::config::Config;
use crate::packages::{AurUpdate, DevelUpdate, PacmanUpdate};
use crate::widgets::Collapsed;
use vstd::prelude::*;

verus! {

/// The outcome of the latest check, with the last good value kept where a
/// check failed after an earlier one succeeded.
pub enum BasicResultWithHistory<T> {
    Success { value: T },
    Error,
    ErrorWithHistory { last_value: T },
}

impl<T> BasicResultWithHistory<Vec<T>> {
    /// The number of items of the value held, none where there is no value.
    pub fn len(&self) -> (r: usize)
        ensures
            r == match self {
                BasicResultWithHistory::Success { value } => value@.len(),
                BasicResultWithHistory::Error => 0,
                BasicResultWithHistory::ErrorWithHistory { last_value } => last_value@.len(),
            },
    {
        match self {
            BasicResultWithHistory::Success { value } => value.len(),
            BasicResultWithHistory::Error => 0,
            BasicResultWithHistory::ErrorWithHistory { last_value } => last_value.len(),
        }
    }

    /// Whether the latest check failed.
    pub fn has_error(&self) -> (r: bool)
        ensures
            r == !(self is Success),
    {
        match self {
            BasicResultWithHistory::Success { .. } => false,
            _ => true,
        }
    }
}

/// An icon shown beside the news heading.
#[derive(Copy, Clone, Debug, PartialEq, Eq, Structural)]
pub enum AppIcon {
    Loading,
    Error,
}

/// A news item with the moment it was published.
pub struct DatedNewsItem {
    pub title: Option<String>,
    pub link: Option<String>,
    /// Seconds since the Unix epoch.
    pub date: i64,
}

impl DatedNewsItem {
    /// The title, empty where the item has none.
    pub fn display_title(&self) -> (r: String)
        ensures
            r@ == match self.title {
                Some(t) => t@,
                None => Seq::<char>::empty(),
            },
    {
        match &self.title {
            Some(t) => t.clone(),
            None => String::new(),
        }
    }
}

/// Where fetching the news stands.
pub enum NewsState {
    Init,
    InitError,
    Received { value: Vec<DatedNewsItem> },
    Clearing { last_value: Vec<DatedNewsItem> },
    ClearingError { last_value: Vec<DatedNewsItem> },
    Error { last_value: Vec<DatedNewsItem> },
}

/// Where checking for updates stands.
pub enum UpdatesState {
    Init,
    Running {
        /// Seconds since the Unix epoch.
        last_checked_online: i64,
        pacman: BasicResultWithHistory<Vec<PacmanUpdate>>,
        aur: BasicResultWithHistory<Vec<AurUpdate>>,
        devel: BasicResultWithHistory<Vec<DevelUpdate>>,
        refreshing: bool,
    },
}

/// The collapsible sections of the popup, one per source of updates.
#[derive(Copy, Clone, Debug, PartialEq, Eq, Structural)]
pub enum CollapsibleType {
    Pacman,
    Aur,
    Devel,
}

impl CollapsibleType {
    /// The name under which the source is shown.
    pub fn source_name(&self) -> (r: &'static str)
        ensures
            r@ == match self {
                CollapsibleType::Pacman => "pacman"@,
                CollapsibleType::Aur => "AUR"@,
                CollapsibleType::Devel => "devel"@,
            },
    {
        match self {
            CollapsibleType::Pacman => "pacman",
            CollapsibleType::Aur => "AUR",
            CollapsibleType::Devel => "devel",
        }
    }
}

/// The state of the applet that the popup is drawn from.
pub struct CosmicAppletArch {
    pub config: Config,
    pub news: NewsState,
    pub updates: UpdatesState,
    pub pacman_list_state: Collapsed,
    pub aur_list_state: Collapsed,
    pub devel_list_state: Collapsed,
}

} // verus!
