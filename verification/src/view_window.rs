//! What the popup of the applet shows, decided from the state of the applet.
use crate::config::Config;
use crate::packages::{
    AurUpdate, DevelUpdate, DisplayPackage, DisplayPackageView, PacmanUpdate, ToDisplayPackage,
};
use crate::state::{
    AppIcon, BasicResultWithHistory, CollapsibleType, CosmicAppletArch, DatedNewsItem, NewsState,
    UpdatesState,
};
use crate::widgets::{
    overflowing_list_layout, spec_more, spec_shown, Collapsed, OverflowingList,
    OverflowingListView,
};
use vstd::prelude::*;

verus! {

/// The most news items listed before the "n more" line.
pub const MAX_NEWS_LINES: usize = 3;

/// The most packages listed per source before the "n more" line.
pub const MAX_UPDATE_LINES: usize = 20;

/// All that is needed to draw the news part of the popup.
pub enum NewsView<'a> {
    Empty,
    ErrorOnly,
    News { icon: Option<AppIcon>, news: &'a Vec<DatedNewsItem>, has_error: bool },
}

/// The news part of the popup for each state of the news: nothing before the
/// first fetch, an error line where it failed, else the last news with an
/// icon for a clearing in progress or failed, and an error line where the
/// latest fetch failed.
pub open spec fn spec_news_view<'a>(news: &'a NewsState) -> NewsView<'a> {
    match news {
        NewsState::Init => NewsView::Empty,
        NewsState::InitError => NewsView::ErrorOnly,
        NewsState::Received { value } => NewsView::News { icon: None, news: value, has_error: false },
        NewsState::Clearing { last_value } => NewsView::News {
            icon: Some(AppIcon::Loading),
            news: last_value,
            has_error: false,
        },
        NewsState::ClearingError { last_value } => NewsView::News {
            icon: Some(AppIcon::Error),
            news: last_value,
            has_error: false,
        },
        NewsState::Error { last_value } => NewsView::News {
            icon: None,
            news: last_value,
            has_error: true,
        },
    }
}

/// The news part of the popup: see [`spec_news_view`].
pub fn get_news_view(app: &CosmicAppletArch) -> (r: NewsView<'_>)
    ensures
        r == spec_news_view(&app.news),
{
    match &app.news {
        NewsState::Init => NewsView::Empty,
        NewsState::InitError => NewsView::ErrorOnly,
        NewsState::Received { value } => NewsView::News { icon: None, news: value, has_error: false },
        NewsState::Clearing { last_value } => NewsView::News {
            icon: Some(AppIcon::Loading),
            news: last_value,
            has_error: false,
        },
        NewsState::ClearingError { last_value } => NewsView::News {
            icon: Some(AppIcon::Error),
            news: last_value,
            has_error: false,
        },
        NewsState::Error { last_value } => NewsView::News {
            icon: None,
            news: last_value,
            has_error: true,
        },
    }
}

/// All that is needed to draw the part of the popup for one source of updates.
pub enum SourceUpdatesView<'a, T> {
    ErrorOnly,
    Updates { updates: &'a Vec<T>, has_error: bool },
}

/// The updates of a source to show: the latest ones; after a failed check
/// the last ones found, marked with the error; only the error where no
/// update was found before.
pub open spec fn spec_source_updates_view<'a, T>(
    updates: &'a BasicResultWithHistory<Vec<T>>,
) -> SourceUpdatesView<'a, T> {
    match updates {
        BasicResultWithHistory::Success { value } => SourceUpdatesView::Updates {
            updates: value,
            has_error: false,
        },
        BasicResultWithHistory::Error => SourceUpdatesView::ErrorOnly,
        BasicResultWithHistory::ErrorWithHistory { last_value } => if last_value@.len() == 0 {
            SourceUpdatesView::ErrorOnly
        } else {
            SourceUpdatesView::Updates { updates: last_value, has_error: true }
        },
    }
}

/// The updates of one source to show: see [`spec_source_updates_view`].
pub fn get_source_updates_view<T>(updates: &BasicResultWithHistory<Vec<T>>) -> (r:
    SourceUpdatesView<'_, T>)
    ensures
        r == spec_source_updates_view(updates),
{
    match updates {
        BasicResultWithHistory::Success { value } => SourceUpdatesView::Updates {
            updates: value,
            has_error: false,
        },
        BasicResultWithHistory::Error => SourceUpdatesView::ErrorOnly,
        BasicResultWithHistory::ErrorWithHistory { last_value } => {
            if last_value.len() == 0 {
                SourceUpdatesView::ErrorOnly
            } else {
                SourceUpdatesView::Updates { updates: last_value, has_error: true }
            }
        },
    }
}

/// All that is needed to draw the updates part of the popup.
pub enum UpdatesView<'a> {
    Loading,
    Loaded {
        pacman_updates: SourceUpdatesView<'a, PacmanUpdate>,
        aur_updates: SourceUpdatesView<'a, AurUpdate>,
        devel_updates: SourceUpdatesView<'a, DevelUpdate>,
        /// Seconds since the Unix epoch.
        last_refreshed: i64,
        refreshing: bool,
        no_updates_available: bool,
    },
}

/// Whether a check succeeded and found no update.
pub open spec fn spec_nothing_pending<T>(updates: &BasicResultWithHistory<Vec<T>>) -> bool {
    updates matches BasicResultWithHistory::Success { value } && value@.len() == 0
}

/// The updates part of the popup: loading until the checks run; then each
/// source's updates, when the check last went online, whether one is running,
/// and whether every source was checked without error and has no update.
pub open spec fn spec_updates_view<'a>(updates: &'a UpdatesState) -> UpdatesView<'a> {
    match updates {
        UpdatesState::Init => UpdatesView::Loading,
        UpdatesState::Running { last_checked_online, pacman, aur, devel, refreshing } => {
            UpdatesView::Loaded {
                pacman_updates: spec_source_updates_view(pacman),
                aur_updates: spec_source_updates_view(aur),
                devel_updates: spec_source_updates_view(devel),
                last_refreshed: *last_checked_online,
                refreshing: *refreshing,
                no_updates_available: spec_nothing_pending(pacman) && spec_nothing_pending(aur)
                    && spec_nothing_pending(devel),
            }
        },
    }
}

/// The updates part of the popup: see [`spec_updates_view`].
pub fn get_updates_view(app: &CosmicAppletArch) -> (r: UpdatesView<'_>)
    ensures
        r == spec_updates_view(&app.updates),
{
    let UpdatesState::Running { last_checked_online, pacman, aur, devel, refreshing } =
        &app.updates else {
        return UpdatesView::Loading;
    };
    let no_updates_available = pacman.len() == 0 && !pacman.has_error() && aur.len() == 0
        && !aur.has_error() && devel.len() == 0 && !devel.has_error();
    UpdatesView::Loaded {
        pacman_updates: get_source_updates_view(pacman),
        aur_updates: get_source_updates_view(aur),
        devel_updates: get_source_updates_view(devel),
        last_refreshed: *last_checked_online,
        refreshing: *refreshing,
        no_updates_available,
    }
}

/// The package lines of a source: those of the first updates that fit, and
/// the number of updates left out.
pub open spec fn spec_package_list<T: ToDisplayPackage>(
    updates: Seq<T>,
    other_repo_urls: Map<Seq<char>, Seq<char>>,
    max_items: usize,
) -> OverflowingListView<DisplayPackageView> {
    OverflowingListView {
        items: updates.take(spec_shown(updates.len(), max_items as nat) as int).map_values(
            |u: T| u.spec_display(other_repo_urls),
        ),
        more: spec_more(updates.len(), max_items as nat),
    }
}

/// The package lines of a source's section.
pub fn package_list_widget<T: ToDisplayPackage>(
    updates: &Vec<T>,
    config: &Config,
    max_items: usize,
) -> (r: OverflowingList<DisplayPackage>)
    ensures
        r@ == spec_package_list(updates@, config.other_repo_urls@, max_items),
{
    let (shown, more) = overflowing_list_layout(updates.len(), max_items);
    let ghost urls = config.other_repo_urls@;
    let mut items: Vec<DisplayPackage> = Vec::new();
    let mut i: usize = 0;
    while i < shown
        invariant
            shown <= updates@.len(),
            i <= shown,
            urls == config.other_repo_urls@,
            items@.map_values(|x: DisplayPackage| x@) =~= updates@.take(i as int).map_values(
                |u: T| u.spec_display(urls),
            ),
        decreases shown - i,
    {
        let p = updates[i].to_display_package(config);
        let ghost before = items@;
        items.push(p);
        assert(items@.map_values(|x: DisplayPackage| x@) =~= before.map_values(
            |x: DisplayPackage| x@,
        ).push(p@));
        assert(updates@.take(i + 1) =~= updates@.take(i as int).push(updates@[i as int]));
        assert(updates@.take(i + 1).map_values(|u: T| u.spec_display(urls)) =~= updates@.take(
            i as int,
        ).map_values(|u: T| u.spec_display(urls)).push(updates@[i as int].spec_display(urls)));
        i = i + 1;
    }
    OverflowingList { items, more }
}

/// The section of one source of updates.
pub enum SourceRow {
    /// Only a line saying that checking the source failed.
    Error { source: CollapsibleType },
    /// A heading that gives the number of updates, and whether the latest
    /// check failed, over the package lines.
    Updates {
        source: CollapsibleType,
        count: usize,
        has_error: bool,
        collapsed: Collapsed,
        packages: OverflowingList<DisplayPackage>,
    },
}

/// What a [`SourceRow`] shows.
pub enum SourceRowView {
    Error { source: CollapsibleType },
    Updates {
        source: CollapsibleType,
        count: usize,
        has_error: bool,
        collapsed: Collapsed,
        packages: OverflowingListView<DisplayPackageView>,
    },
}

impl View for SourceRow {
    type V = SourceRowView;

    open spec fn view(&self) -> SourceRowView {
        match self {
            SourceRow::Error { source } => SourceRowView::Error { source: *source },
            SourceRow::Updates { source, count, has_error, collapsed, packages } => {
                SourceRowView::Updates {
                    source: *source,
                    count: *count,
                    has_error: *has_error,
                    collapsed: *collapsed,
                    packages: packages@,
                }
            },
        }
    }
}

/// What an optional section shows.
pub open spec fn opt_row_view(r: Option<SourceRow>) -> Option<SourceRowView> {
    match r {
        Some(x) => Some(x@),
        None => None,
    }
}

/// The section of one source: none where the check succeeded and found no
/// update; the error line where there is nothing but an error; else the
/// updates under a heading.
pub open spec fn spec_row_for_source<T: ToDisplayPackage>(
    source: CollapsibleType,
    updates: SourceUpdatesView<T>,
    other_repo_urls: Map<Seq<char>, Seq<char>>,
    collapsed: Collapsed,
    max_items: usize,
) -> Option<SourceRowView> {
    match updates {
        SourceUpdatesView::ErrorOnly => Some(SourceRowView::Error { source }),
        SourceUpdatesView::Updates { updates, has_error } => if !has_error && updates@.len() == 0 {
            None
        } else {
            Some(
                SourceRowView::Updates {
                    source,
                    count: updates@.len() as usize,
                    has_error,
                    collapsed,
                    packages: spec_package_list(updates@, other_repo_urls, max_items),
                },
            )
        },
    }
}

/// The section of one source: see [`spec_row_for_source`].
pub fn get_row_for_source<T: ToDisplayPackage>(
    source: CollapsibleType,
    updates: &SourceUpdatesView<T>,
    config: &Config,
    collapsed: Collapsed,
    max_items: usize,
) -> (r: Option<SourceRow>)
    ensures
        opt_row_view(r) == spec_row_for_source(
            source,
            *updates,
            config.other_repo_urls@,
            collapsed,
            max_items,
        ),
{
    match updates {
        SourceUpdatesView::ErrorOnly => Some(SourceRow::Error { source }),
        SourceUpdatesView::Updates { updates, has_error } => {
            if !*has_error && updates.len() == 0 {
                None
            } else {
                Some(
                    SourceRow::Updates {
                        source,
                        count: updates.len(),
                        has_error: *has_error,
                        collapsed,
                        packages: package_list_widget(updates, config, max_items),
                    },
                )
            }
        },
    }
}

/// The news section.
pub enum NewsRow<'a> {
    /// A line saying that there is no news.
    NoNews,
    /// A heading, with the icon where there is one, over the first `shown`
    /// news items and a line counting the `more` items left out.
    Available {
        icon: Option<AppIcon>,
        news: &'a Vec<DatedNewsItem>,
        shown: usize,
        more: Option<usize>,
    },
}

/// The news section for a list of news.
pub open spec fn spec_news_available<'a>(
    news: &'a Vec<DatedNewsItem>,
    icon: Option<AppIcon>,
    max_news_lines: usize,
) -> NewsRow<'a> {
    if news@.len() == 0 {
        NewsRow::NoNews
    } else {
        NewsRow::Available {
            icon,
            news,
            shown: spec_shown(news@.len(), max_news_lines as nat) as usize,
            more: spec_more(news@.len(), max_news_lines as nat),
        }
    }
}

/// The news section: a line saying there is no news where the list is
/// empty, else the heading over the first `max_news_lines` items.
pub fn news_available_widget<'a>(
    news: &'a Vec<DatedNewsItem>,
    icon: Option<AppIcon>,
    max_news_lines: usize,
) -> (r: NewsRow<'a>)
    ensures
        r == spec_news_available(news, icon, max_news_lines),
{
    if news.len() == 0 {
        NewsRow::NoNews
    } else {
        let (shown, more) = overflowing_list_layout(news.len(), max_news_lines);
        NewsRow::Available { icon, news, shown, more }
    }
}

/// One line or block of the popup, from top to bottom.
pub enum PopupRow<'a> {
    Source(SourceRow),
    Divider,
    /// A line saying that no update is available.
    NoUpdatesAvailable,
    /// When the checks last went online, with a spinning icon while one runs;
    /// pressing it starts a check.
    LastChecked { last_refreshed: i64, refreshing: bool },
    /// A line saying that the first check is running.
    Loading,
    /// The button that runs the AUR helper.
    UpdateButton,
    News(NewsRow<'a>),
    /// A line saying that fetching the news failed.
    NewsError,
}

/// What a [`PopupRow`] shows.
pub enum PopupRowView<'a> {
    Source(SourceRowView),
    Divider,
    NoUpdatesAvailable,
    LastChecked { last_refreshed: i64, refreshing: bool },
    Loading,
    UpdateButton,
    News(NewsRow<'a>),
    NewsError,
}

impl<'a> View for PopupRow<'a> {
    type V = PopupRowView<'a>;

    open spec fn view(&self) -> PopupRowView<'a> {
        match self {
            PopupRow::Source(r) => PopupRowView::Source(r@),
            PopupRow::Divider => PopupRowView::Divider,
            PopupRow::NoUpdatesAvailable => PopupRowView::NoUpdatesAvailable,
            PopupRow::LastChecked { last_refreshed, refreshing } => PopupRowView::LastChecked {
                last_refreshed: *last_refreshed,
                refreshing: *refreshing,
            },
            PopupRow::Loading => PopupRowView::Loading,
            PopupRow::UpdateButton => PopupRowView::UpdateButton,
            PopupRow::News(n) => PopupRowView::News(*n),
            PopupRow::NewsError => PopupRowView::NewsError,
        }
    }
}

/// What a list of rows shows.
pub open spec fn rows_view<'a>(rows: Seq<PopupRow<'a>>) -> Seq<PopupRowView<'a>> {
    rows.map_values(|x: PopupRow<'a>| x@)
}

/// A source's section followed by a divider, or nothing.
pub open spec fn source_rows<'a>(row: Option<SourceRowView>) -> Seq<PopupRowView<'a>> {
    match row {
        Some(r) => seq![PopupRowView::Source(r), PopupRowView::Divider],
        None => Seq::empty(),
    }
}

/// The row where `shown` holds, else nothing.
pub open spec fn row_if<'a>(shown: bool, row: PopupRowView<'a>) -> Seq<PopupRowView<'a>> {
    if shown {
        seq![row]
    } else {
        Seq::empty()
    }
}

/// The section of one source in the popup, nothing while loading.
pub open spec fn spec_source_section<'a>(
    app: &'a CosmicAppletArch,
    source: CollapsibleType,
) -> Option<SourceRowView> {
    match spec_updates_view(&app.updates) {
        UpdatesView::Loading => None,
        UpdatesView::Loaded { pacman_updates, aur_updates, devel_updates, .. } => match source {
            CollapsibleType::Pacman => spec_row_for_source(
                source,
                pacman_updates,
                app.config.other_repo_urls@,
                app.pacman_list_state,
                MAX_UPDATE_LINES,
            ),
            CollapsibleType::Aur => spec_row_for_source(
                source,
                aur_updates,
                app.config.other_repo_urls@,
                app.aur_list_state,
                MAX_UPDATE_LINES,
            ),
            CollapsibleType::Devel => spec_row_for_source(
                source,
                devel_updates,
                app.config.other_repo_urls@,
                app.devel_list_state,
                MAX_UPDATE_LINES,
            ),
        },
    }
}

/// The news section of the popup, where there is one.
pub open spec fn spec_news_section<'a>(app: &'a CosmicAppletArch) -> Option<NewsRow<'a>> {
    match spec_news_view(&app.news) {
        NewsView::News { icon, news, .. } => Some(spec_news_available(news, icon, MAX_NEWS_LINES)),
        _ => None,
    }
}

/// Whether the popup says that fetching the news failed.
pub open spec fn spec_news_error<'a>(app: &'a CosmicAppletArch) -> bool {
    match spec_news_view(&app.news) {
        NewsView::ErrorOnly => true,
        NewsView::News { has_error, .. } => has_error,
        NewsView::Empty => false,
    }
}

/// When the checks last went online, nothing before the first check.
pub open spec fn last_checked_rows<'a>(uv: UpdatesView<'a>) -> Seq<PopupRowView<'a>> {
    match uv {
        UpdatesView::Loaded { last_refreshed, refreshing, .. } => seq![
            PopupRowView::LastChecked { last_refreshed, refreshing },
        ],
        UpdatesView::Loading => Seq::empty(),
    }
}

/// Whether the popup says that no update is available.
pub open spec fn spec_no_updates_available(uv: UpdatesView) -> bool {
    uv matches UpdatesView::Loaded { no_updates_available, .. } && no_updates_available
}

/// The news section, where there is one.
pub open spec fn news_rows<'a>(app: &'a CosmicAppletArch) -> Seq<PopupRowView<'a>> {
    match spec_news_section(app) {
        Some(n) => seq![PopupRowView::News(n)],
        None => Seq::empty(),
    }
}

/// The rows of the popup: the section of each source that has one, each
/// followed by a divider; the line saying that no update is available; when
/// the checks last went online, or the loading line before the first check;
/// the update button between two dividers; the news section and the news
/// error line.
pub open spec fn spec_view_window<'a>(app: &'a CosmicAppletArch) -> Seq<PopupRowView<'a>> {
    let uv = spec_updates_view(&app.updates);
    source_rows(spec_source_section(app, CollapsibleType::Pacman)) + source_rows(
        spec_source_section(app, CollapsibleType::Aur),
    ) + source_rows(spec_source_section(app, CollapsibleType::Devel)) + row_if(
        spec_no_updates_available(uv),
        PopupRowView::NoUpdatesAvailable,
    ) + last_checked_rows(uv) + row_if(uv is Loading, PopupRowView::Loading) + seq![
        PopupRowView::Divider,
        PopupRowView::UpdateButton,
        PopupRowView::Divider,
    ] + news_rows(app) + row_if(spec_news_error(app), PopupRowView::NewsError)
}

fn push_row<'a>(rows: &mut Vec<PopupRow<'a>>, row: PopupRow<'a>)
    ensures
        rows_view(final(rows)@) == rows_view(old(rows)@).push(row@),
{
    let ghost before = rows@;
    rows.push(row);
    assert(rows_view(rows@) =~= rows_view(before).push(row@));
}

fn push_source_row<'a>(rows: &mut Vec<PopupRow<'a>>, row: Option<SourceRow>)
    ensures
        rows_view(final(rows)@) == rows_view(old(rows)@) + source_rows(opt_row_view(row)),
{
    let ghost before = rows_view(rows@);
    match row {
        Some(r) => {
            let ghost v = r@;
            push_row(rows, PopupRow::Source(r));
            push_row(rows, PopupRow::Divider);
            assert(rows_view(rows@) =~= before + source_rows(Some(v)));
        },
        None => {
            assert(rows_view(rows@) =~= before + source_rows(None));
        },
    }
}

fn push_row_if<'a>(rows: &mut Vec<PopupRow<'a>>, shown: bool, row: PopupRow<'a>)
    ensures
        rows_view(final(rows)@) == rows_view(old(rows)@) + row_if(shown, row@),
{
    let ghost before = rows_view(rows@);
    if shown {
        push_row(rows, row);
    }
    assert(rows_view(rows@) =~= before + row_if(shown, row@));
}

/// The section of one source, from the updates part of the popup.
fn source_section<'a>(app: &'a CosmicAppletArch, uv: &UpdatesView<'a>, source: CollapsibleType) -> (r:
    Option<SourceRow>)
    requires
        *uv == spec_updates_view(&app.updates),
    ensures
        opt_row_view(r) == spec_source_section(app, source),
{
    match uv {
        UpdatesView::Loading => None,
        UpdatesView::Loaded { pacman_updates, aur_updates, devel_updates, .. } => match source {
            CollapsibleType::Pacman => get_row_for_source(
                source,
                pacman_updates,
                &app.config,
                app.pacman_list_state,
                MAX_UPDATE_LINES,
            ),
            CollapsibleType::Aur => get_row_for_source(
                source,
                aur_updates,
                &app.config,
                app.aur_list_state,
                MAX_UPDATE_LINES,
            ),
            CollapsibleType::Devel => get_row_for_source(
                source,
                devel_updates,
                &app.config,
                app.devel_list_state,
                MAX_UPDATE_LINES,
            ),
        },
    }
}

/// The news section and whether the news error line is shown.
fn news_section<'a>(app: &'a CosmicAppletArch) -> (r: (Option<NewsRow<'a>>, bool))
    ensures
        r.0 == spec_news_section(app),
        r.1 == spec_news_error(app),
{
    match get_news_view(app) {
        NewsView::Empty => (None, false),
        NewsView::ErrorOnly => (None, true),
        NewsView::News { icon, news, has_error } => (
            Some(news_available_widget(news, icon, MAX_NEWS_LINES)),
            has_error,
        ),
    }
}

/// The rows of the popup, from top to bottom.
pub fn view_window(app: &CosmicAppletArch) -> (r: Vec<PopupRow<'_>>)
    ensures
        rows_view(r@) == spec_view_window(app),
{
    let updates_view = get_updates_view(app);
    let (news_row, news_error_row) = news_section(app);
    let pacman_row = source_section(app, &updates_view, CollapsibleType::Pacman);
    let aur_row = source_section(app, &updates_view, CollapsibleType::Aur);
    let devel_row = source_section(app, &updates_view, CollapsibleType::Devel);
    let no_updates_available_row = match &updates_view {
        UpdatesView::Loaded { no_updates_available, .. } => *no_updates_available,
        UpdatesView::Loading => false,
    };
    let is_loading = match &updates_view {
        UpdatesView::Loading => true,
        UpdatesView::Loaded { .. } => false,
    };
    let ghost uv = spec_updates_view(&app.updates);
    let mut rows: Vec<PopupRow<'_>> = Vec::new();
    push_source_row(&mut rows, pacman_row);
    push_source_row(&mut rows, aur_row);
    push_source_row(&mut rows, devel_row);
    push_row_if(&mut rows, no_updates_available_row, PopupRow::NoUpdatesAvailable);
    let ghost upper = rows_view(rows@);
    match &updates_view {
        UpdatesView::Loaded { last_refreshed, refreshing, .. } => {
            push_row(
                &mut rows,
                PopupRow::LastChecked { last_refreshed: *last_refreshed, refreshing: *refreshing },
            );
        },
        UpdatesView::Loading => {},
    }
    assert(rows_view(rows@) =~= upper + last_checked_rows(uv));
    push_row_if(&mut rows, is_loading, PopupRow::Loading);
    push_row(&mut rows, PopupRow::Divider);
    push_row(&mut rows, PopupRow::UpdateButton);
    push_row(&mut rows, PopupRow::Divider);
    let ghost middle = rows_view(rows@);
    match news_row {
        Some(n) => push_row(&mut rows, PopupRow::News(n)),
        None => {},
    }
    assert(rows_view(rows@) =~= middle + news_rows(app));
    push_row_if(&mut rows, news_error_row, PopupRow::NewsError);
    assert(rows_view(rows@) =~= spec_view_window(app));
    rows
}

/// The popup says that no update is available exactly when the checks have
/// run and no source has a section: every source was checked without error
/// and has no update.
pub proof fn lemma_no_updates_line_iff_no_sections(app: &CosmicAppletArch)
    ensures
        spec_no_updates_available(spec_updates_view(&app.updates)) <==> (app.updates is Running
            && spec_source_section(app, CollapsibleType::Pacman) is None && spec_source_section(
            app,
            CollapsibleType::Aur,
        ) is None && spec_source_section(app, CollapsibleType::Devel) is None),
{
}

/// The popup shows either when the checks last went online or the loading
/// line, never both and never neither.
pub proof fn lemma_last_checked_or_loading(app: &CosmicAppletArch)
    ensures
        ({
            let uv = spec_updates_view(&app.updates);
            last_checked_rows(uv).len() + row_if(uv is Loading, PopupRowView::Loading).len() == 1
        }),
{
}

/// The news section is shown once the news has been fetched at least once,
/// and the news error line exactly when the latest fetch failed.
pub proof fn lemma_news_lines(app: &CosmicAppletArch)
    ensures
        spec_news_section(app) is Some <==> !(app.news is Init || app.news is InitError),
        spec_news_error(app) <==> (app.news is InitError || app.news is Error),
{
}

/// The section of a source shows an error exactly when its latest check
/// failed; it is left out exactly when the check succeeded and found nothing;
/// its heading counts all the updates held, of which at most `max_items` are
/// listed and the rest are counted on the closing line.
pub proof fn lemma_source_section<T: ToDisplayPackage>(
    source: CollapsibleType,
    updates: &BasicResultWithHistory<Vec<T>>,
    other_repo_urls: Map<Seq<char>, Seq<char>>,
    collapsed: Collapsed,
    max_items: usize,
)
    ensures
        ({
            let row = spec_row_for_source(
                source,
                spec_source_updates_view(updates),
                other_repo_urls,
                collapsed,
                max_items,
            );
            &&& row is None <==> spec_nothing_pending(updates)
            &&& row matches Some(SourceRowView::Error { .. }) ==> !(updates is Success)
            &&& row matches Some(SourceRowView::Updates { has_error, count, packages, .. }) ==> {
                &&& has_error == !(updates is Success)
                &&& count > 0 || !has_error
                &&& packages.items.len() == spec_shown(count as nat, max_items as nat)
                &&& packages.more == spec_more(count as nat, max_items as nat)
            }
        }),
{
    match updates {
        BasicResultWithHistory::Success { value } => {
            assert(value.len() == value@.len());
        },
        BasicResultWithHistory::ErrorWithHistory { last_value } => {
            assert(last_value.len() == last_value@.len());
        },
        BasicResultWithHistory::Error => {},
    }
}

/// A source whose latest check failed but that still holds updates from an
/// earlier check gets the updates section, marked with the error and counting
/// the updates held; the error line alone appears exactly when the check
/// failed and no update is held; a successful check with updates gets the
/// unmarked updates section.
pub proof fn lemma_failed_source_keeps_its_updates<T: ToDisplayPackage>(
    source: CollapsibleType,
    updates: &BasicResultWithHistory<Vec<T>>,
    other_repo_urls: Map<Seq<char>, Seq<char>>,
    collapsed: Collapsed,
    max_items: usize,
)
    ensures
        ({
            let row = spec_row_for_source(
                source,
                spec_source_updates_view(updates),
                other_repo_urls,
                collapsed,
                max_items,
            );
            &&& (row == Some(SourceRowView::Error { source })) <==> (updates is Error || (
            updates is ErrorWithHistory && updates->last_value@.len() == 0))
            &&& (updates is ErrorWithHistory && updates->last_value@.len() > 0) ==> (row matches Some(
                SourceRowView::Updates { source: s, count, has_error, collapsed: c, .. },
            ) && s == source && count == updates->last_value@.len() && has_error && c == collapsed)
            &&& (updates is Success && updates->value@.len() > 0) ==> (row matches Some(
                SourceRowView::Updates { source: s, count, has_error, collapsed: c, .. },
            ) && s == source && count == updates->value@.len() && !has_error && c == collapsed)
        }),
{
    match updates {
        BasicResultWithHistory::Success { value } => {
            assert(value.len() == value@.len());
        },
        BasicResultWithHistory::ErrorWithHistory { last_value } => {
            assert(last_value.len() == last_value@.len());
        },
        BasicResultWithHistory::Error => {},
    }
}

/// The `k`-th package line is the line of the `k`-th update, for every line
/// shown; as many lines are shown as there are updates, up to `max_items`.
pub proof fn lemma_package_lines_in_order<T: ToDisplayPackage>(
    updates: Seq<T>,
    other_repo_urls: Map<Seq<char>, Seq<char>>,
    max_items: usize,
)
    ensures
        ({
            let l = spec_package_list(updates, other_repo_urls, max_items);
            &&& l.items.len() == if updates.len() <= max_items {
                updates.len()
            } else {
                max_items as nat
            }
            &&& forall|k: int|
                0 <= k < l.items.len() ==> #[trigger] l.items[k] == updates[k].spec_display(
                    other_repo_urls,
                )
        }),
{
}

/// The news section counts a "n more" line only for items left out: where
/// all items fit, all are shown and there is no such line; else as many are
/// shown as fit and the line counts the rest.
pub proof fn lemma_news_more_counts_the_rest<'a>(
    news: &'a Vec<DatedNewsItem>,
    icon: Option<AppIcon>,
    max_news_lines: usize,
)
    ensures
        spec_news_available(news, icon, max_news_lines) matches NewsRow::Available {
            icon: i,
            news: n,
            shown,
            more,
        } ==> {
            &&& i == icon
            &&& *n == *news
            &&& more matches Some(m) ==> m > 0 && shown + m == news@.len()
            &&& news@.len() <= max_news_lines ==> more is None && shown == news@.len()
            &&& news@.len() > max_news_lines ==> shown == max_news_lines
        },
        news@.len() > 0 <==> spec_news_available(news, icon, max_news_lines) is Available,
{
    assert(news.len() == news@.len());
}

/// While the checks run, the loaded view carries when they last went online
/// and whether a check is running, and so does the popup's last checked row.
pub proof fn lemma_refreshing_is_shown(app: &CosmicAppletArch)
    ensures
        app.updates matches UpdatesState::Running { last_checked_online, refreshing, .. } ==> {
            &&& spec_updates_view(&app.updates) matches UpdatesView::Loaded {
                last_refreshed,
                refreshing: r,
                ..
            } && last_refreshed == last_checked_online && r == refreshing
            &&& spec_view_window(app).contains(
                PopupRowView::LastChecked { last_refreshed: last_checked_online, refreshing },
            )
        },
{
    if let UpdatesState::Running { last_checked_online, refreshing, .. } = app.updates {
        let uv = spec_updates_view(&app.updates);
        let row = PopupRowView::LastChecked { last_refreshed: last_checked_online, refreshing };
        let pre = source_rows(spec_source_section(app, CollapsibleType::Pacman)) + source_rows(
            spec_source_section(app, CollapsibleType::Aur),
        ) + source_rows(spec_source_section(app, CollapsibleType::Devel)) + row_if(
            spec_no_updates_available(uv),
            PopupRowView::NoUpdatesAvailable,
        );
        let post = row_if(uv is Loading, PopupRowView::Loading) + seq![
            PopupRowView::Divider,
            PopupRowView::UpdateButton,
            PopupRowView::Divider,
        ] + news_rows(app) + row_if(spec_news_error(app), PopupRowView::NewsError);
        assert(last_checked_rows(uv) =~= seq![row]);
        assert(spec_view_window(app) =~= pre + seq![row] + post);
        assert(spec_view_window(app)[pre.len() as int] == row);
    }
}

/// No row of the list is a news section.
pub open spec fn no_news_row<'a>(s: Seq<PopupRowView<'a>>) -> bool {
    forall|j: int| 0 <= j < s.len() ==> !(#[trigger] s[j] is News)
}

proof fn lemma_no_news_row_add<'a>(a: Seq<PopupRowView<'a>>, b: Seq<PopupRowView<'a>>)
    requires
        no_news_row(a),
        no_news_row(b),
    ensures
        no_news_row(a + b),
{
    assert forall|j: int| 0 <= j < (a + b).len() implies !(#[trigger] (a + b)[j] is News) by {
        if j >= a.len() {
            assert((a + b)[j] == b[j - a.len()]);
        }
    }
}

/// Once the news has been fetched, the popup holds its news section exactly
/// once, right after the divider that follows the update button, whether or
/// not the latest fetch failed; before that it holds no news section.
pub proof fn lemma_news_section_placed_once<'a>(app: &'a CosmicAppletArch)
    ensures
        ({
            let rows = spec_view_window(app);
            &&& forall|j: int, k: int|
                0 <= j < rows.len() && 0 <= k < rows.len() && #[trigger] rows[j] is News
                    && #[trigger] rows[k] is News ==> j == k
            &&& spec_news_section(app) is None ==> no_news_row(rows)
            &&& spec_news_section(app) matches Some(n) ==> exists|i: int|
                0 <= i && i + 2 < rows.len() && rows[i] == PopupRowView::UpdateButton && rows[i
                    + 1] == PopupRowView::Divider && #[trigger] rows[i + 2] == PopupRowView::News(n)
        }),
{
    let uv = spec_updates_view(&app.updates);
    let p1 = source_rows(spec_source_section(app, CollapsibleType::Pacman));
    let p2 = source_rows(spec_source_section(app, CollapsibleType::Aur));
    let p3 = source_rows(spec_source_section(app, CollapsibleType::Devel));
    let p4 = row_if(spec_no_updates_available(uv), PopupRowView::NoUpdatesAvailable);
    let p5 = last_checked_rows(uv);
    let p6 = row_if(uv is Loading, PopupRowView::Loading);
    let p7 = seq![PopupRowView::Divider, PopupRowView::UpdateButton, PopupRowView::Divider];
    let e = row_if(spec_news_error(app), PopupRowView::NewsError);
    assert(no_news_row(p1));
    assert(no_news_row(p2));
    assert(no_news_row(p3));
    assert(no_news_row(p4));
    assert(no_news_row(p5));
    assert(no_news_row(p6));
    assert(no_news_row(p7));
    assert(no_news_row(e));
    lemma_no_news_row_add(p1, p2);
    lemma_no_news_row_add(p1 + p2, p3);
    lemma_no_news_row_add(p1 + p2 + p3, p4);
    lemma_no_news_row_add(p1 + p2 + p3 + p4, p5);
    lemma_no_news_row_add(p1 + p2 + p3 + p4 + p5, p6);
    lemma_no_news_row_add(p1 + p2 + p3 + p4 + p5 + p6, p7);
    let head = p1 + p2 + p3 + p4 + p5 + p6 + p7;
    let rows = spec_view_window(app);
    assert(rows =~= head + (news_rows(app) + e));
    assert(head[head.len() - 2] == PopupRowView::UpdateButton);
    assert(head[head.len() - 1] == PopupRowView::Divider);
    assert forall|j: int| 0 <= j < rows.len() && #[trigger] rows[j] is News implies j == head.len()
        && spec_news_section(app) is Some by {
        if j < head.len() {
            assert(rows[j] == head[j]);
        } else {
            assert(rows[j] == (news_rows(app) + e)[j - head.len()]);
            if spec_news_section(app) is None {
                assert(news_rows(app) + e =~= e);
            } else if j > head.len() {
                assert((news_rows(app) + e)[j - head.len()] == e[j - head.len() - 1]);
            }
        }
    }
    if let Some(n) = spec_news_section(app) {
        let i = head.len() - 2;
        assert(rows[i] == head[i]);
        assert(rows[i + 1] == head[i + 1]);
        assert(rows[i + 2] == (news_rows(app) + e)[0]);
    }
}

} // verus!
