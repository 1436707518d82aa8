use cosmic_applet_arch::config::Config;
use cosmic_applet_arch::packages::{AurUpdate, DevelUpdate, PacmanUpdate, SourceRepo};
use cosmic_applet_arch::state::{
    AppIcon, BasicResultWithHistory, CollapsibleType, CosmicAppletArch, DatedNewsItem, NewsState,
    UpdatesState,
};
use cosmic_applet_arch::view_window::{
    get_news_view, get_source_updates_view, get_updates_view, news_available_widget, view_window,
    NewsRow, NewsView, PopupRow, SourceRow, SourceUpdatesView, UpdatesView, MAX_UPDATE_LINES,
};
use cosmic_applet_arch::widgets::Collapsed;

fn news(n: usize) -> Vec<DatedNewsItem> {
    (0..n)
        .map(|i| DatedNewsItem {
            title: Some(format!("item {i}")),
            link: None,
            date: 1_700_000_000 + i as i64,
        })
        .collect()
}

fn pacman_updates(n: usize) -> Vec<PacmanUpdate> {
    (0..n)
        .map(|i| PacmanUpdate {
            pkgname: format!("pkg{i}"),
            pkgver_cur: "1".to_string(),
            pkgrel_cur: "1".to_string(),
            pkgver_new: "2".to_string(),
            pkgrel_new: "1".to_string(),
            source_repo: Some(SourceRepo::Extra),
        })
        .collect()
}

fn app(news: NewsState, updates: UpdatesState) -> CosmicAppletArch {
    CosmicAppletArch {
        config: Config::default(),
        news,
        updates,
        pacman_list_state: Collapsed::Expanded,
        aur_list_state: Collapsed::Collapsed,
        devel_list_state: Collapsed::Collapsed,
    }
}

fn running(
    pacman: BasicResultWithHistory<Vec<PacmanUpdate>>,
    aur: BasicResultWithHistory<Vec<AurUpdate>>,
    devel: BasicResultWithHistory<Vec<DevelUpdate>>,
) -> UpdatesState {
    UpdatesState::Running {
        last_checked_online: 1_700_000_500,
        pacman,
        aur,
        devel,
        refreshing: false,
    }
}

#[test]
fn result_with_history_len_and_error() {
    let ok: BasicResultWithHistory<Vec<u8>> = BasicResultWithHistory::Success { value: vec![1, 2] };
    let err: BasicResultWithHistory<Vec<u8>> = BasicResultWithHistory::Error;
    let hist: BasicResultWithHistory<Vec<u8>> =
        BasicResultWithHistory::ErrorWithHistory { last_value: vec![1, 2, 3] };
    assert_eq!((ok.len(), ok.has_error()), (2, false));
    assert_eq!((err.len(), err.has_error()), (0, true));
    assert_eq!((hist.len(), hist.has_error()), (3, true));
}

#[test]
fn source_updates_view_cases() {
    let ok: BasicResultWithHistory<Vec<u8>> = BasicResultWithHistory::Success { value: vec![] };
    assert!(matches!(
        get_source_updates_view(&ok),
        SourceUpdatesView::Updates { has_error: false, updates } if updates.is_empty()
    ));
    let err: BasicResultWithHistory<Vec<u8>> = BasicResultWithHistory::Error;
    assert!(matches!(get_source_updates_view(&err), SourceUpdatesView::ErrorOnly));
    let empty_hist: BasicResultWithHistory<Vec<u8>> =
        BasicResultWithHistory::ErrorWithHistory { last_value: vec![] };
    assert!(matches!(get_source_updates_view(&empty_hist), SourceUpdatesView::ErrorOnly));
    let hist: BasicResultWithHistory<Vec<u8>> =
        BasicResultWithHistory::ErrorWithHistory { last_value: vec![7] };
    assert!(matches!(
        get_source_updates_view(&hist),
        SourceUpdatesView::Updates { has_error: true, updates } if updates.len() == 1
    ));
}

#[test]
fn news_view_cases() {
    let a = app(NewsState::Init, UpdatesState::Init);
    assert!(matches!(get_news_view(&a), NewsView::Empty));
    let a = app(NewsState::InitError, UpdatesState::Init);
    assert!(matches!(get_news_view(&a), NewsView::ErrorOnly));
    let a = app(NewsState::Received { value: news(2) }, UpdatesState::Init);
    assert!(matches!(
        get_news_view(&a),
        NewsView::News { icon: None, has_error: false, news } if news.len() == 2
    ));
    let a = app(NewsState::Clearing { last_value: news(1) }, UpdatesState::Init);
    assert!(matches!(
        get_news_view(&a),
        NewsView::News { icon: Some(AppIcon::Loading), has_error: false, .. }
    ));
    let a = app(NewsState::ClearingError { last_value: news(1) }, UpdatesState::Init);
    assert!(matches!(
        get_news_view(&a),
        NewsView::News { icon: Some(AppIcon::Error), has_error: false, .. }
    ));
    let a = app(NewsState::Error { last_value: news(1) }, UpdatesState::Init);
    assert!(matches!(get_news_view(&a), NewsView::News { icon: None, has_error: true, .. }));
}

#[test]
fn updates_view_no_updates_available() {
    let a = app(
        NewsState::Init,
        running(
            BasicResultWithHistory::Success { value: vec![] },
            BasicResultWithHistory::Success { value: vec![] },
            BasicResultWithHistory::Success { value: vec![] },
        ),
    );
    assert!(matches!(
        get_updates_view(&a),
        UpdatesView::Loaded { no_updates_available: true, last_refreshed: 1_700_000_500, .. }
    ));
    let a = app(
        NewsState::Init,
        running(
            BasicResultWithHistory::Success { value: vec![] },
            BasicResultWithHistory::Error,
            BasicResultWithHistory::Success { value: vec![] },
        ),
    );
    assert!(matches!(get_updates_view(&a), UpdatesView::Loaded { no_updates_available: false, .. }));
    let a = app(NewsState::Init, UpdatesState::Init);
    assert!(matches!(get_updates_view(&a), UpdatesView::Loading));
}

#[test]
fn news_widget_counts() {
    let items = news(5);
    assert!(matches!(
        news_available_widget(&items, None, 3),
        NewsRow::Available { shown: 3, more: Some(2), .. }
    ));
    let none = news(0);
    assert!(matches!(news_available_widget(&none, None, 3), NewsRow::NoNews));
}

#[test]
fn news_title_default() {
    let item = DatedNewsItem { title: None, link: None, date: 0 };
    assert_eq!(item.display_title(), "");
    let item = DatedNewsItem { title: Some("Hi".to_string()), link: None, date: 0 };
    assert_eq!(item.display_title(), "Hi");
}

#[test]
fn source_names() {
    assert_eq!(CollapsibleType::Pacman.source_name(), "pacman");
    assert_eq!(CollapsibleType::Aur.source_name(), "AUR");
    assert_eq!(CollapsibleType::Devel.source_name(), "devel");
}

#[test]
fn popup_while_loading() {
    let a = app(NewsState::Init, UpdatesState::Init);
    let rows = view_window(&a);
    assert_eq!(rows.len(), 4);
    assert!(matches!(rows[0], PopupRow::Loading));
    assert!(matches!(rows[1], PopupRow::Divider));
    assert!(matches!(rows[2], PopupRow::UpdateButton));
    assert!(matches!(rows[3], PopupRow::Divider));
}

#[test]
fn popup_without_updates() {
    let a = app(
        NewsState::InitError,
        running(
            BasicResultWithHistory::Success { value: vec![] },
            BasicResultWithHistory::Success { value: vec![] },
            BasicResultWithHistory::Success { value: vec![] },
        ),
    );
    let rows = view_window(&a);
    assert_eq!(rows.len(), 6);
    assert!(matches!(rows[0], PopupRow::NoUpdatesAvailable));
    assert!(matches!(
        rows[1],
        PopupRow::LastChecked { last_refreshed: 1_700_000_500, refreshing: false }
    ));
    assert!(matches!(rows[2], PopupRow::Divider));
    assert!(matches!(rows[3], PopupRow::UpdateButton));
    assert!(matches!(rows[4], PopupRow::Divider));
    assert!(matches!(rows[5], PopupRow::NewsError));
}

#[test]
fn popup_with_updates_and_news() {
    let a = app(
        NewsState::Error { last_value: news(5) },
        running(
            BasicResultWithHistory::Success { value: pacman_updates(25) },
            BasicResultWithHistory::Error,
            BasicResultWithHistory::ErrorWithHistory { last_value: vec![] },
        ),
    );
    let rows = view_window(&a);
    assert_eq!(rows.len(), 12);
    match &rows[0] {
        PopupRow::Source(SourceRow::Updates { source, count, has_error, collapsed, packages }) => {
            assert_eq!(*source, CollapsibleType::Pacman);
            assert_eq!(*count, 25);
            assert!(!*has_error);
            assert_eq!(*collapsed, Collapsed::Expanded);
            assert_eq!(packages.items.len(), MAX_UPDATE_LINES);
            assert_eq!(packages.more, Some(25 - MAX_UPDATE_LINES));
            assert_eq!(packages.items[0].pretty_print_pkgname_and_repo(), "pkg0 (extra)");
            assert_eq!(packages.items[0].pretty_print_version_change(), "1-1->2-1");
        }
        _ => panic!("expected the pacman section"),
    }
    assert!(matches!(rows[1], PopupRow::Divider));
    assert!(matches!(rows[2], PopupRow::Source(SourceRow::Error { source: CollapsibleType::Aur })));
    assert!(matches!(rows[3], PopupRow::Divider));
    assert!(matches!(
        rows[4],
        PopupRow::Source(SourceRow::Error { source: CollapsibleType::Devel })
    ));
    assert!(matches!(rows[5], PopupRow::Divider));
    assert!(matches!(rows[6], PopupRow::LastChecked { .. }));
    assert!(matches!(rows[7], PopupRow::Divider));
    assert!(matches!(rows[8], PopupRow::UpdateButton));
    assert!(matches!(rows[9], PopupRow::Divider));
    assert!(matches!(
        rows[10],
        PopupRow::News(NewsRow::Available { icon: None, shown: 3, more: Some(2), .. })
    ));
    assert!(matches!(rows[11], PopupRow::NewsError));
}

#[test]
fn popup_news_with_error_line() {
    let a = app(NewsState::Error { last_value: vec![] }, UpdatesState::Init);
    let rows = view_window(&a);
    assert_eq!(rows.len(), 6);
    assert!(matches!(rows[4], PopupRow::News(NewsRow::NoNews)));
    assert!(matches!(rows[5], PopupRow::NewsError));
}
