use cosmic_applet_arch::config::{Config, RepoUrls};
use cosmic_applet_arch::packages::{
    aur_url, pacman_url, AurUpdate, DevelUpdate, DisplayPackage, PacmanUpdate, SourceRepo,
};
use cosmic_applet_arch::text::{replace_all, str_eq};
use cosmic_applet_arch::widgets::{overflowing_list_layout, Collapsed};

fn two_repos() -> RepoUrls {
    RepoUrls::from_pairs(vec![
        (
            "endeavouros".to_string(),
            "https://github.com/endeavouros-team/PKGBUILDS/tree/master/{pkgname}".to_string(),
        ),
        (
            "chaotic-aur".to_string(),
            "https://gitlab.com/chaotic-aur/pkgbuilds/-/tree/main/{pkgname}".to_string(),
        ),
    ])
}

#[test]
fn test_pacman_url_with_other_repo() {
    let other_repo_urls = two_repos();
    let url = pacman_url(
        "cosmic-applet-arch",
        SourceRepo::Other("chaotic-aur".into()),
        &other_repo_urls,
    );
    let url2 = pacman_url(
        "cosmic-applet-arch",
        SourceRepo::Other("endeavouros".into()),
        &other_repo_urls,
    );
    assert_eq!(
        url.as_deref(),
        Some("https://gitlab.com/chaotic-aur/pkgbuilds/-/tree/main/cosmic-applet-arch")
    );
    assert_eq!(
        url2.as_deref(),
        Some("https://github.com/endeavouros-team/PKGBUILDS/tree/master/cosmic-applet-arch")
    );
}

#[test]
fn test_pacman_url_with_other_repo_no_pkgname() {
    let other_repo_urls = RepoUrls::from_pairs(vec![(
        "endeavouros".to_string(),
        "https://github.com/endeavouros-team/PKGBUILDS/tree/master/".to_string(),
    )]);
    let url = pacman_url(
        "cosmic-applet-arch",
        SourceRepo::Other("endeavouros".into()),
        &other_repo_urls,
    );
    assert_eq!(
        url.as_deref(),
        Some("https://github.com/endeavouros-team/PKGBUILDS/tree/master/")
    );
}

#[test]
fn test_pacman_url_with_other_repo_no_url() {
    let other_repo_urls = RepoUrls::from_pairs(vec![(
        "endeavouros".to_string(),
        "https://github.com/endeavouros-team/PKGBUILDS/tree/master/".to_string(),
    )]);
    let url = pacman_url(
        "cosmic-applet-arch",
        SourceRepo::Other("chaotic-aur".into()),
        &other_repo_urls,
    );
    assert_eq!(url.as_deref(), None);
}

#[test]
fn pacman_url_official_repos() {
    let urls = two_repos();
    assert_eq!(
        pacman_url("pacman-mirrorlist", SourceRepo::Core, &urls).as_deref(),
        Some("https://archlinux.org/packages/core/x86_64/pacman-mirrorlist/")
    );
    assert_eq!(
        pacman_url("plasma", SourceRepo::KdeUnstable, &RepoUrls::new()).as_deref(),
        Some("https://archlinux.org/packages/kde-unstable/x86_64/plasma/")
    );
    assert_eq!(
        pacman_url("lib32-glibc", SourceRepo::MultilibTesting, &urls).as_deref(),
        Some("https://archlinux.org/packages/multilib-testing/x86_64/lib32-glibc/")
    );
}

#[test]
fn pacman_url_placeholder_everywhere() {
    let urls = RepoUrls::from_pairs(vec![(
        "mine".to_string(),
        "https://x.org/{pkgname}/src/{pkgname}.tar".to_string(),
    )]);
    assert_eq!(
        pacman_url("foo", SourceRepo::Other("mine".to_string()), &urls).as_deref(),
        Some("https://x.org/foo/src/foo.tar")
    );
}

#[test]
fn aur_url_of_package() {
    assert_eq!(
        aur_url("cosmic-applet-arch"),
        "https://aur.archlinux.org/packages/cosmic-applet-arch"
    );
}

#[test]
fn source_repo_names() {
    assert_eq!(SourceRepo::Core.to_string(), "core");
    assert_eq!(SourceRepo::Extra.to_string(), "extra");
    assert_eq!(SourceRepo::Multilib.to_string(), "multilib");
    assert_eq!(SourceRepo::CoreTesting.to_string(), "core-testing");
    assert_eq!(SourceRepo::ExtraTesting.to_string(), "extra-testing");
    assert_eq!(SourceRepo::MultilibTesting.to_string(), "multilib-testing");
    assert_eq!(SourceRepo::GnomeUnstable.to_string(), "gnome-unstable");
    assert_eq!(SourceRepo::KdeUnstable.to_string(), "kde-unstable");
    assert_eq!(SourceRepo::Other("chaotic-aur".to_string()).to_string(), "chaotic-aur");
}

fn pacman(repo: Option<SourceRepo>) -> PacmanUpdate {
    PacmanUpdate {
        pkgname: "pacman".to_string(),
        pkgver_cur: "1.0.0".to_string(),
        pkgrel_cur: "1".to_string(),
        pkgver_new: "1.1.1".to_string(),
        pkgrel_new: "2".to_string(),
        source_repo: repo,
    }
}

#[test]
fn display_pacman_update() {
    let config = Config::default();
    let p = DisplayPackage::from_pacman_update(&pacman(Some(SourceRepo::Core)), &config);
    assert_eq!(p.pretty_print_pkgname_and_repo(), "pacman (core)");
    assert_eq!(p.pretty_print_version_change(), "1.0.0-1->1.1.1-2");
    assert_eq!(
        p.url().as_deref(),
        Some("https://archlinux.org/packages/core/x86_64/pacman/")
    );
}

#[test]
fn display_pacman_update_unknown_repo() {
    let config = Config::default();
    let p = DisplayPackage::from_pacman_update(&pacman(None), &config);
    assert_eq!(p.pretty_print_pkgname_and_repo(), "pacman");
    assert_eq!(p.url().as_deref(), None);
}

#[test]
fn display_pacman_update_unofficial_repo() {
    let mut config = Config::default();
    config.other_repo_urls = two_repos();
    let p = DisplayPackage::from_pacman_update(
        &pacman(Some(SourceRepo::Other("endeavouros".to_string()))),
        &config,
    );
    assert_eq!(p.pretty_print_pkgname_and_repo(), "pacman (endeavouros)");
    assert_eq!(
        p.url().as_deref(),
        Some("https://github.com/endeavouros-team/PKGBUILDS/tree/master/pacman")
    );
    let q = DisplayPackage::from_pacman_update(
        &pacman(Some(SourceRepo::Other("manjaro".to_string()))),
        &config,
    );
    assert_eq!(q.pretty_print_pkgname_and_repo(), "pacman (manjaro)");
    assert_eq!(q.url().as_deref(), None);
}

#[test]
fn display_aur_update() {
    let u = AurUpdate {
        pkgname: "paru".to_string(),
        pkgver_cur: "2.0.3".to_string(),
        pkgrel_cur: "1".to_string(),
        pkgver_new: "2.0.4".to_string(),
        pkgrel_new: "1".to_string(),
    };
    let p = DisplayPackage::from_aur_update(&u);
    assert_eq!(p.pretty_print_pkgname_and_repo(), "paru (aur)");
    assert_eq!(p.pretty_print_version_change(), "2.0.3-1->2.0.4-1");
    assert_eq!(p.url().as_deref(), Some("https://aur.archlinux.org/packages/paru"));
}

#[test]
fn display_devel_update() {
    let u = DevelUpdate {
        pkgname: "foo-git".to_string(),
        pkgver_cur: "r10.abc".to_string(),
        pkgrel_cur: "1".to_string(),
        ref_id_new: "def123".to_string(),
    };
    let p = DisplayPackage::from_devel_update(&u);
    assert_eq!(p.pretty_print_pkgname_and_repo(), "foo-git (aur)");
    assert_eq!(p.pretty_print_version_change(), "r10.abc-1->*def123*");
    assert_eq!(p.url().as_deref(), Some("https://aur.archlinux.org/packages/foo-git"));
}

#[test]
fn replace_all_left_to_right() {
    assert_eq!(replace_all("aaa", "aa", "b"), "ba");
    assert_eq!(replace_all("a{x}b{x}", "{x}", "XY"), "aXYbXY");
    assert_eq!(replace_all("", "{x}", "XY"), "");
    assert_eq!(replace_all("no match", "{x}", "XY"), "no match");
    assert_eq!(replace_all("é{x}ü", "{x}", "ß"), "éßü");
}

#[test]
fn str_eq_compares_characters() {
    assert!(str_eq("abc", "abc"));
    assert!(!str_eq("abc", "abd"));
    assert!(!str_eq("abc", "ab"));
    assert!(str_eq("", ""));
}

#[test]
fn toggle_twice_is_identity() {
    let c = Collapsed::default();
    assert_eq!(c, Collapsed::Collapsed);
    let e = c.toggle();
    assert_eq!(e, Collapsed::Expanded);
    assert_eq!(e.toggle(), Collapsed::Collapsed);
}

#[test]
fn collapsed_heading() {
    assert_eq!(Collapsed::Collapsed.icon_name(), "go-down-symbolic");
    assert_eq!(Collapsed::Expanded.icon_name(), "go-up-symbolic");
    assert!(!Collapsed::Collapsed.shows_contents());
    assert!(Collapsed::Expanded.shows_contents());
}

#[test]
fn overflowing_list_counts() {
    assert_eq!(overflowing_list_layout(25, 20), (20, Some(5)));
    assert_eq!(overflowing_list_layout(20, 20), (20, None));
    assert_eq!(overflowing_list_layout(0, 3), (0, None));
    assert_eq!(overflowing_list_layout(4, 0), (0, Some(4)));
}
