//! Package updates and the text shown for each of them.
use crate::config::{Config, RepoUrls};
use crate::text::{lemma_replace_all_without_occurrence, occurs_at, replace_all, spec_replace_all};
use vstd::prelude::*;

verus! {

/// The repository that a pacman package comes from.
#[derive(Debug, PartialEq, Eq)]
pub enum SourceRepo {
    Core,
    Extra,
    Multilib,
    CoreTesting,
    ExtraTesting,
    MultilibTesting,
    GnomeUnstable,
    KdeUnstable,
    /// An unofficial user repository, by name.
    Other(String),
}

/// The name under which a repository is shown.
pub open spec fn repo_name(r: SourceRepo) -> Seq<char> {
    match r {
        SourceRepo::Core => "core"@,
        SourceRepo::Extra => "extra"@,
        SourceRepo::Multilib => "multilib"@,
        SourceRepo::CoreTesting => "core-testing"@,
        SourceRepo::ExtraTesting => "extra-testing"@,
        SourceRepo::MultilibTesting => "multilib-testing"@,
        SourceRepo::GnomeUnstable => "gnome-unstable"@,
        SourceRepo::KdeUnstable => "kde-unstable"@,
        SourceRepo::Other(s) => s@,
    }
}

impl Clone for SourceRepo {
    fn clone(&self) -> (r: Self)
        ensures
            r == *self,
    {
        match self {
            SourceRepo::Core => SourceRepo::Core,
            SourceRepo::Extra => SourceRepo::Extra,
            SourceRepo::Multilib => SourceRepo::Multilib,
            SourceRepo::CoreTesting => SourceRepo::CoreTesting,
            SourceRepo::ExtraTesting => SourceRepo::ExtraTesting,
            SourceRepo::MultilibTesting => SourceRepo::MultilibTesting,
            SourceRepo::GnomeUnstable => SourceRepo::GnomeUnstable,
            SourceRepo::KdeUnstable => SourceRepo::KdeUnstable,
            SourceRepo::Other(s) => SourceRepo::Other(s.clone()),
        }
    }
}

impl SourceRepo {
    /// The name under which the repository is shown.
    pub fn to_string(&self) -> (r: String)
        ensures
            r@ == repo_name(*self),
    {
        match self {
            SourceRepo::Core => String::from_str("core"),
            SourceRepo::Extra => String::from_str("extra"),
            SourceRepo::Multilib => String::from_str("multilib"),
            SourceRepo::CoreTesting => String::from_str("core-testing"),
            SourceRepo::ExtraTesting => String::from_str("extra-testing"),
            SourceRepo::MultilibTesting => String::from_str("multilib-testing"),
            SourceRepo::GnomeUnstable => String::from_str("gnome-unstable"),
            SourceRepo::KdeUnstable => String::from_str("kde-unstable"),
            SourceRepo::Other(s) => s.clone(),
        }
    }
}

/// An installed pacman package and the latest version of it.
pub struct PacmanUpdate {
    pub pkgname: String,
    pub pkgver_cur: String,
    pub pkgrel_cur: String,
    pub pkgver_new: String,
    pub pkgrel_new: String,
    pub source_repo: Option<SourceRepo>,
}

/// An installed AUR package and the latest version of it.
pub struct AurUpdate {
    pub pkgname: String,
    pub pkgver_cur: String,
    pub pkgrel_cur: String,
    pub pkgver_new: String,
    pub pkgrel_new: String,
}

/// An installed devel package and the latest commit of its source.
pub struct DevelUpdate {
    pub pkgname: String,
    pub pkgver_cur: String,
    pub pkgrel_cur: String,
    /// The reference of the latest commit.
    pub ref_id_new: String,
}

/// The text that `{pkgname}` in an address stands for.
pub open spec fn pkgname_placeholder() -> Seq<char> {
    "{pkgname}"@
}

/// `pkgver-pkgrel`.
pub open spec fn version_text(pkgver: Seq<char>, pkgrel: Seq<char>) -> Seq<char> {
    pkgver + "-"@ + pkgrel
}

/// The AUR page of a package.
pub open spec fn spec_aur_url(pkgname: Seq<char>) -> Seq<char> {
    "https://aur.archlinux.org/packages/"@ + pkgname
}

/// The page of a package: for an official repository the Arch Linux package
/// page, for an unofficial one the address configured for it with the name
/// of the package in place of `{pkgname}`, and none where no address is
/// configured.
pub open spec fn spec_pacman_url(
    pkgname: Seq<char>,
    source_repo: SourceRepo,
    other_repo_urls: Map<Seq<char>, Seq<char>>,
) -> Option<Seq<char>> {
    match source_repo {
        SourceRepo::Other(name) => if other_repo_urls.contains_key(name@) {
            Some(spec_replace_all(other_repo_urls[name@], pkgname_placeholder(), pkgname))
        } else {
            None
        },
        _ => Some(
            "https://archlinux.org/packages/"@ + repo_name(source_repo) + "/x86_64/"@ + pkgname
                + "/"@,
        ),
    }
}

/// `pkgver-pkgrel` as a `String`.
fn version_string(pkgver: &String, pkgrel: &String) -> (r: String)
    ensures
        r@ == version_text(pkgver@, pkgrel@),
{
    let mut r = pkgver.clone();
    r.append("-");
    r.append(pkgrel.as_str());
    r
}

/// The AUR page of a package.
pub fn aur_url(pkgname: &str) -> (r: String)
    ensures
        r@ == spec_aur_url(pkgname@),
{
    let mut r = String::from_str("https://aur.archlinux.org/packages/");
    r.append(pkgname);
    r
}

/// The page of a package: see [`spec_pacman_url`].
pub fn pacman_url(pkgname: &str, source_repo: SourceRepo, other_repo_urls: &RepoUrls) -> (r:
    Option<String>)
    ensures
        match r {
            Some(u) => spec_pacman_url(pkgname@, source_repo, other_repo_urls@) == Some(u@),
            None => spec_pacman_url(pkgname@, source_repo, other_repo_urls@) is None,
        },
{
    if let SourceRepo::Other(other_repo_name) = &source_repo {
        return match other_repo_urls.get(other_repo_name.as_str()) {
            Some(url_raw) => {
                proof {
                    reveal_strlit("{pkgname}");
                }
                Some(replace_all(url_raw.as_str(), "{pkgname}", pkgname))
            },
            None => None,
        };
    }
    let mut r = String::from_str("https://archlinux.org/packages/");
    let repo = source_repo.to_string();
    r.append(repo.as_str());
    r.append("/x86_64/");
    r.append(pkgname);
    r.append("/");
    Some(r)
}

/// What is shown of a package update.
pub struct DisplayPackageView {
    pub display_ver_new: Seq<char>,
    pub display_ver_old: Seq<char>,
    pub url: Option<Seq<char>>,
    pub pkgname: Seq<char>,
    pub source_repo: Option<Seq<char>>,
}

/// The characters of an optional `String`.
pub open spec fn opt_view(o: Option<String>) -> Option<Seq<char>> {
    match o {
        Some(s) => Some(s@),
        None => None,
    }
}

/// All that is needed to show a package update in the popup.
pub struct DisplayPackage {
    display_ver_new: String,
    display_ver_old: String,
    url: Option<String>,
    pkgname: String,
    source_repo: Option<String>,
}

impl View for DisplayPackage {
    type V = DisplayPackageView;

    closed spec fn view(&self) -> DisplayPackageView {
        DisplayPackageView {
            display_ver_new: self.display_ver_new@,
            display_ver_old: self.display_ver_old@,
            url: opt_view(self.url),
            pkgname: self.pkgname@,
            source_repo: opt_view(self.source_repo),
        }
    }
}

/// `name (repo)` where the repository is known, else the name alone.
pub open spec fn spec_pkgname_and_repo(p: DisplayPackageView) -> Seq<char> {
    match p.source_repo {
        Some(repo) => p.pkgname + " ("@ + repo + ")"@,
        None => p.pkgname,
    }
}

/// `old->new`.
pub open spec fn spec_version_change(p: DisplayPackageView) -> Seq<char> {
    p.display_ver_old + "->"@ + p.display_ver_new
}

/// What is shown of a pacman update.
pub open spec fn spec_from_pacman_update(
    update: PacmanUpdate,
    other_repo_urls: Map<Seq<char>, Seq<char>>,
) -> DisplayPackageView {
    DisplayPackageView {
        display_ver_new: version_text(update.pkgver_new@, update.pkgrel_new@),
        display_ver_old: version_text(update.pkgver_cur@, update.pkgrel_cur@),
        source_repo: match update.source_repo {
            Some(r) => Some(repo_name(r)),
            None => None,
        },
        pkgname: update.pkgname@,
        url: match update.source_repo {
            Some(r) => spec_pacman_url(update.pkgname@, r, other_repo_urls),
            None => None,
        },
    }
}

/// What is shown of an AUR update.
pub open spec fn spec_from_aur_update(update: AurUpdate) -> DisplayPackageView {
    DisplayPackageView {
        display_ver_new: version_text(update.pkgver_new@, update.pkgrel_new@),
        display_ver_old: version_text(update.pkgver_cur@, update.pkgrel_cur@),
        source_repo: Some("aur"@),
        pkgname: update.pkgname@,
        url: Some(spec_aur_url(update.pkgname@)),
    }
}

/// What is shown of a devel update: the new commit stands between stars.
pub open spec fn spec_from_devel_update(update: DevelUpdate) -> DisplayPackageView {
    DisplayPackageView {
        display_ver_new: "*"@ + update.ref_id_new@ + "*"@,
        display_ver_old: version_text(update.pkgver_cur@, update.pkgrel_cur@),
        url: Some(spec_aur_url(update.pkgname@)),
        pkgname: update.pkgname@,
        source_repo: Some("aur"@),
    }
}

impl DisplayPackage {
    /// `name (repo)` where the repository is known, else the name alone.
    pub fn pretty_print_pkgname_and_repo(&self) -> (r: String)
        ensures
            r@ == spec_pkgname_and_repo(self@),
    {
        match &self.source_repo {
            Some(source_repo) => {
                let mut r = self.pkgname.clone();
                r.append(" (");
                r.append(source_repo.as_str());
                r.append(")");
                r
            },
            None => self.pkgname.clone(),
        }
    }

    /// `old->new`.
    pub fn pretty_print_version_change(&self) -> (r: String)
        ensures
            r@ == spec_version_change(self@),
    {
        let mut r = self.display_ver_old.clone();
        r.append("->");
        r.append(self.display_ver_new.as_str());
        r
    }

    /// The page of the package, where it has one.
    pub fn url(&self) -> (r: &Option<String>)
        ensures
            opt_view(*r) == self@.url,
    {
        &self.url
    }

    /// What is shown of a pacman update: see [`spec_from_pacman_update`].
    pub fn from_pacman_update(update: &PacmanUpdate, config: &Config) -> (r: Self)
        ensures
            r@ == spec_from_pacman_update(*update, config.other_repo_urls@),
    {
        let source_repo = match &update.source_repo {
            Some(repo) => Some(repo.to_string()),
            None => None,
        };
        let url = match &update.source_repo {
            Some(repo) => pacman_url(update.pkgname.as_str(), repo.clone(), &config.other_repo_urls),
            None => None,
        };
        DisplayPackage {
            display_ver_new: version_string(&update.pkgver_new, &update.pkgrel_new),
            display_ver_old: version_string(&update.pkgver_cur, &update.pkgrel_cur),
            source_repo,
            pkgname: update.pkgname.clone(),
            url,
        }
    }

    /// What is shown of an AUR update: see [`spec_from_aur_update`].
    pub fn from_aur_update(update: &AurUpdate) -> (r: Self)
        ensures
            r@ == spec_from_aur_update(*update),
    {
        DisplayPackage {
            display_ver_new: version_string(&update.pkgver_new, &update.pkgrel_new),
            display_ver_old: version_string(&update.pkgver_cur, &update.pkgrel_cur),
            source_repo: Some(String::from_str("aur")),
            pkgname: update.pkgname.clone(),
            url: Some(aur_url(update.pkgname.as_str())),
        }
    }

    /// What is shown of a devel update: see [`spec_from_devel_update`].
    pub fn from_devel_update(update: &DevelUpdate) -> (r: Self)
        ensures
            r@ == spec_from_devel_update(*update),
    {
        let mut ver_new = String::from_str("*");
        ver_new.append(update.ref_id_new.as_str());
        ver_new.append("*");
        DisplayPackage {
            display_ver_new: ver_new,
            display_ver_old: version_string(&update.pkgver_cur, &update.pkgrel_cur),
            url: Some(aur_url(update.pkgname.as_str())),
            pkgname: update.pkgname.clone(),
            source_repo: Some(String::from_str("aur")),
        }
    }
}

/// An update that can be shown as a package line of the popup.
pub trait ToDisplayPackage: Sized {
    /// What is shown of the update, given the addresses of unofficial
    /// repositories.
    spec fn spec_display(&self, other_repo_urls: Map<Seq<char>, Seq<char>>) -> DisplayPackageView;

    fn to_display_package(&self, config: &Config) -> (r: DisplayPackage)
        ensures
            r@ == self.spec_display(config.other_repo_urls@),
    ;
}

impl ToDisplayPackage for PacmanUpdate {
    open spec fn spec_display(&self, other_repo_urls: Map<Seq<char>, Seq<char>>) -> DisplayPackageView {
        spec_from_pacman_update(*self, other_repo_urls)
    }

    fn to_display_package(&self, config: &Config) -> (r: DisplayPackage) {
        DisplayPackage::from_pacman_update(self, config)
    }
}

impl ToDisplayPackage for AurUpdate {
    open spec fn spec_display(&self, other_repo_urls: Map<Seq<char>, Seq<char>>) -> DisplayPackageView {
        spec_from_aur_update(*self)
    }

    fn to_display_package(&self, config: &Config) -> (r: DisplayPackage) {
        DisplayPackage::from_aur_update(self)
    }
}

impl ToDisplayPackage for DevelUpdate {
    open spec fn spec_display(&self, other_repo_urls: Map<Seq<char>, Seq<char>>) -> DisplayPackageView {
        spec_from_devel_update(*self)
    }

    fn to_display_package(&self, config: &Config) -> (r: DisplayPackage) {
        DisplayPackage::from_devel_update(self)
    }
}

/// Packages of an official repository always have a page, whatever addresses
/// are configured.
pub proof fn lemma_official_repos_have_a_page(
    pkgname: Seq<char>,
    source_repo: SourceRepo,
    other_repo_urls: Map<Seq<char>, Seq<char>>,
)
    requires
        !(source_repo is Other),
    ensures
        spec_pacman_url(pkgname, source_repo, other_repo_urls) is Some,
        spec_pacman_url(pkgname, source_repo, other_repo_urls) == spec_pacman_url(
            pkgname,
            source_repo,
            Map::empty(),
        ),
{
}

/// A package of an unofficial repository has a page exactly when an address
/// is configured for the repository; an address without `{pkgname}` is the
/// page as it stands.
pub proof fn lemma_unofficial_repo_page(
    pkgname: Seq<char>,
    repo: String,
    other_repo_urls: Map<Seq<char>, Seq<char>>,
)
    ensures
        spec_pacman_url(pkgname, SourceRepo::Other(repo), other_repo_urls) is Some
            <==> other_repo_urls.contains_key(repo@),
        other_repo_urls.contains_key(repo@) && (forall|i: int|
            !occurs_at(other_repo_urls[repo@], pkgname_placeholder(), i)) ==> spec_pacman_url(
            pkgname,
            SourceRepo::Other(repo),
            other_repo_urls,
        ) == Some(other_repo_urls[repo@]),
{
    reveal_strlit("{pkgname}");
    if other_repo_urls.contains_key(repo@) && (forall|i: int|
        !occurs_at(other_repo_urls[repo@], pkgname_placeholder(), i)) {
        lemma_replace_all_without_occurrence(
            other_repo_urls[repo@],
            pkgname_placeholder(),
            pkgname,
        );
    }
}

/// AUR and devel packages are shown as coming from the AUR, with their AUR
/// page; a pacman package of unknown repository has neither repository nor
/// page.
pub proof fn lemma_package_sources(
    pacman: PacmanUpdate,
    aur: AurUpdate,
    devel: DevelUpdate,
    other_repo_urls: Map<Seq<char>, Seq<char>>,
)
    ensures
        spec_from_aur_update(aur).source_repo == Some("aur"@),
        spec_from_aur_update(aur).url == Some(spec_aur_url(aur.pkgname@)),
        spec_from_devel_update(devel).source_repo == Some("aur"@),
        spec_from_devel_update(devel).url == Some(spec_aur_url(devel.pkgname@)),
        pacman.source_repo is None ==> spec_from_pacman_update(pacman, other_repo_urls).url is None
            && spec_from_pacman_update(pacman, other_repo_urls).source_repo is None,
        spec_pkgname_and_repo(spec_from_aur_update(aur)) == aur.pkgname@ + " ("@ + "aur"@ + ")"@,
{
}

} // verus!
