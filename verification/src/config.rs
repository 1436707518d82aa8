//! Settings of the applet.
use crate::text::str_eq;
use vstd::prelude::*;

verus! {

/// The kinds of update that the applet checks for.
#[derive(Copy, Clone, Debug, PartialEq, Eq, Structural)]
pub enum UpdateType {
    Aur,
    Devel,
    Pacman,
}

/// A set of update kinds.
#[derive(Copy, Clone, Debug, PartialEq, Eq, Structural)]
pub struct UpdateTypeSet {
    aur: bool,
    devel: bool,
    pacman: bool,
}

impl View for UpdateTypeSet {
    type V = Set<UpdateType>;

    closed spec fn view(&self) -> Set<UpdateType> {
        Set::new(
            |t: UpdateType|
                match t {
                    UpdateType::Aur => self.aur,
                    UpdateType::Devel => self.devel,
                    UpdateType::Pacman => self.pacman,
                },
        )
    }
}

impl UpdateTypeSet {
    /// The empty set.
    pub fn new() -> (r: Self)
        ensures
            r@ == Set::<UpdateType>::empty(),
    {
        let r = UpdateTypeSet { aur: false, devel: false, pacman: false };
        assert(r@ =~= Set::<UpdateType>::empty());
        r
    }

    /// Adds a kind to the set.
    pub fn insert(&mut self, t: UpdateType)
        ensures
            final(self)@ == old(self)@.insert(t),
    {
        match t {
            UpdateType::Aur => self.aur = true,
            UpdateType::Devel => self.devel = true,
            UpdateType::Pacman => self.pacman = true,
        }
        assert(self@ =~= old(self)@.insert(t));
    }

    /// Whether the set holds a kind.
    pub fn contains(&self, t: UpdateType) -> (r: bool)
        ensures
            r == self@.contains(t),
    {
        match t {
            UpdateType::Aur => self.aur,
            UpdateType::Devel => self.devel,
            UpdateType::Pacman => self.pacman,
        }
    }
}

/// The map that a list of (key, value) pairs describes, a later pair for a
/// key taking the place of an earlier one.
pub open spec fn pairs_map(s: Seq<(String, String)>) -> Map<Seq<char>, Seq<char>>
    decreases s.len(),
{
    if s.len() == 0 {
        Map::empty()
    } else {
        pairs_map(s.drop_last()).insert(s.last().0@, s.last().1@)
    }
}

/// No key occurs twice.
pub open spec fn keys_distinct(s: Seq<(String, String)>) -> bool {
    forall|i: int, j: int| 0 <= i < j < s.len() ==> s[i].0@ != s[j].0@
}

/// The keys of a list of pairs are those of its map.
proof fn lemma_pairs_map_dom(s: Seq<(String, String)>, k: Seq<char>)
    ensures
        pairs_map(s).contains_key(k) <==> exists|i: int| 0 <= i < s.len() && s[i].0@ == k,
    decreases s.len(),
{
    if s.len() > 0 {
        lemma_pairs_map_dom(s.drop_last(), k);
        if pairs_map(s).contains_key(k) && k != s.last().0@ {
            let i = choose|i: int| 0 <= i < s.drop_last().len() && s.drop_last()[i].0@ == k;
            assert(s[i].0@ == k);
        }
        if exists|i: int| 0 <= i < s.len() && s[i].0@ == k {
            let i = choose|i: int| 0 <= i < s.len() && s[i].0@ == k;
            if i < s.len() - 1 {
                assert(s.drop_last()[i].0@ == k);
            }
        }
    }
}

/// Putting a new value in the place of a key gives the map with that key updated.
proof fn lemma_pairs_map_update(s: Seq<(String, String)>, i: int, p: (String, String))
    requires
        keys_distinct(s),
        0 <= i < s.len(),
        p.0@ == s[i].0@,
    ensures
        pairs_map(s.update(i, p)) == pairs_map(s).insert(p.0@, p.1@),
    decreases s.len(),
{
    let t = s.update(i, p);
    if i == s.len() - 1 {
        assert(t.drop_last() =~= s.drop_last());
        assert(pairs_map(t) =~= pairs_map(s).insert(p.0@, p.1@));
    } else {
        assert(t.drop_last() =~= s.drop_last().update(i, p));
        lemma_pairs_map_update(s.drop_last(), i, p);
        assert(s.last().0@ != p.0@);
        assert(pairs_map(t) =~= pairs_map(s).insert(p.0@, p.1@));
    }
}

/// The addresses of unofficial package repositories, keyed by repository
/// name. The address may hold `{pkgname}` where the package's name belongs.
pub struct RepoUrls {
    entries: Vec<(String, String)>,
}

impl RepoUrls {
    #[verifier::type_invariant]
    spec fn inv(self) -> bool {
        keys_distinct(self.entries@)
    }
}

impl View for RepoUrls {
    type V = Map<Seq<char>, Seq<char>>;

    closed spec fn view(&self) -> Map<Seq<char>, Seq<char>> {
        pairs_map(self.entries@)
    }
}

impl RepoUrls {
    /// No repository has an address.
    pub fn new() -> (r: Self)
        ensures
            r@ == Map::<Seq<char>, Seq<char>>::empty(),
    {
        RepoUrls { entries: Vec::new() }
    }

    /// Where `name` is already a key, its position; else `None`.
    fn position(&self, name: &str) -> (r: Option<usize>)
        ensures
            match r {
                Some(i) => i < self.entries@.len() && self.entries@[i as int].0@ == name@,
                None => forall|i: int| 0 <= i < self.entries@.len() ==> self.entries@[i].0@ != name@,
            },
    {
        let mut i: usize = 0;
        while i < self.entries.len()
            invariant
                i <= self.entries@.len(),
                forall|j: int| 0 <= j < i ==> self.entries@[j].0@ != name@,
            decreases self.entries@.len() - i,
        {
            if str_eq(self.entries[i].0.as_str(), name) {
                return Some(i);
            }
            i = i + 1;
        }
        None
    }

    /// Gives `name` the address `url`, in place of any it had.
    pub fn insert(&mut self, name: String, url: String)
        ensures
            final(self)@ == old(self)@.insert(name@, url@),
    {
        proof {
            use_type_invariant(&*self);
        }
        let found = self.position(name.as_str());
        let mut entries: Vec<(String, String)> = Vec::new();
        std::mem::swap(&mut entries, &mut self.entries);
        let ghost before = entries@;
        match found {
            Some(i) => {
                proof {
                    lemma_pairs_map_update(before, i as int, (name, url));
                }
                entries.set(i, (name, url));
                assert(entries@ == before.update(i as int, (name, url)));
            },
            None => {
                entries.push((name, url));
                assert(entries@.drop_last() =~= before);
            },
        }
        self.entries = entries;
    }

    /// The address of `name`, where it has one.
    pub fn get(&self, name: &str) -> (r: Option<&String>)
        ensures
            match r {
                Some(u) => self@.contains_key(name@) && u@ == self@[name@],
                None => !self@.contains_key(name@),
            },
    {
        proof {
            use_type_invariant(self);
            lemma_pairs_map_dom(self.entries@, name@);
        }
        match self.position(name) {
            Some(i) => {
                proof {
                    lemma_pairs_map_last_wins(self.entries@, i as int);
                }
                Some(&self.entries[i].1)
            },
            None => None,
        }
    }

    /// Each repository with its address, once each.
    pub fn to_pairs(&self) -> (r: Vec<(String, String)>)
        ensures
            pairs_map(r@) == self@,
            keys_distinct(r@),
    {
        proof {
            use_type_invariant(self);
        }
        let mut r: Vec<(String, String)> = Vec::new();
        let mut i: usize = 0;
        while i < self.entries.len()
            invariant
                i <= self.entries@.len(),
                keys_distinct(self.entries@),
                r@.len() == i,
                forall|j: int| 0 <= j < i ==> #[trigger] r@[j].0@ == self.entries@[j].0@ && r@[j].1@
                    == self.entries@[j].1@,
                pairs_map(r@) == pairs_map(self.entries@.take(i as int)),
            decreases self.entries@.len() - i,
        {
            let name = self.entries[i].0.clone();
            let url = self.entries[i].1.clone();
            let ghost before = r@;
            r.push((name, url));
            assert(r@.drop_last() =~= before);
            assert(self.entries@.take(i + 1).drop_last() =~= self.entries@.take(i as int));
            i = i + 1;
        }
        assert(self.entries@.take(i as int) =~= self.entries@);
        r
    }

    /// The addresses that a list of (name, address) pairs gives, a later pair
    /// for a name taking the place of an earlier one.
    pub fn from_pairs(pairs: Vec<(String, String)>) -> (r: Self)
        ensures
            r@ == pairs_map(pairs@),
    {
        let mut r = RepoUrls::new();
        let mut i: usize = 0;
        while i < pairs.len()
            invariant
                i <= pairs@.len(),
                r@ == pairs_map(pairs@.take(i as int)),
            decreases pairs@.len() - i,
        {
            let name = pairs[i].0.clone();
            let url = pairs[i].1.clone();
            r.insert(name, url);
            assert(pairs@.take(i + 1).drop_last() =~= pairs@.take(i as int));
            i = i + 1;
        }
        assert(pairs@.take(pairs@.len() as int) =~= pairs@);
        r
    }
}

/// Settings of the applet.
pub struct Config {
    /// Update kinds left out of the count shown on the panel. They are still
    /// checked and shown in the popup.
    pub exclude_from_counter: UpdateTypeSet,
    /// Seconds between two comparisons of the installed packages with the
    /// latest versions held in memory.
    pub interval_secs: u64,
    /// Seconds that a check may run before it counts as timed out.
    pub timeout_secs: u64,
    /// Every this many intervals, starting with the first, the latest
    /// versions are fetched from the internet.
    pub online_check_period: usize,
    /// Addresses of unofficial repositories.
    pub other_repo_urls: RepoUrls,
    /// Terminal that runs the update command.
    pub terminal: String,
    /// AUR helper that performs the update.
    pub aur_helper: String,
}

impl Default for Config {
    /// Nothing excluded, checks every 6 seconds with a 120 second timeout,
    /// online every 600 intervals, no unofficial repositories, `kitty` and
    /// `yay`.
    fn default() -> (r: Self)
        ensures
            r.exclude_from_counter@ == Set::<UpdateType>::empty(),
            r.interval_secs == 6,
            r.timeout_secs == 120,
            r.online_check_period == 600,
            r.other_repo_urls@ == Map::<Seq<char>, Seq<char>>::empty(),
            r.terminal@ == "kitty"@,
            r.aur_helper@ == "yay"@,
    {
        Config {
            exclude_from_counter: UpdateTypeSet::new(),
            interval_secs: 6,
            timeout_secs: 120,
            online_check_period: 600,
            other_repo_urls: RepoUrls::new(),
            terminal: String::from_str("kitty"),
            aur_helper: String::from_str("yay"),
        }
    }
}

/// Where a list of pairs names a repository more than once, the last pair for
/// it gives its address.
pub proof fn lemma_pairs_map_last_wins(s: Seq<(String, String)>, i: int)
    requires
        0 <= i < s.len(),
        forall|j: int| i < j < s.len() ==> s[j].0@ != s[i].0@,
    ensures
        pairs_map(s).contains_key(s[i].0@),
        pairs_map(s)[s[i].0@] == s[i].1@,
    decreases s.len(),
{
    if i < s.len() - 1 {
        lemma_pairs_map_last_wins(s.drop_last(), i);
        assert(s.drop_last()[i] == s[i]);
    }
}

} // verus!
