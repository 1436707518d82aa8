use vstd::prelude::*;

verus! {

/// Whether a collapsible section of the popup shows its contents.
#[derive(Copy, Clone, Debug, PartialEq, Eq, Structural)]
pub enum Collapsed {
    Collapsed,
    Expanded,
}

/// The state that `toggle` moves to.
pub open spec fn spec_toggled(c: Collapsed) -> Collapsed {
    match c {
        Collapsed::Collapsed => Collapsed::Expanded,
        Collapsed::Expanded => Collapsed::Collapsed,
    }
}

impl Collapsed {
    /// Flips a section between collapsed and expanded.
    pub fn toggle(&self) -> (r: Self)
        ensures
            r == spec_toggled(*self),
    {
        match self {
            Collapsed::Collapsed => Collapsed::Expanded,
            Collapsed::Expanded => Collapsed::Collapsed,
        }
    }
}

impl Default for Collapsed {
    /// Sections start collapsed.
    fn default() -> (r: Self)
        ensures
            r == Collapsed::Collapsed,
    {
        Collapsed::Collapsed
    }
}

/// Toggling twice gives back the state one started from, and a toggle never
/// leaves the state as it was.
pub proof fn lemma_toggle_involutive(c: Collapsed)
    ensures
        spec_toggled(spec_toggled(c)) == c,
        spec_toggled(c) != c,
{
}

impl Collapsed {
    /// Whether a section in this state shows its contents under its heading.
    pub fn shows_contents(&self) -> (r: bool)
        ensures
            r == (*self == Collapsed::Expanded),
    {
        match self {
            Collapsed::Collapsed => false,
            Collapsed::Expanded => true,
        }
    }

    /// The icon at the end of a section's heading: pointing down where the
    /// section can be opened, up where it can be closed.
    pub fn icon_name(&self) -> (r: &'static str)
        ensures
            r@ == match *self {
                Collapsed::Collapsed => "go-down-symbolic"@,
                Collapsed::Expanded => "go-up-symbolic"@,
            },
    {
        match self {
            Collapsed::Collapsed => "go-down-symbolic",
            Collapsed::Expanded => "go-up-symbolic",
        }
    }
}

/// How many of `len` items a list with room for `max_items` shows.
pub open spec fn spec_shown(len: nat, max_items: nat) -> nat {
    if len > max_items {
        max_items
    } else {
        len
    }
}

/// The number given on the closing "n more" line of such a list, where it
/// has one.
pub open spec fn spec_more(len: nat, max_items: nat) -> Option<usize> {
    if len > max_items {
        Some((len - max_items) as usize)
    } else {
        None
    }
}

/// How a list of `len` items is cut to a list with room for `max_items`:
/// the number of items shown, and the number left out where some are.
pub fn overflowing_list_layout(len: usize, max_items: usize) -> (r: (usize, Option<usize>))
    ensures
        r.0 == spec_shown(len as nat, max_items as nat),
        r.1 == spec_more(len as nat, max_items as nat),
{
    if len > max_items {
        (max_items, Some(len - max_items))
    } else {
        (len, None)
    }
}

/// A list shows at most as many items as it has room for, and the items left
/// out are exactly those that the "n more" line counts.
pub proof fn lemma_overflow_accounts_for_all(len: nat, max_items: nat)
    ensures
        spec_shown(len, max_items) <= max_items,
        spec_shown(len, max_items) <= len,
        len <= usize::MAX ==> match spec_more(len, max_items) {
            Some(n) => n > 0 && spec_shown(len, max_items) + n == len,
            None => spec_shown(len, max_items) == len,
        },
{
}

/// The first items of a list, with the number of those left out.
pub struct OverflowingList<T> {
    pub items: Vec<T>,
    pub more: Option<usize>,
}

/// What an [`OverflowingList`] shows.
pub struct OverflowingListView<V> {
    pub items: Seq<V>,
    pub more: Option<usize>,
}

impl<T: View> View for OverflowingList<T> {
    type V = OverflowingListView<T::V>;

    open spec fn view(&self) -> OverflowingListView<T::V> {
        OverflowingListView { items: self.items@.map_values(|x: T| x@), more: self.more }
    }
}

} // verus!
