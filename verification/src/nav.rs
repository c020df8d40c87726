//! The sidebar navigation model: a small ordered list of entries, each
//! leading to a page, with exactly one entry active at a time.

use vstd::prelude::*;

verus! {

/// The page a navigation entry leads to.
#[derive(Clone, Copy, Debug, PartialEq, Eq, Structural)]
pub enum PageId {
    Home,
    Config,
}

/// One entry of the navigation sidebar.
#[derive(Debug, Clone)]
pub struct NavEntry {
    /// The display text of the entry.
    pub text: String,
    /// The page the entry leads to.
    pub page: PageId,
    /// The name of the entry's icon.
    pub icon: String,
    /// Whether the entry is the selected one.
    pub active: bool,
}

/// The index of the first active entry at or after `from`, if any.
pub open spec fn spec_first_active(s: Seq<NavEntry>, from: int) -> Option<int>
    decreases s.len() - from,
{
    if from < 0 || from >= s.len() {
        None
    } else if s[from].active {
        Some(from)
    } else {
        spec_first_active(s, from + 1)
    }
}

/// The ordered list backing the sidebar navigation.
#[derive(Debug, Clone)]
pub struct NavModel {
    /// The entries, in insertion order.
    pub entries: Vec<NavEntry>,
}

impl NavModel {
    /// The entry at `i` is active and every other entry is not.
    pub open spec fn active_at(self, i: int) -> bool {
        &&& 0 <= i < self.entries@.len()
        &&& self.entries@[i].active
        &&& forall|j: int|
            0 <= j < self.entries@.len() && j != i ==> !((#[trigger] self.entries@[j]).active)
    }

    /// Exactly one entry is active.
    pub open spec fn one_active(self) -> bool {
        exists|i: int| #[trigger] self.active_at(i)
    }

    /// The display text of the first active entry, if any.
    pub open spec fn spec_active_text(self) -> Option<Seq<char>> {
        match spec_first_active(self.entries@, 0) {
            Some(i) => Some(self.entries@[i].text@),
            None => None,
        }
    }

    /// The page of the first active entry, if any.
    pub open spec fn spec_active_page(self) -> Option<PageId> {
        match spec_first_active(self.entries@, 0) {
            Some(i) => Some(self.entries@[i].page),
            None => None,
        }
    }

    /// Selects the entry at `index` and deselects every other entry; an
    /// index past the end leaves the model unchanged.
    pub fn activate(&mut self, index: usize)
        ensures
            final(self).entries@.len() == old(self).entries@.len(),
            index < old(self).entries@.len() ==> {
                &&& forall|j: int|
                    0 <= j < old(self).entries@.len() ==> #[trigger] final(self).entries@[j] == (
                    NavEntry { active: j == index as int, ..old(self).entries@[j] })
                &&& final(self).one_active()
            },
            index >= old(self).entries@.len() ==> *final(self) == *old(self),
    {
        if index >= self.entries.len() {
            return ;
        }
        let mut j: usize = 0;
        while j < self.entries.len()
            invariant
                j <= self.entries@.len(),
                self.entries@.len() == old(self).entries@.len(),
                index < old(self).entries@.len(),
                forall|k: int|
                    0 <= k < j ==> #[trigger] self.entries@[k] == (NavEntry {
                        active: k == index as int,
                        ..old(self).entries@[k]
                    }),
                forall|k: int|
                    j <= k < self.entries@.len() ==> #[trigger] self.entries@[k] == old(
                        self,
                    ).entries@[k],
            decreases self.entries@.len() - j,
        {
            let is_target = j == index;
            self.entries[j].active = is_target;
            j = j + 1;
        }
        assert(self.active_at(index as int));
    }

    /// The index of the first active entry, if any.
    pub fn active_index(&self) -> (r: Option<usize>)
        ensures
            r is Some <==> spec_first_active(self.entries@, 0) is Some,
            r is Some ==> r->0 as int == spec_first_active(self.entries@, 0)->0,
            r is Some ==> r->0 < self.entries@.len(),
    {
        let mut i: usize = 0;
        while i < self.entries.len()
            invariant
                i <= self.entries@.len(),
                spec_first_active(self.entries@, 0) == spec_first_active(
                    self.entries@,
                    i as int,
                ),
            decreases self.entries@.len() - i,
        {
            if self.entries[i].active {
                return Some(i);
            }
            i = i + 1;
        }
        None
    }

    /// The display text of the first active entry, if any.
    pub fn active_text(&self) -> (r: Option<String>)
        ensures
            r is Some <==> self.spec_active_text() is Some,
            r is Some ==> (r->0)@ == self.spec_active_text()->0,
    {
        match self.active_index() {
            Some(i) => Some(self.entries[i].text.clone()),
            None => None,
        }
    }

    /// The page of the first active entry, if any.
    pub fn active_page(&self) -> (r: Option<PageId>)
        ensures
            r == self.spec_active_page(),
    {
        match self.active_index() {
            Some(i) => Some(self.entries[i].page),
            None => None,
        }
    }
}

/// Builds the navigation model the application starts with: a home entry
/// followed by a configuration entry, with the home entry active.
pub fn init_model(home_text: String, config_text: String) -> (m: NavModel)
    ensures
        m.entries@.len() == 2,
        m.entries@[0].text == home_text,
        m.entries@[0].page == PageId::Home,
        (m.entries@[0].icon)@ == "user-home-symbolic"@,
        m.entries@[0].active,
        m.entries@[1].text == config_text,
        m.entries@[1].page == PageId::Config,
        (m.entries@[1].icon)@ == "applications-system-symbolic"@,
        !m.entries@[1].active,
        m.one_active(),
{
    let mut entries: Vec<NavEntry> = Vec::new();
    entries.push(
        NavEntry {
            text: home_text,
            page: PageId::Home,
            icon: "user-home-symbolic".to_owned(),
            active: true,
        },
    );
    entries.push(
        NavEntry {
            text: config_text,
            page: PageId::Config,
            icon: "applications-system-symbolic".to_owned(),
            active: false,
        },
    );
    let m = NavModel { entries };
    assert(m.active_at(0));
    m
}

} // verus!
