use vstd::prelude::*;

verus! {

/// The views the dashboard can show, in navigation order. Exactly one tab
/// is selected at any time; navigating past either end saturates instead
/// of wrapping.
#[derive(Clone, Copy, Debug, PartialEq, Eq, Structural)]
pub enum SelectedTab {
    Main,
    Process,
}

impl Default for SelectedTab {
    fn default() -> (r: Self)
        ensures
            r == SelectedTab::Main,
    {
        SelectedTab::Main
    }
}

impl SelectedTab {
    /// Whether this tab is the first one in navigation order.
    pub open spec fn is_first(self) -> bool {
        self == SelectedTab::Main
    }

    /// Whether this tab is the last one in navigation order.
    pub open spec fn is_last(self) -> bool {
        self == SelectedTab::Process
    }

    /// The tab one position forward; the last tab stays put.
    pub open spec fn spec_next(self) -> SelectedTab {
        match self {
            SelectedTab::Main => SelectedTab::Process,
            SelectedTab::Process => SelectedTab::Process,
        }
    }

    /// The tab one position back; the first tab stays put.
    pub open spec fn spec_privious(self) -> SelectedTab {
        match self {
            SelectedTab::Main => SelectedTab::Main,
            SelectedTab::Process => SelectedTab::Main,
        }
    }

    /// Moves one position forward in navigation order, saturating at the end.
    pub fn next(self) -> (r: Self)
        ensures
            r == self.spec_next(),
            self.is_last() ==> r == self,
    {
        match self {
            SelectedTab::Main => SelectedTab::Process,
            SelectedTab::Process => SelectedTab::Process,
        }
    }

    /// Moves one position back in navigation order, saturating at the start.
    pub fn privious(self) -> (r: Self)
        ensures
            r == self.spec_privious(),
            self.is_first() ==> r == self,
    {
        match self {
            SelectedTab::Main => SelectedTab::Main,
            SelectedTab::Process => SelectedTab::Main,
        }
    }
}

/// Law: stepping forward then back returns to the original tab when it is
/// not the last one, and stepping back then forward returns to it when it
/// is not the first one; at the last tab `next` changes nothing, and at
/// the first tab `privious` changes nothing.
pub proof fn lemma_tab_navigation_round_trip(t: SelectedTab)
    ensures
        !t.is_last() ==> t.spec_next().spec_privious() == t,
        !t.is_first() ==> t.spec_privious().spec_next() == t,
        t.is_last() ==> t.spec_next() == t,
        t.is_first() ==> t.spec_privious() == t,
{
}

} // verus!
