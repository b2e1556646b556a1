//! Week parity and week selectors: which numbered weeks of a term a
//! recurring class applies to. Week numbers start at 1.

use vstd::prelude::*;

verus! {

/// Parity of a week, counted from week 1, which is odd.
#[derive(Debug, Clone, Copy, PartialEq, Eq, Structural)]
pub enum WeekParity {
    All,
    Odd,
    Even,
}

/// The parity of week `week` (`week >= 1`).
pub open spec fn parity_of(week: int) -> WeekParity {
    if (week - 1) % 2 == 0 {
        WeekParity::Odd
    } else {
        WeekParity::Even
    }
}

impl WeekParity {
    /// Whether a class with this parity takes place in week `week`.
    pub open spec fn spec_includes(self, week: int) -> bool {
        self == WeekParity::All || self == parity_of(week)
    }

    pub fn of_week(week: usize) -> (r: WeekParity)
        requires
            week >= 1,
        ensures
            r == parity_of(week as int),
            r == WeekParity::Odd <==> (week - 1) % 2 == 0,
            r != WeekParity::All,
    {
        let mod2: usize = (week - 1) % 2;
        if mod2 == 0 {
            WeekParity::Odd
        } else {
            WeekParity::Even
        }
    }

    pub fn includes(self, week: usize) -> (r: bool)
        requires
            week >= 1,
        ensures
            r == self.spec_includes(week as int),
    {
        if self == WeekParity::All {
            return true;
        }
        self == WeekParity::of_week(week)
    }
}

impl Default for WeekParity {
    fn default() -> (r: WeekParity)
        ensures
            r == WeekParity::All,
    {
        WeekParity::All
    }
}

/// Restricts a recurring class to some weeks of the term: an optional first
/// and last week, a parity, and an optional list of the only weeks allowed.
#[derive(Debug, Clone, PartialEq, Eq)]
pub struct Weeks {
    pub from: Option<usize>,
    pub to: Option<usize>,
    pub parity: WeekParity,
    pub only: Option<Vec<usize>>,
}

impl Weeks {
    /// Every week number the selector mentions is positive.
    pub open spec fn wf(&self) -> bool {
        &&& (self.from matches Some(f) ==> f >= 1)
        &&& (self.to matches Some(t) ==> t >= 1)
        &&& (self.only matches Some(l) ==> forall|i: int| 0 <= i < l@.len() ==> l@[i] >= 1)
    }

    /// Whether the selector admits week `week`.
    pub open spec fn spec_happens_in_week(&self, week: int) -> bool {
        &&& (self.only matches Some(l) ==> exists|k: int| 0 <= k < l@.len() && l@[k] == week)
        &&& (self.from matches Some(f) ==> f <= week)
        &&& (self.to matches Some(t) ==> week <= t)
        &&& self.parity.spec_includes(week)
    }

    /// A selector with the given bounds, parity and allowed weeks; `None`
    /// when any of the week numbers given is zero.
    pub fn new(
        from: Option<usize>,
        to: Option<usize>,
        parity: WeekParity,
        only: Option<Vec<usize>>,
    ) -> (r: Option<Weeks>)
        ensures
            r matches Some(w) ==> w.wf() && w.from == from && w.to == to && w.parity == parity
                && w.only == only,
            r is None <==> !(Weeks { from, to, parity, only }).wf(),
    {
        if let Some(f) = from {
            if f == 0 {
                return None;
            }
        }
        if let Some(t) = to {
            if t == 0 {
                return None;
            }
        }
        if let Some(l) = &only {
            let mut i: usize = 0;
            while i < l.len()
                invariant
                    0 <= i <= l@.len(),
                    only == Some(*l),
                    forall|j: int| 0 <= j < i ==> l@[j] >= 1,
                decreases l@.len() - i,
            {
                if l[i] == 0 {
                    let ghost w = Weeks { from, to, parity, only };
                    assert(w.only matches Some(ll) && ll@[i as int] == 0);
                    return None;
                }
                i += 1;
            }
        }
        Some(Weeks { from, to, parity, only })
    }

    pub fn happens_in_week(&self, week: usize) -> (r: bool)
        requires
            week >= 1,
        ensures
            r == self.spec_happens_in_week(week as int),
    {
        if let Some(l) = &self.only {
            let mut found = false;
            let mut i: usize = 0;
            while i < l.len()
                invariant
                    0 <= i <= l@.len(),
                    found <==> exists|j: int| 0 <= j < i && l@[j] == week,
                decreases l@.len() - i,
            {
                if l[i] == week {
                    found = true;
                }
                i += 1;
            }
            if !found {
                return false;
            }
        }
        if let Some(f) = self.from {
            if f > week {
                return false;
            }
        }
        if let Some(t) = self.to {
            if t < week {
                return false;
            }
        }
        self.parity.includes(week)
    }
}

impl Default for Weeks {
    fn default() -> (r: Weeks)
        ensures
            r.from is None,
            r.to is None,
            r.parity == WeekParity::All,
            r.only is None,
    {
        Weeks { from: None, to: None, parity: WeekParity::All, only: None }
    }
}

/// Week `w` is odd exactly when `w - 1` is even, and every week is odd or
/// even, never of parity `All`.
pub proof fn lemma_parity_of(w: int)
    requires
        w >= 1,
    ensures
        parity_of(w) == WeekParity::Odd <==> (w - 1) % 2 == 0,
        parity_of(w) != WeekParity::All,
{
}

/// A selector with no bounds, no list and parity `All` admits every week.
pub proof fn lemma_empty_selector_admits_all(s: Weeks, w: int)
    requires
        s.from is None,
        s.to is None,
        s.only is None,
        s.parity == WeekParity::All,
        w >= 1,
    ensures
        s.spec_happens_in_week(w),
{
}

/// A selector whose list of weeks is `[1, 3]` admits no week outside it,
/// whatever its bounds and parity; with no bounds and parity `All` it
/// admits weeks 1 and 3.
pub proof fn lemma_only_one_and_three(s: Weeks, w: int)
    requires
        s.only matches Some(l) && l@ == seq![1usize, 3usize],
        w >= 1,
    ensures
        w != 1 && w != 3 ==> !s.spec_happens_in_week(w),
        s.from is None && s.to is None && s.parity == WeekParity::All ==> (s.spec_happens_in_week(w)
            <==> (w == 1 || w == 3)),
{
    let l = s.only->Some_0;
    assert(l@.len() == 2 && l@[0] == 1 && l@[1] == 3);
}

/// Weeks 1 to 5 of odd parity are exactly weeks 1, 3 and 5.
pub proof fn lemma_odd_weeks_one_to_five(s: Weeks, w: int)
    requires
        s.from == Some(1usize),
        s.to == Some(5usize),
        s.parity == WeekParity::Odd,
        s.only is None,
        w >= 1,
    ensures
        s.spec_happens_in_week(w) <==> (w == 1 || w == 3 || w == 5),
{
}

} // verus!
