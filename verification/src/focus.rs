use vstd::prelude::*;
use crate::controls::{models, Control, ControlModel};

verus! {

/// The tab indexes of the controls, in the order of the controls.
pub open spec fn tabs_of(controls: Seq<ControlModel>) -> Seq<Option<usize>> {
    Seq::new(controls.len(), |i: int| controls[i].tab_index())
}

/// Some control has the tab index `tab`.
pub open spec fn owns(tabs: Seq<Option<usize>>, tab: int) -> bool {
    exists|i: int| 0 <= i < tabs.len() && #[trigger] tabs[i] == Some(tab as usize) && 0 <= tab
        <= usize::MAX
}

/// The place of the first control that has the tab index `tab`.
pub open spec fn owner(tabs: Seq<Option<usize>>, tab: usize) -> Option<int>
    decreases tabs.len(),
{
    if tabs.len() == 0 {
        None
    } else {
        match owner(tabs.drop_last(), tab) {
            Some(i) => Some(i),
            None => if tabs.last() == Some(tab) {
                Some(tabs.len() - 1)
            } else {
                None
            },
        }
    }
}

/// The lowest tab index that any control has.
pub open spec fn lowest(tabs: Seq<Option<usize>>) -> Option<usize>
    decreases tabs.len(),
{
    if tabs.len() == 0 {
        None
    } else {
        match (lowest(tabs.drop_last()), tabs.last()) {
            (Some(a), Some(b)) => Some(if b < a { b } else { a }),
            (Some(a), None) => Some(a),
            (None, last) => last,
        }
    }
}

/// The highest tab index that any control has.
pub open spec fn highest(tabs: Seq<Option<usize>>) -> Option<usize>
    decreases tabs.len(),
{
    if tabs.len() == 0 {
        None
    } else {
        match (highest(tabs.drop_last()), tabs.last()) {
            (Some(a), Some(b)) => Some(if b > a { b } else { a }),
            (Some(a), None) => Some(a),
            (None, last) => last,
        }
    }
}

/// How many controls have a tab index.
pub open spec fn tabbed_count(tabs: Seq<Option<usize>>) -> nat
    decreases tabs.len(),
{
    if tabs.len() == 0 {
        0
    } else {
        tabbed_count(tabs.drop_last()) + if tabs.last().is_some() { 1nat } else { 0nat }
    }
}

/// Where the focus is when the dialog appears: at the lowest tab index, or
/// at zero if no control has one.
pub open spec fn first_focus(tabs: Seq<Option<usize>>) -> usize {
    match lowest(tabs) {
        Some(low) => low,
        None => 0,
    }
}

/// Where the focus goes forward from `focused`: to the next tab index if a
/// control has it, else round to the lowest.
pub open spec fn next_focus(tabs: Seq<Option<usize>>, focused: usize) -> usize {
    if owns(tabs, focused + 1) {
        (focused + 1) as usize
    } else {
        first_focus(tabs)
    }
}

/// Where the focus goes backward from `focused`: from the lowest tab index
/// round to the highest, else one down.
pub open spec fn previous_focus(tabs: Seq<Option<usize>>, focused: usize) -> usize {
    match lowest(tabs) {
        Some(low) => if focused <= low {
            highest(tabs).unwrap()
        } else {
            (focused - 1) as usize
        },
        None => 0,
    }
}

/// Where the focus is after going forward `times` times.
pub open spec fn forward(tabs: Seq<Option<usize>>, focused: usize, times: nat) -> usize
    decreases times,
{
    if times == 0 {
        focused
    } else {
        next_focus(tabs, forward(tabs, focused, (times - 1) as nat))
    }
}

/// A control that is replaced by one with the same tab index leaves the tab
/// indexes as they were.
pub proof fn lemma_tabs_update(controls: Seq<ControlModel>, at: int, control: ControlModel)
    requires
        0 <= at < controls.len(),
        control.tab_index() == controls[at].tab_index(),
    ensures
        tabs_of(controls.update(at, control)) == tabs_of(controls),
{
    assert(tabs_of(controls.update(at, control)) =~= tabs_of(controls));
}

/// `owner` finds the first control with the tab index, and finds none only
/// if there is none.
pub proof fn lemma_owner(tabs: Seq<Option<usize>>, tab: usize)
    ensures
        match owner(tabs, tab) {
            Some(at) => 0 <= at < tabs.len() && tabs[at] == Some(tab) && forall|j: int|
                0 <= j < at ==> tabs[j] != Some(tab),
            None => forall|j: int| 0 <= j < tabs.len() ==> tabs[j] != Some(tab),
        },
        owner(tabs, tab).is_some() == owns(tabs, tab as int),
    decreases tabs.len(),
{
    if tabs.len() > 0 {
        let before = tabs.drop_last();
        lemma_owner(before, tab);
        match owner(before, tab) {
            Some(at) => {
                assert(tabs[at] == before[at]);
                assert forall|j: int| 0 <= j < at implies tabs[j] != Some(tab) by {
                    assert(tabs[j] == before[j]);
                }
            },
            None => {
                assert forall|j: int| 0 <= j < before.len() implies tabs[j] != Some(tab) by {
                    assert(tabs[j] == before[j]);
                }
            },
        }
    }
    match owner(tabs, tab) {
        Some(at) => {
            assert(tabs[at] == Some(tab as int as usize));
        },
        None => {},
    }
}

/// The lowest tab index is one that a control has, and no control has a
/// lower one; there is none only if no control has a tab index.
pub proof fn lemma_lowest(tabs: Seq<Option<usize>>)
    ensures
        match lowest(tabs) {
            Some(low) => owns(tabs, low as int) && forall|j: int|
                0 <= j < tabs.len() && tabs[j].is_some() ==> low <= (#[trigger] tabs[j]).unwrap(),
            None => forall|j: int| 0 <= j < tabs.len() ==> (#[trigger] tabs[j]).is_none(),
        },
        lowest(tabs).is_some() == (tabbed_count(tabs) > 0),
    decreases tabs.len(),
{
    if tabs.len() > 0 {
        let before = tabs.drop_last();
        lemma_lowest(before);
        assert forall|j: int| 0 <= j < before.len() implies before[j] == tabs[j] by {}
        match lowest(tabs) {
            Some(low) => {
                if tabs.last() == Some(low) {
                    assert(tabs[tabs.len() - 1] == Some(low as int as usize));
                } else {
                    let i = choose|i: int|
                        0 <= i < before.len() && #[trigger] before[i] == Some(low as int as usize);
                    assert(tabs[i] == Some(low as int as usize));
                }
                assert forall|j: int| 0 <= j < tabs.len() && tabs[j].is_some() implies low <= (
                #[trigger] tabs[j]).unwrap() by {
                    if j < before.len() {
                        assert(before[j] == tabs[j]);
                    }
                }
            },
            None => {
                assert forall|j: int| 0 <= j < tabs.len() implies (#[trigger] tabs[j]).is_none() by {
                    if j < before.len() {
                        assert(before[j] == tabs[j]);
                    }
                }
            },
        }
    }
}

/// The highest tab index is one that a control has, and no control has a
/// higher one; there is none only if no control has a tab index.
pub proof fn lemma_highest(tabs: Seq<Option<usize>>)
    ensures
        match highest(tabs) {
            Some(high) => owns(tabs, high as int) && forall|j: int|
                0 <= j < tabs.len() && tabs[j].is_some() ==> high >= (#[trigger] tabs[j]).unwrap(),
            None => forall|j: int| 0 <= j < tabs.len() ==> (#[trigger] tabs[j]).is_none(),
        },
        highest(tabs).is_some() == lowest(tabs).is_some(),
    decreases tabs.len(),
{
    if tabs.len() > 0 {
        let before = tabs.drop_last();
        lemma_highest(before);
        assert forall|j: int| 0 <= j < before.len() implies before[j] == tabs[j] by {}
        match highest(tabs) {
            Some(high) => {
                if tabs.last() == Some(high) {
                    assert(tabs[tabs.len() - 1] == Some(high as int as usize));
                } else {
                    let i = choose|i: int|
                        0 <= i < before.len() && #[trigger] before[i] == Some(high as int as usize);
                    assert(tabs[i] == Some(high as int as usize));
                }
                assert forall|j: int| 0 <= j < tabs.len() && tabs[j].is_some() implies high >= (
                #[trigger] tabs[j]).unwrap() by {
                    if j < before.len() {
                        assert(before[j] == tabs[j]);
                    }
                }
            },
            None => {
                assert forall|j: int| 0 <= j < tabs.len() implies (#[trigger] tabs[j]).is_none() by {
                    if j < before.len() {
                        assert(before[j] == tabs[j]);
                    }
                }
            },
        }
    }
}

/// Where the tab indexes are the numbers from the lowest on without a gap,
/// each held by one control, the focus that starts on a control is
/// `steps` places further on after going forward `steps` times, counted
/// round the ring.
pub proof fn lemma_forward(tabs: Seq<Option<usize>>, focused: usize, steps: nat)
    requires
        lowest(tabs).is_some(),
        forall|tab: int|
            owns(tabs, tab) <==> lowest(tabs).unwrap() <= tab < lowest(tabs).unwrap()
                + tabbed_count(tabs),
        owns(tabs, focused as int),
        steps <= tabbed_count(tabs),
    ensures
        forward(tabs, focused, steps) == if focused + steps < lowest(tabs).unwrap() + tabbed_count(
            tabs,
        ) {
            focused + steps
        } else {
            focused + steps - tabbed_count(tabs)
        },
    decreases steps,
{
    if steps > 0 {
        lemma_forward(tabs, focused, (steps - 1) as nat);
        let at = forward(tabs, focused, (steps - 1) as nat);
        let low = lowest(tabs).unwrap();
        let count = tabbed_count(tabs);
        assert(low <= at < low + count);
        assert(owns(tabs, at + 1) <==> at + 1 < low + count);
    }
}

/// Going forward once for each control that has a tab index brings the
/// focus back to the control on which it started, where the tab indexes are
/// the numbers from the lowest on without a gap, each held by one control.
pub proof fn lemma_forward_is_cyclic(tabs: Seq<Option<usize>>, focused: usize)
    requires
        lowest(tabs).is_some(),
        forall|tab: int|
            owns(tabs, tab) <==> lowest(tabs).unwrap() <= tab < lowest(tabs).unwrap()
                + tabbed_count(tabs),
        owns(tabs, focused as int),
    ensures
        forward(tabs, focused, tabbed_count(tabs)) == focused,
        owner(tabs, forward(tabs, focused, tabbed_count(tabs))) == owner(tabs, focused),
{
    lemma_forward(tabs, focused, tabbed_count(tabs));
}

/// The place of the first control with the tab index `tab`.
pub fn find_tab(controls: &Vec<Control>, tab: usize) -> (r: Option<usize>)
    ensures
        match r {
            Some(at) => owner(tabs_of(models(controls@)), tab) == Some(at as int),
            None => owner(tabs_of(models(controls@)), tab).is_none(),
        },
{
    let ghost tabs = tabs_of(models(controls@));
    let mut i: usize = 0;
    while i < controls.len()
        invariant
            i <= controls@.len(),
            tabs == tabs_of(models(controls@)),
            forall|j: int| 0 <= j < i ==> tabs[j] != Some(tab),
        decreases controls@.len() - i,
    {
        if controls[i].get_tab_index() == Some(tab) {
            proof {
                lemma_owner(tabs, tab);
                assert(tabs[i as int] == Some(tab));
            }
            return Some(i);
        }
        i += 1;
    }
    proof {
        lemma_owner(tabs, tab);
    }
    None
}

/// The lowest tab index among the controls.
pub fn lowest_tab(controls: &Vec<Control>) -> (r: Option<usize>)
    ensures
        r == lowest(tabs_of(models(controls@))),
{
    let ghost tabs = tabs_of(models(controls@));
    let mut low: Option<usize> = None;
    let mut i: usize = 0;
    while i < controls.len()
        invariant
            i <= controls@.len(),
            tabs == tabs_of(models(controls@)),
            low == lowest(tabs.subrange(0, i as int)),
        decreases controls@.len() - i,
    {
        proof {
            assert(tabs.subrange(0, i + 1).drop_last() =~= tabs.subrange(0, i as int));
            assert(tabs.subrange(0, i + 1).last() == tabs[i as int]);
        }
        let tab = controls[i].get_tab_index();
        low =
        match (low, tab) {
            (Some(a), Some(b)) => Some(if b < a { b } else { a }),
            (Some(a), None) => Some(a),
            (None, last) => last,
        };
        i += 1;
    }
    assert(tabs.subrange(0, i as int) =~= tabs);
    low
}

/// The highest tab index among the controls.
pub fn highest_tab(controls: &Vec<Control>) -> (r: Option<usize>)
    ensures
        r == highest(tabs_of(models(controls@))),
{
    let ghost tabs = tabs_of(models(controls@));
    let mut high: Option<usize> = None;
    let mut i: usize = 0;
    while i < controls.len()
        invariant
            i <= controls@.len(),
            tabs == tabs_of(models(controls@)),
            high == highest(tabs.subrange(0, i as int)),
        decreases controls@.len() - i,
    {
        proof {
            assert(tabs.subrange(0, i + 1).drop_last() =~= tabs.subrange(0, i as int));
            assert(tabs.subrange(0, i + 1).last() == tabs[i as int]);
        }
        let tab = controls[i].get_tab_index();
        high =
        match (high, tab) {
            (Some(a), Some(b)) => Some(if b > a { b } else { a }),
            (Some(a), None) => Some(a),
            (None, last) => last,
        };
        i += 1;
    }
    assert(tabs.subrange(0, i as int) =~= tabs);
    high
}

} // verus!
