use vstd::prelude::*;
use crate::controls::{all_wf, models, Control, ControlModel};

verus! {

/// The rank of a tab index in the order of the controls: a control without
/// a tab index comes before every control that has one.
pub open spec fn tab_rank(tab: Option<usize>) -> int {
    match tab {
        Some(index) => index as int,
        None => -1,
    }
}

/// The controls stand in the order of their tab indexes.
pub open spec fn in_tab_order(controls: Seq<ControlModel>) -> bool {
    forall|i: int, j: int|
        0 <= i < j < controls.len() ==> tab_rank((#[trigger] controls[i]).tab_index())
            <= tab_rank((#[trigger] controls[j]).tab_index())
}

/// Those of the controls that have the tab index `tab`, in their order.
pub open spec fn with_tab(controls: Seq<ControlModel>, tab: Option<usize>) -> Seq<ControlModel>
    decreases controls.len(),
{
    if controls.len() == 0 {
        Seq::empty()
    } else {
        let rest = with_tab(controls.drop_last(), tab);
        if controls.last().tab_index() == tab {
            rest.push(controls.last())
        } else {
            rest
        }
    }
}

/// The controls `sorted` are the controls `given` in the order of their tab
/// indexes, and those with the same tab index stand as they stood.
pub open spec fn is_tab_order_of(sorted: Seq<ControlModel>, given: Seq<ControlModel>) -> bool {
    &&& sorted.len() == given.len()
    &&& in_tab_order(sorted)
    &&& forall|tab: Option<usize>| #[trigger] with_tab(sorted, tab) == with_tab(given, tab)
}

/// Picking by tab index goes through a concatenation.
pub proof fn lemma_with_tab_add(a: Seq<ControlModel>, b: Seq<ControlModel>, tab: Option<usize>)
    ensures
        with_tab(a + b, tab) == with_tab(a, tab) + with_tab(b, tab),
    decreases b.len(),
{
    if b.len() == 0 {
        assert(a + b =~= a);
        assert(with_tab(a, tab) + with_tab(b, tab) =~= with_tab(a, tab));
    } else {
        lemma_with_tab_add(a, b.drop_last(), tab);
        assert((a + b).drop_last() =~= a + b.drop_last());
        assert((a + b).last() == b.last());
        assert(with_tab(a + b, tab) =~= with_tab(a, tab) + with_tab(b, tab));
    }
}

/// Where no control has the tab index, none is picked.
pub proof fn lemma_with_tab_none(controls: Seq<ControlModel>, tab: Option<usize>)
    requires
        forall|i: int| 0 <= i < controls.len() ==> (#[trigger] controls[i]).tab_index() != tab,
    ensures
        with_tab(controls, tab) == Seq::<ControlModel>::empty(),
    decreases controls.len(),
{
    if controls.len() > 0 {
        let before = controls.drop_last();
        assert forall|i: int| 0 <= i < before.len() implies (#[trigger] before[i]).tab_index()
            != tab by {
            assert(before[i] == controls[i]);
        }
        lemma_with_tab_none(before, tab);
        assert(controls[controls.len() - 1].tab_index() != tab);
    }
}

/// A single control is picked if it has the tab index.
pub proof fn lemma_with_tab_one(control: ControlModel, tab: Option<usize>)
    ensures
        with_tab(seq![control], tab) == if control.tab_index() == tab {
            seq![control]
        } else {
            Seq::<ControlModel>::empty()
        },
{
    let one = seq![control];
    assert(one.drop_last() =~= Seq::<ControlModel>::empty());
    assert(one.last() == control);
    assert(with_tab(one.drop_last(), tab) =~= Seq::<ControlModel>::empty());
    if control.tab_index() == tab {
        assert(with_tab(one, tab) =~= seq![control]);
    }
}

/// A control that is put in before all controls of its own rank and of
/// higher ranks comes first among those with its tab index, and leaves the
/// others as they were.
pub proof fn lemma_with_tab_insert(
    controls: Seq<ControlModel>,
    at: int,
    control: ControlModel,
    tab: Option<usize>,
)
    requires
        0 <= at <= controls.len(),
        forall|i: int|
            0 <= i < at ==> tab_rank((#[trigger] controls[i]).tab_index()) < tab_rank(
                control.tab_index(),
            ),
    ensures
        with_tab(controls.insert(at, control), tab) == with_tab(seq![control], tab) + with_tab(
            controls,
            tab,
        ),
{
    let head = controls.subrange(0, at);
    let tail = controls.subrange(at, controls.len() as int);
    assert(controls.insert(at, control) =~= (head + seq![control]) + tail);
    assert(controls =~= head + tail);
    lemma_with_tab_add(head + seq![control], tail, tab);
    lemma_with_tab_add(head, seq![control], tab);
    lemma_with_tab_add(head, tail, tab);
    lemma_with_tab_one(control, tab);
    if control.tab_index() == tab {
        assert forall|i: int| 0 <= i < head.len() implies (#[trigger] head[i]).tab_index()
            != tab by {
            assert(head[i] == controls[i]);
        }
        lemma_with_tab_none(head, tab);
        assert(with_tab(head, tab) + seq![control] + with_tab(tail, tab) =~= seq![control] + (
        with_tab(head, tab) + with_tab(tail, tab)));
    } else {
        assert(with_tab(head, tab) + Seq::<ControlModel>::empty() + with_tab(tail, tab)
            =~= Seq::<ControlModel>::empty() + (with_tab(head, tab) + with_tab(tail, tab)));
    }
}

/// A control is among those picked by its own tab index.
pub proof fn lemma_with_tab_has(controls: Seq<ControlModel>, at: int)
    requires
        0 <= at < controls.len(),
    ensures
        with_tab(controls, controls[at].tab_index()).contains(controls[at]),
    decreases controls.len(),
{
    let tab = controls[at].tab_index();
    let picked = with_tab(controls, tab);
    if at == controls.len() - 1 {
        assert(picked[picked.len() - 1] == controls[at]);
    } else {
        let before = controls.drop_last();
        assert(before[at] == controls[at]);
        lemma_with_tab_has(before, at);
        let k = choose|k: int|
            0 <= k < with_tab(before, tab).len() && with_tab(before, tab)[k] == controls[at];
        assert(picked[k] == controls[at]);
    }
}

/// Every control that is picked is one of the controls.
pub proof fn lemma_with_tab_from(controls: Seq<ControlModel>, tab: Option<usize>, control: ControlModel)
    requires
        with_tab(controls, tab).contains(control),
    ensures
        controls.contains(control),
    decreases controls.len(),
{
    if controls.len() > 0 {
        let before = controls.drop_last();
        let k = choose|k: int|
            0 <= k < with_tab(controls, tab).len() && with_tab(controls, tab)[k] == control;
        if controls.last().tab_index() == tab && k == with_tab(before, tab).len() {
            assert(controls[controls.len() - 1] == control);
        } else {
            assert(with_tab(before, tab)[k] == control);
            lemma_with_tab_from(before, tab, control);
            let j = choose|j: int| 0 <= j < before.len() && before[j] == control;
            assert(controls[j] == control);
        }
    }
}

/// Putting controls in the order of their tab indexes neither adds a
/// control nor changes one.
pub proof fn lemma_sorted_members(sorted: Seq<ControlModel>, given: Seq<ControlModel>)
    requires
        is_tab_order_of(sorted, given),
    ensures
        forall|i: int| 0 <= i < sorted.len() ==> given.contains(#[trigger] sorted[i]),
{
    assert forall|i: int| 0 <= i < sorted.len() implies given.contains(#[trigger] sorted[i]) by {
        let tab = sorted[i].tab_index();
        lemma_with_tab_has(sorted, i);
        assert(with_tab(sorted, tab) == with_tab(given, tab));
        lemma_with_tab_from(given, tab, sorted[i]);
    }
}

/// Whether the tab index `one` ranks before the tab index `other`.
pub fn ranks_before(one: Option<usize>, other: Option<usize>) -> (r: bool)
    ensures
        r == (tab_rank(one) < tab_rank(other)),
{
    match (one, other) {
        (None, Some(_)) => true,
        (Some(a), Some(b)) => a < b,
        (_, None) => false,
    }
}

/// Puts the controls in the order of their tab indexes; those with the same
/// tab index stay in the order in which they came.
pub fn sort_by_tab(controls: Vec<Control>) -> (sorted: Vec<Control>)
    ensures
        is_tab_order_of(models(sorted@), models(controls@)),
        all_wf(controls@) ==> all_wf(sorted@),
{
    let ghost given = controls@;
    let ghost all = models(controls@);
    let mut rest = controls;
    let mut sorted: Vec<Control> = Vec::new();
    proof {
        assert(all.subrange(all.len() as int, all.len() as int) =~= Seq::<ControlModel>::empty());
        assert(models(sorted@) =~= Seq::<ControlModel>::empty());
    }
    while rest.len() > 0
        invariant
            all == models(given),
            rest@.len() <= given.len(),
            rest@ =~= given.subrange(0, rest@.len() as int),
            sorted@.len() + rest@.len() == given.len(),
            in_tab_order(models(sorted@)),
            forall|tab: Option<usize>| #[trigger]
                with_tab(models(sorted@), tab) == with_tab(
                    all.subrange(rest@.len() as int, all.len() as int),
                    tab,
                ),
            all_wf(given) ==> all_wf(sorted@),
        decreases rest@.len(),
    {
        let ghost cut = rest@.len() as int;
        let ghost before = sorted@;
        let control = rest.pop().unwrap();
        let key = control.get_tab_index();
        let mut at: usize = 0;
        while at < sorted.len() && ranks_before(sorted[at].get_tab_index(), key)
            invariant
                at <= sorted@.len(),
                sorted@ == before,
                forall|i: int|
                    0 <= i < at ==> tab_rank((#[trigger] models(sorted@)[i]).tab_index())
                        < tab_rank(key),
            decreases sorted@.len() - at,
        {
            at += 1;
        }
        sorted.insert(at, control);
        proof {
            let old_models = models(before);
            let new_models = models(sorted@);
            assert(new_models =~= old_models.insert(at as int, control@));
            assert(control@ == all[cut - 1]);
            assert forall|i: int, j: int| 0 <= i < j < new_models.len() implies tab_rank(
                (#[trigger] new_models[i]).tab_index(),
            ) <= tab_rank((#[trigger] new_models[j]).tab_index()) by {
                if j < at {
                    assert(new_models[i] == old_models[i] && new_models[j] == old_models[j]);
                } else if j == at {
                    assert(new_models[i] == old_models[i]);
                } else if i < at {
                    assert(new_models[i] == old_models[i] && new_models[j] == old_models[j - 1]);
                } else if i == at {
                    assert(new_models[j] == old_models[j - 1]);
                    if at < j - 1 {
                        assert(tab_rank(old_models[at as int].tab_index()) <= tab_rank(
                            old_models[j - 1].tab_index(),
                        ));
                    }
                } else {
                    assert(new_models[i] == old_models[i - 1] && new_models[j] == old_models[j
                        - 1]);
                }
            }
            assert forall|tab: Option<usize>| #[trigger]
                with_tab(new_models, tab) == with_tab(
                    all.subrange(cut - 1, all.len() as int),
                    tab,
                ) by {
                lemma_with_tab_insert(old_models, at as int, control@, tab);
                assert(all.subrange(cut - 1, all.len() as int) =~= seq![control@] + all.subrange(
                    cut,
                    all.len() as int,
                ));
                lemma_with_tab_add(seq![control@], all.subrange(cut, all.len() as int), tab);
                assert(with_tab(old_models, tab) == with_tab(
                    all.subrange(cut, all.len() as int),
                    tab,
                ));
            }
            if all_wf(given) {
                assert(control.wf()) by {
                    assert(given[cut - 1].wf());
                }
                assert forall|i: int| 0 <= i < sorted@.len() implies (#[trigger] sorted@[i]).wf() by {
                    if i < at {
                        assert(before[i].wf());
                    } else if i > at {
                        assert(before[i - 1].wf());
                    }
                }
            }
        }
    }
    proof {
        assert(all.subrange(0, all.len() as int) =~= all);
    }
    sorted
}

} // verus!
