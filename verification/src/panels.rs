use vstd::prelude::*;

verus! {

/// Where a newly added panel is kept.
#[derive(Clone, Copy, Debug, PartialEq, Eq, Structural)]
pub enum PanelHome {
    /// The UI state exists: the panel joins its panels.
    Installed,
    /// Not built yet, and earlier panels are waiting: it joins them.
    Pending,
    /// Not built yet and nothing is waiting: it starts the waiting list.
    NewPending,
}

pub open spec fn spec_panel_home(state_exists: bool, pending_exists: bool) -> PanelHome {
    if state_exists {
        PanelHome::Installed
    } else if pending_exists {
        PanelHome::Pending
    } else {
        PanelHome::NewPending
    }
}

/// Decides where a panel added to the app is kept.
pub fn panel_home(state_exists: bool, pending_exists: bool) -> (h: PanelHome)
    ensures
        h == spec_panel_home(state_exists, pending_exists),
{
    if state_exists {
        PanelHome::Installed
    } else if pending_exists {
        PanelHome::Pending
    } else {
        PanelHome::NewPending
    }
}

/// Moves the panels that were waiting for the build behind the installed ones.
pub fn merge_pending<T>(panels: &mut Vec<T>, pending: Vec<T>)
    ensures
        final(panels)@ == old(panels)@ + pending@,
{
    let mut pending = pending;
    panels.append(&mut pending);
}

/// The panels of an app: the installed list once the UI state exists, and the
/// waiting list before that.
pub struct PanelLists<T> {
    pub installed: Option<Seq<T>>,
    pub pending: Option<Seq<T>>,
}

/// The lists after a panel is added.
pub open spec fn spec_add_panel<T>(lists: PanelLists<T>, panel: T) -> PanelLists<T> {
    match spec_panel_home(lists.installed is Some, lists.pending is Some) {
        PanelHome::Installed => PanelLists { installed: Some(lists.installed->0.push(panel)), pending: lists.pending },
        PanelHome::Pending => PanelLists { installed: lists.installed, pending: Some(lists.pending->0.push(panel)) },
        PanelHome::NewPending => PanelLists { installed: lists.installed, pending: Some(seq![panel]) },
    }
}

/// The lists after the build: a fresh UI state with no panels takes over the
/// waiting ones, and the waiting list is gone.
pub open spec fn spec_build<T>(lists: PanelLists<T>) -> PanelLists<T> {
    let waiting = match lists.pending {
        Some(p) => p,
        None => Seq::empty(),
    };
    PanelLists { installed: Some(Seq::<T>::empty() + waiting), pending: None }
}

/// Panels end up in the order they were added, whether they were added
/// before the build or after it.
pub proof fn lemma_panels_keep_order<T>(a: T, b: T, c: T)
    ensures
        ({
            let start = PanelLists::<T> { installed: None, pending: None };
            let built = spec_build(spec_add_panel(spec_add_panel(start, a), b));
            spec_add_panel(built, c).installed == Some(seq![a, b, c])
        }),
{
    let start = PanelLists::<T> { installed: None, pending: None };
    let built = spec_build(spec_add_panel(spec_add_panel(start, a), b));
    assert(built.installed->0 =~= seq![a, b]);
    assert(seq![a, b].push(c) =~= seq![a, b, c]);
}

/// A build with nothing waiting starts with no panels.
pub proof fn lemma_build_without_panels<T>()
    ensures
        spec_build(PanelLists::<T> { installed: None, pending: None }).installed == Some(Seq::<T>::empty()),
{
    assert(Seq::<T>::empty() + Seq::<T>::empty() =~= Seq::<T>::empty());
}

/// The lists after adding each of `panels` in turn.
pub open spec fn spec_add_all<T>(lists: PanelLists<T>, panels: Seq<T>) -> PanelLists<T>
    decreases panels.len(),
{
    if panels.len() == 0 {
        lists
    } else {
        spec_add_panel(spec_add_all(lists, panels.drop_last()), panels.last())
    }
}

/// Before the build, added panels wait in order: nothing is waiting if none
/// was added, and otherwise exactly the added panels.
pub proof fn lemma_add_before_build<T>(panels: Seq<T>)
    ensures
        spec_add_all(PanelLists::<T> { installed: None, pending: None }, panels).installed is None,
        spec_add_all(PanelLists::<T> { installed: None, pending: None }, panels).pending
            == (if panels.len() == 0 { None } else { Some(panels) }),
    decreases panels.len(),
{
    if panels.len() > 0 {
        lemma_add_before_build(panels.drop_last());
        if panels.len() == 1 {
            assert(panels =~= seq![panels.last()]);
        } else {
            assert(panels.drop_last().push(panels.last()) =~= panels);
        }
    }
}

/// After the build, added panels join the installed ones in order.
pub proof fn lemma_add_after_build<T>(installed: Seq<T>, panels: Seq<T>)
    ensures
        spec_add_all(PanelLists::<T> { installed: Some(installed), pending: None }, panels)
            == (PanelLists::<T> { installed: Some(installed + panels), pending: None }),
    decreases panels.len(),
{
    if panels.len() > 0 {
        lemma_add_after_build(installed, panels.drop_last());
        assert((installed + panels.drop_last()).push(panels.last()) =~= installed + panels);
    } else {
        assert(installed + panels =~= installed);
    }
}

/// Panels added in any number before the build and any number after it end
/// up installed in the order they were added, and nothing is left waiting.
pub proof fn lemma_panels_keep_order_any<T>(before: Seq<T>, after: Seq<T>)
    ensures
        ({
            let start = PanelLists::<T> { installed: None, pending: None };
            spec_add_all(spec_build(spec_add_all(start, before)), after)
                == (PanelLists::<T> { installed: Some(before + after), pending: None })
        }),
{
    let start = PanelLists::<T> { installed: None, pending: None };
    lemma_add_before_build(before);
    let built = spec_build(spec_add_all(start, before));
    assert(built.installed->0 =~= before);
    assert(built == (PanelLists::<T> { installed: Some(before), pending: None }));
    lemma_add_after_build(before, after);
}

} // verus!
