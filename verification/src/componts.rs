use vstd::prelude::*;
use crate::strings::views;

verus! {

/// The tab that is always there and that cannot be closed.
pub const EVENT_LOG_TAB: &'static str = "Event Log";

/// The names of a list of tabs.
pub open spec fn tab_names(tabs: Seq<String>) -> Seq<Seq<char>> {
    views(tabs)
}

/// The index of the first occurrence of `x` in `s`, if any.
pub open spec fn position(s: Seq<Seq<char>>, x: Seq<char>) -> Option<int>
    decreases s.len(),
{
    if s.len() == 0 {
        None
    } else if s[0] == x {
        Some(0)
    } else {
        match position(s.drop_first(), x) {
            Some(i) => Some(i + 1),
            None => None,
        }
    }
}

/// The tab that becomes active when the active tab `name` is closed: the
/// tab before it, or the event log when it is the first one (or not shown).
pub open spec fn fallback_tab(tabs: Seq<Seq<char>>, name: Seq<char>) -> Seq<char> {
    let i = match position(tabs, name) {
        Some(i) => i,
        None => 0,
    };
    if i > 0 {
        tabs[i - 1]
    } else {
        EVENT_LOG_TAB@
    }
}

/// Holds of every tab name but `name`.
pub open spec fn other_than(name: Seq<char>) -> spec_fn(Seq<char>) -> bool {
    |t: Seq<char>| t != name
}

/// The tab names shown after `name` is asked to be shown.
pub open spec fn added_names(tabs: Seq<Seq<char>>, name: Seq<char>) -> Seq<Seq<char>> {
    if tabs.contains(name) {
        tabs
    } else {
        tabs.push(name)
    }
}

/// The tab names shown after `name` is asked to be closed.
pub open spec fn removed_names(tabs: Seq<Seq<char>>, name: Seq<char>) -> Seq<Seq<char>> {
    if name == EVENT_LOG_TAB@ {
        tabs
    } else {
        tabs.filter(other_than(name))
    }
}

/// The active tab after `name` is asked to be closed.
pub open spec fn active_after_remove(
    tabs: Seq<Seq<char>>,
    active: Seq<char>,
    name: Seq<char>,
) -> Seq<char> {
    if name != EVENT_LOG_TAB@ && active == name {
        fallback_tab(tabs, name)
    } else {
        active
    }
}

/// Asking twice for a tab to be shown is the same as asking once.
pub proof fn lemma_add_tab_idempotent(tabs: Seq<Seq<char>>, name: Seq<char>)
    ensures
        added_names(added_names(tabs, name), name) == added_names(tabs, name),
{
    if !tabs.contains(name) {
        assert(tabs.push(name)[tabs.len() as int] == name);
    }
}

/// Showing a tab hides none of those shown.
pub proof fn lemma_add_tab_keeps_tabs(tabs: Seq<Seq<char>>, name: Seq<char>, shown: Seq<char>)
    requires
        tabs.contains(shown),
    ensures
        added_names(tabs, name).contains(shown),
{
    if !tabs.contains(name) {
        let i = choose|i: int| 0 <= i < tabs.len() && tabs[i] == shown;
        assert(tabs.push(name)[i] == shown);
    }
}

/// A closed tab is no longer shown, unless it is the event log.
pub proof fn lemma_removed_tab_hidden(tabs: Seq<Seq<char>>, name: Seq<char>)
    requires
        name != EVENT_LOG_TAB@,
    ensures
        !removed_names(tabs, name).contains(name),
{
    let pred = other_than(name);
    broadcast use Seq::lemma_filter_pred;
    if tabs.filter(pred).contains(name) {
        let i = choose|i: int| 0 <= i < tabs.filter(pred).len() && tabs.filter(pred)[i] == name;
        assert(pred(tabs.filter(pred)[i]));
    }
}

/// The event log, once shown, stays shown whatever tab is closed.
pub proof fn lemma_event_log_stays(tabs: Seq<Seq<char>>, name: Seq<char>)
    requires
        tabs.contains(EVENT_LOG_TAB@),
    ensures
        removed_names(tabs, name).contains(EVENT_LOG_TAB@),
{
    if name != EVENT_LOG_TAB@ {
        let pred = other_than(name);
        let i = choose|i: int| 0 <= i < tabs.len() && tabs[i] == EVENT_LOG_TAB@;
        tabs.lemma_filter_contains(pred, i);
    }
}

proof fn lemma_filter_keeps_all(tabs: Seq<Seq<char>>, name: Seq<char>)
    requires
        !tabs.contains(name),
    ensures
        tabs.filter(other_than(name)) == tabs,
    decreases tabs.len(),
{
    let pred = other_than(name);
    if tabs.len() > 0 {
        let rest = tabs.drop_last();
        assert(!rest.contains(name)) by {
            if rest.contains(name) {
                let i = choose|i: int| 0 <= i < rest.len() && rest[i] == name;
                assert(tabs[i] == name);
            }
        }
        lemma_filter_keeps_all(rest, name);
        assert(tabs[tabs.len() - 1] != name);
        rest.lemma_filter_push(tabs.last(), pred);
        assert(rest.push(tabs.last()) =~= tabs);
    } else {
        assert(tabs.filter(pred) =~= tabs) by {
            reveal(Seq::filter);
        }
    }
}

/// Closing a tab that was just opened shows the tabs that were shown before.
pub proof fn lemma_remove_undoes_add(tabs: Seq<Seq<char>>, name: Seq<char>)
    requires
        !tabs.contains(name),
        name != EVENT_LOG_TAB@,
    ensures
        removed_names(added_names(tabs, name), name) == tabs,
{
    let pred = other_than(name);
    tabs.lemma_filter_push(name, pred);
    lemma_filter_keeps_all(tabs, name);
}

/// The tabs of a window: those shown, in order, and the active one.
pub struct TabBar {
    pub visible_tabs: Vec<String>,
    pub active_tab: String,
}

proof fn lemma_position(s: Seq<Seq<char>>, x: Seq<char>, i: int)
    requires
        0 <= i <= s.len(),
        forall|j: int| 0 <= j < i ==> s[j] != x,
        i < s.len() ==> s[i] == x,
    ensures
        position(s, x) == if i < s.len() { Some(i) } else { None::<int> },
    decreases i,
{
    if i > 0 {
        assert(s[0] != x);
        lemma_position(s.drop_first(), x, i - 1);
    }
}

/// Closing the active tab `name` (not the event log) activates the tab just
/// before it: when `name` is first shown at position `i > 0`, the tab at
/// `i - 1` becomes active; when it is first shown at position 0, the event
/// log does.
pub proof fn lemma_closing_active_tab_activates_previous(tabs: Seq<Seq<char>>, name: Seq<char>, i: int)
    requires
        name != EVENT_LOG_TAB@,
        0 <= i < tabs.len(),
        tabs[i] == name,
        forall|j: int| 0 <= j < i ==> tabs[j] != name,
    ensures
        i > 0 ==> active_after_remove(tabs, name, name) == tabs[i - 1],
        i == 0 ==> active_after_remove(tabs, name, name) == EVENT_LOG_TAB@,
{
    lemma_position(tabs, name, i);
}

/// Closing the active tab `name` (not the event log) when it is not shown
/// activates the event log.
pub proof fn lemma_closing_hidden_active_tab(tabs: Seq<Seq<char>>, name: Seq<char>)
    requires
        name != EVENT_LOG_TAB@,
        !tabs.contains(name),
    ensures
        active_after_remove(tabs, name, name) == EVENT_LOG_TAB@,
{
    assert forall|j: int| 0 <= j < tabs.len() implies tabs[j] != name by {
        if tabs[j] == name {
            assert(tabs.contains(name));
        }
    }
    lemma_position(tabs, name, tabs.len() as int);
}

/// Closing a tab that is not the active one leaves the active tab as it is.
pub proof fn lemma_closing_other_tab_keeps_active(tabs: Seq<Seq<char>>, active: Seq<char>, name: Seq<char>)
    requires
        active != name,
    ensures
        active_after_remove(tabs, active, name) == active,
{
}

/// Shows the tab `tab_name` and makes it active, unless it is shown
/// already, in which case nothing changes.
pub fn add_tab(tabs: &mut TabBar, tab_name: String)
    ensures
        tab_names(final(tabs).visible_tabs@) == added_names(
            tab_names(old(tabs).visible_tabs@),
            tab_name@,
        ),
        tab_names(old(tabs).visible_tabs@).contains(tab_name@) ==> *final(tabs) == *old(tabs),
        !tab_names(old(tabs).visible_tabs@).contains(tab_name@) ==> final(tabs).active_tab@
            == tab_name@,
{
    let n = tabs.visible_tabs.len();
    let mut i: usize = 0;
    while i < n
        invariant
            n == tabs.visible_tabs@.len(),
            i <= n,
            forall|j: int| 0 <= j < i ==> tabs.visible_tabs@[j]@ != tab_name@,
        decreases n - i,
    {
        if tabs.visible_tabs[i] == tab_name {
            assert(tab_names(tabs.visible_tabs@)[i as int] == tab_name@);
            return;
        }
        i = i + 1;
    }
    assert(!tab_names(tabs.visible_tabs@).contains(tab_name@));
    let ghost before = tabs.visible_tabs@;
    tabs.visible_tabs.push(tab_name.clone());
    assert(tab_names(tabs.visible_tabs@) =~= tab_names(before).push(tab_name@));
    tabs.active_tab = tab_name;
}

/// Closes the tab `tab_name`. The event log cannot be closed. When the
/// closed tab was the active one, the tab before it becomes active (the
/// event log when there is none before it).
pub fn remove_tab(tabs: &mut TabBar, tab_name: String)
    ensures
        tab_name@ == EVENT_LOG_TAB@ ==> *final(tabs) == *old(tabs),
        tab_names(final(tabs).visible_tabs@) == removed_names(
            tab_names(old(tabs).visible_tabs@),
            tab_name@,
        ),
        final(tabs).active_tab@ == active_after_remove(
            tab_names(old(tabs).visible_tabs@),
            old(tabs).active_tab@,
            tab_name@,
        ),
        old(tabs).active_tab@ != tab_name@ ==> final(tabs).active_tab == old(tabs).active_tab,
        forall|i: int|
            tab_name@ != EVENT_LOG_TAB@ && old(tabs).active_tab@ == tab_name@ && 0 <= i
                < old(tabs).visible_tabs@.len() && (#[trigger] old(tabs).visible_tabs@[i])@
                == tab_name@ && (forall|j: int|
                0 <= j < i ==> old(tabs).visible_tabs@[j]@ != tab_name@)
                ==> final(tabs).active_tab@ == (if i > 0 {
                old(tabs).visible_tabs@[i - 1]@
            } else {
                EVENT_LOG_TAB@
            }),
        tab_name@ != EVENT_LOG_TAB@ && old(tabs).active_tab@ == tab_name@ && !tab_names(
            old(tabs).visible_tabs@,
        ).contains(tab_name@) ==> final(tabs).active_tab@ == EVENT_LOG_TAB@,
{
    let ghost old_names = tab_names(tabs.visible_tabs@);
    let ghost old_active = tabs.active_tab;
    proof {
        assert forall|i: int|
            tab_name@ != EVENT_LOG_TAB@ && old_active@ == tab_name@ && 0 <= i
                < tabs.visible_tabs@.len() && (#[trigger] tabs.visible_tabs@[i])@ == tab_name@
                && (forall|j: int| 0 <= j < i ==> tabs.visible_tabs@[j]@ != tab_name@) implies
            active_after_remove(old_names, old_active@, tab_name@) == (if i > 0 {
                tabs.visible_tabs@[i - 1]@
            } else {
                EVENT_LOG_TAB@
            }) by {
            assert(old_names[i] == tabs.visible_tabs@[i]@);
            assert forall|j: int| 0 <= j < i implies old_names[j] != tab_name@ by {
                assert(old_names[j] == tabs.visible_tabs@[j]@);
            }
            if i > 0 {
                assert(old_names[i - 1] == tabs.visible_tabs@[i - 1]@);
            }
            lemma_closing_active_tab_activates_previous(old_names, tab_name@, i);
        }
        if tab_name@ != EVENT_LOG_TAB@ && !old_names.contains(tab_name@) {
            lemma_closing_hidden_active_tab(old_names, tab_name@);
        }
    }
    let event_log = EVENT_LOG_TAB.to_string();
    if tab_name == event_log {
        return;
    }
    let ghost names = tab_names(tabs.visible_tabs@);
    let n = tabs.visible_tabs.len();
    if tabs.active_tab == tab_name {
        let mut i: usize = 0;
        while i < n
            invariant
                n == tabs.visible_tabs@.len(),
                names == tab_names(tabs.visible_tabs@),
                i <= n,
                forall|j: int| 0 <= j < i ==> names[j] != tab_name@,
            ensures
                i <= n,
                forall|j: int| 0 <= j < i ==> names[j] != tab_name@,
                i < n ==> names[i as int] == tab_name@,
            decreases n - i,
        {
            assert(names[i as int] == tabs.visible_tabs@[i as int]@);
            if tabs.visible_tabs[i] == tab_name {
                break;
            }
            i = i + 1;
        }
        let index = if i < n { i } else { 0 };
        proof {
            lemma_position(names, tab_name@, i as int);
        }
        let new_active = if index > 0 {
            tabs.visible_tabs[index - 1].clone()
        } else {
            EVENT_LOG_TAB.to_string()
        };
        tabs.active_tab = new_active;
    }
    let ghost pred = other_than(tab_name@);
    let mut kept: Vec<String> = Vec::new();
    let mut k: usize = 0;
    while k < n
        invariant
            n == tabs.visible_tabs@.len(),
            names == tab_names(tabs.visible_tabs@),
            k <= n,
            pred == other_than(tab_name@),
            tab_names(kept@) == names.take(k as int).filter(pred),
        decreases n - k,
    {
        let ghost before = kept@;
        assert(names[k as int] == tabs.visible_tabs@[k as int]@);
        assert(names.take(k as int + 1) =~= names.take(k as int).push(names[k as int]));
        proof {
            names.take(k as int).lemma_filter_push(names[k as int], pred);
        }
        if tabs.visible_tabs[k] != tab_name {
            kept.push(tabs.visible_tabs[k].clone());
            assert(tab_names(kept@) =~= tab_names(before).push(names[k as int]));
        }
        k = k + 1;
    }
    assert(names.take(n as int) =~= names);
    tabs.visible_tabs = kept;
}

/// The new maximized (or minimized) state of a window whose button was
/// pressed: the state flips.
pub fn toggled_window_state(is_set: bool) -> (now_set: bool)
    ensures
        now_set == !is_set,
{
    if !is_set {
        true
    } else {
        false
    }
}

/// What closing a window does.
#[derive(Clone, Copy, Debug, PartialEq, Eq, Structural)]
pub enum CloseAction {
    /// The main window ends the program.
    ExitProcess,
    /// Any other window is only hidden.
    Hide,
}

pub fn close_action(is_main_window: bool) -> (a: CloseAction)
    ensures
        a == (if is_main_window { CloseAction::ExitProcess } else { CloseAction::Hide }),
{
    if is_main_window {
        CloseAction::ExitProcess
    } else {
        CloseAction::Hide
    }
}

/// Whether the proxy is running.
pub struct ProxySwitch {
    pub running: bool,
}

/// What the start/stop button asks of the proxy.
#[derive(Debug)]
pub enum ProxyCommand {
    /// Signal the running proxy to shut down.
    Stop,
    /// Start a proxy listening on `host:port`.
    Start { host: String, port: String },
}

/// The start/stop button: a running proxy is stopped, a stopped one is
/// started on the address given.
pub fn toggle_proxy(switch: &mut ProxySwitch, host: String, port: String) -> (c: ProxyCommand)
    ensures
        final(switch).running == !old(switch).running,
        final(switch).running == after_presses(old(switch).running, 1),
        old(switch).running ==> c is Stop,
        !old(switch).running ==> c == (ProxyCommand::Start { host, port }),
{
    proof {
        reveal_with_fuel(after_presses, 2);
    }
    if switch.running {
        switch.running = false;
        ProxyCommand::Stop
    } else {
        switch.running = true;
        ProxyCommand::Start { host, port }
    }
}

/// Whether the proxy runs after the start/stop button is pressed `n`
/// times, starting from `running`.
pub open spec fn after_presses(running: bool, n: nat) -> bool
    decreases n,
{
    if n == 0 {
        running
    } else {
        !after_presses(running, (n - 1) as nat)
    }
}

/// Starting from a stopped proxy, the proxy runs after `n` presses exactly
/// when `n` is odd; so the `n`-th press starts it when `n` is odd and stops
/// it when `n` is even.
pub proof fn lemma_presses_alternate(n: nat)
    ensures
        after_presses(false, n) == (n % 2 == 1),
        n > 0 ==> (after_presses(false, (n - 1) as nat) == (n % 2 == 0)),
    decreases n,
{
    if n > 0 {
        lemma_presses_alternate((n - 1) as nat);
    }
}

} // verus!
