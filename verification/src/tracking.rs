//! What the tracking elements of a page decide: whether an event is due when
//! a region becomes visible or an element gains the focus, and what a click
//! on a tracked link does, in which order.

use vstd::prelude::*;
use vstd::string::*;
use crate::event::{EventBuilder, EventModel, EventName, PageContext, Plausible};
use crate::experiments::ExperimentCtx;
use crate::gate::TriggerGate;
use crate::value::{PropModel, PropValue};

verus! {

/// `s` begins with `prefix`.
pub open spec fn has_prefix(s: Seq<char>, prefix: Seq<char>) -> bool {
    prefix.len() <= s.len() && s.take(prefix.len() as int) == prefix
}

/// What follows `prefix` in `s`, if `s` begins with it.
pub fn strip_prefix(s: &str, prefix: &str) -> (rest: Option<String>)
    ensures
        rest is Some <==> has_prefix(s@, prefix@),
        rest matches Some(r) ==> r@ == s@.skip(prefix@.len() as int),
{
    let n = s.unicode_len();
    let m = prefix.unicode_len();
    if n < m {
        return None;
    }
    let mut i: usize = 0;
    while i < m
        invariant
            i <= m,
            m <= n,
            n == s@.len(),
            m == prefix@.len(),
            forall|j: int| 0 <= j < i ==> s@[j] == prefix@[j],
        decreases m - i,
    {
        if s.get_char(i) != prefix.get_char(i) {
            assert(s@.take(m as int)[i as int] != prefix@[i as int]);
            return None;
        }
        i += 1;
    }
    assert(s@.take(m as int) =~= prefix@);
    let rest = s.substring_char(m, n);
    assert(s@.subrange(m as int, n as int) =~= s@.skip(m as int));
    Some(rest.to_owned())
}

/// The identifier under which a focused element is reported: its `id` datum
/// without the prefix `plausible-`. An element whose `id` datum does not
/// begin with that prefix is not reported.
pub fn tracked_id(data_id: &str) -> (id: Option<String>)
    ensures
        id is Some <==> has_prefix(data_id@, "plausible-"@),
        id matches Some(t) ==> t@ == data_id@.skip("plausible-"@.len() as int),
{
    strip_prefix(data_id, "plausible-")
}

/// The event due when the focus moves: `active_element`, with the tracked
/// identifier as the property `id`, if the element that now has the focus
/// carries one. Every such change of focus is reported.
pub fn active_element_event(plausible: &Plausible, page: &PageContext, data_id: Option<&str>) -> (due:
    Option<EventBuilder>)
    ensures
        due is Some <==> (data_id matches Some(d) && has_prefix(d@, "plausible-"@)),
        due matches Some(event) ==> event@ == ({
            let start = plausible@.initial_event("active_element"@, *page);
            let id = data_id.unwrap()@.skip("plausible-"@.len() as int);
            EventModel { body: start.body.with_props(seq![("id"@, PropModel::Text(id))]), ..start }
        }),
{
    match data_id {
        None => None,
        Some(d) => match tracked_id(d) {
            None => None,
            Some(id) => Some(
                plausible.event(page, "active_element").prop("id", PropValue::String(id)),
            ),
        },
    }
}

/// The event due when the region of a page view is sampled: `pageview`, the
/// first time the region is visible.
pub fn page_view_event(
    plausible: &Plausible,
    page: &PageContext,
    gate: &mut TriggerGate,
    visible: bool,
) -> (due: Option<EventBuilder>)
    ensures
        final(gate)@ == old(gate)@.after(visible),
        due is Some <==> old(gate)@.fires(visible),
        due matches Some(event) ==> event@ == plausible@.initial_event(
            EventName::Pageview.text(),
            *page,
        ),
{
    if gate.evaluate(visible) {
        Some(plausible.pageview(page))
    } else {
        None
    }
}

/// The event due when a tracked region is sampled: the event `name`, when the
/// gate of the region fires. A sample is one look at whether the region is
/// visible; a gate that allows duplicates fires on every sample that finds it
/// visible.
pub fn track_element_event(
    plausible: &Plausible,
    page: &PageContext,
    name: &str,
    gate: &mut TriggerGate,
    visible: bool,
) -> (due: Option<EventBuilder>)
    ensures
        final(gate)@ == old(gate)@.after(visible),
        due is Some <==> old(gate)@.fires(visible),
        due matches Some(event) ==> event@ == plausible@.initial_event(name@, *page),
{
    if gate.evaluate(visible) {
        Some(plausible.event(page, name))
    } else {
        None
    }
}

/// The event due when the end of the page is sampled: `endpage`, under the
/// same rule as any tracked region.
pub fn end_page_event(
    plausible: &Plausible,
    page: &PageContext,
    gate: &mut TriggerGate,
    visible: bool,
) -> (due: Option<EventBuilder>)
    ensures
        final(gate)@ == old(gate)@.after(visible),
        due is Some <==> old(gate)@.fires(visible),
        due matches Some(event) ==> event@ == plausible@.initial_event("endpage"@, *page),
{
    track_element_event(plausible, page, "endpage", gate, visible)
}

/// One step of what a click on a tracked link does.
#[derive(Debug)]
pub enum LinkAction {
    /// Issue the request of this event.
    Send(EventBuilder),
    /// Open the address in a new tab.
    OpenTab(String),
    /// Leave the page for the address.
    SetLocation(String),
}

/// What a click on a tracked link does, in order: first the event of the
/// click is sent, with the experiment in `experiment` added to it; only then
/// the browser goes to the link, in a new tab if the target of the link is
/// `_blank`, else in place of the page. Leaving the page first would end the
/// page before the event is on its way.
pub fn link_click_actions(
    plausible: &Plausible,
    page: &PageContext,
    href: &str,
    target: &str,
    experiment: Option<ExperimentCtx>,
) -> (actions: Vec<LinkAction>)
    ensures
        actions@.len() == 2,
        actions@[0] matches LinkAction::Send(event) && event@ == ({
            let start = plausible@.initial_event(EventName::OutboundLinkClick.text(), *page);
            let clicked = start.body.with_props(seq![("url"@, PropModel::Text(href@))]);
            EventModel {
                body: match experiment {
                    Some(e) => clicked.with_props(e.0@.properties()),
                    None => clicked,
                },
                ..start
            }
        }),
        target@ == "_blank"@ ==> (actions@[1] matches LinkAction::OpenTab(to) && to@ == href@),
        target@ != "_blank"@ ==> (actions@[1] matches LinkAction::SetLocation(to) && to@
            == href@),
{
    let event = plausible.link_click(page, href).set_experiment(experiment);
    let new_tab = target.to_owned() == "_blank".to_owned();
    let mut actions: Vec<LinkAction> = Vec::new();
    actions.push(LinkAction::Send(event));
    if new_tab {
        actions.push(LinkAction::OpenTab(href.to_owned()));
    } else {
        actions.push(LinkAction::SetLocation(href.to_owned()));
    }
    actions
}

} // verus!
