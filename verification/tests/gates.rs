use leptos_plausible::{
    active_element_event, end_page_event, link_click_actions, page_view_event, strip_prefix,
    track_element_event, tracked_id, BodyPart, Experiment, ExperimentCtx, LinkAction, PageContext,
    Plausible, PropValue, TriggerGate, Variant,
};

fn sample_page() -> PageContext {
    PageContext {
        user_agent: "UA".to_string(),
        href: "https://example.org/page".to_string(),
        referrer: String::new(),
        experiment: None,
    }
}

fn plain_text(parts: &[BodyPart]) -> String {
    parts
        .iter()
        .map(|p| match p {
            BodyPart::Text(s) => s.clone(),
            BodyPart::Float32(bits) => serde_json::to_string(&f32::from_bits(*bits)).unwrap(),
            BodyPart::Float64(bits) => serde_json::to_string(&f64::from_bits(*bits)).unwrap(),
        })
        .collect()
}

#[test]
fn gate_fires_once_at_the_first_true() {
    let mut gate = TriggerGate::new();
    assert!(gate.is_armed());
    assert!(!gate.allows_duplicates());
    let fires: Vec<bool> = [true, false, true, true]
        .iter()
        .map(|c| gate.evaluate(*c))
        .collect();
    assert_eq!(fires, vec![true, false, false, false]);
    assert!(!gate.is_armed());
}

#[test]
fn gate_waits_for_the_first_true() {
    let mut gate = TriggerGate::new();
    let fires: Vec<bool> = [false, false, true, false, true]
        .iter()
        .map(|c| gate.evaluate(*c))
        .collect();
    assert_eq!(fires, vec![false, false, true, false, false]);
    let mut idle = TriggerGate::new();
    assert!(!idle.evaluate(false));
    assert!(idle.is_armed());
}

#[test]
fn gate_with_duplicates_fires_on_every_true() {
    let mut gate = TriggerGate::with_duplicates(true);
    assert!(gate.allows_duplicates());
    let fires: Vec<bool> = [true, false, true, true]
        .iter()
        .map(|c| gate.evaluate(*c))
        .collect();
    assert_eq!(fires, vec![true, false, true, true]);
    assert_eq!(fires.iter().filter(|f| **f).count(), 3);
}

#[test]
fn gate_without_duplicates_is_the_plain_gate() {
    let mut gate = TriggerGate::with_duplicates(false);
    let fires: Vec<bool> = [true, true, true].iter().map(|c| gate.evaluate(*c)).collect();
    assert_eq!(fires, vec![true, false, false]);
    let copy = gate;
    assert!(!copy.is_armed());
}

#[test]
fn page_view_is_sent_once() {
    let site = Plausible::new("example.org");
    let page = sample_page();
    let mut gate = TriggerGate::new();
    assert!(page_view_event(&site, &page, &mut gate, false).is_none());
    let event = page_view_event(&site, &page, &mut gate, true).expect("first sight");
    assert_eq!(event.payload().name, "pageview");
    assert!(page_view_event(&site, &page, &mut gate, false).is_none());
    assert!(page_view_event(&site, &page, &mut gate, true).is_none());
}

#[test]
fn tracked_region_sends_its_name() {
    let site = Plausible::new("example.org");
    let page = sample_page();
    let mut gate = TriggerGate::new();
    let event = track_element_event(&site, &page, "pricing", &mut gate, true).expect("due");
    assert_eq!(event.payload().name, "pricing");
    assert!(track_element_event(&site, &page, "pricing", &mut gate, true).is_none());

    let mut every = TriggerGate::with_duplicates(true);
    let sent = [true, false, true, true]
        .iter()
        .filter(|v| track_element_event(&site, &page, "pricing", &mut every, **v).is_some())
        .count();
    assert_eq!(sent, 3);
}

#[test]
fn end_of_page_is_a_tracked_region() {
    let site = Plausible::new("example.org");
    let page = sample_page();
    let mut gate = TriggerGate::new();
    assert!(end_page_event(&site, &page, &mut gate, false).is_none());
    let event = end_page_event(&site, &page, &mut gate, true).expect("due");
    assert_eq!(event.payload().name, "endpage");
    assert!(end_page_event(&site, &page, &mut gate, true).is_none());
}

#[test]
fn prefix_is_stripped_once() {
    assert_eq!(tracked_id("plausible-email"), Some("email".to_string()));
    assert_eq!(tracked_id("plausible-"), Some(String::new()));
    assert_eq!(
        tracked_id("plausible-a-plausible-b"),
        Some("a-plausible-b".to_string())
    );
    assert_eq!(tracked_id("plausible-é✓"), Some("é✓".to_string()));
    assert_eq!(tracked_id("email"), None);
    assert_eq!(tracked_id("plausible"), None);
    assert_eq!(tracked_id(""), None);
    assert_eq!(tracked_id("xplausible-email"), None);
    assert_eq!(tracked_id("Plausible-email"), None);
}

#[test]
fn strip_prefix_of_any_string() {
    assert_eq!(strip_prefix("abc", ""), Some("abc".to_string()));
    assert_eq!(strip_prefix("abc", "abc"), Some(String::new()));
    assert_eq!(strip_prefix("abc", "abcd"), None);
    assert_eq!(strip_prefix("ünïcode", "ün"), Some("ïcode".to_string()));
    assert_eq!(strip_prefix("abc", "b"), None);
}

#[test]
fn focus_on_a_tracked_element_is_reported() {
    let site = Plausible::new("example.org");
    let page = sample_page();
    let event = active_element_event(&site, &page, Some("plausible-email")).expect("tracked");
    assert_eq!(event.payload().name, "active_element");
    let props = event.payload().props.as_ref().expect("props");
    assert_eq!(props.len(), 1);
    assert_eq!(props.get("id"), Some(&PropValue::String("email".to_string())));
    // every change of focus counts: the same element again gives the event again
    assert!(active_element_event(&site, &page, Some("plausible-email")).is_some());
    assert!(active_element_event(&site, &page, Some("email")).is_none());
    assert!(active_element_event(&site, &page, None).is_none());
}

#[test]
fn link_click_sends_before_it_leaves() {
    let site = Plausible::new("example.org");
    let page = sample_page();
    let actions = link_click_actions(&site, &page, "https://other.example/", "_self", None);
    assert_eq!(actions.len(), 2);
    match &actions[0] {
        LinkAction::Send(event) => {
            assert_eq!(event.payload().name, "Outbound Link: Click");
            let props = event.payload().props.as_ref().expect("props");
            assert_eq!(
                props.get("url"),
                Some(&PropValue::String("https://other.example/".to_string()))
            );
            assert_eq!(
                plain_text(&event.request().body),
                "{\"name\":\"Outbound Link: Click\",\"domain\":\"example.org\",\"url\":\"https://example.org/page\",\"props\":{\"url\":\"https://other.example/\"}}"
            );
        }
        other => panic!("the first step is not the event: {:?}", other),
    }
    match &actions[1] {
        LinkAction::SetLocation(to) => assert_eq!(to, "https://other.example/"),
        other => panic!("the second step does not leave the page: {:?}", other),
    }
}

#[test]
fn link_click_in_a_new_tab() {
    let site = Plausible::new("example.org");
    let page = sample_page();
    let mut e = Experiment::new("Hero", Variant::new("A", 1), Variant::new("B", 1));
    e.assign(0).unwrap();
    let actions = link_click_actions(
        &site,
        &page,
        "https://other.example/",
        "_blank",
        Some(ExperimentCtx(e)),
    );
    assert_eq!(actions.len(), 2);
    match &actions[0] {
        LinkAction::Send(event) => {
            let props = event.payload().props.as_ref().expect("props");
            assert_eq!(props.len(), 2);
            assert_eq!(props.key_at(0), "url");
            assert_eq!(props.get("exp_Hero"), Some(&PropValue::String("A".to_string())));
        }
        other => panic!("the first step is not the event: {:?}", other),
    }
    match &actions[1] {
        LinkAction::OpenTab(to) => assert_eq!(to, "https://other.example/"),
        other => panic!("the second step opens no tab: {:?}", other),
    }
    for target in ["", "_top", "_parent", "blank", "_BLANK"] {
        let steps = link_click_actions(&site, &page, "/x", target, None);
        assert!(matches!(steps[0], LinkAction::Send(_)));
        assert!(matches!(steps[1], LinkAction::SetLocation(_)));
    }
}
