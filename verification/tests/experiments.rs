use leptos_plausible::{
    Experiment, ExperimentCtx, ExperimentError, PropValue, Resolution, Variant,
};

fn draw_once(a: u16, b: u16) -> usize {
    let mut e = Experiment::new("Experiment", Variant::new("A", a), Variant::new("B", b));
    e.choose_variant().expect("weights are not both zero");
    e.selected().expect("resolved")
}

#[test]
fn build_variant() {
    Variant {
        name: String::from("A"),
        weight: 1,
    };
}

#[test]
fn weighted_experiments() {
    let choices: Vec<usize> = (0..1000).map(|_| draw_once(1, 9)).collect();

    let a_count = choices.iter().filter(|v| **v == 0).count();
    let b_count = choices.iter().filter(|v| **v == 1).count();

    println!("{} {}", a_count, b_count);
    assert!(
        50 <= a_count && a_count <= 150,
        "Weights do not seem to work"
    );
    assert!(
        800 <= b_count && b_count <= 980,
        "Weights do not seem to work"
    );
}

#[test]
fn ten_thousand_draws_follow_the_weights() {
    let b_count = (0..10_000).filter(|_| draw_once(1, 9) == 1).count();
    assert!(8500 <= b_count && b_count <= 9500, "{}", b_count);
}

#[test]
fn equal_weights_select_both_arms() {
    let a_count = (0..1000).filter(|_| draw_once(1, 1) == 0).count();
    assert!(400 <= a_count && a_count <= 600, "{}", a_count);
}

#[test]
fn large_weights_do_not_wrap() {
    let a_count = (0..1000).filter(|_| draw_once(u16::MAX, u16::MAX) == 0).count();
    assert!(400 <= a_count && a_count <= 600, "{}", a_count);
    let b_count = (0..1000).filter(|_| draw_once(1, u16::MAX) == 1).count();
    assert!(b_count >= 990, "{}", b_count);
}

#[test]
fn arm_of_weight_zero_is_never_selected() {
    for _ in 0..200 {
        assert_eq!(draw_once(0, 5), 1);
        assert_eq!(draw_once(5, 0), 0);
    }
}

#[test]
fn new_experiment_is_unresolved() {
    let e = Experiment::new("Checkout", Variant::new("A", 1), Variant::new("B", 9));
    assert_eq!(e.name(), "Checkout");
    assert_eq!(e.selected(), None);
    assert!(e.variant().is_none());
}

#[test]
fn default_experiment() {
    let mut e = Experiment::default();
    assert_eq!(e.name(), "Experiment");
    assert_eq!(e.selected(), None);
    e.assign(0).unwrap();
    let a = e.variant().unwrap();
    assert_eq!(a.name, "A");
    assert_eq!(a.weight, 1);
    let mut f = Experiment::default();
    f.assign(1).unwrap();
    let b = f.variant().unwrap();
    assert_eq!(b.name, "B");
    assert_eq!(b.weight, 1);
}

#[test]
fn both_weights_zero_is_an_error() {
    let mut e = Experiment::new("E", Variant::new("A", 0), Variant::new("B", 0));
    assert_eq!(e.choose_variant(), Err(ExperimentError::AllWeightsZero));
    assert_eq!(e.selected(), None);
    assert_eq!(e.assign(0), Err(ExperimentError::AllWeightsZero));
    assert_eq!(e.selected(), None);
}

#[test]
fn second_choice_is_rejected() {
    let mut e = Experiment::new("E", Variant::new("A", 3), Variant::new("B", 7));
    assert_eq!(e.choose_variant(), Ok(()));
    let first = e.selected();
    assert!(first == Some(0) || first == Some(1));
    for _ in 0..50 {
        assert_eq!(e.choose_variant(), Err(ExperimentError::AlreadyResolved));
        assert_eq!(e.selected(), first);
    }
    assert_eq!(e.assign(0), Err(ExperimentError::AlreadyResolved));
    assert_eq!(e.assign(1), Err(ExperimentError::AlreadyResolved));
    assert_eq!(e.selected(), first);
}

#[test]
fn assign_takes_only_what_a_draw_can_give() {
    let mut e = Experiment::new("E", Variant::new("A", 0), Variant::new("B", 2));
    assert_eq!(e.assign(0), Err(ExperimentError::InvalidDraw));
    assert_eq!(e.assign(2), Err(ExperimentError::InvalidDraw));
    assert_eq!(e.assign(usize::MAX), Err(ExperimentError::InvalidDraw));
    assert_eq!(e.selected(), None);
    assert_eq!(e.assign(1), Ok(()));
    assert_eq!(e.selected(), Some(1));
    assert_eq!(e.variant().unwrap().name, "B");
}

#[test]
fn variant_follows_the_selected_index() {
    let mut e = Experiment::new("E", Variant::new("left", 4), Variant::new("right", 6));
    e.assign(0).unwrap();
    assert_eq!(e.variant().unwrap().name, "left");
    assert_eq!(e.variant().unwrap().weight, 4);
    let copy = e.clone();
    assert_eq!(copy.selected(), Some(0));
    assert_eq!(copy.name(), "E");
}

#[test]
fn pending_context_has_no_properties() {
    let ctx = ExperimentCtx(Experiment::new("Hero", Variant::new("A", 1), Variant::new("B", 1)));
    assert!(matches!(ctx.read(), Resolution::Pending));
    let props = ctx.to_plausible();
    assert!(props.is_empty());
    assert_eq!(props.len(), 0);
}

#[test]
fn resolved_context_names_the_arm() {
    let mut e = Experiment::new("Hero", Variant::new("plain", 1), Variant::new("bold", 1));
    e.assign(1).unwrap();
    let ctx = ExperimentCtx(e);
    match ctx.read() {
        Resolution::Resolved(v) => {
            assert_eq!(v.name, "bold");
            assert_eq!(v.weight, 1);
        }
        Resolution::Pending => panic!("resolved experiment read as pending"),
    }
    let props = ctx.to_plausible();
    assert_eq!(props.len(), 1);
    assert_eq!(props.key_at(0), "exp_Hero");
    assert_eq!(props.value_at(0), &PropValue::String("bold".to_string()));
    assert_eq!(props.get("exp_Hero"), Some(&PropValue::String("bold".to_string())));
    let again = ctx.clone().to_plausible();
    assert_eq!(again.get("exp_Hero"), Some(&PropValue::String("bold".to_string())));
}
