use leptos_plausible::{PropValue, Props};

fn pairs_of(props: &Props) -> Vec<(String, PropValue)> {
    (0..props.len())
        .map(|i| (props.key_at(i).clone(), props.value_at(i).clone()))
        .collect()
}

fn sorted_pairs(props: &Props) -> Vec<(String, String)> {
    let mut all: Vec<(String, String)> = pairs_of(props)
        .into_iter()
        .map(|(k, v)| (k, format!("{:?}", v)))
        .collect();
    all.sort();
    all
}

#[test]
fn merge_is_right_biased() {
    let first = Props::new().with("a".to_string(), PropValue::U8(1));
    let second = Props::new()
        .with("a".to_string(), PropValue::U8(2))
        .with("b".to_string(), PropValue::U8(3));
    let merged = first.merged(second);
    assert_eq!(
        pairs_of(&merged),
        vec![
            ("a".to_string(), PropValue::U8(2)),
            ("b".to_string(), PropValue::U8(3)),
        ]
    );
}

#[test]
fn merge_commutes_on_disjoint_keys() {
    let left = || {
        Props::new()
            .with("a".to_string(), PropValue::from(1u32))
            .with("b".to_string(), PropValue::from("x"))
    };
    let right = || {
        Props::new()
            .with("c".to_string(), PropValue::from(true))
            .with("d".to_string(), PropValue::from(-4i64))
    };
    let one = left().merged(right());
    let other = right().merged(left());
    assert_eq!(one.len(), 4);
    assert_eq!(sorted_pairs(&one), sorted_pairs(&other));
    assert_eq!(one.key_at(0), "a");
    assert_eq!(other.key_at(0), "c");
}

#[test]
fn merge_in_two_steps_or_in_one() {
    let base = || Props::new().with("k".to_string(), PropValue::U8(0));
    let first = || {
        Props::new()
            .with("a".to_string(), PropValue::U8(1))
            .with("k".to_string(), PropValue::U8(9))
    };
    let second = || {
        Props::new()
            .with("b".to_string(), PropValue::U8(2))
            .with("a".to_string(), PropValue::U8(7))
    };
    let stepwise = base().merged(first()).merged(second());
    let at_once = base().merged(first().merged(second()));
    assert_eq!(pairs_of(&stepwise), pairs_of(&at_once));
    assert_eq!(
        pairs_of(&stepwise),
        vec![
            ("k".to_string(), PropValue::U8(9)),
            ("a".to_string(), PropValue::U8(7)),
            ("b".to_string(), PropValue::U8(2)),
        ]
    );
}

#[test]
fn with_overwrites_in_place() {
    let props = Props::new()
        .with("x".to_string(), PropValue::Bool(false))
        .with("y".to_string(), PropValue::I32(-1))
        .with("x".to_string(), PropValue::Bool(true));
    assert_eq!(props.len(), 2);
    assert_eq!(props.key_at(0), "x");
    assert_eq!(props.value_at(0), &PropValue::Bool(true));
    assert_eq!(props.key_at(1), "y");
    assert_eq!(props.get("x"), Some(&PropValue::Bool(true)));
    assert_eq!(props.get("y"), Some(&PropValue::I32(-1)));
    assert_eq!(props.get("z"), None);
    assert_eq!(props.get(""), None);
}

#[test]
fn empty_list() {
    let props = Props::new();
    assert!(props.is_empty());
    assert_eq!(props.len(), 0);
    assert_eq!(props.get("a"), None);
    let merged = Props::new().merged(Props::new());
    assert!(merged.is_empty());
    let kept = Props::new()
        .with("a".to_string(), PropValue::U8(1))
        .merged(Props::new());
    assert_eq!(pairs_of(&kept), vec![("a".to_string(), PropValue::U8(1))]);
}

#[test]
fn from_pairs_keeps_the_later_of_two() {
    let props = Props::from_pairs(vec![
        ("experiment".to_string(), PropValue::from("experiment_name")),
        ("variant".to_string(), PropValue::from("A")),
        ("experiment".to_string(), PropValue::from("other")),
    ]);
    assert_eq!(
        pairs_of(&props),
        vec![
            ("experiment".to_string(), PropValue::String("other".to_string())),
            ("variant".to_string(), PropValue::String("A".to_string())),
        ]
    );
    let copy = props.clone();
    assert_eq!(pairs_of(&copy), pairs_of(&props));
    assert!(Props::from_pairs(Vec::new()).is_empty());
}

#[test]
fn values_from_scalars() {
    assert_eq!(PropValue::from("s"), PropValue::String("s".to_string()));
    assert_eq!(PropValue::from(String::from("t")), PropValue::String("t".to_string()));
    assert_eq!(PropValue::from(true), PropValue::Bool(true));
    assert_eq!(PropValue::from(1u8), PropValue::U8(1));
    assert_eq!(PropValue::from(2u16), PropValue::U16(2));
    assert_eq!(PropValue::from(3u32), PropValue::U32(3));
    assert_eq!(PropValue::from(4u64), PropValue::U64(4));
    assert_eq!(PropValue::from(5u128), PropValue::U128(5));
    assert_eq!(PropValue::from(6usize), PropValue::Usize(6));
    assert_eq!(PropValue::from(-1i8), PropValue::I8(-1));
    assert_eq!(PropValue::from(-2i16), PropValue::I16(-2));
    assert_eq!(PropValue::from(-3i32), PropValue::I32(-3));
    assert_eq!(PropValue::from(-4i64), PropValue::I64(-4));
    assert_eq!(PropValue::from(-5i128), PropValue::I128(-5));
    assert_eq!(PropValue::from(-6isize), PropValue::Isize(-6));
    let v: PropValue = "into".into();
    assert_eq!(v.duplicate(), PropValue::String("into".to_string()));
    assert_eq!(PropValue::F64(1.5f64.to_bits()).duplicate(), PropValue::F64(1.5f64.to_bits()));
}
