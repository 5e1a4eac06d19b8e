use optimizer::prof::{
    ever_symbolicated, symbolicate, ProfStartTime, StackProfile, SymbolicationState, WeightedStack,
};

fn ws(addrs: &[usize], weight: &str) -> WeightedStack {
    WeightedStack { addrs: addrs.to_vec(), weight: String::from(weight) }
}

#[test]
fn mzfg_renders_header_and_stacks() {
    let mut profile = StackProfile::default();
    profile.push(ws(&[255, 16], "1.5"), Some("foo"));
    profile.push(ws(&[1], "2"), None);
    let mut state = SymbolicationState::new();
    let out = profile.to_mzfg(false, &[("key", "value")], &mut state);
    assert_eq!(
        out,
        "!!! COMMENT !!!: Open with bin/fgviz /path/to/mzfg\nmz_fg_version: 1\n\
         key: value\n\
         \n\
         0xff;0x10; 1.5 foo\n\
         0x1; 2\n"
    );
    assert!(!ever_symbolicated(&state));
}

#[test]
fn mzfg_interns_annotations() {
    let mut profile = StackProfile::default();
    profile.push(ws(&[1], "1"), Some("hot"));
    profile.push(ws(&[2], "1"), Some("hot"));
    let mut iter = profile.iter();
    let first = iter.next().expect("first stack");
    let second = iter.next().expect("second stack");
    assert_eq!(first.1, Some("hot"));
    assert_eq!(second.1, Some("hot"));
    assert!(iter.next().is_none());
}

#[test]
fn iter_walks_stacks_in_order() {
    let mut profile = StackProfile::default();
    profile.push(ws(&[10, 20], "3"), None);
    profile.push(ws(&[30], "4"), Some("anno"));
    let mut iter = profile.iter();
    let (stack, anno) = iter.next().expect("first");
    assert_eq!(stack.addrs, vec![10, 20]);
    assert_eq!(stack.weight, "3");
    assert_eq!(anno, None);
    let (stack, anno) = iter.next().expect("second");
    assert_eq!(stack.addrs, vec![30]);
    assert_eq!(anno, Some("anno"));
    assert!(iter.next().is_none());
}

#[test]
fn symbolicate_maps_every_distinct_address() {
    let mut profile = StackProfile::default();
    profile.push(ws(&[8, 4], "1"), None);
    profile.push(ws(&[4, 2], "1"), Some("x"));
    let mut state = SymbolicationState::new();
    assert!(!ever_symbolicated(&state));
    let symbols = symbolicate(&profile, &mut state);
    assert!(ever_symbolicated(&state));
    let keys: Vec<usize> = symbols.keys().copied().collect();
    assert_eq!(keys, vec![2, 4, 8]);
}

#[test]
fn symbolicating_render_marks_state_and_keeps_prefix() {
    let mut profile = StackProfile::default();
    profile.push(ws(&[5], "1"), None);
    let mut state = SymbolicationState::new();
    let plain = profile.to_mzfg(false, &[], &mut state);
    assert!(!ever_symbolicated(&state));
    let symbolicated = profile.to_mzfg(true, &[], &mut state);
    assert!(ever_symbolicated(&state));
    assert!(symbolicated.starts_with(&plain));
    assert!(symbolicated[plain.len()..].starts_with('\n'));
}

#[test]
fn prof_start_time_is_copyable() {
    let t = ProfStartTime::TimeImmemorial;
    let u = t;
    assert!(matches!(t, ProfStartTime::TimeImmemorial));
    assert!(matches!(u, ProfStartTime::TimeImmemorial));
    let now = ProfStartTime::Instant(std::time::Instant::now());
    assert!(matches!(now, ProfStartTime::Instant(_)));
}
