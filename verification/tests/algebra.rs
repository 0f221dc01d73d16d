use avast::Validity;

fn blacklist_of(v: &Validity) -> &avast::Blacklist {
    match v {
        Validity::Invalid(blacklist) => blacklist,
        Validity::Valid => panic!("expected an invalid outcome"),
    }
}

#[test]
fn valid_and_invalid_constructors() {
    assert!(Validity::valid().is_valid());
    let inv = Validity::invalid();
    assert!(!inv.is_valid());
    assert_eq!(blacklist_of(&inv).len(), 0);
}

#[test]
fn from_bool_adapts_predicates() {
    assert!(Validity::from_bool(true).is_valid());
    assert!(!Validity::from_bool(false).is_valid());
}

#[test]
fn push_blacklist_is_noop_on_valid() {
    let v = Validity::valid().push_blacklist("field", "check");
    assert!(v.is_valid());
}

#[test]
fn push_blacklist_inserts_on_invalid() {
    let v = Validity::invalid().push_blacklist("field", "check");
    let b = blacklist_of(&v);
    assert_eq!(b.len(), 1);
    assert!(b.contains("field", "check"));
    assert!(!b.contains("field", "other"));
}

#[test]
fn push_blacklist_same_pair_twice_keeps_one() {
    let v = Validity::invalid()
        .push_blacklist("field", "check")
        .push_blacklist("field", "check");
    let b = blacklist_of(&v);
    assert_eq!(b.len(), 1);
    assert!(b.contains("field", "check"));
}

#[test]
fn combine_valid_is_identity() {
    // Valid on the left: the accumulator becomes exactly the other outcome.
    let mut acc = Validity::valid();
    acc.combine(Validity::invalid().push_blacklist("a", "x"));
    let b = blacklist_of(&acc);
    assert_eq!(b.len(), 1);
    assert!(b.contains("a", "x"));

    // Valid on the right: an invalid accumulator ignores a pass entirely.
    let mut acc = Validity::invalid().push_blacklist("a", "x");
    acc.combine(Validity::valid());
    let b = blacklist_of(&acc);
    assert_eq!(b.len(), 1);
    assert!(b.contains("a", "x"));
}

#[test]
fn combine_unions_blacklists() {
    let mut acc = Validity::invalid().push_blacklist("a", "x").push_blacklist("b", "y");
    acc.combine(Validity::invalid().push_blacklist("b", "y").push_blacklist("c", "z"));
    let b = blacklist_of(&acc);
    assert_eq!(b.len(), 3);
    assert!(b.contains("a", "x"));
    assert!(b.contains("b", "y"));
    assert!(b.contains("c", "z"));
}

#[test]
fn combine_is_associative_on_samples() {
    let a = || Validity::invalid().push_blacklist("a", "x");
    let b = || Validity::invalid().push_blacklist("b", "y");
    let c = || Validity::valid();

    let mut left = a();
    left.combine(b());
    left.combine(c());

    let mut bc = b();
    bc.combine(c());
    let mut right = a();
    right.combine(bc);

    let lb = blacklist_of(&left);
    let rb = blacklist_of(&right);
    assert_eq!(lb.len(), rb.len());
    assert!(lb.contains("a", "x") && rb.contains("a", "x"));
    assert!(lb.contains("b", "y") && rb.contains("b", "y"));
}
