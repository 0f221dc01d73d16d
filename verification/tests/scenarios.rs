use avast::built_in::{alphanumeric, ascii, eq, expr, greater_than, length, less_than, none, range, some, validate};
use avast::{Validate, Validity};

fn blacklist_of(v: &Validity) -> &avast::Blacklist {
    match v {
        Validity::Invalid(blacklist) => blacklist,
        Validity::Valid => panic!("expected an invalid outcome"),
    }
}

#[test]
fn length_fails_alphanumeric_passes() {
    // field `a` annotated `alphanumeric, length(2, 4)` with value "Avast"
    // (length 5): only the length check fails.
    struct OneField {
        a: String,
    }

    impl Validate for OneField {
        type Context = ();
        fn validate(&self, _ctx: &Self::Context) -> Validity {
            let mut all = Validity::valid();
            all.combine(alphanumeric(&self.a).push_blacklist("a", "alphanumeric"));
            all.combine(length(&self.a, 2, 4).push_blacklist("a", "length"));
            all
        }
    }

    let value = OneField { a: String::from("Avast") };
    let outcome = value.validate(&());
    let b = blacklist_of(&outcome);
    assert_eq!(b.len(), 1);
    assert!(b.contains("a", "length"));
    assert!(!b.contains("a", "alphanumeric"));
}

#[test]
fn eq_against_sibling_field_passes() {
    // field `b` annotated `eq(&self.a)` with a == b: no entry for `b`.
    struct TwoFields {
        a: String,
        b: String,
    }

    impl Validate for TwoFields {
        type Context = ();
        fn validate(&self, _ctx: &Self::Context) -> Validity {
            let mut all = Validity::valid();
            all.combine(eq(&self.b, &self.a).push_blacklist("b", "eq"));
            all
        }
    }

    let value = TwoFields { a: String::from("X"), b: String::from("X") };
    let outcome = value.validate(&());
    assert!(outcome.is_valid());
}

#[test]
fn nested_failure_keeps_inner_field_names() {
    // field `e` annotated `validate(ctx)`: the nested structure's own field
    // names appear in the merged blacklist, not ("e", "validate").
    struct Inner {
        nested_a: String,
    }

    impl Validate for Inner {
        type Context = ();
        fn validate(&self, _ctx: &Self::Context) -> Validity {
            let mut all = Validity::valid();
            all.combine(alphanumeric(&self.nested_a).push_blacklist("nested_a", "alphanumeric"));
            all
        }
    }

    struct Outer {
        e: Inner,
    }

    impl Validate for Outer {
        type Context = ();
        fn validate(&self, ctx: &Self::Context) -> Validity {
            let mut all = Validity::valid();
            all.combine(validate(&self.e, ctx).push_blacklist("e", "validate"));
            all
        }
    }

    let value = Outer { e: Inner { nested_a: String::from("$99") } };
    let outcome = value.validate(&());
    let b = blacklist_of(&outcome);
    assert!(b.contains("nested_a", "alphanumeric"));
    assert!(!b.contains("e", "alphanumeric"));
    // The delegating directive is tagged like any other failing outcome.
    assert!(b.contains("e", "validate"));
}

#[test]
fn two_of_three_checks_fail_two_entries() {
    // one field, three validators, two of which fail: exactly two entries.
    struct OneField {
        x: String,
    }

    impl Validate for OneField {
        type Context = ();
        fn validate(&self, _ctx: &Self::Context) -> Validity {
            let mut all = Validity::valid();
            all.combine(ascii(&self.x).push_blacklist("x", "ascii"));
            all.combine(alphanumeric(&self.x).push_blacklist("x", "alphanumeric"));
            all.combine(length(&self.x, 1, 2).push_blacklist("x", "length"));
            all
        }
    }

    let value = OneField { x: String::from("$$$") };
    let outcome = value.validate(&());
    let b = blacklist_of(&outcome);
    assert_eq!(b.len(), 2);
    assert!(b.contains("x", "alphanumeric"));
    assert!(b.contains("x", "length"));
    assert!(!b.contains("x", "ascii"));
}

#[test]
fn option_and_number_checks() {
    assert!(some(&Some(1u32)).is_valid());
    assert!(!some::<u32>(&None).is_valid());
    assert!(none::<u32>(&None).is_valid());
    assert!(!none(&Some(1u32)).is_valid());

    assert!(range::<u32, ()>(&5, 1, 10).is_valid());
    assert!(!range::<u32, ()>(&11, 1, 10).is_valid());
    assert!(less_than::<u32, ()>(&3, 4).is_valid());
    assert!(!less_than::<u32, ()>(&4, 4).is_valid());
    assert!(greater_than::<u32, ()>(&5, 4).is_valid());
    assert!(!greater_than::<u32, ()>(&4, 4).is_valid());
}

#[test]
fn string_checks() {
    assert!(ascii("Avast").is_valid());
    assert!(!ascii("na\u{ef}ve").is_valid());
    assert!(alphanumeric("abc123").is_valid());
    assert!(!alphanumeric("$99").is_valid());
    assert!(length("Avast", 2, 5).is_valid());
    assert!(!length("Avast", 2, 4).is_valid());
    assert!(!length("A", 2, 4).is_valid());

    assert!(expr(&0u8, Validity::valid()).is_valid());
    assert!(!expr(&0u8, Validity::invalid()).is_valid());
    assert!(expr(&0u8, 1 + 1 == 2).is_valid());
    assert!(!expr(&0u8, 1 > 2).is_valid());
    assert!(Validity::from(true).is_valid());
    assert!(!Validity::from(false).is_valid());
}
