use avast::built_in::{alphanumeric, eq, length, validate};
use avast::{Validate, Validity};

#[test]
fn strings() {
    struct Context {
        foo: String,
        bar: String,
    }

    let ctx = Context {
        foo: format!("Hello"),
        bar: format!("World!"),
    };

    fn uppercase<I: AsRef<str>, C>(item: I) -> Validity {
        Validity::from_bool(item.as_ref().chars().all(char::is_uppercase))
    }

    // #[avast(ctx(Context))], fields annotated as in the comments below; the
    // impl is written out as the rule compiler emits it.
    struct NestedStrings {
        // uppercase, alphanumeric, length(3, 4)
        nested_a: String,
        nested_b: String,
        // eq(&ctx.foo)
        nested_c: String,
    }

    impl Validate for NestedStrings {
        type Context = Context;
        fn validate(&self, ctx: &Self::Context) -> Validity {
            let mut all = Validity::valid();
            all.combine(
                uppercase::<_, Context>(&self.nested_a)
                    .push_blacklist("nested_a", "uppercase"),
            );
            all.combine(alphanumeric(&self.nested_a).push_blacklist("nested_a", "alphanumeric"));
            all.combine(length(&self.nested_a, 3, 4).push_blacklist("nested_a", "length"));
            all.combine(eq(&self.nested_c, &ctx.foo).push_blacklist("nested_c", "eq"));
            all
        }
    }

    struct Strings {
        // alphanumeric, length(2, 4)
        a: String,
        // eq(&self.a)
        b: String,
        // eq(&ctx.bar), alphanumeric
        c: String,
        // uppercase, eq(&self.e.nested_b)
        d: String,
        // validate(ctx)
        e: NestedStrings,
    }

    impl Validate for Strings {
        type Context = Context;
        fn validate(&self, ctx: &Self::Context) -> Validity {
            let mut all = Validity::valid();
            all.combine(alphanumeric(&self.a).push_blacklist("a", "alphanumeric"));
            all.combine(length(&self.a, 2, 4).push_blacklist("a", "length"));
            all.combine(eq(&self.b, &self.a).push_blacklist("b", "eq"));
            all.combine(eq(&self.c, &ctx.bar).push_blacklist("c", "eq"));
            all.combine(alphanumeric(&self.c).push_blacklist("c", "alphanumeric"));
            all.combine(
                uppercase::<_, Context>(&self.d).push_blacklist("d", "uppercase"),
            );
            all.combine(eq(&self.d, &self.e.nested_b).push_blacklist("d", "eq"));
            all.combine(validate(&self.e, ctx).push_blacklist("e", "validate"));
            all
        }
    }

    let strings = Strings {
        a: format!("Avast"),
        b: format!("Rust"),
        c: format!("World!"),
        d: format!("UPPER"),
        e: NestedStrings {
            nested_a: format!("$99"),
            nested_b: format!("UPPER"),
            nested_c: format!("Hello"),
        },
    };

    let validity = strings.validate(&ctx);
    let _ = validity;
}
