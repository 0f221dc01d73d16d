use avast::{
    compile, extract, extract_context, parse_validator_list, references_ctx, render, FieldDef,
    GenError, TypeDef, TypeShape,
};

fn record(annotations: Vec<String>, fields: Vec<FieldDef>) -> TypeDef {
    TypeDef { annotations, shape: TypeShape::Record(fields) }
}

#[test]
fn parse_bare_and_called_references() {
    let refs = parse_validator_list("alphanumeric, length(2, 4)").unwrap();
    assert_eq!(refs.len(), 2);
    assert_eq!(refs[0].name, "alphanumeric");
    assert!(refs[0].args.is_empty());
    assert_eq!(refs[1].name, "length");
    assert_eq!(refs[1].args, vec!["2".to_string(), "4".to_string()]);
}

#[test]
fn parse_single_argument_reference() {
    let refs = parse_validator_list("eq(&self.a)").unwrap();
    assert_eq!(refs.len(), 1);
    assert_eq!(refs[0].name, "eq");
    assert_eq!(refs[0].args, vec!["&self.a".to_string()]);
}

#[test]
fn parse_nested_parentheses_stay_in_one_argument() {
    let refs = parse_validator_list("expr(check(a, b))").unwrap();
    assert_eq!(refs.len(), 1);
    assert_eq!(refs[0].name, "expr");
    assert_eq!(refs[0].args, vec!["check(a, b)".to_string()]);
}

#[test]
fn parse_empty_argument_list() {
    let refs = parse_validator_list("check()").unwrap();
    assert_eq!(refs.len(), 1);
    assert_eq!(refs[0].name, "check");
    assert!(refs[0].args.is_empty());
}

#[test]
fn parse_empty_body_yields_no_references() {
    let refs = parse_validator_list("").unwrap();
    assert!(refs.is_empty());
}

#[test]
fn parse_rejects_malformed_bodies() {
    assert_eq!(parse_validator_list("length(2,").unwrap_err(), GenError::MalformedDirective);
    assert_eq!(parse_validator_list("9bad").unwrap_err(), GenError::MalformedDirective);
    assert_eq!(parse_validator_list("name(,)").unwrap_err(), GenError::MalformedDirective);
    assert_eq!(parse_validator_list("name(a,)").unwrap_err(), GenError::MalformedDirective);
    assert_eq!(parse_validator_list("a b").unwrap_err(), GenError::MalformedDirective);
}

#[test]
fn context_declaration_is_recognized() {
    let annotations = vec!["ctx(Context)".to_string()];
    assert_eq!(extract_context(&annotations).unwrap(), Some("Context".to_string()));
}

#[test]
fn context_declaration_last_one_wins() {
    let annotations = vec!["ctx(First)".to_string(), "ctx(Second)".to_string()];
    assert_eq!(extract_context(&annotations).unwrap(), Some("Second".to_string()));
}

#[test]
fn context_absent_defaults_to_none() {
    assert_eq!(extract_context(&Vec::new()).unwrap(), None);
}

#[test]
fn context_without_type_argument_is_malformed() {
    let annotations = vec!["ctx".to_string()];
    assert_eq!(extract_context(&annotations).unwrap_err(), GenError::MalformedDirective);
    let annotations = vec!["ctx(A, B)".to_string()];
    assert_eq!(extract_context(&annotations).unwrap_err(), GenError::MalformedDirective);
}

#[test]
fn extraction_orders_directives_as_written() {
    let ty = record(
        vec!["ctx(Context)".to_string()],
        vec![
            FieldDef {
                name: "a".to_string(),
                annotations: vec!["alphanumeric, length(2, 4)".to_string()],
            },
            FieldDef { name: "b".to_string(), annotations: vec!["eq(&self.a)".to_string()] },
        ],
    );
    let ex = extract(&ty).unwrap();
    assert_eq!(ex.context_type, Some("Context".to_string()));
    assert_eq!(ex.directives.len(), 3);
    assert_eq!(ex.directives[0].field_name, "a");
    assert_eq!(ex.directives[0].validator_name, "alphanumeric");
    assert!(ex.directives[0].args.is_empty());
    assert_eq!(ex.directives[1].field_name, "a");
    assert_eq!(ex.directives[1].validator_name, "length");
    assert_eq!(ex.directives[1].args, vec!["2".to_string(), "4".to_string()]);
    assert_eq!(ex.directives[2].field_name, "b");
    assert_eq!(ex.directives[2].validator_name, "eq");
    assert_eq!(ex.directives[2].args, vec!["&self.a".to_string()]);
}

#[test]
fn non_record_shapes_are_unsupported() {
    let ty = TypeDef { annotations: Vec::new(), shape: TypeShape::Other };
    assert_eq!(extract(&ty).unwrap_err(), GenError::UnsupportedShape);
    assert_eq!(compile(&ty).unwrap_err(), GenError::UnsupportedShape);
}

#[test]
fn malformed_field_annotation_aborts_extraction() {
    let ty = record(
        Vec::new(),
        vec![FieldDef { name: "a".to_string(), annotations: vec!["length(2,".to_string()] }],
    );
    assert_eq!(extract(&ty).unwrap_err(), GenError::MalformedDirective);
}

#[test]
fn context_reference_without_declaration_is_rejected() {
    let ty = record(
        Vec::new(),
        vec![FieldDef { name: "c".to_string(), annotations: vec!["eq(&ctx.bar)".to_string()] }],
    );
    assert_eq!(compile(&ty).unwrap_err(), GenError::ContextUnavailable);
}

#[test]
fn context_reference_with_declaration_is_accepted() {
    let ty = record(
        vec!["ctx(Context)".to_string()],
        vec![FieldDef { name: "c".to_string(), annotations: vec!["eq(&ctx.bar)".to_string()] }],
    );
    let plan = compile(&ty).unwrap();
    assert_eq!(plan.context_type, Some("Context".to_string()));
    assert_eq!(plan.directives.len(), 1);
}

#[test]
fn context_reference_detection_respects_token_boundaries() {
    assert!(references_ctx("&ctx.foo"));
    assert!(references_ctx("ctx"));
    assert!(references_ctx("f(ctx)"));
    assert!(!references_ctx("context"));
    assert!(!references_ctx("my_ctx"));
    assert!(!references_ctx("self.a"));
}

#[test]
fn context_reference_detection_skips_fields_and_literals() {
    // a field named `ctx` selected from a value is not the context binding
    assert!(!references_ctx("&self.ctx"));
    assert!(!references_ctx("self . ctx"));
    // quoted text is not a reference
    assert!(!references_ctx("\"ctx\""));
    assert!(!references_ctx("f(\" ctx \")"));
    // a lifetime named ctx is not the binding either
    assert!(!references_ctx("&'ctx str"));
    // but the binding beside them still counts
    assert!(references_ctx("g(\"ctx\", ctx)"));
}

#[test]
fn field_named_ctx_needs_no_declared_context() {
    let ty = record(
        Vec::new(),
        vec![FieldDef {
            name: "b".to_string(),
            annotations: vec!["eq(&self.ctx)".to_string()],
        }],
    );
    let plan = compile(&ty).unwrap();
    assert_eq!(plan.directives.len(), 1);
    assert_eq!(plan.directives[0].args, vec!["&self.ctx".to_string()]);
}

#[test]
fn quoted_separators_stay_inside_one_argument() {
    let refs = parse_validator_list("range(\"a,b\", x)").unwrap();
    assert_eq!(refs.len(), 1);
    assert_eq!(refs[0].name, "range");
    assert_eq!(refs[0].args, vec!["\"a,b\"".to_string(), "x".to_string()]);

    let refs = parse_validator_list("check(\"a)b\")").unwrap();
    assert_eq!(refs[0].args, vec!["\"a)b\"".to_string()]);

    let refs = parse_validator_list("eq(',')").unwrap();
    assert_eq!(refs[0].args, vec!["','".to_string()]);

    let refs = parse_validator_list("eq('\\'')").unwrap();
    assert_eq!(refs[0].args, vec!["'\\''".to_string()]);
}

#[test]
fn lifetimes_in_arguments_parse() {
    let refs = parse_validator_list("expr(id::<&'a str>(x))").unwrap();
    assert_eq!(refs[0].args, vec!["id::<&'a str>(x)".to_string()]);
}

#[test]
fn unterminated_literal_is_malformed() {
    assert_eq!(parse_validator_list("f(\"abc)").unwrap_err(), GenError::MalformedDirective);
}

#[test]
fn rendered_body_folds_tagged_outcomes() {
    let ty = record(
        Vec::new(),
        vec![FieldDef {
            name: "a".to_string(),
            annotations: vec!["alphanumeric, length(2, 4)".to_string()],
        }],
    );
    let plan = compile(&ty).unwrap();
    let body = render(&plan);
    let expected = "    let mut all = Validity::valid();\n    all.combine(alphanumeric(&self.a).push_blacklist(\"a\", \"alphanumeric\"));\n    all.combine(length(&self.a, 2, 4).push_blacklist(\"a\", \"length\"));\n    all\n";
    assert_eq!(body, expected);
}
