use orion_async::ast::{AttrArg, AttrLit, FnBody, FnDecl, MacroError, Span, Stmt};
use orion_async::processor::{eq_ignore_ascii_case_str, future, parse_bool, send_future, Config};

fn span(id: u64) -> Span {
    Span { id }
}

fn stmts(codes: &[u64]) -> Vec<Stmt> {
    codes.iter().map(|&code| Stmt { code }).collect()
}

fn func(is_async: bool, body: &[u64]) -> FnDecl {
    FnDecl {
        is_async,
        fn_span: span(1),
        sig_code: 7,
        body: FnBody::Source { stmts: stmts(body) },
    }
}

fn named_arg(name: &str, value: AttrLit) -> AttrArg {
    AttrArg::NameValue {
        name: Some(name.to_owned()),
        value,
        span: span(2),
    }
}

fn bool_lit(value: bool) -> AttrLit {
    AttrLit::Bool {
        value,
        span: span(3),
    }
}

#[test]
fn no_args_passes_function_through() {
    // body_send absent: the declaration comes back statement for statement.
    let input = func(true, &[100]);
    let r = future(&vec![], input.clone());
    assert_eq!(r, Ok(input));
}

#[test]
fn body_send_false_passes_function_through() {
    let input = func(true, &[10, 20]);
    let r = future(&vec![named_arg("body_send", bool_lit(false))], input.clone());
    assert_eq!(r, Ok(input));
}

#[test]
fn body_send_true_wraps_body_in_adapter() {
    let input = func(true, &[10, 20, 30]);
    let r = future(&vec![named_arg("body_send", bool_lit(true))], input).unwrap();
    assert_eq!(r.is_async, true);
    assert_eq!(r.fn_span, span(1));
    assert_eq!(r.sig_code, 7);
    assert_eq!(
        r.body,
        FnBody::AdapterDrive {
            stmts: stmts(&[10, 20, 30])
        }
    );
}

#[test]
fn string_value_is_not_boolean() {
    // body_send = "yes": the diagnostic points at the string literal.
    let lit = AttrLit::Str {
        value: "yes".to_owned(),
        span: span(9),
    };
    let r = future(&vec![named_arg("body_send", lit)], func(true, &[100]));
    assert_eq!(r, Err(MacroError::NonBooleanValue { span: span(9) }));
}

#[test]
fn int_value_is_not_boolean() {
    let lit = AttrLit::Int {
        value: 1,
        span: span(9),
    };
    let r = future(&vec![named_arg("body_send", lit)], func(true, &[100]));
    assert_eq!(r, Err(MacroError::NonBooleanValue { span: span(9) }));
}

#[test]
fn other_literal_kind_is_not_boolean() {
    let lit = AttrLit::Other { span: span(9) };
    let r = future(&vec![named_arg("body_send", lit)], func(true, &[100]));
    assert_eq!(r, Err(MacroError::NonBooleanValue { span: span(9) }));
}

#[test]
fn unknown_key_is_rejected_and_named() {
    let r = future(&vec![named_arg("other_key", bool_lit(true))], func(true, &[100]));
    assert_eq!(
        r,
        Err(MacroError::UnknownAttributeKey {
            key: "other_key".to_owned(),
            span: span(2),
        })
    );
}

#[test]
fn unknown_key_keeps_its_spelling() {
    let r = future(&vec![named_arg("Other_Key", bool_lit(true))], func(true, &[100]));
    assert_eq!(
        r,
        Err(MacroError::UnknownAttributeKey {
            key: "Other_Key".to_owned(),
            span: span(2),
        })
    );
}

#[test]
fn non_async_function_is_rejected() {
    // The diagnostic is pinned to the function keyword.
    let r = future(&vec![], func(false, &[100]));
    assert_eq!(r, Err(MacroError::MissingAsyncModifier { span: span(1) }));
}

#[test]
fn non_async_wins_over_argument_errors() {
    // The asynchronous marker is checked before any argument.
    let r = future(&vec![named_arg("other_key", bool_lit(true))], func(false, &[100]));
    assert_eq!(r, Err(MacroError::MissingAsyncModifier { span: span(1) }));
}

#[test]
fn key_matching_is_case_insensitive() {
    let input = func(true, &[5]);
    let r = future(&vec![named_arg("Body_SEND", bool_lit(true))], input).unwrap();
    assert_eq!(r.body, FnBody::AdapterDrive { stmts: stmts(&[5]) });
}

#[test]
fn uppercase_key_set_false_passes_through() {
    let input = func(true, &[5]);
    let r = future(&vec![named_arg("BODY_SEND", bool_lit(false))], input.clone());
    assert_eq!(r, Ok(input));
}

#[test]
fn non_name_value_argument_is_unsupported() {
    let r = future(&vec![AttrArg::Other { span: span(4) }], func(true, &[100]));
    assert_eq!(r, Err(MacroError::UnsupportedAttributeForm { span: span(4) }));
}

#[test]
fn argument_without_name_is_rejected() {
    let arg = AttrArg::NameValue {
        name: None,
        value: bool_lit(true),
        span: span(4),
    };
    let r = future(&vec![arg], func(true, &[100]));
    assert_eq!(r, Err(MacroError::MissingArgumentName { span: span(4) }));
}

#[test]
fn first_invalid_argument_wins() {
    // Fail-fast: the first argument's diagnostic is returned, the second is
    // never looked at.
    let args = vec![
        named_arg("other_key", bool_lit(true)),
        AttrArg::Other { span: span(5) },
    ];
    let r = future(&args, func(true, &[100]));
    assert_eq!(
        r,
        Err(MacroError::UnknownAttributeKey {
            key: "other_key".to_owned(),
            span: span(2),
        })
    );
}

#[test]
fn later_body_send_overwrites_earlier_true() {
    let args = vec![
        named_arg("body_send", bool_lit(true)),
        named_arg("body_send", bool_lit(false)),
    ];
    let input = func(true, &[100]);
    let r = future(&args, input.clone());
    assert_eq!(r, Ok(input));
}

#[test]
fn later_body_send_overwrites_earlier_false() {
    let args = vec![
        named_arg("body_send", bool_lit(false)),
        named_arg("body_send", bool_lit(true)),
    ];
    let r = future(&args, func(true, &[100])).unwrap();
    assert_eq!(r.body, FnBody::AdapterDrive { stmts: stmts(&[100]) });
}

#[test]
fn empty_body_is_wrapped_too() {
    let r = future(&vec![named_arg("body_send", bool_lit(true))], func(true, &[])).unwrap();
    assert_eq!(r.body, FnBody::AdapterDrive { stmts: vec![] });
}

#[test]
fn parse_bool_accepts_boolean_literals() {
    assert_eq!(parse_bool(&bool_lit(true)), Ok(true));
    assert_eq!(parse_bool(&bool_lit(false)), Ok(false));
}

#[test]
fn parse_bool_rejects_other_literals() {
    let lit = AttrLit::Str {
        value: "true".to_owned(),
        span: span(8),
    };
    assert_eq!(
        parse_bool(&lit),
        Err(MacroError::NonBooleanValue { span: span(8) })
    );
    let lit = AttrLit::Int {
        value: 0,
        span: span(6),
    };
    assert_eq!(
        parse_bool(&lit),
        Err(MacroError::NonBooleanValue { span: span(6) })
    );
}

#[test]
fn config_defaults_to_not_send() {
    assert_eq!(Config::new().send, false);
}

#[test]
fn config_build_sets_and_keeps_flag() {
    let mut conf = Config::new();
    assert!(conf.build(&named_arg("body_send", bool_lit(true))).is_ok());
    assert_eq!(conf.send, true);
    // A failing argument leaves the configuration untouched.
    let r = conf.build(&named_arg("other_key", bool_lit(false)));
    assert!(r.is_err());
    assert_eq!(conf.send, true);
}

#[test]
fn send_future_replaces_body_in_place() {
    let mut input = func(true, &[1, 2]);
    send_future(&mut input);
    assert_eq!(input.body, FnBody::AdapterDrive { stmts: stmts(&[1, 2]) });
    assert_eq!(input.sig_code, 7);
    assert_eq!(input.is_async, true);
}

#[test]
fn ascii_case_comparison() {
    assert!(eq_ignore_ascii_case_str("Body_Send", "body_send"));
    assert!(eq_ignore_ascii_case_str("", ""));
    assert!(!eq_ignore_ascii_case_str("body_send", "body_sent"));
    assert!(!eq_ignore_ascii_case_str("body_send", "body_send_"));
}

#[test]
fn diagnostic_messages_and_spans() {
    let e = MacroError::MissingAsyncModifier { span: span(1) };
    assert_eq!(e.message(), "should add `async` keyword");
    assert_eq!(e.span(), span(1));
    let e = MacroError::UnsupportedAttributeForm { span: span(2) };
    assert_eq!(e.message(), "unknown attribute");
    let e = MacroError::MissingArgumentName { span: span(3) };
    assert_eq!(e.message(), "should have specified ident");
    let e = MacroError::UnknownAttributeKey {
        key: "k".to_owned(),
        span: span(4),
    };
    assert_eq!(e.message(), "unknown attribute, expected is `body_send`");
    assert_eq!(e.span(), span(4));
    let e = MacroError::NonBooleanValue { span: span(5) };
    assert_eq!(e.message(), "value should be true or false");
}
