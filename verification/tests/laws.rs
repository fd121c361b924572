use ecsact::events::ExecutionEventsCollector;
use ecsact::example::{Attacking, Player};
use ecsact::macros::to_c_fn_impl_name;
use ecsact::rtb::{handle_rtb_line, try_handle_rtb_line, RtbAction};
use ecsact::support::ecsact_ident_to_rust_path;
use ecsact::text::strip_quotes;
use ecsact::{ComponentId, EcsactRuntime, SystemCapability};

#[test]
fn qualified_names_split_at_dots() {
    let whole = to_c_fn_impl_name("pkg.Sys");
    let parts = to_c_fn_impl_name("pkg") + "__" + &to_c_fn_impl_name("Sys");
    assert_eq!(whole, parts);
    assert_eq!(
        ecsact_ident_to_rust_path("a.b"),
        ecsact_ident_to_rust_path("a") + "::" + &ecsact_ident_to_rust_path("b")
    );
}

#[test]
fn quoted_text_round_trips() {
    for s in ["", "x", "\"", "a\"b", "rs"] {
        let quoted = format!("\"{}\"", s);
        assert_eq!(strip_quotes(&quoted), s);
    }
}

#[test]
fn available_methods_only_grow() {
    let mut rt = EcsactRuntime::default();
    let first = r#"{"type":"module_methods","methods":[{"method_name":"a","available":true}]}"#;
    handle_rtb_line(&mut rt, first);
    for line in [r#"{"type":"info","content":"x"}"#, "garbage", r#"{"type":"warning","content":"w"}"#] {
        let _ = try_handle_rtb_line(&mut rt, line);
        assert_eq!(rt.available_methods, vec!["a"]);
    }
    let second = r#"{"type":"module_methods","methods":[{"method_name":"b","available":true},{"method_name":"c","available":"yes"}]}"#;
    assert!(matches!(handle_rtb_line(&mut rt, second), RtbAction::Nothing));
    assert_eq!(rt.available_methods, vec!["a", "b"]);
}

#[test]
fn registrations_for_different_components_commute() {
    let a: ExecutionEventsCollector<(), u8> =
        ExecutionEventsCollector::new().on_init::<Player>(1).on_init::<Attacking>(2);
    let b: ExecutionEventsCollector<(), u8> =
        ExecutionEventsCollector::new().on_init::<Attacking>(2).on_init::<Player>(1);
    for id in [2, 5, 7] {
        assert_eq!(
            a.init_callbacks_for(ComponentId::new(id)),
            b.init_callbacks_for(ComponentId::new(id))
        );
    }
}

#[test]
fn capabilities_compare_by_value() {
    assert_eq!(SystemCapability::Readonly { optional: true }, SystemCapability::Readonly { optional: true });
    assert_ne!(SystemCapability::Readonly { optional: true }, SystemCapability::Readwrite { optional: true });
}
