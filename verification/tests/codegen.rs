use ecsact::macros::{
    find_fn_name_ident, make_internal_context_type, plugin_entry, search_fn_name, system_impl,
    to_c_fn_impl_name, try_plugin_entry, try_system_impl, AttrToken, FnParam, ParamType,
    PluginEntryError, SystemImplError, Token,
};
use ecsact::rust_codegen::{
    file_header, has_rust_type, rust_array_maybe, rust_field_types, to_rust_type, try_to_rust_type,
    RustTypeError,
};
use ecsact::support::{ecsact_ident_to_rust_ident, ecsact_ident_to_rust_path, to_rust_type_tokens};
use ecsact::text::{find, push_decimal, replace_char_with, str_eq, strip_quotes};
use ecsact::{EnumId, FieldType};

fn ident(s: &str) -> Token {
    Token::Ident(s.to_string())
}

#[test]
fn strip_quotes_cases() {
    assert_eq!(strip_quotes("\"rs\""), "rs");
    assert_eq!(strip_quotes("rs"), "rs");
    assert_eq!(strip_quotes("\"rs"), "rs");
    assert_eq!(strip_quotes("rs\""), "rs");
    assert_eq!(strip_quotes("\""), "");
    assert_eq!(strip_quotes(""), "");
    assert_eq!(strip_quotes("\"\"\""), "\"");
}

#[test]
fn text_helpers() {
    assert_eq!(replace_char_with("a.b.c", '.', "::"), "a::b::c");
    assert_eq!(replace_char_with("abc", '.', "::"), "abc");
    assert_eq!(find("a/ecsact/b", "/ecsact/"), Some(1));
    assert_eq!(find("abc", "x"), None);
    assert_eq!(find("abab", "ab"), Some(0));
    assert_eq!(find("ab", ""), Some(0));
    assert!(str_eq("fn", "fn"));
    assert!(!str_eq("fn", "pub"));
    let mut s = String::from("n=");
    push_decimal(&mut s, 0);
    push_decimal(&mut s, 1234);
    assert_eq!(s, "n=01234");
}

#[test]
fn c_fn_impl_names() {
    assert_eq!(to_c_fn_impl_name("example.Gravity"), "example__Gravity");
    assert_eq!(to_c_fn_impl_name("a.b.C"), "a__b__C");
    assert_eq!(to_c_fn_impl_name("plain"), "plain");
}

#[test]
fn fn_name_of_private_function() {
    let tokens = vec![ident("fn"), ident("my_plugin"), Token::Other];
    assert_eq!(find_fn_name_ident(&tokens), Some("my_plugin".to_string()));
    assert_eq!(search_fn_name(&tokens), Ok(Some("my_plugin".to_string())));
    let tokens = vec![ident("unsafe"), ident("fn"), ident("x")];
    assert_eq!(find_fn_name_ident(&tokens), Some("x".to_string()));
}

#[test]
fn fn_name_of_public_function_is_refused() {
    let tokens = vec![ident("pub"), ident("fn"), ident("my_plugin")];
    assert_eq!(search_fn_name(&tokens), Err(PluginEntryError::PublicEntryFn));
}

#[test]
fn fn_name_search_stops_at_first_non_ident() {
    let tokens = vec![Token::Other, ident("fn"), ident("x")];
    assert_eq!(find_fn_name_ident(&tokens), None);
    let tokens = vec![ident("fn"), Token::Other];
    assert_eq!(find_fn_name_ident(&tokens), None);
    let tokens = vec![ident("struct"), ident("S")];
    assert_eq!(find_fn_name_ident(&tokens), None);
    assert_eq!(search_fn_name(&tokens), Ok(None));
    assert_eq!(find_fn_name_ident(&vec![]), None);
    // `pub` after the name is not read.
    let tokens = vec![ident("fn"), ident("pub")];
    assert_eq!(find_fn_name_ident(&tokens), Some("pub".to_string()));
}

#[test]
fn plugin_entry_decisions() {
    let f = vec![ident("fn"), ident("woohoo"), Token::Other];
    let p = plugin_entry(&vec![AttrToken::Literal("\"rs\"".to_string())], &f);
    assert_eq!(p.plugin_name, "rs");
    assert_eq!(p.fn_name, "woohoo");
    let q = try_plugin_entry(&vec![AttrToken::Literal("\"rs\"".to_string())], &f).unwrap();
    assert_eq!(q.plugin_name, "rs");
    assert_eq!(try_plugin_entry(&vec![], &f).err(), Some(PluginEntryError::MissingArgument));
    assert_eq!(
        try_plugin_entry(&vec![AttrToken::Other], &f).err(),
        Some(PluginEntryError::NotStringLiteral)
    );
    assert_eq!(
        try_plugin_entry(&vec![AttrToken::Literal(String::new())], &f).err(),
        Some(PluginEntryError::NotStringLiteral)
    );
    let g = vec![ident("struct"), ident("S")];
    assert_eq!(
        try_plugin_entry(&vec![AttrToken::Literal("\"txt\"".to_string())], &g).err(),
        Some(PluginEntryError::NotAFunction)
    );
    let h = vec![ident("pub"), ident("fn"), ident("x")];
    assert_eq!(
        try_plugin_entry(&vec![AttrToken::Literal("\"txt\"".to_string())], &h).err(),
        Some(PluginEntryError::PublicEntryFn)
    );
}

#[test]
fn system_impl_decisions() {
    let ok = vec![FnParam::Typed(ParamType::Reference { mutable: true })];
    assert_eq!(system_impl(&ok, "\"example.Gravity\""), "example__Gravity");
    assert_eq!(try_system_impl(&ok, "\"example.Gravity\""), Ok("example__Gravity".to_string()));
    assert_eq!(try_system_impl(&vec![], "\"a\""), Err(SystemImplError::NotOneParameter));
    assert_eq!(try_system_impl(&vec![ok[0], ok[0]], "\"a\""), Err(SystemImplError::NotOneParameter));
    assert_eq!(try_system_impl(&vec![FnParam::Receiver], "\"a\""), Err(SystemImplError::ReceiverContext));
    assert_eq!(
        try_system_impl(&vec![FnParam::Typed(ParamType::Other)], "\"a\""),
        Err(SystemImplError::ContextNotReference)
    );
    assert_eq!(
        try_system_impl(&vec![FnParam::Typed(ParamType::Reference { mutable: false })], "\"a\""),
        Err(SystemImplError::ContextNotMutable)
    );
}

#[test]
fn internal_context_type_replaces_last_token() {
    let tokens = vec!["&", "mut", "example", "::", "Gravity", "::", "Context"];
    let r = make_internal_context_type(tokens, "__Context");
    assert_eq!(r, vec!["&", "mut", "example", "::", "Gravity", "::", "__Context"]);
}

#[test]
fn rust_types_of_fields() {
    assert_eq!(rust_array_maybe(1, "bool"), "bool");
    assert_eq!(rust_array_maybe(4, "bool"), "[bool; 4]");
    assert_eq!(rust_array_maybe(12, "f32"), "[f32; 12]");
    assert_eq!(to_rust_type(FieldType::I32 { length: 1 }), "i32");
    assert_eq!(to_rust_type(FieldType::U8 { length: 3 }), "[u8; 3]");
    assert!(has_rust_type(&FieldType::F32 { length: 2 }));
    assert!(!has_rust_type(&FieldType::Entity { length: 1 }));
    assert!(!has_rust_type(&FieldType::Enum { id: EnumId::new(1), length: 1 }));
    assert!(!has_rust_type(&FieldType::Bool { length: 0 }));
    assert_eq!(
        rust_field_types(&vec![FieldType::F32 { length: 1 }, FieldType::U16 { length: 2 }]),
        vec!["f32".to_string(), "[u16; 2]".to_string()]
    );
    assert_eq!(file_header(), "/// Generated file - DO NOT EDIT");
}

#[test]
fn rust_paths_of_ecsact_names() {
    assert_eq!(ecsact_ident_to_rust_path("example.Position"), "example::Position");
    let tokens = ecsact_ident_to_rust_ident("example.Position").unwrap();
    assert_eq!(tokens.to_string(), "example :: Position");
    assert!(ecsact_ident_to_rust_ident("a.\"b").is_none());
    let t = to_rust_type_tokens(FieldType::U8 { length: 3 }).unwrap();
    assert_eq!(t.to_string(), "[u8 ; 3]");
}

#[test]
fn rust_type_refusals() {
    assert_eq!(try_to_rust_type(FieldType::Bool { length: 2 }), Ok("[bool; 2]".to_string()));
    assert_eq!(try_to_rust_type(FieldType::Entity { length: 1 }), Err(RustTypeError::Unsupported));
    assert_eq!(
        try_to_rust_type(FieldType::Enum { id: EnumId::new(3), length: 0 }),
        Err(RustTypeError::Unsupported)
    );
    assert_eq!(try_to_rust_type(FieldType::I16 { length: 0 }), Err(RustTypeError::EmptyArray));
    assert_eq!(try_to_rust_type(FieldType::I16 { length: -2 }), Err(RustTypeError::NegativeLength));
}
