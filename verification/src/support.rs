//! Support for generated code: Ecsact identifiers as Rust paths, and the
//! lexing of generated Rust source into tokens (`proc_macro2`). Whether a
//! text lexes depends on where the lexer runs: inside a procedural macro the
//! compiler's lexer is asked as well, and it refuses some texts that the
//! fallback lexer accepts. So no claim is made of which texts lex.

use vstd::prelude::*;

use proc_macro2::{LexError, TokenStream};

use crate::rust_codegen::{array_type, element_type_name, has_rust_type_spec, to_rust_type};
use crate::text::{
    lemma_replace_char_absent, lemma_replace_char_concat, lemma_replace_char_removes, replace_char,
    replace_char_with,
};
use crate::types::FieldType;

verus! {

#[verifier::external_type_specification]
#[verifier::external_body]
pub struct ExTokenStream(proc_macro2::TokenStream);

#[verifier::external_type_specification]
#[verifier::external_body]
pub struct ExLexError(proc_macro2::LexError);

/// `proc_macro2::TokenStream::from_str`: lexes `src` into tokens. Nothing
/// is claimed: which texts lex depends on whether the call runs inside a
/// procedural macro, and the tokens are opaque.
#[verifier::external_body]
fn parse_token_stream(src: &str) -> (r: Result<TokenStream, LexError>) {
    <TokenStream as std::str::FromStr>::from_str(src)
}

/// The Rust path of a dotted Ecsact name: every `.` becomes `::`.
pub open spec fn rust_path_of(ecsact_ident: Seq<char>) -> Seq<char> {
    replace_char(ecsact_ident, '.', "::"@)
}

/// A name without `.` is its own Rust path, no Rust path holds a `.`, and
/// the path of a qualified name `a.b` is that of `a`, then `::`, then that of `b`.
pub proof fn lemma_rust_path_structure(a: Seq<char>, b: Seq<char>)
    ensures
        !a.contains('.') ==> rust_path_of(a) == a,
        !rust_path_of(a).contains('.'),
        rust_path_of(a + seq!['.'] + b) == rust_path_of(a) + "::"@ + rust_path_of(b),
{
    if !a.contains('.') {
        lemma_replace_char_absent(a, '.', "::"@);
    }
    reveal_strlit("::");
    assert(!"::"@.contains('.'));
    lemma_replace_char_removes(a, '.', "::"@);
    lemma_replace_char_concat(a + seq!['.'], b, '.', "::"@);
    lemma_replace_char_concat(a, seq!['.'], '.', "::"@);
    let dot = seq!['.'];
    assert(dot.drop_last() =~= Seq::<char>::empty());
    assert(dot.last() == '.');
    assert(replace_char(dot, '.', "::"@) =~= "::"@) by {
        assert(replace_char(Seq::<char>::empty(), '.', "::"@) =~= Seq::<char>::empty());
    }
    assert(replace_char(a + dot + b, '.', "::"@) =~= replace_char(a, '.', "::"@) + "::"@ + replace_char(b, '.', "::"@));
}

/// Writes the Rust path of a dotted Ecsact name (`example.Position` gives
/// `example::Position`).
pub fn ecsact_ident_to_rust_path(ecsact_ident: &str) -> (r: String)
    ensures
        r@ == rust_path_of(ecsact_ident@),
{
    replace_char_with(ecsact_ident, '.', "::")
}

/// The tokens of the Rust path of a dotted Ecsact name: what
/// `lex_rust_source` gives on the text that `ecsact_ident_to_rust_path`
/// writes, or `None` where the lexer refuses that text.
pub fn ecsact_ident_to_rust_ident(ecsact_ident: &str) -> (r: Option<TokenStream>)
    ensures
        exists|src: String| #[trigger] call_ensures(lex_rust_source, (src,), r) && src@
            == rust_path_of(ecsact_ident@),
{
    let path = ecsact_ident_to_rust_path(ecsact_ident);
    let lex = lex_rust_source;
    lex(path)
}

/// Lexes generated Rust source into tokens; `None` where the lexer refuses
/// the text.
pub fn lex_rust_source(src: String) -> (r: Option<TokenStream>) {
    match parse_token_stream(src.as_str()) {
        Ok(tokens) => Some(tokens),
        Err(_) => None,
    }
}

/// The Rust type text of a field type the generator supports: the element
/// type's name for a scalar, `[name; N]` for `N` elements.
pub open spec fn rust_type_text(t: FieldType) -> Seq<char> {
    array_type(t.spec_length() as int, element_type_name(t).unwrap())
}

/// The tokens of the Rust type of a component field: what
/// `lex_rust_source` gives on the text that `to_rust_type` writes, or
/// `None` where the lexer refuses that text.
pub fn to_rust_type_tokens(t: FieldType) -> (r: Option<TokenStream>)
    requires
        has_rust_type_spec(t),
    ensures
        exists|src: String| #[trigger] call_ensures(lex_rust_source, (src,), r) && src@
            == rust_type_text(t),
{
    let src = to_rust_type(t);
    let lex = lex_rust_source;
    lex(src)
}

/// The Rust type text of a scalar field is exactly the name of its element
/// type, with no brackets; only a field of more elements gets the array
/// type `[name; N]`, which opens with `[` and closes with `]`.
pub proof fn lemma_rust_type_text_shape(t: FieldType)
    requires
        has_rust_type_spec(t),
    ensures
        t.spec_length() == 1 ==> rust_type_text(t) == element_type_name(t).unwrap(),
        t.spec_length() == 1 ==> !rust_type_text(t).contains('['),
        t.spec_length() > 1 ==> rust_type_text(t)[0] == '[' && rust_type_text(t).last() == ']',
{
    reveal_strlit("bool");
    reveal_strlit("i8");
    reveal_strlit("u8");
    reveal_strlit("i16");
    reveal_strlit("u16");
    reveal_strlit("i32");
    reveal_strlit("u32");
    reveal_strlit("f32");
    reveal_strlit("[");
    reveal_strlit("]");
    reveal_strlit("; ");
    let n = element_type_name(t).unwrap();
    assert(!n.contains('[')) by {
        assert forall|i: int| 0 <= i < n.len() implies n[i] != '[' by {
            assert(n.len() <= 4);
        }
    }
}

} // verus!
