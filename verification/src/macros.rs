//! Decisions of the two attribute macros: `plugin_entry`, which turns a
//! function into the entry point of an Ecsact codegen plugin, and
//! `system_impl`, which exposes a function as the C implementation of an
//! Ecsact system. Tokens are modelled as plain values; producing the output
//! tokens is left to the macro crate.

use vstd::prelude::*;

use crate::text::{
    lemma_replace_char_absent, lemma_replace_char_concat, lemma_replace_char_removes,
    lemma_strip_quotes_of_quoted, replace_char, replace_char_with, str_eq, strip_quotes,
    strip_quotes_spec,
};

verus! {

/// A token of a function definition, as far as the macros read it: an
/// identifier with its text, or anything else (punctuation, group, literal).
#[derive(Debug)]
pub enum Token {
    Ident(String),
    Other,
}

/// The first token of an attribute argument: a literal with its source text
/// (quotes included), or anything else.
#[derive(Debug)]
pub enum AttrToken {
    Literal(String),
    Other,
}

/// Why `plugin_entry` refuses its input.
#[derive(Clone, Copy, PartialEq, Eq, Structural, Debug)]
pub enum PluginEntryError {
    /// The attribute has no argument.
    MissingArgument,
    /// The argument is not a literal.
    NotStringLiteral,
    /// The marked function is public.
    PublicEntryFn,
    /// The attribute does not stand on a function.
    NotAFunction,
}

/// What `plugin_entry` generates from: the plugin's name and the name of the
/// function that implements it.
#[derive(Debug)]
pub struct PluginEntry {
    pub plugin_name: String,
    pub fn_name: String,
}

/// The text of an identifier token.
pub open spec fn ident_text(t: Token) -> Option<Seq<char>> {
    match t {
        Token::Ident(s) => Some(s@),
        Token::Other => None,
    }
}

/// Whether `t` is the identifier `word`.
pub open spec fn is_word(t: Token, word: Seq<char>) -> bool {
    ident_text(t) == Some(word)
}

/// Whether the first `n` tokens are all identifiers.
pub open spec fn leading_idents(t: Seq<Token>, n: int) -> bool {
    forall|j: int| 0 <= j < n ==> #[trigger] ident_text(t[j]) is Some
}

/// Whether the first `fn` keyword of the leading run of identifiers stands at
/// `f` and is followed by one more identifier (the function's name).
pub open spec fn fn_keyword_at(t: Seq<Token>, f: int) -> bool {
    &&& 0 <= f
    &&& f + 1 < t.len()
    &&& leading_idents(t, f + 2)
    &&& is_word(t[f], "fn"@)
    &&& forall|j: int| 0 <= j < f ==> !is_word(#[trigger] t[j], "fn"@)
}

/// What the search for the entry function's name gives on `t`: the
/// identifier after the first `fn` of the leading run of identifiers, an
/// error where `pub` precedes that `fn`, and nothing where there is no such
/// identifier.
pub open spec fn fn_name_search(t: Seq<Token>) -> Result<Option<Seq<char>>, PluginEntryError> {
    if exists|f: int| fn_keyword_at(t, f) {
        let f = choose|f: int| fn_keyword_at(t, f);
        if exists|j: int| 0 <= j < f && is_word(#[trigger] t[j], "pub"@) {
            Err(PluginEntryError::PublicEntryFn)
        } else {
            Ok(ident_text(t[f + 1]))
        }
    } else {
        Ok(None)
    }
}

proof fn lemma_fn_keyword_unique(t: Seq<Token>, f: int, g: int)
    requires
        fn_keyword_at(t, f),
        fn_keyword_at(t, g),
    ensures
        f == g,
{
    if f < g {
        assert(!is_word(t[f], "fn"@));
    } else if g < f {
        assert(!is_word(t[g], "fn"@));
    }
}

/// Searches a definition's tokens for the name of the function they declare:
/// the identifier after `fn`, scanning only the leading identifiers
/// (attributes and the like end the scan). A public function is refused.
pub fn search_fn_name(tokens: &Vec<Token>) -> (r: Result<Option<String>, PluginEntryError>)
    ensures
        match r {
            Ok(Some(name)) => fn_name_search(tokens@) == Ok::<Option<Seq<char>>, PluginEntryError>(
                Some(name@),
            ),
            Ok(None) => fn_name_search(tokens@) == Ok::<Option<Seq<char>>, PluginEntryError>(None),
            Err(e) => fn_name_search(tokens@) == Err::<Option<Seq<char>>, PluginEntryError>(e),
        },
{
    proof {
        reveal_strlit("fn");
        reveal_strlit("pub");
    }
    let ghost t = tokens@;
    let n = tokens.len();
    let mut is_fn = false;
    let mut is_pub = false;
    let mut i: usize = 0;
    while i < n
        invariant
            n == t.len(),
            t == tokens@,
            i <= n,
            leading_idents(t, i as int),
            !is_fn ==> forall|j: int| 0 <= j < i ==> !is_word(#[trigger] t[j], "fn"@),
            is_fn ==> i >= 1 && fn_keyword_at_prefix(t, i - 1),
            is_pub <==> exists|j: int|
                0 <= j < i && is_word(#[trigger] t[j], "pub"@) && (is_fn ==> j < i - 1),
            forall|f: int| 0 <= f && f + 1 < i ==> !fn_keyword_at(t, f),
        ensures
            i <= n,
            leading_idents(t, i as int),
            i < n ==> ident_text(t[i as int]) is None,
            forall|f: int| 0 <= f && f + 1 < i ==> !fn_keyword_at(t, f),
        decreases n - i,
    {
        proof {
            reveal_strlit("fn");
            reveal_strlit("pub");
        }
        let ident = match &tokens[i] {
            Token::Ident(s) => s,
            Token::Other => {
                break;
            },
        };
        if !is_fn {
            if str_eq(ident.as_str(), "pub") {
                assert("pub"@.len() != "fn"@.len());
                is_pub = true;
            } else if str_eq(ident.as_str(), "fn") {
                is_fn = true;
            }
        } else {
            assert(fn_keyword_at(t, i - 1));
            if is_pub {
                let ghost j = choose|j: int| 0 <= j < i && is_word(t[j], "pub"@) && j < i - 1;
                proof {
                    let f = choose|f: int| fn_keyword_at(t, f);
                    lemma_fn_keyword_unique(t, f, i - 1);
                    assert(is_word(t[j], "pub"@));
                }
                return Err(PluginEntryError::PublicEntryFn);
            }
            proof {
                let f = choose|f: int| fn_keyword_at(t, f);
                lemma_fn_keyword_unique(t, f, i - 1);
            }
            return Ok(Some(ident.clone()));
        }
        i = i + 1;
    }
    assert forall|f: int| !fn_keyword_at(t, f) by {
        if fn_keyword_at(t, f) && f + 1 >= i {
            if i < n {
                assert(ident_text(t[i as int]) is Some);
            }
        }
    }
    Ok(None)
}

/// The name of the function that a definition's tokens declare, where the
/// function is not public: the identifier after `fn`, scanning only the
/// leading identifiers; `None` where they hold no `fn` followed by a name.
pub fn find_fn_name_ident(tokens: &Vec<Token>) -> (r: Option<String>)
    requires
        fn_name_search(tokens@) is Ok,
    ensures
        match r {
            Some(name) => fn_name_search(tokens@) == Ok::<Option<Seq<char>>, PluginEntryError>(
                Some(name@),
            ),
            None => fn_name_search(tokens@) == Ok::<Option<Seq<char>>, PluginEntryError>(None),
        },
{
    search_fn_name(tokens).unwrap()
}

/// Whether `t[f]` is the first `fn` and the tokens up to it are identifiers.
pub open spec fn fn_keyword_at_prefix(t: Seq<Token>, f: int) -> bool {
    &&& 0 <= f < t.len()
    &&& leading_idents(t, f + 1)
    &&& is_word(t[f], "fn"@)
    &&& forall|j: int| 0 <= j < f ==> !is_word(#[trigger] t[j], "fn"@)
}

/// The plugin described by an attribute argument and a function definition:
/// the literal's text without its quotes, and the function's name.
pub open spec fn plugin_entry_spec(attr: Seq<AttrToken>, fn_tokens: Seq<Token>) -> Result<
    (Seq<char>, Seq<char>),
    PluginEntryError,
> {
    if attr.len() == 0 {
        Err(PluginEntryError::MissingArgument)
    } else {
        let text = match attr[0] {
            AttrToken::Literal(s) => s@,
            AttrToken::Other => Seq::empty(),
        };
        if text.len() == 0 {
            Err(PluginEntryError::NotStringLiteral)
        } else {
            match fn_name_search(fn_tokens) {
                Err(e) => Err(e),
                Ok(None) => Err(PluginEntryError::NotAFunction),
                Ok(Some(name)) => Ok((strip_quotes_spec(text), name)),
            }
        }
    }
}

/// Reads the `plugin_entry` attribute (`attr`, the tokens of its argument
/// list) and the marked function (`fn_tokens`): the first argument must be
/// a non-empty literal, whose text without quotes names the plugin, and the
/// marked item must be a private function; otherwise says why not.
pub fn try_plugin_entry(attr: &Vec<AttrToken>, fn_tokens: &Vec<Token>) -> (r: Result<
    PluginEntry,
    PluginEntryError,
>)
    ensures
        match r {
            Ok(p) => plugin_entry_spec(attr@, fn_tokens@) == Ok::<
                (Seq<char>, Seq<char>),
                PluginEntryError,
            >((p.plugin_name@, p.fn_name@)),
            Err(e) => plugin_entry_spec(attr@, fn_tokens@) == Err::<
                (Seq<char>, Seq<char>),
                PluginEntryError,
            >(e),
        },
{
    if attr.len() == 0 {
        return Err(PluginEntryError::MissingArgument);
    }
    let text: &str = match &attr[0] {
        AttrToken::Literal(s) => s.as_str(),
        AttrToken::Other => "",
    };
    proof {
        reveal_strlit("");
    }
    if text.unicode_len() == 0 {
        return Err(PluginEntryError::NotStringLiteral);
    }
    let plugin_name = strip_quotes(text);
    match search_fn_name(fn_tokens) {
        Err(e) => Err(e),
        Ok(None) => Err(PluginEntryError::NotAFunction),
        Ok(Some(fn_name)) => Ok(PluginEntry { plugin_name: String::from_str(plugin_name), fn_name }),
    }
}

/// The plugin that a `plugin_entry` attribute (`attr`) on a private
/// function (`fn_tokens`) describes: the first argument's text without its
/// quotes names it, and the function implements it.
pub fn plugin_entry(attr: &Vec<AttrToken>, fn_tokens: &Vec<Token>) -> (r: PluginEntry)
    requires
        plugin_entry_spec(attr@, fn_tokens@) is Ok,
    ensures
        plugin_entry_spec(attr@, fn_tokens@) == Ok::<(Seq<char>, Seq<char>), PluginEntryError>(
            (r.plugin_name@, r.fn_name@),
        ),
{
    try_plugin_entry(attr, fn_tokens).unwrap()
}

/// A `plugin_entry` attribute whose first argument is the string literal
/// `"name"` (any further arguments aside), on tokens `fn f ...` (after any
/// leading identifiers other than `pub` and `fn`), names the plugin `name`
/// and its implementation `f`; an empty argument list, or a first argument
/// that is no literal, is refused whatever the function.
pub proof fn lemma_plugin_entry_names(
    attr: Seq<AttrToken>,
    fn_tokens: Seq<Token>,
    name: Seq<char>,
    f: Seq<char>,
)
    ensures
        attr.len() == 0 ==> plugin_entry_spec(attr, fn_tokens) == Err::<
            (Seq<char>, Seq<char>),
            PluginEntryError,
        >(PluginEntryError::MissingArgument),
        attr.len() > 0 && attr[0] is Other ==> plugin_entry_spec(attr, fn_tokens) == Err::<
            (Seq<char>, Seq<char>),
            PluginEntryError,
        >(PluginEntryError::NotStringLiteral),
        attr.len() > 0 && (attr[0] matches AttrToken::Literal(s) && s@ == seq!['"'] + name + seq![
            '"',
        ]) && fn_name_search(fn_tokens) == Ok::<Option<Seq<char>>, PluginEntryError>(Some(f))
            ==> plugin_entry_spec(attr, fn_tokens) == Ok::<(Seq<char>, Seq<char>), PluginEntryError>(
            (name, f),
        ),
        fn_tokens.len() >= 2 && is_word(fn_tokens[0], "fn"@) && ident_text(fn_tokens[1]) == Some(f)
            ==> fn_name_search(fn_tokens) == Ok::<Option<Seq<char>>, PluginEntryError>(Some(f)),
        fn_tokens.len() >= 3 && is_word(fn_tokens[0], "pub"@) && is_word(fn_tokens[1], "fn"@)
            && ident_text(fn_tokens[2]) is Some ==> fn_name_search(fn_tokens) == Err::<
            Option<Seq<char>>,
            PluginEntryError,
        >(PluginEntryError::PublicEntryFn),
{
    lemma_strip_quotes_of_quoted(name);
    reveal_strlit("fn");
    reveal_strlit("pub");
    if fn_tokens.len() >= 2 && is_word(fn_tokens[0], "fn"@) && ident_text(fn_tokens[1]) == Some(f) {
        assert(fn_keyword_at(fn_tokens, 0));
        let g = choose|g: int| fn_keyword_at(fn_tokens, g);
        lemma_fn_keyword_unique(fn_tokens, g, 0);
    }
    if fn_tokens.len() >= 3 && is_word(fn_tokens[0], "pub"@) && is_word(fn_tokens[1], "fn"@)
        && ident_text(fn_tokens[2]) is Some {
        assert("pub"@.len() != "fn"@.len());
        assert(!is_word(fn_tokens[0], "fn"@));
        assert(fn_keyword_at(fn_tokens, 1));
        let g = choose|g: int| fn_keyword_at(fn_tokens, g);
        lemma_fn_keyword_unique(fn_tokens, g, 1);
        assert(is_word(fn_tokens[0], "pub"@));
    }
}

/// The name of the C function that implements the system with the given
/// fully qualified Ecsact name: every `.` becomes `__`.
pub open spec fn c_fn_impl_name(ecsact_name: Seq<char>) -> Seq<char> {
    replace_char(ecsact_name, '.', "__"@)
}

/// A name without `.` is its own C function name, and the C name of a
/// qualified name `a.b` is that of `a`, then `__`, then that of `b`.
pub proof fn lemma_c_fn_impl_name_structure(a: Seq<char>, b: Seq<char>)
    ensures
        !a.contains('.') ==> c_fn_impl_name(a) == a,
        c_fn_impl_name(a + seq!['.'] + b) == c_fn_impl_name(a) + "__"@ + c_fn_impl_name(b),
{
    if !a.contains('.') {
        lemma_replace_char_absent(a, '.', "__"@);
    }
    lemma_replace_char_concat(a + seq!['.'], b, '.', "__"@);
    lemma_replace_char_concat(a, seq!['.'], '.', "__"@);
    let dot = seq!['.'];
    assert(dot.drop_last() =~= Seq::<char>::empty());
    assert(dot.last() == '.');
    assert(replace_char(dot, '.', "__"@) =~= "__"@) by {
        assert(replace_char(Seq::<char>::empty(), '.', "__"@) =~= Seq::<char>::empty());
    }
    assert(replace_char(a + dot + b, '.', "__"@) =~= replace_char(a, '.', "__"@) + "__"@ + replace_char(b, '.', "__"@));
}

/// Returns the name of the C function implementing the system named
/// `ecsact_full_qualified_name` (`example.Gravity` gives `example__Gravity`).
pub fn to_c_fn_impl_name(ecsact_full_qualified_name: &str) -> (r: String)
    ensures
        r@ == c_fn_impl_name(ecsact_full_qualified_name@),
{
    replace_char_with(ecsact_full_qualified_name, '.', "__")
}

/// The type of a parameter of a system implementation function.
#[derive(Clone, Copy, PartialEq, Eq, Structural, Debug)]
pub enum ParamType {
    /// A reference type, mutable or shared.
    Reference { mutable: bool },
    /// Any other type.
    Other,
}

/// A parameter of a system implementation function.
#[derive(Clone, Copy, PartialEq, Eq, Structural, Debug)]
pub enum FnParam {
    /// `self`, `&self` or `&mut self`.
    Receiver,
    /// A parameter with a pattern and a type.
    Typed(ParamType),
}

/// Why `system_impl` refuses its input.
#[derive(Clone, Copy, PartialEq, Eq, Structural, Debug)]
pub enum SystemImplError {
    /// The function does not have exactly one parameter.
    NotOneParameter,
    /// The parameter is a receiver.
    ReceiverContext,
    /// The parameter's type is not a reference.
    ContextNotReference,
    /// The parameter's type is a shared reference.
    ContextNotMutable,
}

/// What `system_impl` decides on a function's parameters and the system's
/// name literal (its source text, quotes included): the C function's name,
/// or the reason for refusing.
pub open spec fn system_impl_spec(params: Seq<FnParam>, ecsact_identifier: Seq<char>) -> Result<
    Seq<char>,
    SystemImplError,
> {
    if params.len() != 1 {
        Err(SystemImplError::NotOneParameter)
    } else {
        match params[0] {
            FnParam::Receiver => Err(SystemImplError::ReceiverContext),
            FnParam::Typed(ParamType::Other) => Err(SystemImplError::ContextNotReference),
            FnParam::Typed(ParamType::Reference { mutable }) => if mutable {
                Ok(c_fn_impl_name(strip_quotes_spec(ecsact_identifier)))
            } else {
                Err(SystemImplError::ContextNotMutable)
            },
        }
    }
}

/// Checks the signature of a function marked as a system implementation
/// (exactly one parameter, of a mutable reference type) and names the C
/// function that will call it, from the system's name literal; otherwise
/// says why the signature is refused.
pub fn try_system_impl(params: &Vec<FnParam>, ecsact_identifier: &str) -> (r: Result<
    String,
    SystemImplError,
>)
    ensures
        match r {
            Ok(name) => system_impl_spec(params@, ecsact_identifier@) == Ok::<
                Seq<char>,
                SystemImplError,
            >(name@),
            Err(e) => system_impl_spec(params@, ecsact_identifier@) == Err::<
                Seq<char>,
                SystemImplError,
            >(e),
        },
{
    if params.len() != 1 {
        return Err(SystemImplError::NotOneParameter);
    }
    match params[0] {
        FnParam::Receiver => Err(SystemImplError::ReceiverContext),
        FnParam::Typed(ParamType::Other) => Err(SystemImplError::ContextNotReference),
        FnParam::Typed(ParamType::Reference { mutable }) => {
            if mutable {
                Ok(to_c_fn_impl_name(strip_quotes(ecsact_identifier)))
            } else {
                Err(SystemImplError::ContextNotMutable)
            }
        },
    }
}

/// The name of the C function that calls a system implementation function
/// with an accepted signature (exactly one parameter, of a mutable
/// reference type), from the system's name literal.
pub fn system_impl(params: &Vec<FnParam>, ecsact_identifier: &str) -> (r: String)
    requires
        system_impl_spec(params@, ecsact_identifier@) is Ok,
    ensures
        system_impl_spec(params@, ecsact_identifier@) == Ok::<Seq<char>, SystemImplError>(r@),
{
    try_system_impl(params, ecsact_identifier).unwrap()
}

/// `system_impl` accepts exactly a function with one parameter of a mutable
/// reference type, and exposes it as a C function named after the system's
/// fully qualified name (the literal without its quotes) with every `.`
/// written `__`: the name holds no `.`, a name without `.` is kept as it
/// is, and the name for `"a.b"` is that for `a`, then `__`, then that for
/// `b`.
pub proof fn lemma_system_impl_c_name(
    params: Seq<FnParam>,
    lit: Seq<char>,
    a: Seq<char>,
    b: Seq<char>,
)
    ensures
        system_impl_spec(params, lit) is Ok <==> (params.len() == 1 && params[0] == FnParam::Typed(
            ParamType::Reference { mutable: true },
        )),
        system_impl_spec(params, lit) is Ok ==> system_impl_spec(params, lit)->Ok_0
            == c_fn_impl_name(strip_quotes_spec(lit)),
        system_impl_spec(params, lit) is Ok ==> !system_impl_spec(params, lit)->Ok_0.contains('.'),
        system_impl_spec(params, lit) is Ok && !strip_quotes_spec(lit).contains('.')
            ==> system_impl_spec(params, lit)->Ok_0 == strip_quotes_spec(lit),
        system_impl_spec(params, seq!['"'] + a + seq!['.'] + b + seq!['"']) is Ok
            ==> system_impl_spec(params, seq!['"'] + a + seq!['.'] + b + seq!['"'])->Ok_0
            == c_fn_impl_name(a) + "__"@ + c_fn_impl_name(b),
{
    reveal_strlit("__");
    assert(!"__"@.contains('.'));
    lemma_replace_char_removes(strip_quotes_spec(lit), '.', "__"@);
    if !strip_quotes_spec(lit).contains('.') {
        lemma_replace_char_absent(strip_quotes_spec(lit), '.', "__"@);
    }
    lemma_strip_quotes_of_quoted(a + seq!['.'] + b);
    assert(seq!['"'] + (a + seq!['.'] + b) + seq!['"'] =~= seq!['"'] + a + seq!['.'] + b + seq!['"']);
    lemma_c_fn_impl_name_structure(a, b);
}

/// Turns the tokens of the context parameter's type (`&mut a::B::Context`)
/// into those of the internal context type by replacing the last token with
/// `context` (the `__Context` identifier).
pub fn make_internal_context_type<T>(tokens: Vec<T>, context: T) -> (r: Vec<T>)
    requires
        tokens.len() > 0,
    ensures
        r@ == tokens@.update(tokens.len() - 1, context),
{
    let mut tokens = tokens;
    let n = tokens.len();
    tokens.set(n - 1, context);
    tokens
}

} // verus!
