//! The representation width of an enumeration, read from its `repr`
//! attributes.

use crate::syntax::Attribute;
use quote::ToTokens;
use vstd::prelude::*;

verus! {

/// Relies on `syn::parse_str::<syn::Expr>`, which parses the text as one
/// expression and fails where tokens are left over (as `Attribute::parse_args`
/// does on the same tokens), and on `quote::ToTokens::to_token_stream` with
/// `proc_macro2::TokenStream`'s `Display` to render the expression as text.
/// That text depends on the lexer and printer in use (the compiler's inside a
/// procedural macro, proc-macro2's own elsewhere), except for a lone integer
/// type name: either lexer reads it as one identifier, which parses as a path
/// expression and prints as the same identifier.
#[verifier::external_body]
fn parse_expr(tokens: &str) -> (r: Option<String>)
    ensures
        is_integer_type_name(tokens@) ==> r.deep_view() == Some(tokens@),
{
    match syn::parse_str::<syn::Expr>(tokens) {
        Ok(expr) => Some(expr.to_token_stream().to_string()),
        Err(_) => None,
    }
}

/// The text is the name of one of Rust's primitive integer types.
pub open spec fn is_integer_type_name(s: Seq<char>) -> bool {
    ||| s == "u8"@
    ||| s == "u16"@
    ||| s == "u32"@
    ||| s == "u64"@
    ||| s == "u128"@
    ||| s == "usize"@
    ||| s == "i8"@
    ||| s == "i16"@
    ||| s == "i32"@
    ||| s == "i64"@
    ||| s == "i128"@
    ||| s == "isize"@
}

/// The attribute is `repr` with arguments in delimiters, as `#[repr(u16)]`.
pub open spec fn is_repr_list(a: Attribute) -> bool {
    a.path.spec_is_ident("repr"@) && a.args is Some
}

/// The width hint of a declaration, given for each attribute the result of
/// parsing its arguments (`parsed[i]` for `attrs[i]`): the parse result of the
/// last `repr` list whose arguments parsed.
pub open spec fn last_repr(attrs: Seq<Attribute>, parsed: Seq<Option<Seq<char>>>) -> Option<
    Seq<char>,
>
    decreases attrs.len(),
{
    if attrs.len() == 0 || parsed.len() != attrs.len() {
        None
    } else if is_repr_list(attrs.last()) && parsed.last() is Some {
        parsed.last()
    } else {
        last_repr(attrs.drop_last(), parsed.drop_last())
    }
}

/// What a `repr` list gives to parse: its argument text; other attributes
/// give nothing.
pub open spec fn repr_argument(a: Attribute) -> Option<Seq<char>> {
    if is_repr_list(a) {
        a.args.deep_view()
    } else {
        None
    }
}

/// The parse results are possible ones for `attrs`: only a `repr` list has
/// one, and a `repr` list whose argument is an integer type name has that
/// name.
pub open spec fn possible_parses(attrs: Seq<Attribute>, parsed: Seq<Option<Seq<char>>>) -> bool {
    &&& parsed.len() == attrs.len()
    &&& forall|k: int| 0 <= k < attrs.len() && (#[trigger] parsed[k]) is Some ==> is_repr_list(attrs[k])
    &&& forall|k: int|
        0 <= k < attrs.len() && is_repr_list(#[trigger] attrs[k]) && is_integer_type_name(
            attrs[k].args->Some_0@,
        ) ==> parsed[k] == Some(attrs[k].args->Some_0@)
}

/// Functions on whole declarations.
pub struct SynUtils;

impl SynUtils {
    /// The arguments of the last `repr` attribute, as `u8` in `#[repr(u8)]`.
    /// Attributes whose arguments do not parse as an expression are passed
    /// over; `None` where no `repr` attribute is left. Each argument text of
    /// `repr_arguments` is parsed, and the choice among the parse results is
    /// the one `repr_size_from_parsed` makes. The text is the expression as the
    /// parser and printer in use render it; a lone integer type name comes
    /// back as itself.
    pub fn repr_size(attrs: &[Attribute]) -> (r: Option<String>)
        ensures
            exists|parsed: Seq<Option<Seq<char>>>|
                possible_parses(attrs@, parsed) && r.deep_view() == last_repr(attrs@, parsed),
            (forall|k: int| 0 <= k < attrs@.len() ==> !is_repr_list(#[trigger] attrs@[k])) ==> r is None,
            forall|i: int|
                0 <= i < attrs@.len() && is_repr_list(#[trigger] attrs@[i]) && is_integer_type_name(
                    attrs@[i].args->Some_0@,
                ) && (forall|k: int| i < k < attrs@.len() ==> !is_repr_list(#[trigger] attrs@[k]))
                    ==> r.deep_view() == Some(attrs@[i].args->Some_0@),
    {
        let args = Self::repr_arguments(attrs);
        let mut parsed: Vec<Option<String>> = Vec::new();
        let mut i: usize = 0;
        while i < args.len()
            invariant
                i <= args@.len(),
                args@.len() == attrs@.len(),
                parsed@.len() == i,
                forall|k: int|
                    0 <= k < attrs@.len() ==> #[trigger] args@[k].deep_view() == repr_argument(
                        attrs@[k],
                    ),
                forall|k: int|
                    0 <= k < i && (#[trigger] parsed@[k]) is Some ==> is_repr_list(attrs@[k]),
                forall|k: int|
                    0 <= k < i && is_repr_list(#[trigger] attrs@[k]) && is_integer_type_name(
                        attrs@[k].args->Some_0@,
                    ) ==> parsed@[k].deep_view() == Some(attrs@[k].args->Some_0@),
            decreases args@.len() - i,
        {
            proof {
                assert(args@[i as int].deep_view() == repr_argument(attrs@[i as int]));
            }
            let p = match &args[i] {
                Some(tokens) => parse_expr(tokens.as_str()),
                None => None,
            };
            parsed.push(p);
            proof {
                assert(parsed@[i as int] == p);
            }
            i = i + 1;
        }
        let r = Self::repr_size_from_parsed(attrs, &parsed);
        proof {
            let pv = parsed.deep_view();
            assert(possible_parses(attrs@, pv)) by {
                assert forall|k: int| 0 <= k < attrs@.len() && (#[trigger] pv[k]) is Some implies is_repr_list(attrs@[k]) by {
                    assert(pv[k] == parsed@[k].deep_view());
                }
                assert forall|k: int|
                    0 <= k < attrs@.len() && is_repr_list(#[trigger] attrs@[k]) && is_integer_type_name(
                        attrs@[k].args->Some_0@,
                    ) implies pv[k] == Some(attrs@[k].args->Some_0@) by {
                    assert(pv[k] == parsed@[k].deep_view());
                }
            }
            lemma_last_repr_is_repr_list(attrs@, pv);
            assert forall|i: int|
                0 <= i < attrs@.len() && is_repr_list(#[trigger] attrs@[i]) && is_integer_type_name(
                    attrs@[i].args->Some_0@,
                ) && (forall|k: int| i < k < attrs@.len() ==> !is_repr_list(#[trigger] attrs@[k]))
                implies r.deep_view() == Some(attrs@[i].args->Some_0@) by {
                lemma_last_repr_wins(attrs@, pv, i);
            }
        }
        r
    }

    /// For each attribute, the argument text that `repr_size` parses: that of
    /// a `repr` list, `None` for any other attribute.
    pub fn repr_arguments(attrs: &[Attribute]) -> (r: Vec<Option<String>>)
        ensures
            r@.len() == attrs@.len(),
            forall|k: int| 0 <= k < attrs@.len() ==> #[trigger] r@[k].deep_view() == repr_argument(attrs@[k]),
    {
        let mut r: Vec<Option<String>> = Vec::new();
        let mut i: usize = 0;
        while i < attrs.len()
            invariant
                i <= attrs@.len(),
                r@.len() == i,
                forall|k: int| 0 <= k < i ==> #[trigger] r@[k].deep_view() == repr_argument(attrs@[k]),
            decreases attrs@.len() - i,
        {
            let mut arg: Option<String> = None;
            if attrs[i].path.is_ident("repr") {
                match &attrs[i].args {
                    Some(tokens) => {
                        arg = Some(tokens.clone());
                    },
                    None => {},
                }
            }
            r.push(arg);
            i = i + 1;
        }
        r
    }

    /// The width hint of a declaration, given for each attribute the result of
    /// parsing its arguments as an expression (`parsed[i]` for `attrs[i]`): the
    /// result for the last `repr` list whose arguments parsed, or `None`.
    pub fn repr_size_from_parsed(attrs: &[Attribute], parsed: &Vec<Option<String>>) -> (r: Option<
        String,
    >)
        requires
            parsed@.len() == attrs@.len(),
        ensures
            r.deep_view() == last_repr(attrs@, parsed.deep_view()),
    {
        let mut ty: Option<String> = None;
        let mut i: usize = 0;
        while i < attrs.len()
            invariant
                i <= attrs@.len(),
                parsed@.len() == attrs@.len(),
                ty.deep_view() == last_repr(
                    attrs@.subrange(0, i as int),
                    parsed.deep_view().subrange(0, i as int),
                ),
            decreases attrs@.len() - i,
        {
            let ghost before = ty.deep_view();
            if attrs[i].path.is_ident("repr") && attrs[i].args.is_some() {
                match &parsed[i] {
                    Some(expr) => {
                        ty = Some(expr.clone());
                    },
                    None => {},
                }
            }
            proof {
                let a = attrs@.subrange(0, i + 1);
                let p = parsed.deep_view().subrange(0, i + 1);
                assert(a.drop_last() =~= attrs@.subrange(0, i as int));
                assert(p.drop_last() =~= parsed.deep_view().subrange(0, i as int));
                assert(a.last() == attrs@[i as int]);
                assert(p.last() == parsed@[i as int].deep_view());
            }
            i = i + 1;
        }
        proof {
            assert(attrs@.subrange(0, attrs@.len() as int) =~= attrs@);
            assert(parsed.deep_view().subrange(0, attrs@.len() as int) =~= parsed.deep_view());
        }
        ty
    }
}

/// A width hint comes from a `repr` list of the declaration, as its parse
/// result.
pub proof fn lemma_last_repr_is_repr_list(attrs: Seq<Attribute>, parsed: Seq<Option<Seq<char>>>)
    ensures
        last_repr(attrs, parsed) is Some ==> exists|k: int|
            0 <= k < attrs.len() && is_repr_list(#[trigger] attrs[k]) && parsed[k] == last_repr(
                attrs,
                parsed,
            ),
    decreases attrs.len(),
{
    if attrs.len() > 0 && parsed.len() == attrs.len() {
        let n = attrs.len() - 1;
        assert(attrs.last() == attrs[n] && parsed.last() == parsed[n]);
        if !(is_repr_list(attrs.last()) && parsed.last() is Some) {
            let (a, p) = (attrs.drop_last(), parsed.drop_last());
            lemma_last_repr_is_repr_list(a, p);
            if last_repr(a, p) is Some {
                let k = choose|k: int|
                    0 <= k < a.len() && is_repr_list(#[trigger] a[k]) && p[k] == last_repr(a, p);
                assert(a[k] == attrs[k] && p[k] == parsed[k]);
            }
        }
    }
}

/// A declaration with no `repr` attribute has no width hint, whatever the
/// parse results.
pub proof fn lemma_no_repr(attrs: Seq<Attribute>, parsed: Seq<Option<Seq<char>>>)
    requires
        forall|k: int| 0 <= k < attrs.len() ==> !(#[trigger] attrs[k]).path.spec_is_ident("repr"@),
    ensures
        last_repr(attrs, parsed) is None,
{
    lemma_last_repr_is_repr_list(attrs, parsed);
}

/// The last `repr` list whose arguments parsed gives the width hint, whatever
/// `repr` attributes come before it.
pub proof fn lemma_last_repr_wins(attrs: Seq<Attribute>, parsed: Seq<Option<Seq<char>>>, i: int)
    requires
        parsed.len() == attrs.len(),
        0 <= i < attrs.len(),
        is_repr_list(attrs[i]),
        parsed[i] is Some,
        forall|k: int|
            i < k < attrs.len() ==> !(is_repr_list(#[trigger] attrs[k]) && parsed[k] is Some),
    ensures
        last_repr(attrs, parsed) == parsed[i],
    decreases attrs.len(),
{
    let n = attrs.len() - 1;
    assert(attrs.last() == attrs[n] && parsed.last() == parsed[n]);
    if i < n {
        let (a, p) = (attrs.drop_last(), parsed.drop_last());
        assert forall|k: int| i < k < a.len() implies !(is_repr_list(#[trigger] a[k]) && p[k] is Some) by {
            assert(a[k] == attrs[k] && p[k] == parsed[k]);
        }
        assert(a[i] == attrs[i] && p[i] == parsed[i]);
        lemma_last_repr_wins(a, p, i);
    }
}

} // verus!
