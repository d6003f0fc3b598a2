use vstd::prelude::*;
use proc_macro2::TokenStream;

verus! {

// Opaque expression fragments found inside directives (counts, offsets,
// conditions, calculated values) are stored as `proc_macro2::TokenStream`
// handles. This engine never interprets them; it only carries them through to
// the code generator.
#[verifier::external_type_specification]
#[verifier::external_body]
pub struct ExTokenStream(TokenStream);

/// Relies on `proc_macro2::TokenStream`'s derived `Clone`: the clone is the
/// same token sequence (and spans) as the original.
#[verifier::external_body]
pub fn clone_tokens(t: &TokenStream) -> (r: TokenStream)
    ensures
        r == *t,
{
    t.clone()
}

/// Clones an optional expression fragment.
pub fn clone_opt_tokens(t: &Option<TokenStream>) -> (r: Option<TokenStream>)
    ensures
        r == *t,
{
    match t {
        Option::Some(ts) => Option::Some(clone_tokens(ts)),
        Option::None => Option::None,
    }
}

/// Clones every fragment of an expression list.
pub fn clone_token_list(v: &Vec<TokenStream>) -> (r: Vec<TokenStream>)
    ensures
        r@ == v@,
{
    let mut r: Vec<TokenStream> = Vec::new();
    let mut i: usize = 0;
    while i < v.len()
        invariant
            i <= v.len(),
            r@ == v@.take(i as int),
        decreases v.len() - i,
    {
        r.push(clone_tokens(&v[i]));
        proof {
            assert(v@.take(i + 1 as int) =~= v@.take(i as int).push(v@[i as int]));
        }
        i = i + 1;
    }
    proof {
        assert(v@.take(v@.len() as int) =~= v@);
    }
    r
}

} // verus!
