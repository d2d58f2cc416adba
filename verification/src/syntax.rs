//! Parsing a Rust source file into the syntax tree that the census walks.

use vstd::prelude::*;

use crate::census::AnalyzeError;

verus! {

/// The syntax tree of a whole Rust source file.
#[verifier::external_type_specification]
#[verifier::external_body]
pub struct ExSynFile(syn::File);

/// What the Rust parser reports when a text is not a Rust source file.
#[verifier::external_type_specification]
#[verifier::external_body]
pub struct ExSynError(syn::Error);

/// Whether the Rust parser accepts the text as a whole source file.
pub uninterp spec fn parses_as_rust_file(text: Seq<char>) -> bool;

/// The syntax tree that the Rust parser builds of the text.
pub uninterp spec fn parse_tree_of(text: Seq<char>) -> syn::File;

/// Calls `syn::parse_file`. Trusted: the parser succeeds exactly on the texts of
/// which `parses_as_rust_file` holds, and then returns `parse_tree_of` the text;
/// what that tree holds is left to the parser.
#[verifier::external_body]
fn syn_parse_file(text: &str) -> (res: Result<syn::File, syn::Error>)
    ensures
        res is Ok == parses_as_rust_file(text@),
        res matches Ok(tree) ==> tree == parse_tree_of(text@),
{
    syn::parse_file(text)
}

/// Parses the text of one source file of a crate.
pub fn parse_source(text: &str) -> (res: Result<syn::File, AnalyzeError>)
    ensures
        res is Ok == parses_as_rust_file(text@),
        res matches Ok(tree) ==> tree == parse_tree_of(text@),
        res is Err ==> res matches Err(AnalyzeError::Unparsable),
{
    match syn_parse_file(text) {
        Ok(tree) => Ok(tree),
        Err(_) => Err(AnalyzeError::Unparsable),
    }
}

} // verus!
