//! Parsing configuration text into a `Tree`, through the `toml` crate.

use vstd::prelude::*;
use crate::error::ConfigError;
use crate::tree::{Tree, TreeView};

verus! {

/// The `toml` crate's value type, opaque to the verifier.
#[verifier::external_type_specification]
#[verifier::external_body]
pub struct ExTomlValue(toml::Value);

/// What `toml::Parser::new(text).parse()` yields for `text`: the model of the
/// parsed top-level table, or the number of errors that the parser recorded
/// when it gave no table.
pub uninterp spec fn toml_document(text: Seq<char>) -> Result<TreeView, usize>;

/// What a `toml::Value` holds: `Text` for its `String` variant, `List` for
/// `Array` with the elements in order, `Table` for `Table` with the entries in
/// the order of the map's iteration, `Other` for every other variant.
pub uninterp spec fn toml_tree(value: toml::Value) -> TreeView;

/// Runs `toml::Parser::new(text).parse()`. The table that the parser returns
/// comes back wrapped in `toml::Value::Table`; where it returns none, the
/// length of the parser's `errors` list comes back. The contract claims no
/// more than that both are functions of the text alone. (The parser calls
/// itself once for each level of nested arrays and inline tables.)
#[verifier::external_body]
fn parse_toml(text: &str) -> (parsed: Result<toml::Value, usize>)
    ensures
        match parsed {
            Ok(value) => toml_document(text@) == Ok::<TreeView, usize>(toml_tree(value)),
            Err(errors) => toml_document(text@) == Err::<TreeView, usize>(errors),
        },
{
    let mut parser = toml::Parser::new(text);
    match parser.parse() {
        Some(table) => Ok(toml::Value::Table(table)),
        None => Err(parser.errors.len()),
    }
}

/// Rebuilds a `toml::Value` as a `Tree`, variant by variant: it tells the
/// variants of the `toml` crate's enum apart and moves their fields, so that
/// the result is the tree that `toml_tree` names.
#[verifier::external_body]
fn tree_of_toml(value: &toml::Value) -> (tree: Tree)
    ensures
        tree@ == toml_tree(*value),
{
    match value {
        toml::Value::String(s) => Tree::Text(s.clone()),
        toml::Value::Array(items) => Tree::List(items.iter().map(tree_of_toml).collect()),
        toml::Value::Table(table) => Tree::Table(
            table.iter().map(|(key, item)| (key.clone(), tree_of_toml(item))).collect(),
        ),
        toml::Value::Integer(_) => Tree::Other,
        toml::Value::Float(_) => Tree::Other,
        toml::Value::Boolean(_) => Tree::Other,
        toml::Value::Datetime(_) => Tree::Other,
    }
}

/// What parsing `text` comes to: its tree, or the syntax error with the
/// parser's error count.
pub open spec fn document_of_text(text: Seq<char>) -> Result<TreeView, ConfigError> {
    match toml_document(text) {
        Ok(tree) => Ok(tree),
        Err(errors) => Err(ConfigError::SyntaxInvalid { errors }),
    }
}

/// Parses configuration text into its tree. Text that the parser rejects is a
/// `SyntaxInvalid` error, which carries the parser's error count.
pub fn parse_document(text: &str) -> (parsed: Result<Tree, ConfigError>)
    ensures
        match parsed {
            Ok(tree) => document_of_text(text@) == Ok::<TreeView, ConfigError>(tree@),
            Err(error) => document_of_text(text@) == Err::<TreeView, ConfigError>(error),
        },
{
    match parse_toml(text) {
        Ok(value) => Ok(tree_of_toml(&value)),
        Err(errors) => Err(ConfigError::SyntaxInvalid { errors }),
    }
}

} // verus!
