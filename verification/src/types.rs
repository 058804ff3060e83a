//! Domain types of a PATCH request to the Obsidian Local REST API (v3):
//! the operation, the kind of target, and the full parameter set.
use vstd::prelude::*;

use crate::text::str_equal;

verus! {

/// Patch operation to perform on a note target.
#[derive(Debug, Clone, Copy, PartialEq, Eq, Structural)]
pub enum Operation {
    Append,
    Prepend,
    Replace,
}

/// Type of target within a note to patch.
#[derive(Debug, Clone, Copy, PartialEq, Eq, Structural)]
pub enum TargetType {
    Heading,
    Block,
    Frontmatter,
}

impl Operation {
    /// The lowercase wire name of the operation (the `Operation` header value).
    pub open spec fn name(self) -> Seq<char> {
        match self {
            Operation::Append => "append"@,
            Operation::Prepend => "prepend"@,
            Operation::Replace => "replace"@,
        }
    }

    /// The operation whose wire name is `name`, if any.
    pub open spec fn from_name_spec(name: Seq<char>) -> Option<Operation> {
        if name == "append"@ {
            Some(Operation::Append)
        } else if name == "prepend"@ {
            Some(Operation::Prepend)
        } else if name == "replace"@ {
            Some(Operation::Replace)
        } else {
            None
        }
    }

    /// The wire name as a static string.
    pub fn as_str(&self) -> (s: &'static str)
        ensures
            s@ == self.name(),
    {
        match self {
            Operation::Append => "append",
            Operation::Prepend => "prepend",
            Operation::Replace => "replace",
        }
    }

    /// The wire name as an owned string (what the original `Display` printed).
    pub fn to_string(&self) -> (s: String)
        ensures
            s@ == self.name(),
    {
        String::from_str(self.as_str())
    }

    /// Parses a lowercase wire name; any other text is rejected.
    pub fn from_name(name: &str) -> (r: Option<Operation>)
        ensures
            r == Operation::from_name_spec(name@),
    {
        if str_equal(name, "append") {
            Some(Operation::Append)
        } else if str_equal(name, "prepend") {
            Some(Operation::Prepend)
        } else if str_equal(name, "replace") {
            Some(Operation::Replace)
        } else {
            None
        }
    }
}

impl TargetType {
    /// The lowercase wire name of the target type (the `Target-Type` header value).
    pub open spec fn name(self) -> Seq<char> {
        match self {
            TargetType::Heading => "heading"@,
            TargetType::Block => "block"@,
            TargetType::Frontmatter => "frontmatter"@,
        }
    }

    /// The target type whose wire name is `name`, if any.
    pub open spec fn from_name_spec(name: Seq<char>) -> Option<TargetType> {
        if name == "heading"@ {
            Some(TargetType::Heading)
        } else if name == "block"@ {
            Some(TargetType::Block)
        } else if name == "frontmatter"@ {
            Some(TargetType::Frontmatter)
        } else {
            None
        }
    }

    /// The wire name as a static string.
    pub fn as_str(&self) -> (s: &'static str)
        ensures
            s@ == self.name(),
    {
        match self {
            TargetType::Heading => "heading",
            TargetType::Block => "block",
            TargetType::Frontmatter => "frontmatter",
        }
    }

    /// The wire name as an owned string (what the original `Display` printed).
    pub fn to_string(&self) -> (s: String)
        ensures
            s@ == self.name(),
    {
        String::from_str(self.as_str())
    }

    /// Parses a lowercase wire name; any other text is rejected.
    pub fn from_name(name: &str) -> (r: Option<TargetType>)
        ensures
            r == TargetType::from_name_spec(name@),
    {
        if str_equal(name, "heading") {
            Some(TargetType::Heading)
        } else if str_equal(name, "block") {
            Some(TargetType::Block)
        } else if str_equal(name, "frontmatter") {
            Some(TargetType::Frontmatter)
        } else {
            None
        }
    }
}

/// Parsing a wire name gives back the operation that printed it, and distinct
/// operations have distinct wire names.
pub proof fn lemma_operation_name_round_trip(op: Operation, other: Operation)
    ensures
        Operation::from_name_spec(op.name()) == Some(op),
        op.name() == other.name() ==> op == other,
{
    reveal_strlit("append");
    reveal_strlit("prepend");
    reveal_strlit("replace");
    assert("append"@.len() != "prepend"@.len());
    assert("append"@.len() != "replace"@.len());
    assert("prepend"@[0] != "replace"@[0]);
}

/// Parsing a wire name gives back the target type that printed it, and distinct
/// target types have distinct wire names.
pub proof fn lemma_target_type_name_round_trip(tt: TargetType, other: TargetType)
    ensures
        TargetType::from_name_spec(tt.name()) == Some(tt),
        tt.name() == other.name() ==> tt == other,
{
    reveal_strlit("heading");
    reveal_strlit("block");
    reveal_strlit("frontmatter");
    assert("heading"@.len() != "block"@.len());
    assert("heading"@.len() != "frontmatter"@.len());
    assert("block"@.len() != "frontmatter"@.len());
}

/// Every name that parses is exactly the printed name of what it parses to:
/// parsing accepts the lowercase names and nothing else.
pub proof fn lemma_names_accepted_exactly(name: Seq<char>)
    ensures
        Operation::from_name_spec(name) matches Some(op) ==> op.name() == name,
        TargetType::from_name_spec(name) matches Some(tt) ==> tt.name() == name,
{
}

/// Parameters for an Obsidian REST API v3 PATCH request.
#[derive(Debug, Clone)]
pub struct PatchParams {
    pub operation: Operation,
    pub target_type: TargetType,
    pub target: String,
    pub target_delimiter: Option<String>,
    pub trim_target_whitespace: Option<bool>,
    pub create_target_if_missing: Option<bool>,
    /// Content type of the request body; `text/markdown` when absent.
    pub content_type: Option<String>,
}

/// The mathematical value of a [`PatchParams`].
pub struct PatchParamsView {
    pub operation: Operation,
    pub target_type: TargetType,
    pub target: Seq<char>,
    pub target_delimiter: Option<Seq<char>>,
    pub trim_target_whitespace: Option<bool>,
    pub create_target_if_missing: Option<bool>,
    pub content_type: Option<Seq<char>>,
}

/// The view of an optional string.
pub open spec fn opt_view(s: Option<String>) -> Option<Seq<char>> {
    match s {
        Some(v) => Some(v@),
        None => None,
    }
}

impl View for PatchParams {
    type V = PatchParamsView;

    open spec fn view(&self) -> PatchParamsView {
        PatchParamsView {
            operation: self.operation,
            target_type: self.target_type,
            target: self.target@,
            target_delimiter: opt_view(self.target_delimiter),
            trim_target_whitespace: self.trim_target_whitespace,
            create_target_if_missing: self.create_target_if_missing,
            content_type: opt_view(self.content_type),
        }
    }
}

} // verus!
