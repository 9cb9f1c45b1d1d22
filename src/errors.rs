use vstd::prelude::*;

verus! {

broadcast use vstd::string::group_string_axioms;

/// The decimal digit `d` (below ten) as a character.
pub open spec fn spec_digit(d: nat) -> char {
    seq!['0', '1', '2', '3', '4', '5', '6', '7', '8', '9'][d as int]
}

/// The decimal representation of `n`, without sign or leading zeros.
pub open spec fn spec_decimal(n: nat) -> Seq<char>
    decreases n,
{
    if n < 10 {
        seq![spec_digit(n)]
    } else {
        spec_decimal(n / 10).push(spec_digit(n % 10))
    }
}

/// Relies on `usize`'s `ToString` (through `Display`): its decimal representation.
#[verifier::external_body]
fn usize_to_decimal(n: usize) -> (r: String)
    ensures
        r@ == spec_decimal(n as nat),
{
    n.to_string()
}

/// The details of an error as text: a list of key and value pairs, each key once.
pub open spec fn spec_details_view(d: Option<Vec<(String, String)>>) -> Option<Seq<(Seq<char>, Seq<char>)>> {
    match d {
        Some(v) => Some(v@.map_values(|p: (String, String)| (p.0@, p.1@))),
        None => None,
    }
}

/// A pair of a key and a value as text.
fn entry(key: &str, value: String) -> (r: (String, String))
    ensures
        r.0@ == key@,
        r.1@ == value@,
{
    (key.to_string(), value)
}

/// Errors about named rules.
#[derive(Clone, Debug, PartialEq, Eq)]
pub enum NamedRuleError {
    /// The named rule was not found.
    NotFound { id: String },
    /// The named rule's name is not between `min_length` and `max_length` characters.
    InvalidName { min_length: usize, max_length: usize },
    /// The named rule's description is not between `min_length` and `max_length` characters.
    InvalidDescription { min_length: usize, max_length: usize },
    /// The rule is invalid.
    InvalidRule { error: String },
    /// The rule is incompatible with a linked request policy.
    IncompatibleWithLinkedPolicy { policy_id: String, error: String },
    /// A named rule of that name already exists.
    AlreadyExists { name: String },
    /// The named rule is in use and cannot be removed.
    InUse,
    /// The named rule refers to itself through other rules.
    CircularReference,
    /// A named rule with that id already exists.
    IdAlreadyExists { id: String },
}

/// The details of a named rule error: its fields as key and value text, where it has any.
pub open spec fn spec_named_rule_details(e: NamedRuleError) -> Option<Seq<(Seq<char>, Seq<char>)>> {
    match e {
        NamedRuleError::NotFound { id } => Some(seq![("id"@, id@)]),
        NamedRuleError::InvalidName { min_length, max_length } => Some(
            seq![("min_length"@, spec_decimal(min_length as nat)), ("max_length"@, spec_decimal(max_length as nat))],
        ),
        NamedRuleError::InvalidDescription { min_length, max_length } => Some(
            seq![("min_length"@, spec_decimal(min_length as nat)), ("max_length"@, spec_decimal(max_length as nat))],
        ),
        NamedRuleError::InvalidRule { error } => Some(seq![("error"@, error@)]),
        NamedRuleError::IncompatibleWithLinkedPolicy { policy_id, error } => Some(
            seq![("policy_id"@, policy_id@), ("error"@, error@)],
        ),
        NamedRuleError::AlreadyExists { name } => Some(seq![("name"@, name@)]),
        NamedRuleError::InUse => None,
        NamedRuleError::CircularReference => None,
        NamedRuleError::IdAlreadyExists { id } => Some(seq![("id"@, id@)]),
    }
}

impl NamedRuleError {
    /// The error's details: its fields as key and value text, or `None` where it has none.
    pub fn details(&self) -> (r: Option<Vec<(String, String)>>)
        ensures
            spec_details_view(r) == spec_named_rule_details(*self),
    {
        let mut details: Vec<(String, String)> = Vec::new();
        match self {
            NamedRuleError::NotFound { id } => {
                details.push(entry("id", id.clone()));
            },
            NamedRuleError::InvalidName { min_length, max_length } => {
                details.push(entry("min_length", usize_to_decimal(*min_length)));
                details.push(entry("max_length", usize_to_decimal(*max_length)));
            },
            NamedRuleError::InvalidDescription { min_length, max_length } => {
                details.push(entry("min_length", usize_to_decimal(*min_length)));
                details.push(entry("max_length", usize_to_decimal(*max_length)));
            },
            NamedRuleError::InvalidRule { error } => {
                details.push(entry("error", error.clone()));
            },
            NamedRuleError::IncompatibleWithLinkedPolicy { policy_id, error } => {
                details.push(entry("policy_id", policy_id.clone()));
                details.push(entry("error", error.clone()));
            },
            NamedRuleError::AlreadyExists { name } => {
                details.push(entry("name", name.clone()));
            },
            NamedRuleError::InUse => {
                return None;
            },
            NamedRuleError::CircularReference => {
                return None;
            },
            NamedRuleError::IdAlreadyExists { id } => {
                details.push(entry("id", id.clone()));
            },
        }
        let r = Some(details);
        assert(spec_details_view(r) =~= spec_named_rule_details(*self));
        r
    }
}

/// Errors about request policies.
#[derive(Clone, Debug, PartialEq, Eq)]
pub enum RequestPolicyError {
    /// The request policy has failed validation.
    ValidationError { info: String },
    /// A request policy with that id already exists.
    IdAlreadyExists { id: String },
    /// The rule `invalid_rule` is invalid for the policy with `specifier` and `policy_rule`.
    InvalidRuleForSpecifier { invalid_rule: String, specifier: String, policy_rule: String },
}

/// The details of a request policy error: its fields as key and value text.
pub open spec fn spec_request_policy_details(e: RequestPolicyError) -> Option<Seq<(Seq<char>, Seq<char>)>> {
    match e {
        RequestPolicyError::ValidationError { info } => Some(seq![("info"@, info@)]),
        RequestPolicyError::IdAlreadyExists { id } => Some(seq![("id"@, id@)]),
        RequestPolicyError::InvalidRuleForSpecifier { invalid_rule, specifier, policy_rule } => Some(
            seq![("invalid_rule"@, invalid_rule@), ("specifier"@, specifier@), ("rule"@, policy_rule@)],
        ),
    }
}

impl RequestPolicyError {
    /// The error's details: its fields as key and value text.
    pub fn details(&self) -> (r: Option<Vec<(String, String)>>)
        ensures
            spec_details_view(r) == spec_request_policy_details(*self),
    {
        let mut details: Vec<(String, String)> = Vec::new();
        match self {
            RequestPolicyError::ValidationError { info } => {
                details.push(entry("info", info.clone()));
            },
            RequestPolicyError::IdAlreadyExists { id } => {
                details.push(entry("id", id.clone()));
            },
            RequestPolicyError::InvalidRuleForSpecifier { invalid_rule, specifier, policy_rule } => {
                details.push(entry("invalid_rule", invalid_rule.clone()));
                details.push(entry("specifier", specifier.clone()));
                details.push(entry("rule", policy_rule.clone()));
            },
        }
        let r = Some(details);
        assert(spec_details_view(r) =~= spec_request_policy_details(*self));
        r
    }
}

} // verus!
