//! Which parts of an assignment statement are analysed, and in what order.
//!
//! The analysis of expressions is done elsewhere; what is decided here is
//! only which expressions of an assignment it is run on.

use vstd::prelude::*;

verus! {

/// The shape of the expression that an assignment writes to.
#[derive(Clone, Copy, Debug, PartialEq, Eq, Hash, Structural)]
pub enum Target {
    /// A bare name: `foo = 42`
    Name,
    /// An indexed value: `foo[42] = "bar"`, `self.foo[42] = "bar"`
    Subscript,
    /// Anything else.
    Other,
}

/// One expression of an assignment that is to be analysed.
#[derive(Clone, Copy, Debug, PartialEq, Eq, Hash, Structural)]
pub enum Visit {
    /// The whole target.
    Target,
    /// The value that a subscript target indexes into.
    Subscripted,
    /// The value that is assigned.
    Value,
    /// The index of a subscript target.
    Index,
}

/// Why an assignment is rejected.
#[derive(Clone, Copy, Debug, PartialEq, Eq, Hash, Structural)]
pub enum SemanticError {
    /// The target is neither a name nor a subscript.
    UnassignableExpression,
}

/// The expressions that are analysed for an assignment to a name.
pub open spec fn spec_assign_name() -> Seq<Visit> {
    seq![Visit::Target, Visit::Value]
}

/// The expressions that are analysed for an assignment to a subscript.
pub open spec fn spec_assign_subscript() -> Seq<Visit> {
    seq![Visit::Subscripted, Visit::Value, Visit::Index]
}

/// The expressions that are analysed for an assignment with the given
/// targets, in order; or the reason why the assignment is rejected.
pub open spec fn spec_assign(targets: Seq<Target>) -> Result<Seq<Visit>, SemanticError> {
    if targets.len() == 0 {
        Ok(Seq::empty())
    } else {
        match targets[0] {
            Target::Name => Ok(spec_assign_name()),
            Target::Subscript => Ok(spec_assign_subscript()),
            Target::Other => Err(SemanticError::UnassignableExpression),
        }
    }
}

/// Plans the analysis of a subscript assignment, e.g. `foo[42] = "bar"`.
fn assign_subscript() -> (visits: Vec<Visit>)
    ensures
        visits@ == spec_assign_subscript(),
{
    let mut visits: Vec<Visit> = Vec::new();
    visits.push(Visit::Subscripted);
    visits.push(Visit::Value);
    visits.push(Visit::Index);
    assert(visits@ =~= spec_assign_subscript());
    visits
}

/// Plans the analysis of a named assignment, e.g. `foo = 42`.
fn assign_name() -> (visits: Vec<Visit>)
    ensures
        visits@ == spec_assign_name(),
{
    let mut visits: Vec<Visit> = Vec::new();
    visits.push(Visit::Target);
    visits.push(Visit::Value);
    assert(visits@ =~= spec_assign_name());
    visits
}

/// Plans the analysis of an assignment. Assignments to several targets at
/// once are not supported.
pub fn assign(targets: &Vec<Target>) -> (result: Result<Vec<Visit>, SemanticError>)
    requires
        targets@.len() <= 1,
    ensures
        match result {
            Ok(visits) => spec_assign(targets@) == Ok::<Seq<Visit>, SemanticError>(visits@),
            Err(error) => spec_assign(targets@) == Err::<Seq<Visit>, SemanticError>(error),
        },
{
    if targets.len() == 0 {
        return Ok(Vec::new());
    }
    match targets[0] {
        Target::Name => Ok(assign_name()),
        Target::Subscript => Ok(assign_subscript()),
        Target::Other => Err(SemanticError::UnassignableExpression),
    }
}

} // verus!
