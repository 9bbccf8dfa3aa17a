//! Facts about the dispatcher, proved from its model.

use crate::abi::{
    accessor, call_selector, case_body, declaration, has_duplicate_selector, invocation,
    lemma_cases_error_persists, lemma_total_size_step, number_literal, parameter_offset,
    return_statement, selector_text, spec_case, spec_cases, spec_function_call_case,
    spec_parameter_expressions, spec_selector, spec_selector_literal, spec_switch,
};
use crate::digest::{hex_lower, lemma_hex_lower_injective};
use crate::errors::CompileError;
use crate::ir::{CaseModel, ExpressionModel, StatementModel};
use crate::scopes::ContractDef;
use crate::types::{Base, FixedSize};
use vstd::prelude::*;

verus! {

/// A statement that hands memory back to the caller: a call of `return`.
pub open spec fn is_return(statement: StatementModel) -> bool {
    statement matches StatementModel::Expression(ExpressionModel::FunctionCall { name, .. })
        && name == "return"@
}

/// The selector is a function of the name and the parameter types alone:
/// computing it again gives the same literal, and the return type takes no
/// part in it.
pub proof fn lemma_selector_deterministic(
    name: Seq<char>,
    params: Seq<FixedSize>,
    again_name: Seq<char>,
    again_params: Seq<FixedSize>,
    return_type: Option<FixedSize>,
    other_return_type: Option<FixedSize>,
)
    requires
        name =~= again_name,
        params =~= again_params,
    ensures
        spec_selector_literal(name, params) == spec_selector_literal(again_name, again_params),
        spec_function_call_case(name, params, return_type).literal == spec_function_call_case(
            again_name,
            again_params,
            other_return_type,
        ).literal,
{
}

/// The first parameter is read at offset 4, and every further one exactly
/// where the one before it ends. Expression `i` reads at the offset of
/// parameter `i` and as many bytes as the parameter is wide. A well-formed
/// parameter is at least one byte wide, so the offsets strictly increase.
pub proof fn lemma_offsets_advance(params: Seq<FixedSize>, i: int)
    requires
        0 <= i < params.len(),
    ensures
        parameter_offset(params, 0) == 4,
        parameter_offset(params, i + 1) == parameter_offset(params, i) + params[i].spec_size(),
        params[i].well_formed() ==> parameter_offset(params, i) < parameter_offset(params, i + 1),
        spec_parameter_expressions(params)[i] == accessor(params[i], parameter_offset(params, i)),
        spec_parameter_expressions(params)[i]->arguments == seq![
            number_literal(parameter_offset(params, i)),
            number_literal(params[i].spec_size()),
        ],
{
    assert(params.take(0) =~= Seq::<FixedSize>::empty());
    lemma_total_size_step(params, i);
    if params[i].well_formed() {
        match params[i] {
            FixedSize::Base(base) => {},
            FixedSize::Array(array) => {
                assert(array.inner.spec_size() >= 1);
                assert(array.dimension as nat * array.inner.spec_size() >= 1) by (nonlinear_arith)
                    requires
                        array.dimension >= 1,
                        array.inner.spec_size() >= 1,
                ;
            },
        }
    }
}

/// The case of a function without a return type invokes the routine and
/// does nothing else; unless the routine itself is called `return`, no
/// statement of it hands anything back to the caller.
pub proof fn lemma_no_return_type_returns_nothing(name: Seq<char>, params: Seq<FixedSize>)
    ensures
        case_body(name, params, None) == seq![
            StatementModel::Expression(invocation(name, params)),
        ],
        name != "return"@ ==> forall|k: int|
            0 <= k < case_body(name, params, None).len() ==> !is_return(
                #[trigger] case_body(name, params, None)[k],
            ),
{
}

/// The case of a function that returns a scalar binds the result, stores
/// it at address zero and returns from there exactly as many bytes as the
/// scalar is wide: 32 for an integer or an address, 1 for a byte.
pub proof fn lemma_scalar_return(name: Seq<char>, params: Seq<FixedSize>, base: Base)
    ensures
        case_body(name, params, Some(FixedSize::Base(base))).len() == 3,
        case_body(name, params, Some(FixedSize::Base(base)))[0] == declaration(
            "return_val"@,
            invocation(name, params),
        ),
        case_body(name, params, Some(FixedSize::Base(base)))[1] == StatementModel::Expression(
            ExpressionModel::FunctionCall {
                name: "mstore"@,
                arguments: seq![number_literal(0), ExpressionModel::Identifier("return_val"@)],
            },
        ),
        case_body(name, params, Some(FixedSize::Base(base)))[2] == return_statement(
            number_literal(0),
            base.spec_size(),
        ),
        is_return(case_body(name, params, Some(FixedSize::Base(base)))[2]),
        base.spec_size() == (if base == Base::Byte {
            1nat
        } else {
            32nat
        }),
{
}

/// Where every name of an interface has a case, the cases stand in the
/// interface's order, one for each name.
pub proof fn lemma_cases_of_sound_interface(
    names: Seq<Seq<char>>,
    defs: Map<Seq<char>, ContractDef>,
)
    requires
        forall|k: int| 0 <= k < names.len() ==> spec_case(#[trigger] names[k], defs) is Ok,
    ensures
        spec_cases(names, defs) is Ok,
        spec_cases(names, defs)->Ok_0.len() == names.len(),
        forall|k: int|
            0 <= k < names.len() ==> Ok::<CaseModel, CompileError>(
                #[trigger] spec_cases(names, defs)->Ok_0[k],
            ) == spec_case(names[k], defs),
    decreases names.len(),
{
    if names.len() > 0 {
        lemma_cases_of_sound_interface(names.drop_last(), defs);
        assert(spec_case(names.last(), defs) is Ok);
    }
}

/// Building stops at the first name that has no case, with its error.
pub proof fn lemma_first_error(names: Seq<Seq<char>>, defs: Map<Seq<char>, ContractDef>, i: int)
    requires
        0 <= i < names.len(),
        spec_case(names[i], defs) is Err,
        forall|k: int| 0 <= k < i ==> spec_case(#[trigger] names[k], defs) is Ok,
    ensures
        spec_switch(names, defs) == Err::<StatementModel, CompileError>(
            spec_case(names[i], defs)->Err_0,
        ),
{
    let before = names.take(i);
    assert forall|k: int| 0 <= k < before.len() implies spec_case(
        #[trigger] before[k],
        defs,
    ) is Ok by {
        assert(before[k] == names[k]);
    }
    lemma_cases_of_sound_interface(before, defs);
    assert(names.take(i + 1).drop_last() =~= before);
    assert(names.take(i + 1).last() == names[i]);
    lemma_cases_error_persists(names, defs, i + 1);
}

/// An interface that exposes a name without a definition is rejected with
/// `UnresolvedFunctionName`, unless an earlier name of it is rejected for
/// another reason first.
pub proof fn lemma_unknown_name_rejected(
    names: Seq<Seq<char>>,
    defs: Map<Seq<char>, ContractDef>,
    i: int,
)
    requires
        0 <= i < names.len(),
        !defs.contains_key(names[i]),
        forall|k: int|
            0 <= k < i ==> spec_case(#[trigger] names[k], defs) is Ok || spec_case(
                names[k],
                defs,
            ) == Err::<CaseModel, CompileError>(CompileError::UnresolvedFunctionName),
    ensures
        spec_switch(names, defs) == Err::<StatementModel, CompileError>(
            CompileError::UnresolvedFunctionName,
        ),
    decreases i,
{
    if forall|k: int| 0 <= k < i ==> spec_case(#[trigger] names[k], defs) is Ok {
        lemma_first_error(names, defs, i);
    } else {
        let k = choose|k: int| 0 <= k < i && !(spec_case(#[trigger] names[k], defs) is Ok);
        assert(!defs.contains_key(names[k]));
        lemma_unknown_name_rejected(names, defs, k);
    }
}

/// Where every name of an interface has a case and two of the functions
/// have the same four selector bytes, the interface is rejected with
/// `DuplicateSelector`.
pub proof fn lemma_collision_rejected(
    names: Seq<Seq<char>>,
    defs: Map<Seq<char>, ContractDef>,
    i: int,
    j: int,
)
    requires
        0 <= i < j < names.len(),
        forall|k: int| 0 <= k < names.len() ==> spec_case(#[trigger] names[k], defs) is Ok,
        spec_selector(names[i], defs[names[i]]->params@) == spec_selector(
            names[j],
            defs[names[j]]->params@,
        ),
    ensures
        spec_switch(names, defs) == Err::<StatementModel, CompileError>(
            CompileError::DuplicateSelector,
        ),
{
    lemma_cases_of_sound_interface(names, defs);
    let cases = spec_cases(names, defs)->Ok_0;
    assert(spec_case(names[i], defs) is Ok);
    assert(spec_case(names[j], defs) is Ok);
    assert(Ok::<CaseModel, CompileError>(cases[i]) == spec_case(names[i], defs));
    assert(Ok::<CaseModel, CompileError>(cases[j]) == spec_case(names[j], defs));
    assert(cases[i].literal == cases[j].literal);
    assert(has_duplicate_selector(cases));
}

/// Selectors with the same literal are the same bytes.
pub proof fn lemma_selector_text_injective(a: Seq<u8>, b: Seq<u8>)
    requires
        selector_text(a) == selector_text(b),
    ensures
        a == b,
{
    reveal_strlit("0x");
    assert(selector_text(a).skip(2) =~= hex_lower(a));
    assert(selector_text(b).skip(2) =~= hex_lower(b));
    lemma_hex_lower_injective(a, b);
}

/// Where every name of an interface has a case, the interface is rejected
/// exactly if two of its functions have the same four selector bytes, and
/// then with `DuplicateSelector`.
pub proof fn lemma_rejected_only_for_collision(
    names: Seq<Seq<char>>,
    defs: Map<Seq<char>, ContractDef>,
)
    requires
        forall|k: int| 0 <= k < names.len() ==> spec_case(#[trigger] names[k], defs) is Ok,
    ensures
        spec_switch(names, defs) is Err <==> exists|i: int, j: int|
            0 <= i < j < names.len() && #[trigger] spec_selector(
                names[i],
                defs[names[i]]->params@,
            ) == #[trigger] spec_selector(names[j], defs[names[j]]->params@),
        spec_switch(names, defs) is Err ==> spec_switch(names, defs) == Err::<
            StatementModel,
            CompileError,
        >(CompileError::DuplicateSelector),
{
    lemma_cases_of_sound_interface(names, defs);
    let cases = spec_cases(names, defs)->Ok_0;
    if spec_switch(names, defs) is Err {
        let (i, j) = choose|i: int, j: int|
            0 <= i < j < cases.len() && (#[trigger] cases[i]).literal == (
            #[trigger] cases[j]).literal;
        assert(Ok::<CaseModel, CompileError>(cases[i]) == spec_case(names[i], defs));
        assert(Ok::<CaseModel, CompileError>(cases[j]) == spec_case(names[j], defs));
        lemma_selector_text_injective(
            spec_selector(names[i], defs[names[i]]->params@),
            spec_selector(names[j], defs[names[j]]->params@),
        );
    }
    if exists|i: int, j: int|
        0 <= i < j < names.len() && #[trigger] spec_selector(names[i], defs[names[i]]->params@)
            == #[trigger] spec_selector(names[j], defs[names[j]]->params@) {
        let (i, j) = choose|i: int, j: int|
            0 <= i < j < names.len() && #[trigger] spec_selector(
                names[i],
                defs[names[i]]->params@,
            ) == #[trigger] spec_selector(names[j], defs[names[j]]->params@);
        lemma_collision_rejected(names, defs, i, j);
    }
}

/// Where an interface has cases at all, every name of it has one.
pub proof fn lemma_cases_need_every_name(names: Seq<Seq<char>>, defs: Map<Seq<char>, ContractDef>)
    requires
        spec_cases(names, defs) is Ok,
    ensures
        forall|k: int| 0 <= k < names.len() ==> spec_case(#[trigger] names[k], defs) is Ok,
    decreases names.len(),
{
    if names.len() > 0 {
        lemma_cases_need_every_name(names.drop_last(), defs);
        assert forall|k: int| 0 <= k < names.len() implies spec_case(
            #[trigger] names[k],
            defs,
        ) is Ok by {
            if k < names.len() - 1 {
                assert(names.drop_last()[k] == names[k]);
            }
        }
    }
}

/// The dispatcher that is built branches on the first four bytes of call
/// data and has exactly one case for each name of the interface, in the
/// interface's order, each keyed by a literal of its own.
pub proof fn lemma_switch_shape(names: Seq<Seq<char>>, defs: Map<Seq<char>, ContractDef>)
    requires
        spec_switch(names, defs) is Ok,
    ensures
        spec_switch(names, defs)->Ok_0 is Switch,
        spec_switch(names, defs)->Ok_0->Switch_0.scrutinee == call_selector(),
        spec_switch(names, defs)->Ok_0->Switch_0.cases.len() == names.len(),
        forall|k: int|
            0 <= k < names.len() ==> spec_case(names[k], defs) == Ok::<CaseModel, CompileError>(
                #[trigger] spec_switch(names, defs)->Ok_0->Switch_0.cases[k],
            ),
        forall|i: int, j: int|
            0 <= i < j < names.len() ==> (#[trigger] spec_switch(
                names,
                defs,
            )->Ok_0->Switch_0.cases[i]).literal != (#[trigger] spec_switch(
                names,
                defs,
            )->Ok_0->Switch_0.cases[j]).literal,
{
    lemma_cases_need_every_name(names, defs);
    lemma_cases_of_sound_interface(names, defs);
}

} // verus!
