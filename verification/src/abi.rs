//! Call dispatch: canonical signatures, selectors, argument decoding and the
//! selector switch itself.

use crate::digest::{hex_encode, hex_lower, keccak256, keccak256_digest};
use crate::errors::CompileError;
use crate::ir::{
    cases_view, expressions_view, statements_view, Case, CaseModel, Expression, ExpressionModel,
    Literal, Statement, StatementModel, SwitchModel,
};
use crate::scopes::{ContractDef, ContractDefs};
use crate::text::{decimal, decimal_string};
use crate::types::{Array, Base, FixedSize};
use vstd::hash_map::StringHashMap;
use vstd::prelude::*;
use vstd::slice::slice_subrange;
use vstd::string::*;
use vstd::utf8::encode_utf8;

verus! {

/// The textual name of a scalar type.
pub open spec fn spec_abi_type_base(typ: Base) -> Seq<char> {
    match typ {
        Base::U256 => "uint256"@,
        Base::Address => "address"@,
        Base::Byte => "byte"@,
    }
}

/// The textual name of a fixed-size type. An array of `n` bytes is written
/// `bytes<n>`, any other array `<scalar>[<n>]`.
pub open spec fn spec_abi_type(typ: FixedSize) -> Seq<char> {
    match typ {
        FixedSize::Base(base) => spec_abi_type_base(base),
        FixedSize::Array(array) => if array.inner == Base::Byte {
            "bytes"@ + decimal(array.dimension as nat)
        } else {
            spec_abi_type_base(array.inner) + "["@ + decimal(array.dimension as nat) + "]"@
        },
    }
}

/// The type names of a parameter list, separated by commas.
pub open spec fn parameter_list(params: Seq<FixedSize>) -> Seq<char>
    decreases params.len(),
{
    if params.len() == 0 {
        Seq::empty()
    } else if params.len() == 1 {
        spec_abi_type(params[0])
    } else {
        parameter_list(params.drop_last()) + ","@ + spec_abi_type(params.last())
    }
}

/// The canonical signature `name(type1,type2,...)`. The return type takes no
/// part in it.
pub open spec fn signature(name: Seq<char>, params: Seq<FixedSize>) -> Seq<char> {
    name + "("@ + parameter_list(params) + ")"@
}

/// The selector of a digest: its first four bytes.
pub open spec fn selector_of_digest(digest: Seq<u8>) -> Seq<u8> {
    digest.subrange(0, 4)
}

/// The literal that stands for a selector: `0x` and eight hexadecimal digits.
pub open spec fn selector_text(selector: Seq<u8>) -> Seq<char> {
    "0x"@ + hex_lower(selector)
}

/// The four selector bytes of a function: the head of the Keccak-256 digest
/// of its canonical signature in UTF-8.
pub open spec fn spec_selector(name: Seq<char>, params: Seq<FixedSize>) -> Seq<u8> {
    selector_of_digest(keccak256(encode_utf8(signature(name, params))))
}

/// The selector literal of a function, from its name and parameter types.
pub open spec fn spec_selector_literal(name: Seq<char>, params: Seq<FixedSize>) -> Seq<char> {
    selector_text(spec_selector(name, params))
}

/// Renders the textual name of a scalar type.
pub fn abi_type_base(typ: Base) -> (name: String)
    ensures
        name@ == spec_abi_type_base(typ),
{
    match typ {
        Base::U256 => String::from_str("uint256"),
        Base::Address => String::from_str("address"),
        Base::Byte => String::from_str("byte"),
    }
}

/// Renders the textual name of a fixed-size type, as it stands in a
/// canonical signature.
pub fn abi_type(typ: FixedSize) -> (name: String)
    ensures
        name@ == spec_abi_type(typ),
{
    match typ {
        FixedSize::Base(base) => abi_type_base(base),
        FixedSize::Array(Array { dimension, inner }) => {
            let digits = decimal_string(dimension);
            if inner == Base::Byte {
                let mut name = String::from_str("bytes");
                name.append(digits.as_str());
                name
            } else {
                let mut name = abi_type_base(inner);
                name.append("[");
                name.append(digits.as_str());
                name.append("]");
                name
            }
        },
    }
}

/// Renders the canonical signature of a function.
pub fn canonical_signature(name: &str, params: &Vec<FixedSize>) -> (text: String)
    ensures
        text@ == signature(name@, params@),
{
    let mut text = String::from_str(name);
    text.append("(");
    let mut i: usize = 0;
    while i < params.len()
        invariant
            i <= params.len(),
            text@ == name@ + "("@ + parameter_list(params@.take(i as int)),
        decreases params.len() - i,
    {
        if i > 0 {
            text.append(",");
        }
        let rendered = abi_type(params[i]);
        text.append(rendered.as_str());
        proof {
            let next = params@.take(i + 1);
            assert(next.drop_last() =~= params@.take(i as int));
            assert(next.last() == params@[i as int]);
            assert(text@ =~= name@ + "("@ + parameter_list(next));
        }
        i += 1;
    }
    assert(params@.take(i as int) =~= params@);
    text.append(")");
    text
}

/// Renders the selector literal that belongs to a 32-byte digest. The
/// literal is always ten characters long.
pub fn selector_from_digest(digest: &[u8; 32]) -> (selector: Literal)
    ensures
        selector@ == selector_text(selector_of_digest(digest@)),
        selector@.len() == 10,
{
    let prefix = slice_subrange(digest.as_slice(), 0, 4);
    let digits = hex_encode(prefix);
    let mut literal = String::from_str("0x");
    literal.append(digits.as_str());
    proof {
        reveal_strlit("0x");
    }
    Literal { literal }
}

/// Computes the selector of a function: the first four bytes of the
/// Keccak-256 digest of its canonical signature, as a hexadecimal literal.
pub fn selector_literal(name: String, params: &Vec<FixedSize>) -> (selector: Literal)
    ensures
        selector@ == spec_selector_literal(name@, params@),
        selector@.len() == 10,
{
    let text = canonical_signature(name.as_str(), params);
    let digest = keccak256_digest(text.as_str().as_bytes());
    selector_from_digest(&digest)
}

/// The width in bytes of a whole parameter list.
pub open spec fn total_size(params: Seq<FixedSize>) -> nat
    decreases params.len(),
{
    if params.len() == 0 {
        0
    } else {
        total_size(params.drop_last()) + params.last().spec_size()
    }
}

/// The call-data offset at which parameter `i` begins: the selector takes
/// the first four bytes, and the parameters follow without gaps.
pub open spec fn parameter_offset(params: Seq<FixedSize>, i: int) -> nat {
    4 + total_size(params.take(i))
}

/// A parameter list fits when the offset just past its last parameter can
/// be held in a machine word.
pub open spec fn layout_fits(params: Seq<FixedSize>) -> bool {
    4 + total_size(params) <= usize::MAX
}

/// The literal expression that holds the decimal numeral of `n`.
pub open spec fn number_literal(n: nat) -> ExpressionModel {
    ExpressionModel::Literal(decimal(n))
}

/// The expression that loads one parameter from call data. A scalar is read
/// as a word; an array is copied to memory, and the expression yields the
/// pointer to the copy.
pub open spec fn accessor(param: FixedSize, offset: nat) -> ExpressionModel {
    ExpressionModel::FunctionCall {
        name: match param {
            FixedSize::Base(_) => "callval"@,
            FixedSize::Array(_) => "calltomem"@,
        },
        arguments: seq![number_literal(offset), number_literal(param.spec_size())],
    }
}

/// The loading expressions of a parameter list, in declaration order.
pub open spec fn spec_parameter_expressions(params: Seq<FixedSize>) -> Seq<ExpressionModel> {
    Seq::new(params.len(), |i: int| accessor(params[i], parameter_offset(params, i)))
}

/// One more parameter adds its own width to the total.
pub proof fn lemma_total_size_step(params: Seq<FixedSize>, i: int)
    requires
        0 <= i < params.len(),
    ensures
        total_size(params.take(i + 1)) == total_size(params.take(i)) + params[i].spec_size(),
{
    let next = params.take(i + 1);
    assert(next.drop_last() =~= params.take(i));
    assert(next.last() == params[i]);
}

/// No prefix of a parameter list is wider than the whole list.
pub proof fn lemma_total_size_prefix(params: Seq<FixedSize>, i: int)
    requires
        0 <= i <= params.len(),
    ensures
        total_size(params.take(i)) <= total_size(params),
    decreases params.len() - i,
{
    if i == params.len() {
        assert(params.take(i) =~= params);
    } else {
        lemma_total_size_step(params, i);
        lemma_total_size_prefix(params, i + 1);
    }
}

/// Creates the expressions that load each parameter from call data.
pub fn parameter_expressions(params: &Vec<FixedSize>) -> (expressions: Vec<Expression>)
    requires
        layout_fits(params@),
    ensures
        expressions@.len() == params@.len(),
        expressions_view(expressions@) == spec_parameter_expressions(params@),
{
    let mut ptr: usize = 4;
    let mut expressions: Vec<Expression> = Vec::new();
    let mut i: usize = 0;
    assert(params@.take(0) =~= Seq::<FixedSize>::empty());
    while i < params.len()
        invariant
            i <= params.len(),
            layout_fits(params@),
            ptr == parameter_offset(params@, i as int),
            expressions@.len() == i,
            forall|k: int|
                0 <= k < i ==> (#[trigger] expressions@[k])@ == accessor(
                    params@[k],
                    parameter_offset(params@, k),
                ),
        decreases params.len() - i,
    {
        let param = params[i];
        proof {
            lemma_total_size_step(params@, i as int);
            lemma_total_size_prefix(params@, i + 1);
        }
        let size = param.size();
        let mut arguments: Vec<Expression> = Vec::new();
        arguments.push(Expression::literal(decimal_string(ptr)));
        arguments.push(Expression::literal(decimal_string(size)));
        assert(expressions_view(arguments@) =~= seq![
            number_literal(ptr as nat),
            number_literal(size as nat),
        ]);
        let loader = match param {
            FixedSize::Base(_) => Expression::call(String::from_str("callval"), arguments),
            FixedSize::Array(_) => Expression::call(String::from_str("calltomem"), arguments),
        };
        assert(loader@ == accessor(param, ptr as nat));
        expressions.push(loader);
        ptr += size;
        i += 1;
    }
    assert(expressions_view(expressions@) =~= spec_parameter_expressions(params@));
    expressions
}

/// The invocation of a function's routine on its decoded arguments.
pub open spec fn invocation(name: Seq<char>, params: Seq<FixedSize>) -> ExpressionModel {
    ExpressionModel::FunctionCall { name, arguments: spec_parameter_expressions(params) }
}

/// `return(from, size)` as a statement: hands `size` bytes of memory
/// starting at `from` back to the caller.
pub open spec fn return_statement(from: ExpressionModel, size: nat) -> StatementModel {
    StatementModel::Expression(
        ExpressionModel::FunctionCall {
            name: "return"@,
            arguments: seq![from, number_literal(size)],
        },
    )
}

/// `let name := value`
pub open spec fn declaration(name: Seq<char>, value: ExpressionModel) -> StatementModel {
    StatementModel::VariableDeclaration { names: seq![name], value: Some(value) }
}

/// What a dispatch case does once its selector has matched.
///
/// - Without a return type the routine is invoked and nothing is returned.
/// - An array result is already in memory: the routine yields a pointer,
///   and the region behind it is returned.
/// - A scalar result is stored at address zero and returned from there.
pub open spec fn case_body(
    name: Seq<char>,
    params: Seq<FixedSize>,
    return_type: Option<FixedSize>,
) -> Seq<StatementModel> {
    match return_type {
        None => seq![StatementModel::Expression(invocation(name, params))],
        Some(FixedSize::Array(array)) => seq![
            declaration("return_ptr"@, invocation(name, params)),
            return_statement(ExpressionModel::Identifier("return_ptr"@), array.spec_size()),
        ],
        Some(FixedSize::Base(base)) => seq![
            declaration("return_val"@, invocation(name, params)),
            StatementModel::Expression(
                ExpressionModel::FunctionCall {
                    name: "mstore"@,
                    arguments: seq![number_literal(0), ExpressionModel::Identifier("return_val"@)],
                },
            ),
            return_statement(number_literal(0), base.spec_size()),
        ],
    }
}

/// The dispatch case of a function: keyed by its selector, with the body
/// that [`case_body`] describes.
pub open spec fn spec_function_call_case(
    name: Seq<char>,
    params: Seq<FixedSize>,
    return_type: Option<FixedSize>,
) -> CaseModel {
    CaseModel {
        literal: Some(spec_selector_literal(name, params)),
        body: case_body(name, params, return_type),
    }
}

/// `return(from, size)` as a statement.
fn return_from(from: Expression, size: usize) -> (s: Statement)
    ensures
        s@ == return_statement(from@, size as nat),
{
    let mut arguments: Vec<Expression> = Vec::new();
    arguments.push(from);
    arguments.push(Expression::literal(decimal_string(size)));
    assert(expressions_view(arguments@) =~= seq![from@, number_literal(size as nat)]);
    Statement::expression(Expression::call(String::from_str("return"), arguments))
}

/// Builds the dispatch case of a function. It matches the selector, loads
/// the arguments from call data and invokes the function's routine. The
/// value that the routine yields, if any, is handed back to the caller.
pub fn function_call_case(
    name: String,
    params: &Vec<FixedSize>,
    return_type: Option<FixedSize>,
) -> (case: Case)
    requires
        layout_fits(params@),
        return_type matches Some(t) ==> t.spec_size() <= usize::MAX,
    ensures
        case@ == spec_function_call_case(name@, params@, return_type),
{
    let selector = selector_literal(name.clone(), params);
    let arguments = parameter_expressions(params);
    let invoke = Expression::call(name, arguments);
    let mut statements: Vec<Statement> = Vec::new();
    match return_type {
        Some(return_type) => {
            let return_size = return_type.size();
            match return_type {
                FixedSize::Array(_) => {
                    statements.push(Statement::declare(String::from_str("return_ptr"), invoke));
                    statements.push(
                        return_from(
                            Expression::identifier(String::from_str("return_ptr")),
                            return_size,
                        ),
                    );
                },
                FixedSize::Base(_) => {
                    let mut store: Vec<Expression> = Vec::new();
                    store.push(Expression::literal(decimal_string(0)));
                    store.push(Expression::identifier(String::from_str("return_val")));
                    assert(expressions_view(store@) =~= seq![
                        number_literal(0),
                        ExpressionModel::Identifier("return_val"@),
                    ]);
                    statements.push(Statement::declare(String::from_str("return_val"), invoke));
                    statements.push(
                        Statement::expression(Expression::call(String::from_str("mstore"), store)),
                    );
                    statements.push(
                        return_from(Expression::literal(decimal_string(0)), return_size),
                    );
                },
            }
        },
        None => {
            statements.push(Statement::expression(invoke));
        },
    }
    assert(statements_view(statements@) =~= case_body(name@, params@, return_type));
    Case::matching(selector, statements)
}

/// A function can be dispatched on when each of its types is well formed
/// and its parameters fit.
pub open spec fn signature_supported(params: Seq<FixedSize>, return_type: Option<FixedSize>) -> bool {
    &&& forall|i: int| 0 <= i < params.len() ==> (#[trigger] params[i]).well_formed()
    &&& (return_type matches Some(t) ==> t.well_formed())
    &&& layout_fits(params)
}

/// Lays the parameters out in call data and yields the offset just past the
/// last of them, or `None` where the parameters do not fit.
pub fn checked_layout(params: &Vec<FixedSize>) -> (end: Option<usize>)
    ensures
        match end {
            Some(end) => end == 4 + total_size(params@),
            None => !layout_fits(params@),
        },
{
    let mut end: usize = 4;
    let mut i: usize = 0;
    assert(params@.take(0) =~= Seq::<FixedSize>::empty());
    while i < params.len()
        invariant
            i <= params.len(),
            end == parameter_offset(params@, i as int),
        decreases params.len() - i,
    {
        proof {
            lemma_total_size_step(params@, i as int);
            lemma_total_size_prefix(params@, i + 1);
        }
        let next = match params[i].checked_size() {
            Some(size) => end.checked_add(size),
            None => None,
        };
        match next {
            Some(next) => {
                end = next;
            },
            None => {
                return None;
            },
        }
        i += 1;
    }
    assert(params@.take(i as int) =~= params@);
    Some(end)
}

/// Tells whether a function can be dispatched on.
pub fn is_signature_supported(
    params: &Vec<FixedSize>,
    return_type: &Option<FixedSize>,
) -> (ok: bool)
    ensures
        ok == signature_supported(params@, *return_type),
{
    if let Some(t) = return_type {
        if !t.is_well_formed() {
            return false;
        }
    }
    let mut i: usize = 0;
    while i < params.len()
        invariant
            i <= params.len(),
            forall|k: int| 0 <= k < i ==> (#[trigger] params@[k]).well_formed(),
        decreases params.len() - i,
    {
        if !params[i].is_well_formed() {
            return false;
        }
        i += 1;
    }
    checked_layout(params).is_some()
}

/// What [`case`] yields for an exposed name: the dispatch case of the
/// function of that name, or the reason why there is none.
pub open spec fn spec_case(name: Seq<char>, defs: Map<Seq<char>, ContractDef>) -> Result<
    CaseModel,
    CompileError,
> {
    if !defs.contains_key(name) {
        Err(CompileError::UnresolvedFunctionName)
    } else {
        match defs[name] {
            ContractDef::Function { params, return_type } => if signature_supported(
                params@,
                return_type,
            ) {
                Ok(spec_function_call_case(name, params@, return_type))
            } else {
                Err(CompileError::UnsupportedType)
            },
            _ => Err(CompileError::NonCallableDefinitionUsed),
        }
    }
}

/// Builds the dispatch case of the function called `name`.
pub fn case(name: String, defs: &ContractDefs) -> (result: Result<Case, CompileError>)
    ensures
        match result {
            Ok(case) => spec_case(name@, defs@) == Ok::<CaseModel, CompileError>(case@),
            Err(error) => spec_case(name@, defs@) == Err::<CaseModel, CompileError>(error),
        },
{
    match defs.get(name.as_str()) {
        Some(def) => match def {
            ContractDef::Function { params, return_type } => {
                if is_signature_supported(params, return_type) {
                    Ok(function_call_case(name, params, *return_type))
                } else {
                    Err(CompileError::UnsupportedType)
                }
            },
            _ => Err(CompileError::NonCallableDefinitionUsed),
        },
        None => Err(CompileError::UnresolvedFunctionName),
    }
}

/// The names of an interface, as texts.
pub open spec fn names_view(interface: Seq<String>) -> Seq<Seq<char>> {
    Seq::new(interface.len(), |i: int| interface[i]@)
}

/// The dispatch cases of an interface, in its order; or, where a name has
/// no case, the error of the first such name.
pub open spec fn spec_cases(names: Seq<Seq<char>>, defs: Map<Seq<char>, ContractDef>) -> Result<
    Seq<CaseModel>,
    CompileError,
>
    decreases names.len(),
{
    if names.len() == 0 {
        Ok(Seq::empty())
    } else {
        match spec_cases(names.drop_last(), defs) {
            Err(error) => Err(error),
            Ok(cases) => match spec_case(names.last(), defs) {
                Err(error) => Err(error),
                Ok(case) => Ok(cases.push(case)),
            },
        }
    }
}

/// Two cases at different places are keyed by the same literal.
pub open spec fn has_duplicate_selector(cases: Seq<CaseModel>) -> bool {
    exists|i: int, j: int|
        0 <= i < j < cases.len() && (#[trigger] cases[i]).literal == (#[trigger] cases[j]).literal
}

/// What the dispatcher branches on: the first four bytes of call data.
pub open spec fn call_selector() -> ExpressionModel {
    ExpressionModel::FunctionCall {
        name: "callval"@,
        arguments: seq![number_literal(0), number_literal(4)],
    }
}

/// What [`switch`] yields for an interface: the selector switch with one
/// case per exposed name, in the interface's order; or the first error
/// among the cases; or, where all cases exist and two of them share a
/// selector, `DuplicateSelector`.
pub open spec fn spec_switch(names: Seq<Seq<char>>, defs: Map<Seq<char>, ContractDef>) -> Result<
    StatementModel,
    CompileError,
> {
    match spec_cases(names, defs) {
        Err(error) => Err(error),
        Ok(cases) => if has_duplicate_selector(cases) {
            Err(CompileError::DuplicateSelector)
        } else {
            Ok(StatementModel::Switch(SwitchModel { scrutinee: call_selector(), cases }))
        },
    }
}

/// An error among the first names of an interface is the error of the whole.
pub proof fn lemma_cases_error_persists(
    names: Seq<Seq<char>>,
    defs: Map<Seq<char>, ContractDef>,
    n: int,
)
    requires
        0 <= n <= names.len(),
        spec_cases(names.take(n), defs) is Err,
    ensures
        spec_cases(names, defs) == spec_cases(names.take(n), defs),
    decreases names.len() - n,
{
    if n == names.len() {
        assert(names.take(n) =~= names);
    } else {
        assert(names.take(n + 1).drop_last() =~= names.take(n));
        lemma_cases_error_persists(names, defs, n + 1);
    }
}

/// Tells whether two of the cases are keyed by the same literal.
fn selectors_collide(cases: &Vec<Case>) -> (found: bool)
    requires
        forall|k: int| 0 <= k < cases@.len() ==> (#[trigger] cases@[k]).literal is Some,
    ensures
        found == has_duplicate_selector(cases_view(cases@)),
{
    let ghost models = cases_view(cases@);
    let mut seen: StringHashMap<bool> = StringHashMap::new();
    let mut i: usize = 0;
    while i < cases.len()
        invariant
            i <= cases.len(),
            models == cases_view(cases@),
            forall|k: int| 0 <= k < cases@.len() ==> (#[trigger] cases@[k]).literal is Some,
            forall|k: int|
                0 <= k < i ==> seen@.contains_key((#[trigger] models[k]).literal->0),
            forall|key: Seq<char>| #[trigger]
                seen@.contains_key(key) ==> exists|k: int|
                    0 <= k < i && (#[trigger] models[k]).literal == Some(key),
            forall|a: int, b: int|
                0 <= a < b < i ==> (#[trigger] models[a]).literal != (#[trigger] models[b]).literal,
        decreases cases.len() - i,
    {
        match &cases[i].literal {
            Some(literal) => {
                assert(models[i as int].literal == Some(literal@));
                if seen.contains_key(literal.literal.as_str()) {
                    let ghost k = choose|k: int|
                        0 <= k < i && (#[trigger] models[k]).literal == Some(literal@);
                    assert(models[k].literal == models[i as int].literal);
                    return true;
                }
                seen.insert(literal.literal.clone(), true);
            },
            None => {},
        }
        i += 1;
    }
    false
}

/// Builds the dispatcher of a contract. It branches on the four left-most
/// bytes of call data, with one case for each function of the interface,
/// keyed by the function's selector.
pub fn switch(interface: &Vec<String>, defs: &ContractDefs) -> (result: Result<
    Statement,
    CompileError,
>)
    ensures
        match result {
            Ok(statement) => spec_switch(names_view(interface@), defs@) == Ok::<
                StatementModel,
                CompileError,
            >(statement@),
            Err(error) => spec_switch(names_view(interface@), defs@) == Err::<
                StatementModel,
                CompileError,
            >(error),
        },
{
    let ghost names = names_view(interface@);
    let mut cases: Vec<Case> = Vec::new();
    let mut i: usize = 0;
    assert(names.take(0) =~= Seq::<Seq<char>>::empty());
    assert(cases_view(cases@) =~= Seq::<CaseModel>::empty());
    while i < interface.len()
        invariant
            i <= interface.len(),
            names == names_view(interface@),
            cases@.len() == i,
            spec_cases(names.take(i as int), defs@) == Ok::<Seq<CaseModel>, CompileError>(
                cases_view(cases@),
            ),
            forall|k: int| 0 <= k < i ==> (#[trigger] cases@[k]).literal is Some,
        decreases interface.len() - i,
    {
        let ghost before = cases_view(cases@);
        proof {
            assert(names.take(i + 1).drop_last() =~= names.take(i as int));
            assert(names.take(i + 1).last() == interface@[i as int]@);
        }
        match case(interface[i].clone(), defs) {
            Ok(built) => {
                cases.push(built);
                assert(cases_view(cases@) =~= before.push(built@));
            },
            Err(error) => {
                proof {
                    lemma_cases_error_persists(names, defs@, i + 1);
                }
                return Err(error);
            },
        }
        i += 1;
    }
    assert(names.take(i as int) =~= names);
    if selectors_collide(&cases) {
        return Err(CompileError::DuplicateSelector);
    }
    let mut bounds: Vec<Expression> = Vec::new();
    bounds.push(Expression::literal(decimal_string(0)));
    bounds.push(Expression::literal(decimal_string(4)));
    assert(expressions_view(bounds@) =~= seq![number_literal(0), number_literal(4)]);
    let scrutinee = Expression::call(String::from_str("callval"), bounds);
    Ok(Statement::switch(scrutinee, cases))
}

} // verus!
