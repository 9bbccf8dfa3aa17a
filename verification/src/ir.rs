//! The tree that the dispatcher is emitted as, and its mathematical model.

use vstd::prelude::*;

verus! {

/// A literal token, kept as the text that is emitted for it.
#[derive(Clone, Debug, PartialEq, Eq)]
pub struct Literal {
    pub literal: String,
}

/// The name of a variable or of a routine.
#[derive(Clone, Debug, PartialEq, Eq)]
pub struct Identifier {
    pub identifier: String,
}

/// An invocation of a routine with its arguments in evaluation order.
#[derive(Debug, PartialEq, Eq)]
pub struct FunctionCall {
    pub identifier: Identifier,
    pub arguments: Vec<Expression>,
}

/// Anything that yields a value.
#[derive(Debug, PartialEq, Eq)]
pub enum Expression {
    Literal(Literal),
    Identifier(Identifier),
    FunctionCall(FunctionCall),
}

/// `let a, b := e`
#[derive(Debug, PartialEq, Eq)]
pub struct VariableDeclaration {
    pub identifiers: Vec<Identifier>,
    pub expression: Option<Expression>,
}

/// Statements that run one after the other.
#[derive(Debug, PartialEq, Eq)]
pub struct Block {
    pub statements: Vec<Statement>,
}

/// One branch of a switch. A branch without a literal is the default branch.
#[derive(Debug, PartialEq, Eq)]
pub struct Case {
    pub literal: Option<Literal>,
    pub block: Block,
}

/// A multi-way branch: the case whose literal equals the value of the
/// expression is run.
#[derive(Debug, PartialEq, Eq)]
pub struct Switch {
    pub expression: Expression,
    pub cases: Vec<Case>,
}

/// One step of a block.
#[derive(Debug, PartialEq, Eq)]
pub enum Statement {
    VariableDeclaration(VariableDeclaration),
    Expression(Expression),
    Switch(Switch),
}

/// What an [`Expression`] stands for.
#[verifier::ext_equal]
pub enum ExpressionModel {
    Literal(Seq<char>),
    Identifier(Seq<char>),
    FunctionCall { name: Seq<char>, arguments: Seq<ExpressionModel> },
}

/// What a [`Statement`] stands for.
#[verifier::ext_equal]
pub enum StatementModel {
    VariableDeclaration { names: Seq<Seq<char>>, value: Option<ExpressionModel> },
    Expression(ExpressionModel),
    Switch(SwitchModel),
}

/// What a [`Case`] stands for.
#[verifier::ext_equal]
pub struct CaseModel {
    pub literal: Option<Seq<char>>,
    pub body: Seq<StatementModel>,
}

/// What a [`Switch`] stands for.
#[verifier::ext_equal]
pub struct SwitchModel {
    pub scrutinee: ExpressionModel,
    pub cases: Seq<CaseModel>,
}

impl View for Literal {
    type V = Seq<char>;

    open spec fn view(&self) -> Seq<char> {
        self.literal@
    }
}

impl View for Identifier {
    type V = Seq<char>;

    open spec fn view(&self) -> Seq<char> {
        self.identifier@
    }
}

/// The model of an expression, by recursion over the tree.
pub open spec fn expression_model(e: Expression) -> ExpressionModel
    decreases e,
{
    match e {
        Expression::Literal(l) => ExpressionModel::Literal(l@),
        Expression::Identifier(i) => ExpressionModel::Identifier(i@),
        Expression::FunctionCall(call) => ExpressionModel::FunctionCall {
            name: call.identifier@,
            arguments: Seq::new(
                call.arguments@.len(),
                |k: int|
                    if 0 <= k < call.arguments@.len() {
                        expression_model(call.arguments@[k])
                    } else {
                        arbitrary()
                    },
            ),
        },
    }
}

/// The model of a statement, by recursion over the tree.
pub open spec fn statement_model(s: Statement) -> StatementModel
    decreases s,
{
    match s {
        Statement::VariableDeclaration(d) => StatementModel::VariableDeclaration {
            names: identifiers_view(d.identifiers@),
            value: match d.expression {
                Some(e) => Some(expression_model(e)),
                None => None,
            },
        },
        Statement::Expression(e) => StatementModel::Expression(expression_model(e)),
        Statement::Switch(s) => StatementModel::Switch(
            SwitchModel {
                scrutinee: expression_model(s.expression),
                cases: Seq::new(
                    s.cases@.len(),
                    |k: int|
                        if 0 <= k < s.cases@.len() {
                            CaseModel {
                                literal: match s.cases@[k].literal {
                                    Some(l) => Some(l@),
                                    None => None,
                                },
                                body: Seq::new(
                                    s.cases@[k].block.statements@.len(),
                                    |j: int|
                                        if 0 <= j < s.cases@[k].block.statements@.len() {
                                            statement_model(s.cases@[k].block.statements@[j])
                                        } else {
                                            arbitrary()
                                        },
                                ),
                            }
                        } else {
                            arbitrary()
                        },
                ),
            },
        ),
    }
}

impl View for Expression {
    type V = ExpressionModel;

    open spec fn view(&self) -> ExpressionModel {
        expression_model(*self)
    }
}

impl View for Statement {
    type V = StatementModel;

    open spec fn view(&self) -> StatementModel {
        statement_model(*self)
    }
}

/// The names that a sequence of identifiers stands for.
pub open spec fn identifiers_view(identifiers: Seq<Identifier>) -> Seq<Seq<char>> {
    Seq::new(identifiers.len(), |k: int| identifiers[k]@)
}

/// The models of a sequence of expressions, in order.
pub open spec fn expressions_view(expressions: Seq<Expression>) -> Seq<ExpressionModel> {
    Seq::new(expressions.len(), |k: int| expressions[k]@)
}

/// The models of a sequence of statements, in order.
pub open spec fn statements_view(statements: Seq<Statement>) -> Seq<StatementModel> {
    Seq::new(statements.len(), |k: int| statements[k]@)
}

/// The models of a sequence of cases, in order.
pub open spec fn cases_view(cases: Seq<Case>) -> Seq<CaseModel> {
    Seq::new(cases.len(), |k: int| cases[k]@)
}

impl View for Block {
    type V = Seq<StatementModel>;

    open spec fn view(&self) -> Seq<StatementModel> {
        statements_view(self.statements@)
    }
}

impl View for Case {
    type V = CaseModel;

    open spec fn view(&self) -> CaseModel {
        CaseModel {
            literal: match self.literal {
                Some(l) => Some(l@),
                None => None,
            },
            body: self.block@,
        }
    }
}

impl View for Switch {
    type V = SwitchModel;

    open spec fn view(&self) -> SwitchModel {
        SwitchModel { scrutinee: self.expression@, cases: cases_view(self.cases@) }
    }
}

impl Expression {
    /// A literal with the given text.
    pub fn literal(text: String) -> (e: Expression)
        ensures
            e@ == ExpressionModel::Literal(text@),
    {
        Expression::Literal(Literal { literal: text })
    }

    /// A reference to the variable `name`.
    pub fn identifier(name: String) -> (e: Expression)
        ensures
            e@ == ExpressionModel::Identifier(name@),
    {
        Expression::Identifier(Identifier { identifier: name })
    }

    /// An invocation of `name` with `arguments`, in that order.
    pub fn call(name: String, arguments: Vec<Expression>) -> (e: Expression)
        ensures
            e@ == (ExpressionModel::FunctionCall {
                name: name@,
                arguments: expressions_view(arguments@),
            }),
    {
        let e = Expression::FunctionCall(
            FunctionCall { identifier: Identifier { identifier: name }, arguments },
        );
        assert(e@ is FunctionCall);
        assert(e@->name == name@);
        assert(e@->arguments.len() == arguments@.len());
        assert(forall|k: int| 0 <= k < arguments@.len() ==> e@->arguments[k] == arguments@[k]@);
        assert(e@->arguments =~= expressions_view(arguments@));
        e
    }
}

impl Statement {
    /// `let name := value`
    pub fn declare(name: String, value: Expression) -> (s: Statement)
        ensures
            s@ == (StatementModel::VariableDeclaration {
                names: seq![name@],
                value: Some(value@),
            }),
    {
        let mut identifiers: Vec<Identifier> = Vec::new();
        identifiers.push(Identifier { identifier: name });
        let s = Statement::VariableDeclaration(
            VariableDeclaration { identifiers, expression: Some(value) },
        );
        assert(s@ =~= (StatementModel::VariableDeclaration {
            names: seq![name@],
            value: Some(value@),
        }));
        s
    }

    /// An expression evaluated for its effect.
    pub fn expression(value: Expression) -> (s: Statement)
        ensures
            s@ == StatementModel::Expression(value@),
    {
        Statement::Expression(value)
    }

    /// A multi-way branch on `scrutinee`.
    pub fn switch(scrutinee: Expression, cases: Vec<Case>) -> (s: Statement)
        ensures
            s@ == StatementModel::Switch(
                SwitchModel { scrutinee: scrutinee@, cases: cases_view(cases@) },
            ),
    {
        let s = Statement::Switch(Switch { expression: scrutinee, cases });
        proof {
            let built = s@->Switch_0;
            assert(s@ is Switch);
            assert(built.cases.len() == cases@.len());
            assert forall|k: int| 0 <= k < cases@.len() implies built.cases[k] == cases@[k]@ by {
                assert(built.cases[k].body =~= cases@[k]@.body);
            }
            assert(built.cases =~= cases_view(cases@));
        }
        s
    }
}

impl Case {
    /// The branch taken when the scrutinee equals `literal`.
    pub fn matching(literal: Literal, statements: Vec<Statement>) -> (c: Case)
        ensures
            c@ == (CaseModel { literal: Some(literal@), body: statements_view(statements@) }),
    {
        Case { literal: Some(literal), block: Block { statements } }
    }
}

} // verus!
