//! The nodes of the `glsl` crate: those that the declaration tree carries without looking into
//! them, and those that are built from the tree to be printed or read into it.
use vstd::prelude::*;

verus! {

/// `glsl::syntax::Expr`: an expression.
#[verifier::external_type_specification]
#[verifier::external_body]
pub struct ExExpr(glsl::syntax::Expr);

/// `glsl::syntax::TypeSpecifierNonArray`: a type without array dimensions.
#[verifier::external_type_specification]
#[verifier::external_body]
pub struct ExTypeSpecifierNonArray(glsl::syntax::TypeSpecifierNonArray);

/// `glsl::syntax::TypeQualifierSpec`: one qualifier of a type.
#[verifier::external_type_specification]
#[verifier::external_body]
pub struct ExTypeQualifierSpec(glsl::syntax::TypeQualifierSpec);

/// `glsl::syntax::Initializer`: the value a declaration starts with.
#[verifier::external_type_specification]
#[verifier::external_body]
pub struct ExInitializer(glsl::syntax::Initializer);

/// `glsl::syntax::Declaration`: a declaration.
#[verifier::external_type_specification]
#[verifier::external_body]
pub struct ExDeclaration(glsl::syntax::Declaration);

/// `glsl::syntax::SimpleStatement`: a statement that is not a block.
#[verifier::external_type_specification]
#[verifier::external_body]
pub struct ExSimpleStatement(glsl::syntax::SimpleStatement);

/// `glsl::syntax::Preprocessor`: a preprocessor directive.
#[verifier::external_type_specification]
#[verifier::external_body]
pub struct ExPreprocessor(glsl::syntax::Preprocessor);

/// `glsl::syntax::ArraySpecifier`: the dimensions of an array.
#[verifier::external_type_specification]
#[verifier::external_body]
pub struct ExArraySpecifier(glsl::syntax::ArraySpecifier);

/// `glsl::syntax::ArraySpecifierDimension`: one dimension of an array.
#[verifier::external_type_specification]
#[verifier::external_body]
pub struct ExArraySpecifierDimension(glsl::syntax::ArraySpecifierDimension);

/// `glsl::syntax::FunIdentifier`: what a call expression calls.
#[verifier::external_type_specification]
#[verifier::external_body]
pub struct ExFunIdentifier(glsl::syntax::FunIdentifier);

/// `glsl::syntax::ArrayedIdentifier`: a name with optional array dimensions.
#[verifier::external_type_specification]
#[verifier::external_body]
pub struct ExArrayedIdentifier(glsl::syntax::ArrayedIdentifier);

/// `glsl::syntax::LayoutQualifierSpec`: one identifier of a layout qualifier.
#[verifier::external_type_specification]
#[verifier::external_body]
pub struct ExLayoutQualifierSpec(glsl::syntax::LayoutQualifierSpec);

/// `glsl::syntax::TypeQualifier`: the qualifiers of a type.
#[verifier::external_type_specification]
#[verifier::external_body]
pub struct ExTypeQualifier(glsl::syntax::TypeQualifier);

/// `glsl::syntax::TypeSpecifier`: a type with its array dimensions.
#[verifier::external_type_specification]
#[verifier::external_body]
pub struct ExTypeSpecifier(glsl::syntax::TypeSpecifier);

/// `glsl::syntax::StructFieldSpecifier`: one field line of a struct.
#[verifier::external_type_specification]
#[verifier::external_body]
pub struct ExStructFieldSpecifier(glsl::syntax::StructFieldSpecifier);

/// `glsl::syntax::StructSpecifier`: a struct definition.
#[verifier::external_type_specification]
#[verifier::external_body]
pub struct ExStructSpecifier(glsl::syntax::StructSpecifier);

/// `glsl::syntax::FullySpecifiedType`: a type with its qualifiers.
#[verifier::external_type_specification]
#[verifier::external_body]
pub struct ExFullySpecifiedType(glsl::syntax::FullySpecifiedType);

/// `glsl::syntax::SingleDeclaration`: a declaration of at most one name.
#[verifier::external_type_specification]
#[verifier::external_body]
pub struct ExSingleDeclaration(glsl::syntax::SingleDeclaration);

/// `glsl::syntax::SingleDeclarationNoType`: a further name of a declaration list.
#[verifier::external_type_specification]
#[verifier::external_body]
pub struct ExSingleDeclarationNoType(glsl::syntax::SingleDeclarationNoType);

/// `glsl::syntax::Block`: an interface block.
#[verifier::external_type_specification]
#[verifier::external_body]
pub struct ExBlock(glsl::syntax::Block);

/// `glsl::syntax::FunctionParameterDeclaration`: a parameter of a function.
#[verifier::external_type_specification]
#[verifier::external_body]
pub struct ExFunctionParameterDeclaration(glsl::syntax::FunctionParameterDeclaration);

/// `glsl::syntax::Statement`: a statement.
#[verifier::external_type_specification]
#[verifier::external_body]
pub struct ExStatement(glsl::syntax::Statement);

/// `glsl::syntax::FunctionDefinition`: a function with its body.
#[verifier::external_type_specification]
#[verifier::external_body]
pub struct ExFunctionDefinition(glsl::syntax::FunctionDefinition);

/// `glsl::syntax::ExternalDeclaration`: a declaration at the top level.
#[verifier::external_type_specification]
#[verifier::external_body]
pub struct ExExternalDeclaration(glsl::syntax::ExternalDeclaration);

/// `glsl::syntax::CaseLabel`: a case label.
#[verifier::external_type_specification]
#[verifier::external_body]
pub struct ExCaseLabel(glsl::syntax::CaseLabel);

/// `glsl::syntax::CompoundStatement`: a block of statements.
#[verifier::external_type_specification]
#[verifier::external_body]
pub struct ExCompoundStatement(glsl::syntax::CompoundStatement);

/// `glsl::syntax::Condition`: what a loop tests.
#[verifier::external_type_specification]
#[verifier::external_body]
pub struct ExCondition(glsl::syntax::Condition);

/// `glsl::syntax::ForInitStatement`: what a `for` loop starts with.
#[verifier::external_type_specification]
#[verifier::external_body]
pub struct ExForInitStatement(glsl::syntax::ForInitStatement);

/// `glsl::syntax::FunctionPrototype`: the head of a function.
#[verifier::external_type_specification]
#[verifier::external_body]
pub struct ExFunctionPrototype(glsl::syntax::FunctionPrototype);

/// `glsl::syntax::InitDeclaratorList`: a variable-like declaration.
#[verifier::external_type_specification]
#[verifier::external_body]
pub struct ExInitDeclaratorList(glsl::syntax::InitDeclaratorList);

/// `glsl::syntax::IterationStatement`: a loop.
#[verifier::external_type_specification]
#[verifier::external_body]
pub struct ExIterationStatement(glsl::syntax::IterationStatement);

/// `glsl::syntax::JumpStatement`: a jump.
#[verifier::external_type_specification]
#[verifier::external_body]
pub struct ExJumpStatement(glsl::syntax::JumpStatement);

/// `glsl::syntax::StorageQualifier`: a storage or memory qualifier.
#[verifier::external_type_specification]
#[verifier::external_body]
pub struct ExStorageQualifier(glsl::syntax::StorageQualifier);

/// `glsl::syntax::InterpolationQualifier`: an interpolation qualifier.
#[verifier::external_type_specification]
#[verifier::external_body]
pub struct ExInterpolationQualifier(glsl::syntax::InterpolationQualifier);

/// `glsl::syntax::LayoutQualifier`: a layout qualifier.
#[verifier::external_type_specification]
#[verifier::external_body]
pub struct ExLayoutQualifier(glsl::syntax::LayoutQualifier);

/// `glsl::syntax::UnaryOp`: an operator that stands before its operand.
#[verifier::external_type_specification]
#[verifier::external_body]
pub struct ExUnaryOp(glsl::syntax::UnaryOp);

/// `glsl::syntax::BinaryOp`: an operator that stands between its operands.
#[verifier::external_type_specification]
#[verifier::external_body]
pub struct ExBinaryOp(glsl::syntax::BinaryOp);

/// `glsl::syntax::AssignmentOp`: an operator of assignment.
#[verifier::external_type_specification]
#[verifier::external_body]
pub struct ExAssignmentOp(glsl::syntax::AssignmentOp);

/// `glsl::syntax::PrecisionQualifier`: a precision.
#[verifier::external_type_specification]
#[verifier::external_body]
pub struct ExPrecisionQualifier(glsl::syntax::PrecisionQualifier);

/// `glsl::syntax::SelectionStatement`: an `if` statement.
#[verifier::external_type_specification]
#[verifier::external_body]
pub struct ExSelectionStatement(glsl::syntax::SelectionStatement);

/// `glsl::syntax::SwitchStatement`: a `switch` statement.
#[verifier::external_type_specification]
#[verifier::external_body]
pub struct ExSwitchStatement(glsl::syntax::SwitchStatement);

/// `Clone` of `glsl::syntax::Expr`, which the crate derives: the copy equals the value copied.
pub assume_specification[ <glsl::syntax::Expr as Clone>::clone ](
    e: &glsl::syntax::Expr,
) -> (res: glsl::syntax::Expr)
    ensures
        res == *e,
;

/// `Clone` of `glsl::syntax::Preprocessor`, which the crate derives: the copy equals the value
/// copied.
pub assume_specification[ <glsl::syntax::Preprocessor as Clone>::clone ](
    p: &glsl::syntax::Preprocessor,
) -> (res: glsl::syntax::Preprocessor)
    ensures
        res == *p,
;

} // verus!
