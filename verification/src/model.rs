//! The data the rule compiler works over: a plain description of an annotated
//! type definition (its shape, its fields, and the raw text of each framework
//! annotation), the directives extracted from it, and the generation-time
//! errors. Host-syntax concerns stay outside; the compiler only sees these.

use vstd::prelude::*;

verus! {

/// A generation-time failure; any of these aborts generation for the type.
#[derive(Clone, Copy, Debug, PartialEq, Eq, Structural)]
pub enum GenError {
    /// A validator reference or its argument list cannot be parsed.
    MalformedDirective,
    /// The type definition is not a plain field-carrying structure.
    UnsupportedShape,
    /// An argument references the context, but no context type is declared.
    ContextUnavailable,
}

/// The model of a validator reference: its name and its raw argument
/// fragments, each an unparsed expression resolved at the generation site.
pub struct RefModel {
    pub name: Seq<char>,
    pub args: Seq<Seq<char>>,
}

/// One validator reference as written in an annotation: a bare identifier,
/// or an identifier followed by a parenthesized argument list.
#[derive(Debug)]
pub struct ValidatorRef {
    pub name: String,
    pub args: Vec<String>,
}

impl View for ValidatorRef {
    type V = RefModel;

    open spec fn view(&self) -> RefModel {
        RefModel { name: self.name@, args: self.args.deep_view() }
    }
}

impl DeepView for ValidatorRef {
    type V = RefModel;

    open spec fn deep_view(&self) -> RefModel {
        self.view()
    }
}

/// The model of a directive: which field, which validator, which arguments.
pub struct DirModel {
    pub field: Seq<char>,
    pub validator: Seq<char>,
    pub args: Seq<Seq<char>>,
}

/// One field-level validation instruction: run the named validator on the
/// named field, passing the argument fragments along. Consumed exactly once
/// by the emitter to produce one call site.
#[derive(Debug)]
pub struct Directive {
    pub field_name: String,
    pub validator_name: String,
    pub args: Vec<String>,
}

impl View for Directive {
    type V = DirModel;

    open spec fn view(&self) -> DirModel {
        DirModel {
            field: self.field_name@,
            validator: self.validator_name@,
            args: self.args.deep_view(),
        }
    }
}

impl DeepView for Directive {
    type V = DirModel;

    open spec fn deep_view(&self) -> DirModel {
        self.view()
    }
}

/// The model of a field definition.
pub struct FieldModel {
    pub name: Seq<char>,
    pub annotations: Seq<Seq<char>>,
}

/// One named field, with the body text of each framework annotation on it.
#[derive(Debug)]
pub struct FieldDef {
    pub name: String,
    pub annotations: Vec<String>,
}

impl View for FieldDef {
    type V = FieldModel;

    open spec fn view(&self) -> FieldModel {
        FieldModel { name: self.name@, annotations: self.annotations.deep_view() }
    }
}

impl DeepView for FieldDef {
    type V = FieldModel;

    open spec fn deep_view(&self) -> FieldModel {
        self.view()
    }
}

/// The model of a type definition's shape.
pub enum ShapeModel {
    Record(Seq<FieldModel>),
    Other,
}

/// The shape of a type definition: a plain record with named fields is the
/// only supported shape; anything else (a sum type, a tuple or unit struct)
/// is out of the framework's scope.
#[derive(Debug)]
pub enum TypeShape {
    Record(Vec<FieldDef>),
    Other,
}

impl DeepView for TypeShape {
    type V = ShapeModel;

    open spec fn deep_view(&self) -> ShapeModel {
        match self {
            TypeShape::Record(fields) => ShapeModel::Record(fields.deep_view()),
            TypeShape::Other => ShapeModel::Other,
        }
    }
}

/// The model of a type definition.
pub struct TypeModel {
    pub annotations: Seq<Seq<char>>,
    pub shape: ShapeModel,
}

/// A type definition as the compiler sees it: the body text of each
/// structure-level framework annotation, and the shape with its fields.
#[derive(Debug)]
pub struct TypeDef {
    pub annotations: Vec<String>,
    pub shape: TypeShape,
}

impl DeepView for TypeDef {
    type V = TypeModel;

    open spec fn deep_view(&self) -> TypeModel {
        TypeModel { annotations: self.annotations.deep_view(), shape: self.shape.deep_view() }
    }
}

} // verus!
