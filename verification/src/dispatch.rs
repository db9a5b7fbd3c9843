//! Derivation of a handler trait from the declaration of a message enum.
//!
//! A message type is a closed set of variants. Each variant is answered by
//! one handler method, and a dispatcher matches a message against every
//! variant and calls that variant's handler with the variant's fields. This
//! module computes, from a plain description of the declaration, the plain
//! description of what has to be emitted: the trait's name and, for every
//! variant in declaration order, the handler's name, the fields bound by
//! the dispatcher's arm and the handler's parameters.

use vstd::prelude::*;
use vstd::string::StringExecFns;

verus! {

/// A named field of a variant: its identifier and its type as written.
#[derive(Clone, Debug, PartialEq, Eq)]
pub struct Field {
    pub name: String,
    pub ty: String,
}

/// The fields a variant carries.
#[derive(Clone, Debug, PartialEq, Eq)]
pub enum Fields {
    /// No field list.
    Unit,
    /// A positional field list; the types as written.
    Unnamed(Vec<String>),
    /// A field list in braces.
    Named(Vec<Field>),
}

/// One variant of a message enum.
#[derive(Clone, Debug, PartialEq, Eq)]
pub struct Variant {
    pub name: String,
    pub fields: Fields,
}

/// What kind of item a declaration is.
#[derive(Clone, Debug, PartialEq, Eq)]
pub enum ItemShape {
    Enum(Vec<Variant>),
    Struct,
    Union,
}

/// The declaration a handler trait is asked for.
#[derive(Clone, Debug, PartialEq, Eq)]
pub struct Declaration {
    pub name: String,
    pub shape: ItemShape,
}

/// The handler of one variant. The dispatcher's arm matches `variant`,
/// binds `parameters` by name when `braced` is set, and calls `method`
/// with them in this order; the handler's prototype declares `method`
/// with these parameters and their types.
#[derive(Clone, Debug, PartialEq, Eq)]
pub struct Handler {
    pub variant: String,
    pub method: String,
    pub braced: bool,
    pub parameters: Vec<Field>,
}

/// The trait derived for a message enum: one handler per variant, in
/// declaration order.
#[derive(Clone, Debug, PartialEq, Eq)]
pub struct HandlerTrait {
    pub trait_name: String,
    pub message_name: String,
    pub handlers: Vec<Handler>,
}

/// Why no handler trait can be derived.
#[derive(Clone, Copy, Debug, PartialEq, Eq)]
pub enum GenerateError {
    /// The declaration is a struct or a union.
    NotAnEnum,
    /// A variant has a positional field list.
    TupleVariant,
}

/// Mathematical model of a [`Field`].
pub struct FieldModel {
    pub name: Seq<char>,
    pub ty: Seq<char>,
}

/// Mathematical model of [`Fields`].
pub enum FieldsModel {
    Unit,
    Unnamed(Seq<Seq<char>>),
    Named(Seq<FieldModel>),
}

/// Mathematical model of a [`Variant`].
pub struct VariantModel {
    pub name: Seq<char>,
    pub fields: FieldsModel,
}

/// Mathematical model of an [`ItemShape`].
pub enum ItemShapeModel {
    Enum(Seq<VariantModel>),
    Struct,
    Union,
}

/// Mathematical model of a [`Declaration`].
pub struct DeclarationModel {
    pub name: Seq<char>,
    pub shape: ItemShapeModel,
}

/// Mathematical model of a [`Handler`].
pub struct HandlerModel {
    pub variant: Seq<char>,
    pub method: Seq<char>,
    pub braced: bool,
    pub parameters: Seq<FieldModel>,
}

/// Mathematical model of a [`HandlerTrait`].
pub struct HandlerTraitModel {
    pub trait_name: Seq<char>,
    pub message_name: Seq<char>,
    pub handlers: Seq<HandlerModel>,
}

impl View for Field {
    type V = FieldModel;

    open spec fn view(&self) -> FieldModel {
        FieldModel { name: self.name@, ty: self.ty@ }
    }
}

/// The models of a list of fields, in order.
pub open spec fn field_models(fields: Seq<Field>) -> Seq<FieldModel> {
    Seq::new(fields.len(), |i: int| fields[i]@)
}

/// The contents of a list of strings, in order.
pub open spec fn string_models(strings: Seq<String>) -> Seq<Seq<char>> {
    Seq::new(strings.len(), |i: int| strings[i]@)
}

impl View for Fields {
    type V = FieldsModel;

    open spec fn view(&self) -> FieldsModel {
        match *self {
            Fields::Unit => FieldsModel::Unit,
            Fields::Unnamed(types) => FieldsModel::Unnamed(string_models(types@)),
            Fields::Named(fields) => FieldsModel::Named(field_models(fields@)),
        }
    }
}

impl View for Variant {
    type V = VariantModel;

    open spec fn view(&self) -> VariantModel {
        VariantModel { name: self.name@, fields: self.fields@ }
    }
}

/// The models of a list of variants, in order.
pub open spec fn variant_models(variants: Seq<Variant>) -> Seq<VariantModel> {
    Seq::new(variants.len(), |i: int| variants[i]@)
}

impl View for ItemShape {
    type V = ItemShapeModel;

    open spec fn view(&self) -> ItemShapeModel {
        match *self {
            ItemShape::Enum(variants) => ItemShapeModel::Enum(variant_models(variants@)),
            ItemShape::Struct => ItemShapeModel::Struct,
            ItemShape::Union => ItemShapeModel::Union,
        }
    }
}

impl View for Declaration {
    type V = DeclarationModel;

    open spec fn view(&self) -> DeclarationModel {
        DeclarationModel { name: self.name@, shape: self.shape@ }
    }
}

impl View for Handler {
    type V = HandlerModel;

    open spec fn view(&self) -> HandlerModel {
        HandlerModel {
            variant: self.variant@,
            method: self.method@,
            braced: self.braced,
            parameters: field_models(self.parameters@),
        }
    }
}

/// The models of a list of handlers, in order.
pub open spec fn handler_models(handlers: Seq<Handler>) -> Seq<HandlerModel> {
    Seq::new(handlers.len(), |i: int| handlers[i]@)
}

impl View for HandlerTrait {
    type V = HandlerTraitModel;

    open spec fn view(&self) -> HandlerTraitModel {
        HandlerTraitModel {
            trait_name: self.trait_name@,
            message_name: self.message_name@,
            handlers: handler_models(self.handlers@),
        }
    }
}

/// The snake-case folding that `heck` computes for an identifier: lower-case
/// words separated by single underscores.
pub uninterp spec fn snake_case(identifier: Seq<char>) -> Seq<char>;

/// The name of the handler method that answers a variant whose identifier
/// folds to `folded`.
pub open spec fn method_name(folded: Seq<char>) -> Seq<char> {
    "handle_"@ + folded
}

/// The name of the trait derived for the message type `message_name`.
pub open spec fn trait_name(message_name: Seq<char>) -> Seq<char> {
    message_name + "Handler"@
}

/// Whether a handler can be derived for a variant: positional field lists
/// are not supported.
pub open spec fn supported(variant: VariantModel) -> bool {
    !(variant.fields is Unnamed)
}

/// The handler of a supported variant whose method is called `method`.
pub open spec fn handler_with(variant: VariantModel, method: Seq<char>) -> HandlerModel {
    HandlerModel {
        variant: variant.name,
        method,
        braced: variant.fields is Named,
        parameters: match variant.fields {
            FieldsModel::Named(fields) => fields,
            _ => Seq::empty(),
        },
    }
}

/// The handler of a supported variant.
pub open spec fn handler_of(variant: VariantModel) -> HandlerModel {
    handler_with(variant, method_name(snake_case(variant.name)))
}

/// What [`generate`] answers for a declaration.
pub open spec fn generated(declaration: DeclarationModel) -> Result<
    HandlerTraitModel,
    GenerateError,
> {
    match declaration.shape {
        ItemShapeModel::Enum(variants) => {
            if forall|i: int| 0 <= i < variants.len() ==> supported(#[trigger] variants[i]) {
                Ok(
                    HandlerTraitModel {
                        trait_name: trait_name(declaration.name),
                        message_name: declaration.name,
                        handlers: Seq::new(variants.len(), |i: int| handler_of(variants[i])),
                    },
                )
            } else {
                Err(GenerateError::TupleVariant)
            }
        },
        _ => Err(GenerateError::NotAnEnum),
    }
}

/// What a fallible derivation returned, with the value it carries taken by
/// its model.
pub open spec fn handler_outcome(outcome: Result<Handler, GenerateError>) -> Result<
    HandlerModel,
    GenerateError,
> {
    match outcome {
        Ok(handler) => Ok(handler@),
        Err(error) => Err(error),
    }
}

/// What a fallible derivation returned, with the value it carries taken by
/// its model.
pub open spec fn trait_outcome(outcome: Result<HandlerTrait, GenerateError>) -> Result<
    HandlerTraitModel,
    GenerateError,
> {
    match outcome {
        Ok(handlers) => Ok(handlers@),
        Err(error) => Err(error),
    }
}

/// The trait derived for an enum has exactly one handler for every
/// variant, in declaration order: named after the variant, and taking no
/// argument for a unit variant and all the fields, in declaration order,
/// for a variant with named fields.
pub proof fn lemma_one_handler_per_variant(declaration: DeclarationModel, i: int)
    requires
        generated(declaration) is Ok,
        0 <= i < declaration.shape->Enum_0.len(),
    ensures
        declaration.shape is Enum,
        generated(declaration)->Ok_0.handlers.len() == declaration.shape->Enum_0.len(),
        ({
            let variant = declaration.shape->Enum_0[i];
            let handler = generated(declaration)->Ok_0.handlers[i];
            &&& handler.variant == variant.name
            &&& handler.method == method_name(snake_case(variant.name))
            &&& match variant.fields {
                FieldsModel::Unit => !handler.braced && handler.parameters.len() == 0,
                FieldsModel::Named(fields) => handler.braced && handler.parameters == fields,
                FieldsModel::Unnamed(_) => false,
            }
        }),
{
    let variants = declaration.shape->Enum_0;
    assert(supported(variants[i]));
}

/// Calls `heck::SnakeCase::to_snake_case` on `identifier`. Trusted: the
/// result is what `heck` computes for these characters, which
/// [`snake_case`] names; nothing else is claimed of it.
#[verifier::external_body]
fn to_snake_case(identifier: &str) -> (folded: String)
    ensures
        folded@ == snake_case(identifier@),
{
    heck::SnakeCase::to_snake_case(identifier)
}

/// Names the handler method for a variant whose identifier folds to
/// `folded`: `handle_` followed by `folded`.
pub fn handler_name(folded: &str) -> (name: String)
    ensures
        name@ == method_name(folded@),
{
    String::from_str("handle_").concat(folded)
}

/// Names the trait derived for the message type `message_name`: the
/// type's name followed by `Handler`.
pub fn handler_trait_name(message_name: &str) -> (name: String)
    ensures
        name@ == trait_name(message_name@),
{
    String::from_str(message_name).concat("Handler")
}

/// Copies a list of fields.
fn copy_fields(fields: &Vec<Field>) -> (copy: Vec<Field>)
    ensures
        field_models(copy@) == field_models(fields@),
{
    let mut copy: Vec<Field> = Vec::new();
    let mut i: usize = 0;
    while i < fields.len()
        invariant
            i <= fields.len(),
            copy.len() == i,
            forall|j: int| 0 <= j < i ==> copy[j]@ == fields[j]@,
        decreases fields.len() - i,
    {
        let field = &fields[i];
        copy.push(Field { name: field.name.clone(), ty: field.ty.clone() });
        i += 1;
    }
    assert(field_models(copy@) =~= field_models(fields@));
    copy
}

/// Derives the handler of `variant`, given the name of its method. A unit
/// variant is forwarded without arguments, a variant with named fields with
/// all of them in declaration order; a variant with positional fields is
/// refused.
pub fn handler_for(variant: &Variant, method: String) -> (outcome: Result<Handler, GenerateError>)
    ensures
        handler_outcome(outcome) == if supported(variant@) {
            Ok::<HandlerModel, GenerateError>(handler_with(variant@, method@))
        } else {
            Err::<HandlerModel, GenerateError>(GenerateError::TupleVariant)
        },
{
    match &variant.fields {
        Fields::Unit => {
            let parameters: Vec<Field> = Vec::new();
            assert(field_models(parameters@) =~= Seq::empty());
            Ok(Handler { variant: variant.name.clone(), method, braced: false, parameters })
        },
        Fields::Unnamed(_) => Err(GenerateError::TupleVariant),
        Fields::Named(fields) => {
            let parameters = copy_fields(fields);
            Ok(Handler { variant: variant.name.clone(), method, braced: true, parameters })
        },
    }
}

/// Derives the handler trait of a message type: for every variant, in
/// declaration order, the handler `handle_` + snake case of the variant's
/// identifier, taking the variant's fields. Fails with
/// [`GenerateError::NotAnEnum`] when the declaration is no enum, and with
/// [`GenerateError::TupleVariant`] when some variant has positional fields.
pub fn generate(declaration: &Declaration) -> (outcome: Result<HandlerTrait, GenerateError>)
    ensures
        trait_outcome(outcome) == generated(declaration@),
{
    match &declaration.shape {
        ItemShape::Enum(variants) => {
            let mut handlers: Vec<Handler> = Vec::new();
            let mut i: usize = 0;
            while i < variants.len()
                invariant
                    i <= variants.len(),
                    handlers.len() == i,
                    declaration@.shape == ItemShapeModel::Enum(variant_models(variants@)),
                    forall|j: int| 0 <= j < i ==> supported(#[trigger] variants[j]@),
                    forall|j: int| 0 <= j < i ==> handlers[j]@ == handler_of(variants[j]@),
                decreases variants.len() - i,
            {
                let variant = &variants[i];
                let folded = to_snake_case(variant.name.as_str());
                let method = handler_name(folded.as_str());
                match handler_for(variant, method) {
                    Ok(handler) => {
                        handlers.push(handler);
                    },
                    Err(error) => {
                        assert(variant_models(variants@)[i as int] == variant@);
                        return Err(error);
                    },
                }
                i += 1;
            }
            let derived = HandlerTrait {
                trait_name: handler_trait_name(declaration.name.as_str()),
                message_name: declaration.name.clone(),
                handlers,
            };
            proof {
                let models = variant_models(variants@);
                assert forall|j: int| 0 <= j < models.len() implies supported(
                    #[trigger] models[j],
                ) by {
                    assert(supported(variants[j]@));
                }
                assert(derived@.handlers =~= Seq::new(
                    models.len(),
                    |j: int| handler_of(models[j]),
                ));
            }
            Ok(derived)
        },
        ItemShape::Struct => Err(GenerateError::NotAnEnum),
        ItemShape::Union => Err(GenerateError::NotAnEnum),
    }
}

} // verus!
