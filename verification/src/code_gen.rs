//! From a declaration to the descriptions of its builder methods.
//!
//! A struct with named fields gets, for every field whose settings do not
//! suppress it, a consuming method followed by a mutating one; the pairs
//! stand in the order of the fields. Any other declaration is refused.
//!
//! Method names are not compared with one another: two fields whose names
//! resolve to the same text get methods of the same name.

use vstd::prelude::*;
use crate::directives::{
    field_ok, global_ok, resolve_field, resolve_global, smelter_entries, FieldAttrData,
    GlobalAttrData, GlobalAttrModel,
};
use crate::model::{
    clone_generics, clone_method, DeclarationKind, ExpandError, FieldDeclaration,
    FieldDeclarationModel, GenericParam, MethodSpec, MethodSpecModel, Mutability, OwnerRef,
    OwnerRefModel, RecordDeclaration, RecordDeclarationModel,
};
use crate::naming::{get_method_name, get_visibility, method_name, method_visibility};

verus! {

/// What every method of one declaration has in common.
pub struct CodeGenData<'a> {
    pub attr_data: &'a GlobalAttrData,
    pub struct_name: &'a String,
    pub ty_generics: &'a Vec<GenericParam>,
}

impl<'a> CodeGenData<'a> {
    /// The type that the methods belong to.
    pub open spec fn owner(&self) -> OwnerRefModel {
        OwnerRefModel { name: self.struct_name@, generics: self.ty_generics.deep_view() }
    }
}

/// Whether the settings of a field ask for its methods.
pub open spec fn emits(field: FieldDeclarationModel) -> bool {
    resolve_field(smelter_entries(field.attributes)).create_field
}

/// `emits` as a predicate to filter by.
pub open spec fn emits_pred() -> spec_fn(FieldDeclarationModel) -> bool {
    |field: FieldDeclarationModel| emits(field)
}

/// The fields that get methods, in the order of the declaration.
pub open spec fn emitted_fields(fields: Seq<FieldDeclarationModel>) -> Seq<FieldDeclarationModel> {
    fields.filter(emits_pred())
}

/// The method of the given form for one field.
pub open spec fn method_for(
    owner: OwnerRefModel,
    global: GlobalAttrModel,
    field: FieldDeclarationModel,
    mutability: Mutability,
) -> MethodSpecModel {
    let attrs = resolve_field(smelter_entries(field.attributes));
    MethodSpecModel {
        name: method_name(
            global.default_prefix,
            attrs,
            field.name,
            mutability == Mutability::Mutating,
        ),
        mutability,
        owner,
        field: field.name,
        field_type: field.ty,
        visibility: method_visibility(attrs, field.visibility),
    }
}

/// `method_for` as a function of the field alone.
pub open spec fn method_maker(
    owner: OwnerRefModel,
    global: GlobalAttrModel,
    mutability: Mutability,
) -> spec_fn(FieldDeclarationModel) -> MethodSpecModel {
    |field: FieldDeclarationModel| method_for(owner, global, field, mutability)
}

/// The methods of one form, one for each field that gets methods.
pub open spec fn phase_methods(
    owner: OwnerRefModel,
    global: GlobalAttrModel,
    fields: Seq<FieldDeclarationModel>,
    mutability: Mutability,
) -> Seq<MethodSpecModel> {
    emitted_fields(fields).map_values(method_maker(owner, global, mutability))
}

/// The attributes of every field can be read.
pub open spec fn fields_ok(fields: Seq<FieldDeclarationModel>) -> bool {
    forall|i: int| 0 <= i < fields.len() ==> field_ok((#[trigger] fields[i]).attributes)
}

/// Generates the methods of one form for the fields, in order.
fn expand_phase(data: &CodeGenData, fields: &Vec<FieldDeclaration>, mutability: Mutability) -> (res:
    Result<Vec<MethodSpec>, ExpandError>)
    ensures
        fields_ok(fields.deep_view()) ==> res is Ok && res->Ok_0.deep_view() == phase_methods(
            data.owner(),
            data.attr_data.deep_view(),
            fields.deep_view(),
            mutability,
        ),
        !fields_ok(fields.deep_view()) ==> res == Err::<Vec<MethodSpec>, ExpandError>(
            ExpandError::MalformedDirective,
        ),
{
    let ghost all = fields.deep_view();
    let ghost owner = data.owner();
    let ghost global = data.attr_data.deep_view();
    let mutable = match mutability {
        Mutability::Consuming => false,
        Mutability::Mutating => true,
    };
    let mut out: Vec<MethodSpec> = Vec::new();
    let mut i: usize = 0;
    proof {
        reveal(Seq::filter);
        assert(out.deep_view() =~= phase_methods(owner, global, all.take(0), mutability));
    }
    while i < fields.len()
        invariant
            i <= fields.len(),
            all == fields.deep_view(),
            owner == data.owner(),
            global == data.attr_data.deep_view(),
            mutable == (mutability == Mutability::Mutating),
            fields_ok(all.take(i as int)),
            out.deep_view() == phase_methods(owner, global, all.take(i as int), mutability),
        decreases fields.len() - i,
    {
        let field = &fields[i];
        let ghost before = out.deep_view();
        proof {
            assert(all.take(i + 1) =~= all.take(i as int).push(all[i as int]));
            all.take(i as int).lemma_filter_push(all[i as int], emits_pred());
        }
        let field_attrs = match FieldAttrData::from_attributes(&field.attributes) {
            Ok(found) => found,
            Err(e) => {
                assert(!field_ok(all[i as int].attributes));
                return Err(e);
            },
        };
        if field_attrs.create_field {
            let method = MethodSpec {
                name: get_method_name(&field_attrs, field, mutable, &data.attr_data.default_prefix),
                mutability,
                owner: OwnerRef {
                    name: data.struct_name.clone(),
                    generics: clone_generics(data.ty_generics),
                },
                field: field.name.clone(),
                field_type: field.ty.clone(),
                visibility: get_visibility(&field_attrs, field),
            };
            assert(method.deep_view() == method_for(owner, global, all[i as int], mutability));
            out.push(method);
            assert(out.deep_view() =~= before.push(
                method_for(owner, global, all[i as int], mutability),
            ));
            assert(out.deep_view() =~= phase_methods(owner, global, all.take(i + 1), mutability));
        } else {
            assert(out.deep_view() =~= phase_methods(owner, global, all.take(i + 1), mutability));
        }
        assert forall|j: int| 0 <= j < i + 1 implies field_ok(
            (#[trigger] all.take(i + 1)[j]).attributes,
        ) by {
            if j < i {
                assert(all.take(i as int)[j] == all[j]);
            }
        }
        i += 1;
    }
    assert(all.take(fields.len() as int) =~= all);
    Ok(out)
}

/// Generates the consuming methods of the fields, in order.
pub fn expand_immutable(data: &CodeGenData, fields: &Vec<FieldDeclaration>) -> (res: Result<
    Vec<MethodSpec>,
    ExpandError,
>)
    ensures
        fields_ok(fields.deep_view()) ==> res is Ok && res->Ok_0.deep_view() == phase_methods(
            data.owner(),
            data.attr_data.deep_view(),
            fields.deep_view(),
            Mutability::Consuming,
        ),
        !fields_ok(fields.deep_view()) ==> res == Err::<Vec<MethodSpec>, ExpandError>(
            ExpandError::MalformedDirective,
        ),
{
    expand_phase(data, fields, Mutability::Consuming)
}

/// Generates the mutating methods of the fields, in order.
pub fn expand_mutable(data: &CodeGenData, fields: &Vec<FieldDeclaration>) -> (res: Result<
    Vec<MethodSpec>,
    ExpandError,
>)
    ensures
        fields_ok(fields.deep_view()) ==> res is Ok && res->Ok_0.deep_view() == phase_methods(
            data.owner(),
            data.attr_data.deep_view(),
            fields.deep_view(),
            Mutability::Mutating,
        ),
        !fields_ok(fields.deep_view()) ==> res == Err::<Vec<MethodSpec>, ExpandError>(
            ExpandError::MalformedDirective,
        ),
{
    expand_phase(data, fields, Mutability::Mutating)
}

/// Two lists of equal length, taken in turn: the first of one, the first of
/// the other, the second of one, and so on.
pub open spec fn paired(first: Seq<MethodSpecModel>, second: Seq<MethodSpecModel>) -> Seq<
    MethodSpecModel,
> {
    Seq::new(
        (2 * first.len()) as nat,
        |i: int|
            if i % 2 == 0 {
                first[i / 2]
            } else {
                second[i / 2]
            },
    )
}

/// Puts each consuming method in front of the mutating method of its field.
fn interleave(consuming: &Vec<MethodSpec>, mutating: &Vec<MethodSpec>) -> (res: Vec<MethodSpec>)
    requires
        consuming.len() == mutating.len(),
    ensures
        res.deep_view() == paired(consuming.deep_view(), mutating.deep_view()),
{
    let mut out: Vec<MethodSpec> = Vec::new();
    let mut j: usize = 0;
    while j < consuming.len()
        invariant
            j <= consuming.len(),
            consuming.len() == mutating.len(),
            out.len() == 2 * j,
            forall|i: int|
                0 <= i < 2 * j ==> (#[trigger] out[i]).deep_view() == paired(
                    consuming.deep_view(),
                    mutating.deep_view(),
                )[i],
        decreases consuming.len() - j,
    {
        out.push(clone_method(&consuming[j]));
        out.push(clone_method(&mutating[j]));
        j += 1;
    }
    assert(out.deep_view() =~= paired(consuming.deep_view(), mutating.deep_view()));
    out
}

/// The type that the methods of a declaration belong to: the declaration's
/// own name and its generic parameters, bounds included, as they stand.
pub open spec fn owner_of(decl: RecordDeclarationModel) -> OwnerRefModel {
    OwnerRefModel { name: decl.name, generics: decl.generics }
}

/// The methods of a struct with named fields whose directives can be read.
/// Method `2 * j` is the consuming method of the `j`-th field that gets
/// methods, and method `2 * j + 1` is its mutating method.
pub open spec fn generated_methods(decl: RecordDeclarationModel) -> Seq<MethodSpecModel> {
    let owner = owner_of(decl);
    let global = resolve_global(smelter_entries(decl.attributes));
    let kept = emitted_fields(decl.fields);
    Seq::new(
        (2 * kept.len()) as nat,
        |i: int|
            method_for(
                owner,
                global,
                kept[i / 2],
                if i % 2 == 0 {
                    Mutability::Consuming
                } else {
                    Mutability::Mutating
                },
            ),
    )
}

/// What expanding a declaration gives. The shape is looked at first, then
/// the directives of the type, then those of the fields.
pub open spec fn expansion(decl: RecordDeclarationModel) -> Result<
    Seq<MethodSpecModel>,
    ExpandError,
> {
    if decl.kind != DeclarationKind::Record {
        Err(ExpandError::UnsupportedDeclarationKind)
    } else if !global_ok(decl.attributes) || !fields_ok(decl.fields) {
        Err(ExpandError::MalformedDirective)
    } else {
        Ok(generated_methods(decl))
    }
}

/// The outcome of a run, with the methods read as their models.
pub open spec fn outcome_model(res: Result<Vec<MethodSpec>, ExpandError>) -> Result<
    Seq<MethodSpecModel>,
    ExpandError,
> {
    match res {
        Ok(methods) => Ok(methods.deep_view()),
        Err(e) => Err(e),
    }
}

/// `res` is what expanding `decl` gives.
pub open spec fn expands_to(
    decl: RecordDeclarationModel,
    res: Result<Vec<MethodSpec>, ExpandError>,
) -> bool {
    outcome_model(res) == expansion(decl)
}

/// Generates the builder methods of a declaration.
///
/// Fails with `UnsupportedDeclarationKind` unless the declaration is a
/// struct with named fields, and with `MalformedDirective` where a
/// directive of the type or of a field cannot be read.
pub fn expand_methods(ast: &RecordDeclaration) -> (res: Result<Vec<MethodSpec>, ExpandError>)
    ensures
        expands_to(ast.deep_view(), res),
{
    match ast.kind {
        DeclarationKind::Record => {},
        _ => {
            return Err(ExpandError::UnsupportedDeclarationKind);
        },
    }
    let attr_data = match GlobalAttrData::from_attributes(&ast.attributes) {
        Ok(found) => found,
        Err(e) => {
            return Err(e);
        },
    };
    let gen_data = CodeGenData {
        attr_data: &attr_data,
        struct_name: &ast.name,
        ty_generics: &ast.generics,
    };
    let immutable_build_methods = match expand_immutable(&gen_data, &ast.fields) {
        Ok(methods) => methods,
        Err(e) => {
            return Err(e);
        },
    };
    let mutable_build_methods = match expand_mutable(&gen_data, &ast.fields) {
        Ok(methods) => methods,
        Err(e) => {
            return Err(e);
        },
    };
    proof {
        let kept = emitted_fields(ast.fields.deep_view());
        assert(immutable_build_methods.deep_view().len() == kept.len());
        assert(mutable_build_methods.deep_view().len() == kept.len());
    }
    let methods = interleave(&immutable_build_methods, &mutable_build_methods);
    assert(methods.deep_view() =~= generated_methods(ast.deep_view()));
    Ok(methods)
}

/// A declaration together with the methods generated for it.
#[derive(Debug, Clone, PartialEq, Eq)]
pub struct Expansion {
    /// The declaration as it came in.
    pub declaration: RecordDeclaration,
    pub methods: Vec<MethodSpec>,
}

/// Expands a declaration: hands it back unchanged, with its builder
/// methods beside it. Fails as `expand_methods` does, and then returns
/// nothing else.
pub fn expand_builder(ast: RecordDeclaration) -> (res: Result<Expansion, ExpandError>)
    ensures
        match res {
            Ok(expanded) => expanded.declaration == ast && expansion(ast.deep_view()) == Ok::<
                Seq<MethodSpecModel>,
                ExpandError,
            >(expanded.methods.deep_view()),
            Err(e) => expansion(ast.deep_view()) == Err::<Seq<MethodSpecModel>, ExpandError>(e),
        },
{
    match expand_methods(&ast) {
        Ok(methods) => Ok(Expansion { declaration: ast, methods }),
        Err(e) => Err(e),
    }
}

} // verus!
