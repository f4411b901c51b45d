//! What holds of every expansion.

use vstd::prelude::*;
use crate::code_gen::{
    emits, emits_pred, emitted_fields, expands_to, expansion, outcome_model,
};
use crate::directives::{resolve_field, resolve_global, smelter_entries};
use crate::model::{
    DeclarationKind, DirectiveEntryModel, DirectiveValueModel, ExpandError,
    FieldDeclarationModel, MethodSpec, MethodSpecModel, Mutability, RecordDeclarationModel,
    Visibility,
};
use crate::naming::mutating_suffix;

verus! {

/// Expanding is a function of the declaration: two runs on the same
/// declaration end in the same error or in the same list of methods.
pub proof fn lemma_expansion_is_deterministic(
    decl: RecordDeclarationModel,
    first: Result<Vec<MethodSpec>, ExpandError>,
    second: Result<Vec<MethodSpec>, ExpandError>,
)
    requires
        expands_to(decl, first),
        expands_to(decl, second),
    ensures
        outcome_model(first) == outcome_model(second),
{
}

/// A field whose settings suppress its methods.
pub open spec fn suppressed_pred() -> spec_fn(FieldDeclarationModel) -> bool {
    |field: FieldDeclarationModel| !emits(field)
}

/// The fields that get no methods, in the order of the declaration.
pub open spec fn suppressed_fields(fields: Seq<FieldDeclarationModel>) -> Seq<
    FieldDeclarationModel,
> {
    fields.filter(suppressed_pred())
}

/// Every field either gets methods or is suppressed.
pub proof fn lemma_fields_split(fields: Seq<FieldDeclarationModel>)
    ensures
        emitted_fields(fields).len() + suppressed_fields(fields).len() == fields.len(),
    decreases fields.len(),
{
    reveal(Seq::filter);
    if fields.len() > 0 {
        lemma_fields_split(fields.drop_last());
    }
}

/// A declaration with `N` fields, `k` of them suppressed, expands to
/// `2 * (N - k)` methods.
pub proof fn lemma_method_count(decl: RecordDeclarationModel)
    requires
        expansion(decl) is Ok,
    ensures
        expansion(decl)->Ok_0.len() == 2 * (decl.fields.len() - suppressed_fields(
            decl.fields,
        ).len()),
{
    lemma_fields_split(decl.fields);
}

/// The two methods of a field stand side by side, the consuming one first.
/// They set the same field, take the same type, carry the same visibility,
/// and their names differ by the suffix `_mut` alone. Where the field's
/// settings force it, both are public.
pub proof fn lemma_methods_come_in_pairs(decl: RecordDeclarationModel, j: int)
    requires
        expansion(decl) is Ok,
        0 <= j < emitted_fields(decl.fields).len(),
    ensures
        ({
            let methods = expansion(decl)->Ok_0;
            let field = emitted_fields(decl.fields)[j];
            let consuming = methods[2 * j];
            let mutating = methods[2 * j + 1];
            &&& 2 * j + 1 < methods.len()
            &&& consuming.mutability == Mutability::Consuming
            &&& mutating.mutability == Mutability::Mutating
            &&& consuming.field == field.name
            &&& mutating.field == field.name
            &&& consuming.field_type == field.ty
            &&& mutating.field_type == field.ty
            &&& consuming.visibility == mutating.visibility
            &&& mutating.name == consuming.name + mutating_suffix()
            &&& resolve_field(smelter_entries(field.attributes)).force_public
                ==> consuming.visibility == Visibility::Public
            &&& field.visibility == Visibility::Public ==> consuming.visibility
                == Visibility::Public
        }),
{
}

/// A field that gets methods is a field of the declaration, and its
/// settings do ask for them.
pub proof fn lemma_emitted_field_is_declared(decl: RecordDeclarationModel, j: int)
    requires
        0 <= j < emitted_fields(decl.fields).len(),
    ensures
        decl.fields.contains(emitted_fields(decl.fields)[j]),
        emits(emitted_fields(decl.fields)[j]),
{
    decl.fields.lemma_filter_pred(emits_pred(), j);
    decl.fields.lemma_filter_contains_rev(emits_pred(), emitted_fields(decl.fields)[j]);
}

/// Every method belongs to the declared type, with the declaration's
/// generic parameters and their bounds as they stand.
pub proof fn lemma_generics_pass_through(decl: RecordDeclarationModel, i: int)
    requires
        expansion(decl) is Ok,
        0 <= i < expansion(decl)->Ok_0.len(),
    ensures
        expansion(decl)->Ok_0[i].owner.name == decl.name,
        expansion(decl)->Ok_0[i].owner.generics == decl.generics,
{
}

/// An enumeration, a tuple struct and a unit struct are refused, whatever
/// else they hold.
pub proof fn lemma_other_kinds_are_refused(decl: RecordDeclarationModel)
    requires
        decl.kind != DeclarationKind::Record,
    ensures
        expansion(decl) == Err::<Seq<MethodSpecModel>, ExpandError>(
            ExpandError::UnsupportedDeclarationKind,
        ),
{
}

/// Fields that get methods stand in the order that they have in the
/// declaration.
pub proof fn lemma_field_order_is_kept(fields: Seq<FieldDeclarationModel>, a: int, b: int)
    requires
        0 <= a < b < emitted_fields(fields).len(),
    ensures
        exists|p: int, q: int|
            0 <= p < q < fields.len() && fields[p] == emitted_fields(fields)[a] && fields[q]
                == emitted_fields(fields)[b],
    decreases fields.len(),
{
    reveal(Seq::filter);
    if fields.len() > 0 {
        let front = fields.drop_last();
        let kept = emitted_fields(front);
        if b < kept.len() {
            lemma_field_order_is_kept(front, a, b);
            let (p, q) = choose|p: int, q: int|
                0 <= p < q < front.len() && front[p] == kept[a] && front[q] == kept[b];
            assert(fields[p] == emitted_fields(fields)[a] && fields[q] == emitted_fields(
                fields,
            )[b]);
        } else {
            front.lemma_filter_contains_rev(emits_pred(), kept[a]);
            let p = choose|p: int| 0 <= p < front.len() && front[p] == kept[a];
            let q = fields.len() - 1;
            assert(fields[p] == emitted_fields(fields)[a] && fields[q] == emitted_fields(
                fields,
            )[b]);
        }
    }
}

/// The item gives the type a prefix.
pub open spec fn sets_prefix(entry: DirectiveEntryModel) -> bool {
    match entry {
        DirectiveEntryModel::KeyValue(key, DirectiveValueModel::Text(_)) => key == "prefix"@,
        _ => false,
    }
}

/// The last item that gives a prefix decides it.
pub proof fn lemma_last_prefix_wins(entries: Seq<DirectiveEntryModel>, at: int, text: Seq<char>)
    requires
        0 <= at < entries.len(),
        entries[at] == DirectiveEntryModel::KeyValue("prefix"@, DirectiveValueModel::Text(text)),
        forall|j: int| at < j < entries.len() ==> !sets_prefix(#[trigger] entries[j]),
    ensures
        resolve_global(entries).default_prefix == Some(text),
    decreases entries.len(),
{
    if at < entries.len() - 1 {
        let front = entries.drop_last();
        assert(forall|j: int| at < j < front.len() ==> front[j] == entries[j]);
        lemma_last_prefix_wins(front, at, text);
        assert(!sets_prefix(entries[entries.len() - 1]));
    }
}

/// A type without an item that gives a prefix has none.
pub proof fn lemma_no_prefix_by_default(entries: Seq<DirectiveEntryModel>)
    requires
        forall|j: int| 0 <= j < entries.len() ==> !sets_prefix(#[trigger] entries[j]),
    ensures
        resolve_global(entries).default_prefix is None,
    decreases entries.len(),
{
    if entries.len() > 0 {
        let front = entries.drop_last();
        assert(forall|j: int| 0 <= j < front.len() ==> front[j] == entries[j]);
        lemma_no_prefix_by_default(front);
        assert(!sets_prefix(entries[entries.len() - 1]));
    }
}

/// The item gives the field a custom name.
pub open spec fn sets_field_name(entry: DirectiveEntryModel) -> bool {
    match entry {
        DirectiveEntryModel::KeyValue(key, DirectiveValueModel::Text(_)) => key == "field_name"@,
        _ => false,
    }
}

/// The item says whether the field gets methods.
pub open spec fn sets_should_create(entry: DirectiveEntryModel) -> bool {
    match entry {
        DirectiveEntryModel::KeyValue(key, DirectiveValueModel::Switch(_)) => key
            == "should_create"@,
        _ => false,
    }
}

/// The last item that gives a custom name decides it.
pub proof fn lemma_last_field_name_wins(
    entries: Seq<DirectiveEntryModel>,
    at: int,
    text: Seq<char>,
)
    requires
        0 <= at < entries.len(),
        entries[at] == DirectiveEntryModel::KeyValue(
            "field_name"@,
            DirectiveValueModel::Text(text),
        ),
        forall|j: int| at < j < entries.len() ==> !sets_field_name(#[trigger] entries[j]),
    ensures
        resolve_field(entries).field_name == Some(text),
    decreases entries.len(),
{
    if at < entries.len() - 1 {
        let front = entries.drop_last();
        assert(forall|j: int| at < j < front.len() ==> front[j] == entries[j]);
        lemma_last_field_name_wins(front, at, text);
        assert(!sets_field_name(entries[entries.len() - 1]));
    }
}

/// The last item that says whether the field gets methods decides it.
pub proof fn lemma_last_should_create_wins(entries: Seq<DirectiveEntryModel>, at: int, on: bool)
    requires
        0 <= at < entries.len(),
        entries[at] == DirectiveEntryModel::KeyValue(
            "should_create"@,
            DirectiveValueModel::Switch(on),
        ),
        forall|j: int| at < j < entries.len() ==> !sets_should_create(#[trigger] entries[j]),
    ensures
        resolve_field(entries).create_field == on,
    decreases entries.len(),
{
    if at < entries.len() - 1 {
        let front = entries.drop_last();
        assert(forall|j: int| at < j < front.len() ==> front[j] == entries[j]);
        lemma_last_should_create_wins(front, at, on);
        assert(!sets_should_create(entries[entries.len() - 1]));
    }
}

/// A field without directives on the matter keeps its own name, gets
/// methods, and lends them its own visibility.
pub proof fn lemma_field_defaults(entries: Seq<DirectiveEntryModel>)
    ensures
        (forall|j: int| 0 <= j < entries.len() ==> !sets_field_name(#[trigger] entries[j]))
            ==> resolve_field(entries).field_name is None,
        (forall|j: int| 0 <= j < entries.len() ==> !sets_should_create(#[trigger] entries[j]))
            ==> resolve_field(entries).create_field,
        resolve_field(entries).force_public <==> entries.contains(
            DirectiveEntryModel::Flag("force_public"@),
        ),
    decreases entries.len(),
{
    if entries.len() > 0 {
        let front = entries.drop_last();
        let last = entries[entries.len() - 1];
        assert(forall|j: int| 0 <= j < front.len() ==> front[j] == entries[j]);
        lemma_field_defaults(front);
        let flag = DirectiveEntryModel::Flag("force_public"@);
        if front.contains(flag) {
            let k = choose|k: int| 0 <= k < front.len() && front[k] == flag;
            assert(entries[k] == flag);
        }
        if last == flag {
            assert(entries[entries.len() - 1] == flag);
        }
        if entries.contains(flag) && last != flag {
            let k = choose|k: int| 0 <= k < entries.len() && entries[k] == flag;
            assert(front[k] == flag);
        }
        assert(!sets_field_name(last) ==> resolve_field(entries).field_name == resolve_field(
            front,
        ).field_name);
    }
}

} // verus!
