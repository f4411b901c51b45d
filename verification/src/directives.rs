//! Reading `smelter` directives out of attribute lists.
//!
//! The extractor keeps the items of every `#[smelter(..)]` attribute, in
//! order. The two resolvers fold those items, left to right, into the
//! settings of a type and of a field; a later item overrides an earlier one.

use vstd::prelude::*;
use crate::model::{
    is_named, Attribute, AttributeModel, DirectiveEntry, DirectiveEntryModel, DirectiveValue,
    DirectiveValueModel, ExpandError,
};

verus! {

/// The identifier under which directives are written.
pub open spec fn namespace() -> Seq<char> {
    "smelter"@
}

/// Every attribute under the namespace is list-shaped.
pub open spec fn well_shaped(attrs: Seq<AttributeModel>) -> bool {
    forall|i: int|
        0 <= i < attrs.len() && (#[trigger] attrs[i]).name() == namespace() ==> attrs[i] is List
}

/// The items that one attribute contributes: its own, if it is a list under
/// the namespace, and none otherwise.
pub open spec fn entries_of(attr: AttributeModel) -> Seq<DirectiveEntryModel> {
    match attr {
        AttributeModel::List(name, items) => if name == namespace() {
            items
        } else {
            Seq::empty()
        },
        _ => Seq::empty(),
    }
}

/// The items of all attributes under the namespace, concatenated in order.
pub open spec fn smelter_entries(attrs: Seq<AttributeModel>) -> Seq<DirectiveEntryModel>
    decreases attrs.len(),
{
    if attrs.len() == 0 {
        Seq::empty()
    } else {
        smelter_entries(attrs.drop_last()) + entries_of(attrs.last())
    }
}

/// A copy of one directive item.
pub fn clone_entry(entry: &DirectiveEntry) -> (res: DirectiveEntry)
    ensures
        res.deep_view() == entry.deep_view(),
{
    match entry {
        DirectiveEntry::Flag(name) => DirectiveEntry::Flag(name.clone()),
        DirectiveEntry::KeyValue(key, value) => {
            let copied = match value {
                DirectiveValue::Text(s) => DirectiveValue::Text(s.clone()),
                DirectiveValue::Switch(b) => DirectiveValue::Switch(*b),
                DirectiveValue::Other => DirectiveValue::Other,
            };
            DirectiveEntry::KeyValue(key.clone(), copied)
        },
        DirectiveEntry::Inert => DirectiveEntry::Inert,
    }
}

/// Collects the directive items of an attribute list.
///
/// Attributes under other names are passed over. An attribute under the
/// namespace that is not a list makes the whole list malformed.
pub fn get_smelter_attributes(attrs: &Vec<Attribute>) -> (res: Result<
    Vec<DirectiveEntry>,
    ExpandError,
>)
    ensures
        well_shaped(attrs.deep_view()) ==> res is Ok && res->Ok_0.deep_view() == smelter_entries(
            attrs.deep_view(),
        ),
        !well_shaped(attrs.deep_view()) ==> res == Err::<Vec<DirectiveEntry>, ExpandError>(
            ExpandError::MalformedDirective,
        ),
{
    let ghost all = attrs.deep_view();
    let mut out: Vec<DirectiveEntry> = Vec::new();
    let mut i: usize = 0;
    assert(out.deep_view() =~= smelter_entries(all.take(0)));
    while i < attrs.len()
        invariant
            i <= attrs.len(),
            all == attrs.deep_view(),
            well_shaped(all.take(i as int)),
            out.deep_view() == smelter_entries(all.take(i as int)),
        decreases attrs.len() - i,
    {
        let ghost before = out.deep_view();
        assert(all.take(i + 1).drop_last() =~= all.take(i as int));
        assert(all.take(i + 1).last() == all[i as int]);
        match &attrs[i] {
            Attribute::List(name, items) => {
                if is_named(name, "smelter") {
                    let mut k: usize = 0;
                    while k < items.len()
                        invariant
                            k <= items.len(),
                            out.deep_view() == before + items.deep_view().take(k as int),
                        decreases items.len() - k,
                    {
                        let ghost prior = out.deep_view();
                        out.push(clone_entry(&items[k]));
                        assert(out.deep_view() =~= prior.push(items[k as int].deep_view()));
                        assert(items.deep_view().take(k + 1) =~= items.deep_view().take(
                            k as int,
                        ).push(items[k as int].deep_view()));
                        k += 1;
                    }
                    assert(items.deep_view().take(items.len() as int) =~= items.deep_view());
                } else {
                    assert(out.deep_view() + Seq::<DirectiveEntryModel>::empty()
                        =~= out.deep_view());
                }
            },
            Attribute::Word(name) => {
                if is_named(name, "smelter") {
                    assert(!(all[i as int] is List));
                    return Err(ExpandError::MalformedDirective);
                }
                assert(out.deep_view() + Seq::<DirectiveEntryModel>::empty() =~= out.deep_view());
            },
            Attribute::NameValue(name) => {
                if is_named(name, "smelter") {
                    assert(!(all[i as int] is List));
                    return Err(ExpandError::MalformedDirective);
                }
                assert(out.deep_view() + Seq::<DirectiveEntryModel>::empty() =~= out.deep_view());
            },
        }
        i += 1;
    }
    assert(all.take(attrs.len() as int) =~= all);
    Ok(out)
}

/// The settings of a whole type.
#[derive(Debug, Clone, PartialEq, Eq)]
pub struct GlobalAttrData {
    /// What every method name of the type starts with, if anything.
    pub default_prefix: Option<String>,
}

pub struct GlobalAttrModel {
    pub default_prefix: Option<Seq<char>>,
}

impl DeepView for GlobalAttrData {
    type V = GlobalAttrModel;

    open spec fn deep_view(&self) -> GlobalAttrModel {
        GlobalAttrModel { default_prefix: self.default_prefix.deep_view() }
    }
}

/// The settings of a type after one more item: `prefix = "text"` replaces
/// the prefix, and anything else leaves the settings as they are.
pub open spec fn global_step(acc: GlobalAttrModel, entry: DirectiveEntryModel) -> GlobalAttrModel {
    match entry {
        DirectiveEntryModel::KeyValue(key, DirectiveValueModel::Text(text)) => if key
            == "prefix"@ {
            GlobalAttrModel { default_prefix: Some(text) }
        } else {
            acc
        },
        _ => acc,
    }
}

/// The settings of a type that carries these items.
pub open spec fn resolve_global(entries: Seq<DirectiveEntryModel>) -> GlobalAttrModel {
    entries.fold_left(
        GlobalAttrModel { default_prefix: None },
        |acc: GlobalAttrModel, entry: DirectiveEntryModel| global_step(acc, entry),
    )
}

/// `prefix` is given a value that is not a string.
pub open spec fn misuses_type_key(entry: DirectiveEntryModel) -> bool {
    match entry {
        DirectiveEntryModel::KeyValue(key, value) => key == "prefix"@ && !(value is Text),
        _ => false,
    }
}

/// Some item gives `prefix` a value that is not a string.
pub open spec fn global_malformed(entries: Seq<DirectiveEntryModel>) -> bool {
    exists|i: int| 0 <= i < entries.len() && misuses_type_key(#[trigger] entries[i])
}

impl GlobalAttrData {
    /// Folds directive items into the settings of a type.
    pub fn from_entries(entries: &Vec<DirectiveEntry>) -> (res: Result<
        GlobalAttrData,
        ExpandError,
    >)
        ensures
            !global_malformed(entries.deep_view()) ==> res is Ok && res->Ok_0.deep_view()
                == resolve_global(entries.deep_view()),
            global_malformed(entries.deep_view()) ==> res == Err::<GlobalAttrData, ExpandError>(
                ExpandError::MalformedDirective,
            ),
    {
        let ghost all = entries.deep_view();
        let mut data = GlobalAttrData { default_prefix: None };
        let mut i: usize = 0;
        while i < entries.len()
            invariant
                i <= entries.len(),
                all == entries.deep_view(),
                !global_malformed(all.take(i as int)),
                data.deep_view() == resolve_global(all.take(i as int)),
            decreases entries.len() - i,
        {
            assert(all.take(i + 1).drop_last() =~= all.take(i as int));
            assert(all.take(i + 1).last() == all[i as int]);
            match &entries[i] {
                DirectiveEntry::KeyValue(key, value) => {
                    if is_named(key, "prefix") {
                        match value {
                            DirectiveValue::Text(text) => {
                                data.default_prefix = Some(text.clone());
                            },
                            _ => {
                                assert(misuses_type_key(all[i as int]));
                                return Err(ExpandError::MalformedDirective);
                            },
                        }
                    }
                },
                _ => {},
            }
            assert forall|j: int| 0 <= j < i + 1 implies !misuses_type_key(
                #[trigger] all.take(i + 1)[j],
            ) by {
                if j < i {
                    assert(all.take(i as int)[j] == all[j]);
                }
            }
            i += 1;
        }
        assert(all.take(entries.len() as int) =~= all);
        Ok(data)
    }

    /// Reads the settings of a type from its attributes.
    pub fn from_attributes(attrs: &Vec<Attribute>) -> (res: Result<GlobalAttrData, ExpandError>)
        ensures
            global_ok(attrs.deep_view()) ==> res is Ok && res->Ok_0.deep_view() == resolve_global(
                smelter_entries(attrs.deep_view()),
            ),
            !global_ok(attrs.deep_view()) ==> res == Err::<GlobalAttrData, ExpandError>(
                ExpandError::MalformedDirective,
            ),
    {
        match get_smelter_attributes(attrs) {
            Ok(entries) => GlobalAttrData::from_entries(&entries),
            Err(e) => Err(e),
        }
    }
}

/// The attributes of a type can be read: every attribute under the
/// namespace is a list, and `prefix` holds a string wherever it is given.
pub open spec fn global_ok(attrs: Seq<AttributeModel>) -> bool {
    well_shaped(attrs) && !global_malformed(smelter_entries(attrs))
}

/// The settings of one field.
#[derive(Debug, Clone, PartialEq, Eq)]
pub struct FieldAttrData {
    /// The name that takes the place of the field's own in method names.
    /// An empty string is a name like any other: it is kept, and the
    /// method names are then made of prefix and suffix alone.
    pub field_name: Option<String>,
    /// Whether methods are generated for the field at all.
    pub create_field: bool,
    /// Whether the methods are public whatever the field is.
    pub force_public: bool,
}

pub struct FieldAttrModel {
    pub field_name: Option<Seq<char>>,
    pub create_field: bool,
    pub force_public: bool,
}

impl DeepView for FieldAttrData {
    type V = FieldAttrModel;

    open spec fn deep_view(&self) -> FieldAttrModel {
        FieldAttrModel {
            field_name: self.field_name.deep_view(),
            create_field: self.create_field,
            force_public: self.force_public,
        }
    }
}

impl FieldAttrModel {
    /// The settings of a field without directives: methods are generated,
    /// under the field's own name and with its visibility.
    pub open spec fn initial() -> FieldAttrModel {
        FieldAttrModel { field_name: None, create_field: true, force_public: false }
    }
}

/// The settings of a field after one more item. `field_name = "text"` sets
/// the name, `should_create = bool` sets whether methods are generated, the
/// word `force_public` makes them public; anything else changes nothing.
pub open spec fn field_step(acc: FieldAttrModel, entry: DirectiveEntryModel) -> FieldAttrModel {
    match entry {
        DirectiveEntryModel::KeyValue(key, DirectiveValueModel::Text(text)) => if key
            == "field_name"@ {
            FieldAttrModel { field_name: Some(text), ..acc }
        } else {
            acc
        },
        DirectiveEntryModel::KeyValue(key, DirectiveValueModel::Switch(on)) => if key
            == "should_create"@ {
            FieldAttrModel { create_field: on, ..acc }
        } else {
            acc
        },
        DirectiveEntryModel::Flag(word) => if word == "force_public"@ {
            FieldAttrModel { force_public: true, ..acc }
        } else {
            acc
        },
        _ => acc,
    }
}

/// The settings of a field that carries these items.
pub open spec fn resolve_field(entries: Seq<DirectiveEntryModel>) -> FieldAttrModel {
    entries.fold_left(
        FieldAttrModel::initial(),
        |acc: FieldAttrModel, entry: DirectiveEntryModel| field_step(acc, entry),
    )
}

/// `field_name` is given a value that is not a string, or `should_create`
/// one that is not a boolean.
pub open spec fn misuses_field_key(entry: DirectiveEntryModel) -> bool {
    match entry {
        DirectiveEntryModel::KeyValue(key, value) => (key == "field_name"@ && !(value is Text))
            || (key == "should_create"@ && !(value is Switch)),
        _ => false,
    }
}

/// The two keys of the field level are different words.
pub proof fn lemma_field_keys_differ()
    ensures
        "field_name"@ != "should_create"@,
{
    reveal_strlit("field_name");
    reveal_strlit("should_create");
    assert("field_name"@.len() != "should_create"@.len());
}

/// Some item gives a key of the field level a value of the wrong shape.
pub open spec fn field_malformed(entries: Seq<DirectiveEntryModel>) -> bool {
    exists|i: int| 0 <= i < entries.len() && misuses_field_key(#[trigger] entries[i])
}

/// The attributes of a field can be read: every attribute under the
/// namespace is a list, and no key holds a value of the wrong shape.
pub open spec fn field_ok(attrs: Seq<AttributeModel>) -> bool {
    well_shaped(attrs) && !field_malformed(smelter_entries(attrs))
}

impl FieldAttrData {
    /// Folds directive items into the settings of a field.
    pub fn from_entries(entries: &Vec<DirectiveEntry>) -> (res: Result<FieldAttrData, ExpandError>)
        ensures
            !field_malformed(entries.deep_view()) ==> res is Ok && res->Ok_0.deep_view()
                == resolve_field(entries.deep_view()),
            field_malformed(entries.deep_view()) ==> res == Err::<FieldAttrData, ExpandError>(
                ExpandError::MalformedDirective,
            ),
    {
        let ghost all = entries.deep_view();
        let mut data = FieldAttrData { field_name: None, create_field: true, force_public: false };
        let mut i: usize = 0;
        while i < entries.len()
            invariant
                i <= entries.len(),
                all == entries.deep_view(),
                !field_malformed(all.take(i as int)),
                data.deep_view() == resolve_field(all.take(i as int)),
            decreases entries.len() - i,
        {
            assert(all.take(i + 1).drop_last() =~= all.take(i as int));
            assert(all.take(i + 1).last() == all[i as int]);
            match &entries[i] {
                DirectiveEntry::KeyValue(key, value) => {
                    let names_field = is_named(key, "field_name");
                    let names_switch = is_named(key, "should_create");
                    match value {
                        DirectiveValue::Text(text) => {
                            if names_field {
                                data.field_name = Some(text.clone());
                            } else if names_switch {
                                assert(misuses_field_key(all[i as int]));
                                return Err(ExpandError::MalformedDirective);
                            }
                        },
                        DirectiveValue::Switch(on) => {
                            if names_field {
                                assert(misuses_field_key(all[i as int]));
                                return Err(ExpandError::MalformedDirective);
                            } else if names_switch {
                                data.create_field = *on;
                            }
                        },
                        DirectiveValue::Other => {
                            if names_field || names_switch {
                                assert(misuses_field_key(all[i as int]));
                                return Err(ExpandError::MalformedDirective);
                            }
                        },
                    }
                },
                DirectiveEntry::Flag(word) => {
                    if is_named(word, "force_public") {
                        data.force_public = true;
                    }
                },
                DirectiveEntry::Inert => {},
            }
            assert forall|j: int| 0 <= j < i + 1 implies !misuses_field_key(
                #[trigger] all.take(i + 1)[j],
            ) by {
                lemma_field_keys_differ();
                if j < i {
                    assert(all.take(i as int)[j] == all[j]);
                }
            }
            i += 1;
        }
        assert(all.take(entries.len() as int) =~= all);
        Ok(data)
    }

    /// Reads the settings of a field from its attributes.
    pub fn from_attributes(attrs: &Vec<Attribute>) -> (res: Result<FieldAttrData, ExpandError>)
        ensures
            field_ok(attrs.deep_view()) ==> res is Ok && res->Ok_0.deep_view() == resolve_field(
                smelter_entries(attrs.deep_view()),
            ),
            !field_ok(attrs.deep_view()) ==> res == Err::<FieldAttrData, ExpandError>(
                ExpandError::MalformedDirective,
            ),
    {
        match get_smelter_attributes(attrs) {
            Ok(entries) => FieldAttrData::from_entries(&entries),
            Err(e) => Err(e),
        }
    }
}

} // verus!
