use smelter::code_gen::{
    expand_builder, expand_immutable, expand_methods, expand_mutable, CodeGenData,
};
use smelter::directives::GlobalAttrData;
use smelter::instance::{Instance, Slot};
use smelter::model::{
    clone_generics, clone_method, clone_strings, is_named, Attribute, DeclarationKind,
    DirectiveEntry, DirectiveValue, ExpandError, FieldDeclaration, GenericParam, MethodSpec,
    Mutability, OwnerRef, RecordDeclaration, Visibility,
};

fn smelter_list(items: Vec<DirectiveEntry>) -> Attribute {
    Attribute::List("smelter".to_string(), items)
}

fn key_text(key: &str, value: &str) -> DirectiveEntry {
    DirectiveEntry::KeyValue(key.to_string(), DirectiveValue::Text(value.to_string()))
}

fn key_switch(key: &str, value: bool) -> DirectiveEntry {
    DirectiveEntry::KeyValue(key.to_string(), DirectiveValue::Switch(value))
}

fn decl_field(
    name: &str,
    ty: &str,
    visibility: Visibility,
    items: Vec<DirectiveEntry>,
) -> FieldDeclaration {
    let attributes = if items.is_empty() { vec![] } else { vec![smelter_list(items)] };
    FieldDeclaration { name: name.to_string(), ty: ty.to_string(), visibility, attributes }
}

fn declaration(kind: DeclarationKind, fields: Vec<FieldDeclaration>) -> RecordDeclaration {
    RecordDeclaration {
        name: "Sample".to_string(),
        kind,
        fields,
        generics: vec![],
        attributes: vec![],
    }
}

fn method_names(methods: &[MethodSpec]) -> Vec<String> {
    methods.iter().map(|m| m.name.clone()).collect()
}

fn three_fields_one_suppressed() -> RecordDeclaration {
    declaration(
        DeclarationKind::Record,
        vec![
            decl_field("first", "u8", Visibility::Inherited, vec![]),
            decl_field(
                "hidden",
                "u16",
                Visibility::Public,
                vec![key_switch("should_create", false)],
            ),
            decl_field("last", "u32", Visibility::Inherited, vec![]),
        ],
    )
}

#[test]
fn method_count_is_twice_the_emitted_fields() {
    let methods = expand_methods(&three_fields_one_suppressed()).unwrap();
    assert_eq!(methods.len(), 2 * (3 - 1));
    let all = declaration(
        DeclarationKind::Record,
        vec![
            decl_field("a", "u8", Visibility::Inherited, vec![]),
            decl_field("b", "u8", Visibility::Inherited, vec![]),
        ],
    );
    assert_eq!(expand_methods(&all).unwrap().len(), 4);
    let none = declaration(
        DeclarationKind::Record,
        vec![decl_field("a", "u8", Visibility::Inherited, vec![key_switch("should_create", false)])],
    );
    assert_eq!(expand_methods(&none).unwrap().len(), 0);
}

#[test]
fn suppressed_field_leaves_its_siblings_in_order() {
    let methods = expand_methods(&three_fields_one_suppressed()).unwrap();
    assert_eq!(method_names(&methods), vec!["first", "first_mut", "last", "last_mut"]);
    let fields: Vec<&str> = methods.iter().map(|m| m.field.as_str()).collect();
    assert_eq!(fields, vec!["first", "first", "last", "last"]);
    let types: Vec<&str> = methods.iter().map(|m| m.field_type.as_str()).collect();
    assert_eq!(types, vec!["u8", "u8", "u32", "u32"]);
}

#[test]
fn methods_alternate_between_the_two_forms() {
    let methods = expand_methods(&three_fields_one_suppressed()).unwrap();
    let forms: Vec<Mutability> = methods.iter().map(|m| m.mutability).collect();
    assert_eq!(
        forms,
        vec![
            Mutability::Consuming,
            Mutability::Mutating,
            Mutability::Consuming,
            Mutability::Mutating,
        ]
    );
}

#[test]
fn whole_method_is_described() {
    let ast = RecordDeclaration {
        name: "Pair".to_string(),
        kind: DeclarationKind::Record,
        fields: vec![decl_field(
            "left",
            "Option<T>",
            Visibility::Inherited,
            vec![key_text("field_name", "l"), DirectiveEntry::Flag("force_public".to_string())],
        )],
        generics: vec![GenericParam { name: "T".to_string(), constraints: vec!["Eq".to_string()] }],
        attributes: vec![smelter_list(vec![key_text("prefix", "set_")])],
    };
    let owner = OwnerRef {
        name: "Pair".to_string(),
        generics: vec![GenericParam { name: "T".to_string(), constraints: vec!["Eq".to_string()] }],
    };
    let expected = vec![
        MethodSpec {
            name: "set_l".to_string(),
            mutability: Mutability::Consuming,
            owner: owner.clone(),
            field: "left".to_string(),
            field_type: "Option<T>".to_string(),
            visibility: Visibility::Public,
        },
        MethodSpec {
            name: "set_l_mut".to_string(),
            mutability: Mutability::Mutating,
            owner,
            field: "left".to_string(),
            field_type: "Option<T>".to_string(),
            visibility: Visibility::Public,
        },
    ];
    assert_eq!(expand_methods(&ast), Ok(expected));
}

#[test]
fn generics_pass_through_with_their_bounds() {
    let generics = vec![
        GenericParam { name: "'a".to_string(), constraints: vec![] },
        GenericParam { name: "T".to_string(), constraints: vec!["Eq".to_string()] },
        GenericParam {
            name: "U".to_string(),
            constraints: vec!["Clone".to_string(), "Default".to_string()],
        },
    ];
    let ast = RecordDeclaration {
        name: "Holder".to_string(),
        kind: DeclarationKind::Record,
        fields: vec![
            decl_field("one", "&'a T", Visibility::Inherited, vec![]),
            decl_field("two", "U", Visibility::Public, vec![]),
        ],
        generics: generics.clone(),
        attributes: vec![],
    };
    let methods = expand_methods(&ast).unwrap();
    assert_eq!(methods.len(), 4);
    for method in &methods {
        assert_eq!(method.owner.name, "Holder");
        assert_eq!(method.owner.generics, generics);
    }
}

#[test]
fn visibility_is_shared_by_both_forms() {
    let ast = declaration(
        DeclarationKind::Record,
        vec![
            decl_field("public_key", "A", Visibility::Public, vec![]),
            decl_field("private_key", "B", Visibility::Inherited, vec![]),
            decl_field(
                "r",
                "u32",
                Visibility::Inherited,
                vec![DirectiveEntry::Flag("force_public".to_string())],
            ),
        ],
    );
    let methods = expand_methods(&ast).unwrap();
    assert_eq!(
        method_names(&methods),
        vec!["public_key", "public_key_mut", "private_key", "private_key_mut", "r", "r_mut"]
    );
    let seen: Vec<Visibility> = methods.iter().map(|m| m.visibility).collect();
    assert_eq!(
        seen,
        vec![
            Visibility::Public,
            Visibility::Public,
            Visibility::Inherited,
            Visibility::Inherited,
            Visibility::Public,
            Visibility::Public,
        ]
    );
}

#[test]
fn other_kinds_are_refused() {
    let some_fields = vec![decl_field("a", "u8", Visibility::Inherited, vec![])];
    for kind in [DeclarationKind::Enumeration, DeclarationKind::Tuple, DeclarationKind::Unit] {
        let with_fields = declaration(kind, some_fields.clone());
        assert_eq!(expand_methods(&with_fields), Err(ExpandError::UnsupportedDeclarationKind));
        assert_eq!(expand_builder(with_fields), Err(ExpandError::UnsupportedDeclarationKind));
        let without = declaration(kind, vec![]);
        assert_eq!(expand_methods(&without), Err(ExpandError::UnsupportedDeclarationKind));
    }
}

#[test]
fn record_without_fields_expands_to_nothing() {
    let ast = declaration(DeclarationKind::Record, vec![]);
    assert_eq!(expand_methods(&ast), Ok(vec![]));
}

#[test]
fn shape_is_looked_at_before_the_directives() {
    let mut ast = declaration(
        DeclarationKind::Enumeration,
        vec![decl_field("a", "u8", Visibility::Inherited, vec![key_switch("field_name", true)])],
    );
    ast.attributes = vec![Attribute::Word("smelter".to_string())];
    assert_eq!(expand_methods(&ast), Err(ExpandError::UnsupportedDeclarationKind));
    ast.kind = DeclarationKind::Record;
    assert_eq!(expand_methods(&ast), Err(ExpandError::MalformedDirective));
}

#[test]
fn malformed_type_directive_stops_the_expansion() {
    let mut ast = three_fields_one_suppressed();
    ast.attributes = vec![smelter_list(vec![key_switch("prefix", true)])];
    assert_eq!(expand_methods(&ast), Err(ExpandError::MalformedDirective));
    assert_eq!(expand_builder(ast), Err(ExpandError::MalformedDirective));
}

#[test]
fn malformed_field_directive_stops_the_expansion() {
    let ast = declaration(
        DeclarationKind::Record,
        vec![
            decl_field("good", "u8", Visibility::Inherited, vec![]),
            decl_field(
                "bad",
                "u8",
                Visibility::Inherited,
                vec![key_switch("should_create", false), key_text("should_create", "no")],
            ),
        ],
    );
    assert_eq!(expand_methods(&ast), Err(ExpandError::MalformedDirective));
    let mut bare = declaration(
        DeclarationKind::Record,
        vec![decl_field("a", "u8", Visibility::Inherited, vec![])],
    );
    bare.fields[0].attributes = vec![Attribute::NameValue("smelter".to_string())];
    assert_eq!(expand_methods(&bare), Err(ExpandError::MalformedDirective));
}

#[test]
fn repeated_runs_agree() {
    let ast = three_fields_one_suppressed();
    let first = expand_methods(&ast);
    let second = expand_methods(&ast);
    assert_eq!(first, second);
    let copy = ast.clone();
    assert_eq!(expand_builder(ast).unwrap().methods, first.unwrap());
    assert_eq!(expand_methods(&copy), second);
}

#[test]
fn declaration_comes_back_unchanged() {
    let ast = three_fields_one_suppressed();
    let expanded = expand_builder(ast.clone()).unwrap();
    assert_eq!(expanded.declaration, ast);
    assert_eq!(Ok(expanded.methods), expand_methods(&ast));
}

#[test]
fn colliding_names_are_not_detected() {
    let ast = declaration(
        DeclarationKind::Record,
        vec![
            decl_field("a", "u8", Visibility::Inherited, vec![key_text("field_name", "same")]),
            decl_field("b", "u8", Visibility::Inherited, vec![key_text("field_name", "same")]),
        ],
    );
    let methods = expand_methods(&ast).unwrap();
    assert_eq!(method_names(&methods), vec!["same", "same_mut", "same", "same_mut"]);
}

#[test]
fn phases_list_one_form_each() {
    let global = GlobalAttrData { default_prefix: Some("with_".to_string()) };
    let name = "Sample".to_string();
    let generics: Vec<GenericParam> = vec![];
    let data = CodeGenData { attr_data: &global, struct_name: &name, ty_generics: &generics };
    let fields = three_fields_one_suppressed().fields;
    let consuming = expand_immutable(&data, &fields).unwrap();
    let mutating = expand_mutable(&data, &fields).unwrap();
    assert_eq!(method_names(&consuming), vec!["with_first", "with_last"]);
    assert_eq!(method_names(&mutating), vec!["with_first_mut", "with_last_mut"]);
    assert!(consuming.iter().all(|m| m.mutability == Mutability::Consuming));
    assert!(mutating.iter().all(|m| m.mutability == Mutability::Mutating));
}

fn sample_instance() -> Instance<i64> {
    Instance {
        slots: vec![
            Slot { name: "first".to_string(), value: 10 },
            Slot { name: "hidden".to_string(), value: 20 },
            Slot { name: "last".to_string(), value: 30 },
        ],
    }
}

#[test]
fn consuming_call_replaces_one_field() {
    let methods = expand_methods(&three_fields_one_suppressed()).unwrap();
    let updated = methods[2].apply(sample_instance(), 99).unwrap();
    let values: Vec<i64> = updated.slots.iter().map(|s| s.value).collect();
    assert_eq!(values, vec![10, 20, 99]);
    let slot_names: Vec<&str> = updated.slots.iter().map(|s| s.name.as_str()).collect();
    assert_eq!(slot_names, vec!["first", "hidden", "last"]);
}

#[test]
fn mutating_call_replaces_one_field_in_place() {
    let methods = expand_methods(&three_fields_one_suppressed()).unwrap();
    let mut receiver = sample_instance();
    assert!(methods[1].apply_mut(&mut receiver, -1));
    assert!(methods[3].apply_mut(&mut receiver, -3));
    let values: Vec<i64> = receiver.slots.iter().map(|s| s.value).collect();
    assert_eq!(values, vec![-1, 20, -3]);
}

#[test]
fn call_of_the_wrong_form_does_nothing() {
    let methods = expand_methods(&three_fields_one_suppressed()).unwrap();
    assert_eq!(methods[1].apply(sample_instance(), 1), None);
    let mut receiver = sample_instance();
    assert!(!methods[0].apply_mut(&mut receiver, 1));
    assert_eq!(receiver, sample_instance());
}

#[test]
fn call_on_a_value_without_the_field_does_nothing() {
    let methods = expand_methods(&three_fields_one_suppressed()).unwrap();
    let stranger = Instance { slots: vec![Slot { name: "other".to_string(), value: 1i64 }] };
    assert_eq!(methods[0].apply(stranger.clone(), 5), None);
    let mut receiver = stranger.clone();
    assert!(!methods[1].apply_mut(&mut receiver, 5));
    assert_eq!(receiver, stranger);
}

#[test]
fn call_sets_the_first_field_of_the_name() {
    let methods = expand_methods(&three_fields_one_suppressed()).unwrap();
    let twice = Instance {
        slots: vec![
            Slot { name: "last".to_string(), value: 1i64 },
            Slot { name: "last".to_string(), value: 2i64 },
        ],
    };
    let updated = methods[2].apply(twice, 7).unwrap();
    let values: Vec<i64> = updated.slots.iter().map(|s| s.value).collect();
    assert_eq!(values, vec![7, 2]);
}

#[test]
fn copies_equal_what_they_copy() {
    let strings = vec!["Eq".to_string(), String::new(), "Clone".to_string()];
    assert_eq!(clone_strings(&strings), strings);
    let generics = vec![
        GenericParam { name: "T".to_string(), constraints: strings.clone() },
        GenericParam { name: "'a".to_string(), constraints: vec![] },
    ];
    assert_eq!(clone_generics(&generics), generics);
    let methods = expand_methods(&three_fields_one_suppressed()).unwrap();
    assert_eq!(clone_method(&methods[3]), methods[3]);
}

#[test]
fn names_are_compared_letter_by_letter() {
    assert!(is_named(&"smelter".to_string(), "smelter"));
    assert!(!is_named(&"smelter".to_string(), "Smelter"));
    assert!(!is_named(&"smelter".to_string(), "smelte"));
    assert!(is_named(&String::new(), ""));
}
