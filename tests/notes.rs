use appsheet_notes::{
    column_note, column_width, generate_column_note, generate_column_note_with_settings,
    get_note_param_status, json_value_to_string, now_unix_ms, pick_effective_label_column_id,
    preview_notes, sample_row_cells, sheet_data_cells, should_output_note_param, table_notes,
    Column, ColumnConstraints, ConstraintNumber, ExportRequest, NoteParamStatus, NoteValue,
    SampleRow, Table,
};

fn no_constraints() -> ColumnConstraints {
    ColumnConstraints {
        required: None,
        unique: None,
        default_value: None,
        min_value: None,
        max_value: None,
        min_length: None,
        max_length: None,
        pattern: None,
        enum_values: None,
        ref_table_id: None,
        ref_column_id: None,
    }
}

fn column(id: &str, name: &str, ty: &str) -> Column {
    Column {
        id: id.to_string(),
        name: name.to_string(),
        column_type: ty.to_string(),
        is_key: false,
        is_label: false,
        description: None,
        app_sheet: None,
        constraints: no_constraints(),
        order: 0,
    }
}

fn text(s: &str) -> NoteValue {
    NoteValue::Text(s.to_string())
}

fn allow(keys: &[&str]) -> Vec<(String, bool)> {
    keys.iter().map(|k| (k.to_string(), true)).collect()
}

#[test]
fn test_generate_column_note_verified_only() {
    let column = Column {
        id: "col1".to_string(),
        name: "Name".to_string(),
        column_type: "Text".to_string(),
        is_key: true,
        is_label: true,
        description: Some("Test description".to_string()),
        app_sheet: None,
        constraints: ColumnConstraints {
            required: Some(true),
            unique: None,
            default_value: None,
            min_value: None,
            max_value: None,
            min_length: None,
            max_length: None,
            pattern: None,
            enum_values: None,
            ref_table_id: None,
            ref_column_id: None,
        },
        order: 0,
    };

    let note = generate_column_note(&column, &[]);
    assert!(note.starts_with("AppSheet:"));
    assert!(note.contains("\"Type\":\"Text\""));
    // The key flag is emitted by default; label, required and description are not.
    assert!(note.contains("\"IsKey\""));
    assert!(!note.contains("\"IsLabel\""));
    assert!(!note.contains("\"IsRequired\""));
    assert!(!note.contains("\"Description\""));
}

#[test]
fn test_note_param_status() {
    assert_eq!(get_note_param_status("Type"), NoteParamStatus::Verified);
    assert_eq!(get_note_param_status("IsLabel"), NoteParamStatus::Unstable);
    assert_eq!(get_note_param_status("UnknownKey"), NoteParamStatus::Untested);
}

#[test]
fn test_should_output_note_param() {
    assert!(should_output_note_param("Type"));
    assert!(!should_output_note_param("IsLabel"));
    assert!(!should_output_note_param("IsRequired"));
    // The key flag is emitted by default.
    assert!(should_output_note_param("IsKey"));
}

#[test]
fn status_table_covers_known_keys() {
    let table = appsheet_notes::registry::note_param_table();
    assert_eq!(table.len(), 46);
    for (key, status) in &table {
        assert_eq!(get_note_param_status(key), *status);
    }
    let verified: Vec<&str> = table
        .iter()
        .filter(|(_, s)| *s == NoteParamStatus::Verified)
        .map(|(k, _)| *k)
        .collect();
    assert_eq!(verified, vec!["Type", "IsKey"]);
}

#[test]
fn example_text_key_column_default_settings() {
    let mut c = column("c1", "Name", "Text");
    c.is_key = true;
    c.is_label = true;
    c.constraints.required = Some(true);
    assert_eq!(
        generate_column_note(&c, &[]),
        "AppSheet:{\"Type\":\"Text\",\"IsKey\":true}"
    );
    let settings = vec![
        ("Type".to_string(), true),
        ("IsKey".to_string(), true),
        ("IsLabel".to_string(), false),
    ];
    assert_eq!(
        generate_column_note_with_settings(&c, &[], Some(&settings)),
        "AppSheet:{\"Type\":\"Text\",\"IsKey\":true}"
    );
    let settings = allow(&["Type", "IsKey", "IsLabel"]);
    assert_eq!(
        generate_column_note_with_settings(&c, &[], Some(&settings)),
        "AppSheet:{\"Type\":\"Text\",\"IsKey\":true,\"IsLabel\":true}"
    );
}

#[test]
fn settings_switch_to_explicit_allow_list() {
    let mut c = column("c1", "Name", "Text");
    c.is_key = true;
    let settings = allow(&["IsKey"]);
    assert_eq!(generate_column_note_with_settings(&c, &[], Some(&settings)), "AppSheet:{\"IsKey\":true}");
    let none: Vec<(String, bool)> = Vec::new();
    assert_eq!(generate_column_note_with_settings(&c, &[], Some(&none)), "AppSheet:{}");
}

fn ref_tables() -> Vec<Table> {
    let mut code = column("k1", "Code", "Text");
    code.is_key = true;
    vec![Table {
        id: "t2".to_string(),
        name: "Customers".to_string(),
        columns: vec![column("n1", "Name", "Text"), code, column("e1", "Email", "Email")],
    }]
}

#[test]
fn ref_column_default_settings_only_type() {
    let tables = ref_tables();
    let mut c = column("r1", "Customer", "Ref");
    c.constraints.ref_table_id = Some("t2".to_string());
    c.constraints.ref_column_id = Some("e1".to_string());
    assert_eq!(generate_column_note(&c, &tables), "AppSheet:{\"Type\":\"Ref\"}");
}

#[test]
fn ref_column_resolution_falls_back() {
    let tables = ref_tables();
    let settings = allow(&["Type", "ReferencedTableName", "ReferencedKeyColumn", "ReferencedType"]);
    let mut c = column("r1", "Customer", "Ref");
    c.constraints.ref_table_id = Some("t2".to_string());
    c.constraints.ref_column_id = Some("e1".to_string());
    assert_eq!(
        generate_column_note_with_settings(&c, &tables, Some(&settings)),
        "AppSheet:{\"Type\":\"Ref\",\"ReferencedTableName\":\"Customers\",\"ReferencedKeyColumn\":\"Email\",\"ReferencedType\":\"Email\"}"
    );
    // A missing column id falls back to the key-flagged column.
    c.constraints.ref_column_id = Some("missing".to_string());
    assert_eq!(
        generate_column_note_with_settings(&c, &tables, Some(&settings)),
        "AppSheet:{\"Type\":\"Ref\",\"ReferencedTableName\":\"Customers\",\"ReferencedKeyColumn\":\"Code\",\"ReferencedType\":\"Text\"}"
    );
    // Without a key-flagged column, the first column is used.
    let mut no_key = ref_tables();
    no_key[0].columns[1].is_key = false;
    assert_eq!(
        generate_column_note_with_settings(&c, &no_key, Some(&settings)),
        "AppSheet:{\"Type\":\"Ref\",\"ReferencedTableName\":\"Customers\",\"ReferencedKeyColumn\":\"Name\",\"ReferencedType\":\"Text\"}"
    );
    // An unknown table emits no reference keys.
    c.constraints.ref_table_id = Some("nope".to_string());
    assert_eq!(generate_column_note_with_settings(&c, &tables, Some(&settings)), "AppSheet:{\"Type\":\"Ref\"}");
}

#[test]
fn label_normalized_to_lowest_order() {
    let mut a = column("a", "A", "Text");
    a.is_label = true;
    a.order = 5;
    let mut b = column("b", "B", "Text");
    b.is_label = true;
    b.order = 2;
    let mut c = column("c", "C", "Text");
    c.is_label = true;
    c.order = 2;
    let t = Table { id: "t".to_string(), name: "T".to_string(), columns: vec![a, b, c] };
    assert_eq!(pick_effective_label_column_id(&t).map(|s| s.as_str()), Some("b"));
    let settings = allow(&["IsLabel"]);
    let tables = vec![t];
    let cells = table_notes(&tables[0], &tables, Some(&settings));
    assert_eq!(cells, vec![(1usize, "AppSheet:{\"IsLabel\":true}".to_string())]);
    let none = Table { id: "u".to_string(), name: "U".to_string(), columns: vec![column("x", "X", "Text")] };
    assert_eq!(pick_effective_label_column_id(&none), None);
}

#[test]
fn default_value_alias_in_overrides() {
    let settings = allow(&["Type", "Default"]);
    let mut legacy = column("c", "C", "Text");
    legacy.app_sheet = Some(vec![("DEFAULT".to_string(), text("x"))]);
    let mut current = column("c", "C", "Text");
    current.app_sheet = Some(vec![("Default".to_string(), text("x"))]);
    let a = generate_column_note_with_settings(&legacy, &[], Some(&settings));
    let b = generate_column_note_with_settings(&current, &[], Some(&settings));
    assert_eq!(a, b);
    assert_eq!(a, "AppSheet:{\"Type\":\"Text\",\"Default\":\"x\"}");
}

#[test]
fn default_value_alias_in_settings() {
    let mut c = column("c", "C", "Text");
    c.constraints.default_value = Some("7".to_string());
    let legacy = allow(&["DEFAULT"]);
    let current = allow(&["Default"]);
    let a = generate_column_note_with_settings(&c, &[], Some(&legacy));
    assert_eq!(a, generate_column_note_with_settings(&c, &[], Some(&current)));
    assert_eq!(a, "AppSheet:{\"Default\":\"7\"}");
    // Generated default is withheld when the user set the legacy key.
    c.app_sheet = Some(vec![("DEFAULT".to_string(), text("9"))]);
    assert_eq!(generate_column_note_with_settings(&c, &[], Some(&current)), "AppSheet:{\"Default\":\"9\"}");
}

#[test]
fn required_suppressed_by_condition() {
    let settings = allow(&["IsRequired", "Required_If"]);
    let mut c = column("c", "C", "Text");
    c.constraints.required = Some(true);
    assert_eq!(generate_column_note_with_settings(&c, &[], Some(&settings)), "AppSheet:{\"IsRequired\":true}");
    c.app_sheet = Some(vec![
        ("IsRequired".to_string(), NoteValue::Bool(true)),
        ("Required_If".to_string(), text("[A] > 0")),
    ]);
    assert_eq!(
        generate_column_note_with_settings(&c, &[], Some(&settings)),
        "AppSheet:{\"TypeAuxData\":\"{\\\"Required_If\\\":\\\"[A] > 0\\\"}\"}"
    );
    // An empty condition does not suppress, neither the derived key nor the user's.
    c.app_sheet = Some(vec![("Required_If".to_string(), text(""))]);
    assert_eq!(generate_column_note_with_settings(&c, &[], Some(&settings)), "AppSheet:{\"IsRequired\":true}");
    c.app_sheet = Some(vec![
        ("IsRequired".to_string(), NoteValue::Bool(true)),
        ("Required_If".to_string(), text("")),
    ]);
    assert_eq!(generate_column_note_with_settings(&c, &[], Some(&settings)), "AppSheet:{\"IsRequired\":true}");
}

#[test]
fn formula_keys_relocated_into_aux_data() {
    let mut c = column("c", "C", "Text");
    c.app_sheet = Some(vec![
        ("Show_If".to_string(), text("[X] = \"a\"")),
        ("Editable_If".to_string(), NoteValue::Bool(false)),
        ("Reset_If".to_string(), NoteValue::Null),
    ]);
    let note = generate_column_note(&c, &[]);
    assert_eq!(
        note,
        "AppSheet:{\"Type\":\"Text\",\"TypeAuxData\":\"{\\\"Show_If\\\":\\\"[X] = \\\\\\\"a\\\\\\\"\\\",\\\"Editable_If\\\":\\\"false\\\"}\"}"
    );
    assert!(!note.contains("\"Show_If\":"));
}

#[test]
fn aux_data_merged_with_existing_text_and_object() {
    let settings = allow(&["TypeAuxData"]);
    let mut c = column("c", "C", "Text");
    c.app_sheet = Some(vec![
        ("TypeAuxData".to_string(), text("{\"Mode\":1}")),
        ("Show_If".to_string(), text("TRUE")),
    ]);
    assert_eq!(
        generate_column_note_with_settings(&c, &[], Some(&settings)),
        "AppSheet:{\"TypeAuxData\":\"{\\\"Mode\\\":1,\\\"Show_If\\\":\\\"TRUE\\\"}\"}"
    );
    c.app_sheet = Some(vec![
        ("TypeAuxData".to_string(), text("{\\\"Mode\\\":\\\"x\\\"}")),
        ("Show_If".to_string(), text("TRUE")),
    ]);
    assert_eq!(
        generate_column_note_with_settings(&c, &[], Some(&settings)),
        "AppSheet:{\"TypeAuxData\":\"{\\\"Mode\\\":\\\"x\\\",\\\"Show_If\\\":\\\"TRUE\\\"}\"}"
    );
    c.app_sheet = Some(vec![
        ("TypeAuxData".to_string(), NoteValue::Object(vec![("Mode".to_string(), NoteValue::Number("2".to_string()))])),
        ("Show_If".to_string(), text("TRUE")),
    ]);
    assert_eq!(
        generate_column_note_with_settings(&c, &[], Some(&settings)),
        "AppSheet:{\"TypeAuxData\":\"{\\\"Mode\\\":2,\\\"Show_If\\\":\\\"TRUE\\\"}\"}"
    );
    c.app_sheet = Some(vec![
        ("TypeAuxData".to_string(), text("not json")),
        ("Show_If".to_string(), text("TRUE")),
    ]);
    assert_eq!(
        generate_column_note_with_settings(&c, &[], Some(&settings)),
        "AppSheet:{\"TypeAuxData\":\"{\\\"Show_If\\\":\\\"TRUE\\\"}\"}"
    );
}

#[test]
fn raw_override_wins() {
    let mut c = column("c", "C", "Text");
    c.is_key = true;
    c.app_sheet = Some(vec![
        ("IsKey".to_string(), NoteValue::Null),
        ("RawNoteParameters".to_string(), text("  AppSheet:{\"Type\":\"Number\"}\n")),
    ]);
    assert_eq!(generate_column_note(&c, &[]), "AppSheet:{\"Type\":\"Number\"}");
    c.app_sheet = Some(vec![("RawNoteParameters".to_string(), text("AppSheet:{}"))]);
    let (note, attach) = column_note(&c, false, &[], None);
    assert_eq!(note, "AppSheet:{}");
    assert!(attach);
    c.app_sheet = Some(vec![("RawNoteParameters".to_string(), text("   "))]);
    assert_eq!(generate_column_note(&c, &[]), "AppSheet:{\"Type\":\"Text\",\"IsKey\":true}");
}

#[test]
fn null_override_deletes_default() {
    let mut c = column("c", "C", "Text");
    c.is_key = true;
    c.app_sheet = Some(vec![("IsKey".to_string(), NoteValue::Null)]);
    assert_eq!(generate_column_note(&c, &[]), "AppSheet:{\"Type\":\"Text\"}");
    c.app_sheet = Some(vec![("Type".to_string(), NoteValue::Null)]);
    assert_eq!(generate_column_note(&c, &[]), "AppSheet:{\"IsKey\":true}");
}

#[test]
fn user_value_overrides_default_and_unverified_keys_dropped() {
    let mut c = column("c", "C", "Text");
    c.app_sheet = Some(vec![
        ("Type".to_string(), text("LongText")),
        ("Searchable".to_string(), NoteValue::Bool(true)),
    ]);
    assert_eq!(generate_column_note(&c, &[]), "AppSheet:{\"Type\":\"LongText\"}");
}

#[test]
fn empty_annotation_not_attached() {
    let mut c = column("c", "C", "Text");
    c.app_sheet = Some(vec![("Type".to_string(), NoteValue::Null)]);
    let (note, attach) = column_note(&c, false, &[], None);
    assert_eq!(note, "AppSheet:{}");
    assert!(!attach);
    let t = Table { id: "t".to_string(), name: "T".to_string(), columns: vec![c, column("d", "D", "Number")] };
    let tables = vec![t];
    assert_eq!(
        table_notes(&tables[0], &tables, None),
        vec![(1usize, "AppSheet:{\"Type\":\"Number\"}".to_string())]
    );
    let preview = preview_notes(&tables, None);
    assert_eq!(
        preview,
        vec![(
            "t".to_string(),
            vec![
                ("c".to_string(), String::new()),
                ("d".to_string(), "AppSheet:{\"Type\":\"Number\"}".to_string())
            ]
        )]
    );
}

#[test]
fn synthesized_fields_rendered_exactly() {
    let settings = allow(&[
        "Type", "IsRequired", "Description", "Valid_If", "MinValue", "MaxValue", "EnumValues", "BaseType",
    ]);
    let mut c = column("c", "C", "Enum");
    c.description = Some("line1\nline2 \u{1}".to_string());
    c.constraints.required = Some(true);
    c.constraints.pattern = Some("^a\\d\"$".to_string());
    c.constraints.min_value = Some(ConstraintNumber::Finite("1.5".to_string()));
    c.constraints.max_value = Some(ConstraintNumber::NotFinite);
    c.constraints.enum_values = Some(vec!["a".to_string(), "b".to_string()]);
    assert_eq!(
        generate_column_note_with_settings(&c, &[], Some(&settings)),
        "AppSheet:{\"Type\":\"Enum\",\"IsRequired\":true,\"Description\":\"line1\\nline2 \\u0001\",\"Valid_If\":\"MATCHES([_THIS], \\\"^a\\\\\\\\d\\\\\\\"$\\\")\",\"MinValue\":1.5,\"MaxValue\":0,\"EnumValues\":[\"a\",\"b\"],\"BaseType\":\"Text\"}"
    );
}

#[test]
fn enum_base_type_long_text_over_twenty_chars() {
    let settings = allow(&["EnumValues", "BaseType"]);
    let mut c = column("c", "C", "EnumList");
    c.constraints.enum_values = Some(vec!["short".to_string(), "ああああああああああああああああああああ".to_string()]);
    assert!(generate_column_note_with_settings(&c, &[], Some(&settings)).ends_with("\"BaseType\":\"Text\"}"));
    c.constraints.enum_values = Some(vec!["123456789012345678901".to_string()]);
    assert!(generate_column_note_with_settings(&c, &[], Some(&settings)).ends_with("\"BaseType\":\"LongText\"}"));
    c.column_type = "Text".to_string();
    assert_eq!(generate_column_note_with_settings(&c, &[], Some(&settings)), "AppSheet:{}");
}

#[test]
fn nested_override_values_serialized() {
    let settings = allow(&["Suggested_Values"]);
    let mut c = column("c", "C", "Text");
    c.app_sheet = Some(vec![(
        "Suggested_Values".to_string(),
        NoteValue::List(vec![
            NoteValue::Number("3".to_string()),
            NoteValue::Null,
            NoteValue::Object(vec![("k".to_string(), NoteValue::Bool(false))]),
            NoteValue::List(vec![]),
        ]),
    )]);
    assert_eq!(
        generate_column_note_with_settings(&c, &[], Some(&settings)),
        "AppSheet:{\"Suggested_Values\":[3,null,{\"k\":false},[]]}"
    );
}

#[test]
fn repeated_generation_identical() {
    let mut c = column("c", "C", "Ref");
    c.is_key = true;
    c.app_sheet = Some(vec![("Show_If".to_string(), text("[A]"))]);
    let tables = ref_tables();
    let a = generate_column_note(&c, &tables);
    let b = generate_column_note(&c, &tables);
    assert_eq!(a, b);
}

#[test]
fn sample_values_rendered() {
    assert_eq!(json_value_to_string(&NoteValue::Null), "");
    assert_eq!(json_value_to_string(&NoteValue::Bool(true)), "Yes");
    assert_eq!(json_value_to_string(&NoteValue::Bool(false)), "No");
    assert_eq!(json_value_to_string(&NoteValue::Number("4.25".to_string())), "4.25");
    assert_eq!(
        json_value_to_string(&NoteValue::List(vec![text("a"), NoteValue::Number("2".to_string()), NoteValue::Bool(true)])),
        "a, 2, Yes"
    );
    assert_eq!(json_value_to_string(&NoteValue::Object(vec![])), "[Object]");
    let t = Table {
        id: "t".to_string(),
        name: "T".to_string(),
        columns: vec![column("a", "A", "Text"), column("b", "B", "Text"), column("c", "C", "Text")],
    };
    let row = SampleRow { values: vec![("c".to_string(), text("z")), ("a".to_string(), NoteValue::Bool(false))] };
    assert_eq!(sample_row_cells(&t, &row), vec![(0usize, "No".to_string()), (2usize, "z".to_string())]);
}

#[test]
fn widths_and_clock() {
    assert_eq!(column_width("Id"), 12);
    assert_eq!(column_width("A very long column name"), 23);
    assert_eq!(column_width("名前名前名"), 15);
    assert!(now_unix_ms() > 1_600_000_000_000);
}

#[test]
fn sheet_data_cells_follow_rows() {
    let t = Table {
        id: "t".to_string(),
        name: "T".to_string(),
        columns: vec![column("a", "A", "Text"), column("b", "B", "Number")],
    };
    let rows = vec![
        SampleRow { values: vec![("a".to_string(), text("x")), ("b".to_string(), NoteValue::Number("1".to_string()))] },
        SampleRow { values: vec![("b".to_string(), NoteValue::Null)] },
    ];
    let mut request = ExportRequest {
        tables: vec![t],
        sample_data: vec![
            ("other".to_string(), vec![SampleRow { values: vec![("a".to_string(), text("no"))] }]),
            ("t".to_string(), rows),
        ],
        include_data: true,
    };
    assert_eq!(
        sheet_data_cells(&request.tables[0], &request),
        vec![
            (1usize, 0usize, "x".to_string()),
            (1usize, 1usize, "1".to_string()),
            (2usize, 1usize, String::new()),
        ]
    );
    request.include_data = false;
    assert_eq!(sheet_data_cells(&request.tables[0], &request), vec![]);
    request.include_data = true;
    request.sample_data.remove(1);
    assert_eq!(sheet_data_cells(&request.tables[0], &request), vec![]);
}
