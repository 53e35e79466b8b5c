use tombi_ext::keyword::{
    ArrayValuesOrder, ArrayValuesOrderBy, StringFormat, TableKeysOrder, TableKeysOrderGroupKind,
    TomlDateTimeType,
};

#[test]
fn string_format_names_round_trip() {
    for format in StringFormat::all().iter() {
        assert_eq!(format.as_str().parse(), Ok(*format));
        assert_eq!(format.to_string(), format.as_str());
    }
}

#[test]
fn string_format_aliases_resolve_to_their_canonical_format() {
    for format in StringFormat::all().iter() {
        for alias in format.aliases() {
            assert_eq!(alias.parse(), Ok(*format));
        }
    }
}

#[test]
fn toml_date_time_formats_are_classified_centrally() {
    assert_eq!(
        StringFormat::DateTime.toml_date_time_type(),
        Some(TomlDateTimeType::OffsetDateTime)
    );
    assert_eq!(
        StringFormat::DateTimeLocal.toml_date_time_type(),
        Some(TomlDateTimeType::LocalDateTime)
    );
    assert_eq!(
        StringFormat::Date.toml_date_time_type(),
        Some(TomlDateTimeType::LocalDate)
    );
    assert_eq!(
        StringFormat::TimeLocal.toml_date_time_type(),
        Some(TomlDateTimeType::LocalTime)
    );
    assert_eq!(StringFormat::Time.toml_date_time_type(), None);
}

#[test]
fn array_values_order_reads_its_names() {
    assert_eq!(ArrayValuesOrder::try_from("ascending"), Ok(ArrayValuesOrder::Ascending));
    assert_eq!(ArrayValuesOrder::try_from("version-sort"), Ok(ArrayValuesOrder::VersionSort));
    assert_eq!(ArrayValuesOrder::try_from("upwards"), Err("upwards"));
    assert_eq!(ArrayValuesOrder::Descending.to_string(), "descending");
}

#[test]
fn table_keys_order_reads_its_names() {
    assert_eq!(TableKeysOrder::try_from("schema"), Ok(TableKeysOrder::Schema));
    assert_eq!(TableKeysOrder::try_from("random"), Err("Invalid table keys order"));
    assert_eq!(TableKeysOrder::VersionSort.as_str(), "version-sort");
}

#[test]
fn table_keys_order_group_kind_reads_schema_keywords() {
    assert_eq!(TableKeysOrderGroupKind::try_from("properties").unwrap().to_string(), "Keys");
    assert_eq!(
        TableKeysOrderGroupKind::try_from("additionalProperties").unwrap().to_string(),
        "Additional Keys"
    );
    assert_eq!(
        TableKeysOrderGroupKind::try_from("patternProperties").unwrap().to_string(),
        "Pattern Keys"
    );
    assert!(matches!(
        TableKeysOrderGroupKind::try_from("nothing"),
        Err("Invalid table group")
    ));
}

#[test]
fn array_values_order_by_keeps_the_key() {
    let by = ArrayValuesOrderBy::try_from("name").unwrap();
    assert_eq!(by.to_string(), "name");
}

#[test]
fn string_format_rejects_unknown_names() {
    assert_eq!("no-such-format".parse::<StringFormat>(), Err(()));
}
