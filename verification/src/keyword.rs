//! The `x-tombi-*` schema keywords and the values that they take.

use vstd::prelude::*;
use vstd::string::*;

use crate::text::str_eq;

verus! {

pub const X_TOMBI_TOML_VERSION: &'static str = "x-tombi-toml-version";

pub const X_TOMBI_ARRAY_VALUES_ORDER: &'static str = "x-tombi-array-values-order";

pub const X_TOMBI_ARRAY_VALUES_ORDER_BY: &'static str = "x-tombi-array-values-order-by";

pub const X_TOMBI_TABLE_KEYS_ORDER: &'static str = "x-tombi-table-keys-order";

pub const X_TOMBI_STRING_FORMATS: &'static str = "x-tombi-string-formats";

pub const X_TOMBI_ADDITIONAL_KEY_LABEL: &'static str = "x-tombi-additional-key-label";

/// How the values of an array are sorted.
#[derive(Debug, Clone, Copy, PartialEq, Eq, Structural, Hash)]
pub enum ArrayValuesOrder {
    Ascending,
    Descending,
    VersionSort,
}

impl ArrayValuesOrder {
    /// The keyword value that names this order.
    pub open spec fn name(self) -> Seq<char> {
        match self {
            ArrayValuesOrder::Ascending => "ascending"@,
            ArrayValuesOrder::Descending => "descending"@,
            ArrayValuesOrder::VersionSort => "version-sort"@,
        }
    }

    /// The order that a keyword value names, if any.
    pub open spec fn from_name(value: Seq<char>) -> Option<ArrayValuesOrder> {
        if value == "ascending"@ {
            Some(ArrayValuesOrder::Ascending)
        } else if value == "descending"@ {
            Some(ArrayValuesOrder::Descending)
        } else if value == "version-sort"@ {
            Some(ArrayValuesOrder::VersionSort)
        } else {
            None
        }
    }

    pub fn as_str(&self) -> (r: &'static str)
        ensures
            r@ == self.name(),
    {
        match self {
            ArrayValuesOrder::Ascending => "ascending",
            ArrayValuesOrder::Descending => "descending",
            ArrayValuesOrder::VersionSort => "version-sort",
        }
    }

    /// The text that the order displays as.
    pub fn to_string(&self) -> (r: String)
        ensures
            r@ == self.name(),
    {
        proof {
            broadcast use vstd::string::group_string_axioms;
        }
        self.as_str().to_string()
    }

    /// Reads a keyword value; a value that names no order is handed back as the error.
    pub fn try_from<'a>(value: &'a str) -> (r: Result<ArrayValuesOrder, &'a str>)
        ensures
            match Self::from_name(value@) {
                Some(order) => r == Ok::<ArrayValuesOrder, &'a str>(order),
                None => r matches Err(e) && e@ == value@,
            },
    {
        if str_eq(value, "ascending") {
            Ok(ArrayValuesOrder::Ascending)
        } else if str_eq(value, "descending") {
            Ok(ArrayValuesOrder::Descending)
        } else if str_eq(value, "version-sort") {
            Ok(ArrayValuesOrder::VersionSort)
        } else {
            Err(value)
        }
    }
}

/// A group of array orders, of which one or any may apply.
#[derive(Debug, Clone)]
pub enum ArrayValuesOrderGroup {
    OneOf(Vec<ArrayValuesOrder>),
    AnyOf(Vec<ArrayValuesOrder>),
}

/// The key by which the tables of an array are sorted.
#[derive(Debug, Clone)]
pub struct ArrayValuesOrderBy(pub String);

impl ArrayValuesOrderBy {
    /// The key, as text.
    pub fn to_string(&self) -> (r: String)
        ensures
            r@ == self.0@,
    {
        self.0.clone()
    }

    /// Every keyword value names a key.
    pub fn try_from<'a>(value: &'a str) -> (r: Result<ArrayValuesOrderBy, &'a str>)
        ensures
            r matches Ok(by) && by.0@ == value@,
    {
        Ok(ArrayValuesOrderBy(value.to_string()))
    }

    /// Whether a string equals the key.
    pub fn eq_string(&self, other: &String) -> (r: bool)
        ensures
            r == (other@ == self.0@),
    {
        *other == self.0
    }
}

/// How the keys of a table are sorted.
#[derive(Debug, Clone, Copy, PartialEq, Eq, Structural, Hash)]
pub enum TableKeysOrder {
    Ascending,
    Descending,
    Schema,
    VersionSort,
}

impl TableKeysOrder {
    pub open spec fn name(self) -> Seq<char> {
        match self {
            TableKeysOrder::Ascending => "ascending"@,
            TableKeysOrder::Descending => "descending"@,
            TableKeysOrder::Schema => "schema"@,
            TableKeysOrder::VersionSort => "version-sort"@,
        }
    }

    pub open spec fn from_name(value: Seq<char>) -> Option<TableKeysOrder> {
        if value == "ascending"@ {
            Some(TableKeysOrder::Ascending)
        } else if value == "descending"@ {
            Some(TableKeysOrder::Descending)
        } else if value == "schema"@ {
            Some(TableKeysOrder::Schema)
        } else if value == "version-sort"@ {
            Some(TableKeysOrder::VersionSort)
        } else {
            None
        }
    }

    pub fn as_str(&self) -> (r: &'static str)
        ensures
            r@ == self.name(),
    {
        match self {
            TableKeysOrder::Ascending => "ascending",
            TableKeysOrder::Descending => "descending",
            TableKeysOrder::Schema => "schema",
            TableKeysOrder::VersionSort => "version-sort",
        }
    }

    pub fn to_string(&self) -> (r: String)
        ensures
            r@ == self.name(),
    {
        proof {
            broadcast use vstd::string::group_string_axioms;
        }
        self.as_str().to_string()
    }

    /// Reads a keyword value; an unknown value gives the error "Invalid table keys order".
    pub fn try_from<'a>(value: &'a str) -> (r: Result<TableKeysOrder, &'a str>)
        ensures
            match Self::from_name(value@) {
                Some(order) => r == Ok::<TableKeysOrder, &'a str>(order),
                None => r matches Err(e) && e@ == "Invalid table keys order"@,
            },
    {
        if str_eq(value, "ascending") {
            Ok(TableKeysOrder::Ascending)
        } else if str_eq(value, "descending") {
            Ok(TableKeysOrder::Descending)
        } else if str_eq(value, "schema") {
            Ok(TableKeysOrder::Schema)
        } else if str_eq(value, "version-sort") {
            Ok(TableKeysOrder::VersionSort)
        } else {
            Err("Invalid table keys order")
        }
    }
}

/// The group of table keys that a keys order applies to.
#[derive(Debug, Clone, Copy, PartialEq, Eq, Structural, Hash)]
pub enum TableKeysOrderGroupKind {
    Keys,
    AdditionalKeys,
    PatternKeys,
}

impl TableKeysOrderGroupKind {
    /// The label under which the group is displayed.
    pub open spec fn label(self) -> Seq<char> {
        match self {
            TableKeysOrderGroupKind::Keys => "Keys"@,
            TableKeysOrderGroupKind::AdditionalKeys => "Additional Keys"@,
            TableKeysOrderGroupKind::PatternKeys => "Pattern Keys"@,
        }
    }

    /// The group that a JSON Schema keyword names, if any.
    pub open spec fn from_schema_keyword(value: Seq<char>) -> Option<TableKeysOrderGroupKind> {
        if value == "properties"@ {
            Some(TableKeysOrderGroupKind::Keys)
        } else if value == "additionalProperties"@ {
            Some(TableKeysOrderGroupKind::AdditionalKeys)
        } else if value == "patternProperties"@ {
            Some(TableKeysOrderGroupKind::PatternKeys)
        } else {
            None
        }
    }

    pub fn to_string(&self) -> (r: String)
        ensures
            r@ == self.label(),
    {
        match self {
            TableKeysOrderGroupKind::Keys => "Keys".to_string(),
            TableKeysOrderGroupKind::AdditionalKeys => "Additional Keys".to_string(),
            TableKeysOrderGroupKind::PatternKeys => "Pattern Keys".to_string(),
        }
    }

    /// Reads a JSON Schema keyword; an unknown one gives the error "Invalid table group".
    pub fn try_from<'a>(value: &'a str) -> (r: Result<TableKeysOrderGroupKind, &'a str>)
        ensures
            match Self::from_schema_keyword(value@) {
                Some(kind) => r == Ok::<TableKeysOrderGroupKind, &'a str>(kind),
                None => r matches Err(e) && e@ == "Invalid table group"@,
            },
    {
        if str_eq(value, "properties") {
            Ok(TableKeysOrderGroupKind::Keys)
        } else if str_eq(value, "additionalProperties") {
            Ok(TableKeysOrderGroupKind::AdditionalKeys)
        } else if str_eq(value, "patternProperties") {
            Ok(TableKeysOrderGroupKind::PatternKeys)
        } else {
            Err("Invalid table group")
        }
    }
}

/// The TOML value type represented by a supported string format.
#[derive(Debug, Clone, Copy, PartialEq, Eq, Structural, Hash)]
pub enum TomlDateTimeType {
    OffsetDateTime,
    LocalDateTime,
    LocalDate,
    LocalTime,
}


/// A JSON Schema string format that Tombi recognizes.
#[derive(Debug, Clone, Copy, PartialEq, Eq, Structural, Hash)]
pub enum StringFormat {
    /// RFC 5322
    Email,
    /// RFC 1034
    Hostname,
    /// RFC 3986
    Uri,
    /// RFC 3986
    UriReference,
    /// RFC 4122
    Uuid,
    /// RFC 2673, section 3.2
    Ipv4,
    /// RFC 4291, section 2.2
    Ipv6,
    /// RFC 3339, section 5.6
    DateTime,
    /// OpenAPI Format Registry: date-time-local
    DateTimeLocal,
    /// RFC 3339, section 5.6, full-date
    Date,
    /// RFC 3339, section 5.6, full-time
    Time,
    /// OpenAPI Format Registry: time-local
    TimeLocal,
    /// ECMA-262
    Regex,
    /// RFC 6901
    JsonPointer,
}

impl StringFormat {
    /// Every string format, each once, in declaration order; aliases are not formats.
    pub open spec fn all_formats() -> Seq<StringFormat> {
        seq![
            StringFormat::Email,
            StringFormat::Hostname,
            StringFormat::Uri,
            StringFormat::UriReference,
            StringFormat::Uuid,
            StringFormat::Ipv4,
            StringFormat::Ipv6,
            StringFormat::DateTime,
            StringFormat::DateTimeLocal,
            StringFormat::Date,
            StringFormat::Time,
            StringFormat::TimeLocal,
            StringFormat::Regex,
            StringFormat::JsonPointer,
        ]
    }

    /// The canonical JSON Schema format name.
    pub open spec fn name(self) -> Seq<char> {
        match self {
            StringFormat::Email => "email"@,
            StringFormat::Hostname => "hostname"@,
            StringFormat::Uri => "uri"@,
            StringFormat::UriReference => "uri-reference"@,
            StringFormat::Uuid => "uuid"@,
            StringFormat::Ipv4 => "ipv4"@,
            StringFormat::Ipv6 => "ipv6"@,
            StringFormat::DateTime => "date-time"@,
            StringFormat::DateTimeLocal => "date-time-local"@,
            StringFormat::Date => "date"@,
            StringFormat::Time => "time"@,
            StringFormat::TimeLocal => "time-local"@,
            StringFormat::Regex => "regex"@,
            StringFormat::JsonPointer => "json-pointer"@,
        }
    }

    /// The non-canonical names accepted for compatibility.
    pub open spec fn alias_names(self) -> Seq<Seq<char>> {
        match self {
            StringFormat::DateTimeLocal => seq!["partial-date-time"@],
            StringFormat::TimeLocal => seq!["partial-time"@],
            _ => Seq::empty(),
        }
    }

    /// The TOML date/time value type that the format represents, if any.
    pub open spec fn date_time_type(self) -> Option<TomlDateTimeType> {
        match self {
            StringFormat::DateTime => Some(TomlDateTimeType::OffsetDateTime),
            StringFormat::DateTimeLocal => Some(TomlDateTimeType::LocalDateTime),
            StringFormat::Date => Some(TomlDateTimeType::LocalDate),
            StringFormat::TimeLocal => Some(TomlDateTimeType::LocalTime),
            _ => None,
        }
    }

    /// The format that a name or an alias stands for, if any.
    pub open spec fn from_name(value: Seq<char>) -> Option<StringFormat> {
        if value == "email"@ {
            Some(StringFormat::Email)
        } else if value == "hostname"@ {
            Some(StringFormat::Hostname)
        } else if value == "uri"@ {
            Some(StringFormat::Uri)
        } else if value == "uri-reference"@ {
            Some(StringFormat::UriReference)
        } else if value == "uuid"@ {
            Some(StringFormat::Uuid)
        } else if value == "ipv4"@ {
            Some(StringFormat::Ipv4)
        } else if value == "ipv6"@ {
            Some(StringFormat::Ipv6)
        } else if value == "date-time"@ {
            Some(StringFormat::DateTime)
        } else if value == "date-time-local"@ || value == "partial-date-time"@ {
            Some(StringFormat::DateTimeLocal)
        } else if value == "date"@ {
            Some(StringFormat::Date)
        } else if value == "time"@ {
            Some(StringFormat::Time)
        } else if value == "time-local"@ || value == "partial-time"@ {
            Some(StringFormat::TimeLocal)
        } else if value == "regex"@ {
            Some(StringFormat::Regex)
        } else if value == "json-pointer"@ {
            Some(StringFormat::JsonPointer)
        } else {
            None
        }
    }

    /// All string formats recognized by Tombi, excluding aliases.
    pub fn all() -> (r: Vec<StringFormat>)
        ensures
            r@ == Self::all_formats(),
    {
        let r = vec![
            StringFormat::Email,
            StringFormat::Hostname,
            StringFormat::Uri,
            StringFormat::UriReference,
            StringFormat::Uuid,
            StringFormat::Ipv4,
            StringFormat::Ipv6,
            StringFormat::DateTime,
            StringFormat::DateTimeLocal,
            StringFormat::Date,
            StringFormat::Time,
            StringFormat::TimeLocal,
            StringFormat::Regex,
            StringFormat::JsonPointer,
        ];
        assert(r@ =~= Self::all_formats());
        r
    }

    /// The canonical JSON Schema format name.
    pub fn as_str(self) -> (r: &'static str)
        ensures
            r@ == self.name(),
    {
        match self {
            StringFormat::Email => "email",
            StringFormat::Hostname => "hostname",
            StringFormat::Uri => "uri",
            StringFormat::UriReference => "uri-reference",
            StringFormat::Uuid => "uuid",
            StringFormat::Ipv4 => "ipv4",
            StringFormat::Ipv6 => "ipv6",
            StringFormat::DateTime => "date-time",
            StringFormat::DateTimeLocal => "date-time-local",
            StringFormat::Date => "date",
            StringFormat::Time => "time",
            StringFormat::TimeLocal => "time-local",
            StringFormat::Regex => "regex",
            StringFormat::JsonPointer => "json-pointer",
        }
    }

    /// Non-canonical names accepted for compatibility.
    pub fn aliases(self) -> (r: Vec<&'static str>)
        ensures
            r@.len() == self.alias_names().len(),
            forall|i: int| 0 <= i < r@.len() ==> #[trigger] r@[i]@ == self.alias_names()[i],
    {
        match self {
            StringFormat::DateTimeLocal => vec!["partial-date-time"],
            StringFormat::TimeLocal => vec!["partial-time"],
            _ => Vec::new(),
        }
    }

    /// The TOML date/time value type represented by this format, if any.
    pub fn toml_date_time_type(self) -> (r: Option<TomlDateTimeType>)
        ensures
            r == self.date_time_type(),
    {
        match self {
            StringFormat::DateTime => Some(TomlDateTimeType::OffsetDateTime),
            StringFormat::DateTimeLocal => Some(TomlDateTimeType::LocalDateTime),
            StringFormat::Date => Some(TomlDateTimeType::LocalDate),
            StringFormat::TimeLocal => Some(TomlDateTimeType::LocalTime),
            _ => None,
        }
    }

    /// The format's canonical name, as displayed.
    pub fn to_string(&self) -> (r: String)
        ensures
            r@ == self.name(),
    {
        proof {
            broadcast use vstd::string::group_string_axioms;
        }
        self.as_str().to_string()
    }

    /// Reads a format name or alias.
    pub fn parse_name(value: &str) -> (r: Result<StringFormat, ()>)
        ensures
            match Self::from_name(value@) {
                Some(format) => r == Ok::<StringFormat, ()>(format),
                None => r == Err::<StringFormat, ()>(()),
            },
    {
        if str_eq(value, "email") {
            Ok(StringFormat::Email)
        } else if str_eq(value, "hostname") {
            Ok(StringFormat::Hostname)
        } else if str_eq(value, "uri") {
            Ok(StringFormat::Uri)
        } else if str_eq(value, "uri-reference") {
            Ok(StringFormat::UriReference)
        } else if str_eq(value, "uuid") {
            Ok(StringFormat::Uuid)
        } else if str_eq(value, "ipv4") {
            Ok(StringFormat::Ipv4)
        } else if str_eq(value, "ipv6") {
            Ok(StringFormat::Ipv6)
        } else if str_eq(value, "date-time") {
            Ok(StringFormat::DateTime)
        } else if str_eq(value, "date-time-local") || str_eq(value, "partial-date-time") {
            Ok(StringFormat::DateTimeLocal)
        } else if str_eq(value, "date") {
            Ok(StringFormat::Date)
        } else if str_eq(value, "time") {
            Ok(StringFormat::Time)
        } else if str_eq(value, "time-local") || str_eq(value, "partial-time") {
            Ok(StringFormat::TimeLocal)
        } else if str_eq(value, "regex") {
            Ok(StringFormat::Regex)
        } else if str_eq(value, "json-pointer") {
            Ok(StringFormat::JsonPointer)
        } else {
            Err(())
        }
    }
}

impl core::str::FromStr for StringFormat {
    type Err = ();

    fn from_str(value: &str) -> (r: Result<StringFormat, ()>)
        ensures
            match StringFormat::from_name(value@) {
                Some(format) => r == Ok::<StringFormat, ()>(format),
                None => r == Err::<StringFormat, ()>(()),
            },
    {
        StringFormat::parse_name(value)
    }
}

/// Reading the name of an array order gives that order back.
pub proof fn lemma_array_values_order_name_round_trip(order: ArrayValuesOrder)
    ensures
        ArrayValuesOrder::from_name(order.name()) == Some(order),
{
    lemma_order_literals();
}

/// Reading the name of a table keys order gives that order back.
pub proof fn lemma_table_keys_order_name_round_trip(order: TableKeysOrder)
    ensures
        TableKeysOrder::from_name(order.name()) == Some(order),
{
    lemma_order_literals();
}

proof fn lemma_order_literals()
    ensures
        "ascending"@.len() == 9,
        "descending"@.len() == 10,
        "schema"@.len() == 6,
        "version-sort"@.len() == 12,
{
    reveal_strlit("ascending");
    reveal_strlit("descending");
    reveal_strlit("schema");
    reveal_strlit("version-sort");
}

proof fn lemma_string_format_literals()
    ensures
        "email"@.len() == 5 && "email"@[0] == 'e',
        "hostname"@.len() == 8,
        "uri"@.len() == 3,
        "uri-reference"@.len() == 13,
        "uuid"@.len() == 4 && "uuid"@[0] == 'u',
        "ipv4"@.len() == 4 && "ipv4"@[0] == 'i' && "ipv4"@[3] == '4',
        "ipv6"@.len() == 4 && "ipv6"@[0] == 'i' && "ipv6"@[3] == '6',
        "date-time"@.len() == 9,
        "date-time-local"@.len() == 15,
        "partial-date-time"@.len() == 17,
        "date"@.len() == 4 && "date"@[0] == 'd',
        "time"@.len() == 4 && "time"@[0] == 't',
        "time-local"@.len() == 10,
        "partial-time"@.len() == 12 && "partial-time"@[0] == 'p',
        "regex"@.len() == 5 && "regex"@[0] == 'r',
        "json-pointer"@.len() == 12 && "json-pointer"@[0] == 'j',
{
    reveal_strlit("email");
    reveal_strlit("hostname");
    reveal_strlit("uri");
    reveal_strlit("uri-reference");
    reveal_strlit("uuid");
    reveal_strlit("ipv4");
    reveal_strlit("ipv6");
    reveal_strlit("date-time");
    reveal_strlit("date-time-local");
    reveal_strlit("partial-date-time");
    reveal_strlit("date");
    reveal_strlit("time");
    reveal_strlit("time-local");
    reveal_strlit("partial-time");
    reveal_strlit("regex");
    reveal_strlit("json-pointer");
}

/// Every string format's canonical name parses back to that format.
pub proof fn lemma_string_format_name_round_trip(format: StringFormat)
    ensures
        StringFormat::from_name(format.name()) == Some(format),
{
    lemma_string_format_literals();
}

/// Every alias of a string format parses to that format.
pub proof fn lemma_string_format_alias_resolves(format: StringFormat, i: int)
    requires
        0 <= i < format.alias_names().len(),
    ensures
        StringFormat::from_name(format.alias_names()[i]) == Some(format),
{
    lemma_string_format_literals();
}

/// The list of all formats holds every format exactly once.
pub proof fn lemma_string_format_all_lists_each_once(format: StringFormat)
    ensures
        StringFormat::all_formats().contains(format),
        forall|i: int, j: int|
            0 <= i < j < StringFormat::all_formats().len() ==> StringFormat::all_formats()[i]
                != StringFormat::all_formats()[j],
{
    let s = StringFormat::all_formats();
    let k: int = match format {
        StringFormat::Email => 0,
        StringFormat::Hostname => 1,
        StringFormat::Uri => 2,
        StringFormat::UriReference => 3,
        StringFormat::Uuid => 4,
        StringFormat::Ipv4 => 5,
        StringFormat::Ipv6 => 6,
        StringFormat::DateTime => 7,
        StringFormat::DateTimeLocal => 8,
        StringFormat::Date => 9,
        StringFormat::Time => 10,
        StringFormat::TimeLocal => 11,
        StringFormat::Regex => 12,
        StringFormat::JsonPointer => 13,
    };
    assert(s[k] == format);
}

} // verus!
