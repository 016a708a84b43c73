use std::collections::{BTreeMap, BTreeSet, HashMap, HashSet};

use vstd::prelude::*;

use crate::error::{valid_status, DynError};

verus! {

/// The width an integer schema declares.
#[derive(Debug, Clone, Copy, PartialEq, Eq, Structural)]
pub enum IntegerFormat {
    Int32,
    Int64,
}

/// The structural shape a schema fragment describes.
#[derive(Debug)]
pub enum SchemaKind {
    Boolean,
    Integer { format: IntegerFormat, minimum: i64, maximum: i64 },
    Number,
    Text,
    /// A list; `unique_items` holds for set types.
    Array { items: Box<SchemaFragment>, unique_items: bool },
    /// An object keyed by strings whose values share one schema.
    Dictionary { values: Box<SchemaFragment> },
    /// An object with named properties, of which `required` must be present.
    Object { properties: Vec<(String, SchemaFragment)>, required: Vec<String> },
    Any,
}

/// A self-describing schema fragment: title, description, an example value written
/// as JSON text, whether null is allowed, and the shape.
#[derive(Debug)]
pub struct SchemaFragment {
    pub title: String,
    pub description: String,
    pub example: Option<String>,
    pub nullable: bool,
    pub kind: SchemaKind,
}

impl SchemaFragment {
    /// Every fragment carries an example, and integer bounds are ordered, down
    /// through the items of lists and the values of maps.
    pub open spec fn wf(&self) -> bool
        decreases self,
    {
        &&& self.example.is_some()
        &&& match self.kind {
            SchemaKind::Integer { minimum, maximum, .. } => minimum <= maximum,
            SchemaKind::Array { items, .. } => items.wf(),
            SchemaKind::Dictionary { values } => values.wf(),
            _ => true,
        }
    }

    /// A fragment whose title and description are both `title`.
    pub fn named(title: &str, example: &str, kind: SchemaKind) -> (r: SchemaFragment)
        ensures
            r.title@ == title@,
            r.description@ == title@,
            r.example matches Some(e) && e@ == example@,
            !r.nullable,
            r.kind == kind,
    {
        SchemaFragment {
            title: String::from_str(title),
            description: String::from_str(title),
            example: Some(String::from_str(example)),
            nullable: false,
            kind,
        }
    }

    /// An integer fragment with the example `1`.
    pub fn integer(title: &str, format: IntegerFormat, minimum: i64, maximum: i64) -> (r:
        SchemaFragment)
        requires
            minimum <= maximum,
        ensures
            r.title@ == title@,
            r.description@ == title@,
            r.example matches Some(e) && e@ == "1"@,
            !r.nullable,
            r.kind == (SchemaKind::Integer { format, minimum, maximum }),
            r.wf(),
    {
        Self::named(title, "1", SchemaKind::Integer { format, minimum, maximum })
    }

    /// A floating-point number fragment with the example `1.0`.
    pub fn number(title: &str) -> (r: SchemaFragment)
        ensures
            r.title@ == title@,
            r.description@ == title@,
            r.example matches Some(e) && e@ == "1.0"@,
            !r.nullable,
            r.kind == SchemaKind::Number,
            r.wf(),
    {
        Self::named(title, "1.0", SchemaKind::Number)
    }

    /// A list fragment with the example `[]`.
    pub fn array(title: &str, items: SchemaFragment, unique_items: bool) -> (r: SchemaFragment)
        requires
            items.wf(),
        ensures
            r.title@ == title@,
            r.description@ == title@,
            r.example matches Some(e) && e@ == "[]"@,
            !r.nullable,
            r.kind == (SchemaKind::Array { items: Box::new(items), unique_items }),
            r.wf(),
    {
        Self::named(title, "[]", SchemaKind::Array { items: Box::new(items), unique_items })
    }

    /// A string-keyed map fragment with the example `{}`.
    pub fn map(title: &str, values: SchemaFragment) -> (r: SchemaFragment)
        requires
            values.wf(),
        ensures
            r.title@ == title@,
            r.description@ == title@,
            r.example matches Some(e) && e@ == "{}"@,
            !r.nullable,
            r.kind == (SchemaKind::Dictionary { values: Box::new(values) }),
            r.wf(),
    {
        Self::named(title, "{}", SchemaKind::Dictionary { values: Box::new(values) })
    }

    /// The same fragment, with null allowed.
    pub fn nullable(self) -> (r: SchemaFragment)
        ensures
            r.title == self.title,
            r.description == self.description,
            r.example == self.example,
            r.nullable,
            r.kind == self.kind,
            self.wf() ==> r.wf(),
    {
        let mut r = self;
        r.nullable = true;
        r
    }
}

/// Whether `r` has the given title (also its description) and example, and does
/// not allow null.
pub open spec fn labelled(r: SchemaFragment, title: Seq<char>, example: Seq<char>) -> bool {
    &&& r.title@ == title
    &&& r.description@ == title
    &&& r.example is Some
    &&& r.example.unwrap()@ == example
    &&& !r.nullable
}

/// Whether `r` is the integer fragment titled `title` with these bounds.
pub open spec fn integer_fragment(
    r: SchemaFragment,
    title: Seq<char>,
    format: IntegerFormat,
    minimum: i64,
    maximum: i64,
) -> bool {
    labelled(r, title, "1"@) && r.kind == (SchemaKind::Integer { format, minimum, maximum })
}

/// A type that describes itself as a schema fragment.
pub trait Schema {
    /// Whether `r` is the fragment that describes this type.
    spec fn described(r: SchemaFragment) -> bool;

    fn schema() -> (r: SchemaFragment)
        ensures
            r.wf(),
            Self::described(r),
    ;
}

impl Schema for bool {
    open spec fn described(r: SchemaFragment) -> bool {
        labelled(r, "bool"@, "true"@) && r.kind == SchemaKind::Boolean
    }

    fn schema() -> (r: SchemaFragment) {
        SchemaFragment::named("bool", "true", SchemaKind::Boolean)
    }
}

impl Schema for u8 {
    open spec fn described(r: SchemaFragment) -> bool {
        integer_fragment(r, "u8"@, IntegerFormat::Int32, 0, 255)
    }

    fn schema() -> (r: SchemaFragment) {
        SchemaFragment::integer("u8", IntegerFormat::Int32, 0, 255)
    }
}

impl Schema for u16 {
    open spec fn described(r: SchemaFragment) -> bool {
        integer_fragment(r, "u16"@, IntegerFormat::Int32, 0, 65535)
    }

    fn schema() -> (r: SchemaFragment) {
        SchemaFragment::integer("u16", IntegerFormat::Int32, 0, 65535)
    }
}

impl Schema for u32 {
    open spec fn described(r: SchemaFragment) -> bool {
        integer_fragment(r, "u32"@, IntegerFormat::Int64, 0, 4294967295)
    }

    fn schema() -> (r: SchemaFragment) {
        SchemaFragment::integer("u32", IntegerFormat::Int64, 0, 4294967295)
    }
}

impl Schema for i8 {
    open spec fn described(r: SchemaFragment) -> bool {
        integer_fragment(r, "i8"@, IntegerFormat::Int32, -128i64, 127)
    }

    fn schema() -> (r: SchemaFragment) {
        SchemaFragment::integer("i8", IntegerFormat::Int32, -128, 127)
    }
}

impl Schema for i16 {
    open spec fn described(r: SchemaFragment) -> bool {
        integer_fragment(r, "i16"@, IntegerFormat::Int32, -32768i64, 32767)
    }

    fn schema() -> (r: SchemaFragment) {
        SchemaFragment::integer("i16", IntegerFormat::Int32, -32768, 32767)
    }
}

impl Schema for i32 {
    open spec fn described(r: SchemaFragment) -> bool {
        integer_fragment(r, "i32"@, IntegerFormat::Int32, -2147483648i64, 2147483647)
    }

    fn schema() -> (r: SchemaFragment) {
        SchemaFragment::integer("i32", IntegerFormat::Int32, -2147483648, 2147483647)
    }
}

impl Schema for i64 {
    open spec fn described(r: SchemaFragment) -> bool {
        integer_fragment(r, "i64"@, IntegerFormat::Int64, i64::MIN, i64::MAX)
    }

    fn schema() -> (r: SchemaFragment) {
        SchemaFragment::integer("i64", IntegerFormat::Int64, i64::MIN, i64::MAX)
    }
}

impl Schema for String {
    open spec fn described(r: SchemaFragment) -> bool {
        labelled(r, "String"@, "\"foobar\""@) && r.kind == SchemaKind::Text
    }

    fn schema() -> (r: SchemaFragment) {
        SchemaFragment::named("String", "\"foobar\"", SchemaKind::Text)
    }
}

impl<T: Schema> Schema for Box<T> {
    open spec fn described(r: SchemaFragment) -> bool {
        T::described(r)
    }

    fn schema() -> (r: SchemaFragment) {
        T::schema()
    }
}

impl<T: Schema> Schema for Option<T> {
    /// The inner type's fragment, with null allowed.
    open spec fn described(r: SchemaFragment) -> bool {
        r.nullable && exists|inner: bool| T::described(SchemaFragment { nullable: inner, ..r })
    }

    fn schema() -> (r: SchemaFragment) {
        let inner = T::schema();
        let ghost before = inner.nullable;
        let r = inner.nullable();
        assert(SchemaFragment { nullable: before, ..r } == inner);
        r
    }
}

impl<T: Schema> Schema for Vec<T> {
    open spec fn described(r: SchemaFragment) -> bool {
        labelled(r, "Vec"@, "[]"@) && match r.kind {
            SchemaKind::Array { items, unique_items } => unique_items == false && T::described(*items),
            _ => false,
        }
    }

    fn schema() -> (r: SchemaFragment) {
        SchemaFragment::array("Vec", T::schema(), false)
    }
}

impl<T: Schema> Schema for HashSet<T> {
    open spec fn described(r: SchemaFragment) -> bool {
        labelled(r, "HashSet"@, "[]"@) && match r.kind {
            SchemaKind::Array { items, unique_items } => unique_items == true && T::described(*items),
            _ => false,
        }
    }

    fn schema() -> (r: SchemaFragment) {
        SchemaFragment::array("HashSet", T::schema(), true)
    }
}

impl<T: Schema> Schema for BTreeSet<T> {
    open spec fn described(r: SchemaFragment) -> bool {
        labelled(r, "BTreeSet"@, "[]"@) && match r.kind {
            SchemaKind::Array { items, unique_items } => unique_items == true && T::described(*items),
            _ => false,
        }
    }

    fn schema() -> (r: SchemaFragment) {
        SchemaFragment::array("BTreeSet", T::schema(), true)
    }
}

impl<T: Schema> Schema for HashMap<String, T> {
    open spec fn described(r: SchemaFragment) -> bool {
        labelled(r, "HashMap"@, "{}"@) && match r.kind {
            SchemaKind::Dictionary { values } => T::described(*values),
            _ => false,
        }
    }

    fn schema() -> (r: SchemaFragment) {
        SchemaFragment::map("HashMap", T::schema())
    }
}

impl<T: Schema> Schema for BTreeMap<String, T> {
    open spec fn described(r: SchemaFragment) -> bool {
        labelled(r, "BTreeMap"@, "{}"@) && match r.kind {
            SchemaKind::Dictionary { values } => T::described(*values),
            _ => false,
        }
    }

    fn schema() -> (r: SchemaFragment) {
        SchemaFragment::map("BTreeMap", T::schema())
    }
}

#[verifier::external_type_specification]
#[verifier::external_body]
pub struct ExJsonValue(serde_json::Value);

#[verifier::external_type_specification]
#[verifier::external_body]
#[verifier::reject_recursive_types(K)]
#[verifier::reject_recursive_types(V)]
pub struct ExJsonMap<K, V>(serde_json::Map<K, V>);

impl Schema for serde_json::Value {
    /// Any JSON value, null included.
    open spec fn described(r: SchemaFragment) -> bool {
        &&& r.title@ == "Value"@
        &&& r.description@ == "Value"@
        &&& r.example is Some
        &&& r.example.unwrap()@ == "{}"@
        &&& r.nullable
        &&& r.kind == SchemaKind::Any
    }

    fn schema() -> (r: SchemaFragment) {
        SchemaFragment::named("Value", "{}", SchemaKind::Any).nullable()
    }
}

impl Schema for serde_json::Map<String, serde_json::Value> {
    open spec fn described(r: SchemaFragment) -> bool {
        labelled(r, "Map"@, "{}"@) && match r.kind {
            SchemaKind::Dictionary { values } => <serde_json::Value as Schema>::described(*values),
            _ => false,
        }
    }

    fn schema() -> (r: SchemaFragment) {
        SchemaFragment::map("Map", <serde_json::Value as Schema>::schema())
    }
}

impl Schema for DynError {
    /// An object with a required integer `status` between 100 and 999 and an
    /// optional string `error`.
    open spec fn described(r: SchemaFragment) -> bool {
        &&& r.title@ == "DynError"@
        &&& r.description@ == "Type erased error"@
        &&& r.example is Some
        &&& r.example.unwrap()@ == "{\"status\":418,\"error\":\"Honestly, it's a teapot\"}"@
        &&& !r.nullable
        &&& match r.kind {
            SchemaKind::Object { properties, required } => {
                &&& properties@.len() == 2
                &&& properties@[0].0@ == "status"@
                &&& properties@[0].1.title@ == "HTTP status code"@
                &&& properties@[0].1.description@.len() == 0
                &&& properties@[0].1.example is Some
                &&& properties@[0].1.example.unwrap()@ == "418"@
                &&& !properties@[0].1.nullable
                &&& properties@[0].1.kind == (SchemaKind::Integer {
                    format: IntegerFormat::Int32,
                    minimum: 100,
                    maximum: 999,
                })
                &&& properties@[1].0@ == "error"@
                &&& <Option<String> as Schema>::described(properties@[1].1)
                &&& required@.len() == 1
                &&& required@[0]@ == "status"@
            },
            _ => false,
        }
    }

    fn schema() -> (r: SchemaFragment) {
        let status = SchemaFragment {
            title: String::from_str("HTTP status code"),
            description: String::new(),
            example: Some(String::from_str("418")),
            nullable: false,
            kind: SchemaKind::Integer { format: IntegerFormat::Int32, minimum: 100, maximum: 999 },
        };
        let error = <Option<String> as Schema>::schema();
        let properties = vec![(String::from_str("status"), status), (String::from_str("error"), error)];
        SchemaFragment {
            title: String::from_str("DynError"),
            description: String::from_str("Type erased error"),
            example: Some(String::from_str("{\"status\":418,\"error\":\"Honestly, it's a teapot\"}")),
            nullable: false,
            kind: SchemaKind::Object { properties, required: vec![String::from_str("status")] },
        }
    }
}

/// The schemas an error type contributes to documentation: one default schema, or
/// one schema per status code.
#[derive(Debug)]
pub struct ErrorSchema {
    pub default_schema: Option<SchemaFragment>,
    pub schemas: Vec<(u16, SchemaFragment)>,
}

impl ErrorSchema {
    /// Exactly one of the two forms is used, and each status appears once in the map.
    pub open spec fn wf(&self) -> bool {
        &&& (self.default_schema is Some) != (self.schemas@.len() > 0)
        &&& forall|i: int, j: int|
            0 <= i < j < self.schemas@.len() ==> #[trigger] self.schemas@[i].0
                != #[trigger] self.schemas@[j].0
        &&& forall|i: int| 0 <= i < self.schemas@.len() ==> valid_status(
            #[trigger] self.schemas@[i].0 as int,
        )
    }
}

/// An error that has a status code and describes its schemas.
pub trait Error: Schema {
    spec fn spec_status(&self) -> u16;

    fn status(&self) -> (r: u16)
        ensures
            r == self.spec_status(),
    ;

    /// Whether `r` is the schema set this error type contributes.
    spec fn documented(r: ErrorSchema) -> bool;

    fn error_schema() -> (r: ErrorSchema)
        ensures
            r.wf(),
            Self::documented(r),
    ;
}

impl Error for String {
    open spec fn spec_status(&self) -> u16 {
        500
    }

    fn status(&self) -> (r: u16) {
        500
    }

    /// One schema, the string's, under status 500.
    open spec fn documented(r: ErrorSchema) -> bool {
        &&& r.default_schema is None
        &&& r.schemas@.len() == 1
        &&& r.schemas@[0].0 == 500
        &&& <String as Schema>::described(r.schemas@[0].1)
    }

    fn error_schema() -> (r: ErrorSchema) {
        let schemas = vec![(500u16, <String as Schema>::schema())];
        ErrorSchema { default_schema: None, schemas }
    }
}

impl Error for DynError {
    open spec fn spec_status(&self) -> u16 {
        self.status
    }

    fn status(&self) -> (r: u16) {
        self.status
    }

    /// The envelope schema as the default, and no per-status entries.
    open spec fn documented(r: ErrorSchema) -> bool {
        &&& r.default_schema is Some
        &&& <DynError as Schema>::described(r.default_schema.unwrap())
        &&& r.schemas@.len() == 0
    }

    fn error_schema() -> (r: ErrorSchema) {
        ErrorSchema { default_schema: Some(<DynError as Schema>::schema()), schemas: Vec::new() }
    }
}

} // verus!
