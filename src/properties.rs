//! Twin properties: building them, and finding values among them by key.

pub mod common_keys;

use vstd::prelude::*;
use crate::properties::common_keys::predicate::LABEL;

verus! {

/// A literal with a language tag.
#[derive(Clone, Debug)]
pub struct LangLiteral {
    pub lang: String,
    pub value: String,
}

/// A literal with a data type.
#[derive(Clone, Debug)]
pub struct Literal {
    pub data_type: String,
    pub value: String,
}

/// A plain string literal.
#[derive(Clone, Debug)]
pub struct StringLiteral {
    pub value: String,
}

/// A URI.
#[derive(Clone, Debug)]
pub struct Uri {
    pub value: String,
}

/// The value of a property.
#[derive(Clone, Debug)]
pub enum Value {
    LiteralValue(Literal),
    LangLiteralValue(LangLiteral),
    StringLiteralValue(StringLiteral),
    UriValue(Uri),
}

/// A property: a key, and a value if it has one.
#[derive(Clone, Debug)]
pub struct Property {
    pub key: String,
    pub value: Option<Value>,
}

/// Why a value could not be found.
#[derive(Clone, Copy, Debug, PartialEq, Eq, Structural)]
pub enum PropertyFinderError {
    KeyNotFound,
    ValueNotFound,
    LanguageNotFound,
}

impl PropertyFinderError {
    /// A sentence that describes the error.
    pub fn message(&self) -> (r: String) {
        match self {
            PropertyFinderError::KeyNotFound => "property key not found".to_owned(),
            PropertyFinderError::ValueNotFound => "property value not found".to_owned(),
            PropertyFinderError::LanguageNotFound => "language not found".to_owned(),
        }
    }
}

/// Some property of `props` has the key `key`.
pub open spec fn has_key(props: Seq<Property>, key: Seq<char>) -> bool {
    exists|i: int| 0 <= i < props.len() && (#[trigger] props[i]).key@ == key
}

/// The values of the properties of `props` keyed `key` that have one, in order.
pub open spec fn values_of(props: Seq<Property>, key: Seq<char>) -> Seq<Value>
    decreases props.len(),
{
    if props.len() == 0 {
        seq![]
    } else {
        let rest = values_of(props.drop_last(), key);
        let p = props.last();
        if p.key@ == key && p.value is Some {
            rest.push(p.value->Some_0)
        } else {
            rest
        }
    }
}

/// What looking up the values keyed `key` among `props` gives.
pub open spec fn lookup(props: Seq<Property>, key: Seq<char>) -> Result<Seq<Value>, PropertyFinderError> {
    if !has_key(props, key) {
        Err(PropertyFinderError::KeyNotFound)
    } else if values_of(props, key).len() == 0 {
        Err(PropertyFinderError::ValueNotFound)
    } else {
        Ok(values_of(props, key))
    }
}

/// The first string literal among `vals`.
pub open spec fn first_string_literal(vals: Seq<Value>) -> Option<Seq<char>>
    decreases vals.len(),
{
    if vals.len() == 0 {
        None
    } else {
        match vals[0] {
            Value::StringLiteralValue(l) => Some(l.value@),
            _ => first_string_literal(vals.drop_first()),
        }
    }
}

/// The first literal in language `lang` among `vals`.
pub open spec fn first_lang_literal(vals: Seq<Value>, lang: Seq<char>) -> Option<Seq<char>>
    decreases vals.len(),
{
    if vals.len() == 0 {
        None
    } else {
        match vals[0] {
            Value::LangLiteralValue(l) if l.lang@ == lang => Some(l.value@),
            _ => first_lang_literal(vals.drop_first(), lang),
        }
    }
}

/// A lookup's values, then the first of them that `pick` finds, or `missing`.
pub open spec fn found(
    looked_up: Result<Seq<Value>, PropertyFinderError>,
    picked: Option<Seq<char>>,
    missing: PropertyFinderError,
) -> Result<Seq<char>, PropertyFinderError> {
    match looked_up {
        Err(e) => Err(e),
        Ok(_) => match picked {
            Some(v) => Ok(v),
            None => Err(missing),
        },
    }
}

/// The view of a lookup's result.
pub open spec fn str_result(r: Result<&str, PropertyFinderError>) -> Result<Seq<char>, PropertyFinderError> {
    match r {
        Ok(s) => Ok(s@),
        Err(e) => Err(e),
    }
}

/// Builds properties of each kind of value.
pub struct PropertyBuilder;

impl PropertyBuilder {
    /// A label in language `lang`.
    pub fn build_label(lang: &str, value: &str) -> (r: Property)
        ensures
            r.key@ == LABEL@,
            r.value matches Some(Value::LangLiteralValue(l)) && l.lang@ == lang@ && l.value@ == value@,
    {
        PropertyBuilder::build_lang_literal(LABEL, lang, value)
    }

    /// A literal in language `lang`, keyed `key`.
    pub fn build_lang_literal(key: &str, lang: &str, value: &str) -> (r: Property)
        ensures
            r.key@ == key@,
            r.value matches Some(Value::LangLiteralValue(l)) && l.lang@ == lang@ && l.value@ == value@,
    {
        Property {
            key: key.to_owned(),
            value: Some(Value::LangLiteralValue(LangLiteral { lang: lang.to_owned(), value: value.to_owned() })),
        }
    }

    /// A URI, keyed `key`.
    pub fn build_uri_value(key: &str, value: &str) -> (r: Property)
        ensures
            r.key@ == key@,
            r.value matches Some(Value::UriValue(u)) && u.value@ == value@,
    {
        Property { key: key.to_owned(), value: Some(Value::UriValue(Uri { value: value.to_owned() })) }
    }

    /// A literal of data type `data_type`, keyed `key`.
    pub fn build_literal_value(key: &str, data_type: &str, value: &str) -> (r: Property)
        ensures
            r.key@ == key@,
            r.value matches Some(Value::LiteralValue(l)) && l.data_type@ == data_type@ && l.value@ == value@,
    {
        Property {
            key: key.to_owned(),
            value: Some(Value::LiteralValue(Literal { data_type: data_type.to_owned(), value: value.to_owned() })),
        }
    }

    /// A string literal, keyed `key`.
    pub fn build_string_literal_value(key: &str, value: &str) -> (r: Property)
        ensures
            r.key@ == key@,
            r.value matches Some(Value::StringLiteralValue(l)) && l.value@ == value@,
    {
        Property {
            key: key.to_owned(),
            value: Some(Value::StringLiteralValue(StringLiteral { value: value.to_owned() })),
        }
    }
}

/// Finds values among properties.
pub struct PropertyFinder;

impl PropertyFinder {
    /// The first string literal keyed `key`.
    pub fn find_string_literal_value<'a>(properties: &'a [Property], key: &str) -> (r: Result<
        &'a str,
        PropertyFinderError,
    >)
        ensures
            str_result(r) == found(
                lookup(properties@, key@),
                first_string_literal(values_of(properties@, key@)),
                PropertyFinderError::ValueNotFound,
            ),
    {
        let values = PropertyFinder::filter_values_by_key(properties, key)?;
        let ghost vals = values_of(properties@, key@);
        assert(vals.subrange(0, vals.len() as int) =~= vals);
        let mut i: usize = 0;
        while i < values.len()
            invariant
                i <= values@.len(),
                values@.map_values(|v: &Value| *v) == vals,
                lookup(properties@, key@) is Ok,
                vals == values_of(properties@, key@),
                first_string_literal(vals) == first_string_literal(vals.subrange(i as int, vals.len() as int)),
            decreases values@.len() - i,
        {
            assert(vals.subrange(i as int, vals.len() as int).drop_first() =~= vals.subrange(
                i + 1,
                vals.len() as int,
            ));
            assert(vals[i as int] == *values@[i as int]);
            assert(vals.subrange(i as int, vals.len() as int)[0] == vals[i as int]);
            match values[i] {
                Value::StringLiteralValue(string_literal) => {
                    assert(first_string_literal(vals.subrange(i as int, vals.len() as int)) == Some(
                        string_literal.value@,
                    ));
                    return Ok(string_literal.value.as_str());
                },
                _ => {},
            }
            i = i + 1;
        }
        assert(vals.subrange(i as int, vals.len() as int).len() == 0);
        Err(PropertyFinderError::ValueNotFound)
    }

    /// The label in language `lang`.
    pub fn find_label<'a>(properties: &'a [Property], lang: &str) -> (r: Result<&'a str, PropertyFinderError>)
        ensures
            str_result(r) == found(
                lookup(properties@, LABEL@),
                first_lang_literal(values_of(properties@, LABEL@), lang@),
                PropertyFinderError::LanguageNotFound,
            ),
    {
        PropertyFinder::find_lang_literal_value(properties, LABEL, lang)
    }

    /// The first literal in language `lang` keyed `key`.
    pub fn find_lang_literal_value<'a>(properties: &'a [Property], key: &str, lang: &str) -> (r: Result<
        &'a str,
        PropertyFinderError,
    >)
        ensures
            str_result(r) == found(
                lookup(properties@, key@),
                first_lang_literal(values_of(properties@, key@), lang@),
                PropertyFinderError::LanguageNotFound,
            ),
    {
        let values = PropertyFinder::filter_values_by_key(properties, key)?;
        let wanted = lang.to_owned();
        let ghost vals = values_of(properties@, key@);
        assert(vals.subrange(0, vals.len() as int) =~= vals);
        let mut i: usize = 0;
        while i < values.len()
            invariant
                i <= values@.len(),
                values@.map_values(|v: &Value| *v) == vals,
                lookup(properties@, key@) is Ok,
                vals == values_of(properties@, key@),
                wanted@ == lang@,
                first_lang_literal(vals, lang@) == first_lang_literal(
                    vals.subrange(i as int, vals.len() as int),
                    lang@,
                ),
            decreases values@.len() - i,
        {
            assert(vals.subrange(i as int, vals.len() as int).drop_first() =~= vals.subrange(
                i + 1,
                vals.len() as int,
            ));
            assert(vals[i as int] == *values@[i as int]);
            assert(vals.subrange(i as int, vals.len() as int)[0] == vals[i as int]);
            match values[i] {
                Value::LangLiteralValue(lang_literal) => {
                    if lang_literal.lang == wanted {
                        return Ok(lang_literal.value.as_str());
                    }
                },
                _ => {},
            }
            i = i + 1;
        }
        assert(vals.subrange(i as int, vals.len() as int).len() == 0);
        Err(PropertyFinderError::LanguageNotFound)
    }

    /// The values of the properties keyed `key`, in order: `KeyNotFound` if no
    /// property has that key, `ValueNotFound` if none of those has a value.
    pub fn filter_values_by_key<'a>(properties: &'a [Property], key: &str) -> (r: Result<
        Vec<&'a Value>,
        PropertyFinderError,
    >)
        ensures
            match r {
                Ok(values) => lookup(properties@, key@) == Ok::<Seq<Value>, PropertyFinderError>(
                    values@.map_values(|v: &Value| *v),
                ),
                Err(e) => lookup(properties@, key@) == Err::<Seq<Value>, PropertyFinderError>(e),
            },
    {
        let key = key.to_owned();
        let mut values: Vec<&'a Value> = Vec::new();
        let mut keyed = false;
        let mut i: usize = 0;
        while i < properties.len()
            invariant
                i <= properties@.len(),
                keyed == has_key(properties@.subrange(0, i as int), key@),
                values@.map_values(|v: &Value| *v) == values_of(properties@.subrange(0, i as int), key@),
            decreases properties@.len() - i,
        {
            let ghost before = properties@.subrange(0, i as int);
            let ghost after = properties@.subrange(0, i + 1);
            assert(after.drop_last() =~= before);
            assert(after.last() == properties@[i as int]);
            let property = &properties[i];
            if property.key == key {
                keyed = true;
                assert(after[i as int] == properties@[i as int]);
                match &property.value {
                    Some(value) => {
                        values.push(value);
                    },
                    None => {},
                }
            }
            proof {
                if has_key(after, key@) && !has_key(before, key@) {
                    let j = choose|j: int| 0 <= j < after.len() && (#[trigger] after[j]).key@ == key@;
                    assert(j == i);
                }
                if has_key(before, key@) {
                    let j = choose|j: int| 0 <= j < before.len() && (#[trigger] before[j]).key@ == key@;
                    assert(after[j] == before[j]);
                }
            }
            assert(values@.map_values(|v: &Value| *v) =~= values_of(after, key@));
            i = i + 1;
        }
        assert(properties@.subrange(0, properties@.len() as int) =~= properties@);
        if !keyed {
            Err(PropertyFinderError::KeyNotFound)
        } else if values.len() == 0 {
            Err(PropertyFinderError::ValueNotFound)
        } else {
            Ok(values)
        }
    }
}

} // verus!
