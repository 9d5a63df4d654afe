//! What a finished transformation hands to its caller: the code, the source
//! map where there is one, and the names that were gathered on the way, where
//! there are any.

use vstd::prelude::*;
use crate::accumulator::{Accumulator, SerializeError};

verus! {

/// What the code generator made of a rewritten tree.
#[derive(Clone, Debug, PartialEq, Eq)]
pub struct TransformOutput {
    pub code: String,
    pub map: Option<String>,
}

/// One named property of the output.
#[derive(Clone, Debug, PartialEq, Eq)]
pub struct Property {
    pub name: String,
    pub value: String,
}

impl View for Property {
    type V = (Seq<char>, Seq<char>);

    open spec fn view(&self) -> (Seq<char>, Seq<char>) {
        (self.name@, self.value@)
    }
}

/// The views of `properties`, in order.
pub open spec fn property_views(properties: Seq<Property>) -> Seq<(Seq<char>, Seq<char>)> {
    Seq::new(properties.len(), |i: int| properties[i]@)
}

/// `value` under `name` where there is a value, nothing where there is none.
pub open spec fn optional_property(name: Seq<char>, value: Option<Seq<char>>) -> Seq<
    (Seq<char>, Seq<char>),
> {
    match value {
        Some(value) => seq![(name, value)],
        None => seq![],
    }
}

/// The properties of an output, in order: `code` always, `map` where there is
/// a source map, `eliminatedPackages` where names are handed over.
pub open spec fn output_properties(
    code: Seq<char>,
    map: Option<Seq<char>>,
    eliminated: Option<Seq<char>>,
) -> Seq<(Seq<char>, Seq<char>)> {
    seq![("code"@, code)] + optional_property("map"@, map) + optional_property(
        "eliminatedPackages"@,
        eliminated,
    )
}

/// The text of a string that may be there.
pub open spec fn text_of(value: Option<String>) -> Option<Seq<char>> {
    match value {
        Some(text) => Some(text@),
        None => None,
    }
}

/// The properties of `output`, with the gathered names as `eliminated` holds
/// them in text.
pub fn properties(output: TransformOutput, eliminated: Option<String>) -> (props: Vec<Property>)
    ensures
        property_views(props@) == output_properties(
            output.code@,
            text_of(output.map),
            text_of(eliminated),
        ),
{
    let TransformOutput { code, map } = output;
    let mut props: Vec<Property> = Vec::new();
    props.push(Property { name: "code".to_string(), value: code });
    match map {
        Some(map) => {
            props.push(Property { name: "map".to_string(), value: map });
        },
        None => {},
    }
    match eliminated {
        Some(names) => {
            props.push(Property { name: "eliminatedPackages".to_string(), value: names });
        },
        None => {},
    }
    assert(property_views(props@) =~= output_properties(
        output.code@,
        text_of(output.map),
        text_of(eliminated),
    ));
    props
}

/// The properties of `output` together with the names gathered in
/// `eliminated_packages`. The names are left out where there are none; where
/// there are some they are written as JSON, and the error is handed on where
/// that fails.
pub fn complete_output(output: TransformOutput, eliminated_packages: &Accumulator) -> (result:
    Result<Vec<Property>, SerializeError>)
    ensures
        match result {
            Ok(props) => if eliminated_packages@ == Set::<Seq<char>>::empty() {
                property_views(props@) == output_properties(
                    output.code@,
                    text_of(output.map),
                    None,
                )
            } else {
                exists|names: Seq<char>|
                    property_views(props@) == output_properties(
                        output.code@,
                        text_of(output.map),
                        Some(names),
                    )
            },
            Err(_) => eliminated_packages@ != Set::<Seq<char>>::empty(),
        },
{
    if eliminated_packages.is_empty() {
        Ok(properties(output, None))
    } else {
        match eliminated_packages.to_json() {
            Ok(names) => {
                let ghost text = names@;
                let props = properties(output, Some(names));
                assert(property_views(props@) == output_properties(
                    output.code@,
                    text_of(output.map),
                    Some(text),
                ));
                Ok(props)
            },
            Err(error) => Err(error),
        }
    }
}

} // verus!
