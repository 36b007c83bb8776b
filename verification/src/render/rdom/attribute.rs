//! Attributes as the component tree hands them over: a name and a loosely
//! typed value.

use vstd::prelude::*;
use crate::text::str_eq;

verus! {

/// The value of one attribute.
///
/// Fractional numbers are carried as integers counting thousandths, so
/// `Float(400)` stands for 0.4.
pub enum AttributeValue {
    /// A string.
    Text(String),
    /// A fractional number, in thousandths.
    Float(i32),
    /// A whole number.
    Int(i64),
    /// A flag.
    Bool(bool),
    /// A value that only the component framework understands.
    Custom,
}

/// One attribute of a node.
pub struct Attribute {
    /// The attribute's name, such as `"color"`.
    pub name: String,
    /// Its value.
    pub value: AttributeValue,
}

/// A whole number expressed in thousandths, held to the `i32` range.
pub open spec fn scalar_of_int(n: int) -> int {
    if n * 1000 > i32::MAX {
        i32::MAX as int
    } else if n * 1000 < i32::MIN {
        i32::MIN as int
    } else {
        n * 1000
    }
}

/// Converts a whole number to thousandths, saturating at the ends of `i32`.
pub fn scalar_from_int(n: i64) -> (s: i32)
    ensures
        s == scalar_of_int(n as int),
{
    if n > 2147483 {
        i32::MAX
    } else if n < -2147483 {
        i32::MIN
    } else {
        (n * 1000) as i32
    }
}

impl AttributeValue {
    /// The number this value stands for, in thousandths, if it is numeric.
    pub open spec fn scalar(self) -> Option<int> {
        match self {
            AttributeValue::Float(v) => Some(v as int),
            AttributeValue::Int(n) => Some(scalar_of_int(n as int)),
            _ => None,
        }
    }

    /// The text of this value, if it is a string.
    pub open spec fn text(self) -> Option<Seq<char>> {
        match self {
            AttributeValue::Text(s) => Some(s@),
            _ => None,
        }
    }

    /// The colour this value stands for, when it is a positive whole number:
    /// its low 32 bits.
    pub open spec fn int_color(self) -> Option<u32> {
        match self {
            AttributeValue::Int(n) if n > 0 => Some(n as u32),
            _ => None,
        }
    }

    /// Reads a numeric value as thousandths; `None` for anything else.
    pub fn as_float(&self) -> (res: Option<i32>)
        ensures
            res.is_some() == self.scalar().is_some(),
            res matches Some(v) ==> self.scalar() == Some(v as int),
    {
        match self {
            AttributeValue::Float(v) => Some(*v),
            AttributeValue::Int(n) => Some(scalar_from_int(*n)),
            _ => None,
        }
    }

    /// Reads a string value; `None` for anything else.
    pub fn as_text(&self) -> (res: Option<&str>)
        ensures
            res.is_some() == self.text().is_some(),
            res matches Some(s) ==> self.text() == Some(s@),
    {
        match self {
            AttributeValue::Text(s) => Some(s.as_str()),
            _ => None,
        }
    }

    /// Whether the value belongs to the component framework alone.
    pub fn is_custom(&self) -> (res: bool)
        ensures
            res == (*self is Custom),
    {
        match self {
            AttributeValue::Custom => true,
            _ => false,
        }
    }
}

/// Whether `i` is the position of the first attribute with the given name.
pub open spec fn is_first_attribute(attrs: Seq<Attribute>, name: Seq<char>, i: int) -> bool {
    &&& 0 <= i < attrs.len()
    &&& attrs[i].name@ == name
    &&& forall|j: int| 0 <= j < i ==> (#[trigger] attrs[j]).name@ != name
}

/// The value of the first attribute with the given name, if there is one.
pub open spec fn attribute_value(attrs: Seq<Attribute>, name: Seq<char>) -> Option<AttributeValue> {
    if exists|i: int| is_first_attribute(attrs, name, i) {
        Some(attrs[choose|i: int| is_first_attribute(attrs, name, i)].value)
    } else {
        None
    }
}

/// Finds the position of the first attribute with the given name.
pub fn attribute_index(attributes: &Vec<Attribute>, name: &str) -> (found: Option<usize>)
    ensures
        match found {
            Some(i) => is_first_attribute(attributes@, name@, i as int) && i == (choose|i: int|
                is_first_attribute(attributes@, name@, i)),
            None => !(exists|i: int| is_first_attribute(attributes@, name@, i)),
        },
{
    let mut i: usize = 0;
    while i < attributes.len()
        invariant
            i <= attributes.len(),
            forall|j: int| 0 <= j < i ==> (#[trigger] attributes@[j]).name@ != name@,
        decreases attributes.len() - i,
    {
        if str_eq(attributes[i].name.as_str(), name) {
            proof {
                let attrs = attributes@;
                assert(is_first_attribute(attrs, name@, i as int));
                let c = choose|c: int| is_first_attribute(attrs, name@, c);
                assert(is_first_attribute(attrs, name@, c));
                if c < i {
                    assert(attrs[c].name@ != name@);
                }
                if i < c {
                    assert(attrs[i as int].name@ != name@);
                }
            }
            return Some(i);
        }
        i += 1;
    }
    proof {
        let attrs = attributes@;
        assert forall|c: int| !is_first_attribute(attrs, name@, c) by {
            if 0 <= c < attrs.len() {
                assert(attrs[c].name@ != name@);
            }
        }
    }
    None
}

/// Looks up the value of the first attribute with the given name.
pub fn find_attribute<'a>(attributes: &'a Vec<Attribute>, name: &str) -> (value: Option<
    &'a AttributeValue,
>)
    ensures
        match value {
            Some(v) => attribute_value(attributes@, name@) == Some(*v),
            None => attribute_value(attributes@, name@).is_none(),
        },
{
    match attribute_index(attributes, name) {
        Some(i) => Some(&attributes[i].value),
        None => None,
    }
}

} // verus!
