//! Runtime values as the qualified-name constructor sees them, the errors it
//! raises, and the coercion of a value to a string.
use vstd::prelude::*;
use crate::heap::{QNameHeap, QNameModel, QNameObject, formatted, live, name_of};
use crate::namespace::{Namespace, namespace_text};

verus! {

/// How an ordinary script object turns itself into a string.
#[derive(Debug)]
pub enum ToStringBehavior {
    /// The default conversion, `[object ClassName]`.
    Inherited,
    /// A script-defined conversion that returns this text.
    Returns(String),
    /// A script-defined conversion that throws an exception with this message.
    Throws(String),
}

/// An ordinary script object, neither a namespace nor a qualified name.
#[derive(Debug)]
pub struct ScriptObject {
    pub class_name: String,
    pub to_string: ToStringBehavior,
}

/// A runtime value.
#[derive(Debug)]
pub enum Value {
    Undefined,
    Null,
    Bool(bool),
    Integer(i32),
    Str(String),
    Namespace(Namespace),
    QName(QNameObject),
    Object(ScriptObject),
}

/// What can go wrong while building or reading a qualified name.
#[derive(Debug)]
pub enum Error {
    /// A script exception raised by a value's own string conversion; it
    /// carries the thrown message and reaches the caller unchanged.
    Thrown(String),
    /// A qualified-name reference that is not a live object of the heap.
    UnknownObject,
    /// Initialization of an object that is not a freshly allocated,
    /// uninitialized qualified name.
    NotFresh,
}

/// The character of a decimal digit.
pub open spec fn digit_char(d: nat) -> char {
    if d == 0 {
        '0'
    } else if d == 1 {
        '1'
    } else if d == 2 {
        '2'
    } else if d == 3 {
        '3'
    } else if d == 4 {
        '4'
    } else if d == 5 {
        '5'
    } else if d == 6 {
        '6'
    } else if d == 7 {
        '7'
    } else if d == 8 {
        '8'
    } else {
        '9'
    }
}

/// The decimal digits of a natural number, most significant first.
pub open spec fn digits(n: nat) -> Seq<char>
    decreases n,
{
    if n < 10 {
        seq![digit_char(n)]
    } else {
        digits(n / 10).push(digit_char(n % 10))
    }
}

/// The decimal text of an integer, with a leading `-` when it is negative.
pub open spec fn decimal(n: int) -> Seq<char> {
    if n < 0 {
        seq!['-'] + digits((-n) as nat)
    } else {
        digits(n as nat)
    }
}

/// The string a value coerces to, given the qualified-name objects of the heap.
pub open spec fn string_of(objects: Seq<Option<QNameModel>>, v: Value) -> Result<Seq<char>, Error> {
    match v {
        Value::Undefined => Ok("undefined"@),
        Value::Null => Ok("null"@),
        Value::Bool(b) => Ok(
            if b {
                "true"@
            } else {
                "false"@
            },
        ),
        Value::Integer(n) => Ok(decimal(n as int)),
        Value::Str(s) => Ok(s@),
        Value::Namespace(ns) => Ok(namespace_text(ns@)),
        Value::QName(o) => if live(objects, o) {
            Ok(formatted(name_of(objects, o)))
        } else {
            Err(Error::UnknownObject)
        },
        Value::Object(obj) => match obj.to_string {
            ToStringBehavior::Inherited => Ok("[object "@ + obj.class_name@ + "]"@),
            ToStringBehavior::Returns(s) => Ok(s@),
            ToStringBehavior::Throws(m) => Err(Error::Thrown(m)),
        },
    }
}

/// The one-character text of a decimal digit.
fn digit_str(d: u32) -> (r: &'static str)
    requires
        d < 10,
    ensures
        r@ == seq![digit_char(d as nat)],
{
    proof {
        reveal_strlit("0");
        reveal_strlit("1");
        reveal_strlit("2");
        reveal_strlit("3");
        reveal_strlit("4");
        reveal_strlit("5");
        reveal_strlit("6");
        reveal_strlit("7");
        reveal_strlit("8");
        reveal_strlit("9");
    }
    let r = match d {
        0 => "0",
        1 => "1",
        2 => "2",
        3 => "3",
        4 => "4",
        5 => "5",
        6 => "6",
        7 => "7",
        8 => "8",
        _ => "9",
    };
    assert(r@ =~= seq![digit_char(d as nat)]);
    r
}

/// Appends the decimal digits of `n` to `text`.
fn append_digits(text: &mut String, n: u32)
    ensures
        final(text)@ == old(text)@ + digits(n as nat),
    decreases n,
{
    if n >= 10 {
        append_digits(text, n / 10);
    }
    text.append(digit_str(n % 10));
    proof {
        if n >= 10 {
            assert(old(text)@ + digits((n / 10) as nat) + seq![digit_char((n % 10) as nat)]
                =~= old(text)@ + digits(n as nat));
        } else {
            assert(old(text)@ + seq![digit_char(n as nat)] =~= old(text)@ + digits(n as nat));
        }
    }
}

/// The decimal text of an integer.
pub fn decimal_string(n: i32) -> (r: String)
    ensures
        r@ == decimal(n as int),
{
    let mut text = String::new();
    if n < 0 {
        text.append("-");
        let magnitude: u32 = (0i64 - n as i64) as u32;
        append_digits(&mut text, magnitude);
        proof {
            reveal_strlit("-");
            assert(text@ =~= decimal(n as int));
        }
    } else {
        append_digits(&mut text, n as u32);
        assert(text@ =~= decimal(n as int));
    }
    text
}

impl Value {
    /// A copy of this value; a qualified-name value still refers to the same object.
    pub fn duplicate(&self) -> (r: Value)
        ensures
            r == *self,
    {
        match self {
            Value::Undefined => Value::Undefined,
            Value::Null => Value::Null,
            Value::Bool(b) => Value::Bool(*b),
            Value::Integer(n) => Value::Integer(*n),
            Value::Str(s) => Value::Str(s.clone()),
            Value::Namespace(ns) => Value::Namespace(ns.duplicate()),
            Value::QName(o) => Value::QName(*o),
            Value::Object(obj) => {
                let to_string = match &obj.to_string {
                    ToStringBehavior::Inherited => ToStringBehavior::Inherited,
                    ToStringBehavior::Returns(s) => ToStringBehavior::Returns(s.clone()),
                    ToStringBehavior::Throws(m) => ToStringBehavior::Throws(m.clone()),
                };
                Value::Object(ScriptObject { class_name: obj.class_name.clone(), to_string })
            },
        }
    }

    /// Whether this is the undefined marker.
    pub fn is_undefined(&self) -> (r: bool)
        ensures
            r == (*self is Undefined),
    {
        matches!(self, Value::Undefined)
    }
}

/// Coerces a value to a string. Qualified-name values read their object in
/// `heap`; a script object's own conversion may throw.
pub fn coerce_to_string(heap: &QNameHeap, v: &Value) -> (r: Result<String, Error>)
    ensures
        match r {
            Ok(s) => string_of(heap@, *v) == Ok::<Seq<char>, Error>(s@),
            Err(e) => string_of(heap@, *v) == Err::<Seq<char>, Error>(e),
        },
{
    match v {
        Value::Undefined => Ok(String::from_str("undefined")),
        Value::Null => Ok(String::from_str("null")),
        Value::Bool(b) => {
            if *b {
                Ok(String::from_str("true"))
            } else {
                Ok(String::from_str("false"))
            }
        },
        Value::Integer(n) => Ok(decimal_string(*n)),
        Value::Str(s) => Ok(s.clone()),
        Value::Namespace(ns) => Ok(ns.as_text()),
        Value::QName(o) => match heap.get(*o) {
            Some(q) => Ok(q.as_uri()),
            None => Err(Error::UnknownObject),
        },
        Value::Object(obj) => match &obj.to_string {
            ToStringBehavior::Inherited => {
                let mut text = String::from_str("[object ");
                text.append(obj.class_name.as_str());
                text.append("]");
                Ok(text)
            },
            ToStringBehavior::Returns(s) => Ok(s.clone()),
            ToStringBehavior::Throws(m) => Err(Error::Thrown(m.clone())),
        },
    }
}

} // verus!
