//! The typed tokens produced by the `SLF0` tokenizer, together with the
//! fallible projections that the per-class schemas use to consume slots.

use vstd::prelude::*;

verus! {

/// The eight token kinds of the format, one per sigil byte.
#[derive(Debug, Clone, Copy, PartialEq, Eq, Structural)]
pub enum TokenType {
    Int,
    Double,
    ClassName,
    ClassInstance,
    String,
    Null,
    Array,
    Json,
}

/// One decoded token.
///
/// `Double` carries the IEEE-754 binary64 bit pattern; the wire encodes the
/// eight bytes of the double in little-endian order as hexadecimal text.
#[derive(Debug, PartialEq)]
pub enum Token {
    Int(u64),
    Double(u64),
    ClassName(String),
    ClassInstance(usize),
    String(String),
    Null,
    Array(usize),
    Json(String),
}

/// Mathematical image of a [`Token`]: text is a sequence of characters.
pub enum TokenV {
    Int(u64),
    Double(u64),
    ClassName(Seq<char>),
    ClassInstance(usize),
    String(Seq<char>),
    Null,
    Array(usize),
    Json(Seq<char>),
}

impl View for Token {
    type V = TokenV;

    open spec fn view(&self) -> TokenV {
        match self {
            Token::Int(v) => TokenV::Int(*v),
            Token::Double(bits) => TokenV::Double(*bits),
            Token::ClassName(s) => TokenV::ClassName(s@),
            Token::ClassInstance(i) => TokenV::ClassInstance(*i),
            Token::String(s) => TokenV::String(s@),
            Token::Null => TokenV::Null,
            Token::Array(n) => TokenV::Array(*n),
            Token::Json(s) => TokenV::Json(s@),
        }
    }
}

impl Clone for Token {
    fn clone(&self) -> (r: Self)
        ensures
            r@ == self@,
    {
        match self {
            Token::Int(v) => Token::Int(*v),
            Token::Double(bits) => Token::Double(*bits),
            Token::ClassName(s) => Token::ClassName(s.clone()),
            Token::ClassInstance(i) => Token::ClassInstance(*i),
            Token::String(s) => Token::String(s.clone()),
            Token::Null => Token::Null,
            Token::Array(n) => Token::Array(*n),
            Token::Json(s) => Token::Json(s.clone()),
        }
    }
}

/// A failed projection from a token to a primitive: the source kind and the
/// requested target did not match.
#[derive(Debug, PartialEq)]
pub struct ConversionError {
    pub from: &'static str,
    pub to: &'static str,
}

/// The value of `v` wrapped into the `i32` range, as a `u64 as i32` cast
/// would produce it.
pub open spec fn wrap_i32(v: u64) -> int {
    let low = (v % 0x1_0000_0000) as int;
    if low < 0x8000_0000 {
        low
    } else {
        low - 0x1_0000_0000
    }
}

/// The value of `v` wrapped into the `i8` range, as a `u64 as i8` cast
/// would produce it.
pub open spec fn wrap_i8(v: u64) -> int {
    let low = (v % 0x100) as int;
    if low < 0x80 {
        low
    } else {
        low - 0x100
    }
}

/// The kind of a token.
pub open spec fn spec_token_type(t: TokenV) -> TokenType {
    match t {
        TokenV::Int(_) => TokenType::Int,
        TokenV::Double(_) => TokenType::Double,
        TokenV::ClassName(_) => TokenType::ClassName,
        TokenV::ClassInstance(_) => TokenType::ClassInstance,
        TokenV::String(_) => TokenType::String,
        TokenV::Null => TokenType::Null,
        TokenV::Array(_) => TokenType::Array,
        TokenV::Json(_) => TokenType::Json,
    }
}

impl Token {
    /// The token's kind.
    pub fn token_type(&self) -> (r: TokenType)
        ensures
            r == spec_token_type(self@),
    {
        match self {
            Token::Int(_) => TokenType::Int,
            Token::Double(_) => TokenType::Double,
            Token::ClassName(_) => TokenType::ClassName,
            Token::ClassInstance(_) => TokenType::ClassInstance,
            Token::String(_) => TokenType::String,
            Token::Null => TokenType::Null,
            Token::Array(_) => TokenType::Array,
            Token::Json(_) => TokenType::Json,
        }
    }

    /// Projection to a parsed JSON value: succeeds exactly on `Json` whose
    /// text `serde_json` accepts.
    pub fn to_json_value(&self) -> (r: Result<serde_json::Value, ConversionError>)
        ensures
            self@ matches TokenV::Json(s) ==> (r is Ok <==> crate::json::json_parse_ok(s)),
            !(r is Ok) ==> (r matches Err(e) && e.from@ == "Token"@ && e.to@ == "Value"@),
    {
        match self {
            Token::Json(s) => match crate::json::parse_json_value(s.as_str()) {
                Ok(v) => Ok(v),
                Err(_) => Err(ConversionError { from: "Token", to: "Value" }),
            },
            _ => Err(ConversionError { from: "Token", to: "Value" }),
        }
    }

    /// The lower-case label of the token's kind, as used for the CSV export.
    pub fn get_type_as_str(&self) -> (r: &'static str)
        ensures
            r@ == match self@ {
                TokenV::Int(_) => "int"@,
                TokenV::Double(_) => "double"@,
                TokenV::ClassName(_) => "class_name"@,
                TokenV::ClassInstance(_) => "class_instance"@,
                TokenV::String(_) => "string"@,
                TokenV::Null => "null"@,
                TokenV::Array(_) => "array"@,
                TokenV::Json(_) => "json"@,
            },
    {
        match self {
            Token::Int(_) => "int",
            Token::Double(_) => "double",
            Token::ClassName(_) => "class_name",
            Token::ClassInstance(_) => "class_instance",
            Token::String(_) => "string",
            Token::Null => "null",
            Token::Array(_) => "array",
            Token::Json(_) => "json",
        }
    }

    /// Projection to `u64`: succeeds exactly on `Int`.
    pub fn to_u64(self) -> (r: Result<u64, ConversionError>)
        ensures
            self@ matches TokenV::Int(v) ==> r == Ok::<u64, ConversionError>(v),
            !(self@ is Int) ==> (r matches Err(e) && e.from@ == "Token"@ && e.to@ == "u64"@),
    {
        match self {
            Token::Int(v) => Ok(v),
            _ => Err(ConversionError { from: "Token", to: "u64" }),
        }
    }

    /// Projection to the bit pattern of an IEEE-754 binary64: succeeds
    /// exactly on `Double`.
    pub fn to_double_bits(self) -> (r: Result<u64, ConversionError>)
        ensures
            self@ matches TokenV::Double(bits) ==> r == Ok::<u64, ConversionError>(bits),
            !(self@ is Double) ==> (r matches Err(e) && e.from@ == "Token"@ && e.to@ == "f64"@),
    {
        match self {
            Token::Double(bits) => Ok(bits),
            _ => Err(ConversionError { from: "Token", to: "f64" }),
        }
    }

    /// Projection to text: succeeds exactly on `String`.
    pub fn to_text(self) -> (r: Result<String, ConversionError>)
        ensures
            self@ matches TokenV::String(s) ==> (r matches Ok(t) && t@ == s),
            !(self@ is String) ==> (r matches Err(e) && e.from@ == "Token"@ && e.to@ == "String"@),
    {
        match self {
            Token::String(s) => Ok(s),
            _ => Err(ConversionError { from: "Token", to: "String" }),
        }
    }

    /// Projection to `bool`: succeeds exactly on `Int`, true iff the value is
    /// not zero.
    pub fn to_bool(self) -> (r: Result<bool, ConversionError>)
        ensures
            self@ matches TokenV::Int(v) ==> r == Ok::<bool, ConversionError>(v != 0),
            !(self@ is Int) ==> (r matches Err(e) && e.from@ == "Token"@ && e.to@ == "bool"@),
    {
        match self {
            Token::Int(v) => Ok(v != 0),
            _ => Err(ConversionError { from: "Token", to: "bool" }),
        }
    }

    /// Projection to `usize`: succeeds exactly on `Array` (an element count)
    /// and `ClassInstance` (a registry index).
    pub fn to_usize(self) -> (r: Result<usize, ConversionError>)
        ensures
            self@ matches TokenV::Array(n) ==> r == Ok::<usize, ConversionError>(n),
            self@ matches TokenV::ClassInstance(i) ==> r == Ok::<usize, ConversionError>(i),
            !(self@ is Array) && !(self@ is ClassInstance) ==> (r matches Err(e)
                && e.from@ == "Token"@ && e.to@ == "usize"@),
    {
        match self {
            Token::Array(n) => Ok(n),
            Token::ClassInstance(i) => Ok(i),
            _ => Err(ConversionError { from: "Token", to: "usize" }),
        }
    }

    /// Projection to `i32`: succeeds exactly on `Int`, wrapping the `u64`
    /// value as an `as i32` cast would.
    pub fn to_i32(self) -> (r: Result<i32, ConversionError>)
        ensures
            self@ matches TokenV::Int(v) ==> (r matches Ok(w) && w == wrap_i32(v)),
            !(self@ is Int) ==> (r matches Err(e) && e.from@ == "Token"@ && e.to@ == "i32"@),
    {
        match self {
            Token::Int(v) => {
                let low: u64 = v % 0x1_0000_0000;
                if low < 0x8000_0000 {
                    Ok(low as i32)
                } else {
                    Ok(((low as i64) - 0x1_0000_0000i64) as i32)
                }
            },
            _ => Err(ConversionError { from: "Token", to: "i32" }),
        }
    }

    /// Projection to `i8`: succeeds exactly on `Int`, wrapping the `u64`
    /// value as an `as i8` cast would.
    pub fn to_i8(self) -> (r: Result<i8, ConversionError>)
        ensures
            self@ matches TokenV::Int(v) ==> (r matches Ok(w) && w == wrap_i8(v)),
            !(self@ is Int) ==> (r matches Err(e) && e.from@ == "Token"@ && e.to@ == "i8"@),
    {
        match self {
            Token::Int(v) => {
                let low: u64 = v % 0x100;
                if low < 0x80 {
                    Ok(low as i8)
                } else {
                    Ok(((low as i16) - 0x100i16) as i8)
                }
            },
            _ => Err(ConversionError { from: "Token", to: "i8" }),
        }
    }

    /// Optional projection to `u64`: `Null` is absent.
    pub fn to_opt_u64(self) -> (r: Result<Option<u64>, ConversionError>)
        ensures
            self@ matches TokenV::Int(v) ==> r == Ok::<Option<u64>, ConversionError>(Some(v)),
            self@ is Null ==> r == Ok::<Option<u64>, ConversionError>(None),
            !(self@ is Int) && !(self@ is Null) ==> (r matches Err(e)
                && e.from@ == "Token"@ && e.to@ == "Option<u64>"@),
    {
        match self {
            Token::Int(v) => Ok(Some(v)),
            Token::Null => Ok(None),
            _ => Err(ConversionError { from: "Token", to: "Option<u64>" }),
        }
    }

    /// Optional projection to double bits: `Null` is absent.
    pub fn to_opt_double_bits(self) -> (r: Result<Option<u64>, ConversionError>)
        ensures
            self@ matches TokenV::Double(bits) ==> r == Ok::<Option<u64>, ConversionError>(
                Some(bits),
            ),
            self@ is Null ==> r == Ok::<Option<u64>, ConversionError>(None),
            !(self@ is Double) && !(self@ is Null) ==> (r matches Err(e)
                && e.from@ == "Token"@ && e.to@ == "Option<f64>"@),
    {
        match self {
            Token::Double(bits) => Ok(Some(bits)),
            Token::Null => Ok(None),
            _ => Err(ConversionError { from: "Token", to: "Option<f64>" }),
        }
    }

    /// Optional projection to text: `Null` is absent.
    pub fn to_opt_text(self) -> (r: Result<Option<String>, ConversionError>)
        ensures
            self@ matches TokenV::String(s) ==> (r matches Ok(o) && o matches Some(t) && t@ == s),
            self@ is Null ==> r == Ok::<Option<String>, ConversionError>(None),
            !(self@ is String) && !(self@ is Null) ==> (r matches Err(e)
                && e.from@ == "Token"@ && e.to@ == "Option<String>"@),
    {
        match self {
            Token::String(s) => Ok(Some(s)),
            Token::Null => Ok(None),
            _ => Err(ConversionError { from: "Token", to: "Option<String>" }),
        }
    }

    /// Optional projection to `bool`: `Null` is absent.
    pub fn to_opt_bool(self) -> (r: Result<Option<bool>, ConversionError>)
        ensures
            self@ matches TokenV::Int(v) ==> r == Ok::<Option<bool>, ConversionError>(
                Some(v != 0),
            ),
            self@ is Null ==> r == Ok::<Option<bool>, ConversionError>(None),
            !(self@ is Int) && !(self@ is Null) ==> (r matches Err(e)
                && e.from@ == "Token"@ && e.to@ == "Option<bool>"@),
    {
        match self {
            Token::Int(v) => Ok(Some(v != 0)),
            Token::Null => Ok(None),
            _ => Err(ConversionError { from: "Token", to: "Option<bool>" }),
        }
    }

    /// Optional projection to `usize`: accepts `Array` counts only, `Null` is
    /// absent.
    pub fn to_opt_usize(self) -> (r: Result<Option<usize>, ConversionError>)
        ensures
            self@ matches TokenV::Array(n) ==> r == Ok::<Option<usize>, ConversionError>(
                Some(n),
            ),
            self@ is Null ==> r == Ok::<Option<usize>, ConversionError>(None),
            !(self@ is Array) && !(self@ is Null) ==> (r matches Err(e)
                && e.from@ == "Token"@ && e.to@ == "Option<usize>"@),
    {
        match self {
            Token::Array(n) => Ok(Some(n)),
            Token::Null => Ok(None),
            _ => Err(ConversionError { from: "Token", to: "Option<usize>" }),
        }
    }

    /// Optional projection to `i32`: `Null` is absent.
    pub fn to_opt_i32(self) -> (r: Result<Option<i32>, ConversionError>)
        ensures
            self@ matches TokenV::Int(v) ==> (r matches Ok(o) && o matches Some(w)
                && w == wrap_i32(v)),
            self@ is Null ==> r == Ok::<Option<i32>, ConversionError>(None),
            !(self@ is Int) && !(self@ is Null) ==> (r matches Err(e)
                && e.from@ == "Token"@ && e.to@ == "Option<i32>"@),
    {
        match self {
            Token::Int(v) => match Token::Int(v).to_i32() {
                Ok(w) => Ok(Some(w)),
                Err(_) => Err(ConversionError { from: "Token", to: "Option<i32>" }),
            },
            Token::Null => Ok(None),
            _ => Err(ConversionError { from: "Token", to: "Option<i32>" }),
        }
    }

    /// The textual value of the token, as the CSV export prints it:
    /// decimal for the numeric kinds, the raw text for the textual kinds,
    /// `null` for `Null`.  A `Double` has no verified rendering (its value
    /// is formatted as a float by the caller), so `None` is returned for it.
    pub fn value_string(&self) -> (r: Option<String>)
        ensures
            match self@ {
                TokenV::Int(v) => (r matches Some(s) && s@ == crate::text::dec_string(v as nat)),
                TokenV::Double(_) => r is None,
                TokenV::ClassName(t) => (r matches Some(s) && s@ == t),
                TokenV::ClassInstance(i) => (r matches Some(s) && s@ == crate::text::dec_string(
                    i as nat,
                )),
                TokenV::String(t) => (r matches Some(s) && s@ == t),
                TokenV::Null => (r matches Some(s) && s@ == "null"@),
                TokenV::Array(n) => (r matches Some(s) && s@ == crate::text::dec_string(n as nat)),
                TokenV::Json(t) => (r matches Some(s) && s@ == t),
            },
    {
        match self {
            Token::Int(v) => Some(crate::text::u64_to_decimal(*v)),
            Token::Double(_) => None,
            Token::ClassName(s) => Some(s.clone()),
            Token::ClassInstance(i) => Some(crate::text::u64_to_decimal(*i as u64)),
            Token::String(s) => Some(s.clone()),
            Token::Null => Some("null".to_owned()),
            Token::Array(n) => Some(crate::text::u64_to_decimal(*n as u64)),
            Token::Json(s) => Some(s.clone()),
        }
    }

    /// Optional projection to `i8`: `Null` is absent.
    pub fn to_opt_i8(self) -> (r: Result<Option<i8>, ConversionError>)
        ensures
            self@ matches TokenV::Int(v) ==> (r matches Ok(o) && o matches Some(w)
                && w == wrap_i8(v)),
            self@ is Null ==> r == Ok::<Option<i8>, ConversionError>(None),
            !(self@ is Int) && !(self@ is Null) ==> (r matches Err(e)
                && e.from@ == "Token"@ && e.to@ == "Option<i8>"@),
    {
        match self {
            Token::Int(v) => match Token::Int(v).to_i8() {
                Ok(w) => Ok(Some(w)),
                Err(_) => Err(ConversionError { from: "Token", to: "Option<i8>" }),
            },
            Token::Null => Ok(None),
            _ => Err(ConversionError { from: "Token", to: "Option<i8>" }),
        }
    }
}

} // verus!
