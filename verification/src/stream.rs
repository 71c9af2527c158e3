//! The token stream the object reconstructor consumes, with one read
//! helper per slot shape of the class schemas.  Each helper is proved
//! against a small `rd_*` model over the token sequence and position.

use crate::token::{ConversionError, Token, TokenType, TokenV};
use vstd::prelude::*;

verus! {

/// Errors of the schema layer; any of them aborts the decode.
#[derive(Debug, PartialEq)]
pub enum DecodeError {
    /// The token stream ended where the schema required a slot.
    UnexpectedEnd,
    /// A slot held a token of the wrong kind.
    Conversion(ConversionError),
    /// A class-instance reference outside the registry.
    ClassIndexOutOfRange(usize),
    /// A class name that no schema handles.
    UnknownClass(String),
    /// A slot that must hold a class instance, a class name, or an absence
    /// marker held something else.
    UnexpectedToken(TokenType),
    /// Sub-object nesting deeper than the configured limit.
    DepthExceeded,
    /// An attachment's JSON blob that `serde_json` rejects.
    InvalidJson,
}

/// Mathematical image of a [`DecodeError`].
pub enum DecodeErrorV {
    UnexpectedEnd,
    Conversion { from: Seq<char>, to: Seq<char> },
    ClassIndexOutOfRange(usize),
    UnknownClass(Seq<char>),
    UnexpectedToken(TokenType),
    DepthExceeded,
    InvalidJson,
}

impl View for DecodeError {
    type V = DecodeErrorV;

    open spec fn view(&self) -> DecodeErrorV {
        match self {
            DecodeError::UnexpectedEnd => DecodeErrorV::UnexpectedEnd,
            DecodeError::Conversion(c) => DecodeErrorV::Conversion { from: c.from@, to: c.to@ },
            DecodeError::ClassIndexOutOfRange(i) => DecodeErrorV::ClassIndexOutOfRange(*i),
            DecodeError::UnknownClass(s) => DecodeErrorV::UnknownClass(s@),
            DecodeError::UnexpectedToken(t) => DecodeErrorV::UnexpectedToken(*t),
            DecodeError::DepthExceeded => DecodeErrorV::DepthExceeded,
            DecodeError::InvalidJson => DecodeErrorV::InvalidJson,
        }
    }
}

/// The views of the registry's class names.
pub open spec fn names_view(registry: Seq<String>) -> Seq<Seq<char>> {
    registry.map_values(|s: String| s@)
}

/// Looks up a 1-based class-registry index; out of range is a decode error.
pub fn lookup_class_name(registry: &Vec<String>, index: usize) -> (r: Result<&String, DecodeError>)
    ensures
        1 <= index <= registry@.len() ==> (r matches Ok(s) && s@ == names_view(registry@)[index
            - 1]),
        !(1 <= index <= registry@.len()) ==> (r matches Err(e) && e@
            == DecodeErrorV::ClassIndexOutOfRange(index)),
{
    if 1 <= index && index <= registry.len() {
        Ok(&registry[index - 1])
    } else {
        Err(DecodeError::ClassIndexOutOfRange(index))
    }
}

/// The position after consuming one token, if one is there.
pub open spec fn bump(t: Seq<TokenV>, pos: int) -> int {
    if pos < t.len() {
        pos + 1
    } else {
        pos
    }
}

/// Model of a required `u64` slot.
pub open spec fn rd_u64(t: Seq<TokenV>, pos: int) -> Result<(u64, int), DecodeErrorV> {
    if pos >= t.len() {
        Err(DecodeErrorV::UnexpectedEnd)
    } else {
        match t[pos] {
            TokenV::Int(v) => Ok((v, pos + 1)),
            _ => Err(DecodeErrorV::Conversion { from: "Token"@, to: "u64"@ }),
        }
    }
}

/// Model of a required `bool` slot (an `Int`, true iff non-zero).
pub open spec fn rd_bool(t: Seq<TokenV>, pos: int) -> Result<(bool, int), DecodeErrorV> {
    if pos >= t.len() {
        Err(DecodeErrorV::UnexpectedEnd)
    } else {
        match t[pos] {
            TokenV::Int(v) => Ok((v != 0, pos + 1)),
            _ => Err(DecodeErrorV::Conversion { from: "Token"@, to: "bool"@ }),
        }
    }
}

/// Model of a required `i8` slot (an `Int`, wrapped).
pub open spec fn rd_i8(t: Seq<TokenV>, pos: int) -> Result<(i8, int), DecodeErrorV> {
    if pos >= t.len() {
        Err(DecodeErrorV::UnexpectedEnd)
    } else {
        match t[pos] {
            TokenV::Int(v) => Ok((crate::token::wrap_i8(v) as i8, pos + 1)),
            _ => Err(DecodeErrorV::Conversion { from: "Token"@, to: "i8"@ }),
        }
    }
}

/// Model of a required `i32` slot (an `Int`, wrapped).
pub open spec fn rd_i32(t: Seq<TokenV>, pos: int) -> Result<(i32, int), DecodeErrorV> {
    if pos >= t.len() {
        Err(DecodeErrorV::UnexpectedEnd)
    } else {
        match t[pos] {
            TokenV::Int(v) => Ok((crate::token::wrap_i32(v) as i32, pos + 1)),
            _ => Err(DecodeErrorV::Conversion { from: "Token"@, to: "i32"@ }),
        }
    }
}

/// Model of a required double slot (bit pattern).
pub open spec fn rd_double(t: Seq<TokenV>, pos: int) -> Result<(u64, int), DecodeErrorV> {
    if pos >= t.len() {
        Err(DecodeErrorV::UnexpectedEnd)
    } else {
        match t[pos] {
            TokenV::Double(bits) => Ok((bits, pos + 1)),
            _ => Err(DecodeErrorV::Conversion { from: "Token"@, to: "f64"@ }),
        }
    }
}

/// Model of a required text slot.
pub open spec fn rd_text(t: Seq<TokenV>, pos: int) -> Result<(Seq<char>, int), DecodeErrorV> {
    if pos >= t.len() {
        Err(DecodeErrorV::UnexpectedEnd)
    } else {
        match t[pos] {
            TokenV::String(s) => Ok((s, pos + 1)),
            _ => Err(DecodeErrorV::Conversion { from: "Token"@, to: "String"@ }),
        }
    }
}

/// Model of an optional text slot (`Null` is absent).
pub open spec fn rd_opt_text(t: Seq<TokenV>, pos: int) -> Result<
    (Option<Seq<char>>, int),
    DecodeErrorV,
> {
    if pos >= t.len() {
        Err(DecodeErrorV::UnexpectedEnd)
    } else {
        match t[pos] {
            TokenV::String(s) => Ok((Some(s), pos + 1)),
            TokenV::Null => Ok((None, pos + 1)),
            _ => Err(DecodeErrorV::Conversion { from: "Token"@, to: "Option<String>"@ }),
        }
    }
}

/// Model of a count slot: an `Array` header gives the count, `Null` counts
/// as zero.
pub open spec fn rd_count(t: Seq<TokenV>, pos: int) -> Result<(usize, int), DecodeErrorV> {
    if pos >= t.len() {
        Err(DecodeErrorV::UnexpectedEnd)
    } else {
        match t[pos] {
            TokenV::Array(n) => Ok((n, pos + 1)),
            TokenV::Null => Ok((0usize, pos + 1)),
            _ => Err(DecodeErrorV::Conversion { from: "Token"@, to: "Option<usize>"@ }),
        }
    }
}

/// Model of the class-instance slot every schema consumes first: a
/// `ClassInstance` (or `Array`) token read as `usize`.
pub open spec fn rd_instance(t: Seq<TokenV>, pos: int) -> Result<(usize, int), DecodeErrorV> {
    if pos >= t.len() {
        Err(DecodeErrorV::UnexpectedEnd)
    } else {
        match t[pos] {
            TokenV::ClassInstance(i) => Ok((i, pos + 1)),
            TokenV::Array(n) => Ok((n, pos + 1)),
            _ => Err(DecodeErrorV::Conversion { from: "Token"@, to: "usize"@ }),
        }
    }
}

// ---------------------------------------------------------------------------
// Trailing-field probes
// ---------------------------------------------------------------------------
/// Probes an optional `u64` trailing slot: consumed only when `on` holds
/// and the next token is `Int` or `Null`.  Never fails.
pub open spec fn probe_opt_u64(t: Seq<TokenV>, pos: int, on: bool) -> (bool, Option<u64>, int) {
    if on && pos < t.len() && (t[pos] is Int || t[pos] is Null) {
        match t[pos] {
            TokenV::Int(v) => (true, Some(v), pos + 1),
            _ => (true, None, pos + 1),
        }
    } else {
        (false, None, pos)
    }
}

/// Probes a `bool` trailing slot: consumed only when `on` holds and the
/// next token is `Int` or `Null`; `Null` counts as false.  Never fails.
pub open spec fn probe_bool(t: Seq<TokenV>, pos: int, on: bool) -> (bool, bool, int) {
    if on && pos < t.len() && (t[pos] is Int || t[pos] is Null) {
        match t[pos] {
            TokenV::Int(v) => (true, v != 0, pos + 1),
            _ => (true, false, pos + 1),
        }
    } else {
        (false, false, pos)
    }
}

/// Probes an optional text trailing slot: consumed only when `on` holds
/// and the next token is `String` or `Null`.  Never fails.
pub open spec fn probe_opt_text(t: Seq<TokenV>, pos: int, on: bool) -> (
    bool,
    Option<Seq<char>>,
    int,
) {
    if on && pos < t.len() && (t[pos] is String || t[pos] is Null) {
        match t[pos] {
            TokenV::String(s) => (true, Some(s), pos + 1),
            _ => (true, None, pos + 1),
        }
    } else {
        (false, None, pos)
    }
}

/// A peekable stream over already-scanned tokens.
pub struct TokenStream {
    tokens: Vec<Token>,
    pos: usize,
}

impl TokenStream {
    /// The views of all tokens.
    pub closed spec fn toks(&self) -> Seq<TokenV> {
        self.tokens@.map_values(|t: Token| t@)
    }

    /// The current read position.
    pub closed spec fn position(&self) -> int {
        self.pos as int
    }

    /// The read position never leaves the token list.
    pub open spec fn wf(&self) -> bool {
        0 <= self.position() <= self.toks().len()
    }

    /// A stream at the start of `tokens`.
    pub fn new(tokens: Vec<Token>) -> (r: TokenStream)
        ensures
            r.toks() == tokens@.map_values(|t: Token| t@),
            r.position() == 0,
            r.wf(),
    {
        TokenStream { tokens, pos: 0 }
    }

    /// A borrow of the next token, without consuming it.
    pub fn peek(&self) -> (r: Option<&Token>)
        requires
            self.wf(),
        ensures
            self.position() < self.toks().len() ==> (r matches Some(t) && t@ == self.toks()[self.position()]),
            self.position() >= self.toks().len() ==> r is None,
    {
        if self.pos < self.tokens.len() {
            Some(&self.tokens[self.pos])
        } else {
            None
        }
    }

    /// The next token, consumed; `None` at the end of the stream.
    pub fn next(&mut self) -> (r: Option<Token>)
        requires
            old(self).wf(),
        ensures
            final(self).wf(),
            final(self).toks() == old(self).toks(),
            old(self).position() < old(self).toks().len() ==> (r matches Some(t) && t@ == old(
                self,
            ).toks()[old(self).position()] && final(self).position() == old(self).position() + 1),
            old(self).position() >= old(self).toks().len() ==> (r is None && final(self).position()
                == old(self).position()),
    {
        if self.pos < self.tokens.len() {
            let t = self.tokens[self.pos].clone();
            self.pos = self.pos + 1;
            Some(t)
        } else {
            None
        }
    }

    /// Consumes up to `n` tokens; fewer only when the stream ends first.
    pub fn skip(&mut self, n: usize)
        requires
            old(self).wf(),
        ensures
            final(self).wf(),
            final(self).toks() == old(self).toks(),
            final(self).position() == if old(self).position() + n <= old(self).toks().len() {
                old(self).position() + n
            } else {
                old(self).toks().len() as int
            },
    {
        if n <= self.tokens.len() - self.pos {
            self.pos = self.pos + n;
        } else {
            self.pos = self.tokens.len();
        }
    }

    /// Reads a required `u64` slot.
    pub fn read_u64(&mut self) -> (r: Result<u64, DecodeError>)
        requires
            old(self).wf(),
        ensures
            final(self).wf(),
            final(self).toks() == old(self).toks(),
            match rd_u64(old(self).toks(), old(self).position()) {
                Ok((v, p)) => r == Ok::<u64, DecodeError>(v) && final(self).position() == p,
                Err(e) => (r matches Err(de) && de@ == e && final(self).position() == bump(
                    old(self).toks(),
                    old(self).position(),
                )),
            },
    {
        match self.next() {
            None => Err(DecodeError::UnexpectedEnd),
            Some(t) => match t.to_u64() {
                Ok(v) => Ok(v),
                Err(c) => Err(DecodeError::Conversion(c)),
            },
        }
    }

    /// Reads a required `bool` slot.
    pub fn read_bool(&mut self) -> (r: Result<bool, DecodeError>)
        requires
            old(self).wf(),
        ensures
            final(self).wf(),
            final(self).toks() == old(self).toks(),
            match rd_bool(old(self).toks(), old(self).position()) {
                Ok((v, p)) => r == Ok::<bool, DecodeError>(v) && final(self).position() == p,
                Err(e) => (r matches Err(de) && de@ == e && final(self).position() == bump(
                    old(self).toks(),
                    old(self).position(),
                )),
            },
    {
        match self.next() {
            None => Err(DecodeError::UnexpectedEnd),
            Some(t) => match t.to_bool() {
                Ok(v) => Ok(v),
                Err(c) => Err(DecodeError::Conversion(c)),
            },
        }
    }

    /// Reads a required `i8` slot.
    pub fn read_i8(&mut self) -> (r: Result<i8, DecodeError>)
        requires
            old(self).wf(),
        ensures
            final(self).wf(),
            final(self).toks() == old(self).toks(),
            match rd_i8(old(self).toks(), old(self).position()) {
                Ok((v, p)) => r == Ok::<i8, DecodeError>(v) && final(self).position() == p,
                Err(e) => (r matches Err(de) && de@ == e && final(self).position() == bump(
                    old(self).toks(),
                    old(self).position(),
                )),
            },
    {
        match self.next() {
            None => Err(DecodeError::UnexpectedEnd),
            Some(t) => match t.to_i8() {
                Ok(v) => Ok(v),
                Err(c) => Err(DecodeError::Conversion(c)),
            },
        }
    }

    /// Reads a required `i32` slot.
    pub fn read_i32(&mut self) -> (r: Result<i32, DecodeError>)
        requires
            old(self).wf(),
        ensures
            final(self).wf(),
            final(self).toks() == old(self).toks(),
            match rd_i32(old(self).toks(), old(self).position()) {
                Ok((v, p)) => r == Ok::<i32, DecodeError>(v) && final(self).position() == p,
                Err(e) => (r matches Err(de) && de@ == e && final(self).position() == bump(
                    old(self).toks(),
                    old(self).position(),
                )),
            },
    {
        match self.next() {
            None => Err(DecodeError::UnexpectedEnd),
            Some(t) => match t.to_i32() {
                Ok(v) => Ok(v),
                Err(c) => Err(DecodeError::Conversion(c)),
            },
        }
    }

    /// Reads a required double slot (bit pattern).
    pub fn read_double_bits(&mut self) -> (r: Result<u64, DecodeError>)
        requires
            old(self).wf(),
        ensures
            final(self).wf(),
            final(self).toks() == old(self).toks(),
            match rd_double(old(self).toks(), old(self).position()) {
                Ok((v, p)) => r == Ok::<u64, DecodeError>(v) && final(self).position() == p,
                Err(e) => (r matches Err(de) && de@ == e && final(self).position() == bump(
                    old(self).toks(),
                    old(self).position(),
                )),
            },
    {
        match self.next() {
            None => Err(DecodeError::UnexpectedEnd),
            Some(t) => match t.to_double_bits() {
                Ok(v) => Ok(v),
                Err(c) => Err(DecodeError::Conversion(c)),
            },
        }
    }

    /// Reads a required text slot.
    pub fn read_text(&mut self) -> (r: Result<String, DecodeError>)
        requires
            old(self).wf(),
        ensures
            final(self).wf(),
            final(self).toks() == old(self).toks(),
            match rd_text(old(self).toks(), old(self).position()) {
                Ok((s, p)) => (r matches Ok(v) && v@ == s && final(self).position() == p),
                Err(e) => (r matches Err(de) && de@ == e && final(self).position() == bump(
                    old(self).toks(),
                    old(self).position(),
                )),
            },
    {
        match self.next() {
            None => Err(DecodeError::UnexpectedEnd),
            Some(t) => match t.to_text() {
                Ok(v) => Ok(v),
                Err(c) => Err(DecodeError::Conversion(c)),
            },
        }
    }

    /// Reads an optional text slot (`Null` is absent).
    pub fn read_opt_text(&mut self) -> (r: Result<Option<String>, DecodeError>)
        requires
            old(self).wf(),
        ensures
            final(self).wf(),
            final(self).toks() == old(self).toks(),
            match rd_opt_text(old(self).toks(), old(self).position()) {
                Ok((s, p)) => (r matches Ok(v) && final(self).position() == p && match v {
                    Some(x) => s matches Some(sv) && x@ == sv,
                    None => s is None,
                }),
                Err(e) => (r matches Err(de) && de@ == e && final(self).position() == bump(
                    old(self).toks(),
                    old(self).position(),
                )),
            },
    {
        match self.next() {
            None => Err(DecodeError::UnexpectedEnd),
            Some(t) => match t.to_opt_text() {
                Ok(v) => Ok(v),
                Err(c) => Err(DecodeError::Conversion(c)),
            },
        }
    }

    /// Reads a count slot: an `Array` header's count, `Null` as zero.
    pub fn read_count(&mut self) -> (r: Result<usize, DecodeError>)
        requires
            old(self).wf(),
        ensures
            final(self).wf(),
            final(self).toks() == old(self).toks(),
            match rd_count(old(self).toks(), old(self).position()) {
                Ok((v, p)) => r == Ok::<usize, DecodeError>(v) && final(self).position() == p,
                Err(e) => (r matches Err(de) && de@ == e && final(self).position() == bump(
                    old(self).toks(),
                    old(self).position(),
                )),
            },
    {
        match self.next() {
            None => Err(DecodeError::UnexpectedEnd),
            Some(t) => match t.to_opt_usize() {
                Ok(Some(v)) => Ok(v),
                Ok(None) => Ok(0),
                Err(c) => Err(DecodeError::Conversion(c)),
            },
        }
    }

    /// Probes an optional `u64` trailing slot.
    pub fn probe_opt_u64_slot(&mut self, on: bool) -> (r: (bool, Option<u64>))
        requires
            old(self).wf(),
        ensures
            final(self).wf(),
            final(self).toks() == old(self).toks(),
            ({
                let (f, v, p) = probe_opt_u64(old(self).toks(), old(self).position(), on);
                r.0 == f && r.1 == v && final(self).position() == p
            }),
    {
        let hit = on && match self.peek() {
            Some(Token::Int(_)) | Some(Token::Null) => true,
            _ => false,
        };
        if hit {
            match self.next() {
                Some(Token::Int(v)) => (true, Some(v)),
                Some(Token::Null) => (true, None),
                _ => unreached(),
            }
        } else {
            (false, None)
        }
    }

    /// Probes a `bool` trailing slot (`Null` counts as false).
    pub fn probe_bool_slot(&mut self, on: bool) -> (r: (bool, bool))
        requires
            old(self).wf(),
        ensures
            final(self).wf(),
            final(self).toks() == old(self).toks(),
            ({
                let (f, v, p) = probe_bool(old(self).toks(), old(self).position(), on);
                r.0 == f && r.1 == v && final(self).position() == p
            }),
    {
        let hit = on && match self.peek() {
            Some(Token::Int(_)) | Some(Token::Null) => true,
            _ => false,
        };
        if hit {
            match self.next() {
                Some(Token::Int(v)) => (true, v != 0),
                Some(Token::Null) => (true, false),
                _ => unreached(),
            }
        } else {
            (false, false)
        }
    }

    /// Probes an optional text trailing slot.
    pub fn probe_opt_text_slot(&mut self, on: bool) -> (r: (bool, Option<String>))
        requires
            old(self).wf(),
        ensures
            final(self).wf(),
            final(self).toks() == old(self).toks(),
            ({
                let (f, v, p) = probe_opt_text(old(self).toks(), old(self).position(), on);
                r.0 == f && final(self).position() == p && match r.1 {
                    Some(x) => v matches Some(sv) && x@ == sv,
                    None => v is None,
                }
            }),
    {
        let hit = on && match self.peek() {
            Some(Token::String(_)) | Some(Token::Null) => true,
            _ => false,
        };
        if hit {
            match self.next() {
                Some(Token::String(s)) => (true, Some(s)),
                Some(Token::Null) => (true, None),
                _ => unreached(),
            }
        } else {
            (false, None)
        }
    }

    /// Reads the class-instance slot that starts every schema.
    pub fn read_instance(&mut self) -> (r: Result<usize, DecodeError>)
        requires
            old(self).wf(),
        ensures
            final(self).wf(),
            final(self).toks() == old(self).toks(),
            match rd_instance(old(self).toks(), old(self).position()) {
                Ok((v, p)) => r == Ok::<usize, DecodeError>(v) && final(self).position() == p,
                Err(e) => (r matches Err(de) && de@ == e && final(self).position() == bump(
                    old(self).toks(),
                    old(self).position(),
                )),
            },
    {
        match self.next() {
            None => Err(DecodeError::UnexpectedEnd),
            Some(t) => match t.to_usize() {
                Ok(v) => Ok(v),
                Err(c) => Err(DecodeError::Conversion(c)),
            },
        }
    }
}

} // verus!
