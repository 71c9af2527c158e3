//! The byte-level `SLF0` tokenizer.
//!
//! Each token on the wire is framed as `LHS SIGIL [RHS]`: zero or more
//! prefix bytes, one sigil byte selecting the token kind, and — for the
//! variable-length kinds — exactly `N` payload bytes, where `N` is the
//! prefix read as a decimal number.  [`scan_token_model`] is the
//! mathematical model of one scan step; every scanning function is proved
//! against it.

use crate::text::{
    all_dec_digits, dec_val, parse_dec_u64, parse_dec_usize, parse_double_bits, spec_double_bits,
    string_from_utf8,
};
use crate::token::{Token, TokenType, TokenV};
use vstd::prelude::*;
use vstd::utf8::{decode_utf8, valid_utf8};

verus! {

/// Errors of the byte layer; any of them ends tokenization.
#[derive(Debug, Clone, Copy, PartialEq, Eq, Structural)]
pub enum TokenizeError {
    /// Input ended before a sigil byte, or in the middle of a payload.
    UnexpectedEof,
    /// A sigil that needs a decimal prefix had none, or a malformed or
    /// too-large one.
    InvalidNumber,
    /// A double's prefix was not sixteen hexadecimal digits.
    InvalidDouble,
    /// A payload was not valid UTF-8.
    InvalidUtf8,
    /// A `Null` sigil carried a non-empty prefix.
    NullWithPrefix,
}

/// The token kind selected by a sigil byte: `# ^ % @ " - ( *`.
pub open spec fn sigil_type(b: u8) -> Option<TokenType> {
    if b == 0x23 {  // '#'
        Some(TokenType::Int)
    } else if b == 0x5e {  // '^'
        Some(TokenType::Double)
    } else if b == 0x25 {  // '%'
        Some(TokenType::ClassName)
    } else if b == 0x40 {  // '@'
        Some(TokenType::ClassInstance)
    } else if b == 0x22 {  // '"'
        Some(TokenType::String)
    } else if b == 0x2d {  // '-'
        Some(TokenType::Null)
    } else if b == 0x28 {  // '('
        Some(TokenType::Array)
    } else if b == 0x2a {  // '*'
        Some(TokenType::Json)
    } else {
        None
    }
}

/// Whether `b` is one of the eight sigil bytes.
pub open spec fn is_sigil(b: u8) -> bool {
    sigil_type(b) is Some
}

impl TokenType {
    /// The token kind selected by a sigil byte, if the byte is a sigil.
    pub fn from_sigil(b: u8) -> (r: Option<TokenType>)
        ensures
            r == sigil_type(b),
    {
        if b == 0x23 {
            Some(TokenType::Int)
        } else if b == 0x5e {
            Some(TokenType::Double)
        } else if b == 0x25 {
            Some(TokenType::ClassName)
        } else if b == 0x40 {
            Some(TokenType::ClassInstance)
        } else if b == 0x22 {
            Some(TokenType::String)
        } else if b == 0x2d {
            Some(TokenType::Null)
        } else if b == 0x28 {
            Some(TokenType::Array)
        } else if b == 0x2a {
            Some(TokenType::Json)
        } else {
            None
        }
    }
}

/// Index of the first sigil byte at or after `pos`.
pub open spec fn spec_find_sigil(bytes: Seq<u8>, pos: int) -> Option<int>
    decreases bytes.len() - pos,
    when 0 <= pos <= bytes.len()
{
    if pos >= bytes.len() {
        None
    } else if is_sigil(bytes[pos]) {
        Some(pos)
    } else {
        spec_find_sigil(bytes, pos + 1)
    }
}

/// The first sigil at or after `pos` is within bounds, is a sigil, and no
/// earlier byte is one; if there is none, no byte from `pos` on is a sigil.
pub proof fn lemma_find_sigil(bytes: Seq<u8>, pos: int)
    requires
        0 <= pos <= bytes.len(),
    ensures
        match spec_find_sigil(bytes, pos) {
            Some(idx) => pos <= idx < bytes.len() && is_sigil(bytes[idx]) && (forall|j: int|
                pos <= j < idx ==> !is_sigil(#[trigger] bytes[j])),
            None => forall|j: int| pos <= j < bytes.len() ==> !is_sigil(#[trigger] bytes[j]),
        },
    decreases bytes.len() - pos,
{
    if pos < bytes.len() && !is_sigil(bytes[pos]) {
        lemma_find_sigil(bytes, pos + 1);
    }
}

/// A non-empty decimal digit string whose value fits in a `u64`.
pub open spec fn dec_fits_u64(s: Seq<u8>) -> bool {
    s.len() > 0 && all_dec_digits(s) && dec_val(s) <= u64::MAX
}

/// A non-empty decimal digit string whose value fits in a `usize`.
pub open spec fn dec_fits_usize(s: Seq<u8>) -> bool {
    s.len() > 0 && all_dec_digits(s) && dec_val(s) <= usize::MAX
}

/// Outcome of one scan step: a token and the position just past it, or the
/// error that ends tokenization.
pub enum ScanResult {
    Token { t: TokenV, end: int },
    Fail { err: TokenizeError },
}

/// The mathematical model of one tokenizer step at `pos`: find the sigil,
/// read the prefix before it, and — for `String`, `ClassName` and `Json` —
/// take the payload bytes after it.
pub open spec fn scan_token_model(bytes: Seq<u8>, pos: int) -> ScanResult {
    match spec_find_sigil(bytes, pos) {
        None => ScanResult::Fail { err: TokenizeError::UnexpectedEof },
        Some(idx) => {
            let lhs = bytes.subrange(pos, idx);
            match sigil_type(bytes[idx]).unwrap() {
                TokenType::Null => if lhs.len() == 0 {
                    ScanResult::Token { t: TokenV::Null, end: idx + 1 }
                } else {
                    ScanResult::Fail { err: TokenizeError::NullWithPrefix }
                },
                TokenType::Int => if dec_fits_u64(lhs) {
                    ScanResult::Token { t: TokenV::Int(dec_val(lhs) as u64), end: idx + 1 }
                } else {
                    ScanResult::Fail { err: TokenizeError::InvalidNumber }
                },
                TokenType::Double => match spec_double_bits(lhs) {
                    Some(bits) => ScanResult::Token { t: TokenV::Double(bits), end: idx + 1 },
                    None => ScanResult::Fail { err: TokenizeError::InvalidDouble },
                },
                TokenType::ClassInstance => if dec_fits_usize(lhs) {
                    ScanResult::Token {
                        t: TokenV::ClassInstance(dec_val(lhs) as usize),
                        end: idx + 1,
                    }
                } else {
                    ScanResult::Fail { err: TokenizeError::InvalidNumber }
                },
                TokenType::Array => if dec_fits_usize(lhs) {
                    ScanResult::Token { t: TokenV::Array(dec_val(lhs) as usize), end: idx + 1 }
                } else {
                    ScanResult::Fail { err: TokenizeError::InvalidNumber }
                },
                TokenType::String => scan_payload_model(bytes, idx, lhs, TokenType::String),
                TokenType::ClassName => scan_payload_model(bytes, idx, lhs, TokenType::ClassName),
                TokenType::Json => scan_payload_model(bytes, idx, lhs, TokenType::Json),
            }
        },
    }
}

/// Model of the variable-length kinds: the prefix is the payload's byte
/// length; the payload follows the sigil and must be valid UTF-8.
pub open spec fn scan_payload_model(
    bytes: Seq<u8>,
    idx: int,
    lhs: Seq<u8>,
    kind: TokenType,
) -> ScanResult {
    if !dec_fits_usize(lhs) {
        ScanResult::Fail { err: TokenizeError::InvalidNumber }
    } else {
        let n = dec_val(lhs) as int;
        if idx + 1 + n > bytes.len() {
            ScanResult::Fail { err: TokenizeError::UnexpectedEof }
        } else {
            let payload = bytes.subrange(idx + 1, idx + 1 + n);
            if valid_utf8(payload) {
                let text = decode_utf8(payload);
                ScanResult::Token {
                    t: match kind {
                        TokenType::ClassName => TokenV::ClassName(text),
                        TokenType::Json => TokenV::Json(text),
                        _ => TokenV::String(text),
                    },
                    end: idx + 1 + n,
                }
            } else {
                ScanResult::Fail { err: TokenizeError::InvalidUtf8 }
            }
        }
    }
}

/// A successful scan step always advances and stays within the input.
pub proof fn lemma_scan_token_advances(bytes: Seq<u8>, pos: int)
    requires
        0 <= pos <= bytes.len(),
    ensures
        scan_token_model(bytes, pos) matches ScanResult::Token { t, end } ==> pos < end
            <= bytes.len(),
{
    lemma_find_sigil(bytes, pos);
}

/// The token sequence produced from `pos` on: scan steps until the first
/// failure (which includes running out of input).
pub open spec fn tokenize_model(bytes: Seq<u8>, pos: int) -> Seq<TokenV>
    decreases bytes.len() - pos,
    when 0 <= pos <= bytes.len()
{
    match scan_token_model(bytes, pos) {
        ScanResult::Token { t, end } => if pos < end <= bytes.len() {
            seq![t] + tokenize_model(bytes, end)
        } else {
            seq![t]
        },
        ScanResult::Fail { .. } => seq![],
    }
}

/// Every token the model yields honours the wire framing: the sigil is one
/// of the eight sigil bytes, the prefix before it contains no sigil byte,
/// fixed-size kinds end right after the sigil with the prefix giving the
/// value, and variable-length kinds carry a decimal length prefix and end
/// exactly after that many payload bytes.
pub proof fn lemma_token_framing(bytes: Seq<u8>, pos: int)
    requires
        0 <= pos <= bytes.len(),
        scan_token_model(bytes, pos) is Token,
    ensures
        ({
            let idx = spec_find_sigil(bytes, pos).unwrap();
            let lhs = bytes.subrange(pos, idx);
            let t = scan_token_model(bytes, pos)->Token_t;
            let end = scan_token_model(bytes, pos)->Token_end;
            &&& pos <= idx < bytes.len()
            &&& is_sigil(bytes[idx])
            &&& forall|j: int| pos <= j < idx ==> !is_sigil(#[trigger] bytes[j])
            &&& (t is Null <==> bytes[idx] == 0x2d)
            &&& (t is Int <==> bytes[idx] == 0x23)
            &&& (t is Double <==> bytes[idx] == 0x5e)
            &&& (t is ClassName <==> bytes[idx] == 0x25)
            &&& (t is ClassInstance <==> bytes[idx] == 0x40)
            &&& (t is String <==> bytes[idx] == 0x22)
            &&& (t is Array <==> bytes[idx] == 0x28)
            &&& (t is Json <==> bytes[idx] == 0x2a)
            &&& (t is Null ==> lhs.len() == 0 && end == idx + 1)
            &&& (t matches TokenV::Int(v) ==> dec_fits_u64(lhs) && v == dec_val(lhs) && end == idx
                + 1)
            &&& (t matches TokenV::Double(bits) ==> Some(bits) == spec_double_bits(lhs) && end
                == idx + 1)
            &&& (t matches TokenV::ClassInstance(i) ==> dec_fits_usize(lhs) && i == dec_val(lhs)
                && end == idx + 1)
            &&& (t matches TokenV::Array(n) ==> dec_fits_usize(lhs) && n == dec_val(lhs) && end
                == idx + 1)
            &&& (t is String || t is ClassName || t is Json ==> dec_fits_usize(lhs) && end == idx
                + 1 + dec_val(lhs) && end <= bytes.len() && valid_utf8(
                bytes.subrange(idx + 1, end),
            ))
            &&& (t matches TokenV::String(s) ==> s == decode_utf8(
                bytes.subrange(idx + 1, idx + 1 + dec_val(lhs)),
            ))
            &&& (t matches TokenV::ClassName(s) ==> s == decode_utf8(
                bytes.subrange(idx + 1, idx + 1 + dec_val(lhs)),
            ))
            &&& (t matches TokenV::Json(s) ==> s == decode_utf8(
                bytes.subrange(idx + 1, idx + 1 + dec_val(lhs)),
            ))
        }),
{
    lemma_find_sigil(bytes, pos);
}

/// The byte-level tokenizer over an in-memory `SLF0` stream.
pub struct Parser {
    contents: Vec<u8>,
    pos: usize,
}

impl Parser {
    /// The whole input.
    pub closed spec fn bytes(&self) -> Seq<u8> {
        self.contents@
    }

    /// The current read position.
    pub closed spec fn position(&self) -> int {
        self.pos as int
    }

    /// The read position never leaves the input.
    pub open spec fn wf(&self) -> bool {
        0 <= self.position() <= self.bytes().len()
    }

    /// A tokenizer at the start of `contents`.
    pub fn new(contents: Vec<u8>) -> (r: Parser)
        ensures
            r.bytes() == contents@,
            r.position() == 0,
            r.wf(),
    {
        Parser { contents, pos: 0 }
    }

    /// Reads and discards the four header bytes (`SLF0`); their content is
    /// not verified.  Fails exactly when fewer than four bytes remain.
    pub fn scan_header(&mut self) -> (r: Result<(), TokenizeError>)
        requires
            old(self).wf(),
        ensures
            final(self).wf(),
            final(self).bytes() == old(self).bytes(),
            old(self).bytes().len() - old(self).position() >= 4 ==> r is Ok && final(self).position()
                == old(self).position() + 4,
            old(self).bytes().len() - old(self).position() < 4 ==> r
                == Err::<(), TokenizeError>(TokenizeError::UnexpectedEof) && final(self).position()
                == old(self).position(),
    {
        if self.contents.len() - self.pos >= 4 {
            self.pos = self.pos + 4;
            Ok(())
        } else {
            Err(TokenizeError::UnexpectedEof)
        }
    }

    /// Accumulates prefix bytes until the first sigil byte and returns the
    /// prefix (`None` when empty) with the kind the sigil selects.  Fails
    /// exactly when the input ends before any sigil.
    pub fn scan_lhs_and_token_type(&mut self) -> (r: Result<
        (Option<Vec<u8>>, TokenType),
        TokenizeError,
    >)
        requires
            old(self).wf(),
        ensures
            final(self).wf(),
            final(self).bytes() == old(self).bytes(),
            match spec_find_sigil(old(self).bytes(), old(self).position()) {
                Some(idx) => r matches Ok((lhs, tt)) && {
                    &&& Some(tt) == sigil_type(old(self).bytes()[idx])
                    &&& final(self).position() == idx + 1
                    &&& match lhs {
                        Some(v) => idx > old(self).position() && v@ == old(self).bytes().subrange(
                            old(self).position(),
                            idx,
                        ),
                        None => idx == old(self).position(),
                    }
                },
                None => r == Err::<(Option<Vec<u8>>, TokenType), TokenizeError>(
                    TokenizeError::UnexpectedEof,
                ) && final(self).position() == old(self).bytes().len(),
            },
    {
        let ghost orig = self.contents@;
        let ghost start = self.pos as int;
        let total = self.contents.len();
        proof {
            assert(orig.len() == total as int);
        }
        let mut lhs: Vec<u8> = Vec::new();
        while self.pos < self.contents.len()
            invariant
                self.contents@ == orig,
                orig == old(self).bytes(),
                start == old(self).position(),
                orig.len() <= usize::MAX,
                0 <= start <= self.pos as int <= orig.len(),
                lhs@ == orig.subrange(start, self.pos as int),
                spec_find_sigil(orig, start) == spec_find_sigil(orig, self.pos as int),
            decreases orig.len() - self.pos as int,
        {
            let b = self.contents[self.pos];
            match TokenType::from_sigil(b) {
                Some(tt) => {
                    self.pos = self.pos + 1;
                    let payload = if lhs.len() == 0 {
                        None
                    } else {
                        Some(lhs)
                    };
                    return Ok((payload, tt));
                },
                None => {
                    proof {
                        assert(orig.subrange(start, self.pos as int + 1) =~= orig.subrange(
                            start,
                            self.pos as int,
                        ).push(orig[self.pos as int]));
                    }
                    lhs.push(b);
                    self.pos = self.pos + 1;
                },
            }
        }
        Err(TokenizeError::UnexpectedEof)
    }

    /// Reads exactly `n` payload bytes; fails (without moving) when fewer
    /// remain.
    fn read_payload(&mut self, n: usize) -> (r: Option<Vec<u8>>)
        requires
            old(self).wf(),
        ensures
            final(self).wf(),
            final(self).bytes() == old(self).bytes(),
            old(self).position() + n <= old(self).bytes().len() ==> (r matches Some(v) && v@
                == old(self).bytes().subrange(old(self).position(), old(self).position() + n)
                && final(self).position() == old(self).position() + n),
            old(self).position() + n > old(self).bytes().len() ==> r is None && final(self).position()
                == old(self).position(),
    {
        let ghost orig = self.contents@;
        let ghost start = self.pos as int;
        if n > self.contents.len() - self.pos {
            return None;
        }
        let mut v: Vec<u8> = Vec::new();
        let mut i: usize = 0;
        while i < n
            invariant
                self.contents@ == orig,
                orig == old(self).bytes(),
                start == old(self).position(),
                orig.len() <= usize::MAX,
                0 <= start,
                start + n <= orig.len(),
                self.pos as int == start + i,
                0 <= i <= n,
                v@ == orig.subrange(start, start + i as int),
            decreases n - i,
        {
            proof {
                assert(orig.subrange(start, start + i as int + 1) =~= orig.subrange(
                    start,
                    start + i as int,
                ).push(orig[start + i as int]));
            }
            v.push(self.contents[self.pos]);
            self.pos = self.pos + 1;
            i = i + 1;
        }
        Some(v)
    }

    /// Scans one token, exactly as [`scan_token_model`] describes.
    pub fn scan_token(&mut self) -> (r: Result<Token, TokenizeError>)
        requires
            old(self).wf(),
        ensures
            final(self).wf(),
            final(self).bytes() == old(self).bytes(),
            match scan_token_model(old(self).bytes(), old(self).position()) {
                ScanResult::Token { t, end } => r matches Ok(tok) && tok@ == t && final(self).position()
                    == end,
                ScanResult::Fail { err } => r == Err::<Token, TokenizeError>(err),
            },
    {
        let ghost orig = self.contents@;
        let ghost start = self.pos as int;
        let (lhs_opt, tt) = match self.scan_lhs_and_token_type() {
            Ok(x) => x,
            Err(e) => {
                return Err(e);
            },
        };
        let ghost idx = spec_find_sigil(orig, start).unwrap();
        let lhs: Vec<u8> = match lhs_opt {
            Some(v) => v,
            None => Vec::new(),
        };
        proof {
            assert(lhs@ =~= orig.subrange(start, idx));
        }
        match tt {
            TokenType::Null => {
                if lhs.len() == 0 {
                    Ok(Token::Null)
                } else {
                    Err(TokenizeError::NullWithPrefix)
                }
            },
            TokenType::Int => match parse_dec_u64(&lhs) {
                Some(v) => Ok(Token::Int(v)),
                None => Err(TokenizeError::InvalidNumber),
            },
            TokenType::Double => match parse_double_bits(&lhs) {
                Some(bits) => Ok(Token::Double(bits)),
                None => Err(TokenizeError::InvalidDouble),
            },
            TokenType::ClassInstance => match parse_dec_usize(&lhs) {
                Some(v) => Ok(Token::ClassInstance(v)),
                None => Err(TokenizeError::InvalidNumber),
            },
            TokenType::Array => match parse_dec_usize(&lhs) {
                Some(v) => Ok(Token::Array(v)),
                None => Err(TokenizeError::InvalidNumber),
            },
            TokenType::String | TokenType::ClassName | TokenType::Json => {
                let n = match parse_dec_usize(&lhs) {
                    Some(v) => v,
                    None => {
                        return Err(TokenizeError::InvalidNumber);
                    },
                };
                let payload = match self.read_payload(n) {
                    Some(p) => p,
                    None => {
                        return Err(TokenizeError::UnexpectedEof);
                    },
                };
                match string_from_utf8(payload) {
                    Some(s) => Ok(
                        match tt {
                            TokenType::ClassName => Token::ClassName(s),
                            TokenType::Json => Token::Json(s),
                            _ => Token::String(s),
                        },
                    ),
                    None => Err(TokenizeError::InvalidUtf8),
                }
            },
        }
    }

    /// Consumes the header and hands the stream over to token iteration.
    /// The input must still hold the four header bytes.
    pub fn iter(self) -> (r: ParserIterator)
        requires
            self.wf(),
            self.bytes().len() - self.position() >= 4,
        ensures
            r.wf(),
            r.bytes() == self.bytes(),
            r.position() == self.position() + 4,
    {
        let mut parser = self;
        match parser.scan_header() {
            Ok(()) => ParserIterator { parser },
            Err(_) => unreached(),
        }
    }
}

/// Pulls tokens one at a time; the first tokenizer error ends iteration.
pub struct ParserIterator {
    parser: Parser,
}

impl ParserIterator {
    /// The whole input.
    pub closed spec fn bytes(&self) -> Seq<u8> {
        self.parser.bytes()
    }

    /// The current read position.
    pub closed spec fn position(&self) -> int {
        self.parser.position()
    }

    /// The read position never leaves the input.
    pub open spec fn wf(&self) -> bool {
        0 <= self.position() <= self.bytes().len()
    }

    /// The next token, or `None` on the first error (which includes plain
    /// end of input).
    pub fn next(&mut self) -> (r: Option<Token>)
        requires
            old(self).wf(),
        ensures
            final(self).wf(),
            final(self).bytes() == old(self).bytes(),
            match scan_token_model(old(self).bytes(), old(self).position()) {
                ScanResult::Token { t, end } => r matches Some(tok) && tok@ == t && final(self).position()
                    == end,
                ScanResult::Fail { .. } => r is None,
            },
    {
        match self.parser.scan_token() {
            Ok(t) => Some(t),
            Err(_) => None,
        }
    }

    /// Drains the stream: all tokens up to the first error or the end of
    /// input, in wire order.
    pub fn collect_tokens(&mut self) -> (r: Vec<Token>)
        requires
            old(self).wf(),
        ensures
            final(self).wf(),
            final(self).bytes() == old(self).bytes(),
            r@.map_values(|t: Token| t@) == tokenize_model(old(self).bytes(), old(self).position()),
    {
        let ghost orig = self.bytes();
        let ghost start = self.position();
        let mut out: Vec<Token> = Vec::new();
        loop
            invariant
                self.wf(),
                self.bytes() == orig,
                orig == old(self).bytes(),
                start == old(self).position(),
                0 <= start <= orig.len(),
                tokenize_model(orig, start) == out@.map_values(|t: Token| t@) + tokenize_model(
                    orig,
                    self.position(),
                ),
            decreases orig.len() - self.position(),
        {
            let ghost before = self.position();
            match self.next() {
                Some(tok) => {
                    proof {
                        lemma_scan_token_advances(orig, before);
                        assert(out@.push(tok)
                            .map_values(|t: Token| t@) =~= out@.map_values(|t: Token| t@).push(
                            tok@,
                        ));
                        assert(out@.map_values(|t: Token| t@).push(tok@) + tokenize_model(
                            orig,
                            self.position(),
                        ) =~= out@.map_values(|t: Token| t@) + (seq![tok@] + tokenize_model(
                            orig,
                            self.position(),
                        )));
                    }
                    out.push(tok);
                },
                None => {
                    proof {
                        assert(scan_token_model(orig, before) is Fail);
                        assert(tokenize_model(orig, before) =~= Seq::<TokenV>::empty());
                        assert(out@.map_values(|t: Token| t@) + tokenize_model(orig, before)
                            =~= out@.map_values(|t: Token| t@));
                    }
                    return out;
                },
            }
        }
    }
}

} // verus!
