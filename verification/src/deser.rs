//! The top-level driver: it walks the token stream, interns class names,
//! dispatches class instances to the matching schema, and yields one
//! reconstructed object per pull.  [`top_next_model`] is the mathematical
//! model of one pull; [`Deserializer::next`] is proved equal to it.

use crate::log_class::{
    class_name_is, DVTDocumentLocation, IDEActivityLogCommandInvocationSection,
    IDEActivityLogMessage, IDEActivityLogSection, IDEActivityLogSectionAttachment,
    IDEActivityLogUnitTestSection, IDECommandLineBuildLog,
};
use crate::schema::{
    decode_attachment, decode_build_log, decode_command_invocation_section, decode_location,
    decode_message, decode_section, decode_unit_test_section, DRes,
    DVTDocumentLocationV, IDEActivityLogCommandInvocationSectionV, IDEActivityLogMessageV,
    IDEActivityLogSectionAttachmentV, IDEActivityLogSectionV, IDEActivityLogUnitTestSectionV,
    IDECommandLineBuildLogV, DEFAULT_MAX_DEPTH,
};
use crate::stream::{lookup_class_name, names_view, DecodeError, DecodeErrorV, TokenStream};
use crate::token::{Token, TokenType, TokenV};
use vstd::prelude::*;

verus! {

/// A reconstructed top-level object.
#[derive(Debug, PartialEq)]
pub enum XActivityLogObject {
    IDECommandLineBuildLog(IDECommandLineBuildLog),
    IDEActivityLogSection(IDEActivityLogSection),
    IDEActivityLogMessage(IDEActivityLogMessage),
    IDEActivityLogSectionAttachment(IDEActivityLogSectionAttachment),
    IDEActivityLogUnitTestSection(IDEActivityLogUnitTestSection),
    DVTDocumentLocation(DVTDocumentLocation),
    IDEActivityLogCommandInvocationSection(IDEActivityLogCommandInvocationSection),
}

/// Mathematical image of a top-level object.
pub enum XActivityLogObjectV {
    IDECommandLineBuildLog(IDECommandLineBuildLogV),
    IDEActivityLogSection(IDEActivityLogSectionV),
    IDEActivityLogMessage(IDEActivityLogMessageV),
    IDEActivityLogSectionAttachment(IDEActivityLogSectionAttachmentV),
    IDEActivityLogUnitTestSection(IDEActivityLogUnitTestSectionV),
    DVTDocumentLocation(DVTDocumentLocationV),
    IDEActivityLogCommandInvocationSection(IDEActivityLogCommandInvocationSectionV),
}

impl View for XActivityLogObject {
    type V = XActivityLogObjectV;

    open spec fn view(&self) -> XActivityLogObjectV {
        match self {
            XActivityLogObject::IDECommandLineBuildLog(x) =>
                XActivityLogObjectV::IDECommandLineBuildLog(x@),
            XActivityLogObject::IDEActivityLogSection(x) =>
                XActivityLogObjectV::IDEActivityLogSection(x@),
            XActivityLogObject::IDEActivityLogMessage(x) =>
                XActivityLogObjectV::IDEActivityLogMessage(x@),
            XActivityLogObject::IDEActivityLogSectionAttachment(x) =>
                XActivityLogObjectV::IDEActivityLogSectionAttachment(x@),
            XActivityLogObject::IDEActivityLogUnitTestSection(x) =>
                XActivityLogObjectV::IDEActivityLogUnitTestSection(x@),
            XActivityLogObject::DVTDocumentLocation(x) =>
                XActivityLogObjectV::DVTDocumentLocation(x@),
            XActivityLogObject::IDEActivityLogCommandInvocationSection(x) =>
                XActivityLogObjectV::IDEActivityLogCommandInvocationSection(x@),
        }
    }
}

/// Outcome of one top-level pull: an object, the end of the stream, or a
/// decode error.
pub enum TopRes {
    Item { v: XActivityLogObjectV, pos: int, reg: Seq<Seq<char>> },
    Done { pos: int, reg: Seq<Seq<char>> },
    Fail { err: DecodeErrorV },
}

/// The model of one top-level pull at `pos`: class names are interned,
/// unknown token kinds are skipped, and a class instance is dispatched to
/// the schema its registry entry names.
pub open spec fn top_next_model(t: Seq<TokenV>, pos: int, reg: Seq<Seq<char>>, depth: nat) -> TopRes
    decreases t.len() - pos,
    when 0 <= pos <= t.len()
{
    if pos >= t.len() {
        TopRes::Done { pos, reg }
    } else {
        match t[pos] {
            TokenV::ClassName(name) => top_next_model(t, pos + 1, reg.push(name), depth),
            TokenV::ClassInstance(i) => {
                if !(1 <= i <= reg.len()) {
                    TopRes::Fail { err: DecodeErrorV::ClassIndexOutOfRange(i) }
                } else {
                    let name = reg[i - 1];
                    if name == "IDECommandLineBuildLog"@ {
                        match decode_build_log(t, pos, reg, depth) {
                            DRes::Decoded { v, pos: p, reg: r } => TopRes::Item {
                                v: XActivityLogObjectV::IDECommandLineBuildLog(v),
                                pos: p,
                                reg: r,
                            },
                            DRes::Fail { err } => TopRes::Fail { err },
                        }
                    } else if name == "IDEActivityLogSection"@ || name
                        == "IDEActivityLogMajorGroupSection"@ {
                        match decode_section(t, pos, reg, depth) {
                            DRes::Decoded { v, pos: p, reg: r } => TopRes::Item {
                                v: XActivityLogObjectV::IDEActivityLogSection(v),
                                pos: p,
                                reg: r,
                            },
                            DRes::Fail { err } => TopRes::Fail { err },
                        }
                    } else if name == "IDEActivityLogCommandInvocationSection"@ {
                        match decode_command_invocation_section(t, pos, reg, depth) {
                            DRes::Decoded { v, pos: p, reg: r } => TopRes::Item {
                                v: XActivityLogObjectV::IDEActivityLogCommandInvocationSection(v),
                                pos: p,
                                reg: r,
                            },
                            DRes::Fail { err } => TopRes::Fail { err },
                        }
                    } else if name == "IDEActivityLogMessage"@ || name
                        == "IDEDiagnosticActivityLogMessage"@ {
                        match decode_message(t, pos, reg, depth) {
                            DRes::Decoded { v, pos: p, reg: r } => TopRes::Item {
                                v: XActivityLogObjectV::IDEActivityLogMessage(v),
                                pos: p,
                                reg: r,
                            },
                            DRes::Fail { err } => TopRes::Fail { err },
                        }
                    } else if name == "IDEActivityLogSectionAttachment"@ {
                        match decode_attachment(t, pos, reg) {
                            DRes::Decoded { v, pos: p, reg: r } => TopRes::Item {
                                v: XActivityLogObjectV::IDEActivityLogSectionAttachment(v),
                                pos: p,
                                reg: r,
                            },
                            DRes::Fail { err } => TopRes::Fail { err },
                        }
                    } else if name == "IDEActivityLogUnitTestSection"@ {
                        match decode_unit_test_section(t, pos, reg) {
                            DRes::Decoded { v, pos: p, reg: r } => TopRes::Item {
                                v: XActivityLogObjectV::IDEActivityLogUnitTestSection(v),
                                pos: p,
                                reg: r,
                            },
                            DRes::Fail { err } => TopRes::Fail { err },
                        }
                    } else if name == "DVTDocumentLocation"@ || name == "DVTTextDocumentLocation"@
                        || name == "DVTMemberDocumentLocation"@ {
                        match decode_location(t, pos, reg) {
                            DRes::Decoded { v, pos: p, reg: r } => TopRes::Item {
                                v: XActivityLogObjectV::DVTDocumentLocation(v),
                                pos: p,
                                reg: r,
                            },
                            DRes::Fail { err } => TopRes::Fail { err },
                        }
                    } else {
                        TopRes::Fail { err: DecodeErrorV::UnknownClass(name) }
                    }
                }
            },
            _ => top_next_model(t, pos + 1, reg, depth),
        }
    }
}

/// The schema-directed object reconstructor: owns the token stream and the
/// class-name registry, and yields top-level objects one pull at a time.
pub struct Deserializer {
    tokens: TokenStream,
    class_position_to_name: Vec<String>,
    max_depth: u64,
}

impl Deserializer {
    /// The views of all tokens.
    pub closed spec fn toks(&self) -> Seq<TokenV> {
        self.tokens.toks()
    }

    /// The current read position.
    pub closed spec fn position(&self) -> int {
        self.tokens.position()
    }

    /// The views of the interned class names, in interning order.
    pub closed spec fn registry(&self) -> Seq<Seq<char>> {
        names_view(self.class_position_to_name@)
    }

    /// The configured bound on sub-object nesting.
    pub closed spec fn depth_limit(&self) -> u64 {
        self.max_depth
    }

    /// The read position never leaves the token list.
    pub closed spec fn wf(&self) -> bool {
        self.tokens.wf()
    }

    /// A reconstructor over `tokens` with the default nesting bound and an
    /// empty registry.
    pub fn new(tokens: Vec<Token>) -> (r: Deserializer)
        ensures
            r.wf(),
            r.toks() == tokens@.map_values(|t: Token| t@),
            r.position() == 0,
            r.registry() == Seq::<Seq<char>>::empty(),
            r.depth_limit() == DEFAULT_MAX_DEPTH,
    {
        let d = Deserializer {
            tokens: TokenStream::new(tokens),
            class_position_to_name: Vec::new(),
            max_depth: DEFAULT_MAX_DEPTH,
        };
        proof {
            assert(names_view(d.class_position_to_name@) =~= Seq::<Seq<char>>::empty());
        }
        d
    }

    /// A reconstructor with its own bound on sub-object nesting.
    pub fn with_max_depth(tokens: Vec<Token>, max_depth: u64) -> (r: Deserializer)
        ensures
            r.wf(),
            r.toks() == tokens@.map_values(|t: Token| t@),
            r.position() == 0,
            r.registry() == Seq::<Seq<char>>::empty(),
            r.depth_limit() == max_depth,
    {
        let d = Deserializer {
            tokens: TokenStream::new(tokens),
            class_position_to_name: Vec::new(),
            max_depth,
        };
        proof {
            assert(names_view(d.class_position_to_name@) =~= Seq::<Seq<char>>::empty());
        }
        d
    }

    /// The next top-level object: `Ok(None)` at the end of the stream, and
    /// the first schema error otherwise.
    pub fn next(&mut self) -> (r: Result<Option<XActivityLogObject>, DecodeError>)
        requires
            old(self).wf(),
        ensures
            final(self).wf(),
            final(self).toks() == old(self).toks(),
            final(self).depth_limit() == old(self).depth_limit(),
            match top_next_model(
                old(self).toks(),
                old(self).position(),
                old(self).registry(),
                old(self).depth_limit() as nat,
            ) {
                TopRes::Item { v, pos, reg } => (r matches Ok(o) && o matches Some(x) && x@ == v
                    && final(self).position() == pos && final(self).registry() == reg),
                TopRes::Done { pos, reg } => (r matches Ok(o) && o is None && final(self).position()
                    == pos && final(self).registry() == reg),
                TopRes::Fail { err } => (r matches Err(e) && e@ == err),
            },
    {
        let ghost t = self.tokens.toks();
        let ghost p0 = self.tokens.position();
        let ghost r0 = names_view(self.class_position_to_name@);
        let ghost d = self.max_depth as nat;
        loop
            invariant
                self.tokens.wf(),
                self.tokens.toks() == t,
                t == old(self).toks(),
                p0 == old(self).position(),
                r0 == old(self).registry(),
                self.max_depth == old(self).max_depth,
                d == old(self).depth_limit() as nat,
                p0 <= self.tokens.position() <= t.len(),
                top_next_model(t, p0, r0, d) == top_next_model(
                    t,
                    self.tokens.position(),
                    names_view(self.class_position_to_name@),
                    d,
                ),
            decreases t.len() - self.tokens.position(),
        {
            let kind: Option<TokenType> = match self.tokens.peek() {
                Some(tok) => Some(tok.token_type()),
                None => None,
            };
            match kind {
                None => {
                    return Ok(None);
                },
                Some(TokenType::ClassName) => {
                    match self.tokens.next() {
                        Some(Token::ClassName(s)) => {
                            let ghost sv = s@;
                            let ghost pre = names_view(self.class_position_to_name@);
                            self.class_position_to_name.push(s);
                            proof {
                                assert(names_view(self.class_position_to_name@) =~= pre.push(sv));
                            }
                        },
                        _ => {
                            proof {
                                assert(false);
                            }
                        },
                    }
                },
                Some(TokenType::ClassInstance) => {
                    let index: usize = match self.tokens.peek() {
                        Some(Token::ClassInstance(i)) => *i,
                        _ => unreached(),
                    };
                    let (
                        is_build_log,
                        is_section,
                        is_cmd_invocation,
                        is_message,
                        is_attachment,
                        is_unit_test,
                        is_location,
                        name_copy,
                    ) = {
                        let name = match lookup_class_name(&self.class_position_to_name, index) {
                            Ok(n) => n,
                            Err(e) => {
                                return Err(e);
                            },
                        };
                        (
                            class_name_is(name, "IDECommandLineBuildLog"),
                            class_name_is(name, "IDEActivityLogSection") || class_name_is(
                                name,
                                "IDEActivityLogMajorGroupSection",
                            ),
                            class_name_is(name, "IDEActivityLogCommandInvocationSection"),
                            class_name_is(name, "IDEActivityLogMessage") || class_name_is(
                                name,
                                "IDEDiagnosticActivityLogMessage",
                            ),
                            class_name_is(name, "IDEActivityLogSectionAttachment"),
                            class_name_is(name, "IDEActivityLogUnitTestSection"),
                            class_name_is(name, "DVTDocumentLocation") || class_name_is(
                                name,
                                "DVTTextDocumentLocation",
                            ) || class_name_is(name, "DVTMemberDocumentLocation"),
                            name.clone(),
                        )
                    };
                    if is_build_log {
                        return match IDECommandLineBuildLog::from_tokens(
                            &mut self.tokens,
                            &mut self.class_position_to_name,
                            self.max_depth,
                        ) {
                            Ok(v) => Ok(Some(XActivityLogObject::IDECommandLineBuildLog(v))),
                            Err(e) => Err(e),
                        };
                    } else if is_section {
                        return match IDEActivityLogSection::from_tokens(
                            &mut self.tokens,
                            &mut self.class_position_to_name,
                            self.max_depth,
                        ) {
                            Ok(v) => Ok(Some(XActivityLogObject::IDEActivityLogSection(v))),
                            Err(e) => Err(e),
                        };
                    } else if is_cmd_invocation {
                        return match IDEActivityLogCommandInvocationSection::from_tokens(
                            &mut self.tokens,
                            &mut self.class_position_to_name,
                            self.max_depth,
                        ) {
                            Ok(v) => Ok(
                                Some(XActivityLogObject::IDEActivityLogCommandInvocationSection(v)),
                            ),
                            Err(e) => Err(e),
                        };
                    } else if is_message {
                        return match IDEActivityLogMessage::from_tokens(
                            &mut self.tokens,
                            &mut self.class_position_to_name,
                            self.max_depth,
                        ) {
                            Ok(v) => Ok(Some(XActivityLogObject::IDEActivityLogMessage(v))),
                            Err(e) => Err(e),
                        };
                    } else if is_attachment {
                        return match IDEActivityLogSectionAttachment::from_tokens(
                            &mut self.tokens,
                            &mut self.class_position_to_name,
                        ) {
                            Ok(v) => Ok(
                                Some(XActivityLogObject::IDEActivityLogSectionAttachment(v)),
                            ),
                            Err(e) => Err(e),
                        };
                    } else if is_unit_test {
                        return match IDEActivityLogUnitTestSection::from_tokens(
                            &mut self.tokens,
                            &mut self.class_position_to_name,
                        ) {
                            Ok(v) => Ok(Some(XActivityLogObject::IDEActivityLogUnitTestSection(v))),
                            Err(e) => Err(e),
                        };
                    } else if is_location {
                        return match DVTDocumentLocation::from_tokens(
                            &mut self.tokens,
                            &mut self.class_position_to_name,
                        ) {
                            Ok(v) => Ok(Some(XActivityLogObject::DVTDocumentLocation(v))),
                            Err(e) => Err(e),
                        };
                    } else {
                        return Err(DecodeError::UnknownClass(name_copy));
                    }
                },
                Some(_) => {
                    let _ = self.tokens.next();
                },
            }
        }
    }
}

} // verus!
