//! The mathematical model of the schema-directed object reconstructor.
//!
//! For each known log class there is a `decode_*` spec function that reads
//! the class's fixed slot sequence from the token list, a `dx_*` function
//! modelling `deser_exact` (class names are interned into the registry
//! until a class instance, `Null` or `Json` settles the slot), and a
//! `dv_*` function modelling `deser_vec` (a count-prefixed homogeneous
//! run, stopped early by an absent element).  The executable decoders in
//! [`crate::log_class`] are proved equal to these functions.

use crate::json::json_parse_ok;
use crate::stream::{
    probe_bool, probe_opt_text, probe_opt_u64, rd_bool, rd_count, rd_double, rd_i32, rd_i8,
    rd_instance, rd_opt_text, rd_text, rd_u64, DecodeErrorV,
};
use crate::token::{spec_token_type, TokenV};
use vstd::prelude::*;

verus! {

/// Default bound on sub-object nesting.
pub const DEFAULT_MAX_DEPTH: u64 = 4096;

// ---------------------------------------------------------------------------
// Mathematical images of the object graph
// ---------------------------------------------------------------------------
pub struct DVTBaseDocumentLocationV {
    pub document_url_string: Seq<char>,
    pub timestamp: u64,
}

pub struct DVTTextDocumentLocationV {
    pub base: DVTBaseDocumentLocationV,
    pub starting_line_number: u64,
    pub starting_column_number: u64,
    pub ending_line_number: u64,
    pub ending_column_number: u64,
    pub character_range_end: u64,
    pub character_range_start: u64,
    pub location_encoding: u64,
}

pub struct DVTMemberDocumentLocationV {
    pub base: DVTBaseDocumentLocationV,
    pub member: Seq<char>,
}

pub enum DVTDocumentLocationV {
    Base(DVTBaseDocumentLocationV),
    Text(DVTTextDocumentLocationV),
    Member(DVTMemberDocumentLocationV),
}

pub struct IDEActivityLogSectionAttachmentV {
    pub identifier: Seq<char>,
    pub major_version: u64,
    pub minor_version: u64,
    pub extra: Option<Seq<char>>,
}

pub struct IDEActivityLogUnitTestSectionV {
    pub tests_passed_string: Seq<char>,
    pub duration_string: Seq<char>,
    pub summary_string: Seq<char>,
    pub suite_name: Seq<char>,
    pub test_name: Seq<char>,
    pub performance_test_output_string: Seq<char>,
}

pub struct IDEActivityLogMessageV {
    pub title: Seq<char>,
    pub short_title: Option<Seq<char>>,
    pub time_emitted: u64,
    pub range_end_in_section_text: u64,
    pub range_start_in_section_text: u64,
    pub sub_messages: Seq<IDEActivityLogMessageV>,
    pub severity: i32,
    pub message_type: Option<Seq<char>>,
    pub location: Option<DVTDocumentLocationV>,
    pub category_ident: Option<Seq<char>>,
    pub secondary_locations: Seq<DVTDocumentLocationV>,
    pub additional_description: Option<Seq<char>>,
}

pub struct IDEActivityLogSectionV {
    pub section_type: i8,
    pub domain_type: Seq<char>,
    pub title: Seq<char>,
    pub signature: Seq<char>,
    pub time_started_recording: u64,
    pub time_stopped_recording: u64,
    pub sub_sections: Seq<IDEActivityLogSectionV>,
    pub text: Option<Seq<char>>,
    pub messages: Seq<IDEActivityLogMessageV>,
    pub was_cancelled: bool,
    pub is_quiet: bool,
    pub was_fetched_from_cache: bool,
    pub subtitle: Option<Seq<char>>,
    pub location: Option<DVTDocumentLocationV>,
    pub command_details_spec: Option<Seq<char>>,
    pub unique_identifier: Option<Seq<char>>,
    pub localized_result_string: Option<Seq<char>>,
    pub xcbuild_signature: Option<Seq<char>>,
    pub attachments: Seq<IDEActivityLogSectionAttachmentV>,
    pub unknown: Option<u64>,
    pub unknown1: bool,
    pub unknown2: bool,
    pub unknown3: bool,
    pub unknown4: Option<Seq<char>>,
    pub unknown5: Option<u64>,
    pub unknown6: Option<u64>,
    pub unknown7: Option<Seq<char>>,
    pub unknown8: Option<u64>,
    pub unknown9: Option<u64>,
}

pub struct IDECommandLineBuildLogV {
    pub section_type: i8,
    pub domain_type: Seq<char>,
    pub title: Seq<char>,
    pub signature: Seq<char>,
    pub time_started_recording: u64,
    pub time_stopped_recording: u64,
    pub sub_sections: Seq<IDEActivityLogSectionV>,
}

pub struct IDEActivityLogCommandInvocationSectionV {
    pub section_type: i8,
    pub domain_type: Seq<char>,
    pub title: Seq<char>,
    pub signature: Seq<char>,
    pub time_started_recording: u64,
    pub time_stopped_recording: u64,
    pub sub_sections: Seq<IDEActivityLogSectionV>,
    pub text: Option<Seq<char>>,
    pub messages: Seq<IDEActivityLogMessageV>,
    pub was_cancelled: bool,
}

// ---------------------------------------------------------------------------
// Decode outcomes
// ---------------------------------------------------------------------------
/// Outcome of decoding one instance: the value, the position just past it,
/// and the registry after any interned class names.
pub enum DRes<T> {
    Decoded { v: T, pos: int, reg: Seq<Seq<char>> },
    Fail { err: DecodeErrorV },
}

/// Outcome of an exact-or-absent slot (`deser_exact`).
pub enum DOpt<T> {
    Present { v: T, pos: int, reg: Seq<Seq<char>> },
    Absent { pos: int, reg: Seq<Seq<char>> },
    Fail { err: DecodeErrorV },
}

/// An exact-or-absent outcome as a `Result` of an `Option`.
pub open spec fn opt_of<T>(d: DOpt<T>) -> Result<
    (Option<T>, int, Seq<Seq<char>>),
    DecodeErrorV,
> {
    match d {
        DOpt::Present { v, pos, reg } => Ok((Some(v), pos, reg)),
        DOpt::Absent { pos, reg } => Ok((None, pos, reg)),
        DOpt::Fail { err } => Err(err),
    }
}

/// Prepends already-decoded elements to a run's outcome.
pub open spec fn dv_prepend<T>(front: Seq<T>, d: DRes<Seq<T>>) -> DRes<Seq<T>> {
    match d {
        DRes::Decoded { v, pos, reg } => DRes::Decoded { v: front + v, pos, reg },
        DRes::Fail { err } => DRes::Fail { err },
    }
}

/// `pos + n`, stopped at the end of the stream.
pub open spec fn clamp_pos(p: int, len: int) -> int {
    if p <= len {
        p
    } else {
        len
    }
}

// ---------------------------------------------------------------------------
// Document locations
// ---------------------------------------------------------------------------
/// A document-location base with nothing read into it.
pub open spec fn empty_base() -> DVTBaseDocumentLocationV {
    DVTBaseDocumentLocationV { document_url_string: Seq::empty(), timestamp: 0 }
}

/// Decode of a document location: the class-instance index picks the
/// concrete class from the registry; two common slots follow, then the
/// variant's own tail, whose slot values are skipped.
pub open spec fn decode_location(t: Seq<TokenV>, pos: int, reg: Seq<Seq<char>>) -> DRes<
    DVTDocumentLocationV,
> {
    match rd_instance(t, pos) {
        Err(e) => DRes::Fail { err: e },
        Ok((index, p1)) => {
            if !(1 <= index <= reg.len()) {
                DRes::Fail { err: DecodeErrorV::ClassIndexOutOfRange(index) }
            } else {
                let name = reg[index - 1];
                match rd_text(t, p1) {
                    Err(e) => DRes::Fail { err: e },
                    Ok((url, p2)) => match rd_double(t, p2) {
                        Err(e) => DRes::Fail { err: e },
                        Ok((ts, p3)) => {
                            if name == "DVTDocumentLocation"@ {
                                DRes::Decoded {
                                    v: DVTDocumentLocationV::Base(
                                        DVTBaseDocumentLocationV {
                                            document_url_string: url,
                                            timestamp: ts,
                                        },
                                    ),
                                    pos: p3,
                                    reg,
                                }
                            } else if name == "DVTTextDocumentLocation"@ {
                                DRes::Decoded {
                                    v: DVTDocumentLocationV::Text(
                                        DVTTextDocumentLocationV {
                                            base: empty_base(),
                                            starting_line_number: 0,
                                            starting_column_number: 0,
                                            ending_line_number: 0,
                                            ending_column_number: 0,
                                            character_range_end: 0,
                                            character_range_start: 0,
                                            location_encoding: 0,
                                        },
                                    ),
                                    pos: clamp_pos(p3 + 7, t.len() as int),
                                    reg,
                                }
                            } else if name == "DVTMemberDocumentLocation"@ {
                                DRes::Decoded {
                                    v: DVTDocumentLocationV::Member(
                                        DVTMemberDocumentLocationV {
                                            base: empty_base(),
                                            member: Seq::empty(),
                                        },
                                    ),
                                    pos: clamp_pos(p3 + 1, t.len() as int),
                                    reg,
                                }
                            } else {
                                DRes::Fail { err: DecodeErrorV::UnknownClass(name) }
                            }
                        },
                    },
                }
            }
        },
    }
}

/// `deser_exact` for document locations.
pub open spec fn dx_location(t: Seq<TokenV>, pos: int, reg: Seq<Seq<char>>) -> DOpt<
    DVTDocumentLocationV,
>
    decreases t.len() - pos, 1int,
{
    if pos >= t.len() {
        DOpt::Fail { err: DecodeErrorV::UnexpectedEnd }
    } else {
        match t[pos] {
            TokenV::ClassName(name) => dx_location(t, pos + 1, reg.push(name)),
            TokenV::ClassInstance(_) => match decode_location(t, pos, reg) {
                DRes::Decoded { v, pos: p1, reg: r1 } => DOpt::Present { v, pos: p1, reg: r1 },
                DRes::Fail { err } => DOpt::Fail { err },
            },
            TokenV::Null => DOpt::Absent { pos: pos + 1, reg },
            TokenV::Json(_) => DOpt::Absent { pos: pos + 1, reg },
            _ => DOpt::Fail { err: DecodeErrorV::UnexpectedToken(spec_token_type(t[pos])) },
        }
    }
}

/// `deser_vec` for document locations.
pub open spec fn dv_location(t: Seq<TokenV>, pos: int, reg: Seq<Seq<char>>, n: nat) -> DRes<
    Seq<DVTDocumentLocationV>,
>
    decreases t.len() - pos, 2int, n,
{
    if n == 0 {
        DRes::Decoded { v: seq![], pos, reg }
    } else {
        match dx_location(t, pos, reg) {
            DOpt::Fail { err } => DRes::Fail { err },
            DOpt::Absent { pos: p1, reg: r1 } => DRes::Decoded { v: seq![], pos: p1, reg: r1 },
            DOpt::Present { v, pos: p1, reg: r1 } => {
                if pos < p1 <= t.len() {
                    match dv_location(t, p1, r1, (n - 1) as nat) {
                        DRes::Fail { err } => DRes::Fail { err },
                        DRes::Decoded { v: rest, pos: p2, reg: r2 } => DRes::Decoded {
                            v: seq![v] + rest,
                            pos: p2,
                            reg: r2,
                        },
                    }
                } else {
                    DRes::Decoded { v: seq![v], pos: p1, reg: r1 }
                }
            },
        }
    }
}

// ---------------------------------------------------------------------------
// Attachments
// ---------------------------------------------------------------------------
/// Decode of one attachment: identifier, version pair, and the JSON blob
/// (`Null` for an absent blob; a blob `serde_json` rejects is an error).
pub open spec fn decode_attachment(t: Seq<TokenV>, pos: int, reg: Seq<Seq<char>>) -> DRes<
    IDEActivityLogSectionAttachmentV,
> {
    match rd_instance(t, pos) {
        Err(e) => DRes::Fail { err: e },
        Ok((_index, p1)) => match rd_text(t, p1) {
            Err(e) => DRes::Fail { err: e },
            Ok((identifier, p2)) => match rd_u64(t, p2) {
                Err(e) => DRes::Fail { err: e },
                Ok((major_version, p3)) => match rd_u64(t, p3) {
                    Err(e) => DRes::Fail { err: e },
                    Ok((minor_version, p4)) => {
                        if p4 >= t.len() {
                            DRes::Fail { err: DecodeErrorV::UnexpectedEnd }
                        } else {
                            match t[p4] {
                                TokenV::Json(s) => if json_parse_ok(s) {
                                    DRes::Decoded {
                                        v: IDEActivityLogSectionAttachmentV {
                                            identifier,
                                            major_version,
                                            minor_version,
                                            extra: Some(s),
                                        },
                                        pos: p4 + 1,
                                        reg,
                                    }
                                } else {
                                    DRes::Fail { err: DecodeErrorV::InvalidJson }
                                },
                                TokenV::Null => DRes::Decoded {
                                    v: IDEActivityLogSectionAttachmentV {
                                        identifier,
                                        major_version,
                                        minor_version,
                                        extra: None,
                                    },
                                    pos: p4 + 1,
                                    reg,
                                },
                                _ => DRes::Fail {
                                    err: DecodeErrorV::Conversion {
                                        from: "Token"@,
                                        to: "Value"@,
                                    },
                                },
                            }
                        }
                    },
                },
            },
        },
    }
}

/// `deser_exact` for attachments.
pub open spec fn dx_attachment(t: Seq<TokenV>, pos: int, reg: Seq<Seq<char>>) -> DOpt<
    IDEActivityLogSectionAttachmentV,
>
    decreases t.len() - pos, 1int,
{
    if pos >= t.len() {
        DOpt::Fail { err: DecodeErrorV::UnexpectedEnd }
    } else {
        match t[pos] {
            TokenV::ClassName(name) => dx_attachment(t, pos + 1, reg.push(name)),
            TokenV::ClassInstance(_) => match decode_attachment(t, pos, reg) {
                DRes::Decoded { v, pos: p1, reg: r1 } => DOpt::Present { v, pos: p1, reg: r1 },
                DRes::Fail { err } => DOpt::Fail { err },
            },
            TokenV::Null => DOpt::Absent { pos: pos + 1, reg },
            TokenV::Json(_) => DOpt::Absent { pos: pos + 1, reg },
            _ => DOpt::Fail { err: DecodeErrorV::UnexpectedToken(spec_token_type(t[pos])) },
        }
    }
}

/// `deser_vec` for attachments.
pub open spec fn dv_attachment(t: Seq<TokenV>, pos: int, reg: Seq<Seq<char>>, n: nat) -> DRes<
    Seq<IDEActivityLogSectionAttachmentV>,
>
    decreases t.len() - pos, 2int, n,
{
    if n == 0 {
        DRes::Decoded { v: seq![], pos, reg }
    } else {
        match dx_attachment(t, pos, reg) {
            DOpt::Fail { err } => DRes::Fail { err },
            DOpt::Absent { pos: p1, reg: r1 } => DRes::Decoded { v: seq![], pos: p1, reg: r1 },
            DOpt::Present { v, pos: p1, reg: r1 } => {
                if pos < p1 <= t.len() {
                    match dv_attachment(t, p1, r1, (n - 1) as nat) {
                        DRes::Fail { err } => DRes::Fail { err },
                        DRes::Decoded { v: rest, pos: p2, reg: r2 } => DRes::Decoded {
                            v: seq![v] + rest,
                            pos: p2,
                            reg: r2,
                        },
                    }
                } else {
                    DRes::Decoded { v: seq![v], pos: p1, reg: r1 }
                }
            },
        }
    }
}

// ---------------------------------------------------------------------------
// Unit-test sections
// ---------------------------------------------------------------------------
/// Decode of a unit-test section: its six slots are consumed and
/// discarded, so the object carries empty values.
pub open spec fn decode_unit_test_section(t: Seq<TokenV>, pos: int, reg: Seq<Seq<char>>) -> DRes<
    IDEActivityLogUnitTestSectionV,
> {
    match rd_instance(t, pos) {
        Err(e) => DRes::Fail { err: e },
        Ok((_index, p1)) => DRes::Decoded {
            v: IDEActivityLogUnitTestSectionV {
                tests_passed_string: Seq::empty(),
                duration_string: Seq::empty(),
                summary_string: Seq::empty(),
                suite_name: Seq::empty(),
                test_name: Seq::empty(),
                performance_test_output_string: Seq::empty(),
            },
            pos: clamp_pos(p1 + 6, t.len() as int),
            reg,
        },
    }
}

// ---------------------------------------------------------------------------
// Messages
// ---------------------------------------------------------------------------
/// Decode of one message, slot for slot.
pub open spec fn decode_message(t: Seq<TokenV>, pos: int, reg: Seq<Seq<char>>, depth: nat) -> DRes<
    IDEActivityLogMessageV,
>
    decreases depth, t.len() - pos, 0int, 0int,
{
    if depth == 0 {
        DRes::Fail { err: DecodeErrorV::DepthExceeded }
    } else {
        match rd_instance(t, pos) {
            Err(e) => DRes::Fail { err: e },
            Ok((_index, p1)) => match rd_text(t, p1) {
                Err(e) => DRes::Fail { err: e },
                Ok((title, p2)) => match rd_opt_text(t, p2) {
                    Err(e) => DRes::Fail { err: e },
                    Ok((short_title, p3)) => match rd_u64(t, p3) {
                        Err(e) => DRes::Fail { err: e },
                        Ok((time_emitted, p4)) => match rd_u64(t, p4) {
                            Err(e) => DRes::Fail { err: e },
                            Ok((range_end, p5)) => match rd_u64(t, p5) {
                                Err(e) => DRes::Fail { err: e },
                                Ok((range_start, p6)) => match rd_count(t, p6) {
                                    Err(e) => DRes::Fail { err: e },
                                    Ok((n_subs, p7)) => match dv_message(
                                        t,
                                        p7,
                                        reg,
                                        n_subs as nat,
                                        (depth - 1) as nat,
                                    ) {
                                        DRes::Fail { err } => DRes::Fail { err },
                                        DRes::Decoded { v: sub_messages, pos: p8, reg: r8 } => match rd_i32(
                                            t,
                                            p8,
                                        ) {
                                            Err(e) => DRes::Fail { err: e },
                                            Ok((severity, p9)) => match rd_opt_text(t, p9) {
                                                Err(e) => DRes::Fail { err: e },
                                                Ok((message_type, p10)) => match opt_of(
                                                    dx_location(t, p10, r8),
                                                ) {
                                                    Err(e) => DRes::Fail { err: e },
                                                    Ok((location, p11, r11)) => match rd_opt_text(
                                                        t,
                                                        p11,
                                                    ) {
                                                        Err(e) => DRes::Fail { err: e },
                                                        Ok((category_ident, p12)) => match rd_count(
                                                            t,
                                                            p12,
                                                        ) {
                                                            Err(e) => DRes::Fail { err: e },
                                                            Ok((n_locs, p13)) => match dv_location(
                                                                t,
                                                                p13,
                                                                r11,
                                                                n_locs as nat,
                                                            ) {
                                                                DRes::Fail { err } => DRes::Fail {
                                                                    err,
                                                                },
                                                                DRes::Decoded {
                                                                    v: secondary_locations,
                                                                    pos: p14,
                                                                    reg: r14,
                                                                } => match rd_opt_text(t, p14) {
                                                                    Err(e) => DRes::Fail {
                                                                        err: e,
                                                                    },
                                                                    Ok(
                                                                        (additional_description, p15),
                                                                    ) => DRes::Decoded {
                                                                        v: IDEActivityLogMessageV {
                                                                            title,
                                                                            short_title,
                                                                            time_emitted,
                                                                            range_end_in_section_text:
                                                                                range_end,
                                                                            range_start_in_section_text:
                                                                                range_start,
                                                                            sub_messages,
                                                                            severity,
                                                                            message_type,
                                                                            location,
                                                                            category_ident,
                                                                            secondary_locations,
                                                                            additional_description,
                                                                        },
                                                                        pos: p15,
                                                                        reg: r14,
                                                                    },
                                                                },
                                                            },
                                                        },
                                                    },
                                                },
                                            },
                                        },
                                    },
                                },
                            },
                        },
                    },
                },
            },
        }
    }
}

/// `deser_exact` for messages.
pub open spec fn dx_message(t: Seq<TokenV>, pos: int, reg: Seq<Seq<char>>, depth: nat) -> DOpt<
    IDEActivityLogMessageV,
>
    decreases depth, t.len() - pos, 2int, 0int,
{
    if pos >= t.len() {
        DOpt::Fail { err: DecodeErrorV::UnexpectedEnd }
    } else {
        match t[pos] {
            TokenV::ClassName(name) => dx_message(t, pos + 1, reg.push(name), depth),
            TokenV::ClassInstance(_) => match decode_message(t, pos, reg, depth) {
                DRes::Decoded { v, pos: p1, reg: r1 } => DOpt::Present { v, pos: p1, reg: r1 },
                DRes::Fail { err } => DOpt::Fail { err },
            },
            TokenV::Null => DOpt::Absent { pos: pos + 1, reg },
            TokenV::Json(_) => DOpt::Absent { pos: pos + 1, reg },
            _ => DOpt::Fail { err: DecodeErrorV::UnexpectedToken(spec_token_type(t[pos])) },
        }
    }
}

/// `deser_vec` for messages.
pub open spec fn dv_message(
    t: Seq<TokenV>,
    pos: int,
    reg: Seq<Seq<char>>,
    n: nat,
    depth: nat,
) -> DRes<Seq<IDEActivityLogMessageV>>
    decreases depth, t.len() - pos, 3int, n,
{
    if n == 0 {
        DRes::Decoded { v: seq![], pos, reg }
    } else {
        match dx_message(t, pos, reg, depth) {
            DOpt::Fail { err } => DRes::Fail { err },
            DOpt::Absent { pos: p1, reg: r1 } => DRes::Decoded { v: seq![], pos: p1, reg: r1 },
            DOpt::Present { v, pos: p1, reg: r1 } => {
                if pos < p1 <= t.len() {
                    match dv_message(t, p1, r1, (n - 1) as nat, depth) {
                        DRes::Fail { err } => DRes::Fail { err },
                        DRes::Decoded { v: rest, pos: p2, reg: r2 } => DRes::Decoded {
                            v: seq![v] + rest,
                            pos: p2,
                            reg: r2,
                        },
                    }
                } else {
                    DRes::Decoded { v: seq![v], pos: p1, reg: r1 }
                }
            },
        }
    }
}

// ---------------------------------------------------------------------------
// Sections
// ---------------------------------------------------------------------------
/// Decode of one activity-log section: the fixed slots, the recursive
/// sub-section and message runs, the optional attachments array, and the
/// probed trailing fields, each present only when all earlier trailing
/// fields were present and the peeked token kind matches.
pub open spec fn decode_section(t: Seq<TokenV>, pos: int, reg: Seq<Seq<char>>, depth: nat) -> DRes<
    IDEActivityLogSectionV,
>
    decreases depth, t.len() - pos, 0int, 0int,
{
    if depth == 0 {
        DRes::Fail { err: DecodeErrorV::DepthExceeded }
    } else {
        match rd_instance(t, pos) {
            Err(e) => DRes::Fail { err: e },
            Ok((_index, p1)) => match rd_i8(t, p1) {
                Err(e) => DRes::Fail { err: e },
                Ok((section_type, p2)) => match rd_text(t, p2) {
                    Err(e) => DRes::Fail { err: e },
                    Ok((domain_type, p3)) => match rd_text(t, p3) {
                        Err(e) => DRes::Fail { err: e },
                        Ok((title, p4)) => match rd_text(t, p4) {
                            Err(e) => DRes::Fail { err: e },
                            Ok((signature, p5)) => match rd_double(t, p5) {
                                Err(e) => DRes::Fail { err: e },
                                Ok((time_started, p6)) => match rd_double(t, p6) {
                                    Err(e) => DRes::Fail { err: e },
                                    Ok((time_stopped, p7)) => match rd_count(t, p7) {
                                        Err(e) => DRes::Fail { err: e },
                                        Ok((n_subs, p8)) => match dv_section(
                                            t,
                                            p8,
                                            reg,
                                            n_subs as nat,
                                            (depth - 1) as nat,
                                        ) {
                                            DRes::Fail { err } => DRes::Fail { err },
                                            DRes::Decoded {
                                                v: sub_sections,
                                                pos: p9,
                                                reg: r9,
                                            } => decode_section_rest(
                                                t,
                                                p9,
                                                r9,
                                                depth,
                                                SectionHead {
                                                    section_type,
                                                    domain_type,
                                                    title,
                                                    signature,
                                                    time_started_recording: time_started,
                                                    time_stopped_recording: time_stopped,
                                                    sub_sections,
                                                },
                                            ),
                                        },
                                    },
                                },
                            },
                        },
                    },
                },
            },
        }
    }
}

/// The slots of a section read before its message run.
pub struct SectionHead {
    pub section_type: i8,
    pub domain_type: Seq<char>,
    pub title: Seq<char>,
    pub signature: Seq<char>,
    pub time_started_recording: u64,
    pub time_stopped_recording: u64,
    pub sub_sections: Seq<IDEActivityLogSectionV>,
}

/// The rest of a section after its sub-sections: text, messages, flags,
/// location, identifiers, attachments, trailing fields.
pub open spec fn decode_section_rest(
    t: Seq<TokenV>,
    pos: int,
    reg: Seq<Seq<char>>,
    depth: nat,
    head: SectionHead,
) -> DRes<IDEActivityLogSectionV>
    decreases depth, t.len() - pos, 1int,
    when depth > 0
{
    match rd_opt_text(t, pos) {
        Err(e) => DRes::Fail { err: e },
        Ok((text, p10)) => match rd_count(t, p10) {
            Err(e) => DRes::Fail { err: e },
            Ok((n_msgs, p11)) => match dv_message(t, p11, reg, n_msgs as nat, (depth - 1) as nat) {
                DRes::Fail { err } => DRes::Fail { err },
                DRes::Decoded { v: messages, pos: p12, reg: r12 } => match rd_bool(t, p12) {
                    Err(e) => DRes::Fail { err: e },
                    Ok((was_cancelled, p13)) => match rd_bool(t, p13) {
                        Err(e) => DRes::Fail { err: e },
                        Ok((is_quiet, p14)) => match rd_bool(t, p14) {
                            Err(e) => DRes::Fail { err: e },
                            Ok((was_fetched, p15)) => match rd_opt_text(t, p15) {
                                Err(e) => DRes::Fail { err: e },
                                Ok((subtitle, p16)) => match opt_of(dx_location(t, p16, r12)) {
                                    Err(e) => DRes::Fail { err: e },
                                    Ok((location, p17, r17)) => match rd_opt_text(t, p17) {
                                        Err(e) => DRes::Fail { err: e },
                                        Ok((command_details_spec, p18)) => match rd_opt_text(
                                            t,
                                            p18,
                                        ) {
                                            Err(e) => DRes::Fail { err: e },
                                            Ok((unique_identifier, p19)) => match rd_opt_text(
                                                t,
                                                p19,
                                            ) {
                                                Err(e) => DRes::Fail { err: e },
                                                Ok((localized_result_string, p20)) => match rd_opt_text(
                                                    t,
                                                    p20,
                                                ) {
                                                    Err(e) => DRes::Fail { err: e },
                                                    Ok(
                                                        (xcbuild_signature, p21),
                                                    ) => decode_section_tail(
                                                        t,
                                                        p21,
                                                        r17,
                                                        depth,
                                                        SectionMid {
                                                            head,
                                                            text,
                                                            messages,
                                                            was_cancelled,
                                                            is_quiet,
                                                            was_fetched_from_cache: was_fetched,
                                                            subtitle,
                                                            location,
                                                            command_details_spec,
                                                            unique_identifier,
                                                            localized_result_string,
                                                            xcbuild_signature,
                                                        },
                                                    ),
                                                },
                                            },
                                        },
                                    },
                                },
                            },
                        },
                    },
                },
            },
        },
    }
}

/// The slots of a section read before its attachments.
pub struct SectionMid {
    pub head: SectionHead,
    pub text: Option<Seq<char>>,
    pub messages: Seq<IDEActivityLogMessageV>,
    pub was_cancelled: bool,
    pub is_quiet: bool,
    pub was_fetched_from_cache: bool,
    pub subtitle: Option<Seq<char>>,
    pub location: Option<DVTDocumentLocationV>,
    pub command_details_spec: Option<Seq<char>>,
    pub unique_identifier: Option<Seq<char>>,
    pub localized_result_string: Option<Seq<char>>,
    pub xcbuild_signature: Option<Seq<char>>,
}

/// Assembles a section from its parts.
pub open spec fn section_of(
    mid: SectionMid,
    attachments: Seq<IDEActivityLogSectionAttachmentV>,
    unknown: Option<u64>,
    unknown1: bool,
    unknown2: bool,
    unknown3: bool,
    unknown4: Option<Seq<char>>,
    unknown5: Option<u64>,
    unknown6: Option<u64>,
    unknown7: Option<Seq<char>>,
    unknown8: Option<u64>,
    unknown9: Option<u64>,
) -> IDEActivityLogSectionV {
    IDEActivityLogSectionV {
        section_type: mid.head.section_type,
        domain_type: mid.head.domain_type,
        title: mid.head.title,
        signature: mid.head.signature,
        time_started_recording: mid.head.time_started_recording,
        time_stopped_recording: mid.head.time_stopped_recording,
        sub_sections: mid.head.sub_sections,
        text: mid.text,
        messages: mid.messages,
        was_cancelled: mid.was_cancelled,
        is_quiet: mid.is_quiet,
        was_fetched_from_cache: mid.was_fetched_from_cache,
        subtitle: mid.subtitle,
        location: mid.location,
        command_details_spec: mid.command_details_spec,
        unique_identifier: mid.unique_identifier,
        localized_result_string: mid.localized_result_string,
        xcbuild_signature: mid.xcbuild_signature,
        attachments,
        unknown,
        unknown1,
        unknown2,
        unknown3,
        unknown4,
        unknown5,
        unknown6,
        unknown7,
        unknown8,
        unknown9,
    }
}

/// The optional tail of a section: an attachments array only if an `Array`
/// header is next, then the probed trailing fields.  This part never
/// consumes a token that does not belong to it.
pub open spec fn decode_section_tail(
    t: Seq<TokenV>,
    pos: int,
    reg: Seq<Seq<char>>,
    depth: nat,
    mid: SectionMid,
) -> DRes<IDEActivityLogSectionV>
    decreases depth, t.len() - pos, 2int, 0int,
    when depth > 0
{
    let attachments_found = pos < t.len() && t[pos] is Array;
    if !attachments_found {
        DRes::Decoded {
            v: section_of(mid, seq![], None, false, false, false, None, None, None, None, None,
                None),
            pos,
            reg,
        }
    } else {
        match rd_count(t, pos) {
            Err(e) => DRes::Fail { err: e },
            Ok((n_att, p22)) => match dv_attachment(t, p22, reg, n_att as nat) {
                DRes::Fail { err } => DRes::Fail { err },
                DRes::Decoded { v: attachments, pos: p23, reg: r23 } => {
                    let (f0, unknown, q0) = probe_opt_u64(t, p23, true);
                    let (f1, unknown1, q1) = probe_bool(t, q0, f0);
                    let (f2, unknown2, q2) = probe_bool(t, q1, f1);
                    let (f3, unknown3, q3) = probe_bool(t, q2, f2);
                    let (f4, unknown4, q4) = probe_opt_text(t, q3, f3);
                    let (f5, unknown5, q5) = probe_opt_u64(t, q4, f4);
                    let (f6, unknown6, q6) = probe_opt_u64(t, q5, f5);
                    let (f7, unknown7, q7) = probe_opt_text(t, q6, f6);
                    let (f8, unknown8, q8) = probe_opt_u64(t, q7, f7);
                    let (_f9, unknown9, q9) = probe_opt_u64(t, q8, f8);
                    DRes::Decoded {
                        v: section_of(
                            mid,
                            attachments,
                            unknown,
                            unknown1,
                            unknown2,
                            unknown3,
                            unknown4,
                            unknown5,
                            unknown6,
                            unknown7,
                            unknown8,
                            unknown9,
                        ),
                        pos: q9,
                        reg: r23,
                    }
                },
            },
        }
    }
}

/// `deser_exact` for sections.
pub open spec fn dx_section(t: Seq<TokenV>, pos: int, reg: Seq<Seq<char>>, depth: nat) -> DOpt<
    IDEActivityLogSectionV,
>
    decreases depth, t.len() - pos, 3int, 0int,
{
    if pos >= t.len() {
        DOpt::Fail { err: DecodeErrorV::UnexpectedEnd }
    } else {
        match t[pos] {
            TokenV::ClassName(name) => dx_section(t, pos + 1, reg.push(name), depth),
            TokenV::ClassInstance(_) => match decode_section(t, pos, reg, depth) {
                DRes::Decoded { v, pos: p1, reg: r1 } => DOpt::Present { v, pos: p1, reg: r1 },
                DRes::Fail { err } => DOpt::Fail { err },
            },
            TokenV::Null => DOpt::Absent { pos: pos + 1, reg },
            TokenV::Json(_) => DOpt::Absent { pos: pos + 1, reg },
            _ => DOpt::Fail { err: DecodeErrorV::UnexpectedToken(spec_token_type(t[pos])) },
        }
    }
}

/// `deser_vec` for sections.
pub open spec fn dv_section(
    t: Seq<TokenV>,
    pos: int,
    reg: Seq<Seq<char>>,
    n: nat,
    depth: nat,
) -> DRes<Seq<IDEActivityLogSectionV>>
    decreases depth, t.len() - pos, 4int, n,
{
    if n == 0 {
        DRes::Decoded { v: seq![], pos, reg }
    } else {
        match dx_section(t, pos, reg, depth) {
            DOpt::Fail { err } => DRes::Fail { err },
            DOpt::Absent { pos: p1, reg: r1 } => DRes::Decoded { v: seq![], pos: p1, reg: r1 },
            DOpt::Present { v, pos: p1, reg: r1 } => {
                if pos < p1 <= t.len() {
                    match dv_section(t, p1, r1, (n - 1) as nat, depth) {
                        DRes::Fail { err } => DRes::Fail { err },
                        DRes::Decoded { v: rest, pos: p2, reg: r2 } => DRes::Decoded {
                            v: seq![v] + rest,
                            pos: p2,
                            reg: r2,
                        },
                    }
                } else {
                    DRes::Decoded { v: seq![v], pos: p1, reg: r1 }
                }
            },
        }
    }
}

// ---------------------------------------------------------------------------
// Command-line build logs and command-invocation sections
// ---------------------------------------------------------------------------
/// Decode of the root command-line build log.
pub open spec fn decode_build_log(t: Seq<TokenV>, pos: int, reg: Seq<Seq<char>>, depth: nat) -> DRes<
    IDECommandLineBuildLogV,
> {
    if depth == 0 {
        DRes::Fail { err: DecodeErrorV::DepthExceeded }
    } else {
        match rd_instance(t, pos) {
            Err(e) => DRes::Fail { err: e },
            Ok((_index, p1)) => match rd_i8(t, p1) {
                Err(e) => DRes::Fail { err: e },
                Ok((section_type, p2)) => match rd_text(t, p2) {
                    Err(e) => DRes::Fail { err: e },
                    Ok((domain_type, p3)) => match rd_text(t, p3) {
                        Err(e) => DRes::Fail { err: e },
                        Ok((title, p4)) => match rd_text(t, p4) {
                            Err(e) => DRes::Fail { err: e },
                            Ok((signature, p5)) => match rd_double(t, p5) {
                                Err(e) => DRes::Fail { err: e },
                                Ok((time_started, p6)) => match rd_double(t, p6) {
                                    Err(e) => DRes::Fail { err: e },
                                    Ok((time_stopped, p7)) => match rd_count(t, p7) {
                                        Err(e) => DRes::Fail { err: e },
                                        Ok((n_subs, p8)) => match dv_section(
                                            t,
                                            p8,
                                            reg,
                                            n_subs as nat,
                                            (depth - 1) as nat,
                                        ) {
                                            DRes::Fail { err } => DRes::Fail { err },
                                            DRes::Decoded { v: sub_sections, pos: p9, reg: r9 } => DRes::Decoded {
                                                v: IDECommandLineBuildLogV {
                                                    section_type,
                                                    domain_type,
                                                    title,
                                                    signature,
                                                    time_started_recording: time_started,
                                                    time_stopped_recording: time_stopped,
                                                    sub_sections,
                                                },
                                                pos: p9,
                                                reg: r9,
                                            },
                                        },
                                    },
                                },
                            },
                        },
                    },
                },
            },
        }
    }
}

/// Decode of a command-invocation section: the base section slots up to and
/// including `was_cancelled`, with no trailing fields.
pub open spec fn decode_command_invocation_section(
    t: Seq<TokenV>,
    pos: int,
    reg: Seq<Seq<char>>,
    depth: nat,
) -> DRes<IDEActivityLogCommandInvocationSectionV> {
    if depth == 0 {
        DRes::Fail { err: DecodeErrorV::DepthExceeded }
    } else {
        match rd_instance(t, pos) {
            Err(e) => DRes::Fail { err: e },
            Ok((_index, p1)) => match rd_i8(t, p1) {
                Err(e) => DRes::Fail { err: e },
                Ok((section_type, p2)) => match rd_text(t, p2) {
                    Err(e) => DRes::Fail { err: e },
                    Ok((domain_type, p3)) => match rd_text(t, p3) {
                        Err(e) => DRes::Fail { err: e },
                        Ok((title, p4)) => match rd_text(t, p4) {
                            Err(e) => DRes::Fail { err: e },
                            Ok((signature, p5)) => match rd_double(t, p5) {
                                Err(e) => DRes::Fail { err: e },
                                Ok((time_started, p6)) => match rd_double(t, p6) {
                                    Err(e) => DRes::Fail { err: e },
                                    Ok((time_stopped, p7)) => match rd_count(t, p7) {
                                        Err(e) => DRes::Fail { err: e },
                                        Ok((n_subs, p8)) => match dv_section(
                                            t,
                                            p8,
                                            reg,
                                            n_subs as nat,
                                            (depth - 1) as nat,
                                        ) {
                                            DRes::Fail { err } => DRes::Fail { err },
                                            DRes::Decoded {
                                                v: sub_sections,
                                                pos: p9,
                                                reg: r9,
                                            } => match rd_opt_text(t, p9) {
                                                Err(e) => DRes::Fail { err: e },
                                                Ok((text, p10)) => match rd_count(t, p10) {
                                                    Err(e) => DRes::Fail { err: e },
                                                    Ok((n_msgs, p11)) => match dv_message(
                                                        t,
                                                        p11,
                                                        r9,
                                                        n_msgs as nat,
                                                        (depth - 1) as nat,
                                                    ) {
                                                        DRes::Fail { err } => DRes::Fail { err },
                                                        DRes::Decoded {
                                                            v: messages,
                                                            pos: p12,
                                                            reg: r12,
                                                        } => match rd_bool(t, p12) {
                                                            Err(e) => DRes::Fail { err: e },
                                                            Ok((was_cancelled, p13)) => DRes::Decoded {
                                                                v: IDEActivityLogCommandInvocationSectionV {
                                                                    section_type,
                                                                    domain_type,
                                                                    title,
                                                                    signature,
                                                                    time_started_recording:
                                                                        time_started,
                                                                    time_stopped_recording:
                                                                        time_stopped,
                                                                    sub_sections,
                                                                    text,
                                                                    messages,
                                                                    was_cancelled,
                                                                },
                                                                pos: p13,
                                                                reg: r12,
                                                            },
                                                        },
                                                    },
                                                },
                                            },
                                        },
                                    },
                                },
                            },
                        },
                    },
                },
            },
        }
    }
}

} // verus!
