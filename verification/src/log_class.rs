//! The activity-log object graph and its schema-directed decoders.
//!
//! Every `from_tokens` decoder is proved equal to the corresponding
//! `decode_*` function of [`crate::schema`]; timestamps are carried as
//! IEEE-754 binary64 bit patterns.

use crate::schema::{
    decode_attachment, decode_build_log, decode_command_invocation_section, decode_location,
    decode_message, decode_section, decode_unit_test_section, dv_attachment, dv_location,
    dv_message, dv_prepend, dv_section, dx_attachment, dx_location, dx_message, dx_section,
    DOpt, DRes, DVTBaseDocumentLocationV, DVTDocumentLocationV, DVTMemberDocumentLocationV,
    DVTTextDocumentLocationV, IDEActivityLogCommandInvocationSectionV, IDEActivityLogMessageV,
    IDEActivityLogSectionAttachmentV, IDEActivityLogSectionV, IDEActivityLogUnitTestSectionV,
    IDECommandLineBuildLogV,
};
use crate::stream::{lookup_class_name, names_view, DecodeError, TokenStream};
use crate::token::{ConversionError, Token, TokenType};
use vstd::prelude::*;

verus! {

broadcast use vstd::std_specs::vec::axiom_vec_index_decreases;

// ---------------------------------------------------------------------------
// The object graph
// ---------------------------------------------------------------------------
#[derive(Debug, PartialEq)]
pub struct DVTBaseDocumentLocation {
    pub document_url_string: String,
    pub timestamp: u64,
}

#[derive(Debug, PartialEq)]
pub struct DVTTextDocumentLocation {
    pub base: DVTBaseDocumentLocation,
    pub starting_line_number: u64,
    pub starting_column_number: u64,
    pub ending_line_number: u64,
    pub ending_column_number: u64,
    pub character_range_end: u64,
    pub character_range_start: u64,
    pub location_encoding: u64,
}

#[derive(Debug, PartialEq)]
pub struct DVTMemberDocumentLocation {
    pub base: DVTBaseDocumentLocation,
    pub member: String,
}

#[derive(Debug, PartialEq)]
pub enum DVTDocumentLocation {
    Base(DVTBaseDocumentLocation),
    Text(DVTTextDocumentLocation),
    Member(DVTMemberDocumentLocation),
}

#[derive(Debug, PartialEq)]
pub struct IDEActivityLogSectionAttachment {
    pub identifier: String,
    pub major_version: u64,
    pub minor_version: u64,
    pub extra: Option<String>,
}

#[derive(Debug, PartialEq)]
pub struct IDEActivityLogUnitTestSection {
    pub tests_passed_string: String,
    pub duration_string: String,
    pub summary_string: String,
    pub suite_name: String,
    pub test_name: String,
    pub performance_test_output_string: String,
}

#[derive(Debug, PartialEq)]
pub struct IDEActivityLogMessage {
    pub title: String,
    pub short_title: Option<String>,
    pub time_emitted: u64,
    pub range_end_in_section_text: u64,
    pub range_start_in_section_text: u64,
    pub sub_messages: Vec<IDEActivityLogMessage>,
    pub severity: i32,
    pub message_type: Option<String>,
    pub location: Option<DVTDocumentLocation>,
    pub category_ident: Option<String>,
    pub secondary_locations: Vec<DVTDocumentLocation>,
    pub additional_description: Option<String>,
}

#[derive(Debug, PartialEq)]
pub struct IDEActivityLogSection {
    pub section_type: i8,
    pub domain_type: String,
    pub title: String,
    pub signature: String,
    pub time_started_recording: u64,
    pub time_stopped_recording: u64,
    pub sub_sections: Vec<IDEActivityLogSection>,
    pub text: Option<String>,
    pub messages: Vec<IDEActivityLogMessage>,
    pub was_cancelled: bool,
    pub is_quiet: bool,
    pub was_fetched_from_cache: bool,
    pub subtitle: Option<String>,
    pub location: Option<DVTDocumentLocation>,
    pub command_details_spec: Option<String>,
    pub unique_identifier: Option<String>,
    pub localized_result_string: Option<String>,
    pub xcbuild_signature: Option<String>,
    pub attachments: Vec<IDEActivityLogSectionAttachment>,
    pub unknown: Option<u64>,
    pub unknown1: bool,
    pub unknown2: bool,
    pub unknown3: bool,
    pub unknown4: Option<String>,
    pub unknown5: Option<u64>,
    pub unknown6: Option<u64>,
    pub unknown7: Option<String>,
    pub unknown8: Option<u64>,
    pub unknown9: Option<u64>,
}

#[derive(Debug, PartialEq)]
pub struct IDECommandLineBuildLog {
    pub section_type: i8,
    pub domain_type: String,
    pub title: String,
    pub signature: String,
    pub time_started_recording: u64,
    pub time_stopped_recording: u64,
    pub sub_sections: Vec<IDEActivityLogSection>,
}

#[derive(Debug, PartialEq)]
pub struct IDEActivityLogCommandInvocationSection {
    pub section_type: i8,
    pub domain_type: String,
    pub title: String,
    pub signature: String,
    pub time_started_recording: u64,
    pub time_stopped_recording: u64,
    pub sub_sections: Vec<IDEActivityLogSection>,
    pub text: Option<String>,
    pub messages: Vec<IDEActivityLogMessage>,
    pub was_cancelled: bool,
}

// ---------------------------------------------------------------------------
// Views
// ---------------------------------------------------------------------------
impl View for DVTBaseDocumentLocation {
    type V = DVTBaseDocumentLocationV;

    open spec fn view(&self) -> DVTBaseDocumentLocationV {
        DVTBaseDocumentLocationV {
            document_url_string: self.document_url_string@,
            timestamp: self.timestamp,
        }
    }
}

impl View for DVTTextDocumentLocation {
    type V = DVTTextDocumentLocationV;

    open spec fn view(&self) -> DVTTextDocumentLocationV {
        DVTTextDocumentLocationV {
            base: self.base@,
            starting_line_number: self.starting_line_number,
            starting_column_number: self.starting_column_number,
            ending_line_number: self.ending_line_number,
            ending_column_number: self.ending_column_number,
            character_range_end: self.character_range_end,
            character_range_start: self.character_range_start,
            location_encoding: self.location_encoding,
        }
    }
}

impl View for DVTMemberDocumentLocation {
    type V = DVTMemberDocumentLocationV;

    open spec fn view(&self) -> DVTMemberDocumentLocationV {
        DVTMemberDocumentLocationV { base: self.base@, member: self.member@ }
    }
}

impl View for DVTDocumentLocation {
    type V = DVTDocumentLocationV;

    open spec fn view(&self) -> DVTDocumentLocationV {
        match self {
            DVTDocumentLocation::Base(b) => DVTDocumentLocationV::Base(b@),
            DVTDocumentLocation::Text(t) => DVTDocumentLocationV::Text(t@),
            DVTDocumentLocation::Member(m) => DVTDocumentLocationV::Member(m@),
        }
    }
}

impl View for IDEActivityLogSectionAttachment {
    type V = IDEActivityLogSectionAttachmentV;

    open spec fn view(&self) -> IDEActivityLogSectionAttachmentV {
        IDEActivityLogSectionAttachmentV {
            identifier: self.identifier@,
            major_version: self.major_version,
            minor_version: self.minor_version,
            extra: match &self.extra {
                Some(s) => Some(s@),
                None => None,
            },
        }
    }
}

impl View for IDEActivityLogUnitTestSection {
    type V = IDEActivityLogUnitTestSectionV;

    open spec fn view(&self) -> IDEActivityLogUnitTestSectionV {
        IDEActivityLogUnitTestSectionV {
            tests_passed_string: self.tests_passed_string@,
            duration_string: self.duration_string@,
            summary_string: self.summary_string@,
            suite_name: self.suite_name@,
            test_name: self.test_name@,
            performance_test_output_string: self.performance_test_output_string@,
        }
    }
}

/// The views of a run of document locations.
pub open spec fn locations_view(s: Seq<DVTDocumentLocation>) -> Seq<DVTDocumentLocationV> {
    s.map_values(|x: DVTDocumentLocation| x@)
}

/// The views of a run of attachments.
pub open spec fn attachments_view(s: Seq<IDEActivityLogSectionAttachment>) -> Seq<
    IDEActivityLogSectionAttachmentV,
> {
    s.map_values(|x: IDEActivityLogSectionAttachment| x@)
}

/// The view of an optional text field.
pub open spec fn opt_text_view(o: Option<String>) -> Option<Seq<char>> {
    match o {
        Some(s) => Some(s@),
        None => None,
    }
}

/// The view of an optional document location.
pub open spec fn opt_location_view(o: Option<DVTDocumentLocation>) -> Option<
    DVTDocumentLocationV,
> {
    match o {
        Some(l) => Some(l@),
        None => None,
    }
}

/// The mathematical image of one message.
pub open spec fn message_view(m: &IDEActivityLogMessage) -> IDEActivityLogMessageV
    decreases m,
{
    IDEActivityLogMessageV {
        title: m.title@,
        short_title: opt_text_view(m.short_title),
        time_emitted: m.time_emitted,
        range_end_in_section_text: m.range_end_in_section_text,
        range_start_in_section_text: m.range_start_in_section_text,
        sub_messages: Seq::new(
            m.sub_messages@.len(),
            |i: int|
                if 0 <= i < m.sub_messages@.len() {
                    message_view(&m.sub_messages[i])
                } else {
                    arbitrary()
                },
        ),
        severity: m.severity,
        message_type: opt_text_view(m.message_type),
        location: opt_location_view(m.location),
        category_ident: opt_text_view(m.category_ident),
        secondary_locations: locations_view(m.secondary_locations@),
        additional_description: opt_text_view(m.additional_description),
    }
}

impl View for IDEActivityLogMessage {
    type V = IDEActivityLogMessageV;

    open spec fn view(&self) -> IDEActivityLogMessageV {
        message_view(self)
    }
}

/// The views of a run of messages.
pub open spec fn messages_view(s: Seq<IDEActivityLogMessage>) -> Seq<IDEActivityLogMessageV> {
    s.map_values(|x: IDEActivityLogMessage| x@)
}

/// The mathematical image of one section.
pub open spec fn section_view(s: &IDEActivityLogSection) -> IDEActivityLogSectionV
    decreases s,
{
    IDEActivityLogSectionV {
        section_type: s.section_type,
        domain_type: s.domain_type@,
        title: s.title@,
        signature: s.signature@,
        time_started_recording: s.time_started_recording,
        time_stopped_recording: s.time_stopped_recording,
        sub_sections: Seq::new(
            s.sub_sections@.len(),
            |i: int|
                if 0 <= i < s.sub_sections@.len() {
                    section_view(&s.sub_sections[i])
                } else {
                    arbitrary()
                },
        ),
        text: opt_text_view(s.text),
        messages: messages_view(s.messages@),
        was_cancelled: s.was_cancelled,
        is_quiet: s.is_quiet,
        was_fetched_from_cache: s.was_fetched_from_cache,
        subtitle: opt_text_view(s.subtitle),
        location: opt_location_view(s.location),
        command_details_spec: opt_text_view(s.command_details_spec),
        unique_identifier: opt_text_view(s.unique_identifier),
        localized_result_string: opt_text_view(s.localized_result_string),
        xcbuild_signature: opt_text_view(s.xcbuild_signature),
        attachments: attachments_view(s.attachments@),
        unknown: s.unknown,
        unknown1: s.unknown1,
        unknown2: s.unknown2,
        unknown3: s.unknown3,
        unknown4: opt_text_view(s.unknown4),
        unknown5: s.unknown5,
        unknown6: s.unknown6,
        unknown7: opt_text_view(s.unknown7),
        unknown8: s.unknown8,
        unknown9: s.unknown9,
    }
}

impl View for IDEActivityLogSection {
    type V = IDEActivityLogSectionV;

    open spec fn view(&self) -> IDEActivityLogSectionV {
        section_view(self)
    }
}

/// The views of a run of sections.
pub open spec fn sections_view(s: Seq<IDEActivityLogSection>) -> Seq<IDEActivityLogSectionV> {
    s.map_values(|x: IDEActivityLogSection| x@)
}

impl View for IDECommandLineBuildLog {
    type V = IDECommandLineBuildLogV;

    open spec fn view(&self) -> IDECommandLineBuildLogV {
        IDECommandLineBuildLogV {
            section_type: self.section_type,
            domain_type: self.domain_type@,
            title: self.title@,
            signature: self.signature@,
            time_started_recording: self.time_started_recording,
            time_stopped_recording: self.time_stopped_recording,
            sub_sections: sections_view(self.sub_sections@),
        }
    }
}

impl View for IDEActivityLogCommandInvocationSection {
    type V = IDEActivityLogCommandInvocationSectionV;

    open spec fn view(&self) -> IDEActivityLogCommandInvocationSectionV {
        IDEActivityLogCommandInvocationSectionV {
            section_type: self.section_type,
            domain_type: self.domain_type@,
            title: self.title@,
            signature: self.signature@,
            time_started_recording: self.time_started_recording,
            time_stopped_recording: self.time_stopped_recording,
            sub_sections: sections_view(self.sub_sections@),
            text: opt_text_view(self.text),
            messages: messages_view(self.messages@),
            was_cancelled: self.was_cancelled,
        }
    }
}

// ---------------------------------------------------------------------------
// Token bookkeeping
// ---------------------------------------------------------------------------
/// The nominal token count of one message: its own slots plus its
/// children's.
pub open spec fn spec_count_message(m: IDEActivityLogMessage) -> nat
    decreases m, 0int,
{
    12 + spec_count_messages_from(m.sub_messages, 0) + 2 * m.secondary_locations@.len()
}

/// The summed counts of the messages from index `i` on.
pub open spec fn spec_count_messages_from(v: Vec<IDEActivityLogMessage>, i: int) -> nat
    decreases v, v@.len() - i,
{
    if 0 <= i < v@.len() {
        spec_count_message(v[i]) + spec_count_messages_from(v, i + 1)
    } else {
        0
    }
}

/// The nominal token count of one section.
pub open spec fn spec_count_section(s: IDEActivityLogSection) -> nat
    decreases s, 0int,
{
    19 + spec_count_sections_from(s.sub_sections, 0) + spec_count_messages_from(s.messages, 0) + 3
        * s.attachments@.len()
}

/// The summed counts of the sections from index `i` on.
pub open spec fn spec_count_sections_from(v: Vec<IDEActivityLogSection>, i: int) -> nat
    decreases v, v@.len() - i,
{
    if 0 <= i < v@.len() {
        spec_count_section(v[i]) + spec_count_sections_from(v, i + 1)
    } else {
        0
    }
}

/// The nominal token count of a build log.
pub open spec fn spec_count_build_log(l: IDECommandLineBuildLog) -> nat {
    8 + spec_count_sections_from(l.sub_sections, 0)
}

impl DVTDocumentLocation {
    /// The nominal token count of this node.
    pub fn count_parsed_tokens(&self) -> (r: usize)
        ensures
            r == 2,
    {
        2
    }
}

impl IDEActivityLogSectionAttachment {
    /// The nominal token count of this node.
    pub fn count_parsed_tokens(&self) -> (r: usize)
        ensures
            r == 3,
    {
        3
    }
}

impl IDEActivityLogUnitTestSection {
    /// The nominal token count of this node.
    pub fn count_parsed_tokens(&self) -> (r: usize)
        ensures
            r == 6,
    {
        6
    }
}

impl IDEActivityLogMessage {
    /// The nominal token count of this node: its own slots plus those of
    /// its sub-messages and locations.
    pub fn count_parsed_tokens(&self) -> (r: usize)
        requires
            spec_count_message(*self) <= usize::MAX,
        ensures
            r == spec_count_message(*self),
        decreases *self, 1int,
    {
        let mut total: usize = 12;
        let mut i: usize = 0;
        let n = self.sub_messages.len();
        while i < n
            invariant
                0 <= i <= n,
                n == self.sub_messages@.len(),
                spec_count_message(*self) <= usize::MAX,
                total + spec_count_messages_from(self.sub_messages, i as int) + 2
                    * self.secondary_locations@.len() == spec_count_message(*self),
            decreases n - i,
        {
            let c = self.sub_messages[i].count_parsed_tokens();
            total = total + c;
            i = i + 1;
        }
        let mut j: usize = 0;
        let m = self.secondary_locations.len();
        while j < m
            invariant
                0 <= j <= m,
                m == self.secondary_locations@.len(),
                spec_count_message(*self) <= usize::MAX,
                total + 2 * (m - j) == spec_count_message(*self),
            decreases m - j,
        {
            let c = self.secondary_locations[j].count_parsed_tokens();
            total = total + c;
            j = j + 1;
        }
        total
    }
}

impl IDEActivityLogSection {
    /// The nominal token count of this node: its own slots plus those of
    /// its sub-sections, messages and attachments.
    pub fn count_parsed_tokens(&self) -> (r: usize)
        requires
            spec_count_section(*self) <= usize::MAX,
        ensures
            r == spec_count_section(*self),
        decreases *self, 1int,
    {
        let mut total: usize = 19;
        let mut i: usize = 0;
        let n = self.sub_sections.len();
        while i < n
            invariant
                0 <= i <= n,
                n == self.sub_sections@.len(),
                spec_count_section(*self) <= usize::MAX,
                total + spec_count_sections_from(self.sub_sections, i as int)
                    + spec_count_messages_from(self.messages, 0) + 3 * self.attachments@.len()
                    == spec_count_section(*self),
            decreases n - i,
        {
            let c = self.sub_sections[i].count_parsed_tokens();
            total = total + c;
            i = i + 1;
        }
        let mut j: usize = 0;
        let m = self.messages.len();
        while j < m
            invariant
                0 <= j <= m,
                m == self.messages@.len(),
                spec_count_section(*self) <= usize::MAX,
                total + spec_count_messages_from(self.messages, j as int) + 3
                    * self.attachments@.len() == spec_count_section(*self),
            decreases m - j,
        {
            let c = self.messages[j].count_parsed_tokens();
            total = total + c;
            j = j + 1;
        }
        let mut k: usize = 0;
        let a = self.attachments.len();
        while k < a
            invariant
                0 <= k <= a,
                a == self.attachments@.len(),
                spec_count_section(*self) <= usize::MAX,
                total + 3 * (a - k) == spec_count_section(*self),
            decreases a - k,
        {
            let c = self.attachments[k].count_parsed_tokens();
            total = total + c;
            k = k + 1;
        }
        total
    }
}

impl IDECommandLineBuildLog {
    /// The nominal token count of this node.
    pub fn count_parsed_tokens(&self) -> (r: usize)
        requires
            spec_count_build_log(*self) <= usize::MAX,
        ensures
            r == spec_count_build_log(*self),
    {
        let mut total: usize = 8;
        let mut i: usize = 0;
        let n = self.sub_sections.len();
        while i < n
            invariant
                0 <= i <= n,
                n == self.sub_sections@.len(),
                spec_count_build_log(*self) <= usize::MAX,
                total + spec_count_sections_from(self.sub_sections, i as int)
                    == spec_count_build_log(*self),
            decreases n - i,
        {
            let c = self.sub_sections[i].count_parsed_tokens();
            total = total + c;
            i = i + 1;
        }
        total
    }
}

/// Whether a registry entry equals a literal class name.
pub(crate) fn class_name_is(name: &String, expected: &str) -> (r: bool)
    ensures
        r == (name@ == expected@),
{
    let e: String = expected.to_owned();
    *name == e
}

// ---------------------------------------------------------------------------
// Document locations
// ---------------------------------------------------------------------------
impl DVTDocumentLocation {
    /// The class names this schema is dispatched from.
    pub fn get_possible_class_names() -> (r: Vec<&'static str>)
        ensures
            r@.len() == 1,
            r@[0]@ == "DVTDocumentLocation"@,
    {
        let mut r: Vec<&'static str> = Vec::new();
        r.push("DVTDocumentLocation");
        r
    }

    /// Decodes one document location, as `decode_location` describes.
    pub fn from_tokens(
        tokens: &mut TokenStream,
        class_position_to_name: &mut Vec<String>,
    ) -> (r: Result<DVTDocumentLocation, DecodeError>)
        requires
            old(tokens).wf(),
        ensures
            final(tokens).wf(),
            final(tokens).toks() == old(tokens).toks(),
            final(tokens).position() >= old(tokens).position(),
            r is Ok ==> final(tokens).position() > old(tokens).position(),
            final(class_position_to_name)@ == old(class_position_to_name)@,
            match decode_location(
                old(tokens).toks(),
                old(tokens).position(),
                names_view(old(class_position_to_name)@),
            ) {
                DRes::Decoded { v, pos, reg } => (r matches Ok(x) && x@ == v && final(tokens).position() == pos && names_view(final(class_position_to_name)@) == reg),
                DRes::Fail { err } => (r matches Err(e) && e@ == err),
            },
    {
        let index = match tokens.read_instance() {
            Ok(v) => v,
            Err(e) => {
                return Err(e);
            },
        };
        let (is_base, is_text, is_member, name_copy) = {
            let name = match lookup_class_name(class_position_to_name, index) {
                Ok(n) => n,
                Err(e) => {
                    return Err(e);
                },
            };
            (
                class_name_is(name, "DVTDocumentLocation"),
                class_name_is(name, "DVTTextDocumentLocation"),
                class_name_is(name, "DVTMemberDocumentLocation"),
                name.clone(),
            )
        };
        let document_url_string = match tokens.read_text() {
            Ok(v) => v,
            Err(e) => {
                return Err(e);
            },
        };
        let timestamp = match tokens.read_double_bits() {
            Ok(v) => v,
            Err(e) => {
                return Err(e);
            },
        };
        if is_base {
            Ok(DVTDocumentLocation::Base(DVTBaseDocumentLocation { document_url_string, timestamp }))
        } else if is_text {
            tokens.skip(7);
            Ok(
                DVTDocumentLocation::Text(
                    DVTTextDocumentLocation {
                        base: DVTBaseDocumentLocation {
                            document_url_string: String::new(),
                            timestamp: 0,
                        },
                        starting_line_number: 0,
                        starting_column_number: 0,
                        ending_line_number: 0,
                        ending_column_number: 0,
                        character_range_end: 0,
                        character_range_start: 0,
                        location_encoding: 0,
                    },
                ),
            )
        } else if is_member {
            tokens.skip(1);
            Ok(
                DVTDocumentLocation::Member(
                    DVTMemberDocumentLocation {
                        base: DVTBaseDocumentLocation {
                            document_url_string: String::new(),
                            timestamp: 0,
                        },
                        member: String::new(),
                    },
                ),
            )
        } else {
            Err(DecodeError::UnknownClass(name_copy))
        }
    }
}

/// `deser_exact` for document locations: interns class names, then decodes
/// an instance or accepts `Null`/`Json` as absent.
fn deser_exact_location(
    tokens: &mut TokenStream,
    class_position_to_name: &mut Vec<String>,
) -> (r: Result<Option<DVTDocumentLocation>, DecodeError>)
    requires
        old(tokens).wf(),
    ensures
        final(tokens).wf(),
        final(tokens).toks() == old(tokens).toks(),
        final(tokens).position() >= old(tokens).position(),
        r is Ok ==> final(tokens).position() > old(tokens).position(),
        match dx_location(
            old(tokens).toks(),
            old(tokens).position(),
            names_view(old(class_position_to_name)@),
        ) {
            DOpt::Present { v, pos, reg } => (r matches Ok(o) && o matches Some(x) && x@ == v
                && final(tokens).position() == pos && names_view(final(class_position_to_name)@)
                == reg),
            DOpt::Absent { pos, reg } => (r matches Ok(o) && o is None && final(tokens).position()
                == pos && names_view(final(class_position_to_name)@) == reg),
            DOpt::Fail { err } => (r matches Err(e) && e@ == err),
        },
{
    let ghost t = tokens.toks();
    let ghost p0 = tokens.position();
    let ghost r0 = names_view(class_position_to_name@);
    loop
        invariant
            tokens.wf(),
            tokens.toks() == t,
            t == old(tokens).toks(),
            p0 == old(tokens).position(),
            r0 == names_view(old(class_position_to_name)@),
            p0 <= tokens.position() <= t.len(),
            dx_location(t, p0, r0) == dx_location(
                t,
                tokens.position(),
                names_view(class_position_to_name@),
            ),
        ensures
            tokens.wf(),
            tokens.toks() == t,
            p0 <= tokens.position() <= t.len(),
            dx_location(t, p0, r0) == dx_location(
                t,
                tokens.position(),
                names_view(class_position_to_name@),
            ),
            tokens.position() >= t.len() || !(t[tokens.position()] is ClassName),
        decreases t.len() - tokens.position(),
    {
        let is_class_name = match tokens.peek() {
            Some(Token::ClassName(_)) => true,
            _ => false,
        };
        if !is_class_name {
            break;
        }
        match tokens.next() {
            Some(Token::ClassName(s)) => {
                let ghost sv = s@;
                let ghost pre = names_view(class_position_to_name@);
                class_position_to_name.push(s);
                proof {
                    assert(names_view(class_position_to_name@) =~= pre.push(sv));
                }
            },
            _ => {
                proof {
                    assert(false);
                }
            },
        }
    }
    let kind: Option<TokenType> = match tokens.peek() {
        Some(tok) => Some(tok.token_type()),
        None => None,
    };
    match kind {
        None => Err(DecodeError::UnexpectedEnd),
        Some(TokenType::ClassInstance) => {
            match DVTDocumentLocation::from_tokens(tokens, class_position_to_name) {
                Ok(v) => Ok(Some(v)),
                Err(e) => Err(e),
            }
        },
        Some(TokenType::Null) | Some(TokenType::Json) => {
            let _ = tokens.next();
            Ok(None)
        },
        Some(k) => Err(DecodeError::UnexpectedToken(k)),
    }
}

/// `deser_vec` for document locations: decodes up to `capacity` elements,
/// stopping early at an absent one.
fn deser_vec_location(
    tokens: &mut TokenStream,
    class_position_to_name: &mut Vec<String>,
    capacity: usize,
) -> (r: Result<Vec<DVTDocumentLocation>, DecodeError>)
    requires
        old(tokens).wf(),
    ensures
        final(tokens).wf(),
        final(tokens).toks() == old(tokens).toks(),
        final(tokens).position() >= old(tokens).position(),
        match dv_location(
            old(tokens).toks(),
            old(tokens).position(),
            names_view(old(class_position_to_name)@),
            capacity as nat,
        ) {
            DRes::Decoded { v, pos, reg } => (r matches Ok(out) && locations_view(out@) == v
                && final(tokens).position() == pos && names_view(final(class_position_to_name)@)
                == reg),
            DRes::Fail { err } => (r matches Err(e) && e@ == err),
        },
{
    let ghost t = tokens.toks();
    let ghost p0 = tokens.position();
    let ghost r0 = names_view(class_position_to_name@);
    let mut out: Vec<DVTDocumentLocation> = Vec::new();
    let mut i: usize = 0;
    while i < capacity
        invariant
            tokens.wf(),
            tokens.toks() == t,
            t == old(tokens).toks(),
            p0 == old(tokens).position(),
            r0 == names_view(old(class_position_to_name)@),
            p0 <= tokens.position() <= t.len(),
            0 <= i <= capacity,
            dv_location(t, p0, r0, capacity as nat) == dv_prepend(
                locations_view(out@),
                dv_location(
                    t,
                    tokens.position(),
                    names_view(class_position_to_name@),
                    (capacity - i) as nat,
                ),
            ),
        decreases capacity - i,
    {
        let ghost pre_pos = tokens.position();
        let ghost pre_reg = names_view(class_position_to_name@);
        match deser_exact_location(tokens, class_position_to_name) {
            Err(e) => {
                return Err(e);
            },
            Ok(None) => {
                proof {
                    assert(locations_view(out@) + Seq::<DVTDocumentLocationV>::empty()
                        =~= locations_view(out@));
                }
                return Ok(out);
            },
            Ok(Some(x)) => {
                proof {
                    assert(locations_view(out@.push(x)) =~= locations_view(out@).push(x@));
                    let d = dv_location(
                        t,
                        tokens.position(),
                        names_view(class_position_to_name@),
                        (capacity - i - 1) as nat,
                    );
                    match d {
                        DRes::Decoded { v, pos, reg } => {
                            assert((locations_view(out@) + (seq![x@] + v)) =~= (locations_view(
                                out@,
                            ).push(x@) + v));
                        },
                        DRes::Fail { .. } => {},
                    }
                }
                out.push(x);
                i = i + 1;
            },
        }
    }
    proof {
        assert(locations_view(out@) + Seq::<DVTDocumentLocationV>::empty() =~= locations_view(
            out@,
        ));
    }
    Ok(out)
}

// ---------------------------------------------------------------------------
// Attachments
// ---------------------------------------------------------------------------
impl IDEActivityLogSectionAttachment {
    /// The class names this schema is dispatched from.
    pub fn get_possible_class_names() -> (r: Vec<&'static str>)
        ensures
            r@.len() == 1,
            r@[0]@ == "IDEActivityLogSectionAttachment"@,
    {
        let mut r: Vec<&'static str> = Vec::new();
        r.push("IDEActivityLogSectionAttachment");
        r
    }

    /// Decodes one attachment, as `decode_attachment` describes.
    pub fn from_tokens(
        tokens: &mut TokenStream,
        class_position_to_name: &mut Vec<String>,
    ) -> (r: Result<IDEActivityLogSectionAttachment, DecodeError>)
        requires
            old(tokens).wf(),
        ensures
            final(tokens).wf(),
            final(tokens).toks() == old(tokens).toks(),
            final(tokens).position() >= old(tokens).position(),
            r is Ok ==> final(tokens).position() > old(tokens).position(),
            final(class_position_to_name)@ == old(class_position_to_name)@,
            match decode_attachment(
                old(tokens).toks(),
                old(tokens).position(),
                names_view(old(class_position_to_name)@),
            ) {
                DRes::Decoded { v, pos, reg } => (r matches Ok(x) && x@ == v && final(tokens).position() == pos && names_view(final(class_position_to_name)@) == reg),
                DRes::Fail { err } => (r matches Err(e) && e@ == err),
            },
    {
        let _index = match tokens.read_instance() {
            Ok(v) => v,
            Err(e) => {
                return Err(e);
            },
        };
        let identifier = match tokens.read_text() {
            Ok(v) => v,
            Err(e) => {
                return Err(e);
            },
        };
        let major_version = match tokens.read_u64() {
            Ok(v) => v,
            Err(e) => {
                return Err(e);
            },
        };
        let minor_version = match tokens.read_u64() {
            Ok(v) => v,
            Err(e) => {
                return Err(e);
            },
        };
        let extra: Option<String> = match tokens.next() {
            None => {
                return Err(DecodeError::UnexpectedEnd);
            },
            Some(Token::Json(s)) => match crate::json::parse_json_value(s.as_str()) {
                Ok(_) => Some(s),
                Err(_) => {
                    return Err(DecodeError::InvalidJson);
                },
            },
            Some(Token::Null) => None,
            Some(_) => {
                return Err(
                    DecodeError::Conversion(ConversionError { from: "Token", to: "Value" }),
                );
            },
        };
        Ok(IDEActivityLogSectionAttachment { identifier, major_version, minor_version, extra })
    }
}

/// `deser_exact` for attachments.
fn deser_exact_attachment(
    tokens: &mut TokenStream,
    class_position_to_name: &mut Vec<String>,
) -> (r: Result<Option<IDEActivityLogSectionAttachment>, DecodeError>)
    requires
        old(tokens).wf(),
    ensures
        final(tokens).wf(),
        final(tokens).toks() == old(tokens).toks(),
        final(tokens).position() >= old(tokens).position(),
        r is Ok ==> final(tokens).position() > old(tokens).position(),
        match dx_attachment(
            old(tokens).toks(),
            old(tokens).position(),
            names_view(old(class_position_to_name)@),
        ) {
            DOpt::Present { v, pos, reg } => (r matches Ok(o) && o matches Some(x) && x@ == v
                && final(tokens).position() == pos && names_view(final(class_position_to_name)@)
                == reg),
            DOpt::Absent { pos, reg } => (r matches Ok(o) && o is None && final(tokens).position()
                == pos && names_view(final(class_position_to_name)@) == reg),
            DOpt::Fail { err } => (r matches Err(e) && e@ == err),
        },
{
    let ghost t = tokens.toks();
    let ghost p0 = tokens.position();
    let ghost r0 = names_view(class_position_to_name@);
    loop
        invariant
            tokens.wf(),
            tokens.toks() == t,
            t == old(tokens).toks(),
            p0 == old(tokens).position(),
            r0 == names_view(old(class_position_to_name)@),
            p0 <= tokens.position() <= t.len(),
            dx_attachment(t, p0, r0) == dx_attachment(
                t,
                tokens.position(),
                names_view(class_position_to_name@),
            ),
        ensures
            tokens.wf(),
            tokens.toks() == t,
            p0 <= tokens.position() <= t.len(),
            dx_attachment(t, p0, r0) == dx_attachment(
                t,
                tokens.position(),
                names_view(class_position_to_name@),
            ),
            tokens.position() >= t.len() || !(t[tokens.position()] is ClassName),
        decreases t.len() - tokens.position(),
    {
        let is_class_name = match tokens.peek() {
            Some(Token::ClassName(_)) => true,
            _ => false,
        };
        if !is_class_name {
            break;
        }
        match tokens.next() {
            Some(Token::ClassName(s)) => {
                let ghost sv = s@;
                let ghost pre = names_view(class_position_to_name@);
                class_position_to_name.push(s);
                proof {
                    assert(names_view(class_position_to_name@) =~= pre.push(sv));
                }
            },
            _ => {
                proof {
                    assert(false);
                }
            },
        }
    }
    let kind: Option<TokenType> = match tokens.peek() {
        Some(tok) => Some(tok.token_type()),
        None => None,
    };
    match kind {
        None => Err(DecodeError::UnexpectedEnd),
        Some(TokenType::ClassInstance) => {
            match IDEActivityLogSectionAttachment::from_tokens(tokens, class_position_to_name) {
                Ok(v) => Ok(Some(v)),
                Err(e) => Err(e),
            }
        },
        Some(TokenType::Null) | Some(TokenType::Json) => {
            let _ = tokens.next();
            Ok(None)
        },
        Some(k) => Err(DecodeError::UnexpectedToken(k)),
    }
}

/// `deser_vec` for attachments.
fn deser_vec_attachment(
    tokens: &mut TokenStream,
    class_position_to_name: &mut Vec<String>,
    capacity: usize,
) -> (r: Result<Vec<IDEActivityLogSectionAttachment>, DecodeError>)
    requires
        old(tokens).wf(),
    ensures
        final(tokens).wf(),
        final(tokens).toks() == old(tokens).toks(),
        final(tokens).position() >= old(tokens).position(),
        match dv_attachment(
            old(tokens).toks(),
            old(tokens).position(),
            names_view(old(class_position_to_name)@),
            capacity as nat,
        ) {
            DRes::Decoded { v, pos, reg } => (r matches Ok(out) && attachments_view(out@) == v
                && final(tokens).position() == pos && names_view(final(class_position_to_name)@)
                == reg),
            DRes::Fail { err } => (r matches Err(e) && e@ == err),
        },
{
    let ghost t = tokens.toks();
    let ghost p0 = tokens.position();
    let ghost r0 = names_view(class_position_to_name@);
    let mut out: Vec<IDEActivityLogSectionAttachment> = Vec::new();
    let mut i: usize = 0;
    while i < capacity
        invariant
            tokens.wf(),
            tokens.toks() == t,
            t == old(tokens).toks(),
            p0 == old(tokens).position(),
            r0 == names_view(old(class_position_to_name)@),
            p0 <= tokens.position() <= t.len(),
            0 <= i <= capacity,
            dv_attachment(t, p0, r0, capacity as nat) == dv_prepend(
                attachments_view(out@),
                dv_attachment(
                    t,
                    tokens.position(),
                    names_view(class_position_to_name@),
                    (capacity - i) as nat,
                ),
            ),
        decreases capacity - i,
    {
        match deser_exact_attachment(tokens, class_position_to_name) {
            Err(e) => {
                return Err(e);
            },
            Ok(None) => {
                proof {
                    assert(attachments_view(out@) + Seq::<IDEActivityLogSectionAttachmentV>::empty()
                        =~= attachments_view(out@));
                }
                return Ok(out);
            },
            Ok(Some(x)) => {
                proof {
                    assert(attachments_view(out@.push(x)) =~= attachments_view(out@).push(x@));
                    let d = dv_attachment(
                        t,
                        tokens.position(),
                        names_view(class_position_to_name@),
                        (capacity - i - 1) as nat,
                    );
                    match d {
                        DRes::Decoded { v, pos, reg } => {
                            assert((attachments_view(out@) + (seq![x@] + v)) =~= (attachments_view(
                                out@,
                            ).push(x@) + v));
                        },
                        DRes::Fail { .. } => {},
                    }
                }
                out.push(x);
                i = i + 1;
            },
        }
    }
    proof {
        assert(attachments_view(out@) + Seq::<IDEActivityLogSectionAttachmentV>::empty()
            =~= attachments_view(out@));
    }
    Ok(out)
}

// ---------------------------------------------------------------------------
// Unit-test sections
// ---------------------------------------------------------------------------
impl IDEActivityLogUnitTestSection {
    /// The class names this schema is dispatched from.
    pub fn get_possible_class_names() -> (r: Vec<&'static str>)
        ensures
            r@.len() == 1,
            r@[0]@ == "IDEActivityLogUnitTestSection"@,
    {
        let mut r: Vec<&'static str> = Vec::new();
        r.push("IDEActivityLogUnitTestSection");
        r
    }

    /// Decodes one unit-test section: its six slots are consumed and
    /// discarded to keep the stream aligned.
    pub fn from_tokens(
        tokens: &mut TokenStream,
        class_position_to_name: &mut Vec<String>,
    ) -> (r: Result<IDEActivityLogUnitTestSection, DecodeError>)
        requires
            old(tokens).wf(),
        ensures
            final(tokens).wf(),
            final(tokens).toks() == old(tokens).toks(),
            final(tokens).position() >= old(tokens).position(),
            r is Ok ==> final(tokens).position() > old(tokens).position(),
            final(class_position_to_name)@ == old(class_position_to_name)@,
            match decode_unit_test_section(
                old(tokens).toks(),
                old(tokens).position(),
                names_view(old(class_position_to_name)@),
            ) {
                DRes::Decoded { v, pos, reg } => (r matches Ok(x) && x@ == v && final(tokens).position() == pos && names_view(final(class_position_to_name)@) == reg),
                DRes::Fail { err } => (r matches Err(e) && e@ == err),
            },
    {
        let _index = match tokens.read_instance() {
            Ok(v) => v,
            Err(e) => {
                return Err(e);
            },
        };
        tokens.skip(6);
        Ok(
            IDEActivityLogUnitTestSection {
                tests_passed_string: String::new(),
                duration_string: String::new(),
                summary_string: String::new(),
                suite_name: String::new(),
                test_name: String::new(),
                performance_test_output_string: String::new(),
            },
        )
    }
}

// ---------------------------------------------------------------------------
// Messages
// ---------------------------------------------------------------------------
impl IDEActivityLogMessage {
    /// The class names this schema is dispatched from.
    pub fn get_possible_class_names() -> (r: Vec<&'static str>)
        ensures
            r@.len() == 2,
            r@[0]@ == "IDEActivityLogMessage"@,
            r@[1]@ == "IDEDiagnosticActivityLogMessage"@,
    {
        let mut r: Vec<&'static str> = Vec::new();
        r.push("IDEActivityLogMessage");
        r.push("IDEDiagnosticActivityLogMessage");
        r
    }

    /// Decodes one message, as `decode_message` describes.
    #[verifier::rlimit(100)]
    pub fn from_tokens(
        tokens: &mut TokenStream,
        class_position_to_name: &mut Vec<String>,
        depth: u64,
    ) -> (r: Result<IDEActivityLogMessage, DecodeError>)
        requires
            old(tokens).wf(),
        ensures
            final(tokens).wf(),
            final(tokens).toks() == old(tokens).toks(),
            final(tokens).position() >= old(tokens).position(),
            r is Ok ==> final(tokens).position() > old(tokens).position(),
            match decode_message(
                old(tokens).toks(),
                old(tokens).position(),
                names_view(old(class_position_to_name)@),
                depth as nat,
            ) {
                DRes::Decoded { v, pos, reg } => (r matches Ok(x) && x@ == v && final(tokens).position() == pos && names_view(final(class_position_to_name)@) == reg),
                DRes::Fail { err } => (r matches Err(e) && e@ == err),
            },
        decreases depth, 0int,
    {
        if depth == 0 {
            return Err(DecodeError::DepthExceeded);
        }
        let _index = match tokens.read_instance() {
            Ok(v) => v,
            Err(e) => {
                return Err(e);
            },
        };
        let title = match tokens.read_text() {
            Ok(v) => v,
            Err(e) => {
                return Err(e);
            },
        };
        let short_title = match tokens.read_opt_text() {
            Ok(v) => v,
            Err(e) => {
                return Err(e);
            },
        };
        let time_emitted = match tokens.read_u64() {
            Ok(v) => v,
            Err(e) => {
                return Err(e);
            },
        };
        let range_end_in_section_text = match tokens.read_u64() {
            Ok(v) => v,
            Err(e) => {
                return Err(e);
            },
        };
        let range_start_in_section_text = match tokens.read_u64() {
            Ok(v) => v,
            Err(e) => {
                return Err(e);
            },
        };
        let sub_messages_size = match tokens.read_count() {
            Ok(v) => v,
            Err(e) => {
                return Err(e);
            },
        };
        let sub_messages = match deser_vec_message(
            tokens,
            class_position_to_name,
            sub_messages_size,
            depth - 1,
        ) {
            Ok(v) => v,
            Err(e) => {
                return Err(e);
            },
        };
        let severity = match tokens.read_i32() {
            Ok(v) => v,
            Err(e) => {
                return Err(e);
            },
        };
        let message_type = match tokens.read_opt_text() {
            Ok(v) => v,
            Err(e) => {
                return Err(e);
            },
        };
        let location = match deser_exact_location(tokens, class_position_to_name) {
            Ok(v) => v,
            Err(e) => {
                return Err(e);
            },
        };
        let category_ident = match tokens.read_opt_text() {
            Ok(v) => v,
            Err(e) => {
                return Err(e);
            },
        };
        let secondary_locations_size = match tokens.read_count() {
            Ok(v) => v,
            Err(e) => {
                return Err(e);
            },
        };
        let secondary_locations = match deser_vec_location(
            tokens,
            class_position_to_name,
            secondary_locations_size,
        ) {
            Ok(v) => v,
            Err(e) => {
                return Err(e);
            },
        };
        let additional_description = match tokens.read_opt_text() {
            Ok(v) => v,
            Err(e) => {
                return Err(e);
            },
        };
        let result = IDEActivityLogMessage {
            title,
            short_title,
            time_emitted,
            range_end_in_section_text,
            range_start_in_section_text,
            sub_messages,
            severity,
            message_type,
            location,
            category_ident,
            secondary_locations,
            additional_description,
        };
        proof {
            let vs = result.sub_messages@;
            assert forall|j: int| 0 <= j < vs.len() implies result@.sub_messages[j]
                == messages_view(vs)[j] by {
                assert(result@.sub_messages[j] == vs[j]@);
                assert(messages_view(vs)[j] == vs[j]@);
            }
            assert(result@.sub_messages =~= messages_view(vs));
        }
        Ok(result)
    }
}

/// `deser_exact` for messages.
fn deser_exact_message(
    tokens: &mut TokenStream,
    class_position_to_name: &mut Vec<String>,
    depth: u64,
) -> (r: Result<Option<IDEActivityLogMessage>, DecodeError>)
    requires
        old(tokens).wf(),
    ensures
        final(tokens).wf(),
        final(tokens).toks() == old(tokens).toks(),
        final(tokens).position() >= old(tokens).position(),
        r is Ok ==> final(tokens).position() > old(tokens).position(),
        match dx_message(
            old(tokens).toks(),
            old(tokens).position(),
            names_view(old(class_position_to_name)@),
            depth as nat,
        ) {
            DOpt::Present { v, pos, reg } => (r matches Ok(o) && o matches Some(x) && x@ == v
                && final(tokens).position() == pos && names_view(final(class_position_to_name)@)
                == reg),
            DOpt::Absent { pos, reg } => (r matches Ok(o) && o is None && final(tokens).position()
                == pos && names_view(final(class_position_to_name)@) == reg),
            DOpt::Fail { err } => (r matches Err(e) && e@ == err),
        },
    decreases depth, 1int,
{
    let ghost t = tokens.toks();
    let ghost p0 = tokens.position();
    let ghost r0 = names_view(class_position_to_name@);
    loop
        invariant
            tokens.wf(),
            tokens.toks() == t,
            t == old(tokens).toks(),
            p0 == old(tokens).position(),
            r0 == names_view(old(class_position_to_name)@),
            p0 <= tokens.position() <= t.len(),
            dx_message(t, p0, r0, depth as nat) == dx_message(
                t,
                tokens.position(),
                names_view(class_position_to_name@),
                depth as nat,
            ),
        ensures
            tokens.wf(),
            tokens.toks() == t,
            p0 <= tokens.position() <= t.len(),
            dx_message(t, p0, r0, depth as nat) == dx_message(
                t,
                tokens.position(),
                names_view(class_position_to_name@),
                depth as nat,
            ),
            tokens.position() >= t.len() || !(t[tokens.position()] is ClassName),
        decreases t.len() - tokens.position(),
    {
        let is_class_name = match tokens.peek() {
            Some(Token::ClassName(_)) => true,
            _ => false,
        };
        if !is_class_name {
            break;
        }
        match tokens.next() {
            Some(Token::ClassName(s)) => {
                let ghost sv = s@;
                let ghost pre = names_view(class_position_to_name@);
                class_position_to_name.push(s);
                proof {
                    assert(names_view(class_position_to_name@) =~= pre.push(sv));
                }
            },
            _ => {
                proof {
                    assert(false);
                }
            },
        }
    }
    let kind: Option<TokenType> = match tokens.peek() {
        Some(tok) => Some(tok.token_type()),
        None => None,
    };
    match kind {
        None => Err(DecodeError::UnexpectedEnd),
        Some(TokenType::ClassInstance) => {
            match IDEActivityLogMessage::from_tokens(tokens, class_position_to_name, depth) {
                Ok(v) => Ok(Some(v)),
                Err(e) => Err(e),
            }
        },
        Some(TokenType::Null) | Some(TokenType::Json) => {
            let _ = tokens.next();
            Ok(None)
        },
        Some(k) => Err(DecodeError::UnexpectedToken(k)),
    }
}

/// `deser_vec` for messages.
fn deser_vec_message(
    tokens: &mut TokenStream,
    class_position_to_name: &mut Vec<String>,
    capacity: usize,
    depth: u64,
) -> (r: Result<Vec<IDEActivityLogMessage>, DecodeError>)
    requires
        old(tokens).wf(),
    ensures
        final(tokens).wf(),
        final(tokens).toks() == old(tokens).toks(),
        final(tokens).position() >= old(tokens).position(),
        match dv_message(
            old(tokens).toks(),
            old(tokens).position(),
            names_view(old(class_position_to_name)@),
            capacity as nat,
            depth as nat,
        ) {
            DRes::Decoded { v, pos, reg } => (r matches Ok(out) && messages_view(out@) == v
                && final(tokens).position() == pos && names_view(final(class_position_to_name)@)
                == reg),
            DRes::Fail { err } => (r matches Err(e) && e@ == err),
        },
    decreases depth, 2int,
{
    let ghost t = tokens.toks();
    let ghost p0 = tokens.position();
    let ghost r0 = names_view(class_position_to_name@);
    let mut out: Vec<IDEActivityLogMessage> = Vec::new();
    let mut i: usize = 0;
    while i < capacity
        invariant
            tokens.wf(),
            tokens.toks() == t,
            t == old(tokens).toks(),
            p0 == old(tokens).position(),
            r0 == names_view(old(class_position_to_name)@),
            p0 <= tokens.position() <= t.len(),
            0 <= i <= capacity,
            dv_message(t, p0, r0, capacity as nat, depth as nat) == dv_prepend(
                messages_view(out@),
                dv_message(
                    t,
                    tokens.position(),
                    names_view(class_position_to_name@),
                    (capacity - i) as nat,
                    depth as nat,
                ),
            ),
        decreases capacity - i,
    {
        match deser_exact_message(tokens, class_position_to_name, depth) {
            Err(e) => {
                return Err(e);
            },
            Ok(None) => {
                proof {
                    assert(messages_view(out@) + Seq::<IDEActivityLogMessageV>::empty()
                        =~= messages_view(out@));
                }
                return Ok(out);
            },
            Ok(Some(x)) => {
                proof {
                    assert(messages_view(out@.push(x)) =~= messages_view(out@).push(x@));
                    let d = dv_message(
                        t,
                        tokens.position(),
                        names_view(class_position_to_name@),
                        (capacity - i - 1) as nat,
                        depth as nat,
                    );
                    match d {
                        DRes::Decoded { v, pos, reg } => {
                            assert((messages_view(out@) + (seq![x@] + v)) =~= (messages_view(
                                out@,
                            ).push(x@) + v));
                        },
                        DRes::Fail { .. } => {},
                    }
                }
                out.push(x);
                i = i + 1;
            },
        }
    }
    proof {
        assert(messages_view(out@) + Seq::<IDEActivityLogMessageV>::empty() =~= messages_view(
            out@,
        ));
    }
    Ok(out)
}

// ---------------------------------------------------------------------------
// Sections
// ---------------------------------------------------------------------------
impl IDEActivityLogSection {
    /// The class names this schema is dispatched from.
    pub fn get_possible_class_names() -> (r: Vec<&'static str>)
        ensures
            r@.len() == 2,
            r@[0]@ == "IDEActivityLogSection"@,
            r@[1]@ == "IDEActivityLogCommandInvocationSection"@,
    {
        let mut r: Vec<&'static str> = Vec::new();
        r.push("IDEActivityLogSection");
        r.push("IDEActivityLogCommandInvocationSection");
        r
    }

    /// Decodes one section, as `decode_section` describes: the fixed slots,
    /// the recursive runs, the optional attachments array and the probed
    /// trailing fields.
    #[verifier::rlimit(100)]
    pub fn from_tokens(
        tokens: &mut TokenStream,
        class_position_to_name: &mut Vec<String>,
        depth: u64,
    ) -> (r: Result<IDEActivityLogSection, DecodeError>)
        requires
            old(tokens).wf(),
        ensures
            final(tokens).wf(),
            final(tokens).toks() == old(tokens).toks(),
            final(tokens).position() >= old(tokens).position(),
            r is Ok ==> final(tokens).position() > old(tokens).position(),
            match decode_section(
                old(tokens).toks(),
                old(tokens).position(),
                names_view(old(class_position_to_name)@),
                depth as nat,
            ) {
                DRes::Decoded { v, pos, reg } => (r matches Ok(x) && x@ == v && final(tokens).position() == pos && names_view(final(class_position_to_name)@) == reg),
                DRes::Fail { err } => (r matches Err(e) && e@ == err),
            },
        decreases depth, 0int,
    {
        if depth == 0 {
            return Err(DecodeError::DepthExceeded);
        }
        let _index = match tokens.read_instance() {
            Ok(v) => v,
            Err(e) => {
                return Err(e);
            },
        };
        let section_type = match tokens.read_i8() {
            Ok(v) => v,
            Err(e) => {
                return Err(e);
            },
        };
        let domain_type = match tokens.read_text() {
            Ok(v) => v,
            Err(e) => {
                return Err(e);
            },
        };
        let title = match tokens.read_text() {
            Ok(v) => v,
            Err(e) => {
                return Err(e);
            },
        };
        let signature = match tokens.read_text() {
            Ok(v) => v,
            Err(e) => {
                return Err(e);
            },
        };
        let time_started_recording = match tokens.read_double_bits() {
            Ok(v) => v,
            Err(e) => {
                return Err(e);
            },
        };
        let time_stopped_recording = match tokens.read_double_bits() {
            Ok(v) => v,
            Err(e) => {
                return Err(e);
            },
        };
        let sub_sections_size = match tokens.read_count() {
            Ok(v) => v,
            Err(e) => {
                return Err(e);
            },
        };
        let sub_sections = match deser_vec_section(
            tokens,
            class_position_to_name,
            sub_sections_size,
            depth - 1,
        ) {
            Ok(v) => v,
            Err(e) => {
                return Err(e);
            },
        };
        let text = match tokens.read_opt_text() {
            Ok(v) => v,
            Err(e) => {
                return Err(e);
            },
        };
        let messages_size = match tokens.read_count() {
            Ok(v) => v,
            Err(e) => {
                return Err(e);
            },
        };
        let messages = match deser_vec_message(
            tokens,
            class_position_to_name,
            messages_size,
            depth - 1,
        ) {
            Ok(v) => v,
            Err(e) => {
                return Err(e);
            },
        };
        let was_cancelled = match tokens.read_bool() {
            Ok(v) => v,
            Err(e) => {
                return Err(e);
            },
        };
        let is_quiet = match tokens.read_bool() {
            Ok(v) => v,
            Err(e) => {
                return Err(e);
            },
        };
        let was_fetched_from_cache = match tokens.read_bool() {
            Ok(v) => v,
            Err(e) => {
                return Err(e);
            },
        };
        let subtitle = match tokens.read_opt_text() {
            Ok(v) => v,
            Err(e) => {
                return Err(e);
            },
        };
        let location = match deser_exact_location(tokens, class_position_to_name) {
            Ok(v) => v,
            Err(e) => {
                return Err(e);
            },
        };
        let command_details_spec = match tokens.read_opt_text() {
            Ok(v) => v,
            Err(e) => {
                return Err(e);
            },
        };
        let unique_identifier = match tokens.read_opt_text() {
            Ok(v) => v,
            Err(e) => {
                return Err(e);
            },
        };
        let localized_result_string = match tokens.read_opt_text() {
            Ok(v) => v,
            Err(e) => {
                return Err(e);
            },
        };
        let xcbuild_signature = match tokens.read_opt_text() {
            Ok(v) => v,
            Err(e) => {
                return Err(e);
            },
        };
        let attachments_found = match tokens.peek() {
            Some(Token::Array(_)) => true,
            _ => false,
        };
        let mut attachments: Vec<IDEActivityLogSectionAttachment> = Vec::new();
        let mut unknown: Option<u64> = None;
        let mut unknown1: bool = false;
        let mut unknown2: bool = false;
        let mut unknown3: bool = false;
        let mut unknown4: Option<String> = None;
        let mut unknown5: Option<u64> = None;
        let mut unknown6: Option<u64> = None;
        let mut unknown7: Option<String> = None;
        let mut unknown8: Option<u64> = None;
        let mut unknown9: Option<u64> = None;
        if attachments_found {
            let attachments_size = match tokens.read_count() {
                Ok(v) => v,
                Err(e) => {
                    return Err(e);
                },
            };
            attachments = match deser_vec_attachment(
                tokens,
                class_position_to_name,
                attachments_size,
            ) {
                Ok(v) => v,
                Err(e) => {
                    return Err(e);
                },
            };
            let (f0, a0) = tokens.probe_opt_u64_slot(true);
            unknown = a0;
            let (f1, a1) = tokens.probe_bool_slot(f0);
            unknown1 = a1;
            let (f2, a2) = tokens.probe_bool_slot(f1);
            unknown2 = a2;
            let (f3, a3) = tokens.probe_bool_slot(f2);
            unknown3 = a3;
            let (f4, a4) = tokens.probe_opt_text_slot(f3);
            unknown4 = a4;
            let (f5, a5) = tokens.probe_opt_u64_slot(f4);
            unknown5 = a5;
            let (f6, a6) = tokens.probe_opt_u64_slot(f5);
            unknown6 = a6;
            let (f7, a7) = tokens.probe_opt_text_slot(f6);
            unknown7 = a7;
            let (f8, a8) = tokens.probe_opt_u64_slot(f7);
            unknown8 = a8;
            let (_f9, a9) = tokens.probe_opt_u64_slot(f8);
            unknown9 = a9;
        }
        let result = IDEActivityLogSection {
            section_type,
            domain_type,
            title,
            signature,
            time_started_recording,
            time_stopped_recording,
            sub_sections,
            text,
            messages,
            was_cancelled,
            is_quiet,
            was_fetched_from_cache,
            subtitle,
            location,
            command_details_spec,
            unique_identifier,
            localized_result_string,
            xcbuild_signature,
            attachments,
            unknown,
            unknown1,
            unknown2,
            unknown3,
            unknown4,
            unknown5,
            unknown6,
            unknown7,
            unknown8,
            unknown9,
        };
        proof {
            let vs = result.sub_sections@;
            assert forall|j: int| 0 <= j < vs.len() implies result@.sub_sections[j]
                == sections_view(vs)[j] by {
                assert(result@.sub_sections[j] == vs[j]@);
                assert(sections_view(vs)[j] == vs[j]@);
            }
            assert(result@.sub_sections =~= sections_view(vs));
            if !attachments_found {
                assert(attachments_view(result.attachments@) =~= Seq::<
                    IDEActivityLogSectionAttachmentV,
                >::empty());
            }
        }
        Ok(result)
    }
}

/// `deser_exact` for sections.
fn deser_exact_section(
    tokens: &mut TokenStream,
    class_position_to_name: &mut Vec<String>,
    depth: u64,
) -> (r: Result<Option<IDEActivityLogSection>, DecodeError>)
    requires
        old(tokens).wf(),
    ensures
        final(tokens).wf(),
        final(tokens).toks() == old(tokens).toks(),
        final(tokens).position() >= old(tokens).position(),
        r is Ok ==> final(tokens).position() > old(tokens).position(),
        match dx_section(
            old(tokens).toks(),
            old(tokens).position(),
            names_view(old(class_position_to_name)@),
            depth as nat,
        ) {
            DOpt::Present { v, pos, reg } => (r matches Ok(o) && o matches Some(x) && x@ == v
                && final(tokens).position() == pos && names_view(final(class_position_to_name)@)
                == reg),
            DOpt::Absent { pos, reg } => (r matches Ok(o) && o is None && final(tokens).position()
                == pos && names_view(final(class_position_to_name)@) == reg),
            DOpt::Fail { err } => (r matches Err(e) && e@ == err),
        },
    decreases depth, 1int,
{
    let ghost t = tokens.toks();
    let ghost p0 = tokens.position();
    let ghost r0 = names_view(class_position_to_name@);
    loop
        invariant
            tokens.wf(),
            tokens.toks() == t,
            t == old(tokens).toks(),
            p0 == old(tokens).position(),
            r0 == names_view(old(class_position_to_name)@),
            p0 <= tokens.position() <= t.len(),
            dx_section(t, p0, r0, depth as nat) == dx_section(
                t,
                tokens.position(),
                names_view(class_position_to_name@),
                depth as nat,
            ),
        ensures
            tokens.wf(),
            tokens.toks() == t,
            p0 <= tokens.position() <= t.len(),
            dx_section(t, p0, r0, depth as nat) == dx_section(
                t,
                tokens.position(),
                names_view(class_position_to_name@),
                depth as nat,
            ),
            tokens.position() >= t.len() || !(t[tokens.position()] is ClassName),
        decreases t.len() - tokens.position(),
    {
        let is_class_name = match tokens.peek() {
            Some(Token::ClassName(_)) => true,
            _ => false,
        };
        if !is_class_name {
            break;
        }
        match tokens.next() {
            Some(Token::ClassName(s)) => {
                let ghost sv = s@;
                let ghost pre = names_view(class_position_to_name@);
                class_position_to_name.push(s);
                proof {
                    assert(names_view(class_position_to_name@) =~= pre.push(sv));
                }
            },
            _ => {
                proof {
                    assert(false);
                }
            },
        }
    }
    let kind: Option<TokenType> = match tokens.peek() {
        Some(tok) => Some(tok.token_type()),
        None => None,
    };
    match kind {
        None => Err(DecodeError::UnexpectedEnd),
        Some(TokenType::ClassInstance) => {
            match IDEActivityLogSection::from_tokens(tokens, class_position_to_name, depth) {
                Ok(v) => Ok(Some(v)),
                Err(e) => Err(e),
            }
        },
        Some(TokenType::Null) | Some(TokenType::Json) => {
            let _ = tokens.next();
            Ok(None)
        },
        Some(k) => Err(DecodeError::UnexpectedToken(k)),
    }
}

/// `deser_vec` for sections.
fn deser_vec_section(
    tokens: &mut TokenStream,
    class_position_to_name: &mut Vec<String>,
    capacity: usize,
    depth: u64,
) -> (r: Result<Vec<IDEActivityLogSection>, DecodeError>)
    requires
        old(tokens).wf(),
    ensures
        final(tokens).wf(),
        final(tokens).toks() == old(tokens).toks(),
        final(tokens).position() >= old(tokens).position(),
        match dv_section(
            old(tokens).toks(),
            old(tokens).position(),
            names_view(old(class_position_to_name)@),
            capacity as nat,
            depth as nat,
        ) {
            DRes::Decoded { v, pos, reg } => (r matches Ok(out) && sections_view(out@) == v
                && final(tokens).position() == pos && names_view(final(class_position_to_name)@)
                == reg),
            DRes::Fail { err } => (r matches Err(e) && e@ == err),
        },
    decreases depth, 2int,
{
    let ghost t = tokens.toks();
    let ghost p0 = tokens.position();
    let ghost r0 = names_view(class_position_to_name@);
    let mut out: Vec<IDEActivityLogSection> = Vec::new();
    let mut i: usize = 0;
    while i < capacity
        invariant
            tokens.wf(),
            tokens.toks() == t,
            t == old(tokens).toks(),
            p0 == old(tokens).position(),
            r0 == names_view(old(class_position_to_name)@),
            p0 <= tokens.position() <= t.len(),
            0 <= i <= capacity,
            dv_section(t, p0, r0, capacity as nat, depth as nat) == dv_prepend(
                sections_view(out@),
                dv_section(
                    t,
                    tokens.position(),
                    names_view(class_position_to_name@),
                    (capacity - i) as nat,
                    depth as nat,
                ),
            ),
        decreases capacity - i,
    {
        match deser_exact_section(tokens, class_position_to_name, depth) {
            Err(e) => {
                return Err(e);
            },
            Ok(None) => {
                proof {
                    assert(sections_view(out@) + Seq::<IDEActivityLogSectionV>::empty()
                        =~= sections_view(out@));
                }
                return Ok(out);
            },
            Ok(Some(x)) => {
                proof {
                    assert(sections_view(out@.push(x)) =~= sections_view(out@).push(x@));
                    let d = dv_section(
                        t,
                        tokens.position(),
                        names_view(class_position_to_name@),
                        (capacity - i - 1) as nat,
                        depth as nat,
                    );
                    match d {
                        DRes::Decoded { v, pos, reg } => {
                            assert((sections_view(out@) + (seq![x@] + v)) =~= (sections_view(
                                out@,
                            ).push(x@) + v));
                        },
                        DRes::Fail { .. } => {},
                    }
                }
                out.push(x);
                i = i + 1;
            },
        }
    }
    proof {
        assert(sections_view(out@) + Seq::<IDEActivityLogSectionV>::empty() =~= sections_view(
            out@,
        ));
    }
    Ok(out)
}

// ---------------------------------------------------------------------------
// Command-line build logs and command-invocation sections
// ---------------------------------------------------------------------------
impl IDECommandLineBuildLog {
    /// The class names this schema expects for its sub-sections.
    pub fn get_possible_class_names() -> (r: Vec<&'static str>)
        ensures
            r@.len() == 1,
            r@[0]@ == "IDEActivityLogSection"@,
    {
        let mut r: Vec<&'static str> = Vec::new();
        r.push("IDEActivityLogSection");
        r
    }

    /// Decodes the root build log, as `decode_build_log` describes.
    #[verifier::rlimit(100)]
    pub fn from_tokens(
        tokens: &mut TokenStream,
        class_position_to_name: &mut Vec<String>,
        depth: u64,
    ) -> (r: Result<IDECommandLineBuildLog, DecodeError>)
        requires
            old(tokens).wf(),
        ensures
            final(tokens).wf(),
            final(tokens).toks() == old(tokens).toks(),
            final(tokens).position() >= old(tokens).position(),
            r is Ok ==> final(tokens).position() > old(tokens).position(),
            match decode_build_log(
                old(tokens).toks(),
                old(tokens).position(),
                names_view(old(class_position_to_name)@),
                depth as nat,
            ) {
                DRes::Decoded { v, pos, reg } => (r matches Ok(x) && x@ == v && final(tokens).position() == pos && names_view(final(class_position_to_name)@) == reg),
                DRes::Fail { err } => (r matches Err(e) && e@ == err),
            },
    {
        if depth == 0 {
            return Err(DecodeError::DepthExceeded);
        }
        let _index = match tokens.read_instance() {
            Ok(v) => v,
            Err(e) => {
                return Err(e);
            },
        };
        let section_type = match tokens.read_i8() {
            Ok(v) => v,
            Err(e) => {
                return Err(e);
            },
        };
        let domain_type = match tokens.read_text() {
            Ok(v) => v,
            Err(e) => {
                return Err(e);
            },
        };
        let title = match tokens.read_text() {
            Ok(v) => v,
            Err(e) => {
                return Err(e);
            },
        };
        let signature = match tokens.read_text() {
            Ok(v) => v,
            Err(e) => {
                return Err(e);
            },
        };
        let time_started_recording = match tokens.read_double_bits() {
            Ok(v) => v,
            Err(e) => {
                return Err(e);
            },
        };
        let time_stopped_recording = match tokens.read_double_bits() {
            Ok(v) => v,
            Err(e) => {
                return Err(e);
            },
        };
        let sub_sections_size = match tokens.read_count() {
            Ok(v) => v,
            Err(e) => {
                return Err(e);
            },
        };
        let sub_sections = match deser_vec_section(
            tokens,
            class_position_to_name,
            sub_sections_size,
            depth - 1,
        ) {
            Ok(v) => v,
            Err(e) => {
                return Err(e);
            },
        };
        Ok(
            IDECommandLineBuildLog {
                section_type,
                domain_type,
                title,
                signature,
                time_started_recording,
                time_stopped_recording,
                sub_sections,
            },
        )
    }
}

impl IDEActivityLogCommandInvocationSection {
    /// The class names this schema is dispatched from.
    pub fn get_possible_class_names() -> (r: Vec<&'static str>)
        ensures
            r@.len() == 1,
            r@[0]@ == "IDEActivityLogCommandInvocationSection"@,
    {
        let mut r: Vec<&'static str> = Vec::new();
        r.push("IDEActivityLogCommandInvocationSection");
        r
    }

    /// Decodes one command-invocation section, as
    /// `decode_command_invocation_section` describes.
    #[verifier::rlimit(100)]
    pub fn from_tokens(
        tokens: &mut TokenStream,
        class_position_to_name: &mut Vec<String>,
        depth: u64,
    ) -> (r: Result<IDEActivityLogCommandInvocationSection, DecodeError>)
        requires
            old(tokens).wf(),
        ensures
            final(tokens).wf(),
            final(tokens).toks() == old(tokens).toks(),
            final(tokens).position() >= old(tokens).position(),
            r is Ok ==> final(tokens).position() > old(tokens).position(),
            match decode_command_invocation_section(
                old(tokens).toks(),
                old(tokens).position(),
                names_view(old(class_position_to_name)@),
                depth as nat,
            ) {
                DRes::Decoded { v, pos, reg } => (r matches Ok(x) && x@ == v && final(tokens).position() == pos && names_view(final(class_position_to_name)@) == reg),
                DRes::Fail { err } => (r matches Err(e) && e@ == err),
            },
    {
        if depth == 0 {
            return Err(DecodeError::DepthExceeded);
        }
        let _index = match tokens.read_instance() {
            Ok(v) => v,
            Err(e) => {
                return Err(e);
            },
        };
        let section_type = match tokens.read_i8() {
            Ok(v) => v,
            Err(e) => {
                return Err(e);
            },
        };
        let domain_type = match tokens.read_text() {
            Ok(v) => v,
            Err(e) => {
                return Err(e);
            },
        };
        let title = match tokens.read_text() {
            Ok(v) => v,
            Err(e) => {
                return Err(e);
            },
        };
        let signature = match tokens.read_text() {
            Ok(v) => v,
            Err(e) => {
                return Err(e);
            },
        };
        let time_started_recording = match tokens.read_double_bits() {
            Ok(v) => v,
            Err(e) => {
                return Err(e);
            },
        };
        let time_stopped_recording = match tokens.read_double_bits() {
            Ok(v) => v,
            Err(e) => {
                return Err(e);
            },
        };
        let sub_sections_size = match tokens.read_count() {
            Ok(v) => v,
            Err(e) => {
                return Err(e);
            },
        };
        let sub_sections = match deser_vec_section(
            tokens,
            class_position_to_name,
            sub_sections_size,
            depth - 1,
        ) {
            Ok(v) => v,
            Err(e) => {
                return Err(e);
            },
        };
        let text = match tokens.read_opt_text() {
            Ok(v) => v,
            Err(e) => {
                return Err(e);
            },
        };
        let messages_size = match tokens.read_count() {
            Ok(v) => v,
            Err(e) => {
                return Err(e);
            },
        };
        let messages = match deser_vec_message(
            tokens,
            class_position_to_name,
            messages_size,
            depth - 1,
        ) {
            Ok(v) => v,
            Err(e) => {
                return Err(e);
            },
        };
        let was_cancelled = match tokens.read_bool() {
            Ok(v) => v,
            Err(e) => {
                return Err(e);
            },
        };
        Ok(
            IDEActivityLogCommandInvocationSection {
                section_type,
                domain_type,
                title,
                signature,
                time_started_recording,
                time_stopped_recording,
                sub_sections,
                text,
                messages,
                was_cancelled,
            },
        )
    }
}

} // verus!
