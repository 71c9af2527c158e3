//! Global laws of the decoder, proved over the model in [`crate::schema`]
//! and [`crate::deser`]:
//!
//! - the class registry grows monotonically (it is only appended to), and
//!   never outgrows the number of `ClassName` tokens consumed, so a
//!   `ClassInstance(k)` can only be dispatched after at least `k` class
//!   names have been seen — the dispatch guards in `decode_location` and
//!   `top_next_model` reject any other index;
//! - recursive runs preserve wire order: a decoded run is its first child
//!   followed by the run decoded after it;
//! - an empty stream yields an empty top-level sequence, and a zero count
//!   yields an empty run without touching the stream.

use crate::deser::{top_next_model, TopRes};
use crate::schema::{
    decode_attachment, decode_build_log, decode_command_invocation_section, decode_location,
    decode_message, decode_section, decode_section_rest, decode_section_tail, decode_unit_test_section,
    dv_attachment, dv_location, dv_message, dv_section, dx_attachment, dx_location, dx_message,
    dx_section, DOpt, DRes, SectionHead, SectionMid,
};
use crate::stream::{
    probe_bool, probe_opt_text, probe_opt_u64, rd_bool, rd_count, rd_double, rd_i32, rd_i8,
    rd_instance, rd_opt_text, rd_text, rd_u64,
};
use crate::token::TokenV;
use vstd::prelude::*;

verus! {

/// How many `ClassName` tokens lie in `[lo, hi)`.
pub open spec fn count_class_names(t: Seq<TokenV>, lo: int, hi: int) -> nat
    decreases hi - lo,
{
    if lo >= hi {
        0
    } else {
        count_class_names(t, lo, hi - 1) + (if 0 <= hi - 1 < t.len() && t[hi - 1] is ClassName {
            1nat
        } else {
            0nat
        })
    }
}

/// Counting splits over any midpoint.
pub proof fn lemma_count_split(t: Seq<TokenV>, lo: int, mid: int, hi: int)
    requires
        lo <= mid <= hi,
    ensures
        count_class_names(t, lo, hi) == count_class_names(t, lo, mid) + count_class_names(
            t,
            mid,
            hi,
        ),
    decreases hi - mid,
{
    if mid < hi {
        lemma_count_split(t, lo, mid, hi - 1);
    }
}

proof fn lemma_prefix_refl(a: Seq<Seq<char>>)
    ensures
        a.is_prefix_of(a),
{
    assert(a =~= a.subrange(0, a.len() as int));
}

proof fn lemma_prefix_push(a: Seq<Seq<char>>, x: Seq<char>)
    ensures
        a.is_prefix_of(a.push(x)),
{
    assert(a =~= a.push(x).subrange(0, a.len() as int));
}

proof fn lemma_prefix_trans(a: Seq<Seq<char>>, b: Seq<Seq<char>>, c: Seq<Seq<char>>)
    requires
        a.is_prefix_of(b),
        b.is_prefix_of(c),
    ensures
        a.is_prefix_of(c),
{
    assert forall|i: int| 0 <= i < a.len() implies a[i] == c.subrange(0, a.len() as int)[i] by {
        assert(a[i] == b.subrange(0, b.len() as int)[i]);
    }
    assert(a =~= c.subrange(0, a.len() as int));
}

/// The registry-growth facts of one decode outcome: the position advances
/// within bounds, the old registry is a prefix of the new one, and the new
/// registry has gained at most one entry per consumed `ClassName` token.
pub open spec fn reg_growth(
    t: Seq<TokenV>,
    pos: int,
    reg: Seq<Seq<char>>,
    p: int,
    r: Seq<Seq<char>>,
) -> bool {
    &&& pos <= p <= t.len()
    &&& reg.is_prefix_of(r)
    &&& r.len() <= reg.len() + count_class_names(t, pos, p)
}

/// Registry growth of a document-location decode: it never interns.
pub proof fn lemma_reg_decode_location(t: Seq<TokenV>, pos: int, reg: Seq<Seq<char>>)
    requires
        0 <= pos <= t.len(),
    ensures
        decode_location(t, pos, reg) matches DRes::Decoded { v, pos: p, reg: r } ==> reg_growth(
            t,
            pos,
            reg,
            p,
            r,
        ) && r == reg && pos < p,
{
    if decode_location(t, pos, reg) is Decoded {
        lemma_prefix_refl(reg);
    }
}

/// Registry growth of `deser_exact` for document locations.
pub proof fn lemma_reg_dx_location(t: Seq<TokenV>, pos: int, reg: Seq<Seq<char>>)
    requires
        0 <= pos <= t.len(),
    ensures
        dx_location(t, pos, reg) matches DOpt::Present { v, pos: p, reg: r } ==> reg_growth(
            t,
            pos,
            reg,
            p,
            r,
        ) && pos < p,
        dx_location(t, pos, reg) matches DOpt::Absent { pos: p, reg: r } ==> reg_growth(
            t,
            pos,
            reg,
            p,
            r,
        ) && pos < p,
    decreases t.len() - pos,
{
    if pos < t.len() {
        match t[pos] {
            TokenV::ClassName(name) => {
                lemma_reg_dx_location(t, pos + 1, reg.push(name));
                lemma_prefix_push(reg, name);
                match dx_location(t, pos + 1, reg.push(name)) {
                    DOpt::Present { pos: p, reg: r, .. } => {
                        lemma_prefix_trans(reg, reg.push(name), r);
                        lemma_count_split(t, pos, pos + 1, p);
                    },
                    DOpt::Absent { pos: p, reg: r } => {
                        lemma_prefix_trans(reg, reg.push(name), r);
                        lemma_count_split(t, pos, pos + 1, p);
                    },
                    DOpt::Fail { .. } => {},
                }
            },
            TokenV::ClassInstance(_) => {
                lemma_reg_decode_location(t, pos, reg);
            },
            _ => {
                lemma_prefix_refl(reg);
            },
        }
    }
}

/// Registry growth of `deser_vec` for document locations.
pub proof fn lemma_reg_dv_location(t: Seq<TokenV>, pos: int, reg: Seq<Seq<char>>, n: nat)
    requires
        0 <= pos <= t.len(),
    ensures
        dv_location(t, pos, reg, n) matches DRes::Decoded { v, pos: p, reg: r } ==> reg_growth(
            t,
            pos,
            reg,
            p,
            r,
        ),
    decreases t.len() - pos, 1int, n,
{
    if n == 0 {
        lemma_prefix_refl(reg);
    } else {
        lemma_reg_dx_location(t, pos, reg);
        match dx_location(t, pos, reg) {
            DOpt::Fail { .. } => {},
            DOpt::Absent { .. } => {},
            DOpt::Present { v, pos: p1, reg: r1 } => {
                if pos < p1 <= t.len() {
                    lemma_reg_dv_location(t, p1, r1, (n - 1) as nat);
                    match dv_location(t, p1, r1, (n - 1) as nat) {
                        DRes::Decoded { pos: p2, reg: r2, .. } => {
                            lemma_prefix_trans(reg, r1, r2);
                            lemma_count_split(t, pos, p1, p2);
                        },
                        DRes::Fail { .. } => {},
                    }
                }
            },
        }
    }
}

/// Registry growth of an attachment decode: it never interns.
pub proof fn lemma_reg_decode_attachment(t: Seq<TokenV>, pos: int, reg: Seq<Seq<char>>)
    requires
        0 <= pos <= t.len(),
    ensures
        decode_attachment(t, pos, reg) matches DRes::Decoded { v, pos: p, reg: r } ==> reg_growth(
            t,
            pos,
            reg,
            p,
            r,
        ) && r == reg && pos < p,
{
    if decode_attachment(t, pos, reg) is Decoded {
        lemma_prefix_refl(reg);
    }
}

/// Registry growth of `deser_exact` for attachments.
pub proof fn lemma_reg_dx_attachment(t: Seq<TokenV>, pos: int, reg: Seq<Seq<char>>)
    requires
        0 <= pos <= t.len(),
    ensures
        dx_attachment(t, pos, reg) matches DOpt::Present { v, pos: p, reg: r } ==> reg_growth(
            t,
            pos,
            reg,
            p,
            r,
        ) && pos < p,
        dx_attachment(t, pos, reg) matches DOpt::Absent { pos: p, reg: r } ==> reg_growth(
            t,
            pos,
            reg,
            p,
            r,
        ) && pos < p,
    decreases t.len() - pos,
{
    if pos < t.len() {
        match t[pos] {
            TokenV::ClassName(name) => {
                lemma_reg_dx_attachment(t, pos + 1, reg.push(name));
                lemma_prefix_push(reg, name);
                match dx_attachment(t, pos + 1, reg.push(name)) {
                    DOpt::Present { pos: p, reg: r, .. } => {
                        lemma_prefix_trans(reg, reg.push(name), r);
                        lemma_count_split(t, pos, pos + 1, p);
                    },
                    DOpt::Absent { pos: p, reg: r } => {
                        lemma_prefix_trans(reg, reg.push(name), r);
                        lemma_count_split(t, pos, pos + 1, p);
                    },
                    DOpt::Fail { .. } => {},
                }
            },
            TokenV::ClassInstance(_) => {
                lemma_reg_decode_attachment(t, pos, reg);
            },
            _ => {
                lemma_prefix_refl(reg);
            },
        }
    }
}

/// Registry growth of `deser_vec` for attachments.
pub proof fn lemma_reg_dv_attachment(t: Seq<TokenV>, pos: int, reg: Seq<Seq<char>>, n: nat)
    requires
        0 <= pos <= t.len(),
    ensures
        dv_attachment(t, pos, reg, n) matches DRes::Decoded { v, pos: p, reg: r } ==> reg_growth(
            t,
            pos,
            reg,
            p,
            r,
        ),
    decreases t.len() - pos, 1int, n,
{
    if n == 0 {
        lemma_prefix_refl(reg);
    } else {
        lemma_reg_dx_attachment(t, pos, reg);
        match dx_attachment(t, pos, reg) {
            DOpt::Fail { .. } => {},
            DOpt::Absent { .. } => {},
            DOpt::Present { v, pos: p1, reg: r1 } => {
                if pos < p1 <= t.len() {
                    lemma_reg_dv_attachment(t, p1, r1, (n - 1) as nat);
                    match dv_attachment(t, p1, r1, (n - 1) as nat) {
                        DRes::Decoded { pos: p2, reg: r2, .. } => {
                            lemma_prefix_trans(reg, r1, r2);
                            lemma_count_split(t, pos, p1, p2);
                        },
                        DRes::Fail { .. } => {},
                    }
                }
            },
        }
    }
}

/// Registry growth of a message decode.
pub proof fn lemma_reg_decode_message(t: Seq<TokenV>, pos: int, reg: Seq<Seq<char>>, d: nat)
    requires
        0 <= pos <= t.len(),
    ensures
        decode_message(t, pos, reg, d) matches DRes::Decoded { v, pos: p, reg: r } ==> reg_growth(
            t,
            pos,
            reg,
            p,
            r,
        ) && pos < p,
    decreases d, t.len() - pos, 0int, 0int,
{
    if d > 0 {
        if let Ok((_, p1)) = rd_instance(t, pos) {
            if let Ok((_, p2)) = rd_text(t, p1) {
                if let Ok((_, p3)) = rd_opt_text(t, p2) {
                    if let Ok((_, p4)) = rd_u64(t, p3) {
                        if let Ok((_, p5)) = rd_u64(t, p4) {
                            if let Ok((_, p6)) = rd_u64(t, p5) {
                                if let Ok((n_subs, p7)) = rd_count(t, p6) {
                                    lemma_reg_dv_message(t, p7, reg, n_subs as nat, (d - 1) as nat);
                                    if let DRes::Decoded { pos: p8, reg: r8, .. } = dv_message(
                                        t,
                                        p7,
                                        reg,
                                        n_subs as nat,
                                        (d - 1) as nat,
                                    ) {
                                        if let Ok((_, p9)) = rd_i32(t, p8) {
                                            if let Ok((_, p10)) = rd_opt_text(t, p9) {
                                                lemma_reg_dx_location(t, p10, r8);
                                                match dx_location(t, p10, r8) {
                                                    DOpt::Present { pos: p11, reg: r11, .. }
                                                    | DOpt::Absent { pos: p11, reg: r11 } => {
                                                        if let Ok((_, p12)) = rd_opt_text(t, p11) {
                                                            if let Ok((n_locs, p13)) = rd_count(
                                                                t,
                                                                p12,
                                                            ) {
                                                                lemma_reg_dv_location(
                                                                    t,
                                                                    p13,
                                                                    r11,
                                                                    n_locs as nat,
                                                                );
                                                                if let DRes::Decoded {
                                                                    pos: p14,
                                                                    reg: r14,
                                                                    ..
                                                                } = dv_location(
                                                                    t,
                                                                    p13,
                                                                    r11,
                                                                    n_locs as nat,
                                                                ) {
                                                                    lemma_prefix_trans(
                                                                        reg,
                                                                        r8,
                                                                        r11,
                                                                    );
                                                                    lemma_prefix_trans(
                                                                        reg,
                                                                        r11,
                                                                        r14,
                                                                    );
                                                                    lemma_count_split(
                                                                        t, pos, p7, p14);
                                                                    lemma_count_split(
                                                                        t, p7, p8, p14);
                                                                    lemma_count_split(
                                                                        t, p8, p10, p14);
                                                                    lemma_count_split(
                                                                        t, p10, p11, p14);
                                                                    lemma_count_split(
                                                                        t, p11, p13, p14);
                                                                }
                                                            }
                                                        }
                                                    },
                                                    DOpt::Fail { .. } => {},
                                                }
                                            }
                                        }
                                    }
                                }
                            }
                        }
                    }
                }
            }
        }
    }
}

/// Registry growth of `deser_exact` for messages.
pub proof fn lemma_reg_dx_message(t: Seq<TokenV>, pos: int, reg: Seq<Seq<char>>, d: nat)
    requires
        0 <= pos <= t.len(),
    ensures
        dx_message(t, pos, reg, d) matches DOpt::Present { v, pos: p, reg: r } ==> reg_growth(
            t,
            pos,
            reg,
            p,
            r,
        ) && pos < p,
        dx_message(t, pos, reg, d) matches DOpt::Absent { pos: p, reg: r } ==> reg_growth(
            t,
            pos,
            reg,
            p,
            r,
        ) && pos < p,
    decreases d, t.len() - pos, 2int, 0int,
{
    if pos < t.len() {
        match t[pos] {
            TokenV::ClassName(name) => {
                lemma_reg_dx_message(t, pos + 1, reg.push(name), d);
                lemma_prefix_push(reg, name);
                match dx_message(t, pos + 1, reg.push(name), d) {
                    DOpt::Present { pos: p, reg: r, .. } => {
                        lemma_prefix_trans(reg, reg.push(name), r);
                        lemma_count_split(t, pos, pos + 1, p);
                    },
                    DOpt::Absent { pos: p, reg: r } => {
                        lemma_prefix_trans(reg, reg.push(name), r);
                        lemma_count_split(t, pos, pos + 1, p);
                    },
                    DOpt::Fail { .. } => {},
                }
            },
            TokenV::ClassInstance(_) => {
                lemma_reg_decode_message(t, pos, reg, d);
            },
            _ => {
                lemma_prefix_refl(reg);
            },
        }
    }
}

/// Registry growth of `deser_vec` for messages.
pub proof fn lemma_reg_dv_message(t: Seq<TokenV>, pos: int, reg: Seq<Seq<char>>, n: nat, d: nat)
    requires
        0 <= pos <= t.len(),
    ensures
        dv_message(t, pos, reg, n, d) matches DRes::Decoded { v, pos: p, reg: r } ==> reg_growth(
            t,
            pos,
            reg,
            p,
            r,
        ),
    decreases d, t.len() - pos, 3int, n,
{
    if n == 0 {
        lemma_prefix_refl(reg);
    } else {
        lemma_reg_dx_message(t, pos, reg, d);
        match dx_message(t, pos, reg, d) {
            DOpt::Fail { .. } => {},
            DOpt::Absent { .. } => {},
            DOpt::Present { v, pos: p1, reg: r1 } => {
                if pos < p1 <= t.len() {
                    lemma_reg_dv_message(t, p1, r1, (n - 1) as nat, d);
                    match dv_message(t, p1, r1, (n - 1) as nat, d) {
                        DRes::Decoded { pos: p2, reg: r2, .. } => {
                            lemma_prefix_trans(reg, r1, r2);
                            lemma_count_split(t, pos, p1, p2);
                        },
                        DRes::Fail { .. } => {},
                    }
                }
            },
        }
    }
}

/// Registry growth of a section's optional tail.
proof fn lemma_reg_section_tail(
    t: Seq<TokenV>,
    pos: int,
    reg: Seq<Seq<char>>,
    d: nat,
    mid: SectionMid,
)
    requires
        0 <= pos <= t.len(),
        d > 0,
    ensures
        decode_section_tail(t, pos, reg, d, mid) matches DRes::Decoded { v, pos: p, reg: r }
            ==> reg_growth(t, pos, reg, p, r),
{
    let attachments_found = pos < t.len() && t[pos] is Array;
    if !attachments_found {
        lemma_prefix_refl(reg);
    } else {
        if let Ok((n_att, p22)) = rd_count(t, pos) {
            lemma_reg_dv_attachment(t, p22, reg, n_att as nat);
            if let DRes::Decoded { pos: p23, reg: r23, .. } = dv_attachment(
                t,
                p22,
                reg,
                n_att as nat,
            ) {
                lemma_count_split(t, pos, p22, p23);
                let (f0, _, q0) = probe_opt_u64(t, p23, true);
                let (f1, _, q1) = probe_bool(t, q0, f0);
                let (f2, _, q2) = probe_bool(t, q1, f1);
                let (f3, _, q3) = probe_bool(t, q2, f2);
                let (f4, _, q4) = probe_opt_text(t, q3, f3);
                let (f5, _, q5) = probe_opt_u64(t, q4, f4);
                let (f6, _, q6) = probe_opt_u64(t, q5, f5);
                let (f7, _, q7) = probe_opt_text(t, q6, f6);
                let (f8, _, q8) = probe_opt_u64(t, q7, f7);
                let (_f9, _, q9) = probe_opt_u64(t, q8, f8);
                lemma_count_split(t, pos, p23, q9);
            }
        }
    }
}

/// Registry growth of a section's remainder after its sub-sections.
proof fn lemma_reg_section_rest(
    t: Seq<TokenV>,
    pos: int,
    reg: Seq<Seq<char>>,
    d: nat,
    head: SectionHead,
)
    requires
        0 <= pos <= t.len(),
        d > 0,
    ensures
        decode_section_rest(t, pos, reg, d, head) matches DRes::Decoded { v, pos: p, reg: r }
            ==> reg_growth(t, pos, reg, p, r),
{
    if let Ok((_, p10)) = rd_opt_text(t, pos) {
        if let Ok((n_msgs, p11)) = rd_count(t, p10) {
            lemma_reg_dv_message(t, p11, reg, n_msgs as nat, (d - 1) as nat);
            if let DRes::Decoded { pos: p12, reg: r12, .. } = dv_message(
                t,
                p11,
                reg,
                n_msgs as nat,
                (d - 1) as nat,
            ) {
                if let Ok((_, p13)) = rd_bool(t, p12) {
                    if let Ok((_, p14)) = rd_bool(t, p13) {
                        if let Ok((_, p15)) = rd_bool(t, p14) {
                            if let Ok((_, p16)) = rd_opt_text(t, p15) {
                                lemma_reg_dx_location(t, p16, r12);
                                match dx_location(t, p16, r12) {
                                    DOpt::Present { pos: p17, reg: r17, .. }
                                    | DOpt::Absent { pos: p17, reg: r17 } => {
                                        if let Ok((_, p18)) = rd_opt_text(t, p17) {
                                            if let Ok((_, p19)) = rd_opt_text(t, p18) {
                                                if let Ok((_, p20)) = rd_opt_text(t, p19) {
                                                    if let Ok((_, p21)) = rd_opt_text(t, p20) {
                                                        lemma_reg_section_tail_any(t, p21, r17, d);
                                                        match decode_section_rest(
                                                            t,
                                                            pos,
                                                            reg,
                                                            d,
                                                            head,
                                                        ) {
                                                            DRes::Decoded {
                                                                pos: p,
                                                                reg: r,
                                                                ..
                                                            } => {
                                                                lemma_prefix_trans(reg, r12, r17);
                                                                lemma_prefix_trans(reg, r17, r);
                                                                lemma_count_split(t, pos, p11, p);
                                                                lemma_count_split(t, p11, p12, p);
                                                                lemma_count_split(t, p12, p16, p);
                                                                lemma_count_split(t, p16, p17, p);
                                                                lemma_count_split(t, p17, p21, p);
                                                            },
                                                            DRes::Fail { .. } => {},
                                                        }
                                                    }
                                                }
                                            }
                                        }
                                    },
                                    DOpt::Fail { .. } => {},
                                }
                            }
                        }
                    }
                }
            }
        }
    }
}

/// Registry growth of the tail for any mid value.
proof fn lemma_reg_section_tail_any(t: Seq<TokenV>, pos: int, reg: Seq<Seq<char>>, d: nat)
    requires
        0 <= pos <= t.len(),
        d > 0,
    ensures
        forall|mid: SectionMid|
            #![trigger decode_section_tail(t, pos, reg, d, mid)]
            (decode_section_tail(t, pos, reg, d, mid) matches DRes::Decoded { v, pos: p, reg: r }
                ==> reg_growth(t, pos, reg, p, r)),
{
    assert forall|mid: SectionMid|
        #![trigger decode_section_tail(t, pos, reg, d, mid)]
        (decode_section_tail(t, pos, reg, d, mid) matches DRes::Decoded { v, pos: p, reg: r }
            ==> reg_growth(t, pos, reg, p, r)) by {
        lemma_reg_section_tail(t, pos, reg, d, mid);
    }
}

/// Registry growth of a section decode.
pub proof fn lemma_reg_decode_section(t: Seq<TokenV>, pos: int, reg: Seq<Seq<char>>, d: nat)
    requires
        0 <= pos <= t.len(),
    ensures
        decode_section(t, pos, reg, d) matches DRes::Decoded { v, pos: p, reg: r } ==> reg_growth(
            t,
            pos,
            reg,
            p,
            r,
        ) && pos < p,
    decreases d, t.len() - pos, 0int, 0int,
{
    if d > 0 {
        if let Ok((_, p1)) = rd_instance(t, pos) {
            if let Ok((_, p2)) = rd_i8(t, p1) {
                if let Ok((_, p3)) = rd_text(t, p2) {
                    if let Ok((_, p4)) = rd_text(t, p3) {
                        if let Ok((_, p5)) = rd_text(t, p4) {
                            if let Ok((_, p6)) = rd_double(t, p5) {
                                if let Ok((_, p7)) = rd_double(t, p6) {
                                    if let Ok((n_subs, p8)) = rd_count(t, p7) {
                                        lemma_reg_dv_section(
                                            t,
                                            p8,
                                            reg,
                                            n_subs as nat,
                                            (d - 1) as nat,
                                        );
                                        if let DRes::Decoded { pos: p9, reg: r9, .. } = dv_section(
                                            t,
                                            p8,
                                            reg,
                                            n_subs as nat,
                                            (d - 1) as nat,
                                        ) {
                                            lemma_reg_section_rest_any(t, p9, r9, d);
                                            match decode_section(t, pos, reg, d) {
                                                DRes::Decoded { pos: p, reg: r, .. } => {
                                                    lemma_prefix_trans(reg, r9, r);
                                                    lemma_count_split(t, pos, p8, p);
                                                    lemma_count_split(t, p8, p9, p);
                                                },
                                                DRes::Fail { .. } => {},
                                            }
                                        }
                                    }
                                }
                            }
                        }
                    }
                }
            }
        }
    }
}

/// Registry growth of the rest for any head value.
proof fn lemma_reg_section_rest_any(t: Seq<TokenV>, pos: int, reg: Seq<Seq<char>>, d: nat)
    requires
        0 <= pos <= t.len(),
        d > 0,
    ensures
        forall|head: SectionHead|
            #![trigger decode_section_rest(t, pos, reg, d, head)]
            (decode_section_rest(t, pos, reg, d, head) matches DRes::Decoded { v, pos: p, reg: r }
                ==> reg_growth(t, pos, reg, p, r)),
{
    assert forall|head: SectionHead|
        #![trigger decode_section_rest(t, pos, reg, d, head)]
        (decode_section_rest(t, pos, reg, d, head) matches DRes::Decoded { v, pos: p, reg: r }
            ==> reg_growth(t, pos, reg, p, r)) by {
        lemma_reg_section_rest(t, pos, reg, d, head);
    }
}

/// Registry growth of `deser_exact` for sections.
pub proof fn lemma_reg_dx_section(t: Seq<TokenV>, pos: int, reg: Seq<Seq<char>>, d: nat)
    requires
        0 <= pos <= t.len(),
    ensures
        dx_section(t, pos, reg, d) matches DOpt::Present { v, pos: p, reg: r } ==> reg_growth(
            t,
            pos,
            reg,
            p,
            r,
        ) && pos < p,
        dx_section(t, pos, reg, d) matches DOpt::Absent { pos: p, reg: r } ==> reg_growth(
            t,
            pos,
            reg,
            p,
            r,
        ) && pos < p,
    decreases d, t.len() - pos, 2int, 0int,
{
    if pos < t.len() {
        match t[pos] {
            TokenV::ClassName(name) => {
                lemma_reg_dx_section(t, pos + 1, reg.push(name), d);
                lemma_prefix_push(reg, name);
                match dx_section(t, pos + 1, reg.push(name), d) {
                    DOpt::Present { pos: p, reg: r, .. } => {
                        lemma_prefix_trans(reg, reg.push(name), r);
                        lemma_count_split(t, pos, pos + 1, p);
                    },
                    DOpt::Absent { pos: p, reg: r } => {
                        lemma_prefix_trans(reg, reg.push(name), r);
                        lemma_count_split(t, pos, pos + 1, p);
                    },
                    DOpt::Fail { .. } => {},
                }
            },
            TokenV::ClassInstance(_) => {
                lemma_reg_decode_section(t, pos, reg, d);
            },
            _ => {
                lemma_prefix_refl(reg);
            },
        }
    }
}

/// Registry growth of `deser_vec` for sections.
pub proof fn lemma_reg_dv_section(t: Seq<TokenV>, pos: int, reg: Seq<Seq<char>>, n: nat, d: nat)
    requires
        0 <= pos <= t.len(),
    ensures
        dv_section(t, pos, reg, n, d) matches DRes::Decoded { v, pos: p, reg: r } ==> reg_growth(
            t,
            pos,
            reg,
            p,
            r,
        ),
    decreases d, t.len() - pos, 3int, n,
{
    if n == 0 {
        lemma_prefix_refl(reg);
    } else {
        lemma_reg_dx_section(t, pos, reg, d);
        match dx_section(t, pos, reg, d) {
            DOpt::Fail { .. } => {},
            DOpt::Absent { .. } => {},
            DOpt::Present { v, pos: p1, reg: r1 } => {
                if pos < p1 <= t.len() {
                    lemma_reg_dv_section(t, p1, r1, (n - 1) as nat, d);
                    match dv_section(t, p1, r1, (n - 1) as nat, d) {
                        DRes::Decoded { pos: p2, reg: r2, .. } => {
                            lemma_prefix_trans(reg, r1, r2);
                            lemma_count_split(t, pos, p1, p2);
                        },
                        DRes::Fail { .. } => {},
                    }
                }
            },
        }
    }
}

/// Registry growth of the root build-log decode.
pub proof fn lemma_reg_decode_build_log(t: Seq<TokenV>, pos: int, reg: Seq<Seq<char>>, d: nat)
    requires
        0 <= pos <= t.len(),
    ensures
        decode_build_log(t, pos, reg, d) matches DRes::Decoded { v, pos: p, reg: r }
            ==> reg_growth(t, pos, reg, p, r) && pos < p,
{
    if d > 0 {
        if let Ok((_, p1)) = rd_instance(t, pos) {
            if let Ok((_, p2)) = rd_i8(t, p1) {
                if let Ok((_, p3)) = rd_text(t, p2) {
                    if let Ok((_, p4)) = rd_text(t, p3) {
                        if let Ok((_, p5)) = rd_text(t, p4) {
                            if let Ok((_, p6)) = rd_double(t, p5) {
                                if let Ok((_, p7)) = rd_double(t, p6) {
                                    if let Ok((n_subs, p8)) = rd_count(t, p7) {
                                        lemma_reg_dv_section(
                                            t,
                                            p8,
                                            reg,
                                            n_subs as nat,
                                            (d - 1) as nat,
                                        );
                                        if let DRes::Decoded { pos: p9, reg: r9, .. } = dv_section(
                                            t,
                                            p8,
                                            reg,
                                            n_subs as nat,
                                            (d - 1) as nat,
                                        ) {
                                            lemma_count_split(t, pos, p8, p9);
                                        }
                                    }
                                }
                            }
                        }
                    }
                }
            }
        }
    }
}

/// Registry growth of a command-invocation section decode.
pub proof fn lemma_reg_decode_command_invocation(
    t: Seq<TokenV>,
    pos: int,
    reg: Seq<Seq<char>>,
    d: nat,
)
    requires
        0 <= pos <= t.len(),
    ensures
        decode_command_invocation_section(t, pos, reg, d) matches DRes::Decoded {
            v,
            pos: p,
            reg: r,
        } ==> reg_growth(t, pos, reg, p, r) && pos < p,
{
    if d > 0 {
        if let Ok((_, p1)) = rd_instance(t, pos) {
            if let Ok((_, p2)) = rd_i8(t, p1) {
                if let Ok((_, p3)) = rd_text(t, p2) {
                    if let Ok((_, p4)) = rd_text(t, p3) {
                        if let Ok((_, p5)) = rd_text(t, p4) {
                            if let Ok((_, p6)) = rd_double(t, p5) {
                                if let Ok((_, p7)) = rd_double(t, p6) {
                                    if let Ok((n_subs, p8)) = rd_count(t, p7) {
                                        lemma_reg_dv_section(
                                            t,
                                            p8,
                                            reg,
                                            n_subs as nat,
                                            (d - 1) as nat,
                                        );
                                        if let DRes::Decoded { pos: p9, reg: r9, .. } = dv_section(
                                            t,
                                            p8,
                                            reg,
                                            n_subs as nat,
                                            (d - 1) as nat,
                                        ) {
                                            if let Ok((_, p10)) = rd_opt_text(t, p9) {
                                                if let Ok((n_msgs, p11)) = rd_count(t, p10) {
                                                    lemma_reg_dv_message(
                                                        t,
                                                        p11,
                                                        r9,
                                                        n_msgs as nat,
                                                        (d - 1) as nat,
                                                    );
                                                    if let DRes::Decoded {
                                                        pos: p12,
                                                        reg: r12,
                                                        ..
                                                    } = dv_message(
                                                        t,
                                                        p11,
                                                        r9,
                                                        n_msgs as nat,
                                                        (d - 1) as nat,
                                                    ) {
                                                        lemma_prefix_trans(reg, r9, r12);
                                                        lemma_count_split(t, pos, p8, p12);
                                                        lemma_count_split(t, p8, p9, p12);
                                                        lemma_count_split(t, p9, p11, p12);
                                                    }
                                                }
                                            }
                                        }
                                    }
                                }
                            }
                        }
                    }
                }
            }
        }
    }
}

/// The registry laws at the driver.  The registry only grows (the old one
/// is a prefix of the new), and it never outgrows the `ClassName` tokens
/// consumed: one entry per `ClassName` at most.  Together with the
/// dispatch guards — `top_next_model` and `decode_location` reject any
/// `ClassInstance(k)` with `k` outside `1 ..= |registry|` — this is why a
/// class instance can only refer to a class name declared before it.
pub proof fn lemma_top_registry(t: Seq<TokenV>, pos: int, reg: Seq<Seq<char>>, d: nat)
    requires
        0 <= pos <= t.len(),
    ensures
        top_next_model(t, pos, reg, d) matches TopRes::Item { v, pos: p, reg: r } ==> reg_growth(
            t,
            pos,
            reg,
            p,
            r,
        ),
        top_next_model(t, pos, reg, d) matches TopRes::Done { pos: p, reg: r } ==> reg_growth(
            t,
            pos,
            reg,
            p,
            r,
        ),
    decreases t.len() - pos,
{
    if pos >= t.len() {
        lemma_prefix_refl(reg);
    } else {
        match t[pos] {
            TokenV::ClassName(name) => {
                lemma_top_registry(t, pos + 1, reg.push(name), d);
                lemma_prefix_push(reg, name);
                match top_next_model(t, pos + 1, reg.push(name), d) {
                    TopRes::Item { pos: p, reg: r, .. } => {
                        lemma_prefix_trans(reg, reg.push(name), r);
                        lemma_count_split(t, pos, pos + 1, p);
                    },
                    TopRes::Done { pos: p, reg: r } => {
                        lemma_prefix_trans(reg, reg.push(name), r);
                        lemma_count_split(t, pos, pos + 1, p);
                    },
                    TopRes::Fail { .. } => {},
                }
            },
            TokenV::ClassInstance(i) => {
                if 1 <= i <= reg.len() {
                    lemma_reg_decode_build_log(t, pos, reg, d);
                    lemma_reg_decode_section(t, pos, reg, d);
                    lemma_reg_decode_command_invocation(t, pos, reg, d);
                    lemma_reg_decode_message(t, pos, reg, d);
                    lemma_reg_decode_attachment(t, pos, reg);
                    lemma_reg_decode_location(t, pos, reg);
                    if decode_unit_test_section(t, pos, reg) is Decoded {
                        lemma_prefix_refl(reg);
                    }
                }
            },
            _ => {
                lemma_top_registry(t, pos + 1, reg, d);
                match top_next_model(t, pos + 1, reg, d) {
                    TopRes::Item { pos: p, reg: r, .. } => {
                        lemma_count_split(t, pos, pos + 1, p);
                    },
                    TopRes::Done { pos: p, reg: r } => {
                        lemma_count_split(t, pos, pos + 1, p);
                    },
                    TopRes::Fail { .. } => {},
                }
            },
        }
    }
}

/// Wire order of recursive runs: a non-empty decoded run of sections is
/// its first child followed exactly by the run decoded after that child.
/// Applied inductively, the i-th element of a decoded `sub_sections` run
/// is the i-th child instance on the wire.
pub proof fn lemma_dv_section_wire_order(
    t: Seq<TokenV>,
    pos: int,
    reg: Seq<Seq<char>>,
    n: nat,
    d: nat,
)
    requires
        n > 0,
        dx_section(t, pos, reg, d) is Present,
        pos < dx_section(t, pos, reg, d)->Present_pos <= t.len(),
    ensures
        ({
            let first = dx_section(t, pos, reg, d)->Present_v;
            let p1 = dx_section(t, pos, reg, d)->Present_pos;
            let r1 = dx_section(t, pos, reg, d)->Present_reg;
            dv_section(t, pos, reg, n, d) matches DRes::Decoded { v, pos: p, reg: r } ==> v.len()
                >= 1 && v[0] == first && (dv_section(t, p1, r1, (n - 1) as nat, d)
                matches DRes::Decoded { v: rest, .. } && v =~= seq![first] + rest)
        }),
{
}

/// Wire order of recursive runs of messages, as for sections.
pub proof fn lemma_dv_message_wire_order(
    t: Seq<TokenV>,
    pos: int,
    reg: Seq<Seq<char>>,
    n: nat,
    d: nat,
)
    requires
        n > 0,
        dx_message(t, pos, reg, d) is Present,
        pos < dx_message(t, pos, reg, d)->Present_pos <= t.len(),
    ensures
        ({
            let first = dx_message(t, pos, reg, d)->Present_v;
            let p1 = dx_message(t, pos, reg, d)->Present_pos;
            let r1 = dx_message(t, pos, reg, d)->Present_reg;
            dv_message(t, pos, reg, n, d) matches DRes::Decoded { v, pos: p, reg: r } ==> v.len()
                >= 1 && v[0] == first && (dv_message(t, p1, r1, (n - 1) as nat, d)
                matches DRes::Decoded { v: rest, .. } && v =~= seq![first] + rest)
        }),
{
}

/// An exhausted stream yields the end of the top-level sequence, with the
/// state untouched.
pub proof fn lemma_empty_stream_done(t: Seq<TokenV>, pos: int, reg: Seq<Seq<char>>, d: nat)
    requires
        pos == t.len(),
    ensures
        top_next_model(t, pos, reg, d) == (TopRes::Done { pos, reg }),
{
}

/// A zero count yields an empty run and consumes nothing: no recursive
/// decode happens.
pub proof fn lemma_dv_zero(t: Seq<TokenV>, pos: int, reg: Seq<Seq<char>>, d: nat)
    ensures
        dv_section(t, pos, reg, 0, d) == (DRes::Decoded {
            v: Seq::<crate::schema::IDEActivityLogSectionV>::empty(),
            pos,
            reg,
        }),
        dv_message(t, pos, reg, 0, d) == (DRes::Decoded {
            v: Seq::<crate::schema::IDEActivityLogMessageV>::empty(),
            pos,
            reg,
        }),
        dv_attachment(t, pos, reg, 0) == (DRes::Decoded {
            v: Seq::<crate::schema::IDEActivityLogSectionAttachmentV>::empty(),
            pos,
            reg,
        }),
        dv_location(t, pos, reg, 0) == (DRes::Decoded {
            v: Seq::<crate::schema::DVTDocumentLocationV>::empty(),
            pos,
            reg,
        }),
{
    assert(seq![] =~= Seq::<crate::schema::IDEActivityLogSectionV>::empty());
    assert(seq![] =~= Seq::<crate::schema::IDEActivityLogMessageV>::empty());
    assert(seq![] =~= Seq::<crate::schema::IDEActivityLogSectionAttachmentV>::empty());
    assert(seq![] =~= Seq::<crate::schema::DVTDocumentLocationV>::empty());
}

} // verus!
