//! The canonical codec.
//!
//! Serializes a proof bundle or a circuit blob into one fixed, versioned
//! binary layout, and decodes it back. Every group element and field element
//! is a fixed-width byte sequence whose width the curve family determines;
//! every variable-length section carries a four-byte little-endian count or
//! length prefix. The layout is deterministic — a function of the envelope's
//! mathematical value alone — and lossless: decoding an encoded envelope
//! recovers it exactly, so re-encoding yields byte-identical output.
//!
//! Layout: `version, shape tag, family tag`, then for a proof bundle
//! `alpha_g1, beta_g2, delta_g2, gamma_g2, gamma_abc_g1 (count-prefixed),
//! proof.a, proof.b, proof.c, public_inputs (count-prefixed)`, and for a
//! circuit blob the two artifacts, each length-prefixed.

use vstd::prelude::*;
use vstd::arithmetic::div_mod::{lemma_fundamental_div_mod, lemma_div_denominator};
use crate::curve::{CurveFamily, g1_width, g2_width, fr_width, family_tag, family_of_tag};
use crate::envelope::{
    ProofBundle, ProofBundleView, CircuitBlob, CircuitBlobView, Envelope, EnvelopeView,
    bundle_wf, blob_wf, envelope_wf, views_of,
};
use crate::error::CircomError;

verus! {

/// The envelope format version this codec writes and reads.
pub const ENVELOPE_VERSION: u8 = 1;

/// The shape tag of a proof bundle.
pub const SHAPE_PROOF_BUNDLE: u8 = 1;

/// The shape tag of a circuit blob.
pub const SHAPE_CIRCUIT_BLOB: u8 = 2;

// ---------------------------------------------------------------------------
// Specification: encoding
// ---------------------------------------------------------------------------

/// Four little-endian bytes of a count or length below 2^32.
pub open spec fn enc_u32(n: nat) -> Seq<u8> {
    seq![
        (n % 256) as u8,
        ((n / 256) % 256) as u8,
        ((n / 65536) % 256) as u8,
        ((n / 16777216) % 256) as u8,
    ]
}

/// The value of four little-endian bytes.
pub open spec fn dec_u32(s: Seq<u8>) -> int {
    s[0] + 256 * s[1] + 65536 * s[2] + 16777216 * s[3]
}

/// All the sequences, concatenated in order.
pub open spec fn cat_all(items: Seq<Seq<u8>>) -> Seq<u8>
    decreases items.len(),
{
    if items.len() == 0 {
        Seq::<u8>::empty()
    } else {
        items.first() + cat_all(items.drop_first())
    }
}

/// A count-prefixed sequence of items.
pub open spec fn enc_list(items: Seq<Seq<u8>>) -> Seq<u8> {
    enc_u32(items.len()) + cat_all(items)
}

/// A length-prefixed byte string.
pub open spec fn enc_prefixed(data: Seq<u8>) -> Seq<u8> {
    enc_u32(data.len()) + data
}

/// The body of a proof bundle: verifying-key fields, proof fields, then the
/// public inputs, in the fixed order the external verifier expects.
pub open spec fn enc_bundle(b: ProofBundleView) -> Seq<u8> {
    b.alpha_g1 + (b.beta_g2 + (b.delta_g2 + (b.gamma_g2 + (enc_list(b.gamma_abc_g1) + (
    b.proof_a + (b.proof_b + (b.proof_c + enc_list(b.public_inputs))))))))
}

/// The body of a circuit blob: both artifacts, each length-prefixed.
pub open spec fn enc_blob(c: CircuitBlobView) -> Seq<u8> {
    enc_prefixed(c.constraint_system) + enc_prefixed(c.witness_module)
}

/// The shape tag byte of an envelope value.
pub open spec fn shape_tag(e: EnvelopeView) -> u8 {
    match e {
        EnvelopeView::ProofBundle(_) => SHAPE_PROOF_BUNDLE,
        EnvelopeView::CircuitBlob(_) => SHAPE_CIRCUIT_BLOB,
    }
}

/// The complete encoded envelope: a three-byte header, then the body.
pub open spec fn enc_envelope(fam: CurveFamily, e: EnvelopeView) -> Seq<u8> {
    seq![ENVELOPE_VERSION, shape_tag(e), family_tag(fam)] + (match e {
        EnvelopeView::ProofBundle(b) => enc_bundle(b),
        EnvelopeView::CircuitBlob(c) => enc_blob(c),
    })
}

// ---------------------------------------------------------------------------
// Specification: decoding
// ---------------------------------------------------------------------------

/// Splits off a fixed-width field, if enough bytes remain.
pub open spec fn dec_fixed(s: Seq<u8>, w: nat) -> Option<(Seq<u8>, Seq<u8>)> {
    if s.len() >= w {
        Some((s.take(w as int), s.skip(w as int)))
    } else {
        None
    }
}

/// Splits off `n` fields of width `w`.
pub open spec fn dec_items(s: Seq<u8>, n: nat, w: nat) -> Option<(Seq<Seq<u8>>, Seq<u8>)>
    decreases n,
{
    if n == 0 {
        Some((Seq::<Seq<u8>>::empty(), s))
    } else {
        match dec_fixed(s, w) {
            Some((item, rest)) => match dec_items(rest, (n - 1) as nat, w) {
                Some((items, rest2)) => Some((seq![item] + items, rest2)),
                None => None,
            },
            None => None,
        }
    }
}

/// Splits off a count-prefixed sequence of fields of width `w`.
pub open spec fn dec_list(s: Seq<u8>, w: nat) -> Option<(Seq<Seq<u8>>, Seq<u8>)> {
    match dec_fixed(s, 4) {
        Some((pre, rest)) => dec_items(rest, dec_u32(pre) as nat, w),
        None => None,
    }
}

/// Splits off a length-prefixed byte string.
pub open spec fn dec_prefixed(s: Seq<u8>) -> Option<(Seq<u8>, Seq<u8>)> {
    match dec_fixed(s, 4) {
        Some((pre, rest)) => dec_fixed(rest, dec_u32(pre) as nat),
        None => None,
    }
}

/// Decodes a proof-bundle body; the body must end exactly after the public
/// inputs.
pub open spec fn dec_bundle(s: Seq<u8>, fam: CurveFamily) -> Option<ProofBundleView> {
    match dec_fixed(s, g1_width(fam)) { None => None, Some((alpha, s1)) =>
    match dec_fixed(s1, g2_width(fam)) { None => None, Some((beta, s2)) =>
    match dec_fixed(s2, g2_width(fam)) { None => None, Some((delta, s3)) =>
    match dec_fixed(s3, g2_width(fam)) { None => None, Some((gamma, s4)) =>
    match dec_list(s4, g1_width(fam)) { None => None, Some((gabc, s5)) =>
    match dec_fixed(s5, g1_width(fam)) { None => None, Some((pa, s6)) =>
    match dec_fixed(s6, g2_width(fam)) { None => None, Some((pb, s7)) =>
    match dec_fixed(s7, g1_width(fam)) { None => None, Some((pc, s8)) =>
    match dec_list(s8, fr_width(fam)) { None => None, Some((pubs, s9)) =>
        if s9.len() == 0 {
            Some(ProofBundleView {
                alpha_g1: alpha,
                beta_g2: beta,
                delta_g2: delta,
                gamma_g2: gamma,
                gamma_abc_g1: gabc,
                proof_a: pa,
                proof_b: pb,
                proof_c: pc,
                public_inputs: pubs,
            })
        } else {
            None
        }
    }}}}}}}}}
}

/// Decodes a circuit-blob body; the body must end exactly after the second
/// artifact.
pub open spec fn dec_blob(s: Seq<u8>) -> Option<CircuitBlobView> {
    match dec_prefixed(s) { None => None, Some((cs, s1)) =>
    match dec_prefixed(s1) { None => None, Some((wm, s2)) =>
        if s2.len() == 0 {
            Some(CircuitBlobView { constraint_system: cs, witness_module: wm })
        } else {
            None
        }
    }}
}

/// Decodes a complete envelope: header checks, then the body of the tagged
/// shape.
pub open spec fn spec_decode(s: Seq<u8>) -> Option<(CurveFamily, EnvelopeView)> {
    if s.len() < 3 {
        None
    } else if s[0] != ENVELOPE_VERSION {
        None
    } else {
        match family_of_tag(s[2]) {
            None => None,
            Some(fam) => if s[1] == SHAPE_PROOF_BUNDLE {
                match dec_bundle(s.skip(3), fam) {
                    Some(b) => Some((fam, EnvelopeView::ProofBundle(b))),
                    None => None,
                }
            } else if s[1] == SHAPE_CIRCUIT_BLOB {
                match dec_blob(s.skip(3)) {
                    Some(c) => Some((fam, EnvelopeView::CircuitBlob(c))),
                    None => None,
                }
            } else {
                None
            },
        }
    }
}

// ---------------------------------------------------------------------------
// Round-trip lemmas
// ---------------------------------------------------------------------------

/// Concatenation splits back at the length of its first part.
pub proof fn lemma_take_skip(a: Seq<u8>, b: Seq<u8>)
    ensures
        (a + b).take(a.len() as int) == a,
        (a + b).skip(a.len() as int) == b,
{
    assert((a + b).take(a.len() as int) =~= a);
    assert((a + b).skip(a.len() as int) =~= b);
}

/// A fixed-width field placed in front of a remainder is split off exactly.
pub proof fn lemma_dec_fixed(a: Seq<u8>, b: Seq<u8>)
    ensures
        dec_fixed(a + b, a.len()) == Some((a, b)),
{
    lemma_take_skip(a, b);
}

/// Little-endian length encoding is lossless below 2^32.
pub proof fn lemma_u32_round_trip(n: nat)
    requires
        n < 0x1_0000_0000,
    ensures
        dec_u32(enc_u32(n)) == n,
{
    let m1 = n / 256;
    let m2 = m1 / 256;
    let m3 = m2 / 256;
    lemma_div_denominator(n as int, 256, 256);
    lemma_div_denominator(n as int, 65536, 256);
    assert(m2 == n / 65536);
    assert(m3 == n / 16777216);
    assert(m3 < 256) by (nonlinear_arith)
        requires m3 == (n as int) / 16777216, n < 0x1_0000_0000;
    lemma_fundamental_div_mod(n as int, 256);
    lemma_fundamental_div_mod(m1 as int, 256);
    lemma_fundamental_div_mod(m2 as int, 256);
}

/// Concatenating one more item extends the concatenation on the right.
pub proof fn lemma_cat_all_snoc(items: Seq<Seq<u8>>, x: Seq<u8>)
    ensures
        cat_all(items.push(x)) == cat_all(items) + x,
    decreases items.len(),
{
    if items.len() == 0 {
        let p = items.push(x);
        assert(p.first() == x);
        assert(p.drop_first() =~= Seq::<Seq<u8>>::empty());
        assert(cat_all(Seq::<Seq<u8>>::empty()) == Seq::<u8>::empty());
        assert(cat_all(p) == x + Seq::<u8>::empty());
        assert(x + Seq::<u8>::empty() =~= cat_all(items) + x);
    } else {
        assert(items.push(x).drop_first() =~= items.drop_first().push(x));
        lemma_cat_all_snoc(items.drop_first(), x);
        assert(items.first() + (cat_all(items.drop_first()) + x) =~= (items.first() + cat_all(
            items.drop_first(),
        )) + x);
    }
}

/// Items of one width concatenated in front of a remainder are split back
/// into exactly those items and that remainder.
pub proof fn lemma_dec_items(items: Seq<Seq<u8>>, rest: Seq<u8>, w: nat)
    requires
        forall|i: int| 0 <= i < items.len() ==> (#[trigger] items[i]).len() == w,
    ensures
        dec_items(cat_all(items) + rest, items.len(), w) == Some((items, rest)),
    decreases items.len(),
{
    if items.len() == 0 {
        assert(cat_all(items) + rest =~= rest);
        assert(Seq::<Seq<u8>>::empty() =~= items);
    } else {
        let first = items.first();
        let tail = items.drop_first();
        assert(items[0].len() == w);
        assert(cat_all(items) + rest =~= first + (cat_all(tail) + rest));
        lemma_dec_fixed(first, cat_all(tail) + rest);
        assert(forall|i: int| 0 <= i < tail.len() ==> (#[trigger] tail[i]).len() == w);
        lemma_dec_items(tail, rest, w);
        assert(seq![first] + tail =~= items);
    }
}

/// A count-prefixed sequence placed in front of a remainder is split off
/// exactly.
pub proof fn lemma_dec_list(items: Seq<Seq<u8>>, rest: Seq<u8>, w: nat)
    requires
        forall|i: int| 0 <= i < items.len() ==> (#[trigger] items[i]).len() == w,
        items.len() <= u32::MAX,
    ensures
        dec_list(enc_list(items) + rest, w) == Some((items, rest)),
{
    let pre = enc_u32(items.len());
    assert(enc_list(items) + rest =~= pre + (cat_all(items) + rest));
    lemma_dec_fixed(pre, cat_all(items) + rest);
    lemma_u32_round_trip(items.len());
    lemma_dec_items(items, rest, w);
}

/// A length-prefixed byte string placed in front of a remainder is split off
/// exactly.
pub proof fn lemma_dec_prefixed(data: Seq<u8>, rest: Seq<u8>)
    requires
        data.len() <= u32::MAX,
    ensures
        dec_prefixed(enc_prefixed(data) + rest) == Some((data, rest)),
{
    let pre = enc_u32(data.len());
    assert(enc_prefixed(data) + rest =~= pre + (data + rest));
    lemma_dec_fixed(pre, data + rest);
    lemma_u32_round_trip(data.len());
    lemma_dec_fixed(data, rest);
}

/// Decoding a well-formed proof-bundle body recovers it exactly.
pub proof fn lemma_dec_bundle(b: ProofBundleView, fam: CurveFamily)
    requires
        bundle_wf(b, fam),
    ensures
        dec_bundle(enc_bundle(b), fam) == Some(b),
{
    let r9 = enc_list(b.public_inputs);
    let r8 = b.proof_c + r9;
    let r7 = b.proof_b + r8;
    let r6 = b.proof_a + r7;
    let r5 = enc_list(b.gamma_abc_g1) + r6;
    let r4 = b.gamma_g2 + r5;
    let r3 = b.delta_g2 + r4;
    let r2 = b.beta_g2 + r3;
    assert(enc_bundle(b) == b.alpha_g1 + r2);
    lemma_dec_fixed(b.alpha_g1, r2);
    lemma_dec_fixed(b.beta_g2, r3);
    lemma_dec_fixed(b.delta_g2, r4);
    lemma_dec_fixed(b.gamma_g2, r5);
    lemma_dec_list(b.gamma_abc_g1, r6, g1_width(fam));
    lemma_dec_fixed(b.proof_a, r7);
    lemma_dec_fixed(b.proof_b, r8);
    lemma_dec_fixed(b.proof_c, r9);
    lemma_dec_list(b.public_inputs, Seq::<u8>::empty(), fr_width(fam));
    assert(enc_list(b.public_inputs) + Seq::<u8>::empty() =~= r9);
}

/// Decoding a well-formed circuit-blob body recovers it exactly.
pub proof fn lemma_dec_blob(c: CircuitBlobView)
    requires
        blob_wf(c),
    ensures
        dec_blob(enc_blob(c)) == Some(c),
{
    let r1 = enc_prefixed(c.witness_module);
    assert(enc_blob(c) == enc_prefixed(c.constraint_system) + r1);
    lemma_dec_prefixed(c.constraint_system, r1);
    lemma_dec_prefixed(c.witness_module, Seq::<u8>::empty());
    assert(enc_prefixed(c.witness_module) + Seq::<u8>::empty() =~= r1);
}

/// Round trip: decoding an envelope the codec produced recovers the curve
/// family and the envelope value exactly, so re-encoding what was decoded
/// yields byte-identical output.
pub proof fn lemma_envelope_round_trip(fam: CurveFamily, e: EnvelopeView)
    requires
        envelope_wf(e, fam),
    ensures
        spec_decode(enc_envelope(fam, e)) == Some((fam, e)),
{
    let hdr = seq![ENVELOPE_VERSION, shape_tag(e), family_tag(fam)];
    match e {
        EnvelopeView::ProofBundle(b) => {
            let s = hdr + enc_bundle(b);
            assert(s[0] == ENVELOPE_VERSION && s[1] == shape_tag(e) && s[2] == family_tag(fam));
            lemma_take_skip(hdr, enc_bundle(b));
            crate::curve::lemma_family_tag_round_trip(fam);
            lemma_dec_bundle(b, fam);
        },
        EnvelopeView::CircuitBlob(c) => {
            let s = hdr + enc_blob(c);
            assert(s[0] == ENVELOPE_VERSION && s[1] == shape_tag(e) && s[2] == family_tag(fam));
            lemma_take_skip(hdr, enc_blob(c));
            crate::curve::lemma_family_tag_round_trip(fam);
            lemma_dec_blob(c);
        },
    }
}

/// Encoding is deterministic: the bytes are a function of the envelope's
/// mathematical value and family alone.
pub proof fn lemma_encode_deterministic(
    fam1: CurveFamily,
    e1: EnvelopeView,
    fam2: CurveFamily,
    e2: EnvelopeView,
)
    requires
        fam1 == fam2,
        e1 == e2,
    ensures
        enc_envelope(fam1, e1) == enc_envelope(fam2, e2),
{
}

/// Shape exclusivity: no byte string is both an encoded proof bundle and an
/// encoded circuit blob — the shape tag already separates them.
pub proof fn lemma_shape_exclusive(
    fam1: CurveFamily,
    fam2: CurveFamily,
    b: ProofBundleView,
    c: CircuitBlobView,
)
    ensures
        enc_envelope(fam1, EnvelopeView::ProofBundle(b)) != enc_envelope(
            fam2,
            EnvelopeView::CircuitBlob(c),
        ),
{
    let s1 = enc_envelope(fam1, EnvelopeView::ProofBundle(b));
    let s2 = enc_envelope(fam2, EnvelopeView::CircuitBlob(c));
    assert(s1[1] == SHAPE_PROOF_BUNDLE);
    assert(s2[1] == SHAPE_CIRCUIT_BLOB);
}

/// Fixed-width items concatenate to a sequence of predictable length.
pub proof fn lemma_cat_all_len(items: Seq<Seq<u8>>, w: nat)
    requires
        forall|i: int| 0 <= i < items.len() ==> (#[trigger] items[i]).len() == w,
    ensures
        cat_all(items).len() == items.len() * w,
    decreases items.len(),
{
    if items.len() == 0 {
    } else {
        let tail = items.drop_first();
        assert(forall|i: int| 0 <= i < tail.len() ==> (#[trigger] tail[i]).len() == w);
        lemma_cat_all_len(tail, w);
        assert(items[0].len() == w);
        assert(w + (items.len() - 1) * w == items.len() * w) by (nonlinear_arith);
    }
}

/// The `i`-th fixed-width item sits at offset `i * w` of the concatenation.
pub proof fn lemma_cat_all_segment(items: Seq<Seq<u8>>, w: nat, i: int)
    requires
        forall|k: int| 0 <= k < items.len() ==> (#[trigger] items[k]).len() == w,
        0 <= i < items.len(),
    ensures
        cat_all(items).subrange(i * w, i * w + w) == items[i],
    decreases i,
{
    lemma_cat_all_len(items, w);
    assert((i + 1) * w == i * w + w) by (nonlinear_arith);
    assert(i * w + w <= items.len() * w) by (nonlinear_arith)
        requires i + 1 <= items.len(), w >= 0;
    let first = items.first();
    let rest = cat_all(items.drop_first());
    assert(items[0].len() == w);
    if i == 0 {
        assert(first == items[0]);
        assert(first.len() == w);
        lemma_take_skip(first, rest);
        assert(cat_all(items) == first + rest);
        assert(cat_all(items).take(w as int) == first);
        assert(cat_all(items).subrange(0, w as int) =~= cat_all(items).take(w as int));
        assert(i * w == 0) by (nonlinear_arith)
            requires i == 0;
    } else {
        let tail = items.drop_first();
        assert(forall|k: int| 0 <= k < tail.len() ==> (#[trigger] tail[k]).len() == w);
        lemma_cat_all_len(tail, w);
        assert((i - 1) * w == i * w - w) by (nonlinear_arith);
        assert(i * w <= tail.len() * w) by (nonlinear_arith)
            requires i <= tail.len(), w >= 0;
        lemma_cat_all_segment(tail, w, i - 1);
        assert(tail[i - 1] == items[i]);
        assert(cat_all(items).subrange(i * w, i * w + w) =~= cat_all(tail).subrange(
            i * w - w,
            i * w,
        ));
        assert(cat_all(tail).subrange(i * w - w, i * w) == cat_all(tail).subrange(
            (i - 1) * w,
            (i - 1) * w + w,
        ));
    }
}

/// Order preservation: the public-input section lists the inputs in exactly
/// the caller's order — the `i`-th fixed-width segment after the count prefix
/// is the `i`-th public input, so permuting the inputs permutes the section
/// identically.
pub proof fn lemma_public_input_order(b: ProofBundleView, fam: CurveFamily, i: int)
    requires
        bundle_wf(b, fam),
        0 <= i < b.public_inputs.len(),
    ensures
        enc_list(b.public_inputs).subrange(
            4 + i * fr_width(fam),
            4 + i * fr_width(fam) + fr_width(fam),
        ) == b.public_inputs[i],
{
    let w = fr_width(fam);
    let section = enc_list(b.public_inputs);
    lemma_cat_all_len(b.public_inputs, w);
    assert(i * w + w <= b.public_inputs.len() * w) by (nonlinear_arith)
        requires i + 1 <= b.public_inputs.len(), w >= 0;
    lemma_cat_all_segment(b.public_inputs, w, i);
    assert(section.subrange(4 + i * w, 4 + i * w + w) =~= cat_all(b.public_inputs).subrange(
        i * w,
        i * w + w,
    ));
}

/// Curve parity: an encoded proof bundle's length is determined by the item
/// counts and the family's three widths alone — the two families produce
/// structurally identical envelopes, differing only in element byte widths.
pub proof fn lemma_curve_parity(fam: CurveFamily, b: ProofBundleView)
    requires
        bundle_wf(b, fam),
    ensures
        enc_envelope(fam, EnvelopeView::ProofBundle(b)).len() == 11 + 3 * g1_width(fam) + 4
            * g2_width(fam) + b.gamma_abc_g1.len() * g1_width(fam) + b.public_inputs.len()
            * fr_width(fam),
{
    lemma_cat_all_len(b.gamma_abc_g1, g1_width(fam));
    lemma_cat_all_len(b.public_inputs, fr_width(fam));
    assert(enc_list(b.gamma_abc_g1).len() == 4 + b.gamma_abc_g1.len() * g1_width(fam));
    assert(enc_list(b.public_inputs).len() == 4 + b.public_inputs.len() * fr_width(fam));
    assert(enc_envelope(fam, EnvelopeView::ProofBundle(b)).len() == 3 + enc_bundle(b).len());
}

// ---------------------------------------------------------------------------
// Executable encoding
// ---------------------------------------------------------------------------

/// Appends a byte string to the output.
fn push_all(out: &mut Vec<u8>, src: &Vec<u8>)
    ensures
        final(out)@ == old(out)@ + src@,
{
    let mut i: usize = 0;
    while i < src.len()
        invariant
            i <= src@.len(),
            out@ == old(out)@ + src@.take(i as int),
        decreases src@.len() - i,
    {
        out.push(src[i]);
        proof {
            assert(src@.take(i as int).push(src@[i as int]) =~= src@.take(i as int + 1));
        }
        i = i + 1;
    }
    proof {
        assert(src@.take(src@.len() as int) =~= src@);
    }
}

/// Appends a count or length as four little-endian bytes.
fn push_u32(out: &mut Vec<u8>, n: u32)
    ensures
        final(out)@ == old(out)@ + enc_u32(n as nat),
{
    out.push((n % 256) as u8);
    out.push(((n / 256) % 256) as u8);
    out.push(((n / 65536) % 256) as u8);
    out.push(((n / 16777216) % 256) as u8);
    proof {
        assert(out@ =~= old(out)@ + enc_u32(n as nat));
    }
}

/// Appends a count-prefixed sequence of byte strings.
fn push_list(out: &mut Vec<u8>, items: &Vec<Vec<u8>>)
    requires
        items@.len() <= u32::MAX,
    ensures
        final(out)@ == old(out)@ + enc_list(views_of(items@)),
{
    push_u32(out, items.len() as u32);
    let ghost pre = out@;
    let mut i: usize = 0;
    while i < items.len()
        invariant
            i <= items@.len(),
            out@ == pre + cat_all(views_of(items@).take(i as int)),
        decreases items@.len() - i,
    {
        proof {
            assert(cat_all(views_of(items@).take(0)) =~= Seq::<u8>::empty());
            assert(views_of(items@).take(i as int).push(items@[i as int]@) =~= views_of(items@)
                .take(i as int + 1));
            lemma_cat_all_snoc(views_of(items@).take(i as int), items@[i as int]@);
        }
        push_all(out, &items[i]);
        i = i + 1;
    }
    proof {
        assert(views_of(items@).take(items@.len() as int) =~= views_of(items@));
        assert(pre + cat_all(views_of(items@)) =~= old(out)@ + enc_list(views_of(items@)));
    }
}

/// Appends a length-prefixed byte string.
fn push_prefixed(out: &mut Vec<u8>, data: &Vec<u8>)
    requires
        data@.len() <= u32::MAX,
    ensures
        final(out)@ == old(out)@ + enc_prefixed(data@),
{
    push_u32(out, data.len() as u32);
    push_all(out, data);
    proof {
        assert(old(out)@ + enc_u32(data@.len()) + data@ =~= old(out)@ + enc_prefixed(data@));
    }
}

/// Whether every byte string in the vector has exactly width `w`.
fn widths_ok(items: &Vec<Vec<u8>>, w: usize) -> (r: bool)
    ensures
        r == (forall|i: int|
            0 <= i < views_of(items@).len() ==> (#[trigger] views_of(items@)[i]).len() == w),
{
    let mut i: usize = 0;
    while i < items.len()
        invariant
            i <= items@.len(),
            forall|k: int| 0 <= k < i ==> (#[trigger] views_of(items@)[k]).len() == w,
        decreases items@.len() - i,
    {
        if items[i].len() != w {
            assert(views_of(items@)[i as int].len() != w);
            return false;
        }
        assert(views_of(items@)[i as int].len() == w);
        i = i + 1;
    }
    true
}

/// Whether a proof bundle is well formed for the family: every element has
/// the family's width and both sequences fit their length prefix.
pub fn bundle_wf_exec(b: &ProofBundle, fam: CurveFamily) -> (r: bool)
    ensures
        r == bundle_wf(b@, fam),
{
    b.alpha_g1.len() == fam.g1_bytes() && b.beta_g2.len() == fam.g2_bytes() && b.delta_g2.len()
        == fam.g2_bytes() && b.gamma_g2.len() == fam.g2_bytes() && widths_ok(
        &b.gamma_abc_g1,
        fam.g1_bytes(),
    ) && b.gamma_abc_g1.len() <= u32::MAX as usize && b.proof_a.len() == fam.g1_bytes()
        && b.proof_b.len() == fam.g2_bytes() && b.proof_c.len() == fam.g1_bytes() && widths_ok(
        &b.public_inputs,
        fam.fr_bytes(),
    ) && b.public_inputs.len() <= u32::MAX as usize
}

/// Encodes an envelope into its canonical bytes.
///
/// Succeeds exactly on well-formed envelopes; a malformed one — an element
/// of the wrong width, or a sequence too long for its count prefix — cannot
/// be represented and is rejected as a serialization failure.
pub fn encode_envelope(fam: CurveFamily, e: &Envelope) -> (r: Result<Vec<u8>, CircomError>)
    ensures
        envelope_wf(e@, fam) ==> (r matches Ok(v) && v@ == enc_envelope(fam, e@)),
        !envelope_wf(e@, fam) ==> r == Err::<Vec<u8>, CircomError>(CircomError::Serialization),
{
    match e {
        Envelope::ProofBundle(b) => {
            if !bundle_wf_exec(b, fam) {
                return Err(CircomError::Serialization);
            }
            let mut out: Vec<u8> = Vec::new();
            out.push(ENVELOPE_VERSION);
            out.push(SHAPE_PROOF_BUNDLE);
            out.push(fam.tag());
            push_all(&mut out, &b.alpha_g1);
            push_all(&mut out, &b.beta_g2);
            push_all(&mut out, &b.delta_g2);
            push_all(&mut out, &b.gamma_g2);
            push_list(&mut out, &b.gamma_abc_g1);
            push_all(&mut out, &b.proof_a);
            push_all(&mut out, &b.proof_b);
            push_all(&mut out, &b.proof_c);
            push_list(&mut out, &b.public_inputs);
            proof {
                assert(out@ =~= enc_envelope(fam, e@));
            }
            Ok(out)
        },
        Envelope::CircuitBlob(c) => {
            if !(c.constraint_system.len() <= u32::MAX as usize && c.witness_module.len()
                <= u32::MAX as usize) {
                return Err(CircomError::Serialization);
            }
            let mut out: Vec<u8> = Vec::new();
            out.push(ENVELOPE_VERSION);
            out.push(SHAPE_CIRCUIT_BLOB);
            out.push(fam.tag());
            push_prefixed(&mut out, &c.constraint_system);
            push_prefixed(&mut out, &c.witness_module);
            proof {
                assert(out@ =~= enc_envelope(fam, e@));
            }
            Ok(out)
        },
    }
}

/// The verifying-key section of a proof bundle: `alpha, beta, delta, gamma`,
/// then the count-prefixed `gamma_abc` elements.
pub open spec fn vk_section(b: ProofBundleView) -> Seq<u8> {
    b.alpha_g1 + (b.beta_g2 + (b.delta_g2 + (b.gamma_g2 + enc_list(b.gamma_abc_g1))))
}

/// The proof section of a proof bundle: `a`, `b`, `c`.
pub open spec fn proof_section(b: ProofBundleView) -> Seq<u8> {
    b.proof_a + (b.proof_b + b.proof_c)
}

/// The public-input section of a proof bundle: the count-prefixed inputs,
/// insertion-ordered.
pub open spec fn inputs_section(b: ProofBundleView) -> Seq<u8> {
    enc_list(b.public_inputs)
}

/// A proof bundle's body is its three sections in order: verifying key,
/// proof, public inputs.
pub proof fn lemma_sections_compose(b: ProofBundleView)
    ensures
        enc_bundle(b) == vk_section(b) + (proof_section(b) + inputs_section(b)),
{
    assert(enc_bundle(b) =~= vk_section(b) + (proof_section(b) + inputs_section(b)));
}

/// Encodes the three sections of a well-formed proof bundle separately:
/// verifying key, proof, and public inputs.
pub fn encode_sections(b: &ProofBundle, fam: CurveFamily) -> (r: Result<
    (Vec<u8>, Vec<u8>, Vec<u8>),
    CircomError,
>)
    ensures
        bundle_wf(b@, fam) ==> (r matches Ok(t) && t.0@ == vk_section(b@) && t.1@
            == proof_section(b@) && t.2@ == inputs_section(b@)),
        !bundle_wf(b@, fam) ==> r == Err::<(Vec<u8>, Vec<u8>, Vec<u8>), CircomError>(
            CircomError::Serialization,
        ),
{
    if !bundle_wf_exec(b, fam) {
        return Err(CircomError::Serialization);
    }
    let mut vk: Vec<u8> = Vec::new();
    push_all(&mut vk, &b.alpha_g1);
    push_all(&mut vk, &b.beta_g2);
    push_all(&mut vk, &b.delta_g2);
    push_all(&mut vk, &b.gamma_g2);
    push_list(&mut vk, &b.gamma_abc_g1);
    let mut pr: Vec<u8> = Vec::new();
    push_all(&mut pr, &b.proof_a);
    push_all(&mut pr, &b.proof_b);
    push_all(&mut pr, &b.proof_c);
    let mut ins: Vec<u8> = Vec::new();
    push_list(&mut ins, &b.public_inputs);
    proof {
        assert(vk@ =~= vk_section(b@));
        assert(pr@ =~= proof_section(b@));
        assert(ins@ =~= inputs_section(b@));
    }
    Ok((vk, pr, ins))
}

/// Encodes the circuit-blob envelope directly from the two artifacts.
pub fn encode_blob_envelope(fam: CurveFamily, constraint_system: &Vec<u8>, witness_module: &Vec<
    u8,
>) -> (r: Result<Vec<u8>, CircomError>)
    ensures
        r matches Ok(v) ==> v@ == enc_envelope(
            fam,
            EnvelopeView::CircuitBlob(
                CircuitBlobView {
                    constraint_system: constraint_system@,
                    witness_module: witness_module@,
                },
            ),
        ),
        r is Err ==> r == Err::<Vec<u8>, CircomError>(CircomError::Serialization)
            && !blob_wf(
            CircuitBlobView {
                constraint_system: constraint_system@,
                witness_module: witness_module@,
            },
        ),
{
    if !(constraint_system.len() <= u32::MAX as usize && witness_module.len() <= u32::MAX
        as usize) {
        return Err(CircomError::Serialization);
    }
    let ghost cv = CircuitBlobView {
        constraint_system: constraint_system@,
        witness_module: witness_module@,
    };
    let mut out: Vec<u8> = Vec::new();
    out.push(ENVELOPE_VERSION);
    out.push(SHAPE_CIRCUIT_BLOB);
    out.push(fam.tag());
    push_prefixed(&mut out, constraint_system);
    push_prefixed(&mut out, witness_module);
    proof {
        assert(out@ =~= enc_envelope(fam, EnvelopeView::CircuitBlob(cv)));
    }
    Ok(out)
}

// ---------------------------------------------------------------------------
// Executable decoding
// ---------------------------------------------------------------------------

/// Copies the first `w` bytes.
fn take_front(v: &Vec<u8>, w: usize) -> (r: Vec<u8>)
    requires
        w <= v@.len(),
    ensures
        r@ == v@.take(w as int),
{
    let mut out: Vec<u8> = Vec::new();
    let mut i: usize = 0;
    while i < w
        invariant
            i <= w,
            w <= v@.len(),
            out@ == v@.take(w as int).take(i as int),
        decreases w - i,
    {
        out.push(v[i]);
        proof {
            assert(v@.take(w as int).take(i as int).push(v@[i as int]) =~= v@.take(w as int).take(
                i as int + 1,
            ));
        }
        i = i + 1;
    }
    proof {
        assert(v@.take(w as int).take(w as int) =~= v@.take(w as int));
    }
    out
}

/// Copies everything after the first `w` bytes.
fn skip_front(v: &Vec<u8>, w: usize) -> (r: Vec<u8>)
    requires
        w <= v@.len(),
    ensures
        r@ == v@.skip(w as int),
{
    let mut out: Vec<u8> = Vec::new();
    let mut i: usize = w;
    while i < v.len()
        invariant
            w <= i <= v@.len(),
            out@ == v@.subrange(w as int, i as int),
        decreases v@.len() - i,
    {
        out.push(v[i]);
        proof {
            assert(v@.subrange(w as int, i as int).push(v@[i as int]) =~= v@.subrange(
                w as int,
                i as int + 1,
            ));
        }
        i = i + 1;
    }
    out
}

/// Splits off a fixed-width field, or fails if too few bytes remain.
fn split_fixed(v: &Vec<u8>, w: usize) -> (r: Result<(Vec<u8>, Vec<u8>), CircomError>)
    ensures
        r matches Ok(p) ==> dec_fixed(v@, w as nat) == Some((p.0@, p.1@)),
        r is Err ==> dec_fixed(v@, w as nat) is None && r == Err::<(Vec<u8>, Vec<u8>),
            CircomError,
        >(CircomError::Serialization),
{
    if v.len() < w {
        return Err(CircomError::Serialization);
    }
    let f = take_front(v, w);
    let rest = skip_front(v, w);
    Ok((f, rest))
}

/// Reads a four-byte little-endian count, splitting it off.
fn parse_u32(v: &Vec<u8>) -> (r: Result<(u32, Vec<u8>), CircomError>)
    ensures
        r matches Ok(p) ==> v@.len() >= 4 && p.0 as int == dec_u32(v@.take(4)) && p.1@ == v@.skip(
            4,
        ),
        r is Err ==> v@.len() < 4 && r == Err::<(u32, Vec<u8>), CircomError>(
            CircomError::Serialization,
        ),
{
    if v.len() < 4 {
        return Err(CircomError::Serialization);
    }
    let b0 = v[0] as u32;
    let b1 = v[1] as u32;
    let b2 = v[2] as u32;
    let b3 = v[3] as u32;
    let n: u32 = b0 + 256 * b1 + 65536 * b2 + 16777216 * b3;
    let rest = skip_front(v, 4);
    assert(n as int == dec_u32(v@.take(4)));
    Ok((n, rest))
}

/// Splits off `n` fields of width `w`, or fails if the bytes run out.
fn parse_items(v: &Vec<u8>, n: usize, w: usize) -> (r: Result<
    (Vec<Vec<u8>>, Vec<u8>),
    CircomError,
>)
    ensures
        r matches Ok(p) ==> dec_items(v@, n as nat, w as nat) == Some((views_of(p.0@), p.1@)),
        r is Err ==> dec_items(v@, n as nat, w as nat) is None && r == Err::<
            (Vec<Vec<u8>>, Vec<u8>),
            CircomError,
        >(CircomError::Serialization),
{
    let mut items: Vec<Vec<u8>> = Vec::new();
    let mut rest: Vec<u8> = take_front(v, v.len());
    proof {
        assert(v@.take(v@.len() as int) =~= v@);
        assert(views_of(items@) =~= Seq::<Seq<u8>>::empty());
    }
    let mut i: usize = 0;
    while i < n
        invariant
            i <= n,
            dec_items(v@, n as nat, w as nat) is Some <==> dec_items(
                rest@,
                (n - i) as nat,
                w as nat,
            ) is Some,
            dec_items(rest@, (n - i) as nat, w as nat) matches Some(p) ==> dec_items(
                v@,
                n as nat,
                w as nat,
            ) == Some((views_of(items@) + p.0, p.1)),
        decreases n - i,
    {
        if rest.len() < w {
            assert(dec_items(rest@, (n - i) as nat, w as nat) is None);
            return Err(CircomError::Serialization);
        }
        let item = take_front(&rest, w);
        let new_rest = skip_front(&rest, w);
        proof {
            assert(dec_fixed(rest@, w as nat) == Some((item@, new_rest@)));
        }
        let ghost old_items = items@;
        let ghost old_rest = rest@;
        items.push(item);
        rest = new_rest;
        i = i + 1;
        proof {
            assert(views_of(items@) =~= views_of(old_items).push(items@.last()@));
            let d = dec_items(rest@, (n - i) as nat, w as nat);
            if d is Some {
                let its = d->Some_0.0;
                let rm = d->Some_0.1;
                assert(dec_items(old_rest, (n - i + 1) as nat, w as nat) == Some((
                    seq![items@.last()@] + its,
                    rm,
                )));
                assert(views_of(old_items) + (seq![items@.last()@] + its) =~= views_of(items@)
                    + its);
            }
        }
    }
    proof {
        assert(dec_items(rest@, 0, w as nat) == Some((Seq::<Seq<u8>>::empty(), rest@)));
        assert(views_of(items@) + Seq::<Seq<u8>>::empty() =~= views_of(items@));
    }
    Ok((items, rest))
}

/// Splits off a count-prefixed sequence of fields of width `w`.
fn parse_list(v: &Vec<u8>, w: usize) -> (r: Result<(Vec<Vec<u8>>, Vec<u8>), CircomError>)
    ensures
        r matches Ok(p) ==> dec_list(v@, w as nat) == Some((views_of(p.0@), p.1@)),
        r is Err ==> dec_list(v@, w as nat) is None && r == Err::<(Vec<Vec<u8>>, Vec<u8>),
            CircomError,
        >(CircomError::Serialization),
{
    let (n, rest) = match parse_u32(v) {
        Ok(p) => p,
        Err(e) => {
            return Err(e);
        },
    };
    proof {
        assert(dec_fixed(v@, 4) == Some((v@.take(4), v@.skip(4))));
    }
    match parse_items(&rest, n as usize, w) {
        Ok(p) => Ok(p),
        Err(e) => Err(e),
    }
}

/// Splits off a length-prefixed byte string.
fn parse_prefixed(v: &Vec<u8>) -> (r: Result<(Vec<u8>, Vec<u8>), CircomError>)
    ensures
        r matches Ok(p) ==> dec_prefixed(v@) == Some((p.0@, p.1@)),
        r is Err ==> dec_prefixed(v@) is None && r == Err::<(Vec<u8>, Vec<u8>), CircomError>(
            CircomError::Serialization,
        ),
{
    let (n, rest) = match parse_u32(v) {
        Ok(p) => p,
        Err(e) => {
            return Err(e);
        },
    };
    proof {
        assert(dec_fixed(v@, 4) == Some((v@.take(4), v@.skip(4))));
    }
    match split_fixed(&rest, n as usize) {
        Ok(p) => Ok(p),
        Err(e) => Err(e),
    }
}

/// Decodes a proof-bundle body.
fn parse_bundle(body: &Vec<u8>, fam: CurveFamily) -> (r: Result<ProofBundle, CircomError>)
    ensures
        r matches Ok(pb) ==> dec_bundle(body@, fam) == Some(pb@),
        r is Err ==> dec_bundle(body@, fam) is None && r == Err::<ProofBundle, CircomError>(
            CircomError::Serialization,
        ),
{
    let (alpha, r1) = match split_fixed(body, fam.g1_bytes()) {
        Ok(p) => p,
        Err(e) => {
            return Err(e);
        },
    };
    let (beta, r2) = match split_fixed(&r1, fam.g2_bytes()) {
        Ok(p) => p,
        Err(e) => {
            return Err(e);
        },
    };
    let (delta, r3) = match split_fixed(&r2, fam.g2_bytes()) {
        Ok(p) => p,
        Err(e) => {
            return Err(e);
        },
    };
    let (gamma, r4) = match split_fixed(&r3, fam.g2_bytes()) {
        Ok(p) => p,
        Err(e) => {
            return Err(e);
        },
    };
    let (gabc, r5) = match parse_list(&r4, fam.g1_bytes()) {
        Ok(p) => p,
        Err(e) => {
            return Err(e);
        },
    };
    let (pa, r6) = match split_fixed(&r5, fam.g1_bytes()) {
        Ok(p) => p,
        Err(e) => {
            return Err(e);
        },
    };
    let (pb, r7) = match split_fixed(&r6, fam.g2_bytes()) {
        Ok(p) => p,
        Err(e) => {
            return Err(e);
        },
    };
    let (pc, r8) = match split_fixed(&r7, fam.g1_bytes()) {
        Ok(p) => p,
        Err(e) => {
            return Err(e);
        },
    };
    let (pubs, r9) = match parse_list(&r8, fam.fr_bytes()) {
        Ok(p) => p,
        Err(e) => {
            return Err(e);
        },
    };
    if r9.len() != 0 {
        return Err(CircomError::Serialization);
    }
    Ok(
        ProofBundle {
            alpha_g1: alpha,
            beta_g2: beta,
            delta_g2: delta,
            gamma_g2: gamma,
            gamma_abc_g1: gabc,
            proof_a: pa,
            proof_b: pb,
            proof_c: pc,
            public_inputs: pubs,
        },
    )
}

/// Decodes a circuit-blob body.
fn parse_blob(body: &Vec<u8>) -> (r: Result<CircuitBlob, CircomError>)
    ensures
        r matches Ok(cb) ==> dec_blob(body@) == Some(cb@),
        r is Err ==> dec_blob(body@) is None && r == Err::<CircuitBlob, CircomError>(
            CircomError::Serialization,
        ),
{
    let (cs, r1) = match parse_prefixed(body) {
        Ok(p) => p,
        Err(e) => {
            return Err(e);
        },
    };
    let (wm, r2) = match parse_prefixed(&r1) {
        Ok(p) => p,
        Err(e) => {
            return Err(e);
        },
    };
    if r2.len() != 0 {
        return Err(CircomError::Serialization);
    }
    Ok(CircuitBlob { constraint_system: cs, witness_module: wm })
}

/// Decodes a canonical envelope: the inverse of `encode_envelope`.
pub fn decode_envelope(bytes: &Vec<u8>) -> (r: Result<(CurveFamily, Envelope), CircomError>)
    ensures
        r matches Ok(p) ==> spec_decode(bytes@) == Some((p.0, p.1@)),
        r is Err ==> spec_decode(bytes@) is None && r == Err::<(CurveFamily, Envelope),
            CircomError,
        >(CircomError::Serialization),
{
    if bytes.len() < 3 {
        return Err(CircomError::Serialization);
    }
    if bytes[0] != ENVELOPE_VERSION {
        return Err(CircomError::Serialization);
    }
    let fam = if bytes[2] == 1 {
        CurveFamily::Bn254
    } else if bytes[2] == 2 {
        CurveFamily::Bls12377
    } else {
        return Err(CircomError::Serialization);
    };
    let shape = bytes[1];
    let body = skip_front(bytes, 3);
    if shape == SHAPE_PROOF_BUNDLE {
        match parse_bundle(&body, fam) {
            Ok(pbundle) => Ok((fam, Envelope::ProofBundle(pbundle))),
            Err(e) => Err(e),
        }
    } else if shape == SHAPE_CIRCUIT_BLOB {
        match parse_blob(&body) {
            Ok(cblob) => Ok((fam, Envelope::CircuitBlob(cblob))),
            Err(e) => Err(e),
        }
    } else {
        Err(CircomError::Serialization)
    }
}

} // verus!
