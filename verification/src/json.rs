//! Verified JSON emission for result payloads.
//!
//! Payloads declared as `Json` must be valid JSON documents, so the bytes
//! are produced here, with the exact byte sequence stated at the spec
//! level.

use vstd::prelude::*;

verus! {

/// The ASCII digit for `d` (which must be below ten).
pub open spec fn spec_digit(d: nat) -> u8 {
    (0x30 + d) as u8
}

/// The shortest decimal rendering of `n`: no leading zeros, and the single
/// digit `0` for zero.
pub open spec fn spec_dec_u64(n: nat) -> Seq<u8>
    decreases n,
{
    if n < 10 {
        seq![spec_digit(n)]
    } else {
        spec_dec_u64(n / 10).push(spec_digit(n % 10))
    }
}

/// Appends the decimal rendering of `n` to `out`.
pub fn push_dec_u64(out: &mut Vec<u8>, n: u64)
    ensures
        final(out)@ == old(out)@ + spec_dec_u64(n as nat),
    decreases n,
{
    if n >= 10 {
        push_dec_u64(out, n / 10);
    }
    out.push(0x30u8 + (n % 10) as u8);
    proof {
        assert(out@ =~= old(out)@ + spec_dec_u64(n as nat));
    }
}

/// Appends all of `s` to `out`.
pub fn push_all(out: &mut Vec<u8>, s: &Vec<u8>)
    ensures
        final(out)@ == old(out)@ + s@,
{
    let mut i: usize = 0;
    while i < s.len()
        invariant
            0 <= i <= s@.len(),
            out@ == old(out)@ + s@.subrange(0, i as int),
        decreases s@.len() - i,
    {
        out.push(s[i]);
        i = i + 1;
        proof {
            assert(out@ =~= old(out)@ + s@.subrange(0, i as int));
        }
    }
    proof {
        assert(out@ =~= old(out)@ + s@);
    }
}

/// The bytes of `{"frame_number":`.
pub open spec fn lit_frame_obj() -> Seq<u8> {
    seq![123u8, 34, 102, 114, 97, 109, 101, 95, 110, 117, 109, 98, 101, 114, 34, 58]
}

/// Appends `lit_frame_obj()` to `out`.
pub fn push_lit_frame_obj(out: &mut Vec<u8>)
    ensures
        final(out)@ == old(out)@ + lit_frame_obj(),
{
    let s: Vec<u8> = vec![123u8, 34, 102, 114, 97, 109, 101, 95, 110, 117, 109, 98, 101, 114, 34, 58];
    proof {
        assert(s@ =~= lit_frame_obj());
    }
    push_all(out, &s);
}

/// The bytes of `,"detections":`.
pub open spec fn lit_detections() -> Seq<u8> {
    seq![44u8, 34, 100, 101, 116, 101, 99, 116, 105, 111, 110, 115, 34, 58]
}

/// Appends `lit_detections()` to `out`.
pub fn push_lit_detections(out: &mut Vec<u8>)
    ensures
        final(out)@ == old(out)@ + lit_detections(),
{
    let s: Vec<u8> = vec![44u8, 34, 100, 101, 116, 101, 99, 116, 105, 111, 110, 115, 34, 58];
    proof {
        assert(s@ =~= lit_detections());
    }
    push_all(out, &s);
}

/// The bytes of `,"processing_ms":`.
pub open spec fn lit_processing() -> Seq<u8> {
    seq![44u8, 34, 112, 114, 111, 99, 101, 115, 115, 105, 110, 103, 95, 109, 115, 34, 58]
}

/// Appends `lit_processing()` to `out`.
pub fn push_lit_processing(out: &mut Vec<u8>)
    ensures
        final(out)@ == old(out)@ + lit_processing(),
{
    let s: Vec<u8> = vec![44u8, 34, 112, 114, 111, 99, 101, 115, 115, 105, 110, 103, 95, 109, 115, 34, 58];
    proof {
        assert(s@ =~= lit_processing());
    }
    push_all(out, &s);
}

/// The bytes of `}`.
pub open spec fn lit_close() -> Seq<u8> {
    seq![125u8]
}

/// Appends `lit_close()` to `out`.
pub fn push_lit_close(out: &mut Vec<u8>)
    ensures
        final(out)@ == old(out)@ + lit_close(),
{
    let s: Vec<u8> = vec![125u8];
    proof {
        assert(s@ =~= lit_close());
    }
    push_all(out, &s);
}

/// The bytes of `{"objects":`.
pub open spec fn lit_objects_obj() -> Seq<u8> {
    seq![123u8, 34, 111, 98, 106, 101, 99, 116, 115, 34, 58]
}

/// Appends `lit_objects_obj()` to `out`.
pub fn push_lit_objects_obj(out: &mut Vec<u8>)
    ensures
        final(out)@ == old(out)@ + lit_objects_obj(),
{
    let s: Vec<u8> = vec![123u8, 34, 111, 98, 106, 101, 99, 116, 115, 34, 58];
    proof {
        assert(s@ =~= lit_objects_obj());
    }
    push_all(out, &s);
}

/// The bytes of `,"dominant_color":`.
pub open spec fn lit_dominant() -> Seq<u8> {
    seq![44u8, 34, 100, 111, 109, 105, 110, 97, 110, 116, 95, 99, 111, 108, 111, 114, 34, 58]
}

/// Appends `lit_dominant()` to `out`.
pub fn push_lit_dominant(out: &mut Vec<u8>)
    ensures
        final(out)@ == old(out)@ + lit_dominant(),
{
    let s: Vec<u8> = vec![44u8, 34, 100, 111, 109, 105, 110, 97, 110, 116, 95, 99, 111, 108, 111, 114, 34, 58];
    proof {
        assert(s@ =~= lit_dominant());
    }
    push_all(out, &s);
}

/// The bytes of `"#808080"`.
pub open spec fn lit_color_gray() -> Seq<u8> {
    seq![34u8, 35, 56, 48, 56, 48, 56, 48, 34]
}

/// Appends `lit_color_gray()` to `out`.
pub fn push_lit_color_gray(out: &mut Vec<u8>)
    ensures
        final(out)@ == old(out)@ + lit_color_gray(),
{
    let s: Vec<u8> = vec![34u8, 35, 56, 48, 56, 48, 56, 48, 34];
    proof {
        assert(s@ =~= lit_color_gray());
    }
    push_all(out, &s);
}

/// The bytes of `null`.
pub open spec fn lit_null() -> Seq<u8> {
    seq![110u8, 117, 108, 108]
}

/// Appends `lit_null()` to `out`.
pub fn push_lit_null(out: &mut Vec<u8>)
    ensures
        final(out)@ == old(out)@ + lit_null(),
{
    let s: Vec<u8> = vec![110u8, 117, 108, 108];
    proof {
        assert(s@ =~= lit_null());
    }
    push_all(out, &s);
}

/// The bytes of `,"estimated_size":"`.
pub open spec fn lit_size_prefix() -> Seq<u8> {
    seq![44u8, 34, 101, 115, 116, 105, 109, 97, 116, 101, 100, 95, 115, 105, 122, 101, 34, 58, 34]
}

/// Appends `lit_size_prefix()` to `out`.
pub fn push_lit_size_prefix(out: &mut Vec<u8>)
    ensures
        final(out)@ == old(out)@ + lit_size_prefix(),
{
    let s: Vec<u8> = vec![44u8, 34, 101, 115, 116, 105, 109, 97, 116, 101, 100, 95, 115, 105, 122, 101, 34, 58, 34];
    proof {
        assert(s@ =~= lit_size_prefix());
    }
    push_all(out, &s);
}

/// The bytes of `small`.
pub open spec fn lit_small() -> Seq<u8> {
    seq![115u8, 109, 97, 108, 108]
}

/// Appends `lit_small()` to `out`.
pub fn push_lit_small(out: &mut Vec<u8>)
    ensures
        final(out)@ == old(out)@ + lit_small(),
{
    let s: Vec<u8> = vec![115u8, 109, 97, 108, 108];
    proof {
        assert(s@ =~= lit_small());
    }
    push_all(out, &s);
}

/// The bytes of `medium`.
pub open spec fn lit_medium() -> Seq<u8> {
    seq![109u8, 101, 100, 105, 117, 109]
}

/// Appends `lit_medium()` to `out`.
pub fn push_lit_medium(out: &mut Vec<u8>)
    ensures
        final(out)@ == old(out)@ + lit_medium(),
{
    let s: Vec<u8> = vec![109u8, 101, 100, 105, 117, 109];
    proof {
        assert(s@ =~= lit_medium());
    }
    push_all(out, &s);
}

/// The bytes of `large`.
pub open spec fn lit_large() -> Seq<u8> {
    seq![108u8, 97, 114, 103, 101]
}

/// Appends `lit_large()` to `out`.
pub fn push_lit_large(out: &mut Vec<u8>)
    ensures
        final(out)@ == old(out)@ + lit_large(),
{
    let s: Vec<u8> = vec![108u8, 97, 114, 103, 101];
    proof {
        assert(s@ =~= lit_large());
    }
    push_all(out, &s);
}

/// The bytes of `very_large`.
pub open spec fn lit_very_large() -> Seq<u8> {
    seq![118u8, 101, 114, 121, 95, 108, 97, 114, 103, 101]
}

/// Appends `lit_very_large()` to `out`.
pub fn push_lit_very_large(out: &mut Vec<u8>)
    ensures
        final(out)@ == old(out)@ + lit_very_large(),
{
    let s: Vec<u8> = vec![118u8, 101, 114, 121, 95, 108, 97, 114, 103, 101];
    proof {
        assert(s@ =~= lit_very_large());
    }
    push_all(out, &s);
}

/// The bytes of `"`.
pub open spec fn lit_quote() -> Seq<u8> {
    seq![34u8]
}

/// Appends `lit_quote()` to `out`.
pub fn push_lit_quote(out: &mut Vec<u8>)
    ensures
        final(out)@ == old(out)@ + lit_quote(),
{
    let s: Vec<u8> = vec![34u8];
    proof {
        assert(s@ =~= lit_quote());
    }
    push_all(out, &s);
}

/// The exact bytes of the stateful engine's per-frame result payload: a
/// JSON object with the frame number, the number of detections kept for
/// the frame, and the processing cost in milliseconds.
pub open spec fn spec_frame_payload(frame: nat, detections: nat, processing: nat) -> Seq<u8> {
    lit_frame_obj() + spec_dec_u64(frame) + lit_detections() + spec_dec_u64(detections)
        + lit_processing() + spec_dec_u64(processing) + lit_close()
}

/// Emits the per-frame result payload.
pub fn frame_payload(frame: u64, detections: u64, processing: u64) -> (r: Vec<u8>)
    ensures
        r@ == spec_frame_payload(frame as nat, detections as nat, processing as nat),
{
    let mut out: Vec<u8> = Vec::new();
    push_lit_frame_obj(&mut out);
    push_dec_u64(&mut out, frame);
    push_lit_detections(&mut out);
    push_dec_u64(&mut out, detections);
    push_lit_processing(&mut out);
    push_dec_u64(&mut out, processing);
    push_lit_close(&mut out);
    proof {
        assert(out@ =~= spec_frame_payload(frame as nat, detections as nat, processing as nat));
    }
    out
}

} // verus!
