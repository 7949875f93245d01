//! Outbound message framing.
//!
//! The loop's samples travel as JSON text frames; this module builds those
//! frames byte for byte. Fixed-point values print with exactly three
//! fractional digits, so the thousandths value `15123` prints as `15.123`
//! and `200` as `0.200`.

use vstd::prelude::*;

use crate::sampler::Sample;

verus! {

/// The decimal digits of `n`, most significant first.
pub open spec fn spec_decimal(n: nat) -> Seq<u8>
    decreases n,
{
    if n < 10 {
        seq![(48 + n) as u8]
    } else {
        spec_decimal(n / 10) + seq![(48 + n % 10) as u8]
    }
}

/// A thousandths value as a decimal number with three fractional digits.
pub open spec fn spec_fixed(v: u64) -> Seq<u8> {
    spec_decimal((v as nat) / 1000) + seq![
        46u8,
        (48 + ((v as nat) % 1000) / 100) as u8,
        (48 + ((v as nat) % 100) / 10) as u8,
        (48 + (v as nat) % 10) as u8,
    ]
}

pub open spec fn seg_head() -> Seq<u8> {
    seq![123u8, 34u8, 116u8, 121u8, 112u8, 101u8, 34u8, 58u8, 34u8, 100u8, 97u8, 116u8, 97u8,
        34u8, 44u8, 34u8, 100u8, 97u8, 116u8, 97u8, 34u8, 58u8, 123u8, 34u8, 112u8, 105u8, 110u8,
        103u8, 34u8, 58u8]
}

pub open spec fn seg_jitter() -> Seq<u8> {
    seq![44u8, 34u8, 106u8, 105u8, 116u8, 116u8, 101u8, 114u8, 34u8, 58u8]
}

pub open spec fn seg_down() -> Seq<u8> {
    seq![44u8, 34u8, 100u8, 111u8, 119u8, 110u8, 34u8, 58u8]
}

pub open spec fn seg_up() -> Seq<u8> {
    seq![44u8, 34u8, 117u8, 112u8, 34u8, 58u8]
}

pub open spec fn seg_loss() -> Seq<u8> {
    seq![44u8, 34u8, 108u8, 111u8, 115u8, 115u8, 34u8, 58u8]
}

pub open spec fn seg_vortex() -> Seq<u8> {
    seq![44u8, 34u8, 118u8, 111u8, 114u8, 116u8, 101u8, 120u8, 34u8, 58u8]
}

pub open spec fn seg_close() -> Seq<u8> {
    seq![125u8, 125u8]
}

/// The full data frame for one sample:
/// `{"type":"data","data":{"ping":…,"jitter":…,"down":…,"up":…,"loss":…,"vortex":…}}`.
pub open spec fn spec_data_message(s: Sample) -> Seq<u8> {
    seg_head() + spec_fixed(s.ping) + seg_jitter() + spec_fixed(s.jitter) + seg_down()
        + spec_fixed(s.down) + seg_up() + spec_fixed(s.up) + seg_loss() + spec_fixed(s.loss)
        + seg_vortex() + spec_fixed(s.vortex) + seg_close()
}

/// The end-of-stream frame: `{"type":"end"}`.
pub open spec fn spec_end_message() -> Seq<u8> {
    seq![123u8, 34u8, 116u8, 121u8, 112u8, 101u8, 34u8, 58u8, 34u8, 101u8, 110u8, 100u8, 34u8,
        125u8]
}

fn push_decimal(out: &mut Vec<u8>, n: u64)
    ensures
        final(out)@ == old(out)@ + spec_decimal(n as nat),
    decreases n,
{
    if n < 10 {
        out.push(48 + n as u8);
        proof {
            assert(final(out)@ =~= old(out)@ + spec_decimal(n as nat));
        }
    } else {
        push_decimal(out, n / 10);
        out.push(48 + (n % 10) as u8);
        proof {
            assert(final(out)@ =~= old(out)@ + spec_decimal(n as nat));
        }
    }
}

fn push_fixed(out: &mut Vec<u8>, v: u64)
    ensures
        final(out)@ == old(out)@ + spec_fixed(v),
{
    push_decimal(out, v / 1000);
    out.push(46);
    out.push(48 + ((v % 1000) / 100) as u8);
    out.push(48 + ((v % 100) / 10) as u8);
    out.push(48 + (v % 10) as u8);
    proof {
        assert(final(out)@ =~= old(out)@ + spec_fixed(v));
    }
}

fn push_seg_head(out: &mut Vec<u8>)
    ensures
        final(out)@ == old(out)@ + seg_head(),
{
    out.push(123); out.push(34); out.push(116); out.push(121); out.push(112); out.push(101);
    out.push(34); out.push(58); out.push(34); out.push(100); out.push(97); out.push(116);
    out.push(97); out.push(34); out.push(44); out.push(34); out.push(100); out.push(97);
    out.push(116); out.push(97); out.push(34); out.push(58); out.push(123); out.push(34);
    out.push(112); out.push(105); out.push(110); out.push(103); out.push(34); out.push(58);
    proof {
        assert(final(out)@ =~= old(out)@ + seg_head());
    }
}

fn push_seg_jitter(out: &mut Vec<u8>)
    ensures
        final(out)@ == old(out)@ + seg_jitter(),
{
    out.push(44); out.push(34); out.push(106); out.push(105); out.push(116); out.push(116);
    out.push(101); out.push(114); out.push(34); out.push(58);
    proof {
        assert(final(out)@ =~= old(out)@ + seg_jitter());
    }
}

fn push_seg_down(out: &mut Vec<u8>)
    ensures
        final(out)@ == old(out)@ + seg_down(),
{
    out.push(44); out.push(34); out.push(100); out.push(111); out.push(119); out.push(110);
    out.push(34); out.push(58);
    proof {
        assert(final(out)@ =~= old(out)@ + seg_down());
    }
}

fn push_seg_up(out: &mut Vec<u8>)
    ensures
        final(out)@ == old(out)@ + seg_up(),
{
    out.push(44); out.push(34); out.push(117); out.push(112); out.push(34); out.push(58);
    proof {
        assert(final(out)@ =~= old(out)@ + seg_up());
    }
}

fn push_seg_loss(out: &mut Vec<u8>)
    ensures
        final(out)@ == old(out)@ + seg_loss(),
{
    out.push(44); out.push(34); out.push(108); out.push(111); out.push(115); out.push(115);
    out.push(34); out.push(58);
    proof {
        assert(final(out)@ =~= old(out)@ + seg_loss());
    }
}

fn push_seg_vortex(out: &mut Vec<u8>)
    ensures
        final(out)@ == old(out)@ + seg_vortex(),
{
    out.push(44); out.push(34); out.push(118); out.push(111); out.push(114); out.push(116);
    out.push(101); out.push(120); out.push(34); out.push(58);
    proof {
        assert(final(out)@ =~= old(out)@ + seg_vortex());
    }
}

/// Frame one sample as a data message, exactly as `spec_data_message` says.
pub fn frame_data_message(s: &Sample) -> (out: Vec<u8>)
    ensures
        out@ == spec_data_message(*s),
{
    let mut out: Vec<u8> = Vec::new();
    push_seg_head(&mut out);
    push_fixed(&mut out, s.ping);
    push_seg_jitter(&mut out);
    push_fixed(&mut out, s.jitter);
    push_seg_down(&mut out);
    push_fixed(&mut out, s.down);
    push_seg_up(&mut out);
    push_fixed(&mut out, s.up);
    push_seg_loss(&mut out);
    push_fixed(&mut out, s.loss);
    push_seg_vortex(&mut out);
    push_fixed(&mut out, s.vortex);
    out.push(125);
    out.push(125);
    proof {
        assert(out@ =~= spec_data_message(*s));
    }
    out
}

/// Frame the end-of-stream notice.
pub fn frame_end_message() -> (out: Vec<u8>)
    ensures
        out@ == spec_end_message(),
{
    let mut out: Vec<u8> = Vec::new();
    out.push(123); out.push(34); out.push(116); out.push(121); out.push(112); out.push(101);
    out.push(34); out.push(58); out.push(34); out.push(101); out.push(110); out.push(100);
    out.push(34); out.push(125);
    proof {
        assert(out@ =~= spec_end_message());
    }
    out
}

} // verus!
