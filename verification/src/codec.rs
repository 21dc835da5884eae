//! Binary codec for the command/response vocabulary.
//!
//! Each message is one tag byte naming the variant, followed by the
//! variant's fields in declaration order, each laid down by the primitive
//! shapes of [`crate::wire`].  A decoder accepts a byte string exactly when
//! it is the encoding of some message and nothing follows it, so encodings
//! are canonical and `decode` after `encode` gives the message back; the
//! round-trip lemmas state that law.

use vstd::prelude::*;

verus! {

use crate::msg::{
    GpuInfo, GpuInfoView, gpu_fits, DaemonCommand, CommandView, cmd_fits, DaemonResponse,
    ResponseView, resp_fits,
};
use crate::wire::{
    enc_u8, enc_bool, enc_u32, enc_u64, enc_i32, enc_usize, enc_bytes, enc_str,
    dec_u8, dec_bool, dec_u32, dec_u64, dec_i32, dec_usize, dec_bytes, dec_str,
    put_u8, put_bool, put_u32, put_u64, put_i32, put_usize, put_bytes, put_str,
    take_u8, take_bool, take_u32, take_u64, take_i32, take_usize, take_bytes, take_str,
    lemma_dec_enc_u8, lemma_dec_enc_bool, lemma_dec_enc_u32, lemma_dec_enc_u64,
    lemma_dec_enc_i32, lemma_dec_enc_usize, lemma_dec_enc_bytes, lemma_dec_enc_str,
    group_enc_lens, lemma_chunk,
};

// ---------------------------------------------------------------------------
// One GPU record: its five strings in declaration order
// ---------------------------------------------------------------------------

pub open spec fn enc_gpu_info(g: GpuInfoView) -> Seq<u8> {
    enc_str(g.name) + enc_str(g.pci_slot) + enc_str(g.driver) + enc_str(g.gpu_type)
        + enc_str(g.runtime_status)
}

pub open spec fn dec_gpu_info(b: Seq<u8>, i: int) -> Option<(GpuInfoView, int)> {
    match dec_str(b, i) {
        Some((name, i)) => match dec_str(b, i) {
            Some((pci_slot, i)) => match dec_str(b, i) {
                Some((driver, i)) => match dec_str(b, i) {
                    Some((gpu_type, i)) => match dec_str(b, i) {
                        Some((runtime_status, i)) => Some(
                            (GpuInfoView { name, pci_slot, driver, gpu_type, runtime_status }, i),
                        ),
                        None => None,
                    },
                    None => None,
                },
                None => None,
            },
            None => None,
        },
        None => None,
    }
}

pub proof fn lemma_dec_enc_gpu_info(b: Seq<u8>, i: int, g: GpuInfoView)
    requires
        0 <= i,
        gpu_fits(g),
        i + enc_gpu_info(g).len() <= b.len(),
        b.subrange(i, i + enc_gpu_info(g).len()) == enc_gpu_info(g),
    ensures
        dec_gpu_info(b, i) == Some((g, i + enc_gpu_info(g).len())),
{
    broadcast use group_enc_lens;

    let w = enc_gpu_info(g);
    let l1 = enc_str(g.name).len() as int;
    let l2 = enc_str(g.pci_slot).len() as int;
    let l3 = enc_str(g.driver).len() as int;
    let l4 = enc_str(g.gpu_type).len() as int;
    let l5 = enc_str(g.runtime_status).len() as int;
    lemma_chunk(b, i, w, 0, l1);
    assert(w.subrange(0, l1) =~= enc_str(g.name));
    lemma_dec_enc_str(b, i, g.name);
    lemma_chunk(b, i, w, l1, l1 + l2);
    assert(w.subrange(l1, l1 + l2) =~= enc_str(g.pci_slot));
    lemma_dec_enc_str(b, i + l1, g.pci_slot);
    lemma_chunk(b, i, w, l1 + l2, l1 + l2 + l3);
    assert(w.subrange(l1 + l2, l1 + l2 + l3) =~= enc_str(g.driver));
    lemma_dec_enc_str(b, i + l1 + l2, g.driver);
    lemma_chunk(b, i, w, l1 + l2 + l3, l1 + l2 + l3 + l4);
    assert(w.subrange(l1 + l2 + l3, l1 + l2 + l3 + l4) =~= enc_str(g.gpu_type));
    lemma_dec_enc_str(b, i + l1 + l2 + l3, g.gpu_type);
    lemma_chunk(b, i, w, l1 + l2 + l3 + l4, l1 + l2 + l3 + l4 + l5);
    assert(w.subrange(l1 + l2 + l3 + l4, l1 + l2 + l3 + l4 + l5) =~= enc_str(g.runtime_status));
    lemma_dec_enc_str(b, i + l1 + l2 + l3 + l4, g.runtime_status);
}

pub fn put_gpu_info(out: &mut Vec<u8>, g: &GpuInfo)
    ensures
        final(out)@ == old(out)@ + enc_gpu_info(g@),
        gpu_fits(g@),
{
    put_str(out, g.name.as_str());
    put_str(out, g.pci_slot.as_str());
    put_str(out, g.driver.as_str());
    put_str(out, g.gpu_type.as_str());
    put_str(out, g.runtime_status.as_str());
    assert(out@ =~= old(out)@ + enc_gpu_info(g@));
}

// ---------------------------------------------------------------------------
// A list of GPU records: the records back to back (the count is written
// separately, in front, by the response codec)
// ---------------------------------------------------------------------------

pub open spec fn enc_gpu_list(gs: Seq<GpuInfoView>) -> Seq<u8>
    decreases gs.len(),
{
    if gs.len() == 0 {
        Seq::empty()
    } else {
        enc_gpu_info(gs[0]) + enc_gpu_list(gs.drop_first())
    }
}

pub open spec fn dec_gpu_list(b: Seq<u8>, i: int, n: nat) -> Option<(Seq<GpuInfoView>, int)>
    decreases n,
{
    if n == 0 {
        Some((Seq::empty(), i))
    } else {
        match dec_gpu_info(b, i) {
            Some((g, j)) => match dec_gpu_list(b, j, (n - 1) as nat) {
                Some((gs, k)) => Some((seq![g] + gs, k)),
                None => None,
            },
            None => None,
        }
    }
}

pub open spec fn all_gpus_fit(gs: Seq<GpuInfoView>) -> bool {
    forall|k: int| 0 <= k < gs.len() ==> gpu_fits(#[trigger] gs[k])
}

/// Appending one record extends the encoding of a list at its end.
pub proof fn lemma_enc_gpu_list_push(gs: Seq<GpuInfoView>, g: GpuInfoView)
    ensures
        enc_gpu_list(gs.push(g)) == enc_gpu_list(gs) + enc_gpu_info(g),
    decreases gs.len(),
{
    if gs.len() == 0 {
        assert(gs.push(g)[0] == g);
        assert(gs.push(g).drop_first() =~= Seq::<GpuInfoView>::empty());
        assert(enc_gpu_list(gs.push(g)) == enc_gpu_info(g) + enc_gpu_list(
            Seq::<GpuInfoView>::empty(),
        ));
        assert(enc_gpu_list(gs.push(g)) =~= enc_gpu_list(gs) + enc_gpu_info(g));
    } else {
        lemma_enc_gpu_list_push(gs.drop_first(), g);
        assert(gs.push(g).drop_first() =~= gs.drop_first().push(g));
        assert(gs.push(g)[0] == gs[0]);
        assert(enc_gpu_list(gs.push(g)) == enc_gpu_info(gs[0]) + enc_gpu_list(
            gs.drop_first().push(g),
        ));
        assert(enc_gpu_list(gs.push(g)) =~= enc_gpu_list(gs) + enc_gpu_info(g));
    }
}

pub proof fn lemma_dec_enc_gpu_list(b: Seq<u8>, i: int, gs: Seq<GpuInfoView>)
    requires
        0 <= i,
        all_gpus_fit(gs),
        i + enc_gpu_list(gs).len() <= b.len(),
        b.subrange(i, i + enc_gpu_list(gs).len()) == enc_gpu_list(gs),
    ensures
        dec_gpu_list(b, i, gs.len()) == Some((gs, i + enc_gpu_list(gs).len())),
    decreases gs.len(),
{
    if gs.len() == 0 {
        assert(dec_gpu_list(b, i, 0) == Some((Seq::<GpuInfoView>::empty(), i)));
        assert(Seq::<GpuInfoView>::empty() =~= gs);
    } else {
        let w = enc_gpu_list(gs);
        let head = enc_gpu_info(gs[0]);
        let tail = enc_gpu_list(gs.drop_first());
        let l0 = head.len() as int;
        lemma_chunk(b, i, w, 0, l0);
        assert(w.subrange(0, l0) =~= head);
        lemma_dec_enc_gpu_info(b, i, gs[0]);
        lemma_chunk(b, i, w, l0, w.len() as int);
        assert(w.subrange(l0, w.len() as int) =~= tail);
        lemma_dec_enc_gpu_list(b, i + l0, gs.drop_first());
        assert(seq![gs[0]] + gs.drop_first() =~= gs);
    }
}

pub fn put_gpu_list(out: &mut Vec<u8>, gpus: &Vec<GpuInfo>)
    ensures
        final(out)@ == old(out)@ + enc_gpu_list(gpus@.map_values(|g: GpuInfo| g@)),
        all_gpus_fit(gpus@.map_values(|g: GpuInfo| g@)),
{
    let ghost views = gpus@.map_values(|g: GpuInfo| g@);
    let n = gpus.len();
    let mut k: usize = 0;
    proof {
        assert(views.subrange(0, 0) =~= Seq::empty());
        assert(out@ =~= old(out)@ + enc_gpu_list(views.subrange(0, 0)));
    }
    while k < n
        invariant
            k <= n,
            n == gpus@.len(),
            views == gpus@.map_values(|g: GpuInfo| g@),
            out@ == old(out)@ + enc_gpu_list(views.subrange(0, k as int)),
            forall|m: int| 0 <= m < k ==> gpu_fits(#[trigger] views[m]),
        decreases n - k,
    {
        put_gpu_info(out, &gpus[k]);
        proof {
            lemma_enc_gpu_list_push(views.subrange(0, k as int), views[k as int]);
            assert(views.subrange(0, k as int).push(views[k as int]) =~= views.subrange(
                0,
                k as int + 1,
            ));
        }
        k += 1;
    }
    proof {
        assert(views.subrange(0, n as int) =~= views);
    }
}

/// Prepending already-decoded records in front of the rest of a decode.
pub open spec fn splice_gpu_list(
    pre: Seq<GpuInfoView>,
    r: Option<(Seq<GpuInfoView>, int)>,
) -> Option<(Seq<GpuInfoView>, int)> {
    match r {
        Some((gs, j)) => Some((pre + gs, j)),
        None => None,
    }
}

proof fn lemma_splice_empty(r: Option<(Seq<GpuInfoView>, int)>)
    ensures
        splice_gpu_list(Seq::empty(), r) == r,
{
    match r {
        Some((gs, j)) => {
            assert(Seq::empty() + gs =~= gs);
        },
        None => {},
    }
}

proof fn lemma_splice_step(
    b: Seq<u8>,
    pre: Seq<GpuInfoView>,
    g: GpuInfoView,
    i: int,
    j: int,
    m: nat,
)
    requires
        m > 0,
        dec_gpu_info(b, i) == Some((g, j)),
    ensures
        splice_gpu_list(pre, dec_gpu_list(b, i, m)) == splice_gpu_list(
            pre.push(g),
            dec_gpu_list(b, j, (m - 1) as nat),
        ),
{
    match dec_gpu_list(b, j, (m - 1) as nat) {
        Some((gs, e)) => {
            assert(pre + (seq![g] + gs) =~= pre.push(g) + gs);
        },
        None => {},
    }
}

pub fn take_gpu_list(b: &[u8], i: usize, n: u64) -> (r: Option<(Vec<GpuInfo>, usize)>)
    requires
        i <= b@.len(),
    ensures
        match r {
            Some((v, j)) => dec_gpu_list(b@, i as int, n as nat) == Some(
                (v@.map_values(|g: GpuInfo| g@), j as int),
            ) && i <= j <= b@.len() && v@.len() == n,
            None => dec_gpu_list(b@, i as int, n as nat) is None,
        },
{
    let mut acc: Vec<GpuInfo> = Vec::new();
    let mut cur: usize = i;
    let mut k: u64 = 0;
    proof {
        assert(acc@.map_values(|g: GpuInfo| g@) =~= Seq::<GpuInfoView>::empty());
        lemma_splice_empty(dec_gpu_list(b@, i as int, n as nat));
    }
    while k < n
        invariant
            k <= n,
            acc@.len() == k,
            i <= cur <= b@.len(),
            dec_gpu_list(b@, i as int, n as nat) == splice_gpu_list(
                acc@.map_values(|g: GpuInfo| g@),
                dec_gpu_list(b@, cur as int, (n - k) as nat),
            ),
        decreases n - k,
    {
        match take_gpu_info(b, cur) {
            Some((g, j)) => {
                proof {
                    lemma_splice_step(
                        b@,
                        acc@.map_values(|gg: GpuInfo| gg@),
                        g@,
                        cur as int,
                        j as int,
                        (n - k) as nat,
                    );
                }
                let ghost old_acc = acc@;
                acc.push(g);
                proof {
                    assert(acc@.map_values(|gg: GpuInfo| gg@) =~= old_acc.map_values(
                        |gg: GpuInfo| gg@,
                    ).push(g@));
                }
                cur = j;
                k += 1;
            },
            None => {
                return None;
            },
        }
    }
    proof {
        let views = acc@.map_values(|g: GpuInfo| g@);
        assert(dec_gpu_list(b@, cur as int, 0) == Some((Seq::<GpuInfoView>::empty(), cur as int)));
        assert(views + Seq::<GpuInfoView>::empty() =~= views);
    }
    Some((acc, cur))
}

pub fn take_gpu_info(b: &[u8], i: usize) -> (r: Option<(GpuInfo, usize)>)
    ensures
        match r {
            Some((g, j)) => dec_gpu_info(b@, i as int) == Some((g@, j as int)) && i < j
                <= b@.len(),
            None => dec_gpu_info(b@, i as int) is None,
        },
{
    match take_str(b, i) {
        Some((name, i)) => match take_str(b, i) {
            Some((pci_slot, i)) => match take_str(b, i) {
                Some((driver, i)) => match take_str(b, i) {
                    Some((gpu_type, i)) => match take_str(b, i) {
                        Some((runtime_status, i)) => Some(
                            (GpuInfo { name, pci_slot, driver, gpu_type, runtime_status }, i),
                        ),
                        None => None,
                    },
                    None => None,
                },
                None => None,
            },
            None => None,
        },
        None => None,
    }
}

// ---------------------------------------------------------------------------
// Commands: tag byte, then the variant's fields in declaration order
// ---------------------------------------------------------------------------

pub open spec fn cmd_tag(c: CommandView) -> u8 {
    match c {
        CommandView::SetFanSpeed { .. } => 0,
        CommandView::GetFanSpeed { .. } => 1,
        CommandView::SetPowerMode { .. } => 2,
        CommandView::GetPwrLevel { .. } => 3,
        CommandView::GetCPUBoost { .. } => 4,
        CommandView::GetGPUBoost { .. } => 5,
        CommandView::SetLogoLedState { .. } => 6,
        CommandView::GetLogoLedState { .. } => 7,
        CommandView::GetKeyboardRGB { .. } => 8,
        CommandView::SetEffect { .. } => 9,
        CommandView::SetStandardEffect { .. } => 10,
        CommandView::SetBrightness { .. } => 11,
        CommandView::SetIdle { .. } => 12,
        CommandView::GetBrightness { .. } => 13,
        CommandView::SetSync { .. } => 14,
        CommandView::GetSync => 15,
        CommandView::SetBatteryHealthOptimizer { .. } => 16,
        CommandView::GetBatteryHealthOptimizer => 17,
        CommandView::GetDeviceName => 18,
        CommandView::GetActualFanRpm => 19,
        CommandView::GetStandardEffect => 20,
        CommandView::GetGpuStatus => 21,
        CommandView::SetDgpuRuntimePM { .. } => 22,
        CommandView::SetGpuMode { .. } => 23,
    }
}

pub open spec fn enc_cmd_fields(c: CommandView) -> Seq<u8> {
    match c {
        CommandView::SetFanSpeed { ac, rpm } => enc_usize(ac) + enc_i32(rpm),
        CommandView::GetFanSpeed { ac } => enc_usize(ac),
        CommandView::SetPowerMode { ac, pwr, cpu, gpu } => enc_usize(ac) + enc_u8(pwr) + enc_u8(
            cpu,
        ) + enc_u8(gpu),
        CommandView::GetPwrLevel { ac } => enc_usize(ac),
        CommandView::GetCPUBoost { ac } => enc_usize(ac),
        CommandView::GetGPUBoost { ac } => enc_usize(ac),
        CommandView::SetLogoLedState { ac, logo_state } => enc_usize(ac) + enc_u8(logo_state),
        CommandView::GetLogoLedState { ac } => enc_usize(ac),
        CommandView::GetKeyboardRGB { layer } => enc_i32(layer),
        CommandView::SetEffect { name, params } => enc_str(name) + enc_bytes(params),
        CommandView::SetStandardEffect { name, params } => enc_str(name) + enc_bytes(params),
        CommandView::SetBrightness { ac, val } => enc_usize(ac) + enc_u8(val),
        CommandView::SetIdle { ac, val } => enc_usize(ac) + enc_u32(val),
        CommandView::GetBrightness { ac } => enc_usize(ac),
        CommandView::SetSync { sync } => enc_bool(sync),
        CommandView::GetSync => Seq::empty(),
        CommandView::SetBatteryHealthOptimizer { is_on, threshold } => enc_bool(is_on) + enc_u8(
            threshold,
        ),
        CommandView::GetBatteryHealthOptimizer => Seq::empty(),
        CommandView::GetDeviceName => Seq::empty(),
        CommandView::GetActualFanRpm => Seq::empty(),
        CommandView::GetStandardEffect => Seq::empty(),
        CommandView::GetGpuStatus => Seq::empty(),
        CommandView::SetDgpuRuntimePM { enabled } => enc_bool(enabled),
        CommandView::SetGpuMode { mode } => enc_str(mode),
    }
}

pub open spec fn enc_command(c: CommandView) -> Seq<u8> {
    enc_u8(cmd_tag(c)) + enc_cmd_fields(c)
}

pub open spec fn dec_cmd_fields(tag: u8, b: Seq<u8>, i: int) -> Option<(CommandView, int)> {
    if tag == 0 {
        match dec_usize(b, i) {
            Some((ac, i)) => match dec_i32(b, i) {
                Some((rpm, i)) => Some((CommandView::SetFanSpeed { ac, rpm }, i)),
                None => None,
            },
            None => None,
        }
    } else if tag == 1 {
        match dec_usize(b, i) {
            Some((ac, i)) => Some((CommandView::GetFanSpeed { ac }, i)),
            None => None,
        }
    } else if tag == 2 {
        match dec_usize(b, i) {
            Some((ac, i)) => match dec_u8(b, i) {
                Some((pwr, i)) => match dec_u8(b, i) {
                    Some((cpu, i)) => match dec_u8(b, i) {
                        Some((gpu, i)) => Some(
                            (CommandView::SetPowerMode { ac, pwr, cpu, gpu }, i),
                        ),
                        None => None,
                    },
                    None => None,
                },
                None => None,
            },
            None => None,
        }
    } else if tag == 3 {
        match dec_usize(b, i) {
            Some((ac, i)) => Some((CommandView::GetPwrLevel { ac }, i)),
            None => None,
        }
    } else if tag == 4 {
        match dec_usize(b, i) {
            Some((ac, i)) => Some((CommandView::GetCPUBoost { ac }, i)),
            None => None,
        }
    } else if tag == 5 {
        match dec_usize(b, i) {
            Some((ac, i)) => Some((CommandView::GetGPUBoost { ac }, i)),
            None => None,
        }
    } else if tag == 6 {
        match dec_usize(b, i) {
            Some((ac, i)) => match dec_u8(b, i) {
                Some((logo_state, i)) => Some((CommandView::SetLogoLedState { ac, logo_state }, i)),
                None => None,
            },
            None => None,
        }
    } else if tag == 7 {
        match dec_usize(b, i) {
            Some((ac, i)) => Some((CommandView::GetLogoLedState { ac }, i)),
            None => None,
        }
    } else if tag == 8 {
        match dec_i32(b, i) {
            Some((layer, i)) => Some((CommandView::GetKeyboardRGB { layer }, i)),
            None => None,
        }
    } else if tag == 9 {
        match dec_str(b, i) {
            Some((name, i)) => match dec_bytes(b, i) {
                Some((params, i)) => Some((CommandView::SetEffect { name, params }, i)),
                None => None,
            },
            None => None,
        }
    } else if tag == 10 {
        match dec_str(b, i) {
            Some((name, i)) => match dec_bytes(b, i) {
                Some((params, i)) => Some((CommandView::SetStandardEffect { name, params }, i)),
                None => None,
            },
            None => None,
        }
    } else if tag == 11 {
        match dec_usize(b, i) {
            Some((ac, i)) => match dec_u8(b, i) {
                Some((val, i)) => Some((CommandView::SetBrightness { ac, val }, i)),
                None => None,
            },
            None => None,
        }
    } else if tag == 12 {
        match dec_usize(b, i) {
            Some((ac, i)) => match dec_u32(b, i) {
                Some((val, i)) => Some((CommandView::SetIdle { ac, val }, i)),
                None => None,
            },
            None => None,
        }
    } else if tag == 13 {
        match dec_usize(b, i) {
            Some((ac, i)) => Some((CommandView::GetBrightness { ac }, i)),
            None => None,
        }
    } else if tag == 14 {
        match dec_bool(b, i) {
            Some((sync, i)) => Some((CommandView::SetSync { sync }, i)),
            None => None,
        }
    } else if tag == 15 {
        Some((CommandView::GetSync, i))
    } else if tag == 16 {
        match dec_bool(b, i) {
            Some((is_on, i)) => match dec_u8(b, i) {
                Some((threshold, i)) => Some(
                    (CommandView::SetBatteryHealthOptimizer { is_on, threshold }, i),
                ),
                None => None,
            },
            None => None,
        }
    } else if tag == 17 {
        Some((CommandView::GetBatteryHealthOptimizer, i))
    } else if tag == 18 {
        Some((CommandView::GetDeviceName, i))
    } else if tag == 19 {
        Some((CommandView::GetActualFanRpm, i))
    } else if tag == 20 {
        Some((CommandView::GetStandardEffect, i))
    } else if tag == 21 {
        Some((CommandView::GetGpuStatus, i))
    } else if tag == 22 {
        match dec_bool(b, i) {
            Some((enabled, i)) => Some((CommandView::SetDgpuRuntimePM { enabled }, i)),
            None => None,
        }
    } else if tag == 23 {
        match dec_str(b, i) {
            Some((mode, i)) => Some((CommandView::SetGpuMode { mode }, i)),
            None => None,
        }
    } else {
        None
    }
}

/// What a byte string means as a command: `Some` exactly when the bytes are
/// the encoding of that command and nothing trails it.
pub open spec fn dec_command(b: Seq<u8>) -> Option<CommandView> {
    match dec_u8(b, 0) {
        Some((tag, i)) => match dec_cmd_fields(tag, b, i) {
            Some((c, j)) => if j == b.len() {
                Some(c)
            } else {
                None
            },
            None => None,
        },
        None => None,
    }
}

/// Serialize a command for the channel.
pub fn encode_command(c: &DaemonCommand) -> (r: Vec<u8>)
    ensures
        r@ == enc_command(c@),
        cmd_fits(c@),
{
    let mut out: Vec<u8> = Vec::new();
    match c {
        DaemonCommand::SetFanSpeed { ac, rpm } => {
            put_u8(&mut out, 0);
            put_usize(&mut out, *ac);
            put_i32(&mut out, *rpm);
            assert(out@ =~= enc_command(c@));
        },
        DaemonCommand::GetFanSpeed { ac } => {
            put_u8(&mut out, 1);
            put_usize(&mut out, *ac);
            assert(out@ =~= enc_command(c@));
        },
        DaemonCommand::SetPowerMode { ac, pwr, cpu, gpu } => {
            put_u8(&mut out, 2);
            put_usize(&mut out, *ac);
            put_u8(&mut out, *pwr);
            put_u8(&mut out, *cpu);
            put_u8(&mut out, *gpu);
            assert(out@ =~= enc_command(c@));
        },
        DaemonCommand::GetPwrLevel { ac } => {
            put_u8(&mut out, 3);
            put_usize(&mut out, *ac);
            assert(out@ =~= enc_command(c@));
        },
        DaemonCommand::GetCPUBoost { ac } => {
            put_u8(&mut out, 4);
            put_usize(&mut out, *ac);
            assert(out@ =~= enc_command(c@));
        },
        DaemonCommand::GetGPUBoost { ac } => {
            put_u8(&mut out, 5);
            put_usize(&mut out, *ac);
            assert(out@ =~= enc_command(c@));
        },
        DaemonCommand::SetLogoLedState { ac, logo_state } => {
            put_u8(&mut out, 6);
            put_usize(&mut out, *ac);
            put_u8(&mut out, *logo_state);
            assert(out@ =~= enc_command(c@));
        },
        DaemonCommand::GetLogoLedState { ac } => {
            put_u8(&mut out, 7);
            put_usize(&mut out, *ac);
            assert(out@ =~= enc_command(c@));
        },
        DaemonCommand::GetKeyboardRGB { layer } => {
            put_u8(&mut out, 8);
            put_i32(&mut out, *layer);
            assert(out@ =~= enc_command(c@));
        },
        DaemonCommand::SetEffect { name, params } => {
            put_u8(&mut out, 9);
            put_str(&mut out, name.as_str());
            put_bytes(&mut out, params.as_slice());
            assert(out@ =~= enc_command(c@));
        },
        DaemonCommand::SetStandardEffect { name, params } => {
            put_u8(&mut out, 10);
            put_str(&mut out, name.as_str());
            put_bytes(&mut out, params.as_slice());
            assert(out@ =~= enc_command(c@));
        },
        DaemonCommand::SetBrightness { ac, val } => {
            put_u8(&mut out, 11);
            put_usize(&mut out, *ac);
            put_u8(&mut out, *val);
            assert(out@ =~= enc_command(c@));
        },
        DaemonCommand::SetIdle { ac, val } => {
            put_u8(&mut out, 12);
            put_usize(&mut out, *ac);
            put_u32(&mut out, *val);
            assert(out@ =~= enc_command(c@));
        },
        DaemonCommand::GetBrightness { ac } => {
            put_u8(&mut out, 13);
            put_usize(&mut out, *ac);
            assert(out@ =~= enc_command(c@));
        },
        DaemonCommand::SetSync { sync } => {
            put_u8(&mut out, 14);
            put_bool(&mut out, *sync);
            assert(out@ =~= enc_command(c@));
        },
        DaemonCommand::GetSync() => {
            put_u8(&mut out, 15);
            assert(out@ =~= enc_command(c@));
        },
        DaemonCommand::SetBatteryHealthOptimizer { is_on, threshold } => {
            put_u8(&mut out, 16);
            put_bool(&mut out, *is_on);
            put_u8(&mut out, *threshold);
            assert(out@ =~= enc_command(c@));
        },
        DaemonCommand::GetBatteryHealthOptimizer() => {
            put_u8(&mut out, 17);
            assert(out@ =~= enc_command(c@));
        },
        DaemonCommand::GetDeviceName => {
            put_u8(&mut out, 18);
            assert(out@ =~= enc_command(c@));
        },
        DaemonCommand::GetActualFanRpm => {
            put_u8(&mut out, 19);
            assert(out@ =~= enc_command(c@));
        },
        DaemonCommand::GetStandardEffect => {
            put_u8(&mut out, 20);
            assert(out@ =~= enc_command(c@));
        },
        DaemonCommand::GetGpuStatus => {
            put_u8(&mut out, 21);
            assert(out@ =~= enc_command(c@));
        },
        DaemonCommand::SetDgpuRuntimePM { enabled } => {
            put_u8(&mut out, 22);
            put_bool(&mut out, *enabled);
            assert(out@ =~= enc_command(c@));
        },
        DaemonCommand::SetGpuMode { mode } => {
            put_u8(&mut out, 23);
            put_str(&mut out, mode.as_str());
            assert(out@ =~= enc_command(c@));
        },
    }
    out
}

fn take_cmd_fields(tag: u8, b: &[u8], i: usize) -> (r: Option<(DaemonCommand, usize)>)
    requires
        i <= b@.len(),
    ensures
        match r {
            Some((c, j)) => dec_cmd_fields(tag, b@, i as int) == Some((c@, j as int)) && i <= j
                <= b@.len(),
            None => dec_cmd_fields(tag, b@, i as int) is None,
        },
{
    if tag == 0 {
        match take_usize(b, i) {
            Some((ac, i)) => match take_i32(b, i) {
                Some((rpm, i)) => Some((DaemonCommand::SetFanSpeed { ac, rpm }, i)),
                None => None,
            },
            None => None,
        }
    } else if tag == 1 {
        match take_usize(b, i) {
            Some((ac, i)) => Some((DaemonCommand::GetFanSpeed { ac }, i)),
            None => None,
        }
    } else if tag == 2 {
        match take_usize(b, i) {
            Some((ac, i)) => match take_u8(b, i) {
                Some((pwr, i)) => match take_u8(b, i) {
                    Some((cpu, i)) => match take_u8(b, i) {
                        Some((gpu, i)) => Some(
                            (DaemonCommand::SetPowerMode { ac, pwr, cpu, gpu }, i),
                        ),
                        None => None,
                    },
                    None => None,
                },
                None => None,
            },
            None => None,
        }
    } else if tag == 3 {
        match take_usize(b, i) {
            Some((ac, i)) => Some((DaemonCommand::GetPwrLevel { ac }, i)),
            None => None,
        }
    } else if tag == 4 {
        match take_usize(b, i) {
            Some((ac, i)) => Some((DaemonCommand::GetCPUBoost { ac }, i)),
            None => None,
        }
    } else if tag == 5 {
        match take_usize(b, i) {
            Some((ac, i)) => Some((DaemonCommand::GetGPUBoost { ac }, i)),
            None => None,
        }
    } else if tag == 6 {
        match take_usize(b, i) {
            Some((ac, i)) => match take_u8(b, i) {
                Some((logo_state, i)) => Some(
                    (DaemonCommand::SetLogoLedState { ac, logo_state }, i),
                ),
                None => None,
            },
            None => None,
        }
    } else if tag == 7 {
        match take_usize(b, i) {
            Some((ac, i)) => Some((DaemonCommand::GetLogoLedState { ac }, i)),
            None => None,
        }
    } else if tag == 8 {
        match take_i32(b, i) {
            Some((layer, i)) => Some((DaemonCommand::GetKeyboardRGB { layer }, i)),
            None => None,
        }
    } else if tag == 9 {
        match take_str(b, i) {
            Some((name, i)) => match take_bytes(b, i) {
                Some((params, i)) => Some((DaemonCommand::SetEffect { name, params }, i)),
                None => None,
            },
            None => None,
        }
    } else if tag == 10 {
        match take_str(b, i) {
            Some((name, i)) => match take_bytes(b, i) {
                Some((params, i)) => Some((DaemonCommand::SetStandardEffect { name, params }, i)),
                None => None,
            },
            None => None,
        }
    } else if tag == 11 {
        match take_usize(b, i) {
            Some((ac, i)) => match take_u8(b, i) {
                Some((val, i)) => Some((DaemonCommand::SetBrightness { ac, val }, i)),
                None => None,
            },
            None => None,
        }
    } else if tag == 12 {
        match take_usize(b, i) {
            Some((ac, i)) => match take_u32(b, i) {
                Some((val, i)) => Some((DaemonCommand::SetIdle { ac, val }, i)),
                None => None,
            },
            None => None,
        }
    } else if tag == 13 {
        match take_usize(b, i) {
            Some((ac, i)) => Some((DaemonCommand::GetBrightness { ac }, i)),
            None => None,
        }
    } else if tag == 14 {
        match take_bool(b, i) {
            Some((sync, i)) => Some((DaemonCommand::SetSync { sync }, i)),
            None => None,
        }
    } else if tag == 15 {
        Some((DaemonCommand::GetSync(), i))
    } else if tag == 16 {
        match take_bool(b, i) {
            Some((is_on, i)) => match take_u8(b, i) {
                Some((threshold, i)) => Some(
                    (DaemonCommand::SetBatteryHealthOptimizer { is_on, threshold }, i),
                ),
                None => None,
            },
            None => None,
        }
    } else if tag == 17 {
        Some((DaemonCommand::GetBatteryHealthOptimizer(), i))
    } else if tag == 18 {
        Some((DaemonCommand::GetDeviceName, i))
    } else if tag == 19 {
        Some((DaemonCommand::GetActualFanRpm, i))
    } else if tag == 20 {
        Some((DaemonCommand::GetStandardEffect, i))
    } else if tag == 21 {
        Some((DaemonCommand::GetGpuStatus, i))
    } else if tag == 22 {
        match take_bool(b, i) {
            Some((enabled, i)) => Some((DaemonCommand::SetDgpuRuntimePM { enabled }, i)),
            None => None,
        }
    } else if tag == 23 {
        match take_str(b, i) {
            Some((mode, i)) => Some((DaemonCommand::SetGpuMode { mode }, i)),
            None => None,
        }
    } else {
        None
    }
}

/// Round-trip law for commands: decoding an encoded command gives the
/// command back.  Together with the contracts of [`encode_command`] and
/// [`decode_command`] this pins the codec down: `decode_command` applied to
/// `encode_command(c)` returns a command with the view of `c`.
pub proof fn lemma_command_round_trip(c: CommandView)
    requires
        cmd_fits(c),
    ensures
        dec_command(enc_command(c)) == Some(c),
{
    broadcast use group_enc_lens;

    let t = cmd_tag(c);
    let f = enc_cmd_fields(c);
    let b = enc_command(c);
    assert(b.subrange(0, 1) =~= enc_u8(t));
    lemma_dec_enc_u8(b, 0, t);
    assert(b.subrange(1, b.len() as int) =~= f);
    match c {
        CommandView::SetFanSpeed { ac, rpm } => {
            lemma_chunk(b, 1, f, 0, 8);
            assert(f.subrange(0, 8) =~= enc_usize(ac));
            lemma_dec_enc_usize(b, 1, ac);
            lemma_chunk(b, 1, f, 8, 12);
            assert(f.subrange(8, 12) =~= enc_i32(rpm));
            lemma_dec_enc_i32(b, 9, rpm);
        },
        CommandView::GetFanSpeed { ac } => {
            lemma_chunk(b, 1, f, 0, 8);
            assert(f.subrange(0, 8) =~= enc_usize(ac));
            lemma_dec_enc_usize(b, 1, ac);
        },
        CommandView::SetPowerMode { ac, pwr, cpu, gpu } => {
            lemma_chunk(b, 1, f, 0, 8);
            assert(f.subrange(0, 8) =~= enc_usize(ac));
            lemma_dec_enc_usize(b, 1, ac);
            lemma_chunk(b, 1, f, 8, 9);
            assert(f.subrange(8, 9) =~= enc_u8(pwr));
            lemma_dec_enc_u8(b, 9, pwr);
            lemma_chunk(b, 1, f, 9, 10);
            assert(f.subrange(9, 10) =~= enc_u8(cpu));
            lemma_dec_enc_u8(b, 10, cpu);
            lemma_chunk(b, 1, f, 10, 11);
            assert(f.subrange(10, 11) =~= enc_u8(gpu));
            lemma_dec_enc_u8(b, 11, gpu);
        },
        CommandView::GetPwrLevel { ac } => {
            lemma_chunk(b, 1, f, 0, 8);
            assert(f.subrange(0, 8) =~= enc_usize(ac));
            lemma_dec_enc_usize(b, 1, ac);
        },
        CommandView::GetCPUBoost { ac } => {
            lemma_chunk(b, 1, f, 0, 8);
            assert(f.subrange(0, 8) =~= enc_usize(ac));
            lemma_dec_enc_usize(b, 1, ac);
        },
        CommandView::GetGPUBoost { ac } => {
            lemma_chunk(b, 1, f, 0, 8);
            assert(f.subrange(0, 8) =~= enc_usize(ac));
            lemma_dec_enc_usize(b, 1, ac);
        },
        CommandView::SetLogoLedState { ac, logo_state } => {
            lemma_chunk(b, 1, f, 0, 8);
            assert(f.subrange(0, 8) =~= enc_usize(ac));
            lemma_dec_enc_usize(b, 1, ac);
            lemma_chunk(b, 1, f, 8, 9);
            assert(f.subrange(8, 9) =~= enc_u8(logo_state));
            lemma_dec_enc_u8(b, 9, logo_state);
        },
        CommandView::GetLogoLedState { ac } => {
            lemma_chunk(b, 1, f, 0, 8);
            assert(f.subrange(0, 8) =~= enc_usize(ac));
            lemma_dec_enc_usize(b, 1, ac);
        },
        CommandView::GetKeyboardRGB { layer } => {
            lemma_chunk(b, 1, f, 0, 4);
            assert(f.subrange(0, 4) =~= enc_i32(layer));
            lemma_dec_enc_i32(b, 1, layer);
        },
        CommandView::SetEffect { name, params } => {
            let l1 = enc_str(name).len() as int;
            let l2 = enc_bytes(params).len() as int;
            lemma_chunk(b, 1, f, 0, l1);
            assert(f.subrange(0, l1) =~= enc_str(name));
            lemma_dec_enc_str(b, 1, name);
            lemma_chunk(b, 1, f, l1, l1 + l2);
            assert(f.subrange(l1, l1 + l2) =~= enc_bytes(params));
            lemma_dec_enc_bytes(b, 1 + l1, params);
        },
        CommandView::SetStandardEffect { name, params } => {
            let l1 = enc_str(name).len() as int;
            let l2 = enc_bytes(params).len() as int;
            lemma_chunk(b, 1, f, 0, l1);
            assert(f.subrange(0, l1) =~= enc_str(name));
            lemma_dec_enc_str(b, 1, name);
            lemma_chunk(b, 1, f, l1, l1 + l2);
            assert(f.subrange(l1, l1 + l2) =~= enc_bytes(params));
            lemma_dec_enc_bytes(b, 1 + l1, params);
        },
        CommandView::SetBrightness { ac, val } => {
            lemma_chunk(b, 1, f, 0, 8);
            assert(f.subrange(0, 8) =~= enc_usize(ac));
            lemma_dec_enc_usize(b, 1, ac);
            lemma_chunk(b, 1, f, 8, 9);
            assert(f.subrange(8, 9) =~= enc_u8(val));
            lemma_dec_enc_u8(b, 9, val);
        },
        CommandView::SetIdle { ac, val } => {
            lemma_chunk(b, 1, f, 0, 8);
            assert(f.subrange(0, 8) =~= enc_usize(ac));
            lemma_dec_enc_usize(b, 1, ac);
            lemma_chunk(b, 1, f, 8, 12);
            assert(f.subrange(8, 12) =~= enc_u32(val));
            lemma_dec_enc_u32(b, 9, val);
        },
        CommandView::GetBrightness { ac } => {
            lemma_chunk(b, 1, f, 0, 8);
            assert(f.subrange(0, 8) =~= enc_usize(ac));
            lemma_dec_enc_usize(b, 1, ac);
        },
        CommandView::SetSync { sync } => {
            lemma_chunk(b, 1, f, 0, 1);
            assert(f.subrange(0, 1) =~= enc_bool(sync));
            lemma_dec_enc_bool(b, 1, sync);
        },
        CommandView::GetSync => {
            assert(b.len() == 1);
        },
        CommandView::SetBatteryHealthOptimizer { is_on, threshold } => {
            lemma_chunk(b, 1, f, 0, 1);
            assert(f.subrange(0, 1) =~= enc_bool(is_on));
            lemma_dec_enc_bool(b, 1, is_on);
            lemma_chunk(b, 1, f, 1, 2);
            assert(f.subrange(1, 2) =~= enc_u8(threshold));
            lemma_dec_enc_u8(b, 2, threshold);
        },
        CommandView::GetBatteryHealthOptimizer => {
            assert(b.len() == 1);
        },
        CommandView::GetDeviceName => {
            assert(b.len() == 1);
        },
        CommandView::GetActualFanRpm => {
            assert(b.len() == 1);
        },
        CommandView::GetStandardEffect => {
            assert(b.len() == 1);
        },
        CommandView::GetGpuStatus => {
            assert(b.len() == 1);
        },
        CommandView::SetDgpuRuntimePM { enabled } => {
            lemma_chunk(b, 1, f, 0, 1);
            assert(f.subrange(0, 1) =~= enc_bool(enabled));
            lemma_dec_enc_bool(b, 1, enabled);
        },
        CommandView::SetGpuMode { mode } => {
            let l1 = enc_str(mode).len() as int;
            lemma_chunk(b, 1, f, 0, l1);
            assert(f.subrange(0, l1) =~= enc_str(mode));
            lemma_dec_enc_str(b, 1, mode);
        },
    }
}

/// Deserialize a command.  `None` exactly when the bytes are not the
/// complete encoding of any command.
pub fn decode_command(b: &[u8]) -> (r: Option<DaemonCommand>)
    ensures
        match r {
            Some(c) => dec_command(b@) == Some(c@),
            None => dec_command(b@) is None,
        },
{
    match take_u8(b, 0) {
        Some((tag, i)) => match take_cmd_fields(tag, b, i) {
            Some((c, j)) => {
                if j == b.len() {
                    Some(c)
                } else {
                    None
                }
            },
            None => None,
        },
        None => None,
    }
}

// ---------------------------------------------------------------------------
// Responses: the same scheme, one tag per response variant
// ---------------------------------------------------------------------------

pub open spec fn resp_tag(r: ResponseView) -> u8 {
    match r {
        ResponseView::SetFanSpeed { .. } => 0,
        ResponseView::GetFanSpeed { .. } => 1,
        ResponseView::SetPowerMode { .. } => 2,
        ResponseView::GetPwrLevel { .. } => 3,
        ResponseView::GetCPUBoost { .. } => 4,
        ResponseView::GetGPUBoost { .. } => 5,
        ResponseView::SetLogoLedState { .. } => 6,
        ResponseView::GetLogoLedState { .. } => 7,
        ResponseView::GetKeyboardRGB { .. } => 8,
        ResponseView::SetEffect { .. } => 9,
        ResponseView::SetStandardEffect { .. } => 10,
        ResponseView::SetBrightness { .. } => 11,
        ResponseView::SetIdle { .. } => 12,
        ResponseView::GetBrightness { .. } => 13,
        ResponseView::SetSync { .. } => 14,
        ResponseView::GetSync { .. } => 15,
        ResponseView::SetBatteryHealthOptimizer { .. } => 16,
        ResponseView::GetBatteryHealthOptimizer { .. } => 17,
        ResponseView::GetDeviceName { .. } => 18,
        ResponseView::GetActualFanRpm { .. } => 19,
        ResponseView::GetStandardEffect { .. } => 20,
        ResponseView::GetGpuStatus { .. } => 21,
        ResponseView::SetDgpuRuntimePM { .. } => 22,
        ResponseView::SetGpuMode { .. } => 23,
    }
}

pub open spec fn enc_resp_fields(r: ResponseView) -> Seq<u8> {
    match r {
        ResponseView::SetFanSpeed { result } => enc_bool(result),
        ResponseView::GetFanSpeed { rpm } => enc_i32(rpm),
        ResponseView::SetPowerMode { result } => enc_bool(result),
        ResponseView::GetPwrLevel { pwr } => enc_u8(pwr),
        ResponseView::GetCPUBoost { cpu } => enc_u8(cpu),
        ResponseView::GetGPUBoost { gpu } => enc_u8(gpu),
        ResponseView::SetLogoLedState { result } => enc_bool(result),
        ResponseView::GetLogoLedState { logo_state } => enc_u8(logo_state),
        ResponseView::GetKeyboardRGB { layer, rgbdata } => enc_i32(layer) + enc_bytes(rgbdata),
        ResponseView::SetEffect { result } => enc_bool(result),
        ResponseView::SetStandardEffect { result } => enc_bool(result),
        ResponseView::SetBrightness { result } => enc_bool(result),
        ResponseView::SetIdle { result } => enc_bool(result),
        ResponseView::GetBrightness { result } => enc_u8(result),
        ResponseView::SetSync { result } => enc_bool(result),
        ResponseView::GetSync { sync } => enc_bool(sync),
        ResponseView::SetBatteryHealthOptimizer { result } => enc_bool(result),
        ResponseView::GetBatteryHealthOptimizer { is_on, threshold } => enc_bool(is_on) + enc_u8(
            threshold,
        ),
        ResponseView::GetDeviceName { name } => enc_str(name),
        ResponseView::GetActualFanRpm { rpm } => enc_i32(rpm),
        ResponseView::GetStandardEffect { effect, params } => enc_u8(effect) + enc_bytes(params),
        ResponseView::GetGpuStatus { gpus, dgpu_runtime_pm, envycontrol_mode, envycontrol_available } => {
            enc_u64(gpus.len() as u64) + enc_gpu_list(gpus) + enc_bool(dgpu_runtime_pm) + enc_str(
                envycontrol_mode,
            ) + enc_bool(envycontrol_available)
        },
        ResponseView::SetDgpuRuntimePM { result } => enc_bool(result),
        ResponseView::SetGpuMode { result, message } => enc_bool(result) + enc_str(message),
    }
}

pub open spec fn enc_response(r: ResponseView) -> Seq<u8> {
    enc_u8(resp_tag(r)) + enc_resp_fields(r)
}

pub open spec fn dec_resp_fields(tag: u8, b: Seq<u8>, i: int) -> Option<(ResponseView, int)> {
    if tag == 0 {
        match dec_bool(b, i) {
            Some((result, i)) => Some((ResponseView::SetFanSpeed { result }, i)),
            None => None,
        }
    } else if tag == 1 {
        match dec_i32(b, i) {
            Some((rpm, i)) => Some((ResponseView::GetFanSpeed { rpm }, i)),
            None => None,
        }
    } else if tag == 2 {
        match dec_bool(b, i) {
            Some((result, i)) => Some((ResponseView::SetPowerMode { result }, i)),
            None => None,
        }
    } else if tag == 3 {
        match dec_u8(b, i) {
            Some((pwr, i)) => Some((ResponseView::GetPwrLevel { pwr }, i)),
            None => None,
        }
    } else if tag == 4 {
        match dec_u8(b, i) {
            Some((cpu, i)) => Some((ResponseView::GetCPUBoost { cpu }, i)),
            None => None,
        }
    } else if tag == 5 {
        match dec_u8(b, i) {
            Some((gpu, i)) => Some((ResponseView::GetGPUBoost { gpu }, i)),
            None => None,
        }
    } else if tag == 6 {
        match dec_bool(b, i) {
            Some((result, i)) => Some((ResponseView::SetLogoLedState { result }, i)),
            None => None,
        }
    } else if tag == 7 {
        match dec_u8(b, i) {
            Some((logo_state, i)) => Some((ResponseView::GetLogoLedState { logo_state }, i)),
            None => None,
        }
    } else if tag == 8 {
        match dec_i32(b, i) {
            Some((layer, i)) => match dec_bytes(b, i) {
                Some((rgbdata, i)) => Some((ResponseView::GetKeyboardRGB { layer, rgbdata }, i)),
                None => None,
            },
            None => None,
        }
    } else if tag == 9 {
        match dec_bool(b, i) {
            Some((result, i)) => Some((ResponseView::SetEffect { result }, i)),
            None => None,
        }
    } else if tag == 10 {
        match dec_bool(b, i) {
            Some((result, i)) => Some((ResponseView::SetStandardEffect { result }, i)),
            None => None,
        }
    } else if tag == 11 {
        match dec_bool(b, i) {
            Some((result, i)) => Some((ResponseView::SetBrightness { result }, i)),
            None => None,
        }
    } else if tag == 12 {
        match dec_bool(b, i) {
            Some((result, i)) => Some((ResponseView::SetIdle { result }, i)),
            None => None,
        }
    } else if tag == 13 {
        match dec_u8(b, i) {
            Some((result, i)) => Some((ResponseView::GetBrightness { result }, i)),
            None => None,
        }
    } else if tag == 14 {
        match dec_bool(b, i) {
            Some((result, i)) => Some((ResponseView::SetSync { result }, i)),
            None => None,
        }
    } else if tag == 15 {
        match dec_bool(b, i) {
            Some((sync, i)) => Some((ResponseView::GetSync { sync }, i)),
            None => None,
        }
    } else if tag == 16 {
        match dec_bool(b, i) {
            Some((result, i)) => Some((ResponseView::SetBatteryHealthOptimizer { result }, i)),
            None => None,
        }
    } else if tag == 17 {
        match dec_bool(b, i) {
            Some((is_on, i)) => match dec_u8(b, i) {
                Some((threshold, i)) => Some(
                    (ResponseView::GetBatteryHealthOptimizer { is_on, threshold }, i),
                ),
                None => None,
            },
            None => None,
        }
    } else if tag == 18 {
        match dec_str(b, i) {
            Some((name, i)) => Some((ResponseView::GetDeviceName { name }, i)),
            None => None,
        }
    } else if tag == 19 {
        match dec_i32(b, i) {
            Some((rpm, i)) => Some((ResponseView::GetActualFanRpm { rpm }, i)),
            None => None,
        }
    } else if tag == 20 {
        match dec_u8(b, i) {
            Some((effect, i)) => match dec_bytes(b, i) {
                Some((params, i)) => Some((ResponseView::GetStandardEffect { effect, params }, i)),
                None => None,
            },
            None => None,
        }
    } else if tag == 21 {
        match dec_u64(b, i) {
            Some((n, i)) => match dec_gpu_list(b, i, n as nat) {
                Some((gpus, i)) => match dec_bool(b, i) {
                    Some((dgpu_runtime_pm, i)) => match dec_str(b, i) {
                        Some((envycontrol_mode, i)) => match dec_bool(b, i) {
                            Some((envycontrol_available, i)) => Some(
                                (
                                    ResponseView::GetGpuStatus {
                                        gpus,
                                        dgpu_runtime_pm,
                                        envycontrol_mode,
                                        envycontrol_available,
                                    },
                                    i,
                                ),
                            ),
                            None => None,
                        },
                        None => None,
                    },
                    None => None,
                },
                None => None,
            },
            None => None,
        }
    } else if tag == 22 {
        match dec_bool(b, i) {
            Some((result, i)) => Some((ResponseView::SetDgpuRuntimePM { result }, i)),
            None => None,
        }
    } else if tag == 23 {
        match dec_bool(b, i) {
            Some((result, i)) => match dec_str(b, i) {
                Some((message, i)) => Some((ResponseView::SetGpuMode { result, message }, i)),
                None => None,
            },
            None => None,
        }
    } else {
        None
    }
}

/// What a byte string means as a response: `Some` exactly when the bytes
/// are the encoding of that response and nothing trails it.
pub open spec fn dec_response(b: Seq<u8>) -> Option<ResponseView> {
    match dec_u8(b, 0) {
        Some((tag, i)) => match dec_resp_fields(tag, b, i) {
            Some((r, j)) => if j == b.len() {
                Some(r)
            } else {
                None
            },
            None => None,
        },
        None => None,
    }
}

/// Serialize a response for the channel.
pub fn encode_response(resp: &DaemonResponse) -> (r: Vec<u8>)
    ensures
        r@ == enc_response(resp@),
        resp_fits(resp@),
{
    let mut out: Vec<u8> = Vec::new();
    match resp {
        DaemonResponse::SetFanSpeed { result } => {
            put_u8(&mut out, 0);
            put_bool(&mut out, *result);
            assert(out@ =~= enc_response(resp@));
        },
        DaemonResponse::GetFanSpeed { rpm } => {
            put_u8(&mut out, 1);
            put_i32(&mut out, *rpm);
            assert(out@ =~= enc_response(resp@));
        },
        DaemonResponse::SetPowerMode { result } => {
            put_u8(&mut out, 2);
            put_bool(&mut out, *result);
            assert(out@ =~= enc_response(resp@));
        },
        DaemonResponse::GetPwrLevel { pwr } => {
            put_u8(&mut out, 3);
            put_u8(&mut out, *pwr);
            assert(out@ =~= enc_response(resp@));
        },
        DaemonResponse::GetCPUBoost { cpu } => {
            put_u8(&mut out, 4);
            put_u8(&mut out, *cpu);
            assert(out@ =~= enc_response(resp@));
        },
        DaemonResponse::GetGPUBoost { gpu } => {
            put_u8(&mut out, 5);
            put_u8(&mut out, *gpu);
            assert(out@ =~= enc_response(resp@));
        },
        DaemonResponse::SetLogoLedState { result } => {
            put_u8(&mut out, 6);
            put_bool(&mut out, *result);
            assert(out@ =~= enc_response(resp@));
        },
        DaemonResponse::GetLogoLedState { logo_state } => {
            put_u8(&mut out, 7);
            put_u8(&mut out, *logo_state);
            assert(out@ =~= enc_response(resp@));
        },
        DaemonResponse::GetKeyboardRGB { layer, rgbdata } => {
            put_u8(&mut out, 8);
            put_i32(&mut out, *layer);
            put_bytes(&mut out, rgbdata.as_slice());
            assert(out@ =~= enc_response(resp@));
        },
        DaemonResponse::SetEffect { result } => {
            put_u8(&mut out, 9);
            put_bool(&mut out, *result);
            assert(out@ =~= enc_response(resp@));
        },
        DaemonResponse::SetStandardEffect { result } => {
            put_u8(&mut out, 10);
            put_bool(&mut out, *result);
            assert(out@ =~= enc_response(resp@));
        },
        DaemonResponse::SetBrightness { result } => {
            put_u8(&mut out, 11);
            put_bool(&mut out, *result);
            assert(out@ =~= enc_response(resp@));
        },
        DaemonResponse::SetIdle { result } => {
            put_u8(&mut out, 12);
            put_bool(&mut out, *result);
            assert(out@ =~= enc_response(resp@));
        },
        DaemonResponse::GetBrightness { result } => {
            put_u8(&mut out, 13);
            put_u8(&mut out, *result);
            assert(out@ =~= enc_response(resp@));
        },
        DaemonResponse::SetSync { result } => {
            put_u8(&mut out, 14);
            put_bool(&mut out, *result);
            assert(out@ =~= enc_response(resp@));
        },
        DaemonResponse::GetSync { sync } => {
            put_u8(&mut out, 15);
            put_bool(&mut out, *sync);
            assert(out@ =~= enc_response(resp@));
        },
        DaemonResponse::SetBatteryHealthOptimizer { result } => {
            put_u8(&mut out, 16);
            put_bool(&mut out, *result);
            assert(out@ =~= enc_response(resp@));
        },
        DaemonResponse::GetBatteryHealthOptimizer { is_on, threshold } => {
            put_u8(&mut out, 17);
            put_bool(&mut out, *is_on);
            put_u8(&mut out, *threshold);
            assert(out@ =~= enc_response(resp@));
        },
        DaemonResponse::GetDeviceName { name } => {
            put_u8(&mut out, 18);
            put_str(&mut out, name.as_str());
            assert(out@ =~= enc_response(resp@));
        },
        DaemonResponse::GetActualFanRpm { rpm } => {
            put_u8(&mut out, 19);
            put_i32(&mut out, *rpm);
            assert(out@ =~= enc_response(resp@));
        },
        DaemonResponse::GetStandardEffect { effect, params } => {
            put_u8(&mut out, 20);
            put_u8(&mut out, *effect);
            put_bytes(&mut out, params.as_slice());
            assert(out@ =~= enc_response(resp@));
        },
        DaemonResponse::GetGpuStatus {
            gpus,
            dgpu_runtime_pm,
            envycontrol_mode,
            envycontrol_available,
        } => {
            put_u8(&mut out, 21);
            put_u64(&mut out, gpus.len() as u64);
            put_gpu_list(&mut out, gpus);
            put_bool(&mut out, *dgpu_runtime_pm);
            put_str(&mut out, envycontrol_mode.as_str());
            put_bool(&mut out, *envycontrol_available);
            assert(out@ =~= enc_response(resp@));
        },
        DaemonResponse::SetDgpuRuntimePM { result } => {
            put_u8(&mut out, 22);
            put_bool(&mut out, *result);
            assert(out@ =~= enc_response(resp@));
        },
        DaemonResponse::SetGpuMode { result, message } => {
            put_u8(&mut out, 23);
            put_bool(&mut out, *result);
            put_str(&mut out, message.as_str());
            assert(out@ =~= enc_response(resp@));
        },
    }
    out
}

fn take_resp_fields(tag: u8, b: &[u8], i: usize) -> (r: Option<(DaemonResponse, usize)>)
    requires
        i <= b@.len(),
    ensures
        match r {
            Some((resp, j)) => dec_resp_fields(tag, b@, i as int) == Some((resp@, j as int)) && i
                <= j <= b@.len(),
            None => dec_resp_fields(tag, b@, i as int) is None,
        },
{
    if tag == 0 {
        match take_bool(b, i) {
            Some((result, i)) => Some((DaemonResponse::SetFanSpeed { result }, i)),
            None => None,
        }
    } else if tag == 1 {
        match take_i32(b, i) {
            Some((rpm, i)) => Some((DaemonResponse::GetFanSpeed { rpm }, i)),
            None => None,
        }
    } else if tag == 2 {
        match take_bool(b, i) {
            Some((result, i)) => Some((DaemonResponse::SetPowerMode { result }, i)),
            None => None,
        }
    } else if tag == 3 {
        match take_u8(b, i) {
            Some((pwr, i)) => Some((DaemonResponse::GetPwrLevel { pwr }, i)),
            None => None,
        }
    } else if tag == 4 {
        match take_u8(b, i) {
            Some((cpu, i)) => Some((DaemonResponse::GetCPUBoost { cpu }, i)),
            None => None,
        }
    } else if tag == 5 {
        match take_u8(b, i) {
            Some((gpu, i)) => Some((DaemonResponse::GetGPUBoost { gpu }, i)),
            None => None,
        }
    } else if tag == 6 {
        match take_bool(b, i) {
            Some((result, i)) => Some((DaemonResponse::SetLogoLedState { result }, i)),
            None => None,
        }
    } else if tag == 7 {
        match take_u8(b, i) {
            Some((logo_state, i)) => Some((DaemonResponse::GetLogoLedState { logo_state }, i)),
            None => None,
        }
    } else if tag == 8 {
        match take_i32(b, i) {
            Some((layer, i)) => match take_bytes(b, i) {
                Some((rgbdata, i)) => Some((DaemonResponse::GetKeyboardRGB { layer, rgbdata }, i)),
                None => None,
            },
            None => None,
        }
    } else if tag == 9 {
        match take_bool(b, i) {
            Some((result, i)) => Some((DaemonResponse::SetEffect { result }, i)),
            None => None,
        }
    } else if tag == 10 {
        match take_bool(b, i) {
            Some((result, i)) => Some((DaemonResponse::SetStandardEffect { result }, i)),
            None => None,
        }
    } else if tag == 11 {
        match take_bool(b, i) {
            Some((result, i)) => Some((DaemonResponse::SetBrightness { result }, i)),
            None => None,
        }
    } else if tag == 12 {
        match take_bool(b, i) {
            Some((result, i)) => Some((DaemonResponse::SetIdle { result }, i)),
            None => None,
        }
    } else if tag == 13 {
        match take_u8(b, i) {
            Some((result, i)) => Some((DaemonResponse::GetBrightness { result }, i)),
            None => None,
        }
    } else if tag == 14 {
        match take_bool(b, i) {
            Some((result, i)) => Some((DaemonResponse::SetSync { result }, i)),
            None => None,
        }
    } else if tag == 15 {
        match take_bool(b, i) {
            Some((sync, i)) => Some((DaemonResponse::GetSync { sync }, i)),
            None => None,
        }
    } else if tag == 16 {
        match take_bool(b, i) {
            Some((result, i)) => Some((DaemonResponse::SetBatteryHealthOptimizer { result }, i)),
            None => None,
        }
    } else if tag == 17 {
        match take_bool(b, i) {
            Some((is_on, i)) => match take_u8(b, i) {
                Some((threshold, i)) => Some(
                    (DaemonResponse::GetBatteryHealthOptimizer { is_on, threshold }, i),
                ),
                None => None,
            },
            None => None,
        }
    } else if tag == 18 {
        match take_str(b, i) {
            Some((name, i)) => Some((DaemonResponse::GetDeviceName { name }, i)),
            None => None,
        }
    } else if tag == 19 {
        match take_i32(b, i) {
            Some((rpm, i)) => Some((DaemonResponse::GetActualFanRpm { rpm }, i)),
            None => None,
        }
    } else if tag == 20 {
        match take_u8(b, i) {
            Some((effect, i)) => match take_bytes(b, i) {
                Some((params, i)) => Some((DaemonResponse::GetStandardEffect { effect, params }, i)),
                None => None,
            },
            None => None,
        }
    } else if tag == 21 {
        match take_u64(b, i) {
            Some((n, i)) => match take_gpu_list(b, i, n) {
                Some((gpus, i)) => match take_bool(b, i) {
                    Some((dgpu_runtime_pm, i)) => match take_str(b, i) {
                        Some((envycontrol_mode, i)) => match take_bool(b, i) {
                            Some((envycontrol_available, i)) => Some(
                                (
                                    DaemonResponse::GetGpuStatus {
                                        gpus,
                                        dgpu_runtime_pm,
                                        envycontrol_mode,
                                        envycontrol_available,
                                    },
                                    i,
                                ),
                            ),
                            None => None,
                        },
                        None => None,
                    },
                    None => None,
                },
                None => None,
            },
            None => None,
        }
    } else if tag == 22 {
        match take_bool(b, i) {
            Some((result, i)) => Some((DaemonResponse::SetDgpuRuntimePM { result }, i)),
            None => None,
        }
    } else if tag == 23 {
        match take_bool(b, i) {
            Some((result, i)) => match take_str(b, i) {
                Some((message, i)) => Some((DaemonResponse::SetGpuMode { result, message }, i)),
                None => None,
            },
            None => None,
        }
    } else {
        None
    }
}

/// Round-trip law for responses: decoding an encoded response gives the
/// response back.  Together with the contracts of [`encode_response`] and
/// [`decode_response`] this pins the codec down.
#[verifier::rlimit(60)]
#[verifier::spinoff_prover]
pub proof fn lemma_response_round_trip(r: ResponseView)
    requires
        resp_fits(r),
    ensures
        dec_response(enc_response(r)) == Some(r),
{
    broadcast use group_enc_lens;

    let t = resp_tag(r);
    let f = enc_resp_fields(r);
    let b = enc_response(r);
    assert(b.subrange(0, 1) =~= enc_u8(t));
    lemma_dec_enc_u8(b, 0, t);
    assert(b.subrange(1, b.len() as int) =~= f);
    match r {
        ResponseView::SetFanSpeed { result } => {
            lemma_chunk(b, 1, f, 0, 1);
            assert(f.subrange(0, 1) =~= enc_bool(result));
            lemma_dec_enc_bool(b, 1, result);
        },
        ResponseView::GetFanSpeed { rpm } => {
            lemma_chunk(b, 1, f, 0, 4);
            assert(f.subrange(0, 4) =~= enc_i32(rpm));
            lemma_dec_enc_i32(b, 1, rpm);
        },
        ResponseView::SetPowerMode { result } => {
            lemma_chunk(b, 1, f, 0, 1);
            assert(f.subrange(0, 1) =~= enc_bool(result));
            lemma_dec_enc_bool(b, 1, result);
        },
        ResponseView::GetPwrLevel { pwr } => {
            lemma_chunk(b, 1, f, 0, 1);
            assert(f.subrange(0, 1) =~= enc_u8(pwr));
            lemma_dec_enc_u8(b, 1, pwr);
        },
        ResponseView::GetCPUBoost { cpu } => {
            lemma_chunk(b, 1, f, 0, 1);
            assert(f.subrange(0, 1) =~= enc_u8(cpu));
            lemma_dec_enc_u8(b, 1, cpu);
        },
        ResponseView::GetGPUBoost { gpu } => {
            lemma_chunk(b, 1, f, 0, 1);
            assert(f.subrange(0, 1) =~= enc_u8(gpu));
            lemma_dec_enc_u8(b, 1, gpu);
        },
        ResponseView::SetLogoLedState { result } => {
            lemma_chunk(b, 1, f, 0, 1);
            assert(f.subrange(0, 1) =~= enc_bool(result));
            lemma_dec_enc_bool(b, 1, result);
        },
        ResponseView::GetLogoLedState { logo_state } => {
            lemma_chunk(b, 1, f, 0, 1);
            assert(f.subrange(0, 1) =~= enc_u8(logo_state));
            lemma_dec_enc_u8(b, 1, logo_state);
        },
        ResponseView::GetKeyboardRGB { layer, rgbdata } => {
            let l2 = enc_bytes(rgbdata).len() as int;
            lemma_chunk(b, 1, f, 0, 4);
            assert(f.subrange(0, 4) =~= enc_i32(layer));
            lemma_dec_enc_i32(b, 1, layer);
            lemma_chunk(b, 1, f, 4, 4 + l2);
            assert(f.subrange(4, 4 + l2) =~= enc_bytes(rgbdata));
            lemma_dec_enc_bytes(b, 5, rgbdata);
        },
        ResponseView::SetEffect { result } => {
            lemma_chunk(b, 1, f, 0, 1);
            assert(f.subrange(0, 1) =~= enc_bool(result));
            lemma_dec_enc_bool(b, 1, result);
        },
        ResponseView::SetStandardEffect { result } => {
            lemma_chunk(b, 1, f, 0, 1);
            assert(f.subrange(0, 1) =~= enc_bool(result));
            lemma_dec_enc_bool(b, 1, result);
        },
        ResponseView::SetBrightness { result } => {
            lemma_chunk(b, 1, f, 0, 1);
            assert(f.subrange(0, 1) =~= enc_bool(result));
            lemma_dec_enc_bool(b, 1, result);
        },
        ResponseView::SetIdle { result } => {
            lemma_chunk(b, 1, f, 0, 1);
            assert(f.subrange(0, 1) =~= enc_bool(result));
            lemma_dec_enc_bool(b, 1, result);
        },
        ResponseView::GetBrightness { result } => {
            lemma_chunk(b, 1, f, 0, 1);
            assert(f.subrange(0, 1) =~= enc_u8(result));
            lemma_dec_enc_u8(b, 1, result);
        },
        ResponseView::SetSync { result } => {
            lemma_chunk(b, 1, f, 0, 1);
            assert(f.subrange(0, 1) =~= enc_bool(result));
            lemma_dec_enc_bool(b, 1, result);
        },
        ResponseView::GetSync { sync } => {
            lemma_chunk(b, 1, f, 0, 1);
            assert(f.subrange(0, 1) =~= enc_bool(sync));
            lemma_dec_enc_bool(b, 1, sync);
        },
        ResponseView::SetBatteryHealthOptimizer { result } => {
            lemma_chunk(b, 1, f, 0, 1);
            assert(f.subrange(0, 1) =~= enc_bool(result));
            lemma_dec_enc_bool(b, 1, result);
        },
        ResponseView::GetBatteryHealthOptimizer { is_on, threshold } => {
            lemma_chunk(b, 1, f, 0, 1);
            assert(f.subrange(0, 1) =~= enc_bool(is_on));
            lemma_dec_enc_bool(b, 1, is_on);
            lemma_chunk(b, 1, f, 1, 2);
            assert(f.subrange(1, 2) =~= enc_u8(threshold));
            lemma_dec_enc_u8(b, 2, threshold);
        },
        ResponseView::GetDeviceName { name } => {
            let l1 = enc_str(name).len() as int;
            lemma_chunk(b, 1, f, 0, l1);
            assert(f.subrange(0, l1) =~= enc_str(name));
            lemma_dec_enc_str(b, 1, name);
        },
        ResponseView::GetActualFanRpm { rpm } => {
            lemma_chunk(b, 1, f, 0, 4);
            assert(f.subrange(0, 4) =~= enc_i32(rpm));
            lemma_dec_enc_i32(b, 1, rpm);
        },
        ResponseView::GetStandardEffect { effect, params } => {
            let l2 = enc_bytes(params).len() as int;
            lemma_chunk(b, 1, f, 0, 1);
            assert(f.subrange(0, 1) =~= enc_u8(effect));
            lemma_dec_enc_u8(b, 1, effect);
            lemma_chunk(b, 1, f, 1, 1 + l2);
            assert(f.subrange(1, 1 + l2) =~= enc_bytes(params));
            lemma_dec_enc_bytes(b, 2, params);
        },
        ResponseView::GetGpuStatus {
            gpus,
            dgpu_runtime_pm,
            envycontrol_mode,
            envycontrol_available,
        } => {
            let n = gpus.len() as u64;
            let lg = enc_gpu_list(gpus).len() as int;
            let ls = enc_str(envycontrol_mode).len() as int;
            lemma_chunk(b, 1, f, 0, 8);
            assert(f.subrange(0, 8) =~= enc_u64(n));
            lemma_dec_enc_u64(b, 1, n);
            lemma_chunk(b, 1, f, 8, 8 + lg);
            assert(f.subrange(8, 8 + lg) =~= enc_gpu_list(gpus));
            lemma_dec_enc_gpu_list(b, 9, gpus);
            assert(n as nat == gpus.len());
            lemma_chunk(b, 1, f, 8 + lg, 8 + lg + 1);
            assert(f.subrange(8 + lg, 8 + lg + 1) =~= enc_bool(dgpu_runtime_pm));
            lemma_dec_enc_bool(b, 9 + lg, dgpu_runtime_pm);
            lemma_chunk(b, 1, f, 9 + lg, 9 + lg + ls);
            assert(f.subrange(9 + lg, 9 + lg + ls) =~= enc_str(envycontrol_mode));
            lemma_dec_enc_str(b, 10 + lg, envycontrol_mode);
            lemma_chunk(b, 1, f, 9 + lg + ls, 9 + lg + ls + 1);
            assert(f.subrange(9 + lg + ls, 9 + lg + ls + 1) =~= enc_bool(envycontrol_available));
            lemma_dec_enc_bool(b, 10 + lg + ls, envycontrol_available);
        },
        ResponseView::SetDgpuRuntimePM { result } => {
            lemma_chunk(b, 1, f, 0, 1);
            assert(f.subrange(0, 1) =~= enc_bool(result));
            lemma_dec_enc_bool(b, 1, result);
        },
        ResponseView::SetGpuMode { result, message } => {
            let l2 = enc_str(message).len() as int;
            lemma_chunk(b, 1, f, 0, 1);
            assert(f.subrange(0, 1) =~= enc_bool(result));
            lemma_dec_enc_bool(b, 1, result);
            lemma_chunk(b, 1, f, 1, 1 + l2);
            assert(f.subrange(1, 1 + l2) =~= enc_str(message));
            lemma_dec_enc_str(b, 2, message);
        },
    }
}

/// Deserialize a response.  `None` exactly when the bytes are not the
/// complete encoding of any response.
pub fn decode_response(b: &[u8]) -> (r: Option<DaemonResponse>)
    ensures
        match r {
            Some(resp) => dec_response(b@) == Some(resp@),
            None => dec_response(b@) is None,
        },
{
    match take_u8(b, 0) {
        Some((tag, i)) => match take_resp_fields(tag, b, i) {
            Some((resp, j)) => {
                if j == b.len() {
                    Some(resp)
                } else {
                    None
                }
            },
            None => None,
        },
        None => None,
    }
}

} // verus!
