use hda_nostd::codec::{
    encode_verb_long, encode_verb_short, pick_ring_size, CorbRirb, ExchangeStep, VERB_GET_PARAMETER,
};
use hda_nostd::registers::{CORBWP, RIRBSTS, RIRBWP};
use hda_nostd::script::{HwOp, Instr, Width};

#[test]
fn short_verb_layout() {
    assert_eq!(encode_verb_short(0, 1, VERB_GET_PARAMETER, 0x04), 0x001F_0004);
    assert_eq!(encode_verb_short(2, 0x14, 0x707, 0xC0), 0x2147_07C0);
}

#[test]
fn short_verb_masks_codec_and_verb() {
    assert_eq!(encode_verb_short(0x1F, 0x20, 0x1F00, 0xAB), 0xF20F_00AB);
}

#[test]
fn long_verb_layout() {
    assert_eq!(encode_verb_long(2, 3, 0x13, 0x1234), 0x2033_1234);
    assert_eq!(encode_verb_long(0, 2, 0x03, 0xB07F), 0x0023_B07F);
}

#[test]
fn ring_size_picks_largest_capability() {
    assert_eq!(pick_ring_size(0x4), (256, 0x02));
    assert_eq!(pick_ring_size(0x7), (256, 0x02));
    assert_eq!(pick_ring_size(0x2), (16, 0x01));
    assert_eq!(pick_ring_size(0x3), (16, 0x01));
    assert_eq!(pick_ring_size(0x1), (2, 0x00));
    assert_eq!(pick_ring_size(0x0), (2, 0x00));
}

#[test]
fn ring_buffers_follow_size_registers() {
    let cr = CorbRirb::new(0x1000, 0x42, 0x20);
    assert_eq!(cr.corb_buffer().len(), 256);
    assert_eq!(cr.rirb_buffer().len(), 16);
    assert!(cr.corb_buffer().iter().all(|&e| e == 0));
}

#[test]
fn ring_init_script_programs_both_rings() {
    let mut cr = CorbRirb::new(0x1000, 0x40, 0x40);
    let s = cr.init_script(0x1_2345_6000, 0x7000);
    assert_eq!(s.len(), 17);
    assert_eq!(s[0], Instr::Write { width: Width::W8, offset: 0x4C, value: 0 });
    assert_eq!(s[2], Instr::Write { width: Width::W32, offset: 0x40, value: 0x2345_6000 });
    assert_eq!(s[3], Instr::Write { width: Width::W32, offset: 0x44, value: 0x1 });
    assert_eq!(s[4], Instr::Write { width: Width::W8, offset: 0x4E, value: 0x42 });
    assert_eq!(s[5], Instr::Write { width: Width::W16, offset: 0x4A, value: 0x8000 });
    assert_eq!(s[15], Instr::Write { width: Width::W8, offset: 0x4C, value: 0x03 });
    assert_eq!(s[16], Instr::Write { width: Width::W8, offset: 0x5C, value: 0x03 });
}

fn io(step: ExchangeStep) -> HwOp {
    match step {
        ExchangeStep::Io(op) => op,
        ExchangeStep::Done(r) => panic!("exchange ended early with {:?}", r),
    }
}

#[test]
fn exchange_returns_solicited_response() {
    let mut cr = CorbRirb::new(0, 0x40, 0x40);
    let _ = cr.init_script(0x10_0000, 0x20_0000);
    let mut ex = cr.send_verb(0x000F_0000);
    assert_eq!(io(cr.exchange_step(&mut ex, 0)), HwOp::Read { width: Width::W16, offset: CORBWP });
    assert_eq!(io(cr.exchange_step(&mut ex, 0)), HwOp::StoreDma32 { addr: 0x10_0004, value: 0x000F_0000 });
    assert_eq!(io(cr.exchange_step(&mut ex, 0)), HwOp::Write { width: Width::W16, offset: CORBWP, value: 1 });
    assert_eq!(io(cr.exchange_step(&mut ex, 0)), HwOp::Read { width: Width::W16, offset: RIRBWP });
    assert_eq!(io(cr.exchange_step(&mut ex, 1)), HwOp::LoadDma64 { addr: 0x20_0008 });
    assert_eq!(io(cr.exchange_step(&mut ex, 0x10EC_0662)), HwOp::Write { width: Width::W8, offset: RIRBSTS, value: 1 });
    match cr.exchange_step(&mut ex, 0) {
        ExchangeStep::Done(r) => assert_eq!(r, Some(0x10EC_0662)),
        ExchangeStep::Io(op) => panic!("unexpected {:?}", op),
    }
}

#[test]
fn exchange_skips_unsolicited_response() {
    let mut cr = CorbRirb::new(0, 0x40, 0x40);
    let _ = cr.init_script(0x10_0000, 0x20_0000);
    let mut ex = cr.send_verb(0x1234_5678);
    io(cr.exchange_step(&mut ex, 0));
    io(cr.exchange_step(&mut ex, 255));
    io(cr.exchange_step(&mut ex, 0));
    io(cr.exchange_step(&mut ex, 0));
    io(cr.exchange_step(&mut ex, 1));
    io(cr.exchange_step(&mut ex, (0x10u64 << 32) | 0xAAAA));
    assert_eq!(io(cr.exchange_step(&mut ex, 0)), HwOp::Spin { count: 1 });
    assert_eq!(io(cr.exchange_step(&mut ex, 0)), HwOp::Read { width: Width::W16, offset: RIRBWP });
    // The read pointer moved to slot 1; a write pointer of 2 brings the next entry,
    // which is read from slot 2.
    assert_eq!(io(cr.exchange_step(&mut ex, 2)), HwOp::LoadDma64 { addr: 0x20_0010 });
    io(cr.exchange_step(&mut ex, 0x55));
    match cr.exchange_step(&mut ex, 0) {
        ExchangeStep::Done(r) => assert_eq!(r, Some(0x55)),
        ExchangeStep::Io(op) => panic!("unexpected {:?}", op),
    }
}

#[test]
fn exchange_wraps_corb_write_pointer() {
    let mut cr = CorbRirb::new(0, 0x10, 0x10);
    let _ = cr.init_script(0x1000, 0x2000);
    let mut ex = cr.send_verb(7);
    io(cr.exchange_step(&mut ex, 0));
    assert_eq!(io(cr.exchange_step(&mut ex, 1)), HwOp::StoreDma32 { addr: 0x1000, value: 7 });
}

#[test]
fn exchange_times_out_without_response() {
    let mut cr = CorbRirb::new(0, 0x40, 0x40);
    let _ = cr.init_script(0x10_0000, 0x20_0000);
    let mut ex = cr.send_verb(1);
    io(cr.exchange_step(&mut ex, 0));
    io(cr.exchange_step(&mut ex, 0));
    io(cr.exchange_step(&mut ex, 0));
    let mut polls = 0u32;
    loop {
        match cr.exchange_step(&mut ex, 0) {
            ExchangeStep::Io(HwOp::Read { .. }) => {
                polls += 1;
            }
            ExchangeStep::Io(_) => {}
            ExchangeStep::Done(r) => {
                assert_eq!(r, None);
                break;
            }
        }
    }
    assert_eq!(polls, 100_000);
}

#[test]
fn parameter_helpers_encode_their_verbs() {
    let cr = CorbRirb::new(0, 0, 0);
    assert_eq!(cr.get_parameter(1, 2, 0x09).verb, 0x102F_0009);
    assert_eq!(cr.get_verb(0, 0x14, 0xF1C, 0).verb, 0x014F_1C00);
    assert_eq!(cr.set_verb(0, 0x01, 0x705, 0).verb, 0x0017_0500);
    assert_eq!(cr.send_verb_long(0, 0x02, 0x02, 0x0011).verb, 0x0022_0011);
}

#[test]
fn long_verb_exchange_is_the_exchange_of_its_encoding() {
    let mut a = CorbRirb::new(0, 0x40, 0x40);
    let _ = a.init_script(0x10_0000, 0x20_0000);
    let mut b = CorbRirb::new(0, 0x40, 0x40);
    let _ = b.init_script(0x10_0000, 0x20_0000);
    let mut x = a.send_verb_long(0, 2, 0x03, 0xB07F);
    let mut y = b.send_verb(encode_verb_long(0, 2, 0x03, 0xB07F));
    assert_eq!(x.verb, y.verb);
    let reads = [0u64, 0, 0, 0, 1, 0x99, 0];
    for &input in reads.iter() {
        match (a.exchange_step(&mut x, input), b.exchange_step(&mut y, input)) {
            (ExchangeStep::Io(p), ExchangeStep::Io(q)) => assert_eq!(p, q),
            (ExchangeStep::Done(p), ExchangeStep::Done(q)) => {
                assert_eq!(p, q);
                assert_eq!(p, Some(0x99));
            }
            _ => panic!("the exchanges parted"),
        }
    }
}
