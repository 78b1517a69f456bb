use adc_pwm::adc::{
    channel_count, chip_address, command_byte, finish_sample, reads_per_sample, sample_ops,
    AdcError, BusOp, ProtocolKind, Sampler, CHIP_A_ADDR, CHIP_B_ADDR,
};

#[test]
fn chip_a_command_bytes() {
    for c in 0..4u8 {
        assert_eq!(command_byte(ProtocolKind::ChipA, c), Ok(0x40 | c));
    }
    assert_eq!(command_byte(ProtocolKind::ChipA, 2), Ok(0x42));
}

#[test]
fn chip_a_rejects_channel_four() {
    assert_eq!(command_byte(ProtocolKind::ChipA, 4), Err(AdcError::InvalidChannel(4)));
}

#[test]
fn chip_b_command_table() {
    let expected = [0x84u8, 0xc4, 0x94, 0xd4, 0xa4, 0xe4, 0xb4, 0xf4];
    for c in 0..8u8 {
        assert_eq!(command_byte(ProtocolKind::ChipB, c), Ok(expected[c as usize]));
    }
    let mut seen = expected.to_vec();
    seen.sort();
    seen.dedup();
    assert_eq!(seen.len(), 8);
}

#[test]
fn chip_b_rejects_channel_eight() {
    assert_eq!(command_byte(ProtocolKind::ChipB, 8), Err(AdcError::InvalidChannel(8)));
    assert_eq!(command_byte(ProtocolKind::ChipB, 255), Err(AdcError::InvalidChannel(255)));
}

#[test]
fn chip_facts() {
    assert_eq!(chip_address(ProtocolKind::ChipA), 0x48);
    assert_eq!(chip_address(ProtocolKind::ChipB), 0x4b);
    assert_eq!(channel_count(ProtocolKind::ChipA), 4);
    assert_eq!(channel_count(ProtocolKind::ChipB), 8);
    assert_eq!(reads_per_sample(ProtocolKind::ChipA), 2);
    assert_eq!(reads_per_sample(ProtocolKind::ChipB), 1);
}

#[test]
fn chip_a_ops_read_twice() {
    assert_eq!(
        sample_ops(ProtocolKind::ChipA, 1),
        Ok(vec![BusOp::SetAddress(CHIP_A_ADDR), BusOp::Write(0x41), BusOp::Read, BusOp::Read])
    );
}

#[test]
fn chip_b_ops_read_once() {
    assert_eq!(
        sample_ops(ProtocolKind::ChipB, 2),
        Ok(vec![BusOp::SetAddress(CHIP_B_ADDR), BusOp::Write(0x94), BusOp::Read])
    );
    assert_eq!(sample_ops(ProtocolKind::ChipB, 9), Err(AdcError::InvalidChannel(9)));
}

#[test]
fn chip_a_discards_first_read() {
    assert_eq!(finish_sample(ProtocolKind::ChipA, &vec![17, 200]), Some(200));
    assert_eq!(finish_sample(ProtocolKind::ChipA, &vec![17]), None);
}

#[test]
fn chip_b_keeps_single_read() {
    assert_eq!(finish_sample(ProtocolKind::ChipB, &vec![99]), Some(99));
    assert_eq!(finish_sample(ProtocolKind::ChipB, &vec![]), None);
}

#[test]
fn sampler_starts_at_zero() {
    let s = Sampler::new(ProtocolKind::ChipB, vec![0, 1, 2]).unwrap();
    assert_eq!(s.len(), 3);
    for i in 0..3 {
        assert_eq!(s.duty(i), 0);
    }
    assert_eq!(s.kind(), ProtocolKind::ChipB);
    assert_eq!(s.ops(2), sample_ops(ProtocolKind::ChipB, 2).unwrap());
}

#[test]
fn sampler_rejects_first_bad_channel() {
    assert!(matches!(
        Sampler::new(ProtocolKind::ChipA, vec![0, 5, 7]),
        Err(AdcError::InvalidChannel(5))
    ));
}

#[test]
fn failed_read_keeps_previous_duty() {
    let mut s = Sampler::new(ProtocolKind::ChipA, vec![0, 1, 2]).unwrap();
    s.record(0, &vec![3, 120]);
    s.record(1, &vec![3, 60]);
    assert_eq!(s.duty(0), 120);
    s.record(0, &vec![9]);
    assert_eq!(s.duty(0), 120);
    assert_eq!(s.duty(1), 60);
    s.record(0, &vec![9, 30]);
    assert_eq!(s.duty(0), 30);
}
