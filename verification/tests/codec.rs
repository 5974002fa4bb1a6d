use sel4_sys::codec::{CNode_CapData, CapRights, MessageInfo};

#[test]
fn message_info_default_decodes_zero() {
    let w = MessageInfo::default();
    assert_eq!(w.label(), 0);
    assert_eq!(w.capsUnwrapped(), 0);
    assert_eq!(w.extraCaps(), 0);
    assert_eq!(w.length(), 0);
    assert_eq!(w.bits(), 0);
}

#[test]
fn cap_rights_default_decodes_zero() {
    let r = CapRights::default();
    assert_eq!(r.capAllowGrantReply(), 0);
    assert_eq!(r.capAllowGrant(), 0);
    assert_eq!(r.capAllowRead(), 0);
    assert_eq!(r.capAllowWrite(), 0);
    assert_eq!(r.bits(), 0);
}

#[test]
fn cap_data_default_decodes_zero() {
    let d = CNode_CapData::default();
    assert_eq!(d.guard(), 0);
    assert_eq!(d.guardSize(), 0);
    assert_eq!(d.bits(), 0);
}

#[test]
fn label_round_trips_and_preserves_other_fields() {
    let w = MessageInfo::default()
        .set_capsUnwrapped(5).unwrap()
        .set_extraCaps(2).unwrap()
        .set_length(0x44).unwrap();
    let w2 = w.set_label(0xABC).unwrap();
    assert_eq!(w2.label(), 0xABC);
    assert_eq!(w2.capsUnwrapped(), 5);
    assert_eq!(w2.extraCaps(), 2);
    assert_eq!(w2.length(), 0x44);
}

#[test]
fn message_info_fields_accept_their_maxima() {
    let w = MessageInfo::default()
        .set_label(0xfffffffffffff).unwrap()
        .set_capsUnwrapped(0x7).unwrap()
        .set_extraCaps(0x3).unwrap()
        .set_length(0x7f).unwrap();
    assert_eq!(w.label(), 0xfffffffffffff);
    assert_eq!(w.capsUnwrapped(), 0x7);
    assert_eq!(w.extraCaps(), 0x3);
    assert_eq!(w.length(), 0x7f);
    assert_eq!(w.bits(), u64::MAX);
}

#[test]
fn message_info_rejects_out_of_range_values_unchanged() {
    let w = MessageInfo::default().set_label(0x123).unwrap();

    let (back, _) = w.set_label(0xfffffffffffff + 1).unwrap_err();
    assert_eq!(back.bits(), w.bits());

    let (back, _) = w.set_capsUnwrapped(0x8).unwrap_err();
    assert_eq!(back.bits(), w.bits());

    let (back, _) = w.set_extraCaps(0x4).unwrap_err();
    assert_eq!(back.bits(), w.bits());

    let (back, _) = w.set_length(0x80).unwrap_err();
    assert_eq!(back.bits(), w.bits());
}

#[test]
fn message_info_disjoint_packs_commute() {
    let one = MessageInfo::default().set_label(0x99).unwrap().set_length(0x21).unwrap();
    let other = MessageInfo::default().set_length(0x21).unwrap().set_label(0x99).unwrap();
    assert_eq!(one, other);
    assert_eq!(one.bits(), other.bits());

    let one = MessageInfo::default().set_capsUnwrapped(6).unwrap().set_extraCaps(1).unwrap();
    let other = MessageInfo::default().set_extraCaps(1).unwrap().set_capsUnwrapped(6).unwrap();
    assert_eq!(one.bits(), other.bits());
}

#[test]
fn call_metadata_word_example() {
    let w = MessageInfo::default()
        .set_label(0xABCDEF).unwrap()
        .set_length(0x7F).unwrap()
        .set_extraCaps(0x3).unwrap();
    assert_eq!(w.label(), 0xABCDEF);
    assert_eq!(w.length(), 0x7F);
    assert_eq!(w.extraCaps(), 0x3);
    assert_eq!(w.capsUnwrapped(), 0);
}

#[test]
fn message_info_bit_positions() {
    // Label occupies the top 52 bits; the low 12 hold the three small fields.
    let w = MessageInfo::default().set_label(1).unwrap();
    assert_eq!(w.bits(), 1u64 << 12);
    let w = MessageInfo::default().set_capsUnwrapped(1).unwrap();
    assert_eq!(w.bits(), 1u64 << 9);
    let w = MessageInfo::default().set_extraCaps(1).unwrap();
    assert_eq!(w.bits(), 1u64 << 7);
    let w = MessageInfo::default().set_length(1).unwrap();
    assert_eq!(w.bits(), 1u64);
}

#[test]
fn message_info_from_bits_decodes_a_received_word() {
    let w = MessageInfo::from_bits((0xABCDEF << 12) | (0x5 << 9) | (0x2 << 7) | 0x31);
    assert_eq!(w.label(), 0xABCDEF);
    assert_eq!(w.capsUnwrapped(), 0x5);
    assert_eq!(w.extraCaps(), 0x2);
    assert_eq!(w.length(), 0x31);
}

#[test]
fn access_rights_mask_example() {
    let r = CapRights::default()
        .set_capAllowGrant(1).unwrap()
        .set_capAllowRead(1).unwrap();
    assert_eq!(r.bits(), 0b0110);
    let decoded = CapRights::from_bits(r.bits());
    assert_eq!(decoded.capAllowGrant(), 1);
    assert_eq!(decoded.capAllowRead(), 1);
    assert_eq!(decoded.capAllowWrite(), 0);
    assert_eq!(decoded.capAllowGrantReply(), 0);
}

#[test]
fn cap_rights_round_trip_and_rejection() {
    let r = CapRights::default()
        .set_capAllowGrantReply(1).unwrap()
        .set_capAllowWrite(1).unwrap();
    assert_eq!(r.bits(), 0b1001);
    assert_eq!(r.capAllowGrantReply(), 1);
    assert_eq!(r.capAllowWrite(), 1);

    let (back, _) = r.set_capAllowGrantReply(2).unwrap_err();
    assert_eq!(back.bits(), 0b1001);
    let (back, _) = r.set_capAllowGrant(2).unwrap_err();
    assert_eq!(back.bits(), 0b1001);
    let (back, _) = r.set_capAllowRead(2).unwrap_err();
    assert_eq!(back.bits(), 0b1001);
    let (back, _) = r.set_capAllowWrite(2).unwrap_err();
    assert_eq!(back.bits(), 0b1001);
}

#[test]
fn cap_rights_disjoint_packs_commute() {
    let one = CapRights::default().set_capAllowRead(1).unwrap().set_capAllowWrite(1).unwrap();
    let other = CapRights::default().set_capAllowWrite(1).unwrap().set_capAllowRead(1).unwrap();
    assert_eq!(one, other);
    assert_eq!(one.bits(), 0b0011);
}

#[test]
fn guard_data_round_trips_and_preserves_other_field() {
    let d = CNode_CapData::default()
        .set_guard(0xDEAD).unwrap()
        .set_guardSize(16).unwrap();
    assert_eq!(d.guard(), 0xDEAD);
    assert_eq!(d.guardSize(), 16);
    assert_eq!(d.bits(), (0xDEAD << 6) | 16);
}

#[test]
fn guard_data_accepts_maxima_and_rejects_over() {
    let d = CNode_CapData::default()
        .set_guard(0x3ffffffffffffff).unwrap()
        .set_guardSize(0x3f).unwrap();
    assert_eq!(d.guard(), 0x3ffffffffffffff);
    assert_eq!(d.guardSize(), 0x3f);
    assert_eq!(d.bits(), u64::MAX);

    let (back, _) = d.set_guard(0x3ffffffffffffff + 1).unwrap_err();
    assert_eq!(back.bits(), u64::MAX);
    let (back, _) = d.set_guardSize(0x40).unwrap_err();
    assert_eq!(back.bits(), u64::MAX);
}

#[test]
fn guard_data_disjoint_packs_commute() {
    let one = CNode_CapData::default().set_guard(0x77).unwrap().set_guardSize(9).unwrap();
    let other = CNode_CapData::default().set_guardSize(9).unwrap().set_guard(0x77).unwrap();
    assert_eq!(one, other);
}
