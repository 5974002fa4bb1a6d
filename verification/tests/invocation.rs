use sel4_sys::invocation::{
    null_registers, nbsend_recv_registers, receive_results, recv_registers, reply_registers,
    send_null_registers, send_recv_registers, send_registers,
};
use sel4_sys::types::Word;

#[test]
fn send_writes_all_message_registers() {
    let f = send_registers(Word(10), Word(11), Word(12), Word(1), Word(2), Word(3), Word(4));
    assert_eq!(f.cap_reg, Some(Word(11)));
    assert_eq!(f.info_reg, Some(Word(12)));
    assert_eq!(f.mr0_reg, Some(Word(1)));
    assert_eq!(f.mr1_reg, Some(Word(2)));
    assert_eq!(f.mr2_reg, Some(Word(3)));
    assert_eq!(f.mr3_reg, Some(Word(4)));
    assert_eq!(f.reply_reg, None);
    assert_eq!(f.dest2_reg, None);
    assert_eq!(f.sys_reg, Word(10));
}

#[test]
fn reply_omits_the_capability_address_register() {
    let f = reply_registers(Word(20), Word(21), Word(5), Word(6), Word(7), Word(8));
    assert_eq!(f.cap_reg, None);
    assert_eq!(f.info_reg, Some(Word(21)));
    assert_eq!(f.mr0_reg, Some(Word(5)));
    assert_eq!(f.mr3_reg, Some(Word(8)));
    assert_eq!(f.sys_reg, Word(20));
}

#[test]
fn metadata_only_send_never_touches_data_registers() {
    let f = send_null_registers(Word(30), Word(31), Word(32));
    assert_eq!(f.cap_reg, Some(Word(31)));
    assert_eq!(f.info_reg, Some(Word(32)));
    assert_eq!(f.mr0_reg, None);
    assert_eq!(f.mr1_reg, None);
    assert_eq!(f.mr2_reg, None);
    assert_eq!(f.mr3_reg, None);
    assert_eq!(f.reply_reg, None);
    assert_eq!(f.dest2_reg, None);
    assert_eq!(f.sys_reg, Word(30));
}

#[test]
fn recv_writes_only_source_and_syscall_number() {
    let f = recv_registers(Word(40), Word(41));
    assert_eq!(f.cap_reg, Some(Word(41)));
    assert_eq!(f.info_reg, None);
    assert_eq!(f.mr0_reg, None);
    assert_eq!(f.mr1_reg, None);
    assert_eq!(f.mr2_reg, None);
    assert_eq!(f.mr3_reg, None);
    assert_eq!(f.sys_reg, Word(40));
}

#[test]
fn send_recv_reports_post_trap_registers_not_stale_inputs() {
    let dest = Word(77);
    let info = Word(0x1234);
    let f = send_recv_registers(Word(50), dest, info, Word(1), Word(2), Word(3), Word(4));
    assert_eq!(f.cap_reg, Some(dest));
    assert_eq!(f.info_reg, Some(info));
    assert_eq!(f.mr0_reg, Some(Word(1)));
    assert_eq!(f.mr3_reg, Some(Word(4)));
    assert_eq!(f.reply_reg, None);
    assert_eq!(f.sys_reg, Word(50));

    // The trap overwrites the same registers in place; the engine must hand
    // back what it observes after the trap, not the values sent.
    let mut out_badge = Word(0);
    let mut out_info = Word(0);
    let mut out_mr0 = Word(0);
    let mut out_mr1 = Word(0);
    let mut out_mr2 = Word(0);
    let mut out_mr3 = Word(0);
    receive_results(
        dest, Word(0x9999), Word(101), Word(102), Word(103), Word(104),
        &mut out_badge, &mut out_info,
        &mut out_mr0, &mut out_mr1, &mut out_mr2, &mut out_mr3,
    );
    assert_eq!(out_badge, dest);
    assert_eq!(out_info, Word(0x9999));
    assert_eq!(out_mr0, Word(101));
    assert_eq!(out_mr1, Word(102));
    assert_eq!(out_mr2, Word(103));
    assert_eq!(out_mr3, Word(104));
}

#[test]
fn extended_shape_threads_reply_capability_through_its_own_register() {
    let f = nbsend_recv_registers(
        Word(60), Word(61), Word(62), Word(63),
        Word(1), Word(2), Word(3), Word(4), Word(64),
    );
    assert_eq!(f.cap_reg, Some(Word(62)));
    assert_eq!(f.dest2_reg, Some(Word(61)));
    assert_eq!(f.info_reg, Some(Word(63)));
    assert_eq!(f.mr0_reg, Some(Word(1)));
    assert_eq!(f.mr3_reg, Some(Word(4)));
    assert_eq!(f.reply_reg, Some(Word(64)));
    assert_eq!(f.sys_reg, Word(60));
}

#[test]
fn null_call_writes_the_syscall_number_alone() {
    let f = null_registers(Word(70));
    assert_eq!(f.cap_reg, None);
    assert_eq!(f.info_reg, None);
    assert_eq!(f.mr0_reg, None);
    assert_eq!(f.mr1_reg, None);
    assert_eq!(f.mr2_reg, None);
    assert_eq!(f.mr3_reg, None);
    assert_eq!(f.reply_reg, None);
    assert_eq!(f.dest2_reg, None);
    assert_eq!(f.sys_reg, Word(70));
}

#[test]
fn badge_is_aliased_from_the_overwritten_address_register() {
    // A receive observes the sender's badge in the very register that held
    // the source address before the trap.
    let mut out_badge = Word(0);
    let mut out_info = Word(0);
    let mut out_mr0 = Word(0);
    let mut out_mr1 = Word(0);
    let mut out_mr2 = Word(0);
    let mut out_mr3 = Word(0);
    receive_results(
        Word(0xBADD), Word(5), Word(6), Word(7), Word(8), Word(9),
        &mut out_badge, &mut out_info,
        &mut out_mr0, &mut out_mr1, &mut out_mr2, &mut out_mr3,
    );
    assert_eq!(out_badge, Word(0xBADD));
    assert_eq!(out_info, Word(5));
}
