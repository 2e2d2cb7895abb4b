use rust_td::tdx::{
    page_accept_action, tdcall_accept_page, tdcall_accept_page_status, tdcall_completion,
    tdcall_extend_rtmr, tdcall_get_td_info, tdcall_get_ve_info, tdvmcall_completion,
    tdvmcall_halt, tdvmcall_io_read_8, tdvmcall_io_read_8_completion, tdvmcall_io_write_8,
    PageAcceptStatus, TdCallArgs, TdCallBuffer, TdVmCallArgs, TdxAction,
    TDX_EXIT_REASON_PAGE_ALREADY_ACCEPTED,
};

#[test]
fn vmcall_requests() {
    assert_eq!(
        tdvmcall_halt(),
        TdVmCallArgs { leaf: 0xc, p1: 0, p2: 0, p3: 0, p4: 0, has_output: false }
    );
    assert_eq!(
        tdvmcall_io_read_8(0x3f8),
        TdVmCallArgs { leaf: 0x1e, p1: 1, p2: 0, p3: 0x3f8, p4: 0, has_output: true }
    );
    assert_eq!(
        tdvmcall_io_write_8(0x3f8, b'A'),
        TdVmCallArgs { leaf: 0x1e, p1: 1, p2: 1, p3: 0x3f8, p4: 0x41, has_output: false }
    );
}

#[test]
fn tdcall_requests() {
    assert_eq!(
        tdcall_get_td_info(),
        TdCallArgs { leaf: 1, p1: 0, p2: 0, p3: 0, results: 0, buffer: TdCallBuffer::InResults }
    );
    assert_eq!(
        tdcall_extend_rtmr(2),
        TdCallArgs { leaf: 2, p1: 0, p2: 2, p3: 0, results: 0, buffer: TdCallBuffer::InP1 }
    );
    assert_eq!(
        tdcall_get_ve_info(),
        TdCallArgs { leaf: 3, p1: 0, p2: 0, p3: 0, results: 0, buffer: TdCallBuffer::InResults }
    );
    assert_eq!(
        tdcall_accept_page(0x8000_0000),
        TdCallArgs {
            leaf: 6,
            p1: 0x8000_0000,
            p2: 0,
            p3: 0,
            results: 0,
            buffer: TdCallBuffer::NoBuffer
        }
    );
}

#[test]
fn completions_halt_on_error() {
    assert_eq!(tdvmcall_completion(0), TdxAction::Continue);
    assert_eq!(tdvmcall_completion(1), TdxAction::Halt);
    assert_eq!(tdcall_completion(0), TdxAction::Continue);
    assert_eq!(tdcall_completion(0xC000_0100_0000_0000), TdxAction::Halt);
}

#[test]
fn io_read_keeps_low_byte() {
    assert_eq!(tdvmcall_io_read_8_completion(0, 0x1234), (TdxAction::Continue, 0x34));
    assert_eq!(tdvmcall_io_read_8_completion(5, 0xff), (TdxAction::Halt, 0xff));
}

#[test]
fn accept_page_statuses() {
    assert_eq!(tdcall_accept_page_status(0), PageAcceptStatus::Accepted);
    assert_eq!(
        tdcall_accept_page_status(TDX_EXIT_REASON_PAGE_ALREADY_ACCEPTED),
        PageAcceptStatus::AlreadyAccepted
    );
    assert_eq!(tdcall_accept_page_status(0x0000_0B0A_0000_0001), PageAcceptStatus::AlreadyAccepted);
    assert_eq!(tdcall_accept_page_status(0x0000_0B0A_0000_00ff), PageAcceptStatus::AlreadyAccepted);
    assert_eq!(tdcall_accept_page_status(0x0000_0B0A_0000_0100), PageAcceptStatus::Failed);
    assert_eq!(tdcall_accept_page_status(0x0000_0B0B_0000_0000), PageAcceptStatus::Failed);
    assert_eq!(tdcall_accept_page_status(1), PageAcceptStatus::Failed);
    assert_eq!(page_accept_action(PageAcceptStatus::Accepted), TdxAction::Continue);
    assert_eq!(page_accept_action(PageAcceptStatus::AlreadyAccepted), TdxAction::Continue);
    assert_eq!(page_accept_action(PageAcceptStatus::Failed), TdxAction::Halt);
}
