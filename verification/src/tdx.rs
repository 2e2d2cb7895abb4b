//! The TDCALL and TDVMCALL interface: which leaf and operands each request carries, and
//! what the status that comes back means.
use vstd::prelude::*;

verus! {

/// TDCALL leaf: read the TD execution environment information.
pub const TDCALL_TDINFO: u64 = 1;
/// TDCALL leaf: extend a runtime measurement register.
pub const TDCALL_TDEXTENDRTMR: u64 = 2;
/// TDCALL leaf: read the virtualization exception information.
pub const TDCALL_TDGETVEINFO: u64 = 3;
/// TDCALL leaf: accept a pending private page.
pub const TDCALL_TDACCEPTPAGE: u64 = 6;

/// TDVMCALL sub-function: halt the virtual CPU.
pub const TDVMCALL_HALT: u64 = 0x0000c;
/// TDVMCALL sub-function: port I/O.
pub const TDVMCALL_IO: u64 = 0x0001e;

/// Direction operand of a port I/O request: read.
pub const IO_READ: u64 = 0;
/// Direction operand of a port I/O request: write.
pub const IO_WRITE: u64 = 1;

/// TDCALL completion status: success.
pub const TDX_EXIT_REASON_SUCCESS: u64 = 0;
/// TDCALL completion status (bits 63..8): the page was already accepted.
pub const TDX_EXIT_REASON_PAGE_ALREADY_ACCEPTED: u64 = 0x00000B0A00000000;

/// TDVMCALL completion status: success.
pub const TDVMCALL_STATUS_SUCCESS: u64 = 0;

pub const EXIT_REASON_CPUID: u32 = 10;
pub const EXIT_REASON_HLT: u32 = 12;
pub const EXIT_REASON_IO_INSTRUCTION: u32 = 30;
pub const EXIT_REASON_MSR_READ: u32 = 31;
pub const EXIT_REASON_MSR_WRITE: u32 = 32;
pub const EXIT_REASON_EPT_VIOLATION: u32 = 48;
pub const EXIT_REASON_VMCALL: u32 = 18;
pub const EXIT_REASON_MWAIT_INSTRUCTION: u32 = 36;
pub const EXIT_REASON_MONITOR_INSTRUCTION: u32 = 39;
pub const EXIT_REASON_WBINVD: u32 = 54;
pub const EXIT_REASON_RDPMC: u32 = 15;

/// A SHA-384 digest handed to the TDX module (the module reads it from a 64-byte aligned
/// buffer).
#[derive(Clone, Copy, Debug, PartialEq, Eq)]
pub struct TdxDigest {
    pub data: [u8; 48],
}

/// Generic output buffer of a TDCALL.
#[derive(Clone, Copy, Debug, PartialEq, Eq)]
pub struct TdCallGenericReturnData {
    pub data: [u64; 6],
}

/// Output of TDCALL[TDINFO].
#[derive(Clone, Copy, Debug, PartialEq, Eq)]
pub struct TdInfoReturnData {
    pub gpaw: u64,
    pub attributes: u64,
    pub max_vcpus: u32,
    pub num_vcpus: u32,
    pub rsvd: [u64; 3],
}

/// Output of TDCALL[TDGETVEINFO].
#[derive(Clone, Copy, Debug, PartialEq, Eq)]
pub struct TdVeInfoReturnData {
    pub exit_reason: u32,
    pub rsvd: u32,
    pub exit_qualification: u64,
    pub guest_la: u64,
    pub guest_pa: u64,
    pub exit_instruction_length: u32,
    pub exit_instruction_info: u32,
    pub rsvd1: u64,
}

/// Which operand of a TDCALL carries the address of its memory buffer.
#[derive(Clone, Copy, Debug, PartialEq, Eq, Structural)]
pub enum TdCallBuffer {
    /// The call takes no buffer.
    NoBuffer,
    /// The first parameter holds the address of the buffer that the module reads.
    InP1,
    /// The results operand holds the address of the buffer that the module fills.
    InResults,
}

/// Operands of one TDCALL: the leaf, three parameters and the results operand. The operand
/// that `buffer` names is zero here; the caller puts the buffer's address there.
#[derive(Clone, Copy, Debug, PartialEq, Eq, Structural)]
pub struct TdCallArgs {
    pub leaf: u64,
    pub p1: u64,
    pub p2: u64,
    pub p3: u64,
    pub results: u64,
    pub buffer: TdCallBuffer,
}

/// Operands of one TDVMCALL: the sub-function and four parameters, and whether the host
/// hands a value back through an output buffer.
#[derive(Clone, Copy, Debug, PartialEq, Eq, Structural)]
pub struct TdVmCallArgs {
    pub leaf: u64,
    pub p1: u64,
    pub p2: u64,
    pub p3: u64,
    pub p4: u64,
    pub has_output: bool,
}

/// What the caller does once a call has completed.
#[derive(Clone, Copy, Debug, PartialEq, Eq, Structural)]
pub enum TdxAction {
    Continue,
    /// The call failed: halt the virtual CPU.
    Halt,
}

/// Outcome of accepting a page.
#[derive(Clone, Copy, Debug, PartialEq, Eq, Structural)]
pub enum PageAcceptStatus {
    Accepted,
    AlreadyAccepted,
    Failed,
}

/// The action that follows a completion status, given the status that means success.
pub open spec fn action_for_status(ret: u64, success: u64) -> TdxAction {
    if ret == success {
        TdxAction::Continue
    } else {
        TdxAction::Halt
    }
}

/// Whether a TDCALL status says that the page was accepted before (bits 7..0 ignored).
pub open spec fn is_page_already_accepted(ret: u64) -> bool {
    (ret & !0xffu64) == TDX_EXIT_REASON_PAGE_ALREADY_ACCEPTED
}

/// What a TDCALL[TDACCEPTPAGE] status means.
pub open spec fn page_accept_status(ret: u64) -> PageAcceptStatus {
    if ret == TDX_EXIT_REASON_SUCCESS {
        PageAcceptStatus::Accepted
    } else if is_page_already_accepted(ret) {
        PageAcceptStatus::AlreadyAccepted
    } else {
        PageAcceptStatus::Failed
    }
}

/// Request that halts the virtual CPU.
pub fn tdvmcall_halt() -> (args: TdVmCallArgs)
    ensures
        args == (TdVmCallArgs { leaf: TDVMCALL_HALT, p1: 0, p2: 0, p3: 0, p4: 0, has_output: false }),
{
    TdVmCallArgs { leaf: TDVMCALL_HALT, p1: 0, p2: 0, p3: 0, p4: 0, has_output: false }
}

/// Request that reads one byte from I/O port `port`.
pub fn tdvmcall_io_read_8(port: u16) -> (args: TdVmCallArgs)
    ensures
        args == (TdVmCallArgs {
            leaf: TDVMCALL_IO,
            p1: 1,
            p2: IO_READ,
            p3: port as u64,
            p4: 0,
            has_output: true,
        }),
{
    TdVmCallArgs { leaf: TDVMCALL_IO, p1: 1, p2: IO_READ, p3: port as u64, p4: 0, has_output: true }
}

/// Request that writes `byte` to I/O port `port`.
pub fn tdvmcall_io_write_8(port: u16, byte: u8) -> (args: TdVmCallArgs)
    ensures
        args == (TdVmCallArgs {
            leaf: TDVMCALL_IO,
            p1: 1,
            p2: IO_WRITE,
            p3: port as u64,
            p4: byte as u64,
            has_output: false,
        }),
{
    TdVmCallArgs {
        leaf: TDVMCALL_IO,
        p1: 1,
        p2: IO_WRITE,
        p3: port as u64,
        p4: byte as u64,
        has_output: false,
    }
}

/// What follows a TDVMCALL that returned status `ret`: halt unless it succeeded.
pub fn tdvmcall_completion(ret: u64) -> (action: TdxAction)
    ensures
        action == action_for_status(ret, TDVMCALL_STATUS_SUCCESS),
        action == TdxAction::Continue <==> ret == 0,
        action == TdxAction::Halt <==> ret != 0,
{
    if ret != TDVMCALL_STATUS_SUCCESS {
        TdxAction::Halt
    } else {
        TdxAction::Continue
    }
}

/// Completion of a one-byte port read: the action that follows status `ret`, and the byte
/// read, which is the low byte of the output value `val` (returned also after a failure).
pub fn tdvmcall_io_read_8_completion(ret: u64, val: u64) -> (result: (TdxAction, u8))
    ensures
        result.0 == action_for_status(ret, TDVMCALL_STATUS_SUCCESS),
        result.0 == TdxAction::Continue <==> ret == 0,
        result.0 == TdxAction::Halt <==> ret != 0,
        result.1 == val % 256,
{
    let action = tdvmcall_completion(ret);
    (action, (val % 256) as u8)
}

/// Request for the TD execution environment information; the module fills a
/// `TdInfoReturnData` buffer.
pub fn tdcall_get_td_info() -> (args: TdCallArgs)
    ensures
        args == (TdCallArgs {
            leaf: TDCALL_TDINFO,
            p1: 0,
            p2: 0,
            p3: 0,
            results: 0,
            buffer: TdCallBuffer::InResults,
        }),
{
    TdCallArgs { leaf: TDCALL_TDINFO, p1: 0, p2: 0, p3: 0, results: 0, buffer: TdCallBuffer::InResults }
}

/// Request that extends runtime measurement register `mr_index` with a digest; the module
/// reads the `TdxDigest` buffer.
pub fn tdcall_extend_rtmr(mr_index: u32) -> (args: TdCallArgs)
    ensures
        args == (TdCallArgs {
            leaf: TDCALL_TDEXTENDRTMR,
            p1: 0,
            p2: mr_index as u64,
            p3: 0,
            results: 0,
            buffer: TdCallBuffer::InP1,
        }),
{
    TdCallArgs {
        leaf: TDCALL_TDEXTENDRTMR,
        p1: 0,
        p2: mr_index as u64,
        p3: 0,
        results: 0,
        buffer: TdCallBuffer::InP1,
    }
}

/// Request for the virtualization exception information; the module fills a
/// `TdVeInfoReturnData` buffer.
pub fn tdcall_get_ve_info() -> (args: TdCallArgs)
    ensures
        args == (TdCallArgs {
            leaf: TDCALL_TDGETVEINFO,
            p1: 0,
            p2: 0,
            p3: 0,
            results: 0,
            buffer: TdCallBuffer::InResults,
        }),
{
    TdCallArgs {
        leaf: TDCALL_TDGETVEINFO,
        p1: 0,
        p2: 0,
        p3: 0,
        results: 0,
        buffer: TdCallBuffer::InResults,
    }
}

/// Request that accepts the private page at `address`.
pub fn tdcall_accept_page(address: u64) -> (args: TdCallArgs)
    ensures
        args == (TdCallArgs {
            leaf: TDCALL_TDACCEPTPAGE,
            p1: address,
            p2: 0,
            p3: 0,
            results: 0,
            buffer: TdCallBuffer::NoBuffer,
        }),
{
    TdCallArgs {
        leaf: TDCALL_TDACCEPTPAGE,
        p1: address,
        p2: 0,
        p3: 0,
        results: 0,
        buffer: TdCallBuffer::NoBuffer,
    }
}

/// What follows a TDCALL (other than page acceptance) that returned status `ret`.
pub fn tdcall_completion(ret: u64) -> (action: TdxAction)
    ensures
        action == action_for_status(ret, TDX_EXIT_REASON_SUCCESS),
        action == TdxAction::Continue <==> ret == 0,
        action == TdxAction::Halt <==> ret != 0,
{
    if ret != TDX_EXIT_REASON_SUCCESS {
        TdxAction::Halt
    } else {
        TdxAction::Continue
    }
}

/// What a TDCALL[TDACCEPTPAGE] status means: success, a page that was accepted before
/// (not an error), or a failure after which the caller halts.
pub fn tdcall_accept_page_status(ret: u64) -> (status: PageAcceptStatus)
    ensures
        status == page_accept_status(ret),
        status == PageAcceptStatus::Accepted <==> ret == 0,
        status == PageAcceptStatus::AlreadyAccepted <==> (ret != 0 && 0xB0A00000000 <= ret
            <= 0xB0A000000ff),
        status == PageAcceptStatus::Failed <==> (ret != 0 && !(0xB0A00000000 <= ret
            <= 0xB0A000000ff)),
{
    let status_value = if ret != TDX_EXIT_REASON_SUCCESS {
        if (ret & !0xffu64) == TDX_EXIT_REASON_PAGE_ALREADY_ACCEPTED {
            PageAcceptStatus::AlreadyAccepted
        } else {
            PageAcceptStatus::Failed
        }
    } else {
        PageAcceptStatus::Accepted
    };
    proof {
        lemma_already_accepted_range(ret);
    }
    status_value
}

/// The action that follows a page-acceptance status: only a failure halts.
pub fn page_accept_action(status: PageAcceptStatus) -> (action: TdxAction)
    ensures
        action == (if status == PageAcceptStatus::Failed {
            TdxAction::Halt
        } else {
            TdxAction::Continue
        }),
{
    match status {
        PageAcceptStatus::Failed => TdxAction::Halt,
        _ => TdxAction::Continue,
    }
}

/// A completion continues exactly when the status is the success status; every other
/// status halts.
pub proof fn lemma_completion_continues_only_on_success(ret: u64, success: u64)
    ensures
        action_for_status(ret, success) == TdxAction::Continue <==> ret == success,
        action_for_status(ret, success) == TdxAction::Halt <==> ret != success,
{
}

/// A page counts as already accepted exactly when its status lies in the 256 values that
/// share the "already accepted" code in bits 63..8.
pub proof fn lemma_already_accepted_range(ret: u64)
    ensures
        is_page_already_accepted(ret) <==> (TDX_EXIT_REASON_PAGE_ALREADY_ACCEPTED <= ret
            <= TDX_EXIT_REASON_PAGE_ALREADY_ACCEPTED + 0xff),
{
    assert(((ret & !0xffu64) == 0x00000B0A00000000u64) <==> (0x00000B0A00000000u64 <= ret
        <= 0x00000B0A000000ffu64)) by (bit_vector);
}

/// Success is never mistaken for a failure, and a status whose bits 63..8 hold no code
/// other than "already accepted" never halts.
pub proof fn lemma_accept_page_halts_only_on_failure(ret: u64)
    ensures
        page_accept_status(ret) == PageAcceptStatus::Failed <==> (ret != TDX_EXIT_REASON_SUCCESS
            && !(TDX_EXIT_REASON_PAGE_ALREADY_ACCEPTED <= ret <= TDX_EXIT_REASON_PAGE_ALREADY_ACCEPTED
            + 0xff)),
{
    lemma_already_accepted_range(ret);
}

} // verus!
