//! Page arithmetic and memory-size decisions of the initial program loader.
use vstd::prelude::*;
use vstd::arithmetic::power2::pow2;

verus! {

/// Size of an EFI page: 4 KiB.
pub const SIZE_4KB: u64 = 0x1000;

/// CPUID leaf that reports the highest supported extended leaf.
pub const EXTENDED_FUNCTION_INFO: u32 = 0x80000000;

/// CPUID leaf that reports the virtual and physical address sizes.
pub const VIRT_PHYS_MEM_SIZES: u32 = 0x80000008;

/// Physical address width assumed when the CPU does not report one.
pub const DEFAULT_MEMORY_SPACE_SIZE: u8 = 36;

/// Number of 4 KiB pages needed to hold `size` bytes, rounded up.
pub open spec fn pages_for_size(size: int) -> int {
    (size + SIZE_4KB - 1) / (SIZE_4KB as int)
}

/// Number of bytes covered by `pages` 4 KiB pages.
pub open spec fn size_of_pages(pages: int) -> int {
    pages * SIZE_4KB
}

/// Converts a byte size into the number of EFI pages that hold it (rounding up).
pub fn efi_size_to_page(size: u64) -> (pages: u64)
    requires
        size <= u64::MAX - SIZE_4KB,
    ensures
        pages == pages_for_size(size as int),
        pages * 0x1000 >= size,
        pages * 0x1000 < size + 0x1000,
{
    (size + SIZE_4KB - 1) / SIZE_4KB
}

/// Converts a number of EFI pages into the number of bytes they cover.
pub fn efi_page_to_size(page: u64) -> (size: u64)
    requires
        page * SIZE_4KB <= u64::MAX,
    ensures
        size == size_of_pages(page as int),
        size == page * 0x1000,
{
    page * SIZE_4KB
}

/// Rounding a size up to whole pages covers the size, and wastes less than one page.
pub proof fn lemma_size_to_page_covers(size: u64)
    requires
        size <= u64::MAX - SIZE_4KB,
    ensures
        size <= size_of_pages(pages_for_size(size as int)) < size + SIZE_4KB,
        size_of_pages(pages_for_size(size as int)) <= u64::MAX,
        size <= pages_for_size(size as int) * 0x1000 < size + 0x1000,
{
}

/// Converting whole pages to bytes and back gives the same number of pages.
pub proof fn lemma_page_size_round_trip(page: u64)
    requires
        page * SIZE_4KB <= u64::MAX - SIZE_4KB,
    ensures
        pages_for_size(size_of_pages(page as int)) == page,
        (page * 0x1000 + 0x1000 - 1) / 0x1000 == page,
{
}

/// More bytes never need fewer pages.
pub proof fn lemma_size_to_page_monotonic(a: u64, b: u64)
    requires
        a <= b,
    ensures
        pages_for_size(a as int) <= pages_for_size(b as int),
{
    assert(pages_for_size(a as int) <= pages_for_size(b as int)) by (nonlinear_arith)
        requires
            a <= b,
    ;
}

/// Physical address width that the loader uses, from the highest extended CPUID leaf and
/// the EAX value of the address-size leaf (bits 7..0 hold the physical width).
pub open spec fn memory_space_size(max_extended_leaf: u32, address_sizes_eax: u32) -> u8 {
    if max_extended_leaf >= VIRT_PHYS_MEM_SIZES {
        (address_sizes_eax % 256) as u8
    } else {
        DEFAULT_MEMORY_SPACE_SIZE
    }
}

/// Whether the CPU answers the address-size leaf, given the highest extended CPUID leaf.
pub fn has_virt_phys_mem_sizes_leaf(max_extended_leaf: u32) -> (has: bool)
    ensures
        has == (max_extended_leaf >= VIRT_PHYS_MEM_SIZES),
        has <==> max_extended_leaf >= 0x8000_0008,
{
    max_extended_leaf >= VIRT_PHYS_MEM_SIZES
}

/// Maximum physical memory addressability of the processor, from the CPUID answers:
/// `max_extended_leaf` is EAX of leaf 0x80000000, `address_sizes_eax` is EAX of leaf
/// 0x80000008 (only read when that leaf exists).
pub fn cpu_get_memory_space_size(max_extended_leaf: u32, address_sizes_eax: u32) -> (bits: u8)
    ensures
        bits == memory_space_size(max_extended_leaf, address_sizes_eax),
        max_extended_leaf >= 0x8000_0008 ==> bits == address_sizes_eax % 256,
        max_extended_leaf < 0x8000_0008 ==> bits == 36,
{
    if has_virt_phys_mem_sizes_leaf(max_extended_leaf) {
        (address_sizes_eax % 256) as u8
    } else {
        DEFAULT_MEMORY_SPACE_SIZE
    }
}

/// When the CPU has the address-size leaf (its highest extended leaf is at least
/// 0x80000008) the width is bits 7..0 of that leaf's EAX; otherwise it is 36 bits,
/// whatever the other inputs are.
pub proof fn lemma_memory_space_size_by_leaf(max_extended_leaf: u32, address_sizes_eax: u32)
    ensures
        max_extended_leaf >= 0x8000_0008 ==> memory_space_size(max_extended_leaf, address_sizes_eax)
            == address_sizes_eax % 256,
        max_extended_leaf < 0x8000_0008 ==> memory_space_size(max_extended_leaf, address_sizes_eax)
            == 36,
{
}

/// Memory size the loader works with: the smaller of what the CPU can address and the
/// top of memory that the hand-off blocks report.
pub open spec fn memory_size(cpu_memory_space_size: u8, hob_memory_top: u64) -> int {
    let cpu_memory_size = pow2(cpu_memory_space_size as nat);
    if cpu_memory_size <= hob_memory_top {
        cpu_memory_size as int
    } else {
        hob_memory_top as int
    }
}

/// Computes `2^cpu_memory_space_size` and returns the smaller of it and `hob_memory_top`.
pub fn get_memory_size(cpu_memory_space_size: u8, hob_memory_top: u64) -> (size: u64)
    requires
        cpu_memory_space_size < 64,
    ensures
        size == memory_size(cpu_memory_space_size, hob_memory_top),
        size <= hob_memory_top,
        size <= pow2(cpu_memory_space_size as nat),
        size == hob_memory_top || size == pow2(cpu_memory_space_size as nat),
{
    let shift: u64 = cpu_memory_space_size as u64;
    proof {
        vstd::bits::lemma_u64_pow2_no_overflow(shift as nat);
        vstd::bits::lemma_u64_shl_is_mul(1, shift);
    }
    let cpu_memory_size: u64 = 1u64 << shift;
    if cpu_memory_size <= hob_memory_top {
        cpu_memory_size
    } else {
        hob_memory_top
    }
}

/// The memory size never exceeds either bound, and equals one of them.
pub proof fn lemma_memory_size_is_min(cpu_memory_space_size: u8, hob_memory_top: u64)
    ensures
        memory_size(cpu_memory_space_size, hob_memory_top) <= hob_memory_top,
        memory_size(cpu_memory_space_size, hob_memory_top) <= pow2(cpu_memory_space_size as nat),
        memory_size(cpu_memory_space_size, hob_memory_top) == hob_memory_top
            || memory_size(cpu_memory_space_size, hob_memory_top) == pow2(cpu_memory_space_size as nat),
{
}

/// Kinds of payload image the loader can relocate.
#[derive(Clone, Copy, Debug, PartialEq, Eq, Structural)]
pub enum ImageFormat {
    Elf,
    Pe,
}

/// Which loader handles an image: ELF is tried first, then PE; anything else is refused.
pub fn select_image_format(is_elf: bool, is_pe: bool) -> (format: Option<ImageFormat>)
    ensures
        format == (if is_elf {
            Some(ImageFormat::Elf)
        } else if is_pe {
            Some(ImageFormat::Pe)
        } else {
            None::<ImageFormat>
        }),
{
    if is_elf {
        Some(ImageFormat::Elf)
    } else if is_pe {
        Some(ImageFormat::Pe)
    } else {
        None
    }
}

} // verus!
