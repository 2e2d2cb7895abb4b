//! Planning the acceptance of private memory, page by page, in fixed-size chunks.
use vstd::prelude::*;

verus! {

/// Size of a page that the TDX module accepts: 4 KiB.
pub const ACCEPT_PAGE_SIZE: u64 = 0x1000;

/// Memory is accepted in chunks of this many bytes.
pub const PAGE_ACCEPT_CHUNK_SIZE: u64 = 0x2000;

/// A progress report is given for every chunk that starts on a multiple of this size.
pub const ACCEPT_REPORT_INTERVAL: u64 = 0x800000;

/// Addresses of `pages` consecutive 4 KiB pages starting at `address`.
pub open spec fn page_run(address: int, pages: nat) -> Seq<u64> {
    Seq::new(pages, |i: int| (address + i * ACCEPT_PAGE_SIZE) as u64)
}

/// Number of 4 KiB pages in one chunk.
pub open spec fn pages_per_chunk() -> nat {
    (PAGE_ACCEPT_CHUNK_SIZE / ACCEPT_PAGE_SIZE) as nat
}

/// Number of whole chunks in `size` bytes; a partial chunk at the end is not accepted.
pub open spec fn chunk_count(size: int) -> nat {
    (size / (PAGE_ACCEPT_CHUNK_SIZE as int)) as nat
}

/// The pages, in order, that accepting the range `[address, address + size)` accepts.
pub open spec fn accept_plan(address: int, size: int) -> Seq<u64> {
    page_run(address, chunk_count(size) * pages_per_chunk())
}

/// Whether every page of a run starting at `address` has an address that fits in 64 bits.
pub open spec fn page_run_fits(address: int, pages: nat) -> bool {
    pages == 0 || address + (pages - 1) * ACCEPT_PAGE_SIZE <= u64::MAX
}

/// Addresses of the `pages` pages starting at `address`, in the order they are accepted.
pub fn td_accept_page(address: u64, pages: u64) -> (addresses: Vec<u64>)
    requires
        page_run_fits(address as int, pages as nat),
    ensures
        addresses@ == page_run(address as int, pages as nat),
        addresses@.len() == pages,
        forall|k: int| 0 <= k < pages ==> #[trigger] addresses@[k] == address + k * 0x1000,
{
    let mut addresses: Vec<u64> = Vec::new();
    let mut i: u64 = 0;
    while i < pages
        invariant
            i <= pages,
            page_run_fits(address as int, pages as nat),
            addresses@ == page_run(address as int, i as nat),
        decreases pages - i,
    {
        let page = address + i * ACCEPT_PAGE_SIZE;
        addresses.push(page);
        i = i + 1;
        assert(addresses@ =~= page_run(address as int, i as nat));
    }
    proof {
        lemma_page_run_exact(address, pages);
    }
    addresses
}

/// Whether a chunk that starts at `chunk_base` gets a progress report.
pub fn is_accept_report_point(chunk_base: u64) -> (report: bool)
    ensures
        report == (chunk_base % ACCEPT_REPORT_INTERVAL == 0),
        report <==> chunk_base % 0x80_0000 == 0,
{
    chunk_base % ACCEPT_REPORT_INTERVAL == 0
}

/// Addresses of all pages to accept for the range `[address, address + size)`: the range
/// is cut into whole chunks from `address` on, and each chunk is accepted page by page.
pub fn mp_accept_memory_resource_range(address: u64, size: u64) -> (addresses: Vec<u64>)
    requires
        page_run_fits(address as int, chunk_count(size as int) * pages_per_chunk()),
    ensures
        addresses@ == accept_plan(address as int, size as int),
        addresses@.len() == 2 * (size / 0x2000),
        forall|k: int| 0 <= k < addresses@.len() ==> #[trigger] addresses@[k] == address + k * 0x1000,
{
    assert(0x2000u64 >> 12u64 == 2u64) by (bit_vector);
    let pages: u64 = PAGE_ACCEPT_CHUNK_SIZE >> 12;
    assert(pages_per_chunk() == 2);
    let chunks: u64 = size / PAGE_ACCEPT_CHUNK_SIZE;
    let mut addresses: Vec<u64> = Vec::new();
    let mut i: u64 = 0;
    while i < chunks
        invariant
            i <= chunks,
            pages == 2,
            chunks == chunk_count(size as int),
            page_run_fits(address as int, (chunks * 2) as nat),
            addresses@ == page_run(address as int, (i * 2) as nat),
        decreases chunks - i,
    {
        let chunk_base = address + i * PAGE_ACCEPT_CHUNK_SIZE;
        let mut chunk_pages = td_accept_page(chunk_base, pages);
        let ghost before = addresses@;
        addresses.append(&mut chunk_pages);
        i = i + 1;
        assert(addresses@ =~= page_run(address as int, (i * 2) as nat)) by {
            assert forall|k: int| 0 <= k < i * 2 implies #[trigger] addresses@[k] == page_run(
                address as int,
                (i * 2) as nat,
            )[k] by {
                if k >= before.len() {
                    assert(addresses@[k] == page_run(chunk_base as int, 2)[k - before.len()]);
                }
            }
        }
    }
    proof {
        lemma_accept_plan_complete(address, size);
    }
    addresses
}

/// The run of `pages` pages from `address` holds exactly `pages` addresses, the `k`-th of
/// them `address + k * 4 KiB`.
pub proof fn lemma_page_run_exact(address: u64, pages: u64)
    requires
        pages == 0 || address + (pages - 1) * 0x1000 <= u64::MAX,
    ensures
        page_run(address as int, pages as nat).len() == pages,
        forall|k: int|
            0 <= k < pages ==> #[trigger] page_run(address as int, pages as nat)[k] == address + k
                * 0x1000,
{
}

/// Accepting a range covers every 4 KiB page of each of its `size / 8 KiB` whole chunks:
/// the plan has `2 * (size / 0x2000)` pages and the `k`-th is `address + k * 4 KiB`.
pub proof fn lemma_accept_plan_complete(address: u64, size: u64)
    requires
        size / 0x2000 == 0 || address + (size / 0x2000) * 0x2000 - 0x1000 <= u64::MAX,
    ensures
        accept_plan(address as int, size as int).len() == 2 * (size / 0x2000),
        forall|k: int|
            0 <= k < 2 * (size / 0x2000) ==> #[trigger] accept_plan(address as int, size as int)[k]
                == address + k * 0x1000,
{
    assert(pages_per_chunk() == 2);
    assert(chunk_count(size as int) == size / 0x2000);
}

/// Every planned page lies inside the requested range, on a 4 KiB step from its start.
pub proof fn lemma_accept_plan_within_range(address: u64, size: u64, k: int)
    requires
        page_run_fits(address as int, chunk_count(size as int) * pages_per_chunk()),
        0 <= k < accept_plan(address as int, size as int).len(),
    ensures
        address <= accept_plan(address as int, size as int)[k],
        accept_plan(address as int, size as int)[k] + ACCEPT_PAGE_SIZE <= address + size,
        (accept_plan(address as int, size as int)[k] - address) % (ACCEPT_PAGE_SIZE as int) == 0,
{
    let n = chunk_count(size as int);
    assert(n * PAGE_ACCEPT_CHUNK_SIZE <= size);
    assert(k + 1 <= n * 2);
}

/// Planned pages come in strictly increasing order, so no page is accepted twice.
pub proof fn lemma_accept_plan_increasing(address: u64, size: u64, j: int, k: int)
    requires
        page_run_fits(address as int, chunk_count(size as int) * pages_per_chunk()),
        0 <= j < k < accept_plan(address as int, size as int).len(),
    ensures
        accept_plan(address as int, size as int)[j] < accept_plan(address as int, size as int)[k],
{
}

/// The plan for a range is the chunk-by-chunk concatenation of the page runs that
/// `td_accept_page` gives for each chunk base.
pub proof fn lemma_accept_plan_by_chunks(address: u64, size: u64, c: int, j: int)
    requires
        page_run_fits(address as int, chunk_count(size as int) * pages_per_chunk()),
        0 <= c < chunk_count(size as int),
        0 <= j < pages_per_chunk(),
    ensures
        accept_plan(address as int, size as int)[c * pages_per_chunk() + j] == page_run(
            address + c * PAGE_ACCEPT_CHUNK_SIZE,
            pages_per_chunk(),
        )[j],
{
    assert(pages_per_chunk() == 2);
    assert(c * 2 + j < chunk_count(size as int) * 2);
}

} // verus!
