use rust_td::payload::payload_heap_start;

#[test]
fn heap_sits_below_hob_and_stack() {
    assert_eq!(payload_heap_start(0x8000_0000, 0x1_0000, 0x2_0000, 0x100_0000), 0x7EFD_0000);
    assert_eq!(payload_heap_start(0x3000, 0x1000, 0x1000, 0x1000), 0);
}

#[test]
fn heap_hob_and_stack_fill_the_top() {
    let (memory, hob, stack, heap) = (0x7fff_f000usize, 0x2_0000usize, 0x10_0000usize, 0x200_0000usize);
    let start = payload_heap_start(memory, hob, stack, heap);
    assert_eq!(start + heap + hob + stack, memory);
}
