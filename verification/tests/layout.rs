use thingy53_hci_usb::layout::{
    rb_data, rb_read_idx, rb_write_idx, A2N_BASE, APP_RAM_BASE, IPC_SHMEM_BASE, IPC_SHMEM_END,
    N2A_BASE, RING_BUF_SIZE, RING_SPAN, SPU_FIRST_SHARED_REGION, SPU_LAST_SHARED_REGION,
    SPU_REGION_SIZE,
};

#[test]
fn ring_buffers_lie_one_behind_the_other() {
    assert_eq!(IPC_SHMEM_BASE, 0x2003_8000);
    assert_eq!(N2A_BASE, 0x2003_8000);
    assert_eq!(A2N_BASE, 0x2003_B800);
    assert_eq!(RING_BUF_SIZE, 14328);
    assert_eq!(N2A_BASE + RING_SPAN, A2N_BASE);
    assert!(A2N_BASE + RING_SPAN <= IPC_SHMEM_END);
}

#[test]
fn header_words_come_before_the_payload() {
    assert_eq!(rb_write_idx(A2N_BASE), 0x2003_B800);
    assert_eq!(rb_read_idx(A2N_BASE), 0x2003_B804);
    assert_eq!(rb_data(A2N_BASE), 0x2003_B808);
    assert_eq!(rb_write_idx(A2N_BASE) % 4, 0);
    assert_eq!(rb_data(N2A_BASE) + RING_BUF_SIZE, A2N_BASE);
}

#[test]
fn shared_regions_cover_both_ring_buffers() {
    let first = (N2A_BASE - APP_RAM_BASE) / SPU_REGION_SIZE;
    let last = (A2N_BASE + RING_SPAN - 1 - APP_RAM_BASE) / SPU_REGION_SIZE;
    assert_eq!(first, 28);
    assert_eq!(last, 31);
    assert_eq!((SPU_FIRST_SHARED_REGION, SPU_LAST_SHARED_REGION), (first, last));
}
