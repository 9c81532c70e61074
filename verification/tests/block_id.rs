use libcrium::block_id::BlockId;

#[test]
fn test_block_id() {
    assert_eq!(std::mem::size_of::<BlockId>(), std::mem::size_of::<u32>());
    assert_eq!(std::mem::align_of::<BlockId>(), std::mem::align_of::<u32>());

    assert_eq!(0_u32, BlockId::air().to_u32());
}

#[test]
fn test_block_id_round_trip() {
    for (block, state) in [(0u16, 0u16), (1, 0), (0, 1), (7, 65535), (65535, 65535), (513, 9)] {
        let id = BlockId::from_parts(block, state);
        assert_eq!(BlockId::from_u32(id.to_u32()), id);
        assert_eq!(id.into_parts(), (block, state));
    }
}

#[test]
fn test_block_id_packing() {
    let id = BlockId::from_parts(2, 3);
    assert_eq!(id.to_u32(), 2 * 0x10000 + 3);
    let id = BlockId::from_u32(0xABCD_1234);
    assert_eq!(id.into_parts(), (0xABCD, 0x1234));
    assert_eq!(BlockId::default(), BlockId::air());
}
