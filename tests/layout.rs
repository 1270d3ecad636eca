use obs_client::hook_info::{
    texture_location, write_client_fields, HOOK_INFO_SIZE, RESERVED_AT, RESERVED_WORDS,
};
use obs_client::{CaptureType, DDraw, GraphicOffsets, HookInfo, SharedTextureData, D3D8, D3D9, DXGI};

#[test]
fn lib_test_sizes() {
    assert_eq!(core::mem::size_of::<D3D8>(), 4);
    assert_eq!(core::mem::size_of::<D3D9>(), 20);
    assert_eq!(core::mem::size_of::<DXGI>(), 12);
    assert_eq!(core::mem::size_of::<DDraw>(), 32);
    assert_eq!(core::mem::size_of::<GraphicOffsets>(), 68);
}

fn sample_offsets() -> GraphicOffsets {
    GraphicOffsets {
        d3d8: D3D8 { present: 0x11 },
        d3d9: D3D9 { present: 0x2233, present_ex: 3, present_swap: 4, d3d9_clsoff: 5, is_d3d9ex_clsoff: 6 },
        dxgi: DXGI { present: 7, present1: 8, resize: 0xdead_beef },
        ddraw: DDraw::zeroed(),
    }
}

#[test]
fn control_block_layout_sizes() {
    assert_eq!(HOOK_INFO_SIZE, 648);
    assert_eq!(RESERVED_AT + 4 * RESERVED_WORDS, HOOK_INFO_SIZE);
    assert_eq!(sample_offsets().to_bytes().len(), 68);
}

#[test]
fn offsets_bytes_are_little_endian_in_order() {
    let b = sample_offsets().to_bytes();
    assert_eq!(&b[0..4], &[0x11, 0, 0, 0]);
    assert_eq!(&b[4..8], &[0x33, 0x22, 0, 0]);
    assert_eq!(&b[32..36], &[0xef, 0xbe, 0xad, 0xde]);
    assert!(b[36..].iter().all(|x| *x == 0));
    let back = GraphicOffsets::from_bytes(&b, 0);
    assert_eq!(back, sample_offsets());
}

#[test]
fn client_fields_touch_only_their_bytes() {
    let mut block = vec![0xaau8; HOOK_INFO_SIZE];
    write_client_fields(&mut block, &sample_offsets(), true);
    assert_eq!(block[64], 0);
    assert_eq!(block[65], 0);
    assert_eq!(block[66], 1);
    assert_eq!(block[67], 0xaa);
    assert_eq!(&block[68..136], &sample_offsets().to_bytes()[..]);
    assert!(block[..64].iter().all(|x| *x == 0xaa));
    assert!(block[136..].iter().all(|x| *x == 0xaa));

    write_client_fields(&mut block, &sample_offsets(), false);
    assert_eq!(block[66], 0);
}

fn block_with(window: u32, map_id: u32, tag: u32) -> Vec<u8> {
    let mut block = vec![0u8; HOOK_INFO_SIZE];
    block[0..4].copy_from_slice(&1u32.to_le_bytes());
    block[4..8].copy_from_slice(&8u32.to_le_bytes());
    block[8..12].copy_from_slice(&tag.to_le_bytes());
    block[12..16].copy_from_slice(&window.to_le_bytes());
    block[20..24].copy_from_slice(&1920u32.to_le_bytes());
    block[24..28].copy_from_slice(&1080u32.to_le_bytes());
    block[36..40].copy_from_slice(&7680u32.to_le_bytes());
    block[40..44].copy_from_slice(&map_id.to_le_bytes());
    block[48] = 1;
    block[56..64].copy_from_slice(&0x1_0000_0002u64.to_le_bytes());
    block[66] = 1;
    block[68..136].copy_from_slice(&sample_offsets().to_bytes());
    block[644..648].copy_from_slice(&9u32.to_le_bytes());
    block
}

#[test]
fn texture_location_reads_window_and_map_id() {
    let block = block_with(0x0001_0203, 77, 1);
    assert_eq!(texture_location(&block), (0x0001_0203, 77));
}

#[test]
fn hook_info_decodes_every_field() {
    let block = block_with(66, 5, 1);
    let info = HookInfo::from_bytes(&block).unwrap();
    assert_eq!(info.hook_ver_major, 1);
    assert_eq!(info.hook_ver_minor, 8);
    assert_eq!(info.capture_type, CaptureType::Texture);
    assert_eq!(info.window, 66);
    assert_eq!(info.cx, 1920);
    assert_eq!(info.cy, 1080);
    assert_eq!(info.pitch, 7680);
    assert_eq!(info.map_id, 5);
    assert!(info.flip);
    assert_eq!(info.frame_interval, 0x1_0000_0002);
    assert!(!info.unused_use_scale);
    assert!(!info.force_shmem);
    assert!(info.capture_overlay);
    assert_eq!(info.graphics_offsets, sample_offsets());
    assert_eq!(info.reserved.len(), 128);
    assert_eq!(info.reserved[127], 9);

    assert_eq!(HookInfo::from_bytes(&block_with(66, 5, 0)).unwrap().capture_type, CaptureType::Memory);
    assert!(HookInfo::from_bytes(&block_with(66, 5, 2)).is_none());
}

#[test]
fn shared_texture_handle_is_read_little_endian() {
    let data = SharedTextureData::from_bytes(&[0x78, 0x56, 0x34, 0x12]);
    assert_eq!(data.tex_handle, 0x1234_5678);
}
