use vstd::prelude::*;
use crate::bytes::{decode_words, read_u32, u32_at};
use crate::offsets::{GraphicOffsets, GRAPHIC_OFFSETS_SIZE};

verus! {

/// Size in bytes of the hook's control block.
pub const HOOK_INFO_SIZE: usize = 648;

/// Size in bytes of the texture block the hook publishes.
pub const SHARED_TEXTURE_DATA_SIZE: usize = 4;

/// Byte offsets of the control block's fields in the hook's layout.
pub const HOOK_VER_MAJOR_AT: usize = 0;
pub const HOOK_VER_MINOR_AT: usize = 4;
pub const CAPTURE_TYPE_AT: usize = 8;
pub const WINDOW_AT: usize = 12;
pub const FORMAT_AT: usize = 16;
pub const CX_AT: usize = 20;
pub const CY_AT: usize = 24;
pub const BASE_CX_AT: usize = 28;
pub const BASE_CY_AT: usize = 32;
pub const PITCH_AT: usize = 36;
pub const MAP_ID_AT: usize = 40;
pub const MAP_SIZE_AT: usize = 44;
pub const FLIP_AT: usize = 48;
pub const FRAME_INTERVAL_AT: usize = 56;
pub const USE_SCALE_AT: usize = 64;
pub const FORCE_SHMEM_AT: usize = 65;
pub const CAPTURE_OVERLAY_AT: usize = 66;
pub const GRAPHICS_OFFSETS_AT: usize = 68;
pub const RESERVED_AT: usize = 136;

/// Number of reserved words at the end of the control block.
pub const RESERVED_WORDS: usize = 128;

/// The handle of the texture the hook shares.
#[derive(Debug, Clone, Copy, PartialEq, Eq, Structural)]
pub struct SharedTextureData {
    pub tex_handle: u32,
}

/// How the hook hands frames over; a 4-byte tag in the control block.
#[derive(Debug, Clone, Copy, PartialEq, Eq, Structural)]
pub enum CaptureType {
    Memory,
    Texture,
}

/// The hook's control block.
#[derive(Debug)]
pub struct HookInfo {
    pub hook_ver_major: u32,
    pub hook_ver_minor: u32,
    pub capture_type: CaptureType,
    pub window: u32,
    pub format: u32,
    pub cx: u32,
    pub cy: u32,
    pub unused_base_cx: u32,
    pub unused_base_cy: u32,
    pub pitch: u32,
    pub map_id: u32,
    pub map_size: u32,
    pub flip: bool,
    pub frame_interval: u64,
    pub unused_use_scale: bool,
    pub force_shmem: bool,
    pub capture_overlay: bool,
    pub graphics_offsets: GraphicOffsets,
    pub reserved: Vec<u32>,
}

/// The layout of the control block: each field starts where the one before
/// it ends, padded to its own alignment; the offsets record spans 68 bytes
/// from byte 68; the 128 reserved words come last and end the 648 bytes.
pub proof fn lemma_hook_info_layout(g: GraphicOffsets)
    ensures
        HOOK_VER_MAJOR_AT == 0,
        HOOK_VER_MINOR_AT == HOOK_VER_MAJOR_AT + 4,
        CAPTURE_TYPE_AT == HOOK_VER_MINOR_AT + 4,
        WINDOW_AT == CAPTURE_TYPE_AT + 4,
        FORMAT_AT == WINDOW_AT + 4,
        CX_AT == FORMAT_AT + 4,
        CY_AT == CX_AT + 4,
        BASE_CX_AT == CY_AT + 4,
        BASE_CY_AT == BASE_CX_AT + 4,
        PITCH_AT == BASE_CY_AT + 4,
        MAP_ID_AT == PITCH_AT + 4,
        MAP_SIZE_AT == MAP_ID_AT + 4,
        FLIP_AT == MAP_SIZE_AT + 4,
        FLIP_AT + 1 <= FRAME_INTERVAL_AT && FRAME_INTERVAL_AT % 8 == 0,
        USE_SCALE_AT == FRAME_INTERVAL_AT + 8,
        FORCE_SHMEM_AT == USE_SCALE_AT + 1,
        CAPTURE_OVERLAY_AT == FORCE_SHMEM_AT + 1,
        CAPTURE_OVERLAY_AT + 1 <= GRAPHICS_OFFSETS_AT && GRAPHICS_OFFSETS_AT % 4 == 0,
        GRAPHICS_OFFSETS_AT == 68,
        g.spec_bytes().len() == GRAPHIC_OFFSETS_SIZE,
        GRAPHIC_OFFSETS_SIZE == 4 + 20 + 12 + 32,
        RESERVED_AT == GRAPHICS_OFFSETS_AT + GRAPHIC_OFFSETS_SIZE,
        RESERVED_AT + 4 * RESERVED_WORDS == HOOK_INFO_SIZE,
        HOOK_INFO_SIZE == 648,
        SHARED_TEXTURE_DATA_SIZE == 4,
{
    crate::offsets::lemma_offsets_round_trip(g);
}

/// The capture type a tag stands for.
pub open spec fn capture_type_of(tag: u32) -> Option<CaptureType> {
    if tag == 0 {
        Some(CaptureType::Memory)
    } else if tag == 1 {
        Some(CaptureType::Texture)
    } else {
        None
    }
}

/// The little-endian `u64` stored at byte `at`.
pub open spec fn u64_at(s: Seq<u8>, at: int) -> u64 {
    (u32_at(s, at) as u64 + (u32_at(s, at + 4) as u64) * 0x1_0000_0000) as u64
}

impl CaptureType {
    /// The capture type a tag stands for; `None` for an unknown tag.
    pub fn from_tag(tag: u32) -> (r: Option<CaptureType>)
        ensures
            r == capture_type_of(tag),
    {
        if tag == 0 {
            Some(CaptureType::Memory)
        } else if tag == 1 {
            Some(CaptureType::Texture)
        } else {
            None
        }
    }
}

impl SharedTextureData {
    /// Reads the texture block.
    pub fn from_bytes(b: &[u8]) -> (r: SharedTextureData)
        requires
            SHARED_TEXTURE_DATA_SIZE <= b@.len(),
        ensures
            r.tex_handle == u32_at(b@, 0),
    {
        SharedTextureData { tex_handle: read_u32(b, 0) }
    }
}

/// The window and map id the hook names its texture block after.
pub open spec fn spec_texture_location(b: Seq<u8>) -> (u32, u32) {
    (u32_at(b, WINDOW_AT as int), u32_at(b, MAP_ID_AT as int))
}

/// Reads the window and map id from a control block.
pub fn texture_location(b: &[u8]) -> (r: (u32, u32))
    requires
        HOOK_INFO_SIZE <= b@.len(),
    ensures
        r == spec_texture_location(b@),
{
    (read_u32(b, WINDOW_AT), read_u32(b, MAP_ID_AT))
}

impl HookInfo {
    /// Whether this is the control block stored in `b`.
    pub open spec fn decodes(&self, b: Seq<u8>) -> bool {
        &&& self.hook_ver_major == u32_at(b, HOOK_VER_MAJOR_AT as int)
        &&& self.hook_ver_minor == u32_at(b, HOOK_VER_MINOR_AT as int)
        &&& capture_type_of(u32_at(b, CAPTURE_TYPE_AT as int)) == Some(self.capture_type)
        &&& self.window == u32_at(b, WINDOW_AT as int)
        &&& self.format == u32_at(b, FORMAT_AT as int)
        &&& self.cx == u32_at(b, CX_AT as int)
        &&& self.cy == u32_at(b, CY_AT as int)
        &&& self.unused_base_cx == u32_at(b, BASE_CX_AT as int)
        &&& self.unused_base_cy == u32_at(b, BASE_CY_AT as int)
        &&& self.pitch == u32_at(b, PITCH_AT as int)
        &&& self.map_id == u32_at(b, MAP_ID_AT as int)
        &&& self.map_size == u32_at(b, MAP_SIZE_AT as int)
        &&& self.flip == (b[FLIP_AT as int] != 0)
        &&& self.frame_interval == u64_at(b, FRAME_INTERVAL_AT as int)
        &&& self.unused_use_scale == (b[USE_SCALE_AT as int] != 0)
        &&& self.force_shmem == (b[FORCE_SHMEM_AT as int] != 0)
        &&& self.capture_overlay == (b[CAPTURE_OVERLAY_AT as int] != 0)
        &&& self.graphics_offsets == GraphicOffsets::spec_from_bytes(b, GRAPHICS_OFFSETS_AT as int)
        &&& self.reserved@.len() == RESERVED_WORDS
        &&& forall|i: int| 0 <= i < RESERVED_WORDS ==> #[trigger] self.reserved@[i] == u32_at(b, RESERVED_AT + 4 * i)
    }

    /// Reads a control block; `None` when its capture type tag is unknown.
    pub fn from_bytes(b: &[u8]) -> (r: Option<HookInfo>)
        requires
            HOOK_INFO_SIZE <= b@.len(),
        ensures
            match r {
                Some(h) => h.decodes(b@),
                None => capture_type_of(u32_at(b@, CAPTURE_TYPE_AT as int)) is None,
            },
    {
        let capture_type = match CaptureType::from_tag(read_u32(b, CAPTURE_TYPE_AT)) {
            Some(t) => t,
            None => return None,
        };
        let low = read_u32(b, FRAME_INTERVAL_AT);
        let high = read_u32(b, FRAME_INTERVAL_AT + 4);
        let frame_interval = low as u64 + (high as u64) * 0x1_0000_0000;
        Some(HookInfo {
            hook_ver_major: read_u32(b, HOOK_VER_MAJOR_AT),
            hook_ver_minor: read_u32(b, HOOK_VER_MINOR_AT),
            capture_type,
            window: read_u32(b, WINDOW_AT),
            format: read_u32(b, FORMAT_AT),
            cx: read_u32(b, CX_AT),
            cy: read_u32(b, CY_AT),
            unused_base_cx: read_u32(b, BASE_CX_AT),
            unused_base_cy: read_u32(b, BASE_CY_AT),
            pitch: read_u32(b, PITCH_AT),
            map_id: read_u32(b, MAP_ID_AT),
            map_size: read_u32(b, MAP_SIZE_AT),
            flip: b[FLIP_AT] != 0,
            frame_interval,
            unused_use_scale: b[USE_SCALE_AT] != 0,
            force_shmem: b[FORCE_SHMEM_AT] != 0,
            capture_overlay: b[CAPTURE_OVERLAY_AT] != 0,
            graphics_offsets: GraphicOffsets::from_bytes(b, GRAPHICS_OFFSETS_AT),
            reserved: decode_words(b, RESERVED_AT, RESERVED_WORDS),
        })
    }
}

/// The control block after the client wrote its fields: the offsets record,
/// the overlay flag, and `false` for forced shared memory and scaling. Every
/// other byte is the hook's and stays as it was.
pub open spec fn with_client_fields(b: Seq<u8>, offsets: GraphicOffsets, capture_overlay: bool) -> Seq<u8> {
    Seq::new(
        b.len(),
        |i: int|
            if GRAPHICS_OFFSETS_AT <= i < GRAPHICS_OFFSETS_AT + GRAPHIC_OFFSETS_SIZE {
                offsets.spec_bytes()[i - GRAPHICS_OFFSETS_AT]
            } else if i == USE_SCALE_AT || i == FORCE_SHMEM_AT {
                0u8
            } else if i == CAPTURE_OVERLAY_AT {
                if capture_overlay { 1u8 } else { 0u8 }
            } else {
                b[i]
            },
    )
}

/// After the client writes its fields, the block reads back the offsets
/// and flags written, and every byte the hook owns, among them the window and
/// map id that name the texture block, reads as before.
pub proof fn lemma_client_fields_read_back(b: Seq<u8>, g: GraphicOffsets, overlay: bool)
    requires
        b.len() == HOOK_INFO_SIZE,
    ensures
        GraphicOffsets::spec_from_bytes(with_client_fields(b, g, overlay), GRAPHICS_OFFSETS_AT as int) == g,
        with_client_fields(b, g, overlay)[CAPTURE_OVERLAY_AT as int] == (if overlay { 1u8 } else { 0u8 }),
        with_client_fields(b, g, overlay)[USE_SCALE_AT as int] == 0,
        with_client_fields(b, g, overlay)[FORCE_SHMEM_AT as int] == 0,
        spec_texture_location(with_client_fields(b, g, overlay)) == spec_texture_location(b),
        forall|i: int|
            0 <= i < HOOK_INFO_SIZE && !(USE_SCALE_AT <= i < USE_SCALE_AT + 3)
                && !(GRAPHICS_OFFSETS_AT <= i < RESERVED_AT)
                ==> #[trigger] with_client_fields(b, g, overlay)[i] == b[i],
{
    let w = with_client_fields(b, g, overlay);
    let gb = g.spec_bytes();
    crate::offsets::lemma_offsets_round_trip(g);
    assert forall|j: int| 0 <= j <= 64 implies #[trigger] u32_at(w, GRAPHICS_OFFSETS_AT + j) == u32_at(gb, j) by {
        assert(w[GRAPHICS_OFFSETS_AT + j] == gb[j]);
        assert(w[GRAPHICS_OFFSETS_AT + j + 1] == gb[j + 1]);
        assert(w[GRAPHICS_OFFSETS_AT + j + 2] == gb[j + 2]);
        assert(w[GRAPHICS_OFFSETS_AT + j + 3] == gb[j + 3]);
    }
    assert(u32_at(w, 68) == u32_at(gb, 0));
    assert(u32_at(w, 72) == u32_at(gb, 4));
    assert(u32_at(w, 76) == u32_at(gb, 8));
    assert(u32_at(w, 80) == u32_at(gb, 12));
    assert(u32_at(w, 84) == u32_at(gb, 16));
    assert(u32_at(w, 88) == u32_at(gb, 20));
    assert(u32_at(w, 92) == u32_at(gb, 24));
    assert(u32_at(w, 96) == u32_at(gb, 28));
    assert(u32_at(w, 100) == u32_at(gb, 32));
    assert(u32_at(w, 104) == u32_at(gb, 36));
    assert(u32_at(w, 108) == u32_at(gb, 40));
    assert(u32_at(w, 112) == u32_at(gb, 44));
    assert(u32_at(w, 116) == u32_at(gb, 48));
    assert(u32_at(w, 120) == u32_at(gb, 52));
    assert(u32_at(w, 124) == u32_at(gb, 56));
    assert(u32_at(w, 128) == u32_at(gb, 60));
    assert(u32_at(w, 132) == u32_at(gb, 64));
    assert(GraphicOffsets::spec_from_bytes(w, GRAPHICS_OFFSETS_AT as int) == GraphicOffsets::spec_from_bytes(gb, 0));
}

/// Writes the client's fields into a control block.
pub fn write_client_fields(block: &mut [u8], offsets: &GraphicOffsets, capture_overlay: bool)
    requires
        old(block)@.len() == HOOK_INFO_SIZE,
    ensures
        final(block)@ == with_client_fields(old(block)@, *offsets, capture_overlay),
{
    let bytes = offsets.to_bytes();
    block[USE_SCALE_AT] = 0;
    block[FORCE_SHMEM_AT] = 0;
    block[CAPTURE_OVERLAY_AT] = if capture_overlay { 1 } else { 0 };
    let ghost start = block@;
    let mut i: usize = 0;
    while i < GRAPHIC_OFFSETS_SIZE
        invariant
            i <= GRAPHIC_OFFSETS_SIZE,
            bytes@ == offsets.spec_bytes(),
            bytes@.len() == GRAPHIC_OFFSETS_SIZE,
            block@.len() == HOOK_INFO_SIZE,
            forall|j: int| 0 <= j < block@.len() ==> #[trigger] block@[j] == (
                if GRAPHICS_OFFSETS_AT <= j < GRAPHICS_OFFSETS_AT + i { bytes@[j - GRAPHICS_OFFSETS_AT] } else { start[j] }),
        decreases GRAPHIC_OFFSETS_SIZE - i,
    {
        block[GRAPHICS_OFFSETS_AT + i] = bytes[i];
        i = i + 1;
    }
    proof {
        assert(block@ =~= with_client_fields(old(block)@, *offsets, capture_overlay));
    }
}

} // verus!
