use vstd::prelude::*;
use crate::bytes::{decode_words, encode_words, lemma_words_at, lemma_words_len, u32_at, words_bytes};

verus! {

/// Offsets of the Direct3D 8 entry points.
#[derive(Debug, Default, Clone, Copy, PartialEq, Eq, Structural)]
pub struct D3D8 {
    pub present: u32,
}

/// Offsets of the Direct3D 9 entry points and class fields.
#[derive(Debug, Default, Clone, Copy, PartialEq, Eq, Structural)]
pub struct D3D9 {
    pub present: u32,
    pub present_ex: u32,
    pub present_swap: u32,
    pub d3d9_clsoff: u32,
    pub is_d3d9ex_clsoff: u32,
}

/// Offsets of the DXGI entry points.
#[allow(clippy::upper_case_acronyms)]
#[derive(Debug, Default, Clone, Copy, PartialEq, Eq, Structural)]
pub struct DXGI {
    pub present: u32,
    pub present1: u32,
    pub resize: u32,
}

/// Offsets of the DirectDraw entry points; never filled by the loader.
#[derive(Debug, Default, Clone, Copy, PartialEq, Eq, Structural)]
pub struct DDraw {
    pub surface_create: u32,
    pub surface_restore: u32,
    pub surface_release: u32,
    pub surface_unlock: u32,
    pub surface_blt: u32,
    pub surface_flip: u32,
    pub surface_set_palette: u32,
    pub palette_set_entries: u32,
}

/// The offsets the offset-discovery program reports.
#[derive(Debug, Default, Clone, Copy, PartialEq, Eq, Structural)]
pub struct ParsedGraphicOffsets {
    pub d3d8: D3D8,
    pub d3d9: D3D9,
    pub dxgi: DXGI,
}

/// The offsets record the hook reads from its control block.
#[derive(Debug, Default, Clone, Copy, PartialEq, Eq, Structural)]
pub struct GraphicOffsets {
    pub d3d8: D3D8,
    pub d3d9: D3D9,
    pub dxgi: DXGI,
    pub ddraw: DDraw,
}

/// Size in bytes of the offsets record in the hook's layout.
pub const GRAPHIC_OFFSETS_SIZE: usize = 68;


impl DDraw {
    /// Whether every field is zero.
    pub open spec fn is_zero(&self) -> bool {
        &&& self.surface_create == 0
        &&& self.surface_restore == 0
        &&& self.surface_release == 0
        &&& self.surface_unlock == 0
        &&& self.surface_blt == 0
        &&& self.surface_flip == 0
        &&& self.surface_set_palette == 0
        &&& self.palette_set_entries == 0
    }

    /// The all-zero record.
    pub fn zeroed() -> (r: DDraw)
        ensures
            r.is_zero(),
    {
        DDraw {
            surface_create: 0,
            surface_restore: 0,
            surface_release: 0,
            surface_unlock: 0,
            surface_blt: 0,
            surface_flip: 0,
            surface_set_palette: 0,
            palette_set_entries: 0,
        }
    }
}

impl GraphicOffsets {
    /// The fields of the record, in the hook's order.
    pub open spec fn fields(&self) -> Seq<u32> {
        seq![
            self.d3d8.present,
            self.d3d9.present,
            self.d3d9.present_ex,
            self.d3d9.present_swap,
            self.d3d9.d3d9_clsoff,
            self.d3d9.is_d3d9ex_clsoff,
            self.dxgi.present,
            self.dxgi.present1,
            self.dxgi.resize,
            self.ddraw.surface_create,
            self.ddraw.surface_restore,
            self.ddraw.surface_release,
            self.ddraw.surface_unlock,
            self.ddraw.surface_blt,
            self.ddraw.surface_flip,
            self.ddraw.surface_set_palette,
            self.ddraw.palette_set_entries,
        ]
    }

    /// The bytes of the record as the hook lays it out: each field
    /// little-endian, in order, without padding.
    pub open spec fn spec_bytes(&self) -> Seq<u8> {
        words_bytes(self.fields())
    }

    /// The record whose bytes start at byte `at` of `b`.
    pub open spec fn spec_from_bytes(b: Seq<u8>, at: int) -> GraphicOffsets {
        GraphicOffsets {
            d3d8: D3D8 { present: u32_at(b, at) },
            d3d9: D3D9 {
                present: u32_at(b, at + 4),
                present_ex: u32_at(b, at + 8),
                present_swap: u32_at(b, at + 12),
                d3d9_clsoff: u32_at(b, at + 16),
                is_d3d9ex_clsoff: u32_at(b, at + 20),
            },
            dxgi: DXGI {
                present: u32_at(b, at + 24),
                present1: u32_at(b, at + 28),
                resize: u32_at(b, at + 32),
            },
            ddraw: DDraw {
                surface_create: u32_at(b, at + 36),
                surface_restore: u32_at(b, at + 40),
                surface_release: u32_at(b, at + 44),
                surface_unlock: u32_at(b, at + 48),
                surface_blt: u32_at(b, at + 52),
                surface_flip: u32_at(b, at + 56),
                surface_set_palette: u32_at(b, at + 60),
                palette_set_entries: u32_at(b, at + 64),
            },
        }
    }

    /// The fields of the record, in the hook's order.
    pub fn to_fields(&self) -> (r: Vec<u32>)
        ensures
            r@ == self.fields(),
    {
        let r: Vec<u32> = vec![
            self.d3d8.present,
            self.d3d9.present,
            self.d3d9.present_ex,
            self.d3d9.present_swap,
            self.d3d9.d3d9_clsoff,
            self.d3d9.is_d3d9ex_clsoff,
            self.dxgi.present,
            self.dxgi.present1,
            self.dxgi.resize,
            self.ddraw.surface_create,
            self.ddraw.surface_restore,
            self.ddraw.surface_release,
            self.ddraw.surface_unlock,
            self.ddraw.surface_blt,
            self.ddraw.surface_flip,
            self.ddraw.surface_set_palette,
            self.ddraw.palette_set_entries,
        ];
        proof {
            assert(r@ =~= self.fields());
        }
        r
    }

    /// The record's bytes as the hook reads them.
    pub fn to_bytes(&self) -> (r: Vec<u8>)
        ensures
            r@ == self.spec_bytes(),
            r@.len() == GRAPHIC_OFFSETS_SIZE,
    {
        let fields = self.to_fields();
        proof {
            lemma_words_len(self.fields());
        }
        encode_words(&fields)
    }

    /// Reads the record whose bytes start at byte `at`.
    pub fn from_bytes(b: &[u8], at: usize) -> (r: GraphicOffsets)
        requires
            at + GRAPHIC_OFFSETS_SIZE <= b@.len(),
        ensures
            r == Self::spec_from_bytes(b@, at as int),
    {
        let w = decode_words(b, at, 17);
        GraphicOffsets {
            d3d8: D3D8 { present: w[0] },
            d3d9: D3D9 {
                present: w[1],
                present_ex: w[2],
                present_swap: w[3],
                d3d9_clsoff: w[4],
                is_d3d9ex_clsoff: w[5],
            },
            dxgi: DXGI { present: w[6], present1: w[7], resize: w[8] },
            ddraw: DDraw {
                surface_create: w[9],
                surface_restore: w[10],
                surface_release: w[11],
                surface_unlock: w[12],
                surface_blt: w[13],
                surface_flip: w[14],
                surface_set_palette: w[15],
                palette_set_entries: w[16],
            },
        }
    }

    /// The record completed by an all-zero DirectDraw part.
    pub fn from_parsed(parsed: ParsedGraphicOffsets) -> (r: GraphicOffsets)
        ensures
            r.d3d8 == parsed.d3d8,
            r.d3d9 == parsed.d3d9,
            r.dxgi == parsed.dxgi,
            r.ddraw.is_zero(),
    {
        GraphicOffsets { d3d8: parsed.d3d8, d3d9: parsed.d3d9, dxgi: parsed.dxgi, ddraw: DDraw::zeroed() }
    }
}

/// Reading a record back from its bytes gives the record.
pub proof fn lemma_offsets_round_trip(g: GraphicOffsets)
    ensures
        g.spec_bytes().len() == GRAPHIC_OFFSETS_SIZE,
        GraphicOffsets::spec_from_bytes(g.spec_bytes(), 0) == g,
{
    let f = g.fields();
    lemma_words_len(f);
    assert forall|i: int| 0 <= i < 17 implies u32_at(words_bytes(f), 4 * i) == f[i] by {
        lemma_words_at(f, i);
    }
    let b = g.spec_bytes();
    assert(u32_at(b, 0) == f[0]);
    assert(u32_at(b, 4) == f[1]);
    assert(u32_at(b, 8) == f[2]);
    assert(u32_at(b, 12) == f[3]);
    assert(u32_at(b, 16) == f[4]);
    assert(u32_at(b, 20) == f[5]);
    assert(u32_at(b, 24) == f[6]);
    assert(u32_at(b, 28) == f[7]);
    assert(u32_at(b, 32) == f[8]);
    assert(u32_at(b, 36) == f[9]);
    assert(u32_at(b, 40) == f[10]);
    assert(u32_at(b, 44) == f[11]);
    assert(u32_at(b, 48) == f[12]);
    assert(u32_at(b, 52) == f[13]);
    assert(u32_at(b, 56) == f[14]);
    assert(u32_at(b, 60) == f[15]);
    assert(u32_at(b, 64) == f[16]);
}

} // verus!
