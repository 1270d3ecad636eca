use obs_client::color::frame_len;
use obs_client::loader::ParseError;
use obs_client::{parse_graphic_offsets, GraphicOffsetsError};

const OUTPUT: &str = "[d3d8]\npresent=0x1a2b\n[d3d9]\npresent=0x10\npresent_ex=0x20\npresent_swap=0x30\nd3d9_clsoff=0x40\nis_d3d9ex_clsoff=0x50\n[dxgi]\npresent=0x60\npresent1=0x70\nresize=0x80\nrelease=0x90\n";

#[test]
fn offsets_are_read_from_the_three_tables() {
    let g = parse_graphic_offsets(OUTPUT).unwrap();
    assert_eq!(g.d3d8.present, 0x1a2b);
    assert_eq!(g.d3d9.present, 0x10);
    assert_eq!(g.d3d9.present_ex, 0x20);
    assert_eq!(g.d3d9.present_swap, 0x30);
    assert_eq!(g.d3d9.d3d9_clsoff, 0x40);
    assert_eq!(g.d3d9.is_d3d9ex_clsoff, 0x50);
    assert_eq!(g.dxgi.present, 0x60);
    assert_eq!(g.dxgi.present1, 0x70);
    assert_eq!(g.dxgi.resize, 0x80);
    assert_eq!(g.ddraw.surface_create, 0);
    assert_eq!(g.ddraw.palette_set_entries, 0);
}

#[test]
fn a_string_where_a_table_belongs_is_a_parse_error() {
    let r = parse_graphic_offsets("d3d8 = \"oops\"");
    assert!(matches!(r, Err(GraphicOffsetsError::ParseOutput(_))));
    assert!(matches!(
        r,
        Err(GraphicOffsetsError::ParseOutput(ParseError::Entry("d3d8", "present")))
    ));
}

#[test]
fn missing_table_and_key_are_reported() {
    let no_dxgi = "[d3d8]\npresent=1\n[d3d9]\npresent=1\npresent_ex=1\npresent_swap=1\nd3d9_clsoff=1\nis_d3d9ex_clsoff=1\n";
    assert!(matches!(
        parse_graphic_offsets(no_dxgi),
        Err(GraphicOffsetsError::ParseOutput(ParseError::Entry("dxgi", "present")))
    ));
    let no_swap = OUTPUT.replace("present_swap=0x30\n", "");
    assert!(matches!(
        parse_graphic_offsets(&no_swap),
        Err(GraphicOffsetsError::ParseOutput(ParseError::Entry("d3d9", "present_swap")))
    ));
}

#[test]
fn values_outside_u32_are_rejected() {
    let too_big = OUTPUT.replace("present=0x1a2b", "present=4294967296");
    assert!(matches!(
        parse_graphic_offsets(&too_big),
        Err(GraphicOffsetsError::ParseOutput(ParseError::Entry("d3d8", "present")))
    ));
    let negative = OUTPUT.replace("resize=0x80", "resize=-1");
    assert!(matches!(
        parse_graphic_offsets(&negative),
        Err(GraphicOffsetsError::ParseOutput(ParseError::Entry("dxgi", "resize")))
    ));
    let largest = OUTPUT.replace("resize=0x80", "resize=4294967295");
    assert_eq!(parse_graphic_offsets(&largest).unwrap().dxgi.resize, u32::MAX);
}

#[test]
fn text_that_is_not_toml_is_a_document_error() {
    assert!(matches!(
        parse_graphic_offsets("[d3d8\npresent="),
        Err(GraphicOffsetsError::ParseOutput(ParseError::Document(_)))
    ));
}

#[test]
fn frame_length_follows_the_stride() {
    assert_eq!(frame_len(7680, 1080, 1), Some(8_294_400));
    assert_eq!(frame_len(7680, 1080, 4), Some(2_073_600));
    assert_eq!(frame_len(7682, 2, 1), Some(7680 * 2));
    assert_eq!(frame_len(8, 3, 8), Some(3));
    assert_eq!(frame_len(0, 1080, 1), Some(0));
    assert_eq!(frame_len(usize::MAX, 5, 1), None);
}
