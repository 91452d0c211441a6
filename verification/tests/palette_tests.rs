use dukenukemrust::palette::{Palette, PaletteError};
use std::collections::HashMap;

#[test]
fn test_palette_parse() {
    let mut data = vec![0u8; 770 + 32 * 256];
    // Set first color to full white in 6-bit DAC: 63, 63, 63
    data[0] = 63;
    data[1] = 63;
    data[2] = 63;

    // numshades = 32
    data[768] = 32;
    data[769] = 0;

    let pal = Palette::from_bytes(&data).unwrap();
    assert_eq!(pal.colors[0], [255, 255, 255, 255]);
    assert_eq!(pal.colors[255][3], 0); // Transparent
    assert_eq!(pal.num_shades, 32);
    assert_eq!(pal.shade_tables.len(), 32);
}

#[test]
fn test_lookups() {
    let mut pal = Palette {
        colors: [[255; 4]; 256],
        num_shades: 32,
        shade_tables: Vec::new(),
        lookups: HashMap::new(),
        water_palette: None,
        slime_palette: None,
        title_palette: None,
    };

    // 1 lookup table for pal_id 1
    let mut lookup_data = vec![1u8]; // numlookups = 1
    lookup_data.push(1); // look_pos = 1
    for i in 0..256 {
        lookup_data.push((255 - i) as u8); // Inverted colors
    }

    pal.load_lookups(&lookup_data).unwrap();
    assert_eq!(pal.get_remapped_color_index(0, 1), 255);
    assert_eq!(pal.get_remapped_color_index(10, 1), 245);
    assert_eq!(pal.get_remapped_color_index(10, 0), 10);
}

#[test]
fn palette_dac_scaling_and_errors() {
    assert_eq!(Palette::from_bytes(&[0u8; 767]).unwrap_err(), PaletteError::TooShort);
    let mut data = vec![0u8; 768];
    data[3] = 1;
    data[4] = 32;
    data[5] = 62;
    let pal = Palette::from_bytes(&data).unwrap();
    // 6-bit DAC values scale by 255 / 63
    assert_eq!(pal.colors[1], [4, 129, 250, 255]);
    assert_eq!(pal.num_shades, 32);
    assert!(pal.shade_tables.is_empty());
    let table = Palette::parse_768(&data);
    assert_eq!(table[1], [4, 129, 250, 255]);
}

#[test]
fn palette_color_shading_and_lookup_palettes() {
    let mut data = vec![0u8; 770 + 2 * 256];
    data[3 * 5] = 63; // colour 5 red
    data[3 * 9 + 2] = 63; // colour 9 blue
    data[768] = 2;
    // shade table 1 maps colour 5 to colour 9
    for i in 0..256 {
        data[770 + i] = i as u8;
        data[770 + 256 + i] = i as u8;
    }
    data[770 + 256 + 5] = 9;
    let mut pal = Palette::from_bytes(&data).unwrap();
    assert_eq!(pal.get_color(5, 0, 0), [255, 0, 0, 255]);
    assert_eq!(pal.get_color(5, 0, 1), [0, 0, 255, 255]);
    // shades clamp to the last table
    assert_eq!(pal.get_color(5, 0, 100), [0, 0, 255, 255]);
    assert_eq!(pal.get_color(5, 0, -3), [255, 0, 0, 255]);
    assert_eq!(pal.get_color(255, 0, 0), [0, 0, 0, 0]);

    assert_eq!(pal.load_lookups(&[]).unwrap_err(), PaletteError::EmptyLookup);
    let mut lookup = vec![0u8];
    lookup.extend(std::iter::repeat(63u8).take(768));
    pal.load_lookups(&lookup).unwrap();
    assert_eq!(pal.water_palette.unwrap()[0], [255, 255, 255, 255]);
    assert!(pal.slime_palette.is_none());
    assert!(pal.title_palette.is_none());
}

#[test]
fn transparent_index_ignores_the_shade_count() {
    let mut data = vec![0u8; 770 + 200 * 256];
    data[768] = 200;
    let pal = Palette::from_bytes(&data).unwrap();
    assert_eq!(pal.num_shades, 200);
    assert_eq!(pal.shade_tables.len(), 200);
    assert_eq!(pal.get_color(255, 3, 7), [0, 0, 0, 0]);
}

#[test]
fn palette_and_lookup_success_on_enough_bytes() {
    assert!(Palette::from_bytes(&[0u8; 768]).is_ok());
    assert_eq!(Palette::from_bytes(&[0u8; 767]).unwrap_err(), PaletteError::TooShort);
    let mut pal = Palette::from_bytes(&[0u8; 768]).unwrap();
    // a count byte promising records that are not there still loads
    assert!(pal.load_lookups(&[5u8, 1, 2]).is_ok());
    assert!(pal.lookups.is_empty());
}
