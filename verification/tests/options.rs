use direct_storage::options::{
    DSTORAGE_COMPRESSION_FORMAT_GDEFLATE, DSTORAGE_COMPRESSION_FORMAT_NONE,
    DSTORAGE_CUSTOM_COMPRESSION_0, DSTORAGE_REQUEST_DESTINATION_BUFFER,
    DSTORAGE_REQUEST_DESTINATION_MEMORY, DSTORAGE_REQUEST_DESTINATION_TEXTURE_REGION,
    DSTORAGE_REQUEST_DESTINATION_TILES, DSTORAGE_REQUEST_OPTIONS, DSTORAGE_REQUEST_SOURCE_FILE,
    DSTORAGE_REQUEST_SOURCE_MEMORY,
};

#[test]
fn test_bitfield() {
    let mut options = DSTORAGE_REQUEST_OPTIONS::default();
    options.set_CompressionFormat(DSTORAGE_COMPRESSION_FORMAT_GDEFLATE);
    assert_eq!(
        options.CompressionFormat(),
        DSTORAGE_COMPRESSION_FORMAT_GDEFLATE
    );

    options.set_SourceType(DSTORAGE_REQUEST_SOURCE_MEMORY);
    assert_eq!(options.SourceType(), DSTORAGE_REQUEST_SOURCE_MEMORY);

    options.set_DestinationType(DSTORAGE_REQUEST_DESTINATION_TEXTURE_REGION);
    assert_eq!(
        options.DestinationType(),
        DSTORAGE_REQUEST_DESTINATION_TEXTURE_REGION
    );

    options.set_CompressionFormat(DSTORAGE_COMPRESSION_FORMAT_NONE);
    options.set_SourceType(DSTORAGE_REQUEST_SOURCE_FILE);
    options.set_DestinationType(DSTORAGE_REQUEST_DESTINATION_MEMORY);

    assert_eq!(options, DSTORAGE_REQUEST_OPTIONS::default());
}

#[test]
fn default_options_decode_to_the_zero_variants() {
    let options = DSTORAGE_REQUEST_OPTIONS::default();
    assert_eq!(options._bitfield1, 0);
    assert_eq!(options._bitfield2, 0);
    assert_eq!(options.CompressionFormat(), DSTORAGE_COMPRESSION_FORMAT_NONE);
    assert_eq!(options.SourceType(), DSTORAGE_REQUEST_SOURCE_FILE);
    assert_eq!(options.DestinationType(), DSTORAGE_REQUEST_DESTINATION_MEMORY);
}

#[test]
fn every_value_within_its_width_reads_back() {
    for format in 0..=255u8 {
        let mut options = DSTORAGE_REQUEST_OPTIONS::default();
        options.set_CompressionFormat(format);
        assert_eq!(options.CompressionFormat(), format);
    }
    for source in 0..=1u64 {
        for destination in 0..=127u64 {
            let mut options = DSTORAGE_REQUEST_OPTIONS::default();
            options.set_SourceType(source);
            options.set_DestinationType(destination);
            assert_eq!(options.SourceType(), source);
            assert_eq!(options.DestinationType(), destination);
        }
    }
}

#[test]
fn fields_are_packed_where_msvc_packs_them() {
    let mut options = DSTORAGE_REQUEST_OPTIONS::default();
    options.set_CompressionFormat(DSTORAGE_CUSTOM_COMPRESSION_0);
    options.set_SourceType(DSTORAGE_REQUEST_SOURCE_MEMORY);
    options.set_DestinationType(DSTORAGE_REQUEST_DESTINATION_TILES);
    // The format has a byte of its own; bit 0 of the word is the source
    // type, bits 1 to 7 are the destination type.
    assert_eq!(options._bitfield1, 0x80);
    assert_eq!(options._bitfield2, 0b0000_1001);
}

#[test]
fn values_wider_than_the_field_are_cut_down() {
    let mut options = DSTORAGE_REQUEST_OPTIONS::default();
    options.set_SourceType(2);
    assert_eq!(options.SourceType(), 0);
    options.set_SourceType(3);
    assert_eq!(options.SourceType(), 1);
    options.set_SourceType(u64::MAX);
    assert_eq!(options.SourceType(), 1);

    options.set_DestinationType(128);
    assert_eq!(options.DestinationType(), 0);
    options.set_DestinationType(0x1ff);
    assert_eq!(options.DestinationType(), 0x7f);
    options.set_DestinationType(u64::MAX);
    assert_eq!(options.DestinationType(), 0x7f);
    // Nothing spilled into the neighbours.
    assert_eq!(options.SourceType(), 1);
    assert_eq!(options._bitfield2, 0xff);
}

#[test]
fn setting_one_field_leaves_the_others_alone() {
    let reserved = 0xdead_beef_cafe_0000u64 | 0x0000_0000_0000_ff00;
    let mut options = DSTORAGE_REQUEST_OPTIONS {
        _bitfield1: 7,
        _bitfield2: reserved | 0b0000_0101,
    };
    assert_eq!(options.SourceType(), 1);
    assert_eq!(options.DestinationType(), 2);

    options.set_SourceType(DSTORAGE_REQUEST_SOURCE_FILE);
    assert_eq!(options.CompressionFormat(), 7);
    assert_eq!(options.DestinationType(), 2);
    assert_eq!(options._bitfield2 & !0xff, reserved);

    options.set_DestinationType(DSTORAGE_REQUEST_DESTINATION_BUFFER);
    assert_eq!(options.CompressionFormat(), 7);
    assert_eq!(options.SourceType(), 0);
    assert_eq!(options._bitfield2 & !0xff, reserved);

    options.set_CompressionFormat(DSTORAGE_COMPRESSION_FORMAT_GDEFLATE);
    assert_eq!(options.SourceType(), 0);
    assert_eq!(options.DestinationType(), 1);
    assert_eq!(options._bitfield2, reserved | 0b0000_0010);
}
