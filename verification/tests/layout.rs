use direct_storage::layout::{align_of, size_of, AbiType, PointerWidth};

#[test]
fn test_msvc_compat_32bit() {
    let width = PointerWidth::Bits32;

    assert_eq!(size_of(AbiType::DSTORAGE_PRIORITY, width), 1);
    assert_eq!(align_of(AbiType::DSTORAGE_PRIORITY, width), 1);

    assert_eq!(size_of(AbiType::DSTORAGE_REQUEST_SOURCE_TYPE, width), 8);
    assert_eq!(align_of(AbiType::DSTORAGE_REQUEST_SOURCE_TYPE, width), 8);

    assert_eq!(size_of(AbiType::DSTORAGE_REQUEST_DESTINATION_TYPE, width), 8);
    assert_eq!(align_of(AbiType::DSTORAGE_REQUEST_DESTINATION_TYPE, width), 8);

    assert_eq!(size_of(AbiType::DSTORAGE_QUEUE_DESC, width), 24);
    assert_eq!(align_of(AbiType::DSTORAGE_QUEUE_DESC, width), 8);

    assert_eq!(size_of(AbiType::DSTORAGE_QUEUE_INFO, width), 32);
    assert_eq!(align_of(AbiType::DSTORAGE_QUEUE_INFO, width), 8);

    assert_eq!(size_of(AbiType::DSTORAGE_COMPRESSION_FORMAT, width), 1);
    assert_eq!(align_of(AbiType::DSTORAGE_COMPRESSION_FORMAT, width), 1);

    assert_eq!(size_of(AbiType::DSTORAGE_REQUEST_OPTIONS, width), 16);
    assert_eq!(align_of(AbiType::DSTORAGE_REQUEST_OPTIONS, width), 8);

    assert_eq!(size_of(AbiType::DSTORAGE_DEBUG, width), 4);
    assert_eq!(align_of(AbiType::DSTORAGE_DEBUG, width), 4);

    assert_eq!(size_of(AbiType::DSTORAGE_SOURCE_FILE, width), 24);
    assert_eq!(align_of(AbiType::DSTORAGE_SOURCE_FILE, width), 8);

    assert_eq!(size_of(AbiType::DSTORAGE_SOURCE_MEMORY, width), 8);
    assert_eq!(align_of(AbiType::DSTORAGE_SOURCE_MEMORY, width), 4);

    assert_eq!(size_of(AbiType::DSTORAGE_DESTINATION_MEMORY, width), 8);
    assert_eq!(align_of(AbiType::DSTORAGE_DESTINATION_MEMORY, width), 4);

    assert_eq!(size_of(AbiType::DSTORAGE_DESTINATION_BUFFER, width), 24);
    assert_eq!(align_of(AbiType::DSTORAGE_DESTINATION_BUFFER, width), 8);

    assert_eq!(size_of(AbiType::DSTORAGE_DESTINATION_TEXTURE_REGION, width), 32);
    assert_eq!(align_of(AbiType::DSTORAGE_DESTINATION_TEXTURE_REGION, width), 4);

    assert_eq!(size_of(AbiType::DSTORAGE_DESTINATION_MULTIPLE_SUBRESOURCES, width), 8);
    assert_eq!(align_of(AbiType::DSTORAGE_DESTINATION_MULTIPLE_SUBRESOURCES, width), 4);

    assert_eq!(size_of(AbiType::DSTORAGE_DESTINATION_TILES, width), 36);
    assert_eq!(align_of(AbiType::DSTORAGE_DESTINATION_TILES, width), 4);

    assert_eq!(size_of(AbiType::DSTORAGE_SOURCE, width), 24);
    assert_eq!(align_of(AbiType::DSTORAGE_SOURCE, width), 8);

    assert_eq!(size_of(AbiType::DSTORAGE_DESTINATION, width), 40);
    assert_eq!(align_of(AbiType::DSTORAGE_DESTINATION, width), 8);

    assert_eq!(size_of(AbiType::DSTORAGE_REQUEST, width), 104);
    assert_eq!(align_of(AbiType::DSTORAGE_REQUEST, width), 8);

    assert_eq!(size_of(AbiType::DSTORAGE_COMMAND_TYPE, width), 4);
    assert_eq!(align_of(AbiType::DSTORAGE_COMMAND_TYPE, width), 4);

    assert_eq!(size_of(AbiType::DSTORAGE_ERROR_PARAMETERS_REQUEST, width), 688);
    assert_eq!(align_of(AbiType::DSTORAGE_ERROR_PARAMETERS_REQUEST, width), 8);

    assert_eq!(size_of(AbiType::DSTORAGE_ERROR_PARAMETERS_STATUS, width), 8);
    assert_eq!(align_of(AbiType::DSTORAGE_ERROR_PARAMETERS_STATUS, width), 4);

    assert_eq!(size_of(AbiType::DSTORAGE_ERROR_PARAMETERS_SIGNAL, width), 16);
    assert_eq!(align_of(AbiType::DSTORAGE_ERROR_PARAMETERS_SIGNAL, width), 8);

    assert_eq!(size_of(AbiType::DSTORAGE_ERROR_PARAMETERS_EVENT, width), 4);
    assert_eq!(align_of(AbiType::DSTORAGE_ERROR_PARAMETERS_EVENT, width), 4);

    assert_eq!(size_of(AbiType::DSTORAGE_ERROR_FIRST_FAILURE, width), 696);
    assert_eq!(align_of(AbiType::DSTORAGE_ERROR_FIRST_FAILURE, width), 8);

    assert_eq!(size_of(AbiType::DSTORAGE_ERROR_RECORD, width), 704);
    assert_eq!(align_of(AbiType::DSTORAGE_ERROR_RECORD, width), 8);

    assert_eq!(size_of(AbiType::DSTORAGE_STAGING_BUFFER_SIZE, width), 4);
    assert_eq!(align_of(AbiType::DSTORAGE_STAGING_BUFFER_SIZE, width), 4);

    assert_eq!(size_of(AbiType::DSTORAGE_GET_REQUEST_FLAGS, width), 4);
    assert_eq!(align_of(AbiType::DSTORAGE_GET_REQUEST_FLAGS, width), 4);

    assert_eq!(size_of(AbiType::DSTORAGE_CUSTOM_DECOMPRESSION_FLAGS, width), 4);
    assert_eq!(align_of(AbiType::DSTORAGE_CUSTOM_DECOMPRESSION_FLAGS, width), 4);

    assert_eq!(size_of(AbiType::DSTORAGE_CUSTOM_DECOMPRESSION_REQUEST, width), 48);
    assert_eq!(align_of(AbiType::DSTORAGE_CUSTOM_DECOMPRESSION_REQUEST, width), 8);

    assert_eq!(size_of(AbiType::DSTORAGE_CUSTOM_DECOMPRESSION_RESULT, width), 16);
    assert_eq!(align_of(AbiType::DSTORAGE_CUSTOM_DECOMPRESSION_RESULT, width), 8);

    assert_eq!(size_of(AbiType::DSTORAGE_CONFIGURATION, width), 28);
    assert_eq!(align_of(AbiType::DSTORAGE_CONFIGURATION, width), 4);

    assert_eq!(size_of(AbiType::DSTORAGE_COMPRESSION, width), 4);
    assert_eq!(align_of(AbiType::DSTORAGE_COMPRESSION, width), 4);
}

#[test]
fn test_msvc_compat_64bit() {
    let width = PointerWidth::Bits64;

    assert_eq!(size_of(AbiType::DSTORAGE_PRIORITY, width), 1);
    assert_eq!(align_of(AbiType::DSTORAGE_PRIORITY, width), 1);

    assert_eq!(size_of(AbiType::DSTORAGE_REQUEST_SOURCE_TYPE, width), 8);
    assert_eq!(align_of(AbiType::DSTORAGE_REQUEST_SOURCE_TYPE, width), 8);

    assert_eq!(size_of(AbiType::DSTORAGE_REQUEST_DESTINATION_TYPE, width), 8);
    assert_eq!(align_of(AbiType::DSTORAGE_REQUEST_DESTINATION_TYPE, width), 8);

    assert_eq!(size_of(AbiType::DSTORAGE_QUEUE_DESC, width), 32);
    assert_eq!(align_of(AbiType::DSTORAGE_QUEUE_DESC, width), 8);

    assert_eq!(size_of(AbiType::DSTORAGE_QUEUE_INFO, width), 40);
    assert_eq!(align_of(AbiType::DSTORAGE_QUEUE_INFO, width), 8);

    assert_eq!(size_of(AbiType::DSTORAGE_COMPRESSION_FORMAT, width), 1);
    assert_eq!(align_of(AbiType::DSTORAGE_COMPRESSION_FORMAT, width), 1);

    assert_eq!(size_of(AbiType::DSTORAGE_REQUEST_OPTIONS, width), 16);
    assert_eq!(align_of(AbiType::DSTORAGE_REQUEST_OPTIONS, width), 8);

    assert_eq!(size_of(AbiType::DSTORAGE_DEBUG, width), 4);
    assert_eq!(align_of(AbiType::DSTORAGE_DEBUG, width), 4);

    assert_eq!(size_of(AbiType::DSTORAGE_SOURCE_FILE, width), 24);
    assert_eq!(align_of(AbiType::DSTORAGE_SOURCE_FILE, width), 8);

    assert_eq!(size_of(AbiType::DSTORAGE_SOURCE_MEMORY, width), 16);
    assert_eq!(align_of(AbiType::DSTORAGE_SOURCE_MEMORY, width), 8);

    assert_eq!(size_of(AbiType::DSTORAGE_DESTINATION_MEMORY, width), 16);
    assert_eq!(align_of(AbiType::DSTORAGE_DESTINATION_MEMORY, width), 8);

    assert_eq!(size_of(AbiType::DSTORAGE_DESTINATION_BUFFER, width), 24);
    assert_eq!(align_of(AbiType::DSTORAGE_DESTINATION_BUFFER, width), 8);

    assert_eq!(size_of(AbiType::DSTORAGE_DESTINATION_TEXTURE_REGION, width), 40);
    assert_eq!(align_of(AbiType::DSTORAGE_DESTINATION_TEXTURE_REGION, width), 8);

    assert_eq!(size_of(AbiType::DSTORAGE_DESTINATION_MULTIPLE_SUBRESOURCES, width), 16);
    assert_eq!(align_of(AbiType::DSTORAGE_DESTINATION_MULTIPLE_SUBRESOURCES, width), 8);

    assert_eq!(size_of(AbiType::DSTORAGE_DESTINATION_TILES, width), 40);
    assert_eq!(align_of(AbiType::DSTORAGE_DESTINATION_TILES, width), 8);

    assert_eq!(size_of(AbiType::DSTORAGE_SOURCE, width), 24);
    assert_eq!(align_of(AbiType::DSTORAGE_SOURCE, width), 8);

    assert_eq!(size_of(AbiType::DSTORAGE_DESTINATION, width), 40);
    assert_eq!(align_of(AbiType::DSTORAGE_DESTINATION, width), 8);

    assert_eq!(size_of(AbiType::DSTORAGE_REQUEST, width), 104);
    assert_eq!(align_of(AbiType::DSTORAGE_REQUEST, width), 8);

    assert_eq!(size_of(AbiType::DSTORAGE_COMMAND_TYPE, width), 4);
    assert_eq!(align_of(AbiType::DSTORAGE_COMMAND_TYPE, width), 4);

    assert_eq!(size_of(AbiType::DSTORAGE_ERROR_PARAMETERS_REQUEST, width), 688);
    assert_eq!(align_of(AbiType::DSTORAGE_ERROR_PARAMETERS_REQUEST, width), 8);

    assert_eq!(size_of(AbiType::DSTORAGE_ERROR_PARAMETERS_STATUS, width), 16);
    assert_eq!(align_of(AbiType::DSTORAGE_ERROR_PARAMETERS_STATUS, width), 8);

    assert_eq!(size_of(AbiType::DSTORAGE_ERROR_PARAMETERS_SIGNAL, width), 16);
    assert_eq!(align_of(AbiType::DSTORAGE_ERROR_PARAMETERS_SIGNAL, width), 8);

    assert_eq!(size_of(AbiType::DSTORAGE_ERROR_PARAMETERS_EVENT, width), 8);
    assert_eq!(align_of(AbiType::DSTORAGE_ERROR_PARAMETERS_EVENT, width), 8);

    assert_eq!(size_of(AbiType::DSTORAGE_ERROR_FIRST_FAILURE, width), 696);
    assert_eq!(align_of(AbiType::DSTORAGE_ERROR_FIRST_FAILURE, width), 8);

    assert_eq!(size_of(AbiType::DSTORAGE_ERROR_RECORD, width), 704);
    assert_eq!(align_of(AbiType::DSTORAGE_ERROR_RECORD, width), 8);

    assert_eq!(size_of(AbiType::DSTORAGE_STAGING_BUFFER_SIZE, width), 4);
    assert_eq!(align_of(AbiType::DSTORAGE_STAGING_BUFFER_SIZE, width), 4);

    assert_eq!(size_of(AbiType::DSTORAGE_GET_REQUEST_FLAGS, width), 4);
    assert_eq!(align_of(AbiType::DSTORAGE_GET_REQUEST_FLAGS, width), 4);

    assert_eq!(size_of(AbiType::DSTORAGE_CUSTOM_DECOMPRESSION_FLAGS, width), 4);
    assert_eq!(align_of(AbiType::DSTORAGE_CUSTOM_DECOMPRESSION_FLAGS, width), 4);

    assert_eq!(size_of(AbiType::DSTORAGE_CUSTOM_DECOMPRESSION_REQUEST, width), 48);
    assert_eq!(align_of(AbiType::DSTORAGE_CUSTOM_DECOMPRESSION_REQUEST, width), 8);

    assert_eq!(size_of(AbiType::DSTORAGE_CUSTOM_DECOMPRESSION_RESULT, width), 16);
    assert_eq!(align_of(AbiType::DSTORAGE_CUSTOM_DECOMPRESSION_RESULT, width), 8);

    assert_eq!(size_of(AbiType::DSTORAGE_CONFIGURATION, width), 28);
    assert_eq!(align_of(AbiType::DSTORAGE_CONFIGURATION, width), 4);

    assert_eq!(size_of(AbiType::DSTORAGE_COMPRESSION, width), 4);
    assert_eq!(align_of(AbiType::DSTORAGE_COMPRESSION, width), 4);
}

#[test]
fn layout_of_agrees_with_size_and_align() {
    for width in [PointerWidth::Bits32, PointerWidth::Bits64] {
        for ty in [
            AbiType::DSTORAGE_QUEUE_DESC,
            AbiType::DSTORAGE_REQUEST,
            AbiType::DSTORAGE_ERROR_RECORD,
            AbiType::DSTORAGE_DESTINATION_TILES,
        ] {
            let layout = direct_storage::layout::layout_of(ty, width);
            assert_eq!(layout.size, size_of(ty, width));
            assert_eq!(layout.align, align_of(ty, width));
            assert_eq!(layout.size % layout.align, 0);
        }
    }
}

#[test]
fn pointers_make_the_difference_between_the_widths() {
    // Two pointers are all that a queue description gains on 64 bits.
    assert_eq!(
        size_of(AbiType::DSTORAGE_QUEUE_DESC, PointerWidth::Bits64)
            - size_of(AbiType::DSTORAGE_QUEUE_DESC, PointerWidth::Bits32),
        8
    );
    // A structure of integers alone is the same on both.
    for ty in [
        AbiType::DSTORAGE_REQUEST_OPTIONS,
        AbiType::DSTORAGE_CONFIGURATION,
        AbiType::DSTORAGE_CUSTOM_DECOMPRESSION_RESULT,
    ] {
        assert_eq!(
            direct_storage::layout::layout_of(ty, PointerWidth::Bits32),
            direct_storage::layout::layout_of(ty, PointerWidth::Bits64)
        );
    }
    // A union is as large as its largest member.
    assert_eq!(
        size_of(AbiType::DSTORAGE_SOURCE, PointerWidth::Bits32),
        size_of(AbiType::DSTORAGE_SOURCE_FILE, PointerWidth::Bits32)
    );
    assert_eq!(
        size_of(AbiType::DSTORAGE_DESTINATION, PointerWidth::Bits64),
        size_of(AbiType::DSTORAGE_DESTINATION_TILES, PointerWidth::Bits64)
    );
}
