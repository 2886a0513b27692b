use ocl_buffer::dims::SpatialDims;
use ocl_buffer::error::Error;

#[test]
fn every_error_has_a_message_of_its_own() {
    let one = SpatialDims::One(1);
    let errors = [
        Error::OffsetOutOfRange { mem_len: 1, data_len: 2, offset: 3 },
        Error::DataLenExceedsBuffer,
        Error::RectCopyParams,
        Error::RectFill,
        Error::RectMap,
        Error::NoOperation,
        Error::MapUsesEnqMap,
        Error::NoMapOperation,
        Error::NotAMapOperation,
        Error::SubBufferOrigin { origin: one, buffer: one },
        Error::SubBufferRegion { origin: one, size: one, buffer: one },
        Error::AlreadyUnmapped,
        Error::UnmapNotDeferred,
    ];
    for (i, a) in errors.iter().enumerate() {
        assert!(!a.message().is_empty());
        for b in errors.iter().skip(i + 1) {
            assert_ne!(a.message(), b.message());
        }
    }
}

#[test]
fn messages_name_the_entry_point_to_use() {
    assert_eq!(
        Error::MapUsesEnqMap.message(),
        "a map operation is consumed by `enq_map`, not by `enq`"
    );
    assert_eq!(
        Error::NotAMapOperation.message(),
        "an operation other than map is consumed by `enq`, not by `enq_map`"
    );
    assert_eq!(
        Error::RectCopyParams.message(),
        "a rectangular copy takes neither a destination offset nor a length: pass `None` for both"
    );
    assert_eq!(Error::DataLenExceedsBuffer.message(), "data length exceeds the length of the memory object");
}
