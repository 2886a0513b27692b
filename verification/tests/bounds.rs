use ocl_buffer::bounds::check_len;
use ocl_buffer::error::Error;

#[test]
fn check_len_accepts_transfer_that_ends_at_the_end() {
    assert_eq!(check_len(10, 5, 5), Ok(()));
}

#[test]
fn check_len_refuses_offset_at_the_end() {
    assert_eq!(
        check_len(10, 0, 10),
        Err(Error::OffsetOutOfRange { mem_len: 10, data_len: 0, offset: 10 })
    );
    assert_eq!(
        check_len(10, 5, 10),
        Err(Error::OffsetOutOfRange { mem_len: 10, data_len: 5, offset: 10 })
    );
}

#[test]
fn check_len_refuses_overrun() {
    assert_eq!(check_len(10, 6, 5), Err(Error::DataLenExceedsBuffer));
}

#[test]
fn check_len_refuses_every_transfer_on_an_empty_object() {
    assert_eq!(
        check_len(0, 0, 0),
        Err(Error::OffsetOutOfRange { mem_len: 0, data_len: 0, offset: 0 })
    );
}

#[test]
fn check_len_reports_bad_offset_before_overrun() {
    assert_eq!(
        check_len(4, 100, 7),
        Err(Error::OffsetOutOfRange { mem_len: 4, data_len: 100, offset: 7 })
    );
}

#[test]
fn check_len_handles_the_largest_lengths() {
    assert_eq!(check_len(usize::MAX, usize::MAX, 0), Ok(()));
    assert_eq!(check_len(usize::MAX, usize::MAX, 1), Err(Error::DataLenExceedsBuffer));
    assert_eq!(check_len(usize::MAX, 1, usize::MAX - 1), Ok(()));
}
