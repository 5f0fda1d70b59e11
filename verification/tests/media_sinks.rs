use gphoto::media::{create_flags, exclusive_flags, opened, Backing, CREATE_MODE};
use gphoto::{ErrorKind, FileMedia, Media};

fn occupied() -> i32 {
    create_flags().occupied
}

#[test]
fn create_on_a_free_path_gives_a_disk_backed_sink() {
    let media = FileMedia::create(b"/tmp/capture.jpg", 7, 0, occupied(), 0).unwrap();
    assert_eq!(media.backed_by(), Backing::Descriptor(7));
    let media = FileMedia::create(b"relative.jpg", 0, libc::EEXIST, occupied(), 0).unwrap();
    assert_eq!(media.backed_by(), Backing::Descriptor(0));
}

#[test]
fn create_on_an_occupied_path_is_file_exists() {
    let e = FileMedia::create(b"/tmp/capture.jpg", -1, libc::EEXIST, occupied(), 0).unwrap_err();
    assert_eq!(e.kind(), ErrorKind::FileExists);
    assert_eq!(e.code(), -103);
    let e = FileMedia::create(b"/tmp/capture.jpg", -1, libc::EEXIST, occupied(), -7).unwrap_err();
    assert_eq!(e.kind(), ErrorKind::FileExists);
}

#[test]
fn create_that_fails_on_a_free_path_is_io_failure() {
    for errno in [libc::ENOENT, libc::EACCES, libc::ENOTDIR, libc::EROFS, libc::EMFILE, 0] {
        let e = FileMedia::create(b"/missing/capture.jpg", -1, errno, occupied(), 0).unwrap_err();
        assert_eq!(e.kind(), ErrorKind::IoFailure, "errno {}", errno);
        assert_ne!(e.kind(), ErrorKind::FileExists);
        assert_eq!(e.code(), -114);
    }
    let e = FileMedia::create(b"a", i32::MIN, libc::ENOENT, occupied(), 0).unwrap_err();
    assert_eq!(e.kind(), ErrorKind::IoFailure);
}

#[test]
fn create_with_a_nul_in_the_path_is_bad_parameters() {
    let e = FileMedia::create(b"/tmp/cap\0ture.jpg", 7, 0, occupied(), 0).unwrap_err();
    assert_eq!(e.kind(), ErrorKind::BadParameters);
    assert_eq!(e.code(), -2);
    let e = FileMedia::create(b"/tmp/cap\0ture.jpg", -1, libc::EEXIST, occupied(), -7).unwrap_err();
    assert_eq!(e.kind(), ErrorKind::BadParameters);
}

#[test]
fn create_passes_on_a_native_refusal() {
    let e = FileMedia::create(b"/tmp/capture.jpg", 7, 0, occupied(), -3).unwrap_err();
    assert_eq!(e.kind(), ErrorKind::IoFailure);
    assert_eq!(e.code(), -3);
}

#[test]
fn opened_judges_the_descriptor() {
    assert_eq!(opened(0, 0, occupied()).unwrap(), 0);
    assert_eq!(opened(12, libc::EEXIST, occupied()).unwrap(), 12);
    let e = opened(-1, libc::EEXIST, occupied()).unwrap_err();
    assert_eq!(e.kind(), ErrorKind::FileExists);
    assert_eq!(e.code(), -103);
    let e = opened(-1, libc::ENOENT, occupied()).unwrap_err();
    assert_eq!(e.kind(), ErrorKind::IoFailure);
    assert_eq!(e.code(), -114);
}

#[test]
fn files_are_created_exclusively() {
    let flags = create_flags();
    assert_eq!(flags.create, libc::O_CREAT);
    assert_eq!(flags.exclusive, libc::O_EXCL);
    assert_eq!(flags.read_write, libc::O_RDWR);
    assert_eq!(flags.bits, libc::O_CREAT | libc::O_EXCL | libc::O_RDWR);
    assert_eq!(flags.bits & libc::O_EXCL, libc::O_EXCL);
    assert_eq!(flags.bits & libc::O_CREAT, libc::O_CREAT);
    assert_eq!(flags.bits & libc::O_RDWR, libc::O_RDWR);
    assert_ne!(libc::O_EXCL, 0);
    assert_eq!(flags.occupied, libc::EEXIST);
    assert_eq!(CREATE_MODE, 0o644);
}

#[test]
fn exclusive_flags_joins_the_three() {
    assert_eq!(exclusive_flags(0o100, 0o200, 0o2), 0o302);
    assert_eq!(exclusive_flags(0x200, 0x800, 0x2), 0xa02);
    assert_eq!(exclusive_flags(0, 0, 0), 0);
}

#[test]
fn a_new_sink_is_in_memory() {
    let media = FileMedia::new(0).unwrap();
    assert_eq!(media.backed_by(), Backing::Memory);
}

#[test]
fn a_sink_that_was_not_allocated_is_an_error() {
    let e = FileMedia::new(-3).unwrap_err();
    assert_eq!(e.code(), -3);
    assert_eq!(e.kind(), ErrorKind::IoFailure);
}

#[test]
fn a_sink_takes_over_an_open_descriptor() {
    let media = FileMedia::from_descriptor(9, 0).unwrap();
    assert_eq!(media.backed_by(), Backing::Descriptor(9));
    let e = FileMedia::from_descriptor(9, -3).unwrap_err();
    assert_eq!(e.code(), -3);
}

#[test]
fn data_is_the_view_that_the_native_layer_gave() {
    let media = FileMedia::new(0).unwrap();
    let bytes = [0xffu8, 0xd8, 0xff, 0xe0, 0x00];
    assert_eq!(media.data(0, &bytes).unwrap(), &bytes);
    assert_eq!(media.data(0, &[]).unwrap(), &[] as &[u8]);
}

#[test]
fn data_that_could_not_be_read_is_an_error() {
    let media = FileMedia::from_descriptor(4, 0).unwrap();
    let e = media.data(-7, &[]).unwrap_err();
    assert_eq!(e.code(), -7);
    assert_eq!(e.kind(), ErrorKind::IoFailure);
}
