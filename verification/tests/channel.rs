use sowm::channel::{socket_file_path, socket_path_for_uid, ChannelEntry, ChannelError};

#[test]
fn removal_twice_in_a_row_never_errors_the_second_time() {
    let mut entry = ChannelEntry::new(true);
    assert_eq!(entry.remove(true), Ok(()));
    assert!(!entry.is_present());
    // The second call needs nothing from the filesystem, so it succeeds
    // whatever the filesystem would answer.
    assert_eq!(entry.remove(true), Ok(()));
    assert_eq!(entry.remove(false), Ok(()));
    assert!(!entry.is_present());
}

#[test]
fn removing_an_absent_entry_is_no_error() {
    let mut entry = ChannelEntry::new(false);
    assert_eq!(entry.remove(false), Ok(()));
    assert_eq!(entry.remove(true), Ok(()));
}

#[test]
fn failed_filesystem_removal_is_reported_and_leaves_the_entry() {
    let mut entry = ChannelEntry::new(true);
    assert_eq!(entry.remove(false), Err(ChannelError::RemoveFailed));
    assert!(entry.is_present());
    // Once the filesystem cooperates the entry goes away.
    assert_eq!(entry.remove(true), Ok(()));
    assert!(!entry.is_present());
}

#[test]
fn creating_over_an_occupied_path_is_refused() {
    let mut stale = ChannelEntry::new(true);
    assert_eq!(stale.create(), Err(ChannelError::AddrInUse));
    assert!(stale.is_present());

    let mut fresh = ChannelEntry::new(false);
    assert_eq!(fresh.create(), Ok(()));
    assert!(fresh.is_present());
    assert_eq!(fresh.create(), Err(ChannelError::AddrInUse));
}

#[test]
fn socket_path_spells_the_uid_in_decimal() {
    assert_eq!(socket_path_for_uid(1000), b"/run/user/1000/sowm.fifo".to_vec());
    assert_eq!(socket_path_for_uid(0), b"/run/user/0/sowm.fifo".to_vec());
    assert_eq!(
        socket_path_for_uid(u32::MAX),
        b"/run/user/4294967295/sowm.fifo".to_vec()
    );
}

#[test]
fn socket_file_path_lies_in_the_user_runtime_directory() {
    let path = socket_file_path();
    assert!(path.starts_with(b"/run/user/"));
    assert!(path.ends_with(b"/sowm.fifo"));
}
