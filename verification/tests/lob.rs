use mimir::connection::{Handshake, LobGrant};
use mimir::encoding::Info as EncodingInfo;
use mimir::enums::ODPIOracleTypeNum::{Blob, Clob, NClob, Varchar};
use mimir::error::{ErrorKind, Info, Operation, Reason};
use mimir::flags::{ODPIConnCloseMode, DPI_MODE_CONN_CLOSE_DEFAULT};
use mimir::structs::ODPIVersionInfo;
use mimir::{Connection, Context, Lob};

fn connect() -> Connection {
    let ctxt = Context::create(Ok(0x1000)).expect("context");
    let mut ccp = ctxt.init_common_create_params().expect("params");
    ccp.set_encoding("UTF-8");
    ccp.set_nchar_encoding("UTF-8");
    let handshake = Handshake {
        handle: 0x2000,
        encoding: EncodingInfo::new("UTF-8", 4, "UTF-16", 2),
        server_version: ODPIVersionInfo {
            version_num: 12,
            release_num: 1,
            update_num: 0,
            port_release_num: 2,
            port_update_num: 0,
            full_version_num: 1201000200,
        },
        server_release: "Oracle Database 12c".to_string(),
    };
    Connection::create(
        &ctxt,
        Some("user"),
        Some("password"),
        Some("//db.example.com/ORCL"),
        Some(ccp),
        None,
        Ok(handshake),
    )
    .expect("connection")
}

#[test]
fn lob() {
    let mut conn = connect();
    let mut temp_lob = conn
        .new_temp_lob(Blob, Ok(LobGrant { handle: 0x4000, chunk_size: 8132 }))
        .expect("lob");
    let size_in_bytes = temp_lob.get_buffer_size(1024).expect("buffer size");
    assert_eq!(size_in_bytes, 1024);
    let chunk_size = temp_lob.get_chunk_size().expect("chunk size");
    assert_eq!(chunk_size, 8132);
    temp_lob.open_resource().expect("open");
    let is_open = temp_lob.get_is_resource_open().expect("is open");
    assert!(is_open);
    let mut buffer: Vec<u8> = ::std::iter::repeat(0).take(8132).collect();
    temp_lob.write_bytes(&buffer, 1).expect("write");
    let size = temp_lob.get_size().expect("size");
    assert_eq!(size, 8132);
    buffer.clear();
    buffer = ::std::iter::repeat(1).take(8132).collect();
    temp_lob.write_bytes(&buffer, 8133).expect("write");
    let size_after_2 = temp_lob.get_size().expect("size");
    assert_eq!(size_after_2, 16264);
    let outbuf = temp_lob.read_bytes(8132, 2).expect("read");
    assert_eq!(outbuf, [0, 1]);
    temp_lob.close_resource().expect("close");
    let is_open_after_close = temp_lob.get_is_resource_open().expect("is open");
    assert!(!is_open_after_close);
    temp_lob.release(Ok(())).expect("release");

    conn.close(ODPIConnCloseMode::from_bits_truncate(DPI_MODE_CONN_CLOSE_DEFAULT), None, Ok(()))
        .expect("close");
    conn.release(Ok(())).expect("release");
}

#[test]
fn temporary_lob_needs_a_lob_type() {
    let conn = connect();
    let refused = conn.new_temp_lob(Varchar, Ok(LobGrant { handle: 1, chunk_size: 8132 }));
    assert_eq!(
        refused.map(|l| l.inner()),
        Err(ErrorKind::InvalidArgument { reason: Reason::InvalidOracleType })
    );
    let null = conn.new_temp_lob(Clob, Ok(LobGrant { handle: 0, chunk_size: 8132 }));
    assert_eq!(
        null.map(|l| l.inner()),
        Err(ErrorKind::InvalidArgument { reason: Reason::NullHandle })
    );
    let info = Info {
        code: 1,
        offset: 0,
        message: "no temp space".to_string(),
        fn_name: "dpiConn_newTempLob".to_string(),
        action: "create".to_string(),
        sql_state: "HY000".to_string(),
        is_recoverable: false,
    };
    let failed = conn.new_temp_lob(Clob, Err(info.clone()));
    assert_eq!(
        failed.map(|l| l.inner()),
        Err(ErrorKind::NativeCallFailed { operation: Operation::ConnNewTempLob, info })
    );
}

#[test]
fn buffer_size_counts_the_bytes_of_characters() {
    let conn = connect();
    let clob = conn.new_temp_lob(Clob, Ok(LobGrant { handle: 1, chunk_size: 8132 })).expect("clob");
    let nclob = conn.new_temp_lob(NClob, Ok(LobGrant { handle: 2, chunk_size: 8132 })).expect("nclob");
    assert_eq!(clob.get_buffer_size(1024), Ok(4096));
    assert_eq!(nclob.get_buffer_size(1024), Ok(2048));
    assert_eq!(
        clob.get_buffer_size(u64::MAX),
        Err(ErrorKind::InvalidArgument { reason: Reason::ValueTooLarge })
    );
}

#[test]
fn writes_overwrite_and_extend() {
    let mut lob = Lob::new(1, Blob, 8132, 1);
    lob.write_bytes(&vec![1, 2, 3, 4, 5], 1).expect("write");
    lob.write_bytes(&vec![9, 9], 2).expect("write");
    assert_eq!(lob.read_bytes(1, 10), Ok(vec![1, 9, 9, 4, 5]));
    lob.write_bytes(&vec![7, 7, 7], 5).expect("write");
    assert_eq!(lob.get_size(), Ok(7));
    assert_eq!(lob.read_bytes(1, 7), Ok(vec![1, 9, 9, 4, 7, 7, 7]));
    assert_eq!(lob.read_bytes(6, 1), Ok(vec![7]));
    assert_eq!(lob.read_bytes(8, 4), Ok(vec![]));
    assert_eq!(lob.read_bytes(3, 0), Ok(vec![]));
    lob.trim(2).expect("trim");
    assert_eq!(lob.read_bytes(1, 7), Ok(vec![1, 9]));
    assert_eq!(lob.trim(3), Err(ErrorKind::InvalidArgument { reason: Reason::IndexOutOfRange }));
}

#[test]
fn offsets_count_from_one_and_leave_no_gap() {
    let mut lob = Lob::new(1, Blob, 8132, 1);
    let out_of_range = ErrorKind::InvalidArgument { reason: Reason::IndexOutOfRange };
    assert_eq!(lob.write_bytes(&vec![1], 0), Err(out_of_range.clone()));
    assert_eq!(lob.write_bytes(&vec![1], 2), Err(out_of_range.clone()));
    assert_eq!(lob.read_bytes(0, 1), Err(out_of_range));
    assert_eq!(lob.get_size(), Ok(0));
    assert_eq!(lob.write_bytes(&vec![], 1), Ok(()));
    assert_eq!(lob.get_size(), Ok(0));
}

#[test]
fn lob_opens_once_and_closes_once() {
    let mut lob = Lob::new(1, Blob, 8132, 1);
    let wrong = ErrorKind::InvalidArgument { reason: Reason::ResourceNotOpen };
    assert_eq!(lob.close_resource(), Err(wrong.clone()));
    assert_eq!(lob.open_resource(), Ok(()));
    assert_eq!(lob.open_resource(), Err(wrong));
    assert_eq!(lob.close_resource(), Ok(()));
    lob.release(Ok(())).expect("release");
    let not_live = ErrorKind::InvalidArgument { reason: Reason::HandleNotLive };
    assert_eq!(lob.open_resource(), Err(not_live.clone()));
    assert_eq!(lob.write_bytes(&vec![1], 1), Err(not_live.clone()));
    assert_eq!(lob.get_size(), Err(not_live));
}
