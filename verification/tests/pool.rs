use mimir::connection::Handshake;
use mimir::data::Data;
use mimir::encoding::Info as EncodingInfo;
use mimir::enums::ODPINativeTypeNum::{Bytes, Double};
use mimir::enums::ODPIOracleTypeNum::{Number, Varchar};
use mimir::enums::{ODPIPoolGetMode, ODPIStatementType};
use mimir::error::{ErrorKind, Info, Operation, Reason};
use mimir::flags::{
    ODPIConnCloseMode, ODPIExecMode, ODPIPoolCloseMode, DPI_MODE_CONN_CLOSE_DEFAULT,
    DPI_MODE_EXEC_DEFAULT, DPI_MODE_POOL_CLOSE_DEFAULT,
};
use mimir::pool::PoolGrant;
use mimir::statement::{Description, ExecuteOutcome, RowBatch};
use mimir::structs::{ODPIBytes, ODPIData, ODPIDataValueUnion, ODPIVersionInfo};
use mimir::{Context, Pool, QueryInfo};

fn handshake(handle: u64) -> Handshake {
    Handshake {
        handle,
        encoding: EncodingInfo::new("UTF-8", 4, "UTF-8", 4),
        server_version: ODPIVersionInfo {
            version_num: 12,
            release_num: 1,
            update_num: 0,
            port_release_num: 2,
            port_update_num: 0,
            full_version_num: 1201000200,
        },
        server_release: "Oracle Database 12c Standard Edition Release 12.1.0.2.0 - 64bit Production"
            .to_string(),
    }
}

fn column(name: &str, text: bool) -> QueryInfo {
    QueryInfo {
        name: name.to_string(),
        oracle_type_num: if text { Varchar } else { Number },
        default_native_type_num: if text { Bytes } else { Double },
        db_size_in_bytes: if text { 256 } else { 0 },
        client_size_in_bytes: if text { 256 } else { 0 },
        size_in_chars: if text { 256 } else { 0 },
        precision: if text { 0 } else { 38 },
        scale: 0,
        null_ok: text,
        object_type: None,
    }
}

fn jozias_row() -> Vec<ODPIData> {
    vec![
        ODPIData { is_null: false, value: ODPIDataValueUnion::Double(1.0f64.to_bits()) },
        ODPIData {
            is_null: false,
            value: ODPIDataValueUnion::Bytes(ODPIBytes {
                bytes: "jozias".as_bytes().to_vec(),
                encoding: "UTF-8".to_string(),
            }),
        },
    ]
}

fn make_pool(ctxt: &Context) -> Pool {
    let mut ccp = ctxt.init_common_create_params().expect("params");
    ccp.set_encoding("UTF-8");
    ccp.set_nchar_encoding("UTF-8");
    Pool::create(
        ctxt,
        Some("user"),
        Some("password"),
        Some("//oic.cbsnae86d3iv.us-east-2.rds.amazonaws.com/ORCL"),
        Some(ccp),
        None,
        Ok(PoolGrant { handle: 0x8000, encoding: EncodingInfo::new("UTF-8", 4, "UTF-8", 4) }),
    )
    .expect("pool")
}

#[test]
fn pool() {
    let ctxt = Context::create(Ok(0x1000)).expect("context");
    let mut pool = make_pool(&ctxt);
    pool.add_ref(Ok(())).expect("add_ref");

    let ei = pool.get_encoding_info().expect("get");
    assert_eq!(ei.encoding(), "UTF-8");
    assert_eq!(ei.nchar_encoding(), "UTF-8");
    assert_eq!(ei.max_bytes_per_char(), 4);
    assert_eq!(ei.max_bytes_per_nchar(), 4);

    let mut get_mode = pool.get_get_mode().expect("get");
    assert_eq!(get_mode, ODPIPoolGetMode::NoWait);
    pool.set_get_mode(ODPIPoolGetMode::ForceGet).expect("set");
    get_mode = pool.get_get_mode().expect("get");
    assert_eq!(get_mode, ODPIPoolGetMode::ForceGet);

    let mut max_lifetime_session = pool.get_max_lifetime_session().expect("get");
    assert_eq!(max_lifetime_session, 0);
    pool.set_max_lifetime_session(3600).expect("set");
    max_lifetime_session = pool.get_max_lifetime_session().expect("get");
    assert_eq!(max_lifetime_session, 3600);

    let mut stmt_cache_size = pool.get_stmt_cache_size().expect("get");
    assert_eq!(stmt_cache_size, 20);
    pool.set_stmt_cache_size(100).expect("set");
    stmt_cache_size = pool.get_stmt_cache_size().expect("get");
    assert_eq!(stmt_cache_size, 100);

    let mut timeout = pool.get_timeout().expect("get");
    assert_eq!(timeout, 0);
    pool.set_timeout(3600).expect("set");
    timeout = pool.get_timeout().expect("get");
    assert_eq!(timeout, 3600);

    let mut conn = pool.acquire_connection(None, None, None, Ok(handshake(0x2000))).expect("conn");
    conn.add_ref(Ok(())).expect("add_ref");

    let version_info = conn.get_server_version().expect("get");
    assert_eq!(version_info.version(), "12.1.0.2.0");
    assert_eq!(version_info.version_num(), 1201000200);
    assert_eq!(
        version_info.release(),
        "Oracle Database 12c Standard Edition Release 12.1.0.2.0 - \
         64bit Production"
    );

    let described = Description {
        handle: 0x6000,
        statement_type: ODPIStatementType::Select,
        is_returning: false,
        bind_names: Vec::new(),
    };
    let mut stmt = conn
        .prepare_stmt(
            Some("select * from username where username = 'jozias'"),
            None,
            false,
            Ok(described),
        )
        .expect("statement");

    let executed =
        ExecuteOutcome { columns: vec![column("ID", false), column("USERNAME", true)], row_count: 0 };
    stmt.execute(ODPIExecMode::from_bits_truncate(DPI_MODE_EXEC_DEFAULT), Ok(executed))
        .expect("execute");
    stmt.fetch(Ok(RowBatch { rows: vec![jozias_row()], more_rows: false })).expect("fetch");
    let (id_type, id_cell) = stmt.get_query_value(1).expect("value");
    assert_eq!(id_type, Double);
    let id_data: Data = Data::from_cell(id_cell.clone());
    assert!((f64::from_bits(id_data.get_double().expect("double")) - 1.0) < ::std::f64::EPSILON);
    let (username_type, username_cell) = stmt.get_query_value(2).expect("value");
    assert_eq!(username_type, Bytes);
    let username_data: Data = Data::from_cell(username_cell.clone());
    assert_eq!(username_data.get_string(), Ok("jozias".to_string()));

    let busy_count = pool.get_busy_count(Ok(1)).expect("get");
    assert_eq!(busy_count, 1);
    let open_count = pool.get_open_count(Ok(1)).expect("get");
    assert_eq!(open_count, 1);

    stmt.release(Ok(())).expect("release");
    conn.release(Ok(())).expect("release");
    conn.close(ODPIConnCloseMode::from_bits_truncate(DPI_MODE_CONN_CLOSE_DEFAULT), None, Ok(()))
        .expect("close");
    pool.release(Ok(())).expect("release");
    pool.close(ODPIPoolCloseMode::from_bits_truncate(DPI_MODE_POOL_CLOSE_DEFAULT), Ok(())).expect("close");
}

#[test]
fn closed_pool_hands_out_nothing() {
    let ctxt = Context::create(Ok(0x1000)).expect("context");
    let mut pool = make_pool(&ctxt);
    let info = Info {
        code: 24418,
        offset: 0,
        message: "pool exhausted".to_string(),
        fn_name: "dpiPool_acquireConnection".to_string(),
        action: "acquire".to_string(),
        sql_state: "HY000".to_string(),
        is_recoverable: true,
    };
    let failed = pool.acquire_connection(None, None, None, Err(info.clone()));
    assert_eq!(
        failed.map(|c| c.inner()),
        Err(ErrorKind::NativeCallFailed { operation: Operation::PoolAcquireConnection, info: info.clone() })
    );
    assert_eq!(
        pool.get_busy_count(Err(info.clone())),
        Err(ErrorKind::NativeCallFailed { operation: Operation::PoolGetBusyCount, info: info.clone() })
    );
    assert_eq!(
        pool.get_open_count(Err(info.clone())),
        Err(ErrorKind::NativeCallFailed { operation: Operation::PoolGetOpenCount, info })
    );
    pool.close(ODPIPoolCloseMode::from_bits_truncate(DPI_MODE_POOL_CLOSE_DEFAULT), Ok(())).expect("close");
    let not_live = ErrorKind::InvalidArgument { reason: Reason::HandleNotLive };
    let refused = pool.acquire_connection(None, None, None, Ok(handshake(0x2000)));
    assert_eq!(refused.map(|c| c.inner()), Err(not_live.clone()));
    assert_eq!(pool.get_busy_count(Ok(0)), Err(not_live.clone()));
    assert_eq!(pool.set_timeout(1), Err(not_live.clone()));
    assert_eq!(pool.release(Ok(())), Ok(()));
    assert_eq!(pool.release(Ok(())), Err(ErrorKind::InvalidArgument { reason: Reason::NoReference }));
}

#[test]
fn pool_needs_a_handle() {
    let ctxt = Context::create(Ok(0x1000)).expect("context");
    let grant = PoolGrant { handle: 0, encoding: EncodingInfo::new("UTF-8", 4, "UTF-8", 4) };
    let null = Pool::create(&ctxt, None, None, None, None, None, Ok(grant));
    assert_eq!(
        null.map(|p| p.inner()),
        Err(ErrorKind::InvalidArgument { reason: Reason::NullHandle })
    );
    let mut params = ctxt.init_pool_create_params().expect("params");
    params.set_get_mode(ODPIPoolGetMode::Wait);
    let grant = PoolGrant { handle: 3, encoding: EncodingInfo::new("UTF-8", 4, "UTF-8", 4) };
    let pool = Pool::create(&ctxt, None, None, None, None, Some(params), Ok(grant)).expect("pool");
    assert_eq!(pool.get_get_mode(), Ok(ODPIPoolGetMode::Wait));
}
