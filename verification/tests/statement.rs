use mimir::connection::Handshake;
use mimir::data::Data;
use mimir::encoding::Info as EncodingInfo;
use mimir::enums::ODPIFetchMode::Last;
use mimir::enums::ODPINativeTypeNum::{Bytes, Double, Int64};
use mimir::enums::ODPIOracleTypeNum::{Number, Varchar};
use mimir::enums::ODPIStatementType::{self, Insert, Select};
use mimir::error::{ErrorKind, Info, Operation, Reason};
use mimir::flags::{
    ODPIConnCloseMode, ODPIExecMode, DPI_MODE_CONN_CLOSE_DEFAULT, DPI_MODE_EXEC_BATCH_ERRORS,
    DPI_MODE_EXEC_DEFAULT, DPI_MODE_EXEC_DESCRIBE_ONLY, DPI_MODE_EXEC_PARSE_ONLY,
};
use mimir::statement::{BatchOutcome, Description, ExecuteOutcome, RowBatch};
use mimir::structs::{ODPIBytes, ODPIData, ODPIDataValueUnion, ODPIVersionInfo};
use mimir::{Connection, Context, ODPIStr, QueryInfo, Statement, Var};

const USERS: &str = "select * from username where username = :username";

fn connect() -> Connection {
    let ctxt = Context::create(Ok(0x1000)).expect("context");
    let mut ccp = ctxt.init_common_create_params().expect("params");
    ccp.set_encoding("UTF-8");
    ccp.set_nchar_encoding("UTF-8");
    let handshake = Handshake {
        handle: 0x2000,
        encoding: EncodingInfo::new("UTF-8", 4, "UTF-8", 4),
        server_version: ODPIVersionInfo {
            version_num: 12,
            release_num: 1,
            update_num: 0,
            port_release_num: 2,
            port_update_num: 0,
            full_version_num: 1201000200,
        },
        server_release: "Oracle Database 12c".to_string(),
    };
    Connection::create(
        &ctxt,
        Some("user"),
        Some("password"),
        Some("//oic.cbsnae86d3iv.us-east-2.rds.amazonaws.com/ORCL"),
        Some(ccp),
        None,
        Ok(handshake),
    )
    .expect("connection")
}

fn default_mode() -> ODPIExecMode {
    ODPIExecMode::from_bits_truncate(DPI_MODE_EXEC_DEFAULT)
}

fn described(handle: u64, statement_type: ODPIStatementType, names: &[&str]) -> Description {
    Description {
        handle,
        statement_type,
        is_returning: false,
        bind_names: names.iter().map(|n| n.to_string()).collect(),
    }
}

fn id_column() -> QueryInfo {
    QueryInfo {
        name: "ID".to_string(),
        oracle_type_num: Number,
        default_native_type_num: Double,
        db_size_in_bytes: 0,
        client_size_in_bytes: 0,
        size_in_chars: 0,
        precision: 38,
        scale: 0,
        null_ok: false,
        object_type: None,
    }
}

fn username_column() -> QueryInfo {
    QueryInfo {
        name: "USERNAME".to_string(),
        oracle_type_num: Varchar,
        default_native_type_num: Bytes,
        db_size_in_bytes: 256,
        client_size_in_bytes: 256,
        size_in_chars: 256,
        precision: 0,
        scale: 0,
        null_ok: true,
        object_type: None,
    }
}

fn two_columns() -> ExecuteOutcome {
    ExecuteOutcome { columns: vec![id_column(), username_column()], row_count: 0 }
}

fn no_columns(row_count: u64) -> ExecuteOutcome {
    ExecuteOutcome { columns: Vec::new(), row_count }
}

fn double(value: f64) -> ODPIData {
    ODPIData { is_null: false, value: ODPIDataValueUnion::Double(value.to_bits()) }
}

fn text(value: &str) -> ODPIData {
    ODPIData {
        is_null: false,
        value: ODPIDataValueUnion::Bytes(ODPIBytes {
            bytes: value.as_bytes().to_vec(),
            encoding: "UTF-8".to_string(),
        }),
    }
}

fn user(id: f64, name: &str) -> Vec<ODPIData> {
    vec![double(id), text(name)]
}

fn rows(rows: Vec<Vec<ODPIData>>, more_rows: bool) -> Result<RowBatch, Info> {
    Ok(RowBatch { rows, more_rows })
}

fn failure(code: i32) -> Info {
    Info {
        code,
        offset: 7,
        message: format!("ORA-{:05}", code),
        fn_name: "dpiStmt_execute".to_string(),
        action: "execute".to_string(),
        sql_state: "HY000".to_string(),
        is_recoverable: false,
    }
}

fn invalid(reason: Reason) -> ErrorKind {
    ErrorKind::InvalidArgument { reason }
}

fn add_ref_release(conn: &Connection) {
    let mut dual = conn
        .prepare_stmt(Some("select 1 from dual"), None, false, Ok(described(0x6000, Select, &[])))
        .expect("statement");
    dual.add_ref(Ok(())).expect("add_ref");
    dual.release(Ok(())).expect("release");
    dual.close(None, Ok(())).expect("close");
}

fn validate_query_info(query_info: &QueryInfo) {
    assert_eq!(query_info.name(), "ID");
    assert_eq!(query_info.oracle_type_num(), Number);
    assert_eq!(query_info.default_native_type_num(), Double);
    assert_eq!(query_info.db_size_in_bytes(), 0);
    assert_eq!(query_info.client_size_in_bytes(), 0);
    assert_eq!(query_info.size_in_chars(), 0);
    assert_eq!(query_info.precision(), 38);
    assert_eq!(query_info.scale(), 0);
    assert!(!query_info.null_ok());
    assert!(query_info.object_type().is_none());
}

fn bind_by_name(conn: &Connection, username_var: &Var) {
    let mut bind_by_name = conn
        .prepare_stmt(Some(USERS), None, false, Ok(described(0x6001, Select, &["USERNAME"])))
        .expect("statement");

    bind_by_name.bind_by_name(":username", username_var).expect("bind");

    let cols = bind_by_name.execute(default_mode(), Ok(two_columns())).expect("execute");
    assert_eq!(cols, 2);

    let query_cols = bind_by_name.get_num_query_columns().expect("columns");
    assert_eq!(query_cols, 2);

    let query_info = bind_by_name.get_query_info(1).expect("info");
    validate_query_info(query_info);

    let query_info_un = bind_by_name.get_query_info(2).expect("info");
    assert_eq!(query_info_un.name(), "USERNAME");
    assert_eq!(query_info_un.oracle_type_num(), Varchar);
    assert_eq!(query_info_un.default_native_type_num(), Bytes);
    assert_eq!(query_info_un.db_size_in_bytes(), 256);
    assert_eq!(query_info_un.client_size_in_bytes(), 256);
    assert_eq!(query_info_un.size_in_chars(), 256);
    assert_eq!(query_info_un.precision(), 0);
    assert_eq!(query_info_un.scale(), 0);
    assert!(query_info_un.null_ok());
    assert!(query_info_un.object_type().is_none());

    bind_by_name.fetch(rows(vec![user(1.0, "jozias")], false)).expect("fetch");
    let (id_type, id_cell) = bind_by_name.get_query_value(1).expect("value");
    assert_eq!(id_type, Double);
    let data: Data = Data::from_cell(id_cell.clone());
    assert!((f64::from_bits(data.get_double().expect("double")) - 1.0).abs() < ::std::f64::EPSILON);
    let (un_type, un_cell) = bind_by_name.get_query_value(2).expect("value");
    assert_eq!(un_type, Bytes);
    let data: Data = Data::from_cell(un_cell.clone());
    assert_eq!(data.get_string(), Ok("jozias".to_string()));

    bind_by_name.close(None, Ok(())).expect("close");
}

#[test]
fn statement() {
    let mut conn = connect();
    let mut username_var =
        conn.new_var(Varchar, Bytes, 1, 256, false, false, Ok(0x5000)).expect("var");
    username_var.set_from_bytes(0, "jozias").expect("set");

    // add_ref / release test
    add_ref_release(&conn);
    // bind_by_name / execute / get_num_query_columns / get_query_info test
    bind_by_name(&conn, &username_var);

    // bind_by_pos / execute test
    let mut bind_by_pos = conn
        .prepare_stmt(Some(USERS), None, false, Ok(described(0x6002, Select, &["USERNAME"])))
        .expect("statement");
    bind_by_pos.bind_by_pos(1, &username_var).expect("bind");
    let mut cols = bind_by_pos.execute(default_mode(), Ok(two_columns())).expect("execute");
    assert_eq!(cols, 2);

    // bind_value_by_name / execute test
    let blah = ODPIStr::from_text("test");
    let odpi_bytes = ODPIBytes {
        bytes: blah.into_string().into_bytes(),
        encoding: "UTF-8".to_string(),
    };

    let t_data = Data::new(false, ODPIDataValueUnion::Bytes(odpi_bytes.clone()));
    let mut bind_by_value_name = conn
        .prepare_stmt(Some(USERS), None, false, Ok(described(0x6003, Select, &["USERNAME"])))
        .expect("statement");
    bind_by_value_name.bind_value_by_name(":username", Bytes, &t_data).expect("bind");
    cols = bind_by_value_name.execute(default_mode(), Ok(two_columns())).expect("execute");
    assert_eq!(cols, 2);

    // bind_value_by_pos / execute test
    let mut bind_by_value_pos = conn
        .prepare_stmt(Some(USERS), None, false, Ok(described(0x6004, Select, &["USERNAME"])))
        .expect("statement");
    let t_data_1 = Data::new(false, ODPIDataValueUnion::Bytes(odpi_bytes));
    bind_by_value_pos.bind_value_by_pos(1, Bytes, &t_data_1).expect("bind");
    cols = bind_by_value_pos.execute(default_mode(), Ok(two_columns())).expect("execute");
    assert_eq!(cols, 2);

    // execute / fetch test
    let mut fetch = conn
        .prepare_stmt(Some(USERS), None, false, Ok(described(0x6005, Select, &["USERNAME"])))
        .expect("statement");
    fetch.bind_by_pos(1, &username_var).expect("bind");
    cols = fetch.execute(default_mode(), Ok(two_columns())).expect("execute");
    assert_eq!(cols, 2);
    let (found, bbp_buffer_row_index) =
        fetch.fetch(rows(vec![user(1.0, "jozias")], false)).expect("fetch");
    assert!(found);
    assert_eq!(bbp_buffer_row_index, 0);

    // execute / fetch_rows test
    let mut fetch_rows = conn
        .prepare_stmt(Some(USERS), None, false, Ok(described(0x6006, Select, &["USERNAME"])))
        .expect("statement");
    fetch_rows.bind_by_pos(1, &username_var).expect("bind");
    cols = fetch_rows.execute(default_mode(), Ok(two_columns())).expect("execute");
    assert_eq!(cols, 2);
    let (buffer_row_index, num_rows_fetched, more_rows) =
        fetch_rows.fetch_rows(10, rows(vec![user(1.0, "jozias")], false)).expect("fetch");
    assert_eq!(buffer_row_index, 0);
    assert_eq!(num_rows_fetched, 1);
    assert!(!more_rows);

    // get_bind_count / get_bind_names / get_batch_error_count / get_info tests
    let mut bn = conn
        .prepare_stmt(
            Some("insert into username values (:id, :username)"),
            None,
            false,
            Ok(described(0x6007, Insert, &["ID", "USERNAME"])),
        )
        .expect("statement");
    let bind_count = bn.get_bind_count().expect("count");
    assert_eq!(bind_count, 2);
    let names = bn.get_bind_names(2).expect("names");
    assert_eq!(names.len(), 2);
    for (idx, name) in names.iter().enumerate() {
        match idx {
            0 => assert_eq!(name, "ID"),
            1 => assert_eq!(name, "USERNAME"),
            _ => assert!(false),
        }
    }
    let error_count = bn.get_batch_error_count().expect("count");
    assert_eq!(error_count, 0);
    let info = bn.get_info().expect("info");
    assert!(info.is_dml());
    assert_eq!(info.statement_type(), Insert);

    // execute /fetch_rows / get_row_count / scroll test
    let mut all_users = conn
        .prepare_stmt(Some("select * from username"), None, true, Ok(described(0x6008, Select, &[])))
        .expect("statement");
    let au_cols = all_users.execute(default_mode(), Ok(two_columns())).expect("execute");
    assert_eq!(au_cols, 2);
    all_users
        .fetch_rows(10, rows(vec![user(1.0, "jozias"), user(2.0, "yoda")], false))
        .expect("fetch");
    let row_count = all_users.get_row_count().expect("count");
    assert!(row_count >= 2);
    all_users.scroll(Last, 0, 0, Ok(())).expect("scroll");

    // execute_many test
    let mut em = conn
        .prepare_stmt(
            Some("insert into username values (:id, :username)"),
            None,
            false,
            Ok(described(0x6009, Insert, &["ID", "USERNAME"])),
        )
        .expect("statement");
    // setup the id binds.
    let mut id_var = conn.new_var(Number, Int64, 2, 0, false, false, Ok(0x5001)).expect("var");
    for (pos, id) in [4711i64, 4712].iter().enumerate() {
        id_var
            .set_data(pos as u32, ODPIData { is_null: false, value: ODPIDataValueUnion::Int64(*id) })
            .expect("set");
    }
    em.bind_by_pos(1, &id_var).expect("bind");

    // setup the username binds
    let mut un_var = conn.new_var(Varchar, Bytes, 2, 256, true, false, Ok(0x5002)).expect("var");

    for i in 0..2 {
        un_var.set_from_bytes(i, "jozias").expect("set");
    }
    em.bind_by_pos(2, &un_var).expect("bind");

    em.execute_many(default_mode(), 2, Ok(BatchOutcome { row_count: 2, errors: Vec::new() }))
        .expect("execute");

    bind_by_pos.close(None, Ok(())).expect("close");
    bind_by_value_name.close(None, Ok(())).expect("close");
    bind_by_value_pos.close(None, Ok(())).expect("close");
    fetch.close(None, Ok(())).expect("close");
    fetch_rows.close(None, Ok(())).expect("close");
    bn.close(None, Ok(())).expect("close");
    all_users.close(None, Ok(())).expect("close");
    em.close(None, Ok(())).expect("close");

    conn.close(ODPIConnCloseMode::from_bits_truncate(DPI_MODE_CONN_CLOSE_DEFAULT), None, Ok(()))
        .expect("close");
}

#[test]
fn select_one_from_dual() {
    let conn = connect();
    let mut dual = conn
        .prepare_stmt(Some("select 1 from dual"), None, false, Ok(described(0x6000, Select, &[])))
        .expect("statement");
    let one = QueryInfo { name: "1".to_string(), ..id_column() };
    let cols = dual
        .execute(default_mode(), Ok(ExecuteOutcome { columns: vec![one], row_count: 0 }))
        .expect("execute");
    assert_eq!(cols, 1);
    assert_eq!(dual.fetch(rows(vec![vec![double(1.0)]], false)), Ok((true, 0)));
    let (native_type, cell) = dual.get_query_value(1).expect("value");
    assert_eq!(native_type, Double);
    assert_eq!(Data::from_cell(cell.clone()).get_double().map(f64::from_bits), Ok(1.0));
    assert_eq!(dual.get_row_count(), Ok(1));
    assert_eq!(dual.fetch(Err(failure(1))), Ok((false, 0)));
    assert_eq!(dual.get_query_value(1).map(|p| p.0), Err(invalid(Reason::NoSuchElement)));
}

#[test]
fn fetch_needs_an_executed_query() {
    let mut query = Statement::prepare(described(1, Select, &[]), false).expect("statement");
    assert_eq!(query.fetch(rows(Vec::new(), false)), Err(invalid(Reason::NotExecuted)));
    assert_eq!(query.fetch_rows(1, rows(Vec::new(), false)), Err(invalid(Reason::NotExecuted)));
    assert_eq!(query.get_query_value(1).map(|p| p.0), Err(invalid(Reason::NotExecuted)));
    assert_eq!(query.scroll(Last, 0, 0, Ok(())), Err(invalid(Reason::NotExecuted)));

    let mut insert = Statement::prepare(described(2, Insert, &[]), false).expect("statement");
    assert_eq!(insert.execute(default_mode(), Ok(no_columns(1))), Ok(0));
    assert_eq!(insert.get_row_count(), Ok(1));
    assert_eq!(insert.fetch(rows(Vec::new(), false)), Err(invalid(Reason::NotAQuery)));
    assert_eq!(insert.fetch_rows(1, rows(Vec::new(), false)), Err(invalid(Reason::NotAQuery)));

    let parse_only = ODPIExecMode::from_bits_truncate(DPI_MODE_EXEC_PARSE_ONLY);
    assert_eq!(query.execute(parse_only, Ok(two_columns())), Ok(2));
    assert_eq!(query.fetch(rows(Vec::new(), false)), Err(invalid(Reason::NotExecuted)));
    let describe_only = ODPIExecMode::from_bits_truncate(DPI_MODE_EXEC_DESCRIBE_ONLY);
    assert_eq!(query.execute(describe_only, Ok(two_columns())), Ok(2));
    assert_eq!(query.get_query_info(2).map(|i| i.name()), Ok("USERNAME".to_string()));
    assert_eq!(query.fetch(rows(Vec::new(), false)), Err(invalid(Reason::NotExecuted)));
    assert_eq!(query.execute(default_mode(), Ok(two_columns())), Ok(2));
    assert_eq!(query.fetch(rows(Vec::new(), false)), Ok((false, 0)));
}

#[test]
fn closed_statement_refuses_everything_but_release() {
    let var = Var::create(9, Varchar, Bytes, 1, 16, false, "UTF-8").expect("var");
    let value = Data::new(false, ODPIDataValueUnion::Int64(1));
    let mut stmt = Statement::prepare(described(1, Select, &["A"]), true).expect("statement");
    stmt.add_ref(Ok(())).expect("add_ref");
    assert_eq!(stmt.execute(default_mode(), Ok(two_columns())), Ok(2));
    assert_eq!(stmt.close(Some("tag"), Ok(())), Ok(()));
    let not_live = invalid(Reason::HandleNotLive);
    assert_eq!(stmt.bind_by_pos(1, &var), Err(not_live.clone()));
    assert_eq!(stmt.bind_by_name(":a", &var), Err(not_live.clone()));
    assert_eq!(stmt.bind_value_by_pos(1, Int64, &value), Err(not_live.clone()));
    assert_eq!(stmt.bind_value_by_name(":a", Int64, &value), Err(not_live.clone()));
    assert_eq!(stmt.execute(default_mode(), Ok(two_columns())), Err(not_live.clone()));
    assert_eq!(
        stmt.execute_many(default_mode(), 1, Ok(BatchOutcome { row_count: 0, errors: vec![] })),
        Err(not_live.clone())
    );
    assert_eq!(stmt.fetch(rows(Vec::new(), false)), Err(not_live.clone()));
    assert_eq!(stmt.fetch_rows(1, rows(Vec::new(), false)), Err(not_live.clone()));
    assert_eq!(stmt.scroll(Last, 0, 0, Ok(())), Err(not_live.clone()));
    assert_eq!(stmt.get_query_value(1).map(|p| p.0), Err(not_live.clone()));
    assert_eq!(stmt.get_query_info(1).map(|i| i.name()), Err(not_live.clone()));
    assert_eq!(stmt.get_info().map(|i| i.is_query()), Err(not_live.clone()));
    assert_eq!(stmt.get_bind_names(1), Err(not_live.clone()));
    assert_eq!(stmt.get_batch_errors(1), Err(not_live.clone()));
    assert_eq!(stmt.get_fetch_array_size(), Err(not_live.clone()));
    assert_eq!(stmt.set_fetch_array_size(1), Err(not_live.clone()));
    assert_eq!(stmt.get_num_query_columns(), Err(not_live.clone()));
    assert_eq!(stmt.close(None, Ok(())), Err(not_live.clone()));
    assert_eq!(stmt.add_ref(Ok(())), Err(not_live));
    assert_eq!(stmt.release(Ok(())), Ok(()));
    assert_eq!(stmt.release(Ok(())), Ok(()));
    assert_eq!(stmt.release(Ok(())), Err(invalid(Reason::NoReference)));
}

#[test]
fn execute_counts_the_columns() {
    let mut query = Statement::prepare(described(1, Select, &[]), false).expect("statement");
    assert_eq!(query.get_num_query_columns(), Ok(0));
    assert_eq!(
        query.execute(default_mode(), Ok(no_columns(0))),
        Err(invalid(Reason::InconsistentReply))
    );
    assert_eq!(query.execute(default_mode(), Ok(two_columns())), Ok(2));
    assert_eq!(query.get_num_query_columns(), Ok(2));
    assert_eq!(query.get_query_info(0).map(|i| i.name()), Err(invalid(Reason::IndexOutOfRange)));
    assert_eq!(query.get_query_info(3).map(|i| i.name()), Err(invalid(Reason::IndexOutOfRange)));

    for kind in [
        ODPIStatementType::Update,
        ODPIStatementType::Delete,
        Insert,
        ODPIStatementType::Create,
        ODPIStatementType::DropDdl,
        ODPIStatementType::Alter,
        ODPIStatementType::Begin,
        ODPIStatementType::Declare,
        ODPIStatementType::Call,
        ODPIStatementType::NotSet,
    ] {
        let mut other = Statement::prepare(described(2, kind, &[]), false).expect("statement");
        assert_eq!(other.execute(default_mode(), Ok(no_columns(3))), Ok(0));
        assert_eq!(
            other.execute(default_mode(), Ok(two_columns())),
            Err(invalid(Reason::InconsistentReply))
        );
        assert_eq!(other.get_row_count(), Ok(3));
    }

    let failed = query.execute(default_mode(), Err(failure(942)));
    assert_eq!(
        failed,
        Err(ErrorKind::NativeCallFailed { operation: Operation::StmtExecute, info: failure(942) })
    );
    assert_eq!(query.get_num_query_columns(), Ok(2));
}

#[test]
fn statement_kinds_are_sorted_into_groups() {
    let groups = |kind: ODPIStatementType| {
        let info = mimir::statement::Info::new(kind, true);
        assert!(info.is_returning());
        assert_eq!(info.statement_type(), kind);
        (info.is_query(), info.is_plsql(), info.is_ddl(), info.is_dml())
    };
    assert_eq!(groups(Select), (true, false, false, false));
    assert_eq!(groups(ODPIStatementType::Begin), (false, true, false, false));
    assert_eq!(groups(ODPIStatementType::Declare), (false, true, false, false));
    assert_eq!(groups(ODPIStatementType::Call), (false, true, false, false));
    assert_eq!(groups(ODPIStatementType::Create), (false, false, true, false));
    assert_eq!(groups(ODPIStatementType::DropDdl), (false, false, true, false));
    assert_eq!(groups(ODPIStatementType::Alter), (false, false, true, false));
    assert_eq!(groups(Insert), (false, false, false, true));
    assert_eq!(groups(ODPIStatementType::Update), (false, false, false, true));
    assert_eq!(groups(ODPIStatementType::Delete), (false, false, false, true));
    assert_eq!(groups(ODPIStatementType::NotSet), (false, false, false, false));
}

#[test]
fn execute_many_needs_room_in_every_bound_variable() {
    let small = Var::create(1, Number, Int64, 2, 22, false, "").expect("var");
    let large = Var::create(2, Varchar, Bytes, 5, 16, false, "UTF-8").expect("var");
    let ok = || Ok(BatchOutcome { row_count: 2, errors: Vec::new() });

    let mut insert = Statement::prepare(described(3, Insert, &["ID", "NAME"]), false).expect("stmt");
    insert.bind_by_pos(1, &small).expect("bind");
    insert.bind_by_name(":name", &large).expect("bind");
    assert_eq!(insert.execute_many(default_mode(), 3, ok()), Err(invalid(Reason::ArrayTooSmall)));
    assert_eq!(insert.execute_many(default_mode(), 5, ok()), Err(invalid(Reason::ArrayTooSmall)));
    assert_eq!(insert.get_row_count(), Ok(0));
    assert_eq!(insert.execute_many(default_mode(), 2, ok()), Ok(()));
    assert_eq!(insert.get_row_count(), Ok(2));
    assert_eq!(insert.execute_many(default_mode(), 0, ok()), Ok(()));

    assert_eq!(insert.bound_at(1).map(|b| (b.var, b.max_array_size)), Some((1, 2)));
    assert_eq!(insert.bound_as(":name").map(|b| (b.var, b.max_array_size)), Some((2, 5)));
    assert_eq!(insert.bound_at(2), None);
    assert_eq!(insert.bound_as("name"), None);
    insert.bind_by_pos(1, &large).expect("rebind");
    assert_eq!(insert.bound_at(1).map(|b| (b.var, b.max_array_size)), Some((2, 5)));
    assert_eq!(insert.execute_many(default_mode(), 5, ok()), Ok(()));
    assert_eq!(insert.execute_many(default_mode(), 6, ok()), Err(invalid(Reason::ArrayTooSmall)));

    let value = Data::new(false, ODPIDataValueUnion::Int64(1));
    insert.bind_value_by_pos(1, Int64, &value).expect("bind");
    assert_eq!(insert.execute_many(default_mode(), 2, ok()), Err(invalid(Reason::ArrayTooSmall)));
    assert_eq!(insert.execute_many(default_mode(), 1, ok()), Ok(()));

    let failed = insert.execute_many(default_mode(), 1, Err(failure(1)));
    assert_eq!(
        failed,
        Err(ErrorKind::NativeCallFailed { operation: Operation::StmtExecuteMany, info: failure(1) })
    );

    let mut query = Statement::prepare(described(4, Select, &[]), false).expect("stmt");
    assert_eq!(query.execute_many(default_mode(), 1, ok()), Err(invalid(Reason::IsAQuery)));
}

#[test]
fn batch_errors_are_kept_in_batch_error_mode() {
    let var = Var::create(1, Number, Int64, 3, 22, false, "").expect("var");
    let mut insert = Statement::prepare(described(3, Insert, &["ID"]), false).expect("stmt");
    insert.bind_by_pos(1, &var).expect("bind");
    let partly = || Ok(BatchOutcome { row_count: 1, errors: vec![failure(1), failure(2400)] });
    assert_eq!(
        insert.execute_many(default_mode(), 3, partly()),
        Err(invalid(Reason::InconsistentReply))
    );
    assert_eq!(insert.get_batch_error_count(), Ok(0));
    let batch_errors = ODPIExecMode::from_bits_truncate(DPI_MODE_EXEC_BATCH_ERRORS);
    assert_eq!(insert.execute_many(batch_errors, 3, partly()), Ok(()));
    assert_eq!(insert.get_batch_error_count(), Ok(2));
    assert_eq!(insert.get_batch_errors(2), Ok(vec![failure(1), failure(2400)]));
    assert_eq!(insert.get_batch_errors(1), Ok(vec![failure(1)]));
    assert_eq!(insert.get_batch_errors(9), Ok(vec![failure(1), failure(2400)]));
    assert_eq!(insert.get_batch_errors(0), Ok(vec![]));
    assert_eq!(insert.get_row_count(), Ok(1));
    assert_eq!(insert.execute(default_mode(), Ok(no_columns(1))), Ok(0));
    assert_eq!(insert.get_batch_error_count(), Ok(0));
}

#[test]
fn bind_names_are_never_more_than_there_are() {
    let stmt = Statement::prepare(described(3, Insert, &["ID", "USERNAME"]), false).expect("stmt");
    assert_eq!(stmt.get_bind_count(), Ok(2));
    assert_eq!(stmt.get_bind_names(0), Ok(vec![]));
    assert_eq!(stmt.get_bind_names(1), Ok(vec!["ID".to_string()]));
    assert_eq!(stmt.get_bind_names(2), Ok(vec!["ID".to_string(), "USERNAME".to_string()]));
    assert_eq!(stmt.get_bind_names(10), Ok(vec!["ID".to_string(), "USERNAME".to_string()]));
    let bare = Statement::new(4);
    assert_eq!(bare.get_bind_count(), Ok(0));
    assert_eq!(bare.get_bind_names(3), Ok(vec![]));
    assert_eq!(bare.get_info().map(|i| i.statement_type()), Ok(ODPIStatementType::NotSet));
}

#[test]
fn binding_is_validated() {
    let mut var = Var::create(1, Number, Int64, 2, 22, false, "").expect("var");
    let mut stmt = Statement::prepare(described(3, Insert, &["ID"]), false).expect("stmt");
    assert_eq!(stmt.bind_by_pos(0, &var), Err(invalid(Reason::IndexOutOfRange)));
    let text_value = Data::new(false, ODPIDataValueUnion::Int64(1));
    assert_eq!(stmt.bind_value_by_pos(1, Bytes, &text_value), Err(ErrorKind::UncheckedVariantAccess));
    assert_eq!(
        stmt.bind_value_by_name(":id", Bytes, &text_value),
        Err(ErrorKind::UncheckedVariantAccess)
    );
    assert_eq!(stmt.bind_value_by_pos(0, Int64, &text_value), Err(invalid(Reason::IndexOutOfRange)));
    var.release(Ok(())).expect("release");
    assert_eq!(stmt.bind_by_pos(1, &var), Err(invalid(Reason::HandleNotLive)));
    assert_eq!(stmt.bind_by_name(":id", &var), Err(invalid(Reason::HandleNotLive)));
    let ok = || Ok(BatchOutcome { row_count: 0, errors: Vec::new() });
    assert_eq!(stmt.execute_many(default_mode(), u32::MAX, ok()), Ok(()));
}

#[test]
fn rows_are_handed_out_from_the_buffer_first() {
    let mut query = Statement::prepare(described(1, Select, &[]), false).expect("statement");
    query.execute(default_mode(), Ok(two_columns())).expect("execute");
    let first = vec![user(1.0, "a"), user(2.0, "b"), user(3.0, "c")];
    assert_eq!(query.fetch(rows(first, true)), Ok((true, 0)));
    assert_eq!(query.fetch(Err(failure(1))), Ok((true, 1)));
    let name = |q: &Statement| {
        Data::from_cell(q.get_query_value(2).expect("value").1.clone()).get_string().expect("text")
    };
    assert_eq!(name(&query), "b");
    assert_eq!(query.fetch_rows(10, Err(failure(1))), Ok((2, 1, true)));
    assert_eq!(name(&query), "c");
    assert_eq!(query.get_row_count(), Ok(3));
    let failed = query.fetch(Err(failure(3113)));
    assert_eq!(
        failed,
        Err(ErrorKind::NativeCallFailed { operation: Operation::StmtFetch, info: failure(3113) })
    );
    assert_eq!(name(&query), "c");
    let failed = query.fetch_rows(1, Err(failure(3113)));
    assert_eq!(
        failed,
        Err(ErrorKind::NativeCallFailed { operation: Operation::StmtFetchRows, info: failure(3113) })
    );
    let second = vec![user(4.0, "d"), user(5.0, "e")];
    assert_eq!(query.fetch_rows(1, rows(second, false)), Ok((0, 1, true)));
    assert_eq!(name(&query), "d");
    assert_eq!(query.fetch_rows(5, Err(failure(1))), Ok((1, 1, false)));
    assert_eq!(name(&query), "e");
    assert_eq!(query.fetch_rows(5, Err(failure(1))), Ok((0, 0, false)));
    assert_eq!(query.fetch(Err(failure(1))), Ok((false, 0)));
    assert_eq!(query.get_row_count(), Ok(5));
    assert_eq!(query.fetch_rows(0, Err(failure(1))), Ok((0, 0, false)));
}

#[test]
fn fetched_rows_must_fit_the_query() {
    let mut query = Statement::prepare(described(1, Select, &[]), false).expect("statement");
    query.execute(default_mode(), Ok(two_columns())).expect("execute");
    let narrow = vec![vec![double(1.0)]];
    assert_eq!(query.fetch(rows(narrow, false)), Err(invalid(Reason::InconsistentReply)));
    assert_eq!(query.get_fetch_array_size(), Ok(100));
    assert_eq!(query.set_fetch_array_size(2), Ok(()));
    assert_eq!(query.get_fetch_array_size(), Ok(2));
    let many = vec![user(1.0, "a"), user(2.0, "b"), user(3.0, "c")];
    assert_eq!(query.fetch_rows(9, rows(many, false)), Err(invalid(Reason::InconsistentReply)));
    let fits = vec![user(1.0, "a"), user(2.0, "b")];
    assert_eq!(query.fetch_rows(9, rows(fits, false)), Ok((0, 2, false)));
    assert_eq!(query.set_fetch_array_size(0), Ok(()));
    assert_eq!(query.get_fetch_array_size(), Ok(100));
    assert_eq!(query.get_query_value(0).map(|p| p.0), Err(invalid(Reason::IndexOutOfRange)));
    assert_eq!(query.get_query_value(3).map(|p| p.0), Err(invalid(Reason::IndexOutOfRange)));
}

#[test]
fn only_scrollable_statements_scroll() {
    let mut plain = Statement::prepare(described(1, Select, &[]), false).expect("statement");
    plain.execute(default_mode(), Ok(two_columns())).expect("execute");
    assert_eq!(plain.scroll(Last, 0, 0, Ok(())), Err(invalid(Reason::NotScrollable)));
    let mut scrollable = Statement::prepare(described(2, Select, &[]), true).expect("statement");
    scrollable.execute(default_mode(), Ok(two_columns())).expect("execute");
    assert_eq!(scrollable.fetch(rows(vec![user(1.0, "a"), user(2.0, "b")], false)), Ok((true, 0)));
    let failed = scrollable.scroll(Last, 0, 0, Err(failure(1)));
    assert_eq!(
        failed,
        Err(ErrorKind::NativeCallFailed { operation: Operation::StmtScroll, info: failure(1) })
    );
    assert_eq!(scrollable.scroll(Last, 0, 0, Ok(())), Ok(()));
    assert_eq!(scrollable.get_query_value(1).map(|p| p.0), Err(invalid(Reason::NoSuchElement)));
    assert_eq!(scrollable.fetch(rows(vec![user(2.0, "b")], false)), Ok((true, 0)));
}

#[test]
fn some_operations_are_not_offered() {
    let stmt = Statement::new(1);
    assert_eq!(stmt.get_implicit_result(), Err(ErrorKind::NotImplemented));
    assert_eq!(stmt.get_row_counts(), Err(ErrorKind::NotImplemented));
    assert_eq!(stmt.get_subscr_query_id(), Err(ErrorKind::NotImplemented));
}
