use mimir::connection::{Handshake, LobGrant};
use mimir::data::Data;
use mimir::encoding::Info as EncodingInfo;
use mimir::enums::ODPINativeTypeNum::{self, Bytes, Int64, Invalid, Object as NativeObject};
use mimir::enums::ODPIOracleTypeNum::{self, Blob, Max, NVarchar, Number, Raw, TypeNone, Varchar};
use mimir::error::{ErrorKind, Info, Operation, Reason};
use mimir::flags::{ODPIConnCloseMode, DPI_MODE_CONN_CLOSE_DEFAULT};
use mimir::structs::{ODPIBytes, ODPIData, ODPIDataValueUnion, ODPIVersionInfo};
use mimir::util::ODPIStr;
use mimir::variable::element_width;
use mimir::{Connection, Context, Object, Rowid, Statement, Var};

fn connect() -> Connection {
    let ctxt = Context::create(Ok(0x1000)).expect("context");
    let mut ccp = ctxt.init_common_create_params().expect("params");
    ccp.set_encoding("UTF-8");
    ccp.set_nchar_encoding("UTF-8");
    let handshake = Handshake {
        handle: 0x2000,
        encoding: EncodingInfo::new("UTF-8", 4, "AL16UTF16", 2),
        server_version: ODPIVersionInfo {
            version_num: 12,
            release_num: 1,
            update_num: 0,
            port_release_num: 2,
            port_update_num: 0,
            full_version_num: 1201000200,
        },
        server_release: "Oracle Database 12c".to_string(),
    };
    Connection::create(
        &ctxt,
        Some("user"),
        Some("password"),
        Some("//db.example.com/ORCL"),
        Some(ccp),
        None,
        Ok(handshake),
    )
    .expect("connection")
}

fn invalid(reason: Reason) -> ErrorKind {
    ErrorKind::InvalidArgument { reason }
}

#[test]
fn variable() {
    let mut conn = connect();
    conn.add_ref(Ok(())).expect("add_ref");

    let var = conn.new_var(Number, Int64, 2, 0, false, false, Ok(0x5000)).expect("var");
    let num_elements = var.get_num_elements_in_array().expect("elements");
    assert_eq!(num_elements, 2);
    let size_in_bytes = var.get_size_in_bytes().expect("size");
    assert_eq!(size_in_bytes, 22);

    let mut str_test = conn.new_var(Varchar, Bytes, 2, 256, false, false, Ok(0x5001)).expect("var");
    str_test.set_from_bytes(0, "jozias").expect("set");
    let str_test_data = str_test.get_data().expect("data");
    assert_eq!(str_test_data.len(), 2);
    for (idx, d) in str_test_data.iter().enumerate() {
        let data: Data = Data::from_cell(d.clone());
        match idx {
            0 => assert_eq!(data.get_string(), Ok("jozias".to_string())),
            1 => assert_eq!(data.get_string(), Ok("".to_string())),
            _ => assert!(false),
        }
    }

    conn.release(Ok(())).expect("release");
    conn.close(ODPIConnCloseMode::from_bits_truncate(DPI_MODE_CONN_CLOSE_DEFAULT), None, Ok(()))
        .expect("close");
}

#[test]
fn new_variable_has_as_many_cells_as_asked_for() {
    let conn = connect();
    for n in [1u32, 5, 1000] {
        let var = conn.new_var(Number, Int64, n, 0, false, false, Ok(0x5000)).expect("var");
        assert_eq!(var.get_data().expect("data").len(), n as usize);
        assert_eq!(var.max_array_size(), n);
        assert_eq!(var.get_num_elements_in_array(), Ok(n));
        for cell in var.get_data().expect("data") {
            assert!(cell.is_null);
            assert_eq!(cell.value, ODPIDataValueUnion::Int64(0));
        }
    }
}

#[test]
fn new_variable_is_validated() {
    let conn = connect();
    let refused = |r: Result<Var, ErrorKind>| r.map(|v| v.inner()).unwrap_err();
    assert_eq!(
        refused(conn.new_var(Number, Int64, 0, 0, false, false, Ok(1))),
        invalid(Reason::ZeroArraySize)
    );
    assert_eq!(
        refused(conn.new_var(TypeNone, Int64, 1, 0, false, false, Ok(1))),
        invalid(Reason::InvalidOracleType)
    );
    assert_eq!(
        refused(conn.new_var(Max, Int64, 1, 0, false, false, Ok(1))),
        invalid(Reason::InvalidOracleType)
    );
    assert_eq!(
        refused(conn.new_var(Number, Invalid, 1, 0, false, false, Ok(1))),
        ErrorKind::UncheckedVariantAccess
    );
    assert_eq!(
        refused(conn.new_var(Varchar, Bytes, 1, u32::MAX, false, false, Ok(1))),
        invalid(Reason::ValueTooLarge)
    );
    assert_eq!(
        refused(conn.new_var(Number, Int64, 1, 0, false, false, Ok(0))),
        invalid(Reason::NullHandle)
    );
    let info = Info {
        code: 1,
        offset: 0,
        message: "out of memory".to_string(),
        fn_name: "dpiConn_newVar".to_string(),
        action: "allocate".to_string(),
        sql_state: "HY000".to_string(),
        is_recoverable: false,
    };
    assert_eq!(
        refused(conn.new_var(Number, Int64, 1, 0, false, false, Err(info.clone()))),
        ErrorKind::NativeCallFailed { operation: Operation::ConnNewVar, info }
    );
}

#[test]
fn element_width_follows_the_encoding() {
    assert_eq!(element_width(Varchar, 256, false, 4, 2), Some(1024));
    assert_eq!(element_width(Varchar, 256, true, 4, 2), Some(256));
    assert_eq!(element_width(NVarchar, 256, false, 4, 2), Some(512));
    assert_eq!(element_width(Raw, 256, false, 4, 2), Some(256));
    assert_eq!(element_width(Number, 256, false, 4, 2), Some(22));
    assert_eq!(element_width(Blob, 256, false, 4, 2), Some(8));
    assert_eq!(element_width(ODPIOracleTypeNum::NativeFloat, 0, false, 4, 2), Some(4));
    assert_eq!(element_width(Varchar, u32::MAX, false, 2, 2), None);
    assert_eq!(element_width(Varchar, 0, false, 4, 2), Some(0));
    let conn = connect();
    assert_eq!(conn.check_new_var(Varchar, Bytes, 2, 256, false), Ok(1024));
    assert_eq!(conn.check_new_var(Number, Int64, 2, 0, false), Ok(22));
    assert_eq!(conn.check_new_var(Number, Int64, 0, 0, false), Err(invalid(Reason::ZeroArraySize)));

    let national = conn.new_var(NVarchar, Bytes, 1, 10, false, false, Ok(3)).expect("var");
    assert_eq!(national.get_size_in_bytes(), Ok(20));
    let plain = conn.new_var(Varchar, Bytes, 1, 10, true, false, Ok(4)).expect("var");
    assert_eq!(plain.get_size_in_bytes(), Ok(10));
}

#[test]
fn text_is_read_back_as_it_was_written() {
    let mut var = Var::create(1, Varchar, Bytes, 3, 16, false, "UTF-8").expect("var");
    for (pos, text) in ["", "jozias", "żółw 🐢 ok"].iter().enumerate() {
        assert!(text.len() <= 16);
        var.set_from_bytes(pos as u32, text).expect("set");
        let cell = var.get_data().expect("data")[pos].clone();
        assert!(!cell.is_null);
        assert_eq!(Data::from_cell(cell).get_string(), Ok(text.to_string()));
    }
    let exact = "0123456789abcdef";
    assert_eq!(var.set_from_bytes(0, exact), Ok(()));
    let too_long = "0123456789abcdefg";
    assert_eq!(var.set_from_bytes(1, too_long), Err(invalid(Reason::ValueTooLarge)));
    let cell = var.get_data().expect("data")[1].clone();
    assert_eq!(Data::from_cell(cell).get_string(), Ok("jozias".to_string()));
    let wide = "ééééééééé";
    assert_eq!(wide.chars().count(), 9);
    assert_eq!(var.set_from_bytes(1, wide), Err(invalid(Reason::ValueTooLarge)));
}

#[test]
fn positions_are_checked() {
    let mut var = Var::create(1, Varchar, Bytes, 2, 16, false, "UTF-8").expect("var");
    assert_eq!(var.set_from_bytes(2, "x"), Err(invalid(Reason::IndexOutOfRange)));
    assert_eq!(var.set_from_bytes(u32::MAX, "x"), Err(invalid(Reason::IndexOutOfRange)));
    let mut numbers = Var::create(2, Number, Int64, 2, 22, false, "").expect("var");
    assert_eq!(numbers.set_from_bytes(0, "1"), Err(ErrorKind::UncheckedVariantAccess));
    let cell = ODPIData { is_null: false, value: ODPIDataValueUnion::Int64(-5) };
    assert_eq!(numbers.set_data(1, cell.clone()), Ok(()));
    assert_eq!(numbers.get_data().expect("data")[1], cell);
    assert_eq!(numbers.set_data(2, cell.clone()), Err(invalid(Reason::IndexOutOfRange)));
    let text = ODPIData {
        is_null: false,
        value: ODPIDataValueUnion::Bytes(ODPIBytes { bytes: vec![1], encoding: String::new() }),
    };
    assert_eq!(numbers.set_data(0, text), Err(ErrorKind::UncheckedVariantAccess));
}

#[test]
fn cells_are_copied_between_variables() {
    let mut src = Var::create(1, Varchar, Bytes, 2, 16, false, "UTF-8").expect("var");
    let mut dst = Var::create(2, Varchar, Bytes, 3, 8, false, "UTF-8").expect("var");
    src.set_from_bytes(0, "short").expect("set");
    src.set_from_bytes(1, "much too long").expect("set");
    assert_eq!(src.copy_data(0, &mut dst, 2), Ok(()));
    assert_eq!(
        Data::from_cell(dst.get_data().expect("data")[2].clone()).get_string(),
        Ok("short".to_string())
    );
    assert_eq!(src.copy_data(2, &mut dst, 0), Err(invalid(Reason::IndexOutOfRange)));
    assert_eq!(src.copy_data(0, &mut dst, 3), Err(invalid(Reason::IndexOutOfRange)));
    assert_eq!(src.copy_data(1, &mut dst, 0), Err(invalid(Reason::ValueTooLarge)));
    assert!(dst.get_data().expect("data")[0].is_null);
    let mut numbers = Var::create(3, Number, Int64, 1, 22, false, "").expect("var");
    assert_eq!(src.copy_data(0, &mut numbers, 0), Err(ErrorKind::UncheckedVariantAccess));
}

#[test]
fn index_by_table_counts_its_elements() {
    let mut table = Var::create(1, Number, Int64, 4, 22, true, "").expect("var");
    assert_eq!(table.get_num_elements_in_array(), Ok(0));
    assert_eq!(table.set_num_elements_in_array(3), Ok(()));
    assert_eq!(table.get_num_elements_in_array(), Ok(3));
    assert_eq!(table.set_num_elements_in_array(4), Ok(()));
    assert_eq!(table.set_num_elements_in_array(5), Err(invalid(Reason::ArrayTooSmall)));
    assert_eq!(table.get_num_elements_in_array(), Ok(4));
    assert_eq!(table.get_data().expect("data").len(), 4);
}

#[test]
fn references_to_resources_are_written() {
    let conn = connect();
    let lob = conn.new_temp_lob(Blob, Ok(LobGrant { handle: 0x41, chunk_size: 8132 })).expect("lob");
    let mut lobs = Var::create(1, Blob, ODPINativeTypeNum::Lob, 1, 8, false, "").expect("var");
    assert_eq!(lobs.set_from_lob(0, &lob), Ok(()));
    assert_eq!(lobs.get_data().expect("data")[0].value, ODPIDataValueUnion::Lob(0x41));

    let object = Object::new(0x42, 1, false, Invalid, &Vec::new()).expect("object");
    let mut objects =
        Var::create(2, ODPIOracleTypeNum::Object, NativeObject, 1, 8, false, "").expect("var");
    assert_eq!(objects.set_from_object(0, &object), Ok(()));
    assert_eq!(Data::from_cell(objects.get_data().expect("data")[0].clone()).get_object(), Ok(0x42));

    let rowid = Rowid::new(0x43, ODPIStr::from_text("AAAR3sAAEAAAACXAAA"));
    let mut rowids =
        Var::create(3, ODPIOracleTypeNum::RowID, ODPINativeTypeNum::Rowid, 1, 8, false, "")
            .expect("var");
    assert_eq!(rowids.set_from_rowid(0, &rowid), Ok(()));
    assert_eq!(rowids.get_data().expect("data")[0].value, ODPIDataValueUnion::Rowid(0x43));

    let mut stmt = Statement::new(0x44);
    let mut stmts =
        Var::create(4, ODPIOracleTypeNum::Stmt, ODPINativeTypeNum::Stmt, 1, 8, false, "")
            .expect("var");
    assert_eq!(stmts.set_from_stmt(0, &stmt), Ok(()));
    assert_eq!(Data::from_cell(stmts.get_data().expect("data")[0].clone()).get_stmt(), Ok(0x44));

    assert_eq!(stmts.set_from_stmt(1, &stmt), Err(invalid(Reason::IndexOutOfRange)));
    assert_eq!(lobs.set_from_object(0, &object), Err(ErrorKind::UncheckedVariantAccess));
    stmt.close(None, Ok(())).expect("close");
    assert_eq!(stmts.set_from_stmt(0, &stmt), Err(invalid(Reason::HandleNotLive)));
}

#[test]
fn row_identifier_is_read_as_text() {
    let rowid = Rowid::new(0x43, ODPIStr::from_text("AAAR3sAAEAAAACXAAA"));
    assert_eq!(rowid.get_string_value(), Ok("AAAR3sAAEAAAACXAAA".to_string()));
    let null = Rowid::new(0x44, ODPIStr::new(None));
    assert_eq!(null.get_string_value(), Ok(String::new()));
    let mut gone = Rowid::new(0x45, ODPIStr::from_text("x"));
    gone.release(Ok(())).expect("release");
    assert_eq!(gone.get_string_value(), Err(invalid(Reason::HandleNotLive)));
}

#[test]
fn returned_rows_replace_the_cells() {
    let mut out = Var::create(1, Number, Int64, 2, 22, false, "").expect("var");
    let cell = |n: i64| ODPIData { is_null: false, value: ODPIDataValueUnion::Int64(n) };
    assert_eq!(out.reallocated(vec![cell(1), cell(2), cell(3)]), Ok(()));
    assert_eq!(out.get_data().expect("data").len(), 3);
    assert_eq!(out.max_array_size(), 3);
    assert_eq!(out.get_num_elements_in_array(), Ok(3));
    assert_eq!(out.get_data().expect("data")[2], cell(3));
    assert_eq!(out.reallocated(vec![cell(9)]), Ok(()));
    assert_eq!(out.get_data().expect("data").len(), 1);
    assert_eq!(out.reallocated(Vec::new()), Err(invalid(Reason::ZeroArraySize)));
    let text = ODPIData {
        is_null: false,
        value: ODPIDataValueUnion::Bytes(ODPIBytes { bytes: vec![1], encoding: String::new() }),
    };
    assert_eq!(out.reallocated(vec![cell(1), text]), Err(invalid(Reason::InconsistentReply)));
    assert_eq!(out.get_data().expect("data").len(), 1);
    let mut names = Var::create(2, Varchar, Bytes, 1, 2, false, "UTF-8").expect("var");
    let wide = ODPIData {
        is_null: false,
        value: ODPIDataValueUnion::Bytes(ODPIBytes { bytes: vec![1, 2, 3], encoding: String::new() }),
    };
    assert_eq!(names.reallocated(vec![wide]), Err(invalid(Reason::InconsistentReply)));
    out.release(Ok(())).expect("release");
    assert_eq!(out.reallocated(vec![cell(1)]), Err(invalid(Reason::HandleNotLive)));
}
