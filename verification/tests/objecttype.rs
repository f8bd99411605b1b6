use chrono::NaiveDate;
use mimir::connection::Handshake;
use mimir::encoding::Info as EncodingInfo;
use mimir::enums::ODPIStatementType::Select;
use mimir::enums::{ODPINativeTypeNum, ODPIOracleTypeNum};
use mimir::error::{ErrorKind, Info, Operation, Reason};
use mimir::flags::{
    ODPIConnCloseMode, ODPIExecMode, DPI_MODE_CONN_CLOSE_DEFAULT, DPI_MODE_EXEC_DEFAULT,
};
use mimir::objecttype::{AttrDescription, TypeCatalog, TypeDescription};
use mimir::statement::{Description, ExecuteOutcome, RowBatch};
use mimir::structs::{ODPIBytes, ODPIDataValueUnion, ODPITimestamp, ODPIVersionInfo};
use mimir::{
    Connection, Context, Data, ODPIData, ODPIObjectAttrInfo, ODPIObjectTypeInfo, Object,
    ObjectAttr, ObjectType, QueryInfo, Statement,
};

const UDT_OBJECT: u64 = 0xA000;
const UDT_SUBOBJECT: u64 = 0xA100;
const UDT_OBJECTARRAY: u64 = 0xA200;

fn invalid(reason: Reason) -> ErrorKind {
    ErrorKind::InvalidArgument { reason }
}

fn attribute(
    handle: u64,
    name: &str,
    oracle_type_num: ODPIOracleTypeNum,
    default_native_type_num: ODPINativeTypeNum,
    object_type: u64,
) -> AttrDescription {
    AttrDescription {
        handle,
        info: ODPIObjectAttrInfo {
            name: name.to_string(),
            oracle_type_num,
            default_native_type_num,
            object_type,
        },
    }
}

fn udt_object() -> TypeDescription {
    TypeDescription {
        handle: UDT_OBJECT,
        info: ODPIObjectTypeInfo {
            schema: "ODPIC".to_string(),
            name: "UDT_OBJECT".to_string(),
            is_collection: false,
            element_oracle_type_num: ODPIOracleTypeNum::Max,
            element_default_native_type_num: ODPINativeTypeNum::Invalid,
            element_object_type: 0,
            num_attributes: 7,
        },
        attributes: vec![
            attribute(0xA001, "NUMBERVALUE", ODPIOracleTypeNum::Number, ODPINativeTypeNum::Double, 0),
            attribute(0xA002, "STRINGVALUE", ODPIOracleTypeNum::Varchar, ODPINativeTypeNum::Bytes, 0),
            attribute(0xA003, "FIXEDCHARVALUE", ODPIOracleTypeNum::Char, ODPINativeTypeNum::Bytes, 0),
            attribute(0xA004, "DATEVALUE", ODPIOracleTypeNum::Date, ODPINativeTypeNum::Timestamp, 0),
            attribute(
                0xA005,
                "TIMESTAMPVALUE",
                ODPIOracleTypeNum::Timestamp,
                ODPINativeTypeNum::Timestamp,
                0,
            ),
            attribute(
                0xA006,
                "SUBOBJECTVALUE",
                ODPIOracleTypeNum::Object,
                ODPINativeTypeNum::Object,
                UDT_SUBOBJECT,
            ),
            attribute(
                0xA007,
                "SUBOBJECTARRAY",
                ODPIOracleTypeNum::Object,
                ODPINativeTypeNum::Object,
                UDT_OBJECTARRAY,
            ),
        ],
    }
}

fn udt_subobject() -> TypeDescription {
    TypeDescription {
        handle: UDT_SUBOBJECT,
        info: ODPIObjectTypeInfo {
            schema: "ODPIC".to_string(),
            name: "UDT_SUBOBJECT".to_string(),
            is_collection: false,
            element_oracle_type_num: ODPIOracleTypeNum::Max,
            element_default_native_type_num: ODPINativeTypeNum::Invalid,
            element_object_type: 0,
            num_attributes: 2,
        },
        attributes: vec![
            attribute(0xA101, "SUBNUMBERVALUE", ODPIOracleTypeNum::Number, ODPINativeTypeNum::Double, 0),
            attribute(0xA102, "SUBSTRINGVALUE", ODPIOracleTypeNum::Varchar, ODPINativeTypeNum::Bytes, 0),
        ],
    }
}

fn udt_objectarray() -> TypeDescription {
    TypeDescription {
        handle: UDT_OBJECTARRAY,
        info: ODPIObjectTypeInfo {
            schema: "ODPIC".to_string(),
            name: "UDT_OBJECTARRAY".to_string(),
            is_collection: true,
            element_oracle_type_num: ODPIOracleTypeNum::Object,
            element_default_native_type_num: ODPINativeTypeNum::Object,
            element_object_type: UDT_SUBOBJECT,
            num_attributes: 0,
        },
        attributes: Vec::new(),
    }
}

fn catalog() -> TypeCatalog {
    let mut catalog = TypeCatalog::new();
    assert_eq!(catalog.lookup_by_name("ODPIC", "UDT_OBJECT", Ok(udt_object())), Ok(0));
    assert_eq!(catalog.lookup_by_name("ODPIC", "UDT_SUBOBJECT", Ok(udt_subobject())), Ok(1));
    assert_eq!(catalog.lookup_by_name("ODPIC", "UDT_OBJECTARRAY", Ok(udt_objectarray())), Ok(2));
    catalog
}

fn text(value: &str) -> Data {
    Data::new(
        false,
        ODPIDataValueUnion::Bytes(ODPIBytes {
            bytes: value.as_bytes().to_vec(),
            encoding: "UTF-8".to_string(),
        }),
    )
}

fn timestamp(year: i16, month: u8, day: u8, hour: u8, minute: u8) -> Data {
    Data::new(
        false,
        ODPIDataValueUnion::Timestamp(ODPITimestamp {
            year,
            month,
            day,
            hour,
            minute,
            second: 0,
            fsecond: 0,
            tz_hour_offset: 0,
            tz_minute_offset: 0,
        }),
    )
}

fn object_ref(handle: u64) -> Data {
    Data::new(false, ODPIDataValueUnion::Object(handle))
}

fn validate_object_attr_info(idx: usize, attr_info: &ODPIObjectAttrInfo) {
    let name = attr_info.name.clone();
    match idx {
        0 => assert_eq!(name, "NUMBERVALUE"),
        1 => assert_eq!(name, "STRINGVALUE"),
        2 => assert_eq!(name, "FIXEDCHARVALUE"),
        3 => assert_eq!(name, "DATEVALUE"),
        4 => assert_eq!(name, "TIMESTAMPVALUE"),
        5 => assert_eq!(name, "SUBOBJECTVALUE"),
        6 => assert_eq!(name, "SUBOBJECTARRAY"),
        _ => assert!(false),
    }
}

fn validate_object_type_info(type_info: &ODPIObjectTypeInfo) {
    assert_eq!(type_info.schema, "ODPIC");
    assert_eq!(type_info.name, "UDT_OBJECT");
    assert!(!type_info.is_collection);
    assert_eq!(type_info.element_default_native_type_num, ODPINativeTypeNum::Invalid);
    assert_eq!(type_info.element_object_type, 0);
    assert_eq!(type_info.num_attributes, 7);
}

fn validate_bytes(idx: usize, attr_data: &ODPIData) {
    let data_str = Data::from_cell(attr_data.clone()).get_string().expect("text");
    if idx == 1 {
        assert_eq!(data_str, "First row");
    } else if idx == 2 {
        assert_eq!(data_str, "First     ");
    } else {
        assert!(false);
    }
}

fn validate_double(idx: usize, attr_data: &ODPIData) {
    if idx == 0 {
        let value = f64::from_bits(Data::from_cell(attr_data.clone()).get_double().expect("double"));
        assert!(value - 1.0 < ::std::f64::EPSILON);
    } else {
        assert!(false);
    }
}

fn validate_timestamp(idx: usize, attr_data: &ODPIData) {
    let now = NaiveDate::from_ymd_opt(1970, 1, 1).and_then(|d| d.and_hms_opt(0, 0, 0)).expect("now");
    let ts = Data::from_cell(attr_data.clone()).get_utc(now).expect("time");

    if idx == 3 {
        let expected =
            NaiveDate::from_ymd_opt(2007, 3, 6).and_then(|d| d.and_hms_nano_opt(0, 0, 0, 0));
        assert_eq!(Some(ts), expected);
    } else if idx == 4 {
        let expected =
            NaiveDate::from_ymd_opt(2008, 9, 12).and_then(|d| d.and_hms_nano_opt(16, 40, 0, 0));
        assert_eq!(Some(ts), expected);
    } else {
        assert!(false);
    }
}

fn validate_subobject(obj_type: &ObjectType) {
    let type_info = obj_type.get_info().expect("info");
    assert_eq!(type_info.schema, "ODPIC");
    assert_eq!(type_info.name, "UDT_SUBOBJECT");
    assert!(!type_info.is_collection);
    assert_eq!(type_info.num_attributes, 2);
}

fn validate_objectarr(catalog: &TypeCatalog, obj_type: &ObjectType) {
    let type_info = obj_type.get_info().expect("info");
    assert_eq!(type_info.schema, "ODPIC");
    assert_eq!(type_info.name, "UDT_OBJECTARRAY");
    assert!(type_info.is_collection);
    assert_eq!(type_info.element_oracle_type_num, ODPIOracleTypeNum::Object);
    assert_eq!(type_info.element_default_native_type_num, ODPINativeTypeNum::Object);
    assert_ne!(type_info.element_object_type, 0);
    assert!(type_info.has_nested_elements());

    let at = catalog.find_by_handle(type_info.element_object_type).expect("element type");
    let arr_obj_type = catalog.get(at).expect("element type");
    validate_subobject(arr_obj_type);
}

fn validate_object(
    catalog: &TypeCatalog,
    idx: usize,
    attr_info: &ODPIObjectAttrInfo,
    attr_data: &ODPIData,
    array: &mut Object,
) {
    if attr_info.object_type == 0 {
        assert!(false);
    } else {
        assert!(attr_info.is_nested());
        let at = catalog.find_by_handle(attr_info.object_type).expect("nested type");
        let nested_obj_type = catalog.get(at).expect("nested type");
        let handle = Data::from_cell(attr_data.clone()).get_object().expect("object");

        if idx == 5 {
            validate_subobject(nested_obj_type);
        } else if idx == 6 {
            validate_objectarr(catalog, nested_obj_type);
            assert_eq!(handle, array.inner());
            let odpi_obj = array;

            let (first_index, first_index_exists) = odpi_obj.get_first_index().expect("first");
            assert_eq!(first_index, 0);
            assert!(first_index_exists);

            let (last_index, last_index_exists) = odpi_obj.get_last_index().expect("last");
            assert_eq!(last_index, 1);
            assert!(last_index_exists);

            let (next_index, next_index_exists) = odpi_obj.get_next_index(0).expect("next");
            assert_eq!(next_index, 1);
            assert!(next_index_exists);
            let (next_index_1, next_index_exists_1) = odpi_obj.get_next_index(1).expect("next");
            assert_eq!(next_index_1, 0);
            assert!(!next_index_exists_1);

            let (prev_index, prev_index_exists) = odpi_obj.get_prev_index(1).expect("prev");
            assert_eq!(prev_index, 0);
            assert!(prev_index_exists);
            let (prev_index_1, prev_index_exists_1) = odpi_obj.get_prev_index(0).expect("prev");
            assert_eq!(prev_index_1, 0);
            assert!(!prev_index_exists_1);

            let mut size = odpi_obj.get_size().expect("size");
            assert_eq!(size, 2);

            odpi_obj.trim(1).expect("trim");
            size = odpi_obj.get_size().expect("size");
            assert_eq!(size, 1);
        }
    }
}

fn validate_query_value(
    catalog: &TypeCatalog,
    idx: usize,
    obj: &Object,
    obj_attr: &ObjectAttr,
    attr_info: &ODPIObjectAttrInfo,
    array: &mut Object,
) {
    let attr_data = obj.get_attribute_value(obj_attr, attr_info).expect("value");
    match attr_info.default_native_type_num {
        ODPINativeTypeNum::Bytes => validate_bytes(idx, &attr_data),
        ODPINativeTypeNum::Double => validate_double(idx, &attr_data),
        ODPINativeTypeNum::Timestamp => validate_timestamp(idx, &attr_data),
        ODPINativeTypeNum::Object => validate_object(catalog, idx, attr_info, &attr_data, array),
        _ => {
            assert!(false);
        }
    }
}

fn first_row(catalog: &TypeCatalog, object_type: &ObjectType) -> (Object, Object) {
    let subobject_type = catalog.get(1).expect("type");
    let array_type = catalog.get(2).expect("type");
    let element_1 = subobject_type.create(Ok(0xB101)).expect("object");
    let element_2 = subobject_type.create(Ok(0xB102)).expect("object");
    let subobject = subobject_type.create(Ok(0xB100)).expect("object");
    let mut array = array_type.create(Ok(0xB200)).expect("object");
    let element = ODPIData { is_null: false, value: ODPIDataValueUnion::Object(element_1.inner()) };
    array.append_element(ODPINativeTypeNum::Object, &element).expect("append");
    let element = ODPIData { is_null: false, value: ODPIDataValueUnion::Object(element_2.inner()) };
    array.append_element(ODPINativeTypeNum::Object, &element).expect("append");

    let attrs = object_type.get_attributes(7).expect("attributes");
    let mut row = object_type.create(Ok(0xB000)).expect("object");
    let values = vec![
        Data::new(false, ODPIDataValueUnion::Double(1.0f64.to_bits())),
        text("First row"),
        text("First     "),
        timestamp(2007, 3, 6, 0, 0),
        timestamp(2008, 9, 12, 16, 40),
        object_ref(subobject.inner()),
        object_ref(array.inner()),
    ];
    for (attr, value) in attrs.iter().zip(values) {
        let native_type = value.native_type();
        row.set_attribute_value(attr, native_type, value).expect("set");
    }
    (row, array)
}

fn validate_object_type(catalog: &TypeCatalog, object_col: &mut Statement, object_type: &ObjectType) {
    let attrs = object_type.get_attributes(7).expect("attributes");
    let mut obj_attrs = Vec::new();
    let mut attr_infos = Vec::new();

    for (idx, attr) in attrs.into_iter().enumerate() {
        let attr_info = attr.get_info().expect("info");

        validate_object_attr_info(idx, &attr_info);

        obj_attrs.push(attr);
        attr_infos.push(attr_info);
    }

    let type_info = object_type.get_info().expect("info");
    validate_object_type_info(&type_info);

    let (obj, mut array) = first_row(catalog, object_type);
    let fetched = RowBatch {
        rows: vec![vec![ODPIData {
            is_null: false,
            value: ODPIDataValueUnion::Object(obj.inner()),
        }]],
        more_rows: true,
    };
    object_col.fetch(Ok(fetched)).expect("fetch");

    // Create an object of this type.
    let created = object_type.create(Ok(0xB999)).expect("object");
    assert_eq!(created.get_size(), Err(invalid(Reason::NotACollection)));

    // Get the object value out of the query.
    let (object_col_type, object_col_cell) = object_col.get_query_value(1).expect("value");
    assert_eq!(object_col_type, ODPINativeTypeNum::Object);
    let data: Data = Data::from_cell(object_col_cell.clone());
    assert_eq!(data.get_object(), Ok(obj.inner()));

    for (idx, (obj_attr, attr_info)) in obj_attrs.iter().zip(attr_infos.iter()).enumerate() {
        validate_query_value(catalog, idx, &obj, obj_attr, attr_info, &mut array);
    }

    for mut obj_attr in obj_attrs {
        obj_attr.release(Ok(())).expect("release");
    }
}

#[test]
fn objecttype() {
    let ctxt = Context::create(Ok(0x1000)).expect("context");
    let mut ccp = ctxt.init_common_create_params().expect("params");
    ccp.set_encoding("UTF-8");
    ccp.set_nchar_encoding("UTF-8");

    let handshake = Handshake {
        handle: 0x2000,
        encoding: EncodingInfo::new("UTF-8", 4, "UTF-8", 4),
        server_version: ODPIVersionInfo {
            version_num: 12,
            release_num: 1,
            update_num: 0,
            port_release_num: 2,
            port_update_num: 0,
            full_version_num: 1201000200,
        },
        server_release: "Oracle Database 12c".to_string(),
    };
    let mut conn = Connection::create(
        &ctxt,
        Some("odpic"),
        Some("password"),
        Some("//oic.cbsnae86d3iv.us-east-2.rds.amazonaws.com/ORCL"),
        Some(ccp),
        None,
        Ok(handshake),
    )
    .expect("connection");

    conn.add_ref(Ok(())).expect("add_ref");

    // Query with object
    let mut object_col = conn
        .prepare_stmt(
            Some(
                "select ObjectCol \
                 from TestObjects \
                 order by IntCol",
            ),
            None,
            false,
            Ok(Description {
                handle: 0x6000,
                statement_type: Select,
                is_returning: false,
                bind_names: Vec::new(),
            }),
        )
        .expect("statement");

    let column = QueryInfo {
        name: "OBJECTCOL".to_string(),
        oracle_type_num: ODPIOracleTypeNum::Object,
        default_native_type_num: ODPINativeTypeNum::Object,
        db_size_in_bytes: 0,
        client_size_in_bytes: 0,
        size_in_chars: 0,
        precision: 0,
        scale: 0,
        null_ok: true,
        object_type: Some(conn.get_object_type("UDT_OBJECT", Ok(udt_object())).expect("type")),
    };
    let cols = object_col
        .execute(
            ODPIExecMode::from_bits_truncate(DPI_MODE_EXEC_DEFAULT),
            Ok(ExecuteOutcome { columns: vec![column], row_count: 0 }),
        )
        .expect("execute");
    assert_eq!(cols, 1);

    let catalog = catalog();
    let object_type =
        conn.get_object_type("UDT_OBJECT", Ok(udt_object())).expect("type");
    {
        let query_info = object_col.get_query_info(1).expect("info");
        assert!(query_info.object_type().is_some());
        assert_eq!(query_info.object_type().map(|t| t.inner()), Some(object_type.inner()));
    }
    validate_object_type(&catalog, &mut object_col, &object_type);

    object_col.close(None, Ok(())).expect("close");
    conn.close(ODPIConnCloseMode::from_bits_truncate(DPI_MODE_CONN_CLOSE_DEFAULT), None, Ok(()))
        .expect("close");
    object_col.release(Ok(())).expect("release");
    conn.release(Ok(())).expect("release");
}

#[test]
fn nested_type_is_resolved_one_level_at_a_time() {
    let catalog = catalog();
    let at = catalog.find_by_name("ODPIC", "UDT_OBJECT").expect("type");
    let object_type = catalog.get(at).expect("type");
    let info = object_type.get_info().expect("info");
    assert!(!info.is_collection);
    assert_eq!(info.num_attributes, 7);
    let attrs = object_type.get_attributes(7).expect("attributes");
    let seventh = attrs[6].get_info().expect("info");
    assert!(seventh.is_nested());
    let nested = catalog.get(catalog.find_by_handle(seventh.object_type).expect("nested")).expect("nested");
    let nested_info = nested.get_info().expect("info");
    assert!(nested_info.is_collection);
    assert_eq!(nested_info.name, "UDT_OBJECTARRAY");
    let element = catalog
        .get(catalog.find_by_handle(nested_info.element_object_type).expect("element"))
        .expect("element");
    assert_eq!(element.get_info().map(|i| i.name), Ok("UDT_SUBOBJECT".to_string()));
    let first = attrs[0].get_info().expect("info");
    assert!(!first.is_nested());
    assert_eq!(catalog.find_by_handle(first.object_type), None);

    assert!(catalog.nested_type(&first).is_none());
    assert_eq!(catalog.nested_type(&seventh).map(|t| t.inner()), Some(UDT_OBJECTARRAY));
    assert_eq!(catalog.element_type(&nested_info).map(|t| t.inner()), Some(UDT_SUBOBJECT));
    assert!(catalog.element_type(&info).is_none());
    let mut unknown = seventh.clone();
    unknown.object_type = 0xDEAD;
    assert!(catalog.nested_type(&unknown).is_none());
}

#[test]
fn catalog_remembers_what_was_looked_up() {
    let mut catalog = catalog();
    assert_eq!(catalog.len(), 3);
    let unused = Info {
        code: 4043,
        offset: 0,
        message: "object does not exist".to_string(),
        fn_name: "dpiConn_getObjectType".to_string(),
        action: "describe".to_string(),
        sql_state: "HY000".to_string(),
        is_recoverable: false,
    };
    assert_eq!(catalog.lookup_by_name("ODPIC", "UDT_SUBOBJECT", Err(unused.clone())), Ok(1));
    assert_eq!(catalog.lookup_by_name("ODPIC", "UDT_OBJECT", Ok(udt_subobject())), Ok(0));
    assert_eq!(catalog.len(), 3);
    assert_eq!(
        catalog.lookup_by_name("ODPIC", "UDT_MISSING", Err(unused.clone())),
        Err(ErrorKind::NativeCallFailed { operation: Operation::ConnGetObjectType, info: unused })
    );
    assert_eq!(
        catalog.lookup_by_name("OTHER", "UDT_OBJECT", Ok(udt_object())),
        Err(invalid(Reason::InconsistentReply))
    );
    let mut null = udt_object();
    null.handle = 0;
    null.info.schema = "OTHER".to_string();
    assert_eq!(
        catalog.lookup_by_name("OTHER", "UDT_OBJECT", Ok(null)),
        Err(invalid(Reason::NullHandle))
    );
    let mut short = udt_object();
    short.info.schema = "OTHER".to_string();
    short.attributes.pop();
    assert_eq!(
        catalog.lookup_by_name("OTHER", "UDT_OBJECT", Ok(short)),
        Err(invalid(Reason::InconsistentReply))
    );
    assert_eq!(catalog.len(), 3);
    assert_eq!(catalog.find_by_name("OTHER", "UDT_OBJECT"), None);
    assert_eq!(catalog.find_by_name("ODPIC", "UDT_OBJECTARRAY"), Some(2));
    assert_eq!(catalog.find_by_handle(UDT_SUBOBJECT), Some(1));
    assert_eq!(catalog.find_by_handle(1), None);
    assert!(catalog.get(3).is_none());
}

#[test]
fn attributes_need_room_and_a_live_type() {
    let mut object_type = ObjectType::describe(udt_object()).expect("type");
    assert_eq!(
        object_type.get_attributes(6).map(|a| a.len()),
        Err(invalid(Reason::ArrayTooSmall))
    );
    assert_eq!(object_type.get_attributes(9).map(|a| a.len()), Ok(7));
    let attrs = object_type.get_attributes(7).expect("attributes");
    for (idx, attr) in attrs.iter().enumerate() {
        assert_eq!(attr.index() as usize, idx);
        assert_eq!(attr.owner(), UDT_OBJECT);
        assert_eq!(attr.inner(), 0xA001 + idx as u64);
        assert!(attr.is_live());
    }
    object_type.add_ref(Ok(())).expect("add_ref");
    object_type.release(Ok(())).expect("release");
    object_type.release(Ok(())).expect("release");
    assert_eq!(object_type.get_info().map(|i| i.name), Err(invalid(Reason::HandleNotLive)));
    assert_eq!(
        object_type.get_attributes(7).map(|a| a.len()),
        Err(invalid(Reason::HandleNotLive))
    );
    assert_eq!(
        object_type.create(Ok(1)).map(|o| o.inner()),
        Err(invalid(Reason::HandleNotLive))
    );
    assert!(attrs[0].get_info().is_ok());
}

#[test]
fn collection_keeps_its_holes() {
    let array_type = ObjectType::describe(udt_objectarray()).expect("type");
    let mut array = array_type.create(Ok(0xB200)).expect("object");
    assert_eq!(array.get_first_index(), Ok((0, false)));
    assert_eq!(array.get_last_index(), Ok((0, false)));
    assert_eq!(array.get_size(), Ok(0));
    for handle in 1..=5u64 {
        let element = ODPIData { is_null: false, value: ODPIDataValueUnion::Object(handle) };
        array.append_element(ODPINativeTypeNum::Object, &element).expect("append");
    }
    assert_eq!(array.get_size(), Ok(5));
    array.delete_element_by_index(0).expect("delete");
    array.delete_element_by_index(2).expect("delete");
    array.delete_element_by_index(4).expect("delete");
    assert_eq!(array.delete_element_by_index(2), Err(invalid(Reason::NoSuchElement)));
    assert_eq!(array.delete_element_by_index(5), Err(invalid(Reason::NoSuchElement)));
    assert_eq!(array.delete_element_by_index(-1), Err(invalid(Reason::NoSuchElement)));
    assert_eq!(array.get_size(), Ok(5));
    assert_eq!(array.get_first_index(), Ok((1, true)));
    assert_eq!(array.get_last_index(), Ok((3, true)));
    assert_eq!(array.get_next_index(1), Ok((3, true)));
    assert_eq!(array.get_next_index(-7), Ok((1, true)));
    assert_eq!(array.get_next_index(3), Ok((0, false)));
    assert_eq!(array.get_next_index(i32::MAX), Ok((0, false)));
    assert_eq!(array.get_prev_index(3), Ok((1, true)));
    assert_eq!(array.get_prev_index(1), Ok((0, false)));
    assert_eq!(array.get_prev_index(i32::MAX), Ok((3, true)));
    assert_eq!(array.get_prev_index(i32::MIN), Ok((0, false)));
    assert_eq!(array.get_element_exists_by_index(1), Ok(true));
    assert_eq!(array.get_element_exists_by_index(2), Ok(false));
    assert_eq!(array.get_element_exists_by_index(9), Ok(false));
    assert_eq!(array.get_element_exists_by_index(-1), Ok(false));
    let second = array.get_element_value_by_index(1, ODPINativeTypeNum::Object).expect("value");
    assert_eq!(second.value, ODPIDataValueUnion::Object(2));
    assert_eq!(
        array.get_element_value_by_index(1, ODPINativeTypeNum::Int64),
        Err(ErrorKind::UncheckedVariantAccess)
    );
    assert_eq!(
        array.get_element_value_by_index(2, ODPINativeTypeNum::Object),
        Err(invalid(Reason::NoSuchElement))
    );
    array
        .set_element_value_by_index(2, ODPINativeTypeNum::Object, object_ref(33))
        .expect("set");
    assert_eq!(array.get_next_index(1), Ok((2, true)));
    assert_eq!(
        array.set_element_value_by_index(5, ODPINativeTypeNum::Object, object_ref(6)),
        Err(invalid(Reason::IndexOutOfRange))
    );
    assert_eq!(
        array.set_element_value_by_index(0, ODPINativeTypeNum::Int64, object_ref(6)),
        Err(ErrorKind::UncheckedVariantAccess)
    );
    assert_eq!(array.trim(6), Err(invalid(Reason::IndexOutOfRange)));
    array.trim(1).expect("trim");
    assert_eq!(array.get_size(), Ok(4));
    assert_eq!(array.get_last_index(), Ok((3, true)));
    array.trim(4).expect("trim");
    assert_eq!(array.get_size(), Ok(0));
    assert_eq!(array.get_first_index(), Ok((0, false)));
    let wrong = ODPIData { is_null: false, value: ODPIDataValueUnion::Int64(1) };
    assert_eq!(
        array.append_element(ODPINativeTypeNum::Int64, &wrong),
        Err(ErrorKind::UncheckedVariantAccess)
    );
    assert_eq!(
        array.append_element(ODPINativeTypeNum::Object, &wrong),
        Err(ErrorKind::UncheckedVariantAccess)
    );
}

#[test]
fn object_is_copied_with_its_content() {
    let subobject_type = ObjectType::describe(udt_subobject()).expect("type");
    let attrs = subobject_type.get_attributes(2).expect("attributes");
    let mut source = subobject_type.create(Ok(0xB100)).expect("object");
    source
        .set_attribute_value(&attrs[1], ODPINativeTypeNum::Bytes, text("kept"))
        .expect("set");
    let mut copy = source.copy_object(Ok(0xB101)).expect("copy");
    assert_eq!(copy.inner(), 0xB101);
    source
        .set_attribute_value(&attrs[1], ODPINativeTypeNum::Bytes, text("changed"))
        .expect("set");
    let info = attrs[1].get_info().expect("info");
    let kept = copy.get_attribute_value(&attrs[1], &info).expect("value");
    assert_eq!(Data::from_cell(kept).get_string(), Ok("kept".to_string()));
    let number = attrs[0].get_info().expect("info");
    let unset = copy.get_attribute_value(&attrs[0], &number).expect("value");
    assert!(unset.is_null);
    assert_eq!(
        copy.get_attribute_value(&attrs[0], &info),
        Err(ErrorKind::UncheckedVariantAccess)
    );
    assert_eq!(
        copy.set_attribute_value(&attrs[0], ODPINativeTypeNum::Double, text("no number")),
        Err(ErrorKind::UncheckedVariantAccess)
    );
    let other_type = ObjectType::describe(udt_object()).expect("type");
    let foreign = other_type.get_attributes(7).expect("attributes");
    let foreign_info = foreign[0].get_info().expect("info");
    assert_eq!(
        copy.get_attribute_value(&foreign[0], &foreign_info),
        Err(invalid(Reason::ForeignAttribute))
    );
    assert_eq!(source.copy_object(Ok(0)).map(|o| o.inner()), Err(invalid(Reason::NullHandle)));
    copy.add_ref(Ok(())).expect("add_ref");
    copy.release(Ok(())).expect("release");
    copy.release(Ok(())).expect("release");
    assert_eq!(
        copy.copy_object(Ok(5)).map(|o| o.inner()),
        Err(invalid(Reason::HandleNotLive))
    );
    assert_eq!(
        copy.get_attribute_value(&attrs[1], &info),
        Err(invalid(Reason::HandleNotLive))
    );
}

#[test]
fn object_type() {
    let ctxt = Context::create(Ok(0x1000)).expect("badness");
    let mut ccp = ctxt.init_common_create_params().expect("badness");
    ccp.set_encoding("UTF-8");
    ccp.set_nchar_encoding("UTF-8");

    let handshake = Handshake {
        handle: 0x2000,
        encoding: EncodingInfo::new("UTF-8", 4, "UTF-8", 4),
        server_version: ODPIVersionInfo {
            version_num: 12,
            release_num: 1,
            update_num: 0,
            port_release_num: 2,
            port_update_num: 0,
            full_version_num: 1201000200,
        },
        server_release: "Oracle Database 12c".to_string(),
    };
    let mut conn = Connection::create(
        &ctxt,
        Some("odpic"),
        Some("password"),
        Some("//oic.cbsnae86d3iv.us-east-2.rds.amazonaws.com/ORCL"),
        Some(ccp),
        None,
        Ok(handshake),
    )
    .expect("badness");

    conn.add_ref(Ok(())).expect("badness");

    // Query with object
    let mut object_col = conn
        .prepare_stmt(
            Some(
                "select ObjectCol \
                 from TestObjects \
                 order by IntCol",
            ),
            None,
            false,
            Ok(Description {
                handle: 0x6000,
                statement_type: Select,
                is_returning: false,
                bind_names: Vec::new(),
            }),
        )
        .expect("badness");

    let column = QueryInfo {
        name: "OBJECTCOL".to_string(),
        oracle_type_num: ODPIOracleTypeNum::Object,
        default_native_type_num: ODPINativeTypeNum::Object,
        db_size_in_bytes: 0,
        client_size_in_bytes: 0,
        size_in_chars: 0,
        precision: 0,
        scale: 0,
        null_ok: true,
        object_type: Some(conn.get_object_type("UDT_OBJECT", Ok(udt_object())).expect("badness")),
    };
    let cols = object_col
        .execute(
            ODPIExecMode::from_bits_truncate(DPI_MODE_EXEC_DEFAULT),
            Ok(ExecuteOutcome { columns: vec![column], row_count: 0 }),
        )
        .expect("badness");
    assert_eq!(cols, 1);

    let catalog = catalog();
    let object_type = conn.get_object_type("UDT_OBJECT", Ok(udt_object())).expect("badness");
    assert!(object_col.get_query_info(1).expect("badness").object_type().is_some());

    let attrs = object_type.get_attributes(7).expect("badness");
    let mut obj_attrs = Vec::new();
    let mut attr_infos = Vec::new();

    for (idx, attr) in attrs.into_iter().enumerate() {
        let attr_info = attr.get_info().expect("badness");
        let name = attr_info.name.clone();
        match idx {
            0 => assert_eq!(name, "NUMBERVALUE"),
            1 => assert_eq!(name, "STRINGVALUE"),
            2 => assert_eq!(name, "FIXEDCHARVALUE"),
            3 => assert_eq!(name, "DATEVALUE"),
            4 => assert_eq!(name, "TIMESTAMPVALUE"),
            5 => assert_eq!(name, "SUBOBJECTVALUE"),
            6 => assert_eq!(name, "SUBOBJECTARRAY"),
            _ => assert!(false),
        }
        obj_attrs.push(attr);
        attr_infos.push(attr_info);
    }

    let type_info = object_type.get_info().expect("badness");
    assert_eq!(type_info.schema, "ODPIC");
    assert_eq!(type_info.name, "UDT_OBJECT");
    assert!(!type_info.is_collection);
    assert_eq!(type_info.element_default_native_type_num, ODPINativeTypeNum::Invalid);
    assert_eq!(type_info.element_object_type, 0);
    assert_eq!(type_info.num_attributes, 7);

    let (obj, array) = first_row(&catalog, &object_type);
    let fetched = RowBatch {
        rows: vec![vec![ODPIData {
            is_null: false,
            value: ODPIDataValueUnion::Object(obj.inner()),
        }]],
        more_rows: true,
    };
    object_col.fetch(Ok(fetched)).expect("badness");

    // Create an object of this type.
    let _created: Object = object_type.create(Ok(0xB999)).expect("badness");

    // Get the object value out of the query.
    let (object_col_type, object_col_cell) = object_col.get_query_value(1).expect("badness");
    assert_eq!(object_col_type, ODPINativeTypeNum::Object);
    let data: Data = Data::from_cell(object_col_cell.clone());
    assert_eq!(data.as_object(), Ok(obj.inner()));

    let now = NaiveDate::from_ymd_opt(1970, 1, 1).and_then(|d| d.and_hms_opt(0, 0, 0)).expect("badness");
    for (idx, (obj_attr, attr_info)) in obj_attrs.iter().zip(attr_infos.iter()).enumerate() {
        let attr_data = obj.get_attribute_value(obj_attr, attr_info).expect("badness");
        match attr_info.default_native_type_num {
            ODPINativeTypeNum::Bytes => {
                let data_str = Data::from_cell(attr_data).as_string().expect("badness");
                if idx == 1 {
                    assert_eq!(data_str, "First row");
                } else if idx == 2 {
                    assert_eq!(data_str, "First     ");
                } else {
                    assert!(false);
                }
            }
            ODPINativeTypeNum::Double => {
                if idx == 0 {
                    let value = Data::from_cell(attr_data).as_double().expect("badness");
                    assert_eq!(f64::from_bits(value), 1.0);
                } else {
                    assert!(false);
                }
            }
            ODPINativeTypeNum::Timestamp => {
                let ts = Data::from_cell(attr_data).as_utc(now).expect("badness");
                if idx == 3 {
                    let expected = NaiveDate::from_ymd_opt(2007, 3, 6)
                        .and_then(|d| d.and_hms_nano_opt(0, 0, 0, 0))
                        .expect("badness");
                    assert_eq!(ts, expected);
                } else if idx == 4 {
                    let expected = NaiveDate::from_ymd_opt(2008, 9, 12)
                        .and_then(|d| d.and_hms_nano_opt(16, 40, 0, 0))
                        .expect("badness");
                    assert_eq!(ts, expected);
                } else {
                    assert!(false);
                }
            }
            ODPINativeTypeNum::Object => {
                if attr_info.object_type == 0 {
                    assert!(false);
                } else {
                    let nested_obj_type = catalog.nested_type(attr_info).expect("badness");
                    let type_info = nested_obj_type.get_info().expect("badness");
                    let odpi_obj_handle = Data::from_cell(attr_data).as_object().expect("badness");

                    assert_eq!(type_info.schema, "ODPIC");
                    if idx == 5 {
                        assert_eq!(type_info.name, "UDT_SUBOBJECT");
                        assert!(!type_info.is_collection);
                        assert_eq!(type_info.num_attributes, 2);
                    } else if idx == 6 {
                        assert_eq!(type_info.name, "UDT_OBJECTARRAY");
                        assert!(type_info.is_collection);
                        assert_eq!(type_info.element_oracle_type_num, ODPIOracleTypeNum::Object);
                        assert_eq!(
                            type_info.element_default_native_type_num,
                            ODPINativeTypeNum::Object
                        );
                        assert_ne!(type_info.element_object_type, 0);
                        let arr_obj_type = catalog.element_type(&type_info).expect("badness");
                        let type_info = arr_obj_type.get_info().expect("badness");

                        assert_eq!(type_info.schema, "ODPIC");
                        assert_eq!(type_info.name, "UDT_SUBOBJECT");
                        assert!(!type_info.is_collection);
                        assert_eq!(type_info.num_attributes, 2);

                        assert_eq!(odpi_obj_handle, array.inner());
                        let (first_index, _exists) = array.get_first_index().expect("badness");
                        assert_eq!(first_index, 0);
                    }
                }
            }
            _ => {
                assert!(false);
            }
        }
    }

    for mut obj_attr in obj_attrs {
        obj_attr.release(Ok(())).expect("badness");
    }

    object_col.close(None, Ok(())).expect("badness");
    conn.close(ODPIConnCloseMode::from_bits_truncate(DPI_MODE_CONN_CLOSE_DEFAULT), None, Ok(()))
        .expect("badness");
    object_col.release(Ok(())).expect("badness");
    conn.release(Ok(())).expect("badness");
}
