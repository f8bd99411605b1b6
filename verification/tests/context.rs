use mimir::enums::{ODPIPoolGetMode, ODPIPurity, ODPISubscrNamespace, ODPISubscrProtocol};
use mimir::error::{ErrorKind, Info, Operation, Reason};
use mimir::flags::{
    ODPIAuthMode, ODPICreateMode, ODPIOpCode, ODPISubscrQOS, DPI_MODE_AUTH_DEFAULT,
    DPI_MODE_AUTH_SYSDBA, DPI_MODE_CREATE_DEFAULT, DPI_MODE_CREATE_THREADED, DPI_OPCODE_ALL_OPS,
    DPI_OPCODE_ALTER, DPI_OPCODE_DROP, DPI_SUBSCR_QOS_BEST_EFFORT, DPI_SUBSCR_QOS_NONE,
    DPI_SUBSCR_QOS_ROWIDS,
};
use mimir::structs::ODPIVersionInfo;
use mimir::{AppContext, Context};

fn failure(code: i32, message: &str) -> Info {
    Info {
        code,
        offset: 0,
        message: message.to_string(),
        fn_name: "dpiContext_create".to_string(),
        action: "create".to_string(),
        sql_state: "HY000".to_string(),
        is_recoverable: false,
    }
}

#[test]
fn context() {
    let ctxt = Context::create(Ok(0x1000)).expect("context");
    assert!(ctxt.is_live());
    assert_eq!(ctxt.inner(), 0x1000);
}

#[test]
fn context_creation_failures() {
    let info = failure(1047, "client library too old");
    match Context::create(Err(info.clone())) {
        Err(ErrorKind::NativeCallFailed { operation, info: carried }) => {
            assert_eq!(operation, Operation::ContextCreate);
            assert_eq!(operation.name(), "dpiContext_create");
            assert_eq!(carried, info);
        }
        other => panic!("unexpected {:?}", other.map(|c| c.inner())),
    }
    assert_eq!(
        Context::create(Ok(0)).map(|c| c.inner()),
        Err(ErrorKind::InvalidArgument { reason: Reason::NullHandle })
    );
}

#[test]
fn destroyed_context_makes_nothing() {
    let mut ctxt = Context::create(Ok(7)).expect("context");
    assert_eq!(ctxt.destroy(Ok(())), Ok(()));
    assert!(!ctxt.is_live());
    assert_eq!(
        ctxt.destroy(Ok(())),
        Err(ErrorKind::InvalidArgument { reason: Reason::HandleNotLive })
    );
    assert!(ctxt.init_common_create_params().is_err());
    assert!(ctxt.init_conn_create_params().is_err());
    assert!(ctxt.init_pool_create_params().is_err());
    assert!(ctxt.init_subscr_create_params().is_err());
}

#[test]
fn client_version() {
    let ctxt = Context::create(Ok(7)).expect("context");
    let numbers = ODPIVersionInfo {
        version_num: 12,
        release_num: 2,
        update_num: 0,
        port_release_num: 1,
        port_update_num: 0,
        full_version_num: 1202000100,
    };
    let version = ctxt.get_client_version(Ok(numbers)).expect("version");
    assert_eq!(version.version(), "12.2.0.1.0");
    assert_eq!(version.version_num(), 1202000100);
    assert_eq!(version.release(), "");
    let failed = ctxt.get_client_version(Err(failure(1, "no")));
    assert!(matches!(
        failed,
        Err(ErrorKind::NativeCallFailed { operation: Operation::ContextGetClientVersion, .. })
    ));
}

#[test]
fn common_create_params() {
    let ctxt = Context::create(Ok(0x1000)).expect("context");
    let mut ccp = ctxt.init_common_create_params().expect("params");
    let default_flags = ccp.get_create_mode();
    let new_flags =
        default_flags.union(ODPICreateMode::from_bits_truncate(DPI_MODE_CREATE_THREADED));

    ccp.set_create_mode(new_flags);
    ccp.set_edition("1.0");
    ccp.set_encoding("UTF-8");
    ccp.set_nchar_encoding("UTF-8");

    assert_eq!(
        ccp.get_create_mode(),
        ODPICreateMode::from_bits_truncate(DPI_MODE_CREATE_THREADED | DPI_MODE_CREATE_DEFAULT)
    );
    assert_eq!(ccp.get_encoding(), "UTF-8");
    assert_eq!(ccp.get_nchar_encoding(), "UTF-8");
    assert_eq!(ccp.get_edition(), "1.0");
    assert_eq!(ccp.get_driver_name(), "Rust Oracle: 0.1.0");
}

#[test]
fn connection_create_params() {
    let ctxt = Context::create(Ok(0x1000)).expect("context");
    let mut conn = ctxt.init_conn_create_params().expect("params");
    let auth_default_flags = conn.get_auth_mode();
    let auth_new_flags =
        auth_default_flags.union(ODPIAuthMode::from_bits_truncate(DPI_MODE_AUTH_SYSDBA));
    let purity_default_flags = conn.get_purity();
    let app_ctxt = AppContext::new("ns", "name", "value");
    let app_ctxt_1 = AppContext::new("ns", "name1", "value1");
    let mut app_ctxt_vec = Vec::new();
    app_ctxt_vec.push(app_ctxt);
    app_ctxt_vec.push(app_ctxt_1);

    assert_eq!(purity_default_flags, ODPIPurity::DefaultPurity);

    conn.set_auth_mode(auth_new_flags);
    conn.set_connection_class("conn_class");
    conn.set_purity(ODPIPurity::New);
    conn.set_new_password("password");
    conn.set_app_context(app_ctxt_vec);
    conn.set_external_auth(1);
    conn.set_tag("you're it");
    conn.set_match_any_tag(true);

    let new_app_ctxt_vec = conn.get_app_context();

    assert_eq!(
        conn.get_auth_mode(),
        ODPIAuthMode::from_bits_truncate(DPI_MODE_AUTH_SYSDBA | DPI_MODE_AUTH_DEFAULT)
    );
    assert_eq!(conn.get_connection_class(), "conn_class");
    assert_eq!(conn.get_purity(), ODPIPurity::New);
    assert_eq!(conn.get_new_password(), "password");
    assert_eq!(conn.get_num_app_context(), 2);
    assert_eq!(new_app_ctxt_vec.len(), 2);

    for (idx, ac) in new_app_ctxt_vec.iter().enumerate() {
        assert_eq!(ac.get_namespace_name(), "ns");
        match idx {
            0 => {
                assert_eq!(ac.get_name(), "name");
                assert_eq!(ac.get_value(), "value");
            }
            1 => {
                assert_eq!(ac.get_name(), "name1");
                assert_eq!(ac.get_value(), "value1");
            }
            _ => assert!(false),
        }
    }

    assert_eq!(conn.get_external_auth(), 1);
    assert_eq!(conn.get_tag(), "you're it");
    assert!(conn.get_match_any_tag());
    assert_eq!(conn.get_out_tag(), "");
    assert!(!conn.get_out_tag_found());
}

#[test]
fn pool_create_params() {
    let ctxt = Context::create(Ok(0x1000)).expect("context");
    let mut pcp = ctxt.init_pool_create_params().expect("params");
    assert_eq!(pcp.get_min_sessions(), 1);
    assert_eq!(pcp.get_max_sessions(), 1);
    assert_eq!(pcp.get_session_increment(), 0);
    assert_eq!(pcp.get_ping_interval(), 60);
    assert_eq!(pcp.get_ping_timeout(), 5000);
    assert!(pcp.get_homogeneous());
    assert!(!pcp.get_external_auth());
    assert_eq!(pcp.get_get_mode(), ODPIPoolGetMode::NoWait);
    assert_eq!(pcp.get_out_pool_name(), "");

    pcp.set_min_sessions(10);
    pcp.set_max_sessions(100);
    pcp.set_session_increment(5);
    pcp.set_ping_interval(-1);
    pcp.set_ping_timeout(1000);
    pcp.set_homogeneous(false);
    pcp.set_external_auth(true);
    pcp.set_get_mode(ODPIPoolGetMode::ForceGet);

    assert_eq!(pcp.get_min_sessions(), 10);
    assert_eq!(pcp.get_max_sessions(), 100);
    assert_eq!(pcp.get_session_increment(), 5);
    assert_eq!(pcp.get_ping_interval(), -1);
    assert_eq!(pcp.get_ping_timeout(), 1000);
    assert!(!pcp.get_homogeneous());
    assert!(pcp.get_external_auth());
    assert_eq!(pcp.get_get_mode(), ODPIPoolGetMode::ForceGet);
}

#[test]
fn subscription_create_params() {
    let ctxt = Context::create(Ok(0x1000)).expect("context");
    let mut scp = ctxt.init_subscr_create_params().expect("params");
    assert_eq!(scp.get_subscr_namespace(), ODPISubscrNamespace::DbChange);
    assert_eq!(scp.get_protocol(), ODPISubscrProtocol::Callback);
    assert_eq!(scp.get_qos(), ODPISubscrQOS::from_bits_truncate(DPI_SUBSCR_QOS_NONE));
    assert_eq!(scp.get_operations(), ODPIOpCode::from_bits_truncate(DPI_OPCODE_ALL_OPS));
    assert_eq!(scp.get_port_number(), 0);
    assert_eq!(scp.get_timeout(), 0);
    assert_eq!(scp.get_name(), "");
    assert_eq!(scp.get_callback(), None);
    assert_eq!(scp.get_recipient_name(), "");

    let subscr_callback: u64 = 0xCA11;
    scp.set_protocol(ODPISubscrProtocol::HTTP);
    scp.set_qos(ODPISubscrQOS::from_bits_truncate(
        DPI_SUBSCR_QOS_BEST_EFFORT | DPI_SUBSCR_QOS_ROWIDS,
    ));
    scp.set_operations(ODPIOpCode::from_bits_truncate(DPI_OPCODE_ALTER | DPI_OPCODE_DROP));
    scp.set_port_number(32276);
    scp.set_timeout(10000);
    scp.set_name("subscription");
    scp.set_callback(Some(subscr_callback));
    scp.set_recipient_name("yoda");

    assert_eq!(scp.get_protocol(), ODPISubscrProtocol::HTTP);
    assert_eq!(
        scp.get_qos(),
        ODPISubscrQOS::from_bits_truncate(DPI_SUBSCR_QOS_BEST_EFFORT | DPI_SUBSCR_QOS_ROWIDS)
    );
    assert_eq!(
        scp.get_operations(),
        ODPIOpCode::from_bits_truncate(DPI_OPCODE_ALTER | DPI_OPCODE_DROP)
    );
    assert_eq!(scp.get_port_number(), 32276);
    assert_eq!(scp.get_timeout(), 10000);
    assert_eq!(scp.get_name(), "subscription");
    assert_eq!(scp.get_recipient_name(), "yoda");
    assert!(scp.get_callback() == Some(subscr_callback));
}
