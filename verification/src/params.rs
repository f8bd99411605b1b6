//! The parameters with which connections, pools and subscriptions are created.
use crate::enums::{ODPIPoolGetMode, ODPIPurity, ODPISubscrNamespace, ODPISubscrProtocol};
use crate::flags::{ODPIAuthMode, ODPICreateMode, ODPIOpCode, ODPISubscrQOS};
use vstd::prelude::*;
use vstd::string::*;

verus! {

/// The name under which the library makes itself known to the database.
pub open spec fn driver_name() -> Seq<char> {
    "Rust Oracle: 0.1.0"@
}

/// One entry of the application context of a connection.
#[derive(Debug)]
pub struct AppContext {
    namespace_name: String,
    name: String,
    value: String,
}

/// One entry of the application context as a mathematical value.
pub struct AppContextView {
    /// The namespace of the entry.
    pub namespace_name: Seq<char>,
    /// The name of the entry.
    pub name: Seq<char>,
    /// The value of the entry.
    pub value: Seq<char>,
}

impl View for AppContext {
    type V = AppContextView;

    closed spec fn view(&self) -> AppContextView {
        AppContextView {
            namespace_name: self.namespace_name@,
            name: self.name@,
            value: self.value@,
        }
    }
}

/// The entries of `entries` as mathematical values.
pub open spec fn entries_view(entries: Seq<AppContext>) -> Seq<AppContextView> {
    Seq::new(entries.len(), |i: int| entries[i]@)
}

impl AppContext {
    /// The entry `name` with the value `value` in the namespace `namespace_name`.
    pub fn new(namespace_name: &str, name: &str, value: &str) -> (a: AppContext)
        ensures
            a@ == (AppContextView { namespace_name: namespace_name@, name: name@, value: value@ }),
    {
        AppContext {
            namespace_name: namespace_name.to_owned(),
            name: name.to_owned(),
            value: value.to_owned(),
        }
    }

    /// The namespace of the entry.
    pub fn get_namespace_name(&self) -> (r: String)
        ensures
            r@ == self@.namespace_name,
    {
        self.namespace_name.clone()
    }

    /// The name of the entry.
    pub fn get_name(&self) -> (r: String)
        ensures
            r@ == self@.name,
    {
        self.name.clone()
    }

    /// The value of the entry.
    pub fn get_value(&self) -> (r: String)
        ensures
            r@ == self@.value,
    {
        self.value.clone()
    }

    /// A copy of the entry.
    pub fn duplicate(&self) -> (r: AppContext)
        ensures
            r@ == self@,
    {
        AppContext {
            namespace_name: self.namespace_name.clone(),
            name: self.name.clone(),
            value: self.value.clone(),
        }
    }
}

/// The parameters that connections and pools have in common, as a mathematical value.
pub struct CommonCreateView {
    /// The mode in which the native library is set up.
    pub create_mode: ODPICreateMode,
    /// The name of the encoding of character data.
    pub encoding: Seq<char>,
    /// The name of the encoding of national character data.
    pub nchar_encoding: Seq<char>,
    /// The edition of the database objects that are used.
    pub edition: Seq<char>,
    /// The name under which the driver makes itself known to the database.
    pub driver_name: Seq<char>,
}

/// The parameters that connections and pools have in common.
#[derive(Debug)]
pub struct CommonCreate {
    create_mode: ODPICreateMode,
    encoding: String,
    nchar_encoding: String,
    edition: String,
    driver_name: String,
}

impl View for CommonCreate {
    type V = CommonCreateView;

    closed spec fn view(&self) -> CommonCreateView {
        CommonCreateView {
            create_mode: self.create_mode,
            encoding: self.encoding@,
            nchar_encoding: self.nchar_encoding@,
            edition: self.edition@,
            driver_name: self.driver_name@,
        }
    }
}

impl CommonCreateView {
    /// The parameters as they are before any of them is set.
    pub open spec fn initial() -> CommonCreateView {
        CommonCreateView {
            create_mode: ODPICreateMode::of(0),
            encoding: Seq::<char>::empty(),
            nchar_encoding: Seq::<char>::empty(),
            edition: Seq::<char>::empty(),
            driver_name: driver_name(),
        }
    }
}

impl CommonCreate {
    /// The parameters as they are before any of them is set.
    pub fn new() -> (p: CommonCreate)
        ensures
            p@ == CommonCreateView::initial(),
    {
        let p = CommonCreate {
            create_mode: ODPICreateMode::empty(),
            encoding: String::new(),
            nchar_encoding: String::new(),
            edition: String::new(),
            driver_name: "Rust Oracle: 0.1.0".to_owned(),
        };
        p
    }

    /// The mode in which the native library is set up.
    pub fn get_create_mode(&self) -> (r: ODPICreateMode)
        ensures
            r == self@.create_mode,
    {
        self.create_mode
    }

    /// Sets the mode in which the native library is set up.
    pub fn set_create_mode(&mut self, value: ODPICreateMode)
        ensures
            final(self)@ == (CommonCreateView { create_mode: value, ..old(self)@ }),
    {
        self.create_mode = value;
    }

    /// The name of the encoding of character data.
    pub fn get_encoding(&self) -> (r: String)
        ensures
            r@ == self@.encoding,
    {
        self.encoding.clone()
    }

    /// Sets the name of the encoding of character data.
    pub fn set_encoding(&mut self, value: &str)
        ensures
            final(self)@ == (CommonCreateView { encoding: value@, ..old(self)@ }),
    {
        self.encoding = value.to_owned();
    }

    /// The name of the encoding of national character data.
    pub fn get_nchar_encoding(&self) -> (r: String)
        ensures
            r@ == self@.nchar_encoding,
    {
        self.nchar_encoding.clone()
    }

    /// Sets the name of the encoding of national character data.
    pub fn set_nchar_encoding(&mut self, value: &str)
        ensures
            final(self)@ == (CommonCreateView { nchar_encoding: value@, ..old(self)@ }),
    {
        self.nchar_encoding = value.to_owned();
    }

    /// The edition of the database objects that are used.
    pub fn get_edition(&self) -> (r: String)
        ensures
            r@ == self@.edition,
    {
        self.edition.clone()
    }

    /// Sets the edition of the database objects that are used.
    pub fn set_edition(&mut self, value: &str)
        ensures
            final(self)@ == (CommonCreateView { edition: value@, ..old(self)@ }),
    {
        self.edition = value.to_owned();
    }

    /// The name under which the driver makes itself known to the database.
    pub fn get_driver_name(&self) -> (r: String)
        ensures
            r@ == self@.driver_name,
    {
        self.driver_name.clone()
    }

    /// Sets the name under which the driver makes itself known to the database.
    pub fn set_driver_name(&mut self, value: &str)
        ensures
            final(self)@ == (CommonCreateView { driver_name: value@, ..old(self)@ }),
    {
        self.driver_name = value.to_owned();
    }

}

/// The parameters of a connection, as a mathematical value.
pub struct ConnCreateView {
    /// The way in which the connection authenticates.
    pub auth_mode: ODPIAuthMode,
    /// The class of the connection, for pooling in the database.
    pub connection_class: Seq<char>,
    /// The purity of the session that is asked for.
    pub purity: ODPIPurity,
    /// The password that replaces the one that has expired.
    pub new_password: Seq<char>,
    /// Whether the connection authenticates by means outside the database; zero for no.
    pub external_auth: i32,
    /// The tag of the session that is asked of a pool.
    pub tag: Seq<char>,
    /// Whether a session with another tag will do.
    pub match_any_tag: bool,
    /// The tag of the session that the pool handed out.
    pub out_tag: Seq<char>,
    /// Whether the pool handed out a session with the tag that was asked for.
    pub out_tag_found: bool,
    /// The entries of the application context.
    pub app_context: Seq<AppContextView>,
}

/// The parameters of a connection.
#[derive(Debug)]
pub struct ConnCreate {
    auth_mode: ODPIAuthMode,
    connection_class: String,
    purity: ODPIPurity,
    new_password: String,
    external_auth: i32,
    tag: String,
    match_any_tag: bool,
    out_tag: String,
    out_tag_found: bool,
    app_context: Vec<AppContext>,
}

impl View for ConnCreate {
    type V = ConnCreateView;

    closed spec fn view(&self) -> ConnCreateView {
        ConnCreateView {
            auth_mode: self.auth_mode,
            connection_class: self.connection_class@,
            purity: self.purity,
            new_password: self.new_password@,
            external_auth: self.external_auth,
            tag: self.tag@,
            match_any_tag: self.match_any_tag,
            out_tag: self.out_tag@,
            out_tag_found: self.out_tag_found,
            app_context: entries_view(self.app_context@),
        }
    }
}

impl ConnCreateView {
    /// The parameters as they are before any of them is set.
    pub open spec fn initial() -> ConnCreateView {
        ConnCreateView {
            auth_mode: ODPIAuthMode::of(0),
            connection_class: Seq::<char>::empty(),
            purity: ODPIPurity::DefaultPurity,
            new_password: Seq::<char>::empty(),
            external_auth: 0i32,
            tag: Seq::<char>::empty(),
            match_any_tag: false,
            out_tag: Seq::<char>::empty(),
            out_tag_found: false,
            app_context: Seq::empty(),
        }
    }
}

impl ConnCreate {
    /// The parameters as they are before any of them is set.
    pub fn new() -> (p: ConnCreate)
        ensures
            p@ == ConnCreateView::initial(),
    {
        let p = ConnCreate {
            auth_mode: ODPIAuthMode::empty(),
            connection_class: String::new(),
            purity: ODPIPurity::DefaultPurity,
            new_password: String::new(),
            external_auth: 0,
            tag: String::new(),
            match_any_tag: false,
            out_tag: String::new(),
            out_tag_found: false,
            app_context: Vec::new(),
        };
        assert(p@.app_context =~= Seq::empty());
        p
    }

    /// The way in which the connection authenticates.
    pub fn get_auth_mode(&self) -> (r: ODPIAuthMode)
        ensures
            r == self@.auth_mode,
    {
        self.auth_mode
    }

    /// Sets the way in which the connection authenticates.
    pub fn set_auth_mode(&mut self, value: ODPIAuthMode)
        ensures
            final(self)@ == (ConnCreateView { auth_mode: value, ..old(self)@ }),
    {
        self.auth_mode = value;
    }

    /// The class of the connection, for pooling in the database.
    pub fn get_connection_class(&self) -> (r: String)
        ensures
            r@ == self@.connection_class,
    {
        self.connection_class.clone()
    }

    /// Sets the class of the connection, for pooling in the database.
    pub fn set_connection_class(&mut self, value: &str)
        ensures
            final(self)@ == (ConnCreateView { connection_class: value@, ..old(self)@ }),
    {
        self.connection_class = value.to_owned();
    }

    /// The purity of the session that is asked for.
    pub fn get_purity(&self) -> (r: ODPIPurity)
        ensures
            r == self@.purity,
    {
        self.purity
    }

    /// Sets the purity of the session that is asked for.
    pub fn set_purity(&mut self, value: ODPIPurity)
        ensures
            final(self)@ == (ConnCreateView { purity: value, ..old(self)@ }),
    {
        self.purity = value;
    }

    /// The password that replaces the one that has expired.
    pub fn get_new_password(&self) -> (r: String)
        ensures
            r@ == self@.new_password,
    {
        self.new_password.clone()
    }

    /// Sets the password that replaces the one that has expired.
    pub fn set_new_password(&mut self, value: &str)
        ensures
            final(self)@ == (ConnCreateView { new_password: value@, ..old(self)@ }),
    {
        self.new_password = value.to_owned();
    }

    /// Whether the connection authenticates by means outside the database; zero for no.
    pub fn get_external_auth(&self) -> (r: i32)
        ensures
            r == self@.external_auth,
    {
        self.external_auth
    }

    /// Sets whether the connection authenticates by means outside the database; zero
    /// for no.
    pub fn set_external_auth(&mut self, value: i32)
        ensures
            final(self)@ == (ConnCreateView { external_auth: value, ..old(self)@ }),
    {
        self.external_auth = value;
    }

    /// The tag of the session that is asked of a pool.
    pub fn get_tag(&self) -> (r: String)
        ensures
            r@ == self@.tag,
    {
        self.tag.clone()
    }

    /// Sets the tag of the session that is asked of a pool.
    pub fn set_tag(&mut self, value: &str)
        ensures
            final(self)@ == (ConnCreateView { tag: value@, ..old(self)@ }),
    {
        self.tag = value.to_owned();
    }

    /// Whether a session with another tag will do.
    pub fn get_match_any_tag(&self) -> (r: bool)
        ensures
            r == self@.match_any_tag,
    {
        self.match_any_tag
    }

    /// Sets whether a session with another tag will do.
    pub fn set_match_any_tag(&mut self, value: bool)
        ensures
            final(self)@ == (ConnCreateView { match_any_tag: value, ..old(self)@ }),
    {
        self.match_any_tag = value;
    }

    /// The tag of the session that the pool handed out.
    pub fn get_out_tag(&self) -> (r: String)
        ensures
            r@ == self@.out_tag,
    {
        self.out_tag.clone()
    }

    /// Whether the pool handed out a session with the tag that was asked for.
    pub fn get_out_tag_found(&self) -> (r: bool)
        ensures
            r == self@.out_tag_found,
    {
        self.out_tag_found
    }

    /// The entries of the application context.
    pub fn get_app_context(&self) -> (r: Vec<AppContext>)
        ensures
            entries_view(r@) == self@.app_context,
    {
        let mut out: Vec<AppContext> = Vec::new();
        let mut i: usize = 0;
        while i < self.app_context.len()
            invariant
                i <= self.app_context.len(),
                out@.len() == i,
                forall|k: int| 0 <= k < i ==> (#[trigger] out@[k])@ == self.app_context@[k]@,
            decreases self.app_context.len() - i,
        {
            out.push(self.app_context[i].duplicate());
            i = i + 1;
        }
        assert(entries_view(out@) =~= self@.app_context);
        out
    }

    /// Sets the entries of the application context.
    pub fn set_app_context(&mut self, value: Vec<AppContext>)
        ensures
            final(self)@ == (ConnCreateView { app_context: entries_view(value@), ..old(self)@ }),
    {
        self.app_context = value;
    }

    /// The number of entries of the application context, as the native library counts
    /// it in 32 bits.
    pub fn get_num_app_context(&self) -> (r: u32)
        ensures
            self@.app_context.len() <= u32::MAX ==> r == self@.app_context.len(),
            self@.app_context.len() > u32::MAX ==> r == u32::MAX,
    {
        if self.app_context.len() <= u32::MAX as usize {
            self.app_context.len() as u32
        } else {
            u32::MAX
        }
    }
}

/// The parameters of a pool of sessions, as a mathematical value.
pub struct PoolCreateView {
    /// The least number of sessions that the pool keeps.
    pub min_sessions: u32,
    /// The greatest number of sessions that the pool opens.
    pub max_sessions: u32,
    /// The number of sessions that the pool opens at once when it needs more.
    pub session_increment: u32,
    /// The number of seconds after which an idle session is pinged before it is handed
    /// out; negative for never.
    pub ping_interval: i32,
    /// The number of milliseconds that the ping of a session may take.
    pub ping_timeout: i32,
    /// Whether all sessions of the pool belong to one user.
    pub homogeneous: bool,
    /// Whether the sessions authenticate by means outside the database.
    pub external_auth: bool,
    /// What acquiring a connection does when none is free.
    pub get_mode: ODPIPoolGetMode,
    /// The name that the database gave the pool.
    pub out_pool_name: Seq<char>,
}

/// The parameters of a pool of sessions.
#[derive(Debug)]
pub struct PoolCreate {
    min_sessions: u32,
    max_sessions: u32,
    session_increment: u32,
    ping_interval: i32,
    ping_timeout: i32,
    homogeneous: bool,
    external_auth: bool,
    get_mode: ODPIPoolGetMode,
    out_pool_name: String,
}

impl View for PoolCreate {
    type V = PoolCreateView;

    closed spec fn view(&self) -> PoolCreateView {
        PoolCreateView {
            min_sessions: self.min_sessions,
            max_sessions: self.max_sessions,
            session_increment: self.session_increment,
            ping_interval: self.ping_interval,
            ping_timeout: self.ping_timeout,
            homogeneous: self.homogeneous,
            external_auth: self.external_auth,
            get_mode: self.get_mode,
            out_pool_name: self.out_pool_name@,
        }
    }
}

impl PoolCreateView {
    /// The parameters as they are before any of them is set.
    pub open spec fn initial() -> PoolCreateView {
        PoolCreateView {
            min_sessions: 1u32,
            max_sessions: 1u32,
            session_increment: 0u32,
            ping_interval: 60i32,
            ping_timeout: 5000i32,
            homogeneous: true,
            external_auth: false,
            get_mode: ODPIPoolGetMode::NoWait,
            out_pool_name: Seq::<char>::empty(),
        }
    }
}

impl PoolCreate {
    /// The parameters as they are before any of them is set.
    pub fn new() -> (p: PoolCreate)
        ensures
            p@ == PoolCreateView::initial(),
    {
        let p = PoolCreate {
            min_sessions: 1,
            max_sessions: 1,
            session_increment: 0,
            ping_interval: 60,
            ping_timeout: 5000,
            homogeneous: true,
            external_auth: false,
            get_mode: ODPIPoolGetMode::NoWait,
            out_pool_name: String::new(),
        };
        p
    }

    /// The least number of sessions that the pool keeps.
    pub fn get_min_sessions(&self) -> (r: u32)
        ensures
            r == self@.min_sessions,
    {
        self.min_sessions
    }

    /// Sets the least number of sessions that the pool keeps.
    pub fn set_min_sessions(&mut self, value: u32)
        ensures
            final(self)@ == (PoolCreateView { min_sessions: value, ..old(self)@ }),
    {
        self.min_sessions = value;
    }

    /// The greatest number of sessions that the pool opens.
    pub fn get_max_sessions(&self) -> (r: u32)
        ensures
            r == self@.max_sessions,
    {
        self.max_sessions
    }

    /// Sets the greatest number of sessions that the pool opens.
    pub fn set_max_sessions(&mut self, value: u32)
        ensures
            final(self)@ == (PoolCreateView { max_sessions: value, ..old(self)@ }),
    {
        self.max_sessions = value;
    }

    /// The number of sessions that the pool opens at once when it needs more.
    pub fn get_session_increment(&self) -> (r: u32)
        ensures
            r == self@.session_increment,
    {
        self.session_increment
    }

    /// Sets the number of sessions that the pool opens at once when it needs more.
    pub fn set_session_increment(&mut self, value: u32)
        ensures
            final(self)@ == (PoolCreateView { session_increment: value, ..old(self)@ }),
    {
        self.session_increment = value;
    }

    /// The number of seconds after which an idle session is pinged before it is handed
    /// out; negative for never.
    pub fn get_ping_interval(&self) -> (r: i32)
        ensures
            r == self@.ping_interval,
    {
        self.ping_interval
    }

    /// Sets the number of seconds after which an idle session is pinged before it is
    /// handed out; negative for never.
    pub fn set_ping_interval(&mut self, value: i32)
        ensures
            final(self)@ == (PoolCreateView { ping_interval: value, ..old(self)@ }),
    {
        self.ping_interval = value;
    }

    /// The number of milliseconds that the ping of a session may take.
    pub fn get_ping_timeout(&self) -> (r: i32)
        ensures
            r == self@.ping_timeout,
    {
        self.ping_timeout
    }

    /// Sets the number of milliseconds that the ping of a session may take.
    pub fn set_ping_timeout(&mut self, value: i32)
        ensures
            final(self)@ == (PoolCreateView { ping_timeout: value, ..old(self)@ }),
    {
        self.ping_timeout = value;
    }

    /// Whether all sessions of the pool belong to one user.
    pub fn get_homogeneous(&self) -> (r: bool)
        ensures
            r == self@.homogeneous,
    {
        self.homogeneous
    }

    /// Sets whether all sessions of the pool belong to one user.
    pub fn set_homogeneous(&mut self, value: bool)
        ensures
            final(self)@ == (PoolCreateView { homogeneous: value, ..old(self)@ }),
    {
        self.homogeneous = value;
    }

    /// Whether the sessions authenticate by means outside the database.
    pub fn get_external_auth(&self) -> (r: bool)
        ensures
            r == self@.external_auth,
    {
        self.external_auth
    }

    /// Sets whether the sessions authenticate by means outside the database.
    pub fn set_external_auth(&mut self, value: bool)
        ensures
            final(self)@ == (PoolCreateView { external_auth: value, ..old(self)@ }),
    {
        self.external_auth = value;
    }

    /// What acquiring a connection does when none is free.
    pub fn get_get_mode(&self) -> (r: ODPIPoolGetMode)
        ensures
            r == self@.get_mode,
    {
        self.get_mode
    }

    /// Sets what acquiring a connection does when none is free.
    pub fn set_get_mode(&mut self, value: ODPIPoolGetMode)
        ensures
            final(self)@ == (PoolCreateView { get_mode: value, ..old(self)@ }),
    {
        self.get_mode = value;
    }

    /// The name that the database gave the pool.
    pub fn get_out_pool_name(&self) -> (r: String)
        ensures
            r@ == self@.out_pool_name,
    {
        self.out_pool_name.clone()
    }

}

/// The parameters of a subscription, as a mathematical value.
pub struct SubscrCreateView {
    /// The namespace in which the subscription is registered.
    pub subscr_namespace: ODPISubscrNamespace,
    /// The way in which notifications are delivered.
    pub protocol: ODPISubscrProtocol,
    /// The quality of service.
    pub qos: ODPISubscrQOS,
    /// The operations that the subscription is told of.
    pub operations: ODPIOpCode,
    /// The port on which notifications are received; zero lets the database choose.
    pub port_number: u32,
    /// The number of seconds after which the subscription ends; zero for never.
    pub timeout: u32,
    /// The name of the subscription.
    pub name: Seq<char>,
    /// The channel to which notifications are posted; `None` for none.
    pub callback: Option<u64>,
    /// The recipient of notifications that are not delivered to a callback.
    pub recipient_name: Seq<char>,
}

/// The parameters of a subscription.
#[derive(Debug)]
pub struct SubscrCreate {
    subscr_namespace: ODPISubscrNamespace,
    protocol: ODPISubscrProtocol,
    qos: ODPISubscrQOS,
    operations: ODPIOpCode,
    port_number: u32,
    timeout: u32,
    name: String,
    callback: Option<u64>,
    recipient_name: String,
}

impl View for SubscrCreate {
    type V = SubscrCreateView;

    closed spec fn view(&self) -> SubscrCreateView {
        SubscrCreateView {
            subscr_namespace: self.subscr_namespace,
            protocol: self.protocol,
            qos: self.qos,
            operations: self.operations,
            port_number: self.port_number,
            timeout: self.timeout,
            name: self.name@,
            callback: self.callback,
            recipient_name: self.recipient_name@,
        }
    }
}

impl SubscrCreateView {
    /// The parameters as they are before any of them is set.
    pub open spec fn initial() -> SubscrCreateView {
        SubscrCreateView {
            subscr_namespace: ODPISubscrNamespace::DbChange,
            protocol: ODPISubscrProtocol::Callback,
            qos: ODPISubscrQOS::of(0),
            operations: ODPIOpCode::of(0),
            port_number: 0u32,
            timeout: 0u32,
            name: Seq::<char>::empty(),
            callback: None,
            recipient_name: Seq::<char>::empty(),
        }
    }
}

impl SubscrCreate {
    /// The parameters as they are before any of them is set.
    pub fn new() -> (p: SubscrCreate)
        ensures
            p@ == SubscrCreateView::initial(),
    {
        let p = SubscrCreate {
            subscr_namespace: ODPISubscrNamespace::DbChange,
            protocol: ODPISubscrProtocol::Callback,
            qos: ODPISubscrQOS::empty(),
            operations: ODPIOpCode::empty(),
            port_number: 0,
            timeout: 0,
            name: String::new(),
            callback: None,
            recipient_name: String::new(),
        };
        p
    }

    /// The namespace in which the subscription is registered.
    pub fn get_subscr_namespace(&self) -> (r: ODPISubscrNamespace)
        ensures
            r == self@.subscr_namespace,
    {
        self.subscr_namespace
    }

    /// Sets the namespace in which the subscription is registered.
    pub fn set_subscr_namespace(&mut self, value: ODPISubscrNamespace)
        ensures
            final(self)@ == (SubscrCreateView { subscr_namespace: value, ..old(self)@ }),
    {
        self.subscr_namespace = value;
    }

    /// The way in which notifications are delivered.
    pub fn get_protocol(&self) -> (r: ODPISubscrProtocol)
        ensures
            r == self@.protocol,
    {
        self.protocol
    }

    /// Sets the way in which notifications are delivered.
    pub fn set_protocol(&mut self, value: ODPISubscrProtocol)
        ensures
            final(self)@ == (SubscrCreateView { protocol: value, ..old(self)@ }),
    {
        self.protocol = value;
    }

    /// The quality of service.
    pub fn get_qos(&self) -> (r: ODPISubscrQOS)
        ensures
            r == self@.qos,
    {
        self.qos
    }

    /// Sets the quality of service.
    pub fn set_qos(&mut self, value: ODPISubscrQOS)
        ensures
            final(self)@ == (SubscrCreateView { qos: value, ..old(self)@ }),
    {
        self.qos = value;
    }

    /// The operations that the subscription is told of.
    pub fn get_operations(&self) -> (r: ODPIOpCode)
        ensures
            r == self@.operations,
    {
        self.operations
    }

    /// Sets the operations that the subscription is told of.
    pub fn set_operations(&mut self, value: ODPIOpCode)
        ensures
            final(self)@ == (SubscrCreateView { operations: value, ..old(self)@ }),
    {
        self.operations = value;
    }

    /// The port on which notifications are received; zero lets the database choose.
    pub fn get_port_number(&self) -> (r: u32)
        ensures
            r == self@.port_number,
    {
        self.port_number
    }

    /// Sets the port on which notifications are received; zero lets the database choose.
    pub fn set_port_number(&mut self, value: u32)
        ensures
            final(self)@ == (SubscrCreateView { port_number: value, ..old(self)@ }),
    {
        self.port_number = value;
    }

    /// The number of seconds after which the subscription ends; zero for never.
    pub fn get_timeout(&self) -> (r: u32)
        ensures
            r == self@.timeout,
    {
        self.timeout
    }

    /// Sets the number of seconds after which the subscription ends; zero for never.
    pub fn set_timeout(&mut self, value: u32)
        ensures
            final(self)@ == (SubscrCreateView { timeout: value, ..old(self)@ }),
    {
        self.timeout = value;
    }

    /// The name of the subscription.
    pub fn get_name(&self) -> (r: String)
        ensures
            r@ == self@.name,
    {
        self.name.clone()
    }

    /// Sets the name of the subscription.
    pub fn set_name(&mut self, value: &str)
        ensures
            final(self)@ == (SubscrCreateView { name: value@, ..old(self)@ }),
    {
        self.name = value.to_owned();
    }

    /// The channel to which notifications are posted; `None` for none.
    pub fn get_callback(&self) -> (r: Option<u64>)
        ensures
            r == self@.callback,
    {
        self.callback
    }

    /// Sets the channel to which notifications are posted; `None` for none.
    pub fn set_callback(&mut self, value: Option<u64>)
        ensures
            final(self)@ == (SubscrCreateView { callback: value, ..old(self)@ }),
    {
        self.callback = value;
    }

    /// The recipient of notifications that are not delivered to a callback.
    pub fn get_recipient_name(&self) -> (r: String)
        ensures
            r@ == self@.recipient_name,
    {
        self.recipient_name.clone()
    }

    /// Sets the recipient of notifications that are not delivered to a callback.
    pub fn set_recipient_name(&mut self, value: &str)
        ensures
            final(self)@ == (SubscrCreateView { recipient_name: value@, ..old(self)@ }),
    {
        self.recipient_name = value.to_owned();
    }

}

} // verus!
