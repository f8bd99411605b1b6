//! The enumerations of the native interface. Their numbers are fixed by the native
//! library's binary interface and are stated here as `spec_number`.
use vstd::prelude::*;

verus! {

/// Modes that are possible when dequeuing messages from a queue.
#[derive(Clone, Copy, Debug, PartialEq, Eq, Hash, Structural)]
pub enum ODPIDeqMode {
    /// Read the message without acquiring a lock on it.
    Browse,
    /// Read the message and obtain a write lock on it.
    Locked,
    /// Read the message and update or delete it; the default.
    Remove,
    /// Confirm receipt of the message without delivering its content.
    RemoveNoData,
}

impl ODPIDeqMode {
    /// The number by which the native library knows this value.
    pub open spec fn spec_number(self) -> u32 {
        match self {
            ODPIDeqMode::Browse => 1u32,
            ODPIDeqMode::Locked => 2u32,
            ODPIDeqMode::Remove => 3u32,
            ODPIDeqMode::RemoveNoData => 4u32,
        }
    }

    /// The number by which the native library knows this value.
    #[verifier::when_used_as_spec(spec_number)]
    pub fn number(self) -> (n: u32)
        ensures
            n == self.spec_number(),
    {
        match self {
            ODPIDeqMode::Browse => 1u32,
            ODPIDeqMode::Locked => 2u32,
            ODPIDeqMode::Remove => 3u32,
            ODPIDeqMode::RemoveNoData => 4u32,
        }
    }

    /// Reads a number that the native library handed out: the value with that number,
    /// or `None` where no value has it.
    pub fn from_number(n: u32) -> (r: Option<Self>)
        ensures
            r matches Some(v) ==> v.spec_number() == n,
            r is None ==> forall|v: Self| v.spec_number() != n,
    {
        match n {
            1u32 => Some(ODPIDeqMode::Browse),
            2u32 => Some(ODPIDeqMode::Locked),
            3u32 => Some(ODPIDeqMode::Remove),
            4u32 => Some(ODPIDeqMode::RemoveNoData),
            _ => None,
        }
    }
}

/// Position of the message that a dequeue retrieves.
#[derive(Clone, Copy, Debug, PartialEq, Eq, Hash, Structural)]
pub enum ODPIDeqNavigation {
    /// The first available message that matches the search criteria.
    FirstMsg,
    /// Skip the rest of the current transaction group.
    NextTransaction,
    /// The next available message that matches; the default.
    NextMsg,
}

impl ODPIDeqNavigation {
    /// The number by which the native library knows this value.
    pub open spec fn spec_number(self) -> u32 {
        match self {
            ODPIDeqNavigation::FirstMsg => 1u32,
            ODPIDeqNavigation::NextTransaction => 2u32,
            ODPIDeqNavigation::NextMsg => 3u32,
        }
    }

    /// The number by which the native library knows this value.
    #[verifier::when_used_as_spec(spec_number)]
    pub fn number(self) -> (n: u32)
        ensures
            n == self.spec_number(),
    {
        match self {
            ODPIDeqNavigation::FirstMsg => 1u32,
            ODPIDeqNavigation::NextTransaction => 2u32,
            ODPIDeqNavigation::NextMsg => 3u32,
        }
    }

    /// Reads a number that the native library handed out: the value with that number,
    /// or `None` where no value has it.
    pub fn from_number(n: u32) -> (r: Option<Self>)
        ensures
            r matches Some(v) ==> v.spec_number() == n,
            r is None ==> forall|v: Self| v.spec_number() != n,
    {
        match n {
            1u32 => Some(ODPIDeqNavigation::FirstMsg),
            2u32 => Some(ODPIDeqNavigation::NextTransaction),
            3u32 => Some(ODPIDeqNavigation::NextMsg),
            _ => None,
        }
    }
}

/// Kinds of event that a subscription can be told of.
#[derive(Clone, Copy, Debug, PartialEq, Eq, Hash, Structural)]
pub enum ODPIEventType {
    /// No event has taken place.
    No,
    /// A database is being started up.
    Startup,
    /// A database is being shut down.
    Shutdown,
    /// An instance of a database is being shut down.
    ShutdownAny,
    /// A database is being dropped.
    DropDB,
    /// A subscription is being deregistered.
    Dereg,
    /// An object has changed.
    ObjectChange,
    /// The result of a registered query has changed.
    QueryChange,
}

impl ODPIEventType {
    /// The number by which the native library knows this value.
    pub open spec fn spec_number(self) -> u32 {
        match self {
            ODPIEventType::No => 0u32,
            ODPIEventType::Startup => 1u32,
            ODPIEventType::Shutdown => 2u32,
            ODPIEventType::ShutdownAny => 3u32,
            ODPIEventType::DropDB => 4u32,
            ODPIEventType::Dereg => 5u32,
            ODPIEventType::ObjectChange => 6u32,
            ODPIEventType::QueryChange => 7u32,
        }
    }

    /// The number by which the native library knows this value.
    #[verifier::when_used_as_spec(spec_number)]
    pub fn number(self) -> (n: u32)
        ensures
            n == self.spec_number(),
    {
        match self {
            ODPIEventType::No => 0u32,
            ODPIEventType::Startup => 1u32,
            ODPIEventType::Shutdown => 2u32,
            ODPIEventType::ShutdownAny => 3u32,
            ODPIEventType::DropDB => 4u32,
            ODPIEventType::Dereg => 5u32,
            ODPIEventType::ObjectChange => 6u32,
            ODPIEventType::QueryChange => 7u32,
        }
    }

    /// Reads a number that the native library handed out: the value with that number,
    /// or `None` where no value has it.
    pub fn from_number(n: u32) -> (r: Option<Self>)
        ensures
            r matches Some(v) ==> v.spec_number() == n,
            r is None ==> forall|v: Self| v.spec_number() != n,
    {
        match n {
            0u32 => Some(ODPIEventType::No),
            1u32 => Some(ODPIEventType::Startup),
            2u32 => Some(ODPIEventType::Shutdown),
            3u32 => Some(ODPIEventType::ShutdownAny),
            4u32 => Some(ODPIEventType::DropDB),
            5u32 => Some(ODPIEventType::Dereg),
            6u32 => Some(ODPIEventType::ObjectChange),
            7u32 => Some(ODPIEventType::QueryChange),
            _ => None,
        }
    }
}

/// Ways of moving the cursor of a scrollable statement.
#[derive(Clone, Copy, Debug, PartialEq, Eq, Hash, Structural)]
pub enum ODPIFetchMode {
    /// Move to the next row.
    Next,
    /// Move to the first row.
    First,
    /// Move to the last row.
    Last,
    /// Move to the previous row.
    Prior,
    /// Move to the row with the given absolute number.
    Absolte,
    /// Move by the given offset from the current row.
    Relative,
}

impl ODPIFetchMode {
    /// The number by which the native library knows this value.
    pub open spec fn spec_number(self) -> u32 {
        match self {
            ODPIFetchMode::Next => 2u32,
            ODPIFetchMode::First => 4u32,
            ODPIFetchMode::Last => 8u32,
            ODPIFetchMode::Prior => 16u32,
            ODPIFetchMode::Absolte => 32u32,
            ODPIFetchMode::Relative => 64u32,
        }
    }

    /// The number by which the native library knows this value.
    #[verifier::when_used_as_spec(spec_number)]
    pub fn number(self) -> (n: u32)
        ensures
            n == self.spec_number(),
    {
        match self {
            ODPIFetchMode::Next => 2u32,
            ODPIFetchMode::First => 4u32,
            ODPIFetchMode::Last => 8u32,
            ODPIFetchMode::Prior => 16u32,
            ODPIFetchMode::Absolte => 32u32,
            ODPIFetchMode::Relative => 64u32,
        }
    }

    /// Reads a number that the native library handed out: the value with that number,
    /// or `None` where no value has it.
    pub fn from_number(n: u32) -> (r: Option<Self>)
        ensures
            r matches Some(v) ==> v.spec_number() == n,
            r is None ==> forall|v: Self| v.spec_number() != n,
    {
        match n {
            2u32 => Some(ODPIFetchMode::Next),
            4u32 => Some(ODPIFetchMode::First),
            8u32 => Some(ODPIFetchMode::Last),
            16u32 => Some(ODPIFetchMode::Prior),
            32u32 => Some(ODPIFetchMode::Absolte),
            64u32 => Some(ODPIFetchMode::Relative),
            _ => None,
        }
    }
}

/// Delivery modes of advanced-queuing messages.
#[derive(Clone, Copy, Debug, PartialEq, Eq, Hash, Structural)]
pub enum ODPIMessageDeliveryMode {
    /// No delivery mode has been chosen.
    NotSet,
    /// Persistent messages only.
    Persistent,
    /// Buffered messages only.
    Buffered,
    /// Either kind of message.
    PersistentOrBuffered,
}

impl ODPIMessageDeliveryMode {
    /// The number by which the native library knows this value.
    pub open spec fn spec_number(self) -> u32 {
        match self {
            ODPIMessageDeliveryMode::NotSet => 0u32,
            ODPIMessageDeliveryMode::Persistent => 1u32,
            ODPIMessageDeliveryMode::Buffered => 2u32,
            ODPIMessageDeliveryMode::PersistentOrBuffered => 3u32,
        }
    }

    /// The number by which the native library knows this value.
    #[verifier::when_used_as_spec(spec_number)]
    pub fn number(self) -> (n: u32)
        ensures
            n == self.spec_number(),
    {
        match self {
            ODPIMessageDeliveryMode::NotSet => 0u32,
            ODPIMessageDeliveryMode::Persistent => 1u32,
            ODPIMessageDeliveryMode::Buffered => 2u32,
            ODPIMessageDeliveryMode::PersistentOrBuffered => 3u32,
        }
    }

    /// Reads a number that the native library handed out: the value with that number,
    /// or `None` where no value has it.
    pub fn from_number(n: u32) -> (r: Option<Self>)
        ensures
            r matches Some(v) ==> v.spec_number() == n,
            r is None ==> forall|v: Self| v.spec_number() != n,
    {
        match n {
            0u32 => Some(ODPIMessageDeliveryMode::NotSet),
            1u32 => Some(ODPIMessageDeliveryMode::Persistent),
            2u32 => Some(ODPIMessageDeliveryMode::Buffered),
            3u32 => Some(ODPIMessageDeliveryMode::PersistentOrBuffered),
            _ => None,
        }
    }
}

/// States of a message in a queue.
#[derive(Clone, Copy, Debug, PartialEq, Eq, Hash, Structural)]
pub enum ODPIMessageState {
    /// Ready to be processed.
    Ready,
    /// Waiting for its delay to pass.
    Waiting,
    /// Already processed and retained.
    Processed,
    /// Moved to the exception queue.
    Expired,
}

impl ODPIMessageState {
    /// The number by which the native library knows this value.
    pub open spec fn spec_number(self) -> u32 {
        match self {
            ODPIMessageState::Ready => 0u32,
            ODPIMessageState::Waiting => 1u32,
            ODPIMessageState::Processed => 2u32,
            ODPIMessageState::Expired => 3u32,
        }
    }

    /// The number by which the native library knows this value.
    #[verifier::when_used_as_spec(spec_number)]
    pub fn number(self) -> (n: u32)
        ensures
            n == self.spec_number(),
    {
        match self {
            ODPIMessageState::Ready => 0u32,
            ODPIMessageState::Waiting => 1u32,
            ODPIMessageState::Processed => 2u32,
            ODPIMessageState::Expired => 3u32,
        }
    }

    /// Reads a number that the native library handed out: the value with that number,
    /// or `None` where no value has it.
    pub fn from_number(n: u32) -> (r: Option<Self>)
        ensures
            r matches Some(v) ==> v.spec_number() == n,
            r is None ==> forall|v: Self| v.spec_number() != n,
    {
        match n {
            0u32 => Some(ODPIMessageState::Ready),
            1u32 => Some(ODPIMessageState::Waiting),
            2u32 => Some(ODPIMessageState::Processed),
            3u32 => Some(ODPIMessageState::Expired),
            _ => None,
        }
    }
}

/// Database types of the values that are bound or fetched.
#[derive(Clone, Copy, Debug, PartialEq, Eq, Hash, Structural)]
pub enum ODPIOracleTypeNum {
    /// No type.
    TypeNone,
    /// VARCHAR2.
    Varchar,
    /// NVARCHAR2.
    NVarchar,
    /// CHAR.
    Char,
    /// NCHAR.
    NChar,
    /// ROWID.
    RowID,
    /// RAW.
    Raw,
    /// BINARY_FLOAT.
    NativeFloat,
    /// BINARY_DOUBLE.
    NativeDouble,
    /// Native signed integer.
    NativeInt,
    /// NUMBER.
    Number,
    /// DATE.
    Date,
    /// TIMESTAMP.
    Timestamp,
    /// TIMESTAMP WITH TIME ZONE.
    TimestampTz,
    /// TIMESTAMP WITH LOCAL TIME ZONE.
    TimestampLtz,
    /// INTERVAL DAY TO SECOND.
    IntervalDS,
    /// INTERVAL YEAR TO MONTH.
    IntervalYM,
    /// CLOB.
    Clob,
    /// NCLOB.
    NClob,
    /// BLOB.
    Blob,
    /// BFILE.
    BFile,
    /// REF CURSOR.
    Stmt,
    /// PL/SQL BOOLEAN.
    Boolean,
    /// Named object type.
    Object,
    /// LONG.
    LongVarchar,
    /// LONG RAW.
    LongRaw,
    /// Native unsigned integer.
    NativeUint,
    /// One past the last type.
    Max,
}

impl ODPIOracleTypeNum {
    /// The number by which the native library knows this value.
    pub open spec fn spec_number(self) -> u32 {
        match self {
            ODPIOracleTypeNum::TypeNone => 2000u32,
            ODPIOracleTypeNum::Varchar => 2001u32,
            ODPIOracleTypeNum::NVarchar => 2002u32,
            ODPIOracleTypeNum::Char => 2003u32,
            ODPIOracleTypeNum::NChar => 2004u32,
            ODPIOracleTypeNum::RowID => 2005u32,
            ODPIOracleTypeNum::Raw => 2006u32,
            ODPIOracleTypeNum::NativeFloat => 2007u32,
            ODPIOracleTypeNum::NativeDouble => 2008u32,
            ODPIOracleTypeNum::NativeInt => 2009u32,
            ODPIOracleTypeNum::Number => 2010u32,
            ODPIOracleTypeNum::Date => 2011u32,
            ODPIOracleTypeNum::Timestamp => 2012u32,
            ODPIOracleTypeNum::TimestampTz => 2013u32,
            ODPIOracleTypeNum::TimestampLtz => 2014u32,
            ODPIOracleTypeNum::IntervalDS => 2015u32,
            ODPIOracleTypeNum::IntervalYM => 2016u32,
            ODPIOracleTypeNum::Clob => 2017u32,
            ODPIOracleTypeNum::NClob => 2018u32,
            ODPIOracleTypeNum::Blob => 2019u32,
            ODPIOracleTypeNum::BFile => 2020u32,
            ODPIOracleTypeNum::Stmt => 2021u32,
            ODPIOracleTypeNum::Boolean => 2022u32,
            ODPIOracleTypeNum::Object => 2023u32,
            ODPIOracleTypeNum::LongVarchar => 2024u32,
            ODPIOracleTypeNum::LongRaw => 2025u32,
            ODPIOracleTypeNum::NativeUint => 2026u32,
            ODPIOracleTypeNum::Max => 2027u32,
        }
    }

    /// The number by which the native library knows this value.
    #[verifier::when_used_as_spec(spec_number)]
    pub fn number(self) -> (n: u32)
        ensures
            n == self.spec_number(),
    {
        match self {
            ODPIOracleTypeNum::TypeNone => 2000u32,
            ODPIOracleTypeNum::Varchar => 2001u32,
            ODPIOracleTypeNum::NVarchar => 2002u32,
            ODPIOracleTypeNum::Char => 2003u32,
            ODPIOracleTypeNum::NChar => 2004u32,
            ODPIOracleTypeNum::RowID => 2005u32,
            ODPIOracleTypeNum::Raw => 2006u32,
            ODPIOracleTypeNum::NativeFloat => 2007u32,
            ODPIOracleTypeNum::NativeDouble => 2008u32,
            ODPIOracleTypeNum::NativeInt => 2009u32,
            ODPIOracleTypeNum::Number => 2010u32,
            ODPIOracleTypeNum::Date => 2011u32,
            ODPIOracleTypeNum::Timestamp => 2012u32,
            ODPIOracleTypeNum::TimestampTz => 2013u32,
            ODPIOracleTypeNum::TimestampLtz => 2014u32,
            ODPIOracleTypeNum::IntervalDS => 2015u32,
            ODPIOracleTypeNum::IntervalYM => 2016u32,
            ODPIOracleTypeNum::Clob => 2017u32,
            ODPIOracleTypeNum::NClob => 2018u32,
            ODPIOracleTypeNum::Blob => 2019u32,
            ODPIOracleTypeNum::BFile => 2020u32,
            ODPIOracleTypeNum::Stmt => 2021u32,
            ODPIOracleTypeNum::Boolean => 2022u32,
            ODPIOracleTypeNum::Object => 2023u32,
            ODPIOracleTypeNum::LongVarchar => 2024u32,
            ODPIOracleTypeNum::LongRaw => 2025u32,
            ODPIOracleTypeNum::NativeUint => 2026u32,
            ODPIOracleTypeNum::Max => 2027u32,
        }
    }

    /// Reads a number that the native library handed out: the value with that number,
    /// or `None` where no value has it.
    pub fn from_number(n: u32) -> (r: Option<Self>)
        ensures
            r matches Some(v) ==> v.spec_number() == n,
            r is None ==> forall|v: Self| v.spec_number() != n,
    {
        match n {
            2000u32 => Some(ODPIOracleTypeNum::TypeNone),
            2001u32 => Some(ODPIOracleTypeNum::Varchar),
            2002u32 => Some(ODPIOracleTypeNum::NVarchar),
            2003u32 => Some(ODPIOracleTypeNum::Char),
            2004u32 => Some(ODPIOracleTypeNum::NChar),
            2005u32 => Some(ODPIOracleTypeNum::RowID),
            2006u32 => Some(ODPIOracleTypeNum::Raw),
            2007u32 => Some(ODPIOracleTypeNum::NativeFloat),
            2008u32 => Some(ODPIOracleTypeNum::NativeDouble),
            2009u32 => Some(ODPIOracleTypeNum::NativeInt),
            2010u32 => Some(ODPIOracleTypeNum::Number),
            2011u32 => Some(ODPIOracleTypeNum::Date),
            2012u32 => Some(ODPIOracleTypeNum::Timestamp),
            2013u32 => Some(ODPIOracleTypeNum::TimestampTz),
            2014u32 => Some(ODPIOracleTypeNum::TimestampLtz),
            2015u32 => Some(ODPIOracleTypeNum::IntervalDS),
            2016u32 => Some(ODPIOracleTypeNum::IntervalYM),
            2017u32 => Some(ODPIOracleTypeNum::Clob),
            2018u32 => Some(ODPIOracleTypeNum::NClob),
            2019u32 => Some(ODPIOracleTypeNum::Blob),
            2020u32 => Some(ODPIOracleTypeNum::BFile),
            2021u32 => Some(ODPIOracleTypeNum::Stmt),
            2022u32 => Some(ODPIOracleTypeNum::Boolean),
            2023u32 => Some(ODPIOracleTypeNum::Object),
            2024u32 => Some(ODPIOracleTypeNum::LongVarchar),
            2025u32 => Some(ODPIOracleTypeNum::LongRaw),
            2026u32 => Some(ODPIOracleTypeNum::NativeUint),
            2027u32 => Some(ODPIOracleTypeNum::Max),
            _ => None,
        }
    }
}

/// What acquiring a connection from a pool does when none is free.
#[derive(Clone, Copy, Debug, PartialEq, Eq, Hash, Structural)]
pub enum ODPIPoolGetMode {
    /// Wait for a connection to become free.
    Wait,
    /// Fail at once.
    NoWait,
    /// Open a new connection beyond the pool's maximum.
    ForceGet,
}

impl ODPIPoolGetMode {
    /// The number by which the native library knows this value.
    pub open spec fn spec_number(self) -> u32 {
        match self {
            ODPIPoolGetMode::Wait => 0u32,
            ODPIPoolGetMode::NoWait => 1u32,
            ODPIPoolGetMode::ForceGet => 2u32,
        }
    }

    /// The number by which the native library knows this value.
    #[verifier::when_used_as_spec(spec_number)]
    pub fn number(self) -> (n: u32)
        ensures
            n == self.spec_number(),
    {
        match self {
            ODPIPoolGetMode::Wait => 0u32,
            ODPIPoolGetMode::NoWait => 1u32,
            ODPIPoolGetMode::ForceGet => 2u32,
        }
    }

    /// Reads a number that the native library handed out: the value with that number,
    /// or `None` where no value has it.
    pub fn from_number(n: u32) -> (r: Option<Self>)
        ensures
            r matches Some(v) ==> v.spec_number() == n,
            r is None ==> forall|v: Self| v.spec_number() != n,
    {
        match n {
            0u32 => Some(ODPIPoolGetMode::Wait),
            1u32 => Some(ODPIPoolGetMode::NoWait),
            2u32 => Some(ODPIPoolGetMode::ForceGet),
            _ => None,
        }
    }
}

/// Purity of the session that a connection asks for.
#[derive(Clone, Copy, Debug, PartialEq, Eq, Hash, Structural)]
pub enum ODPIPurity {
    /// The library's default.
    DefaultPurity,
    /// A session without prior state.
    New,
    /// A session that may carry prior state.
    SelfPurity,
}

impl ODPIPurity {
    /// The number by which the native library knows this value.
    pub open spec fn spec_number(self) -> u32 {
        match self {
            ODPIPurity::DefaultPurity => 0u32,
            ODPIPurity::New => 1u32,
            ODPIPurity::SelfPurity => 2u32,
        }
    }

    /// The number by which the native library knows this value.
    #[verifier::when_used_as_spec(spec_number)]
    pub fn number(self) -> (n: u32)
        ensures
            n == self.spec_number(),
    {
        match self {
            ODPIPurity::DefaultPurity => 0u32,
            ODPIPurity::New => 1u32,
            ODPIPurity::SelfPurity => 2u32,
        }
    }

    /// Reads a number that the native library handed out: the value with that number,
    /// or `None` where no value has it.
    pub fn from_number(n: u32) -> (r: Option<Self>)
        ensures
            r matches Some(v) ==> v.spec_number() == n,
            r is None ==> forall|v: Self| v.spec_number() != n,
    {
        match n {
            0u32 => Some(ODPIPurity::DefaultPurity),
            1u32 => Some(ODPIPurity::New),
            2u32 => Some(ODPIPurity::SelfPurity),
            _ => None,
        }
    }
}

/// Ways of shutting a database down.
#[derive(Clone, Copy, Debug, PartialEq, Eq, Hash, Structural)]
pub enum ODPIShutdownMode {
    /// Wait for all users to disconnect.
    DefaultShutdownMode,
    /// Wait for running transactions to end.
    Transactional,
    /// Wait for local transactions to end.
    TransactionalLocal,
    /// Roll back and disconnect at once.
    Immediate,
    /// Stop without waiting or rolling back.
    Abort,
    /// Dismount and close after an earlier shutdown call.
    Final,
}

impl ODPIShutdownMode {
    /// The number by which the native library knows this value.
    pub open spec fn spec_number(self) -> u32 {
        match self {
            ODPIShutdownMode::DefaultShutdownMode => 0u32,
            ODPIShutdownMode::Transactional => 1u32,
            ODPIShutdownMode::TransactionalLocal => 2u32,
            ODPIShutdownMode::Immediate => 3u32,
            ODPIShutdownMode::Abort => 4u32,
            ODPIShutdownMode::Final => 5u32,
        }
    }

    /// The number by which the native library knows this value.
    #[verifier::when_used_as_spec(spec_number)]
    pub fn number(self) -> (n: u32)
        ensures
            n == self.spec_number(),
    {
        match self {
            ODPIShutdownMode::DefaultShutdownMode => 0u32,
            ODPIShutdownMode::Transactional => 1u32,
            ODPIShutdownMode::TransactionalLocal => 2u32,
            ODPIShutdownMode::Immediate => 3u32,
            ODPIShutdownMode::Abort => 4u32,
            ODPIShutdownMode::Final => 5u32,
        }
    }

    /// Reads a number that the native library handed out: the value with that number,
    /// or `None` where no value has it.
    pub fn from_number(n: u32) -> (r: Option<Self>)
        ensures
            r matches Some(v) ==> v.spec_number() == n,
            r is None ==> forall|v: Self| v.spec_number() != n,
    {
        match n {
            0u32 => Some(ODPIShutdownMode::DefaultShutdownMode),
            1u32 => Some(ODPIShutdownMode::Transactional),
            2u32 => Some(ODPIShutdownMode::TransactionalLocal),
            3u32 => Some(ODPIShutdownMode::Immediate),
            4u32 => Some(ODPIShutdownMode::Abort),
            5u32 => Some(ODPIShutdownMode::Final),
            _ => None,
        }
    }
}

/// Ways of starting a database up.
#[derive(Clone, Copy, Debug, PartialEq, Eq, Hash, Structural)]
pub enum ODPIStartupMode {
    /// Start and allow all users.
    DefaultStartupMode,
    /// Shut down in abort mode first.
    Force,
    /// Allow administrators only.
    Restrict,
}

impl ODPIStartupMode {
    /// The number by which the native library knows this value.
    pub open spec fn spec_number(self) -> u32 {
        match self {
            ODPIStartupMode::DefaultStartupMode => 0u32,
            ODPIStartupMode::Force => 1u32,
            ODPIStartupMode::Restrict => 2u32,
        }
    }

    /// The number by which the native library knows this value.
    #[verifier::when_used_as_spec(spec_number)]
    pub fn number(self) -> (n: u32)
        ensures
            n == self.spec_number(),
    {
        match self {
            ODPIStartupMode::DefaultStartupMode => 0u32,
            ODPIStartupMode::Force => 1u32,
            ODPIStartupMode::Restrict => 2u32,
        }
    }

    /// Reads a number that the native library handed out: the value with that number,
    /// or `None` where no value has it.
    pub fn from_number(n: u32) -> (r: Option<Self>)
        ensures
            r matches Some(v) ==> v.spec_number() == n,
            r is None ==> forall|v: Self| v.spec_number() != n,
    {
        match n {
            0u32 => Some(ODPIStartupMode::DefaultStartupMode),
            1u32 => Some(ODPIStartupMode::Force),
            2u32 => Some(ODPIStartupMode::Restrict),
            _ => None,
        }
    }
}

/// Kinds of statement, as classified when a statement is prepared.
#[derive(Clone, Copy, Debug, PartialEq, Eq, Hash, Structural)]
pub enum ODPIStatementType {
    /// Not classified.
    NotSet,
    /// A query.
    Select,
    /// UPDATE.
    Update,
    /// DELETE.
    Delete,
    /// INSERT.
    Insert,
    /// CREATE.
    Create,
    /// DROP.
    DropDdl,
    /// ALTER.
    Alter,
    /// A block that starts with BEGIN.
    Begin,
    /// A block that starts with DECLARE.
    Declare,
    /// CALL.
    Call,
}

impl ODPIStatementType {
    /// The number by which the native library knows this value.
    pub open spec fn spec_number(self) -> u32 {
        match self {
            ODPIStatementType::NotSet => 0u32,
            ODPIStatementType::Select => 1u32,
            ODPIStatementType::Update => 2u32,
            ODPIStatementType::Delete => 3u32,
            ODPIStatementType::Insert => 4u32,
            ODPIStatementType::Create => 5u32,
            ODPIStatementType::DropDdl => 6u32,
            ODPIStatementType::Alter => 7u32,
            ODPIStatementType::Begin => 8u32,
            ODPIStatementType::Declare => 9u32,
            ODPIStatementType::Call => 10u32,
        }
    }

    /// The number by which the native library knows this value.
    #[verifier::when_used_as_spec(spec_number)]
    pub fn number(self) -> (n: u32)
        ensures
            n == self.spec_number(),
    {
        match self {
            ODPIStatementType::NotSet => 0u32,
            ODPIStatementType::Select => 1u32,
            ODPIStatementType::Update => 2u32,
            ODPIStatementType::Delete => 3u32,
            ODPIStatementType::Insert => 4u32,
            ODPIStatementType::Create => 5u32,
            ODPIStatementType::DropDdl => 6u32,
            ODPIStatementType::Alter => 7u32,
            ODPIStatementType::Begin => 8u32,
            ODPIStatementType::Declare => 9u32,
            ODPIStatementType::Call => 10u32,
        }
    }

    /// Reads a number that the native library handed out: the value with that number,
    /// or `None` where no value has it.
    pub fn from_number(n: u32) -> (r: Option<Self>)
        ensures
            r matches Some(v) ==> v.spec_number() == n,
            r is None ==> forall|v: Self| v.spec_number() != n,
    {
        match n {
            0u32 => Some(ODPIStatementType::NotSet),
            1u32 => Some(ODPIStatementType::Select),
            2u32 => Some(ODPIStatementType::Update),
            3u32 => Some(ODPIStatementType::Delete),
            4u32 => Some(ODPIStatementType::Insert),
            5u32 => Some(ODPIStatementType::Create),
            6u32 => Some(ODPIStatementType::DropDdl),
            7u32 => Some(ODPIStatementType::Alter),
            8u32 => Some(ODPIStatementType::Begin),
            9u32 => Some(ODPIStatementType::Declare),
            10u32 => Some(ODPIStatementType::Call),
            _ => None,
        }
    }
}

/// Namespaces in which a subscription can be registered.
#[derive(Clone, Copy, Debug, PartialEq, Eq, Hash, Structural)]
pub enum ODPISubscrNamespace {
    /// Changes in the database.
    DbChange,
}

impl ODPISubscrNamespace {
    /// The number by which the native library knows this value.
    pub open spec fn spec_number(self) -> u32 {
        match self {
            ODPISubscrNamespace::DbChange => 0u32,
        }
    }

    /// The number by which the native library knows this value.
    #[verifier::when_used_as_spec(spec_number)]
    pub fn number(self) -> (n: u32)
        ensures
            n == self.spec_number(),
    {
        match self {
            ODPISubscrNamespace::DbChange => 0u32,
        }
    }

    /// Reads a number that the native library handed out: the value with that number,
    /// or `None` where no value has it.
    pub fn from_number(n: u32) -> (r: Option<Self>)
        ensures
            r matches Some(v) ==> v.spec_number() == n,
            r is None ==> forall|v: Self| v.spec_number() != n,
    {
        match n {
            0u32 => Some(ODPISubscrNamespace::DbChange),
            _ => None,
        }
    }
}

/// Ways in which a subscription's notifications are delivered.
#[derive(Clone, Copy, Debug, PartialEq, Eq, Hash, Structural)]
pub enum ODPISubscrProtocol {
    /// To a callback of the client.
    Callback,
    /// By mail.
    Mail,
    /// To a PL/SQL procedure.
    PLSQL,
    /// To an HTTP address.
    HTTP,
}

impl ODPISubscrProtocol {
    /// The number by which the native library knows this value.
    pub open spec fn spec_number(self) -> u32 {
        match self {
            ODPISubscrProtocol::Callback => 0u32,
            ODPISubscrProtocol::Mail => 1u32,
            ODPISubscrProtocol::PLSQL => 2u32,
            ODPISubscrProtocol::HTTP => 3u32,
        }
    }

    /// The number by which the native library knows this value.
    #[verifier::when_used_as_spec(spec_number)]
    pub fn number(self) -> (n: u32)
        ensures
            n == self.spec_number(),
    {
        match self {
            ODPISubscrProtocol::Callback => 0u32,
            ODPISubscrProtocol::Mail => 1u32,
            ODPISubscrProtocol::PLSQL => 2u32,
            ODPISubscrProtocol::HTTP => 3u32,
        }
    }

    /// Reads a number that the native library handed out: the value with that number,
    /// or `None` where no value has it.
    pub fn from_number(n: u32) -> (r: Option<Self>)
        ensures
            r matches Some(v) ==> v.spec_number() == n,
            r is None ==> forall|v: Self| v.spec_number() != n,
    {
        match n {
            0u32 => Some(ODPISubscrProtocol::Callback),
            1u32 => Some(ODPISubscrProtocol::Mail),
            2u32 => Some(ODPISubscrProtocol::PLSQL),
            3u32 => Some(ODPISubscrProtocol::HTTP),
            _ => None,
        }
    }
}

/// When an enqueued or dequeued message takes effect.
#[derive(Clone, Copy, Debug, PartialEq, Eq, Hash, Structural)]
pub enum ODPIVisibility {
    /// At once, in a transaction of its own.
    Immediate,
    /// With the current transaction; the default.
    OnCommit,
}

impl ODPIVisibility {
    /// The number by which the native library knows this value.
    pub open spec fn spec_number(self) -> u32 {
        match self {
            ODPIVisibility::Immediate => 1u32,
            ODPIVisibility::OnCommit => 2u32,
        }
    }

    /// The number by which the native library knows this value.
    #[verifier::when_used_as_spec(spec_number)]
    pub fn number(self) -> (n: u32)
        ensures
            n == self.spec_number(),
    {
        match self {
            ODPIVisibility::Immediate => 1u32,
            ODPIVisibility::OnCommit => 2u32,
        }
    }

    /// Reads a number that the native library handed out: the value with that number,
    /// or `None` where no value has it.
    pub fn from_number(n: u32) -> (r: Option<Self>)
        ensures
            r matches Some(v) ==> v.spec_number() == n,
            r is None ==> forall|v: Self| v.spec_number() != n,
    {
        match n {
            1u32 => Some(ODPIVisibility::Immediate),
            2u32 => Some(ODPIVisibility::OnCommit),
            _ => None,
        }
    }
}

/// The representation that a value has in a data cell. Every cell is read and written
/// through the representation that its variable, column or attribute names.
#[derive(Clone, Copy, Debug, PartialEq, Eq, Hash, Structural)]
pub enum ODPINativeTypeNum {
    /// No representation: the number that was read stands for none.
    Invalid,
    /// A signed 64-bit integer.
    Int64,
    /// An unsigned 64-bit integer.
    Uint64,
    /// A single-precision floating-point number.
    Float,
    /// A double-precision floating-point number.
    Double,
    /// A byte string with its encoding.
    Bytes,
    /// A point in time, with its time zone offset.
    Timestamp,
    /// An interval of days, hours, minutes and seconds.
    IntervalDS,
    /// An interval of years and months.
    IntervalYM,
    /// A reference to a large object.
    Lob,
    /// A reference to an object of a named type.
    Object,
    /// A reference to a statement.
    Stmt,
    /// A truth value.
    Boolean,
    /// A reference to a row identifier.
    Rowid,
}

impl ODPINativeTypeNum {
    /// The number by which the native library knows this representation.
    pub open spec fn spec_number(self) -> u32 {
        match self {
            ODPINativeTypeNum::Invalid => 0u32,
            ODPINativeTypeNum::Int64 => 3000u32,
            ODPINativeTypeNum::Uint64 => 3001u32,
            ODPINativeTypeNum::Float => 3002u32,
            ODPINativeTypeNum::Double => 3003u32,
            ODPINativeTypeNum::Bytes => 3004u32,
            ODPINativeTypeNum::Timestamp => 3005u32,
            ODPINativeTypeNum::IntervalDS => 3006u32,
            ODPINativeTypeNum::IntervalYM => 3007u32,
            ODPINativeTypeNum::Lob => 3008u32,
            ODPINativeTypeNum::Object => 3009u32,
            ODPINativeTypeNum::Stmt => 3010u32,
            ODPINativeTypeNum::Boolean => 3011u32,
            ODPINativeTypeNum::Rowid => 3012u32,
        }
    }

    /// The representation that `val` stands for; `Invalid` for every number that stands
    /// for none.
    pub open spec fn spec_from_i32(val: i32) -> Self {
        if val == 3000i32 {
            ODPINativeTypeNum::Int64
        } else if val == 3001i32 {
            ODPINativeTypeNum::Uint64
        } else if val == 3002i32 {
            ODPINativeTypeNum::Float
        } else if val == 3003i32 {
            ODPINativeTypeNum::Double
        } else if val == 3004i32 {
            ODPINativeTypeNum::Bytes
        } else if val == 3005i32 {
            ODPINativeTypeNum::Timestamp
        } else if val == 3006i32 {
            ODPINativeTypeNum::IntervalDS
        } else if val == 3007i32 {
            ODPINativeTypeNum::IntervalYM
        } else if val == 3008i32 {
            ODPINativeTypeNum::Lob
        } else if val == 3009i32 {
            ODPINativeTypeNum::Object
        } else if val == 3010i32 {
            ODPINativeTypeNum::Stmt
        } else if val == 3011i32 {
            ODPINativeTypeNum::Boolean
        } else if val == 3012i32 {
            ODPINativeTypeNum::Rowid
        } else {
            ODPINativeTypeNum::Invalid
        }
    }

    /// The name under which this representation is shown.
    pub open spec fn spec_name(self) -> Seq<char> {
        match self {
            ODPINativeTypeNum::Int64 => "Int64"@,
            ODPINativeTypeNum::Uint64 => "Uint64"@,
            ODPINativeTypeNum::Float => "Float"@,
            ODPINativeTypeNum::Double => "Double"@,
            ODPINativeTypeNum::Bytes => "Bytes"@,
            ODPINativeTypeNum::Timestamp => "Timestamp"@,
            ODPINativeTypeNum::IntervalDS => "IntervalDS"@,
            ODPINativeTypeNum::IntervalYM => "IntervalYM"@,
            ODPINativeTypeNum::Lob => "LOB"@,
            ODPINativeTypeNum::Object => "Object"@,
            ODPINativeTypeNum::Stmt => "Stmt"@,
            ODPINativeTypeNum::Boolean => "Boolean"@,
            ODPINativeTypeNum::Rowid => "Rowid"@,
            ODPINativeTypeNum::Invalid => "Invalid"@,
        }
    }

    /// The number by which the native library knows this representation.
    #[verifier::when_used_as_spec(spec_number)]
    pub fn number(self) -> (n: u32)
        ensures
            n == self.spec_number(),
    {
        match self {
            ODPINativeTypeNum::Invalid => 0u32,
            ODPINativeTypeNum::Int64 => 3000u32,
            ODPINativeTypeNum::Uint64 => 3001u32,
            ODPINativeTypeNum::Float => 3002u32,
            ODPINativeTypeNum::Double => 3003u32,
            ODPINativeTypeNum::Bytes => 3004u32,
            ODPINativeTypeNum::Timestamp => 3005u32,
            ODPINativeTypeNum::IntervalDS => 3006u32,
            ODPINativeTypeNum::IntervalYM => 3007u32,
            ODPINativeTypeNum::Lob => 3008u32,
            ODPINativeTypeNum::Object => 3009u32,
            ODPINativeTypeNum::Stmt => 3010u32,
            ODPINativeTypeNum::Boolean => 3011u32,
            ODPINativeTypeNum::Rowid => 3012u32,
        }
    }

    /// The name under which this representation is shown.
    pub fn name(self) -> (s: &'static str)
        ensures
            s@ == self.spec_name(),
    {
        match self {
            ODPINativeTypeNum::Int64 => "Int64",
            ODPINativeTypeNum::Uint64 => "Uint64",
            ODPINativeTypeNum::Float => "Float",
            ODPINativeTypeNum::Double => "Double",
            ODPINativeTypeNum::Bytes => "Bytes",
            ODPINativeTypeNum::Timestamp => "Timestamp",
            ODPINativeTypeNum::IntervalDS => "IntervalDS",
            ODPINativeTypeNum::IntervalYM => "IntervalYM",
            ODPINativeTypeNum::Lob => "LOB",
            ODPINativeTypeNum::Object => "Object",
            ODPINativeTypeNum::Stmt => "Stmt",
            ODPINativeTypeNum::Boolean => "Boolean",
            ODPINativeTypeNum::Rowid => "Rowid",
            ODPINativeTypeNum::Invalid => "Invalid",
        }
    }

    /// A representation other than `Invalid` is read back from its own number.
    pub proof fn lemma_from_number_of(self)
        ensures
            Self::spec_from_i32(self.spec_number() as i32) == self,
    {
    }
}

impl vstd::std_specs::convert::FromSpecImpl<i32> for ODPINativeTypeNum {
    open spec fn obeys_from_spec() -> bool {
        true
    }

    open spec fn from_spec(val: i32) -> Self {
        Self::spec_from_i32(val)
    }
}

impl From<i32> for ODPINativeTypeNum {
    /// Reads the number that the native library reports for a representation. A number
    /// that stands for none is read as `Invalid`.
    fn from(val: i32) -> (r: ODPINativeTypeNum) {
        match val {
            3000i32 => ODPINativeTypeNum::Int64,
            3001i32 => ODPINativeTypeNum::Uint64,
            3002i32 => ODPINativeTypeNum::Float,
            3003i32 => ODPINativeTypeNum::Double,
            3004i32 => ODPINativeTypeNum::Bytes,
            3005i32 => ODPINativeTypeNum::Timestamp,
            3006i32 => ODPINativeTypeNum::IntervalDS,
            3007i32 => ODPINativeTypeNum::IntervalYM,
            3008i32 => ODPINativeTypeNum::Lob,
            3009i32 => ODPINativeTypeNum::Object,
            3010i32 => ODPINativeTypeNum::Stmt,
            3011i32 => ODPINativeTypeNum::Boolean,
            3012i32 => ODPINativeTypeNum::Rowid,
            _ => ODPINativeTypeNum::Invalid,
        }
    }
}

} // verus!
