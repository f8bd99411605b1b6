//! Errors. Every operation that can fail returns its error in its own result: the
//! native library's report of a failed call is handed to the operation together with
//! the call's outcome and travels inside the error, so that no later call can overwrite
//! it.
use vstd::prelude::*;

verus! {

/// What the native library reports about a call that failed.
#[derive(Clone, Debug, PartialEq, Eq)]
pub struct Info {
    /// The error code of the database or of the native library.
    pub code: i32,
    /// The offset into the statement's text at which the error was found, if any.
    pub offset: u16,
    /// The error message.
    pub message: String,
    /// The public function of the native library that failed.
    pub fn_name: String,
    /// What the native library was doing when it failed.
    pub action: String,
    /// The SQLSTATE code of the error.
    pub sql_state: String,
    /// Whether the failed call may succeed when it is tried again.
    pub is_recoverable: bool,
}

impl Info {
    /// A copy of the report.
    pub fn duplicate(&self) -> (r: Info)
        ensures
            r == *self,
    {
        Info {
            code: self.code,
            offset: self.offset,
            message: self.message.clone(),
            fn_name: self.fn_name.clone(),
            action: self.action.clone(),
            sql_state: self.sql_state.clone(),
            is_recoverable: self.is_recoverable,
        }
    }
}

/// The functions of the native library that can report a failure.
#[derive(Clone, Copy, Debug, PartialEq, Eq, Hash, Structural)]
pub enum Operation {
    ConnAddRef,
    ConnBeginDistribTrans,
    ConnBreakExecution,
    ConnChangePassword,
    ConnClose,
    ConnCommit,
    ConnCreate,
    ConnDeqObject,
    ConnEnqObject,
    ConnGetObjectType,
    ConnNewDeqOptions,
    ConnNewEnqOptions,
    ConnNewMsgProps,
    ConnNewSubscription,
    ConnNewTempLob,
    ConnNewVar,
    ConnPing,
    ConnPrepareDistribTrans,
    ConnPrepareStmt,
    ConnRelease,
    ConnRollback,
    ConnShutdownDatabase,
    ConnStartupDatabase,
    ContextCreate,
    ContextDestroy,
    ContextGetClientVersion,
    DeqOptionsAddRef,
    DeqOptionsRelease,
    EnqOptionsAddRef,
    EnqOptionsRelease,
    LobAddRef,
    LobRelease,
    MsgPropsAddRef,
    MsgPropsRelease,
    ObjectAddRef,
    ObjectCopy,
    ObjectRelease,
    ObjectAttrAddRef,
    ObjectAttrRelease,
    ObjectTypeAddRef,
    ObjectTypeCreateObject,
    ObjectTypeRelease,
    PoolAcquireConnection,
    PoolAddRef,
    PoolClose,
    PoolCreate,
    PoolGetBusyCount,
    PoolGetOpenCount,
    PoolRelease,
    RowidAddRef,
    RowidRelease,
    StmtAddRef,
    StmtBindByPos,
    StmtClose,
    StmtExecute,
    StmtExecuteMany,
    StmtFetch,
    StmtFetchRows,
    StmtRelease,
    StmtScroll,
    SubscrAddRef,
    SubscrClose,
    SubscrPrepareStmt,
    SubscrRelease,
    VarAddRef,
    VarRelease,
    VarSetFromBytes,
}

impl Operation {
    /// The name of the native library's function.
    pub open spec fn spec_name(self) -> Seq<char> {
        match self {
            Operation::ConnAddRef => "dpiConn_addRef"@,
            Operation::ConnBeginDistribTrans => "dpiConn_beginDistribTrans"@,
            Operation::ConnBreakExecution => "dpiConn_breakExecution"@,
            Operation::ConnChangePassword => "dpiConn_changePassword"@,
            Operation::ConnClose => "dpiConn_close"@,
            Operation::ConnCommit => "dpiConn_commit"@,
            Operation::ConnCreate => "dpiConn_create"@,
            Operation::ConnDeqObject => "dpiConn_deqObject"@,
            Operation::ConnEnqObject => "dpiConn_enqObject"@,
            Operation::ConnGetObjectType => "dpiConn_getObjectType"@,
            Operation::ConnNewDeqOptions => "dpiConn_newDeqOptions"@,
            Operation::ConnNewEnqOptions => "dpiConn_newEnqOptions"@,
            Operation::ConnNewMsgProps => "dpiConn_newMsgProps"@,
            Operation::ConnNewSubscription => "dpiConn_newSubscription"@,
            Operation::ConnNewTempLob => "dpiConn_newTempLob"@,
            Operation::ConnNewVar => "dpiConn_newVar"@,
            Operation::ConnPing => "dpiConn_ping"@,
            Operation::ConnPrepareDistribTrans => "dpiConn_prepareDistribTrans"@,
            Operation::ConnPrepareStmt => "dpiConn_prepareStmt"@,
            Operation::ConnRelease => "dpiConn_release"@,
            Operation::ConnRollback => "dpiConn_rollback"@,
            Operation::ConnShutdownDatabase => "dpiConn_shutdownDatabase"@,
            Operation::ConnStartupDatabase => "dpiConn_startupDatabase"@,
            Operation::ContextCreate => "dpiContext_create"@,
            Operation::ContextDestroy => "dpiContext_destroy"@,
            Operation::ContextGetClientVersion => "dpiContext_getClientVersion"@,
            Operation::DeqOptionsAddRef => "dpiDeqOptions_addRef"@,
            Operation::DeqOptionsRelease => "dpiDeqOptions_release"@,
            Operation::EnqOptionsAddRef => "dpiEnqOptions_addRef"@,
            Operation::EnqOptionsRelease => "dpiEnqOptions_release"@,
            Operation::LobAddRef => "dpiLob_addRef"@,
            Operation::LobRelease => "dpiLob_release"@,
            Operation::MsgPropsAddRef => "dpiMsgProps_addRef"@,
            Operation::MsgPropsRelease => "dpiMsgProps_release"@,
            Operation::ObjectAddRef => "dpiObject_addRef"@,
            Operation::ObjectCopy => "dpiObject_copy"@,
            Operation::ObjectRelease => "dpiObject_release"@,
            Operation::ObjectAttrAddRef => "dpiObjectAttr_addRef"@,
            Operation::ObjectAttrRelease => "dpiObjectAttr_release"@,
            Operation::ObjectTypeAddRef => "dpiObjectType_addRef"@,
            Operation::ObjectTypeCreateObject => "dpiObjectType_createObject"@,
            Operation::ObjectTypeRelease => "dpiObjectType_release"@,
            Operation::PoolAcquireConnection => "dpiPool_acquireConnection"@,
            Operation::PoolAddRef => "dpiPool_addRef"@,
            Operation::PoolClose => "dpiPool_close"@,
            Operation::PoolCreate => "dpiPool_create"@,
            Operation::PoolGetBusyCount => "dpiPool_getBusyCount"@,
            Operation::PoolGetOpenCount => "dpiPool_getOpenCount"@,
            Operation::PoolRelease => "dpiPool_release"@,
            Operation::RowidAddRef => "dpiRowid_addRef"@,
            Operation::RowidRelease => "dpiRowid_release"@,
            Operation::StmtAddRef => "dpiStmt_addRef"@,
            Operation::StmtBindByPos => "dpiStmt_bindByPos"@,
            Operation::StmtClose => "dpiStmt_close"@,
            Operation::StmtExecute => "dpiStmt_execute"@,
            Operation::StmtExecuteMany => "dpiStmt_executeMany"@,
            Operation::StmtFetch => "dpiStmt_fetch"@,
            Operation::StmtFetchRows => "dpiStmt_fetchRows"@,
            Operation::StmtRelease => "dpiStmt_release"@,
            Operation::StmtScroll => "dpiStmt_scroll"@,
            Operation::SubscrAddRef => "dpiSubscr_addRef"@,
            Operation::SubscrClose => "dpiSubscr_close"@,
            Operation::SubscrPrepareStmt => "dpiSubscr_prepareStmt"@,
            Operation::SubscrRelease => "dpiSubscr_release"@,
            Operation::VarAddRef => "dpiVar_addRef"@,
            Operation::VarRelease => "dpiVar_release"@,
            Operation::VarSetFromBytes => "dpiVar_setFromBytes"@,
        }
    }

    /// The name of the native library's function.
    pub fn name(self) -> (s: &'static str)
        ensures
            s@ == self.spec_name(),
    {
        match self {
            Operation::ConnAddRef => "dpiConn_addRef",
            Operation::ConnBeginDistribTrans => "dpiConn_beginDistribTrans",
            Operation::ConnBreakExecution => "dpiConn_breakExecution",
            Operation::ConnChangePassword => "dpiConn_changePassword",
            Operation::ConnClose => "dpiConn_close",
            Operation::ConnCommit => "dpiConn_commit",
            Operation::ConnCreate => "dpiConn_create",
            Operation::ConnDeqObject => "dpiConn_deqObject",
            Operation::ConnEnqObject => "dpiConn_enqObject",
            Operation::ConnGetObjectType => "dpiConn_getObjectType",
            Operation::ConnNewDeqOptions => "dpiConn_newDeqOptions",
            Operation::ConnNewEnqOptions => "dpiConn_newEnqOptions",
            Operation::ConnNewMsgProps => "dpiConn_newMsgProps",
            Operation::ConnNewSubscription => "dpiConn_newSubscription",
            Operation::ConnNewTempLob => "dpiConn_newTempLob",
            Operation::ConnNewVar => "dpiConn_newVar",
            Operation::ConnPing => "dpiConn_ping",
            Operation::ConnPrepareDistribTrans => "dpiConn_prepareDistribTrans",
            Operation::ConnPrepareStmt => "dpiConn_prepareStmt",
            Operation::ConnRelease => "dpiConn_release",
            Operation::ConnRollback => "dpiConn_rollback",
            Operation::ConnShutdownDatabase => "dpiConn_shutdownDatabase",
            Operation::ConnStartupDatabase => "dpiConn_startupDatabase",
            Operation::ContextCreate => "dpiContext_create",
            Operation::ContextDestroy => "dpiContext_destroy",
            Operation::ContextGetClientVersion => "dpiContext_getClientVersion",
            Operation::DeqOptionsAddRef => "dpiDeqOptions_addRef",
            Operation::DeqOptionsRelease => "dpiDeqOptions_release",
            Operation::EnqOptionsAddRef => "dpiEnqOptions_addRef",
            Operation::EnqOptionsRelease => "dpiEnqOptions_release",
            Operation::LobAddRef => "dpiLob_addRef",
            Operation::LobRelease => "dpiLob_release",
            Operation::MsgPropsAddRef => "dpiMsgProps_addRef",
            Operation::MsgPropsRelease => "dpiMsgProps_release",
            Operation::ObjectAddRef => "dpiObject_addRef",
            Operation::ObjectCopy => "dpiObject_copy",
            Operation::ObjectRelease => "dpiObject_release",
            Operation::ObjectAttrAddRef => "dpiObjectAttr_addRef",
            Operation::ObjectAttrRelease => "dpiObjectAttr_release",
            Operation::ObjectTypeAddRef => "dpiObjectType_addRef",
            Operation::ObjectTypeCreateObject => "dpiObjectType_createObject",
            Operation::ObjectTypeRelease => "dpiObjectType_release",
            Operation::PoolAcquireConnection => "dpiPool_acquireConnection",
            Operation::PoolAddRef => "dpiPool_addRef",
            Operation::PoolClose => "dpiPool_close",
            Operation::PoolCreate => "dpiPool_create",
            Operation::PoolGetBusyCount => "dpiPool_getBusyCount",
            Operation::PoolGetOpenCount => "dpiPool_getOpenCount",
            Operation::PoolRelease => "dpiPool_release",
            Operation::RowidAddRef => "dpiRowid_addRef",
            Operation::RowidRelease => "dpiRowid_release",
            Operation::StmtAddRef => "dpiStmt_addRef",
            Operation::StmtBindByPos => "dpiStmt_bindByPos",
            Operation::StmtClose => "dpiStmt_close",
            Operation::StmtExecute => "dpiStmt_execute",
            Operation::StmtExecuteMany => "dpiStmt_executeMany",
            Operation::StmtFetch => "dpiStmt_fetch",
            Operation::StmtFetchRows => "dpiStmt_fetchRows",
            Operation::StmtRelease => "dpiStmt_release",
            Operation::StmtScroll => "dpiStmt_scroll",
            Operation::SubscrAddRef => "dpiSubscr_addRef",
            Operation::SubscrClose => "dpiSubscr_close",
            Operation::SubscrPrepareStmt => "dpiSubscr_prepareStmt",
            Operation::SubscrRelease => "dpiSubscr_release",
            Operation::VarAddRef => "dpiVar_addRef",
            Operation::VarRelease => "dpiVar_release",
            Operation::VarSetFromBytes => "dpiVar_setFromBytes",
        }
    }
}

/// Why an argument, or the state of the resource that an operation was called on, was
/// refused before anything was asked of the native library.
#[derive(Clone, Copy, Debug, PartialEq, Eq, Hash, Structural)]
pub enum Reason {
    /// The resource is not live: it was never bound to a native handle, it was closed,
    /// or its last reference was released.
    HandleNotLive,
    /// No reference to the resource is left to release.
    NoReference,
    /// The count of references cannot grow further.
    TooManyReferences,
    /// The native library answered with a null handle.
    NullHandle,
    /// A position lies outside the array of a variable or outside a collection.
    IndexOutOfRange,
    /// A value takes more bytes than the buffer that is to hold it.
    ValueTooLarge,
    /// The transaction id of a distributed transaction is longer than 64 bytes.
    TxnIdTooLong,
    /// The branch id of a distributed transaction is longer than 64 bytes.
    BranchIdTooLong,
    /// Neither the text of a statement nor a tag was given.
    MissingSqlAndTag,
    /// The statement has not been executed.
    NotExecuted,
    /// The statement is no query.
    NotAQuery,
    /// The statement is a query, and the operation is for other statements only.
    IsAQuery,
    /// The statement was prepared without the ability to scroll.
    NotScrollable,
    /// A variable that is bound to the statement has fewer elements than the number of
    /// iterations asked for, or fewer than the number of elements it is to hold.
    ArrayTooSmall,
    /// A variable needs room for at least one element.
    ZeroArraySize,
    /// A string holds a NUL byte where the native library expects a C string.
    EmbeddedNul,
    /// The database type is not one that the operation accepts.
    InvalidOracleType,
    /// The native library's answer contradicts what is known of the resource.
    InconsistentReply,
    /// The object is no collection.
    NotACollection,
    /// The collection has no element at the index.
    NoSuchElement,
    /// The attribute belongs to another type than the object.
    ForeignAttribute,
    /// The value was never set.
    NotSet,
    /// A subscription with a callback needs a connection that was created in threaded
    /// mode.
    ThreadedModeRequired,
    /// The fields of a timestamp name no day of the calendar or no time of day.
    InvalidTimestamp,
    /// The buffer of a LOB is only read and written while the LOB is open.
    ResourceNotOpen,
}

/// The ways in which an operation fails.
#[derive(Clone, Debug, PartialEq, Eq)]
pub enum ErrorKind {
    /// The native library reported that a call failed. `info` is its report, taken
    /// together with the outcome of that very call.
    NativeCallFailed { operation: Operation, info: Info },
    /// An argument or the state of the resource was refused.
    InvalidArgument { reason: Reason },
    /// A value was read or written through another representation than its own.
    UncheckedVariantAccess,
    /// The operation is not offered.
    NotImplemented,
}

/// The error with which every operation is refused on a resource that cannot be used.
pub open spec fn not_live<T>() -> Result<T, ErrorKind> {
    Err(ErrorKind::InvalidArgument { reason: Reason::HandleNotLive })
}

/// What follows from the outcome `reply` of the native call `operation`: the value that
/// the call produced, or the error that carries the native library's report.
pub fn from_native<T>(operation: Operation, reply: Result<T, Info>) -> (r: Result<T, ErrorKind>)
    ensures
        r == native_outcome(operation, reply),
{
    match reply {
        Ok(v) => Ok(v),
        Err(info) => Err(ErrorKind::NativeCallFailed { operation, info }),
    }
}

/// What follows from the outcome `reply` of the native call `operation`.
pub open spec fn native_outcome<T>(operation: Operation, reply: Result<T, Info>) -> Result<
    T,
    ErrorKind,
> {
    match reply {
        Ok(v) => Ok(v),
        Err(info) => Err(ErrorKind::NativeCallFailed { operation, info }),
    }
}

} // verus!
