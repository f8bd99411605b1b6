//! The flag sets of the native interface. A set is a word of 32 bits; each flag is one
//! bit of it, fixed by the native library's binary interface.
use vstd::prelude::*;

verus! {

/// Default authentication.
pub const DPI_MODE_AUTH_DEFAULT: u32 = 0x0;

/// Authenticate with the SYSDBA privilege.
pub const DPI_MODE_AUTH_SYSDBA: u32 = 0x2;

/// Authenticate with the SYSOPER privilege.
pub const DPI_MODE_AUTH_SYSOPER: u32 = 0x4;

/// Preliminary authentication, for starting a database.
pub const DPI_MODE_AUTH_PRELIM: u32 = 0x8;

/// Authenticate with the SYSASM privilege.
pub const DPI_MODE_AUTH_SYSASM: u32 = 0x8000;

/// The ways in which a connection authenticates.
#[derive(Clone, Copy, Debug, PartialEq, Eq, Hash, Structural)]
pub struct ODPIAuthMode {
    bits: u32,
}

impl ODPIAuthMode {
    /// The bits of all flags of this set together.
    pub open spec fn all_bits() -> u32 {
        0x800eu32
    }

    /// The bits that are set.
    pub closed spec fn spec_bits(&self) -> u32 {
        self.bits
    }

    /// The set with the bits `bits`.
    pub closed spec fn of(bits: u32) -> ODPIAuthMode {
        ODPIAuthMode { bits }
    }

    /// Whether every flag of `other` is set.
    pub open spec fn spec_contains(&self, other: ODPIAuthMode) -> bool {
        self.spec_bits() & other.spec_bits() == other.spec_bits()
    }

    /// The set that is made of bits has those bits.
    pub proof fn lemma_of(bits: u32)
        ensures
            Self::of(bits).spec_bits() == bits,
    {
    }

    /// The set without any flag.
    pub fn empty() -> (r: ODPIAuthMode)
        ensures
            r == Self::of(0),
            r.spec_bits() == 0,
    {
        ODPIAuthMode { bits: 0 }
    }

    /// The set with the bits `bits`, or `None` where a bit stands for no flag.
    pub fn from_bits(bits: u32) -> (r: Option<ODPIAuthMode>)
        ensures
            bits & !Self::all_bits() == 0 ==> (r matches Some(f) && f == Self::of(bits)
                && f.spec_bits() == bits),
            bits & !Self::all_bits() != 0 ==> r is None,
    {
        if bits & !0x800eu32 == 0 {
            Some(ODPIAuthMode { bits })
        } else {
            None
        }
    }

    /// The set with the bits of `bits` that stand for a flag.
    pub fn from_bits_truncate(bits: u32) -> (r: ODPIAuthMode)
        ensures
            r == Self::of(bits & Self::all_bits()),
            r.spec_bits() == bits & Self::all_bits(),
    {
        ODPIAuthMode { bits: bits & 0x800eu32 }
    }

    /// The bits that are set.
    #[verifier::when_used_as_spec(spec_bits)]
    pub fn bits(&self) -> (r: u32)
        ensures
            r == self.spec_bits(),
    {
        self.bits
    }

    /// Whether no flag is set.
    pub fn is_empty(&self) -> (r: bool)
        ensures
            r == (self.spec_bits() == 0),
    {
        self.bits == 0
    }

    /// Whether every flag of `other` is set.
    #[verifier::when_used_as_spec(spec_contains)]
    pub fn contains(&self, other: ODPIAuthMode) -> (r: bool)
        ensures
            r == self.spec_contains(other),
    {
        self.bits & other.bits == other.bits
    }

    /// The set of the flags that are set in this set or in `other`.
    pub fn union(&self, other: ODPIAuthMode) -> (r: ODPIAuthMode)
        ensures
            r == Self::of(self.spec_bits() | other.spec_bits()),
            r.spec_bits() == self.spec_bits() | other.spec_bits(),
    {
        ODPIAuthMode { bits: self.bits | other.bits }
    }
}

/// Return the session to its pool, or end it.
pub const DPI_MODE_CONN_CLOSE_DEFAULT: u32 = 0x0;

/// Drop the session from its pool.
pub const DPI_MODE_CONN_CLOSE_DROP: u32 = 0x1;

/// Give the session a new tag when it goes back to its pool.
pub const DPI_MODE_CONN_CLOSE_RETAG: u32 = 0x2;

/// What closing a connection does with its session.
#[derive(Clone, Copy, Debug, PartialEq, Eq, Hash, Structural)]
pub struct ODPIConnCloseMode {
    bits: u32,
}

impl ODPIConnCloseMode {
    /// The bits of all flags of this set together.
    pub open spec fn all_bits() -> u32 {
        0x3u32
    }

    /// The bits that are set.
    pub closed spec fn spec_bits(&self) -> u32 {
        self.bits
    }

    /// The set with the bits `bits`.
    pub closed spec fn of(bits: u32) -> ODPIConnCloseMode {
        ODPIConnCloseMode { bits }
    }

    /// Whether every flag of `other` is set.
    pub open spec fn spec_contains(&self, other: ODPIConnCloseMode) -> bool {
        self.spec_bits() & other.spec_bits() == other.spec_bits()
    }

    /// The set that is made of bits has those bits.
    pub proof fn lemma_of(bits: u32)
        ensures
            Self::of(bits).spec_bits() == bits,
    {
    }

    /// The set without any flag.
    pub fn empty() -> (r: ODPIConnCloseMode)
        ensures
            r == Self::of(0),
            r.spec_bits() == 0,
    {
        ODPIConnCloseMode { bits: 0 }
    }

    /// The set with the bits `bits`, or `None` where a bit stands for no flag.
    pub fn from_bits(bits: u32) -> (r: Option<ODPIConnCloseMode>)
        ensures
            bits & !Self::all_bits() == 0 ==> (r matches Some(f) && f == Self::of(bits)
                && f.spec_bits() == bits),
            bits & !Self::all_bits() != 0 ==> r is None,
    {
        if bits & !0x3u32 == 0 {
            Some(ODPIConnCloseMode { bits })
        } else {
            None
        }
    }

    /// The set with the bits of `bits` that stand for a flag.
    pub fn from_bits_truncate(bits: u32) -> (r: ODPIConnCloseMode)
        ensures
            r == Self::of(bits & Self::all_bits()),
            r.spec_bits() == bits & Self::all_bits(),
    {
        ODPIConnCloseMode { bits: bits & 0x3u32 }
    }

    /// The bits that are set.
    #[verifier::when_used_as_spec(spec_bits)]
    pub fn bits(&self) -> (r: u32)
        ensures
            r == self.spec_bits(),
    {
        self.bits
    }

    /// Whether no flag is set.
    pub fn is_empty(&self) -> (r: bool)
        ensures
            r == (self.spec_bits() == 0),
    {
        self.bits == 0
    }

    /// Whether every flag of `other` is set.
    #[verifier::when_used_as_spec(spec_contains)]
    pub fn contains(&self, other: ODPIConnCloseMode) -> (r: bool)
        ensures
            r == self.spec_contains(other),
    {
        self.bits & other.bits == other.bits
    }

    /// The set of the flags that are set in this set or in `other`.
    pub fn union(&self, other: ODPIConnCloseMode) -> (r: ODPIConnCloseMode)
        ensures
            r == Self::of(self.spec_bits() | other.spec_bits()),
            r.spec_bits() == self.spec_bits() | other.spec_bits(),
    {
        ODPIConnCloseMode { bits: self.bits | other.bits }
    }
}

/// Default mode.
pub const DPI_MODE_CREATE_DEFAULT: u32 = 0x0;

/// Several threads may use the native library at once.
pub const DPI_MODE_CREATE_THREADED: u32 = 0x1;

/// Events may be delivered, as subscriptions need it.
pub const DPI_MODE_CREATE_EVENTS: u32 = 0x4;

/// The modes in which the native library is set up for a connection or a pool.
#[derive(Clone, Copy, Debug, PartialEq, Eq, Hash, Structural)]
pub struct ODPICreateMode {
    bits: u32,
}

impl ODPICreateMode {
    /// The bits of all flags of this set together.
    pub open spec fn all_bits() -> u32 {
        0x5u32
    }

    /// The bits that are set.
    pub closed spec fn spec_bits(&self) -> u32 {
        self.bits
    }

    /// The set with the bits `bits`.
    pub closed spec fn of(bits: u32) -> ODPICreateMode {
        ODPICreateMode { bits }
    }

    /// Whether every flag of `other` is set.
    pub open spec fn spec_contains(&self, other: ODPICreateMode) -> bool {
        self.spec_bits() & other.spec_bits() == other.spec_bits()
    }

    /// The set that is made of bits has those bits.
    pub proof fn lemma_of(bits: u32)
        ensures
            Self::of(bits).spec_bits() == bits,
    {
    }

    /// The set without any flag.
    pub fn empty() -> (r: ODPICreateMode)
        ensures
            r == Self::of(0),
            r.spec_bits() == 0,
    {
        ODPICreateMode { bits: 0 }
    }

    /// The set with the bits `bits`, or `None` where a bit stands for no flag.
    pub fn from_bits(bits: u32) -> (r: Option<ODPICreateMode>)
        ensures
            bits & !Self::all_bits() == 0 ==> (r matches Some(f) && f == Self::of(bits)
                && f.spec_bits() == bits),
            bits & !Self::all_bits() != 0 ==> r is None,
    {
        if bits & !0x5u32 == 0 {
            Some(ODPICreateMode { bits })
        } else {
            None
        }
    }

    /// The set with the bits of `bits` that stand for a flag.
    pub fn from_bits_truncate(bits: u32) -> (r: ODPICreateMode)
        ensures
            r == Self::of(bits & Self::all_bits()),
            r.spec_bits() == bits & Self::all_bits(),
    {
        ODPICreateMode { bits: bits & 0x5u32 }
    }

    /// The bits that are set.
    #[verifier::when_used_as_spec(spec_bits)]
    pub fn bits(&self) -> (r: u32)
        ensures
            r == self.spec_bits(),
    {
        self.bits
    }

    /// Whether no flag is set.
    pub fn is_empty(&self) -> (r: bool)
        ensures
            r == (self.spec_bits() == 0),
    {
        self.bits == 0
    }

    /// Whether every flag of `other` is set.
    #[verifier::when_used_as_spec(spec_contains)]
    pub fn contains(&self, other: ODPICreateMode) -> (r: bool)
        ensures
            r == self.spec_contains(other),
    {
        self.bits & other.bits == other.bits
    }

    /// The set of the flags that are set in this set or in `other`.
    pub fn union(&self, other: ODPICreateMode) -> (r: ODPICreateMode)
        ensures
            r == Self::of(self.spec_bits() | other.spec_bits()),
            r.spec_bits() == self.spec_bits() | other.spec_bits(),
    {
        ODPICreateMode { bits: self.bits | other.bits }
    }
}

/// Default mode.
pub const DPI_MODE_EXEC_DEFAULT: u32 = 0x0;

/// Describe the statement without executing it.
pub const DPI_MODE_EXEC_DESCRIBE_ONLY: u32 = 0x10;

/// Commit when the statement has succeeded.
pub const DPI_MODE_EXEC_COMMIT_ON_SUCCESS: u32 = 0x20;

/// Go on after a failed iteration and collect the errors.
pub const DPI_MODE_EXEC_BATCH_ERRORS: u32 = 0x80;

/// Parse the statement without executing it.
pub const DPI_MODE_EXEC_PARSE_ONLY: u32 = 0x100;

/// Count the affected rows of each iteration.
pub const DPI_MODE_EXEC_ARRAY_DML_ROWCOUNTS: u32 = 0x100000;

/// The modes in which a statement is executed.
#[derive(Clone, Copy, Debug, PartialEq, Eq, Hash, Structural)]
pub struct ODPIExecMode {
    bits: u32,
}

impl ODPIExecMode {
    /// The bits of all flags of this set together.
    pub open spec fn all_bits() -> u32 {
        0x1001b0u32
    }

    /// The bits that are set.
    pub closed spec fn spec_bits(&self) -> u32 {
        self.bits
    }

    /// The set with the bits `bits`.
    pub closed spec fn of(bits: u32) -> ODPIExecMode {
        ODPIExecMode { bits }
    }

    /// Whether every flag of `other` is set.
    pub open spec fn spec_contains(&self, other: ODPIExecMode) -> bool {
        self.spec_bits() & other.spec_bits() == other.spec_bits()
    }

    /// The set that is made of bits has those bits.
    pub proof fn lemma_of(bits: u32)
        ensures
            Self::of(bits).spec_bits() == bits,
    {
    }

    /// The set without any flag.
    pub fn empty() -> (r: ODPIExecMode)
        ensures
            r == Self::of(0),
            r.spec_bits() == 0,
    {
        ODPIExecMode { bits: 0 }
    }

    /// The set with the bits `bits`, or `None` where a bit stands for no flag.
    pub fn from_bits(bits: u32) -> (r: Option<ODPIExecMode>)
        ensures
            bits & !Self::all_bits() == 0 ==> (r matches Some(f) && f == Self::of(bits)
                && f.spec_bits() == bits),
            bits & !Self::all_bits() != 0 ==> r is None,
    {
        if bits & !0x1001b0u32 == 0 {
            Some(ODPIExecMode { bits })
        } else {
            None
        }
    }

    /// The set with the bits of `bits` that stand for a flag.
    pub fn from_bits_truncate(bits: u32) -> (r: ODPIExecMode)
        ensures
            r == Self::of(bits & Self::all_bits()),
            r.spec_bits() == bits & Self::all_bits(),
    {
        ODPIExecMode { bits: bits & 0x1001b0u32 }
    }

    /// The bits that are set.
    #[verifier::when_used_as_spec(spec_bits)]
    pub fn bits(&self) -> (r: u32)
        ensures
            r == self.spec_bits(),
    {
        self.bits
    }

    /// Whether no flag is set.
    pub fn is_empty(&self) -> (r: bool)
        ensures
            r == (self.spec_bits() == 0),
    {
        self.bits == 0
    }

    /// Whether every flag of `other` is set.
    #[verifier::when_used_as_spec(spec_contains)]
    pub fn contains(&self, other: ODPIExecMode) -> (r: bool)
        ensures
            r == self.spec_contains(other),
    {
        self.bits & other.bits == other.bits
    }

    /// The set of the flags that are set in this set or in `other`.
    pub fn union(&self, other: ODPIExecMode) -> (r: ODPIExecMode)
        ensures
            r == Self::of(self.spec_bits() | other.spec_bits()),
            r.spec_bits() == self.spec_bits() | other.spec_bits(),
    {
        ODPIExecMode { bits: self.bits | other.bits }
    }
}

/// All operations.
pub const DPI_OPCODE_ALL_OPS: u32 = 0x0;

/// All rows were changed.
pub const DPI_OPCODE_ALL_ROWS: u32 = 0x1;

/// Rows were inserted.
pub const DPI_OPCODE_INSERT: u32 = 0x2;

/// Rows were updated.
pub const DPI_OPCODE_UPDATE: u32 = 0x4;

/// Rows were deleted.
pub const DPI_OPCODE_DELETE: u32 = 0x8;

/// A table was altered.
pub const DPI_OPCODE_ALTER: u32 = 0x10;

/// A table was dropped.
pub const DPI_OPCODE_DROP: u32 = 0x20;

/// An unknown operation took place.
pub const DPI_OPCODE_UNKNOWN: u32 = 0x40;

/// The operations that a subscription is told of.
#[derive(Clone, Copy, Debug, PartialEq, Eq, Hash, Structural)]
pub struct ODPIOpCode {
    bits: u32,
}

impl ODPIOpCode {
    /// The bits of all flags of this set together.
    pub open spec fn all_bits() -> u32 {
        0x7fu32
    }

    /// The bits that are set.
    pub closed spec fn spec_bits(&self) -> u32 {
        self.bits
    }

    /// The set with the bits `bits`.
    pub closed spec fn of(bits: u32) -> ODPIOpCode {
        ODPIOpCode { bits }
    }

    /// Whether every flag of `other` is set.
    pub open spec fn spec_contains(&self, other: ODPIOpCode) -> bool {
        self.spec_bits() & other.spec_bits() == other.spec_bits()
    }

    /// The set that is made of bits has those bits.
    pub proof fn lemma_of(bits: u32)
        ensures
            Self::of(bits).spec_bits() == bits,
    {
    }

    /// The set without any flag.
    pub fn empty() -> (r: ODPIOpCode)
        ensures
            r == Self::of(0),
            r.spec_bits() == 0,
    {
        ODPIOpCode { bits: 0 }
    }

    /// The set with the bits `bits`, or `None` where a bit stands for no flag.
    pub fn from_bits(bits: u32) -> (r: Option<ODPIOpCode>)
        ensures
            bits & !Self::all_bits() == 0 ==> (r matches Some(f) && f == Self::of(bits)
                && f.spec_bits() == bits),
            bits & !Self::all_bits() != 0 ==> r is None,
    {
        if bits & !0x7fu32 == 0 {
            Some(ODPIOpCode { bits })
        } else {
            None
        }
    }

    /// The set with the bits of `bits` that stand for a flag.
    pub fn from_bits_truncate(bits: u32) -> (r: ODPIOpCode)
        ensures
            r == Self::of(bits & Self::all_bits()),
            r.spec_bits() == bits & Self::all_bits(),
    {
        ODPIOpCode { bits: bits & 0x7fu32 }
    }

    /// The bits that are set.
    #[verifier::when_used_as_spec(spec_bits)]
    pub fn bits(&self) -> (r: u32)
        ensures
            r == self.spec_bits(),
    {
        self.bits
    }

    /// Whether no flag is set.
    pub fn is_empty(&self) -> (r: bool)
        ensures
            r == (self.spec_bits() == 0),
    {
        self.bits == 0
    }

    /// Whether every flag of `other` is set.
    #[verifier::when_used_as_spec(spec_contains)]
    pub fn contains(&self, other: ODPIOpCode) -> (r: bool)
        ensures
            r == self.spec_contains(other),
    {
        self.bits & other.bits == other.bits
    }

    /// The set of the flags that are set in this set or in `other`.
    pub fn union(&self, other: ODPIOpCode) -> (r: ODPIOpCode)
        ensures
            r == Self::of(self.spec_bits() | other.spec_bits()),
            r.spec_bits() == self.spec_bits() | other.spec_bits(),
    {
        ODPIOpCode { bits: self.bits | other.bits }
    }
}

/// Fail where sessions are busy.
pub const DPI_MODE_POOL_CLOSE_DEFAULT: u32 = 0x0;

/// Close busy sessions too.
pub const DPI_MODE_POOL_CLOSE_FORCE: u32 = 0x1;

/// What closing a pool does with its busy sessions.
#[derive(Clone, Copy, Debug, PartialEq, Eq, Hash, Structural)]
pub struct ODPIPoolCloseMode {
    bits: u32,
}

impl ODPIPoolCloseMode {
    /// The bits of all flags of this set together.
    pub open spec fn all_bits() -> u32 {
        0x1u32
    }

    /// The bits that are set.
    pub closed spec fn spec_bits(&self) -> u32 {
        self.bits
    }

    /// The set with the bits `bits`.
    pub closed spec fn of(bits: u32) -> ODPIPoolCloseMode {
        ODPIPoolCloseMode { bits }
    }

    /// Whether every flag of `other` is set.
    pub open spec fn spec_contains(&self, other: ODPIPoolCloseMode) -> bool {
        self.spec_bits() & other.spec_bits() == other.spec_bits()
    }

    /// The set that is made of bits has those bits.
    pub proof fn lemma_of(bits: u32)
        ensures
            Self::of(bits).spec_bits() == bits,
    {
    }

    /// The set without any flag.
    pub fn empty() -> (r: ODPIPoolCloseMode)
        ensures
            r == Self::of(0),
            r.spec_bits() == 0,
    {
        ODPIPoolCloseMode { bits: 0 }
    }

    /// The set with the bits `bits`, or `None` where a bit stands for no flag.
    pub fn from_bits(bits: u32) -> (r: Option<ODPIPoolCloseMode>)
        ensures
            bits & !Self::all_bits() == 0 ==> (r matches Some(f) && f == Self::of(bits)
                && f.spec_bits() == bits),
            bits & !Self::all_bits() != 0 ==> r is None,
    {
        if bits & !0x1u32 == 0 {
            Some(ODPIPoolCloseMode { bits })
        } else {
            None
        }
    }

    /// The set with the bits of `bits` that stand for a flag.
    pub fn from_bits_truncate(bits: u32) -> (r: ODPIPoolCloseMode)
        ensures
            r == Self::of(bits & Self::all_bits()),
            r.spec_bits() == bits & Self::all_bits(),
    {
        ODPIPoolCloseMode { bits: bits & 0x1u32 }
    }

    /// The bits that are set.
    #[verifier::when_used_as_spec(spec_bits)]
    pub fn bits(&self) -> (r: u32)
        ensures
            r == self.spec_bits(),
    {
        self.bits
    }

    /// Whether no flag is set.
    pub fn is_empty(&self) -> (r: bool)
        ensures
            r == (self.spec_bits() == 0),
    {
        self.bits == 0
    }

    /// Whether every flag of `other` is set.
    #[verifier::when_used_as_spec(spec_contains)]
    pub fn contains(&self, other: ODPIPoolCloseMode) -> (r: bool)
        ensures
            r == self.spec_contains(other),
    {
        self.bits & other.bits == other.bits
    }

    /// The set of the flags that are set in this set or in `other`.
    pub fn union(&self, other: ODPIPoolCloseMode) -> (r: ODPIPoolCloseMode)
        ensures
            r == Self::of(self.spec_bits() | other.spec_bits()),
            r.spec_bits() == self.spec_bits() | other.spec_bits(),
    {
        ODPIPoolCloseMode { bits: self.bits | other.bits }
    }
}

/// Default service.
pub const DPI_SUBSCR_QOS_NONE: u32 = 0x0;

/// Notifications survive a restart of the database.
pub const DPI_SUBSCR_QOS_RELIABLE: u32 = 0x1;

/// The subscription ends with its first notification.
pub const DPI_SUBSCR_QOS_DEREG_NFY: u32 = 0x2;

/// Notifications carry the identifiers of the changed rows.
pub const DPI_SUBSCR_QOS_ROWIDS: u32 = 0x4;

/// Notifications are raised by changes of a query's result.
pub const DPI_SUBSCR_QOS_QUERY: u32 = 0x8;

/// Notifications of query changes may be raised needlessly.
pub const DPI_SUBSCR_QOS_BEST_EFFORT: u32 = 0x10;

/// The quality of service of a subscription.
#[derive(Clone, Copy, Debug, PartialEq, Eq, Hash, Structural)]
pub struct ODPISubscrQOS {
    bits: u32,
}

impl ODPISubscrQOS {
    /// The bits of all flags of this set together.
    pub open spec fn all_bits() -> u32 {
        0x1fu32
    }

    /// The bits that are set.
    pub closed spec fn spec_bits(&self) -> u32 {
        self.bits
    }

    /// The set with the bits `bits`.
    pub closed spec fn of(bits: u32) -> ODPISubscrQOS {
        ODPISubscrQOS { bits }
    }

    /// Whether every flag of `other` is set.
    pub open spec fn spec_contains(&self, other: ODPISubscrQOS) -> bool {
        self.spec_bits() & other.spec_bits() == other.spec_bits()
    }

    /// The set that is made of bits has those bits.
    pub proof fn lemma_of(bits: u32)
        ensures
            Self::of(bits).spec_bits() == bits,
    {
    }

    /// The set without any flag.
    pub fn empty() -> (r: ODPISubscrQOS)
        ensures
            r == Self::of(0),
            r.spec_bits() == 0,
    {
        ODPISubscrQOS { bits: 0 }
    }

    /// The set with the bits `bits`, or `None` where a bit stands for no flag.
    pub fn from_bits(bits: u32) -> (r: Option<ODPISubscrQOS>)
        ensures
            bits & !Self::all_bits() == 0 ==> (r matches Some(f) && f == Self::of(bits)
                && f.spec_bits() == bits),
            bits & !Self::all_bits() != 0 ==> r is None,
    {
        if bits & !0x1fu32 == 0 {
            Some(ODPISubscrQOS { bits })
        } else {
            None
        }
    }

    /// The set with the bits of `bits` that stand for a flag.
    pub fn from_bits_truncate(bits: u32) -> (r: ODPISubscrQOS)
        ensures
            r == Self::of(bits & Self::all_bits()),
            r.spec_bits() == bits & Self::all_bits(),
    {
        ODPISubscrQOS { bits: bits & 0x1fu32 }
    }

    /// The bits that are set.
    #[verifier::when_used_as_spec(spec_bits)]
    pub fn bits(&self) -> (r: u32)
        ensures
            r == self.spec_bits(),
    {
        self.bits
    }

    /// Whether no flag is set.
    pub fn is_empty(&self) -> (r: bool)
        ensures
            r == (self.spec_bits() == 0),
    {
        self.bits == 0
    }

    /// Whether every flag of `other` is set.
    #[verifier::when_used_as_spec(spec_contains)]
    pub fn contains(&self, other: ODPISubscrQOS) -> (r: bool)
        ensures
            r == self.spec_contains(other),
    {
        self.bits & other.bits == other.bits
    }

    /// The set of the flags that are set in this set or in `other`.
    pub fn union(&self, other: ODPISubscrQOS) -> (r: ODPISubscrQOS)
        ensures
            r == Self::of(self.spec_bits() | other.spec_bits()),
            r.spec_bits() == self.spec_bits() | other.spec_bits(),
    {
        ODPISubscrQOS { bits: self.bits | other.bits }
    }
}

} // verus!
