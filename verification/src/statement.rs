//! Statements and their life cycle: prepared, bound, executed, fetched from, closed.
//!
//! A statement keeps on the client what the native library reported of it: its kind
//! and the names of its placeholders when it was prepared, the columns of a query when
//! it was executed, and the rows that were fetched last. Where an operation needs an
//! answer of the database, the answer is an argument of the operation.
use crate::data::Data;
use crate::enums::{ODPIFetchMode, ODPINativeTypeNum, ODPIStatementType};
use crate::error::{not_live, ErrorKind, Info as ErrorInfo, Operation, Reason};
use crate::flags::{
    ODPIExecMode, DPI_MODE_EXEC_BATCH_ERRORS, DPI_MODE_EXEC_DESCRIBE_ONLY,
    DPI_MODE_EXEC_PARSE_ONLY,
};
use crate::handle::HandleRef;
use crate::query::Info as QueryInfo;
use crate::structs::ODPIData;
use crate::util::same_text;
use crate::variable::Var;
use vstd::prelude::*;

verus! {

/// The number of rows that one fetch brings from the database, unless another number is
/// set.
pub const DEFAULT_FETCH_ARRAY_SIZE: u32 = 100;

/// What is known of a statement from the time it is prepared.
#[derive(Clone, Copy, Debug, PartialEq, Eq, Structural)]
pub struct Info {
    /// The kind of the statement.
    pub statement_type: ODPIStatementType,
    /// Whether the statement has a returning clause.
    pub is_returning: bool,
}

impl Info {
    /// Whether the statement is a query.
    pub open spec fn spec_is_query(&self) -> bool {
        self.statement_type == ODPIStatementType::Select
    }

    /// Whether the statement is a PL/SQL block or call.
    pub open spec fn spec_is_plsql(&self) -> bool {
        self.statement_type == ODPIStatementType::Begin || self.statement_type
            == ODPIStatementType::Declare || self.statement_type == ODPIStatementType::Call
    }

    /// Whether the statement defines data.
    pub open spec fn spec_is_ddl(&self) -> bool {
        self.statement_type == ODPIStatementType::Create || self.statement_type
            == ODPIStatementType::DropDdl || self.statement_type == ODPIStatementType::Alter
    }

    /// Whether the statement manipulates data.
    pub open spec fn spec_is_dml(&self) -> bool {
        self.statement_type == ODPIStatementType::Insert || self.statement_type
            == ODPIStatementType::Update || self.statement_type == ODPIStatementType::Delete
    }

    /// What is known of a statement of the kind `statement_type`.
    pub fn new(statement_type: ODPIStatementType, is_returning: bool) -> (r: Info)
        ensures
            r == (Info { statement_type, is_returning }),
    {
        Info { statement_type, is_returning }
    }

    /// Whether the statement is a query.
    #[verifier::when_used_as_spec(spec_is_query)]
    pub fn is_query(&self) -> (r: bool)
        ensures
            r == self.spec_is_query(),
    {
        self.statement_type == ODPIStatementType::Select
    }

    /// Whether the statement is a PL/SQL block or call.
    #[verifier::when_used_as_spec(spec_is_plsql)]
    pub fn is_plsql(&self) -> (r: bool)
        ensures
            r == self.spec_is_plsql(),
    {
        self.statement_type == ODPIStatementType::Begin || self.statement_type
            == ODPIStatementType::Declare || self.statement_type == ODPIStatementType::Call
    }

    /// Whether the statement defines data.
    #[verifier::when_used_as_spec(spec_is_ddl)]
    pub fn is_ddl(&self) -> (r: bool)
        ensures
            r == self.spec_is_ddl(),
    {
        self.statement_type == ODPIStatementType::Create || self.statement_type
            == ODPIStatementType::DropDdl || self.statement_type == ODPIStatementType::Alter
    }

    /// Whether the statement manipulates data.
    #[verifier::when_used_as_spec(spec_is_dml)]
    pub fn is_dml(&self) -> (r: bool)
        ensures
            r == self.spec_is_dml(),
    {
        self.statement_type == ODPIStatementType::Insert || self.statement_type
            == ODPIStatementType::Update || self.statement_type == ODPIStatementType::Delete
    }

    /// The kind of the statement. `is_query`, `is_plsql`, `is_ddl` and `is_dml` sort
    /// the kinds into groups.
    pub fn statement_type(&self) -> (r: ODPIStatementType)
        ensures
            r == self.statement_type,
    {
        self.statement_type
    }

    /// Whether the statement has a returning clause.
    pub fn is_returning(&self) -> (r: bool)
        ensures
            r == self.is_returning,
    {
        self.is_returning
    }
}

/// What the native library reports of a statement that it has prepared.
#[derive(Debug)]
pub struct Description {
    /// The native handle of the statement.
    pub handle: u64,
    /// The kind of the statement.
    pub statement_type: ODPIStatementType,
    /// Whether the statement has a returning clause.
    pub is_returning: bool,
    /// The names of the placeholders of the statement, each once, in the order in which
    /// they first occur.
    pub bind_names: Vec<String>,
}

/// What the native library reports of a statement that it has executed.
#[derive(Debug)]
pub struct ExecuteOutcome {
    /// The columns of a query; none for another statement.
    pub columns: Vec<QueryInfo>,
    /// The number of rows that the statement affected.
    pub row_count: u64,
}

/// What the native library reports of a statement that it has executed many times.
#[derive(Debug)]
pub struct BatchOutcome {
    /// The number of rows that the iterations affected.
    pub row_count: u64,
    /// The errors of the iterations that failed, where the mode asked for them.
    pub errors: Vec<ErrorInfo>,
}

/// The rows that one fetch has brought from the database.
#[derive(Debug)]
pub struct RowBatch {
    /// The rows, each with one cell for each column.
    pub rows: Vec<Vec<ODPIData>>,
    /// Whether the database has rows beyond these.
    pub more_rows: bool,
}

/// What is bound to a placeholder: a variable, or a single value that was wrapped in a
/// variable of one element.
#[derive(Clone, Copy, Debug, PartialEq, Eq, Structural)]
pub struct Binding {
    /// The native handle of the variable; zero for a single value.
    pub var: u64,
    /// The number of elements of the variable.
    pub max_array_size: u32,
}

/// What is bound to the placeholder at a position.
#[derive(Clone, Copy, Debug, PartialEq, Eq, Structural)]
pub struct PosBinding {
    /// The position, from one on.
    pub pos: u32,
    /// What is bound.
    pub binding: Binding,
}

/// What is bound to the placeholder of a name.
#[derive(Debug)]
pub struct NameBinding {
    /// The name.
    pub name: String,
    /// What is bound.
    pub binding: Binding,
}

/// The bindings of `binds` at other positions than `pos`, in their order.
pub open spec fn without_pos(binds: Seq<PosBinding>, pos: u32) -> Seq<PosBinding>
    decreases binds.len(),
{
    if binds.len() == 0 {
        binds
    } else if binds.last().pos != pos {
        without_pos(binds.drop_last(), pos).push(binds.last())
    } else {
        without_pos(binds.drop_last(), pos)
    }
}

/// What is bound to the placeholder of a name, as a mathematical value.
pub struct NamedBinding {
    /// The name.
    pub name: Seq<char>,
    /// What is bound.
    pub binding: Binding,
}

impl View for NameBinding {
    type V = NamedBinding;

    open spec fn view(&self) -> NamedBinding {
        NamedBinding { name: self.name@, binding: self.binding }
    }
}

/// The bindings of `binds` as mathematical values.
pub open spec fn names_view(binds: Seq<NameBinding>) -> Seq<NamedBinding> {
    Seq::new(binds.len(), |i: int| binds[i]@)
}

/// The bindings of `binds` under other names than `name`, in their order.
pub open spec fn without_name(binds: Seq<NamedBinding>, name: Seq<char>) -> Seq<NamedBinding>
    decreases binds.len(),
{
    if binds.len() == 0 {
        binds
    } else if binds.last().name != name {
        without_name(binds.drop_last(), name).push(binds.last())
    } else {
        without_name(binds.drop_last(), name)
    }
}

/// Whether no position occurs twice in `binds`.
pub open spec fn positions_distinct(binds: Seq<PosBinding>) -> bool {
    forall|i: int, j: int| 0 <= i < j < binds.len() ==> binds[i].pos != binds[j].pos
}

/// Whether no name occurs twice in `binds`.
pub open spec fn names_distinct(binds: Seq<NamedBinding>) -> bool {
    forall|i: int, j: int| 0 <= i < j < binds.len() ==> binds[i].name != binds[j].name
}

/// What is left of `binds` without the position `pos` holds that position nowhere,
/// holds nothing that `binds` did not hold, and holds no position twice where `binds`
/// did not.
pub proof fn lemma_without_pos(binds: Seq<PosBinding>, pos: u32)
    ensures
        forall|k: int|
            0 <= k < without_pos(binds, pos).len() ==> (#[trigger] without_pos(binds, pos)[k]).pos
                != pos && binds.contains(without_pos(binds, pos)[k]),
        positions_distinct(binds) ==> positions_distinct(without_pos(binds, pos)),
    decreases binds.len(),
{
    if binds.len() > 0 {
        let rest = binds.drop_last();
        let last = binds.last();
        lemma_without_pos(rest, pos);
        let kept = without_pos(rest, pos);
        assert forall|k: int| 0 <= k < kept.len() implies binds.contains(#[trigger] kept[k]) by {
            let j = choose|j: int| 0 <= j < rest.len() && rest[j] == kept[k];
            assert(binds[j] == kept[k]);
        }
        if last.pos != pos {
            assert(binds[binds.len() - 1] == last);
        }
        if positions_distinct(binds) {
            assert(positions_distinct(rest)) by {
                assert forall|i: int, j: int| 0 <= i < j < rest.len() implies rest[i].pos
                    != rest[j].pos by {
                    assert(binds[i].pos != binds[j].pos);
                }
            }
            if last.pos != pos {
                assert forall|k: int| 0 <= k < kept.len() implies (#[trigger] kept[k]).pos
                    != last.pos by {
                    let j = choose|j: int| 0 <= j < rest.len() && rest[j] == kept[k];
                    assert(binds[j].pos != binds[binds.len() - 1].pos);
                }
            }
        }
    }
}

/// What is left of `binds` without the name `name` holds that name nowhere, holds
/// nothing that `binds` did not hold, and holds no name twice where `binds` did not.
pub proof fn lemma_without_name(binds: Seq<NamedBinding>, name: Seq<char>)
    ensures
        forall|k: int|
            0 <= k < without_name(binds, name).len() ==> (
            #[trigger] without_name(binds, name)[k]).name != name && binds.contains(
                without_name(binds, name)[k],
            ),
        names_distinct(binds) ==> names_distinct(without_name(binds, name)),
    decreases binds.len(),
{
    if binds.len() > 0 {
        let rest = binds.drop_last();
        let last = binds.last();
        lemma_without_name(rest, name);
        let kept = without_name(rest, name);
        assert forall|k: int| 0 <= k < kept.len() implies binds.contains(#[trigger] kept[k]) by {
            let j = choose|j: int| 0 <= j < rest.len() && rest[j] == kept[k];
            assert(binds[j] == kept[k]);
        }
        if last.name != name {
            assert(binds[binds.len() - 1] == last);
        }
        if names_distinct(binds) {
            assert(names_distinct(rest)) by {
                assert forall|i: int, j: int| 0 <= i < j < rest.len() implies rest[i].name
                    != rest[j].name by {
                    assert(binds[i].name != binds[j].name);
                }
            }
            if last.name != name {
                assert forall|k: int| 0 <= k < kept.len() implies (#[trigger] kept[k]).name
                    != last.name by {
                    let j = choose|j: int| 0 <= j < rest.len() && rest[j] == kept[k];
                    assert(binds[j].name != binds[binds.len() - 1].name);
                }
            }
        }
    }
}

/// The sum of `count` and `n`, or the greatest count where the sum is beyond it.
pub open spec fn bumped(count: u64, n: nat) -> u64 {
    if count + n <= u64::MAX {
        (count + n) as u64
    } else {
        u64::MAX
    }
}

/// Whether every row of `rows` has `width` cells.
pub open spec fn rows_have_width(rows: Seq<Vec<ODPIData>>, width: nat) -> bool {
    forall|i: int| 0 <= i < rows.len() ==> (#[trigger] rows[i])@.len() == width
}

/// A statement as a mathematical value.
pub struct StatementView {
    /// The reference to the native statement.
    pub handle: HandleRef,
    /// Whether the statement was prepared with the ability to scroll.
    pub scrollable: bool,
    /// What is known of the statement from the time it was prepared.
    pub info: Info,
    /// The names of the placeholders.
    pub bind_names: Seq<String>,
    /// What is bound by position; no position occurs twice.
    pub binds_by_pos: Seq<PosBinding>,
    /// What is bound by name; no name occurs twice.
    pub binds_by_name: Seq<NamedBinding>,
    /// Whether the statement has been executed.
    pub executed: bool,
    /// The columns of the query.
    pub columns: Seq<QueryInfo>,
    /// The number of rows that one fetch brings.
    pub fetch_array_size: u32,
    /// The rows that the last fetch brought.
    pub rows: Seq<Vec<ODPIData>>,
    /// The place among `rows` of the first row that was not handed out.
    pub next_row: u32,
    /// The place among `rows` of the row that `get_query_value` reads.
    pub current: Option<u32>,
    /// Whether the database may have rows beyond `rows`.
    pub more_rows: bool,
    /// The number of rows that were affected, or fetched so far.
    pub row_count: u64,
    /// The errors of the last execution in batch-error mode.
    pub batch_errors: Seq<ErrorInfo>,
}

impl StatementView {
    /// The statement that is made of what the native library described, before
    /// anything is bound or executed.
    pub open spec fn prepared(
        inner: u64,
        scrollable: bool,
        info: Info,
        bind_names: Seq<String>,
    ) -> StatementView {
        StatementView {
            handle: HandleRef::minted(inner),
            scrollable,
            info,
            bind_names,
            binds_by_pos: Seq::empty(),
            binds_by_name: Seq::empty(),
            executed: false,
            columns: Seq::empty(),
            fetch_array_size: DEFAULT_FETCH_ARRAY_SIZE,
            rows: Seq::empty(),
            next_row: 0,
            current: None,
            more_rows: false,
            row_count: 0,
            batch_errors: Seq::empty(),
        }
    }

    /// The error with which every operation is refused on a statement that is not
    /// live.
    pub open spec fn use_error(self) -> Option<ErrorKind> {
        if !self.handle.spec_is_live() {
            Some(ErrorKind::InvalidArgument { reason: Reason::HandleNotLive })
        } else {
            None
        }
    }

    /// The error with which rows cannot be fetched, if there is one: the statement is
    /// not live, or was not executed, or is no query.
    pub open spec fn fetch_error(self) -> Option<ErrorKind> {
        if !self.handle.spec_is_live() {
            Some(ErrorKind::InvalidArgument { reason: Reason::HandleNotLive })
        } else if !self.executed {
            Some(ErrorKind::InvalidArgument { reason: Reason::NotExecuted })
        } else if !self.info.spec_is_query() {
            Some(ErrorKind::InvalidArgument { reason: Reason::NotAQuery })
        } else if self.rows.len() > u32::MAX {
            Some(ErrorKind::InvalidArgument { reason: Reason::InconsistentReply })
        } else {
            None
        }
    }

    /// Whether a row that was fetched has not been handed out yet.
    pub open spec fn has_buffered(self) -> bool {
        self.next_row < self.rows.len()
    }

    /// Whether `batch` can be the answer to a fetch: it has no more rows than one fetch
    /// brings, and every row has a cell for each column.
    pub open spec fn accepts(self, batch: RowBatch) -> bool {
        batch.rows@.len() <= self.fetch_array_size && rows_have_width(
            batch.rows@,
            self.columns.len(),
        )
    }

    /// The statement with the rows of `batch` in place of those that were fetched
    /// before, none of them handed out.
    pub open spec fn refilled(self, batch: RowBatch) -> StatementView {
        StatementView {
            rows: batch.rows@,
            next_row: 0,
            current: None,
            more_rows: batch.more_rows,
            ..self
        }
    }

    /// The statement and the result after `fetch`.
    pub open spec fn after_fetch(self, reply: Result<RowBatch, ErrorInfo>) -> (
        StatementView,
        Result<(bool, u32), ErrorKind>,
    ) {
        if let Some(e) = self.fetch_error() {
            (self, Err(e))
        } else if self.has_buffered() {
            self.handed_out(1)
        } else if !self.more_rows {
            (StatementView { current: None, ..self }, Ok((false, 0u32)))
        } else {
            match reply {
                Err(info) => (
                    self,
                    Err(ErrorKind::NativeCallFailed { operation: Operation::StmtFetch, info }),
                ),
                Ok(batch) => if !self.accepts(batch) {
                    (self, Err(ErrorKind::InvalidArgument { reason: Reason::InconsistentReply }))
                } else if batch.rows@.len() == 0 {
                    (
                        StatementView { more_rows: false, ..self.refilled(batch) },
                        Ok((false, 0u32)),
                    )
                } else {
                    self.refilled(batch).handed_out(1)
                },
            }
        }
    }

    /// The statement after the next `n` buffered rows were handed out, `n` at least one,
    /// and the place of the first of them.
    pub open spec fn handed_out(self, n: u32) -> (StatementView, Result<(bool, u32), ErrorKind>) {
        (
            StatementView {
                current: Some(self.next_row),
                next_row: (self.next_row + n) as u32,
                row_count: bumped(self.row_count, n as nat),
                ..self
            },
            Ok((true, self.next_row)),
        )
    }

    /// The number of buffered rows that `fetch_rows` hands out when asked for
    /// `max_rows`.
    pub open spec fn to_hand_out(self, max_rows: u32) -> u32 {
        if !self.has_buffered() {
            0
        } else if self.rows.len() - self.next_row < max_rows {
            (self.rows.len() - self.next_row) as u32
        } else {
            max_rows
        }
    }

    /// The statement and the result after `fetch_rows`, once the buffer holds what it
    /// is to hand out from.
    pub open spec fn rows_handed_out(self, max_rows: u32) -> (
        StatementView,
        Result<(u32, u32, bool), ErrorKind>,
    ) {
        let n = self.to_hand_out(max_rows);
        if n == 0 {
            (self, Ok((0u32, 0u32, self.has_buffered() || self.more_rows)))
        } else {
            (
                self.handed_out(n).0,
                Ok((self.next_row, n, self.next_row + n < self.rows.len() || self.more_rows)),
            )
        }
    }

    /// The statement and the result after `fetch_rows`.
    pub open spec fn after_fetch_rows(self, max_rows: u32, reply: Result<RowBatch, ErrorInfo>) -> (
        StatementView,
        Result<(u32, u32, bool), ErrorKind>,
    ) {
        if let Some(e) = self.fetch_error() {
            (self, Err(e))
        } else if self.has_buffered() || !self.more_rows {
            self.rows_handed_out(max_rows)
        } else {
            match reply {
                Err(info) => (
                    self,
                    Err(ErrorKind::NativeCallFailed { operation: Operation::StmtFetchRows, info }),
                ),
                Ok(batch) => if !self.accepts(batch) {
                    (self, Err(ErrorKind::InvalidArgument { reason: Reason::InconsistentReply }))
                } else {
                    self.refilled(batch).rows_handed_out(max_rows)
                },
            }
        }
    }

    /// Whether an execution in the mode `mode` leaves the statement executed: it does
    /// unless the mode asks for parsing or describing only.
    pub open spec fn really_executes(mode: ODPIExecMode) -> bool {
        mode.spec_bits() & (DPI_MODE_EXEC_PARSE_ONLY | DPI_MODE_EXEC_DESCRIBE_ONLY) == 0
    }

    /// Whether `outcome` can be the answer to the execution of this statement: a query
    /// has columns, another statement has none.
    pub open spec fn consistent(self, outcome: ExecuteOutcome) -> bool {
        outcome.columns@.len() <= u32::MAX && (self.info.spec_is_query() <==> outcome.columns@.len()
            >= 1)
    }

    /// The statement and the result after `execute`.
    pub open spec fn after_execute(
        self,
        mode: ODPIExecMode,
        reply: Result<ExecuteOutcome, ErrorInfo>,
    ) -> (StatementView, Result<u32, ErrorKind>) {
        if let Some(e) = self.use_error() {
            (self, Err(e))
        } else {
            match reply {
                Err(info) => (
                    self,
                    Err(ErrorKind::NativeCallFailed { operation: Operation::StmtExecute, info }),
                ),
                Ok(outcome) => if !self.consistent(outcome) {
                    (self, Err(ErrorKind::InvalidArgument { reason: Reason::InconsistentReply }))
                } else {
                    (
                        StatementView {
                            executed: Self::really_executes(mode),
                            columns: outcome.columns@,
                            rows: Seq::empty(),
                            next_row: 0,
                            current: None,
                            more_rows: self.info.spec_is_query(),
                            row_count: outcome.row_count,
                            batch_errors: Seq::empty(),
                            ..self
                        },
                        Ok(outcome.columns@.len() as u32),
                    )
                },
            }
        }
    }

    /// Whether every variable that is bound has at least `n` elements.
    pub open spec fn binds_hold(self, n: u32) -> bool {
        &&& forall|i: int|
            0 <= i < self.binds_by_pos.len() ==> (
            #[trigger] self.binds_by_pos[i]).binding.max_array_size >= n
        &&& forall|i: int|
            0 <= i < self.binds_by_name.len() ==> (
            #[trigger] self.binds_by_name[i]).binding.max_array_size >= n
    }

    /// The statement and the result after `execute_many`.
    pub open spec fn after_execute_many(
        self,
        mode: ODPIExecMode,
        num_iters: u32,
        reply: Result<BatchOutcome, ErrorInfo>,
    ) -> (StatementView, Result<(), ErrorKind>) {
        if let Some(e) = self.use_error() {
            (self, Err(e))
        } else if self.info.spec_is_query() {
            (self, Err(ErrorKind::InvalidArgument { reason: Reason::IsAQuery }))
        } else if !self.binds_hold(num_iters) {
            (self, Err(ErrorKind::InvalidArgument { reason: Reason::ArrayTooSmall }))
        } else {
            match reply {
                Err(info) => (
                    self,
                    Err(
                        ErrorKind::NativeCallFailed { operation: Operation::StmtExecuteMany, info },
                    ),
                ),
                Ok(outcome) => if outcome.errors@.len() > u32::MAX || (outcome.errors@.len() > 0
                    && mode.spec_bits() & DPI_MODE_EXEC_BATCH_ERRORS == 0) {
                    (self, Err(ErrorKind::InvalidArgument { reason: Reason::InconsistentReply }))
                } else {
                    (
                        StatementView {
                            executed: true,
                            columns: Seq::empty(),
                            rows: Seq::empty(),
                            next_row: 0,
                            current: None,
                            more_rows: false,
                            row_count: outcome.row_count,
                            batch_errors: outcome.errors@,
                            ..self
                        },
                        Ok(()),
                    )
                },
            }
        }
    }

    /// The statement and the result after `scroll`.
    pub open spec fn after_scroll(self, reply: Result<(), ErrorInfo>) -> (
        StatementView,
        Result<(), ErrorKind>,
    ) {
        if let Some(e) = self.fetch_error() {
            (self, Err(e))
        } else if !self.scrollable {
            (self, Err(ErrorKind::InvalidArgument { reason: Reason::NotScrollable }))
        } else {
            match reply {
                Err(info) => (
                    self,
                    Err(ErrorKind::NativeCallFailed { operation: Operation::StmtScroll, info }),
                ),
                Ok(_) => (
                    StatementView {
                        rows: Seq::empty(),
                        next_row: 0,
                        current: None,
                        more_rows: true,
                        ..self
                    },
                    Ok(()),
                ),
            }
        }
    }

    /// The statement and the result after a binding by position.
    pub open spec fn after_bind_pos(self, pos: u32, binding: Binding, bindable: bool) -> (
        StatementView,
        Result<(), ErrorKind>,
    ) {
        if let Some(e) = self.use_error() {
            (self, Err(e))
        } else if pos == 0 {
            (self, Err(ErrorKind::InvalidArgument { reason: Reason::IndexOutOfRange }))
        } else if !bindable {
            (self, Err(ErrorKind::InvalidArgument { reason: Reason::HandleNotLive }))
        } else {
            (
                StatementView {
                    binds_by_pos: without_pos(self.binds_by_pos, pos).push(
                        PosBinding { pos, binding },
                    ),
                    ..self
                },
                Ok(()),
            )
        }
    }

    /// The statement and the result after a binding by name.
    pub open spec fn after_bind_name(self, name: Seq<char>, binding: Binding, bindable: bool) -> (
        StatementView,
        Result<(), ErrorKind>,
    ) {
        if let Some(e) = self.use_error() {
            (self, Err(e))
        } else if !bindable {
            (self, Err(ErrorKind::InvalidArgument { reason: Reason::HandleNotLive }))
        } else {
            (
                StatementView {
                    binds_by_name: without_name(self.binds_by_name, name).push(
                        NamedBinding { name, binding },
                    ),
                    ..self
                },
                Ok(()),
            )
        }
    }

    /// The result of `get_query_value`, but for the cell itself.
    pub open spec fn value_error(self, pos: u32) -> Option<ErrorKind> {
        if let Some(e) = self.fetch_error() {
            Some(e)
        } else if self.current is None {
            Some(ErrorKind::InvalidArgument { reason: Reason::NoSuchElement })
        } else if pos == 0 || pos > self.columns.len() {
            Some(ErrorKind::InvalidArgument { reason: Reason::IndexOutOfRange })
        } else if self.current->0 >= self.rows.len()
            || pos > self.rows[self.current->0 as int]@.len() {
            Some(ErrorKind::InvalidArgument { reason: Reason::InconsistentReply })
        } else {
            None
        }
    }

    /// What holds of the rows of every statement that the library has made: they are
    /// no more than 32 bits can count, each has a cell for each column, and the row that
    /// is read is one of them.
    pub open spec fn rows_wf(self) -> bool {
        &&& self.rows.len() <= u32::MAX
        &&& self.next_row <= self.rows.len()
        &&& rows_have_width(self.rows, self.columns.len())
        &&& (self.current matches Some(c) ==> c < self.rows.len())
    }

    /// What holds of every statement that the library has made: its rows are as
    /// `rows_wf` says, and no placeholder is bound twice.
    pub open spec fn wf(self) -> bool {
        &&& self.rows_wf()
        &&& positions_distinct(self.binds_by_pos)
        &&& names_distinct(self.binds_by_name)
    }
}

/// A statement.
#[derive(Debug)]
pub struct Statement {
    handle: HandleRef,
    scrollable: bool,
    info: Info,
    bind_names: Vec<String>,
    binds_by_pos: Vec<PosBinding>,
    binds_by_name: Vec<NameBinding>,
    executed: bool,
    columns: Vec<QueryInfo>,
    fetch_array_size: u32,
    rows: Vec<Vec<ODPIData>>,
    next_row: u32,
    current: Option<u32>,
    more_rows: bool,
    row_count: u64,
    batch_errors: Vec<ErrorInfo>,
}

impl View for Statement {
    type V = StatementView;

    closed spec fn view(&self) -> StatementView {
        StatementView {
            handle: self.handle,
            scrollable: self.scrollable,
            info: self.info,
            bind_names: self.bind_names@,
            binds_by_pos: self.binds_by_pos@,
            binds_by_name: names_view(self.binds_by_name@),
            executed: self.executed,
            columns: self.columns@,
            fetch_array_size: self.fetch_array_size,
            rows: self.rows@,
            next_row: self.next_row,
            current: self.current,
            more_rows: self.more_rows,
            row_count: self.row_count,
            batch_errors: self.batch_errors@,
        }
    }
}

/// The bindings of `binds` at other positions than `pos`.
fn remove_pos(binds: &Vec<PosBinding>, pos: u32) -> (r: Vec<PosBinding>)
    ensures
        r@ == without_pos(binds@, pos),
{
    let mut out: Vec<PosBinding> = Vec::new();
    let mut i: usize = 0;
    while i < binds.len()
        invariant
            i <= binds.len(),
            out@ == without_pos(binds@.take(i as int), pos),
        decreases binds.len() - i,
    {
        assert(binds@.take(i + 1).drop_last() =~= binds@.take(i as int));
        if binds[i].pos != pos {
            out.push(binds[i]);
        }
        i = i + 1;
    }
    assert(binds@.take(binds@.len() as int) =~= binds@);
    out
}

/// The bindings of `binds` under other names than `name`.
fn remove_name(binds: &Vec<NameBinding>, name: &str) -> (r: Vec<NameBinding>)
    ensures
        names_view(r@) == without_name(names_view(binds@), name@),
{
    let mut out: Vec<NameBinding> = Vec::new();
    let mut i: usize = 0;
    assert(names_view(out@) =~= without_name(names_view(binds@).take(0), name@));
    while i < binds.len()
        invariant
            i <= binds.len(),
            names_view(out@) == without_name(names_view(binds@).take(i as int), name@),
        decreases binds.len() - i,
    {
        let ghost before = names_view(out@);
        assert(names_view(binds@).take(i + 1).drop_last() =~= names_view(binds@).take(i as int));
        if !same_text(&binds[i].name, name) {
            out.push(NameBinding { name: binds[i].name.clone(), binding: binds[i].binding });
            assert(names_view(out@) =~= before.push(names_view(binds@)[i as int]));
        }
        i = i + 1;
    }
    assert(names_view(binds@).take(binds@.len() as int) =~= names_view(binds@));
    out
}

impl Statement {
    /// The statement for the native handle `inner`, of which nothing else is known: it
    /// has no kind and no placeholders, and cannot scroll.
    pub fn new(inner: u64) -> (s: Statement)
        ensures
            s@ == StatementView::prepared(
                inner,
                false,
                Info { statement_type: ODPIStatementType::NotSet, is_returning: false },
                Seq::empty(),
            ),
            s@.wf(),
            inner != 0 ==> s@.handle.spec_is_live(),
    {
        let s = Statement {
            handle: HandleRef::new(inner),
            scrollable: false,
            info: Info::new(ODPIStatementType::NotSet, false),
            bind_names: Vec::new(),
            binds_by_pos: Vec::new(),
            binds_by_name: Vec::new(),
            executed: false,
            columns: Vec::new(),
            fetch_array_size: DEFAULT_FETCH_ARRAY_SIZE,
            rows: Vec::new(),
            next_row: 0,
            current: None,
            more_rows: false,
            row_count: 0,
            batch_errors: Vec::new(),
        };
        assert(s@.binds_by_name =~= Seq::empty());
        s
    }

    /// The statement that the native library has prepared and described. A null handle
    /// is refused.
    pub fn prepare(description: Description, scrollable: bool) -> (r: Result<Statement, ErrorKind>)
        ensures
            description.handle == 0 ==> r matches Err(
                ErrorKind::InvalidArgument { reason: Reason::NullHandle },
            ),
            description.handle != 0 ==> (r matches Ok(s) && s@ == StatementView::prepared(
                description.handle,
                scrollable,
                Info {
                    statement_type: description.statement_type,
                    is_returning: description.is_returning,
                },
                description.bind_names@,
            ) && s@.wf() && s@.handle.spec_is_live()),
    {
        if description.handle == 0 {
            return Err(ErrorKind::InvalidArgument { reason: Reason::NullHandle });
        }
        let s = Statement {
            handle: HandleRef::new(description.handle),
            scrollable,
            info: Info::new(description.statement_type, description.is_returning),
            bind_names: description.bind_names,
            binds_by_pos: Vec::new(),
            binds_by_name: Vec::new(),
            executed: false,
            columns: Vec::new(),
            fetch_array_size: DEFAULT_FETCH_ARRAY_SIZE,
            rows: Vec::new(),
            next_row: 0,
            current: None,
            more_rows: false,
            row_count: 0,
            batch_errors: Vec::new(),
        };
        assert(s@.binds_by_name =~= Seq::empty());
        Ok(s)
    }

    /// Whether the statement can be used: a native handle is bound, no close has ended the
    /// use, and a reference is held.
    pub fn is_live(&self) -> (r: bool)
        ensures
            r == self@.handle.spec_is_live(),
    {
        self.handle.is_live()
    }

    /// The native handle of the statement.
    pub fn inner(&self) -> (r: u64)
        ensures
            r == self@.handle.spec_inner(),
    {
        self.handle.inner()
    }

    /// Adds a reference to the statement. `reply` is the answer of the native library.
    /// Refused are, in this order, a reference to what is not live, a count that cannot
    /// grow, and a call that failed.
    pub fn add_ref(&mut self, reply: Result<(), ErrorInfo>) -> (r: Result<(), ErrorKind>)
        ensures
            (final(self)@.handle, r) == old(self)@.handle.after_add_ref(
                Operation::StmtAddRef,
                reply,
            ),
            final(self)@ == (StatementView { handle: final(self)@.handle, ..old(self)@ }),
    {
        self.handle.add_ref(Operation::StmtAddRef, reply)
    }

    /// Releases a reference to the statement. `reply` is the answer of the native library.
    /// With the last release the use of the statement ends: nothing is accepted any more, a
    /// further release included. Refused are a release where no reference is held, and a
    /// call that failed.
    pub fn release(&mut self, reply: Result<(), ErrorInfo>) -> (r: Result<(), ErrorKind>)
        ensures
            (final(self)@.handle, r) == old(self)@.handle.after_release(
                Operation::StmtRelease,
                reply,
            ),
            final(self)@ == (StatementView { handle: final(self)@.handle, ..old(self)@ }),
    {
        self.handle.release(Operation::StmtRelease, reply)
    }

    /// Closes the statement at once, whatever the count of its references. Nothing
    /// but the release of those references is accepted afterwards. `tag` is the key
    /// under which the native library keeps the statement in its cache; it changes
    /// nothing here. `reply` is the answer of the native library. Refused are a
    /// statement that is not live, and a call that failed.
    pub fn close(&mut self, tag: Option<&str>, reply: Result<(), ErrorInfo>) -> (r: Result<
        (),
        ErrorKind,
    >)
        ensures
            (final(self)@.handle, r) == old(self)@.handle.after_close(
                Operation::StmtClose,
                reply,
            ),
            final(self)@ == (StatementView { handle: final(self)@.handle, ..old(self)@ }),
            r is Ok ==> !final(self)@.handle.spec_is_live(),
    {
        self.handle.close(Operation::StmtClose, reply)
    }

    /// Binds the variable `var` to the placeholder at `pos`, in place of what was bound
    /// there. Positions count from one. Refused are, in this order, a statement that is
    /// not live, the position zero, and a variable that is not live.
    pub fn bind_by_pos(&mut self, pos: u32, var: &Var) -> (r: Result<(), ErrorKind>)
        ensures
            (final(self)@, r) == old(self)@.after_bind_pos(
                pos,
                Binding { var: var@.handle.spec_inner(), max_array_size: var@.array_size() },
                var@.handle.spec_is_live(),
            ),
            old(self)@.wf() ==> final(self)@.wf(),
    {
        let binding = Binding { var: var.inner(), max_array_size: var.max_array_size() };
        let bindable = var.handle().is_live();
        self.bind_pos(pos, binding, bindable)
    }

    /// Binds the variable `var` to the placeholder `name`, in place of what was bound
    /// to it. Refused are a statement that is not live, and a variable that is not
    /// live.
    pub fn bind_by_name(&mut self, name: &str, var: &Var) -> (r: Result<(), ErrorKind>)
        ensures
            (final(self)@, r) == old(self)@.after_bind_name(
                name@,
                Binding { var: var@.handle.spec_inner(), max_array_size: var@.array_size() },
                var@.handle.spec_is_live(),
            ),
            old(self)@.wf() ==> final(self)@.wf(),
    {
        let binding = Binding { var: var.inner(), max_array_size: var.max_array_size() };
        let bindable = var.handle().is_live();
        self.bind_name(name, binding, bindable)
    }

    /// Binds the single value `data`, wrapped in a variable of one element, to the
    /// placeholder at `pos`, in place of what was bound there. Refused are, in this
    /// order, a statement that is not live, the position zero, and a value of another
    /// representation than `native_type`.
    pub fn bind_value_by_pos(
        &mut self,
        pos: u32,
        native_type: ODPINativeTypeNum,
        data: &Data,
    ) -> (r:
        Result<(), ErrorKind>)
        ensures
            data@.value.native_type() == native_type || old(self)@.use_error() is Some || pos == 0
                ==> (final(self)@, r) == old(self)@.after_bind_pos(
                pos,
                Binding { var: 0, max_array_size: 1 },
                true,
            ),
            data@.value.native_type() != native_type && old(self)@.use_error() is None && pos != 0
                ==> r == Err::<(), ErrorKind>(ErrorKind::UncheckedVariantAccess) && final(self)@
                == old(self)@,
            old(self)@.wf() ==> final(self)@.wf(),
    {
        if self.handle.is_live() && pos != 0 && data.native_type() != native_type {
            return Err(ErrorKind::UncheckedVariantAccess);
        }
        self.bind_pos(pos, Binding { var: 0, max_array_size: 1 }, true)
    }

    /// Binds the single value `data`, wrapped in a variable of one element, to the
    /// placeholder `name`, in place of what was bound to it. Refused are a statement
    /// that is not live, and a value of another representation than `native_type`.
    pub fn bind_value_by_name(
        &mut self,
        name: &str,
        native_type: ODPINativeTypeNum,
        data: &Data,
    ) -> (r:
        Result<(), ErrorKind>)
        ensures
            data@.value.native_type() == native_type || old(self)@.use_error() is Some ==> (
            final(self)@,
            r,
        ) == old(self)@.after_bind_name(name@, Binding { var: 0, max_array_size: 1 }, true),
            data@.value.native_type() != native_type && old(self)@.use_error() is None ==> r
                == Err::<(), ErrorKind>(ErrorKind::UncheckedVariantAccess) && final(self)@
                == old(self)@,
            old(self)@.wf() ==> final(self)@.wf(),
    {
        if self.handle.is_live() && data.native_type() != native_type {
            return Err(ErrorKind::UncheckedVariantAccess);
        }
        self.bind_name(name, Binding { var: 0, max_array_size: 1 }, true)
    }

    /// What is bound to the placeholder at `pos`, if anything is.
    pub fn bound_at(&self, pos: u32) -> (r: Option<Binding>)
        ensures
            r matches Some(b) ==> self@.binds_by_pos.contains(PosBinding { pos, binding: b }),
            r is None ==> forall|i: int|
                0 <= i < self@.binds_by_pos.len() ==> (#[trigger] self@.binds_by_pos[i]).pos
                    != pos,
    {
        let mut i: usize = 0;
        while i < self.binds_by_pos.len()
            invariant
                i <= self.binds_by_pos.len(),
                forall|k: int| 0 <= k < i ==> (#[trigger] self.binds_by_pos@[k]).pos != pos,
            decreases self.binds_by_pos.len() - i,
        {
            if self.binds_by_pos[i].pos == pos {
                assert(self@.binds_by_pos[i as int] == (PosBinding {
                    pos,
                    binding: self.binds_by_pos@[i as int].binding,
                }));
                return Some(self.binds_by_pos[i].binding);
            }
            i = i + 1;
        }
        None
    }

    /// What is bound to the placeholder `name`, if anything is.
    pub fn bound_as(&self, name: &str) -> (r: Option<Binding>)
        ensures
            r matches Some(b) ==> self@.binds_by_name.contains(
                NamedBinding { name: name@, binding: b },
            ),
            r is None ==> forall|i: int|
                0 <= i < self@.binds_by_name.len() ==> (#[trigger] self@.binds_by_name[i]).name
                    != name@,
    {
        let mut i: usize = 0;
        while i < self.binds_by_name.len()
            invariant
                i <= self.binds_by_name.len(),
                forall|k: int|
                    0 <= k < i ==> (#[trigger] names_view(self.binds_by_name@)[k]).name != name@,
            decreases self.binds_by_name.len() - i,
        {
            if same_text(&self.binds_by_name[i].name, name) {
                assert(self@.binds_by_name[i as int] == (NamedBinding {
                    name: name@,
                    binding: self.binds_by_name@[i as int].binding,
                }));
                return Some(self.binds_by_name[i].binding);
            }
            assert(names_view(self.binds_by_name@)[i as int].name != name@);
            i = i + 1;
        }
        None
    }

    fn bind_pos(&mut self, pos: u32, binding: Binding, bindable: bool) -> (r: Result<
        (),
        ErrorKind,
    >)
        ensures
            (final(self)@, r) == old(self)@.after_bind_pos(pos, binding, bindable),
            old(self)@.wf() ==> final(self)@.wf(),
    {
        if !self.handle.is_live() {
            return Err(ErrorKind::InvalidArgument { reason: Reason::HandleNotLive });
        }
        if pos == 0 {
            return Err(ErrorKind::InvalidArgument { reason: Reason::IndexOutOfRange });
        }
        if !bindable {
            return Err(ErrorKind::InvalidArgument { reason: Reason::HandleNotLive });
        }
        let mut binds = remove_pos(&self.binds_by_pos, pos);
        proof {
            lemma_without_pos(self.binds_by_pos@, pos);
        }
        binds.push(PosBinding { pos, binding });
        self.binds_by_pos = binds;
        Ok(())
    }

    fn bind_name(&mut self, name: &str, binding: Binding, bindable: bool) -> (r: Result<
        (),
        ErrorKind,
    >)
        ensures
            (final(self)@, r) == old(self)@.after_bind_name(name@, binding, bindable),
            old(self)@.wf() ==> final(self)@.wf(),
    {
        if !self.handle.is_live() {
            return Err(ErrorKind::InvalidArgument { reason: Reason::HandleNotLive });
        }
        if !bindable {
            return Err(ErrorKind::InvalidArgument { reason: Reason::HandleNotLive });
        }
        let mut binds = remove_name(&self.binds_by_name, name);
        let ghost kept = names_view(binds@);
        proof {
            lemma_without_name(names_view(self.binds_by_name@), name@);
        }
        binds.push(NameBinding { name: name.to_owned(), binding });
        assert(names_view(binds@) =~= kept.push(NamedBinding { name: name@, binding }));
        self.binds_by_name = binds;
        Ok(())
    }

    /// Executes the statement in the mode `mode`. `reply` is the answer of the native
    /// library: the columns of a query and the number of affected rows, or its report
    /// of the failure. The result is the number of columns: at least one for a query,
    /// none for any other statement. An answer that has columns for another statement
    /// than a query, or none for a query, is refused.
    ///
    /// With the execution the rows of an earlier one are gone. The statement counts as
    /// executed unless the mode asks for parsing or describing only.
    pub fn execute(&mut self, mode: ODPIExecMode, reply: Result<ExecuteOutcome, ErrorInfo>) -> (r:
        Result<u32, ErrorKind>)
        ensures
            (final(self)@, r) == old(self)@.after_execute(mode, reply),
            r matches Ok(n) ==> (old(self)@.info.spec_is_query() ==> n >= 1) && (!old(
                self,
            )@.info.spec_is_query() ==> n == 0),
            r is Ok ==> final(self)@.rows_wf(),
            old(self)@.wf() ==> final(self)@.wf(),
    {
        if !self.handle.is_live() {
            return Err(ErrorKind::InvalidArgument { reason: Reason::HandleNotLive });
        }
        match reply {
            Err(info) => Err(
                ErrorKind::NativeCallFailed { operation: Operation::StmtExecute, info },
            ),
            Ok(outcome) => {
                let n = outcome.columns.len();
                if n > u32::MAX as usize || self.info.is_query() != (n >= 1) {
                    return Err(ErrorKind::InvalidArgument { reason: Reason::InconsistentReply });
                }
                self.executed = mode.bits() & (DPI_MODE_EXEC_PARSE_ONLY
                    | DPI_MODE_EXEC_DESCRIBE_ONLY) == 0;
                self.columns = outcome.columns;
                self.rows = Vec::new();
                self.next_row = 0;
                self.current = None;
                self.more_rows = self.info.is_query();
                self.row_count = outcome.row_count;
                self.batch_errors = Vec::new();
                Ok(n as u32)
            },
        }
    }

    /// Whether every variable that is bound has at least `n` elements.
    fn binds_hold(&self, n: u32) -> (r: bool)
        ensures
            r == self@.binds_hold(n),
    {
        let mut i: usize = 0;
        while i < self.binds_by_pos.len()
            invariant
                i <= self.binds_by_pos.len(),
                forall|k: int|
                    0 <= k < i ==> (#[trigger] self.binds_by_pos@[k]).binding.max_array_size >= n,
            decreases self.binds_by_pos.len() - i,
        {
            if self.binds_by_pos[i].binding.max_array_size < n {
                assert(self@.binds_by_pos[i as int].binding.max_array_size < n);
                return false;
            }
            i = i + 1;
        }
        let mut j: usize = 0;
        while j < self.binds_by_name.len()
            invariant
                j <= self.binds_by_name.len(),
                forall|k: int|
                    0 <= k < self.binds_by_pos.len() ==> (
                    #[trigger] self.binds_by_pos@[k]).binding.max_array_size >= n,
                forall|k: int|
                    0 <= k < j ==> (#[trigger] self.binds_by_name@[k]).binding.max_array_size >= n,
            decreases self.binds_by_name.len() - j,
        {
            if self.binds_by_name[j].binding.max_array_size < n {
                assert(self@.binds_by_name[j as int].binding.max_array_size < n);
                return false;
            }
            j = j + 1;
        }
        true
    }

    /// Executes the statement `num_iters` times, once for each of the first `num_iters`
    /// elements of the bound variables. `reply` is the answer of the native library.
    /// Refused are, in this order, a statement that is not live, a query, a bound
    /// variable with fewer than `num_iters` elements, a call that failed, and an answer
    /// with errors of single iterations where the mode did not ask for them.
    ///
    /// Where the mode asks for batch errors, iterations that failed do not fail the
    /// call: their errors are kept for `get_batch_errors`.
    pub fn execute_many(
        &mut self,
        mode: ODPIExecMode,
        num_iters: u32,
        reply: Result<BatchOutcome, ErrorInfo>,
    ) -> (r: Result<(), ErrorKind>)
        ensures
            (final(self)@, r) == old(self)@.after_execute_many(mode, num_iters, reply),
            old(self)@.wf() ==> final(self)@.wf(),
    {
        if !self.handle.is_live() {
            return Err(ErrorKind::InvalidArgument { reason: Reason::HandleNotLive });
        }
        if self.info.is_query() {
            return Err(ErrorKind::InvalidArgument { reason: Reason::IsAQuery });
        }
        if !self.binds_hold(num_iters) {
            return Err(ErrorKind::InvalidArgument { reason: Reason::ArrayTooSmall });
        }
        match reply {
            Err(info) => Err(
                ErrorKind::NativeCallFailed { operation: Operation::StmtExecuteMany, info },
            ),
            Ok(outcome) => {
                let n = outcome.errors.len();
                if n > u32::MAX as usize || (n > 0 && mode.bits() & DPI_MODE_EXEC_BATCH_ERRORS
                    == 0) {
                    return Err(ErrorKind::InvalidArgument { reason: Reason::InconsistentReply });
                }
                self.executed = true;
                self.columns = Vec::new();
                self.rows = Vec::new();
                self.next_row = 0;
                self.current = None;
                self.more_rows = false;
                self.row_count = outcome.row_count;
                self.batch_errors = outcome.errors;
                Ok(())
            },
        }
    }

    fn check_fetch(&self) -> (r: Result<(), ErrorKind>)
        ensures
            self@.fetch_error() matches Some(e) ==> r == Err::<(), ErrorKind>(e),
            self@.fetch_error() is None ==> r == Ok::<(), ErrorKind>(()),
    {
        if !self.handle.is_live() {
            Err(ErrorKind::InvalidArgument { reason: Reason::HandleNotLive })
        } else if !self.executed {
            Err(ErrorKind::InvalidArgument { reason: Reason::NotExecuted })
        } else if !self.info.is_query() {
            Err(ErrorKind::InvalidArgument { reason: Reason::NotAQuery })
        } else if self.rows.len() > u32::MAX as usize {
            Err(ErrorKind::InvalidArgument { reason: Reason::InconsistentReply })
        } else {
            Ok(())
        }
    }

    fn accepts(&self, batch: &RowBatch) -> (r: bool)
        ensures
            r == self@.accepts(*batch),
    {
        if batch.rows.len() > self.fetch_array_size as usize {
            return false;
        }
        let mut i: usize = 0;
        while i < batch.rows.len()
            invariant
                i <= batch.rows.len(),
                forall|k: int|
                    0 <= k < i ==> (#[trigger] batch.rows@[k])@.len() == self.columns@.len(),
            decreases batch.rows.len() - i,
        {
            if batch.rows[i].len() != self.columns.len() {
                return false;
            }
            i = i + 1;
        }
        true
    }

    fn refill(&mut self, batch: RowBatch)
        ensures
            final(self)@ == old(self)@.refilled(batch),
    {
        self.rows = batch.rows;
        self.next_row = 0;
        self.current = None;
        self.more_rows = batch.more_rows;
    }

    fn hand_out(&mut self, n: u32) -> (first: u32)
        requires
            old(self).next_row + n <= old(self).rows@.len() <= u32::MAX,
        ensures
            (final(self)@, Ok::<(bool, u32), ErrorKind>((true, first))) == old(self)@.handed_out(n),
    {
        let first = self.next_row;
        self.current = Some(first);
        self.next_row = first + n;
        self.row_count = if self.row_count <= u64::MAX - n as u64 {
            self.row_count + n as u64
        } else {
            u64::MAX
        };
        first
    }

    /// Moves to the next row of the query. The result says whether there was one, and
    /// at which place among the fetched rows it stands. A row that an earlier fetch has
    /// brought is taken first; only where none is left, and the database may have more,
    /// `reply` is looked at: the rows that the native library has fetched, or its
    /// report of the failure.
    ///
    /// Refused are, in this order, a statement that is not live, one that was not
    /// executed, one that is no query, and, where `reply` is looked at, a call that
    /// failed and rows that do not fit the columns or the number of rows of one fetch.
    pub fn fetch(
        &mut self,
        reply: Result<RowBatch, ErrorInfo>,
    ) -> (r: Result<(bool, u32), ErrorKind>)
        ensures
            (final(self)@, r) == old(self)@.after_fetch(reply),
            old(self)@.wf() ==> final(self)@.wf(),
    {
        match self.check_fetch() {
            Err(e) => {
                return Err(e);
            },
            Ok(()) => {},
        }
        if (self.next_row as usize) < self.rows.len() {
            let first = self.hand_out(1);
            return Ok((true, first));
        }
        if !self.more_rows {
            self.current = None;
            return Ok((false, 0));
        }
        match reply {
            Err(info) => Err(ErrorKind::NativeCallFailed { operation: Operation::StmtFetch, info }),
            Ok(batch) => {
                if !self.accepts(&batch) {
                    return Err(ErrorKind::InvalidArgument { reason: Reason::InconsistentReply });
                }
                let empty = batch.rows.len() == 0;
                self.refill(batch);
                if empty {
                    self.more_rows = false;
                    Ok((false, 0))
                } else {
                    let first = self.hand_out(1);
                    Ok((true, first))
                }
            },
        }
    }

    fn hand_out_rows(&mut self, max_rows: u32) -> (r: (u32, u32, bool))
        requires
            old(self).rows@.len() <= u32::MAX,
        ensures
            (final(self)@, Ok::<(u32, u32, bool), ErrorKind>(r)) == old(self)@.rows_handed_out(
                max_rows,
            ),
    {
        let buffered = (self.next_row as usize) < self.rows.len();
        let n: u32 = if !buffered {
            0
        } else if self.rows.len() - (self.next_row as usize) < max_rows as usize {
            (self.rows.len() - self.next_row as usize) as u32
        } else {
            max_rows
        };
        if n == 0 {
            (0, 0, buffered || self.more_rows)
        } else {
            let first = self.hand_out(n);
            (first, n, (self.next_row as usize) < self.rows.len() || self.more_rows)
        }
    }

    /// Hands out up to `max_rows` of the rows of the query. The result is the place
    /// among the fetched rows of the first row handed out, the number of rows handed
    /// out, and whether more rows may follow. Rows that an earlier fetch has brought
    /// are taken first; only where none is left, and the database may have more,
    /// `reply` is looked at, as `fetch` does.
    pub fn fetch_rows(&mut self, max_rows: u32, reply: Result<RowBatch, ErrorInfo>) -> (r: Result<
        (u32, u32, bool),
        ErrorKind,
    >)
        ensures
            (final(self)@, r) == old(self)@.after_fetch_rows(max_rows, reply),
            old(self)@.wf() ==> final(self)@.wf(),
    {
        match self.check_fetch() {
            Err(e) => {
                return Err(e);
            },
            Ok(()) => {},
        }
        if (self.next_row as usize) < self.rows.len() || !self.more_rows {
            return Ok(self.hand_out_rows(max_rows));
        }
        match reply {
            Err(info) => Err(
                ErrorKind::NativeCallFailed { operation: Operation::StmtFetchRows, info },
            ),
            Ok(batch) => {
                if !self.accepts(&batch) {
                    return Err(ErrorKind::InvalidArgument { reason: Reason::InconsistentReply });
                }
                self.refill(batch);
                Ok(self.hand_out_rows(max_rows))
            },
        }
    }

    /// Moves the cursor of a statement that can scroll. With that the rows that were
    /// fetched are gone, and the next fetch asks the database. `reply` is the answer of
    /// the native library. Refused are, in this order, what `fetch` refuses of the
    /// statement, a statement that cannot scroll, and a call that failed.
    pub fn scroll(
        &mut self,
        mode: ODPIFetchMode,
        offset: i32,
        row_count_offset: i32,
        reply: Result<(), ErrorInfo>,
    ) -> (r: Result<(), ErrorKind>)
        ensures
            (final(self)@, r) == old(self)@.after_scroll(reply),
            old(self)@.wf() ==> final(self)@.wf(),
    {
        match self.check_fetch() {
            Err(e) => {
                return Err(e);
            },
            Ok(()) => {},
        }
        if !self.scrollable {
            return Err(ErrorKind::InvalidArgument { reason: Reason::NotScrollable });
        }
        match reply {
            Err(info) => Err(
                ErrorKind::NativeCallFailed { operation: Operation::StmtScroll, info },
            ),
            Ok(_) => {
                self.rows = Vec::new();
                self.next_row = 0;
                self.current = None;
                self.more_rows = true;
                Ok(())
            },
        }
    }

    /// The number of errors of the last execution in batch-error mode.
    pub fn get_batch_error_count(&self) -> (r: Result<u32, ErrorKind>)
        ensures
            self@.use_error() matches Some(e) ==> r == Err::<u32, ErrorKind>(e),
            self@.use_error() is None ==> r == Ok::<u32, ErrorKind>(
                if self@.batch_errors.len() <= u32::MAX {
                    self@.batch_errors.len() as u32
                } else {
                    u32::MAX
                },
            ),
    {
        if !self.handle.is_live() {
            return Err(ErrorKind::InvalidArgument { reason: Reason::HandleNotLive });
        }
        if self.batch_errors.len() <= u32::MAX as usize {
            Ok(self.batch_errors.len() as u32)
        } else {
            Ok(u32::MAX)
        }
    }

    /// The first `num_errors` errors of the last execution in batch-error mode, or all
    /// of them where there are fewer.
    pub fn get_batch_errors(&self, num_errors: u32) -> (r: Result<Vec<ErrorInfo>, ErrorKind>)
        ensures
            self@.use_error() matches Some(e) ==> r == Err::<Vec<ErrorInfo>, ErrorKind>(e),
            self@.use_error() is None ==> (r matches Ok(v) && v@ == self@.batch_errors.take(
                if num_errors <= self@.batch_errors.len() {
                    num_errors as int
                } else {
                    self@.batch_errors.len() as int
                },
            )),
    {
        if !self.handle.is_live() {
            return Err(ErrorKind::InvalidArgument { reason: Reason::HandleNotLive });
        }
        let n: usize = if (num_errors as usize) <= self.batch_errors.len() {
            num_errors as usize
        } else {
            self.batch_errors.len()
        };
        let mut out: Vec<ErrorInfo> = Vec::new();
        let mut i: usize = 0;
        while i < n
            invariant
                i <= n <= self.batch_errors.len(),
                out@ == self.batch_errors@.take(i as int),
            decreases n - i,
        {
            out.push(self.batch_errors[i].duplicate());
            assert(self.batch_errors@.take(i + 1) =~= self.batch_errors@.take(i as int).push(
                self.batch_errors@[i as int],
            ));
            i = i + 1;
        }
        Ok(out)
    }

    /// The number of placeholders of the statement, each name counted once.
    pub fn get_bind_count(&self) -> (r: Result<u32, ErrorKind>)
        ensures
            self@.use_error() matches Some(e) ==> r == Err::<u32, ErrorKind>(e),
            self@.use_error() is None ==> r == Ok::<u32, ErrorKind>(
                if self@.bind_names.len() <= u32::MAX {
                    self@.bind_names.len() as u32
                } else {
                    u32::MAX
                },
            ),
    {
        if !self.handle.is_live() {
            return Err(ErrorKind::InvalidArgument { reason: Reason::HandleNotLive });
        }
        if self.bind_names.len() <= u32::MAX as usize {
            Ok(self.bind_names.len() as u32)
        } else {
            Ok(u32::MAX)
        }
    }

    /// The names of the placeholders of the statement. `num_bind_names` is the number
    /// of names that the caller expects. A statement with fewer names is no error: the
    /// result then holds the names that there are, and never more than were expected.
    pub fn get_bind_names(&self, num_bind_names: u32) -> (r: Result<Vec<String>, ErrorKind>)
        ensures
            self@.use_error() matches Some(e) ==> r == Err::<Vec<String>, ErrorKind>(e),
            self@.use_error() is None ==> (r matches Ok(v) && v@ == self@.bind_names.take(
                if num_bind_names <= self@.bind_names.len() {
                    num_bind_names as int
                } else {
                    self@.bind_names.len() as int
                },
            )),
    {
        if !self.handle.is_live() {
            return Err(ErrorKind::InvalidArgument { reason: Reason::HandleNotLive });
        }
        let n: usize = if (num_bind_names as usize) <= self.bind_names.len() {
            num_bind_names as usize
        } else {
            self.bind_names.len()
        };
        let mut out: Vec<String> = Vec::new();
        let mut i: usize = 0;
        while i < n
            invariant
                i <= n <= self.bind_names.len(),
                out@ == self.bind_names@.take(i as int),
            decreases n - i,
        {
            out.push(self.bind_names[i].clone());
            assert(self.bind_names@.take(i + 1) =~= self.bind_names@.take(i as int).push(
                self.bind_names@[i as int],
            ));
            i = i + 1;
        }
        Ok(out)
    }

    /// The number of rows that one fetch brings from the database.
    pub fn get_fetch_array_size(&self) -> (r: Result<u32, ErrorKind>)
        ensures
            self@.use_error() matches Some(e) ==> r == Err::<u32, ErrorKind>(e),
            self@.use_error() is None ==> r == Ok::<u32, ErrorKind>(self@.fetch_array_size),
    {
        if !self.handle.is_live() {
            return Err(ErrorKind::InvalidArgument { reason: Reason::HandleNotLive });
        }
        Ok(self.fetch_array_size)
    }

    /// Sets the number of rows that one fetch brings from the database. Zero sets the
    /// default number.
    pub fn set_fetch_array_size(&mut self, array_size: u32) -> (r: Result<(), ErrorKind>)
        ensures
            old(self)@.use_error() matches Some(e) ==> r == Err::<(), ErrorKind>(e) && final(self)@
                == old(self)@,
            old(self)@.use_error() is None ==> r == Ok::<(), ErrorKind>(()) && final(self)@ == (
            StatementView {
                fetch_array_size: if array_size == 0 {
                    DEFAULT_FETCH_ARRAY_SIZE
                } else {
                    array_size
                },
                ..old(self)@
            }),
            old(self)@.wf() ==> final(self)@.wf(),
    {
        if !self.handle.is_live() {
            return Err(ErrorKind::InvalidArgument { reason: Reason::HandleNotLive });
        }
        self.fetch_array_size = if array_size == 0 {
            DEFAULT_FETCH_ARRAY_SIZE
        } else {
            array_size
        };
        Ok(())
    }

    /// The next implicit result of the last execution. Implicit results are not
    /// offered.
    pub fn get_implicit_result(&self) -> (r: Result<(), ErrorKind>)
        ensures
            r == Err::<(), ErrorKind>(ErrorKind::NotImplemented),
    {
        Err(ErrorKind::NotImplemented)
    }

    /// What is known of the statement from the time it was prepared.
    pub fn get_info(&self) -> (r: Result<Info, ErrorKind>)
        ensures
            self@.use_error() matches Some(e) ==> r == Err::<Info, ErrorKind>(e),
            self@.use_error() is None ==> r == Ok::<Info, ErrorKind>(self@.info),
    {
        if !self.handle.is_live() {
            return Err(ErrorKind::InvalidArgument { reason: Reason::HandleNotLive });
        }
        Ok(self.info)
    }

    /// The number of columns of the query: the number that `execute` returned, and zero
    /// before it.
    pub fn get_num_query_columns(&self) -> (r: Result<u32, ErrorKind>)
        ensures
            self@.use_error() matches Some(e) ==> r == Err::<u32, ErrorKind>(e),
            self@.use_error() is None ==> r == Ok::<u32, ErrorKind>(
                if self@.columns.len() <= u32::MAX {
                    self@.columns.len() as u32
                } else {
                    u32::MAX
                },
            ),
    {
        if !self.handle.is_live() {
            return Err(ErrorKind::InvalidArgument { reason: Reason::HandleNotLive });
        }
        if self.columns.len() <= u32::MAX as usize {
            Ok(self.columns.len() as u32)
        } else {
            Ok(u32::MAX)
        }
    }

    /// What is known of the column at `pos`. Positions count from one. Refused are a
    /// statement that is not live, and a position that is no column's.
    pub fn get_query_info(&self, pos: u32) -> (r: Result<&QueryInfo, ErrorKind>)
        ensures
            self@.use_error() matches Some(e) ==> r == Err::<&QueryInfo, ErrorKind>(e),
            self@.use_error() is None && (pos == 0 || pos > self@.columns.len()) ==> r == Err::<
                &QueryInfo,
                ErrorKind,
            >(ErrorKind::InvalidArgument { reason: Reason::IndexOutOfRange }),
            self@.use_error() is None && 1 <= pos <= self@.columns.len() ==> r == Ok::<
                &QueryInfo,
                ErrorKind,
            >(&self@.columns[pos - 1]),
    {
        if !self.handle.is_live() {
            return Err(ErrorKind::InvalidArgument { reason: Reason::HandleNotLive });
        }
        if pos == 0 || pos as usize > self.columns.len() {
            return Err(ErrorKind::InvalidArgument { reason: Reason::IndexOutOfRange });
        }
        Ok(&self.columns[(pos - 1) as usize])
    }

    /// The cell of the column at `pos` in the row that was fetched last, with its
    /// representation. The cell is borrowed from the statement, so it cannot be held
    /// across the next fetch or the close of the statement. Refused are, in this order,
    /// what `fetch` refuses of the statement, a statement of which no row was fetched,
    /// and a position that is no column's.
    pub fn get_query_value(
        &self,
        pos: u32,
    ) -> (r: Result<(ODPINativeTypeNum, &ODPIData), ErrorKind>)
        ensures
            self@.value_error(pos) matches Some(e) ==> r == Err::<
                (ODPINativeTypeNum, &ODPIData),
                ErrorKind,
            >(e),
            self@.value_error(pos) is None ==> (r matches Ok(p) && *p.1
                == self@.rows[self@.current->0 as int]@[pos - 1] && p.0
                == p.1@.value.native_type()),
            self@.wf() ==> !(r matches Err(
                ErrorKind::InvalidArgument { reason: Reason::InconsistentReply },
            )),
    {
        match self.check_fetch() {
            Err(e) => {
                return Err(e);
            },
            Ok(()) => {},
        }
        let current = match self.current {
            None => {
                return Err(ErrorKind::InvalidArgument { reason: Reason::NoSuchElement });
            },
            Some(c) => c,
        };
        if pos == 0 || pos as usize > self.columns.len() {
            return Err(ErrorKind::InvalidArgument { reason: Reason::IndexOutOfRange });
        }
        if current as usize >= self.rows.len() || pos as usize > self.rows[current as usize].len() {
            return Err(ErrorKind::InvalidArgument { reason: Reason::InconsistentReply });
        }
        let cell = &self.rows[current as usize][(pos - 1) as usize];
        Ok((cell.native_type(), cell))
    }

    /// The number of rows that the last execution affected, or that were fetched from
    /// the query so far.
    pub fn get_row_count(&self) -> (r: Result<u64, ErrorKind>)
        ensures
            self@.use_error() matches Some(e) ==> r == Err::<u64, ErrorKind>(e),
            self@.use_error() is None ==> r == Ok::<u64, ErrorKind>(self@.row_count),
    {
        if !self.handle.is_live() {
            return Err(ErrorKind::InvalidArgument { reason: Reason::HandleNotLive });
        }
        Ok(self.row_count)
    }

    /// The numbers of rows that the single iterations of the last `execute_many`
    /// affected. They are not offered.
    pub fn get_row_counts(&self) -> (r: Result<Vec<u64>, ErrorKind>)
        ensures
            r == Err::<Vec<u64>, ErrorKind>(ErrorKind::NotImplemented),
    {
        Err(ErrorKind::NotImplemented)
    }

    /// The id of the query that the last execution registered with a subscription. It
    /// is not offered.
    pub fn get_subscr_query_id(&self) -> (r: Result<u64, ErrorKind>)
        ensures
            r == Err::<u64, ErrorKind>(ErrorKind::NotImplemented),
    {
        Err(ErrorKind::NotImplemented)
    }

    /// No row is fetched from a statement that has not been executed.
    pub proof fn lemma_fetch_needs_execute(
        s: StatementView,
        max_rows: u32,
        reply: Result<RowBatch, ErrorInfo>,
    )
        requires
            !s.executed,
        ensures
            s.after_fetch(reply).1 is Err,
            s.after_fetch(reply).0 == s,
            s.after_fetch_rows(max_rows, reply).1 is Err,
            s.after_fetch_rows(max_rows, reply).0 == s,
    {
    }

    /// Nothing is bound to, executed on or fetched from a statement that was closed or
    /// whose last reference was released.
    pub proof fn lemma_closed_is_final(
        s: StatementView,
        pos: u32,
        name: Seq<char>,
        binding: Binding,
        bindable: bool,
        mode: ODPIExecMode,
        num_iters: u32,
        max_rows: u32,
        executed: Result<ExecuteOutcome, ErrorInfo>,
        batch: Result<BatchOutcome, ErrorInfo>,
        rows: Result<RowBatch, ErrorInfo>,
        scrolled: Result<(), ErrorInfo>,
    )
        requires
            !s.handle.spec_is_live(),
        ensures
            s.after_bind_pos(pos, binding, bindable) == (s, not_live::<()>()),
            s.after_bind_name(name, binding, bindable) == (s, not_live::<()>()),
            s.after_execute(mode, executed) == (s, not_live::<u32>()),
            s.after_execute_many(mode, num_iters, batch) == (s, not_live::<()>()),
            s.after_fetch(rows) == (s, not_live::<(bool, u32)>()),
            s.after_fetch_rows(max_rows, rows) == (s, not_live::<(u32, u32, bool)>()),
            s.after_scroll(scrolled) == (s, not_live::<()>()),
    {
    }

    /// An execution that succeeds returns at least one column for a query and none for
    /// any other statement.
    pub proof fn lemma_execute_columns(
        s: StatementView,
        mode: ODPIExecMode,
        reply: Result<ExecuteOutcome, ErrorInfo>,
    )
        ensures
            s.after_execute(mode, reply).1 matches Ok(n) ==> (s.info.spec_is_query() ==> n >= 1)
                && (!s.info.spec_is_query() ==> n == 0),
    {
    }

    /// An execution of `num_iters` iterations fails where a bound variable has fewer
    /// elements. Where every bound variable has enough, the statement is live and no
    /// query, it succeeds exactly when the native library reports success and no more
    /// errors than the mode asked for.
    pub proof fn lemma_execute_many_room(
        s: StatementView,
        mode: ODPIExecMode,
        num_iters: u32,
        reply: Result<BatchOutcome, ErrorInfo>,
    )
        ensures
            !s.binds_hold(num_iters) ==> s.after_execute_many(mode, num_iters, reply).1 is Err
                && s.after_execute_many(mode, num_iters, reply).0 == s,
            s.binds_hold(num_iters) && s.handle.spec_is_live() && !s.info.spec_is_query() ==> (
            s.after_execute_many(mode, num_iters, reply).1 is Ok <==> (reply matches Ok(o)
                && o.errors@.len() <= u32::MAX && (o.errors@.len() == 0 || mode.spec_bits()
                & DPI_MODE_EXEC_BATCH_ERRORS != 0))),
    {
    }
}

} // verus!
