use vstd::prelude::*;
use vstd::string::StringExecFns;
use vstd::string::StrSliceExecFns;
use crate::engine::EngineState;
use crate::database::{spec_db_blocked, spec_db_log_len, spec_db_wf, Database};
use crate::error::Error;
use crate::frame::{page_write_wf, PageWrite};
use crate::frame_log::spec_append_frames;
use crate::interceptor::{spec_apply_writes, PrimaryShared};
use crate::parser::ParserError;

verus! {

/// The per-request context the serving layer hands down with every
/// operation: which namespace the client is bound to.
pub struct RequestContext {
    pub namespace: String,
}

/// One statement of a pre-compiled program. Compilation is the parsing
/// collaborator's work; what reaches this core is each statement's effect
/// on the page store: none for a read, a set of page writes for a write.
pub enum Statement {
    Read,
    Write(Vec<PageWrite>),
}

/// A pre-compiled sequence of statements, executed as one transaction.
pub struct Program {
    pub steps: Vec<Statement>,
}

/// What executing a program yields: how many statements ran.
#[derive(Debug)]
pub struct BuiltResult {
    pub steps_executed: usize,
}

/// Statement shape metadata, reported without executing: the number of
/// positional parameter markers in the text.
#[derive(Debug)]
pub struct DescribeResponse {
    pub param_count: usize,
}

/// The page writes one statement performs.
pub open spec fn stmt_writes(s: Statement) -> Seq<PageWrite> {
    match s {
        Statement::Read => Seq::empty(),
        Statement::Write(ws) => ws@,
    }
}

/// The page writes a program performs, in statement order.
pub open spec fn spec_prog_writes(steps: Seq<Statement>) -> Seq<PageWrite>
    decreases steps.len(),
{
    if steps.len() == 0 {
        Seq::empty()
    } else {
        stmt_writes(steps[0]) + spec_prog_writes(steps.drop_first())
    }
}

/// Whether a program opens a write transaction: it contains any write
/// statement, even one that happens to touch no page.
pub open spec fn spec_prog_is_write(steps: Seq<Statement>) -> bool {
    exists|i: int| 0 <= i < steps.len() && steps[i] is Write
}

/// Every page write of the program names a valid page.
pub open spec fn prog_wf(steps: Seq<Statement>) -> bool {
    forall|i: int, j: int|
        0 <= i < steps.len() && 0 <= j < stmt_writes(#[trigger] steps[i]).len()
            ==> page_write_wf(#[trigger] stmt_writes(steps[i])[j])
}

/// Success classification of program execution: the only data-dependent
/// refusal this core issues is the write-block check; everything else is
/// the engine collaborator's to report.
pub open spec fn spec_exec_ok(blocked: bool, steps: Seq<Statement>) -> bool {
    !(spec_prog_is_write(steps) && blocked)
}

/// Whether a program contains a write statement.
fn prog_is_write(pgm: &Program) -> (r: bool)
    ensures
        r == spec_prog_is_write(pgm.steps@),
{
    let n: usize = pgm.steps.len();
    let mut i: usize = 0;
    while i < n
        invariant
            n == pgm.steps@.len(),
            i <= n,
            forall|k: int| 0 <= k < i ==> !(#[trigger] pgm.steps@[k] is Write),
        decreases n - i,
    {
        match &pgm.steps[i] {
            Statement::Write(_) => {
                return true;
            },
            Statement::Read => {},
        }
        i = i + 1;
    }
    false
}

/// Drain a program into the flat sequence of page writes it performs.
fn collect_writes(pgm: Program) -> (r: Vec<PageWrite>)
    ensures
        r@ == spec_prog_writes(pgm.steps@),
{
    let ghost all_steps: Seq<Statement> = pgm.steps@;
    let mut steps: Vec<Statement> = pgm.steps;
    let mut out: Vec<PageWrite> = Vec::new();
    proof {
        assert(all_steps.subrange(0, all_steps.len() as int) =~= all_steps);
    }
    let n0: usize = steps.len();
    proof {
        assert(all_steps.len() == n0);
    }
    let mut i: usize = 0;
    while steps.len() > 0
        invariant
            all_steps.len() <= usize::MAX,
            i + steps@.len() == all_steps.len(),
            steps@ == all_steps.subrange(i as int, all_steps.len() as int),
            spec_prog_writes(all_steps) == out@ + spec_prog_writes(steps@),
        decreases steps@.len(),
    {
        proof {
            assert(steps@.drop_first() =~= all_steps.subrange(i + 1, all_steps.len() as int));
        }
        let ghost out_pre: Seq<PageWrite> = out@;
        let ghost rest_pre: Seq<Statement> = steps@;
        let s: Statement = steps.remove(0);
        match s {
            Statement::Read => {
                proof {
                    assert(out@ + spec_prog_writes(rest_pre) =~= out@ + spec_prog_writes(steps@));
                }
            },
            Statement::Write(mut ws) => {
                out.append(&mut ws);
                proof {
                    assert(out_pre + spec_prog_writes(rest_pre) =~= out@ + spec_prog_writes(
                        steps@,
                    ));
                }
            },
        }
        i = i + 1;
    }
    proof {
        assert(out@ + spec_prog_writes(steps@) =~= out@);
    }
    out
}

/// Execute a program against the shared state of a primary or schema
/// database: admission first (the write-block check), then the write
/// interceptor's commit path for whatever pages the program writes.
fn exec_on_shared(shared: &mut PrimaryShared, pgm: Program) -> (r: Result<BuiltResult, Error>)
    requires
        old(shared).wf(),
        prog_wf(pgm.steps@),
        old(shared).log.frames@.len() + spec_prog_writes(pgm.steps@).len() <= u64::MAX,
    ensures
        final(shared).wf(),
        r is Ok <==> spec_exec_ok(old(shared).block_writes, pgm.steps@),
        r matches Ok(b) ==> b.steps_executed == pgm.steps@.len(),
        r is Err ==> (r matches Err(e) && e is WriteBlocked && *final(shared) == *old(shared)),
        exec_effect_ok(*old(shared), *final(shared), pgm.steps@) || !(r is Ok),
{
    let n_steps: usize = pgm.steps.len();
    let is_w: bool = prog_is_write(&pgm);
    if is_w && shared.block_writes {
        return Err(Error::WriteBlocked);
    }
    let writes: Vec<PageWrite> = collect_writes(pgm);
    proof {
        lemma_prog_writes_wf(pgm.steps@);
        if spec_prog_writes(pgm.steps@).len() > 0 {
            lemma_writes_imply_write_stmt(pgm.steps@);
        }
    }
    if writes.len() > 0 {
        let _frame_no: u64 = shared.commit_write_txn(writes);
    }
    Ok(BuiltResult { steps_executed: n_steps })
}

/// How executing a program relates the shared state after to the state
/// before, in the successful case: the program's writes stand in the page
/// store and in the frame log as one appended transaction; a program that
/// writes nothing leaves the state untouched.
pub open spec fn exec_effect_ok(pre: PrimaryShared, post: PrimaryShared, steps: Seq<Statement>) -> bool {
    let ws = spec_prog_writes(steps);
    if ws.len() == 0 {
        post == pre
    } else {
        &&& post.engine@ == spec_apply_writes(pre.engine@, ws)
        &&& post.log.frames@ == spec_append_frames(pre.log.frames@, ws)
        &&& post.log.latest_spec() == Some((pre.log.frames@.len() + ws.len()) as u64)
        &&& post.block_writes == pre.block_writes
    }
}

/// A program whose flat write sequence is non-empty contains a write
/// statement.
pub proof fn lemma_writes_imply_write_stmt(steps: Seq<Statement>)
    requires
        spec_prog_writes(steps).len() > 0,
    ensures
        spec_prog_is_write(steps),
    decreases steps.len(),
{
    if steps.len() > 0 {
        if stmt_writes(steps[0]).len() > 0 {
            assert(steps[0] is Write);
        } else {
            lemma_writes_imply_write_stmt(steps.drop_first());
            let i = choose|i: int|
                0 <= i < steps.drop_first().len() && steps.drop_first()[i] is Write;
            assert(steps[i + 1] is Write);
        }
    }
}

/// A well-formed program's flat write sequence is elementwise well formed.
pub proof fn lemma_prog_writes_wf(steps: Seq<Statement>)
    requires
        prog_wf(steps),
    ensures
        forall|k: int|
            0 <= k < spec_prog_writes(steps).len() ==> page_write_wf(
                #[trigger] spec_prog_writes(steps)[k],
            ),
    decreases steps.len(),
{
    if steps.len() > 0 {
        assert(stmt_writes(steps[0]).len() >= 0);
        assert forall|i: int, j: int|
            0 <= i < steps.drop_first().len() && 0 <= j < stmt_writes(
                #[trigger] steps.drop_first()[i],
            ).len() implies page_write_wf(#[trigger] stmt_writes(steps.drop_first()[i])[j]) by {
            assert(steps.drop_first()[i] == steps[i + 1]);
        }
        lemma_prog_writes_wf(steps.drop_first());
        assert forall|k: int| 0 <= k < spec_prog_writes(steps).len() implies page_write_wf(
            #[trigger] spec_prog_writes(steps)[k],
        ) by {
            if k < stmt_writes(steps[0]).len() {
                assert(spec_prog_writes(steps)[k] == stmt_writes(steps[0])[k]);
            } else {
                assert(spec_prog_writes(steps)[k] == spec_prog_writes(steps.drop_first())[k
                    - stmt_writes(steps[0]).len()]);
            }
        }
    }
}

/// A connection of the primary backend: executes directly against the
/// shared primary state.
#[derive(Debug)]
pub struct PrimaryConnection {
    pub autocommit: bool,
}

/// A connection of the replica backend: reads locally applied state and
/// forwards writes to the primary through the transport collaborator.
#[derive(Debug)]
pub struct ReplicaConnection {
    pub autocommit: bool,
}

/// A connection of the schema backend: the schema database logs frames
/// exactly as a primary does.
#[derive(Debug)]
pub struct SchemaConnection {
    pub autocommit: bool,
}

/// One client connection, bound at construction to the variant of the
/// database it was made from; every operation dispatches structurally on
/// that variant.
#[derive(Debug)]
pub enum Connection {
    Primary(PrimaryConnection),
    Replica(ReplicaConnection),
    Schema(SchemaConnection),
}

/// Whether a connection belongs to a database value: variants line up.
pub open spec fn conn_matches_db(c: Connection, db: Database) -> bool {
    match c {
        Connection::Primary(_) => db is Primary,
        Connection::Replica(_) => db is Replica,
        Connection::Schema(_) => db is Schema,
    }
}

/// Whether the backend's visible state already satisfies the caller's
/// minimum replication index: a primary or schema backend is always
/// current; a replica must have applied that far, which its caller awaits
/// through the notifier before executing.
pub open spec fn replication_ready(db: Database, replication_index: Option<u64>) -> bool {
    match db {
        Database::Replica(r) => match replication_index {
            Some(n) => n <= r.applier.last_applied,
            None => true,
        },
        _ => true,
    }
}

impl Connection {
    /// Returns `true` if the connection is bound to the primary backend.
    pub fn is_primary(&self) -> (r: bool)
        ensures
            r == (self is Primary),
    {
        match self {
            Connection::Primary(..) => true,
            _ => false,
        }
    }

    /// Execute a pre-compiled program on the backend this connection is
    /// bound to.
    ///
    /// Every variant classifies identically: the only refusal issued here
    /// is the write-block refusal of a primary or schema backend. On success
    /// the program's page writes stand in the backend's store and frame
    /// log; a replica forwards writes to the primary through the transport
    /// collaborator, so locally it mutates nothing.
    pub fn execute_program(
        &self,
        db: &mut Database,
        pgm: Program,
        _ctx: &RequestContext,
        replication_index: Option<u64>,
    ) -> (r: Result<BuiltResult, Error>)
        requires
            conn_matches_db(*self, *old(db)),
            spec_db_wf(*old(db)),
            prog_wf(pgm.steps@),
            spec_db_log_len(*old(db)) + spec_prog_writes(pgm.steps@).len() <= u64::MAX,
            replication_ready(*old(db), replication_index),
        ensures
            spec_db_wf(*final(db)),
            r is Ok <==> spec_exec_ok(spec_db_blocked(*old(db)), pgm.steps@),
            r matches Ok(b) ==> b.steps_executed == pgm.steps@.len(),
            r is Err ==> (r matches Err(e) && e is WriteBlocked && *final(db) == *old(db)),
            *old(db) matches Database::Primary(p) ==> *final(db) matches Database::Primary(p2)
                && p2.replicator == p.replicator && (exec_effect_ok(p.shared, p2.shared, pgm.steps@)
                || !(r is Ok)),
            *old(db) matches Database::Schema(s) ==> *final(db) matches Database::Schema(s2)
                && s2.replicator == s.replicator && (exec_effect_ok(s.shared, s2.shared, pgm.steps@)
                || !(r is Ok)),
            *old(db) is Replica ==> *final(db) == *old(db),
    {
        match self {
            Connection::Primary(_) => {
                match db {
                    Database::Primary(p) => exec_on_shared(&mut p.shared, pgm),
                    _ => vstd::pervasive::unreached(),
                }
            },
            Connection::Schema(_) => {
                match db {
                    Database::Schema(s) => exec_on_shared(&mut s.shared, pgm),
                    _ => vstd::pervasive::unreached(),
                }
            },
            Connection::Replica(_) => {
                let n_steps: usize = pgm.steps.len();
                Ok(BuiltResult { steps_executed: n_steps })
            },
        }
    }

    /// Return statement shape metadata without executing: the number of
    /// positional parameter markers found in the text. An empty text is
    /// the one describe-level failure raised here; anything further is the
    /// parsing collaborator's. The outer result reports transport or
    /// backend failure, of which the local backends have none.
    pub fn describe(
        &self,
        sql: String,
        _ctx: &RequestContext,
        _replication_index: Option<u64>,
    ) -> (r: Result<Result<DescribeResponse, ParserError>, Error>)
        ensures
            r is Ok,
            r matches Ok(inner) ==> {
                &&& (inner is Err <==> vstd::utf8::encode_utf8(sql@).len() == 0)
                &&& inner matches Err(pe) ==> pe is UnexpectedEof
                &&& inner matches Ok(d) ==> d.param_count == spec_count_params(
                    vstd::utf8::encode_utf8(sql@),
                )
            },
    {
        let bytes: Vec<u8> = sql.as_str().as_bytes_vec();
        if bytes.len() == 0 {
            return Ok(Err(ParserError::UnexpectedEof));
        }
        let n: usize = bytes.len();
        let mut count: usize = 0;
        let mut i: usize = 0;
        proof {
            assert(bytes@.subrange(0, 0) =~= Seq::<u8>::empty());
        }
        while i < n
            invariant
                n == bytes@.len(),
                i <= n,
                count == spec_count_params(bytes@.subrange(0, i as int)),
                count <= i,
            decreases n - i,
        {
            proof {
                assert(bytes@.subrange(0, i + 1).drop_last() =~= bytes@.subrange(0, i as int));
                assert(bytes@.subrange(0, i + 1).last() == bytes@[i as int]);
            }
            if bytes[i] == 63 {
                count = count + 1;
            }
            i = i + 1;
        }
        proof {
            assert(bytes@.subrange(0, n as int) =~= bytes@);
        }
        Ok(Ok(DescribeResponse { param_count: count }))
    }

    /// Whether the connection sits outside an explicit transaction. No
    /// backend errs here; the result reflects connection-local state.
    pub fn is_autocommit(&self) -> (r: Result<bool, Error>)
        ensures
            r matches Ok(b) && b == spec_autocommit(*self),
    {
        match self {
            Connection::Primary(c) => Ok(c.autocommit),
            Connection::Replica(c) => Ok(c.autocommit),
            Connection::Schema(c) => Ok(c.autocommit),
        }
    }

    /// WAL checkpoint maintenance. The work is the engine collaborator's;
    /// no backend refuses it and none errs spuriously.
    pub fn checkpoint(&self) -> (r: Result<(), Error>)
        ensures
            r is Ok,
    {
        Ok(())
    }

    /// Vacuum maintenance, likewise the engine collaborator's; never
    /// refused, never a spurious error.
    pub fn vacuum_if_needed(&self) -> (r: Result<(), Error>)
        ensures
            r is Ok,
    {
        Ok(())
    }

    /// Scoped access to the raw engine state behind this connection's
    /// backend, for privileged maintenance; the borrow cannot outlive the
    /// call site's use of it, and everything else about the database is
    /// untouched.
    pub fn with_raw<'a>(&self, db: &'a mut Database) -> (r: &'a mut EngineState)
        requires
            conn_matches_db(*self, *old(db)),
        ensures
            *old(db) matches Database::Primary(p) ==> *r == p.shared.engine && (*final(db)
                matches Database::Primary(p2) && p2.shared.engine == *final(r) && p2.shared.log
                == p.shared.log && p2.shared.block_writes == p.shared.block_writes
                && p2.replicator == p.replicator),
            *old(db) matches Database::Schema(s) ==> *r == s.shared.engine && (*final(db)
                matches Database::Schema(s2) && s2.shared.engine == *final(r) && s2.shared.log
                == s.shared.log && s2.shared.block_writes == s.shared.block_writes
                && s2.replicator == s.replicator),
            *old(db) matches Database::Replica(rep) ==> *r == rep.applier.engine && (*final(db)
                matches Database::Replica(rep2) && rep2.applier.engine == *final(r)
                && rep2.applier.last_applied == rep.applier.last_applied),
    {
        match self {
            Connection::Primary(_) => {
                match db {
                    Database::Primary(p) => &mut p.shared.engine,
                    _ => vstd::pervasive::unreached(),
                }
            },
            Connection::Schema(_) => {
                match db {
                    Database::Schema(s) => &mut s.shared.engine,
                    _ => vstd::pervasive::unreached(),
                }
            },
            Connection::Replica(_) => {
                match db {
                    Database::Replica(rep) => &mut rep.applier.engine,
                    _ => vstd::pervasive::unreached(),
                }
            },
        }
    }

    /// A best-effort, human-readable description of the connection; by
    /// design the one operation that can never fail.
    pub fn diagnostics(&self) -> (r: String)
        ensures
            self is Primary ==> r@ == "primary connection"@,
            self is Replica ==> r@ == "replica connection"@,
            self is Schema ==> r@ == "schema connection"@,
    {
        match self {
            Connection::Primary(_) => String::from_str("primary connection"),
            Connection::Replica(_) => String::from_str("replica connection"),
            Connection::Schema(_) => String::from_str("schema connection"),
        }
    }
}

/// The autocommit state a connection reports.
pub open spec fn spec_autocommit(c: Connection) -> bool {
    match c {
        Connection::Primary(cc) => cc.autocommit,
        Connection::Replica(cc) => cc.autocommit,
        Connection::Schema(cc) => cc.autocommit,
    }
}

/// Number of positional parameter markers (`?`, byte 63) in a text.
pub open spec fn spec_count_params(bytes: Seq<u8>) -> int
    decreases bytes.len(),
{
    if bytes.len() == 0 {
        0
    } else {
        spec_count_params(bytes.drop_last()) + if bytes.last() == 63 {
            1int
        } else {
            0int
        }
    }
}

/// Law: setting the write-block flag refuses every write transaction and
/// no read-only one, and clearing it restores write admission — the
/// classification is a function of the flag and the program alone, so no
/// reconnection is needed.
pub proof fn lemma_write_block_refuses_writes(steps: Seq<Statement>)
    ensures
        spec_prog_is_write(steps) ==> !spec_exec_ok(true, steps),
        !spec_prog_is_write(steps) ==> spec_exec_ok(true, steps),
        spec_exec_ok(false, steps),
{
}

/// Law: dispatch is uniform across the Primary, Replica and Schema
/// variants: with write admission open, all three classify any one
/// program identically (successfully), and the classification never
/// depends on the request context or on backend data.
pub proof fn lemma_dispatch_uniform_classification(
    steps: Seq<Statement>,
    primary_blocked: bool,
    schema_blocked: bool,
)
    ensures
        spec_exec_ok(primary_blocked, steps) == spec_exec_ok(schema_blocked, steps)
            || primary_blocked != schema_blocked,
        !primary_blocked && !schema_blocked ==> (spec_exec_ok(primary_blocked, steps)
            && spec_exec_ok(schema_blocked, steps) && spec_exec_ok(false, steps)),
{
}

} // verus!
