//! The mathematical model of the lease table.
//!
//! One named resource is one row. A row holds an optional owner, a fencing
//! token and an optional expiry. The functions here say, for a row as it was
//! read (or its absence), what each operation answers, which write it
//! persists and which SQL parameters carry that write. The decision and
//! argument-building functions of `engine` are proved against them; what the
//! database hands back to a query is outside any contract.
use vstd::prelude::*;

verus! {

/// What a lease looks like to a caller.
pub struct LeaseView {
    pub name: Seq<char>,
    pub owner: Seq<char>,
    pub token: i64,
    pub lease_expires_at_ms: i64,
}

/// What a row of `bouncer_resources` holds.
pub struct RowView {
    pub name: Seq<char>,
    pub owner: Option<Seq<char>>,
    pub token: i64,
    pub lease_expires_at_ms: Option<i64>,
    pub created_at_ms: i64,
    pub updated_at_ms: i64,
}

pub enum ClaimView {
    Acquired(LeaseView),
    Busy(LeaseView),
}

pub enum RenewView {
    Renewed(LeaseView),
    Rejected(Option<LeaseView>),
}

pub enum ReleaseView {
    Released { name: Seq<char>, token: i64 },
    Rejected(Option<LeaseView>),
}

/// The failures of the lease logic, with the database failure kept as one case.
pub enum Fault {
    Sqlite,
    NotInTransaction,
    InvalidTtlMs(i64),
    TtlOverflow { now_ms: i64, ttl_ms: i64 },
    TokenOverflow(Seq<char>),
    InvalidLeaseRow(Seq<char>),
    SchemaMismatch(Seq<char>),
}

/// The mutation an operation persists, if any.
pub enum WriteView {
    /// A first row for the name: owner, token 1 and expiry, created and updated now.
    Insert { owner: Seq<char>, token: i64, lease_expires_at_ms: i64 },
    /// A new owner, token and expiry on the existing row.
    Takeover { owner: Seq<char>, token: i64, lease_expires_at_ms: i64 },
    /// A new expiry on the existing row.
    Extend { lease_expires_at_ms: i64 },
    /// Owner and expiry cleared on the existing row; the token stays.
    Clear,
}

/// A value bound to a positional SQL parameter.
pub enum ArgView {
    Null,
    Integer(i64),
    Text(Seq<char>),
}

/// The positional parameters that persist `w` for the row of `name` at
/// `now_ms`: the name first, then the written columns in statement order.
pub open spec fn write_args_spec(name: Seq<char>, now_ms: i64, w: WriteView) -> Seq<ArgView> {
    match w {
        WriteView::Insert { owner, token, lease_expires_at_ms } => seq![
            ArgView::Text(name),
            ArgView::Text(owner),
            ArgView::Integer(token),
            ArgView::Integer(lease_expires_at_ms),
            ArgView::Integer(now_ms),
            ArgView::Integer(now_ms),
        ],
        WriteView::Takeover { owner, token, lease_expires_at_ms } => seq![
            ArgView::Text(name),
            ArgView::Text(owner),
            ArgView::Integer(token),
            ArgView::Integer(lease_expires_at_ms),
            ArgView::Integer(now_ms),
        ],
        WriteView::Extend { lease_expires_at_ms } => seq![
            ArgView::Text(name),
            ArgView::Integer(lease_expires_at_ms),
            ArgView::Integer(now_ms),
        ],
        WriteView::Clear => seq![ArgView::Text(name), ArgView::Integer(now_ms)],
    }
}

/// The token column that persisting `w` sets, if it sets one.
pub open spec fn written_token(w: WriteView) -> Option<i64> {
    match w {
        WriteView::Insert { token, .. } => Some(token),
        WriteView::Takeover { token, .. } => Some(token),
        _ => None,
    }
}

/// What reading the row of a name answers, for the row the query handed
/// back: nothing, the row itself when it is well formed, or the refusal of a
/// malformed row.
pub open spec fn load_spec(r: Option<RowView>) -> Result<Option<RowView>, Fault> {
    match r {
        None => Ok(None),
        Some(row) => if row_is_valid(row) {
            Ok(Some(row))
        } else {
            Err(Fault::InvalidLeaseRow(row.name))
        },
    }
}

/// A persisted row is well formed: owner and expiry are both set or both
/// absent, and the token is positive.
pub open spec fn row_is_valid(r: RowView) -> bool {
    &&& r.owner.is_some() == r.lease_expires_at_ms.is_some()
    &&& r.token > 0
}

/// An absent row, or a well-formed one.
pub open spec fn opt_row_is_valid(r: Option<RowView>) -> bool {
    match r {
        None => true,
        Some(row) => row_is_valid(row),
    }
}

/// The live lease that a row holds at `now_ms`: an owner whose expiry lies
/// strictly after `now_ms`.
pub open spec fn live_lease(r: RowView, now_ms: i64) -> Option<LeaseView> {
    if r.owner.is_some() && r.lease_expires_at_ms.is_some() && r.lease_expires_at_ms.unwrap()
        > now_ms {
        Some(
            LeaseView {
                name: r.name,
                owner: r.owner.unwrap(),
                token: r.token,
                lease_expires_at_ms: r.lease_expires_at_ms.unwrap(),
            },
        )
    } else {
        None
    }
}

/// The expiry that a lease of `ttl_ms` taken at `now_ms` gets.
pub open spec fn expiry_spec(now_ms: i64, ttl_ms: i64) -> Result<i64, Fault> {
    if ttl_ms <= 0 {
        Err(Fault::InvalidTtlMs(ttl_ms))
    } else if now_ms + ttl_ms > i64::MAX {
        Err(Fault::TtlOverflow { now_ms, ttl_ms })
    } else {
        Ok((now_ms + ttl_ms) as i64)
    }
}

/// What reading a row answers at `now_ms`: its live lease, or the failure for
/// a malformed row.
pub open spec fn inspect_spec(r: Option<RowView>, now_ms: i64) -> Result<Option<LeaseView>, Fault> {
    match r {
        None => Ok(None),
        Some(row) => if !row_is_valid(row) {
            Err(Fault::InvalidLeaseRow(row.name))
        } else {
            Ok(live_lease(row, now_ms))
        },
    }
}

/// A claim of `name` for `owner` at `now_ms` with expiry `expires`, against
/// the row as read: the answer, and the write that goes with it.
pub open spec fn claim_spec(
    r: Option<RowView>,
    name: Seq<char>,
    owner: Seq<char>,
    now_ms: i64,
    expires: i64,
) -> Result<(ClaimView, Option<WriteView>), Fault> {
    match r {
        None => Ok(
            (
                ClaimView::Acquired(
                    LeaseView { name, owner, token: 1, lease_expires_at_ms: expires },
                ),
                Some(WriteView::Insert { owner, token: 1, lease_expires_at_ms: expires }),
            ),
        ),
        Some(row) => if !row_is_valid(row) {
            Err(Fault::InvalidLeaseRow(row.name))
        } else {
            match live_lease(row, now_ms) {
                Some(current) => Ok((ClaimView::Busy(current), None)),
                None => if row.token == i64::MAX {
                    Err(Fault::TokenOverflow(row.name))
                } else {
                    Ok(
                        (
                            ClaimView::Acquired(
                                LeaseView {
                                    name: row.name,
                                    owner,
                                    token: (row.token + 1) as i64,
                                    lease_expires_at_ms: expires,
                                },
                            ),
                            Some(
                                WriteView::Takeover {
                                    owner,
                                    token: (row.token + 1) as i64,
                                    lease_expires_at_ms: expires,
                                },
                            ),
                        ),
                    )
                },
            }
        },
    }
}

/// A renewal by `owner` at `now_ms` asking for expiry `requested`: only the
/// live owner renews, and the expiry never moves backwards.
pub open spec fn renew_spec(
    r: Option<RowView>,
    owner: Seq<char>,
    now_ms: i64,
    requested: i64,
) -> Result<(RenewView, Option<WriteView>), Fault> {
    match r {
        None => Ok((RenewView::Rejected(None), None)),
        Some(row) => if !row_is_valid(row) {
            Err(Fault::InvalidLeaseRow(row.name))
        } else {
            match live_lease(row, now_ms) {
                Some(current) => if current.owner == owner {
                    let expires = if current.lease_expires_at_ms >= requested {
                        current.lease_expires_at_ms
                    } else {
                        requested
                    };
                    Ok(
                        (
                            RenewView::Renewed(
                                LeaseView { lease_expires_at_ms: expires, ..current },
                            ),
                            Some(WriteView::Extend { lease_expires_at_ms: expires }),
                        ),
                    )
                } else {
                    Ok((RenewView::Rejected(Some(current)), None))
                },
                None => Ok((RenewView::Rejected(None), None)),
            }
        },
    }
}

/// A release by `owner` at `now_ms`: only the live owner releases, and the
/// answer carries the name and token of the lease given up.
pub open spec fn release_spec(r: Option<RowView>, owner: Seq<char>, now_ms: i64) -> Result<
    (ReleaseView, Option<WriteView>),
    Fault,
> {
    match r {
        None => Ok((ReleaseView::Rejected(None), None)),
        Some(row) => if !row_is_valid(row) {
            Err(Fault::InvalidLeaseRow(row.name))
        } else {
            match live_lease(row, now_ms) {
                Some(current) => if current.owner == owner {
                    Ok(
                        (
                            ReleaseView::Released { name: current.name, token: current.token },
                            Some(WriteView::Clear),
                        ),
                    )
                } else {
                    Ok((ReleaseView::Rejected(Some(current)), None))
                },
                None => Ok((ReleaseView::Rejected(None), None)),
            }
        },
    }
}

/// The row that a write of an operation on `name` at `now_ms` leaves behind.
pub open spec fn apply_write(r: Option<RowView>, name: Seq<char>, now_ms: i64, w: WriteView) -> RowView {
    match w {
        WriteView::Insert { owner, token, lease_expires_at_ms } => RowView {
            name,
            owner: Some(owner),
            token,
            lease_expires_at_ms: Some(lease_expires_at_ms),
            created_at_ms: now_ms,
            updated_at_ms: now_ms,
        },
        WriteView::Takeover { owner, token, lease_expires_at_ms } => RowView {
            owner: Some(owner),
            token,
            lease_expires_at_ms: Some(lease_expires_at_ms),
            updated_at_ms: now_ms,
            ..r.unwrap()
        },
        WriteView::Extend { lease_expires_at_ms } => RowView {
            lease_expires_at_ms: Some(lease_expires_at_ms),
            updated_at_ms: now_ms,
            ..r.unwrap()
        },
        WriteView::Clear => RowView {
            owner: None,
            lease_expires_at_ms: None,
            updated_at_ms: now_ms,
            ..r.unwrap()
        },
    }
}

/// The row after an operation: the written one, or the row as it was.
pub open spec fn after_op(r: Option<RowView>, name: Seq<char>, now_ms: i64, w: Option<WriteView>) -> Option<RowView> {
    match w {
        Some(write) => Some(apply_write(r, name, now_ms, write)),
        None => r,
    }
}

/// What an operation answers once its decision is carried out: the decided
/// answer, the decided failure, or a database failure when the decided write
/// could not be persisted.
pub open spec fn carried_out<A>(plan: Result<(A, Option<WriteView>), Fault>, res: Result<A, Fault>) -> bool {
    match plan {
        Err(f) => res == Err::<A, Fault>(f),
        Ok(p) => res == Ok::<A, Fault>(p.0) || (p.1 is Some && res == Err::<A, Fault>(Fault::Sqlite)),
    }
}

/// The answer part of a claim.
pub open spec fn claim_answer(
    r: Option<RowView>,
    name: Seq<char>,
    owner: Seq<char>,
    now_ms: i64,
    expires: i64,
) -> Result<ClaimView, Fault> {
    match claim_spec(r, name, owner, now_ms, expires) {
        Ok(p) => Ok(p.0),
        Err(f) => Err(f),
    }
}

/// The answer part of a renewal.
pub open spec fn renew_answer(r: Option<RowView>, owner: Seq<char>, now_ms: i64, requested: i64) -> Result<RenewView, Fault> {
    match renew_spec(r, owner, now_ms, requested) {
        Ok(p) => Ok(p.0),
        Err(f) => Err(f),
    }
}

/// The answer part of a release.
pub open spec fn release_answer(r: Option<RowView>, owner: Seq<char>, now_ms: i64) -> Result<ReleaseView, Fault> {
    match release_spec(r, owner, now_ms) {
        Ok(p) => Ok(p.0),
        Err(f) => Err(f),
    }
}

/// What `token` answers for a row as read: its token, even with no live lease.
pub open spec fn token_spec(r: Option<RowView>) -> Result<Option<i64>, Fault> {
    match r {
        None => Ok(None),
        Some(row) => if !row_is_valid(row) {
            Err(Fault::InvalidLeaseRow(row.name))
        } else {
            Ok(Some(row.token))
        },
    }
}

/// What `owner` answers for a row as read at `now_ms`: the live owner.
pub open spec fn owner_spec(r: Option<RowView>, now_ms: i64) -> Result<Option<Seq<char>>, Fault> {
    match inspect_spec(r, now_ms) {
        Ok(Some(lease)) => Ok(Some(lease.owner)),
        Ok(None) => Ok(None),
        Err(f) => Err(f),
    }
}

/// A claim answered `res` for some state of the row of `name`: the database
/// failed, the ttl was refused, or the answer is the one the model gives for
/// the row as it was read.
pub open spec fn claim_outcome(
    res: Result<ClaimView, Fault>,
    name: Seq<char>,
    owner: Seq<char>,
    now_ms: i64,
    ttl_ms: i64,
) -> bool {
    ||| res == Err::<ClaimView, Fault>(Fault::Sqlite)
    ||| match expiry_spec(now_ms, ttl_ms) {
        Err(f) => res == Err::<ClaimView, Fault>(f),
        Ok(expires) => exists|r: Option<RowView>|
            #[trigger] claim_answer(r, name, owner, now_ms, expires) == res,
    }
}

/// A renewal answered `res` for some state of the row.
pub open spec fn renew_outcome(res: Result<RenewView, Fault>, owner: Seq<char>, now_ms: i64, ttl_ms: i64) -> bool {
    ||| res == Err::<RenewView, Fault>(Fault::Sqlite)
    ||| match expiry_spec(now_ms, ttl_ms) {
        Err(f) => res == Err::<RenewView, Fault>(f),
        Ok(requested) => exists|r: Option<RowView>|
            #[trigger] renew_answer(r, owner, now_ms, requested) == res,
    }
}

/// A release answered `res` for some state of the row.
pub open spec fn release_outcome(res: Result<ReleaseView, Fault>, owner: Seq<char>, now_ms: i64) -> bool {
    ||| res == Err::<ReleaseView, Fault>(Fault::Sqlite)
    ||| exists|r: Option<RowView>| #[trigger] release_answer(r, owner, now_ms) == res
}

/// A read of the live lease answered `res` for some state of the row.
pub open spec fn inspect_outcome(res: Result<Option<LeaseView>, Fault>, now_ms: i64) -> bool {
    ||| res == Err::<Option<LeaseView>, Fault>(Fault::Sqlite)
    ||| exists|r: Option<RowView>| #[trigger] inspect_spec(r, now_ms) == res
}

/// A read of the live owner answered `res` for some state of the row.
pub open spec fn owner_outcome(res: Result<Option<Seq<char>>, Fault>, now_ms: i64) -> bool {
    ||| res == Err::<Option<Seq<char>>, Fault>(Fault::Sqlite)
    ||| exists|r: Option<RowView>| #[trigger] owner_spec(r, now_ms) == res
}

/// A read of the fencing token answered `res` for some state of the row.
pub open spec fn token_outcome(res: Result<Option<i64>, Fault>) -> bool {
    ||| res == Err::<Option<i64>, Fault>(Fault::Sqlite)
    ||| exists|r: Option<RowView>| #[trigger] token_spec(r) == res
}

/// One mutation of a resource, with its explicit time.
pub enum LeaseOp {
    Claim { owner: Seq<char>, now_ms: i64, expires: i64 },
    Renew { owner: Seq<char>, now_ms: i64, requested: i64 },
    Release { owner: Seq<char>, now_ms: i64 },
}

/// The row of `name` after `op`: what the operation writes, or the row as it
/// was when the operation writes nothing or fails.
pub open spec fn step_row(r: Option<RowView>, name: Seq<char>, op: LeaseOp) -> Option<RowView> {
    match op {
        LeaseOp::Claim { owner, now_ms, expires } => match claim_spec(r, name, owner, now_ms, expires) {
            Ok(p) => after_op(r, name, now_ms, p.1),
            Err(_) => r,
        },
        LeaseOp::Renew { owner, now_ms, requested } => match renew_spec(r, owner, now_ms, requested) {
            Ok(p) => after_op(r, name, now_ms, p.1),
            Err(_) => r,
        },
        LeaseOp::Release { owner, now_ms } => match release_spec(r, owner, now_ms) {
            Ok(p) => after_op(r, name, now_ms, p.1),
            Err(_) => r,
        },
    }
}

/// The write that `op` persists against the row `r` of `name`, if any.
pub open spec fn op_write(r: Option<RowView>, name: Seq<char>, op: LeaseOp) -> Option<WriteView> {
    match op {
        LeaseOp::Claim { owner, now_ms, expires } => match claim_spec(r, name, owner, now_ms, expires) {
            Ok(p) => p.1,
            Err(_) => None,
        },
        LeaseOp::Renew { owner, now_ms, requested } => match renew_spec(r, owner, now_ms, requested) {
            Ok(p) => p.1,
            Err(_) => None,
        },
        LeaseOp::Release { owner, now_ms } => match release_spec(r, owner, now_ms) {
            Ok(p) => p.1,
            Err(_) => None,
        },
    }
}

/// The time at which `op` runs.
pub open spec fn op_now(op: LeaseOp) -> i64 {
    match op {
        LeaseOp::Claim { now_ms, .. } => now_ms,
        LeaseOp::Renew { now_ms, .. } => now_ms,
        LeaseOp::Release { now_ms, .. } => now_ms,
    }
}

/// The row of `name` after the operations `ops`, in order.
pub open spec fn run_ops(r: Option<RowView>, name: Seq<char>, ops: Seq<LeaseOp>) -> Option<RowView>
    decreases ops.len(),
{
    if ops.len() == 0 {
        r
    } else {
        run_ops(step_row(r, name, ops[0]), name, ops.drop_first())
    }
}

} // verus!
