//! Properties of the lease state machine that span operations: what every
//! operation keeps, what a read gives back after a write, and how fencing
//! tokens move.
use crate::model::{
    after_op, claim_answer, run_ops, step_row, LeaseOp, claim_spec, inspect_spec, live_lease, opt_row_is_valid,
    owner_spec, release_spec, renew_spec, row_is_valid, token_spec, ClaimView, LeaseView,
    ReleaseView, RenewView, RowView, WriteView, op_write, op_now, write_args_spec, written_token,
    ArgView, claim_outcome, renew_outcome, release_outcome, inspect_outcome, renew_answer,
    release_answer, expiry_spec, Fault,
};
use vstd::prelude::*;

verus! {

/// Every operation keeps the row well formed: whatever claim, renew or
/// release writes on a well-formed (or absent) row is itself well formed.
pub proof fn operations_keep_rows_valid(
    r: Option<RowView>,
    name: Seq<char>,
    owner: Seq<char>,
    now_ms: i64,
    expires: i64,
)
    requires
        opt_row_is_valid(r),
    ensures
        claim_spec(r, name, owner, now_ms, expires) matches Ok((_, w)) ==> opt_row_is_valid(
            after_op(r, name, now_ms, w),
        ),
        renew_spec(r, owner, now_ms, expires) matches Ok((_, w)) ==> opt_row_is_valid(
            after_op(r, name, now_ms, w),
        ),
        release_spec(r, owner, now_ms) matches Ok((_, w)) ==> opt_row_is_valid(
            after_op(r, name, now_ms, w),
        ),
{
}

/// Fencing tokens never go backwards: after any operation on an existing row
/// the token is at least what it was, and a successful claim hands out
/// exactly one more than the row held (1 for a name never claimed before).
pub proof fn fencing_tokens_are_monotonic(
    r: Option<RowView>,
    name: Seq<char>,
    owner: Seq<char>,
    now_ms: i64,
    expires: i64,
)
    requires
        opt_row_is_valid(r),
    ensures
        r is Some ==> (claim_spec(r, name, owner, now_ms, expires) matches Ok((_, w)) ==> after_op(
            r,
            name,
            now_ms,
            w,
        ).unwrap().token >= r.unwrap().token),
        r is Some ==> (renew_spec(r, owner, now_ms, expires) matches Ok((_, w)) ==> after_op(
            r,
            name,
            now_ms,
            w,
        ).unwrap().token == r.unwrap().token),
        r is Some ==> (release_spec(r, owner, now_ms) matches Ok((_, w)) ==> after_op(
            r,
            name,
            now_ms,
            w,
        ).unwrap().token == r.unwrap().token),
        claim_spec(r, name, owner, now_ms, expires) matches Ok((ClaimView::Acquired(lease), w)) ==> {
            &&& lease.token == (if r is Some {
                r.unwrap().token + 1
            } else {
                1
            })
            &&& after_op(r, name, now_ms, w).unwrap().token == lease.token
        },
{
}

/// A live lease excludes everyone else: while a well-formed row holds a live
/// lease at `now_ms`, any claim answers `Busy` with that very lease and
/// writes nothing; and a claim that acquires never displaces a live lease.
pub proof fn live_lease_is_exclusive(
    r: Option<RowView>,
    name: Seq<char>,
    owner: Seq<char>,
    now_ms: i64,
    expires: i64,
)
    requires
        opt_row_is_valid(r),
    ensures
        r is Some && live_lease(r.unwrap(), now_ms) is Some ==> claim_spec(
            r,
            name,
            owner,
            now_ms,
            expires,
        ) == Ok::<(ClaimView, Option<WriteView>), crate::model::Fault>(
            (ClaimView::Busy(live_lease(r.unwrap(), now_ms).unwrap()), None),
        ),
        claim_answer(r, name, owner, now_ms, expires) matches Ok(ClaimView::Acquired(_)) ==> (r is None
            || live_lease(r.unwrap(), now_ms) is None),
{
}

/// A claim reads back: after a claim acquires a lease with an expiry later
/// than `now_ms`, the row holds that lease as live at every time before the
/// expiry, and no live lease from the expiry on.
pub proof fn claim_reads_back(
    r: Option<RowView>,
    name: Seq<char>,
    owner: Seq<char>,
    now_ms: i64,
    expires: i64,
    later_ms: i64,
)
    requires
        opt_row_is_valid(r),
        r is Some ==> r.unwrap().name == name,
    ensures
        claim_spec(r, name, owner, now_ms, expires) matches Ok((ClaimView::Acquired(lease), w)) ==> {
            &&& lease.name == name
            &&& lease.owner == owner
            &&& lease.lease_expires_at_ms == expires
            &&& inspect_spec(after_op(r, name, now_ms, w), later_ms) == (if later_ms < expires {
                Ok::<Option<LeaseView>, crate::model::Fault>(Some(lease))
            } else {
                Ok::<Option<LeaseView>, crate::model::Fault>(None)
            })
        },
{
}

/// Renewal never shortens a lease: a renewed lease keeps its owner and
/// token, and its expiry is the later of the current expiry and the one
/// asked for; the row then reads back that lease before the new expiry.
pub proof fn renew_never_shortens(r: Option<RowView>, name: Seq<char>, owner: Seq<char>, now_ms: i64, requested: i64, later_ms: i64)
    requires
        opt_row_is_valid(r),
    ensures
        renew_spec(r, owner, now_ms, requested) matches Ok((RenewView::Renewed(lease), w)) ==> {
            let current = live_lease(r.unwrap(), now_ms).unwrap();
            &&& live_lease(r.unwrap(), now_ms) is Some
            &&& current.owner == owner
            &&& lease.owner == current.owner
            &&& lease.token == current.token
            &&& lease.lease_expires_at_ms >= current.lease_expires_at_ms
            &&& lease.lease_expires_at_ms >= requested
            &&& (lease.lease_expires_at_ms == current.lease_expires_at_ms
                || lease.lease_expires_at_ms == requested)
            &&& (later_ms < lease.lease_expires_at_ms ==> inspect_spec(
                after_op(r, name, now_ms, w),
                later_ms,
            ) == Ok::<Option<LeaseView>, crate::model::Fault>(Some(lease)))
        },
{
}

/// Only the live owner renews or releases: anyone else, or anyone when no
/// lease is live, is rejected with the current live lease (or none), and
/// nothing is written.
pub proof fn only_live_owner_renews_or_releases(
    r: Option<RowView>,
    owner: Seq<char>,
    now_ms: i64,
    requested: i64,
)
    requires
        opt_row_is_valid(r),
    ensures
        ({
            let current = if r is Some {
                live_lease(r.unwrap(), now_ms)
            } else {
                None
            };
            !(current is Some && current.unwrap().owner == owner) ==> {
                &&& renew_spec(r, owner, now_ms, requested) == Ok::<
                    (RenewView, Option<WriteView>),
                    crate::model::Fault,
                >((RenewView::Rejected(current), None))
                &&& release_spec(r, owner, now_ms) == Ok::<
                    (ReleaseView, Option<WriteView>),
                    crate::model::Fault,
                >((ReleaseView::Rejected(current), None))
            }
        }),
{
}

/// Release clears ownership and keeps the fencing state: after a release the
/// row has neither owner nor expiry, holds the same token, answers no live
/// lease at any time, and the next claim by anyone acquires the token after
/// the released one.
pub proof fn release_then_reclaim_advances_token(
    r: Option<RowView>,
    name: Seq<char>,
    owner: Seq<char>,
    now_ms: i64,
    next_owner: Seq<char>,
    next_now_ms: i64,
    next_expires: i64,
    later_ms: i64,
)
    requires
        opt_row_is_valid(r),
    ensures
        release_spec(r, owner, now_ms) matches Ok((ReleaseView::Released { name: n, token: t }, w))
            ==> {
            let after = after_op(r, name, now_ms, w);
            &&& after.unwrap().owner is None
            &&& after.unwrap().lease_expires_at_ms is None
            &&& after.unwrap().token == t
            &&& n == r.unwrap().name
            &&& inspect_spec(after, later_ms) == Ok::<Option<LeaseView>, crate::model::Fault>(None)
            &&& t < i64::MAX ==> claim_answer(after, name, next_owner, next_now_ms, next_expires)
                == Ok::<ClaimView, crate::model::Fault>(
                ClaimView::Acquired(
                    LeaseView {
                        name: after.unwrap().name,
                        owner: next_owner,
                        token: (t + 1) as i64,
                        lease_expires_at_ms: next_expires,
                    },
                ),
            )
        },
{
}

/// Expiry hands a resource over: once a lease has expired, a claim by
/// anyone acquires it with the next token, unless the token is exhausted,
/// in which case the claim fails and writes nothing.
pub proof fn expired_lease_is_taken_over(
    r: RowView,
    name: Seq<char>,
    owner: Seq<char>,
    now_ms: i64,
    expires: i64,
)
    requires
        row_is_valid(r),
        live_lease(r, now_ms) is None,
    ensures
        r.token < i64::MAX ==> claim_answer(Some(r), name, owner, now_ms, expires) == Ok::<
            ClaimView,
            crate::model::Fault,
        >(
            ClaimView::Acquired(
                LeaseView {
                    name: r.name,
                    owner,
                    token: (r.token + 1) as i64,
                    lease_expires_at_ms: expires,
                },
            ),
        ),
        r.token == i64::MAX ==> claim_spec(Some(r), name, owner, now_ms, expires) == Err::<
            (ClaimView, Option<WriteView>),
            crate::model::Fault,
        >(crate::model::Fault::TokenOverflow(r.name)),
{
}

/// The three reads agree: when a row holds a live lease, `owner` answers its
/// owner and `token` its token; with no live lease `owner` answers none while
/// `token` still answers the row's token.
pub proof fn reads_agree(r: Option<RowView>, now_ms: i64)
    ensures
        inspect_spec(r, now_ms) matches Ok(Some(lease)) ==> {
            &&& owner_spec(r, now_ms) == Ok::<Option<Seq<char>>, crate::model::Fault>(
                Some(lease.owner),
            )
            &&& token_spec(r) == Ok::<Option<i64>, crate::model::Fault>(Some(lease.token))
        },
        inspect_spec(r, now_ms) matches Ok(None) ==> owner_spec(r, now_ms) == Ok::<
            Option<Seq<char>>,
            crate::model::Fault,
        >(None),
        inspect_spec(r, now_ms) is Err ==> owner_spec(r, now_ms) is Err && token_spec(r) is Err,
{
}

/// Malformed rows fail loudly: every operation on a row that is not well
/// formed answers `InvalidLeaseRow` for that row and writes nothing.
pub proof fn malformed_rows_fail_loudly(
    r: RowView,
    name: Seq<char>,
    owner: Seq<char>,
    now_ms: i64,
    expires: i64,
)
    requires
        !row_is_valid(r),
    ensures
        claim_spec(Some(r), name, owner, now_ms, expires) == Err::<
            (ClaimView, Option<WriteView>),
            crate::model::Fault,
        >(crate::model::Fault::InvalidLeaseRow(r.name)),
        renew_spec(Some(r), owner, now_ms, expires) == Err::<
            (RenewView, Option<WriteView>),
            crate::model::Fault,
        >(crate::model::Fault::InvalidLeaseRow(r.name)),
        release_spec(Some(r), owner, now_ms) == Err::<
            (ReleaseView, Option<WriteView>),
            crate::model::Fault,
        >(crate::model::Fault::InvalidLeaseRow(r.name)),
        inspect_spec(Some(r), now_ms) == Err::<Option<LeaseView>, crate::model::Fault>(
            crate::model::Fault::InvalidLeaseRow(r.name),
        ),
{
}

/// Over any sequence of claims, renewals and releases on one resource, the
/// row stays well formed, once written it stays present, and its fencing
/// token never decreases.
pub proof fn sequences_keep_rows_valid_and_tokens_monotonic(
    r: Option<RowView>,
    name: Seq<char>,
    ops: Seq<LeaseOp>,
)
    requires
        opt_row_is_valid(r),
    ensures
        opt_row_is_valid(run_ops(r, name, ops)),
        r is Some ==> run_ops(r, name, ops) is Some && run_ops(r, name, ops).unwrap().token
            >= r.unwrap().token,
    decreases ops.len(),
{
    if ops.len() > 0 {
        let next = step_row(r, name, ops[0]);
        match ops[0] {
            LeaseOp::Claim { owner, now_ms, expires } => {
                operations_keep_rows_valid(r, name, owner, now_ms, expires);
                fencing_tokens_are_monotonic(r, name, owner, now_ms, expires);
            },
            LeaseOp::Renew { owner, now_ms, requested } => {
                operations_keep_rows_valid(r, name, owner, now_ms, requested);
                fencing_tokens_are_monotonic(r, name, owner, now_ms, requested);
            },
            LeaseOp::Release { owner, now_ms } => {
                operations_keep_rows_valid(r, name, owner, now_ms, 0);
                fencing_tokens_are_monotonic(r, name, owner, now_ms, 0);
            },
        }
        assert(opt_row_is_valid(next));
        sequences_keep_rows_valid_and_tokens_monotonic(next, name, ops.drop_first());
    }
}

/// What is handed to SQLite never moves a fencing token backwards. Any
/// write that a claim, renewal or release persists for a well-formed (or
/// absent) row binds the resource's name as its first parameter; a write
/// that sets the token column binds, as parameter `?3`, the token of the row
/// it leaves behind, which is above the token read (at least 1 for a fresh
/// name); and a write that sets no token column only happens on an existing
/// row, whose token it keeps.
pub proof fn persisted_tokens_never_go_backwards(r: Option<RowView>, name: Seq<char>, op: LeaseOp, w: WriteView)
    requires
        opt_row_is_valid(r),
        op_write(r, name, op) == Some(w),
    ensures
        write_args_spec(name, op_now(op), w)[0] == ArgView::Text(name),
        written_token(w) matches Some(t) ==> {
            &&& write_args_spec(name, op_now(op), w)[2] == ArgView::Integer(t)
            &&& t == after_op(r, name, op_now(op), Some(w)).unwrap().token
            &&& t > (if r is Some {
                r.unwrap().token
            } else {
                0
            })
        },
        written_token(w) is None ==> {
            &&& r is Some
            &&& after_op(r, name, op_now(op), Some(w)).unwrap().token == r.unwrap().token
        },
{
}

/// What any claim answers at `now_ms` with a ttl of `ttl_ms`, whatever row
/// it read: an acquired lease belongs to the claimant, carries a positive
/// token and expires exactly `ttl_ms` after `now_ms`; a busy answer carries
/// a lease that is still live at `now_ms`.
pub proof fn claim_answers_are_sound(
    res: Result<ClaimView, Fault>,
    name: Seq<char>,
    owner: Seq<char>,
    now_ms: i64,
    ttl_ms: i64,
)
    requires
        claim_outcome(res, name, owner, now_ms, ttl_ms),
    ensures
        res matches Ok(ClaimView::Acquired(l)) ==> {
            &&& l.owner == owner
            &&& l.token >= 1
            &&& l.lease_expires_at_ms == now_ms + ttl_ms
            &&& l.lease_expires_at_ms > now_ms
        },
        res matches Ok(ClaimView::Busy(l)) ==> l.lease_expires_at_ms > now_ms,
{
    if res is Ok {
        let expires = expiry_spec(now_ms, ttl_ms)->Ok_0;
        let r = choose|r: Option<RowView>| #[trigger] claim_answer(r, name, owner, now_ms, expires) == res;
        assert(claim_answer(r, name, owner, now_ms, expires) == res);
    }
}

/// What any renewal answers at `now_ms` with a ttl of `ttl_ms`, whatever
/// row it read: a renewed lease belongs to the renewer and now expires no
/// earlier than `ttl_ms` after `now_ms`; a rejection that names a lease
/// names one that is live at `now_ms` and held by someone else.
pub proof fn renewal_answers_are_sound(res: Result<RenewView, Fault>, owner: Seq<char>, now_ms: i64, ttl_ms: i64)
    requires
        renew_outcome(res, owner, now_ms, ttl_ms),
    ensures
        res matches Ok(RenewView::Renewed(l)) ==> {
            &&& l.owner == owner
            &&& l.lease_expires_at_ms >= now_ms + ttl_ms
            &&& l.lease_expires_at_ms > now_ms
        },
        res matches Ok(RenewView::Rejected(Some(l))) ==> l.owner != owner && l.lease_expires_at_ms
            > now_ms,
{
    if res is Ok {
        let requested = expiry_spec(now_ms, ttl_ms)->Ok_0;
        let r = choose|r: Option<RowView>| #[trigger] renew_answer(r, owner, now_ms, requested) == res;
        assert(renew_answer(r, owner, now_ms, requested) == res);
    }
}

/// What any release answers at `now_ms`, whatever row it read: a release
/// happens only of a live lease, and a rejection that names a lease names
/// one that is live at `now_ms` and held by someone else.
pub proof fn release_answers_are_sound(res: Result<ReleaseView, Fault>, owner: Seq<char>, now_ms: i64)
    requires
        release_outcome(res, owner, now_ms),
    ensures
        res matches Ok(ReleaseView::Released { token, .. }) ==> token >= 1,
        res matches Ok(ReleaseView::Rejected(Some(l))) ==> l.owner != owner && l.lease_expires_at_ms
            > now_ms,
{
    if res is Ok {
        let r = choose|r: Option<RowView>| #[trigger] release_answer(r, owner, now_ms) == res;
        assert(release_answer(r, owner, now_ms) == res);
    }
}

/// What any read of the live lease answers at `now_ms`, whatever row it
/// read: a lease it hands back is live at `now_ms`.
pub proof fn inspect_answers_are_sound(res: Result<Option<LeaseView>, Fault>, now_ms: i64)
    requires
        inspect_outcome(res, now_ms),
    ensures
        res matches Ok(Some(l)) ==> l.lease_expires_at_ms > now_ms && l.token >= 1,
{
    if res is Ok {
        let r = choose|r: Option<RowView>| #[trigger] inspect_spec(r, now_ms) == res;
        assert(inspect_spec(r, now_ms) == res);
    }
}

/// For the row a read hands back, an inspection at `now_ms` answers its
/// lease exactly when the row is well formed, holds an owner, and expires
/// after `now_ms`.
pub proof fn inspect_answers_the_live_lease(r: RowView, now_ms: i64)
    requires
        row_is_valid(r),
    ensures
        (inspect_spec(Some(r), now_ms) matches Ok(Some(_))) <==> (r.owner is Some
            && r.lease_expires_at_ms.unwrap() > now_ms),
        inspect_spec(Some(r), now_ms) matches Ok(Some(l)) ==> l.owner == r.owner.unwrap() && l.token
            == r.token && l.lease_expires_at_ms == r.lease_expires_at_ms.unwrap(),
{
}

/// The answer of a claim and what it persists go together, for the row it
/// read: it acquires exactly when that row holds no live lease at `now_ms`
/// (and the token is not exhausted), and then persists the acquired lease's
/// owner, token and expiry as SQL parameters `?2`, `?3` and `?4`; it is busy
/// exactly with that row's live lease, and then persists nothing.
pub proof fn claim_answer_matches_its_write(
    r: Option<RowView>,
    name: Seq<char>,
    owner: Seq<char>,
    now_ms: i64,
    expires: i64,
)
    requires
        opt_row_is_valid(r),
        r is Some ==> r.unwrap().token < i64::MAX,
    ensures
        (claim_answer(r, name, owner, now_ms, expires) matches Ok(ClaimView::Acquired(_))) <==> (r is None
            || live_lease(r.unwrap(), now_ms) is None),
        claim_spec(r, name, owner, now_ms, expires) matches Ok((ClaimView::Acquired(l), w)) ==> {
            &&& w is Some
            &&& write_args_spec(name, now_ms, w.unwrap())[1] == ArgView::Text(l.owner)
            &&& write_args_spec(name, now_ms, w.unwrap())[2] == ArgView::Integer(l.token)
            &&& write_args_spec(name, now_ms, w.unwrap())[3] == ArgView::Integer(l.lease_expires_at_ms)
            &&& live_lease(after_op(r, name, now_ms, w).unwrap(), now_ms) == (if expires > now_ms {
                Some(l)
            } else {
                None
            })
        },
        claim_spec(r, name, owner, now_ms, expires) matches Ok((ClaimView::Busy(l), w)) ==> {
            &&& w is None
            &&& Some(l) == live_lease(r.unwrap(), now_ms)
        },
{
}

/// The answer of a renewal and what it persists go together, for the row
/// it read: a renewal persists, as SQL parameter `?2`, exactly the expiry of
/// the renewed lease, the later of the current expiry and the requested one,
/// and the row then holds that lease; any other answer persists nothing.
pub proof fn renewal_answer_matches_its_write(
    r: Option<RowView>,
    name: Seq<char>,
    owner: Seq<char>,
    now_ms: i64,
    requested: i64,
)
    requires
        opt_row_is_valid(r),
    ensures
        renew_spec(r, owner, now_ms, requested) matches Ok((RenewView::Renewed(l), w)) ==> {
            let current = live_lease(r.unwrap(), now_ms).unwrap();
            &&& w == Some(WriteView::Extend { lease_expires_at_ms: l.lease_expires_at_ms })
            &&& write_args_spec(name, now_ms, w.unwrap())[1] == ArgView::Integer(l.lease_expires_at_ms)
            &&& l.lease_expires_at_ms == (if current.lease_expires_at_ms >= requested {
                current.lease_expires_at_ms
            } else {
                requested
            })
            &&& after_op(r, name, now_ms, w).unwrap().lease_expires_at_ms == Some(l.lease_expires_at_ms)
            &&& after_op(r, name, now_ms, w).unwrap().owner == Some(owner)
        },
        renew_spec(r, owner, now_ms, requested) matches Ok((RenewView::Rejected(_), w)) ==> w is None,
{
}

/// The answer of a release and what it persists go together, for the row
/// it read: a release clears owner and expiry and keeps the token; any other
/// answer persists nothing.
pub proof fn release_answer_matches_its_write(r: Option<RowView>, name: Seq<char>, owner: Seq<char>, now_ms: i64)
    requires
        opt_row_is_valid(r),
    ensures
        release_spec(r, owner, now_ms) matches Ok((ReleaseView::Released { token, .. }, w)) ==> {
            &&& w == Some(WriteView::Clear)
            &&& live_lease(r.unwrap(), now_ms) is Some
            &&& live_lease(r.unwrap(), now_ms).unwrap().owner == owner
            &&& after_op(r, name, now_ms, w).unwrap().owner is None
            &&& after_op(r, name, now_ms, w).unwrap().lease_expires_at_ms is None
            &&& after_op(r, name, now_ms, w).unwrap().token == token
        },
        release_spec(r, owner, now_ms) matches Ok((ReleaseView::Rejected(_), w)) ==> w is None,
{
}

} // verus!
