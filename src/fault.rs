use vstd::prelude::*;
use crate::scheduler::FailureKind;

verus! {

/// A failed write as the storage driver reported it.
#[derive(Clone, Debug, PartialEq, Eq)]
pub enum StorageFault {
    /// The write did not finish within its time limit.
    TimedOut,
    /// The connection failed while talking to the store.
    Io,
    /// No pooled connection became free in time.
    PoolTimedOut,
    /// The connection pool has been shut down.
    PoolClosed,
    /// The store refused the statement; the SQLSTATE code it gave, or an
    /// empty string where it gave none.
    Database(String),
    /// Anything else.
    Other,
}

/// SQLSTATE classes that describe a passing condition: connection
/// exceptions (`08`) and transaction rollbacks such as deadlocks and
/// serialization failures (`40`).
pub open spec fn transient_sqlstate(code: Seq<char>) -> bool {
    code.len() >= 2 && ((code[0] == '0' && code[1] == '8') || (code[0] == '4' && code[1] == '0'))
}

pub open spec fn fault_kind(f: StorageFault) -> FailureKind {
    match f {
        StorageFault::TimedOut => FailureKind::Transient,
        StorageFault::Io => FailureKind::Transient,
        StorageFault::PoolTimedOut => FailureKind::Transient,
        StorageFault::Database(code) => if transient_sqlstate(code@) {
            FailureKind::Transient
        } else {
            FailureKind::Rejected
        },
        _ => FailureKind::Rejected,
    }
}

/// Whether a failed write may be retried on the same batch.
pub fn classify(fault: &StorageFault) -> (r: FailureKind)
    ensures
        r == fault_kind(*fault),
{
    match fault {
        StorageFault::TimedOut => FailureKind::Transient,
        StorageFault::Io => FailureKind::Transient,
        StorageFault::PoolTimedOut => FailureKind::Transient,
        StorageFault::Database(code) => {
            let s = code.as_str();
            if s.unicode_len() >= 2 {
                let a = s.get_char(0);
                let b = s.get_char(1);
                if (a == '0' && b == '8') || (a == '4' && b == '0') {
                    FailureKind::Transient
                } else {
                    FailureKind::Rejected
                }
            } else {
                FailureKind::Rejected
            }
        },
        _ => FailureKind::Rejected,
    }
}

} // verus!
