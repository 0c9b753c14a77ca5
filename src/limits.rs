use vstd::prelude::*;

verus! {

/// Permission bits of each control-group file: read, write and execute for
/// the owner only.
pub const OWNER_ONLY_MODE: u32 = 0o700;

/// The decimal text of `n`, as ASCII bytes.
pub open spec fn decimal(n: nat) -> Seq<u8>
    decreases n,
{
    if n < 10 {
        seq![(n + 48) as u8]
    } else {
        decimal(n / 10).push((n % 10 + 48) as u8)
    }
}

/// The number written by a sequence of ASCII decimal digits.
pub open spec fn decimal_value(s: Seq<u8>) -> int
    decreases s.len(),
{
    if s.len() == 0 {
        0
    } else {
        decimal_value(s.drop_last()) * 10 + (s.last() as int - 48)
    }
}

/// One file of the control group and the bytes written into it.
pub struct LimitRecord {
    pub file: String,
    pub content: Vec<u8>,
    pub mode: u32,
}

/// The three records that place a process in a process-count-limited
/// control group, in the order in which they are written: the limit, the
/// release-on-empty flag, then the membership list.
pub open spec fn limit_plan(records: Seq<LimitRecord>, pid: u32, max_pids: u32) -> bool {
    &&& records.len() == 3
    &&& records[0].file@ == "pids.max"@
    &&& records[0].content@ == decimal(max_pids as nat)
    &&& records[1].file@ == "notify_on_release"@
    &&& records[1].content@ == decimal(1)
    &&& records[2].file@ == "cgroup.procs"@
    &&& records[2].content@ == decimal(pid as nat)
    &&& forall|i: int| 0 <= i < 3 ==> #[trigger] records[i].mode == OWNER_ONLY_MODE
}

/// Writes `n` in decimal, as ASCII bytes.
pub fn decimal_bytes(n: u32) -> (r: Vec<u8>)
    ensures
        r@ == decimal(n as nat),
    decreases n,
{
    if n < 10 {
        let d: u8 = n as u8 + 48;
        vec![d]
    } else {
        let mut v = decimal_bytes(n / 10);
        let d: u8 = (n % 10) as u8 + 48;
        v.push(d);
        v
    }
}

/// The records that limit the group to `max_pids` processes, release it when
/// it empties, and make `pid` its member.
pub fn limit_records(pid: u32, max_pids: u32) -> (r: Vec<LimitRecord>)
    ensures
        limit_plan(r@, pid, max_pids),
{
    let mut r: Vec<LimitRecord> = Vec::new();
    r.push(LimitRecord { file: "pids.max".to_owned(), content: decimal_bytes(max_pids), mode: OWNER_ONLY_MODE });
    r.push(LimitRecord { file: "notify_on_release".to_owned(), content: decimal_bytes(1), mode: OWNER_ONLY_MODE });
    r.push(LimitRecord { file: "cgroup.procs".to_owned(), content: decimal_bytes(pid), mode: OWNER_ONLY_MODE });
    r
}

proof fn lemma_decimal_value(n: nat)
    ensures
        decimal_value(decimal(n)) == n,
    decreases n,
{
    if n < 10 {
        let s = decimal(n);
        assert(s.drop_last() =~= Seq::<u8>::empty());
        assert(s.last() as int == n + 48);
        assert(decimal_value(s.drop_last()) == 0);
        assert(decimal_value(s) == decimal_value(s.drop_last()) * 10 + (s.last() as int - 48));
    } else {
        lemma_decimal_value(n / 10);
        let s = decimal(n);
        assert(s.drop_last() =~= decimal(n / 10));
        assert(s.last() as int == n % 10 + 48);
        assert(n == (n / 10) * 10 + n % 10);
        assert(decimal_value(s) == decimal_value(s.drop_last()) * 10 + (s.last() as int - 48));
    }
}

/// Once the records are written, the membership list reads back as the
/// launching process's identifier, and the limit as the configured maximum.
pub proof fn lemma_membership_names_pid(records: Seq<LimitRecord>, pid: u32, max_pids: u32)
    requires
        limit_plan(records, pid, max_pids),
    ensures
        decimal_value(records[2].content@) == pid,
        decimal_value(records[0].content@) == max_pids,
{
    lemma_decimal_value(pid as nat);
    lemma_decimal_value(max_pids as nat);
}

} // verus!
