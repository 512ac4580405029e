//! Progress from the frame server's diagnostic stream. The stream is cut into
//! records at each carriage return; a record that holds `Frame: <current>/<total>`
//! moves the position, and the first such record also fixes the total.
use vstd::prelude::*;

verus! {

/// The record separator of the diagnostic stream.
pub const RECORD_SEPARATOR: u8 = 13;

pub open spec fn is_digit(b: u8) -> bool {
    48 <= b <= 57
}

/// The bytes of `Frame: `.
pub open spec fn frame_tag() -> Seq<u8> {
    seq![70u8, 114u8, 97u8, 109u8, 101u8, 58u8, 32u8]
}

/// Length of the run of ASCII digits that starts at `i`.
pub open spec fn digit_run(r: Seq<u8>, i: int) -> nat
    decreases r.len() - i,
{
    if 0 <= i < r.len() && is_digit(r[i]) {
        1 + digit_run(r, i + 1)
    } else {
        0
    }
}

/// The number written by the `n` digits that start at `i`.
pub open spec fn digits_value(r: Seq<u8>, i: int, n: nat) -> nat
    decreases n,
{
    if n == 0 {
        0
    } else {
        digits_value(r, i, (n - 1) as nat) * 10 + (r[i + n - 1] - 48) as nat
    }
}

/// Where the current count of a marker at `i` starts.
pub open spec fn current_start(i: int) -> int {
    i + 7
}

/// Where the total of a marker at `i` starts.
pub open spec fn total_start(r: Seq<u8>, i: int) -> int {
    i + 7 + digit_run(r, i + 7) + 1
}

/// A progress marker starts at `i`: the tag, digits, a slash, digits.
pub open spec fn marker_at(r: Seq<u8>, i: int) -> bool {
    let c = current_start(i);
    let n = digit_run(r, c);
    &&& 0 <= i
    &&& i + 7 <= r.len()
    &&& r.subrange(i, i + 7) == frame_tag()
    &&& n > 0
    &&& c + n < r.len()
    &&& r[c + n] == 47
    &&& digit_run(r, c + n + 1) > 0
}

/// The first position at or after `i` where a marker starts.
pub open spec fn first_marker_from(r: Seq<u8>, i: int) -> Option<int>
    decreases r.len() + 1 - i,
{
    if i < 0 || i > r.len() {
        None
    } else if marker_at(r, i) {
        Some(i)
    } else {
        first_marker_from(r, i + 1)
    }
}

/// The (current, total) pair of the first marker in a record.
pub open spec fn record_marker(r: Seq<u8>) -> Option<(nat, nat)> {
    match first_marker_from(r, 0) {
        Some(i) => Some(
            (
                digits_value(r, current_start(i), digit_run(r, current_start(i))),
                digits_value(r, total_start(r, i), digit_run(r, total_start(r, i))),
            ),
        ),
        None => None,
    }
}

/// The counts of a record's marker, where it has one whose counts fit in 64 bits.
pub open spec fn record_counts(r: Seq<u8>) -> Option<(u64, u64)> {
    match record_marker(r) {
        Some((c, t)) => if c <= u64::MAX && t <= u64::MAX {
            Some((c as u64, t as u64))
        } else {
            None
        },
        None => None,
    }
}

/// What a progress indicator shows: the total, once one has been read, and
/// the position.
#[derive(Clone, Copy, Debug, PartialEq, Eq, Structural)]
pub struct ProgressState {
    pub total: Option<u64>,
    pub position: u64,
}

/// Changes for a progress indicator after one record.
#[derive(Clone, Copy, Debug, PartialEq, Eq, Structural)]
pub struct ProgressUpdate {
    pub set_length: Option<u64>,
    pub set_position: Option<u64>,
}

/// The state after one record: a marker moves the position, and sets the
/// total only when none was set before; any other record changes nothing.
pub open spec fn step(st: ProgressState, r: Seq<u8>) -> ProgressState {
    match record_counts(r) {
        Some((c, t)) => ProgressState {
            total: if st.total is Some {
                st.total
            } else {
                Some(t)
            },
            position: c,
        },
        None => st,
    }
}

/// The state after a sequence of records, taken in order.
pub open spec fn run(st: ProgressState, rs: Seq<Seq<u8>>) -> ProgressState
    decreases rs.len(),
{
    if rs.len() == 0 {
        st
    } else {
        run(step(st, rs[0]), rs.drop_first())
    }
}

/// The total of the first record in `rs` that holds a marker.
pub open spec fn first_total(rs: Seq<Seq<u8>>) -> Option<u64>
    decreases rs.len(),
{
    if rs.len() == 0 {
        None
    } else {
        match record_counts(rs[0]) {
            Some((_, t)) => Some(t),
            None => first_total(rs.drop_first()),
        }
    }
}

/// The total is never known before a record with a marker has been read:
/// from the initial state, the total after any sequence of records is that
/// of the first record that holds a marker, and none if no record does.
pub proof fn lemma_total_from_first_marker(rs: Seq<Seq<u8>>)
    ensures
        run(ProgressState::initial(), rs).total == first_total(rs),
    decreases rs.len(),
{
    lemma_run_from(ProgressState::initial(), rs);
}

proof fn lemma_run_from(st: ProgressState, rs: Seq<Seq<u8>>)
    ensures
        run(st, rs).total == if st.total is Some {
            st.total
        } else {
            first_total(rs)
        },
    decreases rs.len(),
{
    if rs.len() > 0 {
        lemma_run_from(step(st, rs[0]), rs.drop_first());
    }
}

/// Records without a marker leave every state as it was.
pub proof fn lemma_unmarked_records_ignored(st: ProgressState, rs: Seq<Seq<u8>>)
    requires
        forall|k: int| 0 <= k < rs.len() ==> record_counts(#[trigger] rs[k]) is None,
    ensures
        run(st, rs) == st,
    decreases rs.len(),
{
    if rs.len() > 0 {
        assert(record_counts(rs[0]) is None);
        assert forall|k: int| 0 <= k < rs.drop_first().len() implies record_counts(
            #[trigger] rs.drop_first()[k],
        ) is None by {
            assert(rs.drop_first()[k] == rs[k + 1]);
        }
        lemma_unmarked_records_ignored(st, rs.drop_first());
    }
}

proof fn lemma_digit_run_step(r: Seq<u8>, j: int)
    requires
        0 <= j < r.len(),
        is_digit(r[j]),
    ensures
        digit_run(r, j) == 1 + digit_run(r, j + 1),
{
}

/// Reads the run of digits at `i`: its end, and its value if that fits in 64 bits.
fn scan_digits(r: &[u8], i: usize) -> (res: (usize, Option<u64>))
    requires
        i <= r@.len(),
    ensures
        res.0 == i + digit_run(r@, i as int),
        res.0 <= r@.len(),
        match res.1 {
            Some(v) => v as nat == digits_value(r@, i as int, digit_run(r@, i as int)),
            None => digits_value(r@, i as int, digit_run(r@, i as int)) > u64::MAX,
        },
{
    let mut j: usize = i;
    let mut acc: Option<u64> = Some(0);
    while j < r.len() && 48 <= r[j] && r[j] <= 57
        invariant
            i <= j <= r@.len(),
            digit_run(r@, i as int) == (j - i) + digit_run(r@, j as int),
            forall|k: int| i <= k < j ==> is_digit(r@[k]),
            match acc {
                Some(v) => v as nat == digits_value(r@, i as int, (j - i) as nat),
                None => digits_value(r@, i as int, (j - i) as nat) > u64::MAX,
            },
        decreases r@.len() - j,
    {
        proof {
            lemma_digit_run_step(r@, j as int);
        }
        let d = (r[j] - 48) as u64;
        acc = match acc {
            Some(v) => match v.checked_mul(10) {
                Some(m) => m.checked_add(d),
                None => None,
            },
            None => None,
        };
        assert(digits_value(r@, i as int, (j + 1 - i) as nat) == digits_value(
            r@,
            i as int,
            (j - i) as nat,
        ) * 10 + d);
        j = j + 1;
    }
    (j, acc)
}

fn tag_at(r: &[u8], i: usize) -> (b: bool)
    requires
        i + 7 <= r@.len(),
    ensures
        b == (r@.subrange(i as int, i + 7) == frame_tag()),
{
    let b = r[i] == 70 && r[i + 1] == 114 && r[i + 2] == 97 && r[i + 3] == 109 && r[i + 4] == 101
        && r[i + 5] == 58 && r[i + 6] == 32;
    if b {
        assert(r@.subrange(i as int, i + 7) =~= frame_tag());
    } else {
        assert(r@.subrange(i as int, i + 7) != frame_tag()) by {
            if r@.subrange(i as int, i + 7) == frame_tag() {
                assert(r@.subrange(i as int, i + 7)[0] == r@[i as int]);
                assert(r@.subrange(i as int, i + 7)[1] == r@[i + 1]);
                assert(r@.subrange(i as int, i + 7)[2] == r@[i + 2]);
                assert(r@.subrange(i as int, i + 7)[3] == r@[i + 3]);
                assert(r@.subrange(i as int, i + 7)[4] == r@[i + 4]);
                assert(r@.subrange(i as int, i + 7)[5] == r@[i + 5]);
                assert(r@.subrange(i as int, i + 7)[6] == r@[i + 6]);
            }
        }
    }
    b
}

/// Reads a marker at `i`, if one starts there: the values of its two counts,
/// each absent when it does not fit in 64 bits.
fn marker_at_exec(r: &[u8], i: usize) -> (res: Option<(Option<u64>, Option<u64>)>)
    requires
        i <= r@.len(),
    ensures
        res is Some <==> marker_at(r@, i as int),
        match res {
            Some((c, t)) => {
                let cs = current_start(i as int);
                let ts = total_start(r@, i as int);
                &&& (match c {
                    Some(v) => v as nat == digits_value(r@, cs, digit_run(r@, cs)),
                    None => digits_value(r@, cs, digit_run(r@, cs)) > u64::MAX,
                })
                &&& (match t {
                    Some(v) => v as nat == digits_value(r@, ts, digit_run(r@, ts)),
                    None => digits_value(r@, ts, digit_run(r@, ts)) > u64::MAX,
                })
            },
            None => true,
        },
{
    if r.len() < 7 || i > r.len() - 7 {
        return None;
    }
    if !tag_at(r, i) {
        return None;
    }
    let (end, current) = scan_digits(r, i + 7);
    if end == i + 7 || end >= r.len() || r[end] != 47 {
        return None;
    }
    let (end2, total) = scan_digits(r, end + 1);
    if end2 == end + 1 {
        return None;
    }
    Some((current, total))
}

proof fn lemma_first_marker_skip(r: Seq<u8>, a: int, i: int)
    requires
        0 <= a <= i <= r.len() + 1,
        forall|k: int| a <= k < i ==> !marker_at(r, k),
    ensures
        first_marker_from(r, a) == first_marker_from(r, i),
    decreases i - a,
{
    if a < i {
        lemma_first_marker_skip(r, a + 1, i);
    }
}

/// The counts of the first progress marker in a record, where both fit in 64
/// bits.
pub fn parse_record(record: &[u8]) -> (res: Option<(u64, u64)>)
    ensures
        res == record_counts(record@),
{
    let n = record.len();
    let mut i: usize = 0;
    while i <= n
        invariant
            n == record@.len(),
            i <= n,
            forall|k: int| 0 <= k < i ==> !marker_at(record@, k),
        decreases n + 1 - i,
    {
        match marker_at_exec(record, i) {
            Some((c, t)) => {
                proof {
                    lemma_first_marker_skip(record@, 0, i as int);
                }
                return match (c, t) {
                    (Some(c), Some(t)) => Some((c, t)),
                    _ => None,
                };
            },
            None => {},
        }
        if i == n {
            proof {
                lemma_first_marker_skip(record@, 0, n + 1);
            }
            return None;
        }
        i = i + 1;
    }
    None
}

impl ProgressState {
    pub open spec fn initial() -> ProgressState {
        ProgressState { total: None, position: 0 }
    }

    /// No total is known and the position is zero.
    pub fn new() -> (r: ProgressState)
        ensures
            r == ProgressState::initial(),
    {
        ProgressState { total: None, position: 0 }
    }

    /// Takes one record of the diagnostic stream into account, and says what
    /// a progress indicator has to change.
    pub fn observe(&mut self, record: &[u8]) -> (u: ProgressUpdate)
        ensures
            *final(self) == step(*old(self), record@),
            u.set_position == match record_counts(record@) {
                Some((c, _)) => Some(c),
                None => None,
            },
            u.set_length == match record_counts(record@) {
                Some((_, t)) => if old(self).total is None {
                    Some(t)
                } else {
                    None
                },
                None => None,
            },
    {
        match parse_record(record) {
            Some((c, t)) => {
                let set_length = if self.total.is_none() {
                    self.total = Some(t);
                    Some(t)
                } else {
                    None
                };
                self.position = c;
                ProgressUpdate { set_length, set_position: Some(c) }
            },
            None => ProgressUpdate { set_length: None, set_position: None },
        }
    }
}

} // verus!
