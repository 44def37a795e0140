//! Reading the lock file that tracks whether another instance of a program
//! is already running: classifying its contents, and parsing the process id
//! stored in it.
//!
//! The file system itself is the embedding program's business; this module
//! decides, from the observed contents (or their absence), which result the
//! caller is owed.

use vstd::prelude::*;
use vstd::string::StringExecFns;

verus! {

/// Classifies problems with a program's lock file.
#[derive(Debug, PartialEq, Eq)]
pub enum LockError {
    /// No lock file at this path.
    NoLock(String),
    /// The lock file at this path does not hold a process id.
    CorruptLock(String),
    /// Catchall for any other failure, with its reason.
    Uncategorized(String),
}

/// The digits of `s` after an optional leading `+`, as `str::parse::<u32>`
/// sees them.
pub open spec fn pid_digits(s: Seq<u8>) -> Seq<u8> {
    if s.len() > 0 && s[0] == 43 {
        s.drop_first()
    } else {
        s
    }
}

/// The value of `digits` read as a decimal numeral.
pub open spec fn digits_value(digits: Seq<u8>) -> nat
    decreases digits.len(),
{
    if digits.len() == 0 {
        0
    } else {
        (digits_value(digits.drop_last()) * 10 + (digits.last() - 48)) as nat
    }
}

/// `bytes` spell a process id exactly as `str::parse::<u32>` accepts one: an
/// optional leading `+`, then at least one ASCII digit and nothing else, with
/// a value that fits in `u32`.
pub open spec fn is_pid_literal(bytes: Seq<u8>) -> bool {
    let digits = pid_digits(bytes);
    &&& digits.len() > 0
    &&& forall|i: int| 0 <= i < digits.len() ==> 48 <= #[trigger] digits[i] <= 57
    &&& digits_value(digits) <= u32::MAX
}

/// The process id spelled by `bytes`.
pub open spec fn pid_value(bytes: Seq<u8>) -> nat {
    digits_value(pid_digits(bytes))
}

/// A digit prefix never spells more than the whole numeral.
proof fn lemma_digits_value_prefix_le(digits: Seq<u8>, k: int)
    requires
        0 <= k <= digits.len(),
        forall|i: int| 0 <= i < digits.len() ==> 48 <= #[trigger] digits[i] <= 57,
    ensures
        digits_value(digits.take(k)) <= digits_value(digits),
    decreases digits.len() - k,
{
    if k < digits.len() {
        lemma_digits_value_prefix_le(digits, k + 1);
        assert(digits.take(k + 1).drop_last() =~= digits.take(k));
        assert(48 <= digits.take(k + 1).last() <= 57);
        assert(digits_value(digits.take(k + 1)) == (digits_value(digits.take(k)) * 10 + (
        digits.take(k + 1).last() - 48)) as nat);
    } else {
        assert(digits.take(k) =~= digits);
    }
}

/// Parses the decimal process id spelled by `bytes`: `Some` exactly when the
/// bytes are a pid literal, and then exactly its value.
pub fn parse_pid(bytes: &[u8]) -> (r: Option<u32>)
    ensures
        is_pid_literal(bytes@) ==> r == Some(pid_value(bytes@) as u32),
        !is_pid_literal(bytes@) ==> r is None,
{
    let ghost digits_all = pid_digits(bytes@);
    let offset: usize = if bytes.len() > 0 && bytes[0] == 43 {
        1
    } else {
        0
    };
    proof {
        assert(digits_all =~= bytes@.skip(offset as int));
    }
    if bytes.len() == offset {
        return None;
    }
    let mut acc: u32 = 0;
    let mut i: usize = offset;
    let mut ok: bool = true;
    while i < bytes.len()
        invariant_except_break
            ok,
            offset <= i <= bytes.len(),
            acc == digits_value(digits_all.take(i - offset)),
            forall|j: int| offset <= j < i ==> 48 <= #[trigger] bytes@[j] <= 57,
        invariant
            offset <= 1,
            offset <= bytes.len(),
            digits_all == bytes@.skip(offset as int),
            digits_all == pid_digits(bytes@),
        ensures
            ok ==> i == bytes.len() && acc == digits_value(digits_all.take(i - offset)) && (
            forall|j: int| offset <= j < i ==> 48 <= #[trigger] bytes@[j] <= 57),
            !ok ==> !is_pid_literal(bytes@),
        decreases bytes.len() - i,
    {
        let b = bytes[i];
        if b < 48 || b > 57 {
            proof {
                assert(digits_all[i - offset] == bytes@[i as int]);
                assert(!is_pid_literal(bytes@)) by {
                    if is_pid_literal(bytes@) {
                        assert(48 <= pid_digits(bytes@)[i - offset] <= 57);
                        assert(false);
                    }
                }
            }
            ok = false;
            break;
        }
        let d: u32 = (b - 48) as u32;
        if acc > (u32::MAX - d) / 10 {
            proof {
                assert(digits_all.take(i + 1 - offset).drop_last() =~= digits_all.take(
                    i - offset,
                ));
                assert(digits_all.take(i + 1 - offset).last() == b);
                assert(digits_value(digits_all.take(i + 1 - offset)) == (acc * 10 + d) as nat);
                assert(acc * 10 + d > u32::MAX) by (nonlinear_arith)
                    requires
                        acc > (u32::MAX - d) / 10,
                        d <= 9,
                        acc <= u32::MAX,
                ;
                assert(!is_pid_literal(bytes@)) by {
                    if is_pid_literal(bytes@) {
                        lemma_digits_value_prefix_le(digits_all, i + 1 - offset);
                        assert(digits_value(digits_all) <= u32::MAX);
                        assert(false);
                    }
                }
            }
            ok = false;
            break;
        }
        proof {
            assert(acc * 10 + d <= u32::MAX) by (nonlinear_arith)
                requires
                    acc <= (u32::MAX - d) / 10,
                    d <= 9,
                    acc >= 0,
            ;
            assert(digits_all.take(i + 1 - offset).drop_last() =~= digits_all.take(i - offset));
        }
        acc = acc * 10 + d;
        i = i + 1;
    }
    if !ok {
        return None;
    }
    proof {
        assert(digits_all.take(i - offset) =~= digits_all);
        assert forall|k: int| 0 <= k < digits_all.len() implies 48 <= #[trigger] digits_all[k]
            <= 57 by {
            assert(digits_all[k] == bytes@[k + offset]);
        }
    }
    Some(acc)
}

/// Classifies the observed lock file at `path`: absent contents mean there is
/// no lock; contents that spell a process id report it; anything else is a
/// corrupt lock file.
pub fn read_lock(path: String, contents: Option<&Vec<u8>>) -> (r: Result<u32, LockError>)
    ensures
        contents is None ==> r == Err::<u32, LockError>(LockError::NoLock(path)),
        contents matches Some(c) ==> (if is_pid_literal(c@) {
            r == Ok::<u32, LockError>(pid_value(c@) as u32)
        } else {
            r == Err::<u32, LockError>(LockError::CorruptLock(path))
        }),
{
    match contents {
        None => Err(LockError::NoLock(path)),
        Some(c) => match parse_pid(c.as_slice()) {
            Some(pid) => Ok(pid),
            None => Err(LockError::CorruptLock(path)),
        },
    }
}

/// Reports the process id stored in the lock file of the named program. The
/// embedding program reads `<prog_name>.lock` in its data directory and hands
/// the observed contents over, `None` when the file does not exist.
pub fn read_lock_pid(prog_name: &str, contents: Option<&Vec<u8>>) -> (r: Result<u32, LockError>)
    ensures
        ({
            let path = prog_name@ + ".lock"@;
            &&& (contents is None ==> (r matches Err(LockError::NoLock(p)) && p@ == path))
            &&& (contents matches Some(c) ==> (if is_pid_literal(c@) {
                r == Ok::<u32, LockError>(pid_value(c@) as u32)
            } else {
                (r matches Err(LockError::CorruptLock(p)) && p@ == path)
            }))
        }),
{
    let path = String::from_str(prog_name).concat(".lock");
    read_lock(path, contents)
}

} // verus!
