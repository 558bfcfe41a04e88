//! Decisions and pure computations of the backup collaborator: archive
//! naming, the size formatting shown to operators, retention expiry, the
//! schedule countdown, and the ordering of the archive listing.
//!
//! Walking directories, writing archives and deleting files are I/O the
//! runtime performs; everything here is a function of plain values.

use vstd::prelude::*;
use vstd::arithmetic::div_mod::lemma_fundamental_div_mod;
use vstd::arithmetic::mul::{lemma_mul_inequality, lemma_mul_is_commutative};
use crate::state::BackupInfo;
use crate::text::{dec_str, ends_with, starts_with, str_ends_with, str_starts_with, u64_to_string};

verus! {

pub const BYTES_PER_KB: u64 = 1024;

pub const BYTES_PER_MB: u64 = 1048576;

pub const BYTES_PER_GB: u64 = 1073741824;

/// The fractional part, in hundredths rounded half up, of `b / u`.
pub open spec fn rounded_hundredths(b: nat, u: nat) -> nat {
    (b % u * 100 + u / 2) / u
}

/// Two decimal digits, zero-padded on the left.
pub open spec fn pad2(f: nat) -> Seq<char> {
    if f < 10 {
        seq!['0'] + dec_str(f)
    } else {
        dec_str(f)
    }
}

/// `b / u` rendered with two decimals, rounding half up; a fractional
/// part that rounds to a whole carries into the integer part.
pub open spec fn two_decimal(b: nat, u: nat) -> Seq<char> {
    let f = rounded_hundredths(b, u);
    if f >= 100 {
        dec_str(b / u + 1) + seq!['.'] + pad2(0)
    } else {
        dec_str(b / u) + seq!['.'] + pad2(f)
    }
}

/// The operator-facing rendering of a byte count: two decimals of the
/// largest binary unit reached, plain bytes below one kilobyte.
pub open spec fn spec_format_bytes(bytes: u64) -> Seq<char> {
    if bytes >= BYTES_PER_GB {
        two_decimal(bytes as nat, BYTES_PER_GB as nat) + " GB"@
    } else if bytes >= BYTES_PER_MB {
        two_decimal(bytes as nat, BYTES_PER_MB as nat) + " MB"@
    } else if bytes >= BYTES_PER_KB {
        two_decimal(bytes as nat, BYTES_PER_KB as nat) + " KB"@
    } else {
        dec_str(bytes as nat) + " B"@
    }
}

/// Render `b / u` with two rounded decimals.
fn render_two_decimal(b: u64, u: u64) -> (s: String)
    requires
        u == BYTES_PER_KB || u == BYTES_PER_MB || u == BYTES_PER_GB,
    ensures
        s@ == two_decimal(b as nat, u as nat),
{
    let whole = b / u;
    let rem = b % u;
    let ghost ui = u as int;
    proof {
        // the quotient stays below the representable maximum
        lemma_fundamental_div_mod(b as int, ui);
        if b as int / ui >= u64::MAX as int {
            lemma_mul_inequality(u64::MAX as int, b as int / ui, ui);
            lemma_mul_is_commutative(b as int / ui, ui);
            assert(false);
        }
    }
    let f = (rem * 100 + u / 2) / u;
    proof {
        // the rounded fraction is at most one hundred hundredths
        let x = rem as int * 100 + ui / 2;
        assert(x < 101 * ui);
        lemma_fundamental_div_mod(x, ui);
        if x / ui >= 101 {
            lemma_mul_inequality(101, x / ui, ui);
            lemma_mul_is_commutative(x / ui, ui);
            assert(false);
        }
        assert(f <= 100);
    }
    let (w2, f2) = if f >= 100 {
        (whole + 1, 0u64)
    } else {
        (whole, f)
    };
    let mut s = u64_to_string(w2);
    proof {
        reveal_strlit(".");
        assert("."@ =~= seq!['.']);
        reveal_strlit("0");
        assert("0"@ =~= seq!['0']);
    }
    s.append(".");
    if f2 < 10 {
        s.append("0");
    }
    s.append(u64_to_string(f2).as_str());
    s
}

/// Render a byte count for display.
pub fn format_bytes(bytes: u64) -> (s: String)
    ensures
        s@ == spec_format_bytes(bytes),
{
    if bytes >= BYTES_PER_GB {
        let mut s = render_two_decimal(bytes, BYTES_PER_GB);
        s.append(" GB");
        s
    } else if bytes >= BYTES_PER_MB {
        let mut s = render_two_decimal(bytes, BYTES_PER_MB);
        s.append(" MB");
        s
    } else if bytes >= BYTES_PER_KB {
        let mut s = render_two_decimal(bytes, BYTES_PER_KB);
        s.append(" KB");
        s
    } else {
        let mut s = u64_to_string(bytes);
        s.append(" B");
        s
    }
}

/// The name of an archive created at the given rendered timestamp.
pub fn backup_file_name(timestamp: &str) -> (s: String)
    ensures
        s@ == "backup_"@ + timestamp@ + ".tar.xz"@,
{
    let mut s = "backup_".to_owned();
    s.append(timestamp);
    s.append(".tar.xz");
    s
}

/// A filename the backup store recognises as one of its archives: it
/// begins with the archive prefix and ends with the archive extension.
/// Deletion and download requests for any other name are refused.
pub open spec fn valid_backup_filename(name: Seq<char>) -> bool {
    starts_with(name, "backup_"@) && ends_with(name, ".tar.xz"@)
}

pub fn is_valid_backup_filename(name: &str) -> (r: bool)
    ensures
        r == valid_backup_filename(name@),
{
    str_starts_with(name, "backup_") && str_ends_with(name, ".tar.xz")
}

/// Whether an archive of the given age has outlived the retention window
/// of `retention_days` whole days.
pub fn backup_expired(age_secs: u64, retention_days: u64) -> (r: bool)
    requires
        retention_days <= u64::MAX as int / 86400,
    ensures
        r == (age_secs > retention_days * 86400),
{
    age_secs > retention_days * 86400
}

/// One tick of the backup schedule, `elapsed` seconds after the last
/// backup with `interval_secs` between backups: the seconds remaining
/// until the next backup (zero once due), and whether one is due now.
pub fn backup_schedule_tick(elapsed_secs: u64, interval_secs: u64) -> (r: (u64, bool))
    ensures
        r.0 == if elapsed_secs < interval_secs {
            (interval_secs - elapsed_secs) as u64
        } else {
            0
        },
        r.1 == (elapsed_secs >= interval_secs),
{
    if elapsed_secs < interval_secs {
        (interval_secs - elapsed_secs, false)
    } else {
        (0, true)
    }
}

/// The listing is ordered newest first.
pub open spec fn sorted_by_created_desc(s: Seq<BackupInfo>) -> bool {
    forall|i: int, j: int| 0 <= i < j < s.len() ==> s[i].created_at >= s[j].created_at
}

/// Sort the archive listing newest first, by selection. The result holds
/// the same records: it is a permutation of the input.
pub fn sort_backups_desc(backups: Vec<BackupInfo>) -> (r: Vec<BackupInfo>)
    ensures
        sorted_by_created_desc(r@),
        r@.to_multiset() == backups@.to_multiset(),
{
    let ghost orig = backups@;
    let mut v = backups;
    let n = v.len();
    let mut i: usize = 0;
    while i < n
        invariant
            n == v@.len(),
            i <= n,
            sorted_by_created_desc(v@.subrange(0, i as int)),
            forall|p: int, q: int|
                0 <= p < i as int && i as int <= q < n as int ==> v@[p].created_at
                    >= v@[q].created_at,
            v@.to_multiset() == orig.to_multiset(),
        decreases n - i,
    {
        // find the newest record among v[i..] and move it to position i
        let mut best: usize = i;
        let mut j: usize = i + 1;
        while j < n
            invariant
                n == v@.len(),
                i <= best < j <= n,
                forall|k: int| i <= k < j ==> v@[best as int].created_at >= v@[k].created_at,
            decreases n - j,
        {
            if v[j].created_at > v[best].created_at {
                best = j;
            }
            j = j + 1;
        }
        let ghost pre = v@;
        if best != i {
            let picked = v.remove(best);
            v.insert(i, picked);
        }
        proof {
            let ghost sub = pre.subrange(0, i as int);
            let ghost rem_seq = pre.remove(best as int);
            let ghost ins_seq = rem_seq.insert(i as int, pre[best as int]);
            if best != i {
                pre.remove_ensures(best as int);
                rem_seq.insert_ensures(i as int, pre[best as int]);
                lemma_move_to_front_multiset(pre, i as int, best as int);
                assert(v@ == ins_seq);
            }
            // every position of the new sequence carries a known record
            assert forall|k: int| 0 <= k < n as int implies v@[k] == (if k < i as int {
                pre[k]
            } else if k == i as int {
                pre[best as int]
            } else if k <= best as int {
                pre[k - 1]
            } else {
                pre[k]
            }) by {
                if best != i {
                    if k < i as int {
                        assert(ins_seq[k] == rem_seq[k]);
                        assert(rem_seq[k] == pre[k]);
                    } else if k == i as int {
                        assert(ins_seq[k] == pre[best as int]);
                    } else {
                        assert(ins_seq[k] == rem_seq[k - 1]);
                        if k - 1 < best as int {
                            assert(rem_seq[k - 1] == pre[k - 1]);
                        } else {
                            assert(rem_seq[k - 1] == pre[k]);
                        }
                    }
                }
            }
            assert forall|p: int, q: int|
                0 <= p < q < i as int + 1 implies v@[p].created_at >= v@[q].created_at by {
                assert(v@[p] == pre[p]);
                if q < i as int {
                    assert(sub[p] == pre[p]);
                    assert(sub[q] == pre[q]);
                    assert(sub[p].created_at >= sub[q].created_at);
                } else {
                    assert(v@[q] == pre[best as int]);
                    assert(pre[p].created_at >= pre[best as int].created_at);
                }
            }
            assert forall|p: int, q: int|
                0 <= p < i as int + 1 && i as int + 1 <= q < n as int implies v@[p].created_at
                    >= v@[q].created_at by {
                let k = if q <= best as int {
                    q - 1
                } else {
                    q
                };
                assert(i as int <= k < n as int);
                assert(v@[q] == pre[k]);
                if p < i as int {
                    assert(v@[p] == pre[p]);
                    assert(pre[p].created_at >= pre[k].created_at);
                } else {
                    assert(v@[p] == pre[best as int]);
                    assert(pre[best as int].created_at >= pre[k].created_at);
                }
            }
        }
        i = i + 1;
    }
    proof {
        assert(v@.subrange(0, n as int) =~= v@);
    }
    v
}

/// Removing an element and reinserting it elsewhere keeps the multiset of
/// elements.
proof fn lemma_move_to_front_multiset(s: Seq<BackupInfo>, a: int, b: int)
    requires
        0 <= a <= b < s.len(),
    ensures
        s.remove(b).insert(a, s[b]).to_multiset() == s.to_multiset(),
{
    broadcast use vstd::multiset::group_multiset_axioms;

    vstd::seq_lib::to_multiset_remove(s, b);
    vstd::seq_lib::to_multiset_insert(s.remove(b), a, s[b]);
    s.to_multiset_ensures();
    assert(s.contains(s[b]));
    assert(s.to_multiset().remove(s[b]).insert(s[b]) =~= s.to_multiset());
}

} // verus!
