//! Cumulative progress readings and the figures derived from them.

use vstd::prelude::*;

verus! {

/// The whole percentage that `part` makes of `total`, rounded down.
/// An empty `total` has no share to report and gives zero.
pub open spec fn percent_of(part: nat, total: nat) -> nat {
    if total == 0 {
        0
    } else {
        (100 * part / total) as nat
    }
}

/// A part that does not exceed its total is between 0 and 100 percent of it,
/// and a total that is reached is 100 percent.
pub proof fn lemma_percent_range(part: nat, total: nat)
    requires
        part <= total,
    ensures
        0 <= percent_of(part, total) <= 100,
        total > 0 && part == total ==> percent_of(part, total) == 100,
        total > 0 && part < total ==> percent_of(part, total) < 100,
{
    if total > 0 {
        assert(0 <= 100 * part / total <= 100) by (nonlinear_arith)
            requires
                0 <= part <= total,
                total > 0,
        ;
        assert(part == total ==> 100 * part / total == 100) by (nonlinear_arith)
            requires
                total > 0,
        ;
        assert(part < total ==> 100 * part / total < 100) by (nonlinear_arith)
            requires
                0 <= part,
                total > 0,
        ;
    }
}

/// Computes [`percent_of`]. The result is wide enough for any pair of
/// counters, also one whose part exceeds its total.
pub fn percent(part: u64, total: u64) -> (pct: u128)
    ensures
        pct == percent_of(part as nat, total as nat),
        part <= total ==> pct <= 100,
        total == 0 ==> pct == 0,
{
    if total == 0 {
        0
    } else {
        proof {
            if part <= total {
                lemma_percent_range(part as nat, total as nat);
            }
        }
        let scaled: u128 = 100 * (part as u128);
        scaled / (total as u128)
    }
}

/// Bytes in one kilobyte of the transfer display.
pub const BYTES_PER_KILOBYTE: u64 = 1024;

/// The counters of the network transfer at one moment. Each reading is
/// cumulative: it replaces the one before it.
#[derive(Clone, Copy, Debug, PartialEq, Eq, Structural)]
pub struct TransferSnapshot {
    /// Size of the pack received so far, in bytes.
    pub received_bytes: u64,
    /// Objects downloaded so far.
    pub received_objects: u64,
    /// Objects in the pack being downloaded.
    pub total_objects: u64,
    /// Downloaded objects that have been hashed.
    pub indexed_objects: u64,
    /// Deltas resolved so far.
    pub indexed_deltas: u64,
    /// Deltas in the pack being downloaded.
    pub total_deltas: u64,
}

impl TransferSnapshot {
    /// The reading of a transfer that has reported nothing: every counter zero.
    pub open spec fn spec_zero() -> TransferSnapshot {
        TransferSnapshot {
            received_bytes: 0,
            received_objects: 0,
            total_objects: 0,
            indexed_objects: 0,
            indexed_deltas: 0,
            total_deltas: 0,
        }
    }

    /// No counter exceeds the total it counts towards.
    pub open spec fn valid(self) -> bool {
        &&& self.received_objects <= self.total_objects
        &&& self.indexed_objects <= self.total_objects
        &&& self.indexed_deltas <= self.total_deltas
    }

    /// Every object of a non-empty pack has been received.
    pub open spec fn complete(self) -> bool {
        self.total_objects > 0 && self.received_objects == self.total_objects
    }

    /// Percentage of the objects that have been received.
    pub open spec fn spec_network_pct(self) -> nat {
        percent_of(self.received_objects as nat, self.total_objects as nat)
    }

    /// Percentage of the objects that have been indexed.
    pub open spec fn spec_index_pct(self) -> nat {
        percent_of(self.indexed_objects as nat, self.total_objects as nat)
    }

    /// Whole kilobytes received.
    pub open spec fn spec_kbytes(self) -> nat {
        (self.received_bytes / BYTES_PER_KILOBYTE) as nat
    }

    /// The reading of a transfer that has reported nothing.
    #[verifier::when_used_as_spec(spec_zero)]
    pub fn zero() -> (snapshot: TransferSnapshot)
        ensures
            snapshot == Self::spec_zero(),
            snapshot.valid(),
            !snapshot.complete(),
    {
        TransferSnapshot {
            received_bytes: 0,
            received_objects: 0,
            total_objects: 0,
            indexed_objects: 0,
            indexed_deltas: 0,
            total_deltas: 0,
        }
    }

    /// Whether no counter exceeds the total it counts towards.
    pub fn is_valid(&self) -> (ok: bool)
        ensures
            ok == self.valid(),
    {
        self.received_objects <= self.total_objects && self.indexed_objects <= self.total_objects
            && self.indexed_deltas <= self.total_deltas
    }

    /// Whether every object of a non-empty pack has been received.
    pub fn is_complete(&self) -> (done: bool)
        ensures
            done == self.complete(),
    {
        self.total_objects > 0 && self.received_objects == self.total_objects
    }

    /// Percentage of the objects that have been received, rounded down;
    /// zero while the pack has no objects.
    pub fn network_pct(&self) -> (pct: u128)
        ensures
            pct == self.spec_network_pct(),
            self.valid() ==> pct <= 100,
            self.complete() ==> pct == 100,
            self.total_objects == 0 ==> pct == 0,
    {
        proof {
            if self.complete() {
                lemma_percent_range(self.received_objects as nat, self.total_objects as nat);
            }
        }
        percent(self.received_objects, self.total_objects)
    }

    /// Percentage of the objects that have been indexed, rounded down;
    /// zero while the pack has no objects.
    pub fn index_pct(&self) -> (pct: u128)
        ensures
            pct == self.spec_index_pct(),
            self.valid() ==> pct <= 100,
            self.total_objects == 0 ==> pct == 0,
    {
        percent(self.indexed_objects, self.total_objects)
    }

    /// Whole kilobytes received.
    pub fn kbytes(&self) -> (kb: u64)
        ensures
            kb == self.spec_kbytes(),
            kb * 1024 <= self.received_bytes < (kb + 1) * 1024,
    {
        self.received_bytes / BYTES_PER_KILOBYTE
    }
}

/// The counters of the checkout at one moment, and the file it is at.
#[derive(Clone, Debug, PartialEq, Eq)]
pub struct CheckoutSnapshot {
    /// Files written so far.
    pub current_file_index: u64,
    /// Files the checkout will write.
    pub total_files: u64,
    /// The file being written; absent until the first file is visited.
    pub current_path: Option<String>,
}

/// What a [`CheckoutSnapshot`] holds, as mathematical values.
pub struct CheckoutView {
    /// Files written so far.
    pub current_file_index: nat,
    /// Files the checkout will write.
    pub total_files: nat,
    /// The file being written, if any.
    pub current_path: Option<Seq<char>>,
}

impl CheckoutView {
    /// The reading of a checkout that has reported nothing.
    pub open spec fn zero() -> CheckoutView {
        CheckoutView { current_file_index: 0, total_files: 0, current_path: None }
    }

    /// The files written do not exceed the files to write.
    pub open spec fn valid(self) -> bool {
        self.current_file_index <= self.total_files
    }

    /// Percentage of the files that have been written; zero for an empty tree.
    pub open spec fn checkout_pct(self) -> nat {
        percent_of(self.current_file_index, self.total_files)
    }

    /// The path to show: the current one, or nothing while there is none.
    pub open spec fn path_text(self) -> Seq<char> {
        match self.current_path {
            Some(path) => path,
            None => Seq::empty(),
        }
    }
}

impl View for CheckoutSnapshot {
    type V = CheckoutView;

    open spec fn view(&self) -> CheckoutView {
        CheckoutView {
            current_file_index: self.current_file_index as nat,
            total_files: self.total_files as nat,
            current_path: match self.current_path {
                Some(path) => Some(path@),
                None => None,
            },
        }
    }
}

impl CheckoutSnapshot {
    /// The reading with the given path and counters.
    pub open spec fn spec_new(
        current_path: Option<String>,
        current_file_index: u64,
        total_files: u64,
    ) -> CheckoutSnapshot {
        CheckoutSnapshot { current_file_index, total_files, current_path }
    }

    /// The reading with the given path and counters.
    #[verifier::when_used_as_spec(spec_new)]
    pub fn new(current_path: Option<String>, current_file_index: u64, total_files: u64) -> (snapshot:
        CheckoutSnapshot)
        ensures
            snapshot == Self::spec_new(current_path, current_file_index, total_files),
    {
        CheckoutSnapshot { current_file_index, total_files, current_path }
    }

    /// Whether the files written do not exceed the files to write.
    pub fn is_valid(&self) -> (ok: bool)
        ensures
            ok == self@.valid(),
    {
        self.current_file_index <= self.total_files
    }

    /// Percentage of the files that have been written, rounded down; zero
    /// for an empty tree.
    pub fn checkout_pct(&self) -> (pct: u128)
        ensures
            pct == self@.checkout_pct(),
            self@.valid() ==> pct <= 100,
            self.total_files == 0 ==> pct == 0,
    {
        percent(self.current_file_index, self.total_files)
    }
}

} // verus!
