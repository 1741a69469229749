//! The exchange ledger: the persisted record of each share. A
//! `FileRecord` holds the envelope and the deadline; its `ShareLink`,
//! at the same index, holds the externally exposed `shared_id`, the
//! lifecycle status and the failed-attempt counter. All lookups go by
//! `shared_id`, which the well-formedness invariant keeps unique.
use crate::envelope::Envelope;
use crate::error::dec_str_of;
use crate::error::u64_to_decimal;
use crate::expiry::spec_transition;
use crate::expiry::status_allows;
use crate::expiry::transition;
use crate::expiry::ShareStatus;
use vstd::prelude::*;

verus! {

/// A stored file: owner, name and size, the encryption envelope
/// (ciphertext reference and both wrapped keys with the password
/// gate), and the timestamps.
#[derive(Debug)]
pub struct FileRecord {
    /// Record id; equals the record's index in the ledger.
    pub id: u64,
    /// Identity of the uploading user.
    pub owner_id: u64,
    /// Email of the uploading user, reported to recipients.
    pub owner_email: String,
    /// Name of the uploaded file.
    pub file_name: String,
    /// Size of the plaintext in bytes.
    pub file_size: u64,
    /// The encryption envelope of the file.
    pub envelope: Envelope,
    /// Unix timestamp after which retrieval is refused.
    pub expiration_date: i64,
    /// Unix timestamp of creation.
    pub created_at: i64,
}

/// The externally exposed handle of a stored file, linked one-to-one
/// to the `FileRecord` at the same index.
#[derive(Debug)]
pub struct ShareLink {
    /// The identifier a recipient presents.
    pub shared_id: String,
    /// Id of the linked file record.
    pub file_id: u64,
    /// Email the share is addressed to.
    pub recipient_email: String,
    /// Lifecycle status of the share.
    pub status: ShareStatus,
    /// How many wrong-password attempts have been recorded.
    pub failed_attempts: u64,
}

/// The attempt counter after one more recorded failure; it sticks at
/// the top of the range rather than wrapping.
pub open spec fn bump(a: u64) -> u64 {
    if a < u64::MAX {
        (a + 1) as u64
    } else {
        u64::MAX
    }
}

/// The share after one more recorded password failure.
pub open spec fn bumped(s: ShareLink) -> ShareLink {
    ShareLink { failed_attempts: bump(s.failed_attempts), ..s }
}

/// The share after a status change.
pub open spec fn with_status(s: ShareLink, st: ShareStatus) -> ShareLink {
    ShareLink { status: st, ..s }
}

/// `i` is an index whose share carries `id`.
pub open spec fn match_at(shares: Seq<ShareLink>, id: Seq<char>, i: int) -> bool {
    0 <= i < shares.len() && shares[i].shared_id@ == id
}

/// No share in the ledger carries `id`.
pub open spec fn no_match(shares: Seq<ShareLink>, id: Seq<char>) -> bool {
    forall|i: int| 0 <= i < shares.len() ==> (#[trigger] shares[i]).shared_id@ != id
}

/// Duplicate-creation error: the ledger already holds the `shared_id`.
#[derive(Clone, Copy, PartialEq, Eq, Structural, Debug)]
pub struct ConflictError;

/// Failures of the mutating ledger operations.
#[derive(Clone, Copy, PartialEq, Eq, Structural, Debug)]
pub enum LedgerError {
    /// No share carries the given id.
    UnknownId,
    /// The requested status change is not in the transition table.
    IllegalTransition,
}

/// The exchange ledger: file records and their share links, paired by
/// index.
#[derive(Debug)]
pub struct Ledger {
    /// The stored files, record `i` having id `i`.
    pub files: Vec<FileRecord>,
    /// The share links, `shares[i]` linking to `files[i]`.
    pub shares: Vec<ShareLink>,
}

impl Ledger {
    /// Records and links pair up by index, ids equal indices, every
    /// envelope is well-formed, and shared ids are unique.
    pub open spec fn wf(self) -> bool {
        &&& self.files@.len() == self.shares@.len()
        &&& forall|i: int|
            0 <= i < self.files@.len() ==> (#[trigger] self.files@[i]).id == i
        &&& forall|i: int|
            0 <= i < self.shares@.len() ==> (#[trigger] self.shares@[i]).file_id == i
        &&& forall|i: int|
            0 <= i < self.files@.len() ==> (#[trigger] self.files@[i]).envelope.wf()
        &&& forall|i: int, j: int|
            0 <= i < j < self.shares@.len() ==> self.shares@[i].shared_id@
                != self.shares@[j].shared_id@
    }

    /// An empty ledger.
    pub fn new() -> (r: Ledger)
        ensures
            r.wf(),
            r.files@.len() == 0,
            r.shares@.len() == 0,
    {
        Ledger { files: Vec::new(), shares: Vec::new() }
    }

    /// Looks a share up by its `shared_id`: the index of the one
    /// matching share, or `None` when the id is unknown.
    pub fn get_by_share_id(&self, shared_id: &String) -> (r: Option<usize>)
        ensures
            match r {
                Some(i) => match_at(self.shares@, shared_id@, i as int),
                None => no_match(self.shares@, shared_id@),
            },
    {
        let mut i: usize = 0;
        while i < self.shares.len()
            invariant
                i <= self.shares@.len(),
                forall|j: int| 0 <= j < i ==> (#[trigger] self.shares@[j]).shared_id@ != shared_id@,
            decreases self.shares@.len() - i,
        {
            if self.shares[i].shared_id == *shared_id {
                return Some(i);
            }
            i = i + 1;
        }
        None
    }

    /// Appends a new record and its link, status `Pending` and no
    /// failed attempts, and returns the new file id; refuses a
    /// `shared_id` the ledger already holds.
    pub fn create_share(
        &mut self,
        owner_id: u64,
        owner_email: String,
        file_name: String,
        file_size: u64,
        envelope: Envelope,
        expiration_date: i64,
        created_at: i64,
        shared_id: String,
        recipient_email: String,
    ) -> (r: Result<u64, ConflictError>)
        requires
            old(self).wf(),
            envelope.wf(),
            old(self).files@.len() < u64::MAX,
        ensures
            final(self).wf(),
            r is Err ==> *final(self) == *old(self) && !no_match(old(self).shares@, shared_id@),
            r is Ok ==> no_match(old(self).shares@, shared_id@),
            r is Ok ==> r->Ok_0 == old(self).files@.len(),
            r is Ok ==> final(self).files@ == old(self).files@.push(
                FileRecord {
                    id: old(self).files@.len() as u64,
                    owner_id,
                    owner_email,
                    file_name,
                    file_size,
                    envelope,
                    expiration_date,
                    created_at,
                },
            ),
            r is Ok ==> final(self).shares@ == old(self).shares@.push(
                ShareLink {
                    shared_id,
                    file_id: old(self).files@.len() as u64,
                    recipient_email,
                    status: ShareStatus::Pending,
                    failed_attempts: 0,
                },
            ),
    {
        if self.get_by_share_id(&shared_id).is_some() {
            return Err(ConflictError);
        }
        let id = self.files.len() as u64;
        self.files.push(
            FileRecord {
                id,
                owner_id,
                owner_email,
                file_name,
                file_size,
                envelope,
                expiration_date,
                created_at,
            },
        );
        self.shares.push(
            ShareLink {
                shared_id,
                file_id: id,
                recipient_email,
                status: ShareStatus::Pending,
                failed_attempts: 0,
            },
        );
        proof {
            let pre = old(self).shares@;
            let post = self.shares@;
            assert forall|i: int, j: int| 0 <= i < j < post.len() implies post[i].shared_id@
                != post[j].shared_id@ by {
                if j < pre.len() {
                } else {
                    assert(post[j] == post[post.len() - 1]);
                    assert(pre[i].shared_id@ != post[j].shared_id@);
                }
            }
        }
        Ok(id)
    }

    /// Records one more failed attempt on the share carrying
    /// `shared_id`; the counter never decreases and never wraps.
    pub fn increment_failed_attempt(&mut self, shared_id: &String) -> (r: Result<
        u64,
        LedgerError,
    >)
        requires
            old(self).wf(),
        ensures
            final(self).wf(),
            final(self).files@ == old(self).files@,
            r is Err ==> *final(self) == *old(self) && r->Err_0 == LedgerError::UnknownId
                && no_match(old(self).shares@, shared_id@),
            r is Ok ==> forall|i: int|
                match_at(old(self).shares@, shared_id@, i) ==> final(self).shares@
                    == old(self).shares@.update(i, bumped(old(self).shares@[i]))
                    && r->Ok_0 == bump(old(self).shares@[i].failed_attempts),
            r is Ok ==> !no_match(old(self).shares@, shared_id@),
    {
        let idx = match self.get_by_share_id(shared_id) {
            Some(i) => i,
            None => {
                return Err(LedgerError::UnknownId);
            },
        };
        let link = &self.shares[idx];
        let count = if link.failed_attempts < u64::MAX {
            link.failed_attempts + 1
        } else {
            u64::MAX
        };
        let updated = ShareLink {
            shared_id: link.shared_id.clone(),
            file_id: link.file_id,
            recipient_email: link.recipient_email.clone(),
            status: link.status,
            failed_attempts: count,
        };
        self.shares.set(idx, updated);
        proof {
            lemma_unique_match(old(self).shares@, shared_id@, idx as int);
            lemma_update_keeps_wf(*old(self), *self, idx as int);
        }
        Ok(count)
    }

    /// Moves the share carrying `shared_id` to `new_status`, provided
    /// the transition table allows it; an illegal move changes
    /// nothing and is reported.
    pub fn set_status(&mut self, shared_id: &String, new_status: ShareStatus) -> (r: Result<
        (),
        LedgerError,
    >)
        requires
            old(self).wf(),
        ensures
            final(self).wf(),
            final(self).files@ == old(self).files@,
            r is Err && r->Err_0 == LedgerError::UnknownId ==> *final(self) == *old(self)
                && no_match(old(self).shares@, shared_id@),
            r is Err && r->Err_0 == LedgerError::IllegalTransition ==> *final(self) == *old(self),
            r is Err ==> *final(self) == *old(self),
            forall|i: int|
                match_at(old(self).shares@, shared_id@, i) ==> {
                    &&& (status_allows(old(self).shares@[i].status, new_status) <==> r is Ok)
                    &&& (r is Ok ==> final(self).shares@ == old(self).shares@.update(
                        i,
                        with_status(old(self).shares@[i], new_status),
                    ))
                },
    {
        let idx = match self.get_by_share_id(shared_id) {
            Some(i) => i,
            None => {
                return Err(LedgerError::UnknownId);
            },
        };
        proof {
            lemma_unique_match(old(self).shares@, shared_id@, idx as int);
        }
        let link = &self.shares[idx];
        if !crate::expiry::allowed_transition(link.status, new_status) {
            return Err(LedgerError::IllegalTransition);
        }
        let updated = ShareLink {
            shared_id: link.shared_id.clone(),
            file_id: link.file_id,
            recipient_email: link.recipient_email.clone(),
            status: new_status,
            failed_attempts: link.failed_attempts,
        };
        self.shares.set(idx, updated);
        proof {
            lemma_update_keeps_wf(*old(self), *self, idx as int);
        }
        Ok(())
    }
}


/// One row of a sender's listing: what the uploading user sees of a
/// share they created.
#[derive(Debug, Clone)]
pub struct SendFileDetails {
    /// The file id, rendered in decimal.
    pub file_id: String,
    /// Name of the file.
    pub file_name: String,
    /// Email the share is addressed to.
    pub recipient_email: String,
    /// Unix timestamp after which retrieval is refused.
    pub expiration_date: i64,
    /// Unix timestamp of creation.
    pub created_at: i64,
}

/// One row of a recipient's listing: what the addressed user sees of
/// a share sent to them.
#[derive(Debug, Clone)]
pub struct ReceiverFileDetails {
    /// The file id, rendered in decimal.
    pub file_id: String,
    /// Name of the file.
    pub file_name: String,
    /// Email of the uploading user.
    pub sender_email: String,
    /// Unix timestamp after which retrieval is refused.
    pub expiration_date: i64,
    /// Unix timestamp of creation.
    pub created_at: i64,
}

/// The indices below `n` whose file record belongs to `owner`, in
/// order.
pub open spec fn sent_indices(files: Seq<FileRecord>, owner: u64, n: int) -> Seq<int>
    decreases n,
{
    if n <= 0 {
        Seq::empty()
    } else if files[n - 1].owner_id == owner {
        sent_indices(files, owner, n - 1).push(n - 1)
    } else {
        sent_indices(files, owner, n - 1)
    }
}

/// The indices below `n` whose share is addressed to `email`, in
/// order.
pub open spec fn received_indices(shares: Seq<ShareLink>, email: Seq<char>, n: int) -> Seq<int>
    decreases n,
{
    if n <= 0 {
        Seq::empty()
    } else if shares[n - 1].recipient_email@ == email {
        received_indices(shares, email, n - 1).push(n - 1)
    } else {
        received_indices(shares, email, n - 1)
    }
}

/// The page of a listing: entries `(page - 1) * limit` up to `limit`
/// of them, pages counted from one.
pub open spec fn paged<T>(s: Seq<T>, page: int, limit: int) -> Seq<T> {
    let start = (page - 1) * limit;
    if start < 0 || start >= s.len() {
        Seq::empty()
    } else if start + limit <= s.len() {
        s.subrange(start, start + limit)
    } else {
        s.subrange(start, s.len() as int)
    }
}

/// `d` is the sender's view of the record and share at index `i`.
pub open spec fn send_detail_matches(d: SendFileDetails, l: Ledger, i: int) -> bool {
    &&& d.file_id@ == dec_str_of(l.files@[i].id as int)
    &&& d.file_name@ == l.files@[i].file_name@
    &&& d.recipient_email@ == l.shares@[i].recipient_email@
    &&& d.expiration_date == l.files@[i].expiration_date
    &&& d.created_at == l.files@[i].created_at
}

/// `d` is the recipient's view of the record and share at index `i`.
pub open spec fn receive_detail_matches(d: ReceiverFileDetails, l: Ledger, i: int) -> bool {
    &&& d.file_id@ == dec_str_of(l.files@[i].id as int)
    &&& d.file_name@ == l.files@[i].file_name@
    &&& d.sender_email@ == l.files@[i].owner_email@
    &&& d.expiration_date == l.files@[i].expiration_date
    &&& d.created_at == l.files@[i].created_at
}

impl Ledger {

    /// The hygiene reaper: sweeps the ledger and marks every live
    /// share whose deadline has passed as `Expired`, so that no
    /// retrievable key material outlives its deadline; every other
    /// share, and every record, stays exactly as it was.
    pub fn reap(&mut self, now: i64)
        requires
            old(self).wf(),
        ensures
            final(self).wf(),
            final(self).files@ == old(self).files@,
            final(self).shares@.len() == old(self).shares@.len(),
            forall|i: int|
                0 <= i < old(self).shares@.len() ==> final(self).shares@[i] == with_status(
                    old(self).shares@[i],
                    spec_transition(
                        old(self).shares@[i].status,
                        old(self).files@[i].expiration_date,
                        now,
                    ),
                ),
    {
        let mut i: usize = 0;
        while i < self.shares.len()
            invariant
                self.wf(),
                self.files@ == old(self).files@,
                self.shares@.len() == old(self).shares@.len(),
                i <= self.shares@.len(),
                forall|j: int|
                    0 <= j < i ==> self.shares@[j] == with_status(
                        old(self).shares@[j],
                        spec_transition(
                            old(self).shares@[j].status,
                            old(self).files@[j].expiration_date,
                            now,
                        ),
                    ),
                forall|j: int|
                    i <= j < self.shares@.len() ==> self.shares@[j] == old(self).shares@[j],
            decreases self.shares@.len() - i,
        {
            let cur = self.shares[i].status;
            let next = transition(cur, self.files[i].expiration_date, now);
            if !(next == cur) {
                let link = &self.shares[i];
                let updated = ShareLink {
                    shared_id: link.shared_id.clone(),
                    file_id: link.file_id,
                    recipient_email: link.recipient_email.clone(),
                    status: next,
                    failed_attempts: link.failed_attempts,
                };
                let ghost pre_self = *self;
                self.shares.set(i, updated);
                proof {
                    lemma_update_keeps_wf(pre_self, *self, i as int);
                }
            }
            i = i + 1;
        }
    }

    /// Lists the shares a user sent, page by page: the rows are those
    /// of the user's records in creation order, and the result is the
    /// requested page of them.
    pub fn list_sent_by(&self, owner_id: u64, page: usize, limit: usize) -> (r: Vec<
        SendFileDetails,
    >)
        requires
            self.wf(),
            page >= 1,
            1 <= limit <= 50,
        ensures
            r@.len() == paged(
                sent_indices(self.files@, owner_id, self.files@.len() as int),
                page as int,
                limit as int,
            ).len(),
            forall|k: int|
                0 <= k < r@.len() ==> send_detail_matches(
                    #[trigger] r@[k],
                    *self,
                    paged(
                        sent_indices(self.files@, owner_id, self.files@.len() as int),
                        page as int,
                        limit as int,
                    )[k],
                ),
    {
        let mut idxs: Vec<usize> = Vec::new();
        let mut i: usize = 0;
        let ghost all = sent_indices(self.files@, owner_id, self.files@.len() as int);
        while i < self.files.len()
            invariant
                self.wf(),
                i <= self.files@.len(),
                idxs@.len() == sent_indices(self.files@, owner_id, i as int).len(),
                forall|k: int|
                    0 <= k < idxs@.len() ==> (#[trigger] idxs@[k]) as int == sent_indices(
                        self.files@,
                        owner_id,
                        i as int,
                    )[k] && idxs@[k] < self.files@.len(),
            decreases self.files@.len() - i,
        {
            if self.files[i].owner_id == owner_id {
                idxs.push(i);
            }
            i = i + 1;
        }
        let mut out: Vec<SendFileDetails> = Vec::new();
        let ghost pg = paged(all, page as int, limit as int);
        proof {
            vstd::arithmetic::mul::lemma_mul_upper_bound(
                page - 1,
                usize::MAX as int,
                limit as int,
                50,
            );
        }
        let start_big: u128 = ((page - 1) as u128) * (limit as u128);
        if start_big >= idxs.len() as u128 {
            proof {
                assert(pg.len() == 0);
            }
            return out;
        }
        let start: usize = start_big as usize;
        let count: usize = if limit <= idxs.len() - start {
            limit
        } else {
            idxs.len() - start
        };
        let mut k: usize = 0;
        while k < count
            invariant
                self.wf(),
                start + count <= idxs@.len(),
                k <= count,
                pg == paged(all, page as int, limit as int),
                pg.len() == count,
                start == (page - 1) * limit,
                forall|m: int|
                    0 <= m < idxs@.len() ==> (#[trigger] idxs@[m]) as int == all[m] && idxs@[m]
                        < self.files@.len(),
                idxs@.len() == all.len(),
                idxs@.len() <= usize::MAX,
                out@.len() == k,
                forall|m: int|
                    0 <= m < k ==> send_detail_matches(#[trigger] out@[m], *self, pg[m]),
            decreases count - k,
        {
            let j: usize = idxs[start + k];
            let f = &self.files[j];
            let sh = &self.shares[j];
            out.push(
                SendFileDetails {
                    file_id: u64_to_decimal(f.id),
                    file_name: f.file_name.clone(),
                    recipient_email: sh.recipient_email.clone(),
                    expiration_date: f.expiration_date,
                    created_at: f.created_at,
                },
            );
            k = k + 1;
        }
        out
    }

    /// Lists the shares addressed to an email, page by page, in
    /// creation order.
    pub fn list_received_by(&self, email: &String, page: usize, limit: usize) -> (r: Vec<
        ReceiverFileDetails,
    >)
        requires
            self.wf(),
            page >= 1,
            1 <= limit <= 50,
        ensures
            r@.len() == paged(
                received_indices(self.shares@, email@, self.shares@.len() as int),
                page as int,
                limit as int,
            ).len(),
            forall|k: int|
                0 <= k < r@.len() ==> receive_detail_matches(
                    #[trigger] r@[k],
                    *self,
                    paged(
                        received_indices(self.shares@, email@, self.shares@.len() as int),
                        page as int,
                        limit as int,
                    )[k],
                ),
    {
        let mut idxs: Vec<usize> = Vec::new();
        let mut i: usize = 0;
        let ghost all = received_indices(self.shares@, email@, self.shares@.len() as int);
        while i < self.shares.len()
            invariant
                self.wf(),
                i <= self.shares@.len(),
                idxs@.len() == received_indices(self.shares@, email@, i as int).len(),
                forall|k: int|
                    0 <= k < idxs@.len() ==> (#[trigger] idxs@[k]) as int == received_indices(
                        self.shares@,
                        email@,
                        i as int,
                    )[k] && idxs@[k] < self.shares@.len(),
            decreases self.shares@.len() - i,
        {
            if self.shares[i].recipient_email == *email {
                idxs.push(i);
            }
            i = i + 1;
        }
        let mut out: Vec<ReceiverFileDetails> = Vec::new();
        let ghost pg = paged(all, page as int, limit as int);
        proof {
            vstd::arithmetic::mul::lemma_mul_upper_bound(
                page - 1,
                usize::MAX as int,
                limit as int,
                50,
            );
        }
        let start_big: u128 = ((page - 1) as u128) * (limit as u128);
        if start_big >= idxs.len() as u128 {
            proof {
                assert(pg.len() == 0);
            }
            return out;
        }
        let start: usize = start_big as usize;
        let count: usize = if limit <= idxs.len() - start {
            limit
        } else {
            idxs.len() - start
        };
        let mut k: usize = 0;
        while k < count
            invariant
                self.wf(),
                start + count <= idxs@.len(),
                k <= count,
                pg == paged(all, page as int, limit as int),
                pg.len() == count,
                start == (page - 1) * limit,
                forall|m: int|
                    0 <= m < idxs@.len() ==> (#[trigger] idxs@[m]) as int == all[m] && idxs@[m]
                        < self.shares@.len(),
                idxs@.len() == all.len(),
                idxs@.len() <= usize::MAX,
                out@.len() == k,
                forall|m: int|
                    0 <= m < k ==> receive_detail_matches(#[trigger] out@[m], *self, pg[m]),
            decreases count - k,
        {
            let j: usize = idxs[start + k];
            let f = &self.files[j];
            out.push(
                ReceiverFileDetails {
                    file_id: u64_to_decimal(f.id),
                    file_name: f.file_name.clone(),
                    sender_email: f.owner_email.clone(),
                    expiration_date: f.expiration_date,
                    created_at: f.created_at,
                },
            );
            k = k + 1;
        }
        out
    }
}

/// With unique shared ids, an index that matches `id` is the only one.
pub proof fn lemma_unique_match(shares: Seq<ShareLink>, id: Seq<char>, idx: int)
    requires
        match_at(shares, id, idx),
        forall|i: int, j: int|
            0 <= i < j < shares.len() ==> shares[i].shared_id@ != shares[j].shared_id@,
    ensures
        forall|i: int| match_at(shares, id, i) ==> i == idx,
{
    assert forall|i: int| match_at(shares, id, i) implies i == idx by {
        if i < idx {
            assert(shares[i].shared_id@ != shares[idx].shared_id@);
        } else if idx < i {
            assert(shares[idx].shared_id@ != shares[i].shared_id@);
        }
    }
}

/// Replacing one share with a copy that keeps its `shared_id` and
/// `file_id` preserves the ledger invariant.
proof fn lemma_update_keeps_wf(pre: Ledger, post: Ledger, idx: int)
    requires
        pre.wf(),
        post.files@ == pre.files@,
        0 <= idx < pre.shares@.len(),
        post.shares@.len() == pre.shares@.len(),
        forall|i: int|
            0 <= i < pre.shares@.len() && i != idx ==> post.shares@[i] == pre.shares@[i],
        post.shares@[idx].shared_id@ == pre.shares@[idx].shared_id@,
        post.shares@[idx].file_id == pre.shares@[idx].file_id,
    ensures
        post.wf(),
{
    assert forall|i: int, j: int| 0 <= i < j < post.shares@.len() implies post.shares@[i].shared_id@
        != post.shares@[j].shared_id@ by {
        assert(pre.shares@[i].shared_id@ != pre.shares@[j].shared_id@);
    }
}

} // verus!
