//! A systematic Reed-Solomon erasure codec over fixed-size shreds.
//!
//! A codeword is `D` data shreds followed by `P` parity shreds, each exactly
//! `shred_sz` bytes.  Parity shred `j` is the element-wise Galois-field linear
//! combination of the data shreds with the fixed coefficients `coef(j, i)`
//! (a Cauchy-style matrix, so any erasure pattern of at most `P` shreds is
//! solvable at run time).  Encoding leaves the data shreds untouched.
//!
//! A session value goes through `Collecting`, `Finalized` and `Aborted`
//! phases; operations invalid in the current phase are rejected.  Recovery
//! classifies every slot of a codeword as received (trusted, left unchanged)
//! or erased (to be overwritten with the reconstructed bytes), solves the
//! erased data shreds jointly from the surviving parity equations, then
//! recomputes every parity row and checks it against every received parity
//! shred, so a successful finish always hands back a consistent codeword and
//! is never silently wrong.

use vstd::prelude::*;

use crate::gf::{gf_inv, gf_inv_exec, gf_mul, gf_mul_exec};

verus! {

/// Most data shreds a single codeword may carry.
pub const DATA_SHREDS_MAX: usize = 128;

/// Most parity shreds a single codeword may carry.
pub const PARITY_SHREDS_MAX: usize = 128;

/// Required alignment of the caller-supplied workspace memory.
pub const REEDSOL_ALIGN: usize = 128;

/// Required size in bytes of the caller-supplied workspace memory.
pub const REEDSOL_FOOTPRINT: usize = 2304;

#[derive(Clone, Copy, Debug, PartialEq, Eq, Structural)]
pub enum ReedSolError {
    /// The workspace descriptor's alignment is not a multiple of `REEDSOL_ALIGN`.
    InvalidAlignment,
    /// The workspace descriptor's length is below `REEDSOL_FOOTPRINT`.
    InsufficientMemory,
    /// A shred buffer whose length differs from the session's shred size,
    /// or a shred size this machine cannot address.
    InvalidShardSize,
    /// More shreds of one class than the codec supports.
    TooManyShreds,
    /// `encode_fini` before at least one data and one parity shred were added.
    PartialInput,
    /// More erased shreds than parity shreds: reconstruction is impossible.
    PartialRecovery,
    /// The surviving shreds are inconsistent with every valid codeword.
    CorruptData,
    /// A slot classification that does not describe one whole codeword,
    /// or an operation that does not belong to the session's current state.
    MalformedInput,
    /// The session was aborted before this operation.
    Aborted,
}

#[derive(Clone, Copy, Debug, PartialEq, Eq, Structural)]
pub enum SessionKind {
    Encode,
    Recover,
}

#[derive(Clone, Copy, Debug, PartialEq, Eq, Structural)]
pub enum SessionPhase {
    Collecting,
    Finalized,
    Aborted,
}

/// The sequence of byte sequences a sequence of owned buffers stands for.
pub open spec fn vecs_view(v: Seq<Vec<u8>>) -> Seq<Seq<u8>> {
    Seq::new(v.len(), |i: int| v[i]@)
}

/// The generator coefficient of parity row `j` at data column `i`:
/// the field inverse of `(0x80 + j) xor i`.  Rows and columns draw their
/// labels from disjoint halves of the field, which makes the matrix a
/// Cauchy matrix.
pub open spec fn coef(j: int, i: int) -> u8 {
    gf_inv((((0x80 + j) as u8) ^ (i as u8)))
}

/// The xor of `gf_mul(coef(j, i), data[i][b])` over the first `n` data shreds.
pub open spec fn parity_byte_prefix(j: int, data: Seq<Seq<u8>>, b: int, n: int) -> u8
    decreases n,
{
    if n <= 0 {
        0
    } else {
        parity_byte_prefix(j, data, b, n - 1) ^ gf_mul(coef(j, n - 1), data[n - 1][b])
    }
}

/// Byte `b` of parity row `j` for the given data shreds.
pub open spec fn parity_byte(j: int, data: Seq<Seq<u8>>, b: int) -> u8 {
    parity_byte_prefix(j, data, b, data.len() as int)
}

/// `row` is exactly parity row `j` of `data`, at shred size `s`.
pub open spec fn is_parity_row(j: int, data: Seq<Seq<u8>>, row: Seq<u8>, s: int) -> bool {
    row.len() == s && forall|b: int| 0 <= b < s ==> row[b] == parity_byte(j, data, b)
}

/// Every row of `parity` is the parity row of `data` of the same index:
/// `(data, parity)` is a valid codeword.
pub open spec fn is_parity_of(data: Seq<Seq<u8>>, parity: Seq<Seq<u8>>, s: int) -> bool {
    forall|j: int| 0 <= j < parity.len() ==> is_parity_row(j, data, parity[j], s)
}

/// How many slots of one class are marked erased.
pub open spec fn count_true(s: Seq<bool>) -> int
    decreases s.len(),
{
    if s.len() == 0 {
        0
    } else {
        count_true(s.drop_last()) + if s.last() {
            1int
        } else {
            0int
        }
    }
}

/// An erasure-coding session: one encode or one recover operation.
pub struct ReedSolomon {
    kind: SessionKind,
    phase: SessionPhase,
    shred_sz: usize,
    data: Vec<Vec<u8>>,
    parity: Vec<Vec<u8>>,
    data_erased: Vec<bool>,
    parity_erased: Vec<bool>,
}

impl ReedSolomon {
    pub closed spec fn kind_spec(self) -> SessionKind {
        self.kind
    }

    pub closed spec fn phase_spec(self) -> SessionPhase {
        self.phase
    }

    /// Shred size of this session, in bytes.
    pub closed spec fn shred_size(self) -> int {
        self.shred_sz as int
    }

    /// The data shred contents, in positional order.
    pub closed spec fn data_view(self) -> Seq<Seq<u8>> {
        vecs_view(self.data@)
    }

    /// The parity shred contents, in positional order.
    pub closed spec fn parity_view(self) -> Seq<Seq<u8>> {
        vecs_view(self.parity@)
    }

    /// Which data slots are reconstruction targets (recovery sessions only).
    pub closed spec fn data_erased_view(self) -> Seq<bool> {
        self.data_erased@
    }

    /// Which parity slots are reconstruction targets (recovery sessions only).
    pub closed spec fn parity_erased_view(self) -> Seq<bool> {
        self.parity_erased@
    }

    /// Total number of slots marked erased.
    pub open spec fn erased_count(self) -> int {
        count_true(self.data_erased_view()) + count_true(self.parity_erased_view())
    }

    /// Session well-formedness: bounded shred counts, every registered buffer
    /// exactly one shred long, and erasure marks tracking the slots
    /// one-for-one (encode sessions carry no erasure marks).
    pub closed spec fn wf(self) -> bool {
        &&& self.data@.len() <= DATA_SHREDS_MAX
        &&& self.parity@.len() <= PARITY_SHREDS_MAX
        &&& forall|i: int| 0 <= i < self.data@.len() ==> self.data@[i]@.len() == self.shred_sz
        &&& forall|j: int| 0 <= j < self.parity@.len() ==> self.parity@[j]@.len() == self.shred_sz
        &&& (self.kind == SessionKind::Encode ==> self.data_erased@.len() == 0
            && self.parity_erased@.len() == 0)
        &&& (self.kind == SessionKind::Recover ==> self.data_erased@.len() == self.data@.len()
            && self.parity_erased@.len() == self.parity@.len())
    }

    /// What the workspace checks of `new` and `recover_init` decide.
    pub open spec fn init_check(mem_len: int, mem_align: int, shred_sz: u64) -> Option<
        ReedSolError,
    > {
        if mem_align == 0 || mem_align % (REEDSOL_ALIGN as int) != 0 {
            Some(ReedSolError::InvalidAlignment)
        } else if mem_len < REEDSOL_FOOTPRINT {
            Some(ReedSolError::InsufficientMemory)
        } else if shred_sz > usize::MAX {
            Some(ReedSolError::InvalidShardSize)
        } else {
            None
        }
    }

    /// What a freshly initialised session of the given kind looks like.
    pub open spec fn is_fresh(self, kind: SessionKind, shred_sz: u64) -> bool {
        &&& self.wf()
        &&& self.kind_spec() == kind
        &&& self.phase_spec() == SessionPhase::Collecting
        &&& self.shred_size() == shred_sz as int
        &&& self.data_view().len() == 0
        &&& self.parity_view().len() == 0
    }

    fn init_session(mem_len: usize, mem_align: usize, shred_sz: u64, kind: SessionKind) -> (r:
        Result<ReedSolomon, ReedSolError>)
        ensures
            match Self::init_check(mem_len as int, mem_align as int, shred_sz) {
                Some(e) => r == Err::<ReedSolomon, ReedSolError>(e),
                None => r is Ok && r->Ok_0.is_fresh(kind, shred_sz),
            },
    {
        if mem_align == 0 || mem_align % REEDSOL_ALIGN != 0 {
            return Err(ReedSolError::InvalidAlignment);
        }
        if mem_len < REEDSOL_FOOTPRINT {
            return Err(ReedSolError::InsufficientMemory);
        }
        if shred_sz > usize::MAX as u64 {
            return Err(ReedSolError::InvalidShardSize);
        }
        Ok(
            ReedSolomon {
                kind,
                phase: SessionPhase::Collecting,
                shred_sz: shred_sz as usize,
                data: Vec::new(),
                parity: Vec::new(),
                data_erased: Vec::new(),
                parity_erased: Vec::new(),
            },
        )
    }

    /// Start an encode session over a caller-supplied workspace described by
    /// its length and alignment.  The workspace must be at least
    /// `REEDSOL_FOOTPRINT` bytes and aligned to `REEDSOL_ALIGN`.
    pub fn new(mem_len: usize, mem_align: usize, shred_sz: u64) -> (r: Result<
        ReedSolomon,
        ReedSolError,
    >)
        ensures
            match Self::init_check(mem_len as int, mem_align as int, shred_sz) {
                Some(e) => r == Err::<ReedSolomon, ReedSolError>(e),
                None => r is Ok && r->Ok_0.is_fresh(SessionKind::Encode, shred_sz),
            },
    {
        Self::init_session(mem_len, mem_align, shred_sz, SessionKind::Encode)
    }

    /// Start a recovery session; same workspace rules as `new`.
    pub fn recover_init(mem_len: usize, mem_align: usize, shred_sz: u64) -> (r: Result<
        ReedSolomon,
        ReedSolError,
    >)
        ensures
            match Self::init_check(mem_len as int, mem_align as int, shred_sz) {
                Some(e) => r == Err::<ReedSolomon, ReedSolError>(e),
                None => r is Ok && r->Ok_0.is_fresh(SessionKind::Recover, shred_sz),
            },
    {
        Self::init_session(mem_len, mem_align, shred_sz, SessionKind::Recover)
    }

    /// What the state checks shared by every add operation decide:
    /// an aborted session answers `Aborted`, a finalized one or one of the
    /// wrong kind answers `MalformedInput`, a buffer of the wrong length
    /// answers `InvalidShardSize`.
    pub open spec fn add_state_check(self, kind: SessionKind, len: int) -> Option<ReedSolError> {
        if self.phase_spec() == SessionPhase::Aborted {
            Some(ReedSolError::Aborted)
        } else if self.phase_spec() == SessionPhase::Finalized {
            Some(ReedSolError::MalformedInput)
        } else if self.kind_spec() != kind {
            Some(ReedSolError::MalformedInput)
        } else if len != self.shred_size() {
            Some(ReedSolError::InvalidShardSize)
        } else {
            None
        }
    }

    /// Everything but the shred buffers and erasure marks is unchanged.
    pub open spec fn same_config(self, other: ReedSolomon) -> bool {
        &&& self.kind_spec() == other.kind_spec()
        &&& self.phase_spec() == other.phase_spec()
        &&& self.shred_size() == other.shred_size()
    }

    /// Register the next data shred of an encode session, in positional
    /// order.  The shred is read-only: encoding never changes it.
    pub fn add_data_shred(&mut self, shred: &Vec<u8>) -> (r: Result<(), ReedSolError>)
        requires
            old(self).wf(),
        ensures
            final(self).wf(),
            match old(self).add_state_check(SessionKind::Encode, shred@.len() as int) {
                Some(e) => r == Err::<(), ReedSolError>(e) && *final(self) == *old(self),
                None => {
                    if old(self).data_view().len() >= DATA_SHREDS_MAX {
                        r == Err::<(), ReedSolError>(ReedSolError::TooManyShreds) && *final(self)
                            == *old(self)
                    } else {
                        &&& r == Ok::<(), ReedSolError>(())
                        &&& final(self).same_config(*old(self))
                        &&& final(self).data_view() == old(self).data_view().push(shred@)
                        &&& final(self).parity_view() == old(self).parity_view()
                        &&& final(self).data_erased_view() == old(self).data_erased_view()
                        &&& final(self).parity_erased_view() == old(self).parity_erased_view()
                    }
                },
            },
    {
        if let Some(e) = self.check_add_state(SessionKind::Encode, shred) {
            return Err(e);
        }
        if self.data.len() >= DATA_SHREDS_MAX {
            return Err(ReedSolError::TooManyShreds);
        }
        let copy = copy_row(shred);
        self.data.push(copy);
        proof {
            assert(self.data_view() =~= old(self).data_view().push(shred@));
        }
        Ok(())
    }

    /// Register the next parity shred buffer of an encode session; its
    /// current content is irrelevant and is replaced by `encode_fini`.
    pub fn add_parity_shred(&mut self, shred: &Vec<u8>) -> (r: Result<(), ReedSolError>)
        requires
            old(self).wf(),
        ensures
            final(self).wf(),
            match old(self).add_state_check(SessionKind::Encode, shred@.len() as int) {
                Some(e) => r == Err::<(), ReedSolError>(e) && *final(self) == *old(self),
                None => {
                    if old(self).parity_view().len() >= PARITY_SHREDS_MAX {
                        r == Err::<(), ReedSolError>(ReedSolError::TooManyShreds) && *final(self)
                            == *old(self)
                    } else {
                        &&& r == Ok::<(), ReedSolError>(())
                        &&& final(self).same_config(*old(self))
                        &&& final(self).parity_view() == old(self).parity_view().push(shred@)
                        &&& final(self).data_view() == old(self).data_view()
                        &&& final(self).data_erased_view() == old(self).data_erased_view()
                        &&& final(self).parity_erased_view() == old(self).parity_erased_view()
                    }
                },
            },
    {
        if let Some(e) = self.check_add_state(SessionKind::Encode, shred) {
            return Err(e);
        }
        if self.parity.len() >= PARITY_SHREDS_MAX {
            return Err(ReedSolError::TooManyShreds);
        }
        let copy = copy_row(shred);
        self.parity.push(copy);
        proof {
            assert(self.parity_view() =~= old(self).parity_view().push(shred@));
        }
        Ok(())
    }

    fn check_add_state(&self, kind: SessionKind, shred: &Vec<u8>) -> (r: Option<ReedSolError>)
        ensures
            r == self.add_state_check(kind, shred@.len() as int),
    {
        if self.phase == SessionPhase::Aborted {
            Some(ReedSolError::Aborted)
        } else if self.phase == SessionPhase::Finalized {
            Some(ReedSolError::MalformedInput)
        } else if self.kind != kind {
            Some(ReedSolError::MalformedInput)
        } else if shred.len() != self.shred_sz {
            Some(ReedSolError::InvalidShardSize)
        } else {
            None
        }
    }

    /// Classify the next shred of the given class of a recovery session as
    /// received: its content is trusted and is never changed.
    pub fn add_received_shred(&mut self, is_data_shred: bool, shred: &Vec<u8>) -> (r: Result<
        (),
        ReedSolError,
    >)
        requires
            old(self).wf(),
        ensures
            final(self).wf(),
            Self::recover_add_post(*old(self), *final(self), is_data_shred, shred@, false, r),
    {
        self.recover_add(is_data_shred, shred, false)
    }

    /// Classify the next shred of the given class of a recovery session as
    /// erased: its content is ignored and, on a successful `recover_fini`,
    /// replaced by the reconstructed original bytes.
    pub fn add_erased_shred(&mut self, is_data_shred: bool, shred: &Vec<u8>) -> (r: Result<
        (),
        ReedSolError,
    >)
        requires
            old(self).wf(),
        ensures
            final(self).wf(),
            Self::recover_add_post(*old(self), *final(self), is_data_shred, shred@, true, r),
    {
        self.recover_add(is_data_shred, shred, true)
    }

    /// Contract shared by the two recovery add operations: the shred and its
    /// erasure mark are appended to the chosen class, everything else is
    /// unchanged, and misuse is rejected exactly as `add_state_check` and the
    /// class capacity say.
    pub open spec fn recover_add_post(
        pre: ReedSolomon,
        post: ReedSolomon,
        is_data_shred: bool,
        shred: Seq<u8>,
        erased: bool,
        r: Result<(), ReedSolError>,
    ) -> bool {
        match pre.add_state_check(SessionKind::Recover, shred.len() as int) {
            Some(e) => r == Err::<(), ReedSolError>(e) && post == pre,
            None => {
                let cap_hit = if is_data_shred {
                    pre.data_view().len() >= DATA_SHREDS_MAX
                } else {
                    pre.parity_view().len() >= PARITY_SHREDS_MAX
                };
                if cap_hit {
                    r == Err::<(), ReedSolError>(ReedSolError::TooManyShreds) && post == pre
                } else {
                    &&& r == Ok::<(), ReedSolError>(())
                    &&& post.same_config(pre)
                    &&& if is_data_shred {
                        &&& post.data_view() == pre.data_view().push(shred)
                        &&& post.data_erased_view() == pre.data_erased_view().push(erased)
                        &&& post.parity_view() == pre.parity_view()
                        &&& post.parity_erased_view() == pre.parity_erased_view()
                    } else {
                        &&& post.parity_view() == pre.parity_view().push(shred)
                        &&& post.parity_erased_view() == pre.parity_erased_view().push(erased)
                        &&& post.data_view() == pre.data_view()
                        &&& post.data_erased_view() == pre.data_erased_view()
                    }
                }
            },
        }
    }

    fn recover_add(&mut self, is_data_shred: bool, shred: &Vec<u8>, erased: bool) -> (r: Result<
        (),
        ReedSolError,
    >)
        requires
            old(self).wf(),
        ensures
            final(self).wf(),
            Self::recover_add_post(*old(self), *final(self), is_data_shred, shred@, erased, r),
    {
        if let Some(e) = self.check_add_state(SessionKind::Recover, shred) {
            return Err(e);
        }
        if is_data_shred {
            if self.data.len() >= DATA_SHREDS_MAX {
                return Err(ReedSolError::TooManyShreds);
            }
            let copy = copy_row(shred);
            self.data.push(copy);
            self.data_erased.push(erased);
            proof {
                assert(self.data_view() =~= old(self).data_view().push(shred@));
                assert(self.data_erased_view() =~= old(self).data_erased_view().push(erased));
            }
        } else {
            if self.parity.len() >= PARITY_SHREDS_MAX {
                return Err(ReedSolError::TooManyShreds);
            }
            let copy = copy_row(shred);
            self.parity.push(copy);
            self.parity_erased.push(erased);
            proof {
                assert(self.parity_view() =~= old(self).parity_view().push(shred@));
                assert(self.parity_erased_view() =~= old(self).parity_erased_view().push(erased));
            }
        }
        Ok(())
    }

    /// Release the session without finishing it.  Idempotent: aborting an
    /// already aborted or finalized session only moves the phase to
    /// `Aborted` again and never fails, and a session owns no memory shared
    /// with any other session, so no other session can be corrupted.
    pub fn abort(&mut self)
        requires
            old(self).wf(),
        ensures
            final(self).wf(),
            final(self).phase_spec() == SessionPhase::Aborted,
            final(self).same_config_but_phase(*old(self)),
            final(self).data_view() == old(self).data_view(),
            final(self).parity_view() == old(self).parity_view(),
            final(self).data_erased_view() == old(self).data_erased_view(),
            final(self).parity_erased_view() == old(self).parity_erased_view(),
    {
        self.phase = SessionPhase::Aborted;
    }

    /// Kind and shred size are unchanged (the phase may differ).
    pub open spec fn same_config_but_phase(self, other: ReedSolomon) -> bool {
        &&& self.kind_spec() == other.kind_spec()
        &&& self.shred_size() == other.shred_size()
    }

    /// Number of data shreds registered so far.
    pub fn data_shred_count(&self) -> (r: usize)
        ensures
            r == self.data_view().len(),
    {
        self.data.len()
    }

    /// Number of parity shreds registered so far.
    pub fn parity_shred_count(&self) -> (r: usize)
        ensures
            r == self.parity_view().len(),
    {
        self.parity.len()
    }

    /// Data shred `i`, or `None` when no such slot exists.
    pub fn data_shred(&self, i: usize) -> (r: Option<&Vec<u8>>)
        ensures
            match r {
                Some(v) => i < self.data_view().len() && v@ == self.data_view()[i as int],
                None => i >= self.data_view().len(),
            },
    {
        if i < self.data.len() {
            Some(&self.data[i])
        } else {
            None
        }
    }

    /// Parity shred `j`, or `None` when no such slot exists.
    pub fn parity_shred(&self, j: usize) -> (r: Option<&Vec<u8>>)
        ensures
            match r {
                Some(v) => j < self.parity_view().len() && v@ == self.parity_view()[j as int],
                None => j >= self.parity_view().len(),
            },
    {
        if j < self.parity.len() {
            Some(&self.parity[j])
        } else {
            None
        }
    }
}

impl ReedSolomon {
    /// What the state checks of `encode_fini` decide: misuse of the session
    /// as for the add operations, and `PartialInput` when no complete
    /// encode input (at least one data and one parity shred) was collected.
    pub open spec fn encode_fini_check(self) -> Option<ReedSolError> {
        if self.phase_spec() == SessionPhase::Aborted {
            Some(ReedSolError::Aborted)
        } else if self.phase_spec() == SessionPhase::Finalized {
            Some(ReedSolError::MalformedInput)
        } else if self.kind_spec() != SessionKind::Encode {
            Some(ReedSolError::MalformedInput)
        } else if self.data_view().len() == 0 || self.parity_view().len() == 0 {
            Some(ReedSolError::PartialInput)
        } else {
            None
        }
    }

    /// Finish encoding: overwrite every registered parity buffer with the
    /// Galois-field linear combination of the data shreds given by its row
    /// of the generator matrix.  The data shreds pass through unchanged
    /// (systematic code), and the parity is a pure function of the data, so
    /// identical inputs always produce identical parity bytes.
    pub fn encode_fini(&mut self) -> (r: Result<(), ReedSolError>)
        requires
            old(self).wf(),
        ensures
            final(self).wf(),
            match old(self).encode_fini_check() {
                Some(e) => r == Err::<(), ReedSolError>(e) && *final(self) == *old(self),
                None => {
                    &&& r == Ok::<(), ReedSolError>(())
                    &&& final(self).same_config_but_phase(*old(self))
                    &&& final(self).phase_spec() == SessionPhase::Finalized
                    &&& final(self).data_view() == old(self).data_view()
                    &&& final(self).parity_view().len() == old(self).parity_view().len()
                    &&& is_parity_of(
                        old(self).data_view(),
                        final(self).parity_view(),
                        old(self).shred_size(),
                    )
                    &&& final(self).data_erased_view() == old(self).data_erased_view()
                    &&& final(self).parity_erased_view() == old(self).parity_erased_view()
                },
            },
    {
        if self.phase == SessionPhase::Aborted {
            return Err(ReedSolError::Aborted);
        }
        if self.phase == SessionPhase::Finalized {
            return Err(ReedSolError::MalformedInput);
        }
        if self.kind != SessionKind::Encode {
            return Err(ReedSolError::MalformedInput);
        }
        if self.data.len() == 0 || self.parity.len() == 0 {
            return Err(ReedSolError::PartialInput);
        }
        let p = self.parity.len();
        let s = self.shred_sz;
        let mut j: usize = 0;
        while j < p
            invariant
                j <= p,
                old(self).wf(),
                old(self).kind_spec() == SessionKind::Encode,
                self.kind == old(self).kind_spec(),
                self.phase == old(self).phase_spec(),
                self.shred_sz == old(self).shred_size(),
                s == self.shred_sz,
                self.data@ == old(self).data@,
                self.data_erased@ == old(self).data_erased@,
                self.parity_erased@ == old(self).parity_erased@,
                self.parity@.len() == p,
                p == old(self).parity_view().len(),
                forall|jj: int| 0 <= jj < p ==> self.parity@[jj]@.len() == s,
                forall|jj: int|
                    0 <= jj < j ==> is_parity_row(
                        jj,
                        vecs_view(self.data@),
                        self.parity@[jj]@,
                        s as int,
                    ),
            decreases p - j,
        {
            let row = compute_parity_row(j, &self.data, s);
            self.parity[j] = row;
            j = j + 1;
        }
        self.phase = SessionPhase::Finalized;
        proof {
            assert(final(self).data_view() =~= old(self).data_view());
        }
        Ok(())
    }

    /// What the state checks of `recover_fini` decide: misuse as for the add
    /// operations, `MalformedInput` when the classified slots do not form a
    /// whole codeword (no data or no parity slot at all), and
    /// `PartialRecovery` exactly when more slots are erased than there are
    /// parity shreds, since only that many independent equations exist.
    /// A finish of a collecting recovery session ends the session whatever
    /// it answers: only the misuse errors (an aborted or already finalized
    /// session, or an encode session) leave the state untouched.
    pub open spec fn recover_fini_check(self) -> Option<ReedSolError> {
        if self.phase_spec() == SessionPhase::Aborted {
            Some(ReedSolError::Aborted)
        } else if self.phase_spec() == SessionPhase::Finalized {
            Some(ReedSolError::MalformedInput)
        } else if self.kind_spec() != SessionKind::Recover {
            Some(ReedSolError::MalformedInput)
        } else if self.data_view().len() == 0 || self.parity_view().len() == 0 {
            Some(ReedSolError::MalformedInput)
        } else if self.erased_count() > self.parity_view().len() {
            Some(ReedSolError::PartialRecovery)
        } else {
            None
        }
    }

    /// Received slots keep the content they were registered with.
    pub open spec fn received_unchanged(pre: ReedSolomon, post: ReedSolomon) -> bool {
        &&& forall|i: int|
            0 <= i < pre.data_view().len() && !pre.data_erased_view()[i]
                ==> post.data_view()[i] == pre.data_view()[i]
        &&& forall|j: int|
            0 <= j < pre.parity_view().len() && !pre.parity_erased_view()[j]
                ==> post.parity_view()[j] == pre.parity_view()[j]
    }

    /// Every received parity row is consistent with the data shreds as
    /// registered: the session's slots already form a valid codeword.
    pub open spec fn received_parity_consistent(self) -> bool {
        forall|j: int|
            0 <= j < self.parity_view().len() && !self.parity_erased_view()[j] ==> is_parity_row(
                j,
                self.data_view(),
                self.parity_view()[j],
                self.shred_size(),
            )
    }

    /// Finish recovery.  The erased data shreds are solved jointly from the
    /// surviving parity equations (they are coupled unknowns of one linear
    /// system; shards cannot be recovered independently), then every parity
    /// row is recomputed from the reconstructed data: erased parity slots
    /// are overwritten with it and every received parity slot is checked
    /// against it, so a result of `Ok` guarantees the session holds a valid
    /// codeword that agrees with every received slot.  Inconsistent
    /// survivors or an unsolvable system answer `CorruptData` and never a
    /// silently wrong codeword; when no data shred is erased, `Ok` comes if
    /// and only if the received slots were consistent.  Success or failure,
    /// a finish of a collecting recovery session moves it to `Finalized`:
    /// the session accepts no further shreds.
    pub fn recover_fini(&mut self) -> (r: Result<(), ReedSolError>)
        requires
            old(self).wf(),
        ensures
            final(self).wf(),
            match old(self).recover_fini_check() {
                Some(e) => {
                    &&& r == Err::<(), ReedSolError>(e)
                    &&& if e == ReedSolError::PartialRecovery || (e == ReedSolError::MalformedInput
                        && old(self).phase_spec() == SessionPhase::Collecting && old(
                        self,
                    ).kind_spec() == SessionKind::Recover) {
                        &&& final(self).phase_spec() == SessionPhase::Finalized
                        &&& final(self).same_config_but_phase(*old(self))
                        &&& final(self).data_view() == old(self).data_view()
                        &&& final(self).parity_view() == old(self).parity_view()
                        &&& final(self).data_erased_view() == old(self).data_erased_view()
                        &&& final(self).parity_erased_view() == old(self).parity_erased_view()
                    } else {
                        *final(self) == *old(self)
                    }
                },
                None => {
                    &&& final(self).phase_spec() == SessionPhase::Finalized
                    &&& final(self).same_config_but_phase(*old(self))
                    &&& final(self).data_view().len() == old(self).data_view().len()
                    &&& final(self).parity_view().len() == old(self).parity_view().len()
                    &&& final(self).data_erased_view() == old(self).data_erased_view()
                    &&& final(self).parity_erased_view() == old(self).parity_erased_view()
                    &&& Self::received_unchanged(*old(self), *final(self))
                    &&& (r == Ok::<(), ReedSolError>(()) || r == Err::<(), ReedSolError>(
                        ReedSolError::CorruptData,
                    ))
                    &&& (r is Ok ==> is_parity_of(
                        final(self).data_view(),
                        final(self).parity_view(),
                        old(self).shred_size(),
                    ))
                    &&& (count_true(old(self).data_erased_view()) == 0 && old(
                        self,
                    ).received_parity_consistent() ==> r is Ok)
                    &&& (count_true(old(self).data_erased_view()) == 0 && r is Ok ==> old(
                        self,
                    ).received_parity_consistent())
                },
            },
    {
        if self.phase == SessionPhase::Aborted {
            return Err(ReedSolError::Aborted);
        }
        if self.phase == SessionPhase::Finalized {
            return Err(ReedSolError::MalformedInput);
        }
        if self.kind != SessionKind::Recover {
            return Err(ReedSolError::MalformedInput);
        }
        let d = self.data.len();
        let p = self.parity.len();
        let s = self.shred_sz;
        if d == 0 || p == 0 {
            self.phase = SessionPhase::Finalized;
            return Err(ReedSolError::MalformedInput);
        }
        let erased_data = count_true_exec(&self.data_erased);
        let erased_parity = count_true_exec(&self.parity_erased);
        if erased_data + erased_parity > p {
            self.phase = SessionPhase::Finalized;
            return Err(ReedSolError::PartialRecovery);
        }
        // Indices of the erased data shreds: the unknowns of the linear system.
        let mut erased_idx: Vec<usize> = Vec::new();
        let mut i: usize = 0;
        while i < d
            invariant
                i <= d,
                d == self.data_erased@.len(),
                *self == *old(self),
                forall|k: int|
                    0 <= k < erased_idx@.len() ==> erased_idx@[k] < i && self.data_erased@[erased_idx@[k] as int],
            decreases d - i,
        {
            if self.data_erased[i] {
                erased_idx.push(i);
            }
            i = i + 1;
        }
        let u = erased_idx.len();
        proof {
            if count_true(old(self).data_erased_view()) == 0 {
                lemma_count_true_zero(old(self).data_erased_view());
                if erased_idx@.len() > 0 {
                    assert(self.data_erased@[erased_idx@[0] as int]);
                }
            }
        }
        if u > 0 {
            // One equation per received parity row, over the erased columns.
            let mut coeffs: Vec<Vec<u8>> = Vec::new();
            let mut rhss: Vec<Vec<u8>> = Vec::new();
            let mut j: usize = 0;
            while j < p
                invariant
                    j <= p,
                    *self == *old(self),
                    old(self).wf(),
                    u == erased_idx@.len(),
                    d == self.data@.len(),
                    p == self.parity@.len(),
                    p == self.parity_erased@.len(),
                    p <= PARITY_SHREDS_MAX,
                    d <= DATA_SHREDS_MAX,
                    s == self.shred_sz,
                    d == self.data_erased@.len(),
                    forall|ii: int| 0 <= ii < d ==> self.data@[ii]@.len() == s,
                    forall|jj: int| 0 <= jj < p ==> self.parity@[jj]@.len() == s,
                    forall|k: int| 0 <= k < u ==> erased_idx@[k] < d,
                    coeffs@.len() == rhss@.len(),
                    forall|q: int| 0 <= q < coeffs@.len() ==> coeffs@[q]@.len() == u,
                    forall|q: int| 0 <= q < rhss@.len() ==> rhss@[q]@.len() == s,
                decreases p - j,
            {
                if !self.parity_erased[j] {
                    let mut crow: Vec<u8> = Vec::new();
                    let mut k: usize = 0;
                    while k < u
                        invariant
                            k <= u,
                            u == erased_idx@.len(),
                            crow@.len() == k,
                            j < p,
                            p <= PARITY_SHREDS_MAX,
                            d <= DATA_SHREDS_MAX,
                            forall|kk: int| 0 <= kk < u ==> erased_idx@[kk] < d,
                        decreases u - k,
                    {
                        let c = coef_exec(j, erased_idx[k]);
                        crow.push(c);
                        k = k + 1;
                    }
                    coeffs.push(crow);
                    let rrow = build_rhs_row(
                        j,
                        &self.data,
                        &self.data_erased,
                        &self.parity[j],
                        s,
                    );
                    rhss.push(rrow);
                }
                j = j + 1;
            }
            let solved = solve_linear(&coeffs, &rhss, u, s);
            match solved {
                None => {
                    self.phase = SessionPhase::Finalized;
                    return Err(ReedSolError::CorruptData);
                },
                Some(xs) => {
                    let mut k: usize = 0;
                    while k < u
                        invariant
                            k <= u,
                            u == erased_idx@.len(),
                            xs@.len() == u,
                            forall|q: int| 0 <= q < u ==> xs@[q]@.len() == s,
                            forall|kk: int|
                                0 <= kk < u ==> erased_idx@[kk] < d && old(self).data_erased_view()[erased_idx@[kk] as int],
                            d == self.data@.len(),
                            s == self.shred_sz,
                            forall|ii: int| 0 <= ii < d ==> self.data@[ii]@.len() == s,
                            self.kind == old(self).kind_spec(),
                            self.phase == SessionPhase::Collecting,
                            self.shred_sz == old(self).shred_size(),
                            self.parity@ == old(self).parity@,
                            self.data_erased@ == old(self).data_erased@,
                            self.parity_erased@ == old(self).parity_erased@,
                            self.data@.len() == old(self).data@.len(),
                            forall|ii: int|
                                0 <= ii < d && !old(self).data_erased_view()[ii] ==> self.data@[ii]@
                                    == old(self).data@[ii]@,
                        decreases u - k,
                    {
                        let row = copy_row(&xs[k]);
                        let idx = erased_idx[k];
                        self.data[idx] = row;
                        k = k + 1;
                    }
                },
            }
        }
        // Recompute every parity row from the reconstructed data: overwrite
        // erased parity slots, check received ones.
        let mut j: usize = 0;
        while j < p
            invariant
                j <= p,
                d == self.data@.len(),
                p == self.parity@.len(),
                p <= PARITY_SHREDS_MAX,
                d <= DATA_SHREDS_MAX,
                s == self.shred_sz,
                old(self).wf(),
                old(self).kind_spec() == SessionKind::Recover,
                old(self).recover_fini_check() is None,
                count_true(old(self).data_erased_view()) == 0 ==> u == 0,
                forall|ii: int| 0 <= ii < d ==> self.data@[ii]@.len() == s,
                forall|jj: int| 0 <= jj < p ==> self.parity@[jj]@.len() == s,
                self.kind == old(self).kind_spec(),
                self.phase == SessionPhase::Collecting,
                self.shred_sz == old(self).shred_size(),
                self.data_erased@ == old(self).data_erased@,
                self.parity_erased@ == old(self).parity_erased@,
                d == self.data_erased@.len(),
                p == self.parity_erased@.len(),
                d == old(self).data@.len(),
                p == old(self).parity@.len(),
                forall|ii: int|
                    0 <= ii < d && !old(self).data_erased_view()[ii] ==> self.data@[ii]@ == old(
                        self,
                    ).data@[ii]@,
                forall|jj: int|
                    0 <= jj < p && !old(self).parity_erased_view()[jj] ==> self.parity@[jj]@ == old(
                        self,
                    ).parity@[jj]@,
                forall|jj: int|
                    0 <= jj < j ==> is_parity_row(
                        jj,
                        vecs_view(self.data@),
                        self.parity@[jj]@,
                        s as int,
                    ),
                u == 0 ==> self.data@ == old(self).data@,
            decreases p - j,
        {
            let row = compute_parity_row(j, &self.data, s);
            if self.parity_erased[j] {
                self.parity[j] = row;
            } else {
                if !rows_equal(&self.parity[j], &row) {
                    proof {
                        if count_true(old(self).data_erased_view()) == 0 && old(
                            self,
                        ).received_parity_consistent() {
                            assert(self.parity@[j as int]@ =~= row@);
                        }
                    }
                    self.phase = SessionPhase::Finalized;
                    return Err(ReedSolError::CorruptData);
                }
            }
            j = j + 1;
        }
        self.phase = SessionPhase::Finalized;
        proof {
            assert(is_parity_of(
                final(self).data_view(),
                final(self).parity_view(),
                old(self).shred_size(),
            ));
            if count_true(old(self).data_erased_view()) == 0 {
                assert(final(self).data_view() =~= old(self).data_view());
                assert forall|jj: int|
                    0 <= jj < old(self).parity_view().len() && !old(self).parity_erased_view()[jj]
                        implies is_parity_row(
                        jj,
                        old(self).data_view(),
                        old(self).parity_view()[jj],
                        old(self).shred_size(),
                    ) by {
                    assert(old(self).parity_view()[jj] == final(self).parity_view()[jj]);
                }
            }
        }
        Ok(())
    }
}

/// The generator coefficient `coef(j, i)`, computed by inverse search.
fn coef_exec(j: usize, i: usize) -> (r: u8)
    requires
        j < PARITY_SHREDS_MAX,
        i < DATA_SHREDS_MAX,
    ensures
        r == coef(j as int, i as int),
{
    let x: u8 = (0x80 + j) as u8;
    let y: u8 = i as u8;
    gf_inv_exec(x ^ y)
}

/// The coefficients of parity row `j` at every data column up to `d`.
fn coef_row(j: usize, d: usize) -> (cs: Vec<u8>)
    requires
        j < PARITY_SHREDS_MAX,
        d <= DATA_SHREDS_MAX,
    ensures
        cs@.len() == d,
        forall|i: int| 0 <= i < d ==> cs@[i] == coef(j as int, i),
{
    let mut cs: Vec<u8> = Vec::new();
    let mut i: usize = 0;
    while i < d
        invariant
            i <= d,
            d <= DATA_SHREDS_MAX,
            j < PARITY_SHREDS_MAX,
            cs@.len() == i,
            forall|ii: int| 0 <= ii < i ==> cs@[ii] == coef(j as int, ii),
        decreases d - i,
    {
        let c = coef_exec(j, i);
        cs.push(c);
        i = i + 1;
    }
    cs
}

/// Parity row `j` over the given data shreds, byte by byte.
fn compute_parity_row(j: usize, data: &Vec<Vec<u8>>, s: usize) -> (row: Vec<u8>)
    requires
        j < PARITY_SHREDS_MAX,
        data@.len() <= DATA_SHREDS_MAX,
        forall|i: int| 0 <= i < data@.len() ==> data@[i]@.len() == s,
    ensures
        is_parity_row(j as int, vecs_view(data@), row@, s as int),
{
    let d = data.len();
    let cs = coef_row(j, d);
    let mut row: Vec<u8> = Vec::new();
    let mut b: usize = 0;
    while b < s
        invariant
            b <= s,
            row@.len() == b,
            j < PARITY_SHREDS_MAX,
            d == data@.len(),
            data@.len() <= DATA_SHREDS_MAX,
            cs@.len() == d,
            forall|i: int| 0 <= i < d ==> cs@[i] == coef(j as int, i),
            forall|i: int| 0 <= i < data@.len() ==> data@[i]@.len() == s,
            forall|bb: int|
                0 <= bb < b ==> row@[bb] == parity_byte(j as int, vecs_view(data@), bb),
        decreases s - b,
    {
        let mut acc: u8 = 0;
        let mut i: usize = 0;
        while i < d
            invariant
                i <= d,
                b < s,
                j < PARITY_SHREDS_MAX,
                d == data@.len(),
                data@.len() <= DATA_SHREDS_MAX,
                cs@.len() == d,
                forall|ii: int| 0 <= ii < d ==> cs@[ii] == coef(j as int, ii),
                forall|ii: int| 0 <= ii < data@.len() ==> data@[ii]@.len() == s,
                acc == parity_byte_prefix(j as int, vecs_view(data@), b as int, i as int),
            decreases d - i,
        {
            let shred = &data[i];
            acc = acc ^ gf_mul_exec(cs[i], shred[b]);
            i = i + 1;
        }
        row.push(acc);
        b = b + 1;
    }
    row
}

/// Right-hand side of parity equation `j` restricted to the erased data
/// unknowns: the parity shred xor the contribution of every received data
/// shred.
fn build_rhs_row(
    j: usize,
    data: &Vec<Vec<u8>>,
    data_erased: &Vec<bool>,
    parity_j: &Vec<u8>,
    s: usize,
) -> (row: Vec<u8>)
    requires
        j < PARITY_SHREDS_MAX,
        data@.len() <= DATA_SHREDS_MAX,
        data_erased@.len() == data@.len(),
        forall|i: int| 0 <= i < data@.len() ==> data@[i]@.len() == s,
        parity_j@.len() == s,
    ensures
        row@.len() == s,
{
    let d = data.len();
    let cs = coef_row(j, d);
    let mut row: Vec<u8> = Vec::new();
    let mut b: usize = 0;
    while b < s
        invariant
            b <= s,
            row@.len() == b,
            j < PARITY_SHREDS_MAX,
            d == data@.len(),
            data@.len() <= DATA_SHREDS_MAX,
            data_erased@.len() == data@.len(),
            cs@.len() == d,
            forall|i: int| 0 <= i < data@.len() ==> data@[i]@.len() == s,
            parity_j@.len() == s,
        decreases s - b,
    {
        let mut acc: u8 = parity_j[b];
        let mut i: usize = 0;
        while i < d
            invariant
                i <= d,
                b < s,
                j < PARITY_SHREDS_MAX,
                d == data@.len(),
                data@.len() <= DATA_SHREDS_MAX,
                data_erased@.len() == data@.len(),
                cs@.len() == d,
                forall|ii: int| 0 <= ii < data@.len() ==> data@[ii]@.len() == s,
            decreases d - i,
        {
            if !data_erased[i] {
                let shred = &data[i];
                acc = acc ^ gf_mul_exec(cs[i], shred[b]);
            }
            i = i + 1;
        }
        row.push(acc);
        b = b + 1;
    }
    row
}

/// A row scaled by a field element.
fn scale_row(src: &Vec<u8>, f: u8) -> (r: Vec<u8>)
    ensures
        r@.len() == src@.len(),
{
    let mut r: Vec<u8> = Vec::new();
    let mut i: usize = 0;
    while i < src.len()
        invariant
            i <= src@.len(),
            r@.len() == i,
        decreases src@.len() - i,
    {
        r.push(gf_mul_exec(f, src[i]));
        i = i + 1;
    }
    r
}

/// `dst xor f * src`, element-wise.
fn axpy_row(dst: &Vec<u8>, f: u8, src: &Vec<u8>) -> (r: Vec<u8>)
    requires
        dst@.len() == src@.len(),
    ensures
        r@.len() == dst@.len(),
{
    let mut r: Vec<u8> = Vec::new();
    let mut i: usize = 0;
    while i < dst.len()
        invariant
            i <= dst@.len(),
            dst@.len() == src@.len(),
            r@.len() == i,
        decreases dst@.len() - i,
    {
        r.push(dst[i] ^ gf_mul_exec(f, src[i]));
        i = i + 1;
    }
    r
}

/// Whether two rows hold the same bytes.
fn rows_equal(x: &Vec<u8>, y: &Vec<u8>) -> (r: bool)
    ensures
        r == (x@ == y@),
{
    if x.len() != y.len() {
        proof {
            assert(x@ != y@);
        }
        return false;
    }
    let mut i: usize = 0;
    while i < x.len()
        invariant
            i <= x@.len(),
            x@.len() == y@.len(),
            forall|k: int| 0 <= k < i ==> x@[k] == y@[k],
        decreases x@.len() - i,
    {
        if x[i] != y[i] {
            proof {
                assert(x@ != y@);
            }
            return false;
        }
        i = i + 1;
    }
    proof {
        assert(x@ =~= y@);
    }
    true
}

/// How many flags of a slot class are set.
fn count_true_exec(v: &Vec<bool>) -> (r: usize)
    ensures
        r == count_true(v@),
        r <= v@.len(),
{
    let mut cnt: usize = 0;
    let mut i: usize = 0;
    while i < v.len()
        invariant
            i <= v@.len(),
            cnt <= i,
            cnt == count_true(v@.take(i as int)),
        decreases v@.len() - i,
    {
        proof {
            assert(v@.take(i + 1).drop_last() =~= v@.take(i as int));
            assert(v@.take(i + 1).last() == v@[i as int]);
        }
        if v[i] {
            cnt = cnt + 1;
        }
        i = i + 1;
    }
    proof {
        assert(v@.take(v@.len() as int) =~= v@);
    }
    cnt
}

/// Gauss-Jordan elimination over the field: `a0` holds one coefficient row
/// of `u` columns per surviving parity equation, `r0` the matching
/// right-hand sides of `s` bytes.  Answers the `u` solution rows, or `None`
/// when the elimination cannot exhibit a unique solution (no nonzero pivot
/// for some column).
fn solve_linear(a0: &Vec<Vec<u8>>, r0: &Vec<Vec<u8>>, u: usize, s: usize) -> (res: Option<
    Vec<Vec<u8>>,
>)
    requires
        a0@.len() == r0@.len(),
        forall|i: int| 0 <= i < a0@.len() ==> a0@[i]@.len() == u,
        forall|i: int| 0 <= i < r0@.len() ==> r0@[i]@.len() == s,
    ensures
        match res {
            Some(x) => x@.len() == u && forall|k: int| 0 <= k < u ==> x@[k]@.len() == s,
            None => true,
        },
{
    let m = a0.len();
    if u > m {
        return None;
    }
    let mut a: Vec<Vec<u8>> = Vec::new();
    let mut rhs: Vec<Vec<u8>> = Vec::new();
    let mut i: usize = 0;
    while i < m
        invariant
            i <= m,
            m == a0@.len(),
            a0@.len() == r0@.len(),
            forall|q: int| 0 <= q < a0@.len() ==> a0@[q]@.len() == u,
            forall|q: int| 0 <= q < r0@.len() ==> r0@[q]@.len() == s,
            a@.len() == i,
            rhs@.len() == i,
            forall|q: int| 0 <= q < i ==> a@[q]@.len() == u,
            forall|q: int| 0 <= q < i ==> rhs@[q]@.len() == s,
        decreases m - i,
    {
        let ca = copy_row(&a0[i]);
        a.push(ca);
        let cr = copy_row(&r0[i]);
        rhs.push(cr);
        i = i + 1;
    }
    let mut col: usize = 0;
    while col < u
        invariant
            col <= u,
            u <= m,
            a@.len() == m,
            rhs@.len() == m,
            forall|q: int| 0 <= q < m ==> a@[q]@.len() == u,
            forall|q: int| 0 <= q < m ==> rhs@[q]@.len() == s,
        decreases u - col,
    {
        // Find a row at or below `col` with a nonzero entry in this column.
        let mut piv: usize = m;
        let mut rr: usize = col;
        while rr < m
            invariant
                col <= rr,
                rr <= m,
                a@.len() == m,
                forall|q: int| 0 <= q < m ==> a@[q]@.len() == u,
                col < u,
                piv == m || piv < m,
            decreases m - rr,
        {
            if piv == m {
                let arow = &a[rr];
                if arow[col] != 0 {
                    piv = rr;
                }
            }
            rr = rr + 1;
        }
        if piv == m {
            return None;
        }
        if piv != col {
            let ta = copy_row(&a[piv]);
            let tr = copy_row(&rhs[piv]);
            let tb = copy_row(&a[col]);
            let ts = copy_row(&rhs[col]);
            a[piv] = tb;
            rhs[piv] = ts;
            a[col] = ta;
            rhs[col] = tr;
        }
        let arow = &a[col];
        let pv = arow[col];
        let inv = gf_inv_exec(pv);
        if gf_mul_exec(pv, inv) != 1 {
            return None;
        }
        let na = scale_row(&a[col], inv);
        a[col] = na;
        let nr = scale_row(&rhs[col], inv);
        rhs[col] = nr;
        let pa = copy_row(&a[col]);
        let pr = copy_row(&rhs[col]);
        let mut r2: usize = 0;
        while r2 < m
            invariant
                r2 <= m,
                col < u,
                u <= m,
                a@.len() == m,
                rhs@.len() == m,
                pa@.len() == u,
                pr@.len() == s,
                forall|q: int| 0 <= q < m ==> a@[q]@.len() == u,
                forall|q: int| 0 <= q < m ==> rhs@[q]@.len() == s,
            decreases m - r2,
        {
            if r2 != col {
                let xrow = &a[r2];
                let f = xrow[col];
                if f != 0 {
                    let n1 = axpy_row(&a[r2], f, &pa);
                    a[r2] = n1;
                    let n2 = axpy_row(&rhs[r2], f, &pr);
                    rhs[r2] = n2;
                }
            }
            r2 = r2 + 1;
        }
        col = col + 1;
    }
    let mut out: Vec<Vec<u8>> = Vec::new();
    let mut k: usize = 0;
    while k < u
        invariant
            k <= u,
            u <= m,
            rhs@.len() == m,
            forall|q: int| 0 <= q < m ==> rhs@[q]@.len() == s,
            out@.len() == k,
            forall|q: int| 0 <= q < k ==> out@[q]@.len() == s,
        decreases u - k,
    {
        let c = copy_row(&rhs[k]);
        out.push(c);
        k = k + 1;
    }
    Some(out)
}

/// The count of set flags is never negative and never exceeds the length.
pub proof fn lemma_count_true_bounds(s: Seq<bool>)
    ensures
        0 <= count_true(s) <= s.len(),
    decreases s.len(),
{
    if s.len() > 0 {
        lemma_count_true_bounds(s.drop_last());
    }
}

/// A class with no set flag has every flag unset.
pub proof fn lemma_count_true_zero(s: Seq<bool>)
    requires
        count_true(s) == 0,
    ensures
        forall|i: int| 0 <= i < s.len() ==> !s[i],
    decreases s.len(),
{
    if s.len() > 0 {
        lemma_count_true_bounds(s.drop_last());
        assert(!s.last());
        lemma_count_true_zero(s.drop_last());
        assert forall|i: int| 0 <= i < s.len() implies !s[i] by {
            if i < s.len() - 1 {
                assert(s.drop_last()[i] == s[i]);
            } else {
                assert(s[i] == s.last());
            }
        }
    }
}

/// Determinism law: parity is a function of the data shreds alone, so
/// encoding the same data twice, in any session and on any machine, yields
/// byte-identical parity.
pub proof fn lemma_encode_deterministic(
    data: Seq<Seq<u8>>,
    parity1: Seq<Seq<u8>>,
    parity2: Seq<Seq<u8>>,
    s: int,
)
    requires
        is_parity_of(data, parity1, s),
        is_parity_of(data, parity2, s),
        parity1.len() == parity2.len(),
    ensures
        parity1 == parity2,
{
    assert forall|j: int| 0 <= j < parity1.len() implies parity1[j] == parity2[j] by {
        assert(parity1[j] =~= parity2[j]);
    }
    assert(parity1 =~= parity2);
}

/// Round-trip law, parity-erasure instance: a successful recovery that
/// received every data shred (`recover_fini` keeps them unchanged and
/// answers a valid codeword) reconstructs parity byte-identical to what the
/// encoder produced from that data.  The erased-data instance of the
/// round trip holds only through the invertibility of the Cauchy generator
/// submatrices, which this module checks at run time (a failed solve or an
/// inconsistent codeword answers `CorruptData`) rather than proving.
pub proof fn lemma_round_trip_parity_erasures(
    data: Seq<Seq<u8>>,
    encoded: Seq<Seq<u8>>,
    recovered: Seq<Seq<u8>>,
    s: int,
)
    requires
        is_parity_of(data, encoded, s),
        is_parity_of(data, recovered, s),
        encoded.len() == recovered.len(),
    ensures
        recovered == encoded,
{
    lemma_encode_deterministic(data, encoded, recovered, s);
}

/// A fresh owned copy of a byte buffer.
fn copy_row(src: &Vec<u8>) -> (r: Vec<u8>)
    ensures
        r@ == src@,
{
    let mut r: Vec<u8> = Vec::new();
    let mut i: usize = 0;
    while i < src.len()
        invariant
            i <= src@.len(),
            r@ == src@.take(i as int),
        decreases src@.len() - i,
    {
        r.push(src[i]);
        proof {
            assert(r@ =~= src@.take(i + 1));
        }
        i = i + 1;
    }
    proof {
        assert(src@.take(src@.len() as int) =~= src@);
    }
    r
}

} // verus!
