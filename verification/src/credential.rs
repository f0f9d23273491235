//! The Credential Store: a process-wide cell holding the completion
//! provider's API key (fixed for the process lifetime) and the platform
//! access token (replaced by each successful refresh).

use vstd::prelude::*;
use vstd::rwlock::{ReadHandle, RwLock, RwLockPredicate};

verus! {

/// The shared bot state: an immutable completion API key and a mutable
/// platform access token. Before the first refresh the token is empty,
/// which callers treat as "not yet authenticated", never as an error.
pub struct BotState {
    pub openai_key: String,
    pub access_token: String,
}

/// Mathematical model of a `BotState`: the two strings as char sequences.
pub struct CredentialView {
    pub openai_key: Seq<char>,
    pub access_token: Seq<char>,
}

impl View for BotState {
    type V = CredentialView;

    open spec fn view(&self) -> CredentialView {
        CredentialView { openai_key: self.openai_key@, access_token: self.access_token@ }
    }
}

impl Clone for BotState {
    fn clone(&self) -> (r: Self)
        ensures
            r@ == self@,
    {
        BotState { openai_key: self.openai_key.clone(), access_token: self.access_token.clone() }
    }
}

/// The state after a token install: the key is kept, the token replaced.
pub open spec fn with_token(v: CredentialView, token: Seq<char>) -> CredentialView {
    CredentialView { openai_key: v.openai_key, access_token: token }
}

impl BotState {
    /// Fresh state with an empty access token, as at process start.
    pub fn initial(openai_key: String) -> (r: BotState)
        ensures
            r@.openai_key == openai_key@,
            r@.access_token == Seq::<char>::empty(),
    {
        BotState { openai_key, access_token: String::new() }
    }

    /// The single-writer update: replace the access token, keep the key.
    pub fn install_token(&mut self, token: String)
        ensures
            final(self)@ == with_token(old(self)@, token@),
    {
        self.access_token = token;
    }

    /// An immutable copy of the current key/token pair.
    pub fn snapshot(&self) -> (r: BotState)
        ensures
            r@ == self@,
    {
        self.clone()
    }
}

/// One operation on the credential state, as the store sees them: the
/// refresher's install of a fresh token, or a reader's snapshot, which
/// changes nothing.
pub enum StoreOp {
    Install { token: Seq<char> },
    Read,
}

/// The state after a history of operations, applied left to right.
pub open spec fn run_ops(v: CredentialView, ops: Seq<StoreOp>) -> CredentialView
    decreases ops.len(),
{
    if ops.len() == 0 {
        v
    } else {
        let rest = run_ops(v, ops.drop_last());
        match ops.last() {
            StoreOp::Install { token } => with_token(rest, token),
            StoreOp::Read => rest,
        }
    }
}

/// Read-after-write over whole histories: once a refresh installs a
/// token, any number of reads leaves the state untouched, so every read
/// taken before the next install observes exactly the installed token,
/// under the key the store always had.
pub proof fn lemma_reads_preserve_installed_token(
    v: CredentialView,
    token: Seq<char>,
    ops: Seq<StoreOp>,
)
    requires
        forall|i: int| 0 <= i < ops.len() ==> ops[i] is Read,
    ensures
        run_ops(with_token(v, token), ops) == with_token(v, token),
        run_ops(with_token(v, token), ops).access_token == token,
    decreases ops.len(),
{
    if ops.len() > 0 {
        assert(forall|i: int| 0 <= i < ops.drop_last().len() ==> ops.drop_last()[i] is Read);
        lemma_reads_preserve_installed_token(v, token, ops.drop_last());
    }
}

/// What any history can leave in the store: reads change nothing and an
/// install replaces the token whole, so the token read after any history
/// is either the one the store began with or exactly the token of some
/// completed install — never a mixture — and the key is the original key.
pub proof fn lemma_read_is_initial_or_installed(v0: CredentialView, ops: Seq<StoreOp>)
    ensures
        run_ops(v0, ops).openai_key == v0.openai_key,
        run_ops(v0, ops).access_token == v0.access_token || (exists|i: int|
            0 <= i < ops.len() && (#[trigger] ops[i]) is Install && run_ops(v0, ops).access_token
                == ops[i]->token),
    decreases ops.len(),
{
    if ops.len() > 0 {
        lemma_read_is_initial_or_installed(v0, ops.drop_last());
        match ops.last() {
            StoreOp::Install { token } => {
                assert(ops[ops.len() - 1] is Install && run_ops(v0, ops).access_token == ops[ops.len()
                    - 1]->token);
            },
            StoreOp::Read => {
                if run_ops(v0, ops.drop_last()).access_token != v0.access_token {
                    let i = choose|i: int|
                        0 <= i < ops.drop_last().len() && (#[trigger] ops.drop_last()[i]) is Install
                            && run_ops(v0, ops.drop_last()).access_token == ops.drop_last()[i]->token;
                    assert(ops[i] == ops.drop_last()[i]);
                }
            },
        }
    }
}

/// The store's invariant, fixed at construction: every value the lock
/// ever holds carries this API key. Only whole `BotState` values pass
/// through the lock, so a reader observes either the initial state or a
/// state some completed write committed — never a torn one.
pub struct KeyFixed {
    pub openai_key: Seq<char>,
}

impl RwLockPredicate<BotState> for KeyFixed {
    open spec fn inv(self, v: BotState) -> bool {
        v@.openai_key == self.openai_key
    }
}

/// The Credential Store: the one shared mutable resource of the process.
/// Any number of readers proceed concurrently; a write excludes them only
/// for the instant of replacement, and is done only by the refresher.
pub struct CredentialStore {
    lock: RwLock<BotState, KeyFixed>,
}

impl CredentialStore {
    /// The API key this store was created with; every stored value
    /// carries it.
    pub closed spec fn key(&self) -> Seq<char> {
        self.lock.pred().openai_key
    }

    /// A store holding the given key and an empty access token, as at
    /// process start, before the first refresh.
    pub fn new(openai_key: String) -> (s: Self)
        ensures
            s.key() == openai_key@,
    {
        let ghost pred = KeyFixed { openai_key: openai_key@ };
        let initial = BotState::initial(openai_key);
        CredentialStore { lock: RwLock::new(initial, Ghost(pred)) }
    }

    /// A non-blocking-for-other-readers read: an immutable copy of the
    /// current key/token pair. Whatever writes ran or run beside it, the
    /// copy is a whole stored value — it satisfies the store invariant,
    /// and in particular carries the fixed API key.
    pub fn read(&self) -> (r: BotState)
        ensures
            r@.openai_key == self.key(),
    {
        let handle = self.lock.acquire_read();
        let snapshot = handle.borrow().snapshot();
        handle.release_read();
        snapshot
    }

    /// Two reads whose read-locks overlap observe exactly the same stored
    /// value: a write is exclusive, so it can never interleave between
    /// them and no read sees half of one.
    pub fn overlapping_reads_agree(&self) -> (r: (BotState, BotState))
        ensures
            r.0@ == r.1@,
            r.0@.openai_key == self.key(),
    {
        let first = self.lock.acquire_read();
        let second = self.lock.acquire_read();
        proof {
            ReadHandle::lemma_readers_match(&first, &second);
        }
        let a = first.borrow().snapshot();
        let b = second.borrow().snapshot();
        first.release_read();
        second.release_read();
        (a, b)
    }

    /// The single-writer update: install a fresh access token. The key is
    /// kept, so the store invariant is preserved and every later read
    /// returns this token until the next install.
    pub fn write_token(&self, token: String) {
        let (mut state, handle) = self.lock.acquire_write();
        state.install_token(token);
        handle.release_write(state);
    }
}

} // verus!
