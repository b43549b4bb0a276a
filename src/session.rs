use vstd::prelude::*;
use crate::locator::{not_found_message, not_found_text, texts};
use crate::ident::{identifier_from_bytes, random_bytes, v4_text};
use crate::registry::SessionRegistry;

verus! {

/// Why a session could not be started.
pub enum StartError {
    /// No pseudo-terminal pair could be allocated; the detail is the system's.
    PtyAllocationFailed(String),
    /// The program was found nowhere; every place searched, in order.
    SidecarNotFound(Vec<String>),
    /// The program could not be launched.
    SpawnFailed(String),
    /// No reader (`writer` false) or no writer (`writer` true) could be had
    /// from the controlling side.
    PtyIoSetupFailed { writer: bool, detail: String },
    /// The identifier was issued before (for a fresh random one: every draw
    /// clashed with an identifier already issued).
    DuplicateIdentifier,
    /// The operating system gave no random bytes for an identifier.
    IdentifierUnavailable,
    /// The session table's lock was poisoned.
    LockPoisoned,
}

/// Why an operation on a session failed.
pub enum SessionError {
    /// No live session has that identifier.
    SessionNotFound,
    /// The session table's lock was poisoned.
    LockPoisoned,
    /// The session's writer lock was poisoned.
    WriterLockPoisoned,
    /// Writing to the terminal failed.
    WriteFailed(String),
    /// The terminal refused the new size.
    ResizeFailed(String),
}

pub open spec fn state_lock_text() -> Seq<char> {
    "failed to lock session state"@
}

/// The text of a start failure.
pub open spec fn start_error_text(e: StartError) -> Seq<char> {
    match e {
        StartError::PtyAllocationFailed(d) => d@,
        StartError::SidecarNotFound(t) => not_found_text(texts(t@)),
        StartError::SpawnFailed(d) => "failed to start popper: "@ + d@,
        StartError::PtyIoSetupFailed { writer, detail } => if writer {
            "failed to take pty writer: "@ + detail@
        } else {
            "failed to clone pty reader: "@ + detail@
        },
        StartError::DuplicateIdentifier => "session identifier already in use"@,
        StartError::IdentifierUnavailable => "failed to generate session identifier"@,
        StartError::LockPoisoned => state_lock_text(),
    }
}

/// The text of a session failure.
pub open spec fn session_error_text(e: SessionError) -> Seq<char> {
    match e {
        SessionError::SessionNotFound => "session not found"@,
        SessionError::LockPoisoned => state_lock_text(),
        SessionError::WriterLockPoisoned => "failed to lock writer"@,
        SessionError::WriteFailed(d) => "write error: "@ + d@,
        SessionError::ResizeFailed(d) => "resize error: "@ + d@,
    }
}

fn text_of(prefix: &str, detail: &String) -> (r: String)
    ensures
        r@ == prefix@ + detail@,
{
    let mut r = String::new();
    r.append(prefix);
    r.append(detail.as_str());
    r
}

fn literal(s: &str) -> (r: String)
    ensures
        r@ == s@,
{
    let mut r = String::new();
    r.append(s);
    assert(r@ =~= s@);
    r
}

impl StartError {
    /// The message handed to the caller of `start`.
    pub fn message(&self) -> (r: String)
        ensures
            r@ == start_error_text(*self),
    {
        match self {
            StartError::PtyAllocationFailed(d) => d.clone(),
            StartError::SidecarNotFound(t) => not_found_message(t),
            StartError::SpawnFailed(d) => text_of("failed to start popper: ", d),
            StartError::PtyIoSetupFailed { writer, detail } => if *writer {
                text_of("failed to take pty writer: ", detail)
            } else {
                text_of("failed to clone pty reader: ", detail)
            },
            StartError::DuplicateIdentifier => literal("session identifier already in use"),
            StartError::IdentifierUnavailable => literal("failed to generate session identifier"),
            StartError::LockPoisoned => literal("failed to lock session state"),
        }
    }
}

impl SessionError {
    /// The message handed to the caller of `write` or `resize`.
    pub fn message(&self) -> (r: String)
        ensures
            r@ == session_error_text(*self),
    {
        match self {
            SessionError::SessionNotFound => literal("session not found"),
            SessionError::LockPoisoned => literal("failed to lock session state"),
            SessionError::WriterLockPoisoned => literal("failed to lock writer"),
            SessionError::WriteFailed(d) => text_of("write error: ", d),
            SessionError::ResizeFailed(d) => text_of("resize error: ", d),
        }
    }
}

/// How many random identifiers a start draws before it gives up on clashes.
pub const MAX_DRAWS: usize = 4;

/// Registers `handle` under `id`, which must never have been issued by this
/// table; an identifier issued before is refused and nothing changes.
pub fn register_with_id<H>(sessions: &mut SessionRegistry<H>, id: String, handle: H) -> (r: Result<
    String,
    StartError,
>)
    requires
        old(sessions).wf(),
    ensures
        final(sessions).wf(),
        r.is_ok() == !old(sessions).issued().contains(id@),
        r matches Ok(k) ==> {
            &&& k@ == id@
            &&& !old(sessions)@.contains_key(id@)
            &&& final(sessions)@ == old(sessions)@.insert(id@, handle)
            &&& final(sessions).issued() == old(sessions).issued().insert(id@)
        },
        r matches Err(e) ==> {
            &&& e is DuplicateIdentifier
            &&& final(sessions)@ == old(sessions)@
            &&& final(sessions).issued() == old(sessions).issued()
        },
{
    let key = id.clone();
    if sessions.insert(id, handle) {
        Ok(key)
    } else {
        Err(StartError::DuplicateIdentifier)
    }
}

/// Whether `k` is the text of some random identifier.
pub open spec fn is_v4_text(k: Seq<char>) -> bool {
    exists|b: Seq<u8>| b.len() == 16 && k == #[trigger] v4_text(b)
}

/// Registers a new session under the identifier made from the random bytes
/// `b`, unless that identifier was issued before.
pub fn register_with_bytes<H>(sessions: &mut SessionRegistry<H>, b: [u8; 16], handle: H) -> (r:
    Result<String, StartError>)
    requires
        old(sessions).wf(),
    ensures
        final(sessions).wf(),
        r.is_ok() == !old(sessions).issued().contains(v4_text(b@)),
        r matches Ok(k) ==> {
            &&& k@ == v4_text(b@)
            &&& k@.len() == 36
            &&& final(sessions)@ == old(sessions)@.insert(k@, handle)
            &&& final(sessions).issued() == old(sessions).issued().insert(k@)
        },
        r matches Err(e) ==> {
            &&& e is DuplicateIdentifier
            &&& final(sessions)@ == old(sessions)@
            &&& final(sessions).issued() == old(sessions).issued()
        },
{
    let id = identifier_from_bytes(b);
    register_with_id(sessions, id, handle)
}

/// Registers a new session under a fresh random identifier and returns that
/// identifier. On success the identifier is a random identifier never issued
/// before, and exactly one session, `handle`, is added under it. A draw that
/// clashes with an issued identifier is drawn again, up to `MAX_DRAWS` times;
/// the start fails only when the operating system gives no random bytes, or
/// when every draw clashed, which needs an issued random identifier. On
/// failure nothing changes.
pub fn register_session<H>(sessions: &mut SessionRegistry<H>, handle: H) -> (r: Result<
    String,
    StartError,
>)
    requires
        old(sessions).wf(),
    ensures
        final(sessions).wf(),
        r matches Ok(k) ==> {
            &&& is_v4_text(k@)
            &&& k@.len() == 36
            &&& !old(sessions).issued().contains(k@)
            &&& !old(sessions)@.contains_key(k@)
            &&& final(sessions)@ == old(sessions)@.insert(k@, handle)
            &&& final(sessions).issued() == old(sessions).issued().insert(k@)
        },
        r matches Err(e) ==> {
            &&& e is IdentifierUnavailable || e is DuplicateIdentifier
            &&& final(sessions)@ == old(sessions)@
            &&& final(sessions).issued() == old(sessions).issued()
        },
        r matches Err(StartError::DuplicateIdentifier) ==> exists|k: Seq<char>|
            #[trigger] old(sessions).issued().contains(k) && is_v4_text(k),
{
    let mut draws: usize = 0;
    while draws < MAX_DRAWS
        invariant
            sessions.wf(),
            sessions@ == old(sessions)@,
            sessions.issued() == old(sessions).issued(),
            draws > 0 ==> exists|k: Seq<char>| #[trigger] old(sessions).issued().contains(k) && is_v4_text(k),
        decreases MAX_DRAWS - draws,
    {
        match random_bytes() {
            None => {
                return Err(StartError::IdentifierUnavailable);
            },
            Some(b) => {
                let id = identifier_from_bytes(b);
                proof {
                    assert(is_v4_text(id@)) by {
                        assert(b@.len() == 16);
                    }
                }
                if !sessions.was_issued(&id) {
                    let r = register_with_id(sessions, id, handle);
                    return r;
                }
            },
        }
        draws = draws + 1;
    }
    Err(StartError::DuplicateIdentifier)
}

/// The session that `write` or `resize` acts on.
pub fn lookup_session<'a, H>(sessions: &'a SessionRegistry<H>, id: &String) -> (r: Result<
    &'a H,
    SessionError,
>)
    requires
        sessions.wf(),
    ensures
        r.is_ok() == sessions@.contains_key(id@),
        r matches Ok(h) ==> *h == sessions@[id@],
        r matches Err(e) ==> e is SessionNotFound,
{
    match sessions.get(id) {
        Some(h) => Ok(h),
        None => Err(SessionError::SessionNotFound),
    }
}

/// Ends a session on request: it leaves the table at once and its handle is
/// handed back so that its process can be killed. An identifier that is not
/// live is a no-op.
pub fn terminate_session<H>(sessions: &mut SessionRegistry<H>, id: &String) -> (r: Option<H>)
    requires
        old(sessions).wf(),
    ensures
        final(sessions).wf(),
        final(sessions)@ == old(sessions)@.remove(id@),
        final(sessions).issued() == old(sessions).issued(),
        r.is_some() == old(sessions)@.contains_key(id@),
        r matches Some(h) ==> h == old(sessions)@[id@],
{
    sessions.remove(id)
}

/// Terminating twice is terminating once: the second call finds nothing,
/// hands nothing back and changes nothing, and the identifier is then not
/// found by `write` or `resize`.
pub proof fn terminate_is_idempotent<H>(sessions: Map<Seq<char>, H>, id: Seq<char>)
    ensures
        sessions.remove(id).remove(id) == sessions.remove(id),
        !sessions.remove(id).contains_key(id),
{
    assert(sessions.remove(id).remove(id) =~= sessions.remove(id));
}

/// Two sessions registered one after the other have distinct identifiers, and
/// each identifier leads to its own handle only.
pub proof fn registered_sessions_are_independent<H>(
    before: Map<Seq<char>, H>,
    first: Seq<char>,
    first_handle: H,
    second: Seq<char>,
    second_handle: H,
)
    requires
        !before.contains_key(first),
        !before.insert(first, first_handle).contains_key(second),
    ensures
        first != second,
        before.insert(first, first_handle).insert(second, second_handle)[first] == first_handle,
        before.insert(first, first_handle).insert(second, second_handle)[second] == second_handle,
{
}

proof fn lemma_issued_grows(ids: Seq<Seq<char>>, issued: Seq<Set<Seq<char>>>, i: int, j: int)
    requires
        issued.len() == ids.len() + 1,
        forall|n: int|
            0 <= n < ids.len() ==> #[trigger] issued[n].insert(ids[n]).subset_of(issued[n + 1]),
        0 <= i < j <= ids.len(),
    ensures
        issued[j].contains(ids[i]),
    decreases j - i,
{
    let n = j - 1;
    assert(issued[n].insert(ids[n]).subset_of(issued[n + 1]));
    assert(n + 1 == j);
    if j != i + 1 {
        lemma_issued_grows(ids, issued, i, n);
    }
    assert(issued[n].insert(ids[n]).contains(ids[i]));
}

/// Any number of successful starts on one table give pairwise distinct
/// identifiers. `issued[n]` is the table's record of issued identifiers when
/// the `n`-th start registers `ids[n]`: that start found it unissued and added
/// it, and whatever ran in between (other starts, terminations, cleanups)
/// removed nothing from the record.
pub proof fn started_ids_are_distinct(ids: Seq<Seq<char>>, issued: Seq<Set<Seq<char>>>)
    requires
        issued.len() == ids.len() + 1,
        forall|n: int| 0 <= n < ids.len() ==> !(#[trigger] issued[n]).contains(ids[n]),
        forall|n: int|
            0 <= n < ids.len() ==> #[trigger] issued[n].insert(ids[n]).subset_of(issued[n + 1]),
    ensures
        forall|a: int, b: int| 0 <= a < b < ids.len() ==> ids[a] != ids[b],
{
    assert forall|a: int, b: int| 0 <= a < b < ids.len() implies ids[a] != ids[b] by {
        lemma_issued_grows(ids, issued, a, b);
        assert(!issued[b].contains(ids[b]));
    }
}

} // verus!
