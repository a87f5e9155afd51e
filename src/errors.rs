//! Exception bridge: drains a failure left pending by the host, describes it,
//! and classifies it as recoverable or fatal. The host's answers to the
//! introspection calls (class name, message, whether the exception is a
//! host fatal error) are captured in a `PendingException`; a failed answer
//! is itself a failure raised while describing another one.
use vstd::prelude::*;
use vstd::string::StringExecFns;

verus! {

/// Category of a failed host call.
#[derive(Debug, Clone, Copy, PartialEq, Eq, Structural)]
pub enum JniErrorKind {
    /// The call left an exception pending on the host side.
    JavaException,
    /// Any other failure of the host interface.
    Other,
}

/// A failed host call.
#[derive(Debug, Clone)]
pub struct JniError {
    pub kind: JniErrorKind,
    pub description: String,
}

pub type JniResult<T> = Result<T, JniError>;

/// A forced fatal outcome: the caller must abort with `message` rather than
/// continue in a possibly inconsistent state.
#[derive(Debug, Clone)]
pub struct Fatal {
    pub message: String,
}

/// A pending host exception with the host's answers about it.
#[derive(Debug)]
pub struct PendingException {
    pub class_name: JniResult<String>,
    pub message: JniResult<Option<String>>,
    /// Whether the exception belongs to the reserved host-fatal category.
    pub is_error: JniResult<bool>,
}

/// The host's pending-failure slot, cleared by the single reader that drains it.
pub struct PendingFailure {
    pending: Option<PendingException>,
}

impl View for PendingFailure {
    type V = Option<PendingException>;

    closed spec fn view(&self) -> Option<PendingException> {
        self.pending
    }
}

/// Thread-local flag set while a failure is being described.
pub struct RecursionGuard {
    active: bool,
}

impl View for RecursionGuard {
    type V = bool;

    closed spec fn view(&self) -> bool {
        self.active
    }
}

pub const NO_EXCEPTION: &'static str = "No exception thrown.";

pub const RECURSIVE_DESCRIPTION: &'static str =
    "Recursive JNI error: a failure was raised while describing another one";

pub open spec fn jni_failure(e: JniError) -> Seq<char> {
    "JNI error: "@ + e.description@
}

pub open spec fn recursive_failure(e: JniError) -> Seq<char> {
    "Recursive JNI error: "@ + e.description@
}

/// What a failed introspection call escalates to.
pub open spec fn introspection_failure(e: JniError) -> Seq<char> {
    match e.kind {
        JniErrorKind::JavaException => recursive_failure(e),
        JniErrorKind::Other => jni_failure(e),
    }
}

/// The `Debug` rendering of an optional exception message.
pub uninterp spec fn debug_of_message(m: Option<Seq<char>>) -> Seq<char>;

pub open spec fn opt_view(m: Option<String>) -> Option<Seq<char>> {
    match m {
        Some(s) => Some(s@),
        None => None,
    }
}

/// "Java exception: CLASS; MESSAGE"
pub open spec fn description_of(class_name: Seq<char>, m: Option<Seq<char>>) -> Seq<char> {
    "Java exception: "@ + class_name + "; "@ + debug_of_message(m)
}

/// Describing `ex` with the guard in state `active`: the description, or the
/// message of the fatal failure that describing forces.
pub open spec fn spec_describe(active: bool, ex: PendingException) -> Result<Seq<char>, Seq<char>> {
    if active {
        Err(RECURSIVE_DESCRIPTION@)
    } else {
        match ex.class_name {
            Err(e) => Err(introspection_failure(e)),
            Ok(c) => match ex.message {
                Err(e) => Err(introspection_failure(e)),
                Ok(m) => Ok(description_of(c@, opt_view(m))),
            },
        }
    }
}

/// Aggressive mode on a pending exception: the message of the forced fatal failure.
pub open spec fn spec_aggressive(active: bool, pending: Option<PendingException>) -> Seq<char> {
    match pending {
        None => NO_EXCEPTION@,
        Some(ex) => match spec_describe(active, ex) {
            Ok(d) => d,
            Err(f) => f,
        },
    }
}

/// Lenient mode on a pending exception: `Ok` with the description of a
/// recoverable exception, `Err` with the message of a forced fatal failure.
pub open spec fn spec_lenient(active: bool, pending: Option<PendingException>) -> Result<
    Seq<char>,
    Seq<char>,
> {
    match pending {
        None => Err(NO_EXCEPTION@),
        Some(ex) => match spec_describe(active, ex) {
            Err(f) => Err(f),
            Ok(d) => match ex.is_error {
                Ok(true) => Err(d),
                Ok(false) => Ok(d),
                Err(e) => Err(introspection_failure(e)),
            },
        },
    }
}

/// `r` is a forced fatal failure with message `m`.
pub open spec fn is_fatal<T>(r: Result<T, Fatal>, m: Seq<char>) -> bool {
    r matches Err(f) && f.message@ == m
}

/// `r` is a recoverable failure described by `d`.
pub open spec fn is_recovered<T>(r: Result<Result<T, String>, Fatal>, d: Seq<char>) -> bool {
    r matches Ok(Err(s)) && s@ == d
}

/// Relies on `<Option<String> as Debug>::fmt`, whose text depends on the
/// message alone.
#[verifier::external_body]
fn message_debug(m: &Option<String>) -> (r: String)
    ensures
        r@ == debug_of_message(opt_view(*m)),
{
    format!("{:?}", m)
}

fn fatal_from(prefix: &str, e: &JniError) -> (r: Fatal)
    ensures
        r.message@ == prefix@ + e.description@,
{
    Fatal { message: String::from_str(prefix).concat(e.description.as_str()) }
}

fn introspection_fatal(e: &JniError) -> (r: Fatal)
    ensures
        r.message@ == introspection_failure(*e),
{
    match e.kind {
        JniErrorKind::JavaException => fatal_from("Recursive JNI error: ", e),
        JniErrorKind::Other => fatal_from("JNI error: ", e),
    }
}

impl PendingFailure {
    /// A slot with nothing pending.
    pub fn new() -> (r: Self)
        ensures
            r@ is None,
    {
        PendingFailure { pending: None }
    }

    /// Records that the host now has `ex` pending, replacing any earlier one.
    pub fn raise(&mut self, ex: PendingException)
        ensures
            final(self)@ == Some(ex),
    {
        self.pending = Some(ex);
    }

    /// Whether a failure is pending.
    pub fn is_pending(&self) -> (r: bool)
        ensures
            r == self@ is Some,
    {
        self.pending.is_some()
    }
}

impl RecursionGuard {
    pub fn new() -> (r: Self)
        ensures
            r@ == false,
    {
        RecursionGuard { active: false }
    }

    pub fn is_active(&self) -> (r: bool)
        ensures
            r == self@,
    {
        self.active
    }

    /// Marks the start of a description. If one is already in progress the
    /// failure is recursive: the guard is cleared and the outcome is fatal.
    pub fn begin_description(&mut self) -> (r: Result<(), Fatal>)
        ensures
            final(self)@ == !old(self)@,
            old(self)@ ==> is_fatal(r, RECURSIVE_DESCRIPTION@),
            !old(self)@ ==> r is Ok,
    {
        if self.active {
            self.active = false;
            Err(Fatal { message: String::from_str(RECURSIVE_DESCRIPTION) })
        } else {
            self.active = true;
            Ok(())
        }
    }

    /// Marks the end of a description.
    pub fn end_description(&mut self)
        ensures
            final(self)@ == false,
    {
        self.active = false;
    }
}

/// Unwraps the result of a host call; any failure is fatal.
pub fn unwrap_jni<T>(res: JniResult<T>) -> (r: Result<T, Fatal>)
    ensures
        match res {
            Ok(v) => r == Ok::<T, Fatal>(v),
            Err(e) => is_fatal(r, jni_failure(e)),
        },
{
    match res {
        Ok(v) => Ok(v),
        Err(e) => Err(fatal_from("JNI error: ", &e)),
    }
}

/// Takes (and clears) the exception that is currently pending; that none is
/// pending is fatal.
pub fn get_and_clear_java_exception(state: &mut PendingFailure) -> (r: Result<
    PendingException,
    Fatal,
>)
    ensures
        final(state)@ is None,
        match old(state)@ {
            Some(ex) => r == Ok::<PendingException, Fatal>(ex),
            None => is_fatal(r, NO_EXCEPTION@),
        },
{
    let mut taken: Option<PendingException> = None;
    std::mem::swap(&mut taken, &mut state.pending);
    match taken {
        Some(ex) => Ok(ex),
        None => Err(Fatal { message: String::from_str(NO_EXCEPTION) }),
    }
}

/// Describes `ex` as "Java exception: CLASS; MESSAGE". A failure of the
/// introspection calls, or a description requested while another one is in
/// progress, forces a fatal outcome. The guard is clear afterwards.
pub fn describe_java_exception(guard: &mut RecursionGuard, ex: &PendingException) -> (r: Result<
    String,
    Fatal,
>)
    ensures
        final(guard)@ == false,
        match spec_describe(old(guard)@, *ex) {
            Ok(d) => r matches Ok(s) && s@ == d,
            Err(f) => r matches Err(x) && x.message@ == f,
        },
{
    if let Err(f) = guard.begin_description() {
        return Err(f);
    }
    let r = match &ex.class_name {
        Err(e) => Err(introspection_fatal(e)),
        Ok(c) => match &ex.message {
            Err(e) => Err(introspection_fatal(e)),
            Ok(m) => {
                let d = String::from_str("Java exception: ").concat(c.as_str()).concat(
                    "; ",
                ).concat(message_debug(m).as_str());
                Ok(d)
            },
        },
    };
    guard.end_description();
    r
}

/// Aggressive translation: the value of a successful call; otherwise a
/// forced fatal failure, described from the pending exception when the call
/// left one.
pub fn panic_on_exception<T>(
    state: &mut PendingFailure,
    guard: &mut RecursionGuard,
    result: JniResult<T>,
) -> (r: Result<T, Fatal>)
    ensures
        match result {
            Ok(v) => r == Ok::<T, Fatal>(v) && final(state)@ == old(state)@ && final(guard)@
                == old(guard)@,
            Err(e) => match e.kind {
                JniErrorKind::JavaException => final(state)@ is None && final(guard)@ == false
                    && is_fatal(r, spec_aggressive(old(guard)@, old(state)@)),
                JniErrorKind::Other => final(state)@ == old(state)@ && final(guard)@
                    == old(guard)@ && is_fatal(r, jni_failure(e)),
            },
        },
{
    match result {
        Ok(v) => Ok(v),
        Err(e) => match e.kind {
            JniErrorKind::JavaException => {
                let ex = get_and_clear_java_exception(state);
                match ex {
                    Err(f) => {
                        guard.active = false;
                        Err(f)
                    },
                    Ok(ex) => match describe_java_exception(guard, &ex) {
                        Ok(d) => Err(Fatal { message: d }),
                        Err(f) => Err(f),
                    },
                }
            },
            JniErrorKind::Other => Err(fatal_from("JNI error: ", &e)),
        },
    }
}

/// Lenient translation: `Ok(Ok(v))` for a successful call; `Ok(Err(text))`
/// with the description of a recoverable pending exception; a forced fatal
/// failure for an exception of the host-fatal category, for any other
/// failure of the host interface, and for a failure while describing.
pub fn check_error_on_exception<T>(
    state: &mut PendingFailure,
    guard: &mut RecursionGuard,
    result: JniResult<T>,
) -> (r: Result<Result<T, String>, Fatal>)
    ensures
        match result {
            Ok(v) => r == Ok::<Result<T, String>, Fatal>(Ok(v)) && final(state)@ == old(state)@
                && final(guard)@ == old(guard)@,
            Err(e) => match e.kind {
                JniErrorKind::JavaException => final(state)@ is None && final(guard)@ == false
                    && match spec_lenient(old(guard)@, old(state)@) {
                    Ok(d) => is_recovered(r, d),
                    Err(m) => is_fatal(r, m),
                },
                JniErrorKind::Other => final(state)@ == old(state)@ && final(guard)@
                    == old(guard)@ && is_fatal(r, jni_failure(e)),
            },
        },
{
    match result {
        Ok(v) => Ok(Ok(v)),
        Err(e) => match e.kind {
            JniErrorKind::JavaException => {
                let ex = get_and_clear_java_exception(state);
                match ex {
                    Err(f) => {
                        guard.active = false;
                        Err(f)
                    },
                    Ok(ex) => match describe_java_exception(guard, &ex) {
                        Err(f) => Err(f),
                        Ok(d) => match &ex.is_error {
                            Ok(true) => Err(Fatal { message: d }),
                            Ok(false) => Ok(Err(d)),
                            Err(ie) => Err(introspection_fatal(ie)),
                        },
                    },
                }
            },
            JniErrorKind::Other => Err(fatal_from("JNI error: ", &e)),
        },
    }
}

/// Unwraps the result of a host call, describing a pending exception in the
/// fatal message. A failure that reaches this point while the guard is set
/// (a failure raised while describing another one) clears the guard and is
/// fatal at once, without describing anything.
pub fn unwrap_jni_verbose<T>(
    state: &mut PendingFailure,
    guard: &mut RecursionGuard,
    res: JniResult<T>,
) -> (r: Result<T, Fatal>)
    ensures
        match res {
            Ok(v) => r == Ok::<T, Fatal>(v) && final(state)@ == old(state)@ && final(guard)@
                == old(guard)@,
            Err(e) => final(guard)@ == false && if old(guard)@ {
                final(state)@ == old(state)@ && is_fatal(r, recursive_failure(e))
            } else {
                match e.kind {
                    JniErrorKind::JavaException => final(state)@ is None && is_fatal(r, spec_aggressive(false, old(state)@)),
                    JniErrorKind::Other => final(state)@ == old(state)@ && is_fatal(r, jni_failure(e)),
                }
            },
        },
{
    match res {
        Ok(v) => Ok(v),
        Err(e) => {
            if guard.active {
                guard.active = false;
                Err(fatal_from("Recursive JNI error: ", &e))
            } else {
                panic_on_exception(state, guard, Err(e))
            }
        },
    }
}

/// Draining a recoverable exception (answered introspection, not of the
/// host-fatal category) in lenient mode yields a non-empty description and
/// no fatal outcome; the slot is then empty, so a second drain finds nothing
/// pending.
pub proof fn lemma_recoverable_drain(ex: PendingException)
    requires
        ex.class_name is Ok,
        ex.message is Ok,
        ex.is_error == Ok::<bool, JniError>(false),
    ensures
        spec_lenient(false, Some(ex)) is Ok,
        spec_lenient(false, Some(ex))->Ok_0.len() > 0,
        spec_lenient(false, None) == Err::<Seq<char>, Seq<char>>(NO_EXCEPTION@),
{
    reveal_strlit("Java exception: ");
    let d = spec_lenient(false, Some(ex))->Ok_0;
    assert(d =~= "Java exception: "@ + ex.class_name->Ok_0@ + "; "@ + debug_of_message(
        opt_view(ex.message->Ok_0),
    ));
    assert(d[0] == "Java exception: "@[0]);
}

/// An exception of the host-fatal category is never downgraded: lenient mode
/// forces the same fatal outcome as aggressive mode, whatever the state of
/// the guard.
pub proof fn lemma_fatal_category_escalates(active: bool, ex: PendingException)
    requires
        ex.is_error == Ok::<bool, JniError>(true),
    ensures
        spec_lenient(active, Some(ex)) == Err::<Seq<char>, Seq<char>>(
            spec_aggressive(active, Some(ex)),
        ),
{
}

} // verus!
